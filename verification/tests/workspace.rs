use libinjection::workspace::{
    extract_workspace_members, has_license_header, is_safe_workspace_member, is_skipped_dir, path_within_root,
    workspace_members_from,
    LICENSE_HEADER,
};

#[test]
fn is_safe_workspace_member_accepts_relative_paths() {
    assert!(is_safe_workspace_member("crate-a"));
    assert!(is_safe_workspace_member("crates/nested"));
}

#[test]
fn is_safe_workspace_member_rejects_unsafe_paths() {
    assert!(!is_safe_workspace_member("/tmp/crate-a"));
    assert!(!is_safe_workspace_member("../outside"));
    assert!(!is_safe_workspace_member("crate-a/../../outside"));
}

#[test]
fn extract_workspace_members_parses_multiline_array() {
    let cargo_toml = r#"
[workspace]
members = [
    "libinjection-rs",
    "xtask",
]
"#;
    assert_eq!(
        extract_workspace_members(cargo_toml),
        Some(vec!["libinjection-rs".to_owned(), "xtask".to_owned(),])
    );
}

#[test]
fn extract_workspace_members_parses_inline_array() {
    let cargo_toml = "[workspace]\nmembers = [\"crate-a\", \"crate-b\"] # comment\n";
    assert_eq!(
        extract_workspace_members(cargo_toml),
        Some(vec!["crate-a".to_owned(), "crate-b".to_owned()])
    );
}

#[test]
fn extract_workspace_members_rejects_missing_empty_and_invalid() {
    assert_eq!(extract_workspace_members("[package]\nname = \"x\"\n"), None);
    assert_eq!(extract_workspace_members("[workspace]\nmembers = []\n"), None);
    assert_eq!(extract_workspace_members("[workspace]\nmembers = [1]\n"), None);
    assert_eq!(extract_workspace_members("not = [toml"), None);
}

#[test]
fn safe_member_edge_cases() {
    assert!(is_safe_workspace_member("a/..b"));
    assert!(is_safe_workspace_member("..."));
    assert!(is_safe_workspace_member("./crate"));
    assert!(!is_safe_workspace_member(".."));
    assert!(!is_safe_workspace_member("a/.."));
    assert!(!is_safe_workspace_member("a//../b"));
}

#[test]
fn license_header_prefix_is_required() {
    let good = format!("{LICENSE_HEADER}\nfn main() {{}}\n");
    assert!(has_license_header(&good));
    assert!(!has_license_header("fn main() {}\n"));
    assert!(!has_license_header(&LICENSE_HEADER[..LICENSE_HEADER.len() - 1]));
}

#[test]
fn skipped_directories() {
    assert!(is_skipped_dir("target"));
    assert!(is_skipped_dir(".git"));
    assert!(is_skipped_dir(".hidden"));
    assert!(!is_skipped_dir("src"));
    assert!(!is_skipped_dir("targets"));
}

#[test]
fn members_from_entries_keeps_strings_in_order() {
    let items = vec![Some("crate-a".to_owned()), Some("crates/*".to_owned())];
    assert_eq!(workspace_members_from(&items), Some(vec!["crate-a".to_owned(), "crates/*".to_owned()]));
    assert_eq!(workspace_members_from(&vec![Some("a".to_owned()), None]), None);
    assert_eq!(workspace_members_from(&Vec::new()), None);
}

#[test]
fn path_within_root_compares_whole_components() {
    let root = vec![b"/".to_vec(), b"ws".to_vec()];
    assert!(path_within_root(&root, &vec![b"/".to_vec(), b"ws".to_vec(), b"src".to_vec()]));
    assert!(path_within_root(&root, &root));
    assert!(!path_within_root(&root, &vec![b"/".to_vec(), b"wsx".to_vec()]));
    assert!(!path_within_root(&root, &vec![b"/".to_vec()]));
}
