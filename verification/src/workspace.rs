//! Checks of the license-header lint: the required header, safe workspace
//! member paths, directories skipped by the walk, and the member list of a
//! workspace manifest.
use vstd::prelude::*;
use vstd::string::StringSliceAdditionalSpecFns;

verus! {

/// The copyright header every `.rs` file must start with.
pub const LICENSE_HEADER: &'static str = "// Copyright Coraza Kubernetes Operator contributors.\n//\n// Licensed under the Apache License, Version 2.0 (the \"License\");\n// you may not use this file except in compliance with the License.\n// You may obtain a copy of the License at\n//\n// http://www.apache.org/licenses/LICENSE-2.0\n//\n// Unless required by applicable law or agreed to in writing, software\n// distributed under the License is distributed on an \"AS IS\" BASIS,\n// WITHOUT WARRANTIES OR CONDITIONS OF ANY KIND, either express or implied.\n// See the License for the specific language governing permissions and\n// limitations under the License.\n";

/// `s` starts with `p`.
pub open spec fn starts_with_bytes(s: Seq<u8>, p: Seq<u8>) -> bool {
    s.len() >= p.len() && s.subrange(0, p.len() as int) == p
}

/// `s` starts with `p`.
fn bytes_start_with(s: &[u8], p: &[u8]) -> (r: bool)
    ensures
        r == starts_with_bytes(s@, p@),
{
    if s.len() < p.len() {
        return false;
    }
    let mut i: usize = 0;
    while i < p.len()
        invariant
            p@.len() <= s@.len(),
            i <= p@.len(),
            forall|k: int| 0 <= k < i ==> s@[k] == p@[k],
        decreases p@.len() - i,
    {
        if s[i] != p[i] {
            return false;
        }
        i += 1;
    }
    assert(s@.subrange(0, p@.len() as int) =~= p@);
    true
}

/// The file content starts with [`LICENSE_HEADER`].
pub fn has_license_header(content: &str) -> (r: bool)
    ensures
        r == starts_with_bytes(content.spec_bytes(), LICENSE_HEADER.spec_bytes()),
{
    bytes_start_with(content.as_bytes(), LICENSE_HEADER.as_bytes())
}

/// A `..` path component stands at `b[i..i + 2]`.
pub open spec fn parent_component_at(b: Seq<u8>, i: int) -> bool {
    &&& 0 <= i
    &&& i + 2 <= b.len()
    &&& b[i] == 46
    &&& b[i + 1] == 46
    &&& (i == 0 || b[i - 1] == 47)
    &&& (i + 2 == b.len() || b[i + 2] == 47)
}

/// A relative path (no leading `/`) without any `..` component.
pub open spec fn spec_is_safe_member(b: Seq<u8>) -> bool {
    &&& !(b.len() > 0 && b[0] == 47)
    &&& forall|i: int| !#[trigger] parent_component_at(b, i)
}

/// Returns `true` when `member` is a relative path without parent-directory components.
pub fn is_safe_workspace_member(member: &str) -> (r: bool)
    ensures
        r == spec_is_safe_member(member.spec_bytes()),
{
    let b = member.as_bytes();
    let n = b.len();
    if n > 0 && b[0] == 47 {
        return false;
    }
    let mut i: usize = 0;
    while i < n
        invariant
            n == b@.len(),
            b@ == member.spec_bytes(),
            i <= n,
            forall|j: int| 0 <= j < i ==> !#[trigger] parent_component_at(b@, j),
        decreases n - i,
    {
        if n - i >= 2 && b[i] == 46 && b[i + 1] == 46 && (i == 0 || b[i - 1] == 47) && (n - i == 2 || b[i + 2]
            == 47) {
            assert(parent_component_at(b@, i as int));
            return false;
        }
        i += 1;
    }
    assert forall|j: int| !#[trigger] parent_component_at(b@, j) by {
        if 0 <= j < n {
        }
    }
    true
}

/// `.git`, `target` and hidden directories are not walked.
pub open spec fn spec_is_skipped_dir(b: Seq<u8>) -> bool {
    b == seq![116u8, 97, 114, 103, 101, 116] || b == seq![46u8, 103, 105, 116] || (b.len() > 0 && b[0] == 46)
}

/// The walk skips this directory name: `target`, `.git`, or any hidden directory.
pub fn is_skipped_dir(name: &str) -> (r: bool)
    ensures
        r == spec_is_skipped_dir(name.spec_bytes()),
{
    let b = name.as_bytes();
    let target: [u8; 6] = [116u8, 97, 114, 103, 101, 116];
    let git: [u8; 4] = [46u8, 103, 105, 116];
    let is_target = b.len() == 6 && bytes_start_with(b, target.as_slice());
    let is_git = b.len() == 4 && bytes_start_with(b, git.as_slice());
    proof {
        if b@.len() == 6 {
            assert(b@.subrange(0, 6) =~= b@);
        }
        if b@.len() == 4 {
            assert(b@.subrange(0, 4) =~= b@);
        }
    }
    is_target || is_git || (b.len() > 0 && b[0] == 46)
}

/// `path` lies under `root`: its components begin with all of `root`'s.
pub open spec fn components_under(root: Seq<Seq<u8>>, path: Seq<Seq<u8>>) -> bool {
    root.len() <= path.len() && forall|i: int| 0 <= i < root.len() ==> root[i] == path[i]
}

/// The two byte strings are equal.
fn bytes_equal(a: &[u8], b: &[u8]) -> (r: bool)
    ensures
        r == (a@ == b@),
{
    if a.len() != b.len() {
        return false;
    }
    let mut i: usize = 0;
    while i < a.len()
        invariant
            a@.len() == b@.len(),
            i <= a@.len(),
            forall|k: int| 0 <= k < i ==> a@[k] == b@[k],
        decreases a@.len() - i,
    {
        if a[i] != b[i] {
            return false;
        }
        i += 1;
    }
    assert(a@ =~= b@);
    true
}

/// Whether a path, given by the bytes of its components, lies under the
/// root, given the same way (component-wise prefix).
pub fn path_within_root(root: &Vec<Vec<u8>>, path: &Vec<Vec<u8>>) -> (r: bool)
    ensures
        r == components_under(root.deep_view(), path.deep_view()),
{
    if root.len() > path.len() {
        return false;
    }
    let mut i: usize = 0;
    while i < root.len()
        invariant
            root@.len() <= path@.len(),
            i <= root@.len(),
            forall|k: int| 0 <= k < i ==> root.deep_view()[k] == path.deep_view()[k],
        decreases root@.len() - i,
    {
        proof {
            assert(root.deep_view()[i as int] =~= root@[i as int]@);
            assert(path.deep_view()[i as int] =~= path@[i as int]@);
        }
        if !bytes_equal(root[i].as_slice(), path[i].as_slice()) {
            return false;
        }
        i += 1;
    }
    true
}

/// The entries of the array stored under `key` in the table `table` of a
/// TOML text, each as its text when it is a string: what the TOML parser
/// reads there.
pub uninterp spec fn toml_array_entries_of(content: Seq<char>, table: Seq<char>, key: Seq<char>) -> Option<
    Seq<Option<Seq<char>>>,
>;

/// `str::parse::<toml::Value>`, then `Value::get` of `table` and of `key`,
/// `Value::as_array`, and `Value::as_str` of each entry: the entries of that
/// array, each as its text when it is a string, or `None` when the text is
/// not TOML or holds no such array. The result depends on the arguments
/// alone and is named `toml_array_entries_of`; nothing more is stated of it.
#[verifier::external_body]
fn toml_array_entries(content: &str, table: &str, key: &str) -> (r: Option<Vec<Option<String>>>)
    ensures
        r.deep_view() == toml_array_entries_of(content@, table@, key@),
{
    let document = content.parse::<toml::Value>().ok()?;
    let items = document.get(table)?.get(key)?.as_array()?;
    Some(items.iter().map(|item| item.as_str().map(str::to_owned)).collect())
}

/// The member paths of a list of entries: all of them, in order, when the
/// list is not empty and every entry is a string; else none.
pub open spec fn members_of_entries(e: Seq<Option<Seq<char>>>) -> Option<Seq<Seq<char>>> {
    if e.len() > 0 && forall|i: int| 0 <= i < e.len() ==> (#[trigger] e[i]) is Some {
        Some(Seq::new(e.len(), |i: int| e[i]->0))
    } else {
        None
    }
}

/// The `[workspace].members` paths of a manifest text.
pub open spec fn spec_workspace_members(content: Seq<char>) -> Option<Seq<Seq<char>>> {
    match toml_array_entries_of(content, "workspace"@, "members"@) {
        None => None,
        Some(e) => members_of_entries(e),
    }
}

/// Every entry of a member list read from the manifest is a string.
pub open spec fn all_strings(items: Seq<Option<String>>) -> bool {
    forall|i: int| 0 <= i < items.len() ==> (#[trigger] items[i]) is Some
}

/// The member paths of a `[workspace].members` list whose entries were read
/// as strings (`None` for an entry that is not one): all of them, in order,
/// when the list is not empty and every entry is a string; else `None`.
pub fn workspace_members_from(items: &Vec<Option<String>>) -> (r: Option<Vec<String>>)
    ensures
        r is Some <==> items@.len() > 0 && all_strings(items@),
        r matches Some(v) ==> v@.len() == items@.len() && forall|i: int|
            0 <= i < v@.len() ==> #[trigger] v@[i]@ == items@[i]->0@,
{
    let mut out: Vec<String> = Vec::new();
    let mut i: usize = 0;
    while i < items.len()
        invariant
            i <= items@.len(),
            out@.len() == i,
            forall|k: int| 0 <= k < i ==> (#[trigger] items@[k]) is Some,
            forall|k: int| 0 <= k < i ==> #[trigger] out@[k]@ == items@[k]->0@,
        decreases items@.len() - i,
    {
        match &items[i] {
            Some(s) => out.push(s.clone()),
            None => return None,
        }
        i += 1;
    }
    if out.len() == 0 {
        None
    } else {
        Some(out)
    }
}

/// The `[workspace].members` paths of a `Cargo.toml` text; `None` when the
/// text is not TOML, the list is missing, holds a non-string, or is empty.
pub fn extract_workspace_members(content: &str) -> (r: Option<Vec<String>>)
    ensures
        r.deep_view() == spec_workspace_members(content@),
{
    let entries = toml_array_entries(content, "workspace", "members")?;
    let r = workspace_members_from(&entries);
    proof {
        let e = entries.deep_view();
        assert(e.len() == entries@.len());
        assert forall|i: int| 0 <= i < e.len() implies (e[i] is Some) == (#[trigger] entries@[i] is Some) by {
            assert(e[i] == entries@[i].deep_view());
        }
        assert(all_strings(entries@) == (forall|i: int| 0 <= i < e.len() ==> (#[trigger] e[i]) is Some));
        if r is Some {
            let v = r->0;
            assert forall|i: int| 0 <= i < v@.len() implies v.deep_view()[i] == e[i]->0 by {
                assert(e[i] == entries@[i].deep_view());
                assert(v@[i]@ == entries@[i]->0@);
            }
            assert(v.deep_view() =~= Seq::new(e.len(), |i: int| e[i]->0));
        }
    }
    r
}

} // verus!
