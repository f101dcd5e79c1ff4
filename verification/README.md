# libinjection

SQL-injection and XSS construct detection for WAF hot paths, written in Verus
and proved against its specifications.

The library classifies untrusted input and returns a fixed-size
`AnalysisSnapshot` (construct bits, status flags, a verdict hint, the parse
context, evidence spans and, for `@detectSQLi`, the fingerprint of the
libinjection engine). `detect_sqli` / `detect_xss` add the built-in policy.

## Layout

- `src/lib.rs` – the public `analyze_*` / `detect_*` functions and the
  specifications of what they return.
- `src/engine/` – ASCII helpers, bounded normalization, prefilters, the
  stage-1 tokenizer, evidence spans and verdict hints.
- `src/sqli/modern`, `src/xss/modern` – the stage-1 construct detectors.
- `src/sqli/legacy` – the libinjection SQL tokenizer, folder, fingerprint
  blacklist and whitelist; `lex.rs` and `passes.rs` state the tokenizer and
  the fingerprinting passes as specifications.
- `src/xss/legacy` – the HTML5 tokenizer and the deny lists.
- `src/laws.rs`, `src/engine/verdict.rs` – properties of the public
  functions, proved.
- `src/workspace.rs` – the checks behind the license-header lint.
- `app/` – the license-header lint as a command-line program.
- `tests/` – unit and scenario tests.
