//! Constants of the legacy `SQLi` engine: parser flags, lookup kinds, token types, limits.
use vstd::prelude::*;

verus! {

/// Parse input as-is (no simulated quote context).
pub const FLAG_QUOTE_NONE: u32 = 1;
/// Simulate `'...'` at pos 0.
pub const FLAG_QUOTE_SINGLE: u32 = 2;
/// Simulate `"..."` at pos 0.
pub const FLAG_QUOTE_DOUBLE: u32 = 4;
/// ANSI SQL: `--[not-white]` is a comment; `#` is an operator.
pub const FLAG_SQL_ANSI: u32 = 8;
/// `MySQL`: `#` is an EOL comment; `--foo` is two unary `-`.
pub const FLAG_SQL_MYSQL: u32 = 16;

/// Word lookup (keywords, functions, types).
pub const LOOKUP_WORD: u8 = 1;
/// Operator lookup.
pub const LOOKUP_OPERATOR: u8 = 3;
/// Fingerprint lookup (used by the blacklist check).
pub const LOOKUP_FINGERPRINT: u8 = 4;

/// Null byte (no delimiter / unset).
pub const BYTE_NULL: u8 = 0;
/// Single-quote delimiter.
pub const BYTE_SINGLE: u8 = 39;
/// Double-quote delimiter.
pub const BYTE_DOUBLE: u8 = 34;
/// Backtick delimiter.
pub const BYTE_TICK: u8 = 96;

/// No token emitted (whitespace consumed).
pub const TT_NONE: u8 = 0;
/// Generic SQL keyword (`k`).
pub const TT_KEYWORD: u8 = 107;
/// `UNION` / `UNION ALL` (`U`).
pub const TT_UNION: u8 = 85;
/// `GROUP BY` (`B`).
pub const TT_GROUP: u8 = 66;
/// `SELECT`, `CASE`, `WHEN`, ... (`E`).
pub const TT_EXPRESSION: u8 = 69;
/// `CAST`, `CHAR`, collation types (`t`).
pub const TT_SQLTYPE: u8 = 116;
/// SQL function call (`f`).
pub const TT_FUNCTION: u8 = 102;
/// Unrecognized identifier (`n`).
pub const TT_BAREWORD: u8 = 110;
/// Numeric literal (`1`).
pub const TT_NUMBER: u8 = 49;
/// `@var` / `@@var` (`v`).
pub const TT_VARIABLE: u8 = 118;
/// Quoted string (`s`).
pub const TT_STRING: u8 = 115;
/// `=`, `||`, `>=`, ... (`o`).
pub const TT_OPERATOR: u8 = 111;
/// `AND`, `OR`, `XOR` (`&`).
pub const TT_LOGIC_OPERATOR: u8 = 38;
/// Comment (`--`, `#`, `/* */`) (`c`).
pub const TT_COMMENT: u8 = 99;
/// `COLLATE` (`A`).
pub const TT_COLLATE: u8 = 65;
/// `(`.
pub const TT_LPAREN: u8 = 40;
/// `)`.
pub const TT_RPAREN: u8 = 41;
/// `{`.
pub const TT_LBRACE: u8 = 123;
/// `}`.
pub const TT_RBRACE: u8 = 125;
/// `.` (dot / member access).
pub const TT_DOT: u8 = 46;
/// `,`.
pub const TT_COMMA: u8 = 44;
/// `:`.
pub const TT_COLON: u8 = 58;
/// `;`.
pub const TT_SEMICOLON: u8 = 59;
/// T-SQL `IF` after `;` (`T`).
pub const TT_TSQL: u8 = 84;
/// Unrecognized byte (`?`).
pub const TT_UNKNOWN: u8 = 63;
/// Unparseable (nested `/*`, `MySQL` brace-backtick, etc.) (`X`).
pub const TT_EVIL: u8 = 88;
/// Fingerprint match marker (table value only, never in output) (`F`).
pub const TT_FINGERPRINT: u8 = 70;
/// T-SQL backslash (transient, folded away) (`\`).
pub const TT_BACKSLASH: u8 = 92;

/// Maximum folded tokens in a fingerprint.
pub const MAX_TOKENS: usize = 5;
/// Token value buffer size (values keep at most `TOKEN_SIZE - 1` bytes).
pub const TOKEN_SIZE: usize = 32;

} // verus!
