//! Bounds-checked accessors for `SqliState` tokens and fingerprint bytes.
use vstd::prelude::*;
use crate::sqli::legacy::consts::BYTE_NULL;
use crate::sqli::legacy::state::SqliState;
use crate::sqli::legacy::token::SqliToken;

verus! {

impl<'a> SqliState<'a> {
    /// Category of token `idx` (`BYTE_NULL` when out of range).
    pub open spec fn spec_tc(&self, idx: int) -> u8 {
        if 0 <= idx < 8 {
            self.token_vec@[idx].category
        } else {
            BYTE_NULL
        }
    }

    /// Token category at `idx`, or `BYTE_NULL` if out of bounds.
    pub fn tc(&self, idx: usize) -> (r: u8)
        ensures
            r == self.spec_tc(idx as int),
    {
        if idx < 8 {
            self.token_vec[idx].category
        } else {
            BYTE_NULL
        }
    }

    /// Set token category at `idx` (no effect when out of range).
    pub fn set_tc(&mut self, idx: usize, cat: u8)
        requires
            old(self).wf(),
        ensures
            final(self).wf(),
            final(self).input == old(self).input,
            final(self).length == old(self).length,
            final(self).flags == old(self).flags,
            final(self).pos == old(self).pos,
            final(self).current_idx == old(self).current_idx,
            final(self).fingerprint == old(self).fingerprint,
            final(self).fingerprint_len == old(self).fingerprint_len,
            final(self).stats_tokens == old(self).stats_tokens,
            final(self).stats_comment_ddx == old(self).stats_comment_ddx,
            final(self).stats_comment_hash == old(self).stats_comment_hash,
            final(self).stats_folds == old(self).stats_folds,
            idx < 8 ==> final(self).token_vec@ == old(self).token_vec@.update(
                idx as int,
                SqliToken { category: cat, ..old(self).token_vec@[idx as int] },
            ),
            idx >= 8 ==> final(self).token_vec == old(self).token_vec,
    {
        if idx < 8 {
            let mut t = self.token_vec[idx];
            t.category = cat;
            self.token_vec[idx] = t;
        }
    }

    /// Token `len` at `idx`, or `0` if out of bounds.
    pub fn token_len(&self, idx: usize) -> (r: usize)
        requires
            self.wf(),
        ensures
            idx < 8 ==> r == self.token_vec@[idx as int].len,
            idx >= 8 ==> r == 0,
            r < 32,
    {
        if idx < 8 {
            self.token_vec[idx].len
        } else {
            0
        }
    }

    /// Token `pos` at `idx`, or `0` if out of bounds.
    pub fn token_pos(&self, idx: usize) -> (r: usize)
        ensures
            idx < 8 ==> r == self.token_vec@[idx as int].pos,
            idx >= 8 ==> r == 0,
    {
        if idx < 8 {
            self.token_vec[idx].pos
        } else {
            0
        }
    }

    /// Token `str_open` at `idx`, or `0` if out of bounds.
    pub fn token_str_open(&self, idx: usize) -> (r: u8)
        ensures
            idx < 8 ==> r == self.token_vec@[idx as int].str_open,
            idx >= 8 ==> r == 0,
    {
        if idx < 8 {
            self.token_vec[idx].str_open
        } else {
            0
        }
    }

    /// Token `str_close` at `idx`, or `0` if out of bounds.
    pub fn token_str_close(&self, idx: usize) -> (r: u8)
        ensures
            idx < 8 ==> r == self.token_vec@[idx as int].str_close,
            idx >= 8 ==> r == 0,
    {
        if idx < 8 {
            self.token_vec[idx].str_close
        } else {
            0
        }
    }

    /// Significant value bytes of token `idx` (empty if out of bounds).
    pub open spec fn spec_token_val(&self, idx: int) -> Seq<u8> {
        if 0 <= idx < 8 {
            self.token_vec@[idx].spec_val()
        } else {
            Seq::empty()
        }
    }

    /// Token value at `idx`, or `&[]` if out of bounds.
    pub fn token_val_slice(&self, idx: usize) -> (r: &[u8])
        requires
            self.wf(),
        ensures
            r@ == self.spec_token_val(idx as int),
    {
        if idx < 8 {
            self.token_vec[idx].val_slice()
        } else {
            let e: &[u8] = &[];
            e
        }
    }

    /// Byte `byte_idx` of token `idx` value, if in range.
    pub fn token_val_byte(&self, idx: usize, byte_idx: usize) -> (r: Option<u8>)
        requires
            self.wf(),
        ensures
            byte_idx < self.spec_token_val(idx as int).len() ==> r == Some(
                self.spec_token_val(idx as int)[byte_idx as int],
            ),
            byte_idx >= self.spec_token_val(idx as int).len() ==> r is None,
    {
        let v = self.token_val_slice(idx);
        if byte_idx < v.len() {
            Some(v[byte_idx])
        } else {
            None
        }
    }

    /// Check `is_unary_op()` on token at `idx`.
    pub fn token_is_unary_op(&self, idx: usize) -> (r: bool)
        requires
            self.wf(),
        ensures
            r == (idx < 8 && self.token_vec@[idx as int].spec_is_unary_op()),
    {
        if idx < 8 {
            self.token_vec[idx].is_unary_op()
        } else {
            false
        }
    }

    /// Check `is_arithmetic_op()` on token at `idx`.
    pub fn token_is_arithmetic_op(&self, idx: usize) -> (r: bool)
        ensures
            r == (idx < 8 && self.token_vec@[idx as int].spec_is_arithmetic_op()),
    {
        if idx < 8 {
            self.token_vec[idx].is_arithmetic_op()
        } else {
            false
        }
    }

    /// Set a token at `idx` (no effect when out of range).
    pub fn set_token(&mut self, idx: usize, tok: SqliToken)
        requires
            old(self).wf(),
            tok.wf(),
        ensures
            final(self).wf(),
            final(self).input == old(self).input,
            final(self).length == old(self).length,
            final(self).flags == old(self).flags,
            final(self).pos == old(self).pos,
            final(self).current_idx == old(self).current_idx,
            final(self).fingerprint == old(self).fingerprint,
            final(self).fingerprint_len == old(self).fingerprint_len,
            final(self).stats_tokens == old(self).stats_tokens,
            final(self).stats_comment_ddx == old(self).stats_comment_ddx,
            final(self).stats_comment_hash == old(self).stats_comment_hash,
            final(self).stats_folds == old(self).stats_folds,
            idx < 8 ==> final(self).token_vec@ == old(self).token_vec@.update(idx as int, tok),
            idx >= 8 ==> final(self).token_vec == old(self).token_vec,
    {
        if idx < 8 {
            self.token_vec[idx] = tok;
        }
    }

    /// Copy token from `src` index to `dst` index.
    pub fn copy_token(&mut self, dst: usize, src: usize)
        requires
            old(self).wf(),
        ensures
            final(self).wf(),
            final(self).input == old(self).input,
            final(self).length == old(self).length,
            final(self).flags == old(self).flags,
            final(self).pos == old(self).pos,
            final(self).current_idx == old(self).current_idx,
            final(self).fingerprint == old(self).fingerprint,
            final(self).fingerprint_len == old(self).fingerprint_len,
            final(self).stats_tokens == old(self).stats_tokens,
            final(self).stats_comment_ddx == old(self).stats_comment_ddx,
            final(self).stats_comment_hash == old(self).stats_comment_hash,
            final(self).stats_folds == old(self).stats_folds,
            src < 8 && dst < 8 ==> final(self).token_vec@ == old(self).token_vec@.update(
                dst as int,
                old(self).token_vec@[src as int],
            ),
            !(src < 8 && dst < 8) ==> final(self).token_vec == old(self).token_vec,
    {
        if src < 8 {
            let tok = self.token_vec[src];
            self.set_token(dst, tok);
        }
    }

    /// Fingerprint byte `idx` (`0` when out of range).
    pub open spec fn spec_fp(&self, idx: int) -> u8 {
        if 0 <= idx < 5 {
            self.fingerprint@[idx]
        } else {
            0
        }
    }

    /// Fingerprint byte at `idx`, or `0` if out of bounds.
    pub fn fp(&self, idx: usize) -> (r: u8)
        ensures
            r == self.spec_fp(idx as int),
    {
        if idx < 5 {
            self.fingerprint[idx]
        } else {
            0
        }
    }

    /// Set fingerprint byte at `idx` (no effect when out of range).
    pub fn set_fp(&mut self, idx: usize, val: u8)
        requires
            old(self).wf(),
        ensures
            final(self).wf(),
            final(self).input == old(self).input,
            final(self).length == old(self).length,
            final(self).flags == old(self).flags,
            final(self).token_vec == old(self).token_vec,
            final(self).fingerprint_len == old(self).fingerprint_len,
            final(self).stats_tokens == old(self).stats_tokens,
            final(self).stats_comment_ddx == old(self).stats_comment_ddx,
            final(self).stats_comment_hash == old(self).stats_comment_hash,
            final(self).stats_folds == old(self).stats_folds,
            final(self).pos == old(self).pos,
            final(self).current_idx == old(self).current_idx,
            idx < 5 ==> final(self).fingerprint@ == old(self).fingerprint@.update(idx as int, val),
            idx >= 5 ==> final(self).fingerprint == old(self).fingerprint,
    {
        if idx < 5 {
            self.fingerprint[idx] = val;
        }
    }
}

} // verus!
