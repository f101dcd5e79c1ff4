//! Bounded normalization into a fixed buffer (best-effort, detection-only).
use vstd::prelude::*;
use crate::engine::ascii::{lower, to_lower};
use crate::limits::NORM_BUF_LEN;

verus! {

/// Value of one hex digit, if `b` is one.
pub open spec fn spec_hex_nibble(b: u8) -> Option<u8> {
    if 48 <= b <= 57 {
        Some((b - 48) as u8)
    } else if 97 <= b <= 102 {
        Some((b - 97 + 10) as u8)
    } else if 65 <= b <= 70 {
        Some((b - 65 + 10) as u8)
    } else {
        None
    }
}

/// The byte that a `%HH` sequence at `input[i..]` decodes to, if one stands there.
pub open spec fn spec_decode_percent(input: Seq<u8>, i: int) -> Option<u8> {
    if 0 <= i && i + 2 < input.len() && input[i] == 37 && spec_hex_nibble(input[i + 1]) is Some
        && spec_hex_nibble(input[i + 2]) is Some {
        Some((spec_hex_nibble(input[i + 1]).unwrap() * 16 + spec_hex_nibble(input[i + 2]).unwrap()) as u8)
    } else {
        None
    }
}

/// Normalized bytes of `input[i..]` with room for `budget` output bytes, and
/// whether input was left over when the room ran out: NUL bytes are dropped,
/// one layer of `%HH` is decoded, ASCII letters are lowercased.
pub open spec fn spec_norm_from(input: Seq<u8>, i: int, budget: int) -> (Seq<u8>, bool)
    decreases input.len() - i,
{
    if i < 0 || i >= input.len() {
        (Seq::empty(), false)
    } else if budget <= 0 {
        (Seq::empty(), true)
    } else if input[i] == 0 {
        spec_norm_from(input, i + 1, budget)
    } else if spec_decode_percent(input, i) is Some {
        let rest = spec_norm_from(input, i + 3, budget - 1);
        (seq![lower(spec_decode_percent(input, i).unwrap())] + rest.0, rest.1)
    } else {
        let rest = spec_norm_from(input, i + 1, budget - 1);
        (seq![lower(input[i])] + rest.0, rest.1)
    }
}

/// The bounded normalization of a whole input (at most [`NORM_BUF_LEN`] bytes).
pub open spec fn spec_normalize(input: Seq<u8>) -> (Seq<u8>, bool) {
    spec_norm_from(input, 0, NORM_BUF_LEN as int)
}

/// Source span `(start, end)` in `input` of each normalized byte produced from `input[i..]`.
pub open spec fn spec_units_from(input: Seq<u8>, i: int) -> Seq<(int, int)>
    decreases input.len() - i,
{
    if i < 0 || i >= input.len() {
        Seq::empty()
    } else if input[i] == 0 {
        spec_units_from(input, i + 1)
    } else if spec_decode_percent(input, i) is Some {
        seq![(i, i + 3)] + spec_units_from(input, i + 3)
    } else {
        seq![(i, i + 1)] + spec_units_from(input, i + 1)
    }
}

/// Every source span produced from `input[i..]` lies inside `input[i..]` and is non-empty.
pub proof fn lemma_units_within(input: Seq<u8>, i: int)
    requires
        0 <= i,
    ensures
        forall|k: int|
            0 <= k < spec_units_from(input, i).len() ==> {
                let u = #[trigger] spec_units_from(input, i)[k];
                i <= u.0 < u.1 <= input.len()
            },
        forall|a: int, b: int|
            0 <= a <= b < spec_units_from(input, i).len() ==> #[trigger] spec_units_from(input, i)[a].0
                <= #[trigger] spec_units_from(input, i)[b].0,
        forall|a: int, b: int|
            0 <= a <= b < spec_units_from(input, i).len() ==> #[trigger] spec_units_from(input, i)[a].1
                <= #[trigger] spec_units_from(input, i)[b].1,
    decreases input.len() - i,
{
    if i >= input.len() {
    } else if input[i] == 0 {
        lemma_units_within(input, i + 1);
        assert(spec_units_from(input, i) == spec_units_from(input, i + 1));
    } else {
        let w: int = if spec_decode_percent(input, i) is Some { 3 } else { 1 };
        lemma_units_within(input, i + w);
        let s = spec_units_from(input, i);
        let rest = spec_units_from(input, i + w);
        assert(s == seq![(i, i + w)] + rest);
        assert forall|k: int| 0 <= k < s.len() implies {
            let u = #[trigger] s[k];
            i <= u.0 < u.1 <= input.len()
        } by {
            if k > 0 {
                assert(s[k] == rest[k - 1]);
            }
        }
        assert forall|a: int, b: int| 0 <= a <= b < s.len() implies #[trigger] s[a].0 <= #[trigger] s[b].0
            && s[a].1 <= s[b].1 by {
            if a > 0 {
                assert(s[a] == rest[a - 1]);
                assert(s[b] == rest[b - 1]);
            } else if b > 0 {
                assert(s[b] == rest[b - 1]);
                assert(i + w <= rest[b - 1].0);
            }
        }
    }
}

/// Normalizing `input[i..]` into room for `budget` bytes writes at most one
/// byte per input byte and never more than the room, writes no ASCII upper
/// case letter, is cut short only once the room is full, and is never cut
/// short when the rest of the input fits the room.
pub proof fn lemma_norm_bounds(input: Seq<u8>, i: int, budget: int)
    requires
        0 <= i,
        0 <= budget,
    ensures
        ({
            let (out, cut) = spec_norm_from(input, i, budget);
            &&& out.len() <= budget
            &&& i <= input.len() ==> out.len() <= input.len() - i
            &&& forall|k: int| 0 <= k < out.len() ==> !(65 <= #[trigger] out[k] <= 90)
            &&& cut ==> out.len() == budget
            &&& input.len() - i <= budget ==> !cut
        }),
    decreases input.len() - i,
{
    if i < input.len() && budget > 0 {
        if input[i] == 0 {
            lemma_norm_bounds(input, i + 1, budget);
        } else {
            let w: int = if spec_decode_percent(input, i) is Some { 3 } else { 1 };
            let b: u8 = if w == 3 { spec_decode_percent(input, i).unwrap() } else { input[i] };
            lemma_norm_bounds(input, i + w, budget - 1);
            let rest = spec_norm_from(input, i + w, budget - 1);
            let out = spec_norm_from(input, i, budget).0;
            assert(out == seq![lower(b)] + rest.0);
            assert forall|k: int| 0 <= k < out.len() implies !(65 <= #[trigger] out[k] <= 90) by {
                if k > 0 {
                    assert(out[k] == rest.0[k - 1]);
                }
            }
        }
    }
}

/// Bounded normalization result: a fixed buffer of which `len` bytes are used.
#[derive(Clone, Copy)]
pub struct NormView {
    /// Normalized bytes (only the first `len` are meaningful).
    pub buf: [u8; 512],
    /// Number of normalized bytes in `buf`.
    pub len: usize,
    /// Normalization stopped at [`NORM_BUF_LEN`] with input left over.
    pub norm_truncated: bool,
}

impl NormView {
    /// The normalized bytes.
    pub open spec fn spec_bytes(self) -> Seq<u8> {
        self.buf@.subrange(0, self.len as int)
    }

    /// The normalized bytes.
    pub fn bytes(&self) -> (r: &[u8])
        requires
            self.len <= NORM_BUF_LEN,
        ensures
            r@ == self.spec_bytes(),
    {
        let s: &[u8] = self.buf.as_slice();
        &s[0..self.len]
    }
}

/// Value of one hex digit, if `b` is one.
pub fn hex_nibble(b: u8) -> (r: Option<u8>)
    ensures
        r == spec_hex_nibble(b),
{
    if b >= 48 && b <= 57 {
        Some(b - 48)
    } else if b >= 97 && b <= 102 {
        Some(b - 97 + 10)
    } else if b >= 65 && b <= 70 {
        Some(b - 65 + 10)
    } else {
        None
    }
}

/// Decode one `%HH` sequence at `input[i..]`; returns the decoded byte and the
/// consumed width (always 3).
pub fn decode_percent(input: &[u8], i: usize) -> (r: Option<(u8, usize)>)
    ensures
        r matches Some(p) ==> spec_decode_percent(input@, i as int) == Some(p.0) && p.1 == 3,
        r is None ==> spec_decode_percent(input@, i as int) is None,
{
    if i >= input.len() || input[i] != 37 {
        return None;
    }
    if input.len() - i < 3 {
        return None;
    }
    let hi = match hex_nibble(input[i + 1]) {
        Some(h) => h,
        None => return None,
    };
    let lo = match hex_nibble(input[i + 2]) {
        Some(l) => l,
        None => return None,
    };
    assert(hi < 16 && lo < 16);
    Some((hi * 16 + lo, 3))
}

/// Bounded normalize: strip NULs, one layer of `%` decoding, lowercase ASCII letters.
pub fn normalize(input: &[u8]) -> (r: NormView)
    ensures
        r.len <= NORM_BUF_LEN,
        (r.spec_bytes(), r.norm_truncated) == spec_normalize(input@),
        r.len <= input@.len(),
        forall|k: int| 0 <= k < r.len ==> !(65 <= #[trigger] r.spec_bytes()[k] <= 90),
        r.norm_truncated ==> r.len == NORM_BUF_LEN,
        input@.len() <= NORM_BUF_LEN ==> !r.norm_truncated,
{
    proof {
        lemma_norm_bounds(input@, 0, NORM_BUF_LEN as int);
    }
    let mut buf = [0u8; 512];
    let mut out: usize = 0;
    let mut i: usize = 0;
    while i < input.len()
        invariant_except_break
            out <= NORM_BUF_LEN,
            i <= input.len(),
            ({
                let rest = spec_norm_from(input@, i as int, NORM_BUF_LEN - out);
                spec_normalize(input@) == (buf@.subrange(0, out as int) + rest.0, rest.1)
            }),
        ensures
            out <= NORM_BUF_LEN,
            i <= input.len(),
            ({
                let rest = spec_norm_from(input@, i as int, NORM_BUF_LEN - out);
                spec_normalize(input@) == (buf@.subrange(0, out as int) + rest.0, rest.1)
            }),
            i < input.len() ==> out == NORM_BUF_LEN,
        decreases input.len() - i,
    {
        if out >= NORM_BUF_LEN {
            break;
        }
        let b = input[i];
        if b == 0 {
            i += 1;
            continue;
        }
        let ghost old_buf = buf@;
        match decode_percent(input, i) {
            Some((decoded, width)) => {
                buf[out] = to_lower(decoded);
                proof {
                    assert(buf@.subrange(0, out + 1) =~= old_buf.subrange(0, out as int) + seq![
                        lower(decoded),
                    ]);
                }
                out += 1;
                i += width;
            },
            None => {
                buf[out] = to_lower(b);
                proof {
                    assert(buf@.subrange(0, out + 1) =~= old_buf.subrange(0, out as int) + seq![
                        lower(b),
                    ]);
                }
                out += 1;
                i += 1;
            },
        }
    }
    let norm_truncated = i < input.len();
    proof {
        let rest = spec_norm_from(input@, i as int, NORM_BUF_LEN - out);
        if i < input.len() {
            assert(rest == (Seq::<u8>::empty(), true));
        } else {
            assert(rest == (Seq::<u8>::empty(), false));
        }
        assert(buf@.subrange(0, out as int) + rest.0 =~= buf@.subrange(0, out as int));
    }
    NormView { buf, len: out, norm_truncated }
}

/// Map `len` normalized bytes starting at normalized position `pos` back to the
/// span of `original` they were produced from, as `(offset, length)`.
pub fn original_span_for_normalized(original: &[u8], pos: usize, len: usize) -> (r: Option<(usize, usize)>)
    ensures
        r is Some <==> (len > 0 && pos + len <= spec_units_from(original@, 0).len()),
        r matches Some(p) ==> {
            let units = spec_units_from(original@, 0);
            &&& p.0 == units[pos as int].0
            &&& p.0 + p.1 == units[pos + len - 1].1
            &&& p.0 + p.1 <= original@.len()
            &&& p.0 < original@.len()
        },
{
    proof {
        lemma_units_within(original@, 0);
    }
    let n = original.len();
    if len == 0 || pos > usize::MAX - len {
        proof {
            if len > 0 {
                lemma_units_len_bound(original@, 0);
                assert(n <= usize::MAX);
            }
        }
        return None;
    }
    let last = pos + len - 1;
    let ghost units = spec_units_from(original@, 0);
    let mut i: usize = 0;
    let mut k: usize = 0;
    let mut start: usize = 0;
    while i < original.len()
        invariant
            0 <= i <= original.len(),
            k <= units.len(),
            len > 0,
            last == pos + len - 1,
            units == spec_units_from(original@, 0),
            units.skip(k as int) == spec_units_from(original@, i as int),
            k > pos ==> start == units[pos as int].0,
            k <= last,
        decreases original.len() - i,
    {
        proof {
            lemma_units_within(original@, i as int);
        }
        let b = original[i];
        if b == 0 {
            i += 1;
            continue;
        }
        let (width, unit_start) = match decode_percent(original, i) {
            Some((_, w)) => (w, i),
            None => (1usize, i),
        };
        let ghost tail = spec_units_from(original@, i as int);
        let ghost rest = spec_units_from(original@, (i + width) as int);
        proof {
            assert(tail == seq![(i as int, (i + width) as int)] + rest);
            assert(tail.len() > 0);
            assert(units[k as int] == tail[0]);
            assert(tail[0] == (i as int, (i + width) as int));
            assert(tail.skip(1) =~= rest);
            assert(units.skip(k + 1) =~= units.skip(k as int).skip(1));
        }
        if k == pos {
            start = unit_start;
        }
        if k == last {
            let end = i + width;
            proof {
                lemma_units_within(original@, 0);
            }
            return Some((start, end - start));
        }
        k += 1;
        i += width;
    }
    proof {
        assert(spec_units_from(original@, i as int).len() == 0);
        assert(units.len() == k);
    }
    None
}

/// The number of normalized units is bounded by the input length.
pub proof fn lemma_units_len_bound(input: Seq<u8>, i: int)
    requires
        0 <= i,
    ensures
        spec_units_from(input, i).len() <= if i <= input.len() { input.len() - i } else { 0 },
    decreases input.len() - i,
{
    if i >= input.len() {
    } else if input[i] == 0 {
        lemma_units_len_bound(input, i + 1);
    } else if spec_decode_percent(input, i) is Some {
        lemma_units_len_bound(input, i + 3);
    } else {
        lemma_units_len_bound(input, i + 1);
    }
}

} // verus!
