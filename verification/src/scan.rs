//! Low-level byte-cursor primitives shared by every pass: quoted-string
//! recognition with escape handling, comment spans, identifier runs, and
//! depth-balanced bracket skipping.
//!
//! Each primitive exists twice: a `spec` function giving the mathematical
//! meaning as a length (or offset) measured from a position, and an exec
//! function proved to compute exactly that.

use vstd::prelude::*;
use crate::{spec_is_ident_byte, spec_is_alnum, spec_is_sp, spec_is_ws, is_ident_byte, is_alnum,
    is_sp, is_ws, B_BACKSLASH, B_NL, B_STAR, B_SLASH, B_DASH};

verus! {

/// Length of a string-literal body starting at `i` (the byte after the
/// opening quote), through the closing quote inclusive; to end of input
/// when the literal is unterminated.  A backslash skips the next byte.
pub open spec fn str_lit_len(s: Seq<u8>, q: u8, i: int) -> nat
    decreases s.len() - i,
{
    if i < 0 || i >= s.len() {
        0
    } else if s[i] == q {
        1
    } else if s[i] == B_BACKSLASH {
        if i + 2 <= s.len() {
            2 + str_lit_len(s, q, i + 2)
        } else {
            1
        }
    } else {
        1 + str_lit_len(s, q, i + 1)
    }
}

/// Whether the literal whose body starts at `i` reaches a closing quote.
pub open spec fn str_lit_closed(s: Seq<u8>, q: u8, i: int) -> bool
    decreases s.len() - i,
{
    if i < 0 || i >= s.len() {
        false
    } else if s[i] == q {
        true
    } else if s[i] == B_BACKSLASH {
        if i + 2 <= s.len() {
            str_lit_closed(s, q, i + 2)
        } else {
            false
        }
    } else {
        str_lit_closed(s, q, i + 1)
    }
}

/// Scans a string-literal body from `i` (after the opening quote).
/// Returns the position after the closing quote (or end of input) and
/// whether a closing quote was found.
pub fn scan_str_lit(s: &[u8], q: u8, i: usize) -> (r: (usize, bool))
    requires
        i <= s@.len(),
    ensures
        r.0 == i + str_lit_len(s@, q, i as int),
        r.0 <= s@.len(),
        r.1 == str_lit_closed(s@, q, i as int),
{
    let mut j = i;
    loop
        invariant
            i <= j <= s@.len(),
            i + str_lit_len(s@, q, i as int) == j + str_lit_len(s@, q, j as int),
            str_lit_closed(s@, q, i as int) == str_lit_closed(s@, q, j as int),
        decreases s@.len() - j,
    {
        if j >= s.len() {
            return (j, false);
        }
        let b = s[j];
        if b == q {
            return (j + 1, true);
        }
        if b == B_BACKSLASH {
            if s.len() - j >= 2 {
                j = j + 2;
            } else {
                return (j + 1, false);
            }
        } else {
            j = j + 1;
        }
    }
}

/// Number of bytes from `i` up to (not including) the next newline, or to
/// end of input.
pub open spec fn line_rest(s: Seq<u8>, i: int) -> nat
    decreases s.len() - i,
{
    if i < 0 || i >= s.len() {
        0
    } else if s[i] == B_NL {
        0
    } else {
        1 + line_rest(s, i + 1)
    }
}

/// Advances from `i` to the next newline (or end of input).
pub fn scan_line(s: &[u8], i: usize) -> (j: usize)
    requires
        i <= s@.len(),
    ensures
        j == i + line_rest(s@, i as int),
        j <= s@.len(),
{
    let mut j = i;
    loop
        invariant
            i <= j <= s@.len(),
            i + line_rest(s@, i as int) == j + line_rest(s@, j as int),
        decreases s@.len() - j,
    {
        if j >= s.len() || s[j] == B_NL {
            return j;
        }
        j = j + 1;
    }
}

/// Offset from `i` of the `*` of the first `*/` at or after `i`, if any.
pub open spec fn block_close_off(s: Seq<u8>, i: int) -> Option<nat>
    decreases s.len() - i,
{
    if i < 0 || i + 1 >= s.len() {
        None
    } else if s[i] == B_STAR && s[i + 1] == B_SLASH {
        Some(0)
    } else {
        match block_close_off(s, i + 1) {
            Some(o) => Some((o + 1) as nat),
            None => None,
        }
    }
}

/// Finds the `*` of the first `*/` at or after `i`, if any.
pub fn scan_block_close(s: &[u8], i: usize) -> (r: Option<usize>)
    requires
        i <= s@.len(),
    ensures
        match block_close_off(s@, i as int) {
            Some(o) => r == Some((i + o) as usize) && i + o + 2 <= s@.len(),
            None => r is None,
        },
{
    let mut j = i;
    loop
        invariant
            i <= j <= s@.len(),
            block_close_off(s@, i as int) == (match block_close_off(s@, j as int) {
                Some(o2) => Some((j - i + o2) as nat),
                None => None::<nat>,
            }),
        decreases s@.len() - j,
    {
        if s.len() - j <= 1 {
            return None;
        }
        if s[j] == B_STAR && s[j + 1] == B_SLASH {
            return Some(j);
        }
        j = j + 1;
    }
}

/// Length of the identifier run (alphanumeric, `_`, `$`) starting at `i`.
pub open spec fn ident_run(s: Seq<u8>, i: int) -> nat
    decreases s.len() - i,
{
    if i < 0 || i >= s.len() {
        0
    } else if spec_is_ident_byte(s[i]) {
        1 + ident_run(s, i + 1)
    } else {
        0
    }
}

/// Advances past the identifier run starting at `i`.
pub fn scan_ident(s: &[u8], i: usize) -> (j: usize)
    requires
        i <= s@.len(),
    ensures
        j == i + ident_run(s@, i as int),
        j <= s@.len(),
{
    let mut j = i;
    loop
        invariant
            i <= j <= s@.len(),
            i + ident_run(s@, i as int) == j + ident_run(s@, j as int),
        decreases s@.len() - j,
    {
        if j >= s.len() || !is_ident_byte(s[j]) {
            return j;
        }
        j = j + 1;
    }
}

/// Length of the run of alphanumeric or `-` bytes starting at `i` (the
/// shape of a host-element tag name in the JSX-presence scan).
pub open spec fn tagword_run(s: Seq<u8>, i: int) -> nat
    decreases s.len() - i,
{
    if i < 0 || i >= s.len() {
        0
    } else if spec_is_alnum(s[i]) || s[i] == B_DASH {
        1 + tagword_run(s, i + 1)
    } else {
        0
    }
}

/// Advances past the alphanumeric-or-`-` run starting at `i`.
pub fn scan_tagword(s: &[u8], i: usize) -> (j: usize)
    requires
        i <= s@.len(),
    ensures
        j == i + tagword_run(s@, i as int),
        j <= s@.len(),
{
    let mut j = i;
    loop
        invariant
            i <= j <= s@.len(),
            i + tagword_run(s@, i as int) == j + tagword_run(s@, j as int),
        decreases s@.len() - j,
    {
        if j >= s.len() || !(is_alnum(s[j]) || s[j] == B_DASH) {
            return j;
        }
        j = j + 1;
    }
}

/// Length of the run of spaces and tabs starting at `i`.
pub open spec fn sp_run(s: Seq<u8>, i: int) -> nat
    decreases s.len() - i,
{
    if i < 0 || i >= s.len() {
        0
    } else if spec_is_sp(s[i]) {
        1 + sp_run(s, i + 1)
    } else {
        0
    }
}

/// Advances past spaces and tabs starting at `i`.
pub fn scan_sp(s: &[u8], i: usize) -> (j: usize)
    requires
        i <= s@.len(),
    ensures
        j == i + sp_run(s@, i as int),
        j <= s@.len(),
{
    let mut j = i;
    loop
        invariant
            i <= j <= s@.len(),
            i + sp_run(s@, i as int) == j + sp_run(s@, j as int),
        decreases s@.len() - j,
    {
        if j >= s.len() || !is_sp(s[j]) {
            return j;
        }
        j = j + 1;
    }
}

/// Length of the run of whitespace bytes (space, tab, newline, carriage
/// return) starting at `i`.
pub open spec fn ws_run(s: Seq<u8>, i: int) -> nat
    decreases s.len() - i,
{
    if i < 0 || i >= s.len() {
        0
    } else if spec_is_ws(s[i]) {
        1 + ws_run(s, i + 1)
    } else {
        0
    }
}

/// Advances past whitespace starting at `i`.
pub fn scan_ws(s: &[u8], i: usize) -> (j: usize)
    requires
        i <= s@.len(),
    ensures
        j == i + ws_run(s@, i as int),
        j <= s@.len(),
{
    let mut j = i;
    loop
        invariant
            i <= j <= s@.len(),
            i + ws_run(s@, i as int) == j + ws_run(s@, j as int),
        decreases s@.len() - j,
    {
        if j >= s.len() || !is_ws(s[j]) {
            return j;
        }
        j = j + 1;
    }
}

/// Length consumed by a depth-balanced skip over the bracket pair
/// `open`/`close`, entered at `i` with `depth` levels already open:
/// bytes are consumed until the depth returns to zero or input ends.
pub open spec fn bal_len(s: Seq<u8>, o: u8, c: u8, i: int, depth: int) -> nat
    decreases s.len() - i,
{
    if i < 0 || i >= s.len() || depth <= 0 {
        0
    } else {
        let d = if s[i] == o {
            depth + 1
        } else if s[i] == c {
            depth - 1
        } else {
            depth
        };
        1 + bal_len(s, o, c, i + 1, d)
    }
}

/// Runs the depth-balanced skip from `i` with `depth` levels open.
pub fn scan_bal(s: &[u8], o: u8, c: u8, i: usize, depth: usize) -> (j: usize)
    requires
        i <= s@.len(),
        depth <= i,
    ensures
        j == i + bal_len(s@, o, c, i as int, depth as int),
        j <= s@.len(),
{
    let mut j = i;
    let mut d = depth;
    loop
        invariant
            i <= j <= s@.len(),
            d <= j,
            i + bal_len(s@, o, c, i as int, depth as int) == j + bal_len(s@, o, c, j as int,
                d as int),
        decreases s@.len() - j,
    {
        if j >= s.len() || d == 0 {
            return j;
        }
        let b = s[j];
        if b == o {
            d = d + 1;
        } else if b == c {
            d = d - 1;
        }
        j = j + 1;
    }
}

/// Appends the bytes `s[a..b]` to `out`.
pub fn push_range(out: &mut Vec<u8>, s: &[u8], a: usize, b: usize)
    requires
        a <= b <= s@.len(),
    ensures
        final(out)@ == old(out)@ + s@.subrange(a as int, b as int),
{
    let mut k = a;
    loop
        invariant
            a <= k <= b <= s@.len(),
            out@ == old(out)@ + s@.subrange(a as int, k as int),
        decreases b - k,
    {
        if k >= b {
            proof {
                assert(s@.subrange(a as int, k as int) =~= s@.subrange(a as int, b as int));
            }
            return ;
        }
        out.push(s[k]);
        proof {
            assert(old(out)@ + s@.subrange(a as int, k + 1) =~= (old(out)@ + s@.subrange(
                a as int, k as int)).push(s@[k as int]));
        }
        k = k + 1;
    }
}

/// The word `w` occurs at position `i` of `s`.
pub open spec fn sub_at(s: Seq<u8>, w: Seq<u8>, i: int) -> bool {
    &&& 0 <= i
    &&& i + w.len() <= s.len()
    &&& forall|k: int| 0 <= k < w.len() ==> s[i + k] == w[k]
}

/// The word `w` occurs somewhere in `s`.
pub open spec fn spec_contains(s: Seq<u8>, w: Seq<u8>) -> bool {
    exists|i: int| sub_at(s, w, i)
}

/// Reports whether `w` occurs at position `i` of `s`.
pub fn check_sub_at(s: &[u8], w: &[u8], i: usize) -> (r: bool)
    requires
        i <= s@.len(),
    ensures
        r == sub_at(s@, w@, i as int),
{
    if s.len() - i < w.len() {
        return false;
    }
    let mut k: usize = 0;
    loop
        invariant
            k <= w@.len(),
            i + w@.len() <= s@.len(),
            s@.len() <= usize::MAX,
            forall|m: int| 0 <= m < k ==> s@[i + m] == w@[m],
        decreases w@.len() - k,
    {
        if k >= w.len() {
            return true;
        }
        if s[i + k] != w[k] {
            return false;
        }
        k = k + 1;
    }
}

/// Reports whether `w` occurs somewhere in `s`.
pub fn contains_sub(s: &[u8], w: &[u8]) -> (r: bool)
    ensures
        r == spec_contains(s@, w@),
{
    let mut i: usize = 0;
    loop
        invariant
            i <= s@.len(),
            forall|m: int| 0 <= m < i ==> !sub_at(s@, w@, m),
        decreases s@.len() - i,
    {
        if s.len() - i < w.len() {
            proof {
                assert(forall|m: int| m >= i ==> !sub_at(s@, w@, m));
            }
            return false;
        }
        if check_sub_at(s, w, i) {
            return true;
        }
        i = i + 1;
    }
}

pub proof fn lemma_str_lit_len_bound(s: Seq<u8>, q: u8, i: int)
    requires
        0 <= i <= s.len(),
    ensures
        i + str_lit_len(s, q, i) <= s.len(),
    decreases s.len() - i,
{
    if i < s.len() && s[i] != q {
        if s[i] == B_BACKSLASH {
            if i + 2 <= s.len() {
                lemma_str_lit_len_bound(s, q, i + 2);
            }
        } else {
            lemma_str_lit_len_bound(s, q, i + 1);
        }
    }
}

pub proof fn lemma_line_rest_bound(s: Seq<u8>, i: int)
    requires
        0 <= i <= s.len(),
    ensures
        i + line_rest(s, i) <= s.len(),
    decreases s.len() - i,
{
    if i < s.len() && s[i] != B_NL {
        lemma_line_rest_bound(s, i + 1);
    }
}

pub proof fn lemma_block_close_bound(s: Seq<u8>, i: int)
    requires
        0 <= i,
    ensures
        block_close_off(s, i) matches Some(o) ==> i + o + 2 <= s.len(),
    decreases s.len() - i,
{
    if i + 1 < s.len() && !(s[i] == B_STAR && s[i + 1] == B_SLASH) {
        lemma_block_close_bound(s, i + 1);
    }
}

pub proof fn lemma_ident_run_bound(s: Seq<u8>, i: int)
    requires
        0 <= i <= s.len(),
    ensures
        i + ident_run(s, i) <= s.len(),
    decreases s.len() - i,
{
    if i < s.len() && spec_is_ident_byte(s[i]) {
        lemma_ident_run_bound(s, i + 1);
    }
}

pub proof fn lemma_tagword_run_bound(s: Seq<u8>, i: int)
    requires
        0 <= i <= s.len(),
    ensures
        i + tagword_run(s, i) <= s.len(),
    decreases s.len() - i,
{
    if i < s.len() && (spec_is_alnum(s[i]) || s[i] == B_DASH) {
        lemma_tagword_run_bound(s, i + 1);
    }
}

pub proof fn lemma_sp_run_bound(s: Seq<u8>, i: int)
    requires
        0 <= i <= s.len(),
    ensures
        i + sp_run(s, i) <= s.len(),
    decreases s.len() - i,
{
    if i < s.len() && spec_is_sp(s[i]) {
        lemma_sp_run_bound(s, i + 1);
    }
}

pub proof fn lemma_ws_run_bound(s: Seq<u8>, i: int)
    requires
        0 <= i <= s.len(),
    ensures
        i + ws_run(s, i) <= s.len(),
    decreases s.len() - i,
{
    if i < s.len() && spec_is_ws(s[i]) {
        lemma_ws_run_bound(s, i + 1);
    }
}

pub proof fn lemma_bal_len_bound(s: Seq<u8>, o: u8, c: u8, i: int, depth: int)
    requires
        0 <= i <= s.len(),
    ensures
        i + bal_len(s, o, c, i, depth) <= s.len(),
    decreases s.len() - i,
{
    if i < s.len() && depth > 0 {
        let d = if s[i] == o {
            depth + 1
        } else if s[i] == c {
            depth - 1
        } else {
            depth
        };
        lemma_bal_len_bound(s, o, c, i + 1, d);
    }
}

} // verus!
