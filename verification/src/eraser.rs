//! The TypeScript type eraser: a single forward byte-pass that deletes
//! type-only constructs — `import type` / `export type {` statements,
//! `interface` blocks, `type` aliases, inline `: T` annotations, generic
//! parameter lists, `as T` assertions, and non-null `!` — while copying
//! string literals and comments verbatim.  Every erasure trigger is gated
//! by an explicit look-ahead predicate, so object-literal keys, comparison
//! operators, and ordinary `!` survive.

use vstd::prelude::*;
use crate::{spec_is_alnum, spec_is_sp, spec_is_upper, is_alnum, is_sp, is_upper, B_BANG, B_COLON, B_COMMA, B_DOT, B_EQ, B_GT, B_LBRACE, B_LBRACK, B_LPAREN, B_LT, B_NL,
    B_RBRACE, B_RBRACK, B_RPAREN, B_SEMI, B_SLASH, B_SPACE, B_STAR, B_TAB, B_UNDERSCORE};
use crate::scan::{bal_len, block_close_off, lemma_bal_len_bound, lemma_block_close_bound,
    lemma_line_rest_bound, lemma_sp_run_bound, lemma_str_lit_len_bound, line_rest, push_range,
    scan_bal, scan_block_close, scan_line, scan_sp, scan_str_lit, sp_run, str_lit_len};

verus! {

/// Bytes until the next `;` or newline (exclusive), or to end of input.
pub open spec fn semi_nl_rest(s: Seq<u8>, i: int) -> nat
    decreases s.len() - i,
{
    if i < 0 || i >= s.len() {
        0
    } else if s[i] == B_SEMI || s[i] == B_NL {
        0
    } else {
        1 + semi_nl_rest(s, i + 1)
    }
}

pub proof fn lemma_semi_nl_rest_bound(s: Seq<u8>, i: int)
    requires
        0 <= i <= s.len(),
    ensures
        i + semi_nl_rest(s, i) <= s.len(),
    decreases s.len() - i,
{
    if i < s.len() && s[i] != B_SEMI && s[i] != B_NL {
        lemma_semi_nl_rest_bound(s, i + 1);
    }
}

/// Advances to the next `;` or newline, or to end of input.
pub fn scan_semi_nl(s: &[u8], i: usize) -> (j: usize)
    requires
        i <= s@.len(),
    ensures
        j == i + semi_nl_rest(s@, i as int),
        j <= s@.len(),
{
    let mut j = i;
    loop
        invariant
            i <= j <= s@.len(),
            i + semi_nl_rest(s@, i as int) == j + semi_nl_rest(s@, j as int),
        decreases s@.len() - j,
    {
        if j >= s.len() || s[j] == B_SEMI || s[j] == B_NL {
            return j;
        }
        j = j + 1;
    }
}

/// End of a statement deletion: past the next `;`, or at the newline or
/// end of input that stops it.
pub open spec fn stmt_del_end(s: Seq<u8>, i: int) -> int {
    let e = i + semi_nl_rest(s, i);
    if e < s.len() && s[e] == B_SEMI {
        e + 1
    } else {
        e
    }
}

/// End of an `interface` block deletion: the scan tracks raw brace depth
/// from the keyword on and stops one past the `}` that returns the depth
/// to zero after at least one `{` was seen, or at end of input.
pub open spec fn iface_end(s: Seq<u8>, i: int, depth: int, found: bool) -> int
    decreases s.len() - i,
{
    if i < 0 || i >= s.len() {
        s.len() as int
    } else if s[i] == B_LBRACE {
        iface_end(s, i + 1, depth + 1, true)
    } else if s[i] == B_RBRACE {
        if found && depth - 1 == 0 {
            i + 1
        } else {
            iface_end(s, i + 1, depth - 1, found)
        }
    } else {
        iface_end(s, i + 1, depth, found)
    }
}

pub proof fn lemma_iface_end_bounds(s: Seq<u8>, i: int, depth: int, found: bool)
    requires
        0 <= i <= s.len(),
    ensures
        i <= iface_end(s, i, depth, found) <= s.len(),
        i < s.len() ==> i + 1 <= iface_end(s, i, depth, found),
    decreases s.len() - i,
{
    if i < s.len() {
        if s[i] == B_LBRACE {
            lemma_iface_end_bounds(s, i + 1, depth + 1, true);
        } else if s[i] == B_RBRACE {
            if !(found && depth - 1 == 0) {
                lemma_iface_end_bounds(s, i + 1, depth - 1, found);
            }
        } else {
            lemma_iface_end_bounds(s, i + 1, depth, found);
        }
    }
}

/// Runs the `interface` brace scan from `i`.
pub fn scan_iface_end(s: &[u8], i: usize) -> (e: usize)
    requires
        i <= s@.len(),
    ensures
        e == iface_end(s@, i as int, 0, false),
        i <= e <= s@.len(),
{
    let mut j = i;
    let mut opens: usize = 0;
    let mut closes: usize = 0;
    loop
        invariant
            i <= j <= s@.len(),
            opens <= j,
            closes <= j,
            iface_end(s@, i as int, 0, false) == iface_end(s@, j as int, opens - closes, opens
                > 0),
        decreases s@.len() - j,
    {
        if j >= s.len() {
            return s.len();
        }
        let b = s[j];
        if b == B_LBRACE {
            opens = opens + 1;
            j = j + 1;
        } else if b == B_RBRACE {
            if opens > 0 && opens == closes + 1 {
                return j + 1;
            }
            closes = closes + 1;
            j = j + 1;
        } else {
            j = j + 1;
        }
    }
}

/// Length of the identifier run a `type` alias name may have
/// (alphanumeric or `_`).
pub open spec fn alias_ident_run(s: Seq<u8>, i: int) -> nat
    decreases s.len() - i,
{
    if i < 0 || i >= s.len() {
        0
    } else if spec_is_alnum(s[i]) || s[i] == B_UNDERSCORE {
        1 + alias_ident_run(s, i + 1)
    } else {
        0
    }
}

pub proof fn lemma_alias_ident_run_bound(s: Seq<u8>, i: int)
    requires
        0 <= i <= s.len(),
    ensures
        i + alias_ident_run(s, i) <= s.len(),
    decreases s.len() - i,
{
    if i < s.len() && (spec_is_alnum(s[i]) || s[i] == B_UNDERSCORE) {
        lemma_alias_ident_run_bound(s, i + 1);
    }
}

/// Advances past the alias-name identifier run.
pub fn scan_alias_ident(s: &[u8], i: usize) -> (j: usize)
    requires
        i <= s@.len(),
    ensures
        j == i + alias_ident_run(s@, i as int),
        j <= s@.len(),
{
    let mut j = i;
    loop
        invariant
            i <= j <= s@.len(),
            i + alias_ident_run(s@, i as int) == j + alias_ident_run(s@, j as int),
        decreases s@.len() - j,
    {
        if j >= s.len() || !(is_alnum(s[j]) || s[j] == B_UNDERSCORE) {
            return j;
        }
        j = j + 1;
    }
}

/// End of the run of spaces, tabs, and angle-bracketed generic spans that
/// may stand between a `type` alias name and its `=`.
pub open spec fn wsgen_end(s: Seq<u8>, i: int) -> int
    decreases s.len() - i,
{
    if i < 0 || i >= s.len() {
        if 0 <= i {
            i
        } else {
            0
        }
    } else if spec_is_sp(s[i]) {
        wsgen_end(s, i + 1)
    } else if s[i] == B_LT {
        proof {
            lemma_bal_len_bound(s, B_LT, B_GT, i + 1, 1);
        }
        wsgen_end(s, i + 1 + bal_len(s, B_LT, B_GT, i + 1, 1))
    } else {
        i
    }
}

pub proof fn lemma_wsgen_end_bounds(s: Seq<u8>, i: int)
    requires
        0 <= i <= s.len(),
    ensures
        i <= wsgen_end(s, i) <= s.len(),
    decreases s.len() - i,
{
    if i < s.len() {
        if spec_is_sp(s[i]) {
            lemma_wsgen_end_bounds(s, i + 1);
        } else if s[i] == B_LT {
            lemma_bal_len_bound(s, B_LT, B_GT, i + 1, 1);
            lemma_wsgen_end_bounds(s, i + 1 + bal_len(s, B_LT, B_GT, i + 1, 1));
        }
    }
}

/// Advances past spaces, tabs, and generic spans.
pub fn scan_wsgen(s: &[u8], i: usize) -> (j: usize)
    requires
        1 <= i <= s@.len(),
    ensures
        j == wsgen_end(s@, i as int),
        i <= j <= s@.len(),
{
    proof {
        lemma_wsgen_end_bounds(s@, i as int);
    }
    let mut j = i;
    loop
        invariant
            i <= j <= s@.len(),
            wsgen_end(s@, i as int) == wsgen_end(s@, j as int),
            wsgen_end(s@, j as int) >= j,
        decreases s@.len() - j,
    {
        if j >= s.len() {
            return j;
        }
        let b = s[j];
        if is_sp(b) {
            proof {
                lemma_wsgen_end_bounds(s@, j + 1);
            }
            j = j + 1;
        } else if b == B_LT {
            let j2 = scan_bal(s, B_LT, B_GT, j + 1, 1);
            proof {
                lemma_wsgen_end_bounds(s@, j2 as int);
            }
            j = j2;
        } else {
            return j;
        }
    }
}

/// End of a `type` alias deletion: the scan from the keyword stops at a
/// `;` (consumed) or newline (kept), skipping balanced `{ }`, `( )`, and
/// `< >` spans whose contents may hold either terminator.
pub open spec fn alias_del_end(s: Seq<u8>, i: int) -> int
    decreases s.len() - i,
{
    if i < 0 || i >= s.len() {
        s.len() as int
    } else if s[i] == B_SEMI {
        i + 1
    } else if s[i] == B_NL {
        i
    } else if s[i] == B_LBRACE {
        proof {
            lemma_bal_len_bound(s, B_LBRACE, B_RBRACE, i + 1, 1);
        }
        alias_del_end(s, i + 1 + bal_len(s, B_LBRACE, B_RBRACE, i + 1, 1))
    } else if s[i] == B_LPAREN {
        proof {
            lemma_bal_len_bound(s, B_LPAREN, B_RPAREN, i + 1, 1);
        }
        alias_del_end(s, i + 1 + bal_len(s, B_LPAREN, B_RPAREN, i + 1, 1))
    } else if s[i] == B_LT {
        proof {
            lemma_bal_len_bound(s, B_LT, B_GT, i + 1, 1);
        }
        alias_del_end(s, i + 1 + bal_len(s, B_LT, B_GT, i + 1, 1))
    } else {
        alias_del_end(s, i + 1)
    }
}

pub proof fn lemma_alias_del_end_bounds(s: Seq<u8>, i: int)
    requires
        0 <= i <= s.len(),
    ensures
        i <= alias_del_end(s, i) <= s.len(),
    decreases s.len() - i,
{
    if i < s.len() {
        if s[i] == B_SEMI || s[i] == B_NL {
        } else if s[i] == B_LBRACE {
            lemma_bal_len_bound(s, B_LBRACE, B_RBRACE, i + 1, 1);
            lemma_alias_del_end_bounds(s, i + 1 + bal_len(s, B_LBRACE, B_RBRACE, i + 1, 1));
        } else if s[i] == B_LPAREN {
            lemma_bal_len_bound(s, B_LPAREN, B_RPAREN, i + 1, 1);
            lemma_alias_del_end_bounds(s, i + 1 + bal_len(s, B_LPAREN, B_RPAREN, i + 1, 1));
        } else if s[i] == B_LT {
            lemma_bal_len_bound(s, B_LT, B_GT, i + 1, 1);
            lemma_alias_del_end_bounds(s, i + 1 + bal_len(s, B_LT, B_GT, i + 1, 1));
        } else {
            lemma_alias_del_end_bounds(s, i + 1);
        }
    }
}

/// Runs the alias deletion scan from `i`.
pub fn scan_alias_del(s: &[u8], i: usize) -> (e: usize)
    requires
        1 <= i <= s@.len(),
    ensures
        e == alias_del_end(s@, i as int),
        i <= e <= s@.len(),
{
    proof {
        lemma_alias_del_end_bounds(s@, i as int);
    }
    let mut j = i;
    loop
        invariant
            i <= j <= s@.len(),
            alias_del_end(s@, i as int) == alias_del_end(s@, j as int),
            alias_del_end(s@, j as int) >= j,
        decreases s@.len() - j,
    {
        if j >= s.len() {
            return s.len();
        }
        let b = s[j];
        if b == B_SEMI {
            return j + 1;
        }
        if b == B_NL {
            return j;
        }
        if b == B_LBRACE {
            let j2 = scan_bal(s, B_LBRACE, B_RBRACE, j + 1, 1);
            proof {
                lemma_alias_del_end_bounds(s@, j2 as int);
            }
            j = j2;
        } else if b == B_LPAREN {
            let j2 = scan_bal(s, B_LPAREN, B_RPAREN, j + 1, 1);
            proof {
                lemma_alias_del_end_bounds(s@, j2 as int);
            }
            j = j2;
        } else if b == B_LT {
            let j2 = scan_bal(s, B_LT, B_GT, j + 1, 1);
            proof {
                lemma_alias_del_end_bounds(s@, j2 as int);
            }
            j = j2;
        } else {
            proof {
                lemma_alias_del_end_bounds(s@, j + 1);
            }
            j = j + 1;
        }
    }
}

/// End of an inline annotation deletion, scanning from the byte after the
/// colon: stops (without consuming) at `=`, `,`, `)`, `;`, `{`, or
/// newline; skips balanced `< >` and `( )` spans and the pair `[]`.
pub open spec fn ann_del_end(s: Seq<u8>, i: int) -> int
    decreases s.len() - i,
{
    if i < 0 || i >= s.len() {
        s.len() as int
    } else if s[i] == B_EQ || s[i] == B_COMMA || s[i] == B_RPAREN || s[i] == B_SEMI || s[i]
        == B_LBRACE || s[i] == B_NL {
        i
    } else if s[i] == B_LT {
        proof {
            lemma_bal_len_bound(s, B_LT, B_GT, i + 1, 1);
        }
        ann_del_end(s, i + 1 + bal_len(s, B_LT, B_GT, i + 1, 1))
    } else if s[i] == B_LPAREN {
        proof {
            lemma_bal_len_bound(s, B_LPAREN, B_RPAREN, i + 1, 1);
        }
        ann_del_end(s, i + 1 + bal_len(s, B_LPAREN, B_RPAREN, i + 1, 1))
    } else if s[i] == B_LBRACK {
        if i + 1 < s.len() && s[i + 1] == B_RBRACK {
            ann_del_end(s, i + 2)
        } else {
            ann_del_end(s, i + 1)
        }
    } else {
        ann_del_end(s, i + 1)
    }
}

pub proof fn lemma_ann_del_end_bounds(s: Seq<u8>, i: int)
    requires
        0 <= i <= s.len(),
    ensures
        i <= ann_del_end(s, i) <= s.len(),
    decreases s.len() - i,
{
    if i < s.len() {
        if s[i] == B_EQ || s[i] == B_COMMA || s[i] == B_RPAREN || s[i] == B_SEMI || s[i]
            == B_LBRACE || s[i] == B_NL {
        } else if s[i] == B_LT {
            lemma_bal_len_bound(s, B_LT, B_GT, i + 1, 1);
            lemma_ann_del_end_bounds(s, i + 1 + bal_len(s, B_LT, B_GT, i + 1, 1));
        } else if s[i] == B_LPAREN {
            lemma_bal_len_bound(s, B_LPAREN, B_RPAREN, i + 1, 1);
            lemma_ann_del_end_bounds(s, i + 1 + bal_len(s, B_LPAREN, B_RPAREN, i + 1, 1));
        } else if s[i] == B_LBRACK {
            if i + 1 < s.len() && s[i + 1] == B_RBRACK {
                lemma_ann_del_end_bounds(s, i + 2);
            } else {
                lemma_ann_del_end_bounds(s, i + 1);
            }
        } else {
            lemma_ann_del_end_bounds(s, i + 1);
        }
    }
}

/// Runs the annotation deletion scan from `i`.
pub fn scan_ann_del(s: &[u8], i: usize) -> (e: usize)
    requires
        1 <= i <= s@.len(),
    ensures
        e == ann_del_end(s@, i as int),
        i <= e <= s@.len(),
{
    proof {
        lemma_ann_del_end_bounds(s@, i as int);
    }
    let mut j = i;
    loop
        invariant
            i <= j <= s@.len(),
            ann_del_end(s@, i as int) == ann_del_end(s@, j as int),
            ann_del_end(s@, j as int) >= j,
        decreases s@.len() - j,
    {
        if j >= s.len() {
            return s.len();
        }
        let b = s[j];
        if b == B_EQ || b == B_COMMA || b == B_RPAREN || b == B_SEMI || b == B_LBRACE || b == B_NL {
            return j;
        }
        if b == B_LT {
            let j2 = scan_bal(s, B_LT, B_GT, j + 1, 1);
            proof {
                lemma_ann_del_end_bounds(s@, j2 as int);
            }
            j = j2;
        } else if b == B_LPAREN {
            let j2 = scan_bal(s, B_LPAREN, B_RPAREN, j + 1, 1);
            proof {
                lemma_ann_del_end_bounds(s@, j2 as int);
            }
            j = j2;
        } else if b == B_LBRACK {
            if j + 1 < s.len() && s[j + 1] == B_RBRACK {
                proof {
                    lemma_ann_del_end_bounds(s@, j + 2);
                }
                j = j + 2;
            } else {
                proof {
                    lemma_ann_del_end_bounds(s@, j + 1);
                }
                j = j + 1;
            }
        } else {
            proof {
                lemma_ann_del_end_bounds(s@, j + 1);
            }
            j = j + 1;
        }
    }
}

/// End of an `as` assertion deletion, scanning from the byte after `as`:
/// stops (without consuming) at `;`, `,`, `)`, `]`, newline, `{`, or `}`;
/// skips balanced `< >` spans.
pub open spec fn as_del_end(s: Seq<u8>, i: int) -> int
    decreases s.len() - i,
{
    if i < 0 || i >= s.len() {
        s.len() as int
    } else if s[i] == B_SEMI || s[i] == B_COMMA || s[i] == B_RPAREN || s[i] == B_RBRACK || s[i]
        == B_NL || s[i] == B_LBRACE || s[i] == B_RBRACE {
        i
    } else if s[i] == B_LT {
        proof {
            lemma_bal_len_bound(s, B_LT, B_GT, i + 1, 1);
        }
        as_del_end(s, i + 1 + bal_len(s, B_LT, B_GT, i + 1, 1))
    } else {
        as_del_end(s, i + 1)
    }
}

pub proof fn lemma_as_del_end_bounds(s: Seq<u8>, i: int)
    requires
        0 <= i <= s.len(),
    ensures
        i <= as_del_end(s, i) <= s.len(),
    decreases s.len() - i,
{
    if i < s.len() {
        if s[i] == B_SEMI || s[i] == B_COMMA || s[i] == B_RPAREN || s[i] == B_RBRACK || s[i]
            == B_NL || s[i] == B_LBRACE || s[i] == B_RBRACE {
        } else if s[i] == B_LT {
            lemma_bal_len_bound(s, B_LT, B_GT, i + 1, 1);
            lemma_as_del_end_bounds(s, i + 1 + bal_len(s, B_LT, B_GT, i + 1, 1));
        } else {
            lemma_as_del_end_bounds(s, i + 1);
        }
    }
}

/// Runs the `as` deletion scan from `i`.
pub fn scan_as_del(s: &[u8], i: usize) -> (e: usize)
    requires
        1 <= i <= s@.len(),
    ensures
        e == as_del_end(s@, i as int),
        i <= e <= s@.len(),
{
    proof {
        lemma_as_del_end_bounds(s@, i as int);
    }
    let mut j = i;
    loop
        invariant
            i <= j <= s@.len(),
            as_del_end(s@, i as int) == as_del_end(s@, j as int),
            as_del_end(s@, j as int) >= j,
        decreases s@.len() - j,
    {
        if j >= s.len() {
            return s.len();
        }
        let b = s[j];
        if b == B_SEMI || b == B_COMMA || b == B_RPAREN || b == B_RBRACK || b == B_NL || b
            == B_LBRACE || b == B_RBRACE {
            return j;
        }
        if b == B_LT {
            let j2 = scan_bal(s, B_LT, B_GT, j + 1, 1);
            proof {
                lemma_as_del_end_bounds(s@, j2 as int);
            }
            j = j2;
        } else {
            proof {
                lemma_as_del_end_bounds(s@, j + 1);
            }
            j = j + 1;
        }
    }
}

/// The generic-parameter look-ahead from the byte after a `<`: with angle
/// depth tracked, `Some` holds the position just past the matching `>`;
/// a `;` or newline before it, or end of input, yields `None` — the span
/// is then read as comparison operators, not a generic.
pub open spec fn gen_scan(s: Seq<u8>, j: int, depth: int) -> Option<int>
    decreases s.len() - j,
{
    if depth <= 0 {
        Some(j)
    } else if j < 0 || j >= s.len() {
        None
    } else if s[j] == B_SEMI || s[j] == B_NL {
        None
    } else {
        let d = if s[j] == B_LT {
            depth + 1
        } else if s[j] == B_GT {
            depth - 1
        } else {
            depth
        };
        gen_scan(s, j + 1, d)
    }
}

pub proof fn lemma_gen_scan_bounds(s: Seq<u8>, j: int, depth: int)
    requires
        0 <= j <= s.len(),
    ensures
        gen_scan(s, j, depth) matches Some(e) ==> j <= e <= s.len(),
    decreases s.len() - j,
{
    if depth <= 0 {
    } else if j < s.len() && s[j] != B_SEMI && s[j] != B_NL {
        let d = if s[j] == B_LT {
            depth + 1
        } else if s[j] == B_GT {
            depth - 1
        } else {
            depth
        };
        lemma_gen_scan_bounds(s, j + 1, d);
    }
}

/// Runs the generic look-ahead from `j` with `depth` open angles.
pub fn scan_gen(s: &[u8], j: usize, depth: usize) -> (r: Option<usize>)
    requires
        j <= s@.len(),
        depth <= j,
    ensures
        match gen_scan(s@, j as int, depth as int) {
            Some(e) => r == Some(e as usize) && j <= e <= s@.len(),
            None => r is None,
        },
{
    proof {
        lemma_gen_scan_bounds(s@, j as int, depth as int);
    }
    let mut k = j;
    let mut d = depth;
    loop
        invariant
            j <= k <= s@.len(),
            d <= k,
            gen_scan(s@, j as int, depth as int) == gen_scan(s@, k as int, d as int),
        decreases s@.len() - k,
    {
        if d == 0 {
            proof {
                lemma_gen_scan_bounds(s@, j as int, depth as int);
            }
            return Some(k);
        }
        if k >= s.len() {
            return None;
        }
        let b = s[k];
        if b == B_SEMI || b == B_NL {
            return None;
        }
        if b == B_LT {
            d = d + 1;
        } else if b == B_GT {
            d = d - 1;
        }
        k = k + 1;
    }
}

/// `import type` begins at `i` with at least one byte after it.
pub open spec fn import_type_at(s: Seq<u8>, i: int) -> bool {
    &&& 0 <= i
    &&& i + 11 < s.len()
    &&& s[i] == 105
    &&& s[i + 1] == 109
    &&& s[i + 2] == 112
    &&& s[i + 3] == 111
    &&& s[i + 4] == 114
    &&& s[i + 5] == 116
    &&& s[i + 6] == 32
    &&& s[i + 7] == 116
    &&& s[i + 8] == 121
    &&& s[i + 9] == 112
    &&& s[i + 10] == 101
}

/// `export type` begins at `i` with at least one byte after it.
pub open spec fn export_type_at(s: Seq<u8>, i: int) -> bool {
    &&& 0 <= i
    &&& i + 11 < s.len()
    &&& s[i] == 101
    &&& s[i + 1] == 120
    &&& s[i + 2] == 112
    &&& s[i + 3] == 111
    &&& s[i + 4] == 114
    &&& s[i + 5] == 116
    &&& s[i + 6] == 32
    &&& s[i + 7] == 116
    &&& s[i + 8] == 121
    &&& s[i + 9] == 112
    &&& s[i + 10] == 101
}

/// The `interface` keyword begins at `i`, not embedded in a longer
/// alphanumeric word.
pub open spec fn interface_at(s: Seq<u8>, i: int) -> bool {
    &&& 0 <= i
    &&& i + 9 < s.len()
    &&& s[i] == 105
    &&& s[i + 1] == 110
    &&& s[i + 2] == 116
    &&& s[i + 3] == 101
    &&& s[i + 4] == 114
    &&& s[i + 5] == 102
    &&& s[i + 6] == 97
    &&& s[i + 7] == 99
    &&& s[i + 8] == 101
    &&& (i == 0 || !spec_is_alnum(s[i - 1]))
    &&& !spec_is_alnum(s[i + 9])
}

/// The `type` keyword begins at `i`, preceded by a non-alphanumeric byte
/// and followed by a space or tab.
pub open spec fn type_kw_at(s: Seq<u8>, i: int) -> bool {
    &&& 0 <= i
    &&& i + 4 < s.len()
    &&& s[i] == 116
    &&& s[i + 1] == 121
    &&& s[i + 2] == 112
    &&& s[i + 3] == 101
    &&& (i == 0 || !spec_is_alnum(s[i - 1]))
    &&& (s[i + 4] == B_SPACE || s[i + 4] == B_TAB)
}

/// The word `extends` begins at `k`.
pub open spec fn extends_at(s: Seq<u8>, k: int) -> bool {
    &&& 0 <= k
    &&& k + 7 <= s.len()
    &&& s[k] == 101
    &&& s[k + 1] == 120
    &&& s[k + 2] == 116
    &&& s[k + 3] == 101
    &&& s[k + 4] == 110
    &&& s[k + 5] == 100
    &&& s[k + 6] == 115
}

/// The annotation classifier: the byte run at `j` (just after a colon and
/// its spaces) reads as a type, not an object-literal value — a primitive
/// type name, `typeof`, an opening `{`, `[`, or `(`, or an
/// uppercase-led identifier.
pub open spec fn signal_at(s: Seq<u8>, j: int) -> bool {
    &&& 0 <= j < s.len()
    &&& ({
        ||| (j + 6 <= s.len() && s[j] == 115 && s[j + 1] == 116 && s[j + 2] == 114 && s[j + 3]
            == 105 && s[j + 4] == 110 && s[j + 5] == 103)  // string
        ||| (j + 6 <= s.len() && s[j] == 110 && s[j + 1] == 117 && s[j + 2] == 109 && s[j + 3]
            == 98 && s[j + 4] == 101 && s[j + 5] == 114)  // number
        ||| (j + 7 <= s.len() && s[j] == 98 && s[j + 1] == 111 && s[j + 2] == 111 && s[j + 3]
            == 108 && s[j + 4] == 101 && s[j + 5] == 97 && s[j + 6] == 110)  // boolean
        ||| (j + 3 <= s.len() && s[j] == 97 && s[j + 1] == 110 && s[j + 2] == 121)  // any
        ||| (j + 4 <= s.len() && s[j] == 118 && s[j + 1] == 111 && s[j + 2] == 105 && s[j + 3]
            == 100)  // void
        ||| (j + 5 <= s.len() && s[j] == 110 && s[j + 1] == 101 && s[j + 2] == 118 && s[j + 3]
            == 101 && s[j + 4] == 114)  // never
        ||| (j + 4 <= s.len() && s[j] == 110 && s[j + 1] == 117 && s[j + 2] == 108 && s[j + 3]
            == 108)  // null
        ||| (j + 9 <= s.len() && s[j] == 117 && s[j + 1] == 110 && s[j + 2] == 100 && s[j + 3]
            == 101 && s[j + 4] == 102 && s[j + 5] == 105 && s[j + 6] == 110 && s[j + 7] == 101
            && s[j + 8] == 100)  // undefined
        ||| s[j] == B_LBRACE
        ||| s[j] == B_LBRACK
        ||| spec_is_upper(s[j])
        ||| s[j] == B_LPAREN
        ||| (j + 6 <= s.len() && s[j] == 116 && s[j + 1] == 121 && s[j + 2] == 112 && s[j + 3]
            == 101 && s[j + 4] == 111 && s[j + 5] == 102)  // typeof
    })
}

fn check_import_type(s: &[u8], i: usize) -> (r: bool)
    requires
        i <= s@.len(),
    ensures
        r == import_type_at(s@, i as int),
{
    if s.len() - i < 12 {
        return false;
    }
    s[i] == 105 && s[i + 1] == 109 && s[i + 2] == 112 && s[i + 3] == 111 && s[i + 4] == 114 && s[i
        + 5] == 116 && s[i + 6] == 32 && s[i + 7] == 116 && s[i + 8] == 121 && s[i + 9] == 112
        && s[i + 10] == 101
}

fn check_export_type(s: &[u8], i: usize) -> (r: bool)
    requires
        i <= s@.len(),
    ensures
        r == export_type_at(s@, i as int),
{
    if s.len() - i < 12 {
        return false;
    }
    s[i] == 101 && s[i + 1] == 120 && s[i + 2] == 112 && s[i + 3] == 111 && s[i + 4] == 114 && s[i
        + 5] == 116 && s[i + 6] == 32 && s[i + 7] == 116 && s[i + 8] == 121 && s[i + 9] == 112
        && s[i + 10] == 101
}

fn check_interface(s: &[u8], i: usize) -> (r: bool)
    requires
        i <= s@.len(),
    ensures
        r == interface_at(s@, i as int),
{
    if s.len() - i < 10 {
        return false;
    }
    s[i] == 105 && s[i + 1] == 110 && s[i + 2] == 116 && s[i + 3] == 101 && s[i + 4] == 114 && s[i
        + 5] == 102 && s[i + 6] == 97 && s[i + 7] == 99 && s[i + 8] == 101 && (i == 0 || !is_alnum(
        s[i - 1],
    )) && !is_alnum(s[i + 9])
}

fn check_type_kw(s: &[u8], i: usize) -> (r: bool)
    requires
        i <= s@.len(),
    ensures
        r == type_kw_at(s@, i as int),
{
    if s.len() - i < 5 {
        return false;
    }
    s[i] == 116 && s[i + 1] == 121 && s[i + 2] == 112 && s[i + 3] == 101 && (i == 0 || !is_alnum(
        s[i - 1],
    )) && (s[i + 4] == B_SPACE || s[i + 4] == B_TAB)
}

fn check_extends(s: &[u8], k: usize) -> (r: bool)
    requires
        k <= s@.len(),
    ensures
        r == extends_at(s@, k as int),
{
    if s.len() - k < 7 {
        return false;
    }
    s[k] == 101 && s[k + 1] == 120 && s[k + 2] == 116 && s[k + 3] == 101 && s[k + 4] == 110 && s[k
        + 5] == 100 && s[k + 6] == 115
}

fn check_signal(s: &[u8], j: usize) -> (r: bool)
    requires
        j <= s@.len(),
    ensures
        r == signal_at(s@, j as int),
{
    if j >= s.len() {
        return false;
    }
    let n = s.len() - j;
    (n >= 6 && s[j] == 115 && s[j + 1] == 116 && s[j + 2] == 114 && s[j + 3] == 105 && s[j + 4]
        == 110 && s[j + 5] == 103) || (n >= 6 && s[j] == 110 && s[j + 1] == 117 && s[j + 2] == 109
        && s[j + 3] == 98 && s[j + 4] == 101 && s[j + 5] == 114) || (n >= 7 && s[j] == 98 && s[j
        + 1] == 111 && s[j + 2] == 111 && s[j + 3] == 108 && s[j + 4] == 101 && s[j + 5] == 97
        && s[j + 6] == 110) || (n >= 3 && s[j] == 97 && s[j + 1] == 110 && s[j + 2] == 121) || (n
        >= 4 && s[j] == 118 && s[j + 1] == 111 && s[j + 2] == 105 && s[j + 3] == 100) || (n >= 5
        && s[j] == 110 && s[j + 1] == 101 && s[j + 2] == 118 && s[j + 3] == 101 && s[j + 4] == 114)
        || (n >= 4 && s[j] == 110 && s[j + 1] == 117 && s[j + 2] == 108 && s[j + 3] == 108) || (n
        >= 9 && s[j] == 117 && s[j + 1] == 110 && s[j + 2] == 100 && s[j + 3] == 101 && s[j + 4]
        == 102 && s[j + 5] == 105 && s[j + 6] == 110 && s[j + 7] == 101 && s[j + 8] == 100) || s[j]
        == B_LBRACE || s[j] == B_LBRACK || is_upper(s[j]) || s[j] == B_LPAREN || (n >= 6 && s[j]
        == 116 && s[j + 1] == 121 && s[j + 2] == 112 && s[j + 3] == 101 && s[j + 4] == 111 && s[j
        + 5] == 102)
}

/// The erased text from position `i` on, and whether any erasure trigger
/// fires there.  Each branch mirrors one trigger, in the order the pass
/// tests them; deleted statements leave a single newline; a byte that
/// triggers nothing is copied.
pub open spec fn erase_from(s: Seq<u8>, i: int) -> (Seq<u8>, bool)
    decreases s.len() - i,
{
    if i < 0 || i >= s.len() {
        (Seq::empty(), false)
    } else if crate::spec_is_quote(s[i]) {
        proof {
            lemma_str_lit_len_bound(s, s[i], i + 1);
        }
        let e = i + 1 + str_lit_len(s, s[i], i + 1);
        let r = erase_from(s, e);
        (s.subrange(i, e) + r.0, r.1)
    } else if s[i] == B_SLASH && i + 1 < s.len() && s[i + 1] == B_SLASH {
        proof {
            lemma_line_rest_bound(s, i);
            assert(line_rest(s, i) >= 1);
        }
        let e = i + line_rest(s, i);
        let r = erase_from(s, e);
        (s.subrange(i, e) + r.0, r.1)
    } else if s[i] == B_SLASH && i + 1 < s.len() && s[i + 1] == B_STAR {
        match block_close_off(s, i + 2) {
            Some(o) => {
                proof {
                    lemma_block_close_bound(s, i + 2);
                }
                let e = i + 4 + o;
                let r = erase_from(s, e);
                (s.subrange(i, e) + r.0, r.1)
            },
            None => {
                if i + 2 >= s.len() {
                    let r = erase_from(s, s.len() as int);
                    (s.subrange(i, s.len() as int) + r.0, r.1)
                } else {
                    let r = erase_from(s, s.len() - 1);
                    (s.subrange(i, s.len() - 1) + r.0, r.1)
                }
            },
        }
    } else if import_type_at(s, i) {
        proof {
            lemma_semi_nl_rest_bound(s, i);
            assert(semi_nl_rest(s, i) >= 1);
        }
        let r = erase_from(s, stmt_del_end(s, i));
        (seq![B_NL] + r.0, true)
    } else if export_type_at(s, i) && ({
        proof {
            lemma_sp_run_bound(s, i + 11);
        }
        let j = i + 11 + sp_run(s, i + 11);
        j < s.len() && s[j] == B_LBRACE
    }) {
        proof {
            lemma_semi_nl_rest_bound(s, i);
            assert(semi_nl_rest(s, i) >= 1);
        }
        let r = erase_from(s, stmt_del_end(s, i));
        (seq![B_NL] + r.0, true)
    } else if interface_at(s, i) {
        proof {
            lemma_iface_end_bounds(s, i, 0, false);
        }
        let r = erase_from(s, iface_end(s, i, 0, false));
        (seq![B_NL] + r.0, true)
    } else if type_kw_at(s, i) && ({
        proof {
            lemma_sp_run_bound(s, i + 4);
            lemma_alias_ident_run_bound(s, i + 4 + sp_run(s, i + 4));
            lemma_wsgen_end_bounds(
                s,
                i + 4 + sp_run(s, i + 4) + alias_ident_run(s, i + 4 + sp_run(s, i + 4)),
            );
        }
        let j0 = i + 4 + sp_run(s, i + 4);
        let idl = alias_ident_run(s, j0);
        let g = wsgen_end(s, j0 + idl);
        idl > 0 && g < s.len() && s[g] == B_EQ
    }) {
        proof {
            lemma_alias_del_end_bounds(s, i + 1);
            assert(alias_del_end(s, i) == alias_del_end(s, i + 1));
        }
        let r = erase_from(s, alias_del_end(s, i));
        (seq![B_NL] + r.0, true)
    } else if s[i] == B_COLON && ({
        proof {
            lemma_sp_run_bound(s, i + 1);
        }
        signal_at(s, i + 1 + sp_run(s, i + 1))
    }) {
        proof {
            lemma_ann_del_end_bounds(s, i + 1);
        }
        let r = erase_from(s, ann_del_end(s, i + 1));
        (r.0, true)
    } else if s[i] == B_LT && i > 0 && (spec_is_alnum(s[i - 1]) || s[i - 1] == B_UNDERSCORE) && ({
        proof {
            lemma_gen_scan_bounds(s, i + 1, 1);
        }
        gen_scan(s, i + 1, 1) matches Some(j2) && ({
            proof {
                lemma_sp_run_bound(s, j2);
            }
            let k = j2 + sp_run(s, j2);
            k < s.len() && (s[k] == B_LPAREN || s[k] == B_LBRACE || extends_at(s, k))
        })
    }) {
        proof {
            lemma_bal_len_bound(s, B_LT, B_GT, i + 1, 1);
        }
        let r = erase_from(s, i + 1 + bal_len(s, B_LT, B_GT, i + 1, 1));
        (r.0, true)
    } else if i + 2 < s.len() && s[i] == 97 && s[i + 1] == 115 && i > 0 && (s[i - 1] == B_SPACE
        || s[i - 1] == B_RPAREN || s[i - 1] == B_RBRACK) && s[i + 2] == B_SPACE {
        proof {
            lemma_as_del_end_bounds(s, i + 2);
        }
        let r = erase_from(s, as_del_end(s, i + 2));
        (r.0, true)
    } else if s[i] == B_BANG && i > 0 && (spec_is_alnum(s[i - 1]) || s[i - 1] == B_UNDERSCORE
        || s[i - 1] == B_RPAREN || s[i - 1] == B_RBRACK) && i + 1 < s.len() && (s[i + 1] == B_DOT
        || s[i + 1] == B_LBRACK || s[i + 1] == B_RPAREN || s[i + 1] == B_COMMA || s[i + 1]
        == B_SEMI || s[i + 1] == B_NL) {
        let r = erase_from(s, i + 1);
        (r.0, true)
    } else {
        let r = erase_from(s, i + 1);
        (seq![s[i]] + r.0, r.1)
    }
}

/// The erased text is never longer than the text it came from.
pub proof fn lemma_erase_len_bound(s: Seq<u8>, i: int)
    requires
        0 <= i <= s.len(),
    ensures
        erase_from(s, i).0.len() <= s.len() - i,
    decreases s.len() - i,
{
    if i < s.len() {
        if crate::spec_is_quote(s[i]) {
            lemma_str_lit_len_bound(s, s[i], i + 1);
            lemma_erase_len_bound(s, i + 1 + str_lit_len(s, s[i], i + 1));
        } else if s[i] == B_SLASH && i + 1 < s.len() && s[i + 1] == B_SLASH {
            lemma_line_rest_bound(s, i);
            lemma_erase_len_bound(s, i + line_rest(s, i));
        } else if s[i] == B_SLASH && i + 1 < s.len() && s[i + 1] == B_STAR {
            match block_close_off(s, i + 2) {
                Some(o) => {
                    lemma_block_close_bound(s, i + 2);
                    lemma_erase_len_bound(s, i + 4 + o);
                },
                None => {
                    if i + 2 >= s.len() {
                        lemma_erase_len_bound(s, s.len() as int);
                    } else {
                        lemma_erase_len_bound(s, s.len() - 1);
                    }
                },
            }
        } else if import_type_at(s, i) {
            lemma_semi_nl_rest_bound(s, i);
            lemma_erase_len_bound(s, stmt_del_end(s, i));
        } else if export_type_at(s, i) && ({
            let j = i + 11 + sp_run(s, i + 11);
            j < s.len() && s[j] == B_LBRACE
        }) {
            lemma_semi_nl_rest_bound(s, i);
            lemma_erase_len_bound(s, stmt_del_end(s, i));
        } else if interface_at(s, i) {
            lemma_iface_end_bounds(s, i, 0, false);
            lemma_erase_len_bound(s, iface_end(s, i, 0, false));
        } else if type_kw_at(s, i) && ({
            let j0 = i + 4 + sp_run(s, i + 4);
            let idl = alias_ident_run(s, j0);
            let g = wsgen_end(s, j0 + idl);
            idl > 0 && g < s.len() && s[g] == B_EQ
        }) {
            lemma_alias_del_end_bounds(s, i + 1);
            lemma_erase_len_bound(s, alias_del_end(s, i));
        } else if s[i] == B_COLON && signal_at(s, i + 1 + sp_run(s, i + 1)) {
            lemma_ann_del_end_bounds(s, i + 1);
            lemma_erase_len_bound(s, ann_del_end(s, i + 1));
        } else if s[i] == B_LT && i > 0 && (spec_is_alnum(s[i - 1]) || s[i - 1] == B_UNDERSCORE)
            && (gen_scan(s, i + 1, 1) matches Some(j2) && ({
            let k = j2 + sp_run(s, j2);
            k < s.len() && (s[k] == B_LPAREN || s[k] == B_LBRACE || extends_at(s, k))
        })) {
            lemma_bal_len_bound(s, B_LT, B_GT, i + 1, 1);
            lemma_erase_len_bound(s, i + 1 + bal_len(s, B_LT, B_GT, i + 1, 1));
        } else if i + 2 < s.len() && s[i] == 97 && s[i + 1] == 115 && i > 0 && (s[i - 1] == B_SPACE
            || s[i - 1] == B_RPAREN || s[i - 1] == B_RBRACK) && s[i + 2] == B_SPACE {
            lemma_as_del_end_bounds(s, i + 2);
            lemma_erase_len_bound(s, as_del_end(s, i + 2));
        } else if s[i] == B_BANG && i > 0 && (spec_is_alnum(s[i - 1]) || s[i - 1] == B_UNDERSCORE
            || s[i - 1] == B_RPAREN || s[i - 1] == B_RBRACK) && i + 1 < s.len() && (s[i + 1]
            == B_DOT || s[i + 1] == B_LBRACK || s[i + 1] == B_RPAREN || s[i + 1] == B_COMMA || s[i
            + 1] == B_SEMI || s[i + 1] == B_NL) {
            lemma_erase_len_bound(s, i + 1);
        } else {
            lemma_erase_len_bound(s, i + 1);
        }
    }
}

/// When no erasure trigger fires from `i` on, the pass copies the rest of
/// the text unchanged.
pub proof fn lemma_erase_clean_identity(s: Seq<u8>, i: int)
    requires
        0 <= i <= s.len(),
        !erase_from(s, i).1,
    ensures
        erase_from(s, i).0 == s.subrange(i, s.len() as int),
    decreases s.len() - i,
{
    if i >= s.len() {
        assert(erase_from(s, i).0 =~= s.subrange(i, s.len() as int));
    } else if crate::spec_is_quote(s[i]) {
        lemma_str_lit_len_bound(s, s[i], i + 1);
        let e = i + 1 + str_lit_len(s, s[i], i + 1);
        lemma_erase_clean_identity(s, e);
        assert(s.subrange(i, e) + s.subrange(e, s.len() as int) =~= s.subrange(
            i,
            s.len() as int,
        ));
    } else if s[i] == B_SLASH && i + 1 < s.len() && s[i + 1] == B_SLASH {
        lemma_line_rest_bound(s, i);
        let e = i + line_rest(s, i);
        lemma_erase_clean_identity(s, e);
        assert(s.subrange(i, e) + s.subrange(e, s.len() as int) =~= s.subrange(
            i,
            s.len() as int,
        ));
    } else if s[i] == B_SLASH && i + 1 < s.len() && s[i + 1] == B_STAR {
        match block_close_off(s, i + 2) {
            Some(o) => {
                lemma_block_close_bound(s, i + 2);
                let e = i + 4 + o;
                lemma_erase_clean_identity(s, e);
                assert(s.subrange(i, e) + s.subrange(e, s.len() as int) =~= s.subrange(
                    i,
                    s.len() as int,
                ));
            },
            None => {
                if i + 2 >= s.len() {
                    lemma_erase_clean_identity(s, s.len() as int);
                    assert(s.subrange(i, s.len() as int) + s.subrange(
                        s.len() as int,
                        s.len() as int,
                    ) =~= s.subrange(i, s.len() as int));
                } else {
                    lemma_erase_clean_identity(s, s.len() - 1);
                    assert(s.subrange(i, s.len() - 1) + s.subrange(s.len() - 1, s.len() as int)
                        =~= s.subrange(i, s.len() as int));
                }
            },
        }
    } else {
        lemma_erase_clean_identity(s, i + 1);
        assert(seq![s[i]] + s.subrange(i + 1, s.len() as int) =~= s.subrange(i, s.len() as int));
    }
}

/// When some erasure trigger fires from `i` on, the pass strictly
/// shortens the rest of the text.
pub proof fn lemma_erase_fires_shrinks(s: Seq<u8>, i: int)
    requires
        0 <= i <= s.len(),
        erase_from(s, i).1,
    ensures
        erase_from(s, i).0.len() < s.len() - i,
    decreases s.len() - i,
{
    if i < s.len() {
        if crate::spec_is_quote(s[i]) {
            lemma_str_lit_len_bound(s, s[i], i + 1);
            lemma_erase_fires_shrinks(s, i + 1 + str_lit_len(s, s[i], i + 1));
        } else if s[i] == B_SLASH && i + 1 < s.len() && s[i + 1] == B_SLASH {
            lemma_line_rest_bound(s, i);
            lemma_erase_fires_shrinks(s, i + line_rest(s, i));
        } else if s[i] == B_SLASH && i + 1 < s.len() && s[i + 1] == B_STAR {
            match block_close_off(s, i + 2) {
                Some(o) => {
                    lemma_block_close_bound(s, i + 2);
                    lemma_erase_fires_shrinks(s, i + 4 + o);
                },
                None => {
                    if i + 2 < s.len() {
                        lemma_erase_fires_shrinks(s, s.len() - 1);
                    }
                },
            }
        } else if import_type_at(s, i) {
            lemma_semi_nl_rest_bound(s, i);
            assert(semi_nl_rest(s, i + 1) >= 1);
            assert(semi_nl_rest(s, i) >= 2);
            lemma_erase_len_bound(s, stmt_del_end(s, i));
        } else if export_type_at(s, i) && ({
            let j = i + 11 + sp_run(s, i + 11);
            j < s.len() && s[j] == B_LBRACE
        }) {
            lemma_semi_nl_rest_bound(s, i);
            assert(semi_nl_rest(s, i + 1) >= 1);
            assert(semi_nl_rest(s, i) >= 2);
            lemma_erase_len_bound(s, stmt_del_end(s, i));
        } else if interface_at(s, i) {
            assert(iface_end(s, i, 0, false) == iface_end(s, i + 1, 0, false));
            lemma_iface_end_bounds(s, i + 1, 0, false);
            lemma_erase_len_bound(s, iface_end(s, i, 0, false));
        } else if type_kw_at(s, i) && ({
            let j0 = i + 4 + sp_run(s, i + 4);
            let idl = alias_ident_run(s, j0);
            let g = wsgen_end(s, j0 + idl);
            idl > 0 && g < s.len() && s[g] == B_EQ
        }) {
            assert(alias_del_end(s, i) == alias_del_end(s, i + 1));
            assert(alias_del_end(s, i + 1) == alias_del_end(s, i + 2));
            lemma_alias_del_end_bounds(s, i + 2);
            lemma_erase_len_bound(s, alias_del_end(s, i));
        } else if s[i] == B_COLON && signal_at(s, i + 1 + sp_run(s, i + 1)) {
            lemma_ann_del_end_bounds(s, i + 1);
            lemma_erase_len_bound(s, ann_del_end(s, i + 1));
        } else if s[i] == B_LT && i > 0 && (spec_is_alnum(s[i - 1]) || s[i - 1] == B_UNDERSCORE)
            && (gen_scan(s, i + 1, 1) matches Some(j2) && ({
            let k = j2 + sp_run(s, j2);
            k < s.len() && (s[k] == B_LPAREN || s[k] == B_LBRACE || extends_at(s, k))
        })) {
            lemma_bal_len_bound(s, B_LT, B_GT, i + 1, 1);
            lemma_erase_len_bound(s, i + 1 + bal_len(s, B_LT, B_GT, i + 1, 1));
        } else if i + 2 < s.len() && s[i] == 97 && s[i + 1] == 115 && i > 0 && (s[i - 1] == B_SPACE
            || s[i - 1] == B_RPAREN || s[i - 1] == B_RBRACK) && s[i + 2] == B_SPACE {
            lemma_as_del_end_bounds(s, i + 2);
            lemma_erase_len_bound(s, as_del_end(s, i + 2));
        } else if s[i] == B_BANG && i > 0 && (spec_is_alnum(s[i - 1]) || s[i - 1] == B_UNDERSCORE
            || s[i - 1] == B_RPAREN || s[i - 1] == B_RBRACK) && i + 1 < s.len() && (s[i + 1]
            == B_DOT || s[i + 1] == B_LBRACK || s[i + 1] == B_RPAREN || s[i + 1] == B_COMMA || s[i
            + 1] == B_SEMI || s[i + 1] == B_NL) {
            lemma_erase_len_bound(s, i + 1);
        } else {
            lemma_erase_fires_shrinks(s, i + 1);
        }
    }
}

/// Law: applying the eraser to its own output strictly shortens the text
/// whenever a trigger remains in it — so the only inputs on which two
/// passes can agree are those whose first result is trigger-free.
pub proof fn lemma_erase_second_pass_shrinks(s: Seq<u8>)
    requires
        erase_from(erase_from(s, 0).0, 0).1,
    ensures
        erase_from(erase_from(s, 0).0, 0).0.len() < erase_from(s, 0).0.len(),
{
    lemma_erase_fires_shrinks(erase_from(s, 0).0, 0);
}

/// Law: the eraser is idempotent whenever its result holds no further
/// erasure trigger — a second pass then returns the erased text unchanged.
pub proof fn lemma_erase_idempotent_when_clean(s: Seq<u8>)
    requires
        !erase_from(erase_from(s, 0).0, 0).1,
    ensures
        erase_from(erase_from(s, 0).0, 0).0 == erase_from(s, 0).0,
{
    let once = erase_from(s, 0).0;
    lemma_erase_clean_identity(once, 0);
    assert(once.subrange(0, once.len() as int) =~= once);
}

/// Law: two erasure passes agree exactly on the inputs whose first result
/// is free of further triggers; on every other input the second pass
/// strictly shortens the text, so the passes disagree.
pub proof fn lemma_erase_idempotence_exact(s: Seq<u8>)
    ensures
        (erase_from(erase_from(s, 0).0, 0).0 == erase_from(s, 0).0) <==> !erase_from(
            erase_from(s, 0).0,
            0,
        ).1,
{
    if erase_from(erase_from(s, 0).0, 0).1 {
        lemma_erase_second_pass_shrinks(s);
    } else {
        lemma_erase_idempotent_when_clean(s);
    }
}

/// Removes TypeScript-only syntax from the source in one forward pass.
/// Returns the erased text and whether any trigger fired.
#[verifier::rlimit(100)]
pub fn remove_typescript_types(s: &[u8]) -> (r: (Vec<u8>, bool))
    ensures
        r.0@ == erase_from(s@, 0).0,
        r.1 == erase_from(s@, 0).1,
{
    let mut out: Vec<u8> = Vec::new();
    let mut had = false;
    let mut i: usize = 0;
    loop
        invariant
            i <= s@.len(),
            erase_from(s@, 0).0 == out@ + erase_from(s@, i as int).0,
            erase_from(s@, 0).1 == (had || erase_from(s@, i as int).1),
        decreases s@.len() - i,
    {
        let ghost o0 = out@;
        if i >= s.len() {
            proof {
                assert(out@ + erase_from(s@, i as int).0 =~= out@);
            }
            return (out, had);
        }
        let b = s[i];
        if crate::is_quote(b) {
            let (e, _c) = scan_str_lit(s, b, i + 1);
            push_range(&mut out, s, i, e);
            proof {
                assert(o0 + (s@.subrange(i as int, e as int) + erase_from(s@, e as int).0) =~= (o0
                    + s@.subrange(i as int, e as int)) + erase_from(s@, e as int).0);
            }
            i = e;
            continue;
        }
        if b == B_SLASH && i + 1 < s.len() && s[i + 1] == B_SLASH {
            let e = scan_line(s, i);
            push_range(&mut out, s, i, e);
            proof {
                assert(o0 + (s@.subrange(i as int, e as int) + erase_from(s@, e as int).0) =~= (o0
                    + s@.subrange(i as int, e as int)) + erase_from(s@, e as int).0);
            }
            i = e;
            continue;
        }
        if b == B_SLASH && i + 1 < s.len() && s[i + 1] == B_STAR {
            match scan_block_close(s, i + 2) {
                Some(k) => {
                    push_range(&mut out, s, i, k + 2);
                    proof {
                        assert(o0 + (s@.subrange(i as int, k + 2) + erase_from(s@, k + 2).0) =~= (
                        o0 + s@.subrange(i as int, k + 2)) + erase_from(s@, k + 2).0);
                    }
                    i = k + 2;
                },
                None => {
                    if i + 2 >= s.len() {
                        push_range(&mut out, s, i, s.len());
                        proof {
                            assert(o0 + (s@.subrange(i as int, s@.len() as int) + erase_from(
                                s@,
                                s@.len() as int,
                            ).0) =~= (o0 + s@.subrange(i as int, s@.len() as int)) + erase_from(
                                s@,
                                s@.len() as int,
                            ).0);
                        }
                        i = s.len();
                    } else {
                        let e = s.len() - 1;
                        push_range(&mut out, s, i, e);
                        proof {
                            assert(o0 + (s@.subrange(i as int, e as int) + erase_from(
                                s@,
                                e as int,
                            ).0) =~= (o0 + s@.subrange(i as int, e as int)) + erase_from(
                                s@,
                                e as int,
                            ).0);
                        }
                        i = e;
                    }
                },
            }
            continue;
        }
        if check_import_type(s, i) {
            had = true;
            let e1 = scan_semi_nl(s, i);
            let e = if e1 < s.len() && s[e1] == B_SEMI {
                e1 + 1
            } else {
                e1
            };
            out.push(B_NL);
            proof {
                assert(o0.push(B_NL) =~= o0 + seq![B_NL]);
                assert(o0 + (seq![B_NL] + erase_from(s@, e as int).0) =~= (o0 + seq![B_NL])
                    + erase_from(s@, e as int).0);
            }
            i = e;
            continue;
        }
        if check_export_type(s, i) {
            let j = scan_sp(s, i + 11);
            if j < s.len() && s[j] == B_LBRACE {
                had = true;
                let e1 = scan_semi_nl(s, i);
                let e = if e1 < s.len() && s[e1] == B_SEMI {
                    e1 + 1
                } else {
                    e1
                };
                out.push(B_NL);
                proof {
                    assert(o0.push(B_NL) =~= o0 + seq![B_NL]);
                    assert(o0 + (seq![B_NL] + erase_from(s@, e as int).0) =~= (o0 + seq![B_NL])
                        + erase_from(s@, e as int).0);
                }
                i = e;
                continue;
            }
        }
        if check_interface(s, i) {
            had = true;
            let e = scan_iface_end(s, i);
            out.push(B_NL);
            proof {
                assert(o0.push(B_NL) =~= o0 + seq![B_NL]);
                assert(o0 + (seq![B_NL] + erase_from(s@, e as int).0) =~= (o0 + seq![B_NL])
                    + erase_from(s@, e as int).0);
            }
            i = e;
            continue;
        }
        if check_type_kw(s, i) {
            let j0 = scan_sp(s, i + 4);
            let j1 = scan_alias_ident(s, j0);
            let g = scan_wsgen(s, j1);
            if j1 > j0 && g < s.len() && s[g] == B_EQ {
                had = true;
                let e = scan_alias_del(s, i + 1);
                proof {
                    assert(alias_del_end(s@, i as int) == alias_del_end(s@, i + 1));
                }
                out.push(B_NL);
                proof {
                    assert(o0.push(B_NL) =~= o0 + seq![B_NL]);
                    assert(o0 + (seq![B_NL] + erase_from(s@, e as int).0) =~= (o0 + seq![B_NL])
                        + erase_from(s@, e as int).0);
                }
                i = e;
                continue;
            }
        }
        if b == B_COLON {
            let j = scan_sp(s, i + 1);
            if check_signal(s, j) {
                had = true;
                let e = scan_ann_del(s, i + 1);
                i = e;
                continue;
            }
        }
        if b == B_LT && i > 0 && (is_alnum(s[i - 1]) || s[i - 1] == B_UNDERSCORE) {
            match scan_gen(s, i + 1, 1) {
                Some(j2) => {
                    let k = scan_sp(s, j2);
                    let fire = k < s.len() && (s[k] == B_LPAREN || s[k] == B_LBRACE || check_extends(
                        s,
                        k,
                    ));
                    if fire {
                        had = true;
                        let e = scan_bal(s, B_LT, B_GT, i + 1, 1);
                        i = e;
                        continue;
                    }
                },
                None => {},
            }
        }
        if s.len() - i > 2 && b == 97 && s[i + 1] == 115 && i > 0 && (s[i - 1] == B_SPACE || s[i
            - 1] == B_RPAREN || s[i - 1] == B_RBRACK) && s[i + 2] == B_SPACE {
            had = true;
            let e = scan_as_del(s, i + 2);
            i = e;
            continue;
        }
        if b == B_BANG && i > 0 && (is_alnum(s[i - 1]) || s[i - 1] == B_UNDERSCORE || s[i - 1]
            == B_RPAREN || s[i - 1] == B_RBRACK) && i + 1 < s.len() && (s[i + 1] == B_DOT || s[i
            + 1] == B_LBRACK || s[i + 1] == B_RPAREN || s[i + 1] == B_COMMA || s[i + 1] == B_SEMI
            || s[i + 1] == B_NL) {
            had = true;
            i = i + 1;
            continue;
        }
        out.push(b);
        proof {
            assert(o0.push(b) =~= o0 + seq![b]);
            assert(o0 + (seq![b] + erase_from(s@, i + 1).0) =~= (o0 + seq![b]) + erase_from(
                s@,
                i + 1,
            ).0);
        }
        i = i + 1;
    }
}

} // verus!
