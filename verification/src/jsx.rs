//! The JSX rewriter: a recursive-descent element/attribute/children parser
//! that rewrites tags into call expressions — `_jsx`/`_jsxs` factory calls
//! for the automatic runtime, `React.createElement` calls for the classic
//! one.  Closing-tag names are consumed without being matched against the
//! opening tag.

use vstd::prelude::*;
use crate::{spec_is_alnum, spec_is_alpha, spec_is_quote, spec_is_upper, is_alnum, is_alpha,
    is_quote, is_upper, B_DASH, B_DOT, B_DQUOTE, B_GT, B_LBRACE, B_LT, B_NL,
    B_RBRACE, B_SLASH, B_SQUOTE, B_STAR, B_TAB, B_SPACE, B_UNDERSCORE};
use crate::scan::{block_close_off, lemma_block_close_bound, lemma_line_rest_bound,
    lemma_sp_run_bound, lemma_str_lit_len_bound, line_rest, push_range, scan_block_close,
    scan_line, scan_sp, scan_str_lit, sp_run, str_lit_len};
use crate::emit::{attr_name_convert, attr_name_js, flush_text, join_comma, join_parts,
    lit_children_arr_open, lit_children_field, lit_colon_quote, lit_colon_space, lit_colon_true,
    lit_comma_space, lit_dquote, lit_empty_obj, lit_frag_auto_close, lit_frag_auto_empty,
    lit_frag_auto_open, lit_jsx_name, lit_jsxs_name, lit_key_word, lit_lparen, lit_null_word,
    lit_obj_close, lit_obj_open, lit_rbrack, lit_react_create, lit_react_frag_null, lit_rparen,
    lit_spread_dots, make_text_child, put_children_arr_open, put_children_field, put_colon_quote,
    put_colon_space, put_colon_true, put_comma_space, put_dquote, put_empty_obj,
    put_frag_auto_close, put_frag_auto_empty, put_frag_auto_open, put_jsx_name, put_jsxs_name,
    put_lparen, put_null_word, put_obj_close, put_obj_open, put_rbrack, put_react_create,
    put_react_frag_null, put_rparen, put_spread_dots, text_child, trim_copy, trim_range};

verus! {

/// Bytes from `i` up to (not including) the next occurrence of `tgt`, or
/// to end of input.
pub open spec fn until_rest(s: Seq<u8>, tgt: u8, i: int) -> nat
    decreases s.len() - i,
{
    if i < 0 || i >= s.len() {
        0
    } else if s[i] == tgt {
        0
    } else {
        1 + until_rest(s, tgt, i + 1)
    }
}

/// Advances from `i` to the next `tgt` byte (or end of input).
pub fn scan_until(s: &[u8], tgt: u8, i: usize) -> (j: usize)
    requires
        i <= s@.len(),
    ensures
        j == i + until_rest(s@, tgt, i as int),
        j <= s@.len(),
{
    let mut j = i;
    loop
        invariant
            i <= j <= s@.len(),
            i + until_rest(s@, tgt, i as int) == j + until_rest(s@, tgt, j as int),
        decreases s@.len() - j,
    {
        if j >= s.len() || s[j] == tgt {
            return j;
        }
        j = j + 1;
    }
}

/// Length of a tag-name run: alphanumeric, `_`, `.`, `-`.
pub open spec fn tag_run(s: Seq<u8>, i: int) -> nat
    decreases s.len() - i,
{
    if i < 0 || i >= s.len() {
        0
    } else if spec_is_alnum(s[i]) || s[i] == B_UNDERSCORE || s[i] == B_DOT || s[i] == B_DASH {
        1 + tag_run(s, i + 1)
    } else {
        0
    }
}

pub proof fn lemma_tag_run_bound(s: Seq<u8>, i: int)
    requires
        0 <= i <= s.len(),
    ensures
        i + tag_run(s, i) <= s.len(),
    decreases s.len() - i,
{
    if i < s.len() && (spec_is_alnum(s[i]) || s[i] == B_UNDERSCORE || s[i] == B_DOT || s[i]
        == B_DASH) {
        lemma_tag_run_bound(s, i + 1);
    }
}

/// Advances past a tag-name run.
pub fn scan_tag(s: &[u8], i: usize) -> (j: usize)
    requires
        i <= s@.len(),
    ensures
        j == i + tag_run(s@, i as int),
        j <= s@.len(),
{
    let mut j = i;
    loop
        invariant
            i <= j <= s@.len(),
            i + tag_run(s@, i as int) == j + tag_run(s@, j as int),
        decreases s@.len() - j,
    {
        if j >= s.len() || !(is_alnum(s[j]) || s[j] == B_UNDERSCORE || s[j] == B_DOT || s[j]
            == B_DASH) {
            return j;
        }
        j = j + 1;
    }
}

/// Length of the whitespace run skipped between attributes: space, tab,
/// or newline.
pub open spec fn attr_ws_run(s: Seq<u8>, i: int) -> nat
    decreases s.len() - i,
{
    if i < 0 || i >= s.len() {
        0
    } else if s[i] == B_SPACE || s[i] == B_TAB || s[i] == B_NL {
        1 + attr_ws_run(s, i + 1)
    } else {
        0
    }
}

pub proof fn lemma_attr_ws_run_bound(s: Seq<u8>, i: int)
    requires
        0 <= i <= s.len(),
    ensures
        i + attr_ws_run(s, i) <= s.len(),
    decreases s.len() - i,
{
    if i < s.len() && (s[i] == B_SPACE || s[i] == B_TAB || s[i] == B_NL) {
        lemma_attr_ws_run_bound(s, i + 1);
    }
}

/// Advances past attribute whitespace.
pub fn scan_attr_ws(s: &[u8], i: usize) -> (j: usize)
    requires
        i <= s@.len(),
    ensures
        j == i + attr_ws_run(s@, i as int),
        j <= s@.len(),
{
    let mut j = i;
    loop
        invariant
            i <= j <= s@.len(),
            i + attr_ws_run(s@, i as int) == j + attr_ws_run(s@, j as int),
        decreases s@.len() - j,
    {
        if j >= s.len() || !(s[j] == B_SPACE || s[j] == B_TAB || s[j] == B_NL) {
            return j;
        }
        j = j + 1;
    }
}

/// Length of an attribute-name run: alphanumeric, `_`, `-`.
pub open spec fn attr_name_run(s: Seq<u8>, i: int) -> nat
    decreases s.len() - i,
{
    if i < 0 || i >= s.len() {
        0
    } else if spec_is_alnum(s[i]) || s[i] == B_UNDERSCORE || s[i] == B_DASH {
        1 + attr_name_run(s, i + 1)
    } else {
        0
    }
}

pub proof fn lemma_attr_name_run_bound(s: Seq<u8>, i: int)
    requires
        0 <= i <= s.len(),
    ensures
        i + attr_name_run(s, i) <= s.len(),
    decreases s.len() - i,
{
    if i < s.len() && (spec_is_alnum(s[i]) || s[i] == B_UNDERSCORE || s[i] == B_DASH) {
        lemma_attr_name_run_bound(s, i + 1);
    }
}

/// Advances past an attribute-name run.
pub fn scan_attr_name(s: &[u8], i: usize) -> (j: usize)
    requires
        i <= s@.len(),
    ensures
        j == i + attr_name_run(s@, i as int),
        j <= s@.len(),
{
    let mut j = i;
    loop
        invariant
            i <= j <= s@.len(),
            i + attr_name_run(s@, i as int) == j + attr_name_run(s@, j as int),
        decreases s@.len() - j,
    {
        if j >= s.len() || !(is_alnum(s[j]) || s[j] == B_UNDERSCORE || s[j] == B_DASH) {
            return j;
        }
        j = j + 1;
    }
}

/// Length of a brace-balanced expression starting at `i` with `depth`
/// braces already open beyond the enclosing one: consumed up to (not
/// including) the `}` that would close the enclosing brace; nested string
/// literals are skipped with escape handling.
pub open spec fn jsx_expr_len(s: Seq<u8>, i: int, depth: int) -> nat
    decreases s.len() - i,
{
    if i < 0 || i >= s.len() {
        0
    } else if s[i] == B_RBRACE && depth <= 0 {
        0
    } else if s[i] == B_RBRACE {
        1 + jsx_expr_len(s, i + 1, depth - 1)
    } else if s[i] == B_LBRACE {
        1 + jsx_expr_len(s, i + 1, depth + 1)
    } else if spec_is_quote(s[i]) {
        proof {
            lemma_str_lit_len_bound(s, s[i], i + 1);
        }
        let r = 1 + str_lit_len(s, s[i], i + 1);
        (r + jsx_expr_len(s, i + r, depth)) as nat
    } else {
        1 + jsx_expr_len(s, i + 1, depth)
    }
}

pub proof fn lemma_jsx_expr_len_bound(s: Seq<u8>, i: int, depth: int)
    requires
        0 <= i <= s.len(),
    ensures
        i + jsx_expr_len(s, i, depth) <= s.len(),
    decreases s.len() - i,
{
    if i < s.len() {
        if s[i] == B_RBRACE && depth <= 0 {
        } else if s[i] == B_RBRACE {
            lemma_jsx_expr_len_bound(s, i + 1, depth - 1);
        } else if s[i] == B_LBRACE {
            lemma_jsx_expr_len_bound(s, i + 1, depth + 1);
        } else if spec_is_quote(s[i]) {
            lemma_str_lit_len_bound(s, s[i], i + 1);
            lemma_jsx_expr_len_bound(s, i + 1 + str_lit_len(s, s[i], i + 1), depth);
        } else {
            lemma_jsx_expr_len_bound(s, i + 1, depth);
        }
    }
}

/// Advances past a brace-balanced expression from `i`.
pub fn scan_jsx_expr(s: &[u8], i: usize) -> (e: usize)
    requires
        i <= s@.len(),
    ensures
        e == i + jsx_expr_len(s@, i as int, 0),
        i <= e <= s@.len(),
{
    let mut j = i;
    let mut d: usize = 0;
    loop
        invariant
            i <= j <= s@.len(),
            d <= j,
            i + jsx_expr_len(s@, i as int, 0) == j + jsx_expr_len(s@, j as int, d as int),
        decreases s@.len() - j,
    {
        if j >= s.len() {
            return j;
        }
        let b = s[j];
        if b == B_RBRACE {
            if d == 0 {
                return j;
            }
            d = d - 1;
            j = j + 1;
        } else if b == B_LBRACE {
            d = d + 1;
            j = j + 1;
        } else if is_quote(b) {
            let (e2, _c) = scan_str_lit(s, b, j + 1);
            j = e2;
        } else {
            j = j + 1;
        }
    }
}

/// What the attribute parser produces: the prop texts gathered so far, the
/// separately carried `key` value, the position after the opening tag's
/// end, and whether the tag closed itself with `/>`.
pub ghost struct JsxAttrs {
    pub props: Seq<Seq<u8>>,
    pub key: Option<Seq<u8>>,
    pub end: int,
    pub self_close: bool,
}

/// Parses attributes left to right from `i` until `>` or `/>` (or a byte
/// that is no attribute, where the scan stops so children parsing takes
/// over).  Spreads become `...expr`; string values become `name: "text"`
/// with the name translated; expression values become `name: expr`; a
/// bare name becomes `name: true`; an attribute named `key` after
/// translation is carried apart from the props.
pub open spec fn jsx_attrs(s: Seq<u8>, i: int, props: Seq<Seq<u8>>, key: Option<Seq<u8>>) -> JsxAttrs
    decreases s.len() - i,
{
    if i < 0 || i > s.len() {
        JsxAttrs { props, key, end: i, self_close: false }
    } else {
        proof {
            lemma_attr_ws_run_bound(s, i);
        }
        let w = i + attr_ws_run(s, i);
        if w < s.len() && s[w] == B_GT {
            JsxAttrs { props, key, end: w + 1, self_close: false }
        } else if w + 1 < s.len() && s[w] == B_SLASH && s[w + 1] == B_GT {
            JsxAttrs { props, key, end: w + 2, self_close: true }
        } else if w + 2 < s.len() && s[w] == B_LBRACE && s[w + 1] == B_DOT && s[w + 2] == B_DOT {
            let p0 = w + 3;
            let p1 = if p0 < s.len() && s[p0] == B_DOT {
                p0 + 1
            } else {
                p0
            };
            proof {
                lemma_jsx_expr_len_bound(s, p1, 0);
            }
            let el = jsx_expr_len(s, p1, 0);
            let ex = trim_range(s, p1, p1 + el);
            let p2 = p1 + el;
            let p3 = if p2 < s.len() && s[p2] == B_RBRACE {
                p2 + 1
            } else {
                p2
            };
            jsx_attrs(s, p3, props.push(lit_spread_dots() + ex), key)
        } else {
            let nr = attr_name_run(s, w);
            if nr == 0 {
                JsxAttrs { props, key, end: w, self_close: false }
            } else {
                proof {
                    lemma_attr_name_run_bound(s, w);
                    lemma_sp_run_bound(s, w + nr);
                }
                let name = s.subrange(w, w + nr);
                let js = attr_name_js(name);
                let q = w + nr + sp_run(s, w + nr);
                if q < s.len() && s[q] == 61 {
                    proof {
                        lemma_sp_run_bound(s, q + 1);
                    }
                    let v = q + 1 + sp_run(s, q + 1);
                    if v < s.len() && (s[v] == B_DQUOTE || s[v] == B_SQUOTE) {
                        let vr = until_rest(s, s[v], v + 1);
                        proof {
                            lemma_until_rest_bound(s, s[v], v + 1);
                        }
                        let value = s.subrange(v + 1, v + 1 + vr);
                        let after = if v + 1 + vr < s.len() {
                            v + 2 + vr
                        } else {
                            v + 1 + vr
                        };
                        if js == lit_key_word() {
                            jsx_attrs(s, after, props, Some(lit_dquote() + value + lit_dquote()))
                        } else {
                            jsx_attrs(
                                s,
                                after,
                                props.push(js + lit_colon_quote() + value + lit_dquote()),
                                key,
                            )
                        }
                    } else if v < s.len() && s[v] == B_LBRACE {
                        proof {
                            lemma_jsx_expr_len_bound(s, v + 1, 0);
                        }
                        let el = jsx_expr_len(s, v + 1, 0);
                        let ex = trim_range(s, v + 1, v + 1 + el);
                        let p2 = v + 1 + el;
                        let after = if p2 < s.len() && s[p2] == B_RBRACE {
                            p2 + 1
                        } else {
                            p2
                        };
                        if js == lit_key_word() {
                            jsx_attrs(s, after, props, Some(ex))
                        } else {
                            jsx_attrs(s, after, props.push(js + lit_colon_space() + ex), key)
                        }
                    } else {
                        jsx_attrs(s, v, props, key)
                    }
                } else {
                    jsx_attrs(s, q, props.push(js + lit_colon_true()), key)
                }
            }
        }
    }
}

pub proof fn lemma_until_rest_bound(s: Seq<u8>, tgt: u8, i: int)
    requires
        0 <= i <= s.len(),
    ensures
        i + until_rest(s, tgt, i) <= s.len(),
    decreases s.len() - i,
{
    if i < s.len() && s[i] != tgt {
        lemma_until_rest_bound(s, tgt, i + 1);
    }
}

pub proof fn lemma_jsx_attrs_bounds(s: Seq<u8>, i: int, props: Seq<Seq<u8>>, key: Option<Seq<u8>>)
    requires
        0 <= i <= s.len(),
    ensures
        i <= jsx_attrs(s, i, props, key).end <= s.len(),
    decreases s.len() - i,
{
    lemma_attr_ws_run_bound(s, i);
    let w = i + attr_ws_run(s, i);
    if w < s.len() && s[w] == B_GT {
    } else if w + 1 < s.len() && s[w] == B_SLASH && s[w + 1] == B_GT {
    } else if w + 2 < s.len() && s[w] == B_LBRACE && s[w + 1] == B_DOT && s[w + 2] == B_DOT {
        let p0 = w + 3;
        let p1 = if p0 < s.len() && s[p0] == B_DOT {
            p0 + 1
        } else {
            p0
        };
        lemma_jsx_expr_len_bound(s, p1, 0);
        let el = jsx_expr_len(s, p1, 0);
        let ex = trim_range(s, p1, p1 + el);
        let p2 = p1 + el;
        let p3 = if p2 < s.len() && s[p2] == B_RBRACE {
            p2 + 1
        } else {
            p2
        };
        lemma_jsx_attrs_bounds(s, p3, props.push(lit_spread_dots() + ex), key);
    } else {
        let nr = attr_name_run(s, w);
        if nr == 0 {
        } else {
            lemma_attr_name_run_bound(s, w);
            lemma_sp_run_bound(s, w + nr);
            let name = s.subrange(w, w + nr);
            let js = attr_name_js(name);
            let q = w + nr + sp_run(s, w + nr);
            if q < s.len() && s[q] == 61 {
                lemma_sp_run_bound(s, q + 1);
                let v = q + 1 + sp_run(s, q + 1);
                if v < s.len() && (s[v] == B_DQUOTE || s[v] == B_SQUOTE) {
                    let vr = until_rest(s, s[v], v + 1);
                    lemma_until_rest_bound(s, s[v], v + 1);
                    let value = s.subrange(v + 1, v + 1 + vr);
                    let after = if v + 1 + vr < s.len() {
                        v + 2 + vr
                    } else {
                        v + 1 + vr
                    };
                    if js == lit_key_word() {
                        lemma_jsx_attrs_bounds(
                            s,
                            after,
                            props,
                            Some(lit_dquote() + value + lit_dquote()),
                        );
                    } else {
                        lemma_jsx_attrs_bounds(
                            s,
                            after,
                            props.push(js + lit_colon_quote() + value + lit_dquote()),
                            key,
                        );
                    }
                } else if v < s.len() && s[v] == B_LBRACE {
                    lemma_jsx_expr_len_bound(s, v + 1, 0);
                    let el = jsx_expr_len(s, v + 1, 0);
                    let ex = trim_range(s, v + 1, v + 1 + el);
                    let p2 = v + 1 + el;
                    let after = if p2 < s.len() && s[p2] == B_RBRACE {
                        p2 + 1
                    } else {
                        p2
                    };
                    if js == lit_key_word() {
                        lemma_jsx_attrs_bounds(s, after, props, Some(ex));
                    } else {
                        lemma_jsx_attrs_bounds(
                            s,
                            after,
                            props.push(js + lit_colon_space() + ex),
                            key,
                        );
                    }
                } else {
                    lemma_jsx_attrs_bounds(s, v, props, key);
                }
            } else {
                lemma_jsx_attrs_bounds(s, q, props.push(js + lit_colon_true()), key);
            }
        }
    }
}

/// The view of an optional carried `key` value.
pub open spec fn key_view(k: Option<Vec<u8>>) -> Option<Seq<u8>> {
    match k {
        Some(v) => Some(v@),
        None => None,
    }
}

/// Parses the attribute list from `i`, returning the props, the carried
/// `key`, the position after the opening tag, and whether it self-closed.
#[verifier::rlimit(100)]
pub fn jsx_attrs_exec(s: &[u8], i: usize) -> (r: (Vec<Vec<u8>>, Option<Vec<u8>>, usize, bool))
    requires
        i <= s@.len(),
    ensures
        ({
            let sp = jsx_attrs(s@, i as int, Seq::empty(), None);
            &&& r.0@.map_values(|v: Vec<u8>| v@) == sp.props
            &&& key_view(r.1) == sp.key
            &&& r.2 == sp.end
            &&& r.3 == sp.self_close
            &&& i <= r.2 <= s@.len()
        }),
{
    proof {
        lemma_jsx_attrs_bounds(s@, i as int, Seq::empty(), None);
    }
    let mut props: Vec<Vec<u8>> = Vec::new();
    let mut key: Option<Vec<u8>> = None;
    let mut j = i;
    proof {
        assert(props@.map_values(|v: Vec<u8>| v@) =~= Seq::<Seq<u8>>::empty());
    }
    loop
        invariant
            i <= j <= s@.len(),
            jsx_attrs(s@, i as int, Seq::empty(), None) == jsx_attrs(
                s@,
                j as int,
                props@.map_values(|v: Vec<u8>| v@),
                key_view(key),
            ),
        decreases s@.len() - j,
    {
        let ghost pprops = props@.map_values(|v: Vec<u8>| v@);
        let w = scan_attr_ws(s, j);
        if w < s.len() && s[w] == B_GT {
            return (props, key, w + 1, false);
        }
        if s.len() - w > 1 && s[w] == B_SLASH && s[w + 1] == B_GT {
            return (props, key, w + 2, true);
        }
        if s.len() - w > 2 && s[w] == B_LBRACE && s[w + 1] == B_DOT && s[w + 2] == B_DOT {
            let p0 = w + 3;
            let p1 = if p0 < s.len() && s[p0] == B_DOT {
                p0 + 1
            } else {
                p0
            };
            let p2 = scan_jsx_expr(s, p1);
            let ex = trim_copy(s, p1, p2);
            let p3 = if p2 < s.len() && s[p2] == B_RBRACE {
                p2 + 1
            } else {
                p2
            };
            let mut prop: Vec<u8> = Vec::new();
            put_spread_dots(&mut prop);
            push_range(&mut prop, ex.as_slice(), 0, ex.len());
            props.push(prop);
            proof {
                assert(props@.map_values(|v: Vec<u8>| v@) =~~= pprops.push(
                    lit_spread_dots() + trim_range(s@, p1 as int, p2 as int),
                ));
            }
            j = p3;
            continue;
        }
        let ne = scan_attr_name(s, w);
        if ne == w {
            return (props, key, w, false);
        }
        let name = vstd::slice::slice_to_vec(&s[w..ne]);
        let js = attr_name_convert(&name);
        let q = scan_sp(s, ne);
        if q < s.len() && s[q] == 61 {
            let v = scan_sp(s, q + 1);
            if v < s.len() && (s[v] == B_DQUOTE || s[v] == B_SQUOTE) {
                let ve = scan_until(s, s[v], v + 1);
                let after = if ve < s.len() {
                    ve + 1
                } else {
                    ve
                };
                let is_key = js.len() == 3 && js[0] == 107 && js[1] == 101 && js[2] == 121;
                proof {
                    if is_key {
                        assert(js@ =~= lit_key_word());
                    } else {
                        assert(js@ != lit_key_word());
                    }
                }
                if is_key {
                    let mut kv: Vec<u8> = Vec::new();
                    put_dquote(&mut kv);
                    push_range(&mut kv, s, v + 1, ve);
                    put_dquote(&mut kv);
                    key = Some(kv);
                } else {
                    let mut prop: Vec<u8> = js;
                    put_colon_quote(&mut prop);
                    push_range(&mut prop, s, v + 1, ve);
                    put_dquote(&mut prop);
                    props.push(prop);
                    proof {
                        assert(props@.map_values(|v2: Vec<u8>| v2@) =~~= pprops.push(
                            attr_name_js(s@.subrange(w as int, ne as int)) + lit_colon_quote()
                                + s@.subrange(v + 1, ve as int) + lit_dquote(),
                        ));
                    }
                }
                j = after;
                continue;
            }
            if v < s.len() && s[v] == B_LBRACE {
                let p2 = scan_jsx_expr(s, v + 1);
                let ex = trim_copy(s, v + 1, p2);
                let after = if p2 < s.len() && s[p2] == B_RBRACE {
                    p2 + 1
                } else {
                    p2
                };
                let is_key = js.len() == 3 && js[0] == 107 && js[1] == 101 && js[2] == 121;
                proof {
                    if is_key {
                        assert(js@ =~= lit_key_word());
                    } else {
                        assert(js@ != lit_key_word());
                    }
                }
                if is_key {
                    key = Some(ex);
                } else {
                    let mut prop: Vec<u8> = js;
                    put_colon_space(&mut prop);
                    push_range(&mut prop, ex.as_slice(), 0, ex.len());
                    props.push(prop);
                    proof {
                        assert(props@.map_values(|v2: Vec<u8>| v2@) =~~= pprops.push(
                            attr_name_js(s@.subrange(w as int, ne as int)) + lit_colon_space()
                                + trim_range(s@, v + 1, p2 as int),
                        ));
                    }
                }
                j = after;
                continue;
            }
            j = v;
            continue;
        }
        let mut prop: Vec<u8> = js;
        put_colon_true(&mut prop);
        props.push(prop);
        proof {
            assert(props@.map_values(|v2: Vec<u8>| v2@) =~~= pprops.push(
                attr_name_js(s@.subrange(w as int, ne as int)) + lit_colon_true(),
            ));
        }
        j = q;
    }
}

/// The call expression emitted for one element.  Automatic runtime:
/// `_jsx` for zero or one child, `_jsxs` for more, children folded into
/// the props object, the key as a third argument.  Classic runtime:
/// always `React.createElement(tag, propsOrNull, ...children)`.
pub open spec fn gen_call(
    tag: Seq<u8>,
    props: Seq<Seq<u8>>,
    key: Option<Seq<u8>>,
    children: Seq<Seq<u8>>,
    auto: bool,
) -> Seq<u8> {
    if auto {
        let func = if children.len() > 1 {
            lit_jsxs_name()
        } else {
            lit_jsx_name()
        };
        let all_props = if children.len() == 0 {
            props
        } else if children.len() == 1 {
            props.push(lit_children_field() + children[0])
        } else {
            props.push(
                lit_children_arr_open() + join_parts(children, lit_comma_space()) + lit_rbrack(),
            )
        };
        let props_obj = if all_props.len() == 0 {
            lit_empty_obj()
        } else {
            lit_obj_open() + join_parts(all_props, lit_comma_space()) + lit_obj_close()
        };
        match key {
            Some(k) => func + lit_lparen() + tag + lit_comma_space() + props_obj
                + lit_comma_space() + k + lit_rparen(),
            None => func + lit_lparen() + tag + lit_comma_space() + props_obj + lit_rparen(),
        }
    } else {
        let props_obj = if props.len() == 0 {
            lit_null_word()
        } else {
            lit_obj_open() + join_parts(props, lit_comma_space()) + lit_obj_close()
        };
        lit_react_create() + join_parts(seq![tag, props_obj] + children, lit_comma_space())
            + lit_rparen()
    }
}

/// Builds the call expression for one element.
#[verifier::rlimit(100)]
pub fn gen_call_exec(
    tag: &Vec<u8>,
    props: Vec<Vec<u8>>,
    key: &Option<Vec<u8>>,
    children: &Vec<Vec<u8>>,
    auto: bool,
) -> (out: Vec<u8>)
    ensures
        out@ == gen_call(
            tag@,
            props@.map_values(|v: Vec<u8>| v@),
            key_view(*key),
            children@.map_values(|v: Vec<u8>| v@),
            auto,
        ),
{
    let ghost props0 = props@.map_values(|v: Vec<u8>| v@);
    let ghost ch0 = children@.map_values(|v: Vec<u8>| v@);
    let mut out: Vec<u8> = Vec::new();
    if auto {
        let mut all = props;
        if children.len() == 1 {
            let mut c: Vec<u8> = Vec::new();
            put_children_field(&mut c);
            let ch = &children[0];
            push_range(&mut c, ch.as_slice(), 0, ch.len());
            proof {
                assert(c@ =~= lit_children_field() + ch0[0]);
            }
            all.push(c);
            proof {
                assert(all@.map_values(|v: Vec<u8>| v@) =~~= props0.push(
                    lit_children_field() + ch0[0],
                ));
            }
        } else if children.len() > 1 {
            let mut c: Vec<u8> = Vec::new();
            put_children_arr_open(&mut c);
            join_comma(children, &mut c);
            put_rbrack(&mut c);
            proof {
                assert(c@ =~= lit_children_arr_open() + join_parts(ch0, lit_comma_space())
                    + lit_rbrack());
            }
            all.push(c);
            proof {
                assert(all@.map_values(|v: Vec<u8>| v@) =~~= props0.push(
                    lit_children_arr_open() + join_parts(ch0, lit_comma_space()) + lit_rbrack(),
                ));
            }
        }
        if children.len() > 1 {
            put_jsxs_name(&mut out);
        } else {
            put_jsx_name(&mut out);
        }
        put_lparen(&mut out);
        push_range(&mut out, tag.as_slice(), 0, tag.len());
        put_comma_space(&mut out);
        if all.len() == 0 {
            put_empty_obj(&mut out);
        } else {
            put_obj_open(&mut out);
            join_comma(&all, &mut out);
            put_obj_close(&mut out);
        }
        match key {
            Some(k) => {
                put_comma_space(&mut out);
                push_range(&mut out, k.as_slice(), 0, k.len());
                put_rparen(&mut out);
            },
            None => {
                put_rparen(&mut out);
            },
        }
        proof {
            assert(out@ =~= gen_call(tag@, props0, key_view(*key), ch0, auto));
        }
        out
    } else {
        let mut obj: Vec<u8> = Vec::new();
        if props.len() == 0 {
            put_null_word(&mut obj);
        } else {
            put_obj_open(&mut obj);
            join_comma(&props, &mut obj);
            put_obj_close(&mut obj);
        }
        let ghost objv = if props0.len() == 0 {
            lit_null_word()
        } else {
            lit_obj_open() + join_parts(props0, lit_comma_space()) + lit_obj_close()
        };
        proof {
            assert(obj@ =~= objv);
        }
        let mut args: Vec<Vec<u8>> = Vec::new();
        args.push(vstd::slice::slice_to_vec(tag.as_slice()));
        args.push(obj);
        proof {
            assert(args@.map_values(|v: Vec<u8>| v@) =~~= seq![tag@, objv] + ch0.subrange(0, 0));
        }
        let mut k: usize = 0;
        while k < children.len()
            invariant
                k <= children@.len(),
                ch0 == children@.map_values(|v: Vec<u8>| v@),
                args@.map_values(|v: Vec<u8>| v@) == seq![tag@, objv] + ch0.subrange(0, k as int),
            decreases children@.len() - k,
        {
            let ghost amap = args@.map_values(|v: Vec<u8>| v@);
            args.push(vstd::slice::slice_to_vec(children[k].as_slice()));
            proof {
                assert(children@[k as int]@ == ch0[k as int]);
                assert(args@.map_values(|v: Vec<u8>| v@) =~~= amap.push(ch0[k as int]));
                assert(amap.push(ch0[k as int]) =~~= seq![tag@, objv] + ch0.subrange(0, k + 1));
            }
            k = k + 1;
        }
        proof {
            assert(ch0.subrange(0, ch0.len() as int) =~= ch0);
        }
        put_react_create(&mut out);
        join_comma(&args, &mut out);
        put_rparen(&mut out);
        proof {
            assert(ch0.subrange(0, ch0.len() as int) =~= ch0);
            assert(out@ =~= gen_call(tag@, props0, key_view(*key), ch0, auto));
        }
        out
    }
}

/// Parses one JSX construct beginning at the `<` at `i` and the children
/// inside it, producing the generated call text and the position after the
/// construct; a position equal to `i` means nothing was recognized.
/// Fragments `<>...</>` use the Fragment reference of the chosen runtime;
/// an uppercase-led tag is a component reference, any other tag a quoted
/// host-element name.
pub open spec fn jsx_elem(s: Seq<u8>, i: int, auto: bool) -> (Seq<u8>, int)
    decreases s.len() - i, 0int,
{
    if i < 0 || i + 2 > s.len() || s[i] != B_LT {
        (Seq::empty(), i)
    } else if s[i + 1] == B_GT {
        let r = jsx_children(s, i + 2, auto, Seq::empty(), Seq::empty());
        let ch = r.0;
        let e = r.1;
        let e2 = if e + 2 < s.len() && e >= 0 && s[e] == B_LT && s[e + 1] == B_SLASH && s[e + 2]
            == B_GT {
            e + 3
        } else {
            e
        };
        let gen = if auto {
            if ch.len() == 0 {
                lit_frag_auto_empty()
            } else {
                lit_frag_auto_open() + join_parts(ch, lit_comma_space()) + lit_frag_auto_close()
            }
        } else {
            if ch.len() == 0 {
                lit_react_frag_null() + lit_rparen()
            } else {
                lit_react_frag_null() + lit_comma_space() + join_parts(ch, lit_comma_space())
                    + lit_rparen()
            }
        };
        (gen, e2)
    } else {
        let tr = tag_run(s, i + 1);
        if tr == 0 {
            (Seq::empty(), i)
        } else {
            proof {
                lemma_tag_run_bound(s, i + 1);
                lemma_jsx_attrs_bounds(s, i + 1 + tr, Seq::empty(), None);
            }
            let tag = s.subrange(i + 1, i + 1 + tr);
            let tag_ref = if spec_is_upper(tag[0]) {
                tag
            } else {
                lit_dquote() + tag + lit_dquote()
            };
            let at = jsx_attrs(s, i + 1 + tr, Seq::empty(), None);
            if at.self_close {
                (gen_call(tag_ref, at.props, at.key, Seq::empty(), auto), at.end)
            } else {
                let r = jsx_children(s, at.end, auto, Seq::empty(), Seq::empty());
                let ch = r.0;
                let e = r.1;
                let e2 = if e + 2 < s.len() && e >= 0 && s[e] == B_LT && s[e + 1] == B_SLASH {
                    let g = e + 2 + until_rest(s, B_GT, e + 2);
                    if g < s.len() {
                        g + 1
                    } else {
                        g
                    }
                } else {
                    e
                };
                (gen_call(tag_ref, at.props, at.key, ch, auto), e2)
            }
        }
    }
}

/// Parses children from `i` until a closing tag or end of input: text runs
/// accumulate in `buf` and flush as quoted escaped nodes (whitespace-only
/// runs are dropped), `<` opens a recursively parsed child element (or
/// joins the text when nothing is recognized), and `{` captures a
/// brace-balanced expression child.
pub open spec fn jsx_children(
    s: Seq<u8>,
    i: int,
    auto: bool,
    buf: Seq<u8>,
    acc: Seq<Seq<u8>>,
) -> (Seq<Seq<u8>>, int)
    decreases s.len() - i, 1int,
{
    if i < 0 || i >= s.len() {
        (flush_text(acc, buf), i)
    } else if i + 1 < s.len() && s[i] == B_LT && s[i + 1] == B_SLASH {
        (flush_text(acc, buf), i)
    } else if s[i] == B_LT {
        let acc2 = flush_text(acc, buf);
        let r = jsx_elem(s, i, auto);
        let e = if r.1 > s.len() {
            s.len() as int
        } else {
            r.1
        };
        if e > i {
            jsx_children(s, e, auto, Seq::empty(), acc2.push(r.0))
        } else {
            jsx_children(s, i + 1, auto, seq![B_LT], acc2)
        }
    } else if s[i] == B_LBRACE {
        let acc2 = flush_text(acc, buf);
        proof {
            lemma_jsx_expr_len_bound(s, i + 1, 0);
        }
        let el = jsx_expr_len(s, i + 1, 0);
        let ex = trim_range(s, i + 1, i + 1 + el);
        let p2 = i + 1 + el;
        let e2 = if p2 < s.len() && s[p2] == B_RBRACE {
            p2 + 1
        } else {
            p2
        };
        jsx_children(s, e2, auto, Seq::empty(), acc2.push(ex))
    } else {
        jsx_children(s, i + 1, auto, buf.push(s[i]), acc)
    }
}

pub proof fn lemma_elem_bounds(s: Seq<u8>, i: int, auto: bool)
    requires
        0 <= i <= s.len(),
    ensures
        i <= jsx_elem(s, i, auto).1 <= s.len(),
    decreases s.len() - i, 0int,
{
    if i + 2 > s.len() || s[i] != B_LT {
    } else if s[i + 1] == B_GT {
        lemma_children_bounds(s, i + 2, auto, Seq::empty(), Seq::empty());
    } else {
        let tr = tag_run(s, i + 1);
        if tr != 0 {
            lemma_tag_run_bound(s, i + 1);
            lemma_jsx_attrs_bounds(s, i + 1 + tr, Seq::empty(), None);
            let at = jsx_attrs(s, i + 1 + tr, Seq::empty(), None);
            if !at.self_close {
                lemma_children_bounds(s, at.end, auto, Seq::empty(), Seq::empty());
                let r = jsx_children(s, at.end, auto, Seq::empty(), Seq::empty());
                let e = r.1;
                if e + 2 < s.len() && e >= 0 && s[e] == B_LT && s[e + 1] == B_SLASH {
                    lemma_until_rest_bound(s, B_GT, e + 2);
                }
            }
        }
    }
}

pub proof fn lemma_children_bounds(
    s: Seq<u8>,
    i: int,
    auto: bool,
    buf: Seq<u8>,
    acc: Seq<Seq<u8>>,
)
    requires
        0 <= i <= s.len(),
    ensures
        i <= jsx_children(s, i, auto, buf, acc).1 <= s.len(),
    decreases s.len() - i, 1int,
{
    if i >= s.len() {
    } else if i + 1 < s.len() && s[i] == B_LT && s[i + 1] == B_SLASH {
    } else if s[i] == B_LT {
        let acc2 = flush_text(acc, buf);
        lemma_elem_bounds(s, i, auto);
        let r = jsx_elem(s, i, auto);
        let e = if r.1 > s.len() {
            s.len() as int
        } else {
            r.1
        };
        if e > i {
            lemma_children_bounds(s, e, auto, Seq::empty(), acc2.push(r.0));
        } else {
            lemma_children_bounds(s, i + 1, auto, seq![B_LT], acc2);
        }
    } else if s[i] == B_LBRACE {
        let acc2 = flush_text(acc, buf);
        lemma_jsx_expr_len_bound(s, i + 1, 0);
        let el = jsx_expr_len(s, i + 1, 0);
        let ex = trim_range(s, i + 1, i + 1 + el);
        let p2 = i + 1 + el;
        let e2 = if p2 < s.len() && s[p2] == B_RBRACE {
            p2 + 1
        } else {
            p2
        };
        lemma_children_bounds(s, e2, auto, Seq::empty(), acc2.push(ex));
    } else {
        lemma_children_bounds(s, i + 1, auto, buf.push(s[i]), acc);
    }
}

/// Flushes a text buffer into the children being gathered.
fn flush_exec(acc: &mut Vec<Vec<u8>>, buf: &Vec<u8>)
    ensures
        final(acc)@.map_values(|v: Vec<u8>| v@) == flush_text(
            old(acc)@.map_values(|v: Vec<u8>| v@),
            buf@,
        ),
{
    let tr = trim_copy(buf.as_slice(), 0, buf.len());
    if tr.len() > 0 {
        let tc = make_text_child(buf);
        let ghost pre = acc@.map_values(|v: Vec<u8>| v@);
        acc.push(tc);
        proof {
            assert(acc@.map_values(|v: Vec<u8>| v@) =~~= pre.push(text_child(buf@)));
        }
    }
}

/// Parses one JSX construct at `i` and returns the generated call text and
/// the position after it (equal to `i` when nothing was recognized).
#[verifier::rlimit(100)]
pub fn jsx_elem_exec(s: &[u8], i: usize, auto: bool) -> (r: (Vec<u8>, usize))
    requires
        i <= s@.len(),
    ensures
        r.0@ == jsx_elem(s@, i as int, auto).0,
        r.1 == jsx_elem(s@, i as int, auto).1,
        i <= r.1 <= s@.len(),
    decreases s@.len() - i, 0int,
{
    proof {
        lemma_elem_bounds(s@, i as int, auto);
    }
    if s.len() - i < 2 || s[i] != B_LT {
        let out: Vec<u8> = Vec::new();
        proof {
            assert(out@ =~= jsx_elem(s@, i as int, auto).0);
        }
        return (out, i);
    }
    if s[i + 1] == B_GT {
        let (ch, e) = jsx_children_exec(s, i + 2, auto);
        let e2 = if s.len() - e > 2 && s[e] == B_LT && s[e + 1] == B_SLASH && s[e + 2] == B_GT {
            e + 3
        } else {
            e
        };
        let mut out: Vec<u8> = Vec::new();
        if auto {
            if ch.len() == 0 {
                put_frag_auto_empty(&mut out);
            } else {
                put_frag_auto_open(&mut out);
                join_comma(&ch, &mut out);
                put_frag_auto_close(&mut out);
            }
        } else {
            put_react_frag_null(&mut out);
            if ch.len() > 0 {
                put_comma_space(&mut out);
                join_comma(&ch, &mut out);
            }
            put_rparen(&mut out);
        }
        proof {
            assert(out@ =~= jsx_elem(s@, i as int, auto).0);
        }
        return (out, e2);
    }
    let te = scan_tag(s, i + 1);
    if te == i + 1 {
        let out: Vec<u8> = Vec::new();
        proof {
            assert(out@ =~= jsx_elem(s@, i as int, auto).0);
        }
        return (out, i);
    }
    let comp = is_upper(s[i + 1]);
    let tag_ref: Vec<u8> = if comp {
        vstd::slice::slice_to_vec(&s[i + 1..te])
    } else {
        let mut t: Vec<u8> = Vec::new();
        put_dquote(&mut t);
        push_range(&mut t, s, i + 1, te);
        put_dquote(&mut t);
        t
    };
    let ghost spec_tag = s@.subrange(i + 1, te as int);
    let ghost spec_tag_ref = if spec_is_upper(spec_tag[0]) {
        spec_tag
    } else {
        lit_dquote() + spec_tag + lit_dquote()
    };
    proof {
        assert(tag_ref@ =~= spec_tag_ref);
    }
    let (props, key, aend, selfclose) = jsx_attrs_exec(s, te);
    if selfclose {
        let empty_ch: Vec<Vec<u8>> = Vec::new();
        let out = gen_call_exec(&tag_ref, props, &key, &empty_ch, auto);
        proof {
            assert(empty_ch@.map_values(|v: Vec<u8>| v@) =~= Seq::<Seq<u8>>::empty());
            assert(out@ == jsx_elem(s@, i as int, auto).0);
        }
        return (out, aend);
    }
    let (ch, e) = jsx_children_exec(s, aend, auto);
    let e2 = if s.len() - e > 2 && s[e] == B_LT && s[e + 1] == B_SLASH {
        let g = scan_until(s, B_GT, e + 2);
        if g < s.len() {
            g + 1
        } else {
            g
        }
    } else {
        e
    };
    let out = gen_call_exec(&tag_ref, props, &key, &ch, auto);
    proof {
        assert(out@ == jsx_elem(s@, i as int, auto).0);
    }
    (out, e2)
}

/// Parses children from `i`, returning the child texts and the position of
/// the closing tag (or end of input).
#[verifier::rlimit(100)]
pub fn jsx_children_exec(s: &[u8], i: usize, auto: bool) -> (r: (Vec<Vec<u8>>, usize))
    requires
        i <= s@.len(),
    ensures
        r.0@.map_values(|v: Vec<u8>| v@) == jsx_children(
            s@,
            i as int,
            auto,
            Seq::empty(),
            Seq::empty(),
        ).0,
        r.1 == jsx_children(s@, i as int, auto, Seq::empty(), Seq::empty()).1,
        i <= r.1 <= s@.len(),
    decreases s@.len() - i, 1int,
{
    proof {
        lemma_children_bounds(s@, i as int, auto, Seq::empty(), Seq::empty());
    }
    let mut acc: Vec<Vec<u8>> = Vec::new();
    let mut buf: Vec<u8> = Vec::new();
    let mut j = i;
    proof {
        assert(acc@.map_values(|v: Vec<u8>| v@) =~= Seq::<Seq<u8>>::empty());
        assert(buf@ =~= Seq::<u8>::empty());
    }
    loop
        invariant
            i <= j <= s@.len(),
            jsx_children(s@, i as int, auto, Seq::empty(), Seq::empty()) == jsx_children(
                s@,
                j as int,
                auto,
                buf@,
                acc@.map_values(|v: Vec<u8>| v@),
            ),
        decreases s@.len() - j,
    {
        let ghost amap = acc@.map_values(|v: Vec<u8>| v@);
        if j >= s.len() {
            flush_exec(&mut acc, &buf);
            return (acc, j);
        }
        if s.len() - j > 1 && s[j] == B_LT && s[j + 1] == B_SLASH {
            flush_exec(&mut acc, &buf);
            return (acc, j);
        }
        let b = s[j];
        if b == B_LT {
            flush_exec(&mut acc, &buf);
            buf = Vec::new();
            let ghost amap2 = acc@.map_values(|v: Vec<u8>| v@);
            let (child, e) = jsx_elem_exec(s, j, auto);
            if e > j {
                let ghost cv = child@;
                acc.push(child);
                proof {
                    assert(acc@.map_values(|v: Vec<u8>| v@) =~~= amap2.push(cv));
                }
                j = e;
            } else {
                buf.push(B_LT);
                proof {
                    assert(buf@ =~= seq![B_LT]);
                }
                j = j + 1;
            }
            continue;
        }
        if b == B_LBRACE {
            flush_exec(&mut acc, &buf);
            buf = Vec::new();
            let ghost amap2 = acc@.map_values(|v: Vec<u8>| v@);
            let p2 = scan_jsx_expr(s, j + 1);
            let ex = trim_copy(s, j + 1, p2);
            let e2 = if p2 < s.len() && s[p2] == B_RBRACE {
                p2 + 1
            } else {
                p2
            };
            let ghost xv = ex@;
            acc.push(ex);
            proof {
                assert(acc@.map_values(|v: Vec<u8>| v@) =~~= amap2.push(xv));
            }
            j = e2;
            continue;
        }
        buf.push(b);
        j = j + 1;
    }
}

/// The rewritten text from `i` on, and whether any JSX was rewritten.
/// String literals and comments pass through verbatim; a `<` followed by a
/// letter or `>` dispatches to the element parser, and passes through
/// unchanged when that parser recognizes nothing.
pub open spec fn tj_from(s: Seq<u8>, i: int, auto: bool) -> (Seq<u8>, bool)
    decreases s.len() - i,
{
    if i < 0 || i >= s.len() {
        (Seq::empty(), false)
    } else if spec_is_quote(s[i]) {
        proof {
            lemma_str_lit_len_bound(s, s[i], i + 1);
        }
        let e = i + 1 + str_lit_len(s, s[i], i + 1);
        let r = tj_from(s, e, auto);
        (s.subrange(i, e) + r.0, r.1)
    } else if s[i] == B_SLASH && i + 1 < s.len() && s[i + 1] == B_SLASH {
        proof {
            lemma_line_rest_bound(s, i);
            assert(line_rest(s, i) >= 1);
        }
        let e = i + line_rest(s, i);
        let r = tj_from(s, e, auto);
        (s.subrange(i, e) + r.0, r.1)
    } else if s[i] == B_SLASH && i + 1 < s.len() && s[i + 1] == B_STAR {
        match block_close_off(s, i + 2) {
            Some(o) => {
                proof {
                    lemma_block_close_bound(s, i + 2);
                }
                let e = i + 4 + o;
                let r = tj_from(s, e, auto);
                (s.subrange(i, e) + r.0, r.1)
            },
            None => {
                if i + 2 >= s.len() {
                    let r = tj_from(s, s.len() as int, auto);
                    (s.subrange(i, s.len() as int) + r.0, r.1)
                } else {
                    let r = tj_from(s, s.len() - 1, auto);
                    (s.subrange(i, s.len() - 1) + r.0, r.1)
                }
            },
        }
    } else if s[i] == B_LT && i + 1 < s.len() && (spec_is_alpha(s[i + 1]) || s[i + 1] == B_GT) {
        proof {
            lemma_elem_bounds(s, i, auto);
        }
        let el = jsx_elem(s, i, auto);
        if el.1 > i {
            let r = tj_from(s, el.1, auto);
            (el.0 + r.0, true)
        } else {
            let r = tj_from(s, i + 1, auto);
            (seq![s[i]] + r.0, r.1)
        }
    } else {
        let r = tj_from(s, i + 1, auto);
        (seq![s[i]] + r.0, r.1)
    }
}

/// Performs one step of the rewriting pass at `i`: consumes at least one
/// byte, appends what that stretch becomes, and records whether JSX fired.
#[verifier::rlimit(100)]
fn jsx_pass_step(s: &[u8], i: usize, auto: bool, out: &mut Vec<u8>, had: &mut bool) -> (ni: usize)
    requires
        i < s@.len(),
    ensures
        i < ni <= s@.len(),
        old(out)@ + tj_from(s@, i as int, auto).0 == final(out)@ + tj_from(s@, ni as int, auto).0,
        (*old(had) || tj_from(s@, i as int, auto).1) == (*final(had) || tj_from(
            s@,
            ni as int,
            auto,
        ).1),
{
    let ghost o0 = out@;
    let b = s[i];
    if is_quote(b) {
        let (e, _c) = scan_str_lit(s, b, i + 1);
        push_range(out, s, i, e);
        proof {
            assert(o0 + (s@.subrange(i as int, e as int) + tj_from(s@, e as int, auto).0) =~= (o0
                + s@.subrange(i as int, e as int)) + tj_from(s@, e as int, auto).0);
        }
        return e;
    }
    if b == B_SLASH && i + 1 < s.len() && s[i + 1] == B_SLASH {
        let e = scan_line(s, i);
        push_range(out, s, i, e);
        proof {
            assert(o0 + (s@.subrange(i as int, e as int) + tj_from(s@, e as int, auto).0) =~= (o0
                + s@.subrange(i as int, e as int)) + tj_from(s@, e as int, auto).0);
        }
        return e;
    }
    if b == B_SLASH && i + 1 < s.len() && s[i + 1] == B_STAR {
        match scan_block_close(s, i + 2) {
            Some(k) => {
                push_range(out, s, i, k + 2);
                proof {
                    assert(o0 + (s@.subrange(i as int, k + 2) + tj_from(s@, k + 2, auto).0) =~= (o0
                        + s@.subrange(i as int, k + 2)) + tj_from(s@, k + 2, auto).0);
                }
                return k + 2;
            },
            None => {
                if i + 2 >= s.len() {
                    push_range(out, s, i, s.len());
                    proof {
                        assert(o0 + (s@.subrange(i as int, s@.len() as int) + tj_from(
                            s@,
                            s@.len() as int,
                            auto,
                        ).0) =~= (o0 + s@.subrange(i as int, s@.len() as int)) + tj_from(
                            s@,
                            s@.len() as int,
                            auto,
                        ).0);
                    }
                    return s.len();
                } else {
                    let e = s.len() - 1;
                    push_range(out, s, i, e);
                    proof {
                        assert(o0 + (s@.subrange(i as int, e as int) + tj_from(
                            s@,
                            e as int,
                            auto,
                        ).0) =~= (o0 + s@.subrange(i as int, e as int)) + tj_from(
                            s@,
                            e as int,
                            auto,
                        ).0);
                    }
                    return e;
                }
            },
        }
    }
    if b == B_LT && i + 1 < s.len() && (is_alpha(s[i + 1]) || s[i + 1] == B_GT) {
        let (gen, e) = jsx_elem_exec(s, i, auto);
        if e > i {
            *had = true;
            push_range(out, gen.as_slice(), 0, gen.len());
            proof {
                assert(gen@.subrange(0, gen@.len() as int) =~= gen@);
                assert(o0 + (gen@ + tj_from(s@, e as int, auto).0) =~= (o0 + gen@) + tj_from(
                    s@,
                    e as int,
                    auto,
                ).0);
            }
            return e;
        }
    }
    out.push(b);
    proof {
        assert(o0.push(b) =~= o0 + seq![b]);
        assert(o0 + (seq![b] + tj_from(s@, i + 1, auto).0) =~= (o0 + seq![b]) + tj_from(
            s@,
            i + 1,
            auto,
        ).0);
    }
    i + 1
}

/// Rewrites every recognized JSX construct in the source into call
/// expressions for the chosen runtime (`auto` selects the automatic one).
/// Returns the rewritten text and whether anything was rewritten.
pub fn jsx_pass(s: &[u8], auto: bool) -> (r: (Vec<u8>, bool))
    ensures
        r.0@ == tj_from(s@, 0, auto).0,
        r.1 == tj_from(s@, 0, auto).1,
{
    let mut out: Vec<u8> = Vec::new();
    let mut had = false;
    let mut i: usize = 0;
    loop
        invariant
            i <= s@.len(),
            tj_from(s@, 0, auto).0 == out@ + tj_from(s@, i as int, auto).0,
            tj_from(s@, 0, auto).1 == (had || tj_from(s@, i as int, auto).1),
        decreases s@.len() - i,
    {
        if i >= s.len() {
            proof {
                assert(out@ + tj_from(s@, i as int, auto).0 =~= out@);
            }
            return (out, had);
        }
        i = jsx_pass_step(s, i, auto, &mut out, &mut had);
    }
}

} // verus!
