//! Output construction for the JSX rewriter: the literal text atoms of
//! generated calls, the attribute-name translation table, list joining,
//! trimming, and child-text escaping — each with its specification.

use vstd::prelude::*;
use crate::scan::push_range;
use crate::{B_TAB, B_NL, B_VT, B_FF, B_CR, B_SPACE, B_BACKSLASH, B_DQUOTE};

verus! {

/// The text `_jsx`.
pub open spec fn lit_jsx_name() -> Seq<u8> {
    seq![95u8, 106u8, 115u8, 120u8]
}

/// Appends that text to `out`.
pub fn put_jsx_name(out: &mut Vec<u8>)
    ensures
        final(out)@ == old(out)@ + lit_jsx_name(),
{
    out.push(95);
    out.push(106);
    out.push(115);
    out.push(120);
    proof {
        assert(old(out)@.push(95).push(106).push(115).push(120) =~= old(out)@ + lit_jsx_name());
    }
}

/// The text `_jsxs`.
pub open spec fn lit_jsxs_name() -> Seq<u8> {
    seq![95u8, 106u8, 115u8, 120u8, 115u8]
}

/// Appends that text to `out`.
pub fn put_jsxs_name(out: &mut Vec<u8>)
    ensures
        final(out)@ == old(out)@ + lit_jsxs_name(),
{
    out.push(95);
    out.push(106);
    out.push(115);
    out.push(120);
    out.push(115);
    proof {
        assert(old(out)@.push(95).push(106).push(115).push(120).push(115) =~= old(out)@ + lit_jsxs_name());
    }
}

/// The text `_jsx(_Fragment, {})`.
pub open spec fn lit_frag_auto_empty() -> Seq<u8> {
    seq![95u8, 106u8, 115u8, 120u8, 40u8, 95u8, 70u8, 114u8, 97u8, 103u8, 109u8, 101u8, 110u8, 116u8, 44u8, 32u8, 123u8, 125u8, 41u8]
}

/// Appends that text to `out`.
pub fn put_frag_auto_empty(out: &mut Vec<u8>)
    ensures
        final(out)@ == old(out)@ + lit_frag_auto_empty(),
{
    out.push(95);
    out.push(106);
    out.push(115);
    out.push(120);
    out.push(40);
    out.push(95);
    out.push(70);
    out.push(114);
    out.push(97);
    out.push(103);
    out.push(109);
    out.push(101);
    out.push(110);
    out.push(116);
    out.push(44);
    out.push(32);
    out.push(123);
    out.push(125);
    out.push(41);
    proof {
        assert(old(out)@.push(95).push(106).push(115).push(120).push(40).push(95).push(70).push(114).push(97).push(103).push(109).push(101).push(110).push(116).push(44).push(32).push(123).push(125).push(41) =~= old(out)@ + lit_frag_auto_empty());
    }
}

/// The text `_jsxs(_Fragment, { children: [`.
pub open spec fn lit_frag_auto_open() -> Seq<u8> {
    seq![95u8, 106u8, 115u8, 120u8, 115u8, 40u8, 95u8, 70u8, 114u8, 97u8, 103u8, 109u8, 101u8, 110u8, 116u8, 44u8, 32u8, 123u8, 32u8, 99u8, 104u8, 105u8, 108u8, 100u8, 114u8, 101u8, 110u8, 58u8, 32u8, 91u8]
}

/// Appends that text to `out`.
pub fn put_frag_auto_open(out: &mut Vec<u8>)
    ensures
        final(out)@ == old(out)@ + lit_frag_auto_open(),
{
    out.push(95);
    out.push(106);
    out.push(115);
    out.push(120);
    out.push(115);
    out.push(40);
    out.push(95);
    out.push(70);
    out.push(114);
    out.push(97);
    out.push(103);
    out.push(109);
    out.push(101);
    out.push(110);
    out.push(116);
    out.push(44);
    out.push(32);
    out.push(123);
    out.push(32);
    out.push(99);
    out.push(104);
    out.push(105);
    out.push(108);
    out.push(100);
    out.push(114);
    out.push(101);
    out.push(110);
    out.push(58);
    out.push(32);
    out.push(91);
    proof {
        assert(old(out)@.push(95).push(106).push(115).push(120).push(115).push(40).push(95).push(70).push(114).push(97).push(103).push(109).push(101).push(110).push(116).push(44).push(32).push(123).push(32).push(99).push(104).push(105).push(108).push(100).push(114).push(101).push(110).push(58).push(32).push(91) =~= old(out)@ + lit_frag_auto_open());
    }
}

/// The text `] })`.
pub open spec fn lit_frag_auto_close() -> Seq<u8> {
    seq![93u8, 32u8, 125u8, 41u8]
}

/// Appends that text to `out`.
pub fn put_frag_auto_close(out: &mut Vec<u8>)
    ensures
        final(out)@ == old(out)@ + lit_frag_auto_close(),
{
    out.push(93);
    out.push(32);
    out.push(125);
    out.push(41);
    proof {
        assert(old(out)@.push(93).push(32).push(125).push(41) =~= old(out)@ + lit_frag_auto_close());
    }
}

/// The text `React.createElement(`.
pub open spec fn lit_react_create() -> Seq<u8> {
    seq![82u8, 101u8, 97u8, 99u8, 116u8, 46u8, 99u8, 114u8, 101u8, 97u8, 116u8, 101u8, 69u8, 108u8, 101u8, 109u8, 101u8, 110u8, 116u8, 40u8]
}

/// Appends that text to `out`.
pub fn put_react_create(out: &mut Vec<u8>)
    ensures
        final(out)@ == old(out)@ + lit_react_create(),
{
    out.push(82);
    out.push(101);
    out.push(97);
    out.push(99);
    out.push(116);
    out.push(46);
    out.push(99);
    out.push(114);
    out.push(101);
    out.push(97);
    out.push(116);
    out.push(101);
    out.push(69);
    out.push(108);
    out.push(101);
    out.push(109);
    out.push(101);
    out.push(110);
    out.push(116);
    out.push(40);
    proof {
        assert(old(out)@.push(82).push(101).push(97).push(99).push(116).push(46).push(99).push(114).push(101).push(97).push(116).push(101).push(69).push(108).push(101).push(109).push(101).push(110).push(116).push(40) =~= old(out)@ + lit_react_create());
    }
}

/// The text `React.createElement(React.Fragment, null`.
pub open spec fn lit_react_frag_null() -> Seq<u8> {
    seq![82u8, 101u8, 97u8, 99u8, 116u8, 46u8, 99u8, 114u8, 101u8, 97u8, 116u8, 101u8, 69u8, 108u8, 101u8, 109u8, 101u8, 110u8, 116u8, 40u8, 82u8, 101u8, 97u8, 99u8, 116u8, 46u8, 70u8, 114u8, 97u8, 103u8, 109u8, 101u8, 110u8, 116u8, 44u8, 32u8, 110u8, 117u8, 108u8, 108u8]
}

/// Appends that text to `out`.
pub fn put_react_frag_null(out: &mut Vec<u8>)
    ensures
        final(out)@ == old(out)@ + lit_react_frag_null(),
{
    out.push(82);
    out.push(101);
    out.push(97);
    out.push(99);
    out.push(116);
    out.push(46);
    out.push(99);
    out.push(114);
    out.push(101);
    out.push(97);
    out.push(116);
    out.push(101);
    out.push(69);
    out.push(108);
    out.push(101);
    out.push(109);
    out.push(101);
    out.push(110);
    out.push(116);
    out.push(40);
    out.push(82);
    out.push(101);
    out.push(97);
    out.push(99);
    out.push(116);
    out.push(46);
    out.push(70);
    out.push(114);
    out.push(97);
    out.push(103);
    out.push(109);
    out.push(101);
    out.push(110);
    out.push(116);
    out.push(44);
    out.push(32);
    out.push(110);
    out.push(117);
    out.push(108);
    out.push(108);
    proof {
        assert(old(out)@.push(82).push(101).push(97).push(99).push(116).push(46).push(99).push(114).push(101).push(97).push(116).push(101).push(69).push(108).push(101).push(109).push(101).push(110).push(116).push(40).push(82).push(101).push(97).push(99).push(116).push(46).push(70).push(114).push(97).push(103).push(109).push(101).push(110).push(116).push(44).push(32).push(110).push(117).push(108).push(108) =~= old(out)@ + lit_react_frag_null());
    }
}

/// The text `, `.
pub open spec fn lit_comma_space() -> Seq<u8> {
    seq![44u8, 32u8]
}

/// Appends that text to `out`.
pub fn put_comma_space(out: &mut Vec<u8>)
    ensures
        final(out)@ == old(out)@ + lit_comma_space(),
{
    out.push(44);
    out.push(32);
    proof {
        assert(old(out)@.push(44).push(32) =~= old(out)@ + lit_comma_space());
    }
}

/// The text `(`.
pub open spec fn lit_lparen() -> Seq<u8> {
    seq![40u8]
}

/// Appends that text to `out`.
pub fn put_lparen(out: &mut Vec<u8>)
    ensures
        final(out)@ == old(out)@ + lit_lparen(),
{
    out.push(40);
    proof {
        assert(old(out)@.push(40) =~= old(out)@ + lit_lparen());
    }
}

/// The text `)`.
pub open spec fn lit_rparen() -> Seq<u8> {
    seq![41u8]
}

/// Appends that text to `out`.
pub fn put_rparen(out: &mut Vec<u8>)
    ensures
        final(out)@ == old(out)@ + lit_rparen(),
{
    out.push(41);
    proof {
        assert(old(out)@.push(41) =~= old(out)@ + lit_rparen());
    }
}

/// The text `{}`.
pub open spec fn lit_empty_obj() -> Seq<u8> {
    seq![123u8, 125u8]
}

/// Appends that text to `out`.
pub fn put_empty_obj(out: &mut Vec<u8>)
    ensures
        final(out)@ == old(out)@ + lit_empty_obj(),
{
    out.push(123);
    out.push(125);
    proof {
        assert(old(out)@.push(123).push(125) =~= old(out)@ + lit_empty_obj());
    }
}

/// The text `{ `.
pub open spec fn lit_obj_open() -> Seq<u8> {
    seq![123u8, 32u8]
}

/// Appends that text to `out`.
pub fn put_obj_open(out: &mut Vec<u8>)
    ensures
        final(out)@ == old(out)@ + lit_obj_open(),
{
    out.push(123);
    out.push(32);
    proof {
        assert(old(out)@.push(123).push(32) =~= old(out)@ + lit_obj_open());
    }
}

/// The text ` }`.
pub open spec fn lit_obj_close() -> Seq<u8> {
    seq![32u8, 125u8]
}

/// Appends that text to `out`.
pub fn put_obj_close(out: &mut Vec<u8>)
    ensures
        final(out)@ == old(out)@ + lit_obj_close(),
{
    out.push(32);
    out.push(125);
    proof {
        assert(old(out)@.push(32).push(125) =~= old(out)@ + lit_obj_close());
    }
}

/// The text `null`.
pub open spec fn lit_null_word() -> Seq<u8> {
    seq![110u8, 117u8, 108u8, 108u8]
}

/// Appends that text to `out`.
pub fn put_null_word(out: &mut Vec<u8>)
    ensures
        final(out)@ == old(out)@ + lit_null_word(),
{
    out.push(110);
    out.push(117);
    out.push(108);
    out.push(108);
    proof {
        assert(old(out)@.push(110).push(117).push(108).push(108) =~= old(out)@ + lit_null_word());
    }
}

/// The text `children: `.
pub open spec fn lit_children_field() -> Seq<u8> {
    seq![99u8, 104u8, 105u8, 108u8, 100u8, 114u8, 101u8, 110u8, 58u8, 32u8]
}

/// Appends that text to `out`.
pub fn put_children_field(out: &mut Vec<u8>)
    ensures
        final(out)@ == old(out)@ + lit_children_field(),
{
    out.push(99);
    out.push(104);
    out.push(105);
    out.push(108);
    out.push(100);
    out.push(114);
    out.push(101);
    out.push(110);
    out.push(58);
    out.push(32);
    proof {
        assert(old(out)@.push(99).push(104).push(105).push(108).push(100).push(114).push(101).push(110).push(58).push(32) =~= old(out)@ + lit_children_field());
    }
}

/// The text `children: [`.
pub open spec fn lit_children_arr_open() -> Seq<u8> {
    seq![99u8, 104u8, 105u8, 108u8, 100u8, 114u8, 101u8, 110u8, 58u8, 32u8, 91u8]
}

/// Appends that text to `out`.
pub fn put_children_arr_open(out: &mut Vec<u8>)
    ensures
        final(out)@ == old(out)@ + lit_children_arr_open(),
{
    out.push(99);
    out.push(104);
    out.push(105);
    out.push(108);
    out.push(100);
    out.push(114);
    out.push(101);
    out.push(110);
    out.push(58);
    out.push(32);
    out.push(91);
    proof {
        assert(old(out)@.push(99).push(104).push(105).push(108).push(100).push(114).push(101).push(110).push(58).push(32).push(91) =~= old(out)@ + lit_children_arr_open());
    }
}

/// The text `]`.
pub open spec fn lit_rbrack() -> Seq<u8> {
    seq![93u8]
}

/// Appends that text to `out`.
pub fn put_rbrack(out: &mut Vec<u8>)
    ensures
        final(out)@ == old(out)@ + lit_rbrack(),
{
    out.push(93);
    proof {
        assert(old(out)@.push(93) =~= old(out)@ + lit_rbrack());
    }
}

/// The text `: `.
pub open spec fn lit_colon_space() -> Seq<u8> {
    seq![58u8, 32u8]
}

/// Appends that text to `out`.
pub fn put_colon_space(out: &mut Vec<u8>)
    ensures
        final(out)@ == old(out)@ + lit_colon_space(),
{
    out.push(58);
    out.push(32);
    proof {
        assert(old(out)@.push(58).push(32) =~= old(out)@ + lit_colon_space());
    }
}

/// The text `\"`.
pub open spec fn lit_dquote() -> Seq<u8> {
    seq![34u8]
}

/// Appends that text to `out`.
pub fn put_dquote(out: &mut Vec<u8>)
    ensures
        final(out)@ == old(out)@ + lit_dquote(),
{
    out.push(34);
    proof {
        assert(old(out)@.push(34) =~= old(out)@ + lit_dquote());
    }
}

/// The text `: true`.
pub open spec fn lit_colon_true() -> Seq<u8> {
    seq![58u8, 32u8, 116u8, 114u8, 117u8, 101u8]
}

/// Appends that text to `out`.
pub fn put_colon_true(out: &mut Vec<u8>)
    ensures
        final(out)@ == old(out)@ + lit_colon_true(),
{
    out.push(58);
    out.push(32);
    out.push(116);
    out.push(114);
    out.push(117);
    out.push(101);
    proof {
        assert(old(out)@.push(58).push(32).push(116).push(114).push(117).push(101) =~= old(out)@ + lit_colon_true());
    }
}

/// The text `...`.
pub open spec fn lit_spread_dots() -> Seq<u8> {
    seq![46u8, 46u8, 46u8]
}

/// Appends that text to `out`.
pub fn put_spread_dots(out: &mut Vec<u8>)
    ensures
        final(out)@ == old(out)@ + lit_spread_dots(),
{
    out.push(46);
    out.push(46);
    out.push(46);
    proof {
        assert(old(out)@.push(46).push(46).push(46) =~= old(out)@ + lit_spread_dots());
    }
}

/// The text `key`.
pub open spec fn lit_key_word() -> Seq<u8> {
    seq![107u8, 101u8, 121u8]
}

/// Appends that text to `out`.
pub fn put_key_word(out: &mut Vec<u8>)
    ensures
        final(out)@ == old(out)@ + lit_key_word(),
{
    out.push(107);
    out.push(101);
    out.push(121);
    proof {
        assert(old(out)@.push(107).push(101).push(121) =~= old(out)@ + lit_key_word());
    }
}

/// The text `import { jsx as _jsx, jsxs as _jsxs, Fragment as _Fragment } from \"`.
pub open spec fn lit_import_line_head() -> Seq<u8> {
    seq![105u8, 109u8, 112u8, 111u8, 114u8, 116u8, 32u8, 123u8, 32u8, 106u8, 115u8, 120u8, 32u8, 97u8, 115u8, 32u8, 95u8, 106u8, 115u8, 120u8, 44u8, 32u8, 106u8, 115u8, 120u8, 115u8, 32u8, 97u8, 115u8, 32u8, 95u8, 106u8, 115u8, 120u8, 115u8, 44u8, 32u8, 70u8, 114u8, 97u8, 103u8, 109u8, 101u8, 110u8, 116u8, 32u8, 97u8, 115u8, 32u8, 95u8, 70u8, 114u8, 97u8, 103u8, 109u8, 101u8, 110u8, 116u8, 32u8, 125u8, 32u8, 102u8, 114u8, 111u8, 109u8, 32u8, 34u8]
}

/// Appends that text to `out`.
#[verifier::rlimit(100)]
pub fn put_import_line_head(out: &mut Vec<u8>)
    ensures
        final(out)@ == old(out)@ + lit_import_line_head(),
{
    out.push(105);
    out.push(109);
    out.push(112);
    out.push(111);
    out.push(114);
    out.push(116);
    out.push(32);
    out.push(123);
    out.push(32);
    out.push(106);
    out.push(115);
    out.push(120);
    out.push(32);
    out.push(97);
    out.push(115);
    out.push(32);
    out.push(95);
    out.push(106);
    out.push(115);
    out.push(120);
    out.push(44);
    out.push(32);
    out.push(106);
    out.push(115);
    out.push(120);
    out.push(115);
    out.push(32);
    out.push(97);
    out.push(115);
    out.push(32);
    out.push(95);
    out.push(106);
    out.push(115);
    out.push(120);
    out.push(115);
    out.push(44);
    out.push(32);
    out.push(70);
    out.push(114);
    out.push(97);
    out.push(103);
    out.push(109);
    out.push(101);
    out.push(110);
    out.push(116);
    out.push(32);
    out.push(97);
    out.push(115);
    out.push(32);
    out.push(95);
    out.push(70);
    out.push(114);
    out.push(97);
    out.push(103);
    out.push(109);
    out.push(101);
    out.push(110);
    out.push(116);
    out.push(32);
    out.push(125);
    out.push(32);
    out.push(102);
    out.push(114);
    out.push(111);
    out.push(109);
    out.push(32);
    out.push(34);
    proof {
        assert(old(out)@.push(105).push(109).push(112).push(111).push(114).push(116).push(32).push(123).push(32).push(106).push(115).push(120).push(32).push(97).push(115).push(32).push(95).push(106).push(115).push(120).push(44).push(32).push(106).push(115).push(120).push(115).push(32).push(97).push(115).push(32).push(95).push(106).push(115).push(120).push(115).push(44).push(32).push(70).push(114).push(97).push(103).push(109).push(101).push(110).push(116).push(32).push(97).push(115).push(32).push(95).push(70).push(114).push(97).push(103).push(109).push(101).push(110).push(116).push(32).push(125).push(32).push(102).push(114).push(111).push(109).push(32).push(34) =~= old(out)@ + lit_import_line_head());
    }
}

/// The text `/jsx-runtime\";\n`.
pub open spec fn lit_import_line_tail() -> Seq<u8> {
    seq![47u8, 106u8, 115u8, 120u8, 45u8, 114u8, 117u8, 110u8, 116u8, 105u8, 109u8, 101u8, 34u8, 59u8, 10u8]
}

/// Appends that text to `out`.
pub fn put_import_line_tail(out: &mut Vec<u8>)
    ensures
        final(out)@ == old(out)@ + lit_import_line_tail(),
{
    out.push(47);
    out.push(106);
    out.push(115);
    out.push(120);
    out.push(45);
    out.push(114);
    out.push(117);
    out.push(110);
    out.push(116);
    out.push(105);
    out.push(109);
    out.push(101);
    out.push(34);
    out.push(59);
    out.push(10);
    proof {
        assert(old(out)@.push(47).push(106).push(115).push(120).push(45).push(114).push(117).push(110).push(116).push(105).push(109).push(101).push(34).push(59).push(10) =~= old(out)@ + lit_import_line_tail());
    }
}

/// The text `class`.
pub open spec fn lit_an_class() -> Seq<u8> {
    seq![99u8, 108u8, 97u8, 115u8, 115u8]
}

/// Appends that text to `out`.
pub fn put_an_class(out: &mut Vec<u8>)
    ensures
        final(out)@ == old(out)@ + lit_an_class(),
{
    out.push(99);
    out.push(108);
    out.push(97);
    out.push(115);
    out.push(115);
    proof {
        assert(old(out)@.push(99).push(108).push(97).push(115).push(115) =~= old(out)@ + lit_an_class());
    }
}

/// The text `className`.
pub open spec fn lit_an_class_js() -> Seq<u8> {
    seq![99u8, 108u8, 97u8, 115u8, 115u8, 78u8, 97u8, 109u8, 101u8]
}

/// Appends that text to `out`.
pub fn put_an_class_js(out: &mut Vec<u8>)
    ensures
        final(out)@ == old(out)@ + lit_an_class_js(),
{
    out.push(99);
    out.push(108);
    out.push(97);
    out.push(115);
    out.push(115);
    out.push(78);
    out.push(97);
    out.push(109);
    out.push(101);
    proof {
        assert(old(out)@.push(99).push(108).push(97).push(115).push(115).push(78).push(97).push(109).push(101) =~= old(out)@ + lit_an_class_js());
    }
}

/// The text `for`.
pub open spec fn lit_an_for() -> Seq<u8> {
    seq![102u8, 111u8, 114u8]
}

/// Appends that text to `out`.
pub fn put_an_for(out: &mut Vec<u8>)
    ensures
        final(out)@ == old(out)@ + lit_an_for(),
{
    out.push(102);
    out.push(111);
    out.push(114);
    proof {
        assert(old(out)@.push(102).push(111).push(114) =~= old(out)@ + lit_an_for());
    }
}

/// The text `htmlFor`.
pub open spec fn lit_an_for_js() -> Seq<u8> {
    seq![104u8, 116u8, 109u8, 108u8, 70u8, 111u8, 114u8]
}

/// Appends that text to `out`.
pub fn put_an_for_js(out: &mut Vec<u8>)
    ensures
        final(out)@ == old(out)@ + lit_an_for_js(),
{
    out.push(104);
    out.push(116);
    out.push(109);
    out.push(108);
    out.push(70);
    out.push(111);
    out.push(114);
    proof {
        assert(old(out)@.push(104).push(116).push(109).push(108).push(70).push(111).push(114) =~= old(out)@ + lit_an_for_js());
    }
}

/// The text `tabindex`.
pub open spec fn lit_an_tabindex() -> Seq<u8> {
    seq![116u8, 97u8, 98u8, 105u8, 110u8, 100u8, 101u8, 120u8]
}

/// Appends that text to `out`.
pub fn put_an_tabindex(out: &mut Vec<u8>)
    ensures
        final(out)@ == old(out)@ + lit_an_tabindex(),
{
    out.push(116);
    out.push(97);
    out.push(98);
    out.push(105);
    out.push(110);
    out.push(100);
    out.push(101);
    out.push(120);
    proof {
        assert(old(out)@.push(116).push(97).push(98).push(105).push(110).push(100).push(101).push(120) =~= old(out)@ + lit_an_tabindex());
    }
}

/// The text `tabIndex`.
pub open spec fn lit_an_tabindex_js() -> Seq<u8> {
    seq![116u8, 97u8, 98u8, 73u8, 110u8, 100u8, 101u8, 120u8]
}

/// Appends that text to `out`.
pub fn put_an_tabindex_js(out: &mut Vec<u8>)
    ensures
        final(out)@ == old(out)@ + lit_an_tabindex_js(),
{
    out.push(116);
    out.push(97);
    out.push(98);
    out.push(73);
    out.push(110);
    out.push(100);
    out.push(101);
    out.push(120);
    proof {
        assert(old(out)@.push(116).push(97).push(98).push(73).push(110).push(100).push(101).push(120) =~= old(out)@ + lit_an_tabindex_js());
    }
}

/// The text `readonly`.
pub open spec fn lit_an_readonly() -> Seq<u8> {
    seq![114u8, 101u8, 97u8, 100u8, 111u8, 110u8, 108u8, 121u8]
}

/// Appends that text to `out`.
pub fn put_an_readonly(out: &mut Vec<u8>)
    ensures
        final(out)@ == old(out)@ + lit_an_readonly(),
{
    out.push(114);
    out.push(101);
    out.push(97);
    out.push(100);
    out.push(111);
    out.push(110);
    out.push(108);
    out.push(121);
    proof {
        assert(old(out)@.push(114).push(101).push(97).push(100).push(111).push(110).push(108).push(121) =~= old(out)@ + lit_an_readonly());
    }
}

/// The text `readOnly`.
pub open spec fn lit_an_readonly_js() -> Seq<u8> {
    seq![114u8, 101u8, 97u8, 100u8, 79u8, 110u8, 108u8, 121u8]
}

/// Appends that text to `out`.
pub fn put_an_readonly_js(out: &mut Vec<u8>)
    ensures
        final(out)@ == old(out)@ + lit_an_readonly_js(),
{
    out.push(114);
    out.push(101);
    out.push(97);
    out.push(100);
    out.push(79);
    out.push(110);
    out.push(108);
    out.push(121);
    proof {
        assert(old(out)@.push(114).push(101).push(97).push(100).push(79).push(110).push(108).push(121) =~= old(out)@ + lit_an_readonly_js());
    }
}

/// The text `maxlength`.
pub open spec fn lit_an_maxlength() -> Seq<u8> {
    seq![109u8, 97u8, 120u8, 108u8, 101u8, 110u8, 103u8, 116u8, 104u8]
}

/// Appends that text to `out`.
pub fn put_an_maxlength(out: &mut Vec<u8>)
    ensures
        final(out)@ == old(out)@ + lit_an_maxlength(),
{
    out.push(109);
    out.push(97);
    out.push(120);
    out.push(108);
    out.push(101);
    out.push(110);
    out.push(103);
    out.push(116);
    out.push(104);
    proof {
        assert(old(out)@.push(109).push(97).push(120).push(108).push(101).push(110).push(103).push(116).push(104) =~= old(out)@ + lit_an_maxlength());
    }
}

/// The text `maxLength`.
pub open spec fn lit_an_maxlength_js() -> Seq<u8> {
    seq![109u8, 97u8, 120u8, 76u8, 101u8, 110u8, 103u8, 116u8, 104u8]
}

/// Appends that text to `out`.
pub fn put_an_maxlength_js(out: &mut Vec<u8>)
    ensures
        final(out)@ == old(out)@ + lit_an_maxlength_js(),
{
    out.push(109);
    out.push(97);
    out.push(120);
    out.push(76);
    out.push(101);
    out.push(110);
    out.push(103);
    out.push(116);
    out.push(104);
    proof {
        assert(old(out)@.push(109).push(97).push(120).push(76).push(101).push(110).push(103).push(116).push(104) =~= old(out)@ + lit_an_maxlength_js());
    }
}

/// The text `cellpadding`.
pub open spec fn lit_an_cellpadding() -> Seq<u8> {
    seq![99u8, 101u8, 108u8, 108u8, 112u8, 97u8, 100u8, 100u8, 105u8, 110u8, 103u8]
}

/// Appends that text to `out`.
pub fn put_an_cellpadding(out: &mut Vec<u8>)
    ensures
        final(out)@ == old(out)@ + lit_an_cellpadding(),
{
    out.push(99);
    out.push(101);
    out.push(108);
    out.push(108);
    out.push(112);
    out.push(97);
    out.push(100);
    out.push(100);
    out.push(105);
    out.push(110);
    out.push(103);
    proof {
        assert(old(out)@.push(99).push(101).push(108).push(108).push(112).push(97).push(100).push(100).push(105).push(110).push(103) =~= old(out)@ + lit_an_cellpadding());
    }
}

/// The text `cellPadding`.
pub open spec fn lit_an_cellpadding_js() -> Seq<u8> {
    seq![99u8, 101u8, 108u8, 108u8, 80u8, 97u8, 100u8, 100u8, 105u8, 110u8, 103u8]
}

/// Appends that text to `out`.
pub fn put_an_cellpadding_js(out: &mut Vec<u8>)
    ensures
        final(out)@ == old(out)@ + lit_an_cellpadding_js(),
{
    out.push(99);
    out.push(101);
    out.push(108);
    out.push(108);
    out.push(80);
    out.push(97);
    out.push(100);
    out.push(100);
    out.push(105);
    out.push(110);
    out.push(103);
    proof {
        assert(old(out)@.push(99).push(101).push(108).push(108).push(80).push(97).push(100).push(100).push(105).push(110).push(103) =~= old(out)@ + lit_an_cellpadding_js());
    }
}

/// The text `cellspacing`.
pub open spec fn lit_an_cellspacing() -> Seq<u8> {
    seq![99u8, 101u8, 108u8, 108u8, 115u8, 112u8, 97u8, 99u8, 105u8, 110u8, 103u8]
}

/// Appends that text to `out`.
pub fn put_an_cellspacing(out: &mut Vec<u8>)
    ensures
        final(out)@ == old(out)@ + lit_an_cellspacing(),
{
    out.push(99);
    out.push(101);
    out.push(108);
    out.push(108);
    out.push(115);
    out.push(112);
    out.push(97);
    out.push(99);
    out.push(105);
    out.push(110);
    out.push(103);
    proof {
        assert(old(out)@.push(99).push(101).push(108).push(108).push(115).push(112).push(97).push(99).push(105).push(110).push(103) =~= old(out)@ + lit_an_cellspacing());
    }
}

/// The text `cellSpacing`.
pub open spec fn lit_an_cellspacing_js() -> Seq<u8> {
    seq![99u8, 101u8, 108u8, 108u8, 83u8, 112u8, 97u8, 99u8, 105u8, 110u8, 103u8]
}

/// Appends that text to `out`.
pub fn put_an_cellspacing_js(out: &mut Vec<u8>)
    ensures
        final(out)@ == old(out)@ + lit_an_cellspacing_js(),
{
    out.push(99);
    out.push(101);
    out.push(108);
    out.push(108);
    out.push(83);
    out.push(112);
    out.push(97);
    out.push(99);
    out.push(105);
    out.push(110);
    out.push(103);
    proof {
        assert(old(out)@.push(99).push(101).push(108).push(108).push(83).push(112).push(97).push(99).push(105).push(110).push(103) =~= old(out)@ + lit_an_cellspacing_js());
    }
}

/// The text `colspan`.
pub open spec fn lit_an_colspan() -> Seq<u8> {
    seq![99u8, 111u8, 108u8, 115u8, 112u8, 97u8, 110u8]
}

/// Appends that text to `out`.
pub fn put_an_colspan(out: &mut Vec<u8>)
    ensures
        final(out)@ == old(out)@ + lit_an_colspan(),
{
    out.push(99);
    out.push(111);
    out.push(108);
    out.push(115);
    out.push(112);
    out.push(97);
    out.push(110);
    proof {
        assert(old(out)@.push(99).push(111).push(108).push(115).push(112).push(97).push(110) =~= old(out)@ + lit_an_colspan());
    }
}

/// The text `colSpan`.
pub open spec fn lit_an_colspan_js() -> Seq<u8> {
    seq![99u8, 111u8, 108u8, 83u8, 112u8, 97u8, 110u8]
}

/// Appends that text to `out`.
pub fn put_an_colspan_js(out: &mut Vec<u8>)
    ensures
        final(out)@ == old(out)@ + lit_an_colspan_js(),
{
    out.push(99);
    out.push(111);
    out.push(108);
    out.push(83);
    out.push(112);
    out.push(97);
    out.push(110);
    proof {
        assert(old(out)@.push(99).push(111).push(108).push(83).push(112).push(97).push(110) =~= old(out)@ + lit_an_colspan_js());
    }
}

/// The text `rowspan`.
pub open spec fn lit_an_rowspan() -> Seq<u8> {
    seq![114u8, 111u8, 119u8, 115u8, 112u8, 97u8, 110u8]
}

/// Appends that text to `out`.
pub fn put_an_rowspan(out: &mut Vec<u8>)
    ensures
        final(out)@ == old(out)@ + lit_an_rowspan(),
{
    out.push(114);
    out.push(111);
    out.push(119);
    out.push(115);
    out.push(112);
    out.push(97);
    out.push(110);
    proof {
        assert(old(out)@.push(114).push(111).push(119).push(115).push(112).push(97).push(110) =~= old(out)@ + lit_an_rowspan());
    }
}

/// The text `rowSpan`.
pub open spec fn lit_an_rowspan_js() -> Seq<u8> {
    seq![114u8, 111u8, 119u8, 83u8, 112u8, 97u8, 110u8]
}

/// Appends that text to `out`.
pub fn put_an_rowspan_js(out: &mut Vec<u8>)
    ensures
        final(out)@ == old(out)@ + lit_an_rowspan_js(),
{
    out.push(114);
    out.push(111);
    out.push(119);
    out.push(83);
    out.push(112);
    out.push(97);
    out.push(110);
    proof {
        assert(old(out)@.push(114).push(111).push(119).push(83).push(112).push(97).push(110) =~= old(out)@ + lit_an_rowspan_js());
    }
}

/// The text `usemap`.
pub open spec fn lit_an_usemap() -> Seq<u8> {
    seq![117u8, 115u8, 101u8, 109u8, 97u8, 112u8]
}

/// Appends that text to `out`.
pub fn put_an_usemap(out: &mut Vec<u8>)
    ensures
        final(out)@ == old(out)@ + lit_an_usemap(),
{
    out.push(117);
    out.push(115);
    out.push(101);
    out.push(109);
    out.push(97);
    out.push(112);
    proof {
        assert(old(out)@.push(117).push(115).push(101).push(109).push(97).push(112) =~= old(out)@ + lit_an_usemap());
    }
}

/// The text `useMap`.
pub open spec fn lit_an_usemap_js() -> Seq<u8> {
    seq![117u8, 115u8, 101u8, 77u8, 97u8, 112u8]
}

/// Appends that text to `out`.
pub fn put_an_usemap_js(out: &mut Vec<u8>)
    ensures
        final(out)@ == old(out)@ + lit_an_usemap_js(),
{
    out.push(117);
    out.push(115);
    out.push(101);
    out.push(77);
    out.push(97);
    out.push(112);
    proof {
        assert(old(out)@.push(117).push(115).push(101).push(77).push(97).push(112) =~= old(out)@ + lit_an_usemap_js());
    }
}

/// The text `frameborder`.
pub open spec fn lit_an_frameborder() -> Seq<u8> {
    seq![102u8, 114u8, 97u8, 109u8, 101u8, 98u8, 111u8, 114u8, 100u8, 101u8, 114u8]
}

/// Appends that text to `out`.
pub fn put_an_frameborder(out: &mut Vec<u8>)
    ensures
        final(out)@ == old(out)@ + lit_an_frameborder(),
{
    out.push(102);
    out.push(114);
    out.push(97);
    out.push(109);
    out.push(101);
    out.push(98);
    out.push(111);
    out.push(114);
    out.push(100);
    out.push(101);
    out.push(114);
    proof {
        assert(old(out)@.push(102).push(114).push(97).push(109).push(101).push(98).push(111).push(114).push(100).push(101).push(114) =~= old(out)@ + lit_an_frameborder());
    }
}

/// The text `frameBorder`.
pub open spec fn lit_an_frameborder_js() -> Seq<u8> {
    seq![102u8, 114u8, 97u8, 109u8, 101u8, 66u8, 111u8, 114u8, 100u8, 101u8, 114u8]
}

/// Appends that text to `out`.
pub fn put_an_frameborder_js(out: &mut Vec<u8>)
    ensures
        final(out)@ == old(out)@ + lit_an_frameborder_js(),
{
    out.push(102);
    out.push(114);
    out.push(97);
    out.push(109);
    out.push(101);
    out.push(66);
    out.push(111);
    out.push(114);
    out.push(100);
    out.push(101);
    out.push(114);
    proof {
        assert(old(out)@.push(102).push(114).push(97).push(109).push(101).push(66).push(111).push(114).push(100).push(101).push(114) =~= old(out)@ + lit_an_frameborder_js());
    }
}

/// The text `contenteditable`.
pub open spec fn lit_an_contenteditable() -> Seq<u8> {
    seq![99u8, 111u8, 110u8, 116u8, 101u8, 110u8, 116u8, 101u8, 100u8, 105u8, 116u8, 97u8, 98u8, 108u8, 101u8]
}

/// Appends that text to `out`.
pub fn put_an_contenteditable(out: &mut Vec<u8>)
    ensures
        final(out)@ == old(out)@ + lit_an_contenteditable(),
{
    out.push(99);
    out.push(111);
    out.push(110);
    out.push(116);
    out.push(101);
    out.push(110);
    out.push(116);
    out.push(101);
    out.push(100);
    out.push(105);
    out.push(116);
    out.push(97);
    out.push(98);
    out.push(108);
    out.push(101);
    proof {
        assert(old(out)@.push(99).push(111).push(110).push(116).push(101).push(110).push(116).push(101).push(100).push(105).push(116).push(97).push(98).push(108).push(101) =~= old(out)@ + lit_an_contenteditable());
    }
}

/// The text `contentEditable`.
pub open spec fn lit_an_contenteditable_js() -> Seq<u8> {
    seq![99u8, 111u8, 110u8, 116u8, 101u8, 110u8, 116u8, 69u8, 100u8, 105u8, 116u8, 97u8, 98u8, 108u8, 101u8]
}

/// Appends that text to `out`.
pub fn put_an_contenteditable_js(out: &mut Vec<u8>)
    ensures
        final(out)@ == old(out)@ + lit_an_contenteditable_js(),
{
    out.push(99);
    out.push(111);
    out.push(110);
    out.push(116);
    out.push(101);
    out.push(110);
    out.push(116);
    out.push(69);
    out.push(100);
    out.push(105);
    out.push(116);
    out.push(97);
    out.push(98);
    out.push(108);
    out.push(101);
    proof {
        assert(old(out)@.push(99).push(111).push(110).push(116).push(101).push(110).push(116).push(69).push(100).push(105).push(116).push(97).push(98).push(108).push(101) =~= old(out)@ + lit_an_contenteditable_js());
    }
}

/// The text `autocomplete`.
pub open spec fn lit_an_autocomplete() -> Seq<u8> {
    seq![97u8, 117u8, 116u8, 111u8, 99u8, 111u8, 109u8, 112u8, 108u8, 101u8, 116u8, 101u8]
}

/// Appends that text to `out`.
pub fn put_an_autocomplete(out: &mut Vec<u8>)
    ensures
        final(out)@ == old(out)@ + lit_an_autocomplete(),
{
    out.push(97);
    out.push(117);
    out.push(116);
    out.push(111);
    out.push(99);
    out.push(111);
    out.push(109);
    out.push(112);
    out.push(108);
    out.push(101);
    out.push(116);
    out.push(101);
    proof {
        assert(old(out)@.push(97).push(117).push(116).push(111).push(99).push(111).push(109).push(112).push(108).push(101).push(116).push(101) =~= old(out)@ + lit_an_autocomplete());
    }
}

/// The text `autoComplete`.
pub open spec fn lit_an_autocomplete_js() -> Seq<u8> {
    seq![97u8, 117u8, 116u8, 111u8, 67u8, 111u8, 109u8, 112u8, 108u8, 101u8, 116u8, 101u8]
}

/// Appends that text to `out`.
pub fn put_an_autocomplete_js(out: &mut Vec<u8>)
    ensures
        final(out)@ == old(out)@ + lit_an_autocomplete_js(),
{
    out.push(97);
    out.push(117);
    out.push(116);
    out.push(111);
    out.push(67);
    out.push(111);
    out.push(109);
    out.push(112);
    out.push(108);
    out.push(101);
    out.push(116);
    out.push(101);
    proof {
        assert(old(out)@.push(97).push(117).push(116).push(111).push(67).push(111).push(109).push(112).push(108).push(101).push(116).push(101) =~= old(out)@ + lit_an_autocomplete_js());
    }
}

/// The text `autofocus`.
pub open spec fn lit_an_autofocus() -> Seq<u8> {
    seq![97u8, 117u8, 116u8, 111u8, 102u8, 111u8, 99u8, 117u8, 115u8]
}

/// Appends that text to `out`.
pub fn put_an_autofocus(out: &mut Vec<u8>)
    ensures
        final(out)@ == old(out)@ + lit_an_autofocus(),
{
    out.push(97);
    out.push(117);
    out.push(116);
    out.push(111);
    out.push(102);
    out.push(111);
    out.push(99);
    out.push(117);
    out.push(115);
    proof {
        assert(old(out)@.push(97).push(117).push(116).push(111).push(102).push(111).push(99).push(117).push(115) =~= old(out)@ + lit_an_autofocus());
    }
}

/// The text `autoFocus`.
pub open spec fn lit_an_autofocus_js() -> Seq<u8> {
    seq![97u8, 117u8, 116u8, 111u8, 70u8, 111u8, 99u8, 117u8, 115u8]
}

/// Appends that text to `out`.
pub fn put_an_autofocus_js(out: &mut Vec<u8>)
    ensures
        final(out)@ == old(out)@ + lit_an_autofocus_js(),
{
    out.push(97);
    out.push(117);
    out.push(116);
    out.push(111);
    out.push(70);
    out.push(111);
    out.push(99);
    out.push(117);
    out.push(115);
    proof {
        assert(old(out)@.push(97).push(117).push(116).push(111).push(70).push(111).push(99).push(117).push(115) =~= old(out)@ + lit_an_autofocus_js());
    }
}

/// The text `autoplay`.
pub open spec fn lit_an_autoplay() -> Seq<u8> {
    seq![97u8, 117u8, 116u8, 111u8, 112u8, 108u8, 97u8, 121u8]
}

/// Appends that text to `out`.
pub fn put_an_autoplay(out: &mut Vec<u8>)
    ensures
        final(out)@ == old(out)@ + lit_an_autoplay(),
{
    out.push(97);
    out.push(117);
    out.push(116);
    out.push(111);
    out.push(112);
    out.push(108);
    out.push(97);
    out.push(121);
    proof {
        assert(old(out)@.push(97).push(117).push(116).push(111).push(112).push(108).push(97).push(121) =~= old(out)@ + lit_an_autoplay());
    }
}

/// The text `autoPlay`.
pub open spec fn lit_an_autoplay_js() -> Seq<u8> {
    seq![97u8, 117u8, 116u8, 111u8, 80u8, 108u8, 97u8, 121u8]
}

/// Appends that text to `out`.
pub fn put_an_autoplay_js(out: &mut Vec<u8>)
    ensures
        final(out)@ == old(out)@ + lit_an_autoplay_js(),
{
    out.push(97);
    out.push(117);
    out.push(116);
    out.push(111);
    out.push(80);
    out.push(108);
    out.push(97);
    out.push(121);
    proof {
        assert(old(out)@.push(97).push(117).push(116).push(111).push(80).push(108).push(97).push(121) =~= old(out)@ + lit_an_autoplay_js());
    }
}

/// The JSX attribute-name translation: a fixed table of HTML names
/// rewritten to their DOM property casing; every other name (including
/// `data-*` and `aria-*`) passes through unchanged.
pub open spec fn attr_name_js(n: Seq<u8>) -> Seq<u8> {
    if n == lit_an_class() {
        lit_an_class_js()
    } else     if n == lit_an_for() {
        lit_an_for_js()
    } else     if n == lit_an_tabindex() {
        lit_an_tabindex_js()
    } else     if n == lit_an_readonly() {
        lit_an_readonly_js()
    } else     if n == lit_an_maxlength() {
        lit_an_maxlength_js()
    } else     if n == lit_an_cellpadding() {
        lit_an_cellpadding_js()
    } else     if n == lit_an_cellspacing() {
        lit_an_cellspacing_js()
    } else     if n == lit_an_colspan() {
        lit_an_colspan_js()
    } else     if n == lit_an_rowspan() {
        lit_an_rowspan_js()
    } else     if n == lit_an_usemap() {
        lit_an_usemap_js()
    } else     if n == lit_an_frameborder() {
        lit_an_frameborder_js()
    } else     if n == lit_an_contenteditable() {
        lit_an_contenteditable_js()
    } else     if n == lit_an_autocomplete() {
        lit_an_autocomplete_js()
    } else     if n == lit_an_autofocus() {
        lit_an_autofocus_js()
    } else     if n == lit_an_autoplay() {
        lit_an_autoplay_js()
    } else {
        n
    }
}

/// Translates one attribute name per the fixed table.
pub fn attr_name_convert(n: &Vec<u8>) -> (r: Vec<u8>)
    ensures
        r@ == attr_name_js(n@),
{
    if n.len() == 5 && n[0] == 99 && n[1] == 108 && n[2] == 97 && n[3] == 115 && n[4] == 115 {
        proof {
            assert(n@ =~= lit_an_class());
        }
        let mut r: Vec<u8> = Vec::new();
        put_an_class_js(&mut r);
        proof {
            assert(r@ =~= lit_an_class_js());
        }
        return r;
    }
    proof {
        assert(n@ != lit_an_class());
    }
    if n.len() == 3 && n[0] == 102 && n[1] == 111 && n[2] == 114 {
        proof {
            assert(n@ =~= lit_an_for());
        }
        let mut r: Vec<u8> = Vec::new();
        put_an_for_js(&mut r);
        proof {
            assert(r@ =~= lit_an_for_js());
        }
        return r;
    }
    proof {
        assert(n@ != lit_an_for());
    }
    if n.len() == 8 && n[0] == 116 && n[1] == 97 && n[2] == 98 && n[3] == 105 && n[4] == 110 && n[5] == 100 && n[6] == 101 && n[7] == 120 {
        proof {
            assert(n@ =~= lit_an_tabindex());
        }
        let mut r: Vec<u8> = Vec::new();
        put_an_tabindex_js(&mut r);
        proof {
            assert(r@ =~= lit_an_tabindex_js());
        }
        return r;
    }
    proof {
        assert(n@ != lit_an_tabindex());
    }
    if n.len() == 8 && n[0] == 114 && n[1] == 101 && n[2] == 97 && n[3] == 100 && n[4] == 111 && n[5] == 110 && n[6] == 108 && n[7] == 121 {
        proof {
            assert(n@ =~= lit_an_readonly());
        }
        let mut r: Vec<u8> = Vec::new();
        put_an_readonly_js(&mut r);
        proof {
            assert(r@ =~= lit_an_readonly_js());
        }
        return r;
    }
    proof {
        assert(n@ != lit_an_readonly());
    }
    if n.len() == 9 && n[0] == 109 && n[1] == 97 && n[2] == 120 && n[3] == 108 && n[4] == 101 && n[5] == 110 && n[6] == 103 && n[7] == 116 && n[8] == 104 {
        proof {
            assert(n@ =~= lit_an_maxlength());
        }
        let mut r: Vec<u8> = Vec::new();
        put_an_maxlength_js(&mut r);
        proof {
            assert(r@ =~= lit_an_maxlength_js());
        }
        return r;
    }
    proof {
        assert(n@ != lit_an_maxlength());
    }
    if n.len() == 11 && n[0] == 99 && n[1] == 101 && n[2] == 108 && n[3] == 108 && n[4] == 112 && n[5] == 97 && n[6] == 100 && n[7] == 100 && n[8] == 105 && n[9] == 110 && n[10] == 103 {
        proof {
            assert(n@ =~= lit_an_cellpadding());
        }
        let mut r: Vec<u8> = Vec::new();
        put_an_cellpadding_js(&mut r);
        proof {
            assert(r@ =~= lit_an_cellpadding_js());
        }
        return r;
    }
    proof {
        assert(n@ != lit_an_cellpadding());
    }
    if n.len() == 11 && n[0] == 99 && n[1] == 101 && n[2] == 108 && n[3] == 108 && n[4] == 115 && n[5] == 112 && n[6] == 97 && n[7] == 99 && n[8] == 105 && n[9] == 110 && n[10] == 103 {
        proof {
            assert(n@ =~= lit_an_cellspacing());
        }
        let mut r: Vec<u8> = Vec::new();
        put_an_cellspacing_js(&mut r);
        proof {
            assert(r@ =~= lit_an_cellspacing_js());
        }
        return r;
    }
    proof {
        assert(n@ != lit_an_cellspacing());
    }
    if n.len() == 7 && n[0] == 99 && n[1] == 111 && n[2] == 108 && n[3] == 115 && n[4] == 112 && n[5] == 97 && n[6] == 110 {
        proof {
            assert(n@ =~= lit_an_colspan());
        }
        let mut r: Vec<u8> = Vec::new();
        put_an_colspan_js(&mut r);
        proof {
            assert(r@ =~= lit_an_colspan_js());
        }
        return r;
    }
    proof {
        assert(n@ != lit_an_colspan());
    }
    if n.len() == 7 && n[0] == 114 && n[1] == 111 && n[2] == 119 && n[3] == 115 && n[4] == 112 && n[5] == 97 && n[6] == 110 {
        proof {
            assert(n@ =~= lit_an_rowspan());
        }
        let mut r: Vec<u8> = Vec::new();
        put_an_rowspan_js(&mut r);
        proof {
            assert(r@ =~= lit_an_rowspan_js());
        }
        return r;
    }
    proof {
        assert(n@ != lit_an_rowspan());
    }
    if n.len() == 6 && n[0] == 117 && n[1] == 115 && n[2] == 101 && n[3] == 109 && n[4] == 97 && n[5] == 112 {
        proof {
            assert(n@ =~= lit_an_usemap());
        }
        let mut r: Vec<u8> = Vec::new();
        put_an_usemap_js(&mut r);
        proof {
            assert(r@ =~= lit_an_usemap_js());
        }
        return r;
    }
    proof {
        assert(n@ != lit_an_usemap());
    }
    if n.len() == 11 && n[0] == 102 && n[1] == 114 && n[2] == 97 && n[3] == 109 && n[4] == 101 && n[5] == 98 && n[6] == 111 && n[7] == 114 && n[8] == 100 && n[9] == 101 && n[10] == 114 {
        proof {
            assert(n@ =~= lit_an_frameborder());
        }
        let mut r: Vec<u8> = Vec::new();
        put_an_frameborder_js(&mut r);
        proof {
            assert(r@ =~= lit_an_frameborder_js());
        }
        return r;
    }
    proof {
        assert(n@ != lit_an_frameborder());
    }
    if n.len() == 15 && n[0] == 99 && n[1] == 111 && n[2] == 110 && n[3] == 116 && n[4] == 101 && n[5] == 110 && n[6] == 116 && n[7] == 101 && n[8] == 100 && n[9] == 105 && n[10] == 116 && n[11] == 97 && n[12] == 98 && n[13] == 108 && n[14] == 101 {
        proof {
            assert(n@ =~= lit_an_contenteditable());
        }
        let mut r: Vec<u8> = Vec::new();
        put_an_contenteditable_js(&mut r);
        proof {
            assert(r@ =~= lit_an_contenteditable_js());
        }
        return r;
    }
    proof {
        assert(n@ != lit_an_contenteditable());
    }
    if n.len() == 12 && n[0] == 97 && n[1] == 117 && n[2] == 116 && n[3] == 111 && n[4] == 99 && n[5] == 111 && n[6] == 109 && n[7] == 112 && n[8] == 108 && n[9] == 101 && n[10] == 116 && n[11] == 101 {
        proof {
            assert(n@ =~= lit_an_autocomplete());
        }
        let mut r: Vec<u8> = Vec::new();
        put_an_autocomplete_js(&mut r);
        proof {
            assert(r@ =~= lit_an_autocomplete_js());
        }
        return r;
    }
    proof {
        assert(n@ != lit_an_autocomplete());
    }
    if n.len() == 9 && n[0] == 97 && n[1] == 117 && n[2] == 116 && n[3] == 111 && n[4] == 102 && n[5] == 111 && n[6] == 99 && n[7] == 117 && n[8] == 115 {
        proof {
            assert(n@ =~= lit_an_autofocus());
        }
        let mut r: Vec<u8> = Vec::new();
        put_an_autofocus_js(&mut r);
        proof {
            assert(r@ =~= lit_an_autofocus_js());
        }
        return r;
    }
    proof {
        assert(n@ != lit_an_autofocus());
    }
    if n.len() == 8 && n[0] == 97 && n[1] == 117 && n[2] == 116 && n[3] == 111 && n[4] == 112 && n[5] == 108 && n[6] == 97 && n[7] == 121 {
        proof {
            assert(n@ =~= lit_an_autoplay());
        }
        let mut r: Vec<u8> = Vec::new();
        put_an_autoplay_js(&mut r);
        proof {
            assert(r@ =~= lit_an_autoplay_js());
        }
        return r;
    }
    proof {
        assert(n@ != lit_an_autoplay());
    }
    vstd::slice::slice_to_vec(n.as_slice())
}

/// The text `: "`.
pub open spec fn lit_colon_quote() -> Seq<u8> {
    seq![58u8, 32u8, 34u8]
}

/// Appends that text to `out`.
pub fn put_colon_quote(out: &mut Vec<u8>)
    ensures
        final(out)@ == old(out)@ + lit_colon_quote(),
{
    out.push(58);
    out.push(32);
    out.push(34);
    proof {
        assert(old(out)@.push(58u8).push(32u8).push(34u8) =~= old(out)@ + lit_colon_quote());
    }
}

/// Joins parts with a separator, the shape `a, b, c`.
pub open spec fn join_parts(parts: Seq<Seq<u8>>, sep: Seq<u8>) -> Seq<u8>
    decreases parts.len(),
{
    if parts.len() == 0 {
        Seq::empty()
    } else if parts.len() == 1 {
        parts[0]
    } else {
        parts[0] + sep + join_parts(parts.drop_first(), sep)
    }
}

pub proof fn lemma_join_push(parts: Seq<Seq<u8>>, p: Seq<u8>, sep: Seq<u8>)
    ensures
        join_parts(parts.push(p), sep) == if parts.len() == 0 {
            p
        } else {
            join_parts(parts, sep) + sep + p
        },
    decreases parts.len(),
{
    reveal_with_fuel(join_parts, 4);
    if parts.len() == 0 {
        assert(parts.push(p).len() == 1);
        assert(parts.push(p)[0] == p);
    } else if parts.len() == 1 {
        assert(parts.push(p).drop_first() =~= seq![p]);
        assert(parts.push(p)[0] == parts[0]);
    } else {
        assert(parts.push(p).drop_first() =~= parts.drop_first().push(p));
        lemma_join_push(parts.drop_first(), p, sep);
        assert(parts.push(p)[0] == parts[0]);
        assert(parts[0] + sep + (join_parts(parts.drop_first(), sep) + sep + p) =~= (parts[0] + sep
            + join_parts(parts.drop_first(), sep)) + sep + p);
    }
}

/// Appends the parts joined by `, ` to `out`.
pub fn join_comma(parts: &Vec<Vec<u8>>, out: &mut Vec<u8>)
    ensures
        final(out)@ == old(out)@ + join_parts(
            parts@.map_values(|v: Vec<u8>| v@),
            lit_comma_space(),
        ),
{
    let mut k: usize = 0;
    proof {
        assert(parts@.subrange(0, 0).map_values(|v: Vec<u8>| v@) =~= Seq::<Seq<u8>>::empty());
        assert(out@ + join_parts(Seq::<Seq<u8>>::empty(), lit_comma_space()) =~= out@);
    }
    loop
        invariant
            k <= parts@.len(),
            out@ == old(out)@ + join_parts(
                parts@.subrange(0, k as int).map_values(|v: Vec<u8>| v@),
                lit_comma_space(),
            ),
        decreases parts@.len() - k,
    {
        if k >= parts.len() {
            proof {
                assert(parts@.subrange(0, parts@.len() as int) =~= parts@);
            }
            return ;
        }
        let ghost pre = parts@.subrange(0, k as int).map_values(|v: Vec<u8>| v@);
        if k > 0 {
            put_comma_space(out);
        }
        let part = &parts[k];
        push_range(out, part.as_slice(), 0, part.len());
        proof {
            lemma_join_push(pre, parts@[k as int]@, lit_comma_space());
            assert(parts@.subrange(0, k + 1).map_values(|v: Vec<u8>| v@) =~= pre.push(
                parts@[k as int]@,
            ));
            if k > 0 {
                assert((old(out)@ + join_parts(pre, lit_comma_space())) + lit_comma_space()
                    + parts@[k as int]@ =~= old(out)@ + (join_parts(pre, lit_comma_space())
                    + lit_comma_space() + parts@[k as int]@));
            } else {
                assert((old(out)@ + join_parts(pre, lit_comma_space())) + parts@[0]@ =~= old(
                    out,
                )@ + parts@[0]@);
            }
        }
        k = k + 1;
    }
}

/// The whitespace bytes a trim removes at either end.
pub open spec fn is_trim_ws(b: u8) -> bool {
    b == B_TAB || b == B_NL || b == B_VT || b == B_FF || b == B_CR || b == B_SPACE
}

/// Decides trim whitespace.
pub fn check_trim_ws(b: u8) -> (r: bool)
    ensures
        r == is_trim_ws(b),
{
    b == B_TAB || b == B_NL || b == B_VT || b == B_FF || b == B_CR || b == B_SPACE
}

/// Leading whitespace run of `s[a..b]`.
pub open spec fn tfront(s: Seq<u8>, a: int, b: int) -> nat
    decreases b - a,
{
    if a < 0 || a >= b || b > s.len() {
        0
    } else if is_trim_ws(s[a]) {
        1 + tfront(s, a + 1, b)
    } else {
        0
    }
}

pub proof fn lemma_tfront_bound(s: Seq<u8>, a: int, b: int)
    requires
        0 <= a <= b <= s.len(),
    ensures
        tfront(s, a, b) <= b - a,
    decreases b - a,
{
    if a < b && is_trim_ws(s[a]) {
        lemma_tfront_bound(s, a + 1, b);
    }
}

/// Trailing whitespace run of `s[f..b]`, never reaching below `f`.
pub open spec fn tback(s: Seq<u8>, f: int, b: int) -> nat
    decreases b - f,
{
    if f < 0 || b <= f || b > s.len() {
        0
    } else if is_trim_ws(s[b - 1]) {
        1 + tback(s, f, b - 1)
    } else {
        0
    }
}

pub proof fn lemma_tback_bound(s: Seq<u8>, f: int, b: int)
    requires
        0 <= f <= b <= s.len(),
    ensures
        tback(s, f, b) <= b - f,
    decreases b - f,
{
    if f < b && is_trim_ws(s[b - 1]) {
        lemma_tback_bound(s, f, b - 1);
    }
}

/// `s[a..b]` with whitespace removed from both ends.
pub open spec fn trim_range(s: Seq<u8>, a: int, b: int) -> Seq<u8> {
    let f = a + tfront(s, a, b);
    let e = b - tback(s, f, b);
    s.subrange(f, e)
}

/// Advances past the leading whitespace of `s[a..b]`.
pub fn scan_tfront(s: &[u8], a: usize, b: usize) -> (f: usize)
    requires
        a <= b <= s@.len(),
    ensures
        f == a + tfront(s@, a as int, b as int),
        a <= f <= b,
{
    let mut f = a;
    loop
        invariant
            a <= f <= b <= s@.len(),
            a + tfront(s@, a as int, b as int) == f + tfront(s@, f as int, b as int),
        decreases b - f,
    {
        if f >= b || !check_trim_ws(s[f]) {
            return f;
        }
        f = f + 1;
    }
}

/// Retreats past the trailing whitespace of `s[f..b]`.
pub fn scan_tback(s: &[u8], f: usize, b: usize) -> (e: usize)
    requires
        f <= b <= s@.len(),
    ensures
        e == b - tback(s@, f as int, b as int),
        f <= e <= b,
{
    let mut e = b;
    loop
        invariant
            f <= e <= b,
            b <= s@.len(),
            tback(s@, f as int, b as int) == (b - e) + tback(s@, f as int, e as int),
        decreases e,
    {
        if e <= f || !check_trim_ws(s[e - 1]) {
            return e;
        }
        e = e - 1;
    }
}

/// Copies `s[a..b]` trimmed of whitespace at both ends.
pub fn trim_copy(s: &[u8], a: usize, b: usize) -> (r: Vec<u8>)
    requires
        a <= b <= s@.len(),
    ensures
        r@ == trim_range(s@, a as int, b as int),
{
    let f = scan_tfront(s, a, b);
    let e = scan_tback(s, f, b);
    let mut r: Vec<u8> = Vec::new();
    push_range(&mut r, s, f, e);
    proof {
        assert(r@ =~= trim_range(s@, a as int, b as int));
    }
    r
}

/// The escaping applied to one byte of JSX child text.
pub open spec fn esc_byte(b: u8) -> Seq<u8> {
    if b == B_BACKSLASH {
        seq![B_BACKSLASH, B_BACKSLASH]
    } else if b == B_DQUOTE {
        seq![B_BACKSLASH, B_DQUOTE]
    } else if b == B_NL {
        seq![B_BACKSLASH, 110u8]
    } else if b == B_CR {
        seq![B_BACKSLASH, 114u8]
    } else if b == B_TAB {
        seq![B_BACKSLASH, 116u8]
    } else {
        seq![b]
    }
}

/// The text from `k` on with every byte escaped.
pub open spec fn esc_from(t: Seq<u8>, k: int) -> Seq<u8>
    decreases t.len() - k,
{
    if k < 0 || k >= t.len() {
        Seq::empty()
    } else {
        esc_byte(t[k]) + esc_from(t, k + 1)
    }
}

/// Copies `t` with child-text escaping applied.
pub fn esc_copy(t: &[u8]) -> (r: Vec<u8>)
    ensures
        r@ == esc_from(t@, 0),
{
    let mut r: Vec<u8> = Vec::new();
    let mut k: usize = 0;
    proof {
        assert(r@ + esc_from(t@, 0) =~= esc_from(t@, 0));
    }
    loop
        invariant
            k <= t@.len(),
            esc_from(t@, 0) == r@ + esc_from(t@, k as int),
        decreases t@.len() - k,
    {
        let ghost r0 = r@;
        if k >= t.len() {
            proof {
                assert(r@ + esc_from(t@, k as int) =~= r@);
            }
            return r;
        }
        let b = t[k];
        if b == B_BACKSLASH {
            r.push(B_BACKSLASH);
            r.push(B_BACKSLASH);
        } else if b == B_DQUOTE {
            r.push(B_BACKSLASH);
            r.push(B_DQUOTE);
        } else if b == B_NL {
            r.push(B_BACKSLASH);
            r.push(110);
        } else if b == B_CR {
            r.push(B_BACKSLASH);
            r.push(114);
        } else if b == B_TAB {
            r.push(B_BACKSLASH);
            r.push(116);
        } else {
            r.push(b);
        }
        proof {
            assert(r@ =~= r0 + esc_byte(t@[k as int]));
            assert((r0 + esc_byte(t@[k as int])) + esc_from(t@, k + 1) =~= r0 + (esc_byte(
                t@[k as int],
            ) + esc_from(t@, k + 1)));
        }
        k = k + 1;
    }
}

/// A quoted, escaped, trimmed child-text node.
pub open spec fn text_child(buf: Seq<u8>) -> Seq<u8> {
    lit_dquote() + trim_range(esc_from(buf, 0), 0, esc_from(buf, 0).len() as int) + lit_dquote()
}

/// Flushes a text buffer into the children list: dropped when its trimmed
/// form is empty, appended as a quoted escaped node otherwise.
pub open spec fn flush_text(acc: Seq<Seq<u8>>, buf: Seq<u8>) -> Seq<Seq<u8>> {
    if trim_range(buf, 0, buf.len() as int).len() == 0 {
        acc
    } else {
        acc.push(text_child(buf))
    }
}

/// Builds the quoted escaped trimmed node for a text buffer.
pub fn make_text_child(buf: &Vec<u8>) -> (r: Vec<u8>)
    ensures
        r@ == text_child(buf@),
{
    let esc = esc_copy(buf.as_slice());
    let trimmed = trim_copy(esc.as_slice(), 0, esc.len());
    let mut r: Vec<u8> = Vec::new();
    put_dquote(&mut r);
    push_range(&mut r, trimmed.as_slice(), 0, trimmed.len());
    put_dquote(&mut r);
    proof {
        assert(r@ =~= text_child(buf@));
    }
    r
}

} // verus!
