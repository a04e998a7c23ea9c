//! The literal text blocks of the generated bundle shells, each with its
//! specification.

use vstd::prelude::*;

verus! {

/// The text `// Kona Bundle\n`.
pub open spec fn lit_iife_l1() -> Seq<u8> {
    seq![47u8, 47u8, 32u8, 75u8, 111u8, 110u8, 97u8, 32u8, 66u8, 117u8, 110u8, 100u8, 108u8, 101u8, 10u8]
}

/// Appends that text to `out`.
pub fn put_iife_l1(out: &mut Vec<u8>)
    ensures
        final(out)@ == old(out)@ + lit_iife_l1(),
{
    out.push(47);
    out.push(47);
    out.push(32);
    out.push(75);
    out.push(111);
    out.push(110);
    out.push(97);
    out.push(32);
    out.push(66);
    out.push(117);
    out.push(110);
    out.push(100);
    out.push(108);
    out.push(101);
    out.push(10);
    proof {
        assert(old(out)@.push(47).push(47).push(32).push(75).push(111).push(110).push(97).push(32).push(66).push(117).push(110).push(100).push(108).push(101).push(10) =~= old(out)@ + lit_iife_l1());
    }
}

/// The text `(function(modules) {\n`.
pub open spec fn lit_iife_l2() -> Seq<u8> {
    seq![40u8, 102u8, 117u8, 110u8, 99u8, 116u8, 105u8, 111u8, 110u8, 40u8, 109u8, 111u8, 100u8, 117u8, 108u8, 101u8, 115u8, 41u8, 32u8, 123u8, 10u8]
}

/// Appends that text to `out`.
pub fn put_iife_l2(out: &mut Vec<u8>)
    ensures
        final(out)@ == old(out)@ + lit_iife_l2(),
{
    out.push(40);
    out.push(102);
    out.push(117);
    out.push(110);
    out.push(99);
    out.push(116);
    out.push(105);
    out.push(111);
    out.push(110);
    out.push(40);
    out.push(109);
    out.push(111);
    out.push(100);
    out.push(117);
    out.push(108);
    out.push(101);
    out.push(115);
    out.push(41);
    out.push(32);
    out.push(123);
    out.push(10);
    proof {
        assert(old(out)@.push(40).push(102).push(117).push(110).push(99).push(116).push(105).push(111).push(110).push(40).push(109).push(111).push(100).push(117).push(108).push(101).push(115).push(41).push(32).push(123).push(10) =~= old(out)@ + lit_iife_l2());
    }
}

/// The text `  var cache = {};\n`.
pub open spec fn lit_iife_l3() -> Seq<u8> {
    seq![32u8, 32u8, 118u8, 97u8, 114u8, 32u8, 99u8, 97u8, 99u8, 104u8, 101u8, 32u8, 61u8, 32u8, 123u8, 125u8, 59u8, 10u8]
}

/// Appends that text to `out`.
pub fn put_iife_l3(out: &mut Vec<u8>)
    ensures
        final(out)@ == old(out)@ + lit_iife_l3(),
{
    out.push(32);
    out.push(32);
    out.push(118);
    out.push(97);
    out.push(114);
    out.push(32);
    out.push(99);
    out.push(97);
    out.push(99);
    out.push(104);
    out.push(101);
    out.push(32);
    out.push(61);
    out.push(32);
    out.push(123);
    out.push(125);
    out.push(59);
    out.push(10);
    proof {
        assert(old(out)@.push(32).push(32).push(118).push(97).push(114).push(32).push(99).push(97).push(99).push(104).push(101).push(32).push(61).push(32).push(123).push(125).push(59).push(10) =~= old(out)@ + lit_iife_l3());
    }
}

/// The text `  function require(id) {\n`.
pub open spec fn lit_iife_l4() -> Seq<u8> {
    seq![32u8, 32u8, 102u8, 117u8, 110u8, 99u8, 116u8, 105u8, 111u8, 110u8, 32u8, 114u8, 101u8, 113u8, 117u8, 105u8, 114u8, 101u8, 40u8, 105u8, 100u8, 41u8, 32u8, 123u8, 10u8]
}

/// Appends that text to `out`.
pub fn put_iife_l4(out: &mut Vec<u8>)
    ensures
        final(out)@ == old(out)@ + lit_iife_l4(),
{
    out.push(32);
    out.push(32);
    out.push(102);
    out.push(117);
    out.push(110);
    out.push(99);
    out.push(116);
    out.push(105);
    out.push(111);
    out.push(110);
    out.push(32);
    out.push(114);
    out.push(101);
    out.push(113);
    out.push(117);
    out.push(105);
    out.push(114);
    out.push(101);
    out.push(40);
    out.push(105);
    out.push(100);
    out.push(41);
    out.push(32);
    out.push(123);
    out.push(10);
    proof {
        assert(old(out)@.push(32).push(32).push(102).push(117).push(110).push(99).push(116).push(105).push(111).push(110).push(32).push(114).push(101).push(113).push(117).push(105).push(114).push(101).push(40).push(105).push(100).push(41).push(32).push(123).push(10) =~= old(out)@ + lit_iife_l4());
    }
}

/// The text `    if (cache[id]) return cache[id].exports;\n`.
pub open spec fn lit_iife_l5() -> Seq<u8> {
    seq![32u8, 32u8, 32u8, 32u8, 105u8, 102u8, 32u8, 40u8, 99u8, 97u8, 99u8, 104u8, 101u8, 91u8, 105u8, 100u8, 93u8, 41u8, 32u8, 114u8, 101u8, 116u8, 117u8, 114u8, 110u8, 32u8, 99u8, 97u8, 99u8, 104u8, 101u8, 91u8, 105u8, 100u8, 93u8, 46u8, 101u8, 120u8, 112u8, 111u8, 114u8, 116u8, 115u8, 59u8, 10u8]
}

/// Appends that text to `out`.
#[verifier::rlimit(100)]
pub fn put_iife_l5(out: &mut Vec<u8>)
    ensures
        final(out)@ == old(out)@ + lit_iife_l5(),
{
    out.push(32);
    out.push(32);
    out.push(32);
    out.push(32);
    out.push(105);
    out.push(102);
    out.push(32);
    out.push(40);
    out.push(99);
    out.push(97);
    out.push(99);
    out.push(104);
    out.push(101);
    out.push(91);
    out.push(105);
    out.push(100);
    out.push(93);
    out.push(41);
    out.push(32);
    out.push(114);
    out.push(101);
    out.push(116);
    out.push(117);
    out.push(114);
    out.push(110);
    out.push(32);
    out.push(99);
    out.push(97);
    out.push(99);
    out.push(104);
    out.push(101);
    out.push(91);
    out.push(105);
    out.push(100);
    out.push(93);
    out.push(46);
    out.push(101);
    out.push(120);
    out.push(112);
    out.push(111);
    out.push(114);
    out.push(116);
    out.push(115);
    out.push(59);
    out.push(10);
    proof {
        assert(old(out)@.push(32).push(32).push(32).push(32).push(105).push(102).push(32).push(40).push(99).push(97).push(99).push(104).push(101).push(91).push(105).push(100).push(93).push(41).push(32).push(114).push(101).push(116).push(117).push(114).push(110).push(32).push(99).push(97).push(99).push(104).push(101).push(91).push(105).push(100).push(93).push(46).push(101).push(120).push(112).push(111).push(114).push(116).push(115).push(59).push(10) =~= old(out)@ + lit_iife_l5());
    }
}

/// The text `    var m = cache[id] = { exports: {} };\n`.
pub open spec fn lit_iife_l6() -> Seq<u8> {
    seq![32u8, 32u8, 32u8, 32u8, 118u8, 97u8, 114u8, 32u8, 109u8, 32u8, 61u8, 32u8, 99u8, 97u8, 99u8, 104u8, 101u8, 91u8, 105u8, 100u8, 93u8, 32u8, 61u8, 32u8, 123u8, 32u8, 101u8, 120u8, 112u8, 111u8, 114u8, 116u8, 115u8, 58u8, 32u8, 123u8, 125u8, 32u8, 125u8, 59u8, 10u8]
}

/// Appends that text to `out`.
#[verifier::rlimit(100)]
pub fn put_iife_l6(out: &mut Vec<u8>)
    ensures
        final(out)@ == old(out)@ + lit_iife_l6(),
{
    out.push(32);
    out.push(32);
    out.push(32);
    out.push(32);
    out.push(118);
    out.push(97);
    out.push(114);
    out.push(32);
    out.push(109);
    out.push(32);
    out.push(61);
    out.push(32);
    out.push(99);
    out.push(97);
    out.push(99);
    out.push(104);
    out.push(101);
    out.push(91);
    out.push(105);
    out.push(100);
    out.push(93);
    out.push(32);
    out.push(61);
    out.push(32);
    out.push(123);
    out.push(32);
    out.push(101);
    out.push(120);
    out.push(112);
    out.push(111);
    out.push(114);
    out.push(116);
    out.push(115);
    out.push(58);
    out.push(32);
    out.push(123);
    out.push(125);
    out.push(32);
    out.push(125);
    out.push(59);
    out.push(10);
    proof {
        assert(old(out)@.push(32).push(32).push(32).push(32).push(118).push(97).push(114).push(32).push(109).push(32).push(61).push(32).push(99).push(97).push(99).push(104).push(101).push(91).push(105).push(100).push(93).push(32).push(61).push(32).push(123).push(32).push(101).push(120).push(112).push(111).push(114).push(116).push(115).push(58).push(32).push(123).push(125).push(32).push(125).push(59).push(10) =~= old(out)@ + lit_iife_l6());
    }
}

/// The text `    modules[id](m, m.exports, require);\n`.
pub open spec fn lit_iife_l7() -> Seq<u8> {
    seq![32u8, 32u8, 32u8, 32u8, 109u8, 111u8, 100u8, 117u8, 108u8, 101u8, 115u8, 91u8, 105u8, 100u8, 93u8, 40u8, 109u8, 44u8, 32u8, 109u8, 46u8, 101u8, 120u8, 112u8, 111u8, 114u8, 116u8, 115u8, 44u8, 32u8, 114u8, 101u8, 113u8, 117u8, 105u8, 114u8, 101u8, 41u8, 59u8, 10u8]
}

/// Appends that text to `out`.
#[verifier::rlimit(100)]
pub fn put_iife_l7(out: &mut Vec<u8>)
    ensures
        final(out)@ == old(out)@ + lit_iife_l7(),
{
    out.push(32);
    out.push(32);
    out.push(32);
    out.push(32);
    out.push(109);
    out.push(111);
    out.push(100);
    out.push(117);
    out.push(108);
    out.push(101);
    out.push(115);
    out.push(91);
    out.push(105);
    out.push(100);
    out.push(93);
    out.push(40);
    out.push(109);
    out.push(44);
    out.push(32);
    out.push(109);
    out.push(46);
    out.push(101);
    out.push(120);
    out.push(112);
    out.push(111);
    out.push(114);
    out.push(116);
    out.push(115);
    out.push(44);
    out.push(32);
    out.push(114);
    out.push(101);
    out.push(113);
    out.push(117);
    out.push(105);
    out.push(114);
    out.push(101);
    out.push(41);
    out.push(59);
    out.push(10);
    proof {
        assert(old(out)@.push(32).push(32).push(32).push(32).push(109).push(111).push(100).push(117).push(108).push(101).push(115).push(91).push(105).push(100).push(93).push(40).push(109).push(44).push(32).push(109).push(46).push(101).push(120).push(112).push(111).push(114).push(116).push(115).push(44).push(32).push(114).push(101).push(113).push(117).push(105).push(114).push(101).push(41).push(59).push(10) =~= old(out)@ + lit_iife_l7());
    }
}

/// The text `    return m.exports;\n`.
pub open spec fn lit_iife_l8() -> Seq<u8> {
    seq![32u8, 32u8, 32u8, 32u8, 114u8, 101u8, 116u8, 117u8, 114u8, 110u8, 32u8, 109u8, 46u8, 101u8, 120u8, 112u8, 111u8, 114u8, 116u8, 115u8, 59u8, 10u8]
}

/// Appends that text to `out`.
pub fn put_iife_l8(out: &mut Vec<u8>)
    ensures
        final(out)@ == old(out)@ + lit_iife_l8(),
{
    out.push(32);
    out.push(32);
    out.push(32);
    out.push(32);
    out.push(114);
    out.push(101);
    out.push(116);
    out.push(117);
    out.push(114);
    out.push(110);
    out.push(32);
    out.push(109);
    out.push(46);
    out.push(101);
    out.push(120);
    out.push(112);
    out.push(111);
    out.push(114);
    out.push(116);
    out.push(115);
    out.push(59);
    out.push(10);
    proof {
        assert(old(out)@.push(32).push(32).push(32).push(32).push(114).push(101).push(116).push(117).push(114).push(110).push(32).push(109).push(46).push(101).push(120).push(112).push(111).push(114).push(116).push(115).push(59).push(10) =~= old(out)@ + lit_iife_l8());
    }
}

/// The text `  }\n`.
pub open spec fn lit_iife_l9() -> Seq<u8> {
    seq![32u8, 32u8, 125u8, 10u8]
}

/// Appends that text to `out`.
pub fn put_iife_l9(out: &mut Vec<u8>)
    ensures
        final(out)@ == old(out)@ + lit_iife_l9(),
{
    out.push(32);
    out.push(32);
    out.push(125);
    out.push(10);
    proof {
        assert(old(out)@.push(32).push(32).push(125).push(10) =~= old(out)@ + lit_iife_l9());
    }
}

/// The text `  require(\"`.
pub open spec fn lit_iife_entry_open() -> Seq<u8> {
    seq![32u8, 32u8, 114u8, 101u8, 113u8, 117u8, 105u8, 114u8, 101u8, 40u8, 34u8]
}

/// Appends that text to `out`.
pub fn put_iife_entry_open(out: &mut Vec<u8>)
    ensures
        final(out)@ == old(out)@ + lit_iife_entry_open(),
{
    out.push(32);
    out.push(32);
    out.push(114);
    out.push(101);
    out.push(113);
    out.push(117);
    out.push(105);
    out.push(114);
    out.push(101);
    out.push(40);
    out.push(34);
    proof {
        assert(old(out)@.push(32).push(32).push(114).push(101).push(113).push(117).push(105).push(114).push(101).push(40).push(34) =~= old(out)@ + lit_iife_entry_open());
    }
}

/// The text `\");\n`.
pub open spec fn lit_entry_close() -> Seq<u8> {
    seq![34u8, 41u8, 59u8, 10u8]
}

/// Appends that text to `out`.
pub fn put_entry_close(out: &mut Vec<u8>)
    ensures
        final(out)@ == old(out)@ + lit_entry_close(),
{
    out.push(34);
    out.push(41);
    out.push(59);
    out.push(10);
    proof {
        assert(old(out)@.push(34).push(41).push(59).push(10) =~= old(out)@ + lit_entry_close());
    }
}

/// The text `})({`.
pub open spec fn lit_iife_table_open() -> Seq<u8> {
    seq![125u8, 41u8, 40u8, 123u8]
}

/// Appends that text to `out`.
pub fn put_iife_table_open(out: &mut Vec<u8>)
    ensures
        final(out)@ == old(out)@ + lit_iife_table_open(),
{
    out.push(125);
    out.push(41);
    out.push(40);
    out.push(123);
    proof {
        assert(old(out)@.push(125).push(41).push(40).push(123) =~= old(out)@ + lit_iife_table_open());
    }
}

/// The text `\n\"`.
pub open spec fn lit_nl_quote() -> Seq<u8> {
    seq![10u8, 34u8]
}

/// Appends that text to `out`.
pub fn put_nl_quote(out: &mut Vec<u8>)
    ensures
        final(out)@ == old(out)@ + lit_nl_quote(),
{
    out.push(10);
    out.push(34);
    proof {
        assert(old(out)@.push(10).push(34) =~= old(out)@ + lit_nl_quote());
    }
}

/// The text `\":function(module,exports,require){\n`.
pub open spec fn lit_iife_mod_fn() -> Seq<u8> {
    seq![34u8, 58u8, 102u8, 117u8, 110u8, 99u8, 116u8, 105u8, 111u8, 110u8, 40u8, 109u8, 111u8, 100u8, 117u8, 108u8, 101u8, 44u8, 101u8, 120u8, 112u8, 111u8, 114u8, 116u8, 115u8, 44u8, 114u8, 101u8, 113u8, 117u8, 105u8, 114u8, 101u8, 41u8, 123u8, 10u8]
}

/// Appends that text to `out`.
#[verifier::rlimit(100)]
pub fn put_iife_mod_fn(out: &mut Vec<u8>)
    ensures
        final(out)@ == old(out)@ + lit_iife_mod_fn(),
{
    out.push(34);
    out.push(58);
    out.push(102);
    out.push(117);
    out.push(110);
    out.push(99);
    out.push(116);
    out.push(105);
    out.push(111);
    out.push(110);
    out.push(40);
    out.push(109);
    out.push(111);
    out.push(100);
    out.push(117);
    out.push(108);
    out.push(101);
    out.push(44);
    out.push(101);
    out.push(120);
    out.push(112);
    out.push(111);
    out.push(114);
    out.push(116);
    out.push(115);
    out.push(44);
    out.push(114);
    out.push(101);
    out.push(113);
    out.push(117);
    out.push(105);
    out.push(114);
    out.push(101);
    out.push(41);
    out.push(123);
    out.push(10);
    proof {
        assert(old(out)@.push(34).push(58).push(102).push(117).push(110).push(99).push(116).push(105).push(111).push(110).push(40).push(109).push(111).push(100).push(117).push(108).push(101).push(44).push(101).push(120).push(112).push(111).push(114).push(116).push(115).push(44).push(114).push(101).push(113).push(117).push(105).push(114).push(101).push(41).push(123).push(10) =~= old(out)@ + lit_iife_mod_fn());
    }
}

/// The text `\n}`.
pub open spec fn lit_nl_rbrace() -> Seq<u8> {
    seq![10u8, 125u8]
}

/// Appends that text to `out`.
pub fn put_nl_rbrace(out: &mut Vec<u8>)
    ensures
        final(out)@ == old(out)@ + lit_nl_rbrace(),
{
    out.push(10);
    out.push(125);
    proof {
        assert(old(out)@.push(10).push(125) =~= old(out)@ + lit_nl_rbrace());
    }
}

/// The text `\n});\n`.
pub open spec fn lit_iife_close() -> Seq<u8> {
    seq![10u8, 125u8, 41u8, 59u8, 10u8]
}

/// Appends that text to `out`.
pub fn put_iife_close(out: &mut Vec<u8>)
    ensures
        final(out)@ == old(out)@ + lit_iife_close(),
{
    out.push(10);
    out.push(125);
    out.push(41);
    out.push(59);
    out.push(10);
    proof {
        assert(old(out)@.push(10).push(125).push(41).push(59).push(10) =~= old(out)@ + lit_iife_close());
    }
}

/// The text `// Kona ESM Bundle\n`.
pub open spec fn lit_esm_l1() -> Seq<u8> {
    seq![47u8, 47u8, 32u8, 75u8, 111u8, 110u8, 97u8, 32u8, 69u8, 83u8, 77u8, 32u8, 66u8, 117u8, 110u8, 100u8, 108u8, 101u8, 10u8]
}

/// Appends that text to `out`.
pub fn put_esm_l1(out: &mut Vec<u8>)
    ensures
        final(out)@ == old(out)@ + lit_esm_l1(),
{
    out.push(47);
    out.push(47);
    out.push(32);
    out.push(75);
    out.push(111);
    out.push(110);
    out.push(97);
    out.push(32);
    out.push(69);
    out.push(83);
    out.push(77);
    out.push(32);
    out.push(66);
    out.push(117);
    out.push(110);
    out.push(100);
    out.push(108);
    out.push(101);
    out.push(10);
    proof {
        assert(old(out)@.push(47).push(47).push(32).push(75).push(111).push(110).push(97).push(32).push(69).push(83).push(77).push(32).push(66).push(117).push(110).push(100).push(108).push(101).push(10) =~= old(out)@ + lit_esm_l1());
    }
}

/// The text `const __modules = {};\n`.
pub open spec fn lit_esm_l2() -> Seq<u8> {
    seq![99u8, 111u8, 110u8, 115u8, 116u8, 32u8, 95u8, 95u8, 109u8, 111u8, 100u8, 117u8, 108u8, 101u8, 115u8, 32u8, 61u8, 32u8, 123u8, 125u8, 59u8, 10u8]
}

/// Appends that text to `out`.
pub fn put_esm_l2(out: &mut Vec<u8>)
    ensures
        final(out)@ == old(out)@ + lit_esm_l2(),
{
    out.push(99);
    out.push(111);
    out.push(110);
    out.push(115);
    out.push(116);
    out.push(32);
    out.push(95);
    out.push(95);
    out.push(109);
    out.push(111);
    out.push(100);
    out.push(117);
    out.push(108);
    out.push(101);
    out.push(115);
    out.push(32);
    out.push(61);
    out.push(32);
    out.push(123);
    out.push(125);
    out.push(59);
    out.push(10);
    proof {
        assert(old(out)@.push(99).push(111).push(110).push(115).push(116).push(32).push(95).push(95).push(109).push(111).push(100).push(117).push(108).push(101).push(115).push(32).push(61).push(32).push(123).push(125).push(59).push(10) =~= old(out)@ + lit_esm_l2());
    }
}

/// The text `const __cache = {};\n`.
pub open spec fn lit_esm_l3() -> Seq<u8> {
    seq![99u8, 111u8, 110u8, 115u8, 116u8, 32u8, 95u8, 95u8, 99u8, 97u8, 99u8, 104u8, 101u8, 32u8, 61u8, 32u8, 123u8, 125u8, 59u8, 10u8]
}

/// Appends that text to `out`.
pub fn put_esm_l3(out: &mut Vec<u8>)
    ensures
        final(out)@ == old(out)@ + lit_esm_l3(),
{
    out.push(99);
    out.push(111);
    out.push(110);
    out.push(115);
    out.push(116);
    out.push(32);
    out.push(95);
    out.push(95);
    out.push(99);
    out.push(97);
    out.push(99);
    out.push(104);
    out.push(101);
    out.push(32);
    out.push(61);
    out.push(32);
    out.push(123);
    out.push(125);
    out.push(59);
    out.push(10);
    proof {
        assert(old(out)@.push(99).push(111).push(110).push(115).push(116).push(32).push(95).push(95).push(99).push(97).push(99).push(104).push(101).push(32).push(61).push(32).push(123).push(125).push(59).push(10) =~= old(out)@ + lit_esm_l3());
    }
}

/// The text `function __require(id) {\n`.
pub open spec fn lit_esm_l4() -> Seq<u8> {
    seq![102u8, 117u8, 110u8, 99u8, 116u8, 105u8, 111u8, 110u8, 32u8, 95u8, 95u8, 114u8, 101u8, 113u8, 117u8, 105u8, 114u8, 101u8, 40u8, 105u8, 100u8, 41u8, 32u8, 123u8, 10u8]
}

/// Appends that text to `out`.
pub fn put_esm_l4(out: &mut Vec<u8>)
    ensures
        final(out)@ == old(out)@ + lit_esm_l4(),
{
    out.push(102);
    out.push(117);
    out.push(110);
    out.push(99);
    out.push(116);
    out.push(105);
    out.push(111);
    out.push(110);
    out.push(32);
    out.push(95);
    out.push(95);
    out.push(114);
    out.push(101);
    out.push(113);
    out.push(117);
    out.push(105);
    out.push(114);
    out.push(101);
    out.push(40);
    out.push(105);
    out.push(100);
    out.push(41);
    out.push(32);
    out.push(123);
    out.push(10);
    proof {
        assert(old(out)@.push(102).push(117).push(110).push(99).push(116).push(105).push(111).push(110).push(32).push(95).push(95).push(114).push(101).push(113).push(117).push(105).push(114).push(101).push(40).push(105).push(100).push(41).push(32).push(123).push(10) =~= old(out)@ + lit_esm_l4());
    }
}

/// The text `  if (__cache[id]) return __cache[id].exports;\n`.
pub open spec fn lit_esm_l5() -> Seq<u8> {
    seq![32u8, 32u8, 105u8, 102u8, 32u8, 40u8, 95u8, 95u8, 99u8, 97u8, 99u8, 104u8, 101u8, 91u8, 105u8, 100u8, 93u8, 41u8, 32u8, 114u8, 101u8, 116u8, 117u8, 114u8, 110u8, 32u8, 95u8, 95u8, 99u8, 97u8, 99u8, 104u8, 101u8, 91u8, 105u8, 100u8, 93u8, 46u8, 101u8, 120u8, 112u8, 111u8, 114u8, 116u8, 115u8, 59u8, 10u8]
}

/// Appends that text to `out`.
#[verifier::rlimit(100)]
pub fn put_esm_l5(out: &mut Vec<u8>)
    ensures
        final(out)@ == old(out)@ + lit_esm_l5(),
{
    out.push(32);
    out.push(32);
    out.push(105);
    out.push(102);
    out.push(32);
    out.push(40);
    out.push(95);
    out.push(95);
    out.push(99);
    out.push(97);
    out.push(99);
    out.push(104);
    out.push(101);
    out.push(91);
    out.push(105);
    out.push(100);
    out.push(93);
    out.push(41);
    out.push(32);
    out.push(114);
    out.push(101);
    out.push(116);
    out.push(117);
    out.push(114);
    out.push(110);
    out.push(32);
    out.push(95);
    out.push(95);
    out.push(99);
    out.push(97);
    out.push(99);
    out.push(104);
    out.push(101);
    out.push(91);
    out.push(105);
    out.push(100);
    out.push(93);
    out.push(46);
    out.push(101);
    out.push(120);
    out.push(112);
    out.push(111);
    out.push(114);
    out.push(116);
    out.push(115);
    out.push(59);
    out.push(10);
    proof {
        assert(old(out)@.push(32).push(32).push(105).push(102).push(32).push(40).push(95).push(95).push(99).push(97).push(99).push(104).push(101).push(91).push(105).push(100).push(93).push(41).push(32).push(114).push(101).push(116).push(117).push(114).push(110).push(32).push(95).push(95).push(99).push(97).push(99).push(104).push(101).push(91).push(105).push(100).push(93).push(46).push(101).push(120).push(112).push(111).push(114).push(116).push(115).push(59).push(10) =~= old(out)@ + lit_esm_l5());
    }
}

/// The text `  const m = __cache[id] = { exports: {} };\n`.
pub open spec fn lit_esm_l6() -> Seq<u8> {
    seq![32u8, 32u8, 99u8, 111u8, 110u8, 115u8, 116u8, 32u8, 109u8, 32u8, 61u8, 32u8, 95u8, 95u8, 99u8, 97u8, 99u8, 104u8, 101u8, 91u8, 105u8, 100u8, 93u8, 32u8, 61u8, 32u8, 123u8, 32u8, 101u8, 120u8, 112u8, 111u8, 114u8, 116u8, 115u8, 58u8, 32u8, 123u8, 125u8, 32u8, 125u8, 59u8, 10u8]
}

/// Appends that text to `out`.
#[verifier::rlimit(100)]
pub fn put_esm_l6(out: &mut Vec<u8>)
    ensures
        final(out)@ == old(out)@ + lit_esm_l6(),
{
    out.push(32);
    out.push(32);
    out.push(99);
    out.push(111);
    out.push(110);
    out.push(115);
    out.push(116);
    out.push(32);
    out.push(109);
    out.push(32);
    out.push(61);
    out.push(32);
    out.push(95);
    out.push(95);
    out.push(99);
    out.push(97);
    out.push(99);
    out.push(104);
    out.push(101);
    out.push(91);
    out.push(105);
    out.push(100);
    out.push(93);
    out.push(32);
    out.push(61);
    out.push(32);
    out.push(123);
    out.push(32);
    out.push(101);
    out.push(120);
    out.push(112);
    out.push(111);
    out.push(114);
    out.push(116);
    out.push(115);
    out.push(58);
    out.push(32);
    out.push(123);
    out.push(125);
    out.push(32);
    out.push(125);
    out.push(59);
    out.push(10);
    proof {
        assert(old(out)@.push(32).push(32).push(99).push(111).push(110).push(115).push(116).push(32).push(109).push(32).push(61).push(32).push(95).push(95).push(99).push(97).push(99).push(104).push(101).push(91).push(105).push(100).push(93).push(32).push(61).push(32).push(123).push(32).push(101).push(120).push(112).push(111).push(114).push(116).push(115).push(58).push(32).push(123).push(125).push(32).push(125).push(59).push(10) =~= old(out)@ + lit_esm_l6());
    }
}

/// The text `  __modules[id](m, m.exports, __require);\n`.
pub open spec fn lit_esm_l7() -> Seq<u8> {
    seq![32u8, 32u8, 95u8, 95u8, 109u8, 111u8, 100u8, 117u8, 108u8, 101u8, 115u8, 91u8, 105u8, 100u8, 93u8, 40u8, 109u8, 44u8, 32u8, 109u8, 46u8, 101u8, 120u8, 112u8, 111u8, 114u8, 116u8, 115u8, 44u8, 32u8, 95u8, 95u8, 114u8, 101u8, 113u8, 117u8, 105u8, 114u8, 101u8, 41u8, 59u8, 10u8]
}

/// Appends that text to `out`.
#[verifier::rlimit(100)]
pub fn put_esm_l7(out: &mut Vec<u8>)
    ensures
        final(out)@ == old(out)@ + lit_esm_l7(),
{
    out.push(32);
    out.push(32);
    out.push(95);
    out.push(95);
    out.push(109);
    out.push(111);
    out.push(100);
    out.push(117);
    out.push(108);
    out.push(101);
    out.push(115);
    out.push(91);
    out.push(105);
    out.push(100);
    out.push(93);
    out.push(40);
    out.push(109);
    out.push(44);
    out.push(32);
    out.push(109);
    out.push(46);
    out.push(101);
    out.push(120);
    out.push(112);
    out.push(111);
    out.push(114);
    out.push(116);
    out.push(115);
    out.push(44);
    out.push(32);
    out.push(95);
    out.push(95);
    out.push(114);
    out.push(101);
    out.push(113);
    out.push(117);
    out.push(105);
    out.push(114);
    out.push(101);
    out.push(41);
    out.push(59);
    out.push(10);
    proof {
        assert(old(out)@.push(32).push(32).push(95).push(95).push(109).push(111).push(100).push(117).push(108).push(101).push(115).push(91).push(105).push(100).push(93).push(40).push(109).push(44).push(32).push(109).push(46).push(101).push(120).push(112).push(111).push(114).push(116).push(115).push(44).push(32).push(95).push(95).push(114).push(101).push(113).push(117).push(105).push(114).push(101).push(41).push(59).push(10) =~= old(out)@ + lit_esm_l7());
    }
}

/// The text `  return m.exports;\n`.
pub open spec fn lit_esm_l8() -> Seq<u8> {
    seq![32u8, 32u8, 114u8, 101u8, 116u8, 117u8, 114u8, 110u8, 32u8, 109u8, 46u8, 101u8, 120u8, 112u8, 111u8, 114u8, 116u8, 115u8, 59u8, 10u8]
}

/// Appends that text to `out`.
pub fn put_esm_l8(out: &mut Vec<u8>)
    ensures
        final(out)@ == old(out)@ + lit_esm_l8(),
{
    out.push(32);
    out.push(32);
    out.push(114);
    out.push(101);
    out.push(116);
    out.push(117);
    out.push(114);
    out.push(110);
    out.push(32);
    out.push(109);
    out.push(46);
    out.push(101);
    out.push(120);
    out.push(112);
    out.push(111);
    out.push(114);
    out.push(116);
    out.push(115);
    out.push(59);
    out.push(10);
    proof {
        assert(old(out)@.push(32).push(32).push(114).push(101).push(116).push(117).push(114).push(110).push(32).push(109).push(46).push(101).push(120).push(112).push(111).push(114).push(116).push(115).push(59).push(10) =~= old(out)@ + lit_esm_l8());
    }
}

/// The text `}\n\n`.
pub open spec fn lit_esm_l9() -> Seq<u8> {
    seq![125u8, 10u8, 10u8]
}

/// Appends that text to `out`.
pub fn put_esm_l9(out: &mut Vec<u8>)
    ensures
        final(out)@ == old(out)@ + lit_esm_l9(),
{
    out.push(125);
    out.push(10);
    out.push(10);
    proof {
        assert(old(out)@.push(125).push(10).push(10) =~= old(out)@ + lit_esm_l9());
    }
}

/// The text `__modules[\"`.
pub open spec fn lit_mod_open() -> Seq<u8> {
    seq![95u8, 95u8, 109u8, 111u8, 100u8, 117u8, 108u8, 101u8, 115u8, 91u8, 34u8]
}

/// Appends that text to `out`.
pub fn put_mod_open(out: &mut Vec<u8>)
    ensures
        final(out)@ == old(out)@ + lit_mod_open(),
{
    out.push(95);
    out.push(95);
    out.push(109);
    out.push(111);
    out.push(100);
    out.push(117);
    out.push(108);
    out.push(101);
    out.push(115);
    out.push(91);
    out.push(34);
    proof {
        assert(old(out)@.push(95).push(95).push(109).push(111).push(100).push(117).push(108).push(101).push(115).push(91).push(34) =~= old(out)@ + lit_mod_open());
    }
}

/// The text `\"] = function(module, exports, require) {\n`.
pub open spec fn lit_mod_fn() -> Seq<u8> {
    seq![34u8, 93u8, 32u8, 61u8, 32u8, 102u8, 117u8, 110u8, 99u8, 116u8, 105u8, 111u8, 110u8, 40u8, 109u8, 111u8, 100u8, 117u8, 108u8, 101u8, 44u8, 32u8, 101u8, 120u8, 112u8, 111u8, 114u8, 116u8, 115u8, 44u8, 32u8, 114u8, 101u8, 113u8, 117u8, 105u8, 114u8, 101u8, 41u8, 32u8, 123u8, 10u8]
}

/// Appends that text to `out`.
#[verifier::rlimit(100)]
pub fn put_mod_fn(out: &mut Vec<u8>)
    ensures
        final(out)@ == old(out)@ + lit_mod_fn(),
{
    out.push(34);
    out.push(93);
    out.push(32);
    out.push(61);
    out.push(32);
    out.push(102);
    out.push(117);
    out.push(110);
    out.push(99);
    out.push(116);
    out.push(105);
    out.push(111);
    out.push(110);
    out.push(40);
    out.push(109);
    out.push(111);
    out.push(100);
    out.push(117);
    out.push(108);
    out.push(101);
    out.push(44);
    out.push(32);
    out.push(101);
    out.push(120);
    out.push(112);
    out.push(111);
    out.push(114);
    out.push(116);
    out.push(115);
    out.push(44);
    out.push(32);
    out.push(114);
    out.push(101);
    out.push(113);
    out.push(117);
    out.push(105);
    out.push(114);
    out.push(101);
    out.push(41);
    out.push(32);
    out.push(123);
    out.push(10);
    proof {
        assert(old(out)@.push(34).push(93).push(32).push(61).push(32).push(102).push(117).push(110).push(99).push(116).push(105).push(111).push(110).push(40).push(109).push(111).push(100).push(117).push(108).push(101).push(44).push(32).push(101).push(120).push(112).push(111).push(114).push(116).push(115).push(44).push(32).push(114).push(101).push(113).push(117).push(105).push(114).push(101).push(41).push(32).push(123).push(10) =~= old(out)@ + lit_mod_fn());
    }
}

/// The text `\n};\n\n`.
pub open spec fn lit_mod_close() -> Seq<u8> {
    seq![10u8, 125u8, 59u8, 10u8, 10u8]
}

/// Appends that text to `out`.
pub fn put_mod_close(out: &mut Vec<u8>)
    ensures
        final(out)@ == old(out)@ + lit_mod_close(),
{
    out.push(10);
    out.push(125);
    out.push(59);
    out.push(10);
    out.push(10);
    proof {
        assert(old(out)@.push(10).push(125).push(59).push(10).push(10) =~= old(out)@ + lit_mod_close());
    }
}

/// The text `__require(\"`.
pub open spec fn lit_esm_entry_open() -> Seq<u8> {
    seq![95u8, 95u8, 114u8, 101u8, 113u8, 117u8, 105u8, 114u8, 101u8, 40u8, 34u8]
}

/// Appends that text to `out`.
pub fn put_esm_entry_open(out: &mut Vec<u8>)
    ensures
        final(out)@ == old(out)@ + lit_esm_entry_open(),
{
    out.push(95);
    out.push(95);
    out.push(114);
    out.push(101);
    out.push(113);
    out.push(117);
    out.push(105);
    out.push(114);
    out.push(101);
    out.push(40);
    out.push(34);
    proof {
        assert(old(out)@.push(95).push(95).push(114).push(101).push(113).push(117).push(105).push(114).push(101).push(40).push(34) =~= old(out)@ + lit_esm_entry_open());
    }
}

/// The text `// Kona CJS Bundle\n`.
pub open spec fn lit_cjs_l1() -> Seq<u8> {
    seq![47u8, 47u8, 32u8, 75u8, 111u8, 110u8, 97u8, 32u8, 67u8, 74u8, 83u8, 32u8, 66u8, 117u8, 110u8, 100u8, 108u8, 101u8, 10u8]
}

/// Appends that text to `out`.
pub fn put_cjs_l1(out: &mut Vec<u8>)
    ensures
        final(out)@ == old(out)@ + lit_cjs_l1(),
{
    out.push(47);
    out.push(47);
    out.push(32);
    out.push(75);
    out.push(111);
    out.push(110);
    out.push(97);
    out.push(32);
    out.push(67);
    out.push(74);
    out.push(83);
    out.push(32);
    out.push(66);
    out.push(117);
    out.push(110);
    out.push(100);
    out.push(108);
    out.push(101);
    out.push(10);
    proof {
        assert(old(out)@.push(47).push(47).push(32).push(75).push(111).push(110).push(97).push(32).push(67).push(74).push(83).push(32).push(66).push(117).push(110).push(100).push(108).push(101).push(10) =~= old(out)@ + lit_cjs_l1());
    }
}

/// The text `\"use strict\";\n`.
pub open spec fn lit_cjs_l2() -> Seq<u8> {
    seq![34u8, 117u8, 115u8, 101u8, 32u8, 115u8, 116u8, 114u8, 105u8, 99u8, 116u8, 34u8, 59u8, 10u8]
}

/// Appends that text to `out`.
pub fn put_cjs_l2(out: &mut Vec<u8>)
    ensures
        final(out)@ == old(out)@ + lit_cjs_l2(),
{
    out.push(34);
    out.push(117);
    out.push(115);
    out.push(101);
    out.push(32);
    out.push(115);
    out.push(116);
    out.push(114);
    out.push(105);
    out.push(99);
    out.push(116);
    out.push(34);
    out.push(59);
    out.push(10);
    proof {
        assert(old(out)@.push(34).push(117).push(115).push(101).push(32).push(115).push(116).push(114).push(105).push(99).push(116).push(34).push(59).push(10) =~= old(out)@ + lit_cjs_l2());
    }
}

/// The text `var __modules = {};\n`.
pub open spec fn lit_cjs_l3() -> Seq<u8> {
    seq![118u8, 97u8, 114u8, 32u8, 95u8, 95u8, 109u8, 111u8, 100u8, 117u8, 108u8, 101u8, 115u8, 32u8, 61u8, 32u8, 123u8, 125u8, 59u8, 10u8]
}

/// Appends that text to `out`.
pub fn put_cjs_l3(out: &mut Vec<u8>)
    ensures
        final(out)@ == old(out)@ + lit_cjs_l3(),
{
    out.push(118);
    out.push(97);
    out.push(114);
    out.push(32);
    out.push(95);
    out.push(95);
    out.push(109);
    out.push(111);
    out.push(100);
    out.push(117);
    out.push(108);
    out.push(101);
    out.push(115);
    out.push(32);
    out.push(61);
    out.push(32);
    out.push(123);
    out.push(125);
    out.push(59);
    out.push(10);
    proof {
        assert(old(out)@.push(118).push(97).push(114).push(32).push(95).push(95).push(109).push(111).push(100).push(117).push(108).push(101).push(115).push(32).push(61).push(32).push(123).push(125).push(59).push(10) =~= old(out)@ + lit_cjs_l3());
    }
}

/// The text `var __cache = {};\n`.
pub open spec fn lit_cjs_l4() -> Seq<u8> {
    seq![118u8, 97u8, 114u8, 32u8, 95u8, 95u8, 99u8, 97u8, 99u8, 104u8, 101u8, 32u8, 61u8, 32u8, 123u8, 125u8, 59u8, 10u8]
}

/// Appends that text to `out`.
pub fn put_cjs_l4(out: &mut Vec<u8>)
    ensures
        final(out)@ == old(out)@ + lit_cjs_l4(),
{
    out.push(118);
    out.push(97);
    out.push(114);
    out.push(32);
    out.push(95);
    out.push(95);
    out.push(99);
    out.push(97);
    out.push(99);
    out.push(104);
    out.push(101);
    out.push(32);
    out.push(61);
    out.push(32);
    out.push(123);
    out.push(125);
    out.push(59);
    out.push(10);
    proof {
        assert(old(out)@.push(118).push(97).push(114).push(32).push(95).push(95).push(99).push(97).push(99).push(104).push(101).push(32).push(61).push(32).push(123).push(125).push(59).push(10) =~= old(out)@ + lit_cjs_l4());
    }
}

/// The text `  var m = __cache[id] = { exports: {} };\n`.
pub open spec fn lit_cjs_l6() -> Seq<u8> {
    seq![32u8, 32u8, 118u8, 97u8, 114u8, 32u8, 109u8, 32u8, 61u8, 32u8, 95u8, 95u8, 99u8, 97u8, 99u8, 104u8, 101u8, 91u8, 105u8, 100u8, 93u8, 32u8, 61u8, 32u8, 123u8, 32u8, 101u8, 120u8, 112u8, 111u8, 114u8, 116u8, 115u8, 58u8, 32u8, 123u8, 125u8, 32u8, 125u8, 59u8, 10u8]
}

/// Appends that text to `out`.
#[verifier::rlimit(100)]
pub fn put_cjs_l6(out: &mut Vec<u8>)
    ensures
        final(out)@ == old(out)@ + lit_cjs_l6(),
{
    out.push(32);
    out.push(32);
    out.push(118);
    out.push(97);
    out.push(114);
    out.push(32);
    out.push(109);
    out.push(32);
    out.push(61);
    out.push(32);
    out.push(95);
    out.push(95);
    out.push(99);
    out.push(97);
    out.push(99);
    out.push(104);
    out.push(101);
    out.push(91);
    out.push(105);
    out.push(100);
    out.push(93);
    out.push(32);
    out.push(61);
    out.push(32);
    out.push(123);
    out.push(32);
    out.push(101);
    out.push(120);
    out.push(112);
    out.push(111);
    out.push(114);
    out.push(116);
    out.push(115);
    out.push(58);
    out.push(32);
    out.push(123);
    out.push(125);
    out.push(32);
    out.push(125);
    out.push(59);
    out.push(10);
    proof {
        assert(old(out)@.push(32).push(32).push(118).push(97).push(114).push(32).push(109).push(32).push(61).push(32).push(95).push(95).push(99).push(97).push(99).push(104).push(101).push(91).push(105).push(100).push(93).push(32).push(61).push(32).push(123).push(32).push(101).push(120).push(112).push(111).push(114).push(116).push(115).push(58).push(32).push(123).push(125).push(32).push(125).push(59).push(10) =~= old(out)@ + lit_cjs_l6());
    }
}

/// The text `module.exports = __require(\"`.
pub open spec fn lit_cjs_export_open() -> Seq<u8> {
    seq![109u8, 111u8, 100u8, 117u8, 108u8, 101u8, 46u8, 101u8, 120u8, 112u8, 111u8, 114u8, 116u8, 115u8, 32u8, 61u8, 32u8, 95u8, 95u8, 114u8, 101u8, 113u8, 117u8, 105u8, 114u8, 101u8, 40u8, 34u8]
}

/// Appends that text to `out`.
pub fn put_cjs_export_open(out: &mut Vec<u8>)
    ensures
        final(out)@ == old(out)@ + lit_cjs_export_open(),
{
    out.push(109);
    out.push(111);
    out.push(100);
    out.push(117);
    out.push(108);
    out.push(101);
    out.push(46);
    out.push(101);
    out.push(120);
    out.push(112);
    out.push(111);
    out.push(114);
    out.push(116);
    out.push(115);
    out.push(32);
    out.push(61);
    out.push(32);
    out.push(95);
    out.push(95);
    out.push(114);
    out.push(101);
    out.push(113);
    out.push(117);
    out.push(105);
    out.push(114);
    out.push(101);
    out.push(40);
    out.push(34);
    proof {
        assert(old(out)@.push(109).push(111).push(100).push(117).push(108).push(101).push(46).push(101).push(120).push(112).push(111).push(114).push(116).push(115).push(32).push(61).push(32).push(95).push(95).push(114).push(101).push(113).push(117).push(105).push(114).push(101).push(40).push(34) =~= old(out)@ + lit_cjs_export_open());
    }
}

/// The text `esm`.
pub open spec fn lit_fmt_esm() -> Seq<u8> {
    seq![101u8, 115u8, 109u8]
}

/// Appends that text to `out`.
pub fn put_fmt_esm(out: &mut Vec<u8>)
    ensures
        final(out)@ == old(out)@ + lit_fmt_esm(),
{
    out.push(101);
    out.push(115);
    out.push(109);
    proof {
        assert(old(out)@.push(101).push(115).push(109) =~= old(out)@ + lit_fmt_esm());
    }
}

/// The text `cjs`.
pub open spec fn lit_fmt_cjs() -> Seq<u8> {
    seq![99u8, 106u8, 115u8]
}

/// Appends that text to `out`.
pub fn put_fmt_cjs(out: &mut Vec<u8>)
    ensures
        final(out)@ == old(out)@ + lit_fmt_cjs(),
{
    out.push(99);
    out.push(106);
    out.push(115);
    proof {
        assert(old(out)@.push(99).push(106).push(115) =~= old(out)@ + lit_fmt_cjs());
    }
}

/// The text `iife`.
pub open spec fn lit_fmt_iife() -> Seq<u8> {
    seq![105u8, 105u8, 102u8, 101u8]
}

/// Appends that text to `out`.
pub fn put_fmt_iife(out: &mut Vec<u8>)
    ensures
        final(out)@ == old(out)@ + lit_fmt_iife(),
{
    out.push(105);
    out.push(105);
    out.push(102);
    out.push(101);
    proof {
        assert(old(out)@.push(105).push(105).push(102).push(101) =~= old(out)@ + lit_fmt_iife());
    }
}

/// The text `,`.
pub open spec fn lit_comma1() -> Seq<u8> {
    seq![44u8]
}

/// Appends that text to `out`.
pub fn put_comma1(out: &mut Vec<u8>)
    ensures
        final(out)@ == old(out)@ + lit_comma1(),
{
    out.push(44);
    proof {
        assert(old(out)@.push(44) =~= old(out)@ + lit_comma1());
    }
}

} // verus!
