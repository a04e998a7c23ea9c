//! The bundle generator: wraps already-transformed module bodies into a
//! runtime loader shell in one of three formats (`iife`, `esm`, `cjs`),
//! with entry points required at the end and an optional whitespace/comment
//! collapse over the finished bundle.

use vstd::prelude::*;
use crate::{is_quote, is_ws, B_BACKSLASH, B_CR, B_DQUOTE, B_NL, spec_is_quote, spec_is_ws};
use crate::scan::{lemma_str_lit_len_bound, lemma_ws_run_bound, push_range, scan_str_lit, scan_ws,
    str_lit_len, ws_run};
use crate::transformer::{qm_line_from, qm_line_pass};
use crate::bundler_text::{lit_cjs_export_open, lit_cjs_l1, lit_cjs_l2, lit_cjs_l3, lit_cjs_l4,
    lit_cjs_l6, lit_comma1, lit_entry_close, lit_esm_entry_open, lit_esm_l1, lit_esm_l2,
    lit_esm_l3, lit_esm_l4, lit_esm_l5, lit_esm_l6, lit_esm_l7, lit_esm_l8, lit_esm_l9,
    lit_fmt_cjs, lit_fmt_esm, lit_fmt_iife, lit_iife_close, lit_iife_entry_open, lit_iife_l1,
    lit_iife_l2, lit_iife_l3, lit_iife_l4, lit_iife_l5, lit_iife_l6, lit_iife_l7, lit_iife_l8,
    lit_iife_l9, lit_iife_mod_fn, lit_iife_table_open, lit_mod_close, lit_mod_fn, lit_mod_open,
    lit_nl_quote, lit_nl_rbrace, put_cjs_export_open, put_cjs_l1, put_cjs_l2, put_cjs_l3,
    put_cjs_l4, put_cjs_l6, put_comma1, put_entry_close, put_esm_entry_open, put_esm_l1,
    put_esm_l2, put_esm_l3, put_esm_l4, put_esm_l5, put_esm_l6, put_esm_l7, put_esm_l8, put_esm_l9,
    put_fmt_iife, put_iife_close, put_iife_entry_open, put_iife_l1, put_iife_l2, put_iife_l3,
    put_iife_l4, put_iife_l5, put_iife_l6, put_iife_l7, put_iife_l8, put_iife_l9, put_iife_mod_fn,
    put_iife_table_open, put_mod_close, put_mod_fn, put_mod_open, put_nl_quote, put_nl_rbrace};

verus! {

/// One module handed to the bundler: its id, its already-transformed code,
/// and whether it is an entry point.
pub struct ModuleInfo {
    pub id: Vec<u8>,
    pub code: Vec<u8>,
    pub is_entry: bool,
}

/// The mathematical counterpart of `ModuleInfo`.
pub ghost struct ModView {
    pub id: Seq<u8>,
    pub code: Seq<u8>,
    pub is_entry: bool,
}

impl View for ModuleInfo {
    type V = ModView;

    open spec fn view(&self) -> ModView {
        ModView { id: self.id@, code: self.code@, is_entry: self.is_entry }
    }
}

/// Bundle configuration: the output format name and whether to collapse
/// the finished bundle.
#[derive(Debug, Clone)]
pub struct BundleOptions {
    pub format: Vec<u8>,
    pub minify: bool,
}

impl Default for BundleOptions {
    /// Format `iife`, minify off.
    fn default() -> (r: BundleOptions)
        ensures
            r.format@ == lit_fmt_iife(),
            r.minify == false,
    {
        let mut f: Vec<u8> = Vec::new();
        put_fmt_iife(&mut f);
        proof {
            assert(f@ =~= lit_fmt_iife());
        }
        BundleOptions { format: f, minify: false }
    }
}

/// One byte of a module id escaped for a JavaScript string literal:
/// backslash, double quote, newline, and carriage return get escapes.
pub open spec fn besc_byte(b: u8) -> Seq<u8> {
    if b == B_BACKSLASH {
        seq![B_BACKSLASH, B_BACKSLASH]
    } else if b == B_DQUOTE {
        seq![B_BACKSLASH, B_DQUOTE]
    } else if b == B_NL {
        seq![B_BACKSLASH, 110u8]
    } else if b == B_CR {
        seq![B_BACKSLASH, 114u8]
    } else {
        seq![b]
    }
}

/// The text from `k` on with every byte escaped for a string literal.
pub open spec fn besc_from(t: Seq<u8>, k: int) -> Seq<u8>
    decreases t.len() - k,
{
    if k < 0 || k >= t.len() {
        Seq::empty()
    } else {
        besc_byte(t[k]) + besc_from(t, k + 1)
    }
}

/// Copies `t` with string-literal escaping applied.
pub fn escape_string(t: &[u8]) -> (r: Vec<u8>)
    ensures
        r@ == besc_from(t@, 0),
{
    let mut r: Vec<u8> = Vec::new();
    let mut k: usize = 0;
    proof {
        assert(r@ + besc_from(t@, 0) =~= besc_from(t@, 0));
    }
    loop
        invariant
            k <= t@.len(),
            besc_from(t@, 0) == r@ + besc_from(t@, k as int),
        decreases t@.len() - k,
    {
        let ghost r0 = r@;
        if k >= t.len() {
            proof {
                assert(r@ + besc_from(t@, k as int) =~= r@);
            }
            return r;
        }
        let b = t[k];
        if b == B_BACKSLASH {
            r.push(B_BACKSLASH);
            r.push(B_BACKSLASH);
        } else if b == B_DQUOTE {
            r.push(B_BACKSLASH);
            r.push(B_DQUOTE);
        } else if b == B_NL {
            r.push(B_BACKSLASH);
            r.push(110);
        } else if b == B_CR {
            r.push(B_BACKSLASH);
            r.push(114);
        } else {
            r.push(b);
        }
        proof {
            assert(r@ =~= r0 + besc_byte(t@[k as int]));
            assert((r0 + besc_byte(t@[k as int])) + besc_from(t@, k + 1) =~= r0 + (besc_byte(
                t@[k as int],
            ) + besc_from(t@, k + 1)));
        }
        k = k + 1;
    }
}

/// The `require` lines of the entry points, from module `k` on.
pub open spec fn iife_entries(mods: Seq<ModView>, k: int) -> Seq<u8>
    decreases mods.len() - k,
{
    if k < 0 || k >= mods.len() {
        Seq::empty()
    } else if mods[k].is_entry {
        lit_iife_entry_open() + besc_from(mods[k].id, 0) + lit_entry_close() + iife_entries(
            mods,
            k + 1,
        )
    } else {
        iife_entries(mods, k + 1)
    }
}

/// The module-table entries, from module `k` on, comma-separated.
pub open spec fn iife_mods(mods: Seq<ModView>, k: int) -> Seq<u8>
    decreases mods.len() - k,
{
    if k < 0 || k >= mods.len() {
        Seq::empty()
    } else {
        (if k > 0 {
            lit_comma1()
        } else {
            Seq::empty()
        }) + lit_nl_quote() + besc_from(mods[k].id, 0) + lit_iife_mod_fn() + mods[k].code
            + lit_nl_rbrace() + iife_mods(mods, k + 1)
    }
}

/// The complete `iife` bundle.
pub open spec fn iife_bundle(mods: Seq<ModView>) -> Seq<u8> {
    lit_iife_l1() + lit_iife_l2() + lit_iife_l3() + lit_iife_l4() + lit_iife_l5() + lit_iife_l6()
        + lit_iife_l7() + lit_iife_l8() + lit_iife_l9() + iife_entries(mods, 0)
        + lit_iife_table_open() + iife_mods(mods, 0) + lit_iife_close()
}

/// The module registrations of the `esm` and `cjs` shells, from `k` on.
pub open spec fn esm_mods(mods: Seq<ModView>, k: int) -> Seq<u8>
    decreases mods.len() - k,
{
    if k < 0 || k >= mods.len() {
        Seq::empty()
    } else {
        lit_mod_open() + besc_from(mods[k].id, 0) + lit_mod_fn() + mods[k].code + lit_mod_close()
            + esm_mods(mods, k + 1)
    }
}

/// The `__require` lines of the entry points, from `k` on.
pub open spec fn esm_entries(mods: Seq<ModView>, k: int) -> Seq<u8>
    decreases mods.len() - k,
{
    if k < 0 || k >= mods.len() {
        Seq::empty()
    } else if mods[k].is_entry {
        lit_esm_entry_open() + besc_from(mods[k].id, 0) + lit_entry_close() + esm_entries(
            mods,
            k + 1,
        )
    } else {
        esm_entries(mods, k + 1)
    }
}

/// The complete `esm` bundle.
pub open spec fn esm_bundle(mods: Seq<ModView>) -> Seq<u8> {
    lit_esm_l1() + lit_esm_l2() + lit_esm_l3() + lit_esm_l4() + lit_esm_l5() + lit_esm_l6()
        + lit_esm_l7() + lit_esm_l8() + lit_esm_l9() + esm_mods(mods, 0) + esm_entries(mods, 0)
}

/// The id of the first entry point at or after `k`, if any.
pub open spec fn first_entry(mods: Seq<ModView>, k: int) -> Option<Seq<u8>>
    decreases mods.len() - k,
{
    if k < 0 || k >= mods.len() {
        None
    } else if mods[k].is_entry {
        Some(mods[k].id)
    } else {
        first_entry(mods, k + 1)
    }
}

/// The export line of the `cjs` shell, if an entry point exists.
pub open spec fn cjs_export(mods: Seq<ModView>) -> Seq<u8> {
    match first_entry(mods, 0) {
        Some(id) => lit_cjs_export_open() + besc_from(id, 0) + lit_entry_close(),
        None => Seq::empty(),
    }
}

/// The complete `cjs` bundle.
pub open spec fn cjs_bundle(mods: Seq<ModView>) -> Seq<u8> {
    lit_cjs_l1() + lit_cjs_l2() + lit_cjs_l3() + lit_cjs_l4() + lit_esm_l4() + lit_esm_l5()
        + lit_cjs_l6() + lit_esm_l7() + lit_esm_l8() + lit_esm_l9() + esm_mods(mods, 0)
        + cjs_export(mods)
}

/// The bundle minify pass from `i`: string literals pass through verbatim,
/// every whitespace run outside them collapses to one space.
pub open spec fn bundle_min_from(s: Seq<u8>, i: int) -> Seq<u8>
    decreases s.len() - i,
{
    if i < 0 || i >= s.len() {
        Seq::empty()
    } else if spec_is_quote(s[i]) {
        proof {
            lemma_str_lit_len_bound(s, s[i], i + 1);
        }
        let e = i + 1 + str_lit_len(s, s[i], i + 1);
        s.subrange(i, e) + bundle_min_from(s, e)
    } else if spec_is_ws(s[i]) {
        proof {
            lemma_ws_run_bound(s, i);
            assert(ws_run(s, i) >= 1);
        }
        seq![32u8] + bundle_min_from(s, i + ws_run(s, i))
    } else {
        seq![s[i]] + bundle_min_from(s, i + 1)
    }
}

/// The finished-bundle collapse: line comments stripped, then whitespace
/// collapsed outside string literals.
pub open spec fn min_output(s: Seq<u8>) -> Seq<u8> {
    bundle_min_from(qm_line_from(s, 0), 0)
}

fn bundle_min_pass(s: &[u8]) -> (r: Vec<u8>)
    ensures
        r@ == bundle_min_from(s@, 0),
{
    let mut out: Vec<u8> = Vec::new();
    let mut i: usize = 0;
    loop
        invariant
            i <= s@.len(),
            bundle_min_from(s@, 0) == out@ + bundle_min_from(s@, i as int),
        decreases s@.len() - i,
    {
        let ghost o0 = out@;
        if i >= s.len() {
            proof {
                assert(out@ + bundle_min_from(s@, i as int) =~= out@);
            }
            return out;
        }
        let b = s[i];
        if is_quote(b) {
            let (e, _c) = scan_str_lit(s, b, i + 1);
            push_range(&mut out, s, i, e);
            proof {
                assert(o0 + (s@.subrange(i as int, e as int) + bundle_min_from(s@, e as int)) =~= (
                o0 + s@.subrange(i as int, e as int)) + bundle_min_from(s@, e as int));
            }
            i = e;
            continue;
        }
        if is_ws(b) {
            let j = scan_ws(s, i);
            out.push(32);
            proof {
                assert(o0.push(32u8) =~= o0 + seq![32u8]);
                assert(o0 + (seq![32u8] + bundle_min_from(s@, j as int)) =~= (o0 + seq![32u8])
                    + bundle_min_from(s@, j as int));
            }
            i = j;
            continue;
        }
        out.push(b);
        proof {
            assert(o0.push(b) =~= o0 + seq![b]);
            assert(o0 + (seq![b] + bundle_min_from(s@, i + 1)) =~= (o0 + seq![b])
                + bundle_min_from(s@, i + 1));
        }
        i = i + 1;
    }
}

/// Collapses the finished bundle in place.
pub fn minify_output(output: &mut Vec<u8>)
    ensures
        final(output)@ == min_output(old(output)@),
{
    let a = qm_line_pass(output.as_slice());
    let b = bundle_min_pass(a.as_slice());
    *output = b;
}

/// Appends the `iife` shell for the modules to `output`.
pub fn generate_iife(output: &mut Vec<u8>, modules: &Vec<ModuleInfo>)
    ensures
        final(output)@ == old(output)@ + iife_bundle(modules@.map_values(|m: ModuleInfo| m@)),
{
    let ghost mv = modules@.map_values(|m: ModuleInfo| m@);
    put_iife_l1(output);
    put_iife_l2(output);
    put_iife_l3(output);
    put_iife_l4(output);
    put_iife_l5(output);
    put_iife_l6(output);
    put_iife_l7(output);
    put_iife_l8(output);
    put_iife_l9(output);
    let ghost base = output@;
    let mut k: usize = 0;
    while k < modules.len()
        invariant
            k <= modules@.len(),
            mv == modules@.map_values(|m: ModuleInfo| m@),
            base + iife_entries(mv, 0) == output@ + iife_entries(mv, k as int),
        decreases modules@.len() - k,
    {
        let ghost o0 = output@;
        let m = &modules[k];
        if m.is_entry {
            put_iife_entry_open(output);
            let id = escape_string(m.id.as_slice());
            push_range(output, id.as_slice(), 0, id.len());
            put_entry_close(output);
            proof {
                assert(o0 + (lit_iife_entry_open() + besc_from(mv[k as int].id, 0)
                    + lit_entry_close() + iife_entries(mv, k + 1)) =~= output@ + iife_entries(
                    mv,
                    k + 1,
                ));
            }
        }
        k = k + 1;
    }
    proof {
        assert(output@ + iife_entries(mv, modules@.len() as int) =~= output@);
    }
    put_iife_table_open(output);
    let ghost base2 = output@;
    let mut k2: usize = 0;
    while k2 < modules.len()
        invariant
            k2 <= modules@.len(),
            mv == modules@.map_values(|m: ModuleInfo| m@),
            base2 + iife_mods(mv, 0) == output@ + iife_mods(mv, k2 as int),
        decreases modules@.len() - k2,
    {
        let ghost o0 = output@;
        let m = &modules[k2];
        if k2 > 0 {
            put_comma1(output);
        }
        put_nl_quote(output);
        let id = escape_string(m.id.as_slice());
        push_range(output, id.as_slice(), 0, id.len());
        put_iife_mod_fn(output);
        push_range(output, m.code.as_slice(), 0, m.code.len());
        put_nl_rbrace(output);
        proof {
            assert(o0 + ((if k2 > 0 {
                lit_comma1()
            } else {
                Seq::<u8>::empty()
            }) + lit_nl_quote() + besc_from(mv[k2 as int].id, 0) + lit_iife_mod_fn()
                + mv[k2 as int].code + lit_nl_rbrace() + iife_mods(mv, k2 + 1)) =~= output@
                + iife_mods(mv, k2 + 1));
        }
        k2 = k2 + 1;
    }
    proof {
        assert(output@ + iife_mods(mv, modules@.len() as int) =~= output@);
    }
    put_iife_close(output);
    proof {
        assert(output@ =~= old(output)@ + iife_bundle(mv));
    }
}

/// Appends the `esm` shell for the modules to `output`.
pub fn generate_esm(output: &mut Vec<u8>, modules: &Vec<ModuleInfo>)
    ensures
        final(output)@ == old(output)@ + esm_bundle(modules@.map_values(|m: ModuleInfo| m@)),
{
    let ghost mv = modules@.map_values(|m: ModuleInfo| m@);
    put_esm_l1(output);
    put_esm_l2(output);
    put_esm_l3(output);
    put_esm_l4(output);
    put_esm_l5(output);
    put_esm_l6(output);
    put_esm_l7(output);
    put_esm_l8(output);
    put_esm_l9(output);
    let ghost base = output@;
    let mut k: usize = 0;
    while k < modules.len()
        invariant
            k <= modules@.len(),
            mv == modules@.map_values(|m: ModuleInfo| m@),
            base + esm_mods(mv, 0) == output@ + esm_mods(mv, k as int),
        decreases modules@.len() - k,
    {
        let ghost o0 = output@;
        let m = &modules[k];
        put_mod_open(output);
        let id = escape_string(m.id.as_slice());
        push_range(output, id.as_slice(), 0, id.len());
        put_mod_fn(output);
        push_range(output, m.code.as_slice(), 0, m.code.len());
        put_mod_close(output);
        proof {
            assert(o0 + (lit_mod_open() + besc_from(mv[k as int].id, 0) + lit_mod_fn()
                + mv[k as int].code + lit_mod_close() + esm_mods(mv, k + 1)) =~= output@
                + esm_mods(mv, k + 1));
        }
        k = k + 1;
    }
    proof {
        assert(output@ + esm_mods(mv, modules@.len() as int) =~= output@);
    }
    let ghost base2 = output@;
    let mut k2: usize = 0;
    while k2 < modules.len()
        invariant
            k2 <= modules@.len(),
            mv == modules@.map_values(|m: ModuleInfo| m@),
            base2 + esm_entries(mv, 0) == output@ + esm_entries(mv, k2 as int),
        decreases modules@.len() - k2,
    {
        let ghost o0 = output@;
        let m = &modules[k2];
        if m.is_entry {
            put_esm_entry_open(output);
            let id = escape_string(m.id.as_slice());
            push_range(output, id.as_slice(), 0, id.len());
            put_entry_close(output);
            proof {
                assert(o0 + (lit_esm_entry_open() + besc_from(mv[k2 as int].id, 0)
                    + lit_entry_close() + esm_entries(mv, k2 + 1)) =~= output@ + esm_entries(
                    mv,
                    k2 + 1,
                ));
            }
        }
        k2 = k2 + 1;
    }
    proof {
        assert(output@ + esm_entries(mv, modules@.len() as int) =~= output@);
        assert(output@ =~= old(output)@ + esm_bundle(mv));
    }
}

/// Appends the `cjs` shell for the modules to `output`.
pub fn generate_cjs(output: &mut Vec<u8>, modules: &Vec<ModuleInfo>)
    ensures
        final(output)@ == old(output)@ + cjs_bundle(modules@.map_values(|m: ModuleInfo| m@)),
{
    let ghost mv = modules@.map_values(|m: ModuleInfo| m@);
    put_cjs_l1(output);
    put_cjs_l2(output);
    put_cjs_l3(output);
    put_cjs_l4(output);
    put_esm_l4(output);
    put_esm_l5(output);
    put_cjs_l6(output);
    put_esm_l7(output);
    put_esm_l8(output);
    put_esm_l9(output);
    let ghost base = output@;
    let mut k: usize = 0;
    while k < modules.len()
        invariant
            k <= modules@.len(),
            mv == modules@.map_values(|m: ModuleInfo| m@),
            base + esm_mods(mv, 0) == output@ + esm_mods(mv, k as int),
        decreases modules@.len() - k,
    {
        let ghost o0 = output@;
        let m = &modules[k];
        put_mod_open(output);
        let id = escape_string(m.id.as_slice());
        push_range(output, id.as_slice(), 0, id.len());
        put_mod_fn(output);
        push_range(output, m.code.as_slice(), 0, m.code.len());
        put_mod_close(output);
        proof {
            assert(o0 + (lit_mod_open() + besc_from(mv[k as int].id, 0) + lit_mod_fn()
                + mv[k as int].code + lit_mod_close() + esm_mods(mv, k + 1)) =~= output@
                + esm_mods(mv, k + 1));
        }
        k = k + 1;
    }
    proof {
        assert(output@ + esm_mods(mv, modules@.len() as int) =~= output@);
    }
    match find_first_entry(modules) {
        Some(k) => {
            let ghost o0 = output@;
            let m = &modules[k];
            put_cjs_export_open(output);
            let id = escape_string(m.id.as_slice());
            push_range(output, id.as_slice(), 0, id.len());
            put_entry_close(output);
            proof {
                assert(output@ =~= o0 + cjs_export(mv));
            }
        },
        None => {
            proof {
                assert(cjs_export(mv) =~= Seq::<u8>::empty());
            }
        },
    }
    proof {
        assert(output@ =~= old(output)@ + cjs_bundle(mv));
    }
}

/// Finds the first entry-point module, if any.
fn find_first_entry(modules: &Vec<ModuleInfo>) -> (r: Option<usize>)
    ensures
        ({
            let mv = modules@.map_values(|m: ModuleInfo| m@);
            match r {
                Some(k) => k < modules@.len() && first_entry(mv, 0) == Some(mv[k as int].id)
                    && mv[k as int].is_entry,
                None => first_entry(mv, 0) is None,
            }
        }),
{
    let ghost mv = modules@.map_values(|m: ModuleInfo| m@);
    let mut k: usize = 0;
    loop
        invariant
            k <= modules@.len(),
            mv == modules@.map_values(|m: ModuleInfo| m@),
            first_entry(mv, 0) == first_entry(mv, k as int),
        decreases modules@.len() - k,
    {
        if k >= modules.len() {
            return None;
        }
        if modules[k].is_entry {
            return Some(k);
        }
        k = k + 1;
    }
}

/// Generates the bundle for the modules in the configured format, with the
/// optional collapse applied last.
pub fn generate_bundle_internal(modules: &Vec<ModuleInfo>, options: &BundleOptions) -> (r: Vec<u8>)
    ensures
        ({
            let mv = modules@.map_values(|m: ModuleInfo| m@);
            let base = if options.format@ == lit_fmt_esm() {
                esm_bundle(mv)
            } else if options.format@ == lit_fmt_cjs() {
                cjs_bundle(mv)
            } else {
                iife_bundle(mv)
            };
            r@ == if options.minify {
                min_output(base)
            } else {
                base
            }
        }),
{
    let f = &options.format;
    let is_esm = f.len() == 3 && f[0] == 101 && f[1] == 115 && f[2] == 109;
    let is_cjs = f.len() == 3 && f[0] == 99 && f[1] == 106 && f[2] == 115;
    proof {
        if is_esm {
            assert(f@ =~= lit_fmt_esm());
        } else {
            assert(f@ != lit_fmt_esm());
        }
        if is_cjs {
            assert(f@ =~= lit_fmt_cjs());
        } else {
            assert(f@ != lit_fmt_cjs());
        }
    }
    let mut output: Vec<u8> = Vec::new();
    if is_esm {
        generate_esm(&mut output, modules);
    } else if is_cjs {
        generate_cjs(&mut output, modules);
    } else {
        generate_iife(&mut output, modules);
    }
    if options.minify {
        minify_output(&mut output);
    }
    output
}

} // verus!
