//! The pipeline orchestrator: decides from the filename suffix which passes
//! run, sequences type erasure, JSX rewriting, the automatic-runtime import
//! injection, and the optional quick minify, and reports what fired.

use vstd::prelude::*;
use crate::{B_SLASH, B_STAR};
use crate::scan::{block_close_off, lemma_block_close_bound, lemma_line_rest_bound, line_rest,
    push_range, scan_block_close, scan_line};
use crate::emit::{is_trim_ws, check_trim_ws, lit_import_line_head, lit_import_line_tail,
    put_import_line_head, put_import_line_tail, trim_copy, trim_range};
use crate::eraser::{erase_from, remove_typescript_types};
use crate::jsx::{jsx_pass, tj_from};

verus! {

/// The JSX call convention a transform compiles to.
#[derive(Debug, Clone, Copy, PartialEq, Eq, Structural)]
pub enum JsxRuntime {
    Classic,
    Automatic,
}

/// The ECMAScript version a transform is asked to target; carried through
/// for a full syntax-tree minifier, not interpreted by these passes.
#[derive(Debug, Clone, Copy, PartialEq, Eq, Structural)]
pub enum Target {
    ES2020,
    ES2021,
    ES2022,
    ESNext,
}

/// Transform configuration.
#[derive(Debug, Clone)]
pub struct TransformOptions {
    pub jsx_runtime: JsxRuntime,
    pub jsx_import_source: Vec<u8>,
    pub remove_types: bool,
    pub minify: bool,
    pub target: Target,
}

/// The default module specifier the automatic-runtime import comes from.
pub open spec fn default_import_source() -> Seq<u8> {
    seq![114u8, 101u8, 97u8, 99u8, 116u8]
}

/// The word `classic`.
pub open spec fn lit_classic() -> Seq<u8> {
    seq![99u8, 108u8, 97u8, 115u8, 115u8, 105u8, 99u8]
}

impl Default for TransformOptions {
    /// Automatic runtime, source `react`, types removed, minify off.
    fn default() -> (r: TransformOptions)
        ensures
            r.jsx_runtime == JsxRuntime::Automatic,
            r.jsx_import_source@ == default_import_source(),
            r.remove_types == true,
            r.minify == false,
            r.target == Target::ES2020,
    {
        let mut src: Vec<u8> = Vec::new();
        src.push(114);
        src.push(101);
        src.push(97);
        src.push(99);
        src.push(116);
        proof {
            assert(src@ =~= default_import_source());
        }
        TransformOptions {
            jsx_runtime: JsxRuntime::Automatic,
            jsx_import_source: src,
            remove_types: true,
            minify: false,
            target: Target::ES2020,
        }
    }
}

impl TransformOptions {
    /// The default configuration.
    pub fn new() -> (r: TransformOptions)
        ensures
            r.jsx_runtime == JsxRuntime::Automatic,
            r.jsx_import_source@ == default_import_source(),
            r.remove_types == true,
            r.minify == false,
            r.target == Target::ES2020,
    {
        Self::default()
    }

    /// Selects the runtime by name: `classic` or anything else (automatic).
    pub fn set_jsx_runtime(&mut self, runtime: &[u8])
        ensures
            final(self).jsx_runtime == (if runtime@ == lit_classic() {
                JsxRuntime::Classic
            } else {
                JsxRuntime::Automatic
            }),
            final(self).jsx_import_source == old(self).jsx_import_source,
            final(self).remove_types == old(self).remove_types,
            final(self).minify == old(self).minify,
            final(self).target == old(self).target,
    {
        let is_classic = runtime.len() == 7 && runtime[0] == 99 && runtime[1] == 108 && runtime[2]
            == 97 && runtime[3] == 115 && runtime[4] == 115 && runtime[5] == 105 && runtime[6]
            == 99;
        proof {
            if is_classic {
                assert(runtime@ =~= lit_classic());
            } else {
                assert(runtime@ != lit_classic());
            }
        }
        if is_classic {
            self.jsx_runtime = JsxRuntime::Classic;
        } else {
            self.jsx_runtime = JsxRuntime::Automatic;
        }
    }

    /// Replaces the automatic-runtime import source.
    pub fn set_jsx_import_source(&mut self, source: Vec<u8>)
        ensures
            final(self).jsx_import_source == source,
            final(self).jsx_runtime == old(self).jsx_runtime,
            final(self).remove_types == old(self).remove_types,
            final(self).minify == old(self).minify,
            final(self).target == old(self).target,
    {
        self.jsx_import_source = source;
    }

    /// Turns type erasure on or off.
    pub fn set_remove_types(&mut self, value: bool)
        ensures
            final(self).remove_types == value,
            final(self).jsx_runtime == old(self).jsx_runtime,
            final(self).jsx_import_source == old(self).jsx_import_source,
            final(self).minify == old(self).minify,
            final(self).target == old(self).target,
    {
        self.remove_types = value;
    }

    /// Turns the quick minify on or off.
    pub fn set_minify(&mut self, value: bool)
        ensures
            final(self).minify == value,
            final(self).jsx_runtime == old(self).jsx_runtime,
            final(self).jsx_import_source == old(self).jsx_import_source,
            final(self).remove_types == old(self).remove_types,
            final(self).target == old(self).target,
    {
        self.minify = value;
    }
}

/// What one transform produced: the rewritten text and whether each of the
/// two structural passes actually matched anything.
#[derive(Debug, Clone)]
pub struct TransformResult {
    pub code: Vec<u8>,
    pub had_jsx: bool,
    pub had_types: bool,
}

/// The name ends in `.tsx`.
pub open spec fn is_tsx_name(f: Seq<u8>) -> bool {
    &&& f.len() >= 4
    &&& f[f.len() - 4] == 46
    &&& f[f.len() - 3] == 116
    &&& f[f.len() - 2] == 115
    &&& f[f.len() - 1] == 120
}

/// The name ends in `.ts` or `.tsx`.
pub open spec fn is_ts_name(f: Seq<u8>) -> bool {
    ||| (f.len() >= 3 && f[f.len() - 3] == 46 && f[f.len() - 2] == 116 && f[f.len() - 1] == 115)
    ||| is_tsx_name(f)
}

/// The name ends in `.jsx` or `.tsx`.
pub open spec fn is_jsx_name(f: Seq<u8>) -> bool {
    ||| (f.len() >= 4 && f[f.len() - 4] == 46 && f[f.len() - 3] == 106 && f[f.len() - 2] == 115
        && f[f.len() - 1] == 120)
    ||| is_tsx_name(f)
}

fn check_tsx_name(f: &[u8]) -> (r: bool)
    ensures
        r == is_tsx_name(f@),
{
    let l = f.len();
    l >= 4 && f[l - 4] == 46 && f[l - 3] == 116 && f[l - 2] == 115 && f[l - 1] == 120
}

fn check_ts_name(f: &[u8]) -> (r: bool)
    ensures
        r == is_ts_name(f@),
{
    let l = f.len();
    (l >= 3 && f[l - 3] == 46 && f[l - 2] == 116 && f[l - 1] == 115) || check_tsx_name(f)
}

fn check_jsx_name(f: &[u8]) -> (r: bool)
    ensures
        r == is_jsx_name(f@),
{
    let l = f.len();
    (l >= 4 && f[l - 4] == 46 && f[l - 3] == 106 && f[l - 2] == 115 && f[l - 1] == 120)
        || check_tsx_name(f)
}

/// The injected automatic-runtime import line followed by the code.
pub open spec fn with_jsx_import(code: Seq<u8>, import_source: Seq<u8>) -> Seq<u8> {
    lit_import_line_head() + import_source + lit_import_line_tail() + code
}

/// Prepends the import of `jsx`, `jsxs`, and `Fragment` from
/// `<source>/jsx-runtime` to the code.
pub fn add_jsx_import(source: &[u8], options: &TransformOptions) -> (r: Vec<u8>)
    ensures
        r@ == with_jsx_import(source@, options.jsx_import_source@),
{
    let mut out: Vec<u8> = Vec::new();
    put_import_line_head(&mut out);
    let imp = &options.jsx_import_source;
    push_range(&mut out, imp.as_slice(), 0, imp.len());
    put_import_line_tail(&mut out);
    push_range(&mut out, source, 0, source.len());
    proof {
        assert(out@ =~= with_jsx_import(source@, options.jsx_import_source@));
    }
    out
}

/// First minify pass from `i`: text of each `//` comment (up to its
/// newline) is dropped, everything else is copied.
pub open spec fn qm_line_from(s: Seq<u8>, i: int) -> Seq<u8>
    decreases s.len() - i,
{
    if i < 0 || i >= s.len() {
        Seq::empty()
    } else if s[i] == B_SLASH && i + 1 < s.len() && s[i + 1] == B_SLASH {
        proof {
            lemma_line_rest_bound(s, i);
            assert(line_rest(s, i) >= 1);
        }
        qm_line_from(s, i + line_rest(s, i))
    } else {
        seq![s[i]] + qm_line_from(s, i + 1)
    }
}

/// Second minify pass from `i`: each `/* ... */` span through the nearest
/// close is dropped; a `/*` that never closes is kept.
pub open spec fn qm_block_from(s: Seq<u8>, i: int) -> Seq<u8>
    decreases s.len() - i,
{
    if i < 0 || i >= s.len() {
        Seq::empty()
    } else if s[i] == B_SLASH && i + 1 < s.len() && s[i + 1] == B_STAR {
        match block_close_off(s, i + 2) {
            Some(o) => {
                proof {
                    lemma_block_close_bound(s, i + 2);
                }
                qm_block_from(s, i + 4 + o)
            },
            None => seq![s[i], s[i + 1]] + qm_block_from(s, i + 2),
        }
    } else {
        seq![s[i]] + qm_block_from(s, i + 1)
    }
}

/// Run of minify whitespace starting at `i`.
pub open spec fn qm_ws_run(s: Seq<u8>, i: int) -> nat
    decreases s.len() - i,
{
    if i < 0 || i >= s.len() {
        0
    } else if is_trim_ws(s[i]) {
        1 + qm_ws_run(s, i + 1)
    } else {
        0
    }
}

pub proof fn lemma_qm_ws_run_bound(s: Seq<u8>, i: int)
    requires
        0 <= i <= s.len(),
    ensures
        i + qm_ws_run(s, i) <= s.len(),
    decreases s.len() - i,
{
    if i < s.len() && is_trim_ws(s[i]) {
        lemma_qm_ws_run_bound(s, i + 1);
    }
}

/// Advances past minify whitespace.
pub fn scan_qm_ws(s: &[u8], i: usize) -> (j: usize)
    requires
        i <= s@.len(),
    ensures
        j == i + qm_ws_run(s@, i as int),
        j <= s@.len(),
{
    let mut j = i;
    loop
        invariant
            i <= j <= s@.len(),
            i + qm_ws_run(s@, i as int) == j + qm_ws_run(s@, j as int),
        decreases s@.len() - j,
    {
        if j >= s.len() || !check_trim_ws(s[j]) {
            return j;
        }
        j = j + 1;
    }
}

/// Third minify pass from `i`: every whitespace run collapses to a single
/// space.
pub open spec fn qm_collapse_from(s: Seq<u8>, i: int) -> Seq<u8>
    decreases s.len() - i,
{
    if i < 0 || i >= s.len() {
        Seq::empty()
    } else if is_trim_ws(s[i]) {
        proof {
            lemma_qm_ws_run_bound(s, i);
            assert(qm_ws_run(s, i) >= 1);
        }
        seq![32u8] + qm_collapse_from(s, i + qm_ws_run(s, i))
    } else {
        seq![s[i]] + qm_collapse_from(s, i + 1)
    }
}

/// The operator bytes whose adjacent spaces the minify removes.
pub open spec fn spec_is_min_op(b: u8) -> bool {
    b == 61 || b == 43 || b == 45 || b == 42 || b == 47 || b == 60 || b == 62 || b == 33 || b == 38
        || b == 124 || b == 44 || b == 59 || b == 58 || b == 123 || b == 125 || b == 40 || b == 41
        || b == 91 || b == 93
}

/// Decides operator bytes.
pub fn is_min_op(b: u8) -> (r: bool)
    ensures
        r == spec_is_min_op(b),
{
    b == 61 || b == 43 || b == 45 || b == 42 || b == 47 || b == 60 || b == 62 || b == 33 || b == 38
        || b == 124 || b == 44 || b == 59 || b == 58 || b == 123 || b == 125 || b == 40 || b == 41
        || b == 91 || b == 93
}

/// Fourth minify pass from `i`: whitespace around an operator byte is
/// dropped; an operator byte also absorbs the whitespace after it.
pub open spec fn qm_ops_from(s: Seq<u8>, i: int) -> Seq<u8>
    decreases s.len() - i,
{
    if i < 0 || i >= s.len() {
        Seq::empty()
    } else if spec_is_min_op(s[i]) {
        proof {
            lemma_qm_ws_run_bound(s, i + 1);
        }
        seq![s[i]] + qm_ops_from(s, i + 1 + qm_ws_run(s, i + 1))
    } else if is_trim_ws(s[i]) {
        proof {
            lemma_qm_ws_run_bound(s, i);
            assert(qm_ws_run(s, i) >= 1);
        }
        let w = i + qm_ws_run(s, i);
        if w < s.len() && spec_is_min_op(s[w]) {
            proof {
                lemma_qm_ws_run_bound(s, w + 1);
            }
            seq![s[w]] + qm_ops_from(s, w + 1 + qm_ws_run(s, w + 1))
        } else {
            seq![s[i]] + qm_ops_from(s, i + 1)
        }
    } else {
        seq![s[i]] + qm_ops_from(s, i + 1)
    }
}

/// The quick minify: comments stripped, whitespace collapsed,
/// operator-adjacent whitespace removed, the result trimmed.
pub open spec fn qmin(s: Seq<u8>) -> Seq<u8> {
    let a = qm_line_from(s, 0);
    let b = qm_block_from(a, 0);
    let c = qm_collapse_from(b, 0);
    let d = qm_ops_from(c, 0);
    trim_range(d, 0, d.len() as int)
}

pub fn qm_line_pass(s: &[u8]) -> (r: Vec<u8>)
    ensures
        r@ == qm_line_from(s@, 0),
{
    let mut out: Vec<u8> = Vec::new();
    let mut i: usize = 0;
    loop
        invariant
            i <= s@.len(),
            qm_line_from(s@, 0) == out@ + qm_line_from(s@, i as int),
        decreases s@.len() - i,
    {
        let ghost o0 = out@;
        if i >= s.len() {
            proof {
                assert(out@ + qm_line_from(s@, i as int) =~= out@);
            }
            return out;
        }
        let b = s[i];
        if b == B_SLASH && i + 1 < s.len() && s[i + 1] == B_SLASH {
            i = scan_line(s, i);
            continue;
        }
        out.push(b);
        proof {
            assert(o0.push(b) =~= o0 + seq![b]);
            assert(o0 + (seq![b] + qm_line_from(s@, i + 1)) =~= (o0 + seq![b]) + qm_line_from(
                s@,
                i + 1,
            ));
        }
        i = i + 1;
    }
}

fn qm_block_pass(s: &[u8]) -> (r: Vec<u8>)
    ensures
        r@ == qm_block_from(s@, 0),
{
    let mut out: Vec<u8> = Vec::new();
    let mut i: usize = 0;
    loop
        invariant
            i <= s@.len(),
            qm_block_from(s@, 0) == out@ + qm_block_from(s@, i as int),
        decreases s@.len() - i,
    {
        let ghost o0 = out@;
        if i >= s.len() {
            proof {
                assert(out@ + qm_block_from(s@, i as int) =~= out@);
            }
            return out;
        }
        let b = s[i];
        if b == B_SLASH && i + 1 < s.len() && s[i + 1] == B_STAR {
            match scan_block_close(s, i + 2) {
                Some(k) => {
                    i = k + 2;
                    continue;
                },
                None => {
                    out.push(b);
                    out.push(s[i + 1]);
                    proof {
                        assert(o0.push(b).push(s@[i + 1]) =~= o0 + seq![s@[i as int], s@[i + 1]]);
                        assert(o0 + (seq![s@[i as int], s@[i + 1]] + qm_block_from(s@, i + 2)) =~= (
                        o0 + seq![s@[i as int], s@[i + 1]]) + qm_block_from(s@, i + 2));
                    }
                    i = i + 2;
                    continue;
                },
            }
        }
        out.push(b);
        proof {
            assert(o0.push(b) =~= o0 + seq![b]);
            assert(o0 + (seq![b] + qm_block_from(s@, i + 1)) =~= (o0 + seq![b]) + qm_block_from(
                s@,
                i + 1,
            ));
        }
        i = i + 1;
    }
}

fn qm_collapse_pass(s: &[u8]) -> (r: Vec<u8>)
    ensures
        r@ == qm_collapse_from(s@, 0),
{
    let mut out: Vec<u8> = Vec::new();
    let mut i: usize = 0;
    loop
        invariant
            i <= s@.len(),
            qm_collapse_from(s@, 0) == out@ + qm_collapse_from(s@, i as int),
        decreases s@.len() - i,
    {
        let ghost o0 = out@;
        if i >= s.len() {
            proof {
                assert(out@ + qm_collapse_from(s@, i as int) =~= out@);
            }
            return out;
        }
        let b = s[i];
        if check_trim_ws(b) {
            let j = scan_qm_ws(s, i);
            out.push(32);
            proof {
                assert(o0.push(32u8) =~= o0 + seq![32u8]);
                assert(o0 + (seq![32u8] + qm_collapse_from(s@, j as int)) =~= (o0 + seq![32u8])
                    + qm_collapse_from(s@, j as int));
            }
            i = j;
            continue;
        }
        out.push(b);
        proof {
            assert(o0.push(b) =~= o0 + seq![b]);
            assert(o0 + (seq![b] + qm_collapse_from(s@, i + 1)) =~= (o0 + seq![b])
                + qm_collapse_from(s@, i + 1));
        }
        i = i + 1;
    }
}

fn qm_ops_pass(s: &[u8]) -> (r: Vec<u8>)
    ensures
        r@ == qm_ops_from(s@, 0),
{
    let mut out: Vec<u8> = Vec::new();
    let mut i: usize = 0;
    loop
        invariant
            i <= s@.len(),
            qm_ops_from(s@, 0) == out@ + qm_ops_from(s@, i as int),
        decreases s@.len() - i,
    {
        let ghost o0 = out@;
        if i >= s.len() {
            proof {
                assert(out@ + qm_ops_from(s@, i as int) =~= out@);
            }
            return out;
        }
        let b = s[i];
        if is_min_op(b) {
            let j = scan_qm_ws(s, i + 1);
            out.push(b);
            proof {
                assert(o0.push(b) =~= o0 + seq![b]);
                assert(o0 + (seq![b] + qm_ops_from(s@, j as int)) =~= (o0 + seq![b]) + qm_ops_from(
                    s@,
                    j as int,
                ));
            }
            i = j;
            continue;
        }
        if check_trim_ws(b) {
            let w = scan_qm_ws(s, i);
            if w < s.len() && is_min_op(s[w]) {
                let j = scan_qm_ws(s, w + 1);
                out.push(s[w]);
                proof {
                    assert(o0.push(s@[w as int]) =~= o0 + seq![s@[w as int]]);
                    assert(o0 + (seq![s@[w as int]] + qm_ops_from(s@, j as int)) =~= (o0 + seq![
                        s@[w as int],
                    ]) + qm_ops_from(s@, j as int));
                }
                i = j;
                continue;
            }
        }
        out.push(b);
        proof {
            assert(o0.push(b) =~= o0 + seq![b]);
            assert(o0 + (seq![b] + qm_ops_from(s@, i + 1)) =~= (o0 + seq![b]) + qm_ops_from(
                s@,
                i + 1,
            ));
        }
        i = i + 1;
    }
}

/// Applies the quick whitespace/comment collapse: comment strip,
/// whitespace collapse, operator-adjacent space removal, and a final trim.
/// Intentionally cheaper than (and distinct from) a full syntax-tree
/// minifier.
pub fn quick_minify(s: &[u8]) -> (r: Vec<u8>)
    ensures
        r@ == qmin(s@),
{
    let a = qm_line_pass(s);
    let b = qm_block_pass(a.as_slice());
    let c = qm_collapse_pass(b.as_slice());
    let d = qm_ops_pass(c.as_slice());
    trim_copy(d.as_slice(), 0, d.len())
}

/// The text the type-erasure stage hands on.
pub open spec fn erased_code(src: Seq<u8>, f: Seq<u8>, remove_types: bool) -> Seq<u8> {
    if remove_types && is_ts_name(f) {
        erase_from(src, 0).0
    } else {
        src
    }
}

/// Whether the transform reports types found and erased.
pub open spec fn spec_had_types(src: Seq<u8>, f: Seq<u8>, remove_types: bool) -> bool {
    remove_types && is_ts_name(f) && erase_from(src, 0).1
}

/// Whether the transform reports JSX found and rewritten.
pub open spec fn spec_had_jsx(src: Seq<u8>, f: Seq<u8>, remove_types: bool, auto: bool) -> bool {
    is_jsx_name(f) && tj_from(erased_code(src, f, remove_types), 0, auto).1
}

/// The transformed text: erasure if configured and the name says
/// TypeScript, JSX rewriting if the name says JSX, the runtime import when
/// the rewriter fired under the automatic runtime, then the optional quick
/// minify.
pub open spec fn spec_transform(
    src: Seq<u8>,
    f: Seq<u8>,
    auto: bool,
    import_source: Seq<u8>,
    remove_types: bool,
    minify: bool,
) -> Seq<u8> {
    let c1 = erased_code(src, f, remove_types);
    let c2 = if is_jsx_name(f) {
        tj_from(c1, 0, auto).0
    } else {
        c1
    };
    let c3 = if spec_had_jsx(src, f, remove_types, auto) && auto {
        with_jsx_import(c2, import_source)
    } else {
        c2
    };
    if minify {
        qmin(c3)
    } else {
        c3
    }
}

/// Transforms one source text according to its filename and the
/// configuration, reporting what the passes actually matched.
pub fn transform_internal(source: &[u8], filename: &[u8], options: &TransformOptions) -> (r:
    TransformResult)
    ensures
        r.code@ == spec_transform(
            source@,
            filename@,
            options.jsx_runtime == JsxRuntime::Automatic,
            options.jsx_import_source@,
            options.remove_types,
            options.minify,
        ),
        r.had_types == spec_had_types(source@, filename@, options.remove_types),
        r.had_jsx == spec_had_jsx(
            source@,
            filename@,
            options.remove_types,
            options.jsx_runtime == JsxRuntime::Automatic,
        ),
{
    let auto = options.jsx_runtime == JsxRuntime::Automatic;
    let is_ts = check_ts_name(filename);
    let is_jsx = check_jsx_name(filename);
    let mut code: Vec<u8>;
    let mut had_types = false;
    if options.remove_types && is_ts {
        let (c, h) = remove_typescript_types(source);
        code = c;
        had_types = h;
    } else {
        code = vstd::slice::slice_to_vec(source);
    }
    let mut had_jsx = false;
    if is_jsx {
        let (c2, hj) = jsx_pass(code.as_slice(), auto);
        code = c2;
        had_jsx = hj;
    }
    if had_jsx && auto {
        code = add_jsx_import(code.as_slice(), options);
    }
    if options.minify {
        code = quick_minify(code.as_slice());
    }
    TransformResult { code, had_jsx, had_types }
}

/// Rewrites JSX in the source per the configured runtime, reporting
/// whether anything was rewritten.
pub fn transform_jsx(source: &[u8], options: &TransformOptions) -> (r: (Vec<u8>, bool))
    ensures
        r.0@ == tj_from(source@, 0, options.jsx_runtime == JsxRuntime::Automatic).0,
        r.1 == tj_from(source@, 0, options.jsx_runtime == JsxRuntime::Automatic).1,
{
    jsx_pass(source, options.jsx_runtime == JsxRuntime::Automatic)
}

} // verus!
