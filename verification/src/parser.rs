//! Metadata extraction over raw source text: structured import records,
//! JSX-presence detection, and top-level-await detection.  Each detector is
//! a single forward scan; the two whole-text detectors here read the
//! original text independently of the token-based import extractor.

use vstd::prelude::*;
use crate::{spec_is_alnum, spec_is_alpha, spec_is_lower, spec_is_quote, spec_is_upper, is_alnum,
    is_alpha, is_lower, is_quote, is_upper, B_GT, B_LBRACE, B_LT, B_RBRACE, B_SLASH, B_STAR};
use crate::scan::{block_close_off, lemma_block_close_bound, lemma_line_rest_bound,
    lemma_sp_run_bound, lemma_str_lit_len_bound, lemma_tagword_run_bound, line_rest, scan_block_close,
    scan_line, scan_sp, scan_str_lit, scan_tagword, sp_run, str_lit_len, tagword_run, contains_sub,
    spec_contains};
use crate::lexer::{next_token, spec_next_token, lemma_next_token_bounds, Token};

verus! {

/// The word `await` begins at `i`.
pub open spec fn kw_await_at(s: Seq<u8>, i: int) -> bool {
    &&& i >= 0
    &&& i + 5 <= s.len()
    &&& s[i] == 97
    &&& s[i + 1] == 119
    &&& s[i + 2] == 97
    &&& s[i + 3] == 105
    &&& s[i + 4] == 116
}

/// Whether the scan that starts at `i` with `brace` open braces finds a
/// top-level `await`.  String contents are skipped; `{`/`}` adjust the
/// depth (never below zero); a word-boundary-checked `await` counts only
/// at depth zero.  Paren depth is deliberately not consulted, so an
/// `await` inside a top-level call's argument list still counts.
pub open spec fn tla_from(s: Seq<u8>, i: int, brace: int) -> bool
    decreases s.len() - i,
{
    if i < 0 || i >= s.len() {
        false
    } else if spec_is_quote(s[i]) {
        proof {
            lemma_str_lit_len_bound(s, s[i], i + 1);
        }
        tla_from(s, i + 1 + str_lit_len(s, s[i], i + 1), brace)
    } else {
        let b2 = if s[i] == B_LBRACE {
            brace + 1
        } else if s[i] == B_RBRACE {
            if brace > 0 {
                brace - 1
            } else {
                0
            }
        } else {
            brace
        };
        if b2 == 0 && kw_await_at(s, i) && (i == 0 || !spec_is_alnum(s[i - 1])) && (i + 5
            >= s.len() || !spec_is_alnum(s[i + 5])) {
            true
        } else {
            tla_from(s, i + 1, b2)
        }
    }
}

/// Reports whether the word `await` begins at `i`.
fn check_await_at(s: &[u8], i: usize) -> (r: bool)
    requires
        i <= s@.len(),
    ensures
        r == kw_await_at(s@, i as int),
{
    if s.len() - i < 5 {
        return false;
    }
    s[i] == 97 && s[i + 1] == 119 && s[i + 2] == 97 && s[i + 3] == 105 && s[i + 4] == 116
}

/// Reports whether the source has an `await` at brace depth zero.
pub fn has_top_level_await_internal(s: &[u8]) -> (r: bool)
    ensures
        r == tla_from(s@, 0, 0),
{
    let mut i: usize = 0;
    let mut brace: usize = 0;
    loop
        invariant
            i <= s@.len(),
            brace <= i,
            tla_from(s@, 0, 0) == tla_from(s@, i as int, brace as int),
        decreases s@.len() - i,
    {
        if i >= s.len() {
            return false;
        }
        let b = s[i];
        if is_quote(b) {
            let (j, _closed) = scan_str_lit(s, b, i + 1);
            proof {
                lemma_str_lit_len_bound(s@, b, i + 1);
            }
            i = j;
            continue;
        }
        let b2: usize = if b == B_LBRACE {
            brace + 1
        } else if b == B_RBRACE {
            if brace > 0 {
                brace - 1
            } else {
                0
            }
        } else {
            brace
        };
        if b2 == 0 && check_await_at(s, i) {
            let before_ok = i == 0 || !is_alnum(s[i - 1]);
            let after_ok = s.len() - i <= 5 || !is_alnum(s[i + 5]);
            if before_ok && after_ok {
                return true;
            }
        }
        i = i + 1;
        brace = b2;
    }
}

/// Whether the scan that starts at `i` sees a JSX construct.  String and
/// comment contents are skipped.  A `<` counts when followed by an
/// uppercase letter, `/`, or `>`; a lowercase letter counts only when the
/// look-ahead past the tag-name run and trailing spaces lands on `>`, `/`,
/// or another letter — the rule that separates `<div` from `a < b`.
pub open spec fn jsx_from(s: Seq<u8>, i: int) -> bool
    decreases s.len() - i,
{
    if i < 0 || i >= s.len() {
        false
    } else if spec_is_quote(s[i]) {
        proof {
            lemma_str_lit_len_bound(s, s[i], i + 1);
        }
        jsx_from(s, i + 1 + str_lit_len(s, s[i], i + 1))
    } else if s[i] == B_SLASH && i + 1 < s.len() && s[i + 1] == B_SLASH {
        proof {
            lemma_line_rest_bound(s, i);
        }
        jsx_from(s, i + line_rest(s, i))
    } else if s[i] == B_SLASH && i + 1 < s.len() && s[i + 1] == B_STAR {
        match block_close_off(s, i + 2) {
            Some(o) => {
                proof {
                    lemma_block_close_bound(s, i + 2);
                }
                jsx_from(s, i + 4 + o)
            },
            None => false,
        }
    } else if s[i] == B_LT && i + 1 < s.len() {
        let n = s[i + 1];
        if spec_is_upper(n) || n == B_SLASH || n == B_GT {
            true
        } else if spec_is_lower(n) {
            proof {
                lemma_tagword_run_bound(s, i + 2);
                lemma_sp_run_bound(s, i + 2 + tagword_run(s, i + 2));
            }
            let j = i + 2 + tagword_run(s, i + 2);
            let k = j + sp_run(s, j);
            if k < s.len() && (s[k] == B_GT || s[k] == B_SLASH || spec_is_alpha(s[k])) {
                true
            } else {
                jsx_from(s, i + 1)
            }
        } else {
            jsx_from(s, i + 1)
        }
    } else {
        jsx_from(s, i + 1)
    }
}

/// Reports whether the source contains JSX syntax.
pub fn has_jsx_internal(s: &[u8]) -> (r: bool)
    ensures
        r == jsx_from(s@, 0),
{
    let mut i: usize = 0;
    loop
        invariant
            i <= s@.len(),
            jsx_from(s@, 0) == jsx_from(s@, i as int),
        decreases s@.len() - i,
    {
        if i >= s.len() {
            return false;
        }
        let b = s[i];
        if is_quote(b) {
            let (j, _closed) = scan_str_lit(s, b, i + 1);
            i = j;
            continue;
        }
        if b == B_SLASH && i + 1 < s.len() && s[i + 1] == B_SLASH {
            i = scan_line(s, i);
            continue;
        }
        if b == B_SLASH && i + 1 < s.len() && s[i + 1] == B_STAR {
            match scan_block_close(s, i + 2) {
                Some(k) => {
                    i = k + 2;
                    continue;
                },
                None => {
                    return false;
                },
            }
        }
        if b == B_LT && i + 1 < s.len() {
            let n = s[i + 1];
            if is_upper(n) || n == B_SLASH || n == B_GT {
                return true;
            }
            if is_lower(n) {
                let j = scan_tagword(s, i + 2);
                let k = scan_sp(s, j);
                if k < s.len() && (s[k] == B_GT || s[k] == B_SLASH || is_alpha(s[k])) {
                    return true;
                }
            }
        }
        i = i + 1;
    }
}

/// One import, require, or re-export declaration found in the source.
/// `start` and `end` are byte offsets into the original input.
pub struct ImportInfo {
    pub source: Vec<u8>,
    pub is_dynamic: bool,
    pub is_type_only: bool,
    pub start: usize,
    pub end: usize,
}

/// The mathematical counterpart of `ImportInfo`.
pub ghost struct ImportRecord {
    pub source: Seq<u8>,
    pub is_dynamic: bool,
    pub is_type_only: bool,
    pub start: int,
    pub end: int,
}

impl View for ImportInfo {
    type V = ImportRecord;

    open spec fn view(&self) -> ImportRecord {
        ImportRecord {
            source: self.source@,
            is_dynamic: self.is_dynamic,
            is_type_only: self.is_type_only,
            start: self.start as int,
            end: self.end as int,
        }
    }
}

/// The record-building scan that runs after `import ...`, `import type ...`
/// or `export ...`: tokens are read until `from`, a semicolon, or end of
/// input.  A `from` followed by a string literal yields one record whose
/// span runs from `start` to the position after that literal; any other
/// outcome yields none.  Returns the record, if any, and the position at
/// which the statement scan stops.
pub open spec fn stmt_scan(s: Seq<u8>, pos: int, start: int, is_type: bool) -> (Option<
    ImportRecord>, int)
    decreases s.len() - pos,
{
    if pos < 0 || pos > s.len() {
        (None, pos)
    } else {
        let t = spec_next_token(s, pos);
        proof {
            lemma_next_token_bounds(s, pos);
        }
        if t.kind == Token::From {
            let u = spec_next_token(s, t.end);
            if u.kind == Token::StringLiteral {
                (
                    Some(
                        ImportRecord {
                            source: u.val,
                            is_dynamic: false,
                            is_type_only: is_type,
                            start,
                            end: u.end,
                        },
                    ),
                    u.end,
                )
            } else {
                (None, u.end)
            }
        } else if t.kind == Token::EOF || t.kind == Token::Semicolon {
            (None, t.end)
        } else {
            stmt_scan(s, t.end, start, is_type)
        }
    }
}

pub proof fn lemma_stmt_scan_bounds(s: Seq<u8>, pos: int, start: int, is_type: bool)
    requires
        0 <= pos <= s.len(),
    ensures
        pos <= stmt_scan(s, pos, start, is_type).1 <= s.len(),
        stmt_scan(s, pos, start, is_type).0 matches Some(r) ==> r.start == start && pos <= r.end
            <= s.len(),
    decreases s.len() - pos,
{
    let t = spec_next_token(s, pos);
    lemma_next_token_bounds(s, pos);
    if t.kind == Token::From {
        lemma_next_token_bounds(s, t.end);
    } else if t.kind == Token::EOF || t.kind == Token::Semicolon {
    } else {
        lemma_stmt_scan_bounds(s, t.end, start, is_type);
    }
}

/// Converts an optional record to the sequence of records it contributes.
pub open spec fn opt_rec(r: Option<ImportRecord>) -> Seq<ImportRecord> {
    match r {
        Some(rec) => seq![rec],
        None => Seq::empty(),
    }
}

/// All records extracted from position `pos` to end of input, in source
/// order.  Each top-level `import`, `export`, or `require` token opens a
/// statement; a statement that never reaches a resolvable source string
/// yields no record, and the scan resumes after it.
pub open spec fn extract_from(s: Seq<u8>, pos: int) -> Seq<ImportRecord>
    decreases s.len() - pos,
{
    if pos < 0 || pos > s.len() {
        Seq::empty()
    } else {
        let t = spec_next_token(s, pos);
        proof {
            lemma_next_token_bounds(s, pos);
        }
        if t.kind == Token::EOF {
            Seq::empty()
        } else if t.kind == Token::Import {
            let u = spec_next_token(s, t.end);
            proof {
                lemma_next_token_bounds(s, t.end);
            }
            if u.kind == Token::OpenParen {
                let v = spec_next_token(s, u.end);
                proof {
                    lemma_next_token_bounds(s, u.end);
                }
                if v.kind == Token::StringLiteral {
                    seq![
                        ImportRecord {
                            source: v.val,
                            is_dynamic: true,
                            is_type_only: false,
                            start: t.start,
                            end: v.end,
                        },
                    ] + extract_from(s, v.end)
                } else {
                    extract_from(s, v.end)
                }
            } else if u.kind == Token::Type {
                let r = stmt_scan(s, u.end, t.start, true);
                proof {
                    lemma_stmt_scan_bounds(s, u.end, t.start, true);
                }
                opt_rec(r.0) + extract_from(s, r.1)
            } else if u.kind == Token::StringLiteral {
                seq![
                    ImportRecord {
                        source: u.val,
                        is_dynamic: false,
                        is_type_only: false,
                        start: t.start,
                        end: u.end,
                    },
                ] + extract_from(s, u.end)
            } else {
                let r = stmt_scan(s, u.end, t.start, false);
                proof {
                    lemma_stmt_scan_bounds(s, u.end, t.start, false);
                }
                opt_rec(r.0) + extract_from(s, r.1)
            }
        } else if t.kind == Token::Export {
            let r = stmt_scan(s, t.end, t.start, false);
            proof {
                lemma_stmt_scan_bounds(s, t.end, t.start, false);
            }
            opt_rec(r.0) + extract_from(s, r.1)
        } else if t.kind == Token::Require {
            let u = spec_next_token(s, t.end);
            proof {
                lemma_next_token_bounds(s, t.end);
            }
            if u.kind == Token::OpenParen {
                let v = spec_next_token(s, u.end);
                proof {
                    lemma_next_token_bounds(s, u.end);
                }
                if v.kind == Token::StringLiteral {
                    seq![
                        ImportRecord {
                            source: v.val,
                            is_dynamic: false,
                            is_type_only: false,
                            start: t.start,
                            end: v.end,
                        },
                    ] + extract_from(s, v.end)
                } else {
                    extract_from(s, v.end)
                }
            } else {
                extract_from(s, u.end)
            }
        } else {
            extract_from(s, t.end)
        }
    }
}

/// Runs the statement scan from `pos`, producing at most one record whose
/// span begins at `start`.
fn scan_stmt(s: &[u8], pos: usize, start: usize, is_type: bool) -> (r: (Option<ImportInfo>, usize))
    requires
        pos <= s@.len(),
    ensures
        r.1 == stmt_scan(s@, pos as int, start as int, is_type).1,
        pos <= r.1 <= s@.len(),
        (r.0 matches Some(rec) ==> stmt_scan(s@, pos as int, start as int, is_type).0
            matches Some(sr) && rec@ == sr),
        (r.0 is None ==> stmt_scan(s@, pos as int, start as int, is_type).0 is None),
{
    let mut cur = pos;
    loop
        invariant
            pos <= cur <= s@.len(),
            stmt_scan(s@, cur as int, start as int, is_type) == stmt_scan(s@, pos as int,
                start as int, is_type),
        decreases s@.len() - cur,
    {
        let t = next_token(s, cur);
        proof {
            lemma_next_token_bounds(s@, cur as int);
        }
        match t.0 {
            Token::From => {
                let u = next_token(s, t.3);
                proof {
                    lemma_next_token_bounds(s@, t.3 as int);
                }
                match u.0 {
                    Token::StringLiteral => {
                        let src = match u.2 {
                            Some(v) => v,
                            None => Vec::new(),
                        };
                        return (
                            Some(
                                ImportInfo {
                                    source: src,
                                    is_dynamic: false,
                                    is_type_only: is_type,
                                    start,
                                    end: u.3,
                                },
                            ),
                            u.3,
                        );
                    },
                    _ => {
                        return (None, u.3);
                    },
                }
            },
            Token::EOF => {
                return (None, t.3);
            },
            Token::Semicolon => {
                return (None, t.3);
            },
            _ => {
                cur = t.3;
            },
        }
    }
}

/// Appends a record, extending the extracted-record view by exactly it.
fn push_rec(out: &mut Vec<ImportInfo>, rec: ImportInfo)
    ensures
        final(out)@.map_values(|x: ImportInfo| x@) == old(out)@.map_values(|x: ImportInfo| x@)
            + seq![rec@],
{
    let ghost pre = out@.map_values(|x: ImportInfo| x@);
    let ghost rv = rec@;
    out.push(rec);
    proof {
        assert(out@.map_values(|x: ImportInfo| x@) =~= pre + seq![rv]);
    }
}

/// Extracts every import, require, and re-export record from the source,
/// in source order.  Every reported span is a valid sub-range of the
/// input, and start offsets are non-decreasing along the sequence.
#[verifier::rlimit(60)]
pub fn extract_imports_internal(source: &[u8]) -> (r: Vec<ImportInfo>)
    ensures
        r@.map_values(|x: ImportInfo| x@) == extract_from(source@, 0),
        forall|k: int|
            0 <= k < r@.len() ==> (#[trigger] r@[k]).start <= r@[k].end && r@[k].end
                <= source@.len(),
        forall|j: int, k: int|
            0 <= j <= k < r@.len() ==> (#[trigger] r@[j]).start <= (#[trigger] r@[k]).start,
{
    let s = source;
    let mut out: Vec<ImportInfo> = Vec::new();
    let mut pos: usize = 0;
    loop
        invariant
            pos <= s@.len(),
            s@ == source@,
            out@.map_values(|x: ImportInfo| x@) + extract_from(s@, pos as int) == extract_from(
                s@, 0),
        decreases s@.len() - pos,
    {
        let t = next_token(s, pos);
        proof {
            lemma_next_token_bounds(s@, pos as int);
        }
        match t.0 {
            Token::EOF => {
                proof {
                    assert(extract_from(s@, pos as int) =~= Seq::<ImportRecord>::empty());
                    assert(out@.map_values(|x: ImportInfo| x@) =~= extract_from(s@, 0));
                    lemma_extract_from_ordered(s@, 0);
                    assert(forall|k: int|
                        0 <= k < out@.len() ==> (#[trigger] out@[k])@ == extract_from(s@, 0)[k]);
                }
                return out;
            },
            Token::Import => {
                let u = next_token(s, t.3);
                proof {
                    lemma_next_token_bounds(s@, t.3 as int);
                }
                match u.0 {
                    Token::OpenParen => {
                        let v = next_token(s, u.3);
                        proof {
                            lemma_next_token_bounds(s@, u.3 as int);
                        }
                        match v.0 {
                            Token::StringLiteral => {
                                let src = match v.2 {
                                    Some(w) => w,
                                    None => Vec::new(),
                                };
                                push_rec(
                                    &mut out,
                                    ImportInfo {
                                        source: src,
                                        is_dynamic: true,
                                        is_type_only: false,
                                        start: t.1,
                                        end: v.3,
                                    },
                                );
                                pos = v.3;
                            },
                            _ => {
                                pos = v.3;
                            },
                        }
                    },
                    Token::Type => {
                        let rr = scan_stmt(s, u.3, t.1, true);
                        match rr.0 {
                            Some(rec) => {
                                push_rec(&mut out, rec);
                            },
                            None => {},
                        }
                        pos = rr.1;
                    },
                    Token::StringLiteral => {
                        let src = match u.2 {
                            Some(w) => w,
                            None => Vec::new(),
                        };
                        push_rec(
                            &mut out,
                            ImportInfo {
                                source: src,
                                is_dynamic: false,
                                is_type_only: false,
                                start: t.1,
                                end: u.3,
                            },
                        );
                        pos = u.3;
                    },
                    _ => {
                        let rr = scan_stmt(s, u.3, t.1, false);
                        match rr.0 {
                            Some(rec) => {
                                push_rec(&mut out, rec);
                            },
                            None => {},
                        }
                        pos = rr.1;
                    },
                }
            },
            Token::Export => {
                let rr = scan_stmt(s, t.3, t.1, false);
                match rr.0 {
                    Some(rec) => {
                        push_rec(&mut out, rec);
                    },
                    None => {},
                }
                pos = rr.1;
            },
            Token::Require => {
                let u = next_token(s, t.3);
                proof {
                    lemma_next_token_bounds(s@, t.3 as int);
                }
                match u.0 {
                    Token::OpenParen => {
                        let v = next_token(s, u.3);
                        proof {
                            lemma_next_token_bounds(s@, u.3 as int);
                        }
                        match v.0 {
                            Token::StringLiteral => {
                                let src = match v.2 {
                                    Some(w) => w,
                                    None => Vec::new(),
                                };
                                push_rec(
                                    &mut out,
                                    ImportInfo {
                                        source: src,
                                        is_dynamic: false,
                                        is_type_only: false,
                                        start: t.1,
                                        end: v.3,
                                    },
                                );
                                pos = v.3;
                            },
                            _ => {
                                pos = v.3;
                            },
                        }
                    },
                    _ => {
                        pos = u.3;
                    },
                }
            },
            _ => {
                pos = t.3;
            },
        }
    }
}

/// Everything the metadata pass reports about one source text.
pub struct ParseResult {
    pub imports: Vec<ImportInfo>,
    pub has_jsx: bool,
    pub has_top_level_await: bool,
    pub is_typescript: bool,
    pub parse_time_us: u64,
}

pub open spec fn needle_colon_space() -> Seq<u8> {
    seq![58u8, 32u8]
}

pub open spec fn needle_interface() -> Seq<u8> {
    seq![105u8, 110u8, 116u8, 101u8, 114u8, 102u8, 97u8, 99u8, 101u8, 32u8]
}

pub open spec fn needle_type() -> Seq<u8> {
    seq![116u8, 121u8, 112u8, 101u8, 32u8]
}

pub open spec fn needle_generic() -> Seq<u8> {
    seq![60u8, 84u8, 62u8]
}

/// The TypeScript heuristic: the text contains `: `, `interface `,
/// `type `, or `<T>`.  A heuristic, not a guarantee.
pub open spec fn spec_is_typescript(s: Seq<u8>) -> bool {
    ||| spec_contains(s, needle_colon_space())
    ||| spec_contains(s, needle_interface())
    ||| spec_contains(s, needle_type())
    ||| spec_contains(s, needle_generic())
}

/// Decides the TypeScript heuristic.
pub fn is_typescript_source(s: &[u8]) -> (r: bool)
    ensures
        r == spec_is_typescript(s@),
{
    let mut w1: Vec<u8> = Vec::new();
    w1.push(58);
    w1.push(32);
    proof {
        assert(w1@ =~= needle_colon_space());
    }
    if contains_sub(s, w1.as_slice()) {
        return true;
    }
    let mut w2: Vec<u8> = Vec::new();
    w2.push(105);
    w2.push(110);
    w2.push(116);
    w2.push(101);
    w2.push(114);
    w2.push(102);
    w2.push(97);
    w2.push(99);
    w2.push(101);
    w2.push(32);
    proof {
        assert(w2@ =~= needle_interface());
    }
    if contains_sub(s, w2.as_slice()) {
        return true;
    }
    let mut w3: Vec<u8> = Vec::new();
    w3.push(116);
    w3.push(121);
    w3.push(112);
    w3.push(101);
    w3.push(32);
    proof {
        assert(w3@ =~= needle_type());
    }
    if contains_sub(s, w3.as_slice()) {
        return true;
    }
    let mut w4: Vec<u8> = Vec::new();
    w4.push(60);
    w4.push(84);
    w4.push(62);
    proof {
        assert(w4@ =~= needle_generic());
    }
    contains_sub(s, w4.as_slice())
}

/// Runs the full metadata pass: import records in source order, the two
/// structural detectors, and the TypeScript heuristic.  Time is not
/// measured here and reported as zero.
pub fn parse_internal(source: &[u8]) -> (r: ParseResult)
    ensures
        r.imports@.map_values(|x: ImportInfo| x@) == extract_from(source@, 0),
        r.has_jsx == jsx_from(source@, 0),
        r.has_top_level_await == tla_from(source@, 0, 0),
        r.is_typescript == spec_is_typescript(source@),
        r.parse_time_us == 0,
{
    let imports = extract_imports_internal(source);
    let has_jsx = has_jsx_internal(source);
    let has_top_level_await = has_top_level_await_internal(source);
    let is_typescript = is_typescript_source(source);
    ParseResult { imports, has_jsx, has_top_level_await, is_typescript, parse_time_us: 0 }
}

/// Records of `a + b` keep both parts' bounds and ordering when every
/// record of `a` starts no later than `mid` and every record of `b` no
/// earlier.
proof fn lemma_records_concat(
    a: Seq<ImportRecord>,
    b: Seq<ImportRecord>,
    pos: int,
    mid: int,
    len: int,
)
    requires
        pos <= mid,
        forall|k: int| 0 <= k < a.len() ==> pos <= (#[trigger] a[k]).start <= a[k].end <= len,
        forall|k: int| 0 <= k < a.len() ==> (#[trigger] a[k]).start <= mid,
        forall|j: int, k: int|
            0 <= j <= k < a.len() ==> (#[trigger] a[j]).start <= (#[trigger] a[k]).start,
        forall|k: int|
            0 <= k < b.len() ==> mid <= (#[trigger] b[k]).start && b[k].start <= b[k].end <= len,
        forall|j: int, k: int|
            0 <= j <= k < b.len() ==> (#[trigger] b[j]).start <= (#[trigger] b[k]).start,
    ensures
        forall|k: int|
            0 <= k < (a + b).len() ==> pos <= (#[trigger] (a + b)[k]).start <= (a + b)[k].end
                <= len,
        forall|j: int, k: int|
            0 <= j <= k < (a + b).len() ==> (#[trigger] (a + b)[j]).start <= (#[trigger] (a
                + b)[k]).start,
{
    assert forall|k: int|
        0 <= k < (a + b).len() implies pos <= (#[trigger] (a + b)[k]).start <= (a + b)[k].end
        <= len by {
        if k < a.len() {
            assert((a + b)[k] == a[k]);
        } else {
            assert((a + b)[k] == b[k - a.len()]);
        }
    }
    assert forall|j: int, k: int|
        0 <= j <= k < (a + b).len() implies (#[trigger] (a + b)[j]).start <= (#[trigger] (a
        + b)[k]).start by {
        if j < a.len() && k < a.len() {
            assert((a + b)[j] == a[j] && (a + b)[k] == a[k]);
        } else if j < a.len() {
            assert((a + b)[j] == a[j] && (a + b)[k] == b[k - a.len()]);
        } else {
            assert((a + b)[j] == b[j - a.len()] && (a + b)[k] == b[k - a.len()]);
        }
    }
}

#[verifier::rlimit(100)]
pub proof fn lemma_extract_from_ordered(s: Seq<u8>, pos: int)
    requires
        0 <= pos <= s.len(),
    ensures
        forall|k: int|
            0 <= k < extract_from(s, pos).len() ==> pos <= (#[trigger] extract_from(
                s,
                pos,
            )[k]).start <= extract_from(s, pos)[k].end <= s.len(),
        forall|j: int, k: int|
            0 <= j <= k < extract_from(s, pos).len() ==> (#[trigger] extract_from(
                s,
                pos,
            )[j]).start <= (#[trigger] extract_from(s, pos)[k]).start,
    decreases s.len() - pos,
{
    let t = spec_next_token(s, pos);
    lemma_next_token_bounds(s, pos);
    let recs = extract_from(s, pos);
    if t.kind == Token::EOF {
    } else if t.kind == Token::Import {
        let u = spec_next_token(s, t.end);
        lemma_next_token_bounds(s, t.end);
        if u.kind == Token::OpenParen {
            let v = spec_next_token(s, u.end);
            lemma_next_token_bounds(s, u.end);
            if v.kind == Token::StringLiteral {
                lemma_extract_from_ordered(s, v.end);
                let head = seq![
                    ImportRecord {
                        source: v.val,
                        is_dynamic: true,
                        is_type_only: false,
                        start: t.start,
                        end: v.end,
                    },
                ];
                lemma_records_concat(head, extract_from(s, v.end), pos, v.end, s.len() as int);
                assert(recs == head + extract_from(s, v.end));
            } else {
                lemma_extract_from_ordered(s, v.end);
                assert(recs == extract_from(s, v.end));
            }
        } else if u.kind == Token::Type {
            let r = stmt_scan(s, u.end, t.start, true);
            lemma_stmt_scan_bounds(s, u.end, t.start, true);
            lemma_extract_from_ordered(s, r.1);
            lemma_records_concat(opt_rec(r.0), extract_from(s, r.1), pos, r.1, s.len() as int);
            assert(recs == opt_rec(r.0) + extract_from(s, r.1));
        } else if u.kind == Token::StringLiteral {
            lemma_extract_from_ordered(s, u.end);
            let head = seq![
                ImportRecord {
                    source: u.val,
                    is_dynamic: false,
                    is_type_only: false,
                    start: t.start,
                    end: u.end,
                },
            ];
            lemma_records_concat(head, extract_from(s, u.end), pos, u.end, s.len() as int);
            assert(recs == head + extract_from(s, u.end));
        } else {
            let r = stmt_scan(s, u.end, t.start, false);
            lemma_stmt_scan_bounds(s, u.end, t.start, false);
            lemma_extract_from_ordered(s, r.1);
            lemma_records_concat(opt_rec(r.0), extract_from(s, r.1), pos, r.1, s.len() as int);
            assert(recs == opt_rec(r.0) + extract_from(s, r.1));
        }
    } else if t.kind == Token::Export {
        let r = stmt_scan(s, t.end, t.start, false);
        lemma_stmt_scan_bounds(s, t.end, t.start, false);
        lemma_extract_from_ordered(s, r.1);
        lemma_records_concat(opt_rec(r.0), extract_from(s, r.1), pos, r.1, s.len() as int);
        assert(recs == opt_rec(r.0) + extract_from(s, r.1));
    } else if t.kind == Token::Require {
        let u = spec_next_token(s, t.end);
        lemma_next_token_bounds(s, t.end);
        if u.kind == Token::OpenParen {
            let v = spec_next_token(s, u.end);
            lemma_next_token_bounds(s, u.end);
            if v.kind == Token::StringLiteral {
                lemma_extract_from_ordered(s, v.end);
                let head = seq![
                    ImportRecord {
                        source: v.val,
                        is_dynamic: false,
                        is_type_only: false,
                        start: t.start,
                        end: v.end,
                    },
                ];
                lemma_records_concat(head, extract_from(s, v.end), pos, v.end, s.len() as int);
                assert(recs == head + extract_from(s, v.end));
            } else {
                lemma_extract_from_ordered(s, v.end);
                assert(recs == extract_from(s, v.end));
            }
        } else {
            lemma_extract_from_ordered(s, u.end);
            assert(recs == extract_from(s, u.end));
        }
    } else {
        lemma_extract_from_ordered(s, t.end);
        assert(recs == extract_from(s, t.end));
    }
}


/// Law: extraction reports records in source order — their start offsets
/// are non-decreasing along the sequence — and every reported span is a
/// valid sub-range of the input.
pub proof fn lemma_import_order(s: Seq<u8>)
    ensures
        forall|j: int, k: int|
            0 <= j <= k < extract_from(s, 0).len() ==> #[trigger] extract_from(s, 0)[j].start
                <= #[trigger] extract_from(s, 0)[k].start,
        forall|k: int|
            0 <= k < extract_from(s, 0).len() ==> 0 <= #[trigger] extract_from(s, 0)[k].start
                && extract_from(s, 0)[k].start <= extract_from(s, 0)[k].end <= s.len(),
{
    lemma_extract_from_ordered(s, 0);
}

} // verus!
