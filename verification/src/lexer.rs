//! The coarse lexer behind import extraction: keywords, string literals,
//! punctuation, identifiers, a JSX-open marker, and a catch-all token that
//! advances exactly one byte, so the token stream always makes progress.

use vstd::prelude::*;
use crate::{spec_is_alpha, spec_is_ident_byte, spec_is_quote, spec_is_upper, spec_is_ws, is_alpha,
    is_ident_byte, is_quote, is_upper, is_ws, B_COMMA, B_GT, B_LBRACE, B_LPAREN, B_LT, B_RBRACE,
    B_RPAREN, B_SEMI, B_SLASH, B_STAR, B_DOLLAR, B_UNDERSCORE};
use crate::scan::{block_close_off, ident_run, lemma_block_close_bound, lemma_ident_run_bound,
    lemma_line_rest_bound, lemma_str_lit_len_bound, line_rest, scan_block_close, scan_ident,
    scan_line, scan_str_lit, str_lit_closed, str_lit_len};

verus! {

/// Token kinds recognized by the metadata lexer.
#[derive(Debug, Clone, Copy, PartialEq, Eq, Structural)]
pub enum Token {
    Import,
    Export,
    From,
    Require,
    Await,
    Type,
    StringLiteral,
    OpenParen,
    CloseParen,
    OpenBrace,
    CloseBrace,
    Semicolon,
    Comma,
    Star,
    As,
    Identifier,
    JSXOpen,
    EOF,
    Other,
}

/// A token as the lexer's specification describes it: its kind, the offset
/// where it starts, its text (for string literals and identifiers), and the
/// cursor position after it.
pub ghost struct SpecToken {
    pub kind: Token,
    pub start: int,
    pub has_val: bool,
    pub val: Seq<u8>,
    pub end: int,
}

/// Length of the whitespace-and-comments stretch the lexer skips before a
/// token: whitespace bytes, `//` comments up to their newline, and `/* */`
/// comments; an unterminated block comment consumes the rest of the input.
pub open spec fn lex_ws_len(s: Seq<u8>, i: int) -> nat
    decreases s.len() - i,
{
    if i < 0 || i >= s.len() {
        0
    } else if spec_is_ws(s[i]) {
        1 + lex_ws_len(s, i + 1)
    } else if s[i] == B_SLASH && i + 1 < s.len() && s[i + 1] == B_SLASH {
        proof {
            lemma_line_rest_bound(s, i + 2);
        }
        let r = 2 + line_rest(s, i + 2);
        r + lex_ws_len(s, i + r)
    } else if s[i] == B_SLASH && i + 1 < s.len() && s[i + 1] == B_STAR {
        match block_close_off(s, i + 2) {
            Some(o) => {
                proof {
                    lemma_block_close_bound(s, i + 2);
                }
                let r = 4 + o;
                r + lex_ws_len(s, i + r)
            },
            None => (s.len() - i) as nat,
        }
    } else {
        0
    }
}

/// Skips whitespace and comments from `i`.
pub fn skip_ws(s: &[u8], i: usize) -> (j: usize)
    requires
        i <= s@.len(),
    ensures
        j == i + lex_ws_len(s@, i as int),
        j <= s@.len(),
{
    let mut j = i;
    loop
        invariant
            i <= j <= s@.len(),
            i + lex_ws_len(s@, i as int) == j + lex_ws_len(s@, j as int),
        decreases s@.len() - j,
    {
        if j >= s.len() {
            return j;
        }
        let b = s[j];
        if is_ws(b) {
            j = j + 1;
        } else if b == B_SLASH && j + 1 < s.len() && s[j + 1] == B_SLASH {
            j = scan_line(s, j + 2);
        } else if b == B_SLASH && j + 1 < s.len() && s[j + 1] == B_STAR {
            match scan_block_close(s, j + 2) {
                Some(k) => {
                    j = k + 2;
                },
                None => {
                    return s.len();
                },
            }
        } else {
            return j;
        }
    }
}

/// The word starting at `i` matches the keyword `w` and does not continue
/// as a longer identifier.
pub open spec fn spec_kw_boundary(s: Seq<u8>, j: int) -> bool {
    j >= s.len() || !spec_is_ident_byte(s[j])
}

pub open spec fn kw_import_at(s: Seq<u8>, i: int) -> bool {
    &&& i + 6 <= s.len()
    &&& s[i] == 105
    &&& s[i + 1] == 109
    &&& s[i + 2] == 112
    &&& s[i + 3] == 111
    &&& s[i + 4] == 114
    &&& s[i + 5] == 116
    &&& spec_kw_boundary(s, i + 6)
}

pub open spec fn kw_export_at(s: Seq<u8>, i: int) -> bool {
    &&& i + 6 <= s.len()
    &&& s[i] == 101
    &&& s[i + 1] == 120
    &&& s[i + 2] == 112
    &&& s[i + 3] == 111
    &&& s[i + 4] == 114
    &&& s[i + 5] == 116
    &&& spec_kw_boundary(s, i + 6)
}

pub open spec fn kw_from_at(s: Seq<u8>, i: int) -> bool {
    &&& i + 4 <= s.len()
    &&& s[i] == 102
    &&& s[i + 1] == 114
    &&& s[i + 2] == 111
    &&& s[i + 3] == 109
    &&& spec_kw_boundary(s, i + 4)
}

pub open spec fn kw_require_at(s: Seq<u8>, i: int) -> bool {
    &&& i + 7 <= s.len()
    &&& s[i] == 114
    &&& s[i + 1] == 101
    &&& s[i + 2] == 113
    &&& s[i + 3] == 117
    &&& s[i + 4] == 105
    &&& s[i + 5] == 114
    &&& s[i + 6] == 101
    &&& spec_kw_boundary(s, i + 7)
}

pub open spec fn kw_await_tok_at(s: Seq<u8>, i: int) -> bool {
    &&& i + 5 <= s.len()
    &&& s[i] == 97
    &&& s[i + 1] == 119
    &&& s[i + 2] == 97
    &&& s[i + 3] == 105
    &&& s[i + 4] == 116
    &&& spec_kw_boundary(s, i + 5)
}

pub open spec fn kw_type_at(s: Seq<u8>, i: int) -> bool {
    &&& i + 4 <= s.len()
    &&& s[i] == 116
    &&& s[i + 1] == 121
    &&& s[i + 2] == 112
    &&& s[i + 3] == 101
    &&& spec_kw_boundary(s, i + 4)
}

pub open spec fn kw_as_at(s: Seq<u8>, i: int) -> bool {
    &&& i + 2 <= s.len()
    &&& s[i] == 97
    &&& s[i + 1] == 115
    &&& spec_kw_boundary(s, i + 2)
}

fn check_kw_import(s: &[u8], i: usize) -> (r: bool)
    requires
        i <= s@.len(),
    ensures
        r == kw_import_at(s@, i as int),
{
    if s.len() - i < 6 {
        return false;
    }
    s[i] == 105 && s[i + 1] == 109 && s[i + 2] == 112 && s[i + 3] == 111 && s[i + 4] == 114
        && s[i + 5] == 116 && (i + 6 >= s.len() || !is_ident_byte(s[i + 6]))
}

fn check_kw_export(s: &[u8], i: usize) -> (r: bool)
    requires
        i <= s@.len(),
    ensures
        r == kw_export_at(s@, i as int),
{
    if s.len() - i < 6 {
        return false;
    }
    s[i] == 101 && s[i + 1] == 120 && s[i + 2] == 112 && s[i + 3] == 111 && s[i + 4] == 114
        && s[i + 5] == 116 && (i + 6 >= s.len() || !is_ident_byte(s[i + 6]))
}

fn check_kw_from(s: &[u8], i: usize) -> (r: bool)
    requires
        i <= s@.len(),
    ensures
        r == kw_from_at(s@, i as int),
{
    if s.len() - i < 4 {
        return false;
    }
    s[i] == 102 && s[i + 1] == 114 && s[i + 2] == 111 && s[i + 3] == 109 && (i + 4 >= s.len()
        || !is_ident_byte(s[i + 4]))
}

fn check_kw_require(s: &[u8], i: usize) -> (r: bool)
    requires
        i <= s@.len(),
    ensures
        r == kw_require_at(s@, i as int),
{
    if s.len() - i < 7 {
        return false;
    }
    s[i] == 114 && s[i + 1] == 101 && s[i + 2] == 113 && s[i + 3] == 117 && s[i + 4] == 105 && s[i
        + 5] == 114 && s[i + 6] == 101 && (i + 7 >= s.len() || !is_ident_byte(s[i + 7]))
}

fn check_kw_await(s: &[u8], i: usize) -> (r: bool)
    requires
        i <= s@.len(),
    ensures
        r == kw_await_tok_at(s@, i as int),
{
    if s.len() - i < 5 {
        return false;
    }
    s[i] == 97 && s[i + 1] == 119 && s[i + 2] == 97 && s[i + 3] == 105 && s[i + 4] == 116 && (i + 5
        >= s.len() || !is_ident_byte(s[i + 5]))
}

fn check_kw_type(s: &[u8], i: usize) -> (r: bool)
    requires
        i <= s@.len(),
    ensures
        r == kw_type_at(s@, i as int),
{
    if s.len() - i < 4 {
        return false;
    }
    s[i] == 116 && s[i + 1] == 121 && s[i + 2] == 112 && s[i + 3] == 101 && (i + 4 >= s.len()
        || !is_ident_byte(s[i + 4]))
}

fn check_kw_as(s: &[u8], i: usize) -> (r: bool)
    requires
        i <= s@.len(),
    ensures
        r == kw_as_at(s@, i as int),
{
    if s.len() - i < 2 {
        return false;
    }
    s[i] == 97 && s[i + 1] == 115 && (i + 2 >= s.len() || !is_ident_byte(s[i + 2]))
}

/// Builds the specification token with no text.
pub open spec fn tok(kind: Token, start: int, end: int) -> SpecToken {
    SpecToken { kind, start, has_val: false, val: Seq::empty(), end }
}

/// The token the lexer produces at cursor position `pos`: whitespace and
/// comments are skipped, then the longest matching form is taken, keywords
/// first, then string literals (an unterminated one consumes to end of
/// input and degrades to the catch-all token), punctuation, the JSX-open
/// marker, identifiers, and finally the catch-all token of one byte.
pub open spec fn spec_next_token(s: Seq<u8>, pos: int) -> SpecToken {
    let p = pos + lex_ws_len(s, pos);
    if p >= s.len() {
        tok(Token::EOF, p, p)
    } else if kw_import_at(s, p) {
        tok(Token::Import, p, p + 6)
    } else if kw_export_at(s, p) {
        tok(Token::Export, p, p + 6)
    } else if kw_from_at(s, p) {
        tok(Token::From, p, p + 4)
    } else if kw_require_at(s, p) {
        tok(Token::Require, p, p + 7)
    } else if kw_await_tok_at(s, p) {
        tok(Token::Await, p, p + 5)
    } else if kw_type_at(s, p) {
        tok(Token::Type, p, p + 4)
    } else if kw_as_at(s, p) {
        tok(Token::As, p, p + 2)
    } else if spec_is_quote(s[p]) {
        if str_lit_closed(s, s[p], p + 1) {
            let close = p + 1 + str_lit_len(s, s[p], p + 1);
            SpecToken {
                kind: Token::StringLiteral,
                start: p,
                has_val: true,
                val: s.subrange(p + 1, close - 1),
                end: close,
            }
        } else {
            tok(Token::Other, p, s.len() as int)
        }
    } else if s[p] == B_LPAREN {
        tok(Token::OpenParen, p, p + 1)
    } else if s[p] == B_RPAREN {
        tok(Token::CloseParen, p, p + 1)
    } else if s[p] == B_LBRACE {
        tok(Token::OpenBrace, p, p + 1)
    } else if s[p] == B_RBRACE {
        tok(Token::CloseBrace, p, p + 1)
    } else if s[p] == B_SEMI {
        tok(Token::Semicolon, p, p + 1)
    } else if s[p] == B_COMMA {
        tok(Token::Comma, p, p + 1)
    } else if s[p] == B_STAR {
        tok(Token::Star, p, p + 1)
    } else if s[p] == B_LT && p + 1 < s.len() && (spec_is_upper(s[p + 1]) || s[p + 1] == B_SLASH
        || s[p + 1] == B_GT) {
        tok(Token::JSXOpen, p, p + 1)
    } else if spec_is_alpha(s[p]) || s[p] == B_UNDERSCORE || s[p] == B_DOLLAR {
        let e = p + ident_run(s, p);
        SpecToken {
            kind: Token::Identifier,
            start: p,
            has_val: true,
            val: s.subrange(p, e),
            end: e,
        }
    } else {
        tok(Token::Other, p, p + 1)
    }
}

/// The relation between an executable token and its specification.
pub open spec fn token_matches(
    kind: Token,
    start: usize,
    val: Option<Vec<u8>>,
    end: usize,
    t: SpecToken,
) -> bool {
    &&& kind == t.kind
    &&& start == t.start
    &&& end == t.end
    &&& t.has_val <==> val is Some
    &&& (val matches Some(v) ==> v@ == t.val)
}

/// Produces the next token at `pos`; returns its kind, start offset, text
/// (for string literals and identifiers), and the position after it.
pub fn next_token(s: &[u8], pos: usize) -> (r: (Token, usize, Option<Vec<u8>>, usize))
    requires
        pos <= s@.len(),
    ensures
        token_matches(r.0, r.1, r.2, r.3, spec_next_token(s@, pos as int)),
        pos <= r.1 <= r.3 <= s@.len(),
        r.0 != Token::EOF ==> r.1 < r.3,
        r.0 == Token::EOF ==> r.1 == r.3,
{
    let p = skip_ws(s, pos);
    if p >= s.len() {
        return (Token::EOF, p, None, p);
    }
    if check_kw_import(s, p) {
        return (Token::Import, p, None, p + 6);
    }
    if check_kw_export(s, p) {
        return (Token::Export, p, None, p + 6);
    }
    if check_kw_from(s, p) {
        return (Token::From, p, None, p + 4);
    }
    if check_kw_require(s, p) {
        return (Token::Require, p, None, p + 7);
    }
    if check_kw_await(s, p) {
        return (Token::Await, p, None, p + 5);
    }
    if check_kw_type(s, p) {
        return (Token::Type, p, None, p + 4);
    }
    if check_kw_as(s, p) {
        return (Token::As, p, None, p + 2);
    }
    let b = s[p];
    if is_quote(b) {
        let (close, found) = scan_str_lit(s, b, p + 1);
        if found {
            let v = vstd::slice::slice_to_vec(&s[p + 1..close - 1]);
            return (Token::StringLiteral, p, Some(v), close);
        } else {
            return (Token::Other, p, None, s.len());
        }
    }
    if b == B_LPAREN {
        return (Token::OpenParen, p, None, p + 1);
    }
    if b == B_RPAREN {
        return (Token::CloseParen, p, None, p + 1);
    }
    if b == B_LBRACE {
        return (Token::OpenBrace, p, None, p + 1);
    }
    if b == B_RBRACE {
        return (Token::CloseBrace, p, None, p + 1);
    }
    if b == B_SEMI {
        return (Token::Semicolon, p, None, p + 1);
    }
    if b == B_COMMA {
        return (Token::Comma, p, None, p + 1);
    }
    if b == B_STAR {
        return (Token::Star, p, None, p + 1);
    }
    if b == B_LT && p + 1 < s.len() && (is_upper(s[p + 1]) || s[p + 1] == B_SLASH || s[p + 1]
        == B_GT) {
        return (Token::JSXOpen, p, None, p + 1);
    }
    if is_alpha(b) || b == B_UNDERSCORE || b == B_DOLLAR {
        let e = scan_ident(s, p);
        let v = vstd::slice::slice_to_vec(&s[p..e]);
        return (Token::Identifier, p, Some(v), e);
    }
    (Token::Other, p, None, p + 1)
}

pub proof fn lemma_lex_ws_len_bound(s: Seq<u8>, i: int)
    requires
        0 <= i <= s.len(),
    ensures
        i + lex_ws_len(s, i) <= s.len(),
    decreases s.len() - i,
{
    if i < s.len() {
        if spec_is_ws(s[i]) {
            lemma_lex_ws_len_bound(s, i + 1);
        } else if s[i] == B_SLASH && i + 1 < s.len() && s[i + 1] == B_SLASH {
            lemma_line_rest_bound(s, i + 2);
            lemma_lex_ws_len_bound(s, i + 2 + line_rest(s, i + 2));
        } else if s[i] == B_SLASH && i + 1 < s.len() && s[i + 1] == B_STAR {
            match block_close_off(s, i + 2) {
                Some(o) => {
                    lemma_block_close_bound(s, i + 2);
                    lemma_lex_ws_len_bound(s, i + 4 + o);
                },
                None => {},
            }
        }
    }
}

/// Position bounds of the token at `pos`: it starts no earlier than `pos`,
/// ends within the input, and consumes at least one byte unless it is the
/// end-of-input token.
pub proof fn lemma_next_token_bounds(s: Seq<u8>, pos: int)
    requires
        0 <= pos <= s.len(),
    ensures
        pos <= spec_next_token(s, pos).start,
        spec_next_token(s, pos).start <= spec_next_token(s, pos).end <= s.len(),
        spec_next_token(s, pos).kind != Token::EOF ==> spec_next_token(s, pos).start
            < spec_next_token(s, pos).end,
        spec_next_token(s, pos).kind == Token::EOF ==> spec_next_token(s, pos).start
            == spec_next_token(s, pos).end == s.len(),
{
    lemma_lex_ws_len_bound(s, pos);
    let p = pos + lex_ws_len(s, pos);
    if p < s.len() {
        if spec_is_quote(s[p]) {
            lemma_str_lit_len_bound(s, s[p], p + 1);
        }
        lemma_ident_run_bound(s, p);
    }
}

} // verus!
