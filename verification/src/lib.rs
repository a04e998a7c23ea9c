//! A source-to-source transformation pipeline for JavaScript/TypeScript/JSX
//! text: import/require/export extraction, structural feature detection
//! (JSX, top-level await), TypeScript type erasure, JSX rewriting into plain
//! function calls, and bundle generation — all as single forward scans over
//! raw bytes, total on every input.

use vstd::prelude::*;

pub mod scan;
pub mod bundler;
pub mod bundler_text;
pub mod emit;
pub mod eraser;
pub mod jsx;
pub mod lexer;
pub mod parser;
pub mod transformer;

verus! {

// Named byte values, so that scanning code reads as the characters it matches.
pub const B_TAB: u8 = 9;
pub const B_NL: u8 = 10;
pub const B_VT: u8 = 11;
pub const B_FF: u8 = 12;
pub const B_CR: u8 = 13;
pub const B_SPACE: u8 = 32;
pub const B_BANG: u8 = 33;
pub const B_DQUOTE: u8 = 34;
pub const B_DOLLAR: u8 = 36;
pub const B_SQUOTE: u8 = 39;
pub const B_LPAREN: u8 = 40;
pub const B_RPAREN: u8 = 41;
pub const B_STAR: u8 = 42;
pub const B_COMMA: u8 = 44;
pub const B_DASH: u8 = 45;
pub const B_DOT: u8 = 46;
pub const B_SLASH: u8 = 47;
pub const B_COLON: u8 = 58;
pub const B_SEMI: u8 = 59;
pub const B_LT: u8 = 60;
pub const B_EQ: u8 = 61;
pub const B_GT: u8 = 62;
pub const B_LBRACK: u8 = 91;
pub const B_BACKSLASH: u8 = 92;
pub const B_RBRACK: u8 = 93;
pub const B_UNDERSCORE: u8 = 95;
pub const B_BACKTICK: u8 = 96;
pub const B_LBRACE: u8 = 123;
pub const B_RBRACE: u8 = 125;

pub open spec fn spec_is_digit(b: u8) -> bool {
    48 <= b && b <= 57
}

pub open spec fn spec_is_lower(b: u8) -> bool {
    97 <= b && b <= 122
}

pub open spec fn spec_is_upper(b: u8) -> bool {
    65 <= b && b <= 90
}

pub open spec fn spec_is_alpha(b: u8) -> bool {
    spec_is_lower(b) || spec_is_upper(b)
}

pub open spec fn spec_is_alnum(b: u8) -> bool {
    spec_is_alpha(b) || spec_is_digit(b)
}

/// Bytes that may appear in a JavaScript identifier.
pub open spec fn spec_is_ident_byte(b: u8) -> bool {
    spec_is_alnum(b) || b == B_UNDERSCORE || b == B_DOLLAR
}

/// The four whitespace bytes the scanners skip between tokens.
pub open spec fn spec_is_ws(b: u8) -> bool {
    b == B_SPACE || b == B_TAB || b == B_NL || b == B_CR
}

/// Space or tab: the in-line whitespace skipped inside statements.
pub open spec fn spec_is_sp(b: u8) -> bool {
    b == B_SPACE || b == B_TAB
}

/// The three quote bytes that open a string literal.
pub open spec fn spec_is_quote(b: u8) -> bool {
    b == B_DQUOTE || b == B_SQUOTE || b == B_BACKTICK
}

pub fn is_digit(b: u8) -> (r: bool)
    ensures
        r == spec_is_digit(b),
{
    48 <= b && b <= 57
}

pub fn is_lower(b: u8) -> (r: bool)
    ensures
        r == spec_is_lower(b),
{
    97 <= b && b <= 122
}

pub fn is_upper(b: u8) -> (r: bool)
    ensures
        r == spec_is_upper(b),
{
    65 <= b && b <= 90
}

pub fn is_alpha(b: u8) -> (r: bool)
    ensures
        r == spec_is_alpha(b),
{
    is_lower(b) || is_upper(b)
}

pub fn is_alnum(b: u8) -> (r: bool)
    ensures
        r == spec_is_alnum(b),
{
    is_alpha(b) || is_digit(b)
}

pub fn is_ident_byte(b: u8) -> (r: bool)
    ensures
        r == spec_is_ident_byte(b),
{
    is_alnum(b) || b == B_UNDERSCORE || b == B_DOLLAR
}

pub fn is_ws(b: u8) -> (r: bool)
    ensures
        r == spec_is_ws(b),
{
    b == B_SPACE || b == B_TAB || b == B_NL || b == B_CR
}

pub fn is_sp(b: u8) -> (r: bool)
    ensures
        r == spec_is_sp(b),
{
    b == B_SPACE || b == B_TAB
}

pub fn is_quote(b: u8) -> (r: bool)
    ensures
        r == spec_is_quote(b),
{
    b == B_DQUOTE || b == B_SQUOTE || b == B_BACKTICK
}

} // verus!
