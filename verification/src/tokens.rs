//! The tokenizer: turns the input characters into the token stream the
//! dialect reducers walk.  String escapes are decoded here, and every
//! decoded Unicode escape is checked to be a legal scalar value.
use vstd::prelude::*;
use crate::error::{Error, SpecError};
use crate::literals::{
    digit, digit_value, digit_value_of, hex_digit, ident_char, ident_start, is_digit,
    is_hex_digit, is_ident_char, is_ident_start, is_oct_digit, is_ws, oct_digit,
    sp_scan_radix_run, scan_radix_run, ws,
};
use crate::text::{char_from_u32, is_scalar_value, push_char, CowStr};

verus! {

broadcast use vstd::utf8::char_u32_cast, vstd::std_specs::vec::axiom_spec_len;

// ---------------------------------------------------------------------
// Tokens
// ---------------------------------------------------------------------
/// The model of a [`Token`].
pub enum SpecToken {
    /// An identifier, possibly dotted, possibly with a leading dot.
    Word { relative: bool, dotted: bool, text: Seq<char> },
    /// An unsigned integer literal (decimal, octal or hexadecimal).
    IntLit { value: u64 },
    /// A float literal, kept as its raw text.
    FloatLit { text: Seq<char> },
    /// A string literal, decoded; `escaped` records whether any escape
    /// sequence occurred.
    StrLit { value: Seq<char>, escaped: bool },
    /// A single punctuation character.
    Punct(char),
    /// A line or block comment body.
    Comment(Seq<char>),
}

/// One lexical token of the input.
#[derive(Debug, Clone, PartialEq)]
pub enum Token {
    Word { relative: bool, dotted: bool, text: String },
    IntLit { value: u64 },
    FloatLit { text: String },
    StrLit { value: String, escaped: bool },
    Punct(char),
    Comment(String),
}

impl View for Token {
    type V = SpecToken;

    open spec fn view(&self) -> SpecToken {
        match self {
            Token::Word { relative, dotted, text } => SpecToken::Word {
                relative: *relative,
                dotted: *dotted,
                text: text@,
            },
            Token::IntLit { value } => SpecToken::IntLit { value: *value },
            Token::FloatLit { text } => SpecToken::FloatLit { text: text@ },
            Token::StrLit { value, escaped } => SpecToken::StrLit {
                value: value@,
                escaped: *escaped,
            },
            Token::Punct(c) => SpecToken::Punct(*c),
            Token::Comment(text) => SpecToken::Comment(text@),
        }
    }
}

impl DeepView for Token {
    type V = SpecToken;

    open spec fn deep_view(&self) -> SpecToken {
        self.view()
    }
}

/// The punctuation characters of the grammar.
pub open spec fn is_punct(c: char) -> bool {
    c == ';' || c == '=' || c == '{' || c == '}' || c == '(' || c == ')' || c == '[' || c == ']'
        || c == '<' || c == '>' || c == ',' || c == '-' || c == '+'
}

pub fn punct(c: char) -> (r: bool)
    ensures
        r == is_punct(c),
{
    c == ';' || c == '=' || c == '{' || c == '}' || c == '(' || c == ')' || c == '[' || c == ']'
        || c == '<' || c == '>' || c == ',' || c == '-' || c == '+'
}

// ---------------------------------------------------------------------
// Low-level scanners
// ---------------------------------------------------------------------
/// The first position at or after `i` holding a non-whitespace character.
pub open spec fn sp_skip_ws(s: Seq<char>, i: int) -> int
    decreases s.len() - i,
{
    if 0 <= i && i < s.len() && is_ws(s[i]) {
        sp_skip_ws(s, i + 1)
    } else {
        i
    }
}

pub fn skip_ws(cs: &Vec<char>, i: usize) -> (r: usize)
    requires
        i <= cs@.len(),
    ensures
        r as int == sp_skip_ws(cs@, i as int),
        i <= r <= cs@.len(),
    decreases cs@.len() - i,
{
    if i < cs.len() && ws(cs[i]) {
        skip_ws(cs, i + 1)
    } else {
        i
    }
}

/// The end of the maximal digit run starting at `i`.
pub open spec fn sp_digit_run_end(s: Seq<char>, i: int) -> int
    decreases s.len() - i,
{
    if 0 <= i && i < s.len() && is_digit(s[i]) {
        sp_digit_run_end(s, i + 1)
    } else {
        i
    }
}

pub fn digit_run_end(cs: &Vec<char>, i: usize) -> (r: usize)
    requires
        i <= cs@.len(),
    ensures
        r as int == sp_digit_run_end(cs@, i as int),
        i <= r <= cs@.len(),
        (i < cs@.len() && is_digit(cs@[i as int])) ==> r > i,
    decreases cs@.len() - i,
{
    if i < cs.len() && digit(cs[i]) {
        digit_run_end(cs, i + 1)
    } else {
        i
    }
}

/// The end of a word starting at `i`: a run of identifier characters,
/// continued across dots that are followed by another identifier start.
/// The second component records whether a dot occurred.
pub open spec fn sp_word_scan(s: Seq<char>, i: int) -> (int, bool)
    decreases s.len() - i,
{
    if i < 0 || i >= s.len() {
        (i, false)
    } else if is_ident_char(s[i]) {
        sp_word_scan(s, i + 1)
    } else if s[i] == '.' && i + 1 < s.len() && is_ident_start(s[i + 1]) {
        let (e, _d) = sp_word_scan(s, i + 2);
        (e, true)
    } else {
        (i, false)
    }
}

pub fn word_scan(cs: &Vec<char>, i: usize) -> (r: (usize, bool))
    requires
        i <= cs@.len(),
    ensures
        (r.0 as int, r.1) == sp_word_scan(cs@, i as int),
        i <= r.0 <= cs@.len(),
        (i < cs@.len() && is_ident_char(cs@[i as int])) ==> r.0 > i,
    decreases cs@.len() - i,
{
    if i >= cs.len() {
        (i, false)
    } else if ident_char(cs[i]) {
        word_scan(cs, i + 1)
    } else if cs[i] == '.' && i + 1 < cs.len() && ident_start(cs[i + 1]) {
        let (e, _d) = word_scan(cs, i + 2);
        (e, true)
    } else {
        (i, false)
    }
}

/// Scans a line comment body up to (not including) the newline.
pub open spec fn sp_scan_line_comment(s: Seq<char>, i: int, acc: Seq<char>) -> (Seq<char>, int)
    decreases s.len() - i,
{
    if i < 0 || i >= s.len() {
        (acc, i)
    } else if s[i] == '\n' {
        (acc, i + 1)
    } else {
        sp_scan_line_comment(s, i + 1, acc.push(s[i]))
    }
}

pub fn scan_line_comment(cs: &Vec<char>, i: usize, acc: String) -> (r: (String, usize))
    requires
        i <= cs@.len(),
    ensures
        ({
            let (sv, sj) = sp_scan_line_comment(cs@, i as int, acc@);
            r.0@ == sv && r.1 as int == sj
        }),
        i <= r.1 <= cs@.len(),
    decreases cs@.len() - i,
{
    if i >= cs.len() {
        (acc, i)
    } else if cs[i] == '\n' {
        (acc, i + 1)
    } else {
        let mut a = acc;
        push_char(&mut a, cs[i]);
        scan_line_comment(cs, i + 1, a)
    }
}

/// Scans a block comment body up to and over the closing `*/`; an
/// unterminated block comment is a syntax error at the end of input.
pub open spec fn sp_scan_block_comment(s: Seq<char>, i: int, acc: Seq<char>) -> Result<
    (Seq<char>, int),
    SpecError,
>
    decreases s.len() - i,
{
    if i < 0 || i >= s.len() {
        Err(SpecError::Syntax { at: s.len() as int })
    } else if s[i] == '*' && i + 1 < s.len() && s[i + 1] == '/' {
        Ok((acc, i + 2))
    } else {
        sp_scan_block_comment(s, i + 1, acc.push(s[i]))
    }
}

pub fn scan_block_comment(cs: &Vec<char>, i: usize, acc: String) -> (r: Result<
    (String, usize),
    Error,
>)
    requires
        i <= cs@.len(),
    ensures
        match (r, sp_scan_block_comment(cs@, i as int, acc@)) {
            (Ok((v, j)), Ok((sv, sj))) => v@ == sv && j as int == sj && i < j <= cs@.len(),
            (Err(e), Err(se)) => e@ == se,
            _ => false,
        },
    decreases cs@.len() - i,
{
    if i >= cs.len() {
        Err(Error::Syntax { at: cs.len() })
    } else if cs[i] == '*' && i + 1 < cs.len() && cs[i + 1] == '/' {
        Ok((acc, i + 2))
    } else {
        let mut a = acc;
        push_char(&mut a, cs[i]);
        scan_block_comment(cs, i + 1, a)
    }
}

// ---------------------------------------------------------------------
// String literals
// ---------------------------------------------------------------------
/// The value of two hexadecimal digit characters.
pub open spec fn hex2_val(s: Seq<char>, i: int) -> u32 {
    (16 * digit_value(s[i]) + digit_value(s[i + 1])) as u32
}

/// The value of four hexadecimal digit characters.
pub open spec fn hex4_val(s: Seq<char>, i: int) -> u32 {
    (4096 * digit_value(s[i]) + 256 * digit_value(s[i + 1]) + 16 * digit_value(s[i + 2])
        + digit_value(s[i + 3])) as u32
}

/// The value of eight hexadecimal digit characters.
pub open spec fn hex8_val(s: Seq<char>, i: int) -> u32 {
    (65536 * (hex4_val(s, i) as int) + hex4_val(s, i + 4) as int) as u32
}

/// The value of three octal digit characters.
pub open spec fn oct3_val(s: Seq<char>, i: int) -> u32 {
    (64 * digit_value(s[i]) + 8 * digit_value(s[i + 1]) + digit_value(s[i + 2])) as u32
}

/// Reads two hexadecimal digits as a number.
fn hex2_at(cs: &Vec<char>, i: usize) -> (r: u32)
    requires
        i + 2 <= cs@.len(),
        is_hex_digit(cs@[i as int]),
        is_hex_digit(cs@[i as int + 1]),
    ensures
        r == hex2_val(cs@, i as int),
        r <= 255,
{
    proof {
        vstd::std_specs::vec::axiom_spec_len(cs);
    }
    16 * (digit_value_of(cs[i]) as u32) + (digit_value_of(cs[i + 1]) as u32)
}

/// Reads four hexadecimal digits as a number.
fn hex4_at(cs: &Vec<char>, i: usize) -> (r: u32)
    requires
        i + 4 <= cs@.len(),
        is_hex_digit(cs@[i as int]),
        is_hex_digit(cs@[i as int + 1]),
        is_hex_digit(cs@[i as int + 2]),
        is_hex_digit(cs@[i as int + 3]),
    ensures
        r == hex4_val(cs@, i as int),
        r <= 65535,
{
    proof {
        vstd::std_specs::vec::axiom_spec_len(cs);
    }
    4096 * (digit_value_of(cs[i]) as u32) + 256 * (digit_value_of(cs[i + 1]) as u32) + 16 * (
    digit_value_of(cs[i + 2]) as u32) + (digit_value_of(cs[i + 3]) as u32)
}

/// Reads three octal digits as a number.
fn oct3_at(cs: &Vec<char>, i: usize) -> (r: u32)
    requires
        i + 3 <= cs@.len(),
        is_oct_digit(cs@[i as int]),
        is_oct_digit(cs@[i as int + 1]),
        is_oct_digit(cs@[i as int + 2]),
    ensures
        r == oct3_val(cs@, i as int),
        r <= 511,
{
    proof {
        vstd::std_specs::vec::axiom_spec_len(cs);
    }
    64 * (digit_value_of(cs[i]) as u32) + 8 * (digit_value_of(cs[i + 1]) as u32) + (
    digit_value_of(cs[i + 2]) as u32)
}

/// Decodes one escape sequence; `i` is the position of the character
/// after the backslash.  Yields the decoded character and the position
/// after the sequence.  A decoded code point outside the Unicode
/// scalar range is an error, never undefined behaviour.
pub open spec fn sp_scan_escape(s: Seq<char>, i: int) -> Result<(char, int), SpecError> {
    if i < 0 || i >= s.len() {
        Err(SpecError::Syntax { at: i })
    } else {
        let e = s[i];
        if e == 'a' {
            Ok(('\u{7}', i + 1))
        } else if e == 'b' {
            Ok(('\u{8}', i + 1))
        } else if e == 't' {
            Ok(('\t', i + 1))
        } else if e == 'n' {
            Ok(('\n', i + 1))
        } else if e == 'v' {
            Ok(('\u{b}', i + 1))
        } else if e == 'f' {
            Ok(('\u{c}', i + 1))
        } else if e == 'r' {
            Ok(('\r', i + 1))
        } else if e == '\\' {
            Ok(('\\', i + 1))
        } else if e == '\'' {
            Ok(('\'', i + 1))
        } else if e == '"' {
            Ok(('"', i + 1))
        } else if e == 'x' || e == 'X' {
            if i + 2 < s.len() && is_hex_digit(s[i + 1]) && is_hex_digit(s[i + 2]) {
                let v = hex2_val(s, i + 1);
                if is_scalar_value(v) {
                    Ok((v as char, i + 3))
                } else {
                    Err(SpecError::InvalidUnicodeEscape)
                }
            } else {
                Err(SpecError::Syntax { at: i + 1 })
            }
        } else if e == 'u' {
            if i + 4 < s.len() && is_hex_digit(s[i + 1]) && is_hex_digit(s[i + 2]) && is_hex_digit(
                s[i + 3],
            ) && is_hex_digit(s[i + 4]) {
                let v = hex4_val(s, i + 1);
                if is_scalar_value(v) {
                    Ok((v as char, i + 5))
                } else {
                    Err(SpecError::InvalidUnicodeEscape)
                }
            } else {
                Err(SpecError::Syntax { at: i + 1 })
            }
        } else if e == 'U' {
            if i + 8 < s.len() && is_hex_digit(s[i + 1]) && is_hex_digit(s[i + 2]) && is_hex_digit(
                s[i + 3],
            ) && is_hex_digit(s[i + 4]) && is_hex_digit(s[i + 5]) && is_hex_digit(s[i + 6])
                && is_hex_digit(s[i + 7]) && is_hex_digit(s[i + 8]) {
                let v = hex8_val(s, i + 1);
                if is_scalar_value(v) {
                    Ok((v as char, i + 9))
                } else {
                    Err(SpecError::InvalidUnicodeEscape)
                }
            } else {
                Err(SpecError::Syntax { at: i + 1 })
            }
        } else if is_oct_digit(e) {
            if i + 2 < s.len() && is_oct_digit(s[i + 1]) && is_oct_digit(s[i + 2]) {
                let v = oct3_val(s, i);
                if is_scalar_value(v) {
                    Ok((v as char, i + 3))
                } else {
                    Err(SpecError::InvalidUnicodeEscape)
                }
            } else {
                Err(SpecError::Syntax { at: i + 1 })
            }
        } else {
            Err(SpecError::Syntax { at: i })
        }
    }
}

#[verifier::rlimit(100)]
#[verifier::spinoff_prover]
pub fn scan_escape(cs: &Vec<char>, i: usize) -> (r: Result<(char, usize), Error>)
    requires
        i <= cs@.len(),
    ensures
        match (r, sp_scan_escape(cs@, i as int)) {
            (Ok((c, j)), Ok((sc, sj))) => c == sc && j as int == sj && i < j <= cs@.len(),
            (Err(e), Err(se)) => e@ == se,
            _ => false,
        },
{
    if i >= cs.len() {
        return Err(Error::Syntax { at: i });
    }
    let e = cs[i];
    if e == 'a' {
        Ok(('\u{7}', i + 1))
    } else if e == 'b' {
        Ok(('\u{8}', i + 1))
    } else if e == 't' {
        Ok(('\t', i + 1))
    } else if e == 'n' {
        Ok(('\n', i + 1))
    } else if e == 'v' {
        Ok(('\u{b}', i + 1))
    } else if e == 'f' {
        Ok(('\u{c}', i + 1))
    } else if e == 'r' {
        Ok(('\r', i + 1))
    } else if e == '\\' {
        Ok(('\\', i + 1))
    } else if e == '\'' {
        Ok(('\'', i + 1))
    } else if e == '"' {
        Ok(('"', i + 1))
    } else {
        scan_escape_coded(cs, i)
    }
}

#[verifier::rlimit(100)]
#[verifier::spinoff_prover]
fn scan_escape_coded(cs: &Vec<char>, i: usize) -> (r: Result<(char, usize), Error>)
    requires
        i < cs@.len(),
        ({
            let e = cs@[i as int];
            !(e == 'a' || e == 'b' || e == 't' || e == 'n' || e == 'v' || e == 'f' || e == 'r'
                || e == '\\' || e == '\'' || e == '"')
        }),
    ensures
        match (r, sp_scan_escape(cs@, i as int)) {
            (Ok((c, j)), Ok((sc, sj))) => c == sc && j as int == sj && i < j <= cs@.len(),
            (Err(e), Err(se)) => e@ == se,
            _ => false,
        },
{
    let e = cs[i];
    if e == 'x' || e == 'X' {
        if cs.len() - i > 2 && hex_digit(cs[i + 1]) && hex_digit(cs[i + 2]) {
            let v: u32 = hex2_at(cs, i + 1);
            match char_from_u32(v) {
                Some(c) => {
                    proof {
                        vstd::utf8::char_u32_cast(c, v);
                    }
                    Ok((c, i + 3))
                },
                None => Err(Error::InvalidUnicodeEscape),
            }
        } else {
            Err(Error::Syntax { at: i + 1 })
        }
    } else if e == 'u' {
        if cs.len() - i > 4 && hex_digit(cs[i + 1]) && hex_digit(cs[i + 2]) && hex_digit(
            cs[i + 3],
        ) && hex_digit(cs[i + 4]) {
            let v: u32 = hex4_at(cs, i + 1);
            match char_from_u32(v) {
                Some(c) => {
                    proof {
                        vstd::utf8::char_u32_cast(c, v);
                    }
                    Ok((c, i + 5))
                },
                None => Err(Error::InvalidUnicodeEscape),
            }
        } else {
            Err(Error::Syntax { at: i + 1 })
        }
    } else {
        scan_escape_long(cs, i)
    }
}

#[verifier::rlimit(100)]
#[verifier::spinoff_prover]
fn scan_escape_long(cs: &Vec<char>, i: usize) -> (r: Result<(char, usize), Error>)
    requires
        i < cs@.len(),
        ({
            let e = cs@[i as int];
            !(e == 'a' || e == 'b' || e == 't' || e == 'n' || e == 'v' || e == 'f' || e == 'r'
                || e == '\\' || e == '\'' || e == '"' || e == 'x' || e == 'X' || e == 'u')
        }),
    ensures
        match (r, sp_scan_escape(cs@, i as int)) {
            (Ok((c, j)), Ok((sc, sj))) => c == sc && j as int == sj && i < j <= cs@.len(),
            (Err(e), Err(se)) => e@ == se,
            _ => false,
        },
{
    let e = cs[i];
    if e == 'U' {
        if cs.len() - i > 8 && hex_digit(cs[i + 1]) && hex_digit(cs[i + 2]) && hex_digit(
            cs[i + 3],
        ) && hex_digit(cs[i + 4]) && hex_digit(cs[i + 5]) && hex_digit(cs[i + 6]) && hex_digit(
            cs[i + 7],
        ) && hex_digit(cs[i + 8]) {
            let hi: u32 = hex4_at(cs, i + 1);
            let lo: u32 = hex4_at(cs, i + 5);
            let v: u32 = 65536 * hi + lo;
            proof {
                assert(v == hex8_val(cs@, i as int + 1));
            }
            match char_from_u32(v) {
                Some(c) => {
                    proof {
                        vstd::utf8::char_u32_cast(c, v);
                    }
                    Ok((c, i + 9))
                },
                None => Err(Error::InvalidUnicodeEscape),
            }
        } else {
            Err(Error::Syntax { at: i + 1 })
        }
    } else if oct_digit(e) {
        if cs.len() - i > 2 && oct_digit(cs[i + 1]) && oct_digit(cs[i + 2]) {
            let v: u32 = oct3_at(cs, i);
            match char_from_u32(v) {
                Some(c) => {
                    proof {
                        vstd::utf8::char_u32_cast(c, v);
                    }
                    Ok((c, i + 3))
                },
                None => Err(Error::InvalidUnicodeEscape),
            }
        } else {
            Err(Error::Syntax { at: i + 1 })
        }
    } else {
        Err(Error::Syntax { at: i })
    }
}

/// Scans the body of a string literal from `i` up to and over the
/// closing quote `q`, decoding escapes into `acc`; `esc` records
/// whether any escape has occurred so far.
pub open spec fn sp_scan_string_body(
    s: Seq<char>,
    i: int,
    q: char,
    acc: Seq<char>,
    esc: bool,
) -> Result<(Seq<char>, bool, int), SpecError>
    decreases s.len() - i,
{
    if i < 0 || i >= s.len() {
        Err(SpecError::Syntax { at: s.len() as int })
    } else if s[i] == q {
        Ok((acc, esc, i + 1))
    } else if s[i] == '\\' {
        match sp_scan_escape(s, i + 1) {
            Ok((c, j)) => if i + 1 < j && j <= s.len() {
                sp_scan_string_body(s, j, q, acc.push(c), true)
            } else {
                // escape scanning always advances; this branch only keeps
                // the recursion well-founded
                Err(SpecError::Syntax { at: i })
            },
            Err(e) => Err(e),
        }
    } else {
        sp_scan_string_body(s, i + 1, q, acc.push(s[i]), esc)
    }
}

pub fn scan_string_body(cs: &Vec<char>, i: usize, q: char, acc: String, esc: bool) -> (r: Result<
    (String, bool, usize),
    Error,
>)
    requires
        i <= cs@.len(),
    ensures
        match (r, sp_scan_string_body(cs@, i as int, q, acc@, esc)) {
            (Ok((v, e2, j)), Ok((sv, se, sj))) => v@ == sv && e2 == se && j as int == sj && i < j
                <= cs@.len(),
            (Err(e), Err(se)) => e@ == se,
            _ => false,
        },
    decreases cs@.len() - i,
{
    if i >= cs.len() {
        return Err(Error::Syntax { at: cs.len() });
    }
    let c = cs[i];
    if c == q {
        Ok((acc, esc, i + 1))
    } else if c == '\\' {
        match scan_escape(cs, i + 1) {
            Ok((decoded, j)) => {
                let mut a = acc;
                push_char(&mut a, decoded);
                scan_string_body(cs, j, q, a, true)
            },
            Err(e) => Err(e),
        }
    } else {
        let mut a = acc;
        push_char(&mut a, c);
        scan_string_body(cs, i + 1, q, a, esc)
    }
}

// ---------------------------------------------------------------------
// Numbers
// ---------------------------------------------------------------------
/// The end of a float literal starting at `i` (which holds a digit, or
/// a dot followed by a digit): decimals, an optional fraction, and an
/// optional signed exponent that must carry at least one digit.
pub open spec fn sp_float_end(s: Seq<char>, i: int) -> Result<int, SpecError> {
    let d1 = sp_digit_run_end(s, i);
    let p = if d1 < s.len() && s[d1] == '.' {
        sp_digit_run_end(s, d1 + 1)
    } else {
        d1
    };
    if p < s.len() && (s[p] == 'e' || s[p] == 'E') {
        let q = if p + 1 < s.len() && (s[p + 1] == '+' || s[p + 1] == '-') {
            p + 2
        } else {
            p + 1
        };
        let r = sp_digit_run_end(s, q);
        if r > q {
            Ok(r)
        } else {
            Err(SpecError::Syntax { at: q })
        }
    } else {
        Ok(p)
    }
}

pub fn float_end(cs: &Vec<char>, i: usize) -> (r: Result<usize, Error>)
    requires
        i <= cs@.len(),
    ensures
        match (r, sp_float_end(cs@, i as int)) {
            (Ok(e), Ok(se)) => e as int == se && i <= e <= cs@.len(),
            (Err(e), Err(se)) => e@ == se,
            _ => false,
        },
        ({
            let in_float = (i < cs@.len() && is_digit(cs@[i as int])) || (i + 1 < cs@.len()
                && cs@[i as int] == '.' && is_digit(cs@[i as int + 1]));
            in_float ==> (r matches Ok(e) ==> e > i)
        }),
{
    let d1 = digit_run_end(cs, i);
    let p = if d1 < cs.len() && cs[d1] == '.' {
        digit_run_end(cs, d1 + 1)
    } else {
        d1
    };
    if p < cs.len() && (cs[p] == 'e' || cs[p] == 'E') {
        let q = if p + 1 < cs.len() && (cs[p + 1] == '+' || cs[p + 1] == '-') {
            p + 2
        } else {
            p + 1
        };
        let r = digit_run_end(cs, q);
        if r > q {
            Ok(r)
        } else {
            Err(Error::Syntax { at: q })
        }
    } else {
        Ok(p)
    }
}

/// Scans a number starting at a digit: a float when a fraction dot or
/// an exponent follows the leading digits; otherwise an integer in
/// decimal, octal (leading zero) or hexadecimal (leading `0x`/`0X`)
/// notation.
pub open spec fn sp_scan_number(s: Seq<char>, i: int) -> Result<
    Option<(SpecToken, int)>,
    SpecError,
> {
    let e = sp_digit_run_end(s, i);
    if e < s.len() && (s[e] == '.' || s[e] == 'e' || s[e] == 'E') {
        match sp_float_end(s, i) {
            Ok(f) => Ok(Some((SpecToken::FloatLit { text: s.subrange(i, f) }, f))),
            Err(er) => Err(er),
        }
    } else if s[i] == '0' && e - i > 1 {
        match sp_scan_radix_run(s, i + 1, 0, 8) {
            Ok((v, j)) => if j == e {
                Ok(Some((SpecToken::IntLit { value: v }, e)))
            } else {
                Err(SpecError::Syntax { at: j })
            },
            Err(er) => Err(er),
        }
    } else if s[i] == '0' && e == i + 1 && e < s.len() && (s[e] == 'x' || s[e] == 'X') {
        match sp_scan_radix_run(s, e + 1, 0, 16) {
            Ok((v, j)) => if j > e + 1 {
                Ok(Some((SpecToken::IntLit { value: v }, j)))
            } else {
                Err(SpecError::Syntax { at: j })
            },
            Err(er) => Err(er),
        }
    } else {
        match sp_scan_radix_run(s, i, 0, 10) {
            Ok((v, j)) => Ok(Some((SpecToken::IntLit { value: v }, j))),
            Err(er) => Err(er),
        }
    }
}

pub fn scan_number(cs: &Vec<char>, i: usize) -> (r: Result<Option<(Token, usize)>, Error>)
    requires
        i < cs@.len(),
        is_digit(cs@[i as int]),
    ensures
        match (r, sp_scan_number(cs@, i as int)) {
            (Ok(Some((t, j))), Ok(Some((st, sj)))) => t@ == st && j as int == sj && i < j
                <= cs@.len(),
            (Err(e), Err(se)) => e@ == se,
            (Ok(None), Ok(None)) => true,
            _ => false,
        },
{
    let e = digit_run_end(cs, i);
    if e < cs.len() && (cs[e] == '.' || cs[e] == 'e' || cs[e] == 'E') {
        match float_end(cs, i) {
            Ok(f) => {
                let text = crate::literals::chars_to_string(cs, i, f);
                Ok(Some((Token::FloatLit { text }, f)))
            },
            Err(er) => Err(er),
        }
    } else if cs[i] == '0' && e - i > 1 {
        match scan_radix_run(cs, i + 1, 0, 8) {
            Ok((v, j)) => if j == e {
                Ok(Some((Token::IntLit { value: v }, e)))
            } else {
                Err(Error::Syntax { at: j })
            },
            Err(er) => Err(er),
        }
    } else if cs[i] == '0' && e == i + 1 && e < cs.len() && (cs[e] == 'x' || cs[e] == 'X') {
        match scan_radix_run(cs, e + 1, 0, 16) {
            Ok((v, j)) => if j > e + 1 {
                Ok(Some((Token::IntLit { value: v }, j)))
            } else {
                Err(Error::Syntax { at: j })
            },
            Err(er) => Err(er),
        }
    } else {
        match scan_radix_run(cs, i, 0, 10) {
            Ok((v, j)) => {
                proof {
                    assert(j > i);
                }
                Ok(Some((Token::IntLit { value: v }, j)))
            },
            Err(er) => Err(er),
        }
    }
}

// ---------------------------------------------------------------------
// The tokenizer
// ---------------------------------------------------------------------
/// Reads the next token after skipping whitespace; `None` at the end
/// of the input.
pub open spec fn sp_next_token(s: Seq<char>, i0: int) -> Result<
    Option<(SpecToken, int)>,
    SpecError,
> {
    let i = sp_skip_ws(s, i0);
    if i < 0 || i >= s.len() {
        Ok(None)
    } else {
        let c = s[i];
        if is_ident_start(c) {
            let (e, dotted) = sp_word_scan(s, i);
            Ok(Some((SpecToken::Word { relative: false, dotted, text: s.subrange(i, e) }, e)))
        } else if c == '.' {
            if i + 1 < s.len() && is_digit(s[i + 1]) {
                match sp_float_end(s, i) {
                    Ok(f) => Ok(Some((SpecToken::FloatLit { text: s.subrange(i, f) }, f))),
                    Err(er) => Err(er),
                }
            } else if i + 1 < s.len() && is_ident_start(s[i + 1]) {
                let (e, dotted) = sp_word_scan(s, i + 1);
                Ok(
                    Some(
                        (SpecToken::Word { relative: true, dotted, text: s.subrange(i + 1, e) }, e),
                    ),
                )
            } else {
                Err(SpecError::Syntax { at: i })
            }
        } else if is_digit(c) {
            sp_scan_number(s, i)
        } else if c == '"' || c == '\'' {
            match sp_scan_string_body(s, i + 1, c, Seq::empty(), false) {
                Ok((v, esc, j)) => Ok(Some((SpecToken::StrLit { value: v, escaped: esc }, j))),
                Err(e) => Err(e),
            }
        } else if c == '/' {
            if i + 1 < s.len() && s[i + 1] == '/' {
                let (t, j) = sp_scan_line_comment(s, i + 2, Seq::empty());
                Ok(Some((SpecToken::Comment(t), j)))
            } else if i + 1 < s.len() && s[i + 1] == '*' {
                match sp_scan_block_comment(s, i + 2, Seq::empty()) {
                    Ok((t, j)) => Ok(Some((SpecToken::Comment(t), j))),
                    Err(e) => Err(e),
                }
            } else {
                Err(SpecError::Syntax { at: i })
            }
        } else if is_punct(c) {
            Ok(Some((SpecToken::Punct(c), i + 1)))
        } else {
            Err(SpecError::Syntax { at: i })
        }
    }
}

#[verifier::rlimit(60)]
#[verifier::spinoff_prover]
pub fn next_token(cs: &Vec<char>, i0: usize) -> (r: Result<Option<(Token, usize)>, Error>)
    requires
        i0 <= cs@.len(),
    ensures
        match (r, sp_next_token(cs@, i0 as int)) {
            (Ok(Some((t, j))), Ok(Some((st, sj)))) => t@ == st && j as int == sj && i0 < j
                <= cs@.len(),
            (Ok(None), Ok(None)) => true,
            (Err(e), Err(se)) => e@ == se,
            _ => false,
        },
{
    let i = skip_ws(cs, i0);
    if i >= cs.len() {
        return Ok(None);
    }
    let c = cs[i];
    if ident_start(c) {
        let (e, dotted) = word_scan(cs, i);
        let text = crate::literals::chars_to_string(cs, i, e);
        Ok(Some((Token::Word { relative: false, dotted, text }, e)))
    } else if c == '.' {
        if i + 1 < cs.len() && digit(cs[i + 1]) {
            match float_end(cs, i) {
                Ok(f) => {
                    let text = crate::literals::chars_to_string(cs, i, f);
                    Ok(Some((Token::FloatLit { text }, f)))
                },
                Err(er) => Err(er),
            }
        } else if i + 1 < cs.len() && ident_start(cs[i + 1]) {
            let (e, dotted) = word_scan(cs, i + 1);
            let text = crate::literals::chars_to_string(cs, i + 1, e);
            Ok(Some((Token::Word { relative: true, dotted, text }, e)))
        } else {
            Err(Error::Syntax { at: i })
        }
    } else if digit(c) {
        match scan_number(cs, i) {
            Ok(Some((t, j))) => Ok(Some((t, j))),
            Ok(None) => Err(Error::Syntax { at: i }),
            Err(e) => Err(e),
        }
    } else if c == '"' || c == '\'' {
        match scan_string_body(cs, i + 1, c, String::new(), false) {
            Ok((v, esc, j)) => Ok(Some((Token::StrLit { value: v, escaped: esc }, j))),
            Err(e) => Err(e),
        }
    } else if c == '/' {
        if i + 1 < cs.len() && cs[i + 1] == '/' {
            let (t, j) = scan_line_comment(cs, i + 2, String::new());
            Ok(Some((Token::Comment(t), j)))
        } else if i + 1 < cs.len() && cs[i + 1] == '*' {
            match scan_block_comment(cs, i + 2, String::new()) {
                Ok((t, j)) => Ok(Some((Token::Comment(t), j))),
                Err(e) => Err(e),
            }
        } else {
            Err(Error::Syntax { at: i })
        }
    } else if punct(c) {
        Ok(Some((Token::Punct(c), i + 1)))
    } else {
        Err(Error::Syntax { at: i })
    }
}

/// Tokenizes the whole input from `i`, appending onto `acc`.
pub open spec fn sp_tokenize_from(s: Seq<char>, i: int, acc: Seq<SpecToken>) -> Result<
    Seq<SpecToken>,
    SpecError,
>
    decreases s.len() - i,
{
    match sp_next_token(s, i) {
        Err(e) => Err(e),
        Ok(None) => Ok(acc),
        Ok(Some((t, j))) => if i < j && j <= s.len() {
            sp_tokenize_from(s, j, acc.push(t))
        } else {
            // token scanning always advances; this branch only keeps the
            // recursion well-founded
            Err(SpecError::Syntax { at: i })
        },
    }
}

/// The token stream of the whole input.
pub open spec fn sp_tokenize(s: Seq<char>) -> Result<Seq<SpecToken>, SpecError> {
    sp_tokenize_from(s, 0, Seq::empty())
}

pub fn tokenize(cs: &Vec<char>) -> (r: Result<Vec<Token>, Error>)
    ensures
        match (r, sp_tokenize(cs@)) {
            (Ok(v), Ok(sv)) => v.deep_view() == sv,
            (Err(e), Err(se)) => e@ == se,
            _ => false,
        },
{
    let mut out: Vec<Token> = Vec::new();
    let mut i: usize = 0;
    proof {
        assert(out.deep_view() =~= Seq::<SpecToken>::empty());
    }
    loop
        invariant
            i <= cs@.len(),
            sp_tokenize(cs@) == sp_tokenize_from(cs@, i as int, out.deep_view()),
        decreases cs@.len() - i,
    {
        match next_token(cs, i) {
            Err(e) => {
                return Err(e);
            },
            Ok(None) => {
                return Ok(out);
            },
            Ok(Some((t, j))) => {
                let ghost prev = out.deep_view();
                out.push(t);
                proof {
                    assert(out.deep_view() =~= prev.push(t@));
                }
                i = j;
            },
        }
    }
}

// ---------------------------------------------------------------------
// String literals as standalone values
// ---------------------------------------------------------------------
/// The decoded value of a whole string literal (quotes included), and
/// whether any escape sequence occurred in it.
pub open spec fn sp_parse_literal_string(s: Seq<char>) -> Result<(Seq<char>, bool), SpecError> {
    if s.len() < 1 || !(s[0] == '"' || s[0] == '\'') {
        Err(SpecError::Syntax { at: 0 })
    } else {
        match sp_scan_string_body(s, 1, s[0], Seq::empty(), false) {
            Ok((v, esc, j)) => if j == s.len() {
                Ok((v, esc))
            } else {
                Err(SpecError::Syntax { at: j })
            },
            Err(e) => Err(e),
        }
    }
}

/// Scanning a stretch of plain characters (no backslash, no closing
/// quote) up to a quote at `e` appends exactly those characters and
/// leaves the escape flag alone.
pub proof fn lemma_scan_clean(s: Seq<char>, i: int, q: char, acc: Seq<char>, esc: bool, e: int)
    requires
        0 <= i <= e < s.len(),
        s[e] == q,
        forall|k: int| i <= k < e ==> #[trigger] s[k] != '\\' && s[k] != q,
    ensures
        sp_scan_string_body(s, i, q, acc, esc) == Ok::<_, SpecError>(
            (acc + s.subrange(i, e), esc, e + 1),
        ),
    decreases e - i,
{
    if i == e {
        assert(acc + s.subrange(i, e) =~= acc);
    } else {
        lemma_scan_clean(s, i + 1, q, acc.push(s[i]), esc, e);
        assert(acc.push(s[i]) + s.subrange(i + 1, e) =~= acc + s.subrange(i, e));
    }
}

/// A successful scan always moves past its starting position and stays
/// inside the input.
pub proof fn lemma_scan_bounds(s: Seq<char>, i: int, q: char, acc: Seq<char>, esc: bool)
    ensures
        sp_scan_string_body(s, i, q, acc, esc) matches Ok((v, e2, j)) ==> i < j <= s.len(),
    decreases s.len() - i,
{
    if i < 0 || i >= s.len() {
    } else if s[i] == q {
    } else if s[i] == '\\' {
        match sp_scan_escape(s, i + 1) {
            Ok((c, j)) => {
                if i + 1 < j && j <= s.len() {
                    lemma_scan_bounds(s, j, q, acc.push(c), true);
                }
            },
            Err(_) => {},
        }
    } else {
        lemma_scan_bounds(s, i + 1, q, acc.push(s[i]), esc);
    }
}

/// When a scan reports that no escape occurred, the decoded value is
/// exactly the raw text between the start position and the closing
/// quote.
pub proof fn lemma_scan_unescaped(s: Seq<char>, i: int, q: char, acc: Seq<char>, esc: bool)
    ensures
        sp_scan_string_body(s, i, q, acc, esc) matches Ok((v, e2, j)) ==> (e2 == false ==> v
            == acc + s.subrange(i, j - 1)),
    decreases s.len() - i,
{
    if i < 0 || i >= s.len() {
    } else if s[i] == q {
        if !esc {
            assert(acc + s.subrange(i, i) =~= acc);
        }
    } else if s[i] == '\\' {
        // the escape path fixes the flag to true, so an unescaped result
        // cannot come from it
        match sp_scan_escape(s, i + 1) {
            Ok((c, j)) => {
                if i + 1 < j && j <= s.len() {
                    lemma_scan_flag_sticky(s, j, q, acc.push(c));
                }
            },
            Err(_) => {},
        }
    } else {
        lemma_scan_unescaped(s, i + 1, q, acc.push(s[i]), esc);
        lemma_scan_bounds(s, i + 1, q, acc.push(s[i]), esc);
        match sp_scan_string_body(s, i, q, acc, esc) {
            Ok((v, e2, j)) => {
                if !e2 {
                    assert(acc.push(s[i]) + s.subrange(i + 1, j - 1) =~= acc + s.subrange(
                        i,
                        j - 1,
                    ));
                }
            },
            Err(_) => {},
        }
    }
}

/// Once an escape has been seen, every successful scan reports it.
pub proof fn lemma_scan_flag_sticky(s: Seq<char>, i: int, q: char, acc: Seq<char>)
    ensures
        sp_scan_string_body(s, i, q, acc, true) matches Ok((v, e2, j)) ==> e2 == true,
    decreases s.len() - i,
{
    if i < 0 || i >= s.len() {
    } else if s[i] == q {
    } else if s[i] == '\\' {
        match sp_scan_escape(s, i + 1) {
            Ok((c, j)) => {
                if i + 1 < j && j <= s.len() {
                    lemma_scan_flag_sticky(s, j, q, acc.push(c));
                }
            },
            Err(_) => {},
        }
    } else {
        lemma_scan_flag_sticky(s, i + 1, q, acc.push(s[i]));
    }
}

/// Decoding a string literal whose inner text holds neither a
/// backslash nor its own quote character yields exactly that inner
/// text, with no escape reported.
pub proof fn lemma_unescaped_literal(s: Seq<char>)
    requires
        s.len() >= 2,
        s[0] == '"' || s[0] == '\'',
        s[s.len() - 1] == s[0],
        forall|k: int| 1 <= k < s.len() - 1 ==> #[trigger] s[k] != '\\' && s[k] != s[0],
    ensures
        sp_parse_literal_string(s) == Ok::<_, SpecError>((s.subrange(1, s.len() - 1), false)),
{
    lemma_scan_clean(s, 1, s[0], Seq::empty(), false, s.len() - 1);
    assert(Seq::<char>::empty() + s.subrange(1, s.len() - 1) =~= s.subrange(1, s.len() - 1));
}

/// Decodes one whole string literal, quotes included.  When the
/// literal holds no escape sequence the result borrows the input
/// (zero-copy); otherwise it owns the decoded text.
pub fn parse_literal_string<'a>(input: &'a str) -> (r: Result<CowStr<'a>, Error>)
    ensures
        match (r, sp_parse_literal_string(input@)) {
            (Ok(cow), Ok((v, esc))) => cow@ == v && ((cow is Borrowed) <==> !esc),
            (Err(e), Err(se)) => e@ == se,
            _ => false,
        },
{
    let cs = crate::text::to_chars(input);
    let n = cs.len();
    if n < 1 {
        return Err(Error::Syntax { at: 0 });
    }
    let q = cs[0];
    if !(q == '"' || q == '\'') {
        return Err(Error::Syntax { at: 0 });
    }
    match scan_string_body(&cs, 1, q, String::new(), false) {
        Err(e) => Err(e),
        Ok((v, esc, j)) => {
            if j != n {
                Err(Error::Syntax { at: j })
            } else if !esc {
                proof {
                    lemma_scan_unescaped(cs@, 1, q, Seq::empty(), false);
                    assert(Seq::<char>::empty() + cs@.subrange(1, n - 1) =~= cs@.subrange(
                        1,
                        n - 1,
                    ));
                }
                let b = input.substring_char(1, n - 1);
                Ok(CowStr::Borrowed(b))
            } else {
                Ok(CowStr::Owned(v))
            }
        },
    }
}

} // verus!
