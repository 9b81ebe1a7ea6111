//! The header sniffer: reads only the leading comments and the
//! mandatory syntax declaration of a file, and hands back the declared
//! dialect together with the untouched remainder of the input.
use vstd::prelude::*;
use crate::error::{Error, SpecError};
use crate::model::{Comment, SpecSyntax, Syntax};
use crate::tokens::{next_token, sp_next_token, SpecToken, Token};

verus! {

/// Reads leading comments, then `syntax = "name" ;`, returning the
/// declared syntax and the character offset where the body begins.
pub open spec fn sp_parse_header_from(s: Seq<char>, i: int, cms: Seq<Seq<char>>) -> Result<
    (SpecSyntax, int),
    SpecError,
>
    decreases s.len() - i,
{
    match sp_next_token(s, i) {
        Err(e) => Err(e),
        Ok(None) => Err(SpecError::Syntax { at: s.len() as int }),
        Ok(Some((t, j))) => match t {
            SpecToken::Comment(c) => if i < j && j <= s.len() {
                sp_parse_header_from(s, j, cms.push(c))
            } else {
                // token scanning always advances; this keeps the
                // recursion well-founded
                Err(SpecError::Syntax { at: i })
            },
            SpecToken::Word { relative: false, dotted: false, text } => if text == "syntax"@ {
                match sp_next_token(s, j) {
                    Err(e) => Err(e),
                    Ok(None) => Err(SpecError::Syntax { at: s.len() as int }),
                    Ok(Some((t2, k))) => if t2 matches SpecToken::Punct('=') {
                        match sp_next_token(s, k) {
                            Err(e) => Err(e),
                            Ok(None) => Err(SpecError::Syntax { at: s.len() as int }),
                            Ok(Some((t3, l))) => match t3 {
                                SpecToken::StrLit { value, escaped } => match sp_next_token(
                                    s,
                                    l,
                                ) {
                                    Err(e) => Err(e),
                                    Ok(None) => Err(SpecError::Syntax { at: s.len() as int }),
                                    Ok(Some((t4, m))) => if t4 matches SpecToken::Punct(';') {
                                        Ok((SpecSyntax { value, comments: cms }, m))
                                    } else {
                                        Err(SpecError::Syntax { at: l })
                                    },
                                },
                                _ => Err(SpecError::Syntax { at: k }),
                            },
                        }
                    } else {
                        Err(SpecError::Syntax { at: j })
                    },
                }
            } else {
                Err(SpecError::Syntax { at: i })
            },
            _ => Err(SpecError::Syntax { at: i }),
        },
    }
}

/// The header of a whole input: leading comments and the syntax
/// declaration.
pub open spec fn sp_parse_header(s: Seq<char>) -> Result<(SpecSyntax, int), SpecError> {
    sp_parse_header_from(s, 0, Seq::empty())
}

fn parse_header_from(cs: &Vec<char>, i: usize, cms: Vec<Comment>) -> (r: Result<
    (Syntax, usize),
    Error,
>)
    requires
        i <= cs@.len(),
    ensures
        match (r, sp_parse_header_from(cs@, i as int, cms.deep_view())) {
            (Ok((syn, off)), Ok((ss, soff))) => syn@ == ss && off as int == soff && off
                <= cs@.len(),
            (Err(e), Err(se)) => e@ == se,
            _ => false,
        },
    decreases cs@.len() - i,
{
    match next_token(cs, i) {
        Err(e) => Err(e),
        Ok(None) => Err(Error::Syntax { at: cs.len() }),
        Ok(Some((t, j))) => match t {
            Token::Comment(c) => {
                let mut cms2 = cms;
                let ghost prev = cms2.deep_view();
                cms2.push(Comment::new(c));
                proof {
                    assert(cms2.deep_view() =~= prev.push(t@->Comment_0));
                }
                parse_header_from(cs, j, cms2)
            },
            Token::Word { relative, dotted, text } => if !relative && !dotted && crate::text::str_eq(
                text.as_str(),
                "syntax",
            ) {
                match next_token(cs, j) {
                    Err(e) => Err(e),
                    Ok(None) => Err(Error::Syntax { at: cs.len() }),
                    Ok(Some((t2, k))) => {
                        let is_eq = match &t2 {
                            Token::Punct(c) => *c == '=',
                            _ => false,
                        };
                        if is_eq {
                            match next_token(cs, k) {
                                Err(e) => Err(e),
                                Ok(None) => Err(Error::Syntax { at: cs.len() }),
                                Ok(Some((t3, l))) => match t3 {
                                    Token::StrLit { value, escaped: _ } => match next_token(
                                        cs,
                                        l,
                                    ) {
                                        Err(e) => Err(e),
                                        Ok(None) => Err(Error::Syntax { at: cs.len() }),
                                        Ok(Some((t4, m))) => {
                                            let is_semi = match &t4 {
                                                Token::Punct(c) => *c == ';',
                                                _ => false,
                                            };
                                            if is_semi {
                                                Ok((Syntax { value, comments: cms }, m))
                                            } else {
                                                Err(Error::Syntax { at: l })
                                            }
                                        },
                                    },
                                    _ => Err(Error::Syntax { at: k }),
                                },
                            }
                        } else {
                            Err(Error::Syntax { at: j })
                        }
                    },
                }
            } else {
                Err(Error::Syntax { at: i })
            },
            _ => Err(Error::Syntax { at: i }),
        },
    }
}

/// Parses only the header of `input`: optional leading comments, then
/// a mandatory `syntax` declaration.  Returns the declared [`Syntax`]
/// and the remainder of the input (the body) as a zero-copy slice.
pub fn parse_header<'a>(input: &'a str) -> (r: Result<(Syntax, &'a str), Error>)
    ensures
        match (r, sp_parse_header(input@)) {
            (Ok((syn, body)), Ok((ss, soff))) => syn@ == ss && body@ == input@.subrange(
                soff,
                input@.len() as int,
            ),
            (Err(e), Err(se)) => e@ == se,
            _ => false,
        },
{
    let cs = crate::text::to_chars(input);
    let cms: Vec<Comment> = Vec::new();
    proof {
        assert(cms.deep_view() =~= Seq::<Seq<char>>::empty());
    }
    match parse_header_from(&cs, 0, cms) {
        Err(e) => Err(e),
        Ok((syn, off)) => {
            let n = input.unicode_len();
            let body = input.substring_char(off, n);
            Ok((syn, body))
        },
    }
}

} // verus!
