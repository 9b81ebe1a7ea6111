//! The proto3 dialect reducer: a single-pass, non-backtracking walk
//! over the token stream that drives the literal decoder and the
//! builder layer to produce a [`Proto`] root.
use vstd::prelude::*;
use crate::builder::{
    MapFieldBuilder, MessageBuilder, NormalFieldBuilder, OneOfFieldItemBuilder,
    ProtoOptionBuilder, ServiceRpcBuilder, ServiceRpcFieldBuilder, SpecMessageBuilder,
    sp_build_message, sp_message_builder_empty,
};
use crate::error::{Error, SpecError};
use crate::literals::{signed_of_magnitude, sp_signed_of_magnitude};
use crate::model::{
    Comment, Constant, Enum, EnumItem, Field, Ident, MapField, MapFieldKeyType, Message,
    MessageReference, NormalField, OneOfField, OneOfFieldItem, Package, Proto, ProtoOption,
    ReservedData, ReservedItems, Service, ServiceRpc, ServiceRpcField, SpecConstant, SpecEnum,
    SpecEnumItem, SpecField, SpecIdent, SpecImport, SpecMapField, SpecMessage, SpecNormalField,
    SpecOneOfField, SpecOneOfFieldItem, SpecPackage, SpecProto, SpecProtoOption,
    SpecReservedData, SpecReservedItems, SpecService, SpecServiceRpc, SpecServiceRpcField,
    SpecSyntax, SpecType, Syntax, Type, Import,
};
use crate::text::{push_char, str_eq};
use crate::tokens::{SpecToken, Token};

verus! {

/// Whether an executable parse outcome `r` is what the model `s` says,
/// the payload compared through `f`.
pub open spec fn agrees<T, S>(
    r: Result<(T, usize), Error>,
    s: Result<(S, int), SpecError>,
    f: spec_fn(T) -> S,
) -> bool {
    match (r, s) {
        (Ok((v, j)), Ok((sv, sj))) => f(v) == sv && j as int == sj,
        (Err(e), Err(se)) => e@ == se,
        _ => false,
    }
}

/// Whether the token is the bare (undotted, unprefixed) word `w`.
pub open spec fn is_kw(t: SpecToken, w: Seq<char>) -> bool {
    t matches SpecToken::Word { relative: false, dotted: false, text } && text == w
}

pub fn token_is_kw(t: &Token, w: &str) -> (r: bool)
    ensures
        r == is_kw(t@, w@),
{
    match t {
        Token::Word { relative, dotted, text } => !*relative && !*dotted && str_eq(
            text.as_str(),
            w,
        ),
        _ => false,
    }
}

/// Whether the token is the punctuation character `c`.
pub open spec fn is_p(t: SpecToken, c: char) -> bool {
    t matches SpecToken::Punct(cc) && cc == c
}

pub fn token_is_p(t: &Token, c: char) -> (r: bool)
    ensures
        r == is_p(t@, c),
{
    match t {
        Token::Punct(cc) => *cc == c,
        _ => false,
    }
}

// ---------------------------------------------------------------------
// Names, types and constants
// ---------------------------------------------------------------------
/// An option name: a word (possibly dotted, possibly leading-dot
/// relative), or an extension-style name in parentheses.
pub open spec fn sp_parse_ident(ts: Seq<SpecToken>, i: int) -> Result<(SpecIdent, int), SpecError> {
    if i < 0 || i >= ts.len() {
        Err(SpecError::UnexpectedToken { at: i })
    } else {
        match ts[i] {
            SpecToken::Word { relative, dotted, text } => Ok(
                (SpecIdent { relative, value: text }, i + 1),
            ),
            SpecToken::Punct(c) => if c == '(' && i + 2 < ts.len() {
                match ts[i + 1] {
                    SpecToken::Word { relative, dotted, text } => match ts[i + 2] {
                        SpecToken::Punct(cl) => if cl == ')' {
                            Ok((SpecIdent { relative, value: text }, i + 3))
                        } else {
                            Err(SpecError::UnexpectedToken { at: i + 2 })
                        },
                        _ => Err(SpecError::UnexpectedToken { at: i + 2 }),
                    },
                    _ => Err(SpecError::UnexpectedToken { at: i + 1 }),
                }
            } else {
                Err(SpecError::UnexpectedToken { at: i })
            },
            _ => Err(SpecError::UnexpectedToken { at: i }),
        }
    }
}

pub fn parse_ident(toks: &Vec<Token>, i: usize) -> (r: Result<(Ident, usize), Error>)
    requires
        i <= toks@.len(),
    ensures
        agrees(r, sp_parse_ident(toks.deep_view(), i as int), |v: Ident| v@),
        r matches Ok((v, j)) ==> i < j <= toks@.len(),
{
    if i >= toks.len() {
        return Err(Error::UnexpectedToken { at: i });
    }
    match &toks[i] {
        Token::Word { relative, dotted: _, text } => Ok(
            (Ident::new(*relative, text.clone()), i + 1),
        ),
        Token::Punct(c) => if *c == '(' && toks.len() - i > 2 {
            match &toks[i + 1] {
                Token::Word { relative, dotted: _, text } => match &toks[i + 2] {
                    Token::Punct(cl) => if *cl == ')' {
                        Ok((Ident::new(*relative, text.clone()), i + 3))
                    } else {
                        Err(Error::UnexpectedToken { at: i + 2 })
                    },
                    _ => Err(Error::UnexpectedToken { at: i + 2 }),
                },
                _ => Err(Error::UnexpectedToken { at: i + 1 }),
            }
        } else {
            Err(Error::UnexpectedToken { at: i })
        },
        _ => Err(Error::UnexpectedToken { at: i }),
    }
}

/// A plain name: a single undotted, unprefixed word.
pub open spec fn sp_parse_plain_ident(ts: Seq<SpecToken>, i: int) -> Result<
    (SpecIdent, int),
    SpecError,
> {
    if i < 0 || i >= ts.len() {
        Err(SpecError::UnexpectedToken { at: i })
    } else {
        match ts[i] {
            SpecToken::Word { relative: false, dotted: false, text } => Ok(
                (SpecIdent { relative: false, value: text }, i + 1),
            ),
            _ => Err(SpecError::UnexpectedToken { at: i }),
        }
    }
}

pub fn parse_plain_ident(toks: &Vec<Token>, i: usize) -> (r: Result<(Ident, usize), Error>)
    requires
        i <= toks@.len(),
    ensures
        agrees(r, sp_parse_plain_ident(toks.deep_view(), i as int), |v: Ident| v@),
        r matches Ok((v, j)) ==> i < j <= toks@.len(),
{
    if i >= toks.len() {
        return Err(Error::UnexpectedToken { at: i });
    }
    match &toks[i] {
        Token::Word { relative, dotted, text } => if !*relative && !*dotted {
            Ok((Ident::new(false, text.clone()), i + 1))
        } else {
            Err(Error::UnexpectedToken { at: i })
        },
        _ => Err(Error::UnexpectedToken { at: i }),
    }
}

/// The textual form of a type or message reference: the word with its
/// leading dot restored when the reference is relative.
pub open spec fn sp_ref_name(relative: bool, text: Seq<char>) -> Seq<char> {
    if relative {
        seq!['.'] + text
    } else {
        text
    }
}

fn ref_name(relative: bool, text: &String) -> (r: String)
    ensures
        r@ == sp_ref_name(relative, text@),
{
    let mut out = String::new();
    if relative {
        push_char(&mut out, '.');
    }
    out.append(text.as_str());
    proof {
        if relative {
            assert(out@ =~= seq!['.'] + text@);
        } else {
            assert(out@ =~= text@);
        }
    }
    out
}

/// A field type: one of the scalar keywords, or a reference to a
/// user-defined type.
pub open spec fn sp_parse_type(ts: Seq<SpecToken>, i: int) -> Result<(SpecType, int), SpecError> {
    if i < 0 || i >= ts.len() {
        Err(SpecError::UnexpectedToken { at: i })
    } else {
        match ts[i] {
            SpecToken::Word { relative, dotted, text } => {
                let plain = !relative && !dotted;
                if plain && text == "double"@ {
                    Ok((SpecType::Double, i + 1))
                } else if plain && text == "float"@ {
                    Ok((SpecType::Float, i + 1))
                } else if plain && text == "int32"@ {
                    Ok((SpecType::Int32, i + 1))
                } else if plain && text == "int64"@ {
                    Ok((SpecType::Int64, i + 1))
                } else if plain && text == "uint32"@ {
                    Ok((SpecType::UInt32, i + 1))
                } else if plain && text == "uint64"@ {
                    Ok((SpecType::UInt64, i + 1))
                } else if plain && text == "sint32"@ {
                    Ok((SpecType::SInt32, i + 1))
                } else if plain && text == "sint64"@ {
                    Ok((SpecType::SInt64, i + 1))
                } else if plain && text == "fixed32"@ {
                    Ok((SpecType::Fixed32, i + 1))
                } else if plain && text == "fixed64"@ {
                    Ok((SpecType::Fixed64, i + 1))
                } else if plain && text == "sfixed32"@ {
                    Ok((SpecType::SFixed32, i + 1))
                } else if plain && text == "sfixed64"@ {
                    Ok((SpecType::SFixed64, i + 1))
                } else if plain && text == "bool"@ {
                    Ok((SpecType::Bool, i + 1))
                } else if plain && text == "string"@ {
                    Ok((SpecType::String, i + 1))
                } else if plain && text == "bytes"@ {
                    Ok((SpecType::Bytes, i + 1))
                } else {
                    Ok((SpecType::Reference(sp_ref_name(relative, text)), i + 1))
                }
            },
            _ => Err(SpecError::UnexpectedToken { at: i }),
        }
    }
}

#[verifier::rlimit(60)]
pub fn parse_type(toks: &Vec<Token>, i: usize) -> (r: Result<(Type, usize), Error>)
    requires
        i <= toks@.len(),
    ensures
        agrees(r, sp_parse_type(toks.deep_view(), i as int), |v: Type| v@),
        r matches Ok((v, j)) ==> i < j <= toks@.len(),
{
    if i >= toks.len() {
        return Err(Error::UnexpectedToken { at: i });
    }
    match &toks[i] {
        Token::Word { relative, dotted, text } => {
            let plain = !*relative && !*dotted;
            let t = text.as_str();
            let ty: Type = if plain && str_eq(t, "double") {
                Type::Double
            } else if plain && str_eq(t, "float") {
                Type::Float
            } else if plain && str_eq(t, "int32") {
                Type::Int32
            } else if plain && str_eq(t, "int64") {
                Type::Int64
            } else if plain && str_eq(t, "uint32") {
                Type::UInt32
            } else if plain && str_eq(t, "uint64") {
                Type::UInt64
            } else if plain && str_eq(t, "sint32") {
                Type::SInt32
            } else if plain && str_eq(t, "sint64") {
                Type::SInt64
            } else if plain && str_eq(t, "fixed32") {
                Type::Fixed32
            } else if plain && str_eq(t, "fixed64") {
                Type::Fixed64
            } else if plain && str_eq(t, "sfixed32") {
                Type::SFixed32
            } else if plain && str_eq(t, "sfixed64") {
                Type::SFixed64
            } else if plain && str_eq(t, "bool") {
                Type::Bool
            } else if plain && str_eq(t, "string") {
                Type::String
            } else if plain && str_eq(t, "bytes") {
                Type::Bytes
            } else {
                Type::Reference(ref_name(*relative, text))
            };
            Ok((ty, i + 1))
        },
        _ => Err(Error::UnexpectedToken { at: i }),
    }
}

/// A map key type: one of the integer, bool or string keywords.
pub open spec fn sp_parse_map_key_type(ts: Seq<SpecToken>, i: int) -> Result<
    (MapFieldKeyType, int),
    SpecError,
> {
    if i < 0 || i >= ts.len() {
        Err(SpecError::UnexpectedToken { at: i })
    } else {
        match ts[i] {
            SpecToken::Word { relative: false, dotted: false, text } => {
                if text == "int32"@ {
                    Ok((MapFieldKeyType::Int32, i + 1))
                } else if text == "int64"@ {
                    Ok((MapFieldKeyType::Int64, i + 1))
                } else if text == "uint32"@ {
                    Ok((MapFieldKeyType::UInt32, i + 1))
                } else if text == "uint64"@ {
                    Ok((MapFieldKeyType::UInt64, i + 1))
                } else if text == "sint32"@ {
                    Ok((MapFieldKeyType::SInt32, i + 1))
                } else if text == "sint64"@ {
                    Ok((MapFieldKeyType::SInt64, i + 1))
                } else if text == "fixed32"@ {
                    Ok((MapFieldKeyType::Fixed32, i + 1))
                } else if text == "fixed64"@ {
                    Ok((MapFieldKeyType::Fixed64, i + 1))
                } else if text == "sfixed32"@ {
                    Ok((MapFieldKeyType::SFixed32, i + 1))
                } else if text == "sfixed64"@ {
                    Ok((MapFieldKeyType::SFixed64, i + 1))
                } else if text == "bool"@ {
                    Ok((MapFieldKeyType::Bool, i + 1))
                } else if text == "string"@ {
                    Ok((MapFieldKeyType::String, i + 1))
                } else {
                    Err(SpecError::UnexpectedToken { at: i })
                }
            },
            _ => Err(SpecError::UnexpectedToken { at: i }),
        }
    }
}

#[verifier::rlimit(60)]
pub fn parse_map_key_type(toks: &Vec<Token>, i: usize) -> (r: Result<(MapFieldKeyType, usize), Error>)
    requires
        i <= toks@.len(),
    ensures
        agrees(r, sp_parse_map_key_type(toks.deep_view(), i as int), |v: MapFieldKeyType| v),
        r matches Ok((v, j)) ==> i < j <= toks@.len(),
{
    if i >= toks.len() {
        return Err(Error::UnexpectedToken { at: i });
    }
    match &toks[i] {
        Token::Word { relative, dotted, text } => {
            if *relative || *dotted {
                return Err(Error::UnexpectedToken { at: i });
            }
            let t = text.as_str();
            if str_eq(t, "int32") {
                Ok((MapFieldKeyType::Int32, i + 1))
            } else if str_eq(t, "int64") {
                Ok((MapFieldKeyType::Int64, i + 1))
            } else if str_eq(t, "uint32") {
                Ok((MapFieldKeyType::UInt32, i + 1))
            } else if str_eq(t, "uint64") {
                Ok((MapFieldKeyType::UInt64, i + 1))
            } else if str_eq(t, "sint32") {
                Ok((MapFieldKeyType::SInt32, i + 1))
            } else if str_eq(t, "sint64") {
                Ok((MapFieldKeyType::SInt64, i + 1))
            } else if str_eq(t, "fixed32") {
                Ok((MapFieldKeyType::Fixed32, i + 1))
            } else if str_eq(t, "fixed64") {
                Ok((MapFieldKeyType::Fixed64, i + 1))
            } else if str_eq(t, "sfixed32") {
                Ok((MapFieldKeyType::SFixed32, i + 1))
            } else if str_eq(t, "sfixed64") {
                Ok((MapFieldKeyType::SFixed64, i + 1))
            } else if str_eq(t, "bool") {
                Ok((MapFieldKeyType::Bool, i + 1))
            } else if str_eq(t, "string") {
                Ok((MapFieldKeyType::String, i + 1))
            } else {
                Err(Error::UnexpectedToken { at: i })
            }
        },
        _ => Err(Error::UnexpectedToken { at: i }),
    }
}

/// A constant: an identifier, a signed integer or float, a string or a
/// boolean.  `inf` and `nan` are float constants, and a sign may
/// precede a numeric constant.
pub open spec fn sp_parse_constant(ts: Seq<SpecToken>, i: int) -> Result<
    (SpecConstant, int),
    SpecError,
> {
    if i < 0 || i >= ts.len() {
        Err(SpecError::UnexpectedToken { at: i })
    } else {
        match ts[i] {
            SpecToken::Word { relative, dotted, text } => {
                let plain = !relative && !dotted;
                if plain && text == "true"@ {
                    Ok((SpecConstant::Bool(true), i + 1))
                } else if plain && text == "false"@ {
                    Ok((SpecConstant::Bool(false), i + 1))
                } else if plain && (text == "inf"@ || text == "nan"@) {
                    Ok((SpecConstant::Float(text), i + 1))
                } else {
                    Ok((SpecConstant::Ident(SpecIdent { relative, value: text }), i + 1))
                }
            },
            SpecToken::IntLit { value } => match sp_signed_of_magnitude(false, value) {
                Ok(v) => Ok((SpecConstant::Int(v), i + 1)),
                Err(e) => Err(e),
            },
            SpecToken::FloatLit { text } => Ok((SpecConstant::Float(text), i + 1)),
            SpecToken::StrLit { value, escaped } => Ok((SpecConstant::String(value), i + 1)),
            SpecToken::Punct(c) => if (c == '-' || c == '+') && i + 1 < ts.len() {
                let neg = c == '-';
                match ts[i + 1] {
                    SpecToken::IntLit { value } => match sp_signed_of_magnitude(neg, value) {
                        Ok(v) => Ok((SpecConstant::Int(v), i + 2)),
                        Err(e) => Err(e),
                    },
                    SpecToken::FloatLit { text } => Ok(
                        (
                            SpecConstant::Float(
                                if neg {
                                    seq!['-'] + text
                                } else {
                                    text
                                },
                            ),
                            i + 2,
                        ),
                    ),
                    SpecToken::Word { relative: false, dotted: false, text } => if text == "inf"@
                        || text == "nan"@ {
                        Ok(
                            (
                                SpecConstant::Float(
                                    if neg {
                                        seq!['-'] + text
                                    } else {
                                        text
                                    },
                                ),
                                i + 2,
                            ),
                        )
                    } else {
                        Err(SpecError::UnexpectedToken { at: i + 1 })
                    },
                    _ => Err(SpecError::UnexpectedToken { at: i + 1 }),
                }
            } else {
                Err(SpecError::UnexpectedToken { at: i })
            },
            _ => Err(SpecError::UnexpectedToken { at: i }),
        }
    }
}

fn signed_float_text(neg: bool, text: &String) -> (r: String)
    ensures
        r@ == (if neg {
            seq!['-'] + text@
        } else {
            text@
        }),
{
    let mut out = String::new();
    if neg {
        push_char(&mut out, '-');
    }
    out.append(text.as_str());
    proof {
        if neg {
            assert(out@ =~= seq!['-'] + text@);
        } else {
            assert(out@ =~= text@);
        }
    }
    out
}

#[verifier::rlimit(60)]
#[verifier::spinoff_prover]
pub fn parse_constant(toks: &Vec<Token>, i: usize) -> (r: Result<(Constant, usize), Error>)
    requires
        i <= toks@.len(),
    ensures
        agrees(r, sp_parse_constant(toks.deep_view(), i as int), |v: Constant| v@),
        r matches Ok((v, j)) ==> i < j <= toks@.len(),
{
    if i >= toks.len() {
        return Err(Error::UnexpectedToken { at: i });
    }
    match &toks[i] {
        Token::Word { relative, dotted, text } => {
            let plain = !*relative && !*dotted;
            let t = text.as_str();
            if plain && str_eq(t, "true") {
                Ok((Constant::Bool(true), i + 1))
            } else if plain && str_eq(t, "false") {
                Ok((Constant::Bool(false), i + 1))
            } else if plain && (str_eq(t, "inf") || str_eq(t, "nan")) {
                Ok((Constant::Float(text.clone()), i + 1))
            } else {
                Ok((Constant::Ident(Ident::new(*relative, text.clone())), i + 1))
            }
        },
        Token::IntLit { value } => match signed_of_magnitude(false, *value) {
            Ok(v) => Ok((Constant::Int(v), i + 1)),
            Err(e) => Err(e),
        },
        Token::FloatLit { text } => Ok((Constant::Float(text.clone()), i + 1)),
        Token::StrLit { value, escaped: _ } => Ok((Constant::String(value.clone()), i + 1)),
        Token::Punct(c) => if (*c == '-' || *c == '+') && toks.len() - i > 1 {
            let neg = *c == '-';
            match &toks[i + 1] {
                Token::IntLit { value } => match signed_of_magnitude(neg, *value) {
                    Ok(v) => Ok((Constant::Int(v), i + 2)),
                    Err(e) => Err(e),
                },
                Token::FloatLit { text } => Ok(
                    (Constant::Float(signed_float_text(neg, text)), i + 2),
                ),
                Token::Word { relative, dotted, text } => if !*relative && !*dotted && (str_eq(
                    text.as_str(),
                    "inf",
                ) || str_eq(text.as_str(), "nan")) {
                    Ok((Constant::Float(signed_float_text(neg, text)), i + 2))
                } else {
                    Err(Error::UnexpectedToken { at: i + 1 })
                },
                _ => Err(Error::UnexpectedToken { at: i + 1 }),
            }
        } else {
            Err(Error::UnexpectedToken { at: i })
        },
        _ => Err(Error::UnexpectedToken { at: i }),
    }
}

fn no_comments() -> (r: Vec<Comment>)
    ensures
        r.deep_view() == Seq::<Seq<char>>::empty(),
{
    let r: Vec<Comment> = Vec::new();
    proof {
        assert(r.deep_view() =~= Seq::<Seq<char>>::empty());
    }
    r
}

// ---------------------------------------------------------------------
// Options
// ---------------------------------------------------------------------
/// One `name = constant` pair, as it appears in an option declaration
/// or a bracketed field-option list.
pub open spec fn sp_parse_option_entry(ts: Seq<SpecToken>, i: int) -> Result<
    (SpecProtoOption, int),
    SpecError,
> {
    match sp_parse_ident(ts, i) {
        Err(e) => Err(e),
        Ok((name, j)) => if 0 <= j && j < ts.len() && is_p(ts[j], '=') {
            match sp_parse_constant(ts, j + 1) {
                Err(e) => Err(e),
                Ok((value, k)) => Ok(
                    (SpecProtoOption { name, value, comments: Seq::empty() }, k),
                ),
            }
        } else {
            Err(SpecError::UnexpectedToken { at: j })
        },
    }
}

pub fn parse_option_entry(toks: &Vec<Token>, i: usize) -> (r: Result<(ProtoOption, usize), Error>)
    requires
        i <= toks@.len(),
    ensures
        agrees(r, sp_parse_option_entry(toks.deep_view(), i as int), |v: ProtoOption| v@),
        r matches Ok((v, j)) ==> i < j <= toks@.len(),
{
    match parse_ident(toks, i) {
        Err(e) => Err(e),
        Ok((name, j)) => if j < toks.len() && token_is_p(&toks[j], '=') {
            match parse_constant(toks, j + 1) {
                Err(e) => Err(e),
                Ok((value, k)) => {
                    let mut b = ProtoOptionBuilder::new();
                    b.set_name(name);
                    b.set_value(value);
                    match b.build() {
                        Ok(o) => Ok((o, k)),
                        Err(e) => {
                            proof {
                                assert(false);
                            }
                            Err(e)
                        },
                    }
                },
            }
        } else {
            Err(Error::UnexpectedToken { at: j })
        },
    }
}

/// A bracketed field-option list after its opening `[`: entries
/// separated by commas, closed by `]`.
pub open spec fn sp_parse_field_options(ts: Seq<SpecToken>, i: int, acc: Seq<SpecProtoOption>) -> Result<
    (Seq<SpecProtoOption>, int),
    SpecError,
>
    decreases ts.len() - i,
{
    match sp_parse_option_entry(ts, i) {
        Err(e) => Err(e),
        Ok((o, j)) => if 0 <= j && j < ts.len() && is_p(ts[j], ',') {
            if i < j + 1 && j + 1 <= ts.len() {
                sp_parse_field_options(ts, j + 1, acc.push(o))
            } else {
                // entry parsing always advances; this keeps the recursion
                // well-founded
                Err(SpecError::UnexpectedToken { at: i })
            }
        } else if 0 <= j && j < ts.len() && is_p(ts[j], ']') {
            Ok((acc.push(o), j + 1))
        } else {
            Err(SpecError::UnexpectedToken { at: j })
        },
    }
}

pub fn parse_field_options(toks: &Vec<Token>, i: usize, acc: Vec<ProtoOption>) -> (r: Result<
    (Vec<ProtoOption>, usize),
    Error,
>)
    requires
        i <= toks@.len(),
    ensures
        agrees(
            r,
            sp_parse_field_options(toks.deep_view(), i as int, acc.deep_view()),
            |v: Vec<ProtoOption>| v.deep_view(),
        ),
        r matches Ok((v, j)) ==> i < j <= toks@.len(),
    decreases toks@.len() - i,
{
    match parse_option_entry(toks, i) {
        Err(e) => Err(e),
        Ok((o, j)) => if j < toks.len() && token_is_p(&toks[j], ',') {
            let mut a = acc;
            let ghost prev = a.deep_view();
            a.push(o);
            proof {
                assert(a.deep_view() =~= prev.push(o@));
            }
            parse_field_options(toks, j + 1, a)
        } else if j < toks.len() && token_is_p(&toks[j], ']') {
            let mut a = acc;
            let ghost prev = a.deep_view();
            a.push(o);
            proof {
                assert(a.deep_view() =~= prev.push(o@));
            }
            Ok((a, j + 1))
        } else {
            Err(Error::UnexpectedToken { at: j })
        },
    }
}

/// An `option name = constant ;` declaration, starting at the
/// `option` keyword.
pub open spec fn sp_parse_option_decl(ts: Seq<SpecToken>, i: int) -> Result<
    (SpecProtoOption, int),
    SpecError,
> {
    if !(0 <= i && i < ts.len() && is_kw(ts[i], "option"@)) {
        Err(SpecError::UnexpectedToken { at: i })
    } else {
        match sp_parse_option_entry(ts, i + 1) {
            Err(e) => Err(e),
            Ok((o, j)) => if 0 <= j && j < ts.len() && is_p(ts[j], ';') {
                Ok((o, j + 1))
            } else {
                Err(SpecError::UnexpectedToken { at: j })
            },
        }
    }
}

pub fn parse_option_decl(toks: &Vec<Token>, i: usize) -> (r: Result<(ProtoOption, usize), Error>)
    requires
        i <= toks@.len(),
    ensures
        agrees(r, sp_parse_option_decl(toks.deep_view(), i as int), |v: ProtoOption| v@),
        r matches Ok((v, j)) ==> i < j <= toks@.len(),
{
    if !(i < toks.len() && token_is_kw(&toks[i], "option")) {
        return Err(Error::UnexpectedToken { at: i });
    }
    match parse_option_entry(toks, i + 1) {
        Err(e) => Err(e),
        Ok((o, j)) => if j < toks.len() && token_is_p(&toks[j], ';') {
            Ok((o, j + 1))
        } else {
            Err(Error::UnexpectedToken { at: j })
        },
    }
}

// ---------------------------------------------------------------------
// Header-like declarations
// ---------------------------------------------------------------------
/// A `syntax = "name" ;` declaration, starting at the `syntax`
/// keyword; `cms` holds the comments that preceded it.
pub open spec fn sp_parse_syntax_decl(ts: Seq<SpecToken>, i: int, cms: Seq<Seq<char>>) -> Result<
    (SpecSyntax, int),
    SpecError,
> {
    if !(0 <= i && i < ts.len() && is_kw(ts[i], "syntax"@)) {
        Err(SpecError::UnexpectedToken { at: i })
    } else if !(i + 3 < ts.len()) {
        Err(SpecError::UnexpectedToken { at: i + 1 })
    } else if !is_p(ts[i + 1], '=') {
        Err(SpecError::UnexpectedToken { at: i + 1 })
    } else {
        match ts[i + 2] {
            SpecToken::StrLit { value, escaped } => if is_p(ts[i + 3], ';') {
                Ok((SpecSyntax { value, comments: cms }, i + 4))
            } else {
                Err(SpecError::UnexpectedToken { at: i + 3 })
            },
            _ => Err(SpecError::UnexpectedToken { at: i + 2 }),
        }
    }
}

pub fn parse_syntax_decl(toks: &Vec<Token>, i: usize, cms: Vec<Comment>) -> (r: Result<
    (Syntax, usize),
    Error,
>)
    requires
        i <= toks@.len(),
    ensures
        agrees(
            r,
            sp_parse_syntax_decl(toks.deep_view(), i as int, cms.deep_view()),
            |v: Syntax| v@,
        ),
        r matches Ok((v, j)) ==> i < j <= toks@.len(),
{
    if !(i < toks.len() && token_is_kw(&toks[i], "syntax")) {
        return Err(Error::UnexpectedToken { at: i });
    }
    if !(toks.len() - i > 3) {
        return Err(Error::UnexpectedToken { at: i + 1 });
    }
    if !token_is_p(&toks[i + 1], '=') {
        return Err(Error::UnexpectedToken { at: i + 1 });
    }
    match &toks[i + 2] {
        Token::StrLit { value, escaped: _ } => if token_is_p(&toks[i + 3], ';') {
            Ok((Syntax { value: value.clone(), comments: cms }, i + 4))
        } else {
            Err(Error::UnexpectedToken { at: i + 3 })
        },
        _ => Err(Error::UnexpectedToken { at: i + 2 }),
    }
}

/// An `import [weak|public] "path" ;` declaration, starting at the
/// `import` keyword.
pub open spec fn sp_parse_import(ts: Seq<SpecToken>, i: int) -> Result<(SpecImport, int), SpecError> {
    if !(0 <= i && i < ts.len() && is_kw(ts[i], "import"@)) {
        Err(SpecError::UnexpectedToken { at: i })
    } else {
        let weak = i + 1 < ts.len() && is_kw(ts[i + 1], "weak"@);
        let public = i + 1 < ts.len() && is_kw(ts[i + 1], "public"@);
        let j = if weak || public {
            i + 2
        } else {
            i + 1
        };
        if !(j + 1 < ts.len()) {
            Err(SpecError::UnexpectedToken { at: j })
        } else {
            match ts[j] {
                SpecToken::StrLit { value, escaped } => if is_p(ts[j + 1], ';') {
                    Ok(
                        (
                            SpecImport { weak, public, value, comments: Seq::empty() },
                            j + 2,
                        ),
                    )
                } else {
                    Err(SpecError::UnexpectedToken { at: j + 1 })
                },
                _ => Err(SpecError::UnexpectedToken { at: j }),
            }
        }
    }
}

pub fn parse_import(toks: &Vec<Token>, i: usize) -> (r: Result<(Import, usize), Error>)
    requires
        i <= toks@.len(),
    ensures
        agrees(r, sp_parse_import(toks.deep_view(), i as int), |v: Import| v@),
        r matches Ok((v, j)) ==> i < j <= toks@.len(),
{
    if !(i < toks.len() && token_is_kw(&toks[i], "import")) {
        return Err(Error::UnexpectedToken { at: i });
    }
    let weak = toks.len() - i > 1 && token_is_kw(&toks[i + 1], "weak");
    let public = toks.len() - i > 1 && token_is_kw(&toks[i + 1], "public");
    let j = if weak || public {
        i + 2
    } else {
        i + 1
    };
    if !(toks.len() - j > 1) {
        return Err(Error::UnexpectedToken { at: j });
    }
    match &toks[j] {
        Token::StrLit { value, escaped: _ } => if token_is_p(&toks[j + 1], ';') {
            Ok(
                (
                    Import { weak, public, value: value.clone(), comments: no_comments() },
                    j + 2,
                ),
            )
        } else {
            Err(Error::UnexpectedToken { at: j + 1 })
        },
        _ => Err(Error::UnexpectedToken { at: j }),
    }
}

/// A `package dotted.name ;` declaration, starting at the `package`
/// keyword.
pub open spec fn sp_parse_package(ts: Seq<SpecToken>, i: int) -> Result<(SpecPackage, int), SpecError> {
    if !(0 <= i && i < ts.len() && is_kw(ts[i], "package"@)) {
        Err(SpecError::UnexpectedToken { at: i })
    } else if !(i + 2 < ts.len()) {
        Err(SpecError::UnexpectedToken { at: i + 1 })
    } else {
        match ts[i + 1] {
            SpecToken::Word { relative: false, dotted, text } => if is_p(ts[i + 2], ';') {
                Ok((SpecPackage { value: text, comments: Seq::empty() }, i + 3))
            } else {
                Err(SpecError::UnexpectedToken { at: i + 2 })
            },
            _ => Err(SpecError::UnexpectedToken { at: i + 1 }),
        }
    }
}

pub fn parse_package(toks: &Vec<Token>, i: usize) -> (r: Result<(Package, usize), Error>)
    requires
        i <= toks@.len(),
    ensures
        agrees(r, sp_parse_package(toks.deep_view(), i as int), |v: Package| v@),
        r matches Ok((v, j)) ==> i < j <= toks@.len(),
{
    if !(i < toks.len() && token_is_kw(&toks[i], "package")) {
        return Err(Error::UnexpectedToken { at: i });
    }
    if !(toks.len() - i > 2) {
        return Err(Error::UnexpectedToken { at: i + 1 });
    }
    match &toks[i + 1] {
        Token::Word { relative, dotted: _, text } => if *relative {
            Err(Error::UnexpectedToken { at: i + 1 })
        } else if token_is_p(&toks[i + 2], ';') {
            Ok((Package { value: text.clone(), comments: no_comments() }, i + 3))
        } else {
            Err(Error::UnexpectedToken { at: i + 2 })
        },
        _ => Err(Error::UnexpectedToken { at: i + 1 }),
    }
}

// ---------------------------------------------------------------------
// Reserved declarations
// ---------------------------------------------------------------------
/// The entries of a reserved-ranges declaration: `lo [to (hi|max)]`,
/// comma separated, closed by `;`.  A single bound stands for the
/// range `lo to lo`; `max` stands for the largest signed 64-bit value.
pub open spec fn sp_parse_reserved_ranges(ts: Seq<SpecToken>, i: int, acc: Seq<SpecReservedData>) -> Result<
    (Seq<SpecReservedData>, int),
    SpecError,
>
    decreases ts.len() - i,
{
    if !(0 <= i && i < ts.len()) {
        Err(SpecError::UnexpectedToken { at: i })
    } else {
        match ts[i] {
            SpecToken::IntLit { value } => if value > i64::MAX as u64 {
                Err(SpecError::NumericLiteralOverflow)
            } else {
                let lo = value as i64;
                if i + 2 < ts.len() && is_kw(ts[i + 1], "to"@) {
                    let hi_tok = ts[i + 2];
                    match hi_tok {
                        SpecToken::IntLit { value: hv } => if hv > i64::MAX as u64 {
                            Err(SpecError::NumericLiteralOverflow)
                        } else {
                            sp_parse_reserved_ranges_tail(
                                ts,
                                i + 3,
                                acc.push(SpecReservedData::Range(lo, hv as i64)),
                            )
                        },
                        SpecToken::Word { relative: false, dotted: false, text } => if text
                            == "max"@ {
                            sp_parse_reserved_ranges_tail(
                                ts,
                                i + 3,
                                acc.push(SpecReservedData::Range(lo, i64::MAX)),
                            )
                        } else {
                            Err(SpecError::UnexpectedToken { at: i + 2 })
                        },
                        _ => Err(SpecError::UnexpectedToken { at: i + 2 }),
                    }
                } else {
                    sp_parse_reserved_ranges_tail(
                        ts,
                        i + 1,
                        acc.push(SpecReservedData::Range(lo, lo)),
                    )
                }
            },
            _ => Err(SpecError::UnexpectedToken { at: i }),
        }
    }
}

/// After one range entry: a comma continues the list, a semicolon ends
/// it.
pub open spec fn sp_parse_reserved_ranges_tail(
    ts: Seq<SpecToken>,
    i: int,
    acc: Seq<SpecReservedData>,
) -> Result<(Seq<SpecReservedData>, int), SpecError>
    decreases ts.len() - i, 1int,
{
    if 0 <= i && i < ts.len() && is_p(ts[i], ',') {
        sp_parse_reserved_ranges(ts, i + 1, acc)
    } else if 0 <= i && i < ts.len() && is_p(ts[i], ';') {
        Ok((acc, i + 1))
    } else {
        Err(SpecError::UnexpectedToken { at: i })
    }
}

fn push_reserved(acc: Vec<ReservedData>, item: ReservedData) -> (r: Vec<ReservedData>)
    ensures
        r.deep_view() == acc.deep_view().push(item@),
{
    let mut a = acc;
    let ghost prev = a.deep_view();
    a.push(item);
    proof {
        assert(a.deep_view() =~= prev.push(item@));
    }
    a
}

pub fn parse_reserved_ranges(toks: &Vec<Token>, i: usize, acc: Vec<ReservedData>) -> (r: Result<
    (Vec<ReservedData>, usize),
    Error,
>)
    requires
        i <= toks@.len(),
    ensures
        agrees(
            r,
            sp_parse_reserved_ranges(toks.deep_view(), i as int, acc.deep_view()),
            |v: Vec<ReservedData>| v.deep_view(),
        ),
        r matches Ok((v, j)) ==> i < j <= toks@.len(),
    decreases toks@.len() - i, 0int,
{
    if !(i < toks.len()) {
        return Err(Error::UnexpectedToken { at: i });
    }
    match &toks[i] {
        Token::IntLit { value } => if *value > i64::MAX as u64 {
            Err(Error::NumericLiteralOverflow)
        } else {
            let lo = *value as i64;
            if toks.len() - i > 2 && token_is_kw(&toks[i + 1], "to") {
                match &toks[i + 2] {
                    Token::IntLit { value: hv } => if *hv > i64::MAX as u64 {
                        Err(Error::NumericLiteralOverflow)
                    } else {
                        parse_reserved_ranges_tail(
                            toks,
                            i + 3,
                            push_reserved(acc, ReservedData::Range(lo, *hv as i64)),
                        )
                    },
                    Token::Word { relative, dotted, text } => if !*relative && !*dotted
                        && str_eq(text.as_str(), "max") {
                        parse_reserved_ranges_tail(
                            toks,
                            i + 3,
                            push_reserved(acc, ReservedData::Range(lo, i64::MAX)),
                        )
                    } else {
                        Err(Error::UnexpectedToken { at: i + 2 })
                    },
                    _ => Err(Error::UnexpectedToken { at: i + 2 }),
                }
            } else {
                parse_reserved_ranges_tail(
                    toks,
                    i + 1,
                    push_reserved(acc, ReservedData::Range(lo, lo)),
                )
            }
        },
        _ => Err(Error::UnexpectedToken { at: i }),
    }
}

pub fn parse_reserved_ranges_tail(toks: &Vec<Token>, i: usize, acc: Vec<ReservedData>) -> (r: Result<
    (Vec<ReservedData>, usize),
    Error,
>)
    requires
        i <= toks@.len(),
    ensures
        agrees(
            r,
            sp_parse_reserved_ranges_tail(toks.deep_view(), i as int, acc.deep_view()),
            |v: Vec<ReservedData>| v.deep_view(),
        ),
        r matches Ok((v, j)) ==> i < j <= toks@.len(),
    decreases toks@.len() - i, 1int,
{
    if i < toks.len() && token_is_p(&toks[i], ',') {
        parse_reserved_ranges(toks, i + 1, acc)
    } else if i < toks.len() && token_is_p(&toks[i], ';') {
        Ok((acc, i + 1))
    } else {
        Err(Error::UnexpectedToken { at: i })
    }
}

/// The entries of a reserved-names declaration: string literals,
/// comma separated, closed by `;`.
pub open spec fn sp_parse_reserved_names(ts: Seq<SpecToken>, i: int, acc: Seq<SpecReservedData>) -> Result<
    (Seq<SpecReservedData>, int),
    SpecError,
>
    decreases ts.len() - i,
{
    if !(0 <= i && i < ts.len()) {
        Err(SpecError::UnexpectedToken { at: i })
    } else {
        match ts[i] {
            SpecToken::StrLit { value, escaped } => {
                let acc2 = acc.push(
                    SpecReservedData::Field(SpecIdent { relative: false, value }),
                );
                if i + 1 < ts.len() && is_p(ts[i + 1], ',') {
                    sp_parse_reserved_names(ts, i + 2, acc2)
                } else if i + 1 < ts.len() && is_p(ts[i + 1], ';') {
                    Ok((acc2, i + 2))
                } else {
                    Err(SpecError::UnexpectedToken { at: i + 1 })
                }
            },
            _ => Err(SpecError::UnexpectedToken { at: i }),
        }
    }
}

pub fn parse_reserved_names(toks: &Vec<Token>, i: usize, acc: Vec<ReservedData>) -> (r: Result<
    (Vec<ReservedData>, usize),
    Error,
>)
    requires
        i <= toks@.len(),
    ensures
        agrees(
            r,
            sp_parse_reserved_names(toks.deep_view(), i as int, acc.deep_view()),
            |v: Vec<ReservedData>| v.deep_view(),
        ),
        r matches Ok((v, j)) ==> i < j <= toks@.len(),
    decreases toks@.len() - i,
{
    if !(i < toks.len()) {
        return Err(Error::UnexpectedToken { at: i });
    }
    match &toks[i] {
        Token::StrLit { value, escaped: _ } => {
            let acc2 = push_reserved(
                acc,
                ReservedData::Field(Ident::new(false, value.clone())),
            );
            if toks.len() - i > 1 && token_is_p(&toks[i + 1], ',') {
                parse_reserved_names(toks, i + 2, acc2)
            } else if toks.len() - i > 1 && token_is_p(&toks[i + 1], ';') {
                Ok((acc2, i + 2))
            } else {
                Err(Error::UnexpectedToken { at: i + 1 })
            }
        },
        _ => Err(Error::UnexpectedToken { at: i }),
    }
}

/// A `reserved` declaration: number ranges or field names, starting at
/// the `reserved` keyword.
pub open spec fn sp_parse_reserved(ts: Seq<SpecToken>, i: int) -> Result<
    (SpecReservedItems, int),
    SpecError,
> {
    if !(0 <= i && i < ts.len() && is_kw(ts[i], "reserved"@)) {
        Err(SpecError::UnexpectedToken { at: i })
    } else if !(i + 1 < ts.len()) {
        Err(SpecError::UnexpectedToken { at: i + 1 })
    } else {
        match ts[i + 1] {
            SpecToken::IntLit { value } => match sp_parse_reserved_ranges(
                ts,
                i + 1,
                Seq::empty(),
            ) {
                Ok((items, j)) => Ok(
                    (SpecReservedItems { items, comments: Seq::empty() }, j),
                ),
                Err(e) => Err(e),
            },
            SpecToken::StrLit { value, escaped } => match sp_parse_reserved_names(
                ts,
                i + 1,
                Seq::empty(),
            ) {
                Ok((items, j)) => Ok(
                    (SpecReservedItems { items, comments: Seq::empty() }, j),
                ),
                Err(e) => Err(e),
            },
            _ => Err(SpecError::UnexpectedToken { at: i + 1 }),
        }
    }
}

pub fn parse_reserved(toks: &Vec<Token>, i: usize) -> (r: Result<(ReservedItems, usize), Error>)
    requires
        i <= toks@.len(),
    ensures
        agrees(r, sp_parse_reserved(toks.deep_view(), i as int), |v: ReservedItems| v@),
        r matches Ok((v, j)) ==> i < j <= toks@.len(),
{
    if !(i < toks.len() && token_is_kw(&toks[i], "reserved")) {
        return Err(Error::UnexpectedToken { at: i });
    }
    if !(toks.len() - i > 1) {
        return Err(Error::UnexpectedToken { at: i + 1 });
    }
    let is_int = match &toks[i + 1] {
        Token::IntLit { value: _ } => true,
        _ => false,
    };
    let is_str = match &toks[i + 1] {
        Token::StrLit { value: _, escaped: _ } => true,
        _ => false,
    };
    let empty: Vec<ReservedData> = Vec::new();
    proof {
        assert(empty.deep_view() =~= Seq::<SpecReservedData>::empty());
    }
    if is_int {
        match parse_reserved_ranges(toks, i + 1, empty) {
            Ok((items, j)) => Ok((ReservedItems { items, comments: no_comments() }, j)),
            Err(e) => Err(e),
        }
    } else if is_str {
        match parse_reserved_names(toks, i + 1, empty) {
            Ok((items, j)) => Ok((ReservedItems { items, comments: no_comments() }, j)),
            Err(e) => Err(e),
        }
    } else {
        Err(Error::UnexpectedToken { at: i + 1 })
    }
}

// ---------------------------------------------------------------------
// Fields
// ---------------------------------------------------------------------
/// Appends a value onto a vector, tracking the deep view.
fn push_onto<T: DeepView>(v: &mut Vec<T>, x: T)
    ensures
        final(v).deep_view() == old(v).deep_view().push(x.deep_view()),
{
    let ghost prev = v.deep_view();
    v.push(x);
    proof {
        assert(v.deep_view() =~= prev.push(x.deep_view()));
    }
}

/// An optional bracketed field-option list: absent when the next token
/// is not `[`.
pub open spec fn sp_parse_field_options_opt(ts: Seq<SpecToken>, i: int) -> Result<
    (Seq<SpecProtoOption>, int),
    SpecError,
> {
    if 0 <= i && i < ts.len() && is_p(ts[i], '[') {
        sp_parse_field_options(ts, i + 1, Seq::empty())
    } else {
        Ok((Seq::empty(), i))
    }
}

pub fn parse_field_options_opt(toks: &Vec<Token>, i: usize) -> (r: Result<
    (Vec<ProtoOption>, usize),
    Error,
>)
    requires
        i <= toks@.len(),
    ensures
        agrees(
            r,
            sp_parse_field_options_opt(toks.deep_view(), i as int),
            |v: Vec<ProtoOption>| v.deep_view(),
        ),
        r matches Ok((v, j)) ==> i <= j <= toks@.len(),
{
    let empty: Vec<ProtoOption> = Vec::new();
    proof {
        assert(empty.deep_view() =~= Seq::<SpecProtoOption>::empty());
    }
    if i < toks.len() && token_is_p(&toks[i], '[') {
        parse_field_options(toks, i + 1, empty)
    } else {
        Ok((empty, i))
    }
}

/// An ordinary message field: optional `repeated` / `optional` flags,
/// a type, a name, `=`, the field number, optional field options, and
/// the closing semicolon.
pub open spec fn sp_parse_normal_field(
    ts: Seq<SpecToken>,
    i: int,
    repeated: bool,
    optional: bool,
) -> Result<(SpecNormalField, int), SpecError>
    decreases ts.len() - i,
{
    if 0 <= i && i < ts.len() && is_kw(ts[i], "repeated"@) {
        sp_parse_normal_field(ts, i + 1, true, optional)
    } else if 0 <= i && i < ts.len() && is_kw(ts[i], "optional"@) {
        sp_parse_normal_field(ts, i + 1, repeated, true)
    } else {
        match sp_parse_type(ts, i) {
            Err(e) => Err(e),
            Ok((ty, j)) => match sp_parse_plain_ident(ts, j) {
                Err(e) => Err(e),
                Ok((name, k)) => if !(0 <= k && k + 1 < ts.len() && is_p(ts[k], '=')) {
                    Err(SpecError::UnexpectedToken { at: k })
                } else {
                    match ts[k + 1] {
                        SpecToken::IntLit { value } => match sp_parse_field_options_opt(
                            ts,
                            k + 2,
                        ) {
                            Err(e) => Err(e),
                            Ok((opts, m)) => if 0 <= m && m < ts.len() && is_p(ts[m], ';') {
                                Ok(
                                    (
                                        SpecNormalField {
                                            repeated,
                                            optional,
                                            ty,
                                            name,
                                            number: value,
                                            options: opts,
                                            comments: Seq::empty(),
                                        },
                                        m + 1,
                                    ),
                                )
                            } else {
                                Err(SpecError::UnexpectedToken { at: m })
                            },
                        },
                        _ => Err(SpecError::UnexpectedToken { at: k + 1 }),
                    }
                },
            },
        }
    }
}

#[verifier::rlimit(60)]
#[verifier::spinoff_prover]
pub fn parse_normal_field(toks: &Vec<Token>, i: usize, repeated: bool, optional: bool) -> (r: Result<
    (NormalField, usize),
    Error,
>)
    requires
        i <= toks@.len(),
    ensures
        agrees(
            r,
            sp_parse_normal_field(toks.deep_view(), i as int, repeated, optional),
            |v: NormalField| v@,
        ),
        r matches Ok((v, j)) ==> i < j <= toks@.len(),
    decreases toks@.len() - i,
{
    if i < toks.len() && token_is_kw(&toks[i], "repeated") {
        return parse_normal_field(toks, i + 1, true, optional);
    }
    if i < toks.len() && token_is_kw(&toks[i], "optional") {
        return parse_normal_field(toks, i + 1, repeated, true);
    }
    match parse_type(toks, i) {
        Err(e) => Err(e),
        Ok((ty, j)) => match parse_plain_ident(toks, j) {
            Err(e) => Err(e),
            Ok((name, k)) => if !(toks.len() - k > 1 && token_is_p(&toks[k], '=')) {
                Err(Error::UnexpectedToken { at: k })
            } else {
                match &toks[k + 1] {
                    Token::IntLit { value } => match parse_field_options_opt(toks, k + 2) {
                        Err(e) => Err(e),
                        Ok((opts, m)) => if m < toks.len() && token_is_p(&toks[m], ';') {
                            let mut b = NormalFieldBuilder::new();
                            b.set_repeated(repeated);
                            b.set_optional(optional);
                            b.set_ty(ty);
                            b.set_name(name);
                            b.set_number(*value);
                            b.options = opts;
                            match b.build() {
                                Ok(f) => Ok((f, m + 1)),
                                Err(e) => {
                                    proof {
                                        assert(false);
                                    }
                                    Err(e)
                                },
                            }
                        } else {
                            Err(Error::UnexpectedToken { at: m })
                        },
                    },
                    _ => Err(Error::UnexpectedToken { at: k + 1 }),
                }
            },
        },
    }
}

/// One alternative of a one-of group: a type, a name, `=`, the field
/// number, optional field options, and the closing semicolon.
pub open spec fn sp_parse_oneof_item(ts: Seq<SpecToken>, i: int) -> Result<
    (SpecOneOfFieldItem, int),
    SpecError,
> {
    match sp_parse_type(ts, i) {
        Err(e) => Err(e),
        Ok((ty, j)) => match sp_parse_plain_ident(ts, j) {
            Err(e) => Err(e),
            Ok((name, k)) => if !(0 <= k && k + 1 < ts.len() && is_p(ts[k], '=')) {
                Err(SpecError::UnexpectedToken { at: k })
            } else {
                match ts[k + 1] {
                    SpecToken::IntLit { value } => match sp_parse_field_options_opt(ts, k + 2) {
                        Err(e) => Err(e),
                        Ok((opts, m)) => if 0 <= m && m < ts.len() && is_p(ts[m], ';') {
                            Ok(
                                (
                                    SpecOneOfFieldItem {
                                        ty,
                                        name,
                                        number: value,
                                        options: opts,
                                        comments: Seq::empty(),
                                    },
                                    m + 1,
                                ),
                            )
                        } else {
                            Err(SpecError::UnexpectedToken { at: m })
                        },
                    },
                    _ => Err(SpecError::UnexpectedToken { at: k + 1 }),
                }
            },
        },
    }
}

#[verifier::rlimit(60)]
#[verifier::spinoff_prover]
pub fn parse_oneof_item(toks: &Vec<Token>, i: usize) -> (r: Result<(OneOfFieldItem, usize), Error>)
    requires
        i <= toks@.len(),
    ensures
        agrees(r, sp_parse_oneof_item(toks.deep_view(), i as int), |v: OneOfFieldItem| v@),
        r matches Ok((v, j)) ==> i < j <= toks@.len(),
{
    match parse_type(toks, i) {
        Err(e) => Err(e),
        Ok((ty, j)) => match parse_plain_ident(toks, j) {
            Err(e) => Err(e),
            Ok((name, k)) => if !(toks.len() - k > 1 && token_is_p(&toks[k], '=')) {
                Err(Error::UnexpectedToken { at: k })
            } else {
                match &toks[k + 1] {
                    Token::IntLit { value } => match parse_field_options_opt(toks, k + 2) {
                        Err(e) => Err(e),
                        Ok((opts, m)) => if m < toks.len() && token_is_p(&toks[m], ';') {
                            let mut b = OneOfFieldItemBuilder::new();
                            b.set_ty(ty);
                            b.set_name(name);
                            b.set_number(*value);
                            b.options = opts;
                            match b.build() {
                                Ok(f) => Ok((f, m + 1)),
                                Err(e) => {
                                    proof {
                                        assert(false);
                                    }
                                    Err(e)
                                },
                            }
                        } else {
                            Err(Error::UnexpectedToken { at: m })
                        },
                    },
                    _ => Err(Error::UnexpectedToken { at: k + 1 }),
                }
            },
        },
    }
}

/// One enum value: a name, `=`, a possibly signed number, optional
/// options, and the closing semicolon.
pub open spec fn sp_parse_enum_field(ts: Seq<SpecToken>, i: int) -> Result<
    (SpecEnumItem, int),
    SpecError,
> {
    match sp_parse_plain_ident(ts, i) {
        Err(e) => Err(e),
        Ok((name, j)) => if !(0 <= j && j + 1 < ts.len() && is_p(ts[j], '=')) {
            Err(SpecError::UnexpectedToken { at: j })
        } else {
            let neg = is_p(ts[j + 1], '-');
            let signed = neg || is_p(ts[j + 1], '+');
            let npos = if signed {
                j + 2
            } else {
                j + 1
            };
            if !(npos < ts.len()) {
                Err(SpecError::UnexpectedToken { at: npos })
            } else {
                match ts[npos] {
                    SpecToken::IntLit { value } => match sp_signed_of_magnitude(neg, value) {
                        Err(e) => Err(e),
                        Ok(number) => match sp_parse_field_options_opt(ts, npos + 1) {
                            Err(e) => Err(e),
                            Ok((opts, m)) => if 0 <= m && m < ts.len() && is_p(ts[m], ';') {
                                Ok(
                                    (
                                        SpecEnumItem {
                                            name,
                                            number,
                                            options: opts,
                                            comments: Seq::empty(),
                                        },
                                        m + 1,
                                    ),
                                )
                            } else {
                                Err(SpecError::UnexpectedToken { at: m })
                            },
                        },
                    },
                    _ => Err(SpecError::UnexpectedToken { at: npos }),
                }
            }
        },
    }
}

#[verifier::rlimit(60)]
#[verifier::spinoff_prover]
pub fn parse_enum_field(toks: &Vec<Token>, i: usize) -> (r: Result<(EnumItem, usize), Error>)
    requires
        i <= toks@.len(),
    ensures
        agrees(r, sp_parse_enum_field(toks.deep_view(), i as int), |v: EnumItem| v@),
        r matches Ok((v, j)) ==> i < j <= toks@.len(),
{
    match parse_plain_ident(toks, i) {
        Err(e) => Err(e),
        Ok((name, j)) => if !(toks.len() - j > 1 && token_is_p(&toks[j], '=')) {
            Err(Error::UnexpectedToken { at: j })
        } else {
            let neg = token_is_p(&toks[j + 1], '-');
            let signed = neg || token_is_p(&toks[j + 1], '+');
            let npos = if signed {
                j + 2
            } else {
                j + 1
            };
            if !(npos < toks.len()) {
                return Err(Error::UnexpectedToken { at: npos });
            }
            match &toks[npos] {
                Token::IntLit { value } => match signed_of_magnitude(neg, *value) {
                    Err(e) => Err(e),
                    Ok(number) => match parse_field_options_opt(toks, npos + 1) {
                        Err(e) => Err(e),
                        Ok((opts, m)) => if m < toks.len() && token_is_p(&toks[m], ';') {
                            Ok(
                                (
                                    EnumItem {
                                        name,
                                        number,
                                        options: opts,
                                        comments: no_comments(),
                                    },
                                    m + 1,
                                ),
                            )
                        } else {
                            Err(Error::UnexpectedToken { at: m })
                        },
                    },
                },
                _ => Err(Error::UnexpectedToken { at: npos }),
            }
        },
    }
}

/// A map field: `map < key , value > name = number [options] ;`,
/// starting at the `map` keyword.
pub open spec fn sp_parse_map_field(ts: Seq<SpecToken>, i: int) -> Result<
    (SpecMapField, int),
    SpecError,
> {
    if !(0 <= i && i < ts.len() && is_kw(ts[i], "map"@)) {
        Err(SpecError::UnexpectedToken { at: i })
    } else if !(i + 1 < ts.len() && is_p(ts[i + 1], '<')) {
        Err(SpecError::UnexpectedToken { at: i + 1 })
    } else {
        match sp_parse_map_key_type(ts, i + 2) {
            Err(e) => Err(e),
            Ok((key_ty, j)) => if !(0 <= j && j < ts.len() && is_p(ts[j], ',')) {
                Err(SpecError::UnexpectedToken { at: j })
            } else {
                match sp_parse_type(ts, j + 1) {
                    Err(e) => Err(e),
                    Ok((value_ty, k)) => if !(0 <= k && k < ts.len() && is_p(ts[k], '>')) {
                        Err(SpecError::UnexpectedToken { at: k })
                    } else {
                        match sp_parse_plain_ident(ts, k + 1) {
                            Err(e) => Err(e),
                            Ok((name, l)) => if !(0 <= l && l + 1 < ts.len() && is_p(
                                ts[l],
                                '=',
                            )) {
                                Err(SpecError::UnexpectedToken { at: l })
                            } else {
                                match ts[l + 1] {
                                    SpecToken::IntLit { value } => match sp_parse_field_options_opt(
                                        ts,
                                        l + 2,
                                    ) {
                                        Err(e) => Err(e),
                                        Ok((opts, m)) => if 0 <= m && m < ts.len() && is_p(
                                            ts[m],
                                            ';',
                                        ) {
                                            Ok(
                                                (
                                                    SpecMapField {
                                                        key_ty,
                                                        value_ty,
                                                        name,
                                                        number: value,
                                                        options: opts,
                                                        comments: Seq::empty(),
                                                    },
                                                    m + 1,
                                                ),
                                            )
                                        } else {
                                            Err(SpecError::UnexpectedToken { at: m })
                                        },
                                    },
                                    _ => Err(SpecError::UnexpectedToken { at: l + 1 }),
                                }
                            },
                        }
                    },
                }
            },
        }
    }
}

#[verifier::rlimit(60)]
#[verifier::spinoff_prover]
pub fn parse_map_field(toks: &Vec<Token>, i: usize) -> (r: Result<(MapField, usize), Error>)
    requires
        i <= toks@.len(),
    ensures
        agrees(r, sp_parse_map_field(toks.deep_view(), i as int), |v: MapField| v@),
        r matches Ok((v, j)) ==> i < j <= toks@.len(),
{
    if !(i < toks.len() && token_is_kw(&toks[i], "map")) {
        return Err(Error::UnexpectedToken { at: i });
    }
    if !(toks.len() - i > 1 && token_is_p(&toks[i + 1], '<')) {
        return Err(Error::UnexpectedToken { at: i + 1 });
    }
    match parse_map_key_type(toks, i + 2) {
        Err(e) => Err(e),
        Ok((key_ty, j)) => if !(j < toks.len() && token_is_p(&toks[j], ',')) {
            Err(Error::UnexpectedToken { at: j })
        } else {
            match parse_type(toks, j + 1) {
                Err(e) => Err(e),
                Ok((value_ty, k)) => if !(k < toks.len() && token_is_p(&toks[k], '>')) {
                    Err(Error::UnexpectedToken { at: k })
                } else {
                    match parse_plain_ident(toks, k + 1) {
                        Err(e) => Err(e),
                        Ok((name, l)) => if !(toks.len() - l > 1 && token_is_p(&toks[l], '=')) {
                            Err(Error::UnexpectedToken { at: l })
                        } else {
                            match &toks[l + 1] {
                                Token::IntLit { value } => match parse_field_options_opt(
                                    toks,
                                    l + 2,
                                ) {
                                    Err(e) => Err(e),
                                    Ok((opts, m)) => if m < toks.len() && token_is_p(
                                        &toks[m],
                                        ';',
                                    ) {
                                        let mut b = MapFieldBuilder::new();
                                        b.set_key_ty(key_ty);
                                        b.set_value_ty(value_ty);
                                        b.set_name(name);
                                        b.set_number(*value);
                                        b.options = opts;
                                        match b.build() {
                                            Ok(f) => Ok((f, m + 1)),
                                            Err(e) => {
                                                proof {
                                                    assert(false);
                                                }
                                                Err(e)
                                            },
                                        }
                                    } else {
                                        Err(Error::UnexpectedToken { at: m })
                                    },
                                },
                                _ => Err(Error::UnexpectedToken { at: l + 1 }),
                            }
                        },
                    }
                },
            }
        },
    }
}

// ---------------------------------------------------------------------
// One-of groups
// ---------------------------------------------------------------------
/// The body of a one-of group after its opening brace: alternatives,
/// options and comments, closed by `}`.  Stray semicolons are empty
/// statements.
pub open spec fn sp_parse_oneof_items(ts: Seq<SpecToken>, i: int, acc: SpecOneOfField) -> Result<
    (SpecOneOfField, int),
    SpecError,
>
    decreases ts.len() - i,
{
    if !(0 <= i && i < ts.len()) {
        Err(SpecError::UnexpectedToken { at: i })
    } else if is_p(ts[i], '}') {
        Ok((acc, i + 1))
    } else if is_p(ts[i], ';') {
        sp_parse_oneof_items(ts, i + 1, acc)
    } else {
        match ts[i] {
            SpecToken::Comment(c) => sp_parse_oneof_items(
                ts,
                i + 1,
                SpecOneOfField { comments: acc.comments.push(c), ..acc },
            ),
            _ => if is_kw(ts[i], "option"@) {
                match sp_parse_option_decl(ts, i) {
                    Err(e) => Err(e),
                    Ok((o, j)) => if i < j && j <= ts.len() {
                        sp_parse_oneof_items(
                            ts,
                            j,
                            SpecOneOfField { options: acc.options.push(o), ..acc },
                        )
                    } else {
                        // declarations always advance; this keeps the
                        // recursion well-founded
                        Err(SpecError::UnexpectedToken { at: i })
                    },
                }
            } else {
                match sp_parse_oneof_item(ts, i) {
                    Err(e) => Err(e),
                    Ok((f, j)) => if i < j && j <= ts.len() {
                        sp_parse_oneof_items(
                            ts,
                            j,
                            SpecOneOfField { fields: acc.fields.push(f), ..acc },
                        )
                    } else {
                        Err(SpecError::UnexpectedToken { at: i })
                    },
                }
            },
        }
    }
}

#[verifier::rlimit(60)]
#[verifier::spinoff_prover]
pub fn parse_oneof_items(toks: &Vec<Token>, i: usize, acc: OneOfField) -> (r: Result<
    (OneOfField, usize),
    Error,
>)
    requires
        i <= toks@.len(),
    ensures
        agrees(
            r,
            sp_parse_oneof_items(toks.deep_view(), i as int, acc@),
            |v: OneOfField| v@,
        ),
        r matches Ok((v, j)) ==> i < j <= toks@.len(),
    decreases toks@.len() - i,
{
    if !(i < toks.len()) {
        return Err(Error::UnexpectedToken { at: i });
    }
    if token_is_p(&toks[i], '}') {
        return Ok((acc, i + 1));
    }
    if token_is_p(&toks[i], ';') {
        return parse_oneof_items(toks, i + 1, acc);
    }
    let is_comment = match &toks[i] {
        Token::Comment(_) => true,
        _ => false,
    };
    if is_comment {
        let mut a = acc;
        match &toks[i] {
            Token::Comment(c) => {
                push_onto(&mut a.comments, Comment::new(c.clone()));
            },
            _ => (),
        }
        return parse_oneof_items(toks, i + 1, a);
    }
    if token_is_kw(&toks[i], "option") {
        match parse_option_decl(toks, i) {
            Err(e) => Err(e),
            Ok((o, j)) => {
                let mut a = acc;
                push_onto(&mut a.options, o);
                parse_oneof_items(toks, j, a)
            },
        }
    } else {
        match parse_oneof_item(toks, i) {
            Err(e) => Err(e),
            Ok((f, j)) => {
                let mut a = acc;
                push_onto(&mut a.fields, f);
                parse_oneof_items(toks, j, a)
            },
        }
    }
}

/// A one-of group: `oneof name { ... }`, starting at the `oneof`
/// keyword.
pub open spec fn sp_parse_oneof(ts: Seq<SpecToken>, i: int) -> Result<(SpecOneOfField, int), SpecError> {
    if !(0 <= i && i < ts.len() && is_kw(ts[i], "oneof"@)) {
        Err(SpecError::UnexpectedToken { at: i })
    } else {
        match sp_parse_plain_ident(ts, i + 1) {
            Err(e) => Err(e),
            Ok((name, j)) => if !(0 <= j && j < ts.len() && is_p(ts[j], '{')) {
                Err(SpecError::UnexpectedToken { at: j })
            } else {
                sp_parse_oneof_items(
                    ts,
                    j + 1,
                    SpecOneOfField {
                        name,
                        fields: Seq::empty(),
                        options: Seq::empty(),
                        comments: Seq::empty(),
                    },
                )
            },
        }
    }
}

pub fn parse_oneof(toks: &Vec<Token>, i: usize) -> (r: Result<(OneOfField, usize), Error>)
    requires
        i <= toks@.len(),
    ensures
        agrees(r, sp_parse_oneof(toks.deep_view(), i as int), |v: OneOfField| v@),
        r matches Ok((v, j)) ==> i < j <= toks@.len(),
{
    if !(i < toks.len() && token_is_kw(&toks[i], "oneof")) {
        return Err(Error::UnexpectedToken { at: i });
    }
    match parse_plain_ident(toks, i + 1) {
        Err(e) => Err(e),
        Ok((name, j)) => if !(j < toks.len() && token_is_p(&toks[j], '{')) {
            Err(Error::UnexpectedToken { at: j })
        } else {
            let acc = OneOfField {
                name,
                fields: Vec::new(),
                options: Vec::new(),
                comments: Vec::new(),
            };
            proof {
                assert(acc.fields.deep_view() =~= Seq::<SpecOneOfFieldItem>::empty());
                assert(acc.options.deep_view() =~= Seq::<SpecProtoOption>::empty());
                assert(acc.comments.deep_view() =~= Seq::<Seq<char>>::empty());
            }
            parse_oneof_items(toks, j + 1, acc)
        },
    }
}

// ---------------------------------------------------------------------
// Enum declarations
// ---------------------------------------------------------------------
/// The body of an enum after its opening brace: values, options,
/// reserved declarations and comments, closed by `}`.
pub open spec fn sp_parse_enum_items(ts: Seq<SpecToken>, i: int, acc: SpecEnum) -> Result<
    (SpecEnum, int),
    SpecError,
>
    decreases ts.len() - i,
{
    if !(0 <= i && i < ts.len()) {
        Err(SpecError::UnexpectedToken { at: i })
    } else if is_p(ts[i], '}') {
        Ok((acc, i + 1))
    } else if is_p(ts[i], ';') {
        sp_parse_enum_items(ts, i + 1, acc)
    } else {
        match ts[i] {
            SpecToken::Comment(c) => sp_parse_enum_items(
                ts,
                i + 1,
                SpecEnum { comments: acc.comments.push(c), ..acc },
            ),
            _ => if is_kw(ts[i], "option"@) {
                match sp_parse_option_decl(ts, i) {
                    Err(e) => Err(e),
                    Ok((o, j)) => if i < j && j <= ts.len() {
                        sp_parse_enum_items(
                            ts,
                            j,
                            SpecEnum { options: acc.options.push(o), ..acc },
                        )
                    } else {
                        Err(SpecError::UnexpectedToken { at: i })
                    },
                }
            } else if is_kw(ts[i], "reserved"@) {
                match sp_parse_reserved(ts, i) {
                    Err(e) => Err(e),
                    Ok((rv, j)) => if i < j && j <= ts.len() {
                        sp_parse_enum_items(
                            ts,
                            j,
                            SpecEnum { reserved: acc.reserved.push(rv), ..acc },
                        )
                    } else {
                        Err(SpecError::UnexpectedToken { at: i })
                    },
                }
            } else {
                match sp_parse_enum_field(ts, i) {
                    Err(e) => Err(e),
                    Ok((f, j)) => if i < j && j <= ts.len() {
                        sp_parse_enum_items(
                            ts,
                            j,
                            SpecEnum { fields: acc.fields.push(f), ..acc },
                        )
                    } else {
                        Err(SpecError::UnexpectedToken { at: i })
                    },
                }
            },
        }
    }
}

#[verifier::rlimit(60)]
#[verifier::spinoff_prover]
pub fn parse_enum_items(toks: &Vec<Token>, i: usize, acc: Enum) -> (r: Result<
    (Enum, usize),
    Error,
>)
    requires
        i <= toks@.len(),
    ensures
        agrees(r, sp_parse_enum_items(toks.deep_view(), i as int, acc@), |v: Enum| v@),
        r matches Ok((v, j)) ==> i < j <= toks@.len(),
    decreases toks@.len() - i,
{
    if !(i < toks.len()) {
        return Err(Error::UnexpectedToken { at: i });
    }
    if token_is_p(&toks[i], '}') {
        return Ok((acc, i + 1));
    }
    if token_is_p(&toks[i], ';') {
        return parse_enum_items(toks, i + 1, acc);
    }
    let is_comment = match &toks[i] {
        Token::Comment(_) => true,
        _ => false,
    };
    if is_comment {
        let mut a = acc;
        match &toks[i] {
            Token::Comment(c) => {
                push_onto(&mut a.comments, Comment::new(c.clone()));
            },
            _ => (),
        }
        return parse_enum_items(toks, i + 1, a);
    }
    if token_is_kw(&toks[i], "option") {
        match parse_option_decl(toks, i) {
            Err(e) => Err(e),
            Ok((o, j)) => {
                let mut a = acc;
                push_onto(&mut a.options, o);
                parse_enum_items(toks, j, a)
            },
        }
    } else if token_is_kw(&toks[i], "reserved") {
        match parse_reserved(toks, i) {
            Err(e) => Err(e),
            Ok((rv, j)) => {
                let mut a = acc;
                push_onto(&mut a.reserved, rv);
                parse_enum_items(toks, j, a)
            },
        }
    } else {
        match parse_enum_field(toks, i) {
            Err(e) => Err(e),
            Ok((f, j)) => {
                let mut a = acc;
                push_onto(&mut a.fields, f);
                parse_enum_items(toks, j, a)
            },
        }
    }
}

/// An enum declaration: `enum name { ... }`, starting at the `enum`
/// keyword.
pub open spec fn sp_parse_enum(ts: Seq<SpecToken>, i: int) -> Result<(SpecEnum, int), SpecError> {
    if !(0 <= i && i < ts.len() && is_kw(ts[i], "enum"@)) {
        Err(SpecError::UnexpectedToken { at: i })
    } else {
        match sp_parse_plain_ident(ts, i + 1) {
            Err(e) => Err(e),
            Ok((name, j)) => if !(0 <= j && j < ts.len() && is_p(ts[j], '{')) {
                Err(SpecError::UnexpectedToken { at: j })
            } else {
                sp_parse_enum_items(
                    ts,
                    j + 1,
                    SpecEnum {
                        name,
                        fields: Seq::empty(),
                        reserved: Seq::empty(),
                        options: Seq::empty(),
                        comments: Seq::empty(),
                    },
                )
            },
        }
    }
}

pub fn parse_enum(toks: &Vec<Token>, i: usize) -> (r: Result<(Enum, usize), Error>)
    requires
        i <= toks@.len(),
    ensures
        agrees(r, sp_parse_enum(toks.deep_view(), i as int), |v: Enum| v@),
        r matches Ok((v, j)) ==> i < j <= toks@.len(),
{
    if !(i < toks.len() && token_is_kw(&toks[i], "enum")) {
        return Err(Error::UnexpectedToken { at: i });
    }
    match parse_plain_ident(toks, i + 1) {
        Err(e) => Err(e),
        Ok((name, j)) => if !(j < toks.len() && token_is_p(&toks[j], '{')) {
            Err(Error::UnexpectedToken { at: j })
        } else {
            let acc = Enum {
                name,
                fields: Vec::new(),
                reserved: Vec::new(),
                options: Vec::new(),
                comments: Vec::new(),
            };
            proof {
                assert(acc.fields.deep_view() =~= Seq::<SpecEnumItem>::empty());
                assert(acc.reserved.deep_view() =~= Seq::<SpecReservedItems>::empty());
                assert(acc.options.deep_view() =~= Seq::<SpecProtoOption>::empty());
                assert(acc.comments.deep_view() =~= Seq::<Seq<char>>::empty());
            }
            parse_enum_items(toks, j + 1, acc)
        },
    }
}

// ---------------------------------------------------------------------
// Messages
// ---------------------------------------------------------------------
/// A message declaration: `message name { ... }`, starting at the
/// `message` keyword.  Nested messages make this mutually recursive
/// with the body walk.
pub open spec fn sp_parse_message(ts: Seq<SpecToken>, i: int) -> Result<(SpecMessage, int), SpecError>
    decreases ts.len() - i, 0int,
{
    if !(0 <= i && i < ts.len() && is_kw(ts[i], "message"@)) {
        Err(SpecError::UnexpectedToken { at: i })
    } else {
        match sp_parse_plain_ident(ts, i + 1) {
            Err(e) => Err(e),
            Ok((name, j)) => if !(0 <= j && j < ts.len() && is_p(ts[j], '{')) {
                Err(SpecError::UnexpectedToken { at: j })
            } else if !(i < j + 1 && j + 1 <= ts.len()) {
                Err(SpecError::UnexpectedToken { at: j })
            } else {
                let b0 = SpecMessageBuilder {
                    name: Some(name),
                    ..sp_message_builder_empty()
                };
                match sp_parse_msg_items(ts, j + 1, b0) {
                    Err(e) => Err(e),
                    Ok((b2, k)) => match sp_build_message(b2) {
                        Ok(m) => Ok((m, k)),
                        Err(e) => Err(e),
                    },
                }
            },
        }
    }
}

/// The body of a message after its opening brace: fields, one-of
/// groups, map fields, nested messages and enums, options, reserved
/// declarations and comments, closed by `}`.
pub open spec fn sp_parse_msg_items(ts: Seq<SpecToken>, i: int, b: SpecMessageBuilder) -> Result<
    (SpecMessageBuilder, int),
    SpecError,
>
    decreases ts.len() - i, 1int,
{
    if !(0 <= i && i < ts.len()) {
        Err(SpecError::UnexpectedToken { at: i })
    } else if is_p(ts[i], '}') {
        Ok((b, i + 1))
    } else if is_p(ts[i], ';') {
        sp_parse_msg_items(ts, i + 1, b)
    } else {
        match ts[i] {
            SpecToken::Comment(c) => sp_parse_msg_items(
                ts,
                i + 1,
                SpecMessageBuilder { comments: b.comments.push(c), ..b },
            ),
            _ => if is_kw(ts[i], "option"@) {
                match sp_parse_option_decl(ts, i) {
                    Err(e) => Err(e),
                    Ok((o, j)) => if i < j && j <= ts.len() {
                        sp_parse_msg_items(
                            ts,
                            j,
                            SpecMessageBuilder { options: b.options.push(o), ..b },
                        )
                    } else {
                        // declarations always advance; this keeps the
                        // recursion well-founded
                        Err(SpecError::UnexpectedToken { at: i })
                    },
                }
            } else if is_kw(ts[i], "message"@) {
                match sp_parse_message(ts, i) {
                    Err(e) => Err(e),
                    Ok((m, j)) => if i < j && j <= ts.len() {
                        sp_parse_msg_items(
                            ts,
                            j,
                            SpecMessageBuilder { messages: b.messages.push(m), ..b },
                        )
                    } else {
                        Err(SpecError::UnexpectedToken { at: i })
                    },
                }
            } else if is_kw(ts[i], "enum"@) {
                match sp_parse_enum(ts, i) {
                    Err(e) => Err(e),
                    Ok((en, j)) => if i < j && j <= ts.len() {
                        sp_parse_msg_items(
                            ts,
                            j,
                            SpecMessageBuilder { enums: b.enums.push(en), ..b },
                        )
                    } else {
                        Err(SpecError::UnexpectedToken { at: i })
                    },
                }
            } else if is_kw(ts[i], "reserved"@) {
                match sp_parse_reserved(ts, i) {
                    Err(e) => Err(e),
                    Ok((rv, j)) => if i < j && j <= ts.len() {
                        sp_parse_msg_items(
                            ts,
                            j,
                            SpecMessageBuilder { reserved: b.reserved.push(rv), ..b },
                        )
                    } else {
                        Err(SpecError::UnexpectedToken { at: i })
                    },
                }
            } else if is_kw(ts[i], "oneof"@) {
                match sp_parse_oneof(ts, i) {
                    Err(e) => Err(e),
                    Ok((f, j)) => if i < j && j <= ts.len() {
                        sp_parse_msg_items(
                            ts,
                            j,
                            SpecMessageBuilder {
                                fields: b.fields.push(SpecField::OneOf(f)),
                                ..b
                            },
                        )
                    } else {
                        Err(SpecError::UnexpectedToken { at: i })
                    },
                }
            } else if is_kw(ts[i], "map"@) {
                match sp_parse_map_field(ts, i) {
                    Err(e) => Err(e),
                    Ok((f, j)) => if i < j && j <= ts.len() {
                        sp_parse_msg_items(
                            ts,
                            j,
                            SpecMessageBuilder {
                                fields: b.fields.push(SpecField::Mapping(f)),
                                ..b
                            },
                        )
                    } else {
                        Err(SpecError::UnexpectedToken { at: i })
                    },
                }
            } else {
                match sp_parse_normal_field(ts, i, false, false) {
                    Err(e) => Err(e),
                    Ok((f, j)) => if i < j && j <= ts.len() {
                        sp_parse_msg_items(
                            ts,
                            j,
                            SpecMessageBuilder {
                                fields: b.fields.push(SpecField::Normal(f)),
                                ..b
                            },
                        )
                    } else {
                        Err(SpecError::UnexpectedToken { at: i })
                    },
                }
            },
        }
    }
}

pub fn parse_message(toks: &Vec<Token>, i: usize) -> (r: Result<(Message, usize), Error>)
    requires
        i <= toks@.len(),
    ensures
        agrees(r, sp_parse_message(toks.deep_view(), i as int), |v: Message| v@),
        r matches Ok((v, j)) ==> i < j <= toks@.len(),
    decreases toks@.len() - i, 0int,
{
    if !(i < toks.len() && token_is_kw(&toks[i], "message")) {
        return Err(Error::UnexpectedToken { at: i });
    }
    match parse_plain_ident(toks, i + 1) {
        Err(e) => Err(e),
        Ok((name, j)) => if !(j < toks.len() && token_is_p(&toks[j], '{')) {
            Err(Error::UnexpectedToken { at: j })
        } else {
            let mut b = MessageBuilder::new();
            b.set_name(name);
            match parse_msg_items(toks, j + 1, b) {
                Err(e) => Err(e),
                Ok((b2, k)) => match b2.build() {
                    Ok(m) => Ok((m, k)),
                    Err(e) => Err(e),
                },
            }
        },
    }
}

#[verifier::rlimit(100)]
#[verifier::spinoff_prover]
pub fn parse_msg_items(toks: &Vec<Token>, i: usize, b: MessageBuilder) -> (r: Result<
    (MessageBuilder, usize),
    Error,
>)
    requires
        i <= toks@.len(),
    ensures
        agrees(
            r,
            sp_parse_msg_items(toks.deep_view(), i as int, b@),
            |v: MessageBuilder| v@,
        ),
        r matches Ok((v, j)) ==> i < j <= toks@.len(),
    decreases toks@.len() - i, 1int,
{
    if !(i < toks.len()) {
        return Err(Error::UnexpectedToken { at: i });
    }
    if token_is_p(&toks[i], '}') {
        return Ok((b, i + 1));
    }
    if token_is_p(&toks[i], ';') {
        return parse_msg_items(toks, i + 1, b);
    }
    let is_comment = match &toks[i] {
        Token::Comment(_) => true,
        _ => false,
    };
    if is_comment {
        let mut a = b;
        match &toks[i] {
            Token::Comment(c) => {
                a.with_comment(Comment::new(c.clone()));
            },
            _ => (),
        }
        return parse_msg_items(toks, i + 1, a);
    }
    if token_is_kw(&toks[i], "option") {
        match parse_option_decl(toks, i) {
            Err(e) => Err(e),
            Ok((o, j)) => {
                let mut a = b;
                a.with_option(o);
                parse_msg_items(toks, j, a)
            },
        }
    } else if token_is_kw(&toks[i], "message") {
        match parse_message(toks, i) {
            Err(e) => Err(e),
            Ok((m, j)) => {
                let mut a = b;
                a.with_message(m);
                parse_msg_items(toks, j, a)
            },
        }
    } else if token_is_kw(&toks[i], "enum") {
        match parse_enum(toks, i) {
            Err(e) => Err(e),
            Ok((en, j)) => {
                let mut a = b;
                a.with_enum(en);
                parse_msg_items(toks, j, a)
            },
        }
    } else if token_is_kw(&toks[i], "reserved") {
        match parse_reserved(toks, i) {
            Err(e) => Err(e),
            Ok((rv, j)) => {
                let mut a = b;
                a.with_reserved(rv);
                parse_msg_items(toks, j, a)
            },
        }
    } else if token_is_kw(&toks[i], "oneof") {
        match parse_oneof(toks, i) {
            Err(e) => Err(e),
            Ok((f, j)) => {
                let mut a = b;
                a.with_field(Field::OneOf(f));
                parse_msg_items(toks, j, a)
            },
        }
    } else if token_is_kw(&toks[i], "map") {
        match parse_map_field(toks, i) {
            Err(e) => Err(e),
            Ok((f, j)) => {
                let mut a = b;
                a.with_field(Field::Mapping(f));
                parse_msg_items(toks, j, a)
            },
        }
    } else {
        match parse_normal_field(toks, i, false, false) {
            Err(e) => Err(e),
            Ok((f, j)) => {
                let mut a = b;
                a.with_field(Field::Normal(f));
                parse_msg_items(toks, j, a)
            },
        }
    }
}

// ---------------------------------------------------------------------
// Services
// ---------------------------------------------------------------------
/// An rpc input or output: `( [stream] MessageType )`.
pub open spec fn sp_parse_rpc_field(ts: Seq<SpecToken>, i: int) -> Result<
    (SpecServiceRpcField, int),
    SpecError,
> {
    if !(0 <= i && i < ts.len() && is_p(ts[i], '(')) {
        Err(SpecError::UnexpectedToken { at: i })
    } else {
        let stream = i + 1 < ts.len() && is_kw(ts[i + 1], "stream"@);
        let j = if stream {
            i + 2
        } else {
            i + 1
        };
        if !(j + 1 < ts.len()) {
            Err(SpecError::UnexpectedToken { at: j })
        } else {
            match ts[j] {
                SpecToken::Word { relative, dotted, text } => if is_p(ts[j + 1], ')') {
                    Ok(
                        (
                            SpecServiceRpcField {
                                value: sp_ref_name(relative, text),
                                stream,
                            },
                            j + 2,
                        ),
                    )
                } else {
                    Err(SpecError::UnexpectedToken { at: j + 1 })
                },
                _ => Err(SpecError::UnexpectedToken { at: j }),
            }
        }
    }
}

pub fn parse_rpc_field(toks: &Vec<Token>, i: usize) -> (r: Result<(ServiceRpcField, usize), Error>)
    requires
        i <= toks@.len(),
    ensures
        agrees(r, sp_parse_rpc_field(toks.deep_view(), i as int), |v: ServiceRpcField| v@),
        r matches Ok((v, j)) ==> i < j <= toks@.len(),
{
    if !(i < toks.len() && token_is_p(&toks[i], '(')) {
        return Err(Error::UnexpectedToken { at: i });
    }
    let stream = toks.len() - i > 1 && token_is_kw(&toks[i + 1], "stream");
    let j = if stream {
        i + 2
    } else {
        i + 1
    };
    if !(toks.len() - j > 1) {
        return Err(Error::UnexpectedToken { at: j });
    }
    match &toks[j] {
        Token::Word { relative, dotted: _, text } => if token_is_p(&toks[j + 1], ')') {
            let mut b = ServiceRpcFieldBuilder::new();
            b.set_value(MessageReference::new(ref_name(*relative, text)));
            b.set_stream(stream);
            match b.build() {
                Ok(f) => Ok((f, j + 2)),
                Err(e) => {
                    proof {
                        assert(false);
                    }
                    Err(e)
                },
            }
        } else {
            Err(Error::UnexpectedToken { at: j + 1 })
        },
        _ => Err(Error::UnexpectedToken { at: j }),
    }
}

/// The optional body of an rpc after its opening brace: options and
/// comments, closed by `}`.
pub open spec fn sp_parse_rpc_items(
    ts: Seq<SpecToken>,
    i: int,
    opts: Seq<SpecProtoOption>,
    cms: Seq<Seq<char>>,
) -> Result<((Seq<SpecProtoOption>, Seq<Seq<char>>), int), SpecError>
    decreases ts.len() - i,
{
    if !(0 <= i && i < ts.len()) {
        Err(SpecError::UnexpectedToken { at: i })
    } else if is_p(ts[i], '}') {
        Ok(((opts, cms), i + 1))
    } else if is_p(ts[i], ';') {
        sp_parse_rpc_items(ts, i + 1, opts, cms)
    } else {
        match ts[i] {
            SpecToken::Comment(c) => sp_parse_rpc_items(ts, i + 1, opts, cms.push(c)),
            _ => if is_kw(ts[i], "option"@) {
                match sp_parse_option_decl(ts, i) {
                    Err(e) => Err(e),
                    Ok((o, j)) => if i < j && j <= ts.len() {
                        sp_parse_rpc_items(ts, j, opts.push(o), cms)
                    } else {
                        // declarations always advance; this keeps the
                        // recursion well-founded
                        Err(SpecError::UnexpectedToken { at: i })
                    },
                }
            } else {
                Err(SpecError::UnexpectedToken { at: i })
            },
        }
    }
}

pub fn parse_rpc_items(toks: &Vec<Token>, i: usize, opts: Vec<ProtoOption>, cms: Vec<Comment>) -> (r: Result<
    ((Vec<ProtoOption>, Vec<Comment>), usize),
    Error,
>)
    requires
        i <= toks@.len(),
    ensures
        agrees(
            r,
            sp_parse_rpc_items(toks.deep_view(), i as int, opts.deep_view(), cms.deep_view()),
            |v: (Vec<ProtoOption>, Vec<Comment>)| (v.0.deep_view(), v.1.deep_view()),
        ),
        r matches Ok((v, j)) ==> i < j <= toks@.len(),
    decreases toks@.len() - i,
{
    if !(i < toks.len()) {
        return Err(Error::UnexpectedToken { at: i });
    }
    if token_is_p(&toks[i], '}') {
        return Ok(((opts, cms), i + 1));
    }
    if token_is_p(&toks[i], ';') {
        return parse_rpc_items(toks, i + 1, opts, cms);
    }
    let is_comment = match &toks[i] {
        Token::Comment(_) => true,
        _ => false,
    };
    if is_comment {
        let mut c2 = cms;
        match &toks[i] {
            Token::Comment(c) => {
                push_onto(&mut c2, Comment::new(c.clone()));
            },
            _ => (),
        }
        return parse_rpc_items(toks, i + 1, opts, c2);
    }
    if token_is_kw(&toks[i], "option") {
        match parse_option_decl(toks, i) {
            Err(e) => Err(e),
            Ok((o, j)) => {
                let mut o2 = opts;
                push_onto(&mut o2, o);
                parse_rpc_items(toks, j, o2, cms)
            },
        }
    } else {
        Err(Error::UnexpectedToken { at: i })
    }
}

/// One rpc of a service: `rpc Name (In) returns (Out)` followed by a
/// semicolon or an option body.
pub open spec fn sp_parse_rpc(ts: Seq<SpecToken>, i: int) -> Result<(SpecServiceRpc, int), SpecError> {
    if !(0 <= i && i < ts.len() && is_kw(ts[i], "rpc"@)) {
        Err(SpecError::UnexpectedToken { at: i })
    } else {
        match sp_parse_plain_ident(ts, i + 1) {
            Err(e) => Err(e),
            Ok((name, j)) => match sp_parse_rpc_field(ts, j) {
                Err(e) => Err(e),
                Ok((input, k)) => if !(0 <= k && k < ts.len() && is_kw(ts[k], "returns"@)) {
                    Err(SpecError::UnexpectedToken { at: k })
                } else {
                    match sp_parse_rpc_field(ts, k + 1) {
                        Err(e) => Err(e),
                        Ok((output, l)) => if 0 <= l && l < ts.len() && is_p(ts[l], ';') {
                            Ok(
                                (
                                    SpecServiceRpc {
                                        name,
                                        input,
                                        output,
                                        options: Seq::empty(),
                                        comments: Seq::empty(),
                                    },
                                    l + 1,
                                ),
                            )
                        } else if 0 <= l && l < ts.len() && is_p(ts[l], '{') {
                            match sp_parse_rpc_items(ts, l + 1, Seq::empty(), Seq::empty()) {
                                Err(e) => Err(e),
                                Ok(((opts, cms), m)) => Ok(
                                    (
                                        SpecServiceRpc {
                                            name,
                                            input,
                                            output,
                                            options: opts,
                                            comments: cms,
                                        },
                                        m,
                                    ),
                                ),
                            }
                        } else {
                            Err(SpecError::UnexpectedToken { at: l })
                        },
                    }
                },
            },
        }
    }
}

#[verifier::rlimit(60)]
#[verifier::spinoff_prover]
pub fn parse_rpc(toks: &Vec<Token>, i: usize) -> (r: Result<(ServiceRpc, usize), Error>)
    requires
        i <= toks@.len(),
    ensures
        agrees(r, sp_parse_rpc(toks.deep_view(), i as int), |v: ServiceRpc| v@),
        r matches Ok((v, j)) ==> i < j <= toks@.len(),
{
    if !(i < toks.len() && token_is_kw(&toks[i], "rpc")) {
        return Err(Error::UnexpectedToken { at: i });
    }
    match parse_plain_ident(toks, i + 1) {
        Err(e) => Err(e),
        Ok((name, j)) => match parse_rpc_field(toks, j) {
            Err(e) => Err(e),
            Ok((input, k)) => if !(k < toks.len() && token_is_kw(&toks[k], "returns")) {
                Err(Error::UnexpectedToken { at: k })
            } else {
                match parse_rpc_field(toks, k + 1) {
                    Err(e) => Err(e),
                    Ok((output, l)) => if l < toks.len() && token_is_p(&toks[l], ';') {
                        let mut b = ServiceRpcBuilder::new();
                        b.set_name(name);
                        b.set_input(input);
                        b.set_output(output);
                        match b.build() {
                            Ok(rpc) => Ok((rpc, l + 1)),
                            Err(e) => {
                                proof {
                                    assert(false);
                                }
                                Err(e)
                            },
                        }
                    } else if l < toks.len() && token_is_p(&toks[l], '{') {
                        let empty_o: Vec<ProtoOption> = Vec::new();
                        let empty_c: Vec<Comment> = Vec::new();
                        proof {
                            assert(empty_o.deep_view() =~= Seq::<SpecProtoOption>::empty());
                            assert(empty_c.deep_view() =~= Seq::<Seq<char>>::empty());
                        }
                        match parse_rpc_items(toks, l + 1, empty_o, empty_c) {
                            Err(e) => Err(e),
                            Ok(((opts, cms), m)) => {
                                let mut b = ServiceRpcBuilder::new();
                                b.set_name(name);
                                b.set_input(input);
                                b.set_output(output);
                                b.options = opts;
                                b.comments = cms;
                                match b.build() {
                                    Ok(rpc) => Ok((rpc, m)),
                                    Err(e) => {
                                        proof {
                                            assert(false);
                                        }
                                        Err(e)
                                    },
                                }
                            },
                        }
                    } else {
                        Err(Error::UnexpectedToken { at: l })
                    },
                }
            },
        },
    }
}

/// The body of a service after its opening brace: rpcs, options and
/// comments, closed by `}`.
pub open spec fn sp_parse_service_items(ts: Seq<SpecToken>, i: int, acc: SpecService) -> Result<
    (SpecService, int),
    SpecError,
>
    decreases ts.len() - i,
{
    if !(0 <= i && i < ts.len()) {
        Err(SpecError::UnexpectedToken { at: i })
    } else if is_p(ts[i], '}') {
        Ok((acc, i + 1))
    } else if is_p(ts[i], ';') {
        sp_parse_service_items(ts, i + 1, acc)
    } else {
        match ts[i] {
            SpecToken::Comment(c) => sp_parse_service_items(
                ts,
                i + 1,
                SpecService { comments: acc.comments.push(c), ..acc },
            ),
            _ => if is_kw(ts[i], "option"@) {
                match sp_parse_option_decl(ts, i) {
                    Err(e) => Err(e),
                    Ok((o, j)) => if i < j && j <= ts.len() {
                        sp_parse_service_items(
                            ts,
                            j,
                            SpecService { options: acc.options.push(o), ..acc },
                        )
                    } else {
                        Err(SpecError::UnexpectedToken { at: i })
                    },
                }
            } else if is_kw(ts[i], "rpc"@) {
                match sp_parse_rpc(ts, i) {
                    Err(e) => Err(e),
                    Ok((rpc, j)) => if i < j && j <= ts.len() {
                        sp_parse_service_items(
                            ts,
                            j,
                            SpecService { rpcs: acc.rpcs.push(rpc), ..acc },
                        )
                    } else {
                        Err(SpecError::UnexpectedToken { at: i })
                    },
                }
            } else {
                Err(SpecError::UnexpectedToken { at: i })
            },
        }
    }
}

#[verifier::rlimit(60)]
#[verifier::spinoff_prover]
pub fn parse_service_items(toks: &Vec<Token>, i: usize, acc: Service) -> (r: Result<
    (Service, usize),
    Error,
>)
    requires
        i <= toks@.len(),
    ensures
        agrees(r, sp_parse_service_items(toks.deep_view(), i as int, acc@), |v: Service| v@),
        r matches Ok((v, j)) ==> i < j <= toks@.len(),
    decreases toks@.len() - i,
{
    if !(i < toks.len()) {
        return Err(Error::UnexpectedToken { at: i });
    }
    if token_is_p(&toks[i], '}') {
        return Ok((acc, i + 1));
    }
    if token_is_p(&toks[i], ';') {
        return parse_service_items(toks, i + 1, acc);
    }
    let is_comment = match &toks[i] {
        Token::Comment(_) => true,
        _ => false,
    };
    if is_comment {
        let mut a = acc;
        match &toks[i] {
            Token::Comment(c) => {
                push_onto(&mut a.comments, Comment::new(c.clone()));
            },
            _ => (),
        }
        return parse_service_items(toks, i + 1, a);
    }
    if token_is_kw(&toks[i], "option") {
        match parse_option_decl(toks, i) {
            Err(e) => Err(e),
            Ok((o, j)) => {
                let mut a = acc;
                push_onto(&mut a.options, o);
                parse_service_items(toks, j, a)
            },
        }
    } else if token_is_kw(&toks[i], "rpc") {
        match parse_rpc(toks, i) {
            Err(e) => Err(e),
            Ok((rpc, j)) => {
                let mut a = acc;
                push_onto(&mut a.rpcs, rpc);
                parse_service_items(toks, j, a)
            },
        }
    } else {
        Err(Error::UnexpectedToken { at: i })
    }
}

/// A service declaration: `service name { ... }`, starting at the
/// `service` keyword.
pub open spec fn sp_parse_service(ts: Seq<SpecToken>, i: int) -> Result<(SpecService, int), SpecError> {
    if !(0 <= i && i < ts.len() && is_kw(ts[i], "service"@)) {
        Err(SpecError::UnexpectedToken { at: i })
    } else {
        match sp_parse_plain_ident(ts, i + 1) {
            Err(e) => Err(e),
            Ok((name, j)) => if !(0 <= j && j < ts.len() && is_p(ts[j], '{')) {
                Err(SpecError::UnexpectedToken { at: j })
            } else {
                sp_parse_service_items(
                    ts,
                    j + 1,
                    SpecService {
                        name,
                        rpcs: Seq::empty(),
                        options: Seq::empty(),
                        comments: Seq::empty(),
                    },
                )
            },
        }
    }
}

pub fn parse_service(toks: &Vec<Token>, i: usize) -> (r: Result<(Service, usize), Error>)
    requires
        i <= toks@.len(),
    ensures
        agrees(r, sp_parse_service(toks.deep_view(), i as int), |v: Service| v@),
        r matches Ok((v, j)) ==> i < j <= toks@.len(),
{
    if !(i < toks.len() && token_is_kw(&toks[i], "service")) {
        return Err(Error::UnexpectedToken { at: i });
    }
    match parse_plain_ident(toks, i + 1) {
        Err(e) => Err(e),
        Ok((name, j)) => if !(j < toks.len() && token_is_p(&toks[j], '{')) {
            Err(Error::UnexpectedToken { at: j })
        } else {
            let acc = Service {
                name,
                rpcs: Vec::new(),
                options: Vec::new(),
                comments: Vec::new(),
            };
            proof {
                assert(acc.rpcs.deep_view() =~= Seq::<SpecServiceRpc>::empty());
                assert(acc.options.deep_view() =~= Seq::<SpecProtoOption>::empty());
                assert(acc.comments.deep_view() =~= Seq::<Seq<char>>::empty());
            }
            parse_service_items(toks, j + 1, acc)
        },
    }
}

// ---------------------------------------------------------------------
// The file level
// ---------------------------------------------------------------------
/// The root value before any declaration has been seen.
pub open spec fn sp_empty_proto() -> SpecProto {
    SpecProto {
        syntax: SpecSyntax { value: Seq::empty(), comments: Seq::empty() },
        package: SpecPackage { value: Seq::empty(), comments: Seq::empty() },
        imports: Seq::empty(),
        options: Seq::empty(),
        messages: Seq::empty(),
        enums: Seq::empty(),
        services: Seq::empty(),
    }
}

pub fn empty_proto() -> (r: Proto)
    ensures
        r@ == sp_empty_proto(),
{
    let r = Proto {
        syntax: Syntax { value: String::new(), comments: Vec::new() },
        package: Package { value: String::new(), comments: Vec::new() },
        imports: Vec::new(),
        options: Vec::new(),
        messages: Vec::new(),
        enums: Vec::new(),
        services: Vec::new(),
    };
    proof {
        assert(r.syntax.comments.deep_view() =~= Seq::<Seq<char>>::empty());
        assert(r.package.comments.deep_view() =~= Seq::<Seq<char>>::empty());
        assert(r.imports.deep_view() =~= Seq::<SpecImport>::empty());
        assert(r.options.deep_view() =~= Seq::<SpecProtoOption>::empty());
        assert(crate::model::spec_messages_view(r.messages@) =~= Seq::<SpecMessage>::empty());
        assert(r.enums.deep_view() =~= Seq::<SpecEnum>::empty());
        assert(r.services.deep_view() =~= Seq::<SpecService>::empty());
    }
    r
}

/// The declarations of a whole file or body: syntax, imports, package,
/// options, messages, enums and services, in any order, up to the end
/// of the token stream.  Stray semicolons are empty statements, and
/// top-level comments are dropped (the root holds no comment list).
pub open spec fn sp_parse_proto_items(ts: Seq<SpecToken>, i: int, acc: SpecProto) -> Result<
    (SpecProto, int),
    SpecError,
>
    decreases ts.len() - i,
{
    if !(0 <= i && i < ts.len()) {
        Ok((acc, i))
    } else if is_p(ts[i], ';') {
        sp_parse_proto_items(ts, i + 1, acc)
    } else {
        match ts[i] {
            SpecToken::Comment(c) => sp_parse_proto_items(ts, i + 1, acc),
            _ => if is_kw(ts[i], "syntax"@) {
                match sp_parse_syntax_decl(ts, i, Seq::empty()) {
                    Err(e) => Err(e),
                    Ok((syn, j)) => if i < j && j <= ts.len() {
                        sp_parse_proto_items(ts, j, SpecProto { syntax: syn, ..acc })
                    } else {
                        // declarations always advance; this keeps the
                        // recursion well-founded
                        Err(SpecError::UnexpectedToken { at: i })
                    },
                }
            } else if is_kw(ts[i], "import"@) {
                match sp_parse_import(ts, i) {
                    Err(e) => Err(e),
                    Ok((im, j)) => if i < j && j <= ts.len() {
                        sp_parse_proto_items(
                            ts,
                            j,
                            SpecProto { imports: acc.imports.push(im), ..acc },
                        )
                    } else {
                        Err(SpecError::UnexpectedToken { at: i })
                    },
                }
            } else if is_kw(ts[i], "package"@) {
                match sp_parse_package(ts, i) {
                    Err(e) => Err(e),
                    Ok((pk, j)) => if i < j && j <= ts.len() {
                        sp_parse_proto_items(ts, j, SpecProto { package: pk, ..acc })
                    } else {
                        Err(SpecError::UnexpectedToken { at: i })
                    },
                }
            } else if is_kw(ts[i], "option"@) {
                match sp_parse_option_decl(ts, i) {
                    Err(e) => Err(e),
                    Ok((o, j)) => if i < j && j <= ts.len() {
                        sp_parse_proto_items(
                            ts,
                            j,
                            SpecProto { options: acc.options.push(o), ..acc },
                        )
                    } else {
                        Err(SpecError::UnexpectedToken { at: i })
                    },
                }
            } else if is_kw(ts[i], "enum"@) {
                match sp_parse_enum(ts, i) {
                    Err(e) => Err(e),
                    Ok((en, j)) => if i < j && j <= ts.len() {
                        sp_parse_proto_items(
                            ts,
                            j,
                            SpecProto { enums: acc.enums.push(en), ..acc },
                        )
                    } else {
                        Err(SpecError::UnexpectedToken { at: i })
                    },
                }
            } else if is_kw(ts[i], "message"@) {
                match sp_parse_message(ts, i) {
                    Err(e) => Err(e),
                    Ok((m, j)) => if i < j && j <= ts.len() {
                        sp_parse_proto_items(
                            ts,
                            j,
                            SpecProto { messages: acc.messages.push(m), ..acc },
                        )
                    } else {
                        Err(SpecError::UnexpectedToken { at: i })
                    },
                }
            } else if is_kw(ts[i], "service"@) {
                match sp_parse_service(ts, i) {
                    Err(e) => Err(e),
                    Ok((sv, j)) => if i < j && j <= ts.len() {
                        sp_parse_proto_items(
                            ts,
                            j,
                            SpecProto { services: acc.services.push(sv), ..acc },
                        )
                    } else {
                        Err(SpecError::UnexpectedToken { at: i })
                    },
                }
            } else {
                Err(SpecError::UnexpectedToken { at: i })
            },
        }
    }
}

#[verifier::rlimit(100)]
#[verifier::spinoff_prover]
pub fn parse_proto_items(toks: &Vec<Token>, i: usize, acc: Proto) -> (r: Result<
    (Proto, usize),
    Error,
>)
    requires
        i <= toks@.len(),
    ensures
        agrees(r, sp_parse_proto_items(toks.deep_view(), i as int, acc@), |v: Proto| v@),
        r matches Ok((v, j)) ==> i <= j <= toks@.len(),
    decreases toks@.len() - i,
{
    if !(i < toks.len()) {
        return Ok((acc, i));
    }
    if token_is_p(&toks[i], ';') {
        return parse_proto_items(toks, i + 1, acc);
    }
    let is_comment = match &toks[i] {
        Token::Comment(_) => true,
        _ => false,
    };
    if is_comment {
        return parse_proto_items(toks, i + 1, acc);
    }
    if token_is_kw(&toks[i], "syntax") {
        match parse_syntax_decl(toks, i, no_comments()) {
            Err(e) => Err(e),
            Ok((syn, j)) => {
                let mut a = acc;
                a.syntax = syn;
                parse_proto_items(toks, j, a)
            },
        }
    } else if token_is_kw(&toks[i], "import") {
        match parse_import(toks, i) {
            Err(e) => Err(e),
            Ok((im, j)) => {
                let mut a = acc;
                push_onto(&mut a.imports, im);
                parse_proto_items(toks, j, a)
            },
        }
    } else if token_is_kw(&toks[i], "package") {
        match parse_package(toks, i) {
            Err(e) => Err(e),
            Ok((pk, j)) => {
                let mut a = acc;
                a.package = pk;
                parse_proto_items(toks, j, a)
            },
        }
    } else if token_is_kw(&toks[i], "option") {
        match parse_option_decl(toks, i) {
            Err(e) => Err(e),
            Ok((o, j)) => {
                let mut a = acc;
                push_onto(&mut a.options, o);
                parse_proto_items(toks, j, a)
            },
        }
    } else if token_is_kw(&toks[i], "enum") {
        match parse_enum(toks, i) {
            Err(e) => Err(e),
            Ok((en, j)) => {
                let mut a = acc;
                push_onto(&mut a.enums, en);
                parse_proto_items(toks, j, a)
            },
        }
    } else if token_is_kw(&toks[i], "message") {
        match parse_message(toks, i) {
            Err(e) => Err(e),
            Ok((m, j)) => {
                let mut a = acc;
                let ghost prev = a.messages@;
                a.messages.push(m);
                proof {
                    assert(a.messages@ =~= prev.push(m));
                    crate::model::lemma_messages_view_push(prev, m);
                }
                parse_proto_items(toks, j, a)
            },
        }
    } else if token_is_kw(&toks[i], "service") {
        match parse_service(toks, i) {
            Err(e) => Err(e),
            Ok((sv, j)) => {
                let mut a = acc;
                push_onto(&mut a.services, sv);
                parse_proto_items(toks, j, a)
            },
        }
    } else {
        Err(Error::UnexpectedToken { at: i })
    }
}

/// What parsing a body (dialect already known) yields for the given
/// text.
pub open spec fn sp_proto3_parse_body(s: Seq<char>) -> Result<SpecProto, SpecError> {
    match crate::tokens::sp_tokenize(s) {
        Err(e) => Err(e),
        Ok(ts) => match sp_parse_proto_items(ts, 0, sp_empty_proto()) {
            Err(e) => Err(e),
            Ok((p, _)) => Ok(p),
        },
    }
}

/// What parsing a whole file yields: the body parse, with the declared
/// dialect checked to be `proto3`.
pub open spec fn sp_proto3_parse(s: Seq<char>) -> Result<SpecProto, SpecError> {
    match sp_proto3_parse_body(s) {
        Err(e) => Err(e),
        Ok(p) => if p.syntax.value == "proto3"@ {
            Ok(p)
        } else {
            Err(SpecError::InvalidSyntax("proto3"@, p.syntax.value))
        },
    }
}

/// The proto3 dialect reducer.
#[derive(Debug, Clone, Copy)]
pub struct Proto3;

impl Proto3 {
    /// The dialect name this reducer answers to.
    pub fn syntax(&self) -> (r: &'static str)
        ensures
            r@ == "proto3"@,
    {
        proof {
            reveal_strlit("proto3");
        }
        "proto3"
    }

    /// Parses a body whose dialect was already established by the
    /// caller; a syntax declaration in the body is allowed and
    /// recorded, not re-checked.
    pub fn parse_body(&self, data: &str) -> (r: Result<Proto, Error>)
        ensures
            match (r, sp_proto3_parse_body(data@)) {
                (Ok(p), Ok(sp)) => p@ == sp,
                (Err(e), Err(se)) => e@ == se,
                _ => false,
            },
    {
        let cs = crate::text::to_chars(data);
        match crate::tokens::tokenize(&cs) {
            Err(e) => Err(e),
            Ok(toks) => match parse_proto_items(&toks, 0, empty_proto()) {
                Err(e) => Err(e),
                Ok((p, _)) => Ok(p),
            },
        }
    }

    /// Parses a whole file, requiring it to declare the `proto3`
    /// dialect.
    pub fn parse(&self, input: &str) -> (r: Result<Proto, Error>)
        ensures
            match (r, sp_proto3_parse(input@)) {
                (Ok(p), Ok(sp)) => p@ == sp,
                (Err(e), Err(se)) => e@ == se,
                _ => false,
            },
    {
        match self.parse_body(input) {
            Err(e) => Err(e),
            Ok(p) => {
                proof {
                    reveal_strlit("proto3");
                }
                if str_eq(p.syntax.value.as_str(), "proto3") {
                    Ok(p)
                } else {
                    let found = p.syntax.value.clone();
                    Err(Error::InvalidSyntax(String::from_str("proto3"), found))
                }
            },
        }
    }
}

} // verus!
