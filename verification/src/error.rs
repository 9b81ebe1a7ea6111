//! The error taxonomy.  Every error is terminal for the parse call that
//! raised it: the first failure found anywhere aborts the whole parse.
use vstd::prelude::*;

verus! {

/// The node kinds that have required fields.
#[derive(Debug, Clone, Copy, PartialEq, Eq, Structural)]
pub enum NodeKind {
    ProtoOption,
    NormalField,
    OneOfFieldItem,
    MapField,
    ServiceRpc,
    ServiceRpcField,
    Message,
}

/// The required slots a builder can find unset at finalize time.
#[derive(Debug, Clone, Copy, PartialEq, Eq, Structural)]
pub enum RequiredField {
    Name,
    Value,
    Ty,
    KeyTy,
    ValueTy,
    Number,
    Input,
    Output,
}

impl View for RequiredField {
    type V = RequiredField;

    open spec fn view(&self) -> RequiredField {
        *self
    }
}

impl DeepView for RequiredField {
    type V = RequiredField;

    open spec fn deep_view(&self) -> RequiredField {
        *self
    }
}

/// The model of an [`Error`].
pub enum SpecError {
    Syntax { at: int },
    UnexpectedToken { at: int },
    UndefinedParser(Seq<char>),
    InvalidSyntax(Seq<char>, Seq<char>),
    NumericLiteralOverflow,
    InvalidUnicodeEscape,
    MissingRequiredField(NodeKind, Seq<RequiredField>),
}

/// Why a parse failed.
#[derive(Debug, Clone, PartialEq)]
pub enum Error {
    /// The text does not match the grammar; carries the character offset
    /// at which matching failed.
    Syntax { at: usize },
    /// A token that no grammar rule expects at its position; carries the
    /// token's ordinal in the stream.
    UnexpectedToken { at: usize },
    /// The declared dialect name has no registered reducer.
    UndefinedParser(String),
    /// A caller-supplied expected dialect disagrees with the declared one
    /// (expected, found).
    InvalidSyntax(String, String),
    /// An integer literal does not fit the target numeric range.
    NumericLiteralOverflow,
    /// A string escape decoded to a value outside the legal Unicode
    /// scalar range.
    InvalidUnicodeEscape,
    /// A builder was finalized with the named required fields still unset.
    MissingRequiredField(NodeKind, Vec<RequiredField>),
}

impl View for Error {
    type V = SpecError;

    open spec fn view(&self) -> SpecError {
        match self {
            Error::Syntax { at } => SpecError::Syntax { at: *at as int },
            Error::UnexpectedToken { at } => SpecError::UnexpectedToken { at: *at as int },
            Error::UndefinedParser(name) => SpecError::UndefinedParser(name@),
            Error::InvalidSyntax(expected, found) => SpecError::InvalidSyntax(
                expected@,
                found@,
            ),
            Error::NumericLiteralOverflow => SpecError::NumericLiteralOverflow,
            Error::InvalidUnicodeEscape => SpecError::InvalidUnicodeEscape,
            Error::MissingRequiredField(kind, fields) => SpecError::MissingRequiredField(
                *kind,
                fields.deep_view(),
            ),
        }
    }
}

impl DeepView for Error {
    type V = SpecError;

    open spec fn deep_view(&self) -> SpecError {
        self.view()
    }
}

} // verus!
