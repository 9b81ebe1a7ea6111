//! A verified parser for protocol-buffer style interface definition
//! files.  The input text is tokenized, dispatched by its declared
//! dialect, and reduced to an immutable abstract syntax tree; every
//! stage is specified by a mathematical model of the same parse, so
//! the result of a parse is pinned down completely by its input.

pub mod builder;
pub mod error;
pub mod header;
pub mod literals;
pub mod model;
pub mod parser;
pub mod proto3;
pub mod text;
pub mod tokens;
pub mod visitor;

pub use error::Error;
pub use header::parse_header;
pub use parser::{parse, parse_events, parse_visit, parse_with_syntax, resolve_syntax};
pub use proto3::Proto3;
pub use text::CowStr;
pub use tokens::parse_literal_string;
pub use visitor::{Node, ProtoVisitor};
