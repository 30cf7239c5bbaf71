//! A small expression and template language over build metadata.
//!
//! A template such as `"{.crate_info.name} v{.crate_info.version}"` is scanned
//! for holes, each hole is parsed into an expression, the expression is
//! evaluated against a [`BuildInfo`] and the text of the resulting value
//! takes the place of the hole.
//!
//! - [`metadata`] holds the data that expressions speak of.
//! - [`value`] defines the values of the language and their operations,
//!   [`render`] how they are written.
//! - [`syntax`] and [`parse`] define expressions and their grammar.
//! - [`eval`] evaluates expressions, [`interpolate`] fills templates.
//! - [`path`] resolves paths, the reduced form of expressions.
//! - [`laws`] states what holds of all of them together.

pub mod error;
pub mod eval;
pub mod integer;
pub mod interpolate;
pub mod laws;
pub mod metadata;
pub mod parse;
pub mod path;
pub mod render;
pub mod syntax;
pub mod text;
pub mod value;

pub use crate::error::{Error, ErrorKind, Operation, SyntaxError, SyntaxErrorKind, Type};
pub use crate::eval::evaluate_expression;
pub use crate::integer::Integer;
pub use crate::interpolate::interpolate;
pub use crate::metadata::{
    BuildInfo,
    CompilerChannel,
    CompilerInfo,
    crate_version,
    CrateInfo,
    DateTimeUtc,
    epoch_to_utc,
    GitInfo,
    Identifier,
    nanos_to_utc,
    Version,
    VersionControl,
};
pub use crate::path::indexed_string_value;
pub use crate::render::FormatSpecifier;
pub use crate::syntax::{AtomicExpr, Expr, Index, Suffix};
pub use crate::value::Value;
