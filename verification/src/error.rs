//! The ways in which parsing and evaluation fail.
//!
//! Nothing is recovered from: the first failure ends the evaluation of the
//! whole expression or template, and the error says what went wrong.

use crate::text::{decimal, push_decimal};
use vstd::prelude::*;

verus! {

/// The kinds of value, as diagnostics name them.
#[derive(Clone, Copy, Debug, PartialEq, Eq, Structural, Hash)]
pub enum Type {
    Bool,
    Char,
    Integer,
    Str,
    DateTimeUtc,
    Version,
    BuildInfo,
    CrateInfo,
    CompilerInfo,
    CompilerChannel,
    VersionControl,
    GitInfo,
    Optional,
    Sequence,
}

impl Type {
    /// The name of the kind in messages.
    pub open spec fn name(self) -> Seq<char> {
        match self {
            Type::Bool => "bool"@,
            Type::Char => "char"@,
            Type::Integer => "integer"@,
            Type::Str => "String"@,
            Type::DateTimeUtc => "DateTime<Utc>"@,
            Type::Version => "Version"@,
            Type::BuildInfo => "build_info::BuildInfo"@,
            Type::CrateInfo => "build_info::CrateInfo"@,
            Type::CompilerInfo => "build_info::CompilerInfo"@,
            Type::CompilerChannel => "build_info::CompilerChannel"@,
            Type::VersionControl => "build_info::VersionControl"@,
            Type::GitInfo => "build_info::GitInfo"@,
            Type::Optional => "Option<T>"@,
            Type::Sequence => "Vec<T>"@,
        }
    }

    /// Appends the name of the kind.
    pub fn push_to(&self, buffer: &mut String)
        ensures
            final(buffer)@ == old(buffer)@ + self.name(),
    {
        match self {
            Type::Bool => buffer.append("bool"),
            Type::Char => buffer.append("char"),
            Type::Integer => buffer.append("integer"),
            Type::Str => buffer.append("String"),
            Type::DateTimeUtc => buffer.append("DateTime<Utc>"),
            Type::Version => buffer.append("Version"),
            Type::BuildInfo => buffer.append("build_info::BuildInfo"),
            Type::CrateInfo => buffer.append("build_info::CrateInfo"),
            Type::CompilerInfo => buffer.append("build_info::CompilerInfo"),
            Type::CompilerChannel => buffer.append("build_info::CompilerChannel"),
            Type::VersionControl => buffer.append("build_info::VersionControl"),
            Type::GitInfo => buffer.append("build_info::GitInfo"),
            Type::Optional => buffer.append("Option<T>"),
            Type::Sequence => buffer.append("Vec<T>"),
        }
    }
}

/// What is wrong with the text of an expression or template.
#[derive(Clone, Copy, Debug, PartialEq, Eq, Structural, Hash)]
pub enum SyntaxErrorKind {
    /// A character that the grammar does not allow where it stands.
    UnexpectedCharacter(char),
    /// The text ends inside an expression: a closing delimiter is missing.
    UnexpectedEnd,
    /// A template's `{` that no `}` closes.
    UnmatchedOpeningBrace,
    /// A template's `}` that closes nothing.
    UnmatchedClosingBrace,
    /// An escape in a character or string literal that names no character.
    InvalidEscape,
    /// A tuple index that no machine word holds.
    IndexTooLarge,
}

/// A syntax error and the index of the character at which it was found.
#[derive(Clone, Copy, Debug, PartialEq, Eq, Structural, Hash)]
pub struct SyntaxError {
    pub kind: SyntaxErrorKind,
    pub position: usize,
}

impl SyntaxError {
    /// The text of the error: what is wrong, and where.
    pub open spec fn message(self) -> Seq<char> {
        (match self.kind {
            SyntaxErrorKind::UnexpectedCharacter(c) => "Unexpected character '"@ + seq![c] + "'"@,
            SyntaxErrorKind::UnexpectedEnd => "Unexpected end of the expression"@,
            SyntaxErrorKind::UnmatchedOpeningBrace => 
                "Format string has an opening brace without a matching closing brace"@,
            SyntaxErrorKind::UnmatchedClosingBrace => 
                "Format string has a closing brace without a matching opening brace"@,
            SyntaxErrorKind::InvalidEscape => "Invalid escape in a literal"@,
            SyntaxErrorKind::IndexTooLarge => "Tuple index is too large"@,
        }) + " at position "@ + decimal(self.position as nat)
    }

    /// Appends the text of the error.
    pub fn push_to(&self, buffer: &mut String)
        ensures
            final(buffer)@ == old(buffer)@ + self.message(),
    {
        match self.kind {
            SyntaxErrorKind::UnexpectedCharacter(c) => {
                buffer.append("Unexpected character '");
                buffer.push(c);
                buffer.append("'");
            },
            SyntaxErrorKind::UnexpectedEnd => buffer.append("Unexpected end of the expression"),
            SyntaxErrorKind::UnmatchedOpeningBrace => buffer.append(
                "Format string has an opening brace without a matching closing brace",
            ),
            SyntaxErrorKind::UnmatchedClosingBrace => buffer.append(
                "Format string has a closing brace without a matching opening brace",
            ),
            SyntaxErrorKind::InvalidEscape => buffer.append("Invalid escape in a literal"),
            SyntaxErrorKind::IndexTooLarge => buffer.append("Tuple index is too large"),
        }
        buffer.append(" at position ");
        push_decimal(buffer, self.position as u64);
    }
}

/// An operation that a value was asked to perform.
#[derive(Clone, Debug, PartialEq, Eq, Hash)]
pub enum Operation {
    /// `?`
    Unwrap,
    /// `.name`
    Field(String),
    /// `.0`
    TupleIndex,
    /// `[index]`
    ArrayIndex,
    /// `.name(arguments)`, with the dump of the arguments.
    Call { name: String, arguments: String },
}

/// What an [`Operation`] stands for.
pub ghost enum OperationView {
    Unwrap,
    Field(Seq<char>),
    TupleIndex,
    ArrayIndex,
    Call { name: Seq<char>, arguments: Seq<char> },
}

impl View for Operation {
    type V = OperationView;

    open spec fn view(&self) -> OperationView {
        match self {
            Operation::Unwrap => OperationView::Unwrap,
            Operation::Field(name) => OperationView::Field(name@),
            Operation::TupleIndex => OperationView::TupleIndex,
            Operation::ArrayIndex => OperationView::ArrayIndex,
            Operation::Call { name, arguments } => OperationView::Call {
                name: name@,
                arguments: arguments@,
            },
        }
    }
}

/// The four classes of failure.
#[derive(Clone, Copy, Debug, PartialEq, Eq, Structural, Hash)]
pub enum ErrorKind {
    /// The text does not follow the grammar.
    SyntaxError,
    /// A field, call or index that the kind of value does not have.
    UnsupportedOperation,
    /// Arguments that are not what the operation takes.
    TypeMismatch,
    /// `?` on an optional value that is absent.
    UnwrapOnAbsent,
}

/// A failure of parsing or evaluation.
#[derive(Clone, Debug, PartialEq, Eq, Hash)]
pub enum Error {
    Syntax(SyntaxError),
    /// The kind of value does not support the operation.
    UnsupportedOperation { kind: Type, operation: Operation },
    /// No function of that name exists.
    UnknownFunction(String),
    /// No macro of that name exists.
    UnknownMacro(String),
    /// A sequence of `length` elements has no element at the index.
    IndexOutOfRange { length: usize },
    /// The operation takes `expected` arguments and got `found`.
    WrongArgumentCount { expected: usize, found: usize },
    /// Argument number `argument`, counted from one, is of kind `found`
    /// where the operation takes one of kind `expected`.
    TypeMismatch { argument: usize, expected: Type, found: Type },
    UnwrapOnAbsent,
}

/// What an [`Error`] stands for.
pub ghost enum ErrorView {
    Syntax(SyntaxError),
    UnsupportedOperation { kind: Type, operation: OperationView },
    UnknownFunction(Seq<char>),
    UnknownMacro(Seq<char>),
    IndexOutOfRange { length: nat },
    WrongArgumentCount { expected: nat, found: nat },
    TypeMismatch { argument: nat, expected: Type, found: Type },
    UnwrapOnAbsent,
}

impl View for Error {
    type V = ErrorView;

    open spec fn view(&self) -> ErrorView {
        match self {
            Error::Syntax(e) => ErrorView::Syntax(*e),
            Error::UnsupportedOperation { kind, operation } => ErrorView::UnsupportedOperation {
                kind: *kind,
                operation: operation@,
            },
            Error::UnknownFunction(name) => ErrorView::UnknownFunction(name@),
            Error::UnknownMacro(name) => ErrorView::UnknownMacro(name@),
            Error::IndexOutOfRange { length } => ErrorView::IndexOutOfRange { length: *length as nat },
            Error::WrongArgumentCount { expected, found } => ErrorView::WrongArgumentCount {
                expected: *expected as nat,
                found: *found as nat,
            },
            Error::TypeMismatch { argument, expected, found } => ErrorView::TypeMismatch {
                argument: *argument as nat,
                expected: *expected,
                found: *found,
            },
            Error::UnwrapOnAbsent => ErrorView::UnwrapOnAbsent,
        }
    }
}

impl ErrorView {
    /// The class that the failure belongs to.
    pub open spec fn kind(self) -> ErrorKind {
        match self {
            ErrorView::Syntax(_) => ErrorKind::SyntaxError,
            ErrorView::UnsupportedOperation { .. } => ErrorKind::UnsupportedOperation,
            ErrorView::UnknownFunction(_) => ErrorKind::UnsupportedOperation,
            ErrorView::UnknownMacro(_) => ErrorKind::UnsupportedOperation,
            ErrorView::IndexOutOfRange { .. } => ErrorKind::UnsupportedOperation,
            ErrorView::WrongArgumentCount { .. } => ErrorKind::TypeMismatch,
            ErrorView::TypeMismatch { .. } => ErrorKind::TypeMismatch,
            ErrorView::UnwrapOnAbsent => ErrorKind::UnwrapOnAbsent,
        }
    }

    /// The diagnostic text of the failure.
    pub open spec fn message(self) -> Seq<char> {
        match self {
            ErrorView::Syntax(e) => e.message(),
            ErrorView::UnsupportedOperation { kind, operation } => match operation {
                OperationView::Unwrap => "Type "@ + kind.name() + " cannot be unwrapped"@,
                OperationView::Field(name) => "The field "@ + name
                    + " does not exist for objects of type "@ + kind.name(),
                OperationView::TupleIndex => "Type "@ + kind.name() + " cannot be tuple-indexed"@,
                OperationView::ArrayIndex => "Type "@ + kind.name() + " cannot be indexed"@,
                OperationView::Call { name, arguments } => "Function "@ + name
                    + " cannot be called with arguments "@ + arguments + " on objects of type "@
                    + kind.name(),
            },
            ErrorView::UnknownFunction(name) => "The function "@ + name + " does not exist"@,
            ErrorView::UnknownMacro(name) => "The macro "@ + name + " does not exist"@,
            ErrorView::IndexOutOfRange { length } => 
                "The index is out of range for a sequence of length "@ + decimal(length),
            ErrorView::WrongArgumentCount { expected, found } => 
                "Wrong number of arguments (should be "@ + decimal(expected) + ", not "@ + decimal(
                found,
            ) + ")"@,
            ErrorView::TypeMismatch { argument, expected, found } => "Argument #"@ + decimal(
                argument,
            ) + " should have type "@ + expected.name() + ", not "@ + found.name(),
            ErrorView::UnwrapOnAbsent => "Failed to unwrap element"@,
        }
    }
}

impl Error {
    /// The class that the failure belongs to.
    pub fn kind(&self) -> (kind: ErrorKind)
        ensures
            kind == self@.kind(),
    {
        match self {
            Error::Syntax(_) => ErrorKind::SyntaxError,
            Error::UnsupportedOperation { .. } => ErrorKind::UnsupportedOperation,
            Error::UnknownFunction(_) => ErrorKind::UnsupportedOperation,
            Error::UnknownMacro(_) => ErrorKind::UnsupportedOperation,
            Error::IndexOutOfRange { .. } => ErrorKind::UnsupportedOperation,
            Error::WrongArgumentCount { .. } => ErrorKind::TypeMismatch,
            Error::TypeMismatch { .. } => ErrorKind::TypeMismatch,
            Error::UnwrapOnAbsent => ErrorKind::UnwrapOnAbsent,
        }
    }

    /// The diagnostic text of the failure.
    pub fn message(&self) -> (text: String)
        ensures
            text@ == self@.message(),
    {
        let mut text = String::new();
        match self {
            Error::Syntax(e) => e.push_to(&mut text),
            Error::UnsupportedOperation { kind, operation } => match operation {
                Operation::Unwrap => {
                    text.append("Type ");
                    kind.push_to(&mut text);
                    text.append(" cannot be unwrapped");
                },
                Operation::Field(name) => {
                    text.append("The field ");
                    text.append(name.as_str());
                    text.append(" does not exist for objects of type ");
                    kind.push_to(&mut text);
                },
                Operation::TupleIndex => {
                    text.append("Type ");
                    kind.push_to(&mut text);
                    text.append(" cannot be tuple-indexed");
                },
                Operation::ArrayIndex => {
                    text.append("Type ");
                    kind.push_to(&mut text);
                    text.append(" cannot be indexed");
                },
                Operation::Call { name, arguments } => {
                    text.append("Function ");
                    text.append(name.as_str());
                    text.append(" cannot be called with arguments ");
                    text.append(arguments.as_str());
                    text.append(" on objects of type ");
                    kind.push_to(&mut text);
                },
            },
            Error::UnknownFunction(name) => {
                text.append("The function ");
                text.append(name.as_str());
                text.append(" does not exist");
            },
            Error::UnknownMacro(name) => {
                text.append("The macro ");
                text.append(name.as_str());
                text.append(" does not exist");
            },
            Error::IndexOutOfRange { length } => {
                text.append("The index is out of range for a sequence of length ");
                push_decimal(&mut text, *length as u64);
            },
            Error::WrongArgumentCount { expected, found } => {
                text.append("Wrong number of arguments (should be ");
                push_decimal(&mut text, *expected as u64);
                text.append(", not ");
                push_decimal(&mut text, *found as u64);
                text.append(")");
            },
            Error::TypeMismatch { argument, expected, found } => {
                text.append("Argument #");
                push_decimal(&mut text, *argument as u64);
                text.append(" should have type ");
                expected.push_to(&mut text);
                text.append(", not ");
                found.push_to(&mut text);
            },
            Error::UnwrapOnAbsent => text.append("Failed to unwrap element"),
        }
        text
    }
}

} // verus!
