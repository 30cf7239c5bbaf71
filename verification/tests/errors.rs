use build_info_format::{Error, ErrorKind, Operation, SyntaxError, SyntaxErrorKind, Type};

fn syntax_message(kind: SyntaxErrorKind, position: usize) -> String {
    Error::Syntax(SyntaxError { kind, position }).message()
}

fn operation_message(kind: Type, operation: Operation) -> String {
    Error::UnsupportedOperation { kind, operation }.message()
}

#[test]
fn messages_of_syntax_errors() {
    assert_eq!(
        syntax_message(SyntaxErrorKind::UnexpectedCharacter('%'), 12),
        "Unexpected character '%' at position 12"
    );
    assert_eq!(
        syntax_message(SyntaxErrorKind::UnexpectedEnd, 0),
        "Unexpected end of the expression at position 0"
    );
    assert_eq!(
        syntax_message(SyntaxErrorKind::UnmatchedOpeningBrace, 3),
        "Format string has an opening brace without a matching closing brace at position 3"
    );
    assert_eq!(
        syntax_message(SyntaxErrorKind::UnmatchedClosingBrace, 4),
        "Format string has a closing brace without a matching opening brace at position 4"
    );
    assert_eq!(
        syntax_message(SyntaxErrorKind::InvalidEscape, 100),
        "Invalid escape in a literal at position 100"
    );
    assert_eq!(
        syntax_message(SyntaxErrorKind::IndexTooLarge, 7),
        "Tuple index is too large at position 7"
    );
}

#[test]
fn messages_of_unsupported_operations() {
    assert_eq!(
        operation_message(Type::CrateInfo, Operation::Field("nope".to_string())),
        "The field nope does not exist for objects of type build_info::CrateInfo"
    );
    assert_eq!(
        operation_message(Type::Integer, Operation::TupleIndex),
        "Type integer cannot be tuple-indexed"
    );
    assert_eq!(operation_message(Type::Str, Operation::ArrayIndex), "Type String cannot be indexed");
    assert_eq!(operation_message(Type::Bool, Operation::Unwrap), "Type bool cannot be unwrapped");
    assert_eq!(
        operation_message(
            Type::Sequence,
            Operation::Call { name: "first".to_string(), arguments: "[]".to_string() }
        ),
        "Function first cannot be called with arguments [] on objects of type Vec<T>"
    );
    assert_eq!(
        operation_message(
            Type::Str,
            Operation::Call { name: "pad".to_string(), arguments: "[\n    4,\n]".to_string() }
        ),
        "Function pad cannot be called with arguments [\n    4,\n] on objects of type String"
    );
    assert_eq!(
        Error::UnknownFunction("concat".to_string()).message(),
        "The function concat does not exist"
    );
    assert_eq!(Error::UnknownMacro("env".to_string()).message(), "The macro env does not exist");
    assert_eq!(
        Error::IndexOutOfRange { length: 2 }.message(),
        "The index is out of range for a sequence of length 2"
    );
}

#[test]
fn messages_of_mismatches() {
    assert_eq!(
        Error::WrongArgumentCount { expected: 0, found: 3 }.message(),
        "Wrong number of arguments (should be 0, not 3)"
    );
    assert_eq!(
        Error::TypeMismatch { argument: 1, expected: Type::Str, found: Type::Optional }.message(),
        "Argument #1 should have type String, not Option<T>"
    );
    assert_eq!(Error::UnwrapOnAbsent.message(), "Failed to unwrap element");
}

#[test]
fn names_of_kinds() {
    let name = |kind: Type| {
        let mut buffer = String::new();
        kind.push_to(&mut buffer);
        buffer
    };
    assert_eq!(name(Type::Bool), "bool");
    assert_eq!(name(Type::Char), "char");
    assert_eq!(name(Type::Integer), "integer");
    assert_eq!(name(Type::Str), "String");
    assert_eq!(name(Type::DateTimeUtc), "DateTime<Utc>");
    assert_eq!(name(Type::Version), "Version");
    assert_eq!(name(Type::BuildInfo), "build_info::BuildInfo");
    assert_eq!(name(Type::CrateInfo), "build_info::CrateInfo");
    assert_eq!(name(Type::CompilerInfo), "build_info::CompilerInfo");
    assert_eq!(name(Type::CompilerChannel), "build_info::CompilerChannel");
    assert_eq!(name(Type::VersionControl), "build_info::VersionControl");
    assert_eq!(name(Type::GitInfo), "build_info::GitInfo");
    assert_eq!(name(Type::Optional), "Option<T>");
    assert_eq!(name(Type::Sequence), "Vec<T>");
}

#[test]
fn classes_of_errors() {
    let syntax = Error::Syntax(SyntaxError { kind: SyntaxErrorKind::UnexpectedEnd, position: 0 });
    assert_eq!(syntax.kind(), ErrorKind::SyntaxError);
    assert_eq!(
        Error::UnsupportedOperation { kind: Type::Bool, operation: Operation::Unwrap }.kind(),
        ErrorKind::UnsupportedOperation
    );
    assert_eq!(Error::UnknownFunction(String::new()).kind(), ErrorKind::UnsupportedOperation);
    assert_eq!(Error::UnknownMacro(String::new()).kind(), ErrorKind::UnsupportedOperation);
    assert_eq!(Error::IndexOutOfRange { length: 0 }.kind(), ErrorKind::UnsupportedOperation);
    assert_eq!(
        Error::WrongArgumentCount { expected: 0, found: 1 }.kind(),
        ErrorKind::TypeMismatch
    );
    assert_eq!(
        Error::TypeMismatch { argument: 1, expected: Type::Bool, found: Type::Char }.kind(),
        ErrorKind::TypeMismatch
    );
    assert_eq!(Error::UnwrapOnAbsent.kind(), ErrorKind::UnwrapOnAbsent);
}
