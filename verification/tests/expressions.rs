use build_info_format::parse::parse_expression;
use build_info_format::{
    epoch_to_utc, evaluate_expression, AtomicExpr, BuildInfo, CompilerChannel, CompilerInfo,
    CrateInfo, Error, ErrorKind, Expr, GitInfo, Integer, Operation, Suffix, SyntaxError,
    SyntaxErrorKind, Type, Value, Version, VersionControl,
};

fn expression_version(major: u64, minor: u64, patch: u64) -> Version {
    Version { major, minor, patch, pre: vec![], build: vec![] }
}

fn expression_root(version_control: Option<VersionControl>) -> BuildInfo {
    BuildInfo {
        timestamp: epoch_to_utc(0),
        profile: "debug".to_string(),
        crate_info: CrateInfo {
            name: "demo".to_string(),
            version: expression_version(1, 2, 3),
            authors: vec!["Ada".to_string(), "Grace".to_string()],
            license: None,
            dependencies: vec![CrateInfo {
                name: "dep".to_string(),
                version: expression_version(0, 1, 0),
                authors: vec![],
                license: Some("MIT".to_string()),
                dependencies: vec![],
            }],
        },
        compiler: CompilerInfo {
            version: expression_version(1, 60, 0),
            commit_id: None,
            commit_date: None,
            channel: CompilerChannel::Nightly,
            host_triple: "host".to_string(),
            target_triple: "target".to_string(),
        },
        version_control,
    }
}

fn expression_git() -> GitInfo {
    GitInfo {
        commit_id: "abc1234".to_string(),
        commit_short_id: Some("abc".to_string()),
        commit_date: "2022-05-06".to_string(),
        dirty: true,
        branch: None,
        tags: vec!["v1".to_string(), "v2".to_string(), "v3".to_string()],
    }
}

fn text_of(text: &str, root: &BuildInfo) -> Result<String, Error> {
    evaluate_expression(text, root).map(|value| value.to_text())
}

fn syntax_error(kind: SyntaxErrorKind, position: usize) -> Error {
    Error::Syntax(SyntaxError { kind, position })
}

fn unsupported(kind: Type, operation: Operation) -> Error {
    Error::UnsupportedOperation { kind, operation }
}

fn call(name: &str, arguments: &str) -> Operation {
    Operation::Call { name: name.to_string(), arguments: arguments.to_string() }
}

#[test]
fn integer_literal_renders_as_its_numeral() {
    let root = expression_root(None);
    assert_eq!(evaluate_expression("42", &root), Ok(Value::Integer(Integer::from_u64(42))));
    assert_eq!(text_of("42", &root), Ok("42".to_string()));
    assert_eq!(text_of("0", &root), Ok("0".to_string()));
    assert_eq!(text_of("007", &root), Ok("7".to_string()));
    assert_eq!(text_of("1_000_000", &root), Ok("1000000".to_string()));
}

#[test]
fn integer_literal_of_any_size() {
    let root = expression_root(None);
    assert_eq!(
        text_of("123456789012345678901234567890123456789", &root),
        Ok("123456789012345678901234567890123456789".to_string())
    );
    assert_eq!(
        text_of("0x1_0000_0000_0000_0000", &root),
        Ok("18446744073709551616".to_string())
    );
}

#[test]
fn integer_literal_in_other_radixes() {
    let root = expression_root(None);
    assert_eq!(text_of("0xff", &root), Ok("255".to_string()));
    assert_eq!(text_of("0xFF", &root), Ok("255".to_string()));
    assert_eq!(text_of("0x2A", &root), Ok("42".to_string()));
    assert_eq!(text_of("0o17", &root), Ok("15".to_string()));
    assert_eq!(text_of("0b101", &root), Ok("5".to_string()));
    assert_eq!(text_of("0x0", &root), Ok("0".to_string()));
    assert_eq!(evaluate_expression("0x10", &root), Ok(Value::Integer(Integer::from_u64(16))));
}

#[test]
fn malformed_integer_literals() {
    let root = expression_root(None);
    assert_eq!(text_of("0x", &root), Err(syntax_error(SyntaxErrorKind::UnexpectedEnd, 2)));
    assert_eq!(
        text_of("12ab", &root),
        Err(syntax_error(SyntaxErrorKind::UnexpectedCharacter('a'), 2))
    );
    assert_eq!(
        text_of("0b12", &root),
        Err(syntax_error(SyntaxErrorKind::UnexpectedCharacter('2'), 3))
    );
    assert_eq!(
        text_of("0x_", &root),
        Err(syntax_error(SyntaxErrorKind::UnexpectedEnd, 3))
    );
    assert_eq!(text_of("1u8", &root), Err(syntax_error(SyntaxErrorKind::UnexpectedCharacter('u'), 1)));
}

#[test]
fn boolean_literals() {
    let root = expression_root(None);
    assert_eq!(evaluate_expression("true", &root), Ok(Value::Bool(true)));
    assert_eq!(evaluate_expression("false", &root), Ok(Value::Bool(false)));
    assert_eq!(text_of("true", &root), Ok("true".to_string()));
    assert_eq!(
        text_of(" false", &root),
        Err(syntax_error(SyntaxErrorKind::UnexpectedCharacter(' '), 0))
    );
    assert_eq!(
        text_of("false ", &root),
        Err(syntax_error(SyntaxErrorKind::UnexpectedCharacter(' '), 5))
    );
}

#[test]
fn character_literals() {
    let root = expression_root(None);
    assert_eq!(evaluate_expression("'a'", &root), Ok(Value::Char('a')));
    assert_eq!(text_of("'a'", &root), Ok("a".to_string()));
    assert_eq!(evaluate_expression("'ü'", &root), Ok(Value::Char('ü')));
    assert_eq!(evaluate_expression("'\"'", &root), Ok(Value::Char('"')));
    assert_eq!(evaluate_expression("'\\''", &root), Ok(Value::Char('\'')));
    assert_eq!(evaluate_expression("'\\n'", &root), Ok(Value::Char('\n')));
    assert_eq!(evaluate_expression("'\\r'", &root), Ok(Value::Char('\r')));
    assert_eq!(evaluate_expression("'\\t'", &root), Ok(Value::Char('\t')));
    assert_eq!(evaluate_expression("'\\\\'", &root), Ok(Value::Char('\\')));
    assert_eq!(evaluate_expression("'\\0'", &root), Ok(Value::Char('\0')));
    assert_eq!(evaluate_expression("'\\\"'", &root), Ok(Value::Char('"')));
}

#[test]
fn escapes_by_code() {
    let root = expression_root(None);
    assert_eq!(evaluate_expression("'\\x41'", &root), Ok(Value::Char('A')));
    assert_eq!(evaluate_expression("'\\x7f'", &root), Ok(Value::Char('\x7f')));
    assert_eq!(evaluate_expression("'\\x00'", &root), Ok(Value::Char('\0')));
    assert_eq!(evaluate_expression("'\\u{41}'", &root), Ok(Value::Char('A')));
    assert_eq!(evaluate_expression("'\\u{1F600}'", &root), Ok(Value::Char('\u{1F600}')));
    assert_eq!(evaluate_expression("'\\u{1_f600}'", &root), Ok(Value::Char('\u{1F600}')));
    assert_eq!(evaluate_expression("'\\u{10FFFF}'", &root), Ok(Value::Char('\u{10FFFF}')));
    assert_eq!(evaluate_expression("'\\u{D7FF}'", &root), Ok(Value::Char('\u{D7FF}')));
    assert_eq!(evaluate_expression("'\\u{E000}'", &root), Ok(Value::Char('\u{E000}')));
    assert_eq!(evaluate_expression("'\\u{000041}'", &root), Ok(Value::Char('A')));
    assert_eq!(text_of("\"\\u{e9}t\\x65 \\u{20AC}\"", &root), Ok("éte €".to_string()));
}

#[test]
fn malformed_escapes_by_code() {
    let root = expression_root(None);
    let invalid = |position: usize| Err(syntax_error(SyntaxErrorKind::InvalidEscape, position));
    assert_eq!(text_of("'\\x80'", &root), invalid(2));
    assert_eq!(text_of("'\\xff'", &root), invalid(2));
    assert_eq!(text_of("'\\u{D800}'", &root), invalid(2));
    assert_eq!(text_of("'\\u{DFFF}'", &root), invalid(2));
    assert_eq!(text_of("'\\u{110000}'", &root), invalid(2));
    assert_eq!(text_of("'\\u{}'", &root), invalid(2));
    assert_eq!(text_of("'\\u{_}'", &root), invalid(2));
    assert_eq!(text_of("'\\u{1234567}'", &root), invalid(2));
    assert_eq!(text_of("\"ab\\u{FFFFFF}\"", &root), invalid(4));
    assert_eq!(
        text_of("'\\u{41'", &root),
        Err(syntax_error(SyntaxErrorKind::UnexpectedCharacter('\''), 6))
    );
    assert_eq!(
        text_of("'\\u41'", &root),
        Err(syntax_error(SyntaxErrorKind::UnexpectedCharacter('4'), 3))
    );
    assert_eq!(
        text_of("'\\u{4g}'", &root),
        Err(syntax_error(SyntaxErrorKind::UnexpectedCharacter('g'), 5))
    );
    assert_eq!(
        text_of("'\\xZ1'", &root),
        Err(syntax_error(SyntaxErrorKind::UnexpectedCharacter('Z'), 3))
    );
    assert_eq!(
        text_of("'\\x4'", &root),
        Err(syntax_error(SyntaxErrorKind::UnexpectedCharacter('\''), 4))
    );
    assert_eq!(text_of("'\\x", &root), Err(syntax_error(SyntaxErrorKind::UnexpectedEnd, 3)));
    assert_eq!(text_of("'\\u{12", &root), Err(syntax_error(SyntaxErrorKind::UnexpectedEnd, 6)));
    assert_eq!(
        text_of("'\\x411'", &root),
        Err(syntax_error(SyntaxErrorKind::UnexpectedCharacter('1'), 5))
    );
}

#[test]
fn identifiers_beyond_ascii() {
    let root = expression_root(None);
    assert_eq!(
        text_of("build_info.a\u{663}", &root),
        Err(unsupported(Type::BuildInfo, Operation::Field("a\u{663}".to_string())))
    );
    assert_eq!(
        text_of("build_info.\u{663}a", &root),
        Err(syntax_error(SyntaxErrorKind::UnexpectedCharacter('\u{663}'), 11))
    );
    assert_eq!(
        text_of("build_info.\u{2192}", &root),
        Err(syntax_error(SyntaxErrorKind::UnexpectedCharacter('\u{2192}'), 11))
    );
    assert_eq!(
        text_of("build_info.a\u{2192}", &root),
        Err(syntax_error(SyntaxErrorKind::UnexpectedCharacter('\u{2192}'), 12))
    );
    assert_eq!(
        text_of("build_info.a-b", &root),
        Err(syntax_error(SyntaxErrorKind::UnexpectedCharacter('-'), 12))
    );
    assert_eq!(
        text_of("build_info._", &root),
        Err(unsupported(Type::BuildInfo, Operation::Field("_".to_string())))
    );
    assert_eq!(
        text_of("build_info.\u{a0}x", &root),
        Err(syntax_error(SyntaxErrorKind::UnexpectedCharacter('\u{a0}'), 11))
    );
}

#[test]
fn malformed_character_literals() {
    let root = expression_root(None);
    assert_eq!(
        text_of("''", &root),
        Err(syntax_error(SyntaxErrorKind::UnexpectedCharacter('\''), 1))
    );
    assert_eq!(
        text_of("'ab'", &root),
        Err(syntax_error(SyntaxErrorKind::UnexpectedCharacter('b'), 2))
    );
    assert_eq!(text_of("'a", &root), Err(syntax_error(SyntaxErrorKind::UnexpectedEnd, 2)));
    assert_eq!(text_of("'", &root), Err(syntax_error(SyntaxErrorKind::UnexpectedEnd, 1)));
    assert_eq!(text_of("'\\q'", &root), Err(syntax_error(SyntaxErrorKind::InvalidEscape, 2)));
    assert_eq!(text_of("'\\", &root), Err(syntax_error(SyntaxErrorKind::UnexpectedEnd, 2)));
}

#[test]
fn string_literals() {
    let root = expression_root(None);
    assert_eq!(evaluate_expression("\"hi\"", &root), Ok(Value::Str("hi".to_string())));
    assert_eq!(text_of("\"hi\"", &root), Ok("hi".to_string()));
    assert_eq!(text_of("\"\"", &root), Ok(String::new()));
    assert_eq!(text_of("\"a b\tc\"", &root), Ok("a b\tc".to_string()));
    assert_eq!(text_of("\"say \\\"hi\\\"\\n\"", &root), Ok("say \"hi\"\n".to_string()));
    assert_eq!(text_of("\"it's\"", &root), Ok("it's".to_string()));
    assert_eq!(text_of("\"a\\\\b\"", &root), Ok("a\\b".to_string()));
}

#[test]
fn malformed_string_literals() {
    let root = expression_root(None);
    assert_eq!(text_of("\"abc", &root), Err(syntax_error(SyntaxErrorKind::UnexpectedEnd, 4)));
    assert_eq!(text_of("\"a\\qb\"", &root), Err(syntax_error(SyntaxErrorKind::InvalidEscape, 3)));
    assert_eq!(text_of("\"a\\", &root), Err(syntax_error(SyntaxErrorKind::UnexpectedEnd, 3)));
}

#[test]
fn root_and_fields() {
    let root = expression_root(None);
    assert_eq!(evaluate_expression("build_info", &root), Ok(Value::BuildInfo(&root)));
    assert_eq!(
        evaluate_expression("build_info.crate_info", &root),
        Ok(Value::CrateInfo(&root.crate_info))
    );
    assert_eq!(
        evaluate_expression("build_info.crate_info.name", &root),
        Ok(Value::Str("demo".to_string()))
    );
    assert_eq!(
        evaluate_expression("build_info.crate_info.version.minor", &root),
        Ok(Value::Integer(Integer::from_u64(2)))
    );
    assert_eq!(
        evaluate_expression("build_info.compiler.channel", &root),
        Ok(Value::CompilerChannel(CompilerChannel::Nightly))
    );
    assert_eq!(text_of("build_info.compiler", &root), Ok("rustc 1.60.0".to_string()));
    assert_eq!(text_of("build_info.profile", &root), Ok("debug".to_string()));
    assert_eq!(text_of("build_info.timestamp", &root), Ok("1970-01-01 00:00:00Z".to_string()));
}

#[test]
fn whitespace_between_tokens() {
    let root = expression_root(None);
    let unexpected = |c: char, position: usize| {
        Err(syntax_error(SyntaxErrorKind::UnexpectedCharacter(c), position))
    };
    assert_eq!(text_of("build_info.  crate_info.\n\tname", &root), Ok("demo".to_string()));
    assert_eq!(text_of("build_info. crate_info. authors. len()", &root), Ok("2".to_string()));
    assert_eq!(text_of("build_info.\r\n\x0Cprofile", &root), Ok("debug".to_string()));
    assert_eq!(text_of("build_info .crate_info", &root), unexpected(' ', 10));
    assert_eq!(text_of("build_info.crate_info ", &root), unexpected(' ', 21));
    assert_eq!(text_of(" build_info", &root), unexpected(' ', 0));
    assert_eq!(text_of("build_info.crate_info.authors [0]", &root), unexpected(' ', 29));
    assert_eq!(text_of("build_info.crate_info.authors[ 0]", &root), unexpected(' ', 30));
    assert_eq!(text_of("build_info.crate_info.authors[0 ]", &root), unexpected(' ', 31));
    assert_eq!(text_of("build_info.crate_info.authors.len ()", &root), unexpected(' ', 33));
    assert_eq!(text_of("build_info.crate_info.authors.len( )", &root), unexpected(' ', 34));
    assert_eq!(text_of("build_info?\t", &root), unexpected('\t', 11));
    assert_eq!(text_of("build_info. 0", &root), unexpected('0', 12));
    assert_eq!(text_of("( 1)", &root), unexpected(' ', 1));
    assert_eq!(text_of("f(1, 2)", &root), unexpected(' ', 4));
    assert_eq!(text_of("build_ info", &root), unexpected(' ', 6));
    assert_eq!(text_of("build_info.\u{a0}name", &root), unexpected('\u{a0}', 11));
}

#[test]
fn parenthesized_expressions() {
    let root = expression_root(None);
    assert_eq!(text_of("(42)", &root), Ok("42".to_string()));
    assert_eq!(text_of("((build_info).crate_info).name", &root), Ok("demo".to_string()));
    assert_eq!(text_of("(build_info.crate_info.authors)[(1)]", &root), Ok("Grace".to_string()));
    assert_eq!(text_of("(1", &root), Err(syntax_error(SyntaxErrorKind::UnexpectedEnd, 2)));
    assert_eq!(text_of("(1 2)", &root), Err(syntax_error(SyntaxErrorKind::UnexpectedCharacter(' '), 2)));
    assert_eq!(text_of("(1]", &root), Err(syntax_error(SyntaxErrorKind::UnexpectedCharacter(']'), 2)));
    assert_eq!(text_of("()", &root), Err(syntax_error(SyntaxErrorKind::UnexpectedCharacter(')'), 1)));
}

#[test]
fn sequences_and_indexing() {
    let root = expression_root(Some(VersionControl::Git(expression_git())));
    assert_eq!(text_of("build_info.crate_info.authors", &root), Ok("Ada, Grace".to_string()));
    assert_eq!(text_of("build_info.crate_info.authors[0]", &root), Ok("Ada".to_string()));
    assert_eq!(text_of("build_info.crate_info.authors[0x1]", &root), Ok("Grace".to_string()));
    assert_eq!(text_of("build_info.crate_info.authors.len()", &root), Ok("2".to_string()));
    assert_eq!(text_of("build_info.version_control?.tags", &root), Ok("v1, v2, v3".to_string()));
    assert_eq!(text_of("build_info.crate_info.dependencies", &root), Ok("dep v0.1.0".to_string()));
    assert_eq!(
        text_of("build_info.crate_info.dependencies[0].license?", &root),
        Ok("MIT".to_string())
    );
    assert_eq!(
        text_of("build_info.crate_info.dependencies[0].dependencies", &root),
        Ok(String::new())
    );
    assert_eq!(
        text_of("build_info.crate_info.authors[2]", &root),
        Err(Error::IndexOutOfRange { length: 2 })
    );
    assert_eq!(
        text_of("build_info.crate_info.authors[99999999999999999999999999]", &root),
        Err(Error::IndexOutOfRange { length: 2 })
    );
    assert_eq!(
        text_of("build_info.crate_info.authors[\"0\"]", &root),
        Err(Error::TypeMismatch { argument: 1, expected: Type::Integer, found: Type::Str })
    );
    assert_eq!(
        text_of("build_info.crate_info.authors[0", &root),
        Err(syntax_error(SyntaxErrorKind::UnexpectedEnd, 31))
    );
}

#[test]
fn calls_on_values() {
    let root = expression_root(None);
    assert_eq!(
        evaluate_expression("build_info.crate_info.to_string()", &root),
        Ok(Value::Str("demo v1.2.3".to_string()))
    );
    assert_eq!(text_of("42.to_string()", &root), Ok("42".to_string()));
    assert_eq!(text_of("true.to_string().to_string()", &root), Ok("true".to_string()));
    assert_eq!(
        text_of("build_info.crate_info.authors.len(1)", &root),
        Err(Error::WrongArgumentCount { expected: 0, found: 1 })
    );
    assert_eq!(
        text_of("build_info.crate_info.to_string(1,2)", &root),
        Err(Error::WrongArgumentCount { expected: 0, found: 2 })
    );
    assert_eq!(
        text_of("build_info.crate_info.frobnicate(1)", &root),
        Err(unsupported(Type::CrateInfo, call("frobnicate", "[\n    1,\n]")))
    );
    assert_eq!(
        text_of("build_info.crate_info.authors.to_string()", &root),
        Err(unsupported(Type::Sequence, call("to_string", "[]")))
    );
    assert_eq!(
        text_of("build_info.crate_info.name.len()", &root),
        Err(unsupported(Type::Str, call("len", "[]")))
    );
    assert_eq!(
        text_of("1.pad(\"x\",build_info.crate_info.authors)", &root),
        Err(unsupported(
            Type::Integer,
            call("pad", "[\n    \"x\",\n    [\n        \"Ada\",\n        \"Grace\",\n    ],\n]")
        ))
    );
}

#[test]
fn missing_field_names_kind_and_field() {
    let root = expression_root(Some(VersionControl::Git(expression_git())));
    assert_eq!(
        text_of("build_info.nope", &root),
        Err(unsupported(Type::BuildInfo, Operation::Field("nope".to_string())))
    );
    assert_eq!(
        text_of("build_info.crate_info.commit_id", &root),
        Err(unsupported(Type::CrateInfo, Operation::Field("commit_id".to_string())))
    );
    assert_eq!(
        text_of("build_info.compiler.name", &root),
        Err(unsupported(Type::CompilerInfo, Operation::Field("name".to_string())))
    );
    assert_eq!(
        text_of("build_info.crate_info.version.name", &root),
        Err(unsupported(Type::Version, Operation::Field("name".to_string())))
    );
    assert_eq!(
        text_of("build_info.version_control?.name", &root),
        Err(unsupported(Type::GitInfo, Operation::Field("name".to_string())))
    );
    assert_eq!(
        text_of("build_info.version_control.branch", &root),
        Err(unsupported(Type::Optional, Operation::Field("branch".to_string())))
    );
    assert_eq!(
        text_of("build_info.crate_info.authors.first", &root),
        Err(unsupported(Type::Sequence, Operation::Field("first".to_string())))
    );
    assert_eq!(
        text_of("42.digits", &root),
        Err(unsupported(Type::Integer, Operation::Field("digits".to_string())))
    );
    assert_eq!(
        text_of("\"s\".length", &root),
        Err(unsupported(Type::Str, Operation::Field("length".to_string())))
    );
    assert_eq!(
        text_of("build_info.été", &root),
        Err(unsupported(Type::BuildInfo, Operation::Field("été".to_string())))
    );
    assert_eq!(
        text_of("build_info.nope", &root).unwrap_err().kind(),
        ErrorKind::UnsupportedOperation
    );
}

#[test]
fn indexing_what_cannot_be_indexed() {
    let root = expression_root(None);
    assert_eq!(text_of("build_info.0", &root), Err(unsupported(Type::BuildInfo, Operation::TupleIndex)));
    assert_eq!(
        text_of("build_info.crate_info.authors.1", &root),
        Err(unsupported(Type::Sequence, Operation::TupleIndex))
    );
    assert_eq!(text_of("build_info[0]", &root), Err(unsupported(Type::BuildInfo, Operation::ArrayIndex)));
    assert_eq!(text_of("\"abc\"[0]", &root), Err(unsupported(Type::Str, Operation::ArrayIndex)));
    assert_eq!(
        text_of("build_info.99999999999999999999999", &root),
        Err(syntax_error(SyntaxErrorKind::IndexTooLarge, 11))
    );
}

#[test]
fn unwrap_of_optional_values() {
    let absent = expression_root(None);
    assert_eq!(text_of("build_info.version_control?", &absent), Err(Error::UnwrapOnAbsent));
    assert_eq!(
        text_of("build_info.version_control?", &absent).unwrap_err().kind(),
        ErrorKind::UnwrapOnAbsent
    );
    assert_eq!(text_of("build_info.crate_info.license?", &absent), Err(Error::UnwrapOnAbsent));
    let git = VersionControl::Git(expression_git());
    let present = expression_root(Some(git.clone()));
    assert_eq!(
        evaluate_expression("build_info.version_control?", &present),
        Ok(Value::VersionControl(&git))
    );
    assert_eq!(
        evaluate_expression("build_info.version_control", &present),
        Ok(Value::Optional(Some(Box::new(Value::VersionControl(&git)))))
    );
    assert_eq!(text_of("build_info.version_control?", &present), Ok("abc1234+".to_string()));
    assert_eq!(text_of("build_info.version_control?.commit_short_id?", &present), Ok("abc".to_string()));
    assert_eq!(text_of("build_info.version_control?.branch?", &present), Err(Error::UnwrapOnAbsent));
    assert_eq!(
        text_of("build_info.crate_info?", &present),
        Err(unsupported(Type::CrateInfo, Operation::Unwrap))
    );
    assert_eq!(text_of("1?", &present), Err(unsupported(Type::Integer, Operation::Unwrap)));
}

#[test]
fn unknown_functions() {
    let root = expression_root(None);
    assert_eq!(text_of("f()", &root), Err(Error::UnknownFunction("f".to_string())));
    assert_eq!(text_of("concat(1,\"a\")", &root), Err(Error::UnknownFunction("concat".to_string())));
    assert_eq!(
        text_of("concat (1)", &root),
        Err(syntax_error(SyntaxErrorKind::UnexpectedCharacter(' '), 6))
    );
    assert_eq!(text_of("f()", &root).unwrap_err().kind(), ErrorKind::UnsupportedOperation);
    assert_eq!(
        text_of("f", &root),
        Err(syntax_error(SyntaxErrorKind::UnexpectedEnd, 1))
    );
    assert_eq!(
        text_of("f(1,)", &root),
        Err(syntax_error(SyntaxErrorKind::UnexpectedCharacter(')'), 4))
    );
    assert_eq!(
        text_of("f(1 2)", &root),
        Err(syntax_error(SyntaxErrorKind::UnexpectedCharacter(' '), 3))
    );
    assert_eq!(text_of("f(1", &root), Err(syntax_error(SyntaxErrorKind::UnexpectedEnd, 3)));
}

#[test]
fn macro_calls_are_unknown() {
    let root = expression_root(None);
    let call = Expr { atom: AtomicExpr::MacroCall("env".to_string(), vec![]), suffixes: vec![] };
    assert_eq!(call.eval(&root), Err(Error::UnknownMacro("env".to_string())));
    assert_eq!(
        text_of("env!(1)", &root),
        Err(syntax_error(SyntaxErrorKind::UnexpectedCharacter('!'), 3))
    );
}

#[test]
fn arguments_fail_from_left_to_right() {
    let root = expression_root(None);
    let nope = unsupported(Type::BuildInfo, Operation::Field("nope".to_string()));
    assert_eq!(text_of("f(build_info.nope,build_info.version_control?)", &root), Err(nope.clone()));
    assert_eq!(
        text_of("f(build_info.version_control?,build_info.nope)", &root),
        Err(Error::UnwrapOnAbsent)
    );
    assert_eq!(text_of("f(1,build_info.nope,build_info.version_control?)", &root), Err(nope.clone()));
    assert_eq!(text_of("f(build_info.nope,g())", &root), Err(nope.clone()));
    assert_eq!(
        text_of("build_info.crate_info.authors.len(build_info.nope,h())", &root),
        Err(nope.clone())
    );
    assert_eq!(
        text_of("build_info.nope.len(build_info.version_control?)", &root),
        Err(nope.clone())
    );
    assert_eq!(
        text_of("build_info.crate_info.authors[build_info.nope][g()]", &root),
        Err(nope)
    );
}

#[test]
fn trailing_text_is_rejected() {
    let root = expression_root(None);
    assert_eq!(text_of("", &root), Err(syntax_error(SyntaxErrorKind::UnexpectedEnd, 0)));
    assert_eq!(text_of("   ", &root), Err(syntax_error(SyntaxErrorKind::UnexpectedCharacter(' '), 0)));
    assert_eq!(text_of("1 2", &root), Err(syntax_error(SyntaxErrorKind::UnexpectedCharacter(' '), 1)));
    assert_eq!(
        text_of("build_info)", &root),
        Err(syntax_error(SyntaxErrorKind::UnexpectedCharacter(')'), 10))
    );
    assert_eq!(text_of("build_info.", &root), Err(syntax_error(SyntaxErrorKind::UnexpectedEnd, 11)));
    assert_eq!(
        text_of(".crate_info", &root),
        Err(syntax_error(SyntaxErrorKind::UnexpectedCharacter('.'), 0))
    );
    assert_eq!(
        text_of("build_info}", &root),
        Err(syntax_error(SyntaxErrorKind::UnexpectedCharacter('}'), 10))
    );
    assert_eq!(text_of("%", &root), Err(syntax_error(SyntaxErrorKind::UnexpectedCharacter('%'), 0)));
}

#[test]
fn parsed_expression_has_the_expected_shape() {
    let parsed = parse_expression("build_info. crate_info?.x(1,'c')[true].3");
    let expected = Expr {
        atom: AtomicExpr::BuildInfo,
        suffixes: vec![
            Suffix::Field("crate_info".to_string()),
            Suffix::Unwrap,
            Suffix::FunctionCall(
                "x".to_string(),
                vec![
                    Expr { atom: AtomicExpr::LitInt(Integer::from_u64(1)), suffixes: vec![] },
                    Expr { atom: AtomicExpr::LitChar('c'), suffixes: vec![] },
                ],
            ),
            Suffix::ArrayIndex(Expr { atom: AtomicExpr::LitBool(true), suffixes: vec![] }),
            Suffix::TupleIndex(3),
        ],
    };
    assert_eq!(parsed, Ok(expected));
    let call = parse_expression("f((\"a\"),g())");
    let expected_call = Expr {
        atom: AtomicExpr::FunctionCall(
            "f".to_string(),
            vec![
                Expr {
                    atom: AtomicExpr::Parenthesized(Box::new(Expr {
                        atom: AtomicExpr::LitStr("a".to_string()),
                        suffixes: vec![],
                    })),
                    suffixes: vec![],
                },
                Expr { atom: AtomicExpr::FunctionCall("g".to_string(), vec![]), suffixes: vec![] },
            ],
        ),
        suffixes: vec![],
    };
    assert_eq!(call, Ok(expected_call));
    assert_eq!(
        parse_expression("truely"),
        Err(SyntaxError { kind: SyntaxErrorKind::UnexpectedEnd, position: 6 })
    );
}
