use build_info_format::value::{
    as_arguments_0, as_arguments_1, as_arguments_2, as_field_name, as_index, OP_ARRAY_INDEX,
    OP_FIELD_ACCESS, OP_TUPLE_INDEX, OP_UNWRAP,
};
use build_info_format::{
    epoch_to_utc, nanos_to_utc, CompilerChannel, CrateInfo, Error, FormatSpecifier, GitInfo,
    Integer, Operation, Type, Value, Version, VersionControl,
};

fn value_crate() -> CrateInfo {
    CrateInfo {
        name: "demo".to_string(),
        version: Version { major: 1, minor: 2, patch: 3, pre: vec![], build: vec![] },
        authors: vec!["Ada".to_string()],
        license: None,
        dependencies: vec![],
    }
}

fn value_git(dirty: bool, branch: Option<&str>) -> GitInfo {
    GitInfo {
        commit_id: "abc1234".to_string(),
        commit_short_id: None,
        commit_date: "2022-05-06".to_string(),
        dirty,
        branch: branch.map(|b| b.to_string()),
        tags: vec![],
    }
}

fn text(value: &str) -> Value<'static> {
    Value::Str(value.to_string())
}

fn number(value: u64) -> Value<'static> {
    Value::Integer(Integer::from_u64(value))
}

fn formatted(value: &Value, spec: FormatSpecifier) -> String {
    let mut buffer = String::from(">");
    value.format(&mut buffer, spec);
    buffer
}

#[test]
fn three_elements_are_joined_with_commas() {
    let items = Value::Sequence(vec![text("a"), text("b"), text("c")]);
    assert_eq!(items.to_text(), "a, b, c");
}

#[test]
fn empty_sequence_is_the_empty_text() {
    assert_eq!(Value::Sequence(vec![]).to_text(), "");
}

#[test]
fn sequences_of_one_and_of_sequences() {
    assert_eq!(Value::Sequence(vec![text("a")]).to_text(), "a");
    let nested = Value::Sequence(vec![
        Value::Sequence(vec![number(1), number(2)]),
        Value::Sequence(vec![]),
        Value::Sequence(vec![number(3)]),
    ]);
    assert_eq!(nested.to_text(), "1, 2, , 3");
}

#[test]
fn default_text_of_each_kind() {
    let crate_info = value_crate();
    let git = value_git(true, Some("main"));
    let version_control = VersionControl::Git(value_git(false, None));
    assert_eq!(Value::Bool(true).to_text(), "true");
    assert_eq!(Value::Bool(false).to_text(), "false");
    assert_eq!(Value::Char('x').to_text(), "x");
    assert_eq!(number(0).to_text(), "0");
    assert_eq!(number(u64::MAX).to_text(), "18446744073709551615");
    assert_eq!(text("a \"b\"").to_text(), "a \"b\"");
    assert_eq!(Value::DateTimeUtc(epoch_to_utc(86_400)).to_text(), "1970-01-02 00:00:00Z");
    assert_eq!(Value::Version(&crate_info.version).to_text(), "1.2.3");
    assert_eq!(Value::CrateInfo(&crate_info).to_text(), "demo v1.2.3");
    assert_eq!(Value::CompilerChannel(CompilerChannel::Beta).to_text(), "Beta");
    assert_eq!(Value::GitInfo(&git).to_text(), "abc1234+ (main)");
    assert_eq!(Value::VersionControl(&version_control).to_text(), "abc1234");
    assert_eq!(Value::Optional(None).to_text(), "UNKNOWN");
    assert_eq!(Value::Optional(Some(Box::new(number(7)))).to_text(), "7");
}

#[test]
fn render_appends_to_the_buffer() {
    let mut buffer = String::from("n = ");
    number(12).render(&mut buffer);
    Value::Char('!').render(&mut buffer);
    assert_eq!(buffer, "n = 12!");
}

#[test]
fn format_under_each_specifier() {
    let crate_info = value_crate();
    let record = Value::CrateInfo(&crate_info);
    assert_eq!(formatted(&record, FormatSpecifier::Default), ">demo v1.2.3");
    assert_eq!(formatted(&record, FormatSpecifier::Debug), ">build_info::CrateInfo(demo v1.2.3)");
    assert_eq!(formatted(&record, FormatSpecifier::DebugAlt), ">build_info::CrateInfo(demo v1.2.3)");
    assert_eq!(formatted(&text("a\"b\\c\n"), FormatSpecifier::Default), ">a\"b\\c\n");
    assert_eq!(formatted(&text("a\"b\\c\n"), FormatSpecifier::Debug), ">\"a\\\"b\\\\c\\n\"");
    assert_eq!(formatted(&text("it's"), FormatSpecifier::Debug), ">\"it's\"");
    assert_eq!(formatted(&Value::Char('\''), FormatSpecifier::Debug), ">'\\''");
    assert_eq!(formatted(&Value::Char('"'), FormatSpecifier::Debug), ">'\"'");
    assert_eq!(formatted(&Value::Char('\t'), FormatSpecifier::DebugAlt), ">'\\t'");
    assert_eq!(formatted(&Value::Bool(true), FormatSpecifier::Debug), ">true");
    assert_eq!(formatted(&number(5), FormatSpecifier::DebugAlt), ">5");
    assert_eq!(
        formatted(&Value::CompilerChannel(CompilerChannel::Dev), FormatSpecifier::Debug),
        ">Dev"
    );
    assert_eq!(
        formatted(&Value::Version(&crate_info.version), FormatSpecifier::Debug),
        ">Version(1.2.3)"
    );
    assert_eq!(
        formatted(&Value::DateTimeUtc(epoch_to_utc(0)), FormatSpecifier::Debug),
        ">DateTime<Utc>(1970-01-01 00:00:00Z)"
    );
}

#[test]
fn debug_of_optional_values_and_sequences() {
    let none = Value::Optional(None);
    let some = Value::Optional(Some(Box::new(text("x"))));
    let items = Value::Sequence(vec![text("a"), number(2)]);
    let empty = Value::Sequence(vec![]);
    assert_eq!(formatted(&none, FormatSpecifier::Debug), ">None");
    assert_eq!(formatted(&none, FormatSpecifier::DebugAlt), ">None");
    assert_eq!(formatted(&some, FormatSpecifier::Debug), ">Some(\"x\")");
    assert_eq!(formatted(&some, FormatSpecifier::DebugAlt), ">Some(\n    \"x\",\n)");
    assert_eq!(formatted(&items, FormatSpecifier::Debug), ">[\"a\", 2]");
    assert_eq!(formatted(&items, FormatSpecifier::DebugAlt), ">[\n    \"a\",\n    2,\n]");
    assert_eq!(formatted(&empty, FormatSpecifier::Debug), ">[]");
    assert_eq!(formatted(&empty, FormatSpecifier::DebugAlt), ">[]");
}

#[test]
fn debug_alt_indents_nested_values() {
    let nested = Value::Sequence(vec![
        Value::Sequence(vec![number(1)]),
        Value::Optional(Some(Box::new(Value::Sequence(vec![text("a")])))),
    ]);
    assert_eq!(
        formatted(&nested, FormatSpecifier::DebugAlt),
        ">[\n    [\n        1,\n    ],\n    Some(\n        [\n            \"a\",\n        ],\n    ),\n]"
    );
    assert_eq!(formatted(&nested, FormatSpecifier::Debug), ">[[1], Some([\"a\"])]");
    let mut buffer = String::new();
    nested.dump(&mut buffer, Some("  "));
    assert_eq!(
        buffer,
        "[\n      [\n          1,\n      ],\n      Some(\n          [\n              \"a\",\n          ],\n      ),\n  ]"
    );
}

#[test]
fn kinds_of_values() {
    let crate_info = value_crate();
    assert_eq!(Value::Bool(true).get_type(), Type::Bool);
    assert_eq!(Value::Char('c').get_type(), Type::Char);
    assert_eq!(number(1).get_type(), Type::Integer);
    assert_eq!(text("").get_type(), Type::Str);
    assert_eq!(Value::DateTimeUtc(nanos_to_utc(0)).get_type(), Type::DateTimeUtc);
    assert_eq!(Value::Version(&crate_info.version).get_type(), Type::Version);
    assert_eq!(Value::CrateInfo(&crate_info).get_type(), Type::CrateInfo);
    assert_eq!(Value::CompilerChannel(CompilerChannel::Dev).get_type(), Type::CompilerChannel);
    assert_eq!(Value::Optional(None).get_type(), Type::Optional);
    assert_eq!(Value::Sequence(vec![]).get_type(), Type::Sequence);
}

#[test]
fn reserved_operation_names() {
    assert_eq!(OP_FIELD_ACCESS, "!field");
    assert_eq!(OP_TUPLE_INDEX, "!tuple_index");
    assert_eq!(OP_ARRAY_INDEX, "!array_index");
    assert_eq!(OP_UNWRAP, "?");
}

#[test]
fn field_access_by_call() {
    let crate_info = value_crate();
    assert_eq!(
        Value::CrateInfo(&crate_info).call(OP_FIELD_ACCESS, &vec![text("name")]),
        Ok(text("demo"))
    );
    assert_eq!(
        Value::CrateInfo(&crate_info).call(OP_FIELD_ACCESS, &vec![text("authors")]),
        Ok(Value::Sequence(vec![text("Ada")]))
    );
    assert_eq!(
        Value::CrateInfo(&crate_info).call(OP_FIELD_ACCESS, &vec![text("license")]),
        Ok(Value::Optional(None))
    );
    assert_eq!(
        Value::CrateInfo(&crate_info).call(OP_FIELD_ACCESS, &vec![text("version")]),
        Ok(Value::Version(&crate_info.version))
    );
    assert_eq!(
        Value::Version(&crate_info.version).call(OP_FIELD_ACCESS, &vec![text("patch")]),
        Ok(number(3))
    );
    assert_eq!(Value::CrateInfo(&crate_info).field("name"), Some(text("demo")));
    assert_eq!(Value::CrateInfo(&crate_info).field("nope"), None);
    assert_eq!(number(1).field("name"), None);
}

#[test]
fn field_access_on_a_kind_without_the_field() {
    let crate_info = value_crate();
    let expected = |kind: Type| {
        Err(Error::UnsupportedOperation { kind, operation: Operation::Field("nope".to_string()) })
    };
    assert_eq!(Value::Bool(true).call(OP_FIELD_ACCESS, &vec![text("nope")]), expected(Type::Bool));
    assert_eq!(Value::Char('c').call(OP_FIELD_ACCESS, &vec![text("nope")]), expected(Type::Char));
    assert_eq!(number(1).call(OP_FIELD_ACCESS, &vec![text("nope")]), expected(Type::Integer));
    assert_eq!(text("s").call(OP_FIELD_ACCESS, &vec![text("nope")]), expected(Type::Str));
    assert_eq!(
        Value::CrateInfo(&crate_info).call(OP_FIELD_ACCESS, &vec![text("nope")]),
        expected(Type::CrateInfo)
    );
    assert_eq!(
        Value::Optional(Some(Box::new(Value::CrateInfo(&crate_info))))
            .call(OP_FIELD_ACCESS, &vec![text("name")]),
        Err(Error::UnsupportedOperation {
            kind: Type::Optional,
            operation: Operation::Field("name".to_string()),
        })
    );
    assert_eq!(
        Value::Sequence(vec![]).call(OP_FIELD_ACCESS, &vec![text("nope")]),
        expected(Type::Sequence)
    );
    assert_eq!(
        Value::DateTimeUtc(epoch_to_utc(0)).call(OP_FIELD_ACCESS, &vec![text("nope")]),
        expected(Type::DateTimeUtc)
    );
    assert_eq!(
        Value::CompilerChannel(CompilerChannel::Dev).call(OP_FIELD_ACCESS, &vec![text("nope")]),
        expected(Type::CompilerChannel)
    );
}

#[test]
fn field_access_with_wrong_arguments() {
    let crate_info = value_crate();
    assert_eq!(
        Value::CrateInfo(&crate_info).call(OP_FIELD_ACCESS, &vec![]),
        Err(Error::WrongArgumentCount { expected: 1, found: 0 })
    );
    assert_eq!(
        Value::CrateInfo(&crate_info).call(OP_FIELD_ACCESS, &vec![text("name"), text("x")]),
        Err(Error::WrongArgumentCount { expected: 1, found: 2 })
    );
    assert_eq!(
        Value::CrateInfo(&crate_info).call(OP_FIELD_ACCESS, &vec![number(1)]),
        Err(Error::TypeMismatch { argument: 1, expected: Type::Str, found: Type::Integer })
    );
    assert_eq!(
        Value::Bool(true).call(OP_FIELD_ACCESS, &vec![Value::Bool(false)]),
        Err(Error::TypeMismatch { argument: 1, expected: Type::Str, found: Type::Bool })
    );
}

#[test]
fn version_control_hands_operations_on() {
    let version_control = VersionControl::Git(value_git(true, Some("main")));
    assert_eq!(
        Value::VersionControl(&version_control).call(OP_FIELD_ACCESS, &vec![text("dirty")]),
        Ok(Value::Bool(true))
    );
    assert_eq!(
        Value::VersionControl(&version_control).call(OP_FIELD_ACCESS, &vec![text("branch")]),
        Ok(Value::Optional(Some(Box::new(text("main")))))
    );
    assert_eq!(
        Value::VersionControl(&version_control).call("to_string", &vec![]),
        Ok(text("abc1234+ (main)"))
    );
    assert_eq!(
        Value::VersionControl(&version_control).call(OP_FIELD_ACCESS, &vec![text("nope")]),
        Err(Error::UnsupportedOperation {
            kind: Type::GitInfo,
            operation: Operation::Field("nope".to_string()),
        })
    );
    assert_eq!(Value::VersionControl(&version_control).get_type(), Type::VersionControl);
}

#[test]
fn unwrap_by_call() {
    assert_eq!(Value::Optional(None).call(OP_UNWRAP, &vec![]), Err(Error::UnwrapOnAbsent));
    assert_eq!(Value::Optional(Some(Box::new(number(3)))).call(OP_UNWRAP, &vec![]), Ok(number(3)));
    assert_eq!(
        Value::Optional(None).call(OP_UNWRAP, &vec![number(1)]),
        Err(Error::WrongArgumentCount { expected: 0, found: 1 })
    );
    assert_eq!(
        Value::Optional(Some(Box::new(number(3)))).call("to_string", &vec![]),
        Err(Error::UnsupportedOperation {
            kind: Type::Optional,
            operation: Operation::Call {
                name: "to_string".to_string(),
                arguments: "[]".to_string(),
            },
        })
    );
    assert_eq!(
        number(3).call(OP_UNWRAP, &vec![]),
        Err(Error::UnsupportedOperation { kind: Type::Integer, operation: Operation::Unwrap })
    );
}

#[test]
fn indexing_by_call() {
    let items = || Value::Sequence(vec![text("a"), text("b")]);
    assert_eq!(items().call(OP_ARRAY_INDEX, &vec![number(0)]), Ok(text("a")));
    assert_eq!(items().call(OP_ARRAY_INDEX, &vec![number(1)]), Ok(text("b")));
    assert_eq!(
        items().call(OP_ARRAY_INDEX, &vec![number(2)]),
        Err(Error::IndexOutOfRange { length: 2 })
    );
    assert_eq!(
        items().call(OP_ARRAY_INDEX, &vec![text("0")]),
        Err(Error::TypeMismatch { argument: 1, expected: Type::Integer, found: Type::Str })
    );
    assert_eq!(
        items().call(OP_ARRAY_INDEX, &vec![]),
        Err(Error::WrongArgumentCount { expected: 1, found: 0 })
    );
    assert_eq!(
        items().call(OP_TUPLE_INDEX, &vec![number(0)]),
        Err(Error::UnsupportedOperation { kind: Type::Sequence, operation: Operation::TupleIndex })
    );
    assert_eq!(items().call("len", &vec![]), Ok(number(2)));
    assert_eq!(
        text("abc").call(OP_ARRAY_INDEX, &vec![number(0)]),
        Err(Error::UnsupportedOperation { kind: Type::Str, operation: Operation::ArrayIndex })
    );
}

#[test]
fn call_base_always_fails() {
    let args = vec![text("x")];
    assert_eq!(
        number(1).call_base(OP_FIELD_ACCESS, &args),
        Err(Error::UnsupportedOperation {
            kind: Type::Integer,
            operation: Operation::Field("x".to_string()),
        })
    );
    assert_eq!(
        number(1).call_base(OP_TUPLE_INDEX, &args),
        Err(Error::UnsupportedOperation { kind: Type::Integer, operation: Operation::TupleIndex })
    );
    assert_eq!(
        number(1).call_base(OP_ARRAY_INDEX, &args),
        Err(Error::UnsupportedOperation { kind: Type::Integer, operation: Operation::ArrayIndex })
    );
    assert_eq!(
        number(1).call_base(OP_UNWRAP, &args),
        Err(Error::UnsupportedOperation { kind: Type::Integer, operation: Operation::Unwrap })
    );
    assert_eq!(
        number(1).call_base("to_string", &vec![]),
        Err(Error::UnsupportedOperation {
            kind: Type::Integer,
            operation: Operation::Call {
                name: "to_string".to_string(),
                arguments: "[]".to_string(),
            },
        })
    );
    assert_eq!(
        number(1).call_base("pad", &vec![number(4), text("x")]),
        Err(Error::UnsupportedOperation {
            kind: Type::Integer,
            operation: Operation::Call {
                name: "pad".to_string(),
                arguments: "[\n    4,\n    \"x\",\n]".to_string(),
            },
        })
    );
    assert_eq!(
        number(1).call_base(OP_FIELD_ACCESS, &vec![]),
        Err(Error::WrongArgumentCount { expected: 1, found: 0 })
    );
}

#[test]
fn downcast_to_a_kind() {
    let value = number(7);
    assert_eq!(value.downcast(1, Type::Integer), Ok(&number(7)));
    assert_eq!(
        value.downcast(3, Type::Str),
        Err(Error::TypeMismatch { argument: 3, expected: Type::Str, found: Type::Integer })
    );
    assert_eq!(
        Value::Optional(None).downcast(1, Type::Sequence),
        Err(Error::TypeMismatch { argument: 1, expected: Type::Sequence, found: Type::Optional })
    );
}

#[test]
fn argument_helpers() {
    let none: Vec<Value> = vec![];
    let one = vec![number(7)];
    let two = vec![number(7), text("x")];
    assert_eq!(as_arguments_0(&none), Ok(()));
    assert_eq!(as_arguments_0(&one), Err(Error::WrongArgumentCount { expected: 0, found: 1 }));
    assert_eq!(as_arguments_1(&one, Type::Integer), Ok(&number(7)));
    assert_eq!(
        as_arguments_1(&one, Type::Str),
        Err(Error::TypeMismatch { argument: 1, expected: Type::Str, found: Type::Integer })
    );
    assert_eq!(
        as_arguments_1(&two, Type::Integer),
        Err(Error::WrongArgumentCount { expected: 1, found: 2 })
    );
    assert_eq!(as_arguments_2(&two, Type::Integer, Type::Str), Ok((&number(7), &text("x"))));
    assert_eq!(
        as_arguments_2(&two, Type::Integer, Type::Bool),
        Err(Error::TypeMismatch { argument: 2, expected: Type::Bool, found: Type::Str })
    );
    assert_eq!(
        as_arguments_2(&two, Type::Char, Type::Bool),
        Err(Error::TypeMismatch { argument: 1, expected: Type::Char, found: Type::Integer })
    );
    assert_eq!(
        as_arguments_2(&one, Type::Integer, Type::Str),
        Err(Error::WrongArgumentCount { expected: 2, found: 1 })
    );
    assert_eq!(as_field_name(&vec![text("name")]), Ok("name"));
    assert_eq!(
        as_field_name(&one),
        Err(Error::TypeMismatch { argument: 1, expected: Type::Str, found: Type::Integer })
    );
    assert_eq!(as_index(&one), Ok(Some(7)));
    assert_eq!(
        as_index(&vec![Value::Integer(Integer::from_digits(&vec![1u8; 40], 10))]),
        Ok(None)
    );
    assert_eq!(
        as_index(&two),
        Err(Error::WrongArgumentCount { expected: 1, found: 2 })
    );
}
