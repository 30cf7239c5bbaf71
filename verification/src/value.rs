//! The values that expressions evaluate to, and what can be done with them.
//!
//! Every value answers the same few questions: of which kind it is, how it is
//! written as text, and what an operation on it yields. Field access, the two
//! forms of indexing and `?` are operations like any call; they go by the
//! reserved names below.

use crate::error::{Error, ErrorView, Operation, OperationView, Type};
use crate::integer::Integer;
use crate::metadata::{
    crates_view,
    identifiers_view,
    lemma_crate_view,
    BuildInfo,
    BuildInfoView,
    CompilerChannel,
    CompilerInfo,
    CompilerInfoView,
    CrateInfo,
    CrateInfoView,
    DateTimeUtc,
    GitInfo,
    GitInfoView,
    Identifier,
    IdentifierView,
    Instant,
    Version,
    VersionControl,
    VersionControlView,
    VersionView,
};
use crate::render::{arguments_dump, dump_arguments, render_default};
use crate::text::{same_text, strings_view, text_option_view};
use vstd::prelude::*;

verus! {

/// The operation behind `.name`. Its one argument is the name, as a string.
pub const OP_FIELD_ACCESS: &'static str = "!field";

/// The operation behind `.0`. Its one argument is the index, as an integer.
pub const OP_TUPLE_INDEX: &'static str = "!tuple_index";

/// The operation behind `[index]`. Its one argument is the index.
pub const OP_ARRAY_INDEX: &'static str = "!array_index";

/// The operation behind `?`. It takes no argument.
pub const OP_UNWRAP: &'static str = "?";

/// A value of one of the kinds that the language knows. Records of the
/// metadata are borrowed from it; everything else is owned.
#[derive(Debug, PartialEq, Eq)]
pub enum Value<'a> {
    Bool(bool),
    Char(char),
    Integer(Integer),
    Str(String),
    DateTimeUtc(DateTimeUtc),
    Version(&'a Version),
    BuildInfo(&'a BuildInfo),
    CrateInfo(&'a CrateInfo),
    CompilerInfo(&'a CompilerInfo),
    CompilerChannel(CompilerChannel),
    VersionControl(&'a VersionControl),
    GitInfo(&'a GitInfo),
    /// A value that may be absent.
    Optional(Option<Box<Value<'a>>>),
    /// Values in a fixed order.
    Sequence(Vec<Value<'a>>),
}

/// What a [`Value`] stands for.
pub ghost enum ValueView {
    Bool(bool),
    Char(char),
    Integer(nat),
    Str(Seq<char>),
    DateTimeUtc(Instant),
    Version(VersionView),
    BuildInfo(BuildInfoView),
    CrateInfo(CrateInfoView),
    CompilerInfo(CompilerInfoView),
    CompilerChannel(CompilerChannel),
    VersionControl(VersionControlView),
    GitInfo(GitInfoView),
    Optional(Option<Box<ValueView>>),
    Sequence(Seq<ValueView>),
}

/// What a value stands for.
pub open spec fn value_view<'a>(v: Value<'a>) -> ValueView
    decreases v,
{
    match v {
        Value::Bool(b) => ValueView::Bool(b),
        Value::Char(c) => ValueView::Char(c),
        Value::Integer(n) => ValueView::Integer(n@),
        Value::Str(s) => ValueView::Str(s@),
        Value::DateTimeUtc(t) => ValueView::DateTimeUtc(t@),
        Value::Version(x) => ValueView::Version(x@),
        Value::BuildInfo(x) => ValueView::BuildInfo(x@),
        Value::CrateInfo(x) => ValueView::CrateInfo(x@),
        Value::CompilerInfo(x) => ValueView::CompilerInfo(x@),
        Value::CompilerChannel(x) => ValueView::CompilerChannel(x),
        Value::VersionControl(x) => ValueView::VersionControl(x@),
        Value::GitInfo(x) => ValueView::GitInfo(x@),
        Value::Optional(o) => ValueView::Optional(
            match o {
                Some(inner) => Some(Box::new(value_view(*inner))),
                None => None,
            },
        ),
        Value::Sequence(items) => ValueView::Sequence(
            Seq::new(
                items.len() as nat,
                |i: int|
                    if 0 <= i < items.len() {
                        value_view(items[i])
                    } else {
                        arbitrary()
                    },
            ),
        ),
    }
}

impl<'a> View for Value<'a> {
    type V = ValueView;

    open spec fn view(&self) -> ValueView {
        value_view(*self)
    }
}

/// What each of the values stands for.
pub open spec fn values_view<'a>(values: Seq<Value<'a>>) -> Seq<ValueView> {
    Seq::new(values.len(), |i: int| values[i]@)
}

/// A sequence stands for what its values stand for, in their order.
pub proof fn lemma_sequence_view<'a>(items: Vec<Value<'a>>)
    ensures
        Value::Sequence(items)@ == ValueView::Sequence(values_view(items@)),
{
    assert(Value::Sequence(items)@->Sequence_0 =~= values_view(items@));
}

/// What a result of an operation stands for.
pub open spec fn result_view<'a>(r: Result<Value<'a>, Error>) -> Result<ValueView, ErrorView> {
    match r {
        Ok(v) => Ok(v@),
        Err(e) => Err(e@),
    }
}

/// What a value that may be missing stands for.
pub open spec fn option_view<'a>(o: Option<Value<'a>>) -> Option<ValueView> {
    match o {
        Some(v) => Some(v@),
        None => None,
    }
}

/// The kind of a value.
pub open spec fn type_of(v: ValueView) -> Type {
    match v {
        ValueView::Bool(_) => Type::Bool,
        ValueView::Char(_) => Type::Char,
        ValueView::Integer(_) => Type::Integer,
        ValueView::Str(_) => Type::Str,
        ValueView::DateTimeUtc(_) => Type::DateTimeUtc,
        ValueView::Version(_) => Type::Version,
        ValueView::BuildInfo(_) => Type::BuildInfo,
        ValueView::CrateInfo(_) => Type::CrateInfo,
        ValueView::CompilerInfo(_) => Type::CompilerInfo,
        ValueView::CompilerChannel(_) => Type::CompilerChannel,
        ValueView::VersionControl(_) => Type::VersionControl,
        ValueView::GitInfo(_) => Type::GitInfo,
        ValueView::Optional(_) => Type::Optional,
        ValueView::Sequence(_) => Type::Sequence,
    }
}

/// A string that may be absent, as a value.
pub open spec fn optional_text(o: Option<Seq<char>>) -> ValueView {
    ValueView::Optional(
        match o {
            Some(s) => Some(Box::new(ValueView::Str(s))),
            None => None,
        },
    )
}

/// A version control system that may be absent, as a value.
pub open spec fn optional_version_control(o: Option<VersionControlView>) -> ValueView {
    ValueView::Optional(
        match o {
            Some(v) => Some(Box::new(ValueView::VersionControl(v))),
            None => None,
        },
    )
}

/// A list of strings, as a value.
pub open spec fn text_sequence(items: Seq<Seq<char>>) -> ValueView {
    ValueView::Sequence(Seq::new(items.len(), |i: int| ValueView::Str(items[i])))
}

/// An identifier of a version, as a value: a number or a string.
pub open spec fn identifier_value(identifier: IdentifierView) -> ValueView {
    match identifier {
        IdentifierView::Numeric(n) => ValueView::Integer(n),
        IdentifierView::AlphaNumeric(s) => ValueView::Str(s),
    }
}

/// The identifiers of a version, as a value.
pub open spec fn identifier_sequence(items: Seq<IdentifierView>) -> ValueView {
    ValueView::Sequence(Seq::new(items.len(), |i: int| identifier_value(items[i])))
}

/// A list of crates, as a value.
pub open spec fn crate_sequence(items: Seq<CrateInfoView>) -> ValueView {
    ValueView::Sequence(Seq::new(items.len(), |i: int| ValueView::CrateInfo(items[i])))
}

/// The fields of the metadata as a whole.
pub open spec fn build_info_field(b: BuildInfoView, name: Seq<char>) -> Option<ValueView> {
    if name == "timestamp"@ {
        Some(ValueView::DateTimeUtc(b.timestamp))
    } else if name == "profile"@ {
        Some(ValueView::Str(b.profile))
    } else if name == "crate_info"@ {
        Some(ValueView::CrateInfo(b.crate_info))
    } else if name == "compiler"@ {
        Some(ValueView::CompilerInfo(b.compiler))
    } else if name == "version_control"@ {
        Some(optional_version_control(b.version_control))
    } else {
        None
    }
}

/// The fields of a crate.
pub open spec fn crate_info_field(c: CrateInfoView, name: Seq<char>) -> Option<ValueView> {
    if name == "name"@ {
        Some(ValueView::Str(c.name))
    } else if name == "version"@ {
        Some(ValueView::Version(c.version))
    } else if name == "authors"@ {
        Some(text_sequence(c.authors))
    } else if name == "license"@ {
        Some(optional_text(c.license))
    } else if name == "dependencies"@ {
        Some(crate_sequence(c.dependencies))
    } else {
        None
    }
}

/// The fields of a compiler.
pub open spec fn compiler_info_field(c: CompilerInfoView, name: Seq<char>) -> Option<ValueView> {
    if name == "version"@ {
        Some(ValueView::Version(c.version))
    } else if name == "commit_id"@ {
        Some(optional_text(c.commit_id))
    } else if name == "commit_date"@ {
        Some(optional_text(c.commit_date))
    } else if name == "channel"@ {
        Some(ValueView::CompilerChannel(c.channel))
    } else if name == "host_triple"@ {
        Some(ValueView::Str(c.host_triple))
    } else if name == "target_triple"@ {
        Some(ValueView::Str(c.target_triple))
    } else {
        None
    }
}

/// The fields of a version.
pub open spec fn version_field(v: VersionView, name: Seq<char>) -> Option<ValueView> {
    if name == "major"@ {
        Some(ValueView::Integer(v.major))
    } else if name == "minor"@ {
        Some(ValueView::Integer(v.minor))
    } else if name == "patch"@ {
        Some(ValueView::Integer(v.patch))
    } else if name == "pre"@ {
        Some(identifier_sequence(v.pre))
    } else if name == "build"@ {
        Some(identifier_sequence(v.build))
    } else {
        None
    }
}

/// The commit date also answers to the name `commit_timestamp`.
pub open spec fn git_info_field(g: GitInfoView, name: Seq<char>) -> Option<ValueView> {
    if name == "commit_id"@ {
        Some(ValueView::Str(g.commit_id))
    } else if name == "commit_short_id"@ {
        Some(optional_text(g.commit_short_id))
    } else if name == "commit_date"@ || name == "commit_timestamp"@ {
        Some(ValueView::Str(g.commit_date))
    } else if name == "dirty"@ {
        Some(ValueView::Bool(g.dirty))
    } else if name == "branch"@ {
        Some(optional_text(g.branch))
    } else if name == "tags"@ {
        Some(text_sequence(g.tags))
    } else {
        None
    }
}

/// The value that takes an operation in place of `v`: a version control
/// system hands every operation on to the record of its one variant.
pub open spec fn receiver(v: ValueView) -> ValueView {
    match v {
        ValueView::VersionControl(VersionControlView::Git(g)) => ValueView::GitInfo(g),
        _ => v,
    }
}

/// The field `name` of a value, where its kind has such a field. This is the
/// one table of fields: every way of reaching a field goes through it.
pub open spec fn field(v: ValueView, name: Seq<char>) -> Option<ValueView> {
    match v {
        ValueView::BuildInfo(x) => build_info_field(x, name),
        ValueView::CrateInfo(x) => crate_info_field(x, name),
        ValueView::CompilerInfo(x) => compiler_info_field(x, name),
        ValueView::Version(x) => version_field(x, name),
        ValueView::GitInfo(x) => git_info_field(x, name),
        _ => None,
    }
}

/// The name that is the one argument of a field access.
pub open spec fn field_name(args: Seq<ValueView>) -> Result<Seq<char>, ErrorView> {
    if args.len() != 1 {
        Err(ErrorView::WrongArgumentCount { expected: 1, found: args.len() })
    } else {
        match args[0] {
            ValueView::Str(name) => Ok(name),
            other => Err(
                ErrorView::TypeMismatch { argument: 1, expected: Type::Str, found: type_of(other) },
            ),
        }
    }
}

/// The integer that is the one argument of an indexing.
pub open spec fn index(args: Seq<ValueView>) -> Result<nat, ErrorView> {
    if args.len() != 1 {
        Err(ErrorView::WrongArgumentCount { expected: 1, found: args.len() })
    } else {
        match args[0] {
            ValueView::Integer(i) => Ok(i),
            other => Err(
                ErrorView::TypeMismatch {
                    argument: 1,
                    expected: Type::Integer,
                    found: type_of(other),
                },
            ),
        }
    }
}

/// The failure of an operation that the kind of `v` does not have.
pub open spec fn unsupported(v: ValueView, func: Seq<char>, args: Seq<ValueView>) -> ErrorView {
    if func == OP_FIELD_ACCESS@ {
        match field_name(args) {
            Ok(name) => ErrorView::UnsupportedOperation {
                kind: type_of(v),
                operation: OperationView::Field(name),
            },
            Err(e) => e,
        }
    } else if func == OP_TUPLE_INDEX@ {
        ErrorView::UnsupportedOperation { kind: type_of(v), operation: OperationView::TupleIndex }
    } else if func == OP_ARRAY_INDEX@ {
        ErrorView::UnsupportedOperation { kind: type_of(v), operation: OperationView::ArrayIndex }
    } else if func == OP_UNWRAP@ {
        ErrorView::UnsupportedOperation { kind: type_of(v), operation: OperationView::Unwrap }
    } else {
        ErrorView::UnsupportedOperation {
            kind: type_of(v),
            operation: OperationView::Call { name: func, arguments: arguments_dump(args) },
        }
    }
}

/// An operation without arguments was given `found` of them.
pub open spec fn no_arguments(found: nat, result: Result<ValueView, ErrorView>) -> Result<
    ValueView,
    ErrorView,
> {
    if found != 0 {
        Err(ErrorView::WrongArgumentCount { expected: 0, found })
    } else {
        result
    }
}

/// What an operation on an optional value yields: `?` gives the value that
/// is there, and fails on an absent one. An optional value has no other
/// operation, whether it is present or not.
pub open spec fn call_optional(
    o: Option<Box<ValueView>>,
    func: Seq<char>,
    args: Seq<ValueView>,
) -> Result<ValueView, ErrorView> {
    if func == OP_UNWRAP@ {
        no_arguments(
            args.len(),
            match o {
                Some(inner) => Ok(*inner),
                None => Err(ErrorView::UnwrapOnAbsent),
            },
        )
    } else {
        Err(unsupported(ValueView::Optional(o), func, args))
    }
}

/// What an operation on a sequence yields: `[i]` gives the element at `i`,
/// counted from zero, and `len()` the number of elements.
pub open spec fn call_sequence(items: Seq<ValueView>, func: Seq<char>, args: Seq<ValueView>) -> Result<
    ValueView,
    ErrorView,
> {
    if func == OP_ARRAY_INDEX@ {
        match index(args) {
            Ok(i) => if i < items.len() {
                Ok(items[i as int])
            } else {
                Err(ErrorView::IndexOutOfRange { length: items.len() })
            },
            Err(e) => Err(e),
        }
    } else if func == "len"@ {
        no_arguments(args.len(), Ok(ValueView::Integer(items.len())))
    } else {
        Err(unsupported(ValueView::Sequence(items), func, args))
    }
}

/// What the operation `func` on `v` with the arguments `args` yields.
///
/// Field access looks the name up in the table of fields of the kind of `v`.
/// `to_string()` gives the text of any value but an optional one or a
/// sequence. Whatever else is asked of a value fails as [`unsupported`].
pub open spec fn call_spec(v: ValueView, func: Seq<char>, args: Seq<ValueView>) -> Result<
    ValueView,
    ErrorView,
> {
    match receiver(v) {
        ValueView::Optional(o) => call_optional(o, func, args),
        ValueView::Sequence(items) => call_sequence(items, func, args),
        r => if func == OP_FIELD_ACCESS@ {
            match field_name(args) {
                Ok(name) => match field(r, name) {
                    Some(found) => Ok(found),
                    None => Err(unsupported(r, func, args)),
                },
                Err(e) => Err(e),
            }
        } else if func == "to_string"@ {
            no_arguments(args.len(), Ok(ValueView::Str(render_default(r))))
        } else {
            Err(unsupported(r, func, args))
        },
    }
}

/// The value `v` as one of the kind `expected`, where it is argument
/// number `argument` of an operation; or the mismatch, where it is of
/// another kind.
pub open spec fn downcast(v: ValueView, argument: nat, expected: Type) -> Result<
    ValueView,
    ErrorView,
> {
    if type_of(v) == expected {
        Ok(v)
    } else {
        Err(ErrorView::TypeMismatch { argument, expected, found: type_of(v) })
    }
}

/// The arguments of an operation that takes none.
pub open spec fn arguments_0(args: Seq<ValueView>) -> Result<(), ErrorView> {
    if args.len() != 0 {
        Err(ErrorView::WrongArgumentCount { expected: 0, found: args.len() })
    } else {
        Ok(())
    }
}

/// The argument of an operation that takes one, of kind `t1`.
pub open spec fn arguments_1(args: Seq<ValueView>, t1: Type) -> Result<ValueView, ErrorView> {
    if args.len() != 1 {
        Err(ErrorView::WrongArgumentCount { expected: 1, found: args.len() })
    } else {
        downcast(args[0], 1, t1)
    }
}

/// The arguments of an operation that takes two, of the kinds `t1` and `t2`.
/// Where both are of the wrong kind, the failure names the first.
pub open spec fn arguments_2(args: Seq<ValueView>, t1: Type, t2: Type) -> Result<
    (ValueView, ValueView),
    ErrorView,
> {
    if args.len() != 2 {
        Err(ErrorView::WrongArgumentCount { expected: 2, found: args.len() })
    } else {
        match downcast(args[0], 1, t1) {
            Ok(first) => match downcast(args[1], 2, t2) {
                Ok(second) => Ok((first, second)),
                Err(e) => Err(e),
            },
            Err(e) => Err(e),
        }
    }
}

/// The name that a field access passes as its one argument.
pub fn as_field_name<'b, 'a>(args: &'b Vec<Value<'a>>) -> (name: Result<&'b str, Error>)
    ensures
        match name {
            Ok(n) => field_name(values_view(args@)) == Ok::<Seq<char>, ErrorView>(n@),
            Err(e) => field_name(values_view(args@)) == Err::<Seq<char>, ErrorView>(e@),
        },
{
    if args.len() != 1 {
        return Err(Error::WrongArgumentCount { expected: 1, found: args.len() });
    }
    match &args[0] {
        Value::Str(name) => Ok(name.as_str()),
        other => Err(
            Error::TypeMismatch { argument: 1, expected: Type::Str, found: other.get_type() },
        ),
    }
}

/// The index that an indexing passes as its one argument: `None` where no
/// `usize` holds it.
pub fn as_index<'a>(args: &Vec<Value<'a>>) -> (found: Result<Option<usize>, Error>)
    ensures
        match found {
            Ok(Some(i)) => index(values_view(args@)) == Ok::<nat, ErrorView>(i as nat),
            Ok(None) => index(values_view(args@)) is Ok && index(values_view(args@))->Ok_0
                > usize::MAX,
            Err(e) => index(values_view(args@)) == Err::<nat, ErrorView>(e@),
        },
{
    if args.len() != 1 {
        return Err(Error::WrongArgumentCount { expected: 1, found: args.len() });
    }
    match &args[0] {
        Value::Integer(i) => Ok(i.to_usize()),
        other => Err(
            Error::TypeMismatch { argument: 1, expected: Type::Integer, found: other.get_type() },
        ),
    }
}

/// Checks that an operation without arguments was given none.
pub fn as_arguments_0<'a>(args: &Vec<Value<'a>>) -> (checked: Result<(), Error>)
    ensures
        match checked {
            Ok(_) => arguments_0(values_view(args@)) is Ok,
            Err(e) => arguments_0(values_view(args@)) == Err::<(), ErrorView>(e@),
        },
{
    if args.len() == 0 {
        Ok(())
    } else {
        Err(Error::WrongArgumentCount { expected: 0, found: args.len() })
    }
}

/// The one argument of an operation that takes a value of kind `t1`.
pub fn as_arguments_1<'b, 'a>(args: &'b Vec<Value<'a>>, t1: Type) -> (checked: Result<
    &'b Value<'a>,
    Error,
>)
    ensures
        match checked {
            Ok(a) => arguments_1(values_view(args@), t1) == Ok::<ValueView, ErrorView>(a@),
            Err(e) => arguments_1(values_view(args@), t1) == Err::<ValueView, ErrorView>(e@),
        },
{
    if args.len() != 1 {
        return Err(Error::WrongArgumentCount { expected: 1, found: args.len() });
    }
    args[0].downcast(1, t1)
}

/// The two arguments of an operation that takes values of the kinds `t1`
/// and `t2`.
pub fn as_arguments_2<'b, 'a>(args: &'b Vec<Value<'a>>, t1: Type, t2: Type) -> (checked: Result<
    (&'b Value<'a>, &'b Value<'a>),
    Error,
>)
    ensures
        match checked {
            Ok((a, b)) => arguments_2(values_view(args@), t1, t2) == Ok::<
                (ValueView, ValueView),
                ErrorView,
            >((a@, b@)),
            Err(e) => arguments_2(values_view(args@), t1, t2) == Err::<
                (ValueView, ValueView),
                ErrorView,
            >(e@),
        },
{
    if args.len() != 2 {
        return Err(Error::WrongArgumentCount { expected: 2, found: args.len() });
    }
    match args[0].downcast(1, t1) {
        Ok(first) => match args[1].downcast(2, t2) {
            Ok(second) => Ok((first, second)),
            Err(e) => Err(e),
        },
        Err(e) => Err(e),
    }
}

/// A string that may be absent, as a value.
pub(crate) fn optional_text_value<'a>(text: &Option<String>) -> (v: Value<'a>)
    ensures
        v@ == optional_text(text_option_view(*text)),
{
    match text {
        Some(s) => {
            let inner = Value::Str(s.clone());
            assert(inner@ == ValueView::Str(s@));
            Value::Optional(Some(Box::new(inner)))
        },
        None => Value::Optional(None),
    }
}

/// Each of the strings, as a value.
pub(crate) fn text_values<'a>(items: &Vec<String>) -> (values: Vec<Value<'a>>)
    ensures
        values_view(values@) == text_sequence(strings_view(items@))->Sequence_0,
{
    let mut out: Vec<Value<'a>> = Vec::new();
    let mut i: usize = 0;
    while i < items.len()
        invariant
            i <= items.len(),
            out.len() == i,
            forall|j: int| 0 <= j < i ==> (#[trigger] out@[j])@ == ValueView::Str(items@[j]@),
        decreases items.len() - i,
    {
        out.push(Value::Str(items[i].clone()));
        i += 1;
    }
    proof {
        assert(values_view(out@) =~= text_sequence(strings_view(items@))->Sequence_0);
    }
    out
}

/// A list of strings, as a value.
pub(crate) fn text_sequence_value<'a>(items: &Vec<String>) -> (v: Value<'a>)
    ensures
        v@ == text_sequence(strings_view(items@)),
{
    let values = text_values(items);
    proof {
        lemma_sequence_view(values);
    }
    Value::Sequence(values)
}

/// The identifiers of a version, as a value.
pub(crate) fn identifier_sequence_value<'a>(items: &Vec<Identifier>) -> (v: Value<'a>)
    ensures
        v@ == identifier_sequence(identifiers_view(items@)),
{
    let mut out: Vec<Value<'a>> = Vec::new();
    let mut i: usize = 0;
    while i < items.len()
        invariant
            i <= items.len(),
            out.len() == i,
            forall|j: int| 0 <= j < i ==> (#[trigger] out@[j])@ == identifier_value(items@[j]@),
        decreases items.len() - i,
    {
        let value = match &items[i] {
            Identifier::Numeric(n) => Value::Integer(Integer::from_u64(*n)),
            Identifier::AlphaNumeric(s) => Value::Str(s.clone()),
        };
        out.push(value);
        i += 1;
    }
    proof {
        lemma_sequence_view(out);
        assert(values_view(out@) =~= identifier_sequence(identifiers_view(items@))->Sequence_0);
    }
    Value::Sequence(out)
}

/// A list of crates, as a value.
pub(crate) fn crate_sequence_value<'a>(items: &'a Vec<CrateInfo>) -> (v: Value<'a>)
    ensures
        v@ == crate_sequence(crates_view(items@)),
{
    let mut out: Vec<Value<'a>> = Vec::new();
    let mut i: usize = 0;
    while i < items.len()
        invariant
            i <= items.len(),
            out.len() == i,
            forall|j: int| 0 <= j < i ==> (#[trigger] out@[j])@ == ValueView::CrateInfo(items@[j]@),
        decreases items.len() - i,
    {
        out.push(Value::CrateInfo(&items[i]));
        i += 1;
    }
    proof {
        lemma_sequence_view(out);
        assert(values_view(out@) =~= crate_sequence(crates_view(items@))->Sequence_0);
    }
    Value::Sequence(out)
}

fn build_info_field_value<'a>(b: &'a BuildInfo, name: &str) -> (found: Option<Value<'a>>)
    ensures
        option_view(found) == build_info_field(b@, name@),
{
    if same_text(name, "timestamp") {
        Some(Value::DateTimeUtc(b.timestamp))
    } else if same_text(name, "profile") {
        Some(Value::Str(b.profile.clone()))
    } else if same_text(name, "crate_info") {
        Some(Value::CrateInfo(&b.crate_info))
    } else if same_text(name, "compiler") {
        Some(Value::CompilerInfo(&b.compiler))
    } else if same_text(name, "version_control") {
        Some(
            match &b.version_control {
                Some(v) => {
                    let inner = Value::VersionControl(v);
                    assert(inner@ == ValueView::VersionControl(v@));
                    Value::Optional(Some(Box::new(inner)))
                },
                None => Value::Optional(None),
            },
        )
    } else {
        None
    }
}

fn crate_info_field_value<'a>(c: &'a CrateInfo, name: &str) -> (found: Option<Value<'a>>)
    ensures
        option_view(found) == crate_info_field(c@, name@),
{
    if same_text(name, "name") {
        Some(Value::Str(c.name.clone()))
    } else if same_text(name, "version") {
        Some(Value::Version(&c.version))
    } else if same_text(name, "authors") {
        Some(text_sequence_value(&c.authors))
    } else if same_text(name, "license") {
        Some(optional_text_value(&c.license))
    } else if same_text(name, "dependencies") {
        proof {
            lemma_crate_view(*c);
        }
        Some(crate_sequence_value(&c.dependencies))
    } else {
        None
    }
}

fn compiler_info_field_value<'a>(c: &'a CompilerInfo, name: &str) -> (found: Option<Value<'a>>)
    ensures
        option_view(found) == compiler_info_field(c@, name@),
{
    if same_text(name, "version") {
        Some(Value::Version(&c.version))
    } else if same_text(name, "commit_id") {
        Some(optional_text_value(&c.commit_id))
    } else if same_text(name, "commit_date") {
        Some(optional_text_value(&c.commit_date))
    } else if same_text(name, "channel") {
        Some(Value::CompilerChannel(c.channel))
    } else if same_text(name, "host_triple") {
        Some(Value::Str(c.host_triple.clone()))
    } else if same_text(name, "target_triple") {
        Some(Value::Str(c.target_triple.clone()))
    } else {
        None
    }
}

fn version_field_value<'a>(v: &'a Version, name: &str) -> (found: Option<Value<'a>>)
    ensures
        option_view(found) == version_field(v@, name@),
{
    if same_text(name, "major") {
        Some(Value::Integer(Integer::from_u64(v.major)))
    } else if same_text(name, "minor") {
        Some(Value::Integer(Integer::from_u64(v.minor)))
    } else if same_text(name, "patch") {
        Some(Value::Integer(Integer::from_u64(v.patch)))
    } else if same_text(name, "pre") {
        Some(identifier_sequence_value(&v.pre))
    } else if same_text(name, "build") {
        Some(identifier_sequence_value(&v.build))
    } else {
        None
    }
}

fn git_info_field_value<'a>(g: &'a GitInfo, name: &str) -> (found: Option<Value<'a>>)
    ensures
        option_view(found) == git_info_field(g@, name@),
{
    if same_text(name, "commit_id") {
        Some(Value::Str(g.commit_id.clone()))
    } else if same_text(name, "commit_short_id") {
        Some(optional_text_value(&g.commit_short_id))
    } else if same_text(name, "commit_date") || same_text(name, "commit_timestamp") {
        Some(Value::Str(g.commit_date.clone()))
    } else if same_text(name, "dirty") {
        Some(Value::Bool(g.dirty))
    } else if same_text(name, "branch") {
        Some(optional_text_value(&g.branch))
    } else if same_text(name, "tags") {
        Some(text_sequence_value(&g.tags))
    } else {
        None
    }
}

impl<'a> Value<'a> {
    /// The kind of the value.
    pub fn get_type(&self) -> (kind: Type)
        ensures
            kind == type_of(self@),
    {
        match self {
            Value::Bool(_) => Type::Bool,
            Value::Char(_) => Type::Char,
            Value::Integer(_) => Type::Integer,
            Value::Str(_) => Type::Str,
            Value::DateTimeUtc(_) => Type::DateTimeUtc,
            Value::Version(_) => Type::Version,
            Value::BuildInfo(_) => Type::BuildInfo,
            Value::CrateInfo(_) => Type::CrateInfo,
            Value::CompilerInfo(_) => Type::CompilerInfo,
            Value::CompilerChannel(_) => Type::CompilerChannel,
            Value::VersionControl(_) => Type::VersionControl,
            Value::GitInfo(_) => Type::GitInfo,
            Value::Optional(_) => Type::Optional,
            Value::Sequence(_) => Type::Sequence,
        }
    }

    /// The value itself where it is of the kind `expected`; else the
    /// mismatch of argument number `argument`.
    pub fn downcast(&self, argument: usize, expected: Type) -> (result: Result<&Self, Error>)
        ensures
            match result {
                Ok(v) => downcast(self@, argument as nat, expected) == Ok::<ValueView, ErrorView>(
                    v@,
                ),
                Err(e) => downcast(self@, argument as nat, expected) == Err::<
                    ValueView,
                    ErrorView,
                >(e@),
            },
    {
        let found = self.get_type();
        if found == expected {
            Ok(self)
        } else {
            Err(Error::TypeMismatch { argument, expected, found })
        }
    }

    /// Fails as every operation does that the kind of the value does not
    /// have: the error names the kind and the operation.
    pub fn call_base(&self, func: &str, args: &Vec<Value<'a>>) -> (result: Result<
        Value<'a>,
        Error,
    >)
        ensures
            result_view(result) == Err::<ValueView, ErrorView>(
                unsupported(self@, func@, values_view(args@)),
            ),
    {
        let kind = self.get_type();
        if same_text(func, OP_FIELD_ACCESS) {
            match as_field_name(args) {
                Ok(name) => Err(
                    Error::UnsupportedOperation {
                        kind,
                        operation: Operation::Field(name.to_owned()),
                    },
                ),
                Err(e) => Err(e),
            }
        } else if same_text(func, OP_TUPLE_INDEX) {
            Err(Error::UnsupportedOperation { kind, operation: Operation::TupleIndex })
        } else if same_text(func, OP_ARRAY_INDEX) {
            Err(Error::UnsupportedOperation { kind, operation: Operation::ArrayIndex })
        } else if same_text(func, OP_UNWRAP) {
            Err(Error::UnsupportedOperation { kind, operation: Operation::Unwrap })
        } else {
            Err(
                Error::UnsupportedOperation {
                    kind,
                    operation: Operation::Call {
                        name: func.to_owned(),
                        arguments: dump_arguments(args),
                    },
                },
            )
        }
    }

    /// The field `name` of the value, where its kind has such a field.
    pub fn field(&self, name: &str) -> (found: Option<Value<'a>>)
        ensures
            option_view(found) == field(self@, name@),
    {
        match self {
            Value::BuildInfo(x) => build_info_field_value(x, name),
            Value::CrateInfo(x) => crate_info_field_value(x, name),
            Value::CompilerInfo(x) => compiler_info_field_value(x, name),
            Value::Version(x) => version_field_value(x, name),
            Value::GitInfo(x) => git_info_field_value(x, name),
            _ => None,
        }
    }

    /// Performs the operation `func` with the arguments `args` on the value,
    /// which is used up.
    pub fn call(self, func: &str, args: &Vec<Value<'a>>) -> (result: Result<Value<'a>, Error>)
        ensures
            result_view(result) == call_spec(self@, func@, values_view(args@)),
    {
        let target = match self {
            Value::VersionControl(VersionControl::Git(g)) => Value::GitInfo(g),
            other => other,
        };
        match target {
            Value::Optional(o) => {
                if same_text(func, OP_UNWRAP) {
                    if args.len() != 0 {
                        Err(Error::WrongArgumentCount { expected: 0, found: args.len() })
                    } else {
                        match o {
                            Some(inner) => Ok(*inner),
                            None => Err(Error::UnwrapOnAbsent),
                        }
                    }
                } else {
                    Value::Optional(o).call_base(func, args)
                }
            },
            Value::Sequence(items) => {
                proof {
                    lemma_sequence_view(items);
                }
                if same_text(func, OP_ARRAY_INDEX) {
                    match as_index(args) {
                        Ok(Some(i)) => {
                            if i < items.len() {
                                let mut items = items;
                                Ok(items.remove(i))
                            } else {
                                Err(Error::IndexOutOfRange { length: items.len() })
                            }
                        },
                        Ok(None) => Err(Error::IndexOutOfRange { length: items.len() }),
                        Err(e) => Err(e),
                    }
                } else if same_text(func, "len") {
                    if args.len() != 0 {
                        Err(Error::WrongArgumentCount { expected: 0, found: args.len() })
                    } else {
                        Ok(Value::Integer(Integer::from_usize(items.len())))
                    }
                } else {
                    Value::Sequence(items).call_base(func, args)
                }
            },
            record => {
                if same_text(func, OP_FIELD_ACCESS) {
                    match as_field_name(args) {
                        Ok(name) => match record.field(name) {
                            Some(found) => Ok(found),
                            None => record.call_base(func, args),
                        },
                        Err(e) => Err(e),
                    }
                } else if same_text(func, "to_string") {
                    if args.len() != 0 {
                        Err(Error::WrongArgumentCount { expected: 0, found: args.len() })
                    } else {
                        Ok(Value::Str(record.to_text()))
                    }
                } else {
                    record.call_base(func, args)
                }
            },
        }
    }
}

} // verus!
