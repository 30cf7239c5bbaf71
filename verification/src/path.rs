//! Paths: the reduced form of expressions that follows fields only.
//!
//! A path is a queue of segments, already split from one another: `.name`,
//! `.name()` and `?`. It is resolved against the metadata record by record,
//! by the name of each field, and yields the text of the value at its end.
//! No expression is parsed and no general value is built on the way; the
//! result is nevertheless the one that the table of fields in
//! [`crate::value`] defines.

use crate::error::{Error, ErrorView, Operation, OperationView, SyntaxError, Type};
use crate::metadata::{
    crates_view,
    identifiers_view,
    lemma_crate_view,
    version_control_option_view,
    BuildInfo,
    CompilerChannel,
    CompilerInfo,
    CrateInfo,
    DateTimeUtc,
    GitInfo,
    Identifier,
    Version,
    VersionControl,
};
use crate::parse::{
    at,
    identifier,
    is_at,
    parse_id,
    remaining,
    skip_ws,
    unexpected,
    unexpected_at,
    ws,
};
use crate::render::{arguments_dump, dump_arguments, render_default};
use crate::syntax::{Index, IndexView, indices_view};
use crate::text::{chars_of, decimal, push_decimal, same_text, strings_view, text_option_view};
use crate::value::{
    crate_sequence,
    crate_sequence_value,
    field,
    identifier_sequence,
    identifier_sequence_value,
    optional_text,
    optional_version_control,
    receiver,
    text_sequence,
    text_sequence_value,
    text_values,
    type_of,
    ValueView,
};
use std::collections::VecDeque;
use vstd::prelude::*;

verus! {

/// The failure of a segment that the kind of value at hand does not have.
pub open spec fn rejection(kind: Type, index: IndexView) -> ErrorView {
    ErrorView::UnsupportedOperation {
        kind,
        operation: match index {
            IndexView::Unwrap => OperationView::Unwrap,
            IndexView::Field(name) => OperationView::Field(name),
            IndexView::Function(name, args) => OperationView::Call {
                name,
                arguments: arguments_dump(text_sequence(args)->Sequence_0),
            },
        },
    }
}

/// The value that one segment leads to from the value `v`.
///
/// `?` leads into an optional value that is present. A field leads to the
/// value that the table of fields gives. `len()` leads from a sequence to its
/// length; it is the only call that a path knows. Every other segment is
/// one that the kind of value does not have, and fails as [`rejection`]
/// says.
pub open spec fn step(v: ValueView, index: IndexView) -> Result<ValueView, ErrorView> {
    match receiver(v) {
        ValueView::Optional(o) => match index {
            IndexView::Unwrap => match o {
                Some(inner) => Ok(*inner),
                None => Err(ErrorView::UnwrapOnAbsent),
            },
            _ => Err(rejection(Type::Optional, index)),
        },
        ValueView::Sequence(items) => match index {
            IndexView::Function(name, args) => if name == "len"@ && args.len() == 0 {
                Ok(ValueView::Integer(items.len()))
            } else {
                Err(rejection(Type::Sequence, index))
            },
            _ => Err(rejection(Type::Sequence, index)),
        },
        r => match index {
            IndexView::Unwrap => Err(rejection(type_of(r), index)),
            IndexView::Field(name) => match field(r, name) {
                Some(found) => Ok(found),
                None => Err(rejection(type_of(r), index)),
            },
            IndexView::Function(_, _) => Err(rejection(type_of(r), index)),
        },
    }
}

/// The text at the end of the path `indices` from the value `v`: the text of
/// `v` itself where the path is empty. The first segment that leads nowhere
/// is the failure of the whole path.
pub open spec fn resolution(v: ValueView, indices: Seq<IndexView>) -> Result<Seq<char>, ErrorView>
    decreases indices.len(),
{
    if indices.len() == 0 {
        Ok(render_default(v))
    } else {
        match step(v, indices[0]) {
            Ok(next) => resolution(next, indices.subrange(1, indices.len() as int)),
            Err(e) => Err(e),
        }
    }
}

/// The text at the end of a path from a value that has no field and is
/// neither optional nor a sequence, where `text` is the text of the value and
/// `kind` its kind: the text where the path is empty, and else the failure
/// of the first segment, since no segment leads on from such a value.
pub open spec fn scalar_resolution(text: Seq<char>, kind: Type, indices: Seq<IndexView>) -> Result<
    Seq<char>,
    ErrorView,
> {
    if indices.len() == 0 {
        Ok(text)
    } else {
        Err(rejection(kind, indices[0]))
    }
}

/// A value without fields that is neither optional nor a sequence.
pub open spec fn scalar(v: ValueView) -> bool {
    match v {
        ValueView::Bool(_) => true,
        ValueView::Char(_) => true,
        ValueView::Integer(_) => true,
        ValueView::Str(_) => true,
        ValueView::DateTimeUtc(_) => true,
        ValueView::CompilerChannel(_) => true,
        _ => false,
    }
}

/// From a scalar value a path leads where [`scalar_resolution`] says.
pub proof fn lemma_scalar_resolution(v: ValueView, indices: Seq<IndexView>)
    requires
        scalar(v),
    ensures
        resolution(v, indices) == scalar_resolution(render_default(v), type_of(v), indices),
{
}

/// What the result of resolving a path stands for.
pub open spec fn text_result(result: Result<String, Error>) -> Result<Seq<char>, ErrorView> {
    match result {
        Ok(text) => Ok(text@),
        Err(e) => Err(e@),
    }
}

/// Taking the first segment off a path leaves the first segment and the
/// rest of what the path stands for.
proof fn lemma_front(before: Seq<Index>, first: Index, after: Seq<Index>)
    requires
        before.len() > 0,
        first == before[0],
        after == before.subrange(1, before.len() as int),
    ensures
        indices_view(before).len() > 0,
        indices_view(before)[0] == first@,
        indices_view(before).subrange(1, indices_view(before).len() as int) == indices_view(after),
{
}

/// The failure of a segment that a value of the kind `kind` does not have.
fn reject(kind: Type, index: Index) -> (e: Error)
    ensures
        e@ == rejection(kind, index@),
{
    match index {
        Index::Unwrap => Error::UnsupportedOperation { kind, operation: Operation::Unwrap },
        Index::Field(name) => Error::UnsupportedOperation { kind, operation: Operation::Field(name) },
        Index::Function(name, args) => {
            let arguments = dump_arguments(&text_values(&args));
            Error::UnsupportedOperation { kind, operation: Operation::Call { name, arguments } }
        },
    }
}

/// Whether a segment is `len()`.
fn is_len(index: &Index) -> (b: bool)
    ensures
        b == (index@ matches IndexView::Function(name, args) && name == "len"@ && args.len() == 0),
{
    match index {
        Index::Function(name, args) => same_text(name.as_str(), "len") && args.len() == 0,
        _ => false,
    }
}

/// Resolves a path from a scalar value whose text is `text` and whose kind
/// is `kind`.
pub fn raw_value(text: String, kind: Type, indeces: VecDeque<Index>) -> (result: Result<
    String,
    Error,
>)
    ensures
        text_result(result) == scalar_resolution(text@, kind, indices_view(indeces@)),
{
    let mut indeces = indeces;
    let ghost before = indeces@;
    match indeces.pop_front() {
        None => Ok(text),
        Some(index) => {
            proof {
                lemma_front(before, index, indeces@);
            }
            Err(reject(kind, index))
        },
    }
}

fn bool_text(value: bool) -> (text: String)
    ensures
        text@ == render_default(ValueView::Bool(value)),
{
    if value {
        "true".to_owned()
    } else {
        "false".to_owned()
    }
}

fn number_text(value: u64) -> (text: String)
    ensures
        text@ == decimal(value as nat),
{
    let mut text = String::new();
    push_decimal(&mut text, value);
    text
}

/// Resolves a path from a string.
pub fn string_value(value: &String, indeces: VecDeque<Index>) -> (result: Result<String, Error>)
    ensures
        text_result(result) == resolution(ValueView::Str(value@), indices_view(indeces@)),
{
    proof {
        lemma_scalar_resolution(ValueView::Str(value@), indices_view(indeces@));
    }
    raw_value(value.clone(), Type::Str, indeces)
}

/// Resolves a path from a truth value.
pub fn bool_value(value: bool, indeces: VecDeque<Index>) -> (result: Result<String, Error>)
    ensures
        text_result(result) == resolution(ValueView::Bool(value), indices_view(indeces@)),
{
    proof {
        lemma_scalar_resolution(ValueView::Bool(value), indices_view(indeces@));
    }
    raw_value(bool_text(value), Type::Bool, indeces)
}

/// Resolves a path from a number.
pub fn u64_value(value: u64, indeces: VecDeque<Index>) -> (result: Result<String, Error>)
    ensures
        text_result(result) == resolution(
            ValueView::Integer(value as nat),
            indices_view(indeces@),
        ),
{
    proof {
        lemma_scalar_resolution(ValueView::Integer(value as nat), indices_view(indeces@));
    }
    raw_value(number_text(value), Type::Integer, indeces)
}

/// Resolves a path from a length.
pub fn usize_value(value: usize, indeces: VecDeque<Index>) -> (result: Result<String, Error>)
    ensures
        text_result(result) == resolution(
            ValueView::Integer(value as nat),
            indices_view(indeces@),
        ),
{
    u64_value(value as u64, indeces)
}

impl DateTimeUtc {
    /// Resolves a path from the instant.
    pub fn indexed_string_value(&self, indeces: VecDeque<Index>) -> (result: Result<String, Error>)
        ensures
            text_result(result) == resolution(
                ValueView::DateTimeUtc(self@),
                indices_view(indeces@),
            ),
    {
        proof {
            lemma_scalar_resolution(ValueView::DateTimeUtc(self@), indices_view(indeces@));
        }
        let mut text = String::new();
        self.push_to(&mut text);
        raw_value(text, Type::DateTimeUtc, indeces)
    }
}

impl CompilerChannel {
    /// Resolves a path from the channel.
    pub fn indexed_string_value(&self, indeces: VecDeque<Index>) -> (result: Result<String, Error>)
        ensures
            text_result(result) == resolution(
                ValueView::CompilerChannel(*self),
                indices_view(indeces@),
            ),
    {
        proof {
            lemma_scalar_resolution(ValueView::CompilerChannel(*self), indices_view(indeces@));
        }
        let mut text = String::new();
        self.push_to(&mut text);
        raw_value(text, Type::CompilerChannel, indeces)
    }
}

/// Resolves a path from a string that may be absent.
pub fn option_string_value(value: &Option<String>, indeces: VecDeque<Index>) -> (result: Result<
    String,
    Error,
>)
    ensures
        text_result(result) == resolution(
            optional_text(text_option_view(*value)),
            indices_view(indeces@),
        ),
{
    let mut indeces = indeces;
    let ghost before = indeces@;
    proof {
        reveal_with_fuel(render_default, 2);
    }
    match indeces.pop_front() {
        None => match value {
            Some(text) => Ok(text.clone()),
            None => Ok("UNKNOWN".to_owned()),
        },
        Some(index) => {
            proof {
                lemma_front(before, index, indeces@);
            }
            match index {
                Index::Unwrap => match value {
                    Some(text) => string_value(text, indeces),
                    None => Err(Error::UnwrapOnAbsent),
                },
                other => Err(reject(Type::Optional, other)),
            }
        },
    }
}

/// Resolves a path from a version control system that may be absent.
pub fn option_versioncontrol_value(
    value: &Option<VersionControl>,
    indeces: VecDeque<Index>,
) -> (result: Result<String, Error>)
    ensures
        text_result(result) == resolution(
            optional_version_control(version_control_option_view(*value)),
            indices_view(indeces@),
        ),
{
    let mut indeces = indeces;
    let ghost before = indeces@;
    proof {
        reveal_with_fuel(render_default, 2);
    }
    match indeces.pop_front() {
        None => match value {
            Some(version_control) => {
                let mut text = String::new();
                version_control.push_to(&mut text);
                Ok(text)
            },
            None => Ok("UNKNOWN".to_owned()),
        },
        Some(index) => {
            proof {
                lemma_front(before, index, indeces@);
            }
            match index {
                Index::Unwrap => match value {
                    Some(version_control) => version_control.indexed_string_value(indeces),
                    None => Err(Error::UnwrapOnAbsent),
                },
                other => Err(reject(Type::Optional, other)),
            }
        },
    }
}

/// Resolves a path from a sequence of `length` elements whose text is
/// `text`.
fn sequence_value(
    text: String,
    length: usize,
    Ghost(items): Ghost<Seq<ValueView>>,
    indeces: VecDeque<Index>,
) -> (result: Result<String, Error>)
    requires
        text@ == render_default(ValueView::Sequence(items)),
        length == items.len(),
    ensures
        text_result(result) == resolution(ValueView::Sequence(items), indices_view(indeces@)),
{
    let mut indeces = indeces;
    let ghost before = indeces@;
    match indeces.pop_front() {
        None => Ok(text),
        Some(index) => {
            proof {
                lemma_front(before, index, indeces@);
            }
            if is_len(&index) {
                usize_value(length, indeces)
            } else {
                Err(reject(Type::Sequence, index))
            }
        },
    }
}

/// Resolves a path from a list of strings.
pub fn vec_string_value(value: &Vec<String>, indeces: VecDeque<Index>) -> (result: Result<
    String,
    Error,
>)
    ensures
        text_result(result) == resolution(
            text_sequence(strings_view(value@)),
            indices_view(indeces@),
        ),
{
    let text = text_sequence_value(value).to_text();
    sequence_value(text, value.len(), Ghost(text_sequence(strings_view(value@))->Sequence_0), indeces)
}

/// Resolves a path from the identifiers of a version.
pub fn vec_identifier_value(value: &Vec<Identifier>, indeces: VecDeque<Index>) -> (result: Result<
    String,
    Error,
>)
    ensures
        text_result(result) == resolution(
            identifier_sequence(identifiers_view(value@)),
            indices_view(indeces@),
        ),
{
    let text = identifier_sequence_value(value).to_text();
    sequence_value(text, value.len(), Ghost(identifier_sequence(identifiers_view(value@))->Sequence_0), indeces)
}

/// Resolves a path from a list of crates.
pub fn vec_crate_value(value: &Vec<CrateInfo>, indeces: VecDeque<Index>) -> (result: Result<
    String,
    Error,
>)
    ensures
        text_result(result) == resolution(
            crate_sequence(crates_view(value@)),
            indices_view(indeces@),
        ),
{
    let text = crate_sequence_value(value).to_text();
    sequence_value(text, value.len(), Ghost(crate_sequence(crates_view(value@))->Sequence_0), indeces)
}

impl Version {
    /// Resolves a path from the version.
    pub fn indexed_string_value(&self, indeces: VecDeque<Index>) -> (result: Result<String, Error>)
        ensures
            text_result(result) == resolution(ValueView::Version(self@), indices_view(indeces@)),
    {
        let mut indeces = indeces;
        let ghost before = indeces@;
        match indeces.pop_front() {
            None => {
                let mut text = String::new();
                self.push_to(&mut text);
                Ok(text)
            },
            Some(index) => {
                proof {
                    lemma_front(before, index, indeces@);
                }
                match index {
                    Index::Field(id) => {
                        if same_text(id.as_str(), "major") {
                            u64_value(self.major, indeces)
                        } else if same_text(id.as_str(), "minor") {
                            u64_value(self.minor, indeces)
                        } else if same_text(id.as_str(), "patch") {
                            u64_value(self.patch, indeces)
                        } else if same_text(id.as_str(), "pre") {
                            vec_identifier_value(&self.pre, indeces)
                        } else if same_text(id.as_str(), "build") {
                            vec_identifier_value(&self.build, indeces)
                        } else {
                            Err(reject(Type::Version, Index::Field(id)))
                        }
                    },
                    other => Err(reject(Type::Version, other)),
                }
            },
        }
    }
}

impl CrateInfo {
    /// Resolves a path from the crate.
    pub fn indexed_string_value(&self, indeces: VecDeque<Index>) -> (result: Result<String, Error>)
        ensures
            text_result(result) == resolution(ValueView::CrateInfo(self@), indices_view(indeces@)),
    {
        let mut indeces = indeces;
        let ghost before = indeces@;
        match indeces.pop_front() {
            None => {
                let mut text = String::new();
                self.push_to(&mut text);
                Ok(text)
            },
            Some(index) => {
                proof {
                    lemma_front(before, index, indeces@);
                }
                match index {
                    Index::Field(id) => {
                        if same_text(id.as_str(), "name") {
                            string_value(&self.name, indeces)
                        } else if same_text(id.as_str(), "version") {
                            self.version.indexed_string_value(indeces)
                        } else if same_text(id.as_str(), "authors") {
                            vec_string_value(&self.authors, indeces)
                        } else if same_text(id.as_str(), "license") {
                            option_string_value(&self.license, indeces)
                        } else if same_text(id.as_str(), "dependencies") {
                            proof {
                                lemma_crate_view(*self);
                            }
                            vec_crate_value(&self.dependencies, indeces)
                        } else {
                            Err(reject(Type::CrateInfo, Index::Field(id)))
                        }
                    },
                    other => Err(reject(Type::CrateInfo, other)),
                }
            },
        }
    }
}

impl CompilerInfo {
    /// Resolves a path from the compiler.
    pub fn indexed_string_value(&self, indeces: VecDeque<Index>) -> (result: Result<String, Error>)
        ensures
            text_result(result) == resolution(
                ValueView::CompilerInfo(self@),
                indices_view(indeces@),
            ),
    {
        let mut indeces = indeces;
        let ghost before = indeces@;
        match indeces.pop_front() {
            None => {
                let mut text = String::new();
                self.push_to(&mut text);
                Ok(text)
            },
            Some(index) => {
                proof {
                    lemma_front(before, index, indeces@);
                }
                match index {
                    Index::Field(id) => {
                        if same_text(id.as_str(), "version") {
                            self.version.indexed_string_value(indeces)
                        } else if same_text(id.as_str(), "commit_id") {
                            option_string_value(&self.commit_id, indeces)
                        } else if same_text(id.as_str(), "commit_date") {
                            option_string_value(&self.commit_date, indeces)
                        } else if same_text(id.as_str(), "channel") {
                            self.channel.indexed_string_value(indeces)
                        } else if same_text(id.as_str(), "host_triple") {
                            string_value(&self.host_triple, indeces)
                        } else if same_text(id.as_str(), "target_triple") {
                            string_value(&self.target_triple, indeces)
                        } else {
                            Err(reject(Type::CompilerInfo, Index::Field(id)))
                        }
                    },
                    other => Err(reject(Type::CompilerInfo, other)),
                }
            },
        }
    }
}

impl GitInfo {
    /// Resolves a path from the working copy.
    pub fn indexed_string_value(&self, indeces: VecDeque<Index>) -> (result: Result<String, Error>)
        ensures
            text_result(result) == resolution(ValueView::GitInfo(self@), indices_view(indeces@)),
    {
        let mut indeces = indeces;
        let ghost before = indeces@;
        match indeces.pop_front() {
            None => {
                let mut text = String::new();
                self.push_to(&mut text);
                Ok(text)
            },
            Some(index) => {
                proof {
                    lemma_front(before, index, indeces@);
                }
                match index {
                    Index::Field(id) => {
                        if same_text(id.as_str(), "commit_id") {
                            string_value(&self.commit_id, indeces)
                        } else if same_text(id.as_str(), "commit_short_id") {
                            option_string_value(&self.commit_short_id, indeces)
                        } else if same_text(id.as_str(), "commit_date") || same_text(
                            id.as_str(),
                            "commit_timestamp",
                        ) {
                            string_value(&self.commit_date, indeces)
                        } else if same_text(id.as_str(), "dirty") {
                            bool_value(self.dirty, indeces)
                        } else if same_text(id.as_str(), "branch") {
                            option_string_value(&self.branch, indeces)
                        } else if same_text(id.as_str(), "tags") {
                            vec_string_value(&self.tags, indeces)
                        } else {
                            Err(reject(Type::GitInfo, Index::Field(id)))
                        }
                    },
                    other => Err(reject(Type::GitInfo, other)),
                }
            },
        }
    }
}

impl VersionControl {
    /// Resolves a path from the version control system: from the record of
    /// its one variant.
    pub fn indexed_string_value(&self, indeces: VecDeque<Index>) -> (result: Result<String, Error>)
        ensures
            text_result(result) == resolution(
                ValueView::VersionControl(self@),
                indices_view(indeces@),
            ),
    {
        match self {
            VersionControl::Git(value) => value.indexed_string_value(indeces),
        }
    }
}

impl BuildInfo {
    /// Resolves a path from the metadata as a whole.
    pub fn indexed_string_value(&self, indeces: VecDeque<Index>) -> (result: Result<String, Error>)
        ensures
            text_result(result) == resolution(ValueView::BuildInfo(self@), indices_view(indeces@)),
    {
        let mut indeces = indeces;
        let ghost before = indeces@;
        match indeces.pop_front() {
            None => {
                let mut text = String::new();
                self.push_to(&mut text);
                Ok(text)
            },
            Some(index) => {
                proof {
                    lemma_front(before, index, indeces@);
                }
                match index {
                    Index::Field(id) => {
                        if same_text(id.as_str(), "timestamp") {
                            self.timestamp.indexed_string_value(indeces)
                        } else if same_text(id.as_str(), "profile") {
                            string_value(&self.profile, indeces)
                        } else if same_text(id.as_str(), "crate_info") {
                            self.crate_info.indexed_string_value(indeces)
                        } else if same_text(id.as_str(), "compiler") {
                            self.compiler.indexed_string_value(indeces)
                        } else if same_text(id.as_str(), "version_control") {
                            option_versioncontrol_value(&self.version_control, indeces)
                        } else {
                            Err(reject(Type::BuildInfo, Index::Field(id)))
                        }
                    },
                    other => Err(reject(Type::BuildInfo, other)),
                }
            },
        }
    }
}

/// Resolves the path `indeces` against the metadata `this`: the text of the
/// value at the end of the path.
pub fn indexed_string_value(this: &BuildInfo, indeces: VecDeque<Index>) -> (result: Result<
    String,
    Error,
>)
    ensures
        text_result(result) == resolution(ValueView::BuildInfo(this@), indices_view(indeces@)),
{
    this.indexed_string_value(indeces)
}

/// The segments that a text writes from `pos` on, after the segments `acc`
/// that were read before, and the position behind them: `?`, `.name` and
/// `.name()`, where whitespace may stand between the `.` and the name.
pub open spec fn path_segments(s: Seq<char>, pos: int, acc: Seq<IndexView>) -> Result<
    (Seq<IndexView>, int),
    SyntaxError,
>
    decreases remaining(s, pos),
{
    if at(s, pos, '?') {
        path_segments(s, pos + 1, acc.push(IndexView::Unwrap))
    } else if at(s, pos, '.') {
        let q = pos + 1 + ws(s, pos + 1);
        match identifier(s, q) {
            Ok((name, n)) => {
                if at(s, q + n, '(') {
                    if at(s, q + n + 1, ')') {
                        path_segments(
                            s,
                            q + n + 2,
                            acc.push(IndexView::Function(name, Seq::empty())),
                        )
                    } else {
                        Err(unexpected(s, q + n + 1))
                    }
                } else {
                    path_segments(s, q + n, acc.push(IndexView::Field(name)))
                }
            },
            Err(e) => Err(e),
        }
    } else {
        Ok((acc, pos))
    }
}

/// The segments that a text writes: the whole text has to be a path.
pub open spec fn segments(s: Seq<char>) -> Result<Seq<IndexView>, SyntaxError> {
    match path_segments(s, 0, Seq::empty()) {
        Ok((indices, end)) => if end == s.len() {
            Ok(indices)
        } else {
            Err(unexpected(s, end))
        },
        Err(e) => Err(e),
    }
}

/// Reads the segments of a path from `pos` on: the segments, and the
/// position behind them.
pub fn parse_segments(text: &Vec<char>, pos: usize) -> (result: Result<
    (VecDeque<Index>, usize),
    SyntaxError,
>)
    ensures
        match result {
            Ok((indeces, end)) => pos <= end && (pos <= text.len() ==> end <= text.len())
                && path_segments(text@, pos as int, Seq::empty()) == Ok::<
                (Seq<IndexView>, int),
                SyntaxError,
            >((indices_view(indeces@), end as int)),
            Err(e) => path_segments(text@, pos as int, Seq::empty()) == Err::<
                (Seq<IndexView>, int),
                SyntaxError,
            >(e),
        },
{
    let mut trace: VecDeque<Index> = VecDeque::new();
    let mut i: usize = pos;
    proof {
        assert(indices_view(trace@) =~= Seq::<IndexView>::empty());
    }
    loop
        invariant
            pos <= i,
            pos <= text.len() ==> i <= text.len(),
            path_segments(text@, pos as int, Seq::empty()) == path_segments(
                text@,
                i as int,
                indices_view(trace@),
            ),
        decreases text.len() - i,
    {
        let ghost before = indices_view(trace@);
        if is_at(text, i, '?') {
            trace.push_back(Index::Unwrap);
            proof {
                assert(indices_view(trace@) =~= before.push(IndexView::Unwrap));
            }
            i = i + 1;
        } else if is_at(text, i, '.') {
            let q = skip_ws(text, i + 1);
            match parse_id(text, q) {
                Ok((id, end)) => {
                    if is_at(text, end, '(') {
                        if is_at(text, end + 1, ')') {
                            let args: Vec<String> = Vec::new();
                            let ghost view = IndexView::Function(id@, Seq::empty());
                            proof {
                                assert(strings_view(args@) =~= Seq::<Seq<char>>::empty());
                            }
                            trace.push_back(Index::Function(id, args));
                            proof {
                                assert(indices_view(trace@) =~= before.push(view));
                            }
                            i = end + 2;
                        } else {
                            return Err(unexpected_at(text, end + 1));
                        }
                    } else {
                        let ghost view = IndexView::Field(id@);
                        trace.push_back(Index::Field(id));
                        proof {
                            assert(indices_view(trace@) =~= before.push(view));
                        }
                        i = end;
                    }
                },
                Err(e) => {
                    return Err(e);
                },
            }
        } else {
            return Ok((trace, i));
        }
    }
}

/// Splits the text of a path into its segments.
pub fn parse_path(text: &str) -> (result: Result<VecDeque<Index>, SyntaxError>)
    ensures
        match result {
            Ok(indeces) => segments(text@) == Ok::<Seq<IndexView>, SyntaxError>(
                indices_view(indeces@),
            ),
            Err(e) => segments(text@) == Err::<Seq<IndexView>, SyntaxError>(e),
        },
{
    let chars = chars_of(text);
    match parse_segments(&chars, 0) {
        Ok((indeces, end)) => if end == chars.len() {
            Ok(indeces)
        } else {
            Err(unexpected_at(&chars, end))
        },
        Err(e) => Err(e),
    }
}

} // verus!
