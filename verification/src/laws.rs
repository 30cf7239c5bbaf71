//! What holds of the language as a whole.
//!
//! Each proof function states one property over the specification functions
//! that the contracts of the library use, so that it holds of every result
//! the library returns.

use crate::error::{ErrorKind, ErrorView, OperationView, SyntaxError};
use crate::eval::{
    apply_suffix,
    eval_args,
    eval_atom,
    eval_expr,
    eval_prefix,
    evaluation,
    lemma_args_failure,
};
use crate::integer::{decimal_digits, decimal_text, digits_below, lemma_decimal_digits};
use crate::interpolate::{hole, hole_text, interpolation, unmatched_closing};
use crate::metadata::{BuildInfoView, VersionControlView};
use crate::parse::{
    at,
    atom,
    digit_run,
    digit_value,
    expression,
    ident_len,
    identifier,
    named_atom,
    remaining,
    string_body,
    suffix,
    suffixes,
    ws,
};
use crate::path::{path_segments, resolution, step};
use crate::render::{item_texts, render_default};
use crate::syntax::{AtomicExprView, ExprView, IndexView, SuffixView};
use crate::text::{ascii_digit, decimal, digit_char, whitespace};
use crate::value::{
    call_spec,
    field,
    text_sequence,
    OP_ARRAY_INDEX,
    OP_FIELD_ACCESS,
    OP_TUPLE_INDEX,
    OP_UNWRAP,
    receiver,
    type_of,
    ValueView,
};
use vstd::prelude::*;

verus! {

/// The reserved names of operations differ from one another and from the
/// names of the calls that values know.
pub proof fn lemma_operation_names()
    ensures
        OP_FIELD_ACCESS@ != OP_TUPLE_INDEX@,
        OP_FIELD_ACCESS@ != OP_ARRAY_INDEX@,
        OP_FIELD_ACCESS@ != OP_UNWRAP@,
        OP_TUPLE_INDEX@ != OP_ARRAY_INDEX@,
        OP_TUPLE_INDEX@ != OP_UNWRAP@,
        OP_ARRAY_INDEX@ != OP_UNWRAP@,
        OP_FIELD_ACCESS@ != "len"@,
        OP_FIELD_ACCESS@ != "to_string"@,
        OP_UNWRAP@ != "len"@,
        OP_UNWRAP@ != "to_string"@,
        OP_TUPLE_INDEX@ != "len"@,
        OP_TUPLE_INDEX@ != "to_string"@,
        OP_ARRAY_INDEX@ != "len"@,
        OP_ARRAY_INDEX@ != "to_string"@,
        "len"@ != "to_string"@,
{
    reveal_strlit("!field");
    reveal_strlit("!tuple_index");
    reveal_strlit("!array_index");
    reveal_strlit("?");
    reveal_strlit("len");
    reveal_strlit("to_string");
    assert("?"@.len() == 1);
    assert("len"@.len() == 3);
    assert("to_string"@.len() == 9);
    assert("!tuple_index"@[1] == 't');
    assert("!array_index"@[1] == 'a');
}

/// Field access on a value whose kind has no field of that name fails, and
/// the failure names the kind and the field.
pub proof fn lemma_missing_field(v: ValueView, name: Seq<char>, root: BuildInfoView)
    requires
        field(receiver(v), name) is None,
    ensures
        call_spec(v, OP_FIELD_ACCESS@, seq![ValueView::Str(name)]) == Err::<ValueView, ErrorView>(
            ErrorView::UnsupportedOperation {
                kind: type_of(receiver(v)),
                operation: OperationView::Field(name),
            },
        ),
        apply_suffix(v, SuffixView::Field(name), root) == call_spec(
            v,
            OP_FIELD_ACCESS@,
            seq![ValueView::Str(name)],
        ),
        call_spec(v, OP_FIELD_ACCESS@, seq![ValueView::Str(name)])->Err_0.kind()
            == ErrorKind::UnsupportedOperation,
{
    lemma_operation_names();
}

/// `?` on an absent value fails as an unwrap of nothing; `?` on a present
/// value yields the value inside.
pub proof fn lemma_unwrap(inner: Option<Box<ValueView>>, root: BuildInfoView)
    ensures
        apply_suffix(ValueView::Optional(inner), SuffixView::Unwrap, root) == match inner {
            Some(v) => Ok::<ValueView, ErrorView>(*v),
            None => Err::<ValueView, ErrorView>(ErrorView::UnwrapOnAbsent),
        },
        step(ValueView::Optional(inner), IndexView::Unwrap) == apply_suffix(
            ValueView::Optional(inner),
            SuffixView::Unwrap,
            root,
        ),
        inner is None ==> apply_suffix(
            ValueView::Optional(inner),
            SuffixView::Unwrap,
            root,
        )->Err_0.kind() == ErrorKind::UnwrapOnAbsent,
{
}

/// An expression that ends in `?` has the value inside the optional value
/// that the expression before the `?` has, and fails where that is absent.
pub proof fn lemma_unwrap_expression(e: ExprView, root: BuildInfoView)
    requires
        e.suffixes.len() > 0,
        e.suffixes.last() == SuffixView::Unwrap,
        eval_expr(ExprView { atom: e.atom, suffixes: e.suffixes.drop_last() }, root) matches Ok(
            ValueView::Optional(_),
        ),
    ensures
        eval_expr(e, root) == match eval_expr(
            ExprView { atom: e.atom, suffixes: e.suffixes.drop_last() },
            root,
        )->Ok_0->Optional_0 {
            Some(v) => Ok::<ValueView, ErrorView>(*v),
            None => Err::<ValueView, ErrorView>(ErrorView::UnwrapOnAbsent),
        },
{
    let shorter = ExprView { atom: e.atom, suffixes: e.suffixes.drop_last() };
    lemma_prefix_of_shorter(e, shorter, shorter.suffixes.len(), root);
}

/// The value after the first `n` suffixes depends on those suffixes only.
pub proof fn lemma_prefix_of_shorter(e: ExprView, shorter: ExprView, n: nat, root: BuildInfoView)
    requires
        shorter.atom == e.atom,
        n <= shorter.suffixes.len() <= e.suffixes.len(),
        forall|i: int| 0 <= i < n ==> shorter.suffixes[i] == e.suffixes[i],
    ensures
        eval_prefix(e, n, root) == eval_prefix(shorter, n, root),
    decreases n,
{
    if n > 0 {
        lemma_prefix_of_shorter(e, shorter, (n - 1) as nat, root);
    }
}

/// Arguments are evaluated from left to right, up to the first that fails:
/// its failure is the failure of the arguments as a whole, of a call of a
/// function or macro with them, and of a call on a value with them.
pub proof fn lemma_arguments_fail_fast(
    args: Seq<ExprView>,
    k: int,
    name: Seq<char>,
    v: ValueView,
    root: BuildInfoView,
)
    requires
        0 <= k < args.len(),
        forall|j: int| 0 <= j < k ==> eval_expr(#[trigger] args[j], root) is Ok,
        eval_expr(args[k], root) is Err,
    ensures
        eval_args(args, args.len(), root) == Err::<Seq<ValueView>, ErrorView>(
            eval_expr(args[k], root)->Err_0,
        ),
        eval_atom(AtomicExprView::FunctionCall(name, args), root) == eval_expr(args[k], root),
        eval_atom(AtomicExprView::MacroCall(name, args), root) == eval_expr(args[k], root),
        apply_suffix(v, SuffixView::FunctionCall(name, args), root) == eval_expr(args[k], root),
{
    lemma_arguments_succeed(args, k as nat, root);
    lemma_args_failure(args, (k + 1) as nat, args.len(), root);
}

/// The first `n` arguments have values where each of them has one.
pub proof fn lemma_arguments_succeed(args: Seq<ExprView>, n: nat, root: BuildInfoView)
    requires
        n <= args.len(),
        forall|j: int| 0 <= j < n ==> eval_expr(#[trigger] args[j], root) is Ok,
    ensures
        eval_args(args, n, root) is Ok,
        eval_args(args, n, root)->Ok_0.len() == n,
        forall|j: int|
            0 <= j < n ==> eval_args(args, n, root)->Ok_0[j] == eval_expr(
                #[trigger] args[j],
                root,
            )->Ok_0,
    decreases n,
{
    if n > 0 {
        lemma_arguments_succeed(args, (n - 1) as nat, root);
    }
}

/// What follows the first failing argument has no part in the result: two
/// lists of arguments that agree up to it fail alike.
pub proof fn lemma_later_arguments_unused(
    args: Seq<ExprView>,
    other: Seq<ExprView>,
    k: int,
    root: BuildInfoView,
)
    requires
        0 <= k < args.len(),
        k < other.len(),
        forall|j: int| 0 <= j <= k ==> args[j] == other[j],
        forall|j: int| 0 <= j < k ==> eval_expr(#[trigger] args[j], root) is Ok,
        eval_expr(args[k], root) is Err,
    ensures
        eval_args(args, args.len(), root) == eval_args(other, other.len(), root),
{
    let name = Seq::<char>::empty();
    let v = ValueView::Bool(true);
    lemma_arguments_fail_fast(args, k, name, v, root);
    assert forall|j: int| 0 <= j < k implies eval_expr(#[trigger] other[j], root) is Ok by {
    }
    lemma_arguments_fail_fast(other, k, name, v, root);
}

/// An empty sequence is written as the empty text; any other as the
/// sequence without its last element, then `, ` unless the element is the
/// only one, then the element. So no separator follows the last element.
pub proof fn lemma_sequence_text(items: Seq<ValueView>)
    ensures
        items.len() == 0 ==> render_default(ValueView::Sequence(items)) == Seq::<char>::empty(),
        items.len() == 1 ==> render_default(ValueView::Sequence(items)) == render_default(
            items[0],
        ),
        items.len() > 1 ==> render_default(ValueView::Sequence(items)) == render_default(
            ValueView::Sequence(items.drop_last()),
        ) + ", "@ + render_default(items.last()),
{
    reveal_with_fuel(render_default, 2);
    reveal_with_fuel(item_texts, 2);
    if items.len() > 1 {
        assert(item_texts(items).drop_last() =~= item_texts(items.drop_last()));
    } else if items.len() == 1 {
    }
}

/// A sequence of three elements is written as `a, b, c`.
pub proof fn lemma_three_items(a: ValueView, b: ValueView, c: ValueView)
    ensures
        render_default(ValueView::Sequence(seq![a, b, c])) == render_default(a) + ", "@
            + render_default(b) + ", "@ + render_default(c),
{
    let items = seq![a, b, c];
    lemma_sequence_text(items);
    lemma_sequence_text(items.drop_last());
    lemma_sequence_text(items.drop_last().drop_last());
}

/// The empty path yields the text of the metadata: that of the crate, and
/// after it ` built from ` and the text of the working copy where the
/// sources were under version control.
pub proof fn lemma_empty_path(root: BuildInfoView)
    ensures
        resolution(ValueView::BuildInfo(root), Seq::empty()) == Ok::<Seq<char>, ErrorView>(
            match root.version_control {
                Some(VersionControlView::Git(git)) => root.crate_info.text() + " built from "@
                    + git.text(),
                None => root.crate_info.text(),
            },
        ),
{
    match root.version_control {
        Some(VersionControlView::Git(git)) => {
            assert(root.crate_info.text() + (" built from "@ + git.text()) =~= root.crate_info.text()
                + " built from "@ + git.text());
        },
        None => {
        },
    }
}

/// Text without braces is copied as it stands, so what a template yields is
/// its plain beginning followed by what the rest yields.
pub proof fn lemma_plain_prefix(s: Seq<char>, from: int, pos: int, root: BuildInfoView)
    requires
        0 <= from <= pos <= s.len(),
        forall|i: int| from <= i < pos ==> #[trigger] s[i] != '{' && s[i] != '}',
    ensures
        interpolation(s, from, root) == crate::interpolate::followed_by(
            s.subrange(from, pos),
            interpolation(s, pos, root),
        ),
    decreases pos - from,
{
    if from < pos {
        lemma_plain_prefix(s, from + 1, pos, root);
        crate::interpolate::lemma_followed_by(
            seq![s[from]],
            s.subrange(from + 1, pos),
            interpolation(s, pos, root),
        );
        assert(seq![s[from]] + s.subrange(from + 1, pos) =~= s.subrange(from, pos));
    } else {
        match interpolation(s, pos, root) {
            Ok(more) => {
            },
            Err(_) => {},
        }
    }
}

/// Whether the scan of a template that begins at `from` comes to `pos`:
/// whether a character, a doubled brace or a hole of the template begins at
/// `pos`, and everything between `from` and `pos` was copied or filled
/// without a failure.
pub open spec fn reaches(s: Seq<char>, from: int, pos: int, root: BuildInfoView) -> bool
    decreases remaining(s, from),
{
    if from == pos {
        true
    } else if !(0 <= from < pos) || from >= s.len() {
        false
    } else if s[from] == '{' {
        if at(s, from + 1, '{') {
            reaches(s, from + 2, pos, root)
        } else {
            match hole_text(s, from + 1, root) {
                Ok((_, n)) => reaches(s, from + 1 + n, pos, root),
                Err(_) => false,
            }
        }
    } else if s[from] == '}' {
        at(s, from + 1, '}') && reaches(s, from + 2, pos, root)
    } else {
        reaches(s, from + 1, pos, root)
    }
}

/// A failure at a place that the scan reaches is the failure of the whole
/// template.
pub proof fn lemma_failure_where_reached(s: Seq<char>, from: int, pos: int, root: BuildInfoView)
    requires
        reaches(s, from, pos, root),
        interpolation(s, pos, root) is Err,
    ensures
        interpolation(s, from, root) == interpolation(s, pos, root),
    decreases remaining(s, from),
{
    if from != pos {
        if s[from] == '{' {
            if at(s, from + 1, '{') {
                lemma_failure_where_reached(s, from + 2, pos, root);
            } else {
                let n = hole_text(s, from + 1, root)->Ok_0.1;
                lemma_failure_where_reached(s, from + 1 + n, pos, root);
            }
        } else if s[from] == '}' {
            lemma_failure_where_reached(s, from + 2, pos, root);
        } else {
            lemma_failure_where_reached(s, from + 1, pos, root);
        }
    }
}

/// The scan reaches every place behind text without braces.
pub proof fn lemma_plain_text_is_reached(s: Seq<char>, from: int, pos: int, root: BuildInfoView)
    requires
        0 <= from <= pos <= s.len(),
        forall|i: int| from <= i < pos ==> #[trigger] s[i] != '{' && s[i] != '}',
    ensures
        reaches(s, from, pos, root),
    decreases pos - from,
{
    if from < pos {
        lemma_plain_text_is_reached(s, from + 1, pos, root);
    }
}

/// A `}` that the scan reaches and that is not doubled makes the template
/// fail with a syntax error at that `}`.
pub proof fn lemma_unmatched_closing_brace(s: Seq<char>, pos: int, root: BuildInfoView)
    requires
        reaches(s, 0, pos, root),
        at(s, pos, '}'),
        !at(s, pos + 1, '}'),
    ensures
        interpolation(s, 0, root) == Err::<Seq<char>, ErrorView>(
            ErrorView::Syntax(unmatched_closing(pos)),
        ),
        interpolation(s, 0, root)->Err_0.kind() == ErrorKind::SyntaxError,
{
    lemma_failure_where_reached(s, 0, pos, root);
}

/// A `{` that the scan reaches, that is not doubled and that no `}` follows
/// makes the template fail with a syntax error.
pub proof fn lemma_unmatched_opening_brace(s: Seq<char>, pos: int, root: BuildInfoView)
    requires
        reaches(s, 0, pos, root),
        at(s, pos, '{'),
        !at(s, pos + 1, '{'),
        forall|i: int| pos < i < s.len() ==> #[trigger] s[i] != '}',
    ensures
        interpolation(s, 0, root) is Err,
        interpolation(s, 0, root)->Err_0.kind() == ErrorKind::SyntaxError,
{
    assert(hole(s, pos + 1) is Err);
    lemma_failure_where_reached(s, 0, pos, root);
}

/// A doubled brace stands for one brace.
pub proof fn lemma_escaped_braces(root: BuildInfoView)
    ensures
        interpolation(seq!['{', '{'], 0, root) == Ok::<Seq<char>, ErrorView>(seq!['{']),
        interpolation(seq!['}', '}'], 0, root) == Ok::<Seq<char>, ErrorView>(seq!['}']),
{
    let open = seq!['{', '{'];
    assert(interpolation(open, 2, root) == Ok::<Seq<char>, ErrorView>(Seq::empty()));
    let close = seq!['}', '}'];
    assert(interpolation(close, 2, root) == Ok::<Seq<char>, ErrorView>(Seq::empty()));
}

/// Whether a name is none of the reserved names of operations.
pub open spec fn ordinary_name(name: Seq<char>) -> bool {
    &&& name != OP_FIELD_ACCESS@
    &&& name != OP_TUPLE_INDEX@
    &&& name != OP_ARRAY_INDEX@
    &&& name != OP_UNWRAP@
}

/// The suffix that a segment of a path is: `?` is `?`, `.name` is `.name`,
/// and `.name()` is `.name()`.
pub open spec fn suffix_of(index: IndexView) -> SuffixView {
    match index {
        IndexView::Unwrap => SuffixView::Unwrap,
        IndexView::Field(name) => SuffixView::Field(name),
        IndexView::Function(name, _) => SuffixView::FunctionCall(name, Seq::empty()),
    }
}

/// Whether a segment is one that a path and an expression take alike: a
/// call has no arguments and an ordinary name, and is not `to_string()`,
/// which values know and paths do not.
pub open spec fn written_segment(index: IndexView) -> bool {
    index matches IndexView::Function(name, args) ==> args.len() == 0 && ordinary_name(name)
        && name != "to_string"@
}

/// The expression that a path is: the metadata, followed by the segments as
/// suffixes.
pub open spec fn path_expression(indices: Seq<IndexView>) -> ExprView {
    ExprView {
        atom: AtomicExprView::BuildInfo,
        suffixes: Seq::new(indices.len(), |i: int| suffix_of(indices[i])),
    }
}

/// A segment of a path leads where the suffix that it is leads.
pub proof fn lemma_segment_is_suffix(v: ValueView, index: IndexView, root: BuildInfoView)
    requires
        written_segment(index),
    ensures
        step(v, index) == apply_suffix(v, suffix_of(index), root),
{
    lemma_operation_names();
    assert(eval_args(Seq::<ExprView>::empty(), 0, root) == Ok::<Seq<ValueView>, ErrorView>(
        Seq::empty(),
    ));
    match index {
        IndexView::Function(_, args) => {
            assert(text_sequence(args)->Sequence_0 =~= Seq::<ValueView>::empty());
        },
        _ => {},
    }
}

/// The value at the end of a path, where the path leads to one.
pub open spec fn destination(v: ValueView, indices: Seq<IndexView>) -> Result<ValueView, ErrorView>
    decreases indices.len(),
{
    if indices.len() == 0 {
        Ok(v)
    } else {
        match step(v, indices[0]) {
            Ok(next) => destination(next, indices.subrange(1, indices.len() as int)),
            Err(e) => Err(e),
        }
    }
}

/// The text at the end of a path is the text of the value at its end.
pub proof fn lemma_resolution_is_text(v: ValueView, indices: Seq<IndexView>)
    ensures
        resolution(v, indices) == match destination(v, indices) {
            Ok(last) => Ok::<Seq<char>, ErrorView>(render_default(last)),
            Err(e) => Err::<Seq<char>, ErrorView>(e),
        },
    decreases indices.len(),
{
    if indices.len() > 0 {
        match step(v, indices[0]) {
            Ok(next) => lemma_resolution_is_text(next, indices.subrange(1, indices.len() as int)),
            Err(_) => {},
        }
    }
}

/// A path with one segment more leads one step further.
proof fn lemma_destination_step(v: ValueView, indices: Seq<IndexView>, last: IndexView)
    ensures
        destination(v, indices.push(last)) == match destination(v, indices) {
            Ok(w) => step(w, last),
            Err(e) => Err::<ValueView, ErrorView>(e),
        },
    decreases indices.len(),
{
    let longer = indices.push(last);
    if indices.len() == 0 {
        assert(longer.subrange(1, longer.len() as int) =~= Seq::<IndexView>::empty());
        match step(v, last) {
            Ok(w) => {
                assert(destination(w, Seq::<IndexView>::empty()) == Ok::<ValueView, ErrorView>(w));
            },
            Err(_) => {},
        }
    } else {
        assert(longer.subrange(1, longer.len() as int) =~= indices.subrange(
            1,
            indices.len() as int,
        ).push(last));
        match step(v, indices[0]) {
            Ok(next) => lemma_destination_step(
                next,
                indices.subrange(1, indices.len() as int),
                last,
            ),
            Err(_) => {},
        }
    }
}

/// The first `n` suffixes of the expression that a path is lead where the
/// first `n` segments of the path lead.
proof fn lemma_path_prefix(indices: Seq<IndexView>, n: nat, root: BuildInfoView)
    requires
        n <= indices.len(),
        forall|i: int| 0 <= i < indices.len() ==> written_segment(#[trigger] indices[i]),
    ensures
        eval_prefix(path_expression(indices), n, root) == destination(
            ValueView::BuildInfo(root),
            indices.take(n as int),
        ),
    decreases n,
{
    let e = path_expression(indices);
    if n > 0 {
        lemma_path_prefix(indices, (n - 1) as nat, root);
        let before = indices.take(n - 1);
        assert(indices.take(n as int) =~= before.push(indices[n - 1]));
        lemma_destination_step(ValueView::BuildInfo(root), before, indices[n - 1]);
        match destination(ValueView::BuildInfo(root), before) {
            Ok(w) => lemma_segment_is_suffix(w, indices[n - 1], root),
            Err(_) => {},
        }
    } else {
        assert(eval_prefix(e, 0, root) == eval_atom(e.atom, root));
    }
}

/// Resolving a path yields what evaluating it as an expression and writing
/// the value yields: the text of the same value, or the same failure.
pub proof fn lemma_path_is_expression(indices: Seq<IndexView>, root: BuildInfoView)
    requires
        forall|i: int| 0 <= i < indices.len() ==> written_segment(#[trigger] indices[i]),
    ensures
        resolution(ValueView::BuildInfo(root), indices) == match eval_expr(
            path_expression(indices),
            root,
        ) {
            Ok(v) => Ok::<Seq<char>, ErrorView>(render_default(v)),
            Err(e) => Err::<Seq<char>, ErrorView>(e),
        },
{
    lemma_path_prefix(indices, indices.len(), root);
    assert(indices.take(indices.len() as int) =~= indices);
    lemma_resolution_is_text(ValueView::BuildInfo(root), indices);
}

/// The suffixes that the segments of a path are.
pub open spec fn path_suffixes(indices: Seq<IndexView>) -> Seq<SuffixView> {
    path_expression(indices).suffixes
}

/// Where the grammar of paths reads segments, the grammar of expressions
/// reads the same as suffixes, up to the same place; unless a `[` stands
/// there, which begins a suffix and no segment.
pub proof fn lemma_segments_are_suffixes(s: Seq<char>, pos: int, acc: Seq<IndexView>)
    requires
        path_segments(s, pos, acc) is Ok,
        !at(s, path_segments(s, pos, acc)->Ok_0.1, '['),
    ensures
        pos <= path_segments(s, pos, acc)->Ok_0.1,
        suffixes(s, pos, path_suffixes(acc)) == Ok::<(Seq<SuffixView>, int), SyntaxError>(
            (
                path_suffixes(path_segments(s, pos, acc)->Ok_0.0),
                path_segments(s, pos, acc)->Ok_0.1,
            ),
        ),
    decreases remaining(s, pos),
{
    if at(s, pos, '?') {
        let more = acc.push(IndexView::Unwrap);
        lemma_segments_are_suffixes(s, pos + 1, more);
        assert(path_suffixes(more) =~= path_suffixes(acc).push(SuffixView::Unwrap));
    } else if at(s, pos, '.') {
        let q = pos + 1 + ws(s, pos + 1);
        let (name, n) = identifier(s, q)->Ok_0;
        assert(!(0 <= pos + 1 < s.len() && ascii_digit(s[pos + 1]))) by {
            if 0 <= pos + 1 < s.len() && ascii_digit(s[pos + 1]) {
                assert(ws(s, pos + 1) == 0);
            }
        }
        if at(s, q + n, '(') {
            let more = acc.push(IndexView::Function(name, Seq::empty()));
            lemma_segments_are_suffixes(s, q + n + 2, more);
            assert(path_suffixes(more) =~= path_suffixes(acc).push(
                SuffixView::FunctionCall(name, Seq::empty()),
            ));
            assert(suffix(s, pos) == Ok::<Option<(SuffixView, nat)>, SyntaxError>(
                Some((SuffixView::FunctionCall(name, Seq::empty()), (q + n + 2 - pos) as nat)),
            ));
        } else {
            let more = acc.push(IndexView::Field(name));
            lemma_segments_are_suffixes(s, q + n, more);
            assert(path_suffixes(more) =~= path_suffixes(acc).push(SuffixView::Field(name)));
            assert(suffix(s, pos) == Ok::<Option<(SuffixView, nat)>, SyntaxError>(
                Some((SuffixView::Field(name), (q + n - pos) as nat)),
            ));
        }
    } else {
        if 0 <= pos < s.len() {
            assert(suffix(s, pos) == Ok::<Option<(SuffixView, nat)>, SyntaxError>(None));
        }
    }
}

/// A hole that holds a path yields what resolving the path yields: the same
/// text, or the same failure.
pub proof fn lemma_path_in_hole(s: Seq<char>, pos: int, root: BuildInfoView)
    requires
        0 <= pos,
        path_segments(s, pos, Seq::empty()) is Ok,
        at(s, path_segments(s, pos, Seq::empty())->Ok_0.1, '}'),
        forall|i: int|
            0 <= i < path_segments(s, pos, Seq::empty())->Ok_0.0.len() ==> written_segment(
                #[trigger] path_segments(s, pos, Seq::empty())->Ok_0.0[i],
            ),
    ensures
        hole_text(s, pos, root) == match resolution(
            ValueView::BuildInfo(root),
            path_segments(s, pos, Seq::empty())->Ok_0.0,
        ) {
            Ok(text) => Ok::<(Seq<char>, nat), ErrorView>(
                (text, (path_segments(s, pos, Seq::empty())->Ok_0.1 + 1 - pos) as nat),
            ),
            Err(e) => Err::<(Seq<char>, nat), ErrorView>(e),
        },
{
    let (indices, end) = path_segments(s, pos, Seq::empty())->Ok_0;
    lemma_segments_are_suffixes(s, pos, Seq::empty());
    assert(path_suffixes(Seq::<IndexView>::empty()) =~= Seq::<SuffixView>::empty());
    lemma_path_is_expression(indices, root);
    assert(expression(s, pos, true) == Ok::<(ExprView, nat), SyntaxError>(
        (path_expression(indices), (end - pos) as nat),
    ));
}

/// The literals `true` and `false` have the truth values as their values,
/// and these are written as the literals.
pub proof fn lemma_bool_literal(b: bool, root: BuildInfoView)
    ensures
        evaluation(render_default(ValueView::Bool(b)), root) == Ok::<ValueView, ErrorView>(
            ValueView::Bool(b),
        ),
{
    reveal_strlit("true");
    reveal_strlit("false");
    reveal_with_fuel(ident_len, 6);
    let s = render_default(ValueView::Bool(b));
    if b {
        assert(s.subrange(0, 4) =~= s);
    } else {
        assert(s.subrange(0, 5) =~= s);
    }
    assert(atom(s, 0) == named_atom(s, 0));
}

/// What holds of the character that writes a digit.
proof fn lemma_digit_char(d: u8)
    requires
        d < 10,
    ensures
        digit_value(digit_char(d as nat), 10) == Some(d),
        ascii_digit(digit_char(d as nat)),
        !whitespace(digit_char(d as nat)),
        digit_char(d as nat) != '_',
        digit_char(d as nat) != 'x',
        digit_char(d as nat) != 'o',
        digit_char(d as nat) != 'b',
        digit_char(d as nat) != '(',
        digit_char(d as nat) != '"',
        digit_char(d as nat) != '\'',
{
}

/// In a text of decimal digits the run of digits from any position goes on
/// to the end of the text.
proof fn lemma_digit_run(digits: Seq<u8>, i: int, acc: Seq<u8>)
    requires
        digits_below(digits, 10),
        0 <= i <= digits.len(),
    ensures
        digit_run(decimal_text(digits), i, 10, acc) == (
            acc + digits.subrange(i, digits.len() as int),
            digits.len() as int,
        ),
    decreases digits.len() - i,
{
    if i < digits.len() {
        lemma_digit_char(digits[i]);
        lemma_digit_run(digits, i + 1, acc.push(digits[i]));
    }
}

/// The decimal numeral of a number is an integer literal with that number
/// as its value, and the value is written as the numeral.
pub proof fn lemma_integer_literal(n: nat, root: BuildInfoView)
    ensures
        evaluation(decimal(n), root) == Ok::<ValueView, ErrorView>(ValueView::Integer(n)),
        render_default(ValueView::Integer(n)) == decimal(n),
{
    let digits = decimal_digits(n);
    lemma_decimal_digits(n);
    lemma_digit_char(digits[0]);
    if digits.len() > 1 {
        lemma_digit_char(digits[1]);
    }
    lemma_digit_run(digits, 0, Seq::empty());
    assert(Seq::<u8>::empty() + digits.subrange(0, digits.len() as int) =~= digits);
}

/// A character between single quotes is a character literal with that
/// character as its value, which is written as the character. The quote
/// and the backslash are not written so: they take an escape.
pub proof fn lemma_char_literal(c: char, root: BuildInfoView)
    requires
        c != '\'',
        c != '\\',
    ensures
        evaluation(seq!['\'', c, '\''], root) == Ok::<ValueView, ErrorView>(ValueView::Char(c)),
        render_default(ValueView::Char(c)) == seq![c],
{
}

/// In a string literal without quotes and backslashes the characters from
/// any position up to the closing quote are the rest of the text.
proof fn lemma_string_body(text: Seq<char>, i: int, acc: Seq<char>)
    requires
        forall|j: int| 0 <= j < text.len() ==> #[trigger] text[j] != '"' && text[j] != '\\',
        0 <= i <= text.len(),
    ensures
        string_body(seq!['"'] + text + seq!['"'], i + 1, acc) == Ok::<
            (Seq<char>, int),
            SyntaxError,
        >((acc + text.subrange(i, text.len() as int), (text.len() + 2) as int)),
    decreases text.len() - i,
{
    if i < text.len() {
        lemma_string_body(text, i + 1, acc.push(text[i]));
        assert(acc.push(text[i]) + text.subrange(i + 1, text.len() as int) =~= acc
            + text.subrange(i, text.len() as int));
    }
}

/// A text between double quotes is a string literal with that text as its
/// value, which is written as the text. Quotes and backslashes inside the
/// text are not written so: they take an escape.
pub proof fn lemma_string_literal(text: Seq<char>, root: BuildInfoView)
    requires
        forall|j: int| 0 <= j < text.len() ==> #[trigger] text[j] != '"' && text[j] != '\\',
    ensures
        evaluation(seq!['"'] + text + seq!['"'], root) == Ok::<ValueView, ErrorView>(
            ValueView::Str(text),
        ),
        render_default(ValueView::Str(text)) == text,
{
    lemma_string_body(text, 0, Seq::empty());
    assert(Seq::<char>::empty() + text.subrange(0, text.len() as int) =~= text);
}

} // verus!
