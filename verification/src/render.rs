//! How values are written as text.
//!
//! Every value has a text that stands for it, which is what templates show.
//! Beside it there is a dump for the eyes of a developer, on one line or
//! spread over several.

use crate::text::{decimal, join, lemma_join_step, push_quoted, quoted};
use crate::value::{lemma_sequence_view, type_of, Value, values_view, ValueView};
use vstd::prelude::*;

verus! {

/// The text that stands for a value, as templates show it. A record is
/// written as its own text, an absent value as `UNKNOWN`, a sequence as its
/// elements with `, ` between them.
pub open spec fn render_default(v: ValueView) -> Seq<char>
    decreases v,
{
    match v {
        ValueView::Bool(b) => if b {
            "true"@
        } else {
            "false"@
        },
        ValueView::Char(c) => seq![c],
        ValueView::Integer(n) => decimal(n),
        ValueView::Str(s) => s,
        ValueView::DateTimeUtc(t) => t.text(),
        ValueView::Version(x) => x.text(),
        ValueView::BuildInfo(x) => x.text(),
        ValueView::CrateInfo(x) => x.text(),
        ValueView::CompilerInfo(x) => x.text(),
        ValueView::CompilerChannel(x) => x.text(),
        ValueView::VersionControl(x) => x.text(),
        ValueView::GitInfo(x) => x.text(),
        ValueView::Optional(o) => match o {
            Some(inner) => render_default(*inner),
            None => "UNKNOWN"@,
        },
        ValueView::Sequence(items) => join(item_texts(items), ", "@),
    }
}

/// The text of each value of a sequence.
pub open spec fn item_texts(items: Seq<ValueView>) -> Seq<Seq<char>>
    decreases items,
{
    Seq::new(
        items.len(),
        |i: int|
            if 0 <= i < items.len() {
                render_default(items[i])
            } else {
                Seq::empty()
            },
    )
}

/// How a value is written.
#[derive(Clone, Copy, Debug, PartialEq, Eq, Structural, Hash)]
pub enum FormatSpecifier {
    /// The text that stands for the value.
    Default,
    /// A dump that shows what kind of value it is, on one line.
    Debug,
    /// The same dump with every element of a sequence, and the value inside
    /// an optional value, on a line of its own.
    DebugAlt,
}

/// The indentation one level further in: four spaces more, or none at all
/// in a dump on one line.
pub open spec fn deeper(indentation: Option<Seq<char>>) -> Option<Seq<char>> {
    match indentation {
        Some(i) => Some(i + "    "@),
        None => None,
    }
}

/// The parts, each on a line of its own behind `inner` and with a comma at
/// its end.
pub open spec fn lines(parts: Seq<Seq<char>>, inner: Seq<char>) -> Seq<char>
    decreases parts.len(),
{
    if parts.len() == 0 {
        Seq::empty()
    } else {
        lines(parts.drop_last(), inner) + inner + parts.last() + ",\n"@
    }
}

/// What stands between the brackets around `parts`: on one line the parts
/// with `, ` between them; else, unless there is no part, a line break, the
/// parts as [`lines`] one level further in, and the indentation of the
/// closing bracket.
pub open spec fn enclosed(parts: Seq<Seq<char>>, indentation: Option<Seq<char>>) -> Seq<char> {
    match indentation {
        None => join(parts, ", "@),
        Some(i) => if parts.len() == 0 {
            Seq::empty()
        } else {
            seq!['\n'] + lines(parts, i + "    "@) + i
        },
    }
}

/// Whether the dump of a value of this kind is its text in parentheses
/// behind the name of the kind.
pub open spec fn named(v: ValueView) -> bool {
    match v {
        ValueView::DateTimeUtc(_) => true,
        ValueView::Version(_) => true,
        ValueView::BuildInfo(_) => true,
        ValueView::CrateInfo(_) => true,
        ValueView::CompilerInfo(_) => true,
        ValueView::VersionControl(_) => true,
        ValueView::GitInfo(_) => true,
        _ => false,
    }
}

/// The dump of a value: a character or string between quotes, a record as
/// the name of its kind with its text in parentheses, an optional value as
/// `Some(..)` or `None`, a sequence between square brackets, and anything
/// else as its text. With an indentation, the parts of optional values and
/// sequences stand on lines of their own.
pub open spec fn render_debug(v: ValueView, indentation: Option<Seq<char>>) -> Seq<char>
    decreases v,
{
    match v {
        ValueView::Char(c) => quoted(seq![c], '\''),
        ValueView::Str(s) => quoted(s, '"'),
        ValueView::Optional(o) => match o {
            Some(inner) => "Some("@ + enclosed(
                seq![render_debug(*inner, deeper(indentation))],
                indentation,
            ) + seq![')'],
            None => "None"@,
        },
        ValueView::Sequence(items) => seq!['['] + enclosed(
            item_dumps(items, deeper(indentation)),
            indentation,
        ) + seq![']'],
        other => if named(other) {
            type_of(other).name() + seq!['('] + render_default(other) + seq![')']
        } else {
            render_default(other)
        },
    }
}

/// The dump of each value of a sequence.
pub open spec fn item_dumps(items: Seq<ValueView>, indentation: Option<Seq<char>>) -> Seq<
    Seq<char>,
>
    decreases items,
{
    Seq::new(
        items.len(),
        |i: int|
            if 0 <= i < items.len() {
                render_debug(items[i], indentation)
            } else {
                Seq::empty()
            },
    )
}

/// The text of a value under a specifier.
pub open spec fn rendering(v: ValueView, spec: FormatSpecifier) -> Seq<char> {
    match spec {
        FormatSpecifier::Default => render_default(v),
        FormatSpecifier::Debug => render_debug(v, None),
        FormatSpecifier::DebugAlt => render_debug(v, Some(Seq::empty())),
    }
}

/// Appends the texts of the values, with `, ` between them.
fn render_items<'a>(items: &Vec<Value<'a>>, buffer: &mut String)
    ensures
        final(buffer)@ == old(buffer)@ + join(item_texts(values_view(items@)), ", "@),
    decreases items,
{
    let ghost parts = item_texts(values_view(items@));
    let mut i: usize = 0;
    while i < items.len()
        invariant
            i <= items.len(),
            parts == item_texts(values_view(items@)),
            buffer@ == old(buffer)@ + join(parts.take(i as int), ", "@),
        decreases items.len() - i,
    {
        proof {
            lemma_join_step(parts, ", "@, i as int);
        }
        if i > 0 {
            buffer.append(", ");
        }
        items[i].render(buffer);
        i += 1;
    }
    proof {
        assert(parts.take(i as int) =~= parts);
    }
}

/// The dump of the arguments of a call, each on a line of its own.
pub open spec fn arguments_dump(args: Seq<ValueView>) -> Seq<char> {
    rendering(ValueView::Sequence(args), FormatSpecifier::DebugAlt)
}

/// The dump of the arguments of a call.
pub fn dump_arguments<'a>(args: &Vec<Value<'a>>) -> (text: String)
    ensures
        text@ == arguments_dump(values_view(args@)),
{
    let mut text = String::new();
    text.push('[');
    proof {
        reveal_strlit("");
    }
    dump_items(args, &mut text, Some(""));
    text.push(']');
    proof {
        assert(text@ =~= arguments_dump(values_view(args@)));
    }
    text
}

/// What an indentation stands for.
pub open spec fn indentation_view(indentation: Option<&str>) -> Option<Seq<char>> {
    match indentation {
        Some(i) => Some(i@),
        None => None,
    }
}

/// Appends the dumps of the values as they stand between brackets.
fn dump_items<'a>(items: &Vec<Value<'a>>, buffer: &mut String, indentation: Option<&str>)
    ensures
        final(buffer)@ == old(buffer)@ + enclosed(
            item_dumps(values_view(items@), deeper(indentation_view(indentation))),
            indentation_view(indentation),
        ),
    decreases items,
{
    let ghost parts = item_dumps(values_view(items@), deeper(indentation_view(indentation)));
    match indentation {
        None => {
            let mut i: usize = 0;
            while i < items.len()
                invariant
                    i <= items.len(),
                    indentation is None,
                    parts == item_dumps(values_view(items@), None),
                    buffer@ == old(buffer)@ + join(parts.take(i as int), ", "@),
                decreases items.len() - i,
            {
                proof {
                    lemma_join_step(parts, ", "@, i as int);
                }
                if i > 0 {
                    buffer.append(", ");
                }
                items[i].dump(buffer, None);
                i += 1;
            }
            proof {
                assert(parts.take(i as int) =~= parts);
            }
        },
        Some(outer) => {
            if items.len() > 0 {
                let mut inner = outer.to_owned();
                inner.append("    ");
                buffer.push('\n');
                let mut i: usize = 0;
                while i < items.len()
                    invariant
                        i <= items.len(),
                        indentation == Some(outer),
                        inner@ == outer@ + "    "@,
                        parts == item_dumps(values_view(items@), Some(inner@)),
                        buffer@ == old(buffer)@ + seq!['\n'] + lines(parts.take(i as int), inner@),
                    decreases items.len() - i,
                {
                    proof {
                        assert(parts.take(i + 1).drop_last() =~= parts.take(i as int));
                    }
                    buffer.append(inner.as_str());
                    items[i].dump(buffer, Some(inner.as_str()));
                    buffer.append(",\n");
                    i += 1;
                }
                proof {
                    assert(parts.take(i as int) =~= parts);
                }
                buffer.append(outer);
            }
        },
    }
}

impl<'a> Value<'a> {
    /// Appends the text that stands for the value.
    pub fn render(&self, buffer: &mut String)
        ensures
            final(buffer)@ == old(buffer)@ + render_default(self@),
        decreases self,
    {
        match self {
            Value::Bool(b) => {
                if *b {
                    buffer.append("true");
                } else {
                    buffer.append("false");
                }
            },
            Value::Char(c) => {
                buffer.push(*c);
            },
            Value::Integer(n) => n.push_to(buffer),
            Value::Str(s) => buffer.append(s.as_str()),
            Value::DateTimeUtc(t) => t.push_to(buffer),
            Value::Version(x) => x.push_to(buffer),
            Value::BuildInfo(x) => x.push_to(buffer),
            Value::CrateInfo(x) => x.push_to(buffer),
            Value::CompilerInfo(x) => x.push_to(buffer),
            Value::CompilerChannel(x) => x.push_to(buffer),
            Value::VersionControl(x) => x.push_to(buffer),
            Value::GitInfo(x) => x.push_to(buffer),
            Value::Optional(o) => match o {
                Some(inner) => inner.render(buffer),
                None => buffer.append("UNKNOWN"),
            },
            Value::Sequence(items) => {
                proof {
                    lemma_sequence_view(*items);
                }
                render_items(items, buffer);
            },
        }
    }

    /// The text that stands for the value.
    pub fn to_text(&self) -> (text: String)
        ensures
            text@ == render_default(self@),
    {
        let mut text = String::new();
        self.render(&mut text);
        text
    }

    /// Appends the text of the value under the specifier `spec`.
    pub fn format(&self, buffer: &mut String, spec: FormatSpecifier)
        ensures
            final(buffer)@ == old(buffer)@ + rendering(self@, spec),
    {
        match spec {
            FormatSpecifier::Default => self.render(buffer),
            FormatSpecifier::Debug => self.dump(buffer, None),
            FormatSpecifier::DebugAlt => {
                proof {
                    reveal_strlit("");
                }
                self.dump(buffer, Some(""))
            },
        }
    }

    /// Appends the dump of the value: on one line, or with `indentation`
    /// before the line on which the value begins.
    pub fn dump(&self, buffer: &mut String, indentation: Option<&str>)
        ensures
            final(buffer)@ == old(buffer)@ + render_debug(self@, indentation_view(indentation)),
        decreases self,
    {
        match self {
            Value::Char(c) => {
                let mut text = String::new();
                text.push(*c);
                push_quoted(buffer, text.as_str(), '\'');
            },
            Value::Str(s) => push_quoted(buffer, s.as_str(), '"'),
            Value::Optional(o) => match o {
                Some(inner) => {
                    buffer.append("Some(");
                    match indentation {
                        None => {
                            inner.dump(buffer, None);
                        },
                        Some(outer) => {
                            let mut deep = outer.to_owned();
                            deep.append("    ");
                            buffer.push('\n');
                            buffer.append(deep.as_str());
                            inner.dump(buffer, Some(deep.as_str()));
                            buffer.append(",\n");
                            buffer.append(outer);
                            proof {
                                reveal_with_fuel(lines, 2);
                            }
                        },
                    }
                    buffer.push(')');
                },
                None => buffer.append("None"),
            },
            Value::Sequence(items) => {
                proof {
                    lemma_sequence_view(*items);
                }
                buffer.push('[');
                dump_items(items, buffer, indentation);
                buffer.push(']');
            },
            Value::Bool(_) => self.render(buffer),
            Value::Integer(_) => self.render(buffer),
            Value::CompilerChannel(_) => self.render(buffer),
            _ => {
                self.get_type().push_to(buffer);
                buffer.push('(');
                self.render(buffer);
                buffer.push(')');
            },
        }
    }
}

} // verus!
