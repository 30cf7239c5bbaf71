//! Templates: text with holes.
//!
//! A template is copied character by character. `{{` and `}}` stand for one
//! brace each. Any other `{` opens a hole, which holds an expression up to
//! the matching `}`; the text of its value takes the place of the hole. In a
//! hole the atom may be left out: `{.crate_info.name}` is
//! `{build_info.crate_info.name}`, and `{}` is `{build_info}`.

use crate::error::{Error, ErrorView, SyntaxError, SyntaxErrorKind};
use crate::eval::eval_expr;
use crate::metadata::{BuildInfo, BuildInfoView};
use crate::parse::{at, expression, is_at, parse_expr, remaining, unexpected, unexpected_at};
use crate::render::render_default;
use crate::syntax::{Expr, ExprView};
use crate::text::chars_of;
use vstd::prelude::*;

verus! {

/// The error for the `{` at `pos`, which nothing closes.
pub open spec fn unmatched_opening(pos: int) -> SyntaxError {
    SyntaxError { kind: SyntaxErrorKind::UnmatchedOpeningBrace, position: pos as usize }
}

/// The error for the `}` at `pos`, which closes nothing.
pub open spec fn unmatched_closing(pos: int) -> SyntaxError {
    SyntaxError { kind: SyntaxErrorKind::UnmatchedClosingBrace, position: pos as usize }
}

/// The expression in the hole whose `{` stands before `pos`, and the length
/// of the hole from `pos` on, with its `}`. A text that ends before the hole
/// is closed leaves the `{` unmatched.
pub open spec fn hole(s: Seq<char>, pos: int) -> Result<(ExprView, nat), SyntaxError> {
    match expression(s, pos, true) {
        Ok((e, n)) => if at(s, pos + n, '}') {
            Ok((e, n + 1))
        } else if pos + n >= s.len() {
            Err(unmatched_opening(pos - 1))
        } else {
            Err(unexpected(s, pos + n))
        },
        Err(e) => if e.kind == SyntaxErrorKind::UnexpectedEnd {
            Err(unmatched_opening(pos - 1))
        } else {
            Err(e)
        },
    }
}

/// The text that takes the place of the hole whose `{` stands before `pos`,
/// and the length of the hole from `pos` on.
pub open spec fn hole_text(s: Seq<char>, pos: int, root: BuildInfoView) -> Result<
    (Seq<char>, nat),
    ErrorView,
> {
    match hole(s, pos) {
        Ok((e, n)) => match eval_expr(e, root) {
            Ok(v) => Ok((render_default(v), n)),
            Err(e) => Err(e),
        },
        Err(e) => Err(ErrorView::Syntax(e)),
    }
}

/// `text` followed by what `rest` yields, if it yields anything.
pub open spec fn followed_by(text: Seq<char>, rest: Result<Seq<char>, ErrorView>) -> Result<
    Seq<char>,
    ErrorView,
> {
    match rest {
        Ok(more) => Ok(text + more),
        Err(e) => Err(e),
    }
}

/// The text that the template yields from `pos` on. The first failure, from
/// left to right, is the result.
pub open spec fn interpolation(s: Seq<char>, pos: int, root: BuildInfoView) -> Result<
    Seq<char>,
    ErrorView,
>
    decreases remaining(s, pos),
{
    if !(0 <= pos < s.len()) {
        Ok(Seq::empty())
    } else if s[pos] == '{' {
        if at(s, pos + 1, '{') {
            followed_by(seq!['{'], interpolation(s, pos + 2, root))
        } else {
            match hole_text(s, pos + 1, root) {
                Ok((text, n)) => followed_by(text, interpolation(s, pos + 1 + n, root)),
                Err(e) => Err(e),
            }
        }
    } else if s[pos] == '}' {
        if at(s, pos + 1, '}') {
            followed_by(seq!['}'], interpolation(s, pos + 2, root))
        } else {
            Err(ErrorView::Syntax(unmatched_closing(pos)))
        }
    } else {
        followed_by(seq![s[pos]], interpolation(s, pos + 1, root))
    }
}

/// Reads the hole whose `{` stands before `pos`: the expression in it, and
/// the position behind its `}`.
pub fn parse_hole(text: &Vec<char>, pos: usize) -> (result: Result<(Expr, usize), SyntaxError>)
    requires
        0 < pos,
    ensures
        match result {
            Ok((e, end)) => pos < end <= text.len() && hole(text@, pos as int) == Ok::<
                (ExprView, nat),
                SyntaxError,
            >((e@, (end - pos) as nat)),
            Err(e) => hole(text@, pos as int) == Err::<(ExprView, nat), SyntaxError>(e),
        },
{
    match parse_expr(text, pos, true) {
        Ok((e, end)) => {
            if is_at(text, end, '}') {
                Ok((e, end + 1))
            } else if end >= text.len() {
                Err(SyntaxError { kind: SyntaxErrorKind::UnmatchedOpeningBrace, position: pos - 1 })
            } else {
                Err(unexpected_at(text, end))
            }
        },
        Err(e) => {
            match e.kind {
                SyntaxErrorKind::UnexpectedEnd => Err(
                    SyntaxError { kind: SyntaxErrorKind::UnmatchedOpeningBrace, position: pos - 1 },
                ),
                _ => Err(e),
            }
        },
    }
}

/// Fills the hole whose `{` stands before `pos`: the text that takes its
/// place, and the position behind its `}`.
pub fn interpolate_once(text: &Vec<char>, pos: usize, buildinfo: &BuildInfo) -> (result: Result<
    (String, usize),
    Error,
>)
    requires
        0 < pos,
    ensures
        match result {
            Ok((filled, end)) => pos < end <= text.len() && hole_text(
                text@,
                pos as int,
                buildinfo@,
            ) == Ok::<(Seq<char>, nat), ErrorView>((filled@, (end - pos) as nat)),
            Err(e) => hole_text(text@, pos as int, buildinfo@) == Err::<
                (Seq<char>, nat),
                ErrorView,
            >(e@),
        },
{
    match parse_hole(text, pos) {
        Ok((e, end)) => match e.eval(buildinfo) {
            Ok(value) => Ok((value.to_text(), end)),
            Err(e) => Err(e),
        },
        Err(e) => Err(Error::Syntax(e)),
    }
}

/// Fills the holes of the template `format` from the metadata `buildinfo`.
pub fn interpolate(format: &str, buildinfo: &BuildInfo) -> (result: Result<String, Error>)
    ensures
        match result {
            Ok(text) => interpolation(format@, 0, buildinfo@) == Ok::<Seq<char>, ErrorView>(
                text@,
            ),
            Err(e) => interpolation(format@, 0, buildinfo@) == Err::<Seq<char>, ErrorView>(e@),
        },
{
    let chars = chars_of(format);
    let mut res = String::new();
    let mut i: usize = 0;
    while i < chars.len()
        invariant
            i <= chars.len(),
            chars@ == format@,
            interpolation(chars@, 0, buildinfo@) == followed_by(
                res@,
                interpolation(chars@, i as int, buildinfo@),
            ),
        decreases chars.len() - i,
    {
        let ghost before = res@;
        let c = chars[i];
        if c == '{' {
            if is_at(&chars, i + 1, '{') {
                res.push(c);
                proof {
                    assert(res@ =~= before + seq!['{']);
                    lemma_followed_by(
                        before,
                        seq!['{'],
                        interpolation(chars@, i + 2, buildinfo@),
                    );
                }
                i += 2;
            } else {
                match interpolate_once(&chars, i + 1, buildinfo) {
                    Ok((filled, end)) => {
                        res.append(filled.as_str());
                        proof {
                            lemma_followed_by(
                                before,
                                filled@,
                                interpolation(chars@, end as int, buildinfo@),
                            );
                        }
                        i = end;
                    },
                    Err(e) => {
                        return Err(e);
                    },
                }
            }
        } else if c == '}' {
            if is_at(&chars, i + 1, '}') {
                res.push(c);
                proof {
                    assert(res@ =~= before + seq!['}']);
                    lemma_followed_by(
                        before,
                        seq!['}'],
                        interpolation(chars@, i + 2, buildinfo@),
                    );
                }
                i += 2;
            } else {
                return Err(
                    Error::Syntax(
                        SyntaxError { kind: SyntaxErrorKind::UnmatchedClosingBrace, position: i },
                    ),
                );
            }
        } else {
            res.push(c);
            proof {
                assert(res@ =~= before + seq![c]);
                lemma_followed_by(before, seq![c], interpolation(chars@, i + 1, buildinfo@));
            }
            i += 1;
        }
    }
    Ok(res)
}

/// Two texts before a result are their concatenation before it.
pub proof fn lemma_followed_by(a: Seq<char>, b: Seq<char>, rest: Result<Seq<char>, ErrorView>)
    ensures
        followed_by(a, followed_by(b, rest)) == followed_by(a + b, rest),
{
    match rest {
        Ok(more) => {
            assert(a + (b + more) =~= (a + b) + more);
        },
        Err(_) => {},
    }
}

} // verus!
