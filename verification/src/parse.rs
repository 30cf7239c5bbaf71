//! The grammar of expressions, and the parser for it.
//!
//! ```text
//! Expr   := Atom Suffix*
//! Atom   := 'true' | 'false' | 'build_info' | Integer | Char | String
//!         | '(' Expr ')' | Ident '(' Args ')'
//! Suffix := '?' | '.' Ident | '.' Ident '(' Args ')' | '.' Digits | '[' Expr ']'
//! Args   := (Expr (',' Expr)*)?
//! ```
//!
//! Whitespace may stand in one place only: between the `.` of a suffix and
//! the name behind it. The text is read once, from left to right; the first
//! character that fits nowhere is reported, and so is a text that ends too
//! early.
//!
//! The grammar is written down twice: as specification functions on
//! sequences of characters, which define what a text means, and as the
//! parser, which is proved to compute exactly that.

use crate::error::{SyntaxError, SyntaxErrorKind};
use crate::integer::{digits_below, digits_value, Integer};
use crate::syntax::{
    AtomicExpr,
    AtomicExprView,
    Expr,
    exprs_view,
    ExprView,
    lemma_call_view,
    lemma_expr_view,
    Suffix,
    suffixes_view,
    SuffixView,
};
use crate::text::{
    alphabetic,
    alphanumeric,
    ascii_digit,
    ascii_letter,
    char_from_u32,
    chars_of,
    is_alphabetic,
    is_alphanumeric,
    is_whitespace,
    same_text,
    scalar_value,
    string_of,
    whitespace,
};
use vstd::prelude::*;

verus! {

/// How many characters are left from `pos` on.
pub open spec fn remaining(s: Seq<char>, pos: int) -> nat {
    if pos <= s.len() {
        (s.len() - pos) as nat
    } else {
        0
    }
}

/// The error for the character at `pos`, which fits nowhere; or for the end
/// of the text, where `pos` is past it.
pub open spec fn unexpected(s: Seq<char>, pos: int) -> SyntaxError {
    if 0 <= pos < s.len() {
        SyntaxError { kind: SyntaxErrorKind::UnexpectedCharacter(s[pos]), position: pos as usize }
    } else {
        SyntaxError { kind: SyntaxErrorKind::UnexpectedEnd, position: s.len() as usize }
    }
}

/// Whether the character at `pos` is `c`.
pub open spec fn at(s: Seq<char>, pos: int, c: char) -> bool {
    0 <= pos < s.len() && s[pos] == c
}

/// How many whitespace characters stand at `pos`.
pub open spec fn ws(s: Seq<char>, pos: int) -> nat
    decreases remaining(s, pos),
{
    if 0 <= pos < s.len() && whitespace(s[pos]) {
        1 + ws(s, pos + 1)
    } else {
        0
    }
}

/// A character that can begin an identifier: `_` or a letter. Among the
/// ASCII characters the letters are `a` to `z` and `A` to `Z`; beyond them
/// Unicode decides.
pub open spec fn ident_start(c: char) -> bool {
    c == '_' || if c <= '\x7f' {
        ascii_letter(c)
    } else {
        alphabetic(c)
    }
}

/// A character that can go on an identifier: `_`, a letter or a digit.
pub open spec fn ident_continue(c: char) -> bool {
    c == '_' || if c <= '\x7f' {
        ascii_letter(c) || ascii_digit(c)
    } else {
        alphanumeric(c)
    }
}

/// How many characters at `pos` can go on an identifier.
pub open spec fn ident_len(s: Seq<char>, pos: int) -> nat
    decreases remaining(s, pos),
{
    if 0 <= pos < s.len() && ident_continue(s[pos]) {
        1 + ident_len(s, pos + 1)
    } else {
        0
    }
}

/// The identifier at `pos`, and its length.
pub open spec fn identifier(s: Seq<char>, pos: int) -> Result<(Seq<char>, nat), SyntaxError> {
    if 0 <= pos < s.len() && ident_start(s[pos]) {
        let n = 1 + ident_len(s, pos + 1);
        Ok((s.subrange(pos, pos + n), n))
    } else {
        Err(unexpected(s, pos))
    }
}

/// The value of a character as a digit of the radix, if it is one.
pub open spec fn digit_value(c: char, radix: nat) -> Option<u8> {
    let d: Option<u8> = if c == '0' {
        Some(0u8)
    } else if c == '1' {
        Some(1u8)
    } else if c == '2' {
        Some(2u8)
    } else if c == '3' {
        Some(3u8)
    } else if c == '4' {
        Some(4u8)
    } else if c == '5' {
        Some(5u8)
    } else if c == '6' {
        Some(6u8)
    } else if c == '7' {
        Some(7u8)
    } else if c == '8' {
        Some(8u8)
    } else if c == '9' {
        Some(9u8)
    } else if c == 'a' || c == 'A' {
        Some(10u8)
    } else if c == 'b' || c == 'B' {
        Some(11u8)
    } else if c == 'c' || c == 'C' {
        Some(12u8)
    } else if c == 'd' || c == 'D' {
        Some(13u8)
    } else if c == 'e' || c == 'E' {
        Some(14u8)
    } else if c == 'f' || c == 'F' {
        Some(15u8)
    } else {
        None
    };
    match d {
        Some(v) => if v < radix {
            d
        } else {
            None
        },
        None => None,
    }
}

/// The digits of an integer literal from `pos` on, after the digits `acc`
/// that were read before, and the position behind them. Underscores between
/// the digits are skipped.
pub open spec fn digit_run(s: Seq<char>, pos: int, radix: nat, acc: Seq<u8>) -> (Seq<u8>, int)
    decreases remaining(s, pos),
{
    if 0 <= pos < s.len() {
        if s[pos] == '_' {
            digit_run(s, pos + 1, radix, acc)
        } else {
            match digit_value(s[pos], radix) {
                Some(d) => digit_run(s, pos + 1, radix, acc.push(d)),
                None => (acc, pos),
            }
        }
    } else {
        (acc, pos)
    }
}

/// The radix that the prefix of an integer literal at `pos` names, and the
/// length of that prefix: `0x`, `0o`, `0b`, or none for a decimal literal.
pub open spec fn radix_prefix(s: Seq<char>, pos: int) -> (nat, nat) {
    if at(s, pos, '0') && at(s, pos + 1, 'x') {
        (16, 2)
    } else if at(s, pos, '0') && at(s, pos + 1, 'o') {
        (8, 2)
    } else if at(s, pos, '0') && at(s, pos + 1, 'b') {
        (2, 2)
    } else {
        (10, 0)
    }
}

/// The integer literal at `pos`: its value and its length. The literal ends
/// before the first character that is neither a digit of its radix nor an
/// underscore; a letter or digit there makes the literal invalid.
pub open spec fn integer_literal(s: Seq<char>, pos: int) -> Result<(nat, nat), SyntaxError> {
    let (radix, skip) = radix_prefix(s, pos);
    let (digits, end) = digit_run(s, pos + skip, radix, Seq::empty());
    if digits.len() == 0 || (0 <= end < s.len() && ident_continue(s[end])) {
        Err(unexpected(s, end))
    } else {
        Ok((digits_value(digits, radix), (end - pos) as nat))
    }
}

/// The tuple index at `pos`: decimal digits that write a number which fits a
/// machine word.
pub open spec fn tuple_index(s: Seq<char>, pos: int) -> Result<(nat, nat), SyntaxError> {
    let (digits, end) = decimal_run(s, pos, Seq::empty());
    if digits_value(digits, 10) > usize::MAX {
        Err(SyntaxError { kind: SyntaxErrorKind::IndexTooLarge, position: pos as usize })
    } else {
        Ok((digits_value(digits, 10), (end - pos) as nat))
    }
}

/// The decimal digits from `pos` on, after the digits `acc`, and the
/// position behind them.
pub open spec fn decimal_run(s: Seq<char>, pos: int, acc: Seq<u8>) -> (Seq<u8>, int)
    decreases remaining(s, pos),
{
    if 0 <= pos < s.len() {
        match digit_value(s[pos], 10) {
            Some(d) => decimal_run(s, pos + 1, acc.push(d)),
            None => (acc, pos),
        }
    } else {
        (acc, pos)
    }
}

/// The value of the character at `pos` as a hexadecimal digit, if it is one.
pub open spec fn hex_digit(s: Seq<char>, pos: int) -> Option<u8> {
    if 0 <= pos < s.len() {
        digit_value(s[pos], 16)
    } else {
        None
    }
}

/// The character with the code `n`.
pub open spec fn char_of(n: nat) -> char {
    (n as u32) as char
}

/// The character that the escape `\xHH` names, where `pos` is the position
/// of the `x`: the ASCII character with the code that the two hexadecimal
/// digits write.
pub open spec fn hex_escape(s: Seq<char>, pos: int) -> Result<(char, nat), SyntaxError> {
    match hex_digit(s, pos + 1) {
        Some(high) => match hex_digit(s, pos + 2) {
            Some(low) => if 16 * high + low <= 0x7f {
                Ok((char_of((16 * high + low) as nat), 3nat))
            } else {
                Err(SyntaxError { kind: SyntaxErrorKind::InvalidEscape, position: pos as usize })
            },
            None => Err(unexpected(s, pos + 2)),
        },
        None => Err(unexpected(s, pos + 1)),
    }
}

/// The character that the escape `\u{H..}` names, where `pos` is the
/// position of the `u`: the character with the code that the hexadecimal
/// digits write, of which there are one to six, with underscores between
/// them at will.
pub open spec fn unicode_escape(s: Seq<char>, pos: int) -> Result<(char, nat), SyntaxError> {
    if !at(s, pos + 1, '{') {
        Err(unexpected(s, pos + 1))
    } else {
        let (digits, end) = digit_run(s, pos + 2, 16, Seq::empty());
        if !at(s, end, '}') {
            Err(unexpected(s, end))
        } else if digits.len() == 0 || digits.len() > 6 || !scalar_value(
            digits_value(digits, 16) as u32,
        ) {
            Err(SyntaxError { kind: SyntaxErrorKind::InvalidEscape, position: pos as usize })
        } else {
            Ok((char_of(digits_value(digits, 16)), (end + 1 - pos) as nat))
        }
    }
}

/// The character that an escape names, where `pos` is behind the backslash,
/// and the length of the escape from `pos` on: `\n`, `\r`, `\t`, `\\`,
/// `\0`, `\'`, `\"`, `\xHH` and `\u{H..}`.
pub open spec fn escape(s: Seq<char>, pos: int) -> Result<(char, nat), SyntaxError> {
    if at(s, pos, 'n') {
        Ok(('\n', 1nat))
    } else if at(s, pos, 'r') {
        Ok(('\r', 1nat))
    } else if at(s, pos, 't') {
        Ok(('\t', 1nat))
    } else if at(s, pos, '\\') {
        Ok(('\\', 1nat))
    } else if at(s, pos, '0') {
        Ok(('\0', 1nat))
    } else if at(s, pos, '\'') {
        Ok(('\'', 1nat))
    } else if at(s, pos, '"') {
        Ok(('"', 1nat))
    } else if at(s, pos, 'x') {
        hex_escape(s, pos)
    } else if at(s, pos, 'u') {
        unicode_escape(s, pos)
    } else if 0 <= pos < s.len() {
        Err(SyntaxError { kind: SyntaxErrorKind::InvalidEscape, position: pos as usize })
    } else {
        Err(unexpected(s, pos))
    }
}

/// The character literal at `pos`, where a `'` stands: the character that
/// it names, and its length.
pub open spec fn char_literal(s: Seq<char>, pos: int) -> Result<(char, nat), SyntaxError> {
    if at(s, pos + 1, '\\') {
        match escape(s, pos + 2) {
            Ok((c, n)) => if at(s, pos + 2 + n, '\'') {
                Ok((c, n + 3))
            } else {
                Err(unexpected(s, pos + 2 + n))
            },
            Err(e) => Err(e),
        }
    } else if 0 <= pos + 1 < s.len() && s[pos + 1] != '\'' {
        if at(s, pos + 2, '\'') {
            Ok((s[pos + 1], 3))
        } else {
            Err(unexpected(s, pos + 2))
        }
    } else {
        Err(unexpected(s, pos + 1))
    }
}

/// The rest of a string literal from `pos` on, after the characters `acc`
/// that were read before: the text that the literal holds, and the position
/// behind its closing `"`.
pub open spec fn string_body(s: Seq<char>, pos: int, acc: Seq<char>) -> Result<
    (Seq<char>, int),
    SyntaxError,
>
    decreases remaining(s, pos),
{
    if 0 <= pos < s.len() {
        if s[pos] == '"' {
            Ok((acc, pos + 1))
        } else if s[pos] == '\\' {
            match escape(s, pos + 1) {
                Ok((c, n)) => string_body(s, pos + 1 + n, acc.push(c)),
                Err(e) => Err(e),
            }
        } else {
            string_body(s, pos + 1, acc.push(s[pos]))
        }
    } else {
        Err(unexpected(s, pos))
    }
}

/// The string literal at `pos`, where a `"` stands: the text that it holds,
/// and its length.
pub open spec fn string_literal(s: Seq<char>, pos: int) -> Result<(Seq<char>, nat), SyntaxError> {
    match string_body(s, pos + 1, Seq::empty()) {
        Ok((text, end)) => Ok((text, (end - pos) as nat)),
        Err(e) => Err(e),
    }
}

/// Whether a hole may begin with this character in place of an atom: the
/// atom is then the metadata itself.
pub open spec fn begins_suffix(c: char) -> bool {
    c == '.' || c == '?' || c == '[' || c == '}'
}

/// The expression at `pos`, and its length. With `implicit_root`, an
/// expression that begins with a suffix, or is empty before a `}`, has the
/// atom `build_info`.
pub open spec fn expression(s: Seq<char>, pos: int, implicit_root: bool) -> Result<
    (ExprView, nat),
    SyntaxError,
>
    decreases remaining(s, pos), 4nat,
{
    let first = if implicit_root && 0 <= pos < s.len() && begins_suffix(s[pos]) {
        Ok((AtomicExprView::BuildInfo, 0nat))
    } else {
        atom(s, pos)
    };
    match first {
        Ok((a, n)) => match suffixes(s, pos + n, Seq::empty()) {
            Ok((found, end)) => Ok((ExprView { atom: a, suffixes: found }, (end - pos) as nat)),
            Err(e) => Err(e),
        },
        Err(e) => Err(e),
    }
}

/// The atom at `pos`, and its length.
pub open spec fn atom(s: Seq<char>, pos: int) -> Result<(AtomicExprView, nat), SyntaxError>
    decreases remaining(s, pos), 3nat,
{
    if !(0 <= pos < s.len()) {
        Err(unexpected(s, pos))
    } else if s[pos] == '(' {
        match expression(s, pos + 1, false) {
            Ok((e, n)) => if at(s, pos + 1 + n, ')') {
                Ok((AtomicExprView::Parenthesized(Box::new(e)), n + 2))
            } else {
                Err(unexpected(s, pos + 1 + n))
            },
            Err(e) => Err(e),
        }
    } else if s[pos] == '\'' {
        char_atom(s, pos)
    } else if s[pos] == '"' {
        match string_literal(s, pos) {
            Ok((text, n)) => Ok((AtomicExprView::LitStr(text), n)),
            Err(e) => Err(e),
        }
    } else if ascii_digit(s[pos]) {
        match integer_literal(s, pos) {
            Ok((value, n)) => Ok((AtomicExprView::LitInt(value), n)),
            Err(e) => Err(e),
        }
    } else {
        named_atom(s, pos)
    }
}

/// The atom at `pos` that begins with a name: `true`, `false`, `build_info`
/// or the call of a function.
pub open spec fn named_atom(s: Seq<char>, pos: int) -> Result<(AtomicExprView, nat), SyntaxError>
    decreases remaining(s, pos), 2nat,
{
    match identifier(s, pos) {
        Ok((name, n)) => if name == "true"@ {
            Ok((AtomicExprView::LitBool(true), n))
        } else if name == "false"@ {
            Ok((AtomicExprView::LitBool(false), n))
        } else if name == "build_info"@ {
            Ok((AtomicExprView::BuildInfo, n))
        } else {
            if at(s, pos + n, '(') {
                match arguments(s, pos + n + 1) {
                    Ok((args, m)) => Ok((AtomicExprView::FunctionCall(name, args), n + 1 + m)),
                    Err(e) => Err(e),
                }
            } else {
                Err(unexpected(s, pos + n))
            }
        },
        Err(e) => Err(e),
    }
}

/// The suffix at `pos`, if one begins there, and its length. Behind a `.`
/// stands a tuple index at once, or a name after any whitespace.
pub open spec fn suffix(s: Seq<char>, pos: int) -> Result<Option<(SuffixView, nat)>, SyntaxError>
    decreases remaining(s, pos), 1nat,
{
    if at(s, pos, '?') {
        Ok(Some((SuffixView::Unwrap, 1nat)))
    } else if at(s, pos, '.') {
        if 0 <= pos + 1 < s.len() && ascii_digit(s[pos + 1]) {
            index_suffix(s, pos, pos + 1)
        } else {
            named_suffix(s, pos, pos + 1 + ws(s, pos + 1))
        }
    } else if at(s, pos, '[') {
        match expression(s, pos + 1, false) {
            Ok((e, n)) => if at(s, pos + 1 + n, ']') {
                Ok(Some((SuffixView::ArrayIndex(e), n + 2)))
            } else {
                Err(unexpected(s, pos + 1 + n))
            },
            Err(e) => Err(e),
        }
    } else {
        Ok(None)
    }
}

/// The suffixes from `pos` on, after the suffixes `acc` that were read
/// before, and the position behind them.
pub open spec fn suffixes(s: Seq<char>, pos: int, acc: Seq<SuffixView>) -> Result<
    (Seq<SuffixView>, int),
    SyntaxError,
>
    decreases remaining(s, pos), 2nat,
{
    if !(0 <= pos < s.len()) {
        Ok((acc, pos))
    } else {
        match suffix(s, pos) {
            Ok(Some((found, n))) => if n > 0 {
                suffixes(s, pos + n, acc.push(found))
            } else {
                Ok((acc, pos))
            },
            Ok(None) => Ok((acc, pos)),
            Err(e) => Err(e),
        }
    }
}

/// The arguments of a call, where `pos` is behind the `(`, and their length
/// with the closing `)`.
pub open spec fn arguments(s: Seq<char>, pos: int) -> Result<(Seq<ExprView>, nat), SyntaxError>
    decreases remaining(s, pos), 6nat,
{
    if at(s, pos, ')') {
        Ok((Seq::empty(), 1nat))
    } else {
        match more_arguments(s, pos, Seq::empty()) {
            Ok((args, end)) => Ok((args, (end - pos) as nat)),
            Err(e) => Err(e),
        }
    }
}

/// The arguments from `pos` on, of which there is at least one, after the
/// arguments `acc` that were read before, and the position behind the
/// closing `)`.
pub open spec fn more_arguments(s: Seq<char>, pos: int, acc: Seq<ExprView>) -> Result<
    (Seq<ExprView>, int),
    SyntaxError,
>
    decreases remaining(s, pos), 5nat,
{
    match expression(s, pos, false) {
        Ok((e, n)) => if at(s, pos + n, ',') {
            more_arguments(s, pos + n + 1, acc.push(e))
        } else if at(s, pos + n, ')') {
            Ok((acc.push(e), pos + n + 1))
        } else {
            Err(unexpected(s, pos + n))
        },
        Err(e) => Err(e),
    }
}

/// What a text means as an expression: the whole text has to be one.
pub open spec fn whole_expression(s: Seq<char>) -> Result<ExprView, SyntaxError> {
    match expression(s, 0, false) {
        Ok((e, n)) => if n == s.len() {
            Ok(e)
        } else {
            Err(unexpected(s, n as int))
        },
        Err(e) => Err(e),
    }
}

/// The error for what stands at `pos`.
pub(crate) fn unexpected_at(text: &Vec<char>, pos: usize) -> (e: SyntaxError)
    ensures
        e == unexpected(text@, pos as int),
{
    if pos < text.len() {
        SyntaxError { kind: SyntaxErrorKind::UnexpectedCharacter(text[pos]), position: pos }
    } else {
        SyntaxError { kind: SyntaxErrorKind::UnexpectedEnd, position: text.len() }
    }
}

/// Whether the character at `pos` is `c`.
pub(crate) fn is_at(text: &Vec<char>, pos: usize, c: char) -> (b: bool)
    ensures
        b == at(text@, pos as int, c),
{
    pos < text.len() && text[pos] == c
}

/// The position of the first character from `pos` on that is no whitespace.
pub fn skip_ws(text: &Vec<char>, pos: usize) -> (end: usize)
    ensures
        end == pos + ws(text@, pos as int),
        pos <= end,
        pos <= text.len() ==> end <= text.len(),
{
    let mut i: usize = pos;
    while i < text.len() && is_whitespace(text[i])
        invariant
            pos <= i,
            pos <= text.len() ==> i <= text.len(),
            pos + ws(text@, pos as int) == i + ws(text@, i as int),
        decreases text.len() - i,
    {
        i += 1;
    }
    i
}

fn is_ident_start(c: char) -> (b: bool)
    ensures
        b == ident_start(c),
{
    c == '_' || is_alphabetic(c)
}

fn is_ident_continue(c: char) -> (b: bool)
    ensures
        b == ident_continue(c),
{
    c == '_' || is_alphanumeric(c)
}

/// Reads the identifier at `pos`: the name, and the position behind it.
pub fn parse_id(text: &Vec<char>, pos: usize) -> (result: Result<(String, usize), SyntaxError>)
    ensures
        match result {
            Ok((name, end)) => pos < end <= text.len() && identifier(text@, pos as int) == Ok::<
                (Seq<char>, nat),
                SyntaxError,
            >((name@, (end - pos) as nat)),
            Err(e) => identifier(text@, pos as int) == Err::<(Seq<char>, nat), SyntaxError>(e),
        },
{
    if pos < text.len() && is_ident_start(text[pos]) {
        let mut i: usize = pos + 1;
        while i < text.len() && is_ident_continue(text[i])
            invariant
                pos < i <= text.len(),
                pos + 1 + ident_len(text@, pos + 1) == i + ident_len(text@, i as int),
            decreases text.len() - i,
        {
            i += 1;
        }
        Ok((string_of(text, pos, i), i))
    } else {
        Err(unexpected_at(text, pos))
    }
}

/// The value of a character as a digit of the radix, if it is one.
fn digit_of(c: char, radix: u32) -> (d: Option<u8>)
    ensures
        d == digit_value(c, radix as nat),
{
    let d: Option<u8> = if c == '0' {
        Some(0u8)
    } else if c == '1' {
        Some(1u8)
    } else if c == '2' {
        Some(2u8)
    } else if c == '3' {
        Some(3u8)
    } else if c == '4' {
        Some(4u8)
    } else if c == '5' {
        Some(5u8)
    } else if c == '6' {
        Some(6u8)
    } else if c == '7' {
        Some(7u8)
    } else if c == '8' {
        Some(8u8)
    } else if c == '9' {
        Some(9u8)
    } else if c == 'a' || c == 'A' {
        Some(10u8)
    } else if c == 'b' || c == 'B' {
        Some(11u8)
    } else if c == 'c' || c == 'C' {
        Some(12u8)
    } else if c == 'd' || c == 'D' {
        Some(13u8)
    } else if c == 'e' || c == 'E' {
        Some(14u8)
    } else if c == 'f' || c == 'F' {
        Some(15u8)
    } else {
        None
    };
    match d {
        Some(v) => if (v as u32) < radix {
            d
        } else {
            None
        },
        None => None,
    }
}

fn is_ascii_digit(c: char) -> (b: bool)
    ensures
        b == ascii_digit(c),
{
    '0' <= c && c <= '9'
}

/// Reads the digits of the radix from `pos` on, skipping underscores: the
/// digits, and the position behind them.
fn read_digits(text: &Vec<char>, pos: usize, radix: u32) -> (result: (Vec<u8>, usize))
    requires
        pos <= text.len(),
    ensures
        digit_run(text@, pos as int, radix as nat, Seq::empty()) == (
            result.0@,
            result.1 as int,
        ),
        digits_below(result.0@, radix as nat),
        pos <= result.1 <= text.len(),
        result.0@.len() <= result.1 - pos,
{
    let mut digits: Vec<u8> = Vec::new();
    let mut i: usize = pos;
    let mut more = true;
    while more
        invariant
            pos <= i <= text.len(),
            digits_below(digits@, radix as nat),
            digits@.len() <= i - pos,
            more ==> digit_run(text@, pos as int, radix as nat, Seq::empty()) == digit_run(
                text@,
                i as int,
                radix as nat,
                digits@,
            ),
            !more ==> digit_run(text@, pos as int, radix as nat, Seq::empty()) == (
                digits@,
                i as int,
            ),
        decreases text.len() - i, if more { 1nat } else { 0nat },
    {
        if i < text.len() {
            let c = text[i];
            if c == '_' {
                i += 1;
            } else {
                match digit_of(c, radix) {
                    Some(d) => {
                        digits.push(d);
                        i += 1;
                    },
                    None => {
                        more = false;
                    },
                }
            }
        } else {
            more = false;
        }
    }
    (digits, i)
}

/// Reads the integer literal at `pos`: its value, and the position behind
/// it.
fn parse_integer(text: &Vec<char>, pos: usize) -> (result: Result<(Integer, usize), SyntaxError>)
    requires
        pos < text.len(),
        ascii_digit(text@[pos as int]),
    ensures
        match result {
            Ok((value, end)) => pos < end <= text.len() && integer_literal(text@, pos as int)
                == Ok::<(nat, nat), SyntaxError>((value@, (end - pos) as nat)),
            Err(e) => integer_literal(text@, pos as int) == Err::<(nat, nat), SyntaxError>(e),
        },
{
    let (radix, start): (u32, usize) = if is_at(text, pos, '0') && is_at(text, pos + 1, 'x') {
        (16, pos + 2)
    } else if is_at(text, pos, '0') && is_at(text, pos + 1, 'o') {
        (8, pos + 2)
    } else if is_at(text, pos, '0') && is_at(text, pos + 1, 'b') {
        (2, pos + 2)
    } else {
        (10, pos)
    };
    let (digits, end) = read_digits(text, start, radix);
    if digits.len() == 0 || (end < text.len() && is_ident_continue(text[end])) {
        Err(unexpected_at(text, end))
    } else {
        Ok((Integer::from_digits(&digits, radix), end))
    }
}

/// Reads the tuple index at `pos`: the index, and the position behind it.
fn parse_tuple_index(text: &Vec<char>, pos: usize) -> (result: Result<(usize, usize), SyntaxError>)
    requires
        pos < text.len(),
        ascii_digit(text@[pos as int]),
    ensures
        match result {
            Ok((value, end)) => pos < end <= text.len() && tuple_index(text@, pos as int) == Ok::<
                (nat, nat),
                SyntaxError,
            >((value as nat, (end - pos) as nat)),
            Err(e) => tuple_index(text@, pos as int) == Err::<(nat, nat), SyntaxError>(e),
        },
{
    let mut digits: Vec<u8> = Vec::new();
    let mut i: usize = pos;
    let mut more = true;
    while more
        invariant
            pos <= i <= text.len(),
            pos < text.len(),
            ascii_digit(text@[pos as int]),
            digits_below(digits@, 10),
            digits@.len() == i - pos,
            more ==> decimal_run(text@, pos as int, Seq::empty()) == decimal_run(
                text@,
                i as int,
                digits@,
            ),
            !more ==> decimal_run(text@, pos as int, Seq::empty()) == (digits@, i as int),
            !more ==> i > pos,
        decreases text.len() - i, if more { 1nat } else { 0nat },
    {
        if i < text.len() {
            match digit_of(text[i], 10) {
                Some(d) => {
                    digits.push(d);
                    i += 1;
                },
                None => {
                    more = false;
                },
            }
        } else {
            more = false;
        }
    }
    match crate::integer::decimal_to_usize(&digits) {
        Some(value) => Ok((value, i)),
        None => Err(SyntaxError { kind: SyntaxErrorKind::IndexTooLarge, position: pos }),
    }
}

/// The largest number that `count` hexadecimal digits write.
pub open spec fn hex_bound(count: nat) -> nat {
    if count == 0 {
        0
    } else if count == 1 {
        0xf
    } else if count == 2 {
        0xff
    } else if count == 3 {
        0xfff
    } else if count == 4 {
        0xffff
    } else if count == 5 {
        0xf_ffff
    } else {
        0xff_ffff
    }
}

/// The number that up to six hexadecimal digits write.
fn hex_value(digits: &Vec<u8>) -> (n: u32)
    requires
        digits.len() <= 6,
        digits_below(digits@, 16),
    ensures
        n == digits_value(digits@, 16),
{
    let mut n: u32 = 0;
    let mut i: usize = 0;
    while i < digits.len()
        invariant
            i <= digits.len() <= 6,
            digits_below(digits@, 16),
            n == digits_value(digits@.take(i as int), 16),
            n <= hex_bound(i as nat),
        decreases digits.len() - i,
    {
        proof {
            assert(digits@.take(i + 1).drop_last() =~= digits@.take(i as int));
        }
        n = n * 16 + digits[i] as u32;
        i += 1;
    }
    proof {
        assert(digits@.take(i as int) =~= digits@);
    }
    n
}

/// What the result of reading an escape stands for.
pub open spec fn escape_result(result: Result<(char, usize), SyntaxError>, pos: usize) -> Result<
    (char, nat),
    SyntaxError,
> {
    match result {
        Ok((c, end)) => Ok((c, (end - pos) as nat)),
        Err(e) => Err(e),
    }
}

/// The character with the code `n` as the result of the escape that begins
/// at `pos` and ends before `end`; a number that is no scalar value makes
/// the escape invalid.
fn escaped_character(n: u32, pos: usize, end: usize) -> (result: Result<(char, usize), SyntaxError>)
    ensures
        result == if scalar_value(n) {
            Ok::<(char, usize), SyntaxError>((char_of(n as nat), end))
        } else {
            Err::<(char, usize), SyntaxError>(
                SyntaxError { kind: SyntaxErrorKind::InvalidEscape, position: pos },
            )
        },
{
    match char_from_u32(n) {
        Some(c) => {
            proof {
                vstd::utf8::char_u32_cast(c, n);
            }
            Ok((c, end))
        },
        None => Err(SyntaxError { kind: SyntaxErrorKind::InvalidEscape, position: pos }),
    }
}

/// Reads the escape `\xHH` whose `x` stands at `pos`.
fn parse_hex_escape(text: &Vec<char>, pos: usize) -> (result: Result<(char, usize), SyntaxError>)
    requires
        pos < text.len(),
    ensures
        escape_result(result, pos) == hex_escape(text@, pos as int),
        result matches Ok((_, end)) ==> pos < end <= text.len(),
{
    if pos + 1 >= text.len() {
        return Err(unexpected_at(text, pos + 1));
    }
    match digit_of(text[pos + 1], 16) {
        Some(high) => {
            if pos + 2 >= text.len() {
                return Err(unexpected_at(text, pos + 2));
            }
            match digit_of(text[pos + 2], 16) {
                Some(low) => {
                    let n: u32 = 16 * (high as u32) + low as u32;
                    if n <= 0x7f {
                        escaped_character(n, pos, pos + 3)
                    } else {
                        Err(SyntaxError { kind: SyntaxErrorKind::InvalidEscape, position: pos })
                    }
                },
                None => Err(unexpected_at(text, pos + 2)),
            }
        },
        None => Err(unexpected_at(text, pos + 1)),
    }
}

/// Reads the escape `\u{H..}` whose `u` stands at `pos`.
fn parse_unicode_escape(text: &Vec<char>, pos: usize) -> (result: Result<
    (char, usize),
    SyntaxError,
>)
    requires
        pos < text.len(),
    ensures
        escape_result(result, pos) == unicode_escape(text@, pos as int),
        result matches Ok((_, end)) ==> pos < end <= text.len(),
{
    if !is_at(text, pos + 1, '{') {
        return Err(unexpected_at(text, pos + 1));
    }
    let (digits, end) = read_digits(text, pos + 2, 16);
    if !is_at(text, end, '}') {
        return Err(unexpected_at(text, end));
    }
    if digits.len() == 0 || digits.len() > 6 {
        return Err(SyntaxError { kind: SyntaxErrorKind::InvalidEscape, position: pos });
    }
    escaped_character(hex_value(&digits), pos, end + 1)
}

/// Reads the escape behind a backslash: the character that it names, and
/// the position behind the escape.
fn parse_escape(text: &Vec<char>, pos: usize) -> (result: Result<(char, usize), SyntaxError>)
    requires
        pos <= text.len(),
    ensures
        escape_result(result, pos) == escape(text@, pos as int),
        result matches Ok((_, end)) ==> pos < end <= text.len(),
{
    if is_at(text, pos, 'n') {
        Ok(('\n', pos + 1))
    } else if is_at(text, pos, 'r') {
        Ok(('\r', pos + 1))
    } else if is_at(text, pos, 't') {
        Ok(('\t', pos + 1))
    } else if is_at(text, pos, '\\') {
        Ok(('\\', pos + 1))
    } else if is_at(text, pos, '0') {
        Ok(('\0', pos + 1))
    } else if is_at(text, pos, '\'') {
        Ok(('\'', pos + 1))
    } else if is_at(text, pos, '"') {
        Ok(('"', pos + 1))
    } else if is_at(text, pos, 'x') {
        parse_hex_escape(text, pos)
    } else if is_at(text, pos, 'u') {
        parse_unicode_escape(text, pos)
    } else if pos < text.len() {
        Err(SyntaxError { kind: SyntaxErrorKind::InvalidEscape, position: pos })
    } else {
        Err(unexpected_at(text, pos))
    }
}

/// The atom that is the literal of the character `c`.
fn char_atom_of(c: char) -> (a: AtomicExpr)
    ensures
        a@ == AtomicExprView::LitChar(c),
{
    AtomicExpr::LitChar(c)
}

/// The atom that the character literal at `pos` is.
pub open spec fn char_atom(s: Seq<char>, pos: int) -> Result<(AtomicExprView, nat), SyntaxError> {
    match char_literal(s, pos) {
        Ok((c, n)) => Ok((AtomicExprView::LitChar(c), n)),
        Err(e) => Err(e),
    }
}

/// Reads the character literal at `pos`: the literal, and the position
/// behind it.
fn parse_char(text: &Vec<char>, pos: usize) -> (result: Result<(AtomicExpr, usize), SyntaxError>)
    requires
        pos < text.len(),
    ensures
        atom_result(result, pos) == char_atom(text@, pos as int),
        result matches Ok((_, end)) ==> pos < end <= text.len(),
{
    if is_at(text, pos + 1, '\\') {
        match parse_escape(text, pos + 2) {
            Ok((c, end)) => if is_at(text, end, '\'') {
                Ok((char_atom_of(c), end + 1))
            } else {
                Err(unexpected_at(text, end))
            },
            Err(e) => Err(e),
        }
    } else if pos + 1 < text.len() && text[pos + 1] != '\'' {
        if is_at(text, pos + 2, '\'') {
            Ok((char_atom_of(text[pos + 1]), pos + 3))
        } else {
            Err(unexpected_at(text, pos + 2))
        }
    } else {
        Err(unexpected_at(text, pos + 1))
    }
}

/// Reads the string literal at `pos`: the text that it holds, and the
/// position behind the literal.
fn parse_string(text: &Vec<char>, pos: usize) -> (result: Result<(String, usize), SyntaxError>)
    requires
        pos < text.len(),
    ensures
        match result {
            Ok((value, end)) => pos < end <= text.len() && string_literal(text@, pos as int)
                == Ok::<(Seq<char>, nat), SyntaxError>((value@, (end - pos) as nat)),
            Err(e) => string_literal(text@, pos as int) == Err::<(Seq<char>, nat), SyntaxError>(
                e,
            ),
        },
{
    let mut value = String::new();
    let mut i: usize = pos + 1;
    loop
        invariant
            pos < i <= text.len(),
            string_body(text@, pos + 1, Seq::empty()) == string_body(text@, i as int, value@),
        decreases text.len() - i,
    {
        if i >= text.len() {
            return Err(unexpected_at(text, i));
        }
        let c = text[i];
        if c == '"' {
            return Ok((value, i + 1));
        } else if c == '\\' {
            match parse_escape(text, i + 1) {
                Ok((escaped, end)) => {
                    value.push(escaped);
                    i = end;
                },
                Err(e) => {
                    return Err(e);
                },
            }
        } else {
            value.push(c);
            i += 1;
        }
    }
}

fn is_begin_of_suffix(c: char) -> (b: bool)
    ensures
        b == begins_suffix(c),
{
    c == '.' || c == '?' || c == '[' || c == '}'
}

/// What the result of the parser stands for.
pub open spec fn expression_result(result: Result<(Expr, usize), SyntaxError>, pos: usize) -> Result<
    (ExprView, nat),
    SyntaxError,
> {
    match result {
        Ok((e, end)) => Ok((e@, (end - pos) as nat)),
        Err(e) => Err(e),
    }
}

/// What the result of reading an atom stands for.
pub open spec fn atom_result(result: Result<(AtomicExpr, usize), SyntaxError>, pos: usize) -> Result<
    (AtomicExprView, nat),
    SyntaxError,
> {
    match result {
        Ok((a, end)) => Ok((a@, (end - pos) as nat)),
        Err(e) => Err(e),
    }
}

/// What the result of reading arguments stands for.
pub open spec fn arguments_result(
    result: Result<(Vec<Expr>, usize), SyntaxError>,
    pos: usize,
) -> Result<(Seq<ExprView>, nat), SyntaxError> {
    match result {
        Ok((args, end)) => Ok((exprs_view(args@), (end - pos) as nat)),
        Err(e) => Err(e),
    }
}

/// What the result of reading suffixes stands for.
pub open spec fn suffixes_result(result: Result<(Vec<Suffix>, usize), SyntaxError>) -> Result<
    (Seq<SuffixView>, int),
    SyntaxError,
> {
    match result {
        Ok((found, end)) => Ok((suffixes_view(found@), end as int)),
        Err(e) => Err(e),
    }
}

/// Reads the expression at `pos`: the expression, and the position behind
/// it.
pub fn parse_expr(text: &Vec<char>, pos: usize, implicit_root: bool) -> (result: Result<
    (Expr, usize),
    SyntaxError,
>)
    ensures
        expression_result(result, pos) == expression(text@, pos as int, implicit_root),
        result matches Ok((_, end)) ==> pos <= end <= text.len(),
    decreases remaining(text@, pos as int), 4nat,
{
    let first = if implicit_root && pos < text.len() && is_begin_of_suffix(text[pos]) {
        Ok((AtomicExpr::BuildInfo, pos))
    } else {
        parse_atom(text, pos)
    };
    match first {
        Ok((atom, q)) => match parse_suffixes(text, q) {
            Ok((suffixes, end)) => {
                let e = Expr { atom, suffixes };
                proof {
                    lemma_expr_view(e);
                }
                Ok((e, end))
            },
            Err(e) => Err(e),
        },
        Err(e) => Err(e),
    }
}

/// Reads the atom at `pos`: the atom, and the position behind it.
fn parse_atom(text: &Vec<char>, pos: usize) -> (result: Result<(AtomicExpr, usize), SyntaxError>)
    ensures
        atom_result(result, pos) == atom(text@, pos as int),
        result matches Ok((_, end)) ==> pos <= end <= text.len(),
    decreases remaining(text@, pos as int), 3nat,
{
    if pos >= text.len() {
        return Err(unexpected_at(text, pos));
    }
    let c = text[pos];
    if c == '(' {
        match parse_expr(text, pos + 1, false) {
            Ok((e, end)) => if is_at(text, end, ')') {
                Ok((AtomicExpr::Parenthesized(Box::new(e)), end + 1))
            } else {
                Err(unexpected_at(text, end))
            },
            Err(e) => Err(e),
        }
    } else if c == '\'' {
        parse_char(text, pos)
    } else if c == '"' {
        match parse_string(text, pos) {
            Ok((value, end)) => Ok((AtomicExpr::LitStr(value), end)),
            Err(e) => Err(e),
        }
    } else if is_ascii_digit(c) {
        match parse_integer(text, pos) {
            Ok((value, end)) => Ok((AtomicExpr::LitInt(value), end)),
            Err(e) => Err(e),
        }
    } else {
        parse_named_atom(text, pos)
    }
}

/// Reads the atom at `pos` that begins with a name.
fn parse_named_atom(text: &Vec<char>, pos: usize) -> (result: Result<
    (AtomicExpr, usize),
    SyntaxError,
>)
    requires
        pos <= text.len(),
    ensures
        atom_result(result, pos) == named_atom(text@, pos as int),
        result matches Ok((_, end)) ==> pos <= end <= text.len(),
    decreases remaining(text@, pos as int), 2nat,
{
    match parse_id(text, pos) {
        Ok((name, end)) => {
            if same_text(name.as_str(), "true") {
                Ok((AtomicExpr::LitBool(true), end))
            } else if same_text(name.as_str(), "false") {
                Ok((AtomicExpr::LitBool(false), end))
            } else if same_text(name.as_str(), "build_info") {
                Ok((AtomicExpr::BuildInfo, end))
            } else {
                if is_at(text, end, '(') {
                    match parse_arguments(text, end + 1) {
                        Ok((args, behind)) => {
                            proof {
                                lemma_call_view(name, args);
                            }
                            Ok((AtomicExpr::FunctionCall(name, args), behind))
                        },
                        Err(e) => Err(e),
                    }
                } else {
                    Err(unexpected_at(text, end))
                }
            }
        },
        Err(e) => Err(e),
    }
}

/// What the result of reading one suffix stands for.
pub open spec fn suffix_result(
    result: Result<Option<(Suffix, usize)>, SyntaxError>,
    pos: usize,
) -> Result<Option<(SuffixView, nat)>, SyntaxError> {
    match result {
        Ok(Some((found, end))) => Ok(Some((found@, (end - pos) as nat))),
        Ok(None) => Ok(None),
        Err(e) => Err(e),
    }
}

/// The suffix that a name behind a `.` begins, where `dot` is the position
/// of the `.` and `pos` that of the name: a field access or a call.
pub open spec fn named_suffix(s: Seq<char>, dot: int, pos: int) -> Result<
    Option<(SuffixView, nat)>,
    SyntaxError,
>
    decreases remaining(s, pos), 0nat,
{
    match identifier(s, pos) {
        Ok((name, n)) => {
            if at(s, pos + n, '(') {
                match arguments(s, pos + n + 1) {
                    Ok((args, m)) => Ok(
                        Some(
                            (SuffixView::FunctionCall(name, args), (pos + n + 1 + m - dot) as nat),
                        ),
                    ),
                    Err(e) => Err(e),
                }
            } else {
                Ok(Some((SuffixView::Field(name), (pos + n - dot) as nat)))
            }
        },
        Err(e) => Err(e),
    }
}

/// Reads the field access or call whose name stands at `pos`, behind the
/// `.` at `dot`.
fn parse_named_suffix(text: &Vec<char>, dot: usize, pos: usize) -> (result: Result<
    Option<(Suffix, usize)>,
    SyntaxError,
>)
    requires
        dot < pos <= text.len(),
    ensures
        suffix_result(result, dot) == named_suffix(text@, dot as int, pos as int),
        result matches Ok(Some((_, end))) ==> pos < end <= text.len(),
        !(result matches Ok(None)),
    decreases remaining(text@, pos as int), 0nat,
{
    match parse_id(text, pos) {
        Ok((name, end)) => {
            if is_at(text, end, '(') {
                match parse_arguments(text, end + 1) {
                    Ok((args, behind)) => {
                        proof {
                            lemma_call_view(name, args);
                        }
                        Ok(Some((Suffix::FunctionCall(name, args), behind)))
                    },
                    Err(e) => Err(e),
                }
            } else {
                Ok(Some((Suffix::Field(name), end)))
            }
        },
        Err(e) => Err(e),
    }
}

/// The suffix that the tuple index at `pos` is, behind the `.` at `dot`.
pub open spec fn index_suffix(s: Seq<char>, dot: int, pos: int) -> Result<
    Option<(SuffixView, nat)>,
    SyntaxError,
> {
    match tuple_index(s, pos) {
        Ok((i, n)) => Ok(Some((SuffixView::TupleIndex(i), (pos + n - dot) as nat))),
        Err(e) => Err(e),
    }
}

/// Reads the suffix that begins with the `.` at `pos`.
fn parse_dot_suffix(text: &Vec<char>, pos: usize) -> (result: Result<
    Option<(Suffix, usize)>,
    SyntaxError,
>)
    requires
        pos < text.len(),
        at(text@, pos as int, '.'),
    ensures
        suffix_result(result, pos) == suffix(text@, pos as int),
        result matches Ok(Some((_, end))) ==> pos < end <= text.len(),
        !(result matches Ok(None)),
    decreases remaining(text@, pos as int), 1nat,
{
    if pos + 1 < text.len() && is_ascii_digit(text[pos + 1]) {
        match parse_tuple_index(text, pos + 1) {
            Ok((index, end)) => Ok(Some((Suffix::TupleIndex(index), end))),
            Err(e) => Err(e),
        }
    } else {
        parse_named_suffix(text, pos, skip_ws(text, pos + 1))
    }
}

/// Reads the suffix at `pos`, if one begins there: the suffix, and the
/// position behind it.
fn parse_suffix(text: &Vec<char>, pos: usize) -> (result: Result<
    Option<(Suffix, usize)>,
    SyntaxError,
>)
    requires
        pos < text.len(),
    ensures
        suffix_result(result, pos) == suffix(text@, pos as int),
        result matches Ok(Some((_, end))) ==> pos < end <= text.len(),
    decreases remaining(text@, pos as int), 2nat,
{
    if is_at(text, pos, '?') {
        Ok(Some((Suffix::Unwrap, pos + 1)))
    } else if is_at(text, pos, '.') {
        parse_dot_suffix(text, pos)
    } else if is_at(text, pos, '[') {
        match parse_expr(text, pos + 1, false) {
            Ok((e, end)) => {
                if is_at(text, end, ']') {
                    Ok(Some((Suffix::ArrayIndex(e), end + 1)))
                } else {
                    Err(unexpected_at(text, end))
                }
            },
            Err(e) => Err(e),
        }
    } else {
        Ok(None)
    }
}

/// Reads the suffixes from `pos` on: the suffixes, and the position behind
/// them.
fn parse_suffixes(text: &Vec<char>, pos: usize) -> (result: Result<
    (Vec<Suffix>, usize),
    SyntaxError,
>)
    requires
        pos <= text.len(),
    ensures
        suffixes_result(result) == suffixes(text@, pos as int, Seq::empty()),
        result matches Ok((_, end)) ==> pos <= end <= text.len(),
    decreases remaining(text@, pos as int), 3nat,
{
    let mut found: Vec<Suffix> = Vec::new();
    let mut i: usize = pos;
    proof {
        assert(suffixes_view(found@) =~= Seq::<SuffixView>::empty());
    }
    loop
        invariant
            pos <= i <= text.len(),
            suffixes(text@, pos as int, Seq::empty()) == suffixes(
                text@,
                i as int,
                suffixes_view(found@),
            ),
        decreases text.len() - i,
    {
        let ghost before = suffixes_view(found@);
        if i >= text.len() {
            return Ok((found, i));
        }
        match parse_suffix(text, i) {
            Ok(Some((next, end))) => {
                let ghost view = next@;
                found.push(next);
                proof {
                    assert(suffixes_view(found@) =~= before.push(view));
                }
                i = end;
            },
            Ok(None) => {
                return Ok((found, i));
            },
            Err(e) => {
                return Err(e);
            },
        }
    }
}

/// Reads the arguments of a call behind its `(`: the arguments, and the
/// position behind the closing `)`.
fn parse_arguments(text: &Vec<char>, pos: usize) -> (result: Result<(Vec<Expr>, usize), SyntaxError>)
    requires
        pos <= text.len(),
    ensures
        arguments_result(result, pos) == arguments(text@, pos as int),
        result matches Ok((_, end)) ==> pos < end <= text.len(),
    decreases remaining(text@, pos as int), 6nat,
{
    let mut args: Vec<Expr> = Vec::new();
    proof {
        assert(exprs_view(args@) =~= Seq::<ExprView>::empty());
    }
    if is_at(text, pos, ')') {
        return Ok((args, pos + 1));
    }
    let mut i: usize = pos;
    loop
        invariant
            pos <= i <= text.len(),
            !at(text@, pos as int, ')'),
            more_arguments(text@, pos as int, Seq::empty()) == more_arguments(
                text@,
                i as int,
                exprs_view(args@),
            ),
        decreases text.len() - i,
    {
        let ghost before = exprs_view(args@);
        match parse_expr(text, i, false) {
            Ok((e, end)) => {
                let ghost view = e@;
                args.push(e);
                proof {
                    assert(exprs_view(args@) =~= before.push(view));
                }
                if is_at(text, end, ',') {
                    i = end + 1;
                } else if is_at(text, end, ')') {
                    return Ok((args, end + 1));
                } else {
                    return Err(unexpected_at(text, end));
                }
            },
            Err(e) => {
                return Err(e);
            },
        }
    }
}

/// Parses a text that is one expression, from its first character to its
/// last.
pub fn parse_expression(text: &str) -> (result: Result<Expr, SyntaxError>)
    ensures
        match result {
            Ok(e) => whole_expression(text@) == Ok::<ExprView, SyntaxError>(e@),
            Err(e) => whole_expression(text@) == Err::<ExprView, SyntaxError>(e),
        },
{
    let chars = chars_of(text);
    match parse_expr(&chars, 0, false) {
        Ok((e, end)) => if end == chars.len() {
            Ok(e)
        } else {
            Err(unexpected_at(&chars, end))
        },
        Err(e) => Err(e),
    }
}

} // verus!
