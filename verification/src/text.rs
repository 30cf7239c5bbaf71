//! Text helpers: characters, decimal numbers and the few operations on
//! strings that the rest of the crate builds on.

use vstd::prelude::*;

verus! {

/// `String::push` appends one character.
pub assume_specification[ String::push ](s: &mut String, c: char)
    ensures
        final(s)@ == old(s)@.push(c),
;

/// Whether two string slices hold the same characters.
pub fn same_text(a: &str, b: &str) -> (same: bool)
    ensures
        same == (a@ == b@),
{
    a.to_owned() == b.to_owned()
}

/// The Unicode property `Alphabetic`, as `char::is_alphabetic` reports it.
pub uninterp spec fn alphabetic(c: char) -> bool;

/// The Unicode properties `Alphabetic` or `Numeric`, as
/// `char::is_alphanumeric` reports them.
pub uninterp spec fn alphanumeric(c: char) -> bool;

/// The letters `a` to `z` and `A` to `Z`.
pub open spec fn ascii_letter(c: char) -> bool {
    ('a' <= c && c <= 'z') || ('A' <= c && c <= 'Z')
}

/// The digits `0` to `9`.
pub open spec fn ascii_digit(c: char) -> bool {
    '0' <= c && c <= '9'
}

/// Calls `char::is_alphabetic`. Among the ASCII characters exactly the
/// letters are alphabetic; of the others the contract only names the answer.
#[verifier::external_body]
pub(crate) fn is_alphabetic(c: char) -> (b: bool)
    ensures
        b == alphabetic(c),
        c <= '\x7f' ==> b == ascii_letter(c),
{
    c.is_alphabetic()
}

/// Calls `char::is_alphanumeric`. Among the ASCII characters exactly the
/// letters and digits are alphanumeric; of the others the contract only names
/// the answer.
#[verifier::external_body]
pub(crate) fn is_alphanumeric(c: char) -> (b: bool)
    ensures
        b == alphanumeric(c),
        c <= '\x7f' ==> b == (ascii_letter(c) || ascii_digit(c)),
{
    c.is_alphanumeric()
}

/// Whether a number is a Unicode scalar value, that is the code of a
/// character: any number up to 0x10FFFF but the surrogates.
pub open spec fn scalar_value(n: u32) -> bool {
    n <= 0xD7FF || (0xE000 <= n && n <= 0x10FFFF)
}

/// Calls `char::from_u32`, which yields the character with the code `n`
/// where `n` is a scalar value, and `None` for every other number.
#[verifier::external_body]
pub(crate) fn char_from_u32(n: u32) -> (c: Option<char>)
    ensures
        scalar_value(n) <==> c is Some,
        c matches Some(ch) ==> ch as u32 == n,
{
    char::from_u32(n)
}

/// The whitespace characters: space, tab, line feed, form feed and carriage
/// return.
pub open spec fn whitespace(c: char) -> bool {
    c == ' ' || c == '\t' || c == '\n' || c == '\x0C' || c == '\r'
}

/// Whether a character is whitespace.
pub fn is_whitespace(c: char) -> (b: bool)
    ensures
        b == whitespace(c),
{
    c == ' ' || c == '\t' || c == '\n' || c == '\x0C' || c == '\r'
}

/// The character that writes a digit below ten.
pub open spec fn digit_char(d: nat) -> char {
    if d == 0 {
        '0'
    } else if d == 1 {
        '1'
    } else if d == 2 {
        '2'
    } else if d == 3 {
        '3'
    } else if d == 4 {
        '4'
    } else if d == 5 {
        '5'
    } else if d == 6 {
        '6'
    } else if d == 7 {
        '7'
    } else if d == 8 {
        '8'
    } else {
        '9'
    }
}

/// The character that writes a digit below ten.
pub fn digit_to_char(d: u8) -> (c: char)
    requires
        d < 10,
    ensures
        c == digit_char(d as nat),
{
    if d == 0 {
        '0'
    } else if d == 1 {
        '1'
    } else if d == 2 {
        '2'
    } else if d == 3 {
        '3'
    } else if d == 4 {
        '4'
    } else if d == 5 {
        '5'
    } else if d == 6 {
        '6'
    } else if d == 7 {
        '7'
    } else if d == 8 {
        '8'
    } else {
        '9'
    }
}

/// The decimal numeral of a natural number, without leading zeros.
pub open spec fn decimal(n: nat) -> Seq<char>
    decreases n,
{
    if n < 10 {
        seq![digit_char(n)]
    } else {
        decimal(n / 10).push(digit_char(n % 10))
    }
}

/// Appends the decimal numeral of `n` to `buffer`.
pub fn push_decimal(buffer: &mut String, n: u64)
    ensures
        final(buffer)@ == old(buffer)@ + decimal(n as nat),
    decreases n,
{
    if n >= 10 {
        push_decimal(buffer, n / 10);
    }
    buffer.push(digit_to_char((n % 10) as u8));
}

/// The parts written one after another, with `separator` between each two.
pub open spec fn join(parts: Seq<Seq<char>>, separator: Seq<char>) -> Seq<char>
    decreases parts.len(),
{
    if parts.len() == 0 {
        Seq::empty()
    } else if parts.len() == 1 {
        parts[0]
    } else {
        join(parts.drop_last(), separator) + separator + parts.last()
    }
}

/// Joining one part more: the separator comes first unless the part is the
/// first one.
pub proof fn lemma_join_step(parts: Seq<Seq<char>>, separator: Seq<char>, i: int)
    requires
        0 <= i < parts.len(),
    ensures
        join(parts.take(i + 1), separator) == if i == 0 {
            parts[i]
        } else {
            join(parts.take(i), separator) + separator + parts[i]
        },
{
    assert(parts.take(i + 1).drop_last() =~= parts.take(i));
}

/// The first `n` characters of a text, or all of it where it is shorter.
pub open spec fn prefix(text: Seq<char>, n: nat) -> Seq<char> {
    if text.len() <= n {
        text
    } else {
        text.take(n as int)
    }
}

/// Appends the first `n` characters of `text`, or all of it where it is
/// shorter.
pub fn push_prefix(buffer: &mut String, text: &str, n: usize)
    ensures
        final(buffer)@ == old(buffer)@ + prefix(text@, n as nat),
{
    let len = text.unicode_len();
    let k = if len <= n {
        len
    } else {
        n
    };
    buffer.append(text.substring_char(0, k));
}

/// How a character is written between quotes of the kind `quote`: the
/// quote itself and the backslash take a backslash before them, and line
/// feed, carriage return and tab are written as `\n`, `\r` and `\t`.
pub open spec fn escaped_char(c: char, quote: char) -> Seq<char> {
    if c == quote || c == '\\' {
        seq!['\\', c]
    } else if c == '\n' {
        seq!['\\', 'n']
    } else if c == '\r' {
        seq!['\\', 'r']
    } else if c == '\t' {
        seq!['\\', 't']
    } else {
        seq![c]
    }
}

/// A text as it is written between quotes of the kind `quote`, without the
/// quotes.
pub open spec fn escaped(text: Seq<char>, quote: char) -> Seq<char>
    decreases text.len(),
{
    if text.len() == 0 {
        Seq::empty()
    } else {
        escaped(text.drop_last(), quote) + escaped_char(text.last(), quote)
    }
}

/// A text between quotes of the kind `quote`.
pub open spec fn quoted(text: Seq<char>, quote: char) -> Seq<char> {
    seq![quote] + escaped(text, quote) + seq![quote]
}

/// Appends a character as it is written between quotes.
pub fn push_escaped_char(buffer: &mut String, c: char, quote: char)
    ensures
        final(buffer)@ == old(buffer)@ + escaped_char(c, quote),
{
    if c == quote || c == '\\' {
        buffer.push('\\');
        buffer.push(c);
    } else if c == '\n' {
        buffer.append("\\n");
        proof {
            reveal_strlit("\\n");
        }
    } else if c == '\r' {
        buffer.append("\\r");
        proof {
            reveal_strlit("\\r");
        }
    } else if c == '\t' {
        buffer.append("\\t");
        proof {
            reveal_strlit("\\t");
        }
    } else {
        buffer.push(c);
    }
}

/// Appends a text between quotes of the kind `quote`.
pub fn push_quoted(buffer: &mut String, text: &str, quote: char)
    ensures
        final(buffer)@ == old(buffer)@ + quoted(text@, quote),
{
    buffer.push(quote);
    let chars = chars_of(text);
    let mut i: usize = 0;
    while i < chars.len()
        invariant
            chars@ == text@,
            i <= chars.len(),
            buffer@ == old(buffer)@ + seq![quote] + escaped(text@.take(i as int), quote),
        decreases chars.len() - i,
    {
        proof {
            assert(text@.take(i + 1).drop_last() =~= text@.take(i as int));
        }
        push_escaped_char(buffer, chars[i], quote);
        i += 1;
    }
    proof {
        assert(text@.take(i as int) =~= text@);
    }
    buffer.push(quote);
}

/// What each of the strings holds.
pub open spec fn strings_view(strings: Seq<String>) -> Seq<Seq<char>> {
    Seq::new(strings.len(), |i: int| strings[i]@)
}

/// What a string that may be absent holds.
pub open spec fn text_option_view(text: Option<String>) -> Option<Seq<char>> {
    match text {
        Some(t) => Some(t@),
        None => None,
    }
}

/// The characters of a string slice, one by one.
pub fn chars_of(s: &str) -> (chars: Vec<char>)
    ensures
        chars@ == s@,
{
    let mut chars: Vec<char> = Vec::new();
    for c in it: s.chars()
        invariant
            it.seq() == s@,
            chars@ == s@.take(it.index() as int),
    {
        chars.push(c);
    }
    chars
}

/// A string that holds the characters `chars[from..to]`.
pub fn string_of(chars: &Vec<char>, from: usize, to: usize) -> (s: String)
    requires
        from <= to <= chars.len(),
    ensures
        s@ == chars@.subrange(from as int, to as int),
{
    let mut s = String::new();
    let mut i: usize = from;
    while i < to
        invariant
            from <= i <= to <= chars.len(),
            s@ == chars@.subrange(from as int, i as int),
        decreases to - i,
    {
        s.push(chars[i]);
        i += 1;
    }
    s
}

} // verus!
