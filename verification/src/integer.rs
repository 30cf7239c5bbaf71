//! Non-negative integers of any size, kept as decimal digits.
//!
//! Integer literals of an expression can be arbitrarily long, so their value
//! does not fit a machine word. An [`Integer`] keeps the decimal digits of
//! the value; its view is the value itself.

use crate::text::{decimal, digit_char, digit_to_char};
use num_bigint::BigUint;
use vstd::prelude::*;

verus! {

/// The number that `digits` write in base `radix`, most significant digit
/// first.
pub open spec fn digits_value(digits: Seq<u8>, radix: nat) -> nat
    decreases digits.len(),
{
    if digits.len() == 0 {
        0
    } else {
        digits_value(digits.drop_last(), radix) * radix + digits.last() as nat
    }
}

/// Every digit is below the radix.
pub open spec fn digits_below(digits: Seq<u8>, radix: nat) -> bool {
    forall|i: int| 0 <= i < digits.len() ==> (#[trigger] digits[i]) < radix
}

/// Decimal digits without a leading zero; zero itself is the single digit 0.
pub open spec fn canonical_decimal(digits: Seq<u8>) -> bool {
    &&& digits.len() > 0
    &&& digits_below(digits, 10)
    &&& digits.len() > 1 ==> digits[0] != 0
}

/// The decimal digits of a natural number.
pub open spec fn decimal_digits(n: nat) -> Seq<u8>
    decreases n,
{
    if n < 10 {
        seq![n as u8]
    } else {
        decimal_digits(n / 10).push((n % 10) as u8)
    }
}

/// The characters that write a sequence of decimal digits.
pub open spec fn decimal_text(digits: Seq<u8>) -> Seq<char> {
    Seq::new(digits.len(), |i: int| digit_char(digits[i] as nat))
}

/// The decimal digits of `n` are canonical and write `n`.
pub proof fn lemma_decimal_digits(n: nat)
    ensures
        canonical_decimal(decimal_digits(n)),
        digits_value(decimal_digits(n), 10) == n,
        decimal_text(decimal_digits(n)) == decimal(n),
        n >= 10 ==> decimal_digits(n)[0] != 0,
    decreases n,
{
    if n < 10 {
        let d = seq![n as u8];
        assert(digits_value(d.drop_last(), 10) == 0);
    } else {
        lemma_decimal_digits(n / 10);
        let p = decimal_digits(n / 10);
        let d = p.push((n % 10) as u8);
        assert(d.drop_last() =~= p);
        if n / 10 < 10 {
        }
    }
}

/// Digits with a nonzero leading digit write a positive number.
proof fn lemma_positive(digits: Seq<u8>)
    requires
        digits.len() > 0,
        digits[0] != 0,
    ensures
        digits_value(digits, 10) > 0,
    decreases digits.len(),
{
    if digits.len() > 1 {
        lemma_positive(digits.drop_last());
    }
}

/// Canonical digits are the decimal digits of the number they write.
pub proof fn lemma_canonical_digits(digits: Seq<u8>)
    requires
        canonical_decimal(digits),
    ensures
        decimal_digits(digits_value(digits, 10)) == digits,
    decreases digits.len(),
{
    if digits.len() == 1 {
    } else {
        let p = digits.drop_last();
        lemma_positive(p);
        lemma_canonical_digits(p);
    }
}

/// A prefix of the digits never writes a larger number than all of them.
proof fn lemma_prefix_value(digits: Seq<u8>, k: int)
    requires
        0 <= k <= digits.len(),
    ensures
        digits_value(digits.take(k), 10) <= digits_value(digits, 10),
    decreases digits.len() - k,
{
    if k == digits.len() {
        assert(digits.take(k) =~= digits);
    } else {
        lemma_prefix_value(digits, k + 1);
        assert(digits.take(k + 1).drop_last() =~= digits.take(k));
    }
}

/// Converts digits of any radix to canonical decimal digits with
/// `BigUint::from_radix_be` and `BigUint::to_radix_be`: the first reads
/// big-endian digits below the radix (an empty slice is zero), the second
/// writes the number in base ten without leading zeros (`[0]` for zero).
#[verifier::external_body]
fn to_decimal_digits(digits: &Vec<u8>, radix: u32) -> (out: Vec<u8>)
    requires
        2 <= radix <= 256,
        digits_below(digits@, radix as nat),
    ensures
        canonical_decimal(out@),
        digits_value(out@, 10) == digits_value(digits@, radix as nat),
{
    BigUint::from_radix_be(digits, radix).unwrap().to_radix_be(10)
}

/// A non-negative integer of any size.
#[derive(Debug, PartialEq, Eq)]
pub struct Integer {
    digits: Vec<u8>,
}

impl View for Integer {
    type V = nat;

    closed spec fn view(&self) -> nat {
        digits_value(self.digits@, 10)
    }
}

impl Integer {
    #[verifier::type_invariant]
    closed spec fn well_formed(self) -> bool {
        canonical_decimal(self.digits@)
    }

    /// The integer that `digits` write in base `radix`.
    pub fn from_digits(digits: &Vec<u8>, radix: u32) -> (n: Integer)
        requires
            2 <= radix <= 256,
            digits_below(digits@, radix as nat),
        ensures
            n@ == digits_value(digits@, radix as nat),
    {
        Integer { digits: to_decimal_digits(digits, radix) }
    }

    /// The integer with the value `value`.
    pub fn from_u64(value: u64) -> (n: Integer)
        ensures
            n@ == value,
    {
        let mut digits: Vec<u8> = Vec::new();
        push_digits(&mut digits, value);
        proof {
            lemma_decimal_digits(value as nat);
        }
        Integer { digits }
    }

    /// The integer with the value `value`.
    pub fn from_usize(value: usize) -> (n: Integer)
        ensures
            n@ == value,
    {
        Integer::from_u64(value as u64)
    }

    /// The value as a `usize`, if it fits.
    pub fn to_usize(&self) -> (n: Option<usize>)
        ensures
            self@ <= usize::MAX ==> n == Some(self@ as usize),
            self@ > usize::MAX ==> n is None,
    {
        proof {
            use_type_invariant(self);
        }
        decimal_to_usize(&self.digits)
    }

    /// Appends the decimal numeral of the value to `buffer`.
    pub fn push_to(&self, buffer: &mut String)
        ensures
            final(buffer)@ == old(buffer)@ + decimal(self@),
    {
        proof {
            use_type_invariant(self);
            lemma_canonical_digits(self.digits@);
            lemma_decimal_digits(self@);
        }
        let mut i: usize = 0;
        while i < self.digits.len()
            invariant
                i <= self.digits.len(),
                digits_below(self.digits@, 10),
                buffer@ == old(buffer)@ + decimal_text(self.digits@.take(i as int)),
            decreases self.digits.len() - i,
        {
            buffer.push(digit_to_char(self.digits[i]));
            i += 1;
        }
    }
}

impl Clone for Integer {
    fn clone(&self) -> (copy: Self)
        ensures
            copy@ == self@,
    {
        proof {
            use_type_invariant(self);
        }
        let mut digits: Vec<u8> = Vec::new();
        let mut i: usize = 0;
        while i < self.digits.len()
            invariant
                i <= self.digits.len(),
                digits@ == self.digits@.take(i as int),
            decreases self.digits.len() - i,
        {
            digits.push(self.digits[i]);
            i += 1;
        }
        proof {
            assert(digits@ =~= self.digits@);
        }
        Integer { digits }
    }
}

/// The number that decimal digits write, if it fits a `usize`.
pub fn decimal_to_usize(digits: &Vec<u8>) -> (n: Option<usize>)
    requires
        digits_below(digits@, 10),
    ensures
        digits_value(digits@, 10) <= usize::MAX ==> n == Some(digits_value(digits@, 10) as usize),
        digits_value(digits@, 10) > usize::MAX ==> n is None,
{
    let mut acc: usize = 0;
    let mut i: usize = 0;
    while i < digits.len()
        invariant
            i <= digits.len(),
            digits_below(digits@, 10),
            acc == digits_value(digits@.take(i as int), 10),
        decreases digits.len() - i,
    {
        let d = digits[i] as usize;
        proof {
            assert(digits@.take(i + 1).drop_last() =~= digits@.take(i as int));
            lemma_prefix_value(digits@, i + 1);
        }
        if acc > (usize::MAX - d) / 10 {
            return None;
        }
        acc = acc * 10 + d;
        i += 1;
    }
    proof {
        assert(digits@.take(i as int) =~= digits@);
    }
    Some(acc)
}

/// Appends the decimal digits of `n`.
fn push_digits(digits: &mut Vec<u8>, n: u64)
    ensures
        final(digits)@ == old(digits)@ + decimal_digits(n as nat),
    decreases n,
{
    if n >= 10 {
        push_digits(digits, n / 10);
    }
    digits.push((n % 10) as u8);
}

} // verus!
