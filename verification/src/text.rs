//! Text the library builds itself: decimal numerals for query values.

use vstd::prelude::*;

verus! {

/// `String::push`, which std documents as appending the given `char` to the
/// end of the string; the claim here is exactly that.
#[verifier::external_body]
pub(crate) fn push_char(s: &mut String, c: char)
    ensures
        final(s)@ == old(s)@.push(c),
{
    s.push(c);
}

/// The decimal digits of `n`, most significant first, without leading zeros
/// (`0` is the single digit `0`).
pub open spec fn decimal_digits(n: nat) -> Seq<u8>
    decreases n,
{
    if n < 10 {
        seq![n as u8]
    } else {
        decimal_digits(n / 10).push((n % 10) as u8)
    }
}

/// The ASCII character of a decimal digit.
pub open spec fn digit_char(d: u8) -> char {
    (d + 48) as char
}

/// The decimal numeral of `n`, as `u32::to_string` writes it.
pub open spec fn decimal(n: nat) -> Seq<char> {
    decimal_digits(n).map_values(|d: u8| digit_char(d))
}

/// The number a sequence of decimal digits denotes, most significant first.
pub open spec fn digits_value(digits: Seq<u8>) -> nat
    decreases digits.len(),
{
    if digits.len() == 0 {
        0
    } else {
        digits_value(digits.drop_last()) * 10 + digits.last() as nat
    }
}

/// Reading the numeral back gives the number: every digit is below ten, the
/// first is zero only for `0` itself, and the digits denote `n`.
pub proof fn decimal_digits_denote(n: nat)
    ensures
        decimal_digits(n).len() >= 1,
        forall|i: int| 0 <= i < decimal_digits(n).len() ==> #[trigger] decimal_digits(n)[i] < 10,
        decimal_digits(n)[0] == 0 ==> n == 0,
        digits_value(decimal_digits(n)) == n,
    decreases n,
{
    let d = decimal_digits(n);
    if n >= 10 {
        decimal_digits_denote(n / 10);
        assert(d.drop_last() =~= decimal_digits(n / 10));
        assert(n == (n / 10) * 10 + n % 10) by (nonlinear_arith);
        assert(d.last() as nat == n % 10);
        assert(digits_value(d) == digits_value(d.drop_last()) * 10 + d.last() as nat);
    } else {
        assert(d.drop_last() =~= Seq::<u8>::empty());
        assert(digits_value(d.drop_last()) == 0);
    }
}

fn digit_to_char(d: u8) -> (c: char)
    requires
        d < 10,
    ensures
        c == digit_char(d),
{
    (d + 48) as char
}

/// The decimal numeral of `n` (what `n.to_string()` gives).
pub fn decimal_string(n: u32) -> (s: String)
    ensures
        s@ == decimal(n as nat),
{
    let mut rem: u32 = n;
    let mut digits: Vec<u8> = Vec::new();
    while rem >= 10
        invariant
            decimal_digits(n as nat) == decimal_digits(rem as nat) + digits@,
            forall|k: int| 0 <= k < digits.len() ==> #[trigger] digits@[k] < 10,
        decreases rem,
    {
        let ghost before = digits@;
        assert(decimal_digits(rem as nat) == decimal_digits((rem / 10) as nat).push((rem % 10) as u8));
        digits.insert(0, (rem % 10) as u8);
        assert(decimal_digits(rem as nat) + before =~= decimal_digits((rem / 10) as nat) + digits@);
        rem = rem / 10;
    }
    let ghost before = digits@;
    digits.insert(0, rem as u8);
    assert(digits@ =~= decimal_digits(n as nat));
    let mut out = String::new();
    let len = digits.len();
    for i in 0..len
        invariant
            len == digits.len(),
            digits@ == decimal_digits(n as nat),
            forall|k: int| 0 <= k < digits.len() ==> #[trigger] digits@[k] < 10,
            out@ =~= digits@.take(i as int).map_values(|d: u8| digit_char(d)),
    {
        let c = digit_to_char(digits[i]);
        push_char(&mut out, c);
        assert(digits@.take(i + 1) =~= digits@.take(i as int).push(digits@[i as int]));
    }
    assert(digits@.take(len as int) =~= digits@);
    out
}

} // verus!
