//! Decimal text of integers, built character by character.
use vstd::prelude::*;
use crate::boundary::{digit_char, is_ascii_digit, push_char};

verus! {

/// The decimal digits of `n`, most significant first, without leading zeros.
pub open spec fn decimal_nat(n: nat) -> Seq<char>
    decreases n,
{
    if n < 10 {
        seq![digit_char(n as int)]
    } else {
        decimal_nat(n / 10).push(digit_char((n % 10) as int))
    }
}

/// The decimal text of `n`: a `-` before the digits of a negative number.
pub open spec fn decimal_int(n: int) -> Seq<char> {
    if n < 0 {
        seq!['-'] + decimal_nat((-n) as nat)
    } else {
        decimal_nat(n as nat)
    }
}

/// The number that a sequence of decimal digits denotes.
pub open spec fn digits_value(s: Seq<char>) -> int
    decreases s.len(),
{
    if s.len() == 0 {
        0
    } else {
        digits_value(s.drop_last()) * 10 + (s.last() as int - 48)
    }
}

/// The digits of `n` are decimal digits and denote `n`.
pub proof fn lemma_decimal_nat(n: nat)
    ensures
        decimal_nat(n).len() >= 1,
        forall|i: int| 0 <= i < decimal_nat(n).len() ==> is_ascii_digit(#[trigger] decimal_nat(n)[i]),
        digits_value(decimal_nat(n)) == n,
    decreases n,
{
    let d = (n % 10) as int;
    assert(digit_char(d) as int == d + 48);
    if n < 10 {
        let s = decimal_nat(n);
        assert(s.drop_last() =~= Seq::<char>::empty());
        assert(digits_value(s.drop_last()) == 0);
        assert(digits_value(s) == d);
    } else {
        lemma_decimal_nat(n / 10);
        let s = decimal_nat(n);
        assert(s.drop_last() =~= decimal_nat(n / 10));
        assert(s.last() == digit_char(d));
        assert(digits_value(s) == (n / 10) * 10 + d);
    }
}

/// The digits of a positive number start with a nonzero digit.
pub proof fn lemma_decimal_nat_leading(n: nat)
    requires
        n >= 1,
    ensures
        decimal_nat(n)[0] != '0',
    decreases n,
{
    if n < 10 {
        assert(digit_char(n as int) as int == n + 48);
    } else {
        lemma_decimal_nat_leading(n / 10);
        lemma_decimal_nat(n / 10);
    }
}

/// Distinct integers have distinct decimal texts.
pub proof fn lemma_decimal_int_injective(a: int, b: int)
    requires
        decimal_int(a) == decimal_int(b),
    ensures
        a == b,
{
    lemma_decimal_nat((-a) as nat);
    lemma_decimal_nat((-b) as nat);
    lemma_decimal_nat(a as nat);
    lemma_decimal_nat(b as nat);
    if a < 0 && b < 0 {
        assert(decimal_int(a).subrange(1, decimal_int(a).len() as int) =~= decimal_nat((-a) as nat));
        assert(decimal_int(b).subrange(1, decimal_int(b).len() as int) =~= decimal_nat((-b) as nat));
    } else if a < 0 {
        assert(decimal_int(a)[0] == '-');
        assert(is_ascii_digit(decimal_nat(b as nat)[0]));
    } else if b < 0 {
        assert(decimal_int(b)[0] == '-');
        assert(is_ascii_digit(decimal_nat(a as nat)[0]));
    }
}

/// Appends the decimal digits of `n`.
pub fn push_decimal(s: &mut String, n: u64)
    ensures
        final(s)@ == old(s)@ + decimal_nat(n as nat),
    decreases n,
{
    if n >= 10 {
        push_decimal(s, n / 10);
    }
    let d: u8 = (n % 10) as u8;
    let c: char = (d + 48) as char;
    push_char(s, c);
    proof {
        if n >= 10 {
            assert(decimal_nat(n as nat) == decimal_nat((n / 10) as nat).push(digit_char((n % 10) as int)));
        }
    }
    assert(s@ =~= old(s)@ + decimal_nat(n as nat));
}

/// The decimal text of `n`, as `i64::to_string` writes it.
pub fn i64_text(n: i64) -> (r: String)
    ensures
        r@ == decimal_int(n as int),
{
    let mut s = String::new();
    if n < 0 {
        push_char(&mut s, '-');
        let m: u64 = (-(n as i128)) as u64;
        push_decimal(&mut s, m);
    } else {
        push_decimal(&mut s, n as u64);
    }
    s
}

} // verus!
