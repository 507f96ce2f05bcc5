//! Decimal text for counters and for fixed-point amounts.
//!
//! Amounts carry 18 implied decimal places. Their text shows the whole part in
//! full and at most two digits of the fraction, cut off and never rounded.

use vstd::prelude::*;
use crate::amount::{Amount, managed_quotient, managed_remainder, managed_to_u64, managed_exceeds};
use crate::bytes::reversed;
use crate::factory::PhilanthrifyFactory;

verus! {

/// Smallest units in one whole unit.
pub const ONE_WHOLE: u64 = 1_000_000_000_000_000_000;

/// Smallest units in a tenth of a whole unit.
pub const ONE_TENTH: u64 = 100_000_000_000_000_000;

/// Smallest units in a hundredth of a whole unit.
pub const ONE_HUNDREDTH: u64 = 10_000_000_000_000_000;

/// The ASCII digit for a value below ten.
pub open spec fn digit(value: nat) -> u8 {
    (48 + value) as u8
}

/// The decimal digits of a number, most significant first, without leading
/// zeros; zero is the single digit `0`.
pub open spec fn decimal_digits(number: nat) -> Seq<u8>
    decreases number,
{
    if number < 10 {
        seq![digit(number)]
    } else {
        decimal_digits(number / 10).push(digit(number % 10))
    }
}

/// The number that a string of decimal digits stands for.
pub open spec fn decimal_value(digits: Seq<u8>) -> nat
    decreases digits.len(),
{
    if digits.len() == 0 {
        0
    } else {
        decimal_value(digits.drop_last()) * 10 + (digits.last() - 48) as nat
    }
}

/// The decimal digits of a number are ASCII digits that stand for the number,
/// at least one, and the first of them is a zero only for the number zero.
pub proof fn lemma_decimal_digits(number: nat)
    ensures
        decimal_digits(number).len() >= 1,
        forall|k: int|
            0 <= k < decimal_digits(number).len() ==> 48 <= #[trigger] decimal_digits(number)[k]
                <= 57,
        number > 0 ==> decimal_digits(number)[0] != 48,
        number == 0 ==> decimal_digits(number) == seq![48u8],
        decimal_value(decimal_digits(number)) == number,
    decreases number,
{
    if number < 10 {
        assert(decimal_digits(number).drop_last() =~= Seq::<u8>::empty());
        assert(decimal_value(decimal_digits(number)) == number) by {
            reveal_with_fuel(decimal_value, 2);
        }
    } else {
        lemma_decimal_digits(number / 10);
        let front = decimal_digits(number / 10);
        assert(decimal_digits(number).drop_last() =~= front);
        assert(decimal_digits(number)[0] == front[0]);
    }
}

/// What follows the whole part in the text of an amount: nothing for a
/// fraction of zero, else the point, the tenths, and the hundredths unless
/// nothing is left after the tenths.
pub open spec fn fraction_text(fraction: nat) -> Seq<u8> {
    if fraction == 0 {
        Seq::empty()
    } else if fraction % (ONE_TENTH as nat) == 0 {
        seq![46u8, digit(fraction / (ONE_TENTH as nat))]
    } else {
        seq![
            46u8,
            digit(fraction / (ONE_TENTH as nat)),
            digit(fraction / (ONE_HUNDREDTH as nat) % 10),
        ]
    }
}

/// The text of an amount in whole units.
pub open spec fn egld_text(amount: nat) -> Seq<u8> {
    decimal_digits(amount / (ONE_WHOLE as nat)) + fraction_text(amount % (ONE_WHOLE as nat))
}

/// One step of the long division of a fraction by a whole unit: the next
/// digit, and what is left for the digits after it.
pub open spec fn next_digit(left: nat) -> (nat, nat) {
    (left * 10 / (ONE_WHOLE as nat), left * 10 % (ONE_WHOLE as nat))
}

/// The digits of a fraction are those of its long division by a whole unit,
/// cut off after the second: the first is always written, the second only
/// where the first has left something.
pub proof fn lemma_fraction_by_long_division(fraction: nat)
    requires
        0 < fraction < ONE_WHOLE,
    ensures
        ({
            let (tenths, left) = next_digit(fraction);
            let (hundredths, _) = next_digit(left);
            &&& tenths < 10 && hundredths < 10
            &&& fraction_text(fraction) == if left == 0 {
                seq![46u8, digit(tenths)]
            } else {
                seq![46u8, digit(tenths), digit(hundredths)]
            }
        }),
{
    let (tenths, left) = next_digit(fraction);
    assert(tenths == fraction / (ONE_TENTH as nat));
    assert(left == (fraction % (ONE_TENTH as nat)) * 10);
    assert(next_digit(left).0 == fraction / (ONE_HUNDREDTH as nat) % 10);
}

impl PhilanthrifyFactory {
    /// The decimal digits of a machine integer.
    pub fn u64_to_buffer(value: u64) -> (text: Vec<u8>)
        ensures
            text@ == decimal_digits(value as nat),
    {
        let mut low_first: Vec<u8> = Vec::new();
        let mut rest: u64 = value;
        while rest >= 10
            invariant
                decimal_digits(value as nat) == decimal_digits(rest as nat) + low_first@.reverse(),
            decreases rest,
        {
            let ghost before = low_first@;
            let low: u8 = (rest % 10) as u8;
            low_first.push(48 + low);
            assert(low_first@.reverse() =~= seq![digit((rest % 10) as nat)] + before.reverse());
            assert(decimal_digits(rest as nat) == decimal_digits((rest / 10) as nat).push(
                digit((rest % 10) as nat),
            ));
            assert(decimal_digits(rest as nat) + before.reverse() =~= decimal_digits(
                (rest / 10) as nat,
            ) + low_first@.reverse());
            rest = rest / 10;
        }
        let ghost before = low_first@;
        low_first.push(48 + rest as u8);
        assert(low_first@.reverse() =~= decimal_digits(rest as nat) + before.reverse());
        reversed(&low_first)
    }

    /// The text of an amount in whole units: the whole part in full, then at most
    /// two digits of the fraction.
    pub fn biguint_to_egld_string(value: &Amount) -> (text: Vec<u8>)
        ensures
            text@ == egld_text(value@),
    {
        let one_whole = Amount::from_u64(ONE_WHOLE);
        proof {
            use_type_invariant(value);
            use_type_invariant(&one_whole);
            assert(value@ / (ONE_WHOLE as nat) <= value@) by (nonlinear_arith);
        }
        let whole = managed_quotient(value, &one_whole);
        let mut text = match managed_to_u64(&whole) {
            Some(small) => Self::u64_to_buffer(small),
            None => amount_to_decimal(&whole),
        };
        let left = managed_remainder(value, &one_whole);
        let fraction: u64 = match managed_to_u64(&left) {
            Some(small) => small,
            None => 0,
        };
        if fraction > 0 {
            let ghost whole_text = text@;
            text.push(46);
            let tenths: u64 = fraction / ONE_TENTH;
            text.push(48 + tenths as u8);
            let after_tenths: u64 = fraction % ONE_TENTH;
            if after_tenths > 0 {
                let hundredths: u64 = after_tenths / ONE_HUNDREDTH;
                assert(hundredths == fraction / ONE_HUNDREDTH % 10);
                text.push(48 + hundredths as u8);
                assert(text@ =~= whole_text + fraction_text(fraction as nat));
            } else {
                assert(text@ =~= whole_text + fraction_text(fraction as nat));
            }
        } else {
            assert(text@ =~= text@ + fraction_text(0));
        }
        text
    }
}

/// The decimal digits of an amount of any size.
pub fn amount_to_decimal(value: &Amount) -> (text: Vec<u8>)
    ensures
        text@ == decimal_digits(value@),
{
    let ten = Amount::from_u64(10);
    let nine = Amount::from_u64(9);
    let mut low_first: Vec<u8> = Vec::new();
    let mut rest: Amount = value.clone();
    while managed_exceeds(&rest, &nine)
        invariant
            ten@ == 10,
            nine@ == 9,
            decimal_digits(value@) == decimal_digits(rest@) + low_first@.reverse(),
        decreases rest@,
    {
        let ghost before = low_first@;
        let ghost old_rest = rest@;
        let low = lowest_digit(&rest);
        low_first.push(48 + low);
        proof {
            use_type_invariant(&rest);
        }
        rest = managed_quotient(&rest, &ten);
        assert(low_first@.reverse() =~= seq![digit(old_rest % 10)] + before.reverse());
        assert(decimal_digits(old_rest) == decimal_digits(old_rest / 10).push(
            digit(old_rest % 10),
        ));
        assert(decimal_digits(old_rest) + before.reverse() =~= decimal_digits(rest@)
            + low_first@.reverse());
    }
    let ghost before = low_first@;
    let last = lowest_digit(&rest);
    low_first.push(48 + last);
    assert(low_first@.reverse() =~= decimal_digits(rest@) + before.reverse());
    reversed(&low_first)
}

/// The value of the last decimal digit of an amount.
fn lowest_digit(value: &Amount) -> (low: u8)
    ensures
        low == value@ % 10,
{
    let ten = Amount::from_u64(10);
    proof {
        use_type_invariant(&ten);
    }
    let left = managed_remainder(value, &ten);
    match managed_to_u64(&left) {
        Some(low) => low as u8,
        None => 0,
    }
}

} // verus!
