//! Unsigned amounts far beyond machine integers, counted in the smallest unit.
//!
//! An [`Amount`] holds the big-endian magnitude bytes of its value, the form in
//! which the chain's managed big integers travel. The arithmetic itself is done
//! by `multiversx_sc::types::BigUint`, on the thread's `StaticApi`; the
//! functions at the end of this file are the only places where that happens,
//! and their contracts are believed, not proved. Each of them takes its
//! arguments to managed integers with `BigUint::from_bytes_be` and its result
//! back with `BigUint::to_bytes_be`. The managed integers stay behind in the
//! thread's store, which only `StaticApi::reset` empties.
//!
//! What comes back from a managed integer has its length read as a signed
//! 32-bit number. So an amount has at most [`MAX_AMOUNT_BYTES`] bytes, which is
//! to say that it is below [`amount_limit`], and a sum is asked for only where
//! it stays below that limit too.

use vstd::prelude::*;
use vstd::arithmetic::power::{lemma_pow_adds, lemma_pow_increases, lemma_pow_positive, pow};
use multiversx_sc::types::BigUint;
use multiversx_sc_scenario::api::StaticApi;

verus! {

/// The number that a big-endian string of bytes stands for.
pub open spec fn be_value(bytes: Seq<u8>) -> nat
    decreases bytes.len(),
{
    if bytes.len() == 0 {
        0
    } else {
        be_value(bytes.drop_last()) * 256 + bytes.last() as nat
    }
}

/// The most bytes that an amount can have.
pub const MAX_AMOUNT_BYTES: usize = 0x7fff_ffff;

/// What every amount is below: the least number that takes more than
/// [`MAX_AMOUNT_BYTES`] bytes.
pub open spec fn amount_limit() -> nat {
    pow(256, MAX_AMOUNT_BYTES as nat) as nat
}

/// How many bytes a number takes, without leading zero bytes. Zero takes none.
pub open spec fn byte_length(number: nat) -> nat
    decreases number,
{
    if number == 0 {
        0
    } else {
        1 + byte_length(number / 256)
    }
}

/// A string of bytes stands for a number below 256 to the power of its length.
pub proof fn lemma_value_below_length(bytes: Seq<u8>)
    ensures
        be_value(bytes) < pow(256, bytes.len()),
    decreases bytes.len(),
{
    reveal(pow);
    if bytes.len() > 0 {
        lemma_value_below_length(bytes.drop_last());
    }
}

/// A string of at most [`MAX_AMOUNT_BYTES`] bytes stands for a number below
/// the limit.
pub proof fn lemma_short_is_below_limit(bytes: Seq<u8>)
    requires
        bytes.len() <= MAX_AMOUNT_BYTES,
    ensures
        be_value(bytes) < amount_limit(),
{
    lemma_value_below_length(bytes);
    lemma_pow_increases(256, bytes.len(), MAX_AMOUNT_BYTES as nat);
}

/// Every machine integer is far below the limit.
pub proof fn lemma_machine_integers_below_limit(value: u128)
    ensures
        value < amount_limit(),
{
    assert(pow(256, 16) == 0x1_0000_0000_0000_0000_0000_0000_0000_0000) by {
        reveal_with_fuel(pow, 17);
    }
    lemma_pow_increases(256, 16, MAX_AMOUNT_BYTES as nat);
}

/// A string of bytes that does not begin with a zero byte has as many bytes as
/// its number takes.
pub proof fn lemma_length_without_leading_zero(bytes: Seq<u8>)
    requires
        bytes.len() > 0 ==> bytes[0] != 0,
    ensures
        bytes.len() == byte_length(be_value(bytes)),
        bytes.len() > 0 ==> be_value(bytes) > 0,
    decreases bytes.len(),
{
    if bytes.len() > 0 {
        let front = bytes.drop_last();
        if front.len() > 0 {
            assert(front[0] == bytes[0]);
        }
        lemma_length_without_leading_zero(front);
        assert(be_value(bytes) / 256 == be_value(front));
    }
}

/// Two numbers that each take fewer than [`MAX_AMOUNT_BYTES`] bytes add up to
/// less than the limit.
pub proof fn lemma_sum_below_limit(left: nat, right: nat)
    requires
        byte_length(left) < MAX_AMOUNT_BYTES,
        byte_length(right) < MAX_AMOUNT_BYTES,
    ensures
        left + right < amount_limit(),
{
    lemma_below_power_of_length(left);
    lemma_below_power_of_length(right);
    let most = (MAX_AMOUNT_BYTES - 1) as nat;
    lemma_pow_increases(256, byte_length(left), most);
    lemma_pow_increases(256, byte_length(right), most);
    lemma_pow_adds(256, 1, most);
    assert(pow(256, 1) == 256) by {
        reveal_with_fuel(pow, 2);
    }
    lemma_pow_positive(256, most);
}

/// A number is below 256 to the power of the bytes it takes.
pub proof fn lemma_below_power_of_length(number: nat)
    ensures
        number < pow(256, byte_length(number)),
    decreases number,
{
    reveal(pow);
    if number > 0 {
        lemma_below_power_of_length(number / 256);
    }
}

/// A zero byte in front of a big-endian string changes nothing.
pub proof fn lemma_leading_zero(bytes: Seq<u8>)
    requires
        bytes.len() > 0,
        bytes[0] == 0,
    ensures
        be_value(bytes.skip(1)) == be_value(bytes),
    decreases bytes.len(),
{
    if bytes.len() == 1 {
        assert(bytes.drop_last() =~= Seq::<u8>::empty());
        assert(bytes.skip(1) =~= Seq::<u8>::empty());
        assert(be_value(bytes) == 0) by {
            reveal_with_fuel(be_value, 2);
        }
    } else {
        lemma_leading_zero(bytes.drop_last());
        assert(bytes.skip(1).drop_last() =~= bytes.drop_last().skip(1));
    }
}

/// An unsigned integer of up to [`MAX_AMOUNT_BYTES`] bytes.
#[derive(Debug)]
pub struct Amount {
    magnitude: Vec<u8>,
}

impl View for Amount {
    type V = nat;

    closed spec fn view(&self) -> nat {
        be_value(self.magnitude@)
    }
}

impl Clone for Amount {
    fn clone(&self) -> (copy: Self)
        ensures
            copy@ == self@,
    {
        proof {
            use_type_invariant(self);
        }
        Amount { magnitude: self.magnitude.clone() }
    }
}

impl Amount {
    /// Every amount is below the limit.
    #[verifier::type_invariant]
    pub open spec fn below_limit(&self) -> bool {
        self@ < amount_limit()
    }

    /// The amount that the given big-endian bytes stand for. Leading zero bytes
    /// are allowed and change nothing. There may be no more bytes than an
    /// amount can have.
    pub fn from_bytes_be(bytes: Vec<u8>) -> (amount: Self)
        requires
            bytes@.len() <= MAX_AMOUNT_BYTES,
        ensures
            amount@ == be_value(bytes@),
    {
        proof {
            lemma_short_is_below_limit(bytes@);
        }
        Amount { magnitude: bytes }
    }

    /// The big-endian bytes of the amount, without leading zero bytes. Zero
    /// has no bytes.
    pub fn to_bytes_be(&self) -> (bytes: Vec<u8>)
        ensures
            be_value(bytes@) == self@,
            bytes@.len() > 0 ==> bytes@[0] != 0,
            bytes@.len() == byte_length(self@),
    {
        let mut start: usize = 0;
        assert(self.magnitude@.skip(0) =~= self.magnitude@);
        while start < self.magnitude.len() && self.magnitude[start] == 0
            invariant
                start <= self.magnitude@.len(),
                be_value(self.magnitude@.skip(start as int)) == be_value(self.magnitude@),
            decreases self.magnitude@.len() - start,
        {
            proof {
                let rest = self.magnitude@.skip(start as int);
                lemma_leading_zero(rest);
                assert(rest.skip(1) =~= self.magnitude@.skip(start + 1));
            }
            start += 1;
        }
        let mut bytes: Vec<u8> = Vec::new();
        let mut i: usize = start;
        while i < self.magnitude.len()
            invariant
                start <= i <= self.magnitude@.len(),
                bytes@ == self.magnitude@.subrange(start as int, i as int),
            decreases self.magnitude@.len() - i,
        {
            bytes.push(self.magnitude[i]);
            assert(bytes@ =~= self.magnitude@.subrange(start as int, i + 1));
            i += 1;
        }
        assert(bytes@ =~= self.magnitude@.skip(start as int));
        proof {
            lemma_length_without_leading_zero(bytes@);
        }
        bytes
    }

    /// The amount of the given value.
    pub fn from_u128(value: u128) -> (amount: Self)
        ensures
            amount@ == value,
    {
        managed_from_u128(value)
    }

    /// The amount of the given value.
    pub fn from_u64(value: u64) -> (amount: Self)
        ensures
            amount@ == value,
    {
        managed_from_u128(value as u128)
    }

    /// The amount of nothing.
    pub fn zero() -> (amount: Self)
        ensures
            amount@ == 0,
    {
        proof {
            lemma_machine_integers_below_limit(0);
        }
        Amount { magnitude: Vec::new() }
    }

    /// Whether the amount is nothing.
    pub fn is_zero(&self) -> (answer: bool)
        ensures
            answer == (self@ == 0),
    {
        let nothing = Amount::zero();
        !managed_exceeds(self, &nothing)
    }

    /// Whether each of two amounts takes fewer bytes than an amount can have.
    /// Where they do, their sum is below the limit.
    pub fn can_add(&self, other: &Amount) -> (answer: bool)
        ensures
            answer == (byte_length(self@) < MAX_AMOUNT_BYTES && byte_length(other@)
                < MAX_AMOUNT_BYTES),
            answer ==> self@ + other@ < amount_limit(),
    {
        let answer = self.to_bytes_be().len() < MAX_AMOUNT_BYTES && other.to_bytes_be().len()
            < MAX_AMOUNT_BYTES;
        proof {
            if answer {
                lemma_sum_below_limit(self@, other@);
            }
        }
        answer
    }

    /// Whether two amounts are the same number, whatever bytes hold them.
    pub fn same_value(&self, other: &Amount) -> (answer: bool)
        ensures
            answer == (self@ == other@),
    {
        !managed_exceeds(self, other) && !managed_exceeds(other, self)
    }
}

/// `BigUint::from(u128)`: the managed integer with the value of `value`.
#[verifier::external_body]
pub(crate) fn managed_from_u128(value: u128) -> (amount: Amount)
    ensures
        amount@ == value,
{
    let number = BigUint::<StaticApi>::from(value);
    Amount { magnitude: number.to_bytes_be().as_slice().to_vec() }
}

/// `BigUint::to_u64`: the value as a machine integer. The managed integer
/// answers only for values that fit a signed 64-bit integer, and with `None`
/// for every larger one.
#[verifier::external_body]
pub(crate) fn managed_to_u64(amount: &Amount) -> (value: Option<u64>)
    ensures
        amount@ <= i64::MAX ==> value == Some(amount@ as u64),
        amount@ > i64::MAX ==> value.is_none(),
{
    BigUint::<StaticApi>::from_bytes_be(amount.magnitude.as_slice()).to_u64()
}

/// `+` of `BigUint`: the sum. It must stay below the limit: a longer sum does
/// not come back from the managed integer.
#[verifier::external_body]
pub(crate) fn managed_sum(left: &Amount, right: &Amount) -> (sum: Amount)
    requires
        left@ + right@ < amount_limit(),
    ensures
        sum@ == left@ + right@,
{
    let a = BigUint::<StaticApi>::from_bytes_be(left.magnitude.as_slice());
    let b = BigUint::<StaticApi>::from_bytes_be(right.magnitude.as_slice());
    Amount { magnitude: (a + b).to_bytes_be().as_slice().to_vec() }
}

/// `/` of `BigUint`: the quotient, rounded down. The divisor must not be zero:
/// the managed integer does not return from a division by zero. The quotient
/// must be below the limit.
#[verifier::external_body]
pub(crate) fn managed_quotient(dividend: &Amount, divisor: &Amount) -> (quotient: Amount)
    requires
        divisor@ > 0,
        dividend@ / divisor@ < amount_limit(),
    ensures
        quotient@ == dividend@ / divisor@,
{
    let a = BigUint::<StaticApi>::from_bytes_be(dividend.magnitude.as_slice());
    let b = BigUint::<StaticApi>::from_bytes_be(divisor.magnitude.as_slice());
    Amount { magnitude: (a / b).to_bytes_be().as_slice().to_vec() }
}

/// `%` of `BigUint`: what the division leaves. The divisor must not be zero,
/// and not above the limit, so that what is left is below it.
#[verifier::external_body]
pub(crate) fn managed_remainder(dividend: &Amount, divisor: &Amount) -> (remainder: Amount)
    requires
        0 < divisor@ <= amount_limit(),
    ensures
        remainder@ == dividend@ % divisor@,
{
    let a = BigUint::<StaticApi>::from_bytes_be(dividend.magnitude.as_slice());
    let b = BigUint::<StaticApi>::from_bytes_be(divisor.magnitude.as_slice());
    Amount { magnitude: (a % b).to_bytes_be().as_slice().to_vec() }
}

/// `>` of `BigUint`: whether the left value is strictly the larger one.
#[verifier::external_body]
pub(crate) fn managed_exceeds(left: &Amount, right: &Amount) -> (answer: bool)
    ensures
        answer == (left@ > right@),
{
    let a = BigUint::<StaticApi>::from_bytes_be(left.magnitude.as_slice());
    let b = BigUint::<StaticApi>::from_bytes_be(right.magnitude.as_slice());
    a > b
}

} // verus!
