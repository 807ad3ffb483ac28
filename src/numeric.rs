//! Unbounded non-negative integers used for amounts, fees and burn indices.
//!
//! The digits are held as plain data; the arithmetic itself is carried out by
//! candid's `Nat` (a `num_bigint::BigUint`).

use vstd::prelude::*;

verus! {

/// Base of one digit of a [`BigNat`].
pub open spec fn digit_base() -> nat {
    0x1_0000_0000
}

/// The number denoted by base 2^32 digits, least significant first.
pub open spec fn digits_value(d: Seq<u32>) -> nat
    decreases d.len(),
{
    if d.len() == 0 {
        0
    } else {
        d[0] as nat + digit_base() * digits_value(d.drop_first())
    }
}

/// An arbitrary-precision non-negative integer.
#[derive(Clone, Debug, PartialEq, Eq)]
pub struct BigNat {
    digits: Vec<u32>,
}

impl View for BigNat {
    type V = nat;

    closed spec fn view(&self) -> nat {
        digits_value(self.digits@)
    }
}

/// Relies on candid's `Nat::from(u64)` and `BigUint::to_u32_digits`: the
/// digits of the value converted.
#[verifier::external_body]
fn nat_from_u64(v: u64) -> (r: BigNat)
    ensures
        r@ == v as nat,
{
    BigNat { digits: candid::Nat::from(v).0.to_u32_digits() }
}

/// Relies on `Add` of candid's `Nat`: the exact sum.
#[verifier::external_body]
fn nat_add(a: &BigNat, b: &BigNat) -> (r: BigNat)
    ensures
        r@ == a@ + b@,
{
    let x = candid::Nat(num_bigint::BigUint::new(a.digits.clone()));
    let y = candid::Nat(num_bigint::BigUint::new(b.digits.clone()));
    BigNat { digits: (x + y).0.to_u32_digits() }
}

/// Relies on `Sub` of candid's `Nat`: the exact difference, which panics when
/// it would be negative (hence the precondition).
#[verifier::external_body]
fn nat_sub(a: &BigNat, b: &BigNat) -> (r: BigNat)
    requires
        b@ <= a@,
    ensures
        r@ == a@ - b@,
{
    let x = candid::Nat(num_bigint::BigUint::new(a.digits.clone()));
    let y = candid::Nat(num_bigint::BigUint::new(b.digits.clone()));
    BigNat { digits: (x - y).0.to_u32_digits() }
}

/// Relies on `Mul` of candid's `Nat`: the exact product.
#[verifier::external_body]
fn nat_mul(a: &BigNat, b: &BigNat) -> (r: BigNat)
    ensures
        r@ == a@ * b@,
{
    let x = candid::Nat(num_bigint::BigUint::new(a.digits.clone()));
    let y = candid::Nat(num_bigint::BigUint::new(b.digits.clone()));
    BigNat { digits: (x * y).0.to_u32_digits() }
}

/// Relies on `PartialOrd` of candid's `Nat`: numeric order.
#[verifier::external_body]
fn nat_le(a: &BigNat, b: &BigNat) -> (r: bool)
    ensures
        r == (a@ <= b@),
{
    let x = candid::Nat(num_bigint::BigUint::new(a.digits.clone()));
    let y = candid::Nat(num_bigint::BigUint::new(b.digits.clone()));
    x <= y
}

/// Relies on `num_traits::ToPrimitive::to_u64` on the `BigUint` inside
/// candid's `Nat`: the value when it fits in 64 bits, else `None`.
#[verifier::external_body]
fn nat_to_u64_checked(a: &BigNat) -> (r: Option<u64>)
    ensures
        a@ <= u64::MAX ==> r == Some(a@ as u64),
        a@ > u64::MAX ==> r.is_none(),
{
    num_traits::ToPrimitive::to_u64(&num_bigint::BigUint::new(a.digits.clone()))
}

impl BigNat {
    /// Zero.
    pub fn zero() -> (r: BigNat)
        ensures
            r@ == 0,
    {
        let r = BigNat { digits: Vec::new() };
        assert(r.digits@.len() == 0);
        r
    }

    /// The value of a machine integer.
    pub fn from_u64(v: u64) -> (r: BigNat)
        ensures
            r@ == v as nat,
    {
        nat_from_u64(v)
    }

    /// The number with the given base 2^32 digits, least significant first.
    pub fn from_digits(digits: Vec<u32>) -> (r: BigNat)
        ensures
            r@ == digits_value(digits@),
    {
        BigNat { digits }
    }

    /// Base 2^32 digits of the number, least significant first.
    pub fn to_digits(&self) -> (r: Vec<u32>)
        ensures
            digits_value(r@) == self@,
    {
        self.duplicate().digits
    }

    /// A copy with the same value.
    pub fn duplicate(&self) -> (r: BigNat)
        ensures
            r@ == self@,
    {
        let mut digits: Vec<u32> = Vec::new();
        let mut i: usize = 0;
        while i < self.digits.len()
            invariant
                i <= self.digits@.len(),
                digits@ == self.digits@.subrange(0, i as int),
            decreases self.digits@.len() - i,
        {
            digits.push(self.digits[i]);
            i = i + 1;
            assert(digits@ =~= self.digits@.subrange(0, i as int));
        }
        assert(digits@ =~= self.digits@);
        BigNat { digits }
    }

    /// `self + other`.
    pub fn add(&self, other: &BigNat) -> (r: BigNat)
        ensures
            r@ == self@ + other@,
    {
        nat_add(self, other)
    }

    /// `self * other`.
    pub fn mul(&self, other: &BigNat) -> (r: BigNat)
        ensures
            r@ == self@ * other@,
    {
        nat_mul(self, other)
    }

    /// `self - other`, or `None` where that would be negative.
    pub fn checked_sub(&self, other: &BigNat) -> (r: Option<BigNat>)
        ensures
            other@ <= self@ <==> r.is_some(),
            r matches Some(d) ==> d@ == self@ - other@,
    {
        if nat_le(other, self) {
            Some(nat_sub(self, other))
        } else {
            None
        }
    }

    /// Numeric order.
    pub fn le(&self, other: &BigNat) -> (r: bool)
        ensures
            r == (self@ <= other@),
    {
        nat_le(self, other)
    }

    /// Numeric equality.
    pub fn same_value(&self, other: &BigNat) -> (r: bool)
        ensures
            r == (self@ == other@),
    {
        nat_le(self, other) && nat_le(other, self)
    }

    /// The value as a `u64`, where it fits.
    pub fn to_u64(&self) -> (r: Option<u64>)
        ensures
            self@ <= u64::MAX ==> r == Some(self@ as u64),
            self@ > u64::MAX ==> r.is_none(),
    {
        nat_to_u64_checked(self)
    }
}

/// The value of `value` as a `u64`, where it fits.
pub fn nat_to_u64(value: &BigNat) -> (r: Option<u64>)
    ensures
        value@ <= u64::MAX ==> r == Some(value@ as u64),
        value@ > u64::MAX ==> r.is_none(),
{
    value.to_u64()
}

} // verus!
