//! Exact decimal money amounts.
//!
//! An [`Amount`] is a signed 96-bit mantissa together with a scale between 0
//! and 28; it stands for `mantissa / 10^scale`. The arithmetic itself is done
//! by the `rust_decimal` crate, whose `Decimal` has this shape. A `Decimal`
//! keeps a sign bit beside its mantissa, so that it can tell a negative zero
//! from zero; an amount cannot, and a zero has no sign here.

use core::str::FromStr;
use rust_decimal::Decimal;
use vstd::arithmetic::power::pow;
use vstd::prelude::*;
use vstd::std_specs::cmp::PartialEqSpecImpl;

verus! {

/// The largest magnitude of a mantissa: `2^96 - 1`.
pub const MAX_MANTISSA: i128 = 0xFFFF_FFFF_FFFF_FFFF_FFFF_FFFF;

/// The largest scale, that is the largest number of fractional digits.
pub const MAX_SCALE: u32 = 28;

/// A decimal amount of money: `mantissa / 10^scale`.
#[derive(Clone, Copy, Debug, Eq)]
pub struct Amount {
    mantissa: i128,
    scale: u32,
}

/// The sum that `Decimal::checked_add` gives for two amounts, `None` where it
/// reports an overflow.
pub uninterp spec fn decimal_sum(a: Amount, b: Amount) -> Option<Amount>;

/// The difference that `Decimal::checked_sub` gives for two amounts, `None`
/// where it reports an overflow.
pub uninterp spec fn decimal_difference(a: Amount, b: Amount) -> Option<Amount>;

/// The amount that `Decimal::from_str` reads from a text, `None` where it
/// rejects the text.
pub uninterp spec fn decimal_from_text(text: Seq<char>) -> Option<Amount>;

/// The error type of `rust_decimal`.
#[verifier::external_type_specification]
#[verifier::external_body]
pub struct ExDecimalError(rust_decimal::Error);

/// Calls `Decimal::from_str`, the decimal parser of `rust_decimal`. What it
/// reads is named by [`decimal_from_text`]: the amount on success, and an
/// error exactly where there is none. An amount that comes back is a mantissa
/// of at most 96 bits with a scale of at most 28, as every `Decimal` is.
#[verifier::external_body]
fn decimal_from_str(text: &str) -> (r: Result<Amount, rust_decimal::Error>)
    ensures
        match r {
            Ok(amount) => decimal_from_text(text@) == Some(amount) && amount.in_range(),
            Err(_) => decimal_from_text(text@) is None,
        },
{
    match Decimal::from_str(text) {
        Ok(d) => Ok(Amount { mantissa: d.mantissa(), scale: d.scale() }),
        Err(e) => Err(e),
    }
}

/// Renders an error of `rust_decimal` with its `Display`. Nothing is claimed
/// of the text.
#[verifier::external_body]
fn decimal_error_text(error: &rust_decimal::Error) -> (text: String) {
    error.to_string()
}

/// Calls `Decimal::checked_add` on the decimals that `a` and `b` stand for.
/// The result is named by [`decimal_sum`]; a sum that comes back is again a
/// mantissa of at most 96 bits with a scale of at most 28, as every `Decimal`
/// is.
#[verifier::external_body]
fn decimal_checked_add(a: Amount, b: Amount) -> (r: Option<Amount>)
    requires
        a.in_range(),
        b.in_range(),
    ensures
        r == decimal_sum(a, b),
        r matches Some(sum) ==> sum.in_range(),
{
    let x = Decimal::from_i128_with_scale(a.mantissa, a.scale);
    let y = Decimal::from_i128_with_scale(b.mantissa, b.scale);
    match x.checked_add(y) {
        Some(z) => Some(Amount { mantissa: z.mantissa(), scale: z.scale() }),
        None => None,
    }
}

/// Calls `Decimal::checked_sub` on the decimals that `a` and `b` stand for.
/// The result is named by [`decimal_difference`]; a difference that comes
/// back is again a mantissa of at most 96 bits with a scale of at most 28.
#[verifier::external_body]
fn decimal_checked_sub(a: Amount, b: Amount) -> (r: Option<Amount>)
    requires
        a.in_range(),
        b.in_range(),
    ensures
        r == decimal_difference(a, b),
        r matches Some(difference) ==> difference.in_range(),
{
    let x = Decimal::from_i128_with_scale(a.mantissa, a.scale);
    let y = Decimal::from_i128_with_scale(b.mantissa, b.scale);
    match x.checked_sub(y) {
        Some(z) => Some(Amount { mantissa: z.mantissa(), scale: z.scale() }),
        None => None,
    }
}

/// Compares the decimals that `a` and `b` stand for with `Decimal`'s `<`,
/// that is with its `partial_cmp`. The contract claims that this orders
/// decimals by their numeric value `mantissa / 10^scale`, whatever their
/// scales: `1.99 < 2`, and neither of `2.0` and `2` is below the other.
#[verifier::external_body]
fn decimal_less_than(a: Amount, b: Amount) -> (r: bool)
    requires
        a.in_range(),
        b.in_range(),
    ensures
        r == (a.units() < b.units()),
{
    let x = Decimal::from_i128_with_scale(a.mantissa, a.scale);
    let y = Decimal::from_i128_with_scale(b.mantissa, b.scale);
    x < y
}

impl Amount {
    /// Whether the mantissa fits in 96 bits and the scale is at most 28.
    /// Every amount that executable code holds is in range.
    #[verifier::type_invariant]
    pub closed spec fn in_range(self) -> bool {
        &&& -MAX_MANTISSA <= self.mantissa <= MAX_MANTISSA
        &&& self.scale <= MAX_SCALE
    }

    /// The mantissa: the amount counted in units of `10^-scale`.
    pub closed spec fn spec_mantissa(&self) -> i128 {
        self.mantissa
    }

    /// The scale: the number of fractional digits.
    pub closed spec fn spec_scale(&self) -> u32 {
        self.scale
    }

    /// The numeric value, counted in units of `10^-28`. Two amounts are
    /// numerically equal exactly when their units are.
    pub open spec fn units(self) -> int {
        self.mantissa() * pow(10, (MAX_SCALE - self.scale()) as nat)
    }

    /// The amount zero, with scale 0.
    pub closed spec fn spec_zero() -> Amount {
        Amount { mantissa: 0, scale: 0 }
    }

    /// The amount with the opposite sign and the same scale.
    pub closed spec fn spec_negated(self) -> Amount {
        Amount { mantissa: (-self.mantissa) as i128, scale: self.scale }
    }

    /// The amount `mantissa / 10^scale`, or `None` where the mantissa needs
    /// more than 96 bits or the scale is above 28.
    pub fn new(mantissa: i128, scale: u32) -> (r: Option<Amount>)
        ensures
            r is Some <==> -MAX_MANTISSA <= mantissa <= MAX_MANTISSA && scale <= MAX_SCALE,
            r matches Some(a) ==> a.mantissa() == mantissa && a.scale() == scale,
    {
        if -MAX_MANTISSA <= mantissa && mantissa <= MAX_MANTISSA && scale <= MAX_SCALE {
            Some(Amount { mantissa, scale })
        } else {
            None
        }
    }

    #[verifier::when_used_as_spec(spec_zero)]
    pub fn zero() -> (r: Amount)
        ensures
            r == Amount::zero(),
            r.mantissa() == 0,
            r.scale() == 0,
    {
        Amount { mantissa: 0, scale: 0 }
    }

    #[verifier::when_used_as_spec(spec_mantissa)]
    pub fn mantissa(&self) -> (m: i128)
        ensures
            m == self.mantissa(),
            -MAX_MANTISSA <= m <= MAX_MANTISSA,
    {
        proof {
            use_type_invariant(self);
        }
        self.mantissa
    }

    #[verifier::when_used_as_spec(spec_scale)]
    pub fn scale(&self) -> (s: u32)
        ensures
            s == self.scale(),
            s <= MAX_SCALE,
    {
        proof {
            use_type_invariant(self);
        }
        self.scale
    }

    /// Reads an amount from its decimal text, such as `"3.12345"`. A text
    /// that is no decimal number gives the parser's complaint instead.
    pub fn parse(text: &str) -> (r: Result<Amount, String>)
        ensures
            match r {
                Ok(amount) => decimal_from_text(text@) == Some(amount),
                Err(_) => decimal_from_text(text@) is None,
            },
    {
        match decimal_from_str(text) {
            Ok(amount) => Ok(amount),
            Err(error) => Err(decimal_error_text(&error)),
        }
    }

    /// The sum of two amounts as decimal arithmetic gives it, `None` on
    /// overflow.
    pub fn checked_add(self, other: Amount) -> (r: Option<Amount>)
        ensures
            r == decimal_sum(self, other),
    {
        proof {
            use_type_invariant(self);
            use_type_invariant(other);
        }
        decimal_checked_add(self, other)
    }

    /// The difference of two amounts as decimal arithmetic gives it, `None`
    /// on overflow.
    pub fn checked_sub(self, other: Amount) -> (r: Option<Amount>)
        ensures
            r == decimal_difference(self, other),
    {
        proof {
            use_type_invariant(self);
            use_type_invariant(other);
        }
        decimal_checked_sub(self, other)
    }

    /// The amount with the opposite sign and the same scale.
    #[verifier::when_used_as_spec(spec_negated)]
    pub fn negated(self) -> (r: Amount)
        ensures
            r == self.negated(),
            r.mantissa() == -self.mantissa(),
            r.scale() == self.scale(),
    {
        proof {
            use_type_invariant(self);
        }
        Amount { mantissa: -self.mantissa, scale: self.scale }
    }

    /// Whether this amount is numerically below `other`.
    pub fn less_than(&self, other: &Amount) -> (r: bool)
        ensures
            r == (self.units() < other.units()),
    {
        proof {
            use_type_invariant(self);
            use_type_invariant(other);
        }
        decimal_less_than(*self, *other)
    }
}

/// Whether decimal addition gives the exact sum of `a` and `b`: it neither
/// overflows nor rounds.
pub open spec fn sum_is_exact(a: Amount, b: Amount) -> bool {
    decimal_sum(a, b) matches Some(sum) && sum.units() == a.units() + b.units()
}

/// Negation turns the numeric value around, stays in range and undoes itself.
pub proof fn lemma_negated(a: Amount)
    requires
        a.in_range(),
    ensures
        a.negated().in_range(),
        a.negated().units() == -a.units(),
        a.negated().negated() == a,
{
    let p = pow(10, (MAX_SCALE - a.scale()) as nat);
    let m = a.mantissa() as int;
    assert((-m) * p == -(m * p)) by (nonlinear_arith);
}

impl PartialEq for Amount {
    /// Numeric equality: `1.0` equals `1.00`.
    fn eq(&self, other: &Amount) -> (r: bool) {
        !self.less_than(other) && !other.less_than(self)
    }
}

impl PartialEqSpecImpl for Amount {
    open spec fn obeys_eq_spec() -> bool {
        true
    }

    open spec fn eq_spec(&self, other: &Amount) -> bool {
        self.units() == other.units()
    }
}

} // verus!
