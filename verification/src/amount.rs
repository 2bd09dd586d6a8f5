//! Exact decimal amounts.
//!
//! An [`Amount`] is an integer mantissa and a scale, and stands for
//! `mantissa / 10^scale`. Parsing, addition, comparison and printing are
//! done by the `rust_decimal` crate; this module holds the numbers.
use vstd::prelude::*;
use rust_decimal::Decimal;
use std::str::FromStr;
use crate::text::{digits_of, padded};

verus! {

/// The largest mantissa a decimal can hold: `2^96 - 1`.
pub const MAX_MANTISSA: i128 = 0xFFFF_FFFF_FFFF_FFFF_FFFF_FFFF;

/// The largest scale a decimal can hold.
pub const MAX_SCALE: u32 = 28;

/// `mantissa` and `scale` are within what a decimal can hold.
pub open spec fn is_decimal(mantissa: int, scale: int) -> bool {
    -MAX_MANTISSA <= mantissa <= MAX_MANTISSA && 0 <= scale <= MAX_SCALE
}

/// `10^exponent`.
pub open spec fn pow10(exponent: nat) -> int
    decreases exponent,
{
    if exponent == 0 {
        1
    } else {
        10 * pow10((exponent - 1) as nat)
    }
}

/// Mantissa and scale of the decimal that a text is read as, if it is read
/// as one.
pub uninterp spec fn decimal_from_str(text: Seq<char>) -> Option<(int, int)>;

/// Mantissa and scale of the sum of two decimals, `None` where the sum
/// cannot be held.
pub uninterp spec fn decimal_sum(
    left_mantissa: int,
    left_scale: int,
    right_mantissa: int,
    right_scale: int,
) -> Option<(int, int)>;

/// A mantissa that fits 64 bits and is not negative.
pub open spec fn is_small(mantissa: int) -> bool {
    0 <= mantissa <= u64::MAX
}

/// The sum of two decimals in the cases in which it is plain to see: a zero
/// on the left gives the right operand as it is, a zero on the right the
/// left one, and two small decimals of one scale give the sum of the
/// mantissas at that scale. `None` in every other case.
pub open spec fn plain_sum(
    left_mantissa: int,
    left_scale: int,
    right_mantissa: int,
    right_scale: int,
) -> Option<(int, int)> {
    if left_mantissa == 0 {
        Some((right_mantissa, right_scale))
    } else if right_mantissa == 0 {
        Some((left_mantissa, left_scale))
    } else if left_scale == right_scale && is_small(left_mantissa) && is_small(right_mantissa) {
        Some((left_mantissa + right_mantissa, left_scale))
    } else {
        None
    }
}

/// The text that a decimal is printed as: a minus sign for a negative
/// number, the whole part, and for a scale above zero a point and as many
/// decimal places as the scale says.
pub open spec fn decimal_text(mantissa: int, scale: int) -> Seq<char> {
    let magnitude = if mantissa < 0 {
        -mantissa
    } else {
        mantissa
    };
    let sign = if mantissa < 0 {
        seq!['-']
    } else {
        Seq::empty()
    };
    let places = if scale > 0 {
        seq!['.'] + padded(magnitude % pow10(scale as nat), scale)
    } else {
        Seq::empty()
    };
    sign + digits_of(magnitude / pow10(scale as nat)) + places
}

/// Trusted: `Decimal::from_str`, with the result taken apart by
/// `Decimal::mantissa` and `Decimal::scale`. What is read is a function of
/// the text alone, and always within the bounds of a decimal.
#[verifier::external_body]
fn parse_decimal(text: &str) -> (parts: Option<(i128, u32)>)
    ensures
        match parts {
            Some((mantissa, scale)) => decimal_from_str(text@) == Some(
                (mantissa as int, scale as int),
            ) && is_decimal(mantissa as int, scale as int),
            None => decimal_from_str(text@) is None,
        },
{
    match Decimal::from_str(text) {
        Ok(decimal) => Some((decimal.mantissa(), decimal.scale())),
        Err(_) => None,
    }
}

/// Trusted: `Decimal::checked_add` on the decimals that
/// `Decimal::from_i128_with_scale` makes of the arguments. The sum is a
/// function of the two decimals alone, and within the bounds of a decimal
/// where there is one. Adding zero gives the other operand back with its
/// scale, and two small decimals of one scale are added mantissa to
/// mantissa.
#[verifier::external_body]
fn add_decimals(
    left_mantissa: i128,
    left_scale: u32,
    right_mantissa: i128,
    right_scale: u32,
) -> (parts: Option<(i128, u32)>)
    requires
        is_decimal(left_mantissa as int, left_scale as int),
        is_decimal(right_mantissa as int, right_scale as int),
    ensures
        match parts {
            Some((mantissa, scale)) => decimal_sum(
                left_mantissa as int,
                left_scale as int,
                right_mantissa as int,
                right_scale as int,
            ) == Some((mantissa as int, scale as int)) && is_decimal(mantissa as int, scale as int),
            None => decimal_sum(
                left_mantissa as int,
                left_scale as int,
                right_mantissa as int,
                right_scale as int,
            ) is None,
        },
        match plain_sum(
            left_mantissa as int,
            left_scale as int,
            right_mantissa as int,
            right_scale as int,
        ) {
            Some((mantissa, scale)) => parts == Some((mantissa as i128, scale as u32)),
            None => true,
        },
{
    let left = Decimal::from_i128_with_scale(left_mantissa, left_scale);
    let right = Decimal::from_i128_with_scale(right_mantissa, right_scale);
    left.checked_add(right).map(|sum| (sum.mantissa(), sum.scale()))
}

/// Trusted: `==` on the decimals that `Decimal::from_i128_with_scale` makes
/// of the arguments. Two decimals are equal when they stand for the same
/// number, whatever their scales.
#[verifier::external_body]
fn decimals_equal(
    left_mantissa: i128,
    left_scale: u32,
    right_mantissa: i128,
    right_scale: u32,
) -> (equal: bool)
    requires
        is_decimal(left_mantissa as int, left_scale as int),
        is_decimal(right_mantissa as int, right_scale as int),
    ensures
        equal == (left_mantissa * pow10(right_scale as nat) == right_mantissa * pow10(
            left_scale as nat,
        )),
{
    Decimal::from_i128_with_scale(left_mantissa, left_scale) == Decimal::from_i128_with_scale(
        right_mantissa,
        right_scale,
    )
}

/// Trusted: `to_string` on the decimal that `Decimal::from_i128_with_scale`
/// makes of the arguments. The number is printed in full, with a leading
/// zero where its whole part is zero and with trailing zeros kept.
#[verifier::external_body]
fn print_decimal(mantissa: i128, scale: u32) -> (text: String)
    requires
        is_decimal(mantissa as int, scale as int),
    ensures
        text@ == decimal_text(mantissa as int, scale as int),
{
    Decimal::from_i128_with_scale(mantissa, scale).to_string()
}

/// An exact decimal number: `mantissa / 10^scale`.
#[derive(Debug, Clone, Copy)]
pub struct Amount {
    mantissa: i128,
    scale: u32,
}

/// What an [`Amount`] holds, as mathematical integers.
pub struct AmountView {
    pub mantissa: int,
    pub scale: int,
}

impl View for Amount {
    type V = AmountView;

    closed spec fn view(&self) -> AmountView {
        AmountView { mantissa: self.mantissa as int, scale: self.scale as int }
    }
}

impl AmountView {
    /// Both views stand for the same number.
    pub open spec fn same_number(self, other: AmountView) -> bool {
        self.mantissa * pow10(other.scale as nat) == other.mantissa * pow10(self.scale as nat)
    }

    /// The sum of the two, as the decimal arithmetic gives it.
    pub open spec fn plus(self, other: AmountView) -> Option<AmountView> {
        match decimal_sum(self.mantissa, self.scale, other.mantissa, other.scale) {
            Some((mantissa, scale)) => Some(AmountView { mantissa, scale }),
            None => None,
        }
    }

    /// The sum of the two where it is plain to see: see [`plain_sum`].
    pub open spec fn plain_plus(self, other: AmountView) -> Option<AmountView> {
        match plain_sum(self.mantissa, self.scale, other.mantissa, other.scale) {
            Some((mantissa, scale)) => Some(AmountView { mantissa, scale }),
            None => None,
        }
    }

    /// The view with the sign of the mantissa dropped.
    pub open spec fn magnitude(self) -> AmountView {
        AmountView {
            mantissa: if self.mantissa < 0 {
                -self.mantissa
            } else {
                self.mantissa
            },
            scale: self.scale,
        }
    }

    /// The printed form.
    pub open spec fn text(self) -> Seq<char> {
        decimal_text(self.mantissa, self.scale)
    }
}

/// The view of an amount that may be missing.
pub open spec fn view_of(amount: Option<Amount>) -> Option<AmountView> {
    match amount {
        Some(a) => Some(a@),
        None => None,
    }
}

/// The amount that a text is read as, if it is read as one.
pub open spec fn amount_from_str(text: Seq<char>) -> Option<AmountView> {
    match decimal_from_str(text) {
        Some((mantissa, scale)) => Some(AmountView { mantissa, scale }),
        None => None,
    }
}

impl Amount {
    #[verifier::type_invariant]
    spec fn within_bounds(self) -> bool {
        is_decimal(self.mantissa as int, self.scale as int)
    }

    /// The amount `mantissa / 10^scale`, where a decimal can hold it.
    pub fn new(mantissa: i128, scale: u32) -> (amount: Option<Amount>)
        ensures
            match amount {
                Some(a) => is_decimal(mantissa as int, scale as int) && a@ == (AmountView {
                    mantissa: mantissa as int,
                    scale: scale as int,
                }),
                None => !is_decimal(mantissa as int, scale as int),
            },
    {
        if scale <= MAX_SCALE && -MAX_MANTISSA <= mantissa && mantissa <= MAX_MANTISSA {
            Some(Amount { mantissa, scale })
        } else {
            None
        }
    }

    /// Zero, with scale 0.
    pub fn zero() -> (amount: Amount)
        ensures
            amount@ == (AmountView { mantissa: 0, scale: 0 }),
    {
        Amount { mantissa: 0, scale: 0 }
    }

    /// Reads a decimal number such as `-191.60`.
    pub fn from_str(text: &str) -> (amount: Option<Amount>)
        ensures
            view_of(amount) == amount_from_str(text@),
    {
        match parse_decimal(text) {
            Some((mantissa, scale)) => Some(Amount { mantissa, scale }),
            None => None,
        }
    }

    /// The mantissa, which is within the bounds of a decimal.
    pub fn mantissa(&self) -> (mantissa: i128)
        ensures
            mantissa == self@.mantissa,
            -MAX_MANTISSA <= mantissa <= MAX_MANTISSA,
    {
        proof {
            use_type_invariant(self);
        }
        self.mantissa
    }

    /// The scale, which is within the bounds of a decimal.
    pub fn scale(&self) -> (scale: u32)
        ensures
            scale == self@.scale,
            scale <= MAX_SCALE,
    {
        proof {
            use_type_invariant(self);
        }
        self.scale
    }

    /// Whether the amount is greater than zero.
    pub fn is_positive(&self) -> (positive: bool)
        ensures
            positive == (self@.mantissa > 0),
    {
        self.mantissa > 0
    }

    /// The amount without its sign.
    pub fn abs(&self) -> (magnitude: Amount)
        ensures
            magnitude@ == self@.magnitude(),
    {
        proof {
            use_type_invariant(self);
        }
        if self.mantissa < 0 {
            Amount { mantissa: -self.mantissa, scale: self.scale }
        } else {
            Amount { mantissa: self.mantissa, scale: self.scale }
        }
    }

    /// The sum of two amounts, `None` where a decimal cannot hold it.
    pub fn checked_add(&self, other: &Amount) -> (sum: Option<Amount>)
        ensures
            view_of(sum) == self@.plus(other@),
            self@.plain_plus(other@) is Some ==> view_of(sum) == self@.plain_plus(other@),
    {
        proof {
            use_type_invariant(self);
            use_type_invariant(other);
        }
        match add_decimals(self.mantissa, self.scale, other.mantissa, other.scale) {
            Some((mantissa, scale)) => Some(Amount { mantissa, scale }),
            None => None,
        }
    }

    /// The amount in print, with as many decimal places as its scale.
    pub fn to_string(&self) -> (text: String)
        ensures
            text@ == self@.text(),
    {
        proof {
            use_type_invariant(self);
        }
        print_decimal(self.mantissa, self.scale)
    }
}

impl PartialEq for Amount {
    fn eq(&self, other: &Amount) -> (equal: bool) {
        proof {
            use_type_invariant(self);
            use_type_invariant(other);
        }
        decimals_equal(self.mantissa, self.scale, other.mantissa, other.scale)
    }
}

impl vstd::std_specs::cmp::PartialEqSpecImpl for Amount {
    open spec fn obeys_eq_spec() -> bool {
        true
    }

    open spec fn eq_spec(&self, other: &Amount) -> bool {
        self@.same_number(other@)
    }
}

} // verus!
