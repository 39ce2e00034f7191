//! The decision rule: heaters run while energy is cheap enough.

use vstd::prelude::*;
use vstd::arithmetic::power::pow;
use rust_decimal::Decimal;
use std::str::FromStr;
use crate::command::ActuationState;

verus! {

/// The largest number of decimal places a price can have.
pub const MAX_SCALE: u32 = 28;

/// The largest magnitude of a price's digits: 96 bits.
pub const MAX_MANTISSA: i128 = 79228162514264337593543950335;

/// An exact decimal amount: `mantissa` divided by ten to the power `scale`.
#[derive(Clone, Copy, Debug)]
pub struct Price {
    pub mantissa: i128,
    pub scale: u32,
}

/// Whether digits and decimal places are in the range of a price.
pub open spec fn in_range(mantissa: i128, scale: u32) -> bool {
    scale <= MAX_SCALE && -MAX_MANTISSA <= mantissa <= MAX_MANTISSA
}

impl Price {
    /// Digits and decimal places are in range.
    pub open spec fn wf(self) -> bool {
        in_range(self.mantissa, self.scale)
    }

    /// `self <= other` as amounts: both sides brought to a common scale.
    pub open spec fn at_most(self, other: Price) -> bool {
        self.mantissa * pow(10, other.scale as nat) <= other.mantissa * pow(10, self.scale as nat)
    }

    /// The price with these digits and decimal places, if they are in range.
    pub open spec fn checked(mantissa: i128, scale: u32) -> Option<Price> {
        if in_range(mantissa, scale) {
            Some(Price { mantissa, scale })
        } else {
            None
        }
    }

    /// The price read from what a decimal number's text stands for.
    pub open spec fn from_parts(parts: Option<(i128, u32)>) -> Option<Price> {
        match parts {
            Some(p) => Price::checked(p.0, p.1),
            None => None,
        }
    }

    /// The price `mantissa / 10^scale`, or `None` if either is out of range.
    pub fn new(mantissa: i128, scale: u32) -> (price: Option<Price>)
        ensures
            price == Price::checked(mantissa, scale),
            price matches Some(p) ==> p.wf(),
    {
        if scale <= MAX_SCALE && -MAX_MANTISSA <= mantissa && mantissa <= MAX_MANTISSA {
            Some(Price { mantissa, scale })
        } else {
            None
        }
    }

    /// The threshold used when none is configured: 100.0.
    pub fn default_threshold() -> (price: Price)
        ensures
            price == (Price { mantissa: 1000, scale: 1 }),
            price.wf(),
    {
        Price { mantissa: 1000, scale: 1 }
    }

    /// The threshold that a configured text leads to: the price it reads as,
    /// or the default where nothing is configured or the text is no price.
    pub open spec fn threshold_of(configured: Option<Seq<char>>) -> Price {
        match configured {
            Some(text) => match Price::from_parts(decimal_from_str(text)) {
                Some(price) => price,
                None => Price { mantissa: 1000, scale: 1 },
            },
            None => Price { mantissa: 1000, scale: 1 },
        }
    }

    /// The threshold to decide by, from the configured text, if any.
    pub fn threshold(configured: Option<&str>) -> (price: Price)
        ensures
            price == Price::threshold_of(
                match configured {
                    Some(text) => Some(text@),
                    None => None,
                },
            ),
            price.wf(),
    {
        match configured {
            Some(text) => match Price::parse(text) {
                Some(price) => price,
                None => Price::default_threshold(),
            },
            None => Price::default_threshold(),
        }
    }

    /// Reads a price from decimal text such as `100.0`; `None` where the text
    /// is no decimal number.
    pub fn parse(text: &str) -> (price: Option<Price>)
        ensures
            price == Price::from_parts(decimal_from_str(text@)),
            price matches Some(p) ==> p.wf(),
    {
        match parse_decimal(text) {
            Some(parts) => Price::new(parts.0, parts.1),
            None => None,
        }
    }
}

/// Digits and decimal places of the number that `rust_decimal` reads from a
/// text, where it reads one.
pub uninterp spec fn decimal_from_str(text: Seq<char>) -> Option<(i128, u32)>;

/// Calls `Decimal::from_str` of `rust_decimal` and hands out the mantissa and
/// the scale of the number read, or `None` where the text is refused. Trusted:
/// the result depends on the text alone.
#[verifier::external_body]
fn parse_decimal(text: &str) -> (parts: Option<(i128, u32)>)
    ensures
        parts == decimal_from_str(text@),
{
    match Decimal::from_str(text) {
        Ok(number) => Some((number.mantissa(), number.scale())),
        Err(_) => None,
    }
}

/// Builds both amounts with `Decimal::from_i128_with_scale` of `rust_decimal`
/// and compares them with its `<=`. Trusted: that comparison orders decimals
/// by their numeric value, whatever their scales.
#[verifier::external_body]
fn decimal_at_most(a: Price, b: Price) -> (result: bool)
    requires
        a.wf(),
        b.wf(),
    ensures
        result == a.at_most(b),
{
    Decimal::from_i128_with_scale(a.mantissa, a.scale) <= Decimal::from_i128_with_scale(
        b.mantissa,
        b.scale,
    )
}

/// The state that the rule gives: on while the price does not exceed the
/// threshold.
pub open spec fn decision(price: Price, threshold: Price) -> ActuationState {
    if price.at_most(threshold) {
        ActuationState::On
    } else {
        ActuationState::Off
    }
}

/// Decides the actuation state: `On` when `price <= threshold`, else `Off`.
pub fn decide(price: Price, threshold: Price) -> (state: ActuationState)
    requires
        price.wf(),
        threshold.wf(),
    ensures
        state == decision(price, threshold),
        price.at_most(threshold) <==> state == ActuationState::On,
        !price.at_most(threshold) <==> state == ActuationState::Off,
{
    if decimal_at_most(price, threshold) {
        ActuationState::On
    } else {
        ActuationState::Off
    }
}

/// A price equal to the threshold switches the heaters on.
pub proof fn lemma_decision_at_threshold(threshold: Price)
    ensures
        decision(threshold, threshold) == ActuationState::On,
{
}

/// With equal scales the rule compares the digits alone.
pub proof fn lemma_decision_same_scale(price: Price, threshold: Price)
    requires
        price.scale == threshold.scale,
    ensures
        decision(price, threshold) == ActuationState::On <==> price.mantissa <= threshold.mantissa,
{
    let unit = pow(10, price.scale as nat);
    vstd::arithmetic::power::lemma_pow_positive(10, price.scale as nat);
    assert(price.mantissa * unit <= threshold.mantissa * unit <==> price.mantissa
        <= threshold.mantissa) by (nonlinear_arith)
        requires
            unit > 0,
    ;
}

/// How a run begins once the price lookup has answered.
#[derive(Clone, Copy, Debug, PartialEq, Eq, Structural)]
pub enum Startup {
    /// Open the messaging connection and publish this state.
    Connect(ActuationState),
    /// No price: end the run in failure without opening a connection.
    Abort,
}

/// What the lookup's answer leads to.
pub open spec fn startup_of(price: Option<Price>, threshold: Price) -> Startup {
    match price {
        Some(p) => Startup::Connect(decision(p, threshold)),
        None => Startup::Abort,
    }
}

/// Decides how the run begins: with a price, the connection is opened for
/// the state that the rule gives; without one, the run is aborted before any
/// connection.
pub fn startup(price: Option<Price>, threshold: Price) -> (plan: Startup)
    requires
        threshold.wf(),
        price matches Some(p) ==> p.wf(),
    ensures
        plan == startup_of(price, threshold),
        plan == Startup::Abort <==> price is None,
{
    match price {
        Some(p) => Startup::Connect(decide(p, threshold)),
        None => Startup::Abort,
    }
}

} // verus!
