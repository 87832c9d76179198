//! Conversion between units of length.

use vstd::prelude::*;
use crate::config::Config;

verus! {

/// A factor by which distances and speeds are divided, held as a fraction of
/// two positive integers, so that a conversion is exact.
#[derive(Clone, Copy, Debug, PartialEq, Eq)]
pub struct Conversion {
    numerator: u32,
    denominator: u32,
}

impl Conversion {
    /// The factor's numerator.
    pub closed spec fn num(self) -> nat {
        self.numerator as nat
    }

    /// The factor's denominator.
    pub closed spec fn den(self) -> nat {
        self.denominator as nat
    }

    /// Both parts of the fraction are positive: the factor is above zero.
    pub open spec fn positive(self) -> bool {
        self.num() > 0 && self.den() > 0
    }

    #[verifier::type_invariant]
    spec fn valid(self) -> bool {
        self.numerator > 0 && self.denominator > 0
    }

    /// `value` divided by the factor, rounded down.
    pub open spec fn apply(self, value: nat) -> nat {
        (value * self.den() / self.num()) as nat
    }

    /// The factor that the options ask for: the kilometres in a mile where
    /// miles are wanted, else one.
    pub closed spec fn standard(config: Config) -> Conversion {
        if config.miles {
            Conversion { numerator: 1_609_344, denominator: 1_000_000 }
        } else {
            Conversion { numerator: 1, denominator: 1 }
        }
    }

    /// The factor `numerator / denominator`, where both are positive.
    pub fn new(numerator: u32, denominator: u32) -> (factor: Option<Conversion>)
        ensures
            factor is Some <==> numerator > 0 && denominator > 0,
            factor is Some ==> factor->0.num() == numerator && factor->0.den() == denominator,
    {
        if numerator > 0 && denominator > 0 {
            Some(Conversion { numerator, denominator })
        } else {
            None
        }
    }

    /// The factor one, which leaves every value as it is.
    pub fn identity() -> (factor: Conversion)
        ensures
            factor.num() == 1,
            factor.den() == 1,
    {
        Conversion { numerator: 1, denominator: 1 }
    }

    /// The kilometres in a mile, 1.609344.
    pub fn kilometres_per_mile() -> (factor: Conversion)
        ensures
            factor.num() == 1_609_344,
            factor.den() == 1_000_000,
    {
        Conversion { numerator: 1_609_344, denominator: 1_000_000 }
    }

    /// The factor's numerator.
    pub fn numerator(&self) -> (n: u32)
        ensures
            n == self.num(),
            n > 0,
    {
        proof {
            use_type_invariant(self);
        }
        self.numerator
    }

    /// The factor's denominator.
    pub fn denominator(&self) -> (d: u32)
        ensures
            d == self.den(),
            d > 0,
    {
        proof {
            use_type_invariant(self);
        }
        self.denominator
    }

    /// Divides `value` by the factor and rounds down.
    pub fn convert(&self, value: u32) -> (converted: u64)
        ensures
            self.positive(),
            converted == self.apply(value as nat),
    {
        proof {
            use_type_invariant(self);
            assert(value * self.denominator <= 0xffff_ffff * 0xffff_ffff) by (nonlinear_arith)
                requires
                    value <= 0xffff_ffff,
                    self.denominator <= 0xffff_ffff,
            ;
        }
        (value as u64) * (self.denominator as u64) / (self.numerator as u64)
    }
}

/// The name of the unit of length that the options ask for.
pub open spec fn distance_unit_text(config: Config) -> Seq<char> {
    if config.miles {
        "mi"@
    } else {
        "km"@
    }
}

/// The name of the unit of speed that the options ask for.
pub open spec fn speed_unit_text(config: Config) -> Seq<char> {
    if config.miles {
        "mph"@
    } else {
        "km/hr"@
    }
}

/// The name of the unit of length that the options ask for.
pub fn distance_unit(config: &Config) -> (unit: &'static str)
    ensures
        unit@ == distance_unit_text(*config),
{
    if config.miles {
        "mi"
    } else {
        "km"
    }
}

/// The name of the unit of speed that the options ask for.
pub fn speed_unit(config: &Config) -> (unit: &'static str)
    ensures
        unit@ == speed_unit_text(*config),
{
    if config.miles {
        "mph"
    } else {
        "km/hr"
    }
}

/// The factor that turns the unit's kilometres into the unit of length that
/// the options ask for.
pub fn conversion(config: &Config) -> (factor: Conversion)
    ensures
        factor == Conversion::standard(*config),
        factor.positive(),
        config.miles ==> factor.num() == 1_609_344 && factor.den() == 1_000_000,
        !config.miles ==> factor.num() == 1 && factor.den() == 1,
{
    if config.miles {
        Conversion::kilometres_per_mile()
    } else {
        Conversion::identity()
    }
}

/// The parts of the factor that the options ask for.
pub proof fn lemma_standard(config: Config)
    ensures
        Conversion::standard(config).positive(),
        config.miles ==> Conversion::standard(config).num() == 1_609_344
            && Conversion::standard(config).den() == 1_000_000,
        !config.miles ==> Conversion::standard(config).num() == 1 && Conversion::standard(
            config,
        ).den() == 1,
{
}

/// What a conversion of a 32-bit value gives fits in 64 bits.
pub proof fn lemma_apply_bound(factor: Conversion, value: nat)
    requires
        factor.positive(),
        value <= u32::MAX,
    ensures
        factor.apply(value) <= u64::MAX,
{
    let n = factor.num() as int;
    let d = factor.den() as int;
    let v = value as int;
    assert(d <= u32::MAX);
    assert(v * d <= 0xffff_ffff * 0xffff_ffff) by (nonlinear_arith)
        requires
            0 <= v <= 0xffff_ffff,
            0 <= d <= 0xffff_ffff,
    ;
    assert(0 <= (v * d) / n <= v * d) by (nonlinear_arith)
        requires
            n >= 1,
            v * d >= 0,
    ;
}

/// Dividing by a factor of equal parts, which is one, changes nothing.
pub proof fn lemma_unit_factor(factor: Conversion, value: nat)
    requires
        factor.positive(),
        factor.num() == factor.den(),
    ensures
        factor.apply(value) == value,
{
    let d = factor.den() as int;
    assert(value * d / d == value) by (nonlinear_arith)
        requires
            d > 0,
    ;
}

/// A conversion rounds down: the result is the one integer `q` with
/// `q * factor <= value < (q + 1) * factor`.
pub proof fn lemma_apply_is_floor(factor: Conversion, value: nat)
    requires
        factor.positive(),
    ensures
        factor.apply(value) * factor.num() <= value * factor.den(),
        value * factor.den() < (factor.apply(value) + 1) * factor.num(),
{
    let n = factor.num() as int;
    let p = (value * factor.den()) as int;
    assert((p / n) * n <= p && p < (p / n + 1) * n) by (nonlinear_arith)
        requires
            n > 0,
            p >= 0,
    ;
    assert(p / n >= 0) by (nonlinear_arith)
        requires
            n > 0,
            p >= 0,
    ;
}

} // verus!
