use vstd::prelude::*;

use crate::units::{unit_named, unit_of, Unit};

verus! {

/// A constant of a formula, written as the quotient `num / den` of two
/// integers, each small enough to be held exactly by a 64-bit float.
#[derive(Clone, Copy, Debug, PartialEq, Eq, Structural)]
pub struct Ratio {
    pub num: u64,
    pub den: u64,
}

/// One step of a conversion formula, applied to the running value `x`.
#[derive(Clone, Copy, Debug, PartialEq, Eq, Structural)]
pub enum Op {
    /// `x + c`
    Add(Ratio),
    /// `x - c`
    Sub(Ratio),
    /// `x * c`
    Mul(Ratio),
    /// `x / c`
    Div(Ratio),
    /// `c / x`
    DivInto(Ratio),
    /// `x * pi`
    MulPi,
    /// `x / pi`
    DivPi,
    /// `10` raised to the power `x`
    Exp10,
    /// the base-10 logarithm of `x`
    Log10,
}

/// The conversion table: the formula that turns a quantity in `from` into
/// one in `to`, as a sequence of steps applied in order. Each direction of
/// a pair is its own entry; pairs that are not listed have no formula.
pub open spec fn table(from: Unit, to: Unit) -> Option<Seq<Op>> {
    match (from, to) {
        (Unit::Mg, Unit::G) => Some(seq![Op::Div(Ratio { num: 1000, den: 1 })]),
        (Unit::G, Unit::Mg) => Some(seq![Op::Mul(Ratio { num: 1000, den: 1 })]),
        (Unit::G, Unit::Kg) => Some(seq![Op::Div(Ratio { num: 1000, den: 1 })]),
        (Unit::Kg, Unit::G) => Some(seq![Op::Mul(Ratio { num: 1000, den: 1 })]),
        (Unit::Kg, Unit::Tonne) => Some(seq![Op::Div(Ratio { num: 1000, den: 1 })]),
        (Unit::Tonne, Unit::Kg) => Some(seq![Op::Mul(Ratio { num: 1000, den: 1 })]),
        (Unit::Oz, Unit::G) => Some(seq![Op::Mul(Ratio { num: 283495, den: 10000 })]),
        (Unit::G, Unit::Oz) => Some(seq![Op::Div(Ratio { num: 283495, den: 10000 })]),
        (Unit::Lb, Unit::Kg) => Some(seq![Op::Mul(Ratio { num: 453592, den: 1000000 })]),
        (Unit::Kg, Unit::Lb) => Some(seq![Op::Div(Ratio { num: 453592, den: 1000000 })]),
        (Unit::Mm, Unit::Cm) => Some(seq![Op::Div(Ratio { num: 10, den: 1 })]),
        (Unit::Cm, Unit::Mm) => Some(seq![Op::Mul(Ratio { num: 10, den: 1 })]),
        (Unit::Cm, Unit::M) => Some(seq![Op::Div(Ratio { num: 100, den: 1 })]),
        (Unit::M, Unit::Cm) => Some(seq![Op::Mul(Ratio { num: 100, den: 1 })]),
        (Unit::M, Unit::Km) => Some(seq![Op::Div(Ratio { num: 1000, den: 1 })]),
        (Unit::Km, Unit::M) => Some(seq![Op::Mul(Ratio { num: 1000, den: 1 })]),
        (Unit::Inch, Unit::Cm) => Some(seq![Op::Mul(Ratio { num: 254, den: 100 })]),
        (Unit::Cm, Unit::Inch) => Some(seq![Op::Div(Ratio { num: 254, den: 100 })]),
        (Unit::Ft, Unit::M) => Some(seq![Op::Mul(Ratio { num: 3048, den: 10000 })]),
        (Unit::M, Unit::Ft) => Some(seq![Op::Div(Ratio { num: 3048, den: 10000 })]),
        (Unit::Yard, Unit::M) => Some(seq![Op::Mul(Ratio { num: 9144, den: 10000 })]),
        (Unit::M, Unit::Yard) => Some(seq![Op::Div(Ratio { num: 9144, den: 10000 })]),
        (Unit::Mile, Unit::Km) => Some(seq![Op::Mul(Ratio { num: 160934, den: 100000 })]),
        (Unit::Km, Unit::Mile) => Some(seq![Op::Div(Ratio { num: 160934, den: 100000 })]),
        (Unit::Sqm, Unit::Sqft) => Some(seq![Op::Mul(Ratio { num: 107639, den: 10000 })]),
        (Unit::Sqft, Unit::Sqm) => Some(seq![Op::Div(Ratio { num: 107639, den: 10000 })]),
        (Unit::Ml, Unit::L) => Some(seq![Op::Div(Ratio { num: 1000, den: 1 })]),
        (Unit::L, Unit::Ml) => Some(seq![Op::Mul(Ratio { num: 1000, den: 1 })]),
        (Unit::L, Unit::Gal) => Some(seq![Op::Div(Ratio { num: 378541, den: 100000 })]),
        (Unit::Gal, Unit::L) => Some(seq![Op::Mul(Ratio { num: 378541, den: 100000 })]),
        (Unit::Celsius, Unit::Fahrenheit) => Some(seq![Op::Mul(Ratio { num: 9, den: 1 }), Op::Div(Ratio { num: 5, den: 1 }), Op::Add(Ratio { num: 32, den: 1 })]),
        (Unit::Fahrenheit, Unit::Celsius) => Some(seq![Op::Sub(Ratio { num: 32, den: 1 }), Op::Mul(Ratio { num: 5, den: 1 }), Op::Div(Ratio { num: 9, den: 1 })]),
        (Unit::Celsius, Unit::Kelvin) => Some(seq![Op::Add(Ratio { num: 27315, den: 100 })]),
        (Unit::Kelvin, Unit::Celsius) => Some(seq![Op::Sub(Ratio { num: 27315, den: 100 })]),
        (Unit::Fahrenheit, Unit::Kelvin) => Some(seq![Op::Add(Ratio { num: 45967, den: 100 }), Op::Div(Ratio { num: 18, den: 10 })]),
        (Unit::Kelvin, Unit::Fahrenheit) => Some(seq![Op::Mul(Ratio { num: 18, den: 10 }), Op::Sub(Ratio { num: 45967, den: 100 })]),
        (Unit::Kmh, Unit::Mph) => Some(seq![Op::Div(Ratio { num: 160934, den: 100000 })]),
        (Unit::Mph, Unit::Kmh) => Some(seq![Op::Mul(Ratio { num: 160934, den: 100000 })]),
        (Unit::Ms, Unit::Kmh) => Some(seq![Op::Mul(Ratio { num: 36, den: 10 })]),
        (Unit::Kmh, Unit::Ms) => Some(seq![Op::Div(Ratio { num: 36, den: 10 })]),
        (Unit::W, Unit::Kw) => Some(seq![Op::Div(Ratio { num: 1000, den: 1 })]),
        (Unit::Kw, Unit::W) => Some(seq![Op::Mul(Ratio { num: 1000, den: 1 })]),
        (Unit::Pa, Unit::Kpa) => Some(seq![Op::Div(Ratio { num: 1000, den: 1 })]),
        (Unit::Kpa, Unit::Pa) => Some(seq![Op::Mul(Ratio { num: 1000, den: 1 })]),
        (Unit::Bar, Unit::Pa) => Some(seq![Op::Mul(Ratio { num: 100000, den: 1 })]),
        (Unit::Pa, Unit::Bar) => Some(seq![Op::Div(Ratio { num: 100000, den: 1 })]),
        (Unit::Psi, Unit::Pa) => Some(seq![Op::Mul(Ratio { num: 689476, den: 100 })]),
        (Unit::Pa, Unit::Psi) => Some(seq![Op::Div(Ratio { num: 689476, den: 100 })]),
        (Unit::J, Unit::Kj) => Some(seq![Op::Div(Ratio { num: 1000, den: 1 })]),
        (Unit::Kj, Unit::J) => Some(seq![Op::Mul(Ratio { num: 1000, den: 1 })]),
        (Unit::J, Unit::Cal) => Some(seq![Op::Div(Ratio { num: 4184, den: 1000 })]),
        (Unit::Cal, Unit::J) => Some(seq![Op::Mul(Ratio { num: 4184, den: 1000 })]),
        (Unit::Bit, Unit::Byte) => Some(seq![Op::Div(Ratio { num: 8, den: 1 })]),
        (Unit::Byte, Unit::Bit) => Some(seq![Op::Mul(Ratio { num: 8, den: 1 })]),
        (Unit::Kb, Unit::Mb) => Some(seq![Op::Div(Ratio { num: 1024, den: 1 })]),
        (Unit::Mb, Unit::Gb) => Some(seq![Op::Div(Ratio { num: 1024, den: 1 })]),
        (Unit::Gb, Unit::Tb) => Some(seq![Op::Div(Ratio { num: 1024, den: 1 })]),
        (Unit::Tb, Unit::Gb) => Some(seq![Op::Mul(Ratio { num: 1024, den: 1 })]),
        (Unit::Gb, Unit::Mb) => Some(seq![Op::Mul(Ratio { num: 1024, den: 1 })]),
        (Unit::Mb, Unit::Kb) => Some(seq![Op::Mul(Ratio { num: 1024, den: 1 })]),
        (Unit::Sec, Unit::Min) => Some(seq![Op::Div(Ratio { num: 60, den: 1 })]),
        (Unit::Min, Unit::Sec) => Some(seq![Op::Mul(Ratio { num: 60, den: 1 })]),
        (Unit::Min, Unit::Hr) => Some(seq![Op::Div(Ratio { num: 60, den: 1 })]),
        (Unit::Hr, Unit::Min) => Some(seq![Op::Mul(Ratio { num: 60, den: 1 })]),
        (Unit::Hr, Unit::Day) => Some(seq![Op::Div(Ratio { num: 24, den: 1 })]),
        (Unit::Day, Unit::Hr) => Some(seq![Op::Mul(Ratio { num: 24, den: 1 })]),
        (Unit::Dbm, Unit::Watt) => Some(seq![Op::Div(Ratio { num: 10, den: 1 }), Op::Exp10, Op::Div(Ratio { num: 1000, den: 1 })]),
        (Unit::Watt, Unit::Dbm) => Some(seq![Op::Mul(Ratio { num: 1000, den: 1 }), Op::Log10, Op::Mul(Ratio { num: 10, den: 1 })]),
        (Unit::Gy, Unit::Rad) => Some(seq![Op::Mul(Ratio { num: 100, den: 1 })]),
        (Unit::Rad, Unit::Gy) => Some(seq![Op::Div(Ratio { num: 100, den: 1 })]),
        (Unit::Sv, Unit::Rem) => Some(seq![Op::Mul(Ratio { num: 100, den: 1 })]),
        (Unit::Rem, Unit::Sv) => Some(seq![Op::Div(Ratio { num: 100, den: 1 })]),
        (Unit::Amp, Unit::Milliamp) => Some(seq![Op::Mul(Ratio { num: 1000, den: 1 })]),
        (Unit::Milliamp, Unit::Amp) => Some(seq![Op::Div(Ratio { num: 1000, den: 1 })]),
        (Unit::Volt, Unit::Millivolt) => Some(seq![Op::Mul(Ratio { num: 1000, den: 1 })]),
        (Unit::Millivolt, Unit::Volt) => Some(seq![Op::Div(Ratio { num: 1000, den: 1 })]),
        (Unit::Ohm, Unit::Kiloohm) => Some(seq![Op::Div(Ratio { num: 1000, den: 1 })]),
        (Unit::Kiloohm, Unit::Ohm) => Some(seq![Op::Mul(Ratio { num: 1000, den: 1 })]),
        (Unit::Farad, Unit::Microfarad) => Some(seq![Op::Mul(Ratio { num: 1000000, den: 1 })]),
        (Unit::Microfarad, Unit::Farad) => Some(seq![Op::Div(Ratio { num: 1000000, den: 1 })]),
        (Unit::Coulomb, Unit::Millicoulomb) => Some(seq![Op::Mul(Ratio { num: 1000, den: 1 })]),
        (Unit::Millicoulomb, Unit::Coulomb) => Some(seq![Op::Div(Ratio { num: 1000, den: 1 })]),
        (Unit::WattHour, Unit::Joule) => Some(seq![Op::Mul(Ratio { num: 3600, den: 1 })]),
        (Unit::Joule, Unit::WattHour) => Some(seq![Op::Div(Ratio { num: 3600, den: 1 })]),
        (Unit::Lux, Unit::Footcandle) => Some(seq![Op::Div(Ratio { num: 10764, den: 1000 })]),
        (Unit::Footcandle, Unit::Lux) => Some(seq![Op::Mul(Ratio { num: 10764, den: 1000 })]),
        (Unit::Deg, Unit::Rad) => Some(seq![Op::MulPi, Op::Div(Ratio { num: 180, den: 1 })]),
        (Unit::Rad, Unit::Deg) => Some(seq![Op::Mul(Ratio { num: 180, den: 1 }), Op::DivPi]),
        (Unit::Deg, Unit::Grad) => Some(seq![Op::Mul(Ratio { num: 200, den: 180 })]),
        (Unit::Grad, Unit::Deg) => Some(seq![Op::Mul(Ratio { num: 180, den: 200 })]),
        (Unit::NauticalMile, Unit::Km) => Some(seq![Op::Mul(Ratio { num: 1852, den: 1000 })]),
        (Unit::Km, Unit::NauticalMile) => Some(seq![Op::Div(Ratio { num: 1852, den: 1000 })]),
        (Unit::Knot, Unit::Kmh) => Some(seq![Op::Mul(Ratio { num: 1852, den: 1000 })]),
        (Unit::Kmh, Unit::Knot) => Some(seq![Op::Div(Ratio { num: 1852, den: 1000 })]),
        (Unit::Hz, Unit::Khz) => Some(seq![Op::Div(Ratio { num: 1000, den: 1 })]),
        (Unit::Khz, Unit::Hz) => Some(seq![Op::Mul(Ratio { num: 1000, den: 1 })]),
        (Unit::Khz, Unit::Mhz) => Some(seq![Op::Div(Ratio { num: 1000, den: 1 })]),
        (Unit::Mhz, Unit::Khz) => Some(seq![Op::Mul(Ratio { num: 1000, den: 1 })]),
        (Unit::Mhz, Unit::Ghz) => Some(seq![Op::Div(Ratio { num: 1000, den: 1 })]),
        (Unit::Ghz, Unit::Mhz) => Some(seq![Op::Mul(Ratio { num: 1000, den: 1 })]),
        (Unit::Nm, Unit::Lbft) => Some(seq![Op::Mul(Ratio { num: 737562, den: 1000000 })]),
        (Unit::Lbft, Unit::Nm) => Some(seq![Op::Div(Ratio { num: 737562, den: 1000000 })]),
        (Unit::KmPerL, Unit::LPer100km) => Some(seq![Op::DivInto(Ratio { num: 100, den: 1 })]),
        (Unit::LPer100km, Unit::KmPerL) => Some(seq![Op::DivInto(Ratio { num: 100, den: 1 })]),
        (Unit::MpgUs, Unit::KmPerL) => Some(seq![Op::Mul(Ratio { num: 425144, den: 1000000 })]),
        (Unit::KmPerL, Unit::MpgUs) => Some(seq![Op::Div(Ratio { num: 425144, den: 1000000 })]),
        (Unit::MpgUk, Unit::KmPerL) => Some(seq![Op::Mul(Ratio { num: 354006, den: 1000000 })]),
        (Unit::KmPerL, Unit::MpgUk) => Some(seq![Op::Div(Ratio { num: 354006, den: 1000000 })]),
        (Unit::Tesla, Unit::Gauss) => Some(seq![Op::Mul(Ratio { num: 10000, den: 1 })]),
        (Unit::Gauss, Unit::Tesla) => Some(seq![Op::Div(Ratio { num: 10000, den: 1 })]),
        (Unit::Wb, Unit::Mwb) => Some(seq![Op::Mul(Ratio { num: 1000000, den: 1 })]),
        (Unit::Mwb, Unit::Wb) => Some(seq![Op::Div(Ratio { num: 1000000, den: 1 })]),
        (Unit::SqM, Unit::SqFoot) => Some(seq![Op::Mul(Ratio { num: 107639, den: 10000 })]),
        (Unit::SqFoot, Unit::SqM) => Some(seq![Op::Div(Ratio { num: 107639, den: 10000 })]),
        (Unit::CuM, Unit::CuFoot) => Some(seq![Op::Mul(Ratio { num: 353147, den: 10000 })]),
        (Unit::CuFoot, Unit::CuM) => Some(seq![Op::Div(Ratio { num: 353147, den: 10000 })]),
        _ => None,
    }
}

/// The formula between two unit tags, if both tags name units and the
/// table has an entry for the pair.
pub open spec fn pair_formula(from: Seq<char>, to: Seq<char>) -> Option<Seq<Op>> {
    match (unit_named(from), unit_named(to)) {
        (Some(u), Some(v)) => table(u, v),
        _ => None,
    }
}

/// The view of a formula that may be absent.
pub open spec fn formula_view(f: Option<Vec<Op>>) -> Option<Seq<Op>> {
    match f {
        Some(v) => Some(v@),
        None => None,
    }
}

/// Looks a pair of units up in the conversion table.
pub fn formula_of(from: Unit, to: Unit) -> (r: Option<Vec<Op>>)
    ensures
        formula_view(r) == table(from, to),
{
    match (from, to) {
        (Unit::Mg, Unit::G) => Some(vec![Op::Div(Ratio { num: 1000, den: 1 })]),
        (Unit::G, Unit::Mg) => Some(vec![Op::Mul(Ratio { num: 1000, den: 1 })]),
        (Unit::G, Unit::Kg) => Some(vec![Op::Div(Ratio { num: 1000, den: 1 })]),
        (Unit::Kg, Unit::G) => Some(vec![Op::Mul(Ratio { num: 1000, den: 1 })]),
        (Unit::Kg, Unit::Tonne) => Some(vec![Op::Div(Ratio { num: 1000, den: 1 })]),
        (Unit::Tonne, Unit::Kg) => Some(vec![Op::Mul(Ratio { num: 1000, den: 1 })]),
        (Unit::Oz, Unit::G) => Some(vec![Op::Mul(Ratio { num: 283495, den: 10000 })]),
        (Unit::G, Unit::Oz) => Some(vec![Op::Div(Ratio { num: 283495, den: 10000 })]),
        (Unit::Lb, Unit::Kg) => Some(vec![Op::Mul(Ratio { num: 453592, den: 1000000 })]),
        (Unit::Kg, Unit::Lb) => Some(vec![Op::Div(Ratio { num: 453592, den: 1000000 })]),
        (Unit::Mm, Unit::Cm) => Some(vec![Op::Div(Ratio { num: 10, den: 1 })]),
        (Unit::Cm, Unit::Mm) => Some(vec![Op::Mul(Ratio { num: 10, den: 1 })]),
        (Unit::Cm, Unit::M) => Some(vec![Op::Div(Ratio { num: 100, den: 1 })]),
        (Unit::M, Unit::Cm) => Some(vec![Op::Mul(Ratio { num: 100, den: 1 })]),
        (Unit::M, Unit::Km) => Some(vec![Op::Div(Ratio { num: 1000, den: 1 })]),
        (Unit::Km, Unit::M) => Some(vec![Op::Mul(Ratio { num: 1000, den: 1 })]),
        (Unit::Inch, Unit::Cm) => Some(vec![Op::Mul(Ratio { num: 254, den: 100 })]),
        (Unit::Cm, Unit::Inch) => Some(vec![Op::Div(Ratio { num: 254, den: 100 })]),
        (Unit::Ft, Unit::M) => Some(vec![Op::Mul(Ratio { num: 3048, den: 10000 })]),
        (Unit::M, Unit::Ft) => Some(vec![Op::Div(Ratio { num: 3048, den: 10000 })]),
        (Unit::Yard, Unit::M) => Some(vec![Op::Mul(Ratio { num: 9144, den: 10000 })]),
        (Unit::M, Unit::Yard) => Some(vec![Op::Div(Ratio { num: 9144, den: 10000 })]),
        (Unit::Mile, Unit::Km) => Some(vec![Op::Mul(Ratio { num: 160934, den: 100000 })]),
        (Unit::Km, Unit::Mile) => Some(vec![Op::Div(Ratio { num: 160934, den: 100000 })]),
        (Unit::Sqm, Unit::Sqft) => Some(vec![Op::Mul(Ratio { num: 107639, den: 10000 })]),
        (Unit::Sqft, Unit::Sqm) => Some(vec![Op::Div(Ratio { num: 107639, den: 10000 })]),
        (Unit::Ml, Unit::L) => Some(vec![Op::Div(Ratio { num: 1000, den: 1 })]),
        (Unit::L, Unit::Ml) => Some(vec![Op::Mul(Ratio { num: 1000, den: 1 })]),
        (Unit::L, Unit::Gal) => Some(vec![Op::Div(Ratio { num: 378541, den: 100000 })]),
        (Unit::Gal, Unit::L) => Some(vec![Op::Mul(Ratio { num: 378541, den: 100000 })]),
        (Unit::Celsius, Unit::Fahrenheit) => Some(vec![Op::Mul(Ratio { num: 9, den: 1 }), Op::Div(Ratio { num: 5, den: 1 }), Op::Add(Ratio { num: 32, den: 1 })]),
        (Unit::Fahrenheit, Unit::Celsius) => Some(vec![Op::Sub(Ratio { num: 32, den: 1 }), Op::Mul(Ratio { num: 5, den: 1 }), Op::Div(Ratio { num: 9, den: 1 })]),
        (Unit::Celsius, Unit::Kelvin) => Some(vec![Op::Add(Ratio { num: 27315, den: 100 })]),
        (Unit::Kelvin, Unit::Celsius) => Some(vec![Op::Sub(Ratio { num: 27315, den: 100 })]),
        (Unit::Fahrenheit, Unit::Kelvin) => Some(vec![Op::Add(Ratio { num: 45967, den: 100 }), Op::Div(Ratio { num: 18, den: 10 })]),
        (Unit::Kelvin, Unit::Fahrenheit) => Some(vec![Op::Mul(Ratio { num: 18, den: 10 }), Op::Sub(Ratio { num: 45967, den: 100 })]),
        (Unit::Kmh, Unit::Mph) => Some(vec![Op::Div(Ratio { num: 160934, den: 100000 })]),
        (Unit::Mph, Unit::Kmh) => Some(vec![Op::Mul(Ratio { num: 160934, den: 100000 })]),
        (Unit::Ms, Unit::Kmh) => Some(vec![Op::Mul(Ratio { num: 36, den: 10 })]),
        (Unit::Kmh, Unit::Ms) => Some(vec![Op::Div(Ratio { num: 36, den: 10 })]),
        (Unit::W, Unit::Kw) => Some(vec![Op::Div(Ratio { num: 1000, den: 1 })]),
        (Unit::Kw, Unit::W) => Some(vec![Op::Mul(Ratio { num: 1000, den: 1 })]),
        (Unit::Pa, Unit::Kpa) => Some(vec![Op::Div(Ratio { num: 1000, den: 1 })]),
        (Unit::Kpa, Unit::Pa) => Some(vec![Op::Mul(Ratio { num: 1000, den: 1 })]),
        (Unit::Bar, Unit::Pa) => Some(vec![Op::Mul(Ratio { num: 100000, den: 1 })]),
        (Unit::Pa, Unit::Bar) => Some(vec![Op::Div(Ratio { num: 100000, den: 1 })]),
        (Unit::Psi, Unit::Pa) => Some(vec![Op::Mul(Ratio { num: 689476, den: 100 })]),
        (Unit::Pa, Unit::Psi) => Some(vec![Op::Div(Ratio { num: 689476, den: 100 })]),
        (Unit::J, Unit::Kj) => Some(vec![Op::Div(Ratio { num: 1000, den: 1 })]),
        (Unit::Kj, Unit::J) => Some(vec![Op::Mul(Ratio { num: 1000, den: 1 })]),
        (Unit::J, Unit::Cal) => Some(vec![Op::Div(Ratio { num: 4184, den: 1000 })]),
        (Unit::Cal, Unit::J) => Some(vec![Op::Mul(Ratio { num: 4184, den: 1000 })]),
        (Unit::Bit, Unit::Byte) => Some(vec![Op::Div(Ratio { num: 8, den: 1 })]),
        (Unit::Byte, Unit::Bit) => Some(vec![Op::Mul(Ratio { num: 8, den: 1 })]),
        (Unit::Kb, Unit::Mb) => Some(vec![Op::Div(Ratio { num: 1024, den: 1 })]),
        (Unit::Mb, Unit::Gb) => Some(vec![Op::Div(Ratio { num: 1024, den: 1 })]),
        (Unit::Gb, Unit::Tb) => Some(vec![Op::Div(Ratio { num: 1024, den: 1 })]),
        (Unit::Tb, Unit::Gb) => Some(vec![Op::Mul(Ratio { num: 1024, den: 1 })]),
        (Unit::Gb, Unit::Mb) => Some(vec![Op::Mul(Ratio { num: 1024, den: 1 })]),
        (Unit::Mb, Unit::Kb) => Some(vec![Op::Mul(Ratio { num: 1024, den: 1 })]),
        (Unit::Sec, Unit::Min) => Some(vec![Op::Div(Ratio { num: 60, den: 1 })]),
        (Unit::Min, Unit::Sec) => Some(vec![Op::Mul(Ratio { num: 60, den: 1 })]),
        (Unit::Min, Unit::Hr) => Some(vec![Op::Div(Ratio { num: 60, den: 1 })]),
        (Unit::Hr, Unit::Min) => Some(vec![Op::Mul(Ratio { num: 60, den: 1 })]),
        (Unit::Hr, Unit::Day) => Some(vec![Op::Div(Ratio { num: 24, den: 1 })]),
        (Unit::Day, Unit::Hr) => Some(vec![Op::Mul(Ratio { num: 24, den: 1 })]),
        (Unit::Dbm, Unit::Watt) => Some(vec![Op::Div(Ratio { num: 10, den: 1 }), Op::Exp10, Op::Div(Ratio { num: 1000, den: 1 })]),
        (Unit::Watt, Unit::Dbm) => Some(vec![Op::Mul(Ratio { num: 1000, den: 1 }), Op::Log10, Op::Mul(Ratio { num: 10, den: 1 })]),
        (Unit::Gy, Unit::Rad) => Some(vec![Op::Mul(Ratio { num: 100, den: 1 })]),
        (Unit::Rad, Unit::Gy) => Some(vec![Op::Div(Ratio { num: 100, den: 1 })]),
        (Unit::Sv, Unit::Rem) => Some(vec![Op::Mul(Ratio { num: 100, den: 1 })]),
        (Unit::Rem, Unit::Sv) => Some(vec![Op::Div(Ratio { num: 100, den: 1 })]),
        (Unit::Amp, Unit::Milliamp) => Some(vec![Op::Mul(Ratio { num: 1000, den: 1 })]),
        (Unit::Milliamp, Unit::Amp) => Some(vec![Op::Div(Ratio { num: 1000, den: 1 })]),
        (Unit::Volt, Unit::Millivolt) => Some(vec![Op::Mul(Ratio { num: 1000, den: 1 })]),
        (Unit::Millivolt, Unit::Volt) => Some(vec![Op::Div(Ratio { num: 1000, den: 1 })]),
        (Unit::Ohm, Unit::Kiloohm) => Some(vec![Op::Div(Ratio { num: 1000, den: 1 })]),
        (Unit::Kiloohm, Unit::Ohm) => Some(vec![Op::Mul(Ratio { num: 1000, den: 1 })]),
        (Unit::Farad, Unit::Microfarad) => Some(vec![Op::Mul(Ratio { num: 1000000, den: 1 })]),
        (Unit::Microfarad, Unit::Farad) => Some(vec![Op::Div(Ratio { num: 1000000, den: 1 })]),
        (Unit::Coulomb, Unit::Millicoulomb) => Some(vec![Op::Mul(Ratio { num: 1000, den: 1 })]),
        (Unit::Millicoulomb, Unit::Coulomb) => Some(vec![Op::Div(Ratio { num: 1000, den: 1 })]),
        (Unit::WattHour, Unit::Joule) => Some(vec![Op::Mul(Ratio { num: 3600, den: 1 })]),
        (Unit::Joule, Unit::WattHour) => Some(vec![Op::Div(Ratio { num: 3600, den: 1 })]),
        (Unit::Lux, Unit::Footcandle) => Some(vec![Op::Div(Ratio { num: 10764, den: 1000 })]),
        (Unit::Footcandle, Unit::Lux) => Some(vec![Op::Mul(Ratio { num: 10764, den: 1000 })]),
        (Unit::Deg, Unit::Rad) => Some(vec![Op::MulPi, Op::Div(Ratio { num: 180, den: 1 })]),
        (Unit::Rad, Unit::Deg) => Some(vec![Op::Mul(Ratio { num: 180, den: 1 }), Op::DivPi]),
        (Unit::Deg, Unit::Grad) => Some(vec![Op::Mul(Ratio { num: 200, den: 180 })]),
        (Unit::Grad, Unit::Deg) => Some(vec![Op::Mul(Ratio { num: 180, den: 200 })]),
        (Unit::NauticalMile, Unit::Km) => Some(vec![Op::Mul(Ratio { num: 1852, den: 1000 })]),
        (Unit::Km, Unit::NauticalMile) => Some(vec![Op::Div(Ratio { num: 1852, den: 1000 })]),
        (Unit::Knot, Unit::Kmh) => Some(vec![Op::Mul(Ratio { num: 1852, den: 1000 })]),
        (Unit::Kmh, Unit::Knot) => Some(vec![Op::Div(Ratio { num: 1852, den: 1000 })]),
        (Unit::Hz, Unit::Khz) => Some(vec![Op::Div(Ratio { num: 1000, den: 1 })]),
        (Unit::Khz, Unit::Hz) => Some(vec![Op::Mul(Ratio { num: 1000, den: 1 })]),
        (Unit::Khz, Unit::Mhz) => Some(vec![Op::Div(Ratio { num: 1000, den: 1 })]),
        (Unit::Mhz, Unit::Khz) => Some(vec![Op::Mul(Ratio { num: 1000, den: 1 })]),
        (Unit::Mhz, Unit::Ghz) => Some(vec![Op::Div(Ratio { num: 1000, den: 1 })]),
        (Unit::Ghz, Unit::Mhz) => Some(vec![Op::Mul(Ratio { num: 1000, den: 1 })]),
        (Unit::Nm, Unit::Lbft) => Some(vec![Op::Mul(Ratio { num: 737562, den: 1000000 })]),
        (Unit::Lbft, Unit::Nm) => Some(vec![Op::Div(Ratio { num: 737562, den: 1000000 })]),
        (Unit::KmPerL, Unit::LPer100km) => Some(vec![Op::DivInto(Ratio { num: 100, den: 1 })]),
        (Unit::LPer100km, Unit::KmPerL) => Some(vec![Op::DivInto(Ratio { num: 100, den: 1 })]),
        (Unit::MpgUs, Unit::KmPerL) => Some(vec![Op::Mul(Ratio { num: 425144, den: 1000000 })]),
        (Unit::KmPerL, Unit::MpgUs) => Some(vec![Op::Div(Ratio { num: 425144, den: 1000000 })]),
        (Unit::MpgUk, Unit::KmPerL) => Some(vec![Op::Mul(Ratio { num: 354006, den: 1000000 })]),
        (Unit::KmPerL, Unit::MpgUk) => Some(vec![Op::Div(Ratio { num: 354006, den: 1000000 })]),
        (Unit::Tesla, Unit::Gauss) => Some(vec![Op::Mul(Ratio { num: 10000, den: 1 })]),
        (Unit::Gauss, Unit::Tesla) => Some(vec![Op::Div(Ratio { num: 10000, den: 1 })]),
        (Unit::Wb, Unit::Mwb) => Some(vec![Op::Mul(Ratio { num: 1000000, den: 1 })]),
        (Unit::Mwb, Unit::Wb) => Some(vec![Op::Div(Ratio { num: 1000000, den: 1 })]),
        (Unit::SqM, Unit::SqFoot) => Some(vec![Op::Mul(Ratio { num: 107639, den: 10000 })]),
        (Unit::SqFoot, Unit::SqM) => Some(vec![Op::Div(Ratio { num: 107639, den: 10000 })]),
        (Unit::CuM, Unit::CuFoot) => Some(vec![Op::Mul(Ratio { num: 353147, den: 10000 })]),
        (Unit::CuFoot, Unit::CuM) => Some(vec![Op::Div(Ratio { num: 353147, den: 10000 })]),
        _ => None,
    }
}

/// Looks a pair of unit tags up in the conversion table.
pub fn lookup(from: &str, to: &str) -> (r: Option<Vec<Op>>)
    ensures
        formula_view(r) == pair_formula(from@, to@),
{
    match (unit_of(from), unit_of(to)) {
        (Some(u), Some(v)) => formula_of(u, v),
        _ => None,
    }
}

} // verus!
