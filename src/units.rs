use vstd::prelude::*;

use crate::text::same_text;

verus! {

/// A unit of measure known to the conversion table, named by its tag.
#[derive(Clone, Copy, Debug, PartialEq, Eq, Structural)]
pub enum Unit {
    Mg,
    G,
    Kg,
    Tonne,
    Oz,
    Lb,
    Mm,
    Cm,
    M,
    Km,
    Inch,
    Ft,
    Yard,
    Mile,
    Sqm,
    Sqft,
    Ml,
    L,
    Gal,
    Celsius,
    Fahrenheit,
    Kelvin,
    Kmh,
    Mph,
    Ms,
    W,
    Kw,
    Pa,
    Kpa,
    Bar,
    Psi,
    J,
    Kj,
    Cal,
    Bit,
    Byte,
    Kb,
    Mb,
    Gb,
    Tb,
    Sec,
    Min,
    Hr,
    Day,
    Dbm,
    Watt,
    Gy,
    Rad,
    Sv,
    Rem,
    Amp,
    Milliamp,
    Volt,
    Millivolt,
    Ohm,
    Kiloohm,
    Farad,
    Microfarad,
    Coulomb,
    Millicoulomb,
    WattHour,
    Joule,
    Lux,
    Footcandle,
    Deg,
    Grad,
    NauticalMile,
    Knot,
    Hz,
    Khz,
    Mhz,
    Ghz,
    Nm,
    Lbft,
    KmPerL,
    LPer100km,
    MpgUs,
    MpgUk,
    Tesla,
    Gauss,
    Wb,
    Mwb,
    SqM,
    SqFoot,
    CuM,
    CuFoot,
}

/// The unit that a tag names, if any: tags match exactly, case included.
pub open spec fn unit_named(t: Seq<char>) -> Option<Unit> {
    if t == "mg"@ {
        Some(Unit::Mg)
    } else if t == "g"@ {
        Some(Unit::G)
    } else if t == "kg"@ {
        Some(Unit::Kg)
    } else if t == "tonne"@ {
        Some(Unit::Tonne)
    } else if t == "oz"@ {
        Some(Unit::Oz)
    } else if t == "lb"@ {
        Some(Unit::Lb)
    } else if t == "mm"@ {
        Some(Unit::Mm)
    } else if t == "cm"@ {
        Some(Unit::Cm)
    } else if t == "m"@ {
        Some(Unit::M)
    } else if t == "km"@ {
        Some(Unit::Km)
    } else if t == "inch"@ {
        Some(Unit::Inch)
    } else if t == "ft"@ {
        Some(Unit::Ft)
    } else if t == "yard"@ {
        Some(Unit::Yard)
    } else if t == "mile"@ {
        Some(Unit::Mile)
    } else if t == "sqm"@ {
        Some(Unit::Sqm)
    } else if t == "sqft"@ {
        Some(Unit::Sqft)
    } else if t == "ml"@ {
        Some(Unit::Ml)
    } else if t == "l"@ {
        Some(Unit::L)
    } else if t == "gal"@ {
        Some(Unit::Gal)
    } else if t == "celsius"@ {
        Some(Unit::Celsius)
    } else if t == "fahrenheit"@ {
        Some(Unit::Fahrenheit)
    } else if t == "kelvin"@ {
        Some(Unit::Kelvin)
    } else if t == "kmh"@ {
        Some(Unit::Kmh)
    } else if t == "mph"@ {
        Some(Unit::Mph)
    } else if t == "ms"@ {
        Some(Unit::Ms)
    } else if t == "w"@ {
        Some(Unit::W)
    } else if t == "kw"@ {
        Some(Unit::Kw)
    } else if t == "pa"@ {
        Some(Unit::Pa)
    } else if t == "kpa"@ {
        Some(Unit::Kpa)
    } else if t == "bar"@ {
        Some(Unit::Bar)
    } else if t == "psi"@ {
        Some(Unit::Psi)
    } else if t == "j"@ {
        Some(Unit::J)
    } else if t == "kj"@ {
        Some(Unit::Kj)
    } else if t == "cal"@ {
        Some(Unit::Cal)
    } else if t == "bit"@ {
        Some(Unit::Bit)
    } else if t == "byte"@ {
        Some(Unit::Byte)
    } else if t == "kb"@ {
        Some(Unit::Kb)
    } else if t == "mb"@ {
        Some(Unit::Mb)
    } else if t == "gb"@ {
        Some(Unit::Gb)
    } else if t == "tb"@ {
        Some(Unit::Tb)
    } else if t == "sec"@ {
        Some(Unit::Sec)
    } else if t == "min"@ {
        Some(Unit::Min)
    } else if t == "hr"@ {
        Some(Unit::Hr)
    } else if t == "day"@ {
        Some(Unit::Day)
    } else if t == "dbm"@ {
        Some(Unit::Dbm)
    } else if t == "watt"@ {
        Some(Unit::Watt)
    } else if t == "gy"@ {
        Some(Unit::Gy)
    } else if t == "rad"@ {
        Some(Unit::Rad)
    } else if t == "sv"@ {
        Some(Unit::Sv)
    } else if t == "rem"@ {
        Some(Unit::Rem)
    } else if t == "amp"@ {
        Some(Unit::Amp)
    } else if t == "milliamp"@ {
        Some(Unit::Milliamp)
    } else if t == "volt"@ {
        Some(Unit::Volt)
    } else if t == "millivolt"@ {
        Some(Unit::Millivolt)
    } else if t == "ohm"@ {
        Some(Unit::Ohm)
    } else if t == "kiloohm"@ {
        Some(Unit::Kiloohm)
    } else if t == "farad"@ {
        Some(Unit::Farad)
    } else if t == "microfarad"@ {
        Some(Unit::Microfarad)
    } else if t == "coulomb"@ {
        Some(Unit::Coulomb)
    } else if t == "millicoulomb"@ {
        Some(Unit::Millicoulomb)
    } else if t == "watt_hour"@ {
        Some(Unit::WattHour)
    } else if t == "joule"@ {
        Some(Unit::Joule)
    } else if t == "lux"@ {
        Some(Unit::Lux)
    } else if t == "footcandle"@ {
        Some(Unit::Footcandle)
    } else if t == "deg"@ {
        Some(Unit::Deg)
    } else if t == "grad"@ {
        Some(Unit::Grad)
    } else if t == "nautical_mile"@ {
        Some(Unit::NauticalMile)
    } else if t == "knot"@ {
        Some(Unit::Knot)
    } else if t == "hz"@ {
        Some(Unit::Hz)
    } else if t == "khz"@ {
        Some(Unit::Khz)
    } else if t == "mhz"@ {
        Some(Unit::Mhz)
    } else if t == "ghz"@ {
        Some(Unit::Ghz)
    } else if t == "nm"@ {
        Some(Unit::Nm)
    } else if t == "lbft"@ {
        Some(Unit::Lbft)
    } else if t == "km_per_l"@ {
        Some(Unit::KmPerL)
    } else if t == "l_per_100km"@ {
        Some(Unit::LPer100km)
    } else if t == "mpg_us"@ {
        Some(Unit::MpgUs)
    } else if t == "mpg_uk"@ {
        Some(Unit::MpgUk)
    } else if t == "tesla"@ {
        Some(Unit::Tesla)
    } else if t == "gauss"@ {
        Some(Unit::Gauss)
    } else if t == "wb"@ {
        Some(Unit::Wb)
    } else if t == "mwb"@ {
        Some(Unit::Mwb)
    } else if t == "sq_m"@ {
        Some(Unit::SqM)
    } else if t == "sq_foot"@ {
        Some(Unit::SqFoot)
    } else if t == "cu_m"@ {
        Some(Unit::CuM)
    } else if t == "cu_foot"@ {
        Some(Unit::CuFoot)
    } else {
        None
    }
}

/// Reads a unit tag.
pub fn unit_of(tag: &str) -> (r: Option<Unit>)
    ensures
        r == unit_named(tag@),
{
    if same_text(tag, "mg") {
        return Some(Unit::Mg);
    }
    if same_text(tag, "g") {
        return Some(Unit::G);
    }
    if same_text(tag, "kg") {
        return Some(Unit::Kg);
    }
    if same_text(tag, "tonne") {
        return Some(Unit::Tonne);
    }
    if same_text(tag, "oz") {
        return Some(Unit::Oz);
    }
    if same_text(tag, "lb") {
        return Some(Unit::Lb);
    }
    if same_text(tag, "mm") {
        return Some(Unit::Mm);
    }
    if same_text(tag, "cm") {
        return Some(Unit::Cm);
    }
    if same_text(tag, "m") {
        return Some(Unit::M);
    }
    if same_text(tag, "km") {
        return Some(Unit::Km);
    }
    if same_text(tag, "inch") {
        return Some(Unit::Inch);
    }
    if same_text(tag, "ft") {
        return Some(Unit::Ft);
    }
    if same_text(tag, "yard") {
        return Some(Unit::Yard);
    }
    if same_text(tag, "mile") {
        return Some(Unit::Mile);
    }
    if same_text(tag, "sqm") {
        return Some(Unit::Sqm);
    }
    if same_text(tag, "sqft") {
        return Some(Unit::Sqft);
    }
    if same_text(tag, "ml") {
        return Some(Unit::Ml);
    }
    if same_text(tag, "l") {
        return Some(Unit::L);
    }
    if same_text(tag, "gal") {
        return Some(Unit::Gal);
    }
    if same_text(tag, "celsius") {
        return Some(Unit::Celsius);
    }
    if same_text(tag, "fahrenheit") {
        return Some(Unit::Fahrenheit);
    }
    if same_text(tag, "kelvin") {
        return Some(Unit::Kelvin);
    }
    if same_text(tag, "kmh") {
        return Some(Unit::Kmh);
    }
    if same_text(tag, "mph") {
        return Some(Unit::Mph);
    }
    if same_text(tag, "ms") {
        return Some(Unit::Ms);
    }
    if same_text(tag, "w") {
        return Some(Unit::W);
    }
    if same_text(tag, "kw") {
        return Some(Unit::Kw);
    }
    if same_text(tag, "pa") {
        return Some(Unit::Pa);
    }
    if same_text(tag, "kpa") {
        return Some(Unit::Kpa);
    }
    if same_text(tag, "bar") {
        return Some(Unit::Bar);
    }
    if same_text(tag, "psi") {
        return Some(Unit::Psi);
    }
    if same_text(tag, "j") {
        return Some(Unit::J);
    }
    if same_text(tag, "kj") {
        return Some(Unit::Kj);
    }
    if same_text(tag, "cal") {
        return Some(Unit::Cal);
    }
    if same_text(tag, "bit") {
        return Some(Unit::Bit);
    }
    if same_text(tag, "byte") {
        return Some(Unit::Byte);
    }
    if same_text(tag, "kb") {
        return Some(Unit::Kb);
    }
    if same_text(tag, "mb") {
        return Some(Unit::Mb);
    }
    if same_text(tag, "gb") {
        return Some(Unit::Gb);
    }
    if same_text(tag, "tb") {
        return Some(Unit::Tb);
    }
    if same_text(tag, "sec") {
        return Some(Unit::Sec);
    }
    if same_text(tag, "min") {
        return Some(Unit::Min);
    }
    if same_text(tag, "hr") {
        return Some(Unit::Hr);
    }
    if same_text(tag, "day") {
        return Some(Unit::Day);
    }
    if same_text(tag, "dbm") {
        return Some(Unit::Dbm);
    }
    if same_text(tag, "watt") {
        return Some(Unit::Watt);
    }
    if same_text(tag, "gy") {
        return Some(Unit::Gy);
    }
    if same_text(tag, "rad") {
        return Some(Unit::Rad);
    }
    if same_text(tag, "sv") {
        return Some(Unit::Sv);
    }
    if same_text(tag, "rem") {
        return Some(Unit::Rem);
    }
    if same_text(tag, "amp") {
        return Some(Unit::Amp);
    }
    if same_text(tag, "milliamp") {
        return Some(Unit::Milliamp);
    }
    if same_text(tag, "volt") {
        return Some(Unit::Volt);
    }
    if same_text(tag, "millivolt") {
        return Some(Unit::Millivolt);
    }
    if same_text(tag, "ohm") {
        return Some(Unit::Ohm);
    }
    if same_text(tag, "kiloohm") {
        return Some(Unit::Kiloohm);
    }
    if same_text(tag, "farad") {
        return Some(Unit::Farad);
    }
    if same_text(tag, "microfarad") {
        return Some(Unit::Microfarad);
    }
    if same_text(tag, "coulomb") {
        return Some(Unit::Coulomb);
    }
    if same_text(tag, "millicoulomb") {
        return Some(Unit::Millicoulomb);
    }
    if same_text(tag, "watt_hour") {
        return Some(Unit::WattHour);
    }
    if same_text(tag, "joule") {
        return Some(Unit::Joule);
    }
    if same_text(tag, "lux") {
        return Some(Unit::Lux);
    }
    if same_text(tag, "footcandle") {
        return Some(Unit::Footcandle);
    }
    if same_text(tag, "deg") {
        return Some(Unit::Deg);
    }
    if same_text(tag, "grad") {
        return Some(Unit::Grad);
    }
    if same_text(tag, "nautical_mile") {
        return Some(Unit::NauticalMile);
    }
    if same_text(tag, "knot") {
        return Some(Unit::Knot);
    }
    if same_text(tag, "hz") {
        return Some(Unit::Hz);
    }
    if same_text(tag, "khz") {
        return Some(Unit::Khz);
    }
    if same_text(tag, "mhz") {
        return Some(Unit::Mhz);
    }
    if same_text(tag, "ghz") {
        return Some(Unit::Ghz);
    }
    if same_text(tag, "nm") {
        return Some(Unit::Nm);
    }
    if same_text(tag, "lbft") {
        return Some(Unit::Lbft);
    }
    if same_text(tag, "km_per_l") {
        return Some(Unit::KmPerL);
    }
    if same_text(tag, "l_per_100km") {
        return Some(Unit::LPer100km);
    }
    if same_text(tag, "mpg_us") {
        return Some(Unit::MpgUs);
    }
    if same_text(tag, "mpg_uk") {
        return Some(Unit::MpgUk);
    }
    if same_text(tag, "tesla") {
        return Some(Unit::Tesla);
    }
    if same_text(tag, "gauss") {
        return Some(Unit::Gauss);
    }
    if same_text(tag, "wb") {
        return Some(Unit::Wb);
    }
    if same_text(tag, "mwb") {
        return Some(Unit::Mwb);
    }
    if same_text(tag, "sq_m") {
        return Some(Unit::SqM);
    }
    if same_text(tag, "sq_foot") {
        return Some(Unit::SqFoot);
    }
    if same_text(tag, "cu_m") {
        return Some(Unit::CuM);
    }
    if same_text(tag, "cu_foot") {
        return Some(Unit::CuFoot);
    }
    None
}

} // verus!
