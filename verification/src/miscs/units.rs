//! The seven base dimensions, the decimal prefixes, and a unit as a power of
//! each dimension.

use vstd::prelude::*;
use vstd::string::StringExecFns;

verus! {

/// A base dimension of the international system.
#[derive(Clone, Copy, Debug, PartialEq, Eq, Structural)]
pub enum BaseUnit {
    Length,
    Mass,
    Time,
    ElectricCurrent,
    Temperature,
    AmountOfSubstance,
    LuminousIntensity,
}

impl BaseUnit {
    /// The symbol of the dimension.
    pub open spec fn symbol(&self) -> Seq<char> {
        match self {
            BaseUnit::Length => "L"@,
            BaseUnit::Mass => "M"@,
            BaseUnit::Time => "T"@,
            BaseUnit::ElectricCurrent => "I"@,
            BaseUnit::Temperature => "Θ"@,
            BaseUnit::AmountOfSubstance => "N"@,
            BaseUnit::LuminousIntensity => "J"@,
        }
    }

    pub fn get_symbol(&self) -> (r: &str)
        ensures
            r@ == self.symbol(),
    {
        match self {
            BaseUnit::Length => "L",
            BaseUnit::Mass => "M",
            BaseUnit::Time => "T",
            BaseUnit::ElectricCurrent => "I",
            BaseUnit::Temperature => "Θ",
            BaseUnit::AmountOfSubstance => "N",
            BaseUnit::LuminousIntensity => "J",
        }
    }
}

/// A decimal prefix, from yotta down to yocto; `NoPrefix` is the absence of one.
#[derive(Clone, Copy, Debug, PartialEq, Eq, Structural)]
pub enum UnitPrefix {
    Yotta,
    Zetta,
    Exa,
    Peta,
    Tera,
    Giga,
    Mega,
    Kilo,
    Hecto,
    Deca,
    NoPrefix,
    Deci,
    Centi,
    Milli,
    Micro,
    Nano,
    Pico,
    Femto,
    Atto,
    Zepto,
    Yocto,
}

impl UnitPrefix {
    /// The symbol of the prefix; empty for `NoPrefix`.
    pub open spec fn symbol(&self) -> Seq<char> {
        match self {
            UnitPrefix::Yotta => "Y"@,
            UnitPrefix::Zetta => "Z"@,
            UnitPrefix::Exa => "E"@,
            UnitPrefix::Peta => "P"@,
            UnitPrefix::Tera => "T"@,
            UnitPrefix::Giga => "G"@,
            UnitPrefix::Mega => "M"@,
            UnitPrefix::Kilo => "k"@,
            UnitPrefix::Hecto => "h"@,
            UnitPrefix::Deca => "da"@,
            UnitPrefix::NoPrefix => ""@,
            UnitPrefix::Deci => "d"@,
            UnitPrefix::Centi => "c"@,
            UnitPrefix::Milli => "m"@,
            UnitPrefix::Micro => "μ"@,
            UnitPrefix::Nano => "n"@,
            UnitPrefix::Pico => "p"@,
            UnitPrefix::Femto => "f"@,
            UnitPrefix::Atto => "a"@,
            UnitPrefix::Zepto => "z"@,
            UnitPrefix::Yocto => "y"@,
        }
    }

    /// The power of ten that the prefix stands for.
    pub open spec fn exponent_spec(&self) -> int {
        match self {
            UnitPrefix::Yotta => 24,
            UnitPrefix::Zetta => 21,
            UnitPrefix::Exa => 18,
            UnitPrefix::Peta => 15,
            UnitPrefix::Tera => 12,
            UnitPrefix::Giga => 9,
            UnitPrefix::Mega => 6,
            UnitPrefix::Kilo => 3,
            UnitPrefix::Hecto => 2,
            UnitPrefix::Deca => 1,
            UnitPrefix::NoPrefix => 0,
            UnitPrefix::Deci => -1,
            UnitPrefix::Centi => -2,
            UnitPrefix::Milli => -3,
            UnitPrefix::Micro => -6,
            UnitPrefix::Nano => -9,
            UnitPrefix::Pico => -12,
            UnitPrefix::Femto => -15,
            UnitPrefix::Atto => -18,
            UnitPrefix::Zepto => -21,
            UnitPrefix::Yocto => -24,
        }
    }

    pub fn get_symbol(&self) -> (r: &str)
        ensures
            r@ == self.symbol(),
    {
        match self {
            UnitPrefix::Yotta => "Y",
            UnitPrefix::Zetta => "Z",
            UnitPrefix::Exa => "E",
            UnitPrefix::Peta => "P",
            UnitPrefix::Tera => "T",
            UnitPrefix::Giga => "G",
            UnitPrefix::Mega => "M",
            UnitPrefix::Kilo => "k",
            UnitPrefix::Hecto => "h",
            UnitPrefix::Deca => "da",
            UnitPrefix::NoPrefix => "",
            UnitPrefix::Deci => "d",
            UnitPrefix::Centi => "c",
            UnitPrefix::Milli => "m",
            UnitPrefix::Micro => "μ",
            UnitPrefix::Nano => "n",
            UnitPrefix::Pico => "p",
            UnitPrefix::Femto => "f",
            UnitPrefix::Atto => "a",
            UnitPrefix::Zepto => "z",
            UnitPrefix::Yocto => "y",
        }
    }

    /// The power of ten that the prefix stands for.
    pub fn exponent(&self) -> (e: i8)
        ensures
            e == self.exponent_spec(),
    {
        match self {
            UnitPrefix::Yotta => 24,
            UnitPrefix::Zetta => 21,
            UnitPrefix::Exa => 18,
            UnitPrefix::Peta => 15,
            UnitPrefix::Tera => 12,
            UnitPrefix::Giga => 9,
            UnitPrefix::Mega => 6,
            UnitPrefix::Kilo => 3,
            UnitPrefix::Hecto => 2,
            UnitPrefix::Deca => 1,
            UnitPrefix::NoPrefix => 0,
            UnitPrefix::Deci => -1,
            UnitPrefix::Centi => -2,
            UnitPrefix::Milli => -3,
            UnitPrefix::Micro => -6,
            UnitPrefix::Nano => -9,
            UnitPrefix::Pico => -12,
            UnitPrefix::Femto => -15,
            UnitPrefix::Atto => -18,
            UnitPrefix::Zepto => -21,
            UnitPrefix::Yocto => -24,
        }
    }
}

/// One dimension of a unit: the dimension, its prefix, and the power to
/// which it is raised.
#[derive(Clone, Copy, Debug, PartialEq, Eq, Structural)]
pub struct DimensionalUnit {
    pub base: BaseUnit,
    pub prefix: UnitPrefix,
    pub power: i8,
}

/// `base` without a prefix, raised to the power zero.
pub open spec fn absent(base: BaseUnit) -> DimensionalUnit {
    DimensionalUnit { base, prefix: UnitPrefix::NoPrefix, power: 0 }
}

/// The seven dimensions in their fixed order, each absent.
pub open spec fn dimensionless() -> Seq<DimensionalUnit> {
    seq![
        absent(BaseUnit::Length),
        absent(BaseUnit::Mass),
        absent(BaseUnit::Time),
        absent(BaseUnit::ElectricCurrent),
        absent(BaseUnit::Temperature),
        absent(BaseUnit::AmountOfSubstance),
        absent(BaseUnit::LuminousIntensity),
    ]
}

/// The superscript character of the digit `d`, for `0 <= d <= 9`.
pub open spec fn superscript(d: int) -> char {
    if d == 0 {
        '⁰'
    } else if d == 1 {
        '¹'
    } else if d == 2 {
        '²'
    } else if d == 3 {
        '³'
    } else if d == 4 {
        '⁴'
    } else if d == 5 {
        '⁵'
    } else if d == 6 {
        '⁶'
    } else if d == 7 {
        '⁷'
    } else if d == 8 {
        '⁸'
    } else {
        '⁹'
    }
}

/// The text of one dimension: its symbol, then the prefix's symbol, then the
/// power as a superscript unless it is zero.
pub open spec fn dimension_text(d: DimensionalUnit) -> Seq<char> {
    d.base.symbol() + d.prefix.symbol() + if d.power != 0 {
        seq![superscript(d.power as int)]
    } else {
        Seq::<char>::empty()
    }
}

/// The texts of the first `n` dimensions of `dims`, one after the other.
pub open spec fn dimensions_text(dims: Seq<DimensionalUnit>, n: int) -> Seq<char>
    decreases n,
{
    if n <= 0 {
        Seq::<char>::empty()
    } else {
        dimensions_text(dims, n - 1) + dimension_text(dims[n - 1])
    }
}

/// A unit: seven dimensions, in the order length, mass, time, electric
/// current, temperature, amount of substance, luminous intensity.
pub struct Unit {
    values: [DimensionalUnit; 7],
}

impl View for Unit {
    type V = Seq<DimensionalUnit>;

    closed spec fn view(&self) -> Seq<DimensionalUnit> {
        self.values@
    }
}

impl Default for Unit {
    fn default() -> (unit: Unit)
        ensures
            unit@ == dimensionless(),
    {
        let unit = Unit {
            values: [
                DimensionalUnit {
                    base: BaseUnit::Length,
                    prefix: UnitPrefix::NoPrefix,
                    power: 0,
                },
                DimensionalUnit {
                    base: BaseUnit::Mass,
                    prefix: UnitPrefix::NoPrefix,
                    power: 0,
                },
                DimensionalUnit {
                    base: BaseUnit::Time,
                    prefix: UnitPrefix::NoPrefix,
                    power: 0,
                },
                DimensionalUnit {
                    base: BaseUnit::ElectricCurrent,
                    prefix: UnitPrefix::NoPrefix,
                    power: 0,
                },
                DimensionalUnit {
                    base: BaseUnit::Temperature,
                    prefix: UnitPrefix::NoPrefix,
                    power: 0,
                },
                DimensionalUnit {
                    base: BaseUnit::AmountOfSubstance,
                    prefix: UnitPrefix::NoPrefix,
                    power: 0,
                },
                DimensionalUnit {
                    base: BaseUnit::LuminousIntensity,
                    prefix: UnitPrefix::NoPrefix,
                    power: 0,
                },
            ],
        };
        assert(unit@ =~= dimensionless());
        unit
    }
}

fn superscript_str(d: i8) -> (r: &'static str)
    requires
        0 <= d <= 9,
    ensures
        r@ == seq![superscript(d as int)],
{
    proof {
        reveal_strlit("⁰");
        reveal_strlit("¹");
        reveal_strlit("²");
        reveal_strlit("³");
        reveal_strlit("⁴");
        reveal_strlit("⁵");
        reveal_strlit("⁶");
        reveal_strlit("⁷");
        reveal_strlit("⁸");
        reveal_strlit("⁹");
    }
    let r = if d == 0 {
        "⁰"
    } else if d == 1 {
        "¹"
    } else if d == 2 {
        "²"
    } else if d == 3 {
        "³"
    } else if d == 4 {
        "⁴"
    } else if d == 5 {
        "⁵"
    } else if d == 6 {
        "⁶"
    } else if d == 7 {
        "⁷"
    } else if d == 8 {
        "⁸"
    } else {
        "⁹"
    };
    assert(r@ =~= seq![superscript(d as int)]);
    r
}

impl Unit {
    /// The dimensionless unit.
    pub fn new() -> (unit: Unit)
        ensures
            unit@ == dimensionless(),
    {
        Unit::default()
    }

    /// The unit with the given seven dimensions, in this order.
    pub fn new_from_raw(
        length: DimensionalUnit,
        mass: DimensionalUnit,
        time: DimensionalUnit,
        electric_current: DimensionalUnit,
        temperature: DimensionalUnit,
        amount_of_substance: DimensionalUnit,
        luminous_intensity: DimensionalUnit,
    ) -> (unit: Unit)
        ensures
            unit@ == seq![
                length,
                mass,
                time,
                electric_current,
                temperature,
                amount_of_substance,
                luminous_intensity,
            ],
    {
        let unit = Unit {
            values: [
                length,
                mass,
                time,
                electric_current,
                temperature,
                amount_of_substance,
                luminous_intensity,
            ],
        };
        assert(unit@ =~= seq![
            length,
            mass,
            time,
            electric_current,
            temperature,
            amount_of_substance,
            luminous_intensity,
        ]);
        unit
    }

    /// Whether every power is a single digit, so that it has a superscript.
    pub open spec fn printable(&self) -> bool {
        forall|i: int| 0 <= i < 7 ==> 0 <= (#[trigger] self@[i]).power <= 9
    }

    /// Whether every power is a single digit.
    pub fn is_printable(&self) -> (b: bool)
        ensures
            b == self.printable(),
    {
        let mut i: usize = 0;
        while i < 7
            invariant
                0 <= i <= 7,
                self@ == self.values@,
                forall|j: int| 0 <= j < i ==> 0 <= (#[trigger] self@[j]).power <= 9,
            decreases 7 - i,
        {
            let power = self.values[i].power;
            if power < 0 || power > 9 {
                return false;
            }
            i = i + 1;
        }
        true
    }

    /// The text of the unit: the texts of its seven dimensions in order.
    pub open spec fn text_spec(&self) -> Seq<char> {
        dimensions_text(self@, 7)
    }

    /// The text of the unit: the texts of its seven dimensions in order.
    pub fn to_text(&self) -> (text: String)
        requires
            self.printable(),
        ensures
            text@ == self.text_spec(),
    {
        let mut text = String::new();
        let mut i: usize = 0;
        while i < 7
            invariant
                0 <= i <= 7,
                self@.len() == 7,
                self@ == self.values@,
                self.printable(),
                text@ == dimensions_text(self@, i as int),
            decreases 7 - i,
        {
            let dimension = &self.values[i];
            let mut symbol = String::from_str(dimension.base.get_symbol());
            if dimension.prefix != UnitPrefix::NoPrefix {
                symbol.append(dimension.prefix.get_symbol());
            }
            if dimension.power != 0 {
                symbol.append(superscript_str(dimension.power));
            }
            proof {
                reveal_strlit("");
                assert(symbol@ =~= dimension_text(self@[i as int]));
            }
            text.append(symbol.as_str());
            i = i + 1;
        }
        text
    }
}

} // verus!
