use vectra::miscs::units::BaseUnit;
use vectra::miscs::units::DimensionalUnit;
use vectra::miscs::units::Unit;
use vectra::miscs::units::UnitPrefix;

fn dim(base: BaseUnit, prefix: UnitPrefix, power: i8) -> DimensionalUnit {
    DimensionalUnit { base, prefix, power }
}

fn bare(base: BaseUnit) -> DimensionalUnit {
    dim(base, UnitPrefix::NoPrefix, 0)
}

#[test]
fn base_unit_symbols() {
    assert_eq!(BaseUnit::Length.get_symbol(), "L");
    assert_eq!(BaseUnit::Mass.get_symbol(), "M");
    assert_eq!(BaseUnit::Time.get_symbol(), "T");
    assert_eq!(BaseUnit::ElectricCurrent.get_symbol(), "I");
    assert_eq!(BaseUnit::Temperature.get_symbol(), "Θ");
    assert_eq!(BaseUnit::AmountOfSubstance.get_symbol(), "N");
    assert_eq!(BaseUnit::LuminousIntensity.get_symbol(), "J");
}

#[test]
fn prefix_symbols() {
    assert_eq!(UnitPrefix::Yotta.get_symbol(), "Y");
    assert_eq!(UnitPrefix::Zetta.get_symbol(), "Z");
    assert_eq!(UnitPrefix::Exa.get_symbol(), "E");
    assert_eq!(UnitPrefix::Peta.get_symbol(), "P");
    assert_eq!(UnitPrefix::Tera.get_symbol(), "T");
    assert_eq!(UnitPrefix::Giga.get_symbol(), "G");
    assert_eq!(UnitPrefix::Mega.get_symbol(), "M");
    assert_eq!(UnitPrefix::Kilo.get_symbol(), "k");
    assert_eq!(UnitPrefix::Hecto.get_symbol(), "h");
    assert_eq!(UnitPrefix::Deca.get_symbol(), "da");
    assert_eq!(UnitPrefix::NoPrefix.get_symbol(), "");
    assert_eq!(UnitPrefix::Deci.get_symbol(), "d");
    assert_eq!(UnitPrefix::Centi.get_symbol(), "c");
    assert_eq!(UnitPrefix::Milli.get_symbol(), "m");
    assert_eq!(UnitPrefix::Micro.get_symbol(), "μ");
    assert_eq!(UnitPrefix::Nano.get_symbol(), "n");
    assert_eq!(UnitPrefix::Pico.get_symbol(), "p");
    assert_eq!(UnitPrefix::Femto.get_symbol(), "f");
    assert_eq!(UnitPrefix::Atto.get_symbol(), "a");
    assert_eq!(UnitPrefix::Zepto.get_symbol(), "z");
    assert_eq!(UnitPrefix::Yocto.get_symbol(), "y");
}

#[test]
fn prefix_exponents() {
    assert_eq!(UnitPrefix::Yotta.exponent(), 24);
    assert_eq!(UnitPrefix::Zetta.exponent(), 21);
    assert_eq!(UnitPrefix::Exa.exponent(), 18);
    assert_eq!(UnitPrefix::Peta.exponent(), 15);
    assert_eq!(UnitPrefix::Tera.exponent(), 12);
    assert_eq!(UnitPrefix::Giga.exponent(), 9);
    assert_eq!(UnitPrefix::Mega.exponent(), 6);
    assert_eq!(UnitPrefix::Kilo.exponent(), 3);
    assert_eq!(UnitPrefix::Hecto.exponent(), 2);
    assert_eq!(UnitPrefix::Deca.exponent(), 1);
    assert_eq!(UnitPrefix::NoPrefix.exponent(), 0);
    assert_eq!(UnitPrefix::Deci.exponent(), -1);
    assert_eq!(UnitPrefix::Centi.exponent(), -2);
    assert_eq!(UnitPrefix::Milli.exponent(), -3);
    assert_eq!(UnitPrefix::Micro.exponent(), -6);
    assert_eq!(UnitPrefix::Nano.exponent(), -9);
    assert_eq!(UnitPrefix::Pico.exponent(), -12);
    assert_eq!(UnitPrefix::Femto.exponent(), -15);
    assert_eq!(UnitPrefix::Atto.exponent(), -18);
    assert_eq!(UnitPrefix::Zepto.exponent(), -21);
    assert_eq!(UnitPrefix::Yocto.exponent(), -24);
}

#[test]
fn prefixes_compare_by_variant() {
    assert!(UnitPrefix::Kilo == UnitPrefix::Kilo);
    assert!(UnitPrefix::Kilo != UnitPrefix::Milli);
    assert!(UnitPrefix::NoPrefix != UnitPrefix::Deca);
}

#[test]
fn the_new_unit_shows_the_seven_bare_symbols() {
    assert_eq!(Unit::new().to_text(), "LMTIΘNJ");
    assert_eq!(Unit::default().to_text(), "LMTIΘNJ");
    assert!(Unit::new().is_printable());
}

#[test]
fn new_from_raw_keeps_the_order() {
    let unit = Unit::new_from_raw(
        bare(BaseUnit::LuminousIntensity),
        bare(BaseUnit::AmountOfSubstance),
        bare(BaseUnit::Temperature),
        bare(BaseUnit::ElectricCurrent),
        bare(BaseUnit::Time),
        bare(BaseUnit::Mass),
        bare(BaseUnit::Length),
    );
    assert_eq!(unit.to_text(), "JNΘITML");
}

#[test]
fn text_with_prefixes_and_powers() {
    let unit = Unit::new_from_raw(
        dim(BaseUnit::Length, UnitPrefix::Kilo, 2),
        dim(BaseUnit::Mass, UnitPrefix::NoPrefix, 1),
        dim(BaseUnit::Time, UnitPrefix::Micro, 0),
        dim(BaseUnit::ElectricCurrent, UnitPrefix::Deca, 9),
        dim(BaseUnit::Temperature, UnitPrefix::NoPrefix, 0),
        dim(BaseUnit::AmountOfSubstance, UnitPrefix::Yocto, 3),
        dim(BaseUnit::LuminousIntensity, UnitPrefix::NoPrefix, 5),
    );
    assert!(unit.is_printable());
    assert_eq!(unit.to_text(), "Lk²M¹TμIda⁹ΘNy³J⁵");
}

#[test]
fn every_superscript() {
    let powers: [(i8, &str); 10] = [
        (0, "L"),
        (1, "L¹"),
        (2, "L²"),
        (3, "L³"),
        (4, "L⁴"),
        (5, "L⁵"),
        (6, "L⁶"),
        (7, "L⁷"),
        (8, "L⁸"),
        (9, "L⁹"),
    ];
    for (power, expected) in powers {
        let unit = Unit::new_from_raw(
            dim(BaseUnit::Length, UnitPrefix::NoPrefix, power),
            bare(BaseUnit::Mass),
            bare(BaseUnit::Time),
            bare(BaseUnit::ElectricCurrent),
            bare(BaseUnit::Temperature),
            bare(BaseUnit::AmountOfSubstance),
            bare(BaseUnit::LuminousIntensity),
        );
        assert_eq!(unit.to_text(), format!("{}MTIΘNJ", expected));
    }
}

#[test]
fn powers_outside_one_digit_are_not_printable() {
    for power in [-1i8, 10, i8::MIN, i8::MAX] {
        let unit = Unit::new_from_raw(
            bare(BaseUnit::Length),
            bare(BaseUnit::Mass),
            bare(BaseUnit::Time),
            dim(BaseUnit::ElectricCurrent, UnitPrefix::Kilo, power),
            bare(BaseUnit::Temperature),
            bare(BaseUnit::AmountOfSubstance),
            bare(BaseUnit::LuminousIntensity),
        );
        assert!(!unit.is_printable());
    }
}
