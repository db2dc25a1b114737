use memory_monitor::Unit;

const SCALED: [Unit; 5] = [Unit::Byte, Unit::Kilo, Unit::Mega, Unit::Giga, Unit::Tera];

#[test]
fn multipliers_are_powers_of_1024() {
    assert_eq!(Unit::Byte.as_u64(), 1);
    assert_eq!(Unit::Kilo.as_u64(), 1024);
    assert_eq!(Unit::Mega.as_u64(), 1_048_576);
    assert_eq!(Unit::Giga.as_u64(), 1_073_741_824);
    assert_eq!(Unit::Tera.as_u64(), 1_099_511_627_776);
}

#[test]
fn unknown_unit_counts_as_one() {
    assert_eq!(Unit::Unknown.as_u64(), 1);
}

#[test]
fn each_coarser_unit_is_1024_times_the_finer() {
    for pair in SCALED.windows(2) {
        assert_eq!(pair[0].inc(), Some(pair[1]));
        assert_eq!(pair[1].as_u64(), pair[0].as_u64() * 1024);
    }
}

#[test]
fn inc_walks_from_byte_to_tera() {
    let mut unit = Unit::Byte;
    let mut steps = 0;
    while let Some(next) = unit.inc() {
        unit = next;
        steps += 1;
    }
    assert_eq!(unit, Unit::Tera);
    assert_eq!(steps, 4);
}

#[test]
fn tera_has_no_coarser_unit() {
    assert_eq!(Unit::Tera.inc(), None);
}

#[test]
fn unknown_has_no_coarser_unit() {
    assert_eq!(Unit::Unknown.inc(), None);
}

#[test]
fn units_convert_into_their_abbreviations() {
    let text: &'static str = Unit::Unknown.into();
    assert_eq!(text, "??");
    let text: &'static str = Unit::Tera.into();
    assert_eq!(text, "TB");
    let text: &'static str = Unit::Giga.into();
    assert_eq!(text, "GB");
    let text: &'static str = Unit::Mega.into();
    assert_eq!(text, "MB");
    let text: &'static str = Unit::Kilo.into();
    assert_eq!(text, "kB");
    let text: &'static str = Unit::Byte.into();
    assert_eq!(text, "B");
}

#[test]
fn native_unit_follows_the_platform() {
    assert_eq!(Unit::native(true, false), Unit::Kilo);
    assert_eq!(Unit::native(false, true), Unit::Byte);
    assert_eq!(Unit::native(false, false), Unit::Unknown);
    assert_eq!(Unit::native(true, true), Unit::Kilo);
}
