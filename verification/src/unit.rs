//! The magnitudes a byte count can be expressed in.

use vstd::prelude::*;

verus! {

/// A power-of-1024 magnitude. `Unknown` stands for a platform whose native
/// scale could not be resolved; it counts as a plain factor of one.
#[derive(Debug, Clone, Copy, PartialEq, Eq, Structural)]
pub enum Unit {
    Unknown,
    Tera,
    Giga,
    Mega,
    Kilo,
    Byte,
}

impl Unit {
    /// Number of bytes in one of this unit.
    pub open spec fn multiplier(self) -> int {
        match self {
            Unit::Unknown => 1,
            Unit::Tera => 1_099_511_627_776,
            Unit::Giga => 1_073_741_824,
            Unit::Mega => 1_048_576,
            Unit::Kilo => 1024,
            Unit::Byte => 1,
        }
    }

    /// The abbreviation this unit is displayed with.
    pub open spec fn symbol(self) -> Seq<char> {
        match self {
            Unit::Unknown => seq!['?', '?'],
            Unit::Tera => seq!['T', 'B'],
            Unit::Giga => seq!['G', 'B'],
            Unit::Mega => seq!['M', 'B'],
            Unit::Kilo => seq!['k', 'B'],
            Unit::Byte => seq!['B'],
        }
    }

    /// The next coarser unit, if there is one.
    pub open spec fn coarser(self) -> Option<Unit> {
        match self {
            Unit::Unknown => None,
            Unit::Tera => None,
            Unit::Giga => Some(Unit::Tera),
            Unit::Mega => Some(Unit::Giga),
            Unit::Kilo => Some(Unit::Mega),
            Unit::Byte => Some(Unit::Kilo),
        }
    }

    /// The unit in which a platform reports the peak resident set size:
    /// kilobytes on Linux and bytes on macOS. Anywhere else the unit is not
    /// known.
    pub fn native(linux: bool, macos: bool) -> (unit: Unit)
        ensures
            linux ==> unit == Unit::Kilo,
            !linux && macos ==> unit == Unit::Byte,
            !linux && !macos ==> unit == Unit::Unknown,
    {
        match linux {
            true => Unit::Kilo,
            false => match macos {
                true => Unit::Byte,
                false => Unit::Unknown,
            },
        }
    }

    /// Number of bytes in one of this unit.
    pub fn as_u64(self) -> (m: u64)
        ensures
            m == self.multiplier(),
    {
        match self {
            Unit::Unknown => 1,
            Unit::Tera => 1024 * 1024 * 1024 * 1024,
            Unit::Giga => 1024 * 1024 * 1024,
            Unit::Mega => 1024 * 1024,
            Unit::Kilo => 1024,
            Unit::Byte => 1,
        }
    }

    /// Steps to the next coarser unit; `Tera` is the last one.
    pub fn inc(self) -> (next: Option<Unit>)
        ensures
            next == self.coarser(),
    {
        match self {
            Unit::Unknown => None,
            Unit::Tera => None,
            Unit::Giga => Some(Unit::Tera),
            Unit::Mega => Some(Unit::Giga),
            Unit::Kilo => Some(Unit::Mega),
            Unit::Byte => Some(Unit::Kilo),
        }
    }
}

impl From<Unit> for &'static str {
    fn from(unit: Unit) -> (text: &'static str) {
        match unit {
            Unit::Unknown => "??",
            Unit::Tera => "TB",
            Unit::Giga => "GB",
            Unit::Mega => "MB",
            Unit::Kilo => "kB",
            Unit::Byte => "B",
        }
    }
}

impl vstd::std_specs::convert::FromSpecImpl<Unit> for &'static str {
    open spec fn obeys_from_spec() -> bool {
        true
    }

    open spec fn from_spec(unit: Unit) -> &'static str {
        match unit {
            Unit::Unknown => "??",
            Unit::Tera => "TB",
            Unit::Giga => "GB",
            Unit::Mega => "MB",
            Unit::Kilo => "kB",
            Unit::Byte => "B",
        }
    }
}

/// Each step to a coarser unit multiplies the number of bytes in a unit by
/// 1024: a kilobyte is 1024 bytes, and so on up to the terabyte.
pub proof fn lemma_coarser_is_1024_times_finer(unit: Unit)
    ensures
        unit.coarser() matches Some(coarser) ==> coarser.multiplier() == 1024 * unit.multiplier(),
{
}

/// The text that a unit converts into spells its abbreviation.
pub proof fn lemma_text_spells_symbol(unit: Unit)
    ensures
        <&'static str as vstd::std_specs::convert::FromSpec<Unit>>::from_spec(unit)@
            == unit.symbol(),
{
    reveal_strlit("??");
    reveal_strlit("TB");
    reveal_strlit("GB");
    reveal_strlit("MB");
    reveal_strlit("kB");
    reveal_strlit("B");
    assert(<&'static str as vstd::std_specs::convert::FromSpec<Unit>>::from_spec(unit)@
        =~= unit.symbol());
}

} // verus!
