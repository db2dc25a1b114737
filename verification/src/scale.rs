//! Choosing the unit a byte count is shown in, and writing the scaled value
//! with three decimals.

use crate::decimal::{decimal, div_round_half_even, push_decimal, push_three_digits};
use crate::decimal::{lemma_round_half_even_is_nearest, round_half_even, three_digits};
use crate::unit::{lemma_text_spells_symbol, Unit};
use vstd::prelude::*;

verus! {

/// The unit a byte count is shown in: the finest one, from `Byte` up, in which
/// the count is at most 600, and `Tera` where there is none. Counts of zero
/// and below stay in bytes.
pub open spec fn display_unit(bytes: int) -> Unit {
    if bytes <= 600 * Unit::Byte.multiplier() {
        Unit::Byte
    } else if bytes <= 600 * Unit::Kilo.multiplier() {
        Unit::Kilo
    } else if bytes <= 600 * Unit::Mega.multiplier() {
        Unit::Mega
    } else if bytes <= 600 * Unit::Giga.multiplier() {
        Unit::Giga
    } else {
        Unit::Tera
    }
}

/// The size of `bytes` in thousandths of its display unit, rounded to the
/// nearest thousandth (ties to the even one).
pub open spec fn display_thousandths(bytes: int) -> nat {
    round_half_even((vstd::math::abs(bytes) * 1000) as nat, display_unit(bytes).multiplier() as nat)
}

/// The text a byte count is shown as: an optional minus sign, the scaled
/// value with exactly three decimals, a space, and the unit's abbreviation.
pub open spec fn human_text(bytes: int) -> Seq<char> {
    let thousandths = display_thousandths(bytes);
    let sign = if bytes < 0 {
        seq!['-']
    } else {
        Seq::<char>::empty()
    };
    sign + decimal(thousandths / 1000) + seq!['.'] + three_digits(thousandths % 1000) + seq![' ']
        + display_unit(bytes).symbol()
}

/// The display unit is the first that fits: the count is at most 600 of it,
/// unless no coarser unit is left, and more than 600 of every finer unit.
pub proof fn lemma_display_unit_is_first_fit(bytes: int)
    ensures
        display_unit(bytes) != Unit::Unknown,
        bytes <= 600 * display_unit(bytes).multiplier() || display_unit(bytes).coarser() is None,
        forall|finer: Unit|
            finer != Unit::Unknown && finer.multiplier() < display_unit(bytes).multiplier()
                ==> bytes > 600 * #[trigger] finer.multiplier(),
{
}

/// The terabyte is the last unit: nothing is coarser, and a count that is over
/// 600 gigabytes is shown in terabytes however large it is.
pub proof fn lemma_scaling_stops_at_tera(bytes: int)
    ensures
        Unit::Tera.coarser() is None,
        bytes > 600 * Unit::Giga.multiplier() ==> display_unit(bytes) == Unit::Tera,
{
}

/// The shown value is the byte count rounded to the nearest thousandth of the
/// display unit. Taken back to bytes it therefore differs from the count by at
/// most half a thousandth of that unit, which for counts shown in bytes,
/// kilobytes or megabytes is less than 1024 bytes. `error` below is that
/// difference in thousandths of a byte.
pub proof fn lemma_shown_value_is_near(bytes: int)
    ensures
        ({
            let unit = display_unit(bytes).multiplier();
            let error = display_thousandths(bytes) * unit - 1000 * vstd::math::abs(bytes);
            &&& -unit <= 2 * error <= unit
            &&& unit <= Unit::Mega.multiplier() ==> -1024 * 1000 < error < 1024 * 1000
        }),
{
    let unit = display_unit(bytes).multiplier();
    lemma_round_half_even_is_nearest((vstd::math::abs(bytes) * 1000) as nat, unit as nat);
}

/// Writes `raw` units of size `scale` in human-readable form. The value is
/// first taken to bytes; starting from bytes it is then divided by 1024, one
/// unit at a time, for as long as it exceeds 600 and a coarser unit exists.
pub fn human_readable(raw: i64, scale: Unit) -> (text: String)
    ensures
        text@ == human_text(raw * scale.multiplier()),
{
    let factor: u64 = scale.as_u64();
    assert(-0x8000_0000_0000_0000 * 0x100_0000_0000 <= raw * factor <= 0x8000_0000_0000_0000
        * 0x100_0000_0000) by (nonlinear_arith)
        requires
            -0x8000_0000_0000_0000 <= raw < 0x8000_0000_0000_0000,
            0 < factor <= 0x100_0000_0000,
    ;
    let bytes: i128 = (raw as i128) * (factor as i128);
    let mut unit = Unit::Byte;
    let mut divisor: i128 = 1;
    while bytes > 600 * divisor
        invariant
            unit != Unit::Unknown,
            divisor == unit.multiplier(),
            unit == Unit::Byte || bytes > 600 * (divisor / 1024),
        ensures
            unit == display_unit(bytes as int),
            divisor == unit.multiplier(),
        decreases 0x100_0000_0000 - divisor,
    {
        match unit.inc() {
            Some(coarser) => {
                divisor = divisor * 1024;
                unit = coarser;
            },
            None => {
                break ;
            },
        }
    }
    let magnitude: u128 = if bytes < 0 {
        (0 - bytes) as u128
    } else {
        bytes as u128
    };
    let thousandths: u128 = div_round_half_even(magnitude * 1000, divisor as u128);
    let mut text = String::new();
    proof {
        reveal_strlit("-");
        reveal_strlit(".");
        reveal_strlit(" ");
        lemma_text_spells_symbol(unit);
    }
    if bytes < 0 {
        text.append("-");
    }
    push_decimal(&mut text, thousandths / 1000);
    text.append(".");
    push_three_digits(&mut text, (thousandths % 1000) as u16);
    text.append(" ");
    text.append(unit.into());
    assert(text@ =~= human_text(bytes as int));
    text
}

} // verus!
