//! Orthogonal extensions: the VIFE bytes that modify what a VIF said.
//!
//! An extension appends factors to the unit, corrects the decimal exponent of
//! the value or of its additive constant, or attaches a label. Extensions
//! apply in wire order, each to what the block said before it.
use crate::bits::{low7, without_extension};
use crate::user_data::unit_vector::{UnitFactor, UnitVector, MAX_UNIT_FACTORS};
use crate::user_data::value_information::{Unit, MAX_VIFE_RECORDS};
use crate::user_data::value_label::{LabelSet, ValueLabel};
use crate::user_data::variable_user_data::Exponent;
use vstd::prelude::*;

verus! {

/// The label that the orthogonal extension with the low seven bits `k` attaches.
pub open spec fn orthogonal_label(k: u8) -> Option<ValueLabel> {
    if 0x00 <= k <= 0x0F {
        Some(ValueLabel::ReservedForObjectActions)
    } else if 0x10 <= k <= 0x11 || 0x44 <= k <= 0x45 || 0x4C <= k <= 0x4D || k == 0x7C {
        Some(ValueLabel::Reserved)
    } else if k == 0x12 {
        Some(ValueLabel::Averaged)
    } else if k == 0x13 {
        Some(ValueLabel::InverseCompactProfile)
    } else if k == 0x14 {
        Some(ValueLabel::RelativeDeviation)
    } else if 0x15 <= k <= 0x1C {
        Some(ValueLabel::RecordErrorCodes)
    } else if k == 0x1D {
        Some(ValueLabel::StandardConformDataContent)
    } else if k == 0x1E {
        Some(ValueLabel::CompactProfileWithRegisterNumbers)
    } else if k == 0x1F {
        Some(ValueLabel::CompactProfile)
    } else if k == 0x39 {
        Some(ValueLabel::StartDateOf)
    } else if k == 0x3A {
        Some(ValueLabel::UncorrectedValue)
    } else if k == 0x3B {
        Some(ValueLabel::AccumulationOnlyIfPositive)
    } else if k == 0x3C {
        Some(ValueLabel::AccumulationOnlyIfNegative)
    } else if k == 0x3D {
        Some(ValueLabel::NonMetricUnits)
    } else if k == 0x3E {
        Some(ValueLabel::ValueAtBaseConditions)
    } else if k == 0x3F {
        Some(ValueLabel::ObisDeclaration)
    } else if k == 0x40 {
        Some(ValueLabel::LowerLimitValue)
    } else if k == 0x48 {
        Some(ValueLabel::UpperLimitValue)
    } else if k == 0x41 {
        Some(ValueLabel::NumberOfExceedsOfLowerLimit)
    } else if k == 0x49 {
        Some(ValueLabel::NumberOfExceedsOfUpperLimit)
    } else if k == 0x42 {
        Some(ValueLabel::DateOfBeginFirstLowerLimitExceed)
    } else if k == 0x43 {
        Some(ValueLabel::DateOfEndFirstLowerLimitExceed)
    } else if k == 0x46 {
        Some(ValueLabel::DateOfBeginLastLowerLimitExceed)
    } else if k == 0x47 {
        Some(ValueLabel::DateOfEndLastLowerLimitExceed)
    } else if k == 0x4A {
        Some(ValueLabel::DateOfBeginFirstUpperLimitExceed)
    } else if k == 0x4B {
        Some(ValueLabel::DateOfEndFirstUpperLimitExceed)
    } else if k == 0x4E {
        Some(ValueLabel::DateOfBeginLastUpperLimitExceed)
    } else if k == 0x4F {
        Some(ValueLabel::DateOfEndLastUpperLimitExceed)
    } else if 0x50 <= k <= 0x53 {
        Some(ValueLabel::DurationOfFirstLowerLimitExceed)
    } else if 0x54 <= k <= 0x57 {
        Some(ValueLabel::DurationOfLastLowerLimitExceed)
    } else if 0x58 <= k <= 0x5B {
        Some(ValueLabel::DurationOfFirstUpperLimitExceed)
    } else if 0x5C <= k <= 0x5F {
        Some(ValueLabel::DurationOfLastUpperLimitExceed)
    } else if 0x60 <= k <= 0x63 {
        Some(ValueLabel::DurationOfFirst)
    } else if 0x64 <= k <= 0x67 {
        Some(ValueLabel::DurationOfLast)
    } else if k == 0x68 {
        Some(ValueLabel::ValueDuringLowerLimitExceed)
    } else if k == 0x6C {
        Some(ValueLabel::ValueDuringUpperLimitExceed)
    } else if k == 0x69 {
        Some(ValueLabel::LeakageValues)
    } else if k == 0x6D {
        Some(ValueLabel::OverflowValues)
    } else if k == 0x6A {
        Some(ValueLabel::DateOfBeginFirst)
    } else if k == 0x6B {
        Some(ValueLabel::DateOfEndFirst)
    } else if k == 0x6E {
        Some(ValueLabel::DateOfBeginLast)
    } else if k == 0x6F {
        Some(ValueLabel::DateOfEndLast)
    } else if k == 0x7D {
        Some(ValueLabel::MultiplicativeCorrectionFactor103)
    } else if k == 0x7E {
        Some(ValueLabel::FutureValue)
    } else if k == 0x7F {
        Some(ValueLabel::ManufacturerSpecific)
    } else {
        None
    }
}

/// Looks `k` up in [`orthogonal_label`].
pub fn find_orthogonal_label(k: u8) -> (r: Option<ValueLabel>)
    ensures
        r == orthogonal_label(k),
{
    match k {
        0x00..=0x0F => Some(ValueLabel::ReservedForObjectActions),
        0x10..=0x11 | 0x44..=0x45 | 0x4C..=0x4D | 0x7C => Some(ValueLabel::Reserved),
        0x12 => Some(ValueLabel::Averaged),
        0x13 => Some(ValueLabel::InverseCompactProfile),
        0x14 => Some(ValueLabel::RelativeDeviation),
        0x15..=0x1C => Some(ValueLabel::RecordErrorCodes),
        0x1D => Some(ValueLabel::StandardConformDataContent),
        0x1E => Some(ValueLabel::CompactProfileWithRegisterNumbers),
        0x1F => Some(ValueLabel::CompactProfile),
        0x39 => Some(ValueLabel::StartDateOf),
        0x3A => Some(ValueLabel::UncorrectedValue),
        0x3B => Some(ValueLabel::AccumulationOnlyIfPositive),
        0x3C => Some(ValueLabel::AccumulationOnlyIfNegative),
        0x3D => Some(ValueLabel::NonMetricUnits),
        0x3E => Some(ValueLabel::ValueAtBaseConditions),
        0x3F => Some(ValueLabel::ObisDeclaration),
        0x40 => Some(ValueLabel::LowerLimitValue),
        0x48 => Some(ValueLabel::UpperLimitValue),
        0x41 => Some(ValueLabel::NumberOfExceedsOfLowerLimit),
        0x49 => Some(ValueLabel::NumberOfExceedsOfUpperLimit),
        0x42 => Some(ValueLabel::DateOfBeginFirstLowerLimitExceed),
        0x43 => Some(ValueLabel::DateOfEndFirstLowerLimitExceed),
        0x46 => Some(ValueLabel::DateOfBeginLastLowerLimitExceed),
        0x47 => Some(ValueLabel::DateOfEndLastLowerLimitExceed),
        0x4A => Some(ValueLabel::DateOfBeginFirstUpperLimitExceed),
        0x4B => Some(ValueLabel::DateOfEndFirstUpperLimitExceed),
        0x4E => Some(ValueLabel::DateOfBeginLastUpperLimitExceed),
        0x4F => Some(ValueLabel::DateOfEndLastUpperLimitExceed),
        0x50..=0x53 => Some(ValueLabel::DurationOfFirstLowerLimitExceed),
        0x54..=0x57 => Some(ValueLabel::DurationOfLastLowerLimitExceed),
        0x58..=0x5B => Some(ValueLabel::DurationOfFirstUpperLimitExceed),
        0x5C..=0x5F => Some(ValueLabel::DurationOfLastUpperLimitExceed),
        0x60..=0x63 => Some(ValueLabel::DurationOfFirst),
        0x64..=0x67 => Some(ValueLabel::DurationOfLast),
        0x68 => Some(ValueLabel::ValueDuringLowerLimitExceed),
        0x6C => Some(ValueLabel::ValueDuringUpperLimitExceed),
        0x69 => Some(ValueLabel::LeakageValues),
        0x6D => Some(ValueLabel::OverflowValues),
        0x6A => Some(ValueLabel::DateOfBeginFirst),
        0x6B => Some(ValueLabel::DateOfEndFirst),
        0x6E => Some(ValueLabel::DateOfBeginLast),
        0x6F => Some(ValueLabel::DateOfEndLast),
        0x7D => Some(ValueLabel::MultiplicativeCorrectionFactor103),
        0x7E => Some(ValueLabel::FutureValue),
        0x7F => Some(ValueLabel::ManufacturerSpecific),
        _ => None,
    }
}

/// The first unit factor that the orthogonal extension `k` appends.
pub open spec fn orthogonal_first_factor(k: u8) -> Option<UnitFactor> {
    if k == 0x20 {
        Some(UnitFactor { unit: Unit::Seconds, exponent: -1i32 })
    } else if k == 0x21 {
        Some(UnitFactor { unit: Unit::Minutes, exponent: -1i32 })
    } else if k == 0x22 {
        Some(UnitFactor { unit: Unit::Hours, exponent: -1i32 })
    } else if k == 0x23 {
        Some(UnitFactor { unit: Unit::Days, exponent: -1i32 })
    } else if k == 0x24 {
        Some(UnitFactor { unit: Unit::Weeks, exponent: -1i32 })
    } else if k == 0x25 {
        Some(UnitFactor { unit: Unit::Months, exponent: -1i32 })
    } else if k == 0x26 {
        Some(UnitFactor { unit: Unit::Years, exponent: -1i32 })
    } else if k == 0x27 {
        Some(UnitFactor { unit: Unit::Revolution, exponent: -1i32 })
    } else if 0x28 <= k <= 0x2B {
        Some(UnitFactor { unit: Unit::Increment, exponent: 1i32 })
    } else if k == 0x2C {
        Some(UnitFactor { unit: Unit::Liter, exponent: 1i32 })
    } else if k == 0x2D {
        Some(UnitFactor { unit: Unit::Meter, exponent: -3i32 })
    } else if k == 0x2E {
        Some(UnitFactor { unit: Unit::Kilogram, exponent: -1i32 })
    } else if k == 0x2F || k == 0x33 {
        Some(UnitFactor { unit: Unit::Kelvin, exponent: -1i32 })
    } else if k == 0x30 {
        Some(UnitFactor { unit: Unit::WattHour, exponent: -1i32 })
    } else if k == 0x31 {
        Some(UnitFactor { unit: Unit::Joul, exponent: -1i32 })
    } else if k == 0x32 {
        Some(UnitFactor { unit: Unit::Watt, exponent: -1i32 })
    } else if k == 0x34 {
        Some(UnitFactor { unit: Unit::Volt, exponent: -1i32 })
    } else if k == 0x35 {
        Some(UnitFactor { unit: Unit::Ampere, exponent: -1i32 })
    } else if 0x36 <= k <= 0x38 {
        Some(UnitFactor { unit: Unit::Seconds, exponent: 1i32 })
    } else if k == 0x50 || k == 0x54 || k == 0x58 || k == 0x5C || k == 0x60 || k == 0x64 {
        Some(UnitFactor { unit: Unit::Seconds, exponent: 1i32 })
    } else if k == 0x51 || k == 0x55 || k == 0x59 || k == 0x5D || k == 0x61 || k == 0x65 {
        Some(UnitFactor { unit: Unit::Minutes, exponent: 1i32 })
    } else if k == 0x52 || k == 0x56 || k == 0x5A || k == 0x5E || k == 0x62 || k == 0x66 {
        Some(UnitFactor { unit: Unit::Hours, exponent: 1i32 })
    } else if k == 0x53 || k == 0x57 || k == 0x5B || k == 0x5F || k == 0x63 || k == 0x67 {
        Some(UnitFactor { unit: Unit::Days, exponent: 1i32 })
    } else {
        None
    }
}

/// Looks `k` up in [`orthogonal_first_factor`].
pub fn find_orthogonal_first_factor(k: u8) -> (r: Option<UnitFactor>)
    ensures
        r == orthogonal_first_factor(k),
{
    match k {
        0x20 => Some(UnitFactor { unit: Unit::Seconds, exponent: -1 }),
        0x21 => Some(UnitFactor { unit: Unit::Minutes, exponent: -1 }),
        0x22 => Some(UnitFactor { unit: Unit::Hours, exponent: -1 }),
        0x23 => Some(UnitFactor { unit: Unit::Days, exponent: -1 }),
        0x24 => Some(UnitFactor { unit: Unit::Weeks, exponent: -1 }),
        0x25 => Some(UnitFactor { unit: Unit::Months, exponent: -1 }),
        0x26 => Some(UnitFactor { unit: Unit::Years, exponent: -1 }),
        0x27 => Some(UnitFactor { unit: Unit::Revolution, exponent: -1 }),
        0x28..=0x2B => Some(UnitFactor { unit: Unit::Increment, exponent: 1 }),
        0x2C => Some(UnitFactor { unit: Unit::Liter, exponent: 1 }),
        0x2D => Some(UnitFactor { unit: Unit::Meter, exponent: -3 }),
        0x2E => Some(UnitFactor { unit: Unit::Kilogram, exponent: -1 }),
        0x2F | 0x33 => Some(UnitFactor { unit: Unit::Kelvin, exponent: -1 }),
        0x30 => Some(UnitFactor { unit: Unit::WattHour, exponent: -1 }),
        0x31 => Some(UnitFactor { unit: Unit::Joul, exponent: -1 }),
        0x32 => Some(UnitFactor { unit: Unit::Watt, exponent: -1 }),
        0x34 => Some(UnitFactor { unit: Unit::Volt, exponent: -1 }),
        0x35 => Some(UnitFactor { unit: Unit::Ampere, exponent: -1 }),
        0x36..=0x38 => Some(UnitFactor { unit: Unit::Seconds, exponent: 1 }),
        0x50 | 0x54 | 0x58 | 0x5C | 0x60 | 0x64 => Some(UnitFactor { unit: Unit::Seconds, exponent: 1 }),
        0x51 | 0x55 | 0x59 | 0x5D | 0x61 | 0x65 => Some(UnitFactor { unit: Unit::Minutes, exponent: 1 }),
        0x52 | 0x56 | 0x5A | 0x5E | 0x62 | 0x66 => Some(UnitFactor { unit: Unit::Hours, exponent: 1 }),
        0x53 | 0x57 | 0x5B | 0x5F | 0x63 | 0x67 => Some(UnitFactor { unit: Unit::Days, exponent: 1 }),
        _ => None,
    }
}

/// The second unit factor that the orthogonal extension `k` appends.
pub open spec fn orthogonal_second_factor(k: u8) -> Option<UnitFactor> {
    if k == 0x28 {
        Some(UnitFactor { unit: Unit::InputPulseOnChannel0, exponent: -1i32 })
    } else if k == 0x29 {
        Some(UnitFactor { unit: Unit::OutputPulseOnChannel0, exponent: -1i32 })
    } else if k == 0x2A {
        Some(UnitFactor { unit: Unit::InputPulseOnChannel1, exponent: -1i32 })
    } else if k == 0x2B {
        Some(UnitFactor { unit: Unit::OutputPulseOnChannel1, exponent: -1i32 })
    } else if k == 0x33 {
        Some(UnitFactor { unit: Unit::Liter, exponent: -1i32 })
    } else if k == 0x37 {
        Some(UnitFactor { unit: Unit::Volt, exponent: -1i32 })
    } else if k == 0x38 {
        Some(UnitFactor { unit: Unit::Ampere, exponent: -1i32 })
    } else {
        None
    }
}

/// Looks `k` up in [`orthogonal_second_factor`].
pub fn find_orthogonal_second_factor(k: u8) -> (r: Option<UnitFactor>)
    ensures
        r == orthogonal_second_factor(k),
{
    match k {
        0x28 => Some(UnitFactor { unit: Unit::InputPulseOnChannel0, exponent: -1 }),
        0x29 => Some(UnitFactor { unit: Unit::OutputPulseOnChannel0, exponent: -1 }),
        0x2A => Some(UnitFactor { unit: Unit::InputPulseOnChannel1, exponent: -1 }),
        0x2B => Some(UnitFactor { unit: Unit::OutputPulseOnChannel1, exponent: -1 }),
        0x33 => Some(UnitFactor { unit: Unit::Liter, exponent: -1 }),
        0x37 => Some(UnitFactor { unit: Unit::Volt, exponent: -1 }),
        0x38 => Some(UnitFactor { unit: Unit::Ampere, exponent: -1 }),
        _ => None,
    }
}

/// What the orthogonal extension `k` adds to the decimal exponent of the value.
pub open spec fn orthogonal_scale(k: u8) -> Option<isize> {
    if k == 0x30 || k == 0x32 {
        Some(-3isize)
    } else if k == 0x31 {
        Some(-9isize)
    } else if 0x70 <= k <= 0x77 {
        Some((k % 8 - 6) as isize)
    } else {
        None
    }
}

/// Looks `k` up in [`orthogonal_scale`].
pub fn find_orthogonal_scale(k: u8) -> (r: Option<isize>)
    ensures
        r == orthogonal_scale(k),
{
    match k {
        0x30 | 0x32 => Some(-3),
        0x31 => Some(-9),
        0x70..=0x77 => Some((k % 8) as isize - 6),
        _ => None,
    }
}

/// What the orthogonal extension `k` adds to the decimal exponent of the additive
/// correction.
pub open spec fn orthogonal_offset(k: u8) -> Option<isize> {
    if 0x78 <= k <= 0x7B {
        Some((k % 4 - 3) as isize)
    } else {
        None
    }
}

/// Looks `k` up in [`orthogonal_offset`].
pub fn find_orthogonal_offset(k: u8) -> (r: Option<isize>)
    ensures
        r == orthogonal_offset(k),
{
    match k {
        0x78..=0x7B => Some((k % 4) as isize - 3),
        _ => None,
    }
}

/// What a block says of its value: the unit as a product of factors, the
/// decimal exponents of the scale and of the additive correction, and the
/// labels.
pub struct Effective {
    pub units: Seq<UnitFactor>,
    pub exponent: Exponent,
    pub offset_exponent: Exponent,
    pub labels: Set<ValueLabel>,
}

/// An exponent to which a correction is added. An exponent that was not
/// defined counts as zero once a correction applies to it.
pub open spec fn corrected(exponent: Exponent, by: Option<isize>) -> Exponent {
    match by {
        Some(delta) => Exponent {
            inner: Some(
                (match exponent.inner {
                    Some(e) => e,
                    None => 0,
                } + delta) as isize,
            ),
        },
        None => exponent,
    }
}

/// `units` with `factor` appended, if there is one.
pub open spec fn appended(units: Seq<UnitFactor>, factor: Option<UnitFactor>) -> Seq<UnitFactor> {
    match factor {
        Some(f) => units.push(f),
        None => units,
    }
}

/// `labels` with `label` added, if there is one.
pub open spec fn labelled(labels: Set<ValueLabel>, label: Option<ValueLabel>) -> Set<ValueLabel> {
    match label {
        Some(l) => labels.insert(l),
        None => labels,
    }
}

/// What a block says once the orthogonal extension with the low seven bits `k`
/// is applied to what it said before.
pub open spec fn apply_extension(before: Effective, k: u8) -> Effective {
    Effective {
        units: appended(
            appended(before.units, orthogonal_first_factor(k)),
            orthogonal_second_factor(k),
        ),
        exponent: corrected(before.exponent, orthogonal_scale(k)),
        offset_exponent: corrected(before.offset_exponent, orthogonal_offset(k)),
        labels: labelled(before.labels, orthogonal_label(k)),
    }
}

/// The code of the extension behind which the block belongs to the
/// manufacturer.
pub const VIFE_MANUFACTURER_SPECIFIC: u8 = 0x7F;

/// What a block says once the extensions `vife[from..]` are applied in wire
/// order. Behind an extension `0x7F` the rest is for the manufacturer to
/// define and says nothing here.
pub open spec fn apply_extensions(before: Effective, vife: Seq<u8>, from: int) -> Effective
    decreases vife.len() - from,
{
    if 0 <= from < vife.len() {
        let k = low7(vife[from]);
        let after = apply_extension(before, k);
        if k == VIFE_MANUFACTURER_SPECIFIC {
            after
        } else {
            apply_extensions(after, vife, from + 1)
        }
    } else {
        before
    }
}

/// Applying extensions never takes a label away.
pub proof fn lemma_labels_only_grow(before: Effective, vife: Seq<u8>, from: int, label: ValueLabel)
    requires
        before.labels.contains(label),
    ensures
        apply_extensions(before, vife, from).labels.contains(label),
    decreases vife.len() - from,
{
    if 0 <= from < vife.len() {
        let k = low7(vife[from]);
        if k != VIFE_MANUFACTURER_SPECIFIC {
            lemma_labels_only_grow(apply_extension(before, k), vife, from + 1, label);
        }
    }
}

/// Whether the exponent lies within `reach` of what a value information can
/// give by itself.
pub open spec fn exponent_within(exponent: Exponent, reach: int) -> bool {
    exponent.inner matches Some(e) ==> -12 - 9 * reach <= e <= 257 + reach
}

/// Adds `delta`, if there is one, to `exponent`.
pub(crate) fn correct(exponent: Exponent, by: Option<isize>) -> (r: Exponent)
    requires
        exponent.inner matches Some(e) ==> -100_000 <= e <= 100_000,
        by matches Some(delta) ==> -9 <= delta <= 1,
    ensures
        r == corrected(exponent, by),
        r.inner matches Some(e) ==> match exponent.inner {
            Some(e0) => e0 - 9 <= e <= e0 + 1,
            None => -9 <= e <= 1,
        },
        r.inner is None ==> exponent.inner is None,
{
    match by {
        Some(delta) => {
            let base: isize = match exponent.inner {
                Some(e) => e,
                None => 0,
            };
            Exponent { inner: Some(base + delta) }
        },
        None => exponent,
    }
}

/// Applies the extensions `vife[from..]`. The unit vector holds ten factors;
/// where the extensions append more, the result says so and the vector is not
/// what the block says.
pub(crate) fn apply_chain(
    vife: &[u8],
    from: usize,
    units: &mut UnitVector,
    exponent: &mut Exponent,
    offset_exponent: &mut Exponent,
    labels: &mut LabelSet,
) -> (fits: bool)
    requires
        from <= vife@.len() <= MAX_VIFE_RECORDS,
        exponent_within(*old(exponent), 0),
        old(offset_exponent).inner is None,
    ensures
        ({
            let said = apply_extensions(
                Effective {
                    units: old(units)@,
                    exponent: *old(exponent),
                    offset_exponent: *old(offset_exponent),
                    labels: old(labels)@,
                },
                vife@,
                from as int,
            );
            &&& *final(exponent) == said.exponent
            &&& *final(offset_exponent) == said.offset_exponent
            &&& final(labels)@ == said.labels
            &&& fits == (said.units.len() <= MAX_UNIT_FACTORS)
            &&& fits ==> final(units)@ == said.units
        }),
{
    let len: usize = vife.len();
    let held: usize = units.len();
    let ghost start = Effective {
        units: units@,
        exponent: *exponent,
        offset_exponent: *offset_exponent,
        labels: labels@,
    };
    let ghost mut said = start;
    let mut fits: bool = true;
    let mut i: usize = from;
    while i < len
        invariant
            from <= i <= len == vife@.len() <= MAX_VIFE_RECORDS,
            start == (Effective {
                units: old(units)@,
                exponent: *old(exponent),
                offset_exponent: *old(offset_exponent),
                labels: old(labels)@,
            }),
            exponent_within(*exponent, i as int),
            exponent_within(*offset_exponent, i as int),
            said.exponent == *exponent,
            said.offset_exponent == *offset_exponent,
            said.labels == labels@,
            fits ==> said.units == units@,
            !fits ==> said.units.len() > MAX_UNIT_FACTORS,
            units@.len() <= MAX_UNIT_FACTORS,
            apply_extensions(start, vife@, from as int) == apply_extensions(said, vife@, i as int),
        decreases len - i,
    {
        let k: u8 = without_extension(vife[i]);
        let ghost after = apply_extension(said, k);
        proof {
            assert(apply_extensions(said, vife@, i as int) == if k == VIFE_MANUFACTURER_SPECIFIC {
                after
            } else {
                apply_extensions(after, vife@, i + 1)
            });
        }
        match find_orthogonal_first_factor(k) {
            Some(factor) => {
                if !units.push(factor) {
                    fits = false;
                }
            },
            None => {},
        }
        match find_orthogonal_second_factor(k) {
            Some(factor) => {
                if !units.push(factor) {
                    fits = false;
                }
            },
            None => {},
        }
        *exponent = correct(*exponent, find_orthogonal_scale(k));
        *offset_exponent = correct(*offset_exponent, find_orthogonal_offset(k));
        match find_orthogonal_label(k) {
            Some(label) => {
                labels.insert(label);
            },
            None => {},
        }
        proof {
            said = after;
        }
        if k == VIFE_MANUFACTURER_SPECIFIC {
            return fits;
        }
        i = i + 1;
    }
    fits
}

} // verus!
