//! Semantic labels of a value, and the set of labels that a record carries.
use vstd::prelude::*;

verus! {

/// What a value information block says about a value beyond its unit.
#[derive(Debug, Clone, Copy, PartialEq, Eq, Structural)]
pub enum ValueLabel {
    /// The unit is given as text in the record itself.
    PlainTextUnit,
    /// The value is a date.
    Date,
    /// The value is a date and a time.
    DateTime,
    /// The value is the time since the data was current.
    ActualityDuration,
    /// The value is a fabrication number.
    FabricationNumber,
    /// An extension reserved for object actions.
    ReservedForObjectActions,
    /// An extension without a meaning in the norm.
    Reserved,
    /// The value is an average.
    Averaged,
    /// The values form an inverse compact profile.
    InverseCompactProfile,
    /// The value is a relative deviation.
    RelativeDeviation,
    /// The extension carries an error code of the record.
    RecordErrorCodes,
    /// The data content conforms to the norm.
    StandardConformDataContent,
    /// The values form a compact profile with register numbers.
    CompactProfileWithRegisterNumbers,
    /// The values form a compact profile.
    CompactProfile,
    /// The value is the start date or time of what the VIF names.
    StartDateOf,
    /// The VIF holds an uncorrected unit or value.
    UncorrectedValue,
    /// Accumulated only while the contribution is positive.
    AccumulationOnlyIfPositive,
    /// Accumulated only while the contribution is negative.
    AccumulationOnlyIfNegative,
    /// The unit is the non-metric alternative.
    NonMetricUnits,
    /// The value is given at base conditions.
    ValueAtBaseConditions,
    /// The extension declares an OBIS code.
    ObisDeclaration,
    /// The value is a lower limit.
    LowerLimitValue,
    /// The value is an upper limit.
    UpperLimitValue,
    /// How often the lower limit was exceeded.
    NumberOfExceedsOfLowerLimit,
    /// How often the upper limit was exceeded.
    NumberOfExceedsOfUpperLimit,
    /// When the first exceedance of the lower limit began.
    DateOfBeginFirstLowerLimitExceed,
    /// When the first exceedance of the lower limit ended.
    DateOfEndFirstLowerLimitExceed,
    /// When the last exceedance of the lower limit began.
    DateOfBeginLastLowerLimitExceed,
    /// When the last exceedance of the lower limit ended.
    DateOfEndLastLowerLimitExceed,
    /// When the first exceedance of the upper limit began.
    DateOfBeginFirstUpperLimitExceed,
    /// When the first exceedance of the upper limit ended.
    DateOfEndFirstUpperLimitExceed,
    /// When the last exceedance of the upper limit began.
    DateOfBeginLastUpperLimitExceed,
    /// When the last exceedance of the upper limit ended.
    DateOfEndLastUpperLimitExceed,
    /// How long the first exceedance of the lower limit lasted.
    DurationOfFirstLowerLimitExceed,
    /// How long the last exceedance of the lower limit lasted.
    DurationOfLastLowerLimitExceed,
    /// How long the first exceedance of the upper limit lasted.
    DurationOfFirstUpperLimitExceed,
    /// How long the last exceedance of the upper limit lasted.
    DurationOfLastUpperLimitExceed,
    /// How long the first occurrence lasted.
    DurationOfFirst,
    /// How long the last occurrence lasted.
    DurationOfLast,
    /// The value while the lower limit was exceeded.
    ValueDuringLowerLimitExceed,
    /// The value while the upper limit was exceeded.
    ValueDuringUpperLimitExceed,
    /// The value is a leakage value.
    LeakageValues,
    /// The value is an overflow value.
    OverflowValues,
    /// When the first occurrence began.
    DateOfBeginFirst,
    /// When the first occurrence ended.
    DateOfEndFirst,
    /// When the last occurrence began.
    DateOfBeginLast,
    /// When the last occurrence ended.
    DateOfEndLast,
    /// The value is to be multiplied by a thousand.
    MultiplicativeCorrectionFactor103,
    /// The value lies in the future.
    FutureValue,
    /// What follows in the block is for the manufacturer to define.
    ManufacturerSpecific,
}

/// Number of slots of a [`LabelSet`]; every label has a slot of its own.
pub const LABEL_SLOTS: usize = 50;

impl ValueLabel {
    /// The slot of a label in a [`LabelSet`].
    pub open spec fn slot(self) -> int {
        match self {
            ValueLabel::PlainTextUnit => 0,
            ValueLabel::Date => 1,
            ValueLabel::DateTime => 2,
            ValueLabel::ActualityDuration => 3,
            ValueLabel::FabricationNumber => 4,
            ValueLabel::ReservedForObjectActions => 5,
            ValueLabel::Reserved => 6,
            ValueLabel::Averaged => 7,
            ValueLabel::InverseCompactProfile => 8,
            ValueLabel::RelativeDeviation => 9,
            ValueLabel::RecordErrorCodes => 10,
            ValueLabel::StandardConformDataContent => 11,
            ValueLabel::CompactProfileWithRegisterNumbers => 12,
            ValueLabel::CompactProfile => 13,
            ValueLabel::StartDateOf => 14,
            ValueLabel::UncorrectedValue => 15,
            ValueLabel::AccumulationOnlyIfPositive => 16,
            ValueLabel::AccumulationOnlyIfNegative => 17,
            ValueLabel::NonMetricUnits => 18,
            ValueLabel::ValueAtBaseConditions => 19,
            ValueLabel::ObisDeclaration => 20,
            ValueLabel::LowerLimitValue => 21,
            ValueLabel::UpperLimitValue => 22,
            ValueLabel::NumberOfExceedsOfLowerLimit => 23,
            ValueLabel::NumberOfExceedsOfUpperLimit => 24,
            ValueLabel::DateOfBeginFirstLowerLimitExceed => 25,
            ValueLabel::DateOfEndFirstLowerLimitExceed => 26,
            ValueLabel::DateOfBeginLastLowerLimitExceed => 27,
            ValueLabel::DateOfEndLastLowerLimitExceed => 28,
            ValueLabel::DateOfBeginFirstUpperLimitExceed => 29,
            ValueLabel::DateOfEndFirstUpperLimitExceed => 30,
            ValueLabel::DateOfBeginLastUpperLimitExceed => 31,
            ValueLabel::DateOfEndLastUpperLimitExceed => 32,
            ValueLabel::DurationOfFirstLowerLimitExceed => 33,
            ValueLabel::DurationOfLastLowerLimitExceed => 34,
            ValueLabel::DurationOfFirstUpperLimitExceed => 35,
            ValueLabel::DurationOfLastUpperLimitExceed => 36,
            ValueLabel::DurationOfFirst => 37,
            ValueLabel::DurationOfLast => 38,
            ValueLabel::ValueDuringLowerLimitExceed => 39,
            ValueLabel::ValueDuringUpperLimitExceed => 40,
            ValueLabel::LeakageValues => 41,
            ValueLabel::OverflowValues => 42,
            ValueLabel::DateOfBeginFirst => 43,
            ValueLabel::DateOfEndFirst => 44,
            ValueLabel::DateOfBeginLast => 45,
            ValueLabel::DateOfEndLast => 46,
            ValueLabel::MultiplicativeCorrectionFactor103 => 47,
            ValueLabel::FutureValue => 48,
            ValueLabel::ManufacturerSpecific => 49,
        }
    }

    /// Computes the slot of a label.
    pub fn slot_index(self) -> (i: usize)
        ensures
            i == self.slot(),
            i < LABEL_SLOTS,
    {
        match self {
            ValueLabel::PlainTextUnit => 0,
            ValueLabel::Date => 1,
            ValueLabel::DateTime => 2,
            ValueLabel::ActualityDuration => 3,
            ValueLabel::FabricationNumber => 4,
            ValueLabel::ReservedForObjectActions => 5,
            ValueLabel::Reserved => 6,
            ValueLabel::Averaged => 7,
            ValueLabel::InverseCompactProfile => 8,
            ValueLabel::RelativeDeviation => 9,
            ValueLabel::RecordErrorCodes => 10,
            ValueLabel::StandardConformDataContent => 11,
            ValueLabel::CompactProfileWithRegisterNumbers => 12,
            ValueLabel::CompactProfile => 13,
            ValueLabel::StartDateOf => 14,
            ValueLabel::UncorrectedValue => 15,
            ValueLabel::AccumulationOnlyIfPositive => 16,
            ValueLabel::AccumulationOnlyIfNegative => 17,
            ValueLabel::NonMetricUnits => 18,
            ValueLabel::ValueAtBaseConditions => 19,
            ValueLabel::ObisDeclaration => 20,
            ValueLabel::LowerLimitValue => 21,
            ValueLabel::UpperLimitValue => 22,
            ValueLabel::NumberOfExceedsOfLowerLimit => 23,
            ValueLabel::NumberOfExceedsOfUpperLimit => 24,
            ValueLabel::DateOfBeginFirstLowerLimitExceed => 25,
            ValueLabel::DateOfEndFirstLowerLimitExceed => 26,
            ValueLabel::DateOfBeginLastLowerLimitExceed => 27,
            ValueLabel::DateOfEndLastLowerLimitExceed => 28,
            ValueLabel::DateOfBeginFirstUpperLimitExceed => 29,
            ValueLabel::DateOfEndFirstUpperLimitExceed => 30,
            ValueLabel::DateOfBeginLastUpperLimitExceed => 31,
            ValueLabel::DateOfEndLastUpperLimitExceed => 32,
            ValueLabel::DurationOfFirstLowerLimitExceed => 33,
            ValueLabel::DurationOfLastLowerLimitExceed => 34,
            ValueLabel::DurationOfFirstUpperLimitExceed => 35,
            ValueLabel::DurationOfLastUpperLimitExceed => 36,
            ValueLabel::DurationOfFirst => 37,
            ValueLabel::DurationOfLast => 38,
            ValueLabel::ValueDuringLowerLimitExceed => 39,
            ValueLabel::ValueDuringUpperLimitExceed => 40,
            ValueLabel::LeakageValues => 41,
            ValueLabel::OverflowValues => 42,
            ValueLabel::DateOfBeginFirst => 43,
            ValueLabel::DateOfEndFirst => 44,
            ValueLabel::DateOfBeginLast => 45,
            ValueLabel::DateOfEndLast => 46,
            ValueLabel::MultiplicativeCorrectionFactor103 => 47,
            ValueLabel::FutureValue => 48,
            ValueLabel::ManufacturerSpecific => 49,
        }
    }

    /// Two labels that share a slot are the same label.
    pub proof fn lemma_slot_injective(a: ValueLabel, b: ValueLabel)
        requires
            a.slot() == b.slot(),
        ensures
            a == b,
    {
    }
}

/// A set of labels, held inline as one flag per label.
#[derive(Debug, Clone, Copy, PartialEq, Eq)]
pub struct LabelSet {
    present: [bool; 50],
}

impl View for LabelSet {
    type V = Set<ValueLabel>;

    closed spec fn view(&self) -> Set<ValueLabel> {
        Set::new(|l: ValueLabel| self.present@[l.slot()])
    }
}

impl LabelSet {
    /// The empty set.
    pub fn new() -> (r: LabelSet)
        ensures
            r@ == Set::<ValueLabel>::empty(),
    {
        let r = LabelSet { present: [false; 50] };
        assert(r@ =~= Set::<ValueLabel>::empty());
        r
    }

    /// Adds `label` to the set.
    pub fn insert(&mut self, label: ValueLabel)
        ensures
            final(self)@ == old(self)@.insert(label),
    {
        let i = label.slot_index();
        self.present[i] = true;
        assert forall|l: ValueLabel| final(self)@.contains(l) == old(self)@.insert(label).contains(
            l,
        ) by {
            if l.slot() == label.slot() {
                ValueLabel::lemma_slot_injective(l, label);
            }
        }
        assert(final(self)@ =~= old(self)@.insert(label));
    }

    /// Whether `label` is in the set.
    pub fn contains(&self, label: ValueLabel) -> (r: bool)
        ensures
            r == self@.contains(label),
    {
        let i = label.slot_index();
        self.present[i]
    }
}

} // verus!
