//! The value information block: what a value measures, in which unit and at
//! which decimal scale.
//!
//! A block is one VIF byte and up to ten extension bytes (VIFE). The VIF names
//! the unit from the primary table, from one of two extended tables, as plain
//! text, or leaves it to the manufacturer. The extensions that follow modify
//! what the VIF said: they append unit factors, correct the decimal scale and
//! attach labels.
use crate::bits::{
    extension_flag, has_extension, lemma_masks_are_remainders, low7, without_extension,
};
use crate::extension::{
    chain_len, chain_len_after, lemma_chain_agrees, lemma_flagged_extensions_too_long,
    lemma_same_start_same_parts, read_chain_of, same_start, ChainError,
};
use crate::inline_bytes::{byte_count, bytes_as_slice, bytes_of, new_bytes, push_byte};
use crate::user_data::orthogonal::{
    apply_chain, apply_extensions, exponent_within, labelled, lemma_labels_only_grow, Effective,
};
use crate::user_data::unit_vector::{UnitFactor, UnitVector, MAX_UNIT_FACTORS};
use crate::user_data::value_label::{LabelSet, ValueLabel};
use crate::user_data::variable_user_data::{
    base_exponent, base_exponent_of, exponent_of, lemma_quantity_where_unit, primary_quantity,
    primary_scale, quantity_of, Exponent, Quantity,
};
use arrayvec::ArrayVec;
use vstd::prelude::*;

verus! {

/// Most characters that a plain-text unit can have.
pub const MAX_PLAIN_TEXT_VIF_SIZE: usize = 10;

/// Most extension bytes that can follow a VIF.
pub const MAX_VIFE_RECORDS: usize = 10;

/// Why a value information block could not be decoded.
#[derive(Debug, Clone, Copy, PartialEq, Eq, Structural)]
pub enum ValueInformationError {
    /// The bytes end inside the block, a plain-text unit is longer than ten
    /// characters, the VIF is `0x7D`, or the unit has more than ten factors.
    InvalidValueInformation,
    /// The tenth extension byte announces an eleventh.
    VifeChainTooLong,
    /// The VIF or the entry of the extended table has no unit assigned.
    UnsupportedVif,
}

/// Where the name of a plain-text unit stands in the block.
#[derive(Debug, Clone, Copy, PartialEq, Eq, Structural)]
pub enum PlainTextLayout {
    /// `VIF LEN ASCII.. VIFE..`: the name directly behind the VIF, the
    /// extensions behind the name. Not what the norm says, but what most
    /// meters send.
    Common,
    /// `VIF VIFE.. LEN ASCII..`: the extensions directly behind the VIF, the
    /// name behind the last extension, as the norm has it.
    NormConform,
}

/// A value information block as it stands on the wire: what the VIF says, and
/// the extension bytes that modify it, in wire order.
#[derive(Debug, PartialEq)]
pub enum ValueInformation {
    /// A VIF of the primary table, the byte kept as it was sent, and its
    /// extensions.
    Primary(u8, ArrayVec<u8, 10>),
    /// The unit is given as text: the name, the extensions, and where the name
    /// stood. The name reads forwards: the wire sends its last character
    /// first.
    PlainText(ArrayVec<u8, 10>, ArrayVec<u8, 10>, PlainTextLayout),
    /// The VIF is taken from one of the two extended tables: the entry, and
    /// the extensions behind the byte that selected it.
    Extended(VIFExtension, ArrayVec<u8, 10>),
    /// Any VIF, used to select records for readout, and its extensions.
    Any(ArrayVec<u8, 10>),
    /// The manufacturer defines the meaning, also that of the extensions.
    ManufacturerSpecific(ArrayVec<u8, 10>),
}

/// A [`ValueInformation`] with the name and the extensions as sequences.
pub enum ValueInformationView {
    Primary(u8, Seq<u8>),
    PlainText(Seq<u8>, Seq<u8>, PlainTextLayout),
    Extended(VIFExtension, Seq<u8>),
    Any(Seq<u8>),
    ManufacturerSpecific(Seq<u8>),
}

impl View for ValueInformation {
    type V = ValueInformationView;

    open spec fn view(&self) -> ValueInformationView {
        match self {
            ValueInformation::Primary(x, vife) => ValueInformationView::Primary(
                *x,
                bytes_of(*vife),
            ),
            ValueInformation::PlainText(name, vife, layout) => ValueInformationView::PlainText(
                bytes_of(*name),
                bytes_of(*vife),
                *layout,
            ),
            ValueInformation::Extended(e, vife) => ValueInformationView::Extended(
                *e,
                bytes_of(*vife),
            ),
            ValueInformation::Any(vife) => ValueInformationView::Any(bytes_of(*vife)),
            ValueInformation::ManufacturerSpecific(
                vife,
            ) => ValueInformationView::ManufacturerSpecific(bytes_of(*vife)),
        }
    }
}

impl ValueInformationView {
    /// The extension bytes in wire order. Behind an extended VIF the byte that
    /// selects the table entry is not among them.
    pub open spec fn extensions(self) -> Seq<u8> {
        match self {
            ValueInformationView::Primary(_, vife) => vife,
            ValueInformationView::PlainText(_, vife, _) => vife,
            ValueInformationView::Extended(_, vife) => vife,
            ValueInformationView::Any(vife) => vife,
            ValueInformationView::ManufacturerSpecific(vife) => vife,
        }
    }

    /// The number of bytes that the block takes on the wire: the VIF and every
    /// extension byte; for an extended VIF also the byte that selects the
    /// table entry; for a plain-text unit also the length byte and the name.
    pub open spec fn size(self) -> nat {
        self.extensions().len() + match self {
            ValueInformationView::PlainText(name, _, _) => name.len() + 2,
            ValueInformationView::Extended(_, _) => 2,
            _ => 1,
        }
    }
}

/// What a value information says of its value once its extensions are
/// applied.
pub(crate) struct Resolved {
    pub units: UnitVector,
    pub fits: bool,
    pub exponent: Exponent,
    pub offset_exponent: Exponent,
    pub labels: LabelSet,
}

impl ValueInformation {
    /// The number of bytes that the block takes on the wire, see
    /// [`ValueInformationView::size`].
    pub fn get_size(&self) -> (size: usize)
        ensures
            size == self@.size(),
            1 <= size <= 1 + MAX_VIFE_RECORDS + 1 + MAX_PLAIN_TEXT_VIF_SIZE,
    {
        match self {
            ValueInformation::Primary(_, vife) => 1 + byte_count(vife),
            ValueInformation::PlainText(name, vife, _) => byte_count(name) + 2 + byte_count(vife),
            ValueInformation::Extended(_, vife) => 2 + byte_count(vife),
            ValueInformation::Any(vife) => 1 + byte_count(vife),
            ValueInformation::ManufacturerSpecific(vife) => 1 + byte_count(vife),
        }
    }

    /// The extension bytes in wire order.
    pub fn extensions(&self) -> (vife: &ArrayVec<u8, 10>)
        ensures
            bytes_of(*vife) == self@.extensions(),
    {
        match self {
            ValueInformation::Primary(_, vife) => vife,
            ValueInformation::PlainText(_, vife, _) => vife,
            ValueInformation::Extended(_, vife) => vife,
            ValueInformation::Any(vife) => vife,
            ValueInformation::ManufacturerSpecific(vife) => vife,
        }
    }

    /// Applies the extensions to what the VIF says.
    pub(crate) fn resolve(&self) -> (r: Resolved)
        ensures
            r.exponent == said_by(self@).exponent,
            r.offset_exponent == said_by(self@).offset_exponent,
            r.labels@ == said_by(self@).labels,
            r.fits == (said_by(self@).units.len() <= MAX_UNIT_FACTORS),
            r.fits ==> r.units@ == said_by(self@).units,
    {
        proof {
            lemma_base_exponent_is_small(self@);
        }
        let mut units = match Unit::try_from(self) {
            Ok(unit) => factors_of(unit),
            Err(_) => UnitVector::new(),
        };
        let mut exponent = base_exponent(self);
        let mut offset_exponent = Exponent { inner: None };
        let mut labels = LabelSet::new();
        let vife = bytes_as_slice(self.extensions());
        let from: usize = match self {
            ValueInformation::Primary(x, _) => {
                match find_primary_label(without_extension(*x)) {
                    Some(label) => {
                        labels.insert(label);
                    },
                    None => {},
                }
                0
            },
            ValueInformation::PlainText(_, _, _) => {
                labels.insert(ValueLabel::PlainTextUnit);
                0
            },
            ValueInformation::ManufacturerSpecific(_) => {
                labels.insert(ValueLabel::ManufacturerSpecific);
                vife.len()
            },
            _ => 0,
        };
        assert(labels@ =~= own_labels(self@));
        let n: usize = byte_count(self.extensions());
        let fits = apply_chain(
            vife,
            from,
            &mut units,
            &mut exponent,
            &mut offset_exponent,
            &mut labels,
        );
        Resolved { units, fits, exponent, offset_exponent, labels }
    }

    /// The labels that the VIF and the extensions attach.
    pub fn labels(&self) -> (r: LabelSet)
        ensures
            r@ == said_by(self@).labels,
    {
        self.resolve().labels
    }

    /// The decimal exponent of the additive correction, if the extensions
    /// give one.
    pub fn offset_exponent(&self) -> (r: Exponent)
        ensures
            r == said_by(self@).offset_exponent,
    {
        self.resolve().offset_exponent
    }

    /// The unit as a product of factors: those of the VIF's unit, then those
    /// that the extensions append, in wire order. More than ten factors are
    /// refused.
    pub fn units(&self) -> (r: Result<UnitVector, ValueInformationError>)
        ensures
            match r {
                Ok(units) => units@ == said_by(self@).units,
                Err(e) => e == ValueInformationError::InvalidValueInformation && said_by(
                    self@,
                ).units.len() > MAX_UNIT_FACTORS,
            },
    {
        let r = self.resolve();
        if r.fits {
            Ok(r.units)
        } else {
            Err(ValueInformationError::InvalidValueInformation)
        }
    }
}

/// An entry of one of the two extended VIF tables. Where an entry covers
/// several codes, the low bits that tell them apart are kept.
#[derive(Debug, Clone, Copy, PartialEq, Eq, Structural)]
pub enum VIFExtension {
    CreditOfCurrencyUnits(u8),
    DebitOfCurrencyUnits(u8),
    AccessNumber,
    Medium,
    Manufacturer,
    ParameterSetIdentification,
    ModelVersion,
    HardwareVersion,
    FirmwareVersion,
    SoftwareVersion,
    CustomerLocation,
    Customer,
    AccessCodeUser,
    AccessCodeOperator,
    AccessCodeSystemOperator,
    AccessCodeDeveloper,
    Password,
    ErrorFlags,
    ErrorMask,
    Reserved,
    DigitalOutput,
    DigitalInput,
    BaudRate,
    ResponseDelayTime,
    Retry,
    FirstStorage,
    LastStorage,
    SizeOfStorageBlock,
    StorageIntervalSecondsToDays(u8),
    StorageIntervalMonths,
    StorageIntervalYears,
    DurationSinceLastReadout(u8),
    StartOfTariff,
    DurationOfTariff(u8),
    PeriodOfTariff(u8),
    PeriodOfTarrifMonths,
    PeriodOfTTariffYears,
    Dimensionless,
    Volts(u8),
    Ampere(u8),
    ResetCounter,
    CumulationCounter,
    ControlSignal,
    DayOfWeek,
    WeekNumber,
    TimePointOfDay,
    StateOfParameterActivation,
    SpecialSupervision,
    DurationSinceLastCumulation(u8),
    OperatingTimeBattery(u8),
    DateAndTimeOfBatteryChange,
    EnergyMWh(u8),
    EnergyGJ(u8),
    VolumeM3(u8),
    MassTons(u8),
    VolumeFeet3Tenth,
    VolumeAmericanGallonTenth,
    VolumeAmericanGallon,
    VolumeFlowAmericanGallonPerMinuteThousandth,
    VolumeFlowAmericanGallonPerMinute,
    VolumeFlowAmericanGallonPerHour,
    PowerMW(u8),
    PowerGJH(u8),
    FlowTemperature(u8),
    ReturnTemperature(u8),
    TemperatureDifference(u8),
    ExternalTemperature(u8),
    ColdWarmTemperatureLimitFarenheit(u8),
    ColdWarmTemperatureLimitCelsius(u8),
    CumulativeCountMaxPower(u8),
}

/// The name of a unit.
#[derive(Debug, Clone, Copy, PartialEq, Eq, Structural)]
pub enum Unit {
    HourMinuteSecond,
    DayMonthYear,
    WattHour,
    KiloWattHour,
    MegaWattHour,
    Joul,
    Kilogram,
    KiloJoul,
    MegaJoul,
    GigaJoul,
    Watt,
    KiloWatt,
    MegaWat,
    KiloJoulHour,
    MegaJoulHour,
    GigaJoulHour,
    MegaLiter,
    Liter,
    CubicMeter,
    MegaLiterHour,
    LiterHour,
    CubicMeterPerHour,
    CubicMeterPerMinute,
    CubicMeterPerSecond,
    KilogramPerHour,
    Celsius,
    Kelvin,
    Bar,
    HCA,
    Reserved,
    WithoutUnits,
    Seconds,
    Minutes,
    Hours,
    Days,
    JoulPerHour,
    ActualityDuration,
    TimePoint,
    FabricationNumber,
    MegaWatt,
    PlainText,
    Weeks,
    Months,
    Years,
    Revolution,
    Increment,
    InputPulseOnChannel0,
    OutputPulseOnChannel0,
    InputPulseOnChannel1,
    OutputPulseOnChannel1,
    Meter,
    Volt,
    Ampere,
    Tonne,
    CubicFeet,
    AmericanGallon,
    AmericanGallonPerMinute,
    AmericanGallonPerHour,
    Fahrenheit,
    CurrencyUnit,
}

/// The VIF that announces extended table A.
pub const VIF_EXTENDED_TABLE_A: u8 = 0xFB;

/// The VIF that announces extended table B.
pub const VIF_EXTENDED_TABLE_B: u8 = 0xFD;

/// Whether `vif` announces a unit in plain text (`0x7C` or `0xFC`).
pub open spec fn is_plain_text_vif(vif: u8) -> bool {
    low7(vif) == 0x7C
}

/// The entry of extended table B (VIF `0xFD`) that the code `k` selects, `k`
/// being the low seven bits of the byte behind the VIF.
pub open spec fn extension_table_b(k: u8) -> VIFExtension {
    if 0x00 <= k <= 0x03 {
        VIFExtension::CreditOfCurrencyUnits((k % 4) as u8)
    } else if 0x04 <= k <= 0x07 {
        VIFExtension::DebitOfCurrencyUnits((k % 4) as u8)
    } else if k == 0x08 {
        VIFExtension::AccessNumber
    } else if k == 0x09 {
        VIFExtension::Medium
    } else if k == 0x0A {
        VIFExtension::Manufacturer
    } else if k == 0x0B {
        VIFExtension::ParameterSetIdentification
    } else if k == 0x0C {
        VIFExtension::ModelVersion
    } else if k == 0x0D {
        VIFExtension::HardwareVersion
    } else if k == 0x0E {
        VIFExtension::FirmwareVersion
    } else if k == 0x0F {
        VIFExtension::SoftwareVersion
    } else if k == 0x10 {
        VIFExtension::CustomerLocation
    } else if k == 0x11 {
        VIFExtension::Customer
    } else if k == 0x12 {
        VIFExtension::AccessCodeUser
    } else if k == 0x13 {
        VIFExtension::AccessCodeOperator
    } else if k == 0x14 {
        VIFExtension::AccessCodeSystemOperator
    } else if k == 0x15 {
        VIFExtension::AccessCodeDeveloper
    } else if k == 0x16 {
        VIFExtension::Password
    } else if k == 0x17 {
        VIFExtension::ErrorFlags
    } else if k == 0x18 {
        VIFExtension::ErrorMask
    } else if k == 0x1A {
        VIFExtension::DigitalOutput
    } else if k == 0x1B {
        VIFExtension::DigitalInput
    } else if k == 0x1C {
        VIFExtension::BaudRate
    } else if k == 0x1D {
        VIFExtension::ResponseDelayTime
    } else if k == 0x1E {
        VIFExtension::Retry
    } else if k == 0x20 {
        VIFExtension::FirstStorage
    } else if k == 0x21 {
        VIFExtension::LastStorage
    } else if k == 0x22 {
        VIFExtension::SizeOfStorageBlock
    } else if 0x24 <= k <= 0x27 {
        VIFExtension::StorageIntervalSecondsToDays((k % 4) as u8)
    } else if k == 0x28 {
        VIFExtension::StorageIntervalMonths
    } else if k == 0x29 {
        VIFExtension::StorageIntervalYears
    } else if 0x2C <= k <= 0x2F {
        VIFExtension::DurationSinceLastReadout((k % 4) as u8)
    } else if k == 0x30 {
        VIFExtension::StartOfTariff
    } else if 0x31 <= k <= 0x33 {
        VIFExtension::DurationOfTariff((k % 4) as u8)
    } else if 0x34 <= k <= 0x37 {
        VIFExtension::PeriodOfTariff((k % 4) as u8)
    } else if k == 0x38 {
        VIFExtension::PeriodOfTarrifMonths
    } else if k == 0x39 {
        VIFExtension::PeriodOfTTariffYears
    } else if k == 0x3A {
        VIFExtension::Dimensionless
    } else if 0x40 <= k <= 0x4F {
        VIFExtension::Volts((k % 16) as u8)
    } else if 0x50 <= k <= 0x5F {
        VIFExtension::Ampere((k % 16) as u8)
    } else if k == 0x60 {
        VIFExtension::ResetCounter
    } else if k == 0x61 {
        VIFExtension::CumulationCounter
    } else if k == 0x62 {
        VIFExtension::ControlSignal
    } else if k == 0x63 {
        VIFExtension::DayOfWeek
    } else if k == 0x64 {
        VIFExtension::WeekNumber
    } else if k == 0x65 {
        VIFExtension::TimePointOfDay
    } else if k == 0x66 {
        VIFExtension::StateOfParameterActivation
    } else if k == 0x67 {
        VIFExtension::SpecialSupervision
    } else if 0x68 <= k <= 0x6B {
        VIFExtension::DurationSinceLastCumulation((k % 4) as u8)
    } else if 0x6C <= k <= 0x6F {
        VIFExtension::OperatingTimeBattery((k % 4) as u8)
    } else if k == 0x70 {
        VIFExtension::DateAndTimeOfBatteryChange
    } else {
        VIFExtension::Reserved
    }
}

/// Looks `k` up in extended table B.
pub fn find_in_table_b(k: u8) -> (r: VIFExtension)
    ensures
        r == extension_table_b(k),
{
    match k {
        0x00..=0x03 => VIFExtension::CreditOfCurrencyUnits(k % 4),
        0x04..=0x07 => VIFExtension::DebitOfCurrencyUnits(k % 4),
        0x08 => VIFExtension::AccessNumber,
        0x09 => VIFExtension::Medium,
        0x0A => VIFExtension::Manufacturer,
        0x0B => VIFExtension::ParameterSetIdentification,
        0x0C => VIFExtension::ModelVersion,
        0x0D => VIFExtension::HardwareVersion,
        0x0E => VIFExtension::FirmwareVersion,
        0x0F => VIFExtension::SoftwareVersion,
        0x10 => VIFExtension::CustomerLocation,
        0x11 => VIFExtension::Customer,
        0x12 => VIFExtension::AccessCodeUser,
        0x13 => VIFExtension::AccessCodeOperator,
        0x14 => VIFExtension::AccessCodeSystemOperator,
        0x15 => VIFExtension::AccessCodeDeveloper,
        0x16 => VIFExtension::Password,
        0x17 => VIFExtension::ErrorFlags,
        0x18 => VIFExtension::ErrorMask,
        0x1A => VIFExtension::DigitalOutput,
        0x1B => VIFExtension::DigitalInput,
        0x1C => VIFExtension::BaudRate,
        0x1D => VIFExtension::ResponseDelayTime,
        0x1E => VIFExtension::Retry,
        0x20 => VIFExtension::FirstStorage,
        0x21 => VIFExtension::LastStorage,
        0x22 => VIFExtension::SizeOfStorageBlock,
        0x24..=0x27 => VIFExtension::StorageIntervalSecondsToDays(k % 4),
        0x28 => VIFExtension::StorageIntervalMonths,
        0x29 => VIFExtension::StorageIntervalYears,
        0x2C..=0x2F => VIFExtension::DurationSinceLastReadout(k % 4),
        0x30 => VIFExtension::StartOfTariff,
        0x31..=0x33 => VIFExtension::DurationOfTariff(k % 4),
        0x34..=0x37 => VIFExtension::PeriodOfTariff(k % 4),
        0x38 => VIFExtension::PeriodOfTarrifMonths,
        0x39 => VIFExtension::PeriodOfTTariffYears,
        0x3A => VIFExtension::Dimensionless,
        0x40..=0x4F => VIFExtension::Volts(k % 16),
        0x50..=0x5F => VIFExtension::Ampere(k % 16),
        0x60 => VIFExtension::ResetCounter,
        0x61 => VIFExtension::CumulationCounter,
        0x62 => VIFExtension::ControlSignal,
        0x63 => VIFExtension::DayOfWeek,
        0x64 => VIFExtension::WeekNumber,
        0x65 => VIFExtension::TimePointOfDay,
        0x66 => VIFExtension::StateOfParameterActivation,
        0x67 => VIFExtension::SpecialSupervision,
        0x68..=0x6B => VIFExtension::DurationSinceLastCumulation(k % 4),
        0x6C..=0x6F => VIFExtension::OperatingTimeBattery(k % 4),
        0x70 => VIFExtension::DateAndTimeOfBatteryChange,
        _ => VIFExtension::Reserved,
    }
}

/// The entry of extended table A (VIF `0xFB`) that the code `k` selects, `k`
/// being the low seven bits of the byte behind the VIF.
pub open spec fn extension_table_a(k: u8) -> VIFExtension {
    if 0x00 <= k <= 0x01 {
        VIFExtension::EnergyMWh((k % 2) as u8)
    } else if 0x08 <= k <= 0x09 {
        VIFExtension::EnergyGJ((k % 2) as u8)
    } else if 0x10 <= k <= 0x11 {
        VIFExtension::VolumeM3((k % 2) as u8)
    } else if 0x18 <= k <= 0x19 {
        VIFExtension::MassTons((k % 2) as u8)
    } else if k == 0x21 {
        VIFExtension::VolumeFeet3Tenth
    } else if k == 0x22 {
        VIFExtension::VolumeAmericanGallon
    } else if k == 0x23 {
        VIFExtension::VolumeFlowAmericanGallonPerMinuteThousandth
    } else if k == 0x24 {
        VIFExtension::VolumeFlowAmericanGallonPerMinute
    } else if k == 0x25 {
        VIFExtension::VolumeFlowAmericanGallonPerHour
    } else if 0x28 <= k <= 0x29 {
        VIFExtension::PowerMW((k % 2) as u8)
    } else if 0x30 <= k <= 0x31 {
        VIFExtension::PowerGJH((k % 2) as u8)
    } else if 0x50 <= k <= 0x53 {
        VIFExtension::FlowTemperature((k % 4) as u8)
    } else if 0x54 <= k <= 0x57 {
        VIFExtension::ReturnTemperature((k % 4) as u8)
    } else if 0x60 <= k <= 0x63 {
        VIFExtension::TemperatureDifference((k % 4) as u8)
    } else if 0x64 <= k <= 0x67 {
        VIFExtension::ExternalTemperature((k % 4) as u8)
    } else if 0x70 <= k <= 0x73 {
        VIFExtension::ColdWarmTemperatureLimitFarenheit((k % 4) as u8)
    } else if 0x74 <= k <= 0x77 {
        VIFExtension::ColdWarmTemperatureLimitCelsius((k % 4) as u8)
    } else if 0x78 <= k <= 0x7F {
        VIFExtension::CumulativeCountMaxPower((k % 8) as u8)
    } else {
        VIFExtension::Reserved
    }
}

/// Looks `k` up in extended table A.
pub fn find_in_table_a(k: u8) -> (r: VIFExtension)
    ensures
        r == extension_table_a(k),
{
    match k {
        0x00..=0x01 => VIFExtension::EnergyMWh(k % 2),
        0x08..=0x09 => VIFExtension::EnergyGJ(k % 2),
        0x10..=0x11 => VIFExtension::VolumeM3(k % 2),
        0x18..=0x19 => VIFExtension::MassTons(k % 2),
        0x21 => VIFExtension::VolumeFeet3Tenth,
        0x22 => VIFExtension::VolumeAmericanGallon,
        0x23 => VIFExtension::VolumeFlowAmericanGallonPerMinuteThousandth,
        0x24 => VIFExtension::VolumeFlowAmericanGallonPerMinute,
        0x25 => VIFExtension::VolumeFlowAmericanGallonPerHour,
        0x28..=0x29 => VIFExtension::PowerMW(k % 2),
        0x30..=0x31 => VIFExtension::PowerGJH(k % 2),
        0x50..=0x53 => VIFExtension::FlowTemperature(k % 4),
        0x54..=0x57 => VIFExtension::ReturnTemperature(k % 4),
        0x60..=0x63 => VIFExtension::TemperatureDifference(k % 4),
        0x64..=0x67 => VIFExtension::ExternalTemperature(k % 4),
        0x70..=0x73 => VIFExtension::ColdWarmTemperatureLimitFarenheit(k % 4),
        0x74..=0x77 => VIFExtension::ColdWarmTemperatureLimitCelsius(k % 4),
        0x78..=0x7F => VIFExtension::CumulativeCountMaxPower(k % 8),
        _ => VIFExtension::Reserved,
    }
}

/// The name that the `len` characters of `s` from index `at` on spell: the
/// wire holds the name backwards, so the name is those bytes reversed.
pub open spec fn plain_text_name(s: Seq<u8>, at: int, len: int) -> Seq<u8> {
    s.subrange(at, at + len).reverse()
}

/// A captured name, read backwards, is what stood on the wire.
pub proof fn lemma_plain_text_name_reversed(s: Seq<u8>, at: int, len: int)
    requires
        0 <= at,
        0 <= len,
        at + len <= s.len(),
    ensures
        plain_text_name(s, at, len).len() == len,
        plain_text_name(s, at, len).reverse() == s.subrange(at, at + len),
        forall|i: int| 0 <= i < len ==> plain_text_name(s, at, len)[i] == s[at + len - 1 - i],
{
    let wire = s.subrange(at, at + len);
    assert(wire.reverse().reverse() =~= wire);
}

/// Reads the `len` characters of a plain-text unit that stand at `at`, last
/// character first, into a name that reads forwards.
pub(crate) fn read_plain_text_name(data: &[u8], at: usize, len: usize) -> (name: ArrayVec<u8, 10>)
    requires
        len <= MAX_PLAIN_TEXT_VIF_SIZE,
        at + len <= data@.len(),
    ensures
        bytes_of(name) == plain_text_name(data@, at as int, len as int),
{
    let total: usize = data.len();
    let mut name = new_bytes();
    let mut taken: usize = 0;
    while taken < len
        invariant
            0 <= taken <= len <= MAX_PLAIN_TEXT_VIF_SIZE,
            at + len <= total == data@.len(),
            bytes_of(name).len() == taken,
            forall|i: int| 0 <= i < taken ==> bytes_of(name)[i] == data@[at + len - 1 - i],
        decreases len - taken,
    {
        push_byte(&mut name, data[at + (len - 1 - taken)]);
        taken = taken + 1;
    }
    proof {
        lemma_plain_text_name_reversed(data@, at as int, len as int);
        assert(bytes_of(name) =~= plain_text_name(data@, at as int, len as int));
    }
    name
}

/// The error of a block whose extension chain could not be read.
pub open spec fn chain_fault(e: ChainError) -> ValueInformationError {
    match e {
        ChainError::TooLong => ValueInformationError::VifeChainTooLong,
        ChainError::Truncated => ValueInformationError::InvalidValueInformation,
    }
}

/// The value information block at the start of `s`, the name of a plain-text
/// unit standing where `layout` says. A VIF has at most ten extension bytes,
/// the byte that selects from an extended table counted among them.
pub open spec fn value_information_in(s: Seq<u8>, layout: PlainTextLayout) -> Result<
    ValueInformationView,
    ValueInformationError,
> {
    if s.len() == 0 {
        Err(ValueInformationError::InvalidValueInformation)
    } else if is_plain_text_vif(s[0]) {
        if layout == PlainTextLayout::Common {
            if s.len() < 2 || s[1] > MAX_PLAIN_TEXT_VIF_SIZE || s.len() < 2 + s[1] {
                Err(ValueInformationError::InvalidValueInformation)
            } else {
                let first = 2 + s[1];
                match chain_len_after(s[0], s, first, MAX_VIFE_RECORDS as nat) {
                    Err(e) => Err(chain_fault(e)),
                    Ok(n) => Ok(
                        ValueInformationView::PlainText(
                            plain_text_name(s, 2, s[1] as int),
                            s.subrange(first, first + n),
                            layout,
                        ),
                    ),
                }
            }
        } else {
            match chain_len_after(s[0], s, 1, MAX_VIFE_RECORDS as nat) {
                Err(e) => Err(chain_fault(e)),
                Ok(n) => {
                    let at: int = n + 1int;
                    if s.len() <= at || s[at] > MAX_PLAIN_TEXT_VIF_SIZE || s.len() < at + 1 + s[at] {
                        Err(ValueInformationError::InvalidValueInformation)
                    } else {
                        Ok(
                            ValueInformationView::PlainText(
                                plain_text_name(s, at + 1, s[at] as int),
                                s.subrange(1, at),
                                layout,
                            ),
                        )
                    }
                },
            }
        }
    } else if s[0] == VIF_EXTENDED_TABLE_B || s[0] == VIF_EXTENDED_TABLE_A {
        if s.len() < 2 {
            Err(ValueInformationError::InvalidValueInformation)
        } else {
            match chain_len_after(s[1], s, 2, (MAX_VIFE_RECORDS - 1) as nat) {
                Err(e) => Err(chain_fault(e)),
                Ok(n) => Ok(
                    ValueInformationView::Extended(
                        if s[0] == VIF_EXTENDED_TABLE_B {
                            extension_table_b(low7(s[1]))
                        } else {
                            extension_table_a(low7(s[1]))
                        },
                        s.subrange(2, n + 2int),
                    ),
                ),
            }
        }
    } else if s[0] == 0x7D {
        Err(ValueInformationError::InvalidValueInformation)
    } else {
        match chain_len_after(s[0], s, 1, MAX_VIFE_RECORDS as nat) {
            Err(e) => Err(chain_fault(e)),
            Ok(n) => {
                let vife = s.subrange(1, n + 1int);
                if low7(s[0]) == 0x7E {
                    Ok(ValueInformationView::Any(vife))
                } else if low7(s[0]) == 0x7F {
                    Ok(ValueInformationView::ManufacturerSpecific(vife))
                } else {
                    Ok(ValueInformationView::Primary(s[0], vife))
                }
            },
        }
    }
}

/// The value information block at the start of `s`. With a layout demanded,
/// the name of a plain-text unit is looked for there and nowhere else. With
/// none demanded, the layout of the norm is tried first and the common one
/// where that fails; the result says which of them it was. Where both fail,
/// an extension chain that is too long is reported before the fault that the
/// layout of the norm met.
pub open spec fn value_information_of(s: Seq<u8>, demand: Option<PlainTextLayout>) -> Result<
    ValueInformationView,
    ValueInformationError,
> {
    match demand {
        Some(layout) => value_information_in(s, layout),
        None => match value_information_in(s, PlainTextLayout::NormConform) {
            Ok(v) => Ok(v),
            Err(norm) => match value_information_in(s, PlainTextLayout::Common) {
                Ok(v) => Ok(v),
                Err(common) => Err(
                    if common == ValueInformationError::VifeChainTooLong {
                        common
                    } else {
                        norm
                    },
                ),
            },
        },
    }
}

/// Reads the extension chain of at most `most` bytes at `first` if the byte
/// that it belongs to announced one; otherwise the chain is empty.
fn read_chain_after(announced: bool, data: &[u8], first: usize, most: usize) -> (r: Result<
    ArrayVec<u8, 10>,
    ValueInformationError,
>)
    requires
        first <= data@.len(),
        most <= MAX_VIFE_RECORDS,
    ensures
        match r {
            Ok(chain) => {
                &&& (if announced {
                    chain_len(data@, first as int, most as nat)
                } else {
                    Ok(0)
                }) == Ok::<nat, ChainError>(bytes_of(chain).len())
                &&& first + bytes_of(chain).len() <= data@.len()
                &&& bytes_of(chain) == data@.subrange(
                    first as int,
                    first + bytes_of(chain).len(),
                )
            },
            Err(e) => announced && (match chain_len(data@, first as int, most as nat) {
                Err(fault) => e == chain_fault(fault),
                Ok(_) => false,
            }),
        },
{
    if announced {
        match read_chain_of(data, first, most) {
            Ok(chain) => Ok(chain),
            Err(ChainError::TooLong) => Err(ValueInformationError::VifeChainTooLong),
            Err(ChainError::Truncated) => Err(ValueInformationError::InvalidValueInformation),
        }
    } else {
        let chain = new_bytes();
        assert(bytes_of(chain) =~= data@.subrange(first as int, first as int));
        Ok(chain)
    }
}

impl ValueInformation {
    /// Decodes the value information block at the start of `data`. The name of
    /// a plain-text unit is looked for where `layout` says, and nowhere else.
    pub fn parse(data: &[u8], layout: PlainTextLayout) -> (r: Result<
        ValueInformation,
        ValueInformationError,
    >)
        ensures
            match r {
                Ok(v) => value_information_in(data@, layout) == Ok::<
                    ValueInformationView,
                    ValueInformationError,
                >(v@),
                Err(e) => value_information_in(data@, layout) == Err::<
                    ValueInformationView,
                    ValueInformationError,
                >(e),
            },
    {
        let total: usize = data.len();
        if total == 0 {
            return Err(ValueInformationError::InvalidValueInformation);
        }
        let vif: u8 = data[0];
        let announced: bool = extension_flag(vif);
        let code: u8 = without_extension(vif);
        if code == 0x7C {
            match layout {
                PlainTextLayout::Common => {
                    if total < 2 {
                        return Err(ValueInformationError::InvalidValueInformation);
                    }
                    let len: usize = data[1] as usize;
                    if len > MAX_PLAIN_TEXT_VIF_SIZE || total - 2 < len {
                        return Err(ValueInformationError::InvalidValueInformation);
                    }
                    let vife = match read_chain_after(
                        announced,
                        data,
                        2 + len,
                        MAX_VIFE_RECORDS,
                    ) {
                        Ok(vife) => vife,
                        Err(e) => {
                            return Err(e);
                        },
                    };
                    let name = read_plain_text_name(data, 2, len);
                    Ok(ValueInformation::PlainText(name, vife, layout))
                },
                PlainTextLayout::NormConform => {
                    let vife = match read_chain_after(announced, data, 1, MAX_VIFE_RECORDS) {
                        Ok(vife) => vife,
                        Err(e) => {
                            return Err(e);
                        },
                    };
                    let at: usize = 1 + byte_count(&vife);
                    if total <= at {
                        return Err(ValueInformationError::InvalidValueInformation);
                    }
                    let len: usize = data[at] as usize;
                    if len > MAX_PLAIN_TEXT_VIF_SIZE || total - at - 1 < len {
                        return Err(ValueInformationError::InvalidValueInformation);
                    }
                    let name = read_plain_text_name(data, at + 1, len);
                    Ok(ValueInformation::PlainText(name, vife, layout))
                },
            }
        } else if vif == VIF_EXTENDED_TABLE_B || vif == VIF_EXTENDED_TABLE_A {
            if total < 2 {
                return Err(ValueInformationError::InvalidValueInformation);
            }
            let key: u8 = data[1];
            let vife = match read_chain_after(
                extension_flag(key),
                data,
                2,
                MAX_VIFE_RECORDS - 1,
            ) {
                Ok(vife) => vife,
                Err(e) => {
                    return Err(e);
                },
            };
            let entry = if vif == VIF_EXTENDED_TABLE_B {
                find_in_table_b(without_extension(key))
            } else {
                find_in_table_a(without_extension(key))
            };
            Ok(ValueInformation::Extended(entry, vife))
        } else if vif == 0x7D {
            Err(ValueInformationError::InvalidValueInformation)
        } else {
            let vife = match read_chain_after(announced, data, 1, MAX_VIFE_RECORDS) {
                Ok(vife) => vife,
                Err(e) => {
                    return Err(e);
                },
            };
            if code == 0x7E {
                Ok(ValueInformation::Any(vife))
            } else if code == 0x7F {
                Ok(ValueInformation::ManufacturerSpecific(vife))
            } else {
                Ok(ValueInformation::Primary(vif, vife))
            }
        }
    }

    /// Decodes the value information block at the start of `data`, the name of
    /// a plain-text unit looked for where `demand` says, or in both places,
    /// that of the norm first, where it says nothing.
    pub fn parse_with(data: &[u8], demand: Option<PlainTextLayout>) -> (r: Result<
        ValueInformation,
        ValueInformationError,
    >)
        ensures
            match r {
                Ok(v) => value_information_of(data@, demand) == Ok::<
                    ValueInformationView,
                    ValueInformationError,
                >(v@),
                Err(e) => value_information_of(data@, demand) == Err::<
                    ValueInformationView,
                    ValueInformationError,
                >(e),
            },
    {
        match demand {
            Some(layout) => ValueInformation::parse(data, layout),
            None => match ValueInformation::parse(data, PlainTextLayout::NormConform) {
                Ok(v) => Ok(v),
                Err(norm) => match ValueInformation::parse(data, PlainTextLayout::Common) {
                    Ok(v) => Ok(v),
                    Err(ValueInformationError::VifeChainTooLong) => Err(
                        ValueInformationError::VifeChainTooLong,
                    ),
                    Err(_) => Err(norm),
                },
            },
        }
    }
}

impl vstd::std_specs::convert::TryFromSpecImpl<&[u8]> for ValueInformation {
    /// The result holds vectors that no spec function can build, so the
    /// outcome is stated by the `ensures` of `try_from` instead.
    open spec fn obeys_try_from_spec() -> bool {
        false
    }

    open spec fn try_from_spec(data: &[u8]) -> Result<Self, ValueInformationError> {
        Err(ValueInformationError::InvalidValueInformation)
    }
}

impl TryFrom<&[u8]> for ValueInformation {
    type Error = ValueInformationError;

    /// Decodes the value information block at the start of `data`. The name of
    /// a plain-text unit is looked for behind the extensions, as the norm has
    /// it, and where that fails directly behind the VIF; the result says where
    /// it stood.
    fn try_from(data: &[u8]) -> (r: Result<Self, ValueInformationError>)
        ensures
            match r {
                Ok(v) => value_information_of(data@, None) == Ok::<
                    ValueInformationView,
                    ValueInformationError,
                >(v@),
                Err(e) => value_information_of(data@, None) == Err::<
                    ValueInformationView,
                    ValueInformationError,
                >(e),
            },
    {
        ValueInformation::parse_with(data, None)
    }
}

/// The unit that the primary table gives to the code `k`, the low seven bits
/// of the VIF. Codes without an entry have no unit.
pub open spec fn primary_unit(k: u8) -> Option<Unit> {
    if 0x00 <= k <= 0x07 {
        Some(Unit::WattHour)
    } else if 0x08 <= k <= 0x0F {
        Some(Unit::Joul)
    } else if 0x10 <= k <= 0x17 {
        Some(Unit::CubicMeter)
    } else if 0x18 <= k <= 0x1F {
        Some(Unit::Kilogram)
    } else if k == 0x20 || k == 0x24 {
        Some(Unit::Seconds)
    } else if k == 0x21 || k == 0x25 {
        Some(Unit::Minutes)
    } else if k == 0x22 || k == 0x26 {
        Some(Unit::Hours)
    } else if k == 0x23 || k == 0x27 {
        Some(Unit::Days)
    } else if 0x28 <= k <= 0x2F {
        Some(Unit::Watt)
    } else if 0x30 <= k <= 0x37 {
        Some(Unit::JoulPerHour)
    } else if 0x38 <= k <= 0x3F {
        Some(Unit::CubicMeterPerHour)
    } else if 0x40 <= k <= 0x47 {
        Some(Unit::CubicMeterPerMinute)
    } else if 0x48 <= k <= 0x4F {
        Some(Unit::CubicMeterPerSecond)
    } else if 0x50 <= k <= 0x57 {
        Some(Unit::KilogramPerHour)
    } else if 0x58 <= k <= 0x5F || 0x64 <= k <= 0x67 {
        Some(Unit::Celsius)
    } else if 0x60 <= k <= 0x63 {
        Some(Unit::Kelvin)
    } else if 0x68 <= k <= 0x6B {
        Some(Unit::Bar)
    } else if 0x6C <= k <= 0x6D {
        Some(Unit::TimePoint)
    } else if 0x74 <= k <= 0x77 {
        Some(Unit::ActualityDuration)
    } else if k == 0x78 {
        Some(Unit::FabricationNumber)
    } else {
        None
    }
}

/// Looks `k` up in [`primary_unit`].
pub fn find_primary_unit(k: u8) -> (r: Option<Unit>)
    ensures
        r == primary_unit(k),
{
    match k {
        0x00..=0x07 => Some(Unit::WattHour),
        0x08..=0x0F => Some(Unit::Joul),
        0x10..=0x17 => Some(Unit::CubicMeter),
        0x18..=0x1F => Some(Unit::Kilogram),
        0x20 | 0x24 => Some(Unit::Seconds),
        0x21 | 0x25 => Some(Unit::Minutes),
        0x22 | 0x26 => Some(Unit::Hours),
        0x23 | 0x27 => Some(Unit::Days),
        0x28..=0x2F => Some(Unit::Watt),
        0x30..=0x37 => Some(Unit::JoulPerHour),
        0x38..=0x3F => Some(Unit::CubicMeterPerHour),
        0x40..=0x47 => Some(Unit::CubicMeterPerMinute),
        0x48..=0x4F => Some(Unit::CubicMeterPerSecond),
        0x50..=0x57 => Some(Unit::KilogramPerHour),
        0x58..=0x5F | 0x64..=0x67 => Some(Unit::Celsius),
        0x60..=0x63 => Some(Unit::Kelvin),
        0x68..=0x6B => Some(Unit::Bar),
        0x6C..=0x6D => Some(Unit::TimePoint),
        0x74..=0x77 => Some(Unit::ActualityDuration),
        0x78 => Some(Unit::FabricationNumber),
        _ => None,
    }
}

/// The unit of time that the two low bits of `n` select among seconds,
/// minutes, hours and days.
pub open spec fn short_time_unit(n: u8) -> Unit {
    if n % 4 == 0 {
        Unit::Seconds
    } else if n % 4 == 1 {
        Unit::Minutes
    } else if n % 4 == 2 {
        Unit::Hours
    } else {
        Unit::Days
    }
}

/// Computes [`short_time_unit`].
pub fn find_short_time_unit(n: u8) -> (r: Unit)
    ensures
        r == short_time_unit(n),
{
    match n % 4 {
        0 => Unit::Seconds,
        1 => Unit::Minutes,
        2 => Unit::Hours,
        _ => Unit::Days,
    }
}

/// The unit of time that the two low bits of `n` select among hours, days,
/// months and years.
pub open spec fn long_time_unit(n: u8) -> Unit {
    if n % 4 == 0 {
        Unit::Hours
    } else if n % 4 == 1 {
        Unit::Days
    } else if n % 4 == 2 {
        Unit::Months
    } else {
        Unit::Years
    }
}

/// Computes [`long_time_unit`].
pub fn find_long_time_unit(n: u8) -> (r: Unit)
    ensures
        r == long_time_unit(n),
{
    match n % 4 {
        0 => Unit::Hours,
        1 => Unit::Days,
        2 => Unit::Months,
        _ => Unit::Years,
    }
}

/// The unit of an entry of the extended tables. A reserved entry has none.
pub open spec fn extension_unit(e: VIFExtension) -> Option<Unit> {
    match e {
        VIFExtension::CreditOfCurrencyUnits(_)
        | VIFExtension::DebitOfCurrencyUnits(_) => Some(Unit::CurrencyUnit),
        VIFExtension::AccessNumber
        | VIFExtension::Medium
        | VIFExtension::Manufacturer
        | VIFExtension::ParameterSetIdentification
        | VIFExtension::ModelVersion
        | VIFExtension::HardwareVersion
        | VIFExtension::FirmwareVersion
        | VIFExtension::SoftwareVersion
        | VIFExtension::CustomerLocation
        | VIFExtension::Customer
        | VIFExtension::AccessCodeUser
        | VIFExtension::AccessCodeOperator
        | VIFExtension::AccessCodeSystemOperator
        | VIFExtension::AccessCodeDeveloper
        | VIFExtension::Password
        | VIFExtension::ErrorFlags
        | VIFExtension::ErrorMask => Some(Unit::WithoutUnits),
        VIFExtension::Reserved => None,
        VIFExtension::DigitalOutput
        | VIFExtension::DigitalInput
        | VIFExtension::BaudRate
        | VIFExtension::ResponseDelayTime
        | VIFExtension::Retry
        | VIFExtension::FirstStorage
        | VIFExtension::LastStorage
        | VIFExtension::SizeOfStorageBlock => Some(Unit::WithoutUnits),
        VIFExtension::StorageIntervalSecondsToDays(n) => Some(short_time_unit(n)),
        VIFExtension::StorageIntervalMonths => Some(Unit::Months),
        VIFExtension::StorageIntervalYears => Some(Unit::Years),
        VIFExtension::DurationSinceLastReadout(n) => Some(short_time_unit(n)),
        VIFExtension::StartOfTariff => Some(Unit::TimePoint),
        VIFExtension::DurationOfTariff(n) => Some(short_time_unit(n)),
        VIFExtension::PeriodOfTariff(n) => Some(short_time_unit(n)),
        VIFExtension::PeriodOfTarrifMonths => Some(Unit::Months),
        VIFExtension::PeriodOfTTariffYears => Some(Unit::Years),
        VIFExtension::Dimensionless => Some(Unit::WithoutUnits),
        VIFExtension::Volts(_) => Some(Unit::Volt),
        VIFExtension::Ampere(_) => Some(Unit::Ampere),
        VIFExtension::ResetCounter
        | VIFExtension::CumulationCounter
        | VIFExtension::ControlSignal
        | VIFExtension::DayOfWeek
        | VIFExtension::WeekNumber => Some(Unit::WithoutUnits),
        VIFExtension::TimePointOfDay => Some(Unit::TimePoint),
        VIFExtension::StateOfParameterActivation
        | VIFExtension::SpecialSupervision => Some(Unit::WithoutUnits),
        VIFExtension::DurationSinceLastCumulation(n) => Some(long_time_unit(n)),
        VIFExtension::OperatingTimeBattery(n) => Some(long_time_unit(n)),
        VIFExtension::DateAndTimeOfBatteryChange => Some(Unit::TimePoint),
        VIFExtension::EnergyMWh(_) => Some(Unit::MegaWattHour),
        VIFExtension::EnergyGJ(_) => Some(Unit::GigaJoul),
        VIFExtension::VolumeM3(_) => Some(Unit::CubicMeter),
        VIFExtension::MassTons(_) => Some(Unit::Tonne),
        VIFExtension::VolumeFeet3Tenth => Some(Unit::CubicFeet),
        VIFExtension::VolumeAmericanGallonTenth
        | VIFExtension::VolumeAmericanGallon => Some(Unit::AmericanGallon),
        VIFExtension::VolumeFlowAmericanGallonPerMinuteThousandth
        | VIFExtension::VolumeFlowAmericanGallonPerMinute => Some(Unit::AmericanGallonPerMinute),
        VIFExtension::VolumeFlowAmericanGallonPerHour => Some(Unit::AmericanGallonPerHour),
        VIFExtension::PowerMW(_) => Some(Unit::MegaWatt),
        VIFExtension::PowerGJH(_) => Some(Unit::GigaJoulHour),
        VIFExtension::FlowTemperature(_)
        | VIFExtension::ReturnTemperature(_)
        | VIFExtension::TemperatureDifference(_)
        | VIFExtension::ExternalTemperature(_) => Some(Unit::Celsius),
        VIFExtension::ColdWarmTemperatureLimitFarenheit(_) => Some(Unit::Fahrenheit),
        VIFExtension::ColdWarmTemperatureLimitCelsius(_) => Some(Unit::Celsius),
        VIFExtension::CumulativeCountMaxPower(_) => Some(Unit::Watt),
    }
}

/// Computes [`extension_unit`].
pub fn find_extension_unit(e: &VIFExtension) -> (r: Option<Unit>)
    ensures
        r == extension_unit(*e),
{
    match e {
        VIFExtension::CreditOfCurrencyUnits(_)
        | VIFExtension::DebitOfCurrencyUnits(_) => Some(Unit::CurrencyUnit),
        VIFExtension::AccessNumber
        | VIFExtension::Medium
        | VIFExtension::Manufacturer
        | VIFExtension::ParameterSetIdentification
        | VIFExtension::ModelVersion
        | VIFExtension::HardwareVersion
        | VIFExtension::FirmwareVersion
        | VIFExtension::SoftwareVersion
        | VIFExtension::CustomerLocation
        | VIFExtension::Customer
        | VIFExtension::AccessCodeUser
        | VIFExtension::AccessCodeOperator
        | VIFExtension::AccessCodeSystemOperator
        | VIFExtension::AccessCodeDeveloper
        | VIFExtension::Password
        | VIFExtension::ErrorFlags
        | VIFExtension::ErrorMask => Some(Unit::WithoutUnits),
        VIFExtension::Reserved => None,
        VIFExtension::DigitalOutput
        | VIFExtension::DigitalInput
        | VIFExtension::BaudRate
        | VIFExtension::ResponseDelayTime
        | VIFExtension::Retry
        | VIFExtension::FirstStorage
        | VIFExtension::LastStorage
        | VIFExtension::SizeOfStorageBlock => Some(Unit::WithoutUnits),
        VIFExtension::StorageIntervalSecondsToDays(n) => Some(find_short_time_unit(*n)),
        VIFExtension::StorageIntervalMonths => Some(Unit::Months),
        VIFExtension::StorageIntervalYears => Some(Unit::Years),
        VIFExtension::DurationSinceLastReadout(n) => Some(find_short_time_unit(*n)),
        VIFExtension::StartOfTariff => Some(Unit::TimePoint),
        VIFExtension::DurationOfTariff(n) => Some(find_short_time_unit(*n)),
        VIFExtension::PeriodOfTariff(n) => Some(find_short_time_unit(*n)),
        VIFExtension::PeriodOfTarrifMonths => Some(Unit::Months),
        VIFExtension::PeriodOfTTariffYears => Some(Unit::Years),
        VIFExtension::Dimensionless => Some(Unit::WithoutUnits),
        VIFExtension::Volts(_) => Some(Unit::Volt),
        VIFExtension::Ampere(_) => Some(Unit::Ampere),
        VIFExtension::ResetCounter
        | VIFExtension::CumulationCounter
        | VIFExtension::ControlSignal
        | VIFExtension::DayOfWeek
        | VIFExtension::WeekNumber => Some(Unit::WithoutUnits),
        VIFExtension::TimePointOfDay => Some(Unit::TimePoint),
        VIFExtension::StateOfParameterActivation
        | VIFExtension::SpecialSupervision => Some(Unit::WithoutUnits),
        VIFExtension::DurationSinceLastCumulation(n) => Some(find_long_time_unit(*n)),
        VIFExtension::OperatingTimeBattery(n) => Some(find_long_time_unit(*n)),
        VIFExtension::DateAndTimeOfBatteryChange => Some(Unit::TimePoint),
        VIFExtension::EnergyMWh(_) => Some(Unit::MegaWattHour),
        VIFExtension::EnergyGJ(_) => Some(Unit::GigaJoul),
        VIFExtension::VolumeM3(_) => Some(Unit::CubicMeter),
        VIFExtension::MassTons(_) => Some(Unit::Tonne),
        VIFExtension::VolumeFeet3Tenth => Some(Unit::CubicFeet),
        VIFExtension::VolumeAmericanGallonTenth
        | VIFExtension::VolumeAmericanGallon => Some(Unit::AmericanGallon),
        VIFExtension::VolumeFlowAmericanGallonPerMinuteThousandth
        | VIFExtension::VolumeFlowAmericanGallonPerMinute => Some(Unit::AmericanGallonPerMinute),
        VIFExtension::VolumeFlowAmericanGallonPerHour => Some(Unit::AmericanGallonPerHour),
        VIFExtension::PowerMW(_) => Some(Unit::MegaWatt),
        VIFExtension::PowerGJH(_) => Some(Unit::GigaJoulHour),
        VIFExtension::FlowTemperature(_)
        | VIFExtension::ReturnTemperature(_)
        | VIFExtension::TemperatureDifference(_)
        | VIFExtension::ExternalTemperature(_) => Some(Unit::Celsius),
        VIFExtension::ColdWarmTemperatureLimitFarenheit(_) => Some(Unit::Fahrenheit),
        VIFExtension::ColdWarmTemperatureLimitCelsius(_) => Some(Unit::Celsius),
        VIFExtension::CumulativeCountMaxPower(_) => Some(Unit::Watt),
    }
}

/// The label that a VIF of the primary table attaches by itself, `k` being its low
/// seven bits: such a VIF says what the value is, not in which unit it counts.
pub open spec fn primary_label(k: u8) -> Option<ValueLabel> {
    if k == 0x6C {
        Some(ValueLabel::Date)
    } else if k == 0x6D {
        Some(ValueLabel::DateTime)
    } else if 0x74 <= k <= 0x77 {
        Some(ValueLabel::ActualityDuration)
    } else if k == 0x78 {
        Some(ValueLabel::FabricationNumber)
    } else {
        None
    }
}

/// Looks `k` up in [`primary_label`].
pub fn find_primary_label(k: u8) -> (r: Option<ValueLabel>)
    ensures
        r == primary_label(k),
{
    match k {
        0x6C => Some(ValueLabel::Date),
        0x6D => Some(ValueLabel::DateTime),
        0x74..=0x77 => Some(ValueLabel::ActualityDuration),
        0x78 => Some(ValueLabel::FabricationNumber),
        _ => None,
    }
}

/// The factors into which a unit's name resolves: a compound name such as
/// cubic metres per hour gives two, a name that stands for no physical unit
/// gives none.
pub open spec fn unit_factors(unit: Unit) -> Seq<UnitFactor> {
    match unit {
        Unit::WithoutUnits
        | Unit::PlainText
        | Unit::TimePoint
        | Unit::FabricationNumber
        | Unit::ActualityDuration
        | Unit::Reserved
        | Unit::HourMinuteSecond
        | Unit::DayMonthYear => seq![],
        Unit::JoulPerHour => per(Unit::Joul, Unit::Hours),
        Unit::KiloJoulHour => per(Unit::KiloJoul, Unit::Hours),
        Unit::MegaJoulHour => per(Unit::MegaJoul, Unit::Hours),
        Unit::GigaJoulHour => per(Unit::GigaJoul, Unit::Hours),
        Unit::LiterHour => per(Unit::Liter, Unit::Hours),
        Unit::MegaLiterHour => per(Unit::MegaLiter, Unit::Hours),
        Unit::CubicMeterPerHour => per(Unit::CubicMeter, Unit::Hours),
        Unit::CubicMeterPerMinute => per(Unit::CubicMeter, Unit::Minutes),
        Unit::CubicMeterPerSecond => per(Unit::CubicMeter, Unit::Seconds),
        Unit::KilogramPerHour => per(Unit::Kilogram, Unit::Hours),
        Unit::AmericanGallonPerMinute => per(Unit::AmericanGallon, Unit::Minutes),
        Unit::AmericanGallonPerHour => per(Unit::AmericanGallon, Unit::Hours),
        _ => seq![UnitFactor { unit, exponent: 1i32 }],
    }
}

/// The two factors of `numerator` per `denominator`.
pub open spec fn per(numerator: Unit, denominator: Unit) -> Seq<UnitFactor> {
    seq![
        UnitFactor { unit: numerator, exponent: 1i32 },
        UnitFactor { unit: denominator, exponent: -1i32 },
    ]
}

/// The unit in the denominator of a compound unit's name.
fn denominator_of(unit: Unit) -> (r: Option<(Unit, Unit)>)
    ensures
        match r {
            Some((numerator, denominator)) => unit_factors(unit) == per(numerator, denominator),
            None => unit_factors(unit).len() <= 1,
        },
{
    match unit {
        Unit::JoulPerHour => Some((Unit::Joul, Unit::Hours)),
        Unit::KiloJoulHour => Some((Unit::KiloJoul, Unit::Hours)),
        Unit::MegaJoulHour => Some((Unit::MegaJoul, Unit::Hours)),
        Unit::GigaJoulHour => Some((Unit::GigaJoul, Unit::Hours)),
        Unit::LiterHour => Some((Unit::Liter, Unit::Hours)),
        Unit::MegaLiterHour => Some((Unit::MegaLiter, Unit::Hours)),
        Unit::CubicMeterPerHour => Some((Unit::CubicMeter, Unit::Hours)),
        Unit::CubicMeterPerMinute => Some((Unit::CubicMeter, Unit::Minutes)),
        Unit::CubicMeterPerSecond => Some((Unit::CubicMeter, Unit::Seconds)),
        Unit::KilogramPerHour => Some((Unit::Kilogram, Unit::Hours)),
        Unit::AmericanGallonPerMinute => Some((Unit::AmericanGallon, Unit::Minutes)),
        Unit::AmericanGallonPerHour => Some((Unit::AmericanGallon, Unit::Hours)),
        _ => None,
    }
}

/// Builds the unit vector of a unit's name.
pub fn factors_of(unit: Unit) -> (r: UnitVector)
    ensures
        r@ == unit_factors(unit),
{
    let mut r = UnitVector::new();
    match denominator_of(unit) {
        Some((numerator, denominator)) => {
            r.push(UnitFactor { unit: numerator, exponent: 1 });
            r.push(UnitFactor { unit: denominator, exponent: -1 });
        },
        None => {
            match unit {
                Unit::WithoutUnits
                | Unit::PlainText
                | Unit::TimePoint
                | Unit::FabricationNumber
                | Unit::ActualityDuration
                | Unit::Reserved
                | Unit::HourMinuteSecond
                | Unit::DayMonthYear => {},
                _ => {
                    r.push(UnitFactor { unit, exponent: 1 });
                },
            }
        },
    }
    assert(r@ =~= unit_factors(unit));
    r
}

/// The name of the unit that a value information gives, or why it gives none.
/// The extensions do not change the name; what they append is in the unit
/// vector.
pub open spec fn unit_of(v: ValueInformationView) -> Result<Unit, ValueInformationError> {
    match v {
        ValueInformationView::Primary(x, _) => match primary_unit(low7(x)) {
            Some(unit) => Ok(unit),
            None => Err(ValueInformationError::UnsupportedVif),
        },
        ValueInformationView::PlainText(_, _, _) => Ok(Unit::PlainText),
        ValueInformationView::Extended(e, _) => match extension_unit(e) {
            Some(unit) => Ok(unit),
            None => Err(ValueInformationError::UnsupportedVif),
        },
        ValueInformationView::Any(_) => Err(ValueInformationError::UnsupportedVif),
        ValueInformationView::ManufacturerSpecific(_) => Ok(Unit::WithoutUnits),
    }
}

impl vstd::std_specs::convert::TryFromSpecImpl<&ValueInformation> for Unit {
    open spec fn obeys_try_from_spec() -> bool {
        true
    }

    open spec fn try_from_spec(value_information: &ValueInformation) -> Result<
        Self,
        ValueInformationError,
    > {
        unit_of(value_information@)
    }
}

impl TryFrom<&ValueInformation> for Unit {
    type Error = ValueInformationError;

    /// The name of the unit that `value_information` gives.
    fn try_from(value_information: &ValueInformation) -> (r: Result<Self, ValueInformationError>)
        ensures
            r == unit_of(value_information@),
    {
        let found: Option<Unit> = match value_information {
            ValueInformation::Primary(x, _) => find_primary_unit(without_extension(*x)),
            ValueInformation::PlainText(_, _, _) => Some(Unit::PlainText),
            ValueInformation::Extended(e, _) => find_extension_unit(e),
            ValueInformation::Any(_) => None,
            ValueInformation::ManufacturerSpecific(_) => Some(Unit::WithoutUnits),
        };
        match found {
            Some(unit) => Ok(unit),
            None => Err(ValueInformationError::UnsupportedVif),
        }
    }
}

/// The labels that the VIF attaches by itself.
pub open spec fn own_labels(v: ValueInformationView) -> Set<ValueLabel> {
    match v {
        ValueInformationView::Primary(x, _) => labelled(Set::empty(), primary_label(low7(x))),
        ValueInformationView::PlainText(_, _, _) => set![ValueLabel::PlainTextUnit],
        ValueInformationView::ManufacturerSpecific(_) => set![ValueLabel::ManufacturerSpecific],
        _ => Set::empty(),
    }
}

/// The factors of the unit that the VIF gives by itself; none where it gives
/// no unit.
pub open spec fn own_factors(v: ValueInformationView) -> Seq<UnitFactor> {
    match unit_of(v) {
        Ok(unit) => unit_factors(unit),
        Err(_) => Seq::empty(),
    }
}

/// The index of the first extension that is orthogonal: those behind a
/// manufacturer-specific VIF are the manufacturer's, none of them is.
pub open spec fn first_orthogonal(v: ValueInformationView) -> int {
    match v {
        ValueInformationView::ManufacturerSpecific(vife) => vife.len() as int,
        _ => 0,
    }
}

/// What a value information says of its value: what the VIF says by itself,
/// with the extensions applied in wire order.
pub open spec fn said_by(v: ValueInformationView) -> Effective {
    apply_extensions(
        Effective {
            units: own_factors(v),
            exponent: base_exponent_of(v),
            offset_exponent: Exponent { inner: None },
            labels: own_labels(v),
        },
        v.extensions(),
        first_orthogonal(v),
    )
}

/// The exponent that a VIF gives by itself is small.
pub proof fn lemma_base_exponent_is_small(v: ValueInformationView)
    ensures
        exponent_within(base_exponent_of(v), 0),
{
}

/// A value information block with everything that it says of its value.
#[derive(Debug, PartialEq)]
pub struct ValueInformationBlock {
    /// The VIF as it was sent.
    pub vif: u8,
    /// The block as it stood on the wire.
    pub value_information: ValueInformation,
    /// The name of the unit that the VIF gives.
    pub unit: Unit,
    /// The unit as a product of factors: those of `unit`, then those that the
    /// extensions appended, in wire order.
    pub units: UnitVector,
    /// The decimal exponent of the value, corrections by extensions included.
    pub exponent: Exponent,
    /// The decimal exponent of the additive correction, if extensions gave one.
    pub offset_exponent: Exponent,
    /// The labels that the VIF and the extensions attach.
    pub labels: LabelSet,
    /// What the value measures.
    pub quantity: Quantity,
}

/// A [`ValueInformationBlock`] in terms of sequences and sets.
pub struct ValueInformationBlockView {
    pub vif: u8,
    pub value_information: ValueInformationView,
    pub unit: Unit,
    pub units: Seq<UnitFactor>,
    pub exponent: Exponent,
    pub offset_exponent: Exponent,
    pub labels: Set<ValueLabel>,
    pub quantity: Quantity,
}

impl View for ValueInformationBlock {
    type V = ValueInformationBlockView;

    open spec fn view(&self) -> ValueInformationBlockView {
        ValueInformationBlockView {
            vif: self.vif,
            value_information: self.value_information@,
            unit: self.unit,
            units: self.units@,
            exponent: self.exponent,
            offset_exponent: self.offset_exponent,
            labels: self.labels@,
            quantity: self.quantity,
        }
    }
}

impl ValueInformationBlockView {
    /// The number of bytes that the block takes on the wire.
    pub open spec fn size(self) -> nat {
        self.value_information.size()
    }
}

/// What a value information says, or why it says nothing: the VIF has no unit,
/// or the unit would have more than ten factors.
pub open spec fn block_of_parts(vif: u8, v: ValueInformationView) -> Result<
    ValueInformationBlockView,
    ValueInformationError,
> {
    match (unit_of(v), quantity_of(v)) {
        (Ok(unit), Ok(quantity)) => {
            let said = said_by(v);
            if said.units.len() > MAX_UNIT_FACTORS {
                Err(ValueInformationError::InvalidValueInformation)
            } else {
                Ok(
                    ValueInformationBlockView {
                        vif,
                        value_information: v,
                        unit,
                        units: said.units,
                        exponent: said.exponent,
                        offset_exponent: said.offset_exponent,
                        labels: said.labels,
                        quantity,
                    },
                )
            }
        },
        _ => Err(ValueInformationError::UnsupportedVif),
    }
}

/// The value information block at the start of `s` with what it says of its
/// value; for `demand` see [`value_information_of`].
pub open spec fn value_information_block_of(s: Seq<u8>, demand: Option<PlainTextLayout>) -> Result<
    ValueInformationBlockView,
    ValueInformationError,
> {
    match value_information_of(s, demand) {
        Err(e) => Err(e),
        Ok(v) => block_of_parts(s[0], v),
    }
}

/// A value information that decodes has at least its VIF and at most ten
/// extension bytes, and all of its bytes lie within what was given.
pub proof fn lemma_value_information_size(s: Seq<u8>, demand: Option<PlainTextLayout>)
    ensures
        value_information_of(s, demand) matches Ok(v) ==> 1 <= v.size() <= s.len()
            && v.extensions().len() <= MAX_VIFE_RECORDS,
{
}

/// A block that decodes has at least its VIF, and all of its bytes lie within
/// what was given.
pub proof fn lemma_block_size(s: Seq<u8>, demand: Option<PlainTextLayout>)
    ensures
        value_information_block_of(s, demand) matches Ok(block) ==> 1 <= block.size() <= s.len(),
{
    lemma_value_information_size(s, demand);
}

/// With a layout demanded, a value information is decoded from its own bytes:
/// what follows them has no influence.
pub proof fn lemma_value_information_in_depends_on_its_bytes(
    s: Seq<u8>,
    t: Seq<u8>,
    layout: PlainTextLayout,
)
    requires
        value_information_in(s, layout) matches Ok(v) && same_start(s, t, v.size() as int),
    ensures
        value_information_in(t, layout) == value_information_in(s, layout),
{
    let v = value_information_in(s, layout).unwrap();
    let n = v.size() as int;
    assert(s[0] == t[0]);
    if is_plain_text_vif(s[0]) {
        if layout == PlainTextLayout::Common {
            assert(s[1] == t[1]);
            let first = 2 + s[1];
            if has_extension(s[0]) {
                lemma_chain_agrees(s, t, first, MAX_VIFE_RECORDS as nat, n);
            }
            lemma_same_start_same_parts(s, t, n, 2, first);
            lemma_same_start_same_parts(s, t, n, first, n);
        } else {
            if has_extension(s[0]) {
                lemma_chain_agrees(s, t, 1, MAX_VIFE_RECORDS as nat, n);
            }
            let at: int = v.extensions().len() + 1int;
            assert(s[at] == t[at]);
            lemma_same_start_same_parts(s, t, n, 1, at);
            lemma_same_start_same_parts(s, t, n, at + 1, n);
        }
    } else if s[0] == VIF_EXTENDED_TABLE_B || s[0] == VIF_EXTENDED_TABLE_A {
        assert(s[1] == t[1]);
        if has_extension(s[1]) {
            lemma_chain_agrees(s, t, 2, (MAX_VIFE_RECORDS - 1) as nat, n);
        }
        lemma_same_start_same_parts(s, t, n, 2, n);
    } else {
        if has_extension(s[0]) {
            lemma_chain_agrees(s, t, 1, MAX_VIFE_RECORDS as nat, n);
        }
        lemma_same_start_same_parts(s, t, n, 1, n);
    }
}

/// Whether `t` decodes as `s` does whenever it holds the bytes of what `s`
/// decodes to: with a layout demanded, always; with none demanded, if `t` is
/// the start of `s`. Bytes that are added behind could make the layout of the
/// norm fit where it did not.
pub open spec fn reads_alike(s: Seq<u8>, t: Seq<u8>, demand: Option<PlainTextLayout>) -> bool {
    demand is Some || (t.len() <= s.len() && same_start(s, t, t.len() as int))
}

/// A value information is decoded from its own bytes.
pub proof fn lemma_value_information_depends_on_its_bytes(
    s: Seq<u8>,
    t: Seq<u8>,
    demand: Option<PlainTextLayout>,
)
    requires
        value_information_of(s, demand) matches Ok(v) && same_start(s, t, v.size() as int),
        reads_alike(s, t, demand),
    ensures
        value_information_of(t, demand) == value_information_of(s, demand),
        value_information_block_of(t, demand) == value_information_block_of(s, demand),
{
    let v = value_information_of(s, demand).unwrap();
    assert(s[0] == t[0]);
    match demand {
        Some(layout) => {
            lemma_value_information_in_depends_on_its_bytes(s, t, layout);
        },
        None => {
            let norm = PlainTextLayout::NormConform;
            if value_information_in(s, norm) is Ok {
                lemma_value_information_in_depends_on_its_bytes(s, t, norm);
            } else {
                lemma_value_information_in_depends_on_its_bytes(s, t, PlainTextLayout::Common);
                if let Ok(other) = value_information_in(t, norm) {
                    // What fits the start of `s` fits `s`.
                    lemma_value_information_size(t, Some(norm));
                    lemma_value_information_in_depends_on_its_bytes(t, s, norm);
                }
            }
        },
    }
}

/// A VIF that announces an extension and ten extension bytes that each
/// announce one more are no value information block: the chain is too long,
/// whatever follows. This is for a chain directly behind the VIF.
pub proof fn lemma_vife_chain_bound(s: Seq<u8>, demand: Option<PlainTextLayout>)
    requires
        s.len() >= 1 + MAX_VIFE_RECORDS,
        forall|k: int| 0 <= k <= MAX_VIFE_RECORDS ==> has_extension(#[trigger] s[k]),
        !is_plain_text_vif(s[0]) || demand != Some(PlainTextLayout::Common),
    ensures
        value_information_of(s, demand) == Err::<ValueInformationView, ValueInformationError>(
            ValueInformationError::VifeChainTooLong,
        ),
        value_information_block_of(s, demand) == Err::<
            ValueInformationBlockView,
            ValueInformationError,
        >(ValueInformationError::VifeChainTooLong),
{
    assert(has_extension(s[0]) && has_extension(s[1]));
    lemma_flagged_extensions_too_long(s, 1, MAX_VIFE_RECORDS as nat);
    lemma_flagged_extensions_too_long(s, 2, (MAX_VIFE_RECORDS - 1) as nat);
    assert(value_information_in(s, PlainTextLayout::NormConform) == Err::<
        ValueInformationView,
        ValueInformationError,
    >(ValueInformationError::VifeChainTooLong));
    if !is_plain_text_vif(s[0]) {
        assert(value_information_in(s, PlainTextLayout::Common) == Err::<
            ValueInformationView,
            ValueInformationError,
        >(ValueInformationError::VifeChainTooLong));
    }
}

/// The same for a plain-text unit whose name stands between the VIF and the
/// chain: ten extension bytes behind the name that each announce one more are
/// too many. Where no layout is demanded, this is the outcome unless the bytes
/// also read in the layout of the norm.
pub proof fn lemma_vife_chain_bound_behind_name(s: Seq<u8>, demand: Option<PlainTextLayout>)
    requires
        s.len() >= 2,
        s[0] == 0xFC,
        s[1] <= MAX_PLAIN_TEXT_VIF_SIZE,
        s.len() >= 2 + s[1] + MAX_VIFE_RECORDS,
        forall|k: int|
            2 + s[1] <= k < 2 + s[1] + MAX_VIFE_RECORDS ==> has_extension(#[trigger] s[k]),
        demand == Some(PlainTextLayout::Common) || (demand is None && value_information_in(
            s,
            PlainTextLayout::NormConform,
        ) is Err),
    ensures
        value_information_of(s, demand) == Err::<ValueInformationView, ValueInformationError>(
            ValueInformationError::VifeChainTooLong,
        ),
{
    lemma_plain_text_name_reversed(s, 2, s[1] as int);
    lemma_flagged_extensions_too_long(s, 2 + s[1], MAX_VIFE_RECORDS as nat);
    assert(value_information_in(s, PlainTextLayout::Common) == Err::<
        ValueInformationView,
        ValueInformationError,
    >(ValueInformationError::VifeChainTooLong));
}

/// The primary table, row by row, in the notation of masks: for each range of
/// the VIF's low seven bits `n` the unit, the decimal exponent and the
/// quantity of a VIF without extensions. The codes `0x6C`, `0x6D` and `0x74`
/// to `0x78` only label the value and have no exponent; the codes `0x6E` to
/// `0x73` and `0x79` to `0x7B` are not supported.
pub proof fn lemma_primary_table(vif: u8)
    ensures
        ({
            let n = vif & 0x7F;
            let v = ValueInformationView::Primary(vif, Seq::empty());
            let unit = unit_of(v);
            let scale = exponent_of(v).inner;
            let quantity = quantity_of(v);
            let ok_unit = |u: Unit| unit == Ok::<Unit, ValueInformationError>(u);
            let ok_quantity = |q: Quantity| quantity == Ok::<Quantity, ValueInformationError>(q);
            &&& 0x00 <= n <= 0x07 ==> ok_unit(Unit::WattHour) && scale == Some(
                ((n & 0b111) - 3) as isize,
            ) && ok_quantity(Quantity::Energy)
            &&& 0x08 <= n <= 0x0F ==> ok_unit(Unit::Joul) && scale == Some((n & 0b111) as isize)
                && ok_quantity(Quantity::Energy)
            &&& 0x10 <= n <= 0x17 ==> ok_unit(Unit::CubicMeter) && scale == Some(
                ((n & 0b111) - 6) as isize,
            ) && ok_quantity(Quantity::Volume)
            &&& 0x18 <= n <= 0x1F ==> ok_unit(Unit::Kilogram) && scale == Some(
                ((n & 0b111) - 3) as isize,
            ) && ok_quantity(Quantity::Mass)
            &&& (n == 0x20 || n == 0x24) ==> ok_unit(Unit::Seconds) && scale == Some(0isize)
                && ok_quantity(Quantity::Duration)
            &&& (n == 0x21 || n == 0x25) ==> ok_unit(Unit::Minutes) && scale == Some(0isize)
                && ok_quantity(Quantity::Duration)
            &&& (n == 0x22 || n == 0x26) ==> ok_unit(Unit::Hours) && scale == Some(0isize)
                && ok_quantity(Quantity::Duration)
            &&& (n == 0x23 || n == 0x27) ==> ok_unit(Unit::Days) && scale == Some(0isize)
                && ok_quantity(Quantity::Duration)
            &&& 0x28 <= n <= 0x2F ==> ok_unit(Unit::Watt) && scale == Some(
                ((n & 0b111) - 3) as isize,
            ) && ok_quantity(Quantity::Power)
            &&& 0x30 <= n <= 0x37 ==> ok_unit(Unit::JoulPerHour) && scale == Some(
                (n & 0b111) as isize,
            ) && ok_quantity(Quantity::Power)
            &&& 0x38 <= n <= 0x3F ==> ok_unit(Unit::CubicMeterPerHour) && scale == Some(
                ((n & 0b111) - 6) as isize,
            ) && ok_quantity(Quantity::VolumeFlow)
            &&& 0x40 <= n <= 0x47 ==> ok_unit(Unit::CubicMeterPerMinute) && scale == Some(
                ((n & 0b111) - 7) as isize,
            ) && ok_quantity(Quantity::VolumeFlow)
            &&& 0x48 <= n <= 0x4F ==> ok_unit(Unit::CubicMeterPerSecond) && scale == Some(
                ((n & 0b111) - 9) as isize,
            ) && ok_quantity(Quantity::VolumeFlow)
            &&& 0x50 <= n <= 0x57 ==> ok_unit(Unit::KilogramPerHour) && scale == Some(
                ((n & 0b111) - 3) as isize,
            ) && ok_quantity(Quantity::MassFlow)
            &&& (0x58 <= n <= 0x5F || 0x64 <= n <= 0x67) ==> ok_unit(Unit::Celsius) && scale
                == Some(((n & 0b11) - 3) as isize) && ok_quantity(Quantity::Temperature)
            &&& 0x60 <= n <= 0x63 ==> ok_unit(Unit::Kelvin) && scale == Some(
                ((n & 0b11) - 3) as isize,
            ) && ok_quantity(Quantity::Temperature)
            &&& 0x68 <= n <= 0x6B ==> ok_unit(Unit::Bar) && scale == Some(
                ((n & 0b11) - 3) as isize,
            ) && ok_quantity(Quantity::Pressure)
            &&& 0x6C <= n <= 0x6D ==> ok_unit(Unit::TimePoint) && scale is None && ok_quantity(
                Quantity::TimePoint,
            ) && primary_label(n) is Some
            &&& 0x74 <= n <= 0x77 ==> ok_unit(Unit::ActualityDuration) && scale is None
                && ok_quantity(Quantity::Duration) && primary_label(n) is Some
            &&& n == 0x78 ==> ok_unit(Unit::FabricationNumber) && scale is None && ok_quantity(
                Quantity::IdentificationNumber,
            ) && primary_label(n) is Some
            &&& (0x6E <= n <= 0x73 || 0x79 <= n <= 0x7B) ==> unit == Err::<
                Unit,
                ValueInformationError,
            >(ValueInformationError::UnsupportedVif) && quantity == Err::<
                Quantity,
                ValueInformationError,
            >(ValueInformationError::UnsupportedVif)
        }),
{
    lemma_masks_are_remainders(vif);
    lemma_masks_are_remainders(vif & 0x7F);
}

/// A VIF of the primary table without extension decodes to what the table
/// says of it, or fails as not supported where the table says nothing.
pub proof fn lemma_primary_block(vif: u8, demand: Option<PlainTextLayout>)
    requires
        vif <= 0x7B,
    ensures
        value_information_of(seq![vif], demand) == Ok::<
            ValueInformationView,
            ValueInformationError,
        >(ValueInformationView::Primary(vif, Seq::empty())),
        match value_information_block_of(seq![vif], demand) {
            Ok(block) => {
                &&& primary_unit(vif) == Some(block.unit)
                &&& block.exponent.inner == primary_scale(vif)
                &&& primary_quantity(vif) == Some(block.quantity)
                &&& block.units == unit_factors(block.unit)
                &&& block.labels == labelled(Set::empty(), primary_label(vif))
                &&& block.size() == 1
            },
            Err(e) => e == ValueInformationError::UnsupportedVif && primary_unit(vif) is None,
        },
{
    let s = seq![vif];
    let none = Seq::<u8>::empty();
    let v = ValueInformationView::Primary(vif, none);
    assert(s.len() == 1 && s[0] == vif);
    assert(low7(vif) == vif);
    assert(chain_len_after(vif, s, 1, MAX_VIFE_RECORDS as nat) == Ok::<nat, ChainError>(0));
    assert(s.subrange(1, 1) =~= none);
    assert(value_information_in(s, PlainTextLayout::NormConform) == Ok::<
        ValueInformationView,
        ValueInformationError,
    >(v));
    assert(value_information_in(s, PlainTextLayout::Common) == Ok::<
        ValueInformationView,
        ValueInformationError,
    >(v));
    lemma_quantity_where_unit(v);
    if let Ok(unit) = unit_of(v) {
        assert(unit_factors(unit).len() <= 2);
    }
}

/// A block with a plain-text unit carries the label of one, and its VIF gives
/// no factor to the unit vector: the vector holds what the extensions
/// appended and is empty where there is no extension.
pub proof fn lemma_plain_text_block(s: Seq<u8>, demand: Option<PlainTextLayout>)
    ensures
        value_information_block_of(s, demand) matches Ok(block) ==> (block.value_information
            is PlainText <==> is_plain_text_vif(s[0])),
        value_information_block_of(s, demand) matches Ok(block) ==> block.value_information
            is PlainText ==> {
            &&& block.unit == Unit::PlainText
            &&& block.quantity == Quantity::PlainText
            &&& block.labels.contains(ValueLabel::PlainTextUnit)
            &&& block.units == apply_extensions(
                Effective {
                    units: Seq::empty(),
                    exponent: Exponent { inner: None },
                    offset_exponent: Exponent { inner: None },
                    labels: set![ValueLabel::PlainTextUnit],
                },
                block.value_information.extensions(),
                0,
            ).units
            &&& block.value_information.extensions().len() == 0 ==> block.units.len() == 0
        },
{
    if let Ok(block) = value_information_block_of(s, demand) {
        if block.value_information is PlainText {
            let start = Effective {
                units: Seq::empty(),
                exponent: Exponent { inner: None },
                offset_exponent: Exponent { inner: None },
                labels: set![ValueLabel::PlainTextUnit],
            };
            assert(unit_factors(Unit::PlainText) =~= Seq::<UnitFactor>::empty());
            lemma_labels_only_grow(
                start,
                block.value_information.extensions(),
                0,
                ValueLabel::PlainTextUnit,
            );
        }
    }
}

impl ValueInformationBlock {
    /// The number of bytes that the block takes on the wire.
    pub fn get_size(&self) -> (size: usize)
        ensures
            size == self@.size(),
            1 <= size <= 1 + MAX_VIFE_RECORDS + 1 + MAX_PLAIN_TEXT_VIF_SIZE,
    {
        self.value_information.get_size()
    }

    /// Works out what a value information whose VIF was `vif` says of its
    /// value.
    pub fn from_value_information(vif: u8, value_information: ValueInformation) -> (r: Result<
        ValueInformationBlock,
        ValueInformationError,
    >)
        ensures
            match r {
                Ok(block) => block_of_parts(vif, value_information@) == Ok::<
                    ValueInformationBlockView,
                    ValueInformationError,
                >(block@),
                Err(e) => block_of_parts(vif, value_information@) == Err::<
                    ValueInformationBlockView,
                    ValueInformationError,
                >(e),
            },
    {
        proof {
            lemma_quantity_where_unit(value_information@);
        }
        let unit: Unit = match Unit::try_from(&value_information) {
            Ok(unit) => unit,
            Err(_) => {
                return Err(ValueInformationError::UnsupportedVif);
            },
        };
        let quantity: Quantity = match Quantity::try_from(&value_information) {
            Ok(quantity) => quantity,
            Err(_) => {
                return Err(ValueInformationError::UnsupportedVif);
            },
        };
        let said = value_information.resolve();
        if !said.fits {
            return Err(ValueInformationError::InvalidValueInformation);
        }
        Ok(
            ValueInformationBlock {
                vif,
                value_information,
                unit,
                units: said.units,
                exponent: said.exponent,
                offset_exponent: said.offset_exponent,
                labels: said.labels,
                quantity,
            },
        )
    }

    /// Decodes the value information block at the start of `data`, the name of
    /// a plain-text unit looked for where `demand` says, or in both places,
    /// that of the norm first, where it says nothing.
    pub fn parse_with(data: &[u8], demand: Option<PlainTextLayout>) -> (r: Result<
        ValueInformationBlock,
        ValueInformationError,
    >)
        ensures
            match r {
                Ok(block) => value_information_block_of(data@, demand) == Ok::<
                    ValueInformationBlockView,
                    ValueInformationError,
                >(block@),
                Err(e) => value_information_block_of(data@, demand) == Err::<
                    ValueInformationBlockView,
                    ValueInformationError,
                >(e),
            },
    {
        let value_information = match ValueInformation::parse_with(data, demand) {
            Ok(v) => v,
            Err(e) => {
                return Err(e);
            },
        };
        proof {
            lemma_value_information_size(data@, demand);
        }
        ValueInformationBlock::from_value_information(data[0], value_information)
    }

    /// Decodes the value information block at the start of `data`. The name of
    /// a plain-text unit is looked for where `layout` says, and nowhere else.
    pub fn parse(data: &[u8], layout: PlainTextLayout) -> (r: Result<
        ValueInformationBlock,
        ValueInformationError,
    >)
        ensures
            match r {
                Ok(block) => value_information_block_of(data@, Some(layout)) == Ok::<
                    ValueInformationBlockView,
                    ValueInformationError,
                >(block@),
                Err(e) => value_information_block_of(data@, Some(layout)) == Err::<
                    ValueInformationBlockView,
                    ValueInformationError,
                >(e),
            },
    {
        ValueInformationBlock::parse_with(data, Some(layout))
    }
}

impl vstd::std_specs::convert::TryFromSpecImpl<&[u8]> for ValueInformationBlock {
    /// The result holds vectors that no spec function can build, so the
    /// outcome is stated by the `ensures` of `try_from` instead.
    open spec fn obeys_try_from_spec() -> bool {
        false
    }

    open spec fn try_from_spec(data: &[u8]) -> Result<Self, ValueInformationError> {
        Err(ValueInformationError::InvalidValueInformation)
    }
}

impl TryFrom<&[u8]> for ValueInformationBlock {
    type Error = ValueInformationError;

    /// Decodes the value information block at the start of `data`, the name of
    /// a plain-text unit looked for behind the extensions and, where that
    /// fails, directly behind the VIF.
    fn try_from(data: &[u8]) -> (r: Result<Self, ValueInformationError>)
        ensures
            match r {
                Ok(block) => value_information_block_of(data@, None) == Ok::<
                    ValueInformationBlockView,
                    ValueInformationError,
                >(block@),
                Err(e) => value_information_block_of(data@, None) == Err::<
                    ValueInformationBlockView,
                    ValueInformationError,
                >(e),
            },
    {
        ValueInformationBlock::parse_with(data, None)
    }
}

} // verus!
