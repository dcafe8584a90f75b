//! Data records: the decimal exponent and the quantity of a value, one record,
//! and the stream of records in a variable data block.
use crate::bits::{has_extension, low7, without_extension};
use crate::extension::{flagged_run, same_start};
use crate::radix::{byte_fields, lemma_le_number_short};
use crate::user_data::data_information::{
    data_information_block_of, lemma_block_depends_on_its_bytes, lemma_dife_chain_bound,
    DataInformationBlock,
    DataInformationBlockView, DataInformationError, FunctionField, MAX_DIFE_RECORDS,
};
use crate::user_data::payload::{
    bcd_pair, lemma_payload_depends_on_its_bytes, payload_of, DataValue,
};
use crate::user_data::unit_vector::{UnitFactor, UnitVector};
use crate::user_data::value_information::{
    extension_unit, lemma_block_size, lemma_value_information_depends_on_its_bytes,
    lemma_vife_chain_bound, per, primary_unit, reads_alike, said_by, unit_of,
    value_information_in,
    value_information_block_of, PlainTextLayout, Unit, VIFExtension, ValueInformation,
    ValueInformationBlock, ValueInformationBlockView, ValueInformationError,
    ValueInformationView, MAX_VIFE_RECORDS,
};
use crate::user_data::value_label::{LabelSet, ValueLabel};
use crate::user_data::{record_views, DataRecords};
use vstd::prelude::*;
use vstd::slice::slice_subrange;

verus! {

/// A decimal exponent: a value counts in units of ten to that power. `inner`
/// is `None` where no scale is defined for the value.
#[derive(Debug, PartialEq, Eq, Clone, Copy, Structural)]
pub struct Exponent {
    pub inner: Option<isize>,
}

impl vstd::std_specs::convert::FromSpecImpl<isize> for Exponent {
    open spec fn obeys_from_spec() -> bool {
        true
    }

    open spec fn from_spec(value: isize) -> Self {
        Exponent { inner: Some(value) }
    }
}

impl From<isize> for Exponent {
    fn from(value: isize) -> (r: Self)
        ensures
            r == (Exponent { inner: Some(value) }),
    {
        Exponent { inner: Some(value) }
    }
}

/// What kind of thing a value measures.
#[derive(Debug, Copy, PartialEq, Eq, Clone, Structural)]
pub enum Quantity {
    Volume,
    Energy,
    ManufacturerSpecific,
    ErrorFlags,
    TimePoint,
    VolumeFlow,
    MassFlow,
    Mass,
    Temperature,
    FlowTemperature,
    TemperatureDifference,
    BinaryDigitalInput,
    RelativeHumidity,
    AveragingDuration,
    ExternalTemperature,
    Duration,
    Power,
    Pressure,
    IdentificationNumber,
    PlainText,
    BinaryDigitalOutput,
    Currency,
    Voltage,
    Current,
    Dimensionless,
    DeviceParameter,
}

/// The decimal exponent that the primary table gives to the code `k`, the low
/// seven bits of the VIF: the value counts in units of ten to that power.
/// Codes that only label a value have none.
pub open spec fn primary_scale(k: u8) -> Option<isize> {
    if 0x00 <= k <= 0x07 || 0x18 <= k <= 0x1F || 0x28 <= k <= 0x2F || 0x50 <= k <= 0x57 {
        Some((k % 8 - 3) as isize)
    } else if 0x08 <= k <= 0x0F || 0x30 <= k <= 0x37 {
        Some((k % 8) as isize)
    } else if 0x10 <= k <= 0x17 || 0x38 <= k <= 0x3F {
        Some((k % 8 - 6) as isize)
    } else if 0x20 <= k <= 0x27 {
        Some(0isize)
    } else if 0x40 <= k <= 0x47 {
        Some((k % 8 - 7) as isize)
    } else if 0x48 <= k <= 0x4F {
        Some((k % 8 - 9) as isize)
    } else if 0x58 <= k <= 0x6B {
        Some((k % 4 - 3) as isize)
    } else {
        None
    }
}

/// Looks `k` up in [`primary_scale`].
pub fn find_primary_scale(k: u8) -> (r: Option<isize>)
    ensures
        r == primary_scale(k),
{
    match k {
        0x00..=0x07 | 0x18..=0x1F | 0x28..=0x2F | 0x50..=0x57 => Some((k % 8) as isize - 3),
        0x08..=0x0F | 0x30..=0x37 => Some((k % 8) as isize),
        0x10..=0x17 | 0x38..=0x3F => Some((k % 8) as isize - 6),
        0x20..=0x27 => Some(0),
        0x40..=0x47 => Some((k % 8) as isize - 7),
        0x48..=0x4F => Some((k % 8) as isize - 9),
        0x58..=0x6B => Some((k % 4) as isize - 3),
        _ => None,
    }
}

/// The decimal exponent of an entry of the extended tables, if it has one.
pub open spec fn extension_scale(e: VIFExtension) -> Option<isize> {
    match e {
        VIFExtension::CreditOfCurrencyUnits(n) => Some((n - 3) as isize),
        VIFExtension::DebitOfCurrencyUnits(n) => Some((n - 3) as isize),
        VIFExtension::AccessNumber
        | VIFExtension::Medium
        | VIFExtension::Manufacturer
        | VIFExtension::ParameterSetIdentification
        | VIFExtension::ModelVersion
        | VIFExtension::HardwareVersion
        | VIFExtension::FirmwareVersion
        | VIFExtension::SoftwareVersion
        | VIFExtension::CustomerLocation
        | VIFExtension::Customer
        | VIFExtension::AccessCodeUser
        | VIFExtension::AccessCodeOperator
        | VIFExtension::AccessCodeSystemOperator
        | VIFExtension::AccessCodeDeveloper
        | VIFExtension::Password
        | VIFExtension::ErrorFlags
        | VIFExtension::ErrorMask
        | VIFExtension::Reserved
        | VIFExtension::DigitalOutput
        | VIFExtension::DigitalInput
        | VIFExtension::BaudRate
        | VIFExtension::ResponseDelayTime
        | VIFExtension::Retry
        | VIFExtension::FirstStorage
        | VIFExtension::LastStorage
        | VIFExtension::SizeOfStorageBlock => None,
        VIFExtension::StorageIntervalSecondsToDays(_)
        | VIFExtension::StorageIntervalMonths
        | VIFExtension::StorageIntervalYears
        | VIFExtension::DurationSinceLastReadout(_) => Some(0isize),
        VIFExtension::StartOfTariff => None,
        VIFExtension::DurationOfTariff(_)
        | VIFExtension::PeriodOfTariff(_)
        | VIFExtension::PeriodOfTarrifMonths
        | VIFExtension::PeriodOfTTariffYears => Some(0isize),
        VIFExtension::Dimensionless => None,
        VIFExtension::Volts(n) => Some((n - 9) as isize),
        VIFExtension::Ampere(n) => Some((n - 12) as isize),
        VIFExtension::ResetCounter
        | VIFExtension::CumulationCounter
        | VIFExtension::ControlSignal
        | VIFExtension::DayOfWeek
        | VIFExtension::WeekNumber
        | VIFExtension::TimePointOfDay
        | VIFExtension::StateOfParameterActivation
        | VIFExtension::SpecialSupervision => None,
        VIFExtension::DurationSinceLastCumulation(_)
        | VIFExtension::OperatingTimeBattery(_) => Some(0isize),
        VIFExtension::DateAndTimeOfBatteryChange => None,
        VIFExtension::EnergyMWh(n) => Some((n - 1) as isize),
        VIFExtension::EnergyGJ(n) => Some((n - 1) as isize),
        VIFExtension::VolumeM3(n) => Some((n + 2) as isize),
        VIFExtension::MassTons(n) => Some((n + 2) as isize),
        VIFExtension::VolumeFeet3Tenth
        | VIFExtension::VolumeAmericanGallonTenth => Some(-1isize),
        VIFExtension::VolumeAmericanGallon => Some(0isize),
        VIFExtension::VolumeFlowAmericanGallonPerMinuteThousandth => Some(-3isize),
        VIFExtension::VolumeFlowAmericanGallonPerMinute
        | VIFExtension::VolumeFlowAmericanGallonPerHour => Some(0isize),
        VIFExtension::PowerMW(n) => Some((n - 1) as isize),
        VIFExtension::PowerGJH(n) => Some((n - 1) as isize),
        VIFExtension::FlowTemperature(n) => Some((n - 3) as isize),
        VIFExtension::ReturnTemperature(n) => Some((n - 3) as isize),
        VIFExtension::TemperatureDifference(n) => Some((n - 3) as isize),
        VIFExtension::ExternalTemperature(n) => Some((n - 3) as isize),
        VIFExtension::ColdWarmTemperatureLimitFarenheit(n) => Some((n - 3) as isize),
        VIFExtension::ColdWarmTemperatureLimitCelsius(n) => Some((n - 3) as isize),
        VIFExtension::CumulativeCountMaxPower(n) => Some((n - 3) as isize),
    }
}

/// Computes [`extension_scale`].
pub fn find_extension_scale(e: &VIFExtension) -> (r: Option<isize>)
    ensures
        r == extension_scale(*e),
{
    match e {
        VIFExtension::CreditOfCurrencyUnits(n) => Some(*n as isize - 3),
        VIFExtension::DebitOfCurrencyUnits(n) => Some(*n as isize - 3),
        VIFExtension::AccessNumber
        | VIFExtension::Medium
        | VIFExtension::Manufacturer
        | VIFExtension::ParameterSetIdentification
        | VIFExtension::ModelVersion
        | VIFExtension::HardwareVersion
        | VIFExtension::FirmwareVersion
        | VIFExtension::SoftwareVersion
        | VIFExtension::CustomerLocation
        | VIFExtension::Customer
        | VIFExtension::AccessCodeUser
        | VIFExtension::AccessCodeOperator
        | VIFExtension::AccessCodeSystemOperator
        | VIFExtension::AccessCodeDeveloper
        | VIFExtension::Password
        | VIFExtension::ErrorFlags
        | VIFExtension::ErrorMask
        | VIFExtension::Reserved
        | VIFExtension::DigitalOutput
        | VIFExtension::DigitalInput
        | VIFExtension::BaudRate
        | VIFExtension::ResponseDelayTime
        | VIFExtension::Retry
        | VIFExtension::FirstStorage
        | VIFExtension::LastStorage
        | VIFExtension::SizeOfStorageBlock => None,
        VIFExtension::StorageIntervalSecondsToDays(_)
        | VIFExtension::StorageIntervalMonths
        | VIFExtension::StorageIntervalYears
        | VIFExtension::DurationSinceLastReadout(_) => Some(0),
        VIFExtension::StartOfTariff => None,
        VIFExtension::DurationOfTariff(_)
        | VIFExtension::PeriodOfTariff(_)
        | VIFExtension::PeriodOfTarrifMonths
        | VIFExtension::PeriodOfTTariffYears => Some(0),
        VIFExtension::Dimensionless => None,
        VIFExtension::Volts(n) => Some(*n as isize - 9),
        VIFExtension::Ampere(n) => Some(*n as isize - 12),
        VIFExtension::ResetCounter
        | VIFExtension::CumulationCounter
        | VIFExtension::ControlSignal
        | VIFExtension::DayOfWeek
        | VIFExtension::WeekNumber
        | VIFExtension::TimePointOfDay
        | VIFExtension::StateOfParameterActivation
        | VIFExtension::SpecialSupervision => None,
        VIFExtension::DurationSinceLastCumulation(_)
        | VIFExtension::OperatingTimeBattery(_) => Some(0),
        VIFExtension::DateAndTimeOfBatteryChange => None,
        VIFExtension::EnergyMWh(n) => Some(*n as isize - 1),
        VIFExtension::EnergyGJ(n) => Some(*n as isize - 1),
        VIFExtension::VolumeM3(n) => Some(*n as isize + 2),
        VIFExtension::MassTons(n) => Some(*n as isize + 2),
        VIFExtension::VolumeFeet3Tenth
        | VIFExtension::VolumeAmericanGallonTenth => Some(-1),
        VIFExtension::VolumeAmericanGallon => Some(0),
        VIFExtension::VolumeFlowAmericanGallonPerMinuteThousandth => Some(-3),
        VIFExtension::VolumeFlowAmericanGallonPerMinute
        | VIFExtension::VolumeFlowAmericanGallonPerHour => Some(0),
        VIFExtension::PowerMW(n) => Some(*n as isize - 1),
        VIFExtension::PowerGJH(n) => Some(*n as isize - 1),
        VIFExtension::FlowTemperature(n) => Some(*n as isize - 3),
        VIFExtension::ReturnTemperature(n) => Some(*n as isize - 3),
        VIFExtension::TemperatureDifference(n) => Some(*n as isize - 3),
        VIFExtension::ExternalTemperature(n) => Some(*n as isize - 3),
        VIFExtension::ColdWarmTemperatureLimitFarenheit(n) => Some(*n as isize - 3),
        VIFExtension::ColdWarmTemperatureLimitCelsius(n) => Some(*n as isize - 3),
        VIFExtension::CumulativeCountMaxPower(n) => Some(*n as isize - 3),
    }
}

/// The quantity that the primary table gives to the code `k`, the low seven
/// bits of the VIF. Codes without an entry measure nothing known.
pub open spec fn primary_quantity(k: u8) -> Option<Quantity> {
    if 0x00 <= k <= 0x0F {
        Some(Quantity::Energy)
    } else if 0x10 <= k <= 0x17 {
        Some(Quantity::Volume)
    } else if 0x18 <= k <= 0x1F {
        Some(Quantity::Mass)
    } else if 0x20 <= k <= 0x27 || 0x74 <= k <= 0x77 {
        Some(Quantity::Duration)
    } else if 0x28 <= k <= 0x37 {
        Some(Quantity::Power)
    } else if 0x38 <= k <= 0x4F {
        Some(Quantity::VolumeFlow)
    } else if 0x50 <= k <= 0x57 {
        Some(Quantity::MassFlow)
    } else if 0x58 <= k <= 0x67 {
        Some(Quantity::Temperature)
    } else if 0x68 <= k <= 0x6B {
        Some(Quantity::Pressure)
    } else if 0x6C <= k <= 0x6D {
        Some(Quantity::TimePoint)
    } else if k == 0x78 {
        Some(Quantity::IdentificationNumber)
    } else {
        None
    }
}

/// Looks `k` up in [`primary_quantity`].
pub fn find_primary_quantity(k: u8) -> (r: Option<Quantity>)
    ensures
        r == primary_quantity(k),
{
    match k {
        0x00..=0x0F => Some(Quantity::Energy),
        0x10..=0x17 => Some(Quantity::Volume),
        0x18..=0x1F => Some(Quantity::Mass),
        0x20..=0x27 | 0x74..=0x77 => Some(Quantity::Duration),
        0x28..=0x37 => Some(Quantity::Power),
        0x38..=0x4F => Some(Quantity::VolumeFlow),
        0x50..=0x57 => Some(Quantity::MassFlow),
        0x58..=0x67 => Some(Quantity::Temperature),
        0x68..=0x6B => Some(Quantity::Pressure),
        0x6C..=0x6D => Some(Quantity::TimePoint),
        0x78 => Some(Quantity::IdentificationNumber),
        _ => None,
    }
}

/// The quantity of an entry of the extended tables. A reserved entry has none.
pub open spec fn extension_quantity(e: VIFExtension) -> Option<Quantity> {
    match e {
        VIFExtension::CreditOfCurrencyUnits(_)
        | VIFExtension::DebitOfCurrencyUnits(_) => Some(Quantity::Currency),
        VIFExtension::AccessNumber
        | VIFExtension::Medium
        | VIFExtension::Manufacturer
        | VIFExtension::ParameterSetIdentification
        | VIFExtension::ModelVersion
        | VIFExtension::HardwareVersion
        | VIFExtension::FirmwareVersion
        | VIFExtension::SoftwareVersion
        | VIFExtension::CustomerLocation
        | VIFExtension::Customer
        | VIFExtension::AccessCodeUser
        | VIFExtension::AccessCodeOperator
        | VIFExtension::AccessCodeSystemOperator
        | VIFExtension::AccessCodeDeveloper
        | VIFExtension::Password => Some(Quantity::DeviceParameter),
        VIFExtension::ErrorFlags
        | VIFExtension::ErrorMask => Some(Quantity::ErrorFlags),
        VIFExtension::Reserved => None,
        VIFExtension::DigitalOutput => Some(Quantity::BinaryDigitalOutput),
        VIFExtension::DigitalInput => Some(Quantity::BinaryDigitalInput),
        VIFExtension::BaudRate
        | VIFExtension::ResponseDelayTime
        | VIFExtension::Retry
        | VIFExtension::FirstStorage
        | VIFExtension::LastStorage
        | VIFExtension::SizeOfStorageBlock => Some(Quantity::DeviceParameter),
        VIFExtension::StorageIntervalSecondsToDays(_)
        | VIFExtension::StorageIntervalMonths
        | VIFExtension::StorageIntervalYears
        | VIFExtension::DurationSinceLastReadout(_) => Some(Quantity::Duration),
        VIFExtension::StartOfTariff => Some(Quantity::TimePoint),
        VIFExtension::DurationOfTariff(_)
        | VIFExtension::PeriodOfTariff(_)
        | VIFExtension::PeriodOfTarrifMonths
        | VIFExtension::PeriodOfTTariffYears => Some(Quantity::Duration),
        VIFExtension::Dimensionless => Some(Quantity::Dimensionless),
        VIFExtension::Volts(_) => Some(Quantity::Voltage),
        VIFExtension::Ampere(_) => Some(Quantity::Current),
        VIFExtension::ResetCounter
        | VIFExtension::CumulationCounter
        | VIFExtension::ControlSignal
        | VIFExtension::DayOfWeek
        | VIFExtension::WeekNumber => Some(Quantity::DeviceParameter),
        VIFExtension::TimePointOfDay => Some(Quantity::TimePoint),
        VIFExtension::StateOfParameterActivation
        | VIFExtension::SpecialSupervision => Some(Quantity::DeviceParameter),
        VIFExtension::DurationSinceLastCumulation(_)
        | VIFExtension::OperatingTimeBattery(_) => Some(Quantity::Duration),
        VIFExtension::DateAndTimeOfBatteryChange => Some(Quantity::TimePoint),
        VIFExtension::EnergyMWh(_)
        | VIFExtension::EnergyGJ(_) => Some(Quantity::Energy),
        VIFExtension::VolumeM3(_) => Some(Quantity::Volume),
        VIFExtension::MassTons(_) => Some(Quantity::Mass),
        VIFExtension::VolumeFeet3Tenth
        | VIFExtension::VolumeAmericanGallonTenth
        | VIFExtension::VolumeAmericanGallon => Some(Quantity::Volume),
        VIFExtension::VolumeFlowAmericanGallonPerMinuteThousandth
        | VIFExtension::VolumeFlowAmericanGallonPerMinute
        | VIFExtension::VolumeFlowAmericanGallonPerHour => Some(Quantity::VolumeFlow),
        VIFExtension::PowerMW(_)
        | VIFExtension::PowerGJH(_) => Some(Quantity::Power),
        VIFExtension::FlowTemperature(_) => Some(Quantity::FlowTemperature),
        VIFExtension::ReturnTemperature(_) => Some(Quantity::Temperature),
        VIFExtension::TemperatureDifference(_) => Some(Quantity::TemperatureDifference),
        VIFExtension::ExternalTemperature(_) => Some(Quantity::ExternalTemperature),
        VIFExtension::ColdWarmTemperatureLimitFarenheit(_)
        | VIFExtension::ColdWarmTemperatureLimitCelsius(_) => Some(Quantity::Temperature),
        VIFExtension::CumulativeCountMaxPower(_) => Some(Quantity::Power),
    }
}

/// Computes [`extension_quantity`].
pub fn find_extension_quantity(e: &VIFExtension) -> (r: Option<Quantity>)
    ensures
        r == extension_quantity(*e),
{
    match e {
        VIFExtension::CreditOfCurrencyUnits(_)
        | VIFExtension::DebitOfCurrencyUnits(_) => Some(Quantity::Currency),
        VIFExtension::AccessNumber
        | VIFExtension::Medium
        | VIFExtension::Manufacturer
        | VIFExtension::ParameterSetIdentification
        | VIFExtension::ModelVersion
        | VIFExtension::HardwareVersion
        | VIFExtension::FirmwareVersion
        | VIFExtension::SoftwareVersion
        | VIFExtension::CustomerLocation
        | VIFExtension::Customer
        | VIFExtension::AccessCodeUser
        | VIFExtension::AccessCodeOperator
        | VIFExtension::AccessCodeSystemOperator
        | VIFExtension::AccessCodeDeveloper
        | VIFExtension::Password => Some(Quantity::DeviceParameter),
        VIFExtension::ErrorFlags
        | VIFExtension::ErrorMask => Some(Quantity::ErrorFlags),
        VIFExtension::Reserved => None,
        VIFExtension::DigitalOutput => Some(Quantity::BinaryDigitalOutput),
        VIFExtension::DigitalInput => Some(Quantity::BinaryDigitalInput),
        VIFExtension::BaudRate
        | VIFExtension::ResponseDelayTime
        | VIFExtension::Retry
        | VIFExtension::FirstStorage
        | VIFExtension::LastStorage
        | VIFExtension::SizeOfStorageBlock => Some(Quantity::DeviceParameter),
        VIFExtension::StorageIntervalSecondsToDays(_)
        | VIFExtension::StorageIntervalMonths
        | VIFExtension::StorageIntervalYears
        | VIFExtension::DurationSinceLastReadout(_) => Some(Quantity::Duration),
        VIFExtension::StartOfTariff => Some(Quantity::TimePoint),
        VIFExtension::DurationOfTariff(_)
        | VIFExtension::PeriodOfTariff(_)
        | VIFExtension::PeriodOfTarrifMonths
        | VIFExtension::PeriodOfTTariffYears => Some(Quantity::Duration),
        VIFExtension::Dimensionless => Some(Quantity::Dimensionless),
        VIFExtension::Volts(_) => Some(Quantity::Voltage),
        VIFExtension::Ampere(_) => Some(Quantity::Current),
        VIFExtension::ResetCounter
        | VIFExtension::CumulationCounter
        | VIFExtension::ControlSignal
        | VIFExtension::DayOfWeek
        | VIFExtension::WeekNumber => Some(Quantity::DeviceParameter),
        VIFExtension::TimePointOfDay => Some(Quantity::TimePoint),
        VIFExtension::StateOfParameterActivation
        | VIFExtension::SpecialSupervision => Some(Quantity::DeviceParameter),
        VIFExtension::DurationSinceLastCumulation(_)
        | VIFExtension::OperatingTimeBattery(_) => Some(Quantity::Duration),
        VIFExtension::DateAndTimeOfBatteryChange => Some(Quantity::TimePoint),
        VIFExtension::EnergyMWh(_)
        | VIFExtension::EnergyGJ(_) => Some(Quantity::Energy),
        VIFExtension::VolumeM3(_) => Some(Quantity::Volume),
        VIFExtension::MassTons(_) => Some(Quantity::Mass),
        VIFExtension::VolumeFeet3Tenth
        | VIFExtension::VolumeAmericanGallonTenth
        | VIFExtension::VolumeAmericanGallon => Some(Quantity::Volume),
        VIFExtension::VolumeFlowAmericanGallonPerMinuteThousandth
        | VIFExtension::VolumeFlowAmericanGallonPerMinute
        | VIFExtension::VolumeFlowAmericanGallonPerHour => Some(Quantity::VolumeFlow),
        VIFExtension::PowerMW(_)
        | VIFExtension::PowerGJH(_) => Some(Quantity::Power),
        VIFExtension::FlowTemperature(_) => Some(Quantity::FlowTemperature),
        VIFExtension::ReturnTemperature(_) => Some(Quantity::Temperature),
        VIFExtension::TemperatureDifference(_) => Some(Quantity::TemperatureDifference),
        VIFExtension::ExternalTemperature(_) => Some(Quantity::ExternalTemperature),
        VIFExtension::ColdWarmTemperatureLimitFarenheit(_)
        | VIFExtension::ColdWarmTemperatureLimitCelsius(_) => Some(Quantity::Temperature),
        VIFExtension::CumulativeCountMaxPower(_) => Some(Quantity::Power),
    }
}

/// The quantity that a value information measures, or why it measures none
/// that is known.
pub open spec fn quantity_of(v: ValueInformationView) -> Result<Quantity, ValueInformationError> {
    match v {
        ValueInformationView::Primary(x, _) => match primary_quantity(low7(x)) {
            Some(quantity) => Ok(quantity),
            None => Err(ValueInformationError::UnsupportedVif),
        },
        ValueInformationView::PlainText(_, _, _) => Ok(Quantity::PlainText),
        ValueInformationView::Extended(e, _) => match extension_quantity(e) {
            Some(quantity) => Ok(quantity),
            None => Err(ValueInformationError::UnsupportedVif),
        },
        ValueInformationView::Any(_) => Err(ValueInformationError::UnsupportedVif),
        ValueInformationView::ManufacturerSpecific(_) => Ok(Quantity::ManufacturerSpecific),
    }
}

impl vstd::std_specs::convert::TryFromSpecImpl<&ValueInformation> for Quantity {
    open spec fn obeys_try_from_spec() -> bool {
        true
    }

    open spec fn try_from_spec(value_information: &ValueInformation) -> Result<
        Self,
        ValueInformationError,
    > {
        quantity_of(value_information@)
    }
}

impl TryFrom<&ValueInformation> for Quantity {
    type Error = ValueInformationError;

    /// The quantity that `value_information` measures.
    fn try_from(value_information: &ValueInformation) -> (r: Result<Self, ValueInformationError>)
        ensures
            r == quantity_of(value_information@),
    {
        let found: Option<Quantity> = match value_information {
            ValueInformation::Primary(x, _) => find_primary_quantity(without_extension(*x)),
            ValueInformation::PlainText(_, _, _) => Some(Quantity::PlainText),
            ValueInformation::Extended(e, _) => find_extension_quantity(e),
            ValueInformation::Any(_) => None,
            ValueInformation::ManufacturerSpecific(_) => Some(Quantity::ManufacturerSpecific),
        };
        match found {
            Some(quantity) => Ok(quantity),
            None => Err(ValueInformationError::UnsupportedVif),
        }
    }
}

/// A value information has a quantity exactly when it has a unit.
pub proof fn lemma_quantity_where_unit(v: ValueInformationView)
    ensures
        quantity_of(v) is Ok <==> unit_of(v) is Ok,
{
    match v {
        ValueInformationView::Primary(x, _) => {
            let k = low7(x);
            assert(primary_quantity(k) is Some <==> primary_unit(k) is Some);
        },
        ValueInformationView::Extended(e, _) => {
            assert(extension_quantity(e) is Some <==> extension_unit(e) is Some);
        },
        _ => {},
    }
}

/// The decimal exponent that the VIF gives to the value by itself, before any
/// extension corrects it.
pub open spec fn base_exponent_of(v: ValueInformationView) -> Exponent {
    match v {
        ValueInformationView::Primary(x, _) => Exponent { inner: primary_scale(low7(x)) },
        ValueInformationView::Extended(e, _) => Exponent { inner: extension_scale(e) },
        _ => Exponent { inner: None },
    }
}

/// Looks up the decimal exponent that the VIF gives by itself.
pub fn base_exponent(value_information: &ValueInformation) -> (r: Exponent)
    ensures
        r == base_exponent_of(value_information@),
{
    match value_information {
        ValueInformation::Primary(x, _) => Exponent {
            inner: find_primary_scale(without_extension(*x)),
        },
        ValueInformation::Extended(e, _) => Exponent { inner: find_extension_scale(e) },
        _ => Exponent { inner: None },
    }
}

/// The decimal exponent of the value: what the VIF gives, corrected by every
/// extension that corrects the scale. Where the VIF gives none, the first
/// correction starts from zero.
pub open spec fn exponent_of(v: ValueInformationView) -> Exponent {
    said_by(v).exponent
}

impl vstd::std_specs::convert::FromSpecImpl<&ValueInformation> for Exponent {
    open spec fn obeys_from_spec() -> bool {
        true
    }

    open spec fn from_spec(value_information: &ValueInformation) -> Self {
        exponent_of(value_information@)
    }
}

impl From<&ValueInformation> for Exponent {
    /// The decimal exponent of the value of `value_information`, the
    /// corrections of its extensions included.
    fn from(value_information: &ValueInformation) -> (r: Exponent)
        ensures
            r == exponent_of(value_information@),
    {
        value_information.resolve().exponent
    }
}

/// Why a record could not be decoded.
#[derive(Debug, Clone, Copy, PartialEq, Eq, Structural)]
pub enum DataRecordError {
    /// The data information block or the payload is at fault.
    DataInformationError(DataInformationError),
    /// The value information block is at fault.
    ValueInformationError(ValueInformationError),
}

impl vstd::std_specs::convert::FromSpecImpl<DataInformationError> for DataRecordError {
    open spec fn obeys_from_spec() -> bool {
        true
    }

    open spec fn from_spec(error: DataInformationError) -> Self {
        DataRecordError::DataInformationError(error)
    }
}

impl From<DataInformationError> for DataRecordError {
    fn from(error: DataInformationError) -> (r: Self)
        ensures
            r == DataRecordError::DataInformationError(error),
    {
        DataRecordError::DataInformationError(error)
    }
}

impl vstd::std_specs::convert::FromSpecImpl<ValueInformationError> for DataRecordError {
    open spec fn obeys_from_spec() -> bool {
        true
    }

    open spec fn from_spec(error: ValueInformationError) -> Self {
        DataRecordError::ValueInformationError(error)
    }
}

impl From<ValueInformationError> for DataRecordError {
    fn from(error: ValueInformationError) -> (r: Self)
        ensures
            r == DataRecordError::ValueInformationError(error),
    {
        DataRecordError::ValueInformationError(error)
    }
}

/// One decoded record: what the value is, and the value.
#[derive(Debug, PartialEq)]
pub struct DataRecord {
    /// Which value of the quantity the record holds.
    pub function: FunctionField,
    /// The storage number.
    pub storage_number: u64,
    /// The tariff.
    pub tariff: u32,
    /// The sub-device.
    pub sub_device: u32,
    /// The value information block as it stood on the wire. A plain-text
    /// unit has its name here, and the layout in which it was read.
    pub value_information: ValueInformation,
    /// The name of the unit that the VIF gives.
    pub unit: Unit,
    /// The unit as a product of factors, in wire order.
    pub units: UnitVector,
    /// The decimal exponent of the value: the value counts in units of ten to
    /// that power.
    pub exponent: Exponent,
    /// The decimal exponent of the additive correction, if there is one.
    pub offset_exponent: Exponent,
    /// The labels that the value information block attaches.
    pub labels: LabelSet,
    /// What the value measures.
    pub quantity: Quantity,
    /// The value as the payload holds it, not scaled.
    pub value: DataValue,
    /// The number of bytes of the record on the wire.
    pub size: usize,
}

/// A [`DataRecord`] in terms of sequences and sets.
pub struct DataRecordView {
    pub function: FunctionField,
    pub storage_number: u64,
    pub tariff: u32,
    pub sub_device: u32,
    pub value_information: ValueInformationView,
    pub unit: Unit,
    pub units: Seq<UnitFactor>,
    pub exponent: Exponent,
    pub offset_exponent: Exponent,
    pub labels: Set<ValueLabel>,
    pub quantity: Quantity,
    pub value: DataValue,
    pub size: nat,
}

impl View for DataRecord {
    type V = DataRecordView;

    open spec fn view(&self) -> DataRecordView {
        DataRecordView {
            function: self.function,
            storage_number: self.storage_number,
            tariff: self.tariff,
            sub_device: self.sub_device,
            value_information: self.value_information@,
            unit: self.unit,
            units: self.units@,
            exponent: self.exponent,
            offset_exponent: self.offset_exponent,
            labels: self.labels@,
            quantity: self.quantity,
            value: self.value,
            size: self.size as nat,
        }
    }
}

/// The record made of a data information block, a value information block and
/// a payload of `payload_size` bytes.
pub open spec fn record_of_parts(
    dib: DataInformationBlockView,
    vib: ValueInformationBlockView,
    value: DataValue,
    payload_size: nat,
) -> DataRecordView {
    DataRecordView {
        function: dib.function_field,
        storage_number: dib.storage_number,
        tariff: dib.tariff,
        sub_device: dib.sub_device,
        value_information: vib.value_information,
        unit: vib.unit,
        units: vib.units,
        exponent: vib.exponent,
        offset_exponent: vib.offset_exponent,
        labels: vib.labels,
        quantity: vib.quantity,
        value,
        size: dib.size() + vib.size() + payload_size,
    }
}

/// The record at the start of `s`: a data information block, directly behind
/// it a value information block, directly behind that the payload. The first
/// of the three that is at fault decides the error. `demand` says where the
/// name of a plain-text unit is looked for, see
/// [`value_information_of`](crate::user_data::value_information::value_information_of).
#[verifier::opaque]
pub open spec fn record_of(s: Seq<u8>, demand: Option<PlainTextLayout>) -> Result<
    DataRecordView,
    DataRecordError,
> {
    match data_information_block_of(s) {
        Err(e) => Err(DataRecordError::DataInformationError(e)),
        Ok(dib) => {
            let rest = s.subrange(dib.size() as int, s.len() as int);
            match value_information_block_of(rest, demand) {
                Err(e) => Err(DataRecordError::ValueInformationError(e)),
                Ok(vib) => {
                    let payload = rest.subrange(vib.size() as int, rest.len() as int);
                    match payload_of(dib.data_field_coding, payload) {
                        Err(e) => Err(DataRecordError::DataInformationError(e)),
                        Ok((value, n)) => Ok(record_of_parts(dib, vib, value, n)),
                    }
                },
            }
        },
    }
}

/// A record has at least a DIF and a VIF, and its size is the number of bytes
/// that were read for it: it never exceeds what was given.
pub proof fn lemma_record_size(s: Seq<u8>, demand: Option<PlainTextLayout>)
    ensures
        record_of(s, demand) matches Ok(r) ==> 2 <= r.size <= s.len(),
{
    reveal(record_of);
    if let Ok(dib) = data_information_block_of(s) {
        let rest = s.subrange(dib.size() as int, s.len() as int);
        lemma_block_size(rest, demand);
    }
}

/// A record is decoded from its own bytes: `t` decodes to the record that `s`
/// decodes to if it holds that record's bytes and reads alike.
pub proof fn lemma_record_depends_on_its_bytes(
    s: Seq<u8>,
    t: Seq<u8>,
    demand: Option<PlainTextLayout>,
)
    requires
        record_of(s, demand) matches Ok(r) && same_start(s, t, r.size as int),
        reads_alike(s, t, demand),
    ensures
        record_of(t, demand) == record_of(s, demand),
{
    reveal(record_of);
    let r = record_of(s, demand).unwrap();
    let dib = data_information_block_of(s).unwrap();
    let d = dib.size() as int;
    let rest = s.subrange(d, s.len() as int);
    lemma_block_size(rest, demand);
    let vib = value_information_block_of(rest, demand).unwrap();
    let z = vib.size() as int;
    let payload = rest.subrange(z, rest.len() as int);
    let n = payload_of(dib.data_field_coding, payload).unwrap().1 as int;
    assert(r.size == d + z + n);
    lemma_block_depends_on_its_bytes(s, t);
    let rest_t = t.subrange(d, t.len() as int);
    assert(same_start(rest, rest_t, z + n)) by {
        assert forall|k: int| 0 <= k < z + n implies rest[k] == rest_t[k] by {
            assert(rest[k] == s[d + k] && rest_t[k] == t[d + k]);
        }
    }
    assert(reads_alike(rest, rest_t, demand)) by {
        if demand is None {
            assert forall|k: int| 0 <= k < rest_t.len() implies rest[k] == rest_t[k] by {
                assert(rest[k] == s[d + k] && rest_t[k] == t[d + k]);
            }
        }
    }
    lemma_value_information_depends_on_its_bytes(rest, rest_t, demand);
    let payload_t = rest_t.subrange(z, rest_t.len() as int);
    assert(same_start(payload, payload_t, n)) by {
        assert forall|k: int| 0 <= k < n implies payload[k] == payload_t[k] by {
            assert(payload[k] == rest[z + k] && payload_t[k] == rest_t[z + k]);
        }
    }
    lemma_payload_depends_on_its_bytes(dib.data_field_coding, payload, payload_t);
}

/// A record decodes the same from its own bytes alone.
pub proof fn lemma_record_reads_its_own_bytes(s: Seq<u8>, demand: Option<PlainTextLayout>)
    ensures
        record_of(s, demand) matches Ok(r) ==> r.size <= s.len() && record_of(
            s.subrange(0, r.size as int),
            demand,
        ) == record_of(s, demand),
{
    if let Ok(r) = record_of(s, demand) {
        lemma_record_size(s, demand);
        lemma_record_depends_on_its_bytes(s, s.subrange(0, r.size as int), demand);
    }
}

/// A record without data has the value zero and no payload.
pub proof fn lemma_no_data_is_zero(s: Seq<u8>, demand: Option<PlainTextLayout>)
    requires
        s.len() > 0,
        s[0] % 16 == 0,
    ensures
        record_of(s, demand) matches Ok(r) ==> r.value == DataValue::Integer(0),
        record_of(s, demand) matches Ok(r) ==> r.size == data_information_block_of(
            s,
        ).unwrap().size() + value_information_block_of(
            s.subrange(data_information_block_of(s).unwrap().size() as int, s.len() as int),
            demand,
        ).unwrap().size(),
{
    reveal(record_of);
}

impl DataRecord {
    /// Decodes the record at the start of `data`. The name of a plain-text
    /// unit is looked for where `demand` says, or in both places, that of the
    /// norm first, where it says nothing.
    pub fn parse_with(data: &[u8], demand: Option<PlainTextLayout>) -> (r: Result<
        DataRecord,
        DataRecordError,
    >)
        ensures
            match r {
                Ok(record) => record_of(data@, demand) == Ok::<DataRecordView, DataRecordError>(
                    record@,
                ),
                Err(e) => record_of(data@, demand) == Err::<DataRecordView, DataRecordError>(e),
            },
            r matches Ok(record) ==> 2 <= record.size <= data@.len(),
    {
        proof {
            reveal(record_of);
        }
        let data_information = match DataInformationBlock::try_from(data) {
            Ok(block) => block,
            Err(e) => {
                return Err(DataRecordError::from(e));
            },
        };
        let dib_size: usize = data_information.get_size();
        let rest = slice_subrange(data, dib_size, data.len());
        proof {
            lemma_block_size(rest@, demand);
        }
        let value_information = match ValueInformationBlock::parse_with(rest, demand) {
            Ok(block) => block,
            Err(e) => {
                return Err(DataRecordError::from(e));
            },
        };
        let vib_size: usize = value_information.get_size();
        let payload = slice_subrange(rest, vib_size, rest.len());
        let value = match data_information.data_field_coding.extract_from_bytes(payload) {
            Ok(value) => value,
            Err(e) => {
                return Err(DataRecordError::from(e));
            },
        };
        Ok(
            DataRecord {
                function: data_information.function_field,
                storage_number: data_information.storage_number,
                tariff: data_information.tariff,
                sub_device: data_information.sub_device,
                value_information: value_information.value_information,
                unit: value_information.unit,
                units: value_information.units,
                exponent: value_information.exponent,
                offset_exponent: value_information.offset_exponent,
                labels: value_information.labels,
                quantity: value_information.quantity,
                value: value.data,
                size: dib_size + vib_size + value.byte_size,
            },
        )
    }
}

impl DataRecord {
    /// Decodes the record at the start of `data`. The name of a plain-text
    /// unit is looked for where `layout` says, and nowhere else.
    pub fn parse(data: &[u8], layout: PlainTextLayout) -> (r: Result<DataRecord, DataRecordError>)
        ensures
            match r {
                Ok(record) => record_of(data@, Some(layout)) == Ok::<
                    DataRecordView,
                    DataRecordError,
                >(record@),
                Err(e) => record_of(data@, Some(layout)) == Err::<DataRecordView, DataRecordError>(
                    e,
                ),
            },
            r matches Ok(record) ==> 2 <= record.size <= data@.len(),
    {
        DataRecord::parse_with(data, Some(layout))
    }
}

impl vstd::std_specs::convert::TryFromSpecImpl<&[u8]> for DataRecord {
    /// A record may hold a vector that no spec function can build, so the
    /// outcome is stated by the `ensures` of `try_from` instead.
    open spec fn obeys_try_from_spec() -> bool {
        false
    }

    open spec fn try_from_spec(data: &[u8]) -> Result<Self, DataRecordError> {
        Err(DataRecordError::DataInformationError(DataInformationError::NoData))
    }
}

impl TryFrom<&[u8]> for DataRecord {
    type Error = DataRecordError;

    /// Decodes the record at the start of `data`. The name of a plain-text
    /// unit is looked for behind the extensions, as the norm has it, and where
    /// that fails directly behind the VIF; the record says where it stood.
    fn try_from(data: &[u8]) -> (r: Result<DataRecord, DataRecordError>)
        ensures
            match r {
                Ok(record) => record_of(data@, None) == Ok::<
                    DataRecordView,
                    DataRecordError,
                >(record@),
                Err(e) => record_of(data@, None) == Err::<
                    DataRecordView,
                    DataRecordError,
                >(e),
            },
            r matches Ok(record) ==> 2 <= record.size <= data@.len(),
    {
        DataRecord::parse_with(data, None)
    }
}

/// Why a variable data block could not be decoded.
#[derive(Debug, Clone, Copy, PartialEq, Eq, Structural)]
pub enum VariableUserDataError {
    /// A record of the block is at fault.
    DataInformationError(DataRecordError),
}

impl vstd::std_specs::convert::FromSpecImpl<DataRecordError> for VariableUserDataError {
    open spec fn obeys_from_spec() -> bool {
        true
    }

    open spec fn from_spec(error: DataRecordError) -> Self {
        VariableUserDataError::DataInformationError(error)
    }
}

impl From<DataRecordError> for VariableUserDataError {
    fn from(error: DataRecordError) -> (r: Self)
        ensures
            r == VariableUserDataError::DataInformationError(error),
    {
        VariableUserDataError::DataInformationError(error)
    }
}

/// The DIF behind which the manufacturer's data begin.
pub const DIF_MANUFACTURER_DATA: u8 = 0x0F;

/// The DIF behind which the manufacturer's data begin, more records following
/// in the next telegram.
pub const DIF_MORE_RECORDS_FOLLOW: u8 = 0x1F;

/// The DIF that fills space between records.
pub const DIF_IDLE_FILLER: u8 = 0x2F;

/// What a variable data block holds, in terms of sequences.
pub struct DataRecordsView {
    pub records: Seq<DataRecordView>,
    pub more_records_follow: bool,
    pub manufacturer_specific_data: Seq<u8>,
}

/// `later` with the records `earlier` in front of its own.
pub open spec fn with_earlier(
    earlier: Seq<DataRecordView>,
    later: Result<DataRecordsView, VariableUserDataError>,
) -> Result<DataRecordsView, VariableUserDataError> {
    match later {
        Ok(found) => Ok(
            DataRecordsView {
                records: earlier + found.records,
                more_records_follow: found.more_records_follow,
                manufacturer_specific_data: found.manufacturer_specific_data,
            },
        ),
        Err(e) => Err(e),
    }
}

/// What the block `s` holds from index `at` on: the records in wire order,
/// filler bytes skipped, up to the end or up to a DIF `0x0F` or `0x1F`, behind
/// which the rest is the manufacturer's. One record at fault fails the block.
pub open spec fn records_from(s: Seq<u8>, at: int, demand: Option<PlainTextLayout>) -> Result<
    DataRecordsView,
    VariableUserDataError,
>
    decreases s.len() - at,
{
    if at < 0 || at >= s.len() {
        Ok(
            DataRecordsView {
                records: Seq::empty(),
                more_records_follow: false,
                manufacturer_specific_data: Seq::empty(),
            },
        )
    } else if s[at] == DIF_MANUFACTURER_DATA || s[at] == DIF_MORE_RECORDS_FOLLOW {
        Ok(
            DataRecordsView {
                records: Seq::empty(),
                more_records_follow: s[at] == DIF_MORE_RECORDS_FOLLOW,
                manufacturer_specific_data: s.subrange(at + 1, s.len() as int),
            },
        )
    } else if s[at] == DIF_IDLE_FILLER {
        records_from(s, at + 1, demand)
    } else {
        match record_of(s.subrange(at, s.len() as int), demand) {
            Err(e) => Err(VariableUserDataError::DataInformationError(e)),
            Ok(record) => {
                proof {
                    lemma_record_size(s.subrange(at, s.len() as int), demand);
                }
                with_earlier(seq![record], records_from(s, at + record.size, demand))
            },
        }
    }
}

/// What the variable data block `s` holds.
pub open spec fn records_of(s: Seq<u8>, demand: Option<PlainTextLayout>) -> Result<
    DataRecordsView,
    VariableUserDataError,
> {
    records_from(s, 0, demand)
}

/// Every byte of a decoded block is accounted for: the sizes of the records,
/// the filler bytes, and the terminator with the manufacturer's data behind it
/// add up to the length of the block.
pub open spec fn bytes_accounted(s: Seq<u8>, at: int, demand: Option<PlainTextLayout>) -> nat
    decreases s.len() - at,
{
    if at < 0 || at >= s.len() {
        0
    } else if s[at] == DIF_MANUFACTURER_DATA || s[at] == DIF_MORE_RECORDS_FOLLOW {
        (s.len() - at) as nat
    } else if s[at] == DIF_IDLE_FILLER {
        1 + bytes_accounted(s, at + 1, demand)
    } else {
        match record_of(s.subrange(at, s.len() as int), demand) {
            Err(_) => 0,
            Ok(record) => {
                proof {
                    lemma_record_size(s.subrange(at, s.len() as int), demand);
                }
                record.size + bytes_accounted(s, at + record.size, demand)
            },
        }
    }
}

/// A block that begins with a DIF and ten extension bytes that each announce
/// one more fails, and so does one whose first record has such a chain behind
/// its VIF: an extension chain holds ten bytes and no more.
pub proof fn lemma_stream_chain_bound(s: Seq<u8>, demand: Option<PlainTextLayout>)
    ensures
        s.len() >= 1 + MAX_DIFE_RECORDS && (forall|k: int|
            0 <= k <= MAX_DIFE_RECORDS ==> has_extension(#[trigger] s[k])) ==> records_of(
            s,
            demand,
        ) == Err::<DataRecordsView, VariableUserDataError>(
            VariableUserDataError::DataInformationError(
                DataRecordError::DataInformationError(DataInformationError::DifeChainTooLong),
            ),
        ),
        s.len() >= 2 + MAX_VIFE_RECORDS && !has_extension(s[0]) && s[0] % 16 != 0xF && (forall|
            k: int,
        |
            1 <= k <= 1 + MAX_VIFE_RECORDS ==> has_extension(#[trigger] s[k])) && (s[1] != 0xFC
            || demand != Some(PlainTextLayout::Common)) ==> records_of(s, demand) == Err::<
            DataRecordsView,
            VariableUserDataError,
        >(
            VariableUserDataError::DataInformationError(
                DataRecordError::ValueInformationError(ValueInformationError::VifeChainTooLong),
            ),
        ),
{
    reveal(record_of);
    assert(s.subrange(0, s.len() as int) =~= s);
    if s.len() >= 1 + MAX_DIFE_RECORDS && (forall|k: int|
        0 <= k <= MAX_DIFE_RECORDS ==> has_extension(#[trigger] s[k])) {
        assert(has_extension(s[0]));
        lemma_dife_chain_bound(s);
    }
    if s.len() >= 2 + MAX_VIFE_RECORDS && !has_extension(s[0]) && s[0] % 16 != 0xF && (forall|
        k: int,
    |
        1 <= k <= 1 + MAX_VIFE_RECORDS ==> has_extension(#[trigger] s[k])) && (s[1] != 0xFC
        || demand != Some(PlainTextLayout::Common)) {
        let rest = s.subrange(1, s.len() as int);
        assert forall|k: int| 0 <= k <= MAX_VIFE_RECORDS implies has_extension(
            #[trigger] rest[k],
        ) by {
            assert(rest[k] == s[k + 1]);
        }
        assert(rest[0] == s[1]);
        lemma_vife_chain_bound(rest, demand);
    }
}

/// The offset in `s` at which the `k`-th record from `at` on begins: behind
/// the fillers and the records before it.
pub open spec fn record_offset(s: Seq<u8>, at: int, k: nat, demand: Option<PlainTextLayout>) -> int
    decreases s.len() - at,
{
    if at < 0 || at >= s.len() || s[at] == DIF_MANUFACTURER_DATA || s[at]
        == DIF_MORE_RECORDS_FOLLOW {
        at
    } else if s[at] == DIF_IDLE_FILLER {
        record_offset(s, at + 1, k, demand)
    } else {
        match record_of(s.subrange(at, s.len() as int), demand) {
            Err(_) => at,
            Ok(record) => {
                proof {
                    lemma_record_size(s.subrange(at, s.len() as int), demand);
                }
                if k == 0 {
                    at
                } else {
                    record_offset(s, at + record.size, (k - 1) as nat, demand)
                }
            },
        }
    }
}

/// Every record of a decoded block is the record that stands at its offset,
/// and the offset lies within the block.
pub proof fn lemma_record_at_its_offset(
    s: Seq<u8>,
    at: int,
    k: nat,
    demand: Option<PlainTextLayout>,
)
    requires
        0 <= at,
        records_from(s, at, demand) matches Ok(found) && k < found.records.len(),
    ensures
        at <= record_offset(s, at, k, demand) < s.len(),
        record_of(
            s.subrange(record_offset(s, at, k, demand), s.len() as int),
            demand,
        ) == Ok::<DataRecordView, DataRecordError>(
            records_from(s, at, demand).unwrap().records[k as int],
        ),
    decreases s.len() - at,
{
    if s[at] == DIF_IDLE_FILLER {
        lemma_record_at_its_offset(s, at + 1, k, demand);
    } else {
        let record = record_of(s.subrange(at, s.len() as int), demand).unwrap();
        lemma_record_size(s.subrange(at, s.len() as int), demand);
        if k > 0 {
            let later = records_from(s, at + record.size, demand).unwrap();
            assert((seq![record] + later.records)[k as int] == later.records[k - 1]);
            lemma_record_at_its_offset(s, at + record.size, (k - 1) as nat, demand);
        }
    }
}

/// A block that decodes leaves no residual bytes.
pub proof fn lemma_no_residual_bytes(s: Seq<u8>, at: int, demand: Option<PlainTextLayout>)
    requires
        0 <= at <= s.len(),
        records_from(s, at, demand) is Ok,
    ensures
        bytes_accounted(s, at, demand) == s.len() - at,
    decreases s.len() - at,
{
    if at < s.len() && s[at] != DIF_MANUFACTURER_DATA && s[at] != DIF_MORE_RECORDS_FOLLOW {
        if s[at] == DIF_IDLE_FILLER {
            lemma_no_residual_bytes(s, at + 1, demand);
        } else {
            let record = record_of(s.subrange(at, s.len() as int), demand).unwrap();
            lemma_record_size(s.subrange(at, s.len() as int), demand);
            lemma_no_residual_bytes(s, at + record.size, demand);
        }
    }
}

impl<'a> DataRecords<'a> {
    /// Decodes the variable data block `data`. The name of a plain-text unit
    /// is looked for where `demand` says, or in both places, that of the norm
    /// first, where it says nothing.
    pub fn parse_with(data: &'a [u8], demand: Option<PlainTextLayout>) -> (r: Result<
        DataRecords<'a>,
        VariableUserDataError,
    >)
        ensures
            match r {
                Ok(records) => records_of(data@, demand) == Ok::<
                    DataRecordsView,
                    VariableUserDataError,
                >(records@),
                Err(e) => records_of(data@, demand) == Err::<
                    DataRecordsView,
                    VariableUserDataError,
                >(e),
            },
    {
        let total: usize = data.len();
        let mut records: Vec<DataRecord> = Vec::new();
        let mut offset: usize = 0;
        assert(record_views(records@) =~= Seq::<DataRecordView>::empty());
        while offset < total
            invariant
                0 <= offset <= total == data@.len(),
                records_of(data@, demand) == with_earlier(
                    record_views(records@),
                    records_from(data@, offset as int, demand),
                ),
            decreases total - offset,
        {
            let ghost earlier = record_views(records@);
            let dif: u8 = data[offset];
            if dif == DIF_MANUFACTURER_DATA || dif == DIF_MORE_RECORDS_FOLLOW {
                let tail = slice_subrange(data, offset + 1, total);
                proof {
                    assert(earlier + Seq::<DataRecordView>::empty() =~= earlier);
                }
                return Ok(DataRecords::from_parts(records, dif == DIF_MORE_RECORDS_FOLLOW, tail));
            } else if dif == DIF_IDLE_FILLER {
                offset = offset + 1;
            } else {
                let record = match DataRecord::parse_with(
                    slice_subrange(data, offset, total),
                    demand,
                ) {
                    Ok(record) => record,
                    Err(e) => {
                        return Err(VariableUserDataError::from(e));
                    },
                };
                proof {
                    let later = records_from(data@, offset + record.size, demand);
                    assert(with_earlier(earlier, with_earlier(seq![record@], later))
                        == with_earlier(earlier.push(record@), later)) by {
                        if let Ok(found) = later {
                            assert(earlier + (seq![record@] + found.records) =~= earlier.push(
                                record@,
                            ) + found.records);
                        }
                    }
                    assert(record_views(records@.push(record)) =~= earlier.push(record@));
                }
                offset = offset + record.size;
                records.push(record);
            }
        }
        proof {
            assert(record_views(records@) + Seq::<DataRecordView>::empty() =~= record_views(
                records@,
            ));
        }
        let tail = slice_subrange(data, total, total);
        assert(tail@ =~= Seq::<u8>::empty());
        Ok(DataRecords::from_parts(records, false, tail))
    }
}

impl<'a> DataRecords<'a> {
    /// Decodes the variable data block `data`. The name of a plain-text unit
    /// is looked for where `layout` says, and nowhere else.
    pub fn parse(data: &'a [u8], layout: PlainTextLayout) -> (r: Result<
        DataRecords<'a>,
        VariableUserDataError,
    >)
        ensures
            match r {
                Ok(records) => records_of(data@, Some(layout)) == Ok::<
                    DataRecordsView,
                    VariableUserDataError,
                >(records@),
                Err(e) => records_of(data@, Some(layout)) == Err::<
                    DataRecordsView,
                    VariableUserDataError,
                >(e),
            },
    {
        DataRecords::parse_with(data, Some(layout))
    }
}

impl<'a> vstd::std_specs::convert::TryFromSpecImpl<&'a [u8]> for DataRecords<'a> {
    /// The records may hold vectors that no spec function can build, so the
    /// outcome is stated by the `ensures` of `try_from` instead.
    open spec fn obeys_try_from_spec() -> bool {
        false
    }

    open spec fn try_from_spec(data: &'a [u8]) -> Result<Self, VariableUserDataError> {
        Err(
            VariableUserDataError::DataInformationError(
                DataRecordError::DataInformationError(DataInformationError::NoData),
            ),
        )
    }
}

impl<'a> TryFrom<&'a [u8]> for DataRecords<'a> {
    type Error = VariableUserDataError;

    /// Decodes the variable data block `data`. The name of a plain-text unit
    /// is looked for behind the extensions, as the norm has it, and where that
    /// fails directly behind the VIF; each record says where it stood.
    fn try_from(data: &'a [u8]) -> (r: Result<DataRecords<'a>, VariableUserDataError>)
        ensures
            match r {
                Ok(records) => records_of(data@, None) == Ok::<
                    DataRecordsView,
                    VariableUserDataError,
                >(records@),
                Err(e) => records_of(data@, None) == Err::<
                    DataRecordsView,
                    VariableUserDataError,
                >(e),
            },
    {
        DataRecords::parse_with(data, None)
    }
}

/// Decodes a record of a meter that reports a maximum flow: the bytes
/// `DA 02 3B 13 01` are a DIF with one extension, the VIF of a volume flow in
/// litres per hour, and four BCD digits. The storage number 5 is spelled by
/// bit 6 of the DIF and the low nibble of the extension.
pub fn _test_parse_variable_data2() -> (r: Result<DataRecord, DataRecordError>)
    ensures
        r matches Ok(record) && {
            &&& record@.function == FunctionField::MaximumValue
            &&& record@.storage_number == 5
            &&& record@.tariff == 0
            &&& record@.sub_device == 0
            &&& record@.value_information == ValueInformationView::Primary(0x3B, Seq::empty())
            &&& record@.unit == Unit::CubicMeterPerHour
            &&& record@.units == per(Unit::CubicMeter, Unit::Hours)
            &&& record@.exponent == (Exponent { inner: Some(-3isize) })
            &&& record@.offset_exponent == (Exponent { inner: None })
            &&& record@.labels == Set::<ValueLabel>::empty()
            &&& record@.quantity == Quantity::VolumeFlow
            &&& record@.value == (DataValue::Decimal { negative: false, magnitude: 113 })
            &&& record@.size == 5
        },
{
    let data: [u8; 5] = [0xDA, 0x02, 0x3B, 0x13, 0x01];
    proof {
        let s = data@;
        reveal(record_of);
        reveal_with_fuel(flagged_run, 2);
        let dife = s.subrange(1, 2);
        lemma_le_number_short(byte_fields(dife, 1, 16), 16);
        lemma_le_number_short(byte_fields(dife, 16, 4), 4);
        lemma_le_number_short(byte_fields(dife, 64, 2), 2);
        let dib = data_information_block_of(s).unwrap();
        assert(dib.dife == dife);
        assert(dib.storage_number == 5);
        let rest = s.subrange(2, 5);
        assert(rest[0] == 0x3B);
        assert(rest.subrange(1, 1) =~= Seq::<u8>::empty());
        assert(value_information_in(rest, PlainTextLayout::NormConform) == Ok::<
            ValueInformationView,
            ValueInformationError,
        >(ValueInformationView::Primary(0x3B, Seq::empty())));
        let vib = value_information_block_of(rest, None).unwrap();
        assert(vib.value_information == ValueInformationView::Primary(0x3B, Seq::empty()));
        let payload = rest.subrange(1, 3);
        let digits = payload.subrange(0, 2);
        assert(digits[0] == 0x13 && digits[1] == 0x01);
        lemma_le_number_short(Seq::new(digits.len(), |i: int| bcd_pair(digits[i])), 100);
    }
    DataRecord::try_from(data.as_slice())
}

/// Decodes a record of a meter that reports energy under a tariff: the bytes
/// `8B 60 04 37 18 02` are a DIF with one extension that names tariff 2 and
/// sub-device 1, the VIF of an energy in units of ten watt-hours, and six BCD
/// digits.
pub fn _test_parse_variable_data3() -> (r: Result<DataRecord, DataRecordError>)
    ensures
        r matches Ok(record) && {
            &&& record@.function == FunctionField::InstantaneousValue
            &&& record@.storage_number == 0
            &&& record@.tariff == 2
            &&& record@.sub_device == 1
            &&& record@.value_information == ValueInformationView::Primary(0x04, Seq::empty())
            &&& record@.unit == Unit::WattHour
            &&& record@.units == seq![UnitFactor { unit: Unit::WattHour, exponent: 1i32 }]
            &&& record@.exponent == (Exponent { inner: Some(1isize) })
            &&& record@.offset_exponent == (Exponent { inner: None })
            &&& record@.labels == Set::<ValueLabel>::empty()
            &&& record@.quantity == Quantity::Energy
            &&& record@.value == (DataValue::Decimal { negative: false, magnitude: 21837 })
            &&& record@.size == 6
        },
{
    let data: [u8; 6] = [0x8B, 0x60, 0x04, 0x37, 0x18, 0x02];
    proof {
        let s = data@;
        reveal(record_of);
        reveal_with_fuel(flagged_run, 2);
        let dife = s.subrange(1, 2);
        lemma_le_number_short(byte_fields(dife, 1, 16), 16);
        lemma_le_number_short(byte_fields(dife, 16, 4), 4);
        lemma_le_number_short(byte_fields(dife, 64, 2), 2);
        let dib = data_information_block_of(s).unwrap();
        assert(dib.dife == dife);
        assert(dib.tariff == 2);
        let rest = s.subrange(2, 6);
        assert(rest[0] == 0x04);
        assert(rest.subrange(1, 1) =~= Seq::<u8>::empty());
        assert(value_information_in(rest, PlainTextLayout::NormConform) == Ok::<
            ValueInformationView,
            ValueInformationError,
        >(ValueInformationView::Primary(0x04, Seq::empty())));
        let vib = value_information_block_of(rest, None).unwrap();
        assert(vib.value_information == ValueInformationView::Primary(0x04, Seq::empty()));
        let payload = rest.subrange(1, 4);
        let digits = payload.subrange(0, 3);
        assert(digits[0] == 0x37 && digits[1] == 0x18 && digits[2] == 0x02);
        lemma_le_number_short(Seq::new(digits.len(), |i: int| bcd_pair(digits[i])), 100);
    }
    DataRecord::try_from(data.as_slice())
}

} // verus!
