use arrayvec::ArrayVec;
use m_bus_parser::user_data::unit_vector::{UnitFactor, UnitVector};
use m_bus_parser::user_data::value_information::{
    PlainTextLayout, Unit, VIFExtension, ValueInformation, ValueInformationBlock,
    ValueInformationError,
};
use m_bus_parser::user_data::value_label::{LabelSet, ValueLabel};
use m_bus_parser::user_data::variable_user_data::{Exponent, Quantity};

fn bytes(held: &[u8]) -> ArrayVec<u8, 10> {
    let mut out = ArrayVec::<u8, 10>::new();
    out.try_extend_from_slice(held).unwrap();
    out
}

fn factors(units: &UnitVector) -> Vec<(Unit, i32)> {
    let mut out = Vec::new();
    let mut i = 0;
    while let Some(UnitFactor { unit, exponent }) = units.get(i) {
        out.push((unit, exponent));
        i += 1;
    }
    assert_eq!(out.len(), units.len());
    out
}

#[test]
fn test_value_information_new() {
    /* VIF = 0x13 => m3^3*1e-3 */
    let data = [0x13];
    let result = ValueInformation::try_from(data.as_slice()).unwrap();
    assert_eq!(result, ValueInformation::Primary(0x13, ArrayVec::new()));
    assert_eq!(result.get_size(), 1);
    assert_eq!(Unit::try_from(&result).unwrap(), Unit::CubicMeter);

    /* VIF = 0x14 => m3^-3*1e-2 */
    let data = [0x14];
    let result = ValueInformation::try_from(data.as_slice()).unwrap();
    assert_eq!(result, ValueInformation::Primary(0x14, ArrayVec::new()));
    assert_eq!(result.get_size(), 1);
    assert_eq!(Unit::try_from(&result).unwrap(), Unit::CubicMeter);

    /* VIF = 0x15 => m3^3*1e-2 */
    let data = [0x15];
    let result = ValueInformation::try_from(data.as_slice()).unwrap();
    assert_eq!(result, ValueInformation::Primary(0x15, ArrayVec::new()));
    assert_eq!(result.get_size(), 1);
    assert_eq!(Unit::try_from(&result).unwrap(), Unit::CubicMeter);

    /* VIF = 0x16 => m3^-3*1e-1 */
    let data = [0x16];
    let result = ValueInformation::try_from(data.as_slice()).unwrap();
    assert_eq!(result, ValueInformation::Primary(0x16, ArrayVec::new()));
    assert_eq!(result.get_size(), 1);
}

#[test]
fn test_plain_text_vif_common_none_norm_conform() {
    // VIF  LEN(3) 'R'   'H'  '%'    VIFE
    // 0xFC, 0x03, 0x48, 0x52, 0x25, 0x74,
    // %RH
    // VIFE = 0x74 => multiplicative correction factor 10^-2
    let data = [0xFC, 0x03, 0x48, 0x52, 0x25, 0x74];
    let mut a = ArrayVec::<u8, 10>::new();
    a.try_extend_from_slice(&data[2..5]).unwrap();
    a.reverse();
    let result = ValueInformation::try_from(data.as_slice()).unwrap();
    assert_eq!(result, ValueInformation::PlainText(a, bytes(&[0x74]), PlainTextLayout::Common));
    assert_eq!(result.get_size(), 6);

    assert_eq!(Exponent::from(&result), Exponent::from(-2));
    assert_eq!(
        ValueInformation::parse(data.as_slice(), PlainTextLayout::Common).as_ref(),
        Ok(&result)
    );
    // In the layout of the norm these bytes announce a name of 0x48
    // characters.
    assert_eq!(
        ValueInformation::parse(data.as_slice(), PlainTextLayout::NormConform),
        Err(ValueInformationError::InvalidValueInformation)
    );
    let block = ValueInformationBlock::try_from(data.as_slice()).unwrap();
    assert_eq!(block.value_information, result);
    assert_eq!(block.get_size(), 6);
    assert_eq!(block.exponent, Exponent::from(-2));
}

#[test]
fn test_plain_text_vif_norm_conform() {
    // VIF  VIFE  LEN(3) 'R'   'H'  '%'
    // 0xFC, 0x74, 0x03, 0x48, 0x52, 0x25,
    // %RH
    let data = [0xFC, 0x74, 0x03, 0x48, 0x52, 0x25];
    let mut a = ArrayVec::<u8, 10>::new();
    a.try_extend_from_slice(&data[3..6]).unwrap();
    a.reverse();
    let result = ValueInformation::try_from(data.as_slice()).unwrap();
    assert_eq!(
        result,
        ValueInformation::PlainText(a, bytes(&[0x74]), PlainTextLayout::NormConform)
    );
    assert_eq!(result.get_size(), 6);

    assert_eq!(Exponent::from(&result), Exponent::from(-2));
    assert_eq!(
        ValueInformation::parse(data.as_slice(), PlainTextLayout::NormConform).as_ref(),
        Ok(&result)
    );
    // Read with the name expected behind the VIF, the same bytes announce a
    // name of 0x74 characters, which is too long.
    assert_eq!(
        ValueInformation::parse(data.as_slice(), PlainTextLayout::Common),
        Err(ValueInformationError::InvalidValueInformation)
    );
    assert_eq!(
        ValueInformationBlock::parse(data.as_slice(), PlainTextLayout::Common),
        Err(ValueInformationError::InvalidValueInformation)
    );
}

#[test]
fn value_information_reads_its_extensions() {
    let v = ValueInformation::try_from([0x96, 0x12].as_slice()).unwrap();
    assert_eq!(v, ValueInformation::Primary(0x96, bytes(&[0x12])));
    assert_eq!(v.get_size(), 2);
    assert_eq!(v.extensions().as_slice(), &[0x12]);
    assert!(v.labels().contains(ValueLabel::Averaged));
    assert_eq!(Unit::try_from(&v), Ok(Unit::CubicMeter));
    assert_eq!(factors(&v.units().unwrap()), vec![(Unit::CubicMeter, 1)]);
    assert_eq!(Exponent::from(&v), Exponent::from(0));
    assert_eq!(v.offset_exponent(), Exponent { inner: None });

    let v = ValueInformation::try_from([0x93, 0xF7, 0xF0, 0x79, 0xAA].as_slice()).unwrap();
    assert_eq!(v, ValueInformation::Primary(0x93, bytes(&[0xF7, 0xF0, 0x79])));
    assert_eq!(v.get_size(), 4);
    assert_eq!(Exponent::from(&v), Exponent::from(-3 + 1 - 6));
    assert_eq!(v.offset_exponent(), Exponent::from(-2));

    // The byte that selects from an extended table is no extension of the
    // entry.
    let v = ValueInformation::try_from([0xFD, 0x9B, 0x12].as_slice()).unwrap();
    assert_eq!(v, ValueInformation::Extended(VIFExtension::DigitalInput, bytes(&[0x12])));
    assert_eq!(v.get_size(), 3);

    let mut data = vec![0x93];
    data.extend_from_slice(&[0x92; 11]);
    data.push(0x12);
    assert_eq!(
        ValueInformation::try_from(data.as_slice()),
        Err(ValueInformationError::VifeChainTooLong)
    );
    // Ten factors fit, eleven are refused.
    let v = ValueInformation::try_from([0xBB, 0xA8, 0xA9, 0xAA, 0xAB, 0x20].as_slice()).unwrap();
    assert_eq!(v.units(), Err(ValueInformationError::InvalidValueInformation));
    assert_eq!(v.get_size(), 6);
}

#[test]
fn plain_text_name_is_the_wire_reversed() {
    let data = [0x7C, 0x04, b'd', b'c', b'b', b'a'];
    let block = ValueInformationBlock::try_from(data.as_slice()).unwrap();
    match &block.value_information {
        ValueInformation::PlainText(name, _, _) => {
            assert_eq!(name.as_slice(), b"abcd");
            let mut again: Vec<u8> = name.to_vec();
            again.reverse();
            assert_eq!(again.as_slice(), &data[2..6]);
        }
        other => panic!("not a plain-text unit: {:?}", other),
    }
    assert_eq!(block.get_size(), 6);
    assert_eq!(block.vif, 0x7C);
    assert_eq!(block.unit, Unit::PlainText);
    assert_eq!(block.quantity, Quantity::PlainText);
    assert!(block.labels.contains(ValueLabel::PlainTextUnit));
    assert_eq!(block.units.len(), 0);
    assert_eq!(block.exponent, Exponent { inner: None });
    assert_eq!(block.value_information.extensions().len(), 0);
}

#[test]
fn plain_text_name_of_ten_characters_fits_and_eleven_do_not() {
    let mut data = vec![0x7C, 10];
    data.extend_from_slice(b"0123456789");
    let block = ValueInformationBlock::try_from(data.as_slice()).unwrap();
    match &block.value_information {
        ValueInformation::PlainText(name, _, _) => assert_eq!(name.as_slice(), b"9876543210"),
        other => panic!("not a plain-text unit: {:?}", other),
    }
    assert_eq!(block.get_size(), 12);

    let mut data = vec![0x7C, 11];
    data.extend_from_slice(b"0123456789A");
    assert_eq!(
        ValueInformationBlock::try_from(data.as_slice()),
        Err(ValueInformationError::InvalidValueInformation)
    );
    assert_eq!(
        ValueInformation::try_from(data.as_slice()),
        Err(ValueInformationError::InvalidValueInformation)
    );
    // The name is cut off.
    assert_eq!(
        ValueInformation::try_from([0x7C, 3, b'a', b'b'].as_slice()),
        Err(ValueInformationError::InvalidValueInformation)
    );
}

#[test]
fn averaged_primary_block() {
    let data = [0x96, 0x12];
    let block = ValueInformationBlock::try_from(data.as_slice()).unwrap();
    assert_eq!(block.vif, 0x96);
    assert_eq!(block.value_information, ValueInformation::Primary(0x96, bytes(&[0x12])));
    assert_eq!(block.unit, Unit::CubicMeter);
    assert_eq!(factors(&block.units), vec![(Unit::CubicMeter, 1)]);
    assert!(block.labels.contains(ValueLabel::Averaged));
    assert!(!block.labels.contains(ValueLabel::FutureValue));
    assert_eq!(block.get_size(), 2);
    assert_eq!(block.exponent, Exponent::from(0));
    assert_eq!(block.offset_exponent, Exponent { inner: None });
    assert_eq!(block.quantity, Quantity::Volume);
    assert_eq!(block.value_information.extensions().as_slice(), &[0x12]);
}

#[test]
fn primary_table_units_and_scales() {
    let cases: Vec<(u8, Unit, Option<isize>, Quantity)> = vec![
        (0x00, Unit::WattHour, Some(-3), Quantity::Energy),
        (0x07, Unit::WattHour, Some(4), Quantity::Energy),
        (0x0B, Unit::Joul, Some(3), Quantity::Energy),
        (0x13, Unit::CubicMeter, Some(-3), Quantity::Volume),
        (0x1A, Unit::Kilogram, Some(-1), Quantity::Mass),
        (0x20, Unit::Seconds, Some(0), Quantity::Duration),
        (0x25, Unit::Minutes, Some(0), Quantity::Duration),
        (0x26, Unit::Hours, Some(0), Quantity::Duration),
        (0x27, Unit::Days, Some(0), Quantity::Duration),
        (0x2B, Unit::Watt, Some(0), Quantity::Power),
        (0x33, Unit::JoulPerHour, Some(3), Quantity::Power),
        (0x3B, Unit::CubicMeterPerHour, Some(-3), Quantity::VolumeFlow),
        (0x45, Unit::CubicMeterPerMinute, Some(-2), Quantity::VolumeFlow),
        (0x4F, Unit::CubicMeterPerSecond, Some(-2), Quantity::VolumeFlow),
        (0x52, Unit::KilogramPerHour, Some(-1), Quantity::MassFlow),
        (0x5A, Unit::Celsius, Some(-1), Quantity::Temperature),
        (0x61, Unit::Kelvin, Some(-2), Quantity::Temperature),
        (0x66, Unit::Celsius, Some(-1), Quantity::Temperature),
        (0x6B, Unit::Bar, Some(0), Quantity::Pressure),
        (0x6C, Unit::TimePoint, None, Quantity::TimePoint),
        (0x6D, Unit::TimePoint, None, Quantity::TimePoint),
        (0x75, Unit::ActualityDuration, None, Quantity::Duration),
        (0x78, Unit::FabricationNumber, None, Quantity::IdentificationNumber),
    ];
    for (vif, unit, scale, quantity) in cases {
        let v = ValueInformation::try_from([vif].as_slice()).unwrap();
        assert_eq!(v, ValueInformation::Primary(vif, ArrayVec::new()));
        assert_eq!(Unit::try_from(&v), Ok(unit), "unit of {:#x}", vif);
        assert_eq!(Exponent::from(&v), Exponent { inner: scale }, "scale of {:#x}", vif);
        assert_eq!(Quantity::try_from(&v), Ok(quantity), "quantity of {:#x}", vif);
        let block = ValueInformationBlock::try_from([vif].as_slice()).unwrap();
        assert_eq!(block.unit, unit);
        assert_eq!(block.exponent, Exponent { inner: scale });
        assert_eq!(block.quantity, quantity);
    }
}

#[test]
fn primary_codes_without_an_entry_are_not_supported() {
    for vif in [0x6Eu8, 0x6F, 0x70, 0x73, 0x79, 0x7A, 0x7B] {
        let v = ValueInformation::try_from([vif].as_slice()).unwrap();
        assert_eq!(Unit::try_from(&v), Err(ValueInformationError::UnsupportedVif));
        assert_eq!(Quantity::try_from(&v), Err(ValueInformationError::UnsupportedVif));
        assert_eq!(Exponent::from(&v), Exponent { inner: None });
        assert_eq!(
            ValueInformationBlock::try_from([vif].as_slice()),
            Err(ValueInformationError::UnsupportedVif)
        );
    }
    // Any VIF selects records and names no unit.
    let any = ValueInformation::try_from([0x7E].as_slice()).unwrap();
    assert_eq!(any, ValueInformation::Any(ArrayVec::new()));
    assert_eq!(any.get_size(), 1);
    assert_eq!(Unit::try_from(&any), Err(ValueInformationError::UnsupportedVif));
    // 0x7D announces an extended table without the byte that selects from it.
    assert_eq!(
        ValueInformation::try_from([0x7D, 0x1B].as_slice()),
        Err(ValueInformationError::InvalidValueInformation)
    );
    assert_eq!(
        ValueInformation::try_from([].as_slice()),
        Err(ValueInformationError::InvalidValueInformation)
    );
}

#[test]
fn compound_units_resolve_into_factors() {
    let block = ValueInformationBlock::try_from([0x3B].as_slice()).unwrap();
    assert_eq!(block.unit, Unit::CubicMeterPerHour);
    assert_eq!(factors(&block.units), vec![(Unit::CubicMeter, 1), (Unit::Hours, -1)]);
    let block = ValueInformationBlock::try_from([0x6D].as_slice()).unwrap();
    assert_eq!(factors(&block.units), vec![]);
    assert!(block.labels.contains(ValueLabel::DateTime));
    assert!(!block.labels.contains(ValueLabel::Date));
}

#[test]
fn extended_tables() {
    let v = ValueInformation::try_from([0xFD, 0x1B].as_slice()).unwrap();
    assert_eq!(v, ValueInformation::Extended(VIFExtension::DigitalInput, ArrayVec::new()));
    assert_eq!(v.get_size(), 2);
    assert_eq!(Unit::try_from(&v), Ok(Unit::WithoutUnits));
    assert_eq!(Quantity::try_from(&v), Ok(Quantity::BinaryDigitalInput));
    assert_eq!(Exponent::from(&v), Exponent { inner: None });

    let v = ValueInformation::try_from([0xFD, 0x47].as_slice()).unwrap();
    assert_eq!(v, ValueInformation::Extended(VIFExtension::Volts(7), ArrayVec::new()));
    assert_eq!(Unit::try_from(&v), Ok(Unit::Volt));
    assert_eq!(Exponent::from(&v), Exponent::from(-2));
    assert_eq!(Quantity::try_from(&v), Ok(Quantity::Voltage));

    // Volts and amperes carry four bits of exponent each.
    let v = ValueInformation::try_from([0xFD, 0x4A].as_slice()).unwrap();
    assert_eq!(v, ValueInformation::Extended(VIFExtension::Volts(0x0A), ArrayVec::new()));
    assert_eq!(Exponent::from(&v), Exponent::from(1));
    let v = ValueInformation::try_from([0xFD, 0x50].as_slice()).unwrap();
    assert_eq!(v, ValueInformation::Extended(VIFExtension::Ampere(0), ArrayVec::new()));
    assert_eq!(Exponent::from(&v), Exponent::from(-12));
    let v = ValueInformation::try_from([0xFD, 0x5C].as_slice()).unwrap();
    assert_eq!(v, ValueInformation::Extended(VIFExtension::Ampere(12), ArrayVec::new()));
    assert_eq!(Exponent::from(&v), Exponent::from(0));
    assert_eq!(Unit::try_from(&v), Ok(Unit::Ampere));
    assert_eq!(Quantity::try_from(&v), Ok(Quantity::Current));
    // The storage interval in seconds to days; the code before it is
    // reserved.
    let v = ValueInformation::try_from([0xFD, 0x24].as_slice()).unwrap();
    assert_eq!(
        v,
        ValueInformation::Extended(VIFExtension::StorageIntervalSecondsToDays(0), ArrayVec::new())
    );
    assert_eq!(Unit::try_from(&v), Ok(Unit::Seconds));
    let v = ValueInformation::try_from([0xFD, 0x27].as_slice()).unwrap();
    assert_eq!(Unit::try_from(&v), Ok(Unit::Days));
    let v = ValueInformation::try_from([0xFD, 0x23].as_slice()).unwrap();
    assert_eq!(v, ValueInformation::Extended(VIFExtension::Reserved, ArrayVec::new()));

    let v = ValueInformation::try_from([0xFD, 0x02].as_slice()).unwrap();
    assert_eq!(
        v,
        ValueInformation::Extended(VIFExtension::CreditOfCurrencyUnits(2), ArrayVec::new())
    );
    assert_eq!(Exponent::from(&v), Exponent::from(-1));

    let v = ValueInformation::try_from([0xFB, 0x01].as_slice()).unwrap();
    assert_eq!(v, ValueInformation::Extended(VIFExtension::EnergyMWh(1), ArrayVec::new()));
    assert_eq!(Unit::try_from(&v), Ok(Unit::MegaWattHour));
    assert_eq!(Exponent::from(&v), Exponent::from(0));
    assert_eq!(Quantity::try_from(&v), Ok(Quantity::Energy));

    let v = ValueInformation::try_from([0xFB, 0x7D].as_slice()).unwrap();
    assert_eq!(
        v,
        ValueInformation::Extended(VIFExtension::CumulativeCountMaxPower(5), ArrayVec::new())
    );
    assert_eq!(Unit::try_from(&v), Ok(Unit::Watt));
    assert_eq!(Exponent::from(&v), Exponent::from(2));

    let v = ValueInformation::try_from([0xFB, 0x72].as_slice()).unwrap();
    assert_eq!(
        v,
        ValueInformation::Extended(
            VIFExtension::ColdWarmTemperatureLimitFarenheit(2),
            ArrayVec::new()
        )
    );
    assert_eq!(Unit::try_from(&v), Ok(Unit::Fahrenheit));

    // The entry is selected by the low seven bits; the top bit announces
    // another extension.
    let block = ValueInformationBlock::try_from([0xFD, 0x9B, 0x12].as_slice()).unwrap();
    assert_eq!(
        block.value_information,
        ValueInformation::Extended(VIFExtension::DigitalInput, bytes(&[0x12]))
    );
    assert!(block.labels.contains(ValueLabel::Averaged));
    assert_eq!(block.get_size(), 3);
    assert_eq!(block.value_information.extensions().as_slice(), &[0x12]);

    // A code without an entry.
    let v = ValueInformation::try_from([0xFD, 0x19].as_slice()).unwrap();
    assert_eq!(v, ValueInformation::Extended(VIFExtension::Reserved, ArrayVec::new()));
    assert_eq!(Unit::try_from(&v), Err(ValueInformationError::UnsupportedVif));
    assert_eq!(
        ValueInformationBlock::try_from([0xFD, 0x19].as_slice()),
        Err(ValueInformationError::UnsupportedVif)
    );
    // The byte that selects the entry is missing.
    assert_eq!(
        ValueInformation::try_from([0xFD].as_slice()),
        Err(ValueInformationError::InvalidValueInformation)
    );
}

#[test]
fn manufacturer_specific_block_keeps_its_extensions_unread() {
    let block = ValueInformationBlock::try_from([0xFF, 0x20].as_slice()).unwrap();
    assert_eq!(block.value_information, ValueInformation::ManufacturerSpecific(bytes(&[0x20])));
    assert_eq!(block.unit, Unit::WithoutUnits);
    assert_eq!(block.quantity, Quantity::ManufacturerSpecific);
    assert_eq!(block.units.len(), 0);
    assert!(block.labels.contains(ValueLabel::ManufacturerSpecific));
    assert_eq!(block.get_size(), 2);
    assert_eq!(block.value_information.extensions().as_slice(), &[0x20]);
}

#[test]
fn orthogonal_extensions_append_units_and_correct_exponents() {
    // Energy in Wh, per hour.
    let block = ValueInformationBlock::try_from([0x83, 0x22].as_slice()).unwrap();
    assert_eq!(factors(&block.units), vec![(Unit::WattHour, 1), (Unit::Hours, -1)]);
    assert_eq!(block.exponent, Exponent::from(0));

    // Increment per input pulse on channel 1.
    let block = ValueInformationBlock::try_from([0x93, 0x2A].as_slice()).unwrap();
    assert_eq!(
        factors(&block.units),
        vec![(Unit::CubicMeter, 1), (Unit::Increment, 1), (Unit::InputPulseOnChannel1, -1)]
    );

    // Volume per gigajoule: the exponent drops by nine.
    let block = ValueInformationBlock::try_from([0x93, 0x31].as_slice()).unwrap();
    assert_eq!(factors(&block.units), vec![(Unit::CubicMeter, 1), (Unit::Joul, -1)]);
    assert_eq!(block.exponent, Exponent::from(-12));

    // Two corrections of the scale and one of the additive constant.
    let block = ValueInformationBlock::try_from([0x93, 0xF7, 0xF0, 0x79].as_slice()).unwrap();
    assert_eq!(block.exponent, Exponent::from(-3 + 1 - 6));
    assert_eq!(block.offset_exponent, Exponent::from(-2));
    assert_eq!(block.get_size(), 4);

    // Duration of the last exceedance of the upper limit, in hours.
    let block = ValueInformationBlock::try_from([0xAB, 0x5E].as_slice()).unwrap();
    assert_eq!(factors(&block.units), vec![(Unit::Watt, 1), (Unit::Hours, 1)]);
    assert!(block.labels.contains(ValueLabel::DurationOfLastUpperLimitExceed));

    // Behind 0x7F the extensions are the manufacturer's.
    let block = ValueInformationBlock::try_from([0x93, 0xFF, 0x20].as_slice()).unwrap();
    assert_eq!(factors(&block.units), vec![(Unit::CubicMeter, 1)]);
    assert!(block.labels.contains(ValueLabel::ManufacturerSpecific));
    assert_eq!(block.get_size(), 3);
}

#[test]
fn unit_vector_of_more_than_ten_factors_is_refused() {
    // m3/h and four extensions of two factors each: ten factors.
    let data = [0xBB, 0xA8, 0xA9, 0xAA, 0x2B];
    let block = ValueInformationBlock::try_from(data.as_slice()).unwrap();
    assert_eq!(block.units.len(), 10);
    // One factor more.
    let data = [0xBB, 0xA8, 0xA9, 0xAA, 0xAB, 0x20];
    assert_eq!(
        ValueInformationBlock::try_from(data.as_slice()),
        Err(ValueInformationError::InvalidValueInformation)
    );
}

#[test]
fn vife_chain_of_ten_is_read_and_of_eleven_is_too_long() {
    let mut data = vec![0x93];
    data.extend_from_slice(&[0x92; 9]);
    data.push(0x12);
    let block = ValueInformationBlock::try_from(data.as_slice()).unwrap();
    assert_eq!(block.value_information.extensions().len(), 10);
    assert_eq!(block.get_size(), 11);

    let mut data = vec![0x93];
    data.extend_from_slice(&[0x92; 11]);
    assert_eq!(
        ValueInformationBlock::try_from(data.as_slice()),
        Err(ValueInformationError::VifeChainTooLong)
    );
    for layout in [PlainTextLayout::Common, PlainTextLayout::NormConform] {
        assert_eq!(
            ValueInformationBlock::parse(data.as_slice(), layout),
            Err(ValueInformationError::VifeChainTooLong)
        );
    }
    // Ten flagged extensions are already one too many, whatever follows.
    let mut data = vec![0x93];
    data.extend_from_slice(&[0x92; 10]);
    assert_eq!(
        ValueInformationBlock::try_from(data.as_slice()),
        Err(ValueInformationError::VifeChainTooLong)
    );
    // Behind the name of a plain-text unit.
    let mut data = vec![0xFC, 0x01, b'x'];
    data.extend_from_slice(&[0x92; 11]);
    assert_eq!(
        ValueInformationBlock::try_from(data.as_slice()),
        Err(ValueInformationError::VifeChainTooLong)
    );
    // The chain is cut off.
    assert_eq!(
        ValueInformationBlock::try_from([0x93, 0x92].as_slice()),
        Err(ValueInformationError::InvalidValueInformation)
    );
}

#[test]
fn label_set_holds_what_was_inserted() {
    let mut labels = LabelSet::new();
    assert!(!labels.contains(ValueLabel::Averaged));
    labels.insert(ValueLabel::Averaged);
    labels.insert(ValueLabel::ManufacturerSpecific);
    labels.insert(ValueLabel::Averaged);
    assert!(labels.contains(ValueLabel::Averaged));
    assert!(labels.contains(ValueLabel::ManufacturerSpecific));
    assert!(!labels.contains(ValueLabel::PlainTextUnit));
    let mut other = LabelSet::new();
    other.insert(ValueLabel::ManufacturerSpecific);
    assert_ne!(labels, other);
    other.insert(ValueLabel::Averaged);
    assert_eq!(labels, other);
}

#[test]
fn unit_vector_holds_ten_factors() {
    let mut units = UnitVector::new();
    assert_eq!(units.len(), 0);
    assert_eq!(units.get(0), None);
    for i in 0..10 {
        assert!(units.push(UnitFactor { unit: Unit::Seconds, exponent: i }));
    }
    assert!(!units.push(UnitFactor { unit: Unit::Hours, exponent: 1 }));
    assert_eq!(units.len(), 10);
    assert_eq!(units.get(9), Some(UnitFactor { unit: Unit::Seconds, exponent: 9 }));
    assert_eq!(units.get(10), None);
}

#[test]
fn without_a_layout_the_norm_is_tried_first() {
    // These bytes read in both layouts; the norm wins.
    let both = [0xFC, 0x01, 0x01, 0x41];
    let v = ValueInformation::try_from(both.as_slice()).unwrap();
    assert_eq!(
        v,
        ValueInformation::PlainText(bytes(&[0x41]), bytes(&[0x01]), PlainTextLayout::NormConform)
    );
    assert_eq!(
        ValueInformation::parse(both.as_slice(), PlainTextLayout::Common),
        Ok(ValueInformation::PlainText(bytes(&[0x01]), bytes(&[0x41]), PlainTextLayout::Common))
    );
    // Here the norm would need a name of five characters, which is not there.
    let common = [0xFC, 0x01, 0x05, 0x41];
    let v = ValueInformation::try_from(common.as_slice()).unwrap();
    assert_eq!(
        v,
        ValueInformation::PlainText(bytes(&[0x05]), bytes(&[0x41]), PlainTextLayout::Common)
    );
    assert_eq!(v.get_size(), 4);
    // Without the extension flag there is no chain, and the layouts are one.
    let plain = [0x7C, 0x02, b'h', b'k'];
    let v = ValueInformation::try_from(plain.as_slice()).unwrap();
    assert_eq!(
        v,
        ValueInformation::PlainText(bytes(b"kh"), ArrayVec::new(), PlainTextLayout::NormConform)
    );
    // Where both layouts fail, a chain that is too long is what is reported.
    let mut long = vec![0xFC];
    long.extend_from_slice(&[0x92; 11]);
    assert_eq!(
        ValueInformation::try_from(long.as_slice()),
        Err(ValueInformationError::VifeChainTooLong)
    );
    assert_eq!(
        ValueInformation::parse(long.as_slice(), PlainTextLayout::Common),
        Err(ValueInformationError::InvalidValueInformation)
    );
    let mut long = vec![0xFC, 0x01, b'x'];
    long.extend_from_slice(&[0x92; 11]);
    assert_eq!(
        ValueInformation::try_from(long.as_slice()),
        Err(ValueInformationError::VifeChainTooLong)
    );
    // An extended VIF has nine extensions behind the byte that selects.
    let mut extended = vec![0xFD, 0x9B];
    extended.extend_from_slice(&[0x92; 8]);
    extended.push(0x12);
    let v = ValueInformation::try_from(extended.as_slice()).unwrap();
    assert_eq!(v.extensions().len(), 9);
    assert_eq!(v.get_size(), 11);
    let mut extended = vec![0xFD, 0x9B];
    extended.extend_from_slice(&[0x92; 9]);
    extended.push(0x12);
    assert_eq!(
        ValueInformation::try_from(extended.as_slice()),
        Err(ValueInformationError::VifeChainTooLong)
    );
}
