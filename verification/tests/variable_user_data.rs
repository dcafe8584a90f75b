use arrayvec::ArrayVec;
use m_bus_parser::user_data::data_information::{DataInformationError, FunctionField};
use m_bus_parser::user_data::payload::DataValue;
use m_bus_parser::user_data::unit_vector::{UnitFactor, UnitVector};
use m_bus_parser::user_data::value_information::{
    PlainTextLayout, Unit, VIFExtension, ValueInformation, ValueInformationError,
};
use m_bus_parser::user_data::value_label::{LabelSet, ValueLabel};
use m_bus_parser::user_data::variable_user_data::{
    DataRecord, DataRecordError, Exponent, Quantity, VariableUserDataError,
    _test_parse_variable_data2, _test_parse_variable_data3,
};
use m_bus_parser::user_data::DataRecords;

/// The value of a record as a floating-point number, not scaled.
fn as_f64(value: &DataValue) -> f64 {
    match value {
        DataValue::Integer(i) => *i as f64,
        DataValue::Decimal { negative, magnitude } => {
            if *negative {
                -(*magnitude as f64)
            } else {
                *magnitude as f64
            }
        }
        DataValue::Real32(bits) => f32::from_bits(*bits) as f64,
        DataValue::NotANumber => f64::NAN,
    }
}

/// The value of a record scaled by its decimal exponent.
fn scaled(record: &DataRecord) -> f64 {
    let value = as_f64(&record.value);
    match record.exponent.inner {
        Some(e) if e < 0 => value / 10f64.powi(-e as i32),
        Some(e) => value * 10f64.powi(e as i32),
        None => value,
    }
}

fn units_of(factors: &[(Unit, i32)]) -> UnitVector {
    let mut units = UnitVector::new();
    for (unit, exponent) in factors {
        assert!(units.push(UnitFactor { unit: *unit, exponent: *exponent }));
    }
    units
}

fn labels_of(labels: &[ValueLabel]) -> LabelSet {
    let mut set = LabelSet::new();
    for label in labels {
        set.insert(*label);
    }
    set
}

#[test]
fn test_parse_variable_data() {
    /* Data block 1: unit 0, storage No 0, no tariff, instantaneous volume, 12565 l (24 bit integer) */
    /* DIF = 0x03, VIF = 0x13, Value = 0x153100 */
    let data = &[0x03, 0x13, 0x15, 0x31, 0x00];

    let result = DataRecords::try_from(data.as_slice());
    let records = result.unwrap();
    assert_eq!(
        records.get(0),
        Some(&DataRecord {
            function: FunctionField::InstantaneousValue,
            storage_number: 0,
            tariff: 0,
            sub_device: 0,
            value_information: ValueInformation::Primary(0x13, ArrayVec::new()),
            unit: Unit::CubicMeter,
            units: units_of(&[(Unit::CubicMeter, 1)]),
            exponent: Exponent::from(-3),
            offset_exponent: Exponent { inner: None },
            labels: LabelSet::new(),
            quantity: Quantity::Volume,
            value: DataValue::Integer(12565),
            size: 5,
        })
    );
    assert_eq!(as_f64(&records.get(0).unwrap().value), 12565.0);
    assert_eq!(records.len(), 1);
    assert!(!records.more_records_follow);
    assert!(records.manufacturer_specific_data.is_empty());
}

#[test]
fn test_parse_variable_data2() {
    let data = &[0x01, 0xFD, 0x1B, 0x00];

    let result = DataRecords::try_from(data.as_slice());
    let records = result.unwrap();
    assert_eq!(
        records.get(0),
        Some(&DataRecord {
            function: FunctionField::InstantaneousValue,
            storage_number: 0,
            tariff: 0,
            sub_device: 0,
            value_information: ValueInformation::Extended(
                VIFExtension::DigitalInput,
                ArrayVec::new()
            ),
            unit: Unit::WithoutUnits,
            units: UnitVector::new(),
            exponent: Exponent { inner: None },
            offset_exponent: Exponent { inner: None },
            labels: LabelSet::new(),
            quantity: Quantity::BinaryDigitalInput,
            value: DataValue::Integer(0),
            size: 4,
        })
    );
    assert_eq!(as_f64(&records.get(0).unwrap().value), 0.0);
}

/*  Out: PlainText : Unit "%RH"  Value:   33.96
In: 0x02, 0xFC, 0x03, 0x48, 0x52, 0x25, 0x74, 0x44, 0x0D*/
#[test]
fn test_parse_variable_data3() {
    let data = &[0x02, 0xFC, 0x03, 0x48, 0x52, 0x25, 0x74, 0x44, 0x0D];

    let mut name = ArrayVec::<u8, 10>::new();
    name.try_extend_from_slice(b"%RH").unwrap();
    let mut extension = ArrayVec::<u8, 10>::new();
    extension.push(0x74);
    let result = DataRecords::try_from(data.as_slice());
    let records = result.unwrap();
    assert_eq!(
        records.get(0),
        Some(&DataRecord {
            function: FunctionField::InstantaneousValue,
            storage_number: 0,
            tariff: 0,
            sub_device: 0,
            value_information: ValueInformation::PlainText(
                name,
                extension,
                PlainTextLayout::Common
            ),
            unit: Unit::PlainText,
            units: UnitVector::new(),
            exponent: Exponent::from(-2),
            offset_exponent: Exponent { inner: None },
            labels: labels_of(&[ValueLabel::PlainTextUnit]),
            quantity: Quantity::PlainText,
            value: DataValue::Integer(3396),
            size: 9,
        })
    );
    assert_eq!(scaled(records.get(0).unwrap()), 33.96);
    match &records.get(0).unwrap().value_information {
        ValueInformation::PlainText(name, _, _) => {
            assert_eq!(name.as_slice(), &[0x25, 0x52, 0x48])
        }
        other => panic!("not a plain-text unit: {:?}", other),
    }
}

#[test]
fn plain_text_record_in_the_layout_of_the_norm() {
    let norm = [0x02, 0xFC, 0x74, 0x03, 0x48, 0x52, 0x25, 0x44, 0x0D];
    let common = [0x02, 0xFC, 0x03, 0x48, 0x52, 0x25, 0x74, 0x44, 0x0D];
    let record = DataRecord::parse(norm.as_slice(), PlainTextLayout::NormConform).unwrap();
    let other = DataRecord::parse(common.as_slice(), PlainTextLayout::Common).unwrap();
    // The two records differ in nothing but the layout that they name.
    assert_eq!(record.size, 9);
    assert_eq!(other.size, 9);
    assert_eq!(record.value, other.value);
    assert_eq!(record.exponent, other.exponent);
    assert_eq!(record.labels, other.labels);
    match (&record.value_information, &other.value_information) {
        (
            ValueInformation::PlainText(name, vife, PlainTextLayout::NormConform),
            ValueInformation::PlainText(other_name, other_vife, PlainTextLayout::Common),
        ) => {
            assert_eq!(name, other_name);
            assert_eq!(vife, other_vife);
        }
        other => panic!("not two plain-text units: {:?}", other),
    }
    // Without a layout demanded, each is read in the layout that fits.
    assert_eq!(DataRecord::try_from(norm.as_slice()).as_ref(), Ok(&record));
    assert_eq!(DataRecord::try_from(common.as_slice()).as_ref(), Ok(&other));
    // With the other layout demanded, no name is found.
    assert_eq!(
        DataRecord::parse(norm.as_slice(), PlainTextLayout::Common),
        Err(DataRecordError::ValueInformationError(
            ValueInformationError::InvalidValueInformation
        ))
    );
    assert_eq!(
        DataRecord::parse(common.as_slice(), PlainTextLayout::NormConform),
        Err(DataRecordError::ValueInformationError(
            ValueInformationError::InvalidValueInformation
        ))
    );
}

#[test]
fn worked_examples_decode_as_stated() {
    let record = _test_parse_variable_data2().unwrap();
    assert_eq!(record.function, FunctionField::MaximumValue);
    assert_eq!(record.storage_number, 5);
    assert_eq!(record.tariff, 0);
    assert_eq!(record.sub_device, 0);
    assert_eq!(record.unit, Unit::CubicMeterPerHour);
    assert_eq!(record.units, units_of(&[(Unit::CubicMeter, 1), (Unit::Hours, -1)]));
    assert_eq!(record.exponent, Exponent::from(-3));
    assert_eq!(record.quantity, Quantity::VolumeFlow);
    assert_eq!(record.value, DataValue::Decimal { negative: false, magnitude: 113 });
    assert_eq!(record.size, 5);
    assert_eq!(scaled(&record), 0.113);
    let same = DataRecord::try_from([0xDA, 0x02, 0x3B, 0x13, 0x01].as_slice()).unwrap();
    assert_eq!(record, same);

    let record = _test_parse_variable_data3().unwrap();
    assert_eq!(record.function, FunctionField::InstantaneousValue);
    assert_eq!(record.storage_number, 0);
    assert_eq!(record.tariff, 2);
    assert_eq!(record.sub_device, 1);
    assert_eq!(record.unit, Unit::WattHour);
    assert_eq!(record.exponent, Exponent::from(1));
    assert_eq!(record.quantity, Quantity::Energy);
    assert_eq!(record.value, DataValue::Decimal { negative: false, magnitude: 21837 });
    assert_eq!(record.size, 6);
    assert_eq!(scaled(&record), 218370.0);
}

#[test]
fn stream_skips_fillers_and_stops_at_the_manufacturer_data() {
    let data = [
        0x2F, 0x2F, 0x03, 0x13, 0x15, 0x31, 0x00, 0x2F, 0xDA, 0x02, 0x3B, 0x13, 0x01, 0x0F, 0xAA,
        0xBB,
    ];
    let records = DataRecords::try_from(data.as_slice()).unwrap();
    assert_eq!(records.len(), 2);
    assert!(!records.is_empty());
    assert_eq!(records.get(0).unwrap().value, DataValue::Integer(12565));
    assert_eq!(records.get(1).unwrap().storage_number, 5);
    assert_eq!(records.last(), records.get(1));
    assert_eq!(records.get(2), None);
    assert!(!records.more_records_follow);
    assert_eq!(records.manufacturer_specific_data, &[0xAA, 0xBB]);
    let consumed: usize = records.get(0).unwrap().size + records.get(1).unwrap().size;
    assert_eq!(consumed + 3 + 1 + 2, data.len());

    let data = [0x03, 0x13, 0x15, 0x31, 0x00, 0x1F];
    let records = DataRecords::try_from(data.as_slice()).unwrap();
    assert_eq!(records.len(), 1);
    assert!(records.more_records_follow);
    assert!(records.manufacturer_specific_data.is_empty());

    let records = DataRecords::try_from([].as_slice()).unwrap();
    assert!(records.is_empty());
    assert_eq!(records.last(), None);
}

#[test]
fn one_bad_record_fails_the_stream() {
    // The second record is cut off inside its payload.
    let data = [0x03, 0x13, 0x15, 0x31, 0x00, 0x04, 0x13, 0x01];
    assert_eq!(
        DataRecords::try_from(data.as_slice()),
        Err(VariableUserDataError::DataInformationError(
            DataRecordError::DataInformationError(DataInformationError::TruncatedPayload)
        ))
    );
    // A VIF without a unit.
    let data = [0x01, 0x6F, 0x00];
    assert_eq!(
        DataRecords::try_from(data.as_slice()),
        Err(VariableUserDataError::DataInformationError(
            DataRecordError::ValueInformationError(ValueInformationError::UnsupportedVif)
        ))
    );
    // A DIF and nothing behind it.
    assert_eq!(
        DataRecord::try_from([0x01].as_slice()),
        Err(DataRecordError::ValueInformationError(
            ValueInformationError::InvalidValueInformation
        ))
    );
    assert_eq!(
        DataRecord::try_from([].as_slice()),
        Err(DataRecordError::DataInformationError(DataInformationError::NoData))
    );
    // A special function where a record is expected.
    assert_eq!(
        DataRecord::try_from([0x7F, 0x13].as_slice()),
        Err(DataRecordError::DataInformationError(DataInformationError::UnsupportedCoding))
    );
}

#[test]
fn extension_chains_of_eleven_fail_the_stream() {
    let mut data = vec![0x81];
    data.extend_from_slice(&[0x80; 11]);
    data.extend_from_slice(&[0x13, 0x00]);
    assert_eq!(
        DataRecords::try_from(data.as_slice()),
        Err(VariableUserDataError::DataInformationError(
            DataRecordError::DataInformationError(DataInformationError::DifeChainTooLong)
        ))
    );
    let mut data = vec![0x01, 0x93];
    data.extend_from_slice(&[0x92; 11]);
    data.push(0x00);
    assert_eq!(
        DataRecords::try_from(data.as_slice()),
        Err(VariableUserDataError::DataInformationError(
            DataRecordError::ValueInformationError(ValueInformationError::VifeChainTooLong)
        ))
    );
    assert_eq!(
        DataRecords::parse(data.as_slice(), PlainTextLayout::NormConform),
        Err(VariableUserDataError::DataInformationError(
            DataRecordError::ValueInformationError(ValueInformationError::VifeChainTooLong)
        ))
    );
}

#[test]
fn record_without_data_is_zero() {
    let record = DataRecord::try_from([0x00, 0x13, 0xFF].as_slice()).unwrap();
    assert_eq!(record.value, DataValue::Integer(0));
    assert_eq!(as_f64(&record.value), 0.0);
    assert_eq!(record.size, 2);
    // Selection for readout holds no value either.
    let record = DataRecord::try_from([0x08, 0x13].as_slice()).unwrap();
    assert_eq!(record.value, DataValue::Integer(0));
    assert_eq!(record.size, 2);
}

#[test]
fn errors_wrap_one_another() {
    assert_eq!(
        DataRecordError::from(DataInformationError::BcdError),
        DataRecordError::DataInformationError(DataInformationError::BcdError)
    );
    assert_eq!(
        DataRecordError::from(ValueInformationError::VifeChainTooLong),
        DataRecordError::ValueInformationError(ValueInformationError::VifeChainTooLong)
    );
    let inner = DataRecordError::from(DataInformationError::NoData);
    assert_eq!(
        VariableUserDataError::from(inner),
        VariableUserDataError::DataInformationError(inner)
    );
    assert_eq!(Exponent::from(7), Exponent { inner: Some(7) });
}

#[test]
fn records_are_kept_in_the_order_given() {
    let tail = [0x01, 0x02];
    let first = || DataRecord::try_from([0x03, 0x13, 0x15, 0x31, 0x00].as_slice()).unwrap();
    let second = || DataRecord::try_from([0xDA, 0x02, 0x3B, 0x13, 0x01].as_slice()).unwrap();
    let mut records = DataRecords::new();
    assert!(records.is_empty());
    assert_eq!(records.len(), 0);
    assert_eq!(records.get(0), None);
    assert!(!records.more_records_follow);
    assert!(records.manufacturer_specific_data.is_empty());
    let _ = records.add_record(first());
    let _ = records.add_record(second());
    assert_eq!(records.len(), 2);
    assert_eq!(records.get(0), Some(&first()));
    assert_eq!(records.get(1), Some(&second()));
    assert_eq!(records.last(), Some(&second()));
    assert_eq!(records, DataRecords::from_parts(vec![first(), second()], false, &[]));
    let other = DataRecords::from_parts(vec![first(), second()], true, &tail);
    assert!(other.more_records_follow);
    assert_eq!(other.manufacturer_specific_data, &tail);
    assert_eq!(other.len(), 2);
    assert_ne!(records, other);
}
