use m_bus_parser::extension::{read_chain, ChainError};
use m_bus_parser::user_data::data_information::{
    DataFieldCoding, DataInformationBlock, DataInformationError, FunctionField, SpecialFunctions,
};
use m_bus_parser::user_data::payload::{Data, DataValue};

#[test]
fn dif_without_extension() {
    let block = DataInformationBlock::try_from([0x03, 0x13].as_slice()).unwrap();
    assert_eq!(block.dif, 0x03);
    assert!(block.dife.is_empty());
    assert_eq!(block.storage_number, 0);
    assert_eq!(block.tariff, 0);
    assert_eq!(block.sub_device, 0);
    assert_eq!(block.function_field, FunctionField::InstantaneousValue);
    assert_eq!(block.data_field_coding, DataFieldCoding::Integer24Bit);
    assert_eq!(block.get_size(), 1);

    let block = DataInformationBlock::try_from([0x7C].as_slice()).unwrap();
    assert_eq!(block.storage_number, 1);
    assert_eq!(block.function_field, FunctionField::ValueDuringErrorState);
    assert_eq!(block.data_field_coding, DataFieldCoding::BCD8Digit);
    let block = DataInformationBlock::try_from([0x2E].as_slice()).unwrap();
    assert_eq!(block.function_field, FunctionField::MinimumValue);
    assert_eq!(block.data_field_coding, DataFieldCoding::BCDDigit12);
}

#[test]
fn storage_number_tariff_and_sub_device_concatenate() {
    // DIF bit 6 set, DIFE nibbles 0x2, 0xA, 0xF: 1 + (0x2 + 0xA0 + 0xF00) * 2.
    let block = DataInformationBlock::try_from([0xC1, 0x92, 0xEA, 0x3F].as_slice()).unwrap();
    assert_eq!(block.dife.as_slice(), &[0x92, 0xEA, 0x3F]);
    assert_eq!(block.storage_number, 1 + 2 * 0xFA2);
    assert_eq!(block.storage_number & 1, 1);
    assert_eq!((block.storage_number >> 1) & 0xF, 0x2);
    assert_eq!((block.storage_number >> 5) & 0xF, 0xA);
    assert_eq!((block.storage_number >> 9) & 0xF, 0xF);
    // Tariff bits 01, 10, 11, lowest first.
    assert_eq!(block.tariff, 0b11_10_01);
    // Sub-device bits 0, 1, 0.
    assert_eq!(block.sub_device, 0b010);
    assert_eq!(block.get_size(), 4);
}

#[test]
fn ten_extensions_give_forty_one_bits() {
    let mut data = vec![0xC1];
    data.extend_from_slice(&[0xFF; 9]);
    data.push(0x7F);
    data.push(0x13);
    let block = DataInformationBlock::try_from(data.as_slice()).unwrap();
    assert_eq!(block.dife.len(), 10);
    assert_eq!(block.storage_number, (1u64 << 41) - 1);
    assert_eq!(block.tariff, (1u32 << 20) - 1);
    assert_eq!(block.sub_device, (1u32 << 10) - 1);
    assert_eq!(block.get_size(), 11);
}

#[test]
fn dife_chain_of_eleven_is_too_long() {
    let mut data = vec![0x81];
    data.extend_from_slice(&[0x80; 11]);
    assert_eq!(
        DataInformationBlock::try_from(data.as_slice()),
        Err(DataInformationError::DifeChainTooLong)
    );
    let mut data = vec![0x81];
    data.extend_from_slice(&[0x80; 10]);
    data.push(0x00);
    assert_eq!(
        DataInformationBlock::try_from(data.as_slice()),
        Err(DataInformationError::DifeChainTooLong)
    );
    assert_eq!(
        DataInformationBlock::try_from([0x81, 0x80].as_slice()),
        Err(DataInformationError::InvalidDataInformation)
    );
    assert_eq!(
        DataInformationBlock::try_from([].as_slice()),
        Err(DataInformationError::NoData)
    );
}

#[test]
fn chains_are_read_in_wire_order() {
    let data = [0x00, 0x81, 0x82, 0x03, 0x84];
    let chain = read_chain(&data, 1).unwrap();
    assert_eq!(chain.as_slice(), &[0x81, 0x82, 0x03]);
    assert_eq!(read_chain(&data, 4), Err(ChainError::Truncated));
    assert_eq!(read_chain(&data, 5), Err(ChainError::Truncated));
    assert_eq!(read_chain(&data, 6), Err(ChainError::Truncated));
    assert_eq!(read_chain(&[0x80; 10], 0), Err(ChainError::TooLong));
    assert_eq!(read_chain(&[0x80; 9], 0), Err(ChainError::Truncated));
}

#[test]
fn special_functions() {
    let cases = [
        (0x0F, SpecialFunctions::ManufacturerSpecific),
        (0x1F, SpecialFunctions::MoreRecordsFollow),
        (0x2F, SpecialFunctions::IdleFiller),
        (0x3F, SpecialFunctions::Reserved),
        (0x5F, SpecialFunctions::Reserved),
        (0x6F, SpecialFunctions::Reserved),
        (0x7F, SpecialFunctions::GlobalReadoutRequest),
    ];
    for (dif, special) in cases {
        let coding = DataFieldCoding::from_dif(dif);
        assert_eq!(coding, DataFieldCoding::SpecialFunctions(special));
        assert_eq!(coding.get_size(), None);
        assert_eq!(
            coding.extract_from_bytes(&[1, 2, 3]),
            Err(DataInformationError::UnsupportedCoding)
        );
    }
}

#[test]
fn integers_are_twos_complement_little_endian() {
    let value = |coding: DataFieldCoding, bytes: &[u8]| coding.extract_from_bytes(bytes);
    assert_eq!(
        value(DataFieldCoding::Integer8Bit, &[0xFF, 0x01]),
        Ok(Data { data: DataValue::Integer(-1), byte_size: 1 })
    );
    assert_eq!(
        value(DataFieldCoding::Integer16Bit, &[0x44, 0x0D]),
        Ok(Data { data: DataValue::Integer(3396), byte_size: 2 })
    );
    assert_eq!(
        value(DataFieldCoding::Integer16Bit, &[0x00, 0x80]),
        Ok(Data { data: DataValue::Integer(-32768), byte_size: 2 })
    );
    assert_eq!(
        value(DataFieldCoding::Integer24Bit, &[0x15, 0x31, 0x00]),
        Ok(Data { data: DataValue::Integer(12565), byte_size: 3 })
    );
    assert_eq!(
        value(DataFieldCoding::Integer32Bit, &[0xFE, 0xFF, 0xFF, 0xFF]),
        Ok(Data { data: DataValue::Integer(-2), byte_size: 4 })
    );
    assert_eq!(
        value(DataFieldCoding::Integer48Bit, &[0, 0, 0, 0, 0, 0x40]),
        Ok(Data { data: DataValue::Integer(1 << 46), byte_size: 6 })
    );
    assert_eq!(
        value(DataFieldCoding::Integer64Bit, &[0, 0, 0, 0, 0, 0, 0, 0x80]),
        Ok(Data { data: DataValue::Integer(i64::MIN as i128), byte_size: 8 })
    );
    assert_eq!(
        value(DataFieldCoding::Integer64Bit, &[0xFF, 0xFF, 0xFF, 0xFF, 0xFF, 0xFF, 0xFF, 0x7F]),
        Ok(Data { data: DataValue::Integer(i64::MAX as i128), byte_size: 8 })
    );
    assert_eq!(
        value(DataFieldCoding::Integer32Bit, &[1, 2, 3]),
        Err(DataInformationError::TruncatedPayload)
    );
    assert_eq!(
        value(DataFieldCoding::NoData, &[]),
        Ok(Data { data: DataValue::Integer(0), byte_size: 0 })
    );
    assert_eq!(
        value(DataFieldCoding::SelectionForReadout, &[9]),
        Ok(Data { data: DataValue::Integer(0), byte_size: 0 })
    );
}

#[test]
fn real_numbers_keep_their_bits() {
    let bits = 1.5f32.to_bits();
    let data = DataFieldCoding::Real32Bit.extract_from_bytes(&bits.to_le_bytes()).unwrap();
    assert_eq!(data, Data { data: DataValue::Real32(bits), byte_size: 4 });
    // A NaN with a payload is not changed.
    let nan = [0x01, 0x00, 0xC0, 0x7F];
    let data = DataFieldCoding::Real32Bit.extract_from_bytes(&nan).unwrap();
    assert_eq!(data.data, DataValue::Real32(0x7FC0_0001));
    match data.data {
        DataValue::Real32(bits) => assert!(f32::from_bits(bits).is_nan()),
        other => panic!("not a real number: {:?}", other),
    }
}

#[test]
fn bcd_numbers() {
    let value = |coding: DataFieldCoding, bytes: &[u8]| coding.extract_from_bytes(bytes);
    assert_eq!(
        value(DataFieldCoding::BCD2Digit, &[0x42]),
        Ok(Data { data: DataValue::Decimal { negative: false, magnitude: 42 }, byte_size: 1 })
    );
    assert_eq!(
        value(DataFieldCoding::BCD4Digit, &[0x13, 0x01]),
        Ok(Data { data: DataValue::Decimal { negative: false, magnitude: 113 }, byte_size: 2 })
    );
    assert_eq!(
        value(DataFieldCoding::BCD6Digit, &[0x37, 0x18, 0x02]),
        Ok(Data { data: DataValue::Decimal { negative: false, magnitude: 21837 }, byte_size: 3 })
    );
    assert_eq!(
        value(DataFieldCoding::BCD8Digit, &[0x78, 0x03, 0x49, 0x11, 0xEE]),
        Ok(Data {
            data: DataValue::Decimal { negative: false, magnitude: 11490378 },
            byte_size: 4
        })
    );
    assert_eq!(
        value(DataFieldCoding::BCDDigit12, &[0x99, 0x99, 0x99, 0x99, 0x99, 0x99]),
        Ok(Data {
            data: DataValue::Decimal { negative: false, magnitude: 999_999_999_999 },
            byte_size: 6
        })
    );
    assert_eq!(
        value(DataFieldCoding::BCD4Digit, &[0x13]),
        Err(DataInformationError::TruncatedPayload)
    );
}

#[test]
fn bcd_sign_and_bad_nibbles() {
    let value = |coding: DataFieldCoding, bytes: &[u8]| coding.extract_from_bytes(bytes);
    // The topmost nibble 0xF is a minus sign.
    assert_eq!(
        value(DataFieldCoding::BCD4Digit, &[0x13, 0xF1]),
        Ok(Data { data: DataValue::Decimal { negative: true, magnitude: 113 }, byte_size: 2 })
    );
    assert_eq!(
        value(DataFieldCoding::BCD2Digit, &[0xF7]),
        Ok(Data { data: DataValue::Decimal { negative: true, magnitude: 7 }, byte_size: 1 })
    );
    assert_eq!(
        value(DataFieldCoding::BCD6Digit, &[0x00, 0x00, 0xF0]),
        Ok(Data { data: DataValue::Decimal { negative: true, magnitude: 0 }, byte_size: 3 })
    );
    // Anywhere else 0xF is no digit.
    for bytes in [[0x1F, 0x01], [0xF3, 0x01], [0x13, 0x0F]] {
        assert_eq!(
            value(DataFieldCoding::BCD4Digit, &bytes),
            Err(DataInformationError::BcdError)
        );
    }
    // A to E are no digits and no sign, wherever they stand.
    for bytes in [[0x13, 0xA1], [0x13, 0xE1], [0x13, 0x1B], [0xC3, 0x01], [0x1D, 0x01]] {
        assert_eq!(
            value(DataFieldCoding::BCD4Digit, &bytes),
            Err(DataInformationError::BcdError)
        );
    }
}

#[test]
fn variable_length_payloads() {
    let value = |bytes: &[u8]| DataFieldCoding::VariableLength.extract_from_bytes(bytes);
    // Text.
    assert_eq!(
        value(&[0x03, b'a', b'b', b'c', 0xFF]),
        Ok(Data { data: DataValue::NotANumber, byte_size: 4 })
    );
    assert_eq!(value(&[0x00]), Ok(Data { data: DataValue::NotANumber, byte_size: 1 }));
    assert_eq!(value(&[0x03, b'a', b'b']), Err(DataInformationError::TruncatedPayload));
    assert_eq!(value(&[]), Err(DataInformationError::TruncatedPayload));
    // Positive and negative BCD.
    assert_eq!(
        value(&[0xC2, 0x34, 0x12]),
        Ok(Data { data: DataValue::Decimal { negative: false, magnitude: 1234 }, byte_size: 3 })
    );
    assert_eq!(
        value(&[0xD2, 0x34, 0x12]),
        Ok(Data { data: DataValue::Decimal { negative: true, magnitude: 1234 }, byte_size: 3 })
    );
    assert_eq!(value(&[0xC2, 0x34, 0xF2]), Err(DataInformationError::BcdError));
    let mut longest = vec![0xCF];
    longest.extend_from_slice(&[0x99; 15]);
    assert_eq!(
        value(&longest),
        Ok(Data {
            data: DataValue::Decimal {
                negative: false,
                magnitude: 999_999_999_999_999_999_999_999_999_999
            },
            byte_size: 16
        })
    );
    // Binary.
    assert_eq!(
        value(&[0xE2, 0xFE, 0xFF]),
        Ok(Data { data: DataValue::Integer(-2), byte_size: 3 })
    );
    assert_eq!(value(&[0xE0]), Ok(Data { data: DataValue::Integer(0), byte_size: 1 }));
    let mut widest = vec![0xEF];
    widest.extend_from_slice(&[0x00; 14]);
    widest.push(0x80);
    assert_eq!(
        value(&widest),
        Ok(Data { data: DataValue::Integer(-(1i128 << 119)), byte_size: 16 })
    );
    // A floating-point number of any width is no number here.
    assert_eq!(
        value(&[0xF4, 0, 0, 0xC0, 0x3F]),
        Ok(Data { data: DataValue::NotANumber, byte_size: 5 })
    );
    // Reserved lengths.
    assert_eq!(value(&[0xFB, 0, 0]), Err(DataInformationError::UnsupportedCoding));
    assert_eq!(value(&[0xFF]), Err(DataInformationError::UnsupportedCoding));
}

#[test]
fn fixed_sizes() {
    let cases = [
        (0x00, Some(0)),
        (0x01, Some(1)),
        (0x02, Some(2)),
        (0x03, Some(3)),
        (0x04, Some(4)),
        (0x05, Some(4)),
        (0x06, Some(6)),
        (0x07, Some(8)),
        (0x08, Some(0)),
        (0x09, Some(1)),
        (0x0A, Some(2)),
        (0x0B, Some(3)),
        (0x0C, Some(4)),
        (0x0D, None),
        (0x0E, Some(6)),
        (0x0F, None),
    ];
    for (dif, size) in cases {
        assert_eq!(DataFieldCoding::from_dif(dif).get_size(), size, "size of {:#x}", dif);
        assert_eq!(DataFieldCoding::from_dif(dif | 0xF0).get_size(), size);
    }
}
