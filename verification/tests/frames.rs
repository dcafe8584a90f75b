use arrayvec::ArrayVec;
use m_bus_parser::frames::{checksum, parse_frame, Address, Frame, FrameError, Function};
use m_bus_parser::user_data::payload::DataValue;
use m_bus_parser::user_data::value_information::{Unit, VIFExtension, ValueInformation};
use m_bus_parser::user_data::variable_user_data::Quantity;
use m_bus_parser::user_data::{
    parse_user_data, ApplicationLayerError, DataRecords, Medium, UserDataBlock,
};

fn example() -> Vec<u8> {
    vec![
        0x68, 0x3C, 0x3C, 0x68, 0x08, 0x08, 0x72, 0x78, 0x03, 0x49, 0x11, 0x77, 0x04, 0x0E, 0x16,
        0x0A, 0x00, 0x00, 0x00, 0x0C, 0x78, 0x78, 0x03, 0x49, 0x11, 0x04, 0x13, 0x31, 0xD4, 0x00,
        0x00, 0x42, 0x6C, 0x00, 0x00, 0x44, 0x13, 0x00, 0x00, 0x00, 0x00, 0x04, 0x6D, 0x0B, 0x0B,
        0xCD, 0x13, 0x02, 0x27, 0x00, 0x00, 0x09, 0xFD, 0x0E, 0x02, 0x09, 0xFD, 0x0F, 0x06, 0x0F,
        0x00, 0x01, 0x75, 0x13, 0xD3, 0x16,
    ]
}

#[test]
fn long_frame_with_response() {
    let example = example();
    let frame = Frame::try_from(example.as_slice()).unwrap();
    let data = match frame {
        Frame::LongFrame { function, address, data } => {
            assert_eq!(function, Function::RspUd { acd: false, dfc: false });
            assert_eq!(address, Address::Primary(8));
            data
        }
        other => panic!("not a long frame: {:?}", other),
    };
    assert_eq!(data, &example[6..64]);
    assert_eq!(parse_frame(example.as_slice()), Frame::try_from(example.as_slice()));

    let (header, block) = match UserDataBlock::try_from(data).unwrap() {
        UserDataBlock::VariableDataStructure { fixed_data_header, variable_data_block } => {
            (fixed_data_header, variable_data_block)
        }
        other => panic!("not a variable data structure: {:?}", other),
    };
    assert_eq!(header.identification_number.number, 11490378);
    assert_eq!(&header.manufacturer.code, b"ACW");
    assert_eq!(header.version, 0x0E);
    assert_eq!(header.medium, Medium::ColdWater);
    assert_eq!(header.access_number, 0x0A);
    assert_eq!(header.status.bits, 0);
    assert!(!header.status.power_low());
    assert_eq!(header.signature, 0);
    assert_eq!(block, &example[19..64]);

    let records = DataRecords::try_from(block).unwrap();
    assert_eq!(records.len(), 8);
    assert!(!records.more_records_follow);
    assert_eq!(records.manufacturer_specific_data, &[0x00, 0x01, 0x75, 0x13]);
    let mut consumed = 0;
    for i in 0..records.len() {
        consumed += records.get(i).unwrap().size;
    }
    // The records, the DIF that ends them, and the manufacturer's bytes are
    // all of the block.
    assert_eq!(consumed + 1 + records.manufacturer_specific_data.len(), block.len());

    let first = records.get(0).unwrap();
    assert_eq!(first.quantity, Quantity::IdentificationNumber);
    assert_eq!(first.unit, Unit::FabricationNumber);
    assert_eq!(first.value, DataValue::Decimal { negative: false, magnitude: 11490378 });
    let volume = records.get(1).unwrap();
    assert_eq!(volume.quantity, Quantity::Volume);
    assert_eq!(volume.value, DataValue::Integer(54321));
    assert_eq!(volume.storage_number, 0);
    let stored = records.get(3).unwrap();
    assert_eq!(stored.storage_number, 1);
    assert_eq!(stored.quantity, Quantity::Volume);
    let firmware = records.get(6).unwrap();
    assert_eq!(
        firmware.value_information,
        ValueInformation::Extended(VIFExtension::FirmwareVersion, ArrayVec::new())
    );
    assert_eq!(firmware.value, DataValue::Decimal { negative: false, magnitude: 2 });
    let software = records.last().unwrap();
    assert_eq!(
        software.value_information,
        ValueInformation::Extended(VIFExtension::SoftwareVersion, ArrayVec::new())
    );
    assert_eq!(software.value, DataValue::Decimal { negative: false, magnitude: 6 });
}

#[test]
fn any_changed_byte_is_a_checksum_error() {
    let example = example();
    let last_user_byte = example.len() - 3;
    for i in 4..=last_user_byte {
        for flip in [0x01u8, 0x80, 0xFF] {
            let mut corrupted = example.clone();
            corrupted[i] ^= flip;
            assert_eq!(
                parse_frame(corrupted.as_slice()),
                Err(FrameError::ChecksumError),
                "byte {} changed",
                i
            );
        }
    }
    // The checksum itself.
    let mut corrupted = example.clone();
    corrupted[64] = 0xD4;
    assert_eq!(parse_frame(corrupted.as_slice()), Err(FrameError::ChecksumError));
}

#[test]
fn checksum_is_the_sum_modulo_256() {
    let example = example();
    assert_eq!(checksum(&example[4..64]), 0xD3);
    assert_eq!(checksum(&[0xFF, 0xFF, 0x03]), 0x01);
    assert_eq!(checksum(&[]), 0x00);
    assert_eq!(checksum(&[0x80, 0x80]), 0x00);
}

#[test]
fn single_character_and_short_frames() {
    assert_eq!(parse_frame(&[0xE5]), Ok(Frame::SingleCharacter));
    assert_eq!(parse_frame(&[0xE5, 0xE5]), Err(FrameError::LengthMismatch));
    assert_eq!(
        parse_frame(&[0x10, 0x40, 0x01, 0x41, 0x16]),
        Ok(Frame::ShortFrame {
            function: Function::SndNke,
            address: Address::Primary(1),
            checksum: 0x41
        })
    );
    assert_eq!(
        parse_frame(&[0x10, 0x7B, 0xFE, 0x79, 0x16]),
        Ok(Frame::ShortFrame {
            function: Function::ReqUd2 { fcb: true },
            address: Address::Primary(0xFE),
            checksum: 0x79
        })
    );
    assert_eq!(
        parse_frame(&[0x10, 0x5A, 0xFF, 0x59, 0x16]),
        Ok(Frame::ShortFrame {
            function: Function::ReqUd1 { fcb: false },
            address: Address::Primary(0xFF),
            checksum: 0x59
        })
    );
    assert_eq!(parse_frame(&[0x10, 0x40, 0x01, 0x41]), Err(FrameError::BufferTooShort));
    assert_eq!(parse_frame(&[0x10, 0x40, 0x01, 0x41, 0x16, 0x00]), Err(FrameError::LengthMismatch));
    assert_eq!(parse_frame(&[0x10, 0x40, 0x01, 0x41, 0x17]), Err(FrameError::MissingStopByte));
    assert_eq!(parse_frame(&[0x10, 0x40, 0x01, 0x42, 0x16]), Err(FrameError::ChecksumError));
    assert_eq!(parse_frame(&[0x10, 0x41, 0x01, 0x42, 0x16]), Err(FrameError::InvalidFunction));
}

#[test]
fn control_frame() {
    assert_eq!(
        parse_frame(&[0x68, 0x03, 0x03, 0x68, 0x53, 0xFE, 0x50, 0xA1, 0x16]),
        Ok(Frame::ControlFrame {
            function: Function::SndUd { fcb: false },
            address: Address::Primary(0xFE),
            control_information: 0x50,
            checksum: 0xA1
        })
    );
}

#[test]
fn framing_faults() {
    assert_eq!(parse_frame(&[]), Err(FrameError::BufferTooShort));
    assert_eq!(parse_frame(&[0x42, 0x00]), Err(FrameError::InvalidStartByte));
    assert_eq!(parse_frame(&[0x68, 0x03, 0x03]), Err(FrameError::BufferTooShort));
    let good = [0x68, 0x04, 0x04, 0x68, 0x08, 0x01, 0x72, 0x00, 0x7B, 0x16];
    assert!(matches!(parse_frame(&good), Ok(Frame::LongFrame { .. })));
    let mut bad = good;
    bad[3] = 0x67;
    assert_eq!(parse_frame(&bad), Err(FrameError::InvalidStartByte));
    let mut bad = good;
    bad[2] = 0x05;
    assert_eq!(parse_frame(&bad), Err(FrameError::LengthMismatch));
    let mut bad = good;
    bad[9] = 0x15;
    assert_eq!(parse_frame(&bad), Err(FrameError::MissingStopByte));
    let mut bad = good;
    bad[8] = 0x7C;
    assert_eq!(parse_frame(&bad), Err(FrameError::ChecksumError));
    // A reserved function, the checksum adjusted.
    let mut bad = good;
    bad[4] = 0x09;
    bad[8] = 0x7C;
    assert_eq!(parse_frame(&bad), Err(FrameError::InvalidFunction));
    assert_eq!(parse_frame(&good[..9]), Err(FrameError::BufferTooShort));
    let mut longer = good.to_vec();
    longer.push(0x00);
    assert_eq!(parse_frame(&longer), Err(FrameError::LengthMismatch));
    // A length of less than three leaves no room for C, A and CI.
    assert_eq!(
        parse_frame(&[0x68, 0x02, 0x02, 0x68, 0x08, 0x01, 0x09, 0x16]),
        Err(FrameError::LengthMismatch)
    );
}

#[test]
fn functions_of_the_control_field() {
    let cases = [
        (0x40, Function::SndNke),
        (0x53, Function::SndUd { fcb: false }),
        (0x73, Function::SndUd { fcb: true }),
        (0x5B, Function::ReqUd2 { fcb: false }),
        (0x7B, Function::ReqUd2 { fcb: true }),
        (0x5A, Function::ReqUd1 { fcb: false }),
        (0x7A, Function::ReqUd1 { fcb: true }),
        (0x08, Function::RspUd { acd: false, dfc: false }),
        (0x18, Function::RspUd { acd: false, dfc: true }),
        (0x28, Function::RspUd { acd: true, dfc: false }),
        (0x38, Function::RspUd { acd: true, dfc: true }),
    ];
    let mut valid = 0;
    for c in 0..=255u8 {
        match Function::from_control_field(c) {
            Some(function) => {
                valid += 1;
                assert!(cases.contains(&(c, function)), "{:#x}", c);
            }
            None => assert!(cases.iter().all(|(code, _)| *code != c)),
        }
    }
    assert_eq!(valid, cases.len());
}

#[test]
fn user_data_structures() {
    assert_eq!(
        parse_user_data(&[0x51, 0x01, 0x7A, 0x08]),
        Ok(UserDataBlock::DataSend { variable_data_block: &[0x01, 0x7A, 0x08] })
    );
    assert_eq!(
        parse_user_data(&[0x52]),
        Ok(UserDataBlock::DataSend { variable_data_block: &[] })
    );
    assert_eq!(parse_user_data(&[0x70, 0x10]), Ok(UserDataBlock::ApplicationReset { data: &[0x10] }));
    assert_eq!(parse_user_data(&[0x73, 1, 2]), Ok(UserDataBlock::FixedDataStructure { data: &[1, 2] }));
    assert_eq!(parse_user_data(&[0x7B]), Ok(UserDataBlock::FixedDataStructure { data: &[] }));
    assert_eq!(parse_user_data(&[0x78, 9]), Ok(UserDataBlock::SelectionOfSlaves { data: &[9] }));
    assert_eq!(parse_user_data(&[0x79]), Ok(UserDataBlock::SelectionOfSlaves { data: &[] }));
    assert_eq!(parse_user_data(&[0x7A, 0x05]), Err(ApplicationLayerError::Aborted { reason: 5 }));
    assert_eq!(parse_user_data(&[0x7A]), Err(ApplicationLayerError::BufferTooShort));
    assert_eq!(parse_user_data(&[0x00]), Err(ApplicationLayerError::InvalidControlInformation));
    assert_eq!(parse_user_data(&[]), Err(ApplicationLayerError::BufferTooShort));
    // A header that is cut off, and one with a nibble that is no digit.
    assert_eq!(parse_user_data(&[0x72, 1, 2, 3]), Err(ApplicationLayerError::BufferTooShort));
    assert_eq!(
        parse_user_data(&[0x76, 0x1A, 0, 0, 0, 0, 0, 0, 0, 0, 0, 0, 0]),
        Err(ApplicationLayerError::BcdError)
    );
    match parse_user_data(&[0x76, 0x78, 0x56, 0x34, 0x12, 0x24, 0x40, 1, 2, 3, 0x15, 0x34, 0x12]) {
        Ok(UserDataBlock::VariableDataStructure { fixed_data_header, variable_data_block }) => {
            assert_eq!(fixed_data_header.identification_number.number, 12345678);
            assert_eq!(&fixed_data_header.manufacturer.code, b"PAD");
            assert_eq!(fixed_data_header.version, 1);
            assert_eq!(fixed_data_header.medium, Medium::Electricity);
            assert_eq!(fixed_data_header.access_number, 3);
            assert!(fixed_data_header.status.application_busy());
            assert!(!fixed_data_header.status.any_application_error());
            assert!(fixed_data_header.status.power_low());
            assert!(!fixed_data_header.status.permanent_error());
            assert!(fixed_data_header.status.temporary_error());
            assert_eq!(fixed_data_header.status.manufacturer_specific(), 0);
            assert_eq!(fixed_data_header.signature, 0x1234);
            assert!(variable_data_block.is_empty());
        }
        other => panic!("not a variable data structure: {:?}", other),
    }
}

#[test]
fn media() {
    assert_eq!(Medium::from_code(0x00), Medium::Other);
    assert_eq!(Medium::from_code(0x01), Medium::Oil);
    assert_eq!(Medium::from_code(0x03), Medium::Gas);
    assert_eq!(Medium::from_code(0x04), Medium::HeatOutlet);
    assert_eq!(Medium::from_code(0x05), Medium::Steam);
    assert_eq!(Medium::from_code(0x06), Medium::HotWater);
    assert_eq!(Medium::from_code(0x07), Medium::Water);
    assert_eq!(Medium::from_code(0x16), Medium::ColdWater);
    assert_eq!(Medium::from_code(0x10), Medium::Reserved(0x10));
    assert_eq!(Medium::from_code(0xFF), Medium::Reserved(0xFF));
}
