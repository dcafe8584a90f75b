//! The application layer: what a frame's user data holds.
pub mod data_information;
pub mod orthogonal;
pub mod payload;
pub mod unit_vector;
pub mod value_information;
pub mod value_label;
pub mod variable_user_data;

use crate::bits::lemma_masks_are_remainders;
use crate::radix::lemma_le_number_bound;
use crate::user_data::payload::{all_bcd, bcd_magnitude, bcd_pair, read_bcd, DataValue};
use crate::user_data::variable_user_data::{DataRecord, DataRecordView, DataRecordsView};
use vstd::arithmetic::power::pow;
use vstd::prelude::*;
use vstd::slice::slice_subrange;

verus! {

/// Number of bytes of the header that begins a variable data response.
pub const FIXED_HEADER_SIZE: usize = 12;

/// Why user data could not be decoded.
#[derive(Debug, Clone, Copy, PartialEq, Eq, Structural)]
pub enum ApplicationLayerError {
    /// There are fewer bytes than the structure needs.
    BufferTooShort,
    /// The CI field names no structure that is known.
    InvalidControlInformation,
    /// The identification number holds a nibble that is no decimal digit.
    BcdError,
    /// The CI field `0x7A`: the application gave up, for the reason that the
    /// next byte names.
    Aborted { reason: u8 },
}

/// What a meter measures.
#[derive(Debug, Clone, Copy, PartialEq, Eq, Structural)]
pub enum Medium {
    Other,
    Oil,
    Electricity,
    Gas,
    HeatOutlet,
    Steam,
    HotWater,
    Water,
    HeatCostAllocator,
    CompressedAir,
    CoolingLoadMeterOutlet,
    CoolingLoadMeterInlet,
    HeatInlet,
    HeatCoolingLoadMeter,
    BusSystem,
    Unknown,
    ColdWater,
    DualWater,
    Pressure,
    AdConverter,
    /// A code without a medium assigned; the code is kept.
    Reserved(u8),
}

/// The medium that the code `code` stands for.
pub open spec fn medium_of(code: u8) -> Medium {
    if code == 0x00 {
        Medium::Other
    } else if code == 0x01 {
        Medium::Oil
    } else if code == 0x02 {
        Medium::Electricity
    } else if code == 0x03 {
        Medium::Gas
    } else if code == 0x04 {
        Medium::HeatOutlet
    } else if code == 0x05 {
        Medium::Steam
    } else if code == 0x06 {
        Medium::HotWater
    } else if code == 0x07 {
        Medium::Water
    } else if code == 0x08 {
        Medium::HeatCostAllocator
    } else if code == 0x09 {
        Medium::CompressedAir
    } else if code == 0x0A {
        Medium::CoolingLoadMeterOutlet
    } else if code == 0x0B {
        Medium::CoolingLoadMeterInlet
    } else if code == 0x0C {
        Medium::HeatInlet
    } else if code == 0x0D {
        Medium::HeatCoolingLoadMeter
    } else if code == 0x0E {
        Medium::BusSystem
    } else if code == 0x0F {
        Medium::Unknown
    } else if code == 0x16 {
        Medium::ColdWater
    } else if code == 0x17 {
        Medium::DualWater
    } else if code == 0x18 {
        Medium::Pressure
    } else if code == 0x19 {
        Medium::AdConverter
    } else {
        Medium::Reserved(code)
    }
}

impl Medium {
    /// The medium that the code `code` stands for.
    pub fn from_code(code: u8) -> (r: Medium)
        ensures
            r == medium_of(code),
    {
        match code {
            0x00 => Medium::Other,
            0x01 => Medium::Oil,
            0x02 => Medium::Electricity,
            0x03 => Medium::Gas,
            0x04 => Medium::HeatOutlet,
            0x05 => Medium::Steam,
            0x06 => Medium::HotWater,
            0x07 => Medium::Water,
            0x08 => Medium::HeatCostAllocator,
            0x09 => Medium::CompressedAir,
            0x0A => Medium::CoolingLoadMeterOutlet,
            0x0B => Medium::CoolingLoadMeterInlet,
            0x0C => Medium::HeatInlet,
            0x0D => Medium::HeatCoolingLoadMeter,
            0x0E => Medium::BusSystem,
            0x0F => Medium::Unknown,
            0x16 => Medium::ColdWater,
            0x17 => Medium::DualWater,
            0x18 => Medium::Pressure,
            0x19 => Medium::AdConverter,
            _ => Medium::Reserved(code),
        }
    }
}

/// The status byte of a meter.
#[derive(Debug, Clone, Copy, PartialEq, Eq, Structural)]
pub struct StatusField {
    /// The byte as it was sent.
    pub bits: u8,
}

impl StatusField {
    /// Whether the application is busy: the two low bits are `01`.
    pub fn application_busy(&self) -> (r: bool)
        ensures
            r == (self.bits % 4 == 1),
    {
        proof {
            lemma_masks_are_remainders(self.bits);
        }
        self.bits & 0b11 == 1
    }

    /// Whether the application reports an error: the two low bits are `10`.
    pub fn any_application_error(&self) -> (r: bool)
        ensures
            r == (self.bits % 4 == 2),
    {
        proof {
            lemma_masks_are_remainders(self.bits);
        }
        self.bits & 0b11 == 2
    }

    /// Whether the power is low: bit 2.
    pub fn power_low(&self) -> (r: bool)
        ensures
            r == ((self.bits / 4) % 2 == 1),
    {
        proof {
            lemma_masks_are_remainders(self.bits);
        }
        (self.bits >> 2) & 0b1 == 1
    }

    /// Whether an error is permanent: bit 3.
    pub fn permanent_error(&self) -> (r: bool)
        ensures
            r == ((self.bits / 8) % 2 == 1),
    {
        proof {
            lemma_masks_are_remainders(self.bits);
        }
        (self.bits >> 3) & 0b1 == 1
    }

    /// Whether an error is temporary: bit 4.
    pub fn temporary_error(&self) -> (r: bool)
        ensures
            r == ((self.bits / 16) % 2 == 1),
    {
        proof {
            lemma_masks_are_remainders(self.bits);
        }
        (self.bits >> 4) & 0b1 == 1
    }

    /// The three bits that the manufacturer defines: bits 5 to 7.
    pub fn manufacturer_specific(&self) -> (r: u8)
        ensures
            r == self.bits / 32,
    {
        proof {
            lemma_masks_are_remainders(self.bits);
        }
        self.bits >> 5
    }
}

/// The three letters of a manufacturer, as ASCII.
#[derive(Debug, Clone, Copy, PartialEq, Eq)]
pub struct ManufacturerCode {
    pub code: [u8; 3],
}

/// The letter that the five bits `id` stand for: 1 is `A`, 26 is `Z`.
pub open spec fn letter_of(id: nat) -> u8 {
    (id + 64) as u8
}

/// The three letters that the 15 low bits of `packed` spell, five bits each,
/// the first letter in the highest bits.
pub open spec fn manufacturer_letters(packed: u16) -> Seq<u8> {
    seq![
        letter_of(((packed / 1024) % 32) as nat),
        letter_of(((packed / 32) % 32) as nat),
        letter_of((packed % 32) as nat),
    ]
}

/// The number in which three upper-case letters are packed.
pub open spec fn manufacturer_packed(letters: Seq<u8>) -> int {
    (letters[0] - 64) * 1024 + (letters[1] - 64) * 32 + (letters[2] - 64)
}

/// Three upper-case letters, packed and unpacked again, are the same letters.
pub proof fn lemma_manufacturer_round_trip(letters: Seq<u8>)
    requires
        letters.len() == 3,
        forall|i: int| 0 <= i < 3 ==> 0x41 <= #[trigger] letters[i] <= 0x5A,
    ensures
        0 <= manufacturer_packed(letters) < 0x8000,
        manufacturer_letters(manufacturer_packed(letters) as u16) == letters,
{
    assert(0x41 <= letters[0] <= 0x5A && 0x41 <= letters[1] <= 0x5A && 0x41 <= letters[2] <= 0x5A);
    assert(manufacturer_letters(manufacturer_packed(letters) as u16) =~= letters);
}

impl ManufacturerCode {
    /// Unpacks the letters of a manufacturer from the number `packed`.
    pub fn from_packed(packed: u16) -> (r: ManufacturerCode)
        ensures
            r.code@ == manufacturer_letters(packed),
    {
        let first: u8 = ((packed / 1024) % 32) as u8 + 64;
        let second: u8 = ((packed / 32) % 32) as u8 + 64;
        let third: u8 = (packed % 32) as u8 + 64;
        let r = ManufacturerCode { code: [first, second, third] };
        assert(r.code@ =~= manufacturer_letters(packed));
        r
    }
}

/// The identification number of a meter: eight decimal digits.
#[derive(Debug, Clone, Copy, PartialEq, Eq, Structural)]
pub struct IdentificationNumber {
    pub number: u32,
}

/// The header that begins a variable data response.
#[derive(Debug, Clone, Copy, PartialEq, Eq)]
pub struct FixedDataHeader {
    pub identification_number: IdentificationNumber,
    pub manufacturer: ManufacturerCode,
    pub version: u8,
    pub medium: Medium,
    pub access_number: u8,
    pub status: StatusField,
    pub signature: u16,
}

/// A [`FixedDataHeader`] with the manufacturer's letters as a sequence.
pub struct FixedDataHeaderView {
    pub identification_number: u32,
    pub manufacturer: Seq<u8>,
    pub version: u8,
    pub medium: Medium,
    pub access_number: u8,
    pub status: u8,
    pub signature: u16,
}

impl View for FixedDataHeader {
    type V = FixedDataHeaderView;

    open spec fn view(&self) -> FixedDataHeaderView {
        FixedDataHeaderView {
            identification_number: self.identification_number.number,
            manufacturer: self.manufacturer.code@,
            version: self.version,
            medium: self.medium,
            access_number: self.access_number,
            status: self.status.bits,
            signature: self.signature,
        }
    }
}

/// The header that the twelve bytes `s` are: the identification number in
/// four BCD bytes, the manufacturer in two, version, medium, access number and
/// status in one each, the signature in two; numbers with the least
/// significant byte first.
pub open spec fn fixed_header_of(s: Seq<u8>) -> Result<
    FixedDataHeaderView,
    ApplicationLayerError,
> {
    if s.len() < FIXED_HEADER_SIZE {
        Err(ApplicationLayerError::BufferTooShort)
    } else if !all_bcd(s.subrange(0, 4)) {
        Err(ApplicationLayerError::BcdError)
    } else {
        Ok(
            FixedDataHeaderView {
                identification_number: bcd_magnitude(s.subrange(0, 4)) as u32,
                manufacturer: manufacturer_letters((s[4] + 256 * s[5]) as u16),
                version: s[6],
                medium: medium_of(s[7]),
                access_number: s[8],
                status: s[9],
                signature: (s[10] + 256 * s[11]) as u16,
            },
        )
    }
}

/// An identification number has at most eight digits.
pub proof fn lemma_identification_number_fits(s: Seq<u8>)
    requires
        s.len() == 4,
        all_bcd(s),
    ensures
        bcd_magnitude(s) < 100_000_000,
{
    let pairs = Seq::new(s.len(), |i: int| bcd_pair(s[i]));
    assert forall|i: int| 0 <= i < pairs.len() implies pairs[i] < 100 by {
        assert(crate::user_data::payload::is_bcd_byte(s[i]));
    }
    lemma_le_number_bound(pairs, 100);
    assert(pow(100, 4) == 100_000_000) by {
        reveal_with_fuel(pow, 5);
    }
}

impl FixedDataHeader {
    /// Decodes the header at the start of `data`.
    pub fn parse(data: &[u8]) -> (r: Result<FixedDataHeader, ApplicationLayerError>)
        ensures
            match r {
                Ok(header) => fixed_header_of(data@) == Ok::<
                    FixedDataHeaderView,
                    ApplicationLayerError,
                >(header@),
                Err(e) => fixed_header_of(data@) == Err::<
                    FixedDataHeaderView,
                    ApplicationLayerError,
                >(e),
            },
    {
        if data.len() < FIXED_HEADER_SIZE {
            return Err(ApplicationLayerError::BufferTooShort);
        }
        let number: u128 = match read_bcd(data, 0, 4, false, false) {
            Ok(DataValue::Decimal { negative: _, magnitude }) => magnitude,
            _ => {
                return Err(ApplicationLayerError::BcdError);
            },
        };
        proof {
            lemma_identification_number_fits(data@.subrange(0, 4));
        }
        Ok(
            FixedDataHeader {
                identification_number: IdentificationNumber { number: number as u32 },
                manufacturer: ManufacturerCode::from_packed(
                    data[4] as u16 + 256 * (data[5] as u16),
                ),
                version: data[6],
                medium: Medium::from_code(data[7]),
                access_number: data[8],
                status: StatusField { bits: data[9] },
                signature: data[10] as u16 + 256 * (data[11] as u16),
            },
        )
    }
}

/// The CI field of an application abort.
pub const CI_ABORT: u8 = 0x7A;

/// What the user data of a frame hold, told apart by the CI field, their first
/// byte.
#[derive(Debug, PartialEq)]
pub enum UserDataBlock<'a> {
    /// CI `0x51` or `0x52`: data sent to the slave, a stream of records
    /// without a header.
    DataSend { variable_data_block: &'a [u8] },
    /// CI `0x70`: a reset of the application, with the bytes behind the CI
    /// field.
    ApplicationReset { data: &'a [u8] },
    /// CI `0x72` or `0x76`: a response with variable data, a header and behind
    /// it a stream of records.
    VariableDataStructure { fixed_data_header: FixedDataHeader, variable_data_block: &'a [u8] },
    /// CI `0x73` or `0x7B`: a response with fixed data, with the bytes behind
    /// the CI field.
    FixedDataStructure { data: &'a [u8] },
    /// CI `0x78` or `0x79`: a selection of slaves, with the bytes behind the
    /// CI field.
    SelectionOfSlaves { data: &'a [u8] },
}

/// A [`UserDataBlock`] in terms of sequences.
pub enum UserDataBlockView {
    DataSend { variable_data_block: Seq<u8> },
    ApplicationReset { data: Seq<u8> },
    VariableDataStructure { fixed_data_header: FixedDataHeaderView, variable_data_block: Seq<u8> },
    FixedDataStructure { data: Seq<u8> },
    SelectionOfSlaves { data: Seq<u8> },
}

impl<'a> View for UserDataBlock<'a> {
    type V = UserDataBlockView;

    open spec fn view(&self) -> UserDataBlockView {
        match self {
            UserDataBlock::DataSend { variable_data_block } => UserDataBlockView::DataSend {
                variable_data_block: variable_data_block@,
            },
            UserDataBlock::ApplicationReset { data } => UserDataBlockView::ApplicationReset {
                data: data@,
            },
            UserDataBlock::VariableDataStructure {
                fixed_data_header,
                variable_data_block,
            } => UserDataBlockView::VariableDataStructure {
                fixed_data_header: fixed_data_header@,
                variable_data_block: variable_data_block@,
            },
            UserDataBlock::FixedDataStructure { data } => UserDataBlockView::FixedDataStructure {
                data: data@,
            },
            UserDataBlock::SelectionOfSlaves { data } => UserDataBlockView::SelectionOfSlaves {
                data: data@,
            },
        }
    }
}

/// What the user data `s` hold.
pub open spec fn user_data_of(s: Seq<u8>) -> Result<UserDataBlockView, ApplicationLayerError> {
    if s.len() == 0 {
        Err(ApplicationLayerError::BufferTooShort)
    } else {
        let ci = s[0];
        let behind = s.subrange(1, s.len() as int);
        if ci == 0x51 || ci == 0x52 {
            Ok(UserDataBlockView::DataSend { variable_data_block: behind })
        } else if ci == 0x70 {
            Ok(UserDataBlockView::ApplicationReset { data: behind })
        } else if ci == 0x72 || ci == 0x76 {
            match fixed_header_of(behind) {
                Err(e) => Err(e),
                Ok(header) => Ok(
                    UserDataBlockView::VariableDataStructure {
                        fixed_data_header: header,
                        variable_data_block: s.subrange(1 + FIXED_HEADER_SIZE, s.len() as int),
                    },
                ),
            }
        } else if ci == 0x73 || ci == 0x7B {
            Ok(UserDataBlockView::FixedDataStructure { data: behind })
        } else if ci == 0x78 || ci == 0x79 {
            Ok(UserDataBlockView::SelectionOfSlaves { data: behind })
        } else if ci == CI_ABORT {
            if s.len() < 2 {
                Err(ApplicationLayerError::BufferTooShort)
            } else {
                Err(ApplicationLayerError::Aborted { reason: s[1] })
            }
        } else {
            Err(ApplicationLayerError::InvalidControlInformation)
        }
    }
}

/// Decodes the user data `data` of a frame.
pub fn parse_user_data<'a>(data: &'a [u8]) -> (r: Result<UserDataBlock<'a>, ApplicationLayerError>)
    ensures
        match r {
            Ok(block) => user_data_of(data@) == Ok::<UserDataBlockView, ApplicationLayerError>(
                block@,
            ),
            Err(e) => user_data_of(data@) == Err::<UserDataBlockView, ApplicationLayerError>(e),
        },
{
    let total: usize = data.len();
    if total == 0 {
        return Err(ApplicationLayerError::BufferTooShort);
    }
    let behind = slice_subrange(data, 1, total);
    match data[0] {
        0x51 | 0x52 => Ok(UserDataBlock::DataSend { variable_data_block: behind }),
        0x70 => Ok(UserDataBlock::ApplicationReset { data: behind }),
        0x72 | 0x76 => {
            let fixed_data_header = match FixedDataHeader::parse(behind) {
                Ok(header) => header,
                Err(e) => {
                    return Err(e);
                },
            };
            Ok(
                UserDataBlock::VariableDataStructure {
                    fixed_data_header,
                    variable_data_block: slice_subrange(data, 1 + FIXED_HEADER_SIZE, total),
                },
            )
        },
        0x73 | 0x7B => Ok(UserDataBlock::FixedDataStructure { data: behind }),
        0x78 | 0x79 => Ok(UserDataBlock::SelectionOfSlaves { data: behind }),
        0x7A => {
            if total < 2 {
                Err(ApplicationLayerError::BufferTooShort)
            } else {
                Err(ApplicationLayerError::Aborted { reason: data[1] })
            }
        },
        _ => Err(ApplicationLayerError::InvalidControlInformation),
    }
}

impl<'a> vstd::std_specs::convert::TryFromSpecImpl<&'a [u8]> for UserDataBlock<'a> {
    /// Two slices with the same bytes need not be the same slice, so the
    /// outcome is stated by the `ensures` of `try_from` instead.
    open spec fn obeys_try_from_spec() -> bool {
        false
    }

    open spec fn try_from_spec(data: &'a [u8]) -> Result<Self, ApplicationLayerError> {
        Err(ApplicationLayerError::BufferTooShort)
    }
}

impl<'a> TryFrom<&'a [u8]> for UserDataBlock<'a> {
    type Error = ApplicationLayerError;

    /// Decodes the user data `data` of a frame.
    fn try_from(data: &'a [u8]) -> (r: Result<UserDataBlock<'a>, ApplicationLayerError>)
        ensures
            match r {
                Ok(block) => user_data_of(data@) == Ok::<UserDataBlockView, ApplicationLayerError>(
                    block@,
                ),
                Err(e) => user_data_of(data@) == Err::<UserDataBlockView, ApplicationLayerError>(
                    e,
                ),
            },
    {
        parse_user_data(data)
    }
}

/// The records of a variable data block in wire order, and what stands behind
/// them.
#[derive(Debug, PartialEq)]
pub struct DataRecords<'a> {
    records: Vec<DataRecord>,
    /// Whether the block ended with the announcement that more records follow
    /// in the next telegram.
    pub more_records_follow: bool,
    /// The bytes behind the DIF that ended the records: the manufacturer's.
    /// Empty where the records run to the end of the block.
    pub manufacturer_specific_data: &'a [u8],
}

/// The views of the records in `records`, in the same order.
pub open spec fn record_views(records: Seq<DataRecord>) -> Seq<DataRecordView> {
    Seq::new(records.len(), |i: int| records[i]@)
}

impl<'a> View for DataRecords<'a> {
    type V = DataRecordsView;

    closed spec fn view(&self) -> DataRecordsView {
        DataRecordsView {
            records: record_views(self.records@),
            more_records_follow: self.more_records_follow,
            manufacturer_specific_data: self.manufacturer_specific_data@,
        }
    }
}

impl<'a> DataRecords<'a> {
    /// No records and nothing behind them.
    pub fn new() -> (r: Self)
        ensures
            r@ == (DataRecordsView {
                records: Seq::empty(),
                more_records_follow: false,
                manufacturer_specific_data: Seq::empty(),
            }),
    {
        let nothing: &'a [u8] = &[];
        let r = DataRecords {
            records: Vec::new(),
            more_records_follow: false,
            manufacturer_specific_data: nothing,
        };
        assert(r@.records =~= Seq::empty());
        assert(r@.manufacturer_specific_data =~= Seq::empty());
        r
    }

    /// The records `records`, and `manufacturer_specific_data` behind them.
    pub fn from_parts(
        records: Vec<DataRecord>,
        more_records_follow: bool,
        manufacturer_specific_data: &'a [u8],
    ) -> (r: Self)
        ensures
            r@ == (DataRecordsView {
                records: record_views(records@),
                more_records_follow,
                manufacturer_specific_data: manufacturer_specific_data@,
            }),
    {
        DataRecords { records, more_records_follow, manufacturer_specific_data }
    }

    /// Appends `record` behind the records that are there.
    pub fn add_record(&mut self, record: DataRecord)
        ensures
            final(self)@ == (DataRecordsView {
                records: old(self)@.records.push(record@),
                more_records_follow: old(self)@.more_records_follow,
                manufacturer_specific_data: old(self)@.manufacturer_specific_data,
            }),
    {
        self.records.push(record);
        assert(final(self)@.records =~= old(self)@.records.push(record@));
    }

    /// The number of records.
    pub fn len(&self) -> (n: usize)
        ensures
            n == self@.records.len(),
    {
        self.records.len()
    }

    /// Whether there is no record.
    pub fn is_empty(&self) -> (r: bool)
        ensures
            r == (self@.records.len() == 0),
    {
        self.records.len() == 0
    }

    /// The record at index `i`, if there is one.
    pub fn get(&self, i: usize) -> (r: Option<&DataRecord>)
        ensures
            match r {
                Some(record) => i < self@.records.len() && record@ == self@.records[i as int],
                None => i >= self@.records.len(),
            },
    {
        if i < self.records.len() {
            Some(&self.records[i])
        } else {
            None
        }
    }

    /// The last record, if there is one.
    pub fn last(&self) -> (r: Option<&DataRecord>)
        ensures
            match r {
                Some(record) => self@.records.len() > 0 && record@ == self@.records.last(),
                None => self@.records.len() == 0,
            },
    {
        let n: usize = self.records.len();
        if n > 0 {
            Some(&self.records[n - 1])
        } else {
            None
        }
    }
}

} // verus!
