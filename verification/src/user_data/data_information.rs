//! The data information block and the payload that it announces.
//!
//! A block is one DIF byte and up to ten extension bytes (DIFE). The DIF says
//! how the payload is coded and which function the value has; DIF and DIFE
//! together spell the storage number, the tariff and the sub-device, each a
//! few bits at a time, least significant bits first.
use crate::bits::{extension_flag, has_extension, lemma_masks_are_remainders};
use crate::extension::{
    chain_len_after, lemma_chain_agrees, lemma_flagged_extensions_too_long,
    lemma_same_start_same_parts, read_chain, same_start, ChainError,
};
use crate::inline_bytes::{byte_count, bytes_of, new_bytes};
use crate::radix::{
    byte_fields, le_fields, le_number, lemma_le_number_bound, lemma_le_number_digit,
    lemma_pow_exponent_increases,
};
use arrayvec::ArrayVec;
use vstd::arithmetic::power::pow;
use vstd::prelude::*;

verus! {

/// Most extension bytes that can follow a DIF.
pub const MAX_DIFE_RECORDS: usize = 10;

/// Which value of the measured quantity a record holds.
#[derive(Debug, Clone, Copy, PartialEq, Eq, Structural)]
pub enum FunctionField {
    InstantaneousValue,
    MaximumValue,
    MinimumValue,
    ValueDuringErrorState,
}

/// What a DIF with the data field `0xF` stands for. Such a DIF carries no
/// value.
#[derive(Debug, Clone, Copy, PartialEq, Eq, Structural)]
pub enum SpecialFunctions {
    /// `0x0F`: the records end here; what follows belongs to the manufacturer.
    ManufacturerSpecific,
    /// `0x1F`: as `0x0F`, and more records follow in the next telegram.
    MoreRecordsFollow,
    /// `0x2F`: a filler byte between records.
    IdleFiller,
    /// `0x3F` to `0x6F`: reserved.
    Reserved,
    /// `0x7F`: a request to read out everything.
    GlobalReadoutRequest,
}

/// How the payload of a record is coded.
#[derive(Debug, Clone, Copy, PartialEq, Eq, Structural)]
pub enum DataFieldCoding {
    NoData,
    Integer8Bit,
    Integer16Bit,
    Integer24Bit,
    Integer32Bit,
    Real32Bit,
    Integer48Bit,
    Integer64Bit,
    SelectionForReadout,
    BCD2Digit,
    BCD4Digit,
    BCD6Digit,
    BCD8Digit,
    VariableLength,
    BCDDigit12,
    SpecialFunctions(SpecialFunctions),
}

/// Why a data information block or a payload could not be decoded.
#[derive(Debug, Clone, Copy, PartialEq, Eq, Structural)]
pub enum DataInformationError {
    /// There is no byte to decode.
    NoData,
    /// The bytes end inside the extension chain.
    InvalidDataInformation,
    /// The tenth extension byte announces an eleventh.
    DifeChainTooLong,
    /// A BCD payload holds a nibble that is no digit and no sign.
    BcdError,
    /// The bytes end inside the payload.
    TruncatedPayload,
    /// The coding announces no value that could be read: a special function,
    /// or a variable length from the reserved range.
    UnsupportedCoding,
}

/// The function that a DIF gives to the value: bits 4 and 5.
pub open spec fn function_field_of(dif: u8) -> FunctionField {
    let f = (dif / 16) % 4;
    if f == 0 {
        FunctionField::InstantaneousValue
    } else if f == 1 {
        FunctionField::MaximumValue
    } else if f == 2 {
        FunctionField::MinimumValue
    } else {
        FunctionField::ValueDuringErrorState
    }
}

/// The special function of a DIF whose data field is `0xF`: bits 4 to 6.
pub open spec fn special_function_of(dif: u8) -> SpecialFunctions {
    let f = (dif / 16) % 8;
    if f == 0 {
        SpecialFunctions::ManufacturerSpecific
    } else if f == 1 {
        SpecialFunctions::MoreRecordsFollow
    } else if f == 2 {
        SpecialFunctions::IdleFiller
    } else if f == 7 {
        SpecialFunctions::GlobalReadoutRequest
    } else {
        SpecialFunctions::Reserved
    }
}

/// The coding that a DIF announces: its low nibble.
pub open spec fn data_field_coding_of(dif: u8) -> DataFieldCoding {
    let c = dif % 16;
    if c == 0 {
        DataFieldCoding::NoData
    } else if c == 1 {
        DataFieldCoding::Integer8Bit
    } else if c == 2 {
        DataFieldCoding::Integer16Bit
    } else if c == 3 {
        DataFieldCoding::Integer24Bit
    } else if c == 4 {
        DataFieldCoding::Integer32Bit
    } else if c == 5 {
        DataFieldCoding::Real32Bit
    } else if c == 6 {
        DataFieldCoding::Integer48Bit
    } else if c == 7 {
        DataFieldCoding::Integer64Bit
    } else if c == 8 {
        DataFieldCoding::SelectionForReadout
    } else if c == 9 {
        DataFieldCoding::BCD2Digit
    } else if c == 10 {
        DataFieldCoding::BCD4Digit
    } else if c == 11 {
        DataFieldCoding::BCD6Digit
    } else if c == 12 {
        DataFieldCoding::BCD8Digit
    } else if c == 13 {
        DataFieldCoding::VariableLength
    } else if c == 14 {
        DataFieldCoding::BCDDigit12
    } else {
        DataFieldCoding::SpecialFunctions(special_function_of(dif))
    }
}

/// The storage number: bit 6 of the DIF is its lowest bit, and each DIFE adds
/// its low nibble above what is there.
pub open spec fn storage_number_of(dif: u8, dife: Seq<u8>) -> nat {
    ((dif / 64) % 2) as nat + 2 * le_number(byte_fields(dife, 1, 16), 16)
}

/// The tariff: each DIFE adds its bits 4 and 5 above what is there.
pub open spec fn tariff_of(dife: Seq<u8>) -> nat {
    le_number(byte_fields(dife, 16, 4), 4)
}

/// The sub-device: each DIFE adds its bit 6 above what is there.
pub open spec fn sub_device_of(dife: Seq<u8>) -> nat {
    le_number(byte_fields(dife, 64, 2), 2)
}

/// A data information block: the bytes and what they say.
#[derive(Debug, PartialEq)]
pub struct DataInformationBlock {
    /// The DIF as it was sent.
    pub dif: u8,
    /// The extension bytes in wire order.
    pub dife: ArrayVec<u8, 10>,
    /// The storage number; at most 41 bits.
    pub storage_number: u64,
    /// The tariff; at most 20 bits.
    pub tariff: u32,
    /// The sub-device; at most 10 bits.
    pub sub_device: u32,
    /// Which value of the quantity the record holds.
    pub function_field: FunctionField,
    /// How the payload is coded.
    pub data_field_coding: DataFieldCoding,
}

/// A [`DataInformationBlock`] with the extension chain as a sequence.
pub struct DataInformationBlockView {
    pub dif: u8,
    pub dife: Seq<u8>,
    pub storage_number: u64,
    pub tariff: u32,
    pub sub_device: u32,
    pub function_field: FunctionField,
    pub data_field_coding: DataFieldCoding,
}

impl View for DataInformationBlock {
    type V = DataInformationBlockView;

    open spec fn view(&self) -> DataInformationBlockView {
        DataInformationBlockView {
            dif: self.dif,
            dife: bytes_of(self.dife),
            storage_number: self.storage_number,
            tariff: self.tariff,
            sub_device: self.sub_device,
            function_field: self.function_field,
            data_field_coding: self.data_field_coding,
        }
    }
}

impl DataInformationBlockView {
    /// The number of bytes that the block takes on the wire.
    pub open spec fn size(self) -> nat {
        1 + self.dife.len()
    }
}

/// The error of a block whose extension chain could not be read.
pub open spec fn chain_fault(e: ChainError) -> DataInformationError {
    match e {
        ChainError::TooLong => DataInformationError::DifeChainTooLong,
        ChainError::Truncated => DataInformationError::InvalidDataInformation,
    }
}

/// What a DIF and its extension chain say.
pub open spec fn block_of_parts(dif: u8, dife: Seq<u8>) -> DataInformationBlockView {
    DataInformationBlockView {
        dif,
        dife,
        storage_number: storage_number_of(dif, dife) as u64,
        tariff: tariff_of(dife) as u32,
        sub_device: sub_device_of(dife) as u32,
        function_field: function_field_of(dif),
        data_field_coding: data_field_coding_of(dif),
    }
}

/// The data information block at the start of `s`.
pub open spec fn data_information_block_of(s: Seq<u8>) -> Result<
    DataInformationBlockView,
    DataInformationError,
> {
    if s.len() == 0 {
        Err(DataInformationError::NoData)
    } else {
        match chain_len_after(s[0], s, 1, MAX_DIFE_RECORDS as nat) {
            Err(e) => Err(chain_fault(e)),
            Ok(n) => Ok(block_of_parts(s[0], s.subrange(1, n + 1int))),
        }
    }
}

/// With at most ten extension bytes the storage number has at most 41 bits,
/// the tariff at most 20 and the sub-device at most 10: the fixed-width fields
/// hold them without loss.
pub proof fn lemma_fields_fit(dif: u8, dife: Seq<u8>)
    requires
        dife.len() <= MAX_DIFE_RECORDS,
    ensures
        storage_number_of(dif, dife) < 0x200_0000_0000,
        tariff_of(dife) < 0x10_0000,
        sub_device_of(dife) < 0x400,
{
    lemma_le_number_bound(byte_fields(dife, 1, 16), 16);
    lemma_le_number_bound(byte_fields(dife, 16, 4), 4);
    lemma_le_number_bound(byte_fields(dife, 64, 2), 2);
    lemma_pow_exponent_increases(16, dife.len(), 10);
    lemma_pow_exponent_increases(4, dife.len(), 10);
    lemma_pow_exponent_increases(2, dife.len(), 10);
    assert(pow(16, 10) == 0x100_0000_0000) by {
        reveal_with_fuel(pow, 11);
    }
    assert(pow(4, 10) == 0x10_0000) by {
        reveal_with_fuel(pow, 11);
    }
    assert(pow(2, 10) == 0x400) by {
        reveal_with_fuel(pow, 11);
    }
}

/// The storage number is the concatenation of its parts: its lowest bit is
/// bit 6 of the DIF, and the four bits above bit `4 * k` are the low nibble of
/// the `k`-th DIFE.
pub proof fn lemma_storage_number_concatenates(dif: u8, dife: Seq<u8>, k: int)
    requires
        0 <= k < dife.len(),
    ensures
        storage_number_of(dif, dife) % 2 == (dif / 64) % 2,
        pow(16, k as nat) > 0,
        ((storage_number_of(dif, dife) / 2) as int / pow(16, k as nat)) % 16 == dife[k] % 16,
        storage_number_of(dif, dife) < 2 * pow(16, dife.len()),
{
    let digits = byte_fields(dife, 1, 16);
    lemma_le_number_digit(digits, 16, k);
    lemma_le_number_bound(digits, 16);
    assert(digits[k] == dife[k] % 16);
}

/// The tariff is the concatenation of bits 4 and 5 of the extension bytes, the
/// first byte lowest.
pub proof fn lemma_tariff_concatenates(dife: Seq<u8>, k: int)
    requires
        0 <= k < dife.len(),
    ensures
        pow(4, k as nat) > 0,
        (tariff_of(dife) as int / pow(4, k as nat)) % 4 == (dife[k] / 16) % 4,
{
    let digits = byte_fields(dife, 16, 4);
    lemma_le_number_digit(digits, 4, k);
    assert(digits[k] == (dife[k] / 16) % 4);
}

/// The sub-device is the concatenation of bit 6 of the extension bytes, the
/// first byte lowest.
pub proof fn lemma_sub_device_concatenates(dife: Seq<u8>, k: int)
    requires
        0 <= k < dife.len(),
    ensures
        pow(2, k as nat) > 0,
        (sub_device_of(dife) as int / pow(2, k as nat)) % 2 == (dife[k] / 64) % 2,
{
    let digits = byte_fields(dife, 64, 2);
    lemma_le_number_digit(digits, 2, k);
    assert(digits[k] == (dife[k] / 64) % 2);
}

/// A DIF that announces an extension and ten extension bytes that each
/// announce one more are no data information block: the chain is too long,
/// whatever follows.
pub proof fn lemma_dife_chain_bound(s: Seq<u8>)
    requires
        s.len() >= 1 + MAX_DIFE_RECORDS,
        forall|k: int| 0 <= k <= MAX_DIFE_RECORDS ==> has_extension(#[trigger] s[k]),
    ensures
        data_information_block_of(s) == Err::<DataInformationBlockView, DataInformationError>(
            DataInformationError::DifeChainTooLong,
        ),
{
    lemma_flagged_extensions_too_long(s, 1, MAX_DIFE_RECORDS as nat);
}

/// A block that decodes has at most ten extension bytes, and all of its bytes
/// lie within what was given.
pub proof fn lemma_block_size(s: Seq<u8>)
    ensures
        data_information_block_of(s) matches Ok(block) ==> block.dife.len() <= MAX_DIFE_RECORDS
            && 1 <= block.size() <= s.len(),
{
}

/// A block is decoded from its own bytes: what follows them has no influence.
pub proof fn lemma_block_depends_on_its_bytes(s: Seq<u8>, t: Seq<u8>)
    requires
        data_information_block_of(s) matches Ok(block) && same_start(s, t, block.size() as int),
    ensures
        data_information_block_of(t) == data_information_block_of(s),
{
    let block = data_information_block_of(s).unwrap();
    let n = block.size() as int;
    assert(s[0] == t[0]);
    if has_extension(s[0]) {
        lemma_chain_agrees(s, t, 1, MAX_DIFE_RECORDS as nat, n);
    }
    lemma_same_start_same_parts(s, t, n, 1, n);
}

impl FunctionField {
    /// The function that `dif` gives to the value.
    pub fn from_dif(dif: u8) -> (r: FunctionField)
        ensures
            r == function_field_of(dif),
    {
        proof {
            lemma_masks_are_remainders(dif);
        }
        match (dif >> 4) & 0b11 {
            0 => FunctionField::InstantaneousValue,
            1 => FunctionField::MaximumValue,
            2 => FunctionField::MinimumValue,
            _ => FunctionField::ValueDuringErrorState,
        }
    }
}

impl DataFieldCoding {
    /// The coding that `dif` announces.
    pub fn from_dif(dif: u8) -> (r: DataFieldCoding)
        ensures
            r == data_field_coding_of(dif),
    {
        proof {
            lemma_masks_are_remainders(dif);
        }
        match dif & 0x0F {
            0 => DataFieldCoding::NoData,
            1 => DataFieldCoding::Integer8Bit,
            2 => DataFieldCoding::Integer16Bit,
            3 => DataFieldCoding::Integer24Bit,
            4 => DataFieldCoding::Integer32Bit,
            5 => DataFieldCoding::Real32Bit,
            6 => DataFieldCoding::Integer48Bit,
            7 => DataFieldCoding::Integer64Bit,
            8 => DataFieldCoding::SelectionForReadout,
            9 => DataFieldCoding::BCD2Digit,
            10 => DataFieldCoding::BCD4Digit,
            11 => DataFieldCoding::BCD6Digit,
            12 => DataFieldCoding::BCD8Digit,
            13 => DataFieldCoding::VariableLength,
            14 => DataFieldCoding::BCDDigit12,
            _ => DataFieldCoding::SpecialFunctions(
                match (dif / 16) % 8 {
                    0 => SpecialFunctions::ManufacturerSpecific,
                    1 => SpecialFunctions::MoreRecordsFollow,
                    2 => SpecialFunctions::IdleFiller,
                    7 => SpecialFunctions::GlobalReadoutRequest,
                    _ => SpecialFunctions::Reserved,
                },
            ),
        }
    }
}

impl DataInformationBlock {
    /// The number of bytes that the block takes on the wire.
    pub fn get_size(&self) -> (size: usize)
        ensures
            size == self@.size(),
            1 <= size <= 1 + MAX_DIFE_RECORDS,
    {
        1 + byte_count(&self.dife)
    }
}

impl vstd::std_specs::convert::TryFromSpecImpl<&[u8]> for DataInformationBlock {
    /// The result holds a vector that no spec function can build, so the
    /// outcome is stated by the `ensures` of `try_from` instead.
    open spec fn obeys_try_from_spec() -> bool {
        false
    }

    open spec fn try_from_spec(data: &[u8]) -> Result<Self, DataInformationError> {
        Err(DataInformationError::NoData)
    }
}

impl TryFrom<&[u8]> for DataInformationBlock {
    type Error = DataInformationError;

    /// Decodes the data information block at the start of `data`.
    fn try_from(data: &[u8]) -> (r: Result<Self, DataInformationError>)
        ensures
            match r {
                Ok(block) => data_information_block_of(data@) == Ok::<
                    DataInformationBlockView,
                    DataInformationError,
                >(block@),
                Err(e) => data_information_block_of(data@) == Err::<
                    DataInformationBlockView,
                    DataInformationError,
                >(e),
            },
    {
        if data.len() == 0 {
            return Err(DataInformationError::NoData);
        }
        let dif: u8 = data[0];
        let dife = if extension_flag(dif) {
            match read_chain(data, 1) {
                Ok(chain) => chain,
                Err(ChainError::TooLong) => {
                    return Err(DataInformationError::DifeChainTooLong);
                },
                Err(ChainError::Truncated) => {
                    return Err(DataInformationError::InvalidDataInformation);
                },
            }
        } else {
            let chain = new_bytes();
            assert(bytes_of(chain) =~= data@.subrange(1, 1));
            chain
        };
        let len: usize = byte_count(&dife);
        proof {
            lemma_fields_fit(dif, bytes_of(dife));
            lemma_masks_are_remainders(dif);
            assert(pow(4, len as nat) <= 0x10_0000 && pow(2, len as nat) <= 0x400) by {
                lemma_pow_exponent_increases(4, len as nat, 10);
                lemma_pow_exponent_increases(2, len as nat, 10);
                reveal_with_fuel(pow, 11);
            }
        }
        let storage_number: u64 = ((dif >> 6) & 0b1) as u64 + 2 * le_fields(data, 1, len, 1, 16);
        let tariff: u64 = le_fields(data, 1, len, 16, 4);
        let sub_device: u64 = le_fields(data, 1, len, 64, 2);
        Ok(
            DataInformationBlock {
                dif,
                dife,
                storage_number,
                tariff: tariff as u32,
                sub_device: sub_device as u32,
                function_field: FunctionField::from_dif(dif),
                data_field_coding: DataFieldCoding::from_dif(dif),
            },
        )
    }
}

} // verus!
