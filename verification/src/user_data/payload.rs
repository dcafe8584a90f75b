//! The payload of a record: the bytes behind the value information block, read
//! as the data field coding says.
//!
//! Values are kept exact. A binary integer is an integer, a BCD number a sign
//! and a magnitude, a real number the 32 bits that were sent; nothing is
//! rounded here.
use crate::radix::{
    byte_fields, le_number, lemma_le_number_from, lemma_pow_exponent_increases, lemma_pow_step,
};
use crate::extension::{lemma_same_start_same_parts, same_start};
use crate::user_data::data_information::{DataFieldCoding, DataInformationError};
use vstd::arithmetic::power::pow;
use vstd::prelude::*;

verus! {

/// Most bytes that a number in a payload can have.
pub const MAX_NUMBER_BYTES: usize = 15;

/// The value that a payload holds.
#[derive(Debug, Clone, Copy, PartialEq, Eq, Structural)]
pub enum DataValue {
    /// A binary integer. A record without data holds the integer zero.
    Integer(i128),
    /// A BCD number: a sign and the number that the digits spell.
    Decimal { negative: bool, magnitude: u128 },
    /// The bits of an IEEE 754 single-precision number, as they were sent.
    Real32(u32),
    /// Text or another payload that is no number.
    NotANumber,
}

/// A value and the number of payload bytes that it took.
#[derive(Debug, Clone, Copy, PartialEq, Eq, Structural)]
pub struct Data {
    pub data: DataValue,
    pub byte_size: usize,
}

/// The number of payload bytes of a coding of fixed size.
pub open spec fn fixed_size(coding: DataFieldCoding) -> Option<nat> {
    match coding {
        DataFieldCoding::NoData => Some(0),
        DataFieldCoding::Integer8Bit => Some(1),
        DataFieldCoding::Integer16Bit => Some(2),
        DataFieldCoding::Integer24Bit => Some(3),
        DataFieldCoding::Integer32Bit => Some(4),
        DataFieldCoding::Real32Bit => Some(4),
        DataFieldCoding::Integer48Bit => Some(6),
        DataFieldCoding::Integer64Bit => Some(8),
        DataFieldCoding::SelectionForReadout => Some(0),
        DataFieldCoding::BCD2Digit => Some(1),
        DataFieldCoding::BCD4Digit => Some(2),
        DataFieldCoding::BCD6Digit => Some(3),
        DataFieldCoding::BCD8Digit => Some(4),
        DataFieldCoding::BCDDigit12 => Some(6),
        DataFieldCoding::VariableLength => None,
        DataFieldCoding::SpecialFunctions(_) => None,
    }
}

/// The unsigned number that the bytes `s` spell, least significant byte first.
pub open spec fn unsigned_le(s: Seq<u8>) -> nat {
    le_number(byte_fields(s, 1, 256), 256)
}

/// The two's complement number that the bytes `s` spell, least significant
/// byte first: the top bit of the last byte is the sign.
pub open spec fn signed_le(s: Seq<u8>) -> int {
    if s.len() > 0 && s.last() >= 0x80 {
        unsigned_le(s) - pow(256, s.len())
    } else {
        unsigned_le(s) as int
    }
}

/// The two decimal digits of a BCD byte as a number below a hundred.
pub open spec fn bcd_pair(b: u8) -> nat {
    ((b / 16) * 10 + b % 16) as nat
}

/// Whether both nibbles of `b` are decimal digits.
pub open spec fn is_bcd_byte(b: u8) -> bool {
    b / 16 <= 9 && b % 16 <= 9
}

/// Whether every nibble of `s` is a decimal digit.
pub open spec fn all_bcd(s: Seq<u8>) -> bool {
    forall|i: int| 0 <= i < s.len() ==> is_bcd_byte(#[trigger] s[i])
}

/// The number that the BCD bytes `s` spell, least significant byte first.
pub open spec fn bcd_magnitude(s: Seq<u8>) -> nat {
    le_number(Seq::new(s.len(), |i: int| bcd_pair(s[i])), 100)
}

/// Whether the topmost nibble of `s` is the minus sign `0xF`.
pub open spec fn has_minus_sign(s: Seq<u8>) -> bool {
    s.len() > 0 && s.last() / 16 == 0xF
}

/// `s` with its topmost nibble set to zero.
pub open spec fn without_top_nibble(s: Seq<u8>) -> Seq<u8> {
    s.update(s.len() - 1, (s.last() % 16) as u8)
}

/// The digits of the BCD number `s`: `s` itself, or `s` without the sign where
/// a sign is allowed and present.
pub open spec fn bcd_digits(s: Seq<u8>, signed: bool) -> Seq<u8> {
    if signed && has_minus_sign(s) {
        without_top_nibble(s)
    } else {
        s
    }
}

/// The BCD number that `s` spells. With `signed`, a topmost nibble `0xF` makes
/// the number negative and the remaining digits its magnitude. `negate` turns
/// the sign around. Any other nibble that is no digit is an error.
pub open spec fn bcd_of(s: Seq<u8>, signed: bool, negate: bool) -> Result<
    DataValue,
    DataInformationError,
> {
    let digits = bcd_digits(s, signed);
    if all_bcd(digits) {
        Ok(
            DataValue::Decimal {
                negative: (signed && has_minus_sign(s)) != negate,
                magnitude: bcd_magnitude(digits) as u128,
            },
        )
    } else {
        Err(DataInformationError::BcdError)
    }
}

/// The value that the bytes `s` of a coding of fixed size hold; `s` has the
/// length that the coding asks for.
pub open spec fn fixed_value(coding: DataFieldCoding, s: Seq<u8>) -> Result<
    DataValue,
    DataInformationError,
> {
    match coding {
        DataFieldCoding::NoData | DataFieldCoding::SelectionForReadout => Ok(
            DataValue::Integer(0),
        ),
        DataFieldCoding::Integer8Bit
        | DataFieldCoding::Integer16Bit
        | DataFieldCoding::Integer24Bit
        | DataFieldCoding::Integer32Bit
        | DataFieldCoding::Integer48Bit
        | DataFieldCoding::Integer64Bit => Ok(DataValue::Integer(signed_le(s) as i128)),
        DataFieldCoding::Real32Bit => Ok(DataValue::Real32(unsigned_le(s) as u32)),
        DataFieldCoding::BCD2Digit
        | DataFieldCoding::BCD4Digit
        | DataFieldCoding::BCD6Digit
        | DataFieldCoding::BCD8Digit
        | DataFieldCoding::BCDDigit12 => bcd_of(s, true, false),
        DataFieldCoding::VariableLength | DataFieldCoding::SpecialFunctions(_) => Err(
            DataInformationError::UnsupportedCoding,
        ),
    }
}

/// The number of bytes that follow the length byte `lvar` of a payload of
/// variable length. Length bytes from `0xFB` on are reserved.
pub open spec fn variable_size(lvar: u8) -> Option<nat> {
    if lvar <= 0xBF {
        Some(lvar as nat)
    } else if lvar <= 0xCF {
        Some((lvar - 0xC0) as nat)
    } else if lvar <= 0xDF {
        Some((lvar - 0xD0) as nat)
    } else if lvar <= 0xEF {
        Some((lvar - 0xE0) as nat)
    } else if lvar <= 0xFA {
        Some((lvar - 0xF0) as nat)
    } else {
        None
    }
}

/// The value of a payload of variable length: `lvar` is the length byte and
/// `s` the bytes behind it. Up to `0xBF` they are text, from `0xC0` a positive
/// and from `0xD0` a negative BCD number, from `0xE0` a binary integer, and
/// from `0xF0` a floating-point number of a width that is no number here.
pub open spec fn variable_value(lvar: u8, s: Seq<u8>) -> Result<DataValue, DataInformationError> {
    if lvar <= 0xBF {
        Ok(DataValue::NotANumber)
    } else if lvar <= 0xCF {
        bcd_of(s, false, false)
    } else if lvar <= 0xDF {
        bcd_of(s, false, true)
    } else if lvar <= 0xEF {
        Ok(DataValue::Integer(signed_le(s) as i128))
    } else {
        Ok(DataValue::NotANumber)
    }
}

/// The value at the start of `s` under `coding`, and the number of bytes that
/// it takes.
pub open spec fn payload_of(coding: DataFieldCoding, s: Seq<u8>) -> Result<
    (DataValue, nat),
    DataInformationError,
> {
    match coding {
        DataFieldCoding::SpecialFunctions(_) => Err(DataInformationError::UnsupportedCoding),
        DataFieldCoding::VariableLength => {
            if s.len() == 0 {
                Err(DataInformationError::TruncatedPayload)
            } else {
                match variable_size(s[0]) {
                    None => Err(DataInformationError::UnsupportedCoding),
                    Some(n) => {
                        if s.len() < 1 + n {
                            Err(DataInformationError::TruncatedPayload)
                        } else {
                            match variable_value(s[0], s.subrange(1, n + 1int)) {
                                Ok(value) => Ok((value, 1 + n)),
                                Err(e) => Err(e),
                            }
                        }
                    },
                }
            }
        },
        _ => {
            let n = fixed_size(coding).unwrap();
            if s.len() < n {
                Err(DataInformationError::TruncatedPayload)
            } else {
                match fixed_value(coding, s.subrange(0, n as int)) {
                    Ok(value) => Ok((value, n)),
                    Err(e) => Err(e),
                }
            }
        },
    }
}

/// A payload is decoded from its own bytes: what follows them has no
/// influence.
pub proof fn lemma_payload_depends_on_its_bytes(coding: DataFieldCoding, s: Seq<u8>, t: Seq<u8>)
    requires
        payload_of(coding, s) matches Ok((_, n)) && same_start(s, t, n as int),
    ensures
        payload_of(coding, t) == payload_of(coding, s),
{
    let n = payload_of(coding, s).unwrap().1 as int;
    if coding == DataFieldCoding::VariableLength {
        assert(s[0] == t[0]);
        lemma_same_start_same_parts(s, t, n, 1, n);
    } else {
        lemma_same_start_same_parts(s, t, n, 0, n);
    }
}

/// A BCD payload with the minus sign on top is negative and has the remaining
/// digits as its magnitude; a nibble that is neither a digit nor that sign is
/// an error, wherever it stands.
pub proof fn lemma_bcd_sign(s: Seq<u8>)
    requires
        s.len() > 0,
    ensures
        has_minus_sign(s) && all_bcd(without_top_nibble(s)) ==> bcd_of(s, true, false) == Ok::<
            DataValue,
            DataInformationError,
        >(
            DataValue::Decimal {
                negative: true,
                magnitude: bcd_magnitude(without_top_nibble(s)) as u128,
            },
        ),
        !has_minus_sign(s) && all_bcd(s) ==> bcd_of(s, true, false) == Ok::<
            DataValue,
            DataInformationError,
        >(DataValue::Decimal { negative: false, magnitude: bcd_magnitude(s) as u128 }),
        forall|i: int|
            0 <= i < s.len() && (#[trigger] s[i]) % 16 > 9 ==> bcd_of(s, true, false) == Err::<
                DataValue,
                DataInformationError,
            >(DataInformationError::BcdError),
        forall|i: int|
            0 <= i < s.len() && (#[trigger] s[i]) / 16 > 9 && !(i == s.len() - 1 && s[i] / 16
                == 0xF) ==> bcd_of(s, true, false) == Err::<DataValue, DataInformationError>(
                DataInformationError::BcdError,
            ),
{
    let digits = bcd_digits(s, true);
    assert forall|i: int| 0 <= i < s.len() && (#[trigger] s[i]) % 16 > 9 implies !all_bcd(
        digits,
    ) by {
        assert(digits[i] % 16 == s[i] % 16);
        assert(!is_bcd_byte(digits[i]));
    }
    assert forall|i: int|
        0 <= i < s.len() && (#[trigger] s[i]) / 16 > 9 && !(i == s.len() - 1 && s[i] / 16
            == 0xF) implies !all_bcd(digits) by {
        assert(digits[i] == s[i]);
        assert(!is_bcd_byte(digits[i]));
    }
}

/// The fifteenth powers of 256 and of 100, the largest that a payload number
/// can reach, fit in 128 bits with room to spare.
pub proof fn lemma_largest_powers()
    ensures
        pow(256, 15) == 0x1_0000_0000_0000_0000_0000_0000_0000_00,
        pow(100, 15) == 1_000_000_000_000_000_000_000_000_000_000,
        pow(256, 4) == 0x1_0000_0000,
{
    reveal_with_fuel(pow, 16);
}

/// Reads the `len` bytes at `first` as an unsigned number, least significant
/// byte first. Also returns 256 to the power of `len`.
pub(crate) fn read_unsigned(data: &[u8], first: usize, len: usize) -> (r: (u128, u128))
    requires
        first + len <= data@.len(),
        len <= MAX_NUMBER_BYTES,
    ensures
        r.0 == unsigned_le(data@.subrange(first as int, first + len)),
        r.1 == pow(256, len as nat),
        r.0 < r.1,
{
    let total: usize = data.len();
    let ghost digits = byte_fields(data@.subrange(first as int, first + len), 1, 256);
    let mut number: u128 = 0;
    let mut modulus: u128 = 1;
    let mut k: usize = len;
    proof {
        assert(digits.subrange(len as int, len as int) =~= Seq::<nat>::empty());
        reveal(pow);
    }
    while k > 0
        invariant
            0 <= k <= len <= MAX_NUMBER_BYTES,
            first + len <= total == data@.len(),
            digits == byte_fields(data@.subrange(first as int, first + len), 1, 256),
            number == le_number(digits.subrange(k as int, len as int), 256),
            modulus == pow(256, (len - k) as nat),
            number < modulus,
        decreases k,
    {
        k = k - 1;
        let byte: u8 = data[first + k];
        proof {
            assert(digits.len() == len);
            assert(digits[k as int] == byte);
            lemma_le_number_from(digits, 256, k as int);
            lemma_pow_step(256, (len - k - 1) as nat);
            lemma_largest_powers();
            lemma_pow_exponent_increases(256, (len - k) as nat, 15);
            assert(number * 256 + byte < 256 * modulus);
        }
        number = number * 256 + byte as u128;
        modulus = modulus * 256;
    }
    proof {
        assert(digits.subrange(0, len as int) =~= digits);
    }
    (number, modulus)
}

/// Reads the `len` bytes at `first` as a two's complement number, least
/// significant byte first.
pub(crate) fn read_signed(data: &[u8], first: usize, len: usize) -> (r: i128)
    requires
        first + len <= data@.len(),
        len <= MAX_NUMBER_BYTES,
    ensures
        r == signed_le(data@.subrange(first as int, first + len)),
{
    let total: usize = data.len();
    let (number, modulus) = read_unsigned(data, first, len);
    proof {
        lemma_largest_powers();
        lemma_pow_exponent_increases(256, len as nat, 15);
    }
    if len > 0 && data[first + (len - 1)] >= 0x80 {
        number as i128 - modulus as i128
    } else {
        number as i128
    }
}

/// Reads the `len` bytes at `first` as a BCD number, least significant byte
/// first. With `signed`, a topmost nibble `0xF` is a minus sign.
pub(crate) fn read_bcd(data: &[u8], first: usize, len: usize, signed: bool, negate: bool) -> (r: Result<
    DataValue,
    DataInformationError,
>)
    requires
        first + len <= data@.len(),
        len <= MAX_NUMBER_BYTES,
    ensures
        r == bcd_of(data@.subrange(first as int, first + len), signed, negate),
{
    let total: usize = data.len();
    let ghost s = data@.subrange(first as int, first + len);
    let minus: bool = signed && len > 0 && data[first + (len - 1)] / 16 == 0xF;
    let ghost digits = bcd_digits(s, signed);
    let ghost pairs = Seq::new(digits.len(), |i: int| bcd_pair(digits[i]));
    let mut magnitude: u128 = 0;
    let mut k: usize = len;
    proof {
        assert(pairs.subrange(len as int, len as int) =~= Seq::<nat>::empty());
        reveal(pow);
    }
    while k > 0
        invariant
            0 <= k <= len <= MAX_NUMBER_BYTES,
            first + len <= total == data@.len(),
            s == data@.subrange(first as int, first + len),
            minus == (signed && has_minus_sign(s)),
            digits == bcd_digits(s, signed),
            digits.len() == len,
            pairs == Seq::new(digits.len(), |i: int| bcd_pair(digits[i])),
            forall|i: int| k <= i < len ==> is_bcd_byte(#[trigger] digits[i]),
            magnitude == le_number(pairs.subrange(k as int, len as int), 100),
            magnitude < pow(100, (len - k) as nat),
        decreases k,
    {
        k = k - 1;
        let byte: u8 = data[first + k];
        let high: u8 = if minus && k == len - 1 {
            0
        } else {
            byte / 16
        };
        let low: u8 = byte % 16;
        assert(s[k as int] == byte);
        assert(digits[k as int] / 16 == high && digits[k as int] % 16 == low);
        if high > 9 || low > 9 {
            assert(!is_bcd_byte(digits[k as int]));
            return Err(DataInformationError::BcdError);
        }
        proof {
            assert(pairs[k as int] == high * 10 + low);
            lemma_le_number_from(pairs, 100, k as int);
            lemma_pow_step(100, (len - k - 1) as nat);
            lemma_largest_powers();
            lemma_pow_exponent_increases(100, (len - k) as nat, 15);
            assert(magnitude * 100 + high * 10 + low < 100 * pow(100, (len - k - 1) as nat));
        }
        magnitude = magnitude * 100 + (high * 10 + low) as u128;
    }
    proof {
        assert(pairs.subrange(0, len as int) =~= pairs);
    }
    Ok(DataValue::Decimal { negative: minus != negate, magnitude })
}

impl DataFieldCoding {
    /// The number of payload bytes of a coding of fixed size; `None` for a
    /// variable length and for special functions.
    pub fn get_size(&self) -> (r: Option<usize>)
        ensures
            match r {
                Some(n) => fixed_size(*self) == Some(n as nat),
                None => fixed_size(*self) is None,
            },
    {
        match self {
            DataFieldCoding::NoData => Some(0),
            DataFieldCoding::Integer8Bit => Some(1),
            DataFieldCoding::Integer16Bit => Some(2),
            DataFieldCoding::Integer24Bit => Some(3),
            DataFieldCoding::Integer32Bit => Some(4),
            DataFieldCoding::Real32Bit => Some(4),
            DataFieldCoding::Integer48Bit => Some(6),
            DataFieldCoding::Integer64Bit => Some(8),
            DataFieldCoding::SelectionForReadout => Some(0),
            DataFieldCoding::BCD2Digit => Some(1),
            DataFieldCoding::BCD4Digit => Some(2),
            DataFieldCoding::BCD6Digit => Some(3),
            DataFieldCoding::BCD8Digit => Some(4),
            DataFieldCoding::BCDDigit12 => Some(6),
            DataFieldCoding::VariableLength => None,
            DataFieldCoding::SpecialFunctions(_) => None,
        }
    }

    /// Reads the value at the start of `input` as this coding says.
    pub fn extract_from_bytes(&self, input: &[u8]) -> (r: Result<Data, DataInformationError>)
        ensures
            match r {
                Ok(d) => payload_of(*self, input@) == Ok::<(DataValue, nat), DataInformationError>(
                    (d.data, d.byte_size as nat),
                ),
                Err(e) => payload_of(*self, input@) == Err::<
                    (DataValue, nat),
                    DataInformationError,
                >(e),
            },
    {
        match self {
            DataFieldCoding::SpecialFunctions(_) => Err(DataInformationError::UnsupportedCoding),
            DataFieldCoding::VariableLength => {
                if input.len() == 0 {
                    return Err(DataInformationError::TruncatedPayload);
                }
                let lvar: u8 = input[0];
                if lvar > 0xFA {
                    return Err(DataInformationError::UnsupportedCoding);
                }
                let n: usize = match lvar {
                    0x00..=0xBF => lvar as usize,
                    0xC0..=0xCF => (lvar - 0xC0) as usize,
                    0xD0..=0xDF => (lvar - 0xD0) as usize,
                    0xE0..=0xEF => (lvar - 0xE0) as usize,
                    _ => (lvar - 0xF0) as usize,
                };
                if input.len() - 1 < n {
                    return Err(DataInformationError::TruncatedPayload);
                }
                let value: DataValue = match lvar {
                    0x00..=0xBF => DataValue::NotANumber,
                    0xC0..=0xCF => match read_bcd(input, 1, n, false, false) {
                        Ok(value) => value,
                        Err(e) => {
                            return Err(e);
                        },
                    },
                    0xD0..=0xDF => match read_bcd(input, 1, n, false, true) {
                        Ok(value) => value,
                        Err(e) => {
                            return Err(e);
                        },
                    },
                    0xE0..=0xEF => DataValue::Integer(read_signed(input, 1, n)),
                    _ => DataValue::NotANumber,
                };
                Ok(Data { data: value, byte_size: n + 1 })
            },
            _ => {
                let n: usize = match self.get_size() {
                    Some(n) => n,
                    None => {
                        return Err(DataInformationError::UnsupportedCoding);
                    },
                };
                if input.len() < n {
                    return Err(DataInformationError::TruncatedPayload);
                }
                let value: DataValue = match self {
                    DataFieldCoding::NoData | DataFieldCoding::SelectionForReadout => {
                        DataValue::Integer(0)
                    },
                    DataFieldCoding::Real32Bit => {
                        let (bits, _) = read_unsigned(input, 0, n);
                        proof {
                            lemma_largest_powers();
                        }
                        DataValue::Real32(bits as u32)
                    },
                    DataFieldCoding::BCD2Digit
                    | DataFieldCoding::BCD4Digit
                    | DataFieldCoding::BCD6Digit
                    | DataFieldCoding::BCD8Digit
                    | DataFieldCoding::BCDDigit12 => match read_bcd(input, 0, n, true, false) {
                        Ok(value) => value,
                        Err(e) => {
                            return Err(e);
                        },
                    },
                    _ => DataValue::Integer(read_signed(input, 0, n)),
                };
                Ok(Data { data: value, byte_size: n })
            },
        }
    }
}

} // verus!
