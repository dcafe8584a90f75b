//! The link layer: where a frame begins and ends, and whether it arrived
//! intact.
//!
//! A frame is a single acknowledge character, a short frame of five bytes, or
//! a frame with a length: `68 L L 68 C A CI .. CS 16`. `L` counts the bytes
//! from the C field to the last byte of user data, and `CS` is the sum of
//! those bytes modulo 256.
use vstd::prelude::*;
use vstd::slice::slice_subrange;

verus! {

/// The single character that acknowledges a telegram.
pub const SINGLE_CHARACTER: u8 = 0xE5;

/// The first byte of a short frame.
pub const START_SHORT: u8 = 0x10;

/// The first and the fourth byte of a control frame and of a long frame.
pub const START_LONG: u8 = 0x68;

/// The last byte of every frame but the single character.
pub const STOP: u8 = 0x16;

/// What a frame asks for or answers: the function code of the C field with
/// its flags.
#[derive(Debug, Clone, Copy, PartialEq, Eq, Structural)]
pub enum Function {
    /// Initialise the slave.
    SndNke,
    /// Send user data to the slave.
    SndUd { fcb: bool },
    /// Request user data of class 2.
    ReqUd2 { fcb: bool },
    /// Request user data of class 1.
    ReqUd1 { fcb: bool },
    /// The slave's answer with user data.
    RspUd { acd: bool, dfc: bool },
}

/// The address of the slave that a frame is for or from. The values with a
/// special meaning (0, 0xFD, 0xFE, 0xFF) are kept as they were sent.
#[derive(Debug, Clone, Copy, PartialEq, Eq, Structural)]
pub enum Address {
    Primary(u8),
}

/// Why bytes are not a frame.
#[derive(Debug, Clone, Copy, PartialEq, Eq, Structural)]
pub enum FrameError {
    /// There are fewer bytes than the frame needs.
    BufferTooShort,
    /// The first byte begins no frame, or the fourth byte of a frame with a
    /// length does not repeat the start byte.
    InvalidStartByte,
    /// The byte at the end of the frame is not the stop byte.
    MissingStopByte,
    /// The two length bytes differ, the length is less than three, or bytes
    /// follow the end of the frame.
    LengthMismatch,
    /// The checksum is not the sum of the bytes that it covers.
    ChecksumError,
    /// The C field holds a function code that is reserved.
    InvalidFunction,
}

/// A frame.
#[derive(Debug, PartialEq)]
pub enum Frame<'a> {
    SingleCharacter,
    ShortFrame { function: Function, address: Address, checksum: u8 },
    /// A frame with a length that holds nothing but the CI field.
    ControlFrame { function: Function, address: Address, control_information: u8, checksum: u8 },
    /// A frame with user data: `data` begins with the CI field and ends before
    /// the checksum.
    LongFrame { function: Function, address: Address, data: &'a [u8] },
}

/// A [`Frame`] with its user data as a sequence.
pub enum FrameView {
    SingleCharacter,
    ShortFrame { function: Function, address: Address, checksum: u8 },
    ControlFrame { function: Function, address: Address, control_information: u8, checksum: u8 },
    LongFrame { function: Function, address: Address, data: Seq<u8> },
}

impl<'a> View for Frame<'a> {
    type V = FrameView;

    open spec fn view(&self) -> FrameView {
        match self {
            Frame::SingleCharacter => FrameView::SingleCharacter,
            Frame::ShortFrame { function, address, checksum } => FrameView::ShortFrame {
                function: *function,
                address: *address,
                checksum: *checksum,
            },
            Frame::ControlFrame {
                function,
                address,
                control_information,
                checksum,
            } => FrameView::ControlFrame {
                function: *function,
                address: *address,
                control_information: *control_information,
                checksum: *checksum,
            },
            Frame::LongFrame { function, address, data } => FrameView::LongFrame {
                function: *function,
                address: *address,
                data: data@,
            },
        }
    }
}

/// The function that the C field `c` holds. Bit 6 tells the master's frames
/// from the slave's, bits 5 and 4 are the frame count bit and its validity in
/// one direction and the access demand and the data flow control in the other.
pub open spec fn function_of(c: u8) -> Option<Function> {
    let code = c % 16;
    let bit4 = (c / 16) % 2 == 1;
    let bit5 = (c / 32) % 2 == 1;
    let from_master = (c / 64) % 2 == 1;
    if c >= 0x80 {
        None
    } else if from_master {
        if code == 0 && !bit4 && !bit5 {
            Some(Function::SndNke)
        } else if code == 3 && bit4 {
            Some(Function::SndUd { fcb: bit5 })
        } else if code == 0xB && bit4 {
            Some(Function::ReqUd2 { fcb: bit5 })
        } else if code == 0xA && bit4 {
            Some(Function::ReqUd1 { fcb: bit5 })
        } else {
            None
        }
    } else if code == 8 {
        Some(Function::RspUd { acd: bit5, dfc: bit4 })
    } else {
        None
    }
}

/// The sum of the bytes of `s`.
pub open spec fn byte_sum(s: Seq<u8>) -> nat
    decreases s.len(),
{
    if s.len() == 0 {
        0
    } else {
        byte_sum(s.drop_last()) + s.last() as nat
    }
}

/// The checksum of the bytes `s`: their sum modulo 256.
pub open spec fn checksum_of(s: Seq<u8>) -> u8 {
    (byte_sum(s) % 256) as u8
}

/// The frame that `s` is, if it is one. `s` has to be the frame and nothing
/// more.
pub open spec fn frame_of(s: Seq<u8>) -> Result<FrameView, FrameError> {
    if s.len() == 0 {
        Err(FrameError::BufferTooShort)
    } else if s[0] == SINGLE_CHARACTER {
        if s.len() == 1 {
            Ok(FrameView::SingleCharacter)
        } else {
            Err(FrameError::LengthMismatch)
        }
    } else if s[0] == START_SHORT {
        short_frame_of(s)
    } else if s[0] == START_LONG {
        long_frame_of(s)
    } else {
        Err(FrameError::InvalidStartByte)
    }
}

/// The short frame that `s` is: `10 C A CS 16`.
pub open spec fn short_frame_of(s: Seq<u8>) -> Result<FrameView, FrameError> {
    if s.len() < 5 {
        Err(FrameError::BufferTooShort)
    } else if s.len() > 5 {
        Err(FrameError::LengthMismatch)
    } else if s[4] != STOP {
        Err(FrameError::MissingStopByte)
    } else if checksum_of(s.subrange(1, 3)) != s[3] {
        Err(FrameError::ChecksumError)
    } else {
        match function_of(s[1]) {
            None => Err(FrameError::InvalidFunction),
            Some(function) => Ok(
                FrameView::ShortFrame { function, address: Address::Primary(s[2]), checksum: s[3] },
            ),
        }
    }
}

/// Whether `s` has the shape of a frame with a length: the start bytes, two
/// equal length bytes of three or more, as many bytes as the length asks for,
/// and the stop byte. The checksum and the C field are not looked at.
pub open spec fn framing_of(s: Seq<u8>) -> Result<(), FrameError> {
    if s.len() < 4 {
        Err(FrameError::BufferTooShort)
    } else if s[3] != START_LONG {
        Err(FrameError::InvalidStartByte)
    } else if s[1] != s[2] || s[1] < 3 {
        Err(FrameError::LengthMismatch)
    } else if s.len() < s[1] + 6 {
        Err(FrameError::BufferTooShort)
    } else if s.len() > s[1] + 6 {
        Err(FrameError::LengthMismatch)
    } else if s[s[1] + 5] != STOP {
        Err(FrameError::MissingStopByte)
    } else {
        Ok(())
    }
}

/// The bytes of a frame with a length that the checksum covers: from the C
/// field to the last byte of user data.
pub open spec fn covered(s: Seq<u8>) -> Seq<u8> {
    s.subrange(4, s[1] + 4)
}

/// The control frame or long frame that `s` is: `68 L L 68 C A CI .. CS 16`.
pub open spec fn long_frame_of(s: Seq<u8>) -> Result<FrameView, FrameError> {
    match framing_of(s) {
        Err(e) => Err(e),
        Ok(_) => {
            let length = s[1] as int;
            if checksum_of(covered(s)) != s[length + 4] {
                Err(FrameError::ChecksumError)
            } else {
                match function_of(s[4]) {
                    None => Err(FrameError::InvalidFunction),
                    Some(function) => if length == 3 {
                        Ok(
                            FrameView::ControlFrame {
                                function,
                                address: Address::Primary(s[5]),
                                control_information: s[6],
                                checksum: s[7],
                            },
                        )
                    } else {
                        Ok(
                            FrameView::LongFrame {
                                function,
                                address: Address::Primary(s[5]),
                                data: s.subrange(6, length + 4),
                            },
                        )
                    },
                }
            }
        },
    }
}

/// The sum of a sequence is the sum of its parts.
pub proof fn lemma_byte_sum_split(s: Seq<u8>, at: int)
    requires
        0 <= at <= s.len(),
    ensures
        byte_sum(s) == byte_sum(s.subrange(0, at)) + byte_sum(s.subrange(at, s.len() as int)),
    decreases s.len(),
{
    if at == s.len() {
        assert(s.subrange(0, at) =~= s);
        assert(byte_sum(s.subrange(at, s.len() as int)) == 0);
    } else {
        let front = s.drop_last();
        lemma_byte_sum_split(front, at);
        assert(front.subrange(0, at) =~= s.subrange(0, at));
        assert(s.subrange(at, s.len() as int).drop_last() =~= front.subrange(
            at,
            front.len() as int,
        ));
    }
}

/// Replacing one byte changes the sum by the difference of the two bytes.
pub proof fn lemma_byte_sum_update(s: Seq<u8>, i: int, b: u8)
    requires
        0 <= i < s.len(),
    ensures
        byte_sum(s.update(i, b)) == byte_sum(s) - s[i] + b,
    decreases s.len(),
{
    let t = s.update(i, b);
    if i == s.len() - 1 {
        assert(t.drop_last() =~= s.drop_last());
    } else {
        lemma_byte_sum_update(s.drop_last(), i, b);
        assert(t.drop_last() =~= s.drop_last().update(i, b));
    }
}

/// A checksum tells any two sequences apart that differ in exactly one byte.
pub proof fn lemma_checksum_detects_one_change(s: Seq<u8>, i: int, b: u8)
    requires
        0 <= i < s.len(),
        b != s[i],
    ensures
        checksum_of(s.update(i, b)) != checksum_of(s),
{
    lemma_byte_sum_update(s, i, b);
}

/// A frame with a length that is well delimited, whose checksum is the sum of
/// the bytes from the C field to the last byte of user data, and whose C field
/// holds a function, is accepted.
pub proof fn lemma_intact_frame_is_accepted(s: Seq<u8>)
    requires
        s.len() > 0,
        s[0] == START_LONG,
        framing_of(s) is Ok,
        checksum_of(covered(s)) == s[s[1] + 4],
        function_of(s[4]) is Some,
    ensures
        frame_of(s) is Ok,
        frame_of(s).unwrap() is ControlFrame || frame_of(s).unwrap() is LongFrame,
{
}

/// Changing any one byte between the C field and the last byte of user data
/// of an intact frame, the checksum left as it was, is found out: the result
/// is a checksum error.
pub proof fn lemma_corruption_is_detected(s: Seq<u8>, i: int, b: u8)
    requires
        s.len() > 0,
        s[0] == START_LONG,
        framing_of(s) is Ok,
        checksum_of(covered(s)) == s[s[1] + 4],
        4 <= i < s[1] + 4,
        b != s[i],
    ensures
        frame_of(s.update(i, b)) == Err::<FrameView, FrameError>(FrameError::ChecksumError),
{
    let t = s.update(i, b);
    assert(covered(t) =~= covered(s).update(i - 4, b));
    lemma_checksum_detects_one_change(covered(s), i - 4, b);
}

impl Function {
    /// The function that the C field `c` holds, if it holds one.
    pub fn from_control_field(c: u8) -> (r: Option<Function>)
        ensures
            r == function_of(c),
    {
        match c {
            0x40 => Some(Function::SndNke),
            0x53 => Some(Function::SndUd { fcb: false }),
            0x73 => Some(Function::SndUd { fcb: true }),
            0x5B => Some(Function::ReqUd2 { fcb: false }),
            0x7B => Some(Function::ReqUd2 { fcb: true }),
            0x5A => Some(Function::ReqUd1 { fcb: false }),
            0x7A => Some(Function::ReqUd1 { fcb: true }),
            0x08 => Some(Function::RspUd { acd: false, dfc: false }),
            0x18 => Some(Function::RspUd { acd: false, dfc: true }),
            0x28 => Some(Function::RspUd { acd: true, dfc: false }),
            0x38 => Some(Function::RspUd { acd: true, dfc: true }),
            _ => None,
        }
    }
}

/// Computes the checksum of `data`.
pub fn checksum(data: &[u8]) -> (r: u8)
    ensures
        r == checksum_of(data@),
{
    let total: usize = data.len();
    let mut sum: u16 = 0;
    let mut i: usize = 0;
    while i < total
        invariant
            0 <= i <= total == data@.len(),
            sum == byte_sum(data@.subrange(0, i as int)) % 256,
        decreases total - i,
    {
        proof {
            let next = data@.subrange(0, i + 1);
            assert(next.drop_last() =~= data@.subrange(0, i as int));
            assert(next.last() == data@[i as int]);
        }
        sum = (sum + data[i] as u16) % 256;
        i = i + 1;
    }
    proof {
        assert(data@.subrange(0, total as int) =~= data@);
    }
    sum as u8
}

/// Decodes the frame that `data` is. `data` has to be the frame and nothing
/// more.
pub fn parse_frame<'a>(data: &'a [u8]) -> (r: Result<Frame<'a>, FrameError>)
    ensures
        match r {
            Ok(frame) => frame_of(data@) == Ok::<FrameView, FrameError>(frame@),
            Err(e) => frame_of(data@) == Err::<FrameView, FrameError>(e),
        },
{
    let total: usize = data.len();
    if total == 0 {
        return Err(FrameError::BufferTooShort);
    }
    match data[0] {
        0xE5 => {
            if total == 1 {
                Ok(Frame::SingleCharacter)
            } else {
                Err(FrameError::LengthMismatch)
            }
        },
        0x10 => {
            if total < 5 {
                return Err(FrameError::BufferTooShort);
            }
            if total > 5 {
                return Err(FrameError::LengthMismatch);
            }
            if data[4] != STOP {
                return Err(FrameError::MissingStopByte);
            }
            if checksum(slice_subrange(data, 1, 3)) != data[3] {
                return Err(FrameError::ChecksumError);
            }
            match Function::from_control_field(data[1]) {
                None => Err(FrameError::InvalidFunction),
                Some(function) => Ok(
                    Frame::ShortFrame {
                        function,
                        address: Address::Primary(data[2]),
                        checksum: data[3],
                    },
                ),
            }
        },
        0x68 => {
            if total < 4 {
                return Err(FrameError::BufferTooShort);
            }
            if data[3] != START_LONG {
                return Err(FrameError::InvalidStartByte);
            }
            let length: usize = data[1] as usize;
            if data[2] != data[1] || length < 3 {
                return Err(FrameError::LengthMismatch);
            }
            if total < length + 6 {
                return Err(FrameError::BufferTooShort);
            }
            if total > length + 6 {
                return Err(FrameError::LengthMismatch);
            }
            if data[length + 5] != STOP {
                return Err(FrameError::MissingStopByte);
            }
            if checksum(slice_subrange(data, 4, length + 4)) != data[length + 4] {
                return Err(FrameError::ChecksumError);
            }
            match Function::from_control_field(data[4]) {
                None => Err(FrameError::InvalidFunction),
                Some(function) => {
                    if length == 3 {
                        Ok(
                            Frame::ControlFrame {
                                function,
                                address: Address::Primary(data[5]),
                                control_information: data[6],
                                checksum: data[7],
                            },
                        )
                    } else {
                        Ok(
                            Frame::LongFrame {
                                function,
                                address: Address::Primary(data[5]),
                                data: slice_subrange(data, 6, length + 4),
                            },
                        )
                    }
                },
            }
        },
        _ => Err(FrameError::InvalidStartByte),
    }
}

impl<'a> vstd::std_specs::convert::TryFromSpecImpl<&'a [u8]> for Frame<'a> {
    /// Two slices with the same bytes need not be the same slice, so the
    /// outcome is stated by the `ensures` of `try_from` instead.
    open spec fn obeys_try_from_spec() -> bool {
        false
    }

    open spec fn try_from_spec(data: &'a [u8]) -> Result<Self, FrameError> {
        Err(FrameError::BufferTooShort)
    }
}

impl<'a> TryFrom<&'a [u8]> for Frame<'a> {
    type Error = FrameError;

    /// Decodes the frame that `data` is.
    fn try_from(data: &'a [u8]) -> (r: Result<Frame<'a>, FrameError>)
        ensures
            match r {
                Ok(frame) => frame_of(data@) == Ok::<FrameView, FrameError>(frame@),
                Err(e) => frame_of(data@) == Err::<FrameView, FrameError>(e),
            },
    {
        parse_frame(data)
    }
}

} // verus!
