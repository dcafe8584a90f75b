//! One enumeration of every way in which a telegram can fail to decode.
//!
//! Each layer has an error type of its own that names only its own faults.
//! They all convert into [`MbusError`], for callers that decode through
//! several layers and want one type to return.
use crate::frames::FrameError;
use crate::user_data::data_information::DataInformationError;
use crate::user_data::value_information::ValueInformationError;
use crate::user_data::variable_user_data::{DataRecordError, VariableUserDataError};
use crate::user_data::ApplicationLayerError;
use vstd::prelude::*;

verus! {

/// Why a telegram could not be decoded.
#[derive(Debug, Clone, Copy, PartialEq, Eq, Structural)]
pub enum MbusError {
    /// There are fewer bytes than the frame, the header or the block needs.
    BufferTooShort,
    /// The bytes begin no frame.
    InvalidStartByte,
    /// The frame does not end with the stop byte.
    MissingStopByte,
    /// The length bytes of the frame disagree with each other or with the
    /// number of bytes.
    LengthMismatch,
    /// The checksum of the frame is not the sum of the bytes that it covers.
    ChecksumError,
    /// The C field holds a reserved function code.
    InvalidFunction,
    /// The CI field names no structure that is known.
    InvalidControlInformation,
    /// The bytes end inside the extension chain of a DIF.
    InvalidDataInformation,
    /// A DIF has more than ten extension bytes.
    DifeChainTooLong,
    /// A value information block is cut off or malformed.
    InvalidValueInformation,
    /// A VIF has more than ten extension bytes.
    VifeChainTooLong,
    /// A VIF has no unit assigned.
    UnsupportedVif,
    /// A BCD number holds a nibble that is no digit and no sign.
    BcdError,
    /// The bytes end inside a payload.
    TruncatedPayload,
    /// A coding announces no value that could be read.
    UnsupportedCoding,
    /// The application gave up, for the reason given.
    Aborted { reason: u8 },
}

/// The fault of the link layer as an [`MbusError`].
pub open spec fn frame_fault(e: FrameError) -> MbusError {
    match e {
        FrameError::BufferTooShort => MbusError::BufferTooShort,
        FrameError::InvalidStartByte => MbusError::InvalidStartByte,
        FrameError::MissingStopByte => MbusError::MissingStopByte,
        FrameError::LengthMismatch => MbusError::LengthMismatch,
        FrameError::ChecksumError => MbusError::ChecksumError,
        FrameError::InvalidFunction => MbusError::InvalidFunction,
    }
}

/// The fault of the application layer as an [`MbusError`].
pub open spec fn application_fault(e: ApplicationLayerError) -> MbusError {
    match e {
        ApplicationLayerError::BufferTooShort => MbusError::BufferTooShort,
        ApplicationLayerError::InvalidControlInformation => MbusError::InvalidControlInformation,
        ApplicationLayerError::BcdError => MbusError::BcdError,
        ApplicationLayerError::Aborted { reason } => MbusError::Aborted { reason },
    }
}

/// The fault of a data information block or of a payload as an [`MbusError`].
/// That there was no byte to decode is a buffer that is too short.
pub open spec fn data_information_fault(e: DataInformationError) -> MbusError {
    match e {
        DataInformationError::NoData => MbusError::BufferTooShort,
        DataInformationError::InvalidDataInformation => MbusError::InvalidDataInformation,
        DataInformationError::DifeChainTooLong => MbusError::DifeChainTooLong,
        DataInformationError::BcdError => MbusError::BcdError,
        DataInformationError::TruncatedPayload => MbusError::TruncatedPayload,
        DataInformationError::UnsupportedCoding => MbusError::UnsupportedCoding,
    }
}

/// The fault of a value information block as an [`MbusError`].
pub open spec fn value_information_fault(e: ValueInformationError) -> MbusError {
    match e {
        ValueInformationError::InvalidValueInformation => MbusError::InvalidValueInformation,
        ValueInformationError::VifeChainTooLong => MbusError::VifeChainTooLong,
        ValueInformationError::UnsupportedVif => MbusError::UnsupportedVif,
    }
}

/// The fault of a record as an [`MbusError`]: that of the block at fault.
pub open spec fn record_fault(e: DataRecordError) -> MbusError {
    match e {
        DataRecordError::DataInformationError(inner) => data_information_fault(inner),
        DataRecordError::ValueInformationError(inner) => value_information_fault(inner),
    }
}

/// The fault of a variable data block as an [`MbusError`]: that of the record
/// at fault.
pub open spec fn records_fault(e: VariableUserDataError) -> MbusError {
    match e {
        VariableUserDataError::DataInformationError(inner) => record_fault(inner),
    }
}

impl vstd::std_specs::convert::FromSpecImpl<FrameError> for MbusError {
    open spec fn obeys_from_spec() -> bool {
        true
    }

    open spec fn from_spec(e: FrameError) -> Self {
        frame_fault(e)
    }
}

impl From<FrameError> for MbusError {
    fn from(e: FrameError) -> (r: Self)
        ensures
            r == frame_fault(e),
    {
        match e {
            FrameError::BufferTooShort => MbusError::BufferTooShort,
            FrameError::InvalidStartByte => MbusError::InvalidStartByte,
            FrameError::MissingStopByte => MbusError::MissingStopByte,
            FrameError::LengthMismatch => MbusError::LengthMismatch,
            FrameError::ChecksumError => MbusError::ChecksumError,
            FrameError::InvalidFunction => MbusError::InvalidFunction,
        }
    }
}

impl vstd::std_specs::convert::FromSpecImpl<ApplicationLayerError> for MbusError {
    open spec fn obeys_from_spec() -> bool {
        true
    }

    open spec fn from_spec(e: ApplicationLayerError) -> Self {
        application_fault(e)
    }
}

impl From<ApplicationLayerError> for MbusError {
    fn from(e: ApplicationLayerError) -> (r: Self)
        ensures
            r == application_fault(e),
    {
        match e {
            ApplicationLayerError::BufferTooShort => MbusError::BufferTooShort,
            ApplicationLayerError::InvalidControlInformation => {
                MbusError::InvalidControlInformation
            },
            ApplicationLayerError::BcdError => MbusError::BcdError,
            ApplicationLayerError::Aborted { reason } => MbusError::Aborted { reason },
        }
    }
}

impl vstd::std_specs::convert::FromSpecImpl<DataInformationError> for MbusError {
    open spec fn obeys_from_spec() -> bool {
        true
    }

    open spec fn from_spec(e: DataInformationError) -> Self {
        data_information_fault(e)
    }
}

impl From<DataInformationError> for MbusError {
    fn from(e: DataInformationError) -> (r: Self)
        ensures
            r == data_information_fault(e),
    {
        match e {
            DataInformationError::NoData => MbusError::BufferTooShort,
            DataInformationError::InvalidDataInformation => MbusError::InvalidDataInformation,
            DataInformationError::DifeChainTooLong => MbusError::DifeChainTooLong,
            DataInformationError::BcdError => MbusError::BcdError,
            DataInformationError::TruncatedPayload => MbusError::TruncatedPayload,
            DataInformationError::UnsupportedCoding => MbusError::UnsupportedCoding,
        }
    }
}

impl vstd::std_specs::convert::FromSpecImpl<ValueInformationError> for MbusError {
    open spec fn obeys_from_spec() -> bool {
        true
    }

    open spec fn from_spec(e: ValueInformationError) -> Self {
        value_information_fault(e)
    }
}

impl From<ValueInformationError> for MbusError {
    fn from(e: ValueInformationError) -> (r: Self)
        ensures
            r == value_information_fault(e),
    {
        match e {
            ValueInformationError::InvalidValueInformation => MbusError::InvalidValueInformation,
            ValueInformationError::VifeChainTooLong => MbusError::VifeChainTooLong,
            ValueInformationError::UnsupportedVif => MbusError::UnsupportedVif,
        }
    }
}

impl vstd::std_specs::convert::FromSpecImpl<DataRecordError> for MbusError {
    open spec fn obeys_from_spec() -> bool {
        true
    }

    open spec fn from_spec(e: DataRecordError) -> Self {
        record_fault(e)
    }
}

impl From<DataRecordError> for MbusError {
    fn from(e: DataRecordError) -> (r: Self)
        ensures
            r == record_fault(e),
    {
        match e {
            DataRecordError::DataInformationError(inner) => MbusError::from(inner),
            DataRecordError::ValueInformationError(inner) => MbusError::from(inner),
        }
    }
}

impl vstd::std_specs::convert::FromSpecImpl<VariableUserDataError> for MbusError {
    open spec fn obeys_from_spec() -> bool {
        true
    }

    open spec fn from_spec(e: VariableUserDataError) -> Self {
        records_fault(e)
    }
}

impl From<VariableUserDataError> for MbusError {
    fn from(e: VariableUserDataError) -> (r: Self)
        ensures
            r == records_fault(e),
    {
        match e {
            VariableUserDataError::DataInformationError(inner) => MbusError::from(inner),
        }
    }
}

} // verus!
