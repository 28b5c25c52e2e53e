use vstd::prelude::*;

verus! {

/// A PSA status word as it travels through registers and return values.
pub type PsaStatus = isize;

/// PSA status codes (the negative error values of the PSA Firmware Framework).
#[derive(Clone, Copy, Debug, PartialEq, Eq, Structural)]
pub enum StatusCode {
    Success,
    ProgrammerError,
    ConnectionRefused,
    ConnectionBusy,
    GenericError,
    NotPermitted,
    NotSupported,
    InvalidArgument,
    InvalidHandle,
    BadState,
    BufferTooSmall,
    AlreadyExists,
    DoesNotExist,
    InsufficientMemory,
    InsufficientStorage,
    InsufficientData,
    ServiceFailure,
    CommunicationFailure,
    StorageFailure,
    HardwareFailure,
    InsufficientEntropy,
    InvalidSignature,
    InvalidPadding,
    CorruptionDetected,
    DataCorrupt,
    DataInvalid,
}

/// The numeric value of each status code.
pub open spec fn spec_status_value(s: StatusCode) -> int {
    match s {
        StatusCode::Success => 0,
        StatusCode::ProgrammerError => -129,
        StatusCode::ConnectionRefused => -130,
        StatusCode::ConnectionBusy => -131,
        StatusCode::GenericError => -132,
        StatusCode::NotPermitted => -133,
        StatusCode::NotSupported => -134,
        StatusCode::InvalidArgument => -135,
        StatusCode::InvalidHandle => -136,
        StatusCode::BadState => -137,
        StatusCode::BufferTooSmall => -138,
        StatusCode::AlreadyExists => -139,
        StatusCode::DoesNotExist => -140,
        StatusCode::InsufficientMemory => -141,
        StatusCode::InsufficientStorage => -142,
        StatusCode::InsufficientData => -143,
        StatusCode::ServiceFailure => -144,
        StatusCode::CommunicationFailure => -145,
        StatusCode::StorageFailure => -146,
        StatusCode::HardwareFailure => -147,
        StatusCode::InsufficientEntropy => -148,
        StatusCode::InvalidSignature => -149,
        StatusCode::InvalidPadding => -150,
        StatusCode::CorruptionDetected => -151,
        StatusCode::DataCorrupt => -152,
        StatusCode::DataInvalid => -153,
    }
}

/// The status code whose value is `v`, if any.
pub open spec fn spec_status_from_value(v: int) -> Option<StatusCode> {
    if v == 0 {
        Some(StatusCode::Success)
    } else if -153 <= v <= -129 {
        Some(spec_status_from_error_value(v))
    } else {
        None
    }
}

/// The error code with value `v`, for `v` in `-153..=-129`.
pub open spec fn spec_status_from_error_value(v: int) -> StatusCode
    recommends
        -153 <= v <= -129,
{
    if v == -129 {
        StatusCode::ProgrammerError
    } else if v == -130 {
        StatusCode::ConnectionRefused
    } else if v == -131 {
        StatusCode::ConnectionBusy
    } else if v == -132 {
        StatusCode::GenericError
    } else if v == -133 {
        StatusCode::NotPermitted
    } else if v == -134 {
        StatusCode::NotSupported
    } else if v == -135 {
        StatusCode::InvalidArgument
    } else if v == -136 {
        StatusCode::InvalidHandle
    } else if v == -137 {
        StatusCode::BadState
    } else if v == -138 {
        StatusCode::BufferTooSmall
    } else if v == -139 {
        StatusCode::AlreadyExists
    } else if v == -140 {
        StatusCode::DoesNotExist
    } else if v == -141 {
        StatusCode::InsufficientMemory
    } else if v == -142 {
        StatusCode::InsufficientStorage
    } else if v == -143 {
        StatusCode::InsufficientData
    } else if v == -144 {
        StatusCode::ServiceFailure
    } else if v == -145 {
        StatusCode::CommunicationFailure
    } else if v == -146 {
        StatusCode::StorageFailure
    } else if v == -147 {
        StatusCode::HardwareFailure
    } else if v == -148 {
        StatusCode::InsufficientEntropy
    } else if v == -149 {
        StatusCode::InvalidSignature
    } else if v == -150 {
        StatusCode::InvalidPadding
    } else if v == -151 {
        StatusCode::CorruptionDetected
    } else if v == -152 {
        StatusCode::DataCorrupt
    } else {
        StatusCode::DataInvalid
    }
}

impl StatusCode {
    /// The numeric PSA status value of this code.
    pub fn value(self) -> (r: PsaStatus)
        ensures
            r == spec_status_value(self),
    {
        match self {
            StatusCode::Success => 0,
            StatusCode::ProgrammerError => -129,
            StatusCode::ConnectionRefused => -130,
            StatusCode::ConnectionBusy => -131,
            StatusCode::GenericError => -132,
            StatusCode::NotPermitted => -133,
            StatusCode::NotSupported => -134,
            StatusCode::InvalidArgument => -135,
            StatusCode::InvalidHandle => -136,
            StatusCode::BadState => -137,
            StatusCode::BufferTooSmall => -138,
            StatusCode::AlreadyExists => -139,
            StatusCode::DoesNotExist => -140,
            StatusCode::InsufficientMemory => -141,
            StatusCode::InsufficientStorage => -142,
            StatusCode::InsufficientData => -143,
            StatusCode::ServiceFailure => -144,
            StatusCode::CommunicationFailure => -145,
            StatusCode::StorageFailure => -146,
            StatusCode::HardwareFailure => -147,
            StatusCode::InsufficientEntropy => -148,
            StatusCode::InvalidSignature => -149,
            StatusCode::InvalidPadding => -150,
            StatusCode::CorruptionDetected => -151,
            StatusCode::DataCorrupt => -152,
            StatusCode::DataInvalid => -153,
        }
    }

    /// The status code with numeric value `v`; `None` for any other value.
    pub fn from_value(v: PsaStatus) -> (r: Option<StatusCode>)
        ensures
            r == spec_status_from_value(v as int),
    {
        if v == 0 {
            Some(StatusCode::Success)
        } else if v < -153 || v > -129 {
            None
        } else if v == -129 {
            Some(StatusCode::ProgrammerError)
        } else if v == -130 {
            Some(StatusCode::ConnectionRefused)
        } else if v == -131 {
            Some(StatusCode::ConnectionBusy)
        } else if v == -132 {
            Some(StatusCode::GenericError)
        } else if v == -133 {
            Some(StatusCode::NotPermitted)
        } else if v == -134 {
            Some(StatusCode::NotSupported)
        } else if v == -135 {
            Some(StatusCode::InvalidArgument)
        } else if v == -136 {
            Some(StatusCode::InvalidHandle)
        } else if v == -137 {
            Some(StatusCode::BadState)
        } else if v == -138 {
            Some(StatusCode::BufferTooSmall)
        } else if v == -139 {
            Some(StatusCode::AlreadyExists)
        } else if v == -140 {
            Some(StatusCode::DoesNotExist)
        } else if v == -141 {
            Some(StatusCode::InsufficientMemory)
        } else if v == -142 {
            Some(StatusCode::InsufficientStorage)
        } else if v == -143 {
            Some(StatusCode::InsufficientData)
        } else if v == -144 {
            Some(StatusCode::ServiceFailure)
        } else if v == -145 {
            Some(StatusCode::CommunicationFailure)
        } else if v == -146 {
            Some(StatusCode::StorageFailure)
        } else if v == -147 {
            Some(StatusCode::HardwareFailure)
        } else if v == -148 {
            Some(StatusCode::InsufficientEntropy)
        } else if v == -149 {
            Some(StatusCode::InvalidSignature)
        } else if v == -150 {
            Some(StatusCode::InvalidPadding)
        } else if v == -151 {
            Some(StatusCode::CorruptionDetected)
        } else if v == -152 {
            Some(StatusCode::DataCorrupt)
        } else {
            Some(StatusCode::DataInvalid)
        }
    }
}

/// Decoding a status value gives back the code it was encoded from.
pub proof fn law_status_value_roundtrip(s: StatusCode)
    ensures
        spec_status_from_value(spec_status_value(s)) == Some(s),
{
}

/// The status word reported for the outcome of an operation: `0` on
/// success, the error's value otherwise.
pub open spec fn spec_psa_status(r: Result<(), StatusCode>) -> int {
    match r {
        Ok(()) => 0,
        Err(e) => spec_status_value(e),
    }
}

/// Converts the outcome of an operation into its PSA status word.
pub fn into_psa_status(r: Result<(), StatusCode>) -> (s: PsaStatus)
    ensures
        s == spec_psa_status(r),
{
    match r {
        Ok(()) => 0,
        Err(e) => e.value(),
    }
}

} // verus!
