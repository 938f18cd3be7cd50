use vstd::prelude::*;

verus! {

/// The numeric status a completed request reports to the platform,
/// in the platform's own encoding (success is zero, failures carry
/// the high bit).
pub const STATUS_SUCCESS: u32 = 0;
pub const STATUS_INVALID_PARAMETER: u32 = 0xC000000D;
pub const STATUS_INVALID_DEVICE_REQUEST: u32 = 0xC0000010;
pub const STATUS_BUFFER_TOO_SMALL: u32 = 0xC0000023;
pub const STATUS_INSUFFICIENT_RESOURCES: u32 = 0xC000009A;
pub const STATUS_INVALID_BUFFER_SIZE: u32 = 0xC0000206;

/// Why a request failed. Every failure a handler can report is one of
/// these; `TargetNotFound` carries the platform's own lookup status
/// verbatim, as the handler propagates it unchanged.
#[derive(Clone, Copy, PartialEq, Eq, Structural, Debug)]
pub enum DriverError {
    /// A zero-length read: the request asks for no work at all.
    InvalidLength,
    /// A malformed or out-of-range input, such as a priority outside
    /// the legal band.
    InvalidParameter,
    /// The declared buffer length is below the operation's minimum.
    BufferTooSmall,
    /// Mapping the caller's buffer into kernel space failed.
    ResourceExhausted,
    /// No live execution context has the requested identifier; the
    /// field is the platform's lookup status, passed through verbatim.
    TargetNotFound { code: u32 },
    /// An unrecognized control code or operation.
    UnsupportedRequest,
}

/// The outcome a handler reports: success, or one of the failures.
#[derive(Clone, Copy, PartialEq, Eq, Structural, Debug)]
pub enum RequestStatus {
    Success,
    Failed(DriverError),
}

/// What the completion reporter hands back to the caller: a status and
/// the number of bytes transferred. Every request is completed exactly
/// once with one of these.
#[derive(Clone, Copy, PartialEq, Eq, Structural, Debug)]
pub struct Completion {
    pub status: RequestStatus,
    pub bytes_transferred: u32,
}

/// The numeric code that a status is reported as.
pub open spec fn status_code_spec(s: RequestStatus) -> u32 {
    match s {
        RequestStatus::Success => STATUS_SUCCESS,
        RequestStatus::Failed(e) => match e {
            DriverError::InvalidLength => STATUS_INVALID_BUFFER_SIZE,
            DriverError::InvalidParameter => STATUS_INVALID_PARAMETER,
            DriverError::BufferTooSmall => STATUS_BUFFER_TOO_SMALL,
            DriverError::ResourceExhausted => STATUS_INSUFFICIENT_RESOURCES,
            DriverError::TargetNotFound { code } => code,
            DriverError::UnsupportedRequest => STATUS_INVALID_DEVICE_REQUEST,
        },
    }
}

impl Completion {
    /// A successful completion transferring `bytes` bytes.
    pub open spec fn success_spec(bytes: u32) -> Completion {
        Completion { status: RequestStatus::Success, bytes_transferred: bytes }
    }

    /// A failed completion: no bytes are ever reported with a failure.
    pub open spec fn failure_spec(err: DriverError) -> Completion {
        Completion { status: RequestStatus::Failed(err), bytes_transferred: 0 }
    }

    pub open spec fn is_success(self) -> bool {
        self.status is Success
    }

    pub fn success(bytes: u32) -> (c: Completion)
        ensures
            c == Completion::success_spec(bytes),
    {
        Completion { status: RequestStatus::Success, bytes_transferred: bytes }
    }

    pub fn failure(err: DriverError) -> (c: Completion)
        ensures
            c == Completion::failure_spec(err),
    {
        Completion { status: RequestStatus::Failed(err), bytes_transferred: 0 }
    }

    /// The status code this completion reports to the caller.
    pub fn status_code(&self) -> (code: u32)
        ensures
            code == status_code_spec(self.status),
    {
        match self.status {
            RequestStatus::Success => STATUS_SUCCESS,
            RequestStatus::Failed(e) => match e {
                DriverError::InvalidLength => STATUS_INVALID_BUFFER_SIZE,
                DriverError::InvalidParameter => STATUS_INVALID_PARAMETER,
                DriverError::BufferTooSmall => STATUS_BUFFER_TOO_SMALL,
                DriverError::ResourceExhausted => STATUS_INSUFFICIENT_RESOURCES,
                DriverError::TargetNotFound { code } => code,
                DriverError::UnsupportedRequest => STATUS_INVALID_DEVICE_REQUEST,
            },
        }
    }
}

} // verus!
