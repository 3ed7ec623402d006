//! Status codes of the encoder core and their classification.
//!
//! Every call across the boundary answers with one 32-bit status. The codes form
//! a closed set; `ErrorNone` is the only one that means success. Two further
//! codes, `NoErrorEmptyQueue` and `NoErrorFifoShutdown`, are ordinary outcomes of
//! polling for output and end a drain loop without being faults.

use vstd::prelude::*;

verus! {

/// Outcome of a call into the encoder core.
#[derive(Debug, Copy, Clone, Hash, PartialEq, Eq, Structural)]
pub enum ErrorType {
    ErrorNone,
    DecUnsupportedBitstream,
    DecNoOutputPicture,
    DecDecodingError,
    CorruptFrame,
    ErrorInsufficientResources,
    ErrorUndefined,
    ErrorInvalidComponent,
    ErrorBadParameter,
    ErrorDestroyThreadFailed,
    ErrorSemaphoreUnresponsive,
    ErrorDestroySemaphoreFailed,
    ErrorCreateMutexFailed,
    ErrorMutexUnresponsive,
    ErrorDestroyMutexFailed,
    NoErrorEmptyQueue,
    NoErrorFifoShutdown,
    ErrorMax,
}

/// The families into which the status codes fall.
#[derive(Debug, Copy, Clone, Hash, PartialEq, Eq, Structural)]
pub enum StatusClass {
    /// The call did what was asked.
    Success,
    /// The caller passed something the core refuses: a bad parameter or a
    /// component that is not valid.
    Usage,
    /// The core ran out of memory or failed to create, use or destroy a
    /// thread, mutex or semaphore.
    Resource,
    /// Nothing to hand out right now, or the output queue has shut down. Both
    /// end a drain loop; neither is a fault.
    Termination,
    /// Codes that only a decoder reports.
    DecoderOnly,
    /// `ErrorUndefined` and the sentinel `ErrorMax`, which belong to no family.
    Unclassified,
}

/// The signed number that has the same 32 bits as the unsigned `pattern`.
pub open spec fn signed(pattern: int) -> int {
    if pattern >= 0x8000_0000 {
        pattern - 0x1_0000_0000
    } else {
        pattern
    }
}

impl ErrorType {
    /// The number the core uses for this status, as a signed 32-bit value. The
    /// codes are listed by their bit patterns.
    pub open spec fn spec_code(self) -> int {
        match self {
            ErrorType::ErrorNone => 0,
            ErrorType::DecUnsupportedBitstream => 0x4000_1000,
            ErrorType::DecNoOutputPicture => 0x4000_1004,
            ErrorType::DecDecodingError => 0x4000_1008,
            ErrorType::CorruptFrame => 0x4000_100C,
            ErrorType::ErrorInsufficientResources => signed(0x8000_1000),
            ErrorType::ErrorUndefined => signed(0x8000_1001),
            ErrorType::ErrorInvalidComponent => signed(0x8000_1004),
            ErrorType::ErrorBadParameter => signed(0x8000_1005),
            ErrorType::ErrorDestroyThreadFailed => signed(0x8000_2012),
            ErrorType::ErrorSemaphoreUnresponsive => signed(0x8000_2021),
            ErrorType::ErrorDestroySemaphoreFailed => signed(0x8000_2022),
            ErrorType::ErrorCreateMutexFailed => signed(0x8000_2030),
            ErrorType::ErrorMutexUnresponsive => signed(0x8000_2031),
            ErrorType::ErrorDestroyMutexFailed => signed(0x8000_2032),
            ErrorType::NoErrorEmptyQueue => signed(0x8000_2033),
            ErrorType::NoErrorFifoShutdown => signed(0x8000_2034),
            ErrorType::ErrorMax => 0x7FFF_FFFF,
        }
    }

    /// The family a status belongs to.
    pub open spec fn spec_class(self) -> StatusClass {
        match self {
            ErrorType::ErrorNone => StatusClass::Success,
            ErrorType::ErrorBadParameter | ErrorType::ErrorInvalidComponent => StatusClass::Usage,
            ErrorType::ErrorInsufficientResources
            | ErrorType::ErrorDestroyThreadFailed
            | ErrorType::ErrorSemaphoreUnresponsive
            | ErrorType::ErrorDestroySemaphoreFailed
            | ErrorType::ErrorCreateMutexFailed
            | ErrorType::ErrorMutexUnresponsive
            | ErrorType::ErrorDestroyMutexFailed => StatusClass::Resource,
            ErrorType::NoErrorEmptyQueue | ErrorType::NoErrorFifoShutdown => {
                StatusClass::Termination
            },
            ErrorType::DecUnsupportedBitstream
            | ErrorType::DecNoOutputPicture
            | ErrorType::DecDecodingError
            | ErrorType::CorruptFrame => StatusClass::DecoderOnly,
            ErrorType::ErrorUndefined | ErrorType::ErrorMax => StatusClass::Unclassified,
        }
    }

    /// What a caller gets for a status: `Ok` for success, the status itself as
    /// the error for everything else.
    pub open spec fn spec_into_result(self) -> Result<(), ErrorType> {
        if self == ErrorType::ErrorNone {
            Ok(())
        } else {
            Err(self)
        }
    }

    /// The signed 32-bit number of this status.
    pub fn code(self) -> (code: i32)
        ensures
            code == self.spec_code(),
    {
        match self {
            ErrorType::ErrorNone => 0,
            ErrorType::DecUnsupportedBitstream => 0x4000_1000,
            ErrorType::DecNoOutputPicture => 0x4000_1004,
            ErrorType::DecDecodingError => 0x4000_1008,
            ErrorType::CorruptFrame => 0x4000_100C,
            ErrorType::ErrorInsufficientResources => -2147479552,
            ErrorType::ErrorUndefined => -2147479551,
            ErrorType::ErrorInvalidComponent => -2147479548,
            ErrorType::ErrorBadParameter => -2147479547,
            ErrorType::ErrorDestroyThreadFailed => -2147475438,
            ErrorType::ErrorSemaphoreUnresponsive => -2147475423,
            ErrorType::ErrorDestroySemaphoreFailed => -2147475422,
            ErrorType::ErrorCreateMutexFailed => -2147475408,
            ErrorType::ErrorMutexUnresponsive => -2147475407,
            ErrorType::ErrorDestroyMutexFailed => -2147475406,
            ErrorType::NoErrorEmptyQueue => -2147475405,
            ErrorType::NoErrorFifoShutdown => -2147475404,
            ErrorType::ErrorMax => 0x7FFF_FFFF,
        }
    }

    /// The status with the given number, or `None` where the number is not one
    /// of the codes.
    pub fn from_code(code: i32) -> (status: Option<ErrorType>)
        ensures
            match status {
                Some(s) => s.spec_code() == code,
                None => forall|s: ErrorType| s.spec_code() != code,
            },
    {
        match code {
            0 => Some(ErrorType::ErrorNone),
            0x4000_1000 => Some(ErrorType::DecUnsupportedBitstream),
            0x4000_1004 => Some(ErrorType::DecNoOutputPicture),
            0x4000_1008 => Some(ErrorType::DecDecodingError),
            0x4000_100C => Some(ErrorType::CorruptFrame),
            -2147479552 => Some(ErrorType::ErrorInsufficientResources),
            -2147479551 => Some(ErrorType::ErrorUndefined),
            -2147479548 => Some(ErrorType::ErrorInvalidComponent),
            -2147479547 => Some(ErrorType::ErrorBadParameter),
            -2147475438 => Some(ErrorType::ErrorDestroyThreadFailed),
            -2147475423 => Some(ErrorType::ErrorSemaphoreUnresponsive),
            -2147475422 => Some(ErrorType::ErrorDestroySemaphoreFailed),
            -2147475408 => Some(ErrorType::ErrorCreateMutexFailed),
            -2147475407 => Some(ErrorType::ErrorMutexUnresponsive),
            -2147475406 => Some(ErrorType::ErrorDestroyMutexFailed),
            -2147475405 => Some(ErrorType::NoErrorEmptyQueue),
            -2147475404 => Some(ErrorType::NoErrorFifoShutdown),
            0x7FFF_FFFF => Some(ErrorType::ErrorMax),
            _ => None,
        }
    }

    /// The family this status belongs to.
    pub fn class(self) -> (class: StatusClass)
        ensures
            class == self.spec_class(),
    {
        match self {
            ErrorType::ErrorNone => StatusClass::Success,
            ErrorType::ErrorBadParameter | ErrorType::ErrorInvalidComponent => StatusClass::Usage,
            ErrorType::ErrorInsufficientResources
            | ErrorType::ErrorDestroyThreadFailed
            | ErrorType::ErrorSemaphoreUnresponsive
            | ErrorType::ErrorDestroySemaphoreFailed
            | ErrorType::ErrorCreateMutexFailed
            | ErrorType::ErrorMutexUnresponsive
            | ErrorType::ErrorDestroyMutexFailed => StatusClass::Resource,
            ErrorType::NoErrorEmptyQueue | ErrorType::NoErrorFifoShutdown => {
                StatusClass::Termination
            },
            ErrorType::DecUnsupportedBitstream
            | ErrorType::DecNoOutputPicture
            | ErrorType::DecDecodingError
            | ErrorType::CorruptFrame => StatusClass::DecoderOnly,
            ErrorType::ErrorUndefined | ErrorType::ErrorMax => StatusClass::Unclassified,
        }
    }

    /// Whether this status ends a drain loop without being a fault: the output
    /// queue is empty, or it has shut down.
    pub fn is_termination_signal(self) -> (yes: bool)
        ensures
            yes <==> self.spec_class() == StatusClass::Termination,
            yes <==> (self == ErrorType::NoErrorEmptyQueue || self
                == ErrorType::NoErrorFifoShutdown),
    {
        match self {
            ErrorType::NoErrorEmptyQueue | ErrorType::NoErrorFifoShutdown => true,
            _ => false,
        }
    }

    /// Turns a status into the result handed to the caller: success becomes
    /// `Ok`, every other status is kept as the error, none is merged with
    /// another.
    pub fn into_result(self) -> (result: Result<(), ErrorType>)
        ensures
            result == self.spec_into_result(),
            result is Ok <==> self == ErrorType::ErrorNone,
            result is Err ==> result == Err::<(), ErrorType>(self),
    {
        match self {
            ErrorType::ErrorNone => Ok(()),
            other => Err(other),
        }
    }
}

/// Distinct statuses have distinct numbers, so a number read back with
/// `from_code` names the status that `code` wrote.
pub proof fn lemma_code_injective(a: ErrorType, b: ErrorType)
    ensures
        a.spec_code() == b.spec_code() <==> a == b,
{
}

/// Every status number fits a signed 32-bit integer.
pub proof fn lemma_code_in_range(s: ErrorType)
    ensures
        i32::MIN <= s.spec_code() <= i32::MAX,
{
}

/// Success is the only status in the `Success` family, and the only one that
/// `into_result` maps to `Ok`.
pub proof fn lemma_success_unique(s: ErrorType)
    ensures
        s.spec_class() == StatusClass::Success <==> s == ErrorType::ErrorNone,
        s.spec_into_result() is Ok <==> s == ErrorType::ErrorNone,
        s != ErrorType::ErrorNone ==> s.spec_into_result() == Err::<(), ErrorType>(s),
{
}

} // verus!
