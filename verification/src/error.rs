//! What can go wrong on the host side.

use crate::types::{ErrorCode, ReturnType};
use crate::wire::call::WireError;
use vstd::prelude::*;

verus! {

/// Failures that the host side reports to its caller.
#[allow(inconsistent_fields)]
#[derive(Debug, PartialEq, Eq)]
pub enum HyperlightError {
    /// The hypervisor cannot be reached on this machine.
    HypervisorUnavailable,
    /// The hypervisor gave up on the partition.
    HypervisorInternalError { subcode: u32 },
    /// The guest asked to be stopped.
    GuestAborted { code: u8, message: Option<String> },
    /// The guest ran over the end of its stack.
    StackOverflow,
    /// The guest touched memory that is not mapped.
    GuestMemoryFault { addr: u64 },
    /// The host interrupted the guest.
    GuestCancelled,
    /// The guest reported a failure of its own.
    GuestError { code: ErrorCode, message: String },
    /// A call out of the guest failed on the host, which left `host_error` for it.
    OutBError { code: ErrorCode, host_error: String },
    /// A host function of that name is registered already.
    DuplicateHostFunction { name: String },
    /// A value has another type than the one that was declared for it.
    ReturnValueConversionFailure { expected: ReturnType, actual: ReturnType },
    /// Bytes that should be a frame are none.
    InvalidEncoding,
    /// A frame does not fit the buffer it is meant for.
    FrameTooLarge,
    /// The sandbox is running a guest call already.
    GuestCallAlreadyInProgress,
    /// No guest call is being run.
    NoGuestCallInProgress,
    /// An earlier failure left the sandbox unusable until it is reset.
    SandboxPoisoned,
    /// The memory handed in has not the size of the layout.
    MemorySizeMismatch,
    /// There is no snapshot to go back to.
    NoSnapshot,
    /// The guest wrote to a port before it was ready to take calls.
    UnexpectedOutB { port: u16, data: u8 },
}

/// Mathematical content of a [`HyperlightError`].
#[allow(inconsistent_fields)]
pub enum ErrorData {
    HypervisorUnavailable,
    HypervisorInternalError { subcode: u32 },
    GuestAborted { code: u8, message: Option<Seq<char>> },
    StackOverflow,
    GuestMemoryFault { addr: u64 },
    GuestCancelled,
    GuestError { code: ErrorCode, message: Seq<char> },
    OutBError { code: ErrorCode, host_error: Seq<char> },
    DuplicateHostFunction { name: Seq<char> },
    ReturnValueConversionFailure { expected: ReturnType, actual: ReturnType },
    InvalidEncoding,
    FrameTooLarge,
    GuestCallAlreadyInProgress,
    NoGuestCallInProgress,
    SandboxPoisoned,
    MemorySizeMismatch,
    NoSnapshot,
    UnexpectedOutB { port: u16, data: u8 },
}

impl View for HyperlightError {
    type V = ErrorData;

    open spec fn view(&self) -> ErrorData {
        match self {
            HyperlightError::HypervisorUnavailable => ErrorData::HypervisorUnavailable,
            HyperlightError::HypervisorInternalError { subcode } => {
                ErrorData::HypervisorInternalError { subcode: *subcode }
            },
            HyperlightError::GuestAborted { code, message } => ErrorData::GuestAborted {
                code: *code,
                message: match message {
                    Some(m) => Some(m@),
                    None => None,
                },
            },
            HyperlightError::StackOverflow => ErrorData::StackOverflow,
            HyperlightError::GuestMemoryFault { addr } => ErrorData::GuestMemoryFault {
                addr: *addr,
            },
            HyperlightError::GuestCancelled => ErrorData::GuestCancelled,
            HyperlightError::GuestError { code, message } => ErrorData::GuestError {
                code: *code,
                message: message@,
            },
            HyperlightError::OutBError { code, host_error } => ErrorData::OutBError {
                code: *code,
                host_error: host_error@,
            },
            HyperlightError::DuplicateHostFunction { name } => ErrorData::DuplicateHostFunction {
                name: name@,
            },
            HyperlightError::ReturnValueConversionFailure { expected, actual } => {
                ErrorData::ReturnValueConversionFailure { expected: *expected, actual: *actual }
            },
            HyperlightError::InvalidEncoding => ErrorData::InvalidEncoding,
            HyperlightError::FrameTooLarge => ErrorData::FrameTooLarge,
            HyperlightError::GuestCallAlreadyInProgress => ErrorData::GuestCallAlreadyInProgress,
            HyperlightError::NoGuestCallInProgress => ErrorData::NoGuestCallInProgress,
            HyperlightError::SandboxPoisoned => ErrorData::SandboxPoisoned,
            HyperlightError::MemorySizeMismatch => ErrorData::MemorySizeMismatch,
            HyperlightError::NoSnapshot => ErrorData::NoSnapshot,
            HyperlightError::UnexpectedOutB { port, data } => ErrorData::UnexpectedOutB {
                port: *port,
                data: *data,
            },
        }
    }
}

/// The host-side failure that stands for a failure of the wire format.
pub open spec fn wire_error_data(e: WireError) -> ErrorData {
    match e {
        WireError::InvalidEncoding => ErrorData::InvalidEncoding,
        WireError::FrameTooLarge => ErrorData::FrameTooLarge,
    }
}

impl HyperlightError {
    /// The host-side failure that stands for a failure of the wire format.
    pub fn from_wire(e: WireError) -> (r: HyperlightError)
        ensures
            r@ == wire_error_data(e),
    {
        match e {
            WireError::InvalidEncoding => HyperlightError::InvalidEncoding,
            WireError::FrameTooLarge => HyperlightError::FrameTooLarge,
        }
    }
}

} // verus!
