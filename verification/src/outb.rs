//! The ports on which the guest talks to the host, and the reasons for which a virtual
//! CPU stops.

use vstd::prelude::*;

verus! {

/// Port of a log record.
pub const PORT_LOG: u16 = 99;

/// Port of a call of a host function.
pub const PORT_CALL_FUNCTION: u16 = 101;

/// Port on which the guest asks to be stopped.
pub const PORT_ABORT: u16 = 102;

/// What the guest asks for by writing one byte to a port.
#[derive(Clone, Copy, Debug, PartialEq, Eq, Structural)]
pub enum OutBAction {
    Log,
    CallFunction,
    Abort,
}

impl OutBAction {
    /// The port of this action.
    pub open spec fn spec_port(self) -> u16 {
        match self {
            OutBAction::Log => PORT_LOG,
            OutBAction::CallFunction => PORT_CALL_FUNCTION,
            OutBAction::Abort => PORT_ABORT,
        }
    }

    /// The action of a port; other ports have none.
    pub open spec fn spec_from_port(port: u16) -> Option<OutBAction> {
        if port == PORT_LOG {
            Some(OutBAction::Log)
        } else if port == PORT_CALL_FUNCTION {
            Some(OutBAction::CallFunction)
        } else if port == PORT_ABORT {
            Some(OutBAction::Abort)
        } else {
            None
        }
    }

    /// The port of this action.
    #[verifier::when_used_as_spec(spec_port)]
    pub fn port(self) -> (p: u16)
        ensures
            p == self.spec_port(),
    {
        match self {
            OutBAction::Log => PORT_LOG,
            OutBAction::CallFunction => PORT_CALL_FUNCTION,
            OutBAction::Abort => PORT_ABORT,
        }
    }

    /// The action of a port; other ports have none.
    #[verifier::when_used_as_spec(spec_from_port)]
    pub fn from_port(port: u16) -> (a: Option<OutBAction>)
        ensures
            a == OutBAction::spec_from_port(port),
    {
        if port == PORT_LOG {
            Some(OutBAction::Log)
        } else if port == PORT_CALL_FUNCTION {
            Some(OutBAction::CallFunction)
        } else if port == PORT_ABORT {
            Some(OutBAction::Abort)
        } else {
            None
        }
    }
}

/// Each action is found again from its port.
pub proof fn lemma_port_of_action(a: OutBAction)
    ensures
        OutBAction::spec_from_port(a.spec_port()) == Some(a),
{
}

/// Why a virtual CPU came back to the host.
#[allow(inconsistent_fields)]
#[derive(Clone, Copy, Debug, PartialEq, Eq, Structural)]
pub enum ExitReason {
    /// The guest wrote one byte to a port.
    IoOut { port: u16, data: u8 },
    /// The guest halted.
    Halt,
    /// The guest read from an address that is not mapped.
    MmioRead { addr: u64, size: u32 },
    /// The guest wrote to an address that is not mapped.
    MmioWrite { addr: u64, size: u32, data: u64 },
    /// The hypervisor failed.
    InternalError { subcode: u32 },
    /// The host asked for the interruption.
    Cancelled,
}

} // verus!
