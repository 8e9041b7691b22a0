//! The sandbox: guest memory, the host functions, and the state of the call in flight.

use crate::error::{ErrorData, HyperlightError};
use crate::hypervisor::regs::{start_regs, Regs};
use crate::mem::layout::{Buffer, GuestMemoryLayout, PEB_SIZE, STACK_COOKIE_LEN};
use crate::mem::mgr::{
    abort_message_of, fresh_bytes, guest_error_of, host_call_of, lemma_peb_kept,
    lemma_splice_elsewhere, log_record_of, reported_error_of, return_value_of, splice,
    SandboxMemoryManager,
};
use crate::mem::peb::{layout_of_peb, peb_record};
use crate::outb::{ExitReason, OutBAction};
use crate::registry::{
    definition_of, registered, validation, DefinitionData, FunctionDefinition, FunctionRegistry,
    HostFunction,
};
use crate::types::{
    CallData, ErrorCode, FunctionCall, FunctionCallType, GuestError, GuestErrorData,
    GuestLogData, LogData, ParameterData, ParameterValue, ReturnData, ReturnType, ReturnValue,
};
use crate::wire::call::{
    call_frame, call_frame_fits, call_of_frame, error_frame, error_frame_fits, frame,
    frame_payload, return_frame, return_frame_fits, WireError,
};
use vstd::prelude::*;

verus! {

/// A sandbox whose guest has not run yet. Host functions are registered here, and
/// nowhere later.
#[derive(Debug)]
pub struct UninitializedSandbox<H> {
    host_functions: FunctionRegistry<H>,
    mem_mgr: SandboxMemoryManager,
    stack_guard: [u8; STACK_COOKIE_LEN],
}

/// What a sandbox keeps of the calls it has run and of the call in flight.
#[derive(Clone, Copy, Debug, PartialEq, Eq, Structural)]
pub struct CallState {
    /// Whether a guest call is in flight.
    pub executing_guest_call: bool,
    /// Whether memory has to go back to the snapshot before the next call.
    pub needs_state_reset: bool,
    /// How many guest calls were begun.
    pub num_runs: i32,
    /// Whether an earlier failure left the sandbox unusable.
    pub poisoned: bool,
    /// Whether the guest has written to a port that stands for nothing.
    pub unknown_port_seen: bool,
    /// The type that the caller of the guest call in flight expects back.
    pub expected_return_type: ReturnType,
}

/// A sandbox whose guest has run up to its first halt and now takes calls.
#[derive(Debug)]
pub struct Sandbox<H> {
    host_functions: FunctionRegistry<H>,
    mem_mgr: SandboxMemoryManager,
    stack_guard: [u8; STACK_COOKIE_LEN],
    state: CallState,
}

impl<H> UninitializedSandbox<H> {
    /// The registered host functions.
    pub closed spec fn host_funcs(&self) -> FunctionRegistry<H> {
        self.host_functions
    }

    /// Guest memory.
    pub closed spec fn mem_mgr(&self) -> SandboxMemoryManager {
        self.mem_mgr
    }

    /// The cookie that was stamped below the stack.
    pub closed spec fn stack_guard(&self) -> Seq<u8> {
        self.stack_guard@
    }

    /// Registry and memory are well-formed, and no snapshot was taken yet.
    pub open spec fn wf(&self) -> bool {
        &&& self.host_funcs().wf()
        &&& self.mem_mgr().wf()
        &&& self.stack_guard().len() == STACK_COOKIE_LEN
        &&& self.mem_mgr().snapshot() is None
    }

    /// Memory for `layout` with the header record written and `stack_guard` stamped
    /// below the stack, and no host functions; none if the layout is not well-formed.
    pub fn new(layout: GuestMemoryLayout, stack_guard: [u8; STACK_COOKIE_LEN]) -> (r: Option<Self>)
        ensures
            r is Some <==> layout.wf(),
            r matches Some(s) ==> {
                &&& s.wf()
                &&& s.mem_mgr().layout() == layout
                &&& s.stack_guard() == stack_guard@
                &&& s.mem_mgr().stack_cookie() == stack_guard@
                &&& s.mem_mgr().bytes() == initial_bytes(layout, stack_guard@)
                &&& layout_of_peb(s.mem_mgr().bytes()) == Some((0u64, layout))
                &&& s.host_funcs().definitions().len() == 0
            },
    {
        let mut mem_mgr = SandboxMemoryManager::new(layout)?;
        mem_mgr.write_peb(0);
        let ghost mid = mem_mgr;
        mem_mgr.set_stack_guard(&stack_guard);
        proof {
            lemma_splice_elsewhere(
                mid.bytes(),
                layout.stack_cookie_addr as int,
                stack_guard@,
                0,
                PEB_SIZE as int,
            );
            lemma_peb_kept(mid.bytes(), mem_mgr.bytes());
        }
        Some(UninitializedSandbox { host_functions: FunctionRegistry::new(), mem_mgr, stack_guard })
    }

    /// The general-purpose registers from which the guest starts, when its memory is
    /// mapped at the guest address `guest_base` and its entry point lies
    /// `entrypoint_offset` bytes into its code; none if the entry point lies outside the
    /// code or an address leaves the address space.
    pub fn initial_registers(&self, guest_base: u64, entrypoint_offset: u64) -> (r: Option<Regs>)
        requires
            self.wf(),
        ensures
            r == start_registers(self.mem_mgr().layout(), guest_base, entrypoint_offset),
    {
        let layout = self.mem_mgr.get_layout();
        if entrypoint_offset >= layout.code_size as u64 {
            return None;
        }
        if layout.total_size as u64 > u64::MAX - guest_base {
            return None;
        }
        Some(
            Regs::initial(
                guest_base + layout.code_addr as u64 + entrypoint_offset,
                guest_base + layout.stack_base as u64,
            ),
        )
    }

    /// Copies the guest's code to where it runs from. Code that does not fit is
    /// refused, and memory stays as it is.
    pub fn load_guest_image(&mut self, code: &[u8]) -> (r: Result<(), HyperlightError>)
        requires
            old(self).wf(),
        ensures
            final(self).wf(),
            final(self).host_funcs() == old(self).host_funcs(),
            final(self).stack_guard() == old(self).stack_guard(),
            final(self).mem_mgr().layout() == old(self).mem_mgr().layout(),
            final(self).mem_mgr().same_buffers(&old(self).mem_mgr()),
            layout_of_peb(final(self).mem_mgr().bytes()) == layout_of_peb(
                old(self).mem_mgr().bytes(),
            ),
            code@.len() <= old(self).mem_mgr().layout().code_size ==> {
                &&& r is Ok
                &&& final(self).mem_mgr().bytes() == splice(
                    old(self).mem_mgr().bytes(),
                    old(self).mem_mgr().layout().code_addr as int,
                    code@,
                )
            },
            code@.len() > old(self).mem_mgr().layout().code_size ==> verdict(r) == Err::<
                (),
                ErrorData,
            >(ErrorData::MemorySizeMismatch) && final(self).mem_mgr().bytes() == old(
                self,
            ).mem_mgr().bytes(),
    {
        if self.mem_mgr.load_code(code) {
            Ok(())
        } else {
            Err(HyperlightError::MemorySizeMismatch)
        }
    }

    /// Adds a host function, unless one of that name is registered already.
    pub fn register_host_function(&mut self, definition: FunctionDefinition, handler: H) -> (r:
        Result<(), HyperlightError>)
        requires
            old(self).wf(),
        ensures
            final(self).wf(),
            final(self).mem_mgr() == old(self).mem_mgr(),
            final(self).stack_guard() == old(self).stack_guard(),
            registered(old(self).host_funcs().definitions(), definition@.function_name) ==> {
                &&& r matches Err(e) && e@ == ErrorData::DuplicateHostFunction {
                    name: definition@.function_name,
                }
                &&& final(self).host_funcs().definitions() == old(self).host_funcs().definitions()
                &&& final(self).host_funcs().handlers() == old(self).host_funcs().handlers()
            },
            !registered(old(self).host_funcs().definitions(), definition@.function_name) ==> {
                &&& r is Ok
                &&& final(self).host_funcs().definitions() == old(
                    self,
                ).host_funcs().definitions().push(definition@)
                &&& final(self).host_funcs().handlers() == old(self).host_funcs().handlers().push(
                    handler,
                )
            },
    {
        self.host_functions.register(definition, handler)
    }

    /// The registered host functions.
    pub fn get_host_funcs(&self) -> (m: &FunctionRegistry<H>)
        ensures
            *m == self.host_funcs(),
    {
        &self.host_functions
    }

    /// Guest memory.
    pub fn get_mem_mgr(&self) -> (m: &SandboxMemoryManager)
        ensures
            *m == self.mem_mgr(),
    {
        &self.mem_mgr
    }

    /// The cookie that was stamped below the stack.
    pub fn get_stack_cookie(&self) -> (c: &[u8; STACK_COOKIE_LEN])
        ensures
            c@ == self.stack_guard(),
    {
        &self.stack_guard
    }
}

/// Memory for `layout` as a new sandbox holds it: both shared buffers empty, the header
/// record at the start, `stack_guard` below the stack, every other byte zero.
pub open spec fn initial_bytes(layout: GuestMemoryLayout, stack_guard: Seq<u8>) -> Seq<u8> {
    splice(
        splice(fresh_bytes(layout), 0, peb_record(layout, 0)),
        layout.stack_cookie_addr as int,
        stack_guard,
    )
}

/// The registers from which a guest with `layout` starts: it runs from its entry point
/// on a stack that grows down from the stack's base.
pub open spec fn start_registers(layout: GuestMemoryLayout, guest_base: u64, entrypoint_offset: u64)
    -> Option<Regs> {
    if entrypoint_offset < layout.code_size && guest_base + layout.total_size <= u64::MAX {
        Some(
            start_regs(
                (guest_base + layout.code_addr + entrypoint_offset) as u64,
                (guest_base + layout.stack_base) as u64,
            ),
        )
    } else {
        None
    }
}

/// What `check_for_guest_error` makes of what the guest left in shared output and of
/// what the host left in shared input.
pub open spec fn guest_error_verdict(output: Seq<u8>, input: Seq<u8>) -> Result<(), ErrorData> {
    match guest_error_of(output) {
        Err(e) => Err(e),
        Ok(ge) => match ge.code {
            ErrorCode::NoError => Ok(()),
            ErrorCode::OutbError => match reported_error_of(input) {
                Err(e) => Err(e),
                Ok(Some(he)) => Err(ErrorData::OutBError { code: ge.code, host_error: he.message }),
                Ok(None) => Ok(()),
            },
            ErrorCode::StackOverflow => Err(ErrorData::StackOverflow),
            _ => Err(ErrorData::GuestError { code: ge.code, message: ge.message }),
        },
    }
}

/// The outcome of an operation without its value: success, or the failure's content.
pub open spec fn verdict<T>(r: Result<T, HyperlightError>) -> Result<(), ErrorData> {
    match r {
        Ok(_) => Ok(()),
        Err(e) => Err(e@),
    }
}

impl<H> Sandbox<H> {
    /// The registered host functions.
    pub closed spec fn host_funcs(&self) -> FunctionRegistry<H> {
        self.host_functions
    }

    /// Guest memory.
    pub closed spec fn mem_mgr(&self) -> SandboxMemoryManager {
        self.mem_mgr
    }

    /// The cookie that was stamped below the stack.
    pub closed spec fn stack_guard(&self) -> Seq<u8> {
        self.stack_guard@
    }

    /// What the sandbox keeps of its calls.
    pub closed spec fn state(&self) -> CallState {
        self.state
    }

    /// Registry and memory are well-formed, and a snapshot, where there is one, holds the
    /// cookie below the stack.
    pub open spec fn wf(&self) -> bool {
        &&& self.host_funcs().wf()
        &&& self.mem_mgr().wf()
        &&& self.stack_guard().len() == STACK_COOKIE_LEN
        &&& self.mem_mgr().snapshot() matches Some(s) ==> s.subrange(
            self.mem_mgr().layout().stack_cookie_addr as int,
            self.mem_mgr().layout().stack_cookie_addr + STACK_COOKIE_LEN,
        ) == self.stack_guard()
    }

    /// Whether the bytes below the stack are the cookie that was stamped there.
    pub open spec fn cookie_intact(&self) -> bool {
        self.mem_mgr().stack_cookie() == self.stack_guard()
    }

    /// The same registry, cookie, layout and snapshot.
    pub open spec fn same_setup(&self, other: &Self) -> bool {
        &&& self.host_funcs() == other.host_funcs()
        &&& self.stack_guard() == other.stack_guard()
        &&& self.mem_mgr().layout() == other.mem_mgr().layout()
        &&& self.mem_mgr().snapshot() == other.mem_mgr().snapshot()
    }

    /// Takes over registry, memory and cookie; no call is in flight and none has run.
    pub fn from(val: UninitializedSandbox<H>) -> (s: Self)
        requires
            val.wf(),
        ensures
            s.wf(),
            s.host_funcs() == val.host_funcs(),
            s.mem_mgr() == val.mem_mgr(),
            s.stack_guard() == val.stack_guard(),
            s.state() == initial_state(),
    {
        Sandbox {
            host_functions: val.host_functions,
            mem_mgr: val.mem_mgr,
            stack_guard: val.stack_guard,
            state: CallState {
                executing_guest_call: false,
                needs_state_reset: false,
                num_runs: 0,
                poisoned: false,
                unknown_port_seen: false,
                expected_return_type: ReturnType::Void,
            },
        }
    }

    /// The registered host functions.
    pub fn get_host_funcs(&self) -> (m: &FunctionRegistry<H>)
        ensures
            *m == self.host_funcs(),
    {
        &self.host_functions
    }

    /// Whether a guest call is in flight.
    pub fn get_executing_guest_call(&self) -> (b: bool)
        ensures
            b == self.state().executing_guest_call,
    {
        self.state.executing_guest_call
    }

    /// The token of the guest call in flight, to set it.
    pub fn get_executing_guest_call_mut(&mut self) -> (b: &mut bool)
        ensures
            *b == old(self).state().executing_guest_call,
            final(self).state() == (CallState {
                executing_guest_call: *final(b),
                ..old(self).state()
            }),
            final(self).mem_mgr() == old(self).mem_mgr(),
            final(self).same_setup(old(self)),
    {
        &mut self.state.executing_guest_call
    }

    /// Counts one more run; the count stays at its greatest value once it is there.
    pub fn increase_num_runs(&mut self)
        ensures
            final(self).state() == (CallState {
                num_runs: if old(self).state().num_runs < i32::MAX {
                    (old(self).state().num_runs + 1) as i32
                } else {
                    i32::MAX
                },
                ..old(self).state()
            }),
            final(self).mem_mgr() == old(self).mem_mgr(),
            final(self).same_setup(old(self)),
    {
        if self.state.num_runs < i32::MAX {
            self.state.num_runs += 1;
        }
    }

    /// How many guest calls were begun.
    pub fn get_num_runs(&self) -> (n: i32)
        ensures
            n == self.state().num_runs,
    {
        self.state.num_runs
    }

    /// Whether memory has to go back to the snapshot before the next call.
    pub fn needs_state_reset(&self) -> (b: bool)
        ensures
            b == self.state().needs_state_reset,
    {
        self.state.needs_state_reset
    }

    /// Says whether memory has to go back to the snapshot before the next call.
    pub fn set_needs_state_reset(&mut self, val: bool)
        ensures
            final(self).state() == (CallState { needs_state_reset: val, ..old(self).state() }),
            final(self).mem_mgr() == old(self).mem_mgr(),
            final(self).same_setup(old(self)),
    {
        self.state.needs_state_reset = val;
    }

    /// Whether an earlier failure left the sandbox unusable until it is reset.
    pub fn is_poisoned(&self) -> (b: bool)
        ensures
            b == self.state().poisoned,
    {
        self.state.poisoned
    }

    /// Guest memory.
    pub fn get_mem_mgr(&self) -> (m: &SandboxMemoryManager)
        ensures
            *m == self.mem_mgr(),
    {
        &self.mem_mgr
    }

    /// Guest memory, to write to it.
    pub fn get_mem_mgr_mut(&mut self) -> (m: &mut SandboxMemoryManager)
        ensures
            *m == old(self).mem_mgr(),
            final(self).mem_mgr() == *final(m),
            final(self).state() == old(self).state(),
            final(self).host_funcs() == old(self).host_funcs(),
            final(self).stack_guard() == old(self).stack_guard(),
    {
        &mut self.mem_mgr
    }

    /// The cookie that was stamped below the stack.
    pub fn get_stack_cookie(&self) -> (c: &[u8; STACK_COOKIE_LEN])
        ensures
            c@ == self.stack_guard(),
    {
        &self.stack_guard
    }

    /// Looks for an error that the guest left in shared output. A failed host function,
    /// of which the guest reports `OutbError`, counts if the host's error still stands in
    /// shared input; a reported stack overflow is a stack overflow; every other code but
    /// `NoError` is the guest's error.
    pub fn check_for_guest_error(&self) -> (r: Result<(), HyperlightError>)
        requires
            self.wf(),
        ensures
            verdict(r) == guest_error_verdict(
                self.mem_mgr().shared_output(),
                self.mem_mgr().shared_input(),
            ),
    {
        let guest_err = match self.mem_mgr.get_guest_error() {
            Ok(e) => e,
            Err(e) => return Err(e),
        };
        match guest_err.code {
            ErrorCode::NoError => Ok(()),
            ErrorCode::OutbError => match self.mem_mgr.get_host_error() {
                Ok(Some(host_err)) => Err(
                    HyperlightError::OutBError {
                        code: guest_err.code,
                        host_error: host_err.message,
                    },
                ),
                Ok(None) => Ok(()),
                Err(e) => Err(e),
            },
            ErrorCode::StackOverflow => Err(HyperlightError::StackOverflow),
            _ => Err(
                HyperlightError::GuestError { code: guest_err.code, message: guest_err.message },
            ),
        }
    }
}

// ---------------------------------------------------------------------------
// Answering the guest

/// What the host does after it has dealt with a stop of the virtual CPU.
#[derive(Debug, PartialEq, Eq)]
pub enum ExitAction {
    /// Let the guest run on.
    Resume,
    /// Hand the record to the logger, then let the guest run on.
    ForwardLog(GuestLogData),
    /// The guest wrote to a port that stands for nothing: let it run on, and warn if
    /// this is the first such write.
    IgnoredPort { first: bool },
    /// The guest has halted: the call is over and its result can be fetched.
    Complete,
}

/// Mathematical content of an [`ExitAction`].
pub enum ExitActionData {
    Resume,
    ForwardLog(LogData),
    IgnoredPort { first: bool },
    Complete,
}

impl View for ExitAction {
    type V = ExitActionData;

    open spec fn view(&self) -> ExitActionData {
        match self {
            ExitAction::Resume => ExitActionData::Resume,
            ExitAction::ForwardLog(l) => ExitActionData::ForwardLog(l@),
            ExitAction::IgnoredPort { first } => ExitActionData::IgnoredPort { first: *first },
            ExitAction::Complete => ExitActionData::Complete,
        }
    }
}

/// The outcome of dealing with a stop: the action to take, or the failure's content.
pub open spec fn action_verdict(r: Result<ExitAction, HyperlightError>) -> Result<
    ExitActionData,
    ErrorData,
> {
    match r {
        Ok(a) => Ok(a@),
        Err(e) => Err(e@),
    }
}

/// What a host function handed back, by content.
pub open spec fn handler_outcome(r: Result<ReturnValue, String>) -> Result<ReturnData, Seq<char>> {
    match r {
        Ok(v) => Ok(v@),
        Err(m) => Err(m@),
    }
}

/// An overrun stack outweighs whatever else a turn of the dispatcher found.
pub open spec fn guarded(cookie_intact: bool, v: Result<(), ErrorData>) -> Result<(), ErrorData> {
    if cookie_intact {
        v
    } else {
        Err(ErrorData::StackOverflow)
    }
}

/// Memory and outcome after the host has answered a call with an error: the error goes
/// into shared input if it fits there.
pub open spec fn error_response(m: SandboxMemoryManager, e: GuestErrorData) -> (
    Seq<u8>,
    Result<(), ErrorData>,
) {
    if error_frame_fits(e) && error_frame(e).len() <= m.layout().shared_input_capacity {
        (m.with_shared_input(error_frame(e)), Ok(()))
    } else {
        (m.bytes(), Err(ErrorData::FrameTooLarge))
    }
}

/// The error that the guest finds after a host function has failed with `message`.
pub open spec fn outb_error(message: Seq<char>) -> GuestErrorData {
    GuestErrorData { code: ErrorCode::OutbError, message }
}

/// Memory and outcome after a host function has handed back `res`.
///
/// A value of the declared type goes into shared input if it fits there. A value of
/// another type is a failure of the host function's author and leaves memory as it is.
/// A failure of the host function goes into shared input as an error, if it fits there,
/// and ends the turn as a failure.
pub open spec fn host_call_response(
    m: SandboxMemoryManager,
    declared: ReturnType,
    res: Result<ReturnData, Seq<char>>,
) -> (Seq<u8>, Result<(), ErrorData>) {
    match res {
        Ok(v) => if v.return_type() != declared {
            (
                m.bytes(),
                Err(
                    ErrorData::ReturnValueConversionFailure {
                        expected: declared,
                        actual: v.return_type(),
                    },
                ),
            )
        } else if return_frame_fits(v) && return_frame(v).len()
            <= m.layout().shared_input_capacity {
            (m.with_shared_input(return_frame(v)), Ok(()))
        } else {
            (m.bytes(), Err(ErrorData::FrameTooLarge))
        },
        Err(message) => {
            let e = outb_error(message);
            if error_frame_fits(e) && error_frame(e).len() <= m.layout().shared_input_capacity {
                (
                    m.with_shared_input(error_frame(e)),
                    Err(ErrorData::OutBError { code: ErrorCode::OutbError, host_error: message }),
                )
            } else {
                (m.bytes(), Err(ErrorData::FrameTooLarge))
            }
        },
    }
}

/// What the host does with a call that the guest has left in shared output.
#[derive(Debug, PartialEq, Eq)]
pub enum HostCallDecision {
    /// Run the host function at position `index` on `args`; it is declared to hand
    /// back a value of type `declared`.
    Invoke { index: usize, declared: ReturnType, args: Vec<ParameterValue> },
    /// Run nothing, and answer with this error.
    Reject(GuestError),
}

/// Mathematical content of a [`HostCallDecision`].
pub enum DecisionData {
    Invoke { index: int, declared: ReturnType, args: Seq<ParameterData> },
    Reject(GuestErrorData),
}

impl View for HostCallDecision {
    type V = DecisionData;

    open spec fn view(&self) -> DecisionData {
        match self {
            HostCallDecision::Invoke { index, declared, args } => DecisionData::Invoke {
                index: *index as int,
                declared: *declared,
                args: args.deep_view(),
            },
            HostCallDecision::Reject(e) => DecisionData::Reject(e@),
        }
    }
}

/// What is decided of `call` under the definitions `defs`: a call that the registry
/// accepts runs its host function on the arguments that it brings; any other call runs
/// nothing and is answered with the matching code and the name that was called.
pub open spec fn decision(
    defs: Seq<DefinitionData>,
    call: CallData,
    d: DecisionData,
) -> bool {
    match validation(defs, call) {
        Ok(()) => d matches DecisionData::Invoke { index, declared, args } && {
            &&& 0 <= index < defs.len()
            &&& defs[index] == definition_of(defs, call.function_name)
            &&& declared == defs[index].return_type
            &&& args == call.args()
        },
        Err(code) => d == DecisionData::Reject(
            GuestErrorData { code, message: call.function_name },
        ),
    }
}

impl<H> Sandbox<H> {
    /// Reads the call that the guest has left in shared output and decides what to do
    /// with it.
    pub fn decide_host_call(&self) -> (r: Result<HostCallDecision, HyperlightError>)
        requires
            self.wf(),
        ensures
            match host_call_of(self.mem_mgr().shared_output()) {
                Ok(call) => r matches Ok(d) && decision(
                    self.host_funcs().definitions(),
                    call,
                    d@,
                ),
                Err(e) => r matches Err(x) && x@ == e,
            },
    {
        let call = match self.mem_mgr.get_host_function_call() {
            Ok(c) => c,
            Err(e) => return Err(e),
        };
        match self.host_functions.validate(&call) {
            Ok(index) => {
                let declared = match self.host_functions.definition(index) {
                    Some(d) => d.return_type,
                    None => return Err(HyperlightError::InvalidEncoding),
                };
                let args = match call.parameters {
                    Some(a) => a,
                    None => {
                        let empty: Vec<ParameterValue> = Vec::new();
                        assert(empty.deep_view() =~= Seq::<ParameterData>::empty());
                        empty
                    },
                };
                Ok(HostCallDecision::Invoke { index, declared, args })
            },
            Err(err) => Ok(HostCallDecision::Reject(err)),
        }
    }

    /// Answers the guest's call with an error, then looks at the cookie.
    pub fn reject_host_call(&mut self, err: &GuestError) -> (r: Result<(), HyperlightError>)
        requires
            old(self).wf(),
        ensures
            final(self).wf(),
            final(self).same_setup(old(self)),
            final(self).state() == old(self).state(),
            final(self).mem_mgr().bytes() == error_response(old(self).mem_mgr(), err@).0,
            final(self).cookie_intact() == old(self).cookie_intact(),
            verdict(r) == guarded(
                old(self).cookie_intact(),
                error_response(old(self).mem_mgr(), err@).1,
            ),
    {
        let written = self.mem_mgr.write_error_response(err);
        if !self.mem_mgr.check_stack_guard(&self.stack_guard) {
            return Err(HyperlightError::StackOverflow);
        }
        written
    }

    /// Takes what a host function handed back: writes the answer for the guest, then
    /// looks at the cookie.
    pub fn finish_host_call(&mut self, declared: ReturnType, result: Result<ReturnValue, String>)
        -> (r: Result<(), HyperlightError>)
        requires
            old(self).wf(),
        ensures
            final(self).wf(),
            final(self).same_setup(old(self)),
            final(self).state() == old(self).state(),
            final(self).mem_mgr().bytes() == host_call_response(
                old(self).mem_mgr(),
                declared,
                handler_outcome(result),
            ).0,
            final(self).cookie_intact() == old(self).cookie_intact(),
            verdict(r) == guarded(
                old(self).cookie_intact(),
                host_call_response(old(self).mem_mgr(), declared, handler_outcome(result)).1,
            ),
    {
        let outcome = match result {
            Ok(v) => {
                let actual = v.get_type();
                if actual != declared {
                    Err(
                        HyperlightError::ReturnValueConversionFailure {
                            expected: declared,
                            actual,
                        },
                    )
                } else {
                    self.mem_mgr.write_response_from_host_method_call(&v)
                }
            },
            Err(message) => {
                let e = GuestError::new(ErrorCode::OutbError, message);
                match self.mem_mgr.write_error_response(&e) {
                    Ok(()) => Err(
                        HyperlightError::OutBError {
                            code: ErrorCode::OutbError,
                            host_error: e.message,
                        },
                    ),
                    Err(x) => Err(x),
                }
            },
        };
        if !self.mem_mgr.check_stack_guard(&self.stack_guard) {
            return Err(HyperlightError::StackOverflow);
        }
        outcome
    }
}

/// One turn of the host-call protocol, from the sandbox `before` the turn to the memory
/// `bytes` and the outcome `v` after it.
///
/// A request that cannot be read leaves memory as it is and fails. A request that the
/// registry does not accept is answered with an error that bears the matching code and
/// the name that was called; no host function has a part in that answer. A request that
/// the registry accepts is answered with what its host function hands back, whatever
/// that is. In each case an overrun stack outweighs the outcome.
pub open spec fn host_call_turn<H>(before: Sandbox<H>, bytes: Seq<u8>, v: Result<(), ErrorData>)
    -> bool {
    let m = before.mem_mgr();
    let defs = before.host_funcs().definitions();
    match host_call_of(m.shared_output()) {
        Err(e) => bytes == m.bytes() && v == guarded(before.cookie_intact(), Err(e)),
        Ok(call) => match validation(defs, call) {
            Err(code) => {
                let resp = error_response(
                    m,
                    GuestErrorData { code, message: call.function_name },
                );
                bytes == resp.0 && v == guarded(before.cookie_intact(), resp.1)
            },
            Ok(()) => exists|res: Result<ReturnData, Seq<char>>|
                {
                    let resp = #[trigger] host_call_response(
                        m,
                        definition_of(defs, call.function_name).return_type,
                        res,
                    );
                    bytes == resp.0 && v == guarded(before.cookie_intact(), resp.1)
                },
        },
    }
}

impl<H: HostFunction> Sandbox<H> {
    /// Runs the host function that the guest asks for and writes the answer, or the
    /// error that the registry found in the request, into shared input.
    pub fn dispatch_host_call(&mut self) -> (r: Result<(), HyperlightError>)
        requires
            old(self).wf(),
        ensures
            final(self).wf(),
            final(self).same_setup(old(self)),
            final(self).state() == old(self).state(),
            final(self).cookie_intact() == old(self).cookie_intact(),
            host_call_turn(*old(self), final(self).mem_mgr().bytes(), verdict(r)),
            r is Ok ==> final(self).cookie_intact(),
    {
        match self.decide_host_call() {
            Ok(HostCallDecision::Invoke { index, declared, args }) => {
                let result = match self.host_functions.handler(index) {
                    Some(h) => h.call(args),
                    None => Err(String::new()),
                };
                let ghost outcome = handler_outcome(result);
                let r = self.finish_host_call(declared, result);
                proof {
                    let resp = host_call_response(old(self).mem_mgr(), declared, outcome);
                    assert(self.mem_mgr().bytes() == resp.0);
                }
                r
            },
            Ok(HostCallDecision::Reject(err)) => self.reject_host_call(&err),
            Err(e) => {
                if !self.mem_mgr.check_stack_guard(&self.stack_guard) {
                    return Err(HyperlightError::StackOverflow);
                }
                Err(e)
            },
        }
    }

    /// Deals with one byte that the guest wrote to a port.
    pub fn handle_outb(&mut self, port: u16, byte: u8) -> (r: Result<ExitAction, HyperlightError>)
        requires
            old(self).wf(),
        ensures
            final(self).wf(),
            final(self).same_setup(old(self)),
            final(self).cookie_intact() == old(self).cookie_intact(),
            final(self).state() == state_after_outb(old(self).state(), port),
            outb_turn(*old(self), port, byte, final(self).mem_mgr().bytes(), action_verdict(r)),
            r is Ok ==> final(self).cookie_intact(),
    {
        let r = match OutBAction::from_port(port) {
            Some(OutBAction::Log) => match self.mem_mgr.get_guest_log_data() {
                Ok(l) => Ok(ExitAction::ForwardLog(l)),
                Err(e) => Err(e),
            },
            Some(OutBAction::CallFunction) => match self.dispatch_host_call() {
                Ok(()) => Ok(ExitAction::Resume),
                Err(e) => Err(e),
            },
            Some(OutBAction::Abort) => {
                let message = self.mem_mgr.get_abort_message();
                Err(HyperlightError::GuestAborted { code: byte, message })
            },
            None => {
                let first = !self.state.unknown_port_seen;
                self.state.unknown_port_seen = true;
                Ok(ExitAction::IgnoredPort { first })
            },
        };
        if !self.mem_mgr.check_stack_guard(&self.stack_guard) {
            return Err(HyperlightError::StackOverflow);
        }
        r
    }

    /// Deals with a stop of the virtual CPU.
    ///
    /// A write to a port is dealt with as `handle_outb` says. A halt ends the call,
    /// whose result `finish_guest_call` then hands out. An access to memory that is not
    /// mapped, a failure of the hypervisor and an interruption end the guest. Whatever
    /// fails here ends the call in flight and poisons the sandbox.
    pub fn handle_exit(&mut self, exit: ExitReason) -> (r: Result<ExitAction, HyperlightError>)
        requires
            old(self).wf(),
        ensures
            final(self).wf(),
            final(self).same_setup(old(self)),
            final(self).cookie_intact() == old(self).cookie_intact(),
            match exit {
                ExitReason::IoOut { port, data } => {
                    &&& outb_turn(
                        *old(self),
                        port,
                        data,
                        final(self).mem_mgr().bytes(),
                        action_verdict(r),
                    )
                    &&& final(self).state() == if r is Err {
                        failed(state_after_outb(old(self).state(), port))
                    } else {
                        state_after_outb(old(self).state(), port)
                    }
                    &&& r is Ok ==> final(self).cookie_intact()
                },
                ExitReason::Halt => {
                    &&& action_verdict(r) == Ok::<ExitActionData, ErrorData>(
                        ExitActionData::Complete,
                    )
                    &&& final(self).mem_mgr().bytes() == old(self).mem_mgr().bytes()
                    &&& final(self).state() == old(self).state()
                },
                _ => {
                    &&& exit_failure(exit) matches Some(e) && action_verdict(r) == Err::<
                        ExitActionData,
                        ErrorData,
                    >(e)
                    &&& final(self).mem_mgr().bytes() == old(self).mem_mgr().bytes()
                    &&& final(self).state() == failed(old(self).state())
                },
            },
    {
        let r = match exit {
            ExitReason::IoOut { port, data } => self.handle_outb(port, data),
            ExitReason::Halt => Ok(ExitAction::Complete),
            _ => match exit_error(exit) {
                Some(e) => Err(e),
                None => Ok(ExitAction::Resume),
            },
        };
        if r.is_err() {
            self.state.executing_guest_call = false;
            self.state.poisoned = true;
        }
        r
    }
}

/// The state after the guest has written to `port`: the sandbox remembers a write to a
/// port that stands for nothing.
pub open spec fn state_after_outb(s: CallState, port: u16) -> CallState {
    if OutBAction::spec_from_port(port) is None {
        CallState { unknown_port_seen: true, ..s }
    } else {
        s
    }
}

/// Success without the action that goes with it.
pub open spec fn without_action(v: Result<ExitActionData, ErrorData>) -> Result<(), ErrorData> {
    match v {
        Ok(_) => Ok(()),
        Err(e) => Err(e),
    }
}

/// An overrun stack outweighs whatever else a turn of the dispatcher found.
pub open spec fn guarded_action(cookie_intact: bool, v: Result<ExitActionData, ErrorData>)
    -> Result<ExitActionData, ErrorData> {
    if cookie_intact {
        v
    } else {
        Err(ErrorData::StackOverflow)
    }
}

/// What becomes of one byte that the guest wrote to `port`, from the sandbox `before` to
/// the memory `bytes` and the outcome `v` after.
///
/// On the port for calls the host-call protocol takes its turn, and the guest runs on if
/// the turn succeeds. On the port for logs the record in shared output is handed out. On
/// the port for aborts the call fails with the byte as its code and with the message
/// that the guest left in shared output, if it left one. A write to any other port is
/// ignored, and it is said whether it is the first of its kind. But for a turn of the
/// host-call protocol, memory stays as it is. In each case an overrun stack outweighs
/// the outcome.
pub open spec fn outb_turn<H>(
    before: Sandbox<H>,
    port: u16,
    byte: u8,
    bytes: Seq<u8>,
    v: Result<ExitActionData, ErrorData>,
) -> bool {
    match OutBAction::spec_from_port(port) {
        Some(OutBAction::CallFunction) => {
            &&& host_call_turn(before, bytes, without_action(v))
            &&& v matches Ok(a) ==> a == ExitActionData::Resume
        },
        Some(OutBAction::Log) => {
            &&& bytes == before.mem_mgr().bytes()
            &&& v == guarded_action(
                before.cookie_intact(),
                match log_record_of(before.mem_mgr().shared_output()) {
                    Ok(l) => Ok::<ExitActionData, ErrorData>(ExitActionData::ForwardLog(l)),
                    Err(e) => Err(e),
                },
            )
        },
        Some(OutBAction::Abort) => {
            &&& bytes == before.mem_mgr().bytes()
            &&& v == guarded_action(
                before.cookie_intact(),
                Err::<ExitActionData, ErrorData>(
                    ErrorData::GuestAborted {
                        code: byte,
                        message: abort_message_of(before.mem_mgr().shared_output()),
                    },
                ),
            )
        },
        None => {
            &&& bytes == before.mem_mgr().bytes()
            &&& v == guarded_action(
                before.cookie_intact(),
                Ok::<ExitActionData, ErrorData>(
                    ExitActionData::IgnoredPort { first: !before.state().unknown_port_seen },
                ),
            )
        },
    }
}

// ---------------------------------------------------------------------------
// Guest calls

/// The call that the host puts into shared input to have the guest run `function_name`.
pub open spec fn guest_call(
    function_name: Seq<char>,
    parameters: Option<Seq<ParameterData>>,
    return_type: ReturnType,
) -> CallData {
    CallData {
        function_name,
        parameters,
        function_call_type: FunctionCallType::Guest,
        expected_return_type: return_type,
    }
}

/// The state once a guest call has begun.
pub open spec fn begun(s: CallState, return_type: ReturnType) -> CallState {
    CallState {
        executing_guest_call: true,
        needs_state_reset: true,
        num_runs: if s.num_runs < i32::MAX {
            (s.num_runs + 1) as i32
        } else {
            i32::MAX
        },
        expected_return_type: return_type,
        ..s
    }
}

/// Whether a guest call begins in the state `s`, given whether it fits shared input: a
/// poisoned sandbox takes no call, and while a call is in flight no other begins.
pub open spec fn begin_outcome(s: CallState, fits: bool) -> Result<(), ErrorData> {
    if s.poisoned {
        Err(ErrorData::SandboxPoisoned)
    } else if s.executing_guest_call {
        Err(ErrorData::GuestCallAlreadyInProgress)
    } else if !fits {
        Err(ErrorData::FrameTooLarge)
    } else {
        Ok(())
    }
}

/// The state once a guest call has failed: the call is over and the sandbox is poisoned.
pub open spec fn failed(s: CallState) -> CallState {
    CallState { executing_guest_call: false, poisoned: true, ..s }
}

/// One call is in flight at a time: a sandbox that has begun a call refuses every other
/// until that call is over, and a sandbox whose call has failed refuses every call.
pub proof fn one_call_in_flight(s: CallState, return_type: ReturnType, fits: bool)
    ensures
        begin_outcome(s, true) is Ok ==> begin_outcome(begun(s, return_type), fits) == Err::<
            (),
            ErrorData,
        >(ErrorData::GuestCallAlreadyInProgress),
        begin_outcome(failed(s), fits) == Err::<(), ErrorData>(ErrorData::SandboxPoisoned),
{
}

/// The failure that stands for a stop of the virtual CPU that ends the guest.
pub open spec fn exit_failure(exit: ExitReason) -> Option<ErrorData> {
    match exit {
        ExitReason::MmioRead { addr, .. } => Some(ErrorData::GuestMemoryFault { addr }),
        ExitReason::MmioWrite { addr, .. } => Some(ErrorData::GuestMemoryFault { addr }),
        ExitReason::InternalError { subcode } => Some(
            ErrorData::HypervisorInternalError { subcode },
        ),
        ExitReason::Cancelled => Some(ErrorData::GuestCancelled),
        ExitReason::IoOut { .. } => None,
        ExitReason::Halt => None,
    }
}

/// What the caller of a guest call gets once the guest has halted.
///
/// An overrun stack comes first, then an error that the guest reported, then a result
/// that cannot be read, then a result of another type than the caller expects.
pub open spec fn guest_call_result<H>(s: Sandbox<H>) -> Result<ReturnData, ErrorData> {
    if !s.cookie_intact() {
        Err(ErrorData::StackOverflow)
    } else {
        match guest_error_verdict(s.mem_mgr().shared_output(), s.mem_mgr().shared_input()) {
            Err(e) => Err(e),
            Ok(()) => match return_value_of(s.mem_mgr().shared_output()) {
                Err(e) => Err(e),
                Ok(v) => if v.return_type() != s.state().expected_return_type {
                    Err(
                        ErrorData::ReturnValueConversionFailure {
                            expected: s.state().expected_return_type,
                            actual: v.return_type(),
                        },
                    )
                } else {
                    Ok(v)
                },
            },
        }
    }
}

/// The outcome of an operation by content: its value, or the failure.
pub open spec fn value_verdict(r: Result<ReturnValue, HyperlightError>) -> Result<
    ReturnData,
    ErrorData,
> {
    match r {
        Ok(v) => Ok(v@),
        Err(e) => Err(e@),
    }
}

fn exit_error(exit: ExitReason) -> (e: Option<HyperlightError>)
    ensures
        e matches Some(x) ==> exit_failure(exit) == Some(x@),
        e is None ==> exit_failure(exit) is None,
{
    match exit {
        ExitReason::MmioRead { addr, .. } => Some(HyperlightError::GuestMemoryFault { addr }),
        ExitReason::MmioWrite { addr, .. } => Some(HyperlightError::GuestMemoryFault { addr }),
        ExitReason::InternalError { subcode } => Some(
            HyperlightError::HypervisorInternalError { subcode },
        ),
        ExitReason::Cancelled => Some(HyperlightError::GuestCancelled),
        ExitReason::IoOut { .. } => None,
        ExitReason::Halt => None,
    }
}

impl<H> Sandbox<H> {
    /// Takes over what the guest left in its memory while it ran.
    pub fn load_guest_memory(&mut self, bytes: &[u8]) -> (r: Result<(), HyperlightError>)
        requires
            old(self).wf(),
        ensures
            final(self).wf(),
            final(self).same_setup(old(self)),
            final(self).state() == old(self).state(),
            bytes@.len() == old(self).mem_mgr().layout().total_size ==> {
                &&& r is Ok
                &&& final(self).mem_mgr().bytes() == bytes@
            },
            bytes@.len() != old(self).mem_mgr().layout().total_size ==> {
                &&& verdict(r) == Err::<(), ErrorData>(ErrorData::MemorySizeMismatch)
                &&& final(self).mem_mgr().bytes() == old(self).mem_mgr().bytes()
            },
    {
        self.mem_mgr.load_guest_memory(bytes)
    }

    /// Begins a guest call: takes the token of the call in flight, puts the call into
    /// shared input and empties shared output.
    ///
    /// A poisoned sandbox takes no call. While a call is in flight no other begins. A
    /// call that does not fit shared input does not begin. In each of these cases the
    /// sandbox stays as it is.
    pub fn begin_guest_call(
        &mut self,
        function_name: String,
        parameters: Option<Vec<ParameterValue>>,
        return_type: ReturnType,
    ) -> (r: Result<(), HyperlightError>)
        requires
            old(self).wf(),
        ensures
            final(self).wf(),
            final(self).same_setup(old(self)),
            ({
                let call = guest_call(function_name@, parameters.deep_view(), return_type);
                let before = old(self).state();
                let fits = call_frame_fits(call) && call_frame(call).len() <= old(
                    self,
                ).mem_mgr().layout().shared_input_capacity;
                &&& verdict(r) == begin_outcome(before, fits)
                &&& r is Err ==> final(self).state() == before && final(self).mem_mgr().bytes()
                    == old(self).mem_mgr().bytes()
                &&& r is Ok ==> {
                    &&& final(self).state() == begun(before, return_type)
                    &&& final(self).mem_mgr().bytes() == splice(
                        old(self).mem_mgr().with_shared_input(call_frame(call)),
                        old(self).mem_mgr().layout().shared_output_addr as int,
                        frame(Seq::empty()),
                    )
                    &&& call_of_frame(final(self).mem_mgr().shared_input())
                        == Ok::<CallData, WireError>(call)
                    &&& frame_payload(final(self).mem_mgr().shared_output()) == Ok::<
                        Seq<u8>,
                        WireError,
                    >(Seq::empty())
                    &&& final(self).cookie_intact() == old(self).cookie_intact()
                }
            }),
    {
        if self.state.poisoned {
            return Err(HyperlightError::SandboxPoisoned);
        }
        if self.state.executing_guest_call {
            return Err(HyperlightError::GuestCallAlreadyInProgress);
        }
        let call = FunctionCall::new(
            function_name,
            parameters,
            FunctionCallType::Guest,
            return_type,
        );
        match self.mem_mgr.write_guest_function_call(&call) {
            Ok(()) => {},
            Err(e) => return Err(e),
        }
        self.mem_mgr.clear_buffer(Buffer::SharedOutput);
        self.state.executing_guest_call = true;
        self.state.needs_state_reset = true;
        self.state.expected_return_type = return_type;
        if self.state.num_runs < i32::MAX {
            self.state.num_runs += 1;
        }
        Ok(())
    }

    /// Ends the guest call in flight once the guest has halted, and hands out its result.
    ///
    /// Without a call in flight nothing happens. A call that fails poisons the sandbox.
    /// After a call that succeeds, memory goes back to the snapshot if `reset` asks for
    /// it and there is a snapshot.
    pub fn finish_guest_call(&mut self, reset: bool) -> (r: Result<ReturnValue, HyperlightError>)
        requires
            old(self).wf(),
        ensures
            final(self).wf(),
            final(self).same_setup(old(self)),
            !old(self).state().executing_guest_call ==> {
                &&& value_verdict(r) == Err::<ReturnData, ErrorData>(
                    ErrorData::NoGuestCallInProgress,
                )
                &&& final(self).state() == old(self).state()
                &&& final(self).mem_mgr().bytes() == old(self).mem_mgr().bytes()
            },
            old(self).state().executing_guest_call ==> {
                &&& value_verdict(r) == guest_call_result(*old(self))
                &&& r is Err ==> {
                    &&& final(self).state() == failed(old(self).state())
                    &&& final(self).mem_mgr().bytes() == old(self).mem_mgr().bytes()
                }
                &&& r is Ok ==> if reset && old(self).mem_mgr().snapshot() is Some {
                    &&& final(self).state() == (CallState {
                        executing_guest_call: false,
                        needs_state_reset: false,
                        ..old(self).state()
                    })
                    &&& final(self).mem_mgr().bytes() == old(self).mem_mgr().snapshot()->Some_0
                } else {
                    &&& final(self).state() == (CallState {
                        executing_guest_call: false,
                        ..old(self).state()
                    })
                    &&& final(self).mem_mgr().bytes() == old(self).mem_mgr().bytes()
                }
            },
            r is Ok ==> final(self).cookie_intact(),
            r matches Ok(v) ==> v@.return_type() == old(self).state().expected_return_type,
    {
        if !self.state.executing_guest_call {
            return Err(HyperlightError::NoGuestCallInProgress);
        }
        let outcome = self.collect_result();
        match outcome {
            Ok(v) => {
                self.state.executing_guest_call = false;
                if reset {
                    match self.mem_mgr.restore_state() {
                        Ok(()) => {
                            self.state.needs_state_reset = false;
                        },
                        Err(_) => {},
                    }
                }
                Ok(v)
            },
            Err(e) => {
                self.state.executing_guest_call = false;
                self.state.poisoned = true;
                Err(e)
            },
        }
    }

    /// Reads the result of the guest call out of memory.
    fn collect_result(&self) -> (r: Result<ReturnValue, HyperlightError>)
        requires
            self.wf(),
        ensures
            value_verdict(r) == guest_call_result(*self),
    {
        if !self.mem_mgr.check_stack_guard(&self.stack_guard) {
            return Err(HyperlightError::StackOverflow);
        }
        match self.check_for_guest_error() {
            Ok(()) => {},
            Err(e) => return Err(e),
        }
        let v = match self.mem_mgr.get_return_value() {
            Ok(v) => v,
            Err(e) => return Err(e),
        };
        let actual = v.get_type();
        if actual != self.state.expected_return_type {
            return Err(
                HyperlightError::ReturnValueConversionFailure {
                    expected: self.state.expected_return_type,
                    actual,
                },
            );
        }
        Ok(v)
    }

    /// Puts memory back to the snapshot and lifts the poison.
    ///
    /// While a call is in flight, or without a snapshot, nothing happens.
    pub fn reset(&mut self) -> (r: Result<(), HyperlightError>)
        requires
            old(self).wf(),
        ensures
            final(self).wf(),
            final(self).same_setup(old(self)),
            verdict(r) == if old(self).state().executing_guest_call {
                Err::<(), ErrorData>(ErrorData::GuestCallAlreadyInProgress)
            } else if old(self).mem_mgr().snapshot() is None {
                Err(ErrorData::NoSnapshot)
            } else {
                Ok(())
            },
            r is Err ==> final(self).state() == old(self).state() && final(self).mem_mgr().bytes()
                == old(self).mem_mgr().bytes(),
            r is Ok ==> {
                &&& final(self).state() == (CallState {
                    poisoned: false,
                    needs_state_reset: false,
                    ..old(self).state()
                })
                &&& final(self).mem_mgr().bytes() == old(self).mem_mgr().snapshot()->Some_0
                &&& final(self).cookie_intact()
            },
    {
        if self.state.executing_guest_call {
            return Err(HyperlightError::GuestCallAlreadyInProgress);
        }
        match self.mem_mgr.restore_state() {
            Ok(()) => {
                self.state.poisoned = false;
                self.state.needs_state_reset = false;
                Ok(())
            },
            Err(e) => Err(e),
        }
    }
}

/// The state of a sandbox that has run no call.
pub open spec fn initial_state() -> CallState {
    CallState {
        executing_guest_call: false,
        needs_state_reset: false,
        num_runs: 0,
        poisoned: false,
        unknown_port_seen: false,
        expected_return_type: ReturnType::Void,
    }
}

/// Why a sandbox does not come to take calls, said of the stop that ended the run of
/// the guest's entry point; a halt with the cookie in place is no such reason.
pub open spec fn initialization_failure(exit: ExitReason, cookie_intact: bool) -> Option<
    ErrorData,
> {
    match exit {
        ExitReason::Halt => if cookie_intact {
            None
        } else {
            Some(ErrorData::StackOverflow)
        },
        ExitReason::IoOut { port, data } => Some(ErrorData::UnexpectedOutB { port, data }),
        _ => exit_failure(exit),
    }
}

impl<H> UninitializedSandbox<H> {
    /// Takes over what the guest left in its memory while it ran.
    pub fn load_guest_memory(&mut self, bytes: &[u8]) -> (r: Result<(), HyperlightError>)
        requires
            old(self).wf(),
        ensures
            final(self).wf(),
            final(self).host_funcs() == old(self).host_funcs(),
            final(self).stack_guard() == old(self).stack_guard(),
            final(self).mem_mgr().layout() == old(self).mem_mgr().layout(),
            bytes@.len() == old(self).mem_mgr().layout().total_size ==> {
                &&& r is Ok
                &&& final(self).mem_mgr().bytes() == bytes@
            },
            bytes@.len() != old(self).mem_mgr().layout().total_size ==> {
                &&& verdict(r) == Err::<(), ErrorData>(ErrorData::MemorySizeMismatch)
                &&& final(self).mem_mgr().bytes() == old(self).mem_mgr().bytes()
            },
    {
        self.mem_mgr.load_guest_memory(bytes)
    }

    /// Makes the sandbox that takes calls, once the guest's entry point has run up to
    /// the stop `first_exit`.
    ///
    /// Only a halt with the cookie in place will do. Memory as it is then becomes the
    /// snapshot that a reset goes back to.
    pub fn evolve(self, first_exit: ExitReason) -> (r: Result<Sandbox<H>, HyperlightError>)
        requires
            self.wf(),
        ensures
            match initialization_failure(
                first_exit,
                self.mem_mgr().stack_cookie() == self.stack_guard(),
            ) {
                Some(e) => r matches Err(x) && x@ == e,
                None => r matches Ok(s) && {
                    &&& s.wf()
                    &&& s.cookie_intact()
                    &&& s.host_funcs() == self.host_funcs()
                    &&& s.stack_guard() == self.stack_guard()
                    &&& s.mem_mgr().layout() == self.mem_mgr().layout()
                    &&& s.mem_mgr().bytes() == self.mem_mgr().bytes()
                    &&& s.mem_mgr().snapshot() == Some(self.mem_mgr().bytes())
                    &&& s.state() == initial_state()
                },
            },
    {
        match first_exit {
            ExitReason::Halt => {
                if !self.mem_mgr.check_stack_guard(&self.stack_guard) {
                    return Err(HyperlightError::StackOverflow);
                }
                let mut s = Sandbox::from(self);
                s.mem_mgr.snapshot_state();
                Ok(s)
            },
            ExitReason::IoOut { port, data } => Err(HyperlightError::UnexpectedOutB { port, data }),
            _ => match exit_error(first_exit) {
                Some(e) => Err(e),
                None => Err(HyperlightError::GuestCancelled),
            },
        }
    }
}

} // verus!
