//! The guest's side of the call protocol.
//!
//! The guest asks the host by leaving a call in shared output and writing to a port; it
//! finds the answer in shared input. It is asked by the host the other way round, and
//! leaves its result in shared output before it halts. Writing to the port and halting
//! are left to whoever runs in the guest: the functions here say which port to write
//! to, and work on the memory.

use crate::error::ErrorData;
use crate::mem::layout::{Buffer, GuestMemoryLayout};
use crate::mem::mgr::{
    abort_message_of, fresh_bytes, guest_error_of, lemma_reported_error, splice,
    SandboxMemoryManager,
};
use crate::mem::peb::layout_of_peb;
use crate::outb::{PORT_ABORT, PORT_CALL_FUNCTION};
use crate::registry::{
    lemma_definition_of, registered, validation, DefinitionData, FunctionDefinition,
    FunctionRegistry,
};
use crate::types::{
    CallData, ErrorCode, FunctionCall, FunctionCallType, GuestError, GuestErrorData,
    ParameterData, ParameterType, ParameterValue, ReturnData, ReturnType, ReturnValue,
};
use crate::wire::call::{
    call_frame, call_frame_fits, call_of_frame, error_frame, error_frame_fits, error_of_frame,
    frame, frame_payload, function_call_round_trip, guest_error_round_trip, return_frame,
    return_of_frame, WireError,
};
use crate::wire::prim::lemma_enc_u32_len;
use vstd::prelude::*;

verus! {

/// One byte to write to a port.
#[derive(Clone, Copy, Debug, PartialEq, Eq, Structural)]
pub struct PortWrite {
    pub port: u16,
    pub value: u8,
}

/// Name, signature and address of a function that the guest offers to the host.
#[derive(Debug, PartialEq, Eq)]
pub struct GuestFunctionDefinition {
    pub function_name: String,
    pub parameter_types: Vec<ParameterType>,
    pub return_type: ReturnType,
    pub function_pointer: u64,
}

/// How a byte gets out of the guest.
#[derive(Clone, Copy, Debug, PartialEq, Eq, Structural)]
pub enum OutbRoute {
    /// By the port instruction.
    Instruction,
    /// By the function that takes the context of the header record with it.
    FunctionWithContext,
    /// By the plain function.
    Function,
    /// Not at all.
    Nowhere,
}

/// The way a byte takes out of the guest: the port instruction inside a partition;
/// outside of one the function with context, which needs the header record, and
/// failing that function the plain one.
pub open spec fn spec_outb_route(
    running_in_partition: bool,
    has_function_with_context: bool,
    has_header: bool,
    has_function: bool,
) -> OutbRoute {
    if running_in_partition {
        OutbRoute::Instruction
    } else if has_function_with_context {
        if has_header {
            OutbRoute::FunctionWithContext
        } else {
            OutbRoute::Nowhere
        }
    } else if has_function {
        OutbRoute::Function
    } else {
        OutbRoute::Nowhere
    }
}

/// The way a byte takes out of the guest.
#[verifier::when_used_as_spec(spec_outb_route)]
pub fn outb_route(
    running_in_partition: bool,
    has_function_with_context: bool,
    has_header: bool,
    has_function: bool,
) -> (r: OutbRoute)
    ensures
        r == spec_outb_route(
            running_in_partition,
            has_function_with_context,
            has_header,
            has_function,
        ),
{
    if running_in_partition {
        OutbRoute::Instruction
    } else if has_function_with_context {
        if has_header {
            OutbRoute::FunctionWithContext
        } else {
            OutbRoute::Nowhere
        }
    } else if has_function {
        OutbRoute::Function
    } else {
        OutbRoute::Nowhere
    }
}

/// The error that the guest makes of a failure of its own, with `message`.
pub open spec fn guest_failure(message: Seq<char>) -> GuestErrorData {
    GuestErrorData { code: ErrorCode::GuestError, message }
}

fn failure(message: &str) -> (e: GuestError)
    ensures
        e@ == guest_failure(message@),
{
    GuestError::new(ErrorCode::GuestError, message.to_owned())
}

/// What the host has answered: the value in shared input, or the error that the host
/// put there in its place; what is neither counts as a failure of the guest's own.
pub open spec fn host_answer(buf: Seq<u8>) -> Result<ReturnData, GuestErrorData> {
    match return_of_frame(buf) {
        Ok(v) => Ok(v),
        Err(_) => match error_of_frame(buf) {
            Ok(e) => Err(e),
            Err(_) => Err(guest_failure("Unable to deserialize return value from host"@)),
        },
    }
}

/// The call that the guest leaves for the host.
pub open spec fn host_call(
    function_name: Seq<char>,
    parameters: Option<Seq<ParameterData>>,
    return_type: ReturnType,
) -> CallData {
    CallData {
        function_name,
        parameters,
        function_call_type: FunctionCallType::Host,
        expected_return_type: return_type,
    }
}

/// The guest's runtime: its memory, the functions it offers, and the host functions it
/// knows of.
#[derive(Debug)]
pub struct GuestRuntime {
    mem: SandboxMemoryManager,
    guest_functions: FunctionRegistry<u64>,
    host_functions: FunctionRegistry<()>,
    validates_host_calls: bool,
}

impl GuestRuntime {
    /// The guest's memory.
    pub closed spec fn mem(&self) -> SandboxMemoryManager {
        self.mem
    }

    /// The functions that the guest offers, each with its address.
    pub closed spec fn guest_funcs(&self) -> FunctionRegistry<u64> {
        self.guest_functions
    }

    /// The host functions that the guest knows of.
    pub closed spec fn host_funcs(&self) -> FunctionRegistry<()> {
        self.host_functions
    }

    /// Whether the guest holds its calls against the host functions it knows of, or
    /// leaves that to the host.
    pub closed spec fn validates_host_calls(&self) -> bool {
        self.validates_host_calls
    }

    /// Memory and both registries are well-formed.
    pub open spec fn wf(&self) -> bool {
        &&& self.mem().wf()
        &&& self.guest_funcs().wf()
        &&& self.host_funcs().wf()
    }

    /// The same functions, and memory of the same layout.
    pub open spec fn same_setup(&self, other: &Self) -> bool {
        &&& self.guest_funcs() == other.guest_funcs()
        &&& self.host_funcs() == other.host_funcs()
        &&& self.validates_host_calls() == other.validates_host_calls()
        &&& self.mem().layout() == other.mem().layout()
        &&& self.mem().snapshot() == other.mem().snapshot()
    }

    /// A runtime on memory of `layout` that offers nothing and knows of no host
    /// function; none if the layout is not well-formed.
    pub fn new(layout: GuestMemoryLayout) -> (r: Option<GuestRuntime>)
        ensures
            r is Some <==> layout.wf(),
            r matches Some(g) ==> {
                &&& g.wf()
                &&& g.mem().layout() == layout
                &&& g.mem().bytes() == fresh_bytes(layout)
                &&& g.mem().snapshot() is None
                &&& g.guest_funcs().definitions().len() == 0
                &&& g.host_funcs().definitions().len() == 0
                &&& !g.validates_host_calls()
            },
    {
        let mem = SandboxMemoryManager::new(layout)?;
        Some(
            GuestRuntime {
                mem,
                guest_functions: FunctionRegistry::new(),
                host_functions: FunctionRegistry::new(),
                validates_host_calls: false,
            },
        )
    }

    /// A runtime on the memory `bytes`, whose layout the header record at its start
    /// gives; none if there is no such record or the memory has another size than the
    /// record says.
    pub fn from_memory(bytes: &[u8]) -> (r: Option<GuestRuntime>)
        ensures
            match layout_of_peb(bytes@) {
                Some((_, layout)) => if bytes@.len() == layout.total_size {
                    r matches Some(g) && {
                        &&& g.wf()
                        &&& g.mem().layout() == layout
                        &&& g.mem().bytes() == bytes@
                        &&& g.mem().snapshot() is None
                        &&& g.guest_funcs().definitions().len() == 0
                        &&& g.host_funcs().definitions().len() == 0
                        &&& !g.validates_host_calls()
                    }
                } else {
                    r is None
                },
                None => r is None,
            },
    {
        let (_, layout) = GuestMemoryLayout::from_peb(bytes)?;
        let mut g = GuestRuntime::new(layout)?;
        if g.load_memory(bytes) {
            Some(g)
        } else {
            None
        }
    }

    /// All of guest memory.
    pub fn memory(&self) -> (s: &[u8])
        ensures
            s@ == self.mem().bytes(),
    {
        self.mem.as_slice()
    }

    /// Takes over what the host left in memory while the guest was stopped.
    pub fn load_memory(&mut self, bytes: &[u8]) -> (ok: bool)
        requires
            old(self).wf(),
        ensures
            final(self).wf(),
            final(self).same_setup(old(self)),
            ok <==> bytes@.len() == old(self).mem().layout().total_size,
            ok ==> final(self).mem().bytes() == bytes@,
            !ok ==> final(self).mem().bytes() == old(self).mem().bytes(),
    {
        self.mem.load_guest_memory(bytes).is_ok()
    }

    /// Installs a function that the host may call. A name that is taken is refused.
    pub fn register_function(&mut self, definition: GuestFunctionDefinition) -> (ok: bool)
        requires
            old(self).wf(),
        ensures
            final(self).wf(),
            final(self).mem() == old(self).mem(),
            final(self).host_funcs() == old(self).host_funcs(),
            final(self).validates_host_calls() == old(self).validates_host_calls(),
            ok <==> !registered(old(self).guest_funcs().definitions(), definition.function_name@),
            ok ==> {
                &&& final(self).guest_funcs().definitions() == old(
                    self,
                ).guest_funcs().definitions().push(
                    DefinitionData {
                        function_name: definition.function_name@,
                        parameter_types: definition.parameter_types@,
                        return_type: definition.return_type,
                    },
                )
                &&& final(self).guest_funcs().handlers() == old(self).guest_funcs().handlers().push(
                    definition.function_pointer,
                )
            },
            !ok ==> final(self).guest_funcs().definitions() == old(self).guest_funcs().definitions()
                && final(self).guest_funcs().handlers() == old(self).guest_funcs().handlers(),
    {
        let GuestFunctionDefinition {
            function_name,
            parameter_types,
            return_type,
            function_pointer,
        } = definition;
        let d = FunctionDefinition::new(function_name, parameter_types, return_type);
        self.guest_functions.register(d, function_pointer).is_ok()
    }

    /// Makes a host function known to the guest, which from now on holds its calls
    /// against what it knows. A name that is taken is refused.
    pub fn register_host_function(&mut self, definition: FunctionDefinition) -> (ok: bool)
        requires
            old(self).wf(),
        ensures
            final(self).wf(),
            final(self).mem() == old(self).mem(),
            final(self).guest_funcs() == old(self).guest_funcs(),
            final(self).validates_host_calls(),
            ok <==> !registered(old(self).host_funcs().definitions(), definition@.function_name),
            ok ==> final(self).host_funcs().definitions() == old(
                self,
            ).host_funcs().definitions().push(definition@),
            !ok ==> final(self).host_funcs().definitions() == old(self).host_funcs().definitions(),
    {
        self.validates_host_calls = true;
        self.host_functions.register(definition, ()).is_ok()
    }

    /// Takes the host's answer out of shared input, which holds the empty frame
    /// afterwards.
    pub fn pop_host_answer(&mut self) -> (r: Result<ReturnValue, GuestError>)
        requires
            old(self).wf(),
        ensures
            final(self).wf(),
            final(self).same_setup(old(self)),
            r matches Ok(v) ==> host_answer(old(self).mem().shared_input()) == Ok::<
                ReturnData,
                GuestErrorData,
            >(v@),
            r matches Err(e) ==> host_answer(old(self).mem().shared_input()) == Err::<
                ReturnData,
                GuestErrorData,
            >(e@),
            final(self).mem().bytes() == splice(
                old(self).mem().bytes(),
                old(self).mem().layout().shared_input_addr as int,
                frame(Seq::empty()),
            ),
            frame_payload(final(self).mem().shared_input()) == Ok::<Seq<u8>, WireError>(
                Seq::empty(),
            ),
            final(self).mem().shared_output() == old(self).mem().shared_output(),
            final(self).mem().stack_cookie() == old(self).mem().stack_cookie(),
    {
        let answer = {
            let buf = self.mem.read_buffer(Buffer::SharedInput);
            match ReturnValue::decode(buf) {
                Ok(v) => Ok(v),
                Err(_) => match GuestError::decode(buf) {
                    Ok(e) => Err(e),
                    Err(_) => Err(failure("Unable to deserialize return value from host")),
                },
            }
        };
        self.mem.clear_buffer(Buffer::SharedInput);
        assert(self.mem().buffer(Buffer::SharedOutput) == old(self).mem().buffer(
            Buffer::SharedOutput,
        ));
        answer
    }
}

/// The outcome of an operation that ends with a write to a port, by content.
pub open spec fn port_verdict(r: Result<PortWrite, GuestError>) -> Result<
    PortWrite,
    GuestErrorData,
> {
    match r {
        Ok(p) => Ok(p),
        Err(e) => Err(e@),
    }
}

/// What becomes of a call to the host, from the runtime `before` to the runtime `after`
/// and the outcome `r`.
///
/// A guest that knows of host functions refuses a call that they do not accept, with
/// the matching code and the name that was called. A call that does not fit shared
/// output is refused too. A refused call leaves memory as it is. Any other call stands
/// in shared output afterwards, nothing else has changed, and the port to write to is
/// the port for calls.
pub open spec fn host_call_left(
    before: &GuestRuntime,
    after: &GuestRuntime,
    call: CallData,
    r: Result<PortWrite, GuestErrorData>,
) -> bool {
    let checked = validation(before.host_funcs().definitions(), call);
    let fits = call_frame_fits(call) && call_frame(call).len()
        <= before.mem().layout().shared_output_capacity;
    if before.validates_host_calls() && checked is Err {
        &&& r == Err::<PortWrite, GuestErrorData>(
            GuestErrorData { code: checked->Err_0, message: call.function_name },
        )
        &&& after.mem().bytes() == before.mem().bytes()
    } else if !fits {
        &&& r == Err::<PortWrite, GuestErrorData>(
            guest_failure("Unable to serialize host function call"@),
        )
        &&& after.mem().bytes() == before.mem().bytes()
    } else {
        &&& r == Ok::<PortWrite, GuestErrorData>(PortWrite { port: PORT_CALL_FUNCTION, value: 0 })
        &&& after.mem().bytes() == splice(
            before.mem().bytes(),
            before.mem().layout().shared_output_addr as int,
            call_frame(call),
        )
        &&& call_of_frame(after.mem().shared_output()) == Ok::<CallData, WireError>(call)
        &&& after.mem().shared_input() == before.mem().shared_input()
        &&& after.mem().stack_cookie() == before.mem().stack_cookie()
    }
}

/// Leaves a call of the host function `function_name` in shared output, and says
/// which port to write to so that the host takes it up.
///
/// A guest that knows of host functions refuses a call that they do not accept. A
/// call that does not fit shared output is refused too. A refused call leaves
/// memory as it is.
pub fn call_host_function(
    rt: &mut GuestRuntime,
    function_name: &str,
    parameters: Option<Vec<ParameterValue>>,
    return_type: ReturnType,
) -> (r: Result<PortWrite, GuestError>)
    requires
        old(rt).wf(),
    ensures
        final(rt).wf(),
        final(rt).same_setup(old(rt)),
        host_call_left(
            old(rt),
            final(rt),
            host_call(function_name@, parameters.deep_view(), return_type),
            port_verdict(r),
        ),
{
    let host_function_call = FunctionCall::new(
        function_name.to_owned(),
        parameters,
        FunctionCallType::Host,
        return_type,
    );
    if rt.validates_host_calls {
        match rt.host_functions.validate(&host_function_call) {
            Ok(_) => {},
            Err(e) => return Err(e),
        }
    }
    let buffer = match host_function_call.encode() {
        Ok(f) => f,
        Err(_) => return Err(failure("Unable to serialize host function call")),
    };
    if !rt.mem.write_buffer(Buffer::SharedOutput, buffer.as_slice()) {
        return Err(failure("Unable to serialize host function call"));
    }
    proof {
        let call = host_function_call@;
        function_call_round_trip(
            call,
            old(rt).mem().buffer(Buffer::SharedOutput).skip(buffer@.len() as int),
        );
        assert(rt.mem().buffer(Buffer::SharedInput) == old(rt).mem().buffer(
            Buffer::SharedInput,
        ));
    }
    Ok(PortWrite { port: PORT_CALL_FUNCTION, value: 0 })
}


/// The host's answer was taken out of shared input, which holds the empty frame now;
/// nothing else has changed.
pub open spec fn answer_taken(before: &GuestRuntime, after: &GuestRuntime) -> bool {
    &&& after.mem().bytes() == splice(
        before.mem().bytes(),
        before.mem().layout().shared_input_addr as int,
        frame(Seq::empty()),
    )
    &&& frame_payload(after.mem().shared_input()) == Ok::<Seq<u8>, WireError>(Seq::empty())
    &&& after.mem().shared_output() == before.mem().shared_output()
    &&& after.mem().stack_cookie() == before.mem().stack_cookie()
}

/// Takes the host's answer out of shared input as nothing.
pub fn get_host_value_return_as_void(rt: &mut GuestRuntime) -> (r: Result<(), GuestError>)
    requires
        old(rt).wf(),
    ensures
        final(rt).wf(),
        final(rt).same_setup(old(rt)),
        answer_taken(old(rt), final(rt)),
        match host_answer(old(rt).mem().shared_input()) {
            Ok(ReturnData::Void) => r is Ok,
            Ok(_) => r matches Err(e) && e@ == guest_failure(
                "Host return value was not void as expected"@,
            ),
            Err(x) => r matches Err(e) && e@ == x,
        },
{
    match rt.pop_host_answer() {
        Ok(ReturnValue::Void) => Ok(()),
        Ok(_) => Err(failure("Host return value was not void as expected")),
        Err(e) => Err(e),
    }
}

/// Takes the host's answer out of shared input as a 32-bit signed integer.
pub fn get_host_value_return_as_int(rt: &mut GuestRuntime) -> (r: Result<i32, GuestError>)
    requires
        old(rt).wf(),
    ensures
        final(rt).wf(),
        final(rt).same_setup(old(rt)),
        answer_taken(old(rt), final(rt)),
        match host_answer(old(rt).mem().shared_input()) {
            Ok(ReturnData::Int(i)) => r matches Ok(v) && v == i,
            Ok(_) => r matches Err(e) && e@ == guest_failure(
                "Host return value was not an int as expected"@,
            ),
            Err(x) => r matches Err(e) && e@ == x,
        },
{
    match rt.pop_host_answer() {
        Ok(ReturnValue::Int(i)) => Ok(i),
        Ok(_) => Err(failure("Host return value was not an int as expected")),
        Err(e) => Err(e),
    }
}

/// Takes the host's answer out of shared input as a 32-bit unsigned integer.
pub fn get_host_value_return_as_uint(rt: &mut GuestRuntime) -> (r: Result<u32, GuestError>)
    requires
        old(rt).wf(),
    ensures
        final(rt).wf(),
        final(rt).same_setup(old(rt)),
        answer_taken(old(rt), final(rt)),
        match host_answer(old(rt).mem().shared_input()) {
            Ok(ReturnData::UInt(i)) => r matches Ok(v) && v == i,
            Ok(_) => r matches Err(e) && e@ == guest_failure(
                "Host return value was not a uint as expected"@,
            ),
            Err(x) => r matches Err(e) && e@ == x,
        },
{
    match rt.pop_host_answer() {
        Ok(ReturnValue::UInt(i)) => Ok(i),
        Ok(_) => Err(failure("Host return value was not a uint as expected")),
        Err(e) => Err(e),
    }
}

/// Takes the host's answer out of shared input as a 64-bit signed integer.
pub fn get_host_value_return_as_long(rt: &mut GuestRuntime) -> (r: Result<i64, GuestError>)
    requires
        old(rt).wf(),
    ensures
        final(rt).wf(),
        final(rt).same_setup(old(rt)),
        answer_taken(old(rt), final(rt)),
        match host_answer(old(rt).mem().shared_input()) {
            Ok(ReturnData::Long(i)) => r matches Ok(v) && v == i,
            Ok(_) => r matches Err(e) && e@ == guest_failure(
                "Host return value was not a long as expected"@,
            ),
            Err(x) => r matches Err(e) && e@ == x,
        },
{
    match rt.pop_host_answer() {
        Ok(ReturnValue::Long(i)) => Ok(i),
        Ok(_) => Err(failure("Host return value was not a long as expected")),
        Err(e) => Err(e),
    }
}

/// Takes the host's answer out of shared input as a 64-bit unsigned integer.
pub fn get_host_value_return_as_ulong(rt: &mut GuestRuntime) -> (r: Result<u64, GuestError>)
    requires
        old(rt).wf(),
    ensures
        final(rt).wf(),
        final(rt).same_setup(old(rt)),
        answer_taken(old(rt), final(rt)),
        match host_answer(old(rt).mem().shared_input()) {
            Ok(ReturnData::ULong(i)) => r matches Ok(v) && v == i,
            Ok(_) => r matches Err(e) && e@ == guest_failure(
                "Host return value was not a ulong as expected"@,
            ),
            Err(x) => r matches Err(e) && e@ == x,
        },
{
    match rt.pop_host_answer() {
        Ok(ReturnValue::ULong(i)) => Ok(i),
        Ok(_) => Err(failure("Host return value was not a ulong as expected")),
        Err(e) => Err(e),
    }
}

/// Takes the host's answer out of shared input as a byte string.
pub fn get_host_value_return_as_vecbytes(rt: &mut GuestRuntime) -> (r: Result<Vec<u8>, GuestError>)
    requires
        old(rt).wf(),
    ensures
        final(rt).wf(),
        final(rt).same_setup(old(rt)),
        answer_taken(old(rt), final(rt)),
        match host_answer(old(rt).mem().shared_input()) {
            Ok(ReturnData::VecBytes(b)) => r matches Ok(v) && v@ == b,
            Ok(_) => r matches Err(e) && e@ == guest_failure(
                "Host return value was not an VecBytes as expected"@,
            ),
            Err(x) => r matches Err(e) && e@ == x,
        },
{
    match rt.pop_host_answer() {
        Ok(ReturnValue::VecBytes(b)) => Ok(b),
        Ok(_) => Err(failure("Host return value was not an VecBytes as expected")),
        Err(e) => Err(e),
    }
}


/// The frame of the result `i`, as a guest function hands it back.
pub fn frame_int_result(i: i32) -> (f: Vec<u8>)
    ensures
        f@ == return_frame(ReturnData::Int(i)),
{
    proof {
        lemma_enc_u32_len(i as u32);
    }
    match ReturnValue::Int(i).encode() {
        Ok(f) => f,
        Err(_) => Vec::new(),
    }
}

/// The text that a call brings as its first argument, if it brings one.
pub open spec fn first_text(call: CallData) -> Option<Seq<char>> {
    if call.args().len() > 0 {
        match call.args()[0] {
            ParameterData::String(m) => Some(m),
            _ => None,
        }
    } else {
        None
    }
}

/// Has the host print the text that `function_call` brings as its first argument: leaves
/// the call of `HostPrint` in shared output and says which port to write to. A call
/// that brings no text first is refused and leaves memory as it is.
pub fn print_output_as_guest_function(rt: &mut GuestRuntime, function_call: &FunctionCall) -> (r:
    Result<PortWrite, GuestError>)
    requires
        old(rt).wf(),
    ensures
        final(rt).wf(),
        final(rt).same_setup(old(rt)),
        match first_text(function_call@) {
            Some(m) => host_call_left(
                old(rt),
                final(rt),
                host_call("HostPrint"@, Some(seq![ParameterData::String(m)]), ReturnType::Int),
                port_verdict(r),
            ),
            None => {
                &&& r matches Err(e) && e@ == guest_failure(
                    "Wrong Parameters passed to print_output_as_guest_function"@,
                )
                &&& final(rt).mem().bytes() == old(rt).mem().bytes()
            },
        },
{
    let message = match &function_call.parameters {
        Some(p) => {
            if p.len() > 0 {
                assert(function_call@.args()[0] == p[0]@);
                match &p[0] {
                    ParameterValue::String(m) => Some(m.clone()),
                    _ => None,
                }
            } else {
                None
            }
        },
        None => None,
    };
    match message {
        Some(m) => {
            let mut args: Vec<ParameterValue> = Vec::new();
            args.push(ParameterValue::String(m));
            assert(args.deep_view() =~= seq![ParameterData::String(m@)]);
            call_host_function(rt, "HostPrint", Some(args), ReturnType::Int)
        },
        None => Err(failure("Wrong Parameters passed to print_output_as_guest_function")),
    }
}

/// Takes the host's answer to `HostPrint` out of shared input and makes the result of
/// the guest function of it.
pub fn finish_print_output(rt: &mut GuestRuntime) -> (r: Result<Vec<u8>, GuestError>)
    requires
        old(rt).wf(),
    ensures
        final(rt).wf(),
        final(rt).same_setup(old(rt)),
        answer_taken(old(rt), final(rt)),
        match host_answer(old(rt).mem().shared_input()) {
            Ok(ReturnData::Int(i)) => r matches Ok(f) && f@ == return_frame(ReturnData::Int(i)),
            Ok(_) => r matches Err(e) && e@ == guest_failure(
                "Host return value was not an int as expected"@,
            ),
            Err(x) => r matches Err(e) && e@ == x,
        },
{
    match get_host_value_return_as_int(rt) {
        Ok(i) => Ok(frame_int_result(i)),
        Err(e) => Err(e),
    }
}


/// Asks the host to stop the guest with `code`: empties shared output, so that no
/// message goes with the request, and says which port to write to.
pub fn abort_with_code(rt: &mut GuestRuntime, code: u8) -> (p: PortWrite)
    requires
        old(rt).wf(),
    ensures
        final(rt).wf(),
        final(rt).same_setup(old(rt)),
        p == (PortWrite { port: PORT_ABORT, value: code }),
        final(rt).mem().bytes() == splice(
            old(rt).mem().bytes(),
            old(rt).mem().layout().shared_output_addr as int,
            frame(Seq::empty()),
        ),
        abort_message_of(final(rt).mem().shared_output()) is None,
{
    rt.mem.clear_buffer(Buffer::SharedOutput);
    PortWrite { port: PORT_ABORT, value: code }
}

/// Asks the host to stop the guest with `code` and `message`: leaves the message in
/// shared output and says which port to write to. A message that does not fit shared
/// output is left out.
pub fn abort_with_code_and_message(rt: &mut GuestRuntime, code: u8, message: &str) -> (p:
    PortWrite)
    requires
        old(rt).wf(),
    ensures
        final(rt).wf(),
        final(rt).same_setup(old(rt)),
        p == (PortWrite { port: PORT_ABORT, value: code }),
        ({
            let e = guest_failure(message@);
            if error_frame_fits(e) && error_frame(e).len() <= old(
                rt,
            ).mem().layout().shared_output_capacity {
                &&& final(rt).mem().bytes() == splice(
                    old(rt).mem().bytes(),
                    old(rt).mem().layout().shared_output_addr as int,
                    error_frame(e),
                )
                &&& abort_message_of(final(rt).mem().shared_output()) == Some(message@)
            } else {
                &&& final(rt).mem().bytes() == splice(
                    old(rt).mem().bytes(),
                    old(rt).mem().layout().shared_output_addr as int,
                    frame(Seq::empty()),
                )
                &&& abort_message_of(final(rt).mem().shared_output()) is None
            }
        }),
{
    let e = failure(message);
    match e.encode() {
        Ok(f) => {
            if rt.mem.write_buffer(Buffer::SharedOutput, f.as_slice()) {
                proof {
                    guest_error_round_trip(
                        e@,
                        old(rt).mem().buffer(Buffer::SharedOutput).skip(f@.len() as int),
                    );
                }
                return PortWrite { port: PORT_ABORT, value: code };
            }
        },
        Err(_) => {},
    }
    abort_with_code(rt, code)
}

/// What the guest runs for a call of the host.
#[derive(Debug, PartialEq, Eq)]
pub enum GuestDispatch {
    /// The function that is registered under the name of the call, at this address.
    Registered { function_pointer: u64, call: FunctionCall },
    /// No function is registered under that name: the call goes to
    /// `guest_dispatch_function`.
    Fallback { call: FunctionCall },
}

/// Mathematical content of a [`GuestDispatch`].
pub enum DispatchData {
    Registered { function_pointer: u64, call: CallData },
    Fallback { call: CallData },
}

impl View for GuestDispatch {
    type V = DispatchData;

    open spec fn view(&self) -> DispatchData {
        match self {
            GuestDispatch::Registered { function_pointer, call } => DispatchData::Registered {
                function_pointer: *function_pointer,
                call: call@,
            },
            GuestDispatch::Fallback { call } => DispatchData::Fallback { call: call@ },
        }
    }
}

/// What the guest makes of the call that the host left in `buf`, given the functions
/// `defs` that it offers at the addresses `pointers`.
///
/// What is no call, or a call that does not ask the guest, is a failure of the guest's
/// own. A call of a registered function with the arguments that its definition declares
/// runs that function. A call of a registered function with other arguments is refused
/// with the matching code. A call of a name that is not registered goes to the fallback.
pub open spec fn dispatch_of(defs: Seq<DefinitionData>, pointers: Seq<u64>, buf: Seq<u8>) -> Result<
    DispatchData,
    GuestErrorData,
> {
    match call_of_frame(buf) {
        Ok(call) => if call.function_call_type != FunctionCallType::Guest {
            Err(guest_failure("Unable to deserialize function call from host"@))
        } else {
            match validation(defs, call) {
                Ok(()) => Ok(
                    DispatchData::Registered {
                        function_pointer: pointers[choose|i: int|
                            0 <= i < defs.len() && (#[trigger] defs[i]).function_name
                                == call.function_name],
                        call,
                    },
                ),
                Err(ErrorCode::GuestFunctionNotFound) => Ok(DispatchData::Fallback { call }),
                Err(code) => Err(GuestErrorData { code, message: call.function_name }),
            }
        },
        Err(_) => Err(guest_failure("Unable to deserialize function call from host"@)),
    }
}

/// Reads the call that the host left in shared input and finds what to run for it.
pub fn dispatch_function(rt: &GuestRuntime) -> (r: Result<GuestDispatch, GuestError>)
    requires
        rt.wf(),
    ensures
        r matches Ok(d) ==> dispatch_of(
            rt.guest_funcs().definitions(),
            rt.guest_funcs().handlers(),
            rt.mem().shared_input(),
        ) == Ok::<DispatchData, GuestErrorData>(d@),
        r matches Err(e) ==> dispatch_of(
            rt.guest_funcs().definitions(),
            rt.guest_funcs().handlers(),
            rt.mem().shared_input(),
        ) == Err::<DispatchData, GuestErrorData>(e@),
{
    let call = match FunctionCall::decode(rt.mem.read_buffer(Buffer::SharedInput)) {
        Ok(c) => c,
        Err(_) => return Err(failure("Unable to deserialize function call from host")),
    };
    match call.function_call_type {
        FunctionCallType::Guest => {},
        FunctionCallType::Host => {
            return Err(failure("Unable to deserialize function call from host"));
        },
    }
    match rt.guest_functions.validate(&call) {
        Ok(i) => {
            proof {
                let defs = rt.guest_funcs().definitions();
                let k = choose|k: int|
                    0 <= k < defs.len() && (#[trigger] defs[k]).function_name
                        == call@.function_name;
                lemma_definition_of(defs, k);
                lemma_definition_of(defs, i as int);
            }
            match rt.guest_functions.handler(i) {
                Some(p) => Ok(GuestDispatch::Registered { function_pointer: *p, call }),
                None => Err(failure("Unable to deserialize function call from host")),
            }
        },
        Err(e) => match e.code {
            ErrorCode::GuestFunctionNotFound => Ok(GuestDispatch::Fallback { call }),
            _ => Err(e),
        },
    }
}

/// What the guest does with a call of a name that is not registered, unless it brings a
/// fallback of its own: it reports that the function was not found.
pub fn guest_dispatch_function(function_call: &FunctionCall) -> (r: Result<Vec<u8>, GuestError>)
    ensures
        r matches Err(e) && e@ == (GuestErrorData {
            code: ErrorCode::GuestFunctionNotFound,
            message: function_call@.function_name,
        }),
{
    Err(GuestError::new(ErrorCode::GuestFunctionNotFound, function_call.function_name.clone()))
}

/// Leaves the outcome of a guest function in shared output for the host: its result,
/// or its error. Says whether what was to be left fits there; if not, memory stays as
/// it is.
pub fn complete_guest_call(rt: &mut GuestRuntime, result: Result<Vec<u8>, GuestError>) -> (ok: bool)
    requires
        old(rt).wf(),
    ensures
        final(rt).wf(),
        final(rt).same_setup(old(rt)),
        match result {
            Ok(f) => {
                &&& ok <==> f@.len() <= old(rt).mem().layout().shared_output_capacity
                &&& ok ==> final(rt).mem().bytes() == old(rt).mem().with_buffer(
                    Buffer::SharedOutput,
                    f@,
                )
            },
            Err(e) => {
                &&& ok <==> error_frame_fits(e@) && error_frame(e@).len() <= old(
                    rt,
                ).mem().layout().shared_output_capacity
                &&& ok ==> final(rt).mem().bytes() == old(rt).mem().with_buffer(
                    Buffer::SharedOutput,
                    error_frame(e@),
                ) && guest_error_of(final(rt).mem().shared_output()) == Ok::<
                    GuestErrorData,
                    ErrorData,
                >(e@)
            },
        },
        !ok ==> final(rt).mem().bytes() == old(rt).mem().bytes(),
        final(rt).mem().stack_cookie() == old(rt).mem().stack_cookie(),
        final(rt).mem().shared_input() == old(rt).mem().shared_input(),
{
    let ok = match result {
        Ok(f) => rt.mem.write_buffer(Buffer::SharedOutput, f.as_slice()),
        Err(e) => match e.encode() {
            Ok(f) => {
                let ok = rt.mem.write_buffer(Buffer::SharedOutput, f.as_slice());
                proof {
                    if ok {
                        lemma_reported_error(
                            e@,
                            old(rt).mem().shared_output().skip(f@.len() as int),
                        );
                    }
                }
                ok
            },
            Err(_) => false,
        },
    };
    assert(rt.mem().buffer(Buffer::SharedInput) == old(rt).mem().buffer(Buffer::SharedInput));
    ok
}

} // verus!
