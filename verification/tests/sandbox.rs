use hyperlight_core::error::HyperlightError;
use hyperlight_core::guest::{
    abort_with_code, abort_with_code_and_message, call_host_function, complete_guest_call,
    dispatch_function, finish_print_output, get_host_value_return_as_int, guest_dispatch_function,
    GuestDispatch, GuestFunctionDefinition, GuestRuntime, PortWrite,
};
use hyperlight_core::mem::layout::{GuestMemoryLayout, SandboxMemoryConfiguration};
use hyperlight_core::outb::ExitReason;
use hyperlight_core::registry::{FunctionDefinition, HostFunction};
use hyperlight_core::sandbox::{
    CallState, ExitAction, HostCallDecision, Sandbox, UninitializedSandbox,
};
use hyperlight_core::types::{
    ErrorCode, FunctionCall, FunctionCallType, GuestError, GuestLogData, LogLevel, ParameterType,
    ParameterValue, ReturnType, ReturnValue,
};
use std::cell::RefCell;
use std::rc::Rc;

const COOKIE: [u8; 16] = [0xC0, 1, 2, 3, 4, 5, 6, 7, 8, 9, 10, 11, 12, 13, 14, 0x0C];

const ECHO: u64 = 1;
const PRINT_TWO_ARGS: u64 = 2;

/// What the host runs for `HostPrint`: it keeps the messages and hands back their length.
struct HostPrint {
    messages: Rc<RefCell<Vec<String>>>,
    calls: Rc<RefCell<u32>>,
    answer: Option<Result<ReturnValue, String>>,
}

impl HostFunction for HostPrint {
    fn call(&self, args: Vec<ParameterValue>) -> Result<ReturnValue, String> {
        *self.calls.borrow_mut() += 1;
        if let Some(a) = &self.answer {
            return a.clone();
        }
        match args.first() {
            Some(ParameterValue::String(m)) => {
                self.messages.borrow_mut().push(m.clone());
                Ok(ReturnValue::Int(m.len() as i32))
            },
            _ => Err("HostPrint takes a message".to_string()),
        }
    }
}

struct Setup {
    sandbox: Sandbox<HostPrint>,
    guest: GuestRuntime,
    messages: Rc<RefCell<Vec<String>>>,
    calls: Rc<RefCell<u32>>,
    layout: GuestMemoryLayout,
}

fn layout() -> GuestMemoryLayout {
    GuestMemoryLayout::new(SandboxMemoryConfiguration {
        code_size: 0x100,
        input_data_size: 0x200,
        output_data_size: 0x200,
        heap_size: 0x400,
        stack_size: 0x800,
    })
    .unwrap()
}

fn setup_with(answer: Option<Result<ReturnValue, String>>) -> Setup {
    let layout = layout();
    let messages = Rc::new(RefCell::new(Vec::new()));
    let calls = Rc::new(RefCell::new(0));
    let mut uninit = UninitializedSandbox::new(layout, COOKIE).unwrap();
    uninit
        .register_host_function(
            FunctionDefinition::new(
                "HostPrint".to_string(),
                vec![ParameterType::String],
                ReturnType::Int,
            ),
            HostPrint { messages: messages.clone(), calls: calls.clone(), answer },
        )
        .unwrap();
    let sandbox = uninit.evolve(ExitReason::Halt).unwrap();
    let mut guest = GuestRuntime::from_memory(sandbox.get_mem_mgr().as_slice()).unwrap();
    assert!(guest.register_function(GuestFunctionDefinition {
        function_name: "Echo".to_string(),
        parameter_types: vec![ParameterType::String],
        return_type: ReturnType::String,
        function_pointer: ECHO,
    }));
    assert!(guest.register_function(GuestFunctionDefinition {
        function_name: "PrintTwoArgs".to_string(),
        parameter_types: vec![ParameterType::String, ParameterType::Int],
        return_type: ReturnType::Int,
        function_pointer: PRINT_TWO_ARGS,
    }));
    Setup { sandbox, guest, messages, calls, layout }
}

fn setup() -> Setup {
    setup_with(None)
}

/// The guest takes over memory, as it does when the virtual CPU runs on.
fn enter_guest(s: &mut Setup) {
    assert!(s.guest.load_memory(s.sandbox.get_mem_mgr().as_slice()));
}

/// The host takes over memory, as it does when the virtual CPU stops.
fn leave_guest(s: &mut Setup) {
    let bytes = s.guest.memory().to_vec();
    s.sandbox.load_guest_memory(&bytes).unwrap();
}

fn outb(s: &mut Setup, p: PortWrite) -> Result<ExitAction, HyperlightError> {
    leave_guest(s);
    let r = s.sandbox.handle_exit(ExitReason::IoOut { port: p.port, data: p.value });
    enter_guest(s);
    r
}

fn halt(s: &mut Setup) {
    leave_guest(s);
    assert_eq!(s.sandbox.handle_exit(ExitReason::Halt), Ok(ExitAction::Complete));
}

fn shared_input(s: &Setup) -> Vec<u8> {
    let m = s.sandbox.get_mem_mgr().as_slice();
    m[s.layout.shared_input_addr..s.layout.shared_input_addr + s.layout.shared_input_capacity]
        .to_vec()
}

fn shared_output(s: &Setup) -> Vec<u8> {
    let m = s.sandbox.get_mem_mgr().as_slice();
    m[s.layout.shared_output_addr..s.layout.shared_output_addr + s.layout.shared_output_capacity]
        .to_vec()
}

#[test]
fn echo() {
    let mut s = setup();
    s.sandbox
        .begin_guest_call(
            "Echo".to_string(),
            Some(vec![ParameterValue::String("hello".to_string())]),
            ReturnType::String,
        )
        .unwrap();
    // the request stands in shared input
    let request = FunctionCall::decode(&shared_input(&s)).unwrap();
    assert_eq!(request.function_name, "Echo");
    assert_eq!(request.function_call_type, FunctionCallType::Guest);
    assert_eq!(request.expected_return_type, ReturnType::String);

    enter_guest(&mut s);
    let result = match dispatch_function(&s.guest).unwrap() {
        GuestDispatch::Registered { function_pointer: ECHO, call } => {
            match &call.parameters.as_ref().unwrap()[0] {
                ParameterValue::String(m) => ReturnValue::String(m.clone()).encode().unwrap(),
                _ => panic!("Echo takes a string"),
            }
        },
        other => panic!("unexpected dispatch {:?}", other),
    };
    assert!(complete_guest_call(&mut s.guest, Ok(result)));
    halt(&mut s);

    // the response stands in shared output
    assert_eq!(
        ReturnValue::decode(&shared_output(&s)),
        Ok(ReturnValue::String("hello".to_string()))
    );
    assert_eq!(s.sandbox.finish_guest_call(false), Ok(ReturnValue::String("hello".to_string())));
    assert!(!s.sandbox.get_executing_guest_call());
    assert!(!s.sandbox.is_poisoned());
    assert_eq!(s.sandbox.get_num_runs(), 1);
    assert_eq!(*s.calls.borrow(), 0);
}

#[test]
fn printed_side_effect() {
    let mut s = setup();
    s.sandbox
        .begin_guest_call(
            "PrintTwoArgs".to_string(),
            Some(vec![ParameterValue::String("x".to_string()), ParameterValue::Int(42)]),
            ReturnType::Int,
        )
        .unwrap();
    enter_guest(&mut s);
    let message = match dispatch_function(&s.guest).unwrap() {
        GuestDispatch::Registered { function_pointer: PRINT_TWO_ARGS, call } => {
            let p = call.parameters.unwrap();
            match (&p[0], &p[1]) {
                (ParameterValue::String(a), ParameterValue::Int(b)) => {
                    format!("Message: arg1:{} arg2:{}.", a, b)
                },
                _ => panic!("PrintTwoArgs takes a string and an int"),
            }
        },
        other => panic!("unexpected dispatch {:?}", other),
    };
    let port = call_host_function(
        &mut s.guest,
        "HostPrint",
        Some(vec![ParameterValue::String(message)]),
        ReturnType::Int,
    )
    .unwrap();
    assert_eq!(port, PortWrite { port: 101, value: 0 });
    assert_eq!(outb(&mut s, port), Ok(ExitAction::Resume));
    let result = finish_print_output(&mut s.guest).unwrap();
    assert!(complete_guest_call(&mut s.guest, Ok(result)));
    halt(&mut s);

    assert_eq!(*s.messages.borrow(), vec!["Message: arg1:x arg2:42.".to_string()]);
    assert_eq!(*s.calls.borrow(), 1);
    assert_eq!(s.sandbox.finish_guest_call(false), Ok(ReturnValue::Int(24)));
}

#[test]
fn arity_mismatch() {
    let mut s = setup();
    s.sandbox.begin_guest_call("Echo".to_string(), None, ReturnType::Int).unwrap();
    enter_guest(&mut s);
    let port = call_host_function(
        &mut s.guest,
        "HostPrint",
        Some(vec![ParameterValue::Int(1)]),
        ReturnType::Int,
    )
    .unwrap();
    assert_eq!(outb(&mut s, port), Ok(ExitAction::Resume));
    // the host has answered with the error, and has run nothing
    assert_eq!(
        GuestError::decode(&shared_input(&s)),
        Ok(GuestError::new(
            ErrorCode::GuestFunctionParameterTypeMismatch,
            "HostPrint".to_string()
        ))
    );
    assert_eq!(*s.calls.borrow(), 0);
    assert!(s.messages.borrow().is_empty());
    // the guest sees it
    assert_eq!(
        get_host_value_return_as_int(&mut s.guest),
        Err(GuestError::new(
            ErrorCode::GuestFunctionParameterTypeMismatch,
            "HostPrint".to_string()
        ))
    );
    // the sandbox goes on
    assert!(!s.sandbox.is_poisoned());
    assert!(s.sandbox.get_executing_guest_call());
    assert!(complete_guest_call(&mut s.guest, Ok(ReturnValue::Int(0).encode().unwrap())));
    halt(&mut s);
    assert_eq!(s.sandbox.finish_guest_call(false), Ok(ReturnValue::Int(0)));
    assert!(s.sandbox.begin_guest_call("Echo".to_string(), None, ReturnType::Int).is_ok());
}

#[test]
fn unknown_host_function_and_wrong_arity_are_answered_with_their_codes() {
    let mut s = setup();
    s.sandbox.begin_guest_call("Echo".to_string(), None, ReturnType::Int).unwrap();
    enter_guest(&mut s);
    let port = call_host_function(&mut s.guest, "Missing", None, ReturnType::Void).unwrap();
    assert_eq!(outb(&mut s, port), Ok(ExitAction::Resume));
    assert_eq!(
        get_host_value_return_as_int(&mut s.guest),
        Err(GuestError::new(ErrorCode::GuestFunctionNotFound, "Missing".to_string()))
    );
    let port = call_host_function(
        &mut s.guest,
        "HostPrint",
        Some(vec![ParameterValue::String("a".into()), ParameterValue::String("b".into())]),
        ReturnType::Int,
    )
    .unwrap();
    assert_eq!(outb(&mut s, port), Ok(ExitAction::Resume));
    assert_eq!(
        get_host_value_return_as_int(&mut s.guest),
        Err(GuestError::new(
            ErrorCode::GuestFunctionIncorrectNumberOfParameters,
            "HostPrint".to_string()
        ))
    );
    assert_eq!(*s.calls.borrow(), 0);
}

#[test]
fn stack_overflow() {
    let mut s = setup();
    s.sandbox
        .begin_guest_call(
            "StackOverflow".to_string(),
            Some(vec![ParameterValue::Int(128)]),
            ReturnType::Int,
        )
        .unwrap();
    enter_guest(&mut s);
    // the guest runs over the end of its stack and into the cookie
    let mut bytes = s.guest.memory().to_vec();
    for b in &mut bytes[s.layout.stack_cookie_addr + 8..s.layout.stack_limit + 64] {
        *b = 0xEE;
    }
    assert!(s.guest.load_memory(&bytes));
    let port = call_host_function(
        &mut s.guest,
        "HostPrint",
        Some(vec![ParameterValue::String("deep".to_string())]),
        ReturnType::Int,
    )
    .unwrap();
    // the overrun outweighs what the host function handed back
    assert_eq!(outb(&mut s, port), Err(HyperlightError::StackOverflow));
    assert_eq!(*s.calls.borrow(), 1);
    assert!(s.sandbox.is_poisoned());
    assert!(!s.sandbox.get_executing_guest_call());
    assert_eq!(
        s.sandbox.begin_guest_call("Echo".to_string(), None, ReturnType::Int),
        Err(HyperlightError::SandboxPoisoned)
    );
    // a reset brings memory and cookie back
    assert_eq!(s.sandbox.reset(), Ok(()));
    assert!(!s.sandbox.is_poisoned());
    assert!(s.sandbox.get_mem_mgr().check_stack_guard(&COOKIE));
    assert!(s.sandbox.begin_guest_call("Echo".to_string(), None, ReturnType::Int).is_ok());
}

#[test]
fn stack_overflow_is_found_when_the_guest_halts() {
    let mut s = setup();
    s.sandbox.begin_guest_call("Echo".to_string(), None, ReturnType::Int).unwrap();
    enter_guest(&mut s);
    assert!(complete_guest_call(&mut s.guest, Ok(ReturnValue::Int(1).encode().unwrap())));
    let mut bytes = s.guest.memory().to_vec();
    bytes[s.layout.stack_cookie_addr + 15] ^= 0xFF;
    assert!(s.guest.load_memory(&bytes));
    halt(&mut s);
    assert_eq!(s.sandbox.finish_guest_call(true), Err(HyperlightError::StackOverflow));
    assert!(s.sandbox.is_poisoned());
    assert!(s.sandbox.needs_state_reset());
}

#[test]
fn abort() {
    let mut s = setup();
    s.sandbox
        .begin_guest_call(
            "test_abort".to_string(),
            Some(vec![ParameterValue::Int(7)]),
            ReturnType::Void,
        )
        .unwrap();
    enter_guest(&mut s);
    let port = abort_with_code(&mut s.guest, 7);
    assert_eq!(port, PortWrite { port: 102, value: 7 });
    assert_eq!(
        outb(&mut s, port),
        Err(HyperlightError::GuestAborted { code: 7, message: None })
    );
    assert!(s.sandbox.is_poisoned());
    assert!(!s.sandbox.get_executing_guest_call());
    // no return frame was left, and none is asked for
    assert_eq!(s.sandbox.finish_guest_call(false), Err(HyperlightError::NoGuestCallInProgress));
}

#[test]
fn abort_with_message() {
    let mut s = setup();
    s.sandbox.begin_guest_call("test_abort".to_string(), None, ReturnType::Void).unwrap();
    enter_guest(&mut s);
    let port = abort_with_code_and_message(&mut s.guest, 9, "out of luck");
    assert_eq!(port, PortWrite { port: 102, value: 9 });
    assert_eq!(
        outb(&mut s, port),
        Err(HyperlightError::GuestAborted { code: 9, message: Some("out of luck".to_string()) })
    );
}

#[test]
fn abort_with_message_that_does_not_fit_goes_without_it() {
    let mut s = setup();
    s.sandbox.begin_guest_call("test_abort".to_string(), None, ReturnType::Void).unwrap();
    enter_guest(&mut s);
    let long = "m".repeat(s.layout.shared_output_capacity);
    let port = abort_with_code_and_message(&mut s.guest, 9, &long);
    assert_eq!(outb(&mut s, port), Err(HyperlightError::GuestAborted { code: 9, message: None }));
}

#[test]
fn concurrent_calls() {
    let mut s = setup();
    assert_eq!(
        s.sandbox.begin_guest_call(
            "Echo".to_string(),
            Some(vec![ParameterValue::String("first".to_string())]),
            ReturnType::String
        ),
        Ok(())
    );
    let state = *s.sandbox_state();
    let memory = s.sandbox.get_mem_mgr().as_slice().to_vec();
    assert_eq!(
        s.sandbox.begin_guest_call(
            "Echo".to_string(),
            Some(vec![ParameterValue::String("second".to_string())]),
            ReturnType::String
        ),
        Err(HyperlightError::GuestCallAlreadyInProgress)
    );
    // the call that lost has touched nothing
    assert_eq!(*s.sandbox_state(), state);
    assert_eq!(s.sandbox.get_mem_mgr().as_slice(), &memory[..]);
    let request = FunctionCall::decode(&shared_input(&s)).unwrap();
    assert_eq!(request.parameters, Some(vec![ParameterValue::String("first".to_string())]));
    // the call that won runs to its end
    enter_guest(&mut s);
    assert!(complete_guest_call(
        &mut s.guest,
        Ok(ReturnValue::String("first".to_string()).encode().unwrap())
    ));
    halt(&mut s);
    assert_eq!(s.sandbox.finish_guest_call(false), Ok(ReturnValue::String("first".to_string())));
    // and then the next may begin
    assert_eq!(s.sandbox.begin_guest_call("Echo".to_string(), None, ReturnType::String), Ok(()));
}

impl Setup {
    fn sandbox_state(&self) -> Box<CallState> {
        Box::new(CallState {
            executing_guest_call: self.sandbox.get_executing_guest_call(),
            needs_state_reset: self.sandbox.needs_state_reset(),
            num_runs: self.sandbox.get_num_runs(),
            poisoned: self.sandbox.is_poisoned(),
            unknown_port_seen: false,
            expected_return_type: ReturnType::Void,
        })
    }
}

#[test]
fn returned_type_matches_the_declared_type() {
    let mut s = setup();
    s.sandbox.begin_guest_call("Echo".to_string(), None, ReturnType::String).unwrap();
    enter_guest(&mut s);
    assert!(complete_guest_call(&mut s.guest, Ok(ReturnValue::Int(5).encode().unwrap())));
    halt(&mut s);
    assert_eq!(
        s.sandbox.finish_guest_call(false),
        Err(HyperlightError::ReturnValueConversionFailure {
            expected: ReturnType::String,
            actual: ReturnType::Int,
        })
    );
    assert!(s.sandbox.is_poisoned());
}

#[test]
fn cookie_is_in_place_after_calls_that_end_well() {
    let mut s = setup();
    for round in 0..5 {
        s.sandbox
            .begin_guest_call("Echo".to_string(), None, ReturnType::Int)
            .unwrap();
        enter_guest(&mut s);
        let port = call_host_function(
            &mut s.guest,
            "HostPrint",
            Some(vec![ParameterValue::String(format!("round {}", round))]),
            ReturnType::Int,
        )
        .unwrap();
        assert_eq!(outb(&mut s, port), Ok(ExitAction::Resume));
        let result = finish_print_output(&mut s.guest).unwrap();
        assert!(complete_guest_call(&mut s.guest, Ok(result)));
        halt(&mut s);
        assert_eq!(s.sandbox.finish_guest_call(round % 2 == 0), Ok(ReturnValue::Int(7)));
        let m = s.sandbox.get_mem_mgr().as_slice();
        assert_eq!(&m[s.layout.stack_cookie_addr..s.layout.stack_cookie_addr + 16], &COOKIE);
        assert_eq!(s.sandbox.needs_state_reset(), round % 2 != 0);
    }
    assert_eq!(s.sandbox.get_num_runs(), 5);
    assert_eq!(s.messages.borrow().len(), 5);
}

#[test]
fn reset_after_a_call_restores_the_snapshot() {
    let mut s = setup();
    let snapshot = s.sandbox.get_mem_mgr().as_slice().to_vec();
    s.sandbox.begin_guest_call("Echo".to_string(), None, ReturnType::Int).unwrap();
    assert!(s.sandbox.needs_state_reset());
    enter_guest(&mut s);
    assert!(complete_guest_call(&mut s.guest, Ok(ReturnValue::Int(1).encode().unwrap())));
    halt(&mut s);
    assert_ne!(s.sandbox.get_mem_mgr().as_slice(), &snapshot[..]);
    assert_eq!(s.sandbox.finish_guest_call(true), Ok(ReturnValue::Int(1)));
    assert_eq!(s.sandbox.get_mem_mgr().as_slice(), &snapshot[..]);
    assert!(!s.sandbox.needs_state_reset());
}

#[test]
fn reset_is_refused_while_a_call_is_in_flight_or_without_a_snapshot() {
    let mut s = setup();
    s.sandbox.begin_guest_call("Echo".to_string(), None, ReturnType::Int).unwrap();
    assert_eq!(s.sandbox.reset(), Err(HyperlightError::GuestCallAlreadyInProgress));
    let uninit: UninitializedSandbox<HostPrint> = UninitializedSandbox::new(layout(), COOKIE).unwrap();
    let mut bare = Sandbox::from(uninit);
    assert_eq!(bare.reset(), Err(HyperlightError::NoSnapshot));
    assert_eq!(bare.get_num_runs(), 0);
    assert!(!bare.get_executing_guest_call());
    assert!(!bare.needs_state_reset());
    assert_eq!(bare.get_stack_cookie(), &COOKIE);
    assert_eq!(bare.get_host_funcs().len(), 0);
}

#[test]
fn call_that_does_not_fit_shared_input_does_not_begin() {
    let mut s = setup();
    let before = s.sandbox.get_mem_mgr().as_slice().to_vec();
    let big = vec![0u8; s.layout.shared_input_capacity];
    assert_eq!(
        s.sandbox.begin_guest_call(
            "Echo".to_string(),
            Some(vec![ParameterValue::VecBytes(big)]),
            ReturnType::Int
        ),
        Err(HyperlightError::FrameTooLarge)
    );
    assert!(!s.sandbox.get_executing_guest_call());
    assert!(!s.sandbox.is_poisoned());
    assert!(!s.sandbox.needs_state_reset());
    assert_eq!(s.sandbox.get_num_runs(), 0);
    assert_eq!(s.sandbox.get_mem_mgr().as_slice(), &before[..]);
}

#[test]
fn exits_that_end_the_guest() {
    let cases = vec![
        (ExitReason::MmioRead { addr: 0xDEAD, size: 4 }, HyperlightError::GuestMemoryFault { addr: 0xDEAD }),
        (
            ExitReason::MmioWrite { addr: 0xBEEF, size: 8, data: 1 },
            HyperlightError::GuestMemoryFault { addr: 0xBEEF },
        ),
        (
            ExitReason::InternalError { subcode: 3 },
            HyperlightError::HypervisorInternalError { subcode: 3 },
        ),
        (ExitReason::Cancelled, HyperlightError::GuestCancelled),
    ];
    for (exit, error) in cases {
        let mut s = setup();
        s.sandbox.begin_guest_call("Echo".to_string(), None, ReturnType::Int).unwrap();
        assert_eq!(s.sandbox.handle_exit(exit), Err(error));
        assert!(s.sandbox.is_poisoned());
        assert!(!s.sandbox.get_executing_guest_call());
        assert_eq!(
            s.sandbox.begin_guest_call("Echo".to_string(), None, ReturnType::Int),
            Err(HyperlightError::SandboxPoisoned)
        );
    }
}

#[test]
fn unknown_port_is_ignored_with_one_warning() {
    let mut s = setup();
    assert_eq!(s.sandbox.handle_outb(100, 0), Ok(ExitAction::IgnoredPort { first: true }));
    assert_eq!(s.sandbox.handle_outb(5, 9), Ok(ExitAction::IgnoredPort { first: false }));
    assert_eq!(
        s.sandbox.handle_exit(ExitReason::IoOut { port: 103, data: 0 }),
        Ok(ExitAction::IgnoredPort { first: false })
    );
    assert!(!s.sandbox.is_poisoned());
}

#[test]
fn log_record_is_handed_out() {
    let mut s = setup();
    let record = GuestLogData::new(LogLevel::Error, "simpleguest".to_string(), "boom".to_string());
    enter_guest(&mut s);
    assert!(complete_guest_call(&mut s.guest, Ok(record.encode().unwrap())));
    assert_eq!(outb(&mut s, PortWrite { port: 99, value: 0 }), Ok(ExitAction::ForwardLog(record)));
    // what is no log record fails the turn
    assert!(complete_guest_call(&mut s.guest, Ok(ReturnValue::Void.encode().unwrap())));
    assert_eq!(
        outb(&mut s, PortWrite { port: 99, value: 0 }),
        Err(HyperlightError::InvalidEncoding)
    );
}

#[test]
fn request_that_cannot_be_read_fails_the_turn() {
    let mut s = setup();
    s.sandbox.begin_guest_call("Echo".to_string(), None, ReturnType::Int).unwrap();
    // shared output holds the empty frame
    assert_eq!(s.sandbox.handle_outb(101, 0), Err(HyperlightError::InvalidEncoding));
    // a call that asks the guest is no request to the host
    enter_guest(&mut s);
    let wrong = FunctionCall::new("HostPrint".to_string(), None, FunctionCallType::Guest, ReturnType::Int);
    assert!(complete_guest_call(&mut s.guest, Ok(wrong.encode().unwrap())));
    leave_guest(&mut s);
    assert_eq!(s.sandbox.handle_outb(101, 0), Err(HyperlightError::InvalidEncoding));
    assert_eq!(s.sandbox.decide_host_call(), Err(HyperlightError::InvalidEncoding));
    // a frame that claims more than the buffer holds
    let mut bytes = s.sandbox.get_mem_mgr().as_slice().to_vec();
    bytes[s.layout.shared_output_addr..s.layout.shared_output_addr + 4]
        .copy_from_slice(&[0xFF, 0xFF, 0, 0]);
    s.sandbox.load_guest_memory(&bytes).unwrap();
    assert_eq!(s.sandbox.handle_outb(101, 0), Err(HyperlightError::FrameTooLarge));
    assert_eq!(*s.calls.borrow(), 0);
}

#[test]
fn decision_names_the_function_and_its_arguments() {
    let mut s = setup();
    enter_guest(&mut s);
    let port = call_host_function(
        &mut s.guest,
        "HostPrint",
        Some(vec![ParameterValue::String("m".to_string())]),
        ReturnType::Int,
    )
    .unwrap();
    assert_eq!(port.port, 101);
    leave_guest(&mut s);
    assert_eq!(
        s.sandbox.decide_host_call(),
        Ok(HostCallDecision::Invoke {
            index: 0,
            declared: ReturnType::Int,
            args: vec![ParameterValue::String("m".to_string())],
        })
    );
    enter_guest(&mut s);
    call_host_function(&mut s.guest, "Nope", None, ReturnType::Int).unwrap();
    leave_guest(&mut s);
    assert_eq!(
        s.sandbox.decide_host_call(),
        Ok(HostCallDecision::Reject(GuestError::new(
            ErrorCode::GuestFunctionNotFound,
            "Nope".to_string()
        )))
    );
    assert_eq!(*s.calls.borrow(), 0);
}

#[test]
fn host_function_that_hands_back_another_type_is_a_conversion_failure() {
    let mut s = setup_with(Some(Ok(ReturnValue::String("not an int".to_string()))));
    s.sandbox.begin_guest_call("Echo".to_string(), None, ReturnType::Int).unwrap();
    enter_guest(&mut s);
    let port = call_host_function(
        &mut s.guest,
        "HostPrint",
        Some(vec![ParameterValue::String("m".to_string())]),
        ReturnType::Int,
    )
    .unwrap();
    let before = shared_input(&s);
    assert_eq!(
        outb(&mut s, port),
        Err(HyperlightError::ReturnValueConversionFailure {
            expected: ReturnType::Int,
            actual: ReturnType::String,
        })
    );
    assert_eq!(shared_input(&s), before);
    assert_eq!(*s.calls.borrow(), 1);
}

#[test]
fn host_function_that_fails_leaves_its_error_for_the_guest() {
    let mut s = setup_with(Some(Err("printer on fire".to_string())));
    s.sandbox.begin_guest_call("Echo".to_string(), None, ReturnType::Int).unwrap();
    enter_guest(&mut s);
    let port = call_host_function(
        &mut s.guest,
        "HostPrint",
        Some(vec![ParameterValue::String("m".to_string())]),
        ReturnType::Int,
    )
    .unwrap();
    assert_eq!(
        outb(&mut s, port),
        Err(HyperlightError::OutBError {
            code: ErrorCode::OutbError,
            host_error: "printer on fire".to_string(),
        })
    );
    assert!(s.sandbox.is_poisoned());
    let left = GuestError::new(ErrorCode::OutbError, "printer on fire".to_string());
    assert_eq!(GuestError::decode(&shared_input(&s)), Ok(left.clone()));
    assert_eq!(s.sandbox.get_mem_mgr().get_host_error(), Ok(Some(left.clone())));
    // the guest finds the error in place of an answer
    assert_eq!(s.guest.pop_host_answer(), Err(left));
}

#[test]
fn failed_call_out_of_the_guest_counts_while_the_hosts_error_stands() {
    let mut s = setup();
    let host_error = GuestError::new(ErrorCode::OutbError, "printer on fire".to_string());
    s.sandbox.reject_host_call(&host_error).unwrap();
    enter_guest(&mut s);
    // the guest gives up without taking the answer
    assert!(complete_guest_call(
        &mut s.guest,
        Err(GuestError::new(ErrorCode::OutbError, "host call failed".to_string()))
    ));
    leave_guest(&mut s);
    assert_eq!(
        s.sandbox.check_for_guest_error(),
        Err(HyperlightError::OutBError {
            code: ErrorCode::OutbError,
            host_error: "printer on fire".to_string(),
        })
    );
    // once the answer is taken, the host's error stands no longer
    enter_guest(&mut s);
    assert!(s.guest.pop_host_answer().is_err());
    leave_guest(&mut s);
    assert_eq!(s.sandbox.check_for_guest_error(), Ok(()));
}

#[test]
fn finish_host_call_for_every_outcome() {
    let mut s = setup();
    assert_eq!(s.sandbox.finish_host_call(ReturnType::Long, Ok(ReturnValue::Long(3))), Ok(()));
    assert_eq!(ReturnValue::decode(&shared_input(&s)), Ok(ReturnValue::Long(3)));
    assert_eq!(
        s.sandbox.finish_host_call(ReturnType::Void, Ok(ReturnValue::Long(3))),
        Err(HyperlightError::ReturnValueConversionFailure {
            expected: ReturnType::Void,
            actual: ReturnType::Long,
        })
    );
    let big = vec![0u8; s.layout.shared_input_capacity];
    assert_eq!(
        s.sandbox.finish_host_call(ReturnType::VecBytes, Ok(ReturnValue::VecBytes(big))),
        Err(HyperlightError::FrameTooLarge)
    );
    assert_eq!(ReturnValue::decode(&shared_input(&s)), Ok(ReturnValue::Long(3)));
    let long = "e".repeat(s.layout.shared_input_capacity);
    assert_eq!(
        s.sandbox.finish_host_call(ReturnType::Void, Err(long)),
        Err(HyperlightError::FrameTooLarge)
    );
    assert_eq!(ReturnValue::decode(&shared_input(&s)), Ok(ReturnValue::Long(3)));
    assert_eq!(s.sandbox.check_for_guest_error(), Ok(()));
    assert_eq!(
        s.sandbox.finish_host_call(ReturnType::Void, Err("no".to_string())),
        Err(HyperlightError::OutBError {
            code: ErrorCode::OutbError,
            host_error: "no".to_string(),
        })
    );
    assert_eq!(
        GuestError::decode(&shared_input(&s)),
        Ok(GuestError::new(ErrorCode::OutbError, "no".to_string()))
    );
    assert_eq!(
        s.sandbox.reject_host_call(&GuestError::new(ErrorCode::UnknownError, "why".to_string())),
        Ok(())
    );
    assert_eq!(
        GuestError::decode(&shared_input(&s)),
        Ok(GuestError::new(ErrorCode::UnknownError, "why".to_string()))
    );
}

#[test]
fn guest_errors_are_told_apart() {
    let cases = vec![
        (ErrorCode::NoError, Ok(())),
        (ErrorCode::StackOverflow, Err(HyperlightError::StackOverflow)),
        (
            ErrorCode::GuestFunctionNotFound,
            Err(HyperlightError::GuestError {
                code: ErrorCode::GuestFunctionNotFound,
                message: "what".to_string(),
            }),
        ),
        (
            ErrorCode::MallocFailed,
            Err(HyperlightError::GuestError {
                code: ErrorCode::MallocFailed,
                message: "what".to_string(),
            }),
        ),
        // a failed call out of the guest counts only if the host left its error
        (ErrorCode::OutbError, Ok(())),
    ];
    for (code, expected) in cases {
        let mut s = setup();
        enter_guest(&mut s);
        assert!(complete_guest_call(&mut s.guest, Err(GuestError::new(code, "what".to_string()))));
        leave_guest(&mut s);
        assert_eq!(s.sandbox.check_for_guest_error(), expected);
    }
}

#[test]
fn guest_error_ends_the_call_as_a_failure() {
    let mut s = setup();
    s.sandbox.begin_guest_call("Missing".to_string(), None, ReturnType::Int).unwrap();
    enter_guest(&mut s);
    let outcome = match dispatch_function(&s.guest).unwrap() {
        GuestDispatch::Fallback { call } => guest_dispatch_function(&call),
        other => panic!("unexpected dispatch {:?}", other),
    };
    assert!(complete_guest_call(&mut s.guest, outcome));
    halt(&mut s);
    assert_eq!(
        s.sandbox.finish_guest_call(false),
        Err(HyperlightError::GuestError {
            code: ErrorCode::GuestFunctionNotFound,
            message: "Missing".to_string(),
        })
    );
    assert!(s.sandbox.is_poisoned());
}

#[test]
fn unreadable_shared_output_fails_the_check() {
    let mut s = setup();
    let mut bytes = s.sandbox.get_mem_mgr().as_slice().to_vec();
    bytes[s.layout.shared_output_addr..s.layout.shared_output_addr + 6]
        .copy_from_slice(&[2, 0, 0, 0, 3, 99]);
    s.sandbox.load_guest_memory(&bytes).unwrap();
    assert_eq!(s.sandbox.check_for_guest_error(), Err(HyperlightError::InvalidEncoding));
    bytes[s.layout.shared_output_addr..s.layout.shared_output_addr + 4]
        .copy_from_slice(&[0xFF, 0xFF, 0xFF, 0]);
    s.sandbox.load_guest_memory(&bytes).unwrap();
    assert_eq!(s.sandbox.check_for_guest_error(), Err(HyperlightError::FrameTooLarge));
}

#[test]
fn finishing_without_a_call_does_nothing() {
    let mut s = setup();
    let before = s.sandbox.get_mem_mgr().as_slice().to_vec();
    assert_eq!(s.sandbox.finish_guest_call(true), Err(HyperlightError::NoGuestCallInProgress));
    assert!(!s.sandbox.is_poisoned());
    assert_eq!(s.sandbox.get_mem_mgr().as_slice(), &before[..]);
}

#[test]
fn flags_and_counters() {
    let mut s = setup();
    s.sandbox.set_needs_state_reset(true);
    assert!(s.sandbox.needs_state_reset());
    s.sandbox.set_needs_state_reset(false);
    assert!(!s.sandbox.needs_state_reset());
    s.sandbox.increase_num_runs();
    s.sandbox.increase_num_runs();
    assert_eq!(s.sandbox.get_num_runs(), 2);
    *s.sandbox.get_executing_guest_call_mut() = true;
    assert!(s.sandbox.get_executing_guest_call());
    assert_eq!(
        s.sandbox.begin_guest_call("Echo".to_string(), None, ReturnType::Int),
        Err(HyperlightError::GuestCallAlreadyInProgress)
    );
    *s.sandbox.get_executing_guest_call_mut() = false;
    s.sandbox.get_mem_mgr_mut().write_response_from_host_method_call(&ReturnValue::Int(4)).unwrap();
    assert_eq!(ReturnValue::decode(&shared_input(&s)), Ok(ReturnValue::Int(4)));
}

#[test]
fn result_of_an_earlier_call_is_not_handed_out_again() {
    let mut s = setup();
    s.sandbox.begin_guest_call("Echo".to_string(), None, ReturnType::Int).unwrap();
    enter_guest(&mut s);
    assert!(complete_guest_call(&mut s.guest, Ok(ReturnValue::Int(1).encode().unwrap())));
    halt(&mut s);
    assert_eq!(s.sandbox.finish_guest_call(false), Ok(ReturnValue::Int(1)));
    // the next call begins with an empty shared output
    s.sandbox.begin_guest_call("Echo".to_string(), None, ReturnType::Int).unwrap();
    assert_eq!(&shared_output(&s)[..4], &[0, 0, 0, 0]);
    enter_guest(&mut s);
    halt(&mut s);
    assert_eq!(s.sandbox.finish_guest_call(false), Err(HyperlightError::InvalidEncoding));
}
