use hyperlight_core::error::HyperlightError;
use hyperlight_core::hypervisor::regs::Regs;
use hyperlight_core::mem::layout::{GuestMemoryLayout, SandboxMemoryConfiguration};
use hyperlight_core::outb::{ExitReason, OutBAction};
use hyperlight_core::registry::{FunctionDefinition, HostFunction};
use hyperlight_core::sandbox::UninitializedSandbox;
use hyperlight_core::types::{ParameterType, ParameterValue, ReturnType, ReturnValue};

struct Nothing;

impl HostFunction for Nothing {
    fn call(&self, _args: Vec<ParameterValue>) -> Result<ReturnValue, String> {
        Ok(ReturnValue::Void)
    }
}

const COOKIE: [u8; 16] = [7; 16];

fn layout() -> GuestMemoryLayout {
    GuestMemoryLayout::new(SandboxMemoryConfiguration {
        code_size: 0x200,
        input_data_size: 0x40,
        output_data_size: 0x40,
        heap_size: 0,
        stack_size: 0x400,
    })
    .unwrap()
}

fn uninit() -> UninitializedSandbox<Nothing> {
    UninitializedSandbox::new(layout(), COOKIE).unwrap()
}

fn definition(name: &str) -> FunctionDefinition {
    FunctionDefinition::new(name.to_string(), vec![ParameterType::Int], ReturnType::Void)
}

#[test]
fn new_sandbox_holds_header_and_cookie() {
    let u = uninit();
    let l = layout();
    let m = u.get_mem_mgr();
    assert_eq!(GuestMemoryLayout::from_peb(m.as_slice()), Some((0, l)));
    assert_eq!(&m.as_slice()[l.stack_cookie_addr..l.stack_cookie_addr + 16], &COOKIE);
    assert_eq!(u.get_stack_cookie(), &COOKIE);
    assert_eq!(u.get_host_funcs().len(), 0);
    let mut bad = l;
    bad.stack_base = bad.stack_limit - 1;
    assert!(UninitializedSandbox::<Nothing>::new(bad, COOKIE).is_none());
}

#[test]
fn host_functions_are_registered_before_the_guest_runs() {
    let mut u = uninit();
    assert_eq!(u.register_host_function(definition("A"), Nothing), Ok(()));
    assert_eq!(u.register_host_function(definition("B"), Nothing), Ok(()));
    assert_eq!(
        u.register_host_function(definition("A"), Nothing),
        Err(HyperlightError::DuplicateHostFunction { name: "A".to_string() })
    );
    assert_eq!(u.get_host_funcs().len(), 2);
    let s = u.evolve(ExitReason::Halt).unwrap();
    assert_eq!(s.get_host_funcs().len(), 2);
    assert_eq!(s.get_host_funcs().find(&"B".to_string()), Some(1));
}

#[test]
fn evolve_takes_the_snapshot() {
    let mut u = uninit();
    let l = layout();
    let mut bytes = u.get_mem_mgr().as_slice().to_vec();
    bytes[l.code_addr] = 0x99;
    u.load_guest_memory(&bytes).unwrap();
    let mut s = u.evolve(ExitReason::Halt).unwrap();
    assert_eq!(s.get_mem_mgr().as_slice(), &bytes[..]);
    s.get_mem_mgr_mut().write_response_from_host_method_call(&ReturnValue::Int(1)).unwrap();
    assert_ne!(s.get_mem_mgr().as_slice(), &bytes[..]);
    s.reset().unwrap();
    assert_eq!(s.get_mem_mgr().as_slice(), &bytes[..]);
}

#[test]
fn only_a_halt_ends_initialization_well() {
    let cases = vec![
        (
            ExitReason::IoOut { port: 101, data: 3 },
            HyperlightError::UnexpectedOutB { port: 101, data: 3 },
        ),
        (ExitReason::MmioRead { addr: 5, size: 1 }, HyperlightError::GuestMemoryFault { addr: 5 }),
        (
            ExitReason::MmioWrite { addr: 6, size: 1, data: 0 },
            HyperlightError::GuestMemoryFault { addr: 6 },
        ),
        (
            ExitReason::InternalError { subcode: 1 },
            HyperlightError::HypervisorInternalError { subcode: 1 },
        ),
        (ExitReason::Cancelled, HyperlightError::GuestCancelled),
    ];
    for (exit, error) in cases {
        assert_eq!(uninit().evolve(exit).err(), Some(error));
    }
}

#[test]
fn overrun_stack_ends_initialization() {
    let mut u = uninit();
    let l = layout();
    let mut bytes = u.get_mem_mgr().as_slice().to_vec();
    bytes[l.stack_cookie_addr] = 0;
    u.load_guest_memory(&bytes).unwrap();
    assert_eq!(u.evolve(ExitReason::Halt).err(), Some(HyperlightError::StackOverflow));
}

#[test]
fn guest_image_is_loaded() {
    let mut u = uninit();
    let l = layout();
    assert_eq!(u.load_guest_image(&[1, 2, 3, 4]), Ok(()));
    assert_eq!(&u.get_mem_mgr().as_slice()[l.code_addr..l.code_addr + 4], &[1, 2, 3, 4]);
    assert_eq!(
        u.load_guest_image(&vec![0; l.code_size + 1]),
        Err(HyperlightError::MemorySizeMismatch)
    );
    assert_eq!(&u.get_mem_mgr().as_slice()[l.code_addr..l.code_addr + 4], &[1, 2, 3, 4]);
    assert_eq!(
        u.load_guest_memory(&[0; 16]),
        Err(HyperlightError::MemorySizeMismatch)
    );
}

#[test]
fn guest_starts_from_its_entry_point() {
    let u = uninit();
    let l = layout();
    let base = 0x20_0000u64;
    assert_eq!(
        u.initial_registers(base, 0x10),
        Some(Regs::initial(base + l.code_addr as u64 + 0x10, base + l.stack_base as u64))
    );
    assert_eq!(u.initial_registers(base, l.code_size as u64), None);
    assert_eq!(u.initial_registers(u64::MAX - 0x100, 0), None);
    assert_eq!(
        u.initial_registers(u64::MAX - l.total_size as u64, 0).map(|r| r.rsp),
        Some(u64::MAX - l.total_size as u64 + l.stack_base as u64)
    );
}

#[test]
fn ports_have_their_actions() {
    assert_eq!(OutBAction::from_port(99), Some(OutBAction::Log));
    assert_eq!(OutBAction::from_port(101), Some(OutBAction::CallFunction));
    assert_eq!(OutBAction::from_port(102), Some(OutBAction::Abort));
    assert_eq!(OutBAction::from_port(100), None);
    assert_eq!(OutBAction::from_port(0), None);
    assert_eq!(OutBAction::Log.port(), 99);
    assert_eq!(OutBAction::CallFunction.port(), 101);
    assert_eq!(OutBAction::Abort.port(), 102);
}
