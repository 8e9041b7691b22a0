use hyperlight_core::capi::{
    get_kvm, get_kvm_run_message, get_registers_from_handle, get_sregisters_from_handle,
    get_user_mem_region, get_vcpufd, get_vmfd, merged_sregisters, Context, Handle, HandleError,
    Hdl, HdlKind, KvmRunMessage, KvmRunMessageType,
};
use hyperlight_core::hypervisor::partition::MemoryRegion;
use hyperlight_core::hypervisor::regs::{CSRegs, DescriptorTable, Regs, SRegs, Segment};
use hyperlight_core::outb::ExitReason;

fn segment(selector: u16) -> Segment {
    Segment {
        base: 1,
        limit: 2,
        selector,
        type_: 3,
        present: 1,
        dpl: 0,
        db: 0,
        s: 1,
        l: 0,
        g: 0,
        avl: 0,
    }
}

fn sregs() -> SRegs {
    SRegs {
        cs: segment(8),
        ds: segment(16),
        es: segment(16),
        fs: segment(16),
        gs: segment(16),
        ss: segment(16),
        tr: segment(24),
        ldt: segment(32),
        gdt: DescriptorTable { base: 0x1000, limit: 0x17 },
        idt: DescriptorTable { base: 0x2000, limit: 0xFFF },
        cr0: 0x10,
        cr2: 0x22,
        cr3: 0x33,
        cr4: 0x44,
        efer: 0x55,
        apic_base: 0xFEE0_0000,
    }
}

fn region() -> MemoryRegion {
    MemoryRegion {
        slot: 0,
        flags: 0,
        guest_phys_addr: 0x20_0000,
        memory_size: 0x1000,
        userspace_addr: 0x7000_0000,
    }
}

#[test]
fn handle_names_what_was_registered() {
    let mut ctx = Context::new();
    let regs = Regs::initial(0x1234, 0x8000);
    let h = ctx.register(Hdl::KvmRegisters(regs)).unwrap();
    assert_eq!(h, Handle { generation: 0, index: 0 });
    assert_eq!(get_registers_from_handle(&ctx, h), Ok(&regs));
    let s = ctx.register(Hdl::KvmSRegisters(sregs())).unwrap();
    assert_eq!(s, Handle { generation: 0, index: 1 });
    assert_eq!(get_sregisters_from_handle(&ctx, s), Ok(&sregs()));
    assert_eq!(get_registers_from_handle(&ctx, h), Ok(&regs));
}

#[test]
fn handle_of_another_kind_is_refused() {
    let mut ctx = Context::new();
    let h = ctx.register(Hdl::KvmRegisters(Regs::initial(0, 0))).unwrap();
    assert_eq!(get_sregisters_from_handle(&ctx, h), Err(HandleError::WrongKind));
    assert_eq!(get_kvm_run_message(&ctx, h), Err(HandleError::WrongKind));
    assert_eq!(get_user_mem_region(&ctx, h), Err(HandleError::WrongKind));
    assert!(matches!(get_kvm(&ctx, h), Err(HandleError::WrongKind)));
    assert!(matches!(get_vmfd(&ctx, h), Err(HandleError::WrongKind)));
    assert!(matches!(get_vcpufd(&ctx, h), Err(HandleError::WrongKind)));
}

#[test]
fn handle_that_was_never_given_out_names_nothing() {
    let mut ctx = Context::new();
    ctx.register(Hdl::KvmRegisters(Regs::initial(0, 0))).unwrap();
    assert_eq!(
        get_registers_from_handle(&ctx, Handle { generation: 0, index: 1 }),
        Err(HandleError::InvalidHandle)
    );
    assert_eq!(
        get_registers_from_handle(&ctx, Handle { generation: 1, index: 0 }),
        Err(HandleError::InvalidHandle)
    );
    assert_eq!(
        get_registers_from_handle(&ctx, Handle::new_empty()),
        Err(HandleError::InvalidHandle)
    );
    assert!(matches!(get_kvm(&ctx, Handle::new_empty()), Err(HandleError::InvalidHandle)));
}

#[test]
fn freed_handle_names_nothing_ever_after() {
    let mut ctx = Context::new();
    let a = ctx.register(Hdl::KvmRunMessage(KvmRunMessage {
        message_type: KvmRunMessageType::Halt,
        rax: 0,
        rip: 0,
        port_number: 0,
    }))
    .unwrap();
    assert!(get_kvm_run_message(&ctx, a).is_ok());
    let freed = ctx.free(a).unwrap().unwrap();
    assert_eq!(freed.kind(), HdlKind::KvmRunMessage);
    assert_eq!(get_kvm_run_message(&ctx, a), Err(HandleError::InvalidHandle));
    assert!(matches!(ctx.free(a), Err(HandleError::InvalidHandle)));
    // the slot is used again, under the next generation
    let b = ctx.register(Hdl::KvmRegisters(Regs::initial(1, 2))).unwrap();
    assert_eq!(b, Handle { generation: 1, index: 0 });
    assert_eq!(get_kvm_run_message(&ctx, a), Err(HandleError::InvalidHandle));
    assert_eq!(get_registers_from_handle(&ctx, a), Err(HandleError::InvalidHandle));
    assert!(get_registers_from_handle(&ctx, b).is_ok());
}

#[test]
fn error_handles_are_freed_once() {
    let mut ctx = Context::new();
    let e = ctx.register_err("no such device".to_string()).unwrap();
    match ctx.get(e) {
        Some(Hdl::Error(m)) => assert_eq!(m, "no such device"),
        _ => panic!("expected the registered failure"),
    }
    assert!(matches!(ctx.free(e), Ok(Some(Hdl::Error(_)))));
    assert!(matches!(ctx.free(e), Err(HandleError::InvalidHandle)));
}

#[test]
fn empty_handle_may_be_freed_again_and_again() {
    let mut ctx = Context::new();
    let h = ctx.register(Hdl::KvmRegisters(Regs::initial(0, 0))).unwrap();
    assert!(matches!(ctx.free(Handle::new_empty()), Ok(None)));
    assert!(matches!(ctx.free(Handle::new_empty()), Ok(None)));
    assert!(get_registers_from_handle(&ctx, h).is_ok());
}

#[test]
fn mapped_memory_is_not_freed_by_the_general_free() {
    let mut ctx = Context::new();
    let h = ctx.register(Hdl::KvmUserMemRegion(region())).unwrap();
    assert!(matches!(ctx.free(h), Err(HandleError::WrongKind)));
    assert_eq!(get_user_mem_region(&ctx, h), Ok(&region()));
    assert_eq!(ctx.take_user_mem_region(h), Ok(region()));
    assert_eq!(get_user_mem_region(&ctx, h), Err(HandleError::InvalidHandle));
    assert_eq!(ctx.take_user_mem_region(h), Err(HandleError::InvalidHandle));
    let other = ctx.register(Hdl::KvmRegisters(Regs::initial(0, 0))).unwrap();
    assert_eq!(ctx.take_user_mem_region(other), Err(HandleError::WrongKind));
}

#[test]
fn first_free_slot_is_taken() {
    let mut ctx = Context::new();
    let a = ctx.register(Hdl::KvmRegisters(Regs::initial(0, 0))).unwrap();
    let b = ctx.register(Hdl::KvmRegisters(Regs::initial(1, 0))).unwrap();
    let c = ctx.register(Hdl::KvmRegisters(Regs::initial(2, 0))).unwrap();
    assert_eq!((a.index, b.index, c.index), (0, 1, 2));
    ctx.free(c).unwrap();
    ctx.free(a).unwrap();
    let d = ctx.register(Hdl::KvmRegisters(Regs::initial(3, 0))).unwrap();
    assert_eq!(d, Handle { generation: 1, index: 0 });
    let e = ctx.register(Hdl::KvmRegisters(Regs::initial(4, 0))).unwrap();
    assert_eq!(e, Handle { generation: 1, index: 2 });
    let f = ctx.register(Hdl::KvmRegisters(Regs::initial(5, 0))).unwrap();
    assert_eq!(f, Handle { generation: 0, index: 3 });
    assert_eq!(get_registers_from_handle(&ctx, b).unwrap().rip, 1);
}

#[test]
fn handle_and_number_stand_for_each_other() {
    let h = Handle { generation: 0x0102_0304, index: 0x0A0B_0C0D };
    assert_eq!(h.to_u64(), 0x0102_0304_0A0B_0C0D);
    assert_eq!(Handle::from_u64(0x0102_0304_0A0B_0C0D), h);
    assert_eq!(Handle::new_empty().to_u64(), 0xFFFF_FFFF);
    for v in [0u64, 1, u64::MAX, 0xFFFF_FFFF_0000_0000, 0x8000_0000_8000_0000] {
        assert_eq!(Handle::from_u64(v).to_u64(), v);
    }
}

#[test]
fn registers_to_set_take_the_callers_part() {
    let mut ctx = Context::new();
    let h = ctx.register(Hdl::KvmSRegisters(sregs())).unwrap();
    let cs = CSRegs { cs: segment(99), cr0: 1, cr3: 3, cr4: 4, efer: 5 };
    let merged = merged_sregisters(&ctx, h, &cs).unwrap();
    let mut expected = sregs();
    expected.cs = segment(99);
    expected.cr0 = 1;
    expected.cr3 = 3;
    expected.cr4 = 4;
    expected.efer = 5;
    assert_eq!(merged, expected);
    assert_eq!(merged.cr2, 0x22);
    assert_eq!(merged.ds, segment(16));
    // what is stored stays as it was
    assert_eq!(get_sregisters_from_handle(&ctx, h), Ok(&sregs()));
    assert_eq!(CSRegs::from(&merged), cs);
    let r = ctx.register(Hdl::KvmRegisters(Regs::initial(0, 0))).unwrap();
    assert_eq!(merged_sregisters(&ctx, r, &cs), Err(HandleError::WrongKind));
    assert_eq!(
        merged_sregisters(&ctx, Handle { generation: 7, index: 7 }, &cs),
        Err(HandleError::InvalidHandle)
    );
}

#[test]
fn run_message_tells_of_the_exit() {
    let mut regs = Regs::initial(0x4000, 0x9000);
    regs.rax = 0xAB;
    assert_eq!(
        KvmRunMessage::from_exit(ExitReason::IoOut { port: 101, data: 0 }, &regs),
        KvmRunMessage {
            message_type: KvmRunMessageType::IOOut,
            rax: 0xAB,
            rip: 0x4000,
            port_number: 101,
        }
    );
    assert_eq!(
        KvmRunMessage::from_exit(ExitReason::Halt, &regs).message_type,
        KvmRunMessageType::Halt
    );
    assert_eq!(
        KvmRunMessage::from_exit(ExitReason::Cancelled, &regs).message_type,
        KvmRunMessageType::Cancelled
    );
    assert_eq!(
        KvmRunMessage::from_exit(ExitReason::MmioRead { addr: 1, size: 1 }, &regs),
        KvmRunMessage {
            message_type: KvmRunMessageType::Unsupported,
            rax: 0,
            rip: 0,
            port_number: 0,
        }
    );
    assert_eq!(
        KvmRunMessage::from_exit(ExitReason::InternalError { subcode: 3 }, &regs).message_type,
        KvmRunMessageType::Unsupported
    );
}
