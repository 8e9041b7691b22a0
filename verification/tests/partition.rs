use hyperlight_core::hypervisor::partition::{DriverError, MemoryRegion, Partition, TeardownStep};

fn built() -> Partition {
    let mut p = Partition::new();
    p.open().unwrap();
    p.create_vm().unwrap();
    p.map_memory(0, 0x20_0000, 0x7000_0000, 0x4000).unwrap();
    p.create_vcpu().unwrap();
    p
}

#[test]
fn parts_come_in_order() {
    let mut p = Partition::new();
    assert_eq!(p.create_vm(), Err(DriverError::NotOpen));
    assert_eq!(p.create_vcpu(), Err(DriverError::NoVm));
    assert_eq!(p.map_memory(0, 0, 0, 0x1000), Err(DriverError::NoVm));
    assert_eq!(p.open(), Ok(()));
    assert_eq!(p.open(), Err(DriverError::AlreadyOpen));
    assert_eq!(p.create_vcpu(), Err(DriverError::NoVm));
    assert_eq!(p.create_vm(), Ok(()));
    assert_eq!(p.create_vm(), Err(DriverError::VmExists));
    assert_eq!(p.create_vcpu(), Ok(()));
}

#[test]
fn a_vm_has_one_virtual_cpu() {
    let mut p = built();
    assert_eq!(p.create_vcpu(), Err(DriverError::VcpuExists));
}

#[test]
fn mapping_is_checked() {
    let mut p = built();
    assert_eq!(p.map_memory(0, 0x40_0000, 0x9000_0000, 0x1000), Err(DriverError::SlotInUse));
    assert_eq!(p.map_memory(1, 0x40_0000, 0x9000_0000, 0), Err(DriverError::EmptyRegion));
    assert_eq!(p.map_memory(1, 0x40_0000, 0x9000_0000, 0x1800), Err(DriverError::Unaligned));
    assert_eq!(p.map_memory(1, 0x40_0000, 0x9000_0010, 0x1000), Err(DriverError::Unaligned));
    assert_eq!(
        p.map_memory(1, u64::MAX - 0xFFF, 0x9000_0000, 0x2000),
        Err(DriverError::OutOfRange)
    );
    // guest addresses run into the mapped region
    assert_eq!(p.map_memory(1, 0x20_3000, 0x9000_0000, 0x2000), Err(DriverError::Overlap));
    // host addresses run into the mapped region
    assert_eq!(p.map_memory(1, 0x40_0000, 0x7000_3000, 0x1000), Err(DriverError::Overlap));
    // right behind the mapped region on both sides
    assert_eq!(
        p.map_memory(1, 0x20_4000, 0x7000_4000, 0x1000),
        Ok(MemoryRegion {
            slot: 1,
            flags: 0,
            guest_phys_addr: 0x20_4000,
            memory_size: 0x1000,
            userspace_addr: 0x7000_4000,
        })
    );
}

#[test]
fn unmapping_hands_out_the_region_without_size() {
    let mut p = built();
    assert_eq!(p.unmap_memory(3), Err(DriverError::NoSuchRegion));
    assert_eq!(
        p.unmap_memory(0),
        Ok(MemoryRegion {
            slot: 0,
            flags: 0,
            guest_phys_addr: 0x20_0000,
            memory_size: 0,
            userspace_addr: 0x7000_0000,
        })
    );
    assert_eq!(p.unmap_memory(0), Err(DriverError::NoSuchRegion));
}

#[test]
fn vm_is_not_destroyed_before_its_virtual_cpu_and_memory() {
    let mut p = built();
    assert_eq!(p.destroy_vm(), Err(DriverError::InUse));
    assert_eq!(p.close(), Err(DriverError::InUse));
    p.release_vcpu().unwrap();
    assert_eq!(p.release_vcpu(), Err(DriverError::NoVcpu));
    assert_eq!(p.destroy_vm(), Err(DriverError::InUse));
    p.unmap_memory(0).unwrap();
    assert_eq!(p.destroy_vm(), Ok(()));
    assert_eq!(p.destroy_vm(), Err(DriverError::NoVm));
    assert_eq!(p.close(), Ok(()));
    assert_eq!(p.close(), Err(DriverError::NotOpen));
}

#[test]
fn host_memory_is_not_freed_while_mapped() {
    let mut p = built();
    assert!(!p.can_free_host_memory(0x7000_0000, 0x4000));
    assert!(!p.can_free_host_memory(0x7000_3FFF, 1));
    assert!(p.can_free_host_memory(0x7000_4000, 0x1000));
    assert!(p.can_free_host_memory(0x6000_0000, 0x1000_0000));
    assert!(!p.can_free_host_memory(0x6000_0000, 0x1000_0001));
    p.unmap_memory(0).unwrap();
    assert!(p.can_free_host_memory(0x7000_0000, 0x4000));
}

#[test]
fn teardown_runs_in_reverse_order_of_creation() {
    let mut p = built();
    p.map_memory(5, 0x40_0000, 0x9000_0000, 0x1000).unwrap();
    let mut steps = Vec::new();
    while let Some(step) = p.next_teardown_step() {
        let done = match step {
            TeardownStep::ReleaseVcpu => p.release_vcpu(),
            TeardownStep::Unmap { slot } => p.unmap_memory(slot).map(|_| ()),
            TeardownStep::DestroyVm => p.destroy_vm(),
            TeardownStep::Close => p.close(),
        };
        assert_eq!(done, Ok(()));
        steps.push(step);
    }
    assert_eq!(
        steps,
        vec![
            TeardownStep::ReleaseVcpu,
            TeardownStep::Unmap { slot: 5 },
            TeardownStep::Unmap { slot: 0 },
            TeardownStep::DestroyVm,
            TeardownStep::Close,
        ]
    );
    assert_eq!(p.next_teardown_step(), None);
}

#[test]
fn create_and_destroy_in_any_order_keeps_the_books() {
    // a fixed walk through all operations, each tried in every state it meets
    let mut p = Partition::new();
    let mut vm = false;
    let mut vcpu = false;
    let mut mapped = false;
    let mut open = false;
    let mut seed: u32 = 12345;
    for _ in 0..2000 {
        seed = seed.wrapping_mul(1_103_515_245).wrapping_add(12345);
        match (seed >> 16) % 8 {
            0 => {
                if p.open().is_ok() {
                    assert!(!open);
                    open = true;
                }
            },
            1 => {
                if p.create_vm().is_ok() {
                    assert!(open && !vm);
                    vm = true;
                }
            },
            2 => {
                if p.create_vcpu().is_ok() {
                    assert!(vm && !vcpu);
                    vcpu = true;
                }
            },
            3 => {
                if p.map_memory(0, 0x1000, 0x2000, 0x1000).is_ok() {
                    assert!(vm && !mapped);
                    mapped = true;
                }
            },
            4 => {
                if p.unmap_memory(0).is_ok() {
                    assert!(mapped);
                    mapped = false;
                }
            },
            5 => {
                if p.release_vcpu().is_ok() {
                    assert!(vcpu);
                    vcpu = false;
                }
            },
            6 => {
                if p.destroy_vm().is_ok() {
                    assert!(vm && !vcpu && !mapped);
                    vm = false;
                }
            },
            _ => {
                if p.close().is_ok() {
                    assert!(open && !vm);
                    open = false;
                }
            },
        }
        assert_eq!(p.can_free_host_memory(0x2000, 0x1000), !mapped);
    }
}
