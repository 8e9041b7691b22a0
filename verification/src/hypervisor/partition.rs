//! The parts of a partition and the order in which they come and go.
//!
//! A partition is built as: connection to the hypervisor, VM, mapped memory, virtual
//! CPU. It is taken down the other way round. This module keeps the books: it says
//! whether a step may be taken now, and records it. The steps themselves are taken by
//! whoever talks to the hypervisor.

use crate::mem::layout::PAGE_SIZE;
use vstd::prelude::*;

verus! {

/// Why a step may not be taken.
#[derive(Clone, Copy, Debug, PartialEq, Eq, Structural)]
pub enum DriverError {
    /// There is no connection to the hypervisor.
    NotOpen,
    /// There is a connection already.
    AlreadyOpen,
    /// There is no VM.
    NoVm,
    /// There is a VM already.
    VmExists,
    /// There is no virtual CPU.
    NoVcpu,
    /// The VM has its one virtual CPU already.
    VcpuExists,
    /// An address or a size is not a whole number of pages.
    Unaligned,
    /// The region is empty.
    EmptyRegion,
    /// The region reaches past the end of the address space.
    OutOfRange,
    /// The region shares guest or host addresses with a mapped one.
    Overlap,
    /// No region is mapped in that slot.
    NoSuchRegion,
    /// A region is mapped in that slot already.
    SlotInUse,
    /// Mapped memory or a virtual CPU still hangs on what is to go.
    InUse,
}

/// A mapping of host memory into the guest's physical address space.
#[derive(Clone, Copy, Debug, PartialEq, Eq, Structural)]
pub struct MemoryRegion {
    pub slot: u32,
    pub flags: u32,
    pub guest_phys_addr: u64,
    pub memory_size: u64,
    pub userspace_addr: u64,
}

impl MemoryRegion {
    /// The region is not empty, lies on page bounds, and ends within the address space
    /// on both sides.
    pub open spec fn wf(&self) -> bool {
        &&& self.memory_size > 0
        &&& self.memory_size % (PAGE_SIZE as u64) == 0
        &&& self.userspace_addr % (PAGE_SIZE as u64) == 0
        &&& self.guest_phys_addr + self.memory_size <= u64::MAX
        &&& self.userspace_addr + self.memory_size <= u64::MAX
    }

    /// Whether the guest address `gpa` lies in this region.
    pub open spec fn holds_guest(&self, gpa: int) -> bool {
        self.guest_phys_addr <= gpa < self.guest_phys_addr + self.memory_size
    }

    /// Whether the host address `hva` lies in this region.
    pub open spec fn holds_host(&self, hva: int) -> bool {
        self.userspace_addr <= hva < self.userspace_addr + self.memory_size
    }

    /// The host address that stands behind the guest address `gpa` of this region.
    pub open spec fn host_of(&self, gpa: int) -> int {
        gpa - self.guest_phys_addr + self.userspace_addr
    }

    /// Whether the two regions share no guest address and no host address.
    pub open spec fn apart_from(&self, other: &MemoryRegion) -> bool {
        &&& self.guest_phys_addr + self.memory_size <= other.guest_phys_addr
            || other.guest_phys_addr + other.memory_size <= self.guest_phys_addr
        &&& self.userspace_addr + self.memory_size <= other.userspace_addr
            || other.userspace_addr + other.memory_size <= self.userspace_addr
    }

    /// The same region as the hypervisor is told of it when it goes: with no size.
    pub open spec fn spec_removed(&self) -> MemoryRegion {
        MemoryRegion { memory_size: 0, ..*self }
    }

    /// The same region as the hypervisor is told of it when it goes: with no size.
    #[verifier::when_used_as_spec(spec_removed)]
    pub fn removed(&self) -> (r: MemoryRegion)
        ensures
            r == self.spec_removed(),
    {
        MemoryRegion { memory_size: 0, ..*self }
    }

    /// What keeps the region from being mapped, whatever else is mapped: it is empty,
    /// it does not lie on page bounds, or it reaches past the end of the address space.
    pub open spec fn fault(&self) -> Option<DriverError> {
        if self.memory_size == 0 {
            Some(DriverError::EmptyRegion)
        } else if self.memory_size % (PAGE_SIZE as u64) != 0 || self.userspace_addr % (
        PAGE_SIZE as u64) != 0 {
            Some(DriverError::Unaligned)
        } else if self.guest_phys_addr + self.memory_size > u64::MAX || self.userspace_addr
            + self.memory_size > u64::MAX {
            Some(DriverError::OutOfRange)
        } else {
            None
        }
    }

    /// Whether the region can be mapped at all.
    pub fn check(&self) -> (r: Result<(), DriverError>)
        ensures
            r is Ok <==> self.wf(),
            r == match self.fault() {
                Some(e) => Err::<(), DriverError>(e),
                None => Ok(()),
            },
    {
        if self.memory_size == 0 {
            return Err(DriverError::EmptyRegion);
        }
        if self.memory_size % (PAGE_SIZE as u64) != 0 || self.userspace_addr % (PAGE_SIZE as u64)
            != 0 {
            return Err(DriverError::Unaligned);
        }
        if self.guest_phys_addr > u64::MAX - self.memory_size || self.userspace_addr > u64::MAX
            - self.memory_size {
            return Err(DriverError::OutOfRange);
        }
        Ok(())
    }

    /// Whether the two regions share no guest address and no host address.
    #[verifier::when_used_as_spec(apart_from)]
    pub fn is_apart_from(&self, other: &MemoryRegion) -> (b: bool)
        ensures
            b == self.apart_from(other),
    {
        let guest_end = self.guest_phys_addr as u128 + self.memory_size as u128;
        let other_guest_end = other.guest_phys_addr as u128 + other.memory_size as u128;
        let host_end = self.userspace_addr as u128 + self.memory_size as u128;
        let other_host_end = other.userspace_addr as u128 + other.memory_size as u128;
        (guest_end <= other.guest_phys_addr as u128 || other_guest_end
            <= self.guest_phys_addr as u128) && (host_end <= other.userspace_addr as u128
            || other_host_end <= self.userspace_addr as u128)
    }
}

/// What exists of a partition.
pub struct PartitionState {
    /// Whether there is a connection to the hypervisor.
    pub open: bool,
    /// Whether there is a VM.
    pub vm: bool,
    /// Whether the VM has its virtual CPU.
    pub vcpu: bool,
    /// The mapped regions, in the order in which they were mapped.
    pub regions: Seq<MemoryRegion>,
}

impl PartitionState {
    /// Nothing exists without what it hangs on: no VM without a connection, no virtual
    /// CPU and no mapped memory without a VM. Mapped regions are well-formed, lie in
    /// slots of their own and share no address.
    pub open spec fn wf(self) -> bool {
        &&& self.vm ==> self.open
        &&& self.vcpu ==> self.vm
        &&& self.regions.len() > 0 ==> self.vm
        &&& forall|i: int| 0 <= i < self.regions.len() ==> (#[trigger] self.regions[i]).wf()
        &&& forall|i: int, j: int|
            #![trigger self.regions[i], self.regions[j]]
            0 <= i < j < self.regions.len() ==> self.regions[i].apart_from(&self.regions[j])
                && self.regions[i].slot != self.regions[j].slot
    }

    /// Whether `r` shares no address with a mapped region.
    pub open spec fn free_for(self, r: MemoryRegion) -> bool {
        forall|i: int|
            #![trigger self.regions[i]]
            0 <= i < self.regions.len() ==> r.apart_from(&self.regions[i])
    }

    /// Whether a region is mapped in `slot`.
    pub open spec fn has_slot(self, slot: u32) -> bool {
        exists|i: int| 0 <= i < self.regions.len() && (#[trigger] self.regions[i]).slot == slot
    }

    /// Whether no mapped region reaches into the host memory `[addr, addr + size)`.
    pub open spec fn host_memory_unused(self, addr: u64, size: u64) -> bool {
        forall|i: int|
            0 <= i < self.regions.len() ==> {
                let r = #[trigger] self.regions[i];
                r.userspace_addr + r.memory_size <= addr || addr + size <= r.userspace_addr
            }
    }

    /// Whether the guest address `gpa` is mapped.
    pub open spec fn maps(self, gpa: int) -> bool {
        exists|i: int| 0 <= i < self.regions.len() && (#[trigger] self.regions[i]).holds_guest(gpa)
    }

    /// The host address behind the mapped guest address `gpa`.
    pub open spec fn host_addr(self, gpa: int) -> int {
        let i = choose|i: int|
            0 <= i < self.regions.len() && (#[trigger] self.regions[i]).holds_guest(gpa);
        self.regions[i].host_of(gpa)
    }
}

/// Guest addresses and host addresses stand one to one: a mapped guest address lies in
/// one region only, and two mapped guest addresses have two host addresses.
pub proof fn mapping_is_one_to_one(s: PartitionState, gpa1: int, gpa2: int)
    requires
        s.wf(),
        s.maps(gpa1),
        s.maps(gpa2),
    ensures
        forall|i: int, j: int|
            0 <= i < s.regions.len() && 0 <= j < s.regions.len() && (
            #[trigger] s.regions[i]).holds_guest(gpa1) && (#[trigger] s.regions[j]).holds_guest(
                gpa1,
            ) ==> i == j,
        s.host_addr(gpa1) == s.host_addr(gpa2) ==> gpa1 == gpa2,
{
    assert forall|i: int, j: int|
        0 <= i < s.regions.len() && 0 <= j < s.regions.len() && (
        #[trigger] s.regions[i]).holds_guest(gpa1) && (#[trigger] s.regions[j]).holds_guest(
            gpa1,
        ) implies i == j by {
        if i < j {
            assert(s.regions[i].apart_from(&s.regions[j]));
        } else if j < i {
            assert(s.regions[j].apart_from(&s.regions[i]));
        }
    }
    let i1 = choose|i: int|
        0 <= i < s.regions.len() && (#[trigger] s.regions[i]).holds_guest(gpa1);
    let i2 = choose|i: int|
        0 <= i < s.regions.len() && (#[trigger] s.regions[i]).holds_guest(gpa2);
    if s.host_addr(gpa1) == s.host_addr(gpa2) {
        if i1 < i2 {
            assert(s.regions[i1].apart_from(&s.regions[i2]));
        } else if i2 < i1 {
            assert(s.regions[i2].apart_from(&s.regions[i1]));
        }
    }
}

/// A step of taking a partition down.
#[derive(Clone, Copy, Debug, PartialEq, Eq, Structural)]
pub enum TeardownStep {
    /// Release the virtual CPU.
    ReleaseVcpu,
    /// Take the region in this slot out of the guest.
    Unmap { slot: u32 },
    /// Destroy the VM.
    DestroyVm,
    /// Close the connection to the hypervisor.
    Close,
}

impl PartitionState {
    /// Where the region of `slot` stands among the mapped ones.
    pub open spec fn index_of_slot(self, slot: u32) -> int {
        choose|i: int| 0 <= i < self.regions.len() && (#[trigger] self.regions[i]).slot == slot
    }

    /// The connection is made once.
    pub open spec fn after_open(self) -> Result<PartitionState, DriverError> {
        if self.open {
            Err(DriverError::AlreadyOpen)
        } else {
            Ok(PartitionState { open: true, ..self })
        }
    }

    /// A VM needs the connection, and there is one VM.
    pub open spec fn after_create_vm(self) -> Result<PartitionState, DriverError> {
        if !self.open {
            Err(DriverError::NotOpen)
        } else if self.vm {
            Err(DriverError::VmExists)
        } else {
            Ok(PartitionState { vm: true, ..self })
        }
    }

    /// A VM has one virtual CPU; a second is refused.
    pub open spec fn after_create_vcpu(self) -> Result<PartitionState, DriverError> {
        if !self.vm {
            Err(DriverError::NoVm)
        } else if self.vcpu {
            Err(DriverError::VcpuExists)
        } else {
            Ok(PartitionState { vcpu: true, ..self })
        }
    }

    /// A region is mapped if there is a VM, the slot is free, the region is not empty,
    /// lies on page bounds, ends within the address space and shares no address with a
    /// mapped one.
    pub open spec fn after_map(self, r: MemoryRegion) -> Result<PartitionState, DriverError> {
        if !self.vm {
            Err(DriverError::NoVm)
        } else if self.has_slot(r.slot) {
            Err(DriverError::SlotInUse)
        } else if r.fault() is Some {
            Err(r.fault()->Some_0)
        } else if !self.free_for(r) {
            Err(DriverError::Overlap)
        } else {
            Ok(PartitionState { regions: self.regions.push(r), ..self })
        }
    }

    /// A region goes if one is mapped in the slot.
    pub open spec fn after_unmap(self, slot: u32) -> Result<PartitionState, DriverError> {
        if !self.has_slot(slot) {
            Err(DriverError::NoSuchRegion)
        } else {
            Ok(PartitionState { regions: self.regions.remove(self.index_of_slot(slot)), ..self })
        }
    }

    /// The virtual CPU goes if there is one.
    pub open spec fn after_release_vcpu(self) -> Result<PartitionState, DriverError> {
        if !self.vcpu {
            Err(DriverError::NoVcpu)
        } else {
            Ok(PartitionState { vcpu: false, ..self })
        }
    }

    /// A VM goes only after its virtual CPU and its mapped memory.
    pub open spec fn after_destroy_vm(self) -> Result<PartitionState, DriverError> {
        if !self.vm {
            Err(DriverError::NoVm)
        } else if self.vcpu || self.regions.len() > 0 {
            Err(DriverError::InUse)
        } else {
            Ok(PartitionState { vm: false, ..self })
        }
    }

    /// The connection goes only after the VM.
    pub open spec fn after_close(self) -> Result<PartitionState, DriverError> {
        if !self.open {
            Err(DriverError::NotOpen)
        } else if self.vm {
            Err(DriverError::InUse)
        } else {
            Ok(PartitionState { open: false, ..self })
        }
    }

    /// The step that comes next when the partition is taken down: first the virtual
    /// CPU, then the mapped regions from the last back to the first, then the VM, then
    /// the connection.
    pub open spec fn next_teardown_step(self) -> Option<TeardownStep> {
        if self.vcpu {
            Some(TeardownStep::ReleaseVcpu)
        } else if self.regions.len() > 0 {
            Some(TeardownStep::Unmap { slot: self.regions.last().slot })
        } else if self.vm {
            Some(TeardownStep::DestroyVm)
        } else if self.open {
            Some(TeardownStep::Close)
        } else {
            None
        }
    }

    /// The state after `step`, if it may be taken.
    pub open spec fn after_step(self, step: TeardownStep) -> Result<PartitionState, DriverError> {
        match step {
            TeardownStep::ReleaseVcpu => self.after_release_vcpu(),
            TeardownStep::Unmap { slot } => self.after_unmap(slot),
            TeardownStep::DestroyVm => self.after_destroy_vm(),
            TeardownStep::Close => self.after_close(),
        }
    }

    /// How many steps it takes to take the partition down.
    pub open spec fn teardown_len(self) -> nat {
        (if self.vcpu {
            1nat
        } else {
            0nat
        }) + self.regions.len() + (if self.vm {
            1nat
        } else {
            0nat
        }) + (if self.open {
            1nat
        } else {
            0nat
        })
    }
}

/// The region of a slot that is in use is found at one place only.
pub proof fn lemma_index_of_slot(s: PartitionState, i: int)
    requires
        s.wf(),
        0 <= i < s.regions.len(),
    ensures
        s.has_slot(s.regions[i].slot),
        s.index_of_slot(s.regions[i].slot) == i,
{
    let j = s.index_of_slot(s.regions[i].slot);
    if i < j {
        assert(s.regions[i].slot != s.regions[j].slot);
    } else if j < i {
        assert(s.regions[j].slot != s.regions[i].slot);
    }
}

/// Every step that may be taken leaves the partition well-formed: at no time is there
/// a virtual CPU or mapped memory without its VM, or a VM without its connection.
pub proof fn steps_keep_order(s: PartitionState, r: MemoryRegion, slot: u32)
    requires
        s.wf(),
    ensures
        s.after_open() matches Ok(t) ==> t.wf(),
        s.after_create_vm() matches Ok(t) ==> t.wf(),
        s.after_create_vcpu() matches Ok(t) ==> t.wf(),
        s.after_map(r) matches Ok(t) ==> t.wf(),
        s.after_unmap(slot) matches Ok(t) ==> t.wf(),
        s.after_release_vcpu() matches Ok(t) ==> t.wf(),
        s.after_destroy_vm() matches Ok(t) ==> t.wf(),
        s.after_close() matches Ok(t) ==> t.wf(),
{
    if let Ok(t) = s.after_map(r) {
        assert forall|i: int, j: int|
            #![trigger t.regions[i], t.regions[j]]
            0 <= i < j < t.regions.len() implies t.regions[i].apart_from(&t.regions[j])
            && t.regions[i].slot != t.regions[j].slot by {
            if j == s.regions.len() {
                assert(r.apart_from(&s.regions[i]));
                assert(s.regions[i].slot != r.slot);
            }
        }
    }
    if let Ok(t) = s.after_unmap(slot) {
        let k = s.index_of_slot(slot);
        assert forall|i: int| 0 <= i < t.regions.len() implies (#[trigger] t.regions[i]).wf() by {
            if i < k {
                assert(t.regions[i] == s.regions[i]);
            } else {
                assert(t.regions[i] == s.regions[i + 1]);
            }
        }
        assert forall|i: int, j: int|
            #![trigger t.regions[i], t.regions[j]]
            0 <= i < j < t.regions.len() implies t.regions[i].apart_from(&t.regions[j])
            && t.regions[i].slot != t.regions[j].slot by {
            let a = if i < k { i } else { i + 1 };
            let b = if j < k { j } else { j + 1 };
            assert(t.regions[i] == s.regions[a]);
            assert(t.regions[j] == s.regions[b]);
            assert(s.regions[a].apart_from(&s.regions[b]));
        }
    }
}

/// Taking a partition down step by step never fails and comes to an end: the next step
/// may always be taken, and it leaves one step less to take.
pub proof fn teardown_goes_through(s: PartitionState)
    requires
        s.wf(),
    ensures
        s.next_teardown_step() is None <==> s.teardown_len() == 0,
        s.next_teardown_step() matches Some(step) ==> (s.after_step(step) matches Ok(t) && t.wf()
            && t.teardown_len() == s.teardown_len() - 1),
{
    if let Some(step) = s.next_teardown_step() {
        if let TeardownStep::Unmap { slot } = step {
            lemma_index_of_slot(s, s.regions.len() - 1);
        }
        let slot = match step {
            TeardownStep::Unmap { slot } => slot,
            _ => 0,
        };
        steps_keep_order(s, s.regions[0], slot);
    }
}

/// The books of one partition.
#[derive(Debug)]
pub struct Partition {
    open: bool,
    vm: bool,
    vcpu: bool,
    regions: Vec<MemoryRegion>,
}

impl View for Partition {
    type V = PartitionState;

    closed spec fn view(&self) -> PartitionState {
        PartitionState { open: self.open, vm: self.vm, vcpu: self.vcpu, regions: self.regions@ }
    }
}

/// What an operation on the books comes to: on success the state that its rule gives,
/// on failure the state as it was and the failure that its rule gives.
pub open spec fn booked(
    r: Result<(), DriverError>,
    before: PartitionState,
    after: PartitionState,
    rule: Result<PartitionState, DriverError>,
) -> bool {
    match rule {
        Ok(t) => r is Ok && after == t,
        Err(e) => r == Err::<(), DriverError>(e) && after == before,
    }
}

impl Partition {
    /// The books are in order.
    pub open spec fn wf(&self) -> bool {
        self@.wf()
    }

    /// Nothing exists yet.
    pub fn new() -> (p: Partition)
        ensures
            p.wf(),
            p@ == (PartitionState {
                open: false,
                vm: false,
                vcpu: false,
                regions: Seq::<MemoryRegion>::empty(),
            }),
    {
        Partition { open: false, vm: false, vcpu: false, regions: Vec::new() }
    }

    /// Books the connection to the hypervisor.
    pub fn open(&mut self) -> (r: Result<(), DriverError>)
        requires
            old(self).wf(),
        ensures
            final(self).wf(),
            booked(r, old(self)@, final(self)@, old(self)@.after_open()),
    {
        if self.open {
            return Err(DriverError::AlreadyOpen);
        }
        self.open = true;
        Ok(())
    }

    /// Books the VM.
    pub fn create_vm(&mut self) -> (r: Result<(), DriverError>)
        requires
            old(self).wf(),
        ensures
            final(self).wf(),
            booked(r, old(self)@, final(self)@, old(self)@.after_create_vm()),
    {
        if !self.open {
            return Err(DriverError::NotOpen);
        }
        if self.vm {
            return Err(DriverError::VmExists);
        }
        self.vm = true;
        Ok(())
    }

    /// Books the virtual CPU.
    pub fn create_vcpu(&mut self) -> (r: Result<(), DriverError>)
        requires
            old(self).wf(),
        ensures
            final(self).wf(),
            booked(r, old(self)@, final(self)@, old(self)@.after_create_vcpu()),
    {
        if !self.vm {
            return Err(DriverError::NoVm);
        }
        if self.vcpu {
            return Err(DriverError::VcpuExists);
        }
        self.vcpu = true;
        Ok(())
    }

    /// Where the region of `slot` stands, if one is mapped there.
    fn find_slot(&self, slot: u32) -> (r: Option<usize>)
        requires
            self.wf(),
        ensures
            r matches Some(i) ==> self@.has_slot(slot) && i == self@.index_of_slot(slot) && i
                < self@.regions.len(),
            r is None ==> !self@.has_slot(slot),
    {
        let mut i: usize = 0;
        while i < self.regions.len()
            invariant
                i <= self.regions.len(),
                self.wf(),
                forall|j: int| 0 <= j < i ==> (#[trigger] self@.regions[j]).slot != slot,
            decreases self.regions.len() - i,
        {
            if self.regions[i].slot == slot {
                proof {
                    lemma_index_of_slot(self@, i as int);
                }
                return Some(i);
            }
            i += 1;
        }
        None
    }

    /// Whether `r` shares no address with a mapped region.
    fn is_free_for(&self, r: &MemoryRegion) -> (b: bool)
        requires
            self.wf(),
        ensures
            b == self@.free_for(*r),
    {
        let mut i: usize = 0;
        while i < self.regions.len()
            invariant
                i <= self.regions.len(),
                self.wf(),
                forall|j: int|
                    #![trigger self@.regions[j]]
                    0 <= j < i ==> r.apart_from(&self@.regions[j]),
            decreases self.regions.len() - i,
        {
            if !r.is_apart_from(&self.regions[i]) {
                return false;
            }
            i += 1;
        }
        true
    }

    /// Books the mapping of `memory_size` bytes of host memory at `userspace_addr` into
    /// the guest at `guest_phys_addr`, and hands out the region as the hypervisor is to
    /// be told of it.
    pub fn map_memory(
        &mut self,
        slot: u32,
        guest_phys_addr: u64,
        userspace_addr: u64,
        memory_size: u64,
    ) -> (r: Result<MemoryRegion, DriverError>)
        requires
            old(self).wf(),
        ensures
            final(self).wf(),
            ({
                let region = MemoryRegion {
                    slot,
                    flags: 0,
                    guest_phys_addr,
                    memory_size,
                    userspace_addr,
                };
                match old(self)@.after_map(region) {
                    Ok(t) => r == Ok::<MemoryRegion, DriverError>(region) && final(self)@ == t,
                    Err(e) => r == Err::<MemoryRegion, DriverError>(e) && final(self)@ == old(
                        self,
                    )@,
                }
            }),
    {
        let region = MemoryRegion { slot, flags: 0, guest_phys_addr, memory_size, userspace_addr };
        if !self.vm {
            return Err(DriverError::NoVm);
        }
        if self.find_slot(slot).is_some() {
            return Err(DriverError::SlotInUse);
        }
        match region.check() {
            Ok(()) => {},
            Err(e) => return Err(e),
        }
        if !self.is_free_for(&region) {
            return Err(DriverError::Overlap);
        }
        proof {
            steps_keep_order(self@, region, slot);
        }
        self.regions.push(region);
        Ok(region)
    }

    /// Books the removal of the region in `slot`, and hands out the region as the
    /// hypervisor is to be told of its removal: with no size.
    pub fn unmap_memory(&mut self, slot: u32) -> (r: Result<MemoryRegion, DriverError>)
        requires
            old(self).wf(),
        ensures
            final(self).wf(),
            match old(self)@.after_unmap(slot) {
                Ok(t) => r == Ok::<MemoryRegion, DriverError>(
                    old(self)@.regions[old(self)@.index_of_slot(slot)].spec_removed(),
                ) && final(self)@ == t,
                Err(e) => r == Err::<MemoryRegion, DriverError>(e) && final(self)@ == old(self)@,
            },
    {
        let i = match self.find_slot(slot) {
            Some(i) => i,
            None => return Err(DriverError::NoSuchRegion),
        };
        proof {
            steps_keep_order(self@, self@.regions[0], slot);
        }
        let region = self.regions.remove(i);
        Ok(region.removed())
    }

    /// Books the release of the virtual CPU.
    pub fn release_vcpu(&mut self) -> (r: Result<(), DriverError>)
        requires
            old(self).wf(),
        ensures
            final(self).wf(),
            booked(r, old(self)@, final(self)@, old(self)@.after_release_vcpu()),
    {
        if !self.vcpu {
            return Err(DriverError::NoVcpu);
        }
        self.vcpu = false;
        Ok(())
    }

    /// Books the end of the VM.
    pub fn destroy_vm(&mut self) -> (r: Result<(), DriverError>)
        requires
            old(self).wf(),
        ensures
            final(self).wf(),
            booked(r, old(self)@, final(self)@, old(self)@.after_destroy_vm()),
    {
        if !self.vm {
            return Err(DriverError::NoVm);
        }
        if self.vcpu || self.regions.len() > 0 {
            return Err(DriverError::InUse);
        }
        self.vm = false;
        Ok(())
    }

    /// Books the end of the connection to the hypervisor.
    pub fn close(&mut self) -> (r: Result<(), DriverError>)
        requires
            old(self).wf(),
        ensures
            final(self).wf(),
            booked(r, old(self)@, final(self)@, old(self)@.after_close()),
    {
        if !self.open {
            return Err(DriverError::NotOpen);
        }
        if self.vm {
            return Err(DriverError::InUse);
        }
        self.open = false;
        Ok(())
    }

    /// Whether the host memory `[addr, addr + size)` may be freed: no mapped region
    /// reaches into it.
    pub fn can_free_host_memory(&self, addr: u64, size: u64) -> (b: bool)
        requires
            self.wf(),
        ensures
            b == self@.host_memory_unused(addr, size),
    {
        let mut i: usize = 0;
        while i < self.regions.len()
            invariant
                i <= self.regions.len(),
                self.wf(),
                forall|j: int|
                    0 <= j < i ==> {
                        let r = #[trigger] self@.regions[j];
                        r.userspace_addr + r.memory_size <= addr || addr + size <= r.userspace_addr
                    },
            decreases self.regions.len() - i,
        {
            let r = &self.regions[i];
            assert(self@.regions[i as int].wf());
            let end = r.userspace_addr + r.memory_size;
            let apart = end <= addr || (size <= u64::MAX - addr && addr + size <= r.userspace_addr);
            if !apart {
                return false;
            }
            i += 1;
        }
        true
    }

    /// The step that comes next when the partition is taken down.
    pub fn next_teardown_step(&self) -> (step: Option<TeardownStep>)
        requires
            self.wf(),
        ensures
            step == self@.next_teardown_step(),
    {
        if self.vcpu {
            Some(TeardownStep::ReleaseVcpu)
        } else if self.regions.len() > 0 {
            Some(TeardownStep::Unmap { slot: self.regions[self.regions.len() - 1].slot })
        } else if self.vm {
            Some(TeardownStep::DestroyVm)
        } else if self.open {
            Some(TeardownStep::Close)
        } else {
            None
        }
    }
}

} // verus!
