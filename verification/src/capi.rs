//! The registry behind the handles that foreign callers hold.
//!
//! A handle names a slot of the registry and the generation of the slot at the time the
//! handle was given out. Freeing a handle moves its slot on to the next generation, so
//! that a handle that was freed names nothing ever after.

use crate::hypervisor::partition::MemoryRegion;
use crate::hypervisor::regs::{with_control, CSRegs, Regs, SRegs};
use crate::outb::ExitReason;
use vstd::prelude::*;

verus! {

/// The connection to the hypervisor, as `kvm_ioctls` holds it. The registry keeps such
/// a value and hands it out again; it never looks inside.
#[verifier::external_type_specification]
#[verifier::external_body]
pub struct ExKvm(kvm_ioctls::Kvm);

/// A VM, as `kvm_ioctls` holds it. The registry keeps such a value and hands it out
/// again; it never looks inside.
#[verifier::external_type_specification]
#[verifier::external_body]
pub struct ExVmFd(kvm_ioctls::VmFd);

/// A virtual CPU, as `kvm_ioctls` holds it. The registry keeps such a value and hands
/// it out again; it never looks inside.
#[verifier::external_type_specification]
#[verifier::external_body]
pub struct ExVcpuFd(kvm_ioctls::VcpuFd);

/// The index that no slot has; handles that name no slot bear it.
pub const NO_INDEX: u32 = 0xFFFF_FFFF;

/// The generation after which a slot is not used again.
pub const LAST_GENERATION: u32 = 0xFFFF_FFFF;

/// A token for an entry of the registry.
#[derive(Clone, Copy, Debug, PartialEq, Eq, Structural)]
pub struct Handle {
    pub generation: u32,
    pub index: u32,
}

/// Why a virtual CPU came back, as foreign callers are told.
#[derive(Clone, Copy, Debug, PartialEq, Eq, Structural)]
pub enum KvmRunMessageType {
    IOOut,
    Halt,
    Cancelled,
    Unsupported,
}

/// What foreign callers are told when a virtual CPU comes back.
#[derive(Clone, Copy, Debug, PartialEq, Eq, Structural)]
pub struct KvmRunMessage {
    pub message_type: KvmRunMessageType,
    pub rax: u64,
    pub rip: u64,
    pub port_number: u16,
}

/// The message for a stop of the virtual CPU whose registers are `regs`.
pub open spec fn run_message(exit: ExitReason, regs: Regs) -> KvmRunMessage {
    match exit {
        ExitReason::IoOut { port, .. } => KvmRunMessage {
            message_type: KvmRunMessageType::IOOut,
            rax: regs.rax,
            rip: regs.rip,
            port_number: port,
        },
        ExitReason::Halt => KvmRunMessage {
            message_type: KvmRunMessageType::Halt,
            rax: 0,
            rip: 0,
            port_number: 0,
        },
        ExitReason::Cancelled => KvmRunMessage {
            message_type: KvmRunMessageType::Cancelled,
            rax: 0,
            rip: 0,
            port_number: 0,
        },
        _ => KvmRunMessage {
            message_type: KvmRunMessageType::Unsupported,
            rax: 0,
            rip: 0,
            port_number: 0,
        },
    }
}

impl KvmRunMessage {
    /// The message for a stop of the virtual CPU whose registers are `regs`.
    pub fn from_exit(exit: ExitReason, regs: &Regs) -> (m: KvmRunMessage)
        ensures
            m == run_message(exit, *regs),
    {
        match exit {
            ExitReason::IoOut { port, .. } => KvmRunMessage {
                message_type: KvmRunMessageType::IOOut,
                rax: regs.rax,
                rip: regs.rip,
                port_number: port,
            },
            ExitReason::Halt => KvmRunMessage {
                message_type: KvmRunMessageType::Halt,
                rax: 0,
                rip: 0,
                port_number: 0,
            },
            ExitReason::Cancelled => KvmRunMessage {
                message_type: KvmRunMessageType::Cancelled,
                rax: 0,
                rip: 0,
                port_number: 0,
            },
            _ => KvmRunMessage {
                message_type: KvmRunMessageType::Unsupported,
                rax: 0,
                rip: 0,
                port_number: 0,
            },
        }
    }
}

/// The kinds of entries.
#[derive(Clone, Copy, Debug, PartialEq, Eq, Structural)]
pub enum HdlKind {
    Error,
    Kvm,
    KvmVmFd,
    KvmVcpuFd,
    KvmUserMemRegion,
    KvmRegisters,
    KvmSRegisters,
    KvmRunMessage,
}

/// An entry of the registry.
#[derive(Debug)]
pub enum Hdl {
    /// A failure, with what there is to say of it.
    Error(String),
    Kvm(kvm_ioctls::Kvm),
    KvmVmFd(kvm_ioctls::VmFd),
    KvmVcpuFd(kvm_ioctls::VcpuFd),
    KvmUserMemRegion(MemoryRegion),
    KvmRegisters(Regs),
    KvmSRegisters(SRegs),
    KvmRunMessage(KvmRunMessage),
}

impl Hdl {
    /// The kind of this entry.
    pub open spec fn spec_kind(&self) -> HdlKind {
        match self {
            Hdl::Error(_) => HdlKind::Error,
            Hdl::Kvm(_) => HdlKind::Kvm,
            Hdl::KvmVmFd(_) => HdlKind::KvmVmFd,
            Hdl::KvmVcpuFd(_) => HdlKind::KvmVcpuFd,
            Hdl::KvmUserMemRegion(_) => HdlKind::KvmUserMemRegion,
            Hdl::KvmRegisters(_) => HdlKind::KvmRegisters,
            Hdl::KvmSRegisters(_) => HdlKind::KvmSRegisters,
            Hdl::KvmRunMessage(_) => HdlKind::KvmRunMessage,
        }
    }

    /// The kind of this entry.
    #[verifier::when_used_as_spec(spec_kind)]
    pub fn kind(&self) -> (k: HdlKind)
        ensures
            k == self.spec_kind(),
    {
        match self {
            Hdl::Error(_) => HdlKind::Error,
            Hdl::Kvm(_) => HdlKind::Kvm,
            Hdl::KvmVmFd(_) => HdlKind::KvmVmFd,
            Hdl::KvmVcpuFd(_) => HdlKind::KvmVcpuFd,
            Hdl::KvmUserMemRegion(_) => HdlKind::KvmUserMemRegion,
            Hdl::KvmRegisters(_) => HdlKind::KvmRegisters,
            Hdl::KvmSRegisters(_) => HdlKind::KvmSRegisters,
            Hdl::KvmRunMessage(_) => HdlKind::KvmRunMessage,
        }
    }
}

/// Why a handle does not give what was asked of it.
#[derive(Clone, Copy, Debug, PartialEq, Eq, Structural)]
pub enum HandleError {
    /// The handle names nothing: it was never given out, or it was freed.
    InvalidHandle,
    /// The handle names an entry of another kind.
    WrongKind,
}

impl Handle {
    /// The handle that stands for "nothing to hold": what an operation without a result
    /// hands back.
    pub open spec fn spec_new_empty() -> Handle {
        Handle { generation: 0, index: NO_INDEX }
    }

    /// The handle that stands for "nothing to hold".
    #[verifier::when_used_as_spec(spec_new_empty)]
    pub fn new_empty() -> (h: Handle)
        ensures
            h == Handle::spec_new_empty(),
    {
        Handle { generation: 0, index: NO_INDEX }
    }

    /// The handle as one 64-bit number: the generation above the index.
    pub open spec fn spec_to_u64(self) -> u64 {
        ((self.generation as u64) << 32) | (self.index as u64)
    }

    /// The handle that a 64-bit number stands for.
    pub open spec fn spec_from_u64(v: u64) -> Handle {
        Handle { generation: (v >> 32) as u32, index: (v & 0xFFFF_FFFF) as u32 }
    }

    /// The handle as one 64-bit number.
    #[verifier::when_used_as_spec(spec_to_u64)]
    pub fn to_u64(self) -> (v: u64)
        ensures
            v == self.spec_to_u64(),
    {
        ((self.generation as u64) << 32) | (self.index as u64)
    }

    /// The handle that a 64-bit number stands for.
    #[verifier::when_used_as_spec(spec_from_u64)]
    pub fn from_u64(v: u64) -> (h: Handle)
        ensures
            h == Handle::spec_from_u64(v),
    {
        Handle { generation: (v >> 32) as u32, index: (v & 0xFFFF_FFFF) as u32 }
    }
}

/// A handle and its 64-bit number stand for each other.
pub proof fn handle_number_round_trip(h: Handle, v: u64)
    ensures
        Handle::spec_from_u64(h.spec_to_u64()) == h,
        Handle::spec_from_u64(v).spec_to_u64() == v,
{
    let g = h.generation;
    let i = h.index;
    assert(((((g as u64) << 32) | (i as u64)) >> 32) as u32 == g) by (bit_vector);
    assert(((((g as u64) << 32) | (i as u64)) & 0xFFFF_FFFF) as u32 == i) by (bit_vector);
    assert(((((v >> 32) as u32) as u64) << 32) | (((v & 0xFFFF_FFFF) as u32) as u64) == v)
        by (bit_vector);
}

/// A slot of the registry: its generation, and its entry while it has one.
#[derive(Debug)]
pub struct Slot {
    pub generation: u32,
    pub entry: Option<Hdl>,
}

impl Slot {
    /// Whether a new entry may go into this slot.
    pub open spec fn reusable(&self) -> bool {
        self.entry is None && self.generation < LAST_GENERATION
    }
}

/// The registry of all that foreign callers hold handles to.
#[derive(Debug)]
pub struct Context {
    slots: Vec<Slot>,
}

impl Context {
    /// The slots, by index.
    pub closed spec fn slots(&self) -> Seq<Slot> {
        self.slots@
    }

    /// Every index is below the one that no slot has, and a slot in its last generation
    /// holds nothing.
    pub open spec fn wf(&self) -> bool {
        &&& self.slots().len() < NO_INDEX
        &&& forall|i: int|
            0 <= i < self.slots().len() && (#[trigger] self.slots()[i]).entry is Some
                ==> self.slots()[i].generation < LAST_GENERATION
    }

    /// Whether `h` names an entry.
    pub open spec fn live(&self, h: Handle) -> bool {
        &&& h.index < self.slots().len()
        &&& self.slots()[h.index as int].generation == h.generation
        &&& self.slots()[h.index as int].entry is Some
    }

    /// The entry that the live handle `h` names.
    pub open spec fn entry(&self, h: Handle) -> Hdl {
        self.slots()[h.index as int].entry->Some_0
    }

    /// Whether `h` names a generation of its slot that is over.
    pub open spec fn stale(&self, h: Handle) -> bool {
        h.index < self.slots().len() && h.generation < self.slots()[h.index as int].generation
    }

    /// What was over stays over.
    pub open spec fn keeps_stale(&self, before: &Context) -> bool {
        forall|h: Handle| before.stale(h) ==> self.stale(h)
    }

    /// A registry without entries.
    pub fn new() -> (c: Context)
        ensures
            c.wf(),
            c.slots().len() == 0,
    {
        Context { slots: Vec::new() }
    }

    /// The entry that `h` names, if it names one.
    pub fn get(&self, h: Handle) -> (r: Option<&Hdl>)
        ensures
            r is Some <==> self.live(h),
            r matches Some(e) ==> *e == self.entry(h),
    {
        if (h.index as usize) < self.slots.len() {
            let slot = &self.slots[h.index as usize];
            if slot.generation == h.generation {
                return slot.entry.as_ref();
            }
        }
        None
    }

    /// The first slot that may take a new entry, or the number of slots if there is none.
    fn first_reusable(&self) -> (i: usize)
        ensures
            i <= self.slots().len(),
            i < self.slots().len() ==> self.slots()[i as int].reusable(),
            forall|j: int| 0 <= j < i ==> !(#[trigger] self.slots()[j]).reusable(),
    {
        let mut i: usize = 0;
        while i < self.slots.len()
            invariant
                i <= self.slots().len(),
                forall|j: int| 0 <= j < i ==> !(#[trigger] self.slots()[j]).reusable(),
            decreases self.slots.len() - i,
        {
            if self.slots[i].entry.is_none() && self.slots[i].generation < LAST_GENERATION {
                return i;
            }
            i += 1;
        }
        i
    }

    /// Takes `hdl` in and gives out the handle that names it from now on.
    ///
    /// The entry goes into the first slot that is free and not in its last generation,
    /// and into a new slot if there is none. The registry is full when there is no such
    /// slot and no index left for a new one; then nothing changes.
    pub fn register(&mut self, hdl: Hdl) -> (r: Option<Handle>)
        requires
            old(self).wf(),
        ensures
            final(self).wf(),
            final(self).keeps_stale(old(self)),
            final(self).took_in(old(self), hdl, r),
    {
        let i = self.first_reusable();
        if i < self.slots.len() {
            let generation = self.slots[i].generation;
            self.slots.set(i, Slot { generation, entry: Some(hdl) });
            Some(Handle { generation, index: i as u32 })
        } else if self.slots.len() + 1 < NO_INDEX as usize {
            self.slots.push(Slot { generation: 0, entry: Some(hdl) });
            Some(Handle { generation: 0, index: i as u32 })
        } else {
            None
        }
    }

    /// Takes the entry that `h` names out of the registry and moves its slot on to the
    /// next generation.
    fn remove(&mut self, h: Handle) -> (r: Hdl)
        requires
            old(self).wf(),
            old(self).live(h),
        ensures
            final(self).wf(),
            final(self).keeps_stale(old(self)),
            r == old(self).entry(h),
            final(self).slots() == old(self).slots().update(
                h.index as int,
                Slot { generation: (h.generation + 1) as u32, entry: None },
            ),
            final(self).stale(h),
            !final(self).live(h),
    {
        let i = h.index as usize;
        let mut slot = Slot { generation: h.generation + 1, entry: None };
        let old_entry = self.slots.set_and_swap(i, &mut slot);
        match slot.entry {
            Some(e) => e,
            None => Hdl::Error(String::new()),
        }
    }

    /// Frees a handle.
    ///
    /// The empty handle may be freed as often as one likes. A handle to mapped memory is
    /// not freed here: it goes when the memory is unmapped. Any other live handle gives
    /// up its entry, which is handed out, and names nothing from now on.
    pub fn free(&mut self, h: Handle) -> (r: Result<Option<Hdl>, HandleError>)
        requires
            old(self).wf(),
        ensures
            final(self).wf(),
            final(self).keeps_stale(old(self)),
            h == Handle::spec_new_empty() ==> r == Ok::<Option<Hdl>, HandleError>(None)
                && final(self).slots() == old(self).slots(),
            h != Handle::spec_new_empty() && !old(self).live(h) ==> r == Err::<
                Option<Hdl>,
                HandleError,
            >(HandleError::InvalidHandle) && final(self).slots() == old(self).slots(),
            old(self).live(h) && old(self).entry(h).spec_kind() == HdlKind::KvmUserMemRegion ==> {
                &&& r == Err::<Option<Hdl>, HandleError>(HandleError::WrongKind)
                &&& final(self).slots() == old(self).slots()
            },
            old(self).live(h) && old(self).entry(h).spec_kind() != HdlKind::KvmUserMemRegion ==> {
                &&& r == Ok::<Option<Hdl>, HandleError>(Some(old(self).entry(h)))
                &&& final(self).slots() == old(self).slots().update(
                    h.index as int,
                    Slot { generation: (h.generation + 1) as u32, entry: None },
                )
                &&& final(self).stale(h)
                &&& !final(self).live(h)
            },
    {
        if h.index == NO_INDEX && h.generation == 0 {
            return Ok(None);
        }
        match self.get(h) {
            Some(e) => {
                if e.kind() == HdlKind::KvmUserMemRegion {
                    return Err(HandleError::WrongKind);
                }
            },
            None => return Err(HandleError::InvalidHandle),
        }
        Ok(Some(self.remove(h)))
    }

    /// Gives up the handle to mapped memory, which is to be unmapped, and hands out the
    /// region.
    pub fn take_user_mem_region(&mut self, h: Handle) -> (r: Result<MemoryRegion, HandleError>)
        requires
            old(self).wf(),
        ensures
            final(self).wf(),
            final(self).keeps_stale(old(self)),
            match lookup(*old(self), h, HdlKind::KvmUserMemRegion) {
                Ok(e) => {
                    &&& r matches Ok(region) && e == Hdl::KvmUserMemRegion(region)
                    &&& final(self).slots() == old(self).slots().update(
                        h.index as int,
                        Slot { generation: (h.generation + 1) as u32, entry: None },
                    )
                    &&& final(self).stale(h)
                    &&& !final(self).live(h)
                },
                Err(x) => r == Err::<MemoryRegion, HandleError>(x) && final(self).slots() == old(
                    self,
                ).slots(),
            },
    {
        match self.get(h) {
            Some(Hdl::KvmUserMemRegion(_)) => {},
            Some(_) => return Err(HandleError::WrongKind),
            None => return Err(HandleError::InvalidHandle),
        }
        match self.remove(h) {
            Hdl::KvmUserMemRegion(region) => Ok(region),
            _ => Err(HandleError::WrongKind),
        }
    }

    /// Takes a failure in and gives out the handle that names it, as `register` takes
    /// any entry in: the failure goes into the first slot that may take it, or into a new
    /// one, and only a full registry gives no handle.
    pub fn register_err(&mut self, message: String) -> (r: Option<Handle>)
        requires
            old(self).wf(),
        ensures
            final(self).wf(),
            final(self).keeps_stale(old(self)),
            final(self).took_in(old(self), Hdl::Error(message), r),
    {
        self.register(Hdl::Error(message))
    }

    /// Whether the registry has room for one more entry: a slot may take one, or there is
    /// an index left for a new slot.
    pub open spec fn has_room(&self) -> bool {
        ||| self.slots().len() + 1 < NO_INDEX
        ||| exists|j: int| 0 <= j < self.slots().len() && (#[trigger] self.slots()[j]).reusable()
    }

    /// What taking `hdl` in makes of the registry `before`, with the handle `r` that is
    /// given out.
    ///
    /// A registry with room gives a handle. The entry stands in the first slot that was
    /// free and not in its last generation, under the generation of that slot, or in a
    /// new slot behind all others if there was none. No other slot changes. The handle
    /// names the entry, and it named nothing before, neither live nor over. A registry
    /// without room gives no handle and stays as it is.
    pub open spec fn took_in(&self, before: &Context, hdl: Hdl, r: Option<Handle>) -> bool {
        match r {
            Some(h) => {
                &&& before.has_room()
                &&& h.index <= before.slots().len()
                &&& forall|j: int| 0 <= j < h.index ==> !(#[trigger] before.slots()[j]).reusable()
                &&& if h.index < before.slots().len() {
                    &&& before.slots()[h.index as int].reusable()
                    &&& h.generation == before.slots()[h.index as int].generation
                    &&& self.slots() == before.slots().update(
                        h.index as int,
                        Slot { generation: h.generation, entry: Some(hdl) },
                    )
                } else {
                    &&& h.generation == 0
                    &&& self.slots() == before.slots().push(
                        Slot { generation: 0, entry: Some(hdl) },
                    )
                }
                &&& self.live(h)
                &&& self.entry(h) == hdl
                &&& !before.live(h)
                &&& !before.stale(h)
            },
            None => {
                &&& !before.has_room()
                &&& self.slots() == before.slots()
            },
        }
    }
}

/// What a handle gives when an entry of kind `kind` is asked of it.
pub open spec fn lookup(ctx: Context, h: Handle, kind: HdlKind) -> Result<Hdl, HandleError> {
    if !ctx.live(h) {
        Err(HandleError::InvalidHandle)
    } else if ctx.entry(h).spec_kind() != kind {
        Err(HandleError::WrongKind)
    } else {
        Ok(ctx.entry(h))
    }
}

/// A handle that names a generation that is over names nothing.
pub proof fn stale_handles_are_dead(ctx: Context, h: Handle)
    requires
        ctx.stale(h),
    ensures
        !ctx.live(h),
        lookup(ctx, h, HdlKind::Kvm) is Err,
{
}

/// The connection to the hypervisor that `handle` names.
pub fn get_kvm(ctx: &Context, handle: Handle) -> (r: Result<&kvm_ioctls::Kvm, HandleError>)
    ensures
        r matches Ok(v) ==> lookup(*ctx, handle, HdlKind::Kvm) == Ok::<Hdl, HandleError>(
            Hdl::Kvm(*v),
        ),
        r matches Err(e) ==> lookup(*ctx, handle, HdlKind::Kvm) == Err::<Hdl, HandleError>(e),
{
    match ctx.get(handle) {
        Some(Hdl::Kvm(v)) => Ok(v),
        Some(_) => Err(HandleError::WrongKind),
        None => Err(HandleError::InvalidHandle),
    }
}

/// The VM that `handle` names.
pub fn get_vmfd(ctx: &Context, handle: Handle) -> (r: Result<&kvm_ioctls::VmFd, HandleError>)
    ensures
        r matches Ok(v) ==> lookup(*ctx, handle, HdlKind::KvmVmFd) == Ok::<Hdl, HandleError>(
            Hdl::KvmVmFd(*v),
        ),
        r matches Err(e) ==> lookup(*ctx, handle, HdlKind::KvmVmFd) == Err::<Hdl, HandleError>(e),
{
    match ctx.get(handle) {
        Some(Hdl::KvmVmFd(v)) => Ok(v),
        Some(_) => Err(HandleError::WrongKind),
        None => Err(HandleError::InvalidHandle),
    }
}

/// The virtual CPU that `handle` names.
pub fn get_vcpufd(ctx: &Context, handle: Handle) -> (r: Result<&kvm_ioctls::VcpuFd, HandleError>)
    ensures
        r matches Ok(v) ==> lookup(*ctx, handle, HdlKind::KvmVcpuFd) == Ok::<Hdl, HandleError>(
            Hdl::KvmVcpuFd(*v),
        ),
        r matches Err(e) ==> lookup(*ctx, handle, HdlKind::KvmVcpuFd) == Err::<Hdl, HandleError>(
            e,
        ),
{
    match ctx.get(handle) {
        Some(Hdl::KvmVcpuFd(v)) => Ok(v),
        Some(_) => Err(HandleError::WrongKind),
        None => Err(HandleError::InvalidHandle),
    }
}

/// The virtual CPU that `handle` names, to run it.
pub fn get_vcpufd_mut(ctx: &mut Context, handle: Handle) -> (r: Result<
    &mut kvm_ioctls::VcpuFd,
    HandleError,
>)
    requires
        old(ctx).wf(),
    ensures
        final(ctx).wf(),
        final(ctx).keeps_stale(old(ctx)),
        r matches Ok(v) ==> lookup(*old(ctx), handle, HdlKind::KvmVcpuFd) == Ok::<
            Hdl,
            HandleError,
        >(Hdl::KvmVcpuFd(*v)) && final(ctx).slots() == old(ctx).slots().update(
            handle.index as int,
            Slot { generation: handle.generation, entry: Some(Hdl::KvmVcpuFd(*final(v))) },
        ),
        r matches Err(e) ==> lookup(*old(ctx), handle, HdlKind::KvmVcpuFd) == Err::<
            Hdl,
            HandleError,
        >(e) && final(ctx).slots() == old(ctx).slots(),
{
    if (handle.index as usize) >= ctx.slots.len() {
        return Err(HandleError::InvalidHandle);
    }
    let slot = &mut ctx.slots[handle.index as usize];
    if slot.generation != handle.generation {
        return Err(HandleError::InvalidHandle);
    }
    match &mut slot.entry {
        Some(Hdl::KvmVcpuFd(v)) => Ok(v),
        Some(_) => Err(HandleError::WrongKind),
        None => Err(HandleError::InvalidHandle),
    }
}

/// The mapped region that `handle` names.
pub fn get_user_mem_region(ctx: &Context, handle: Handle) -> (r: Result<
    &MemoryRegion,
    HandleError,
>)
    ensures
        r matches Ok(v) ==> lookup(*ctx, handle, HdlKind::KvmUserMemRegion) == Ok::<
            Hdl,
            HandleError,
        >(Hdl::KvmUserMemRegion(*v)),
        r matches Err(e) ==> lookup(*ctx, handle, HdlKind::KvmUserMemRegion) == Err::<
            Hdl,
            HandleError,
        >(e),
{
    match ctx.get(handle) {
        Some(Hdl::KvmUserMemRegion(v)) => Ok(v),
        Some(_) => Err(HandleError::WrongKind),
        None => Err(HandleError::InvalidHandle),
    }
}

/// The general-purpose registers that `handle` names.
pub fn get_registers_from_handle(ctx: &Context, handle: Handle) -> (r: Result<&Regs, HandleError>)
    ensures
        r matches Ok(v) ==> lookup(*ctx, handle, HdlKind::KvmRegisters) == Ok::<Hdl, HandleError>(
            Hdl::KvmRegisters(*v),
        ),
        r matches Err(e) ==> lookup(*ctx, handle, HdlKind::KvmRegisters) == Err::<
            Hdl,
            HandleError,
        >(e),
{
    match ctx.get(handle) {
        Some(Hdl::KvmRegisters(v)) => Ok(v),
        Some(_) => Err(HandleError::WrongKind),
        None => Err(HandleError::InvalidHandle),
    }
}

/// The segment and control registers that `handle` names.
pub fn get_sregisters_from_handle(ctx: &Context, handle: Handle) -> (r: Result<
    &SRegs,
    HandleError,
>)
    ensures
        r matches Ok(v) ==> lookup(*ctx, handle, HdlKind::KvmSRegisters) == Ok::<
            Hdl,
            HandleError,
        >(Hdl::KvmSRegisters(*v)),
        r matches Err(e) ==> lookup(*ctx, handle, HdlKind::KvmSRegisters) == Err::<
            Hdl,
            HandleError,
        >(e),
{
    match ctx.get(handle) {
        Some(Hdl::KvmSRegisters(v)) => Ok(v),
        Some(_) => Err(HandleError::WrongKind),
        None => Err(HandleError::InvalidHandle),
    }
}

/// The message of a run of the virtual CPU that `handle` names.
pub fn get_kvm_run_message(ctx: &Context, handle: Handle) -> (r: Result<
    &KvmRunMessage,
    HandleError,
>)
    ensures
        r matches Ok(v) ==> lookup(*ctx, handle, HdlKind::KvmRunMessage) == Ok::<
            Hdl,
            HandleError,
        >(Hdl::KvmRunMessage(*v)),
        r matches Err(e) ==> lookup(*ctx, handle, HdlKind::KvmRunMessage) == Err::<
            Hdl,
            HandleError,
        >(e),
{
    match ctx.get(handle) {
        Some(Hdl::KvmRunMessage(v)) => Ok(v),
        Some(_) => Err(HandleError::WrongKind),
        None => Err(HandleError::InvalidHandle),
    }
}

/// The registers to set on a virtual CPU: those that `sregs_hdl` names, with the part
/// that a caller may set taken from `csregs`.
pub fn merged_sregisters(ctx: &Context, sregs_hdl: Handle, csregs: &CSRegs) -> (r: Result<
    SRegs,
    HandleError,
>)
    ensures
        match lookup(*ctx, sregs_hdl, HdlKind::KvmSRegisters) {
            Ok(e) => r matches Ok(v) && e matches Hdl::KvmSRegisters(stored) && v
                == with_control(stored, *csregs),
            Err(x) => r == Err::<SRegs, HandleError>(x),
        },
{
    let mut sregs = match get_sregisters_from_handle(ctx, sregs_hdl) {
        Ok(r) => *r,
        Err(e) => return Err(e),
    };
    sregs.apply(csregs);
    Ok(sregs)
}

} // verus!
