//! The fixed layout of the memory that host and guest share.
//!
//! From the lowest address up: the header record, the guest's code, shared input
//! (host to guest), shared output (guest to host), the heap, the stack cookie, and
//! the stack, which grows down from `stack_base` towards `stack_limit`.

use vstd::prelude::*;

verus! {

/// Size of a page of host memory; mapped regions are whole pages.
pub const PAGE_SIZE: usize = 4096;

/// Length of the cookie that lies right below the stack.
pub const STACK_COOKIE_LEN: usize = 16;

/// Size of the header record at the start of guest memory.
pub const PEB_SIZE: usize = 256;

/// Length of the length field in front of every frame.
pub const FRAME_PREFIX_LEN: usize = 4;

/// Sizes from which a layout is made.
#[derive(Clone, Copy, Debug, PartialEq, Eq, Structural)]
pub struct SandboxMemoryConfiguration {
    pub code_size: usize,
    pub input_data_size: usize,
    pub output_data_size: usize,
    pub heap_size: usize,
    pub stack_size: usize,
}

/// Offsets of the regions of guest memory, counted from its first byte.
#[derive(Clone, Copy, Debug, PartialEq, Eq, Structural)]
pub struct GuestMemoryLayout {
    pub peb_addr: usize,
    pub code_addr: usize,
    pub code_size: usize,
    pub shared_input_addr: usize,
    pub shared_input_capacity: usize,
    pub shared_output_addr: usize,
    pub shared_output_capacity: usize,
    pub heap_addr: usize,
    pub heap_size: usize,
    pub stack_cookie_addr: usize,
    pub stack_limit: usize,
    pub stack_base: usize,
    pub total_size: usize,
}

/// The least multiple of the page size that is not below `n`.
pub open spec fn page_round_up(n: int) -> int {
    ((n + PAGE_SIZE - 1) / (PAGE_SIZE as int)) * PAGE_SIZE
}

/// Each shared buffer has room for the length field of a frame.
pub open spec fn config_ok(cfg: SandboxMemoryConfiguration) -> bool {
    &&& cfg.input_data_size >= FRAME_PREFIX_LEN
    &&& cfg.output_data_size >= FRAME_PREFIX_LEN
}

/// Where the stack ends when the regions are laid out one after the other.
pub open spec fn layout_end(cfg: SandboxMemoryConfiguration) -> int {
    PEB_SIZE + cfg.code_size + cfg.input_data_size + cfg.output_data_size + cfg.heap_size
        + STACK_COOKIE_LEN + cfg.stack_size
}

/// The layout for `cfg`, if the buffers are large enough and the whole fits the address space.
pub open spec fn layout_of(cfg: SandboxMemoryConfiguration) -> Option<GuestMemoryLayout> {
    if config_ok(cfg) && page_round_up(layout_end(cfg)) <= usize::MAX {
        let code_addr = PEB_SIZE as int;
        let shared_input_addr = code_addr + cfg.code_size;
        let shared_output_addr = shared_input_addr + cfg.input_data_size;
        let heap_addr = shared_output_addr + cfg.output_data_size;
        let stack_cookie_addr = heap_addr + cfg.heap_size;
        let stack_limit = stack_cookie_addr + STACK_COOKIE_LEN;
        let stack_base = stack_limit + cfg.stack_size;
        Some(
            GuestMemoryLayout {
                peb_addr: 0,
                code_addr: code_addr as usize,
                code_size: cfg.code_size,
                shared_input_addr: shared_input_addr as usize,
                shared_input_capacity: cfg.input_data_size,
                shared_output_addr: shared_output_addr as usize,
                shared_output_capacity: cfg.output_data_size,
                heap_addr: heap_addr as usize,
                heap_size: cfg.heap_size,
                stack_cookie_addr: stack_cookie_addr as usize,
                stack_limit: stack_limit as usize,
                stack_base: stack_base as usize,
                total_size: page_round_up(stack_base) as usize,
            },
        )
    } else {
        None
    }
}

/// `a + b`, unless that leaves the address space.
fn offset_after(a: usize, b: usize) -> (r: Option<usize>)
    ensures
        r matches Some(s) ==> s == a + b,
        r is None ==> a + b > usize::MAX,
{
    if b <= usize::MAX - a {
        Some(a + b)
    } else {
        None
    }
}

impl GuestMemoryLayout {
    /// The header record comes first, the regions lie in order, none reaches into the
    /// next, the cookie lies right below the stack, each shared buffer has room for a
    /// length field, and the whole is a number of pages.
    pub open spec fn wf(&self) -> bool {
        &&& self.peb_addr == 0
        &&& self.peb_addr + PEB_SIZE <= self.code_addr
        &&& self.code_addr + self.code_size <= self.shared_input_addr
        &&& self.shared_input_addr + self.shared_input_capacity <= self.shared_output_addr
        &&& self.shared_output_addr + self.shared_output_capacity <= self.heap_addr
        &&& self.heap_addr + self.heap_size <= self.stack_cookie_addr
        &&& self.stack_cookie_addr + STACK_COOKIE_LEN == self.stack_limit
        &&& self.stack_limit <= self.stack_base
        &&& self.stack_base <= self.total_size
        &&& self.total_size % PAGE_SIZE == 0
        &&& self.shared_input_capacity >= FRAME_PREFIX_LEN
        &&& self.shared_output_capacity >= FRAME_PREFIX_LEN
    }

    /// The size of the stack: the distance from its limit up to its base.
    pub open spec fn stack_size(&self) -> int {
        self.stack_base - self.stack_limit
    }

    /// Lays the regions out one after the other and rounds the whole up to pages.
    pub fn new(cfg: SandboxMemoryConfiguration) -> (r: Option<GuestMemoryLayout>)
        ensures
            r == layout_of(cfg),
            r matches Some(l) ==> l.wf() && l.stack_size() == cfg.stack_size,
    {
        if cfg.input_data_size < FRAME_PREFIX_LEN || cfg.output_data_size < FRAME_PREFIX_LEN {
            return None;
        }
        let code_addr = PEB_SIZE;
        let shared_input_addr = offset_after(code_addr, cfg.code_size)?;
        let shared_output_addr = offset_after(shared_input_addr, cfg.input_data_size)?;
        let heap_addr = offset_after(shared_output_addr, cfg.output_data_size)?;
        let stack_cookie_addr = offset_after(heap_addr, cfg.heap_size)?;
        let stack_limit = offset_after(stack_cookie_addr, STACK_COOKIE_LEN)?;
        let stack_base = offset_after(stack_limit, cfg.stack_size)?;
        let padded = offset_after(stack_base, PAGE_SIZE - 1)?;
        let total_size = (padded / PAGE_SIZE) * PAGE_SIZE;
        Some(
            GuestMemoryLayout {
                peb_addr: 0,
                code_addr,
                code_size: cfg.code_size,
                shared_input_addr,
                shared_input_capacity: cfg.input_data_size,
                shared_output_addr,
                shared_output_capacity: cfg.output_data_size,
                heap_addr,
                heap_size: cfg.heap_size,
                stack_cookie_addr,
                stack_limit,
                stack_base,
                total_size,
            },
        )
    }

    /// Whether these offsets are a layout that the sandbox can work on.
    pub fn is_valid(&self) -> (ok: bool)
        ensures
            ok == self.wf(),
    {
        self.peb_addr == 0 && self.peb_addr + PEB_SIZE <= self.code_addr && self.code_size
            <= self.shared_input_addr && self.code_addr <= self.shared_input_addr
            - self.code_size && self.shared_input_capacity <= self.shared_output_addr
            && self.shared_input_addr <= self.shared_output_addr - self.shared_input_capacity
            && self.shared_output_capacity <= self.heap_addr && self.shared_output_addr
            <= self.heap_addr - self.shared_output_capacity && self.heap_size
            <= self.stack_cookie_addr && self.heap_addr <= self.stack_cookie_addr
            - self.heap_size && self.stack_limit >= STACK_COOKIE_LEN && self.stack_cookie_addr
            == self.stack_limit - STACK_COOKIE_LEN && self.stack_limit <= self.stack_base
            && self.stack_base <= self.total_size && self.total_size % PAGE_SIZE == 0
            && self.shared_input_capacity >= FRAME_PREFIX_LEN && self.shared_output_capacity
            >= FRAME_PREFIX_LEN
    }
}

/// The buffers of guest memory that hold frames.
#[derive(Clone, Copy, Debug, PartialEq, Eq, Structural)]
pub enum Buffer {
    /// Where the host leaves frames for the guest.
    SharedInput,
    /// Where the guest leaves frames for the host.
    SharedOutput,
}

impl GuestMemoryLayout {
    /// Where `buffer` starts.
    pub open spec fn spec_buffer_addr(&self, buffer: Buffer) -> usize {
        match buffer {
            Buffer::SharedInput => self.shared_input_addr,
            Buffer::SharedOutput => self.shared_output_addr,
        }
    }

    /// How many bytes `buffer` holds.
    pub open spec fn spec_buffer_capacity(&self, buffer: Buffer) -> usize {
        match buffer {
            Buffer::SharedInput => self.shared_input_capacity,
            Buffer::SharedOutput => self.shared_output_capacity,
        }
    }

    /// Where `buffer` starts.
    #[verifier::when_used_as_spec(spec_buffer_addr)]
    pub fn buffer_addr(&self, buffer: Buffer) -> (a: usize)
        ensures
            a == self.spec_buffer_addr(buffer),
    {
        match buffer {
            Buffer::SharedInput => self.shared_input_addr,
            Buffer::SharedOutput => self.shared_output_addr,
        }
    }

    /// How many bytes `buffer` holds.
    #[verifier::when_used_as_spec(spec_buffer_capacity)]
    pub fn buffer_capacity(&self, buffer: Buffer) -> (c: usize)
        ensures
            c == self.spec_buffer_capacity(buffer),
    {
        match buffer {
            Buffer::SharedInput => self.shared_input_capacity,
            Buffer::SharedOutput => self.shared_output_capacity,
        }
    }
}

/// Each buffer lies within memory, below the cookie, and apart from every other buffer.
pub proof fn lemma_buffers_apart(l: GuestMemoryLayout, a: Buffer, b: Buffer)
    requires
        l.wf(),
    ensures
        l.spec_buffer_addr(a) + l.spec_buffer_capacity(a) <= l.stack_cookie_addr,
        l.stack_cookie_addr + STACK_COOKIE_LEN <= l.total_size,
        l.spec_buffer_capacity(a) >= FRAME_PREFIX_LEN,
        a != b ==> l.spec_buffer_addr(a) + l.spec_buffer_capacity(a) <= l.spec_buffer_addr(b)
            || l.spec_buffer_addr(b) + l.spec_buffer_capacity(b) <= l.spec_buffer_addr(a),
{
}

} // verus!
