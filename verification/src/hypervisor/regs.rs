//! The register banks of a virtual CPU, and the values that bring it up in long mode.

use vstd::prelude::*;

verus! {

/// Protected mode enable, in `cr0`.
pub const CR0_PE: u64 = 0x1;

/// Paging, in `cr0`.
pub const CR0_PG: u64 = 0x8000_0000;

/// Physical address extension, in `cr4`.
pub const CR4_PAE: u64 = 0x20;

/// Long mode enable, in `efer`.
pub const EFER_LME: u64 = 0x100;

/// Long mode active, in `efer`.
pub const EFER_LMA: u64 = 0x400;

/// The one bit of `rflags` that is always set.
pub const RFLAGS_RESERVED: u64 = 0x2;

/// Type of a code segment that can be run and read and has been accessed.
pub const SEGMENT_TYPE_CODE: u8 = 11;

/// Type of a data segment that can be read and written and has been accessed.
pub const SEGMENT_TYPE_DATA: u8 = 3;

/// A segment register.
#[derive(Clone, Copy, Debug, PartialEq, Eq, Structural)]
pub struct Segment {
    pub base: u64,
    pub limit: u32,
    pub selector: u16,
    pub type_: u8,
    pub present: u8,
    pub dpl: u8,
    pub db: u8,
    pub s: u8,
    pub l: u8,
    pub g: u8,
    pub avl: u8,
}

/// A descriptor table register.
#[derive(Clone, Copy, Debug, PartialEq, Eq, Structural)]
pub struct DescriptorTable {
    pub base: u64,
    pub limit: u16,
}

/// The general-purpose registers.
#[derive(Clone, Copy, Debug, PartialEq, Eq, Structural)]
pub struct Regs {
    pub rax: u64,
    pub rbx: u64,
    pub rcx: u64,
    pub rdx: u64,
    pub rsi: u64,
    pub rdi: u64,
    pub rsp: u64,
    pub rbp: u64,
    pub r8: u64,
    pub r9: u64,
    pub r10: u64,
    pub r11: u64,
    pub r12: u64,
    pub r13: u64,
    pub r14: u64,
    pub r15: u64,
    pub rip: u64,
    pub rflags: u64,
}

/// The segment and control registers.
#[derive(Clone, Copy, Debug, PartialEq, Eq, Structural)]
pub struct SRegs {
    pub cs: Segment,
    pub ds: Segment,
    pub es: Segment,
    pub fs: Segment,
    pub gs: Segment,
    pub ss: Segment,
    pub tr: Segment,
    pub ldt: Segment,
    pub gdt: DescriptorTable,
    pub idt: DescriptorTable,
    pub cr0: u64,
    pub cr2: u64,
    pub cr3: u64,
    pub cr4: u64,
    pub efer: u64,
    pub apic_base: u64,
}

/// The part of the segment and control registers that a caller may set.
#[derive(Clone, Copy, Debug, PartialEq, Eq, Structural)]
pub struct CSRegs {
    pub cs: Segment,
    pub cr0: u64,
    pub cr3: u64,
    pub cr4: u64,
    pub efer: u64,
}

/// The flat code segment of long mode.
pub open spec fn code64_segment(old: Segment) -> Segment {
    Segment {
        base: 0,
        limit: 0xFFFF_FFFF,
        type_: SEGMENT_TYPE_CODE,
        present: 1,
        s: 1,
        l: 1,
        g: 1,
        db: 0,
        ..old
    }
}

/// The flat data segment of long mode.
pub open spec fn data64_segment(old: Segment) -> Segment {
    Segment {
        base: 0,
        limit: 0xFFFF_FFFF,
        type_: SEGMENT_TYPE_DATA,
        present: 1,
        s: 1,
        l: 0,
        g: 1,
        db: 1,
        ..old
    }
}

/// The registers that run the guest in long mode with paging, its page tables at
/// `page_table_addr`: flat segments, and the mode bits set on top of what was set.
pub open spec fn long_mode(old: SRegs, page_table_addr: u64) -> SRegs {
    SRegs {
        cs: code64_segment(old.cs),
        ds: data64_segment(old.ds),
        es: data64_segment(old.es),
        fs: data64_segment(old.fs),
        gs: data64_segment(old.gs),
        ss: data64_segment(old.ss),
        cr0: old.cr0 | CR0_PE | CR0_PG,
        cr3: page_table_addr,
        cr4: old.cr4 | CR4_PAE,
        efer: old.efer | EFER_LME | EFER_LMA,
        ..old
    }
}

/// The general-purpose registers from which the guest starts: it runs from `entrypoint`
/// on a stack that grows down from `stack_base`.
pub open spec fn start_regs(entrypoint: u64, stack_base: u64) -> Regs {
    Regs {
        rax: 0,
        rbx: 0,
        rcx: 0,
        rdx: 0,
        rsi: 0,
        rdi: 0,
        rsp: stack_base,
        rbp: 0,
        r8: 0,
        r9: 0,
        r10: 0,
        r11: 0,
        r12: 0,
        r13: 0,
        r14: 0,
        r15: 0,
        rip: entrypoint,
        rflags: RFLAGS_RESERVED,
    }
}

/// `sregs` with the part that a caller may set taken from `csregs`.
pub open spec fn with_control(sregs: SRegs, csregs: CSRegs) -> SRegs {
    SRegs {
        cs: csregs.cs,
        cr0: csregs.cr0,
        cr3: csregs.cr3,
        cr4: csregs.cr4,
        efer: csregs.efer,
        ..sregs
    }
}

/// The part of `sregs` that a caller may set.
pub open spec fn control_of(sregs: SRegs) -> CSRegs {
    CSRegs { cs: sregs.cs, cr0: sregs.cr0, cr3: sregs.cr3, cr4: sregs.cr4, efer: sregs.efer }
}

impl Segment {
    fn code64(self) -> (r: Segment)
        ensures
            r == code64_segment(self),
    {
        Segment {
            base: 0,
            limit: 0xFFFF_FFFF,
            type_: SEGMENT_TYPE_CODE,
            present: 1,
            s: 1,
            l: 1,
            g: 1,
            db: 0,
            ..self
        }
    }

    fn data64(self) -> (r: Segment)
        ensures
            r == data64_segment(self),
    {
        Segment {
            base: 0,
            limit: 0xFFFF_FFFF,
            type_: SEGMENT_TYPE_DATA,
            present: 1,
            s: 1,
            l: 0,
            g: 1,
            db: 1,
            ..self
        }
    }
}

impl Regs {
    /// The registers from which the guest starts.
    pub fn initial(entrypoint: u64, stack_base: u64) -> (r: Regs)
        ensures
            r == start_regs(entrypoint, stack_base),
    {
        Regs {
            rax: 0,
            rbx: 0,
            rcx: 0,
            rdx: 0,
            rsi: 0,
            rdi: 0,
            rsp: stack_base,
            rbp: 0,
            r8: 0,
            r9: 0,
            r10: 0,
            r11: 0,
            r12: 0,
            r13: 0,
            r14: 0,
            r15: 0,
            rip: entrypoint,
            rflags: RFLAGS_RESERVED,
        }
    }
}

impl SRegs {
    /// Sets the registers up for long mode with paging.
    pub fn setup_long_mode(&mut self, page_table_addr: u64)
        ensures
            *final(self) == long_mode(*old(self), page_table_addr),
    {
        self.cs = self.cs.code64();
        self.ds = self.ds.data64();
        self.es = self.es.data64();
        self.fs = self.fs.data64();
        self.gs = self.gs.data64();
        self.ss = self.ss.data64();
        self.cr0 = self.cr0 | CR0_PE | CR0_PG;
        self.cr3 = page_table_addr;
        self.cr4 = self.cr4 | CR4_PAE;
        self.efer = self.efer | EFER_LME | EFER_LMA;
    }

    /// Takes the part that a caller may set from `csregs`.
    pub fn apply(&mut self, csregs: &CSRegs)
        ensures
            *final(self) == with_control(*old(self), *csregs),
    {
        self.cs = csregs.cs;
        self.cr0 = csregs.cr0;
        self.cr3 = csregs.cr3;
        self.cr4 = csregs.cr4;
        self.efer = csregs.efer;
    }
}

impl CSRegs {
    /// The part of `sregs` that a caller may set.
    pub fn from(sregs: &SRegs) -> (r: CSRegs)
        ensures
            r == control_of(*sregs),
    {
        CSRegs { cs: sregs.cs, cr0: sregs.cr0, cr3: sregs.cr3, cr4: sregs.cr4, efer: sregs.efer }
    }
}

/// Long mode sets its bits and leaves every other bit of the control registers as it was.
pub proof fn long_mode_bits(old: SRegs, page_table_addr: u64)
    ensures
        ({
            let new = long_mode(old, page_table_addr);
            &&& new.cr0 & CR0_PE == CR0_PE
            &&& new.cr0 & CR0_PG == CR0_PG
            &&& new.cr4 & CR4_PAE == CR4_PAE
            &&& new.efer & EFER_LME == EFER_LME
            &&& new.efer & EFER_LMA == EFER_LMA
            &&& new.cr0 & !(CR0_PE | CR0_PG) == old.cr0 & !(CR0_PE | CR0_PG)
            &&& new.cr4 & !CR4_PAE == old.cr4 & !CR4_PAE
            &&& new.efer & !(EFER_LME | EFER_LMA) == old.efer & !(EFER_LME | EFER_LMA)
        }),
{
    let a = old.cr0;
    let b = old.cr4;
    let c = old.efer;
    assert((a | 0x1u64 | 0x8000_0000u64) & 0x1u64 == 0x1u64) by (bit_vector);
    assert((a | 0x1u64 | 0x8000_0000u64) & 0x8000_0000u64 == 0x8000_0000u64) by (bit_vector);
    assert((b | 0x20u64) & 0x20u64 == 0x20u64) by (bit_vector);
    assert((c | 0x100u64 | 0x400u64) & 0x100u64 == 0x100u64) by (bit_vector);
    assert((c | 0x100u64 | 0x400u64) & 0x400u64 == 0x400u64) by (bit_vector);
    assert((a | 0x1u64 | 0x8000_0000u64) & !(0x1u64 | 0x8000_0000u64) == a & !(0x1u64
        | 0x8000_0000u64)) by (bit_vector);
    assert((b | 0x20u64) & !0x20u64 == b & !0x20u64) by (bit_vector);
    assert((c | 0x100u64 | 0x400u64) & !(0x100u64 | 0x400u64) == c & !(0x100u64 | 0x400u64))
        by (bit_vector);
}

/// What a caller reads of the registers and writes back unchanged changes nothing.
pub proof fn control_round_trip(sregs: SRegs, csregs: CSRegs)
    ensures
        with_control(sregs, control_of(sregs)) == sregs,
        control_of(with_control(sregs, csregs)) == csregs,
{
}

} // verus!
