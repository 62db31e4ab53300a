use vstd::prelude::*;

use crate::layout::{BOOT_PARAMS_ADDR, BOOT_STACK_ADDR, KERNEL_LOAD_ADDR};

verus! {

/// A segment register as the kernel describes it.
#[derive(Debug, Clone, Copy, PartialEq, Eq)]
pub struct Segment {
    pub base: u64,
    pub limit: u32,
    pub selector: u16,
    pub type_: u8,
    pub present: u8,
    pub dpl: u8,
    pub db: u8,
    pub s: u8,
    pub l: u8,
    pub g: u8,
    pub avl: u8,
    pub unusable: u8,
    pub padding: u8,
}

/// A descriptor-table register (GDTR or IDTR).
#[derive(Debug, Clone, Copy, PartialEq, Eq)]
pub struct DescriptorTable {
    pub base: u64,
    pub limit: u16,
    pub padding: [u16; 3],
}

/// The special registers of an x86 vCPU.
#[derive(Debug, Clone, Copy, PartialEq, Eq)]
pub struct SpecialRegisters {
    pub cs: Segment,
    pub ds: Segment,
    pub es: Segment,
    pub fs: Segment,
    pub gs: Segment,
    pub ss: Segment,
    pub tr: Segment,
    pub ldt: Segment,
    pub gdt: DescriptorTable,
    pub idt: DescriptorTable,
    pub cr0: u64,
    pub cr2: u64,
    pub cr3: u64,
    pub cr4: u64,
    pub cr8: u64,
    pub efer: u64,
    pub apic_base: u64,
    pub interrupt_bitmap: [u64; 4],
}

/// The general-purpose registers of an x86 vCPU.
#[derive(Debug, Clone, Copy, PartialEq, Eq)]
pub struct GeneralRegisters {
    pub rax: u64,
    pub rbx: u64,
    pub rcx: u64,
    pub rdx: u64,
    pub rsi: u64,
    pub rdi: u64,
    pub rsp: u64,
    pub rbp: u64,
    pub r8: u64,
    pub r9: u64,
    pub r10: u64,
    pub r11: u64,
    pub r12: u64,
    pub r13: u64,
    pub r14: u64,
    pub r15: u64,
    pub rip: u64,
    pub rflags: u64,
}

/// CR0.PE: protected mode.
pub const CR0_PE: u64 = 1;
/// CR0.MP: monitor coprocessor.
pub const CR0_MP: u64 = 1 << 1;
/// CR0.ET: extension type, required on modern CPUs.
pub const CR0_ET: u64 = 1 << 4;
/// CR0.NE: report FPU errors natively.
pub const CR0_NE: u64 = 1 << 5;
/// CR0.WP: write protection in supervisor mode.
pub const CR0_WP: u64 = 1 << 16;
/// CR0.AM: alignment mask.
pub const CR0_AM: u64 = 1 << 18;
/// CR0.PG: paging.
pub const CR0_PG: u64 = 1 << 31;

/// CR0 of the boot vCPU.
pub const BOOT_CR0: u64 = CR0_PG | CR0_AM | CR0_WP | CR0_NE | CR0_ET | CR0_MP | CR0_PE;

/// CR4 of the boot vCPU: the extended features the guest kernel uses.
pub const BOOT_CR4: u64 = 0x0000_06f8;

/// EFER of the boot vCPU: long mode enabled and active, syscall and no-execute.
pub const BOOT_EFER: u64 = 0x0000_0d01;

/// RFLAGS of the boot vCPU: only the reserved bit 1, which x86 requires set.
pub const BOOT_RFLAGS: u64 = 0x0002;

/// The code segment of the boot vCPU: a flat 64-bit kernel code segment
/// (base 0, limit 4 GiB in 4 KiB pages, long mode, present, ring 0, code,
/// execute/read accessed). Selector and the other bits stay as they were.
pub open spec fn spec_flat_code_segment(cs: Segment) -> Segment {
    Segment { base: 0, limit: 0xffff_ffff, g: 1, db: 0, l: 1, present: 1, dpl: 0, s: 1, type_: 11, ..cs }
}

/// The special registers of the boot vCPU, given what the vCPU reported:
/// CR0, CR4 and EFER take their boot values, CS becomes the flat code
/// segment, and everything else is kept.
pub open spec fn spec_long_mode_registers(current: SpecialRegisters) -> SpecialRegisters {
    SpecialRegisters {
        cr0: BOOT_CR0,
        cr4: BOOT_CR4,
        efer: BOOT_EFER,
        cs: spec_flat_code_segment(current.cs),
        ..current
    }
}

/// The special registers of the boot vCPU, given what the vCPU reported.
pub fn long_mode_registers(current: SpecialRegisters) -> (r: SpecialRegisters)
    ensures
        r == spec_long_mode_registers(current),
{
    let mut r = current;
    r.cr0 = BOOT_CR0;
    r.cr4 = BOOT_CR4;
    r.efer = BOOT_EFER;
    r.cs.base = 0;
    r.cs.limit = 0xffff_ffff;
    r.cs.g = 1;
    r.cs.db = 0;
    r.cs.l = 1;
    r.cs.present = 1;
    r.cs.dpl = 0;
    r.cs.s = 1;
    r.cs.type_ = 11;
    r
}

/// The general registers of the boot vCPU: execution starts at the kernel
/// load address with the stack at the boot stack, RSI pointing at the zero
/// page, RFLAGS holding only its reserved bit, and every other register zero.
pub open spec fn spec_boot_registers() -> GeneralRegisters {
    GeneralRegisters {
        rax: 0,
        rbx: 0,
        rcx: 0,
        rdx: 0,
        rsi: BOOT_PARAMS_ADDR,
        rdi: 0,
        rsp: BOOT_STACK_ADDR,
        rbp: 0,
        r8: 0,
        r9: 0,
        r10: 0,
        r11: 0,
        r12: 0,
        r13: 0,
        r14: 0,
        r15: 0,
        rip: KERNEL_LOAD_ADDR,
        rflags: BOOT_RFLAGS,
    }
}

/// The general registers of the boot vCPU.
pub fn boot_registers() -> (r: GeneralRegisters)
    ensures
        r == spec_boot_registers(),
{
    GeneralRegisters {
        rax: 0,
        rbx: 0,
        rcx: 0,
        rdx: 0,
        rsi: BOOT_PARAMS_ADDR,
        rdi: 0,
        rsp: BOOT_STACK_ADDR,
        rbp: 0,
        r8: 0,
        r9: 0,
        r10: 0,
        r11: 0,
        r12: 0,
        r13: 0,
        r14: 0,
        r15: 0,
        rip: KERNEL_LOAD_ADDR,
        rflags: 0x0002,
    }
}

/// The boot register values put the vCPU in 64-bit long mode with paging
/// and protection on: CR0.PG and CR0.PE are set, EFER.LME and EFER.LMA are
/// set, and the code segment is a present 64-bit segment in ring 0.
pub proof fn lemma_boot_state_is_long_mode(current: SpecialRegisters)
    ensures
        spec_long_mode_registers(current).cr0 & CR0_PG != 0,
        spec_long_mode_registers(current).cr0 & CR0_PE != 0,
        spec_long_mode_registers(current).efer & 0x100 != 0,
        spec_long_mode_registers(current).efer & 0x400 != 0,
        spec_long_mode_registers(current).cs.l == 1,
        spec_long_mode_registers(current).cs.present == 1,
        spec_long_mode_registers(current).cs.dpl == 0,
{
    assert(BOOT_CR0 & CR0_PG != 0 && BOOT_CR0 & CR0_PE != 0) by (bit_vector);
    assert(BOOT_EFER & 0x100 != 0 && BOOT_EFER & 0x400 != 0) by (bit_vector);
}

/// The boot vCPU's special registers differ from what the vCPU reported
/// only in CR0 (0x8005_0033), CR4 (0x6f8), EFER (0xd01) and the code
/// segment's base (0), limit (4 GiB - 1), granularity (1), default size (0),
/// long-mode (1), present (1), privilege level (0), descriptor type (1) and
/// segment type (11); every other segment, table, control register, the APIC
/// base, the interrupt bitmap and the code segment's selector, avl, unusable
/// and padding are kept. The general registers are zero except RIP at the
/// kernel load address (1 MiB), RSP at the boot stack (0x8ff0), RSI at the
/// zero page (0x7000) and RFLAGS holding bit 1 only.
pub proof fn lemma_boot_register_values(current: SpecialRegisters)
    ensures
        ({
            let r = spec_long_mode_registers(current);
            &&& r.cr0 == 0x8005_0033 && r.cr4 == 0x6f8 && r.efer == 0xd01
            &&& r.ds == current.ds && r.es == current.es && r.fs == current.fs && r.gs == current.gs
            &&& r.ss == current.ss && r.tr == current.tr && r.ldt == current.ldt
            &&& r.gdt == current.gdt && r.idt == current.idt
            &&& r.cr2 == current.cr2 && r.cr3 == current.cr3 && r.cr8 == current.cr8
            &&& r.apic_base == current.apic_base && r.interrupt_bitmap == current.interrupt_bitmap
            &&& r.cs.base == 0 && r.cs.limit == 0xffff_ffff && r.cs.g == 1 && r.cs.db == 0
            &&& r.cs.l == 1 && r.cs.present == 1 && r.cs.dpl == 0 && r.cs.s == 1 && r.cs.type_ == 11
            &&& r.cs.selector == current.cs.selector && r.cs.avl == current.cs.avl
            &&& r.cs.unusable == current.cs.unusable && r.cs.padding == current.cs.padding
        }),
        ({
            let g = spec_boot_registers();
            &&& g.rip == 0x0010_0000 && g.rsp == 0x8ff0 && g.rsi == 0x7000 && g.rflags == 2
            &&& g.rax == 0 && g.rbx == 0 && g.rcx == 0 && g.rdx == 0 && g.rdi == 0 && g.rbp == 0
            &&& g.r8 == 0 && g.r9 == 0 && g.r10 == 0 && g.r11 == 0 && g.r12 == 0 && g.r13 == 0
            &&& g.r14 == 0 && g.r15 == 0
        }),
{
    assert(BOOT_CR0 == 0x8005_0033) by (bit_vector);
}

} // verus!
