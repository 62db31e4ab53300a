use vstd::prelude::*;

verus! {

/// Size of guest memory: 512 MiB.
pub const mem_size: u64 = 512 * 1024 * 1024;

/// Guest-physical address where guest memory starts.
pub const guest_addr: u64 = 0x0000;

/// Where the protected-mode kernel of a bzImage is loaded: 1 MiB.
pub const KERNEL_LOAD_ADDR: u64 = 0x0010_0000;

/// Location of the boot_params structure (the zero page).
pub const BOOT_PARAMS_ADDR: u64 = 0x0000_7000;

/// Location of the kernel command line.
pub const CMDLINE_ADDR: u64 = 0x0000_8000;

/// Initial stack of vCPU 0 during boot: the top of the page just below
/// 36 KiB, below the ROM hole, so the stack has room to grow down.
pub const BOOT_STACK_ADDR: u64 = 0x0000_8FF0;

/// Where the initrd is loaded: 128 MiB.
pub const INITRD_ADDR: u64 = 0x0800_0000;

/// Start of the ROM hole below 1 MiB.
pub const ROM_HOLE_ADDR: u64 = 0x000A_0000;

/// The boot layout is consistent: the stack lies below the ROM hole, the zero
/// page lies below the command line, which lies below the stack top, the
/// kernel lies above the ROM hole, and every boot address lies inside guest
/// memory.
pub proof fn lemma_boot_layout()
    ensures
        BOOT_PARAMS_ADDR < CMDLINE_ADDR < BOOT_STACK_ADDR < ROM_HOLE_ADDR <= KERNEL_LOAD_ADDR,
        KERNEL_LOAD_ADDR < INITRD_ADDR < guest_addr + mem_size,
        BOOT_STACK_ADDR % 16 == 0,
{
}

} // verus!
