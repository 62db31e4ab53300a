use vstd::prelude::*;

use crate::kvm_err::{e_KVM, r_KVM};
use crate::layout::{guest_addr, mem_size};

verus! {

/// Flag of a memory slot that asks the kernel to log the pages the guest dirties.
pub const KVM_MEM_LOG_DIRTY_PAGES: u32 = 1;

/// A guest memory slot, field for field as the kernel takes it.
#[derive(Debug, Clone, Copy, PartialEq, Eq, Structural)]
pub struct MemoryRegion {
    pub slot: u32,
    pub flags: u32,
    pub guest_phys_addr: u64,
    pub memory_size: u64,
    pub userspace_addr: u64,
}

/// The slot that maps the host mapping at `userspace_addr` as guest memory:
/// slot 0, starting at the guest's address 0 and covering all of guest
/// memory, with dirty-page logging exactly when `dirty_log` asks for it.
pub open spec fn spec_guest_memory_region(userspace_addr: u64, dirty_log: bool) -> MemoryRegion {
    MemoryRegion {
        slot: 0,
        flags: if dirty_log { KVM_MEM_LOG_DIRTY_PAGES } else { 0 },
        guest_phys_addr: guest_addr,
        memory_size: mem_size,
        userspace_addr,
    }
}

/// Describes the guest memory slot backed by the host mapping at
/// `userspace_addr`, logging dirty pages when `dirty_log` is set. It never
/// fails.
pub fn init_userspace(userspace_addr: u64, dirty_log: bool) -> (r: r_KVM<MemoryRegion>)
    ensures
        r == Ok::<MemoryRegion, e_KVM>(spec_guest_memory_region(userspace_addr, dirty_log)),
{
    Ok(MemoryRegion {
        slot: 0,
        flags: if dirty_log {
            KVM_MEM_LOG_DIRTY_PAGES
        } else {
            0
        },
        guest_phys_addr: guest_addr,
        memory_size: mem_size,
        userspace_addr,
    })
}

/// The architectures for which a test program exists.
#[derive(Debug, Clone, Copy, PartialEq, Eq, Structural)]
pub enum GuestArch {
    X86_64,
    Aarch64,
    Riscv64,
}

/// The x86-64 test program: write `al + bl` as a digit to port 0x3f8, read
/// the port back, write and read guest address 0x8000 (one MMIO write and
/// one MMIO read), then halt.
pub open spec fn spec_x86_64_test_code() -> Seq<u8> {
    seq![
        0xba, 0xf8, 0x03, // mov $0x3f8, %dx
        0x00, 0xd8, // add %bl, %al
        0x04, 0x30, // add $'0', %al
        0xee, // out %al, %dx
        0xec, // in %dx, %al
        0xc6, 0x06, 0x00, 0x80, 0x00, // movl $0, (0x8000)
        0x8a, 0x16, 0x00, 0x80, // movl (0x8000), %dl
        0xf4, // hlt
    ]
}

/// The aarch64 test program: dirty its own page, store to the address in
/// x0 (an MMIO write), then loop forever.
pub open spec fn spec_aarch64_test_code() -> Seq<u8> {
    seq![
        0x01, 0x00, 0x00, 0x10, // adr x1, <this address>
        0x22, 0x10, 0x00, 0xb9, // str w2, [x1, #16]
        0x02, 0x00, 0x00, 0xb9, // str w2, [x0]
        0x00, 0x00, 0x00, 0x14, // b <this address>
    ]
}

/// The riscv64 test program: dirty its own page, store to the address in
/// a0 (an MMIO write), then loop forever.
pub open spec fn spec_riscv64_test_code() -> Seq<u8> {
    seq![
        0x17, 0x03, 0x00, 0x00, // auipc t1, 0
        0xa3, 0x23, 0x73, 0x00, // sw t2, t1 + 7
        0x23, 0x20, 0x75, 0x00, // sw t2, a0
        0x6f, 0x00, 0x00, 0x00, // j .
    ]
}

/// The test program of an architecture.
pub open spec fn spec_test_code(arch: GuestArch) -> Seq<u8> {
    match arch {
        GuestArch::X86_64 => spec_x86_64_test_code(),
        GuestArch::Aarch64 => spec_aarch64_test_code(),
        GuestArch::Riscv64 => spec_riscv64_test_code(),
    }
}

/// The test program of an architecture.
pub fn asm_test_code(arch: GuestArch) -> (code: Vec<u8>)
    ensures
        code@ == spec_test_code(arch),
{
    let code = match arch {
        GuestArch::X86_64 => vec![
            0xbau8, 0xf8, 0x03, 0x00, 0xd8, 0x04, 0x30, 0xee, 0xec, 0xc6, 0x06, 0x00, 0x80, 0x00, 0x8a,
            0x16, 0x00, 0x80, 0xf4,
        ],
        GuestArch::Aarch64 => vec![
            0x01u8, 0x00, 0x00, 0x10, 0x22, 0x10, 0x00, 0xb9, 0x02, 0x00, 0x00, 0xb9, 0x00, 0x00, 0x00,
            0x14,
        ],
        GuestArch::Riscv64 => vec![
            0x17u8, 0x03, 0x00, 0x00, 0xa3, 0x23, 0x73, 0x00, 0x23, 0x20, 0x75, 0x00, 0x6f, 0x00, 0x00,
            0x00,
        ],
    };
    assert(code@ =~= spec_test_code(arch));
    code
}

/// The smaller of two lengths.
pub open spec fn min_len(a: nat, b: nat) -> nat {
    if a < b {
        a
    } else {
        b
    }
}

/// Writes `code` at the start of `mem` as writing into a byte slice does:
/// as many bytes as fit are copied, the rest of `mem` is left alone, and the
/// number of bytes copied is returned.
pub fn test_code(mem: &mut [u8], code: &[u8]) -> (written: usize)
    ensures
        written == min_len(old(mem)@.len(), code@.len()),
        final(mem)@.len() == old(mem)@.len(),
        final(mem)@ == code@.take(written as int) + old(mem)@.skip(written as int),
{
    let n = if mem.len() < code.len() {
        mem.len()
    } else {
        code.len()
    };
    let mut i: usize = 0;
    while i < n
        invariant
            n == min_len(old(mem)@.len(), code@.len()),
            mem@.len() == old(mem)@.len(),
            i <= n,
            mem@ == code@.take(i as int) + old(mem)@.skip(i as int),
        decreases n - i,
    {
        mem[i] = code[i];
        assert(mem@ =~= code@.take(i + 1) + old(mem)@.skip(i + 1));
        i = i + 1;
    }
    n
}

/// The guest memory slot is the same whatever `dirty_log` says, apart from
/// its flags: it is slot 0, starts at guest-physical address `guest_addr`
/// (0), covers `mem_size` bytes (512 MiB) and is backed at `userspace_addr`;
/// its only possible flag is dirty-page logging, set exactly when
/// `dirty_log` asks for it.
pub proof fn lemma_memory_region(userspace_addr: u64, dirty_log: bool)
    ensures
        ({
            let r = spec_guest_memory_region(userspace_addr, dirty_log);
            &&& r.slot == 0
            &&& r.guest_phys_addr == 0
            &&& r.guest_phys_addr == guest_addr
            &&& r.memory_size == 536870912
            &&& r.memory_size == mem_size
            &&& r.userspace_addr == userspace_addr
            &&& (r.flags == 1) == dirty_log
            &&& (r.flags == 0) == !dirty_log
            &&& r.flags == KVM_MEM_LOG_DIRTY_PAGES || r.flags == 0
        }),
        spec_guest_memory_region(userspace_addr, true) == (MemoryRegion {
            flags: KVM_MEM_LOG_DIRTY_PAGES,
            ..spec_guest_memory_region(userspace_addr, false)
        }),
{
}

/// The x86-64 test program, byte for byte: `mov $0x3f8, %dx` (ba f8 03),
/// `add %bl, %al` (00 d8), `add $'0', %al` (04 30), `out %al, %dx` (ee) at
/// offset 7, `in %dx, %al` (ec) at offset 8, a byte store to guest address
/// 0x8000 (c6 06 00 80 00), a load from it (8a 16 00 80), and `hlt` (f4) last.
/// The aarch64 and riscv64 programs are sixteen bytes, four instructions each.
pub proof fn lemma_test_programs()
    ensures
        spec_test_code(GuestArch::X86_64) == seq![
            0xbau8, 0xf8u8, 0x03u8, 0x00u8, 0xd8u8, 0x04u8, 0x30u8, 0xeeu8, 0xecu8, 0xc6u8,
            0x06u8, 0x00u8, 0x80u8, 0x00u8, 0x8au8, 0x16u8, 0x00u8, 0x80u8, 0xf4u8,
        ],
        spec_test_code(GuestArch::X86_64).len() == 19,
        spec_test_code(GuestArch::X86_64)[7] == 0xee,
        spec_test_code(GuestArch::X86_64)[8] == 0xec,
        spec_test_code(GuestArch::X86_64)[18] == 0xf4,
        spec_test_code(GuestArch::Aarch64) == seq![
            0x01u8, 0x00u8, 0x00u8, 0x10u8, 0x22u8, 0x10u8, 0x00u8, 0xb9u8,
            0x02u8, 0x00u8, 0x00u8, 0xb9u8, 0x00u8, 0x00u8, 0x00u8, 0x14u8,
        ],
        spec_test_code(GuestArch::Riscv64) == seq![
            0x17u8, 0x03u8, 0x00u8, 0x00u8, 0xa3u8, 0x23u8, 0x73u8, 0x00u8,
            0x23u8, 0x20u8, 0x75u8, 0x00u8, 0x6fu8, 0x00u8, 0x00u8, 0x00u8,
        ],
{
    assert(spec_test_code(GuestArch::X86_64) =~= seq![
        0xbau8, 0xf8u8, 0x03u8, 0x00u8, 0xd8u8, 0x04u8, 0x30u8, 0xeeu8, 0xecu8, 0xc6u8,
        0x06u8, 0x00u8, 0x80u8, 0x00u8, 0x8au8, 0x16u8, 0x00u8, 0x80u8, 0xf4u8,
    ]);
    assert(spec_test_code(GuestArch::Aarch64) =~= seq![
        0x01u8, 0x00u8, 0x00u8, 0x10u8, 0x22u8, 0x10u8, 0x00u8, 0xb9u8,
        0x02u8, 0x00u8, 0x00u8, 0xb9u8, 0x00u8, 0x00u8, 0x00u8, 0x14u8,
    ]);
    assert(spec_test_code(GuestArch::Riscv64) =~= seq![
        0x17u8, 0x03u8, 0x00u8, 0x00u8, 0xa3u8, 0x23u8, 0x73u8, 0x00u8,
        0x23u8, 0x20u8, 0x75u8, 0x00u8, 0x6fu8, 0x00u8, 0x00u8, 0x00u8,
    ]);
}

} // verus!
