use zecrovizr::registers::{
    DescriptorTable, Segment, BOOT_CR0, BOOT_CR4, BOOT_EFER, BOOT_RFLAGS,
};
use zecrovizr::{boot_registers, long_mode_registers, SpecialRegisters, BOOT_PARAMS_ADDR, BOOT_STACK_ADDR, KERNEL_LOAD_ADDR};

fn seg(selector: u16) -> Segment {
    Segment {
        base: 0x1000,
        limit: 0xffff,
        selector,
        type_: 3,
        present: 0,
        dpl: 3,
        db: 1,
        s: 0,
        l: 0,
        g: 0,
        avl: 1,
        unusable: 1,
        padding: 0,
    }
}

fn sample() -> SpecialRegisters {
    SpecialRegisters {
        cs: seg(8),
        ds: seg(16),
        es: seg(16),
        fs: seg(0),
        gs: seg(0),
        ss: seg(16),
        tr: seg(24),
        ldt: seg(32),
        gdt: DescriptorTable { base: 0x500, limit: 0x27, padding: [0; 3] },
        idt: DescriptorTable { base: 0x520, limit: 0, padding: [0; 3] },
        cr0: 0x60000010,
        cr2: 0xabc,
        cr3: 0x9000,
        cr4: 0,
        cr8: 1,
        efer: 0,
        apic_base: 0xfee0_0900,
        interrupt_bitmap: [1, 2, 3, 4],
    }
}

#[test]
fn boot_control_register_values() {
    assert_eq!(BOOT_CR0, 0x8005_0033);
    assert_eq!(BOOT_CR0, (1 << 31) | (1 << 18) | (1 << 16) | (1 << 5) | (1 << 4) | (1 << 1) | 1);
    assert_eq!(BOOT_CR4, 0x6f8);
    assert_eq!(BOOT_EFER, 0xd01);
}

#[test]
fn long_mode_special_registers() {
    let before = sample();
    let after = long_mode_registers(before);
    assert_eq!(after.cr0, 0x8005_0033);
    assert_eq!(after.cr4, 0x6f8);
    assert_eq!(after.efer, 0xd01);
    assert_eq!(after.cs.base, 0);
    assert_eq!(after.cs.limit, 0xffff_ffff);
    assert_eq!((after.cs.g, after.cs.db, after.cs.l, after.cs.present), (1, 0, 1, 1));
    assert_eq!((after.cs.dpl, after.cs.s, after.cs.type_), (0, 1, 11));
    assert_eq!((after.cs.selector, after.cs.avl, after.cs.unusable), (8, 1, 1));
    let mut expected_rest = before;
    expected_rest.cr0 = after.cr0;
    expected_rest.cr4 = after.cr4;
    expected_rest.efer = after.efer;
    expected_rest.cs = after.cs;
    assert_eq!(after, expected_rest);
}

#[test]
fn boot_general_registers() {
    let r = boot_registers();
    assert_eq!(r.rip, KERNEL_LOAD_ADDR);
    assert_eq!(r.rip, 0x0010_0000);
    assert_eq!(r.rsp, BOOT_STACK_ADDR);
    assert_eq!(r.rsp, 0x8ff0);
    assert_eq!(r.rsi, BOOT_PARAMS_ADDR);
    assert_eq!(r.rsi, 0x7000);
    assert_eq!(r.rflags, BOOT_RFLAGS);
    assert_eq!(r.rflags, 2);
    let others = [r.rax, r.rbx, r.rcx, r.rdx, r.rdi, r.rbp, r.r8, r.r9, r.r10, r.r11, r.r12, r.r13, r.r14, r.r15];
    assert!(others.iter().all(|v| *v == 0));
}
