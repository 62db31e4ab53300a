use zecrovizr::cpuid::patch_cpuid_entry;
use zecrovizr::{patch_cpuid_entries, CpuidEntry, KVM_MAX_CPUID_ENTRIES};

fn entry(function: u32, ebx: u32, ecx: u32) -> CpuidEntry {
    CpuidEntry { function, index: 3, flags: 1, eax: 0x11, ebx, ecx, edx: 0x22, padding: [1, 2, 3] }
}

#[test]
fn feature_leaf_gets_the_apic_id() {
    let e = patch_cpuid_entry(entry(1, 0xdead_beef, 0xffff_ffff), 5);
    assert_eq!(e.ebx, 0x0500_0000);
    assert_eq!(e.ecx, 0xffff_ffff);
    assert_eq!((e.eax, e.edx, e.index, e.flags, e.padding), (0x11, 0x22, 3, 1, [1, 2, 3]));
    let e = patch_cpuid_entry(entry(1, 0, 0), 0x1ff);
    assert_eq!(e.ebx, 0xff00_0000);
    let e = patch_cpuid_entry(entry(1, 7, 0), 0x1_0000_0003);
    assert_eq!(e.ebx, ((0x1_0000_0003u64 << 24) as u32));
}

#[test]
fn extended_leaf_loses_bit_five() {
    let e = patch_cpuid_entry(entry(0x8000_0001, 9, 0xffff_ffff), 2);
    assert_eq!(e.ecx, 0xffff_ffdf);
    assert_eq!(e.ebx, 9);
    let e = patch_cpuid_entry(entry(0x8000_0001, 9, 0x10), 2);
    assert_eq!(e.ecx, 0x10);
}

#[test]
fn other_leaves_are_untouched() {
    let e = entry(7, 0x1234, 0x5678);
    assert_eq!(patch_cpuid_entry(e, 3), e);
}

#[test]
fn whole_table_and_idempotence() {
    let table = vec![entry(0, 1, 2), entry(1, 3, 4), entry(0x8000_0001, 5, 0x3f), entry(0xd, 6, 7)];
    let mut once = table.clone();
    patch_cpuid_entries(&mut once, 1);
    assert_eq!(once.len(), 4);
    assert_eq!(once[0], table[0]);
    assert_eq!(once[1].ebx, 0x0100_0000);
    assert_eq!(once[2].ecx, 0x1f);
    assert_eq!(once[3], table[3]);
    let mut twice = once.clone();
    patch_cpuid_entries(&mut twice, 1);
    assert_eq!(twice, once);
}

#[test]
fn constants_agree_with_the_kernel_bindings() {
    assert_eq!(KVM_MAX_CPUID_ENTRIES, kvm_bindings::KVM_MAX_CPUID_ENTRIES);
    assert_eq!(zecrovizr::memory::KVM_MEM_LOG_DIRTY_PAGES, kvm_bindings::KVM_MEM_LOG_DIRTY_PAGES);
}
