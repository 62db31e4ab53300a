use vstd::prelude::*;

verus! {

/// One entry of a vCPU's CPUID table, field for field as the kernel lays it out.
#[derive(Debug, Clone, Copy, PartialEq, Eq)]
pub struct CpuidEntry {
    pub function: u32,
    pub index: u32,
    pub flags: u32,
    pub eax: u32,
    pub ebx: u32,
    pub ecx: u32,
    pub edx: u32,
    pub padding: [u32; 3],
}

/// How many CPUID entries are asked of the kernel.
pub const KVM_MAX_CPUID_ENTRIES: usize = 256;

/// The leaf whose EBX carries the initial APIC id in bits 31..24.
pub const CPUID_LEAF_FEATURES: u32 = 1;

/// The extended feature leaf whose ECX bit 5 is withheld from the guest.
pub const CPUID_LEAF_EXT_FEATURES: u32 = 0x8000_0001;

/// EBX of the feature leaf for vCPU `vcpu_id`: the low byte of the id in
/// bits 31..24 and every other bit clear.
pub open spec fn apic_id_ebx(vcpu_id: u64) -> u32 {
    ((vcpu_id % 256) * 0x0100_0000) as u32
}

/// The entry after the bring-up patch for vCPU `vcpu_id`: the feature leaf
/// gets the vCPU's APIC id as its EBX, the extended feature leaf loses bit 5
/// of ECX, and every other entry stays as it is.
pub open spec fn spec_patch_entry(e: CpuidEntry, vcpu_id: u64) -> CpuidEntry {
    if e.function == CPUID_LEAF_FEATURES {
        CpuidEntry { ebx: apic_id_ebx(vcpu_id), ..e }
    } else if e.function == CPUID_LEAF_EXT_FEATURES {
        CpuidEntry { ecx: e.ecx & 0xffff_ffdf, ..e }
    } else {
        e
    }
}

/// Patches one entry for vCPU `vcpu_id`.
pub fn patch_cpuid_entry(e: CpuidEntry, vcpu_id: u64) -> (r: CpuidEntry)
    ensures
        r == spec_patch_entry(e, vcpu_id),
{
    let mut r = e;
    if r.function == 1 {
        let ebx = (vcpu_id << 24) as u32;
        assert(ebx == ((vcpu_id % 256) * 0x0100_0000) as u32) by (bit_vector)
            requires
                ebx == (vcpu_id << 24) as u32,
        ;
        r.ebx = ebx;
    }
    if r.function == 0x8000_0001 {
        let old_ecx = r.ecx;
        let ecx = old_ecx & !(1u32 << 5);
        assert(ecx == old_ecx & 0xffff_ffdf) by (bit_vector)
            requires
                ecx == old_ecx & !(1u32 << 5),
        ;
        r.ecx = ecx;
    }
    r
}

/// Patches a whole CPUID table for vCPU `vcpu_id`, entry by entry.
pub fn patch_cpuid_entries(entries: &mut Vec<CpuidEntry>, vcpu_id: u64)
    ensures
        final(entries)@.len() == old(entries)@.len(),
        forall|i: int|
            0 <= i < old(entries)@.len() ==> #[trigger] final(entries)@[i] == spec_patch_entry(
                old(entries)@[i],
                vcpu_id,
            ),
{
    let n = entries.len();
    let mut i: usize = 0;
    while i < n
        invariant
            n == old(entries)@.len(),
            entries@.len() == n,
            i <= n,
            forall|j: int| 0 <= j < i ==> #[trigger] entries@[j] == spec_patch_entry(old(entries)@[j], vcpu_id),
            forall|j: int| i <= j < n ==> #[trigger] entries@[j] == old(entries)@[j],
        decreases n - i,
    {
        let e = patch_cpuid_entry(entries[i], vcpu_id);
        entries[i] = e;
        i = i + 1;
    }
}

/// Patching is idempotent: a table patched twice for the same vCPU is the
/// table patched once.
pub proof fn lemma_patch_idempotent(e: CpuidEntry, vcpu_id: u64)
    ensures
        spec_patch_entry(spec_patch_entry(e, vcpu_id), vcpu_id) == spec_patch_entry(e, vcpu_id),
{
    let ecx = e.ecx;
    assert((ecx & 0xffff_ffdf) & 0xffff_ffdf == ecx & 0xffff_ffdf) by (bit_vector);
}

/// After the patch, the feature leaf reports the vCPU's id modulo 256 in
/// bits 31..24 of EBX and nothing in bits 23..0, and the extended feature
/// leaf reports bit 5 of ECX as clear.
pub proof fn lemma_patch_reports_apic_id(e: CpuidEntry, vcpu_id: u64)
    ensures
        e.function == CPUID_LEAF_FEATURES ==> spec_patch_entry(e, vcpu_id).ebx >> 24u32 == vcpu_id % 256
            && spec_patch_entry(e, vcpu_id).ebx & 0x00ff_ffff == 0,
        e.function == CPUID_LEAF_EXT_FEATURES ==> spec_patch_entry(e, vcpu_id).ecx & 0x20 == 0,
{
    let ebx = apic_id_ebx(vcpu_id);
    assert(ebx >> 24u32 == vcpu_id % 256 && ebx & 0x00ff_ffff == 0) by (bit_vector)
        requires
            ebx == ((vcpu_id % 256) * 0x0100_0000) as u32,
    ;
    let ecx = e.ecx;
    assert((ecx & 0xffff_ffdf) & 0x20 == 0) by (bit_vector);
}

/// The patch touches one field of two leaves and nothing else: every entry
/// keeps its function, index, flags, EAX, EDX and padding; EBX changes only
/// in the feature leaf (where it becomes the APIC id in bits 31..24), ECX only
/// in the extended feature leaf (where exactly bit 5 is cleared and every
/// other bit is kept); entries of every other leaf come back unchanged.
pub proof fn lemma_patch_touches_only_its_fields(e: CpuidEntry, vcpu_id: u64)
    ensures
        ({
            let p = spec_patch_entry(e, vcpu_id);
            &&& p.function == e.function
            &&& p.index == e.index
            &&& p.flags == e.flags
            &&& p.eax == e.eax
            &&& p.edx == e.edx
            &&& p.padding == e.padding
            &&& e.function != 1 ==> p.ebx == e.ebx
            &&& e.function == 1 ==> p.ebx >> 24u32 == vcpu_id % 256 && p.ebx & 0x00ff_ffff == 0
            &&& e.function != 0x8000_0001 ==> p.ecx == e.ecx
            &&& e.function == 0x8000_0001 ==> p.ecx & 0x20 == 0 && p.ecx | 0x20 == e.ecx | 0x20
            &&& e.function != 1 && e.function != 0x8000_0001 ==> p == e
        }),
{
    lemma_patch_reports_apic_id(e, vcpu_id);
    let ecx = e.ecx;
    assert((ecx & 0xffff_ffdf) | 0x20 == ecx | 0x20) by (bit_vector);
}

} // verus!
