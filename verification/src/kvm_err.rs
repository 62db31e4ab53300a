use vstd::prelude::*;

verus! {

/// Errors of the virtual-machine bring-up. Each carries a diagnostic text.
#[derive(Debug, Clone, PartialEq)]
pub enum e_KVM {
    UnableToOpen(String),
    MemoryInsufficient(String),
    InvalidMaximum(String),
    InvalidMinimum(String),
    OverflowsCapacity(String),
    /// A vCPU refused its registers or CPUID table.
    CorruptedVCPU(String),
    /// Nested errors, small unmapped errors and propagated errors.
    Custom(String),
}

/// Result of a bring-up operation.
pub type r_KVM<T> = Result<T, e_KVM>;

impl e_KVM {
    /// The header line that introduces the message of this kind of error.
    pub open spec fn spec_header(&self) -> Seq<char> {
        match self {
            e_KVM::UnableToOpen(_) => "[KVM ERROR: UnableToOpenFile]\n"@,
            e_KVM::Custom(_) => "[KVM ERROR: Custom Error]\n"@,
            e_KVM::MemoryInsufficient(_) => "[KVM ERROR: Insufficient Memory]\n"@,
            e_KVM::InvalidMaximum(_) => "[KVM ERROR: Invalid Count [Exceeds Maximum]]\n"@,
            e_KVM::InvalidMinimum(_) => "[KVM ERROR: Invalid Count [Less than Minimum]]\n"@,
            e_KVM::OverflowsCapacity(_) => "[KVM ERROR: Violates the KVM's Constraints]\n"@,
            e_KVM::CorruptedVCPU(_) => "[KVM ERROR: Corrupted/Inconsistent vCPU]\n"@,
        }
    }

    /// The diagnostic text carried by the error.
    pub open spec fn spec_detail(&self) -> Seq<char> {
        match self {
            e_KVM::UnableToOpen(x) => x@,
            e_KVM::Custom(x) => x@,
            e_KVM::MemoryInsufficient(x) => x@,
            e_KVM::InvalidMaximum(x) => x@,
            e_KVM::InvalidMinimum(x) => x@,
            e_KVM::OverflowsCapacity(x) => x@,
            e_KVM::CorruptedVCPU(x) => x@,
        }
    }

    /// The human-readable message: the header line followed by the detail.
    pub fn to_string(&self) -> (s: String)
        ensures
            s@ == self.spec_header() + self.spec_detail(),
    {
        let (header, detail) = match self {
            e_KVM::UnableToOpen(x) => ("[KVM ERROR: UnableToOpenFile]\n", x),
            e_KVM::Custom(x) => ("[KVM ERROR: Custom Error]\n", x),
            e_KVM::MemoryInsufficient(x) => ("[KVM ERROR: Insufficient Memory]\n", x),
            e_KVM::InvalidMaximum(x) => ("[KVM ERROR: Invalid Count [Exceeds Maximum]]\n", x),
            e_KVM::InvalidMinimum(x) => ("[KVM ERROR: Invalid Count [Less than Minimum]]\n", x),
            e_KVM::OverflowsCapacity(x) => ("[KVM ERROR: Violates the KVM's Constraints]\n", x),
            e_KVM::CorruptedVCPU(x) => ("[KVM ERROR: Corrupted/Inconsistent vCPU]\n", x),
        };
        String::from_str(header).concat(detail.as_str())
    }
}

} // verus!
