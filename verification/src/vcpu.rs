use vstd::prelude::*;

use crate::text::{decimal_string, spec_decimal};

verus! {

/// How many vCPUs to create and how to run them.
#[derive(Debug, Clone, Copy)]
pub struct vcpu_setup {
    /// The number of vCPUs to create.
    pub cnt: u64,
    /// SMP mode (in-kernel interrupt controller and timer shared by the vCPUs).
    pub smp: bool,
    /// Debug mode.
    pub dbg: bool,
}

/// Errors of the vCPU layer.
#[derive(Debug, Clone, PartialEq)]
pub enum e_VCPU {
    InvalidVcpuSetup(String),
    CorruptedVCPU(String),
    Custom(String),
}

/// Result of a vCPU operation.
pub type r_VCPU<T> = Result<T, e_VCPU>;

/// How the vCPUs are run.
#[derive(Debug, Clone, Copy, PartialEq, Eq, Structural)]
pub enum ExecMode {
    /// One vCPU, run on the calling thread.
    SingleThreaded,
    /// Several vCPUs, one thread each, without an in-kernel interrupt controller.
    MultiThreaded,
    /// Several vCPUs, one thread each, with the in-kernel interrupt controller and timer.
    Smp,
}

impl e_VCPU {
    /// The header line that introduces the message of this kind of error.
    pub open spec fn spec_header(&self) -> Seq<char> {
        match self {
            e_VCPU::InvalidVcpuSetup(_) => "[VCPU ERROR: Inconsistent vCPU config]\n"@,
            e_VCPU::CorruptedVCPU(_) => "[VCPU ERROR: Corrupted/Inconsistent vCPU]\n"@,
            e_VCPU::Custom(_) => "[VCPU ERROR: Custom Error]\n"@,
        }
    }

    /// The diagnostic text carried by the error.
    pub open spec fn spec_detail(&self) -> Seq<char> {
        match self {
            e_VCPU::InvalidVcpuSetup(x) => x@,
            e_VCPU::CorruptedVCPU(x) => x@,
            e_VCPU::Custom(x) => x@,
        }
    }

    /// The human-readable message: the header line followed by the detail.
    pub fn to_string(&self) -> (s: String)
        ensures
            s@ == self.spec_header() + self.spec_detail(),
    {
        let (header, detail) = match self {
            e_VCPU::InvalidVcpuSetup(x) => ("[VCPU ERROR: Inconsistent vCPU config]\n", x),
            e_VCPU::CorruptedVCPU(x) => ("[VCPU ERROR: Corrupted/Inconsistent vCPU]\n", x),
            e_VCPU::Custom(x) => ("[VCPU ERROR: Custom Error]\n", x),
        };
        String::from_str(header).concat(detail.as_str())
    }
}

/// A vCPU count is usable when it is positive and below the number of
/// hardware threads of the host.
pub open spec fn count_is_usable(cnt: u64, max_threads: u64) -> bool {
    0 < cnt && cnt < max_threads
}

impl vcpu_setup {
    /// Builds a validated setup. `max_threads` is the number of hardware
    /// threads of the host. An unusable count falls back to one vCPU, and SMP
    /// is kept only when the count is usable and at least two, as SMP needs
    /// two or more vCPUs; otherwise it is dropped.
    pub fn new(cnt: u64, smp: bool, dbg: bool, max_threads: u64) -> (s: Self)
        ensures
            s.cnt == (if count_is_usable(cnt, max_threads) { cnt } else { 1 }),
            s.smp == (smp && count_is_usable(cnt, max_threads) && cnt >= 2),
            s.smp ==> s.cnt >= 2,
            s.dbg == dbg,
    {
        let usable = cnt > 0 && cnt < max_threads;
        Self { cnt: if usable { cnt } else { 1 }, smp: smp && usable && cnt >= 2, dbg }
    }
}

/// The execution mode that a setup calls for: SMP with two or more vCPUs and
/// SMP requested, multi-threaded with two or more vCPUs without SMP, and
/// single-threaded otherwise.
pub open spec fn spec_exec_mode(setup: vcpu_setup) -> ExecMode {
    if setup.cnt >= 2 {
        if setup.smp {
            ExecMode::Smp
        } else {
            ExecMode::MultiThreaded
        }
    } else {
        ExecMode::SingleThreaded
    }
}

/// The execution mode follows the vCPU count and SMP flag: a setup runs
/// single-threaded exactly when it has fewer than two vCPUs, in SMP mode
/// exactly when SMP is requested with two or more vCPUs, and multi-threaded
/// exactly when two or more vCPUs run without SMP. In particular single-
/// threaded mode, whose launch runs exactly one vCPU, is chosen only for a
/// single vCPU.
pub proof fn lemma_exec_mode_by_count(setup: vcpu_setup)
    ensures
        spec_exec_mode(setup) == ExecMode::SingleThreaded <==> setup.cnt < 2,
        spec_exec_mode(setup) == ExecMode::Smp <==> (setup.smp && setup.cnt >= 2),
        spec_exec_mode(setup) == ExecMode::MultiThreaded <==> (!setup.smp && setup.cnt >= 2),
{
}

/// Chooses the execution mode of a setup.
pub fn eval_vcpu_config(setup: vcpu_setup) -> (mode: ExecMode)
    ensures
        mode == spec_exec_mode(setup),
{
    if setup.cnt >= 2 {
        if setup.smp {
            ExecMode::Smp
        } else {
            ExecMode::MultiThreaded
        }
    } else {
        ExecMode::SingleThreaded
    }
}

/// SMP mode needs at least two vCPUs: a setup runs in SMP mode only when SMP
/// was requested with a usable count of two or more vCPUs below the host's
/// thread count, and a setup with one vCPU always runs single-threaded.
pub proof fn lemma_smp_needs_two_vcpus(cnt: u64, smp: bool, dbg: bool, max_threads: u64, s: vcpu_setup)
    requires
        s.cnt == (if count_is_usable(cnt, max_threads) { cnt } else { 1 }),
        s.smp == (smp && count_is_usable(cnt, max_threads) && cnt >= 2),
        s.dbg == dbg,
    ensures
        spec_exec_mode(s) == ExecMode::Smp ==> smp && 2 <= cnt < max_threads,
        spec_exec_mode(s) == ExecMode::MultiThreaded ==> !smp && 2 <= cnt < max_threads,
        spec_exec_mode(s) == ExecMode::Smp <==> s.smp,
        s.cnt == 1 ==> spec_exec_mode(s) == ExecMode::SingleThreaded,
        1 <= s.cnt,
{
}

/// How one vCPU is started: its id, and the name of the thread it runs on,
/// or `None` when it runs on the calling thread.
pub struct VcpuLaunch {
    pub id: u64,
    pub thread_name: Option<String>,
}

/// The name of the thread of vCPU `id`: `vcpu-` and the id in decimal.
pub open spec fn spec_thread_name(id: nat) -> Seq<char> {
    "vcpu-"@ + spec_decimal(id)
}

/// Names the thread of vCPU `id`.
pub fn vcpu_thread_name(id: u64) -> (name: String)
    ensures
        name@ == spec_thread_name(id as nat),
{
    String::from_str("vcpu-").concat(decimal_string(id).as_str())
}

/// Whether `l` is how vCPU `i` is started in `mode`.
pub open spec fn launch_is(mode: ExecMode, l: VcpuLaunch, i: int) -> bool {
    &&& l.id == i
    &&& mode == ExecMode::SingleThreaded ==> l.thread_name is None
    &&& mode != ExecMode::SingleThreaded ==> (l.thread_name matches Some(n) && n@ == spec_thread_name(
        i as nat,
    ))
}

/// How the `count` vCPUs are started in `mode`: vCPU `i` gets id `i`; in
/// single-threaded mode the one vCPU runs on the calling thread, otherwise
/// each runs on a thread of its own named after its id.
pub fn plan_vcpu_launch(mode: ExecMode, count: usize) -> (plan: Vec<VcpuLaunch>)
    requires
        mode == ExecMode::SingleThreaded ==> count == 1,
    ensures
        plan.len() == count,
        forall|i: int| 0 <= i < count ==> launch_is(mode, #[trigger] plan[i], i),
{
    let mut plan: Vec<VcpuLaunch> = Vec::new();
    let mut i: usize = 0;
    while i < count
        invariant
            i <= count,
            plan.len() == i,
            mode == ExecMode::SingleThreaded ==> count == 1,
            forall|j: int| 0 <= j < i ==> launch_is(mode, #[trigger] plan[j], j),
        decreases count - i,
    {
        let id = i as u64;
        let thread_name = match mode {
            ExecMode::SingleThreaded => None,
            _ => Some(vcpu_thread_name(id)),
        };
        plan.push(VcpuLaunch { id, thread_name });
        i = i + 1;
    }
    plan
}

} // verus!
