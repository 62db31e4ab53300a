use vstd::prelude::*;

use crate::cpuid::KVM_MAX_CPUID_ENTRIES;
use crate::kvm_err::e_KVM;
use crate::layout::mem_size;
use crate::text::{decimal_string, spec_decimal};
use crate::utils::{spec_dbg_str, DBG_STR};
use crate::vcpu::{eval_vcpu_config, spec_exec_mode, vcpu_setup, ExecMode};

verus! {

/// The bus shared by the vCPUs of a machine for device access.
pub struct DeviceBus;

/// The API version of `/dev/kvm` that the monitor is written against.
pub const KVM_API_VERSION: i32 = 12;

/// The id of the first (boot) vCPU.
pub const BOOT_VCPU_ID: u64 = 0;

/// The steps of bringing up a virtual machine, each one call (or a few
/// calls) into the kernel that the driver performs.
#[derive(Debug, Clone, Copy, PartialEq, Eq, Structural)]
pub enum InitStep {
    /// Open `/dev/kvm`.
    OpenKvm,
    /// Report the API version and the user-memory and immediate-exit capabilities.
    CheckApi,
    /// Create the virtual machine.
    CreateVm,
    /// Map the host memory that backs guest memory.
    MapGuestMemory,
    /// Register that mapping as the guest's memory slot.
    RegisterMemory,
    /// Write the test program into guest memory (debug mode only).
    LoadTestCode,
    /// Report the largest vCPU id the kernel allows.
    CheckVcpuLimit,
    /// Create the in-kernel interrupt controller (SMP mode only, before any vCPU).
    CreateIrqChip,
    /// Create the in-kernel interval timer (SMP mode only).
    CreatePit,
    /// Query the size of the vCPU run area (after the boot vCPU is created).
    QueryRunSize,
    /// Create the vCPU with this id.
    CreateVcpu(u64),
    /// Read the boot vCPU's special registers.
    ReadSpecialRegs,
    /// Write the long-mode special registers to the boot vCPU.
    WriteSpecialRegs,
    /// Write the boot general registers to the boot vCPU.
    WriteRegs,
    /// Read the CPUID entries the kernel supports, for the vCPU with this id.
    ReadSupportedCpuid(u64),
    /// Write the CPUID entries, patched for this vCPU, to the vCPU with this id.
    WriteCpuid(u64),
}

/// Where a bring-up stands.
#[derive(Debug, Clone, Copy, PartialEq, Eq, Structural)]
pub enum InitStage {
    /// Waiting for the outcome of this step.
    Running(InitStep),
    /// Every step succeeded.
    Finished,
    /// A step failed; nothing more is done.
    Stopped,
}

/// What a bring-up is asked to build.
#[derive(Debug, Clone, Copy, PartialEq, Eq, Structural)]
pub struct InitPlan {
    /// Whether the test program is written into guest memory.
    pub debug: bool,
    /// Whether the guest memory slot logs dirty pages.
    pub dirty_log: bool,
    /// How the vCPUs are run; only SMP mode gets the in-kernel interrupt
    /// controller and timer.
    pub mode: ExecMode,
    /// How many vCPUs are created; their ids are `0..vcpu_count`.
    pub vcpu_count: u64,
}

/// What the driver reports after performing a step.
pub enum InitEvent {
    /// The step's calls succeeded.
    Completed,
    /// The answer of the API check.
    ApiReport { version: i32, user_memory: bool, immediate_exit: bool },
    /// The answer of the vCPU limit check.
    VcpuLimit { max_vcpu_id: usize },
    /// A call failed. `reason` is the debug text of the error; `target` is the
    /// debug text of the object involved, where the diagnostic names one (the
    /// vCPU, or the run-area size queried again), and is otherwise ignored.
    Failed { target: String, reason: String },
}

/// A condition under which bring-up cannot go on at all: the driver reports
/// it and ends the process.
pub enum InitAbort {
    /// `/dev/kvm` could not be opened; the framed diagnostic to print before
    /// exiting with status -1.
    KvmUnavailable(String),
    /// The kernel speaks another API version.
    ApiVersionMismatch(i32),
    /// The kernel cannot map user memory into a guest.
    UserMemoryUnsupported,
    /// The kernel lacks the immediate-exit capability.
    ImmediateExitUnsupported,
    /// The host mapping for guest memory failed.
    GuestMemoryUnavailable,
    /// The kernel refused the guest memory slot, for this reason.
    MemoryRegionRejected(String),
    /// The test program could not be written, for this reason.
    TestCodeNotWritten(String),
    /// The kernel allows no vCPU.
    NoVcpuAvailable,
}

/// What the driver does next.
pub enum InitAction {
    /// Perform this step and report its outcome.
    Perform(InitStep),
    /// Bring-up is complete.
    Succeed,
    /// Bring-up failed with this error.
    Fail(e_KVM),
    /// Bring-up cannot go on; end the process.
    Abort(InitAbort),
}

/// The step after `step` when it succeeds. The test program is loaded only
/// in debug mode; the interrupt controller and the timer are created only in
/// SMP mode, after the vCPU limit is checked and before any vCPU exists. Then
/// the vCPUs are created in order of id: each gets its CPUID table, and the
/// boot vCPU, right after its creation, first has the run-area size queried
/// and gets its registers.
pub open spec fn next_stage(step: InitStep, plan: InitPlan) -> InitStage {
    match step {
        InitStep::OpenKvm => InitStage::Running(InitStep::CheckApi),
        InitStep::CheckApi => InitStage::Running(InitStep::CreateVm),
        InitStep::CreateVm => InitStage::Running(InitStep::MapGuestMemory),
        InitStep::MapGuestMemory => InitStage::Running(InitStep::RegisterMemory),
        InitStep::RegisterMemory => if plan.debug {
            InitStage::Running(InitStep::LoadTestCode)
        } else {
            InitStage::Running(InitStep::CheckVcpuLimit)
        },
        InitStep::LoadTestCode => InitStage::Running(InitStep::CheckVcpuLimit),
        InitStep::CheckVcpuLimit => if plan.mode == ExecMode::Smp {
            InitStage::Running(InitStep::CreateIrqChip)
        } else {
            InitStage::Running(InitStep::CreateVcpu(BOOT_VCPU_ID))
        },
        InitStep::CreateIrqChip => InitStage::Running(InitStep::CreatePit),
        InitStep::CreatePit => InitStage::Running(InitStep::CreateVcpu(BOOT_VCPU_ID)),
        InitStep::QueryRunSize => InitStage::Running(InitStep::ReadSpecialRegs),
        InitStep::CreateVcpu(id) => if id == BOOT_VCPU_ID {
            InitStage::Running(InitStep::QueryRunSize)
        } else {
            InitStage::Running(InitStep::ReadSupportedCpuid(id))
        },
        InitStep::ReadSpecialRegs => InitStage::Running(InitStep::WriteSpecialRegs),
        InitStep::WriteSpecialRegs => InitStage::Running(InitStep::WriteRegs),
        InitStep::WriteRegs => InitStage::Running(InitStep::ReadSupportedCpuid(BOOT_VCPU_ID)),
        InitStep::ReadSupportedCpuid(id) => InitStage::Running(InitStep::WriteCpuid(id)),
        InitStep::WriteCpuid(id) => if id + 1 < plan.vcpu_count {
            InitStage::Running(InitStep::CreateVcpu((id + 1) as u64))
        } else {
            InitStage::Finished
        },
    }
}

/// Which events a step can produce: the two checks answer with their
/// report, every other step completes or fails.
pub open spec fn event_fits(step: InitStep, event: InitEvent) -> bool {
    match event {
        InitEvent::ApiReport { .. } => step == InitStep::CheckApi,
        InitEvent::VcpuLimit { .. } => step == InitStep::CheckVcpuLimit,
        _ => step != InitStep::CheckApi && step != InitStep::CheckVcpuLimit,
    }
}

/// Going on after `step` succeeded: the stage moves to the next step, which
/// the driver is asked to perform, or to `Finished` after the last step.
pub open spec fn proceeds(step: InitStep, plan: InitPlan, stage: InitStage, action: InitAction) -> bool {
    &&& stage == next_stage(step, plan)
    &&& match stage {
        InitStage::Running(s) => action matches InitAction::Perform(t) && t == s,
        InitStage::Finished => action is Succeed,
        InitStage::Stopped => false,
    }
}

/// Whether `detail` is `text` framed in the debug banner.
pub open spec fn framed(detail: Seq<char>, text: Seq<char>) -> bool {
    detail == spec_dbg_str(text)
}

/// What a failure of `step` leads to. `target` and `reason` are the debug
/// texts the driver reported.
pub open spec fn failure_action(step: InitStep, target: Seq<char>, reason: Seq<char>, action: InitAction) -> bool {
    match step {
        InitStep::OpenKvm => action matches InitAction::Abort(InitAbort::KvmUnavailable(m)) && framed(
            m@,
            reason,
        ),
        InitStep::CreateVm => action matches InitAction::Fail(e_KVM::UnableToOpen(m)) && framed(
            m@,
            "Unable to Open:\"/dev/kvm\"\nReason: [ "@ + reason + " ]\n"@,
        ),
        InitStep::MapGuestMemory => action matches InitAction::Abort(InitAbort::GuestMemoryUnavailable),
        InitStep::RegisterMemory => action matches InitAction::Abort(
            InitAbort::MemoryRegionRejected(m),
        ) && m@ == reason,
        InitStep::LoadTestCode => action matches InitAction::Abort(InitAbort::TestCodeNotWritten(m))
            && m@ == reason,
        InitStep::CreateIrqChip => action matches InitAction::Fail(e_KVM::Custom(m)) && framed(
            m@,
            "Unable to set In-kernel interrupt controller:\nReason: [ "@ + reason + " ]\n"@,
        ),
        InitStep::CreatePit => action matches InitAction::Fail(e_KVM::Custom(m)) && framed(
            m@,
            "Unable to set In-kernel timed interrupts:\nReason: [ "@ + reason + " ]\n"@,
        ),
        InitStep::QueryRunSize => action matches InitAction::Fail(e_KVM::MemoryInsufficient(m)) && framed(
            m@,
            "Insufficient Memory for kvm_run:\nGot=>( "@ + spec_decimal(mem_size as nat)
                + " ) Expected=>("@ + target + ")\nReason: [ "@ + reason + " ]\n"@,
        ),
        InitStep::CreateVcpu(id) => action matches InitAction::Fail(e_KVM::Custom(m)) && framed(
            m@,
            "Unable to init vcpu"@ + spec_decimal(id as nat) + "\nReason:[ "@ + reason + " ]"@,
        ),
        InitStep::ReadSpecialRegs => action matches InitAction::Fail(e_KVM::CorruptedVCPU(m)) && framed(
            m@,
            "Unable to retrieve vCpu Spec_Registers\nTarget VcpuFd:"@ + target + "\nReason:[ "@ + reason
                + " ]"@,
        ),
        InitStep::WriteSpecialRegs => action matches InitAction::Fail(e_KVM::CorruptedVCPU(m)) && framed(
            m@,
            "Unable to update the vCpu Spec_Registers\nTarget VcpuFd:"@ + target + "\nReason:[ "@
                + reason + " ]"@,
        ),
        InitStep::WriteRegs => action matches InitAction::Fail(e_KVM::CorruptedVCPU(m)) && framed(
            m@,
            "Unable to update the vCpu Registers\nTarget VcpuFd:"@ + target + "\nReason:[ "@ + reason
                + " ]"@,
        ),
        InitStep::ReadSupportedCpuid(_) => action matches InitAction::Fail(e_KVM::InvalidMaximum(m))
            && framed(
            m@,
            "Larger argument passed then expected:\nMax=>("@ + spec_decimal(
                KVM_MAX_CPUID_ENTRIES as nat,
            ) + ")\nReason: [ "@ + reason + " ]\n"@,
        ),
        InitStep::WriteCpuid(id) => action matches InitAction::Fail(e_KVM::CorruptedVCPU(m)) && framed(
            m@,
            "Unbale to write alloced CPUid to vcpu:\nVcpu_id: "@ + spec_decimal(id as nat)
                + "\nReason: [ "@ + reason + " ]\n"@,
        ),
        InitStep::CheckApi | InitStep::CheckVcpuLimit => false,
    }
}

/// The outcome of reporting `event` for `step`: the new stage and the
/// action handed to the driver.
pub open spec fn advance_post(
    step: InitStep,
    plan: InitPlan,
    event: InitEvent,
    stage: InitStage,
    action: InitAction,
) -> bool {
    match event {
        InitEvent::Completed => proceeds(step, plan, stage, action),
        InitEvent::ApiReport { version, user_memory, immediate_exit } => if version != KVM_API_VERSION {
            &&& stage == InitStage::Stopped
            &&& action matches InitAction::Abort(InitAbort::ApiVersionMismatch(v)) && v == version
        } else if !user_memory {
            &&& stage == InitStage::Stopped
            &&& action matches InitAction::Abort(InitAbort::UserMemoryUnsupported)
        } else if !immediate_exit {
            &&& stage == InitStage::Stopped
            &&& action matches InitAction::Abort(InitAbort::ImmediateExitUnsupported)
        } else {
            proceeds(step, plan, stage, action)
        },
        InitEvent::VcpuLimit { max_vcpu_id } => if plan.vcpu_count <= max_vcpu_id {
            proceeds(step, plan, stage, action)
        } else {
            &&& stage == InitStage::Stopped
            &&& action matches InitAction::Abort(InitAbort::NoVcpuAvailable)
        },
        InitEvent::Failed { target, reason } => {
            &&& stage == InitStage::Stopped
            &&& failure_action(step, target@, reason@, action)
        },
    }
}

/// Whether every vCPU id a stage names is one the plan creates.
pub open spec fn ids_in_plan(stage: InitStage, plan: InitPlan) -> bool {
    match stage {
        InitStage::Running(InitStep::CreateVcpu(id)) => id < plan.vcpu_count,
        InitStage::Running(InitStep::ReadSupportedCpuid(id)) => id < plan.vcpu_count,
        InitStage::Running(InitStep::WriteCpuid(id)) => id < plan.vcpu_count,
        _ => true,
    }
}

/// The decision logic of bringing up a virtual machine and its vCPUs.
pub struct KvmInit {
    stage: InitStage,
    plan: InitPlan,
}

fn frame_failure(step: InitStep, target: &str, reason: &str) -> (action: InitAction)
    requires
        step != InitStep::CheckApi,
        step != InitStep::CheckVcpuLimit,
    ensures
        failure_action(step, target@, reason@, action),
{
    match step {
        InitStep::OpenKvm => InitAction::Abort(InitAbort::KvmUnavailable(DBG_STR(reason))),
        InitStep::CreateVm => {
            let text = String::from_str("Unable to Open:\"/dev/kvm\"\nReason: [ ").concat(reason).concat(
                " ]\n",
            );
            InitAction::Fail(e_KVM::UnableToOpen(DBG_STR(text.as_str())))
        },
        InitStep::MapGuestMemory => InitAction::Abort(InitAbort::GuestMemoryUnavailable),
        InitStep::RegisterMemory => InitAction::Abort(
            InitAbort::MemoryRegionRejected(String::from_str(reason)),
        ),
        InitStep::LoadTestCode => InitAction::Abort(InitAbort::TestCodeNotWritten(String::from_str(reason))),
        InitStep::CreateIrqChip => {
            let text = String::from_str(
                "Unable to set In-kernel interrupt controller:\nReason: [ ",
            ).concat(reason).concat(" ]\n");
            InitAction::Fail(e_KVM::Custom(DBG_STR(text.as_str())))
        },
        InitStep::CreatePit => {
            let text = String::from_str("Unable to set In-kernel timed interrupts:\nReason: [ ").concat(
                reason,
            ).concat(" ]\n");
            InitAction::Fail(e_KVM::Custom(DBG_STR(text.as_str())))
        },
        InitStep::QueryRunSize => {
            let size = decimal_string(mem_size);
            let text = String::from_str("Insufficient Memory for kvm_run:\nGot=>( ").concat(
                size.as_str(),
            ).concat(" ) Expected=>(").concat(target).concat(")\nReason: [ ").concat(reason).concat(
                " ]\n",
            );
            InitAction::Fail(e_KVM::MemoryInsufficient(DBG_STR(text.as_str())))
        },
        InitStep::CreateVcpu(id) => {
            let digits = decimal_string(id);
            let text = String::from_str("Unable to init vcpu").concat(digits.as_str()).concat(
                "\nReason:[ ",
            ).concat(reason).concat(" ]");
            InitAction::Fail(e_KVM::Custom(DBG_STR(text.as_str())))
        },
        InitStep::ReadSpecialRegs => {
            let text = String::from_str("Unable to retrieve vCpu Spec_Registers\nTarget VcpuFd:").concat(
                target,
            ).concat("\nReason:[ ").concat(reason).concat(" ]");
            InitAction::Fail(e_KVM::CorruptedVCPU(DBG_STR(text.as_str())))
        },
        InitStep::WriteSpecialRegs => {
            let text = String::from_str("Unable to update the vCpu Spec_Registers\nTarget VcpuFd:").concat(
                target,
            ).concat("\nReason:[ ").concat(reason).concat(" ]");
            InitAction::Fail(e_KVM::CorruptedVCPU(DBG_STR(text.as_str())))
        },
        InitStep::WriteRegs => {
            let text = String::from_str("Unable to update the vCpu Registers\nTarget VcpuFd:").concat(
                target,
            ).concat("\nReason:[ ").concat(reason).concat(" ]");
            InitAction::Fail(e_KVM::CorruptedVCPU(DBG_STR(text.as_str())))
        },
        InitStep::ReadSupportedCpuid(_) => {
            let max = decimal_string(KVM_MAX_CPUID_ENTRIES as u64);
            let text = String::from_str("Larger argument passed then expected:\nMax=>(").concat(
                max.as_str(),
            ).concat(")\nReason: [ ").concat(reason).concat(" ]\n");
            InitAction::Fail(e_KVM::InvalidMaximum(DBG_STR(text.as_str())))
        },
        InitStep::WriteCpuid(id) => {
            let digits = decimal_string(id);
            let text = String::from_str("Unbale to write alloced CPUid to vcpu:\nVcpu_id: ").concat(
                digits.as_str(),
            ).concat("\nReason: [ ").concat(reason).concat(" ]\n");
            InitAction::Fail(e_KVM::CorruptedVCPU(DBG_STR(text.as_str())))
        },
        InitStep::CheckApi | InitStep::CheckVcpuLimit => {
            proof {
                assert(false);
            }
            InitAction::Succeed
        },
    }
}

fn next_stage_exec(step: InitStep, plan: InitPlan) -> (stage: InitStage)
    requires
        ids_in_plan(InitStage::Running(step), plan),
    ensures
        stage == next_stage(step, plan),
        ids_in_plan(stage, plan) || plan.vcpu_count == 0,
{
    match step {
        InitStep::OpenKvm => InitStage::Running(InitStep::CheckApi),
        InitStep::CheckApi => InitStage::Running(InitStep::CreateVm),
        InitStep::CreateVm => InitStage::Running(InitStep::MapGuestMemory),
        InitStep::MapGuestMemory => InitStage::Running(InitStep::RegisterMemory),
        InitStep::RegisterMemory => if plan.debug {
            InitStage::Running(InitStep::LoadTestCode)
        } else {
            InitStage::Running(InitStep::CheckVcpuLimit)
        },
        InitStep::LoadTestCode => InitStage::Running(InitStep::CheckVcpuLimit),
        InitStep::CheckVcpuLimit => if plan.mode == ExecMode::Smp {
            InitStage::Running(InitStep::CreateIrqChip)
        } else {
            InitStage::Running(InitStep::CreateVcpu(BOOT_VCPU_ID))
        },
        InitStep::CreateIrqChip => InitStage::Running(InitStep::CreatePit),
        InitStep::CreatePit => InitStage::Running(InitStep::CreateVcpu(BOOT_VCPU_ID)),
        InitStep::QueryRunSize => InitStage::Running(InitStep::ReadSpecialRegs),
        InitStep::CreateVcpu(id) => if id == BOOT_VCPU_ID {
            InitStage::Running(InitStep::QueryRunSize)
        } else {
            InitStage::Running(InitStep::ReadSupportedCpuid(id))
        },
        InitStep::ReadSpecialRegs => InitStage::Running(InitStep::WriteSpecialRegs),
        InitStep::WriteSpecialRegs => InitStage::Running(InitStep::WriteRegs),
        InitStep::WriteRegs => InitStage::Running(InitStep::ReadSupportedCpuid(BOOT_VCPU_ID)),
        InitStep::ReadSupportedCpuid(id) => InitStage::Running(InitStep::WriteCpuid(id)),
        InitStep::WriteCpuid(id) => if id < plan.vcpu_count - 1 {
            InitStage::Running(InitStep::CreateVcpu(id + 1))
        } else {
            InitStage::Finished
        },
    }
}

impl KvmInit {
    /// Where the bring-up stands.
    pub closed spec fn stage(&self) -> InitStage {
        self.stage
    }

    /// What the bring-up builds.
    pub closed spec fn plan(&self) -> InitPlan {
        self.plan
    }

    /// Whether the bring-up waits for an outcome and `event` is one its
    /// current step can produce.
    pub open spec fn spec_accepts(&self, event: InitEvent) -> bool {
        self.stage() matches InitStage::Running(step) && event_fits(step, event)
    }

    /// Whether the stage names only vCPUs that the plan creates.
    pub closed spec fn wf(&self) -> bool {
        &&& ids_in_plan(self.stage, self.plan)
        &&& self.plan.vcpu_count >= 1
    }

    /// Starts a bring-up for `setup`: `setup.cnt` vCPUs (at least the boot
    /// vCPU, so a count of 0 counts as 1) run in the mode the setup calls for;
    /// `debug` writes the test program into guest memory and `dirty_log` makes
    /// the guest memory slot log dirty pages. The first action opens
    /// `/dev/kvm`.
    pub fn start(setup: vcpu_setup, debug: bool, dirty_log: bool) -> (r: (KvmInit, InitAction))
        ensures
            r.0.stage() == InitStage::Running(InitStep::OpenKvm),
            r.0.plan() == (InitPlan {
                debug,
                dirty_log,
                mode: spec_exec_mode(setup),
                vcpu_count: if setup.cnt == 0 { 1 } else { setup.cnt },
            }),
            r.0.wf(),
            r.1 matches InitAction::Perform(s) && s == InitStep::OpenKvm,
    {
        let mode = eval_vcpu_config(setup);
        let vcpu_count = if setup.cnt == 0 {
            1
        } else {
            setup.cnt
        };
        let plan = InitPlan { debug, dirty_log, mode, vcpu_count };
        (KvmInit { stage: InitStage::Running(InitStep::OpenKvm), plan }, InitAction::Perform(InitStep::OpenKvm))
    }

    /// The step whose outcome is awaited, if any.
    pub fn current_step(&self) -> (r: Option<InitStep>)
        ensures
            r == (match self.stage() {
                InitStage::Running(s) => Some(s),
                _ => None::<InitStep>,
            }),
    {
        match self.stage {
            InitStage::Running(s) => Some(s),
            _ => None,
        }
    }

    /// What the bring-up builds.
    pub fn init_plan(&self) -> (r: InitPlan)
        ensures
            r == self.plan(),
    {
        self.plan
    }

    /// Whether `event` can be reported now.
    pub fn accepts(&self, event: &InitEvent) -> (b: bool)
        ensures
            b == self.spec_accepts(*event),
    {
        match self.stage {
            InitStage::Running(step) => match event {
                InitEvent::ApiReport { .. } => step == InitStep::CheckApi,
                InitEvent::VcpuLimit { .. } => step == InitStep::CheckVcpuLimit,
                _ => step != InitStep::CheckApi && step != InitStep::CheckVcpuLimit,
            },
            _ => false,
        }
    }

    /// Reports the outcome of the current step and returns what to do next.
    pub fn advance(&mut self, event: InitEvent) -> (action: InitAction)
        requires
            old(self).wf(),
            old(self).spec_accepts(event),
        ensures
            old(self).stage() matches InitStage::Running(step) && advance_post(
                step,
                old(self).plan(),
                event,
                final(self).stage(),
                action,
            ),
            final(self).plan() == old(self).plan(),
            final(self).wf(),
    {
        let step = match self.stage {
            InitStage::Running(s) => s,
            _ => {
                proof {
                    assert(false);
                }
                return InitAction::Succeed;
            },
        };
        match event {
            InitEvent::Completed => self.proceed(step),
            InitEvent::ApiReport { version, user_memory, immediate_exit } => {
                if version != KVM_API_VERSION {
                    self.stage = InitStage::Stopped;
                    InitAction::Abort(InitAbort::ApiVersionMismatch(version))
                } else if !user_memory {
                    self.stage = InitStage::Stopped;
                    InitAction::Abort(InitAbort::UserMemoryUnsupported)
                } else if !immediate_exit {
                    self.stage = InitStage::Stopped;
                    InitAction::Abort(InitAbort::ImmediateExitUnsupported)
                } else {
                    self.proceed(step)
                }
            },
            InitEvent::VcpuLimit { max_vcpu_id } => {
                if (self.plan.vcpu_count as u128) <= (max_vcpu_id as u128) {
                    self.proceed(step)
                } else {
                    self.stage = InitStage::Stopped;
                    InitAction::Abort(InitAbort::NoVcpuAvailable)
                }
            },
            InitEvent::Failed { target, reason } => {
                self.stage = InitStage::Stopped;
                frame_failure(step, target.as_str(), reason.as_str())
            },
        }
    }

    fn proceed(&mut self, step: InitStep) -> (action: InitAction)
        requires
            old(self).wf(),
            old(self).stage() == InitStage::Running(step),
        ensures
            proceeds(step, old(self).plan(), final(self).stage(), action),
            final(self).plan() == old(self).plan(),
            final(self).wf(),
    {
        let next = next_stage_exec(step, self.plan);
        self.stage = next;
        match next {
            InitStage::Running(s) => InitAction::Perform(s),
            _ => InitAction::Succeed,
        }
    }
}

/// The position of a step in the bring-up order: the machine-wide steps
/// first, then seven slots per vCPU in order of id.
pub open spec fn step_rank(step: InitStep) -> nat {
    match step {
        InitStep::OpenKvm => 0,
        InitStep::CheckApi => 1,
        InitStep::CreateVm => 2,
        InitStep::MapGuestMemory => 3,
        InitStep::RegisterMemory => 4,
        InitStep::LoadTestCode => 5,
        InitStep::CheckVcpuLimit => 6,
        InitStep::CreateIrqChip => 7,
        InitStep::CreatePit => 8,
        InitStep::CreateVcpu(id) => 9 + 7 * (id as nat),
        InitStep::QueryRunSize => 10,
        InitStep::ReadSpecialRegs => 11,
        InitStep::WriteSpecialRegs => 12,
        InitStep::WriteRegs => 13,
        InitStep::ReadSupportedCpuid(id) => 14 + 7 * (id as nat),
        InitStep::WriteCpuid(id) => 15 + 7 * (id as nat),
    }
}

/// Bring-up never goes back: every step is followed by a later one, so no
/// step is performed twice.
pub proof fn lemma_steps_advance(step: InitStep, plan: InitPlan)
    ensures
        next_stage(step, plan) matches InitStage::Running(t) ==> step_rank(t) > step_rank(step),
        next_stage(step, plan) != InitStage::Stopped,
{
}

/// The in-kernel interrupt controller and timer belong to SMP mode: the
/// controller is reached only in SMP mode, always in SMP mode right after the
/// vCPU limit check, the timer only right after the controller, and both come
/// before every vCPU is created.
pub proof fn lemma_irqchip_only_in_smp(step: InitStep, plan: InitPlan, id: u64)
    ensures
        next_stage(step, plan) == InitStage::Running(InitStep::CreateIrqChip) ==> plan.mode == ExecMode::Smp,
        next_stage(step, plan) == InitStage::Running(InitStep::CreatePit) ==> step == InitStep::CreateIrqChip,
        next_stage(InitStep::CheckVcpuLimit, plan) == InitStage::Running(InitStep::CreateIrqChip)
            <==> plan.mode == ExecMode::Smp,
        step_rank(InitStep::CreateIrqChip) < step_rank(InitStep::CreatePit) < step_rank(
            InitStep::CreateVcpu(id),
        ),
{
}

/// The vCPUs are created one after another in order of id: the boot vCPU
/// right after the machine-wide steps (and followed by the run-area query),
/// vCPU `j > 0` right after vCPU `j - 1` received its CPUID table, and only ids below the planned count; bring-up
/// finishes right after the last vCPU received its CPUID table.
pub proof fn lemma_vcpus_in_order(step: InitStep, plan: InitPlan, j: u64)
    requires
        ids_in_plan(InitStage::Running(step), plan),
    ensures
        next_stage(step, plan) == InitStage::Running(InitStep::CreateVcpu(j)) ==> {
            ||| j == BOOT_VCPU_ID && (step == InitStep::CheckVcpuLimit || step == InitStep::CreatePit)
            ||| j > 0 && step == InitStep::WriteCpuid((j - 1) as u64) && j < plan.vcpu_count
        },
        next_stage(step, plan) == InitStage::Finished ==> plan.vcpu_count >= 1 && step
            == InitStep::WriteCpuid((plan.vcpu_count - 1) as u64),
        step == InitStep::CreateVcpu(BOOT_VCPU_ID) ==> next_stage(step, plan) == InitStage::Running(
            InitStep::QueryRunSize,
        ),
{
}

/// The machine-wide steps of a successful bring-up, in order.
pub open spec fn machine_steps(plan: InitPlan) -> Seq<InitStep> {
    seq![
        InitStep::OpenKvm,
        InitStep::CheckApi,
        InitStep::CreateVm,
        InitStep::MapGuestMemory,
        InitStep::RegisterMemory,
    ] + (if plan.debug {
        seq![InitStep::LoadTestCode]
    } else {
        Seq::empty()
    }) + seq![InitStep::CheckVcpuLimit] + (if plan.mode == ExecMode::Smp {
        seq![InitStep::CreateIrqChip, InitStep::CreatePit]
    } else {
        Seq::empty()
    })
}

/// The steps of a successful bring-up for the vCPU with this id, in order.
pub open spec fn vcpu_steps(id: u64) -> Seq<InitStep> {
    if id == BOOT_VCPU_ID {
        seq![
            InitStep::CreateVcpu(id),
            InitStep::QueryRunSize,
            InitStep::ReadSpecialRegs,
            InitStep::WriteSpecialRegs,
            InitStep::WriteRegs,
            InitStep::ReadSupportedCpuid(id),
            InitStep::WriteCpuid(id),
        ]
    } else {
        seq![InitStep::CreateVcpu(id), InitStep::ReadSupportedCpuid(id), InitStep::WriteCpuid(id)]
    }
}

/// The steps for the vCPUs with ids `0..n`, in order.
pub open spec fn vcpu_blocks(n: nat) -> Seq<InitStep>
    decreases n,
{
    if n == 0 {
        Seq::empty()
    } else {
        vcpu_blocks((n - 1) as nat) + vcpu_steps((n - 1) as u64)
    }
}

/// The steps of a successful bring-up, in order.
pub open spec fn bringup_steps(plan: InitPlan) -> Seq<InitStep> {
    machine_steps(plan) + vcpu_blocks(plan.vcpu_count as nat)
}

/// Each step of `s` is followed by the next one in `s`.
#[verifier::opaque]
pub open spec fn chained(s: Seq<InitStep>, plan: InitPlan) -> bool {
    forall|i: int| 0 <= i < s.len() - 1 ==> next_stage(#[trigger] s[i], plan) == InitStage::Running(s[i + 1])
}

proof fn lemma_chain_concat(a: Seq<InitStep>, b: Seq<InitStep>, plan: InitPlan)
    requires
        a.len() > 0,
        b.len() > 0,
        chained(a, plan),
        chained(b, plan),
        next_stage(a.last(), plan) == InitStage::Running(b[0]),
    ensures
        chained(a + b, plan),
{
    reveal(chained);
    let c = a + b;
    assert forall|i: int| 0 <= i < c.len() - 1 implies next_stage(#[trigger] c[i], plan) == InitStage::Running(
        c[i + 1],
    ) by {
        if i < a.len() - 1 {
            assert(c[i] == a[i] && c[i + 1] == a[i + 1]);
        } else if i == a.len() - 1 {
            assert(c[i] == a.last() && c[i + 1] == b[0]);
        } else {
            assert(c[i] == b[i - a.len()] && c[i + 1] == b[i - a.len() + 1]);
        }
    }
}

proof fn lemma_chain_cons(x: InitStep, s: Seq<InitStep>, plan: InitPlan)
    requires
        s.len() > 0,
        chained(s, plan),
        next_stage(x, plan) == InitStage::Running(s[0]),
    ensures
        chained(seq![x] + s, plan),
{
    reveal(chained);
    assert(chained(seq![x], plan));
    lemma_chain_concat(seq![x], s, plan);
}

proof fn lemma_vcpu_steps(id: u64, plan: InitPlan)
    requires
        id < plan.vcpu_count,
    ensures
        vcpu_steps(id).len() > 0,
        chained(vcpu_steps(id), plan),
        vcpu_steps(id)[0] == InitStep::CreateVcpu(id),
        vcpu_steps(id).last() == InitStep::WriteCpuid(id),
        forall|k: int| 0 <= k < vcpu_steps(id).len() ==> step_rank(#[trigger] vcpu_steps(id)[k]) >= 9,
{
    reveal(chained);
    let v = vcpu_steps(id);
    if id == BOOT_VCPU_ID {
        assert(v.len() == 7);
        assert forall|i: int| 0 <= i < v.len() - 1 implies next_stage(#[trigger] v[i], plan) == InitStage::Running(
            v[i + 1],
        ) by {
            if i == 0 {
            } else if i == 1 {
            } else if i == 2 {
            } else if i == 3 {
            } else if i == 4 {
            } else {
            }
        }
    } else {
        assert(v.len() == 3);
        assert forall|i: int| 0 <= i < v.len() - 1 implies next_stage(#[trigger] v[i], plan) == InitStage::Running(
            v[i + 1],
        ) by {
            if i == 0 {
            } else {
            }
        }
    }
}

proof fn lemma_blocks(n: nat, plan: InitPlan)
    requires
        1 <= n <= plan.vcpu_count,
    ensures
        vcpu_blocks(n).len() > 0,
        chained(vcpu_blocks(n), plan),
        vcpu_blocks(n)[0] == InitStep::CreateVcpu(BOOT_VCPU_ID),
        vcpu_blocks(n).last() == InitStep::WriteCpuid((n - 1) as u64),
        forall|k: int| 0 <= k < vcpu_blocks(n).len() ==> step_rank(#[trigger] vcpu_blocks(n)[k]) >= 9,
        forall|id: u64| id < n ==> vcpu_blocks(n).contains(InitStep::CreateVcpu(id)),
    decreases n,
{
    let b = vcpu_blocks(n);
    let last = vcpu_steps((n - 1) as u64);
    lemma_vcpu_steps((n - 1) as u64, plan);
    if n == 1 {
        assert(b =~= last);
        assert(b[0] == InitStep::CreateVcpu(0));
    } else {
        let p = vcpu_blocks((n - 1) as nat);
        lemma_blocks((n - 1) as nat, plan);
        assert(next_stage(p.last(), plan) == InitStage::Running(last[0]));
        lemma_chain_concat(p, last, plan);
        assert(b == p + last);
        assert(b[0] == p[0]);
        assert forall|k: int| 0 <= k < b.len() implies step_rank(#[trigger] b[k]) >= 9 by {
            if k < p.len() {
                assert(b[k] == p[k]);
            } else {
                assert(b[k] == last[k - p.len()]);
            }
        }
        assert forall|id: u64| id < n implies b.contains(InitStep::CreateVcpu(id)) by {
            if id < n - 1 {
                assert(p.contains(InitStep::CreateVcpu(id)));
                let k = choose|k: int| 0 <= k < p.len() && p[k] == InitStep::CreateVcpu(id);
                assert(b[k] == p[k]);
            } else {
                assert(b[p.len() as int] == last[0]);
            }
        }
    }
}

/// The machine-wide steps in each combination of debug and SMP mode.
proof fn lemma_machine_steps(plan: InitPlan)
    ensures
        machine_steps(plan) == (if plan.debug {
            if plan.mode == ExecMode::Smp {
                seq![InitStep::OpenKvm, InitStep::CheckApi, InitStep::CreateVm, InitStep::MapGuestMemory,
                    InitStep::RegisterMemory, InitStep::LoadTestCode, InitStep::CheckVcpuLimit,
                    InitStep::CreateIrqChip, InitStep::CreatePit]
            } else {
                seq![InitStep::OpenKvm, InitStep::CheckApi, InitStep::CreateVm, InitStep::MapGuestMemory,
                    InitStep::RegisterMemory, InitStep::LoadTestCode, InitStep::CheckVcpuLimit]
            }
        } else {
            if plan.mode == ExecMode::Smp {
                seq![InitStep::OpenKvm, InitStep::CheckApi, InitStep::CreateVm, InitStep::MapGuestMemory,
                    InitStep::RegisterMemory, InitStep::CheckVcpuLimit, InitStep::CreateIrqChip,
                    InitStep::CreatePit]
            } else {
                seq![InitStep::OpenKvm, InitStep::CheckApi, InitStep::CreateVm, InitStep::MapGuestMemory,
                    InitStep::RegisterMemory, InitStep::CheckVcpuLimit]
            }
        }),
{
    let m = machine_steps(plan);
    if plan.debug {
        if plan.mode == ExecMode::Smp {
            assert(m =~= seq![InitStep::OpenKvm, InitStep::CheckApi, InitStep::CreateVm, InitStep::MapGuestMemory,
                InitStep::RegisterMemory, InitStep::LoadTestCode, InitStep::CheckVcpuLimit,
                InitStep::CreateIrqChip, InitStep::CreatePit]);
        } else {
            assert(m =~= seq![InitStep::OpenKvm, InitStep::CheckApi, InitStep::CreateVm, InitStep::MapGuestMemory,
                InitStep::RegisterMemory, InitStep::LoadTestCode, InitStep::CheckVcpuLimit]);
        }
    } else {
        if plan.mode == ExecMode::Smp {
            assert(m =~= seq![InitStep::OpenKvm, InitStep::CheckApi, InitStep::CreateVm, InitStep::MapGuestMemory,
                InitStep::RegisterMemory, InitStep::CheckVcpuLimit, InitStep::CreateIrqChip,
                InitStep::CreatePit]);
        } else {
            assert(m =~= seq![InitStep::OpenKvm, InitStep::CheckApi, InitStep::CreateVm, InitStep::MapGuestMemory,
                InitStep::RegisterMemory, InitStep::CheckVcpuLimit]);
        }
    }
}

proof fn lemma_machine_chained(plan: InitPlan)
    ensures
        machine_steps(plan).len() > 0,
        machine_steps(plan)[0] == InitStep::OpenKvm,
        next_stage(machine_steps(plan).last(), plan) == InitStage::Running(InitStep::CreateVcpu(BOOT_VCPU_ID)),
        forall|k: int| 0 <= k < machine_steps(plan).len() ==> step_rank(#[trigger] machine_steps(plan)[k]) < 9,
        chained(machine_steps(plan), plan),
        machine_steps(plan).contains(InitStep::LoadTestCode) <==> plan.debug,
        machine_steps(plan).contains(InitStep::CreateIrqChip) <==> plan.mode == ExecMode::Smp,
{
    lemma_machine_steps(plan);
    let m = machine_steps(plan);
    // Build the chain from the back, one step at a time.
    reveal(chained);
    let t1 = if plan.mode == ExecMode::Smp {
        let pit = seq![InitStep::CreatePit];
        assert(chained(pit, plan));
        lemma_chain_cons(InitStep::CreateIrqChip, pit, plan);
        lemma_chain_cons(InitStep::CheckVcpuLimit, seq![InitStep::CreateIrqChip] + pit, plan);
        seq![InitStep::CheckVcpuLimit] + (seq![InitStep::CreateIrqChip] + pit)
    } else {
        let limit = seq![InitStep::CheckVcpuLimit];
        assert(chained(limit, plan));
        limit
    };
    let t3 = if plan.debug {
        lemma_chain_cons(InitStep::LoadTestCode, t1, plan);
        seq![InitStep::LoadTestCode] + t1
    } else {
        t1
    };
    lemma_chain_cons(InitStep::RegisterMemory, t3, plan);
    let t4 = seq![InitStep::RegisterMemory] + t3;
    lemma_chain_cons(InitStep::MapGuestMemory, t4, plan);
    let t5 = seq![InitStep::MapGuestMemory] + t4;
    lemma_chain_cons(InitStep::CreateVm, t5, plan);
    let t6 = seq![InitStep::CreateVm] + t5;
    lemma_chain_cons(InitStep::CheckApi, t6, plan);
    let t7 = seq![InitStep::CheckApi] + t6;
    lemma_chain_cons(InitStep::OpenKvm, t7, plan);
    let t8 = seq![InitStep::OpenKvm] + t7;
    assert(t8 =~= m);
    assert forall|k: int| 0 <= k < m.len() implies step_rank(#[trigger] m[k]) < 9 by {}
    if plan.debug {
        assert(m[5] == InitStep::LoadTestCode);
    } else {
        assert forall|k: int| 0 <= k < m.len() implies m[k] != InitStep::LoadTestCode by {}
    }
    if plan.mode == ExecMode::Smp {
        assert(m[m.len() - 2] == InitStep::CreateIrqChip);
    } else {
        assert forall|k: int| 0 <= k < m.len() implies m[k] != InitStep::CreateIrqChip by {}
    }
}

/// A successful bring-up performs exactly the steps of `bringup_steps`, in
/// order: it starts by opening `/dev/kvm`, each step is followed by the next
/// one in the list, and the last step finishes it. The test program is
/// loaded exactly in debug mode, the interrupt controller is created exactly
/// in SMP mode, and every vCPU of the plan is created.
pub proof fn lemma_bringup_order(plan: InitPlan)
    requires
        plan.vcpu_count >= 1,
    ensures
        bringup_steps(plan)[0] == InitStep::OpenKvm,
        chained(bringup_steps(plan), plan),
        next_stage(bringup_steps(plan).last(), plan) == InitStage::Finished,
        bringup_steps(plan).contains(InitStep::LoadTestCode) <==> plan.debug,
        bringup_steps(plan).contains(InitStep::CreateIrqChip) <==> plan.mode == ExecMode::Smp,
        forall|id: u64| id < plan.vcpu_count ==> bringup_steps(plan).contains(InitStep::CreateVcpu(id)),
{
    let m = machine_steps(plan);
    let b = vcpu_blocks(plan.vcpu_count as nat);
    let s = bringup_steps(plan);
    lemma_blocks(plan.vcpu_count as nat, plan);
    lemma_machine_chained(plan);
    lemma_chain_concat(m, b, plan);
    assert(s[0] == m[0]);
    assert(s.last() == b.last());
    assert forall|id: u64| id < plan.vcpu_count implies s.contains(InitStep::CreateVcpu(id)) by {
        assert(b.contains(InitStep::CreateVcpu(id)));
        let k = choose|k: int| 0 <= k < b.len() && b[k] == InitStep::CreateVcpu(id);
        assert(s[m.len() + k] == b[k]);
    }
    assert(s.contains(InitStep::LoadTestCode) <==> m.contains(InitStep::LoadTestCode)) by {
        if s.contains(InitStep::LoadTestCode) {
            let k = choose|k: int| 0 <= k < s.len() && s[k] == InitStep::LoadTestCode;
            if k >= m.len() {
                assert(s[k] == b[k - m.len()]);
            } else {
                assert(s[k] == m[k]);
            }
        }
        if m.contains(InitStep::LoadTestCode) {
            let k = choose|k: int| 0 <= k < m.len() && m[k] == InitStep::LoadTestCode;
            assert(s[k] == m[k]);
        }
    }
    assert(s.contains(InitStep::CreateIrqChip) <==> m.contains(InitStep::CreateIrqChip)) by {
        if s.contains(InitStep::CreateIrqChip) {
            let k = choose|k: int| 0 <= k < s.len() && s[k] == InitStep::CreateIrqChip;
            if k >= m.len() {
                assert(s[k] == b[k - m.len()]);
            } else {
                assert(s[k] == m[k]);
            }
        }
        if m.contains(InitStep::CreateIrqChip) {
            let k = choose|k: int| 0 <= k < m.len() && m[k] == InitStep::CreateIrqChip;
            assert(s[k] == m[k]);
        }
    }
}

/// Once bring-up has finished or stopped, no event is accepted any more:
/// a failure is final.
pub proof fn lemma_end_is_final(init: KvmInit, event: InitEvent)
    requires
        init.stage() == InitStage::Finished || init.stage() == InitStage::Stopped,
    ensures
        !init.spec_accepts(event),
{
}

/// Bring-up succeeds only when the last vCPU's CPUID table is written; a
/// reported failure always stops it with an error or an abort.
pub proof fn lemma_outcomes(
    step: InitStep,
    plan: InitPlan,
    event: InitEvent,
    stage: InitStage,
    action: InitAction,
)
    requires
        ids_in_plan(InitStage::Running(step), plan),
        event_fits(step, event),
        advance_post(step, plan, event, stage, action),
    ensures
        action is Succeed ==> plan.vcpu_count >= 1 && step == InitStep::WriteCpuid(
            (plan.vcpu_count - 1) as u64,
        ) && stage == InitStage::Finished,
        event is Failed ==> stage == InitStage::Stopped && (action is Fail || action is Abort),
        stage == InitStage::Stopped <==> (action is Fail || action is Abort),
{
}

} // verus!
