use zecrovizr::{
    e_KVM, vcpu_setup, ExecMode, InitAbort, InitAction, InitEvent, InitPlan, InitStep, KvmInit, DBG_STR,
};

fn setup(cnt: u64, smp: bool) -> vcpu_setup {
    vcpu_setup { cnt, smp, dbg: false }
}

fn ok_event(step: InitStep) -> InitEvent {
    match step {
        InitStep::CheckApi => InitEvent::ApiReport { version: 12, user_memory: true, immediate_exit: true },
        InitStep::CheckVcpuLimit => InitEvent::VcpuLimit { max_vcpu_id: 1024 },
        _ => InitEvent::Completed,
    }
}

fn failed(target: &str, reason: &str) -> InitEvent {
    InitEvent::Failed { target: target.to_string(), reason: reason.to_string() }
}

/// Runs a bring-up where every step succeeds and returns the steps performed.
fn successful_run(s: vcpu_setup, debug: bool) -> Vec<InitStep> {
    let (mut init, mut action) = KvmInit::start(s, debug, false);
    let mut steps = Vec::new();
    loop {
        match action {
            InitAction::Perform(step) => {
                assert_eq!(init.current_step(), Some(step));
                steps.push(step);
                let event = ok_event(step);
                assert!(init.accepts(&event));
                action = init.advance(event);
            }
            InitAction::Succeed => break,
            _ => panic!("unexpected failure"),
        }
    }
    assert_eq!(init.current_step(), None);
    assert!(!init.accepts(&InitEvent::Completed));
    steps
}

/// Advances a bring-up to `target`, then reports `event` there.
fn fail_at_with(s: vcpu_setup, target: InitStep, event: InitEvent) -> (KvmInit, InitAction) {
    let (mut init, mut action) = KvmInit::start(s, true, true);
    loop {
        match action {
            InitAction::Perform(step) if step == target => {
                let a = init.advance(event);
                return (init, a);
            }
            InitAction::Perform(step) => action = init.advance(ok_event(step)),
            _ => panic!("did not reach {:?}", target),
        }
    }
}

fn fail_at(target: InitStep, event: InitEvent) -> (KvmInit, InitAction) {
    fail_at_with(setup(3, true), target, event)
}

fn error_of(target: InitStep, event: InitEvent) -> e_KVM {
    match fail_at(target, event).1 {
        InitAction::Fail(e) => e,
        _ => panic!("expected an error"),
    }
}

fn machine(debug: bool, smp: bool) -> Vec<InitStep> {
    let mut v = vec![
        InitStep::OpenKvm,
        InitStep::CheckApi,
        InitStep::CreateVm,
        InitStep::MapGuestMemory,
        InitStep::RegisterMemory,
    ];
    if debug {
        v.push(InitStep::LoadTestCode);
    }
    v.push(InitStep::CheckVcpuLimit);
    if smp {
        v.push(InitStep::CreateIrqChip);
        v.push(InitStep::CreatePit);
    }
    v
}

fn boot_vcpu() -> Vec<InitStep> {
    vec![
        InitStep::CreateVcpu(0),
        InitStep::QueryRunSize,
        InitStep::ReadSpecialRegs,
        InitStep::WriteSpecialRegs,
        InitStep::WriteRegs,
        InitStep::ReadSupportedCpuid(0),
        InitStep::WriteCpuid(0),
    ]
}

fn other_vcpu(id: u64) -> Vec<InitStep> {
    vec![InitStep::CreateVcpu(id), InitStep::ReadSupportedCpuid(id), InitStep::WriteCpuid(id)]
}

#[test]
fn single_threaded_bringup() {
    let mut expected = machine(false, false);
    expected.extend(boot_vcpu());
    assert_eq!(successful_run(setup(1, false), false), expected);
    let mut expected = machine(true, false);
    expected.extend(boot_vcpu());
    assert_eq!(successful_run(setup(1, false), true), expected);
}

#[test]
fn multi_threaded_bringup_has_no_irqchip() {
    let mut expected = machine(false, false);
    expected.extend(boot_vcpu());
    expected.extend(other_vcpu(1));
    expected.extend(other_vcpu(2));
    expected.extend(other_vcpu(3));
    let steps = successful_run(setup(4, false), false);
    assert_eq!(steps, expected);
    assert!(!steps.contains(&InitStep::CreateIrqChip));
    assert!(!steps.contains(&InitStep::CreatePit));
}

#[test]
fn smp_bringup_creates_irqchip_before_the_vcpus() {
    let mut expected = machine(false, true);
    expected.extend(boot_vcpu());
    expected.extend(other_vcpu(1));
    let steps = successful_run(setup(2, true), false);
    assert_eq!(steps, expected);
    let irq = steps.iter().position(|s| *s == InitStep::CreateIrqChip).unwrap();
    let first_vcpu = steps.iter().position(|s| *s == InitStep::CreateVcpu(0)).unwrap();
    assert!(irq < first_vcpu);
}

#[test]
fn start_state() {
    let (init, action) = KvmInit::start(setup(4, true), false, true);
    assert!(matches!(action, InitAction::Perform(InitStep::OpenKvm)));
    assert_eq!(
        init.init_plan(),
        InitPlan { debug: false, dirty_log: true, mode: ExecMode::Smp, vcpu_count: 4 }
    );
    assert!(!init.accepts(&InitEvent::ApiReport { version: 12, user_memory: true, immediate_exit: true }));
    assert!(init.accepts(&InitEvent::Completed));
    let (init, _) = KvmInit::start(setup(4, false), true, false);
    assert_eq!(init.init_plan().mode, ExecMode::MultiThreaded);
}

#[test]
fn api_and_limit_checks_abort() {
    let (init, a) = fail_at(InitStep::CheckApi, InitEvent::ApiReport { version: 11, user_memory: true, immediate_exit: true });
    assert!(matches!(a, InitAction::Abort(InitAbort::ApiVersionMismatch(11))));
    assert!(!init.accepts(&InitEvent::Completed));
    let (_, a) = fail_at(InitStep::CheckApi, InitEvent::ApiReport { version: 12, user_memory: false, immediate_exit: true });
    assert!(matches!(a, InitAction::Abort(InitAbort::UserMemoryUnsupported)));
    let (_, a) = fail_at(InitStep::CheckApi, InitEvent::ApiReport { version: 12, user_memory: true, immediate_exit: false });
    assert!(matches!(a, InitAction::Abort(InitAbort::ImmediateExitUnsupported)));
    let (_, a) = fail_at(InitStep::CheckVcpuLimit, InitEvent::VcpuLimit { max_vcpu_id: 0 });
    assert!(matches!(a, InitAction::Abort(InitAbort::NoVcpuAvailable)));
    let (_, a) = fail_at(InitStep::CheckVcpuLimit, InitEvent::VcpuLimit { max_vcpu_id: 2 });
    assert!(matches!(a, InitAction::Abort(InitAbort::NoVcpuAvailable)));
    let (_, a) = fail_at(InitStep::CheckVcpuLimit, InitEvent::VcpuLimit { max_vcpu_id: 3 });
    assert!(matches!(a, InitAction::Perform(InitStep::CreateIrqChip)));
}

#[test]
fn host_failures_abort() {
    match fail_at(InitStep::OpenKvm, failed("", "Error(2)")).1 {
        InitAction::Abort(InitAbort::KvmUnavailable(m)) => assert_eq!(m, DBG_STR("Error(2)")),
        _ => panic!(),
    }
    assert!(matches!(fail_at(InitStep::MapGuestMemory, failed("", "x")).1, InitAction::Abort(InitAbort::GuestMemoryUnavailable)));
    match fail_at(InitStep::RegisterMemory, failed("", "EINVAL")).1 {
        InitAction::Abort(InitAbort::MemoryRegionRejected(m)) => assert_eq!(m, "EINVAL"),
        _ => panic!(),
    }
    match fail_at(InitStep::LoadTestCode, failed("", "short")).1 {
        InitAction::Abort(InitAbort::TestCodeNotWritten(m)) => assert_eq!(m, "short"),
        _ => panic!(),
    }
}

#[test]
fn kernel_failures_become_errors() {
    assert_eq!(
        error_of(InitStep::CreateVm, failed("", "E")),
        e_KVM::UnableToOpen(DBG_STR("Unable to Open:\"/dev/kvm\"\nReason: [ E ]\n"))
    );
    assert_eq!(
        error_of(InitStep::CreateIrqChip, failed("", "E")),
        e_KVM::Custom(DBG_STR("Unable to set In-kernel interrupt controller:\nReason: [ E ]\n"))
    );
    assert_eq!(
        error_of(InitStep::CreatePit, failed("", "E")),
        e_KVM::Custom(DBG_STR("Unable to set In-kernel timed interrupts:\nReason: [ E ]\n"))
    );
    assert_eq!(
        error_of(InitStep::QueryRunSize, failed("Ok(12288)", "E")),
        e_KVM::MemoryInsufficient(DBG_STR(
            "Insufficient Memory for kvm_run:\nGot=>( 536870912 ) Expected=>(Ok(12288))\nReason: [ E ]\n"
        ))
    );
    assert_eq!(
        error_of(InitStep::CreateVcpu(0), failed("", "E")),
        e_KVM::Custom(DBG_STR("Unable to init vcpu0\nReason:[ E ]"))
    );
    assert_eq!(
        error_of(InitStep::CreateVcpu(2), failed("", "E")),
        e_KVM::Custom(DBG_STR("Unable to init vcpu2\nReason:[ E ]"))
    );
    assert_eq!(
        error_of(InitStep::ReadSpecialRegs, failed("VcpuFd", "E")),
        e_KVM::CorruptedVCPU(DBG_STR("Unable to retrieve vCpu Spec_Registers\nTarget VcpuFd:VcpuFd\nReason:[ E ]"))
    );
    assert_eq!(
        error_of(InitStep::WriteSpecialRegs, failed("VcpuFd", "E")),
        e_KVM::CorruptedVCPU(DBG_STR("Unable to update the vCpu Spec_Registers\nTarget VcpuFd:VcpuFd\nReason:[ E ]"))
    );
    assert_eq!(
        error_of(InitStep::WriteRegs, failed("VcpuFd", "E")),
        e_KVM::CorruptedVCPU(DBG_STR("Unable to update the vCpu Registers\nTarget VcpuFd:VcpuFd\nReason:[ E ]"))
    );
    assert_eq!(
        error_of(InitStep::ReadSupportedCpuid(1), failed("", "E")),
        e_KVM::InvalidMaximum(DBG_STR("Larger argument passed then expected:\nMax=>(256)\nReason: [ E ]\n"))
    );
    assert_eq!(
        error_of(InitStep::WriteCpuid(0), failed("", "E")),
        e_KVM::CorruptedVCPU(DBG_STR("Unbale to write alloced CPUid to vcpu:\nVcpu_id: 0\nReason: [ E ]\n"))
    );
    assert_eq!(
        error_of(InitStep::WriteCpuid(2), failed("", "E")),
        e_KVM::CorruptedVCPU(DBG_STR("Unbale to write alloced CPUid to vcpu:\nVcpu_id: 2\nReason: [ E ]\n"))
    );
}

#[test]
fn failure_is_final() {
    let (init, a) = fail_at(InitStep::CreatePit, failed("", "E"));
    assert!(matches!(a, InitAction::Fail(_)));
    assert_eq!(init.current_step(), None);
    assert!(!init.accepts(&InitEvent::Completed));
    assert!(!init.accepts(&failed("", "again")));
}

#[test]
fn boot_vcpu_is_created_before_the_run_area_query() {
    let steps = successful_run(setup(1, false), false);
    let create = steps.iter().position(|s| *s == InitStep::CreateVcpu(0)).unwrap();
    let query = steps.iter().position(|s| *s == InitStep::QueryRunSize).unwrap();
    assert_eq!(query, create + 1);
    let e = error_of(InitStep::CreateVcpu(0), failed("", "E"));
    assert_eq!(e, e_KVM::Custom(DBG_STR("Unable to init vcpu0\nReason:[ E ]")));
}

#[test]
fn a_count_of_zero_still_creates_the_boot_vcpu() {
    let (init, _) = KvmInit::start(setup(0, false), false, false);
    assert_eq!(init.init_plan().vcpu_count, 1);
    let mut expected = machine(false, false);
    expected.extend(boot_vcpu());
    assert_eq!(successful_run(setup(0, false), false), expected);
}
