use zecrovizr::text::{decimal_string, parse_usize, str_eq};
use zecrovizr::{e_IO, e_KVM, e_VCPU, DBG_STR};

#[test]
fn io_error_messages() {
    let cases = vec![
        (e_IO::FailedToRegisterDevice("a".to_string()), "[IO ERROR: Failed to register a device interface to DBUS]\na"),
        (e_IO::FailedToUnregisterDevice("b".to_string()), "[IO ERROR: Failed to unregister a device interface to DBUS]\nb"),
        (e_IO::UnableToGetDBUS("c".to_string()), "[IO ERROR: Failed to capture the DBUS]\nc"),
        (e_IO::ShutdownNotReady("d".to_string()), "[IO ERROR: Dbus is busy can't Shutdown]\nd"),
        (e_IO::Custom("e".to_string()), "[IO ERROR: Custom Error]\ne"),
    ];
    for (e, expected) in cases {
        assert_eq!(e.to_string(), expected);
    }
}

#[test]
fn kvm_error_messages() {
    assert_eq!(e_KVM::UnableToOpen("x".to_string()).to_string(), "[KVM ERROR: UnableToOpenFile]\nx");
    assert_eq!(e_KVM::Custom("Misc err".to_string()).to_string(), "[KVM ERROR: Custom Error]\nMisc err");
    assert_eq!(e_KVM::MemoryInsufficient("m".to_string()).to_string(), "[KVM ERROR: Insufficient Memory]\nm");
    assert_eq!(
        e_KVM::InvalidMaximum("m".to_string()).to_string(),
        "[KVM ERROR: Invalid Count [Exceeds Maximum]]\nm"
    );
    assert_eq!(
        e_KVM::InvalidMinimum("m".to_string()).to_string(),
        "[KVM ERROR: Invalid Count [Less than Minimum]]\nm"
    );
    assert_eq!(
        e_KVM::OverflowsCapacity("m".to_string()).to_string(),
        "[KVM ERROR: Violates the KVM's Constraints]\nm"
    );
    assert_eq!(
        e_KVM::CorruptedVCPU("m".to_string()).to_string(),
        "[KVM ERROR: Corrupted/Inconsistent vCPU]\nm"
    );
}

#[test]
fn kvm_errors_compare_by_variant_and_text() {
    assert_eq!(e_KVM::Custom("a".to_string()), e_KVM::Custom("a".to_string()));
    assert_ne!(e_KVM::Custom("a".to_string()), e_KVM::UnableToOpen("a".to_string()));
    assert_ne!(e_KVM::Custom("a".to_string()), e_KVM::Custom("b".to_string()));
}

#[test]
fn vcpu_error_messages() {
    assert_eq!(
        e_VCPU::InvalidVcpuSetup("s".to_string()).to_string(),
        "[VCPU ERROR: Inconsistent vCPU config]\ns"
    );
    assert_eq!(
        e_VCPU::CorruptedVCPU("diagnostic".to_string()).to_string(),
        "[VCPU ERROR: Corrupted/Inconsistent vCPU]\ndiagnostic"
    );
    assert_eq!(e_VCPU::Custom("Misc err".to_string()).to_string(), "[VCPU ERROR: Custom Error]\nMisc err");
}

#[test]
fn debug_banner_frames_its_input() {
    assert_eq!(
        DBG_STR("boom\n"),
        "****** DEBUG ******\nFile: src/utils.rs\nLine: 21\nCol: 13\nboom\n*******************\n"
    );
    assert_eq!(
        DBG_STR(""),
        "****** DEBUG ******\nFile: src/utils.rs\nLine: 21\nCol: 13\n*******************\n"
    );
}

#[test]
fn decimal_matches_std_formatting() {
    for n in [0u64, 7, 9, 10, 42, 100, 256, 536870912, 1234567890123, u64::MAX] {
        assert_eq!(decimal_string(n), format!("{}", n));
    }
}

#[test]
fn parse_usize_matches_std() {
    for s in ["0", "1", "42", "+7", "", "+", "-", "-1", "12a", " 1", "007", "18446744073709551615",
        "18446744073709551616", "99999999999999999999999", "+0", "++1", "é"] {
        assert_eq!(parse_usize(s), s.parse::<usize>().ok(), "input {:?}", s);
    }
}

#[test]
fn str_eq_compares_characters() {
    assert!(str_eq("--smp", "--smp"));
    assert!(!str_eq("--smp", "--sm"));
    assert!(!str_eq("-c", "-h"));
    assert!(str_eq("", ""));
}

#[test]
fn decimal_then_parse_gives_the_number_back() {
    for n in [0usize, 1, 9, 10, 99, 256, 65536, usize::MAX] {
        assert_eq!(parse_usize(&decimal_string(n as u64)), Some(n));
    }
}
