use zecrovizr::{parse_args_from, ArgError, ArgsOutcome, Zecro_conf};

/// The argument list a process named `ZecroVizR` receives for these options.
fn args(opts: &[&str]) -> Vec<String> {
    let mut v = vec!["ZecroVizR".to_string()];
    v.extend(opts.iter().map(|s| s.to_string()));
    v
}

fn run(opts: &[&str], limit: usize) -> Zecro_conf {
    match parse_args_from(&args(opts), limit) {
        Ok(ArgsOutcome::Run(c)) => c,
        Ok(ArgsOutcome::Help) => panic!("help requested"),
        Err(e) => panic!("refused: {:?}", e),
    }
}

fn refused(opts: &[&str], limit: usize) -> Option<ArgError> {
    parse_args_from(&args(opts), limit).err()
}

#[test]
fn default_configuration() {
    let c = Zecro_conf::new();
    assert_eq!(c.vcpu_cnt(), 1);
    assert!(!c.is_smp());
    assert!(!c.dirty_log());
    assert!(c.kargs().is_empty());
}

#[test]
fn program_name_alone_gives_defaults() {
    let c = run(&[], 8);
    assert_eq!(c.vcpu_cnt(), 1);
    assert!(!c.is_smp());
    assert!(!c.dirty_log());
    assert!(c.kargs().is_empty());
    let empty: Vec<String> = Vec::new();
    assert!(matches!(parse_args_from(&empty, 8), Ok(ArgsOutcome::Run(_))));
}

#[test]
fn program_name_is_never_an_option() {
    let v = vec!["--smp".to_string(), "-c".to_string(), "1".to_string()];
    let c = match parse_args_from(&v, 8) {
        Ok(ArgsOutcome::Run(c)) => c,
        _ => panic!(),
    };
    assert!(!c.is_smp());
    assert_eq!(c.vcpu_cnt(), 1);
}

#[test]
fn usage_modes() {
    let c = run(&["--vcpus", "4"], 8);
    assert_eq!(c.vcpu_cnt(), 4);
    assert!(!c.is_smp() && !c.dirty_log() && c.kargs().is_empty());
    let c = run(&["--vcpus", "4", "--smp"], 8);
    assert_eq!(c.vcpu_cnt(), 4);
    assert!(c.is_smp() && !c.dirty_log() && c.kargs().is_empty());
}

#[test]
fn vcpu_count_and_flags() {
    let c = run(&["--vcpus", "4", "--smp", "--dirty-log"], 8);
    assert_eq!(c.vcpu_cnt(), 4);
    assert!(c.is_smp());
    assert!(c.dirty_log());
    let c = run(&["--dirty-log"], 8);
    assert!(c.dirty_log());
    assert_eq!(c.vcpu_cnt(), 1);
}

#[test]
fn vcpu_count_is_clamped_to_the_host() {
    assert_eq!(run(&["-c", "100"], 8).vcpu_cnt(), 8);
    assert_eq!(run(&["-c", "0"], 8).vcpu_cnt(), 1);
    assert_eq!(run(&["-c", "+3"], 8).vcpu_cnt(), 3);
    assert_eq!(run(&["-c", "3", "-c", "5"], 8).vcpu_cnt(), 5);
}

#[test]
fn help_options() {
    assert!(matches!(parse_args_from(&args(&["-h"]), 4), Ok(ArgsOutcome::Help)));
    assert!(matches!(parse_args_from(&args(&["--help"]), 4), Ok(ArgsOutcome::Help)));
    assert!(matches!(parse_args_from(&args(&["--smp", "-h", "bogus"]), 4), Ok(ArgsOutcome::Help)));
    assert_eq!(refused(&["bogus", "-h"], 4), Some(ArgError::UnknownArgument));
}

#[test]
fn refused_command_lines() {
    assert_eq!(refused(&["-c"], 4), Some(ArgError::MissingVcpuCount));
    assert_eq!(refused(&["--smp", "--vcpus"], 4), Some(ArgError::MissingVcpuCount));
    assert_eq!(refused(&["--vcpus", "four"], 4), Some(ArgError::InvalidVcpuCount));
    assert_eq!(refused(&["-c", "abc"], 4), Some(ArgError::InvalidVcpuCount));
    assert_eq!(refused(&["-c", "-3"], 4), Some(ArgError::InvalidVcpuCount));
    assert_eq!(refused(&["-c", "-h"], 4), Some(ArgError::InvalidVcpuCount));
    assert_eq!(refused(&["bogus"], 4), Some(ArgError::UnknownArgument));
}

#[test]
fn smp_needs_two_vcpus() {
    assert_eq!(refused(&["--smp"], 8), Some(ArgError::SmpNeedsTwoVcpus));
    assert_eq!(refused(&["--smp", "-c", "1"], 8), Some(ArgError::SmpNeedsTwoVcpus));
    assert_eq!(refused(&["-c", "4", "--smp"], 1), Some(ArgError::SmpNeedsTwoVcpus));
    let c = run(&["--smp", "-c", "2"], 8);
    assert!(c.is_smp());
    assert_eq!(c.vcpu_cnt(), 2);
}

#[test]
fn cmdline_collects_the_kernel_command_line() {
    let c = run(&["--cmdline", "console=ttyS0", "--dirty-log"], 8);
    assert_eq!(c.kargs(), &vec!["console=ttyS0".to_string()]);
    assert!(c.dirty_log());
    assert!(!c.is_smp());
    assert_eq!(c.vcpu_cnt(), 1);
    let c = run(&["-a", "console=ttyS0", "root=/dev/vda", "quiet", "-c", "2"], 8);
    assert_eq!(c.kargs(), &vec!["console=ttyS0".to_string(), "root=/dev/vda".to_string(), "quiet".to_string()]);
    assert_eq!(c.vcpu_cnt(), 2);
    let c = run(&["-a", "a", "--smp", "-c", "2", "-a", "b"], 8);
    assert_eq!(c.kargs(), &vec!["a".to_string(), "b".to_string()]);
    assert!(c.kargs().len() == 2 && c.is_smp());
    let c = run(&["-a"], 8);
    assert!(c.kargs().is_empty());
    assert_eq!(refused(&["-a", "x", "--smp", "y"], 8), Some(ArgError::UnknownArgument));
}
