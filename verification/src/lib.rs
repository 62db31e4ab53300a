//! Verified core of a small KVM-based virtual machine monitor: error types and
//! their messages, command-line parsing, vCPU configuration, the register and
//! CPUID values a boot vCPU receives, and the decision logic that sequences
//! the bring-up of a virtual machine.
#![allow(non_camel_case_types, non_snake_case, non_upper_case_globals)]

pub mod cpuid;
pub mod init;
pub mod io;
pub mod kvm_err;
pub mod layout;
pub mod memory;
pub mod registers;
pub mod text;
pub mod utils;
pub mod vcpu;

pub use cpuid::{patch_cpuid_entries, CpuidEntry, KVM_MAX_CPUID_ENTRIES};
pub use init::{DeviceBus, InitAbort, InitAction, InitEvent, InitPlan, InitStage, InitStep, KvmInit};
pub use io::{e_IO, r_IO};
pub use kvm_err::{e_KVM, r_KVM};
pub use layout::{BOOT_PARAMS_ADDR, BOOT_STACK_ADDR, CMDLINE_ADDR, INITRD_ADDR, KERNEL_LOAD_ADDR};
pub use memory::{asm_test_code, init_userspace, test_code, GuestArch, MemoryRegion};
pub use registers::{boot_registers, long_mode_registers, GeneralRegisters, SpecialRegisters};
pub use utils::{parse_args_from, ArgError, ArgsOutcome, DBG_STR, Zecro_conf};
pub use vcpu::{e_VCPU, eval_vcpu_config, plan_vcpu_launch, r_VCPU, vcpu_setup, ExecMode, VcpuLaunch};
