# zecrovizr

A small KVM-based virtual machine monitor whose decision logic is verified
with Verus.

- `src/` is the verified library: error types and their messages
  (`io`, `kvm_err`, `vcpu`), command-line interpretation (`utils`, `text`),
  vCPU configuration and launch planning (`vcpu`), the boot register values
  (`registers`), the CPUID patch (`cpuid`), the guest memory slot and test
  programs (`memory`, `layout`), and the state machine that sequences the
  bring-up of a virtual machine (`init`).
- `app/` is the program around it: it reads the command line and the host,
  performs the `/dev/kvm` calls that the bring-up state machine asks for,
  converts between the kernel's structures and the library's, and spawns the
  vCPU threads.
- `tests/` runs the library on concrete values.
