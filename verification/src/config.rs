use vstd::prelude::*;

verus! {

/// The architecture a bootloader build serves. Resolved once at startup and
/// passed down; it selects the accepted machine code of a kernel image and
/// the fixed path the kernel file is looked up under.
#[derive(Clone, Copy, Debug, PartialEq, Eq, Structural)]
pub enum Arch {
    X86_64,
    Aarch64,
}

impl Arch {
    /// The machine code a valid kernel image must carry for this
    /// architecture: one recognized code per supported architecture, so
    /// cross-architecture images are rejected.
    pub open spec fn machine_code_spec(self) -> u16 {
        match self {
            Arch::X86_64 => 62,
            Arch::Aarch64 => 183,
        }
    }

    /// Returns the machine code a valid kernel image must carry.
    #[verifier::when_used_as_spec(machine_code_spec)]
    pub fn machine_code(self) -> (r: u16)
        ensures
            r == self.machine_code_spec(),
    {
        match self {
            Arch::X86_64 => 62,
            Arch::Aarch64 => 183,
        }
    }

    /// The fixed path of the kernel file on the boot volume for this
    /// architecture. Not configurable at boot time.
    pub fn kernel_path(self) -> (r: &'static str)
        ensures
            self == Arch::X86_64 ==> r@ == "\\EFI\\KERNEL\\KERNEL_X64.ELF"@,
            self == Arch::Aarch64 ==> r@ == "\\EFI\\KERNEL\\KERNEL_ARM64.ELF"@,
    {
        match self {
            Arch::X86_64 => "\\EFI\\KERNEL\\KERNEL_X64.ELF",
            Arch::Aarch64 => "\\EFI\\KERNEL\\KERNEL_ARM64.ELF",
        }
    }
}

} // verus!
