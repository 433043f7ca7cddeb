//! What is known of the machine that produced a snapshot.

use vstd::prelude::*;

verus! {

/// The operating system that produced a snapshot.
#[derive(Clone, Copy, Debug, PartialEq, Eq, Hash, Structural)]
pub enum Os {
    Windows,
    MacOs,
    Ios,
    Linux,
    Android,
    Unknown,
}

/// The processor family that a snapshot was taken on.  A CPU context is the
/// register file of one of these.
#[derive(Clone, Copy, Debug, PartialEq, Eq, Hash, Structural)]
pub enum Cpu {
    X86,
    X86_64,
    Arm,
    Arm64,
    Ppc,
    Unknown,
}

/// The size in bytes of a pointer on `cpu`, where it is known.
pub open spec fn spec_pointer_size(cpu: Cpu) -> Option<u64> {
    match cpu {
        Cpu::X86 | Cpu::Arm | Cpu::Ppc => Some(4),
        Cpu::X86_64 | Cpu::Arm64 => Some(8),
        Cpu::Unknown => None,
    }
}

impl Cpu {
    /// The size in bytes of a pointer on this processor, where it is known.
    pub fn pointer_size(&self) -> (r: Option<u64>)
        ensures
            r == spec_pointer_size(*self),
    {
        match self {
            Cpu::X86 | Cpu::Arm | Cpu::Ppc => Some(4),
            Cpu::X86_64 | Cpu::Arm64 => Some(8),
            Cpu::Unknown => None,
        }
    }
}

/// Information about the system that produced a snapshot.
#[derive(Clone, Debug, PartialEq, Eq)]
pub struct SystemInfo {
    /// The operating system that produced the snapshot.
    pub os: Os,
    /// The version of the operating system, such as "5.1.2600" or "10.4.8".
    pub os_version: Option<String>,
    /// The exact build of the operating system, such as "Service Pack 2" or
    /// "8L2127".
    pub os_build: Option<String>,
    /// The processor that the snapshot was taken on.
    pub cpu: Cpu,
    /// More on the processor, such as "GenuineIntel level 6 model 13
    /// stepping 8".
    pub cpu_info: Option<String>,
    /// The microcode version of the processor.
    pub cpu_microcode_version: Option<u64>,
    /// The number of processors in the system.
    pub cpu_count: usize,
}

} // verus!
