//! The CPU state of one thread: a register file addressed by name, with a
//! record of which registers hold known values.

use crate::names::{find_name, position_of};
use crate::system_info::{Cpu, Os};
use vstd::array::array_as_slice;
use vstd::prelude::*;

verus! {

/// The most registers that any register file holds.
pub const MAX_REGISTERS: usize = 33;

/// The registers of an x86 context, in the order in which they are kept.
pub const X86_REGISTERS: [&'static str; 10] = [
    "eip", "esp", "ebp", "ebx", "esi", "edi", "eax", "ecx", "edx", "efl",
];

/// The registers of an x86-64 context, in the order in which they are kept.
pub const X86_64_REGISTERS: [&'static str; 17] = [
    "rax", "rdx", "rcx", "rbx", "rsi", "rdi", "rbp", "rsp", "r8", "r9", "r10", "r11", "r12",
    "r13", "r14", "r15", "rip",
];

/// The registers of a 32-bit ARM context, in the order in which they are kept.
pub const ARM_REGISTERS: [&'static str; 16] = [
    "r0", "r1", "r2", "r3", "r4", "r5", "r6", "r7", "r8", "r9", "r10", "r11", "r12", "sp",
    "lr", "pc",
];

/// The registers of a 64-bit ARM context, in the order in which they are kept.
pub const ARM64_REGISTERS: [&'static str; 33] = [
    "x0", "x1", "x2", "x3", "x4", "x5", "x6", "x7", "x8", "x9", "x10", "x11", "x12", "x13", "x14",
    "x15", "x16", "x17", "x18", "x19", "x20", "x21", "x22", "x23", "x24", "x25", "x26", "x27",
    "x28", "fp", "lr", "sp", "pc",
];

/// The registers of a PowerPC context, in the order in which they are kept.
pub const PPC_REGISTERS: [&'static str; 2] = ["srr0", "r1"];

/// The names of the registers of `cpu`, in the order in which a context keeps
/// them.
pub open spec fn register_names(cpu: Cpu) -> Seq<&'static str> {
    match cpu {
        Cpu::X86 => X86_REGISTERS@,
        Cpu::X86_64 => X86_64_REGISTERS@,
        Cpu::Arm => ARM_REGISTERS@,
        Cpu::Arm64 => ARM64_REGISTERS@,
        Cpu::Ppc => PPC_REGISTERS@,
        Cpu::Unknown => Seq::empty(),
    }
}

/// The place of the register called `name` in the register file of `cpu`.
pub open spec fn register_index(cpu: Cpu, name: Seq<char>) -> Option<int> {
    let i = position_of(register_names(cpu), name) as int;
    if i < register_names(cpu).len() {
        Some(i)
    } else {
        None
    }
}

/// The place of the instruction pointer in the register file of `cpu`.
pub open spec fn ip_index(cpu: Cpu) -> Option<int> {
    match cpu {
        Cpu::X86 => Some(0),
        Cpu::X86_64 => Some(16),
        Cpu::Arm => Some(15),
        Cpu::Arm64 => Some(32),
        Cpu::Ppc => Some(0),
        Cpu::Unknown => None,
    }
}

/// The place of the stack pointer in the register file of `cpu`.
pub open spec fn sp_index(cpu: Cpu) -> Option<int> {
    match cpu {
        Cpu::X86 => Some(1),
        Cpu::X86_64 => Some(7),
        Cpu::Arm => Some(13),
        Cpu::Arm64 => Some(31),
        Cpu::Ppc => Some(1),
        Cpu::Unknown => None,
    }
}

/// The place of the frame pointer in the register file of `cpu`, where the
/// processor has a conventional one.  On 32-bit ARM the frame pointer is
/// `r7` under iOS and `r11` elsewhere.
pub open spec fn fp_index(cpu: Cpu, os: Os) -> Option<int> {
    match cpu {
        Cpu::X86 => Some(2),
        Cpu::X86_64 => Some(6),
        Cpu::Arm => if os == Os::Ios {
            Some(7)
        } else {
            Some(11)
        },
        Cpu::Arm64 => Some(29),
        Cpu::Ppc | Cpu::Unknown => None,
    }
}

/// `value` as a register of `cpu` holds it: cut to 32 bits on a processor
/// with 32-bit registers.
pub open spec fn fit_register(cpu: Cpu, value: u64) -> u64 {
    match cpu {
        Cpu::X86 | Cpu::Arm | Cpu::Ppc => (value % 0x1_0000_0000) as u64,
        _ => value,
    }
}

/// The number of registers in the register file of `cpu`.
pub fn register_count(cpu: Cpu) -> (r: usize)
    ensures
        r == register_names(cpu).len(),
        r <= MAX_REGISTERS,
{
    match cpu {
        Cpu::X86 => 10,
        Cpu::X86_64 => 17,
        Cpu::Arm => 16,
        Cpu::Arm64 => 33,
        Cpu::Ppc => 2,
        Cpu::Unknown => 0,
    }
}

/// The name of the register at place `i` in the register file of `cpu`.
pub fn register_name(cpu: Cpu, i: usize) -> (r: Option<&'static str>)
    ensures
        r is Some <==> i < register_names(cpu).len(),
        r matches Some(n) ==> n == register_names(cpu)[i as int],
{
    if i >= register_count(cpu) {
        return None;
    }
    Some(
        match cpu {
            Cpu::X86 => X86_REGISTERS[i],
            Cpu::X86_64 => X86_64_REGISTERS[i],
            Cpu::Arm => ARM_REGISTERS[i],
            Cpu::Arm64 => ARM64_REGISTERS[i],
            _ => PPC_REGISTERS[i],
        },
    )
}

/// The place of the register called `name` in the register file of `cpu`,
/// if it has one of that name.
pub fn find_register(cpu: Cpu, name: &str) -> (r: Option<usize>)
    ensures
        r matches Some(i) ==> register_index(cpu, name@) == Some(i as int) && i < MAX_REGISTERS,
        r is None ==> register_index(cpu, name@) is None,
{
    match cpu {
        Cpu::X86 => find_name(array_as_slice(&X86_REGISTERS), name),
        Cpu::X86_64 => find_name(array_as_slice(&X86_64_REGISTERS), name),
        Cpu::Arm => find_name(array_as_slice(&ARM_REGISTERS), name),
        Cpu::Arm64 => find_name(array_as_slice(&ARM64_REGISTERS), name),
        Cpu::Ppc => find_name(array_as_slice(&PPC_REGISTERS), name),
        Cpu::Unknown => None,
    }
}

/// Which registers of a context hold known values.
#[derive(Clone, Copy, Debug, PartialEq, Eq)]
pub enum ContextValidity {
    /// All of them.
    All,
    /// Those whose place is marked.
    Only([bool; 33]),
}

/// The CPU state of one thread.
#[derive(Clone, Copy, Debug, PartialEq, Eq)]
pub struct MinidumpContext {
    /// The processor whose register file this is.
    pub cpu: Cpu,
    /// The registers, in the order of `register_names`.
    pub regs: [u64; 33],
    /// The registers that hold known values.
    pub valid: ContextValidity,
}

impl MinidumpContext {
    /// Whether the register at place `i` exists and holds a known value.
    pub open spec fn is_valid(&self, i: int) -> bool {
        &&& 0 <= i < register_names(self.cpu).len()
        &&& match self.valid {
            ContextValidity::All => true,
            ContextValidity::Only(mask) => mask@[i],
        }
    }

    /// What reading the register at place `i` yields.
    pub open spec fn spec_register_at(&self, i: int) -> Option<u64> {
        if self.is_valid(i) {
            Some(self.regs@[i])
        } else {
            None
        }
    }

    /// What reading the register called `name` yields.
    pub open spec fn spec_register(&self, name: Seq<char>) -> Option<u64> {
        match register_index(self.cpu, name) {
            Some(i) => self.spec_register_at(i),
            None => None,
        }
    }

    /// The value in the instruction pointer, known or not; 0 where the
    /// processor is unknown.
    pub open spec fn spec_instruction_pointer(&self) -> u64 {
        match ip_index(self.cpu) {
            Some(i) => self.regs@[i],
            None => 0,
        }
    }

    /// The value in the stack pointer, known or not; 0 where the processor is
    /// unknown.
    pub open spec fn spec_stack_pointer(&self) -> u64 {
        match sp_index(self.cpu) {
            Some(i) => self.regs@[i],
            None => 0,
        }
    }

    /// A context of `cpu` with every register 0 and valid.
    pub fn new(cpu: Cpu) -> (r: Self)
        ensures
            r.cpu == cpu,
            r.valid == ContextValidity::All,
            forall|i: int| 0 <= i < MAX_REGISTERS ==> r.regs@[i] == 0,
    {
        MinidumpContext { cpu, regs: [0u64; 33], valid: ContextValidity::All }
    }

    /// A context of `cpu` with every register 0 and none valid.
    pub fn empty(cpu: Cpu) -> (r: Self)
        ensures
            r.cpu == cpu,
            forall|i: int| 0 <= i < MAX_REGISTERS ==> #[trigger] r.regs@[i] == 0,
            forall|i: int| !#[trigger] r.is_valid(i),
    {
        MinidumpContext { cpu, regs: [0u64; 33], valid: ContextValidity::Only([false; 33]) }
    }

    /// Whether the register at place `i` exists and holds a known value.
    pub fn is_register_valid_at(&self, i: usize) -> (r: bool)
        ensures
            r == self.is_valid(i as int),
    {
        if i >= register_count(self.cpu) {
            return false;
        }
        match &self.valid {
            ContextValidity::All => true,
            ContextValidity::Only(mask) => mask[i],
        }
    }

    /// The register at place `i`, if it exists and holds a known value.
    pub fn get_register_at(&self, i: usize) -> (r: Option<u64>)
        ensures
            r == self.spec_register_at(i as int),
    {
        if self.is_register_valid_at(i) {
            Some(self.regs[i])
        } else {
            None
        }
    }

    /// The register called `name`, if the processor has one of that name and
    /// it holds a known value.
    pub fn get_register(&self, name: &str) -> (r: Option<u64>)
        ensures
            r == self.spec_register(name@),
    {
        match find_register(self.cpu, name) {
            Some(i) => self.get_register_at(i),
            None => None,
        }
    }

    /// Writes `value`, cut to the register's width, to the register at place
    /// `i` and marks it valid.  No other register changes, in value or in
    /// validity.
    pub fn set_register_at(&mut self, i: usize, value: u64)
        requires
            i < register_names(old(self).cpu).len(),
        ensures
            final(self).cpu == old(self).cpu,
            final(self).regs@ == old(self).regs@.update(
                i as int,
                fit_register(old(self).cpu, value),
            ),
            final(self).is_valid(i as int),
            forall|j: int| j != i ==> final(self).is_valid(j) == old(self).is_valid(j),
    {
        let fitted = match self.cpu {
            Cpu::X86 | Cpu::Arm | Cpu::Ppc => value % 0x1_0000_0000,
            _ => value,
        };
        self.regs[i] = fitted;
        match self.valid {
            ContextValidity::All => {},
            ContextValidity::Only(mut mask) => {
                mask[i] = true;
                self.valid = ContextValidity::Only(mask);
            },
        }
    }

    /// Writes `value` to the register called `name` and marks it valid.
    /// `None`, and nothing written, where the processor has no register of
    /// that name.
    pub fn set_register(&mut self, name: &str, value: u64) -> (r: Option<()>)
        ensures
            final(self).cpu == old(self).cpu,
            r is Some <==> register_index(old(self).cpu, name@) is Some,
            r is None ==> *final(self) == *old(self),
            register_index(old(self).cpu, name@) matches Some(i) ==> {
                &&& final(self).regs@ == old(self).regs@.update(
                    i,
                    fit_register(old(self).cpu, value),
                )
                &&& final(self).is_valid(i)
                &&& forall|j: int| j != i ==> final(self).is_valid(j) == old(self).is_valid(j)
            },
    {
        match find_register(self.cpu, name) {
            Some(i) => {
                self.set_register_at(i, value);
                Some(())
            },
            None => None,
        }
    }

    /// The value in the instruction pointer, known or not.
    pub fn get_instruction_pointer(&self) -> (r: u64)
        ensures
            r == self.spec_instruction_pointer(),
    {
        match self.cpu {
            Cpu::X86 => self.regs[0],
            Cpu::X86_64 => self.regs[16],
            Cpu::Arm => self.regs[15],
            Cpu::Arm64 => self.regs[32],
            Cpu::Ppc => self.regs[0],
            Cpu::Unknown => 0,
        }
    }

    /// The value in the frame pointer, known or not, where the processor
    /// has a conventional one.
    pub fn get_frame_pointer(&self, os: Os) -> (r: Option<u64>)
        ensures
            r == (match fp_index(self.cpu, os) {
                Some(i) => Some(self.regs@[i]),
                None => None,
            }),
    {
        match self.cpu {
            Cpu::X86 => Some(self.regs[2]),
            Cpu::X86_64 => Some(self.regs[6]),
            Cpu::Arm => match os {
                Os::Ios => Some(self.regs[7]),
                _ => Some(self.regs[11]),
            },
            Cpu::Arm64 => Some(self.regs[29]),
            Cpu::Ppc | Cpu::Unknown => None,
        }
    }

    /// The value in the stack pointer, known or not.
    pub fn get_stack_pointer(&self) -> (r: u64)
        ensures
            r == self.spec_stack_pointer(),
    {
        match self.cpu {
            Cpu::X86 => self.regs[1],
            Cpu::X86_64 => self.regs[7],
            Cpu::Arm => self.regs[13],
            Cpu::Arm64 => self.regs[31],
            Cpu::Ppc => self.regs[1],
            Cpu::Unknown => 0,
        }
    }
}

/// Validity never shrinks under a write: a register that was valid before
/// `set_register_at` is valid after it.
pub proof fn lemma_write_keeps_validity(before: MinidumpContext, after: MinidumpContext, i: int)
    requires
        after.cpu == before.cpu,
        after.is_valid(i),
        forall|j: int| j != i ==> after.is_valid(j) == before.is_valid(j),
    ensures
        forall|j: int| before.is_valid(j) ==> after.is_valid(j),
{
}

} // verus!
