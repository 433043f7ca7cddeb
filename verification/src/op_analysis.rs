//! Analysis of the instruction that a thread was running.
//!
//! Given the CPU context of a thread and the memory of the snapshot, the
//! analysis decodes the instruction at the instruction pointer and derives
//! what it does: the memory it reads and writes, where it sends the
//! instruction pointer, and whether it could have faulted for reasons of
//! privilege or division.  Most of this is heuristic.  Only x86-64 is
//! analysed.

use crate::amd64::{analysis_of, analyze_instruction, well_shaped, MAX_INSTRUCTION_LENGTH};
use crate::context::MinidumpContext;
use crate::disasm::{amd64_decode_outcome, decoded, DecodeOutcome};
use crate::memory::{region_at, MemoryList, MemoryRegion};
use crate::system_info::Cpu;
use vstd::prelude::*;
use vstd::slice::slice_subrange;

verus! {

/// Why an instruction could not be analysed.
#[derive(Clone, Copy, Debug, PartialEq, Eq, Structural)]
pub enum OpAnalysisError {
    /// The processor is not one whose instructions are analysed.
    UnsupportedCpuArch,
    /// The snapshot holds no memory at the instruction pointer.
    ReadThreadInstructionFailed,
    /// The bytes end before the instruction does.
    InstructionTruncated,
    /// The bytes are no instruction.
    DecodeFailed,
    /// The instruction uses a register whose value is not known.
    RegisterInvalid,
}

/// The results of analysing an instruction.  A field is `None` where that
/// part of the analysis failed; the other parts stand.
#[derive(Debug)]
pub struct OpAnalysis {
    /// The instruction as text.
    pub instruction_str: String,
    /// Properties of the instruction that bear on why it crashed.
    pub instruction_properties: InstructionProperties,
    /// The memory accesses of the instruction.  `None` means that they could
    /// not be determined; an empty list that there are none.
    pub memory_access_list: Option<MemoryAccessList>,
    /// Where the instruction sends the instruction pointer.  `None` means
    /// that this could not be determined.
    pub instruction_pointer_update: Option<InstructionPointerUpdate>,
    /// The names of the registers that the memory operands use, each once.
    pub registers: Vec<&'static str>,
}

/// Properties of an instruction that bear on why it crashed.
#[derive(Clone, Copy, Debug, PartialEq, Eq, Structural)]
pub struct InstructionProperties {
    /// The memory accesses of the opcode follow exactly from its operands.
    pub is_access_derivable: bool,
    /// The instruction divides integers.
    pub is_division: bool,
    /// The instruction is one that only ring 0 may run.
    pub is_privileged: bool,
    /// The instruction raises a general protection fault only for a
    /// non-canonical address.
    pub is_only_gpf_when_non_canonical: bool,
}

/// The memory accesses of an instruction.
#[derive(Clone, Debug)]
pub struct MemoryAccessList {
    /// The accesses: those of the operands in their order, then those that
    /// the opcode implies.
    pub accesses: Vec<MemoryAccess>,
}

/// A memory access of an instruction.
#[derive(Clone, Copy, Debug, Eq, Hash, PartialEq)]
pub struct MemoryAccess {
    /// The address that is accessed.
    pub address_info: MemoryAddressInfo,
    /// The number of bytes accessed, where the instruction tells it.
    pub size: Option<u8>,
    /// The direction of the access.
    pub access_type: MemoryAccessType,
}

/// What an instruction does to the instruction pointer, beyond stepping to
/// the next instruction.
#[derive(Clone, Copy, Debug, Eq, Hash, PartialEq)]
pub enum InstructionPointerUpdate {
    /// It sends it to an address.
    Update {
        /// The address.
        address_info: MemoryAddressInfo,
    },
    /// It leaves it alone.
    NoUpdate,
}

/// An address that an instruction accesses or jumps to.
#[derive(Clone, Copy, Debug, Eq, Hash, PartialEq, Structural)]
pub struct MemoryAddressInfo {
    /// The address.
    pub address: u64,
    /// The address was likely reached through a null pointer.
    pub is_likely_null_pointer_dereference: bool,
    /// The address likely lies in a guard page.
    pub is_likely_guard_page: bool,
}

/// The direction of a memory access.
#[derive(Clone, Copy, Debug, Eq, Hash, PartialEq, Structural)]
pub enum MemoryAccessType {
    Read,
    Write,
    ReadWrite,
    /// The direction does not follow from the opcode.
    Underivable,
}

impl MemoryAccessType {
    /// Whether the direction is known.
    pub fn is_read_or_write(&self) -> (r: bool)
        ensures
            r == !(*self is Underivable),
    {
        !matches!(self, MemoryAccessType::Underivable)
    }

    /// The name of the direction.
    pub fn as_str(&self) -> (r: &'static str)
        ensures
            r@ == (match *self {
                MemoryAccessType::Read => "Read"@,
                MemoryAccessType::Write => "Write"@,
                MemoryAccessType::ReadWrite => "ReadWrite"@,
                MemoryAccessType::Underivable => "Underivable"@,
            }),
    {
        match self {
            MemoryAccessType::Read => "Read",
            MemoryAccessType::Write => "Write",
            MemoryAccessType::ReadWrite => "ReadWrite",
            MemoryAccessType::Underivable => "Underivable",
        }
    }
}

impl OpAnalysisError {
    /// What the error says.
    pub fn message(&self) -> (r: &'static str)
        ensures
            r@ == (match *self {
                OpAnalysisError::UnsupportedCpuArch => "unsupported CPU architecture"@,
                OpAnalysisError::ReadThreadInstructionFailed =>
                    "failed to read memory at instruction pointer"@,
                OpAnalysisError::InstructionTruncated =>
                    "byte slice contained truncated instruction"@,
                OpAnalysisError::DecodeFailed => "failed to decode instruction"@,
                OpAnalysisError::RegisterInvalid =>
                    "a register used by the instruction had an invalid value"@,
            }),
    {
        match self {
            OpAnalysisError::UnsupportedCpuArch => "unsupported CPU architecture",
            OpAnalysisError::ReadThreadInstructionFailed =>
                "failed to read memory at instruction pointer",
            OpAnalysisError::InstructionTruncated => "byte slice contained truncated instruction",
            OpAnalysisError::DecodeFailed => "failed to decode instruction",
            OpAnalysisError::RegisterInvalid =>
                "a register used by the instruction had an invalid value",
        }
    }
}

/// Whether `access` is of the given type and of a known size, and its
/// bytes, which may wrap round the end of the address space, hold `address`.
pub open spec fn access_covers(
    access: MemoryAccess,
    address: u64,
    access_type: MemoryAccessType,
) -> bool {
    &&& access.size is Some
    &&& access.access_type == access_type
    &&& {
        let start = access.address_info.address as int;
        let end = start + access.size->0;
        start <= address < end || start <= address + 0x1_0000_0000_0000_0000 < end
    }
}

impl MemoryAccessList {
    /// What `contains_access` answers.
    pub open spec fn spec_contains_access(
        &self,
        address: u64,
        access_type: MemoryAccessType,
    ) -> bool {
        exists|i: int|
            0 <= i < self.accesses@.len() && access_covers(
                #[trigger] self.accesses@[i],
                address,
                access_type,
            )
    }

    /// Whether the list holds an access of the given type, and of a known
    /// size, whose bytes hold `address`.
    pub fn contains_access(&self, address: u64, access_type: MemoryAccessType) -> (r: bool)
        ensures
            r == self.spec_contains_access(address, access_type),
    {
        let n = self.accesses.len();
        let mut i: usize = 0;
        while i < n
            invariant
                n == self.accesses@.len(),
                i <= n,
                forall|k: int|
                    0 <= k < i ==> !access_covers(
                        #[trigger] self.accesses@[k],
                        address,
                        access_type,
                    ),
            decreases n - i,
        {
            let access = &self.accesses[i];
            if let Some(size) = access.size {
                let lower = access.address_info.address;
                let same_type = access.access_type == access_type;
                let inside = match lower.checked_add(size as u64) {
                    Some(upper) => lower <= address && address < upper,
                    None => lower <= address || address < lower.wrapping_add(size as u64),
                };
                if same_type && inside {
                    assert(access_covers(self.accesses@[i as int], address, access_type));
                    return true;
                }
            }
            i += 1;
        }
        false
    }

    /// An iterator over the accesses, in their order.
    pub fn iter(&self) -> (r: std::slice::Iter<'_, MemoryAccess>)
        ensures
            vstd::std_specs::slice::into_iter_elts(r) == self.accesses@,
    {
        let slice = self.accesses.as_slice();
        let r = slice.iter();
        proof {
            vstd::std_specs::slice::axiom_spec_slice_iter(slice);
            assert(slice@.as_ref().unref() =~= slice@);
        }
        r
    }

    /// Whether the list holds no access.
    pub fn is_empty(&self) -> (r: bool)
        ensures
            r == (self.accesses@.len() == 0),
    {
        self.accesses.len() == 0
    }
}

/// The bytes that `get_thread_instruction_bytes` hands out: those of the
/// first region that holds the instruction pointer, from the instruction
/// pointer on, and no more of them than an instruction can have.
pub open spec fn instruction_bytes(
    context: MinidumpContext,
    memory_list: Seq<MemoryRegion>,
) -> Option<Seq<u8>> {
    let ip = context.spec_instruction_pointer();
    match region_at(memory_list, ip) {
        Some(region) => {
            let offset = ip - region.base_address;
            let rest = region.bytes@.len() - offset;
            let len = if rest < MAX_INSTRUCTION_LENGTH {
                rest
            } else {
                MAX_INSTRUCTION_LENGTH as int
            };
            Some(region.bytes@.subrange(offset, offset + len))
        },
        None => None,
    }
}

/// The bytes of the instruction that the thread was running: at least one
/// and at most `MAX_INSTRUCTION_LENGTH` bytes at the instruction pointer.
///
/// Fails with `ReadThreadInstructionFailed` exactly when no region of
/// `memory_list` holds the instruction pointer.
pub fn get_thread_instruction_bytes<'a>(
    context: &MinidumpContext,
    memory_list: &'a MemoryList,
) -> (r: Result<&'a [u8], OpAnalysisError>)
    ensures
        match instruction_bytes(*context, memory_list@) {
            Some(bytes) => r matches Ok(b) && b@ == bytes && 1 <= bytes.len()
                <= MAX_INSTRUCTION_LENGTH,
            None => r == Err::<&[u8], _>(OpAnalysisError::ReadThreadInstructionFailed),
        },
{
    let ip = context.get_instruction_pointer();
    match memory_list.memory_at_address(ip) {
        Some(region) => {
            let offset = (ip - region.base_address) as usize;
            let rest = region.bytes.len() - offset;
            let len = if rest < MAX_INSTRUCTION_LENGTH {
                rest
            } else {
                MAX_INSTRUCTION_LENGTH
            };
            Ok(slice_subrange(region.bytes.as_slice(), offset, offset + len))
        },
        None => Err(OpAnalysisError::ReadThreadInstructionFailed),
    }
}

/// What is owed for the instruction at the start of `bytes`: the error where
/// the bytes do not decode; else the analysis of the decoded instruction,
/// where its operands have the shape that its opcode asks for, and
/// `DecodeFailed` where they have not.
pub open spec fn analysis_of_bytes(
    r: Result<OpAnalysis, OpAnalysisError>,
    context: MinidumpContext,
    bytes: Seq<u8>,
    memory_list: Option<Seq<MemoryRegion>>,
    stack_memory: Option<MemoryRegion>,
) -> bool {
    match amd64_decode_outcome(bytes) {
        DecodeOutcome::Truncated => r matches Err(e) && e == OpAnalysisError::InstructionTruncated,
        DecodeOutcome::Invalid => r matches Err(e) && e == OpAnalysisError::DecodeFailed,
        DecodeOutcome::Decoded => if well_shaped(decoded(bytes)) {
            r matches Ok(analysis) && analysis_of(
                analysis,
                context,
                decoded(bytes),
                memory_list,
                stack_memory,
            )
        } else {
            r matches Err(e) && e == OpAnalysisError::DecodeFailed
        },
    }
}

/// What `analyze_thread_context` owes for the given context and memory:
/// `ReadThreadInstructionFailed` where no region holds the instruction
/// pointer; else `UnsupportedCpuArch` where the processor is not x86-64; else
/// what `analyze_instruction` owes for the bytes at the instruction pointer.
pub open spec fn thread_analysis(
    r: Result<OpAnalysis, OpAnalysisError>,
    context: MinidumpContext,
    memory_list: Seq<MemoryRegion>,
    stack_memory: Option<MemoryRegion>,
) -> bool {
    match instruction_bytes(context, memory_list) {
        None => r matches Err(e) && e == OpAnalysisError::ReadThreadInstructionFailed,
        Some(bytes) => if context.cpu == Cpu::X86_64 {
            analysis_of_bytes(r, context, bytes, Some(memory_list), stack_memory)
        } else {
            r matches Err(e) && e == OpAnalysisError::UnsupportedCpuArch
        },
    }
}

/// Analyses the instruction that the thread of the given context was
/// running.
///
/// Fails with `ReadThreadInstructionFailed` where the snapshot holds no
/// memory at the instruction pointer; else with `UnsupportedCpuArch` where
/// the processor is not x86-64; else as `analyze_instruction` does on the
/// bytes at the instruction pointer.
pub fn analyze_thread_context(
    context: &MinidumpContext,
    memory_list: &MemoryList,
    stack_memory: Option<&MemoryRegion>,
) -> (r: Result<OpAnalysis, OpAnalysisError>)
    ensures
        thread_analysis(
            r,
            *context,
            memory_list@,
            match stack_memory {
                Some(s) => Some(*s),
                None => None,
            },
        ),
{
    let instruction_bytes = match get_thread_instruction_bytes(context, memory_list) {
        Ok(bytes) => bytes,
        Err(e) => { return Err(e); },
    };
    match context.cpu {
        Cpu::X86_64 => analyze_instruction(
            context,
            instruction_bytes,
            Some(memory_list),
            stack_memory,
        ),
        _ => Err(OpAnalysisError::UnsupportedCpuArch),
    }
}

} // verus!
