//! Analysis of x86-64 instructions.
//!
//! An instruction is analysed as a [`DecodedInstruction`]: its mnemonic, its
//! operands and the size of its memory access.  Opcodes are told apart by
//! their mnemonics, which the disassembler gives one to one.

use crate::context::MinidumpContext;
use crate::disasm::{decode_instruction, DecodeOutcome};
use crate::memory::{region_at, MemoryList, MemoryRegion};
use crate::names::{find_name, is_one_of, position_of, str_eq};
use crate::op_analysis::{
    analysis_of_bytes, InstructionPointerUpdate, InstructionProperties, MemoryAccess,
    MemoryAccessList, MemoryAccessType, MemoryAddressInfo, OpAnalysis, OpAnalysisError,
};
use vstd::array::array_as_slice;
use vstd::prelude::*;

verus! {

/// The displacement of a memory operand as it is encoded.
#[derive(Clone, Copy, Debug, PartialEq, Eq)]
pub enum Displacement {
    /// An absolute address of 32 bits.
    Absolute32(u32),
    /// An absolute address of 64 bits.
    Absolute64(u64),
    /// A signed offset from the registers of the operand.
    Relative(i32),
}

/// `v` read as a signed integer of 32 bits.
pub open spec fn as_signed_32(v: u32) -> i64 {
    if v >= 0x8000_0000 {
        (v - 0x1_0000_0000) as i64
    } else {
        v as i64
    }
}

/// `v` read as a signed integer of 64 bits.
pub open spec fn as_signed_64(v: u64) -> i64 {
    if v >= 0x8000_0000_0000_0000 {
        (v - 0x1_0000_0000_0000_0000) as i64
    } else {
        v as i64
    }
}

/// The displacement as a signed offset.  An absolute address of 32 bits is
/// sign-extended; one of 64 bits keeps its bits.
pub open spec fn displacement_value(d: Displacement) -> i64 {
    match d {
        Displacement::Absolute32(a) => as_signed_32(a),
        Displacement::Absolute64(a) => as_signed_64(a),
        Displacement::Relative(r) => r as i64,
    }
}

/// What the address of a memory operand is computed from.
#[derive(Clone, Copy, Debug, PartialEq, Eq)]
pub struct MemoryOperandInfo {
    /// The name of the base register.
    pub base_reg: Option<&'static str>,
    /// The name of the index register.
    pub index_reg: Option<&'static str>,
    /// What the index register is multiplied by.
    pub scale: Option<u8>,
    /// The signed offset.
    pub disp: Option<i64>,
}

/// An operand of an instruction.
#[derive(Clone, Copy, Debug, PartialEq, Eq)]
pub enum DecodedOperand {
    /// The register of the given name.
    Register(&'static str),
    /// Memory at an address computed from registers and a displacement.
    Memory(MemoryOperandInfo),
    /// Memory accessed under an AVX-512 mask, whose address is not computed.
    MaskedMemory,
    /// An immediate, a masked register, or nothing.
    Other,
}

/// A decoded instruction.
#[derive(Clone, Debug, PartialEq, Eq)]
pub struct DecodedInstruction {
    /// The mnemonic of the opcode, such as "mov".
    pub mnemonic: String,
    /// The whole instruction as text, such as "mov rax, [rbx]".
    pub text: String,
    /// `None` where the instruction accesses no memory; else the size of the
    /// access in bytes, where the instruction alone tells it.
    pub mem_size: Option<Option<u8>>,
    /// The operands, in the order of the encoding.
    pub operands: Vec<DecodedOperand>,
}

/// What the analysis reads of an instruction.
pub struct InstructionView {
    /// The mnemonic of the opcode.
    pub mnemonic: Seq<char>,
    /// The whole instruction as text.
    pub text: Seq<char>,
    /// The size of the memory access.
    pub mem_size: Option<Option<u8>>,
    /// The operands.
    pub operands: Seq<DecodedOperand>,
}

impl View for DecodedInstruction {
    type V = InstructionView;

    open spec fn view(&self) -> InstructionView {
        InstructionView {
            mnemonic: self.mnemonic@,
            text: self.text@,
            mem_size: self.mem_size,
            operands: self.operands@,
        }
    }
}

impl MemoryOperandInfo {
    /// The parts of a memory operand, with the displacement as a signed
    /// offset.
    pub fn from_parts(
        base: Option<&'static str>,
        index: Option<(&'static str, u8)>,
        displacement: Option<Displacement>,
    ) -> (r: Self)
        ensures
            r.base_reg == base,
            r.index_reg == (match index {
                Some(p) => Some(p.0),
                None => None,
            }),
            r.scale == (match index {
                Some(p) => Some(p.1),
                None => None,
            }),
            r.disp == (match displacement {
                Some(d) => Some(displacement_value(d)),
                None => None,
            }),
    {
        let (index_reg, scale) = match index {
            Some((name, scale)) => (Some(name), Some(scale)),
            None => (None, None),
        };
        let disp = match displacement {
            Some(Displacement::Absolute32(a)) => Some(
                if a >= 0x8000_0000 {
                    a as i64 - 0x1_0000_0000
                } else {
                    a as i64
                },
            ),
            Some(Displacement::Absolute64(a)) => Some(
                if a >= 0x8000_0000_0000_0000 {
                    ((a - 0x8000_0000_0000_0000) as i64) - 0x4000_0000_0000_0000
                        - 0x4000_0000_0000_0000
                } else {
                    a as i64
                },
            ),
            Some(Displacement::Relative(r)) => Some(r as i64),
            None => None,
        };
        MemoryOperandInfo { base_reg: base, index_reg, scale, disp }
    }
}


/// The most bytes that an instruction has.
pub const MAX_INSTRUCTION_LENGTH: usize = 15;

/// The mnemonics of the opcodes whose memory accesses follow exactly from
/// their operands, in the order of `AccessDerivableOpcode`.
pub const ACCESS_DERIVABLE_MNEMONICS: [&'static str; 33] = [
    "add", "call", "cmp", "dec", "inc", "jmp", "jmpf", "jo", "jno", "jb", "jnb", "jz", "jnz", "ja",
    "jna", "js", "jns", "jp", "jnp", "jl", "jge", "jg", "jle", "lea", "mov", "movaps", "movups",
    "pop", "push", "retf", "ret", "sub", "ucomiss",
];

/// The mnemonics of the opcodes that only ring 0 may run.  `mov` is among
/// them for its forms that move to and from control registers.
pub const PRIVILEGED_MNEMONICS: [&'static str; 46] = [
    "cli", "clts", "hlt", "in", "ins", "int", "into", "invd", "invept", "invlpg", "invvpid",
    "iret", "iretd", "iretq", "lgdt", "lidt", "lldt", "lmsw", "ltr", "monitor", "mov", "mwait",
    "out", "outs", "rdmsr", "rdpmc", "rdtsc", "rdtscp", "retf", "sti", "swapgs", "sysexit",
    "sysret", "vmcall", "vmclear", "vmlaunch", "vmptrld", "vmptrst", "vmread", "vmresume",
    "vmwrite", "vmxoff", "vmxon", "wbinvd", "wrmsr", "xsetbv",
];

/// The mnemonics of integer division.
pub const DIVISION_MNEMONICS: [&'static str; 2] = ["div", "idiv"];

/// The mnemonics of the calls and unconditional jumps.
pub const BRANCH_MNEMONICS: [&'static str; 5] = ["call", "callf", "jmp", "jmpf", "jmpe"];

/// The mnemonics of the returns.
pub const RETURN_MNEMONICS: [&'static str; 5] = ["ret", "retf", "iret", "iretd", "iretq"];

/// The mnemonics of the conditional jumps.
pub const CONDITIONAL_JUMP_MNEMONICS: [&'static str; 16] = [
    "jo", "jno", "jb", "jnb", "jz", "jnz", "ja", "jna", "js", "jns", "jp", "jnp", "jl", "jge",
    "jg", "jle",
];

/// The opcodes whose memory accesses follow exactly from their operands:
/// those seen often in crashes, and some known from particular ones.
#[derive(Clone, Copy, Debug, PartialEq, Eq, Structural)]
#[allow(clippy::upper_case_acronyms)]
pub enum AccessDerivableOpcode {
    ADD,
    CALL,
    CMP,
    DEC,
    INC,
    JMP,
    JMPF,
    JO,
    JNO,
    JB,
    JNB,
    JZ,
    JNZ,
    JA,
    JNA,
    JS,
    JNS,
    JP,
    JNP,
    JL,
    JGE,
    JG,
    JLE,
    LEA,
    MOV,
    MOVAPS,
    MOVUPS,
    POP,
    PUSH,
    RETF,
    RETURN,
    SUB,
    UCOMISS,
}

/// The opcode whose mnemonic stands at place `i` of
/// `ACCESS_DERIVABLE_MNEMONICS`.
pub open spec fn derivable_at(i: int) -> AccessDerivableOpcode {
    if i == 0 {
        AccessDerivableOpcode::ADD
    } else if i == 1 {
        AccessDerivableOpcode::CALL
    } else if i == 2 {
        AccessDerivableOpcode::CMP
    } else if i == 3 {
        AccessDerivableOpcode::DEC
    } else if i == 4 {
        AccessDerivableOpcode::INC
    } else if i == 5 {
        AccessDerivableOpcode::JMP
    } else if i == 6 {
        AccessDerivableOpcode::JMPF
    } else if i == 7 {
        AccessDerivableOpcode::JO
    } else if i == 8 {
        AccessDerivableOpcode::JNO
    } else if i == 9 {
        AccessDerivableOpcode::JB
    } else if i == 10 {
        AccessDerivableOpcode::JNB
    } else if i == 11 {
        AccessDerivableOpcode::JZ
    } else if i == 12 {
        AccessDerivableOpcode::JNZ
    } else if i == 13 {
        AccessDerivableOpcode::JA
    } else if i == 14 {
        AccessDerivableOpcode::JNA
    } else if i == 15 {
        AccessDerivableOpcode::JS
    } else if i == 16 {
        AccessDerivableOpcode::JNS
    } else if i == 17 {
        AccessDerivableOpcode::JP
    } else if i == 18 {
        AccessDerivableOpcode::JNP
    } else if i == 19 {
        AccessDerivableOpcode::JL
    } else if i == 20 {
        AccessDerivableOpcode::JGE
    } else if i == 21 {
        AccessDerivableOpcode::JG
    } else if i == 22 {
        AccessDerivableOpcode::JLE
    } else if i == 23 {
        AccessDerivableOpcode::LEA
    } else if i == 24 {
        AccessDerivableOpcode::MOV
    } else if i == 25 {
        AccessDerivableOpcode::MOVAPS
    } else if i == 26 {
        AccessDerivableOpcode::MOVUPS
    } else if i == 27 {
        AccessDerivableOpcode::POP
    } else if i == 28 {
        AccessDerivableOpcode::PUSH
    } else if i == 29 {
        AccessDerivableOpcode::RETF
    } else if i == 30 {
        AccessDerivableOpcode::RETURN
    } else if i == 31 {
        AccessDerivableOpcode::SUB
    } else {
        AccessDerivableOpcode::UCOMISS
    }
}

/// The access-derivable opcode of the given mnemonic, if it is one.
pub open spec fn derivable_opcode(mnemonic: Seq<char>) -> Option<AccessDerivableOpcode> {
    if is_one_of(ACCESS_DERIVABLE_MNEMONICS@, mnemonic) {
        Some(derivable_at(position_of(ACCESS_DERIVABLE_MNEMONICS@, mnemonic) as int))
    } else {
        None
    }
}

/// The properties of the opcode of the given mnemonic.
pub open spec fn properties_of(mnemonic: Seq<char>) -> InstructionProperties {
    InstructionProperties {
        is_access_derivable: derivable_opcode(mnemonic) is Some,
        is_division: is_one_of(DIVISION_MNEMONICS@, mnemonic),
        is_privileged: is_one_of(PRIVILEGED_MNEMONICS@, mnemonic),
        is_only_gpf_when_non_canonical: match derivable_opcode(mnemonic) {
            Some(opcode) => opcode != AccessDerivableOpcode::MOVAPS,
            None => false,
        },
    }
}

/// How an access-derivable opcode uses a memory operand at place `idx`:
/// `Some(Some(t))` for an access of type `t`, `Some(None)` for an address
/// that is computed and not accessed, `None` where the opcode takes no memory
/// operand at that place.
pub open spec fn explicit_access_type(opcode: AccessDerivableOpcode, idx: int) -> Option<
    Option<MemoryAccessType>,
> {
    match opcode {
        AccessDerivableOpcode::ADD | AccessDerivableOpcode::SUB => if idx == 0 {
            Some(Some(MemoryAccessType::ReadWrite))
        } else if idx == 1 {
            Some(Some(MemoryAccessType::Read))
        } else {
            None
        },
        AccessDerivableOpcode::CALL
        | AccessDerivableOpcode::JMP
        | AccessDerivableOpcode::JMPF
        | AccessDerivableOpcode::PUSH => if idx == 0 {
            Some(Some(MemoryAccessType::Read))
        } else {
            None
        },
        AccessDerivableOpcode::CMP | AccessDerivableOpcode::UCOMISS => if idx == 0 || idx == 1 {
            Some(Some(MemoryAccessType::Read))
        } else {
            None
        },
        AccessDerivableOpcode::DEC | AccessDerivableOpcode::INC => if idx == 0 {
            Some(Some(MemoryAccessType::ReadWrite))
        } else {
            None
        },
        AccessDerivableOpcode::POP => if idx == 0 {
            Some(Some(MemoryAccessType::Write))
        } else {
            None
        },
        AccessDerivableOpcode::MOV
        | AccessDerivableOpcode::MOVAPS
        | AccessDerivableOpcode::MOVUPS => if idx == 0 {
            Some(Some(MemoryAccessType::Write))
        } else if idx == 1 {
            Some(Some(MemoryAccessType::Read))
        } else {
            None
        },
        AccessDerivableOpcode::LEA => if idx == 0 || idx == 1 {
            Some(None)
        } else {
            None
        },
        _ => None,
    }
}

impl DecodedOperand {
    /// Whether the operand stands for memory.
    pub open spec fn spec_is_memory(&self) -> bool {
        *self is Memory || *self is MaskedMemory
    }

    /// Whether the operand stands for memory.
    pub fn is_memory(&self) -> (r: bool)
        ensures
            r == self.spec_is_memory(),
    {
        match self {
            DecodedOperand::Memory(_) | DecodedOperand::MaskedMemory => true,
            _ => false,
        }
    }
}

/// Whether the operands of the instruction have the shape that its opcode
/// asks for: an access-derivable opcode that accesses memory has memory
/// operands only where `explicit_access_type` knows one, and a call or
/// unconditional jump has one operand.
pub open spec fn well_shaped(instruction: InstructionView) -> bool {
    &&& is_one_of(BRANCH_MNEMONICS@, instruction.mnemonic) ==> instruction.operands.len() == 1
    &&& instruction.mem_size is Some ==> match derivable_opcode(instruction.mnemonic) {
        Some(opcode) => forall|i: int|
            0 <= i < instruction.operands.len() && (
            #[trigger] instruction.operands[i]).spec_is_memory() ==> explicit_access_type(
                opcode,
                i,
            ) is Some,
        None => true,
    }
}

/// The value of the register called `name`, or the error of a register that
/// the context has no known value for.
pub open spec fn register_value(context: MinidumpContext, name: Seq<char>) -> Result<
    u64,
    OpAnalysisError,
> {
    match context.spec_register(name) {
        Some(v) => Ok(v),
        None => Err(OpAnalysisError::RegisterInvalid),
    }
}

/// The address of a memory operand: base, plus index times scale, plus
/// displacement, each where the operand has it, wrapping at 64 bits.  A base
/// register that holds 0 marks the address as a likely null-pointer
/// dereference.  Fails where the base or the index register has no known
/// value.
pub open spec fn address_of(context: MinidumpContext, info: MemoryOperandInfo) -> Result<
    MemoryAddressInfo,
    OpAnalysisError,
> {
    let base = match info.base_reg {
        Some(name) => context.spec_register(name@),
        None => Some(0u64),
    };
    let index = match info.index_reg {
        Some(name) => context.spec_register(name@),
        None => Some(0u64),
    };
    let scale: u64 = match info.scale {
        Some(s) => s as u64,
        None => 1,
    };
    let disp: i64 = match info.disp {
        Some(d) => d,
        None => 0,
    };
    if base is None || index is None {
        Err(OpAnalysisError::RegisterInvalid)
    } else {
        Ok(
            MemoryAddressInfo {
                address: base->0.wrapping_add(index->0.wrapping_mul(scale)).wrapping_add_signed(
                    disp,
                ),
                is_likely_null_pointer_dereference: info.base_reg is Some && base->0 == 0,
                is_likely_guard_page: false,
            },
        )
    }
}

/// An address that is not computed from an operand: likely a null-pointer
/// dereference exactly when it is 0.
pub open spec fn plain_address(address: u64) -> MemoryAddressInfo {
    MemoryAddressInfo {
        address,
        is_likely_null_pointer_dereference: address == 0,
        is_likely_guard_page: false,
    }
}

/// What the operand at place `idx` adds to the access list of an
/// instruction that accesses `size` bytes.  With an access-derivable opcode
/// the type of the access is that of `explicit_access_type`; with another it
/// is `Underivable`.
pub open spec fn operand_access(
    context: MinidumpContext,
    opcode: Option<AccessDerivableOpcode>,
    operand: DecodedOperand,
    idx: int,
    size: Option<u8>,
) -> Result<Option<MemoryAccess>, OpAnalysisError> {
    let access_type = match opcode {
        Some(op) => match explicit_access_type(op, idx) {
            Some(t) => t,
            None => None,
        },
        None => Some(MemoryAccessType::Underivable),
    };
    match (operand, access_type) {
        (DecodedOperand::Memory(info), Some(t)) => match address_of(context, info) {
            Ok(address_info) => Ok(Some(MemoryAccess { address_info, size, access_type: t })),
            Err(e) => Err(e),
        },
        _ => Ok(None),
    }
}

/// The accesses of the first `n` operands, in order, or the first error
/// among them.
pub open spec fn explicit_accesses(
    context: MinidumpContext,
    opcode: Option<AccessDerivableOpcode>,
    operands: Seq<DecodedOperand>,
    size: Option<u8>,
    n: int,
) -> Result<Seq<MemoryAccess>, OpAnalysisError>
    decreases n,
{
    if n <= 0 {
        Ok(Seq::empty())
    } else {
        match explicit_accesses(context, opcode, operands, size, n - 1) {
            Err(e) => Err(e),
            Ok(list) => match operand_access(context, opcode, operands[n - 1], n - 1, size) {
                Err(e) => Err(e),
                Ok(None) => Ok(list),
                Ok(Some(access)) => Ok(list.push(access)),
            },
        }
    }
}

/// The access that an access-derivable opcode makes to the stack beside
/// those of its operands: `call` and `push` write below the stack pointer,
/// `pop` and the returns read at it.  None where `rsp` has no known value.
pub open spec fn implicit_access(
    context: MinidumpContext,
    opcode: AccessDerivableOpcode,
    size: Option<u8>,
) -> Option<MemoryAccess> {
    match context.spec_register("rsp"@) {
        Some(rsp) => match opcode {
            AccessDerivableOpcode::CALL | AccessDerivableOpcode::PUSH => Some(
                MemoryAccess {
                    address_info: plain_address(rsp.wrapping_sub(8)),
                    size,
                    access_type: MemoryAccessType::Write,
                },
            ),
            AccessDerivableOpcode::POP
            | AccessDerivableOpcode::RETF
            | AccessDerivableOpcode::RETURN => Some(
                MemoryAccess {
                    address_info: plain_address(rsp),
                    size,
                    access_type: MemoryAccessType::Read,
                },
            ),
            _ => None,
        },
        None => None,
    }
}

/// The memory accesses of the instruction: none where it accesses no memory;
/// else those of its operands, then the one that its opcode implies.
pub open spec fn accesses_of(context: MinidumpContext, instruction: InstructionView) -> Result<
    Seq<MemoryAccess>,
    OpAnalysisError,
> {
    match instruction.mem_size {
        None => Ok(Seq::empty()),
        Some(size) => {
            let opcode = derivable_opcode(instruction.mnemonic);
            match explicit_accesses(
                context,
                opcode,
                instruction.operands,
                size,
                instruction.operands.len() as int,
            ) {
                Err(e) => Err(e),
                Ok(list) => match opcode {
                    Some(op) => match implicit_access(context, op, size) {
                        Some(access) => Ok(list.push(access)),
                        None => Ok(list),
                    },
                    None => Ok(list),
                },
            }
        },
    }
}

/// The pointer at `address` in the first region of `memory_list` that holds
/// the address.
pub open spec fn pointer_in_list(memory_list: Option<Seq<MemoryRegion>>, address: u64) -> Option<
    u64,
> {
    match memory_list {
        Some(regions) => match region_at(regions, address) {
            Some(region) => region.spec_read_pointer(address, 8),
            None => None,
        },
        None => None,
    }
}

/// Where the instruction sends the instruction pointer.
///
/// A call or unconditional jump sends it to the value of its register
/// operand, or to the pointer that the snapshot holds at the address of its
/// memory operand; the result is undetermined where the snapshot holds none.
/// A return sends it to the pointer at `rsp` in the stack memory, and is
/// undetermined without one.  A conditional jump is undetermined.  Any
/// other instruction does not update it.
pub open spec fn ip_update_of(
    context: MinidumpContext,
    instruction: InstructionView,
    memory_list: Option<Seq<MemoryRegion>>,
    stack_memory: Option<MemoryRegion>,
) -> Result<Option<InstructionPointerUpdate>, OpAnalysisError> {
    let mnemonic = instruction.mnemonic;
    if is_one_of(BRANCH_MNEMONICS@, mnemonic) {
        match instruction.operands[0] {
            DecodedOperand::Register(name) => match register_value(context, name@) {
                Ok(v) => Ok(
                    Some(InstructionPointerUpdate::Update { address_info: plain_address(v) }),
                ),
                Err(e) => Err(e),
            },
            DecodedOperand::Memory(info) => match address_of(context, info) {
                Ok(target) => match pointer_in_list(memory_list, target.address) {
                    Some(v) => Ok(
                        Some(InstructionPointerUpdate::Update { address_info: plain_address(v) }),
                    ),
                    None => Ok(None),
                },
                Err(e) => Err(e),
            },
            _ => Ok(None),
        }
    } else if is_one_of(RETURN_MNEMONICS@, mnemonic) {
        match (context.spec_register("rsp"@), stack_memory) {
            (Some(rsp), Some(stack)) => match stack.spec_read_pointer(rsp, 8) {
                Some(v) => Ok(
                    Some(InstructionPointerUpdate::Update { address_info: plain_address(v) }),
                ),
                None => Ok(None),
            },
            _ => Ok(None),
        }
    } else if is_one_of(CONDITIONAL_JUMP_MNEMONICS@, mnemonic) {
        Ok(None)
    } else {
        Ok(Some(InstructionPointerUpdate::NoUpdate))
    }
}

/// `names` with `name` behind them, unless they hold it already.
pub open spec fn with_name(names: Seq<Seq<char>>, name: Seq<char>) -> Seq<Seq<char>> {
    if names.contains(name) {
        names
    } else {
        names.push(name)
    }
}

/// The names of the base and index registers of the memory operands among
/// the first `n` operands, each once, in the order in which they first
/// occur.
pub open spec fn registers_of(operands: Seq<DecodedOperand>, n: int) -> Seq<Seq<char>>
    decreases n,
{
    if n <= 0 {
        Seq::empty()
    } else {
        let before = registers_of(operands, n - 1);
        match operands[n - 1] {
            DecodedOperand::Memory(info) => {
                let with_base = match info.base_reg {
                    Some(name) => with_name(before, name@),
                    None => before,
                };
                match info.index_reg {
                    Some(name) => with_name(with_base, name@),
                    None => with_base,
                }
            },
            _ => before,
        }
    }
}

/// The names as sequences of characters.
pub open spec fn name_views(names: Seq<&'static str>) -> Seq<Seq<char>> {
    names.map_values(|n: &'static str| n@)
}

/// Whether `analysis` is the analysis of `instruction` in the given context
/// and memory: the text and the properties of the instruction, its memory
/// accesses, where it sends the instruction pointer, and the registers of
/// its memory operands.  A part that fails is `None`.
pub open spec fn analysis_of(
    analysis: OpAnalysis,
    context: MinidumpContext,
    instruction: InstructionView,
    memory_list: Option<Seq<MemoryRegion>>,
    stack_memory: Option<MemoryRegion>,
) -> bool {
    &&& analysis.instruction_str@ == instruction.text
    &&& analysis.instruction_properties == properties_of(instruction.mnemonic)
    &&& match accesses_of(context, instruction) {
        Ok(list) => analysis.memory_access_list matches Some(l) && l.accesses@ == list,
        Err(_) => analysis.memory_access_list is None,
    }
    &&& analysis.instruction_pointer_update == (match ip_update_of(
        context,
        instruction,
        memory_list,
        stack_memory,
    ) {
        Ok(update) => update,
        Err(_) => None,
    })
    &&& name_views(analysis.registers@) == registers_of(
        instruction.operands,
        instruction.operands.len() as int,
    )
}

impl AccessDerivableOpcode {
    /// The access-derivable opcode of the given mnemonic, if it is one.
    pub fn from_mnemonic(mnemonic: &str) -> (r: Option<Self>)
        ensures
            r == derivable_opcode(mnemonic@),
    {
        let i = match find_name(array_as_slice(&ACCESS_DERIVABLE_MNEMONICS), mnemonic) {
            Some(i) => i,
            None => { return None; },
        };
        Some(
            match i {
                0 => AccessDerivableOpcode::ADD,
                1 => AccessDerivableOpcode::CALL,
                2 => AccessDerivableOpcode::CMP,
                3 => AccessDerivableOpcode::DEC,
                4 => AccessDerivableOpcode::INC,
                5 => AccessDerivableOpcode::JMP,
                6 => AccessDerivableOpcode::JMPF,
                7 => AccessDerivableOpcode::JO,
                8 => AccessDerivableOpcode::JNO,
                9 => AccessDerivableOpcode::JB,
                10 => AccessDerivableOpcode::JNB,
                11 => AccessDerivableOpcode::JZ,
                12 => AccessDerivableOpcode::JNZ,
                13 => AccessDerivableOpcode::JA,
                14 => AccessDerivableOpcode::JNA,
                15 => AccessDerivableOpcode::JS,
                16 => AccessDerivableOpcode::JNS,
                17 => AccessDerivableOpcode::JP,
                18 => AccessDerivableOpcode::JNP,
                19 => AccessDerivableOpcode::JL,
                20 => AccessDerivableOpcode::JGE,
                21 => AccessDerivableOpcode::JG,
                22 => AccessDerivableOpcode::JLE,
                23 => AccessDerivableOpcode::LEA,
                24 => AccessDerivableOpcode::MOV,
                25 => AccessDerivableOpcode::MOVAPS,
                26 => AccessDerivableOpcode::MOVUPS,
                27 => AccessDerivableOpcode::POP,
                28 => AccessDerivableOpcode::PUSH,
                29 => AccessDerivableOpcode::RETF,
                30 => AccessDerivableOpcode::RETURN,
                31 => AccessDerivableOpcode::SUB,
                _ => AccessDerivableOpcode::UCOMISS,
            },
        )
    }

    /// How the opcode uses a memory operand at place `idx`.
    pub fn explicit_access(&self, idx: usize) -> (r: Option<Option<MemoryAccessType>>)
        ensures
            r == explicit_access_type(*self, idx as int),
    {
        match self {
            AccessDerivableOpcode::ADD | AccessDerivableOpcode::SUB => match idx {
                0 => Some(Some(MemoryAccessType::ReadWrite)),
                1 => Some(Some(MemoryAccessType::Read)),
                _ => None,
            },
            AccessDerivableOpcode::CALL
            | AccessDerivableOpcode::JMP
            | AccessDerivableOpcode::JMPF
            | AccessDerivableOpcode::PUSH => match idx {
                0 => Some(Some(MemoryAccessType::Read)),
                _ => None,
            },
            AccessDerivableOpcode::CMP | AccessDerivableOpcode::UCOMISS => match idx {
                0 | 1 => Some(Some(MemoryAccessType::Read)),
                _ => None,
            },
            AccessDerivableOpcode::DEC | AccessDerivableOpcode::INC => match idx {
                0 => Some(Some(MemoryAccessType::ReadWrite)),
                _ => None,
            },
            AccessDerivableOpcode::POP => match idx {
                0 => Some(Some(MemoryAccessType::Write)),
                _ => None,
            },
            AccessDerivableOpcode::MOV
            | AccessDerivableOpcode::MOVAPS
            | AccessDerivableOpcode::MOVUPS => match idx {
                0 => Some(Some(MemoryAccessType::Write)),
                1 => Some(Some(MemoryAccessType::Read)),
                _ => None,
            },
            AccessDerivableOpcode::LEA => match idx {
                0 | 1 => Some(None),
                _ => None,
            },
            _ => None,
        }
    }
}

/// Whether the opcode of the given mnemonic is access-derivable.
pub fn is_access_derivable(mnemonic: &str) -> (r: bool)
    ensures
        r == (derivable_opcode(mnemonic@) is Some),
{
    AccessDerivableOpcode::from_mnemonic(mnemonic).is_some()
}

impl InstructionProperties {
    /// The properties of the instruction.
    pub fn from_instruction(instruction: &DecodedInstruction) -> (r: Self)
        ensures
            r == properties_of(instruction.mnemonic@),
    {
        InstructionProperties {
            is_access_derivable: is_access_derivable(instruction.mnemonic.as_str()),
            is_division: InstructionProperties::is_division(instruction),
            is_privileged: InstructionProperties::is_privileged(instruction),
            is_only_gpf_when_non_canonical: InstructionProperties::is_only_gpf_when_non_canonical(
                instruction,
            ),
        }
    }

    /// Whether the instruction divides integers.
    pub fn is_division(instruction: &DecodedInstruction) -> (r: bool)
        ensures
            r == is_one_of(DIVISION_MNEMONICS@, instruction.mnemonic@),
    {
        find_name(array_as_slice(&DIVISION_MNEMONICS), instruction.mnemonic.as_str()).is_some()
    }

    /// Whether the instruction is one that only ring 0 may run.
    pub fn is_privileged(instruction: &DecodedInstruction) -> (r: bool)
        ensures
            r == is_one_of(PRIVILEGED_MNEMONICS@, instruction.mnemonic@),
    {
        find_name(array_as_slice(&PRIVILEGED_MNEMONICS), instruction.mnemonic.as_str()).is_some()
    }

    /// Whether the instruction raises a general protection fault only for a
    /// non-canonical address: true of the access-derivable opcodes but
    /// `movaps`, which also faults on a misaligned address.
    pub fn is_only_gpf_when_non_canonical(instruction: &DecodedInstruction) -> (r: bool)
        ensures
            r == properties_of(instruction.mnemonic@).is_only_gpf_when_non_canonical,
    {
        match AccessDerivableOpcode::from_mnemonic(instruction.mnemonic.as_str()) {
            Some(opcode) => !matches!(opcode, AccessDerivableOpcode::MOVAPS),
            None => false,
        }
    }
}

/// The value of the register called `name`; `RegisterInvalid` where the
/// context has no known value for it.
pub fn get_regspec(context: &MinidumpContext, name: &str) -> (r: Result<u64, OpAnalysisError>)
    ensures
        r == register_value(*context, name@),
{
    match context.get_register(name) {
        Some(v) => Ok(v),
        None => Err(OpAnalysisError::RegisterInvalid),
    }
}

impl MemoryOperandInfo {
    /// What the address of the operand is computed from, if the operand
    /// stands for memory at a computed address.
    pub fn try_from_operand(op: &DecodedOperand) -> (r: Option<Self>)
        ensures
            r == (match *op {
                DecodedOperand::Memory(info) => Some(info),
                _ => None,
            }),
    {
        match op {
            DecodedOperand::Memory(info) => Some(*info),
            _ => None,
        }
    }
}

impl MemoryAddressInfo {
    /// The address that the operand stands for, if it stands for memory at a
    /// computed address.  Fails with `RegisterInvalid` where a register of
    /// the operand has no known value.
    pub fn try_from_operand(op: &DecodedOperand, context: &MinidumpContext) -> (r: Result<
        Option<Self>,
        OpAnalysisError,
    >)
        ensures
            r == (match *op {
                DecodedOperand::Memory(info) => match address_of(*context, info) {
                    Ok(a) => Ok(Some(a)),
                    Err(e) => Err(e),
                },
                _ => Ok(None),
            }),
    {
        let op_info = match MemoryOperandInfo::try_from_operand(op) {
            Some(info) => info,
            None => { return Ok(None); },
        };
        let mut address: u64 = 0;
        let mut is_likely_null_pointer_dereference = false;
        let mut base_known = true;
        if let Some(reg) = op_info.base_reg {
            match context.get_register(reg) {
                Some(base) => {
                    address = base;
                    // A base of zero is very likely a null pointer plus an offset.
                    if base == 0 {
                        is_likely_null_pointer_dereference = true;
                    }
                },
                None => {
                    base_known = false;
                },
            }
        }
        if !base_known {
            return Err(OpAnalysisError::RegisterInvalid);
        }
        if let Some(reg) = op_info.index_reg {
            let index = match context.get_register(reg) {
                Some(index) => index,
                None => { return Err(OpAnalysisError::RegisterInvalid); },
            };
            let scale: u64 = match op_info.scale {
                Some(s) => s as u64,
                None => 1,
            };
            address = address.wrapping_add(index.wrapping_mul(scale));
        } else {
            proof {
                let scale: u64 = match op_info.scale {
                    Some(s) => s as u64,
                    None => 1,
                };
                assert((0u64 as nat) * (scale as nat) == 0) by (nonlinear_arith);
                assert(0u64.wrapping_mul(scale) == 0);
            }
        }
        let disp: i64 = match op_info.disp {
            Some(d) => d,
            None => 0,
        };
        address = address.wrapping_add_signed(disp);
        Ok(
            Some(
                MemoryAddressInfo {
                    address,
                    is_likely_null_pointer_dereference,
                    is_likely_guard_page: false,
                },
            ),
        )
    }

    /// The info of an address that is not computed from an operand.
    pub fn from_address(address: u64) -> (r: Self)
        ensures
            r == plain_address(address),
    {
        MemoryAddressInfo {
            address,
            is_likely_null_pointer_dereference: address == 0,
            is_likely_guard_page: false,
        }
    }
}

impl MemoryAccessList {
    /// The memory accesses of the instruction in the given context.  Fails
    /// with `RegisterInvalid` where a register of a memory operand has no
    /// known value.
    pub fn from_instruction(instruction: &DecodedInstruction, context: &MinidumpContext) -> (r:
        Result<Self, OpAnalysisError>)
        requires
            well_shaped(instruction@),
        ensures
            match accesses_of(*context, instruction@) {
                Ok(list) => r matches Ok(l) && l.accesses@ == list,
                Err(e) => r matches Err(f) && f == e,
            },
    {
        let mut access_list = MemoryAccessList { accesses: Vec::new() };
        let done = match AccessDerivableOpcode::from_mnemonic(instruction.mnemonic.as_str()) {
            Some(opcode) => access_list.add_derivable_opcode_accesses(opcode, instruction, context),
            None => access_list.add_underivable_opcode_accesses(instruction, context),
        };
        match done {
            Ok(()) => Ok(access_list),
            Err(e) => Err(e),
        }
    }

    /// Adds the accesses of an instruction of an access-derivable opcode:
    /// those of its operands, then the one that the opcode implies.
    fn add_derivable_opcode_accesses(
        &mut self,
        opcode: AccessDerivableOpcode,
        instruction: &DecodedInstruction,
        context: &MinidumpContext,
    ) -> (r: Result<(), OpAnalysisError>)
        requires
            old(self).accesses@.len() == 0,
            well_shaped(instruction@),
            derivable_opcode(instruction.mnemonic@) == Some(opcode),
        ensures
            match accesses_of(*context, instruction@) {
                Ok(list) => r is Ok && final(self).accesses@ == list,
                Err(e) => r == Err::<(), _>(e),
            },
    {
        // An instruction that accesses no memory adds nothing.
        let mem_size = match instruction.mem_size {
            Some(size) => size,
            None => {
                assert(self.accesses@ =~= Seq::empty());
                return Ok(());
            },
        };
        let n = instruction.operands.len();
        let mut idx: usize = 0;
        assert(self.accesses@ =~= Seq::empty());
        while idx < n
            invariant
                n == instruction.operands@.len(),
                idx <= n,
                well_shaped(instruction@),
                instruction.mem_size == Some(mem_size),
                derivable_opcode(instruction.mnemonic@) == Some(opcode),
                explicit_accesses(
                    *context,
                    Some(opcode),
                    instruction.operands@,
                    mem_size,
                    idx as int,
                ) == Ok::<_, OpAnalysisError>(self.accesses@),
            decreases n - idx,
        {
            match self.add_derivable_opcode_explicit_access(
                opcode,
                &instruction.operands[idx],
                idx,
                mem_size,
                context,
            ) {
                Ok(()) => {},
                Err(e) => {
                    proof {
                        lemma_explicit_error(
                            *context,
                            Some(opcode),
                            instruction.operands@,
                            mem_size,
                            idx + 1,
                            n as int,
                        );
                    }
                    return Err(e);
                },
            }
            idx += 1;
        }
        self.add_derivable_opcode_implicit_access(opcode, mem_size, context);
        Ok(())
    }

    /// Adds the access of the operand at place `idx` of an instruction of an
    /// access-derivable opcode, if the operand stands for memory that the
    /// opcode accesses.
    fn add_derivable_opcode_explicit_access(
        &mut self,
        opcode: AccessDerivableOpcode,
        operand: &DecodedOperand,
        idx: usize,
        mem_size: Option<u8>,
        context: &MinidumpContext,
    ) -> (r: Result<(), OpAnalysisError>)
        requires
            operand.spec_is_memory() ==> explicit_access_type(opcode, idx as int) is Some,
        ensures
            match operand_access(*context, Some(opcode), *operand, idx as int, mem_size) {
                Ok(None) => r is Ok && final(self).accesses@ == old(self).accesses@,
                Ok(Some(access)) => r is Ok && final(self).accesses@ == old(self).accesses@.push(
                    access,
                ),
                Err(e) => r == Err::<(), _>(e),
            },
    {
        if !operand.is_memory() {
            return Ok(());
        }
        let access_type = match opcode.explicit_access(idx) {
            Some(Some(access_type)) => access_type,
            // `lea` computes the address and does not access it.
            _ => { return Ok(()); },
        };
        match MemoryAddressInfo::try_from_operand(operand, context) {
            Ok(Some(address_info)) => {
                self.accesses.push(MemoryAccess { address_info, size: mem_size, access_type });
                Ok(())
            },
            Ok(None) => Ok(()),
            Err(e) => Err(e),
        }
    }

    /// Adds the access to the stack that the opcode implies.
    fn add_derivable_opcode_implicit_access(
        &mut self,
        opcode: AccessDerivableOpcode,
        mem_size: Option<u8>,
        context: &MinidumpContext,
    )
        ensures
            final(self).accesses@ == (match implicit_access(*context, opcode, mem_size) {
                Some(access) => old(self).accesses@.push(access),
                None => old(self).accesses@,
            }),
    {
        match opcode {
            AccessDerivableOpcode::CALL | AccessDerivableOpcode::PUSH => {
                if let Some(rsp) = context.get_register("rsp") {
                    // At a crash on `call` or `push` the stack pointer has
                    // not moved yet: the write goes below it.
                    self.accesses.push(
                        MemoryAccess {
                            address_info: MemoryAddressInfo::from_address(rsp.wrapping_sub(8)),
                            size: mem_size,
                            access_type: MemoryAccessType::Write,
                        },
                    );
                }
            },
            AccessDerivableOpcode::POP
            | AccessDerivableOpcode::RETF
            | AccessDerivableOpcode::RETURN => {
                if let Some(rsp) = context.get_register("rsp") {
                    self.accesses.push(
                        MemoryAccess {
                            address_info: MemoryAddressInfo::from_address(rsp),
                            size: mem_size,
                            access_type: MemoryAccessType::Read,
                        },
                    );
                }
            },
            _ => {},
        }
    }

    /// Adds the accesses of an instruction of another opcode: one of
    /// underivable type for each of its memory operands.
    fn add_underivable_opcode_accesses(
        &mut self,
        instruction: &DecodedInstruction,
        context: &MinidumpContext,
    ) -> (r: Result<(), OpAnalysisError>)
        requires
            old(self).accesses@.len() == 0,
            derivable_opcode(instruction.mnemonic@) is None,
        ensures
            match accesses_of(*context, instruction@) {
                Ok(list) => r is Ok && final(self).accesses@ == list,
                Err(e) => r == Err::<(), _>(e),
            },
    {
        // An instruction that accesses no memory adds nothing.
        let mem_size = match instruction.mem_size {
            Some(size) => size,
            None => {
                assert(self.accesses@ =~= Seq::empty());
                return Ok(());
            },
        };
        let n = instruction.operands.len();
        let mut idx: usize = 0;
        assert(self.accesses@ =~= Seq::empty());
        while idx < n
            invariant
                n == instruction.operands@.len(),
                idx <= n,
                instruction.mem_size == Some(mem_size),
                derivable_opcode(instruction.mnemonic@) is None,
                explicit_accesses(*context, None, instruction.operands@, mem_size, idx as int)
                    == Ok::<_, OpAnalysisError>(self.accesses@),
            decreases n - idx,
        {
            match self.add_underivable_opcode_explicit_access(
                &instruction.operands[idx],
                idx,
                mem_size,
                context,
            ) {
                Ok(()) => {},
                Err(e) => {
                    proof {
                        lemma_explicit_error(
                            *context,
                            None,
                            instruction.operands@,
                            mem_size,
                            idx + 1,
                            n as int,
                        );
                    }
                    return Err(e);
                },
            }
            idx += 1;
        }
        Ok(())
    }

    /// Adds an access of underivable type for the operand, if it stands for
    /// memory.
    fn add_underivable_opcode_explicit_access(
        &mut self,
        operand: &DecodedOperand,
        idx: usize,
        mem_size: Option<u8>,
        context: &MinidumpContext,
    ) -> (r: Result<(), OpAnalysisError>)
        ensures
            match operand_access(*context, None, *operand, idx as int, mem_size) {
                Ok(None) => r is Ok && final(self).accesses@ == old(self).accesses@,
                Ok(Some(access)) => r is Ok && final(self).accesses@ == old(self).accesses@.push(
                    access,
                ),
                Err(e) => r == Err::<(), _>(e),
            },
    {
        if !operand.is_memory() {
            return Ok(());
        }
        match MemoryAddressInfo::try_from_operand(operand, context) {
            Ok(Some(address_info)) => {
                self.accesses.push(
                    MemoryAccess {
                        address_info,
                        size: mem_size,
                        access_type: MemoryAccessType::Underivable,
                    },
                );
                Ok(())
            },
            Ok(None) => Ok(()),
            Err(e) => Err(e),
        }
    }
}

/// An error among the first `n` operands is the error of any more of them.
pub proof fn lemma_explicit_error(
    context: MinidumpContext,
    opcode: Option<AccessDerivableOpcode>,
    operands: Seq<DecodedOperand>,
    size: Option<u8>,
    n: int,
    m: int,
)
    requires
        0 <= n <= m,
        explicit_accesses(context, opcode, operands, size, n) is Err,
    ensures
        explicit_accesses(context, opcode, operands, size, m) == explicit_accesses(
            context,
            opcode,
            operands,
            size,
            n,
        ),
    decreases m - n,
{
    if n < m {
        lemma_explicit_error(context, opcode, operands, size, n, m - 1);
    }
}

impl InstructionPointerUpdate {
    /// Where the instruction sends the instruction pointer, as far as the
    /// context and the memory tell.  Fails with `RegisterInvalid` where a
    /// register that the target is computed from has no known value.
    pub fn from_instruction(
        instruction: &DecodedInstruction,
        context: &MinidumpContext,
        memory_list: Option<&MemoryList>,
        stack_memory: Option<&MemoryRegion>,
    ) -> (r: Result<Option<Self>, OpAnalysisError>)
        requires
            well_shaped(instruction@),
        ensures
            r == ip_update_of(
                *context,
                instruction@,
                match memory_list {
                    Some(l) => Some(l@),
                    None => None,
                },
                match stack_memory {
                    Some(s) => Some(*s),
                    None => None,
                },
            ),
    {
        let mnemonic = instruction.mnemonic.as_str();
        if find_name(array_as_slice(&BRANCH_MNEMONICS), mnemonic).is_some() {
            // Relative offsets and absolute values are taken to be valid:
            // only registers and memory are looked at.
            let operand = &instruction.operands[0];
            match operand {
                DecodedOperand::Register(reg) => {
                    match get_regspec(context, reg) {
                        Ok(v) => Ok(
                            Some(
                                InstructionPointerUpdate::Update {
                                    address_info: MemoryAddressInfo::from_address(v),
                                },
                            ),
                        ),
                        Err(e) => Err(e),
                    }
                },
                _ => {
                    // For a dereference the target is what the snapshot
                    // holds at the address.
                    let target = match MemoryAddressInfo::try_from_operand(operand, context) {
                        Ok(Some(target)) => target,
                        Ok(None) => { return Ok(None); },
                        Err(e) => { return Err(e); },
                    };
                    let region = match memory_list {
                        Some(list) => list.memory_at_address(target.address),
                        None => None,
                    };
                    let pointer = match region {
                        Some(region) => region.read_pointer(target.address, 8),
                        None => None,
                    };
                    match pointer {
                        Some(address) => Ok(
                            Some(
                                InstructionPointerUpdate::Update {
                                    address_info: MemoryAddressInfo::from_address(address),
                                },
                            ),
                        ),
                        None => Ok(None),
                    }
                },
            }
        } else if find_name(array_as_slice(&RETURN_MNEMONICS), mnemonic).is_some() {
            // The return address is on the stack.
            let pointer = match (context.get_register("rsp"), stack_memory) {
                (Some(rsp), Some(stack)) => stack.read_pointer(rsp, 8),
                _ => None,
            };
            match pointer {
                Some(address) => Ok(
                    Some(
                        InstructionPointerUpdate::Update {
                            address_info: MemoryAddressInfo::from_address(address),
                        },
                    ),
                ),
                None => Ok(None),
            }
        } else if find_name(array_as_slice(&CONDITIONAL_JUMP_MNEMONICS), mnemonic).is_some() {
            // Whether a conditional jump is taken is left undetermined.
            Ok(None)
        } else {
            Ok(Some(InstructionPointerUpdate::NoUpdate))
        }
    }
}

/// Adds `name` to `names` unless they hold it already.
fn insert_name(names: &mut Vec<&'static str>, name: &'static str)
    ensures
        name_views(final(names)@) == with_name(name_views(old(names)@), name@),
{
    let ghost before = name_views(names@);
    let n = names.len();
    let mut i: usize = 0;
    while i < n
        invariant
            n == names@.len(),
            i <= n,
            before == name_views(names@),
            forall|k: int| 0 <= k < i ==> #[trigger] before[k] != name@,
        decreases n - i,
    {
        if str_eq(names[i], name) {
            assert(before[i as int] == name@);
            return ;
        }
        i += 1;
    }
    names.push(name);
    assert(name_views(names@) =~= before.push(name@));
}

/// The names of the registers that the memory operands of the instruction
/// use, each once.
pub fn get_registers(instruction: &DecodedInstruction) -> (r: Vec<&'static str>)
    ensures
        name_views(r@) == registers_of(instruction.operands@, instruction.operands@.len() as int),
{
    let mut ret: Vec<&'static str> = Vec::new();
    let n = instruction.operands.len();
    let mut op: usize = 0;
    assert(name_views(ret@) =~= Seq::empty());
    while op < n
        invariant
            n == instruction.operands@.len(),
            op <= n,
            name_views(ret@) == registers_of(instruction.operands@, op as int),
        decreases n - op,
    {
        if let Some(reginfo) = MemoryOperandInfo::try_from_operand(&instruction.operands[op]) {
            if let Some(reg) = reginfo.base_reg {
                insert_name(&mut ret, reg);
            }
            if let Some(reg) = reginfo.index_reg {
                insert_name(&mut ret, reg);
            }
        }
        op += 1;
    }
    ret
}

/// Whether the operands of the instruction have the shape that its opcode
/// asks for.
pub fn is_well_shaped(instruction: &DecodedInstruction) -> (r: bool)
    ensures
        r == well_shaped(instruction@),
{
    let mnemonic = instruction.mnemonic.as_str();
    if find_name(array_as_slice(&BRANCH_MNEMONICS), mnemonic).is_some()
        && instruction.operands.len() != 1 {
        return false;
    }
    if instruction.mem_size.is_none() {
        return true;
    }
    let opcode = match AccessDerivableOpcode::from_mnemonic(mnemonic) {
        Some(opcode) => opcode,
        None => { return true; },
    };
    let n = instruction.operands.len();
    let mut i: usize = 0;
    while i < n
        invariant
            n == instruction.operands@.len(),
            i <= n,
            instruction.mem_size is Some,
            derivable_opcode(instruction.mnemonic@) == Some(opcode),
            is_one_of(BRANCH_MNEMONICS@, instruction.mnemonic@) ==> n == 1,
            forall|k: int|
                0 <= k < i && (#[trigger] instruction.operands@[k]).spec_is_memory()
                    ==> explicit_access_type(opcode, k) is Some,
        decreases n - i,
    {
        if instruction.operands[i].is_memory() && opcode.explicit_access(i).is_none() {
            assert(instruction@.operands[i as int].spec_is_memory());
            return false;
        }
        i += 1;
    }
    true
}

/// Analyses a decoded instruction in the given context: its text and
/// properties, its memory accesses, where it sends the instruction pointer,
/// and the registers that its memory operands use.  A part that fails is
/// `None`, and the others stand.
pub fn analyze_decoded_instruction(
    context: &MinidumpContext,
    instruction: &DecodedInstruction,
    memory_list: Option<&MemoryList>,
    stack_memory: Option<&MemoryRegion>,
) -> (r: OpAnalysis)
    requires
        well_shaped(instruction@),
    ensures
        analysis_of(
            r,
            *context,
            instruction@,
            match memory_list {
                Some(l) => Some(l@),
                None => None,
            },
            match stack_memory {
                Some(s) => Some(*s),
                None => None,
            },
        ),
{
    let instruction_str = instruction.text.clone();
    let instruction_properties = InstructionProperties::from_instruction(instruction);
    let memory_access_list = match MemoryAccessList::from_instruction(instruction, context) {
        Ok(list) => Some(list),
        Err(_) => None,
    };
    let instruction_pointer_update = match InstructionPointerUpdate::from_instruction(
        instruction,
        context,
        memory_list,
        stack_memory,
    ) {
        Ok(update) => update,
        Err(_) => None,
    };
    let registers = get_registers(instruction);
    OpAnalysis {
        instruction_str,
        instruction_properties,
        memory_access_list,
        instruction_pointer_update,
        registers,
    }
}

/// Decodes the instruction at the start of `instruction_bytes` and analyses
/// it in the given context.
///
/// Fails with `InstructionTruncated` where the bytes end before the
/// instruction does, and with `DecodeFailed` where they are no instruction, or
/// one whose operands do not have the shape that its opcode asks for.
pub fn analyze_instruction(
    context: &MinidumpContext,
    instruction_bytes: &[u8],
    memory_list: Option<&MemoryList>,
    stack_memory: Option<&MemoryRegion>,
) -> (r: Result<OpAnalysis, OpAnalysisError>)
    ensures
        analysis_of_bytes(
            r,
            *context,
            instruction_bytes@,
            match memory_list {
                Some(l) => Some(l@),
                None => None,
            },
            match stack_memory {
                Some(s) => Some(*s),
                None => None,
            },
        ),
{
    let decoded_instruction = match decode_instruction(instruction_bytes) {
        Ok(instruction) => instruction,
        Err(DecodeOutcome::Truncated) => { return Err(OpAnalysisError::InstructionTruncated); },
        Err(_) => { return Err(OpAnalysisError::DecodeFailed); },
    };
    if !is_well_shaped(&decoded_instruction) {
        return Err(OpAnalysisError::DecodeFailed);
    }
    Ok(analyze_decoded_instruction(context, &decoded_instruction, memory_list, stack_memory))
}

/// A memory operand whose base register holds 0 gives an address that is
/// marked as a likely null-pointer dereference, whatever its index and
/// displacement.
pub proof fn lemma_null_base_is_flagged(
    context: MinidumpContext,
    info: MemoryOperandInfo,
    base: &'static str,
)
    requires
        info.base_reg == Some(base),
        context.spec_register(base@) == Some(0u64),
        address_of(context, info) is Ok,
    ensures
        address_of(context, info)->Ok_0.is_likely_null_pointer_dereference,
{
}

/// The accesses of the operands of an access-derivable opcode are never of
/// underivable type.
pub proof fn lemma_explicit_accesses_derived(
    context: MinidumpContext,
    opcode: AccessDerivableOpcode,
    operands: Seq<DecodedOperand>,
    size: Option<u8>,
    n: int,
)
    requires
        explicit_accesses(context, Some(opcode), operands, size, n) is Ok,
    ensures
        forall|i: int|
            0 <= i < explicit_accesses(context, Some(opcode), operands, size, n)->Ok_0.len() ==> (
            #[trigger] explicit_accesses(
                context,
                Some(opcode),
                operands,
                size,
                n,
            )->Ok_0[i]).access_type != MemoryAccessType::Underivable,
    decreases n,
{
    if n > 0 {
        lemma_explicit_accesses_derived(context, opcode, operands, size, n - 1);
    }
}

/// Where every register that a memory operand names has a known value, the
/// accesses of the operands are determined.
pub proof fn lemma_explicit_accesses_known(
    context: MinidumpContext,
    opcode: Option<AccessDerivableOpcode>,
    operands: Seq<DecodedOperand>,
    size: Option<u8>,
    n: int,
)
    requires
        n <= operands.len(),
        forall|i: int|
            0 <= i < n ==> (#[trigger] operands[i] matches DecodedOperand::Memory(info)
                ==> address_of(context, info) is Ok),
    ensures
        explicit_accesses(context, opcode, operands, size, n) is Ok,
    decreases n,
{
    if n > 0 {
        lemma_explicit_accesses_known(context, opcode, operands, size, n - 1);
        assert(operands[n - 1] matches DecodedOperand::Memory(info) ==> address_of(context, info)
            is Ok);
    }
}

/// For an instruction of an access-derivable opcode, in a context that knows
/// the registers of its memory operands, the analysis has a list of memory
/// accesses, and none of them is of underivable type.
pub proof fn lemma_derivable_accesses(
    analysis: OpAnalysis,
    context: MinidumpContext,
    instruction: InstructionView,
    memory_list: Option<Seq<MemoryRegion>>,
    stack_memory: Option<MemoryRegion>,
)
    requires
        analysis_of(analysis, context, instruction, memory_list, stack_memory),
        derivable_opcode(instruction.mnemonic) is Some,
        forall|i: int|
            0 <= i < instruction.operands.len() ==> (
            #[trigger] instruction.operands[i] matches DecodedOperand::Memory(info) ==> address_of(
                context,
                info,
            ) is Ok),
    ensures
        analysis.instruction_properties.is_access_derivable,
        analysis.memory_access_list matches Some(list) && forall|i: int|
            0 <= i < list.accesses@.len() ==> (#[trigger] list.accesses@[i]).access_type
                != MemoryAccessType::Underivable,
{
    if let Some(size) = instruction.mem_size {
        let opcode = derivable_opcode(instruction.mnemonic);
        let n = instruction.operands.len() as int;
        lemma_explicit_accesses_known(context, opcode, instruction.operands, size, n);
        lemma_explicit_accesses_derived(context, opcode->0, instruction.operands, size, n);
    }
}

/// No name occurs twice among the registers of an instruction.
pub proof fn lemma_registers_distinct(operands: Seq<DecodedOperand>, n: int, i: int, j: int)
    requires
        0 <= i < j < registers_of(operands, n).len(),
    ensures
        registers_of(operands, n)[i] != registers_of(operands, n)[j],
    decreases n,
{
    if n > 0 {
        let before = registers_of(operands, n - 1);
        let all = registers_of(operands, n);
        match operands[n - 1] {
            DecodedOperand::Memory(info) => {
                let with_base = match info.base_reg {
                    Some(name) => with_name(before, name@),
                    None => before,
                };
                if j < before.len() {
                    lemma_registers_distinct(operands, n - 1, i, j);
                } else if j < with_base.len() {
                    // The base register is new: it differs from all before it.
                    assert(!before.contains(info.base_reg->0@));
                    assert(before[i] == all[i]);
                } else {
                    assert(!with_base.contains(info.index_reg->0@));
                    assert(with_base[i] == all[i]);
                }
            },
            _ => {
                lemma_registers_distinct(operands, n - 1, i, j);
            },
        }
    }
}

} // verus!
