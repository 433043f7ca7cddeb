//! The x86-64 disassembler.
//!
//! Decoding is the work of the `yaxpeax-x86` crate.  What it makes of some
//! bytes depends on the bytes alone, and so each thing that the analysis
//! reads of the decoded instruction has a name here: a function of the
//! bytes, of which nothing is known but that the disassembler computes it.
//! This module holds the calls that compute them, none of which Verus has
//! read, and the verified code that puts what they return together into a
//! [`DecodedInstruction`].

use crate::amd64::{
    displacement_value, DecodedInstruction, DecodedOperand, Displacement, InstructionView,
    MemoryOperandInfo,
};
use vstd::prelude::*;

verus! {

/// How an attempt to decode the instruction at the start of some bytes ends.
#[derive(Clone, Copy, Debug, PartialEq, Eq, Structural)]
pub enum DecodeOutcome {
    /// The bytes start with an instruction.
    Decoded,
    /// The bytes end before the instruction does.
    Truncated,
    /// The bytes do not start with an instruction.
    Invalid,
}

/// How `InstDecoder::decode_slice`, with the default decoder, ends on the
/// given bytes.
pub uninterp spec fn amd64_decode_outcome(bytes: Seq<u8>) -> DecodeOutcome;

/// What the `Display` of the decoded instruction writes.
pub uninterp spec fn amd64_text(bytes: Seq<u8>) -> Seq<char>;

/// What the `Display` of `Instruction::opcode` of the decoded instruction
/// writes.
pub uninterp spec fn amd64_mnemonic(bytes: Seq<u8>) -> Seq<char>;

/// `Instruction::operand_count` of the decoded instruction.
pub uninterp spec fn amd64_operand_count(bytes: Seq<u8>) -> u8;

/// `Instruction::mem_size` of the decoded instruction and, of the size,
/// `MemoryAccessSize::bytes_size`.
pub uninterp spec fn amd64_mem_size(bytes: Seq<u8>) -> Option<Option<u8>>;

/// `Operand::is_memory` of the operand at the given place of the decoded
/// instruction.
pub uninterp spec fn amd64_operand_is_memory(bytes: Seq<u8>, index: u8) -> bool;

/// The name of the register of that operand, where it is an
/// `Operand::Register`.
pub uninterp spec fn amd64_operand_register(bytes: Seq<u8>, index: u8) -> Option<&'static str>;

/// The name of the base register of that operand, where it is an unmasked
/// memory operand that has one.
pub uninterp spec fn amd64_operand_base(bytes: Seq<u8>, index: u8) -> Option<&'static str>;

/// The name of the index register of that operand and its scale, where it
/// is an unmasked memory operand that has them.
pub uninterp spec fn amd64_operand_index(bytes: Seq<u8>, index: u8) -> Option<(&'static str, u8)>;

/// The displacement or absolute address of that operand, where it is an
/// unmasked memory operand that has one.
pub uninterp spec fn amd64_operand_displacement(bytes: Seq<u8>, index: u8) -> Option<Displacement>;

/// `InstDecoder::decode_slice` with the default decoder: whether it
/// succeeds, fails with `DecodeError::ExhaustedInput`, or fails otherwise.
#[verifier::external_body]
fn decode_outcome(bytes: &[u8]) -> (r: DecodeOutcome)
    ensures
        r == amd64_decode_outcome(bytes@),
{
    match yaxpeax_x86::amd64::InstDecoder::default().decode_slice(bytes) {
        Ok(_) => DecodeOutcome::Decoded,
        Err(yaxpeax_x86::amd64::DecodeError::ExhaustedInput) => DecodeOutcome::Truncated,
        Err(_) => DecodeOutcome::Invalid,
    }
}

/// The instruction that `decode_slice` makes of the bytes, as its `Display`
/// writes it; empty where there is none.
#[verifier::external_body]
fn decoded_text(bytes: &[u8]) -> (r: String)
    ensures
        r@ == amd64_text(bytes@),
{
    let decoded = yaxpeax_x86::amd64::InstDecoder::default().decode_slice(bytes);
    decoded.map(|instruction| instruction.to_string()).unwrap_or_default()
}

/// `Instruction::opcode` of that instruction, as the `Display` of `Opcode`
/// writes it; empty where there is none.
#[verifier::external_body]
fn decoded_mnemonic(bytes: &[u8]) -> (r: String)
    ensures
        r@ == amd64_mnemonic(bytes@),
{
    let decoded = yaxpeax_x86::amd64::InstDecoder::default().decode_slice(bytes);
    decoded.map(|instruction| instruction.opcode().to_string()).unwrap_or_default()
}

/// `Instruction::operand_count` of that instruction; 0 where there is none.
#[verifier::external_body]
fn decoded_operand_count(bytes: &[u8]) -> (r: u8)
    ensures
        r == amd64_operand_count(bytes@),
{
    let decoded = yaxpeax_x86::amd64::InstDecoder::default().decode_slice(bytes);
    decoded.map(|instruction| instruction.operand_count()).unwrap_or_default()
}

/// `Instruction::mem_size` of that instruction and, of the size,
/// `MemoryAccessSize::bytes_size`: `None` for an instruction that accesses
/// no memory, `Some(None)` for an access of a size that the instruction
/// alone does not tell.
#[verifier::external_body]
fn decoded_mem_size(bytes: &[u8]) -> (r: Option<Option<u8>>)
    ensures
        r == amd64_mem_size(bytes@),
{
    let decoded = yaxpeax_x86::amd64::InstDecoder::default().decode_slice(bytes).ok()?;
    decoded.mem_size().map(|size| size.bytes_size())
}

/// `Operand::is_memory` of `Instruction::operand` of that instruction.
/// `operand` panics on an index of 4 or more.
#[verifier::external_body]
fn decoded_operand_is_memory(bytes: &[u8], index: u8) -> (r: bool)
    requires
        index < 4,
    ensures
        r == amd64_operand_is_memory(bytes@, index),
{
    let decoded = yaxpeax_x86::amd64::InstDecoder::default().decode_slice(bytes);
    decoded.map(|instruction| instruction.operand(index).is_memory()).unwrap_or_default()
}

/// The name of the register of an `Operand::Register`.
#[verifier::external_body]
fn decoded_operand_register(bytes: &[u8], index: u8) -> (r: Option<&'static str>)
    requires
        index < 4,
    ensures
        r == amd64_operand_register(bytes@, index),
{
    let decoded = yaxpeax_x86::amd64::InstDecoder::default().decode_slice(bytes).ok()?;
    match decoded.operand(index) {
        yaxpeax_x86::amd64::Operand::Register { reg } => Some(reg.name()),
        _ => None,
    }
}

/// The name of the base register of an unmasked memory operand that has one.
#[verifier::external_body]
fn decoded_operand_base(bytes: &[u8], index: u8) -> (r: Option<&'static str>)
    requires
        index < 4,
    ensures
        r == amd64_operand_base(bytes@, index),
{
    let decoded = yaxpeax_x86::amd64::InstDecoder::default().decode_slice(bytes).ok()?;
    match decoded.operand(index) {
        yaxpeax_x86::amd64::Operand::MemDeref { base }
        | yaxpeax_x86::amd64::Operand::Disp { base, .. }
        | yaxpeax_x86::amd64::Operand::MemBaseIndexScale { base, .. }
        | yaxpeax_x86::amd64::Operand::MemBaseIndexScaleDisp { base, .. } => Some(base.name()),
        _ => None,
    }
}

/// The name of the index register of an unmasked memory operand that has
/// one, and the scale that goes with it.
#[verifier::external_body]
fn decoded_operand_index(bytes: &[u8], index: u8) -> (r: Option<(&'static str, u8)>)
    requires
        index < 4,
    ensures
        r == amd64_operand_index(bytes@, index),
{
    let decoded = yaxpeax_x86::amd64::InstDecoder::default().decode_slice(bytes).ok()?;
    match decoded.operand(index) {
        yaxpeax_x86::amd64::Operand::MemIndexScale { index, scale }
        | yaxpeax_x86::amd64::Operand::MemIndexScaleDisp { index, scale, .. }
        | yaxpeax_x86::amd64::Operand::MemBaseIndexScale { index, scale, .. }
        | yaxpeax_x86::amd64::Operand::MemBaseIndexScaleDisp { index, scale, .. } => Some(
            (index.name(), scale),
        ),
        _ => None,
    }
}

/// The displacement or absolute address of an unmasked memory operand that
/// has one.
#[verifier::external_body]
fn decoded_operand_displacement(bytes: &[u8], index: u8) -> (r: Option<Displacement>)
    requires
        index < 4,
    ensures
        r == amd64_operand_displacement(bytes@, index),
{
    let decoded = yaxpeax_x86::amd64::InstDecoder::default().decode_slice(bytes).ok()?;
    match decoded.operand(index) {
        yaxpeax_x86::amd64::Operand::AbsoluteU32 { addr } => Some(Displacement::Absolute32(addr)),
        yaxpeax_x86::amd64::Operand::AbsoluteU64 { addr } => Some(Displacement::Absolute64(addr)),
        yaxpeax_x86::amd64::Operand::Disp { disp, .. }
        | yaxpeax_x86::amd64::Operand::MemIndexScaleDisp { disp, .. }
        | yaxpeax_x86::amd64::Operand::MemBaseIndexScaleDisp { disp, .. } => Some(
            Displacement::Relative(disp),
        ),
        _ => None,
    }
}

/// The operand at the given place of the decoded instruction, as the
/// analysis reads it.  A register operand is its register.  A memory operand
/// with a base, an index or a displacement is just these; one with none of
/// them is accessed under a mask.  Anything else is of no interest.
pub open spec fn operand_of(bytes: Seq<u8>, index: u8) -> DecodedOperand {
    match amd64_operand_register(bytes, index) {
        Some(name) => DecodedOperand::Register(name),
        None => if !amd64_operand_is_memory(bytes, index) {
            DecodedOperand::Other
        } else if amd64_operand_base(bytes, index) is None && amd64_operand_index(bytes, index)
            is None && amd64_operand_displacement(bytes, index) is None {
            DecodedOperand::MaskedMemory
        } else {
            DecodedOperand::Memory(
                MemoryOperandInfo {
                    base_reg: amd64_operand_base(bytes, index),
                    index_reg: match amd64_operand_index(bytes, index) {
                        Some(p) => Some(p.0),
                        None => None,
                    },
                    scale: match amd64_operand_index(bytes, index) {
                        Some(p) => Some(p.1),
                        None => None,
                    },
                    disp: match amd64_operand_displacement(bytes, index) {
                        Some(d) => Some(displacement_value(d)),
                        None => None,
                    },
                },
            )
        },
    }
}

/// The number of operands of the decoded instruction: no instruction has
/// more than four.
pub open spec fn operand_count_of(bytes: Seq<u8>) -> nat {
    if amd64_operand_count(bytes) < 4 {
        amd64_operand_count(bytes) as nat
    } else {
        4
    }
}

/// The decoded instruction, as the analysis reads it.
pub open spec fn decoded(bytes: Seq<u8>) -> InstructionView {
    InstructionView {
        mnemonic: amd64_mnemonic(bytes),
        text: amd64_text(bytes),
        mem_size: amd64_mem_size(bytes),
        operands: Seq::new(operand_count_of(bytes), |i: int| operand_of(bytes, i as u8)),
    }
}

/// The operand at the given place of the instruction at the start of
/// `bytes`.
fn lift_operand(bytes: &[u8], index: u8) -> (r: DecodedOperand)
    requires
        index < 4,
    ensures
        r == operand_of(bytes@, index),
{
    if let Some(name) = decoded_operand_register(bytes, index) {
        return DecodedOperand::Register(name);
    }
    if !decoded_operand_is_memory(bytes, index) {
        return DecodedOperand::Other;
    }
    let base = decoded_operand_base(bytes, index);
    let index_and_scale = decoded_operand_index(bytes, index);
    let displacement = decoded_operand_displacement(bytes, index);
    if base.is_none() && index_and_scale.is_none() && displacement.is_none() {
        return DecodedOperand::MaskedMemory;
    }
    DecodedOperand::Memory(MemoryOperandInfo::from_parts(base, index_and_scale, displacement))
}

/// Decodes the instruction at the start of `bytes`.  The error is the
/// outcome when there is no instruction to return.
pub fn decode_instruction(bytes: &[u8]) -> (r: Result<DecodedInstruction, DecodeOutcome>)
    ensures
        match amd64_decode_outcome(bytes@) {
            DecodeOutcome::Decoded => r matches Ok(instruction) && instruction@ == decoded(bytes@),
            outcome => r == Err::<DecodedInstruction, _>(outcome),
        },
{
    match decode_outcome(bytes) {
        DecodeOutcome::Decoded => {},
        outcome => { return Err(outcome); },
    }
    let count = decoded_operand_count(bytes);
    let mut operands: Vec<DecodedOperand> = Vec::new();
    let mut i: u8 = 0;
    while i < count && i < 4
        invariant
            i <= 4,
            i <= count,
            operands@.len() == i,
            forall|k: int| 0 <= k < i ==> #[trigger] operands@[k] == operand_of(bytes@, k as u8),
        decreases 4 - i,
    {
        operands.push(lift_operand(bytes, i));
        i += 1;
    }
    let instruction = DecodedInstruction {
        mnemonic: decoded_mnemonic(bytes),
        text: decoded_text(bytes),
        mem_size: decoded_mem_size(bytes),
        operands,
    };
    assert(instruction@.operands =~= decoded(bytes@).operands);
    Ok(instruction)
}

} // verus!
