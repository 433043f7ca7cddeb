//! What the stack walker asks of a provider of symbols, and what it hands
//! to one.

use crate::context::{
    fit_register, ip_index, register_count, register_index, register_names, sp_index,
    MinidumpContext,
};
use crate::memory::MemoryRegion;
use crate::module::Module;
use crate::process_state::InlineFrame;
use crate::system_info::{spec_pointer_size, Cpu};
use vstd::prelude::*;

verus! {

/// The provider has no symbols for the module.
#[derive(Clone, Copy, Debug, PartialEq, Eq, Structural)]
pub struct FillSymbolError {}

/// A kind of file that belongs to a module.
#[derive(Clone, Copy, Debug, PartialEq, Eq, Structural)]
pub enum FileKind {
    /// A Breakpad symbol file.
    BreakpadSym,
    /// The binary itself.
    Binary,
    /// A file of debug information beside the binary.
    ExtraDebugInfo,
}

/// Why a file of a module could not be had.
#[derive(Clone, Copy, Debug, PartialEq, Eq, Structural)]
pub enum FileError {
    /// There is no such file.
    NotFound,
}

/// What a provider reports of its work on one module.
#[derive(Clone, Debug, PartialEq, Eq)]
pub struct SymbolStats {
    /// Where the symbols were found.
    pub symbol_url: Option<String>,
    /// Whether symbols were loaded.
    pub loaded_symbols: bool,
    /// Whether symbols were found and could not be read.
    pub corrupt_symbols: bool,
}

/// The function that holds an instruction.
#[derive(Clone, Debug, PartialEq, Eq)]
pub struct FunctionSymbol {
    /// The name of the function.
    pub name: String,
    /// The address at which it starts.
    pub base: u64,
    /// The size in bytes of the parameters that it takes on the stack.
    pub parameter_size: u32,
}

/// The source line of an instruction.
#[derive(Clone, Debug, PartialEq, Eq)]
pub struct SourceLocation {
    /// The source file.
    pub file: String,
    /// The line in it.
    pub line: u32,
    /// The address at which the line starts.
    pub base: u64,
}

/// What a provider that has symbols for a module knows of an instruction.
#[derive(Clone, Debug, PartialEq, Eq)]
pub struct FrameSymbols {
    /// The function that holds the instruction, if the symbols name one.
    pub function: Option<FunctionSymbol>,
    /// The source line of the instruction.
    pub source: Option<SourceLocation>,
    /// The functions that were inlined around the instruction, innermost
    /// first.
    pub inlines: Vec<InlineFrame>,
}

/// What a provider works on when it steps from a frame to its caller by
/// unwind rules: the registers of the callee and the stack to read, and the
/// registers of the caller to write.
#[derive(Debug)]
pub struct CfiStackWalker<'a> {
    /// The address of the instruction of the callee.
    pub instruction: u64,
    /// Whether the callee itself has a callee.
    pub has_grand_callee: bool,
    /// The size of the parameters that the callee of the callee takes on the
    /// stack.
    pub grand_callee_parameter_size: u32,
    /// The registers of the callee.
    pub callee_ctx: MinidumpContext,
    /// The stack of the thread.
    pub stack_memory: Option<&'a MemoryRegion>,
    /// The registers of the caller, as far as they were written.
    pub caller_ctx: MinidumpContext,
}

impl<'a> CfiStackWalker<'a> {
    /// The address of the instruction of the callee.
    pub fn get_instruction(&self) -> (r: u64)
        ensures
            r == self.instruction,
    {
        self.instruction
    }

    /// Whether the callee itself has a callee.
    pub fn has_grand_callee(&self) -> (r: bool)
        ensures
            r == self.has_grand_callee,
    {
        self.has_grand_callee
    }

    /// The size of the parameters that the callee of the callee takes on the
    /// stack.
    pub fn get_grand_callee_parameter_size(&self) -> (r: u32)
        ensures
            r == self.grand_callee_parameter_size,
    {
        self.grand_callee_parameter_size
    }

    /// The pointer-sized value that the stack holds at `address`.
    pub fn get_register_at_address(&self, address: u64) -> (r: Option<u64>)
        ensures
            r == (match (self.stack_memory, spec_pointer_size(self.callee_ctx.cpu)) {
                (Some(stack), Some(size)) => stack.spec_read_pointer(address, size),
                _ => None,
            }),
    {
        match (self.stack_memory, self.callee_ctx.cpu.pointer_size()) {
            (Some(stack), Some(size)) => stack.read_pointer(address, size),
            _ => None,
        }
    }

    /// The value of the callee's register called `name`, if it is known.
    pub fn get_callee_register(&self, name: &str) -> (r: Option<u64>)
        ensures
            r == self.callee_ctx.spec_register(name@),
    {
        self.callee_ctx.get_register(name)
    }

    /// Writes `value` to the caller's register at place `i` and marks it
    /// valid.  `None`, and nothing written, where the processor has no
    /// register at that place.
    pub fn set_caller_register_at(&mut self, i: usize, value: u64) -> (r: Option<()>)
        ensures
            if i < register_names(old(self).caller_ctx.cpu).len() {
                r is Some && caller_written(*old(self), *final(self), i as int, value)
            } else {
                r is None && *final(self) == *old(self)
            },
    {
        if i < register_count(self.caller_ctx.cpu) {
            self.caller_ctx.set_register_at(i, value);
            Some(())
        } else {
            None
        }
    }

    /// Writes `value` to the caller's register called `name` and marks it
    /// valid.  `None`, and nothing written, where the processor has no
    /// register of that name.
    pub fn set_caller_register(&mut self, name: &str, value: u64) -> (r: Option<()>)
        ensures
            match register_index(old(self).caller_ctx.cpu, name@) {
                Some(i) => r is Some && caller_written(*old(self), *final(self), i, value),
                None => r is None && *final(self) == *old(self),
            },
    {
        self.caller_ctx.set_register(name, value)
    }

    /// Writes the canonical frame address, which is the caller's stack
    /// pointer.
    pub fn set_cfa(&mut self, value: u64) -> (r: Option<()>)
        ensures
            match sp_index(old(self).caller_ctx.cpu) {
                Some(i) => r is Some && caller_written(*old(self), *final(self), i, value),
                None => r is None && *final(self) == *old(self),
            },
    {
        match stack_pointer_place(self.caller_ctx.cpu) {
            Some(i) => {
                self.caller_ctx.set_register_at(i, value);
                Some(())
            },
            None => None,
        }
    }

    /// Writes the return address, which is the caller's instruction pointer.
    pub fn set_ra(&mut self, value: u64) -> (r: Option<()>)
        ensures
            match ip_index(old(self).caller_ctx.cpu) {
                Some(i) => r is Some && caller_written(*old(self), *final(self), i, value),
                None => r is None && *final(self) == *old(self),
            },
    {
        match instruction_pointer_place(self.caller_ctx.cpu) {
            Some(i) => {
                self.caller_ctx.set_register_at(i, value);
                Some(())
            },
            None => None,
        }
    }
}

/// Whether `after` is `before` with `value` written to the caller's register
/// at place `i`: that register holds the value, cut to its width, and is
/// valid, and nothing else has changed, in value or in validity.
pub open spec fn caller_written(
    before: CfiStackWalker<'_>,
    after: CfiStackWalker<'_>,
    i: int,
    value: u64,
) -> bool {
    &&& after.instruction == before.instruction
    &&& after.has_grand_callee == before.has_grand_callee
    &&& after.grand_callee_parameter_size == before.grand_callee_parameter_size
    &&& after.callee_ctx == before.callee_ctx
    &&& after.stack_memory == before.stack_memory
    &&& after.caller_ctx.cpu == before.caller_ctx.cpu
    &&& after.caller_ctx.regs@ == before.caller_ctx.regs@.update(
        i,
        fit_register(before.caller_ctx.cpu, value),
    )
    &&& after.caller_ctx.is_valid(i)
    &&& forall|j: int| j != i ==> after.caller_ctx.is_valid(j) == before.caller_ctx.is_valid(j)
}

/// The place of the instruction pointer in the register file of `cpu`.
pub fn instruction_pointer_place(cpu: Cpu) -> (r: Option<usize>)
    ensures
        r is Some <==> ip_index(cpu) is Some,
        r matches Some(i) ==> ip_index(cpu) == Some(i as int) && i < crate::context::register_names(
            cpu,
        ).len(),
{
    match cpu {
        Cpu::X86 => Some(0),
        Cpu::X86_64 => Some(16),
        Cpu::Arm => Some(15),
        Cpu::Arm64 => Some(32),
        Cpu::Ppc => Some(0),
        Cpu::Unknown => None,
    }
}

/// The place of the stack pointer in the register file of `cpu`.
pub fn stack_pointer_place(cpu: Cpu) -> (r: Option<usize>)
    ensures
        r is Some <==> sp_index(cpu) is Some,
        r matches Some(i) ==> sp_index(cpu) == Some(i as int) && i < crate::context::register_names(
            cpu,
        ).len(),
{
    match cpu {
        Cpu::X86 => Some(1),
        Cpu::X86_64 => Some(7),
        Cpu::Arm => Some(13),
        Cpu::Arm64 => Some(31),
        Cpu::Ppc => Some(1),
        Cpu::Unknown => None,
    }
}

/// A provider of symbols and unwind rules for the modules of a process.
///
/// The walker takes whatever an implementation returns: nothing is assumed
/// of it, and what the walker promises of a stack holds with any provider.
pub trait SymbolProvider {
    /// What the symbols of `module` know of the instruction at the given
    /// address; `Err` where the provider has no symbols for the module.
    fn fill_symbol(&self, module: &Module, instruction: u64) -> Result<
        FrameSymbols,
        FillSymbolError,
    >;

    /// Steps from the callee to its caller by the unwind rules of `module`,
    /// writing the caller's registers to `walker`; `None` where the provider
    /// has no rules for the instruction.
    fn walk_frame(&self, module: &Module, walker: &mut CfiStackWalker<'_>) -> Option<()>;

    /// The path of a file that belongs to `module`.
    fn get_file_path(&self, module: &Module, file_kind: FileKind) -> Result<String, FileError>;

    /// What the provider reports of its work, by the name of the module.
    fn stats(&self) -> Vec<(String, SymbolStats)>;
}

} // verus!
