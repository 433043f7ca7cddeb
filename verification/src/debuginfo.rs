//! What a symbol provider that works from the debug information of local
//! binaries decides: which file to read for a module, which registers to
//! hand to an unwinder and what to make of its answer, and how the result of
//! a symbol lookup fills a frame.  Reading the files and running the
//! unwinder is left to the provider.

use crate::module::Module;
use crate::process_state::InlineFrame;
use crate::symbols::{CfiStackWalker, FileKind, FrameSymbols, FunctionSymbol, SourceLocation};
use crate::system_info::Cpu;
use vstd::prelude::*;

verus! {

/// What a provider keeps the symbols of a module under: the address that the
/// module was mapped at.
#[derive(Clone, Copy, Debug, PartialEq, Eq, PartialOrd, Ord, Hash, Structural)]
pub struct ModuleKey(pub u64);

impl ModuleKey {
    /// The key of the given module.
    pub fn for_module(module: &Module) -> (r: Self)
        ensures
            r.0 == module.base_address,
    {
        ModuleKey(module.base_address)
    }
}

/// What is known of the debug file of a module on the local system.
#[derive(Clone, Debug, PartialEq, Eq)]
pub struct DebugFileProbe {
    /// The path of the debug file, as the module names it.
    pub path: String,
    /// Whether there is a file at that path.
    pub exists: bool,
    /// For a relative path with a code file in some directory: the path
    /// anchored in that directory, and whether there is a file at it.
    pub anchored: Option<(String, bool)>,
}

/// The file that holds the debug information of a module.
///
/// With `ignore_debug_file`, or without a debug file, it is the code file.
/// Else it is the debug file anchored in the directory of the code file, if
/// there is a file there; else the debug file itself, if there is one; and
/// else the code file.
pub fn effective_debug_file(
    code_file: String,
    debug_file: Option<DebugFileProbe>,
    ignore_debug_file: bool,
) -> (r: String)
    ensures
        r == (if ignore_debug_file {
            code_file
        } else {
            match debug_file {
                Some(probe) => match probe.anchored {
                    Some((anchored, true)) => anchored,
                    _ => if probe.exists {
                        probe.path
                    } else {
                        code_file
                    },
                },
                None => code_file,
            }
        }),
{
    if !ignore_debug_file {
        if let Some(probe) = debug_file {
            // A relative path is anchored in the directory of the code file.
            if let Some((anchored, present)) = probe.anchored {
                if present {
                    return anchored;
                }
            }
            if probe.exists {
                return probe.path;
            }
        }
        // Else the code file it is.
    }
    code_file
}

/// The path among those that a module names at which a file of the given
/// kind would be.  A module names no Breakpad symbol file.
pub fn file_path_candidate(module: &Module, file_kind: FileKind) -> (r: Option<String>)
    ensures
        r == (match file_kind {
            FileKind::BreakpadSym => None,
            FileKind::Binary => Some(module.code_file),
            FileKind::ExtraDebugInfo => module.debug_file,
        }),
{
    match file_kind {
        FileKind::BreakpadSym => None,
        FileKind::Binary => Some(module.code_file.clone()),
        FileKind::ExtraDebugInfo => module.debug_file.clone(),
    }
}

/// The three registers that an unwinder steps by: the stack pointer, the
/// frame pointer and, as the processor has it, the instruction pointer or
/// the link register.
#[derive(Clone, Copy, Debug, PartialEq, Eq, Structural)]
pub struct UnwindRegs {
    /// `rip` on x86-64, `lr` on ARM64.
    pub ip_or_lr: u64,
    /// The stack pointer.
    pub sp: u64,
    /// The frame pointer.
    pub fp: u64,
}

/// The names under which the callee holds the three registers on `cpu`:
/// instruction pointer or link register, stack pointer, frame pointer.
pub open spec fn unwind_register_names(cpu: Cpu) -> Option<
    (&'static str, &'static str, &'static str),
> {
    match cpu {
        Cpu::X86_64 => Some(("rip", "rsp", "rbp")),
        Cpu::Arm64 => Some(("lr", "sp", "fp")),
        _ => None,
    }
}

/// The registers of the callee that the unwinder steps by.  `None` unless
/// the processor is x86-64 or ARM64 and the callee knows all three.
pub fn regs_from_walker(walker: &CfiStackWalker<'_>) -> (r: Option<UnwindRegs>)
    ensures
        r == (match unwind_register_names(walker.callee_ctx.cpu) {
            Some(names) => match (
                walker.callee_ctx.spec_register(names.0@),
                walker.callee_ctx.spec_register(names.1@),
                walker.callee_ctx.spec_register(names.2@),
            ) {
                (Some(ip_or_lr), Some(sp), Some(fp)) => Some(UnwindRegs { ip_or_lr, sp, fp }),
                _ => None,
            },
            None => None,
        }),
{
    let (first, second, third) = match walker.callee_ctx.cpu {
        Cpu::X86_64 => ("rip", "rsp", "rbp"),
        Cpu::Arm64 => ("lr", "sp", "fp"),
        _ => { return None; },
    };
    let ip_or_lr = match walker.get_callee_register(first) {
        Some(v) => v,
        None => { return None; },
    };
    let sp = match walker.get_callee_register(second) {
        Some(v) => v,
        None => { return None; },
    };
    let fp = match walker.get_callee_register(third) {
        Some(v) => v,
        None => { return None; },
    };
    Some(UnwindRegs { ip_or_lr, sp, fp })
}

/// The places of the three registers in the register file of `cpu`:
/// instruction pointer, stack pointer, frame pointer and, on ARM64, link
/// register.
pub open spec fn unwind_register_places(cpu: Cpu) -> Option<(int, int, int, Option<int>)> {
    match cpu {
        Cpu::X86_64 => Some((16, 7, 6, None)),
        Cpu::Arm64 => Some((32, 31, 29, Some(30))),
        _ => None,
    }
}

/// Whether `after` is `before` with the registers of `regs` written into
/// the caller, and before them the return address where one is given.  The
/// stack pointer and the frame pointer are written on both processors, the
/// link register on ARM64.  The registers written are valid, and nothing
/// else has changed.
pub open spec fn unwound(
    before: CfiStackWalker<'_>,
    after: CfiStackWalker<'_>,
    return_address: Option<u64>,
    regs: UnwindRegs,
) -> bool {
    &&& unwind_register_places(before.caller_ctx.cpu) matches Some(places)
    &&& after.instruction == before.instruction
    &&& after.has_grand_callee == before.has_grand_callee
    &&& after.grand_callee_parameter_size == before.grand_callee_parameter_size
    &&& after.callee_ctx == before.callee_ctx
    &&& after.stack_memory == before.stack_memory
    &&& after.caller_ctx.cpu == before.caller_ctx.cpu
    &&& forall|j: int|
        0 <= j < 33 ==> (#[trigger] after.caller_ctx.regs@[j]) == (if j == places.2 {
            regs.fp
        } else if places.3 == Some(j) {
            regs.ip_or_lr
        } else if j == places.1 {
            regs.sp
        } else if j == places.0 && return_address is Some {
            return_address->0
        } else {
            before.caller_ctx.regs@[j]
        })
    &&& forall|j: int|
        #[trigger] after.caller_ctx.is_valid(j) == (j == places.2 || places.3 == Some(j) || j
            == places.1 || (j == places.0 && return_address is Some)
            || before.caller_ctx.is_valid(j))
}

/// Writes the registers that the unwinder stepped to into the caller: the
/// stack pointer as the frame address and the frame pointer and, on ARM64,
/// the link register.  `None`, and nothing written, unless the processor is
/// x86-64 or ARM64.
pub fn update_walker(regs: UnwindRegs, walker: &mut CfiStackWalker<'_>) -> (r: Option<()>)
    ensures
        match unwind_register_places(old(walker).caller_ctx.cpu) {
            Some(_) => r is Some && unwound(*old(walker), *final(walker), None, regs),
            None => r is None && *final(walker) == *old(walker),
        },
{
    match walker.caller_ctx.cpu {
        Cpu::X86_64 => {
            let _ = walker.set_cfa(regs.sp);
            let _ = walker.set_caller_register_at(6, regs.fp);
            Some(())
        },
        Cpu::Arm64 => {
            let _ = walker.set_cfa(regs.sp);
            let _ = walker.set_caller_register_at(30, regs.ip_or_lr);
            let _ = walker.set_caller_register_at(29, regs.fp);
            Some(())
        },
        _ => None,
    }
}

/// The address that unwind rules are looked up for.
#[derive(Clone, Copy, Debug, PartialEq, Eq, Structural)]
pub enum LookupAddress {
    /// The address at which the frame was running.
    InstructionPointer(u64),
    /// The address that the frame's callee returns to.
    ReturnAddress(u64),
}

/// The address to look up the rules of the callee for.  The frame of the
/// context is looked up by its instruction pointer; a frame that was itself
/// called into is looked up by its return address, which is one past its
/// recorded instruction and cannot be 0.
pub fn lookup_address(walker: &CfiStackWalker<'_>) -> (r: Option<LookupAddress>)
    ensures
        r == (if walker.has_grand_callee {
            if walker.instruction == u64::MAX {
                None
            } else {
                Some(LookupAddress::ReturnAddress((walker.instruction + 1) as u64))
            }
        } else {
            Some(LookupAddress::InstructionPointer(walker.instruction))
        }),
{
    let instruction = walker.get_instruction();
    if walker.has_grand_callee() {
        match instruction.checked_add(1) {
            Some(address) => Some(LookupAddress::ReturnAddress(address)),
            None => None,
        }
    } else {
        Some(LookupAddress::InstructionPointer(instruction))
    }
}

/// Takes the answer of the unwinder into the caller: the return address,
/// where it gave one, and the registers that it stepped to.  `None`, and
/// nothing written, where the unwinder failed or the processor is neither
/// x86-64 nor ARM64.
pub fn finish_unwind(
    result: Result<Option<u64>, ()>,
    regs: UnwindRegs,
    walker: &mut CfiStackWalker<'_>,
) -> (r: Option<()>)
    ensures
        match (result, unwind_register_places(old(walker).caller_ctx.cpu)) {
            (Ok(return_address), Some(_)) => r is Some && unwound(
                *old(walker),
                *final(walker),
                return_address,
                regs,
            ),
            _ => r is None && *final(walker) == *old(walker),
        },
{
    let return_address = match result {
        Ok(address) => address,
        Err(_) => { return None; },
    };
    match walker.caller_ctx.cpu {
        Cpu::X86_64 | Cpu::Arm64 => {},
        _ => { return None; },
    }
    if let Some(address) = return_address {
        let _ = walker.set_ra(address);
    }
    update_walker(regs, walker)
}

/// The address of an instruction relative to the start of its module,
/// where that fits 32 bits.
pub fn relative_address(instruction: u64, module: &Module) -> (r: Option<u32>)
    ensures
        r == (if module.base_address <= instruction && instruction - module.base_address
            <= u32::MAX {
            Some((instruction - module.base_address) as u32)
        } else {
            None
        }),
{
    if instruction < module.base_address {
        return None;
    }
    let offset = instruction - module.base_address;
    if offset > 0xffff_ffff {
        return None;
    }
    Some(offset as u32)
}

/// A frame of a symbol lookup: a function and the place in its source that
/// the instruction belongs to.
#[derive(Clone, Debug, PartialEq, Eq)]
pub struct LookupFrame {
    /// The name of the function.
    pub function: Option<String>,
    /// The path of the source file.
    pub file_path: Option<String>,
    /// The line in it.
    pub line_number: Option<u32>,
}

/// Whether `inline` is the inline frame that a frame of a lookup is written
/// as: the same function, with an empty name where the lookup has none, at
/// the same place.
pub open spec fn inline_matches(inline: InlineFrame, frame: LookupFrame) -> bool {
    &&& inline.function_name@ == (match frame.function {
        Some(name) => name@,
        None => Seq::empty(),
    })
    &&& inline.source_file_name == frame.file_path
    &&& inline.source_line == frame.line_number
}

/// What a symbol lookup says of a frame.
///
/// The symbol is the function of the frame, at its address in the module.
/// The frames of the lookup run from the innermost inlined function to the
/// function itself: the last gives the source line of the frame, and the
/// others become its inline frames, the last of them first.
#[verifier::loop_isolation(false)]
pub fn symbols_from_lookup(
    module: &Module,
    symbol_name: String,
    symbol_address: u32,
    frames: Vec<LookupFrame>,
) -> (r: FrameSymbols)
    ensures
        r.function matches Some(f) && f.name == symbol_name && f.base
            == module.base_address.wrapping_add(symbol_address as u64) && f.parameter_size == 0,
        frames@.len() == 0 ==> r.source is None && r.inlines@.len() == 0,
        frames@.len() > 0 ==> {
            let outer = frames@.last();
            &&& match outer.file_path {
                Some(path) => r.source matches Some(s) && s.file == path && s.line == (
                match outer.line_number {
                    Some(line) => line,
                    None => 0,
                }) && s.base == module.base_address.wrapping_add(symbol_address as u64),
                None => r.source is None,
            }
            &&& r.inlines@.len() == frames@.len() - 1
            &&& forall|k: int|
                0 <= k < r.inlines@.len() ==> inline_matches(
                    #[trigger] r.inlines@[k],
                    frames@[frames@.len() - 2 - k],
                )
        },
{
    let base = module.base_address.wrapping_add(symbol_address as u64);
    let function = Some(FunctionSymbol { name: symbol_name, base, parameter_size: 0 });
    let ghost all = frames@;
    let mut frames = frames;
    let outer = match frames.pop() {
        Some(frame) => frame,
        None => { return FrameSymbols { function, source: None, inlines: Vec::new() }; },
    };
    let source = match outer.file_path {
        Some(path) => Some(
            SourceLocation {
                file: path,
                line: match outer.line_number {
                    Some(line) => line,
                    None => 0,
                },
                base,
            },
        ),
        None => None,
    };
    let mut inlines: Vec<InlineFrame> = Vec::new();
    while frames.len() > 0
        invariant
            all.len() >= 1,
            frames@.len() + inlines@.len() == all.len() - 1,
            frames@ == all.subrange(0, frames@.len() as int),
            forall|k: int|
                0 <= k < inlines@.len() ==> inline_matches(
                    #[trigger] inlines@[k],
                    all[all.len() - 2 - k],
                ),
        decreases frames@.len(),
    {
        let ghost before = inlines@;
        let ghost left = frames@;
        let frame = match frames.pop() {
            Some(frame) => frame,
            None => { return FrameSymbols { function, source, inlines }; },
        };
        assert(frame == all[left.len() - 1]);
        let inline = InlineFrame {
            function_name: match frame.function {
                Some(name) => name,
                None => String::new(),
            },
            source_file_name: frame.file_path,
            source_line: frame.line_number,
        };
        inlines.push(inline);
        assert(frames@ =~= all.subrange(0, frames@.len() as int));
        assert forall|k: int| 0 <= k < inlines@.len() implies inline_matches(
            #[trigger] inlines@[k],
            all[all.len() - 2 - k],
        ) by {
            if k < before.len() {
                assert(inlines@[k] == before[k]);
            }
        }
    }
    FrameSymbols { function, source, inlines }
}

} // verus!
