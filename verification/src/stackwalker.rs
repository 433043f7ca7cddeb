//! The stack walker: from the registers of a thread and the memory of its
//! stack to the frames of its call stack.
//!
//! The first frame is that of the context.  Each further frame is the caller
//! of the one before it, recovered by the first of three ways that succeeds:
//! the unwind rules of the symbol provider, the chain of frame pointers, and
//! a scan of the stack for a return address.  Each frame records which way
//! it came.

use crate::context::{
    fit_register, fp_index, ip_index, register_count, register_names, sp_index, MinidumpContext,
};
use crate::memory::MemoryRegion;
use crate::module::{module_at, Module, ModuleList};
use crate::process_state::{CallStack, CallStackInfo, FrameTrust, StackFrame};
use crate::symbols::{CfiStackWalker, FillSymbolError, FrameSymbols, SymbolProvider};
use crate::system_info::{spec_pointer_size, Cpu, Os, SystemInfo};
use vstd::prelude::*;

verus! {

/// The most frames that a walk recovers unless it is told otherwise.
pub const DEFAULT_MAX_FRAMES: usize = 1024;

/// The number of words above the stack pointer that a scan reads.
pub const SCAN_WORDS: u64 = 40;

/// The number of words above the stack pointer that a scan reads when the
/// callee is the frame of the context.
pub const CONTEXT_SCAN_WORDS: u64 = 160;

/// What bounds a walk.
#[derive(Clone, Copy, Debug, PartialEq, Eq, Structural)]
pub struct StackWalkerOptions {
    /// The most frames that the walk recovers.
    pub max_frames: usize,
}

impl Default for StackWalkerOptions {
    fn default() -> (r: Self)
        ensures
            r.max_frames == DEFAULT_MAX_FRAMES,
    {
        StackWalkerOptions { max_frames: DEFAULT_MAX_FRAMES }
    }
}

/// What the walker knows of a processor: the places of the registers that
/// it steps by, and the size of a pointer.
#[derive(Clone, Copy, Debug, PartialEq, Eq, Structural)]
pub struct UnwindTable {
    /// The place of the instruction pointer.
    pub instruction_pointer: usize,
    /// The place of the stack pointer.
    pub stack_pointer: usize,
    /// The place of the frame pointer.
    pub frame_pointer: usize,
    /// The size of a pointer in bytes.
    pub pointer_size: u64,
}

/// The table of `cpu` under `os`, for the processors whose stacks are
/// walked.
pub open spec fn spec_unwind_table(cpu: Cpu, os: Os) -> Option<UnwindTable> {
    match (ip_index(cpu), sp_index(cpu), fp_index(cpu, os), spec_pointer_size(cpu)) {
        (Some(ip), Some(sp), Some(fp), Some(size)) => Some(
            UnwindTable {
                instruction_pointer: ip as usize,
                stack_pointer: sp as usize,
                frame_pointer: fp as usize,
                pointer_size: size,
            },
        ),
        _ => None,
    }
}

/// Whether a function of `cpu` must hand the register at place `i` back to
/// its caller as it found it.
pub open spec fn spec_callee_saved(cpu: Cpu, i: int) -> bool {
    match cpu {
        Cpu::X86 => 2 <= i <= 5,
        Cpu::X86_64 => i == 3 || i == 6 || 12 <= i <= 15,
        Cpu::Arm => 4 <= i <= 11,
        Cpu::Arm64 => 19 <= i <= 29,
        _ => false,
    }
}

/// The greatest value of a pointer of `size` bytes.
pub open spec fn pointer_max(size: u64) -> u64 {
    if size == 4 {
        0xffff_ffff
    } else {
        u64::MAX
    }
}

/// The table of `cpu` under `os`, for the processors whose stacks are
/// walked.
pub fn unwind_table(cpu: Cpu, os: Os) -> (r: Option<UnwindTable>)
    ensures
        r == spec_unwind_table(cpu, os),
        r matches Some(t) ==> {
            &&& ip_index(cpu) == Some(t.instruction_pointer as int)
            &&& sp_index(cpu) == Some(t.stack_pointer as int)
            &&& spec_pointer_size(cpu) == Some(t.pointer_size)
            &&& t.instruction_pointer < register_names(cpu).len()
            &&& t.stack_pointer < register_names(cpu).len()
            &&& t.frame_pointer < register_names(cpu).len()
            &&& t.instruction_pointer != t.stack_pointer
            &&& t.instruction_pointer != t.frame_pointer
            &&& t.stack_pointer != t.frame_pointer
            &&& (t.pointer_size == 4 || t.pointer_size == 8)
        },
{
    match cpu {
        Cpu::X86 => Some(
            UnwindTable {
                instruction_pointer: 0,
                stack_pointer: 1,
                frame_pointer: 2,
                pointer_size: 4,
            },
        ),
        Cpu::X86_64 => Some(
            UnwindTable {
                instruction_pointer: 16,
                stack_pointer: 7,
                frame_pointer: 6,
                pointer_size: 8,
            },
        ),
        Cpu::Arm => Some(
            UnwindTable {
                instruction_pointer: 15,
                stack_pointer: 13,
                frame_pointer: match os {
                    Os::Ios => 7,
                    _ => 11,
                },
                pointer_size: 4,
            },
        ),
        Cpu::Arm64 => Some(
            UnwindTable {
                instruction_pointer: 32,
                stack_pointer: 31,
                frame_pointer: 29,
                pointer_size: 8,
            },
        ),
        _ => None,
    }
}

/// Whether a function of `cpu` must hand the register at place `i` back to
/// its caller as it found it.
pub fn callee_saved(cpu: Cpu, i: usize) -> (r: bool)
    ensures
        r == spec_callee_saved(cpu, i as int),
{
    match cpu {
        Cpu::X86 => 2 <= i && i <= 5,
        Cpu::X86_64 => i == 3 || i == 6 || (12 <= i && i <= 15),
        Cpu::Arm => 4 <= i && i <= 11,
        Cpu::Arm64 => 19 <= i && i <= 29,
        _ => false,
    }
}

/// Whether `caller` is the context of `cpu` in which the instruction
/// pointer, the stack pointer and, where `fp` is given, the frame pointer
/// hold the given values, and no other register is known.
pub open spec fn caller_registers(
    caller: MinidumpContext,
    cpu: Cpu,
    ip: u64,
    sp: u64,
    fp: Option<u64>,
    os: Os,
) -> bool {
    &&& spec_unwind_table(cpu, os) matches Some(t)
    &&& caller.cpu == cpu
    &&& caller.regs@[t.instruction_pointer as int] == ip
    &&& caller.regs@[t.stack_pointer as int] == sp
    &&& caller.is_valid(t.instruction_pointer as int)
    &&& caller.is_valid(t.stack_pointer as int)
    &&& match fp {
        Some(v) => caller.regs@[t.frame_pointer as int] == v && caller.is_valid(
            t.frame_pointer as int,
        ),
        None => !caller.is_valid(t.frame_pointer as int),
    }
    &&& forall|j: int|
        j != t.instruction_pointer && j != t.stack_pointer && j != t.frame_pointer
            ==> !#[trigger] caller.is_valid(j)
}

/// The step by frame pointer: the instruction pointer, stack pointer and
/// frame pointer of the caller.  The callee's frame pointer points at the
/// caller's saved frame pointer, the return address lies one pointer above
/// it, and the caller's stack pointer is the address above that.  There is
/// no such step without stack memory, without a known frame pointer, or where
/// a read leaves the stack memory.
pub open spec fn frame_pointer_step(
    callee: MinidumpContext,
    stack: Option<MemoryRegion>,
    os: Os,
) -> Option<(u64, u64, u64)> {
    match (spec_unwind_table(callee.cpu, os), stack) {
        (Some(t), Some(stack)) => match callee.spec_register_at(t.frame_pointer as int) {
            Some(fp) => if fp + 2 * t.pointer_size > pointer_max(t.pointer_size) {
                None
            } else {
                match (
                    stack.spec_read_pointer(fp, t.pointer_size),
                    stack.spec_read_pointer((fp + t.pointer_size) as u64, t.pointer_size),
                ) {
                    (Some(caller_fp), Some(caller_ip)) => Some(
                        (caller_ip, (fp + 2 * t.pointer_size) as u64, caller_fp),
                    ),
                    _ => None,
                }
            },
            None => None,
        },
        _ => None,
    }
}

/// Whether a scan from the stack pointer of `callee` finds the return
/// address `ip` in the word at place `k`: the caller's stack pointer `sp` is
/// then the address above that word.
pub open spec fn scan_hit(
    callee: MinidumpContext,
    stack: MemoryRegion,
    k: int,
    ip: u64,
    sp: u64,
    os: Os,
) -> bool {
    &&& spec_unwind_table(callee.cpu, os) matches Some(t)
    &&& callee.spec_register_at(t.stack_pointer as int) matches Some(callee_sp)
    &&& 0 <= k
    &&& callee_sp + (k + 1) * t.pointer_size <= pointer_max(t.pointer_size)
    &&& stack.spec_read_pointer((callee_sp + k * t.pointer_size) as u64, t.pointer_size) == Some(ip)
    &&& sp == callee_sp + (k + 1) * t.pointer_size
}

/// The number of words that a scan from a callee of the given trust reads.
pub open spec fn scan_limit(trust: FrameTrust) -> int {
    if trust == FrameTrust::Context {
        CONTEXT_SCAN_WORDS as int
    } else {
        SCAN_WORDS as int
    }
}

/// Whether nothing is known of the symbols of `frame`.
pub open spec fn without_symbols(frame: StackFrame) -> bool {
    &&& frame.function_name is None
    &&& frame.function_base is None
    &&& frame.parameter_size is None
    &&& frame.source_file_name is None
    &&& frame.source_line is None
    &&& frame.source_line_base is None
    &&& frame.inlines@.len() == 0
}

/// Whether the walk owes a caller to `callee` whatever the provider
/// answers: the instruction of the callee lies in no module, so that there
/// are no unwind rules to ask for, and the step by frame pointer gives a
/// caller that the walker takes.
pub open spec fn step_owed(
    callee: StackFrame,
    stack: Option<MemoryRegion>,
    modules: Seq<Module>,
    os: Os,
) -> bool {
    &&& module_at(modules, callee.instruction) is None
    &&& frame_pointer_step(callee.context, stack, os) matches Some(step)
    &&& step.0 != 0
    &&& step.1 > callee.context.spec_stack_pointer()
    &&& (callee.trust == FrameTrust::Context || module_at(modules, (step.0 - 1) as u64) is Some)
}

/// Whether `caller` is a frame that the walker takes for the caller of
/// `callee`.
///
/// The caller runs on the same processor, was recovered by one of the three
/// ways, and has an instruction pointer that is not 0, a recorded
/// instruction one before it, and a stack pointer strictly above that of
/// the callee.  Its module is the one that holds its instruction, and there
/// is one unless the callee is the frame of the context; without a module
/// it has no symbols.  A frame comes by call frame information only where
/// the instruction of the callee lies in a module, and knows at least its
/// instruction pointer and its stack pointer.  A frame that came by
/// frame pointer holds exactly the registers of that step.  One that came by
/// scan came so because there is no step by frame pointer, and holds a return
/// address that stands in the stack, within the limit of the scan, and
/// points into a module.
pub open spec fn valid_step(
    callee: StackFrame,
    caller: StackFrame,
    stack: Option<MemoryRegion>,
    modules: Seq<Module>,
    os: Os,
) -> bool {
    let ip = caller.context.spec_instruction_pointer();
    let sp = caller.context.spec_stack_pointer();
    &&& caller.context.cpu == callee.context.cpu
    &&& (caller.trust == FrameTrust::CallFrameInfo || caller.trust == FrameTrust::FramePointer
        || caller.trust == FrameTrust::Scan)
    &&& ip != 0
    &&& caller.instruction == ip - 1
    &&& sp > callee.context.spec_stack_pointer()
    &&& caller.module == module_at(modules, caller.instruction)
    &&& caller.module is None ==> without_symbols(caller)
    &&& callee.trust != FrameTrust::Context ==> caller.module is Some
    &&& caller.trust == FrameTrust::CallFrameInfo ==> {
        &&& module_at(modules, callee.instruction) is Some
        &&& spec_unwind_table(callee.context.cpu, os) matches Some(t)
        &&& caller.context.is_valid(t.instruction_pointer as int)
        &&& caller.context.is_valid(t.stack_pointer as int)
    }
    &&& caller.trust == FrameTrust::Scan ==> frame_pointer_step(callee.context, stack, os) is None
    &&& caller.trust == FrameTrust::FramePointer ==> (frame_pointer_step(callee.context, stack, os)
        matches Some(step) && caller_registers(
        caller.context,
        callee.context.cpu,
        step.0,
        step.1,
        Some(step.2),
        os,
    ))
    &&& caller.trust == FrameTrust::Scan ==> {
        &&& stack is Some
        &&& caller_registers(caller.context, callee.context.cpu, ip, sp, None, os)
        &&& module_at(modules, ip) is Some
        &&& exists|k: int|
            k < scan_limit(callee.trust) && #[trigger] scan_hit(
                callee.context,
                stack->0,
                k,
                ip,
                sp,
                os,
            )
    }
}

/// Whether `frames` is a walk from `context`: the first frame is that of the
/// context, and each further frame is a caller of the one before it.
pub open spec fn walked_from(
    frames: Seq<StackFrame>,
    context: MinidumpContext,
    stack: Option<MemoryRegion>,
    modules: Seq<Module>,
    os: Os,
) -> bool {
    &&& frames.len() >= 1
    &&& frames[0].trust == FrameTrust::Context
    &&& frames[0].context == context
    &&& frames[0].instruction == context.spec_instruction_pointer()
    &&& frames[0].module == module_at(modules, frames[0].instruction)
    &&& frames[0].module is None ==> without_symbols(frames[0])
    &&& forall|i: int| 0 < i < frames.len() ==> #[trigger] step_at(frames, i, stack, modules, os)
}

/// Whether the frame at place `i` is a caller of the frame before it.
pub open spec fn step_at(
    frames: Seq<StackFrame>,
    i: int,
    stack: Option<MemoryRegion>,
    modules: Seq<Module>,
    os: Os,
) -> bool {
    valid_step(frames[i - 1], frames[i], stack, modules, os)
}

/// The context of `cpu` that knows the instruction pointer, the stack
/// pointer and, where it is given, the frame pointer, and nothing else.
fn caller_context(cpu: Cpu, table: UnwindTable, ip: u64, sp: u64, fp: Option<u64>, os: Os) -> (r:
    MinidumpContext)
    requires
        spec_unwind_table(cpu, os) == Some(table),
        ip <= pointer_max(table.pointer_size),
        sp <= pointer_max(table.pointer_size),
        fp matches Some(v) ==> v <= pointer_max(table.pointer_size),
    ensures
        caller_registers(r, cpu, ip, sp, fp, os),
        r.spec_instruction_pointer() == ip,
        r.spec_stack_pointer() == sp,
{
    let mut caller = MinidumpContext::empty(cpu);
    caller.set_register_at(table.instruction_pointer, ip);
    caller.set_register_at(table.stack_pointer, sp);
    if let Some(v) = fp {
        caller.set_register_at(table.frame_pointer, v);
    }
    caller
}

/// Steps to the caller by the chain of frame pointers.
pub fn get_caller_by_frame_pointer(
    callee: &MinidumpContext,
    stack: Option<&MemoryRegion>,
    os: Os,
) -> (r: Option<MinidumpContext>)
    ensures
        match frame_pointer_step(
            *callee,
            match stack {
                Some(s) => Some(*s),
                None => None,
            },
            os,
        ) {
            Some(step) => r matches Some(c) && caller_registers(
                c,
                callee.cpu,
                step.0,
                step.1,
                Some(step.2),
                os,
            ) && c.spec_instruction_pointer() == step.0 && c.spec_stack_pointer() == step.1,
            None => r is None,
        },
{
    let table = match unwind_table(callee.cpu, os) {
        Some(t) => t,
        None => { return None; },
    };
    let stack = match stack {
        Some(s) => s,
        None => { return None; },
    };
    let fp = match callee.get_register_at(table.frame_pointer) {
        Some(fp) => fp,
        None => { return None; },
    };
    let size = table.pointer_size;
    let limit: u64 = if size == 4 {
        0xffff_ffff
    } else {
        u64::MAX
    };
    if fp > limit - 2 * size {
        return None;
    }
    let caller_fp = match stack.read_pointer(fp, size) {
        Some(v) => v,
        None => { return None; },
    };
    let caller_ip = match stack.read_pointer(fp + size, size) {
        Some(v) => v,
        None => { return None; },
    };
    let caller_sp = fp + 2 * size;
    Some(caller_context(callee.cpu, table, caller_ip, caller_sp, Some(caller_fp), os))
}

/// Whether `caller` is the context that a step by unwind rules starts
/// from: of the registers of `callee`, it knows those that a function must
/// hand back to its caller as it found them and that the callee knows, with
/// the values that the callee has for them, and no others.
pub open spec fn seeded_caller(callee: MinidumpContext, caller: MinidumpContext) -> bool {
    &&& caller.cpu == callee.cpu
    &&& forall|i: int|
        0 <= i < 33 ==> #[trigger] caller.is_valid(i) == (spec_callee_saved(callee.cpu, i)
            && callee.is_valid(i))
    &&& forall|i: int|
        0 <= i < 33 ==> #[trigger] caller.regs@[i] == (if spec_callee_saved(callee.cpu, i)
            && callee.is_valid(i) {
            fit_register(callee.cpu, callee.regs@[i])
        } else {
            0
        })
}

/// What a provider is handed to step from `callee` to its caller by unwind
/// rules: the instruction and the registers of the callee, the stack,
/// whether the callee has a callee itself and how many bytes of parameters
/// that one takes, and a caller that starts from the callee-saved registers.
pub fn cfi_walker_for<'a>(
    callee: &StackFrame,
    grand_callee: Option<&StackFrame>,
    stack: Option<&'a MemoryRegion>,
) -> (r: CfiStackWalker<'a>)
    ensures
        r.instruction == callee.instruction,
        r.has_grand_callee == (grand_callee is Some),
        r.grand_callee_parameter_size == (match grand_callee {
            Some(frame) => match frame.parameter_size {
                Some(size) => size,
                None => 0,
            },
            None => 0,
        }),
        r.callee_ctx == callee.context,
        r.stack_memory == stack,
        seeded_caller(callee.context, r.caller_ctx),
{
    let cpu = callee.context.cpu;
    let mut caller_ctx = MinidumpContext::empty(cpu);
    let count = register_count(cpu);
    let mut i: usize = 0;
    while i < count
        invariant
            count == register_names(cpu).len(),
            count <= 33,
            cpu == callee.context.cpu,
            caller_ctx.cpu == cpu,
            i <= count,
            forall|j: int|
                0 <= j < 33 ==> #[trigger] caller_ctx.is_valid(j) == (j < i && spec_callee_saved(
                    cpu,
                    j,
                ) && callee.context.is_valid(j)),
            forall|j: int|
                0 <= j < 33 ==> #[trigger] caller_ctx.regs@[j] == (if j < i && spec_callee_saved(
                    cpu,
                    j,
                ) && callee.context.is_valid(j) {
                    fit_register(cpu, callee.context.regs@[j])
                } else {
                    0
                }),
        decreases count - i,
    {
        if callee_saved(cpu, i) {
            if let Some(value) = callee.context.get_register_at(i) {
                caller_ctx.set_register_at(i, value);
            }
        }
        i += 1;
    }
    let grand_callee_parameter_size = match grand_callee {
        Some(frame) => match frame.parameter_size {
            Some(size) => size,
            None => 0,
        },
        None => 0,
    };
    CfiStackWalker {
        instruction: callee.instruction,
        has_grand_callee: grand_callee.is_some(),
        grand_callee_parameter_size,
        callee_ctx: callee.context,
        stack_memory: stack,
        caller_ctx,
    }
}

/// The caller that a step by unwind rules gives, for what the provider
/// answered and what it left in the walker: the registers of the caller as
/// the walker holds them, where the provider found rules, the caller is of
/// the processor of the callee, and both its instruction pointer and its
/// stack pointer were written.  There is none otherwise.
pub open spec fn caller_by_rules(
    answer: Option<()>,
    walker: CfiStackWalker<'_>,
    cpu: Cpu,
    os: Os,
) -> Option<MinidumpContext> {
    match spec_unwind_table(cpu, os) {
        Some(t) => if answer is Some && walker.caller_ctx.cpu == cpu && walker.caller_ctx.is_valid(
            t.instruction_pointer as int,
        ) && walker.caller_ctx.is_valid(t.stack_pointer as int) {
            Some(walker.caller_ctx)
        } else {
            None
        },
        None => None,
    }
}

/// The caller that a step by unwind rules gives, for what the provider
/// answered and what it left in the walker.
pub fn caller_from_rules(answer: Option<()>, walker: &CfiStackWalker<'_>, cpu: Cpu, os: Os) -> (r:
    Option<MinidumpContext>)
    ensures
        r == caller_by_rules(answer, *walker, cpu, os),
{
    let table = match unwind_table(cpu, os) {
        Some(t) => t,
        None => { return None; },
    };
    if answer.is_none() {
        return None;
    }
    let caller = walker.caller_ctx;
    if caller.cpu != cpu {
        return None;
    }
    if !caller.is_register_valid_at(table.instruction_pointer) || !caller.is_register_valid_at(
        table.stack_pointer,
    ) {
        return None;
    }
    Some(caller)
}

/// Steps to the caller by the unwind rules of the provider.
///
/// There is no such step for a processor whose stacks are not walked, nor
/// where the instruction of the callee lies in no module: the provider is
/// then not asked.  Else the provider is handed the module of that
/// instruction and the walker of `cfi_walker_for`, and the step is what
/// `caller_from_rules` makes of its answer: a caller of the processor of the
/// callee that knows its instruction pointer and its stack pointer, or none.
fn get_caller_by_cfi<P: SymbolProvider>(
    callee: &StackFrame,
    grand_callee: Option<&StackFrame>,
    stack: Option<&MemoryRegion>,
    modules: &ModuleList,
    symbols: &P,
    os: Os,
) -> (r: Option<MinidumpContext>)
    ensures
        spec_unwind_table(callee.context.cpu, os) is None ==> r is None,
        module_at(modules@, callee.instruction) is None ==> r is None,
        r matches Some(c) ==> exists|walker: CfiStackWalker<'_>| #[trigger]
            caller_by_rules(Some(()), walker, callee.context.cpu, os) == Some(c),
        r matches Some(c) ==> {
            &&& c.cpu == callee.context.cpu
            &&& spec_unwind_table(c.cpu, os) matches Some(t)
            &&& c.is_valid(t.instruction_pointer as int)
            &&& c.is_valid(t.stack_pointer as int)
        },
{
    let cpu = callee.context.cpu;
    if unwind_table(cpu, os).is_none() {
        return None;
    }
    let module = match modules.module_at_address(callee.instruction) {
        Some(m) => m,
        None => { return None; },
    };
    let mut walker = cfi_walker_for(callee, grand_callee, stack);
    let answer = symbols.walk_frame(module, &mut walker);
    let caller = caller_from_rules(answer, &walker, cpu, os);
    proof {
        if caller is Some {
            assert(caller_by_rules(Some(()), walker, cpu, os) == caller);
        }
    }
    caller
}

/// Whether `address` can be taken for a return address before any symbols
/// are asked: it is not 0 and lies in a module, and so does the address
/// before it, at which the call would end.
pub open spec fn return_address_candidate(modules: Seq<Module>, address: u64) -> bool {
    &&& address != 0
    &&& module_at(modules, address) is Some
    &&& module_at(modules, (address - 1) as u64) is Some
}

/// The module of the call that would return to `address`, where `address`
/// can be taken for a return address before any symbols are asked.
pub fn call_site_module(address: u64, modules: &ModuleList) -> (r: Option<&Module>)
    ensures
        r is Some <==> return_address_candidate(modules@, address),
        r matches Some(m) ==> Some(*m) == module_at(modules@, (address - 1) as u64),
{
    if address == 0 {
        return None;
    }
    if modules.module_at_address(address).is_none() {
        return None;
    }
    modules.module_at_address(address - 1)
}

/// Whether the symbols speak for a call at the address that they were asked
/// about: they name a function for it.  Where the provider has no symbols
/// for the module there is no telling, and the address is taken.
pub open spec fn symbols_allow_call(answer: Result<FrameSymbols, FillSymbolError>) -> bool {
    match answer {
        Ok(found) => found.function is Some,
        Err(_) => true,
    }
}

/// Whether the symbols speak for a call at the address that they were asked
/// about.
pub fn call_site_plausible(answer: &Result<FrameSymbols, FillSymbolError>) -> (r: bool)
    ensures
        r == symbols_allow_call(*answer),
{
    match answer {
        Ok(found) => found.function.is_some(),
        // Without symbols there is no telling: take it.
        Err(_) => true,
    }
}

/// Whether `address` may be a return address.
///
/// It may not where it is 0 or lies in no module, or where the address
/// before it, at which the call would end, lies in no module: the provider
/// is then not asked.  Else the provider is asked for the symbols of the
/// address before it in its module, and the answer is what
/// `call_site_plausible` makes of them.
fn instruction_seems_valid<P: SymbolProvider>(
    address: u64,
    modules: &ModuleList,
    symbols: &P,
) -> (r: bool)
    ensures
        r ==> return_address_candidate(modules@, address),
{
    match call_site_module(address, modules) {
        Some(module) => {
            let answer = symbols.fill_symbol(module, address - 1);
            call_site_plausible(&answer)
        },
        None => false,
    }
}

/// The word at place `k` above the stack pointer of `callee`, where the
/// callee knows its stack pointer and the stack memory holds the word.
pub open spec fn scan_word(callee: MinidumpContext, stack: MemoryRegion, k: int, os: Os) -> Option<
    u64,
> {
    match spec_unwind_table(callee.cpu, os) {
        Some(t) => match callee.spec_register_at(t.stack_pointer as int) {
            Some(callee_sp) => if 0 <= k && callee_sp + (k + 1) * t.pointer_size <= pointer_max(
                t.pointer_size,
            ) {
                stack.spec_read_pointer((callee_sp + k * t.pointer_size) as u64, t.pointer_size)
            } else {
                None
            },
            None => None,
        },
        None => None,
    }
}

/// Whether a scan from the stack pointer of `callee` gets as far as the word
/// at place `k` and can take it for a return address: the stack memory holds
/// every word up to that one, and that one is a candidate.
pub open spec fn scan_candidate(
    callee: MinidumpContext,
    stack: MemoryRegion,
    modules: Seq<Module>,
    k: int,
    os: Os,
) -> bool {
    &&& forall|j: int| 0 <= j <= k ==> (#[trigger] scan_word(callee, stack, j, os)) is Some
    &&& scan_word(callee, stack, k, os) matches Some(word)
    &&& return_address_candidate(modules, word)
}

/// Steps to the caller by scanning the stack, upward from the stack
/// pointer, for a word that may be a return address.
///
/// The scan reads the words above the stack pointer of the callee in order,
/// up to the limit for the trust of the callee, and ends where the stack
/// memory does.  Of the words that are candidates, it takes the first that
/// `instruction_seems_valid` lets pass: that word is the instruction pointer
/// of the caller, and the address above it the stack pointer.  There is no
/// such step without stack memory or a known stack pointer, nor where the
/// scan meets no candidate: the provider is then not asked.
fn get_caller_by_scan<P: SymbolProvider>(
    callee: &StackFrame,
    stack: Option<&MemoryRegion>,
    modules: &ModuleList,
    symbols: &P,
    os: Os,
) -> (r: Option<MinidumpContext>)
    ensures
        r matches Some(c) ==> {
            let ip = c.spec_instruction_pointer();
            let sp = c.spec_stack_pointer();
            &&& stack is Some
            &&& caller_registers(c, callee.context.cpu, ip, sp, None, os)
            &&& module_at(modules@, ip) is Some
            &&& ip != 0
            &&& exists|k: int|
                k < scan_limit(callee.trust) && #[trigger] scan_hit(
                    callee.context,
                    *stack->0,
                    k,
                    ip,
                    sp,
                    os,
                ) && scan_candidate(callee.context, *stack->0, modules@, k, os)
        },
        stack matches Some(memory) ==> (forall|k: int|
            0 <= k < scan_limit(callee.trust) ==> !#[trigger] scan_candidate(
                callee.context,
                *memory,
                modules@,
                k,
                os,
            )) ==> r is None,
{
    let cpu = callee.context.cpu;
    let table = match unwind_table(cpu, os) {
        Some(t) => t,
        None => { return None; },
    };
    let memory = match stack {
        Some(s) => s,
        None => { return None; },
    };
    let callee_sp = match callee.context.get_register_at(table.stack_pointer) {
        Some(sp) => sp,
        None => { return None; },
    };
    let size = table.pointer_size;
    let top: u64 = if size == 4 {
        0xffff_ffff
    } else {
        u64::MAX
    };
    let limit: u64 = if callee.trust == FrameTrust::Context {
        CONTEXT_SCAN_WORDS
    } else {
        SCAN_WORDS
    };
    let mut k: u64 = 0;
    while k < limit
        invariant
            k <= limit <= CONTEXT_SCAN_WORDS,
            stack == Some(memory),
            limit == scan_limit(callee.trust),
            size == 4 || size == 8,
            top == pointer_max(size),
            spec_unwind_table(cpu, os) == Some(table),
            cpu == callee.context.cpu,
            size == table.pointer_size,
            callee.context.spec_register_at(table.stack_pointer as int) == Some(callee_sp),
            forall|j: int|
                0 <= j < k ==> (#[trigger] scan_word(callee.context, *memory, j, os)) is Some,
        decreases limit - k,
    {
        let offset = (k + 1) * size;
        if callee_sp > top - offset {
            return None;
        }
        let at = callee_sp + k * size;
        let value = match memory.read_pointer(at, size) {
            Some(v) => v,
            // The stack memory ends here.
            None => { return None; },
        };
        assert(scan_word(callee.context, *memory, k as int, os) == Some(value));
        if instruction_seems_valid(value, modules, symbols) {
            let caller_sp = at + size;
            let caller = caller_context(cpu, table, value, caller_sp, None, os);
            assert((k + 1) * size == k * size + size) by (nonlinear_arith);
            assert(scan_hit(callee.context, *stack->0, k as int, value, caller_sp, os));
            assert(scan_candidate(callee.context, *stack->0, modules@, k as int, os));
            return Some(caller);
        }
        k += 1;
    }
    None
}

/// Fills in what the symbols know of the frame: its module, and from the
/// provider its function, source line and inlined functions.
fn fill_source_line_info<P: SymbolProvider>(
    frame: &mut StackFrame,
    modules: &ModuleList,
    symbols: &P,
)
    requires
        without_symbols(*old(frame)),
    ensures
        final(frame).instruction == old(frame).instruction,
        final(frame).context == old(frame).context,
        final(frame).trust == old(frame).trust,
        final(frame).module == module_at(modules@, old(frame).instruction),
        final(frame).module is None ==> without_symbols(*final(frame)),
{
    let module = match modules.module_at_address(frame.instruction) {
        Some(module) => module,
        None => {
            frame.module = None;
            return ;
        },
    };
    frame.module = Some(module.clone());
    if let Ok(found) = symbols.fill_symbol(module, frame.instruction) {
        if let Some(function) = found.function {
            frame.function_name = Some(function.name);
            frame.function_base = Some(function.base);
            frame.parameter_size = Some(function.parameter_size);
        }
        if let Some(source) = found.source {
            frame.source_file_name = Some(source.file);
            frame.source_line = Some(source.line);
            frame.source_line_base = Some(source.base);
        }
        frame.inlines = found.inlines;
    }
}

/// The caller of `callee`, by the first way that gives one, or `None` where
/// the walk ends: no way gives a caller, or the caller that the first way
/// gives has an instruction pointer of 0, a stack pointer that is not above
/// the callee's, or, unless the callee is the frame of the context, an
/// instruction outside every module.
fn get_caller_frame<P: SymbolProvider>(
    callee: &StackFrame,
    grand_callee: Option<&StackFrame>,
    stack: Option<&MemoryRegion>,
    modules: &ModuleList,
    symbols: &P,
    os: Os,
) -> (r: Option<StackFrame>)
    ensures
        r matches Some(caller) ==> valid_step(
            *callee,
            caller,
            match stack {
                Some(s) => Some(*s),
                None => None,
            },
            modules@,
            os,
        ),
        r is None ==> !step_owed(
            *callee,
            match stack {
                Some(s) => Some(*s),
                None => None,
            },
            modules@,
            os,
        ),
{
    let by_rules = get_caller_by_cfi(callee, grand_callee, stack, modules, symbols, os);
    let (context, trust) = match by_rules {
        Some(c) => (c, FrameTrust::CallFrameInfo),
        None => match get_caller_by_frame_pointer(&callee.context, stack, os) {
            Some(c) => (c, FrameTrust::FramePointer),
            None => match get_caller_by_scan(callee, stack, modules, symbols, os) {
                Some(c) => (c, FrameTrust::Scan),
                None => { return None; },
            },
        },
    };
    let ip = context.get_instruction_pointer();
    if ip == 0 {
        return None;
    }
    // A stack grows down: a caller whose stack pointer is not above the
    // callee's is a corrupt chain, or a loop.
    if context.get_stack_pointer() <= callee.context.get_stack_pointer() {
        return None;
    }
    let mut frame = StackFrame::from_context(context, trust);
    // A return address points past the call: the call is before it.
    frame.instruction = ip - 1;
    fill_source_line_info(&mut frame, modules, symbols);
    if frame.module.is_none() && callee.trust != FrameTrust::Context {
        return None;
    }
    Some(frame)
}

/// Whether the walker walks the stacks of `cpu`.
pub fn is_supported_cpu(cpu: Cpu, os: Os) -> (r: bool)
    ensures
        r == (spec_unwind_table(cpu, os) is Some),
{
    unwind_table(cpu, os).is_some()
}

/// What a walk yields as frames and outcome, for the given inputs.
///
/// Without a context the outcome is `MissingContext`, and for a processor
/// whose stacks are not walked it is `UnsupportedCpu`, both with no frames.
/// Else the outcome is `Okay`, and the frames, of which there are at most
/// `max_frames`, are a walk from the context.  A walk that ends before the
/// limit ends at a frame that is owed no caller.
pub open spec fn walk_outcome(
    frames: Seq<StackFrame>,
    info: CallStackInfo,
    context: Option<MinidumpContext>,
    stack_memory: Option<MemoryRegion>,
    modules: Seq<Module>,
    max_frames: usize,
    os: Os,
) -> bool {
    &&& frames.len() <= max_frames
    &&& match context {
        None => info == CallStackInfo::MissingContext && frames.len() == 0,
        Some(c) => if spec_unwind_table(c.cpu, os) is None {
            info == CallStackInfo::UnsupportedCpu && frames.len() == 0
        } else {
            &&& info == CallStackInfo::Okay
            &&& max_frames == 0 ==> frames.len() == 0
            &&& max_frames > 0 ==> walked_from(frames, c, stack_memory, modules, os)
            &&& 0 < frames.len() < max_frames ==> !step_owed(
                frames.last(),
                stack_memory,
                modules,
                os,
            )
        },
    }
}

/// What `walk_stack_with_options` returns for the given inputs: the frames
/// and outcome of the walk, and nothing yet of the thread.
pub open spec fn walk_result(
    stack: CallStack,
    context: Option<MinidumpContext>,
    stack_memory: Option<MemoryRegion>,
    modules: Seq<Module>,
    max_frames: usize,
    os: Os,
) -> bool {
    &&& walk_outcome(stack.frames@, stack.info, context, stack_memory, modules, max_frames, os)
    &&& stack.thread_id == 0
    &&& stack.thread_name is None
    &&& stack.last_error_value is None
}

/// Walks the stack of a thread, recovering at most `options.max_frames`
/// frames.
///
/// Without a context the result is `MissingContext`, and for a processor
/// whose stacks are not walked it is `UnsupportedCpu`, both with no frames.
/// Else the result is `Okay`, and the frames are a walk from the context:
/// the frame of the context comes first, also where there is no stack
/// memory, and each further frame is a caller of the one before it.
pub fn walk_stack_with_options<P: SymbolProvider>(
    context: Option<&MinidumpContext>,
    stack_memory: Option<&MemoryRegion>,
    modules: &ModuleList,
    system_info: &SystemInfo,
    symbols: &P,
    options: StackWalkerOptions,
) -> (r: CallStack)
    ensures
        walk_result(
            r,
            match context {
                Some(c) => Some(*c),
                None => None,
            },
            match stack_memory {
                Some(s) => Some(*s),
                None => None,
            },
            modules@,
            options.max_frames,
            system_info.os,
        ),
{
    let start = match context {
        Some(c) => c,
        None => { return CallStack::with_info(CallStackInfo::MissingContext); },
    };
    let os = system_info.os;
    if !is_supported_cpu(start.cpu, os) {
        return CallStack::with_info(CallStackInfo::UnsupportedCpu);
    }
    let mut stack = CallStack::with_info(CallStackInfo::Okay);
    if options.max_frames == 0 {
        return stack;
    }
    let ghost memory: Option<MemoryRegion> = match stack_memory {
        Some(s) => Some(*s),
        None => None,
    };
    let mut first = StackFrame::from_context(*start, FrameTrust::Context);
    fill_source_line_info(&mut first, modules, symbols);
    stack.frames.push(first);
    while stack.frames.len() < options.max_frames
        invariant
            context == Some(start),
            os == system_info.os,
            spec_unwind_table(start.cpu, os) is Some,
            options.max_frames > 0,
            walked_from(stack.frames@, *start, memory, modules@, os),
            stack.frames@.len() <= options.max_frames,
            stack.info == CallStackInfo::Okay,
            stack.thread_id == 0,
            stack.thread_name is None,
            stack.last_error_value is None,
            memory == (match stack_memory {
                Some(s) => Some(*s),
                None => None,
            }),
        decreases options.max_frames - stack.frames@.len(),
    {
        let n = stack.frames.len();
        let callee = &stack.frames[n - 1];
        let grand_callee = if n >= 2 {
            Some(&stack.frames[n - 2])
        } else {
            None
        };
        let next = get_caller_frame(callee, grand_callee, stack_memory, modules, symbols, os);
        let caller = match next {
            Some(frame) => frame,
            None => { return stack; },
        };
        let ghost before = stack.frames@;
        stack.frames.push(caller);
        proof {
            let after = stack.frames@;
            assert forall|i: int| 0 < i < after.len() implies #[trigger] step_at(
                after,
                i,
                memory,
                modules@,
                os,
            ) by {
                if i < before.len() {
                    assert(step_at(before, i, memory, modules@, os));
                    assert(after[i] == before[i]);
                    assert(after[i - 1] == before[i - 1]);
                } else {
                    assert(after[i - 1] == before[n - 1]);
                }
            }
            assert(after[0] == before[0]);
        }
    }
    stack
}

/// Walks the stack of a thread, recovering at most `DEFAULT_MAX_FRAMES`
/// frames.
pub fn walk_stack<P: SymbolProvider>(
    context: Option<&MinidumpContext>,
    stack_memory: Option<&MemoryRegion>,
    modules: &ModuleList,
    system_info: &SystemInfo,
    symbols: &P,
) -> (r: CallStack)
    ensures
        walk_result(
            r,
            match context {
                Some(c) => Some(*c),
                None => None,
            },
            match stack_memory {
                Some(s) => Some(*s),
                None => None,
            },
            modules@,
            DEFAULT_MAX_FRAMES,
            system_info.os,
        ),
{
    walk_stack_with_options(
        context,
        stack_memory,
        modules,
        system_info,
        symbols,
        StackWalkerOptions::default(),
    )
}

/// A stack that was walked has the frames of a walk from its context.
pub proof fn lemma_walked_stack(
    frames: Seq<StackFrame>,
    info: CallStackInfo,
    context: Option<MinidumpContext>,
    stack: Option<MemoryRegion>,
    modules: Seq<Module>,
    max_frames: usize,
    os: Os,
)
    requires
        walk_outcome(frames, info, context, stack, modules, max_frames, os),
        info == CallStackInfo::Okay,
        frames.len() > 0,
    ensures
        context is Some,
        walked_from(frames, context->0, stack, modules, os),
{
}

/// In a stack that was walked the first frame is that of the context, and
/// every further frame came by call frame information, by frame pointer or
/// by scan.
pub proof fn lemma_trust_of_frames(
    frames: Seq<StackFrame>,
    info: CallStackInfo,
    context: Option<MinidumpContext>,
    stack: Option<MemoryRegion>,
    modules: Seq<Module>,
    max_frames: usize,
    i: int,
    os: Os,
)
    requires
        walk_outcome(frames, info, context, stack, modules, max_frames, os),
        info == CallStackInfo::Okay,
        0 <= i < frames.len(),
    ensures
        frames[0].trust == FrameTrust::Context,
        i > 0 ==> frames[i].trust == FrameTrust::CallFrameInfo || frames[i].trust
            == FrameTrust::FramePointer || frames[i].trust == FrameTrust::Scan,
{
    if i > 0 {
        assert(step_at(frames, i, stack, modules, os));
    }
}

/// In a stack that was walked the stack pointer of a frame is strictly above
/// that of every frame before it.
pub proof fn lemma_stack_pointers_increase(
    frames: Seq<StackFrame>,
    info: CallStackInfo,
    context: Option<MinidumpContext>,
    stack: Option<MemoryRegion>,
    modules: Seq<Module>,
    max_frames: usize,
    i: int,
    j: int,
    os: Os,
)
    requires
        walk_outcome(frames, info, context, stack, modules, max_frames, os),
        info == CallStackInfo::Okay,
        0 <= i < j < frames.len(),
    ensures
        frames[i].context.spec_stack_pointer() < frames[j].context.spec_stack_pointer(),
    decreases j - i,
{
    assert(step_at(frames, j, stack, modules, os));
    if i < j - 1 {
        lemma_stack_pointers_increase(
            frames,
            info,
            context,
            stack,
            modules,
            max_frames,
            i,
            j - 1,
            os,
        );
    }
}

/// In a stack that was walked the recorded instruction of every frame but
/// the first is the address before its return address.
pub proof fn lemma_instruction_before_return_address(
    frames: Seq<StackFrame>,
    info: CallStackInfo,
    context: Option<MinidumpContext>,
    stack: Option<MemoryRegion>,
    modules: Seq<Module>,
    max_frames: usize,
    i: int,
    os: Os,
)
    requires
        walk_outcome(frames, info, context, stack, modules, max_frames, os),
        info == CallStackInfo::Okay,
        0 < i < frames.len(),
    ensures
        frames[i].instruction == frames[i].context.spec_instruction_pointer() - 1,
{
    assert(step_at(frames, i, stack, modules, os));
}

/// A stack never has more frames than the walk was allowed, whatever its
/// outcome.
pub proof fn lemma_frame_count_bounded(
    frames: Seq<StackFrame>,
    info: CallStackInfo,
    context: Option<MinidumpContext>,
    stack: Option<MemoryRegion>,
    modules: Seq<Module>,
    max_frames: usize,
    os: Os,
)
    requires
        walk_outcome(frames, info, context, stack, modules, max_frames, os),
    ensures
        frames.len() <= max_frames,
{
}

} // verus!
