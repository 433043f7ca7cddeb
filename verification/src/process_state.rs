//! The state of a process as it is reconstructed from a snapshot: the call
//! stack of each thread, and what is known of the crash.

use crate::context::MinidumpContext;
use crate::module::{Module, ModuleList};
use crate::op_analysis::OpAnalysis;
use crate::symbols::SymbolStats;
use crate::system_info::SystemInfo;
use vstd::prelude::*;

verus! {

/// How a frame was recovered, from the least to the most reliable way.
#[derive(Clone, Copy, Debug, PartialEq, Eq, PartialOrd, Ord, Hash, Structural)]
pub enum FrameTrust {
    /// Given by whoever wrote the snapshot.
    Prewalked,
    /// Found by scanning the stack for a return address.
    Scan,
    /// Derived from the frame pointer.
    FramePointer,
    /// Derived from call frame information.
    CallFrameInfo,
    /// Given as the context of the thread.
    Context,
}

impl FrameTrust {
    /// The place of the trust level in the order of reliability.
    pub open spec fn spec_rank(&self) -> int {
        match *self {
            FrameTrust::Prewalked => 0,
            FrameTrust::Scan => 1,
            FrameTrust::FramePointer => 2,
            FrameTrust::CallFrameInfo => 3,
            FrameTrust::Context => 4,
        }
    }

    /// The place of the trust level in the order of reliability: a higher
    /// rank is a more reliable way.
    pub fn rank(&self) -> (r: u8)
        ensures
            r == self.spec_rank(),
    {
        match self {
            FrameTrust::Prewalked => 0,
            FrameTrust::Scan => 1,
            FrameTrust::FramePointer => 2,
            FrameTrust::CallFrameInfo => 3,
            FrameTrust::Context => 4,
        }
    }

    /// What the trust level says of a frame, in words.
    pub fn description(&self) -> (r: &'static str)
        ensures
            r@ == (match *self {
                FrameTrust::Prewalked => "recovered by external stack walker"@,
                FrameTrust::Scan => "stack scanning"@,
                FrameTrust::FramePointer => "previous frame's frame pointer"@,
                FrameTrust::CallFrameInfo => "call frame info"@,
                FrameTrust::Context => "given as instruction pointer in context"@,
            }),
    {
        match self {
            FrameTrust::Prewalked => "recovered by external stack walker",
            FrameTrust::Scan => "stack scanning",
            FrameTrust::FramePointer => "previous frame's frame pointer",
            FrameTrust::CallFrameInfo => "call frame info",
            FrameTrust::Context => "given as instruction pointer in context",
        }
    }
}

/// A function that was inlined into the function of a frame.  It has no
/// registers of its own: it shares the context, and with it the trust, of
/// the frame that holds it.
#[derive(Clone, Debug, PartialEq, Eq)]
pub struct InlineFrame {
    /// The name of the inlined function.
    pub function_name: String,
    /// The source file of the call.
    pub source_file_name: Option<String>,
    /// The line of the call.
    pub source_line: Option<u32>,
}

/// One frame of a call stack.
#[derive(Clone, Debug, PartialEq, Eq)]
pub struct StackFrame {
    /// The address of the instruction that the frame was running: the
    /// instruction pointer for the frame of the context, the address before
    /// the return address for a caller.
    pub instruction: u64,
    /// The module that holds the instruction.
    pub module: Option<Module>,
    /// The name of the function that holds the instruction.
    pub function_name: Option<String>,
    /// The address at which that function starts.
    pub function_base: Option<u64>,
    /// The size in bytes of the parameters that the function takes on the
    /// stack.
    pub parameter_size: Option<u32>,
    /// The source file of the instruction.
    pub source_file_name: Option<String>,
    /// The source line of the instruction.
    pub source_line: Option<u32>,
    /// The address at which that source line starts.
    pub source_line_base: Option<u64>,
    /// The functions that were inlined around the instruction, innermost
    /// first.
    pub inlines: Vec<InlineFrame>,
    /// How the frame was recovered.
    pub trust: FrameTrust,
    /// The registers of the frame, as far as they were recovered.
    pub context: MinidumpContext,
}

impl StackFrame {
    /// The frame of the given registers and trust, at the instruction that
    /// the instruction pointer names, with nothing known of its symbols.
    pub fn from_context(context: MinidumpContext, trust: FrameTrust) -> (r: Self)
        ensures
            r.context == context,
            r.trust == trust,
            r.instruction == context.spec_instruction_pointer(),
            r.module is None,
            r.function_name is None,
            r.function_base is None,
            r.parameter_size is None,
            r.source_file_name is None,
            r.source_line is None,
            r.source_line_base is None,
            r.inlines@.len() == 0,
    {
        StackFrame {
            instruction: context.get_instruction_pointer(),
            module: None,
            function_name: None,
            function_base: None,
            parameter_size: None,
            source_file_name: None,
            source_line: None,
            source_line_base: None,
            inlines: Vec::new(),
            trust,
            context,
        }
    }
}

/// How the walk of a thread's stack ended.
#[derive(Clone, Copy, Debug, PartialEq, Eq, Hash, Structural)]
pub enum CallStackInfo {
    /// The stack was walked.
    Okay,
    /// The thread is the one that wrote the snapshot, and was not walked.
    DumpThreadSkipped,
    /// The thread has no context to start from.
    MissingContext,
    /// The thread has no stack memory.
    MissingMemory,
    /// The context of the thread cannot be used.
    InvalidContext,
    /// The processor is not one whose stacks are walked.
    UnsupportedCpu,
}

/// The call stack of one thread.
#[derive(Clone, Debug, PartialEq, Eq)]
pub struct CallStack {
    /// The frames, from the innermost to the outermost.
    pub frames: Vec<StackFrame>,
    /// How the walk ended.
    pub info: CallStackInfo,
    /// The identifier of the thread.
    pub thread_id: u32,
    /// The name of the thread.
    pub thread_name: Option<String>,
    /// The value of `GetLastError()` for the thread, on Windows.
    pub last_error_value: Option<u32>,
}

impl CallStack {
    /// A stack of no frames with the given outcome.
    pub fn with_info(info: CallStackInfo) -> (r: Self)
        ensures
            r.info == info,
            r.frames@.len() == 0,
            r.thread_id == 0,
            r.thread_name is None,
            r.last_error_value is None,
    {
        CallStack {
            frames: Vec::new(),
            info,
            thread_id: 0,
            thread_name: None,
            last_error_value: None,
        }
    }
}

/// What distinguishes a Linux distribution.
#[derive(Clone, Debug, PartialEq, Eq)]
pub struct LinuxStandardBase {
    /// The identifier of the distribution.
    pub id: String,
    /// Its release.
    pub release: String,
    /// The code name of the release.
    pub codename: String,
    /// A description of the distribution.
    pub description: String,
}

/// Why the process crashed, as the exception record tells it.
#[derive(Clone, Copy, Debug, PartialEq, Eq, Structural)]
pub enum CrashReason {
    /// On Windows, an access to memory that was not allowed.
    WindowsAccessViolation(AccessViolationKind),
    /// On Windows, a page that could not be brought in.
    WindowsInPageError(AccessViolationKind),
    /// On Windows, another exception, by its code.
    WindowsGeneral(u32),
    /// On Linux or Android, a signal, with the code that tells its cause.
    LinuxGeneral(u32, u32),
    /// On macOS or iOS, a Mach exception, with its code.
    MacGeneral(u32, u32),
    /// An exception of a system that is not known, by code and flags.
    Unknown(u32, u32),
}

/// What an access that violated memory protection tried to do.
#[derive(Clone, Copy, Debug, PartialEq, Eq, Structural)]
pub enum AccessViolationKind {
    Read,
    Write,
    Exec,
    /// The record does not tell.
    Unknown,
}

/// The state of a process as reconstructed from a snapshot.
#[derive(Debug)]
pub struct ProcessState {
    /// The identifier of the process.
    pub process_id: Option<u32>,
    /// When the snapshot was written, in seconds since the Unix epoch.
    pub time: u32,
    /// When the process started, in seconds since the Unix epoch.
    pub process_create_time: Option<u32>,
    /// Why the process crashed, if it crashed.
    pub crash_reason: Option<CrashReason>,
    /// The code of the exception.
    pub exception_code: Option<u32>,
    /// The address that the crash is about: for a bad memory access the
    /// address accessed, for other crashes that of the instruction.
    pub crash_address: Option<u64>,
    /// The place in `threads` of the thread that crashed or asked for the
    /// snapshot.
    pub requesting_thread: Option<usize>,
    /// The system that the process ran on.
    pub system_info: SystemInfo,
    /// The Linux distribution that it ran on.
    pub linux_standard_base: Option<LinuxStandardBase>,
    /// The call stack of each thread, in the order of the snapshot.
    pub threads: Vec<CallStack>,
    /// The modules that were loaded.
    pub modules: ModuleList,
    /// The modules that had been unloaded.
    pub unloaded_modules: ModuleList,
    /// What the symbol provider reports of its work, by module.
    pub symbol_stats: Vec<(String, SymbolStats)>,
    /// The analysis of the instruction that the crashing thread was running.
    pub op_analysis: Option<OpAnalysis>,
    /// The number of streams of the snapshot that are of no known kind.
    pub unknown_streams: u32,
    /// The number of streams of the snapshot that are known and not read.
    pub unimplemented_streams: u32,
}

} // verus!
