//! Post-mortem analysis of crashed processes from their memory snapshots:
//! per-thread call stacks, crash classification, and analysis of the
//! crashing instruction.
//!
//! A snapshot comes in as a [`Minidump`].  [`process_minidump`] walks the
//! stack of each of its threads with [`walk_stack`], which recovers one frame
//! after the other with the help of a [`SymbolProvider`], and analyses the
//! instruction that the crashing thread was running with
//! [`analyze_thread_context`].  What comes out is a [`ProcessState`].

pub mod amd64;
pub mod context;
pub mod debuginfo;
pub mod disasm;
pub mod linux;
pub mod memory;
pub mod minidump;
pub mod module;
pub mod names;
pub mod op_analysis;
pub mod process_state;
pub mod processor;
pub mod stackwalker;
pub mod strings;
pub mod symbols;
pub mod system_info;

pub use amd64::{analyze_decoded_instruction, analyze_instruction};
pub use context::{ContextValidity, MinidumpContext};
pub use debuginfo::ModuleKey;
pub use memory::{Endian, MemoryList, MemoryRegion};
pub use minidump::Minidump;
pub use module::{Module, ModuleList};
pub use op_analysis::{
    analyze_thread_context, get_thread_instruction_bytes, InstructionPointerUpdate,
    InstructionProperties, MemoryAccess, MemoryAccessList, MemoryAccessType, MemoryAddressInfo,
    OpAnalysis, OpAnalysisError,
};
pub use process_state::{
    CallStack, CallStackInfo, FrameTrust, InlineFrame, LinuxStandardBase, ProcessState, StackFrame,
};
pub use processor::{
    process_minidump, process_minidump_with_options, ProcessError, ProcessorOptions,
};
pub use stackwalker::{walk_stack, walk_stack_with_options, StackWalkerOptions};
pub use strings::{LinuxOsStr, LinuxOsString};
pub use symbols::{
    CfiStackWalker, FileError, FileKind, FillSymbolError, FrameSymbols, SymbolProvider, SymbolStats,
};
pub use system_info::{Cpu, Os, SystemInfo};
