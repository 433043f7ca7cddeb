//! The processor: from a snapshot to the state of the process, with the call
//! stack of every thread and what is known of the crash.

use crate::context::MinidumpContext;
use crate::linux::{
    cpu_microcode_version, linux_list, linux_list_iter, linux_standard_base, lsb_of, lsb_text,
    microcode_of,
};
use crate::memory::{region_at, MemoryList, MemoryRegion};
use crate::minidump::{
    Error, Minidump, MinidumpException, MinidumpMemoryInfo, MinidumpSystemInfo, MinidumpThread,
    MinidumpThreadName,
};
use crate::module::{Module, ModuleList};
use crate::op_analysis::{
    analyze_thread_context, thread_analysis, InstructionPointerUpdate, MemoryAccess,
    MemoryAccessList, MemoryAddressInfo, OpAnalysis, OpAnalysisError,
};
use crate::process_state::{
    AccessViolationKind, CallStack, CallStackInfo, CrashReason, ProcessState,
};
use crate::stackwalker::{
    walk_outcome, walk_stack_with_options, StackWalkerOptions, DEFAULT_MAX_FRAMES,
};
use crate::symbols::SymbolProvider;
use crate::system_info::{spec_pointer_size, Cpu, Os, SystemInfo};
use vstd::prelude::*;

verus! {

/// The code of the Windows exception for an access that was not allowed.
pub const EXCEPTION_ACCESS_VIOLATION: u32 = 0xc000_0005;

/// The code of the Windows exception for a page that could not be brought in.
pub const EXCEPTION_IN_PAGE_ERROR: u32 = 0xc000_0006;

/// The number of pointers between the start of a thread environment block
/// and the last error value of the thread.
pub const LAST_ERROR_SLOT: u64 = 13;

/// Options of the processor.
#[derive(Debug, Clone)]
#[non_exhaustive]
pub struct ProcessorOptions {
    /// The most frames that are recovered for a thread.
    pub max_frames: usize,
    /// Names of threads from beside the snapshot, for the threads that the
    /// snapshot itself does not name.
    pub thread_names: Vec<MinidumpThreadName>,
}

impl Default for ProcessorOptions {
    fn default() -> (r: Self)
        ensures
            r.max_frames == DEFAULT_MAX_FRAMES,
            r.thread_names@.len() == 0,
    {
        ProcessorOptions { max_frames: DEFAULT_MAX_FRAMES, thread_names: Vec::new() }
    }
}

/// Why a snapshot could not be processed.
#[derive(Clone, Copy, Debug, PartialEq, Eq, Structural)]
pub enum ProcessError {
    /// The snapshot could not be read.
    MinidumpReadError(Error),
    /// Something else went wrong.
    UnknownError,
    /// The snapshot has no system information stream.
    MissingSystemInfo,
    /// The snapshot has no thread list stream.
    MissingThreadList,
}

impl From<Error> for ProcessError {
    fn from(err: Error) -> (r: ProcessError) {
        ProcessError::MinidumpReadError(err)
    }
}

impl vstd::std_specs::convert::FromSpecImpl<Error> for ProcessError {
    open spec fn obeys_from_spec() -> bool {
        true
    }

    open spec fn from_spec(err: Error) -> ProcessError {
        ProcessError::MinidumpReadError(err)
    }
}

impl ProcessError {
    /// What the error says.
    pub fn message(&self) -> (r: &'static str)
        ensures
            r@ == (match *self {
                ProcessError::MinidumpReadError(_) => "Failed to read minidump"@,
                ProcessError::UnknownError => "An unknown error occurred"@,
                ProcessError::MissingSystemInfo => "The system information stream was not found"@,
                ProcessError::MissingThreadList => "The thread list stream was not found"@,
            }),
    {
        match self {
            ProcessError::MinidumpReadError(_) => "Failed to read minidump",
            ProcessError::UnknownError => "An unknown error occurred",
            ProcessError::MissingSystemInfo => "The system information stream was not found",
            ProcessError::MissingThreadList => "The thread list stream was not found",
        }
    }
}

/// The character of a decimal digit.
pub open spec fn digit_char(d: nat) -> char {
    if d == 0 {
        '0'
    } else if d == 1 {
        '1'
    } else if d == 2 {
        '2'
    } else if d == 3 {
        '3'
    } else if d == 4 {
        '4'
    } else if d == 5 {
        '5'
    } else if d == 6 {
        '6'
    } else if d == 7 {
        '7'
    } else if d == 8 {
        '8'
    } else {
        '9'
    }
}

/// `n` in decimal digits, without leading zeros.
pub open spec fn decimal(n: nat) -> Seq<char>
    decreases n,
{
    if n < 10 {
        seq![digit_char(n)]
    } else {
        decimal(n / 10).push(digit_char(n % 10))
    }
}

/// The version of an operating system as text: its three numbers in
/// decimal, with dots between them.
pub open spec fn version_text(major: u32, minor: u32, build: u32) -> Seq<char> {
    decimal(major as nat) + seq!['.'] + decimal(minor as nat) + seq!['.'] + decimal(build as nat)
}

/// `format!`, on three numbers with dots between them.  The `Display` of an
/// unsigned integer writes it in decimal digits, without sign or leading
/// zeros.
#[verifier::external_body]
fn format_version(major: u32, minor: u32, build: u32) -> (r: String)
    ensures
        r@ == version_text(major, minor, build),
{
    format!("{}.{}.{}", major, minor, build)
}

/// The regions of the memory list of the snapshot; none without one.
pub open spec fn regions_of(dump: Minidump) -> Seq<MemoryRegion> {
    match dump.memory_list {
        Some(list) => list@,
        None => Seq::empty(),
    }
}

/// The modules of the module list of the snapshot; none without one.
pub open spec fn modules_of(list: Option<ModuleList>) -> Seq<Module> {
    match list {
        Some(list) => list@,
        None => Seq::empty(),
    }
}

/// The thread that crashed or asked for the snapshot: the one that the
/// exception stream names or, without an exception stream, the one that the
/// Breakpad stream names as requesting.
pub open spec fn crashing_thread_id(dump: Minidump) -> Option<u32> {
    match dump.exception {
        Some(exception) => Some(exception.thread_id),
        None => match dump.breakpad_info {
            Some(info) => info.requesting_thread_id,
            None => None,
        },
    }
}

/// Whether `thread` is the thread that wrote the snapshot.
pub open spec fn is_dump_thread(dump: Minidump, thread: MinidumpThread) -> bool {
    dump.breakpad_info matches Some(info) && info.dump_thread_id == Some(thread.thread_id)
}

/// Whether `thread` is the thread that crashed or asked for the snapshot.
pub open spec fn is_requesting_thread(dump: Minidump, thread: MinidumpThread) -> bool {
    crashing_thread_id(dump) == Some(thread.thread_id)
}

/// The context that the walk of `thread` starts from: for the requesting
/// thread that of the exception, where there is one; else the thread's own.
pub open spec fn context_of(dump: Minidump, thread: MinidumpThread) -> Option<MinidumpContext> {
    if is_requesting_thread(dump, thread) {
        match dump.exception {
            Some(exception) => match exception.context {
                Some(context) => Some(context),
                None => thread.context,
            },
            None => thread.context,
        }
    } else {
        thread.context
    }
}

/// The stack memory of `thread`: what its descriptor holds or, where that is
/// nothing, the region of the memory list that holds the start of its stack.
pub open spec fn stack_of(dump: Minidump, thread: MinidumpThread) -> Option<MemoryRegion> {
    match thread.stack {
        Some(stack) => Some(stack),
        None => region_at(regions_of(dump), thread.stack_start),
    }
}

/// The name that the first of `names` for the thread `id` gives.
pub open spec fn name_of(names: Seq<MinidumpThreadName>, id: u32) -> Option<String>
    decreases names.len(),
{
    if names.len() == 0 {
        None
    } else if names[0].thread_id == id {
        Some(names[0].name)
    } else {
        name_of(names.drop_first(), id)
    }
}

/// The name of the thread `id`: from the thread names of the snapshot, or
/// else from those of the options.
pub open spec fn thread_name_of(dump: Minidump, options: ProcessorOptions, id: u32) -> Option<
    String,
> {
    let own = match dump.thread_names {
        Some(names) => name_of(names@, id),
        None => None,
    };
    match own {
        Some(name) => Some(name),
        None => name_of(options.thread_names@, id),
    }
}

/// The last error value of a thread: the 32-bit integer that the memory of
/// the snapshot holds `LAST_ERROR_SLOT` pointers into the thread environment
/// block.
pub open spec fn last_error_of(teb: u64, cpu: Cpu, regions: Seq<MemoryRegion>) -> Option<u32> {
    match spec_pointer_size(cpu) {
        Some(size) => {
            let address = teb + LAST_ERROR_SLOT * size;
            if address > u64::MAX {
                None
            } else {
                match region_at(regions, address as u64) {
                    Some(region) => region.spec_read_u32(address as u64),
                    None => None,
                }
            }
        },
        None => None,
    }
}

/// Whether `stack` is what the processor makes of `thread`.
///
/// The thread that wrote the snapshot is skipped: its stack has no frames.
/// Any other thread is walked from its context and stack memory, and has
/// its name and last error value attached.
pub open spec fn thread_processed(
    stack: CallStack,
    dump: Minidump,
    options: ProcessorOptions,
    thread: MinidumpThread,
    cpu: Cpu,
    os: Os,
) -> bool {
    &&& stack.thread_id == thread.thread_id
    &&& if is_dump_thread(dump, thread) {
        &&& stack.info == CallStackInfo::DumpThreadSkipped
        &&& stack.frames@.len() == 0
        &&& stack.thread_name is None
        &&& stack.last_error_value is None
    } else {
        &&& walk_outcome(
            stack.frames@,
            stack.info,
            context_of(dump, thread),
            stack_of(dump, thread),
            modules_of(dump.module_list),
            options.max_frames,
            os,
        )
        &&& stack.thread_name == thread_name_of(dump, options, thread.thread_id)
        &&& stack.last_error_value == last_error_of(thread.teb, cpu, regions_of(dump))
    }
}

/// The place among the first `n` threads of the thread that crashed or
/// asked for the snapshot: the last that is the requesting thread and not
/// the one that wrote the snapshot.
pub open spec fn requesting_thread_of(
    dump: Minidump,
    threads: Seq<MinidumpThread>,
    n: int,
) -> Option<int>
    decreases n,
{
    if n <= 0 {
        None
    } else if !is_dump_thread(dump, threads[n - 1]) && is_requesting_thread(dump, threads[n - 1]) {
        Some(n - 1)
    } else {
        requesting_thread_of(dump, threads, n - 1)
    }
}

/// What kind of access a Windows exception record tells of.
pub open spec fn access_kind(information: Seq<u64>) -> AccessViolationKind {
    if information.len() == 0 {
        AccessViolationKind::Unknown
    } else if information[0] == 0 {
        AccessViolationKind::Read
    } else if information[0] == 1 {
        AccessViolationKind::Write
    } else if information[0] == 8 {
        AccessViolationKind::Exec
    } else {
        AccessViolationKind::Unknown
    }
}

/// Why the process crashed, as the exception tells it on the given system.
pub open spec fn crash_reason_of(exception: MinidumpException, os: Os) -> CrashReason {
    match os {
        Os::Windows => if exception.exception_code == EXCEPTION_ACCESS_VIOLATION {
            CrashReason::WindowsAccessViolation(access_kind(exception.exception_information@))
        } else if exception.exception_code == EXCEPTION_IN_PAGE_ERROR {
            CrashReason::WindowsInPageError(access_kind(exception.exception_information@))
        } else {
            CrashReason::WindowsGeneral(exception.exception_code)
        },
        Os::Linux | Os::Android => CrashReason::LinuxGeneral(
            exception.exception_code,
            exception.exception_flags,
        ),
        Os::MacOs | Os::Ios => CrashReason::MacGeneral(
            exception.exception_code,
            exception.exception_flags,
        ),
        Os::Unknown => CrashReason::Unknown(exception.exception_code, exception.exception_flags),
    }
}

/// The address that the crash is about.  For a bad memory access on
/// Windows it is the address accessed, which the record holds as its second
/// piece of information; else it is the address of the exception.  On a
/// processor with 32-bit pointers the address is cut to 32 bits.
pub open spec fn crash_address_of(exception: MinidumpException, os: Os, cpu: Cpu) -> u64 {
    let address = if os == Os::Windows && (exception.exception_code == EXCEPTION_ACCESS_VIOLATION
        || exception.exception_code == EXCEPTION_IN_PAGE_ERROR)
        && exception.exception_information@.len() >= 2 {
        exception.exception_information@[1]
    } else {
        exception.exception_address
    };
    if spec_pointer_size(cpu) == Some(4u64) {
        (address % 0x1_0000_0000) as u64
    } else {
        address
    }
}

/// Whether `info` is what the processor makes of the system information of
/// the snapshot.
pub open spec fn system_info_of(info: SystemInfo, dump: Minidump) -> bool {
    &&& dump.system_info matches Some(raw)
    &&& info.os == raw.os
    &&& info.cpu == raw.cpu
    &&& info.os_version matches Some(version)
    &&& version@ == version_text(raw.major_version, raw.minor_version, raw.build_number)
    &&& info.os_build == raw.csd_version
    &&& info.cpu_info == raw.cpu_info
    &&& info.cpu_count == raw.number_of_processors
    &&& info.cpu_microcode_version == (match dump.linux_cpu_info {
        Some(bytes) => microcode_of(linux_list(bytes@, 0x3au8)),
        None => None,
    })
}

/// The ranges of the memory info stream of the snapshot; none without one.
pub open spec fn memory_info_of(dump: Minidump) -> Seq<MinidumpMemoryInfo> {
    match dump.memory_info_list {
        Some(list) => list@,
        None => Seq::empty(),
    }
}

/// Whether `address` lies in a range that the memory info marks as a guard
/// page.
pub open spec fn in_guard_page(infos: Seq<MinidumpMemoryInfo>, address: u64) -> bool {
    exists|i: int|
        0 <= i < infos.len() && (#[trigger] infos[i]).guard_page && infos[i].base_address
            <= address && address - infos[i].base_address < infos[i].region_size
}

/// `info` with the guard page mark that the memory info gives its address.
pub open spec fn with_guard_mark(
    info: MemoryAddressInfo,
    infos: Seq<MinidumpMemoryInfo>,
) -> MemoryAddressInfo {
    MemoryAddressInfo {
        address: info.address,
        is_likely_null_pointer_dereference: info.is_likely_null_pointer_dereference,
        is_likely_guard_page: in_guard_page(infos, info.address),
    }
}

/// Whether `marked` is `plain` with every address marked that lies in a
/// guard page: those of its memory accesses, and the one that it sends the
/// instruction pointer to.  Nothing else differs.
pub open spec fn guard_marked(
    marked: OpAnalysis,
    plain: OpAnalysis,
    infos: Seq<MinidumpMemoryInfo>,
) -> bool {
    &&& marked.instruction_str == plain.instruction_str
    &&& marked.instruction_properties == plain.instruction_properties
    &&& marked.registers == plain.registers
    &&& marked.instruction_pointer_update == (match plain.instruction_pointer_update {
        Some(InstructionPointerUpdate::Update { address_info }) => Some(
            InstructionPointerUpdate::Update { address_info: with_guard_mark(address_info, infos) },
        ),
        other => other,
    })
    &&& match plain.memory_access_list {
        None => marked.memory_access_list is None,
        Some(list) => {
            &&& marked.memory_access_list matches Some(m)
            &&& m.accesses@.len() == list.accesses@.len()
            &&& forall|i: int|
                0 <= i < list.accesses@.len() ==> #[trigger] m.accesses@[i] == (MemoryAccess {
                    address_info: with_guard_mark(list.accesses@[i].address_info, infos),
                    size: list.accesses@[i].size,
                    access_type: list.accesses@[i].access_type,
                })
        },
    }
}

/// Whether the analysis of the instruction at the instruction pointer of
/// `context` fails with `e`.
pub open spec fn analysis_fails(
    e: OpAnalysisError,
    context: MinidumpContext,
    regions: Seq<MemoryRegion>,
    stack_memory: Option<MemoryRegion>,
) -> bool {
    thread_analysis(Err(e), context, regions, stack_memory)
}

/// Whether `analysis` is what the processor makes of the instruction of the
/// crashing thread: the analysis of the instruction at the instruction
/// pointer of its context, with the addresses marked that lie in guard
/// pages; and `None` where there is no crashing thread, no context, or the
/// analysis fails.
pub open spec fn crash_analysis_of(
    analysis: Option<OpAnalysis>,
    dump: Minidump,
    threads: Seq<MinidumpThread>,
    requesting: Option<int>,
) -> bool {
    match requesting {
        None => analysis is None,
        Some(i) => match context_of(dump, threads[i]) {
            None => analysis is None,
            Some(context) => match analysis {
                Some(a) => exists|plain: OpAnalysis|
                    thread_analysis(
                        Ok(plain),
                        context,
                        regions_of(dump),
                        stack_of(dump, threads[i]),
                    ) && #[trigger] guard_marked(a, plain, memory_info_of(dump)),
                None => exists|e: OpAnalysisError| #[trigger]
                    analysis_fails(e, context, regions_of(dump), stack_of(dump, threads[i])),
            },
        },
    }
}

/// Whether `state` is what the processor makes of the snapshot.
pub open spec fn processed(state: ProcessState, dump: Minidump, options: ProcessorOptions) -> bool {
    &&& dump.thread_list matches Some(threads)
    &&& system_info_of(state.system_info, dump)
    &&& state.time == dump.time_date_stamp
    &&& state.process_id == (match dump.misc_info {
        Some(info) => info.process_id,
        None => None,
    })
    &&& state.process_create_time == (match dump.misc_info {
        Some(info) => info.process_create_time,
        None => None,
    })
    &&& state.threads@.len() == threads@.len()
    &&& forall|i: int|
        0 <= i < threads@.len() ==> thread_processed(
            #[trigger] state.threads@[i],
            dump,
            options,
            threads@[i],
            state.system_info.cpu,
            state.system_info.os,
        )
    &&& state.requesting_thread == (match requesting_thread_of(
        dump,
        threads@,
        threads@.len() as int,
    ) {
        Some(i) => Some(i as usize),
        None => None,
    })
    &&& state.crash_reason == (match dump.exception {
        Some(exception) => Some(crash_reason_of(exception, state.system_info.os)),
        None => None,
    })
    &&& state.crash_address == (match dump.exception {
        Some(exception) => Some(
            crash_address_of(exception, state.system_info.os, state.system_info.cpu),
        ),
        None => None,
    })
    &&& state.exception_code == (match dump.exception {
        Some(exception) => Some(exception.exception_code),
        None => None,
    })
    &&& state.modules@ == modules_of(dump.module_list)
    &&& state.unloaded_modules@ == modules_of(dump.unloaded_module_list)
    &&& match dump.linux_lsb_release {
        Some(bytes) => state.linux_standard_base matches Some(lsb) && lsb_text(lsb) == lsb_of(
            linux_list(bytes@, 0x3du8),
            linux_list(bytes@, 0x3du8).len() as int,
        ),
        None => state.linux_standard_base is None,
    }
    &&& crash_analysis_of(
        state.op_analysis,
        dump,
        threads@,
        requesting_thread_of(dump, threads@, threads@.len() as int),
    )
    &&& state.unknown_streams == dump.unknown_streams
    &&& state.unimplemented_streams == dump.unimplemented_streams
}

/// What the processor returns for the snapshot: `MissingThreadList`
/// without a thread list, `MissingSystemInfo` with one and without system
/// information, and else the state of the process.
pub open spec fn process_result(
    r: Result<ProcessState, ProcessError>,
    dump: Minidump,
    options: ProcessorOptions,
) -> bool {
    if dump.thread_list is None {
        r matches Err(e) && e == ProcessError::MissingThreadList
    } else if dump.system_info is None {
        r matches Err(e) && e == ProcessError::MissingSystemInfo
    } else {
        r matches Ok(state) && processed(state, dump, options)
    }
}

/// The name that the first of `names` for the thread `id` gives.
pub fn find_thread_name(names: &Vec<MinidumpThreadName>, id: u32) -> (r: Option<String>)
    ensures
        r == name_of(names@, id),
{
    let n = names.len();
    let mut i: usize = 0;
    assert(names@.subrange(0, n as int) =~= names@);
    while i < n
        invariant
            n == names@.len(),
            i <= n,
            name_of(names@, id) == name_of(names@.subrange(i as int, n as int), id),
        decreases n - i,
    {
        let ghost rest = names@.subrange(i as int, n as int);
        assert(rest[0] == names@[i as int]);
        assert(rest.drop_first() =~= names@.subrange(i + 1, n as int));
        if names[i].thread_id == id {
            return Some(names[i].name.clone());
        }
        i += 1;
    }
    None
}

/// The last error value of the thread whose environment block is at `teb`.
pub fn last_error(teb: u64, cpu: Cpu, memory_list: &MemoryList) -> (r: Option<u32>)
    ensures
        r == last_error_of(teb, cpu, memory_list@),
{
    let size = match cpu.pointer_size() {
        Some(size) => size,
        None => { return None; },
    };
    let address = match teb.checked_add(LAST_ERROR_SLOT * size) {
        Some(address) => address,
        None => { return None; },
    };
    match memory_list.memory_at_address(address) {
        Some(region) => region.read_u32(address),
        None => None,
    }
}

/// Why the process crashed, as the exception tells it on the given system.
pub fn get_crash_reason(exception: &MinidumpException, os: Os) -> (r: CrashReason)
    ensures
        r == crash_reason_of(*exception, os),
{
    let kind = if exception.exception_information.len() == 0 {
        AccessViolationKind::Unknown
    } else {
        match exception.exception_information[0] {
            0 => AccessViolationKind::Read,
            1 => AccessViolationKind::Write,
            8 => AccessViolationKind::Exec,
            _ => AccessViolationKind::Unknown,
        }
    };
    match os {
        Os::Windows => if exception.exception_code == EXCEPTION_ACCESS_VIOLATION {
            CrashReason::WindowsAccessViolation(kind)
        } else if exception.exception_code == EXCEPTION_IN_PAGE_ERROR {
            CrashReason::WindowsInPageError(kind)
        } else {
            CrashReason::WindowsGeneral(exception.exception_code)
        },
        Os::Linux | Os::Android => CrashReason::LinuxGeneral(
            exception.exception_code,
            exception.exception_flags,
        ),
        Os::MacOs | Os::Ios => CrashReason::MacGeneral(
            exception.exception_code,
            exception.exception_flags,
        ),
        Os::Unknown => CrashReason::Unknown(exception.exception_code, exception.exception_flags),
    }
}

/// The address that the crash is about.
pub fn get_crash_address(exception: &MinidumpException, os: Os, cpu: Cpu) -> (r: u64)
    ensures
        r == crash_address_of(*exception, os, cpu),
{
    let is_windows = match os {
        Os::Windows => true,
        _ => false,
    };
    let address = if is_windows && (exception.exception_code == EXCEPTION_ACCESS_VIOLATION
        || exception.exception_code == EXCEPTION_IN_PAGE_ERROR)
        && exception.exception_information.len() >= 2 {
        exception.exception_information[1]
    } else {
        exception.exception_address
    };
    match cpu.pointer_size() {
        Some(4) => address % 0x1_0000_0000,
        _ => address,
    }
}

/// Whether `address` lies in a range that the memory info marks as a guard
/// page.
pub fn is_in_guard_page(infos: &Vec<MinidumpMemoryInfo>, address: u64) -> (r: bool)
    ensures
        r == in_guard_page(infos@, address),
{
    let n = infos.len();
    let mut i: usize = 0;
    while i < n
        invariant
            n == infos@.len(),
            i <= n,
            forall|k: int|
                0 <= k < i ==> !((#[trigger] infos@[k]).guard_page && infos@[k].base_address
                    <= address && address - infos@[k].base_address < infos@[k].region_size),
        decreases n - i,
    {
        let info = &infos[i];
        if info.guard_page && info.base_address <= address && address - info.base_address
            < info.region_size {
            return true;
        }
        i += 1;
    }
    false
}

fn mark_address(info: MemoryAddressInfo, infos: &Vec<MinidumpMemoryInfo>) -> (r: MemoryAddressInfo)
    ensures
        r == with_guard_mark(info, infos@),
{
    MemoryAddressInfo {
        address: info.address,
        is_likely_null_pointer_dereference: info.is_likely_null_pointer_dereference,
        is_likely_guard_page: is_in_guard_page(infos, info.address),
    }
}

/// Marks the addresses of the analysis that lie in guard pages.
pub fn mark_guard_pages(analysis: OpAnalysis, infos: &Vec<MinidumpMemoryInfo>) -> (r: OpAnalysis)
    ensures
        guard_marked(r, analysis, infos@),
{
    let ghost plain = analysis;
    let OpAnalysis {
        instruction_str,
        instruction_properties,
        memory_access_list,
        instruction_pointer_update,
        registers,
    } = analysis;
    let instruction_pointer_update = match instruction_pointer_update {
        Some(InstructionPointerUpdate::Update { address_info }) => Some(
            InstructionPointerUpdate::Update { address_info: mark_address(address_info, infos) },
        ),
        other => other,
    };
    let memory_access_list = match memory_access_list {
        Some(list) => {
            let mut marked: Vec<MemoryAccess> = Vec::new();
            let n = list.accesses.len();
            let mut i: usize = 0;
            while i < n
                invariant
                    n == list.accesses@.len(),
                    i <= n,
                    marked@.len() == i,
                    forall|k: int|
                        0 <= k < i ==> #[trigger] marked@[k] == (MemoryAccess {
                            address_info: with_guard_mark(list.accesses@[k].address_info, infos@),
                            size: list.accesses@[k].size,
                            access_type: list.accesses@[k].access_type,
                        }),
                decreases n - i,
            {
                let access = &list.accesses[i];
                marked.push(
                    MemoryAccess {
                        address_info: mark_address(access.address_info, infos),
                        size: access.size,
                        access_type: access.access_type,
                    },
                );
                i += 1;
            }
            Some(MemoryAccessList { accesses: marked })
        },
        None => None,
    };
    OpAnalysis {
        instruction_str,
        instruction_properties,
        memory_access_list,
        instruction_pointer_update,
        registers,
    }
}

fn crashing_thread(dump: &Minidump) -> (r: Option<u32>)
    ensures
        r == crashing_thread_id(*dump),
{
    match &dump.exception {
        Some(exception) => Some(exception.thread_id),
        None => match &dump.breakpad_info {
            Some(info) => info.requesting_thread_id,
            None => None,
        },
    }
}

fn thread_is_dump_thread(dump: &Minidump, thread: &MinidumpThread) -> (r: bool)
    ensures
        r == is_dump_thread(*dump, *thread),
{
    match &dump.breakpad_info {
        Some(info) => match info.dump_thread_id {
            Some(id) => id == thread.thread_id,
            None => false,
        },
        None => false,
    }
}

fn thread_is_requesting(dump: &Minidump, thread: &MinidumpThread) -> (r: bool)
    ensures
        r == is_requesting_thread(*dump, *thread),
{
    match crashing_thread(dump) {
        Some(id) => id == thread.thread_id,
        None => false,
    }
}

fn thread_context<'a>(dump: &'a Minidump, thread: &'a MinidumpThread) -> (r: Option<
    &'a MinidumpContext,
>)
    ensures
        context_of(*dump, *thread) == (match r {
            Some(c) => Some(*c),
            None => None,
        }),
{
    if thread_is_requesting(dump, thread) {
        // The context of the exception is that of the crash itself.
        if let Some(exception) = &dump.exception {
            if let Some(context) = &exception.context {
                return Some(context);
            }
        }
    }
    thread.context.as_ref()
}

fn thread_stack<'a>(thread: &'a MinidumpThread, memory_list: &'a MemoryList) -> (r: Option<
    &'a MemoryRegion,
>)
    ensures
        (match thread.stack {
            Some(stack) => Some(stack),
            None => region_at(memory_list@, thread.stack_start),
        }) == (match r {
            Some(s) => Some(*s),
            None => None,
        }),
{
    match &thread.stack {
        Some(stack) => Some(stack),
        // A snapshot may leave the descriptor of the stack empty: the
        // memory is then looked up by its address.
        None => memory_list.memory_at_address(thread.stack_start),
    }
}

/// Makes the call stack of one thread.
fn process_thread<P: SymbolProvider>(
    dump: &Minidump,
    thread: &MinidumpThread,
    memory_list: &MemoryList,
    modules: &ModuleList,
    system_info: &SystemInfo,
    symbols: &P,
    options: &ProcessorOptions,
) -> (r: CallStack)
    requires
        memory_list@ == regions_of(*dump),
        modules@ == modules_of(dump.module_list),
    ensures
        thread_processed(r, *dump, *options, *thread, system_info.cpu, system_info.os),
{
    if thread_is_dump_thread(dump, thread) {
        let mut skipped = CallStack::with_info(CallStackInfo::DumpThreadSkipped);
        skipped.thread_id = thread.thread_id;
        return skipped;
    }
    let context = thread_context(dump, thread);
    let stack_memory = thread_stack(thread, memory_list);
    let mut stack = walk_stack_with_options(
        context,
        stack_memory,
        modules,
        system_info,
        symbols,
        StackWalkerOptions { max_frames: options.max_frames },
    );
    stack.thread_id = thread.thread_id;
    let own_name = match &dump.thread_names {
        Some(names) => find_thread_name(names, thread.thread_id),
        None => None,
    };
    stack.thread_name = match own_name {
        Some(name) => Some(name),
        None => find_thread_name(&options.thread_names, thread.thread_id),
    };
    stack.last_error_value = last_error(thread.teb, system_info.cpu, memory_list);
    stack
}

/// What the processor makes of the system information.
fn process_system_info(dump: &Minidump, raw: &MinidumpSystemInfo) -> (r: SystemInfo)
    requires
        dump.system_info == Some(*raw),
    ensures
        system_info_of(r, *dump),
{
    let cpu_microcode_version = match &dump.linux_cpu_info {
        Some(bytes) => {
            let entries = linux_list_iter(bytes.as_slice(), 0x3a);
            cpu_microcode_version(&entries)
        },
        None => None,
    };
    SystemInfo {
        os: raw.os,
        os_version: Some(format_version(raw.major_version, raw.minor_version, raw.build_number)),
        os_build: raw.csd_version.clone(),
        cpu: raw.cpu,
        cpu_info: raw.cpu_info.clone(),
        cpu_microcode_version,
        cpu_count: raw.number_of_processors as usize,
    }
}

/// Unwinds all threads of `dump` and returns the state of the process, with
/// the default options.
pub fn process_minidump<P: SymbolProvider>(dump: &Minidump, symbol_provider: &P) -> (r: Result<
    ProcessState,
    ProcessError,
>)
    ensures
        exists|options: ProcessorOptions|
            options.max_frames == DEFAULT_MAX_FRAMES && options.thread_names@.len() == 0
                && #[trigger] process_result(r, *dump, options),
{
    process_minidump_with_options(dump, symbol_provider, ProcessorOptions::default())
}

/// Unwinds all threads of `dump` and returns the state of the process.
///
/// The thread list and the system information are required: without the
/// first the result is `MissingThreadList`, and with it and without the
/// second `MissingSystemInfo`.  Every other stream may be missing, and is
/// then taken as empty.  There is one call stack for each thread, in the
/// order of the thread list.
pub fn process_minidump_with_options<P: SymbolProvider>(
    dump: &Minidump,
    symbol_provider: &P,
    options: ProcessorOptions,
) -> (r: Result<ProcessState, ProcessError>)
    ensures
        process_result(r, *dump, options),
{
    // The thread list is required.
    let thread_list = match &dump.thread_list {
        Some(list) => list,
        None => { return Err(ProcessError::MissingThreadList); },
    };
    // So is the system information.
    let raw_system_info = match &dump.system_info {
        Some(info) => info,
        None => { return Err(ProcessError::MissingSystemInfo); },
    };
    let system_info = process_system_info(dump, raw_system_info);
    let linux_standard_base = match &dump.linux_lsb_release {
        Some(bytes) => {
            let entries = linux_list_iter(bytes.as_slice(), 0x3d);
            Some(linux_standard_base(&entries))
        },
        None => None,
    };
    // The time at which the process started is optional.
    let (process_id, process_create_time) = match &dump.misc_info {
        Some(info) => (info.process_id, info.process_create_time),
        None => (None, None),
    };
    let (crash_reason, crash_address, exception_code) = match &dump.exception {
        Some(exception) => (
            Some(get_crash_reason(exception, system_info.os)),
            Some(get_crash_address(exception, system_info.os, system_info.cpu)),
            Some(exception.exception_code),
        ),
        None => (None, None, None),
    };
    // A missing list of modules or of memory is an empty one.
    let modules = match &dump.module_list {
        Some(list) => list.clone(),
        None => ModuleList::new(),
    };
    let unloaded_modules = match &dump.unloaded_module_list {
        Some(list) => list.clone(),
        None => ModuleList::new(),
    };
    let no_memory = MemoryList::new();
    let memory_list: &MemoryList = match &dump.memory_list {
        Some(list) => list,
        None => &no_memory,
    };

    let mut threads: Vec<CallStack> = Vec::new();
    let mut requesting_thread: Option<usize> = None;
    let n = thread_list.len();
    let mut i: usize = 0;
    while i < n
        invariant
            n == thread_list@.len(),
            i <= n,
            dump.thread_list == Some(*thread_list),
            memory_list@ == regions_of(*dump),
            modules@ == modules_of(dump.module_list),
            threads@.len() == i,
            forall|k: int|
                0 <= k < i ==> thread_processed(
                    #[trigger] threads@[k],
                    *dump,
                    options,
                    thread_list@[k],
                    system_info.cpu,
                    system_info.os,
                ),
            requesting_thread == (match requesting_thread_of(*dump, thread_list@, i as int) {
                Some(k) => Some(k as usize),
                None => None,
            }),
            requesting_thread_of(*dump, thread_list@, i as int) matches Some(k) ==> 0 <= k < i,
        decreases n - i,
    {
        let thread = &thread_list[i];
        if !thread_is_dump_thread(dump, thread) && thread_is_requesting(dump, thread) {
            requesting_thread = Some(i);
        }
        let stack = process_thread(
            dump,
            thread,
            memory_list,
            &modules,
            &system_info,
            symbol_provider,
            &options,
        );
        let ghost before = threads@;
        threads.push(stack);
        assert forall|k: int| 0 <= k < i + 1 implies thread_processed(
            #[trigger] threads@[k],
            *dump,
            options,
            thread_list@[k],
            system_info.cpu,
            system_info.os,
        ) by {
            if k < i {
                assert(threads@[k] == before[k]);
            }
        }
        i += 1;
    }

    // The instruction that the crashing thread was running.
    let no_memory_info: Vec<MinidumpMemoryInfo> = Vec::new();
    let op_analysis = match requesting_thread {
        Some(index) => {
            let thread = &thread_list[index];
            match thread_context(dump, thread) {
                Some(context) => {
                    let stack_memory = thread_stack(thread, memory_list);
                    match analyze_thread_context(context, memory_list, stack_memory) {
                        Ok(analysis) => {
                            let ghost plain = analysis;
                            let infos: &Vec<MinidumpMemoryInfo> = match &dump.memory_info_list {
                                Some(list) => list,
                                None => &no_memory_info,
                            };
                            assert(infos@ =~= memory_info_of(*dump));
                            let marked = mark_guard_pages(analysis, infos);
                            assert(thread_analysis(
                                Ok(plain),
                                *context,
                                regions_of(*dump),
                                stack_of(*dump, *thread),
                            ) && guard_marked(marked, plain, memory_info_of(*dump)));
                            Some(marked)
                        },
                        Err(e) => {
                            assert(analysis_fails(
                                e,
                                *context,
                                regions_of(*dump),
                                stack_of(*dump, *thread),
                            ));
                            None
                        },
                    }
                },
                None => None,
            }
        },
        None => None,
    };

    let symbol_stats = symbol_provider.stats();
    Ok(
        ProcessState {
            process_id,
            time: dump.time_date_stamp,
            process_create_time,
            crash_reason,
            exception_code,
            crash_address,
            requesting_thread,
            system_info,
            linux_standard_base,
            threads,
            modules,
            unloaded_modules,
            symbol_stats,
            op_analysis,
            unknown_streams: dump.unknown_streams,
            unimplemented_streams: dump.unimplemented_streams,
        },
    )
}

/// The processor makes one call stack for each thread of the thread list,
/// in the order of the list: the stack at a place is that of the thread at
/// that place.
pub proof fn lemma_one_stack_per_thread(
    state: ProcessState,
    dump: Minidump,
    options: ProcessorOptions,
    i: int,
)
    requires
        processed(state, dump, options),
        0 <= i < dump.thread_list->0@.len(),
    ensures
        state.threads@.len() == dump.thread_list->0@.len(),
        state.threads@[i].thread_id == dump.thread_list->0@[i].thread_id,
{
    assert(thread_processed(
        state.threads@[i],
        dump,
        options,
        dump.thread_list->0@[i],
        state.system_info.cpu,
        state.system_info.os,
    ));
}

/// The thread that the Breakpad stream names as the one that wrote the
/// snapshot is skipped: its stack has no frames.
pub proof fn lemma_dump_thread_skipped(
    state: ProcessState,
    dump: Minidump,
    options: ProcessorOptions,
    i: int,
)
    requires
        processed(state, dump, options),
        0 <= i < dump.thread_list->0@.len(),
        is_dump_thread(dump, dump.thread_list->0@[i]),
    ensures
        state.threads@[i].info == CallStackInfo::DumpThreadSkipped,
        state.threads@[i].frames@.len() == 0,
{
    assert(thread_processed(
        state.threads@[i],
        dump,
        options,
        dump.thread_list->0@[i],
        state.system_info.cpu,
        state.system_info.os,
    ));
}

/// No thread has more frames than the options allow.
pub proof fn lemma_frames_within_limit(
    state: ProcessState,
    dump: Minidump,
    options: ProcessorOptions,
    i: int,
)
    requires
        processed(state, dump, options),
        0 <= i < dump.thread_list->0@.len(),
    ensures
        state.threads@[i].frames@.len() <= options.max_frames,
{
    assert(thread_processed(
        state.threads@[i],
        dump,
        options,
        dump.thread_list->0@[i],
        state.system_info.cpu,
        state.system_info.os,
    ));
}

} // verus!
