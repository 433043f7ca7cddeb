//! A snapshot as its reader hands it over: the streams that it holds, each as
//! a typed view, and each present or not.

use crate::context::MinidumpContext;
use crate::memory::{MemoryList, MemoryRegion};
use crate::module::ModuleList;
use crate::system_info::{Cpu, Os};
use vstd::prelude::*;

verus! {

/// Why a snapshot could not be read.
#[derive(Clone, Copy, Debug, PartialEq, Eq, Structural)]
pub enum Error {
    FileNotFound,
    IoError,
    MissingHeader,
    HeaderMismatch,
    VersionMismatch,
    MissingDirectory,
    StreamReadFailure,
    StreamSizeMismatch,
    StreamNotFound,
    ModuleReadFailure,
    MemoryReadFailure,
    DataError,
    CodeViewReadFailure,
    UnknownElementType,
}

/// The stream that describes the system.
#[derive(Clone, Debug, PartialEq, Eq)]
pub struct MinidumpSystemInfo {
    /// The operating system.
    pub os: Os,
    /// The processor.
    pub cpu: Cpu,
    /// The three numbers of the version of the operating system.
    pub major_version: u32,
    pub minor_version: u32,
    pub build_number: u32,
    /// The service pack or build of the operating system.
    pub csd_version: Option<String>,
    /// More on the processor.
    pub cpu_info: Option<String>,
    /// The number of processors.
    pub number_of_processors: u8,
}

/// A thread of the thread list.
#[derive(Clone, Debug, PartialEq, Eq)]
pub struct MinidumpThread {
    /// The identifier of the thread.
    pub thread_id: u32,
    /// The address of the thread environment block.
    pub teb: u64,
    /// The address at which the descriptor says the stack memory starts.
    pub stack_start: u64,
    /// The registers of the thread as the snapshot captured them.
    pub context: Option<MinidumpContext>,
    /// The stack memory that the descriptor of the thread holds.
    pub stack: Option<MemoryRegion>,
}

/// The name of a thread.
#[derive(Clone, Debug, PartialEq, Eq)]
pub struct MinidumpThreadName {
    /// The identifier of the thread.
    pub thread_id: u32,
    /// Its name.
    pub name: String,
}

/// The exception stream: what made the process crash.
#[derive(Clone, Debug, PartialEq, Eq)]
pub struct MinidumpException {
    /// The thread that raised the exception.
    pub thread_id: u32,
    /// The code of the exception.
    pub exception_code: u32,
    /// Its flags, which on some systems hold a second code.
    pub exception_flags: u32,
    /// The address of the instruction that raised it.
    pub exception_address: u64,
    /// What the system adds to the record.
    pub exception_information: Vec<u64>,
    /// The registers at the time of the exception.
    pub context: Option<MinidumpContext>,
}

/// The stream of miscellaneous facts about the process.
#[derive(Clone, Copy, Debug, PartialEq, Eq)]
pub struct MinidumpMiscInfo {
    /// The identifier of the process.
    pub process_id: Option<u32>,
    /// When the process started, in seconds since the Unix epoch.
    pub process_create_time: Option<u32>,
}

/// The stream that Breakpad adds about its own threads.
#[derive(Clone, Copy, Debug, PartialEq, Eq)]
pub struct MinidumpBreakpadInfo {
    /// The thread that wrote the snapshot.
    pub dump_thread_id: Option<u32>,
    /// The thread that asked for it.
    pub requesting_thread_id: Option<u32>,
}

/// What the memory info stream says of a range of addresses.
#[derive(Clone, Copy, Debug, PartialEq, Eq, Structural)]
pub struct MinidumpMemoryInfo {
    /// The address at which the range starts.
    pub base_address: u64,
    /// The number of bytes in it.
    pub region_size: u64,
    /// Whether the range is a guard page: one that is left unmapped beside a
    /// stack or a heap to catch an overrun.
    pub guard_page: bool,
}

/// A snapshot.  A stream that the snapshot lacks, or that could not be
/// read, is `None`.
#[derive(Debug)]
pub struct Minidump {
    /// When the snapshot was written, in seconds since the Unix epoch.
    pub time_date_stamp: u32,
    pub system_info: Option<MinidumpSystemInfo>,
    pub thread_list: Option<Vec<MinidumpThread>>,
    pub thread_names: Option<Vec<MinidumpThreadName>>,
    pub module_list: Option<ModuleList>,
    pub unloaded_module_list: Option<ModuleList>,
    pub memory_list: Option<MemoryList>,
    pub memory_info_list: Option<Vec<MinidumpMemoryInfo>>,
    pub exception: Option<MinidumpException>,
    pub misc_info: Option<MinidumpMiscInfo>,
    pub breakpad_info: Option<MinidumpBreakpadInfo>,
    /// The bytes of `/etc/lsb-release`.
    pub linux_lsb_release: Option<Vec<u8>>,
    /// The bytes of `/proc/cpuinfo`.
    pub linux_cpu_info: Option<Vec<u8>>,
    /// The bytes of `/proc/self/environ`.
    pub linux_environ: Option<Vec<u8>>,
    /// The bytes of `/proc/self/status`.
    pub linux_proc_status: Option<Vec<u8>>,
    /// The number of streams that are of no known kind.
    pub unknown_streams: u32,
    /// The number of streams that are known and not read.
    pub unimplemented_streams: u32,
}

impl Minidump {
    /// A snapshot that holds no stream.
    pub fn new() -> (r: Self)
        ensures
            r.time_date_stamp == 0,
            r.system_info is None,
            r.thread_list is None,
            r.thread_names is None,
            r.module_list is None,
            r.unloaded_module_list is None,
            r.memory_list is None,
            r.memory_info_list is None,
            r.exception is None,
            r.misc_info is None,
            r.breakpad_info is None,
            r.linux_lsb_release is None,
            r.linux_cpu_info is None,
            r.linux_environ is None,
            r.linux_proc_status is None,
            r.unknown_streams == 0,
            r.unimplemented_streams == 0,
    {
        Minidump {
            time_date_stamp: 0,
            system_info: None,
            thread_list: None,
            thread_names: None,
            module_list: None,
            unloaded_module_list: None,
            memory_list: None,
            memory_info_list: None,
            exception: None,
            misc_info: None,
            breakpad_info: None,
            linux_lsb_release: None,
            linux_cpu_info: None,
            linux_environ: None,
            linux_proc_status: None,
            unknown_streams: 0,
            unimplemented_streams: 0,
        }
    }
}

} // verus!
