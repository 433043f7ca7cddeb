use minidump_processor::minidump::{
    Error, MinidumpBreakpadInfo, MinidumpException, MinidumpMemoryInfo, MinidumpMiscInfo,
    MinidumpSystemInfo, MinidumpThread, MinidumpThreadName,
};
use minidump_processor::process_state::{AccessViolationKind, CrashReason};
use minidump_processor::processor::{
    get_crash_address, get_crash_reason, is_in_guard_page, last_error, mark_guard_pages,
};
use minidump_processor::symbols::{
    CfiStackWalker, FileError, FileKind, FillSymbolError, FrameSymbols, SymbolProvider,
    SymbolStats,
};
use minidump_processor::{
    analyze_instruction, process_minidump, process_minidump_with_options, CallStackInfo, Cpu,
    Endian, FrameTrust, InstructionPointerUpdate, LinuxStandardBase, MemoryAccessType, MemoryList,
    MemoryRegion, Minidump, MinidumpContext,
    Module, ModuleList, Os, ProcessError, ProcessState, ProcessorOptions,
};

struct Symbolizer;

impl SymbolProvider for Symbolizer {
    fn fill_symbol(
        &self,
        _module: &Module,
        _instruction: u64,
    ) -> Result<FrameSymbols, FillSymbolError> {
        Err(FillSymbolError {})
    }

    fn walk_frame(&self, _module: &Module, _walker: &mut CfiStackWalker<'_>) -> Option<()> {
        None
    }

    fn get_file_path(&self, _module: &Module, _file_kind: FileKind) -> Result<String, FileError> {
        Err(FileError::NotFound)
    }

    fn stats(&self) -> Vec<(String, SymbolStats)> {
        vec![(
            "module1".to_string(),
            SymbolStats {
                symbol_url: None,
                loaded_symbols: false,
                corrupt_symbols: false,
            },
        )]
    }
}

fn x86_context(eip: u64, esp: u64) -> MinidumpContext {
    let mut context = MinidumpContext::new(Cpu::X86);
    context.set_register("eip", eip).unwrap();
    context.set_register("esp", esp).unwrap();
    context
}

fn system_info(os: Os, cpu: Cpu) -> MinidumpSystemInfo {
    MinidumpSystemInfo {
        os,
        cpu,
        major_version: 5,
        minor_version: 1,
        build_number: 2600,
        csd_version: Some("Service Pack 2".to_string()),
        cpu_info: None,
        number_of_processors: 2,
    }
}

fn minimal_minidump() -> Minidump {
    let context = x86_context(0xabcd1234, 0x1010);
    let stack = MemoryRegion {
        base_address: 0x1000,
        bytes: vec![0; 0x1000],
        endian: Endian::Little,
    };
    let thread = MinidumpThread {
        thread_id: 0x1234,
        teb: 0,
        stack_start: 0x1000,
        context: Some(context),
        stack: Some(stack.clone()),
    };
    let mut dump = Minidump::new();
    dump.thread_list = Some(vec![thread]);
    dump.system_info = Some(system_info(Os::Linux, Cpu::X86));
    dump.memory_list = Some(MemoryList {
        regions: vec![stack],
    });
    dump
}

fn read_synth_dump(dump: Minidump) -> ProcessState {
    process_minidump(&dump, &Symbolizer).unwrap()
}

#[test]
fn test_linux_cpu_info() {
    // Whitespace intentionally wonky to test robustness

    let input = b"
microcode : 0x1e34a6789
";

    let mut dump = minimal_minidump();
    dump.linux_cpu_info = Some(input.to_vec());
    let state = read_synth_dump(dump);

    assert_eq!(state.system_info.cpu_microcode_version, Some(0x1e34a6789));
}

#[test]
fn test_linux_lsb_release() {
    // Whitespace intentionally wonky to test robustness
    {
        let input = br#"
DISTRIB_ID="hello"
"DISTRIB_RELEASE"  =there
"DISTRIB_CODENAME" =   "very long string"
DISTRIB_DESCRIPTION= wow long string!!!
"#;
        let mut dump = minimal_minidump();
        dump.linux_lsb_release = Some(input.to_vec());
        let state = read_synth_dump(dump);

        let LinuxStandardBase {
            id,
            release,
            codename,
            description,
        } = state.linux_standard_base.unwrap();

        assert_eq!(id, "hello");
        assert_eq!(release, "there");
        assert_eq!(codename, "very long string");
        assert_eq!(description, "wow long string!!!");
    }

    {
        let input = br#"
ID="hello"
"VERSION_ID"  =there
"VERSION_CODENAME" =   "very long string"
PRETTY_NAME= wow long string!!!
"#;
        let mut dump = minimal_minidump();
        dump.linux_lsb_release = Some(input.to_vec());
        let state = read_synth_dump(dump);

        let LinuxStandardBase {
            id,
            release,
            codename,
            description,
        } = state.linux_standard_base.unwrap();

        assert_eq!(id, "hello");
        assert_eq!(release, "there");
        assert_eq!(codename, "very long string");
        assert_eq!(description, "wow long string!!!");
    }
}

#[test]
fn test_linux_environ() {
    // Whitespace intentionally wonky to test robustness

    let input = b"";

    let mut dump = minimal_minidump();
    dump.linux_environ = Some(input.to_vec());
    let _state = read_synth_dump(dump);
}

#[test]
fn test_linux_proc_status() {
    // Whitespace intentionally wonky to test robustness

    let input = b"";

    let mut dump = minimal_minidump();
    dump.linux_proc_status = Some(input.to_vec());
    let _state = read_synth_dump(dump);
}

#[test]
fn thread_list_and_system_info_are_required() {
    let mut dump = minimal_minidump();
    dump.thread_list = None;
    assert_eq!(
        process_minidump(&dump, &Symbolizer).unwrap_err(),
        ProcessError::MissingThreadList
    );
    dump.system_info = None;
    assert_eq!(
        process_minidump(&dump, &Symbolizer).unwrap_err(),
        ProcessError::MissingThreadList
    );
    let mut dump = minimal_minidump();
    dump.system_info = None;
    assert_eq!(
        process_minidump(&dump, &Symbolizer).unwrap_err(),
        ProcessError::MissingSystemInfo
    );
    assert_eq!(
        ProcessError::MissingSystemInfo.message(),
        "The system information stream was not found"
    );
    assert_eq!(
        ProcessError::from(Error::StreamNotFound),
        ProcessError::MinidumpReadError(Error::StreamNotFound)
    );
    assert_eq!(
        ProcessError::from(Error::StreamNotFound).message(),
        "Failed to read minidump"
    );
}

#[test]
fn optional_streams_default_to_empty() {
    let mut dump = minimal_minidump();
    dump.memory_list = None;
    dump.time_date_stamp = 1_700_000_000;
    dump.unknown_streams = 3;
    dump.unimplemented_streams = 1;
    let state = read_synth_dump(dump);
    assert_eq!(state.threads.len(), 1);
    assert_eq!(state.threads[0].info, CallStackInfo::Okay);
    assert_eq!(state.threads[0].frames.len(), 1);
    assert_eq!(state.threads[0].thread_id, 0x1234);
    assert_eq!(state.modules.len(), 0);
    assert_eq!(state.unloaded_modules.len(), 0);
    assert_eq!(state.crash_reason, None);
    assert_eq!(state.crash_address, None);
    assert_eq!(state.exception_code, None);
    assert_eq!(state.requesting_thread, None);
    assert_eq!(state.process_id, None);
    assert_eq!(state.process_create_time, None);
    assert!(state.linux_standard_base.is_none());
    assert!(state.op_analysis.is_none());
    assert_eq!(state.time, 1_700_000_000);
    assert_eq!(state.unknown_streams, 3);
    assert_eq!(state.unimplemented_streams, 1);
    assert_eq!(state.symbol_stats.len(), 1);
    assert_eq!(state.system_info.os, Os::Linux);
    assert_eq!(state.system_info.cpu, Cpu::X86);
    assert_eq!(state.system_info.os_version.unwrap(), "5.1.2600");
    assert_eq!(state.system_info.os_build.unwrap(), "Service Pack 2");
    assert_eq!(state.system_info.cpu_count, 2);
    assert_eq!(state.system_info.cpu_microcode_version, None);
}

fn two_threads() -> Minidump {
    // Thread A has a frame chain of two frames in module1, thread B has not.
    let base = 0x8000_0000u64;
    let mut bytes = Vec::new();
    bytes.extend_from_slice(&0u32.to_le_bytes());
    bytes.extend_from_slice(&0u32.to_le_bytes());
    bytes.extend_from_slice(&0x8000_0018u32.to_le_bytes()); // base + 8: saved ebp
    bytes.extend_from_slice(&0x4000_8679u32.to_le_bytes()); // base + 12: return address
    bytes.extend_from_slice(&[0u8; 8]);
    bytes.extend_from_slice(&0u32.to_le_bytes()); // base + 24
    bytes.extend_from_slice(&0u32.to_le_bytes());
    let stack_a = MemoryRegion {
        base_address: base,
        bytes,
        endian: Endian::Little,
    };
    let mut context_a = x86_context(0x4000_c7a5, base);
    context_a.set_register("ebp", base + 8).unwrap();
    let thread_a = MinidumpThread {
        thread_id: 0xa,
        teb: 0x7000,
        stack_start: base,
        context: Some(context_a),
        stack: None,
    };
    let thread_b = MinidumpThread {
        thread_id: 0xb,
        teb: 0,
        stack_start: 0x9000_0000,
        context: Some(x86_context(0x5000_0000, 0x9000_0000)),
        stack: None,
    };
    let mut teb = vec![0u8; 0x40];
    teb[0x34..0x38].copy_from_slice(&0xc000_0005u32.to_le_bytes());
    let mut dump = Minidump::new();
    dump.thread_list = Some(vec![thread_a, thread_b]);
    dump.system_info = Some(system_info(Os::Windows, Cpu::X86));
    dump.memory_list = Some(MemoryList {
        regions: vec![
            stack_a,
            MemoryRegion {
                base_address: 0x7000,
                bytes: teb,
                endian: Endian::Little,
            },
        ],
    });
    dump.module_list = Some(ModuleList::from_modules(vec![
        Module::new(0x4000_0000, 0x10000, "c:\\test_app.exe"),
        Module::new(0x5000_0000, 0x10000, "module2"),
    ]));
    dump.breakpad_info = Some(MinidumpBreakpadInfo {
        dump_thread_id: Some(0xb),
        requesting_thread_id: Some(0xa),
    });
    dump.misc_info = Some(MinidumpMiscInfo {
        process_id: Some(3932),
        process_create_time: Some(1_600_000_000),
    });
    dump.thread_names = Some(vec![MinidumpThreadName {
        thread_id: 0xa,
        name: "main".to_string(),
    }]);
    dump
}

#[test]
fn the_dump_thread_is_skipped() {
    let dump = two_threads();
    let state = read_synth_dump(dump);
    assert_eq!(state.threads.len(), 2);
    assert_eq!(state.requesting_thread, Some(0));

    assert_eq!(state.threads[0].info, CallStackInfo::Okay);
    assert_eq!(state.threads[0].frames.len(), 2);
    assert_eq!(state.threads[0].thread_id, 0xa);
    assert_eq!(state.threads[0].thread_name.as_deref(), Some("main"));
    assert_eq!(state.threads[0].last_error_value, Some(0xc000_0005));
    let f0 = &state.threads[0].frames[0];
    assert_eq!(f0.module.as_ref().unwrap().code_file, "c:\\test_app.exe");
    assert_eq!(f0.trust, FrameTrust::Context);
    let f1 = &state.threads[0].frames[1];
    assert_eq!(f1.trust, FrameTrust::FramePointer);
    assert_eq!(f1.instruction, 0x4000_8678);

    // The dump thread should have been skipped.
    assert_eq!(state.threads[1].info, CallStackInfo::DumpThreadSkipped);
    assert_eq!(state.threads[1].frames.len(), 0);
    assert_eq!(state.threads[1].thread_id, 0xb);
    assert_eq!(state.threads[1].thread_name, None);

    assert_eq!(state.process_id, Some(3932));
    assert_eq!(state.process_create_time, Some(1_600_000_000));
    assert_eq!(state.modules.len(), 2);
}

#[test]
fn the_exception_stream_names_the_crashing_thread() {
    let mut dump = two_threads();
    // Nobody wrote the dump from a thread of its own, and the exception
    // stream disagrees with the Breakpad stream about who crashed.
    dump.breakpad_info = Some(MinidumpBreakpadInfo {
        dump_thread_id: None,
        requesting_thread_id: Some(0xa),
    });
    let mut exception_context = x86_context(0x5000_0042, 0x9000_0000);
    exception_context.set_register("eax", 7).unwrap();
    dump.exception = Some(MinidumpException {
        thread_id: 0xb,
        exception_code: 0xc000_0005,
        exception_flags: 0,
        exception_address: 0x5000_0042,
        exception_information: vec![1, 0x45],
        context: Some(exception_context),
    });
    let state = read_synth_dump(dump);
    assert_eq!(state.requesting_thread, Some(1));
    assert_eq!(state.threads[1].info, CallStackInfo::Okay);
    // The walk starts from the context of the exception.
    assert_eq!(state.threads[1].frames[0].instruction, 0x5000_0042);
    assert_eq!(state.threads[1].frames[0].context.get_register("eax"), Some(7));
    assert_eq!(state.threads[0].frames[0].instruction, 0x4000_c7a5);
    assert_eq!(
        state.crash_reason,
        Some(CrashReason::WindowsAccessViolation(AccessViolationKind::Write))
    );
    assert_eq!(state.crash_address, Some(0x45));
    assert_eq!(state.exception_code, Some(0xc000_0005));
    // x86 is not analysed.
    assert!(state.op_analysis.is_none());
}

#[test]
fn thread_names_fall_back_to_the_options() {
    let mut dump = two_threads();
    dump.breakpad_info = None;
    let mut options = ProcessorOptions::default();
    options.thread_names = vec![
        MinidumpThreadName {
            thread_id: 0xa,
            name: "other".to_string(),
        },
        MinidumpThreadName {
            thread_id: 0xb,
            name: "worker".to_string(),
        },
    ];
    options.max_frames = 1;
    let state = process_minidump_with_options(&dump, &Symbolizer, options).unwrap();
    assert_eq!(state.threads[0].thread_name.as_deref(), Some("main"));
    assert_eq!(state.threads[1].thread_name.as_deref(), Some("worker"));
    assert_eq!(state.threads[0].frames.len(), 1);
    assert_eq!(state.threads[1].frames.len(), 1);
    assert_eq!(state.requesting_thread, None);
    assert_eq!(ProcessorOptions::default().max_frames, 1024);
}

#[test]
fn the_crashing_instruction_is_analysed() {
    let mut context = MinidumpContext::new(Cpu::X86_64);
    context.set_register("rip", 0x4000_0100).unwrap();
    context.set_register("rsp", 0x7000_0000).unwrap();
    context.set_register("rbx", 0).unwrap();
    let code = MemoryRegion {
        base_address: 0x4000_0100,
        // mov rax, [rbx + 0x10]
        bytes: vec![0x48, 0x8b, 0x43, 0x10],
        endian: Endian::Little,
    };
    let thread = MinidumpThread {
        thread_id: 1,
        teb: 0,
        stack_start: 0,
        context: None,
        stack: None,
    };
    let mut dump = Minidump::new();
    dump.thread_list = Some(vec![thread]);
    dump.system_info = Some(system_info(Os::Linux, Cpu::X86_64));
    dump.memory_list = Some(MemoryList {
        regions: vec![code],
    });
    dump.exception = Some(MinidumpException {
        thread_id: 1,
        exception_code: 11,
        exception_flags: 1,
        exception_address: 0x10,
        exception_information: vec![],
        context: Some(context),
    });
    let state = read_synth_dump(dump);
    assert_eq!(state.requesting_thread, Some(0));
    assert_eq!(state.crash_reason, Some(CrashReason::LinuxGeneral(11, 1)));
    assert_eq!(state.crash_address, Some(0x10));
    let analysis = state.op_analysis.unwrap();
    assert_eq!(analysis.instruction_str, "mov rax, qword [rbx + 0x10]");
    let list = analysis.memory_access_list.unwrap();
    assert!(list.contains_access(0x10, MemoryAccessType::Read));
    assert!(list.iter().all(|a| a.address_info.is_likely_null_pointer_dereference));
    assert_eq!(state.threads[0].frames.len(), 1);
}

#[test]
fn crash_reasons_and_addresses_follow_the_system() {
    let mut exception = MinidumpException {
        thread_id: 1,
        exception_code: 0xc000_0005,
        exception_flags: 0,
        exception_address: 0xffff_ffff_0040_429e,
        exception_information: vec![0, 0x45],
        context: None,
    };
    assert_eq!(
        get_crash_reason(&exception, Os::Windows),
        CrashReason::WindowsAccessViolation(AccessViolationKind::Read)
    );
    assert_eq!(get_crash_address(&exception, Os::Windows, Cpu::X86), 0x45);
    assert_eq!(
        get_crash_address(&exception, Os::Linux, Cpu::X86),
        0x0040_429e
    );
    assert_eq!(
        get_crash_address(&exception, Os::Linux, Cpu::X86_64),
        0xffff_ffff_0040_429e
    );
    exception.exception_information = vec![8];
    assert_eq!(
        get_crash_reason(&exception, Os::Windows),
        CrashReason::WindowsAccessViolation(AccessViolationKind::Exec)
    );
    assert_eq!(
        get_crash_address(&exception, Os::Windows, Cpu::X86_64),
        0xffff_ffff_0040_429e
    );
    exception.exception_code = 0xc000_0006;
    exception.exception_information = vec![];
    assert_eq!(
        get_crash_reason(&exception, Os::Windows),
        CrashReason::WindowsInPageError(AccessViolationKind::Unknown)
    );
    exception.exception_code = 0x8000_0003;
    assert_eq!(
        get_crash_reason(&exception, Os::Windows),
        CrashReason::WindowsGeneral(0x8000_0003)
    );
    exception.exception_flags = 2;
    assert_eq!(
        get_crash_reason(&exception, Os::MacOs),
        CrashReason::MacGeneral(0x8000_0003, 2)
    );
    assert_eq!(
        get_crash_reason(&exception, Os::Android),
        CrashReason::LinuxGeneral(0x8000_0003, 2)
    );
    assert_eq!(
        get_crash_reason(&exception, Os::Unknown),
        CrashReason::Unknown(0x8000_0003, 2)
    );
}

#[test]
fn last_error_sits_thirteen_pointers_into_the_teb() {
    let mut teb = vec![0u8; 0x80];
    teb[0x34..0x38].copy_from_slice(&5u32.to_le_bytes());
    teb[0x68..0x6c].copy_from_slice(&6u32.to_le_bytes());
    let memory = MemoryList {
        regions: vec![MemoryRegion {
            base_address: 0x7000,
            bytes: teb,
            endian: Endian::Little,
        }],
    };
    assert_eq!(last_error(0x7000, Cpu::X86, &memory), Some(5));
    assert_eq!(last_error(0x7000, Cpu::X86_64, &memory), Some(6));
    assert_eq!(last_error(0x7000, Cpu::Unknown, &memory), None);
    assert_eq!(last_error(0x9000, Cpu::X86, &memory), None);
    assert_eq!(last_error(u64::MAX, Cpu::X86, &memory), None);
}

#[test]
fn addresses_in_guard_pages_are_marked() {
    let infos = vec![
        MinidumpMemoryInfo {
            base_address: 0x1000,
            region_size: 0x1000,
            guard_page: false,
        },
        MinidumpMemoryInfo {
            base_address: 0x2000,
            region_size: 0x1000,
            guard_page: true,
        },
    ];
    assert!(!is_in_guard_page(&infos, 0x1fff));
    assert!(is_in_guard_page(&infos, 0x2000));
    assert!(is_in_guard_page(&infos, 0x2fff));
    assert!(!is_in_guard_page(&infos, 0x3000));
    assert!(!is_in_guard_page(&vec![], 0x2000));

    // call [rbx], with the stack pointer just above a guard page.
    let mut context = MinidumpContext::new(Cpu::X86_64);
    context.set_register("rbx", 0x1800).unwrap();
    context.set_register("rsp", 0x3000).unwrap();
    let memory = MemoryList {
        regions: vec![MemoryRegion {
            base_address: 0x1800,
            bytes: vec![0x10, 0x20, 0, 0, 0, 0, 0, 0],
            endian: Endian::Little,
        }],
    };
    let plain = analyze_instruction(&context, &[0xff, 0x13], Some(&memory), None).unwrap();
    let marked = mark_guard_pages(plain, &infos);
    let list: Vec<_> = marked.memory_access_list.unwrap().iter().cloned().collect();
    assert_eq!(list.len(), 2);
    assert_eq!(list[0].address_info.address, 0x1800);
    assert!(!list[0].address_info.is_likely_guard_page);
    assert_eq!(list[1].address_info.address, 0x2ff8);
    assert!(list[1].address_info.is_likely_guard_page);
    assert_eq!(list[1].access_type, MemoryAccessType::Write);
    match marked.instruction_pointer_update {
        Some(InstructionPointerUpdate::Update { address_info }) => {
            assert_eq!(address_info.address, 0x2010);
            assert!(address_info.is_likely_guard_page);
        }
        other => panic!("unexpected update {:?}", other),
    }
    assert_eq!(marked.instruction_str, "call qword [rbx]");
}
