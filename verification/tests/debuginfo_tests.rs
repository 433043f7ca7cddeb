use minidump_processor::debuginfo::{
    effective_debug_file, file_path_candidate, finish_unwind, lookup_address, regs_from_walker,
    relative_address, symbols_from_lookup, update_walker, DebugFileProbe, LookupAddress,
    LookupFrame, UnwindRegs,
};
use minidump_processor::{
    CfiStackWalker, Cpu, Endian, FileKind, MemoryRegion, MinidumpContext, Module,
};

fn probe(exists: bool, anchored: Option<(&str, bool)>) -> Option<DebugFileProbe> {
    Some(DebugFileProbe {
        path: "lib.debug".to_string(),
        exists,
        anchored: anchored.map(|(p, e)| (p.to_string(), e)),
    })
}

#[test]
fn the_debug_file_is_preferred_where_it_exists() {
    let code = || "/usr/lib/lib.so".to_string();
    assert_eq!(effective_debug_file(code(), None, false), "/usr/lib/lib.so");
    assert_eq!(
        effective_debug_file(code(), probe(true, Some(("/usr/lib/lib.debug", true))), false),
        "/usr/lib/lib.debug"
    );
    assert_eq!(
        effective_debug_file(code(), probe(true, Some(("/usr/lib/lib.debug", false))), false),
        "lib.debug"
    );
    assert_eq!(
        effective_debug_file(code(), probe(false, Some(("/usr/lib/lib.debug", false))), false),
        "/usr/lib/lib.so"
    );
    assert_eq!(effective_debug_file(code(), probe(true, None), false), "lib.debug");
    assert_eq!(effective_debug_file(code(), probe(false, None), false), "/usr/lib/lib.so");
    assert_eq!(
        effective_debug_file(code(), probe(true, Some(("/usr/lib/lib.debug", true))), true),
        "/usr/lib/lib.so"
    );
}

#[test]
fn a_module_names_its_binary_and_its_debug_file() {
    let mut module = Module::new(0x1000, 0x100, "/bin/app");
    assert_eq!(file_path_candidate(&module, FileKind::BreakpadSym), None);
    assert_eq!(
        file_path_candidate(&module, FileKind::Binary).as_deref(),
        Some("/bin/app")
    );
    assert_eq!(file_path_candidate(&module, FileKind::ExtraDebugInfo), None);
    module.debug_file = Some("app.debug".to_string());
    assert_eq!(
        file_path_candidate(&module, FileKind::ExtraDebugInfo).as_deref(),
        Some("app.debug")
    );
}

fn walker<'a>(cpu: Cpu, stack: Option<&'a MemoryRegion>) -> CfiStackWalker<'a> {
    let mut callee = MinidumpContext::new(cpu);
    match cpu {
        Cpu::X86_64 => {
            callee.set_register("rip", 0x10).unwrap();
            callee.set_register("rsp", 0x20).unwrap();
            callee.set_register("rbp", 0x30).unwrap();
        }
        Cpu::Arm64 => {
            callee.set_register("lr", 0x10).unwrap();
            callee.set_register("sp", 0x20).unwrap();
            callee.set_register("fp", 0x30).unwrap();
        }
        _ => {}
    }
    CfiStackWalker {
        instruction: 0x4000,
        has_grand_callee: false,
        grand_callee_parameter_size: 0,
        callee_ctx: callee,
        stack_memory: stack,
        caller_ctx: MinidumpContext::empty(cpu),
    }
}

#[test]
fn the_unwinder_gets_three_registers() {
    let expected = Some(UnwindRegs {
        ip_or_lr: 0x10,
        sp: 0x20,
        fp: 0x30,
    });
    assert_eq!(regs_from_walker(&walker(Cpu::X86_64, None)), expected);
    assert_eq!(regs_from_walker(&walker(Cpu::Arm64, None)), expected);
    assert_eq!(regs_from_walker(&walker(Cpu::X86, None)), None);
    let mut w = walker(Cpu::X86_64, None);
    w.callee_ctx = MinidumpContext::empty(Cpu::X86_64);
    w.callee_ctx.set_register("rip", 1).unwrap();
    w.callee_ctx.set_register("rsp", 2).unwrap();
    assert_eq!(regs_from_walker(&w), None);
}

#[test]
fn the_answer_of_the_unwinder_goes_into_the_caller() {
    let regs = UnwindRegs {
        ip_or_lr: 0x111,
        sp: 0x222,
        fp: 0x333,
    };
    let mut w = walker(Cpu::X86_64, None);
    assert_eq!(finish_unwind(Ok(Some(0x999)), regs, &mut w), Some(()));
    assert_eq!(w.caller_ctx.get_register("rip"), Some(0x999));
    assert_eq!(w.caller_ctx.get_register("rsp"), Some(0x222));
    assert_eq!(w.caller_ctx.get_register("rbp"), Some(0x333));
    assert_eq!(w.caller_ctx.get_register("rax"), None);

    let mut w = walker(Cpu::X86_64, None);
    assert_eq!(finish_unwind(Ok(None), regs, &mut w), Some(()));
    assert_eq!(w.caller_ctx.get_register("rip"), None);
    assert_eq!(w.caller_ctx.get_register("rsp"), Some(0x222));

    let mut w = walker(Cpu::X86_64, None);
    assert_eq!(finish_unwind(Err(()), regs, &mut w), None);
    assert_eq!(w.caller_ctx, MinidumpContext::empty(Cpu::X86_64));

    let mut w = walker(Cpu::Arm64, None);
    assert_eq!(update_walker(regs, &mut w), Some(()));
    assert_eq!(w.caller_ctx.get_register("lr"), Some(0x111));
    assert_eq!(w.caller_ctx.get_register("sp"), Some(0x222));
    assert_eq!(w.caller_ctx.get_register("fp"), Some(0x333));
    assert_eq!(w.caller_ctx.get_register("pc"), None);

    let mut w = walker(Cpu::X86, None);
    assert_eq!(update_walker(regs, &mut w), None);
}

#[test]
fn rules_are_looked_up_by_return_address_behind_the_first_frame() {
    let mut w = walker(Cpu::X86_64, None);
    assert_eq!(lookup_address(&w), Some(LookupAddress::InstructionPointer(0x4000)));
    w.has_grand_callee = true;
    assert_eq!(lookup_address(&w), Some(LookupAddress::ReturnAddress(0x4001)));
    w.instruction = u64::MAX;
    assert_eq!(lookup_address(&w), None);
    w.has_grand_callee = false;
    assert_eq!(lookup_address(&w), Some(LookupAddress::InstructionPointer(u64::MAX)));
}

#[test]
fn the_walker_reads_the_stack_in_pointers() {
    let stack = MemoryRegion {
        base_address: 0x20,
        bytes: vec![1, 2, 3, 4, 5, 6, 7, 8],
        endian: Endian::Little,
    };
    let w = walker(Cpu::X86_64, Some(&stack));
    assert_eq!(w.get_register_at_address(0x20), Some(0x0807_0605_0403_0201));
    assert_eq!(w.get_register_at_address(0x21), None);
    assert_eq!(w.get_callee_register("rsp"), Some(0x20));
    assert_eq!(w.get_callee_register("esp"), None);
    let w = walker(Cpu::X86, Some(&stack));
    assert_eq!(w.get_register_at_address(0x24), Some(0x0807_0605));
    let w = walker(Cpu::X86_64, None);
    assert_eq!(w.get_register_at_address(0x20), None);
}

#[test]
fn relative_addresses_fit_32_bits() {
    let module = Module::new(0x1000, 0x100, "m");
    assert_eq!(relative_address(0x1010, &module), Some(0x10));
    assert_eq!(relative_address(0x1000, &module), Some(0));
    assert_eq!(relative_address(0xfff, &module), None);
    assert_eq!(relative_address(0x1_0000_0fff, &module), Some(0xffff_ffff));
    assert_eq!(relative_address(0x1_0000_1000, &module), None);
}

fn frame(function: Option<&str>, file: Option<&str>, line: Option<u32>) -> LookupFrame {
    LookupFrame {
        function: function.map(str::to_string),
        file_path: file.map(str::to_string),
        line_number: line,
    }
}

#[test]
fn a_lookup_fills_function_source_and_inlines() {
    let module = Module::new(0x1000, 0x100, "m");
    let symbols = symbols_from_lookup(
        &module,
        "outer".to_string(),
        0x40,
        vec![
            frame(Some("innermost"), Some("a.h"), Some(1)),
            frame(None, None, None),
            frame(Some("outer"), Some("main.c"), None),
        ],
    );
    let function = symbols.function.unwrap();
    assert_eq!(function.name, "outer");
    assert_eq!(function.base, 0x1040);
    assert_eq!(function.parameter_size, 0);
    let source = symbols.source.unwrap();
    assert_eq!(source.file, "main.c");
    assert_eq!(source.line, 0);
    assert_eq!(source.base, 0x1040);
    assert_eq!(symbols.inlines.len(), 2);
    assert_eq!(symbols.inlines[0].function_name, "");
    assert_eq!(symbols.inlines[0].source_file_name, None);
    assert_eq!(symbols.inlines[0].source_line, None);
    assert_eq!(symbols.inlines[1].function_name, "innermost");
    assert_eq!(symbols.inlines[1].source_file_name.as_deref(), Some("a.h"));
    assert_eq!(symbols.inlines[1].source_line, Some(1));

    let symbols = symbols_from_lookup(&module, "f".to_string(), 0, vec![]);
    assert_eq!(symbols.function.unwrap().base, 0x1000);
    assert!(symbols.source.is_none());
    assert!(symbols.inlines.is_empty());

    let symbols = symbols_from_lookup(
        &module,
        "f".to_string(),
        0,
        vec![frame(Some("f"), None, Some(3))],
    );
    assert!(symbols.source.is_none());
    assert!(symbols.inlines.is_empty());
}
