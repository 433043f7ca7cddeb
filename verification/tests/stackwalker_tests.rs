use minidump_processor::process_state::{CallStack, CallStackInfo, FrameTrust, StackFrame};
use minidump_processor::stackwalker::{
    call_site_module, call_site_plausible, caller_from_rules, cfi_walker_for,
};
use minidump_processor::symbols::{
    CfiStackWalker, FileError, FileKind, FillSymbolError, FrameSymbols, FunctionSymbol,
    SourceLocation, SymbolProvider, SymbolStats,
};
use minidump_processor::{
    walk_stack, walk_stack_with_options, ContextValidity, Cpu, Endian, InlineFrame,
    MemoryRegion, MinidumpContext, Module, ModuleList, Os, StackWalkerOptions, SystemInfo,
};
use test_assembler::{Label, LabelMaker, Section};

/// A provider that has symbols for no module.
struct Symbolizer;

impl SymbolProvider for Symbolizer {
    fn fill_symbol(
        &self,
        _module: &Module,
        _instruction: u64,
    ) -> Result<FrameSymbols, FillSymbolError> {
        Err(FillSymbolError {})
    }

    fn walk_frame(&self, _module: &Module, _walker: &mut CfiStackWalker<'_>) -> Option<()> {
        None
    }

    fn get_file_path(&self, _module: &Module, _file_kind: FileKind) -> Result<String, FileError> {
        Err(FileError::NotFound)
    }

    fn stats(&self) -> Vec<(String, SymbolStats)> {
        Vec::new()
    }
}

fn system_info(cpu: Cpu) -> SystemInfo {
    SystemInfo {
        os: Os::Windows,
        os_version: None,
        os_build: None,
        cpu,
        cpu_info: None,
        cpu_microcode_version: None,
        cpu_count: 1,
    }
}

struct TestFixture {
    pub raw: MinidumpContext,
    pub modules: ModuleList,
    pub symbolizer: Symbolizer,
}

impl TestFixture {
    pub fn new() -> TestFixture {
        TestFixture {
            raw: MinidumpContext::new(Cpu::X86),
            // Give the two modules reasonable standard locations and names
            // for tests to play with.
            modules: ModuleList::from_modules(vec![
                Module::new(0x40000000, 0x10000, "module1"),
                Module::new(0x50000000, 0x10000, "module2"),
            ]),
            symbolizer: Symbolizer,
        }
    }

    pub fn walk_stack(&self, stack: Section) -> CallStack {
        let context = self.raw;
        let base = stack.start().value().unwrap();
        let stack = stack.get_contents().unwrap();
        let stack_memory = MemoryRegion {
            base_address: base,
            bytes: stack,
            endian: Endian::Little,
        };
        walk_stack(
            Some(&context),
            Some(&stack_memory),
            &self.modules,
            &system_info(Cpu::X86),
            &self.symbolizer,
        )
    }
}

#[test]
fn test_simple() {
    let mut f = TestFixture::new();
    let mut stack = Section::new();
    stack.start().set_const(0x80000000);
    stack = stack.D32(0).D32(0); // end-of-stack marker
    f.raw.set_register("eip", 0x40000200).unwrap();
    f.raw.set_register("ebp", 0x80000000).unwrap();
    let s = f.walk_stack(stack);
    assert_eq!(s.frames.len(), 1);
    let f = &s.frames[0];
    let m = f.module.as_ref().unwrap();
    assert_eq!(m.code_file, "module1");
}

// Walk a traditional frame. A traditional frame saves the caller's
// %ebp just below the return address, and has its own %ebp pointing
// at the saved %ebp.
#[test]
fn test_traditional() {
    let mut f = TestFixture::new();
    let frame0_ebp = Label::new();
    let frame1_ebp = Label::new();
    let mut stack = Section::new();
    stack.start().set_const(0x80000000);
    stack = stack
        .append_repeated(12, 0) // frame 0: space
        .mark(&frame0_ebp) // frame 0 %ebp points here
        .D32(&frame1_ebp) // frame 0: saved %ebp
        .D32(0x40008679) // frame 0: return address
        .append_repeated(8, 0) // frame 1: space
        .mark(&frame1_ebp) // frame 1 %ebp points here
        .D32(0) // frame 1: saved %ebp (stack end)
        .D32(0); // frame 1: return address (stack end)
    f.raw.set_register("eip", 0x4000c7a5).unwrap();
    f.raw
        .set_register("esp", stack.start().value().unwrap() as u32 as u64)
        .unwrap();
    f.raw
        .set_register("ebp", frame0_ebp.value().unwrap() as u32 as u64)
        .unwrap();
    let s = f.walk_stack(stack);
    assert_eq!(s.frames.len(), 2);
    {
        let f0 = &s.frames[0];
        assert_eq!(f0.trust, FrameTrust::Context);
        assert_eq!(f0.context.valid, ContextValidity::All);
        assert_eq!(f0.instruction, 0x4000c7a5);
        // eip
        // ebp
    }
    {
        let f1 = &s.frames[1];
        assert_eq!(f1.trust, FrameTrust::FramePointer);
        // ContextValidity
        assert_eq!(f1.instruction, 0x40008678);
        // eip
        // ebp
    }
}

#[test]
fn traditional_frames_carry_their_registers_and_modules() {
    let mut f = TestFixture::new();
    // Two frames with room between them.
    let mut bytes = vec![0u8; 12];
    bytes.extend_from_slice(&0x80000020u32.to_le_bytes()); // 0x8000000c: saved ebp
    bytes.extend_from_slice(&0x40008679u32.to_le_bytes()); // 0x80000010: return address
    bytes.extend_from_slice(&[0u8; 12]);
    bytes.extend_from_slice(&0u32.to_le_bytes()); // 0x80000020: saved ebp
    bytes.extend_from_slice(&0u32.to_le_bytes()); // 0x80000024: return address
    f.raw.set_register("eip", 0x4000c7a5).unwrap();
    f.raw.set_register("esp", 0x80000000).unwrap();
    f.raw.set_register("ebp", 0x8000000c).unwrap();
    let stack_memory = MemoryRegion {
        base_address: 0x80000000,
        bytes,
        endian: Endian::Little,
    };
    let s = walk_stack(
        Some(&f.raw),
        Some(&stack_memory),
        &f.modules,
        &system_info(Cpu::X86),
        &f.symbolizer,
    );
    assert_eq!(s.info, CallStackInfo::Okay);
    assert_eq!(s.frames.len(), 2);
    let f0 = &s.frames[0];
    assert_eq!(f0.module.as_ref().unwrap().code_file, "module1");
    assert_eq!(f0.context, f.raw);
    let f1 = &s.frames[1];
    assert_eq!(f1.module.as_ref().unwrap().code_file, "module1");
    assert_eq!(f1.context.get_instruction_pointer(), 0x40008679);
    assert_eq!(f1.context.get_stack_pointer(), 0x80000014);
    assert_eq!(f1.context.get_register("ebp"), Some(0x80000020));
    assert_eq!(f1.context.get_register("eip"), Some(0x40008679));
    assert_eq!(f1.context.get_register("esp"), Some(0x80000014));
    // Nothing else is known of the caller.
    assert_eq!(f1.context.get_register("eax"), None);
    assert_eq!(f1.context.get_register("ebx"), None);
    assert!(f1.context.get_stack_pointer() > f0.context.get_stack_pointer());
    assert!(f1.function_name.is_none());
    assert!(f1.inlines.is_empty());
}

#[test]
fn missing_context_and_unsupported_cpu_give_no_frames() {
    let f = TestFixture::new();
    let s = walk_stack(None, None, &f.modules, &system_info(Cpu::X86), &f.symbolizer);
    assert_eq!(s.info, CallStackInfo::MissingContext);
    assert!(s.frames.is_empty());

    let context = MinidumpContext::new(Cpu::Ppc);
    let s = walk_stack(
        Some(&context),
        None,
        &f.modules,
        &system_info(Cpu::Ppc),
        &f.symbolizer,
    );
    assert_eq!(s.info, CallStackInfo::UnsupportedCpu);
    assert!(s.frames.is_empty());
}

#[test]
fn missing_stack_memory_leaves_the_context_frame() {
    let mut f = TestFixture::new();
    f.raw.set_register("eip", 0x50000123).unwrap();
    f.raw.set_register("esp", 0x80000000).unwrap();
    f.raw.set_register("ebp", 0x80000010).unwrap();
    let s = walk_stack(
        Some(&f.raw),
        None,
        &f.modules,
        &system_info(Cpu::X86),
        &f.symbolizer,
    );
    assert_eq!(s.info, CallStackInfo::Okay);
    assert_eq!(s.frames.len(), 1);
    assert_eq!(s.frames[0].trust, FrameTrust::Context);
    assert_eq!(s.frames[0].instruction, 0x50000123);
    assert_eq!(s.frames[0].module.as_ref().unwrap().code_file, "module2");
    assert_eq!(s.thread_id, 0);
    assert_eq!(s.thread_name, None);
    assert_eq!(s.last_error_value, None);
}

fn amd64_chain(frames: u64) -> (MinidumpContext, MemoryRegion) {
    // A chain of frames of 16 bytes each: saved rbp, return address.
    let base = 0x7000_0000u64;
    let mut bytes = Vec::new();
    for i in 0..frames {
        let next = if i + 1 < frames { base + 16 * (i + 1) } else { 0 };
        let ret = if i + 1 < frames { 0x4000_1000 + i } else { 0 };
        bytes.extend_from_slice(&next.to_le_bytes());
        bytes.extend_from_slice(&ret.to_le_bytes());
    }
    let mut context = MinidumpContext::new(Cpu::X86_64);
    context.set_register("rip", 0x4000_0500).unwrap();
    context.set_register("rsp", base - 8).unwrap();
    context.set_register("rbp", base).unwrap();
    (
        context,
        MemoryRegion {
            base_address: base,
            bytes,
            endian: Endian::Little,
        },
    )
}

#[test]
fn stack_pointers_rise_and_trust_is_recorded() {
    let f = TestFixture::new();
    let (context, stack) = amd64_chain(6);
    let s = walk_stack(
        Some(&context),
        Some(&stack),
        &f.modules,
        &system_info(Cpu::X86_64),
        &f.symbolizer,
    );
    assert_eq!(s.info, CallStackInfo::Okay);
    assert_eq!(s.frames.len(), 6);
    assert_eq!(s.frames[0].trust, FrameTrust::Context);
    for i in 1..s.frames.len() {
        assert_eq!(s.frames[i].trust, FrameTrust::FramePointer);
        assert!(
            s.frames[i].context.get_stack_pointer() > s.frames[i - 1].context.get_stack_pointer()
        );
        assert_eq!(
            s.frames[i].instruction,
            s.frames[i].context.get_instruction_pointer() - 1
        );
        assert_eq!(s.frames[i].instruction, 0x4000_1000 + (i as u64 - 1) - 1);
    }
}

#[test]
fn frame_count_is_bounded() {
    let f = TestFixture::new();
    let (context, stack) = amd64_chain(2000);
    let s = walk_stack(
        Some(&context),
        Some(&stack),
        &f.modules,
        &system_info(Cpu::X86_64),
        &f.symbolizer,
    );
    assert_eq!(s.frames.len(), 1024);
    let s = walk_stack_with_options(
        Some(&context),
        Some(&stack),
        &f.modules,
        &system_info(Cpu::X86_64),
        &f.symbolizer,
        StackWalkerOptions { max_frames: 3 },
    );
    assert_eq!(s.frames.len(), 3);
    let s = walk_stack_with_options(
        Some(&context),
        Some(&stack),
        &f.modules,
        &system_info(Cpu::X86_64),
        &f.symbolizer,
        StackWalkerOptions { max_frames: 0 },
    );
    assert_eq!(s.info, CallStackInfo::Okay);
    assert!(s.frames.is_empty());
    assert_eq!(StackWalkerOptions::default().max_frames, 1024);
}

#[test]
fn a_caller_below_the_callee_ends_the_walk() {
    let f = TestFixture::new();
    // The saved frame pointer chain points back down: the caller's stack
    // pointer would not rise.
    let base = 0x7000_0000u64;
    let mut bytes = Vec::new();
    bytes.extend_from_slice(&base.to_le_bytes());
    bytes.extend_from_slice(&0x4000_1000u64.to_le_bytes());
    let stack = MemoryRegion {
        base_address: base,
        bytes,
        endian: Endian::Little,
    };
    let mut context = MinidumpContext::new(Cpu::X86_64);
    context.set_register("rip", 0x4000_0500).unwrap();
    context.set_register("rsp", base + 16).unwrap();
    context.set_register("rbp", base).unwrap();
    let s = walk_stack(
        Some(&context),
        Some(&stack),
        &f.modules,
        &system_info(Cpu::X86_64),
        &f.symbolizer,
    );
    assert_eq!(s.frames.len(), 1);
}

#[test]
fn scan_finds_a_return_address() {
    let f = TestFixture::new();
    // No frame pointer to go by: ebp is not valid.
    let mut context = MinidumpContext::empty(Cpu::X86);
    context.set_register("eip", 0x4000_0100).unwrap();
    context.set_register("esp", 0x8000_0000).unwrap();
    let mut bytes = Vec::new();
    bytes.extend_from_slice(&0x1234_5678u32.to_le_bytes()); // not in a module
    bytes.extend_from_slice(&0u32.to_le_bytes());
    bytes.extend_from_slice(&0x5000_0010u32.to_le_bytes()); // in module2
    bytes.extend_from_slice(&0u32.to_le_bytes());
    let stack = MemoryRegion {
        base_address: 0x8000_0000,
        bytes,
        endian: Endian::Little,
    };
    let s = walk_stack(
        Some(&context),
        Some(&stack),
        &f.modules,
        &system_info(Cpu::X86),
        &f.symbolizer,
    );
    assert_eq!(s.frames.len(), 2);
    let f1 = &s.frames[1];
    assert_eq!(f1.trust, FrameTrust::Scan);
    assert_eq!(f1.instruction, 0x5000_000f);
    assert_eq!(f1.context.get_register("eip"), Some(0x5000_0010));
    assert_eq!(f1.context.get_register("esp"), Some(0x8000_000c));
    assert_eq!(f1.context.get_register("ebp"), None);
    assert_eq!(f1.module.as_ref().unwrap().code_file, "module2");
}

#[test]
fn a_caller_outside_every_module_is_taken_only_from_the_context_frame() {
    let f = TestFixture::new();
    let base = 0x7000_0000u64;
    let mut bytes = Vec::new();
    // frame 0 -> caller at 0x9000_0000 (no module), frame at base + 16
    bytes.extend_from_slice(&(base + 16).to_le_bytes());
    bytes.extend_from_slice(&0x9000_0000u64.to_le_bytes());
    // frame 1 -> caller at 0x9000_1000 (no module), frame at base + 32
    bytes.extend_from_slice(&(base + 32).to_le_bytes());
    bytes.extend_from_slice(&0x9000_1000u64.to_le_bytes());
    bytes.extend_from_slice(&0u64.to_le_bytes());
    bytes.extend_from_slice(&0u64.to_le_bytes());
    let stack = MemoryRegion {
        base_address: base,
        bytes,
        endian: Endian::Little,
    };
    let mut context = MinidumpContext::new(Cpu::X86_64);
    context.set_register("rip", 0x4000_0500).unwrap();
    context.set_register("rsp", base - 8).unwrap();
    context.set_register("rbp", base).unwrap();
    let s = walk_stack(
        Some(&context),
        Some(&stack),
        &f.modules,
        &system_info(Cpu::X86_64),
        &f.symbolizer,
    );
    assert_eq!(s.frames.len(), 2);
    assert!(s.frames[1].module.is_none());
    assert_eq!(s.frames[1].instruction, 0x8fff_ffff);
}

/// A provider with unwind rules and symbols for module1.
struct Rules;

impl SymbolProvider for Rules {
    fn fill_symbol(
        &self,
        module: &Module,
        instruction: u64,
    ) -> Result<FrameSymbols, FillSymbolError> {
        if module.code_file != "module1" {
            return Err(FillSymbolError {});
        }
        if instruction < 0x4000_1000 {
            return Ok(FrameSymbols {
                function: Some(FunctionSymbol {
                    name: "leaf".to_string(),
                    base: 0x4000_0000,
                    parameter_size: 4,
                }),
                source: Some(SourceLocation {
                    file: "leaf.c".to_string(),
                    line: 7,
                    base: 0x4000_0100,
                }),
                inlines: vec![InlineFrame {
                    function_name: "inlined".to_string(),
                    source_file_name: Some("inl.h".to_string()),
                    source_line: Some(3),
                }],
            });
        }
        Ok(FrameSymbols {
            function: None,
            source: None,
            inlines: vec![],
        })
    }

    fn walk_frame(&self, _module: &Module, walker: &mut CfiStackWalker<'_>) -> Option<()> {
        if walker.has_grand_callee() {
            return None;
        }
        assert_eq!(walker.get_grand_callee_parameter_size(), 0);
        let sp = walker.get_callee_register("rsp")?;
        let ra = walker.get_register_at_address(sp)?;
        assert_eq!(walker.get_instruction(), 0x4000_0500);
        walker.set_ra(ra)?;
        walker.set_cfa(sp + 8)?;
        walker.set_caller_register("r8", 88)?;
        assert_eq!(walker.set_caller_register("nope", 1), None);
        Some(())
    }

    fn get_file_path(&self, _module: &Module, _file_kind: FileKind) -> Result<String, FileError> {
        Err(FileError::NotFound)
    }

    fn stats(&self) -> Vec<(String, SymbolStats)> {
        Vec::new()
    }
}

#[test]
fn unwind_rules_come_first_and_keep_callee_saved_registers() {
    let f = TestFixture::new();
    let base = 0x7000_0000u64;
    let mut bytes = Vec::new();
    bytes.extend_from_slice(&0x4000_2000u64.to_le_bytes());
    bytes.extend_from_slice(&0u64.to_le_bytes());
    let stack = MemoryRegion {
        base_address: base,
        bytes,
        endian: Endian::Little,
    };
    let mut context = MinidumpContext::new(Cpu::X86_64);
    context.set_register("rip", 0x4000_0500).unwrap();
    context.set_register("rsp", base).unwrap();
    context.set_register("rbx", 0xb).unwrap();
    context.set_register("r12", 0x12).unwrap();
    context.set_register("rax", 0xa).unwrap();
    let s = walk_stack(
        Some(&context),
        Some(&stack),
        &f.modules,
        &system_info(Cpu::X86_64),
        &Rules,
    );
    assert_eq!(s.frames.len(), 2);
    let f0 = &s.frames[0];
    assert_eq!(f0.function_name.as_deref(), Some("leaf"));
    assert_eq!(f0.function_base, Some(0x4000_0000));
    assert_eq!(f0.parameter_size, Some(4));
    assert_eq!(f0.source_file_name.as_deref(), Some("leaf.c"));
    assert_eq!(f0.source_line, Some(7));
    assert_eq!(f0.source_line_base, Some(0x4000_0100));
    assert_eq!(f0.inlines.len(), 1);
    assert_eq!(f0.inlines[0].function_name, "inlined");
    let f1 = &s.frames[1];
    assert_eq!(f1.trust, FrameTrust::CallFrameInfo);
    assert_eq!(f1.instruction, 0x4000_1fff);
    assert_eq!(f1.context.get_register("rip"), Some(0x4000_2000));
    assert_eq!(f1.context.get_register("rsp"), Some(base + 8));
    assert_eq!(f1.context.get_register("r8"), Some(88));
    // Callee-saved registers come over from the callee.
    assert_eq!(f1.context.get_register("rbx"), Some(0xb));
    assert_eq!(f1.context.get_register("r12"), Some(0x12));
    // Scratch registers do not.
    assert_eq!(f1.context.get_register("rax"), None);
    assert!(f1.function_name.is_none());
    assert!(f1.inlines.is_empty());
}

#[test]
fn trust_is_ordered() {
    assert!(FrameTrust::Context > FrameTrust::CallFrameInfo);
    assert!(FrameTrust::CallFrameInfo > FrameTrust::FramePointer);
    assert!(FrameTrust::FramePointer > FrameTrust::Scan);
    assert!(FrameTrust::Scan > FrameTrust::Prewalked);
    assert_eq!(FrameTrust::Context.rank(), 4);
    assert_eq!(FrameTrust::Prewalked.rank(), 0);
    assert_eq!(FrameTrust::Scan.description(), "stack scanning");
}

#[test]
fn the_frame_pointer_of_arm_depends_on_the_system() {
    let modules = ModuleList::from_modules(vec![Module::new(0x40000000, 0x10000, "module1")]);
    let base = 0x8000_0000u64;
    let mut bytes = Vec::new();
    // At base: a frame for r11; at base + 8: a frame for r7.
    bytes.extend_from_slice(&0u32.to_le_bytes());
    bytes.extend_from_slice(&0x4000_1001u32.to_le_bytes());
    bytes.extend_from_slice(&0u32.to_le_bytes());
    bytes.extend_from_slice(&0x4000_2001u32.to_le_bytes());
    let stack = MemoryRegion {
        base_address: base,
        bytes,
        endian: Endian::Little,
    };
    let mut context = MinidumpContext::new(Cpu::Arm);
    context.set_register("pc", 0x4000_0100).unwrap();
    context.set_register("sp", base - 4).unwrap();
    context.set_register("r11", base).unwrap();
    context.set_register("r7", base + 8).unwrap();
    assert_eq!(context.get_frame_pointer(Os::Linux), Some(base));
    assert_eq!(context.get_frame_pointer(Os::Ios), Some(base + 8));
    assert_eq!(MinidumpContext::new(Cpu::Ppc).get_frame_pointer(Os::Linux), None);

    let mut info = system_info(Cpu::Arm);
    info.os = Os::Linux;
    let s = walk_stack(Some(&context), Some(&stack), &modules, &info, &Symbolizer);
    // The second frame has no frame to go on from: the third is found by
    // scanning the rest of the stack.
    assert_eq!(s.frames.len(), 3);
    assert_eq!(s.frames[1].trust, FrameTrust::FramePointer);
    assert_eq!(s.frames[1].instruction, 0x4000_1000);
    assert_eq!(s.frames[1].context.get_register("sp"), Some(base + 8));
    assert_eq!(s.frames[1].context.get_register("r11"), Some(0));
    assert_eq!(s.frames[2].trust, FrameTrust::Scan);
    assert_eq!(s.frames[2].instruction, 0x4000_2000);
    assert_eq!(s.frames[2].context.get_register("sp"), Some(base + 16));

    info.os = Os::Ios;
    let s = walk_stack(Some(&context), Some(&stack), &modules, &info, &Symbolizer);
    assert_eq!(s.frames.len(), 2);
    assert_eq!(s.frames[1].trust, FrameTrust::FramePointer);
    assert_eq!(s.frames[1].instruction, 0x4000_2000);
    assert_eq!(s.frames[1].context.get_register("sp"), Some(base + 16));
    assert_eq!(s.frames[1].context.get_register("r7"), Some(0));
    assert_eq!(s.frames[1].context.get_register("r11"), None);
}

#[test]
fn the_walker_for_unwind_rules_starts_from_callee_saved_registers() {
    let mut context = MinidumpContext::empty(Cpu::X86_64);
    context.set_register("rip", 0x4000_0500).unwrap();
    context.set_register("rbx", 0xb).unwrap();
    context.set_register("rax", 0xa).unwrap();
    context.set_register("r15", 0xf).unwrap();
    let callee = StackFrame::from_context(context, FrameTrust::Context);
    let mut grand = StackFrame::from_context(context, FrameTrust::Context);
    grand.parameter_size = Some(12);
    let stack = MemoryRegion {
        base_address: 0x100,
        bytes: vec![0; 8],
        endian: Endian::Little,
    };
    let walker = cfi_walker_for(&callee, Some(&grand), Some(&stack));
    assert_eq!(walker.get_instruction(), 0x4000_0500);
    assert!(walker.has_grand_callee());
    assert_eq!(walker.get_grand_callee_parameter_size(), 12);
    assert_eq!(walker.callee_ctx, context);
    assert_eq!(walker.stack_memory, Some(&stack));
    assert_eq!(walker.caller_ctx.get_register("rbx"), Some(0xb));
    assert_eq!(walker.caller_ctx.get_register("r15"), Some(0xf));
    assert_eq!(walker.caller_ctx.get_register("rax"), None);
    assert_eq!(walker.caller_ctx.get_register("rip"), None);
    assert_eq!(walker.caller_ctx.get_register("rbp"), None);
    assert_eq!(walker.caller_ctx.get_register("r12"), None);

    let walker = cfi_walker_for(&callee, None, None);
    assert!(!walker.has_grand_callee());
    assert_eq!(walker.get_grand_callee_parameter_size(), 0);
    assert_eq!(walker.stack_memory, None);
}

#[test]
fn unwind_rules_give_a_caller_only_with_both_pointers() {
    let context = MinidumpContext::new(Cpu::X86_64);
    let callee = StackFrame::from_context(context, FrameTrust::Context);
    let mut walker = cfi_walker_for(&callee, None, None);
    assert_eq!(caller_from_rules(Some(()), &walker, Cpu::X86_64, Os::Linux), None);
    walker.set_ra(0x10).unwrap();
    assert_eq!(caller_from_rules(Some(()), &walker, Cpu::X86_64, Os::Linux), None);
    walker.set_cfa(0x20).unwrap();
    let caller = caller_from_rules(Some(()), &walker, Cpu::X86_64, Os::Linux).unwrap();
    assert_eq!(caller, walker.caller_ctx);
    assert_eq!(caller.get_register("rip"), Some(0x10));
    assert_eq!(caller.get_register("rsp"), Some(0x20));
    // The provider found no rules.
    assert_eq!(caller_from_rules(None, &walker, Cpu::X86_64, Os::Linux), None);
    // The caller is of another processor than the callee.
    assert_eq!(caller_from_rules(Some(()), &walker, Cpu::Arm64, Os::Linux), None);
    assert_eq!(caller_from_rules(Some(()), &walker, Cpu::Ppc, Os::Linux), None);
}

#[test]
fn a_return_address_has_its_call_in_a_module() {
    let modules = ModuleList::from_modules(vec![
        Module::new(0x40000000, 0x10000, "module1"),
        Module::new(0x50000000, 0x10000, "module2"),
    ]);
    assert_eq!(
        call_site_module(0x40000001, &modules).unwrap().code_file,
        "module1"
    );
    assert_eq!(
        call_site_module(0x5000ffff, &modules).unwrap().code_file,
        "module2"
    );
    // The address before the first of a module lies in none.
    assert!(call_site_module(0x40000000, &modules).is_none());
    assert!(call_site_module(0x40010000, &modules).is_none());
    assert!(call_site_module(0, &modules).is_none());
    assert!(call_site_module(0x1234, &modules).is_none());
    assert!(call_site_module(0x40000001, &ModuleList::new()).is_none());

    assert!(call_site_plausible(&Err(FillSymbolError {})));
    assert!(!call_site_plausible(&Ok(FrameSymbols {
        function: None,
        source: None,
        inlines: vec![],
    })));
    assert!(call_site_plausible(&Ok(FrameSymbols {
        function: Some(FunctionSymbol {
            name: "f".to_string(),
            base: 0x40000000,
            parameter_size: 0,
        }),
        source: None,
        inlines: vec![],
    })));
}

#[test]
fn a_scan_passes_over_what_the_symbols_reject() {
    // module1 has symbols that name no function at 0x40002000 and above, so
    // the first word is passed over; module2 has no symbols, and is taken.
    let modules = ModuleList::from_modules(vec![
        Module::new(0x40000000, 0x10000, "module1"),
        Module::new(0x50000000, 0x10000, "module2"),
    ]);
    let mut context = MinidumpContext::empty(Cpu::X86);
    context.set_register("eip", 0x9000_0000).unwrap();
    context.set_register("esp", 0x8000_0000).unwrap();
    let mut bytes = Vec::new();
    bytes.extend_from_slice(&0x4000_3000u32.to_le_bytes());
    bytes.extend_from_slice(&0x5000_0010u32.to_le_bytes());
    let stack = MemoryRegion {
        base_address: 0x8000_0000,
        bytes,
        endian: Endian::Little,
    };
    let s = walk_stack(
        Some(&context),
        Some(&stack),
        &modules,
        &system_info(Cpu::X86),
        &Rules,
    );
    assert_eq!(s.frames.len(), 2);
    assert_eq!(s.frames[1].trust, FrameTrust::Scan);
    assert_eq!(s.frames[1].instruction, 0x5000_000f);
    assert_eq!(s.frames[1].context.get_register("esp"), Some(0x8000_0008));
}
