use minidump_processor::context::{find_register, register_count, register_name};
use minidump_processor::names::find_name;
use minidump_processor::{
    ContextValidity, Cpu, Endian, MemoryList, MemoryRegion, MinidumpContext, Module, ModuleKey,
    ModuleList,
};

#[test]
fn registers_are_found_by_name() {
    assert_eq!(find_register(Cpu::X86, "eip"), Some(0));
    assert_eq!(find_register(Cpu::X86, "efl"), Some(9));
    assert_eq!(find_register(Cpu::X86, "rip"), None);
    assert_eq!(find_register(Cpu::X86_64, "rsp"), Some(7));
    assert_eq!(find_register(Cpu::X86_64, "rip"), Some(16));
    assert_eq!(find_register(Cpu::X86_64, "eax"), None);
    assert_eq!(find_register(Cpu::Arm, "pc"), Some(15));
    assert_eq!(find_register(Cpu::Arm, "r11"), Some(11));
    assert_eq!(find_register(Cpu::Arm, "fp"), None);
    assert_eq!(find_register(Cpu::Arm64, "x28"), Some(28));
    assert_eq!(find_register(Cpu::Arm64, "fp"), Some(29));
    assert_eq!(find_register(Cpu::Arm64, "pc"), Some(32));
    assert_eq!(find_register(Cpu::Unknown, "pc"), None);
    for cpu in [Cpu::X86, Cpu::X86_64, Cpu::Arm, Cpu::Arm64, Cpu::Ppc, Cpu::Unknown] {
        for i in 0..register_count(cpu) {
            let name = register_name(cpu, i).unwrap();
            assert_eq!(find_register(cpu, name), Some(i));
        }
        assert_eq!(register_name(cpu, register_count(cpu)), None);
    }
    assert_eq!(register_count(Cpu::Arm64), 33);
    assert_eq!(find_name(&["a", "b", "a"], "a"), Some(0));
    assert_eq!(find_name(&["a", "b", "a"], "b"), Some(1));
    assert_eq!(find_name(&["a", "b"], "c"), None);
    assert_eq!(find_name(&[], "c"), None);
}

#[test]
fn reading_an_invalid_register_gives_nothing() {
    let mut context = MinidumpContext::empty(Cpu::X86_64);
    assert_eq!(context.get_register("rax"), None);
    assert_eq!(context.set_register("rax", 7), Some(()));
    assert_eq!(context.get_register("rax"), Some(7));
    assert_eq!(context.get_register("rbx"), None);
    assert_eq!(context.get_register("nothing"), None);
    assert_eq!(context.set_register("nothing", 7), None);
    assert!(context.is_register_valid_at(0));
    assert!(!context.is_register_valid_at(1));
    assert!(!context.is_register_valid_at(200));
    assert_eq!(context.get_register_at(0), Some(7));
    assert_eq!(context.get_register_at(17), None);
    // Writing never takes validity away.
    context.set_register("rbx", 1).unwrap();
    assert_eq!(context.get_register("rax"), Some(7));
    assert_eq!(context.get_register("rbx"), Some(1));
}

#[test]
fn a_fresh_context_is_all_zero_and_valid() {
    let context = MinidumpContext::new(Cpu::Arm64);
    assert_eq!(context.valid, ContextValidity::All);
    assert_eq!(context.get_register("x0"), Some(0));
    assert_eq!(context.get_register("sp"), Some(0));
    assert_eq!(context.get_instruction_pointer(), 0);
    assert_eq!(context.get_stack_pointer(), 0);
    assert_eq!(MinidumpContext::new(Cpu::Unknown).get_instruction_pointer(), 0);
}

#[test]
fn registers_of_32_bits_are_cut_to_32_bits() {
    let mut context = MinidumpContext::new(Cpu::X86);
    context.set_register("esp", 0x1_2345_6789).unwrap();
    assert_eq!(context.get_stack_pointer(), 0x2345_6789);
    context.set_register("eip", 0xffff_ffff).unwrap();
    assert_eq!(context.get_instruction_pointer(), 0xffff_ffff);
    let mut context = MinidumpContext::new(Cpu::X86_64);
    context.set_register("rsp", 0x1_2345_6789).unwrap();
    assert_eq!(context.get_stack_pointer(), 0x1_2345_6789);
    context.set_register("rip", u64::MAX).unwrap();
    assert_eq!(context.get_instruction_pointer(), u64::MAX);
    assert_eq!(Cpu::X86.pointer_size(), Some(4));
    assert_eq!(Cpu::Arm64.pointer_size(), Some(8));
    assert_eq!(Cpu::Unknown.pointer_size(), None);
}

fn region(endian: Endian) -> MemoryRegion {
    MemoryRegion {
        base_address: 0x1000,
        bytes: vec![0x01, 0x02, 0x03, 0x04, 0x05, 0x06, 0x07, 0x08, 0x09],
        endian,
    }
}

#[test]
fn reads_follow_the_byte_order() {
    let little = region(Endian::Little);
    assert_eq!(little.read_u32(0x1000), Some(0x0403_0201));
    assert_eq!(little.read_u32(0x1005), Some(0x0908_0706));
    assert_eq!(little.read_u64(0x1000), Some(0x0807_0605_0403_0201));
    assert_eq!(little.read_u64(0x1001), Some(0x0908_0706_0504_0302));
    assert_eq!(little.read_pointer(0x1000, 4), Some(0x0403_0201));
    assert_eq!(little.read_pointer(0x1000, 8), Some(0x0807_0605_0403_0201));
    assert_eq!(little.read_pointer(0x1000, 2), None);
    let big = region(Endian::Big);
    assert_eq!(big.read_u32(0x1000), Some(0x0102_0304));
    assert_eq!(big.read_u64(0x1001), Some(0x0203_0405_0607_0809));
}

#[test]
fn reads_outside_a_region_give_nothing() {
    let little = region(Endian::Little);
    assert_eq!(little.read_u32(0x0fff), None);
    assert_eq!(little.read_u32(0x1006), None);
    assert_eq!(little.read_u64(0x1002), None);
    assert_eq!(little.read_u64(u64::MAX), None);
    assert!(little.contains(0x1000));
    assert!(little.contains(0x1008));
    assert!(!little.contains(0x1009));
    assert!(!little.contains(0x0fff));
    let top = MemoryRegion {
        base_address: u64::MAX - 3,
        bytes: vec![1, 0, 0, 0],
        endian: Endian::Little,
    };
    assert!(top.contains(u64::MAX));
    assert_eq!(top.read_u32(u64::MAX - 3), Some(1));
    assert_eq!(top.read_u32(u64::MAX - 2), None);
}

#[test]
fn the_first_region_that_holds_an_address_is_found() {
    let list = MemoryList {
        regions: vec![
            MemoryRegion {
                base_address: 0x1000,
                bytes: vec![1; 16],
                endian: Endian::Little,
            },
            MemoryRegion {
                base_address: 0x1008,
                bytes: vec![2; 16],
                endian: Endian::Little,
            },
        ],
    };
    assert_eq!(list.memory_at_address(0x1008).unwrap().base_address, 0x1000);
    assert_eq!(list.memory_at_address(0x1010).unwrap().base_address, 0x1008);
    assert!(list.memory_at_address(0x1018).is_none());
    assert!(list.memory_at_address(0xfff).is_none());
    assert!(MemoryList::new().memory_at_address(0).is_none());
}

#[test]
fn modules_are_found_by_address() {
    let list = ModuleList::from_modules(vec![
        Module::new(0x40000000, 0x10000, "module1"),
        Module::new(0x50000000, 0x10000, "module2"),
    ]);
    assert_eq!(list.len(), 2);
    assert_eq!(list.module_at_address(0x40000000).unwrap().code_file, "module1");
    assert_eq!(list.module_at_address(0x4000ffff).unwrap().code_file, "module1");
    assert!(list.module_at_address(0x40010000).is_none());
    assert_eq!(list.module_at_address(0x50000001).unwrap().code_file, "module2");
    assert!(list.module_at_address(0).is_none());
    assert_eq!(list.get(1).unwrap().code_file, "module2");
    assert!(list.get(2).is_none());
    assert_eq!(list.clone(), list);
    assert_eq!(ModuleList::new().len(), 0);
    let module = list.get(0).unwrap();
    assert_eq!(module.base_address, 0x40000000);
    assert_eq!(module.size, 0x10000);
    assert_eq!(module.code_identifier, None);
    assert_eq!(module.debug_file, None);
    assert_eq!(module.debug_identifier, None);
    assert_eq!(module.clone(), *module);
    assert_eq!(ModuleKey::for_module(module), ModuleKey(0x40000000));
}

#[test]
fn overlapping_modules_are_left_out() {
    let list = ModuleList::from_modules(vec![
        Module::new(0x1000, 0x100, "a"),
        Module::new(0x10ff, 0x100, "overlaps a"),
        Module::new(0x1100, 0x100, "b"),
        Module::new(0x0f00, 0x101, "overlaps a from below"),
        Module::new(0x0f00, 0x100, "c"),
        Module::new(u64::MAX - 1, 0x100, "top"),
        Module::new(u64::MAX, 1, "overlaps top"),
    ]);
    let names: Vec<&str> = (0..list.len())
        .map(|i| list.get(i).unwrap().code_file.as_str())
        .collect();
    assert_eq!(names, vec!["a", "b", "c", "top"]);
    assert!(Module::new(0x1000, 0x100, "a").overlaps(&Module::new(0x10ff, 1, "b")));
    assert!(!Module::new(0x1000, 0x100, "a").overlaps(&Module::new(0x1100, 1, "b")));
    assert!(Module::new(u64::MAX, 1, "a").contains(u64::MAX));
    assert!(!Module::new(0x1000, 0, "a").contains(0x1000));
}
