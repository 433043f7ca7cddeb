use minidump_processor::linux::{
    bytes_eq, cpu_microcode_version, linux_list_iter, linux_standard_base, parse_hex_u64,
    strip_quotes,
};
use minidump_processor::LinuxOsStr;

fn entries(bytes: &[u8], separator: u8) -> Vec<(&[u8], &[u8])> {
    linux_list_iter(bytes, separator)
        .into_iter()
        .map(|e| (e.key.as_bytes(), e.value.as_bytes()))
        .collect()
}

#[test]
fn lists_are_read_line_by_line() {
    let input = b"\nprocessor\t: 0\nmodel name : Some CPU @ 3.00GHz\n\nflags::a:b\nno separator\n";
    assert_eq!(
        entries(input, b':'),
        vec![
            (&b"processor"[..], &b"0"[..]),
            (b"model name", b"Some CPU @ 3.00GHz"),
            (b"flags", b":a:b"),
        ]
    );
    assert!(entries(b"", b':').is_empty());
    assert_eq!(entries(b"=", b'='), vec![(&b""[..], &b""[..])]);
}

#[test]
fn quotes_are_stripped_in_pairs() {
    let strip = |b: &'static [u8]| strip_quotes(LinuxOsStr::from_bytes(b)).as_bytes().to_vec();
    assert_eq!(strip(b"  \"hello\" "), b"hello");
    assert_eq!(strip(b"\"\""), b"");
    assert_eq!(strip(b"\""), b"\"");
    assert_eq!(strip(b"\"open"), b"\"open");
    assert_eq!(strip(b"close\""), b"close\"");
    assert_eq!(strip(b" plain "), b"plain");
    assert_eq!(strip(b"\" inner \""), b" inner ");
}

#[test]
fn hexadecimal_numbers_are_parsed_as_std_parses_them() {
    for text in [
        "0", "1e34a6789", "DEADbeef", "ffffffffffffffff", "10000000000000000", "", "+", "+1f",
        "-1", "0x10", "12 ", " 12", "g", "00000000000000000000001", "++1", "1_0",
    ] {
        assert_eq!(
            parse_hex_u64(text.as_bytes()),
            u64::from_str_radix(text, 16).ok(),
            "{:?}",
            text
        );
    }
    assert_eq!(parse_hex_u64(b"1e34a6789"), Some(0x1e34a6789));
    assert_eq!(parse_hex_u64(b"ffffffffffffffff"), Some(u64::MAX));
    assert_eq!(parse_hex_u64(b"10000000000000000"), None);
    assert_eq!(parse_hex_u64(b"\xff"), None);
}

#[test]
fn the_first_microcode_entry_counts() {
    let list = linux_list_iter(b"cpu : 1\nmicrocode : 0x1e\nmicrocode : 0x2f\n", b':');
    assert_eq!(cpu_microcode_version(&list), Some(0x1e));
    let list = linux_list_iter(b"microcode : 1e\nmicrocode : 0x2f\n", b':');
    assert_eq!(cpu_microcode_version(&list), None);
    let list = linux_list_iter(b"microcode : 0X1e\n", b':');
    assert_eq!(cpu_microcode_version(&list), None);
    let list = linux_list_iter(b"microcode : 0x\n", b':');
    assert_eq!(cpu_microcode_version(&list), None);
    let list = linux_list_iter(b"Microcode : 0x1\n", b':');
    assert_eq!(cpu_microcode_version(&list), None);
    let list = linux_list_iter(b"", b':');
    assert_eq!(cpu_microcode_version(&list), None);
}

#[test]
fn the_last_entry_for_a_field_counts() {
    let list = linux_list_iter(
        b"ID=first\nDISTRIB_ID=second\nVERSION_ID=\"22.04\"\nOTHER=x\nPRETTY_NAME=\"A \xff B\"\n",
        b'=',
    );
    let lsb = linux_standard_base(&list);
    assert_eq!(lsb.id, "second");
    assert_eq!(lsb.release, "22.04");
    assert_eq!(lsb.codename, "");
    assert_eq!(lsb.description, "A \u{fffd} B");
}

#[test]
fn byte_strings_compare_by_content() {
    assert!(bytes_eq(b"abc", b"abc"));
    assert!(bytes_eq(b"", b""));
    assert!(!bytes_eq(b"abc", b"abd"));
    assert!(!bytes_eq(b"abc", b"ab"));
}
