use minidump_processor::strings::byte_is_ascii_whitespace;
use minidump_processor::{LinuxOsStr, LinuxOsString};

fn s(bytes: &[u8]) -> LinuxOsStr<'_> {
    LinuxOsStr::from_bytes(bytes)
}

fn pieces<'a>(v: Vec<LinuxOsStr<'a>>) -> Vec<&'a [u8]> {
    v.into_iter().map(|p| p.as_bytes()).collect()
}

#[test]
fn empty_strings_are_empty() {
    assert_eq!(LinuxOsStr::new().as_bytes(), b"");
    assert_eq!(LinuxOsString::new().as_os_str().as_bytes(), b"");
    assert_eq!(LinuxOsString::default(), LinuxOsString::new());
    assert_eq!(
        LinuxOsString::from_vec(b"abc".to_vec()).as_os_str().as_bytes(),
        b"abc"
    );
    assert_eq!(s(b"abc").to_owned(), LinuxOsString::from_vec(b"abc".to_vec()));
    assert_eq!(s(b"abc"), s(b"abc"));
    assert!(s(b"abc") < s(b"abd"));
}

#[test]
fn to_str_takes_only_utf8() {
    assert_eq!(s(b"r-xp").to_str().unwrap(), "r-xp");
    assert_eq!(s("h\u{e9}llo".as_bytes()).to_str().unwrap(), "h\u{e9}llo");
    assert_eq!(s(b"").to_str().unwrap(), "");
    assert!(s(b"ab\xffcd").to_str().is_err());
    assert!(s(b"\xc3").to_str().is_err());
}

#[test]
fn to_string_lossy_replaces_what_is_not_utf8() {
    assert_eq!(s(b"plain").to_string_lossy(), "plain");
    assert_eq!(s(b"ab\xffcd").to_string_lossy(), "ab\u{fffd}cd");
    assert_eq!(s(b"").to_string_lossy(), "");
}

#[test]
fn split_once_splits_at_the_first_separator() {
    let (a, b) = s(b"key=value=more").split_once(b'=').unwrap();
    assert_eq!(a.as_bytes(), b"key");
    assert_eq!(b.as_bytes(), b"value=more");
    let (a, b) = s(b"=x").split_once(b'=').unwrap();
    assert_eq!(a.as_bytes(), b"");
    assert_eq!(b.as_bytes(), b"x");
    let (a, b) = s(b"x=").split_once(b'=').unwrap();
    assert_eq!(a.as_bytes(), b"x");
    assert_eq!(b.as_bytes(), b"");
    assert!(s(b"no separator").split_once(b'=').is_none());
    assert!(s(b"").split_once(b'=').is_none());
}

#[test]
fn rsplit_once_splits_at_the_last_separator() {
    let (a, b) = s(b"key=value=more").rsplit_once(b'=').unwrap();
    assert_eq!(a.as_bytes(), b"key=value");
    assert_eq!(b.as_bytes(), b"more");
    let (a, b) = s(b"=").rsplit_once(b'=').unwrap();
    assert_eq!(a.as_bytes(), b"");
    assert_eq!(b.as_bytes(), b"");
    assert!(s(b"none").rsplit_once(b'=').is_none());
}

#[test]
fn split_keeps_empty_pieces() {
    assert_eq!(pieces(s(b"a,b,,c").split(b',')), vec![&b"a"[..], b"b", b"", b"c"]);
    assert_eq!(pieces(s(b",a,").split(b',')), vec![&b""[..], b"a", b""]);
    assert_eq!(pieces(s(b"").split(b',')), vec![&b""[..]]);
    assert_eq!(pieces(s(b"abc").split(b',')), vec![&b"abc"[..]]);
    // As the slices of std do it.
    let input = b",x,,yz,";
    let expected: Vec<&[u8]> = input.split(|&b| b == b',').collect();
    assert_eq!(pieces(s(input).split(b',')), expected);
}

#[test]
fn lines_split_at_line_feeds_only() {
    assert_eq!(
        pieces(s(b"one\ntwo\r\n\nthree").lines()),
        vec![&b"one"[..], b"two\r", b"", b"three"]
    );
    assert_eq!(pieces(s(b"one\n").lines()), vec![&b"one"[..], b""]);
}

#[test]
fn split_ascii_whitespace_drops_empty_pieces() {
    assert_eq!(
        pieces(s(b"  a \t b\n\nc\x0c\rd  ").split_ascii_whitespace()),
        vec![&b"a"[..], b"b", b"c", b"d"]
    );
    assert!(s(b" \t\n").split_ascii_whitespace().is_empty());
    assert!(s(b"").split_ascii_whitespace().is_empty());
    assert_eq!(pieces(s(b"word").split_ascii_whitespace()), vec![&b"word"[..]]);
    // A vertical tab is no ASCII whitespace.
    assert_eq!(
        pieces(s(b"a\x0bb").split_ascii_whitespace()),
        vec![&b"a\x0bb"[..]]
    );
}

#[test]
fn trim_takes_whitespace_off_both_ends() {
    assert_eq!(s(b"  hello world \n").trim_ascii_whitespace().as_bytes(), b"hello world");
    assert_eq!(s(b"hello").trim_ascii_whitespace().as_bytes(), b"hello");
    assert_eq!(s(b"x ").trim_ascii_whitespace().as_bytes(), b"x");
    assert_eq!(s(b" x").trim_ascii_whitespace().as_bytes(), b"x");
    assert_eq!(s(b" \t\r\n\x0c").trim_ascii_whitespace().as_bytes(), b"");
    assert_eq!(s(b"").trim_ascii_whitespace().as_bytes(), b"");
    // Trimming twice is trimming once.
    let once = s(b"\t a b \t").trim_ascii_whitespace();
    assert_eq!(once.trim_ascii_whitespace(), once);
}

#[test]
fn ascii_whitespace_is_what_std_says() {
    for b in 0..=255u8 {
        assert_eq!(byte_is_ascii_whitespace(b), b.is_ascii_whitespace());
    }
}
