//! The text files that a Linux snapshot carries beside its streams, such as
//! `/proc/cpuinfo` and `/etc/lsb-release`: lists of lines of a key, a
//! separator and a value.

use crate::process_state::LinuxStandardBase;
use crate::strings::{run_len, split_seq, trim_seq, utf8_lossy, views, LinuxOsStr};
use std::borrow::Cow;
use vstd::prelude::*;
use vstd::slice::slice_subrange;
use vstd::string::StringSliceAdditionalSpecFns;

verus! {

/// `s` without the whitespace round it and then, where what is left stands
/// in double quotes, without the quotes.
pub open spec fn strip_quotes_seq(s: Seq<u8>) -> Seq<u8> {
    let t = trim_seq(s);
    if t.len() >= 2 && t[0] == 0x22 && t.last() == 0x22 {
        t.subrange(1, t.len() - 1)
    } else {
        t
    }
}

/// The key and the value of a line: what stands before and after its first
/// separator, each stripped.  A line without a separator has neither.
pub open spec fn entry_of(line: Seq<u8>, separator: u8) -> Option<(Seq<u8>, Seq<u8>)> {
    if line.contains(separator) {
        let i = run_len(line, Some(separator), false) as int;
        Some(
            (
                strip_quotes_seq(line.subrange(0, i)),
                strip_quotes_seq(line.subrange(i + 1, line.len() as int)),
            ),
        )
    } else {
        None
    }
}

/// The entries of the first `n` lines, in order.
pub open spec fn entries_of(lines: Seq<Seq<u8>>, separator: u8, n: int) -> Seq<(Seq<u8>, Seq<u8>)>
    decreases n,
{
    if n <= 0 {
        Seq::empty()
    } else {
        let before = entries_of(lines, separator, n - 1);
        match entry_of(lines[n - 1], separator) {
            Some(entry) => before.push(entry),
            None => before,
        }
    }
}

/// The entries of a file: those of its lines, in order.
pub open spec fn linux_list(bytes: Seq<u8>, separator: u8) -> Seq<(Seq<u8>, Seq<u8>)> {
    let lines = split_seq(bytes, Some(0x0au8), true);
    entries_of(lines, separator, lines.len() as int)
}

/// A line of a list: its key and its value.
#[derive(Clone, Copy, Debug, PartialEq, Eq)]
pub struct LinuxListEntry<'a> {
    /// What stands before the separator.
    pub key: LinuxOsStr<'a>,
    /// What stands after it.
    pub value: LinuxOsStr<'a>,
}

/// The keys and values of the entries as sequences of bytes.
pub open spec fn entry_views(entries: Seq<LinuxListEntry<'_>>) -> Seq<(Seq<u8>, Seq<u8>)> {
    entries.map_values(|e: LinuxListEntry<'_>| (e.key@, e.value@))
}

/// The string without the whitespace round it and then, where what is left
/// stands in double quotes, without the quotes.
pub fn strip_quotes<'a>(input: LinuxOsStr<'a>) -> (r: LinuxOsStr<'a>)
    ensures
        r@ == strip_quotes_seq(input@),
{
    let trimmed = input.trim_ascii_whitespace();
    let bytes = trimmed.as_bytes();
    let n = bytes.len();
    if n >= 2 && bytes[0] == 0x22 && bytes[n - 1] == 0x22 {
        LinuxOsStr::from_bytes(slice_subrange(bytes, 1, n - 1))
    } else {
        trimmed
    }
}

/// The entries of a file of lines of a key, `separator` and a value.  Lines
/// without the separator are passed over.
pub fn linux_list_iter<'a>(bytes: &'a [u8], separator: u8) -> (r: Vec<LinuxListEntry<'a>>)
    ensures
        entry_views(r@) == linux_list(bytes@, separator),
{
    let input = LinuxOsStr::from_bytes(bytes);
    let lines = input.lines();
    let mut entries: Vec<LinuxListEntry<'a>> = Vec::new();
    let n = lines.len();
    let mut i: usize = 0;
    assert(entry_views(entries@) =~= Seq::empty());
    while i < n
        invariant
            n == lines@.len(),
            i <= n,
            views(lines@) == split_seq(bytes@, Some(0x0au8), true),
            entry_views(entries@) == entries_of(views(lines@), separator, i as int),
        decreases n - i,
    {
        let line = lines[i];
        assert(views(lines@)[i as int] == line@);
        let ghost before = entry_views(entries@);
        if let Some((label, value)) = line.split_once(separator) {
            let entry = LinuxListEntry { key: strip_quotes(label), value: strip_quotes(value) };
            entries.push(entry);
            assert(entry_views(entries@) =~= before.push((entry.key@, entry.value@)));
        }
        i += 1;
    }
    entries
}

/// The value of a hexadecimal digit.
pub open spec fn hex_digit(b: u8) -> Option<nat> {
    if 0x30 <= b <= 0x39 {
        Some((b - 0x30) as nat)
    } else if 0x61 <= b <= 0x66 {
        Some((b - 0x61 + 10) as nat)
    } else if 0x41 <= b <= 0x46 {
        Some((b - 0x41 + 10) as nat)
    } else {
        None
    }
}

/// The number that the hexadecimal digits of `s` write, where `s` is one
/// digit or more and nothing else.
pub open spec fn hex_number(s: Seq<u8>) -> Option<nat>
    decreases s.len(),
{
    if s.len() == 0 {
        None
    } else {
        match hex_digit(s.last()) {
            None => None,
            Some(d) => if s.len() == 1 {
                Some(d)
            } else {
                match hex_number(s.drop_last()) {
                    Some(v) => Some(v * 16 + d),
                    None => None,
                }
            },
        }
    }
}

/// The number below 2^64 that `s` writes in hexadecimal digits, with or
/// without a plus sign before them.
pub open spec fn parse_hex(s: Seq<u8>) -> Option<u64> {
    let digits = if s.len() > 0 && s[0] == 0x2b {
        s.drop_first()
    } else {
        s
    };
    match hex_number(digits) {
        Some(v) => if v <= u64::MAX {
            Some(v as u64)
        } else {
            None
        },
        None => None,
    }
}

/// The digits before a place in a hexadecimal number write a number that
/// is no greater.
pub proof fn lemma_hex_prefix(s: Seq<u8>, k: int)
    requires
        1 <= k <= s.len(),
        hex_number(s) is Some,
    ensures
        hex_number(s.subrange(0, k)) matches Some(p) && p <= hex_number(s)->0,
    decreases s.len() - k,
{
    if k == s.len() {
        assert(s.subrange(0, k) =~= s);
    } else {
        assert(s.drop_last().subrange(0, k) =~= s.subrange(0, k));
        lemma_hex_prefix(s.drop_last(), k);
    }
}

/// A hexadecimal number has only digits.
pub proof fn lemma_hex_digits(s: Seq<u8>, k: int)
    requires
        0 <= k < s.len(),
        hex_number(s) is Some,
    ensures
        hex_digit(s[k]) is Some,
    decreases s.len(),
{
    if k < s.len() - 1 {
        lemma_hex_digits(s.drop_last(), k);
    }
}

fn hex_digit_value(b: u8) -> (r: Option<u64>)
    ensures
        r is Some <==> hex_digit(b) is Some,
        r matches Some(d) ==> d == hex_digit(b)->0 && d < 16,
{
    if 0x30 <= b && b <= 0x39 {
        Some((b - 0x30) as u64)
    } else if 0x61 <= b && b <= 0x66 {
        Some((b - 0x61 + 10) as u64)
    } else if 0x41 <= b && b <= 0x46 {
        Some((b - 0x41 + 10) as u64)
    } else {
        None
    }
}

/// The number below 2^64 that `bytes` write in hexadecimal digits, with or
/// without a plus sign before them.  `None` for anything else: no digit, a
/// byte that is none, or a number too great.
pub fn parse_hex_u64(bytes: &[u8]) -> (r: Option<u64>)
    ensures
        r == parse_hex(bytes@),
{
    let n = bytes.len();
    let start: usize = if n > 0 && bytes[0] == 0x2b {
        1
    } else {
        0
    };
    let ghost digits = bytes@.subrange(start as int, n as int);
    assert(start == 1 ==> digits =~= bytes@.drop_first());
    assert(start == 0 ==> digits =~= bytes@);
    if start == n {
        return None;
    }
    let mut acc: u64 = 0;
    let mut i: usize = start;
    while i < n
        invariant
            start <= i <= n,
            start < n,
            n == bytes@.len(),
            digits == bytes@.subrange(start as int, n as int),
            parse_hex(bytes@) == (match hex_number(digits) {
                Some(v) => if v <= u64::MAX {
                    Some(v as u64)
                } else {
                    None
                },
                None => None,
            }),
            i > start ==> hex_number(digits.subrange(0, i - start)) == Some(acc as nat),
            i == start ==> acc == 0,
        decreases n - i,
    {
        let ghost prefix = digits.subrange(0, i - start);
        let ghost next = digits.subrange(0, i + 1 - start);
        assert(next.drop_last() =~= prefix);
        assert(next.last() == bytes@[i as int]);
        let d = match hex_digit_value(bytes[i]) {
            Some(d) => d,
            None => {
                proof {
                    if hex_number(digits) is Some {
                        lemma_hex_digits(digits, i - start);
                    }
                }
                return None;
            },
        };
        proof {
            if i > start {
                assert(hex_number(next) == Some((acc * 16 + d) as nat));
            } else {
                assert(hex_number(next) == Some(d as nat));
            }
            if hex_number(digits) is Some {
                lemma_hex_prefix(digits, i + 1 - start);
            }
        }
        let shifted = match acc.checked_mul(16) {
            Some(v) => v,
            None => { return None; },
        };
        acc = match shifted.checked_add(d) {
            Some(v) => v,
            None => { return None; },
        };
        i += 1;
    }
    assert(digits.subrange(0, n - start) =~= digits);
    Some(acc)
}

/// Whether two runs of bytes are the same.
pub fn bytes_eq(a: &[u8], b: &[u8]) -> (r: bool)
    ensures
        r == (a@ == b@),
{
    if a.len() != b.len() {
        return false;
    }
    let n = a.len();
    let mut i: usize = 0;
    while i < n
        invariant
            n == a@.len(),
            n == b@.len(),
            i <= n,
            forall|k: int| 0 <= k < i ==> a@[k] == b@[k],
        decreases n - i,
    {
        if a[i] != b[i] {
            return false;
        }
        i += 1;
    }
    assert(a@ =~= b@);
    true
}

/// The microcode version that a value of `/proc/cpuinfo` writes: a
/// hexadecimal number behind `0x`.
pub open spec fn microcode_value(value: Seq<u8>) -> Option<u64> {
    if value.len() >= 2 && value[0] == 0x30 && value[1] == 0x78 {
        parse_hex(value.subrange(2, value.len() as int))
    } else {
        None
    }
}

/// The microcode version that the entries of `/proc/cpuinfo` give: that of
/// the first entry whose key is `microcode`.
pub open spec fn microcode_of(entries: Seq<(Seq<u8>, Seq<u8>)>) -> Option<u64>
    decreases entries.len(),
{
    if entries.len() == 0 {
        None
    } else if entries[0].0 == "microcode".spec_bytes() {
        microcode_value(entries[0].1)
    } else {
        microcode_of(entries.drop_first())
    }
}

/// The microcode version of the processor, from the entries of
/// `/proc/cpuinfo`.
pub fn cpu_microcode_version(entries: &Vec<LinuxListEntry<'_>>) -> (r: Option<u64>)
    ensures
        r == microcode_of(entry_views(entries@)),
{
    let n = entries.len();
    let mut i: usize = 0;
    let ghost all = entry_views(entries@);
    assert(all.subrange(0, n as int) =~= all);
    while i < n
        invariant
            n == entries@.len(),
            i <= n,
            all == entry_views(entries@),
            microcode_of(all) == microcode_of(all.subrange(i as int, n as int)),
        decreases n - i,
    {
        let entry = &entries[i];
        let ghost rest = all.subrange(i as int, n as int);
        assert(rest[0] == (entry.key@, entry.value@));
        assert(rest.drop_first() =~= all.subrange(i + 1, n as int));
        if bytes_eq(entry.key.as_bytes(), "microcode".as_bytes()) {
            let value = entry.value.as_bytes();
            if value.len() >= 2 && value[0] == 0x30 && value[1] == 0x78 {
                return parse_hex_u64(slice_subrange(value, 2, value.len()));
            }
            return None;
        }
        i += 1;
    }
    None
}

/// What distinguishes a Linux distribution, as text.
pub struct LsbText {
    pub id: Seq<char>,
    pub release: Seq<char>,
    pub codename: Seq<char>,
    pub description: Seq<char>,
}

/// The text of a `LinuxStandardBase`.
pub open spec fn lsb_text(lsb: LinuxStandardBase) -> LsbText {
    LsbText {
        id: lsb.id@,
        release: lsb.release@,
        codename: lsb.codename@,
        description: lsb.description@,
    }
}

/// What the first `n` entries of `/etc/lsb-release` or `/etc/os-release` say
/// of the distribution.  Each field is the value of the last entry that
/// names it, under either of its two keys, and empty where none does.
pub open spec fn lsb_of(entries: Seq<(Seq<u8>, Seq<u8>)>, n: int) -> LsbText
    decreases n,
{
    if n <= 0 {
        LsbText {
            id: Seq::empty(),
            release: Seq::empty(),
            codename: Seq::empty(),
            description: Seq::empty(),
        }
    } else {
        let before = lsb_of(entries, n - 1);
        let key = entries[n - 1].0;
        let text = utf8_lossy(entries[n - 1].1);
        if key == "DISTRIB_ID".spec_bytes() || key == "ID".spec_bytes() {
            LsbText { id: text, ..before }
        } else if key == "DISTRIB_RELEASE".spec_bytes() || key == "VERSION_ID".spec_bytes() {
            LsbText { release: text, ..before }
        } else if key == "DISTRIB_CODENAME".spec_bytes() || key == "VERSION_CODENAME".spec_bytes() {
            LsbText { codename: text, ..before }
        } else if key == "DISTRIB_DESCRIPTION".spec_bytes() || key == "PRETTY_NAME".spec_bytes() {
            LsbText { description: text, ..before }
        } else {
            before
        }
    }
}

fn lossy_string(value: LinuxOsStr<'_>) -> (r: String)
    ensures
        r@ == utf8_lossy(value@),
{
    match value.to_string_lossy() {
        Cow::Borrowed(s) => s.to_owned(),
        Cow::Owned(s) => s,
    }
}

/// What the entries of `/etc/lsb-release` or `/etc/os-release` say of the
/// distribution.
pub fn linux_standard_base(entries: &Vec<LinuxListEntry<'_>>) -> (r: LinuxStandardBase)
    ensures
        lsb_text(r) == lsb_of(entry_views(entries@), entries@.len() as int),
{
    let mut lsb = LinuxStandardBase {
        id: String::new(),
        release: String::new(),
        codename: String::new(),
        description: String::new(),
    };
    let n = entries.len();
    let mut i: usize = 0;
    while i < n
        invariant
            n == entries@.len(),
            i <= n,
            lsb_text(lsb) == lsb_of(entry_views(entries@), i as int),
        decreases n - i,
    {
        let entry = &entries[i];
        assert(entry_views(entries@)[i as int] == (entry.key@, entry.value@));
        let key = entry.key.as_bytes();
        if bytes_eq(key, "DISTRIB_ID".as_bytes()) || bytes_eq(key, "ID".as_bytes()) {
            lsb.id = lossy_string(entry.value);
        } else if bytes_eq(key, "DISTRIB_RELEASE".as_bytes()) || bytes_eq(
            key,
            "VERSION_ID".as_bytes(),
        ) {
            lsb.release = lossy_string(entry.value);
        } else if bytes_eq(key, "DISTRIB_CODENAME".as_bytes()) || bytes_eq(
            key,
            "VERSION_CODENAME".as_bytes(),
        ) {
            lsb.codename = lossy_string(entry.value);
        } else if bytes_eq(key, "DISTRIB_DESCRIPTION".as_bytes()) || bytes_eq(
            key,
            "PRETTY_NAME".as_bytes(),
        ) {
            lsb.description = lossy_string(entry.value);
        }
        i += 1;
    }
    lsb
}

} // verus!
