//! Byte strings as Linux hands them out: arbitrary bytes, usually but not
//! always UTF-8.
//!
//! [`LinuxOsStr`] is a borrowed view of such a string and [`LinuxOsString`]
//! owns one.  The view of both is the sequence of their bytes, and every
//! operation is specified over that sequence.

use std::borrow::Cow;
use std::str::Utf8Error;
use vstd::prelude::*;
use vstd::slice::slice_subrange;
use vstd::utf8::{decode_utf8, valid_utf8};

verus! {

/// The error of `std::str::from_utf8`, carried through unchanged.
#[verifier::external_type_specification]
#[verifier::external_body]
pub struct ExUtf8Error(Utf8Error);

/// The characters that `String::from_utf8_lossy` yields for the given bytes.
pub uninterp spec fn utf8_lossy(bytes: Seq<u8>) -> Seq<char>;

/// `std::str::from_utf8`: succeeds exactly on valid UTF-8, and the string it
/// returns holds the characters that the bytes encode.
#[verifier::external_body]
fn str_from_utf8<'a>(bytes: &'a [u8]) -> (r: Result<&'a str, Utf8Error>)
    ensures
        r is Ok <==> valid_utf8(bytes@),
        r matches Ok(s) ==> s@ == decode_utf8(bytes@),
{
    std::str::from_utf8(bytes)
}

/// `String::from_utf8_lossy`: valid UTF-8 is decoded as it stands; what it
/// makes of other input is only named.
#[verifier::external_body]
fn string_from_utf8_lossy<'a>(bytes: &'a [u8]) -> (r: Cow<'a, str>)
    ensures
        r@ == utf8_lossy(bytes@),
        valid_utf8(bytes@) ==> r@ == decode_utf8(bytes@),
{
    String::from_utf8_lossy(bytes)
}

/// The ASCII whitespace bytes: space, tab, line feed, form feed and carriage
/// return.
pub open spec fn is_ascii_whitespace(b: u8) -> bool {
    b == 0x20 || b == 0x09 || b == 0x0a || b == 0x0c || b == 0x0d
}

/// Whether `b` separates pieces: it is the byte `sep`, or, where `sep` is
/// `None`, any ASCII whitespace.
pub open spec fn is_separator(sep: Option<u8>, b: u8) -> bool {
    match sep {
        Some(s) => b == s,
        None => is_ascii_whitespace(b),
    }
}

/// The length of the longest prefix of `s` all of whose bytes are separators
/// (`want`) or all of whose bytes are not (`!want`).
pub open spec fn run_len(s: Seq<u8>, sep: Option<u8>, want: bool) -> nat
    decreases s.len(),
{
    if s.len() == 0 || is_separator(sep, s[0]) != want {
        0
    } else {
        1 + run_len(s.drop_first(), sep, want)
    }
}

/// The length of the longest suffix of `s` all of whose bytes are separators
/// (`want`) or all of whose bytes are not (`!want`).
pub open spec fn run_len_back(s: Seq<u8>, sep: Option<u8>, want: bool) -> nat
    decreases s.len(),
{
    if s.len() == 0 || is_separator(sep, s.last()) != want {
        0
    } else {
        1 + run_len_back(s.drop_last(), sep, want)
    }
}

/// The pieces of `s` between separators, in order.  With `keep_empty` every
/// separator ends a piece, so `n` separators give `n + 1` pieces; without it
/// the empty pieces are left out.
pub open spec fn split_seq(s: Seq<u8>, sep: Option<u8>, keep_empty: bool) -> Seq<Seq<u8>>
    decreases s.len(),
{
    let n = run_len(s, sep, false) as int;
    let head = if keep_empty || n > 0 {
        seq![s.subrange(0, if n <= s.len() { n } else { s.len() as int })]
    } else {
        seq![]
    };
    if n >= s.len() {
        head
    } else {
        head + split_seq(s.subrange(n + 1, s.len() as int), sep, keep_empty)
    }
}

/// `s` without its leading and trailing ASCII whitespace.
pub open spec fn trim_seq(s: Seq<u8>) -> Seq<u8> {
    let a = run_len(s, None, true) as int;
    let b = run_len_back(s, None, true) as int;
    if a >= s.len() {
        Seq::empty()
    } else {
        s.subrange(a, s.len() - b)
    }
}

/// `run_len` is the one index with nothing but wanted bytes before it and an
/// unwanted byte, or the end, at it.
pub proof fn lemma_run_len(s: Seq<u8>, sep: Option<u8>, want: bool, i: int)
    requires
        0 <= i <= s.len(),
        forall|k: int| 0 <= k < i ==> is_separator(sep, #[trigger] s[k]) == want,
        i < s.len() ==> is_separator(sep, s[i]) != want,
    ensures
        run_len(s, sep, want) == i,
    decreases s.len(),
{
    if i > 0 {
        assert(is_separator(sep, s[0]) == want);
        let t = s.drop_first();
        assert forall|k: int| 0 <= k < i - 1 implies is_separator(sep, #[trigger] t[k]) == want by {
            assert(t[k] == s[k + 1]);
        }
        lemma_run_len(t, sep, want, i - 1);
    }
}

/// `run_len_back` counts from the end what `run_len` counts from the start.
pub proof fn lemma_run_len_back(s: Seq<u8>, sep: Option<u8>, want: bool, i: int)
    requires
        0 <= i <= s.len(),
        forall|k: int| s.len() - i <= k < s.len() ==> is_separator(sep, #[trigger] s[k]) == want,
        i < s.len() ==> is_separator(sep, s[s.len() - 1 - i]) != want,
    ensures
        run_len_back(s, sep, want) == i,
    decreases s.len(),
{
    if i > 0 {
        assert(is_separator(sep, s[s.len() - 1]) == want);
        let t = s.drop_last();
        assert forall|k: int| t.len() - (i - 1) <= k < t.len() implies is_separator(
            sep,
            #[trigger] t[k],
        ) == want by {
            assert(t[k] == s[k]);
        }
        lemma_run_len_back(t, sep, want, i - 1);
    }
}

/// Whether `b` is an ASCII whitespace byte.
pub fn byte_is_ascii_whitespace(b: u8) -> (r: bool)
    ensures
        r == is_ascii_whitespace(b),
{
    b == 0x20 || b == 0x09 || b == 0x0a || b == 0x0c || b == 0x0d
}

fn byte_is_separator(sep: Option<u8>, b: u8) -> (r: bool)
    ensures
        r == is_separator(sep, b),
{
    match sep {
        Some(s) => b == s,
        None => byte_is_ascii_whitespace(b),
    }
}

/// A borrowed Linux OS string.
#[derive(Debug, Clone, Copy, PartialOrd, Ord, Eq, PartialEq)]
pub struct LinuxOsStr<'a> {
    bytes: &'a [u8],
}

/// An owned Linux OS string.
#[derive(Debug, PartialOrd, Ord, Eq, PartialEq, Clone)]
pub struct LinuxOsString {
    bytes: Vec<u8>,
}

impl<'a> View for LinuxOsStr<'a> {
    type V = Seq<u8>;

    closed spec fn view(&self) -> Seq<u8> {
        self.bytes@
    }
}

impl View for LinuxOsString {
    type V = Seq<u8>;

    closed spec fn view(&self) -> Seq<u8> {
        self.bytes@
    }
}

/// The byte sequences of a list of strings.
pub open spec fn views(pieces: Seq<LinuxOsStr<'_>>) -> Seq<Seq<u8>> {
    pieces.map_values(|p: LinuxOsStr<'_>| p@)
}

impl<'a> LinuxOsStr<'a> {
    /// The empty string.
    pub fn new() -> (r: LinuxOsStr<'static>)
        ensures
            r@ == Seq::<u8>::empty(),
    {
        let empty: &'static [u8] = &[];
        assert(empty@ =~= Seq::<u8>::empty());
        LinuxOsStr { bytes: empty }
    }

    /// The string made of the given bytes.
    pub fn from_bytes(inner: &'a [u8]) -> (r: LinuxOsStr<'a>)
        ensures
            r@ == inner@,
    {
        LinuxOsStr { bytes: inner }
    }

    /// The bytes of the string.
    pub fn as_bytes(&self) -> (r: &'a [u8])
        ensures
            r@ == self@,
    {
        self.bytes
    }

    /// An owned copy of the string.
    pub fn to_owned(&self) -> (r: LinuxOsString)
        ensures
            r@ == self@,
    {
        LinuxOsString { bytes: vstd::slice::slice_to_vec(self.bytes) }
    }

    /// The string as UTF-8 text: `Ok` exactly when the bytes are valid UTF-8,
    /// and then the text they encode.
    pub fn to_str(&self) -> (r: Result<&'a str, Utf8Error>)
        ensures
            r is Ok <==> valid_utf8(self@),
            r matches Ok(s) ==> s@ == decode_utf8(self@),
    {
        str_from_utf8(self.bytes)
    }

    /// The string as text, with what is not UTF-8 replaced as
    /// `String::from_utf8_lossy` replaces it.
    pub fn to_string_lossy(&self) -> (r: Cow<'a, str>)
        ensures
            r@ == utf8_lossy(self@),
            valid_utf8(self@) ==> r@ == decode_utf8(self@),
    {
        string_from_utf8_lossy(self.bytes)
    }

    /// Splits at the first `separator`: what stands before it and what stands
    /// after it.  `None` exactly when the string holds no `separator`.
    pub fn split_once(&self, separator: u8) -> (r: Option<(LinuxOsStr<'a>, LinuxOsStr<'a>)>)
        ensures
            r is Some <==> self@.contains(separator),
            r matches Some((head, tail)) ==> {
                let i = run_len(self@, Some(separator), false) as int;
                &&& i < self@.len()
                &&& self@[i] == separator
                &&& !head@.contains(separator)
                &&& head@ == self@.subrange(0, i)
                &&& tail@ == self@.subrange(i + 1, self@.len() as int)
            },
    {
        let n = self.bytes.len();
        let mut i: usize = 0;
        while i < n
            invariant
                n == self.bytes@.len(),
                i <= n,
                forall|k: int| 0 <= k < i ==> #[trigger] self.bytes@[k] != separator,
            decreases n - i,
        {
            if self.bytes[i] == separator {
                proof {
                    lemma_run_len(self@, Some(separator), false, i as int);
                }
                let head = LinuxOsStr { bytes: slice_subrange(self.bytes, 0, i) };
                let tail = LinuxOsStr { bytes: slice_subrange(self.bytes, i + 1, n) };
                return Some((head, tail));
            }
            i += 1;
        }
        None
    }

    /// Splits at the last `separator`: what stands before it and what stands
    /// after it.  `None` exactly when the string holds no `separator`.
    pub fn rsplit_once(&self, separator: u8) -> (r: Option<(LinuxOsStr<'a>, LinuxOsStr<'a>)>)
        ensures
            r is Some <==> self@.contains(separator),
            r matches Some((head, tail)) ==> {
                let i = self@.len() - 1 - run_len_back(self@, Some(separator), false);
                &&& 0 <= i
                &&& self@[i] == separator
                &&& !tail@.contains(separator)
                &&& head@ == self@.subrange(0, i)
                &&& tail@ == self@.subrange(i + 1, self@.len() as int)
            },
    {
        let n = self.bytes.len();
        let mut i: usize = n;
        while i > 0
            invariant
                n == self.bytes@.len(),
                i <= n,
                forall|k: int| i <= k < n ==> #[trigger] self.bytes@[k] != separator,
            decreases i,
        {
            i -= 1;
            if self.bytes[i] == separator {
                proof {
                    lemma_run_len_back(self@, Some(separator), false, n - 1 - i);
                }
                let head = LinuxOsStr { bytes: slice_subrange(self.bytes, 0, i) };
                let tail = LinuxOsStr { bytes: slice_subrange(self.bytes, i + 1, n) };
                return Some((head, tail));
            }
        }
        None
    }

    /// The pieces between separators, in order.
    fn split_where(&self, sep: Option<u8>, keep_empty: bool) -> (r: Vec<LinuxOsStr<'a>>)
        ensures
            views(r@) == split_seq(self@, sep, keep_empty),
    {
        let n = self.bytes.len();
        let mut out: Vec<LinuxOsStr<'a>> = Vec::new();
        let mut start: usize = 0;
        let mut i: usize = 0;
        assert(self@.subrange(0, n as int) =~= self@);
        assert(views(out@) =~= Seq::<Seq<u8>>::empty());
        while i < n
            invariant
                n == self.bytes@.len(),
                start <= i <= n,
                forall|k: int| start <= k < i ==> !is_separator(sep, #[trigger] self.bytes@[k]),
                split_seq(self@, sep, keep_empty) == views(out@) + split_seq(
                    self@.subrange(start as int, n as int),
                    sep,
                    keep_empty,
                ),
            decreases n - i,
        {
            if byte_is_separator(sep, self.bytes[i]) {
                let ghost rest = self@.subrange(start as int, n as int);
                let ghost before = views(out@);
                proof {
                    assert forall|k: int| 0 <= k < i - start implies !is_separator(
                        sep,
                        #[trigger] rest[k],
                    ) by {
                        assert(rest[k] == self.bytes@[start + k]);
                    }
                    lemma_run_len(rest, sep, false, i - start);
                    assert(rest.subrange(0, i - start) =~= self@.subrange(start as int, i as int));
                    assert(rest.subrange(i - start + 1, rest.len() as int) =~= self@.subrange(
                        i + 1,
                        n as int,
                    ));
                }
                if keep_empty || i > start {
                    out.push(LinuxOsStr { bytes: slice_subrange(self.bytes, start, i) });
                    assert(views(out@) =~= before + seq![self@.subrange(start as int, i as int)]);
                }
                start = i + 1;
            }
            i += 1;
        }
        let ghost rest = self@.subrange(start as int, n as int);
        let ghost before = views(out@);
        proof {
            assert forall|k: int| 0 <= k < n - start implies !is_separator(
                sep,
                #[trigger] rest[k],
            ) by {
                assert(rest[k] == self.bytes@[start + k]);
            }
            lemma_run_len(rest, sep, false, n - start);
            assert(rest.subrange(0, rest.len() as int) =~= rest);
        }
        if keep_empty || n > start {
            out.push(LinuxOsStr { bytes: slice_subrange(self.bytes, start, n) });
            assert(views(out@) =~= before + seq![rest]);
        }
        out
    }

    /// The pieces between the occurrences of `separator`, in order: one more
    /// piece than there are separators.
    pub fn split(&self, separator: u8) -> (r: Vec<LinuxOsStr<'a>>)
        ensures
            views(r@) == split_seq(self@, Some(separator), true),
    {
        self.split_where(Some(separator), true)
    }

    /// The maximal runs of bytes that are not ASCII whitespace, in order.
    pub fn split_ascii_whitespace(&self) -> (r: Vec<LinuxOsStr<'a>>)
        ensures
            views(r@) == split_seq(self@, None, false),
    {
        self.split_where(None, false)
    }

    /// The lines of the string: its pieces between line feeds.  A carriage
    /// return is left where it is.
    pub fn lines(&self) -> (r: Vec<LinuxOsStr<'a>>)
        ensures
            views(r@) == split_seq(self@, Some(0x0au8), true),
    {
        self.split(0x0a)
    }

    /// The string without its leading and trailing ASCII whitespace; empty
    /// when it holds nothing else.
    pub fn trim_ascii_whitespace(&self) -> (r: LinuxOsStr<'a>)
        ensures
            r@ == trim_seq(self@),
    {
        let n = self.bytes.len();
        let mut first: usize = 0;
        while first < n && byte_is_ascii_whitespace(self.bytes[first])
            invariant
                n == self.bytes@.len(),
                first <= n,
                forall|k: int| 0 <= k < first ==> is_ascii_whitespace(#[trigger] self.bytes@[k]),
            decreases n - first,
        {
            first += 1;
        }
        proof {
            lemma_run_len(self@, None, true, first as int);
        }
        if first == n {
            return LinuxOsStr { bytes: slice_subrange(self.bytes, 0, 0) };
        }
        let mut end: usize = n;
        while end > first + 1 && byte_is_ascii_whitespace(self.bytes[end - 1])
            invariant
                n == self.bytes@.len(),
                first < end <= n,
                !is_ascii_whitespace(self.bytes@[first as int]),
                forall|k: int| end <= k < n ==> is_ascii_whitespace(#[trigger] self.bytes@[k]),
            decreases end,
        {
            end -= 1;
        }
        proof {
            lemma_run_len_back(self@, None, true, n - end);
        }
        LinuxOsStr { bytes: slice_subrange(self.bytes, first, end) }
    }
}

impl LinuxOsString {
    /// The string made of the given bytes.
    pub fn from_vec(vec: Vec<u8>) -> (r: Self)
        ensures
            r@ == vec@,
    {
        LinuxOsString { bytes: vec }
    }

    /// The empty string.
    pub fn new() -> (r: Self)
        ensures
            r@ == Seq::<u8>::empty(),
    {
        LinuxOsString { bytes: Vec::new() }
    }

    /// The string, borrowed.
    pub fn as_os_str(&self) -> (r: LinuxOsStr<'_>)
        ensures
            r@ == self@,
    {
        LinuxOsStr { bytes: self.bytes.as_slice() }
    }
}

impl Default for LinuxOsString {
    fn default() -> (r: Self)
        ensures
            r@ == Seq::<u8>::empty(),
    {
        LinuxOsString::new()
    }
}

} // verus!
