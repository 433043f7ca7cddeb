//! The memory that a snapshot captured: regions of bytes at known addresses,
//! and reads of integers from them.

use vstd::prelude::*;

verus! {

/// The byte order of the machine that a snapshot was taken on.
#[derive(Clone, Copy, Debug, PartialEq, Eq, Structural)]
pub enum Endian {
    Little,
    Big,
}

/// The unsigned integer that `bytes` encode, least significant byte first.
pub open spec fn unsigned_le(bytes: Seq<u8>) -> nat
    decreases bytes.len(),
{
    if bytes.len() == 0 {
        0
    } else {
        bytes[0] as nat + 256 * unsigned_le(bytes.drop_first())
    }
}

/// The unsigned integer that `bytes` encode in the given byte order.
pub open spec fn unsigned_value(bytes: Seq<u8>, endian: Endian) -> nat {
    match endian {
        Endian::Little => unsigned_le(bytes),
        Endian::Big => unsigned_le(bytes.reverse()),
    }
}

/// A run of captured memory.
#[derive(Clone, Debug, PartialEq, Eq)]
pub struct MemoryRegion {
    /// The address of the first byte.
    pub base_address: u64,
    /// The bytes, in the order of their addresses.
    pub bytes: Vec<u8>,
    /// The byte order in which integers are read.
    pub endian: Endian,
}

/// The captured memory of a snapshot.
#[derive(Clone, Debug, PartialEq, Eq)]
pub struct MemoryList {
    /// The regions, in the order of the snapshot.
    pub regions: Vec<MemoryRegion>,
}

/// Four bytes make the sum of the bytes weighted by place, which is below
/// 2^32.
pub proof fn lemma_unsigned_le_4(bytes: Seq<u8>)
    requires
        bytes.len() == 4,
    ensures
        unsigned_le(bytes) == bytes[0] + 0x100 * bytes[1] + 0x1_0000 * bytes[2] + 0x100_0000
            * bytes[3],
        unsigned_le(bytes) <= u32::MAX,
{
    reveal_with_fuel(unsigned_le, 5);
    let a = bytes.drop_first();
    let b = a.drop_first();
    let c = b.drop_first();
    assert(c.drop_first().len() == 0);
}

/// Eight bytes make the sum of the bytes weighted by place, which is below
/// 2^64.
pub proof fn lemma_unsigned_le_8(bytes: Seq<u8>)
    requires
        bytes.len() == 8,
    ensures
        unsigned_le(bytes) == unsigned_le(bytes.subrange(0, 4)) + 0x1_0000_0000 * unsigned_le(
            bytes.subrange(4, 8),
        ),
        unsigned_le(bytes) <= u64::MAX,
{
    let low = bytes.subrange(0, 4);
    let high = bytes.subrange(4, 8);
    lemma_unsigned_le_4(low);
    lemma_unsigned_le_4(high);
    reveal_with_fuel(unsigned_le, 5);
    let a = bytes.drop_first();
    let b = a.drop_first();
    let c = b.drop_first();
    let d = c.drop_first();
    assert(d =~= high);
    assert(unsigned_le(bytes) == bytes[0] + 256 * (bytes[1] + 256 * (bytes[2] + 256 * (bytes[3]
        + 256 * unsigned_le(d)))));
}

/// The value of four bytes, least significant first.
fn compose_u32(b0: u8, b1: u8, b2: u8, b3: u8) -> (r: u32)
    ensures
        r == b0 + 0x100 * b1 + 0x1_0000 * b2 + 0x100_0000 * b3,
{
    b0 as u32 + 0x100 * (b1 as u32) + 0x1_0000 * (b2 as u32) + 0x100_0000 * (b3 as u32)
}

impl MemoryRegion {
    /// Whether the region holds the byte at `address`.
    pub open spec fn spec_contains(&self, address: u64) -> bool {
        self.base_address <= address && address - self.base_address < self.bytes@.len()
    }

    /// The `width` bytes at `address`, where the region holds all of them.
    pub open spec fn spec_bytes_at(&self, address: u64, width: nat) -> Option<Seq<u8>> {
        let offset = address - self.base_address;
        if self.base_address <= address && offset + width <= self.bytes@.len() {
            Some(self.bytes@.subrange(offset, offset + width))
        } else {
            None
        }
    }

    /// The unsigned integer of `width` bytes at `address`, in the region's
    /// byte order, where the region holds all of its bytes.
    pub open spec fn spec_read(&self, address: u64, width: nat) -> Option<nat> {
        match self.spec_bytes_at(address, width) {
            Some(bytes) => Some(unsigned_value(bytes, self.endian)),
            None => None,
        }
    }

    /// Whether the region holds the byte at `address`.
    pub fn contains(&self, address: u64) -> (r: bool)
        ensures
            r == self.spec_contains(address),
    {
        address >= self.base_address && address - self.base_address < self.bytes.len() as u64
    }

    /// The place in `bytes` of the byte at `address`, where `width` bytes
    /// from there on are held.
    fn offset_of(&self, address: u64, width: usize) -> (r: Option<usize>)
        requires
            width <= 8,
        ensures
            r is Some <==> self.spec_bytes_at(address, width as nat) is Some,
            r matches Some(o) ==> o == address - self.base_address && o + width
                <= self.bytes@.len() <= usize::MAX,
    {
        if address < self.base_address {
            return None;
        }
        let offset = address - self.base_address;
        let len = self.bytes.len();
        if len < width || offset > (len - width) as u64 {
            return None;
        }
        Some(offset as usize)
    }

    /// What `read_u32` yields: the integer of the four bytes at `address`.
    pub open spec fn spec_read_u32(&self, address: u64) -> Option<u32> {
        match self.spec_read(address, 4) {
            Some(v) => Some(v as u32),
            None => None,
        }
    }

    /// The 32-bit integer at `address`, where the region holds its four
    /// bytes.
    pub fn read_u32(&self, address: u64) -> (r: Option<u32>)
        ensures
            r == self.spec_read_u32(address),
            self.spec_read(address, 4) matches Some(v) ==> r == Some(v as u32) && v <= u32::MAX,
            self.spec_read(address, 4) is None ==> r is None,
    {
        let o = match self.offset_of(address, 4) {
            Some(o) => o,
            None => { return None; },
        };
        Some(self.word_at(o))
    }

    /// The 32-bit integer of the four bytes from place `o` on.
    fn word_at(&self, o: usize) -> (r: u32)
        requires
            o + 4 <= self.bytes@.len() <= usize::MAX,
        ensures
            r == unsigned_value(self.bytes@.subrange(o as int, o + 4), self.endian),
    {
        let ghost bytes = self.bytes@.subrange(o as int, o + 4);
        let b = &self.bytes;
        match self.endian {
            Endian::Little => {
                proof {
                    lemma_unsigned_le_4(bytes);
                }
                compose_u32(b[o], b[o + 1], b[o + 2], b[o + 3])
            },
            Endian::Big => {
                proof {
                    lemma_unsigned_le_4(bytes.reverse());
                }
                compose_u32(b[o + 3], b[o + 2], b[o + 1], b[o])
            },
        }
    }

    /// The 64-bit integer at `address`, where the region holds its eight
    /// bytes.
    pub fn read_u64(&self, address: u64) -> (r: Option<u64>)
        ensures
            self.spec_read(address, 8) matches Some(v) ==> r == Some(v as u64) && v <= u64::MAX,
            self.spec_read(address, 8) is None ==> r is None,
    {
        let o = match self.offset_of(address, 8) {
            Some(o) => o,
            None => { return None; },
        };
        let ghost bytes = self.bytes@.subrange(o as int, o + 8);
        let ghost first = self.bytes@.subrange(o as int, o + 4);
        let ghost second = self.bytes@.subrange(o + 4, o + 8);
        let a = self.word_at(o);
        let b = self.word_at(o + 4);
        match self.endian {
            Endian::Little => {
                proof {
                    lemma_unsigned_le_8(bytes);
                    assert(bytes.subrange(0, 4) =~= first);
                    assert(bytes.subrange(4, 8) =~= second);
                }
                Some(a as u64 + 0x1_0000_0000 * (b as u64))
            },
            Endian::Big => {
                proof {
                    let r = bytes.reverse();
                    lemma_unsigned_le_8(r);
                    assert(r.subrange(0, 4) =~= second.reverse());
                    assert(r.subrange(4, 8) =~= first.reverse());
                }
                Some(b as u64 + 0x1_0000_0000 * (a as u64))
            },
        }
    }

    /// What `read_pointer` yields: the integer of `size` bytes at `address`,
    /// for a size of four or eight bytes.
    pub open spec fn spec_read_pointer(&self, address: u64, size: u64) -> Option<u64> {
        if size == 4 || size == 8 {
            match self.spec_read(address, size as nat) {
                Some(v) => Some(v as u64),
                None => None,
            }
        } else {
            None
        }
    }

    /// The pointer of `size` bytes at `address`.  `None` where the region
    /// does not hold all of its bytes, or `size` is neither four nor eight.
    pub fn read_pointer(&self, address: u64, size: u64) -> (r: Option<u64>)
        ensures
            r == self.spec_read_pointer(address, size),
            r matches Some(v) ==> size == 4 ==> v <= u32::MAX,
            r is Some ==> self.base_address <= address && address - self.base_address + size
                <= self.bytes@.len(),
    {
        if size == 4 {
            match self.read_u32(address) {
                Some(v) => Some(v as u64),
                None => None,
            }
        } else if size == 8 {
            self.read_u64(address)
        } else {
            None
        }
    }
}

/// The number of regions at the start of `regions` that do not hold
/// `address`: the place of the first that does, or their number.
pub open spec fn first_region(regions: Seq<MemoryRegion>, address: u64) -> nat
    decreases regions.len(),
{
    if regions.len() == 0 || regions[0].spec_contains(address) {
        0
    } else {
        1 + first_region(regions.drop_first(), address)
    }
}

/// `first_region` is the one index with regions before it that do not hold
/// the address and one that does, or the end, at it.
pub proof fn lemma_first_region(regions: Seq<MemoryRegion>, address: u64, i: int)
    requires
        0 <= i <= regions.len(),
        forall|k: int| 0 <= k < i ==> !(#[trigger] regions[k]).spec_contains(address),
        i < regions.len() ==> regions[i].spec_contains(address),
    ensures
        first_region(regions, address) == i,
    decreases regions.len(),
{
    if i > 0 {
        assert(!regions[0].spec_contains(address));
        let t = regions.drop_first();
        assert forall|k: int| 0 <= k < i - 1 implies !(#[trigger] t[k]).spec_contains(address) by {
            assert(t[k] == regions[k + 1]);
        }
        lemma_first_region(t, address, i - 1);
    }
}

/// The first of `regions` that holds the byte at `address`.
pub open spec fn region_at(regions: Seq<MemoryRegion>, address: u64) -> Option<MemoryRegion> {
    let i = first_region(regions, address) as int;
    if i < regions.len() {
        Some(regions[i])
    } else {
        None
    }
}

impl View for MemoryList {
    type V = Seq<MemoryRegion>;

    open spec fn view(&self) -> Seq<MemoryRegion> {
        self.regions@
    }
}

impl MemoryList {
    /// The first region of the list that holds the byte at `address`.
    pub open spec fn spec_memory_at_address(&self, address: u64) -> Option<MemoryRegion> {
        region_at(self.regions@, address)
    }

    /// A list of no regions.
    pub fn new() -> (r: Self)
        ensures
            r.regions@ == Seq::<MemoryRegion>::empty(),
    {
        MemoryList { regions: Vec::new() }
    }

    /// The first region of the list that holds the byte at `address`.  An
    /// address that no region holds gives `None`.
    pub fn memory_at_address(&self, address: u64) -> (r: Option<&MemoryRegion>)
        ensures
            r is Some <==> self.spec_memory_at_address(address) is Some,
            r matches Some(m) ==> Some(*m) == self.spec_memory_at_address(address)
                && m.spec_contains(address),
    {
        let n = self.regions.len();
        let mut i: usize = 0;
        while i < n
            invariant
                n == self.regions@.len(),
                i <= n,
                forall|k: int| 0 <= k < i ==> !(#[trigger] self.regions@[k]).spec_contains(address),
            decreases n - i,
        {
            if self.regions[i].contains(address) {
                proof {
                    lemma_first_region(self.regions@, address, i as int);
                }
                return Some(&self.regions[i]);
            }
            i += 1;
        }
        proof {
            lemma_first_region(self.regions@, address, n as int);
        }
        None
    }
}

} // verus!
