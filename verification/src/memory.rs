//! A model of the readable memory that the runtime address machinery works
//! over: a contiguous byte image mapped at a base address. The resolver and
//! the dispatch-table extractor read single bytes, little-endian double words
//! and little-endian quad words out of it.
use vstd::bytes::{spec_u16_from_le_bytes, spec_u32_from_le_bytes, spec_u64_from_le_bytes, u16_from_le_bytes, u32_from_le_bytes, u64_from_le_bytes};
use vstd::prelude::*;
use vstd::slice::slice_subrange;

verus! {

/// A byte image mapped at `base`. `bytes[i]` models the byte at address
/// `base + i`; nothing outside the image is readable.
pub struct MemoryImage {
    pub base: u64,
    pub bytes: Vec<u8>,
}

impl MemoryImage {
    /// Every address of the image fits in a machine word.
    pub open spec fn spec_wf(&self) -> bool {
        self.base + self.bytes@.len() <= u64::MAX + 1
    }

    /// The mathematical address `addr` names a byte inside the image.
    pub open spec fn spec_in_image_i(&self, addr: int) -> bool {
        self.base <= addr < self.base + self.bytes@.len()
    }

    /// All `n` bytes starting at the mathematical address `addr` lie inside
    /// the image.
    pub open spec fn spec_range_in_image_i(&self, addr: int, n: int) -> bool {
        self.base <= addr && addr + n <= self.base + self.bytes@.len()
    }

    /// The byte at the mathematical address `addr`.
    pub open spec fn spec_byte_at_i(&self, addr: int) -> u8 {
        self.bytes@[addr - self.base]
    }

    /// The little-endian 16-bit value at the mathematical address `addr`.
    pub open spec fn spec_word_at_i(&self, addr: int) -> u16 {
        spec_u16_from_le_bytes(self.bytes@.subrange(addr - self.base, addr - self.base + 2))
    }

    /// The little-endian 32-bit value at the mathematical address `addr`.
    pub open spec fn spec_dword_at_i(&self, addr: int) -> u32 {
        spec_u32_from_le_bytes(self.bytes@.subrange(addr - self.base, addr - self.base + 4))
    }

    /// The little-endian 64-bit value at the mathematical address `addr`.
    pub open spec fn spec_qword_at_i(&self, addr: int) -> u64 {
        spec_u64_from_le_bytes(self.bytes@.subrange(addr - self.base, addr - self.base + 8))
    }

    /// The address `addr` names a byte inside the image.
    pub open spec fn spec_in_image(&self, addr: u64) -> bool {
        self.base <= addr && addr - self.base < self.bytes@.len()
    }

    /// All `n` bytes starting at `addr` lie inside the image.
    pub open spec fn spec_range_in_image(&self, addr: u64, n: int) -> bool {
        self.base <= addr && addr - self.base + n <= self.bytes@.len()
    }

    /// The byte at address `addr`.
    pub open spec fn spec_byte_at(&self, addr: u64) -> u8 {
        self.bytes@[addr - self.base]
    }

    /// The little-endian 32-bit value whose first byte is at `addr`.
    pub open spec fn spec_dword_at(&self, addr: u64) -> u32 {
        spec_u32_from_le_bytes(self.bytes@.subrange(addr - self.base, addr - self.base + 4))
    }

    /// The little-endian 64-bit value whose first byte is at `addr`.
    pub open spec fn spec_qword_at(&self, addr: u64) -> u64 {
        spec_u64_from_le_bytes(self.bytes@.subrange(addr - self.base, addr - self.base + 8))
    }

    pub fn new(base: u64, bytes: Vec<u8>) -> (r: MemoryImage)
        ensures
            r.base == base,
            r.bytes@ == bytes@,
    {
        MemoryImage { base, bytes }
    }

    pub fn in_image(&self, addr: u64) -> (r: bool)
        ensures
            r == self.spec_in_image(addr),
    {
        self.base <= addr && addr - self.base < self.bytes.len() as u64
    }

    pub fn range_in_image(&self, addr: u64, n: u64) -> (r: bool)
        ensures
            r == self.spec_range_in_image(addr, n as int),
    {
        if self.base <= addr {
            let off = addr - self.base;
            let len = self.bytes.len() as u64;
            off <= len && n <= len - off
        } else {
            false
        }
    }

    pub fn byte_at(&self, addr: u64) -> (r: u8)
        requires
            self.spec_in_image(addr),
        ensures
            r == self.spec_byte_at(addr),
    {
        let l = self.bytes.len();
        proof {
            assert(addr - self.base < l);
        }
        self.bytes[(addr - self.base) as usize]
    }

    pub fn word_at(&self, addr: u64) -> (r: u16)
        requires
            self.spec_range_in_image(addr, 2),
        ensures
            r == self.spec_word_at_i(addr as int),
    {
        let l = self.bytes.len();
        proof {
            assert(addr - self.base + 2 <= l);
        }
        let off = (addr - self.base) as usize;
        let window = slice_subrange(self.bytes.as_slice(), off, off + 2);
        u16_from_le_bytes(window)
    }

    pub fn dword_at(&self, addr: u64) -> (r: u32)
        requires
            self.spec_range_in_image(addr, 4),
        ensures
            r == self.spec_dword_at(addr),
    {
        let l = self.bytes.len();
        proof {
            assert(addr - self.base + 4 <= l);
        }
        let off = (addr - self.base) as usize;
        let window = slice_subrange(self.bytes.as_slice(), off, off + 4);
        u32_from_le_bytes(window)
    }

    pub fn qword_at(&self, addr: u64) -> (r: u64)
        requires
            self.spec_range_in_image(addr, 8),
        ensures
            r == self.spec_qword_at(addr),
    {
        let l = self.bytes.len();
        proof {
            assert(addr - self.base + 8 <= l);
        }
        let off = (addr - self.base) as usize;
        let window = slice_subrange(self.bytes.as_slice(), off, off + 8);
        u64_from_le_bytes(window)
    }
}

/// The value of `b` read as a signed byte.
pub open spec fn spec_signed8(b: u8) -> int {
    if b < 0x80 {
        b as int
    } else {
        b - 0x100
    }
}

/// The value of `d` read as a signed double word.
pub open spec fn spec_signed32(d: u32) -> int {
    if d < 0x8000_0000 {
        d as int
    } else {
        d - 0x1_0000_0000
    }
}

/// The value of `b` read as a signed byte, as a machine integer.
pub fn signed8(b: u8) -> (r: i64)
    ensures
        r as int == spec_signed8(b),
{
    if b >= 0x80 {
        b as i64 - 0x100
    } else {
        b as i64
    }
}

/// The value of `d` read as a signed double word, as a machine integer.
pub fn signed32(d: u32) -> (r: i64)
    ensures
        r as int == spec_signed32(d),
{
    if d >= 0x8000_0000 {
        d as i64 - 0x1_0000_0000
    } else {
        d as i64
    }
}

} // verus!
