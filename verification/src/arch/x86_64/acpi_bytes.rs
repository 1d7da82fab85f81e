//! Reading ACPI structures out of a physical memory image: little endian
//! fields, signatures and checksums
use vstd::prelude::*;

verus! {

/// The bytes `[addr, addr + size)` lie inside the memory image
pub open spec fn in_image(mem: Seq<u8>, addr: int, size: int) -> bool {
    0 <= addr && 0 <= size && addr + size <= mem.len()
}

/// Little endian `u16` at `a`
pub open spec fn le_u16(mem: Seq<u8>, a: int) -> u16 {
    (mem[a] as u16 | (mem[a + 1] as u16) << 8u16) as u16
}

/// Little endian `u32` at `a`
pub open spec fn le_u32(mem: Seq<u8>, a: int) -> u32 {
    (mem[a] as u32 | (mem[a + 1] as u32) << 8u32 | (mem[a + 2] as u32) << 16u32 | (mem[a
        + 3] as u32) << 24u32) as u32
}

/// Little endian `u64` at `a`
pub open spec fn le_u64(mem: Seq<u8>, a: int) -> u64 {
    (le_u32(mem, a) as u64 | (le_u32(mem, a + 4) as u64) << 32u64) as u64
}

/// Wrapping sum of the `len` bytes that start at `start`
pub open spec fn byte_sum(mem: Seq<u8>, start: int, len: nat) -> u8
    decreases len,
{
    if len == 0 {
        0
    } else {
        ((byte_sum(mem, start, (len - 1) as nat) + mem[start + len - 1]) % 256) as u8
    }
}

/// The `len` bytes at `start` sum to zero, as the ACPI checksums require
pub open spec fn valid_checksum(mem: Seq<u8>, start: int, len: nat) -> bool {
    byte_sum(mem, start, len) == 0
}

/// The bytes at `a` are `sig`
pub open spec fn has_signature(mem: Seq<u8>, a: int, sig: Seq<u8>) -> bool {
    mem.subrange(a, a + sig.len()) == sig
}

/// Reads the byte at `a`
pub fn read_u8(mem: &[u8], a: u64) -> (r: u8)
    requires
        in_image(mem@, a as int, 1),
    ensures
        r == mem@[a as int],
{
    let n = mem.len();
    assert(n == mem@.len());
    mem[a as usize]
}

/// Reads the little endian `u16` at `a`
pub fn read_u16(mem: &[u8], a: u64) -> (r: u16)
    requires
        in_image(mem@, a as int, 2),
    ensures
        r == le_u16(mem@, a as int),
{
    let n = mem.len();
    assert(n == mem@.len());
    let i = a as usize;
    mem[i] as u16 | (mem[i + 1] as u16) << 8u16
}

/// Reads the little endian `u32` at `a`
pub fn read_u32(mem: &[u8], a: u64) -> (r: u32)
    requires
        in_image(mem@, a as int, 4),
    ensures
        r == le_u32(mem@, a as int),
{
    let n = mem.len();
    assert(n == mem@.len());
    let i = a as usize;
    mem[i] as u32 | (mem[i + 1] as u32) << 8u32 | (mem[i + 2] as u32) << 16u32 | (mem[i
        + 3] as u32) << 24u32
}

/// Reads the little endian `u64` at `a`
pub fn read_u64(mem: &[u8], a: u64) -> (r: u64)
    requires
        in_image(mem@, a as int, 8),
    ensures
        r == le_u64(mem@, a as int),
{
    let n = mem.len();
    assert(n == mem@.len());
    let low = read_u32(mem, a);
    let high = read_u32(mem, a + 4);
    low as u64 | (high as u64) << 32u64
}

/// Returns whether the bytes at `a` are `sig`
pub fn matches_signature(mem: &[u8], a: u64, sig: &[u8]) -> (r: bool)
    requires
        in_image(mem@, a as int, sig@.len() as int),
    ensures
        r == has_signature(mem@, a as int, sig@),
{
    let n = mem.len();
    assert(n == mem@.len());
    let start = a as usize;
    let mut j: usize = 0;
    while j < sig.len()
        invariant
            in_image(mem@, a as int, sig@.len() as int),
            start == a,
            n == mem@.len(),
            j <= sig@.len(),
            forall|k: int| 0 <= k < j ==> mem@[start + k] == sig@[k],
        decreases sig@.len() - j,
    {
        if mem[start + j] != sig[j] {
            assert(mem@.subrange(a as int, a + sig@.len())[j as int] != sig@[j as int]);
            return false;
        }
        j = j + 1;
    }
    assert(mem@.subrange(a as int, a + sig@.len()) =~= sig@);
    true
}

/// Validates the ACPI checksum of the `len` bytes at `start`
pub fn is_valid_checksum(mem: &[u8], start: u64, len: u32) -> (r: bool)
    requires
        in_image(mem@, start as int, len as int),
    ensures
        r == valid_checksum(mem@, start as int, len as nat),
{
    let n = mem.len();
    assert(n == mem@.len());
    let base = start as usize;
    let mut sum: u8 = 0;
    let mut i: u32 = 0;
    while i < len
        invariant
            in_image(mem@, start as int, len as int),
            base == start,
            n == mem@.len(),
            i <= len,
            sum == byte_sum(mem@, start as int, i as nat),
        decreases len - i,
    {
        sum = sum.wrapping_add(mem[base + i as usize]);
        i = i + 1;
    }
    sum == 0
}

} // verus!
