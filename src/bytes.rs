//! Big-endian integers and byte ranges.
use vstd::prelude::*;

verus! {

/// The value of two bytes read as a big-endian unsigned integer.
pub open spec fn be_u16(hi: u8, lo: u8) -> int {
    hi as int * 256 + lo as int
}

/// The value of four bytes read as a big-endian unsigned integer.
pub open spec fn be_u32(b0: u8, b1: u8, b2: u8, b3: u8) -> int {
    b0 as int * 16777216 + b1 as int * 65536 + b2 as int * 256 + b3 as int
}

/// The big-endian `u32` stored at `at` in `s`.
pub open spec fn be_u32_at(s: Seq<u8>, at: int) -> int {
    be_u32(s[at], s[at + 1], s[at + 2], s[at + 3])
}

/// Reads the two bytes at `at` as a big-endian `u16`.
pub fn read_u16_be(b: &[u8], at: usize) -> (r: u16)
    requires
        at + 2 <= b@.len(),
    ensures
        r as int == be_u16(b@[at as int], b@[at + 1]),
{
    (b[at] as u16) * 256 + (b[at + 1] as u16)
}

/// Reads the four bytes at `at` as a big-endian `u32`.
pub fn read_u32_be(b: &[u8], at: usize) -> (r: u32)
    requires
        at + 4 <= b@.len(),
    ensures
        r as int == be_u32_at(b@, at as int),
{
    (b[at] as u32) * 16777216 + (b[at + 1] as u32) * 65536 + (b[at + 2] as u32) * 256 + (
    b[at + 3] as u32)
}

/// Copies `b[start..end]` into a new vector.
pub fn copy_range(b: &[u8], start: usize, end: usize) -> (r: Vec<u8>)
    requires
        start <= end <= b@.len(),
    ensures
        r@ == b@.subrange(start as int, end as int),
{
    let mut r: Vec<u8> = Vec::new();
    let mut i: usize = start;
    while i < end
        invariant
            start <= i <= end <= b@.len(),
            r@ == b@.subrange(start as int, i as int),
        decreases end - i,
    {
        r.push(b[i]);
        i = i + 1;
    }
    r
}

} // verus!
