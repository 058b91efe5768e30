use vstd::prelude::*;
use vstd::bytes::{spec_u16_from_le_bytes, spec_u32_from_le_bytes, spec_u64_from_le_bytes, u16_from_le_bytes, u32_from_le_bytes, u64_from_le_bytes};
use vstd::slice::slice_subrange;

verus! {

/// The little-endian `u16` stored in `s` at `off`.
pub open spec fn le16(s: Seq<u8>, off: int) -> u16 {
    spec_u16_from_le_bytes(s.subrange(off, off + 2))
}

/// The little-endian `u32` stored in `s` at `off`.
pub open spec fn le32(s: Seq<u8>, off: int) -> u32 {
    spec_u32_from_le_bytes(s.subrange(off, off + 4))
}

/// The little-endian `u64` stored in `s` at `off`.
pub open spec fn le64(s: Seq<u8>, off: int) -> u64 {
    spec_u64_from_le_bytes(s.subrange(off, off + 8))
}

/// Reads the little-endian `u16` at `off`.
pub fn read_le_u16(data: &[u8], off: usize) -> (x: u16)
    requires
        off + 2 <= data.len(),
    ensures
        x == le16(data@, off as int),
{
    u16_from_le_bytes(slice_subrange(data, off, off + 2))
}

/// Reads the little-endian `u32` at `off`.
pub fn read_le_u32(data: &[u8], off: usize) -> (x: u32)
    requires
        off + 4 <= data.len(),
    ensures
        x == le32(data@, off as int),
{
    u32_from_le_bytes(slice_subrange(data, off, off + 4))
}

/// Reads the little-endian `u64` at `off`.
pub fn read_le_u64(data: &[u8], off: usize) -> (x: u64)
    requires
        off + 8 <= data.len(),
    ensures
        x == le64(data@, off as int),
{
    u64_from_le_bytes(slice_subrange(data, off, off + 8))
}

/// Copies the `N` bytes at `off` into an array.
pub fn read_array<const N: usize>(data: &[u8], off: usize) -> (a: [u8; N])
    requires
        off + N <= data.len(),
    ensures
        a@ == data@.subrange(off as int, off + N),
{
    let mut a = [0u8; N];
    let mut i: usize = 0;
    while i < N
        invariant
            i <= N,
            off + N <= data.len(),
            a@.len() == N,
            forall|k: int| 0 <= k < i ==> #[trigger] a@[k] == data@[off + k],
        decreases N - i,
    {
        a[i] = data[off + i];
        i = i + 1;
    }
    assert(a@ =~= data@.subrange(off as int, off + N));
    a
}

/// A vector of `n` zero bytes.
pub fn zeroed(n: usize) -> (v: Vec<u8>)
    ensures
        v@ == Seq::new(n as nat, |i: int| 0u8),
{
    let v = vec![0u8; n];
    assert(v@ =~= Seq::new(n as nat, |i: int| 0u8));
    v
}

} // verus!
