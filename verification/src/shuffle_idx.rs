//! Decoding a shuffle index array from a constant's raw bytes.
//!
//! The index operand of a shuffle is a compile-time constant array of
//! unsigned 32-bit values, seen here as its raw byte representation. Each
//! index occupies four consecutive bytes, read in the target's byte order.
//! Keeping the decoding in one place keeps endianness handling in one place.

use vstd::prelude::*;

use crate::value::Endian;

verus! {

/// The unsigned 32-bit value of four bytes in the given byte order.
pub open spec fn spec_u32_of_bytes(e: Endian, b0: u8, b1: u8, b2: u8, b3: u8) -> u32 {
    match e {
        Endian::Little => (b0 + b1 * 0x100 + b2 * 0x1_0000 + b3 * 0x100_0000) as u32,
        Endian::Big => (b3 + b2 * 0x100 + b1 * 0x1_0000 + b0 * 0x100_0000) as u32,
    }
}

/// The `k`-th index of the array: the unsigned 32-bit value of bytes
/// `4k .. 4k + 4` in the given byte order.
pub open spec fn spec_index_at(e: Endian, bytes: Seq<u8>, k: int) -> u32
    recommends
        0 <= k,
        4 * k + 4 <= bytes.len(),
{
    spec_u32_of_bytes(e, bytes[4 * k], bytes[4 * k + 1], bytes[4 * k + 2], bytes[4 * k + 3])
}

/// The whole decoded index array of length `n`.
pub open spec fn spec_indices(e: Endian, bytes: Seq<u8>, n: int) -> Seq<u32>
    recommends
        0 <= n,
        4 * n <= bytes.len(),
{
    Seq::new(n as nat, |k: int| spec_index_at(e, bytes, k))
}

/// Decode the `k`-th unsigned 32-bit element of the constant's bytes.
pub fn read_u32_at(e: Endian, bytes: &Vec<u8>, k: usize) -> (r: u32)
    requires
        4 * k + 4 <= bytes@.len(),
    ensures
        r == spec_index_at(e, bytes@, k as int),
{
    let _len = bytes.len();
    let b0 = bytes[4 * k] as u32;
    let b1 = bytes[4 * k + 1] as u32;
    let b2 = bytes[4 * k + 2] as u32;
    let b3 = bytes[4 * k + 3] as u32;
    match e {
        Endian::Little => b0 + b1 * 0x100 + b2 * 0x1_0000 + b3 * 0x100_0000,
        Endian::Big => b3 + b2 * 0x100 + b1 * 0x1_0000 + b0 * 0x100_0000,
    }
}

/// Decode the first `n` unsigned 32-bit elements of the constant's bytes.
pub fn decode_indices(e: Endian, bytes: &Vec<u8>, n: u32) -> (r: Vec<u32>)
    requires
        4 * (n as int) <= bytes@.len(),
    ensures
        r@ == spec_indices(e, bytes@, n as int),
{
    let mut r: Vec<u32> = Vec::new();
    let mut k: usize = 0;
    while k < n as usize
        invariant
            k <= n as usize,
            4 * (n as int) <= bytes@.len(),
            r@.len() == k,
            forall|j: int| 0 <= j < k ==> r@[j] == spec_index_at(e, bytes@, j),
        decreases n as usize - k,
    {
        let v = read_u32_at(e, bytes, k);
        r.push(v);
        k += 1;
    }
    proof {
        assert(r@ =~= spec_indices(e, bytes@, n as int));
    }
    r
}

} // verus!
