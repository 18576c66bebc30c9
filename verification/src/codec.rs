//! Byte-level helpers for reading and writing record payloads.
//!
//! Record payloads are little-endian: these functions connect the executable
//! reads and writes to the `vstd::bytes` sequence model.

use vstd::prelude::*;

use vstd::bytes::{spec_u16_from_le_bytes, spec_u64_from_le_bytes, u16_from_le_bytes,
    u64_from_le_bytes, u64_to_le_bytes};
use vstd::slice::{slice_subrange, slice_to_vec};

verus! {

/// True when every byte of `s` is zero.
pub open spec fn all_zero_spec(s: Seq<u8>) -> bool {
    forall|i: int| 0 <= i < s.len() ==> s[i] == 0
}

/// Read the little-endian 64-bit value stored at `off`.
pub fn read_u64_le(data: &Vec<u8>, off: usize) -> (r: u64)
    requires
        off + 8 <= data.len(),
    ensures
        r == spec_u64_from_le_bytes(data@.subrange(off as int, off as int + 8)),
{
    u64_from_le_bytes(slice_subrange(data.as_slice(), off, off + 8))
}

/// Read the little-endian 16-bit value stored at `off`.
pub fn read_u16_le(data: &Vec<u8>, off: usize) -> (r: u16)
    requires
        off + 2 <= data.len(),
    ensures
        r == spec_u16_from_le_bytes(data@.subrange(off as int, off as int + 2)),
{
    u16_from_le_bytes(slice_subrange(data.as_slice(), off, off + 2))
}

/// Copy `len` bytes starting at `off` out of `data`.
pub fn read_bytes(data: &Vec<u8>, off: usize, len: usize) -> (r: Vec<u8>)
    requires
        off + len <= data.len(),
    ensures
        r@ == data@.subrange(off as int, off as int + len as int),
{
    slice_to_vec(slice_subrange(data.as_slice(), off, off + len))
}

/// Append every byte of `src` to `out`.
pub fn push_bytes(out: &mut Vec<u8>, src: &Vec<u8>)
    ensures
        final(out)@ == old(out)@ + src@,
{
    let mut i: usize = 0;
    while i < src.len()
        invariant
            i <= src@.len(),
            out@ == old(out)@ + src@.subrange(0, i as int),
        decreases src@.len() - i,
    {
        out.push(src[i]);
        proof {
            assert(src@.subrange(0, i + 1) == src@.subrange(0, i as int).push(src@[i as int]));
        }
        i = i + 1;
    }
    proof {
        assert(src@.subrange(0, src@.len() as int) == src@);
    }
}

/// Append the eight little-endian bytes of `v` to `out`.
pub fn push_u64_le(out: &mut Vec<u8>, v: u64)
    ensures
        final(out)@ == old(out)@ + vstd::bytes::spec_u64_to_le_bytes(v),
        final(out)@.len() == old(out)@.len() + 8,
{
    let bytes = u64_to_le_bytes(v);
    push_bytes(out, &bytes);
}

/// Append the two little-endian bytes of `v` to `out`.
pub fn push_u16_le(out: &mut Vec<u8>, v: u16)
    ensures
        final(out)@ == old(out)@ + vstd::bytes::spec_u16_to_le_bytes(v),
        final(out)@.len() == old(out)@.len() + 2,
{
    let bytes = vstd::bytes::u16_to_le_bytes(v);
    push_bytes(out, &bytes);
}

/// True iff the two byte vectors hold the same bytes.
pub fn bytes_equal(a: &Vec<u8>, b: &Vec<u8>) -> (r: bool)
    ensures
        r == (a@ == b@),
{
    if a.len() != b.len() {
        proof {
            assert(a@ != b@);
        }
        return false;
    }
    let mut i: usize = 0;
    while i < a.len()
        invariant
            i <= a@.len(),
            a@.len() == b@.len(),
            forall|j: int| 0 <= j < i ==> a@[j] == b@[j],
        decreases a@.len() - i,
    {
        if a[i] != b[i] {
            return false;
        }
        i = i + 1;
    }
    proof {
        assert(a@ =~= b@);
    }
    true
}

/// True iff every byte of `data` is zero.
pub fn all_zero(data: &Vec<u8>) -> (r: bool)
    ensures
        r == all_zero_spec(data@),
{
    let mut i: usize = 0;
    while i < data.len()
        invariant
            i <= data@.len(),
            forall|j: int| 0 <= j < i ==> data@[j] == 0,
        decreases data@.len() - i,
    {
        if data[i] != 0 {
            return false;
        }
        i = i + 1;
    }
    true
}

/// A vector of `len` zero bytes.
pub fn zeroed(len: usize) -> (r: Vec<u8>)
    ensures
        r@.len() == len,
        all_zero_spec(r@),
{
    let mut out: Vec<u8> = Vec::new();
    let mut i: usize = 0;
    while i < len
        invariant
            i <= len,
            out@.len() == i,
            all_zero_spec(out@),
        decreases len - i,
    {
        out.push(0);
        i = i + 1;
    }
    out
}

} // verus!
