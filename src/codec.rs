//! Little-endian reading and writing of fixed-width fields.
use vstd::bytes::*;
use vstd::prelude::*;
use vstd::slice::slice_subrange;

use crate::address::Address;

verus! {

/// The unsigned 64-bit value at `off` in `data`.
pub open spec fn u64_at(data: Seq<u8>, off: int) -> u64 {
    spec_u64_from_le_bytes(data.subrange(off, off + 8))
}

/// The unsigned 16-bit value at `off` in `data`.
pub open spec fn u16_at(data: Seq<u8>, off: int) -> u16 {
    spec_u16_from_le_bytes(data.subrange(off, off + 2))
}

/// The 32 bytes at `off` in `data`.
pub open spec fn bytes32_at(data: Seq<u8>, off: int) -> Seq<u8> {
    data.subrange(off, off + 32)
}

pub fn read_u64(data: &[u8], off: usize) -> (r: u64)
    requires
        off + 8 <= data@.len(),
    ensures
        r == u64_at(data@, off as int),
{
    let _n = data.len();
    let part = slice_subrange(data, off, off + 8);
    u64_from_le_bytes(part)
}

pub fn read_u16(data: &[u8], off: usize) -> (r: u16)
    requires
        off + 2 <= data@.len(),
    ensures
        r == u16_at(data@, off as int),
{
    let _n = data.len();
    let part = slice_subrange(data, off, off + 2);
    u16_from_le_bytes(part)
}

pub fn read_address(data: &[u8], off: usize) -> (r: Address)
    requires
        off + 32 <= data@.len(),
    ensures
        r@ == bytes32_at(data@, off as int),
{
    let _n = data.len();
    let mut bytes = [0u8; 32];
    let mut i: usize = 0;
    while i < 32
        invariant
            off + 32 <= data@.len(),
            data@.len() == _n,
            i <= 32,
            bytes@.len() == 32,
            forall|j: int| 0 <= j < i ==> bytes@[j] == data@[off + j],
        decreases 32 - i,
    {
        bytes[i] = data[off + i];
        i = i + 1;
    }
    let r = Address { bytes };
    assert(r@ =~= bytes32_at(data@, off as int));
    r
}

/// Appends `bytes` to `out`.
pub fn push_all(out: &mut Vec<u8>, bytes: &[u8])
    ensures
        final(out)@ == old(out)@ + bytes@,
{
    let mut i: usize = 0;
    while i < bytes.len()
        invariant
            i <= bytes@.len(),
            out@ == old(out)@ + bytes@.subrange(0, i as int),
        decreases bytes@.len() - i,
    {
        out.push(bytes[i]);
        i = i + 1;
        assert(out@ =~= old(out)@ + bytes@.subrange(0, i as int));
    }
    assert(bytes@.subrange(0, bytes@.len() as int) =~= bytes@);
}

pub fn push_u64(out: &mut Vec<u8>, v: u64)
    ensures
        final(out)@ == old(out)@ + spec_u64_to_le_bytes(v),
{
    let b = u64_to_le_bytes(v);
    push_all(out, b.as_slice());
}

pub fn push_u16(out: &mut Vec<u8>, v: u16)
    ensures
        final(out)@ == old(out)@ + spec_u16_to_le_bytes(v),
{
    let b = u16_to_le_bytes(v);
    push_all(out, b.as_slice());
}

pub fn push_address(out: &mut Vec<u8>, a: &Address)
    ensures
        final(out)@ == old(out)@ + a@,
{
    push_all(out, a.bytes.as_slice());
}

} // verus!
