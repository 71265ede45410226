//! Big-endian 16-bit fields, the one multi-byte encoding that the Ethernet
//! and ARP wire formats use.

use vstd::prelude::*;

verus! {

/// The 16-bit value whose big-endian encoding is the byte `hi` followed by `lo`.
pub open spec fn be16(hi: u8, lo: u8) -> u16 {
    (hi as int * 256 + lo as int) as u16
}

/// The first byte of the big-endian encoding of `value`.
pub open spec fn high_byte(value: u16) -> u8 {
    (value / 256) as u8
}

/// The second byte of the big-endian encoding of `value`.
pub open spec fn low_byte(value: u16) -> u8 {
    (value % 256) as u8
}

/// `bytes` with the big-endian encoding of `value` written at offset `at`.
pub open spec fn with_be16(bytes: Seq<u8>, at: int, value: u16) -> Seq<u8> {
    bytes.update(at, high_byte(value)).update(at + 1, low_byte(value))
}

/// Encoding a value and decoding the two bytes gives the value back.
pub proof fn lemma_be16_of_bytes(value: u16)
    ensures
        be16(high_byte(value), low_byte(value)) == value,
{
}

/// Decoding two bytes and encoding the value gives the two bytes back.
pub proof fn lemma_bytes_of_be16(hi: u8, lo: u8)
    ensures
        high_byte(be16(hi, lo)) == hi,
        low_byte(be16(hi, lo)) == lo,
{
}

/// Copies `vals` over the bytes of `data` that start at offset `at`.
pub(crate) fn copy_into(data: &mut [u8], at: usize, vals: &[u8])
    requires
        at + vals@.len() <= old(data)@.len(),
    ensures
        final(data)@ == old(data)@.take(at as int) + vals@ + old(data)@.skip(at + vals@.len()),
{
    let n = vals.len();
    let total = data.len();
    let ghost before = data@;
    let mut i: usize = 0;
    while i < n
        invariant
            i <= n,
            n == vals@.len(),
            at + n <= before.len(),
            before.len() == total,
            data@.len() == before.len(),
            forall|k: int| 0 <= k < at ==> data@[k] == before[k],
            forall|k: int| at <= k < at + i ==> data@[k] == vals@[k - at],
            forall|k: int| at + i <= k < before.len() ==> data@[k] == before[k],
        decreases n - i,
    {
        data[at + i] = vals[i];
        i += 1;
    }
}

/// The part of `data` from offset `start` on, for writing.
pub(crate) fn tail_mut(data: &mut [u8], start: usize) -> (tail: &mut [u8])
    requires
        start <= old(data)@.len(),
    ensures
        tail@ == old(data)@.skip(start as int),
        final(data)@ == old(data)@.take(start as int) + final(tail)@,
{
    let (head, tail) = data.split_at_mut(start);
    tail
}

/// The part of `data` between the offsets `start` and `end`, for writing.
pub(crate) fn part_mut(data: &mut [u8], start: usize, end: usize) -> (part: &mut [u8])
    requires
        start <= end <= old(data)@.len(),
    ensures
        part@ == old(data)@.subrange(start as int, end as int),
        final(data)@ == old(data)@.take(start as int) + final(part)@ + old(data)@.skip(end as int),
{
    let (front, _) = data.split_at_mut(end);
    let (_, part) = front.split_at_mut(start);
    part
}

} // verus!
