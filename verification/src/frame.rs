//! An Ethernet II frame taken apart into owned pieces.

use vstd::prelude::*;

verus! {

/// The first fourteen bytes of a frame: the data-link header.
pub struct DataLink(pub Vec<u8>);

/// The parts of an Ethernet II frame, each copied out of the frame.
pub struct Ethernet2Frame {
    pub src: Vec<u8>,
    pub dest: Vec<u8>,
    pub ethertype: Vec<u8>,
    pub data: Vec<u8>,
}

impl Default for Ethernet2Frame {
    /// The frame without any bytes.
    fn default() -> (frame: Ethernet2Frame)
        ensures
            frame.src@.len() == 0,
            frame.dest@.len() == 0,
            frame.ethertype@.len() == 0,
            frame.data@.len() == 0,
    {
        Ethernet2Frame { src: Vec::new(), dest: Vec::new(), ethertype: Vec::new(), data: Vec::new() }
    }
}

/// A copy of the bytes of `bytes` from `start` up to `end`.
fn copy_range(bytes: &[u8], start: usize, end: usize) -> (r: Vec<u8>)
    requires
        start <= end <= bytes@.len(),
    ensures
        r@ == bytes@.subrange(start as int, end as int),
{
    vstd::slice::slice_to_vec(&bytes[start..end])
}

impl Ethernet2Frame {
    /// Takes a frame of full length apart: destination, source and
    /// EtherType from the header, and the 1500 bytes behind the header as data.
    pub fn new(bytes: &[u8; 1518]) -> (frame: Ethernet2Frame)
        ensures
            frame.dest@ == bytes@.subrange(0, 6),
            frame.src@ == bytes@.subrange(6, 12),
            frame.ethertype@ == bytes@.subrange(12, 14),
            frame.data@ == bytes@.subrange(14, 1514),
    {
        let data_link = Ethernet2Frame::data_link(bytes.as_slice());
        Ethernet2Frame {
            src: Ethernet2Frame::src(&data_link),
            dest: Ethernet2Frame::dest(&data_link),
            ethertype: Ethernet2Frame::ethertype(&data_link),
            data: copy_range(bytes.as_slice(), 14, 1514),
        }
    }

    /// The data-link header of the frame `bytes`: its first fourteen bytes.
    pub fn data_link(bytes: &[u8]) -> (r: DataLink)
        requires
            bytes@.len() >= 14,
        ensures
            r.0@ == bytes@.take(14),
    {
        DataLink(copy_range(bytes, 0, 14))
    }

    /// The destination address: the first six bytes of the header.
    pub fn dest(data_link: &DataLink) -> (r: Vec<u8>)
        requires
            data_link.0@.len() >= 6,
        ensures
            r@ == data_link.0@.subrange(0, 6),
    {
        copy_range(data_link.0.as_slice(), 0, 6)
    }

    /// The source address: bytes 6 to 11 of the header.
    pub fn src(data_link: &DataLink) -> (r: Vec<u8>)
        requires
            data_link.0@.len() >= 12,
        ensures
            r@ == data_link.0@.subrange(6, 12),
    {
        copy_range(data_link.0.as_slice(), 6, 12)
    }

    /// The EtherType: bytes 12 and 13 of the header, as they stand.
    pub fn ethertype(data_link: &DataLink) -> (r: Vec<u8>)
        requires
            data_link.0@.len() >= 14,
        ensures
            r@ == data_link.0@.subrange(12, 14),
    {
        copy_range(data_link.0.as_slice(), 12, 14)
    }
}

} // verus!
