//! Byte containers that own or borrow their storage, and the Ethernet frame
//! views built on them.

use crate::network_interface::{Ipv4Address, Ipv6Address, MacAddr};
use crate::wire::{be16, copy_into, tail_mut, with_be16};
use std::ops::Range;
use vstd::prelude::*;

#[allow(non_snake_case, non_upper_case_globals)]
pub mod EtherTypes;

verus! {

/// Represents a generic network packet.
pub trait Packet {
    /// Every byte of the packet, header included.
    spec fn bytes(&self) -> Seq<u8>;

    /// The bytes that follow the packet's header.
    spec fn payload_bytes(&self) -> Seq<u8>;

    /// Retrieve the underlying buffer for the packet.
    fn packet(&self) -> (r: &[u8])
        ensures
            r@ == self.bytes(),
    ;

    /// Retrieve the payload for the packet.
    fn payload(&self) -> (r: &[u8])
        ensures
            r@ == self.payload_bytes(),
    ;
}

/// Represents a generic, mutable, network packet.
pub trait MutablePacket: Packet {
    /// Retreive the underlying, mutable, buffer for the packet.
    fn packet_mut(&mut self) -> (r: &mut [u8])
        ensures
            r@ == old(self).bytes(),
            final(self).bytes() == final(r)@,
    ;

    /// Retreive the mutable payload for the packet: the tail of the buffer
    /// behind the header. What is written through it replaces that tail, and
    /// the header stays.
    fn payload_mut(&mut self) -> (r: &mut [u8])
        ensures
            r@ == old(self).payload_bytes(),
            final(self).bytes() == old(self).bytes().take(old(self).bytes().len() - r@.len())
                + final(r)@,
    ;

    /// Initialize this packet by cloning another: the bytes of `other` are
    /// copied over the front of this packet, and what lies behind them stays.
    fn clone_from<T: Packet>(&mut self, other: &T)
        requires
            old(self).bytes().len() >= other.bytes().len(),
        ensures
            final(self).bytes() == other.bytes() + old(self).bytes().skip(
                other.bytes().len() as int,
            ),
    {
        let src = other.packet();
        let dst = self.packet_mut();
        let n = src.len();
        let ghost before = dst@;
        let mut i: usize = 0;
        while i < n
            invariant
                i <= n,
                n == src@.len(),
                n <= before.len(),
                dst@.len() == before.len(),
                forall|k: int| 0 <= k < i ==> dst@[k] == src@[k],
                forall|k: int| i <= k < before.len() ==> dst@[k] == before[k],
            decreases n - i,
        {
            dst[i] = src[i];
            i += 1;
        }
    }
}

/// Used to convert on-the-wire packets to their owned record.
pub trait FromPacket: Packet {
    /// The type of the packet to convert from.
    type T;

    /// Whether the packet is long enough to be decoded.
    spec fn decodable(&self) -> bool;

    /// Whether `record` holds exactly what the packet's bytes encode.
    spec fn decodes_to(&self, record: &Self::T) -> bool;

    /// Converts a wire-format packet to its owned record.
    fn from_packet(&self) -> (record: Self::T)
        requires
            self.decodable(),
        ensures
            self.decodes_to(&record),
    ;
}

/// Used to find the calculated size of the packet. This is used for occasions where the underlying
/// buffer is not the same length as the packet itself.
pub trait PacketSize: Packet {
    /// The size that the packet's fixed fields and length fields declare.
    spec fn declared_size(&self) -> nat;

    /// Get the calculated size of the packet.
    fn packet_size(&self) -> (n: usize)
        ensures
            n == self.declared_size(),
    ;
}

/// Used to convert a type to primitive values representing it.
pub trait PrimitiveValues {
    /// A tuple of types, to represent the current value.
    type T;

    /// The tuple that stands for the value.
    spec fn primitive_values(&self) -> Self::T;

    /// Convert a value to primitive types representing it.
    fn to_primitive_values(&self) -> (r: Self::T)
        ensures
            r == self.primitive_values(),
    ;
}

impl PrimitiveValues for MacAddr {
    type T = (u8, u8, u8, u8, u8, u8);

    open spec fn primitive_values(&self) -> (u8, u8, u8, u8, u8, u8) {
        (self.0, self.1, self.2, self.3, self.4, self.5)
    }

    fn to_primitive_values(&self) -> (u8, u8, u8, u8, u8, u8) {
        (self.0, self.1, self.2, self.3, self.4, self.5)
    }
}

impl PrimitiveValues for Ipv4Address {
    type T = (u8, u8, u8, u8);

    open spec fn primitive_values(&self) -> (u8, u8, u8, u8) {
        (self.0, self.1, self.2, self.3)
    }

    fn to_primitive_values(&self) -> (u8, u8, u8, u8) {
        (self.0, self.1, self.2, self.3)
    }
}

impl PrimitiveValues for Ipv6Address {
    type T = (u16, u16, u16, u16, u16, u16, u16, u16);

    open spec fn primitive_values(&self) -> (u16, u16, u16, u16, u16, u16, u16, u16) {
        (self.0, self.1, self.2, self.3, self.4, self.5, self.6, self.7)
    }

    fn to_primitive_values(&self) -> (u16, u16, u16, u16, u16, u16, u16, u16) {
        (self.0, self.1, self.2, self.3, self.4, self.5, self.6, self.7)
    }
}

/// Packet data.
#[derive(PartialEq, Debug)]
pub enum PacketData<'p> {
    /// A packet owns its contents.
    Owned(Vec<u8>),
    /// A packet borrows its contents.
    Borrowed(&'p [u8]),
}

impl<'p> View for PacketData<'p> {
    type V = Seq<u8>;

    open spec fn view(&self) -> Seq<u8> {
        match self {
            PacketData::Owned(data) => data@,
            PacketData::Borrowed(data) => data@,
        }
    }
}

impl<'p> PacketData<'p> {
    /// Get a slice of the packet data.
    pub fn as_slice(&self) -> (r: &[u8])
        ensures
            r@ == self@,
    {
        match self {
            PacketData::Owned(data) => data.as_slice(),
            PacketData::Borrowed(data) => data,
        }
    }

    /// No-op - returns `self`.
    pub fn to_immutable(self) -> (r: PacketData<'p>)
        ensures
            r == self,
    {
        self
    }

    /// A length of the packet data.
    pub fn len(&self) -> (n: usize)
        ensures
            n == self@.len(),
    {
        self.as_slice().len()
    }

    /// The byte at `index`.
    pub fn get(&self, index: usize) -> (r: u8)
        requires
            index < self@.len(),
        ensures
            r == self@[index as int],
    {
        self.as_slice()[index]
    }

    /// The bytes in the half-open range `range`.
    pub fn get_range(&self, range: Range<usize>) -> (r: &[u8])
        requires
            range.start <= range.end <= self@.len(),
        ensures
            r@ == self@.subrange(range.start as int, range.end as int),
    {
        &self.as_slice()[range]
    }

    /// The bytes before `end`.
    pub fn get_to(&self, end: usize) -> (r: &[u8])
        requires
            end <= self@.len(),
        ensures
            r@ == self@.take(end as int),
    {
        &self.as_slice()[0..end]
    }

    /// The bytes from `start` on.
    pub fn get_from(&self, start: usize) -> (r: &[u8])
        requires
            start <= self@.len(),
        ensures
            r@ == self@.skip(start as int),
    {
        let data = self.as_slice();
        &data[start..data.len()]
    }
}

/// Mutable packet data.
#[derive(PartialEq, Debug)]
pub enum MutPacketData<'p> {
    /// Owned mutable packet data.
    Owned(Vec<u8>),
    /// Borrowed mutable packet data.
    Borrowed(&'p mut [u8]),
}

impl<'p> View for MutPacketData<'p> {
    type V = Seq<u8>;

    open spec fn view(&self) -> Seq<u8> {
        match self {
            MutPacketData::Owned(data) => data@,
            MutPacketData::Borrowed(data) => data@,
        }
    }
}

impl<'p> MutPacketData<'p> {
    /// The slice that the data has on loan, where it owns no bytes itself.
    pub open spec fn lent(&self) -> Option<&mut [u8]> {
        match self {
            MutPacketData::Owned(data) => None,
            MutPacketData::Borrowed(data) => Some(*data),
        }
    }

    /// Get packet data as a slice.
    pub fn as_slice(&self) -> (r: &[u8])
        ensures
            r@ == self@,
    {
        match self {
            MutPacketData::Owned(data) => data.as_slice(),
            MutPacketData::Borrowed(data) => data,
        }
    }

    /// Get packet data as a mutable slice.
    pub fn as_mut_slice(&mut self) -> (r: &mut [u8])
        ensures
            r@ == old(self)@,
            final(self)@ == final(r)@,
            old(self).lent() is None <==> final(self).lent() is None,
            old(self).lent() matches Some(before) ==> (final(self).lent() matches Some(after)
                && final(after)@ == final(before)@),
    {
        match self {
            MutPacketData::Owned(data) => data.as_mut_slice(),
            MutPacketData::Borrowed(data) => data,
        }
    }

    /// Get an immutable version of packet data. A slice that was on loan
    /// keeps the bytes that it has now.
    pub fn to_immutable(self) -> (r: PacketData<'p>)
        ensures
            r@ == self@,
            r is Owned <==> self is Owned,
            self.lent() matches Some(lent) ==> final(lent)@ == self@,
    {
        match self {
            MutPacketData::Owned(data) => PacketData::Owned(data),
            MutPacketData::Borrowed(data) => PacketData::Borrowed(data),
        }
    }

    /// Get a length of data in the packet.
    pub fn len(&self) -> (n: usize)
        ensures
            n == self@.len(),
    {
        self.as_slice().len()
    }

    /// The byte at `index`.
    pub fn get(&self, index: usize) -> (r: u8)
        requires
            index < self@.len(),
        ensures
            r == self@[index as int],
    {
        self.as_slice()[index]
    }

    /// The bytes in the half-open range `range`.
    pub fn get_range(&self, range: Range<usize>) -> (r: &[u8])
        requires
            range.start <= range.end <= self@.len(),
        ensures
            r@ == self@.subrange(range.start as int, range.end as int),
    {
        &self.as_slice()[range]
    }

    /// The bytes before `end`.
    pub fn get_to(&self, end: usize) -> (r: &[u8])
        requires
            end <= self@.len(),
        ensures
            r@ == self@.take(end as int),
    {
        &self.as_slice()[0..end]
    }

    /// The bytes from `start` on.
    pub fn get_from(&self, start: usize) -> (r: &[u8])
        requires
            start <= self@.len(),
        ensures
            r@ == self@.skip(start as int),
    {
        let data = self.as_slice();
        &data[start..data.len()]
    }

    /// Overwrites the byte at `index`.
    pub fn set(&mut self, index: usize, value: u8)
        requires
            index < old(self)@.len(),
        ensures
            final(self)@ == old(self)@.update(index as int, value),
            old(self).lent() is None <==> final(self).lent() is None,
            old(self).lent() matches Some(before) ==> (final(self).lent() matches Some(after)
                && final(after)@ == final(before)@),
    {
        let data = self.as_mut_slice();
        data[index] = value;
    }
}

/// The length of the fixed Ethernet header: two addresses and the EtherType.
pub const ETHERNET_HEADER_LEN: usize = 14;

/// The hardware address that `bytes` holds at offset `at`.
pub open spec fn mac_at(bytes: Seq<u8>, at: int) -> MacAddr {
    MacAddr(
        bytes[at],
        bytes[at + 1],
        bytes[at + 2],
        bytes[at + 3],
        bytes[at + 4],
        bytes[at + 5],
    )
}

/// `bytes` with the hardware address `mac` written at offset `at`.
pub open spec fn with_mac_at(bytes: Seq<u8>, at: int, mac: MacAddr) -> Seq<u8> {
    bytes.update(at, mac.0).update(at + 1, mac.1).update(at + 2, mac.2).update(
        at + 3,
        mac.3,
    ).update(at + 4, mac.4).update(at + 5, mac.5)
}

/// The destination address of the frame `bytes`: its first six bytes.
pub open spec fn destination_of(bytes: Seq<u8>) -> MacAddr {
    mac_at(bytes, 0)
}

/// The source address of the frame `bytes`: bytes 6 to 11.
pub open spec fn source_of(bytes: Seq<u8>) -> MacAddr {
    mac_at(bytes, 6)
}

/// The EtherType of the frame `bytes`: bytes 12 and 13, big-endian.
pub open spec fn ethertype_of(bytes: Seq<u8>) -> EtherType {
    EtherType(be16(bytes[12], bytes[13]))
}

/// The payload of the frame `bytes`: what follows the header, and nothing
/// where the frame ends with its header.
pub open spec fn payload_of(bytes: Seq<u8>) -> Seq<u8> {
    if bytes.len() <= ETHERNET_HEADER_LEN {
        Seq::empty()
    } else {
        bytes.skip(ETHERNET_HEADER_LEN as int)
    }
}

/// The frame `bytes` with another destination address.
pub open spec fn with_destination(bytes: Seq<u8>, mac: MacAddr) -> Seq<u8> {
    with_mac_at(bytes, 0, mac)
}

/// The frame `bytes` with another source address.
pub open spec fn with_source(bytes: Seq<u8>, mac: MacAddr) -> Seq<u8> {
    with_mac_at(bytes, 6, mac)
}

/// The frame `bytes` with another EtherType.
pub open spec fn with_ethertype(bytes: Seq<u8>, ethertype: EtherType) -> Seq<u8> {
    with_be16(bytes, 12, ethertype.0)
}

/// The frame `bytes` with `vals` copied over the start of its payload.
pub open spec fn with_payload(bytes: Seq<u8>, vals: Seq<u8>) -> Seq<u8> {
    bytes.take(ETHERNET_HEADER_LEN as int) + vals + bytes.skip(
        ETHERNET_HEADER_LEN + vals.len(),
    )
}

/// Represents the `Ethernet::ethertype` field.
#[derive(Hash, Ord, PartialOrd, Eq, PartialEq, Structural, Debug, Clone, Copy)]
pub struct EtherType(pub u16);

/// The name under which the EtherType `code` is known, or `unknown`.
pub open spec fn ethertype_name(code: u16) -> Seq<char> {
    if code == EtherTypes::Ipv4 {
        "Ipv4"@
    } else if code == EtherTypes::Arp {
        "Arp"@
    } else if code == EtherTypes::WakeOnLan {
        "WakeOnLan"@
    } else if code == EtherTypes::Trill {
        "Trill"@
    } else if code == EtherTypes::DECnet {
        "DECnet"@
    } else if code == EtherTypes::Rarp {
        "Rarp"@
    } else if code == EtherTypes::AppleTalk {
        "AppleTalk"@
    } else if code == EtherTypes::Aarp {
        "Aarp"@
    } else if code == EtherTypes::Ipx {
        "Ipx"@
    } else if code == EtherTypes::Qnx {
        "Qnx"@
    } else if code == EtherTypes::Ipv6 {
        "Ipv6"@
    } else if code == EtherTypes::FlowControl {
        "FlowControl"@
    } else if code == EtherTypes::CobraNet {
        "CobraNet"@
    } else if code == EtherTypes::Mpls {
        "Mpls"@
    } else if code == EtherTypes::MplsMcast {
        "MplsMcast"@
    } else if code == EtherTypes::PppoeDiscovery {
        "PppoeDiscovery"@
    } else if code == EtherTypes::PppoeSession {
        "PppoeSession"@
    } else if code == EtherTypes::Vlan {
        "Vlan"@
    } else if code == EtherTypes::PBridge {
        "PBridge"@
    } else if code == EtherTypes::Lldp {
        "Lldp"@
    } else if code == EtherTypes::Ptp {
        "Ptp"@
    } else if code == EtherTypes::Cfm {
        "Cfm"@
    } else if code == EtherTypes::QinQ {
        "QinQ"@
    } else {
        "unknown"@
    }
}

impl EtherType {
    /// Construct a new `EtherType` instance.
    pub fn new(val: u16) -> (r: EtherType)
        ensures
            r == EtherType(val),
    {
        EtherType(val)
    }

    /// The name that the type is printed under.
    pub fn name(&self) -> (r: &'static str)
        ensures
            r@ == ethertype_name(self.0),
    {
        let code = self.0;
        if code == EtherTypes::Ipv4 {
            "Ipv4"
        } else if code == EtherTypes::Arp {
            "Arp"
        } else if code == EtherTypes::WakeOnLan {
            "WakeOnLan"
        } else if code == EtherTypes::Trill {
            "Trill"
        } else if code == EtherTypes::DECnet {
            "DECnet"
        } else if code == EtherTypes::Rarp {
            "Rarp"
        } else if code == EtherTypes::AppleTalk {
            "AppleTalk"
        } else if code == EtherTypes::Aarp {
            "Aarp"
        } else if code == EtherTypes::Ipx {
            "Ipx"
        } else if code == EtherTypes::Qnx {
            "Qnx"
        } else if code == EtherTypes::Ipv6 {
            "Ipv6"
        } else if code == EtherTypes::FlowControl {
            "FlowControl"
        } else if code == EtherTypes::CobraNet {
            "CobraNet"
        } else if code == EtherTypes::Mpls {
            "Mpls"
        } else if code == EtherTypes::MplsMcast {
            "MplsMcast"
        } else if code == EtherTypes::PppoeDiscovery {
            "PppoeDiscovery"
        } else if code == EtherTypes::PppoeSession {
            "PppoeSession"
        } else if code == EtherTypes::Vlan {
            "Vlan"
        } else if code == EtherTypes::PBridge {
            "PBridge"
        } else if code == EtherTypes::Lldp {
            "Lldp"
        } else if code == EtherTypes::Ptp {
            "Ptp"
        } else if code == EtherTypes::Cfm {
            "Cfm"
        } else if code == EtherTypes::QinQ {
            "QinQ"
        } else {
            "unknown"
        }
    }
}

impl PrimitiveValues for EtherType {
    type T = (u16,);

    open spec fn primitive_values(&self) -> (u16,) {
        (self.0,)
    }

    fn to_primitive_values(&self) -> (u16,) {
        (self.0,)
    }
}

/// An Ethernet frame that owns all of its parts.
#[derive(Clone, Debug)]
#[allow(unused_attributes)]
pub struct Ethernet {
    pub destination: MacAddr,
    pub source: MacAddr,
    pub ethertype: EtherType,
    pub payload: Vec<u8>,
}

/// Whether `record` holds the fields and the payload that the frame `bytes` encodes.
pub open spec fn ethernet_decodes_to(bytes: Seq<u8>, record: &Ethernet) -> bool {
    &&& record.destination == destination_of(bytes)
    &&& record.source == source_of(bytes)
    &&& record.ethertype == ethertype_of(bytes)
    &&& record.payload@ == payload_of(bytes)
}

/// The bytes at offsets `at` to `at + 5` of `data`, as a hardware address.
fn read_mac(data: &[u8], at: usize) -> (mac: MacAddr)
    requires
        at + 6 <= data@.len(),
    ensures
        mac == mac_at(data@, at as int),
{
    MacAddr::new(data[at], data[at + 1], data[at + 2], data[at + 3], data[at + 4], data[at + 5])
}

/// The big-endian 16-bit field at offsets `at` and `at + 1` of `data`.
fn read_be16(data: &[u8], at: usize) -> (value: u16)
    requires
        at + 2 <= data@.len(),
    ensures
        value == be16(data@[at as int], data@[at + 1]),
{
    let hi: u8 = data[at];
    let lo: u8 = data[at + 1];
    let b0: u16 = (hi as u16) << 8;
    let b1: u16 = lo as u16;
    assert((((hi as u16) << 8) | (lo as u16)) == (hi as u16) * 256 + (lo as u16)) by (bit_vector);
    b0 | b1
}

/// Writes the six octets of `mac` to offsets `at` to `at + 5` of `data`.
fn write_mac(data: &mut [u8], at: usize, mac: MacAddr)
    requires
        at + 6 <= old(data)@.len(),
    ensures
        final(data)@ == with_mac_at(old(data)@, at as int, mac),
{
    let vals = mac.to_primitive_values();
    data[at] = vals.0;
    data[at + 1] = vals.1;
    data[at + 2] = vals.2;
    data[at + 3] = vals.3;
    data[at + 4] = vals.4;
    data[at + 5] = vals.5;
}

/// Writes `value` big-endian to offsets `at` and `at + 1` of `data`.
fn write_be16(data: &mut [u8], at: usize, value: u16)
    requires
        at + 2 <= old(data)@.len(),
    ensures
        final(data)@ == with_be16(old(data)@, at as int, value),
{
    let hi: u8 = ((value & 65280) >> 8) as u8;
    let lo: u8 = #[verifier::truncate] (value as u8);
    assert(((value & 65280) >> 8) == value / 256) by (bit_vector);
    assert((#[verifier::truncate] (value as u8)) == value % 256) by (bit_vector);
    data[at] = hi;
    data[at + 1] = lo;
}

/// A read-only view of an Ethernet frame.
#[derive(PartialEq, Debug)]
pub struct EthernetPacket<'p> {
    packet: PacketData<'p>,
}

/// A view of an Ethernet frame through which the frame can be rewritten.
#[derive(PartialEq, Debug)]
pub struct MutableEthernetPacket<'p> {
    packet: MutPacketData<'p>,
}

impl<'a> View for EthernetPacket<'a> {
    type V = Seq<u8>;

    /// The bytes of the frame.
    closed spec fn view(&self) -> Seq<u8> {
        self.packet@
    }
}

impl<'a> View for MutableEthernetPacket<'a> {
    type V = Seq<u8>;

    /// The bytes of the frame.
    closed spec fn view(&self) -> Seq<u8> {
        self.packet@
    }
}

impl<'a> EthernetPacket<'a> {
    /// Whether the view covers a whole Ethernet header. Every view that
    /// `new` or `owned` hands out does.
    pub open spec fn wf(&self) -> bool {
        self@.len() >= ETHERNET_HEADER_LEN
    }

    /// Whether the view owns its bytes.
    pub closed spec fn is_owned(&self) -> bool {
        self.packet is Owned
    }

    /// Constructs a new EthernetPacket. If the provided buffer is less than the minimum required
    /// packet size, this will return None.
    pub fn new<'p>(packet: &'p [u8]) -> (r: Option<EthernetPacket<'p>>)
        ensures
            r is Some <==> packet@.len() >= ETHERNET_HEADER_LEN,
            r matches Some(view) ==> view@ == packet@ && view.wf() && !view.is_owned(),
    {
        if packet.len() >= EthernetPacket::minimum_packet_size() {
            Some(EthernetPacket { packet: PacketData::Borrowed(packet) })
        } else {
            None
        }
    }

    /// Constructs a new EthernetPacket. If the provided buffer is less than the minimum required
    /// packet size, this will return None. With this constructor the EthernetPacket will
    /// own its own data and the underlying buffer will be dropped when the EthernetPacket is.
    pub fn owned(packet: Vec<u8>) -> (r: Option<EthernetPacket<'static>>)
        ensures
            r is Some <==> packet@.len() >= ETHERNET_HEADER_LEN,
            r matches Some(view) ==> view@ == packet@ && view.wf() && view.is_owned(),
    {
        if packet.len() >= EthernetPacket::minimum_packet_size() {
            Some(EthernetPacket { packet: PacketData::Owned(packet) })
        } else {
            None
        }
    }

    /// Maps from a EthernetPacket to a EthernetPacket
    pub fn to_immutable<'p>(&'p self) -> (r: EthernetPacket<'p>)
        ensures
            r@ == self@,
            !r.is_owned(),
    {
        EthernetPacket { packet: PacketData::Borrowed(self.packet.as_slice()) }
    }

    /// Maps from a EthernetPacket to a EthernetPacket while consuming the source
    pub fn consume_to_immutable(self) -> (r: EthernetPacket<'a>)
        ensures
            r@ == self@,
            r.is_owned() == self.is_owned(),
    {
        EthernetPacket { packet: self.packet.to_immutable() }
    }

    /// The minimum size (in bytes) a packet of this type can be. It's based on the total size
    /// of the fixed-size fields.
    pub fn minimum_packet_size() -> (n: usize)
        ensures
            n == ETHERNET_HEADER_LEN,
    {
        14
    }

    /// The size (in bytes) of a Ethernet instance when converted into
    /// a byte-array
    pub fn packet_size(_packet: &Ethernet) -> (n: usize)
        requires
            ETHERNET_HEADER_LEN + _packet.payload@.len() <= usize::MAX,
        ensures
            n == ETHERNET_HEADER_LEN + _packet.payload@.len(),
    {
        14 + _packet.payload.len()
    }

    /// Get the value of the destination field
    pub fn get_destination(&self) -> (mac: MacAddr)
        requires
            self.wf(),
        ensures
            mac == destination_of(self@),
    {
        read_mac(self.packet.as_slice(), 0)
    }

    /// Get the value of the source field
    pub fn get_source(&self) -> (mac: MacAddr)
        requires
            self.wf(),
        ensures
            mac == source_of(self@),
    {
        read_mac(self.packet.as_slice(), 6)
    }

    /// Get the value of the ethertype field
    pub fn get_ethertype(&self) -> (ethertype: EtherType)
        requires
            self.wf(),
        ensures
            ethertype == ethertype_of(self@),
    {
        EtherType::new(read_be16(self.packet.as_slice(), 12))
    }
}

impl<'a> MutableEthernetPacket<'a> {
    /// Whether the view covers a whole Ethernet header. Every view that
    /// `new` or `owned` hands out does, and no method changes the length.
    pub open spec fn wf(&self) -> bool {
        self@.len() >= ETHERNET_HEADER_LEN
    }

    /// The slice that the view has on loan, where it owns no bytes itself.
    pub closed spec fn lent(&self) -> Option<&mut [u8]> {
        self.packet.lent()
    }

    /// Whether the view owns its bytes.
    pub open spec fn is_owned(&self) -> bool {
        self.lent() is None
    }

    /// Once a view is no longer used, the slice that it had on loan holds
    /// the bytes that the view held last.
    pub proof fn lemma_lent_slice_holds_the_bytes(self)
        requires
            has_resolved(self),
        ensures
            self.lent() matches Some(lent) ==> final(lent)@ == self@,
    {
    }

    /// Constructs a new MutableEthernetPacket. If the provided buffer is less than the minimum required
    /// packet size, this will return None.
    pub fn new<'p>(packet: &'p mut [u8]) -> (r: Option<MutableEthernetPacket<'p>>)
        ensures
            r is Some <==> old(packet)@.len() >= ETHERNET_HEADER_LEN,
            r matches Some(view) ==> view@ == old(packet)@ && view.wf() && (
            view.lent() matches Some(lent) && final(lent)@ == final(packet)@),
            r is None ==> final(packet)@ == old(packet)@,
    {
        if packet.len() >= MutableEthernetPacket::minimum_packet_size() {
            Some(MutableEthernetPacket { packet: MutPacketData::Borrowed(packet) })
        } else {
            None
        }
    }

    /// Constructs a new MutableEthernetPacket. If the provided buffer is less than the minimum required
    /// packet size, this will return None. With this constructor the MutableEthernetPacket will
    /// own its own data and the underlying buffer will be dropped when the MutableEthernetPacket is.
    pub fn owned(packet: Vec<u8>) -> (r: Option<MutableEthernetPacket<'static>>)
        ensures
            r is Some <==> packet@.len() >= ETHERNET_HEADER_LEN,
            r matches Some(view) ==> view@ == packet@ && view.wf() && view.is_owned(),
    {
        if packet.len() >= MutableEthernetPacket::minimum_packet_size() {
            Some(MutableEthernetPacket { packet: MutPacketData::Owned(packet) })
        } else {
            None
        }
    }

    /// Maps from a MutableEthernetPacket to a EthernetPacket
    pub fn to_immutable<'p>(&'p self) -> (r: EthernetPacket<'p>)
        ensures
            r@ == self@,
            !r.is_owned(),
    {
        EthernetPacket { packet: PacketData::Borrowed(self.packet.as_slice()) }
    }

    /// Maps from a MutableEthernetPacket to a EthernetPacket while consuming the source
    pub fn consume_to_immutable(self) -> (r: EthernetPacket<'a>)
        ensures
            r@ == self@,
            r.is_owned() == self.is_owned(),
            self.lent() matches Some(lent) ==> final(lent)@ == self@,
    {
        EthernetPacket { packet: self.packet.to_immutable() }
    }

    /// The minimum size (in bytes) a packet of this type can be. It's based on the total size
    /// of the fixed-size fields.
    pub fn minimum_packet_size() -> (n: usize)
        ensures
            n == ETHERNET_HEADER_LEN,
    {
        14
    }

    /// The size (in bytes) of a Ethernet instance when converted into
    /// a byte-array
    pub fn packet_size(_packet: &Ethernet) -> (n: usize)
        requires
            ETHERNET_HEADER_LEN + _packet.payload@.len() <= usize::MAX,
        ensures
            n == ETHERNET_HEADER_LEN + _packet.payload@.len(),
    {
        14 + _packet.payload.len()
    }

    /// Populates a EthernetPacket using a Ethernet structure
    pub fn populate(&mut self, packet: &Ethernet)
        requires
            old(self).wf(),
            ETHERNET_HEADER_LEN + packet.payload@.len() <= old(self)@.len(),
        ensures
            final(self)@ == with_payload(
                with_ethertype(
                    with_source(with_destination(old(self)@, packet.destination), packet.source),
                    packet.ethertype,
                ),
                packet.payload@,
            ),
            final(self).is_owned() == old(self).is_owned(),
            old(self).lent() matches Some(before) ==> (final(self).lent() matches Some(after)
                && final(after)@ == final(before)@),
    {
        self.set_destination(packet.destination);
        self.set_source(packet.source);
        self.set_ethertype(packet.ethertype);
        self.set_payload(packet.payload.as_slice());
    }

    /// Get the value of the destination field
    pub fn get_destination(&self) -> (mac: MacAddr)
        requires
            self.wf(),
        ensures
            mac == destination_of(self@),
    {
        read_mac(self.packet.as_slice(), 0)
    }

    /// Get the value of the source field
    pub fn get_source(&self) -> (mac: MacAddr)
        requires
            self.wf(),
        ensures
            mac == source_of(self@),
    {
        read_mac(self.packet.as_slice(), 6)
    }

    /// Get the value of the ethertype field
    pub fn get_ethertype(&self) -> (ethertype: EtherType)
        requires
            self.wf(),
        ensures
            ethertype == ethertype_of(self@),
    {
        EtherType::new(read_be16(self.packet.as_slice(), 12))
    }

    /// Set the value of the destination field.
    pub fn set_destination(&mut self, val: MacAddr)
        requires
            old(self).wf(),
        ensures
            final(self)@ == with_destination(old(self)@, val),
            final(self).is_owned() == old(self).is_owned(),
            old(self).lent() matches Some(before) ==> (final(self).lent() matches Some(after)
                && final(after)@ == final(before)@),
    {
        write_mac(self.packet.as_mut_slice(), 0, val);
    }

    /// Set the value of the source field.
    pub fn set_source(&mut self, val: MacAddr)
        requires
            old(self).wf(),
        ensures
            final(self)@ == with_source(old(self)@, val),
            final(self).is_owned() == old(self).is_owned(),
            old(self).lent() matches Some(before) ==> (final(self).lent() matches Some(after)
                && final(after)@ == final(before)@),
    {
        write_mac(self.packet.as_mut_slice(), 6, val);
    }

    /// Set the value of the ethertype field.
    pub fn set_ethertype(&mut self, val: EtherType)
        requires
            old(self).wf(),
        ensures
            final(self)@ == with_ethertype(old(self)@, val),
            final(self).is_owned() == old(self).is_owned(),
            old(self).lent() matches Some(before) ==> (final(self).lent() matches Some(after)
                && final(after)@ == final(before)@),
    {
        let vals = val.to_primitive_values();
        write_be16(self.packet.as_mut_slice(), 12, vals.0);
    }

    /// Set the value of the payload field (copies contents)
    pub fn set_payload(&mut self, vals: &[u8])
        requires
            ETHERNET_HEADER_LEN + vals@.len() <= old(self)@.len(),
        ensures
            final(self)@ == with_payload(old(self)@, vals@),
            final(self).is_owned() == old(self).is_owned(),
            old(self).lent() matches Some(before) ==> (final(self).lent() matches Some(after)
                && final(after)@ == final(before)@),
    {
        copy_into(self.packet.as_mut_slice(), 14, vals);
    }
}

impl<'a> PacketSize for EthernetPacket<'a> {
    open spec fn declared_size(&self) -> nat {
        ETHERNET_HEADER_LEN as nat
    }

    fn packet_size(&self) -> (n: usize) {
        14
    }
}

impl<'a> PacketSize for MutableEthernetPacket<'a> {
    open spec fn declared_size(&self) -> nat {
        ETHERNET_HEADER_LEN as nat
    }

    fn packet_size(&self) -> (n: usize) {
        14
    }
}

impl<'a> MutablePacket for MutableEthernetPacket<'a> {
    fn packet_mut<'p>(&'p mut self) -> (r: &'p mut [u8])
        ensures
            final(self).is_owned() == old(self).is_owned(),
            old(self).lent() matches Some(before) ==> (final(self).lent() matches Some(after)
                && final(after)@ == final(before)@),
    {
        self.packet.as_mut_slice()
    }

    fn payload_mut<'p>(&'p mut self) -> (r: &'p mut [u8])
        ensures
            final(self).is_owned() == old(self).is_owned(),
            old(self).lent() matches Some(before) ==> (final(self).lent() matches Some(after)
                && final(after)@ == final(before)@),
    {
        let data = self.packet.as_mut_slice();
        let len = data.len();
        let start: usize = if len <= 14 {
            len
        } else {
            14
        };
        tail_mut(data, start)
    }
}

impl<'a> Packet for MutableEthernetPacket<'a> {
    open spec fn bytes(&self) -> Seq<u8> {
        self@
    }

    open spec fn payload_bytes(&self) -> Seq<u8> {
        payload_of(self@)
    }

    fn packet<'p>(&'p self) -> (r: &'p [u8]) {
        self.packet.as_slice()
    }

    fn payload<'p>(&'p self) -> (r: &'p [u8]) {
        let data = self.packet.as_slice();
        let len = data.len();
        let start: usize = if len <= 14 {
            len
        } else {
            14
        };
        let r = &data[start..len];
        r
    }
}

impl<'a> Packet for EthernetPacket<'a> {
    open spec fn bytes(&self) -> Seq<u8> {
        self@
    }

    open spec fn payload_bytes(&self) -> Seq<u8> {
        payload_of(self@)
    }

    fn packet<'p>(&'p self) -> (r: &'p [u8]) {
        self.packet.as_slice()
    }

    fn payload<'p>(&'p self) -> (r: &'p [u8]) {
        let data = self.packet.as_slice();
        let len = data.len();
        let start: usize = if len <= 14 {
            len
        } else {
            14
        };
        let r = &data[start..len];
        r
    }
}

/// Used to iterate over a slice of `EthernetPacket`s
pub struct EthernetIterable<'a> {
    buf: &'a [u8],
}

impl<'a> View for EthernetIterable<'a> {
    type V = Seq<u8>;

    /// The bytes that have not been stepped over yet.
    closed spec fn view(&self) -> Seq<u8> {
        self.buf@
    }
}

impl<'a> EthernetIterable<'a> {
    /// Starts an iteration over the frames in `buf`.
    pub fn new(buf: &'a [u8]) -> (r: EthernetIterable<'a>)
        ensures
            r@ == buf@,
    {
        EthernetIterable { buf }
    }

    /// The frame that starts where the iteration stands, as a view of all
    /// the bytes that are left; the iteration then steps over that frame's
    /// header. Ends once fewer bytes than a header are left.
    pub fn next(&mut self) -> (r: Option<EthernetPacket<'a>>)
        ensures
            r is Some <==> old(self)@.len() >= ETHERNET_HEADER_LEN,
            r matches Some(view) ==> view@ == old(self)@ && view.wf() && !view.is_owned()
                && final(self)@ == old(self)@.skip(ETHERNET_HEADER_LEN as int),
            r is None ==> final(self)@ == old(self)@,
    {
        if self.buf.len() > 0 {
            if let Some(ret) = EthernetPacket::new(self.buf) {
                let size = ret.packet_size();
                let len = self.buf.len();
                let start = if size <= len {
                    size
                } else {
                    len
                };
                self.buf = &self.buf[start..len];
                return Some(ret);
            }
        }
        None
    }

    /// The bounds on how many frames are left: none is known.
    pub fn size_hint(&self) -> (r: (usize, Option<usize>))
        ensures
            r == (0usize, None::<usize>),
    {
        (0, None)
    }
}

impl<'p> FromPacket for EthernetPacket<'p> {
    type T = Ethernet;

    open spec fn decodable(&self) -> bool {
        self.wf()
    }

    open spec fn decodes_to(&self, record: &Ethernet) -> bool {
        ethernet_decodes_to(self@, record)
    }

    fn from_packet(&self) -> (record: Ethernet) {
        Ethernet {
            destination: self.get_destination(),
            source: self.get_source(),
            ethertype: self.get_ethertype(),
            payload: vstd::slice::slice_to_vec(self.payload()),
        }
    }
}

impl<'p> FromPacket for MutableEthernetPacket<'p> {
    type T = Ethernet;

    open spec fn decodable(&self) -> bool {
        self.wf()
    }

    open spec fn decodes_to(&self, record: &Ethernet) -> bool {
        ethernet_decodes_to(self@, record)
    }

    fn from_packet(&self) -> (record: Ethernet) {
        Ethernet {
            destination: self.get_destination(),
            source: self.get_source(),
            ethertype: self.get_ethertype(),
            payload: vstd::slice::slice_to_vec(self.payload()),
        }
    }
}

/// Writing back the destination, the source or the EtherType that a frame
/// already carries leaves every byte of the frame as it was.
pub proof fn lemma_set_what_was_got(bytes: Seq<u8>)
    requires
        bytes.len() >= ETHERNET_HEADER_LEN,
    ensures
        with_destination(bytes, destination_of(bytes)) == bytes,
        with_source(bytes, source_of(bytes)) == bytes,
        with_ethertype(bytes, ethertype_of(bytes)) == bytes,
{
    crate::wire::lemma_bytes_of_be16(bytes[12], bytes[13]);
}

/// A destination that was set is the destination that is read, and neither
/// the length of the frame nor any other field changes.
pub proof fn lemma_get_destination_after_set(bytes: Seq<u8>, mac: MacAddr)
    requires
        bytes.len() >= ETHERNET_HEADER_LEN,
    ensures
        destination_of(with_destination(bytes, mac)) == mac,
        with_destination(bytes, mac).len() == bytes.len(),
        source_of(with_destination(bytes, mac)) == source_of(bytes),
        ethertype_of(with_destination(bytes, mac)) == ethertype_of(bytes),
        payload_of(with_destination(bytes, mac)) == payload_of(bytes),
{
}

/// A source that was set is the source that is read, and neither the length
/// of the frame nor any other field changes.
pub proof fn lemma_get_source_after_set(bytes: Seq<u8>, mac: MacAddr)
    requires
        bytes.len() >= ETHERNET_HEADER_LEN,
    ensures
        source_of(with_source(bytes, mac)) == mac,
        with_source(bytes, mac).len() == bytes.len(),
        destination_of(with_source(bytes, mac)) == destination_of(bytes),
        ethertype_of(with_source(bytes, mac)) == ethertype_of(bytes),
        payload_of(with_source(bytes, mac)) == payload_of(bytes),
{
}

/// An EtherType that was set is the EtherType that is read, and neither the
/// length of the frame nor any other field changes.
pub proof fn lemma_get_ethertype_after_set(bytes: Seq<u8>, ethertype: EtherType)
    requires
        bytes.len() >= ETHERNET_HEADER_LEN,
    ensures
        ethertype_of(with_ethertype(bytes, ethertype)) == ethertype,
        with_ethertype(bytes, ethertype).len() == bytes.len(),
        destination_of(with_ethertype(bytes, ethertype)) == destination_of(bytes),
        source_of(with_ethertype(bytes, ethertype)) == source_of(bytes),
        payload_of(with_ethertype(bytes, ethertype)) == payload_of(bytes),
{
    crate::wire::lemma_be16_of_bytes(ethertype.0);
}

/// A payload that was set is the start of the payload that is read; the
/// header and the length of the frame stay.
pub proof fn lemma_get_payload_after_set(bytes: Seq<u8>, vals: Seq<u8>)
    requires
        ETHERNET_HEADER_LEN + vals.len() <= bytes.len(),
    ensures
        with_payload(bytes, vals).len() == bytes.len(),
        payload_of(with_payload(bytes, vals)).take(vals.len() as int) == vals,
        payload_of(with_payload(bytes, vals)).skip(vals.len() as int) == payload_of(bytes).skip(
            vals.len() as int,
        ),
        destination_of(with_payload(bytes, vals)) == destination_of(bytes),
        source_of(with_payload(bytes, vals)) == source_of(bytes),
        ethertype_of(with_payload(bytes, vals)) == ethertype_of(bytes),
{
    let after = with_payload(bytes, vals);
}

} // verus!
