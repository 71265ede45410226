//! The ARP message: an eight-byte header that declares the lengths of the
//! four address fields that follow it.

use crate::network_interface::IpAddress;
use crate::wire::{be16, copy_into, part_mut, with_be16};
use byteorder::{BigEndian, ByteOrder};
use std::ops::Range;
use vstd::prelude::*;
use vstd::std_specs::convert::FromSpecImpl;

verus! {

/// A container whose bytes can be read in place.
pub trait AsBytes {
    /// The bytes that the container holds.
    spec fn bytes(&self) -> Seq<u8>;

    /// The bytes of the container, as a slice.
    fn as_bytes(&self) -> (r: &[u8])
        ensures
            r@ == self.bytes(),
    ;
}

/// A container whose bytes can be rewritten in place.
pub trait AsBytesMut: AsBytes {
    /// The slice that the container has on loan, where it owns no bytes itself.
    spec fn lent(&self) -> Option<&mut [u8]>;

    /// The bytes of the container, as a slice to write through. What is
    /// written through the slice is what the container holds afterwards, and
    /// a slice that is on loan stays on loan from the same lender.
    fn as_bytes_mut(&mut self) -> (r: &mut [u8])
        ensures
            r@ == old(self).bytes(),
            final(self).bytes() == final(r)@,
            old(self).lent() is None <==> final(self).lent() is None,
            old(self).lent() matches Some(before) ==> (final(self).lent() matches Some(after)
                && final(after)@ == final(before)@),
    ;
}

impl AsBytes for Vec<u8> {
    open spec fn bytes(&self) -> Seq<u8> {
        self@
    }

    fn as_bytes(&self) -> (r: &[u8]) {
        self.as_slice()
    }
}

impl AsBytesMut for Vec<u8> {
    open spec fn lent(&self) -> Option<&mut [u8]> {
        None
    }

    fn as_bytes_mut(&mut self) -> (r: &mut [u8]) {
        self.as_mut_slice()
    }
}

impl<'a> AsBytes for &'a [u8] {
    open spec fn bytes(&self) -> Seq<u8> {
        (*self)@
    }

    fn as_bytes(&self) -> (r: &[u8]) {
        *self
    }
}

impl<'a> AsBytes for &'a mut [u8] {
    open spec fn bytes(&self) -> Seq<u8> {
        (*self)@
    }

    fn as_bytes(&self) -> (r: &[u8]) {
        &**self
    }
}

impl<'a> AsBytesMut for &'a mut [u8] {
    open spec fn lent(&self) -> Option<&mut [u8]> {
        Some(*self)
    }

    fn as_bytes_mut(&mut self) -> (r: &mut [u8]) {
        &mut **self
    }
}

impl<const N: usize> AsBytes for [u8; N] {
    open spec fn bytes(&self) -> Seq<u8> {
        self@
    }

    fn as_bytes(&self) -> (r: &[u8]) {
        self.as_slice()
    }
}

impl<const N: usize> AsBytesMut for [u8; N] {
    open spec fn lent(&self) -> Option<&mut [u8]> {
        None
    }

    fn as_bytes_mut(&mut self) -> (r: &mut [u8]) {
        self
    }
}

/// A view of a byte container as an ARP message.
#[derive(Debug, PartialEq, Clone)]
pub struct Packet<T: AsBytes> {
    pub buffer: T,
}

/// A half-open range of byte offsets.
pub type Field = Range<usize>;

/// Where the hardware type stands.
pub const HTYPE: Field = 0..2;

/// Where the protocol type stands.
pub const PTYPE: Field = 2..4;

/// Where the hardware length stands.
pub const HLEN: usize = 4;

/// Where the protocol length stands.
pub const PLEN: usize = 5;

/// Where the operation stands.
pub const OPER: Field = 6..8;

/// The length of the fixed header.
pub const HEADER_LEN: usize = 8;

/// One of the four address fields, in the order in which they follow the header.
#[derive(Debug, PartialEq, Eq, Structural, Clone, Copy)]
pub enum AddressField {
    SenderHardware,
    SenderProtocol,
    TargetHardware,
    TargetProtocol,
}

/// The offset at which `field` starts in a message that declares the lengths
/// `hardware_len` and `protocol_len`.
pub open spec fn field_start(field: AddressField, hardware_len: u8, protocol_len: u8) -> int {
    match field {
        AddressField::SenderHardware => HEADER_LEN as int,
        AddressField::SenderProtocol => HEADER_LEN + hardware_len,
        AddressField::TargetHardware => HEADER_LEN + hardware_len + protocol_len,
        AddressField::TargetProtocol => HEADER_LEN + 2 * hardware_len + protocol_len,
    }
}

/// The length of `field` in such a message.
pub open spec fn field_len(field: AddressField, hardware_len: u8, protocol_len: u8) -> int {
    match field {
        AddressField::SenderHardware => hardware_len as int,
        AddressField::SenderProtocol => protocol_len as int,
        AddressField::TargetHardware => hardware_len as int,
        AddressField::TargetProtocol => protocol_len as int,
    }
}

/// The offset behind the last byte of `field` in such a message.
pub open spec fn field_end(field: AddressField, hardware_len: u8, protocol_len: u8) -> int {
    field_start(field, hardware_len, protocol_len) + field_len(field, hardware_len, protocol_len)
}

/// The length of a whole message that declares these two lengths.
pub open spec fn message_len(hardware_len: u8, protocol_len: u8) -> int {
    HEADER_LEN + 2 * hardware_len + 2 * protocol_len
}

/// The hardware length that the message `bytes` declares.
pub open spec fn hardware_len_of(bytes: Seq<u8>) -> u8 {
    bytes[HLEN as int]
}

/// The protocol length that the message `bytes` declares.
pub open spec fn protocol_len_of(bytes: Seq<u8>) -> u8 {
    bytes[PLEN as int]
}

/// Whether `bytes` holds the fixed header and all four address fields at the
/// lengths that the header declares.
pub open spec fn len_ok(bytes: Seq<u8>) -> bool {
    &&& bytes.len() >= HEADER_LEN
    &&& bytes.len() >= message_len(hardware_len_of(bytes), protocol_len_of(bytes))
}

/// Whether `bytes` reaches to the end of `field`, at the lengths that it declares.
pub open spec fn holds_field(bytes: Seq<u8>, field: AddressField) -> bool {
    &&& bytes.len() >= HEADER_LEN
    &&& bytes.len() >= field_end(field, hardware_len_of(bytes), protocol_len_of(bytes))
}

/// The bytes of `field` in the message `bytes`.
pub open spec fn field_of(bytes: Seq<u8>, field: AddressField) -> Seq<u8> {
    bytes.subrange(
        field_start(field, hardware_len_of(bytes), protocol_len_of(bytes)),
        field_end(field, hardware_len_of(bytes), protocol_len_of(bytes)),
    )
}

/// The message `bytes` with `value` in the place of `field`.
pub open spec fn with_field(bytes: Seq<u8>, field: AddressField, value: Seq<u8>) -> Seq<u8> {
    bytes.take(field_start(field, hardware_len_of(bytes), protocol_len_of(bytes))) + value
        + bytes.skip(field_end(field, hardware_len_of(bytes), protocol_len_of(bytes)))
}

/// The range of the sender hardware address.
#[allow(non_snake_case)]
pub fn SHA(hardware_len: u8, _protocol_len: u8) -> (r: Field)
    ensures
        r.start == field_start(AddressField::SenderHardware, hardware_len, _protocol_len),
        r.end == field_end(AddressField::SenderHardware, hardware_len, _protocol_len),
{
    let start: usize = 8;
    start..(start + hardware_len as usize)
}

/// The range of the sender protocol address.
#[allow(non_snake_case)]
pub fn SPA(hardware_len: u8, protocol_len: u8) -> (r: Field)
    ensures
        r.start == field_start(AddressField::SenderProtocol, hardware_len, protocol_len),
        r.end == field_end(AddressField::SenderProtocol, hardware_len, protocol_len),
{
    let start: usize = SHA(hardware_len, protocol_len).end;
    start..(start + protocol_len as usize)
}

/// The range of the target hardware address.
#[allow(non_snake_case)]
pub fn THA(hardware_len: u8, protocol_len: u8) -> (r: Field)
    ensures
        r.start == field_start(AddressField::TargetHardware, hardware_len, protocol_len),
        r.end == field_end(AddressField::TargetHardware, hardware_len, protocol_len),
{
    let start: usize = SPA(hardware_len, protocol_len).end;
    start..(start + hardware_len as usize)
}

/// The range of the target protocol address.
#[allow(non_snake_case)]
pub fn TPA(hardware_len: u8, protocol_len: u8) -> (r: Field)
    ensures
        r.start == field_start(AddressField::TargetProtocol, hardware_len, protocol_len),
        r.end == field_end(AddressField::TargetProtocol, hardware_len, protocol_len),
{
    let start: usize = THA(hardware_len, protocol_len).end;
    start..(start + protocol_len as usize)
}

/// Ethernet protocol type.
#[derive(Debug, PartialEq, Eq, Structural, PartialOrd, Ord, Clone, Copy)]
pub enum Protocol {
    Ipv4,
    Arp,
    Ipv6,
    Unknown(u16),
}

/// ARP hardware type.
#[derive(Debug, PartialEq, Eq, Structural, PartialOrd, Ord, Clone, Copy)]
pub enum Hardware {
    Ethernet,
    Unknown(u16),
}

/// ARP operation type.
#[derive(Debug, PartialEq, Eq, Structural, PartialOrd, Ord, Clone, Copy)]
pub enum Operation {
    Request,
    Reply,
    Unknown(u16),
}

/// The protocol type that the code `value` stands for.
pub open spec fn protocol_of_code(value: u16) -> Protocol {
    if value == 0x0800 {
        Protocol::Ipv4
    } else if value == 0x0806 {
        Protocol::Arp
    } else if value == 0x86DD {
        Protocol::Ipv6
    } else {
        Protocol::Unknown(value)
    }
}

/// The code that stands for the protocol type `value`.
pub open spec fn code_of_protocol(value: Protocol) -> u16 {
    match value {
        Protocol::Ipv4 => 0x0800,
        Protocol::Arp => 0x0806,
        Protocol::Ipv6 => 0x86DD,
        Protocol::Unknown(other) => other,
    }
}

/// The hardware type that the code `value` stands for.
pub open spec fn hardware_of_code(value: u16) -> Hardware {
    if value == 1 {
        Hardware::Ethernet
    } else {
        Hardware::Unknown(value)
    }
}

/// The code that stands for the hardware type `value`.
pub open spec fn code_of_hardware(value: Hardware) -> u16 {
    match value {
        Hardware::Ethernet => 1,
        Hardware::Unknown(other) => other,
    }
}

/// The operation that the code `value` stands for.
pub open spec fn operation_of_code(value: u16) -> Operation {
    if value == 1 {
        Operation::Request
    } else if value == 2 {
        Operation::Reply
    } else {
        Operation::Unknown(value)
    }
}

/// The code that stands for the operation `value`.
pub open spec fn code_of_operation(value: Operation) -> u16 {
    match value {
        Operation::Request => 1,
        Operation::Reply => 2,
        Operation::Unknown(other) => other,
    }
}

impl From<u16> for Protocol {
    fn from(value: u16) -> (r: Protocol) {
        match value {
            0x0800 => Protocol::Ipv4,
            0x0806 => Protocol::Arp,
            0x86DD => Protocol::Ipv6,
            other => Protocol::Unknown(other),
        }
    }
}

impl FromSpecImpl<u16> for Protocol {
    open spec fn obeys_from_spec() -> bool {
        true
    }

    open spec fn from_spec(value: u16) -> Protocol {
        protocol_of_code(value)
    }
}

impl From<Protocol> for u16 {
    fn from(value: Protocol) -> (r: u16) {
        match value {
            Protocol::Ipv4 => 0x0800,
            Protocol::Arp => 0x0806,
            Protocol::Ipv6 => 0x86DD,
            Protocol::Unknown(other) => other,
        }
    }
}

impl FromSpecImpl<Protocol> for u16 {
    open spec fn obeys_from_spec() -> bool {
        true
    }

    open spec fn from_spec(value: Protocol) -> u16 {
        code_of_protocol(value)
    }
}

impl From<u16> for Hardware {
    fn from(value: u16) -> (r: Hardware) {
        match value {
            1 => Hardware::Ethernet,
            other => Hardware::Unknown(other),
        }
    }
}

impl FromSpecImpl<u16> for Hardware {
    open spec fn obeys_from_spec() -> bool {
        true
    }

    open spec fn from_spec(value: u16) -> Hardware {
        hardware_of_code(value)
    }
}

impl From<Hardware> for u16 {
    fn from(value: Hardware) -> (r: u16) {
        match value {
            Hardware::Ethernet => 1,
            Hardware::Unknown(other) => other,
        }
    }
}

impl FromSpecImpl<Hardware> for u16 {
    open spec fn obeys_from_spec() -> bool {
        true
    }

    open spec fn from_spec(value: Hardware) -> u16 {
        code_of_hardware(value)
    }
}

impl From<u16> for Operation {
    fn from(value: u16) -> (r: Operation) {
        match value {
            1 => Operation::Request,
            2 => Operation::Reply,
            other => Operation::Unknown(other),
        }
    }
}

impl FromSpecImpl<u16> for Operation {
    open spec fn obeys_from_spec() -> bool {
        true
    }

    open spec fn from_spec(value: u16) -> Operation {
        operation_of_code(value)
    }
}

impl From<Operation> for u16 {
    fn from(value: Operation) -> (r: u16) {
        match value {
            Operation::Request => 1,
            Operation::Reply => 2,
            Operation::Unknown(other) => other,
        }
    }
}

impl FromSpecImpl<Operation> for u16 {
    open spec fn obeys_from_spec() -> bool {
        true
    }

    open spec fn from_spec(value: Operation) -> u16 {
        code_of_operation(value)
    }
}

/// Every code is preserved: the type that a code stands for has that code.
pub proof fn lemma_codes_are_preserved(value: u16)
    ensures
        code_of_protocol(protocol_of_code(value)) == value,
        code_of_hardware(hardware_of_code(value)) == value,
        code_of_operation(operation_of_code(value)) == value,
{
}

/// Why a packet could not be handled.
#[derive(Debug, PartialEq, Eq, Structural, Clone, Copy)]
#[non_exhaustive]
pub enum Error {
    /// An operation cannot proceed because a buffer is empty or full.
    Exhausted,
    /// An operation is not permitted in the current state.
    Illegal,
    /// An endpoint or address of a remote host could not be resolved to a lower level address.
    /// E.g. there was no an Ethernet address corresponding to an IPv4 address in the ARP cache,
    /// or a TCP connection attempt was made to an unspecified endpoint.
    Unaddressable,
    /// An incoming packet could not be parsed because some of its fields were out of bounds
    /// of the received data.
    Truncated,
    /// An incoming packet had an incorrect checksum and was dropped.
    Checksum,
    /// An incoming packet could not be recognized and was dropped.
    /// E.g. an Ethernet packet with an unknown EtherType.
    Unrecognized,
    /// An incoming IP packet has been split into several IP fragments and was dropped,
    /// since IP reassembly is not supported.
    Fragmented,
    /// An incoming packet was recognized but was self-contradictory.
    /// E.g. a TCP packet with both SYN and FIN flags set.
    Malformed,
    /// An incoming packet was recognized but contradicted internal state.
    /// E.g. a TCP packet addressed to a socket that doesn't exist.
    Dropped,
}

/// `byteorder::BigEndian::read_u16`: the first two bytes of `buf`, read as a
/// big-endian number. The crate panics on a shorter buffer.
#[verifier::external_body]
fn read_u16_be(buf: &[u8]) -> (value: u16)
    requires
        buf@.len() >= 2,
    ensures
        value == be16(buf@[0], buf@[1]),
{
    BigEndian::read_u16(buf)
}

/// `byteorder::BigEndian::write_u16`: overwrites the first two bytes of `buf`
/// with the big-endian encoding of `value` and leaves the others as they
/// are. The crate panics on a shorter buffer.
#[verifier::external_body]
fn write_u16_be(buf: &mut [u8], value: u16)
    requires
        old(buf)@.len() >= 2,
    ensures
        final(buf)@ == with_be16(old(buf)@, 0, value),
{
    BigEndian::write_u16(buf, value)
}

impl<T: AsBytes> View for Packet<T> {
    type V = Seq<u8>;

    /// The bytes of the message.
    open spec fn view(&self) -> Seq<u8> {
        self.buffer.bytes()
    }
}

impl<T: AsBytes> Packet<T> {
    /// Imbue a raw octet buffer with ARP packet structure.
    pub fn new_unchecked(buffer: T) -> (packet: Packet<T>)
        ensures
            packet.buffer == buffer,
    {
        Packet { buffer }
    }

    /// Shorthand for a combination of [new_unchecked] and [check_len].
    ///
    /// [new_unchecked]: #method.new_unchecked
    /// [check_len]: #method.check_len
    pub fn new_checked(buffer: T) -> (r: Result<Packet<T>, Error>)
        ensures
            r is Ok <==> len_ok(buffer.bytes()),
            r matches Ok(packet) ==> packet.buffer == buffer,
            r matches Err(e) ==> e == Error::Truncated,
    {
        let packet = Self::new_unchecked(buffer);
        match packet.check_len() {
            Ok(()) => Ok(packet),
            Err(e) => Err(e),
        }
    }

    /// Ensure that no accessor method will panic if called.
    /// Returns `Err(Error::Truncated)` if the buffer is too short.
    ///
    /// The result of this check is invalidated by calling [set_hardware_len] or
    /// [set_protocol_len].
    ///
    /// [set_hardware_len]: #method.set_hardware_len
    /// [set_protocol_len]: #method.set_protocol_len
    pub fn check_len(&self) -> (r: Result<(), Error>)
        ensures
            r is Ok <==> len_ok(self@),
            r matches Err(e) ==> e == Error::Truncated,
    {
        let len = self.buffer.as_bytes().len();
        if len < OPER.end {
            Err(Error::Truncated)
        } else if len < TPA(self.hardware_len(), self.protocol_len()).end {
            Err(Error::Truncated)
        } else {
            Ok(())
        }
    }

    /// Consume the packet, returning the underlying buffer.
    pub fn into_inner(self) -> (buffer: T)
        ensures
            buffer == self.buffer,
    {
        self.buffer
    }

    /// Return the hardware type field.
    pub fn hardware_type(&self) -> (r: Hardware)
        requires
            self@.len() >= HTYPE.end,
        ensures
            r == hardware_of_code(be16(self@[0], self@[1])),
    {
        let data = self.buffer.as_bytes();
        let raw = read_u16_be(&data[HTYPE]);
        Hardware::from(raw)
    }

    /// Return the protocol type field.
    pub fn protocol_type(&self) -> (r: Protocol)
        requires
            self@.len() >= PTYPE.end,
        ensures
            r == protocol_of_code(be16(self@[2], self@[3])),
    {
        let data = self.buffer.as_bytes();
        let raw = read_u16_be(&data[PTYPE]);
        Protocol::from(raw)
    }

    /// Return the hardware length field.
    pub fn hardware_len(&self) -> (r: u8)
        requires
            self@.len() > HLEN,
        ensures
            r == hardware_len_of(self@),
    {
        let data = self.buffer.as_bytes();
        data[HLEN]
    }

    /// Return the protocol length field.
    pub fn protocol_len(&self) -> (r: u8)
        requires
            self@.len() > PLEN,
        ensures
            r == protocol_len_of(self@),
    {
        let data = self.buffer.as_bytes();
        data[PLEN]
    }

    /// Return the operation field.
    pub fn operation(&self) -> (r: Operation)
        requires
            self@.len() >= OPER.end,
        ensures
            r == operation_of_code(be16(self@[6], self@[7])),
    {
        let data = self.buffer.as_bytes();
        let raw = read_u16_be(&data[OPER]);
        Operation::from(raw)
    }

    /// Return the source hardware address field.
    pub fn source_hardware_addr(&self) -> (r: &[u8])
        requires
            holds_field(self@, AddressField::SenderHardware),
        ensures
            r@ == field_of(self@, AddressField::SenderHardware),
    {
        let data = self.buffer.as_bytes();
        &data[SHA(self.hardware_len(), self.protocol_len())]
    }

    /// Return the source protocol address field.
    pub fn source_protocol_addr(&self) -> (r: &[u8])
        requires
            holds_field(self@, AddressField::SenderProtocol),
        ensures
            r@ == field_of(self@, AddressField::SenderProtocol),
    {
        let data = self.buffer.as_bytes();
        &data[SPA(self.hardware_len(), self.protocol_len())]
    }

    /// Return the target hardware address field.
    pub fn target_hardware_addr(&self) -> (r: &[u8])
        requires
            holds_field(self@, AddressField::TargetHardware),
        ensures
            r@ == field_of(self@, AddressField::TargetHardware),
    {
        let data = self.buffer.as_bytes();
        &data[THA(self.hardware_len(), self.protocol_len())]
    }

    /// Return the target protocol address field.
    pub fn target_protocol_addr(&self) -> (r: &[u8])
        requires
            holds_field(self@, AddressField::TargetProtocol),
        ensures
            r@ == field_of(self@, AddressField::TargetProtocol),
    {
        let data = self.buffer.as_bytes();
        &data[TPA(self.hardware_len(), self.protocol_len())]
    }
}

/// Writes `value` big-endian into the two bytes of `data` that `field` covers.
fn write_code(data: &mut [u8], field: Field, value: u16)
    requires
        field.start + 2 == field.end,
        field.end <= old(data)@.len(),
    ensures
        final(data)@ == with_be16(old(data)@, field.start as int, value),
{
    let part = part_mut(data, field.start, field.end);
    write_u16_be(part, value);
}

/// Copies `value` over the bytes of `data` that `field` covers.
fn write_field(data: &mut [u8], field: Field, value: &[u8])
    requires
        field.start + value@.len() == field.end,
        field.end <= old(data)@.len(),
    ensures
        final(data)@ == old(data)@.take(field.start as int) + value@ + old(data)@.skip(
            field.end as int,
        ),
{
    copy_into(data, field.start, value);
}

impl<T: AsBytes + AsBytesMut> Packet<T> {
    /// Set the hardware type field.
    pub fn set_hardware_type(&mut self, value: Hardware)
        requires
            old(self)@.len() >= HTYPE.end,
        ensures
            final(self)@ == with_be16(old(self)@, 0, code_of_hardware(value)),
            old(self).buffer.lent() is None <==> final(self).buffer.lent() is None,
            old(self).buffer.lent() matches Some(before) ==> (final(self).buffer.lent() matches Some(
                after,
            ) && final(after)@ == final(before)@),
    {
        let data = self.buffer.as_bytes_mut();
        write_code(data, HTYPE, value.into())
    }

    /// Set the protocol type field.
    pub fn set_protocol_type(&mut self, value: Protocol)
        requires
            old(self)@.len() >= PTYPE.end,
        ensures
            final(self)@ == with_be16(old(self)@, 2, code_of_protocol(value)),
            old(self).buffer.lent() is None <==> final(self).buffer.lent() is None,
            old(self).buffer.lent() matches Some(before) ==> (final(self).buffer.lent() matches Some(
                after,
            ) && final(after)@ == final(before)@),
    {
        let data = self.buffer.as_bytes_mut();
        write_code(data, PTYPE, value.into())
    }

    /// Set the hardware length field.
    pub fn set_hardware_len(&mut self, value: u8)
        requires
            old(self)@.len() > HLEN,
        ensures
            final(self)@ == old(self)@.update(HLEN as int, value),
            old(self).buffer.lent() is None <==> final(self).buffer.lent() is None,
            old(self).buffer.lent() matches Some(before) ==> (final(self).buffer.lent() matches Some(
                after,
            ) && final(after)@ == final(before)@),
    {
        let data = self.buffer.as_bytes_mut();
        data[HLEN] = value
    }

    /// Set the protocol length field.
    pub fn set_protocol_len(&mut self, value: u8)
        requires
            old(self)@.len() > PLEN,
        ensures
            final(self)@ == old(self)@.update(PLEN as int, value),
            old(self).buffer.lent() is None <==> final(self).buffer.lent() is None,
            old(self).buffer.lent() matches Some(before) ==> (final(self).buffer.lent() matches Some(
                after,
            ) && final(after)@ == final(before)@),
    {
        let data = self.buffer.as_bytes_mut();
        data[PLEN] = value
    }

    /// Set the operation field.
    pub fn set_operation(&mut self, value: Operation)
        requires
            old(self)@.len() >= OPER.end,
        ensures
            final(self)@ == with_be16(old(self)@, 6, code_of_operation(value)),
            old(self).buffer.lent() is None <==> final(self).buffer.lent() is None,
            old(self).buffer.lent() matches Some(before) ==> (final(self).buffer.lent() matches Some(
                after,
            ) && final(after)@ == final(before)@),
    {
        let data = self.buffer.as_bytes_mut();
        write_code(data, OPER, value.into())
    }

    /// Set the source hardware address field.
    ///
    /// `value` must be `self.hardware_len()` long.
    pub fn set_source_hardware_addr(&mut self, value: &[u8])
        requires
            holds_field(old(self)@, AddressField::SenderHardware),
            value@.len() == hardware_len_of(old(self)@),
        ensures
            final(self)@ == with_field(old(self)@, AddressField::SenderHardware, value@),
            old(self).buffer.lent() is None <==> final(self).buffer.lent() is None,
            old(self).buffer.lent() matches Some(before) ==> (final(self).buffer.lent() matches Some(
                after,
            ) && final(after)@ == final(before)@),
    {
        let (hardware_len, protocol_len) = (self.hardware_len(), self.protocol_len());
        let data = self.buffer.as_bytes_mut();
        write_field(data, SHA(hardware_len, protocol_len), value)
    }

    /// Set the source protocol address field.
    ///
    /// `value` must be `self.protocol_len()` long.
    pub fn set_source_protocol_addr(&mut self, value: &[u8])
        requires
            holds_field(old(self)@, AddressField::SenderProtocol),
            value@.len() == protocol_len_of(old(self)@),
        ensures
            final(self)@ == with_field(old(self)@, AddressField::SenderProtocol, value@),
            old(self).buffer.lent() is None <==> final(self).buffer.lent() is None,
            old(self).buffer.lent() matches Some(before) ==> (final(self).buffer.lent() matches Some(
                after,
            ) && final(after)@ == final(before)@),
    {
        let (hardware_len, protocol_len) = (self.hardware_len(), self.protocol_len());
        let data = self.buffer.as_bytes_mut();
        write_field(data, SPA(hardware_len, protocol_len), value)
    }

    /// Set the target hardware address field.
    ///
    /// `value` must be `self.hardware_len()` long.
    pub fn set_target_hardware_addr(&mut self, value: &[u8])
        requires
            holds_field(old(self)@, AddressField::TargetHardware),
            value@.len() == hardware_len_of(old(self)@),
        ensures
            final(self)@ == with_field(old(self)@, AddressField::TargetHardware, value@),
            old(self).buffer.lent() is None <==> final(self).buffer.lent() is None,
            old(self).buffer.lent() matches Some(before) ==> (final(self).buffer.lent() matches Some(
                after,
            ) && final(after)@ == final(before)@),
    {
        let (hardware_len, protocol_len) = (self.hardware_len(), self.protocol_len());
        let data = self.buffer.as_bytes_mut();
        write_field(data, THA(hardware_len, protocol_len), value)
    }

    /// Set the target protocol address field.
    ///
    /// `value` must be `self.protocol_len()` long.
    pub fn set_target_protocol_addr(&mut self, value: &[u8])
        requires
            holds_field(old(self)@, AddressField::TargetProtocol),
            value@.len() == protocol_len_of(old(self)@),
        ensures
            final(self)@ == with_field(old(self)@, AddressField::TargetProtocol, value@),
            old(self).buffer.lent() is None <==> final(self).buffer.lent() is None,
            old(self).buffer.lent() matches Some(before) ==> (final(self).buffer.lent() matches Some(
                after,
            ) && final(after)@ == final(before)@),
    {
        let (hardware_len, protocol_len) = (self.hardware_len(), self.protocol_len());
        let data = self.buffer.as_bytes_mut();
        write_field(data, TPA(hardware_len, protocol_len), value)
    }
}

/// The buffer that `create` hands out for the sender `mac` at the IPv4
/// address `a.b.c.d`: a request of an Ethernet and IPv4 sender for the
/// hardware address of 192.168.0.1, followed by fourteen bytes of filling.
pub open spec fn created_request(mac: Seq<u8>, a: u8, b: u8, c: u8, d: u8) -> Seq<u8> {
    seq![0u8, 1u8, 8u8, 0u8, 6u8, 4u8, 0u8, 1u8] + mac + seq![a, b, c, d] + seq![
        0u8,
        0u8,
        0u8,
        0u8,
        0u8,
        0u8,
    ] + seq![192u8, 168u8, 0u8, 1u8] + Seq::new(14, |i: int| 8u8)
}

/// A request for the hardware address of the gateway 192.168.0.1, sent by the
/// host with the six-byte hardware address `mac` and the address `ip`. Only
/// an IPv4 sender can ask.
pub fn create(mac: &[u8], ip: IpAddress) -> (r: Option<Packet<Vec<u8>>>)
    requires
        mac@.len() == 6,
    ensures
        r is Some <==> ip is V4,
        r matches Some(packet) ==> ip matches IpAddress::V4(v4) && packet@ == created_request(
            mac@,
            v4.0,
            v4.1,
            v4.2,
            v4.3,
        ),
{
    match ip {
        IpAddress::V4(ip) => {
            let mut packet = Packet::new_unchecked(vec![0x8u8; 42]);
            packet.set_hardware_type(Hardware::Ethernet);
            packet.set_protocol_type(Protocol::Ipv4);
            packet.set_hardware_len(6);
            packet.set_protocol_len(4);
            packet.set_operation(Operation::Request);
            packet.set_source_hardware_addr(mac);
            let sender: [u8; 4] = [ip.0, ip.1, ip.2, ip.3];
            packet.set_source_protocol_addr(sender.as_slice());
            let nobody: [u8; 6] = [0, 0, 0, 0, 0, 0];
            packet.set_target_hardware_addr(nobody.as_slice());
            let gateway: [u8; 4] = [192, 168, 0, 1];
            packet.set_target_protocol_addr(gateway.as_slice());
            Some(packet)
        },
        _ => None,
    }
}

/// Whatever lengths a header declares, the four address fields follow the
/// header one behind the other, in the order sender hardware, sender
/// protocol, target hardware, target protocol: each has its declared length,
/// each starts where the one before it ends, and the last ends where the
/// message ends.
pub proof fn lemma_fields_tile_the_message(hardware_len: u8, protocol_len: u8)
    ensures
        field_start(AddressField::SenderHardware, hardware_len, protocol_len) == HEADER_LEN,
        field_len(AddressField::SenderHardware, hardware_len, protocol_len) == hardware_len,
        field_start(AddressField::SenderProtocol, hardware_len, protocol_len) == field_end(
            AddressField::SenderHardware,
            hardware_len,
            protocol_len,
        ),
        field_len(AddressField::SenderProtocol, hardware_len, protocol_len) == protocol_len,
        field_start(AddressField::TargetHardware, hardware_len, protocol_len) == field_end(
            AddressField::SenderProtocol,
            hardware_len,
            protocol_len,
        ),
        field_len(AddressField::TargetHardware, hardware_len, protocol_len) == hardware_len,
        field_start(AddressField::TargetProtocol, hardware_len, protocol_len) == field_end(
            AddressField::TargetHardware,
            hardware_len,
            protocol_len,
        ),
        field_len(AddressField::TargetProtocol, hardware_len, protocol_len) == protocol_len,
        field_end(AddressField::TargetProtocol, hardware_len, protocol_len) == message_len(
            hardware_len,
            protocol_len,
        ),
{
}

/// Two different address fields share no offset.
pub proof fn lemma_fields_do_not_overlap(
    first: AddressField,
    second: AddressField,
    hardware_len: u8,
    protocol_len: u8,
)
    requires
        first != second,
    ensures
        field_end(first, hardware_len, protocol_len) <= field_start(
            second,
            hardware_len,
            protocol_len,
        ) || field_end(second, hardware_len, protocol_len) <= field_start(
            first,
            hardware_len,
            protocol_len,
        ),
{
}

/// A buffer that passes the length check holds every address field whole.
pub proof fn lemma_checked_buffer_holds_fields(bytes: Seq<u8>, field: AddressField)
    requires
        len_ok(bytes),
    ensures
        holds_field(bytes, field),
        HEADER_LEN <= field_start(field, hardware_len_of(bytes), protocol_len_of(bytes)),
        field_end(field, hardware_len_of(bytes), protocol_len_of(bytes)) <= bytes.len(),
        field_of(bytes, field).len() == field_len(
            field,
            hardware_len_of(bytes),
            protocol_len_of(bytes),
        ),
{
}

/// A buffer that is exactly as long as its header declares passes the length check.
pub proof fn lemma_exact_length_passes(bytes: Seq<u8>)
    requires
        bytes.len() == message_len(hardware_len_of(bytes), protocol_len_of(bytes)),
    ensures
        len_ok(bytes),
{
}

/// A buffer that is one byte shorter than its header declares fails the length check.
pub proof fn lemma_one_byte_short_fails(bytes: Seq<u8>)
    requires
        bytes.len() + 1 == message_len(hardware_len_of(bytes), protocol_len_of(bytes)),
    ensures
        !len_ok(bytes),
{
}

/// An address field that was written is read back byte for byte; the
/// header, the length of the message and the other three fields stay as
/// they were.
pub proof fn lemma_field_read_after_write(bytes: Seq<u8>, field: AddressField, value: Seq<u8>)
    requires
        len_ok(bytes),
        value.len() == field_len(field, hardware_len_of(bytes), protocol_len_of(bytes)),
    ensures
        with_field(bytes, field, value).len() == bytes.len(),
        with_field(bytes, field, value).take(HEADER_LEN as int) == bytes.take(HEADER_LEN as int),
        len_ok(with_field(bytes, field, value)),
        field_of(with_field(bytes, field, value), field) == value,
        forall|other: AddressField|
            other != field ==> #[trigger] field_of(with_field(bytes, field, value), other)
                == field_of(bytes, other),
{
    let after = with_field(bytes, field, value);
}

/// When all four address fields are written, one after the other, each is
/// read back as it was written, whatever was written to the others; the
/// header and the length of the message stay as they were.
pub proof fn lemma_all_fields_read_after_write(
    bytes: Seq<u8>,
    sender_hardware: Seq<u8>,
    sender_protocol: Seq<u8>,
    target_hardware: Seq<u8>,
    target_protocol: Seq<u8>,
)
    requires
        len_ok(bytes),
        sender_hardware.len() == hardware_len_of(bytes),
        sender_protocol.len() == protocol_len_of(bytes),
        target_hardware.len() == hardware_len_of(bytes),
        target_protocol.len() == protocol_len_of(bytes),
    ensures
        ({
            let written = with_field(
                with_field(
                    with_field(
                        with_field(bytes, AddressField::SenderHardware, sender_hardware),
                        AddressField::SenderProtocol,
                        sender_protocol,
                    ),
                    AddressField::TargetHardware,
                    target_hardware,
                ),
                AddressField::TargetProtocol,
                target_protocol,
            );
            &&& written.len() == bytes.len()
            &&& written.take(HEADER_LEN as int) == bytes.take(HEADER_LEN as int)
            &&& field_of(written, AddressField::SenderHardware) == sender_hardware
            &&& field_of(written, AddressField::SenderProtocol) == sender_protocol
            &&& field_of(written, AddressField::TargetHardware) == target_hardware
            &&& field_of(written, AddressField::TargetProtocol) == target_protocol
        }),
{
    let first = with_field(bytes, AddressField::SenderHardware, sender_hardware);
    lemma_field_read_after_write(bytes, AddressField::SenderHardware, sender_hardware);
    let second = with_field(first, AddressField::SenderProtocol, sender_protocol);
    lemma_field_read_after_write(first, AddressField::SenderProtocol, sender_protocol);
    let third = with_field(second, AddressField::TargetHardware, target_hardware);
    lemma_field_read_after_write(second, AddressField::TargetHardware, target_hardware);
    lemma_field_read_after_write(third, AddressField::TargetProtocol, target_protocol);
}

} // verus!
