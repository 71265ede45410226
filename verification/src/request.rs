//! The one message that a host sends to learn a hardware address: an ARP
//! request for an Ethernet and IPv4 pair, framed for the wire.

use crate::arp::{
    field_of, hardware_len_of, hardware_of_code, len_ok, operation_of_code, protocol_len_of,
    protocol_of_code, AddressField, Hardware, Operation, Packet, Protocol,
};
use crate::ether::{
    destination_of, ethertype_of, payload_of, source_of, EtherType, EtherTypes,
    MutableEthernetPacket, Packet as FramePacket,
};
use crate::network_interface::{Ipv4Address, MacAddr};
use crate::wire::be16;
use vstd::prelude::*;

verus! {

/// The length of an ARP message between Ethernet and IPv4 hosts.
pub const ARP_REQUEST_LEN: usize = 28;

/// The length of the Ethernet frame that carries such a message.
pub const ARP_FRAME_LEN: usize = 42;

/// The bytes of the request by which the host with the addresses
/// `source_mac` and `source_ip` asks about `target_ip`, with `target_mac` in
/// the place of the address that it asks for.
pub open spec fn arp_request_bytes(
    source_ip: Ipv4Address,
    source_mac: MacAddr,
    target_ip: Ipv4Address,
    target_mac: MacAddr,
) -> Seq<u8> {
    seq![0u8, 1u8, 8u8, 0u8, 6u8, 4u8, 0u8, 1u8] + source_mac.octets() + source_ip.octets()
        + target_mac.octets() + target_ip.octets()
}

/// The bytes of the Ethernet frame that carries that request from
/// `source_mac` to `target_mac`.
pub open spec fn arp_request_frame_bytes(
    source_ip: Ipv4Address,
    source_mac: MacAddr,
    target_ip: Ipv4Address,
    target_mac: MacAddr,
) -> Seq<u8> {
    target_mac.octets() + source_mac.octets() + seq![8u8, 6u8] + arp_request_bytes(
        source_ip,
        source_mac,
        target_ip,
        target_mac,
    )
}

/// The ARP request of the host `source_mac` at `source_ip` about `target_ip`.
pub fn arp_request(
    source_ip: Ipv4Address,
    source_mac: MacAddr,
    target_ip: Ipv4Address,
    target_mac: MacAddr,
) -> (r: Vec<u8>)
    ensures
        r@ == arp_request_bytes(source_ip, source_mac, target_ip, target_mac),
{
    let mut arp_packet = Packet::new_unchecked(vec![0u8; 28]);
    arp_packet.set_hardware_type(Hardware::Ethernet);
    arp_packet.set_protocol_type(Protocol::Ipv4);
    arp_packet.set_hardware_len(6);
    arp_packet.set_protocol_len(4);
    arp_packet.set_operation(Operation::Request);
    let sender_hw = source_mac.to_octets();
    arp_packet.set_source_hardware_addr(sender_hw.as_slice());
    let sender_proto = source_ip.to_octets();
    arp_packet.set_source_protocol_addr(sender_proto.as_slice());
    let target_hw = target_mac.to_octets();
    arp_packet.set_target_hardware_addr(target_hw.as_slice());
    let target_proto = target_ip.to_octets();
    arp_packet.set_target_protocol_addr(target_proto.as_slice());
    arp_packet.into_inner()
}

/// The Ethernet frame, addressed to `target_mac`, that carries the ARP
/// request of the host `source_mac` at `source_ip` about `target_ip`.
pub fn arp_request_frame(
    source_ip: Ipv4Address,
    source_mac: MacAddr,
    target_ip: Ipv4Address,
    target_mac: MacAddr,
) -> (r: Vec<u8>)
    ensures
        r@ == arp_request_frame_bytes(source_ip, source_mac, target_ip, target_mac),
{
    let ethernet_buffer: Vec<u8> = vec![0u8; 42];
    let mut ethernet_packet = MutableEthernetPacket::owned(ethernet_buffer).unwrap();
    ethernet_packet.set_destination(target_mac);
    ethernet_packet.set_source(source_mac);
    ethernet_packet.set_ethertype(EtherType::new(EtherTypes::Arp));
    let arp_buffer = arp_request(source_ip, source_mac, target_ip, target_mac);
    ethernet_packet.set_payload(arp_buffer.as_slice());
    let r = vstd::slice::slice_to_vec(ethernet_packet.packet());
    r
}

/// Every field that went into a request frame is read back from its bytes:
/// the two Ethernet addresses, the EtherType of ARP, and from the payload
/// the five header fields and the four addresses of the ARP message.
pub proof fn lemma_request_frame_reads_back(
    source_ip: Ipv4Address,
    source_mac: MacAddr,
    target_ip: Ipv4Address,
    target_mac: MacAddr,
)
    ensures
        ({
            let frame = arp_request_frame_bytes(source_ip, source_mac, target_ip, target_mac);
            let message = payload_of(frame);
            &&& frame.len() == ARP_FRAME_LEN
            &&& destination_of(frame) == target_mac
            &&& source_of(frame) == source_mac
            &&& ethertype_of(frame) == EtherType(EtherTypes::Arp)
            &&& message == arp_request_bytes(source_ip, source_mac, target_ip, target_mac)
            &&& message.len() == ARP_REQUEST_LEN
            &&& len_ok(message)
            &&& hardware_of_code(be16(message[0], message[1])) == Hardware::Ethernet
            &&& protocol_of_code(be16(message[2], message[3])) == Protocol::Ipv4
            &&& hardware_len_of(message) == 6
            &&& protocol_len_of(message) == 4
            &&& operation_of_code(be16(message[6], message[7])) == Operation::Request
            &&& field_of(message, AddressField::SenderHardware) == source_mac.octets()
            &&& field_of(message, AddressField::SenderProtocol) == source_ip.octets()
            &&& field_of(message, AddressField::TargetHardware) == target_mac.octets()
            &&& field_of(message, AddressField::TargetProtocol) == target_ip.octets()
        }),
{
    let frame = arp_request_frame_bytes(source_ip, source_mac, target_ip, target_mac);
    let message = payload_of(frame);
}

} // verus!
