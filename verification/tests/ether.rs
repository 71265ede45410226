use linklayer::ether::{
    EtherType, EtherTypes, Ethernet, EthernetIterable, EthernetPacket, FromPacket, MutPacketData,
    MutablePacket, MutableEthernetPacket, Packet, PacketData, PacketSize, PrimitiveValues,
};
use linklayer::network_interface::{Ipv4Address, Ipv6Address, MacAddr};

fn sample_frame() -> Vec<u8> {
    vec![
        0xff, 0xff, 0xff, 0xff, 0xff, 0xff, 0x28, 0xef, 0xf9, 0x5f, 0x8e, 0x2b, 0x08, 0x06, 0xde,
        0xad, 0xbe, 0xef,
    ]
}

#[test]
fn a_buffer_shorter_than_the_header_gives_no_view() {
    for len in 0..14usize {
        let bytes = vec![0u8; len];
        assert!(EthernetPacket::new(&bytes).is_none());
        assert!(EthernetPacket::owned(bytes.clone()).is_none());
        let mut writable = bytes.clone();
        assert!(MutableEthernetPacket::new(&mut writable).is_none());
        assert!(MutableEthernetPacket::owned(bytes).is_none());
    }
}

#[test]
fn a_buffer_of_the_header_length_gives_a_view_with_an_empty_payload() {
    let bytes = vec![7u8; 14];
    let view = EthernetPacket::new(&bytes).unwrap();
    assert_eq!(view.packet(), &bytes[..]);
    assert!(view.payload().is_empty());
    let owned = EthernetPacket::owned(bytes.clone()).unwrap();
    assert!(owned.payload().is_empty());
    let mut writable = bytes.clone();
    let mut mutable = MutableEthernetPacket::new(&mut writable).unwrap();
    assert!(mutable.payload().is_empty());
    assert!(mutable.payload_mut().is_empty());
    let mut owned_mutable = MutableEthernetPacket::owned(bytes).unwrap();
    assert!(owned_mutable.payload_mut().is_empty());
}

#[test]
fn minimum_packet_size_is_the_header_length() {
    assert_eq!(EthernetPacket::minimum_packet_size(), 14);
    assert_eq!(MutableEthernetPacket::minimum_packet_size(), 14);
}

#[test]
fn the_header_fields_are_read_from_their_offsets() {
    let bytes = sample_frame();
    let view = EthernetPacket::new(&bytes).unwrap();
    assert_eq!(view.get_destination(), MacAddr(0xff, 0xff, 0xff, 0xff, 0xff, 0xff));
    assert_eq!(view.get_source(), MacAddr(0x28, 0xef, 0xf9, 0x5f, 0x8e, 0x2b));
    assert_eq!(view.get_ethertype(), EtherType(0x0806));
    assert_eq!(view.payload(), &[0xde, 0xad, 0xbe, 0xef]);
    assert_eq!(view.packet(), &bytes[..]);
}

#[test]
fn the_mutable_view_reads_the_same_fields() {
    let mut bytes = sample_frame();
    let view = MutableEthernetPacket::new(&mut bytes).unwrap();
    assert_eq!(view.get_destination(), MacAddr(0xff, 0xff, 0xff, 0xff, 0xff, 0xff));
    assert_eq!(view.get_source(), MacAddr(0x28, 0xef, 0xf9, 0x5f, 0x8e, 0x2b));
    assert_eq!(view.get_ethertype(), EtherType(0x0806));
    assert_eq!(view.payload(), &[0xde, 0xad, 0xbe, 0xef]);
}

#[test]
fn the_ethertype_is_big_endian() {
    let mut bytes = vec![0u8; 14];
    bytes[12] = 0x86;
    bytes[13] = 0xdd;
    assert_eq!(EthernetPacket::new(&bytes).unwrap().get_ethertype(), EtherType(0x86dd));
    let mut view = MutableEthernetPacket::owned(vec![0u8; 14]).unwrap();
    view.set_ethertype(EtherType(0x1234));
    assert_eq!(view.packet()[12], 0x12);
    assert_eq!(view.packet()[13], 0x34);
}

#[test]
fn the_setters_write_their_bytes_and_no_others() {
    let mut view = MutableEthernetPacket::owned(vec![0xaau8; 18]).unwrap();
    view.set_destination(MacAddr(1, 2, 3, 4, 5, 6));
    assert_eq!(
        view.packet(),
        &[1, 2, 3, 4, 5, 6, 0xaa, 0xaa, 0xaa, 0xaa, 0xaa, 0xaa, 0xaa, 0xaa, 0xaa, 0xaa, 0xaa, 0xaa]
    );
    view.set_source(MacAddr(7, 8, 9, 10, 11, 12));
    assert_eq!(
        view.packet(),
        &[1, 2, 3, 4, 5, 6, 7, 8, 9, 10, 11, 12, 0xaa, 0xaa, 0xaa, 0xaa, 0xaa, 0xaa]
    );
    view.set_ethertype(EtherType(0x0800));
    assert_eq!(
        view.packet(),
        &[1, 2, 3, 4, 5, 6, 7, 8, 9, 10, 11, 12, 0x08, 0x00, 0xaa, 0xaa, 0xaa, 0xaa]
    );
    view.set_payload(&[0x10, 0x20]);
    assert_eq!(
        view.packet(),
        &[1, 2, 3, 4, 5, 6, 7, 8, 9, 10, 11, 12, 0x08, 0x00, 0x10, 0x20, 0xaa, 0xaa]
    );
    view.set_payload(&[]);
    assert_eq!(view.packet().len(), 18);
    assert_eq!(view.payload(), &[0x10, 0x20, 0xaa, 0xaa]);
}

#[test]
fn setting_what_was_got_changes_nothing() {
    for seed in 0..=255u8 {
        let bytes: Vec<u8> = (0..20u8).map(|i| seed.wrapping_mul(31).wrapping_add(i.wrapping_mul(17))).collect();
        let mut view = MutableEthernetPacket::owned(bytes.clone()).unwrap();
        let destination = view.get_destination();
        view.set_destination(destination);
        assert_eq!(view.packet(), &bytes[..]);
        let source = view.get_source();
        view.set_source(source);
        assert_eq!(view.packet(), &bytes[..]);
        let ethertype = view.get_ethertype();
        view.set_ethertype(ethertype);
        assert_eq!(view.packet(), &bytes[..]);
    }
}

#[test]
fn getting_what_was_set_gives_it_back() {
    let mut view = MutableEthernetPacket::owned(vec![0u8; 14]).unwrap();
    for byte in 0..=255u8 {
        let mac = MacAddr(byte, byte ^ 0xff, byte.wrapping_add(1), 0, 255, byte);
        view.set_destination(mac);
        assert_eq!(view.get_destination(), mac);
        view.set_source(mac);
        assert_eq!(view.get_source(), mac);
    }
    for code in 0..=u16::MAX {
        view.set_ethertype(EtherType(code));
        assert_eq!(view.get_ethertype(), EtherType(code));
    }
}

#[test]
fn a_borrowed_view_writes_into_the_lent_buffer() {
    let mut bytes = vec![0u8; 16];
    {
        let mut view = MutableEthernetPacket::new(&mut bytes).unwrap();
        view.set_destination(MacAddr(1, 2, 3, 4, 5, 6));
        view.set_ethertype(EtherType(0x0806));
        view.set_payload(&[9, 8]);
    }
    assert_eq!(bytes, vec![1, 2, 3, 4, 5, 6, 0, 0, 0, 0, 0, 0, 8, 6, 9, 8]);
}

#[test]
fn populate_writes_every_part_of_the_record() {
    let record = Ethernet {
        destination: MacAddr(0xff, 0xff, 0xff, 0xff, 0xff, 0xff),
        source: MacAddr(0x28, 0xef, 0xf9, 0x5f, 0x8e, 0x2b),
        ethertype: EtherType(0x0806),
        payload: vec![0xde, 0xad, 0xbe, 0xef],
    };
    let mut view = MutableEthernetPacket::owned(vec![0u8; 20]).unwrap();
    view.populate(&record);
    let mut expected = sample_frame();
    expected.extend_from_slice(&[0, 0]);
    assert_eq!(view.packet(), &expected[..]);
}

#[test]
fn packet_size_of_a_record_counts_header_and_payload() {
    let mut record = Ethernet {
        destination: MacAddr(0, 0, 0, 0, 0, 0),
        source: MacAddr(0, 0, 0, 0, 0, 0),
        ethertype: EtherType(0),
        payload: vec![],
    };
    assert_eq!(EthernetPacket::packet_size(&record), 14);
    assert_eq!(MutableEthernetPacket::packet_size(&record), 14);
    record.payload = vec![0u8; 1500];
    assert_eq!(EthernetPacket::packet_size(&record), 1514);
    assert_eq!(MutableEthernetPacket::packet_size(&record), 1514);
}

#[test]
fn the_calculated_size_of_a_view_is_the_header_length() {
    let bytes = sample_frame();
    assert_eq!(PacketSize::packet_size(&EthernetPacket::new(&bytes).unwrap()), 14);
    let view = MutableEthernetPacket::owned(bytes).unwrap();
    assert_eq!(PacketSize::packet_size(&view), 14);
}

#[test]
fn from_packet_copies_fields_and_payload() {
    let bytes = sample_frame();
    let record = EthernetPacket::new(&bytes).unwrap().from_packet();
    assert_eq!(record.destination, MacAddr(0xff, 0xff, 0xff, 0xff, 0xff, 0xff));
    assert_eq!(record.source, MacAddr(0x28, 0xef, 0xf9, 0x5f, 0x8e, 0x2b));
    assert_eq!(record.ethertype, EtherType(0x0806));
    assert_eq!(record.payload, vec![0xde, 0xad, 0xbe, 0xef]);
    let record = MutableEthernetPacket::owned(bytes[..14].to_vec()).unwrap().from_packet();
    assert_eq!(record.ethertype, EtherType(0x0806));
    assert!(record.payload.is_empty());
}

#[test]
fn to_immutable_shows_the_same_bytes() {
    let bytes = sample_frame();
    let owned = EthernetPacket::owned(bytes.clone()).unwrap();
    assert_eq!(owned.to_immutable().packet(), &bytes[..]);
    assert_eq!(owned.consume_to_immutable().packet(), &bytes[..]);
    let mut mutable = MutableEthernetPacket::owned(bytes.clone()).unwrap();
    mutable.set_ethertype(EtherType(0x0800));
    assert_eq!(mutable.to_immutable().get_ethertype(), EtherType(0x0800));
    let frozen = mutable.consume_to_immutable();
    assert_eq!(frozen.get_ethertype(), EtherType(0x0800));
    assert_eq!(frozen.get_source(), MacAddr(0x28, 0xef, 0xf9, 0x5f, 0x8e, 0x2b));
    let mut lent = bytes.clone();
    let frozen = MutableEthernetPacket::new(&mut lent).unwrap().consume_to_immutable();
    assert_eq!(frozen.packet(), &bytes[..]);
}

#[test]
fn packet_mut_and_payload_mut_write_through() {
    let mut view = MutableEthernetPacket::owned(sample_frame()).unwrap();
    view.packet_mut()[0] = 0x01;
    assert_eq!(view.get_destination(), MacAddr(0x01, 0xff, 0xff, 0xff, 0xff, 0xff));
    view.payload_mut()[3] = 0x00;
    assert_eq!(view.payload(), &[0xde, 0xad, 0xbe, 0x00]);
    assert_eq!(view.payload_mut().len(), 4);
    assert_eq!(view.packet_mut().len(), 18);
}

#[test]
fn clone_from_copies_the_other_packet_over_the_front() {
    let source = sample_frame();
    let other = EthernetPacket::new(&source).unwrap();
    let mut view = MutableEthernetPacket::owned(vec![0x55u8; 20]).unwrap();
    view.clone_from(&other);
    let mut expected = sample_frame();
    expected.extend_from_slice(&[0x55, 0x55]);
    assert_eq!(view.packet(), &expected[..]);
    let mut same_size = MutableEthernetPacket::owned(vec![0u8; 18]).unwrap();
    same_size.clone_from(&other);
    assert_eq!(same_size.packet(), &source[..]);
}

#[test]
fn the_iteration_yields_a_view_and_steps_over_a_header() {
    let bytes: Vec<u8> = (0..30u8).collect();
    let mut frames = EthernetIterable::new(&bytes);
    assert_eq!(frames.size_hint(), (0, None));
    let first = frames.next().unwrap();
    assert_eq!(first.packet(), &bytes[..]);
    let second = frames.next().unwrap();
    assert_eq!(second.packet(), &bytes[14..]);
    assert_eq!(second.get_destination(), MacAddr(14, 15, 16, 17, 18, 19));
    assert!(frames.next().is_none());
    assert!(frames.next().is_none());
}

#[test]
fn the_iteration_over_too_few_bytes_is_empty() {
    let bytes = vec![0u8; 13];
    assert!(EthernetIterable::new(&bytes).next().is_none());
    assert!(EthernetIterable::new(&[]).next().is_none());
    let exact = vec![0u8; 14];
    let mut frames = EthernetIterable::new(&exact);
    assert_eq!(frames.next().unwrap().packet().len(), 14);
    assert!(frames.next().is_none());
}

#[test]
fn ethertypes_are_printed_by_name() {
    assert_eq!(EtherType(EtherTypes::Ipv4).name(), "Ipv4");
    assert_eq!(EtherType(EtherTypes::Arp).name(), "Arp");
    assert_eq!(EtherType(EtherTypes::WakeOnLan).name(), "WakeOnLan");
    assert_eq!(EtherType(EtherTypes::Trill).name(), "Trill");
    assert_eq!(EtherType(EtherTypes::DECnet).name(), "DECnet");
    assert_eq!(EtherType(EtherTypes::Rarp).name(), "Rarp");
    assert_eq!(EtherType(EtherTypes::AppleTalk).name(), "AppleTalk");
    assert_eq!(EtherType(EtherTypes::Aarp).name(), "Aarp");
    assert_eq!(EtherType(EtherTypes::Ipx).name(), "Ipx");
    assert_eq!(EtherType(EtherTypes::Qnx).name(), "Qnx");
    assert_eq!(EtherType(EtherTypes::Ipv6).name(), "Ipv6");
    assert_eq!(EtherType(EtherTypes::FlowControl).name(), "FlowControl");
    assert_eq!(EtherType(EtherTypes::CobraNet).name(), "CobraNet");
    assert_eq!(EtherType(EtherTypes::Mpls).name(), "Mpls");
    assert_eq!(EtherType(EtherTypes::MplsMcast).name(), "MplsMcast");
    assert_eq!(EtherType(EtherTypes::PppoeDiscovery).name(), "PppoeDiscovery");
    assert_eq!(EtherType(EtherTypes::PppoeSession).name(), "PppoeSession");
    assert_eq!(EtherType(EtherTypes::Vlan).name(), "Vlan");
    assert_eq!(EtherType(EtherTypes::PBridge).name(), "PBridge");
    assert_eq!(EtherType(EtherTypes::Lldp).name(), "Lldp");
    assert_eq!(EtherType(EtherTypes::Ptp).name(), "Ptp");
    assert_eq!(EtherType(EtherTypes::Cfm).name(), "Cfm");
    assert_eq!(EtherType(EtherTypes::QinQ).name(), "QinQ");
    assert_eq!(EtherType(0).name(), "unknown");
    assert_eq!(EtherType(0xffff).name(), "unknown");
}

#[test]
fn the_named_ethertypes_have_their_codes() {
    assert_eq!(EtherTypes::Ipv4, 0x0800);
    assert_eq!(EtherTypes::Arp, 0x0806);
    assert_eq!(EtherTypes::Ipv6, 0x86dd);
    assert_eq!(EtherTypes::Vlan, 0x8100);
    assert_eq!(EtherTypes::QinQ, 0x9100);
    assert_eq!(EtherType::new(0x0806), EtherType(EtherTypes::Arp));
}

#[test]
fn values_are_taken_apart_into_primitives() {
    assert_eq!(MacAddr(1, 2, 3, 4, 5, 6).to_primitive_values(), (1, 2, 3, 4, 5, 6));
    assert_eq!(Ipv4Address(192, 168, 0, 1).to_primitive_values(), (192, 168, 0, 1));
    assert_eq!(
        Ipv6Address(1, 2, 3, 4, 5, 6, 7, 8).to_primitive_values(),
        (1, 2, 3, 4, 5, 6, 7, 8)
    );
    assert_eq!(EtherType(0x0806).to_primitive_values(), (0x0806,));
}

#[test]
fn packet_data_exposes_its_bytes() {
    let bytes = vec![10u8, 20, 30, 40, 50];
    let owned = PacketData::Owned(bytes.clone());
    let borrowed = PacketData::Borrowed(&bytes);
    for data in [&owned, &borrowed] {
        assert_eq!(data.as_slice(), &bytes[..]);
        assert_eq!(data.len(), 5);
        assert_eq!(data.get(0), 10);
        assert_eq!(data.get(4), 50);
        assert_eq!(data.get_range(1..3), &[20, 30]);
        assert_eq!(data.get_range(2..2), &[] as &[u8]);
        assert_eq!(data.get_to(2), &[10, 20]);
        assert_eq!(data.get_from(3), &[40, 50]);
        assert_eq!(data.get_from(5), &[] as &[u8]);
    }
    assert!(owned.to_immutable() == PacketData::Owned(bytes.clone()));
}

#[test]
fn mutable_packet_data_exposes_and_changes_its_bytes() {
    let bytes = vec![10u8, 20, 30, 40, 50];
    let mut owned = MutPacketData::Owned(bytes.clone());
    assert_eq!(owned.as_slice(), &bytes[..]);
    assert_eq!(owned.len(), 5);
    assert_eq!(owned.get(1), 20);
    assert_eq!(owned.get_range(1..4), &[20, 30, 40]);
    assert_eq!(owned.get_to(1), &[10]);
    assert_eq!(owned.get_from(4), &[50]);
    owned.set(2, 99);
    owned.as_mut_slice()[0] = 1;
    assert_eq!(owned.as_slice(), &[1, 20, 99, 40, 50]);
    assert!(owned.to_immutable() == PacketData::Owned(vec![1, 20, 99, 40, 50]));
    let mut lent = bytes.clone();
    {
        let mut borrowed = MutPacketData::Borrowed(&mut lent);
        borrowed.set(4, 0);
        borrowed.as_mut_slice()[3] = 7;
        assert_eq!(borrowed.len(), 5);
        let frozen = borrowed.to_immutable();
        assert_eq!(frozen.as_slice(), &[10, 20, 30, 7, 0]);
    }
    assert_eq!(lent, vec![10, 20, 30, 7, 0]);
}
