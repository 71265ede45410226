use linklayer::frame::{DataLink, Ethernet2Frame};

#[test]
fn a_full_frame_is_taken_apart() {
    let mut bytes = [0u8; 1518];
    for (i, byte) in bytes.iter_mut().enumerate() {
        *byte = (i % 251) as u8;
    }
    let frame = Ethernet2Frame::new(&bytes);
    assert_eq!(frame.dest, vec![0, 1, 2, 3, 4, 5]);
    assert_eq!(frame.src, vec![6, 7, 8, 9, 10, 11]);
    assert_eq!(frame.ethertype, vec![12, 13]);
    assert_eq!(frame.data.len(), 1500);
    assert_eq!(frame.data[0], 14);
    assert_eq!(frame.data[1499], (1513 % 251) as u8);
    assert_eq!(&frame.data[..], &bytes[14..1514]);
}

#[test]
fn the_data_link_header_is_the_first_fourteen_bytes() {
    let bytes: Vec<u8> = (100..130u8).collect();
    let header = Ethernet2Frame::data_link(&bytes);
    assert_eq!(header.0, (100..114u8).collect::<Vec<u8>>());
    assert_eq!(Ethernet2Frame::dest(&header), vec![100, 101, 102, 103, 104, 105]);
    assert_eq!(Ethernet2Frame::src(&header), vec![106, 107, 108, 109, 110, 111]);
    assert_eq!(Ethernet2Frame::ethertype(&header), vec![112, 113]);
}

#[test]
fn the_parts_are_read_from_a_header_built_by_hand() {
    let header = DataLink(vec![1, 2, 3, 4, 5, 6, 7, 8, 9, 10, 11, 12, 0x08, 0x06]);
    assert_eq!(Ethernet2Frame::dest(&header), vec![1, 2, 3, 4, 5, 6]);
    assert_eq!(Ethernet2Frame::src(&header), vec![7, 8, 9, 10, 11, 12]);
    assert_eq!(Ethernet2Frame::ethertype(&header), vec![0x08, 0x06]);
}

#[test]
fn the_default_frame_is_empty() {
    let frame = Ethernet2Frame::default();
    assert!(frame.src.is_empty());
    assert!(frame.dest.is_empty());
    assert!(frame.ethertype.is_empty());
    assert!(frame.data.is_empty());
}
