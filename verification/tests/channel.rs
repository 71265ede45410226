use linklayer::channel::{
    duration_to_timespec, network_addr_to_sockaddr, open_start, open_step, promiscuous_request,
    received_frame, receiver_timeout, retry, scratch_buffer, send_result, sender_timeout,
    socket_parameters, timeout_to_timespec,
    timespec_of_parts, transfer_start, transfer_step, wrap_i32, wrap_i64, ChannelError,
    ChannelType, Config, IoReturn, LinkAddress, OpenAction, OpenState, SocketKind, SysReturn,
    Timespec, TransferAction, TransferState, EINTR, ETH_P_ALL, PACKET_ADD_MEMBERSHIP,
    PACKET_MR_PROMISC, SOL_PACKET,
};
use linklayer::ether::{EtherType, Packet};
use linklayer::network_interface::{MacAddr, NetworkInterface};
use std::time::Duration;

fn eth0() -> NetworkInterface {
    NetworkInterface {
        name: "eth0".to_string(),
        index: 2,
        mac: Some(MacAddr(0x28, 0xef, 0xf9, 0x5f, 0x8e, 0x2b)),
        ips: None,
        flags: 0,
    }
}

fn ok(ret: i32) -> SysReturn {
    SysReturn { ret, errno: 0 }
}

fn failed(errno: i32) -> SysReturn {
    SysReturn { ret: -1, errno }
}

#[test]
fn the_default_configuration() {
    let config = Config::default();
    assert_eq!(config.write_buffer_size, 4096);
    assert_eq!(config.read_buffer_size, 4096);
    assert_eq!(config.read_timeout, None);
    assert_eq!(config.write_timeout, None);
    assert_eq!(config.channel_type, ChannelType::Layer2);
}

#[test]
fn the_constants_of_packet_sockets() {
    assert_eq!(SOL_PACKET, 263);
    assert_eq!(PACKET_ADD_MEMBERSHIP, 1);
    assert_eq!(PACKET_MR_PROMISC, 1);
    assert_eq!(ETH_P_ALL, 3);
    assert_eq!(EINTR, 4);
}

#[test]
fn the_channel_type_selects_socket_and_protocol() {
    assert_eq!(socket_parameters(ChannelType::Layer2), (SocketKind::Raw, 0x0003));
    assert_eq!(
        socket_parameters(ChannelType::Layer3(EtherType(0x0806))),
        (SocketKind::Datagram, 0x0806)
    );
    assert_eq!(
        socket_parameters(ChannelType::Layer3(EtherType(0xffff))),
        (SocketKind::Datagram, 0xffff)
    );
}

#[test]
fn numbers_keep_their_bits_when_they_become_signed() {
    assert_eq!(wrap_i32(0), 0);
    assert_eq!(wrap_i32(2), 2);
    assert_eq!(wrap_i32(0x7fff_ffff), i32::MAX);
    assert_eq!(wrap_i32(0x8000_0000), i32::MIN);
    assert_eq!(wrap_i32(u32::MAX), -1);
    assert_eq!(wrap_i64(0), 0);
    assert_eq!(wrap_i64(0x7fff_ffff_ffff_ffff), i64::MAX);
    assert_eq!(wrap_i64(0x8000_0000_0000_0000), i64::MIN);
    assert_eq!(wrap_i64(u64::MAX), -1);
}

#[test]
fn a_duration_becomes_seconds_and_nanoseconds() {
    assert_eq!(
        duration_to_timespec(Duration::from_millis(10)),
        Timespec { tv_sec: 0, tv_nsec: 10_000_000 }
    );
    assert_eq!(
        duration_to_timespec(Duration::new(5, 999_999_999)),
        Timespec { tv_sec: 5, tv_nsec: 999_999_999 }
    );
    assert_eq!(duration_to_timespec(Duration::new(0, 0)), Timespec { tv_sec: 0, tv_nsec: 0 });
    assert_eq!(
        duration_to_timespec(Duration::new(u64::MAX, 1)),
        Timespec { tv_sec: -1, tv_nsec: 1 }
    );
    assert_eq!(timespec_of_parts(7, 8), Timespec { tv_sec: 7, tv_nsec: 8 });
    assert_eq!(
        timespec_of_parts(0x8000_0000_0000_0000, 0),
        Timespec { tv_sec: i64::MIN, tv_nsec: 0 }
    );
}

#[test]
fn an_optional_timeout_becomes_an_optional_time_span() {
    assert_eq!(timeout_to_timespec(None), None);
    assert_eq!(
        timeout_to_timespec(Some(Duration::from_millis(1500))),
        Some(Timespec { tv_sec: 1, tv_nsec: 500_000_000 })
    );
}

#[test]
fn the_link_address_of_an_interface() {
    let address = network_addr_to_sockaddr(&eth0(), 0x0003);
    assert_eq!(address, LinkAddress {
        protocol: 3,
        ifindex: 2,
        halen: 6,
        addr: [0x28, 0xef, 0xf9, 0x5f, 0x8e, 0x2b, 0, 0],
    });
    let mut nameless = eth0();
    nameless.mac = None;
    nameless.index = u32::MAX;
    let address = network_addr_to_sockaddr(&nameless, 0x0806);
    assert_eq!(address, LinkAddress { protocol: 0x0806, ifindex: -1, halen: 6, addr: [0; 8] });
    assert_eq!(network_addr_to_sockaddr(&eth0(), 0x1_0806).protocol, 0x0806);
    assert_eq!(network_addr_to_sockaddr(&eth0(), -1).protocol, 0xffff);
}

#[test]
fn the_request_for_promiscuous_delivery() {
    let request = promiscuous_request(&eth0());
    assert_eq!(request.mr_ifindex, 2);
    assert_eq!(request.mr_type, 1);
    assert_eq!(request.mr_alen, 0);
    assert_eq!(request.mr_address, [0u8; 8]);
}

#[test]
fn opening_begins_with_the_socket() {
    let (state, action) = open_start(&Config::default());
    assert_eq!(state, OpenState::Creating);
    assert_eq!(action, OpenAction::CreateSocket { kind: SocketKind::Raw, protocol: 3 });
    let mut config = Config::default();
    config.channel_type = ChannelType::Layer3(EtherType(0x0800));
    let (state, action) = open_start(&config);
    assert_eq!(state, OpenState::Creating);
    assert_eq!(action, OpenAction::CreateSocket { kind: SocketKind::Datagram, protocol: 0x0800 });
}

#[test]
fn opening_succeeds_step_by_step() {
    let ni = eth0();
    let config = Config::default();
    let (state, _) = open_start(&config);
    let (state, action) = open_step(&ni, &config, state, ok(5));
    assert_eq!(state, OpenState::Binding { socket: 5 });
    assert_eq!(action, OpenAction::Bind {
        socket: 5,
        address: LinkAddress {
            protocol: 3,
            ifindex: 2,
            halen: 6,
            addr: [0x28, 0xef, 0xf9, 0x5f, 0x8e, 0x2b, 0, 0],
        },
    });
    let (state, action) = open_step(&ni, &config, state, ok(0));
    assert_eq!(state, OpenState::Joining { socket: 5 });
    assert_eq!(action, OpenAction::AddMembership { socket: 5, request: promiscuous_request(&ni) });
    let (state, action) = open_step(&ni, &config, state, ok(0));
    assert_eq!(state, OpenState::Unblocking { socket: 5 });
    assert_eq!(action, OpenAction::SetNonBlocking { socket: 5 });
    let (state, action) = open_step(&ni, &config, state, ok(0));
    assert_eq!(state, OpenState::Ready { socket: 5 });
    assert_eq!(action, OpenAction::Done { socket: 5 });
    let (state, action) = open_step(&ni, &config, state, failed(9));
    assert_eq!(state, OpenState::Ready { socket: 5 });
    assert_eq!(action, OpenAction::Done { socket: 5 });
}

#[test]
fn a_layer_three_channel_binds_to_its_protocol() {
    let ni = eth0();
    let mut config = Config::default();
    config.channel_type = ChannelType::Layer3(EtherType(0x0806));
    let (state, _) = open_start(&config);
    let (_, action) = open_step(&ni, &config, state, ok(7));
    match action {
        OpenAction::Bind { socket, address } => {
            assert_eq!(socket, 7);
            assert_eq!(address.protocol, 0x0806);
        }
        other => panic!("unexpected action {:?}", other),
    }
}

#[test]
fn a_socket_that_cannot_be_created_leaves_nothing_to_close() {
    let ni = eth0();
    let config = Config::default();
    let (state, _) = open_start(&config);
    let (state, action) = open_step(&ni, &config, state, failed(1));
    assert_eq!(state, OpenState::Failed { error: 1 });
    assert_eq!(action, OpenAction::Fail { error: 1 });
    let (state, action) = open_step(&ni, &config, state, ok(0));
    assert_eq!(state, OpenState::Failed { error: 1 });
    assert_eq!(action, OpenAction::Fail { error: 1 });
}

#[test]
fn a_failed_bind_closes_the_socket_and_reports_its_error() {
    let mut ni = eth0();
    ni.index = 0x7fff_fff0;
    let config = Config::default();
    let (state, _) = open_start(&config);
    let (state, _) = open_step(&ni, &config, state, ok(11));
    let (state, action) = open_step(&ni, &config, state, failed(19));
    assert_eq!(state, OpenState::Closing { socket: 11, error: 19 });
    assert_eq!(action, OpenAction::Close { socket: 11 });
    let (state, action) = open_step(&ni, &config, state, ok(0));
    assert_eq!(state, OpenState::Failed { error: 19 });
    assert_eq!(action, OpenAction::Fail { error: 19 });
}

#[test]
fn a_failure_at_any_later_step_closes_the_socket_once() {
    let ni = eth0();
    let config = Config::default();
    for failing in 1..4usize {
        let (mut state, mut action) = open_start(&config);
        let mut closes = 0;
        let mut steps = 0;
        loop {
            let event = match action {
                OpenAction::CreateSocket { .. } => ok(6),
                OpenAction::Close { socket } => {
                    assert_eq!(socket, 6);
                    closes += 1;
                    failed(9)
                }
                OpenAction::Done { .. } | OpenAction::Fail { .. } => break,
                _ => {
                    if steps == failing {
                        failed(100 + failing as i32)
                    } else {
                        ok(0)
                    }
                }
            };
            let next = open_step(&ni, &config, state, event);
            state = next.0;
            action = next.1;
            steps += 1;
        }
        assert_eq!(closes, 1);
        assert_eq!(state, OpenState::Failed { error: 100 + failing as i32 });
        assert_eq!(action, OpenAction::Fail { error: 100 + failing as i32 });
    }
}

#[test]
fn a_transfer_begins_with_the_wait() {
    assert_eq!(transfer_start(), (TransferState::Waiting, TransferAction::Wait));
}

#[test]
fn a_ready_socket_moves_the_frame() {
    let (state, _) = transfer_start();
    let (state, action) = transfer_step(state, IoReturn { ret: 1, errno: 0 });
    assert_eq!((state, action), (TransferState::Moving, TransferAction::Move));
    let (state, action) = transfer_step(state, IoReturn { ret: 42, errno: 0 });
    assert_eq!(state, TransferState::Finished(Ok(42)));
    assert_eq!(action, TransferAction::Return(Ok(42)));
    let (state, action) = transfer_step(state, IoReturn { ret: -1, errno: 5 });
    assert_eq!(state, TransferState::Finished(Ok(42)));
    assert_eq!(action, TransferAction::Return(Ok(42)));
}

#[test]
fn a_move_of_no_bytes_is_a_success() {
    let (state, action) = transfer_step(TransferState::Moving, IoReturn { ret: 0, errno: 0 });
    assert_eq!(state, TransferState::Finished(Ok(0)));
    assert_eq!(action, TransferAction::Return(Ok(0)));
}

#[test]
fn a_wait_that_finds_nothing_ready_times_out() {
    let (state, _) = transfer_start();
    let (state, action) = transfer_step(state, IoReturn { ret: 0, errno: 0 });
    assert_eq!(state, TransferState::Finished(Err(ChannelError::TimedOut)));
    assert_eq!(action, TransferAction::Return(Err(ChannelError::TimedOut)));
    let (state, _) = transfer_step(TransferState::Waiting, IoReturn { ret: 0, errno: EINTR });
    assert_eq!(state, TransferState::Finished(Err(ChannelError::TimedOut)));
}

#[test]
fn a_failed_call_ends_the_transfer_with_its_error() {
    let (state, action) = transfer_step(TransferState::Waiting, IoReturn { ret: -1, errno: 9 });
    assert_eq!(state, TransferState::Finished(Err(ChannelError::Os(9))));
    assert_eq!(action, TransferAction::Return(Err(ChannelError::Os(9))));
    let (state, action) = transfer_step(TransferState::Moving, IoReturn { ret: -1, errno: 100 });
    assert_eq!(state, TransferState::Finished(Err(ChannelError::Os(100))));
    assert_eq!(action, TransferAction::Return(Err(ChannelError::Os(100))));
}

#[test]
fn an_interrupted_call_is_made_again() {
    let interrupted = IoReturn { ret: -1, errno: EINTR };
    let (state, action) = transfer_step(TransferState::Waiting, interrupted);
    assert_eq!((state, action), (TransferState::Waiting, TransferAction::Wait));
    let (state, action) = transfer_step(state, interrupted);
    assert_eq!((state, action), (TransferState::Waiting, TransferAction::Wait));
    let (state, _) = transfer_step(state, IoReturn { ret: 1, errno: 0 });
    let (state, action) = transfer_step(state, interrupted);
    assert_eq!((state, action), (TransferState::Moving, TransferAction::Move));
    let (state, action) = transfer_step(state, IoReturn { ret: 60, errno: EINTR });
    assert_eq!(state, TransferState::Finished(Ok(60)));
    assert_eq!(action, TransferAction::Return(Ok(60)));
}

#[test]
fn interruptions_do_not_change_how_a_transfer_ends() {
    let interrupted = IoReturn { ret: -1, errno: EINTR };
    let plain = [IoReturn { ret: 1, errno: 0 }, IoReturn { ret: -1, errno: 11 }];
    let noisy = [interrupted, plain[0], interrupted, interrupted, plain[1], interrupted];
    let mut a = TransferState::Waiting;
    for event in plain {
        a = transfer_step(a, event).0;
    }
    let mut b = TransferState::Waiting;
    for event in noisy {
        b = transfer_step(b, event).0;
    }
    assert_eq!(a, b);
    assert_eq!(a, TransferState::Finished(Err(ChannelError::Os(11))));
}

#[test]
fn only_an_interrupted_call_is_retried() {
    assert!(retry(-1, EINTR));
    assert!(!retry(-1, 11));
    assert!(!retry(0, EINTR));
    assert!(!retry(10, EINTR));
    assert!(!retry(-1, 0));
}

#[test]
fn a_return_value_other_than_minus_one_is_never_retried() {
    assert!(!retry(-2, EINTR));
    assert!(!retry(-3, EINTR));
    assert!(!retry(isize::MIN, EINTR));
    assert!(!retry(1, EINTR));
    assert!(!retry(isize::MAX, EINTR));
    assert!(!retry(-2, 0));
}

#[test]
fn another_negative_return_value_ends_the_transfer_with_the_error_number() {
    let odd = IoReturn { ret: -2, errno: EINTR };
    let (state, action) = transfer_step(TransferState::Moving, odd);
    assert_eq!(state, TransferState::Finished(Err(ChannelError::Os(EINTR))));
    assert_eq!(action, TransferAction::Return(Err(ChannelError::Os(EINTR))));
    let (state, action) = transfer_step(TransferState::Waiting, odd);
    assert_eq!(state, TransferState::Finished(Err(ChannelError::Os(EINTR))));
    assert_eq!(action, TransferAction::Return(Err(ChannelError::Os(EINTR))));
    let (state, _) = transfer_step(TransferState::Moving, IoReturn { ret: -7, errno: 32 });
    assert_eq!(state, TransferState::Finished(Err(ChannelError::Os(32))));
}

#[test]
fn a_receive_with_a_timeout_of_ten_milliseconds_and_no_traffic_times_out() {
    let mut config = Config::default();
    config.read_timeout = Some(Duration::from_millis(10));
    assert_eq!(receiver_timeout(&config), Some(Timespec { tv_sec: 0, tv_nsec: 10_000_000 }));
    assert_eq!(sender_timeout(&config), None);
    let (mut state, mut action) = transfer_start();
    let mut waits = 0;
    let mut moves = 0;
    loop {
        let event = match action {
            TransferAction::Wait => {
                waits += 1;
                IoReturn { ret: 0, errno: 0 }
            }
            TransferAction::Move => {
                moves += 1;
                IoReturn { ret: 60, errno: 0 }
            }
            TransferAction::Return(result) => {
                assert_eq!(result, Err(ChannelError::TimedOut));
                break;
            }
        };
        let next = transfer_step(state, event);
        state = next.0;
        action = next.1;
    }
    assert_eq!(waits, 1);
    assert_eq!(moves, 0);
    assert_eq!(state, TransferState::Finished(Err(ChannelError::TimedOut)));
}

#[test]
fn each_half_waits_with_its_own_timeout() {
    let mut config = Config::default();
    assert_eq!(receiver_timeout(&config), None);
    assert_eq!(sender_timeout(&config), None);
    config.write_timeout = Some(Duration::new(2, 5));
    config.read_timeout = Some(Duration::new(3, 7));
    assert_eq!(sender_timeout(&config), Some(Timespec { tv_sec: 2, tv_nsec: 5 }));
    assert_eq!(receiver_timeout(&config), Some(Timespec { tv_sec: 3, tv_nsec: 7 }));
}

#[test]
fn the_sender_reports_success_without_the_count() {
    assert_eq!(send_result(Ok(42)), Some(Ok(())));
    assert_eq!(send_result(Ok(0)), Some(Ok(())));
    assert_eq!(send_result(Err(ChannelError::TimedOut)), Some(Err(ChannelError::TimedOut)));
    assert_eq!(send_result(Err(ChannelError::Os(5))), Some(Err(ChannelError::Os(5))));
}

#[test]
fn a_received_frame_covers_the_bytes_that_were_read() {
    let mut buffer = scratch_buffer(4096);
    for (i, byte) in buffer.iter_mut().enumerate().take(60) {
        *byte = i as u8;
    }
    let frame = received_frame(&buffer, 60).unwrap();
    assert_eq!(frame.packet().len(), 60);
    assert_eq!(frame.packet(), &buffer[..60]);
    assert_eq!(frame.payload().len(), 46);
    assert_eq!(frame.get_ethertype(), EtherType(0x0c0d));
    assert_eq!(received_frame(&buffer, 14).unwrap().packet().len(), 14);
    assert_eq!(received_frame(&buffer, 4096).unwrap().packet().len(), 4096);
}

#[test]
fn fewer_bytes_than_a_header_are_no_frame() {
    let buffer = scratch_buffer(64);
    assert!(received_frame(&buffer, 0).is_none());
    assert!(received_frame(&buffer, 13).is_none());
    assert!(received_frame(&buffer, 65).is_none());
    assert!(received_frame(&[], 14).is_none());
}

#[test]
fn a_scratch_buffer_is_zero_filled() {
    assert_eq!(scratch_buffer(0), Vec::<u8>::new());
    assert_eq!(scratch_buffer(5), vec![0u8; 5]);
    assert_eq!(scratch_buffer(4096), vec![0u8; 4096]);
}
