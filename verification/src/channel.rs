//! The raw-socket channel: its configuration, the plain values that are
//! handed to the operating system, and the decisions that are taken between
//! one system call and the next.
//!
//! The library makes no system call. Opening a channel and moving a frame
//! through it are state machines: a step takes the state and what the last
//! call returned, and gives the next state and what to do next. The caller
//! performs that action and comes back with its result.

use crate::ether::{EtherType, EthernetPacket, ETHERNET_HEADER_LEN};
use crate::network_interface::{MacAddr, NetworkInterface};
use std::time::Duration;
use vstd::prelude::*;

verus! {

/// The socket level of packet sockets.
pub const SOL_PACKET: i32 = 263;

/// The socket option that adds a membership to a packet socket.
pub const PACKET_ADD_MEMBERSHIP: i32 = 1;

/// The membership that delivers every frame that the interface sees.
pub const PACKET_MR_PROMISC: i32 = 1;

/// The protocol number that selects every EtherType.
pub const ETH_P_ALL: u16 = 3;

/// What a failed system call returns.
pub const SYSCALL_FAILED: i32 = -1;

/// The error number of a system call that a signal interrupted.
pub const EINTR: i32 = 4;

#[derive(Clone, Copy, Debug, Eq, Hash, PartialEq, Structural)]
pub enum ChannelType {
    /// Send and receive layer 2 packets directly, including headers
    Layer2,
    /// Send and receive "cooked" packets - send and receive network layer packets
    Layer3(EtherType),
}

#[derive(Clone, Copy, Debug, Eq, Hash, PartialEq)]
pub struct Config {
    /// The size of buffer to use when writing packets. Defaults to 4096
    pub write_buffer_size: usize,
    /// The size of buffer to use when reading packets. Defaults to 4096
    pub read_buffer_size: usize,
    /// The read timeout. Defaults to None.
    pub read_timeout: Option<Duration>,
    /// The write timeout. Defaults to None.
    pub write_timeout: Option<Duration>,
    /// Specifies whether to read packets at the datalink layer or network layer.
    /// Defaults to Layer2
    pub channel_type: ChannelType,
}

impl Default for Config {
    fn default() -> (config: Config)
        ensures
            config.write_buffer_size == 4096,
            config.read_buffer_size == 4096,
            config.read_timeout is None,
            config.write_timeout is None,
            config.channel_type == ChannelType::Layer2,
    {
        Config {
            write_buffer_size: 4096,
            read_buffer_size: 4096,
            read_timeout: None,
            write_timeout: None,
            channel_type: ChannelType::Layer2,
        }
    }
}

/// The two kinds of packet socket.
#[derive(Clone, Copy, Debug, Eq, Hash, PartialEq, Structural)]
pub enum SocketKind {
    /// Frames are passed with their link-layer header.
    Raw,
    /// Frames are passed without their link-layer header.
    Datagram,
}

/// The kind of socket and the protocol number that a channel of type
/// `channel_type` is opened with: a raw socket for every EtherType at layer
/// 2, a datagram socket for the one declared EtherType at layer 3.
pub open spec fn socket_parameters_of(channel_type: ChannelType) -> (SocketKind, u16) {
    match channel_type {
        ChannelType::Layer2 => (SocketKind::Raw, ETH_P_ALL),
        ChannelType::Layer3(EtherType(proto)) => (SocketKind::Datagram, proto),
    }
}

/// The kind of socket and the protocol number for a channel of type `channel_type`.
pub fn socket_parameters(channel_type: ChannelType) -> (r: (SocketKind, u16))
    ensures
        r == socket_parameters_of(channel_type),
{
    match channel_type {
        ChannelType::Layer2 => (SocketKind::Raw, ETH_P_ALL),
        ChannelType::Layer3(EtherType(proto)) => (SocketKind::Datagram, proto),
    }
}

/// The signed 32-bit number with the same bits as `value`.
pub open spec fn wrapped_i32(value: u32) -> i32 {
    if value <= i32::MAX {
        value as i32
    } else {
        (value - 0x1_0000_0000) as i32
    }
}

/// The signed 64-bit number with the same bits as `value`.
pub open spec fn wrapped_i64(value: u64) -> i64 {
    if value <= i64::MAX {
        value as i64
    } else {
        (value - 0x1_0000_0000_0000_0000) as i64
    }
}

/// The signed 32-bit number with the same bits as `value`.
pub fn wrap_i32(value: u32) -> (r: i32)
    ensures
        r == wrapped_i32(value),
{
    if value <= 0x7fff_ffff {
        value as i32
    } else {
        (value - 0x8000_0000) as i32 + i32::MIN
    }
}

/// The signed 64-bit number with the same bits as `value`.
pub fn wrap_i64(value: u64) -> (r: i64)
    ensures
        r == wrapped_i64(value),
{
    if value <= 0x7fff_ffff_ffff_ffff {
        value as i64
    } else {
        (value - 0x8000_0000_0000_0000) as i64 + i64::MIN
    }
}

/// A span of time as the operating system takes it: whole seconds and the
/// nanoseconds beyond them.
#[derive(Clone, Copy, Debug, Eq, Hash, PartialEq, Structural)]
pub struct Timespec {
    pub tv_sec: i64,
    pub tv_nsec: i64,
}

/// The whole seconds of a duration, as `Duration::as_secs` gives them.
pub uninterp spec fn whole_seconds(dur: Duration) -> u64;

/// The nanoseconds of a duration beyond its whole seconds, as
/// `Duration::subsec_nanos` gives them.
pub uninterp spec fn subsecond_nanos(dur: Duration) -> u32;

/// `Duration::as_secs`: the number of whole seconds in `dur`.
#[verifier::external_body]
fn duration_as_secs(dur: &Duration) -> (secs: u64)
    ensures
        secs == whole_seconds(*dur),
{
    dur.as_secs()
}

/// `Duration::subsec_nanos`: the part of `dur` beyond its whole seconds, in
/// nanoseconds. It is always less than one second.
#[verifier::external_body]
fn duration_subsec_nanos(dur: &Duration) -> (nanos: u32)
    ensures
        nanos == subsecond_nanos(*dur),
        nanos < 1_000_000_000,
{
    dur.subsec_nanos()
}

/// The time span of `secs` seconds and `nanos` nanoseconds. A number of
/// seconds beyond the signed range keeps its bits.
pub fn timespec_of_parts(secs: u64, nanos: u32) -> (r: Timespec)
    ensures
        r.tv_sec == wrapped_i64(secs),
        r.tv_nsec == nanos,
{
    Timespec { tv_sec: wrap_i64(secs), tv_nsec: nanos as i64 }
}

/// The time span that the operating system is handed for `dur`.
pub fn duration_to_timespec(dur: Duration) -> (r: Timespec)
    ensures
        r.tv_sec == wrapped_i64(whole_seconds(dur)),
        r.tv_nsec == subsecond_nanos(dur),
        0 <= r.tv_nsec < 1_000_000_000,
{
    timespec_of_parts(duration_as_secs(&dur), duration_subsec_nanos(&dur))
}

/// The time span for an optional timeout: none waits without end.
pub fn timeout_to_timespec(timeout: Option<Duration>) -> (r: Option<Timespec>)
    ensures
        r is Some <==> timeout is Some,
        r matches Some(t) ==> t.tv_sec == wrapped_i64(whole_seconds(timeout->0)) && t.tv_nsec
            == subsecond_nanos(timeout->0),
{
    match timeout {
        Some(to) => Some(duration_to_timespec(to)),
        None => None,
    }
}

/// The time span that bounds every wait of the receiving half of a channel
/// with `config`: its read timeout, and none where the wait has no end.
pub fn receiver_timeout(config: &Config) -> (r: Option<Timespec>)
    ensures
        r is Some <==> config.read_timeout is Some,
        r matches Some(t) ==> t.tv_sec == wrapped_i64(whole_seconds(config.read_timeout->0))
            && t.tv_nsec == subsecond_nanos(config.read_timeout->0),
{
    timeout_to_timespec(config.read_timeout)
}

/// The time span that bounds every wait of the sending half of a channel
/// with `config`: its write timeout, and none where the wait has no end.
pub fn sender_timeout(config: &Config) -> (r: Option<Timespec>)
    ensures
        r is Some <==> config.write_timeout is Some,
        r matches Some(t) ==> t.tv_sec == wrapped_i64(whole_seconds(config.write_timeout->0))
            && t.tv_nsec == subsecond_nanos(config.write_timeout->0),
{
    timeout_to_timespec(config.write_timeout)
}

/// The link-layer address that a packet socket is bound to and sends to.
#[derive(Clone, Copy, Debug, Eq, Hash, PartialEq)]
pub struct LinkAddress {
    /// The protocol number. The operating system takes it in network byte order.
    pub protocol: u16,
    /// The index of the interface.
    pub ifindex: i32,
    /// The length of the hardware address.
    pub halen: u8,
    /// The hardware address, padded with zero bytes.
    pub addr: [u8; 8],
}

/// The eight address bytes of an interface whose hardware address is `mac`:
/// the six octets and two zero bytes, or all zero where none is known.
pub open spec fn padded_address(mac: Option<MacAddr>) -> Seq<u8> {
    match mac {
        Some(mac) => seq![mac.0, mac.1, mac.2, mac.3, mac.4, mac.5, 0u8, 0u8],
        None => seq![0u8, 0u8, 0u8, 0u8, 0u8, 0u8, 0u8, 0u8],
    }
}

/// The link-layer address of `ni` for the protocol `proto`: the low 16 bits
/// of `proto`, the interface's index, and its hardware address as six bytes.
pub fn network_addr_to_sockaddr(ni: &NetworkInterface, proto: i32) -> (r: LinkAddress)
    ensures
        r.protocol == proto & 0xffff,
        r.ifindex == wrapped_i32(ni.index),
        r.halen == 6,
        r.addr@ == padded_address(ni.mac),
{
    let low: i32 = proto & 0xffff;
    assert(0 <= proto & 0xffff <= 0xffff) by (bit_vector);
    let addr: [u8; 8] = match ni.mac {
        Some(MacAddr(a, b, c, d, e, f)) => [a, b, c, d, e, f, 0, 0],
        None => [0, 0, 0, 0, 0, 0, 0, 0],
    };
    LinkAddress { protocol: low as u16, ifindex: wrap_i32(ni.index), halen: 6, addr }
}

/// A request to join or leave a membership of a packet socket.
#[allow(non_camel_case_types)]
#[derive(Clone, Copy, Debug, Eq, Hash, PartialEq)]
pub struct packet_mreq {
    pub mr_ifindex: i32,
    pub mr_type: u16,
    pub mr_alen: u16,
    pub mr_address: [u8; 8],
}

/// The request that turns on promiscuous delivery on the interface `ni`.
pub fn promiscuous_request(ni: &NetworkInterface) -> (r: packet_mreq)
    ensures
        r.mr_ifindex == wrapped_i32(ni.index),
        r.mr_type == PACKET_MR_PROMISC,
        r.mr_alen == 0,
        r.mr_address@ == padded_address(None),
{
    let mr_address: [u8; 8] = [0, 0, 0, 0, 0, 0, 0, 0];
    packet_mreq { mr_ifindex: wrap_i32(ni.index), mr_type: 1, mr_alen: 0, mr_address }
}

/// What a system call handed back: its return value and, for a call that
/// failed, the error number that the operating system set.
#[derive(Clone, Copy, Debug, Eq, Hash, PartialEq, Structural)]
pub struct SysReturn {
    pub ret: i32,
    pub errno: i32,
}

/// How far the opening of a channel has come.
#[derive(Clone, Copy, Debug, Eq, Hash, PartialEq, Structural)]
pub enum OpenState {
    /// The socket has been asked for.
    Creating,
    /// The socket exists and is being bound to the interface.
    Binding { socket: i32 },
    /// The socket is bound and promiscuous delivery is being requested.
    Joining { socket: i32 },
    /// The socket is being switched to non-blocking mode.
    Unblocking { socket: i32 },
    /// A step failed with `error` and the socket is being closed.
    Closing { socket: i32, error: i32 },
    /// The channel is open on `socket`.
    Ready { socket: i32 },
    /// The channel could not be opened, and no socket is left behind.
    Failed { error: i32 },
}

/// What the caller is to do next while a channel is being opened.
#[derive(Clone, Copy, Debug, Eq, Hash, PartialEq)]
pub enum OpenAction {
    /// Create a packet socket of this kind for this protocol.
    CreateSocket { kind: SocketKind, protocol: u16 },
    /// Bind the socket to this address.
    Bind { socket: i32, address: LinkAddress },
    /// Set the option `PACKET_ADD_MEMBERSHIP` of level `SOL_PACKET` to this request.
    AddMembership { socket: i32, request: packet_mreq },
    /// Switch the socket to non-blocking mode.
    SetNonBlocking { socket: i32 },
    /// Close the socket.
    Close { socket: i32 },
    /// Stop: the channel is open on this socket.
    Done { socket: i32 },
    /// Stop: the channel could not be opened, for this error.
    Fail { error: i32 },
}

/// Whether `action` is what the caller is to do on entering `state`, for a
/// channel on the interface `ni` with `config`: the call that the state
/// waits for, with its arguments, or the end of the opening.
pub open spec fn open_action_for(
    ni: &NetworkInterface,
    config: &Config,
    state: OpenState,
    action: OpenAction,
) -> bool {
    match state {
        OpenState::Creating => action == (OpenAction::CreateSocket {
            kind: socket_parameters_of(config.channel_type).0,
            protocol: socket_parameters_of(config.channel_type).1,
        }),
        OpenState::Binding { socket } => action matches OpenAction::Bind { socket: s, address }
            && s == socket && address.protocol == socket_parameters_of(config.channel_type).1
            && address.ifindex == wrapped_i32(ni.index) && address.halen == 6 && address.addr@
            == padded_address(ni.mac),
        OpenState::Joining { socket } => action matches OpenAction::AddMembership {
            socket: s,
            request,
        } && s == socket && request.mr_ifindex == wrapped_i32(ni.index) && request.mr_type
            == PACKET_MR_PROMISC && request.mr_alen == 0 && request.mr_address@ == padded_address(
            None,
        ),
        OpenState::Unblocking { socket } => action == (OpenAction::SetNonBlocking { socket }),
        OpenState::Closing { socket, error } => action == (OpenAction::Close { socket }),
        OpenState::Ready { socket } => action == (OpenAction::Done { socket }),
        OpenState::Failed { error } => action == (OpenAction::Fail { error }),
    }
}

/// The state that follows `state` once the last call has returned `event`.
///
/// A call that returns -1 has failed. The failure of the first call leaves
/// nothing to close; the failure of a later one leads to `Closing` with the
/// error of that call, and from there to `Failed` with the same error,
/// whatever the closing call returns.
pub open spec fn open_next(state: OpenState, event: SysReturn) -> OpenState {
    match state {
        OpenState::Creating => if event.ret == SYSCALL_FAILED {
            OpenState::Failed { error: event.errno }
        } else {
            OpenState::Binding { socket: event.ret }
        },
        OpenState::Binding { socket } => if event.ret == SYSCALL_FAILED {
            OpenState::Closing { socket, error: event.errno }
        } else {
            OpenState::Joining { socket }
        },
        OpenState::Joining { socket } => if event.ret == SYSCALL_FAILED {
            OpenState::Closing { socket, error: event.errno }
        } else {
            OpenState::Unblocking { socket }
        },
        OpenState::Unblocking { socket } => if event.ret == SYSCALL_FAILED {
            OpenState::Closing { socket, error: event.errno }
        } else {
            OpenState::Ready { socket }
        },
        OpenState::Closing { socket, error } => OpenState::Failed { error },
        OpenState::Ready { socket } => state,
        OpenState::Failed { error } => state,
    }
}

/// Starts to open a channel: the state to begin in and the first action, the
/// creation of the socket that `config` asks for.
pub fn open_start(config: &Config) -> (r: (OpenState, OpenAction))
    ensures
        r.0 == OpenState::Creating,
        r.1 == (OpenAction::CreateSocket {
            kind: socket_parameters_of(config.channel_type).0,
            protocol: socket_parameters_of(config.channel_type).1,
        }),
{
    let (kind, protocol) = socket_parameters(config.channel_type);
    (OpenState::Creating, OpenAction::CreateSocket { kind, protocol })
}

/// One step of opening a channel on the interface `ni` with `config`: from
/// `state` and what the last call returned to the next state and the next action.
pub fn open_step(ni: &NetworkInterface, config: &Config, state: OpenState, event: SysReturn) -> (r:
    (OpenState, OpenAction))
    ensures
        r.0 == open_next(state, event),
        !(r.0 is Creating),
        open_action_for(ni, config, r.0, r.1),
{
    let failed = event.ret == SYSCALL_FAILED;
    match state {
        OpenState::Creating => {
            if failed {
                (OpenState::Failed { error: event.errno }, OpenAction::Fail { error: event.errno })
            } else {
                let socket = event.ret;
                let (_, protocol) = socket_parameters(config.channel_type);
                let address = network_addr_to_sockaddr(ni, protocol as i32);
                assert((protocol as i32) & 0xffff == protocol) by (bit_vector);
                (OpenState::Binding { socket }, OpenAction::Bind { socket, address })
            }
        },
        OpenState::Binding { socket } => {
            if failed {
                (OpenState::Closing { socket, error: event.errno }, OpenAction::Close { socket })
            } else {
                let request = promiscuous_request(ni);
                (OpenState::Joining { socket }, OpenAction::AddMembership { socket, request })
            }
        },
        OpenState::Joining { socket } => {
            if failed {
                (OpenState::Closing { socket, error: event.errno }, OpenAction::Close { socket })
            } else {
                (OpenState::Unblocking { socket }, OpenAction::SetNonBlocking { socket })
            }
        },
        OpenState::Unblocking { socket } => {
            if failed {
                (OpenState::Closing { socket, error: event.errno }, OpenAction::Close { socket })
            } else {
                (OpenState::Ready { socket }, OpenAction::Done { socket })
            }
        },
        OpenState::Closing { socket, error } => {
            (OpenState::Failed { error }, OpenAction::Fail { error })
        },
        OpenState::Ready { socket } => (state, OpenAction::Done { socket }),
        OpenState::Failed { error } => (state, OpenAction::Fail { error }),
    }
}

/// The state that is reached from `state` when the calls return `events`, one after the other.
pub open spec fn open_run(state: OpenState, events: Seq<SysReturn>) -> OpenState
    decreases events.len(),
{
    if events.len() == 0 {
        state
    } else {
        open_run(open_next(state, events[0]), events.skip(1))
    }
}

/// How often the caller is asked to close a socket on the way from `state`
/// when the calls return `events`: once for every step that enters `Closing`.
pub open spec fn open_closes(state: OpenState, events: Seq<SysReturn>) -> nat
    decreases events.len(),
{
    if events.len() == 0 {
        0
    } else {
        let next = open_next(state, events[0]);
        let here: nat = if next is Closing {
            1
        } else {
            0
        };
        here + open_closes(next, events.skip(1))
    }
}

/// Whether a socket exists in `state` that has not been asked to close.
pub open spec fn holds_socket(state: OpenState) -> bool {
    state is Binding || state is Joining || state is Unblocking || state is Ready
}

/// The socket that `state` speaks of, if there is one.
pub open spec fn socket_of(state: OpenState) -> Option<i32> {
    match state {
        OpenState::Creating => None,
        OpenState::Binding { socket } => Some(socket),
        OpenState::Joining { socket } => Some(socket),
        OpenState::Unblocking { socket } => Some(socket),
        OpenState::Closing { socket, error } => Some(socket),
        OpenState::Ready { socket } => Some(socket),
        OpenState::Failed { error } => None,
    }
}

/// From a state in which a socket is held, whatever the calls return: the
/// socket is closed once if the run ends in `Closing` or `Failed`, and not at
/// all if the run still holds it; it is the same socket all the way. From
/// `Closing` and `Failed` nothing is closed any more: `Closing` is followed
/// by `Failed` with the error that it carries, and `Failed` and `Ready` stay.
pub proof fn lemma_held_socket_closed_once(state: OpenState, events: Seq<SysReturn>)
    requires
        !(state is Creating),
    ensures
        holds_socket(state) ==> (holds_socket(open_run(state, events)) ==> open_closes(
            state,
            events,
        ) == 0 && socket_of(open_run(state, events)) == socket_of(state)),
        holds_socket(state) ==> (!holds_socket(open_run(state, events)) ==> open_closes(
            state,
            events,
        ) == 1),
        holds_socket(state) ==> (open_run(state, events) is Closing ==> socket_of(
            open_run(state, events),
        ) == socket_of(state)),
        !holds_socket(state) ==> open_closes(state, events) == 0 && !holds_socket(
            open_run(state, events),
        ),
        !(open_run(state, events) is Creating),
        state is Closing ==> open_run(state, events) == state || open_run(state, events) == (
        OpenState::Failed { error: state->Closing_error }),
        state is Ready ==> open_run(state, events) == state,
        state is Failed ==> open_run(state, events) == state,
    decreases events.len(),
{
    if events.len() > 0 {
        lemma_held_socket_closed_once(open_next(state, events[0]), events.skip(1));
    }
}

/// No socket is leaked and none is closed twice, whatever the system calls
/// return while a channel is opened.
///
/// A run that ends in `Failed` has closed the socket exactly once if the
/// socket was created, and never if its creation failed. A run that is
/// closing has asked for that once, and for the socket that was created. A
/// run that ends in `Ready`, or is still on its way there, has closed
/// nothing and holds the socket that was created.
pub proof fn lemma_socket_closed_exactly_once(events: Seq<SysReturn>)
    ensures
        open_run(OpenState::Creating, events) is Failed ==> open_closes(
            OpenState::Creating,
            events,
        ) == (if events[0].ret == SYSCALL_FAILED {
            0nat
        } else {
            1nat
        }),
        open_run(OpenState::Creating, events) is Closing ==> open_closes(
            OpenState::Creating,
            events,
        ) == 1 && socket_of(open_run(OpenState::Creating, events)) == Some(events[0].ret),
        holds_socket(open_run(OpenState::Creating, events)) ==> open_closes(
            OpenState::Creating,
            events,
        ) == 0 && socket_of(open_run(OpenState::Creating, events)) == Some(events[0].ret),
        open_run(OpenState::Creating, events) is Creating <==> events.len() == 0,
{
    if events.len() > 0 {
        lemma_held_socket_closed_once(
            open_next(OpenState::Creating, events[0]),
            events.skip(1),
        );
    }
}

/// A bind that fails, as on an interface that does not exist, ends the
/// opening: the socket that was created is closed, once, and the opening
/// fails with the error of the bind, whatever the closing call returns.
pub proof fn lemma_failed_bind_leaves_no_socket(created: SysReturn, bound: SysReturn, closed: SysReturn)
    requires
        created.ret != SYSCALL_FAILED,
        bound.ret == SYSCALL_FAILED,
    ensures
        open_run(OpenState::Creating, seq![created, bound]) == (OpenState::Closing {
            socket: created.ret,
            error: bound.errno,
        }),
        open_run(OpenState::Creating, seq![created, bound, closed]) == (OpenState::Failed {
            error: bound.errno,
        }),
        open_closes(OpenState::Creating, seq![created, bound, closed]) == 1,
{
    let two = seq![created, bound];
    let three = seq![created, bound, closed];
    let binding = OpenState::Binding { socket: created.ret };
    let closing = OpenState::Closing { socket: created.ret, error: bound.errno };
    assert(two.skip(1) =~= seq![bound]);
    assert(seq![bound].skip(1) =~= Seq::<SysReturn>::empty());
    assert(open_run(closing, Seq::<SysReturn>::empty()) == closing);
    assert(open_run(binding, seq![bound]) == closing);
    assert(three.skip(1) =~= seq![bound, closed]);
    assert(seq![bound, closed].skip(1) =~= seq![closed]);
    assert(seq![closed].skip(1) =~= Seq::<SysReturn>::empty());
    lemma_held_socket_closed_once(binding, seq![bound, closed]);
    lemma_held_socket_closed_once(closing, seq![closed]);
    assert(open_run(closing, seq![closed]) == open_run(
        open_next(closing, closed),
        Seq::<SysReturn>::empty(),
    ));
}

/// The error that a failed opening ends with is the error number of the
/// first call that returned -1, and every call before it succeeded.
pub proof fn lemma_failure_reports_first_error(events: Seq<SysReturn>)
    requires
        open_run(OpenState::Creating, events) is Failed,
    ensures
        exists|i: int|
            0 <= i < events.len() && i < 4 && events[i].ret == SYSCALL_FAILED && open_run(
                OpenState::Creating,
                events,
            ) == (OpenState::Failed { error: events[i].errno }) && forall|j: int|
                0 <= j < i ==> events[j].ret != SYSCALL_FAILED,
{
    let first = open_next(OpenState::Creating, events[0]);
    let after_first = events.skip(1);
    lemma_held_socket_closed_once(first, after_first);
    if events[0].ret != SYSCALL_FAILED {
        let second = open_next(first, after_first[0]);
        let after_second = after_first.skip(1);
        lemma_held_socket_closed_once(second, after_second);
        if events[1].ret != SYSCALL_FAILED {
            let third = open_next(second, after_second[0]);
            let after_third = after_second.skip(1);
            lemma_held_socket_closed_once(third, after_third);
            if events[2].ret != SYSCALL_FAILED {
                let fourth = open_next(third, after_third[0]);
                lemma_held_socket_closed_once(fourth, after_third.skip(1));
            }
        }
    }
}

/// Why a frame could not be sent or received.
#[derive(Clone, Copy, Debug, Eq, Hash, PartialEq, Structural)]
pub enum ChannelError {
    /// A system call failed with this error number.
    Os(i32),
    /// The socket did not become ready within the configured time.
    TimedOut,
}

/// What a system call of the transfer handed back: its return value and, for
/// a call that failed, the error number that the operating system set.
#[derive(Clone, Copy, Debug, Eq, Hash, PartialEq, Structural)]
pub struct IoReturn {
    pub ret: isize,
    pub errno: i32,
}

/// How far the transfer of one frame has come.
#[derive(Clone, Copy, Debug, Eq, Hash, PartialEq)]
pub enum TransferState {
    /// The socket is being waited for.
    Waiting,
    /// The socket is ready and the frame is being sent or received.
    Moving,
    /// The transfer has ended: with the number of bytes moved, or with an error.
    Finished(Result<usize, ChannelError>),
}

/// What the caller is to do next for the transfer of one frame.
#[derive(Clone, Copy, Debug, Eq, Hash, PartialEq)]
pub enum TransferAction {
    /// Wait until the socket is ready or the configured time is over.
    Wait,
    /// Send or receive the frame.
    Move,
    /// Stop, with this result.
    Return(Result<usize, ChannelError>),
}

/// Whether a call that handed back `event` was interrupted by a signal
/// before it did anything: it returned -1 and left the error number `EINTR`.
/// Any other return value is taken as it is, whatever the error number holds.
pub open spec fn interrupted(event: IoReturn) -> bool {
    event.ret == -1 && event.errno == EINTR
}

/// The state that follows `state` once the last call has handed back `event`.
///
/// An interrupted call is made again. A wait that returns another negative
/// value ends the transfer with the error number that it left, a wait that
/// finds nothing ready ends it as timed out, and any other wait leads to the
/// move. A move that returns another negative value ends the transfer with
/// the error number that it left, any other with the number of bytes that it
/// reports.
pub open spec fn transfer_next(state: TransferState, event: IoReturn) -> TransferState {
    match state {
        TransferState::Waiting => if interrupted(event) {
            TransferState::Waiting
        } else if event.ret < 0 {
            TransferState::Finished(Err(ChannelError::Os(event.errno)))
        } else if event.ret == 0 {
            TransferState::Finished(Err(ChannelError::TimedOut))
        } else {
            TransferState::Moving
        },
        TransferState::Moving => if interrupted(event) {
            TransferState::Moving
        } else if event.ret < 0 {
            TransferState::Finished(Err(ChannelError::Os(event.errno)))
        } else {
            TransferState::Finished(Ok(event.ret as usize))
        },
        TransferState::Finished(result) => state,
    }
}

/// The action that the caller is to take in `state`.
pub open spec fn transfer_action(state: TransferState) -> TransferAction {
    match state {
        TransferState::Waiting => TransferAction::Wait,
        TransferState::Moving => TransferAction::Move,
        TransferState::Finished(result) => TransferAction::Return(result),
    }
}

/// Whether the call that returned `ret` and left the error number `errno`
/// is to be made again: it is, if and only if it was interrupted.
pub fn retry(ret: isize, errno: i32) -> (again: bool)
    ensures
        again == interrupted(IoReturn { ret, errno }),
{
    ret == -1 && errno == EINTR
}

/// Starts the transfer of one frame: the state to begin in and the first
/// action, the wait for the socket.
pub fn transfer_start() -> (r: (TransferState, TransferAction))
    ensures
        r.0 == TransferState::Waiting,
        r.1 == TransferAction::Wait,
{
    (TransferState::Waiting, TransferAction::Wait)
}

/// One step of the transfer of a frame: from `state` and what the last call
/// handed back to the next state and the next action.
pub fn transfer_step(state: TransferState, event: IoReturn) -> (r: (TransferState, TransferAction))
    ensures
        r.0 == transfer_next(state, event),
        r.1 == transfer_action(r.0),
{
    match state {
        TransferState::Waiting => {
            if retry(event.ret, event.errno) {
                (TransferState::Waiting, TransferAction::Wait)
            } else if event.ret < 0 {
                let result = Err(ChannelError::Os(event.errno));
                (TransferState::Finished(result), TransferAction::Return(result))
            } else if event.ret == 0 {
                let result = Err(ChannelError::TimedOut);
                (TransferState::Finished(result), TransferAction::Return(result))
            } else {
                (TransferState::Moving, TransferAction::Move)
            }
        },
        TransferState::Moving => {
            if retry(event.ret, event.errno) {
                (TransferState::Moving, TransferAction::Move)
            } else if event.ret < 0 {
                let result = Err(ChannelError::Os(event.errno));
                (TransferState::Finished(result), TransferAction::Return(result))
            } else {
                let result = Ok(event.ret as usize);
                (TransferState::Finished(result), TransferAction::Return(result))
            }
        },
        TransferState::Finished(result) => (state, TransferAction::Return(result)),
    }
}

/// What the sender reports for the result that a transfer ended with.
pub fn send_result(result: Result<usize, ChannelError>) -> (r: Option<Result<(), ChannelError>>)
    ensures
        r == Some(
            match result {
                Ok(sent) => Ok::<(), ChannelError>(()),
                Err(e) => Err::<(), ChannelError>(e),
            },
        ),
{
    match result {
        Ok(_) => Some(Ok(())),
        Err(e) => Some(Err(e)),
    }
}

/// The frame that the receiver yields once `len` bytes have been read into
/// `read_buffer`: a view of exactly those bytes, not of the whole buffer.
/// There is none where fewer bytes than an Ethernet header were read, or
/// more than the buffer holds.
pub fn received_frame(read_buffer: &[u8], len: usize) -> (r: Option<EthernetPacket<'_>>)
    ensures
        r is Some <==> ETHERNET_HEADER_LEN <= len <= read_buffer@.len(),
        r matches Some(frame) ==> frame@ == read_buffer@.take(len as int) && frame.wf()
            && !frame.is_owned(),
{
    if len <= read_buffer.len() {
        EthernetPacket::new(&read_buffer[0..len])
    } else {
        None
    }
}

/// A scratch buffer of `size` zero bytes for one half of a channel.
pub fn scratch_buffer(size: usize) -> (buffer: Vec<u8>)
    ensures
        buffer@ == Seq::new(size as nat, |i: int| 0u8),
{
    let mut buffer: Vec<u8> = Vec::with_capacity(size);
    let mut i: usize = 0;
    while i < size
        invariant
            i <= size,
            buffer@ == Seq::new(i as nat, |k: int| 0u8),
        decreases size - i,
    {
        buffer.push(0u8);
        i += 1;
    }
    buffer
}

/// The state that is reached from `state` when the calls hand back `events`,
/// one after the other.
pub open spec fn transfer_run(state: TransferState, events: Seq<IoReturn>) -> TransferState
    decreases events.len(),
{
    if events.len() == 0 {
        state
    } else {
        transfer_run(transfer_next(state, events[0]), events.skip(1))
    }
}

/// How often the caller is asked to send or receive the frame on the way
/// from `state` when the calls hand back `events`: once for every step that
/// leads to `Moving`.
pub open spec fn transfer_moves(state: TransferState, events: Seq<IoReturn>) -> nat
    decreases events.len(),
{
    if events.len() == 0 {
        0
    } else {
        let next = transfer_next(state, events[0]);
        let here: nat = if next is Moving {
            1
        } else {
            0
        };
        here + transfer_moves(next, events.skip(1))
    }
}

/// `events` without the calls that were interrupted.
pub open spec fn without_interruptions(events: Seq<IoReturn>) -> Seq<IoReturn>
    decreases events.len(),
{
    if events.len() == 0 {
        events
    } else if interrupted(events[0]) {
        without_interruptions(events.skip(1))
    } else {
        seq![events[0]] + without_interruptions(events.skip(1))
    }
}

/// Interruptions are absorbed: a transfer ends as it would have ended had no
/// call been interrupted.
pub proof fn lemma_interruptions_are_absorbed(state: TransferState, events: Seq<IoReturn>)
    ensures
        transfer_run(state, without_interruptions(events)) == transfer_run(state, events),
    decreases events.len(),
{
    if events.len() > 0 {
        let rest = events.skip(1);
        if interrupted(events[0]) {
            lemma_interruptions_are_absorbed(state, rest);
        } else {
            let kept = without_interruptions(events);
            assert(kept.skip(1) =~= without_interruptions(rest));
            lemma_interruptions_are_absorbed(transfer_next(state, events[0]), rest);
        }
    }
}

/// An interruption is never reported: where no call returns less than -1,
/// as no system call does, no transfer ends with the error number of an
/// interrupted call.
pub proof fn lemma_interruption_is_never_reported(state: TransferState, events: Seq<IoReturn>)
    requires
        state != TransferState::Finished(Err(ChannelError::Os(EINTR))),
        forall|i: int| 0 <= i < events.len() ==> (#[trigger] events[i]).ret >= -1,
    ensures
        transfer_run(state, events) != TransferState::Finished(Err(ChannelError::Os(EINTR))),
    decreases events.len(),
{
    if events.len() > 0 {
        lemma_interruption_is_never_reported(transfer_next(state, events[0]), events.skip(1));
    }
}

/// A transfer times out only on a wait that found nothing ready, and a wait
/// that finds nothing ready always times out: the time-out is told apart
/// from every error of the operating system.
pub proof fn lemma_timed_out_means_nothing_ready(state: TransferState, event: IoReturn)
    requires
        !(state is Finished),
    ensures
        transfer_next(state, event) == TransferState::Finished(Err(ChannelError::TimedOut)) <==> (
        state is Waiting && event.ret == 0),
{
}

/// A transfer whose wait finds nothing ready ends as timed out, and the
/// frame is never sent or received: after any number of interrupted waits,
/// the first wait that returns 0 ends the transfer, and no move was asked for.
pub proof fn lemma_nothing_ready_ends_without_a_move(events: Seq<IoReturn>)
    requires
        events.len() > 0,
        forall|i: int| 0 <= i < events.len() - 1 ==> interrupted(#[trigger] events[i]),
        events[events.len() - 1].ret == 0,
    ensures
        transfer_run(TransferState::Waiting, events) == TransferState::Finished(
            Err(ChannelError::TimedOut),
        ),
        transfer_moves(TransferState::Waiting, events) == 0,
    decreases events.len(),
{
    let rest = events.skip(1);
    if events.len() == 1 {
        assert(transfer_run(TransferState::Finished(Err(ChannelError::TimedOut)), rest)
            == TransferState::Finished(Err(ChannelError::TimedOut)));
        assert(transfer_moves(TransferState::Finished(Err(ChannelError::TimedOut)), rest) == 0);
    } else {
        lemma_nothing_ready_ends_without_a_move(rest);
    }
}

} // verus!
