//! The EtherType codes that have a name.

use vstd::prelude::*;

verus! {

/// Internet Protocol version 4 (IPv4) [RFC7042].
pub const Ipv4: u16 = 2048;

/// Address Resolution Protocol (ARP) [RFC7042].
pub const Arp: u16 = 2054;

/// Wake on Lan.
pub const WakeOnLan: u16 = 2114;

/// IETF TRILL Protocol [IEEE].
pub const Trill: u16 = 8947;

/// DECnet Phase IV.
pub const DECnet: u16 = 24579;

/// Reverse Address Resolution Protocol (RARP) [RFC903].
pub const Rarp: u16 = 32821;

/// AppleTalk - EtherTalk [Apple].
pub const AppleTalk: u16 = 32923;

/// AppleTalk Address Resolution Protocol (AARP) [Apple].
pub const Aarp: u16 = 33011;

/// IPX [Xerox].
pub const Ipx: u16 = 33079;

/// QNX Qnet [QNX Software Systems].
pub const Qnx: u16 = 33284;

/// Internet Protocol version 6 (IPv6) [RFC7042].
pub const Ipv6: u16 = 34525;

/// Ethernet Flow Control [IEEE 802.3x].
pub const FlowControl: u16 = 34824;

/// CobraNet [CobraNet].
pub const CobraNet: u16 = 34841;

/// MPLS Unicast [RFC 3032].
pub const Mpls: u16 = 34887;

/// MPLS Multicast [RFC 5332].
pub const MplsMcast: u16 = 34888;

/// PPPOE Discovery Stage [RFC 2516].
pub const PppoeDiscovery: u16 = 34915;

/// PPPoE Session Stage [RFC 2516].
pub const PppoeSession: u16 = 34916;

/// VLAN-tagged frame (IEEE 802.1Q).
pub const Vlan: u16 = 33024;

/// Provider Bridging [IEEE 802.1ad / IEEE 802.1aq].
pub const PBridge: u16 = 34984;

/// Link Layer Discovery Protocol (LLDP) [IEEE 802.1AB].
pub const Lldp: u16 = 35020;

/// Precision Time Protocol (PTP) over Ethernet [IEEE 1588].
pub const Ptp: u16 = 35063;

/// CFM / Y.1731 [IEEE 802.1ag].
pub const Cfm: u16 = 35074;

/// Q-in-Q Vlan Tagging [IEEE 802.1Q].
pub const QinQ: u16 = 37120;

} // verus!
