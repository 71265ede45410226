//! The record that describes one network interface of the host, and the
//! rules by which several reports about the same interface are folded into
//! one record.

use vstd::prelude::*;

verus! {

/// A 48-bit hardware (MAC) address.
#[derive(PartialEq, Eq, Structural, Clone, Copy, Hash, Debug)]
pub struct MacAddr(pub u8, pub u8, pub u8, pub u8, pub u8, pub u8);

/// The lower-case hexadecimal digit for `nibble`, a number below sixteen.
pub open spec fn hex_digit(nibble: u8) -> char {
    if nibble < 10 {
        (48 + nibble) as char
    } else {
        (87 + nibble) as char
    }
}

/// The two hexadecimal digits of `byte`.
pub open spec fn hex_pair(byte: u8) -> Seq<char> {
    seq![hex_digit(byte / 16), hex_digit(byte % 16)]
}

/// `String::push`: appends the character `c` to the end of `text`.
#[verifier::external_body]
fn push_char(text: &mut String, c: char)
    ensures
        final(text)@ == old(text)@.push(c),
{
    text.push(c)
}

/// Appends the lower-case hexadecimal digit for `nibble` to `text`.
fn push_hex_digit(text: &mut String, nibble: u8)
    requires
        nibble < 16,
    ensures
        final(text)@ == old(text)@.push(hex_digit(nibble)),
{
    let code: u8 = if nibble < 10 {
        48 + nibble
    } else {
        87 + nibble
    };
    push_char(text, code as char);
}

/// Appends the two hexadecimal digits of `byte` to `text`.
fn push_hex_pair(text: &mut String, byte: u8)
    ensures
        final(text)@ == old(text)@ + hex_pair(byte),
{
    push_hex_digit(text, byte / 16);
    push_hex_digit(text, byte % 16);
}

impl MacAddr {
    /// The six octets in transmission order.
    pub open spec fn octets(self) -> Seq<u8> {
        seq![self.0, self.1, self.2, self.3, self.4, self.5]
    }

    /// Construct a new MacAddr
    pub fn new(a: u8, b: u8, c: u8, d: u8, e: u8, f: u8) -> (mac: MacAddr)
        ensures
            mac == MacAddr(a, b, c, d, e, f),
    {
        MacAddr(a, b, c, d, e, f)
    }

    /// The six octets in transmission order.
    pub fn to_octets(&self) -> (r: [u8; 6])
        ensures
            r@ == self.octets(),
    {
        let r: [u8; 6] = [self.0, self.1, self.2, self.3, self.4, self.5];
        r
    }

    /// The text of the address: the hexadecimal digits of its six octets,
    /// pair by pair, with a colon between the pairs.
    pub open spec fn text(self) -> Seq<char> {
        hex_pair(self.0) + seq![':'] + hex_pair(self.1) + seq![':'] + hex_pair(self.2) + seq![':']
            + hex_pair(self.3) + seq![':'] + hex_pair(self.4) + seq![':'] + hex_pair(self.5)
    }

    /// The text of the address, as in `28:ef:f9:5f:8e:2b`.
    pub fn to_string(&self) -> (r: String)
        ensures
            r@ == self.text(),
    {
        let mut text = String::new();
        push_hex_pair(&mut text, self.0);
        push_char(&mut text, ':');
        push_hex_pair(&mut text, self.1);
        push_char(&mut text, ':');
        push_hex_pair(&mut text, self.2);
        push_char(&mut text, ':');
        push_hex_pair(&mut text, self.3);
        push_char(&mut text, ':');
        push_hex_pair(&mut text, self.4);
        push_char(&mut text, ':');
        push_hex_pair(&mut text, self.5);
        text
    }
}

/// An IPv4 address, as its four octets in network order.
#[derive(PartialEq, Eq, Structural, Clone, Copy, Hash, Debug)]
pub struct Ipv4Address(pub u8, pub u8, pub u8, pub u8);

impl Ipv4Address {
    /// The four octets in network order.
    pub open spec fn octets(self) -> Seq<u8> {
        seq![self.0, self.1, self.2, self.3]
    }

    /// The four octets in network order.
    pub fn to_octets(&self) -> (r: [u8; 4])
        ensures
            r@ == self.octets(),
    {
        let r: [u8; 4] = [self.0, self.1, self.2, self.3];
        r
    }

    /// The address whose 32-bit number is `bits`: the first octet is the most
    /// significant byte of the number.
    pub open spec fn of_bits(bits: u32) -> Ipv4Address {
        Ipv4Address(
            (bits / 0x100_0000) as u8,
            (bits / 0x1_0000 % 0x100) as u8,
            (bits / 0x100 % 0x100) as u8,
            (bits % 0x100) as u8,
        )
    }

    /// The address whose 32-bit number is `bits`.
    pub fn from_bits(bits: u32) -> (r: Ipv4Address)
        ensures
            r == Self::of_bits(bits),
    {
        let a: u8 = (bits >> 24) as u8;
        let b: u8 = #[verifier::truncate] ((bits >> 16) as u8);
        let c: u8 = #[verifier::truncate] ((bits >> 8) as u8);
        let d: u8 = #[verifier::truncate] (bits as u8);
        assert((bits >> 24) == bits / 0x100_0000 && (bits >> 24) < 0x100) by (bit_vector);
        assert((#[verifier::truncate] ((bits >> 16) as u8)) == bits / 0x1_0000 % 0x100)
            by (bit_vector);
        assert((#[verifier::truncate] ((bits >> 8) as u8)) == bits / 0x100 % 0x100)
            by (bit_vector);
        assert((#[verifier::truncate] (bits as u8)) == bits % 0x100) by (bit_vector);
        Ipv4Address(a, b, c, d)
    }
}

/// An IPv6 address, as its eight 16-bit segments.
#[derive(PartialEq, Eq, Structural, Clone, Copy, Hash, Debug)]
pub struct Ipv6Address(pub u16, pub u16, pub u16, pub u16, pub u16, pub u16, pub u16, pub u16);

/// An address of either family.
#[derive(PartialEq, Eq, Structural, Clone, Copy, Hash, Debug)]
pub enum IpAddress {
    V4(Ipv4Address),
    V6(Ipv6Address),
}

/// What the host reports about one interface.
#[derive(Clone, PartialEq, Eq, Debug, Hash)]
pub struct NetworkInterface {
    /// The name of the interface
    pub name: String,
    /// The interface index (operating system specific)
    pub index: u32,
    /// A MAC address for the interface
    pub mac: Option<MacAddr>,
    /// An IP addresses for the interface
    pub ips: Option<Vec<IpAddress>>,
    /// Operating system specific flags for the interface
    pub flags: u32,
}

/// The mathematical content of an interface record.
pub struct InterfaceModel {
    pub name: Seq<char>,
    pub index: u32,
    pub mac: Option<MacAddr>,
    pub ips: Option<Seq<IpAddress>>,
    pub flags: u32,
}

impl View for NetworkInterface {
    type V = InterfaceModel;

    open spec fn view(&self) -> InterfaceModel {
        InterfaceModel {
            name: self.name@,
            index: self.index,
            mac: self.mac,
            ips: match self.ips {
                Some(v) => Some(v@),
                None => None,
            },
            flags: self.flags,
        }
    }
}

/// The address list that results when a record with list `old` learns of `new`.
pub open spec fn merged_ips(old: Option<Seq<IpAddress>>, new: Option<Seq<IpAddress>>) -> Option<
    Seq<IpAddress>,
> {
    match (old, new) {
        (Some(o), Some(n)) => Some(o + n),
        (None, Some(n)) => Some(n),
        (_, None) => old,
    }
}

/// The record that results when `old` learns of another report, `new`, about
/// the same interface: a hardware address in `new` replaces the known one,
/// the addresses of `new` are appended, and the flags are united.
pub open spec fn merged(old: InterfaceModel, new: InterfaceModel) -> InterfaceModel {
    InterfaceModel {
        name: old.name,
        index: old.index,
        mac: if new.mac is Some {
            new.mac
        } else {
            old.mac
        },
        ips: merged_ips(old.ips, new.ips),
        flags: old.flags | new.flags,
    }
}

fn append_ips(dst: &mut Vec<IpAddress>, src: &Vec<IpAddress>)
    ensures
        final(dst)@ == old(dst)@ + src@,
{
    let mut i: usize = 0;
    while i < src.len()
        invariant
            i <= src@.len(),
            dst@ == old(dst)@ + src@.take(i as int),
        decreases src@.len() - i,
    {
        dst.push(src[i]);
        i += 1;
    }
}

/// Folds the report `new` into the record `known`.
pub fn merge(known: &mut NetworkInterface, new: &NetworkInterface)
    ensures
        final(known)@ == merged(old(known)@, new@),
{
    if new.mac.is_some() {
        known.mac = new.mac;
    }
    match &new.ips {
        Some(new_ips) => {
            let mut ips: Vec<IpAddress> = Vec::new();
            match &known.ips {
                Some(old_ips) => {
                    append_ips(&mut ips, old_ips);
                },
                None => {},
            }
            append_ips(&mut ips, new_ips);
            known.ips = Some(ips);
        },
        None => {},
    }
    known.flags = known.flags | new.flags;
}

/// The first report about an interface: its name, the one address that the
/// report carries, and its flags. The index is not known yet.
pub fn first_report(name: String, mac: Option<MacAddr>, ip: Option<IpAddress>, flags: u32) -> (r:
    NetworkInterface)
    ensures
        r@ == (InterfaceModel {
            name: name@,
            index: 0,
            mac,
            ips: match ip {
                Some(ip) => Some(seq![ip]),
                None => None,
            },
            flags,
        }),
{
    let ips = match ip {
        Some(ip) => {
            let mut list: Vec<IpAddress> = Vec::new();
            list.push(ip);
            Some(list)
        },
        None => None,
    };
    NetworkInterface { name, index: 0, mac, ips, flags }
}

/// Whether one of `records` has the name `name`.
pub open spec fn knows_name(records: Seq<NetworkInterface>, name: Seq<char>) -> bool {
    exists|i: int| 0 <= i < records.len() && (#[trigger] records[i]).name@ == name
}

/// Whether no two of `records` share a name.
pub open spec fn names_distinct(records: Seq<NetworkInterface>) -> bool {
    forall|i: int, j: int|
        0 <= i < j < records.len() ==> (#[trigger] records[i]).name@ != (#[trigger] records[j]).name@
}

/// Whether `after` is what `before` becomes when it learns of `report`:
/// every record of that name has the report folded into it, the others stay,
/// and where no record has that name the report is added as the last record.
pub open spec fn absorbed(
    before: Seq<NetworkInterface>,
    report: NetworkInterface,
    after: Seq<NetworkInterface>,
) -> bool {
    &&& after.len() == before.len() + (if knows_name(before, report.name@) {
        0int
    } else {
        1int
    })
    &&& forall|i: int|
        0 <= i < before.len() ==> (#[trigger] after[i])@ == (if before[i].name@ == report.name@ {
            merged(before[i]@, report@)
        } else {
            before[i]@
        })
    &&& !knows_name(before, report.name@) ==> after[before.len() as int] == report
}

/// Folds the report `ni` into the records `ifaces`: into the record of the
/// same name, or as a new record behind the others.
pub fn absorb(ifaces: &mut Vec<NetworkInterface>, ni: NetworkInterface)
    ensures
        absorbed(old(ifaces)@, ni, final(ifaces)@),
        names_distinct(old(ifaces)@) ==> names_distinct(final(ifaces)@),
{
    let ghost before = ifaces@;
    let mut found: bool = false;
    let mut i: usize = 0;
    while i < ifaces.len()
        invariant
            i <= ifaces@.len(),
            ifaces@.len() == before.len(),
            found <==> knows_name(before.take(i as int), ni.name@),
            forall|k: int| 0 <= k < ifaces@.len() ==> (#[trigger] ifaces@[k]).name@ == before[k].name@,
            forall|k: int|
                0 <= k < i ==> (#[trigger] ifaces@[k])@ == (if before[k].name@ == ni.name@ {
                    merged(before[k]@, ni@)
                } else {
                    before[k]@
                }),
            forall|k: int| i <= k < ifaces@.len() ==> (#[trigger] ifaces@[k]) == before[k],
        decreases ifaces@.len() - i,
    {
        assert(before.take(i + 1)[i as int] == before[i as int]);
        if ni.name == ifaces[i].name {
            merge(&mut ifaces[i], &ni);
            found = true;
        }
        i += 1;
    }
    assert(before.take(before.len() as int) =~= before);
    if !found {
        ifaces.push(ni);
    }
}

} // verus!
