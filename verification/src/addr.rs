//! Plain-value models of the network identifiers the launcher hands around:
//! IPv4 addresses, CIDR networks and MAC addresses, together with the decimal
//! and hexadecimal text forms that the rest of the crate renders them in.

use vstd::prelude::*;
use vstd::string::StringExecFns;

verus! {

/// An IPv4 address as its 32-bit numeric value.
#[derive(Clone, Copy, Debug, PartialEq, Eq, Structural)]
pub struct Ipv4Address {
    pub value: u32,
}

/// The character for one decimal or hexadecimal digit.
pub open spec fn digit_char(d: int) -> char {
    if d == 0 {
        '0'
    } else if d == 1 {
        '1'
    } else if d == 2 {
        '2'
    } else if d == 3 {
        '3'
    } else if d == 4 {
        '4'
    } else if d == 5 {
        '5'
    } else if d == 6 {
        '6'
    } else if d == 7 {
        '7'
    } else if d == 8 {
        '8'
    } else if d == 9 {
        '9'
    } else if d == 10 {
        'a'
    } else if d == 11 {
        'b'
    } else if d == 12 {
        'c'
    } else if d == 13 {
        'd'
    } else if d == 14 {
        'e'
    } else {
        'f'
    }
}

/// The decimal text of a number, without leading zeros (`0` stays `"0"`).
pub open spec fn dec_str(n: nat) -> Seq<char>
    decreases n,
{
    if n < 10 {
        seq![digit_char(n as int)]
    } else {
        dec_str(n / 10).push(digit_char((n % 10) as int))
    }
}

/// The two lowercase hexadecimal digits of one byte.
pub open spec fn hex_byte_str(b: u8) -> Seq<char> {
    seq![digit_char(b as int / 16), digit_char(b as int % 16)]
}

/// One digit as a string slice.
fn digit_str(d: u64) -> (r: &'static str)
    requires
        d < 16,
    ensures
        r@ == seq![digit_char(d as int)],
{
    proof {
        reveal_strlit("0");
        reveal_strlit("1");
        reveal_strlit("2");
        reveal_strlit("3");
        reveal_strlit("4");
        reveal_strlit("5");
        reveal_strlit("6");
        reveal_strlit("7");
        reveal_strlit("8");
        reveal_strlit("9");
        reveal_strlit("a");
        reveal_strlit("b");
        reveal_strlit("c");
        reveal_strlit("d");
        reveal_strlit("e");
        reveal_strlit("f");
    }
    if d == 0 {
        "0"
    } else if d == 1 {
        "1"
    } else if d == 2 {
        "2"
    } else if d == 3 {
        "3"
    } else if d == 4 {
        "4"
    } else if d == 5 {
        "5"
    } else if d == 6 {
        "6"
    } else if d == 7 {
        "7"
    } else if d == 8 {
        "8"
    } else if d == 9 {
        "9"
    } else if d == 10 {
        "a"
    } else if d == 11 {
        "b"
    } else if d == 12 {
        "c"
    } else if d == 13 {
        "d"
    } else if d == 14 {
        "e"
    } else {
        "f"
    }
}

/// The decimal text of `n`.
pub fn u64_to_dec_string(n: u64) -> (s: String)
    ensures
        s@ == dec_str(n as nat),
    decreases n,
{
    if n < 10 {
        digit_str(n).to_owned()
    } else {
        let mut s = u64_to_dec_string(n / 10);
        s.append(digit_str(n % 10));
        s
    }
}

/// The two lowercase hexadecimal digits of one byte.
pub fn byte_to_hex_string(b: u8) -> (s: String)
    ensures
        s@ == hex_byte_str(b),
{
    let mut s = digit_str(b as u64 / 16).to_owned();
    s.append(digit_str(b as u64 % 16));
    s
}

/// The dotted-quad text of an IPv4 address, octets in network order.
pub open spec fn ipv4_str(value: u32) -> Seq<char> {
    dec_str((value / 0x1000000) as nat) + seq!['.'] + dec_str(((value / 0x10000) % 256) as nat)
        + seq!['.'] + dec_str(((value / 0x100) % 256) as nat) + seq!['.'] + dec_str(
        (value % 256) as nat,
    )
}

impl Ipv4Address {
    /// The view of an address is its numeric value.
    pub open spec fn view(self) -> int {
        self.value as int
    }

    /// The address with the given numeric value.
    pub fn from_value(value: u32) -> (r: Ipv4Address)
        ensures
            r.value == value,
    {
        Ipv4Address { value }
    }

    /// The address `a.b.c.d`.
    pub fn from_octets(a: u8, b: u8, c: u8, d: u8) -> (r: Ipv4Address)
        ensures
            r.value == a as u32 * 0x1000000 + b as u32 * 0x10000 + c as u32 * 0x100 + d as u32,
    {
        Ipv4Address {
            value: a as u32 * 0x1000000 + b as u32 * 0x10000 + c as u32 * 0x100 + d as u32,
        }
    }

    /// The four octets of the address, most significant first.
    pub fn octets(self) -> (r: [u8; 4])
        ensures
            r[0] == self.value / 0x1000000,
            r[1] == (self.value / 0x10000) % 256,
            r[2] == (self.value / 0x100) % 256,
            r[3] == self.value % 256,
    {
        [
            (self.value / 0x1000000) as u8,
            ((self.value / 0x10000) % 256) as u8,
            ((self.value / 0x100) % 256) as u8,
            (self.value % 256) as u8,
        ]
    }

    /// The numeric value of the address read as a little-endian 32-bit word,
    /// the layout the kernel's socket address structure stores it in.
    pub fn value_little_endian(self) -> (r: u32)
        ensures
            r == (self.value % 256) * 0x1000000 + ((self.value / 0x100) % 256) * 0x10000 + ((
            self.value / 0x10000) % 256) * 0x100 + self.value / 0x1000000,
    {
        (self.value % 256) * 0x1000000 + ((self.value / 0x100) % 256) * 0x10000 + ((self.value
            / 0x10000) % 256) * 0x100 + self.value / 0x1000000
    }

    /// The dotted-quad text of the address.
    pub fn to_dec_string(self) -> (s: String)
        ensures
            s@ == ipv4_str(self.value),
    {
        proof {
            reveal_strlit(".");
        }
        let mut s = u64_to_dec_string(self.value as u64 / 0x1000000);
        s.append(".");
        s.append(u64_to_dec_string((self.value as u64 / 0x10000) % 256).as_str());
        s.append(".");
        s.append(u64_to_dec_string((self.value as u64 / 0x100) % 256).as_str());
        s.append(".");
        s.append(u64_to_dec_string(self.value as u64 % 256).as_str());
        s
    }
}

/// An IPv4 network in CIDR form: an address and a prefix length.
#[derive(Clone, Copy, Debug, PartialEq, Eq, Structural)]
pub struct Ipv4Net {
    pub addr: Ipv4Address,
    pub prefix: u8,
}

impl Ipv4Net {
    /// A network this launcher can manage: the prefix leaves room for the
    /// network address, the broadcast address, the bridge's address and at
    /// least one guest.
    pub open spec fn well_formed(self) -> bool {
        1 <= self.prefix <= 30
    }

    /// The network mask: the top `prefix` bits set.
    pub open spec fn spec_netmask(self) -> u32
        recommends
            self.well_formed(),
    {
        0xffff_ffffu32 << ((32 - self.prefix) as u32)
    }

    /// The network address: the masked part of the address.
    pub open spec fn spec_network(self) -> u32
        recommends
            self.well_formed(),
    {
        self.addr.value & self.spec_netmask()
    }

    /// The broadcast address: the host part all ones.
    pub open spec fn spec_broadcast(self) -> u32
        recommends
            self.well_formed(),
    {
        self.addr.value | !self.spec_netmask()
    }

    /// The network of the given address and prefix length.
    pub fn new(addr: Ipv4Address, prefix: u8) -> (r: Ipv4Net)
        requires
            1 <= prefix <= 30,
        ensures
            r.addr == addr,
            r.prefix == prefix,
            r.well_formed(),
    {
        Ipv4Net { addr, prefix }
    }

    /// The network address.
    pub fn network(&self) -> (r: Ipv4Address)
        requires
            self.well_formed(),
        ensures
            r.value == self.spec_network(),
    {
        Ipv4Address { value: self.addr.value & (0xffff_ffffu32 << ((32 - self.prefix) as u32)) }
    }

    /// The broadcast address.
    pub fn broadcast(&self) -> (r: Ipv4Address)
        requires
            self.well_formed(),
        ensures
            r.value == self.spec_broadcast(),
    {
        Ipv4Address { value: self.addr.value | !(0xffff_ffffu32 << ((32 - self.prefix) as u32)) }
    }

    /// The network, broadcast and host addresses are laid out in order and a
    /// well-formed network has at least two usable host addresses after the
    /// first one.
    pub proof fn lemma_layout(self)
        requires
            self.well_formed(),
        ensures
            self.spec_network() <= self.addr.value <= self.spec_broadcast(),
            self.spec_network() + 3 <= self.spec_broadcast(),
            self.spec_broadcast() <= 0xffff_ffffu32,
    {
        let p = self.prefix;
        let a = self.addr.value;
        assert((a & (0xffff_ffffu32 << ((32 - p) as u32))) <= a <= (a | !(0xffff_ffffu32 << ((32
            - p) as u32))) && (a & (0xffff_ffffu32 << ((32 - p) as u32))) + 3 <= (a | !(
        0xffff_ffffu32 << ((32 - p) as u32)))) by (bit_vector)
            requires
                1 <= p <= 30,
        ;
    }

    /// The first host address, which the bridge takes.
    pub fn host_address(&self) -> (r: Ipv4Address)
        requires
            self.well_formed(),
        ensures
            r.value == self.spec_network() + 1,
    {
        proof {
            self.lemma_layout();
        }
        let network = self.network();
        Ipv4Address { value: network.value + 1 }
    }
}

/// A 48-bit MAC address, most significant octet first.
#[derive(Clone, Copy, Debug, PartialEq, Eq)]
pub struct MacAddr {
    pub bytes: [u8; 6],
}

/// The colon-separated lowercase hexadecimal text of a MAC address.
pub open spec fn mac_str(bytes: Seq<u8>) -> Seq<char>
    recommends
        bytes.len() == 6,
{
    hex_byte_str(bytes[0]) + seq![':'] + hex_byte_str(bytes[1]) + seq![':'] + hex_byte_str(
        bytes[2],
    ) + seq![':'] + hex_byte_str(bytes[3]) + seq![':'] + hex_byte_str(bytes[4]) + seq![':']
        + hex_byte_str(bytes[5])
}

impl MacAddr {
    /// The address with the given octets.
    pub fn from_bytes(bytes: [u8; 6]) -> (r: MacAddr)
        ensures
            r.bytes@ == bytes@,
    {
        MacAddr { bytes }
    }

    /// The colon-separated lowercase hexadecimal text of the address.
    pub fn to_hex_string(&self) -> (s: String)
        ensures
            s@ == mac_str(self.bytes@),
    {
        proof {
            reveal_strlit(":");
        }
        let mut s = byte_to_hex_string(self.bytes[0]);
        s.append(":");
        s.append(byte_to_hex_string(self.bytes[1]).as_str());
        s.append(":");
        s.append(byte_to_hex_string(self.bytes[2]).as_str());
        s.append(":");
        s.append(byte_to_hex_string(self.bytes[3]).as_str());
        s.append(":");
        s.append(byte_to_hex_string(self.bytes[4]).as_str());
        s.append(":");
        s.append(byte_to_hex_string(self.bytes[5]).as_str());
        s
    }
}

} // verus!
