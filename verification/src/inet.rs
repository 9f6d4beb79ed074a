//! Ports and IPv4 addresses of internet sockets.
//!
//! The kernel reports both in network byte order, whatever the host's own
//! order is. Here they are turned into host order and into text.

use crate::flavor::SocketInfoKind;
use crate::record::FixedRecord;
use crate::socket::{
    lemma_proto_bytes, InSockInfo, SocketFDInfo, SocketInfo, TcpSockInfo, IN6_ADDR_LEN,
    SOCKET_PROTO_SIZE,
};
use crate::wire::{byte_at, i32_at, lemma_array_of, u16_at, u32_at, u8s_at};
use vstd::arithmetic::div_mod::lemma_fundamental_div_mod_converse;
use vstd::prelude::*;
use vstd::string::StringExecFns;

verus! {

/// The 32 bits of `v`, in two's complement, as a number that is not negative.
pub open spec fn bits_of(v: i32) -> int {
    if v >= 0 {
        v as int
    } else {
        v + 0x1_0000_0000
    }
}

/// The port that a port field holds. The field is 32 bits wide; the port is
/// in its two low bytes, in network byte order, so the two are swapped.
pub open spec fn port_to_host_spec(port: i32) -> u16 {
    let low = bits_of(port) % 0x1_0000;
    ((low % 0x100) * 0x100 + low / 0x100) as u16
}

/// The address that an address field holds: its four bytes in reverse order.
pub open spec fn addr_to_host_spec(s_addr: u32) -> u32 {
    let b0 = s_addr as int % 0x100;
    let b1 = (s_addr as int / 0x100) % 0x100;
    let b2 = (s_addr as int / 0x1_0000) % 0x100;
    let b3 = s_addr as int / 0x100_0000;
    (b0 * 0x100_0000 + b1 * 0x1_0000 + b2 * 0x100 + b3) as u32
}

/// Turns a port field, which is in network byte order, into the port.
#[verifier::when_used_as_spec(port_to_host_spec)]
pub fn port_to_host(port: i32) -> (p: u16)
    ensures
        p == port_to_host_spec(port),
{
    let bits: u32 = if port >= 0 {
        port as u32
    } else {
        (port - i32::MIN) as u32 + 0x8000_0000
    };
    assert(bits == bits_of(port));
    let low: u32 = bits % 0x1_0000;
    let first: u32 = low % 0x100;
    let second: u32 = low / 0x100;
    (first * 0x100 + second) as u16
}

/// Turns an address field, which is in network byte order, into the address
/// in host order.
#[verifier::when_used_as_spec(addr_to_host_spec)]
pub fn addr_to_host(s_addr: u32) -> (a: u32)
    ensures
        a == addr_to_host_spec(s_addr),
{
    let b0: u32 = s_addr % 0x100;
    let b1: u32 = (s_addr / 0x100) % 0x100;
    let b2: u32 = (s_addr / 0x1_0000) % 0x100;
    let b3: u32 = s_addr / 0x100_0000;
    b0 * 0x100_0000 + b1 * 0x1_0000 + b2 * 0x100 + b3
}

/// A port field that the kernel wrote at `at` gives the port whose high byte
/// is the first byte of the field and whose low byte is the second: the
/// reading in network byte order.
pub proof fn lemma_port_in_network_order(b: Seq<u8>, at: int)
    ensures
        port_to_host_spec(i32_at(b, at)) == byte_at(b, at) * 0x100 + byte_at(b, at + 1),
{
    let b0 = byte_at(b, at) as int;
    let b1 = byte_at(b, at + 1) as int;
    let high = u16_at(b, at + 2) as int;
    let low = b0 + 0x100 * b1;
    let bits = bits_of(i32_at(b, at));
    assert(bits == low + 0x1_0000 * high);
    lemma_fundamental_div_mod_converse(bits, 0x1_0000, high, low);
    lemma_fundamental_div_mod_converse(low, 0x100, b1, b0);
}

/// An address field that the kernel wrote at `at` gives the address whose
/// bytes, from the highest down, are the four bytes of the field in the
/// order in which they lie in the buffer.
pub proof fn lemma_addr_in_network_order(b: Seq<u8>, at: int)
    ensures
        addr_to_host_spec(u32_at(b, at)) == byte_at(b, at) * 0x100_0000 + byte_at(b, at + 1)
            * 0x1_0000 + byte_at(b, at + 2) * 0x100 + byte_at(b, at + 3),
{
    let b0 = byte_at(b, at) as int;
    let b1 = byte_at(b, at + 1) as int;
    let b2 = byte_at(b, at + 2) as int;
    let b3 = byte_at(b, at + 3) as int;
    let s = u32_at(b, at) as int;
    assert(s == b0 + 0x100 * b1 + 0x1_0000 * b2 + 0x100_0000 * b3);
    lemma_fundamental_div_mod_converse(s, 0x100, b1 + 0x100 * b2 + 0x1_0000 * b3, b0);
    lemma_fundamental_div_mod_converse(s / 0x100, 0x100, b2 + 0x100 * b3, b1);
    lemma_fundamental_div_mod_converse(s, 0x1_0000, b2 + 0x100 * b3, b0 + 0x100 * b1);
    lemma_fundamental_div_mod_converse(s / 0x1_0000, 0x100, b3, b2);
    lemma_fundamental_div_mod_converse(s, 0x100_0000, b3, b0 + 0x100 * b1 + 0x1_0000 * b2);
}

/// One end of an IPv4 connection, in host byte order.
#[derive(Clone, Copy, Debug, PartialEq, Eq, Structural)]
pub struct InEndpoint {
    /// The address; its highest byte is the first octet.
    pub addr: u32,
    pub port: u16,
}

/// The character of the decimal digit `d`.
pub open spec fn digit(d: int) -> char {
    if d == 0 {
        '0'
    } else if d == 1 {
        '1'
    } else if d == 2 {
        '2'
    } else if d == 3 {
        '3'
    } else if d == 4 {
        '4'
    } else if d == 5 {
        '5'
    } else if d == 6 {
        '6'
    } else if d == 7 {
        '7'
    } else if d == 8 {
        '8'
    } else {
        '9'
    }
}

/// The decimal numeral of `n`, without leading zeros.
pub open spec fn decimal(n: nat) -> Seq<char>
    decreases n,
{
    if n < 10 {
        seq![digit(n as int)]
    } else {
        decimal(n / 10).push(digit((n % 10) as int))
    }
}

/// The octet of `addr` at place `k`, the first being place 0.
pub open spec fn octet(addr: u32, k: int) -> nat {
    if k == 0 {
        (addr / 0x100_0000) as nat
    } else if k == 1 {
        ((addr / 0x1_0000) % 0x100) as nat
    } else if k == 2 {
        ((addr / 0x100) % 0x100) as nat
    } else {
        (addr % 0x100) as nat
    }
}

/// The address in dotted decimal notation.
pub open spec fn dotted(addr: u32) -> Seq<char> {
    decimal(octet(addr, 0)) + seq!['.'] + decimal(octet(addr, 1)) + seq!['.'] + decimal(
        octet(addr, 2),
    ) + seq!['.'] + decimal(octet(addr, 3))
}

fn digit_text(d: u32) -> (s: &'static str)
    requires
        d < 10,
    ensures
        s@ == seq![digit(d as int)],
{
    proof {
        reveal_strlit("0");
        reveal_strlit("1");
        reveal_strlit("2");
        reveal_strlit("3");
        reveal_strlit("4");
        reveal_strlit("5");
        reveal_strlit("6");
        reveal_strlit("7");
        reveal_strlit("8");
        reveal_strlit("9");
    }
    let s = if d == 0 {
        "0"
    } else if d == 1 {
        "1"
    } else if d == 2 {
        "2"
    } else if d == 3 {
        "3"
    } else if d == 4 {
        "4"
    } else if d == 5 {
        "5"
    } else if d == 6 {
        "6"
    } else if d == 7 {
        "7"
    } else if d == 8 {
        "8"
    } else {
        "9"
    };
    assert(s@ =~= seq![digit(d as int)]);
    s
}

/// Appends the decimal numeral of `n` to `s`.
fn push_decimal(s: &mut String, n: u32)
    ensures
        final(s)@ == old(s)@ + decimal(n as nat),
    decreases n,
{
    if n >= 10 {
        push_decimal(s, n / 10);
    }
    s.append(digit_text(n % 10));
    proof {
        if n >= 10 {
            assert(final(s)@ =~= old(s)@ + decimal(n as nat));
        } else {
            assert(final(s)@ =~= old(s)@ + decimal(n as nat));
        }
    }
}

impl InEndpoint {
    /// The text of the endpoint: the address in dotted decimal notation, a
    /// colon, and the port.
    pub open spec fn text(self) -> Seq<char> {
        dotted(self.addr) + seq![':'] + decimal(self.port as nat)
    }

    /// The four octets of the address, the first one first.
    pub fn octets(&self) -> (o: [u8; 4])
        ensures
            forall|k: int| 0 <= k < 4 ==> o[k] == octet(self.addr, k),
    {
        [
            (self.addr / 0x100_0000) as u8,
            ((self.addr / 0x1_0000) % 0x100) as u8,
            ((self.addr / 0x100) % 0x100) as u8,
            (self.addr % 0x100) as u8,
        ]
    }

    /// The address in dotted decimal notation, as in `127.0.0.1`.
    pub fn addr_string(&self) -> (s: String)
        ensures
            s@ == dotted(self.addr),
    {
        proof {
            reveal_strlit(".");
        }
        let mut s = String::new();
        push_decimal(&mut s, self.addr / 0x100_0000);
        s.append(".");
        push_decimal(&mut s, (self.addr / 0x1_0000) % 0x100);
        s.append(".");
        push_decimal(&mut s, (self.addr / 0x100) % 0x100);
        s.append(".");
        push_decimal(&mut s, self.addr % 0x100);
        assert(s@ =~= dotted(self.addr));
        s
    }

    /// The endpoint as text, as in `127.0.0.1:8080`.
    pub fn to_string(&self) -> (s: String)
        ensures
            s@ == self.text(),
    {
        proof {
            reveal_strlit(":");
        }
        let mut s = self.addr_string();
        s.append(":");
        push_decimal(&mut s, self.port as u32);
        assert(s@ =~= self.text());
        s
    }
}

impl InSockInfo {
    /// The local end of the socket, read as that of an IPv4 socket.
    pub open spec fn local_endpoint_spec(&self) -> InEndpoint {
        InEndpoint {
            addr: addr_to_host_spec(self.insi_laddr.ina_46_spec().i46a_addr4.s_addr),
            port: port_to_host_spec(self.insi_lport),
        }
    }

    /// The foreign end of the socket, read as that of an IPv4 socket.
    pub open spec fn foreign_endpoint_spec(&self) -> InEndpoint {
        InEndpoint {
            addr: addr_to_host_spec(self.insi_faddr.ina_46_spec().i46a_addr4.s_addr),
            port: port_to_host_spec(self.insi_fport),
        }
    }

    /// The local end of the socket, read as that of an IPv4 socket.
    pub fn local_endpoint(&self) -> (e: InEndpoint)
        ensures
            e == self.local_endpoint_spec(),
    {
        InEndpoint {
            addr: addr_to_host(self.insi_laddr.ina_46().i46a_addr4.s_addr),
            port: port_to_host(self.insi_lport),
        }
    }

    /// The foreign end of the socket, read as that of an IPv4 socket.
    pub fn foreign_endpoint(&self) -> (e: InEndpoint)
        ensures
            e == self.foreign_endpoint_spec(),
    {
        InEndpoint {
            addr: addr_to_host(self.insi_faddr.ina_46().i46a_addr4.s_addr),
            port: port_to_host(self.insi_fport),
        }
    }
}

impl SocketInfo {
    /// The local end of a TCP socket. For a socket of any other kind there
    /// is none to report.
    pub fn tcp_local_endpoint(&self) -> (r: Option<InEndpoint>)
        ensures
            r is Some <==> SocketInfoKind::of_code(self.soi_kind) == SocketInfoKind::Tcp,
            r is Some ==> r == Some(
                TcpSockInfo::decode_spec(self.soi_proto@, 0).tcpsi_ini.local_endpoint_spec(),
            ),
    {
        match self.as_tcp() {
            Some(tcp) => Some(tcp.tcpsi_ini.local_endpoint()),
            None => None,
        }
    }
}

/// From the bytes of the record of a socket descriptor to the local end of
/// a TCP socket.
///
/// In that record the socket's kind lies at place 256 and the area of the
/// protocol-specific part starts at place 264; in a TCP part the local port
/// lies at place 4 and the local IPv4 address at place 60. Where the kind is
/// that of a TCP socket, the port is the two bytes from place 268 and the
/// address the four bytes from place 324, each read in network byte order:
/// the first byte is the highest.
pub proof fn lemma_tcp_local_endpoint(b: Seq<u8>)
    requires
        i32_at(b, 256) == 2,
    ensures
        SocketFDInfo::decode_spec(b, 0).psi.proto_spec() is Tcp,
        ({
            let tcp = SocketFDInfo::decode_spec(b, 0).psi.proto_spec()->Tcp_0;
            let local = tcp.tcpsi_ini.local_endpoint_spec();
            &&& local.port == byte_at(b, 268) * 0x100 + byte_at(b, 269)
            &&& local.addr == byte_at(b, 324) * 0x100_0000 + byte_at(b, 325) * 0x1_0000 + byte_at(
                b,
                326,
            ) * 0x100 + byte_at(b, 327)
        }),
{
    let psi = SocketFDInfo::decode_spec(b, 0).psi;
    let area = psi.soi_proto@;
    lemma_proto_bytes(b, 264);
    assert(forall|k: int| 0 <= k < SOCKET_PROTO_SIZE ==> byte_at(area, k) == byte_at(b, 264 + k));
    let ini = TcpSockInfo::decode_spec(area, 0).tcpsi_ini;
    lemma_port_in_network_order(area, 4);
    let laddr = ini.insi_laddr.ina_6.s6_addr@;
    lemma_array_of::<u8, IN6_ADDR_LEN>(u8s_at(area, 48, IN6_ADDR_LEN as nat));
    assert(forall|k: int| 0 <= k < IN6_ADDR_LEN ==> byte_at(laddr, k) == byte_at(area, 48 + k));
    lemma_addr_in_network_order(laddr, 12);
}

} // verus!
