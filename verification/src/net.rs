//! Socket addresses of rule targets and of the daemon's own listeners.
use vstd::prelude::*;

use crate::ipv6_text::{ipv6_text, ipv6_to_string};
use crate::text::{decimal, push_char, push_decimal};

verus! {

/// An IP address, by its octets (IPv4) or its 16-bit groups (IPv6).
#[derive(Clone, Copy, Debug, PartialEq, Eq)]
pub enum IpAddress {
    V4([u8; 4]),
    V6([u16; 8]),
}

/// An IP address and a port.
#[derive(Clone, Copy, Debug, PartialEq, Eq)]
pub struct SocketTarget {
    pub ip: IpAddress,
    pub port: u16,
}

pub open spec fn is_unspecified_v4(o: [u8; 4]) -> bool {
    o@ == seq![0u8, 0u8, 0u8, 0u8]
}

pub open spec fn is_unspecified_v6(g: [u16; 8]) -> bool {
    forall|i: int| 0 <= i < 8 ==> #[trigger] g@[i] == 0
}

impl IpAddress {
    /// `127.0.0.1`.
    pub fn localhost_v4() -> (r: IpAddress)
        ensures
            r == IpAddress::V4([127u8, 0u8, 0u8, 1u8]),
    {
        IpAddress::V4([127, 0, 0, 1])
    }

    pub fn is_ipv4(&self) -> (b: bool)
        ensures
            b == (*self is V4),
    {
        match self {
            IpAddress::V4(_) => true,
            IpAddress::V6(_) => false,
        }
    }

    /// Whether this is `0.0.0.0` or `::`.
    pub fn is_unspecified(&self) -> (b: bool)
        ensures
            b == match *self {
                IpAddress::V4(o) => is_unspecified_v4(o),
                IpAddress::V6(g) => is_unspecified_v6(g),
            },
    {
        match self {
            IpAddress::V4(o) => {
                let r = o[0] == 0 && o[1] == 0 && o[2] == 0 && o[3] == 0;
                assert(r ==> o@ =~= seq![0u8, 0u8, 0u8, 0u8]);
                r
            },
            IpAddress::V6(g) => {
                let mut i: usize = 0;
                while i < 8
                    invariant
                        0 <= i <= 8,
                        *self == IpAddress::V6(*g),
                        forall|j: int| 0 <= j < i ==> #[trigger] g@[j] == 0,
                    decreases 8 - i,
                {
                    if g[i] != 0 {
                        assert(g@[i as int] != 0);
                        return false;
                    }
                    i = i + 1;
                }
                true
            },
        }
    }
}

impl SocketTarget {
    pub fn new(ip: IpAddress, port: u16) -> (r: SocketTarget)
        ensures
            r.ip == ip,
            r.port == port,
    {
        SocketTarget { ip, port }
    }

    pub fn ip(&self) -> (r: IpAddress)
        ensures
            r == self.ip,
    {
        self.ip
    }

    pub fn port(&self) -> (r: u16)
        ensures
            r == self.port,
    {
        self.port
    }

    pub fn set_port(&mut self, port: u16)
        ensures
            final(self).ip == old(self).ip,
            final(self).port == port,
    {
        self.port = port;
    }
}

/// Where the DNS server listens: `127.0.53.53:53`.
pub fn dns_listen_addr() -> (r: SocketTarget)
    ensures
        r == (SocketTarget { ip: IpAddress::V4([127u8, 0u8, 53u8, 53u8]), port: 53 }),
{
    SocketTarget { ip: IpAddress::V4([127, 0, 53, 53]), port: 53 }
}

/// Where the HTTP proxy listens: `127.0.0.42:80`.
pub fn proxy_listen_addr() -> (r: SocketTarget)
    ensures
        r == (SocketTarget { ip: IpAddress::V4([127u8, 0u8, 0u8, 42u8]), port: 80 }),
{
    SocketTarget { ip: IpAddress::V4([127, 0, 0, 42]), port: 80 }
}

/// The dotted-decimal text of an IPv4 address.
pub open spec fn ipv4_text(o: [u8; 4]) -> Seq<char> {
    decimal(o@[0] as nat) + seq!['.'] + decimal(o@[1] as nat) + seq!['.'] + decimal(o@[2] as nat)
        + seq!['.'] + decimal(o@[3] as nat)
}

/// The text of an IP address.
pub open spec fn ip_text(ip: IpAddress) -> Seq<char> {
    match ip {
        IpAddress::V4(o) => ipv4_text(o),
        IpAddress::V6(g) => ipv6_text(g@),
    }
}

/// The text of a socket address: `a.b.c.d:port`, or `[v6]:port`.
pub open spec fn socket_text(t: SocketTarget) -> Seq<char> {
    match t.ip {
        IpAddress::V4(o) => ipv4_text(o) + seq![':'] + decimal(t.port as nat),
        IpAddress::V6(g) => seq!['['] + ipv6_text(g@) + seq![']', ':'] + decimal(t.port as nat),
    }
}

pub fn push_ipv4(s: &mut String, o: [u8; 4])
    ensures
        final(s)@ == old(s)@ + ipv4_text(o),
{
    push_decimal(s, o[0] as u64);
    push_char(s, '.');
    push_decimal(s, o[1] as u64);
    push_char(s, '.');
    push_decimal(s, o[2] as u64);
    push_char(s, '.');
    push_decimal(s, o[3] as u64);
    assert(s@ =~= old(s)@ + ipv4_text(o));
}

impl IpAddress {
    /// The text of the address.
    pub fn to_text(&self) -> (r: String)
        ensures
            r@ == ip_text(*self),
    {
        match self {
            IpAddress::V4(o) => {
                let mut s = String::new();
                push_ipv4(&mut s, *o);
                assert(s@ =~= ipv4_text(*o));
                s
            },
            IpAddress::V6(g) => ipv6_to_string(*g),
        }
    }
}

impl SocketTarget {
    /// The text of the socket address.
    pub fn to_text(&self) -> (r: String)
        ensures
            r@ == socket_text(*self),
    {
        let mut s = String::new();
        match self.ip {
            IpAddress::V4(o) => {
                push_ipv4(&mut s, o);
            },
            IpAddress::V6(g) => {
                push_char(&mut s, '[');
                let t = ipv6_to_string(g);
                s.append(t.as_str());
                push_char(&mut s, ']');
            },
        }
        push_char(&mut s, ':');
        push_decimal(&mut s, self.port as u64);
        assert(s@ =~= socket_text(*self));
        s
    }
}

} // verus!
