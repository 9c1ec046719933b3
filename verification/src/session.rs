//! The session and address model: a destination is either a socket
//! address or a host:port pair, and a session describes one proxied flow.

use vstd::prelude::*;

verus! {

/// An IP address, either four octets or eight 16-bit groups.
#[derive(Clone, Copy, Debug, PartialEq, Eq, Structural)]
pub enum IpAddress {
    V4(u8, u8, u8, u8),
    V6(u16, u16, u16, u16, u16, u16, u16, u16),
}

/// A socket address: an IP address paired with a port.
#[derive(Clone, Copy, Debug, PartialEq, Eq, Structural)]
pub struct SockAddr {
    pub ip: IpAddress,
    pub port: u16,
}

/// A destination address: a socket address, or a domain name with a port.
#[derive(Clone, Debug)]
pub enum SocksAddr {
    Ip(SockAddr),
    Domain(String, u16),
}

/// The decimal digit character for `d`.
pub open spec fn dec_digit(d: int) -> char {
    if d == 0 { '0' }
    else if d == 1 { '1' }
    else if d == 2 { '2' }
    else if d == 3 { '3' }
    else if d == 4 { '4' }
    else if d == 5 { '5' }
    else if d == 6 { '6' }
    else if d == 7 { '7' }
    else if d == 8 { '8' }
    else { '9' }
}

/// The hexadecimal digit character for `d`.
pub open spec fn hex_digit(d: int) -> char {
    if d < 10 { dec_digit(d) }
    else if d == 10 { 'a' }
    else if d == 11 { 'b' }
    else if d == 12 { 'c' }
    else if d == 13 { 'd' }
    else if d == 14 { 'e' }
    else { 'f' }
}

/// The decimal rendering of `n`, without leading zeros.
pub open spec fn spec_decimal(n: int) -> Seq<char>
    decreases n,
{
    if n < 10 {
        seq![dec_digit(n)]
    } else {
        spec_decimal(n / 10).push(dec_digit(n % 10))
    }
}

/// The four-digit zero-padded hexadecimal rendering of `n`.
pub open spec fn spec_hex4(n: int) -> Seq<char> {
    seq![
        hex_digit((n / 4096) % 16),
        hex_digit((n / 256) % 16),
        hex_digit((n / 16) % 16),
        hex_digit(n % 16),
    ]
}

/// The textual rendering of an IP address: dotted decimal for the
/// four-octet form, colon-separated full hexadecimal groups otherwise.
pub open spec fn spec_ip_text(ip: IpAddress) -> Seq<char> {
    match ip {
        IpAddress::V4(a, b, c, d) => spec_decimal(a as int) + seq!['.'] + spec_decimal(b as int)
            + seq!['.'] + spec_decimal(c as int) + seq!['.'] + spec_decimal(d as int),
        IpAddress::V6(a, b, c, d, e, f, g, h) => spec_hex4(a as int) + seq![':'] + spec_hex4(
            b as int,
        ) + seq![':'] + spec_hex4(c as int) + seq![':'] + spec_hex4(d as int) + seq![':']
            + spec_hex4(e as int) + seq![':'] + spec_hex4(f as int) + seq![':'] + spec_hex4(
            g as int,
        ) + seq![':'] + spec_hex4(h as int),
    }
}

/// One decimal digit as a string.
fn dec_digit_str(d: u8) -> (r: String)
    requires
        d < 10,
    ensures
        r@ =~= seq![dec_digit(d as int)],
{
    proof {
        reveal_strlit("0");
        reveal_strlit("1");
        reveal_strlit("2");
        reveal_strlit("3");
        reveal_strlit("4");
        reveal_strlit("5");
        reveal_strlit("6");
        reveal_strlit("7");
        reveal_strlit("8");
        reveal_strlit("9");
    }
    match d {
        0 => "0".to_owned(),
        1 => "1".to_owned(),
        2 => "2".to_owned(),
        3 => "3".to_owned(),
        4 => "4".to_owned(),
        5 => "5".to_owned(),
        6 => "6".to_owned(),
        7 => "7".to_owned(),
        8 => "8".to_owned(),
        _ => "9".to_owned(),
    }
}

/// One hexadecimal digit as a string.
fn hex_digit_str(d: u16) -> (r: String)
    requires
        d < 16,
    ensures
        r@ =~= seq![hex_digit(d as int)],
{
    proof {
        reveal_strlit("a");
        reveal_strlit("b");
        reveal_strlit("c");
        reveal_strlit("d");
        reveal_strlit("e");
        reveal_strlit("f");
    }
    if d < 10 {
        dec_digit_str(d as u8)
    } else {
        match d {
            10 => "a".to_owned(),
            11 => "b".to_owned(),
            12 => "c".to_owned(),
            13 => "d".to_owned(),
            14 => "e".to_owned(),
            _ => "f".to_owned(),
        }
    }
}

/// Renders an octet in decimal.
pub fn decimal_octet(n: u8) -> (r: String)
    ensures
        r@ == spec_decimal(n as int),
{
    if n < 10 {
        let r = dec_digit_str(n);
        assert(r@ =~= spec_decimal(n as int));
        r
    } else if n < 100 {
        let mut r = dec_digit_str(n / 10);
        let low = dec_digit_str(n % 10);
        r.append(low.as_str());
        assert(spec_decimal(n as int) == spec_decimal(n as int / 10).push(
            dec_digit(n as int % 10),
        ));
        assert(spec_decimal(n as int / 10) == seq![dec_digit(n as int / 10)]);
        assert(r@ =~= spec_decimal(n as int));
        r
    } else {
        let mut r = dec_digit_str(n / 100);
        let mid = dec_digit_str((n / 10) % 10);
        let low = dec_digit_str(n % 10);
        r.append(mid.as_str());
        r.append(low.as_str());
        assert(spec_decimal(n as int) == spec_decimal(n as int / 10).push(
            dec_digit(n as int % 10),
        ));
        assert(spec_decimal(n as int / 10) == spec_decimal(n as int / 10 / 10).push(
            dec_digit(n as int / 10 % 10),
        ));
        assert(n as int / 10 / 10 == n as int / 100);
        assert(r@ =~= spec_decimal(n as int));
        r
    }
}

/// Renders a 16-bit group as four zero-padded hexadecimal digits.
pub fn hex_group(n: u16) -> (r: String)
    ensures
        r@ == spec_hex4(n as int),
{
    let mut r = hex_digit_str((n / 4096) % 16);
    let d1 = hex_digit_str((n / 256) % 16);
    let d2 = hex_digit_str((n / 16) % 16);
    let d3 = hex_digit_str(n % 16);
    r.append(d1.as_str());
    r.append(d2.as_str());
    r.append(d3.as_str());
    assert(r@ =~= spec_hex4(n as int));
    r
}

impl IpAddress {
    /// Renders the address as text.
    pub fn to_text(&self) -> (r: String)
        ensures
            r@ == spec_ip_text(*self),
    {
        proof {
            reveal_strlit(".");
            reveal_strlit(":");
        }
        match *self {
            IpAddress::V4(a, b, c, d) => {
                let mut r = decimal_octet(a);
                r.append(".");
                r.append(decimal_octet(b).as_str());
                r.append(".");
                r.append(decimal_octet(c).as_str());
                r.append(".");
                r.append(decimal_octet(d).as_str());
                assert(r@ =~= spec_ip_text(*self));
                r
            },
            IpAddress::V6(a, b, c, d, e, f, g, h) => {
                let mut r = hex_group(a);
                r.append(":");
                r.append(hex_group(b).as_str());
                r.append(":");
                r.append(hex_group(c).as_str());
                r.append(":");
                r.append(hex_group(d).as_str());
                r.append(":");
                r.append(hex_group(e).as_str());
                r.append(":");
                r.append(hex_group(f).as_str());
                r.append(":");
                r.append(hex_group(g).as_str());
                r.append(":");
                r.append(hex_group(h).as_str());
                assert(r@ =~= spec_ip_text(*self));
                r
            },
        }
    }
}

impl SocksAddr {
    /// The host part of the destination: the domain name, or the
    /// rendered IP address.
    pub open spec fn spec_host(self) -> Seq<char> {
        match self {
            SocksAddr::Domain(h, _) => h@,
            SocksAddr::Ip(sa) => spec_ip_text(sa.ip),
        }
    }

    /// The port part of the destination.
    pub open spec fn spec_port(self) -> u16 {
        match self {
            SocksAddr::Domain(_, p) => p,
            SocksAddr::Ip(sa) => sa.port,
        }
    }

    /// Returns the host part of the destination as text.
    pub fn host(&self) -> (r: String)
        ensures
            r@ == self.spec_host(),
    {
        match self {
            SocksAddr::Domain(h, _) => h.clone(),
            SocksAddr::Ip(sa) => sa.ip.to_text(),
        }
    }

    /// Returns the port part of the destination.
    pub fn port(&self) -> (r: u16)
        ensures
            r == self.spec_port(),
    {
        match self {
            SocksAddr::Domain(_, p) => *p,
            SocksAddr::Ip(sa) => sa.port,
        }
    }
}

/// Structural equality of destinations: same variant, equal contents,
/// with domain names compared by their characters.
pub open spec fn socks_addr_eq(a: SocksAddr, b: SocksAddr) -> bool {
    match a {
        SocksAddr::Ip(sa) => match b {
            SocksAddr::Ip(sb) => sa == sb,
            _ => false,
        },
        SocksAddr::Domain(h1, p1) => match b {
            SocksAddr::Domain(h2, p2) => h1@ == h2@ && p1 == p2,
            _ => false,
        },
    }
}

/// Compares two destinations structurally.
fn destination_eq(a: &SocksAddr, b: &SocksAddr) -> (r: bool)
    ensures
        r == socks_addr_eq(*a, *b),
{
    match a {
        SocksAddr::Ip(sa) => match b {
            SocksAddr::Ip(sb) => *sa == *sb,
            _ => false,
        },
        SocksAddr::Domain(h1, p1) => match b {
            SocksAddr::Domain(h2, p2) => *h1 == *h2 && *p1 == *p2,
            _ => false,
        },
    }
}

impl PartialEq for SocksAddr {
    /// Destinations compare by structural equality of the variant.
    fn eq(&self, other: &SocksAddr) -> (r: bool) {
        destination_eq(self, other)
    }
}

impl vstd::std_specs::cmp::PartialEqSpecImpl for SocksAddr {
    open spec fn obeys_eq_spec() -> bool {
        true
    }

    open spec fn eq_spec(&self, other: &SocksAddr) -> bool {
        socks_addr_eq(*self, *other)
    }
}

/// One proxied flow: where it came from, where it is headed, and its
/// stream identity within a multiplexed carrier connection, if any.
#[derive(Clone, Debug)]
pub struct Session {
    pub source: SockAddr,
    pub destination: SocksAddr,
    pub stream_id: Option<u64>,
}

impl Session {
    /// Builds a fresh session for a flow accepted from `source` and
    /// headed to `destination`, with no stream identity yet.
    pub fn new(source: SockAddr, destination: SocksAddr) -> (r: Session)
        ensures
            r.source == source,
            r.destination == destination,
            r.stream_id is None,
    {
        Session { source, destination, stream_id: None }
    }
}

impl Default for Session {
    /// An all-zero session, as placed around a flow before any routing
    /// information is known.
    fn default() -> (r: Session)
        ensures
            r.source == (SockAddr { ip: IpAddress::V4(0, 0, 0, 0), port: 0 }),
            r.destination == SocksAddr::Ip(SockAddr { ip: IpAddress::V4(0, 0, 0, 0), port: 0 }),
            r.stream_id is None,
    {
        Session {
            source: SockAddr { ip: IpAddress::V4(0, 0, 0, 0), port: 0 },
            destination: SocksAddr::Ip(SockAddr { ip: IpAddress::V4(0, 0, 0, 0), port: 0 }),
            stream_id: None,
        }
    }
}

} // verus!
