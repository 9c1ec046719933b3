use flower::session::{IpAddress, Session, SockAddr, SocksAddr};

#[test]
fn domain_destination_exposes_host_and_port() {
    let d = SocksAddr::Domain("example.com".to_string(), 8443);
    assert_eq!(d.host(), "example.com");
    assert_eq!(d.port(), 8443);
}

#[test]
fn ip_destination_renders_dotted_decimal() {
    let d = SocksAddr::Ip(SockAddr { ip: IpAddress::V4(127, 0, 0, 1), port: 3000 });
    assert_eq!(d.host(), "127.0.0.1");
    assert_eq!(d.port(), 3000);
    let wide = SocksAddr::Ip(SockAddr { ip: IpAddress::V4(192, 168, 10, 255), port: 80 });
    assert_eq!(wide.host(), "192.168.10.255");
}

#[test]
fn ipv6_destination_renders_full_groups() {
    let d = SocksAddr::Ip(SockAddr {
        ip: IpAddress::V6(0x2001, 0xdb8, 0, 0, 0, 0, 0, 1),
        port: 443,
    });
    assert_eq!(d.host(), "2001:0db8:0000:0000:0000:0000:0000:0001");
}

#[test]
fn destination_equality_is_structural() {
    let a = SocksAddr::Ip(SockAddr { ip: IpAddress::V4(10, 0, 0, 1), port: 80 });
    let b = SocksAddr::Ip(SockAddr { ip: IpAddress::V4(10, 0, 0, 1), port: 80 });
    let c = SocksAddr::Ip(SockAddr { ip: IpAddress::V4(10, 0, 0, 2), port: 80 });
    assert!(a == b);
    assert!(a != c);
    let d1 = SocksAddr::Domain("a.example".to_string(), 80);
    let d2 = SocksAddr::Domain("a.example".to_string(), 80);
    let d3 = SocksAddr::Domain("a.example".to_string(), 81);
    assert!(d1 == d2);
    assert!(d1 != d3);
    assert!(a != d1);
}

#[test]
fn fresh_session_has_no_stream_identity() {
    let src = SockAddr { ip: IpAddress::V4(192, 0, 2, 7), port: 50000 };
    let dst = SocksAddr::Domain("example.com".to_string(), 443);
    let s = Session::new(src, dst);
    assert_eq!(s.source, src);
    assert_eq!(s.stream_id, None);
}

#[test]
fn default_session_is_all_zero() {
    let s = Session::default();
    assert_eq!(s.source, SockAddr { ip: IpAddress::V4(0, 0, 0, 0), port: 0 });
    assert_eq!(s.stream_id, None);
    assert_eq!(s.destination.host(), "0.0.0.0");
}
