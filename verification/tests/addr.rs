use async_rs::implementors::hickory::{AddrParseError, HickoryToSocketAddrs};
use async_rs::traits::addr::{
    AsyncToSocketAddrs, IpAddress, IpSealed, Resolution, ResolveError, SocketAddress, SocketSealed,
};
use async_rs::traits::executor::{Ambient, Entry, HandleSource, Route};
use async_rs::util::addr::{SocketAddrs, SocketAddrsFromIpAddrs};
use async_rs::{NoopRuntime, Runtime, Tokio};

const OUTSIDE: Ambient = Ambient { inside_tokio: false, unix: true };
const INSIDE: Ambient = Ambient { inside_tokio: true, unix: true };

fn v4(a: u8, b: u8, c: u8, d: u8) -> IpAddress {
    IpAddress::V4([a, b, c, d])
}

#[test]
fn ip_from_octets() {
    assert_eq!([127u8, 0, 0, 1].into_ip(), v4(127, 0, 0, 1));
    let octets: [u8; 16] = [0, 1, 2, 3, 4, 5, 6, 7, 8, 9, 10, 11, 12, 13, 14, 15];
    assert_eq!(octets.into_ip(), IpAddress::V6(octets));
    assert_eq!(v4(10, 0, 0, 2).into_ip(), v4(10, 0, 0, 2));
}

#[test]
fn ip_from_segments() {
    let segments: [u16; 8] = [0x2001, 0x0db8, 0, 0, 0, 0xff00, 0x0042, 0x8329];
    assert_eq!(
        segments.into_ip(),
        IpAddress::V6([
            0x20, 0x01, 0x0d, 0xb8, 0, 0, 0, 0, 0, 0, 0xff, 0x00, 0x00, 0x42, 0x83, 0x29
        ])
    );
    assert_eq!([0u16; 8].into_ip(), IpAddress::V6([0; 16]));
    assert_eq!([0xffffu16; 8].into_ip(), IpAddress::V6([0xff; 16]));
    assert_eq!(
        [0u16, 0, 0, 0, 0, 0, 0, 1].into_ip(),
        IpAddress::V6([0, 0, 0, 0, 0, 0, 0, 0, 0, 0, 0, 0, 0, 0, 0, 1])
    );
}

#[test]
fn socket_address_from_parts() {
    let addr = v4(192, 168, 1, 1).with_port(8080);
    assert_eq!(addr, SocketAddress { ip: v4(192, 168, 1, 1), port: 8080 });
    assert_eq!(addr, SocketAddress::new(v4(192, 168, 1, 1), 8080));
    assert_eq!(addr.into_socket_addr(), addr);
}

#[test]
fn literal_inputs_resolve_on_the_spot() {
    let addr = SocketAddress::new(v4(127, 0, 0, 1), 7654);
    assert_eq!(addr.to_socket_addrs(OUTSIDE), Ok(Resolution::Resolved(vec![addr])));
    assert_eq!(
        ([127u8, 0, 0, 1], 7654u16).to_socket_addrs(OUTSIDE),
        Ok(Resolution::Resolved(vec![addr]))
    );
    assert_eq!(
        (v4(127, 0, 0, 1), 7654u16).to_socket_addrs(INSIDE),
        Ok(Resolution::Resolved(vec![addr]))
    );
    assert_eq!(
        ([0u16, 0, 0, 0, 0, 0, 0, 1], 443u16).to_socket_addrs(OUTSIDE),
        Ok(Resolution::Resolved(vec![SocketAddress::new(
            IpAddress::V6([0, 0, 0, 0, 0, 0, 0, 0, 0, 0, 0, 0, 0, 0, 0, 1]),
            443
        )]))
    );
}

#[test]
fn lists_resolve_in_their_order() {
    let a = SocketAddress::new(v4(1, 1, 1, 1), 1);
    let b = SocketAddress::new(v4(2, 2, 2, 2), 2);
    let c = SocketAddress::new(v4(3, 3, 3, 3), 3);
    assert_eq!(vec![c, a, b].to_socket_addrs(OUTSIDE), Ok(Resolution::Resolved(vec![c, a, b])));
    let slice: &[SocketAddress] = &[b, c, a];
    assert_eq!(slice.to_socket_addrs(OUTSIDE), Ok(Resolution::Resolved(vec![b, c, a])));
    assert_eq!(
        SocketAddrs(vec![a, b]).to_socket_addrs(OUTSIDE),
        Ok(Resolution::Resolved(vec![a, b]))
    );
    assert_eq!(
        Vec::<SocketAddress>::new().to_socket_addrs(OUTSIDE),
        Ok(Resolution::Resolved(Vec::new()))
    );
}

#[test]
fn ips_get_the_port_in_order() {
    let mut addrs = SocketAddrsFromIpAddrs::new(vec![v4(1, 0, 0, 1), v4(1, 0, 0, 2)], 53);
    assert_eq!(addrs.next(), Some(SocketAddress::new(v4(1, 0, 0, 1), 53)));
    assert_eq!(addrs.next(), Some(SocketAddress::new(v4(1, 0, 0, 2), 53)));
    assert_eq!(addrs.next(), None);
    assert_eq!(addrs.next(), None);
}

#[test]
fn remaining_ips_as_a_list() {
    let ips = vec![v4(9, 9, 9, 9), v4(8, 8, 8, 8), v4(1, 1, 1, 1)];
    let all = SocketAddrsFromIpAddrs::new(ips.clone(), 853).into_vec();
    assert_eq!(
        all,
        vec![
            SocketAddress::new(v4(9, 9, 9, 9), 853),
            SocketAddress::new(v4(8, 8, 8, 8), 853),
            SocketAddress::new(v4(1, 1, 1, 1), 853),
        ]
    );
    let mut rest = SocketAddrsFromIpAddrs::new(ips, 853);
    rest.next();
    assert_eq!(
        rest.into_vec(),
        vec![SocketAddress::new(v4(8, 8, 8, 8), 853), SocketAddress::new(v4(1, 1, 1, 1), 853)]
    );
    assert!(SocketAddrsFromIpAddrs::new(Vec::new(), 1).into_vec().is_empty());
}

fn parsed(text: &str) -> Result<(String, u16), AddrParseError> {
    HickoryToSocketAddrs::from_str(text).map(|name| (name.get_host().clone(), name.get_port()))
}

#[test]
fn host_and_port_from_text() {
    assert_eq!(parsed("example.com:443"), Ok(("example.com".to_string(), 443)));
    assert_eq!(parsed("localhost:0"), Ok(("localhost".to_string(), 0)));
    assert_eq!(parsed("localhost:65535"), Ok(("localhost".to_string(), 65535)));
    assert_eq!(parsed(":80"), Ok((String::new(), 80)));
    assert_eq!(parsed("h:+80"), Ok(("h".to_string(), 80)));
    assert_eq!(parsed("h:00080"), Ok(("h".to_string(), 80)));
    assert_eq!(parsed("h:0000000000000000000065535"), Ok(("h".to_string(), 65535)));
}

#[test]
fn the_last_colon_splits() {
    assert_eq!(parsed("::1:8080"), Ok(("::1".to_string(), 8080)));
    assert_eq!(parsed("[2001:db8::1]:53"), Ok(("[2001:db8::1]".to_string(), 53)));
    assert_eq!(parsed("a:b:1"), Ok(("a:b".to_string(), 1)));
}

#[test]
fn hosts_need_not_be_ascii() {
    assert_eq!(parsed("bücher.example:8080"), Ok(("bücher.example".to_string(), 8080)));
    assert_eq!(parsed("例え.テスト:1"), Ok(("例え.テスト".to_string(), 1)));
}

#[test]
fn text_without_a_colon_is_no_socket_address() {
    assert_eq!(parsed("example.com"), Err(AddrParseError::InvalidSocketAddress));
    assert_eq!(parsed(""), Err(AddrParseError::InvalidSocketAddress));
    assert_eq!(parsed("8080"), Err(AddrParseError::InvalidSocketAddress));
}

#[test]
fn what_follows_the_colon_must_be_a_port() {
    for text in [
        "h:", "h:+", "h:-1", "h:-0", "h:65536", "h:99999", "h:4294967296", "h:80a", "h:a80",
        "h: 80", "h:80 ", "h:8 0", "h:++80", "h:+-80", "h:0x50", "h:٨٠", "h:1e3",
        "h:18446744073709551616",
    ] {
        assert_eq!(parsed(text), Err(AddrParseError::InvalidPort), "{}", text);
    }
}

#[test]
fn ports_agree_with_the_standard_parser() {
    for text in [
        "", "+", "-", "0", "+0", "-0", "1", "65535", "65536", "065535", "+65535", "+65536", "6553a",
        "６５", " 1", "1 ", "+ 1", "12345", "123456", "00000", "+00001", "++1",
    ] {
        let expected = text.parse::<u16>().ok();
        let got = parsed(&format!("host:{}", text)).ok().map(|(_, port)| port);
        assert_eq!(got, expected, "{:?}", text);
    }
}

#[test]
fn lookup_needs_the_engine_context() {
    let name = HickoryToSocketAddrs::new("example.com", 443);
    let refused = name.clone().lookup(OUTSIDE);
    assert_eq!(refused.err(), Some(ResolveError::Context));
    let granted = name.lookup(INSIDE).unwrap();
    assert_eq!(*granted.get_host(), "example.com");
    assert_eq!(granted.get_port(), 443);
}

#[test]
fn names_resolve_natively_inside_the_context_only() {
    let name = HickoryToSocketAddrs::new("example.com", 443);
    assert_eq!(name.clone().to_socket_addrs(OUTSIDE).err(), Some(ResolveError::Context));
    match name.to_socket_addrs(INSIDE) {
        Ok(Resolution::Native(n)) => {
            assert_eq!(*n.get_host(), "example.com");
            assert_eq!(n.get_port(), 443);
        }
        other => panic!("{:?}", other),
    }
}

#[test]
fn looked_up_ips_get_the_port_of_the_name() {
    let name = HickoryToSocketAddrs::new("example.com", 8443);
    let addrs = name.socket_addrs(vec![v4(93, 184, 216, 34), v4(93, 184, 216, 35)]).into_vec();
    assert_eq!(
        addrs,
        vec![
            SocketAddress::new(v4(93, 184, 216, 34), 8443),
            SocketAddress::new(v4(93, 184, 216, 35), 8443)
        ]
    );
}

#[test]
fn blocking_resolution_goes_through_spawn_blocking() {
    let runtime = NoopRuntime::noop();
    let resolver = runtime.to_socket_addrs("example.com:80");
    assert_eq!(
        resolver.to_socket_addrs(OUTSIDE),
        Ok(Resolution::Blocking(Route::Noop, "example.com:80"))
    );

    let binding: Tokio<u8, u8> = Tokio::default().with_runtime(1, 2);
    let runtime = Runtime::new(binding);
    let resolver = runtime.to_socket_addrs(("example.com", 80u16));
    assert_eq!(
        resolver.to_socket_addrs(INSIDE),
        Ok(Resolution::Blocking(
            Route::Tokio(Entry::Handle(HandleSource::Runtime)),
            ("example.com", 80u16)
        ))
    );
}
