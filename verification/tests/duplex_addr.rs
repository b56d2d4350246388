use axum_listener::{BindTarget, DuplexAddr, Platform, SockAddr, ToDuplexAddr};

const UNIX: Platform = Platform { has_uds: true, sun_path_len: 108 };

#[test]
fn listener_test_tcp_bind() {
    let resolved = vec![SockAddr::V4 { ip: 0x7f00_0001, port: 8080 }];
    let addr = DuplexAddr::from_str("localhost:8080", UNIX, Some(resolved));
    assert!(addr.is_ok());
    if let BindTarget::Tcp(tcp) = addr.unwrap().bind_target().unwrap() {
        assert_eq!(tcp.port(), 8080);
    } else {
        panic!("Expected TCP listener");
    }
}

#[test]
fn listener_test_uds_bind() {
    let addr = DuplexAddr::from_str("/tmp/test.sock", UNIX, None);
    assert!(addr.is_ok());
    if let BindTarget::Uds(path) = addr.unwrap().bind_target().unwrap() {
        assert_eq!(path, b"/tmp/test.sock".to_vec());
    } else {
        panic!("Expected UDS listener");
    }
}

#[test]
fn duplex_conversion_keeps_the_address() {
    let a = SockAddr::V6 { ip: 1, port: 443, flowinfo: 0, scope_id: 2 };
    match a.to_duplex_addr().unwrap().to_duplex_addr().unwrap() {
        DuplexAddr::Tcp(b) => assert_eq!(a, b),
        DuplexAddr::Uds(_) => panic!("Expected TCP address"),
    }
}
