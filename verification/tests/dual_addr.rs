use axum_listener::{AddrError, BindTarget, DualAddr, ErrorKind, Platform, SockAddr, ToDualAddr, UdsAddr};

/// A Linux-like platform: Unix sockets, with a `sun_path` of 108 bytes.
const UNIX: Platform = Platform { has_uds: true, sun_path_len: 108 };
/// A platform with a `sun_path` of 104 bytes, as on macOS and the BSDs.
const BSD: Platform = Platform { has_uds: true, sun_path_len: 104 };
/// A platform without Unix sockets.
const NO_UDS: Platform = Platform { has_uds: false, sun_path_len: 0 };

const LOCALHOST: u32 = 0x7f00_0001;

fn localhost(port: u16) -> SockAddr {
    SockAddr::V4 { ip: LOCALHOST, port }
}

fn uds_path(addr: &DualAddr) -> Vec<u8> {
    match addr {
        DualAddr::Uds(a) => a.as_pathname().expect("a named socket").to_vec(),
        DualAddr::Tcp(_) => panic!("Expected UDS address"),
    }
}

#[test]
fn dual_test_tcp_bind() {
    let addr = DualAddr::from_str("localhost:8080", UNIX, Some(vec![localhost(8080)]));
    assert!(addr.is_ok());
    if let BindTarget::Tcp(tcp) = addr.unwrap().bind_target().unwrap() {
        assert_eq!(tcp.port(), 8080);
    } else {
        panic!("Expected TCP listener");
    }
}

#[test]
fn dual_test_uds_bind() {
    let addr = DualAddr::from_str("/tmp/test.sock", UNIX, None);
    assert!(addr.is_ok());
    if let BindTarget::Uds(path) = addr.unwrap().bind_target().unwrap() {
        assert_eq!(path, b"/tmp/test.sock".to_vec());
    } else {
        panic!("Expected UDS listener");
    }
}

#[test]
fn unix_scheme_names_the_same_socket_as_the_bare_path() {
    let a = DualAddr::from_str("unix:/tmp/app.sock", UNIX, None).unwrap();
    let b = DualAddr::from_str("/tmp/app.sock", UNIX, None).unwrap();
    assert_eq!(uds_path(&a), b"/tmp/app.sock".to_vec());
    assert_eq!(uds_path(&a), uds_path(&b));
}

#[test]
fn repeated_unix_schemes_are_all_removed() {
    let a = DualAddr::from_str("unix:unix:/x.sock", UNIX, None).unwrap();
    assert_eq!(uds_path(&a), b"/x.sock".to_vec());
    let relative = DualAddr::from_str("unix:app.sock", UNIX, None).unwrap();
    assert_eq!(uds_path(&relative), b"app.sock".to_vec());
}

#[test]
fn empty_unix_path_parses_but_cannot_be_bound() {
    let a = DualAddr::from_str("unix:", UNIX, None).unwrap();
    match &a {
        DualAddr::Uds(u) => assert!(u.as_pathname().is_none()),
        DualAddr::Tcp(_) => panic!("Expected UDS address"),
    }
    assert_eq!(a.bind_target().unwrap_err(), AddrError::NoPathname);
    assert!(a.socket_file().is_none());
}

#[test]
fn path_with_nul_is_refused() {
    let r = DualAddr::from_str("/tmp/a\0b", UNIX, None);
    assert_eq!(r.unwrap_err(), AddrError::PathContainsNul);
}

#[test]
fn path_too_long_is_refused() {
    let long = format!("/{}", "a".repeat(107));
    assert_eq!(long.len(), 108);
    let r = DualAddr::from_str(&long, UNIX, None);
    assert_eq!(r.unwrap_err(), AddrError::PathTooLong);
    let fits = format!("/{}", "a".repeat(106));
    assert_eq!(uds_path(&DualAddr::from_str(&fits, UNIX, None).unwrap()), fits.as_bytes().to_vec());
}

#[test]
fn path_limit_follows_the_platform() {
    let path = format!("/{}", "b".repeat(103));
    assert_eq!(path.len(), 104);
    assert_eq!(DualAddr::from_str(&path, BSD, None).unwrap_err(), AddrError::PathTooLong);
    assert_eq!(uds_path(&DualAddr::from_str(&path, UNIX, None).unwrap()), path.as_bytes().to_vec());
    let shorter = format!("/{}", "b".repeat(102));
    assert_eq!(uds_path(&DualAddr::from_str(&shorter, BSD, None).unwrap()), shorter.as_bytes().to_vec());
    assert_eq!(UdsAddr::from_pathname(path.as_bytes(), 104).unwrap_err(), AddrError::PathTooLong);
    assert!(UdsAddr::from_pathname(path.as_bytes(), 108).is_ok());
}

#[test]
fn unix_path_without_platform_support() {
    let r = DualAddr::from_str("/tmp/app.sock", NO_UDS, None);
    assert_eq!(r.unwrap_err(), AddrError::UdsUnsupported);
    let r = DualAddr::from_str("unix:/tmp/app.sock", NO_UDS, None);
    assert_eq!(r.unwrap_err(), AddrError::UdsUnsupported);
}

#[test]
fn unresolved_non_path_is_invalid_format() {
    let r = DualAddr::from_str("not an address", UNIX, None);
    assert_eq!(r.unwrap_err(), AddrError::InvalidFormat);
}

#[test]
fn resolution_to_nothing_is_no_tcp_address() {
    let r = DualAddr::from_str("example.invalid:80", UNIX, Some(vec![]));
    assert_eq!(r.unwrap_err(), AddrError::NoTcpAddress);
}

#[test]
fn resolved_address_wins_and_first_is_taken() {
    let v6 = SockAddr::V6 { ip: 1, port: 9000, flowinfo: 0, scope_id: 0 };
    let r = DualAddr::from_str("localhost:9000", UNIX, Some(vec![v6, localhost(9000)])).unwrap();
    match r {
        DualAddr::Tcp(a) => assert_eq!(a, v6),
        DualAddr::Uds(_) => panic!("Expected TCP address"),
    }
    let r = DualAddr::from_str("/odd:1", UNIX, Some(vec![localhost(1)])).unwrap();
    match r {
        DualAddr::Tcp(a) => assert_eq!(a, localhost(1)),
        DualAddr::Uds(_) => panic!("Expected TCP address"),
    }
}

#[test]
fn from_pathname_and_as_pathname_round_trip() {
    let a = UdsAddr::from_pathname(b"/run/app.sock", 108).unwrap();
    assert_eq!(a.as_pathname().unwrap(), b"/run/app.sock");
    let empty = UdsAddr::from_pathname(b"", 108).unwrap();
    assert!(empty.as_pathname().is_none());
    assert_eq!(UdsAddr::from_pathname(b"\0abstract", 108).unwrap_err(), AddrError::PathContainsNul);
}

#[test]
fn conversions_keep_the_address() {
    let tcp: DualAddr = DualAddr::from(localhost(80));
    match tcp.to_dual_addr().unwrap() {
        DualAddr::Tcp(a) => assert_eq!(a, localhost(80)),
        DualAddr::Uds(_) => panic!("Expected TCP address"),
    }
    let uds = UdsAddr::from_pathname(b"/s", 108).unwrap();
    let as_dual = uds.to_dual_addr().unwrap();
    assert_eq!(uds_path(&as_dual), b"/s".to_vec());
    let from_uds: DualAddr = DualAddr::from(uds.clone());
    assert_eq!(uds_path(&from_uds.clone()), b"/s".to_vec());
    match localhost(81).to_dual_addr().unwrap() {
        DualAddr::Tcp(a) => assert_eq!(a.port(), 81),
        DualAddr::Uds(_) => panic!("Expected TCP address"),
    }
}

#[test]
fn socket_file_is_the_unix_path() {
    let uds = DualAddr::from_str("unix:/tmp/f.sock", UNIX, None).unwrap();
    assert_eq!(uds.socket_file().unwrap(), b"/tmp/f.sock");
    let tcp = DualAddr::Tcp(localhost(1));
    assert!(tcp.socket_file().is_none());
}

#[test]
fn errors_report_kind_and_message() {
    assert_eq!(AddrError::UdsUnsupported.kind(), ErrorKind::Other);
    assert_eq!(AddrError::InvalidFormat.kind(), ErrorKind::InvalidInput);
    assert_eq!(AddrError::NoTcpAddress.message(), "Invalid TCP address");
    assert_eq!(AddrError::InvalidFormat.message(), "Invalid address format");
    assert_eq!(AddrError::NoPathname.message(), "UDS address does not have a valid pathname");
    assert_eq!(AddrError::NoPathname.kind(), ErrorKind::InvalidInput);
}
