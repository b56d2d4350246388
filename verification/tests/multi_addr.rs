use axum_listener::multi::MultiAddr;
use axum_listener::{collect_results, DualAddr, SockAddr};

fn tcp(port: u16) -> DualAddr {
    DualAddr::Tcp(SockAddr::V4 { ip: 0x7f00_0001, port })
}

fn port_of(a: &DualAddr) -> u16 {
    match a {
        DualAddr::Tcp(s) => s.port(),
        DualAddr::Uds(_) => panic!("Expected TCP address"),
    }
}

#[test]
fn all_results_ok_keeps_order() {
    let r: Result<Vec<u32>, &str> = collect_results(vec![Ok(3), Ok(1), Ok(2)]);
    assert_eq!(r.unwrap(), vec![3, 1, 2]);
    let empty: Result<Vec<u32>, &str> = collect_results(vec![]);
    assert_eq!(empty.unwrap(), Vec::<u32>::new());
}

#[test]
fn first_error_is_reported() {
    let r: Result<Vec<u32>, &str> = collect_results(vec![Ok(1), Err("second"), Ok(3), Err("fourth")]);
    assert_eq!(r.unwrap_err(), "second");
}

#[test]
fn accepted_connection_reports_its_peer_alone() {
    let m = MultiAddr::from_accepted(tcp(5000));
    assert_eq!(m.addrs.len(), 1);
    assert_eq!(port_of(&m.addrs[0]), 5000);
    let c = m.clone();
    assert_eq!(port_of(&c.addrs[0]), 5000);
}

#[test]
fn local_addrs_in_listener_order() {
    let r: Result<MultiAddr<DualAddr>, &str> = MultiAddr::from_local_addrs(vec![Ok(tcp(1)), Ok(tcp(2))]);
    let m = r.unwrap();
    assert_eq!(m.addrs.iter().map(port_of).collect::<Vec<_>>(), vec![1, 2]);
    let r: Result<MultiAddr<DualAddr>, &str> = MultiAddr::from_local_addrs(vec![Ok(tcp(1)), Err("closed")]);
    assert_eq!(r.unwrap_err(), "closed");
}
