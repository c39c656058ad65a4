use tls_tunnel::error::TunnelError;
use tls_tunnel::listener::{PortScan, ScanAction, FIRST_PORT, LAST_PORT};

fn scan_with(free: &[u16]) -> (PortScan, Vec<u16>) {
    let mut scan = PortScan::start();
    let mut tried = Vec::new();
    while let ScanAction::Bind(port) = scan.action() {
        tried.push(port);
        scan = scan.observe(free.contains(&port));
    }
    (scan, tried)
}

#[test]
fn scan_range_is_1025_to_65534() {
    assert_eq!(FIRST_PORT, 1025);
    assert_eq!(LAST_PORT, 65534);
}

#[test]
fn scan_starts_at_the_first_port() {
    let scan = PortScan::start();
    assert_eq!(scan, PortScan::Probing(1025));
    assert_eq!(scan.action(), ScanAction::Bind(1025));
    assert_eq!(scan.bound_port(), None);
}

#[test]
fn first_port_free_is_bound_at_once() {
    let scan = PortScan::start().observe(true);
    assert_eq!(scan, PortScan::Bound(1025));
    assert_eq!(scan.action(), ScanAction::Report(1025));
    assert_eq!(scan.bound_port(), Some(1025));
}

#[test]
fn refused_port_moves_to_the_next() {
    let scan = PortScan::start().observe(false);
    assert_eq!(scan, PortScan::Probing(1026));
    assert_eq!(scan.action(), ScanAction::Bind(1026));
}

#[test]
fn only_free_port_is_bound_and_reported() {
    let (scan, tried) = scan_with(&[40000]);
    assert_eq!(scan, PortScan::Bound(40000));
    assert_eq!(scan.action(), ScanAction::Report(40000));
    assert_eq!(tried.len(), 40000 - 1025 + 1);
    assert_eq!(tried.first(), Some(&1025));
    assert_eq!(tried.last(), Some(&40000));
    assert!(tried.windows(2).all(|w| w[1] == w[0] + 1));
}

#[test]
fn lowest_of_several_free_ports_is_bound() {
    let (scan, tried) = scan_with(&[65534, 2000, 3000]);
    assert_eq!(scan.bound_port(), Some(2000));
    assert_eq!(tried.last(), Some(&2000));
}

#[test]
fn last_port_is_still_tried() {
    let (scan, tried) = scan_with(&[65534]);
    assert_eq!(scan, PortScan::Bound(65534));
    assert_eq!(tried.len(), 64510);
}

#[test]
fn ports_outside_the_range_are_never_tried() {
    let (scan, tried) = scan_with(&[80, 1024, 65535]);
    assert_eq!(scan, PortScan::Exhausted);
    assert!(tried.iter().all(|p| *p >= 1025 && *p <= 65534));
}

#[test]
fn all_ports_occupied_fails_with_no_port_available() {
    let (scan, tried) = scan_with(&[]);
    assert_eq!(scan, PortScan::Exhausted);
    assert_eq!(scan.action(), ScanAction::Fail(TunnelError::NoPortAvailable));
    assert_eq!(scan.bound_port(), None);
    assert_eq!(tried.len(), 64510);
    assert_eq!(tried.last(), Some(&65534));
}

#[test]
fn finished_scan_ignores_further_answers() {
    assert_eq!(PortScan::Bound(2000).observe(false), PortScan::Bound(2000));
    assert_eq!(PortScan::Bound(2000).observe(true), PortScan::Bound(2000));
    assert_eq!(PortScan::Exhausted.observe(true), PortScan::Exhausted);
    assert_eq!(PortScan::Exhausted.observe(false), PortScan::Exhausted);
}

#[test]
fn refusal_of_the_last_port_exhausts_the_scan() {
    assert_eq!(PortScan::Probing(65534).observe(false), PortScan::Exhausted);
    assert_eq!(PortScan::Probing(65533).observe(false), PortScan::Probing(65534));
    assert_eq!(PortScan::Probing(65535).observe(false), PortScan::Exhausted);
}
