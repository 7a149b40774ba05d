use core::cmp::Ordering;
use taps::race::add_delay;
use taps::race::into_failure;
use taps::race::order_addrs;
use taps::race::race;
use taps::race::Progress;
use taps::race::Runner;
use taps::race::V4_DELAY_MS;
use taps::race::V6_DELAY_MS;
use taps::resolve::IoError;
use taps::resolve::IoErrorKind;
use taps::resolve::IpAddress;
use taps::resolve::SocketAddress;
use taps::transport::Connecting;
use taps::transport::Error;
use taps::transport::Protocol;

fn v4(n: u32) -> SocketAddress {
    SocketAddress { ip: IpAddress::V4(n), port: 80 }
}

fn v6(n: u128) -> SocketAddress {
    SocketAddress { ip: IpAddress::V6(n), port: 80 }
}

fn refused(n: u8) -> IoError {
    IoError { kind: IoErrorKind::ConnectionRefused, message: format!("refused {}", n) }
}

fn open(remote: SocketAddress) -> Connecting {
    Connecting { protocol: Protocol::Tcp, local: v4(1), remote }
}

#[test]
fn version_six_starts_at_once_and_version_four_a_little_later() {
    assert_eq!(add_delay(&v6(1)), 0);
    assert_eq!(add_delay(&v4(1)), 5);
    assert_eq!(V6_DELAY_MS, 0);
    assert_eq!(V4_DELAY_MS, 5);
    assert!(add_delay(&v6(7)) < add_delay(&v4(7)));
}

#[test]
fn in_a_tie_version_six_ends_first() {
    for connect_ms in [0u64, 1, 20, 1000] {
        assert!(add_delay(&v6(1)) + connect_ms < add_delay(&v4(1)) + connect_ms);
    }
}

#[test]
fn addresses_are_ordered_by_family() {
    assert_eq!(order_addrs(&v4(1), &v4(2)), Ordering::Equal);
    assert_eq!(order_addrs(&v6(1), &v6(2)), Ordering::Equal);
    assert_eq!(order_addrs(&v4(1), &v6(2)), Ordering::Less);
    assert_eq!(order_addrs(&v6(1), &v4(2)), Ordering::Greater);
}

#[test]
fn a_race_without_addresses_is_lost_before_it_starts() {
    match race::<()>(&Vec::new()) {
        Err(e) => assert_eq!(e, Error::NoEndpoint { source: None }),
        Ok(_) => panic!("a race started"),
    }
}

#[test]
fn every_address_runs_with_the_delay_of_its_family() {
    let addrs = vec![v4(1), v6(2), v6(3), v4(4)];
    let (running, plan) = race::<()>(&addrs).unwrap();
    assert_eq!(running.outstanding(), 4);
    assert_eq!(
        plan,
        vec![
            Runner { addr: v4(1), delay_ms: 5 },
            Runner { addr: v6(2), delay_ms: 0 },
            Runner { addr: v6(3), delay_ms: 0 },
            Runner { addr: v4(4), delay_ms: 5 },
        ]
    );
}

#[test]
fn the_first_transport_that_opens_wins() {
    let (running, _) = race::<()>(&vec![v4(1), v6(2), v4(3)]).unwrap();
    let running = match running.finished::<()>(Err(Error::Open { source: refused(1) })) {
        Progress::Pending(running) => running,
        other => panic!("{:?}", other),
    };
    assert_eq!(running.outstanding(), 2);
    match running.finished::<()>(Ok(open(v6(2)))) {
        Progress::Won(transport) => assert_eq!(transport, open(v6(2))),
        other => panic!("{:?}", other),
    }
}

#[test]
fn a_race_in_which_all_fail_is_lost_with_the_last_failure() {
    let (running, _) = race::<()>(&vec![v4(1), v6(2), v4(3)]).unwrap();
    let running = match running.finished::<()>(Err(Error::Open { source: refused(1) })) {
        Progress::Pending(running) => running,
        other => panic!("{:?}", other),
    };
    let running = match running.finished::<()>(Err(Error::Open { source: refused(2) })) {
        Progress::Pending(running) => running,
        other => panic!("{:?}", other),
    };
    assert_eq!(running.outstanding(), 1);
    match running.finished::<()>(Err(Error::Open { source: refused(3) })) {
        Progress::Lost(e) => assert_eq!(e, Error::NoEndpoint { source: Some(refused(3)) }),
        other => panic!("{:?}", other),
    }
}

#[test]
fn a_race_of_one_is_decided_by_its_only_attempt() {
    let (running, plan) = race::<u8>(&vec![v6(9)]).unwrap();
    assert_eq!(plan.len(), 1);
    match running.finished::<u8>(Err(Error::Frame { source: Box::new(1) })) {
        Progress::Lost(e) => assert_eq!(e, Error::NoEndpoint { source: None }),
        other => panic!("{:?}", other),
    }
    let (running, _) = race::<u8>(&vec![v6(9)]).unwrap();
    match running.finished::<u8>(Ok(open(v6(9)))) {
        Progress::Won(transport) => assert_eq!(transport.remote, v6(9)),
        other => panic!("{:?}", other),
    }
}

#[test]
fn the_failure_of_an_error_is_what_the_system_reported() {
    let io = refused(0);
    assert_eq!(into_failure::<()>(Error::Open { source: io.clone() }), Some(io.clone()));
    assert_eq!(into_failure::<()>(Error::Send { source: io.clone() }), Some(io.clone()));
    assert_eq!(into_failure::<()>(Error::Receive { source: io.clone() }), Some(io.clone()));
    assert_eq!(into_failure::<()>(Error::Close { source: io.clone() }), Some(io.clone()));
    assert_eq!(into_failure::<()>(Error::Listen { source: io.clone() }), Some(io.clone()));
    assert_eq!(into_failure::<()>(Error::Bind { source: io.clone() }), Some(io.clone()));
    assert_eq!(into_failure::<()>(Error::NoEndpoint { source: Some(io.clone()) }), Some(io));
    assert_eq!(into_failure::<()>(Error::NoEndpoint { source: None }), None);
    assert_eq!(into_failure::<u8>(Error::Frame { source: Box::new(1) }), None);
    let missing = taps::resolve::Error::MissingEndpoint;
    assert_eq!(into_failure::<()>(Error::Resolve { source: Box::new(missing) }), None);
}
