use taps::properties::Preference;
use taps::properties::SelectionProperty;
use taps::properties::TransportProperties;
use taps::resolve::finish_lookup;
use taps::resolve::with_port;
use taps::resolve::Endpoint;
use taps::resolve::IoError;
use taps::resolve::IoErrorKind;
use taps::resolve::IpAddress;
use taps::resolve::LookupFailure;
use taps::resolve::Resolution;
use taps::resolve::SocketAddress;
use taps::transport::first_address;
use taps::transport::ladder;
use taps::transport::resolve_failed;
use taps::transport::Attempt;
use taps::transport::Connecting;
use taps::transport::Error;
use taps::transport::Ladder;
use taps::transport::Protocol;
use taps::transport::Retry;

fn addr(n: u32) -> SocketAddress {
    SocketAddress { ip: IpAddress::V4(n), port: 443 }
}

fn failure(n: u8) -> IoError {
    IoError { kind: IoErrorKind::TimedOut, message: format!("attempt {}", n) }
}

fn with_reliability(pref: Preference) -> TransportProperties {
    let mut props = TransportProperties::default();
    props.add(SelectionProperty::Reliability, pref);
    props
}

#[test]
fn reliability_decides_the_order_of_the_protocols() {
    let cases = vec![
        (Preference::Require, Protocol::Tcp, None),
        (Preference::Prefer, Protocol::Tcp, Some(Protocol::Udp)),
        (Preference::Ignore, Protocol::Tcp, Some(Protocol::Udp)),
        (Preference::Avoid, Protocol::Udp, Some(Protocol::Tcp)),
        (Preference::Prohibit, Protocol::Udp, None),
    ];
    for (pref, first, fallback) in cases {
        let props = with_reliability(pref);
        assert_eq!(ladder(&props), Ladder { first, fallback });
        let attempt = Attempt::create(addr(1), &props);
        assert_eq!(attempt, Attempt { remote: addr(1), protocol: first, fallback });
    }
    assert_eq!(
        ladder(&TransportProperties::default()),
        Ladder { first: Protocol::Tcp, fallback: None }
    );
}

#[test]
fn other_properties_do_not_change_the_order() {
    let mut props = with_reliability(Preference::Avoid);
    props.prohibit(SelectionProperty::CongestionControl).prohibit(SelectionProperty::PreserveOrder);
    assert_eq!(ladder(&props), Ladder { first: Protocol::Udp, fallback: Some(Protocol::Tcp) });
}

#[test]
fn a_failure_leads_to_the_fallback_once() {
    let attempt = Attempt::create(addr(1), &with_reliability(Preference::Prefer));
    let next = match attempt.failed::<()>(failure(1)) {
        Retry::Next(next) => next,
        other => panic!("{:?}", other),
    };
    assert_eq!(next, Attempt { remote: addr(1), protocol: Protocol::Udp, fallback: None });
    assert_eq!(next.failed::<()>(failure(2)), Retry::Failed(Error::Open { source: failure(2) }));
    let attempt = Attempt::create(addr(1), &with_reliability(Preference::Require));
    assert_eq!(attempt.failed::<()>(failure(3)), Retry::Failed(Error::Open { source: failure(3) }));
}

#[test]
fn a_bind_that_failed_is_a_bind_error() {
    let attempt = Attempt::create(addr(1), &with_reliability(Preference::Avoid));
    let next = match attempt.bind_failed::<()>(failure(1)) {
        Retry::Next(next) => next,
        other => panic!("{:?}", other),
    };
    assert_eq!(next.protocol, Protocol::Tcp);
    assert_eq!(next.bind_failed::<()>(failure(2)), Retry::Failed(Error::Bind { source: failure(2) }));
}

#[test]
fn an_open_transport_takes_its_addresses() {
    let attempt = Attempt::create(addr(7), &with_reliability(Preference::Ignore));
    assert_eq!(
        attempt.opened::<()>(Ok(addr(1))),
        Ok(Connecting { protocol: Protocol::Tcp, local: addr(1), remote: addr(7) })
    );
    assert_eq!(attempt.opened::<()>(Err(failure(1))), Err(Error::Open { source: failure(1) }));
}

#[test]
fn the_first_address_is_taken_and_none_is_an_error() {
    assert_eq!(first_address::<()>(&vec![addr(3), addr(4)]), Ok(addr(3)));
    assert_eq!(first_address::<()>(&vec![addr(5)]), Ok(addr(5)));
    assert_eq!(first_address::<()>(&Vec::new()), Err(Error::NoEndpoint { source: None }));
}

#[test]
fn an_address_resolves_to_itself() {
    assert_eq!(addr(1).resolve(), Ok(Resolution::Addresses(vec![addr(1)])));
    let six = SocketAddress { ip: IpAddress::V6(1), port: 1 };
    assert_eq!(six.resolve(), Ok(Resolution::Addresses(vec![six])));
}

#[test]
fn the_absent_endpoint_does_not_resolve() {
    assert_eq!(().resolve(), Err(taps::resolve::Error::MissingEndpoint));
    assert_eq!(
        resolve_failed::<()>(taps::resolve::Error::MissingEndpoint),
        Error::Resolve { source: Box::new(taps::resolve::Error::MissingEndpoint) }
    );
}

#[test]
fn a_host_and_a_port_ask_for_a_lookup() {
    assert_eq!(
        (String::from("example.com"), 80u16).resolve(),
        Ok(Resolution::Lookup { host: String::from("example.com"), port: 80 })
    );
    assert_eq!(
        ("example.com", 443u16).resolve(),
        Ok(Resolution::Lookup { host: String::from("example.com"), port: 443 })
    );
}

#[test]
fn every_address_of_the_host_gets_the_port_in_the_order_of_the_lookup() {
    let ips = vec![IpAddress::V6(9), IpAddress::V4(1), IpAddress::V4(0), IpAddress::V6(2)];
    let expected = vec![
        SocketAddress { ip: IpAddress::V6(9), port: 8080 },
        SocketAddress { ip: IpAddress::V4(1), port: 8080 },
        SocketAddress { ip: IpAddress::V4(0), port: 8080 },
        SocketAddress { ip: IpAddress::V6(2), port: 8080 },
    ];
    assert_eq!(with_port(&ips, 8080), expected);
    assert_eq!(finish_lookup(Ok(ips), 8080), Ok(expected));
    assert_eq!(with_port(&Vec::new(), 1), Vec::new());
}

#[test]
fn a_lookup_that_failed_is_an_error_of_its_kind() {
    assert_eq!(
        finish_lookup(Err(LookupFailure::Io(failure(1))), 80),
        Err(taps::resolve::Error::Io { source: failure(1) })
    );
    assert_eq!(
        finish_lookup(Err(LookupFailure::Join(String::from("panicked"))), 80),
        Err(taps::resolve::Error::Join { message: String::from("panicked") })
    );
}
