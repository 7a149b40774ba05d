use bytes::BytesMut;
use core::convert::Infallible;
use taps::codec::DeframeError;
use taps::codec::Framer;
use taps::connection::BUFFER_SIZE;
use taps::connection::Connection;
use taps::connection::Shutdown;
use taps::error::box_error;
use taps::error::Error;
use taps::http::BodyError;
use taps::http::HttpClient;
use taps::http::InvalidHeaderError;
use taps::http::Request;
use taps::properties::SelectionProperty;
use taps::properties::TransportProperties;
use taps::resolve::IoError;
use taps::resolve::IoErrorKind;
use taps::resolve::IpAddress;
use taps::resolve::SocketAddress;
use taps::transport::Attempt;
use taps::transport::Connecting;
use taps::transport::DeframeCause;
use taps::transport::Protocol;

type HttpFailure = taps::transport::Error<taps::http::Error<BodyError<Infallible, Infallible>>>;

fn addr(last: u32, port: u16) -> SocketAddress {
    SocketAddress { ip: IpAddress::V4(0x7f00_0000 + last), port }
}

fn stream() -> Connecting {
    Connecting { protocol: Protocol::Tcp, local: addr(1, 40000), remote: addr(2, 80) }
}

fn broken(kind: IoErrorKind) -> IoError {
    IoError { kind, message: String::from("broken") }
}

fn client() -> Connection<HttpClient<String, ()>> {
    Connection::from_existing(stream(), HttpClient::new())
}

#[test]
fn a_new_connection_reports_its_addresses_and_has_nothing_buffered() {
    let conn = client();
    assert_eq!(conn.local_endpoint(), addr(1, 40000));
    assert_eq!(conn.remote_endpoint(), addr(2, 80));
    assert_eq!(conn.transport_protocol(), Protocol::Tcp);
    assert_eq!(conn.buffered_len(), 0);
    assert_eq!(BUFFER_SIZE, 1024);
}

#[test]
fn send_hands_out_the_framed_bytes() {
    let mut conn = client();
    let mut request = Request::new(String::from("hi"));
    request.headers.push((b"Host".to_vec(), b"1.1.1.1:80".to_vec()));
    let bytes = conn.send(request).unwrap();
    assert_eq!(&bytes[..], b"GET / HTTP/1.1\r\nHost: 1.1.1.1:80\r\n\r\n\r\nhi");
    assert_eq!(conn.buffered_len(), 0);
}

#[test]
fn a_framing_error_is_a_send_error() {
    let mut conn = client();
    let expected: Error<HttpFailure> = Error::Send {
        source: Box::new(taps::transport::Error::Frame {
            source: Box::new(taps::http::Error::InvalidHost),
        }),
    };
    assert_eq!(conn.send(Request::new(String::new())).err(), Some(expected));
}

#[test]
fn a_write_that_failed_is_a_send_error() {
    let failure = Connection::<HttpClient<String, ()>>::send_failed(broken(IoErrorKind::BrokenPipe));
    let expected: Error<HttpFailure> = Error::Send {
        source: Box::new(taps::transport::Error::Send { source: broken(IoErrorKind::BrokenPipe) }),
    };
    assert_eq!(failure, expected);
}

#[test]
fn receive_asks_for_more_until_the_item_is_whole() {
    let mut conn = client();
    assert_eq!(conn.receive(Ok(b"HTTP/1.1 200 O".to_vec())), Ok(None));
    assert_eq!(conn.buffered_len(), 14);
    assert_eq!(conn.receive(Ok(b"K\r\nA: b\r".to_vec())), Ok(None));
    assert_eq!(conn.buffered_len(), 5);
    let response = conn.receive(Ok(b"\n\r\n".to_vec())).unwrap().unwrap();
    assert_eq!(response.status, 200);
    assert_eq!(response.headers, vec![(b"a".to_vec(), b" b".to_vec())]);
    assert_eq!(conn.buffered_len(), 0);
}

#[test]
fn bytes_of_the_next_item_stay_in_the_buffer() {
    let mut conn = client();
    let both = b"HTTP/1.1 200 OK\r\n\r\nHTTP/1.1 404 No\r\n\r".to_vec();
    let first = conn.receive(Ok(both)).unwrap().unwrap();
    assert_eq!(first.status, 200);
    assert_eq!(conn.buffered_len(), 18);
    let second = conn.receive(Ok(b"\n".to_vec())).unwrap().unwrap();
    assert_eq!(second.status, 404);
    assert_eq!(conn.buffered_len(), 0);
}

#[test]
fn the_end_of_the_stream_with_nothing_buffered_is_an_error() {
    let mut conn = client();
    let expected: Error<HttpFailure> = Error::Receive {
        source: Box::new(taps::transport::Error::Deframe {
            source: Box::new(DeframeCause::UnexpectedEof),
        }),
    };
    assert_eq!(conn.receive(Ok(Vec::new())), Err(expected));
    assert_eq!(conn.buffered_len(), 0);
}

#[test]
fn a_read_of_nothing_with_bytes_buffered_deframes_them() {
    let mut conn = client();
    assert_eq!(conn.receive(Ok(b"HTTP/1.1 200 OK\r\nA".to_vec())), Ok(None));
    assert_eq!(conn.buffered_len(), 1);
    assert_eq!(conn.receive(Ok(Vec::new())), Ok(None));
    assert_eq!(conn.buffered_len(), 1);
    let mut conn = client();
    let two = b"HTTP/1.1 200 OK\r\n\r\nHTTP/1.1 204 No\r\n\r\n".to_vec();
    assert_eq!(conn.receive(Ok(two)).unwrap().unwrap().status, 200);
    assert_eq!(conn.receive(Ok(Vec::new())).unwrap().unwrap().status, 204);
    assert_eq!(conn.buffered_len(), 0);
}

#[test]
fn a_read_that_failed_is_a_receive_error() {
    let mut conn = client();
    assert_eq!(conn.receive(Ok(b"HTTP/1.1 2".to_vec())), Ok(None));
    let expected: Error<HttpFailure> = Error::Receive {
        source: box_error(taps::transport::Error::Receive {
            source: broken(IoErrorKind::ConnectionReset),
        }),
    };
    assert_eq!(conn.receive(Err(broken(IoErrorKind::ConnectionReset))), Err(expected));
    assert_eq!(conn.buffered_len(), 10);
    assert_eq!(conn.receive(Ok(b"00 OK\r\n\r\n".to_vec())).unwrap().unwrap().status, 200);
}

#[test]
fn a_deframing_error_is_a_receive_error_and_clears_the_framer() {
    let mut conn = client();
    let expected: Error<HttpFailure> = Error::Receive {
        source: Box::new(taps::transport::Error::Deframe {
            source: Box::new(DeframeCause::Framer(taps::http::Error::InvalidHeader {
                source: InvalidHeaderError::MissingColon,
            })),
        }),
    };
    let bytes = b"HTTP/1.1 500 Oops\r\nbadheader\r\nHTTP/1.1 200 OK\r\n\r\n".to_vec();
    assert_eq!(conn.receive(Ok(bytes)), Err(expected));
    assert_eq!(conn.buffered_len(), 19);
    let response = conn.receive(Ok(b"x".to_vec())).unwrap().unwrap();
    assert_eq!(response.status, 200);
    assert_eq!(conn.buffered_len(), 1);
}

#[test]
fn a_stream_is_shut_down_and_datagrams_are_not() {
    assert_eq!(client().close(), Shutdown::Both);
    let datagrams = Connecting { protocol: Protocol::Udp, ..stream() };
    let conn: Connection<HttpClient<String, ()>> =
        Connection::from_existing(datagrams, HttpClient::new());
    assert_eq!(conn.close(), Shutdown::Nothing);
    client().abort();
}

#[test]
fn a_failed_shutdown_is_a_connection_error() {
    assert_eq!(Connection::<HttpClient<String, ()>>::closed(Ok(())), Ok(()));
    let expected: Error<HttpFailure> = Error::Connection {
        source: Box::new(taps::transport::Error::Close { source: broken(IoErrorKind::NotConnected) }),
    };
    assert_eq!(
        Connection::<HttpClient<String, ()>>::closed(Err(broken(IoErrorKind::NotConnected))),
        Err(expected)
    );
}

#[test]
fn prohibited_reliability_gives_datagrams_whose_close_does_nothing() {
    let mut props = TransportProperties::default();
    props.prohibit(SelectionProperty::Reliability);
    let attempt = Attempt::create(addr(9, 53), &props);
    assert_eq!(attempt.protocol, Protocol::Udp);
    assert_eq!(attempt.fallback, None);
    let transport = attempt.opened::<()>(Ok(addr(1, 5000))).unwrap();
    let conn: Connection<HttpClient<String, ()>> =
        Connection::from_existing(transport, HttpClient::new());
    assert_eq!(conn.transport_protocol(), Protocol::Udp);
    assert_eq!(conn.remote_endpoint(), addr(9, 53));
    assert_eq!(conn.close(), Shutdown::Nothing);
    assert_eq!(Connection::<HttpClient<String, ()>>::closed(Ok(())), Ok(()));
}

#[derive(Debug, PartialEq)]
struct Lines {
    cleared: usize,
    hint: usize,
}

#[derive(Debug, PartialEq)]
struct Hinted(Vec<u8>, usize);

impl taps::codec::Encode for Hinted {
    type Error = Infallible;

    fn encode(&self, data: &mut BytesMut) -> Result<(), Infallible> {
        data.extend_from_slice(&self.0);
        Ok(())
    }

    fn size_hint(&self) -> (usize, Option<usize>) {
        (self.1, None)
    }
}

impl Framer for Lines {
    type Input = Hinted;
    type Output = Vec<u8>;
    type MetaKey = ();
    type MetaValue = ();
    type Error = u8;

    fn frame(&mut self, item: Hinted, dst: &mut BytesMut) -> Result<(), u8> {
        self.hint = dst.capacity();
        if item.0.contains(&b'\n') {
            return Err(1);
        }
        dst.extend_from_slice(&item.0);
        dst.extend_from_slice(b"\n");
        Ok(())
    }

    fn deframe(&mut self, src: &mut BytesMut) -> Result<Vec<u8>, DeframeError<u8>> {
        match src.iter().position(|b| *b == b'\n') {
            Some(0) => {
                let _ = src.split_to(1);
                Err(DeframeError::Failed(2))
            }
            Some(at) => {
                let mut line = src.split_to(at).to_vec();
                let _ = src.split_to(1);
                line.push(self.cleared as u8);
                Ok(line)
            }
            None => Err(DeframeError::Incomplete),
        }
    }

    fn clear(&mut self) {
        self.cleared += 1;
    }

    fn add_metadata(&mut self, _key: (), _value: ()) {}
}

#[test]
fn the_framer_is_cleared_once_after_each_item_and_after_each_failure() {
    let mut conn = Connection::from_existing(stream(), Lines { cleared: 0, hint: 0 });
    assert_eq!(conn.receive(Ok(b"ab".to_vec())), Ok(None));
    assert_eq!(conn.receive(Ok(b"c\nde\n\nf".to_vec())), Ok(Some(b"abc\x00".to_vec())));
    assert_eq!(conn.buffered_len(), 5);
    assert_eq!(conn.receive(Ok(b"".to_vec())), Ok(Some(b"de\x01".to_vec())));
    let expected: Error<taps::transport::Error<u8>> = Error::Receive {
        source: Box::new(taps::transport::Error::Deframe {
            source: Box::new(DeframeCause::Framer(2)),
        }),
    };
    assert_eq!(conn.receive(Ok(b"g".to_vec())), Err(expected));
    assert_eq!(conn.buffered_len(), 2);
    assert_eq!(conn.receive(Ok(b"h".to_vec())), Ok(None));
    assert_eq!(conn.receive(Ok(b"\n".to_vec())), Ok(Some(b"fgh\x03".to_vec())));
    let bytes = conn.send(Hinted(b"out".to_vec(), 0)).unwrap();
    assert_eq!(&bytes[..], b"out\n");
}

#[test]
fn a_size_hint_that_is_wrong_does_no_harm() {
    let mut conn = Connection::from_existing(stream(), Lines { cleared: 0, hint: 0 });
    assert_eq!(&conn.send(Hinted(b"abc".to_vec(), 0)).unwrap()[..], b"abc\n");
    assert_eq!(&conn.send(Hinted(b"abc".to_vec(), 1)).unwrap()[..], b"abc\n");
    assert_eq!(&conn.send(Hinted(b"abc".to_vec(), 4096)).unwrap()[..], b"abc\n");
    assert_eq!(&conn.send(Hinted(b"abc".to_vec(), usize::MAX)).unwrap()[..], b"abc\n");
    let expected: Error<taps::transport::Error<u8>> =
        Error::Send { source: Box::new(taps::transport::Error::Frame { source: Box::new(1) }) };
    assert_eq!(conn.send(Hinted(b"a\nb".to_vec(), 3)).err(), Some(expected));
}
