use bytes::BytesMut;
use core::convert::Infallible;
use taps::codec::DecodeError;
use taps::codec::DeframeError;
use taps::codec::Encode;
use taps::codec::Framer;
use taps::codec::MakeSimilar;
use taps::http::server::find_method;
use taps::http::server::read_request;
use taps::http::server::start_with_method;
use taps::http::server::DecodeState;
use taps::http::server::State;
use taps::http::BodyError;
use taps::http::Error;
use taps::http::HttpClient;
use taps::http::HttpServer;
use taps::http::InvalidHeaderError;
use taps::http::MessageError;
use taps::http::Request;
use taps::http::Response;
use taps::http::Version;

type ServerError = Error<BodyError<Infallible, Infallible>>;

fn deframe_request(input: &[u8]) -> (Result<Request<()>, DeframeError<ServerError>>, Vec<u8>) {
    let mut framer: HttpServer<(), ()> = HttpServer::new();
    let mut buf = BytesMut::from(input);
    let r = framer.deframe(&mut buf);
    (r, buf.to_vec())
}

fn request_line(line: &[u8]) -> Result<DecodeState<()>, DecodeError<Error<Infallible>, DecodeState<()>>> {
    let mut buf = BytesMut::from(line);
    buf.extend_from_slice(b"\r\n");
    let r = read_request::<(), Infallible>(&mut buf, DecodeState::new(()));
    assert!(buf.is_empty());
    r
}

#[test]
fn a_get_request_is_read() {
    let (r, rest) = deframe_request(b"GET /Cargo.toml HTTP/1.1\r\nHost: 127.0.0.1\r\n\r\n");
    let request = r.unwrap();
    assert_eq!(request.method, b"GET".to_vec());
    assert_eq!(request.uri.text, b"/Cargo.toml".to_vec());
    assert_eq!(request.uri.path_and_query, Some(b"/Cargo.toml".to_vec()));
    assert_eq!(request.uri.host, None);
    assert_eq!(request.version, Version::Http11);
    assert_eq!(request.headers, vec![(b"host".to_vec(), b" 127.0.0.1".to_vec())]);
    assert!(rest.is_empty());
}

#[test]
fn every_known_method_starts_a_request() {
    let names: Vec<&[u8]> = vec![
        b"GET", b"POST", b"PUT", b"DELETE", b"HEAD", b"OPTIONS", b"CONNECT", b"PATCH", b"TRACE",
    ];
    for name in names {
        let mut line = name.to_vec();
        line.extend_from_slice(b" /x?y HTTP/2.0");
        assert!(start_with_method(&line));
        let state = request_line(&line).unwrap();
        assert_eq!(state.builder.method, name.to_vec());
        assert_eq!(state.builder.uri.text, b"/x?y".to_vec());
        assert_eq!(state.builder.version, Version::Http2);
        assert_eq!(state.builder.error, None);
        assert_eq!(state.state, State::Headers);
    }
}

#[test]
fn other_words_start_no_request() {
    let cases: Vec<&[u8]> = vec![b"", b"GE", b"get / ", b"QUERY /", b"XGET /", b"POS", b"OPTION "];
    for case in cases {
        assert!(!start_with_method(case), "{:?}", case);
    }
    assert!(start_with_method(b"GET"));
    assert!(start_with_method(b"GETS"));
    assert!(start_with_method(b"TRACE"));
}

#[test]
fn the_request_is_found_where_seven_bytes_start_with_a_method() {
    assert_eq!(find_method(b"GET / HTTP/1.1"), Some(0));
    assert_eq!(find_method(b"  PUT /a HTTP/1.1"), Some(2));
    assert_eq!(find_method(b"xxPOSTxGET / H"), Some(2));
    assert_eq!(find_method(b"GET /ab"), Some(0));
    assert_eq!(find_method(b"GET /a"), None);
    assert_eq!(find_method(b"abcdGET"), None);
    assert_eq!(find_method(b"abcdGET / H"), Some(4));
    assert_eq!(find_method(b""), None);
    assert_eq!(find_method(b"nothing here at all"), None);
}

#[test]
fn a_line_without_a_request_is_dropped() {
    let mut framer: HttpServer<(), ()> = HttpServer::new();
    let mut buf = BytesMut::from(&b"\r\nGET / HTTP/1.1\r\n\r\n"[..]);
    assert_eq!(framer.deframe(&mut buf).err(), Some(DeframeError::Incomplete));
    assert_eq!(&buf[..], b"GET / HTTP/1.1\r\n\r\n");
    let request = framer.deframe(&mut buf).unwrap();
    assert_eq!(request.method, b"GET".to_vec());
    match request_line(b"GET /a") {
        Err(DecodeError::Incomplete(state)) => assert_eq!(state.state, State::Status),
        other => panic!("{:?}", other),
    }
    match request_line(b"OPTIONS") {
        Err(DecodeError::Incomplete(state)) => assert_eq!(state.state, State::Status),
        other => panic!("{:?}", other),
    }
}

#[test]
fn a_request_line_without_its_second_space_is_refused() {
    for line in [&b"GET /abcdef"[..], &b"GET /abc/HTTP/1.1"[..], &b"DELETE x"[..]] {
        match request_line(line) {
            Err(DecodeError::Failed(Error::InvalidRequestLine)) => {}
            other => panic!("{:?}: {:?}", line, other),
        }
    }
}

#[test]
fn a_request_line_with_an_unknown_or_short_version_is_refused() {
    let cases: Vec<&[u8]> = vec![
        b"GET / HTTP/1.2",
        b"GET / HTTP/",
        b"GET / HTTP",
        b"GET /a ",
        b"GET / HTTP/1.",
        b"GET / http/9.9",
    ];
    for line in cases {
        match request_line(line) {
            Err(DecodeError::Failed(Error::InvalidVersion)) => {}
            other => panic!("{:?}: {:?}", line, other),
        }
    }
}

#[test]
fn the_five_bytes_before_the_version_are_passed_over_whatever_they_are() {
    let state = request_line(b"GET / xxxxx1.0").unwrap();
    assert_eq!(state.builder.version, Version::Http10);
}

#[test]
fn the_method_runs_to_the_first_space() {
    let state = request_line(b"GETTING /x HTTP/1.1").unwrap();
    assert_eq!(state.builder.method, b"GETTING".to_vec());
    assert_eq!(state.builder.error, None);
}

#[test]
fn a_method_that_is_no_token_is_reported_when_the_head_is_read() {
    let (r, _) = deframe_request(b"GET(x) / HTTP/1.1\r\n\r\n");
    assert_eq!(
        r.err(),
        Some(DeframeError::Failed(Error::InvalidResponse { source: MessageError::Method }))
    );
}

#[test]
fn a_target_that_is_no_uri_is_reported_when_the_head_is_read() {
    let (r, _) = deframe_request(b"GET /a<b HTTP/1.1\r\n\r\n");
    assert_eq!(
        r.err(),
        Some(DeframeError::Failed(Error::InvalidResponse { source: MessageError::Uri }))
    );
    let state = request_line(b"GET  HTTP/1.1 HTTP/1.1");
    match state {
        Ok(state) => assert_eq!(state.builder.error, Some(MessageError::Uri)),
        other => panic!("{:?}", other),
    }
}

#[test]
fn request_headers_are_read_as_those_of_a_response() {
    let (r, rest) = deframe_request(b"POST /p HTTP/1.0\r\nContent-Length: 3\r\nX-Y:z\r\n\r\nabc");
    let request = r.unwrap();
    assert_eq!(
        request.headers,
        vec![(b"content-length".to_vec(), b" 3".to_vec()), (b"x-y".to_vec(), b"z".to_vec())]
    );
    assert_eq!(rest, b"abc".to_vec());
    let (r, _) = deframe_request(b"POST /p HTTP/1.0\r\nnocolon\r\n\r\n");
    assert_eq!(
        r.err(),
        Some(DeframeError::Failed(Error::InvalidHeader { source: InvalidHeaderError::MissingColon }))
    );
}

#[test]
fn a_request_split_at_any_byte_gives_the_same_request() {
    let full: &[u8] = b"PATCH /a/b?c=d HTTP/1.1\r\nHost: h\r\nContent-Length: 0\r\n\r\n";
    let (whole, _) = deframe_request(full);
    let whole = whole.unwrap();
    for k in 0..full.len() {
        let mut framer: HttpServer<(), ()> = HttpServer::new();
        let mut buf = BytesMut::from(&full[..k]);
        assert_eq!(framer.deframe(&mut buf).err(), Some(DeframeError::Incomplete), "{}", k);
        buf.extend_from_slice(&full[k..]);
        assert_eq!(framer.deframe(&mut buf).ok(), Some(whole.clone()), "{}", k);
        assert!(buf.is_empty());
    }
}

fn encoded<T: Encode>(response: &Response<T>) -> (Result<(), Error<T::Error>>, Vec<u8>) {
    let mut buf = BytesMut::from(&b"<"[..]);
    let r = response.encode(&mut buf);
    (r, buf.to_vec())
}

#[test]
fn a_plain_response_is_written() {
    let (r, bytes) = encoded(&Response::new(()));
    assert!(r.is_ok());
    assert_eq!(bytes, b"<HTTP/1.1 200OK\r\n\r\n\r\n".to_vec());
}

#[test]
fn a_response_with_headers_and_body_is_written() {
    let mut response = Response::new(String::from("gone"));
    response.status = 404;
    response.version = Version::Http10;
    response.headers.push((b"content-length".to_vec(), b"4".to_vec()));
    response.headers.push((b"x".to_vec(), b"y z".to_vec()));
    let (r, bytes) = encoded(&response);
    assert!(r.is_ok());
    assert_eq!(
        bytes,
        b"<HTTP/1.0 404Not Found\r\ncontent-length: 4\r\nx: y z\r\n\r\n\r\ngone".to_vec()
    );
}

#[test]
fn a_status_without_a_reason_is_written_without_one() {
    let mut response = Response::new(());
    response.status = 999;
    response.version = Version::Http3;
    assert_eq!(encoded(&response).1, b"<HTTP/3.0 999\r\n\r\n\r\n".to_vec());
    response.status = 100;
    response.version = Version::Http09;
    assert_eq!(encoded(&response).1, b"<HTTP/0.9 100Continue\r\n\r\n\r\n".to_vec());
    response.status = 418;
    response.version = Version::Http2;
    assert_eq!(encoded(&response).1, b"<HTTP/2.0 418I'm a teapot\r\n\r\n\r\n".to_vec());
    response.status = 209;
    assert_eq!(encoded(&response).1, b"<HTTP/2.0 209\r\n\r\n\r\n".to_vec());
}

#[test]
fn a_status_that_is_no_status_code_is_refused_and_nothing_written() {
    for status in [0u16, 1, 99, 1000, 65535] {
        let mut response = Response::new(());
        response.status = status;
        let (r, bytes) = encoded(&response);
        assert_eq!(r.err(), Some(Error::InvalidStatus));
        assert_eq!(bytes, b"<".to_vec());
    }
}

#[test]
fn every_status_code_is_written_with_its_three_digits() {
    for status in 100u16..=999 {
        let mut response = Response::new(());
        response.status = status;
        let (r, bytes) = encoded(&response);
        assert!(r.is_ok());
        let digits = format!("{}", status);
        assert_eq!(&bytes[..10], b"<HTTP/1.1 ");
        assert_eq!(&bytes[10..13], digits.as_bytes());
        assert!(bytes.ends_with(b"\r\n\r\n\r\n"));
    }
}

#[test]
fn what_the_server_writes_the_client_reads() {
    let mut server: HttpServer<Vec<u8>, ()> = HttpServer::new();
    let mut response = Response::new(b"payload".to_vec());
    response.status = 201;
    response.headers.push((b"etag".to_vec(), b"\"1\"".to_vec()));
    let mut wire = BytesMut::new();
    assert!(server.frame(response, &mut wire).is_ok());
    let mut client: HttpClient<(), Vec<u8>> = HttpClient::new();
    let read = client.deframe(&mut wire).unwrap();
    assert_eq!(read.status, 201);
    assert_eq!(read.version, Version::Http11);
    assert_eq!(read.headers, vec![(b"etag".to_vec(), b" \"1\"".to_vec())]);
    assert_eq!(read.body, b"\r\npayload".to_vec());
    assert!(wire.is_empty());
}

#[test]
fn what_the_client_writes_the_server_reads() {
    let mut client: HttpClient<(), ()> = HttpClient::new();
    let mut request = Request::new(());
    request.method = b"HEAD".to_vec();
    request.headers.push((b"Host".to_vec(), b"example.com".to_vec()));
    let mut wire = BytesMut::new();
    assert!(client.frame(request, &mut wire).is_ok());
    let mut server: HttpServer<(), ()> = HttpServer::new();
    let read = server.deframe(&mut wire).unwrap();
    assert_eq!(read.method, b"HEAD".to_vec());
    assert_eq!(read.uri.text, b"/".to_vec());
    assert_eq!(read.headers, vec![(b"host".to_vec(), b" example.com".to_vec())]);
    assert_eq!(&wire[..], b"\r\n");
}

#[test]
fn the_server_framer_keeps_and_clears_its_state() {
    let mut framer: HttpServer<(), ()> = HttpServer::default();
    let mut buf = BytesMut::from(&b"GET / HTTP/1.1\r\nA: b\r\n"[..]);
    assert_eq!(framer.deframe(&mut buf).err(), Some(DeframeError::Incomplete));
    match &framer.decode_state {
        Some(state) => {
            assert_eq!(state.state, State::Headers);
            assert_eq!(state.builder.headers.len(), 1);
        }
        None => panic!("no state kept"),
    }
    assert!(framer.make_similar().decode_state.is_none());
    framer.add_metadata((), ());
    assert!(framer.decode_state.is_some());
    framer.clear();
    assert!(framer.decode_state.is_none());
}

#[test]
fn responses_give_no_size_hint() {
    assert_eq!(Response::new(String::from("abc")).size_hint(), (0, None));
}
