use bytes::BytesMut;
use taps::http::bytes_to_ver;
use taps::http::line::eq_ignore_ascii_case;
use taps::http::line::lower_byte;
use taps::http::line::tail_of;
use taps::http::line::window_of;
use taps::http::message::RequestBuilder;
use taps::http::message::ResponseBuilder;
use taps::http::scan::find;
use taps::http::scan::find_eol;
use taps::http::scan::matches_at;
use taps::http::version_bytes;
use taps::http::Error;
use taps::http::MessageError;
use taps::http::Uri;
use taps::http::Version;

fn is_token_byte(b: u8) -> bool {
    b.is_ascii_alphanumeric() || b"!#$%&'*+-.^_`|~".contains(&b)
}

#[test]
fn a_method_is_a_token() {
    for b in 0..=255u8 {
        let mut builder = RequestBuilder::new();
        builder.method(&[b'M', b, b'x']);
        if is_token_byte(b) {
            assert_eq!(builder.error, None, "{}", b);
            assert_eq!(builder.method, vec![b'M', b, b'x']);
        } else {
            assert_eq!(builder.error, Some(MessageError::Method), "{}", b);
            assert_eq!(builder.method, b"GET".to_vec());
        }
    }
    let mut builder = RequestBuilder::new();
    builder.method(b"");
    assert_eq!(builder.error, Some(MessageError::Method));
    let mut builder = RequestBuilder::new();
    builder.method(&[b'a'; 100]);
    assert_eq!(builder.error, None);
    assert_eq!(builder.method.len(), 100);
}

#[test]
fn a_header_name_is_a_token_and_is_kept_in_lower_case() {
    for b in 0..=255u8 {
        let mut builder = ResponseBuilder::new();
        builder.header(&[b'N', b], b"v");
        if is_token_byte(b) {
            assert_eq!(builder.error, None, "{}", b);
            assert_eq!(builder.headers, vec![(vec![b'n', b.to_ascii_lowercase()], b"v".to_vec())]);
        } else {
            assert_eq!(builder.error, Some(MessageError::HeaderName), "{}", b);
            assert!(builder.headers.is_empty());
        }
    }
}

#[test]
fn a_header_name_has_one_to_65535_bytes() {
    let mut builder = ResponseBuilder::new();
    builder.header(b"", b"v");
    assert_eq!(builder.error, Some(MessageError::HeaderName));
    for len in [1usize, 64, 65, 1000, 65535] {
        let mut builder = ResponseBuilder::new();
        builder.header(&vec![b'A'; len], b"v");
        assert_eq!(builder.error, None, "{}", len);
        assert_eq!(builder.headers[0].0, vec![b'a'; len]);
    }
    let mut builder = ResponseBuilder::new();
    builder.header(&vec![b'a'; 65536], b"v");
    assert_eq!(builder.error, Some(MessageError::HeaderName));
    let mut builder = ResponseBuilder::new();
    let mut long = vec![b'a'; 100];
    long[99] = b' ';
    builder.header(&long, b"v");
    assert_eq!(builder.error, Some(MessageError::HeaderName));
}

#[test]
fn a_header_value_has_no_control_bytes_but_the_tab() {
    for b in 0..=255u8 {
        let mut builder = RequestBuilder::new();
        builder.header(b"n", &[b'v', b]);
        if (b >= 32 && b != 127) || b == b'\t' {
            assert_eq!(builder.error, None, "{}", b);
            assert_eq!(builder.headers, vec![(b"n".to_vec(), vec![b'v', b])]);
        } else {
            assert_eq!(builder.error, Some(MessageError::HeaderValue), "{}", b);
            assert!(builder.headers.is_empty());
        }
    }
    let mut builder = RequestBuilder::new();
    builder.header(b"n", b"");
    assert_eq!(builder.error, None);
}

#[test]
fn a_builder_keeps_its_first_error_and_takes_nothing_more() {
    let mut builder = ResponseBuilder::new();
    builder.header(b"ok", b"1");
    builder.header(b"bad name", b"2");
    builder.header(b"fine", b"\x00");
    builder.header(b"later", b"3");
    builder.version(Version::Http2);
    builder.status(404);
    assert_eq!(builder.error, Some(MessageError::HeaderName));
    assert_eq!(builder.headers.len(), 1);
    assert_eq!(builder.version, Version::Http11);
    assert_eq!(builder.status, 200);
    assert_eq!(builder.body(()).err(), Some(MessageError::HeaderName));

    let mut builder = RequestBuilder::new();
    builder.uri(b"/a b");
    builder.method(b"POST");
    builder.uri(b"/fine");
    builder.version(Version::Http10);
    builder.header(b"a", b"b");
    assert_eq!(builder.error, Some(MessageError::Uri));
    assert_eq!(builder.method, b"GET".to_vec());
    assert_eq!(builder.uri.text, b"/".to_vec());
    assert_eq!(builder.version, Version::Http11);
    assert!(builder.headers.is_empty());
    assert_eq!(builder.body(()).err(), Some(MessageError::Uri));
}

#[test]
fn a_builder_without_error_gives_the_message() {
    let mut builder = ResponseBuilder::new();
    builder.version(Version::Http3);
    builder.status(503);
    builder.header(b"Retry-After", b"1");
    let response = builder.body(7u8).unwrap();
    assert_eq!(response.version, Version::Http3);
    assert_eq!(response.status, 503);
    assert_eq!(response.headers, vec![(b"retry-after".to_vec(), b"1".to_vec())]);
    assert_eq!(response.body, 7);

    let mut builder = RequestBuilder::new();
    builder.method(b"PUT");
    builder.uri(b"http://example.com/a?b");
    builder.version(Version::Http10);
    builder.header(b"A", b"b");
    let request = builder.body(String::from("x")).unwrap();
    assert_eq!(request.method, b"PUT".to_vec());
    assert_eq!(request.uri.text, b"http://example.com/a?b".to_vec());
    assert_eq!(request.uri.path_and_query, Some(b"/a?b".to_vec()));
    assert_eq!(request.uri.host, Some(b"example.com".to_vec()));
    assert_eq!(request.version, Version::Http10);
    assert_eq!(request.headers, vec![(b"a".to_vec(), b"b".to_vec())]);
    assert_eq!(request.body, "x");
}

#[test]
fn uris_are_parsed_into_their_parts() {
    let uri = Uri::parse(b"/").unwrap();
    assert_eq!(uri, Uri::root());
    let uri = Uri::parse(b"*").unwrap();
    assert_eq!(uri.path_and_query, Some(b"*".to_vec()));
    assert_eq!(uri.host, None);
    let uri = Uri::parse(b"https://user@[::1]:8080/p/q?r=s").unwrap();
    assert_eq!(uri.text, b"https://user@[::1]:8080/p/q?r=s".to_vec());
    assert_eq!(uri.path_and_query, Some(b"/p/q?r=s".to_vec()));
    assert_eq!(uri.host, Some(b"[::1]".to_vec()));
    let uri = Uri::parse(b"http://example.com").unwrap();
    assert_eq!(uri.path_and_query, Some(b"/".to_vec()));
    assert_eq!(uri.host, Some(b"example.com".to_vec()));
    for bad in [&b""[..], &b"/a b"[..], &b"http://"[..], &b"/\x00"[..], &b"/\xff"[..]] {
        assert_eq!(Uri::parse(bad).err(), Some(MessageError::Uri), "{:?}", bad);
    }
}

#[test]
fn odd_uris_are_taken_or_refused_and_their_hosts_read() {
    let cases: Vec<(&[u8], Option<(Option<&[u8]>, Option<&[u8]>)>)> = vec![
        (b"user@host", Some((None, Some(b"host")))),
        (b"a:b@c:1", Some((None, Some(b"c")))),
        (b"[::1]", Some((None, Some(b"[::1]")))),
        (b"[::1]:80", Some((None, Some(b"[::1]")))),
        (b"http://user@host/p", Some((Some(b"/p"), Some(b"host")))),
        (b"http://host:8080", Some((Some(b"/"), Some(b"host")))),
        (b"//host/p", Some((Some(b"//host/p"), None))),
        (b"/p?q#f", Some((Some(b"/p?q"), None))),
        (b"?q", None),
        (b"user@", None),
        (b"http://user@/", None),
        (b"http://@host/", Some((Some(b"/"), Some(b"host")))),
        (b"[::1", None),
        (b"::1]", None),
        (b"a b", None),
        (b"http://a b/", None),
    ];
    for (text, expected) in cases {
        match (Uri::parse(text), expected) {
            (Ok(uri), Some((path, host))) => {
                assert_eq!(uri.text, text.to_vec());
                assert_eq!(uri.path_and_query, path.map(|p| p.to_vec()), "{:?}", text);
                assert_eq!(uri.host, host.map(|h| h.to_vec()), "{:?}", text);
            }
            (Err(MessageError::Uri), None) => {}
            (other, _) => panic!("{:?}: {:?}", text, other),
        }
    }
    assert!(Uri::parse(&vec![b'a'; 65534]).is_ok());
    assert_eq!(Uri::parse(&vec![b'a'; 65535]).err(), Some(MessageError::Uri));
}

#[test]
fn versions_are_read_from_three_bytes_and_written_with_their_marker() {
    let cases: Vec<(&[u8], &[u8], Version)> = vec![
        (b"0.9", b"HTTP/0.9", Version::Http09),
        (b"1.0", b"HTTP/1.0", Version::Http10),
        (b"1.1", b"HTTP/1.1", Version::Http11),
        (b"2.0", b"HTTP/2.0", Version::Http2),
        (b"3.0", b"HTTP/3.0", Version::Http3),
    ];
    for (digits, text, version) in cases {
        assert_eq!(bytes_to_ver::<()>(digits), Ok(version));
        assert_eq!(version_bytes(version), text.to_vec());
    }
    let bad: Vec<&[u8]> = vec![b"", b"1", b"1.", b"1.1 ", b"1.2", b"0.0", b"2.1", b"3.1", b"1x1", b"9.0"];
    for digits in bad {
        assert_eq!(bytes_to_ver::<()>(digits), Err(Error::InvalidVersion), "{:?}", digits);
    }
}

#[test]
fn a_pattern_is_found_where_it_first_stands() {
    assert_eq!(find(b"abcabc", b"bc"), Some(1));
    assert_eq!(find(b"abcabc", b"abc"), Some(0));
    assert_eq!(find(b"abcabc", b"cab"), Some(2));
    assert_eq!(find(b"abcabc", b"abcabc"), Some(0));
    assert_eq!(find(b"abcabc", b"abcabcd"), None);
    assert_eq!(find(b"abcabc", b"x"), None);
    assert_eq!(find(b"abc", b""), Some(0));
    assert_eq!(find(b"", b""), Some(0));
    assert_eq!(find(b"", b"a"), None);
    assert_eq!(find(b"aab", b"ab"), Some(1));
    assert!(matches_at(b"abc", b"bc", 1));
    assert!(matches_at(b"abc", b"", 3));
    assert!(!matches_at(b"abc", b"", 4));
    assert!(!matches_at(b"abc", b"bc", 2));
    assert!(!matches_at(b"abc", b"bd", 1));
}

#[test]
fn the_first_line_leaves_the_buffer_with_its_line_end() {
    let mut buf = BytesMut::from(&b"one\r\ntwo\r\n\r\nrest"[..]);
    assert_eq!(find_eol(&mut buf), Some(b"one".to_vec()));
    assert_eq!(&buf[..], b"two\r\n\r\nrest");
    assert_eq!(find_eol(&mut buf), Some(b"two".to_vec()));
    assert_eq!(find_eol(&mut buf), Some(b"".to_vec()));
    assert_eq!(&buf[..], b"rest");
    assert_eq!(find_eol(&mut buf), None);
    assert_eq!(&buf[..], b"rest");
    let mut buf = BytesMut::from(&b"a\rb\nc\n\rd\r"[..]);
    assert_eq!(find_eol(&mut buf), None);
    assert_eq!(&buf[..], b"a\rb\nc\n\rd\r");
    buf.extend_from_slice(b"\n");
    assert_eq!(find_eol(&mut buf), Some(b"a\rb\nc\n\rd".to_vec()));
    assert!(buf.is_empty());
}

#[test]
fn windows_and_tails_stop_at_the_end_of_the_line() {
    assert_eq!(window_of(b"abcdef", 1, 3), b"bcd");
    assert_eq!(window_of(b"abcdef", 4, 3), b"ef");
    assert_eq!(window_of(b"abcdef", 6, 3), b"");
    assert_eq!(window_of(b"abcdef", 9, 3), b"");
    assert_eq!(window_of(b"abcdef", 0, 0), b"");
    assert_eq!(window_of(b"abcdef", 2, usize::MAX), b"cdef");
    assert_eq!(window_of(b"abcdef", usize::MAX, usize::MAX), b"");
    assert_eq!(tail_of(b"abcdef", 0), b"abcdef");
    assert_eq!(tail_of(b"abcdef", 5), b"f");
    assert_eq!(tail_of(b"abcdef", 6), b"");
    assert_eq!(tail_of(b"abcdef", 7), b"");
}

#[test]
fn case_is_ignored_for_ascii_letters_only() {
    for b in 0..=255u8 {
        assert_eq!(lower_byte(b), b.to_ascii_lowercase());
    }
    assert!(eq_ignore_ascii_case(b"Content-Length", b"content-length"));
    assert!(eq_ignore_ascii_case(b"", b""));
    assert!(!eq_ignore_ascii_case(b"a", b"ab"));
    assert!(!eq_ignore_ascii_case(b"a-b", b"a_b"));
    assert!(!eq_ignore_ascii_case(b"@", b"`"));
    assert!(!eq_ignore_ascii_case(b"[", b"{"));
    assert!(!eq_ignore_ascii_case(&[0xc0], &[0xe0]));
}
