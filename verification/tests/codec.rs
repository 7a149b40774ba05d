use bytes::BytesMut;
use taps::codec::Decode;
use taps::codec::DecodeError;
use taps::codec::Encode;

#[test]
fn bytes_round_trip_and_leave_the_buffer_empty() {
    let cases: Vec<Vec<u8>> = vec![vec![], vec![0], b"hello".to_vec(), vec![255, 0, 13, 10, 128]];
    for item in cases {
        let mut buf = BytesMut::new();
        assert!(item.encode(&mut buf).is_ok());
        assert_eq!(&buf[..], &item[..]);
        let back = <Vec<u8> as Decode>::decode(&mut buf, ());
        assert_eq!(back.ok(), Some(item));
        assert!(buf.is_empty());
    }
}

#[test]
fn encode_adds_behind_what_the_buffer_holds() {
    let mut buf = BytesMut::from(&b"ab"[..]);
    let slice: &[u8] = b"cd";
    assert!(slice.encode(&mut buf).is_ok());
    assert!("ef".encode(&mut buf).is_ok());
    assert!(String::from("gh").encode(&mut buf).is_ok());
    assert!(vec![105u8].encode(&mut buf).is_ok());
    assert!(().encode(&mut buf).is_ok());
    assert_eq!(&buf[..], b"abcdefghi");
}

#[test]
fn size_hints_of_primitives_are_their_lengths() {
    let slice: &[u8] = b"abc";
    assert_eq!(slice.size_hint(), (3, Some(3)));
    assert_eq!("abcd".size_hint(), (4, Some(4)));
    assert_eq!(String::from("h\u{e9}").size_hint(), (3, Some(3)));
    assert_eq!(vec![1u8, 2].size_hint(), (2, Some(2)));
    assert_eq!(().size_hint(), (0, Some(0)));
}

#[test]
fn text_round_trips() {
    let cases = vec!["", "plain", "h\u{e9}llo \u{4e16}\u{754c}"];
    for text in cases {
        let item = String::from(text);
        let mut buf = BytesMut::new();
        assert!(item.encode(&mut buf).is_ok());
        assert_eq!(&buf[..], text.as_bytes());
        let back = <String as Decode>::decode(&mut buf, ());
        assert_eq!(back.ok(), Some(item));
        assert!(buf.is_empty());
    }
}

#[test]
fn text_that_is_not_utf8_fails_and_stays() {
    let mut buf = BytesMut::from(&[b'a', 0xff, b'b'][..]);
    match <String as Decode>::decode(&mut buf, ()) {
        Err(DecodeError::Failed(_)) => {}
        other => panic!("{:?}", other),
    }
    assert_eq!(&buf[..], &[b'a', 0xff, b'b']);
}

#[test]
fn unit_takes_no_bytes() {
    let mut buf = BytesMut::from(&b"rest"[..]);
    assert!(<() as Decode>::decode(&mut buf, ()).is_ok());
    assert_eq!(&buf[..], b"rest");
    let mut out = BytesMut::new();
    assert!(().encode(&mut out).is_ok());
    assert!(out.is_empty());
}
