//! The server's framer: it reads requests and writes responses.

use bytes::BytesMut;
use core::marker::PhantomData;
use crate::buffer::contents;
use crate::buffer::lemma_written;
use crate::buffer::lemma_written_in_two;
use crate::codec::decode::decodes_some;
use crate::codec::decode::Decode;
use crate::codec::encode::Encode;
use crate::codec::error::DecodeError;
use crate::codec::error::DeframeError;
use crate::codec::frame::Framer;
use crate::codec::MakeSimilar;
use crate::http::bytes_to_ver;
use crate::http::line::agrees;
use crate::http::line::content_length;
use crate::http::line::content_length_name;
use crate::http::line::find_colon;
use crate::http::line::header_line;
use crate::http::line::is_content_length;
use crate::http::line::read_content_length;
use crate::http::line::same_ignoring_case;
use crate::http::line::tail;
use crate::http::line::tail_of;
use crate::http::line::window;
use crate::http::line::window_of;
use crate::http::line::Head;
use crate::http::line::HeaderLine;
use crate::http::line::Step;
use crate::http::message::plain_request;
use crate::http::message::Request;
use crate::http::message::RequestBuilder;
use crate::http::message::RequestBuilderView;
use crate::http::message::Response;
use crate::http::message::ResponseHead;
use crate::http::scan::after_first_line;
use crate::http::scan::crlf;
use crate::http::scan::find;
use crate::http::scan::find_eol;
use crate::http::scan::first_line;
use crate::http::scan::lemma_position_some;
use crate::http::scan::matches_at;
use crate::http::scan::occurs_at;
use crate::http::scan::position;
use crate::http::version_of;
use crate::http::write::headers_text;
use crate::http::write::is_status;
use crate::http::write::response_line;
use crate::http::write::space;
use crate::http::write::write_headers;
use crate::http::write::write_response_line;
use crate::http::BodyError;
use crate::http::Error;
use crate::http::InvalidHeaderError;
use vstd::prelude::*;
use vstd::slice::slice_subrange;

verus! {

/// Which part of a request the decoder reads next.
#[derive(Debug, Copy, Clone, PartialEq, Eq)]
pub enum State {
    /// The request line.
    Status,
    /// A header line, or the empty line that ends the headers.
    Headers,
    /// The body.
    Body,
}

impl Default for State {
    fn default() -> (state: Self)
        ensures
            state == State::Status,
    {
        State::Status
    }
}

/// How far the decoding of a request has come: what a decoder hands back
/// when bytes are missing, and takes up again when more have arrived.
#[derive(Debug)]
pub struct DecodeState<T> {
    /// The head read so far.
    pub builder: RequestBuilder,
    /// The part that is read next.
    pub state: State,
    /// What the last `Content-Length` header said.
    pub content_len: Option<usize>,
    /// How far the body's codec has come.
    pub body_state: T,
}

/// What a [`DecodeState`] holds.
pub struct DecodeStateView<T> {
    pub builder: RequestBuilderView,
    pub state: State,
    pub content_len: Option<usize>,
    pub body_state: T,
}

impl<T> View for DecodeState<T> {
    type V = DecodeStateView<T>;

    open spec fn view(&self) -> DecodeStateView<T> {
        DecodeStateView {
            builder: self.builder@,
            state: self.state,
            content_len: self.content_len,
            body_state: self.body_state,
        }
    }
}

/// The state in which the decoding of a request starts: nothing read, the
/// request line next.
pub open spec fn fresh<T>(body_state: T) -> DecodeStateView<T> {
    DecodeStateView {
        builder: RequestBuilderView { head: plain_request(), error: None },
        state: State::Status,
        content_len: None,
        body_state,
    }
}

impl<T> DecodeState<T> {
    /// The state in which the decoding of a request starts.
    pub fn new(body_state: T) -> (state: Self)
        ensures
            state@ == fresh(body_state),
    {
        DecodeState {
            builder: RequestBuilder::new(),
            state: State::Status,
            content_len: None,
            body_state,
        }
    }
}

/// The methods by which a request line is found: `GET`, `POST`, `DELETE`,
/// `PUT`, `HEAD`, `OPTIONS`, `CONNECT`, `PATCH` and `TRACE`.
pub open spec fn methods() -> Seq<Seq<u8>> {
    seq![
        seq![71u8, 69u8, 84u8],
        seq![80u8, 79u8, 83u8, 84u8],
        seq![68u8, 69u8, 76u8, 69u8, 84u8, 69u8],
        seq![80u8, 85u8, 84u8],
        seq![72u8, 69u8, 65u8, 68u8],
        seq![79u8, 80u8, 84u8, 73u8, 79u8, 78u8, 83u8],
        seq![67u8, 79u8, 78u8, 78u8, 69u8, 67u8, 84u8],
        seq![80u8, 65u8, 84u8, 67u8, 72u8],
        seq![84u8, 82u8, 65u8, 67u8, 69u8],
    ]
}

/// Whether the bytes start with one of the [`methods`].
pub open spec fn starts_with_method(x: Seq<u8>) -> bool {
    exists|k: int| 0 <= k < methods().len() && occurs_at(x, #[trigger] methods()[k], 0)
}

/// Whether the bytes start with the name of a known method.
pub fn start_with_method(x: &[u8]) -> (found: bool)
    ensures
        found == starts_with_method(x@),
{
    let get: [u8; 3] = [71, 69, 84];
    let post: [u8; 4] = [80, 79, 83, 84];
    let delete: [u8; 6] = [68, 69, 76, 69, 84, 69];
    let put: [u8; 3] = [80, 85, 84];
    let head: [u8; 4] = [72, 69, 65, 68];
    let options: [u8; 7] = [79, 80, 84, 73, 79, 78, 83];
    let connect: [u8; 7] = [67, 79, 78, 78, 69, 67, 84];
    let patch: [u8; 5] = [80, 65, 84, 67, 72];
    let trace: [u8; 5] = [84, 82, 65, 67, 69];
    assert(get@ =~= methods()[0]);
    assert(post@ =~= methods()[1]);
    assert(delete@ =~= methods()[2]);
    assert(put@ =~= methods()[3]);
    assert(head@ =~= methods()[4]);
    assert(options@ =~= methods()[5]);
    assert(connect@ =~= methods()[6]);
    assert(patch@ =~= methods()[7]);
    assert(trace@ =~= methods()[8]);
    assert(methods().len() == 9);
    matches_at(x, get.as_slice(), 0) || matches_at(x, post.as_slice(), 0) || matches_at(
        x,
        delete.as_slice(),
        0,
    ) || matches_at(x, put.as_slice(), 0) || matches_at(x, head.as_slice(), 0) || matches_at(
        x,
        options.as_slice(),
        0,
    ) || matches_at(x, connect.as_slice(), 0) || matches_at(x, patch.as_slice(), 0)
        || matches_at(x, trace.as_slice(), 0)
}

/// Whether the seven bytes of `line` from index `i` on start with the name
/// of a known method.
pub open spec fn method_at(line: Seq<u8>, i: int) -> bool {
    &&& 0 <= i
    &&& i + 7 <= line.len()
    &&& starts_with_method(line.subrange(i, i + 7))
}

/// Whether `i` is the first index of `line` from which seven bytes start
/// with the name of a known method.
pub open spec fn first_method_at(line: Seq<u8>, i: int) -> bool {
    &&& method_at(line, i)
    &&& forall|j: int| 0 <= j < i ==> !method_at(line, j)
}

/// The first index of `line` from which seven bytes start with the name of a
/// known method, if there is one.
pub open spec fn method_position(line: Seq<u8>) -> Option<int> {
    if exists|i: int| first_method_at(line, i) {
        Some(choose|i: int| first_method_at(line, i))
    } else {
        None
    }
}

/// A first such index is the method's position.
pub proof fn lemma_method_position_is_first(line: Seq<u8>, i: int)
    requires
        first_method_at(line, i),
    ensures
        method_position(line) == Some(i),
{
    let k = choose|k: int| first_method_at(line, k);
    if k < i {
        assert(!method_at(line, k));
    } else if i < k {
        assert(!method_at(line, i));
    }
}

/// Where in a line the request starts.
pub fn find_method(line: &[u8]) -> (found: Option<usize>)
    ensures
        found is Some <==> method_position(line@) is Some,
        found matches Some(i) ==> method_position(line@) == Some(i as int) && i + 7 <= line@.len(),
{
    if line.len() < 7 {
        return None;
    }
    let last: usize = line.len() - 7;
    let mut i: usize = 0;
    loop
        invariant
            i <= last,
            last + 7 == line@.len() <= usize::MAX,
            forall|j: int| 0 <= j < i ==> !method_at(line@, j),
        decreases last - i,
    {
        if start_with_method(slice_subrange(line, i, i + 7)) {
            proof {
                lemma_method_position_is_first(line@, i as int);
            }
            return Some(i);
        }
        if i == last {
            return None;
        }
        i += 1;
    }
}

/// What a line does to a decoder that waits for the request line.
///
/// The request starts at the first index from which seven bytes start with
/// the name of a known method; the method ends before the next space. A line
/// without such a start, or without a space behind it, is dropped, and the
/// decoder waits on. The target ends before the next space; without that
/// space the line fails with `InvalidRequestLine`. Behind the space five
/// bytes are passed over, and the three that follow name the version: where
/// it is none of those known, the line fails with `InvalidVersion`. Else
/// method, target and version go to the builder, and the headers are next.
pub open spec fn request_step<T, B>(line: Seq<u8>, state: DecodeStateView<T>) -> Step<
    DecodeStateView<T>,
    B,
> {
    match method_position(line) {
        None => Step::Incomplete(state),
        Some(start) => {
            let from_method = tail(line, start);
            match position(from_method, space()) {
                None => Step::Incomplete(state),
                Some(method_end) => {
                    let method = from_method.subrange(0, method_end);
                    let from_target = tail(from_method, method_end + 1);
                    match position(from_target, space()) {
                        None => Step::Failed(Error::InvalidRequestLine),
                        Some(uri_end) => {
                            let target = from_target.subrange(0, uri_end);
                            let from_version = tail(tail(from_target, uri_end + 1), 5);
                            match version_of(window(from_version, 0, 3)) {
                                None => Step::Failed(Error::InvalidVersion),
                                Some(version) => Step::Next(
                                    DecodeStateView {
                                        builder: state.builder.method(method).uri(target).version(
                                            version,
                                        ),
                                        state: State::Headers,
                                        ..state
                                    },
                                ),
                            }
                        },
                    }
                },
            }
        },
    }
}

/// What a line does to a decoder that reads headers.
///
/// The empty line ends the headers: the body is next. A line without a colon
/// fails with `MissingColon`. Else what stands before the first colon is the
/// name and what stands behind it the value, and both go to the builder.
/// Where the name is `content-length`, in whatever case, the value is read as
/// a number and kept, or the line fails with `InvalidContentLength`. Of
/// several such headers the last one stays.
pub open spec fn header_step<T, B>(line: Seq<u8>, state: DecodeStateView<T>) -> Step<
    DecodeStateView<T>,
    B,
> {
    match header_line(line) {
        HeaderLine::End => Step::Next(DecodeStateView { state: State::Body, ..state }),
        HeaderLine::NoColon => Step::Failed(
            Error::InvalidHeader { source: InvalidHeaderError::MissingColon },
        ),
        HeaderLine::Field { name, value } => {
            let builder = state.builder.header(name, value);
            if same_ignoring_case(name, content_length_name()) {
                match content_length(value) {
                    Ok(n) => Step::Next(
                        DecodeStateView { builder, content_len: Some(n), ..state },
                    ),
                    Err(e) => Step::Failed(Error::InvalidContentLength { source: e }),
                }
            } else {
                Step::Next(DecodeStateView { builder, ..state })
            }
        },
    }
}

/// How far `data` leads a decoder that is in `state`: the lines that `data`
/// holds are taken one by one, each by the step that the state asks for,
/// until the body is reached, a line fails or is dropped, or no whole line
/// is left.
pub open spec fn head<T, B>(data: Seq<u8>, state: DecodeStateView<T>) -> Head<
    DecodeStateView<T>,
    B,
>
    decreases data.len(),
{
    if state.state is Body {
        Head::Body { state, rest: data }
    } else {
        match position(data, crlf()) {
            None => Head::Incomplete { state, rest: data },
            Some(i) => {
                let line = data.subrange(0, i);
                let rest = data.subrange(i + 2, data.len() as int);
                let step = if state.state is Status {
                    request_step::<T, B>(line, state)
                } else {
                    header_step::<T, B>(line, state)
                };
                match step {
                    Step::Next(next) => {
                        proof {
                            lemma_position_some(data, crlf());
                        }
                        head(rest, next)
                    },
                    Step::Incomplete(same) => Head::Incomplete { state: same, rest },
                    Step::Failed(error) => Head::Failed { error, rest },
                }
            },
        }
    }
}

/// Reads the request line.
///
/// Where the buffer holds no whole line, it is left as it is and the result
/// is `Incomplete` with the state as it was. Else the first line leaves the
/// buffer, and the result is what [`request_step`] makes of the line.
pub fn read_request<T, B>(data: &mut BytesMut, state: DecodeState<T>) -> (r: Result<
    DecodeState<T>,
    DecodeError<Error<B>, DecodeState<T>>,
>)
    ensures
        match first_line(contents(old(data))) {
            None => r matches Err(DecodeError::Incomplete(s)) && s@ == state@,
            Some(line) => agrees(r, request_step::<T, B>(line, state@)),
        },
        contents(final(data)) == after_first_line(contents(old(data))),
{
    let raw_status = match find_eol(data) {
        Some(line) => line,
        None => {
            return Err(DecodeError::Incomplete(state));
        },
    };
    let method_start = match find_method(raw_status.as_slice()) {
        Some(at) => at,
        None => {
            return Err(DecodeError::Incomplete(state));
        },
    };
    let sp: [u8; 1] = [32];
    assert(sp@ =~= space());
    let from_method = tail_of(raw_status.as_slice(), method_start);
    let method_end = match find(from_method, sp.as_slice()) {
        Some(at) => at,
        None => {
            return Err(DecodeError::Incomplete(state));
        },
    };
    proof {
        lemma_position_some(from_method@, space());
        assert(space().len() == 1);
        assert(occurs_at(from_method@, space(), method_end as int));
    }
    assert(method_end < from_method.len());
    let method = slice_subrange(from_method, 0, method_end);
    let from_target = tail_of(from_method, method_end + 1);
    let uri_end = match find(from_target, sp.as_slice()) {
        Some(at) => at,
        None => {
            return Err(DecodeError::Failed(Error::InvalidRequestLine));
        },
    };
    proof {
        lemma_position_some(from_target@, space());
        assert(space().len() == 1);
        assert(occurs_at(from_target@, space(), uri_end as int));
    }
    assert(uri_end < from_target.len());
    let target = slice_subrange(from_target, 0, uri_end);
    let from_version = tail_of(tail_of(from_target, uri_end + 1), 5);
    let version = match bytes_to_ver::<B>(window_of(from_version, 0, 3)) {
        Ok(version) => version,
        Err(e) => {
            return Err(DecodeError::Failed(e));
        },
    };
    let mut state = state;
    state.builder.method(method);
    state.builder.uri(target);
    state.builder.version(version);
    state.state = State::Headers;
    Ok(state)
}

/// Reads one header line.
///
/// Where the buffer holds no whole line, it is left as it is and the result
/// is `Incomplete` with the state as it was. Else the first line leaves the
/// buffer, and the result is what [`header_step`] makes of the line.
pub fn read_header<T, B>(data: &mut BytesMut, state: DecodeState<T>) -> (r: Result<
    DecodeState<T>,
    DecodeError<Error<B>, DecodeState<T>>,
>)
    ensures
        match first_line(contents(old(data))) {
            None => r matches Err(DecodeError::Incomplete(s)) && s@ == state@,
            Some(line) => agrees(r, header_step::<T, B>(line, state@)),
        },
        contents(final(data)) == after_first_line(contents(old(data))),
{
    let raw_header = match find_eol(data) {
        Some(line) => line,
        None => {
            return Err(DecodeError::Incomplete(state));
        },
    };
    let mut state = state;
    if raw_header.len() == 0 {
        state.state = State::Body;
        return Ok(state);
    }
    let split = match find_colon(raw_header.as_slice()) {
        Some(at) => at,
        None => {
            return Err(
                DecodeError::Failed(
                    Error::InvalidHeader { source: InvalidHeaderError::MissingColon },
                ),
            );
        },
    };
    let name = slice_subrange(raw_header.as_slice(), 0, split);
    let value = slice_subrange(raw_header.as_slice(), split + 1, raw_header.len());
    state.builder.header(name, value);
    if is_content_length(name) {
        match read_content_length(value) {
            Ok(n) => {
                state.content_len = Some(n);
            },
            Err(e) => {
                return Err(DecodeError::Failed(Error::InvalidContentLength { source: e }));
            },
        }
    }
    Ok(state)
}

/// Whether the decoding of a request, on a buffer that holds `data` and from
/// `state`, returns `result` and leaves `rest` in the buffer.
///
/// Where the head fails or lacks bytes, so does the request. Once the head
/// is read, the body's codec decodes from what follows it. Where that codec
/// lacks bytes, the result is `Incomplete`, with the head that was read and
/// the codec's state. Where it fails, the result is `InvalidBody` with its
/// error. Where it returns a body, the result is the request with the head
/// that was read and that body, unless the `http` crate refused a part of
/// the head: then it is `InvalidResponse` with that part.
pub open spec fn request_decodes<T: Decode>(
    data: Seq<u8>,
    state: DecodeStateView<T::State>,
    result: Result<Request<T>, DecodeError<Error<T::Error>, DecodeState<T::State>>>,
    rest: Seq<u8>,
) -> bool {
    match head::<T::State, T::Error>(data, state) {
        Head::Incomplete { state: waiting, rest: left } => {
            &&& result matches Err(DecodeError::Incomplete(s)) && s@ == waiting
            &&& rest == left
        },
        Head::Failed { error, rest: left } => {
            &&& result matches Err(DecodeError::Failed(e)) && e == error
            &&& rest == left
        },
        Head::Body { state: read, rest: body } => match result {
            Ok(request) => {
                &&& read.builder.error is None
                &&& request.head() == read.builder.head
                &&& T::decodes(body, read.body_state, Ok(request.body), rest)
            },
            Err(DecodeError::Incomplete(s)) => {
                &&& s@ == (DecodeStateView { body_state: s.body_state, ..read })
                &&& T::decodes(
                    body,
                    read.body_state,
                    Err(DecodeError::Incomplete(s.body_state)),
                    rest,
                )
            },
            Err(DecodeError::Failed(error)) => match error {
                Error::InvalidBody { source } => T::decodes(
                    body,
                    read.body_state,
                    Err(DecodeError::Failed(source)),
                    rest,
                ),
                Error::InvalidResponse { source } => {
                    &&& read.builder.error == Some(source)
                    &&& decodes_some::<T>(body, read.body_state, rest)
                },
                _ => false,
            },
        },
    }
}

impl<T: Decode> Decode for Request<T> {
    type Error = Error<T::Error>;

    type State = DecodeState<T::State>;

    open spec fn is_initial(state: DecodeState<T::State>) -> bool {
        state@ == fresh(state.body_state) && T::is_initial(state.body_state)
    }

    fn initial_state() -> (state: DecodeState<T::State>) {
        DecodeState::new(T::initial_state())
    }

    open spec fn decodes(
        data: Seq<u8>,
        state: DecodeState<T::State>,
        result: Result<Request<T>, DecodeError<Error<T::Error>, DecodeState<T::State>>>,
        rest: Seq<u8>,
    ) -> bool {
        request_decodes::<T>(data, state@, result, rest)
    }

    fn decode(data: &mut BytesMut, state: DecodeState<T::State>) -> (r: Result<
        Request<T>,
        DecodeError<Error<T::Error>, DecodeState<T::State>>,
    >) {
        let ghost start = head::<T::State, T::Error>(contents(data), state@);
        let mut current = state;
        loop
            invariant
                head::<T::State, T::Error>(contents(data), current@) == start,
                start == head::<T::State, T::Error>(contents(old(data)), state@),
            decreases contents(data).len(),
        {
            let ghost before = contents(data);
            let ghost entered = current@;
            proof {
                if first_line(before) is Some {
                    lemma_position_some(before, crlf());
                }
            }
            match current.state {
                State::Status => {
                    current = match read_request::<T::State, T::Error>(data, current) {
                        Ok(next) => next,
                        Err(e) => {
                            return Err(e);
                        },
                    };
                },
                State::Headers => {
                    current = match read_header::<T::State, T::Error>(data, current) {
                        Ok(next) => next,
                        Err(e) => {
                            return Err(e);
                        },
                    };
                },
                State::Body => {
                    let DecodeState { builder, state: phase, content_len, body_state } = current;
                    match T::decode(data, body_state) {
                        Ok(body) => {
                            let ghost item = body;
                            assert(T::decodes(before, entered.body_state, Ok(item), contents(data)));
                            match builder.body(body) {
                                Ok(request) => {
                                    assert(request.body == item);
                                    return Ok(request);
                                },
                                Err(e) => {
                                    assert(decodes_some::<T>(
                                        before,
                                        entered.body_state,
                                        contents(data),
                                    ));
                                    return Err(
                                        DecodeError::Failed(Error::InvalidResponse { source: e }),
                                    );
                                },
                            }
                        },
                        Err(DecodeError::Failed(e)) => {
                            return Err(DecodeError::Failed(Error::InvalidBody { source: e }));
                        },
                        Err(DecodeError::Incomplete(s)) => {
                            return Err(
                                DecodeError::Incomplete(
                                    DecodeState {
                                        builder,
                                        state: phase,
                                        content_len,
                                        body_state: s,
                                    },
                                ),
                            );
                        },
                    }
                },
            }
        }
    }
}

/// What a response writes before its body: the status line, the headers,
/// and CRLF twice.
pub open spec fn response_head_text(head: ResponseHead) -> Seq<u8> {
    response_line(head) + headers_text(head.fields) + crlf() + crlf()
}

/// Whether the encoding of a response returns `result` and writes `written`.
///
/// A response whose status is no status code fails with `InvalidStatus`, and
/// nothing is written. Else the head is written, and then what the body's
/// codec writes. Where that codec fails, the result is `Body` with its
/// error.
pub open spec fn response_encodes<T: Encode>(
    response: Response<T>,
    result: Result<(), Error<T::Error>>,
    written: Seq<u8>,
) -> bool {
    if !is_status(response.status) {
        &&& result == Err::<(), Error<T::Error>>(Error::InvalidStatus)
        &&& written == Seq::<u8>::empty()
    } else {
        let head = response_head_text(response.head());
        &&& head.is_prefix_of(written)
        &&& match result {
            Ok(done) => response.body.encodes(Ok(done), written.skip(head.len() as int)),
            Err(Error::Body { source }) => response.body.encodes(
                Err(source),
                written.skip(head.len() as int),
            ),
            Err(_) => false,
        }
    }
}

impl<T: Encode> Encode for Response<T> {
    type Error = Error<T::Error>;

    open spec fn encodes(&self, result: Result<(), Error<T::Error>>, written: Seq<u8>) -> bool {
        response_encodes(*self, result, written)
    }

    fn encode(&self, data: &mut BytesMut) -> (r: Result<(), Error<T::Error>>) {
        let ghost before = contents(data);
        if self.status < 100 || self.status > 999 {
            proof {
                lemma_written(before, Seq::<u8>::empty());
                assert(before + Seq::<u8>::empty() =~= before);
            }
            return Err(Error::InvalidStatus);
        }
        write_response_line(self, data);
        write_headers(&self.headers, data);
        let end: [u8; 4] = [13, 10, 13, 10];
        assert(end@ =~= crlf() + crlf());
        data.extend_from_slice(end.as_slice());
        let ghost head = response_head_text(self.head());
        assert(contents(data) =~= before + head);
        let ghost mid = contents(data);
        let r = self.body.encode(data);
        proof {
            lemma_written_in_two(before, head, contents(data));
            assert(self.body.encodes(r, contents(data).skip(mid.len() as int)));
        }
        match r {
            Ok(done) => Ok(done),
            Err(e) => Err(Error::Body { source: e }),
        }
    }

    fn size_hint(&self) -> (hint: (usize, Option<usize>))
        ensures
            hint == (0usize, None::<usize>),
    {
        (0, None)
    }
}

/// The framer of an HTTP server: it writes responses with bodies of type `S`
/// and reads requests with bodies of type `R`.
#[derive(Debug)]
pub struct HttpServer<S, R: Decode> {
    pub _send: PhantomData<S>,
    pub _recv: PhantomData<R>,
    /// What has been read of a request that is not whole yet.
    pub decode_state: Option<DecodeState<R::State>>,
}

impl<S, R: Decode> HttpServer<S, R> {
    /// A framer that has read nothing.
    pub open spec fn fresh() -> Self {
        HttpServer { _send: PhantomData, _recv: PhantomData, decode_state: None }
    }

    /// A framer that has read nothing.
    pub fn new() -> (framer: Self)
        ensures
            framer == Self::fresh(),
    {
        HttpServer { _send: PhantomData, _recv: PhantomData, decode_state: None }
    }

    /// Whether `state` is the state from which this framer decodes next:
    /// what it kept of an unfinished request, or else the state in which a
    /// request starts.
    pub open spec fn resumes_from(&self, state: DecodeStateView<R::State>) -> bool {
        match self.decode_state {
            Some(kept) => state == kept@,
            None => state == fresh(state.body_state) && R::is_initial(state.body_state),
        }
    }
}

impl<S, R: Decode> Default for HttpServer<S, R> {
    fn default() -> (framer: Self)
        ensures
            framer == Self::fresh(),
    {
        HttpServer::new()
    }
}

impl<S, R: Decode> MakeSimilar for HttpServer<S, R> {
    open spec fn is_similar(&self, fresh: Self) -> bool {
        fresh == Self::fresh()
    }

    fn make_similar(&self) -> (fresh: Self) {
        HttpServer::new()
    }
}

impl<S: Encode, R: Decode> Framer for HttpServer<S, R> {
    type Input = Response<S>;

    type Output = Request<R>;

    type MetaKey = ();

    type MetaValue = ();

    type Error = Error<BodyError<S::Error, R::Error>>;

    /// The response is encoded behind the bytes of `dst`; the framer stays
    /// as it is.
    open spec fn frames(
        &self,
        item: Response<S>,
        dst: Seq<u8>,
        result: Result<(), Self::Error>,
        after: Self,
        dst_after: Seq<u8>,
    ) -> bool {
        &&& after == *self
        &&& dst.is_prefix_of(dst_after)
        &&& match result {
            Ok(done) => item.encodes(Ok(done), dst_after.skip(dst.len() as int)),
            Err(error) => exists|e: Error<S::Error>|
                #![trigger e.sent::<R::Error>()]
                error == e.sent::<R::Error>() && item.encodes(
                    Err(e),
                    dst_after.skip(dst.len() as int),
                ),
        }
    }

    fn frame(&mut self, item: Response<S>, dst: &mut BytesMut) -> (r: Result<(), Self::Error>) {
        match item.encode(dst) {
            Ok(done) => Ok(done),
            Err(e) => {
                let error = e.into_sent::<R::Error>();
                assert(error == e.sent::<R::Error>());
                Err(error)
            },
        }
    }

    /// A request is decoded from the state that the framer resumes from.
    /// Where bytes are missing, the framer keeps the state that the decoder
    /// hands back; else it keeps nothing.
    open spec fn deframes(
        &self,
        src: Seq<u8>,
        result: Result<Request<R>, DeframeError<Self::Error>>,
        after: Self,
        rest: Seq<u8>,
    ) -> bool {
        exists|from: DecodeStateView<R::State>|
            #![trigger self.resumes_from(from)]
            self.resumes_from(from) && match result {
                Ok(request) => {
                    &&& after.decode_state is None
                    &&& request_decodes::<R>(src, from, Ok(request), rest)
                },
                Err(DeframeError::Incomplete) => {
                    &&& after.decode_state matches Some(kept)
                    &&& request_decodes::<R>(src, from, Err(DecodeError::Incomplete(kept)), rest)
                },
                Err(DeframeError::Failed(error)) => {
                    &&& after.decode_state is None
                    &&& exists|e: Error<R::Error>|
                        #![trigger e.received::<S::Error>()]
                        error == e.received::<S::Error>() && request_decodes::<R>(
                            src,
                            from,
                            Err(DecodeError::Failed(e)),
                            rest,
                        )
                },
            }
    }

    fn deframe(&mut self, src: &mut BytesMut) -> (r: Result<
        Request<R>,
        DeframeError<Self::Error>,
    >) {
        let state = match self.decode_state.take() {
            Some(kept) => kept,
            None => Request::<R>::initial_state(),
        };
        assert(old(self).resumes_from(state@));
        match Request::<R>::decode(src, state) {
            Ok(request) => Ok(request),
            Err(DecodeError::Incomplete(s)) => {
                self.decode_state = Some(s);
                Err(DeframeError::Incomplete)
            },
            Err(DecodeError::Failed(e)) => {
                let error = e.into_received::<S::Error>();
                assert(error == e.received::<S::Error>());
                Err(DeframeError::Failed(error))
            },
        }
    }

    open spec fn clears(&self, after: Self) -> bool {
        after == Self::fresh()
    }

    fn clear(&mut self) {
        self.decode_state = None;
    }

    /// The HTTP framers keep no metadata: nothing changes.
    open spec fn takes_metadata(&self, key: (), value: (), after: Self) -> bool {
        after == *self
    }

    fn add_metadata(&mut self, key: (), value: ()) {
    }
}

} // verus!
