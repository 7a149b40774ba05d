//! The client's framer: it writes requests and reads responses.

use bytes::BytesMut;
use core::marker::PhantomData;
use crate::buffer::contents;
use crate::buffer::lemma_written;
use crate::buffer::lemma_written_in_two;
use crate::codec::decode::decodes_some;
use crate::codec::decode::Decode;
use crate::codec::encode::Encode;
use crate::codec::error::DecodeError;
use crate::codec::error::DeframeError;
use crate::codec::frame::Framer;
use crate::codec::MakeSimilar;
use crate::http::bytes_to_ver;
use crate::http::grammar::check_header_value;
use crate::http::grammar::is_header_value;
use crate::http::grammar::parse_status;
use crate::http::grammar::status_of;
use crate::http::http_slash;
use crate::http::line::agrees;
use crate::http::line::content_length;
use crate::http::line::content_length_name;
use crate::http::line::eq_ignore_ascii_case;
use crate::http::line::find_colon;
use crate::http::line::header_line;
use crate::http::line::is_content_length;
use crate::http::line::read_content_length;
use crate::http::line::same_ignoring_case;
use crate::http::line::tail;
use crate::http::line::tail_of;
use crate::http::line::window;
use crate::http::line::window_of;
use crate::http::line::Head;
use crate::http::line::HeaderLine;
use crate::http::line::Step;
use crate::http::message::fields_of;
use crate::http::message::plain_response;
use crate::http::message::Fields;
use crate::http::message::Headers;
use crate::http::message::Request;
use crate::http::message::RequestHead;
use crate::http::message::Response;
use crate::http::message::ResponseBuilder;
use crate::http::message::ResponseBuilderView;
use crate::http::scan::after_first_line;
use crate::http::scan::crlf;
use crate::http::scan::find;
use crate::http::scan::find_eol;
use crate::http::scan::first_line;
use crate::http::scan::lemma_position_some;
use crate::http::scan::occurs_at;
use crate::http::scan::position;
use crate::http::version_of;
use crate::http::write::header_text;
use crate::http::write::headers_text;
use crate::http::write::request_line;
use crate::http::write::write_header;
use crate::http::write::write_headers;
use crate::http::write::write_request_line;
use crate::http::BodyError;
use crate::http::Error;
use crate::http::InvalidHeaderError;
use vstd::prelude::*;

verus! {

/// Which part of a response the decoder reads next.
#[derive(Debug, Copy, Clone, PartialEq, Eq)]
pub enum State {
    /// The status line.
    Status,
    /// A header line, or the empty line that ends the headers.
    Headers,
    /// The body.
    Body,
}

impl Default for State {
    fn default() -> (state: Self)
        ensures
            state == State::Status,
    {
        State::Status
    }
}

/// How far the decoding of a response has come: what a decoder hands back
/// when bytes are missing, and takes up again when more have arrived.
#[derive(Debug)]
pub struct DecodeState<T> {
    /// The head read so far.
    pub builder: ResponseBuilder,
    /// The part that is read next.
    pub state: State,
    /// What the last `Content-Length` header said.
    pub content_len: Option<usize>,
    /// How far the body's codec has come.
    pub body_state: T,
}

/// What a [`DecodeState`] holds.
pub struct DecodeStateView<T> {
    pub builder: ResponseBuilderView,
    pub state: State,
    pub content_len: Option<usize>,
    pub body_state: T,
}

impl<T> View for DecodeState<T> {
    type V = DecodeStateView<T>;

    open spec fn view(&self) -> DecodeStateView<T> {
        DecodeStateView {
            builder: self.builder@,
            state: self.state,
            content_len: self.content_len,
            body_state: self.body_state,
        }
    }
}

/// The state in which the decoding of a response starts: nothing read, the
/// status line next.
pub open spec fn fresh<T>(body_state: T) -> DecodeStateView<T> {
    DecodeStateView {
        builder: ResponseBuilderView { head: plain_response(), error: None },
        state: State::Status,
        content_len: None,
        body_state,
    }
}

impl<T> DecodeState<T> {
    /// The state in which the decoding of a response starts.
    pub fn new(body_state: T) -> (state: Self)
        ensures
            state@ == fresh(body_state),
    {
        DecodeState {
            builder: ResponseBuilder::new(),
            state: State::Status,
            content_len: None,
            body_state,
        }
    }
}

/// What a line does to a decoder that waits for the status line.
///
/// A line without `HTTP/` is dropped, and the decoder waits on. Behind the
/// first `HTTP/` stand the three bytes of the version, one byte that is
/// passed over, and the three bytes of the status code: where the version is
/// none of those known, the line fails with `InvalidVersion`; where the code
/// is no status code, with `InvalidStatus`. Else version and status go to the
/// builder, and the headers are next.
pub open spec fn status_step<T, B>(line: Seq<u8>, state: DecodeStateView<T>) -> Step<
    DecodeStateView<T>,
    B,
> {
    match position(line, http_slash()) {
        None => Step::Incomplete(state),
        Some(i) => {
            let rest = tail(line, i + 5);
            match version_of(window(rest, 0, 3)) {
                None => Step::Failed(Error::InvalidVersion),
                Some(version) => match status_of(window(rest, 4, 3)) {
                    None => Step::Failed(Error::InvalidStatus),
                    Some(status) => Step::Next(
                        DecodeStateView {
                            builder: state.builder.version(version).status(status),
                            state: State::Headers,
                            ..state
                        },
                    ),
                },
            }
        },
    }
}

/// What a line does to a decoder that reads headers.
///
/// The empty line ends the headers: the body is next. A line without a colon
/// fails with `MissingColon`. Else what stands before the first colon is the
/// name and what stands behind it the value, and both go to the builder.
/// Where the name is `content-length`, in whatever case, the value is read as
/// a number and kept, or the line fails with `InvalidContentLength`. Of
/// several such headers the last one stays.
pub open spec fn header_step<T, B>(line: Seq<u8>, state: DecodeStateView<T>) -> Step<
    DecodeStateView<T>,
    B,
> {
    match header_line(line) {
        HeaderLine::End => Step::Next(DecodeStateView { state: State::Body, ..state }),
        HeaderLine::NoColon => Step::Failed(
            Error::InvalidHeader { source: InvalidHeaderError::MissingColon },
        ),
        HeaderLine::Field { name, value } => {
            let builder = state.builder.header(name, value);
            if same_ignoring_case(name, content_length_name()) {
                match content_length(value) {
                    Ok(n) => Step::Next(
                        DecodeStateView { builder, content_len: Some(n), ..state },
                    ),
                    Err(e) => Step::Failed(Error::InvalidContentLength { source: e }),
                }
            } else {
                Step::Next(DecodeStateView { builder, ..state })
            }
        },
    }
}

/// How far `data` leads a decoder that is in `state`: the lines that `data`
/// holds are taken one by one, each by the step that the state asks for,
/// until the body is reached, a line fails or is dropped, or no whole line
/// is left.
pub open spec fn head<T, B>(data: Seq<u8>, state: DecodeStateView<T>) -> Head<
    DecodeStateView<T>,
    B,
>
    decreases data.len(),
{
    if state.state is Body {
        Head::Body { state, rest: data }
    } else {
        match position(data, crlf()) {
            None => Head::Incomplete { state, rest: data },
            Some(i) => {
                let line = data.subrange(0, i);
                let rest = data.subrange(i + 2, data.len() as int);
                let step = if state.state is Status {
                    status_step::<T, B>(line, state)
                } else {
                    header_step::<T, B>(line, state)
                };
                match step {
                    Step::Next(next) => {
                        proof {
                            lemma_position_some(data, crlf());
                        }
                        head(rest, next)
                    },
                    Step::Incomplete(same) => Head::Incomplete { state: same, rest },
                    Step::Failed(error) => Head::Failed { error, rest },
                }
            },
        }
    }
}

/// Reads the status line.
///
/// Where the buffer holds no whole line, it is left as it is and the result
/// is `Incomplete` with the state as it was. Else the first line leaves the
/// buffer, and the result is what [`status_step`] makes of the line.
pub fn read_status<T, B>(data: &mut BytesMut, state: DecodeState<T>) -> (r: Result<
    DecodeState<T>,
    DecodeError<Error<B>, DecodeState<T>>,
>)
    ensures
        match first_line(contents(old(data))) {
            None => r matches Err(DecodeError::Incomplete(s)) && s@ == state@,
            Some(line) => agrees(r, status_step::<T, B>(line, state@)),
        },
        contents(final(data)) == after_first_line(contents(old(data))),
{
    let raw_status = match find_eol(data) {
        Some(line) => line,
        None => {
            return Err(DecodeError::Incomplete(state));
        },
    };
    let marker: [u8; 5] = [72, 84, 84, 80, 47];
    assert(marker@ =~= http_slash());
    let http_start = match find(raw_status.as_slice(), marker.as_slice()) {
        Some(at) => at,
        None => {
            return Err(DecodeError::Incomplete(state));
        },
    };
    proof {
        lemma_position_some(raw_status@, http_slash());
        assert(http_slash().len() == 5);
        assert(occurs_at(raw_status@, http_slash(), http_start as int));
    }
    assert(http_start + 5 <= raw_status.len());
    let rest = tail_of(raw_status.as_slice(), http_start + 5);
    let version = match bytes_to_ver::<B>(window_of(rest, 0, 3)) {
        Ok(version) => version,
        Err(e) => {
            return Err(DecodeError::Failed(e));
        },
    };
    let status = match parse_status(window_of(rest, 4, 3)) {
        Ok(status) => status,
        Err(_) => {
            return Err(DecodeError::Failed(Error::InvalidStatus));
        },
    };
    let mut state = state;
    state.builder.version(version);
    state.builder.status(status);
    state.state = State::Headers;
    Ok(state)
}

/// Reads one header line.
///
/// Where the buffer holds no whole line, it is left as it is and the result
/// is `Incomplete` with the state as it was. Else the first line leaves the
/// buffer, and the result is what [`header_step`] makes of the line.
pub fn read_header<T, B>(data: &mut BytesMut, state: DecodeState<T>) -> (r: Result<
    DecodeState<T>,
    DecodeError<Error<B>, DecodeState<T>>,
>)
    ensures
        match first_line(contents(old(data))) {
            None => r matches Err(DecodeError::Incomplete(s)) && s@ == state@,
            Some(line) => agrees(r, header_step::<T, B>(line, state@)),
        },
        contents(final(data)) == after_first_line(contents(old(data))),
{
    let raw_header = match find_eol(data) {
        Some(line) => line,
        None => {
            return Err(DecodeError::Incomplete(state));
        },
    };
    let mut state = state;
    if raw_header.len() == 0 {
        state.state = State::Body;
        return Ok(state);
    }
    let split = match find_colon(raw_header.as_slice()) {
        Some(at) => at,
        None => {
            return Err(
                DecodeError::Failed(
                    Error::InvalidHeader { source: InvalidHeaderError::MissingColon },
                ),
            );
        },
    };
    let name = vstd::slice::slice_subrange(raw_header.as_slice(), 0, split);
    let value = vstd::slice::slice_subrange(raw_header.as_slice(), split + 1, raw_header.len());
    state.builder.header(name, value);
    if is_content_length(name) {
        match read_content_length(value) {
            Ok(n) => {
                state.content_len = Some(n);
            },
            Err(e) => {
                return Err(DecodeError::Failed(Error::InvalidContentLength { source: e }));
            },
        }
    }
    Ok(state)
}

/// Whether the decoding of a response, on a buffer that holds `data` and
/// from `state`, returns `result` and leaves `rest` in the buffer.
///
/// Where the head fails or lacks bytes, so does the response. Once the head
/// is read, the body's codec decodes from what follows it. Where that codec
/// lacks bytes, the result is `Incomplete`, with the head that was read and
/// the codec's state. Where it fails, the result is `InvalidBody` with its
/// error. Where it returns a body, the result is the response with the head
/// that was read and that body, unless the `http` crate refused a part of
/// the head: then it is `InvalidResponse` with that part.
pub open spec fn response_decodes<T: Decode>(
    data: Seq<u8>,
    state: DecodeStateView<T::State>,
    result: Result<Response<T>, DecodeError<Error<T::Error>, DecodeState<T::State>>>,
    rest: Seq<u8>,
) -> bool {
    match head::<T::State, T::Error>(data, state) {
        Head::Incomplete { state: waiting, rest: left } => {
            &&& result matches Err(DecodeError::Incomplete(s)) && s@ == waiting
            &&& rest == left
        },
        Head::Failed { error, rest: left } => {
            &&& result matches Err(DecodeError::Failed(e)) && e == error
            &&& rest == left
        },
        Head::Body { state: read, rest: body } => match result {
            Ok(response) => {
                &&& read.builder.error is None
                &&& response.head() == read.builder.head
                &&& T::decodes(body, read.body_state, Ok(response.body), rest)
            },
            Err(DecodeError::Incomplete(s)) => {
                &&& s@ == (DecodeStateView { body_state: s.body_state, ..read })
                &&& T::decodes(
                    body,
                    read.body_state,
                    Err(DecodeError::Incomplete(s.body_state)),
                    rest,
                )
            },
            Err(DecodeError::Failed(error)) => match error {
                Error::InvalidBody { source } => T::decodes(
                    body,
                    read.body_state,
                    Err(DecodeError::Failed(source)),
                    rest,
                ),
                Error::InvalidResponse { source } => {
                    &&& read.builder.error == Some(source)
                    &&& decodes_some::<T>(body, read.body_state, rest)
                },
                _ => false,
            },
        },
    }
}

impl<T: Decode> Decode for Response<T> {
    type Error = Error<T::Error>;

    type State = DecodeState<T::State>;

    open spec fn is_initial(state: DecodeState<T::State>) -> bool {
        state@ == fresh(state.body_state) && T::is_initial(state.body_state)
    }

    fn initial_state() -> (state: DecodeState<T::State>) {
        DecodeState::new(T::initial_state())
    }

    open spec fn decodes(
        data: Seq<u8>,
        state: DecodeState<T::State>,
        result: Result<Response<T>, DecodeError<Error<T::Error>, DecodeState<T::State>>>,
        rest: Seq<u8>,
    ) -> bool {
        response_decodes::<T>(data, state@, result, rest)
    }

    fn decode(data: &mut BytesMut, state: DecodeState<T::State>) -> (r: Result<
        Response<T>,
        DecodeError<Error<T::Error>, DecodeState<T::State>>,
    >) {
        let ghost start = head::<T::State, T::Error>(contents(data), state@);
        let mut current = state;
        loop
            invariant
                head::<T::State, T::Error>(contents(data), current@) == start,
                start == head::<T::State, T::Error>(contents(old(data)), state@),
            decreases contents(data).len(),
        {
            let ghost before = contents(data);
            let ghost entered = current@;
            proof {
                if first_line(before) is Some {
                    lemma_position_some(before, crlf());
                }
            }
            match current.state {
                State::Status => {
                    current = match read_status::<T::State, T::Error>(data, current) {
                        Ok(next) => next,
                        Err(e) => {
                            return Err(e);
                        },
                    };
                },
                State::Headers => {
                    current = match read_header::<T::State, T::Error>(data, current) {
                        Ok(next) => next,
                        Err(e) => {
                            return Err(e);
                        },
                    };
                },
                State::Body => {
                    let DecodeState { builder, state: phase, content_len, body_state } = current;
                    match T::decode(data, body_state) {
                        Ok(body) => {
                            let ghost item = body;
                            assert(T::decodes(before, entered.body_state, Ok(item), contents(data)));
                            match builder.body(body) {
                                Ok(response) => {
                                    assert(response.body == item);
                                    return Ok(response);
                                },
                                Err(e) => {
                                    assert(decodes_some::<T>(
                                        before,
                                        entered.body_state,
                                        contents(data),
                                    ));
                                    return Err(
                                        DecodeError::Failed(Error::InvalidResponse { source: e }),
                                    );
                                },
                            }
                        },
                        Err(DecodeError::Failed(e)) => {
                            return Err(DecodeError::Failed(Error::InvalidBody { source: e }));
                        },
                        Err(DecodeError::Incomplete(s)) => {
                            return Err(
                                DecodeError::Incomplete(
                                    DecodeState {
                                        builder,
                                        state: phase,
                                        content_len,
                                        body_state: s,
                                    },
                                ),
                            );
                        },
                    }
                },
            }
        }
    }
}

/// The name `host`.
pub open spec fn host_name() -> Seq<u8> {
    seq![104u8, 111u8, 115u8, 116u8]
}

/// Whether one of the fields is a `Host` header, in whatever case.
pub open spec fn has_host(fields: Fields) -> bool {
    exists|i: int| 0 <= i < fields.len() && same_ignoring_case(#[trigger] fields[i].0, host_name())
}

/// The header line that a request gets for want of a `Host` header: none
/// where it has such a header; else one made from the host of its URI. Where
/// the URI has no host, or one that is no header value, there is no such
/// line and the request cannot be written.
pub open spec fn host_line(head: RequestHead) -> Option<Seq<u8>> {
    if has_host(head.fields) {
        Some(Seq::empty())
    } else {
        match head.uri.host {
            Some(host) => if is_header_value(host) {
                Some(header_text(host_name(), host))
            } else {
                None
            },
            None => None,
        }
    }
}

/// What a request writes before its body: the request line, the `Host`
/// header where one was made, the request's own headers, and CRLF twice.
/// There is no such text for a request that has no `Host` header and no host
/// to make one from.
pub open spec fn request_head_text(head: RequestHead) -> Option<Seq<u8>> {
    match host_line(head) {
        Some(host) => Some(
            request_line(head) + host + headers_text(head.fields) + crlf() + crlf(),
        ),
        None => None,
    }
}

/// Whether the encoding of a request returns `result` and writes `written`.
///
/// The request line is written first. A request that has no `Host` header
/// and no host to make one from fails there, with `InvalidHost`. Else the
/// rest of the head is written, and then what the body's codec writes. Where
/// that codec fails, the result is `Body` with its error.
pub open spec fn request_encodes<T: Encode>(
    request: Request<T>,
    result: Result<(), Error<T::Error>>,
    written: Seq<u8>,
) -> bool {
    match request_head_text(request.head()) {
        None => {
            &&& result == Err::<(), Error<T::Error>>(Error::InvalidHost)
            &&& written == request_line(request.head())
        },
        Some(head) => {
            &&& head.is_prefix_of(written)
            &&& match result {
                Ok(done) => request.body.encodes(Ok(done), written.skip(head.len() as int)),
                Err(Error::Body { source }) => request.body.encodes(
                    Err(source),
                    written.skip(head.len() as int),
                ),
                Err(_) => false,
            }
        },
    }
}

/// Whether one of the headers is a `Host` header, in whatever case.
pub fn contains_host(headers: &Headers) -> (found: bool)
    ensures
        found == has_host(fields_of(*headers)),
{
    let name: [u8; 4] = [104, 111, 115, 116];
    assert(name@ =~= host_name());
    let mut i: usize = 0;
    while i < headers.len()
        invariant
            i <= headers@.len(),
            name@ == host_name(),
            forall|j: int|
                0 <= j < i ==> !same_ignoring_case(#[trigger] fields_of(*headers)[j].0, host_name()),
        decreases headers@.len() - i,
    {
        if eq_ignore_ascii_case(headers[i].0.as_slice(), name.as_slice()) {
            assert(same_ignoring_case(fields_of(*headers)[i as int].0, host_name()));
            return true;
        }
        i += 1;
    }
    false
}

impl<T: Encode> Encode for Request<T> {
    type Error = Error<T::Error>;

    open spec fn encodes(&self, result: Result<(), Error<T::Error>>, written: Seq<u8>) -> bool {
        request_encodes(*self, result, written)
    }

    fn encode(&self, data: &mut BytesMut) -> (r: Result<(), Error<T::Error>>) {
        let ghost before = contents(data);
        let ghost line = request_line(self.head());
        write_request_line(self, data);
        proof {
            lemma_written(before, line);
        }
        if !contains_host(&self.headers) {
            let host = match &self.uri.host {
                Some(host) => host,
                None => {
                    return Err(Error::InvalidHost);
                },
            };
            if check_header_value(host.as_slice()).is_err() {
                return Err(Error::InvalidHost);
            }
            let name: [u8; 4] = [104, 111, 115, 116];
            assert(name@ =~= host_name());
            write_header(name.as_slice(), host.as_slice(), data);
        }
        write_headers(&self.headers, data);
        let end: [u8; 4] = [13, 10, 13, 10];
        assert(end@ =~= crlf() + crlf());
        data.extend_from_slice(end.as_slice());
        let ghost head = request_head_text(self.head())->Some_0;
        assert(contents(data) =~= before + head);
        let ghost mid = contents(data);
        let r = self.body.encode(data);
        proof {
            lemma_written_in_two(before, head, contents(data));
            assert(self.body.encodes(r, contents(data).skip(mid.len() as int)));
        }
        match r {
            Ok(done) => Ok(done),
            Err(e) => Err(Error::Body { source: e }),
        }
    }

    fn size_hint(&self) -> (hint: (usize, Option<usize>))
        ensures
            hint == (0usize, None::<usize>),
    {
        (0, None)
    }
}

/// The framer of an HTTP client: it writes requests with bodies of type `S`
/// and reads responses with bodies of type `R`.
#[derive(Debug)]
pub struct HttpClient<S, R: Decode> {
    pub _send: PhantomData<S>,
    pub _recv: PhantomData<R>,
    /// What has been read of a response that is not whole yet.
    pub decode_state: Option<DecodeState<R::State>>,
}

impl<S, R: Decode> HttpClient<S, R> {
    /// A framer that has read nothing.
    pub open spec fn fresh() -> Self {
        HttpClient { _send: PhantomData, _recv: PhantomData, decode_state: None }
    }

    /// A framer that has read nothing.
    pub fn new() -> (framer: Self)
        ensures
            framer == Self::fresh(),
    {
        HttpClient { _send: PhantomData, _recv: PhantomData, decode_state: None }
    }

    /// Whether `state` is the state from which this framer decodes next:
    /// what it kept of an unfinished response, or else the state in which a
    /// response starts.
    pub open spec fn resumes_from(&self, state: DecodeStateView<R::State>) -> bool {
        match self.decode_state {
            Some(kept) => state == kept@,
            None => state == fresh(state.body_state) && R::is_initial(state.body_state),
        }
    }
}

impl<S, R: Decode> Default for HttpClient<S, R> {
    fn default() -> (framer: Self)
        ensures
            framer == Self::fresh(),
    {
        HttpClient::new()
    }
}

impl<S, R: Decode> MakeSimilar for HttpClient<S, R> {
    open spec fn is_similar(&self, fresh: Self) -> bool {
        fresh == Self::fresh()
    }

    fn make_similar(&self) -> (fresh: Self) {
        HttpClient::new()
    }
}

impl<S: Encode, R: Decode> Framer for HttpClient<S, R> {
    type Input = Request<S>;

    type Output = Response<R>;

    type MetaKey = ();

    type MetaValue = ();

    type Error = Error<BodyError<S::Error, R::Error>>;

    /// The request is encoded behind the bytes of `dst`; the framer stays as
    /// it is.
    open spec fn frames(
        &self,
        item: Request<S>,
        dst: Seq<u8>,
        result: Result<(), Self::Error>,
        after: Self,
        dst_after: Seq<u8>,
    ) -> bool {
        &&& after == *self
        &&& dst.is_prefix_of(dst_after)
        &&& match result {
            Ok(done) => item.encodes(Ok(done), dst_after.skip(dst.len() as int)),
            Err(error) => exists|e: Error<S::Error>|
                #![trigger e.sent::<R::Error>()]
                error == e.sent::<R::Error>() && item.encodes(
                    Err(e),
                    dst_after.skip(dst.len() as int),
                ),
        }
    }

    fn frame(&mut self, item: Request<S>, dst: &mut BytesMut) -> (r: Result<(), Self::Error>) {
        match item.encode(dst) {
            Ok(done) => Ok(done),
            Err(e) => {
                let error = e.into_sent::<R::Error>();
                assert(error == e.sent::<R::Error>());
                Err(error)
            },
        }
    }

    /// A response is decoded from the state that the framer resumes from.
    /// Where bytes are missing, the framer keeps the state that the decoder
    /// hands back; else it keeps nothing.
    open spec fn deframes(
        &self,
        src: Seq<u8>,
        result: Result<Response<R>, DeframeError<Self::Error>>,
        after: Self,
        rest: Seq<u8>,
    ) -> bool {
        exists|from: DecodeStateView<R::State>|
            #![trigger self.resumes_from(from)]
            self.resumes_from(from) && match result {
                Ok(response) => {
                    &&& after.decode_state is None
                    &&& response_decodes::<R>(src, from, Ok(response), rest)
                },
                Err(DeframeError::Incomplete) => {
                    &&& after.decode_state matches Some(kept)
                    &&& response_decodes::<R>(src, from, Err(DecodeError::Incomplete(kept)), rest)
                },
                Err(DeframeError::Failed(error)) => {
                    &&& after.decode_state is None
                    &&& exists|e: Error<R::Error>|
                        #![trigger e.received::<S::Error>()]
                        error == e.received::<S::Error>() && response_decodes::<R>(
                            src,
                            from,
                            Err(DecodeError::Failed(e)),
                            rest,
                        )
                },
            }
    }

    fn deframe(&mut self, src: &mut BytesMut) -> (r: Result<
        Response<R>,
        DeframeError<Self::Error>,
    >) {
        let state = match self.decode_state.take() {
            Some(kept) => kept,
            None => Response::<R>::initial_state(),
        };
        assert(old(self).resumes_from(state@));
        match Response::<R>::decode(src, state) {
            Ok(response) => Ok(response),
            Err(DecodeError::Incomplete(s)) => {
                self.decode_state = Some(s);
                Err(DeframeError::Incomplete)
            },
            Err(DecodeError::Failed(e)) => {
                let error = e.into_received::<S::Error>();
                assert(error == e.received::<S::Error>());
                Err(DeframeError::Failed(error))
            },
        }
    }

    open spec fn clears(&self, after: Self) -> bool {
        after == Self::fresh()
    }

    fn clear(&mut self) {
        self.decode_state = None;
    }

    /// The HTTP framers keep no metadata: nothing changes.
    open spec fn takes_metadata(&self, key: (), value: (), after: Self) -> bool {
        after == *self
    }

    fn add_metadata(&mut self, key: (), value: ()) {
    }
}

} // verus!
