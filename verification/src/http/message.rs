//! Requests and responses, as plain values.

use crate::http::grammar::check_header_value;
use crate::http::grammar::check_method;
use crate::http::grammar::is_header_name;
use crate::http::grammar::is_header_value;
use crate::http::grammar::is_method;
use crate::http::grammar::lowered;
use crate::http::grammar::parse_header_name;
use crate::http::grammar::parse_uri;
use crate::http::grammar::uri_host;
use crate::http::grammar::uri_path_and_query;
use crate::http::grammar::uri_valid;
use crate::http::MessageError;
use crate::http::Version;
use vstd::prelude::*;

verus! {

/// A request target, with the two parts of it that a request line and a
/// `Host` header are made from.
#[derive(Debug, Clone, PartialEq, Eq)]
pub struct Uri {
    /// The target as it was written.
    pub text: Vec<u8>,
    /// Its path and query.
    pub path_and_query: Option<Vec<u8>>,
    /// Its host.
    pub host: Option<Vec<u8>>,
}

/// What a [`Uri`] holds.
pub struct UriView {
    pub text: Seq<u8>,
    pub path_and_query: Option<Seq<u8>>,
    pub host: Option<Seq<u8>>,
}

/// The bytes of an optional byte string.
pub open spec fn bytes_of(v: Option<Vec<u8>>) -> Option<Seq<u8>> {
    match v {
        Some(b) => Some(b@),
        None => None,
    }
}

impl View for Uri {
    type V = UriView;

    open spec fn view(&self) -> UriView {
        UriView {
            text: self.text@,
            path_and_query: bytes_of(self.path_and_query),
            host: bytes_of(self.host),
        }
    }
}

/// What the `http` crate reads in a URI.
pub open spec fn uri_parts(text: Seq<u8>) -> UriView {
    UriView { text, path_and_query: uri_path_and_query(text), host: uri_host(text) }
}

/// The target `/`.
pub open spec fn root_uri() -> UriView {
    UriView { text: seq![47u8], path_and_query: Some(seq![47u8]), host: None }
}

impl Uri {
    /// Parses a request target.
    pub fn parse(text: &[u8]) -> (r: Result<Uri, MessageError>)
        ensures
            r is Ok <==> uri_valid(text@),
            r matches Ok(uri) ==> uri@ == uri_parts(text@),
            r matches Err(e) ==> e == MessageError::Uri,
    {
        match parse_uri(text) {
            Ok(uri) => Ok(uri),
            Err(_) => Err(MessageError::Uri),
        }
    }

    /// The target `/`.
    pub fn root() -> (uri: Uri)
        ensures
            uri@ == root_uri(),
    {
        let text = vec![47u8];
        let path = vec![47u8];
        assert(text@ =~= seq![47u8]);
        assert(path@ =~= seq![47u8]);
        Uri { text, path_and_query: Some(path), host: None }
    }
}

/// Header fields in the order in which they were added, each a name and a
/// value.
pub type Headers = Vec<(Vec<u8>, Vec<u8>)>;

/// What header fields hold.
pub type Fields = Seq<(Seq<u8>, Seq<u8>)>;

/// What header fields hold.
pub open spec fn fields_of(headers: Headers) -> Fields {
    Seq::new(headers@.len(), |i: int| (headers@[i].0@, headers@[i].1@))
}

/// The fields and the error of a builder after one more header is handed to
/// it. After an error nothing changes. A name that is no header name and a
/// value that is no header value are errors, the name first. Else the field
/// is added, its name in lower case.
pub open spec fn with_field(
    fields: Fields,
    error: Option<MessageError>,
    name: Seq<u8>,
    value: Seq<u8>,
) -> (Fields, Option<MessageError>) {
    if error is Some {
        (fields, error)
    } else if !is_header_name(name) {
        (fields, Some(MessageError::HeaderName))
    } else if !is_header_value(value) {
        (fields, Some(MessageError::HeaderValue))
    } else {
        (fields.push((lowered(name), value)), None)
    }
}

/// Hands one more header to a builder's fields.
pub fn add_field(
    headers: &mut Headers,
    error: &mut Option<MessageError>,
    name: &[u8],
    value: &[u8],
)
    ensures
        (fields_of(*final(headers)), *final(error)) == with_field(
            fields_of(*old(headers)),
            *old(error),
            name@,
            value@,
        ),
{
    if error.is_some() {
        return ;
    }
    let name = match parse_header_name(name) {
        Ok(name) => name,
        Err(_) => {
            *error = Some(MessageError::HeaderName);
            return ;
        },
    };
    if check_header_value(value).is_err() {
        *error = Some(MessageError::HeaderValue);
        return ;
    }
    let value = vstd::slice::slice_to_vec(value);
    headers.push((name, value));
    assert(fields_of(*headers) =~= fields_of(*old(headers)).push((name@, value@)));
}

/// What a response holds besides its body.
pub struct ResponseHead {
    pub version: Version,
    pub status: u16,
    pub fields: Fields,
}

/// A response: version, status code, header fields and body.
#[derive(Debug, Clone, PartialEq, Eq)]
pub struct Response<T> {
    pub version: Version,
    pub status: u16,
    pub headers: Headers,
    pub body: T,
}

/// The head of a response that nothing was said of: HTTP/1.1, status 200, no
/// header.
pub open spec fn plain_response() -> ResponseHead {
    ResponseHead { version: Version::Http11, status: 200, fields: Seq::empty() }
}

impl<T> Response<T> {
    /// What the response holds besides its body.
    pub open spec fn head(&self) -> ResponseHead {
        ResponseHead {
            version: self.version,
            status: self.status,
            fields: fields_of(self.headers),
        }
    }

    /// A response with the given body: HTTP/1.1, status 200, no header.
    pub fn new(body: T) -> (response: Self)
        ensures
            response.head() == plain_response(),
            response.body == body,
    {
        let response = Response { version: Version::Http11, status: 200, headers: Vec::new(), body };
        assert(fields_of(response.headers) =~= Seq::empty());
        response
    }
}

/// What a response builder holds: the head gathered so far, and the first
/// error, after which the builder takes nothing more.
pub struct ResponseBuilderView {
    pub head: ResponseHead,
    pub error: Option<MessageError>,
}

/// Gathers the head of a response, part by part.
#[derive(Debug, Clone, PartialEq, Eq)]
pub struct ResponseBuilder {
    pub version: Version,
    pub status: u16,
    pub headers: Headers,
    pub error: Option<MessageError>,
}

impl View for ResponseBuilder {
    type V = ResponseBuilderView;

    open spec fn view(&self) -> ResponseBuilderView {
        ResponseBuilderView {
            head: ResponseHead {
                version: self.version,
                status: self.status,
                fields: fields_of(self.headers),
            },
            error: self.error,
        }
    }
}

impl ResponseBuilderView {
    /// The builder after a version is handed to it.
    pub open spec fn version(self, version: Version) -> ResponseBuilderView {
        if self.error is Some {
            self
        } else {
            ResponseBuilderView { head: ResponseHead { version, ..self.head }, error: self.error }
        }
    }

    /// The builder after a status code is handed to it.
    pub open spec fn status(self, status: u16) -> ResponseBuilderView {
        if self.error is Some {
            self
        } else {
            ResponseBuilderView { head: ResponseHead { status, ..self.head }, error: self.error }
        }
    }

    /// The builder after a header is handed to it.
    pub open spec fn header(self, name: Seq<u8>, value: Seq<u8>) -> ResponseBuilderView {
        let (fields, error) = with_field(self.head.fields, self.error, name, value);
        ResponseBuilderView { head: ResponseHead { fields, ..self.head }, error }
    }
}

impl ResponseBuilder {
    /// A builder that nothing was handed to.
    pub fn new() -> (builder: Self)
        ensures
            builder@ == (ResponseBuilderView { head: plain_response(), error: None }),
    {
        let builder = ResponseBuilder {
            version: Version::Http11,
            status: 200,
            headers: Vec::new(),
            error: None,
        };
        assert(fields_of(builder.headers) =~= Seq::empty());
        builder
    }

    /// Sets the version.
    pub fn version(&mut self, version: Version)
        ensures
            final(self)@ == old(self)@.version(version),
    {
        if self.error.is_none() {
            self.version = version;
        }
    }

    /// Sets the status code.
    pub fn status(&mut self, status: u16)
        ensures
            final(self)@ == old(self)@.status(status),
    {
        if self.error.is_none() {
            self.status = status;
        }
    }

    /// Adds a header.
    pub fn header(&mut self, name: &[u8], value: &[u8])
        ensures
            final(self)@ == old(self)@.header(name@, value@),
    {
        add_field(&mut self.headers, &mut self.error, name, value);
    }

    /// The response with the given body, or the first error that the builder
    /// met.
    pub fn body<T>(self, body: T) -> (r: Result<Response<T>, MessageError>)
        ensures
            match self@.error {
                Some(e) => r == Err::<Response<T>, MessageError>(e),
                None => r matches Ok(response) && response.head() == self@.head
                    && response.body == body,
            },
    {
        match self.error {
            Some(e) => Err(e),
            None => Ok(
                Response { version: self.version, status: self.status, headers: self.headers, body },
            ),
        }
    }
}

/// What a request holds besides its body.
pub struct RequestHead {
    pub method: Seq<u8>,
    pub uri: UriView,
    pub version: Version,
    pub fields: Fields,
}

/// A request: method, target, version, header fields and body.
#[derive(Debug, Clone, PartialEq, Eq)]
pub struct Request<T> {
    pub method: Vec<u8>,
    pub uri: Uri,
    pub version: Version,
    pub headers: Headers,
    pub body: T,
}

/// The method `GET`.
pub open spec fn get() -> Seq<u8> {
    seq![71u8, 69u8, 84u8]
}

/// The head of a request that nothing was said of: `GET`, the target `/`,
/// HTTP/1.1, no header.
pub open spec fn plain_request() -> RequestHead {
    RequestHead { method: get(), uri: root_uri(), version: Version::Http11, fields: Seq::empty() }
}

impl<T> Request<T> {
    /// What the request holds besides its body.
    pub open spec fn head(&self) -> RequestHead {
        RequestHead {
            method: self.method@,
            uri: self.uri@,
            version: self.version,
            fields: fields_of(self.headers),
        }
    }

    /// A request with the given body: `GET`, the target `/`, HTTP/1.1, no
    /// header.
    pub fn new(body: T) -> (request: Self)
        ensures
            request.head() == plain_request(),
            request.body == body,
    {
        let request = Request {
            method: vec![71u8, 69u8, 84u8],
            uri: Uri::root(),
            version: Version::Http11,
            headers: Vec::new(),
            body,
        };
        assert(fields_of(request.headers) =~= Seq::empty());
        assert(request.method@ =~= get());
        request
    }
}

/// What a request builder holds: the head gathered so far, and the first
/// error, after which the builder takes nothing more.
pub struct RequestBuilderView {
    pub head: RequestHead,
    pub error: Option<MessageError>,
}

/// Gathers the head of a request, part by part.
#[derive(Debug, Clone, PartialEq, Eq)]
pub struct RequestBuilder {
    pub method: Vec<u8>,
    pub uri: Uri,
    pub version: Version,
    pub headers: Headers,
    pub error: Option<MessageError>,
}

impl View for RequestBuilder {
    type V = RequestBuilderView;

    open spec fn view(&self) -> RequestBuilderView {
        RequestBuilderView {
            head: RequestHead {
                method: self.method@,
                uri: self.uri@,
                version: self.version,
                fields: fields_of(self.headers),
            },
            error: self.error,
        }
    }
}

impl RequestBuilderView {
    /// The builder after a method is handed to it. Bytes that are no method
    /// are an error.
    pub open spec fn method(self, method: Seq<u8>) -> RequestBuilderView {
        if self.error is Some {
            self
        } else if !is_method(method) {
            RequestBuilderView { head: self.head, error: Some(MessageError::Method) }
        } else {
            RequestBuilderView { head: RequestHead { method, ..self.head }, error: self.error }
        }
    }

    /// The builder after a target is handed to it. Bytes that are no URI are
    /// an error.
    pub open spec fn uri(self, text: Seq<u8>) -> RequestBuilderView {
        if self.error is Some {
            self
        } else if !uri_valid(text) {
            RequestBuilderView { head: self.head, error: Some(MessageError::Uri) }
        } else {
            RequestBuilderView {
                head: RequestHead { uri: uri_parts(text), ..self.head },
                error: self.error,
            }
        }
    }

    /// The builder after a version is handed to it.
    pub open spec fn version(self, version: Version) -> RequestBuilderView {
        if self.error is Some {
            self
        } else {
            RequestBuilderView { head: RequestHead { version, ..self.head }, error: self.error }
        }
    }

    /// The builder after a header is handed to it.
    pub open spec fn header(self, name: Seq<u8>, value: Seq<u8>) -> RequestBuilderView {
        let (fields, error) = with_field(self.head.fields, self.error, name, value);
        RequestBuilderView { head: RequestHead { fields, ..self.head }, error }
    }
}

impl RequestBuilder {
    /// A builder that nothing was handed to.
    pub fn new() -> (builder: Self)
        ensures
            builder@ == (RequestBuilderView { head: plain_request(), error: None }),
    {
        let builder = RequestBuilder {
            method: vec![71u8, 69u8, 84u8],
            uri: Uri::root(),
            version: Version::Http11,
            headers: Vec::new(),
            error: None,
        };
        assert(fields_of(builder.headers) =~= Seq::empty());
        assert(builder.method@ =~= get());
        builder
    }

    /// Sets the method.
    pub fn method(&mut self, method: &[u8])
        ensures
            final(self)@ == old(self)@.method(method@),
    {
        if self.error.is_some() {
            return ;
        }
        if check_method(method).is_err() {
            self.error = Some(MessageError::Method);
            return ;
        }
        self.method = vstd::slice::slice_to_vec(method);
    }

    /// Sets the target.
    pub fn uri(&mut self, text: &[u8])
        ensures
            final(self)@ == old(self)@.uri(text@),
    {
        if self.error.is_some() {
            return ;
        }
        match Uri::parse(text) {
            Ok(uri) => {
                self.uri = uri;
            },
            Err(e) => {
                self.error = Some(e);
            },
        }
    }

    /// Sets the version.
    pub fn version(&mut self, version: Version)
        ensures
            final(self)@ == old(self)@.version(version),
    {
        if self.error.is_none() {
            self.version = version;
        }
    }

    /// Adds a header.
    pub fn header(&mut self, name: &[u8], value: &[u8])
        ensures
            final(self)@ == old(self)@.header(name@, value@),
    {
        add_field(&mut self.headers, &mut self.error, name, value);
    }

    /// The request with the given body, or the first error that the builder
    /// met.
    pub fn body<T>(self, body: T) -> (r: Result<Request<T>, MessageError>)
        ensures
            match self@.error {
                Some(e) => r == Err::<Request<T>, MessageError>(e),
                None => r matches Ok(request) && request.head() == self@.head
                    && request.body == body,
            },
    {
        match self.error {
            Some(e) => Err(e),
            None => Ok(
                Request {
                    method: self.method,
                    uri: self.uri,
                    version: self.version,
                    headers: self.headers,
                    body,
                },
            ),
        }
    }
}

} // verus!
