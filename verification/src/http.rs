//! HTTP value types: header lines with owned or process-lifetime values,
//! status codes, and the shape of a finished response.
use vstd::prelude::*;

verus! {

/// A header value: either freshly computed for one response or a shared
/// constant that lives for the whole process.
#[derive(Debug, Clone)]
pub enum OwnedOrStatic {
    Owned(Vec<u8>),
    Static(&'static [u8]),
}

impl View for OwnedOrStatic {
    type V = Seq<u8>;

    open spec fn view(&self) -> Seq<u8> {
        match self {
            OwnedOrStatic::Owned(v) => v@,
            OwnedOrStatic::Static(s) => s@,
        }
    }
}

impl OwnedOrStatic {
    /// The bytes of the value, whichever variant holds them.
    pub fn as_bytes(&self) -> (r: &[u8])
        ensures
            r@ == self@,
    {
        match self {
            OwnedOrStatic::Owned(v) => v.as_slice(),
            OwnedOrStatic::Static(s) => s,
        }
    }
}

/// One header line. The key is always a process-lifetime constant
/// (a lower-case HTTP header name).
#[derive(Debug, Clone)]
pub struct Line {
    pub key: &'static [u8],
    pub value: OwnedOrStatic,
}

impl View for Line {
    type V = (Seq<u8>, Seq<u8>);

    open spec fn view(&self) -> (Seq<u8>, Seq<u8>) {
        (self.key@, self.value@)
    }
}

impl Line {
    /// A line whose value is a static array reference.
    pub fn with_array_ref_value<const N: usize>(key: &'static [u8], value: &'static [u8; N]) -> (r:
        Self)
        ensures
            r@ == (key@, value@),
    {
        Line { key, value: OwnedOrStatic::Static(value.as_slice()) }
    }

    /// A line whose value is a static byte slice.
    pub fn with_slice_value(key: &'static [u8], value: &'static [u8]) -> (r: Self)
        ensures
            r@ == (key@, value@),
    {
        Line { key, value: OwnedOrStatic::Static(value) }
    }

    /// A line whose value was computed for this response.
    pub fn with_owned_value(key: &'static [u8], value: Vec<u8>) -> (r: Self)
        ensures
            r@ == (key@, value@),
    {
        Line { key, value: OwnedOrStatic::Owned(value) }
    }
}

/// The views of a sequence of header lines, in order.
pub open spec fn lines_view(s: Seq<Line>) -> Seq<(Seq<u8>, Seq<u8>)> {
    s.map_values(|l: Line| l@)
}

/// Appending a line appends its view.
pub broadcast proof fn lemma_lines_view_push(s: Seq<Line>, l: Line)
    ensures
        #[trigger] lines_view(s.push(l)) == lines_view(s).push(l@),
{
    assert(lines_view(s.push(l)) =~= lines_view(s).push(l@));
}

/// A sink that headers can be appended to.
pub trait Headers {
    fn append(&mut self, key: &[u8], value: &[u8]);
}

/// The status codes this server can emit.
#[derive(Debug, Clone, Copy, PartialEq, Eq, Structural)]
pub enum StatusCode {
    OK,
    NoContent,
    NotModified,
    TemporaryRedirect,
    PermanentRedirect,
    BadRequest,
    Unauthorized,
    Forbidden,
    NotFound,
    MethodNotAllowed,
    PreconditionFailed,
    RequestTooLarge,
    InternalServerError,
}

impl StatusCode {
    /// The numeric code of this status.
    pub open spec fn spec_u16(self) -> u16 {
        match self {
            StatusCode::OK => 200,
            StatusCode::NoContent => 204,
            StatusCode::NotModified => 304,
            StatusCode::TemporaryRedirect => 307,
            StatusCode::PermanentRedirect => 308,
            StatusCode::BadRequest => 400,
            StatusCode::Unauthorized => 401,
            StatusCode::Forbidden => 403,
            StatusCode::NotFound => 404,
            StatusCode::MethodNotAllowed => 405,
            StatusCode::PreconditionFailed => 412,
            StatusCode::RequestTooLarge => 413,
            StatusCode::InternalServerError => 500,
        }
    }

    /// The numeric code, as sent on the wire.
    pub fn as_u16(self) -> (r: u16)
        ensures
            r == self.spec_u16(),
    {
        match self {
            StatusCode::OK => 200,
            StatusCode::NoContent => 204,
            StatusCode::NotModified => 304,
            StatusCode::TemporaryRedirect => 307,
            StatusCode::PermanentRedirect => 308,
            StatusCode::BadRequest => 400,
            StatusCode::Unauthorized => 401,
            StatusCode::Forbidden => 403,
            StatusCode::NotFound => 404,
            StatusCode::MethodNotAllowed => 405,
            StatusCode::PreconditionFailed => 412,
            StatusCode::RequestTooLarge => 413,
            StatusCode::InternalServerError => 500,
        }
    }

    /// True exactly for the 4xx codes: the responses a configured upstream
    /// may answer in place of this server.
    pub fn is_client_error(self) -> (r: bool)
        ensures
            r == (400 <= self.spec_u16() < 500),
    {
        match self {
            StatusCode::BadRequest => true,
            StatusCode::Unauthorized => true,
            StatusCode::Forbidden => true,
            StatusCode::NotFound => true,
            StatusCode::MethodNotAllowed => true,
            StatusCode::PreconditionFailed => true,
            StatusCode::RequestTooLarge => true,
            _ => false,
        }
    }
}

/// The mathematical shape of a finished response: status, header lines in
/// emission order, and the body bytes if one is sent.
pub ghost struct ResponseModel {
    pub status: u16,
    pub headers: Seq<(Seq<u8>, Seq<u8>)>,
    pub body: Option<Seq<u8>>,
}

/// A finished response: everything the transport needs to send.
pub struct ResponseDescription {
    pub status: StatusCode,
    pub headers: Vec<Line>,
    pub body: Option<Vec<u8>>,
}

impl View for ResponseDescription {
    type V = ResponseModel;

    open spec fn view(&self) -> ResponseModel {
        ResponseModel {
            status: self.status.spec_u16(),
            headers: lines_view(self.headers@),
            body: match self.body {
                Some(b) => Some(b@),
                None => None,
            },
        }
    }
}

/// An inbound request as the resolver sees it, abstracted over the
/// transport's own request and response types.
pub trait Request<R>: Sized {
    fn method(&self) -> &[u8];

    fn path(&self) -> &[u8];

    fn first_header_value(&self, key: &'static [u8]) -> Option<Vec<u8>>;

    fn response(self, code: StatusCode, headers: Vec<Line>, body: Option<Vec<u8>>) -> R;
}

} // verus!
