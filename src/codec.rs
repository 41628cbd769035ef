use vstd::prelude::*;
use vstd::utf8::encode_utf8;

verus! {

#[verifier::external_type_specification]
#[verifier::external_body]
pub struct ExScaleError(parity_scale_codec::Error);

/// A header list, as pairs of character sequences.
pub type HeadersView = Seq<(Seq<char>, Seq<char>)>;

/// An outbound request as plain sequences: url, method, headers, body.
pub type RequestView = (Seq<char>, Seq<char>, HeadersView, Seq<u8>);

/// An inbound response as plain values: status code, body, headers.
pub type ResponseView = (u16, Seq<u8>, HeadersView);

pub open spec fn headers_view(h: Seq<(String, String)>) -> HeadersView {
    h.map_values(|p: (String, String)| (p.0@, p.1@))
}

/// Whether SCALE can prefix a text with its length: the length of its UTF-8
/// bytes must fit in a `u32`.
pub open spec fn encodable_text(s: Seq<char>) -> bool {
    encode_utf8(s).len() <= u32::MAX
}

/// Whether SCALE can prefix a header list and each of its texts with their
/// lengths.
pub open spec fn encodable_headers(h: HeadersView) -> bool {
    &&& h.len() <= u32::MAX
    &&& forall|i: int| 0 <= i < h.len() ==> encodable_text(#[trigger] h[i].0) && encodable_text(h[i].1)
}

/// Whether every length in a request fits in a `u32`, as its SCALE encoding
/// needs.
pub open spec fn encodable_request(req: RequestView) -> bool {
    &&& encodable_text(req.0)
    &&& encodable_text(req.1)
    &&& encodable_headers(req.2)
    &&& req.3.len() <= u32::MAX
}

/// Whether every length in a response fits in a `u32`, as its SCALE encoding
/// needs.
pub open spec fn encodable_response(resp: ResponseView) -> bool {
    &&& resp.1.len() <= u32::MAX
    &&& encodable_headers(resp.2)
}

/// The SCALE encoding of a request's fields, in the order url, method,
/// headers, body.
pub uninterp spec fn scale_request_bytes(req: RequestView) -> Seq<u8>;

/// The request fields that parity_scale_codec's `DecodeAll` reads from the
/// whole of `b`, if it reads any.
pub uninterp spec fn scale_request_of(b: Seq<u8>) -> Option<RequestView>;

/// The SCALE encoding of a response's fields, in the order status code,
/// body, headers.
pub uninterp spec fn scale_response_bytes(resp: ResponseView) -> Seq<u8>;

/// The response fields that parity_scale_codec's `DecodeAll` reads from the
/// whole of `b`, if it reads any.
pub uninterp spec fn scale_response_of(b: Seq<u8>) -> Option<ResponseView>;

/// A request that a contract hands to the host.
pub struct HttpRequest {
    pub url: String,
    pub method: String,
    pub headers: Vec<(String, String)>,
    pub body: Vec<u8>,
}

/// What the host hands back to the contract for a request.
pub struct HttpResponse {
    pub status_code: u16,
    pub body: Vec<u8>,
    pub headers: Vec<(String, String)>,
}

impl View for HttpRequest {
    type V = RequestView;

    open spec fn view(&self) -> RequestView {
        (self.url@, self.method@, headers_view(self.headers@), self.body@)
    }
}

impl View for HttpResponse {
    type V = ResponseView;

    open spec fn view(&self) -> ResponseView {
        (self.status_code, self.body@, headers_view(self.headers@))
    }
}

/// Why a payload could not be read.
#[derive(Debug, Clone, Copy, PartialEq, Eq, Structural)]
pub enum CodecError {
    /// The bytes are not the encoding of a value of the expected shape, or
    /// bytes are left over after it.
    Malformed,
}

/// Relies on parity_scale_codec's `Encode` for a tuple of references: the
/// fields are encoded one after the other, and `DecodeAll` of the same tuple
/// type reads them back exactly. It panics on a text or list longer than
/// `u32::MAX`, so such requests are left out.
#[verifier::external_body]
fn scale_encode_request(
    url: &String,
    method: &String,
    headers: &Vec<(String, String)>,
    body: &Vec<u8>,
) -> (r: Vec<u8>)
    requires
        encodable_request((url@, method@, headers_view(headers@), body@)),
    ensures
        r@ == scale_request_bytes((url@, method@, headers_view(headers@), body@)),
        scale_request_of(r@) == Some((url@, method@, headers_view(headers@), body@)),
{
    parity_scale_codec::Encode::encode(&(url, method, headers, body))
}

/// Relies on parity_scale_codec's `DecodeAll` for the request's field tuple:
/// what it reads depends on the bytes alone.
#[verifier::external_body]
fn scale_decode_request(input: &[u8]) -> (r: Result<
    (String, String, Vec<(String, String)>, Vec<u8>),
    parity_scale_codec::Error,
>)
    ensures
        r is Ok <==> scale_request_of(input@) is Some,
        r is Ok ==> scale_request_of(input@) == Some(
            (r->Ok_0.0@, r->Ok_0.1@, headers_view(r->Ok_0.2@), r->Ok_0.3@),
        ),
{
    let mut rest = input;
    <(String, String, Vec<(String, String)>, Vec<u8>) as parity_scale_codec::DecodeAll>::decode_all(
        &mut rest,
    )
}

/// Relies on parity_scale_codec's `Encode` for a tuple of references: the
/// fields are encoded one after the other, and `DecodeAll` of the same tuple
/// type reads them back exactly. It panics on a text or list longer than
/// `u32::MAX`, so such responses are left out.
#[verifier::external_body]
fn scale_encode_response(status_code: u16, body: &Vec<u8>, headers: &Vec<(String, String)>) -> (r:
    Vec<u8>)
    requires
        encodable_response((status_code, body@, headers_view(headers@))),
    ensures
        r@ == scale_response_bytes((status_code, body@, headers_view(headers@))),
        scale_response_of(r@) == Some((status_code, body@, headers_view(headers@))),
{
    parity_scale_codec::Encode::encode(&(status_code, body, headers))
}

/// Relies on parity_scale_codec's `DecodeAll` for the response's field tuple:
/// what it reads depends on the bytes alone.
#[verifier::external_body]
fn scale_decode_response(input: &[u8]) -> (r: Result<
    (u16, Vec<u8>, Vec<(String, String)>),
    parity_scale_codec::Error,
>)
    ensures
        r is Ok <==> scale_response_of(input@) is Some,
        r is Ok ==> scale_response_of(input@) == Some(
            (r->Ok_0.0, r->Ok_0.1@, headers_view(r->Ok_0.2@)),
        ),
{
    let mut rest = input;
    <(u16, Vec<u8>, Vec<(String, String)>) as parity_scale_codec::DecodeAll>::decode_all(&mut rest)
}

fn text_fits_encoding(s: &String) -> (r: bool)
    ensures
        r == encodable_text(s@),
{
    s.as_str().as_bytes().len() <= u32::MAX as usize
}

fn headers_fit_encoding(h: &Vec<(String, String)>) -> (r: bool)
    ensures
        r == encodable_headers(headers_view(h@)),
{
    assert(headers_view(h@).len() == h@.len());
    if h.len() > u32::MAX as usize {
        return false;
    }
    let mut i: usize = 0;
    while i < h.len()
        invariant
            0 <= i <= h.len(),
            h@.len() <= u32::MAX,
            headers_view(h@).len() == h@.len(),
            forall|j: int|
                0 <= j < i ==> encodable_text(#[trigger] headers_view(h@)[j].0) && encodable_text(
                    headers_view(h@)[j].1,
                ),
        decreases h.len() - i,
    {
        assert(headers_view(h@)[i as int] == (h@[i as int].0@, h@[i as int].1@));
        if !text_fits_encoding(&h[i].0) || !text_fits_encoding(&h[i].1) {
            assert(!encodable_text(headers_view(h@)[i as int].0) || !encodable_text(
                headers_view(h@)[i as int].1,
            ));
            assert(!encodable_headers(headers_view(h@))) by {
                if encodable_headers(headers_view(h@)) {
                    assert(encodable_text(headers_view(h@)[i as int].0));
                }
            }
            return false;
        }
        i = i + 1;
    }
    assert(encodable_headers(headers_view(h@)));
    true
}

impl HttpRequest {
    /// The wire form of the request.
    pub fn encode(&self) -> (r: Vec<u8>)
        requires
            encodable_request(self@),
        ensures
            r@ == scale_request_bytes(self@),
            scale_request_of(r@) == Some(self@),
    {
        scale_encode_request(&self.url, &self.method, &self.headers, &self.body)
    }

    /// Reads a request from its whole wire form.
    pub fn decode(input: &[u8]) -> (r: Result<HttpRequest, CodecError>)
        ensures
            r is Ok <==> scale_request_of(input@) is Some,
            r is Ok ==> scale_request_of(input@) == Some(r->Ok_0@),
            r is Err ==> r == Err::<HttpRequest, CodecError>(CodecError::Malformed),
    {
        match scale_decode_request(input) {
            Ok(fields) => {
                let (url, method, headers, body) = fields;
                Ok(HttpRequest { url, method, headers, body })
            },
            Err(_) => Err(CodecError::Malformed),
        }
    }
}

impl HttpResponse {
    /// Whether every length in the response fits in a `u32`, so that it can
    /// be encoded.
    pub fn fits_encoding(&self) -> (r: bool)
        ensures
            r == encodable_response(self@),
    {
        self.body.len() <= u32::MAX as usize && headers_fit_encoding(&self.headers)
    }

    /// The wire form of the response.
    pub fn encode(&self) -> (r: Vec<u8>)
        requires
            encodable_response(self@),
        ensures
            r@ == scale_response_bytes(self@),
            scale_response_of(r@) == Some(self@),
    {
        scale_encode_response(self.status_code, &self.body, &self.headers)
    }

    /// Reads a response from its whole wire form.
    pub fn decode(input: &[u8]) -> (r: Result<HttpResponse, CodecError>)
        ensures
            r is Ok <==> scale_response_of(input@) is Some,
            r is Ok ==> scale_response_of(input@) == Some(r->Ok_0@),
            r is Err ==> r == Err::<HttpResponse, CodecError>(CodecError::Malformed),
    {
        match scale_decode_response(input) {
            Ok(fields) => {
                let (status_code, body, headers) = fields;
                Ok(HttpResponse { status_code, body, headers })
            },
            Err(_) => Err(CodecError::Malformed),
        }
    }
}

} // verus!
