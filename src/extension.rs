use vstd::prelude::*;

use crate::codec::{
    encodable_response, headers_view, scale_request_of, scale_response_bytes, scale_response_of, HeadersView,
    HttpRequest, HttpResponse, RequestView,
};
use crate::limited_writer::LimitedWriter;
use vstd::utf8::{encode_utf8, is_continuation_byte};

verus! {

/// Capability id under which contracts ask the host for an HTTP request.
pub const HTTP_REQUEST_FUNC_ID: u32 = 0xff000001;

/// Seconds an HTTP exchange may take as a whole.
pub const MAX_WAIT_SECS: u64 = 10;

/// Most bytes of a response body that are accepted.
pub const MAX_BODY_SIZE: usize = 1024 * 256;

/// Whether the current contract invocation is a read-only query or a
/// consensus-affecting command.
#[derive(Debug, Clone, Copy, PartialEq, Eq, Structural)]
pub enum CallMode {
    Query,
    Command,
}

/// Why an extension call failed. Any of these aborts the contract call.
#[derive(Debug, Clone, Copy, PartialEq, Eq, Structural)]
pub enum ExtError {
    /// No capability is registered under the id.
    UnsupportedCapability,
    /// The capability touches the outside world and the call is no query.
    ModeViolation,
    /// The payload is no encoded request.
    DecodeError,
    /// The method is neither GET nor POST.
    UnsupportedMethod,
    /// The url does not parse.
    InvalidUrl,
    /// The exchange failed or timed out.
    TransportError,
    /// The response body passed its size limit.
    ResourceLimitExceeded,
}

/// The HTTP methods a contract may use.
#[derive(Debug, Clone, Copy, PartialEq, Eq, Structural)]
pub enum Method {
    Get,
    Post,
}

/// The method named by a method token, if it is one of those allowed.
pub open spec fn method_of(token: Seq<char>) -> Option<Method> {
    if token == "GET"@ {
        Some(Method::Get)
    } else if token == "POST"@ {
        Some(Method::Post)
    } else {
        None
    }
}

/// Whether http_req reads the text as a URI.
pub uninterp spec fn uri_parses(url: Seq<char>) -> bool;

/// Whether byte `k` of `b` is its first `:`.
pub open spec fn is_first_colon(b: Seq<u8>, k: int) -> bool {
    &&& 0 <= k < b.len()
    &&& b[k] == 58u8
    &&& forall|j: int| 0 <= j < k ==> b[j] != 58u8
}

/// Whether `//` occurs in `b` at or after byte `start`.
pub open spec fn has_double_slash_from(b: Seq<u8>, start: int) -> bool {
    exists|j: int| start <= j && j + 1 < b.len() && #[trigger] b[j] == 47u8 && b[j + 1] == 47u8
}

/// Whether a URI parser that, on finding `//` after the first `:`, cuts the
/// text two bytes past that colon, cuts it between two characters of the
/// UTF-8 text `b`.
pub open spec fn uri_cut_on_boundary(b: Seq<u8>) -> bool {
    forall|k: int|
        #[trigger] is_first_colon(b, k) && has_double_slash_from(b, k + 1) ==> k + 3 == b.len()
            || (k + 3 < b.len() && !is_continuation_byte(b[k + 3]))
}

fn double_slash_from(b: &[u8], start: usize) -> (r: bool)
    ensures
        r == has_double_slash_from(b@, start as int),
{
    let n = b.len();
    let mut j: usize = start;
    while j < n && n - j >= 2
        invariant
            start <= j,
            n == b@.len(),
            forall|i: int|
                start <= i < j && i + 1 < n ==> !(#[trigger] b@[i] == 47u8 && b@[i + 1] == 47u8),
        decreases n - j,
    {
        if b[j] == 47 && b[j + 1] == 47 {
            return true;
        }
        j = j + 1;
    }
    assert forall|i: int| start <= i && i + 1 < n implies !(#[trigger] b@[i] == 47u8 && b@[i + 1]
        == 47u8) by {
        if i >= j {
            assert(false);
        }
    }
    false
}

/// Tells whether http_req's URI parser would cut `b` between characters.
fn url_cut_on_boundary(b: &[u8]) -> (r: bool)
    ensures
        r == uri_cut_on_boundary(b@),
{
    let n = b.len();
    let mut k: usize = 0;
    while k < n && b[k] != 58
        invariant
            0 <= k <= n,
            n == b@.len(),
            forall|j: int| 0 <= j < k ==> b@[j] != 58u8,
        decreases n - k,
    {
        k = k + 1;
    }
    if k == n {
        assert forall|c: int| !#[trigger] is_first_colon(b@, c) by {}
        return true;
    }
    assert(is_first_colon(b@, k as int));
    assert forall|c: int| #[trigger] is_first_colon(b@, c) implies c == k by {
        if c < k {
            assert(b@[c] != 58u8);
        } else if c > k {
            assert(b@[k as int] == 58u8);
        }
    }
    if !double_slash_from(b, k + 1) {
        return true;
    }
    if n - k == 3 {
        true
    } else if n - k > 3 {
        !(0x80 <= b[k + 3] && b[k + 3] <= 0xbf)
    } else {
        assert(false) by {
            let j = choose|j: int|
                k + 1 <= j && j + 1 < b@.len() && #[trigger] b@[j] == 47u8 && b@[j + 1] == 47u8;
        }
        false
    }
}

/// Relies on http_req's `Uri::try_from`: whether a text parses as a URI
/// depends on the text alone. It cuts the text two bytes past the first `:`
/// when `//` follows it, and panics where that cut falls inside a character,
/// so such texts are left out.
#[verifier::external_body]
fn url_parses(url: &str) -> (r: bool)
    requires
        uri_cut_on_boundary(encode_utf8(url@)),
    ensures
        r == uri_parses(url@),
{
    <http_req::uri::Uri as std::convert::TryFrom<&str>>::try_from(url).is_ok()
}

/// A checked request, ready to be sent: the body is there for POST only.
pub struct PreparedRequest {
    pub url: String,
    pub method: Method,
    pub headers: Vec<(String, String)>,
    pub body: Option<Vec<u8>>,
    pub timeout_secs: u64,
    pub max_body_size: usize,
}

/// A checked request as plain values: url, method, headers, body, timeout in
/// seconds, and the most body bytes accepted.
pub type PreparedView = (Seq<char>, Method, HeadersView, Option<Seq<u8>>, u64, usize);

impl View for PreparedRequest {
    type V = PreparedView;

    open spec fn view(&self) -> PreparedView {
        (
            self.url@,
            self.method,
            headers_view(self.headers@),
            match self.body {
                Some(b) => Some(b@),
                None => None,
            },
            self.timeout_secs,
            self.max_body_size,
        )
    }
}

/// The request that goes out for a decoded one whose method is allowed.
pub open spec fn prepared_from(req: RequestView, method: Method) -> PreparedView {
    (
        req.0,
        method,
        req.2,
        if method == Method::Post {
            Some(req.3)
        } else {
            None
        },
        MAX_WAIT_SECS,
        MAX_BODY_SIZE,
    )
}

/// What the HTTP capability decides for a call in `mode` with payload
/// `input`, before any network work: the mode first, then the payload, the
/// method and the url.
pub open spec fn http_request_outcome(mode: Option<CallMode>, input: Seq<u8>) -> Result<
    PreparedView,
    ExtError,
> {
    if mode != Some(CallMode::Query) {
        Err(ExtError::ModeViolation)
    } else {
        match scale_request_of(input) {
            None => Err(ExtError::DecodeError),
            Some(req) => match method_of(req.1) {
                None => Err(ExtError::UnsupportedMethod),
                Some(method) => if !uri_cut_on_boundary(encode_utf8(req.0)) || !uri_parses(
                    req.0,
                ) {
                    Err(ExtError::InvalidUrl)
                } else {
                    Ok(prepared_from(req, method))
                },
            },
        }
    }
}

/// What the router decides for a call of capability `func_id`.
pub open spec fn call_outcome(func_id: u32, mode: Option<CallMode>, input: Seq<u8>) -> Result<
    PreparedView,
    ExtError,
> {
    if func_id == HTTP_REQUEST_FUNC_ID {
        http_request_outcome(mode, input)
    } else {
        Err(ExtError::UnsupportedCapability)
    }
}

pub open spec fn prepared_result_view(r: Result<PreparedRequest, ExtError>) -> Result<
    PreparedView,
    ExtError,
> {
    match r {
        Ok(p) => Ok(p@),
        Err(e) => Err(e),
    }
}

fn parse_method(token: &String) -> (r: Option<Method>)
    ensures
        r == method_of(token@),
{
    let get = "GET".to_owned();
    let post = "POST".to_owned();
    if *token == get {
        Some(Method::Get)
    } else if *token == post {
        Some(Method::Post)
    } else {
        None
    }
}

/// Checks an HTTP capability call: it is refused outside query mode before
/// the payload is looked at, then the payload must decode, name GET or POST,
/// and carry a url that parses without the parser cutting a character.
pub fn prepare_http_request(mode: Option<CallMode>, input: &[u8]) -> (r: Result<
    PreparedRequest,
    ExtError,
>)
    ensures
        prepared_result_view(r) == http_request_outcome(mode, input@),
{
    match mode {
        Some(CallMode::Query) => {},
        _ => {
            return Err(ExtError::ModeViolation);
        },
    }
    let request = match HttpRequest::decode(input) {
        Ok(request) => request,
        Err(_) => {
            return Err(ExtError::DecodeError);
        },
    };
    let ghost req = request@;
    let method = match parse_method(&request.method) {
        Some(m) => m,
        None => {
            return Err(ExtError::UnsupportedMethod);
        },
    };
    let url_text: &str = request.url.as_str();
    if !url_cut_on_boundary(url_text.as_bytes()) {
        return Err(ExtError::InvalidUrl);
    }
    if !url_parses(url_text) {
        return Err(ExtError::InvalidUrl);
    }
    let HttpRequest { url, method: _, headers, body } = request;
    let body = match method {
        Method::Post => Some(body),
        Method::Get => None,
    };
    let prepared = PreparedRequest {
        url,
        method,
        headers,
        body,
        timeout_secs: MAX_WAIT_SECS,
        max_body_size: MAX_BODY_SIZE,
    };
    assert(prepared@ == prepared_from(req, method));
    Ok(prepared)
}

/// A fresh sink for a response body, bounded by the body size limit.
pub fn response_body_writer() -> (r: LimitedWriter<Vec<u8>>)
    ensures
        r.wf(),
        r.written_spec() == 0,
        r.limit_spec() == MAX_BODY_SIZE,
        !r.refused_spec(),
        r.sink()@ == Seq::<u8>::empty(),
        r.base_len() == 0,
{
    LimitedWriter::new(Vec::new(), MAX_BODY_SIZE)
}

/// What a finished exchange hands back to the contract: a body that passed
/// the limit fails the call whatever else happened; a failed exchange is a
/// transport error; a response with a length too large to encode is refused
/// as too large; otherwise the encoded response.
pub open spec fn response_outcome(
    sent: Option<(u16, HeadersView)>,
    refused: bool,
    body: Seq<u8>,
) -> Result<Seq<u8>, ExtError> {
    if refused {
        Err(ExtError::ResourceLimitExceeded)
    } else {
        match sent {
            None => Err(ExtError::TransportError),
            Some((status, headers)) => if !encodable_response((status, body, headers)) {
                Err(ExtError::ResourceLimitExceeded)
            } else {
                Ok(scale_response_bytes((status, body, headers)))
            },
        }
    }
}

/// Turns the end of an exchange into the bytes handed back to the contract.
/// `sent` holds the status code and headers when the exchange completed;
/// `writer` is the sink that took the body.
pub fn finish_http_request(
    sent: Option<(u16, Vec<(String, String)>)>,
    writer: LimitedWriter<Vec<u8>>,
) -> (r: Result<Vec<u8>, ExtError>)
    requires
        writer.wf(),
    ensures
        match r {
            Ok(bytes) => Ok(bytes@),
            Err(e) => Err(e),
        } == response_outcome(
            match sent {
                Some(s) => Some((s.0, headers_view(s.1@))),
                None => None,
            },
            writer.refused_spec(),
            writer.sink()@,
        ),
        r is Ok ==> scale_response_of(r->Ok_0@) == Some(
            (sent->Some_0.0, writer.sink()@, headers_view(sent->Some_0.1@)),
        ),
        r is Ok ==> writer.sink()@.len() <= writer.base_len() + writer.limit_spec(),
{
    if writer.limit_exceeded() {
        return Err(ExtError::ResourceLimitExceeded);
    }
    match sent {
        None => Err(ExtError::TransportError),
        Some(s) => {
            let (status_code, headers) = s;
            let body = writer.into_inner();
            let response = HttpResponse { status_code, body, headers };
            if !response.fits_encoding() {
                return Err(ExtError::ResourceLimitExceeded);
            }
            Ok(response.encode())
        },
    }
}

/// The host side of the contract extension: routes capability calls.
pub struct PinkExtension;

impl PinkExtension {
    /// Routes a capability call. Only the HTTP request capability is known;
    /// for it the call is checked and, when it may go out, the request to
    /// send is returned. Nothing has gone out when this returns.
    pub fn call(func_id: u32, mode: Option<CallMode>, input: &[u8]) -> (r: Result<
        PreparedRequest,
        ExtError,
    >)
        ensures
            prepared_result_view(r) == call_outcome(func_id, mode, input@),
    {
        if func_id == HTTP_REQUEST_FUNC_ID {
            prepare_http_request(mode, input)
        } else {
            Err(ExtError::UnsupportedCapability)
        }
    }
}

/// Any capability id but the HTTP one is refused, whatever the mode and
/// payload, and no request is produced.
pub proof fn lemma_unknown_capability_refused(func_id: u32, mode: Option<CallMode>, input: Seq<u8>)
    requires
        func_id != HTTP_REQUEST_FUNC_ID,
    ensures
        call_outcome(func_id, mode, input) == Err::<PreparedView, ExtError>(
            ExtError::UnsupportedCapability,
        ),
{
}

/// Outside query mode the HTTP capability is refused for every payload,
/// before the payload is decoded, and no request is produced.
pub proof fn lemma_http_needs_query_mode(mode: Option<CallMode>, input: Seq<u8>)
    requires
        mode != Some(CallMode::Query),
    ensures
        call_outcome(HTTP_REQUEST_FUNC_ID, mode, input) == Err::<PreparedView, ExtError>(
            ExtError::ModeViolation,
        ),
{
}

/// A request whose method is neither GET nor POST is refused in query mode,
/// whatever its url, and no request is produced.
pub proof fn lemma_other_methods_refused(input: Seq<u8>)
    requires
        scale_request_of(input) is Some,
        scale_request_of(input)->Some_0.1 != "GET"@,
        scale_request_of(input)->Some_0.1 != "POST"@,
    ensures
        call_outcome(HTTP_REQUEST_FUNC_ID, Some(CallMode::Query), input) == Err::<
            PreparedView,
            ExtError,
        >(ExtError::UnsupportedMethod),
{
}

/// A response body that was refused for its size yields no response, whether
/// or not the exchange completed.
pub proof fn lemma_oversized_body_no_response(sent: Option<(u16, HeadersView)>, body: Seq<u8>)
    ensures
        response_outcome(sent, true, body) == Err::<Seq<u8>, ExtError>(
            ExtError::ResourceLimitExceeded,
        ),
{
}

} // verus!
