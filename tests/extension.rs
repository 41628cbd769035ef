use pink::codec::{CodecError, HttpRequest, HttpResponse};
use pink::extension::{
    finish_http_request, prepare_http_request, response_body_writer, CallMode, ExtError, Method,
    PinkExtension, HTTP_REQUEST_FUNC_ID, MAX_BODY_SIZE, MAX_WAIT_SECS,
};

fn request(url: &str, method: &str, body: Vec<u8>) -> Vec<u8> {
    HttpRequest {
        url: url.to_string(),
        method: method.to_string(),
        headers: vec![("Accept".to_string(), "text/plain".to_string())],
        body,
    }
    .encode()
}

#[test]
fn unknown_capability_is_refused() {
    let input = request("http://example.com/", "GET", vec![]);
    for id in [0u32, 1, 0xff000000, 0xff000002, u32::MAX] {
        assert!(matches!(
            PinkExtension::call(id, Some(CallMode::Query), &input),
            Err(ExtError::UnsupportedCapability)
        ));
    }
}

#[test]
fn http_request_outside_query_mode_is_refused() {
    let input = request("http://example.com/", "GET", vec![]);
    assert!(matches!(
        PinkExtension::call(HTTP_REQUEST_FUNC_ID, Some(CallMode::Command), &input),
        Err(ExtError::ModeViolation)
    ));
    assert!(matches!(
        PinkExtension::call(HTTP_REQUEST_FUNC_ID, None, &input),
        Err(ExtError::ModeViolation)
    ));
    assert!(matches!(
        prepare_http_request(Some(CallMode::Command), &[0xff]),
        Err(ExtError::ModeViolation)
    ));
}

#[test]
fn malformed_payload_is_a_decode_error() {
    assert!(matches!(
        PinkExtension::call(HTTP_REQUEST_FUNC_ID, Some(CallMode::Query), &[0xff, 0x01]),
        Err(ExtError::DecodeError)
    ));
    let mut input = request("http://example.com/", "GET", vec![]);
    input.push(0);
    assert!(matches!(
        prepare_http_request(Some(CallMode::Query), &input),
        Err(ExtError::DecodeError)
    ));
}

#[test]
fn other_methods_are_refused() {
    for m in ["PUT", "DELETE", "get", ""] {
        let input = request("http://example.com/", m, vec![]);
        assert!(matches!(
            prepare_http_request(Some(CallMode::Query), &input),
            Err(ExtError::UnsupportedMethod)
        ));
    }
    let input = request("", "PATCH", vec![]);
    assert!(matches!(
        prepare_http_request(Some(CallMode::Query), &input),
        Err(ExtError::UnsupportedMethod)
    ));
}

#[test]
fn unparsable_url_is_refused() {
    for url in ["", "http://example.com:port/"] {
        let input = request(url, "GET", vec![]);
        assert!(matches!(
            prepare_http_request(Some(CallMode::Query), &input),
            Err(ExtError::InvalidUrl)
        ));
    }
}

#[test]
fn get_request_is_prepared_without_body() {
    let input = request("http://example.com/a?b=c", "GET", vec![1, 2, 3]);
    let p = PinkExtension::call(HTTP_REQUEST_FUNC_ID, Some(CallMode::Query), &input).unwrap();
    assert_eq!(p.url, "http://example.com/a?b=c");
    assert_eq!(p.method, Method::Get);
    assert_eq!(
        p.headers,
        vec![("Accept".to_string(), "text/plain".to_string())]
    );
    assert_eq!(p.body, None);
    assert_eq!(p.timeout_secs, 10);
    assert_eq!(p.max_body_size, 262144);
    assert_eq!(MAX_WAIT_SECS, 10);
    assert_eq!(MAX_BODY_SIZE, 262144);
}

#[test]
fn post_request_is_prepared_with_body() {
    let input = request("https://example.com/", "POST", vec![9, 8, 7]);
    let p = prepare_http_request(Some(CallMode::Query), &input).unwrap();
    assert_eq!(p.method, Method::Post);
    assert_eq!(p.body, Some(vec![9, 8, 7]));
}

#[test]
fn request_encoding_is_scale() {
    let req = HttpRequest {
        url: "a".to_string(),
        method: "GET".to_string(),
        headers: vec![],
        body: vec![],
    };
    assert_eq!(req.encode(), vec![4, 97, 12, 71, 69, 84, 0, 0]);
}

#[test]
fn response_encoding_is_scale() {
    let resp = HttpResponse {
        status_code: 200,
        body: vec![5],
        headers: vec![("k".to_string(), "v".to_string())],
    };
    assert_eq!(resp.encode(), vec![200, 0, 4, 5, 4, 4, 107, 4, 118]);
}

#[test]
fn request_round_trip() {
    let req = HttpRequest {
        url: "https://example.com/ü".to_string(),
        method: "POST".to_string(),
        headers: vec![
            ("a".to_string(), "1".to_string()),
            ("b".to_string(), "".to_string()),
        ],
        body: (0..200u8).collect(),
    };
    let back = HttpRequest::decode(&req.encode()).unwrap();
    assert_eq!(back.url, req.url);
    assert_eq!(back.method, req.method);
    assert_eq!(back.headers, req.headers);
    assert_eq!(back.body, req.body);
}

#[test]
fn response_round_trip() {
    let resp = HttpResponse {
        status_code: 404,
        body: vec![0; 300],
        headers: vec![("content-type".to_string(), "text/html".to_string())],
    };
    let back = HttpResponse::decode(&resp.encode()).unwrap();
    assert_eq!(back.status_code, 404);
    assert_eq!(back.body, resp.body);
    assert_eq!(back.headers, resp.headers);
}

#[test]
fn truncated_response_does_not_decode() {
    let resp = HttpResponse { status_code: 200, body: vec![1, 2, 3], headers: vec![] };
    let bytes = resp.encode();
    assert!(matches!(
        HttpResponse::decode(&bytes[..bytes.len() - 1]),
        Err(CodecError::Malformed)
    ));
}

#[test]
fn completed_exchange_yields_encoded_response() {
    let mut w = response_body_writer();
    assert_eq!(w.write(b"hello"), Ok(5));
    let out = finish_http_request(Some((200, vec![("k".to_string(), "v".to_string())])), w).unwrap();
    let resp = HttpResponse::decode(&out).unwrap();
    assert_eq!(resp.status_code, 200);
    assert_eq!(resp.body, b"hello".to_vec());
    assert_eq!(resp.headers, vec![("k".to_string(), "v".to_string())]);
}

#[test]
fn failed_exchange_is_a_transport_error() {
    let w = response_body_writer();
    assert!(matches!(finish_http_request(None, w), Err(ExtError::TransportError)));
}

#[test]
fn oversized_body_yields_no_response() {
    let mut w = response_body_writer();
    let chunk = vec![7u8; 65536];
    for _ in 0..4 {
        assert_eq!(w.write(&chunk), Ok(65536));
    }
    assert_eq!(w.written(), 262144);
    assert!(w.write(&[1]).is_err());
    assert!(matches!(
        finish_http_request(None, w),
        Err(ExtError::ResourceLimitExceeded)
    ));
    let mut w = response_body_writer();
    assert!(w.write(&vec![0u8; 262145]).is_err());
    assert!(matches!(
        finish_http_request(Some((200, vec![])), w),
        Err(ExtError::ResourceLimitExceeded)
    ));
}

#[test]
fn url_cut_inside_a_character_is_refused() {
    for url in ["a:€//x", "a:x€//"] {
        let input = request(url, "GET", vec![]);
        assert!(matches!(
            prepare_http_request(Some(CallMode::Query), &input),
            Err(ExtError::InvalidUrl)
        ));
    }
    let input = request("ab://é/", "GET", vec![]);
    assert!(prepare_http_request(Some(CallMode::Query), &input).is_ok());
}

#[test]
fn oversized_body_in_many_chunks_yields_no_response() {
    let mut w = response_body_writer();
    let chunk = vec![1u8; 1000];
    let mut refused = 0;
    for _ in 0..300 {
        if w.write(&chunk).is_err() {
            refused += 1;
        }
    }
    assert_eq!(refused, 300 - 262);
    assert_eq!(w.written(), 262000);
    assert!(matches!(
        finish_http_request(Some((200, vec![])), w),
        Err(ExtError::ResourceLimitExceeded)
    ));
}

#[test]
fn ordinary_response_fits_encoding() {
    let resp = HttpResponse {
        status_code: 200,
        body: vec![0; 1024],
        headers: vec![("content-length".to_string(), "1024".to_string())],
    };
    assert!(resp.fits_encoding());
    let empty = HttpResponse { status_code: 204, body: vec![], headers: vec![] };
    assert!(empty.fits_encoding());
    assert_eq!(empty.encode(), vec![204, 0, 0, 0]);
}
