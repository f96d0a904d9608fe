//! Round-trip scenarios against an echo backend, played out at the model
//! level: the request is planned for the engine, the payload crosses the
//! streaming bridge chunk by chunk, the "engine" reflects what it saw, and
//! the response is rebuilt from the reflection.

use http_client::Body;
use http_client::BodyFraming;
use http_client::Method;
use http_client::Request;
use http_client::Response;
use http_client::stream::ChunkSink;
use http_client::stream::ChunkSource;
use http_client::stream::pump;
use http_client::translate::EnginePlan;
use http_client::translate::RawHeader;
use http_client::translate::build_response;
use http_client::translate::plan_request;

/// Plays the engine side of one exchange against an echo backend: the
/// payload is pulled across the bridge in bounded chunks, and the answer
/// reflects the entries that were sent together with the received body.
fn echo_exchange(plan: EnginePlan, payload: Vec<u8>, chunk: usize) -> (Response, Vec<u8>) {
    let mut source = ChunkSource::new(payload);
    let mut received = ChunkSink::new();
    pump(&mut source, &mut received, chunk);
    let body = received.into_bytes();
    let reflected: Vec<RawHeader> = plan
        .headers
        .iter()
        .map(|e| RawHeader { name: e.name.clone(), value: e.value.as_bytes().to_vec() })
        .collect();
    let len = match plan.framing {
        BodyFraming::Sized(n) => {
            assert_eq!(n as usize, body.len());
            Some(n)
        },
        BodyFraming::Chunked => Some(body.len() as u64),
    };
    let response = build_response(200, reflected, len).unwrap();
    (response, body)
}

#[test]
fn basic_functionality() {
    let port: u16 = 8080;
    let mut req = Request::new(Method::Post, format!("http://localhost:{}/", port));
    req.append_header("test".to_string(), "value".to_string());
    req.set_body(Body::sized(5));
    let plan = plan_request(req);
    assert_eq!(plan.method_token, "POST");
    assert_eq!(plan.url, format!("http://localhost:{}/", port));
    let (response, echoed) = echo_exchange(plan, b"hello".to_vec(), 2);
    assert_eq!(response.status(), 200);
    assert_eq!(echoed, b"hello".to_vec());
    assert_eq!(response.header("test"), Some(&"value".to_string()));
}

#[test]
fn header_pairs_survive_the_round_trip() {
    let mut req = Request::new(Method::Get, "http://localhost:8080/".to_string());
    req.append_header("Test".to_string(), "value".to_string());
    req.append_header("X-CaSe".to_string(), "MiXeD CaSe".to_string());
    req.append_header("x-case".to_string(), "another".to_string());
    let plan = plan_request(req);
    let (response, _) = echo_exchange(plan, Vec::new(), 16);
    let h = response.headers();
    assert_eq!(h.len(), 3);
    assert_eq!(h.name_at(0).as_str(), "Test");
    assert_eq!(h.value_at(0).as_str(), "value");
    assert_eq!(h.name_at(1).as_str(), "X-CaSe");
    assert_eq!(h.value_at(1).as_str(), "MiXeD CaSe");
    assert_eq!(h.name_at(2).as_str(), "x-case");
    assert_eq!(h.value_at(2).as_str(), "another");
    assert_eq!(response.header("TEST"), Some(&"value".to_string()));
}

#[test]
fn fixed_length_body_round_trip() {
    let content = b"0123456789".to_vec();
    let mut req = Request::new(Method::Post, "http://localhost:8080/".to_string());
    req.set_body(Body::sized(content.len() as u64));
    let plan = plan_request(req);
    assert_eq!(plan.framing, BodyFraming::Sized(10));
    let (mut response, echoed) = echo_exchange(plan, content.clone(), 3);
    assert_eq!(echoed, content);
    assert_eq!(response.take_body().len(), Some(10));
}

#[test]
fn unknown_length_body_round_trip() {
    let content = b"chunked framing carries this across".to_vec();
    let mut req = Request::new(Method::Post, "http://localhost:8080/".to_string());
    req.set_body(Body::unknown_length());
    let plan = plan_request(req);
    assert_eq!(plan.framing, BodyFraming::Chunked);
    let (response, echoed) = echo_exchange(plan, content.clone(), 4);
    assert_eq!(echoed, content);
    assert_eq!(response.status(), 200);
}

#[test]
fn large_declared_body_crosses_in_bounded_chunks() {
    let total: usize = 1 << 20;
    let mut content = Vec::with_capacity(total);
    let mut i: usize = 0;
    while i < total {
        content.push(b'a' + ((i % 26) as u8));
        i += 1;
    }
    let mut source = ChunkSource::new(content.clone());
    let mut received = ChunkSink::new();
    let max: usize = 8192;
    loop {
        match source.next_chunk(max) {
            Some(c) => {
                assert!(c.len() <= max);
                assert!(!c.is_empty());
                received.push_chunk(&c);
            },
            None => break,
        }
    }
    assert_eq!(source.remaining_len(), 0);
    assert_eq!(received.into_bytes(), content);
}
