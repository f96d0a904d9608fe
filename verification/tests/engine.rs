//! Exchanges through the real engine, aimed at local ports where nothing
//! listens: the request is planned by the library and handed to the engine,
//! and the engine's failure comes back as a normalized transport error —
//! never as a response.

use std::io::Read;

use http_client::Body;
use http_client::BodyFraming;
use http_client::ErrorKind;
use http_client::IsahcClient;
use http_client::Method;
use http_client::Request;
use http_client::Response;
use http_client::stream::ChunkSink;
use http_client::translate::RawHeader;
use http_client::translate::build_response;
use http_client::translate::plan_request;

/// Sends a neutral request through the given client's engine: the library
/// plans the request and rebuilds the response; this glue performs the
/// exchange and collects the answer's body.
fn send_via_engine(
    client: &IsahcClient,
    req: Request,
    content: Vec<u8>,
) -> Result<(Response, Vec<u8>), http_client::Error> {
    let plan = plan_request(req);
    let method = isahc::http::Method::from_bytes(plan.method_token.as_bytes())
        .map_err(|e| http_client::Error::protocol(e.to_string()))?;
    let mut builder = isahc::http::Request::builder()
        .uri(plan.url.as_str())
        .method(method);
    for entry in &plan.headers {
        builder = builder.header(entry.name.as_str(), entry.value.as_str());
    }
    let engine_body = match plan.framing {
        BodyFraming::Sized(n) => isahc::Body::from_reader_sized(std::io::Cursor::new(content), n),
        BodyFraming::Chunked => isahc::Body::from_reader(std::io::Cursor::new(content)),
    };
    let request = builder
        .body(engine_body)
        .map_err(|e| http_client::Error::protocol(e.to_string()))?;
    let res = client
        .engine()
        .send(request)
        .map_err(|e| http_client::Error::transport(e.to_string()))?;
    let (parts, mut engine_body) = res.into_parts();
    let len = engine_body.len();
    let mut raw = Vec::new();
    for (name, value) in parts.headers.iter() {
        raw.push(RawHeader {
            name: name.as_str().to_string(),
            value: value.as_bytes().to_vec(),
        });
    }
    let resp = build_response(parts.status.as_u16(), raw, len)?;
    let mut sink = ChunkSink::new();
    let mut buf = [0u8; 1024];
    loop {
        let n = engine_body.read(&mut buf).unwrap();
        if n == 0 {
            break;
        }
        sink.push_chunk(&buf[..n].to_vec());
    }
    Ok((resp, sink.into_bytes()))
}

fn unreachable_request() -> Request {
    let port = portpicker::pick_unused_port().unwrap();
    let mut req = Request::new(Method::Post, format!("http://localhost:{}/", port));
    req.append_header("test".to_string(), "value".to_string());
    req.set_body(Body::sized(5));
    req
}

#[test]
fn unreachable_endpoint_yields_error_and_no_response() {
    let client = IsahcClient::new();
    let outcome = send_via_engine(&client, unreachable_request(), b"hello".to_vec());
    let err = outcome.unwrap_err();
    assert_eq!(err.kind(), ErrorKind::TransportFailure);
    assert!(!err.message().is_empty());
}

#[test]
fn from_client_wraps_a_configured_engine() {
    let engine = isahc::HttpClient::new().unwrap();
    let client = IsahcClient::from_client(engine);
    let outcome = send_via_engine(&client, unreachable_request(), b"hello".to_vec());
    assert_eq!(outcome.unwrap_err().kind(), ErrorKind::TransportFailure);
}

#[test]
fn clones_share_one_engine_and_fail_independently() {
    let client = IsahcClient::new();
    let twin = client.clone();
    let first = send_via_engine(&client, unreachable_request(), b"hello".to_vec());
    let second = send_via_engine(&twin, unreachable_request(), b"hello".to_vec());
    assert_eq!(first.unwrap_err().kind(), ErrorKind::TransportFailure);
    assert_eq!(second.unwrap_err().kind(), ErrorKind::TransportFailure);
}
