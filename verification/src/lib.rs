//! A neutral HTTP transport model and the adapter logic that bridges it to a
//! curl-based HTTP engine.
//!
//! The crate holds backend-agnostic `Request`, `Response` and `Body` types,
//! a pure translation layer that turns a `Request` into everything the engine
//! needs to put it on the wire (method token, URL, header entries, body
//! framing) and turns the engine's answer back into a `Response`, and the
//! shared engine handle itself. All translation rules carry contracts and are
//! verified; the engine is reached only through a few narrow trusted calls.

pub mod body;
pub mod client;
pub mod error;
pub mod headers;
pub mod method;
pub mod request;
pub mod response;
pub mod stream;
pub mod translate;

pub use body::Body;
pub use body::BodyFraming;
pub use client::IsahcClient;
pub use error::Error;
pub use error::ErrorKind;
pub use headers::Headers;
pub use method::Method;
pub use request::Request;
pub use response::Response;
