use vstd::prelude::*;
use std::sync::Arc;

verus! {

/// The engine this adapter drives: isahc's own HTTP client, an opaque,
/// already-configured handle over a connection pool. Declared so that the
/// handle type below can hold and hand out values of it; nothing inside it
/// is ever inspected here.
#[verifier::external_type_specification]
#[verifier::external_body]
pub struct ExIsahcHttpClient(isahc::HttpClient);

/// Relies on isahc::HttpClient::new: builds an engine with the default
/// configuration. Initialization failure is an environment fault, not a
/// recoverable condition, and ends the process.
#[verifier::external_body]
fn default_engine() -> (r: isahc::HttpClient) {
    isahc::HttpClient::new().expect("failed to initialize the default HTTP engine")
}

/// Relies on Arc::clone: the duplicate refers to the very same engine; no
/// second engine or pool comes into being.
#[verifier::external_body]
fn share_engine(c: &Arc<isahc::HttpClient>) -> (r: Arc<isahc::HttpClient>)
    ensures
        r == *c,
{
    Arc::clone(c)
}

/// A curl-based HTTP client handle: a shared reference to one engine.
/// Cloning the handle duplicates the reference only, so every clone and
/// every concurrent send goes through the same connection pool; the engine
/// is never mutated after construction.
#[derive(Debug)]
pub struct IsahcClient {
    client: Arc<isahc::HttpClient>,
}

impl IsahcClient {
    /// The engine behind this handle.
    pub closed spec fn spec_engine(self) -> isahc::HttpClient {
        *self.client
    }

    /// Creates a handle over a fresh engine with the default configuration;
    /// fails fatally when the engine cannot initialize.
    pub fn new() -> IsahcClient {
        Self::from_client(default_engine())
    }

    /// Wraps an externally initialized and configured engine, accepted as it
    /// stands: proxies, TLS and pool size stay the engine's own concern.
    pub fn from_client(client: isahc::HttpClient) -> (c: IsahcClient)
        ensures
            c.spec_engine() == client,
    {
        IsahcClient { client: Arc::new(client) }
    }

    /// The shared engine, for the transport layer that performs the actual
    /// exchange.
    pub fn engine(&self) -> (e: &isahc::HttpClient)
        ensures
            *e == self.spec_engine(),
    {
        &*self.client
    }
}

impl Clone for IsahcClient {
    /// The clone drives the very same engine: only the shared reference is
    /// duplicated.
    fn clone(&self) -> (c: Self)
        ensures
            c.spec_engine() == self.spec_engine(),
    {
        IsahcClient { client: share_engine(&self.client) }
    }
}

} // verus!
