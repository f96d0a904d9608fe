use vstd::prelude::*;
use crate::body::Body;
use crate::headers::Headers;
use crate::headers::spec_lookup;
use crate::method::Method;

verus! {

/// A neutral HTTP request: a method, an absolute URL, an ordered header
/// multimap and a body. The caller owns it until it is handed to a send,
/// which consumes the body exactly once.
#[derive(Debug)]
pub struct Request {
    method: Method,
    url: String,
    headers: Headers,
    body: Body,
}

impl Request {
    /// The method of this request.
    pub closed spec fn spec_method(self) -> Method {
        self.method
    }

    /// The URL of this request.
    pub closed spec fn spec_url(self) -> Seq<char> {
        self.url@
    }

    /// The header entries of this request, in append order.
    pub closed spec fn spec_headers(self) -> Seq<(Seq<char>, Seq<char>)> {
        self.headers@
    }

    /// The known byte count of this request's body, if any.
    pub closed spec fn spec_body_len(self) -> Option<u64> {
        self.body.spec_len()
    }

    /// A fresh request: no headers yet, and an empty body.
    pub fn new(method: Method, url: String) -> (r: Request)
        ensures
            r.spec_method() == method,
            r.spec_url() == url@,
            r.spec_headers() == Seq::<(Seq<char>, Seq<char>)>::empty(),
            r.spec_body_len() == Some(0u64),
    {
        Request { method, url, headers: Headers::new(), body: Body::empty() }
    }

    /// The method of this request.
    pub fn method(&self) -> (m: Method)
        ensures
            m == self.spec_method(),
    {
        self.method
    }

    /// The URL of this request, exactly as given.
    pub fn url(&self) -> (u: &String)
        ensures
            u@ == self.spec_url(),
    {
        &self.url
    }

    /// The headers of this request.
    pub fn headers(&self) -> (h: &Headers)
        ensures
            h@ == self.spec_headers(),
    {
        &self.headers
    }

    /// Appends one header entry; earlier entries and their order are kept.
    pub fn append_header(&mut self, name: String, value: String)
        ensures
            final(self).spec_headers() == old(self).spec_headers().push((name@, value@)),
            final(self).spec_method() == old(self).spec_method(),
            final(self).spec_url() == old(self).spec_url(),
            final(self).spec_body_len() == old(self).spec_body_len(),
    {
        self.headers.append(name, value);
    }

    /// Case-insensitive header lookup: the value of the first entry whose
    /// name matches.
    pub fn header<'a>(&'a self, name: &str) -> (r: Option<&'a String>)
        ensures
            match r {
                Some(v) => spec_lookup(self.spec_headers(), name@) == Some(v@),
                None => spec_lookup(self.spec_headers(), name@) is None,
            },
    {
        self.headers.get(name)
    }

    /// Replaces the body.
    pub fn set_body(&mut self, body: Body)
        ensures
            final(self).spec_body_len() == body.spec_len(),
            final(self).spec_method() == old(self).spec_method(),
            final(self).spec_url() == old(self).spec_url(),
            final(self).spec_headers() == old(self).spec_headers(),
    {
        self.body = body;
    }

    /// Hands the parts of the request over to translation, which takes
    /// ownership of the whole of it, the body included.
    pub fn into_parts(self) -> (p: (Method, String, Headers, Body))
        ensures
            p.0 == self.spec_method(),
            p.1@ == self.spec_url(),
            p.2@ == self.spec_headers(),
            p.3.spec_len() == self.spec_body_len(),
    {
        (self.method, self.url, self.headers, self.body)
    }

    /// Takes the body out for sending, leaving a known-empty one behind:
    /// a body is consumed at most once.
    pub fn take_body(&mut self) -> (b: Body)
        ensures
            b.spec_len() == old(self).spec_body_len(),
            final(self).spec_body_len() == Some(0u64),
            final(self).spec_method() == old(self).spec_method(),
            final(self).spec_url() == old(self).spec_url(),
            final(self).spec_headers() == old(self).spec_headers(),
    {
        let b = self.body;
        self.body = Body::empty();
        b
    }
}

} // verus!
