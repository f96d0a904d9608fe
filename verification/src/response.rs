use vstd::prelude::*;
use crate::body::Body;
use crate::headers::Headers;
use crate::headers::spec_lookup;

verus! {

/// Whether `s` is a valid HTTP status code.
pub open spec fn valid_status(s: u16) -> bool {
    100 <= s <= 599
}

/// A neutral HTTP response: a status code, an ordered header multimap and a
/// body. Built by the adapter from what the engine answered; the caller owns
/// it thereafter.
#[derive(Debug)]
pub struct Response {
    status: u16,
    headers: Headers,
    body: Body,
}

impl Response {
    /// The status code of this response; always within 100..=599.
    pub closed spec fn spec_status(self) -> u16 {
        self.status
    }

    /// The header entries of this response, in append order.
    pub closed spec fn spec_headers(self) -> Seq<(Seq<char>, Seq<char>)> {
        self.headers@
    }

    /// The known byte count of this response's body, if any.
    pub closed spec fn spec_body_len(self) -> Option<u64> {
        self.body.spec_len()
    }

    /// The status invariant: every constructed response carries a valid code.
    pub closed spec fn wf(self) -> bool {
        valid_status(self.status)
    }

    /// A fresh response with the given status, no headers and an empty body.
    pub fn new(status: u16) -> (r: Response)
        requires
            valid_status(status),
        ensures
            r.wf(),
            r.spec_status() == status,
            r.spec_headers() == Seq::<(Seq<char>, Seq<char>)>::empty(),
            r.spec_body_len() == Some(0u64),
    {
        Response { status, headers: Headers::new(), body: Body::empty() }
    }

    /// The status code.
    pub fn status(&self) -> (s: u16)
        ensures
            s == self.spec_status(),
    {
        self.status
    }

    /// The headers of this response.
    pub fn headers(&self) -> (h: &Headers)
        ensures
            h@ == self.spec_headers(),
    {
        &self.headers
    }

    /// Appends one header entry; earlier entries and their order are kept.
    pub fn append_header(&mut self, name: String, value: String)
        ensures
            final(self).spec_headers() == old(self).spec_headers().push((name@, value@)),
            final(self).spec_status() == old(self).spec_status(),
            final(self).spec_body_len() == old(self).spec_body_len(),
            final(self).wf() == old(self).wf(),
    {
        self.headers.append(name, value);
    }

    /// Case-insensitive header lookup: the value of the first entry whose
    /// name matches.
    pub fn header<'a>(&'a self, name: &str) -> (r: Option<&'a String>)
        ensures
            match r {
                Some(v) => spec_lookup(self.spec_headers(), name@) == Some(v@),
                None => spec_lookup(self.spec_headers(), name@) is None,
            },
    {
        self.headers.get(name)
    }

    /// Replaces the body.
    pub fn set_body(&mut self, body: Body)
        ensures
            final(self).spec_body_len() == body.spec_len(),
            final(self).spec_status() == old(self).spec_status(),
            final(self).spec_headers() == old(self).spec_headers(),
            final(self).wf() == old(self).wf(),
    {
        self.body = body;
    }

    /// Takes the body out, leaving a known-empty one behind: a body is
    /// consumed at most once.
    pub fn take_body(&mut self) -> (b: Body)
        ensures
            b.spec_len() == old(self).spec_body_len(),
            final(self).spec_body_len() == Some(0u64),
            final(self).spec_status() == old(self).spec_status(),
            final(self).spec_headers() == old(self).spec_headers(),
            final(self).wf() == old(self).wf(),
    {
        let b = self.body;
        self.body = Body::empty();
        b
    }
}

} // verus!
