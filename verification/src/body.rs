use vstd::prelude::*;

verus! {

/// How a payload is framed on the wire: either the exact byte count is
/// declared up front, or the content is sent with chunked framing until the
/// producer is exhausted.
#[derive(Clone, Copy, Debug, PartialEq, Eq, Structural)]
pub enum BodyFraming {
    /// The engine is told the exact byte count, so it can set a fixed
    /// content-length and avoid chunked encoding.
    Sized(u64),
    /// No length is known; the engine uses chunked framing.
    Chunked,
}

/// The framing that a payload with the given known length gets.
pub open spec fn spec_framing(len: Option<u64>) -> BodyFraming {
    match len {
        Some(n) => BodyFraming::Sized(n),
        None => BodyFraming::Chunked,
    }
}

/// The payload description of a message: an optional known byte count.
///
/// The byte producer itself lives outside this model — bytes are pulled from
/// it lazily, a chunk at a time, and never buffered whole. A body is consumed
/// exactly once; what this type tracks is the one fact translation reads from
/// it, the known length that decides the wire framing.
#[derive(Clone, Copy, Debug)]
pub struct Body {
    len: Option<u64>,
}

impl Body {
    /// The known byte count of this body, if any.
    pub closed spec fn spec_len(self) -> Option<u64> {
        self.len
    }

    /// An empty body: zero bytes, and known to be zero bytes.
    pub fn empty() -> (b: Body)
        ensures
            b.spec_len() == Some(0u64),
    {
        Body { len: Some(0u64) }
    }

    /// A body whose producer will yield exactly `n` bytes.
    pub fn sized(n: u64) -> (b: Body)
        ensures
            b.spec_len() == Some(n),
    {
        Body { len: Some(n) }
    }

    /// A body whose total length is not known up front.
    pub fn unknown_length() -> (b: Body)
        ensures
            b.spec_len() == None::<u64>,
    {
        Body { len: None }
    }

    /// The known byte count of this body, if any.
    pub fn len(&self) -> (r: Option<u64>)
        ensures
            r == self.spec_len(),
    {
        self.len
    }

    /// Chooses the wire framing for this body: sized exactly when the length
    /// is known, chunked otherwise.
    pub fn framing(&self) -> (f: BodyFraming)
        ensures
            f == spec_framing(self.spec_len()),
    {
        match self.len {
            Some(n) => BodyFraming::Sized(n),
            None => BodyFraming::Chunked,
        }
    }
}

} // verus!
