use vstd::prelude::*;

verus! {

/// A pull-based byte producer over an in-memory payload: hands the payload
/// out as a series of chunks of a caller-chosen size, never re-reading what
/// was already taken. This is the "read next chunk" side of the streaming
/// bridge; a consumer that pulls from it holds at most one chunk at a time.
#[derive(Debug)]
pub struct ChunkSource {
    data: Vec<u8>,
    pos: usize,
}

impl ChunkSource {
    /// The producer never points past the end of its payload.
    pub closed spec fn wf(self) -> bool {
        self.pos <= self.data@.len()
    }

    /// The bytes not yet handed out.
    pub closed spec fn remaining(self) -> Seq<u8> {
        self.data@.skip(self.pos as int)
    }

    /// A producer over the whole of `data`.
    pub fn new(data: Vec<u8>) -> (s: ChunkSource)
        ensures
            s.wf(),
            s.remaining() == data@,
    {
        let s = ChunkSource { data, pos: 0 };
        proof {
            assert(s.remaining() =~= s.data@);
        }
        s
    }

    /// How many bytes are left to hand out.
    pub fn remaining_len(&self) -> (n: usize)
        requires
            self.wf(),
        ensures
            n == self.remaining().len(),
    {
        self.data.len() - self.pos
    }

    /// Pulls the next chunk of at most `max` bytes: exactly the next bytes of
    /// the payload, in order, and never empty. Returns `None` exactly when
    /// the payload is exhausted, leaving the producer unchanged.
    pub fn next_chunk(&mut self, max: usize) -> (r: Option<Vec<u8>>)
        requires
            old(self).wf(),
            max > 0,
        ensures
            final(self).wf(),
            match r {
                Some(c) => {
                    &&& 0 < c@.len() <= max
                    &&& c@.len() <= old(self).remaining().len()
                    &&& c@ == old(self).remaining().take(c@.len() as int)
                    &&& final(self).remaining() == old(self).remaining().skip(c@.len() as int)
                },
                None => {
                    &&& old(self).remaining().len() == 0
                    &&& *final(self) == *old(self)
                },
            },
    {
        let avail: usize = self.data.len() - self.pos;
        if avail == 0 {
            return None;
        }
        let n: usize = if avail < max {
            avail
        } else {
            max
        };
        let mut chunk: Vec<u8> = Vec::new();
        let mut i: usize = 0;
        while i < n
            invariant
                i <= n,
                self.pos + n <= self.data@.len(),
                self.data@.len() <= usize::MAX,
                chunk@ == self.data@.subrange(self.pos as int, self.pos + i),
            decreases n - i,
        {
            let b: u8 = self.data[self.pos + i];
            chunk.push(b);
            proof {
                assert(chunk@ =~= self.data@.subrange(self.pos as int, self.pos + i + 1));
            }
            i = i + 1;
        }
        proof {
            assert(chunk@ =~= self.remaining().take(n as int));
            assert(self.data@.skip(self.pos + n as int) =~= self.remaining().skip(n as int));
        }
        self.pos = self.pos + n;
        Some(chunk)
    }
}

/// The receiving side of the streaming bridge: collects the chunks pulled
/// from a producer. Its view is the bytes received so far, in arrival order.
#[derive(Debug)]
pub struct ChunkSink {
    data: Vec<u8>,
}

impl View for ChunkSink {
    type V = Seq<u8>;

    closed spec fn view(&self) -> Seq<u8> {
        self.data@
    }
}

impl ChunkSink {
    /// An empty sink.
    pub fn new() -> (s: ChunkSink)
        ensures
            s@ == Seq::<u8>::empty(),
    {
        let s = ChunkSink { data: Vec::new() };
        proof {
            assert(s@ =~= Seq::<u8>::empty());
        }
        s
    }

    /// Appends one chunk after everything received so far.
    pub fn push_chunk(&mut self, chunk: &Vec<u8>)
        ensures
            final(self)@ == old(self)@ + chunk@,
    {
        let n: usize = chunk.len();
        let mut i: usize = 0;
        while i < n
            invariant
                i <= n,
                n == chunk@.len(),
                self@ == old(self)@ + chunk@.take(i as int),
            decreases n - i,
        {
            let b: u8 = chunk[i];
            self.data.push(b);
            proof {
                assert(old(self)@ + chunk@.take(i as int) + seq![b] =~= old(self)@ + chunk@.take(
                    i + 1,
                ));
                assert(self@ =~= old(self)@ + chunk@.take(i + 1));
            }
            i = i + 1;
        }
        proof {
            assert(chunk@.take(n as int) =~= chunk@);
        }
    }

    /// The bytes received so far.
    pub fn bytes(&self) -> (r: &Vec<u8>)
        ensures
            r@ == self@,
    {
        &self.data
    }

    /// Hands the collected bytes out, consuming the sink.
    pub fn into_bytes(self) -> (r: Vec<u8>)
        ensures
            r@ == self@,
    {
        self.data
    }
}

/// Drives the bridge to exhaustion: pulls chunk after chunk of at most `max`
/// bytes from `src` and hands each to `dst`, so that `dst` ends up with
/// exactly the bytes `src` had left — the whole payload crosses over, in
/// order, without ever standing in memory as a second whole copy.
pub fn pump(src: &mut ChunkSource, dst: &mut ChunkSink, max: usize)
    requires
        old(src).wf(),
        max > 0,
    ensures
        final(src).wf(),
        final(src).remaining() == Seq::<u8>::empty(),
        final(dst)@ == old(dst)@ + old(src).remaining(),
{
    let mut more = true;
    while more
        invariant
            src.wf(),
            max > 0,
            dst@ + src.remaining() == old(dst)@ + old(src).remaining(),
            !more ==> src.remaining().len() == 0,
        decreases src.remaining().len() + (if more {
            1int
        } else {
            0int
        }),
    {
        let ghost dst_before = dst@;
        let ghost rem_before = src.remaining();
        match src.next_chunk(max) {
            Some(c) => {
                dst.push_chunk(&c);
                proof {
                    assert(rem_before.take(c@.len() as int) + rem_before.skip(c@.len() as int)
                        =~= rem_before);
                    assert(dst_before + rem_before.take(c@.len() as int) + rem_before.skip(
                        c@.len() as int,
                    ) =~= dst_before + rem_before);
                    assert(dst@ + src.remaining() =~= old(dst)@ + old(src).remaining());
                }
            },
            None => {
                more = false;
            },
        }
    }
    proof {
        assert(src.remaining() =~= Seq::<u8>::empty());
        assert(dst@ + src.remaining() =~= dst@);
    }
}

} // verus!
