use vstd::prelude::*;

use crate::protocol::NetError;

verus! {

/// The byte that ends every message on the wire.
pub const SENTINEL: u8 = 4;

/// Index of the first [`SENTINEL`] in `s`, if there is one.
pub open spec fn first_sentinel(s: Seq<u8>) -> Option<int>
    decreases s.len(),
{
    if s.len() == 0 {
        None
    } else {
        match first_sentinel(s.drop_last()) {
            Some(i) => Some(i),
            None => if s.last() == SENTINEL {
                Some(s.len() - 1)
            } else {
                None
            },
        }
    }
}

/// The message that a stream of bytes carries: what stands before its first
/// [`SENTINEL`], once that has arrived.
pub open spec fn first_frame(s: Seq<u8>) -> Option<Seq<u8>> {
    match first_sentinel(s) {
        Some(i) => Some(s.take(i)),
        None => None,
    }
}

/// The bytes sent for a message `p`.
pub open spec fn framed(p: Seq<u8>) -> Seq<u8> {
    p.push(SENTINEL)
}

/// `first_sentinel` finds the first sentinel, and only a sentinel.
pub proof fn lemma_first_sentinel(s: Seq<u8>)
    ensures
        match first_sentinel(s) {
            Some(i) => 0 <= i < s.len() && s[i] == SENTINEL && forall|j: int|
                0 <= j < i ==> s[j] != SENTINEL,
            None => !s.contains(SENTINEL),
        },
    decreases s.len(),
{
    if s.len() > 0 {
        let d = s.drop_last();
        lemma_first_sentinel(d);
        match first_sentinel(d) {
            Some(i) => {
                assert(s[i] == d[i]);
                assert forall|j: int| 0 <= j < i implies s[j] != SENTINEL by {
                    assert(s[j] == d[j]);
                }
            },
            None => {
                assert forall|j: int| 0 <= j < s.len() - 1 implies s[j] != SENTINEL by {
                    assert(s[j] == d[j]);
                    assert(d.contains(d[j]));
                }
                if s.last() != SENTINEL {
                    assert forall|j: int| 0 <= j < s.len() implies s[j] != SENTINEL by {
                        if j < s.len() - 1 {
                            assert(s[j] == d[j]);
                            assert(d.contains(d[j]));
                        }
                    }
                }
            },
        }
    }
}

/// Reading more bytes never moves a sentinel that was already seen, and a
/// sentinel seen later lies after everything read before.
pub proof fn lemma_first_sentinel_prefix(s: Seq<u8>, n: int)
    requires
        0 <= n <= s.len(),
    ensures
        first_sentinel(s.take(n)) is Some ==> first_sentinel(s) == first_sentinel(s.take(n)),
        first_sentinel(s.take(n)) is None ==> (first_sentinel(s) is None || first_sentinel(
            s,
        )->0 >= n),
    decreases s.len() - n,
{
    if n == s.len() {
        assert(s.take(n) =~= s);
    } else {
        let d = s.drop_last();
        assert(d.take(n) =~= s.take(n));
        lemma_first_sentinel_prefix(d, n);
        if first_sentinel(d) is None && s.last() == SENTINEL {
            assert(s.len() - 1 >= n);
        }
    }
}

/// One byte more: the first sentinel stays where it was, or is that byte.
proof fn lemma_first_sentinel_push(s: Seq<u8>, b: u8)
    ensures
        first_sentinel(s.push(b)) == (match first_sentinel(s) {
            Some(i) => Some(i),
            None => if b == SENTINEL {
                Some(s.len() as int)
            } else {
                None
            },
        }),
{
    assert(s.push(b).drop_last() =~= s);
}

/// A message framed and read back is the message itself, for every message
/// free of the sentinel byte.
pub proof fn lemma_frame_round_trip(p: Seq<u8>)
    requires
        !p.contains(SENTINEL),
    ensures
        first_frame(framed(p)) == Some(p),
{
    lemma_first_sentinel(p);
    lemma_first_sentinel_push(p, SENTINEL);
    assert(framed(p).take(p.len() as int) =~= p);
}

/// However the framed bytes of a message are split up, no message is
/// delivered before its last byte, the sentinel, has arrived.
pub proof fn lemma_partial_frame_pending(p: Seq<u8>, n: int)
    requires
        !p.contains(SENTINEL),
        0 <= n < framed(p).len(),
    ensures
        first_frame(framed(p).take(n)) is None,
{
    let s = framed(p).take(n);
    assert forall|j: int| 0 <= j < s.len() implies s[j] != SENTINEL by {
        assert(s[j] == p[j]);
        assert(p.contains(p[j]));
    }
    lemma_first_sentinel(s);
    if first_sentinel(s) is Some {
        let i = first_sentinel(s)->0;
        assert(s[i] == SENTINEL);
    }
}

/// The bytes to send for the message `payload`: the payload, then
/// [`SENTINEL`]. A payload that holds the sentinel itself cannot be framed
/// and is refused as a protocol error.
pub fn encode_frame(payload: &Vec<u8>) -> (r: Result<Vec<u8>, NetError>)
    ensures
        r is Err <==> payload@.contains(SENTINEL),
        r matches Err(e) ==> e == NetError::Protocol,
        r matches Ok(bytes) ==> bytes@ == framed(payload@),
{
    let mut out: Vec<u8> = Vec::new();
    let mut i: usize = 0;
    while i < payload.len()
        invariant
            i <= payload@.len(),
            out@ == payload@.take(i as int),
            forall|j: int| 0 <= j < i ==> payload@[j] != SENTINEL,
        decreases payload@.len() - i,
    {
        let b = payload[i];
        if b == SENTINEL {
            assert(payload@.contains(payload@[i as int]));
            return Err(NetError::Protocol);
        }
        out.push(b);
        assert(out@ =~= payload@.take(i + 1));
        i += 1;
    }
    out.push(SENTINEL);
    assert(payload@.take(payload@.len() as int) =~= payload@);
    Ok(out)
}

/// What feeding bytes to a [`FrameReader`] produced.
#[derive(Debug)]
pub enum Feed {
    /// No sentinel yet: more bytes are needed.
    Pending,
    /// A whole message: the bytes before the sentinel.
    Complete(Vec<u8>),
    /// The message is longer than the reader's limit.
    Oversized,
}

/// Collects the bytes of one message as they arrive in chunks of any size.
pub struct FrameReader {
    buf: Vec<u8>,
    limit: usize,
}

impl FrameReader {
    /// The bytes held so far, none of them a sentinel.
    pub closed spec fn buffered(&self) -> Seq<u8> {
        self.buf@
    }

    /// The most payload bytes that one message may have.
    pub closed spec fn limit(&self) -> nat {
        self.limit as nat
    }

    pub closed spec fn wf(&self) -> bool {
        &&& first_sentinel(self.buf@) is None
        &&& self.buf@.len() <= self.limit
    }

    /// A reader with nothing buffered that accepts messages of up to `limit`
    /// bytes.
    pub fn new(limit: usize) -> (r: FrameReader)
        ensures
            r.wf(),
            r.buffered() == Seq::<u8>::empty(),
            r.limit() == limit,
    {
        FrameReader { buf: Vec::new(), limit }
    }

    /// Takes the next chunk of the stream. Once the bytes seen since the last
    /// message hold a sentinel, the message before it is returned and the
    /// reader starts afresh; the bytes after that sentinel are dropped, as a
    /// connection carries one message. A message, or the bytes buffered in
    /// waiting for one, longer than the limit are refused.
    pub fn feed(&mut self, chunk: &[u8]) -> (r: Feed)
        requires
            old(self).wf(),
        ensures
            final(self).wf(),
            final(self).limit() == old(self).limit(),
            ({
                let s = old(self).buffered() + chunk@;
                &&& r is Complete <==> (first_frame(s) matches Some(p) && p.len() <= old(
                    self,
                ).limit())
                &&& r matches Feed::Complete(p) ==> first_frame(s) == Some(p@)
                &&& r is Pending <==> (first_frame(s) is None && s.len() <= old(self).limit())
                &&& r is Pending ==> final(self).buffered() == s
                &&& !(r is Pending) ==> final(self).buffered() == Seq::<u8>::empty()
            }),
    {
        let ghost s = self.buf@ + chunk@;
        let mut k: usize = 0;
        while k < chunk.len()
            invariant
                k <= chunk@.len(),
                s == old(self).buf@ + chunk@,
                self.buf@ == s.take(old(self).buf@.len() + k),
                first_sentinel(self.buf@) is None,
                self.buf@.len() <= self.limit,
                self.limit == old(self).limit,
            decreases chunk@.len() - k,
        {
            let b = chunk[k];
            let ghost pre = self.buf@;
            proof {
                assert(s.take(old(self).buf@.len() + k + 1) =~= pre.push(b));
                lemma_first_sentinel_push(pre, b);
            }
            if b == SENTINEL {
                proof {
                    lemma_first_sentinel_prefix(s, old(self).buf@.len() + k + 1);
                    assert(s.take(pre.len() as int) =~= pre);
                }
                let msg = self.buf.clone();
                self.buf = Vec::new();
                if msg.len() <= self.limit {
                    return Feed::Complete(msg);
                } else {
                    return Feed::Oversized;
                }
            }
            self.buf.push(b);
            if self.buf.len() > self.limit {
                proof {
                    lemma_first_sentinel_prefix(s, old(self).buf@.len() + k + 1);
                    lemma_first_sentinel(s);
                    if first_sentinel(s) is Some {
                        let i = first_sentinel(s)->0;
                        assert(s.take(i).len() == i);
                    }
                }
                self.buf = Vec::new();
                return Feed::Oversized;
            }
            k += 1;
        }
        assert(s.take(s.len() as int) =~= s);
        Feed::Pending
    }
}

} // verus!
