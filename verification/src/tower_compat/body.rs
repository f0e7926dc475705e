//! The body converter.
//!
//! A body is a stream of byte chunks that ends cleanly or with an error. The
//! server runtime and the wrapped service each expect their own body type;
//! the converter re-tags a body for the other side without touching what it
//! yields: the same chunks with the same boundaries in the same order, and
//! the same end.

use std::collections::VecDeque;
use vstd::prelude::*;

verus! {

/// What a body yields from here on: its chunks in order, then the error it
/// ends with, or `None` where it ends cleanly.
pub struct Script<E> {
    pub chunks: Seq<Seq<u8>>,
    pub failure: Option<E>,
}

impl<E> Script<E> {
    /// Nothing is left: no chunk and no error.
    pub open spec fn is_done(self) -> bool {
        self.chunks.len() == 0 && self.failure is None
    }

    /// The item a consumer gets next: the first chunk, or the error once the
    /// chunks are out, or `None` at the end.
    pub open spec fn head(self) -> Option<Result<Seq<u8>, E>> {
        if self.chunks.len() > 0 {
            Some(Ok(self.chunks[0]))
        } else {
            match self.failure {
                Some(e) => Some(Err(e)),
                None => None,
            }
        }
    }

    /// What is left once the next item has been taken. The error is yielded
    /// once; after it the stream is over.
    pub open spec fn tail(self) -> Script<E> {
        if self.chunks.len() > 0 {
            Script { chunks: self.chunks.drop_first(), failure: self.failure }
        } else {
            Script { chunks: Seq::empty(), failure: None }
        }
    }

    /// How many items are left to take.
    pub open spec fn remaining(self) -> nat {
        self.chunks.len() + if self.failure is Some { 1nat } else { 0nat }
    }

    /// All bytes of the stream, chunk after chunk.
    pub open spec fn bytes(self) -> Seq<u8> {
        self.chunks.flatten()
    }
}

/// The view of an item as a consumer receives it.
pub open spec fn item_view<E>(item: Option<Result<Vec<u8>, E>>) -> Option<Result<Seq<u8>, E>> {
    match item {
        Some(Ok(chunk)) => Some(Ok(chunk@)),
        Some(Err(e)) => Some(Err(e)),
        None => None,
    }
}

/// The views of a list of chunks.
pub open spec fn chunk_views(chunks: Seq<Vec<u8>>) -> Seq<Seq<u8>> {
    Seq::new(chunks.len(), |i: int| chunks[i]@)
}

/// A body that produces byte chunks.
pub trait ByteStream {
    /// The error a stream of this type may end with.
    type Error;

    /// What the stream has yet to yield.
    spec fn script(&self) -> Script<Self::Error>;

    /// Takes the next item off the stream: a chunk, the stream's error, or
    /// `None` at the end.
    fn next_chunk(&mut self) -> (item: Option<Result<Vec<u8>, Self::Error>>)
        ensures
            item_view(item) == old(self).script().head(),
            final(self).script() == old(self).script().tail(),
    ;
}

/// A body held in memory: the chunks it will yield and the way it ends.
pub struct BufferedBody<E> {
    pending: VecDeque<Vec<u8>>,
    failure: Option<E>,
}

impl<E> BufferedBody<E> {
    /// A body without chunks that ends cleanly.
    pub fn empty() -> (body: Self)
        ensures
            body.script().is_done(),
    {
        let body = BufferedBody { pending: VecDeque::new(), failure: None };
        body
    }

    /// A body that yields `bytes` as its one chunk and ends cleanly.
    pub fn from_bytes(bytes: Vec<u8>) -> (body: Self)
        ensures
            body.script() == (Script::<E> { chunks: seq![bytes@], failure: None }),
    {
        let mut pending: VecDeque<Vec<u8>> = VecDeque::new();
        pending.push_back(bytes);
        let body = BufferedBody { pending, failure: None };
        assert(chunk_views(body.pending@) =~= seq![bytes@]);
        body
    }

    /// A body that yields `chunks` in order and then ends with `failure`, or
    /// cleanly where there is none.
    pub fn new(chunks: Vec<Vec<u8>>, failure: Option<E>) -> (body: Self)
        ensures
            body.script() == (Script { chunks: chunk_views(chunks@), failure }),
    {
        let ghost all = chunks@;
        let mut chunks = chunks;
        let mut pending: VecDeque<Vec<u8>> = VecDeque::new();
        while chunks.len() > 0
            invariant
                chunks@ + pending@ == all,
            decreases chunks.len(),
        {
            let chunk = chunks.pop().unwrap();
            pending.push_front(chunk);
        }
        BufferedBody { pending, failure }
    }

    /// Adds a chunk behind those already queued.
    pub fn push_chunk(&mut self, chunk: Vec<u8>)
        ensures
            final(self).script() == (Script {
                chunks: old(self).script().chunks.push(chunk@),
                failure: old(self).script().failure,
            }),
    {
        self.pending.push_back(chunk);
        assert(chunk_views(self.pending@) =~= chunk_views(old(self).pending@).push(chunk@));
    }

    /// Makes the body end with `error` once its chunks are out.
    pub fn fail_with(&mut self, error: E)
        ensures
            final(self).script() == (Script {
                chunks: old(self).script().chunks,
                failure: Some(error),
            }),
    {
        self.failure = Some(error);
    }
}

impl<E> ByteStream for BufferedBody<E> {
    type Error = E;

    closed spec fn script(&self) -> Script<E> {
        Script { chunks: chunk_views(self.pending@), failure: self.failure }
    }

    fn next_chunk(&mut self) -> (item: Option<Result<Vec<u8>, E>>) {
        match self.pending.pop_front() {
            Some(chunk) => {
                assert(chunk_views(self.pending@) =~= chunk_views(old(self).pending@).drop_first());
                Some(Ok(chunk))
            },
            None => {
                assert(chunk_views(self.pending@) =~= Seq::<Seq<u8>>::empty());
                match self.failure.take() {
                    Some(e) => Some(Err(e)),
                    None => None,
                }
            },
        }
    }
}

/// A server-side body re-tagged for the wrapped service, together with the
/// context that travels with it.
pub struct CompatReqBody<B, C> {
    pub body: B,
    pub ctx: C,
}

impl<B, C> CompatReqBody<B, C> {
    /// Re-tags `body` for the wrapped service and attaches `ctx` to it.
    pub fn new(body: B, ctx: C) -> (compat: Self)
        ensures
            compat.body == body,
            compat.ctx == ctx,
    {
        CompatReqBody { body, ctx }
    }

    /// Gives back the body and the context that `new` was given.
    pub fn into_parts(self) -> (parts: (B, C))
        ensures
            parts.0 == self.body,
            parts.1 == self.ctx,
    {
        (self.body, self.ctx)
    }
}

impl<B: ByteStream, C> ByteStream for CompatReqBody<B, C> {
    type Error = B::Error;

    open spec fn script(&self) -> Script<B::Error> {
        self.body.script()
    }

    fn next_chunk(&mut self) -> (item: Option<Result<Vec<u8>, B::Error>>) {
        self.body.next_chunk()
    }
}

/// A body from the wrapped service re-tagged for the server runtime.
pub struct CompatResBody<B> {
    pub body: B,
}

impl<B> CompatResBody<B> {
    /// Re-tags `body` for the server runtime.
    pub fn new(body: B) -> (compat: Self)
        ensures
            compat.body == body,
    {
        CompatResBody { body }
    }

    /// Gives back the body that `new` was given.
    pub fn into_inner(self) -> (body: B)
        ensures
            body == self.body,
    {
        self.body
    }
}

impl<B: ByteStream> ByteStream for CompatResBody<B> {
    type Error = B::Error;

    open spec fn script(&self) -> Script<B::Error> {
        self.body.script()
    }

    fn next_chunk(&mut self) -> (item: Option<Result<Vec<u8>, B::Error>>) {
        self.body.next_chunk()
    }
}

/// All that a body yielded: its chunks, boundaries kept, and the error it
/// ended with, if any.
pub struct Drained<E> {
    pub chunks: Vec<Vec<u8>>,
    pub failure: Option<E>,
}

impl<E> Drained<E> {
    /// The bytes of all chunks, one after the other.
    pub fn bytes(&self) -> (out: Vec<u8>)
        ensures
            out@ == chunk_views(self.chunks@).flatten(),
    {
        let mut out: Vec<u8> = Vec::new();
        let mut i: usize = 0;
        while i < self.chunks.len()
            invariant
                i <= self.chunks.len(),
                out@ == chunk_views(self.chunks@).take(i as int).flatten(),
            decreases self.chunks.len() - i,
        {
            let ghost views = chunk_views(self.chunks@);
            out.extend_from_slice(self.chunks[i].as_slice());
            proof {
                assert(views.take(i + 1) =~= views.take(i as int).push(views[i as int]));
                views.take(i as int).lemma_flatten_push(views[i as int]);
            }
            i += 1;
        }
        assert(chunk_views(self.chunks@).take(i as int) =~= chunk_views(self.chunks@));
        out
    }
}

/// Takes every item off `body`, in order, until it ends.
pub fn drain<B: ByteStream>(body: &mut B) -> (out: Drained<B::Error>)
    ensures
        chunk_views(out.chunks@) == old(body).script().chunks,
        out.failure == old(body).script().failure,
        final(body).script().is_done(),
{
    let ghost start = body.script();
    let mut chunks: Vec<Vec<u8>> = Vec::new();
    let mut failure: Option<B::Error> = None;
    loop
        invariant_except_break
            failure is None,
            chunk_views(chunks@) + body.script().chunks == start.chunks,
            body.script().failure == start.failure,
        ensures
            chunk_views(chunks@) == start.chunks,
            failure == start.failure,
            body.script().is_done(),
        decreases body.script().remaining(),
    {
        match body.next_chunk() {
            Some(Ok(chunk)) => {
                chunks.push(chunk);
            },
            Some(Err(e)) => {
                failure = Some(e);
                break;
            },
            None => {
                break;
            },
        }
    }
    Drained { chunks, failure }
}

/// Converter round trip: a body re-tagged for the wrapped service and then
/// back for the server runtime yields what the body itself yields, chunk for
/// chunk and with the same end, whatever context was attached; and taking
/// the wrappers off again gives the body and the context back.
pub proof fn lemma_convert_round_trip<B: ByteStream, C>(body: B, ctx: C)
    ensures
        (CompatResBody { body: CompatReqBody { body, ctx } }).script() == body.script(),
        (CompatResBody { body: CompatReqBody { body, ctx } }).script().bytes() == body.script().bytes(),
        (CompatResBody { body: CompatReqBody { body, ctx } }).body.body == body,
        (CompatResBody { body: CompatReqBody { body, ctx } }).body.ctx == ctx,
{
}

} // verus!
