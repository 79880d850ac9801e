//! Request and response bodies, the synchronous reader over a body, and the
//! adapter that turns a blocking reader into a stream of chunks.

use hyper::body::HttpBody;
use hyper::Body as HyperBody;
use std::io::Read;
use crate::poll_record::PollRecord;
use std::task::Context;
use vstd::prelude::*;

verus! {

#[verifier::external_type_specification]
#[verifier::external_body]
pub struct ExHyperBody(HyperBody);

#[verifier::external_type_specification]
#[verifier::external_body]
pub struct ExContext<'a>(Context<'a>);

/// What polling a body for its next chunk gave.
#[derive(Debug)]
pub enum ChunkPoll {
    /// No chunk is there yet; the context's waker is woken when one comes.
    Pending,
    /// The next chunk, a failure of the body, or `None` at its end.
    Ready(Option<std::io::Result<Vec<u8>>>),
}

/// The chunks that a hyper body still holds, in the order in which its data
/// future hands them out. It is what the trusted items below state of bodies
/// that keep their data in memory; of other bodies they state nothing.
pub uninterp spec fn hyper_body_chunks(body: HyperBody) -> Seq<Seq<u8>>;

/// Whether a hyper body keeps its data in memory (hyper's `Kind::Once`), as
/// the bodies built from a buffer and the empty body do.
pub uninterp spec fn hyper_body_in_memory(body: HyperBody) -> bool;

/// `hyper::Body::from(Bytes)` on a copy of `data`: hyper's source builds the
/// in-memory body that holds `data` as its one chunk, and for empty data the
/// empty in-memory body (`Body::empty()`).
#[verifier::external_body]
fn hyper_body_from_bytes(data: &[u8]) -> (body: HyperBody)
    ensures
        hyper_body_in_memory(body),
        hyper_body_chunks(body) == (if data@.len() == 0 {
            Seq::<Seq<u8>>::empty()
        } else {
            seq![data@]
        }),
{
    HyperBody::from(hyper::body::Bytes::copy_from_slice(data))
}

/// `hyper::Body::empty()`: the in-memory body without data.
#[verifier::external_body]
fn hyper_body_empty() -> (body: HyperBody)
    ensures
        hyper_body_in_memory(body),
        hyper_body_chunks(body) == Seq::<Seq<u8>>::empty(),
{
    HyperBody::empty()
}

/// Polls a body for its next chunk: `HttpBody::poll_data` with the task
/// context `cx`, a hyper error turned into an I/O error of kind `Other`. For
/// an in-memory body hyper's source is ready at once: it takes the chunk it
/// holds (`Option::take`) and leaves the body in memory. Of other bodies
/// (data arriving from a connection or a stream) nothing is stated: whether
/// a chunk is there, and what it holds, comes from outside. The result is
/// recorded in `record`, which nothing else sets.
#[verifier::external_body]
fn hyper_body_poll_chunk(body: &mut HyperBody, record: &mut PollRecord, cx: &mut Context) -> (r:
    ChunkPoll)
    ensures
        final(record).last() == Some(r),
        hyper_body_in_memory(*final(body)) == hyper_body_in_memory(*old(body)),
        hyper_body_in_memory(*old(body)) ==> if hyper_body_chunks(*old(body)).len() == 0 {
            &&& r == ChunkPoll::Ready(None)
            &&& hyper_body_chunks(*final(body)) == hyper_body_chunks(*old(body))
        } else {
            &&& r matches ChunkPoll::Ready(Some(Ok(v))) && v@ == hyper_body_chunks(*old(body))[0]
            &&& hyper_body_chunks(*final(body)) == hyper_body_chunks(*old(body)).drop_first()
        },
{
    match std::pin::Pin::new(body).poll_data(cx) {
        std::task::Poll::Pending => ChunkPoll::Pending,
        std::task::Poll::Ready(None) => ChunkPoll::Ready(None),
        std::task::Poll::Ready(Some(Ok(bytes))) => ChunkPoll::Ready(Some(Ok(bytes.to_vec()))),
        std::task::Poll::Ready(Some(Err(e))) => ChunkPoll::Ready(
            Some(Err(std::io::Error::new(std::io::ErrorKind::Other, e))),
        ),
    }
}

/// `hyper::Body::wrap_stream` over the stream whose every poll is ready with
/// `ReaderStream::next_chunk`: hyper's source builds a streaming body
/// (`Kind::Wrapped`), which does not keep its data in memory. What the stream
/// yields comes from the reader and is not stated here.
#[verifier::external_body]
fn hyper_body_from_reader<R: std::io::Read + Send + 'static>(stream: ReaderStream<R>) -> (body:
    HyperBody)
    ensures
        !hyper_body_in_memory(body),
{
    let mut stream = stream;
    HyperBody::wrap_stream(
        futures::stream::poll_fn(move |_cx| std::task::Poll::Ready(stream.next_chunk())),
    )
}

/// `Read::read` of a reader into the whole of `buf`. The standard library
/// documents that a read of `Ok(n)` has `n <= buf.len()`; the buffer keeps its
/// length. What the reader writes into `buf` is not stated.
#[verifier::external_body]
fn read_into<R: std::io::Read>(reader: &mut R, buf: &mut Vec<u8>) -> (r: std::io::Result<usize>)
    ensures
        final(buf)@.len() == old(buf)@.len(),
        r matches Ok(n) ==> n <= old(buf)@.len(),
{
    reader.read(buf.as_mut_slice())
}

/// A streaming HTTP body, used for both requests and responses.
///
/// A body holds its data in memory (made with [`Body::new`] or
/// [`Body::empty`]) or streams it from a connection or a reader.
#[derive(Debug)]
pub struct Body(pub HyperBody);

impl Body {
    /// Whether the body keeps its data in memory.
    pub open spec fn in_memory(&self) -> bool {
        hyper_body_in_memory(self.0)
    }

    /// The chunks that the body still holds, in order (known for in-memory
    /// bodies).
    pub open spec fn chunks(&self) -> Seq<Seq<u8>> {
        hyper_body_chunks(self.0)
    }

    /// The bytes that the body still holds, all chunks in order.
    pub open spec fn content(&self) -> Seq<u8> {
        self.chunks().flatten()
    }

    /// No chunk that the body still holds is empty.
    pub open spec fn chunks_nonempty(&self) -> bool {
        forall|i: int| 0 <= i < self.chunks().len() ==> #[trigger] self.chunks()[i].len() > 0
    }

    /// Creates a body that holds `data`: one chunk, or none when `data` is
    /// empty.
    pub fn new(data: &[u8]) -> (body: Body)
        ensures
            body.in_memory(),
            body.chunks() == (if data@.len() == 0 {
                Seq::<Seq<u8>>::empty()
            } else {
                seq![data@]
            }),
            body.content() == data@,
            body.chunks_nonempty(),
    {
        let body = Body(hyper_body_from_bytes(data));
        proof {
            if data@.len() != 0 {
                assert(seq![data@].drop_first() =~= Seq::<Seq<u8>>::empty());
                assert(seq![data@].flatten() =~= data@ + Seq::<Seq<u8>>::empty().flatten());
            }
        }
        body
    }

    /// Creates an empty body.
    pub fn empty() -> (body: Body)
        ensures
            body.in_memory(),
            body.chunks() == Seq::<Seq<u8>>::empty(),
            body.content() == Seq::<u8>::empty(),
            body.chunks_nonempty(),
    {
        Body(hyper_body_empty())
    }

    /// Creates a body that streams what `reader` yields, in chunks of at most
    /// [`CAP`] bytes.
    pub fn wrap_reader<R: std::io::Read + Send + 'static>(reader: R) -> (body: Body)
        ensures
            !body.in_memory(),
    {
        Body(hyper_body_from_reader(ReaderStream::new(reader)))
    }

    /// Creates a reader over the body that hands out its bytes through
    /// [`BodyReader::read_step`].
    pub fn reader(&mut self) -> (reader: BodyReader<'_>)
        ensures
            *reader.body == *old(self),
            reader.prev_bytes@ == Seq::<u8>::empty(),
            reader.polls.last() is None,
            *final(self) == *final(reader.body),
    {
        BodyReader { body: self, prev_bytes: Vec::new(), polls: PollRecord::new() }
    }

    /// Polls the body for its next chunk with the task context `cx`. An
    /// in-memory body is ready at once: it hands out its chunks in order and
    /// then `None`.
    pub fn poll_chunk(&mut self, cx: &mut Context) -> (r: ChunkPoll)
        ensures
            final(self).in_memory() == old(self).in_memory(),
            old(self).in_memory() ==> if old(self).chunks().len() == 0 {
                &&& r == ChunkPoll::Ready(None)
                &&& final(self).chunks() == old(self).chunks()
            } else {
                &&& r matches ChunkPoll::Ready(Some(Ok(v))) && v@ == old(self).chunks()[0]
                &&& final(self).chunks() == old(self).chunks().drop_first()
            },
    {
        let mut record = PollRecord::new();
        self.poll_recorded(&mut record, cx)
    }

    /// Polls the body as [`Body::poll_chunk`] does, and records the result
    /// in `record`.
    pub fn poll_recorded(&mut self, record: &mut PollRecord, cx: &mut Context) -> (r: ChunkPoll)
        ensures
            final(self).in_memory() == old(self).in_memory(),
            old(self).in_memory() ==> if old(self).chunks().len() == 0 {
                &&& r == ChunkPoll::Ready(None)
                &&& final(self).chunks() == old(self).chunks()
            } else {
                &&& r matches ChunkPoll::Ready(Some(Ok(v))) && v@ == old(self).chunks()[0]
                &&& final(self).chunks() == old(self).chunks().drop_first()
            },
            final(record).last() == Some(r),
    {
        hyper_body_poll_chunk(&mut self.0, record, cx)
    }
}

impl Default for Body {
    /// The empty body.
    fn default() -> (body: Body)
        ensures
            body.in_memory(),
            body.chunks() == Seq::<Seq<u8>>::empty(),
    {
        Body::empty()
    }
}

/// What one step of a [`BodyReader`] did.
pub enum ReadStep {
    /// This many bytes were written to the front of the buffer; `Read(0)`
    /// into a non-empty buffer means that the body has ended.
    Read(usize),
    /// An empty chunk arrived from the body; nothing was written. Reading
    /// goes on with another step.
    Retry,
    /// The body failed.
    Failed(std::io::Error),
    /// No chunk has arrived from the body yet; nothing was written. The
    /// context's waker is woken when one comes.
    Pending,
}

/// The smaller of `a` and `b`.
pub open spec fn min_len(a: int, b: int) -> int {
    if a <= b {
        a
    } else {
        b
    }
}

/// What a reader with no kept bytes does with `got`, the item that its body
/// handed out, when reading into a buffer that held `buf`: `step` is the
/// result, `after` what the buffer holds afterwards and `kept` the bytes
/// that the reader keeps.
///
/// The end of the body reads as `Read(0)` and a failure as `Failed` with
/// the body's error, an empty chunk as `Retry`; each leaves the buffer as it
/// was and keeps nothing. Of a chunk that is not empty, as much as fits goes
/// to the front of the buffer and the rest is kept.
pub open spec fn takes_chunk(
    buf: Seq<u8>,
    got: Option<std::io::Result<Vec<u8>>>,
    step: ReadStep,
    after: Seq<u8>,
    kept: Seq<u8>,
) -> bool {
    match got {
        None => step == ReadStep::Read(0) && after == buf && kept.len() == 0,
        Some(Err(e)) => step == ReadStep::Failed(e) && after == buf && kept.len() == 0,
        Some(Ok(chunk)) => if chunk@.len() == 0 {
            step == ReadStep::Retry && after == buf && kept.len() == 0
        } else {
            let k = min_len(buf.len() as int, chunk@.len() as int);
            &&& step == ReadStep::Read(k as usize)
            &&& after == chunk@.take(k) + buf.skip(k)
            &&& kept == chunk@.skip(k)
        },
    }
}

/// Reading into a non-empty buffer with nothing kept reports the end
/// (`Read(0)`) exactly when the body handed out its end; it never reports
/// `Pending` for an item that arrived; it asks for another step (`Retry`)
/// exactly on an empty chunk; and a chunk with data always gives at least
/// one byte, the chunk's first bytes, with the rest kept.
pub proof fn read_zero_only_at_end(
    buf: Seq<u8>,
    got: Option<std::io::Result<Vec<u8>>>,
    step: ReadStep,
    after: Seq<u8>,
    kept: Seq<u8>,
)
    requires
        0 < buf.len() <= usize::MAX,
        takes_chunk(buf, got, step, after, kept),
    ensures
        step == ReadStep::Read(0) <==> got is None,
        !(step is Pending),
        step is Retry <==> (got matches Some(Ok(c)) && c@.len() == 0),
        got matches Some(Ok(c)) ==> c@.len() > 0 ==> {
            &&& step matches ReadStep::Read(k) && 0 < k <= buf.len() && k <= c@.len()
            &&& after.subrange(0, step->Read_0 as int) == c@.subrange(0, step->Read_0 as int)
            &&& after.skip(step->Read_0 as int) == buf.skip(step->Read_0 as int)
            &&& c@.subrange(0, step->Read_0 as int) + kept == c@
        },
{
    if let Some(Ok(c)) = got {
        if c@.len() > 0 {
            let k = min_len(buf.len() as int, c@.len() as int);
            assert(step == ReadStep::Read(k as usize));
            assert(after.subrange(0, k) =~= c@.subrange(0, k));
            assert(after.skip(k) =~= buf.skip(k));
            assert(c@.subrange(0, k) + kept =~= c@);
        }
    }
}

/// A synchronous reader over a [`Body`].
///
/// It keeps the rest of the chunk that a buffer could not take in
/// `prev_bytes` and hands it out before it asks the body for more.
pub struct BodyReader<'b> {
    /// The body being read.
    pub body: &'b mut Body,
    /// The bytes of the last chunk that were not handed out yet.
    pub prev_bytes: Vec<u8>,
    /// What the reader's last poll of the body gave.
    pub polls: PollRecord,
}

impl<'b> BodyReader<'b> {
    /// All the bytes that the reader has still to hand out, as far as the
    /// body holds them: the kept bytes, then the body's content.
    pub open spec fn pending(&self) -> Seq<u8> {
        self.prev_bytes@ + (*self.body).content()
    }

    /// The bytes that the next step can hand out: the kept bytes, or else
    /// the body's next chunk.
    pub open spec fn segment(&self) -> Seq<u8> {
        if self.prev_bytes@.len() > 0 {
            self.prev_bytes@
        } else if (*self.body).chunks().len() > 0 {
            (*self.body).chunks()[0]
        } else {
            Seq::<u8>::empty()
        }
    }

    /// Copies the first `n` kept bytes to `buf[at..at + n]` and drops them.
    fn hand_out(&mut self, buf: &mut [u8], at: usize, n: usize)
        requires
            n <= old(self).prev_bytes@.len(),
            at + n <= old(buf)@.len(),
        ensures
            final(buf)@ == old(buf)@.subrange(0, at as int) + old(self).prev_bytes@.take(n as int)
                + old(buf)@.skip(at + n),
            final(self).prev_bytes@ == old(self).prev_bytes@.skip(n as int),
            final(self).polls == old(self).polls,
            *final(self).body == *old(self).body,
            *final(final(self).body) == *final(old(self).body),
    {
        let len = buf.len();
        let mut i: usize = 0;
        while i < n
            invariant
                i <= n,
                len == buf@.len(),
                n <= self.prev_bytes@.len(),
                at + n <= buf@.len(),
                self.prev_bytes@ == old(self).prev_bytes@,
                *self.body == *old(self).body,
                *final(self.body) == *final(old(self).body),
                buf@.len() == old(buf)@.len(),
                forall|j: int| 0 <= j < at ==> buf@[j] == old(buf)@[j],
                forall|j: int| at + n <= j < buf@.len() ==> buf@[j] == old(buf)@[j],
                forall|j: int| 0 <= j < i ==> buf@[at + j] == self.prev_bytes@[j],
            decreases n - i,
        {
            buf[at + i] = self.prev_bytes[i];
            i = i + 1;
        }
        let rest = self.prev_bytes.split_off(n);
        self.prev_bytes = rest;
        assert(buf@ =~= old(buf)@.subrange(0, at as int) + old(self).prev_bytes@.take(n as int)
            + old(buf)@.skip(at + n));
    }

    /// Takes `got`, the item that the body handed out, into a reader that
    /// keeps no bytes, reading into the non-empty `buf`, as `takes_chunk`
    /// says.
    pub fn accept_chunk(&mut self, buf: &mut [u8], got: Option<std::io::Result<Vec<u8>>>) -> (step:
        ReadStep)
        requires
            old(self).prev_bytes@.len() == 0,
            old(buf)@.len() > 0,
        ensures
            takes_chunk(old(buf)@, got, step, final(buf)@, final(self).prev_bytes@),
            final(self).polls == old(self).polls,
            *final(self).body == *old(self).body,
            *final(final(self).body) == *final(old(self).body),
    {
        match got {
            None => ReadStep::Read(0),
            Some(Err(e)) => ReadStep::Failed(e),
            Some(Ok(chunk)) => {
                if chunk.len() == 0 {
                    return ReadStep::Retry;
                }
                self.prev_bytes = chunk;
                let len = buf.len();
                let n = if len <= self.prev_bytes.len() {
                    len
                } else {
                    self.prev_bytes.len()
                };
                self.hand_out(buf, 0, n);
                ReadStep::Read(n)
            },
        }
    }

    /// One step of reading into `buf`, polling the body with the task
    /// context `cx` where it needs a chunk.
    ///
    /// An empty buffer takes nothing. Otherwise the step hands out the kept
    /// bytes, as many as fit; with none kept it polls the body for its next
    /// item and takes it as [`BodyReader::accept_chunk`] does, or returns
    /// `Pending` where none has arrived yet. Only the front of `buf` is
    /// written.
    pub fn read_step(&mut self, buf: &mut [u8], cx: &mut Context) -> (step: ReadStep)
        ensures
            *final(final(self).body) == *final(old(self).body),
            final(buf)@.len() == old(buf)@.len(),
            old(buf)@.len() == 0 ==> {
                &&& step == ReadStep::Read(0)
                &&& final(self).prev_bytes@ == old(self).prev_bytes@
                &&& *final(self).body == *old(self).body
            },
            old(buf)@.len() > 0 && old(self).prev_bytes@.len() > 0 ==> {
                let k = min_len(old(buf)@.len() as int, old(self).prev_bytes@.len() as int);
                &&& step == ReadStep::Read(k as usize)
                &&& final(buf)@ == old(self).prev_bytes@.take(k) + old(buf)@.skip(k)
                &&& final(self).prev_bytes@ == old(self).prev_bytes@.skip(k)
                &&& *final(self).body == *old(self).body
            },
            old(buf)@.len() > 0 && old(self).prev_bytes@.len() == 0 ==> {
                &&& final(self).body.in_memory() == old(self).body.in_memory()
                &&& step is Pending ==> final(buf)@ == old(buf)@ && final(self).prev_bytes@.len()
                    == 0
                &&& !(step is Pending) ==> exists|got: Option<std::io::Result<Vec<u8>>>|
                    #[trigger] takes_chunk(
                        old(buf)@,
                        got,
                        step,
                        final(buf)@,
                        final(self).prev_bytes@,
                    )
                &&& final(self).polls.last() is Some
                &&& final(self).polls.last() == Some(ChunkPoll::Pending) ==> step is Pending
                &&& final(self).polls.last() matches Some(ChunkPoll::Ready(got)) ==> takes_chunk(
                    old(buf)@,
                    got,
                    step,
                    final(buf)@,
                    final(self).prev_bytes@,
                )
            },
            old(buf)@.len() == 0 || old(self).prev_bytes@.len() > 0 ==> final(self).polls.last()
                == old(self).polls.last(),
            old(buf)@.len() > 0 && old(self).body.in_memory() && old(self).body.chunks_nonempty()
                ==> {
                let seg = old(self).segment();
                let k = min_len(old(buf)@.len() as int, seg.len() as int);
                &&& step == ReadStep::Read(k as usize)
                &&& final(buf)@ == seg.take(k) + old(buf)@.skip(k)
                &&& final(buf)@.take(k) == old(self).pending().take(k)
                &&& final(self).prev_bytes@ == seg.skip(k)
                &&& final(self).pending() == old(self).pending().skip(k)
                &&& final(self).body.chunks() == (if old(self).prev_bytes@.len() == 0
                    && old(self).body.chunks().len() > 0 {
                    old(self).body.chunks().drop_first()
                } else {
                    old(self).body.chunks()
                })
                &&& final(self).body.in_memory()
                &&& final(self).body.chunks_nonempty()
            },
    {
        let len = buf.len();
        if len == 0 {
            return ReadStep::Read(0);
        }
        if self.prev_bytes.len() > 0 {
            let ghost pending0 = self.pending();
            let n = if len <= self.prev_bytes.len() {
                len
            } else {
                self.prev_bytes.len()
            };
            self.hand_out(buf, 0, n);
            proof {
                assert(self.pending() =~= pending0.skip(n as int));
                assert(buf@.take(n as int) =~= pending0.take(n as int));
                assert(buf@ =~= old(self).prev_bytes@.take(n as int) + old(buf)@.skip(n as int));
            }
            return ReadStep::Read(n);
        }
        let ghost body0 = *self.body;
        match self.body.poll_recorded(&mut self.polls, cx) {
            ChunkPoll::Pending => ReadStep::Pending,
            ChunkPoll::Ready(got) => {
                let ghost g = got;
                let step = self.accept_chunk(buf, got);
                proof {
                    assert(takes_chunk(old(buf)@, g, step, buf@, self.prev_bytes@));
                    let cs = body0.chunks();
                    if body0.in_memory() && cs.len() > 0 {
                        assert(cs.flatten() == cs.first() + cs.drop_first().flatten());
                        if body0.chunks_nonempty() {
                            assert(cs[0].len() > 0);
                            let b1 = *self.body;
                            assert forall|i: int| 0 <= i < b1.chunks().len() implies #[trigger] b1.chunks()[i].len() > 0 by {
                                assert(b1.chunks()[i] == cs[i + 1]);
                            }
                            let k = min_len(len as int, cs[0].len() as int);
                            assert(buf@.take(k) =~= cs[0].take(k));
                            assert(old(self).pending() =~= cs.flatten());
                            assert(self.pending() =~= cs[0].skip(k) + b1.content());
                            assert(self.pending() =~= old(self).pending().skip(k));
                            assert(old(self).pending().take(k) =~= cs[0].take(k));
                        }
                    }
                }
                step
            },
        }
    }
}

/// Reading back a body built from `data`: a reader that has just been made
/// over it has exactly `data` pending, and all of it in the segment that its
/// next step hands out. As every step of [`BodyReader::read_step`] on an
/// in-memory body hands out the front of what is pending and keeps the
/// rest, the steps hand out `data`, in order, and then the end of the body.
pub proof fn new_body_reads_back<'b>(data: Seq<u8>, reader: BodyReader<'b>)
    requires
        reader.prev_bytes@ == Seq::<u8>::empty(),
        (*reader.body).in_memory(),
        (*reader.body).chunks() == (if data.len() == 0 {
            Seq::<Seq<u8>>::empty()
        } else {
            seq![data]
        }),
    ensures
        reader.pending() == data,
        reader.segment() == data,
{
    let cs = (*reader.body).chunks();
    if data.len() != 0 {
        assert(cs.drop_first() =~= Seq::<Seq<u8>>::empty());
        assert(cs.flatten() == cs.first() + cs.drop_first().flatten());
    }
    assert(reader.pending() =~= data);
}

/// Reading an in-memory body: the segment that a step hands out is the
/// front of everything pending, and it is empty only when nothing at all is
/// pending. So, with [`BodyReader::read_step`], each read of a non-empty
/// buffer of length `L` hands out the next `min(L, |segment|)` pending bytes
/// in order, and a read gives 0 bytes exactly when the body's data has all
/// been handed out.
pub proof fn in_memory_reads_end_only_at_end<'b>(reader: BodyReader<'b>)
    requires
        (*reader.body).in_memory(),
        (*reader.body).chunks_nonempty(),
    ensures
        reader.segment().len() == 0 <==> reader.pending().len() == 0,
        reader.pending().take(reader.segment().len() as int) == reader.segment(),
{
    let cs = (*reader.body).chunks();
    if reader.prev_bytes@.len() == 0 && cs.len() > 0 {
        assert(cs.flatten() == cs.first() + cs.drop_first().flatten());
        assert(cs[0].len() > 0);
        assert(reader.pending() =~= cs.flatten());
        assert(reader.pending().take(cs[0].len() as int) =~= cs[0]);
    } else if reader.prev_bytes@.len() > 0 {
        assert(reader.pending().take(reader.prev_bytes@.len() as int) =~= reader.prev_bytes@);
    } else {
        assert(cs =~= Seq::<Seq<u8>>::empty());
        assert(reader.pending() =~= Seq::<u8>::empty());
    }
}

/// The size of the chunks that [`ReaderStream`] reads.
pub const CAP: usize = 4096;

/// An adapter that reads a blocking reader in chunks of at most [`CAP`]
/// bytes.
///
/// It reads into the unused tail of its buffer and hands out what was read,
/// keeping the rest of the buffer for the next read; an empty buffer is
/// refilled with [`CAP`] zeros. The first error or end of input drops the
/// reader, and from then on the stream has ended.
pub struct ReaderStream<R> {
    reader: Option<R>,
    buf: Vec<u8>,
}

/// What a [`ReaderStream`] does after a read into a buffer that then held
/// `read` returned `outcome`: `r` is what it hands out, `has_reader` whether
/// it goes on and `buffer` the buffer that it keeps for the next read.
///
/// An error or a read of 0 bytes ends the stream (the error is handed out,
/// the end is `None`) and keeps the buffer; a read of `n` bytes hands out the
/// first `n` bytes of the buffer and keeps the rest of it.
pub open spec fn read_result(
    read: Seq<u8>,
    outcome: std::io::Result<usize>,
    r: Option<std::io::Result<Vec<u8>>>,
    has_reader: bool,
    buffer: Seq<u8>,
) -> bool {
    match outcome {
        Err(e) => {
            &&& r matches Some(Err(e2)) && e2 == e
            &&& !has_reader
            &&& buffer == read
        },
        Ok(n) => if n == 0 {
            &&& r is None
            &&& !has_reader
            &&& buffer == read
        } else {
            &&& r matches Some(Ok(chunk)) && chunk@ == read.take(n as int)
            &&& has_reader
            &&& buffer == read.skip(n as int)
        },
    }
}

/// A stream ends only on an error or a read of 0 bytes; after every read
/// that gave data, however short, it keeps its reader.
pub proof fn stream_ends_only_at_eof_or_error(
    read: Seq<u8>,
    outcome: std::io::Result<usize>,
    r: Option<std::io::Result<Vec<u8>>>,
    has_reader: bool,
    buffer: Seq<u8>,
)
    requires
        read_result(read, outcome, r, has_reader, buffer),
    ensures
        !has_reader <==> (outcome is Err || outcome == Ok::<usize, std::io::Error>(0)),
{
}

/// A read of `n > 0` bytes, however short, hands out exactly those `n`
/// bytes and keeps the rest of the buffer: the chunk followed by the kept
/// buffer is the whole buffer that was read into.
pub proof fn short_read_hands_out_what_was_read(
    read: Seq<u8>,
    n: usize,
    r: Option<std::io::Result<Vec<u8>>>,
    has_reader: bool,
    buffer: Seq<u8>,
)
    requires
        0 < n <= read.len(),
        read_result(read, Ok(n), r, has_reader, buffer),
    ensures
        has_reader,
        r matches Some(Ok(chunk)) && chunk@.len() == n && chunk@ + buffer == read,
{
    if let Some(Ok(chunk)) = r {
        assert(chunk@ + buffer =~= read);
    }
}

impl<R> ReaderStream<R> {
    /// The reader that the stream reads, or `None` once it has ended.
    pub closed spec fn reader(&self) -> Option<R> {
        self.reader
    }

    /// Whether the stream still holds its reader (it has not ended).
    pub open spec fn has_reader(&self) -> bool {
        self.reader() is Some
    }

    /// The buffer that the stream keeps.
    pub closed spec fn buffer(&self) -> Seq<u8> {
        self.buf@
    }

    /// The buffer that the next read is handed: the kept buffer, or [`CAP`]
    /// zeros where it is empty.
    pub open spec fn read_buffer(&self) -> Seq<u8> {
        if self.buffer().len() == 0 {
            Seq::new(CAP as nat, |i: int| 0u8)
        } else {
            self.buffer()
        }
    }

    /// Creates a stream over `reader` with a zeroed buffer of [`CAP`] bytes.
    pub fn new(reader: R) -> (stream: Self)
        ensures
            stream.reader() == Some(reader),
            stream.buffer() == Seq::new(CAP as nat, |i: int| 0u8),
    {
        let mut buf: Vec<u8> = Vec::new();
        let mut i: usize = 0;
        while i < CAP
            invariant
                i <= CAP,
                buf@ == Seq::new(i as nat, |j: int| 0u8),
            decreases CAP - i,
        {
            buf.push(0u8);
            i = i + 1;
            assert(buf@ =~= Seq::new(i as nat, |j: int| 0u8));
        }
        ReaderStream { reader: Some(reader), buf }
    }

    /// Goes on after a read into the buffer that returned `outcome`, as
    /// `read_result` says; the reader stays the same while the stream goes
    /// on.
    pub fn after_read(&mut self, outcome: std::io::Result<usize>) -> (r: Option<
        std::io::Result<Vec<u8>>,
    >)
        requires
            old(self).has_reader(),
            outcome matches Ok(n) ==> n <= old(self).buffer().len(),
        ensures
            read_result(old(self).buffer(), outcome, r, final(self).has_reader(), final(self).buffer()),
            final(self).has_reader() ==> final(self).reader() == old(self).reader(),
    {
        match outcome {
            Err(e) => {
                self.reader = None;
                Some(Err(e))
            },
            Ok(n) => {
                if n == 0 {
                    self.reader = None;
                    None
                } else {
                    let mut chunk = self.buf.split_off(n);
                    std::mem::swap(&mut self.buf, &mut chunk);
                    Some(Ok(chunk))
                }
            },
        }
    }
}

impl<R: std::io::Read> ReaderStream<R> {
    /// Reads the next chunk from the reader.
    ///
    /// A stream that has ended stays ended and yields `None`. Otherwise an
    /// empty buffer is refilled with [`CAP`] zeros, the reader reads into
    /// the buffer (`read_buffer`), and [`ReaderStream::after_read`] goes on
    /// from the outcome. What the reader writes, and how much it reads, comes
    /// from the reader: the contract states the result for every outcome.
    pub fn next_chunk(&mut self) -> (r: Option<std::io::Result<Vec<u8>>>)
        ensures
            !old(self).has_reader() ==> r is None && *final(self) == *old(self),
            old(self).has_reader() ==> exists|read: Seq<u8>, outcome: std::io::Result<usize>|
                {
                    &&& read.len() == old(self).read_buffer().len()
                    &&& outcome matches Ok(n) ==> n <= read.len()
                    &&& #[trigger] read_result(
                        read,
                        outcome,
                        r,
                        final(self).has_reader(),
                        final(self).buffer(),
                    )
                },
    {
        if self.reader.is_none() {
            return None;
        }
        if self.buf.len() == 0 {
            let zeros: [u8; CAP] = [0u8; CAP];
            self.buf.extend_from_slice(&zeros);
        }
        let mut reader = self.reader.take().unwrap();
        let outcome = read_into(&mut reader, &mut self.buf);
        self.reader = Some(reader);
        let ghost read = self.buf@;
        let ghost o = outcome;
        let r = self.after_read(outcome);
        assert(read_result(read, o, r, self.has_reader(), self.buffer()));
        r
    }
}

} // verus!
