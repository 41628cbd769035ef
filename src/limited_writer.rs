use vstd::prelude::*;

verus! {

/// Why a write into a sink was refused.
#[derive(Debug, Clone, Copy, PartialEq, Eq, Structural)]
pub enum SinkError {
    /// The write would take the total past the sink's limit.
    LimitExceeded,
    /// The underlying sink failed.
    Failed,
}

/// A target for bytes. `write_bytes` reports how many of the offered bytes
/// the sink took, which may be fewer than offered: those are the first ones.
pub trait ByteSink: Sized {
    /// The bytes the sink has taken, in order.
    spec fn taken(&self) -> Seq<u8>;

    /// What writing `buf` into the sink, as it now stands, gives.
    spec fn write_result(&self, buf: Seq<u8>) -> Result<usize, SinkError>;

    /// What flushing the sink, as it now stands, gives.
    spec fn flush_result(&self) -> Result<(), SinkError>;

    fn write_bytes(&mut self, buf: &[u8]) -> (r: Result<usize, SinkError>)
        ensures
            r == old(self).write_result(buf@),
            r is Ok ==> r->Ok_0 <= buf@.len() && final(self).taken() == old(self).taken()
                + buf@.take(r->Ok_0 as int),
            r is Err ==> final(self).taken() == old(self).taken(),
    ;

    fn flush_bytes(&mut self) -> (r: Result<(), SinkError>)
        ensures
            r == old(self).flush_result(),
            final(self).taken() == old(self).taken(),
    ;
}

/// A growable buffer takes every byte offered, and flushing it does nothing.
impl ByteSink for Vec<u8> {
    open spec fn taken(&self) -> Seq<u8> {
        self@
    }

    open spec fn write_result(&self, buf: Seq<u8>) -> Result<usize, SinkError> {
        Ok(buf.len() as usize)
    }

    open spec fn flush_result(&self) -> Result<(), SinkError> {
        Ok(())
    }

    fn write_bytes(&mut self, buf: &[u8]) -> (r: Result<usize, SinkError>) {
        let ghost before = self@;
        let mut i: usize = 0;
        while i < buf.len()
            invariant
                0 <= i <= buf@.len(),
                self@ == before + buf@.take(i as int),
            decreases buf@.len() - i,
        {
            self.push(buf[i]);
            i = i + 1;
            assert(self@ =~= before + buf@.take(i as int));
        }
        assert(buf@.take(buf@.len() as int) =~= buf@);
        Ok(buf.len())
    }

    fn flush_bytes(&mut self) -> (r: Result<(), SinkError>) {
        Ok(())
    }
}

/// Whether a write of `len` bytes is let through when `written` bytes have
/// already gone out and at most `limit` may.
pub open spec fn fits(written: nat, limit: nat, len: nat) -> bool {
    written + len <= limit
}

/// Total length of a run of writes.
pub open spec fn total_len(bufs: Seq<Seq<u8>>) -> nat
    decreases bufs.len(),
{
    if bufs.len() == 0 {
        0
    } else {
        total_len(bufs.drop_last()) + bufs.last().len()
    }
}

/// The bytes of a run of writes, one write after the other.
pub open spec fn joined(bufs: Seq<Seq<u8>>) -> Seq<u8>
    decreases bufs.len(),
{
    if bufs.len() == 0 {
        Seq::empty()
    } else {
        joined(bufs.drop_last()) + bufs.last()
    }
}

/// A sink that refuses any write that would take the number of bytes written
/// past a fixed limit. A refused write changes neither the count nor the
/// underlying sink.
pub struct LimitedWriter<W: ByteSink> {
    writer: W,
    written: usize,
    limit: usize,
    refused: bool,
    base: Ghost<nat>,
}

impl<W: ByteSink> LimitedWriter<W> {
    /// Bytes the underlying sink has taken so far.
    pub closed spec fn written_spec(&self) -> nat {
        self.written as nat
    }

    /// The most bytes this writer lets through.
    pub closed spec fn limit_spec(&self) -> nat {
        self.limit as nat
    }

    /// Whether some write has been refused for the limit.
    pub closed spec fn refused_spec(&self) -> bool {
        self.refused
    }

    /// The underlying sink.
    pub closed spec fn sink(&self) -> W {
        self.writer
    }

    /// How many bytes the underlying sink held when this writer was made.
    pub closed spec fn base_len(&self) -> nat {
        self.base@
    }

    /// The count stays within the limit, and the underlying sink holds
    /// exactly the counted bytes beyond what it held at the start.
    pub open spec fn wf(&self) -> bool {
        &&& self.written_spec() <= self.limit_spec()
        &&& self.limit_spec() <= usize::MAX
        &&& self.sink().taken().len() == self.base_len() + self.written_spec()
    }

    pub fn new(writer: W, limit: usize) -> (r: Self)
        ensures
            r.wf(),
            r.written_spec() == 0,
            r.limit_spec() == limit,
            !r.refused_spec(),
            r.sink() == writer,
            r.base_len() == writer.taken().len(),
    {
        let ghost base = writer.taken().len();
        LimitedWriter { writer, written: 0, limit, refused: false, base: Ghost(base) }
    }

    pub fn written(&self) -> (r: usize)
        ensures
            r == self.written_spec(),
    {
        self.written
    }

    pub fn limit(&self) -> (r: usize)
        ensures
            r == self.limit_spec(),
    {
        self.limit
    }

    /// Whether some write has been refused because it would pass the limit.
    pub fn limit_exceeded(&self) -> (r: bool)
        ensures
            r == self.refused_spec(),
    {
        self.refused
    }

    pub fn into_inner(self) -> (r: W)
        ensures
            r == self.sink(),
    {
        self.writer
    }

    /// What a write of `buf` does, from writer `self` to writer `post` with
    /// result `r`: a write that would pass the limit is refused and changes
    /// nothing but the refusal mark; any other is handed to the sink, whose
    /// result is passed on, and the count grows by what the sink took.
    pub open spec fn write_outcome(
        self,
        buf: Seq<u8>,
        r: Result<usize, SinkError>,
        post: Self,
    ) -> bool {
        &&& post.limit_spec() == self.limit_spec()
        &&& post.base_len() == self.base_len()
        &&& if !fits(self.written_spec(), self.limit_spec(), buf.len()) {
            &&& r == Err::<usize, SinkError>(SinkError::LimitExceeded)
            &&& post.written_spec() == self.written_spec()
            &&& post.sink() == self.sink()
            &&& post.refused_spec()
        } else {
            &&& r == self.sink().write_result(buf)
            &&& post.refused_spec() == self.refused_spec()
            &&& r is Ok ==> post.written_spec() == self.written_spec() + r->Ok_0
                && post.sink().taken() == self.sink().taken() + buf.take(r->Ok_0 as int)
            &&& r is Err ==> post.written_spec() == self.written_spec() && post.sink().taken()
                == self.sink().taken()
        }
    }

    /// Hands `buf` on to the underlying sink unless the total would pass the
    /// limit; counts what the sink took.
    pub fn write(&mut self, buf: &[u8]) -> (r: Result<usize, SinkError>)
        requires
            old(self).wf(),
        ensures
            final(self).wf(),
            old(self).write_outcome(buf@, r, *final(self)),
    {
        if buf.len() > self.limit - self.written {
            self.refused = true;
            return Err(SinkError::LimitExceeded);
        }
        match self.writer.write_bytes(buf) {
            Ok(wlen) => {
                self.written = self.written + wlen;
                Ok(wlen)
            },
            Err(e) => Err(e),
        }
    }

    /// Flushes the underlying sink, whatever the count, and passes its result
    /// on; the count is kept.
    pub fn flush(&mut self) -> (r: Result<(), SinkError>)
        requires
            old(self).wf(),
        ensures
            r == old(self).sink().flush_result(),
            final(self).wf(),
            final(self).written_spec() == old(self).written_spec(),
            final(self).limit_spec() == old(self).limit_spec(),
            final(self).refused_spec() == old(self).refused_spec(),
            final(self).base_len() == old(self).base_len(),
            final(self).sink().taken() == old(self).sink().taken(),
    {
        self.writer.flush_bytes()
    }
}

/// A run of writes into a growable buffer whose lengths add up to no more
/// than the room left all succeed in full: each returns its length, the
/// count grows by the sum of the lengths, and the buffer gains the written
/// bytes in order. `writers[i]` is the writer before write `i` of `bufs[i]`,
/// which returned `results[i]`.
pub proof fn lemma_writes_within_limit(
    writers: Seq<LimitedWriter<Vec<u8>>>,
    bufs: Seq<Seq<u8>>,
    results: Seq<Result<usize, SinkError>>,
)
    requires
        writers.len() == bufs.len() + 1,
        results.len() == bufs.len(),
        writers[0].wf(),
        forall|i: int|
            0 <= i < bufs.len() ==> #[trigger] writers[i].write_outcome(
                bufs[i],
                results[i],
                writers[i + 1],
            ),
        writers[0].written_spec() + total_len(bufs) <= writers[0].limit_spec(),
    ensures
        forall|i: int|
            0 <= i < bufs.len() ==> #[trigger] results[i] == Ok::<usize, SinkError>(
                bufs[i].len() as usize,
            ),
        writers.last().written_spec() == writers[0].written_spec() + total_len(bufs),
        writers.last().sink()@ == writers[0].sink()@ + joined(bufs),
        writers.last().refused_spec() == writers[0].refused_spec(),
        writers.last().limit_spec() == writers[0].limit_spec(),
    decreases bufs.len(),
{
    if bufs.len() == 0 {
        assert(writers[0].sink()@ + joined(bufs) =~= writers[0].sink()@);
    } else {
        let n = bufs.len() - 1;
        let ws = writers.drop_last();
        assert forall|i: int| 0 <= i < bufs.drop_last().len() implies #[trigger] ws[i].write_outcome(
            bufs.drop_last()[i],
            results.drop_last()[i],
            ws[i + 1],
        ) by {
            assert(writers[i].write_outcome(bufs[i], results[i], writers[i + 1]));
        }
        lemma_writes_within_limit(ws, bufs.drop_last(), results.drop_last());
        assert(writers[n].write_outcome(bufs[n], results[n], writers[n + 1]));
        assert(ws.last() == writers[n]);
        assert(writers[n + 1] == writers.last());
        assert(writers.last().sink()@ =~= writers[0].sink()@ + joined(bufs)) by {
            assert(bufs[n].take(bufs[n].len() as int) =~= bufs[n]);
        }
        assert forall|i: int| 0 <= i < bufs.len() implies #[trigger] results[i] == Ok::<
            usize,
            SinkError,
        >(bufs[i].len() as usize) by {
            if i < n {
                assert(results.drop_last()[i] == results[i]);
            }
        }
    }
}

/// A run of writes into a growable buffer whose lengths add up to more than
/// the room left ends with the writer marked as having refused a write,
/// however the bytes were split into writes.
pub proof fn lemma_oversized_run_refused(
    writers: Seq<LimitedWriter<Vec<u8>>>,
    bufs: Seq<Seq<u8>>,
    results: Seq<Result<usize, SinkError>>,
)
    requires
        writers.len() == bufs.len() + 1,
        results.len() == bufs.len(),
        writers[0].wf(),
        forall|i: int|
            0 <= i < bufs.len() ==> #[trigger] writers[i].write_outcome(
                bufs[i],
                results[i],
                writers[i + 1],
            ),
        writers[0].written_spec() + total_len(bufs) > writers[0].limit_spec(),
    ensures
        writers.last().refused_spec(),
    decreases bufs.len(),
{
    let n = bufs.len() - 1;
    let ws = writers.drop_last();
    assert forall|i: int| 0 <= i < bufs.drop_last().len() implies #[trigger] ws[i].write_outcome(
        bufs.drop_last()[i],
        results.drop_last()[i],
        ws[i + 1],
    ) by {
        assert(writers[i].write_outcome(bufs[i], results[i], writers[i + 1]));
    }
    assert(writers[n].write_outcome(bufs[n], results[n], writers[n + 1]));
    assert(ws.last() == writers[n]);
    if writers[0].written_spec() + total_len(bufs.drop_last()) > writers[0].limit_spec() {
        lemma_oversized_run_refused(ws, bufs.drop_last(), results.drop_last());
    } else {
        lemma_writes_within_limit(ws, bufs.drop_last(), results.drop_last());
    }
}

} // verus!
