//! The stream bridge: adapts an in-process byte source to the engine's
//! pull-callback read protocol.
//!
//! The engine pulls its input through three callbacks — read, skip, close —
//! that it invokes from inside whatever call is currently in flight. The
//! embedder's raw callbacks reconstruct the bridge context from the pointer
//! the engine carries and then call [`ReadContainer::arch_read`],
//! [`ReadContainer::arch_skip`] and [`ReadContainer::arch_close`], which hold
//! the verified protocol decisions: what to report for each outcome of the
//! wrapped source, and that a source without seek capability never pretends
//! to have skipped anything.

use vstd::prelude::*;

use crate::status::ARCHIVE_OK;

verus! {

/// Fixed capacity of the bridge's transfer buffer, in bytes.
pub const BRIDGE_BUFFER_SIZE: usize = 8192;

/// One failed read of the wrapped source: the numeric error for the engine's
/// error-setting facility, and a human-readable cause.
#[derive(Debug)]
pub struct ReadFault {
    /// Operating-system error number, or zero when none applies.
    pub errno: i32,
    /// Human-readable description of the failure.
    pub message: String,
}

/// An in-process byte source the bridge can wrap: a readable stream over a
/// fixed underlying byte sequence, with an optional relative-seek capability.
///
/// `contents` is the whole stream the source ranges over and `position` the
/// number of bytes consumed so far; neither is stored at run time, they are
/// the model against which every implementation's reads are checked.
pub trait ByteSource: Sized {
    /// The full byte stream this source delivers.
    spec fn contents(&self) -> Seq<u8>;

    /// How many bytes have been consumed so far.
    spec fn position(&self) -> int;

    /// Whether the source supports relative seeking.
    spec fn seekable(&self) -> bool;

    /// Reports the seek capability.
    fn is_seekable(&self) -> (b: bool)
        ensures
            b == self.seekable(),
    ;

    /// Reads once into the front of `buf`, without growing or shrinking it,
    /// and reports how many bytes were placed there. Zero bytes with a
    /// non-empty buffer means the source is exhausted. A fault consumes
    /// nothing.
    fn read_into(&mut self, buf: &mut Vec<u8>) -> (r: Result<usize, ReadFault>)
        requires
            0 <= old(self).position() <= old(self).contents().len(),
        ensures
            final(self).contents() == old(self).contents(),
            final(self).seekable() == old(self).seekable(),
            final(buf)@.len() == old(buf)@.len(),
            match r {
                Ok(n) => {
                    &&& n <= old(buf)@.len()
                    &&& final(self).position() == old(self).position() + n
                    &&& final(self).position() <= final(self).contents().len()
                    &&& final(buf)@.subrange(0, n as int) == old(self).contents().subrange(
                        old(self).position(),
                        old(self).position() + n,
                    )
                    &&& final(buf)@.skip(n as int) == old(buf)@.skip(n as int)
                    &&& (n == 0 ==> old(self).position() == old(self).contents().len()
                        || old(buf)@.len() == 0)
                },
                Err(_) => final(self).position() == old(self).position(),
            },
    ;

    /// Moves the read position forward by at most `request` bytes and reports
    /// how many bytes it actually moved; zero when the seek failed.
    fn skip_by(&mut self, request: u64) -> (moved: u64)
        requires
            old(self).seekable(),
            0 <= old(self).position() <= old(self).contents().len(),
        ensures
            final(self).contents() == old(self).contents(),
            final(self).seekable() == old(self).seekable(),
            moved <= request,
            final(self).position() == old(self).position() + moved,
            final(self).position() <= final(self).contents().len(),
    ;
}

/// What one read callback tells the engine.
#[derive(Debug)]
pub enum ReadStep {
    /// The first `len` bytes of the bridge buffer are ready for the engine;
    /// `len == 0` signals end-of-input, which the engine's own header logic
    /// interprets — the bridge never special-cases it.
    Delivered { len: usize },
    /// The source failed: record `errno` and `message` on the session via the
    /// engine's error-setting facility and return the failure sentinel (-1).
    Faulted { errno: i32, message: String },
}

/// The bridge context: the wrapped byte source together with the fixed
/// transfer buffer whose address the engine reads from.
///
/// Exactly one such value exists per stream-backed session. The embedder
/// leases it to the engine as an opaque context, reconstructs it for the
/// duration of each callback, and reclaims it for good in the close callback;
/// ownership here is by value, so a second live handle to the same context is
/// unrepresentable.
pub struct ReadContainer<S: ByteSource> {
    /// The wrapped byte source.
    pub reader: S,
    /// The transfer buffer; always exactly [`BRIDGE_BUFFER_SIZE`] bytes.
    pub buffer: Vec<u8>,
}

impl<S: ByteSource> ReadContainer<S> {
    /// The buffer has its fixed capacity and the source's position is inside
    /// its stream.
    pub open spec fn wf(self) -> bool {
        &&& self.buffer@.len() == BRIDGE_BUFFER_SIZE
        &&& 0 <= self.reader.position() <= self.reader.contents().len()
    }

    /// Wraps a source, allocating the zero-filled transfer buffer.
    pub fn new(source: S) -> (rc: ReadContainer<S>)
        requires
            0 <= source.position() <= source.contents().len(),
        ensures
            rc.reader == source,
            rc.wf(),
            forall|i: int| 0 <= i < rc.buffer@.len() ==> rc.buffer@[i] == 0u8,
    {
        let mut buffer: Vec<u8> = Vec::with_capacity(BRIDGE_BUFFER_SIZE);
        let mut i: usize = 0;
        while i < BRIDGE_BUFFER_SIZE
            invariant
                i <= BRIDGE_BUFFER_SIZE,
                buffer@.len() == i,
                forall|k: int| 0 <= k < i ==> buffer@[k] == 0u8,
            decreases BRIDGE_BUFFER_SIZE - i,
        {
            buffer.push(0);
            i = i + 1;
        }
        ReadContainer { reader: source, buffer }
    }

    /// One read of the wrapped source into the transfer buffer.
    pub fn read_bytes(&mut self) -> (r: Result<usize, ReadFault>)
        requires
            old(self).wf(),
        ensures
            final(self).wf(),
            final(self).reader.contents() == old(self).reader.contents(),
            final(self).reader.seekable() == old(self).reader.seekable(),
            final(self).buffer@.len() == old(self).buffer@.len(),
            match r {
                Ok(n) => {
                    &&& n <= BRIDGE_BUFFER_SIZE
                    &&& final(self).reader.position() == old(self).reader.position() + n
                    &&& final(self).buffer@.subrange(0, n as int) == old(
                        self,
                    ).reader.contents().subrange(
                        old(self).reader.position(),
                        old(self).reader.position() + n,
                    )
                    &&& (n == 0 ==> old(self).reader.position() == old(
                        self,
                    ).reader.contents().len())
                },
                Err(_) => final(self).reader.position() == old(self).reader.position(),
            },
    {
        self.reader.read_into(&mut self.buffer)
    }

    /// The read callback's decision: fill the buffer once and either deliver
    /// the filled length to the engine or surface the source's fault through
    /// the engine's error channel. Each delivery hands the engine the next
    /// unconsumed chunk of the stream, in order; see
    /// [`lemma_delivery_concatenates`].
    pub fn arch_read(&mut self) -> (r: ReadStep)
        requires
            old(self).wf(),
        ensures
            final(self).wf(),
            final(self).reader.contents() == old(self).reader.contents(),
            final(self).reader.seekable() == old(self).reader.seekable(),
            final(self).buffer@.len() == old(self).buffer@.len(),
            match r {
                ReadStep::Delivered { len } => {
                    &&& len <= BRIDGE_BUFFER_SIZE
                    &&& final(self).reader.position() == old(self).reader.position() + len
                    &&& final(self).buffer@.subrange(0, len as int) == old(
                        self,
                    ).reader.contents().subrange(
                        old(self).reader.position(),
                        old(self).reader.position() + len,
                    )
                    &&& (len == 0 ==> old(self).reader.position() == old(
                        self,
                    ).reader.contents().len())
                },
                ReadStep::Faulted { .. } => final(self).reader.position() == old(
                    self,
                ).reader.position(),
            },
    {
        match self.read_bytes() {
            Ok(n) => ReadStep::Delivered { len: n },
            Err(fault) => ReadStep::Faulted { errno: fault.errno, message: fault.message },
        }
    }

    /// The skip callback's decision. A source without seek capability always
    /// reports zero bytes skipped and is left untouched — the engine then
    /// falls back to reading and discarding, so the stream still advances by
    /// ordinary reads. With seek capability, the position moves forward by
    /// exactly the reported count, never past the end of the stream.
    pub fn arch_skip(&mut self, request: i64) -> (r: i64)
        requires
            old(self).wf(),
        ensures
            final(self).wf(),
            final(self).reader.contents() == old(self).reader.contents(),
            final(self).reader.seekable() == old(self).reader.seekable(),
            final(self).buffer@ == old(self).buffer@,
            0 <= r,
            request >= 0 ==> r <= request,
            !old(self).reader.seekable() ==> r == 0 && *final(self) == *old(self),
            request <= 0 ==> r == 0 && *final(self) == *old(self),
            final(self).reader.position() == old(self).reader.position() + r,
    {
        if !self.reader.is_seekable() {
            return 0;
        }
        if request <= 0 {
            return 0;
        }
        let moved: u64 = self.reader.skip_by(request as u64);
        moved as i64
    }

    /// The close callback's decision: take final ownership of the bridge
    /// context — releasing the wrapped source and the buffer exactly once —
    /// and report success, since bridge teardown has no failure the engine
    /// protocol could represent.
    pub fn arch_close(self) -> (r: i32)
        ensures
            r == ARCHIVE_OK,
    {
        ARCHIVE_OK
    }
}


/// A seek-optional byte source over an in-memory buffer: the simplest stream
/// the bridge can wrap, and the reference implementation of [`ByteSource`].
/// With seeking disabled it behaves as a pure forward stream, which is how a
/// source with no seek capability is exercised end to end.
pub struct MemorySource {
    /// The whole stream.
    pub data: Vec<u8>,
    /// How many bytes have been consumed.
    pub pos: usize,
    /// Whether the source offers relative seeking.
    pub seek_enabled: bool,
}

impl MemorySource {
    /// A source over `data`, positioned at the start.
    pub fn new(data: Vec<u8>, seek_enabled: bool) -> (s: MemorySource)
        ensures
            s.data@ == data@,
            s.pos == 0,
            s.seek_enabled == seek_enabled,
    {
        MemorySource { data, pos: 0, seek_enabled }
    }
}

impl ByteSource for MemorySource {
    open spec fn contents(&self) -> Seq<u8> {
        self.data@
    }

    open spec fn position(&self) -> int {
        self.pos as int
    }

    open spec fn seekable(&self) -> bool {
        self.seek_enabled
    }

    fn is_seekable(&self) -> (b: bool) {
        self.seek_enabled
    }

    fn read_into(&mut self, buf: &mut Vec<u8>) -> (r: Result<usize, ReadFault>) {
        let total: usize = self.data.len();
        let avail: usize = total - self.pos;
        let n: usize = if buf.len() < avail {
            buf.len()
        } else {
            avail
        };
        let start: usize = self.pos;
        let end: usize = start + n;
        let mut j: usize = 0;
        while j < n
            invariant
                j <= n,
                n <= buf@.len(),
                self == old(self),
                start == self.pos,
                end == start + n,
                end <= self.data@.len(),
                buf@.len() == old(buf)@.len(),
                forall|k: int| 0 <= k < j ==> buf@[k] == self.data@[start + k],
                forall|k: int| j <= k < buf@.len() ==> buf@[k] == old(buf)@[k],
            decreases n - j,
        {
            let idx: usize = start + j;
            let b: u8 = self.data[idx];
            buf.set(j, b);
            j = j + 1;
        }
        self.pos = end;
        proof {
            assert(buf@.subrange(0, n as int) =~= old(self).contents().subrange(
                old(self).position(),
                old(self).position() + n,
            ));
            assert(buf@.skip(n as int) =~= old(buf)@.skip(n as int));
        }
        Ok(n)
    }

    fn skip_by(&mut self, request: u64) -> (moved: u64) {
        let avail: usize = self.data.len() - self.pos;
        let moved: u64 = if request < avail as u64 {
            request
        } else {
            avail as u64
        };
        self.pos = self.pos + moved as usize;
        moved
    }
}

/// Bridge deliveries lose nothing and reorder nothing: the chunk an accepted
/// read hands the engine extends the already-consumed prefix of the stream to
/// exactly the new consumed prefix. Chained over successive reads — each of
/// which, by [`ReadContainer::arch_read`]'s contract, delivers
/// `contents[position .. position + len]` and advances `position` by `len` —
/// the concatenation of all delivered chunks is exactly `contents[0 ..
/// position]`, whatever mix of buffer sizes the engine's pulls used.
pub proof fn lemma_delivery_concatenates(stream: Seq<u8>, consumed: int, delivered: int)
    requires
        0 <= consumed,
        0 <= delivered,
        consumed + delivered <= stream.len(),
    ensures
        stream.subrange(0, consumed + delivered) == stream.subrange(0, consumed)
            + stream.subrange(consumed, consumed + delivered),
{
    assert(stream.subrange(0, consumed + delivered) =~= stream.subrange(0, consumed)
        + stream.subrange(consumed, consumed + delivered));
}

} // verus!
