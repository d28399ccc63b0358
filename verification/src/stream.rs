//! The streaming buffer manager and the decode iteration protocol.
//!
//! A `MessageStream` owns a fixed-capacity buffer and a start cursor; the
//! unread window is the buffer's tail from that cursor.  Pulling a message
//! attempts a decode on the window; an incomplete window is refilled from
//! the byte source and the attempt retried.  When the buffer is full the
//! unread remainder — never more than one frame, far below the capacity —
//! is first compacted to the front.
//!
//! The iteration protocol is a three-state machine: `Streaming` emits
//! messages; a decode failure or a truncated stream latches the stream
//! (`ErrorLatched`) after surfacing exactly one error; the pull after a
//! latched error, or a byte source exhausted at a frame boundary, ends the
//! stream (`Exhausted`), so a caller that ignores the error can never spin
//! forever.
//!
//! Two ghost fields follow the stream: the full byte history received from
//! the source and the messages emitted so far.  The stream invariant ties
//! them together — the consumed prefix of the history decodes exactly to
//! the emitted messages — so what comes out depends on the bytes alone,
//! never on how the source chunked them.

use vstd::prelude::*;
use crate::errors::Error;
use crate::errors::ParseErrorKind;
use crate::parser::{
    spec_parse_message, decodes_to, lemma_parse_done_used, lemma_parse_incomplete_window,
    lemma_parse_message_take, lemma_decodes_to_snoc, parse_message, Message, ParseOutcome,
};

verus! {

/// Capacity of the stream buffer.  Any frame fits in it many times over:
/// the largest catalog entry is 52 bytes.
pub const BUFSIZE: usize = 8192;

/// Any sequential byte source the stream can decode from.  Files, sockets
/// and decompressors are wrapped into this outside the library.
pub trait ByteSource {
    /// Hands over the next bytes of the source, at most `max` of them.  An
    /// empty chunk signals that the source is exhausted; a failure is an
    /// I/O failure, passed through the stream verbatim.
    fn read_chunk(&mut self, max: usize) -> (r: Result<Vec<u8>, Error>)
        ensures
            r matches Ok(chunk) ==> chunk@.len() <= max,
            r matches Err(e) ==> e is Io,
    ;
}

/// A reader that can report its total size in bytes.
pub trait KnownSizeReader {
    /// Returns the size of the underlying source in bytes.
    ///
    /// This is not guaranteed to be fast; cache the result if it is needed
    /// more than once.
    fn size(&self) -> Result<u64, Error>;
}

/// An in-memory byte source: hands out a fixed byte sequence, at most
/// `max_chunk` bytes per read.  A small `max_chunk` exercises the refill
/// and compaction paths exactly as a slow file or socket would.
pub struct MemSource {
    data: Vec<u8>,
    pos: usize,
    max_chunk: usize,
}

impl MemSource {
    /// Well-formed: the read position never passes the end and reads are
    /// never capped to nothing.
    pub closed spec fn wf(self) -> bool {
        self.pos <= self.data@.len() && self.max_chunk >= 1
    }

    /// The bytes not yet handed out.
    pub closed spec fn remaining(self) -> Seq<u8> {
        self.data@.skip(self.pos as int)
    }

    /// A source over `data`, read in arbitrarily large chunks.
    pub fn new(data: Vec<u8>) -> (r: MemSource)
        ensures
            r.wf(),
            r.remaining() == data@,
    {
        MemSource { data, pos: 0, max_chunk: usize::MAX }
    }

    /// A source over `data` that hands out at most `limit` bytes per read,
    /// down to one byte at a time.
    pub fn with_chunk_limit(data: Vec<u8>, limit: usize) -> (r: MemSource)
        requires
            limit >= 1,
        ensures
            r.wf(),
            r.remaining() == data@,
    {
        MemSource { data, pos: 0, max_chunk: limit }
    }
}

impl ByteSource for MemSource {
    /// Never fails; hands out the next bytes in order, and an empty chunk
    /// only once the data is exhausted (or none was asked for).
    fn read_chunk(&mut self, max: usize) -> (r: Result<Vec<u8>, Error>)
        ensures
            r is Ok,
            old(self).wf() ==> {
                &&& final(self).wf()
                &&& r matches Ok(chunk) ==> {
                    &&& chunk@ == old(self).remaining().take(chunk@.len() as int)
                    &&& final(self).remaining() == old(self).remaining().skip(
                        chunk@.len() as int,
                    )
                    &&& chunk@.len() == 0 ==> old(self).remaining().len() == 0 || max == 0
                }
            },
    {
        let len = self.data.len();
        if self.pos >= len {
            proof {
                if self.wf() {
                    assert(self.remaining() =~= Seq::<u8>::empty());
                    assert(Seq::<u8>::empty().take(0) =~= Seq::<u8>::empty());
                }
            }
            return Ok(Vec::new());
        }
        let mut n: usize = len - self.pos;
        if n > max {
            n = max;
        }
        if n > self.max_chunk {
            n = self.max_chunk;
        }
        let mut chunk: Vec<u8> = Vec::new();
        let mut i: usize = 0;
        while i < n
            invariant
                i <= n,
                self.pos + n <= self.data@.len(),
                self.data@.len() <= usize::MAX,
                chunk@ =~= self.data@.subrange(self.pos as int, self.pos as int + i as int),
            decreases n - i,
        {
            chunk.push(self.data[self.pos + i]);
            i += 1;
        }
        self.pos = self.pos + n;
        proof {
            if old(self).wf() {
                assert(chunk@ =~= old(self).remaining().take(n as int));
                assert(self.remaining() =~= old(self).remaining().skip(n as int));
            }
        }
        Ok(chunk)
    }
}

impl KnownSizeReader for MemSource {
    fn size(&self) -> Result<u64, Error> {
        Ok(self.data.len() as u64)
    }
}

/// The iteration state of a message stream.
#[derive(Debug, Clone, Copy, PartialEq, Eq, Structural)]
pub enum StreamState {
    /// Normal operation: pulls decode and emit messages.
    Streaming,
    /// One error has been surfaced; the next pull ends the stream.
    ErrorLatched,
    /// Terminal: no further output.
    Exhausted,
}

/// An iterable stream of decoded messages over a byte source.
pub struct MessageStream<R> {
    reader: R,
    buffer: Vec<u8>,
    bufstart: usize,
    bytes_read: usize,
    state: StreamState,
    hist: Ghost<Seq<u8>>,
    msgs: Ghost<Seq<Message>>,
}

/// `a + b`, stopping at the largest representable count.
fn saturating_add_usize(a: usize, b: usize) -> (r: usize)
    ensures
        r == if a + b > usize::MAX {
            usize::MAX as int
        } else {
            a + b
        },
{
    if b > usize::MAX - a {
        usize::MAX
    } else {
        a + b
    }
}

impl<R> MessageStream<R> {
    /// The unread window: received bytes not yet consumed by a decode.
    pub closed spec fn window(self) -> Seq<u8> {
        self.buffer@.skip(self.bufstart as int)
    }

    /// Every byte the source has handed over, in order.
    pub closed spec fn history(self) -> Seq<u8> {
        self.hist@
    }

    /// Every message emitted so far, in order.
    pub closed spec fn emitted(self) -> Seq<Message> {
        self.msgs@
    }

    /// The consumed prefix of the history: the bytes of all decoded
    /// frames.
    pub closed spec fn consumed(self) -> Seq<u8> {
        self.hist@.take(self.hist@.len() - self.window().len())
    }

    /// The iteration state.
    pub closed spec fn stream_state(self) -> StreamState {
        self.state
    }

    /// The stream invariant: cursors within the fixed capacity, the unread
    /// window a suffix of the byte history, the received-byte counter in
    /// step with the history, and — the heart of it — the consumed prefix
    /// of the history decoding exactly to the emitted messages.
    pub closed spec fn inv(self) -> bool {
        &&& self.bufstart <= self.buffer@.len()
        &&& self.buffer@.len() <= BUFSIZE
        &&& self.window().len() <= self.hist@.len()
        &&& self.hist@.skip(self.hist@.len() - self.window().len()) == self.window()
        &&& self.bytes_read == if self.hist@.len() > usize::MAX {
            usize::MAX as int
        } else {
            self.hist@.len() as int
        }
        &&& decodes_to(self.consumed(), self.msgs@)
    }

    /// Count of bytes received from the source so far (saturating at the
    /// largest representable count).
    pub fn bytes_read(&self) -> (r: usize)
        requires
            self.inv(),
        ensures
            r == if self.history().len() > usize::MAX {
                usize::MAX as int
            } else {
                self.history().len() as int
            },
    {
        self.bytes_read
    }
}

impl<R: KnownSizeReader> MessageStream<R> {
    /// Returns the size of the underlying reader in bytes.
    ///
    /// This is not guaranteed to be fast; cache the result if it is needed
    /// more than once.
    pub fn reader_size(&self) -> Result<u64, Error> {
        self.reader.size()
    }
}

impl<R: ByteSource> MessageStream<R> {
    /// Opens a stream over a byte source.
    pub fn from_reader(reader: R) -> (r: MessageStream<R>)
        ensures
            r.inv(),
            r.stream_state() is Streaming,
            r.history() == Seq::<u8>::empty(),
            r.emitted() == Seq::<Message>::empty(),
    {
        MessageStream::new(reader)
    }

    fn new(reader: R) -> (r: MessageStream<R>)
        ensures
            r.inv(),
            r.stream_state() is Streaming,
            r.history() == Seq::<u8>::empty(),
            r.emitted() == Seq::<Message>::empty(),
    {
        let s = MessageStream {
            reader,
            buffer: Vec::new(),
            bufstart: 0,
            bytes_read: 0,
            state: StreamState::Streaming,
            hist: Ghost(Seq::empty()),
            msgs: Ghost(Seq::empty()),
        };
        proof {
            assert(s.window() =~= Seq::<u8>::empty());
            assert(s.consumed() =~= Seq::<u8>::empty());
        }
        s
    }

    /// Asks the source for more bytes into the free tail of the buffer,
    /// compacting the unread window to the front first when the buffer is
    /// full.  Returns the count of bytes appended; zero signals that the
    /// source is exhausted.  The window keeps every unread byte and gains
    /// exactly the fresh ones.
    fn fetch_more_bytes(&mut self) -> (r: Result<usize, Error>)
        requires
            old(self).inv(),
            old(self).window().len() < BUFSIZE,
        ensures
            final(self).inv(),
            final(self).stream_state() == old(self).stream_state(),
            final(self).emitted() == old(self).emitted(),
            final(self).consumed() == old(self).consumed(),
            r matches Ok(n) ==> {
                &&& old(self).history().len() <= final(self).history().len()
                &&& final(self).history().take(old(self).history().len() as int)
                    == old(self).history()
                &&& final(self).window() == old(self).window() + final(self).history().skip(
                    old(self).history().len() as int,
                )
                &&& n == final(self).history().len() - old(self).history().len()
            },
            r matches Err(e) ==> {
                &&& final(self).history() == old(self).history()
                &&& final(self).window() == old(self).window()
                &&& e is Io
            },
    {
        if self.buffer.len() == BUFSIZE {
            // The unread remainder is less than one frame; move it to the
            // front to free the tail.
            let ghost oldwin = self.window();
            let mut nb: Vec<u8> = Vec::new();
            let mut i: usize = self.bufstart;
            while i < BUFSIZE
                invariant
                    self.bufstart <= i <= BUFSIZE,
                    self.buffer@.len() == BUFSIZE,
                    nb@ =~= self.buffer@.subrange(self.bufstart as int, i as int),
                decreases BUFSIZE - i,
            {
                nb.push(self.buffer[i]);
                i += 1;
            }
            self.buffer = nb;
            self.bufstart = 0;
            proof {
                assert(self.window() =~= oldwin);
                assert(self.consumed() =~= old(self).consumed());
            }
        }
        let free: usize = BUFSIZE - self.buffer.len();
        match self.reader.read_chunk(free) {
            Err(e) => {
                proof {
                    assert(self.window() =~= old(self).window());
                    assert(self.consumed() =~= old(self).consumed());
                }
                Err(e)
            },
            Ok(mut chunk) => {
                let n = chunk.len();
                let ghost fresh = chunk@;
                self.buffer.append(&mut chunk);
                proof {
                    self.hist@ = self.hist@ + fresh;
                }
                self.bytes_read = saturating_add_usize(self.bytes_read, n);
                proof {
                    assert(self.window() =~= old(self).window() + self.hist@.skip(
                        old(self).hist@.len() as int,
                    ));
                    assert(self.hist@.take(old(self).hist@.len() as int) =~= old(self).hist@);
                    assert(self.hist@.skip(self.hist@.len() - self.window().len())
                        =~= self.window());
                    assert(self.consumed() =~= old(self).consumed());
                }
                Ok(n)
            },
        }
    }

    /// Pulls the next decode result.
    ///
    /// A full valid frame already in the window is decoded and emitted
    /// without touching the source.  An incomplete window is refilled and
    /// the attempt retried; a source exhausted mid-frame surfaces one
    /// truncation error, at a frame boundary it ends the stream cleanly.
    /// A decode failure or an I/O failure surfaces once and latches the
    /// stream; the pull after that yields nothing further.  Every emitted
    /// message extends the ghost trace, which stays the exact decoding of
    /// the consumed byte history.
    #[verifier::rlimit(100)]
    #[verifier::spinoff_prover]
    #[verifier::loop_isolation(false)]
    pub fn next(&mut self) -> (r: Option<Result<Message, Error>>)
        requires
            old(self).inv(),
        ensures
            final(self).inv(),
            old(self).history().len() <= final(self).history().len(),
            final(self).history().take(old(self).history().len() as int) == old(self).history(),
            old(self).stream_state() is Exhausted ==> r is None
                && final(self).stream_state() is Exhausted
                && final(self).emitted() == old(self).emitted()
                && final(self).history() == old(self).history(),
            old(self).stream_state() is ErrorLatched ==> r is None
                && final(self).stream_state() is Exhausted
                && final(self).emitted() == old(self).emitted()
                && final(self).history() == old(self).history(),
            r matches Some(Ok(m)) ==> old(self).stream_state() is Streaming
                && final(self).stream_state() is Streaming
                && final(self).emitted() == old(self).emitted().push(m),
            old(self).stream_state() is Streaming ==> (spec_parse_message(old(self).window())
                matches ParseOutcome::Done { value, used } ==> (r == Some(
                Result::<Message, Error>::Ok(value),
            )
                && final(self).history() == old(self).history()
                && final(self).window() == old(self).window().skip(used as int))),
            old(self).stream_state() is Streaming ==> (spec_parse_message(old(self).window())
                matches ParseOutcome::Fail(k) ==> (r matches Some(Err(e)) && e matches
                Error::Parse(k2, _) && k2 == k
                && final(self).history() == old(self).history())),
            r matches Some(Err(e)) ==> old(self).stream_state() is Streaming
                && final(self).stream_state() is ErrorLatched
                && final(self).emitted() == old(self).emitted()
                && (e matches Error::Parse(k, _) ==> (spec_parse_message(final(self).window())
                    == ParseOutcome::<Message>::Fail(k) || (k is UnexpectedEof
                    && final(self).window().len() > 0
                    && spec_parse_message(final(self).window()) is Incomplete))),
            r is None && old(self).stream_state() is Streaming
                ==> final(self).stream_state() is Exhausted
                && final(self).emitted() == old(self).emitted()
                && final(self).window().len() == 0
                && final(self).consumed() == final(self).history(),
    {
        match self.state {
            StreamState::Exhausted => {
                return None;
            },
            StreamState::ErrorLatched => {
                self.state = StreamState::Exhausted;
                return None;
            },
            StreamState::Streaming => {},
        }
        let ghost init = *self;
        proof {
            assert(init.hist@.take(init.hist@.len() as int) =~= init.hist@);
        }
        loop
            invariant
                self.inv(),
                self.state is Streaming,
                self.msgs@ == init.msgs@,
                self.consumed() == init.consumed(),
                init.hist@.len() <= self.hist@.len(),
                self.hist@.take(init.hist@.len() as int) == init.hist@,
                (self.window() == init.window() && self.hist@ == init.hist@) || spec_parse_message(
                    init.window(),
                ) is Incomplete,
                init.inv(),
                init.state is Streaming,
            decreases BUFSIZE - self.window().len(),
        {
            let attempt = parse_message(&self.buffer, self.bufstart);
            match attempt {
                ParseOutcome::Done { value, used } => {
                    proof {
                        lemma_parse_done_used(self.window());
                        lemma_parse_message_take(self.window());
                        let frame = self.window().take(used as int);
                        lemma_decodes_to_snoc(self.consumed(), self.msgs@, frame, value);
                    }
                    let ghost prewin = self.window();
                    let ghost precon = self.consumed();
                    self.bufstart = self.bufstart + used;
                    proof {
                        self.msgs@ = self.msgs@.push(value);
                        assert(self.window() =~= prewin.skip(used as int));
                        assert(self.consumed() =~= precon + prewin.take(used as int));
                        assert(self.hist@.skip(self.hist@.len() - self.window().len())
                            =~= self.window());
                    }
                    return Some(Ok(value));
                },
                ParseOutcome::Fail(k) => {
                    self.state = StreamState::ErrorLatched;
                    let off = self.bytes_read - (self.buffer.len() - self.bufstart);
                    return Some(Err(Error::Parse(k, off)));
                },
                ParseOutcome::Incomplete => {
                    proof {
                        lemma_parse_incomplete_window(self.window());
                    }
                    let ghost prewin = self.window();
                    let ghost prehist = self.hist@;
                    let fetched = self.fetch_more_bytes();
                    proof {
                        if fetched is Ok {
                            assert forall|k: int| 0 <= k < init.hist@.len() implies self.hist@[k]
                                == init.hist@[k] by {
                                assert(self.hist@.take(prehist.len() as int)[k] == prehist[k]);
                                assert(prehist.take(init.hist@.len() as int)[k] == init.hist@[k]);
                            }
                        }
                        assert(self.hist@.take(init.hist@.len() as int) =~= init.hist@);
                    }
                    match fetched {
                        Err(e) => {
                            self.state = StreamState::ErrorLatched;
                            return Some(Err(e));
                        },
                        Ok(ct) => {
                            if ct == 0 {
                                proof {
                                    assert(self.window() =~= prewin);
                                }
                                if self.bufstart == self.buffer.len() {
                                    self.state = StreamState::Exhausted;
                                    proof {
                                        assert(self.window().len() == 0);
                                        assert(self.consumed() =~= self.hist@);
                                    }
                                    return None;
                                } else {
                                    self.state = StreamState::ErrorLatched;
                                    let off = self.bytes_read - (self.buffer.len()
                                        - self.bufstart);
                                    return Some(
                                        Err(Error::Parse(ParseErrorKind::UnexpectedEof, off)),
                                    );
                                }
                            }
                        },
                    }
                },
            }
        }
    }
}

/// A stream with nothing left unread has decoded its whole byte history:
/// the emitted messages are exactly the decoding of every byte the source
/// handed over, in order.
pub proof fn lemma_drained_stream_decodes_history<R>(s: MessageStream<R>)
    requires
        s.inv(),
        s.window().len() == 0,
    ensures
        crate::parser::decodes_to(s.history(), s.emitted()),
{
    assert(s.consumed() =~= s.history());
}

/// Buffer refill and compaction are transparent to correctness: two
/// streams that consumed the same bytes have emitted the same messages,
/// however differently their sources chunked the reads.
pub proof fn lemma_chunking_transparent<R1, R2>(s1: MessageStream<R1>, s2: MessageStream<R2>)
    requires
        s1.inv(),
        s2.inv(),
        s1.consumed() == s2.consumed(),
    ensures
        s1.emitted() == s2.emitted(),
{
    crate::parser::lemma_decodes_to_deterministic(s1.consumed(), s1.emitted(), s2.emitted());
}

} // verus!
