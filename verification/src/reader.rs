//! The bounded body reader: accumulates the chunks of a body up to a cap,
//! and past the cap discards the rest of the stream before it fails.
//!
//! The reader is a state machine. Whoever owns the stream asks it for the
//! next action, performs it, and hands back what happened.

use crate::buffer::{buffer_as_slice, buffer_contents, buffer_from_vec};
use crate::error::{BodyError, BodyErrorView};
use bytes::Bytes;
use vstd::prelude::*;

verus! {

/// Where a reader stands.
#[derive(Clone, Copy, Debug, PartialEq, Eq, Structural)]
pub enum ReaderPhase {
    /// Chunks are accumulated.
    Reading,
    /// The cap was exceeded; chunks are discarded until the stream ends.
    Dumping,
    /// The data ended within the cap; the trailers are still to be read.
    Trailers,
    /// The whole body was read within the cap.
    Complete,
    /// The body exceeded the cap and the stream was drained.
    Oversize,
    /// The stream failed.
    Failed,
}

/// What the owner of the stream does next.
#[derive(Clone, Copy, Debug, PartialEq, Eq, Structural)]
pub enum ReaderAction {
    /// Await the next chunk of data.
    ReadData,
    /// Await the trailers.
    ReadTrailers,
    /// Nothing more is read: take the result.
    Finish,
}

/// The mathematical state of a reader.
pub struct ReaderModel {
    /// The most bytes that a body may have.
    pub cap: nat,
    /// The bytes accumulated so far.
    pub buf: Seq<u8>,
    /// The number of bytes discarded so far.
    pub dumped: nat,
    pub phase: ReaderPhase,
    /// The stream's message, once it has failed.
    pub failure: Seq<char>,
}

/// A reader before the first chunk.
pub open spec fn start(cap: nat) -> ReaderModel {
    ReaderModel {
        cap,
        buf: Seq::empty(),
        dumped: 0,
        phase: ReaderPhase::Reading,
        failure: Seq::empty(),
    }
}

/// No reader holds more than its cap.
pub open spec fn within_cap(m: ReaderModel) -> bool {
    m.buf.len() <= m.cap
}

/// Whether nothing more is read in this phase.
pub open spec fn is_terminal(phase: ReaderPhase) -> bool {
    phase == ReaderPhase::Complete || phase == ReaderPhase::Oversize || phase
        == ReaderPhase::Failed
}

/// The action that each phase asks for.
pub open spec fn action_of(phase: ReaderPhase) -> ReaderAction {
    match phase {
        ReaderPhase::Reading | ReaderPhase::Dumping => ReaderAction::ReadData,
        ReaderPhase::Trailers => ReaderAction::ReadTrailers,
        _ => ReaderAction::Finish,
    }
}

/// The reader after a chunk of data: the chunk is appended while the total
/// stays within the cap; the first chunk that would exceed it, and every
/// chunk after, is discarded.
pub open spec fn after_data(m: ReaderModel, chunk: Seq<u8>) -> ReaderModel {
    match m.phase {
        ReaderPhase::Reading => if m.buf.len() + chunk.len() > m.cap {
            ReaderModel { phase: ReaderPhase::Dumping, dumped: m.dumped + chunk.len(), ..m }
        } else {
            ReaderModel { buf: m.buf + chunk, ..m }
        },
        ReaderPhase::Dumping => ReaderModel { dumped: m.dumped + chunk.len(), ..m },
        _ => m,
    }
}

/// The reader after the data has ended.
pub open spec fn after_data_end(m: ReaderModel) -> ReaderModel {
    match m.phase {
        ReaderPhase::Reading => ReaderModel { phase: ReaderPhase::Trailers, ..m },
        ReaderPhase::Dumping => ReaderModel { phase: ReaderPhase::Oversize, ..m },
        _ => m,
    }
}

/// The reader after the trailers have been read.
pub open spec fn after_trailers(m: ReaderModel) -> ReaderModel {
    match m.phase {
        ReaderPhase::Trailers => ReaderModel { phase: ReaderPhase::Complete, ..m },
        _ => m,
    }
}

/// The reader after the stream has failed with `message`.
pub open spec fn after_error(m: ReaderModel, message: Seq<char>) -> ReaderModel {
    if is_terminal(m.phase) {
        m
    } else {
        ReaderModel { phase: ReaderPhase::Failed, failure: message, ..m }
    }
}

/// What a finished reader yields.
pub open spec fn result_of(m: ReaderModel) -> Result<Seq<u8>, BodyErrorView> {
    match m.phase {
        ReaderPhase::Complete => Ok(m.buf),
        ReaderPhase::Failed => Err(BodyErrorView::Transport { message: m.failure }),
        _ => Err(BodyErrorView::Oversize { cap: m.cap }),
    }
}

/// The reader after a run of chunks.
pub open spec fn fed(m: ReaderModel, chunks: Seq<Seq<u8>>) -> ReaderModel
    decreases chunks.len(),
{
    if chunks.len() == 0 {
        m
    } else {
        after_data(fed(m, chunks.drop_last()), chunks.last())
    }
}

/// The chunks of a body as one byte sequence.
pub open spec fn joined(chunks: Seq<Seq<u8>>) -> Seq<u8>
    decreases chunks.len(),
{
    if chunks.len() == 0 {
        Seq::empty()
    } else {
        joined(chunks.drop_last()) + chunks.last()
    }
}

/// What each buffer of a run holds.
pub open spec fn contents_of(chunks: Seq<Bytes>) -> Seq<Seq<u8>> {
    chunks.map_values(|b: Bytes| buffer_contents(b))
}

/// What reading a whole body yields: the body itself where it fits the cap,
/// and the oversize error where it does not.
pub open spec fn read_result(chunks: Seq<Seq<u8>>, cap: nat) -> Result<Seq<u8>, BodyErrorView> {
    if joined(chunks).len() <= cap {
        Ok(joined(chunks))
    } else {
        Err(BodyErrorView::Oversize { cap })
    }
}

/// A body within the cap is accumulated whole and nothing is discarded; of a
/// body over the cap every byte is either held or discarded, so that none is
/// left in the stream, and the reader goes on reading until the data ends.
pub proof fn lemma_fed_outcome(cap: nat, chunks: Seq<Seq<u8>>)
    ensures
        within_cap(fed(start(cap), chunks)),
        fed(start(cap), chunks).cap == cap,
        fed(start(cap), chunks).buf.len() + fed(start(cap), chunks).dumped == joined(
            chunks,
        ).len(),
        joined(chunks).len() <= cap ==> fed(start(cap), chunks).phase == ReaderPhase::Reading
            && fed(start(cap), chunks).buf == joined(chunks),
        joined(chunks).len() > cap ==> fed(start(cap), chunks).phase == ReaderPhase::Dumping,
        action_of(fed(start(cap), chunks).phase) == ReaderAction::ReadData,
    decreases chunks.len(),
{
    if chunks.len() > 0 {
        lemma_fed_outcome(cap, chunks.drop_last());
    }
}

/// Reading a whole stream (every chunk, the end of the data and, where the
/// body fits, the trailers) ends the reader with exactly `read_result`.
pub proof fn lemma_whole_stream(cap: nat, chunks: Seq<Seq<u8>>)
    ensures
        is_terminal(after_trailers(after_data_end(fed(start(cap), chunks))).phase),
        result_of(after_trailers(after_data_end(fed(start(cap), chunks)))) == read_result(
            chunks,
            cap,
        ),
{
    lemma_fed_outcome(cap, chunks);
}

/// A run of chunks holds at least as many bytes as any of its prefixes.
pub proof fn lemma_joined_prefix(chunks: Seq<Seq<u8>>, i: int)
    requires
        0 <= i <= chunks.len(),
    ensures
        joined(chunks.take(i)).len() <= joined(chunks).len(),
    decreases chunks.len(),
{
    if i == chunks.len() {
        assert(chunks.take(i) =~= chunks);
    } else {
        lemma_joined_prefix(chunks.drop_last(), i);
        assert(chunks.drop_last().take(i) =~= chunks.take(i));
    }
}

/// A bounded body reader.
pub struct BodyReader {
    cap: usize,
    parts: Vec<u8>,
    phase: ReaderPhase,
    failure: String,
    dumped: Ghost<nat>,
}

impl View for BodyReader {
    type V = ReaderModel;

    closed spec fn view(&self) -> ReaderModel {
        ReaderModel {
            cap: self.cap as nat,
            buf: self.parts@,
            dumped: self.dumped@,
            phase: self.phase,
            failure: self.failure@,
        }
    }
}

impl BodyReader {
    /// A reader that accepts at most `cap` bytes.
    pub fn new(cap: usize) -> (r: BodyReader)
        ensures
            r@ == start(cap as nat),
    {
        BodyReader {
            cap,
            parts: Vec::new(),
            phase: ReaderPhase::Reading,
            failure: String::new(),
            dumped: Ghost(0),
        }
    }

    /// Where the reader stands.
    pub fn phase(&self) -> (p: ReaderPhase)
        ensures
            p == self@.phase,
    {
        self.phase
    }

    /// What to do next.
    pub fn next_action(&self) -> (a: ReaderAction)
        ensures
            a == action_of(self@.phase),
    {
        match self.phase {
            ReaderPhase::Reading | ReaderPhase::Dumping => ReaderAction::ReadData,
            ReaderPhase::Trailers => ReaderAction::ReadTrailers,
            _ => ReaderAction::Finish,
        }
    }

    /// Takes one chunk of data.
    pub fn on_data(&mut self, chunk: &Bytes)
        ensures
            final(self)@ == after_data(old(self)@, buffer_contents(*chunk)),
            within_cap(old(self)@) ==> within_cap(final(self)@),
    {
        match self.phase {
            ReaderPhase::Reading => {
                let bufsize: usize = chunk.len();
                if self.parts.len() > self.cap || bufsize > self.cap - self.parts.len() {
                    self.phase = ReaderPhase::Dumping;
                    self.dumped = Ghost((self.dumped@ + bufsize) as nat);
                } else {
                    self.parts.extend_from_slice(buffer_as_slice(chunk));
                    assert(self.parts@ =~= old(self).parts@ + buffer_contents(*chunk));
                }
            },
            ReaderPhase::Dumping => {
                let ghost n = buffer_contents(*chunk).len();
                self.dumped = Ghost(self.dumped@ + n);
            },
            _ => {},
        }
    }

    /// Takes note that the data has ended.
    pub fn on_data_end(&mut self)
        ensures
            final(self)@ == after_data_end(old(self)@),
    {
        match self.phase {
            ReaderPhase::Reading => {
                self.phase = ReaderPhase::Trailers;
            },
            ReaderPhase::Dumping => {
                self.phase = ReaderPhase::Oversize;
            },
            _ => {},
        }
    }

    /// Takes note that the trailers have been read.
    pub fn on_trailers(&mut self)
        ensures
            final(self)@ == after_trailers(old(self)@),
    {
        match self.phase {
            ReaderPhase::Trailers => {
                self.phase = ReaderPhase::Complete;
            },
            _ => {},
        }
    }

    /// Takes note that the stream has failed.
    pub fn on_error(&mut self, message: String)
        ensures
            final(self)@ == after_error(old(self)@, message@),
    {
        match self.phase {
            ReaderPhase::Complete | ReaderPhase::Oversize | ReaderPhase::Failed => {},
            _ => {
                self.phase = ReaderPhase::Failed;
                self.failure = message;
            },
        }
    }

    /// The result of a finished reader: the buffer, the oversize error with
    /// the cap, or the stream's failure unchanged.
    pub fn finish(self) -> (r: Result<Bytes, BodyError>)
        requires
            is_terminal(self@.phase),
        ensures
            match r {
                Ok(b) => result_of(self@) == Ok::<Seq<u8>, BodyErrorView>(buffer_contents(b)),
                Err(e) => result_of(self@) == Err::<Seq<u8>, BodyErrorView>(e@),
            },
    {
        match self.phase {
            ReaderPhase::Complete => Ok(buffer_from_vec(self.parts)),
            ReaderPhase::Failed => Err(BodyError::Transport { message: self.failure }),
            _ => Err(BodyError::Oversize { cap: self.cap }),
        }
    }
}

/// Reads a body that arrives as `chunks` under the cap. The body is returned
/// whole where it has at most `cap` bytes; otherwise the read fails with the
/// oversize error, after every chunk has been consumed.
pub fn http_read_body(chunks: &Vec<Bytes>, cap: usize) -> (r: Result<Bytes, BodyError>)
    ensures
        match r {
            Ok(b) => read_result(contents_of(chunks@), cap as nat) == Ok::<
                Seq<u8>,
                BodyErrorView,
            >(buffer_contents(b)),
            Err(e) => read_result(contents_of(chunks@), cap as nat) == Err::<
                Seq<u8>,
                BodyErrorView,
            >(e@),
        },
        r is Ok ==> buffer_contents(r->Ok_0).len() <= cap,
{
    let mut reader = BodyReader::new(cap);
    let mut i: usize = 0;
    while i < chunks.len()
        invariant
            i <= chunks@.len(),
            reader@ == fed(start(cap as nat), contents_of(chunks@).take(i as int)),
            within_cap(reader@),
        decreases chunks@.len() - i,
    {
        proof {
            let next = contents_of(chunks@).take(i + 1);
            assert(next.drop_last() =~= contents_of(chunks@).take(i as int));
            assert(next.last() == buffer_contents(chunks@[i as int]));
        }
        reader.on_data(&chunks[i]);
        i += 1;
        proof {
            lemma_fed_outcome(cap as nat, contents_of(chunks@).take(i as int));
        }
    }
    proof {
        assert(contents_of(chunks@).take(i as int) =~= contents_of(chunks@));
        lemma_whole_stream(cap as nat, contents_of(chunks@));
    }
    reader.on_data_end();
    reader.on_trailers();
    reader.finish()
}

/// Discards a body that arrives as `chunks` and returns how many bytes it
/// had.
pub fn http_dump_body(chunks: &Vec<Bytes>) -> (n: usize)
    requires
        joined(contents_of(chunks@)).len() <= usize::MAX,
    ensures
        n == joined(contents_of(chunks@)).len(),
{
    let mut nbytesread: usize = 0;
    let mut i: usize = 0;
    while i < chunks.len()
        invariant
            i <= chunks@.len(),
            nbytesread == joined(contents_of(chunks@).take(i as int)).len(),
            joined(contents_of(chunks@)).len() <= usize::MAX,
        decreases chunks@.len() - i,
    {
        proof {
            let next = contents_of(chunks@).take(i + 1);
            assert(next.drop_last() =~= contents_of(chunks@).take(i as int));
            assert(next.last() == buffer_contents(chunks@[i as int]));
            lemma_joined_prefix(contents_of(chunks@), i + 1);
        }
        nbytesread += chunks[i].len();
        i += 1;
    }
    proof {
        assert(contents_of(chunks@).take(i as int) =~= contents_of(chunks@));
    }
    nbytesread
}

} // verus!
