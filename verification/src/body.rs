//! The unified body type and its pull-based frame-production protocol.

use vstd::prelude::*;
use vstd::pervasive::VecAdditionalExecFns;
use vstd::slice::slice_to_vec;
use vstd::string::StringSliceAdditionalSpecFns;
use crate::frame::BodyError;
use crate::frame::EventView;
use crate::frame::Frame;
use crate::frame::OutcomeView;
use crate::frame::PollOutcome;
use crate::frame::SourceEvent;

verus! {

/// Terminal-state tracking for a variant whose frames come from an external
/// source, one [`SourceEvent`] per poll.
pub struct Delegated {
    /// Whether the source has reported its end or a failure.
    pub terminal: bool,
}

/// An in-memory sequence of frames, emitted front to back.
pub struct BufferedChunks {
    /// The frame payloads, in emission order.
    pub frames: Vec<Vec<u8>>,
    /// How many frames have been emitted so far.
    pub next: usize,
}

impl BufferedChunks {
    /// The payloads not yet emitted, in emission order.
    pub open spec fn pending(&self) -> Seq<Seq<u8>> {
        if self.next <= self.frames@.len() {
            self.frames.deep_view().skip(self.next as int)
        } else {
            Seq::empty()
        }
    }
}

/// The already-adapted frame sequence of the [`HttpBody::Stream`] variant.
pub enum ChunkStream {
    /// Frames prepared at construction time from an in-memory payload.
    Buffered(BufferedChunks),
    /// Frames supplied lazily by the runtime's chunked file reader.
    File(Delegated),
}

/// The mathematical shape of an [`HttpBody`]: which variant is active, and
/// either the frames still pending (buffered) or whether the source has
/// terminated (every event-driven variant).
pub enum BodyView {
    /// An already-framed inbound body.
    Direct { terminal: bool },
    /// An in-memory frame sequence; `pending` holds the frames not yet emitted.
    Buffered { pending: Seq<Seq<u8>> },
    /// A chunked reader over an open file.
    FileBacked { terminal: bool },
    /// A QUIC receive stream in the client role.
    QuicClient { terminal: bool },
    /// A QUIC receive stream in the server role.
    QuicServer { terminal: bool },
}

/// The unified body: a closed tagged union over the supported sources.
///
/// Exactly one variant is active for the lifetime of an instance, and the
/// variant never changes after construction
/// (see [`crate::laws::lemma_variant_never_changes`]).
pub enum HttpBody {
    /// An already-framed inbound body; frames are the source's own, verbatim.
    Incoming(Delegated),
    /// An already-adapted sequence of byte frames, produced from bytes, text,
    /// or file content.
    Stream(ChunkStream),
    /// A QUIC receive stream in the client role.
    QuicClientIncoming(Delegated),
    /// A QUIC receive stream in the server role.
    QuicServerIncoming(Delegated),
}

impl View for HttpBody {
    type V = BodyView;

    open spec fn view(&self) -> BodyView {
        match self {
            HttpBody::Incoming(state) => BodyView::Direct { terminal: state.terminal },
            HttpBody::Stream(ChunkStream::Buffered(chunks)) => BodyView::Buffered {
                pending: chunks.pending(),
            },
            HttpBody::Stream(ChunkStream::File(state)) => BodyView::FileBacked {
                terminal: state.terminal,
            },
            HttpBody::QuicClientIncoming(state) => BodyView::QuicClient {
                terminal: state.terminal,
            },
            HttpBody::QuicServerIncoming(state) => BodyView::QuicServer {
                terminal: state.terminal,
            },
        }
    }
}

/// Whether a body in state `v` will never produce another frame.
pub open spec fn exhausted(v: BodyView) -> bool {
    match v {
        BodyView::Buffered { pending } => pending.len() == 0,
        BodyView::Direct { terminal } => terminal,
        BodyView::FileBacked { terminal } => terminal,
        BodyView::QuicClient { terminal } => terminal,
        BodyView::QuicServer { terminal } => terminal,
    }
}

/// Whether state `v` obtains its frames from an external source, one event
/// per poll: every variant but the buffered one.
pub open spec fn delegated(v: BodyView) -> bool {
    !(v is Buffered)
}

/// State `v` with its source marked terminal; the variant is kept.
pub open spec fn sealed(v: BodyView) -> BodyView {
    match v {
        BodyView::Buffered { pending } => BodyView::Buffered { pending },
        BodyView::Direct { .. } => BodyView::Direct { terminal: true },
        BodyView::FileBacked { .. } => BodyView::FileBacked { terminal: true },
        BodyView::QuicClient { .. } => BodyView::QuicClient { terminal: true },
        BodyView::QuicServer { .. } => BodyView::QuicServer { terminal: true },
    }
}

/// The frame-production protocol: one poll of a body in state `pre`, with the
/// underlying source having reported `ev`, yields the successor state and the
/// outcome handed to the consumer.
///
/// An exhausted body reports exhaustion forever and ignores the event.  A
/// buffered body emits its pending frames front to back and never consults a
/// source.  Every other variant repackages each chunk the source yields into
/// exactly one data frame, unchanged and unsplit; the source's end is reported
/// as exhaustion, and a source failure is reported once as the unified error,
/// after which the body is exhausted.
pub open spec fn step(pre: BodyView, ev: EventView) -> (BodyView, OutcomeView) {
    if exhausted(pre) {
        (pre, OutcomeView::Exhausted)
    } else {
        match pre {
            BodyView::Buffered { pending } => (
                BodyView::Buffered { pending: pending.drop_first() },
                OutcomeView::Frame(pending[0]),
            ),
            _ => match ev {
                EventView::Data(chunk) => (pre, OutcomeView::Frame(chunk)),
                EventView::End => (sealed(pre), OutcomeView::Exhausted),
                EventView::Failed(message) => (sealed(pre), OutcomeView::Failed(message)),
                EventView::Pending => (pre, OutcomeView::Pending),
            },
        }
    }
}

/// Whether a poll of a body in state `v` must be preceded by one poll of the
/// underlying source handle.  A buffered body never needs one, nor does any
/// exhausted body.
pub open spec fn wants_event(v: BodyView) -> bool {
    delegated(v) && !exhausted(v)
}

impl BufferedChunks {
    /// Emits the next pending frame, or reports exhaustion.
    fn poll(&mut self) -> (r: PollOutcome)
        ensures
            old(self).pending().len() == 0 ==> *final(self) == *old(self) && r@
                == OutcomeView::Exhausted,
            old(self).pending().len() > 0 ==> final(self).pending() == old(
                self,
            ).pending().drop_first() && r@ == OutcomeView::Frame(old(self).pending()[0]),
    {
        if self.next < self.frames.len() {
            let mut taken: Vec<u8> = Vec::new();
            self.frames.set_and_swap(self.next, &mut taken);
            self.next = self.next + 1;
            proof {
                assert(taken@ =~= taken.deep_view());
                assert(taken.deep_view() =~= old(self).pending()[0]);
                assert(self.pending() =~= old(self).pending().drop_first());
            }
            PollOutcome::Frame(Frame::new(taken))
        } else {
            PollOutcome::Exhausted
        }
    }
}

/// One poll of an event-driven variant: repackages the source's report.
fn delegated_poll(state: &mut Delegated, event: SourceEvent) -> (r: PollOutcome)
    ensures
        old(state).terminal ==> *final(state) == *old(state) && r@ == OutcomeView::Exhausted,
        !old(state).terminal ==> match event@ {
            EventView::Data(chunk) => *final(state) == *old(state) && r@ == OutcomeView::Frame(
                chunk,
            ),
            EventView::End => final(state).terminal && r@ == OutcomeView::Exhausted,
            EventView::Failed(message) => final(state).terminal && r@ == OutcomeView::Failed(
                message,
            ),
            EventView::Pending => *final(state) == *old(state) && r@ == OutcomeView::Pending,
        },
{
    if state.terminal {
        PollOutcome::Exhausted
    } else {
        match event {
            SourceEvent::Data(chunk) => PollOutcome::Frame(Frame::new(chunk)),
            SourceEvent::End => {
                state.terminal = true;
                PollOutcome::Exhausted
            },
            SourceEvent::Failed(message) => {
                state.terminal = true;
                PollOutcome::Failed(BodyError::other(message))
            },
            SourceEvent::Pending => PollOutcome::Pending,
        }
    }
}

impl HttpBody {
    /// Wraps an already-existing inbound body, verbatim.
    ///
    /// The inbound handle stays with the runtime binding, which polls it and
    /// reports each result to [`HttpBody::poll_frame`] as a [`SourceEvent`];
    /// this value tracks the protocol state.  Frames are the handle's own:
    /// no byte is added, dropped, or reordered.
    pub fn from_incoming() -> (r: HttpBody)
        ensures
            r@ == (BodyView::Direct { terminal: false }),
    {
        HttpBody::Incoming(Delegated { terminal: false })
    }

    /// Wraps a QUIC receive stream scoped to the client role.
    ///
    /// The stream handle stays with the transport binding, which polls it for
    /// received byte ranges and reports each to [`HttpBody::poll_frame`] as a
    /// [`SourceEvent`].  No bytes are read until the first poll; each received
    /// range becomes exactly one data frame.
    pub fn from_quic_client() -> (r: HttpBody)
        ensures
            r@ == (BodyView::QuicClient { terminal: false }),
    {
        HttpBody::QuicClientIncoming(Delegated { terminal: false })
    }

    /// Wraps a QUIC receive stream scoped to the server role.
    ///
    /// Identical to [`HttpBody::from_quic_client`] but for the stream's role
    /// tag.
    pub fn from_quic_server() -> (r: HttpBody)
        ensures
            r@ == (BodyView::QuicServer { terminal: false }),
    {
        HttpBody::QuicServerIncoming(Delegated { terminal: false })
    }

    /// Copies the UTF-8 bytes of `text` into an owned buffer and wraps them
    /// as a single-frame sequence: exactly one data frame carrying the whole
    /// payload, then exhaustion.  An empty text still yields one zero-length
    /// frame.
    pub fn from_text(text: &str) -> (r: HttpBody)
        ensures
            r@ == (BodyView::Buffered { pending: seq![text.spec_bytes()] }),
    {
        Self::from_bytes(text.as_bytes())
    }

    /// Copies `data` into an owned buffer and wraps it as a single-frame
    /// sequence: exactly one data frame carrying the whole payload, then
    /// exhaustion.  An empty slice still yields one zero-length frame.
    pub fn from_bytes(data: &[u8]) -> (r: HttpBody)
        ensures
            r@ == (BodyView::Buffered { pending: seq![data@] }),
    {
        let payload: Vec<u8> = slice_to_vec(data);
        let mut frames: Vec<Vec<u8>> = Vec::new();
        frames.push(payload);
        let chunks = BufferedChunks { frames, next: 0 };
        proof {
            assert(chunks.pending() =~~= seq![data@]);
        }
        HttpBody::Stream(ChunkStream::Buffered(chunks))
    }

    /// Wraps an open file: a lazy, finite, non-restartable sequence of data
    /// frames, each carrying one chunk of the file, in file order.
    ///
    /// The open handle and the runtime's chunked reader stay with the caller,
    /// which reports each read to [`HttpBody::poll_frame`] as a
    /// [`SourceEvent`]: a chunk as `Data` (the chunk size is the reader's
    /// choice, not part of this contract), end-of-file as `End`, and a read
    /// failure as `Failed`.  Dropping the reader releases the handle; no
    /// final poll is required.
    pub fn from_file() -> (r: HttpBody)
        ensures
            r@ == (BodyView::FileBacked { terminal: false }),
    {
        HttpBody::Stream(ChunkStream::File(Delegated { terminal: false }))
    }

    /// Produces the next frame: the single pull operation of the abstraction.
    ///
    /// `event` is what one poll of the underlying source reported, supplied
    /// by the runtime binding that owns the handle; it is consulted only when
    /// [`HttpBody::wants_event`] holds (a buffered or exhausted body ignores
    /// it, and the source need not be polled for one).  The state change and
    /// the outcome are exactly [`step`] of the current state and the event.
    pub fn poll_frame(&mut self, event: SourceEvent) -> (r: PollOutcome)
        ensures
            final(self)@ == step(old(self)@, event@).0,
            r@ == step(old(self)@, event@).1,
    {
        match self {
            HttpBody::Incoming(state) => delegated_poll(state, event),
            HttpBody::Stream(ChunkStream::Buffered(chunks)) => chunks.poll(),
            HttpBody::Stream(ChunkStream::File(state)) => delegated_poll(state, event),
            HttpBody::QuicClientIncoming(state) => delegated_poll(state, event),
            HttpBody::QuicServerIncoming(state) => delegated_poll(state, event),
        }
    }

    /// Produces the next item of the body seen as a generic byte-frame
    /// sequence.
    ///
    /// This is the sequence-production alias of [`HttpBody::poll_frame`]: a
    /// pure forwarding, so both interfaces observe the identical sequence of
    /// frames.
    pub fn poll_next(&mut self, event: SourceEvent) -> (r: PollOutcome)
        ensures
            final(self)@ == step(old(self)@, event@).0,
            r@ == step(old(self)@, event@).1,
    {
        self.poll_frame(event)
    }

    /// Whether the next [`HttpBody::poll_frame`] call must be preceded by one
    /// poll of the underlying source handle.
    pub fn wants_event(&self) -> (r: bool)
        ensures
            r == wants_event(self@),
    {
        match self {
            HttpBody::Incoming(state) => !state.terminal,
            HttpBody::Stream(ChunkStream::Buffered(_)) => false,
            HttpBody::Stream(ChunkStream::File(state)) => !state.terminal,
            HttpBody::QuicClientIncoming(state) => !state.terminal,
            HttpBody::QuicServerIncoming(state) => !state.terminal,
        }
    }

    /// Whether this body will never produce another frame.
    pub fn is_exhausted(&self) -> (r: bool)
        ensures
            r == exhausted(self@),
    {
        match self {
            HttpBody::Incoming(state) => state.terminal,
            HttpBody::Stream(ChunkStream::Buffered(chunks)) => chunks.next >= chunks.frames.len(),
            HttpBody::Stream(ChunkStream::File(state)) => state.terminal,
            HttpBody::QuicClientIncoming(state) => state.terminal,
            HttpBody::QuicServerIncoming(state) => state.terminal,
        }
    }
}

} // verus!
