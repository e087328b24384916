//! The protocol surface types: frames, source events, poll outcomes, and the
//! unified error kind.

use vstd::prelude::*;

verus! {

/// One unit of body payload: a contiguous byte range produced by one poll.
pub struct Frame {
    data: Vec<u8>,
}

impl View for Frame {
    type V = Seq<u8>;

    closed spec fn view(&self) -> Seq<u8> {
        self.data@
    }
}

impl Frame {
    /// Wraps a byte payload as a data frame, without altering it.
    pub fn new(data: Vec<u8>) -> (r: Frame)
        ensures
            r@ == data@,
    {
        Frame { data }
    }

    /// Borrows the payload bytes.
    pub fn payload(&self) -> (r: &Vec<u8>)
        ensures
            r@ == self@,
    {
        &self.data
    }

    /// Unwraps the frame into its payload bytes.
    pub fn into_payload(self) -> (r: Vec<u8>)
        ensures
            r@ == self@,
    {
        self.data
    }

    /// The payload length in bytes.
    pub fn len(&self) -> (r: usize)
        ensures
            r == self@.len(),
    {
        self.data.len()
    }
}

/// The unified error kind.
///
/// Every lower-layer failure — a direct-source read failure, a file read
/// failure, or a transport receive failure — is reported as this one kind,
/// carrying a message derived from the original cause.
pub struct BodyError {
    message: String,
}

impl View for BodyError {
    type V = Seq<char>;

    closed spec fn view(&self) -> Seq<char> {
        self.message@
    }
}

impl BodyError {
    /// Wraps a lower-layer failure, described by `message`.
    pub fn other(message: String) -> (r: BodyError)
        ensures
            r@ == message@,
    {
        BodyError { message }
    }

    /// Borrows the descriptive message.
    pub fn message(&self) -> (r: &String)
        ensures
            r@ == self@,
    {
        &self.message
    }

    /// Unwraps the error into its descriptive message.
    pub fn into_message(self) -> (r: String)
        ensures
            r@ == self@,
    {
        self.message
    }
}

/// What one poll of an underlying source reported, as handed to
/// [`crate::body::HttpBody::poll_frame`] by the runtime binding that owns the
/// source handle.
pub enum SourceEvent {
    /// The source yielded a chunk of bytes.
    Data(Vec<u8>),
    /// The source reached its end; it will yield no more bytes.
    End,
    /// The source failed, with a message describing the cause.
    Failed(String),
    /// The source has no data yet; the caller will be woken later.
    Pending,
}

/// The mathematical shape of a [`SourceEvent`].
pub enum EventView {
    Data(Seq<u8>),
    End,
    Failed(Seq<char>),
    Pending,
}

impl View for SourceEvent {
    type V = EventView;

    open spec fn view(&self) -> EventView {
        match self {
            SourceEvent::Data(chunk) => EventView::Data(chunk@),
            SourceEvent::End => EventView::End,
            SourceEvent::Failed(message) => EventView::Failed(message@),
            SourceEvent::Pending => EventView::Pending,
        }
    }
}

/// The result of one poll of the body: the single consumption contract.
pub enum PollOutcome {
    /// Ready: a data frame is available.
    Frame(Frame),
    /// Ready: no more frames will ever be produced by this body.
    Exhausted,
    /// Ready: the poll failed; the body reports exhaustion from now on.
    Failed(BodyError),
    /// Not ready: the caller must suspend until the source wakes it.
    Pending,
}

/// The mathematical shape of a [`PollOutcome`].
pub enum OutcomeView {
    Frame(Seq<u8>),
    Exhausted,
    Failed(Seq<char>),
    Pending,
}

impl View for PollOutcome {
    type V = OutcomeView;

    open spec fn view(&self) -> OutcomeView {
        match self {
            PollOutcome::Frame(frame) => OutcomeView::Frame(frame@),
            PollOutcome::Exhausted => OutcomeView::Exhausted,
            PollOutcome::Failed(error) => OutcomeView::Failed(error@),
            PollOutcome::Pending => OutcomeView::Pending,
        }
    }
}

} // verus!
