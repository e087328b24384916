//! The protocol's laws: what iterated polling yields, stated and proved over
//! the same [`step`] relation that the executable contracts use.

use vstd::prelude::*;
use crate::body::delegated;
use crate::body::exhausted;
use crate::body::step;
use crate::body::BodyView;
use crate::frame::EventView;
use crate::frame::OutcomeView;

verus! {

/// The outcome sequence and final state of polling a body in state `pre`
/// once per event of `evs`, in order.
pub open spec fn run(pre: BodyView, evs: Seq<EventView>) -> (BodyView, Seq<OutcomeView>)
    decreases evs.len(),
{
    if evs.len() == 0 {
        (pre, Seq::empty())
    } else {
        let first = step(pre, evs[0]);
        let rest = run(first.0, evs.drop_first());
        (rest.0, seq![first.1] + rest.1)
    }
}

/// The payloads of the data frames among the outcomes `outs`, in order.
pub open spec fn emitted(outs: Seq<OutcomeView>) -> Seq<Seq<u8>>
    decreases outs.len(),
{
    if outs.len() == 0 {
        Seq::empty()
    } else {
        match outs[0] {
            OutcomeView::Frame(payload) => seq![payload] + emitted(outs.drop_first()),
            _ => emitted(outs.drop_first()),
        }
    }
}

/// The chunk payloads among the source events `evs`, in order.
pub open spec fn offered(evs: Seq<EventView>) -> Seq<Seq<u8>>
    decreases evs.len(),
{
    if evs.len() == 0 {
        Seq::empty()
    } else {
        match evs[0] {
            EventView::Data(chunk) => seq![chunk] + offered(evs.drop_first()),
            _ => offered(evs.drop_first()),
        }
    }
}

/// One outcome is produced per poll: `run` yields exactly one outcome per
/// event.
pub proof fn lemma_run_length(pre: BodyView, evs: Seq<EventView>)
    ensures
        run(pre, evs).1.len() == evs.len(),
    decreases evs.len(),
{
    if evs.len() > 0 {
        lemma_run_length(step(pre, evs[0]).0, evs.drop_first());
    }
}

/// Whether `a` and `b` are the same variant of the closed union.
pub open spec fn same_variant(a: BodyView, b: BodyView) -> bool {
    &&& (a is Direct <==> b is Direct)
    &&& (a is Buffered <==> b is Buffered)
    &&& (a is FileBacked <==> b is FileBacked)
    &&& (a is QuicClient <==> b is QuicClient)
    &&& (a is QuicServer <==> b is QuicServer)
}

/// The active variant never changes after construction: one poll takes a
/// body to a state of the same variant, whatever the source reported.
pub proof fn lemma_variant_never_changes(pre: BodyView, ev: EventView)
    ensures
        same_variant(pre, step(pre, ev).0),
{
}

/// Exhaustion is an idempotent terminal state: one poll of an
/// already-exhausted body reports exhaustion again, leaves the body
/// unchanged, and ignores whatever the source reported.
pub proof fn lemma_exhaustion_is_terminal(pre: BodyView, ev: EventView)
    requires
        exhausted(pre),
    ensures
        step(pre, ev) == (pre, OutcomeView::Exhausted),
{
}

/// An exhausted body reports exhaustion on every later poll, never resuming
/// and never erroring, whatever the source reports.
pub proof fn lemma_exhausted_forever(pre: BodyView, evs: Seq<EventView>)
    requires
        exhausted(pre),
    ensures
        run(pre, evs).0 == pre,
        forall|i: int|
            0 <= i < run(pre, evs).1.len() ==> run(pre, evs).1[i] == OutcomeView::Exhausted,
    decreases evs.len(),
{
    if evs.len() > 0 {
        lemma_exhausted_forever(pre, evs.drop_first());
    }
}

/// A body built from one in-memory payload (the byte and text constructors)
/// yields exactly one frame, carrying the whole payload — the empty payload
/// included, as one zero-length frame — and reports exhaustion on every
/// later poll.
pub proof fn lemma_single_payload_protocol(payload: Seq<u8>, evs: Seq<EventView>)
    requires
        evs.len() >= 1,
    ensures
        run(BodyView::Buffered { pending: seq![payload] }, evs).1.len() == evs.len(),
        run(BodyView::Buffered { pending: seq![payload] }, evs).1[0] == OutcomeView::Frame(
            payload,
        ),
        forall|i: int|
            1 <= i < evs.len() ==> run(BodyView::Buffered { pending: seq![payload] }, evs).1[i]
                == OutcomeView::Exhausted,
        exhausted(run(BodyView::Buffered { pending: seq![payload] }, evs).0),
{
    let pre = BodyView::Buffered { pending: seq![payload] };
    lemma_run_length(pre, evs);
    let first = step(pre, evs[0]);
    assert(seq![payload].drop_first() =~= Seq::<Seq<u8>>::empty());
    assert(exhausted(first.0));
    lemma_exhausted_forever(first.0, evs.drop_first());
    lemma_run_length(first.0, evs.drop_first());
}

/// Delegation is faithful: a body whose frames come from an external source
/// (the direct, file-backed and transport variants) repackages each chunk
/// the source yields into exactly one data frame, unchanged, unsplit and in
/// order.  As long as the source only yields chunks or is not ready, the
/// emitted payloads are exactly the offered chunks and the body's state is
/// unchanged.
pub proof fn lemma_delegation_is_faithful(pre: BodyView, evs: Seq<EventView>)
    requires
        delegated(pre),
        !exhausted(pre),
        forall|i: int| 0 <= i < evs.len() ==> evs[i] is Data || evs[i] is Pending,
    ensures
        run(pre, evs).0 == pre,
        emitted(run(pre, evs).1) == offered(evs),
    decreases evs.len(),
{
    if evs.len() > 0 {
        let first = step(pre, evs[0]);
        let rest = run(pre, evs.drop_first());
        lemma_delegation_is_faithful(pre, evs.drop_first());
        assert((seq![first.1] + rest.1).drop_first() =~= rest.1);
        assert((seq![first.1] + rest.1)[0] == first.1);
    }
}

/// The direct-source variant is a pure delegation: the frame sequence it
/// produces is byte-identical to what the wrapped handle yields, with no
/// byte added, dropped, or reordered.
pub proof fn lemma_direct_source_is_verbatim(evs: Seq<EventView>)
    requires
        forall|i: int| 0 <= i < evs.len() ==> evs[i] is Data || evs[i] is Pending,
    ensures
        emitted(run(BodyView::Direct { terminal: false }, evs).1) == offered(evs),
{
    lemma_delegation_is_faithful(BodyView::Direct { terminal: false }, evs);
}

/// A file-backed body reassembles the file: however the reader chunks the
/// file's bytes, the emitted frame payloads concatenate, in order, to
/// exactly the bytes the reader offered.
pub proof fn lemma_file_reassembles_content(evs: Seq<EventView>)
    requires
        forall|i: int| 0 <= i < evs.len() ==> evs[i] is Data || evs[i] is Pending,
    ensures
        emitted(run(BodyView::FileBacked { terminal: false }, evs).1).flatten() == offered(
            evs,
        ).flatten(),
{
    lemma_delegation_is_faithful(BodyView::FileBacked { terminal: false }, evs);
}

/// A source failure surfaces once, as the unified error carrying the
/// source's message, and is terminal: the body keeps its variant, is
/// exhausted from then on, and reports exhaustion on every later poll.
pub proof fn lemma_failure_is_terminal(pre: BodyView, message: Seq<char>, evs: Seq<EventView>)
    requires
        delegated(pre),
        !exhausted(pre),
    ensures
        step(pre, EventView::Failed(message)).1 == OutcomeView::Failed(message),
        exhausted(step(pre, EventView::Failed(message)).0),
        same_variant(pre, step(pre, EventView::Failed(message)).0),
        forall|i: int|
            0 <= i < evs.len() ==> run(step(pre, EventView::Failed(message)).0, evs).1[i]
                == OutcomeView::Exhausted,
{
    lemma_exhausted_forever(step(pre, EventView::Failed(message)).0, evs);
    lemma_run_length(step(pre, EventView::Failed(message)).0, evs);
}

/// The source's end is reported as exhaustion and is terminal: the body
/// keeps its variant and is exhausted from then on.
pub proof fn lemma_source_end_exhausts(pre: BodyView)
    requires
        delegated(pre),
        !exhausted(pre),
    ensures
        step(pre, EventView::End).1 == OutcomeView::Exhausted,
        exhausted(step(pre, EventView::End).0),
        same_variant(pre, step(pre, EventView::End).0),
{
}

} // verus!
