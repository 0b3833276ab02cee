//! Laws of the capture state machine, proved over its spec-level
//! transition: runs of accepted events accumulate exactly the delivered
//! planes, completion hands all of them off, cancellation surrenders all of
//! them, and out-of-order events are always rejected.

use vstd::prelude::*;
use crate::frame::PlaneBuffer;
use crate::session::{
    cancel_kind_of, event_planes, inv, plane_of, requested_session, spec_step, spent, FrameEvent,
    ProtocolViolation, SessionView, StepView,
};

verus! {

/// The session value after applying each event of `evs` in order.
pub open spec fn run_steps(s: SessionView, evs: Seq<FrameEvent>) -> SessionView
    decreases evs.len(),
{
    if evs.len() == 0 {
        s
    } else {
        run_steps(spec_step(s, evs[0]).0, evs.drop_first())
    }
}

/// Every event of `evs`, applied in order, is accepted: each step's
/// outcome is `Progress`.
pub open spec fn all_progress(s: SessionView, evs: Seq<FrameEvent>) -> bool
    decreases evs.len(),
{
    evs.len() == 0 || (spec_step(s, evs[0]).1 is Progress && all_progress(
        spec_step(s, evs[0]).0,
        evs.drop_first(),
    ))
}

/// The plane records of the `Object` events of `evs`, in delivery order.
pub open spec fn delivered_planes(evs: Seq<FrameEvent>) -> Seq<PlaneBuffer>
    decreases evs.len(),
{
    if evs.len() == 0 {
        Seq::empty()
    } else {
        event_planes(evs[0]) + delivered_planes(evs.drop_first())
    }
}

/// While a frame is in flight and every event is accepted, the session
/// accumulates exactly the planes of the delivered `Object` events, in
/// delivery order, stays well formed, and stays in flight.
pub proof fn lemma_progress_accumulates(s: SessionView, evs: Seq<FrameEvent>)
    requires
        inv(s),
        s.phase is Requested || s.phase is Accumulating,
        all_progress(s, evs),
    ensures
        inv(run_steps(s, evs)),
        run_steps(s, evs).phase is Requested || run_steps(s, evs).phase is Accumulating,
        run_steps(s, evs).buffers == s.buffers + delivered_planes(evs),
        s.phase is Accumulating ==> run_steps(s, evs).phase is Accumulating && run_steps(
            s,
            evs,
        ).meta == s.meta,
    decreases evs.len(),
{
    if evs.len() == 0 {
        assert(run_steps(s, evs).buffers =~= s.buffers + delivered_planes(evs));
    } else {
        let s1 = spec_step(s, evs[0]).0;
        lemma_progress_accumulates(s1, evs.drop_first());
        assert(run_steps(s, evs).buffers =~= s.buffers + delivered_planes(evs));
    }
}

/// For every run in which each event up to the terminal one was accepted
/// and the terminal `Ready` event completes the frame: the completed frame
/// carries exactly the planes of the delivered `Object` events, in delivery
/// order; their number equals the declared object count; and wherever the
/// delivered raw handles differ, the frame's differ too, so pairwise
/// distinct handles stay pairwise distinct.
pub proof fn lemma_completed_frame_has_all_planes(evs: Seq<FrameEvent>, last: FrameEvent)
    requires
        all_progress(requested_session(), evs),
        last is Ready,
        spec_step(run_steps(requested_session(), evs), last).1 is Completed,
    ensures
        ({
            let frame = spec_step(run_steps(requested_session(), evs), last).1->frame;
            &&& frame.buffers == delivered_planes(evs)
            &&& frame.buffers.len() == frame.meta.num_objects
            &&& forall|i: int, j: int|
                0 <= i < delivered_planes(evs).len() && 0 <= j
                    < delivered_planes(evs).len() && delivered_planes(
                    evs,
                )[i].handle.raw_value() != delivered_planes(evs)[j].handle.raw_value()
                    ==> frame.buffers[i].handle.raw_value() != frame.buffers[j].handle.raw_value()
        }),
{
    lemma_progress_accumulates(requested_session(), evs);
    assert(requested_session().buffers + delivered_planes(evs)
        =~= delivered_planes(evs));
}

/// For every run in which each event was accepted, a cancellation at that
/// point surrenders every accumulated plane for closing — all of the
/// delivered ones, in delivery order — retains none in the session, and
/// exposes no frame to the caller.
pub proof fn lemma_cancelled_discards_all_planes(evs: Seq<FrameEvent>, reason: u32)
    requires
        all_progress(requested_session(), evs),
    ensures
        ({
            let t = spec_step(run_steps(requested_session(), evs), FrameEvent::Cancel { reason }).0;
            let o = spec_step(run_steps(requested_session(), evs), FrameEvent::Cancel { reason }).1;
            &&& o matches StepView::Cancelled { kind, reason: code, discard } && kind
                == cancel_kind_of(reason) && code == reason && discard
                == delivered_planes(evs)
            &&& t.buffers.len() == 0
        }),
{
    lemma_progress_accumulates(requested_session(), evs);
    assert(requested_session().buffers + delivered_planes(evs)
        =~= delivered_planes(evs));
}

/// A second metadata event for a frame still in flight is rejected as
/// `DuplicateFrame`, spends the session, and surrenders the accumulated
/// planes.
pub proof fn lemma_duplicate_frame_rejected(s: SessionView, ev: FrameEvent)
    requires
        s.phase is Accumulating,
        ev is Frame,
    ensures
        spec_step(s, ev).1 matches StepView::Violation { violation, discard } && violation
            == ProtocolViolation::DuplicateFrame && discard == s.buffers,
        spec_step(s, ev).0 == spent(s),
{
}

/// An `Object` event after the terminal event is rejected with a
/// diagnosable violation: nothing is appended, the session value is
/// unchanged, and the event's own handle is surrendered for closing.
pub proof fn lemma_object_after_terminal_rejected(s: SessionView, ev: FrameEvent)
    requires
        s.phase is Finished,
        ev is Object,
    ensures
        spec_step(s, ev).0 == s,
        spec_step(s, ev).1 matches StepView::Violation { violation, discard } && violation
            == ProtocolViolation::EventAfterTerminal && discard == seq![plane_of(ev)],
{
    assert(event_planes(ev) =~= seq![plane_of(ev)]);
}

} // verus!
