//! The per-frame capture state machine. One `FrameSession` drives one frame
//! object from the capture request through the events the server emits for
//! it, to exactly one terminal outcome. Every kernel buffer handle the
//! server delivers is accounted for on every path: handed off inside a
//! completed frame, or surrendered for closing in the step outcome.

use vstd::prelude::*;
use crate::binder::CapabilityProxy;
use crate::frame::{modifier_of, BufferHandle, CapturedFrame, FrameMetadata, FrameView, PlaneBuffer};

verus! {

/// Lifecycle phase of one frame object.
#[derive(Clone, Copy, PartialEq, Eq, Structural, Debug)]
pub enum Phase {
    /// No capture request has been issued for this frame object yet.
    Idle,
    /// The capture request went out; no event has arrived yet.
    Requested,
    /// The metadata event arrived; plane buffers are being delivered.
    Accumulating,
    /// A terminal event or a violation was processed; the frame object is
    /// spent and accepts no further event.
    Finished,
}

/// Why the server cancelled a capture, as far as the protocol communicates
/// the distinction.
#[derive(Clone, Copy, PartialEq, Eq, Structural, Debug)]
pub enum CancelKind {
    /// Transient failure; a new capture may succeed.
    Temporary,
    /// Permanent failure; retrying will not help.
    Permanent,
    /// The output is changing size; retry once it settles.
    Resizing,
    /// A reason code this client does not know; kept as an opaque code.
    Unknown,
}

/// The cancellation kind a wire reason code communicates: 0 is transient,
/// 1 permanent, 2 resizing; anything else is opaque.
pub open spec fn cancel_kind_of(reason: u32) -> CancelKind {
    if reason == 0 {
        CancelKind::Temporary
    } else if reason == 1 {
        CancelKind::Permanent
    } else if reason == 2 {
        CancelKind::Resizing
    } else {
        CancelKind::Unknown
    }
}

/// Classify a wire cancellation reason code.
pub fn cancel_kind(reason: u32) -> (k: CancelKind)
    ensures
        k == cancel_kind_of(reason),
{
    if reason == 0 {
        CancelKind::Temporary
    } else if reason == 1 {
        CancelKind::Permanent
    } else if reason == 2 {
        CancelKind::Resizing
    } else {
        CancelKind::Unknown
    }
}

/// One typed event the server emits for a frame object.
pub enum FrameEvent {
    /// Frame metadata: dimensions, pixel format, the format modifier in two
    /// 32-bit halves, and the number of plane buffers that will follow.
    Frame {
        width: u32,
        height: u32,
        offset_x: u32,
        offset_y: u32,
        buffer_flags: u32,
        flags: u32,
        format: u32,
        mod_high: u32,
        mod_low: u32,
        num_objects: u32,
    },
    /// One plane's buffer: the delivered kernel handle and its layout. The
    /// event owns the handle until the session takes it.
    Object { index: u32, handle: BufferHandle, offset: u32, stride: u32, size: u32 },
    /// The capture succeeded; carries the presentation time.
    Ready { tv_sec_hi: u32, tv_sec_lo: u32, tv_nsec: u32 },
    /// The capture failed; carries the wire reason code.
    Cancel { reason: u32 },
}

/// The metadata a `Frame` event declares, with the modifier reconstructed.
pub open spec fn metadata_of(ev: FrameEvent) -> FrameMetadata
    recommends
        ev is Frame,
{
    FrameMetadata {
        width: ev->width,
        height: ev->height,
        offset_x: ev->offset_x,
        offset_y: ev->offset_y,
        format: ev->format,
        modifier: modifier_of(ev->mod_high, ev->mod_low),
        num_objects: ev->num_objects,
        buffer_flags: ev->buffer_flags,
        flags: ev->flags,
    }
}

/// The plane record an `Object` event carries.
pub open spec fn plane_of(ev: FrameEvent) -> PlaneBuffer
    recommends
        ev is Object,
{
    PlaneBuffer {
        index: ev->index,
        handle: ev->handle,
        offset: ev->offset,
        stride: ev->stride,
        size: ev->size,
    }
}

/// The handles an event carries, as plane records: what a step that rejects
/// the event must surrender so that nothing leaks.
pub open spec fn event_planes(ev: FrameEvent) -> Seq<PlaneBuffer> {
    if ev is Object {
        seq![plane_of(ev)]
    } else {
        Seq::empty()
    }
}

/// How the server broke the per-frame event protocol. All of these are
/// fatal for the session: the client must not guess at recovery.
#[derive(Clone, Copy, PartialEq, Eq, Structural, Debug)]
pub enum ProtocolViolation {
    /// An event arrived for a frame object whose capture was never requested.
    EventBeforeRequest,
    /// A second metadata event arrived before a terminal event.
    DuplicateFrame,
    /// A plane buffer arrived before the metadata event.
    ObjectBeforeFrame,
    /// The ready event arrived before the metadata event.
    ReadyBeforeFrame,
    /// The ready event arrived, but the number of delivered plane buffers
    /// differs from the declared object count.
    ObjectCountMismatch { declared: u32, delivered: usize },
    /// An event arrived after the frame object already reached its terminal
    /// outcome.
    EventAfterTerminal,
}

/// What the driver must do after one event was applied to a frame session.
pub enum Step {
    /// The event was consumed; the frame is still in flight.
    Progress,
    /// The capture succeeded: the completed frame, ownership of every
    /// delivered handle included, is handed to the caller. The driver then
    /// releases the protocol object.
    Completed { frame: CapturedFrame },
    /// The capture was cancelled: every handle accumulated so far is
    /// surrendered in `discard` and must be closed; nothing is exposed to
    /// the consumer of the frame.
    Cancelled { kind: CancelKind, reason: u32, discard: Vec<PlaneBuffer> },
    /// The server broke the protocol: fatal for this session. Every handle
    /// the session held, and the one the offending event carried, is
    /// surrendered in `discard` and must be closed.
    Violation { violation: ProtocolViolation, discard: Vec<PlaneBuffer> },
}

/// Spec-level value of a step outcome, with buffer lists as sequences.
#[verifier::ext_equal]
pub enum StepView {
    Progress,
    Completed { frame: FrameView },
    Cancelled { kind: CancelKind, reason: u32, discard: Seq<PlaneBuffer> },
    Violation { violation: ProtocolViolation, discard: Seq<PlaneBuffer> },
}

impl View for Step {
    type V = StepView;

    open spec fn view(&self) -> StepView {
        match self {
            Step::Progress => StepView::Progress,
            Step::Completed { frame } => StepView::Completed { frame: frame@ },
            Step::Cancelled { kind, reason, discard } => StepView::Cancelled {
                kind: *kind,
                reason: *reason,
                discard: discard@,
            },
            Step::Violation { violation, discard } => StepView::Violation {
                violation: *violation,
                discard: discard@,
            },
        }
    }
}

/// Spec-level value of a frame session.
#[verifier::ext_equal]
pub struct SessionView {
    pub phase: Phase,
    pub meta: Option<FrameMetadata>,
    pub buffers: Seq<PlaneBuffer>,
}

/// Well-formedness of a session value: metadata is present exactly from the
/// metadata event on, and a session that is not in flight holds no handles.
pub open spec fn inv(s: SessionView) -> bool {
    &&& (s.phase is Idle ==> s.meta is None && s.buffers.len() == 0)
    &&& (s.phase is Requested ==> s.meta is None && s.buffers.len() == 0)
    &&& (s.phase is Accumulating ==> s.meta is Some)
    &&& (s.phase is Finished ==> s.buffers.len() == 0)
}

/// The declared plane count, once metadata has arrived.
pub open spec fn declared_count(s: SessionView) -> u32
    recommends
        s.meta is Some,
{
    s.meta.unwrap().num_objects
}

/// The session value of a frame object before any capture request.
pub open spec fn initial_session() -> SessionView {
    SessionView { phase: Phase::Idle, meta: None, buffers: Seq::empty() }
}

/// The session value right after the capture request went out.
pub open spec fn requested_session() -> SessionView {
    SessionView { phase: Phase::Requested, meta: None, buffers: Seq::empty() }
}

/// The spent session a terminal event or a violation leaves behind: no
/// handles are retained.
pub open spec fn spent(s: SessionView) -> SessionView {
    SessionView { phase: Phase::Finished, meta: s.meta, buffers: Seq::empty() }
}

/// One transition of the frame state machine: the session value after the
/// event, and the step outcome the driver receives. This is the whole
/// behaviour of `FrameSession::handle_event`.
pub open spec fn spec_step(s: SessionView, ev: FrameEvent) -> (SessionView, StepView) {
    match s.phase {
        Phase::Idle => (
            spent(s),
            StepView::Violation {
                violation: ProtocolViolation::EventBeforeRequest,
                discard: s.buffers + event_planes(ev),
            },
        ),
        Phase::Requested => match ev {
            FrameEvent::Frame { .. } => (
                SessionView { phase: Phase::Accumulating, meta: Some(metadata_of(ev)), buffers: s.buffers },
                StepView::Progress,
            ),
            FrameEvent::Object { .. } => (
                spent(s),
                StepView::Violation {
                    violation: ProtocolViolation::ObjectBeforeFrame,
                    discard: s.buffers + event_planes(ev),
                },
            ),
            FrameEvent::Ready { .. } => (
                spent(s),
                StepView::Violation {
                    violation: ProtocolViolation::ReadyBeforeFrame,
                    discard: s.buffers,
                },
            ),
            FrameEvent::Cancel { reason } => (
                spent(s),
                StepView::Cancelled {
                    kind: cancel_kind_of(reason),
                    reason,
                    discard: s.buffers,
                },
            ),
        },
        Phase::Accumulating => match ev {
            FrameEvent::Frame { .. } => (
                spent(s),
                StepView::Violation {
                    violation: ProtocolViolation::DuplicateFrame,
                    discard: s.buffers,
                },
            ),
            FrameEvent::Object { .. } => (
                SessionView { phase: s.phase, meta: s.meta, buffers: s.buffers.push(plane_of(ev)) },
                StepView::Progress,
            ),
            FrameEvent::Ready { .. } => if s.buffers.len() == declared_count(s) {
                (
                    spent(s),
                    StepView::Completed {
                        frame: FrameView { meta: s.meta.unwrap(), buffers: s.buffers },
                    },
                )
            } else {
                (
                    spent(s),
                    StepView::Violation {
                        violation: ProtocolViolation::ObjectCountMismatch {
                            declared: declared_count(s),
                            delivered: s.buffers.len() as usize,
                        },
                        discard: s.buffers,
                    },
                )
            },
            FrameEvent::Cancel { reason } => (
                spent(s),
                StepView::Cancelled {
                    kind: cancel_kind_of(reason),
                    reason,
                    discard: s.buffers,
                },
            ),
        },
        Phase::Finished => (
            s,
            StepView::Violation {
                violation: ProtocolViolation::EventAfterTerminal,
                discard: event_planes(ev),
            },
        ),
    }
}

/// The one-shot capture request the connection layer must send: which
/// manager proxy captures which output, and whether the cursor is
/// composited into the frame.
pub struct CaptureRequest {
    pub manager_proxy_id: u32,
    pub overlay_cursor: u32,
    pub output_proxy_id: u32,
}

/// The capture session for one frame object. Created idle; one capture
/// request moves it in flight; server events drive it to exactly one
/// terminal outcome.
pub struct FrameSession {
    phase: Phase,
    meta: Option<FrameMetadata>,
    buffers: Vec<PlaneBuffer>,
}

impl View for FrameSession {
    type V = SessionView;

    closed spec fn view(&self) -> SessionView {
        SessionView { phase: self.phase, meta: self.meta, buffers: self.buffers@ }
    }
}

impl FrameSession {
    /// A frame object with no outstanding request.
    pub fn new() -> (s: FrameSession)
        ensures
            s@ == initial_session(),
    {
        let s = FrameSession { phase: Phase::Idle, meta: None, buffers: Vec::new() };
        proof {
            assert(s@ =~= initial_session());
        }
        s
    }

    /// The current lifecycle phase.
    pub fn phase(&self) -> (p: Phase)
        ensures
            p == self@.phase,
    {
        self.phase
    }

    /// How many plane buffers have been accumulated so far.
    pub fn accumulated(&self) -> (n: usize)
        ensures
            n == self@.buffers.len(),
    {
        self.buffers.len()
    }

    /// Issue the one-shot capture request for this frame object: names the
    /// target output, and whether the cursor is composited in. Requires
    /// both proxies to be bound already; the session enters `Requested` and
    /// the returned request is what the connection layer sends.
    pub fn start_capture(
        &mut self,
        manager: &CapabilityProxy,
        output: &CapabilityProxy,
        overlay_cursor: bool,
    ) -> (r: CaptureRequest)
        requires
            inv(old(self)@),
            old(self)@.phase is Idle,
        ensures
            final(self)@ == requested_session(),
            r.manager_proxy_id == manager.proxy_id,
            r.output_proxy_id == output.proxy_id,
            r.overlay_cursor == (if overlay_cursor { 1u32 } else { 0u32 }),
    {
        self.phase = Phase::Requested;
        proof {
            assert(self@ =~= requested_session());
        }
        CaptureRequest {
            manager_proxy_id: manager.proxy_id,
            overlay_cursor: if overlay_cursor { 1 } else { 0 },
            output_proxy_id: output.proxy_id,
        }
    }

    /// Move every accumulated buffer out of the session.
    fn drain(&mut self) -> (b: Vec<PlaneBuffer>)
        ensures
            b@ == old(self)@.buffers,
            final(self)@ == (SessionView { buffers: Seq::empty(), ..old(self)@ }),
    {
        let mut drained: Vec<PlaneBuffer> = Vec::new();
        core::mem::swap(&mut drained, &mut self.buffers);
        proof {
            assert(self@ =~= (SessionView { buffers: Seq::empty(), ..old(self)@ }));
        }
        drained
    }

    /// Apply one server event to this frame object. The behaviour is
    /// exactly the transition `spec_step` on the session's value: metadata
    /// is recorded once, each delivered plane buffer is appended in order,
    /// and a terminal event or a violation spends the session, surrendering
    /// every handle that is not handed off inside a completed frame.
    pub fn handle_event(&mut self, ev: FrameEvent) -> (r: Step)
        requires
            inv(old(self)@),
        ensures
            final(self)@ == spec_step(old(self)@, ev).0,
            r@ == spec_step(old(self)@, ev).1,
            inv(final(self)@),
    {
        match self.phase {
            Phase::Idle => {
                let mut discard = self.drain();
                self.phase = Phase::Finished;
                if let FrameEvent::Object { index, handle, offset, stride, size } = ev {
                    discard.push(PlaneBuffer { index, handle, offset, stride, size });
                }
                proof {
                    assert(discard@ =~= old(self)@.buffers + event_planes(ev));
                    assert(self@ =~= spent(old(self)@));
                }
                Step::Violation { violation: ProtocolViolation::EventBeforeRequest, discard }
            },
            Phase::Requested => match ev {
                FrameEvent::Frame {
                    width,
                    height,
                    offset_x,
                    offset_y,
                    buffer_flags,
                    flags,
                    format,
                    mod_high,
                    mod_low,
                    num_objects,
                } => {
                    let modifier = crate::frame::format_modifier(mod_high, mod_low);
                    self.meta = Some(
                        FrameMetadata {
                            width,
                            height,
                            offset_x,
                            offset_y,
                            format,
                            modifier,
                            num_objects,
                            buffer_flags,
                            flags,
                        },
                    );
                    self.phase = Phase::Accumulating;
                    Step::Progress
                },
                FrameEvent::Object { index, handle, offset, stride, size } => {
                    let mut discard = self.drain();
                    self.phase = Phase::Finished;
                    discard.push(PlaneBuffer { index, handle, offset, stride, size });
                    proof {
                        assert(discard@ =~= old(self)@.buffers + event_planes(
                            FrameEvent::Object { index, handle, offset, stride, size },
                        ));
                        assert(self@ =~= spent(old(self)@));
                    }
                    Step::Violation { violation: ProtocolViolation::ObjectBeforeFrame, discard }
                },
                FrameEvent::Ready { .. } => {
                    let discard = self.drain();
                    self.phase = Phase::Finished;
                    proof {
                        assert(self@ =~= spent(old(self)@));
                    }
                    Step::Violation { violation: ProtocolViolation::ReadyBeforeFrame, discard }
                },
                FrameEvent::Cancel { reason } => {
                    let discard = self.drain();
                    self.phase = Phase::Finished;
                    proof {
                        assert(self@ =~= spent(old(self)@));
                    }
                    Step::Cancelled { kind: cancel_kind(reason), reason, discard }
                },
            },
            Phase::Accumulating => match ev {
                FrameEvent::Frame { .. } => {
                    let discard = self.drain();
                    self.phase = Phase::Finished;
                    proof {
                        assert(self@ =~= spent(old(self)@));
                    }
                    Step::Violation { violation: ProtocolViolation::DuplicateFrame, discard }
                },
                FrameEvent::Object { index, handle, offset, stride, size } => {
                    self.buffers.push(PlaneBuffer { index, handle, offset, stride, size });
                    Step::Progress
                },
                FrameEvent::Ready { .. } => {
                    let meta = self.meta.unwrap();
                    if self.buffers.len() == meta.num_objects as usize {
                        let buffers = self.drain();
                        self.phase = Phase::Finished;
                        proof {
                            assert(self@ =~= spent(old(self)@));
                        }
                        Step::Completed { frame: CapturedFrame { meta, buffers } }
                    } else {
                        let delivered = self.buffers.len();
                        let discard = self.drain();
                        self.phase = Phase::Finished;
                        proof {
                            assert(self@ =~= spent(old(self)@));
                        }
                        Step::Violation {
                            violation: ProtocolViolation::ObjectCountMismatch {
                                declared: meta.num_objects,
                                delivered,
                            },
                            discard,
                        }
                    }
                },
                FrameEvent::Cancel { reason } => {
                    let discard = self.drain();
                    self.phase = Phase::Finished;
                    proof {
                        assert(self@ =~= spent(old(self)@));
                    }
                    Step::Cancelled { kind: cancel_kind(reason), reason, discard }
                },
            },
            Phase::Finished => {
                let mut discard: Vec<PlaneBuffer> = Vec::new();
                if let FrameEvent::Object { index, handle, offset, stride, size } = ev {
                    discard.push(PlaneBuffer { index, handle, offset, stride, size });
                }
                proof {
                    assert(discard@ =~= event_planes(ev));
                }
                Step::Violation { violation: ProtocolViolation::EventAfterTerminal, discard }
            },
        }
    }

    /// Abandon this frame object before its terminal event: the session is
    /// spent and every accumulated handle is surrendered for closing before
    /// the protocol object is released.
    pub fn abandon(&mut self) -> (discard: Vec<PlaneBuffer>)
        ensures
            discard@ == old(self)@.buffers,
            final(self)@ == spent(old(self)@),
    {
        let discard = self.drain();
        self.phase = Phase::Finished;
        proof {
            assert(self@ =~= spent(old(self)@));
        }
        discard
    }
}

} // verus!
