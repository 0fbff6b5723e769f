use vstd::prelude::*;

use crate::payload::CommandPayload;
use crate::record::{capture_stack, nanos_since, Command, StackFrame};

verus! {

/// The abstract state of a capture session.
pub enum SessionView {
    /// No capture has been asked for.
    Idle,
    /// A capture was asked for and begins at the next frame boundary.
    PendingStart,
    /// Commands are being recorded.
    Recording(Seq<Command>),
    /// The recording is frozen; an entry of it may be selected.
    Finalized(Seq<Command>, Option<nat>),
}

/// The capture state machine. It records commands only while `Capturing`.
pub enum CommandStreamState {
    Uncaptured,
    WantToCapture,
    Capturing { start_instant: std::time::Instant, stream: Vec<Command> },
    Captured { stream: Vec<Command>, selected_index: Option<usize> },
}

impl View for CommandStreamState {
    type V = SessionView;

    open spec fn view(&self) -> SessionView {
        match self {
            CommandStreamState::Uncaptured => SessionView::Idle,
            CommandStreamState::WantToCapture => SessionView::PendingStart,
            CommandStreamState::Capturing { stream, .. } => SessionView::Recording(stream@),
            CommandStreamState::Captured { stream, selected_index } => SessionView::Finalized(
                stream@,
                match selected_index {
                    Some(i) => Some(*i as nat),
                    None => None,
                },
            ),
        }
    }
}

/// The elapsed times of `q` never decrease along the sequence.
pub open spec fn elapsed_ordered(q: Seq<Command>) -> bool {
    forall|i: int, j: int|
        0 <= i <= j < q.len() ==> #[trigger] q[i].elapsed_nanos <= #[trigger] q[j].elapsed_nanos
}

/// The session's invariant: recorded times are ordered, and a selection
/// indexes the finalized sequence.
pub open spec fn session_wf(v: SessionView) -> bool {
    match v {
        SessionView::Recording(q) => elapsed_ordered(q),
        SessionView::Finalized(q, sel) => elapsed_ordered(q) && match sel {
            Some(i) => i < q.len(),
            None => true,
        },
        _ => true,
    }
}

/// Asking for a capture: from `Idle` or `Finalized` it becomes pending; while
/// one is pending or recording nothing changes.
pub open spec fn request_capture_spec(v: SessionView) -> SessionView {
    match v {
        SessionView::Idle => SessionView::PendingStart,
        SessionView::Finalized(_, _) => SessionView::PendingStart,
        _ => v,
    }
}

/// A frame boundary: a recording is finalized with nothing selected, a
/// pending capture starts recording from empty, anything else is unchanged.
pub open spec fn frame_boundary_spec(v: SessionView) -> SessionView {
    match v {
        SessionView::Recording(q) => SessionView::Finalized(q, None),
        SessionView::PendingStart => SessionView::Recording(Seq::empty()),
        _ => v,
    }
}

/// The elapsed time a command reported at `e` is recorded with after `q`:
/// `e` itself, raised to the last recorded time should the clock reading lag
/// behind it.
pub open spec fn clamped_elapsed(q: Seq<Command>, e: u64) -> u64 {
    if q.len() > 0 && e < q.last().elapsed_nanos {
        q.last().elapsed_nanos
    } else {
        e
    }
}

/// Recording a command: appended while recording, ignored otherwise.
pub open spec fn record_spec(v: SessionView, c: Command) -> SessionView {
    match v {
        SessionView::Recording(q) => SessionView::Recording(
            q.push(Command { elapsed_nanos: clamped_elapsed(q, c.elapsed_nanos), ..c }),
        ),
        _ => v,
    }
}

/// Selecting entry `i`: accepted only in `Finalized` and in range.
pub open spec fn select_spec(v: SessionView, i: nat) -> SessionView {
    match v {
        SessionView::Finalized(q, _) => if i < q.len() {
            SessionView::Finalized(q, Some(i))
        } else {
            v
        },
        _ => v,
    }
}

/// Whether `i` can be selected in `v`.
pub open spec fn can_select(v: SessionView, i: nat) -> bool {
    match v {
        SessionView::Finalized(q, _) => i < q.len(),
        _ => false,
    }
}

impl CommandStreamState {
    /// The invariant of this state.
    pub open spec fn wf(&self) -> bool {
        session_wf(self@)
    }

    /// A session with no capture asked for.
    pub fn new() -> (r: CommandStreamState)
        ensures
            r@ == SessionView::Idle,
            r.wf(),
    {
        CommandStreamState::Uncaptured
    }

    /// Asks for a capture to begin at the next frame boundary.
    pub fn request_capture(&mut self)
        requires
            old(self).wf(),
        ensures
            final(self)@ == request_capture_spec(old(self)@),
            final(self).wf(),
    {
        match self {
            CommandStreamState::Uncaptured | CommandStreamState::Captured { .. } => {
                *self = CommandStreamState::WantToCapture;
            },
            _ => {},
        }
    }

    /// Starts recording now, from an empty sequence, whatever the state was.
    pub fn start_capture(&mut self)
        ensures
            final(self)@ == SessionView::Recording(Seq::empty()),
            final(self).wf(),
    {
        *self = CommandStreamState::Capturing {
            start_instant: std::time::Instant::now(),
            stream: Vec::new(),
        };
    }

    /// Freezes a recording, with nothing selected; any other state is kept.
    pub fn end_capture(&mut self)
        requires
            old(self).wf(),
        ensures
            final(self)@ == match old(self)@ {
                SessionView::Recording(q) => SessionView::Finalized(q, None),
                v => v,
            },
            final(self).wf(),
    {
        let mut taken = CommandStreamState::Uncaptured;
        std::mem::swap(self, &mut taken);
        *self = match taken {
            CommandStreamState::Capturing { stream, .. } => CommandStreamState::Captured {
                stream,
                selected_index: None,
            },
            other => other,
        };
    }

    /// Advances the state machine at a frame boundary.
    pub fn frame_boundary(&mut self)
        requires
            old(self).wf(),
        ensures
            final(self)@ == frame_boundary_spec(old(self)@),
            final(self).wf(),
    {
        let pending = match self {
            CommandStreamState::WantToCapture => true,
            _ => false,
        };
        self.end_capture();
        if pending {
            self.start_capture();
        }
    }

    /// Appends a command while recording, with `elapsed_nanos` the time since
    /// the capture began; does nothing in any other state. The monotonic
    /// clock never runs backwards, so a reading earlier than the last recorded
    /// time cannot occur in practice; should one arrive, it is raised to that
    /// time so the recording stays ordered.
    pub fn record_at(
        &mut self,
        payload: CommandPayload,
        stack: Vec<StackFrame>,
        thread_id: u32,
        elapsed_nanos: u64,
    )
        requires
            old(self).wf(),
        ensures
            final(self)@ == record_spec(
                old(self)@,
                (Command { payload, stack, thread_id, elapsed_nanos }),
            ),
            final(self).wf(),
    {
        match self {
            CommandStreamState::Capturing { stream, .. } => {
                let ghost q = stream@;
                let n = stream.len();
                let elapsed = if n > 0 && elapsed_nanos < stream[n - 1].elapsed_nanos {
                    stream[n - 1].elapsed_nanos
                } else {
                    elapsed_nanos
                };
                stream.push(Command { payload, stack, thread_id, elapsed_nanos: elapsed });
                assert(stream@ =~= q.push(
                    Command { elapsed_nanos: clamped_elapsed(q, elapsed_nanos), payload, stack, thread_id },
                ));
            },
            _ => {},
        }
    }

    /// Appends a command issued now on `thread_id`, with the calling thread's
    /// stack, while recording; does nothing in any other state.
    pub fn push_back_command(&mut self, payload: CommandPayload, thread_id: u32)
        requires
            old(self).wf(),
        ensures
            final(self).wf(),
            exists|stack: Vec<StackFrame>, elapsed: u64|
                final(self)@ == #[trigger] record_spec(
                    old(self)@,
                    (Command { payload, stack, thread_id, elapsed_nanos: elapsed }),
                ),
    {
        let reading = match self {
            CommandStreamState::Capturing { start_instant, .. } => Some(
                (capture_stack(), nanos_since(start_instant)),
            ),
            _ => None,
        };
        match reading {
            Some((stack, elapsed)) => {
                self.record_at(payload, stack, thread_id, elapsed);
            },
            None => {
                assert(self@ == record_spec(
                    self@,
                    Command { payload, stack: arbitrary(), thread_id, elapsed_nanos: 0 },
                ));
            },
        }
    }

    /// Selects entry `i` of a finalized capture; refused (and nothing
    /// changes) in any other state or out of range.
    pub fn select(&mut self, i: usize) -> (r: bool)
        requires
            old(self).wf(),
        ensures
            r == can_select(old(self)@, i as nat),
            final(self)@ == select_spec(old(self)@, i as nat),
            final(self).wf(),
    {
        match self {
            CommandStreamState::Captured { stream, selected_index } => {
                if i < stream.len() {
                    *selected_index = Some(i);
                    true
                } else {
                    false
                }
            },
            _ => false,
        }
    }

    /// The finalized sequence, if the capture is finalized.
    pub fn captured(&self) -> (r: Option<&Vec<Command>>)
        ensures
            match (r, self@) {
                (Some(s), SessionView::Finalized(q, _)) => s@ == q,
                (None, SessionView::Finalized(_, _)) => false,
                (Some(_), _) => false,
                (None, _) => true,
            },
    {
        match self {
            CommandStreamState::Captured { stream, .. } => Some(stream),
            _ => None,
        }
    }

    /// The selected entry of a finalized capture and its index, if any.
    pub fn selected(&self) -> (r: Option<(usize, &Command)>)
        requires
            self.wf(),
        ensures
            match (r, self@) {
                (Some((i, c)), SessionView::Finalized(q, Some(j))) => i == j && *c == q[j as int],
                (None, SessionView::Finalized(_, Some(_))) => false,
                (Some(_), _) => false,
                (None, _) => true,
            },
    {
        match self {
            CommandStreamState::Captured { stream, selected_index: Some(i) } => Some(
                (*i, &stream[*i]),
            ),
            _ => None,
        }
    }

    /// Whether a capture is being recorded.
    pub fn is_capturing(&self) -> (r: bool)
        ensures
            r == self@ is Recording,
    {
        match self {
            CommandStreamState::Capturing { .. } => true,
            _ => false,
        }
    }
}

/// The state after recording each command of `cs` in turn, starting in `v`.
pub open spec fn records_spec(v: SessionView, cs: Seq<Command>) -> SessionView
    decreases cs.len(),
{
    if cs.len() == 0 {
        v
    } else {
        record_spec(records_spec(v, cs.drop_last()), cs.last())
    }
}

/// `a` is `b` as recorded: the same payload, stack and thread, at a time no
/// earlier than the one `b` was reported at.
pub open spec fn recorded_as(a: Command, b: Command) -> bool {
    &&& a.payload == b.payload
    &&& a.stack == b.stack
    &&& a.thread_id == b.thread_id
    &&& a.elapsed_nanos >= b.elapsed_nanos
}

/// Recording keeps what was recorded before and appends each command, in
/// call order, exactly once: after `cs` the sequence holds the earlier
/// entries followed by one entry for each command of `cs`. Recorded times
/// stay ordered, and where the reported times are already ordered they are
/// kept as they are.
pub proof fn lemma_records_append(q0: Seq<Command>, cs: Seq<Command>)
    requires
        elapsed_ordered(q0),
    ensures
        records_spec(SessionView::Recording(q0), cs) is Recording,
        ({
            let q = records_spec(SessionView::Recording(q0), cs)->Recording_0;
            &&& q.len() == q0.len() + cs.len()
            &&& q.take(q0.len() as int) == q0
            &&& forall|i: int| 0 <= i < cs.len() ==> recorded_as(#[trigger] q[q0.len() + i], cs[i])
            &&& elapsed_ordered(q)
            &&& (q0.len() == 0 && elapsed_ordered(cs)) ==> forall|i: int|
                0 <= i < cs.len() ==> #[trigger] q[i].elapsed_nanos == cs[i].elapsed_nanos
        }),
    decreases cs.len(),
{
    if cs.len() > 0 {
        let prefix = cs.drop_last();
        lemma_records_append(q0, prefix);
        let p = records_spec(SessionView::Recording(q0), prefix)->Recording_0;
        let c = cs.last();
        let q = records_spec(SessionView::Recording(q0), cs)->Recording_0;
        let e = clamped_elapsed(p, c.elapsed_nanos);
        assert(q == p.push(Command { elapsed_nanos: e, ..c }));
        assert(q.take(q0.len() as int) =~= q0) by {
            assert(p.take(q0.len() as int) == q0);
        }
        assert forall|i: int| 0 <= i < cs.len() implies recorded_as(#[trigger] q[q0.len() + i], cs[i]) by {
            if i < prefix.len() {
                assert(recorded_as(p[q0.len() + i], prefix[i]));
            }
        }
        assert forall|i: int, j: int| 0 <= i <= j < q.len() implies #[trigger] q[i].elapsed_nanos
            <= #[trigger] q[j].elapsed_nanos by {
            if j == q.len() - 1 && i < j {
                assert(p[i].elapsed_nanos <= p.last().elapsed_nanos);
            } else if j < q.len() - 1 {
                assert(p[i].elapsed_nanos <= p[j].elapsed_nanos);
            }
        }
        if q0.len() == 0 && elapsed_ordered(cs) {
            assert(elapsed_ordered(prefix)) by {
                assert forall|i: int, j: int| 0 <= i <= j < prefix.len() implies
                    #[trigger] prefix[i].elapsed_nanos <= #[trigger] prefix[j].elapsed_nanos by {
                    assert(cs[i].elapsed_nanos <= cs[j].elapsed_nanos);
                }
            }
            if p.len() > 0 {
                assert(p.last().elapsed_nanos == prefix.last().elapsed_nanos);
                assert(prefix.last().elapsed_nanos <= c.elapsed_nanos);
            }
            assert forall|i: int| 0 <= i < cs.len() implies #[trigger] q[i].elapsed_nanos
                == cs[i].elapsed_nanos by {
                if i < prefix.len() {
                    assert(p[i].elapsed_nanos == prefix[i].elapsed_nanos);
                }
            }
        }
    } else {
        assert(q0.take(q0.len() as int) =~= q0);
    }
}

/// Commands recorded while no capture is live are dropped: the state does
/// not change, so a capture that starts later begins from an empty sequence.
pub proof fn lemma_records_ignored_when_not_recording(v: SessionView, cs: Seq<Command>)
    requires
        v is Idle || v is PendingStart,
    ensures
        records_spec(v, cs) == v,
        v is PendingStart ==> frame_boundary_spec(records_spec(v, cs)) == SessionView::Recording(
            Seq::<Command>::empty(),
        ),
    decreases cs.len(),
{
    if cs.len() > 0 {
        lemma_records_ignored_when_not_recording(v, cs.drop_last());
    }
}

/// A capture spans exactly one frame interval: from a pending request, the
/// first boundary starts recording from empty, the commands recorded after
/// it are appended in order, the next boundary finalizes exactly those with
/// nothing selected, and further boundaries change nothing.
pub proof fn lemma_capture_spans_one_interval(cs: Seq<Command>)
    ensures
        frame_boundary_spec(SessionView::PendingStart) == SessionView::Recording(
            Seq::<Command>::empty(),
        ),
        records_spec(SessionView::Recording(Seq::empty()), cs) is Recording,
        ({
            let q = records_spec(SessionView::Recording(Seq::empty()), cs)->Recording_0;
            &&& frame_boundary_spec(SessionView::Recording(q)) == SessionView::Finalized(q, None)
            &&& frame_boundary_spec(SessionView::Finalized(q, None)) == SessionView::Finalized(
                q,
                None,
            )
            &&& q.len() == cs.len()
            &&& forall|i: int| 0 <= i < cs.len() ==> recorded_as(#[trigger] q[i], cs[i])
            &&& elapsed_ordered(q)
        }),
{
    let q0 = Seq::<Command>::empty();
    lemma_records_append(q0, cs);
    let q = records_spec(SessionView::Recording(q0), cs)->Recording_0;
    assert forall|i: int| 0 <= i < cs.len() implies recorded_as(#[trigger] q[i], cs[i]) by {
        assert(recorded_as(q[q0.len() + i], cs[i]));
    }
}

/// Recorded times never decrease along a recording or a finalized capture,
/// so the commands of any one thread appear in the order they were issued.
pub proof fn lemma_elapsed_non_decreasing(v: SessionView, i: int, j: int)
    requires
        session_wf(v),
        v is Recording || v is Finalized,
        0 <= i <= j,
        j < (match v {
            SessionView::Recording(q) => q.len(),
            SessionView::Finalized(q, _) => q.len(),
            _ => 0,
        }),
    ensures
        match v {
            SessionView::Recording(q) => q[i].elapsed_nanos <= q[j].elapsed_nanos,
            SessionView::Finalized(q, _) => q[i].elapsed_nanos <= q[j].elapsed_nanos,
            _ => true,
        },
{
}

/// A frame boundary while idle changes nothing.
pub proof fn lemma_idle_boundary_is_noop()
    ensures
        frame_boundary_spec(SessionView::Idle) == SessionView::Idle,
{
}

} // verus!
