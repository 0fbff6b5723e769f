use vstd::prelude::*;

use crate::payload::{
    category_of_type, resources_of_event, CommandCategory, CommandPayload, ResourceHandle,
    ShaderCommand,
};
use crate::record::{Command, StackFrame};
use crate::session::{
    elapsed_ordered, lemma_records_append, records_spec,
    can_select, frame_boundary_spec, record_spec, request_capture_spec, select_spec,
    CommandStreamState, SessionView,
};
use crate::ui::{CommandStreamUI, TextureDesc};

verus! {

/// `after` is `before` with one command of `payload` issued on `thread_id`
/// recorded, whatever stack and clock reading it was captured with.
pub open spec fn recorded_one(
    before: SessionView,
    after: SessionView,
    payload: CommandPayload,
    thread_id: u32,
) -> bool {
    exists|stack: Vec<StackFrame>, elapsed: u64|
        after == #[trigger] record_spec(
            before,
            (Command { payload, stack, thread_id, elapsed_nanos: elapsed }),
        )
}

/// The payload a reported command is classified as.
pub open spec fn classified(p: CommandPayload, e: ShaderCommand) -> bool {
    &&& p.category == category_of_type(e.cmd_type)
    &&& p.resources@ == resources_of_event(e)
    &&& p.label@ == Seq::<char>::empty()
}

/// The capture engine: a capture session, fed by the instrumentation layer
/// and driven by the host's frame loop, and the state of its inspection view.
pub struct CommandStream {
    state: CommandStreamState,
    ui: CommandStreamUI,
}

impl CommandStream {
    /// The capture session.
    pub closed spec fn session(&self) -> SessionView {
        self.state@
    }

    /// The inspection view.
    pub closed spec fn view_state(&self) -> CommandStreamUI {
        self.ui
    }

    /// The invariant of the stream.
    pub closed spec fn wf(&self) -> bool {
        self.state.wf() && self.ui.wf()
    }

    /// A stream with no capture asked for, annotating stacks with `modules`
    /// (base address and name of each loaded module).
    pub fn new(modules: Vec<(u64, String)>) -> (r: CommandStream)
        ensures
            r.wf(),
            r.session() == SessionView::Idle,
            r.view_state().modules() == crate::modules::registry_of(modules@),
            r.view_state().inspected() == Map::<ResourceHandle, crate::ui::InspectedTexture>::empty(),
    {
        CommandStream { state: CommandStreamState::new(), ui: CommandStreamUI::new(modules) }
    }

    /// The frame boundary: finalizes a recording, or starts a pending one.
    pub fn pre_update(&mut self)
        requires
            old(self).wf(),
        ensures
            final(self).wf(),
            final(self).session() == frame_boundary_spec(old(self).session()),
            final(self).view_state() == old(self).view_state(),
    {
        self.state.frame_boundary();
    }

    /// Asks for a capture of the next frame.
    pub fn request_capture(&mut self)
        requires
            old(self).wf(),
        ensures
            final(self).wf(),
            final(self).session() == request_capture_spec(old(self).session()),
            final(self).view_state() == old(self).view_state(),
    {
        self.state.request_capture();
    }

    /// Starts recording now, from empty.
    pub fn start_capture(&mut self)
        requires
            old(self).wf(),
        ensures
            final(self).wf(),
            final(self).session() == SessionView::Recording(Seq::empty()),
            final(self).view_state() == old(self).view_state(),
    {
        self.state.start_capture();
    }

    /// Freezes a recording; any other state is kept.
    pub fn end_capture(&mut self)
        requires
            old(self).wf(),
        ensures
            final(self).wf(),
            final(self).session() == match old(self).session() {
                SessionView::Recording(q) => SessionView::Finalized(q, None),
                v => v,
            },
            final(self).view_state() == old(self).view_state(),
    {
        self.state.end_capture();
    }

    /// Records `payload` as issued on `thread_id`, while recording.
    pub fn record(&mut self, payload: CommandPayload, thread_id: u32)
        requires
            old(self).wf(),
        ensures
            final(self).wf(),
            recorded_one(old(self).session(), final(self).session(), payload, thread_id),
            final(self).view_state() == old(self).view_state(),
    {
        self.state.push_back_command(payload, thread_id);
    }

    /// Records a command reported by the renderer, classified, as issued
    /// on `thread_id`, while recording.
    pub fn add_command(&mut self, cmd: ShaderCommand, thread_id: u32)
        requires
            old(self).wf(),
        ensures
            final(self).wf(),
            exists|p: CommandPayload|
                classified(p, cmd) && #[trigger] recorded_one(
                    old(self).session(),
                    final(self).session(),
                    p,
                    thread_id,
                ),
            final(self).view_state() == old(self).view_state(),
    {
        let ghost event = cmd;
        let payload = CommandPayload::from_event(cmd);
        let ghost p = payload;
        self.record(payload, thread_id);
        assert(classified(p, event));
    }

    /// Records a marker labelled `msg` as issued on `thread_id`, while
    /// recording.
    pub fn add_marker(&mut self, msg: &str, thread_id: u32)
        requires
            old(self).wf(),
        ensures
            final(self).wf(),
            exists|p: CommandPayload|
                p.category == CommandCategory::XIVRMarker && p.label@ == msg@
                    && p.resources@.len() == 0 && #[trigger] recorded_one(
                    old(self).session(),
                    final(self).session(),
                    p,
                    thread_id,
                ),
            final(self).view_state() == old(self).view_state(),
    {
        let payload = CommandPayload::marker(msg);
        let ghost p = payload;
        self.record(payload, thread_id);
        assert(p.resources@.len() == 0);
    }

    /// Selects entry `i` of the finalized capture; refused in any other state
    /// or out of range.
    pub fn select(&mut self, i: usize) -> (r: bool)
        requires
            old(self).wf(),
        ensures
            final(self).wf(),
            r == can_select(old(self).session(), i as nat),
            final(self).session() == select_spec(old(self).session(), i as nat),
            final(self).view_state() == old(self).view_state(),
    {
        self.state.select(i)
    }

    /// Opens an inspector on `texture` with the description the graphics
    /// layer gave for it; without one, nothing is opened.
    pub fn inspect_texture(&mut self, texture: ResourceHandle, desc: Option<TextureDesc>)
        requires
            old(self).wf(),
        ensures
            final(self).wf(),
            final(self).session() == old(self).session(),
            final(self).view_state().modules() == old(self).view_state().modules(),
            final(self).view_state().inspected() == match desc {
                Some(d) => old(self).view_state().inspected().insert(
                    texture,
                    crate::ui::InspectedTexture {
                        texture,
                        width: d.width,
                        height: d.height,
                        format: d.format,
                    },
                ),
                None => old(self).view_state().inspected(),
            },
    {
        self.ui.inspect_texture(texture, desc);
    }

    /// Closes the inspectors on each handle of `closed`, leaving the others.
    pub fn close_textures(&mut self, closed: &Vec<ResourceHandle>)
        requires
            old(self).wf(),
        ensures
            final(self).wf(),
            final(self).session() == old(self).session(),
            final(self).view_state().modules() == old(self).view_state().modules(),
            final(self).view_state().inspected() == old(self).view_state().inspected().remove_keys(
                closed@.to_set(),
            ),
    {
        self.ui.close_textures(closed);
    }

    /// The capture state.
    pub fn state(&self) -> (r: &CommandStreamState)
        ensures
            r@ == self.session(),
            self.wf() ==> r.wf(),
    {
        &self.state
    }

    /// The inspection view.
    pub fn ui(&self) -> (r: &CommandStreamUI)
        ensures
            *r == self.view_state(),
    {
        &self.ui
    }
}

/// `vs` is the succession of sessions seen across a run of recording calls
/// (`record`, `add_command`, `add_marker`): call `i` recorded payload `ps[i]`
/// from thread `ts[i]`, taking the session from `vs[i]` to `vs[i + 1]`.
pub open spec fn recorded_run(vs: Seq<SessionView>, ps: Seq<CommandPayload>, ts: Seq<u32>) -> bool {
    &&& vs.len() == ps.len() + 1
    &&& ts.len() == ps.len()
    &&& forall|i: int| 0 <= i < ps.len() ==> #[trigger] recorded_one(vs[i], vs[i + 1], ps[i], ts[i])
}

/// What one recording call does to the session: nothing outside a live
/// recording; inside one, exactly one entry with the call's payload and
/// thread is appended, keeping the recorded times ordered.
pub proof fn lemma_recorded_one(before: SessionView, after: SessionView, p: CommandPayload, t: u32)
    requires
        recorded_one(before, after, p, t),
    ensures
        !(before is Recording) ==> after == before,
        before is Recording ==> {
            &&& after is Recording
            &&& after->Recording_0.len() == before->Recording_0.len() + 1
            &&& after->Recording_0.drop_last() == before->Recording_0
            &&& after->Recording_0.last().payload == p
            &&& after->Recording_0.last().thread_id == t
            &&& elapsed_ordered(before->Recording_0) ==> elapsed_ordered(after->Recording_0)
        },
{
    let (stack, e) = choose|stack: Vec<StackFrame>, e: u64|
        after == #[trigger] record_spec(
            before,
            (Command { payload: p, stack, thread_id: t, elapsed_nanos: e }),
        );
    if before is Recording {
        let q = before->Recording_0;
        let c = Command { payload: p, stack, thread_id: t, elapsed_nanos: e };
        assert(records_spec(before, seq![c]) == after) by {
            assert(seq![c].drop_last() =~= Seq::<Command>::empty());
            assert(records_spec(before, Seq::<Command>::empty()) == before);
            assert(seq![c].last() == c);
        }
        if elapsed_ordered(q) {
            lemma_records_append(q, seq![c]);
        }
        assert(after->Recording_0.drop_last() =~= q);
    }
}

proof fn lemma_run_outside_prefix(
    vs: Seq<SessionView>,
    ps: Seq<CommandPayload>,
    ts: Seq<u32>,
    k: int,
)
    requires
        recorded_run(vs, ps, ts),
        !(vs[0] is Recording),
        0 <= k <= ps.len(),
    ensures
        vs[k] == vs[0],
    decreases k,
{
    if k > 0 {
        lemma_run_outside_prefix(vs, ps, ts, k - 1);
        lemma_recorded_one(vs[k - 1], vs[(k - 1) + 1], ps[k - 1], ts[k - 1]);
    }
}

/// Recording calls made while no capture is live change nothing: a run of
/// them leaves the session as it found it.
pub proof fn lemma_run_outside_recording(vs: Seq<SessionView>, ps: Seq<CommandPayload>, ts: Seq<u32>)
    requires
        recorded_run(vs, ps, ts),
        !(vs[0] is Recording),
    ensures
        vs.last() == vs[0],
{
    lemma_run_outside_prefix(vs, ps, ts, ps.len() as int);
}

proof fn lemma_run_recording_prefix(
    vs: Seq<SessionView>,
    ps: Seq<CommandPayload>,
    ts: Seq<u32>,
    k: int,
)
    requires
        recorded_run(vs, ps, ts),
        vs[0] is Recording,
        elapsed_ordered(vs[0]->Recording_0),
        0 <= k <= ps.len(),
    ensures
        vs[k] is Recording,
        ({
            let q0 = vs[0]->Recording_0;
            let b = vs[k]->Recording_0;
            &&& b.len() == q0.len() + k
            &&& b.take(q0.len() as int) == q0
            &&& forall|i: int|
                0 <= i < k ==> (#[trigger] b[q0.len() + i]).payload == ps[i] && b[q0.len()
                    + i].thread_id == ts[i]
            &&& elapsed_ordered(b)
        }),
    decreases k,
{
    let q0 = vs[0]->Recording_0;
    if k == 0 {
        assert(q0.take(q0.len() as int) =~= q0);
    } else {
        lemma_run_recording_prefix(vs, ps, ts, k - 1);
        let a = vs[k - 1]->Recording_0;
        lemma_recorded_one(vs[k - 1], vs[(k - 1) + 1], ps[k - 1], ts[k - 1]);
        let b = vs[k]->Recording_0;
        assert(b.take(q0.len() as int) =~= q0) by {
            assert forall|j: int| 0 <= j < q0.len() implies b[j] == q0[j] by {
                assert(b.drop_last()[j] == b[j]);
                assert(a.take(q0.len() as int)[j] == a[j]);
            }
        }
        assert forall|i: int| 0 <= i < k implies (#[trigger] b[q0.len() + i]).payload == ps[i]
            && b[q0.len() + i].thread_id == ts[i] by {
            if i < k - 1 {
                assert(b.drop_last()[q0.len() + i] == b[q0.len() + i]);
                assert(a[q0.len() + i].payload == ps[i]);
            }
        }
    }
}

/// A run of recording calls during a live recording appends, in call order,
/// exactly one entry per call with that call's payload and thread, after
/// what was recorded before; recorded times stay ordered.
pub proof fn lemma_run_while_recording(
    vs: Seq<SessionView>,
    ps: Seq<CommandPayload>,
    ts: Seq<u32>,
)
    requires
        recorded_run(vs, ps, ts),
        vs[0] is Recording,
        elapsed_ordered(vs[0]->Recording_0),
    ensures
        vs.last() is Recording,
        ({
            let q0 = vs[0]->Recording_0;
            let q = vs.last()->Recording_0;
            &&& q.len() == q0.len() + ps.len()
            &&& q.take(q0.len() as int) == q0
            &&& forall|i: int|
                0 <= i < ps.len() ==> (#[trigger] q[q0.len() + i]).payload == ps[i]
                    && q[q0.len() + i].thread_id == ts[i]
            &&& elapsed_ordered(q)
        }),
{
    lemma_run_recording_prefix(vs, ps, ts, ps.len() as int);
}

/// A capture holds exactly the commands recorded between its two frame
/// boundaries. Whatever was recorded while idle or pending (run `vs0`) is
/// dropped; after the capture is asked for, the first boundary starts an
/// empty recording, the run `vs1` recorded after it is appended in call
/// order, the next boundary finalizes exactly those with nothing selected,
/// and further boundaries, with or without recording calls between them,
/// change nothing.
pub proof fn lemma_capture_holds_exactly_one_interval(
    vs0: Seq<SessionView>,
    ps0: Seq<CommandPayload>,
    ts0: Seq<u32>,
    vs1: Seq<SessionView>,
    ps1: Seq<CommandPayload>,
    ts1: Seq<u32>,
    vs2: Seq<SessionView>,
    ps2: Seq<CommandPayload>,
    ts2: Seq<u32>,
)
    requires
        recorded_run(vs0, ps0, ts0),
        vs0[0] is Idle || vs0[0] is PendingStart,
        recorded_run(vs1, ps1, ts1),
        vs1[0] == frame_boundary_spec(request_capture_spec(vs0.last())),
        recorded_run(vs2, ps2, ts2),
        vs2[0] == frame_boundary_spec(vs1.last()),
    ensures
        vs1[0] == SessionView::Recording(Seq::<Command>::empty()),
        vs2[0] is Finalized,
        ({
            let q = vs2[0]->Finalized_0;
            &&& vs2[0]->Finalized_1 is None
            &&& q.len() == ps1.len()
            &&& forall|i: int|
                0 <= i < ps1.len() ==> (#[trigger] q[i]).payload == ps1[i] && q[i].thread_id
                    == ts1[i]
            &&& vs2.last() == vs2[0]
            &&& frame_boundary_spec(vs2.last()) == vs2[0]
        }),
{
    lemma_run_outside_recording(vs0, ps0, ts0);
    let e = Seq::<Command>::empty();
    assert(elapsed_ordered(e));
    lemma_run_while_recording(vs1, ps1, ts1);
    let q = vs1.last()->Recording_0;
    assert forall|i: int| 0 <= i < ps1.len() implies (#[trigger] q[i]).payload == ps1[i]
        && q[i].thread_id == ts1[i] by {
        assert(q[e.len() + i] == q[i]);
    }
    lemma_run_outside_recording(vs2, ps2, ts2);
}

} // verus!
