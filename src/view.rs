use vstd::prelude::*;

use crate::payload::{category_index_of, title_of, CategoryColour, ResourceHandle};
use crate::record::Command;
use crate::session::SessionView;
use crate::stream::CommandStream;
use crate::ui::{row_matches, slot_heading, CallstackRow, HIDDEN_FRAMES};

verus! {

/// One entry of the list of a finalized capture.
#[derive(Clone, Debug, PartialEq, Eq)]
pub struct ListRow {
    pub index: usize,
    pub title: String,
    pub colour: CategoryColour,
    pub selected: bool,
}

/// One argument of the selected record: its heading and the resource.
#[derive(Clone, Debug, PartialEq, Eq)]
pub struct DataRow {
    pub heading: String,
    pub resource: ResourceHandle,
}

/// What the detail view of the selected record shows. An empty `data` means
/// the record carries no additional data.
#[derive(Clone, Debug, PartialEq, Eq)]
pub struct CommandDetail {
    pub index: usize,
    pub title: String,
    pub colour: CategoryColour,
    pub thread_id: u32,
    pub elapsed_nanos: u64,
    pub data: Vec<DataRow>,
    pub callstack: Vec<CallstackRow>,
}

/// `row` is how entry `k` of `q` is listed, given the selection `sel`.
pub open spec fn list_row_matches(q: Seq<Command>, sel: Option<nat>, k: int, row: ListRow) -> bool {
    &&& row.index == k
    &&& row.title@ == title_of(q[k].payload)
    &&& row.colour == (CategoryColour {
        hue_index: category_index_of(q[k].payload.category) as u32,
        hue_count: crate::payload::CATEGORY_COUNT,
        saturation_percent: crate::payload::COLOUR_SATURATION_PERCENT,
        value_percent: crate::payload::COLOUR_VALUE_PERCENT,
    })
    &&& row.selected == (sel == Some(k as nat))
}

/// The resource in position `slot` of the selected record, if there is a
/// selection and it has that many resources.
pub open spec fn selected_resource_spec(v: SessionView, slot: nat) -> Option<ResourceHandle> {
    match v {
        SessionView::Finalized(q, Some(i)) => if i < q.len() && slot
            < q[i as int].payload.resources@.len() {
            Some(q[i as int].payload.resources@[slot as int])
        } else {
            None
        },
        _ => None,
    }
}

/// `d` is the detail view of entry `i` of `q`, given the known modules.
pub open spec fn detail_matches(
    names: Map<u64, String>,
    q: Seq<Command>,
    i: nat,
    d: CommandDetail,
) -> bool {
    let c = q[i as int];
    &&& d.index == i
    &&& d.title@ == title_of(c.payload)
    &&& d.colour.hue_index as nat == category_index_of(c.payload.category)
    &&& d.colour.hue_count == crate::payload::CATEGORY_COUNT
    &&& d.colour.saturation_percent == crate::payload::COLOUR_SATURATION_PERCENT
    &&& d.colour.value_percent == crate::payload::COLOUR_VALUE_PERCENT
    &&& d.thread_id == c.thread_id
    &&& d.elapsed_nanos == c.elapsed_nanos
    &&& d.data@.len() == c.payload.resources@.len()
    &&& forall|k: int|
        0 <= k < d.data@.len() ==> (#[trigger] d.data@[k]).resource == c.payload.resources@[k]
            && d.data@[k].heading@ == slot_heading(c.payload.category, k as nat)
    &&& d.callstack@.len() == (if c.stack@.len() > HIDDEN_FRAMES {
        c.stack@.len() - HIDDEN_FRAMES
    } else {
        0
    })
    &&& forall|k: int|
        0 <= k < d.callstack@.len() ==> row_matches(
            names,
            c.stack@[k + HIDDEN_FRAMES],
            #[trigger] d.callstack@[k],
        )
}

impl CommandStream {
    /// The list of a finalized capture, one row per record in order, with the
    /// selected one marked; empty in any other state.
    pub fn list_rows(&self) -> (r: Vec<ListRow>)
        requires
            self.wf(),
        ensures
            match self.session() {
                SessionView::Finalized(q, sel) => r@.len() == q.len() && forall|k: int|
                    0 <= k < q.len() ==> list_row_matches(q, sel, k, #[trigger] r@[k]),
                _ => r@.len() == 0,
            },
    {
        let state = self.state();
        let mut rows: Vec<ListRow> = Vec::new();
        match state.captured() {
            Some(stream) => {
                let sel = match state.selected() {
                    Some((i, _)) => Some(i),
                    None => None,
                };
                let ghost gsel = match self.session() {
                    SessionView::Finalized(_, s) => s,
                    _ => None,
                };
                assert(match sel {
                    Some(i) => gsel == Some(i as nat),
                    None => gsel is None,
                });
                let mut k: usize = 0;
                while k < stream.len()
                    invariant
                        k <= stream@.len(),
                        rows@.len() == k,
                        self.session() == SessionView::Finalized(stream@, gsel),
                        match sel {
                            Some(i) => gsel == Some(i as nat),
                            None => gsel is None,
                        },
                        forall|j: int|
                            0 <= j < k ==> list_row_matches(stream@, gsel, j, #[trigger] rows@[j]),
                    decreases stream@.len() - k,
                {
                    let cmd = &stream[k];
                    let selected = match sel {
                        Some(i) => i == k,
                        None => false,
                    };
                    rows.push(
                        ListRow {
                            index: k,
                            title: cmd.payload.title(),
                            colour: cmd.payload.colour(),
                            selected,
                        },
                    );
                    k = k + 1;
                }
            },
            None => {},
        }
        rows
    }

    /// The resource in position `slot` of the selected record, if any.
    pub fn selected_resource(&self, slot: usize) -> (r: Option<ResourceHandle>)
        requires
            self.wf(),
        ensures
            r == selected_resource_spec(self.session(), slot as nat),
    {
        match self.state().selected() {
            Some((_, cmd)) => {
                if slot < cmd.payload.resources.len() {
                    Some(cmd.payload.resources[slot])
                } else {
                    None
                }
            },
            None => None,
        }
    }

    /// Opens an inspector on the resource in position `slot` of the selected
    /// record, with the description the graphics layer gave for it, and
    /// returns that resource. Without a selection, without such a slot, or
    /// without a description, nothing is opened.
    pub fn inspect_selected(&mut self, slot: usize, desc: Option<crate::ui::TextureDesc>) -> (r:
        Option<ResourceHandle>)
        requires
            old(self).wf(),
        ensures
            final(self).wf(),
            r == selected_resource_spec(old(self).session(), slot as nat),
            final(self).session() == old(self).session(),
            final(self).view_state().modules() == old(self).view_state().modules(),
            final(self).view_state().inspected() == match (r, desc) {
                (Some(h), Some(d)) => old(self).view_state().inspected().insert(
                    h,
                    crate::ui::InspectedTexture {
                        texture: h,
                        width: d.width,
                        height: d.height,
                        format: d.format,
                    },
                ),
                _ => old(self).view_state().inspected(),
            },
    {
        let r = self.selected_resource(slot);
        match r {
            Some(h) => {
                self.inspect_texture(h, desc);
            },
            None => {},
        }
        r
    }

    /// The detail view of the selected record, if any.
    pub fn selected_detail(&self) -> (r: Option<CommandDetail>)
        requires
            self.wf(),
        ensures
            match (r, self.session()) {
                (Some(d), SessionView::Finalized(q, Some(i))) => detail_matches(
                    self.view_state().modules(),
                    q,
                    i,
                    d,
                ),
                (None, SessionView::Finalized(_, Some(_))) => false,
                (Some(_), _) => false,
                (None, _) => true,
            },
    {
        match self.state().selected() {
            Some((index, cmd)) => {
                let ui = self.ui();
                let mut data: Vec<DataRow> = Vec::new();
                let mut k: usize = 0;
                while k < cmd.payload.resources.len()
                    invariant
                        k <= cmd.payload.resources@.len(),
                        data@.len() == k,
                        forall|j: int|
                            0 <= j < k ==> (#[trigger] data@[j]).resource
                                == cmd.payload.resources@[j] && data@[j].heading@ == slot_heading(
                                cmd.payload.category,
                                j as nat,
                            ),
                    decreases cmd.payload.resources@.len() - k,
                {
                    data.push(
                        DataRow {
                            heading: ui.slot_heading(&cmd.payload, k),
                            resource: cmd.payload.resources[k],
                        },
                    );
                    k = k + 1;
                }
                Some(
                    CommandDetail {
                        index,
                        title: cmd.payload.title(),
                        colour: cmd.payload.colour(),
                        thread_id: cmd.thread_id,
                        elapsed_nanos: cmd.elapsed_nanos,
                        data,
                        callstack: ui.callstack_rows(cmd),
                    },
                )
            },
            None => None,
        }
    }
}

} // verus!
