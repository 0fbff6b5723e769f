use vstd::prelude::*;

use std::collections::HashMap;

use crate::modules::{frame_base, module_label, offset, offset_from, ModuleRegistry};
use crate::payload::{CommandCategory, CommandPayload, ResourceHandle};
use crate::record::{Command, StackFrame};

verus! {

broadcast use vstd::std_specs::hash::group_hash_axioms;

/// The number of innermost frames of a captured stack that belong to the
/// capture machinery itself and are left out of the displayed call stack.
pub const HIDDEN_FRAMES: usize = 10;

/// What an open resource inspector shows.
#[derive(Clone, Copy, Debug, PartialEq, Eq, Structural)]
pub struct InspectedTexture {
    pub texture: ResourceHandle,
    pub width: u32,
    pub height: u32,
    pub format: u32,
}

/// A resource's description as the graphics layer reports it.
#[derive(Clone, Copy, Debug, PartialEq, Eq, Structural)]
pub struct TextureDesc {
    pub width: u32,
    pub height: u32,
    pub format: u32,
}

/// One displayed row of a call stack: the module label and the offset in it.
#[derive(Clone, Debug, PartialEq, Eq)]
pub struct CallstackRow {
    pub module: String,
    pub offset: u64,
}

/// The row a stack frame is displayed as.
pub open spec fn row_matches(names: Map<u64, String>, f: StackFrame, row: CallstackRow) -> bool {
    &&& row.module@ == module_label(names, frame_base(f))
    &&& row.offset == offset_from(f.address, frame_base(f))
}

/// The heading a payload's resource in position `slot` is shown under.
pub open spec fn slot_heading(c: CommandCategory, slot: nat) -> Seq<char> {
    if c == CommandCategory::CopyTexture && slot == 0 {
        "Destination"@
    } else if c == CommandCategory::CopyTexture && slot == 1 {
        "Source"@
    } else if c == CommandCategory::SetRenderTargets {
        "Render Target"@
    } else {
        "Resource"@
    }
}

/// The inspector state and module names the command view works with.
pub struct CommandStreamUI {
    module_name_lookup: ModuleRegistry,
    inspected_textures: HashMap<ResourceHandle, InspectedTexture>,
}

impl CommandStreamUI {
    /// The known modules, by base address.
    pub closed spec fn modules(&self) -> Map<u64, String> {
        self.module_name_lookup@
    }

    /// The open inspectors, by the handle they inspect.
    pub closed spec fn inspected(&self) -> Map<ResourceHandle, InspectedTexture> {
        self.inspected_textures@
    }

    /// Each open inspector is keyed by the handle it shows.
    pub open spec fn wf(&self) -> bool {
        forall|h: ResourceHandle| #[trigger]
            self.inspected().contains_key(h) ==> self.inspected()[h].texture == h
    }

    /// A view over the given modules, with no inspector open.
    pub fn new(modules: Vec<(u64, String)>) -> (r: CommandStreamUI)
        ensures
            r.modules() == crate::modules::registry_of(modules@),
            r.inspected() == Map::<ResourceHandle, InspectedTexture>::empty(),
            r.wf(),
    {
        CommandStreamUI {
            module_name_lookup: ModuleRegistry::new(modules),
            inspected_textures: HashMap::new(),
        }
    }

    /// The name of the module based at `mba`, or `mba` as an address.
    pub fn module_name_from_mba(&self, mba: u64) -> (r: String)
        ensures
            r@ == module_label(self.modules(), mba),
    {
        self.module_name_lookup.module_name_from_mba(mba)
    }

    /// Opens an inspector on `texture` with the description the graphics
    /// layer gave; where it gave none, nothing is opened. An inspector
    /// already open on that handle is replaced, so there is never more than
    /// one per handle.
    pub fn inspect_texture(&mut self, texture: ResourceHandle, desc: Option<TextureDesc>)
        requires
            old(self).wf(),
        ensures
            final(self).wf(),
            final(self).modules() == old(self).modules(),
            final(self).inspected() == match desc {
                Some(d) => old(self).inspected().insert(
                    texture,
                    InspectedTexture { texture, width: d.width, height: d.height, format: d.format },
                ),
                None => old(self).inspected(),
            },
    {
        match desc {
            Some(d) => {
                self.inspected_textures.insert(
                    texture,
                    InspectedTexture { texture, width: d.width, height: d.height, format: d.format },
                );
                assert forall|h: ResourceHandle| #[trigger]
                    self.inspected().contains_key(h) implies self.inspected()[h].texture == h by {
                    if h != texture {
                        assert(old(self).inspected().contains_key(h));
                    }
                }
            },
            None => {},
        }
    }

    /// Closes the inspector on `texture`, leaving every other one open.
    pub fn close_texture(&mut self, texture: ResourceHandle)
        requires
            old(self).wf(),
        ensures
            final(self).wf(),
            final(self).modules() == old(self).modules(),
            final(self).inspected() == old(self).inspected().remove(texture),
    {
        self.inspected_textures.remove(&texture);
        assert forall|h: ResourceHandle| #[trigger]
            self.inspected().contains_key(h) implies self.inspected()[h].texture == h by {
            assert(old(self).inspected().contains_key(h));
        }
    }

    /// Closes the inspectors on each handle of `closed`.
    pub fn close_textures(&mut self, closed: &Vec<ResourceHandle>)
        requires
            old(self).wf(),
        ensures
            final(self).wf(),
            final(self).modules() == old(self).modules(),
            final(self).inspected() == old(self).inspected().remove_keys(closed@.to_set()),
    {
        let mut i: usize = 0;
        while i < closed.len()
            invariant
                i <= closed@.len(),
                self.wf(),
                self.modules() == old(self).modules(),
                self.inspected() == old(self).inspected().remove_keys(
                    closed@.take(i as int).to_set(),
                ),
            decreases closed@.len() - i,
        {
            let h = closed[i];
            self.close_texture(h);
            assert(closed@.take(i + 1) =~= closed@.take(i as int).push(h));
            proof {
                closed@.take(i as int).lemma_push_to_set_commute(h);
            }
            assert(self.inspected() =~= old(self).inspected().remove_keys(
                closed@.take(i + 1).to_set(),
            ));
            i = i + 1;
        }
        assert(closed@.take(i as int) =~= closed@);
    }

    /// Whether an inspector is open on `texture`.
    pub fn is_inspecting(&self, texture: ResourceHandle) -> (r: bool)
        ensures
            r == self.inspected().contains_key(texture),
    {
        self.inspected_textures.contains_key(&texture)
    }

    /// The inspector open on `texture`, if any.
    pub fn inspected_texture(&self, texture: ResourceHandle) -> (r: Option<InspectedTexture>)
        ensures
            r == (if self.inspected().contains_key(texture) {
                Some(self.inspected()[texture])
            } else {
                None
            }),
    {
        match self.inspected_textures.get(&texture) {
            Some(t) => Some(*t),
            None => None,
        }
    }

    /// The number of open inspectors.
    pub fn inspected_count(&self) -> (r: usize)
        ensures
            r as nat == self.inspected().len(),
    {
        self.inspected_textures.len()
    }

    /// The open inspectors, by the handle they inspect.
    pub fn inspected_textures(&self) -> (r: &HashMap<ResourceHandle, InspectedTexture>)
        ensures
            r@ == self.inspected(),
    {
        &self.inspected_textures
    }

    /// The displayed row of one stack frame.
    pub fn frame_row(&self, frame: StackFrame) -> (r: CallstackRow)
        ensures
            row_matches(self.modules(), frame, r),
    {
        let base = match frame.module_base {
            Some(b) => b,
            None => 0,
        };
        CallstackRow {
            module: self.module_name_from_mba(base),
            offset: offset(frame.address, base),
        }
    }

    /// The call stack of a record as displayed: one row per frame, leaving out
    /// the innermost frames that belong to the capture machinery.
    pub fn callstack_rows(&self, cmd: &Command) -> (r: Vec<CallstackRow>)
        ensures
            r@.len() == (if cmd.stack@.len() > HIDDEN_FRAMES {
                cmd.stack@.len() - HIDDEN_FRAMES
            } else {
                0
            }),
            forall|k: int|
                0 <= k < r@.len() ==> row_matches(
                    self.modules(),
                    cmd.stack@[k + HIDDEN_FRAMES],
                    #[trigger] r@[k],
                ),
    {
        let mut rows: Vec<CallstackRow> = Vec::new();
        let mut i: usize = HIDDEN_FRAMES;
        while i < cmd.stack.len()
            invariant
                HIDDEN_FRAMES <= i,
                i == HIDDEN_FRAMES || i <= cmd.stack@.len(),
                rows@.len() == i - HIDDEN_FRAMES,
                forall|k: int|
                    0 <= k < rows@.len() ==> row_matches(
                        self.modules(),
                        cmd.stack@[k + HIDDEN_FRAMES],
                        #[trigger] rows@[k],
                    ),
            decreases cmd.stack@.len() - i,
        {
            let row = self.frame_row(cmd.stack[i]);
            rows.push(row);
            i = i + 1;
        }
        rows
    }

    /// The heading the resource in position `slot` of `payload` is shown
    /// under.
    pub fn slot_heading(&self, payload: &CommandPayload, slot: usize) -> (r: String)
        ensures
            r@ == slot_heading(payload.category, slot as nat),
    {
        if payload.category == CommandCategory::CopyTexture && slot == 0 {
            String::from_str("Destination")
        } else if payload.category == CommandCategory::CopyTexture && slot == 1 {
            String::from_str("Source")
        } else if payload.category == CommandCategory::SetRenderTargets {
            String::from_str("Render Target")
        } else {
            String::from_str("Resource")
        }
    }
}

/// Closing inspectors removes exactly the closed handles: every other open
/// inspector stays open and unchanged, and none of the closed ones remains.
pub proof fn lemma_close_keeps_others(
    m: Map<ResourceHandle, InspectedTexture>,
    closed: Seq<ResourceHandle>,
)
    ensures
        forall|h: ResourceHandle|
            m.contains_key(h) && !closed.contains(h) ==> #[trigger] m.remove_keys(
                closed.to_set(),
            ).contains_key(h) && m.remove_keys(closed.to_set())[h] == m[h],
        forall|h: ResourceHandle|
            closed.contains(h) ==> !(#[trigger] m.remove_keys(closed.to_set()).contains_key(h)),
        m.remove_keys(closed.to_set()).dom() == m.dom() - closed.to_set(),
{
    assert(m.remove_keys(closed.to_set()).dom() =~= m.dom() - closed.to_set());
}

/// Inspecting two different resources with no inspector open leaves exactly
/// two inspectors, one per handle; closing the first leaves exactly the
/// second, unchanged.
pub proof fn lemma_inspect_two_close_one(
    h1: ResourceHandle,
    h2: ResourceHandle,
    a: InspectedTexture,
    b: InspectedTexture,
)
    requires
        h1 != h2,
    ensures
        ({
            let m = Map::<ResourceHandle, InspectedTexture>::empty().insert(h1, a).insert(h2, b);
            &&& m.dom() == set![h1, h2]
            &&& m[h1] == a
            &&& m[h2] == b
            &&& m.remove_keys(seq![h1].to_set()).dom() == set![h2]
            &&& m.remove_keys(seq![h1].to_set())[h2] == b
        }),
{
    let m = Map::<ResourceHandle, InspectedTexture>::empty().insert(h1, a).insert(h2, b);
    assert(m.dom() =~= set![h1, h2]);
    let s = seq![h1];
    assert(s.to_set() =~= set![h1]) by {
        assert(s.contains(h1)) by {
            assert(s[0] == h1);
        }
    }
    assert(m.remove_keys(s.to_set()).dom() =~= set![h2]);
}

} // verus!
