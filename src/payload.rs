use vstd::prelude::*;

verus! {

/// An opaque identifier of a graphics resource. The capture only compares
/// handles; it never dereferences them.
pub type ResourceHandle = u64;

/// The number of command categories.
pub const CATEGORY_COUNT: u32 = 19;

/// The closed set of command kinds a record can be classified as.
///
/// The first seventeen follow the renderer's own command type numbering;
/// `XIVRMarker` is a label inserted by the instrumentation itself and
/// `Unknown` is what an unrecognised command type becomes.
#[derive(Clone, Copy, Debug, PartialEq, Eq, Structural)]
pub enum CommandCategory {
    SetRenderTargets,
    SetViewports,
    SetViewportsFancy,
    SetScissorRect,
    Clear,
    Draw,
    DrawIndexed,
    DrawIndexedInstanced,
    DispatchComputeShader,
    XIVRHijack,
    CopyTexture,
    UnknownDraw,
    CopyResource,
    ResetRendererMaybe,
    Unknown1,
    CopySubresourceRegion,
    SomethingWithStrings,
    XIVRMarker,
    Unknown,
}

/// The position of a category in the declaration order above.
pub open spec fn category_index_of(c: CommandCategory) -> nat {
    match c {
        CommandCategory::SetRenderTargets => 0,
        CommandCategory::SetViewports => 1,
        CommandCategory::SetViewportsFancy => 2,
        CommandCategory::SetScissorRect => 3,
        CommandCategory::Clear => 4,
        CommandCategory::Draw => 5,
        CommandCategory::DrawIndexed => 6,
        CommandCategory::DrawIndexedInstanced => 7,
        CommandCategory::DispatchComputeShader => 8,
        CommandCategory::XIVRHijack => 9,
        CommandCategory::CopyTexture => 10,
        CommandCategory::UnknownDraw => 11,
        CommandCategory::CopyResource => 12,
        CommandCategory::ResetRendererMaybe => 13,
        CommandCategory::Unknown1 => 14,
        CommandCategory::CopySubresourceRegion => 15,
        CommandCategory::SomethingWithStrings => 16,
        CommandCategory::XIVRMarker => 17,
        CommandCategory::Unknown => 18,
    }
}

/// The category a raw command type number of the renderer stands for;
/// numbers the renderer does not define are `Unknown`.
pub open spec fn category_of_type(t: u32) -> CommandCategory {
    if t == 0 {
        CommandCategory::SetRenderTargets
    } else if t == 1 {
        CommandCategory::SetViewports
    } else if t == 2 {
        CommandCategory::SetViewportsFancy
    } else if t == 3 {
        CommandCategory::SetScissorRect
    } else if t == 4 {
        CommandCategory::Clear
    } else if t == 5 {
        CommandCategory::Draw
    } else if t == 6 {
        CommandCategory::DrawIndexed
    } else if t == 7 {
        CommandCategory::DrawIndexedInstanced
    } else if t == 8 {
        CommandCategory::DispatchComputeShader
    } else if t == 9 {
        CommandCategory::XIVRHijack
    } else if t == 10 {
        CommandCategory::CopyTexture
    } else if t == 11 {
        CommandCategory::UnknownDraw
    } else if t == 12 {
        CommandCategory::CopyResource
    } else if t == 13 {
        CommandCategory::ResetRendererMaybe
    } else if t == 14 {
        CommandCategory::Unknown1
    } else if t == 15 {
        CommandCategory::CopySubresourceRegion
    } else if t == 16 {
        CommandCategory::SomethingWithStrings
    } else {
        CommandCategory::Unknown
    }
}

/// The display name of a category.
pub open spec fn category_name(c: CommandCategory) -> Seq<char> {
    match c {
        CommandCategory::SetRenderTargets => "SetRenderTargets"@,
        CommandCategory::SetViewports => "SetViewports"@,
        CommandCategory::SetViewportsFancy => "SetViewportsFancy"@,
        CommandCategory::SetScissorRect => "SetScissorRect"@,
        CommandCategory::Clear => "Clear"@,
        CommandCategory::Draw => "Draw"@,
        CommandCategory::DrawIndexed => "DrawIndexed"@,
        CommandCategory::DrawIndexedInstanced => "DrawIndexedInstanced"@,
        CommandCategory::DispatchComputeShader => "DispatchComputeShader"@,
        CommandCategory::XIVRHijack => "XIVRHijack"@,
        CommandCategory::CopyTexture => "CopyTexture"@,
        CommandCategory::UnknownDraw => "UnknownDraw"@,
        CommandCategory::CopyResource => "CopyResource"@,
        CommandCategory::ResetRendererMaybe => "ResetRendererMaybe"@,
        CommandCategory::Unknown1 => "Unknown1"@,
        CommandCategory::CopySubresourceRegion => "CopySubresourceRegion"@,
        CommandCategory::SomethingWithStrings => "SomethingWithStrings"@,
        CommandCategory::XIVRMarker => "XIVRMarker"@,
        CommandCategory::Unknown => "Unknown"@,
    }
}

/// The colour a category is drawn in: the hue is `hue_index / hue_count` of
/// the colour wheel, at a fixed saturation and value (in percent).
#[derive(Clone, Copy, Debug, PartialEq, Eq, Structural)]
pub struct CategoryColour {
    pub hue_index: u32,
    pub hue_count: u32,
    pub saturation_percent: u32,
    pub value_percent: u32,
}

/// The saturation every category colour has, in percent.
pub const COLOUR_SATURATION_PERCENT: u32 = 60;

/// The value (brightness) every category colour has, in percent.
pub const COLOUR_VALUE_PERCENT: u32 = 80;

impl CommandCategory {
    /// The position of this category in the declaration order.
    pub fn index(&self) -> (r: u32)
        ensures
            r as nat == category_index_of(*self),
            r < CATEGORY_COUNT,
    {
        match self {
            CommandCategory::SetRenderTargets => 0,
            CommandCategory::SetViewports => 1,
            CommandCategory::SetViewportsFancy => 2,
            CommandCategory::SetScissorRect => 3,
            CommandCategory::Clear => 4,
            CommandCategory::Draw => 5,
            CommandCategory::DrawIndexed => 6,
            CommandCategory::DrawIndexedInstanced => 7,
            CommandCategory::DispatchComputeShader => 8,
            CommandCategory::XIVRHijack => 9,
            CommandCategory::CopyTexture => 10,
            CommandCategory::UnknownDraw => 11,
            CommandCategory::CopyResource => 12,
            CommandCategory::ResetRendererMaybe => 13,
            CommandCategory::Unknown1 => 14,
            CommandCategory::CopySubresourceRegion => 15,
            CommandCategory::SomethingWithStrings => 16,
            CommandCategory::XIVRMarker => 17,
            CommandCategory::Unknown => 18,
        }
    }

    /// The category of a raw renderer command type number.
    pub fn from_type(t: u32) -> (r: CommandCategory)
        ensures
            r == category_of_type(t),
    {
        match t {
            0 => CommandCategory::SetRenderTargets,
            1 => CommandCategory::SetViewports,
            2 => CommandCategory::SetViewportsFancy,
            3 => CommandCategory::SetScissorRect,
            4 => CommandCategory::Clear,
            5 => CommandCategory::Draw,
            6 => CommandCategory::DrawIndexed,
            7 => CommandCategory::DrawIndexedInstanced,
            8 => CommandCategory::DispatchComputeShader,
            9 => CommandCategory::XIVRHijack,
            10 => CommandCategory::CopyTexture,
            11 => CommandCategory::UnknownDraw,
            12 => CommandCategory::CopyResource,
            13 => CommandCategory::ResetRendererMaybe,
            14 => CommandCategory::Unknown1,
            15 => CommandCategory::CopySubresourceRegion,
            16 => CommandCategory::SomethingWithStrings,
            _ => CommandCategory::Unknown,
        }
    }

    /// The display name of this category.
    pub fn name(&self) -> (r: String)
        ensures
            r@ == category_name(*self),
    {
        let s = match self {
            CommandCategory::SetRenderTargets => "SetRenderTargets",
            CommandCategory::SetViewports => "SetViewports",
            CommandCategory::SetViewportsFancy => "SetViewportsFancy",
            CommandCategory::SetScissorRect => "SetScissorRect",
            CommandCategory::Clear => "Clear",
            CommandCategory::Draw => "Draw",
            CommandCategory::DrawIndexed => "DrawIndexed",
            CommandCategory::DrawIndexedInstanced => "DrawIndexedInstanced",
            CommandCategory::DispatchComputeShader => "DispatchComputeShader",
            CommandCategory::XIVRHijack => "XIVRHijack",
            CommandCategory::CopyTexture => "CopyTexture",
            CommandCategory::UnknownDraw => "UnknownDraw",
            CommandCategory::CopyResource => "CopyResource",
            CommandCategory::ResetRendererMaybe => "ResetRendererMaybe",
            CommandCategory::Unknown1 => "Unknown1",
            CommandCategory::CopySubresourceRegion => "CopySubresourceRegion",
            CommandCategory::SomethingWithStrings => "SomethingWithStrings",
            CommandCategory::XIVRMarker => "XIVRMarker",
            CommandCategory::Unknown => "Unknown",
        };
        String::from_str(s)
    }

    /// The colour this category is drawn in.
    pub fn colour(&self) -> (r: CategoryColour)
        ensures
            r.hue_index as nat == category_index_of(*self),
            r.hue_count == CATEGORY_COUNT,
            r.saturation_percent == COLOUR_SATURATION_PERCENT,
            r.value_percent == COLOUR_VALUE_PERCENT,
    {
        CategoryColour {
            hue_index: self.index(),
            hue_count: CATEGORY_COUNT,
            saturation_percent: COLOUR_SATURATION_PERCENT,
            value_percent: COLOUR_VALUE_PERCENT,
        }
    }
}

/// A classified command: its category, the resources it refers to (in the
/// category's argument order) and, for a marker, its label.
#[derive(Clone, Debug, PartialEq, Eq)]
pub struct CommandPayload {
    pub category: CommandCategory,
    pub resources: Vec<ResourceHandle>,
    pub label: String,
}

/// A command as the renderer's instrumentation reports it: a raw type number
/// and the resource arguments of the two command types that carry any.
#[derive(Clone, Debug, PartialEq, Eq)]
pub struct ShaderCommand {
    pub cmd_type: u32,
    pub render_targets: Vec<ResourceHandle>,
    pub copy_dst: ResourceHandle,
    pub copy_src: ResourceHandle,
}

/// The text a record is listed under: a marker's label, otherwise the name of
/// its category.
pub open spec fn title_of(p: CommandPayload) -> Seq<char> {
    if p.category == CommandCategory::XIVRMarker {
        p.label@
    } else {
        category_name(p.category)
    }
}

/// The resources a reported command refers to: its render targets, the
/// destination and source of a texture copy, and nothing for the others.
pub open spec fn resources_of_event(e: ShaderCommand) -> Seq<ResourceHandle> {
    let c = category_of_type(e.cmd_type);
    if c == CommandCategory::SetRenderTargets {
        e.render_targets@
    } else if c == CommandCategory::CopyTexture {
        seq![e.copy_dst, e.copy_src]
    } else {
        Seq::empty()
    }
}

impl CommandPayload {
    /// A payload of the given category and resources, with no label.
    pub fn new(category: CommandCategory, resources: Vec<ResourceHandle>) -> (r: CommandPayload)
        ensures
            r.category == category,
            r.resources@ == resources@,
            r.label@ == Seq::<char>::empty(),
    {
        CommandPayload { category, resources, label: String::new() }
    }

    /// A marker carrying `label`.
    pub fn marker(label: &str) -> (r: CommandPayload)
        ensures
            r.category == CommandCategory::XIVRMarker,
            r.resources@ == Seq::<ResourceHandle>::empty(),
            r.label@ == label@,
    {
        CommandPayload {
            category: CommandCategory::XIVRMarker,
            resources: Vec::new(),
            label: String::from_str(label),
        }
    }

    /// Classifies a reported command. Every command type has a category;
    /// unrecognised type numbers become `Unknown`.
    pub fn from_event(event: ShaderCommand) -> (r: CommandPayload)
        ensures
            r.category == category_of_type(event.cmd_type),
            r.resources@ == resources_of_event(event),
            r.label@ == Seq::<char>::empty(),
    {
        let category = CommandCategory::from_type(event.cmd_type);
        let resources = match category {
            CommandCategory::SetRenderTargets => event.render_targets,
            CommandCategory::CopyTexture => vec![event.copy_dst, event.copy_src],
            _ => Vec::new(),
        };
        CommandPayload::new(category, resources)
    }

    /// The text this record is listed under.
    pub fn title(&self) -> (r: String)
        ensures
            r@ == title_of(*self),
    {
        if self.category == CommandCategory::XIVRMarker {
            self.label.clone()
        } else {
            self.category.name()
        }
    }

    /// The colour of this record's category.
    pub fn colour(&self) -> (r: CategoryColour)
        ensures
            r.hue_index as nat == category_index_of(self.category),
            r.hue_count == CATEGORY_COUNT,
            r.saturation_percent == COLOUR_SATURATION_PERCENT,
            r.value_percent == COLOUR_VALUE_PERCENT,
    {
        self.category.colour()
    }
}

} // verus!
