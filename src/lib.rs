//! Frame command capture and inspection.
//!
//! An instrumented renderer hands every pipeline command to a [`CommandStream`];
//! while a capture is live the stream records them, and once the frame ends the
//! recording is frozen and can be browsed: per-command category and colour,
//! issuing thread, timing, call stack and the resources a command refers to.

mod hex;
mod modules;
mod payload;
mod record;
mod session;
mod stream;
mod ui;
mod view;

pub use hex::{hex_address, hex_digits};
pub use modules::{
    frame_base, module_label, offset, offset_from, registry_of, resolve_spec, ModuleRegistry,
};
pub use payload::{
    category_index_of, category_name, category_of_type, resources_of_event, title_of,
    CategoryColour, CommandCategory, CommandPayload, ResourceHandle, ShaderCommand, CATEGORY_COUNT,
    COLOUR_SATURATION_PERCENT, COLOUR_VALUE_PERCENT,
};
pub use record::{Command, StackFrame};
pub use session::{
    can_select, clamped_elapsed, elapsed_ordered, frame_boundary_spec, lemma_capture_spans_one_interval,
    lemma_elapsed_non_decreasing, lemma_idle_boundary_is_noop, lemma_records_append,
    lemma_records_ignored_when_not_recording, record_spec, recorded_as, records_spec,
    request_capture_spec, select_spec, session_wf, CommandStreamState, SessionView,
};
pub use stream::{
    classified, lemma_capture_holds_exactly_one_interval, lemma_recorded_one,
    lemma_run_outside_recording, lemma_run_while_recording, recorded_one, recorded_run,
    CommandStream,
};
pub use ui::{
    lemma_close_keeps_others, lemma_inspect_two_close_one, row_matches, slot_heading, CallstackRow, CommandStreamUI, InspectedTexture, TextureDesc,
    HIDDEN_FRAMES,
};
pub use view::{
    detail_matches, list_row_matches, selected_resource_spec, CommandDetail, DataRow, ListRow,
};
