use command_capture::{
    Command, CommandCategory, CommandPayload, CommandStream, CommandStreamState, ShaderCommand,
    TextureDesc,
};

fn finalized(stream: &CommandStream) -> Vec<Command> {
    match stream.state() {
        CommandStreamState::Captured { stream, .. } => stream.clone(),
        _ => panic!("capture is not finalized"),
    }
}

fn selected_index(stream: &CommandStream) -> Option<usize> {
    match stream.state() {
        CommandStreamState::Captured { selected_index, .. } => *selected_index,
        _ => panic!("capture is not finalized"),
    }
}

fn recording_stream() -> CommandStream {
    let mut s = CommandStream::new(vec![]);
    s.request_capture();
    s.pre_update();
    assert!(s.state().is_capturing());
    s
}

fn draw() -> CommandPayload {
    CommandPayload::new(CommandCategory::Draw, vec![])
}

#[test]
fn records_before_capture_are_dropped() {
    let mut s = CommandStream::new(vec![]);
    s.record(draw(), 1);
    s.add_marker("idle", 1);
    s.request_capture();
    s.record(CommandPayload::new(CommandCategory::Clear, vec![]), 1);
    s.add_marker("pending", 1);
    s.pre_update();
    s.add_marker("live", 1);
    s.pre_update();
    let q = finalized(&s);
    assert_eq!(q.len(), 1);
    assert_eq!(q[0].payload.title(), "live");
}

#[test]
fn one_boundary_starts_and_one_finalizes() {
    let mut s = CommandStream::new(vec![]);
    s.request_capture();
    assert!(matches!(s.state(), CommandStreamState::WantToCapture));
    s.pre_update();
    assert!(matches!(s.state(), CommandStreamState::Capturing { .. }));
    s.record(draw(), 3);
    s.pre_update();
    assert!(matches!(s.state(), CommandStreamState::Captured { .. }));
    assert_eq!(finalized(&s).len(), 1);
    s.pre_update();
    assert_eq!(finalized(&s).len(), 1);
    assert_eq!(selected_index(&s), None);
}

#[test]
fn request_while_recording_changes_nothing() {
    let mut s = recording_stream();
    s.record(draw(), 1);
    s.request_capture();
    assert!(s.state().is_capturing());
    s.record(draw(), 1);
    s.pre_update();
    assert_eq!(finalized(&s).len(), 2);
}

#[test]
fn request_after_finalize_discards_on_next_capture() {
    let mut s = recording_stream();
    s.record(draw(), 1);
    s.pre_update();
    s.request_capture();
    assert!(matches!(s.state(), CommandStreamState::WantToCapture));
    s.pre_update();
    s.add_marker("second", 2);
    s.pre_update();
    let q = finalized(&s);
    assert_eq!(q.len(), 1);
    assert_eq!(q[0].thread_id, 2);
}

#[test]
fn elapsed_times_never_decrease() {
    let mut s = recording_stream();
    for i in 0..50u32 {
        s.record(draw(), 7);
        if i % 10 == 0 {
            s.add_marker("tick", 7);
        }
    }
    s.pre_update();
    let q = finalized(&s);
    assert_eq!(q.len(), 55);
    for w in q.windows(2) {
        assert!(w[0].elapsed_nanos <= w[1].elapsed_nanos);
    }
}

#[test]
fn boundary_while_idle_is_noop() {
    let mut s = CommandStream::new(vec![]);
    s.pre_update();
    assert!(matches!(s.state(), CommandStreamState::Uncaptured));
    s.pre_update();
    assert!(matches!(s.state(), CommandStreamState::Uncaptured));
    assert!(s.state().captured().is_none());
}

#[test]
fn round_trip_keeps_records_verbatim() {
    let h1: u64 = 0x1000;
    let h2: u64 = 0x2000;
    let mut s = CommandStream::new(vec![]);
    s.request_capture();
    s.pre_update();
    let a = draw();
    let b = CommandPayload::marker("frame start");
    let c = CommandPayload::new(CommandCategory::CopyResource, vec![h1, h2]);
    s.record(a.clone(), 11);
    s.record(b.clone(), 12);
    s.record(c.clone(), 13);
    s.pre_update();
    let q = finalized(&s);
    assert_eq!(q.len(), 3);
    assert_eq!(q[0].payload, a);
    assert_eq!(q[1].payload, b);
    assert_eq!(q[2].payload, c);
    assert_eq!(q[0].thread_id, 11);
    assert_eq!(q[1].thread_id, 12);
    assert_eq!(q[2].thread_id, 13);
    assert_eq!(q[1].payload.title(), "frame start");
    assert_eq!(selected_index(&s), None);
}

#[test]
fn inspect_two_resources_then_close_one() {
    let h1: u64 = 0x1000;
    let h2: u64 = 0x2000;
    let mut s = recording_stream();
    s.record(draw(), 1);
    s.add_marker("frame start", 1);
    s.record(CommandPayload::new(CommandCategory::CopyResource, vec![h1, h2]), 1);
    s.pre_update();
    assert!(s.select(2));
    assert_eq!(selected_index(&s), Some(2));
    let (i, cmd) = s.state().selected().unwrap();
    assert_eq!(i, 2);
    let handles = cmd.payload.resources.clone();
    assert_eq!(handles, vec![h1, h2]);
    for h in handles {
        s.inspect_texture(h, Some(TextureDesc { width: 640, height: 480, format: 28 }));
    }
    assert_eq!(s.ui().inspected_count(), 2);
    assert!(s.ui().is_inspecting(h1));
    assert!(s.ui().is_inspecting(h2));
    assert_eq!(s.ui().inspected_texture(h2).unwrap().texture, h2);
    s.close_textures(&vec![h1]);
    assert_eq!(s.ui().inspected_count(), 1);
    assert!(!s.ui().is_inspecting(h1));
    assert!(s.ui().is_inspecting(h2));
}

#[test]
fn two_producers_record_two_hundred() {
    let mut s = recording_stream();
    for i in 0..100u32 {
        s.record(CommandPayload::new(CommandCategory::Draw, vec![i as u64]), 1);
        s.record(CommandPayload::new(CommandCategory::Clear, vec![i as u64]), 2);
    }
    s.pre_update();
    let q = finalized(&s);
    assert_eq!(q.len(), 200);
    for t in 1..=2u32 {
        let mine: Vec<u64> = q
            .iter()
            .filter(|c| c.thread_id == t)
            .map(|c| c.payload.resources[0])
            .collect();
        assert_eq!(mine, (0..100u64).collect::<Vec<u64>>());
    }
}

#[test]
fn selection_out_of_range_is_refused() {
    let mut s = recording_stream();
    s.record(draw(), 1);
    s.pre_update();
    assert!(!s.select(1));
    assert_eq!(selected_index(&s), None);
    assert!(s.select(0));
    assert!(!s.select(5));
    assert_eq!(selected_index(&s), Some(0));
}

#[test]
fn selection_before_finalize_is_refused() {
    let mut s = recording_stream();
    s.record(draw(), 1);
    assert!(!s.select(0));
    assert!(s.state().selected().is_none());
}

#[test]
fn failed_introspection_opens_nothing() {
    let mut s = CommandStream::new(vec![]);
    s.inspect_texture(0x40, None);
    assert_eq!(s.ui().inspected_count(), 0);
    s.inspect_texture(0x40, Some(TextureDesc { width: 1, height: 2, format: 3 }));
    s.inspect_texture(0x40, Some(TextureDesc { width: 4, height: 5, format: 6 }));
    assert_eq!(s.ui().inspected_count(), 1);
    let t = s.ui().inspected_texture(0x40).unwrap();
    assert_eq!((t.width, t.height, t.format), (4, 5, 6));
}

#[test]
fn reported_commands_are_classified() {
    let mut s = recording_stream();
    s.add_command(
        ShaderCommand { cmd_type: 0, render_targets: vec![5, 6, 7], copy_dst: 0, copy_src: 0 },
        1,
    );
    s.add_command(
        ShaderCommand { cmd_type: 10, render_targets: vec![9], copy_dst: 21, copy_src: 22 },
        1,
    );
    s.add_command(
        ShaderCommand { cmd_type: 5, render_targets: vec![9], copy_dst: 21, copy_src: 22 },
        1,
    );
    s.add_command(
        ShaderCommand { cmd_type: 99, render_targets: vec![], copy_dst: 0, copy_src: 0 },
        1,
    );
    s.pre_update();
    let q = finalized(&s);
    assert_eq!(q[0].payload.category, CommandCategory::SetRenderTargets);
    assert_eq!(q[0].payload.resources, vec![5, 6, 7]);
    assert_eq!(q[1].payload.category, CommandCategory::CopyTexture);
    assert_eq!(q[1].payload.resources, vec![21, 22]);
    assert_eq!(q[2].payload.category, CommandCategory::Draw);
    assert!(q[2].payload.resources.is_empty());
    assert_eq!(q[3].payload.category, CommandCategory::Unknown);
    assert_eq!(q[3].payload.title(), "Unknown");
}

#[test]
fn explicit_start_and_end() {
    let mut s = CommandStream::new(vec![]);
    s.end_capture();
    assert!(matches!(s.state(), CommandStreamState::Uncaptured));
    s.start_capture();
    s.add_marker("m", 4);
    s.end_capture();
    assert_eq!(finalized(&s).len(), 1);
}

#[test]
fn recorded_stack_is_captured() {
    let mut s = recording_stream();
    s.record(draw(), 1);
    s.pre_update();
    assert!(!finalized(&s)[0].stack.is_empty());
}

#[test]
fn empty_frame_gives_empty_capture() {
    let mut s = recording_stream();
    s.pre_update();
    assert!(finalized(&s).is_empty());
    assert!(!s.select(0));
}

#[test]
fn list_rows_mark_the_selection() {
    let mut s = recording_stream();
    s.record(draw(), 1);
    s.add_marker("frame start", 1);
    s.pre_update();
    assert!(s.select(1));
    let rows = s.list_rows();
    assert_eq!(rows.len(), 2);
    assert_eq!(rows[0].index, 0);
    assert_eq!(rows[0].title, "Draw");
    assert!(!rows[0].selected);
    assert_eq!(rows[0].colour.hue_index, 5);
    assert_eq!(rows[1].title, "frame start");
    assert!(rows[1].selected);
    assert_eq!(rows[1].colour.hue_index, 17);
}

#[test]
fn list_rows_empty_before_finalize() {
    let s = recording_stream();
    assert!(s.list_rows().is_empty());
}

#[test]
fn detail_of_selected_record() {
    let mut s = recording_stream();
    s.record(CommandPayload::new(CommandCategory::CopyTexture, vec![0x10, 0x20]), 9);
    s.record(draw(), 9);
    s.pre_update();
    assert!(s.selected_detail().is_none());
    assert!(s.select(0));
    let d = s.selected_detail().unwrap();
    assert_eq!(d.index, 0);
    assert_eq!(d.title, "CopyTexture");
    assert_eq!(d.thread_id, 9);
    assert_eq!(d.data.len(), 2);
    assert_eq!(d.data[0].heading, "Destination");
    assert_eq!(d.data[0].resource, 0x10);
    assert_eq!(d.data[1].heading, "Source");
    assert_eq!(d.data[1].resource, 0x20);
    assert!(s.select(1));
    assert!(s.selected_detail().unwrap().data.is_empty());
}

#[test]
fn inspect_selected_opens_the_slot_handle() {
    let mut s = recording_stream();
    s.record(CommandPayload::new(CommandCategory::CopyResource, vec![0x1000, 0x2000]), 1);
    s.pre_update();
    let desc = Some(TextureDesc { width: 8, height: 8, format: 1 });
    assert_eq!(s.inspect_selected(0, desc), None);
    assert_eq!(s.ui().inspected_count(), 0);
    assert!(s.select(0));
    assert_eq!(s.selected_resource(1), Some(0x2000));
    assert_eq!(s.inspect_selected(1, desc), Some(0x2000));
    assert!(s.ui().is_inspecting(0x2000));
    assert!(!s.ui().is_inspecting(0x1000));
    assert_eq!(s.inspect_selected(2, desc), None);
    assert_eq!(s.inspect_selected(0, None), Some(0x1000));
    assert_eq!(s.ui().inspected_count(), 1);
}
