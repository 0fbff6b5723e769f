use command_capture::{
    hex_address, offset, CommandCategory, CommandPayload, CommandStreamUI, ModuleRegistry,
    StackFrame, CATEGORY_COUNT, HIDDEN_FRAMES,
};

fn modules() -> Vec<(u64, String)> {
    vec![
        (0x1400_0000, "game.exe".to_string()),
        (0x7ff0_0000, "d3d11.dll".to_string()),
        (0x1400_0000, "renamed.exe".to_string()),
    ]
}

#[test]
fn hex_addresses() {
    assert_eq!(hex_address(0), "0x0");
    assert_eq!(hex_address(0xF), "0xf");
    assert_eq!(hex_address(0x10), "0x10");
    assert_eq!(hex_address(0xDEAD_BEEF), "0xdeadbeef");
    assert_eq!(hex_address(u64::MAX), "0xffffffffffffffff");
}

#[test]
fn module_names_by_base() {
    let ui = CommandStreamUI::new(modules());
    assert_eq!(ui.module_name_from_mba(0x7ff0_0000), "d3d11.dll");
    assert_eq!(ui.module_name_from_mba(0x1400_0000), "renamed.exe");
    assert_eq!(ui.module_name_from_mba(0x1234), "0x1234");
}

#[test]
fn frames_resolve_against_known_modules() {
    let reg = ModuleRegistry::new(modules());
    let known = StackFrame { address: 0x7ff0_1234, module_base: Some(0x7ff0_0000) };
    assert_eq!(reg.resolve(known), Some(("d3d11.dll".to_string(), 0x1234)));
    let unknown = StackFrame { address: 0x5000, module_base: Some(0x4000) };
    assert_eq!(reg.resolve(unknown), None);
    let bare = StackFrame { address: 0x5000, module_base: None };
    assert_eq!(reg.resolve(bare), None);
}

#[test]
fn offsets_wrap() {
    assert_eq!(offset(0x1010, 0x1000), 0x10);
    assert_eq!(offset(0x1000, 0x1000), 0);
    assert_eq!(offset(0, 1), u64::MAX);
}

#[test]
fn callstack_skips_capture_frames() {
    let ui = CommandStreamUI::new(modules());
    let mut stack = vec![];
    for i in 0..HIDDEN_FRAMES as u64 {
        stack.push(StackFrame { address: i, module_base: None });
    }
    stack.push(StackFrame { address: 0x7ff0_0042, module_base: Some(0x7ff0_0000) });
    stack.push(StackFrame { address: 0x99, module_base: None });
    let cmd = command_capture::Command {
        payload: CommandPayload::new(CommandCategory::Draw, vec![]),
        stack,
        thread_id: 1,
        elapsed_nanos: 0,
    };
    let rows = ui.callstack_rows(&cmd);
    assert_eq!(rows.len(), 2);
    assert_eq!(rows[0].module, "d3d11.dll");
    assert_eq!(rows[0].offset, 0x42);
    assert_eq!(rows[1].module, "0x0");
    assert_eq!(rows[1].offset, 0x99);
}

#[test]
fn short_callstack_shows_nothing() {
    let ui = CommandStreamUI::new(vec![]);
    let cmd = command_capture::Command {
        payload: CommandPayload::marker("m"),
        stack: vec![StackFrame { address: 1, module_base: None }],
        thread_id: 1,
        elapsed_nanos: 0,
    };
    assert!(ui.callstack_rows(&cmd).is_empty());
}

#[test]
fn titles_and_colours() {
    assert_eq!(CommandPayload::new(CommandCategory::SetRenderTargets, vec![]).title(), "SetRenderTargets");
    assert_eq!(CommandPayload::marker("frame start").title(), "frame start");
    let c = CommandPayload::new(CommandCategory::XIVRHijack, vec![]).colour();
    assert_eq!((c.hue_index, c.hue_count), (9, CATEGORY_COUNT));
    assert_eq!((c.saturation_percent, c.value_percent), (60, 80));
    assert_eq!(CommandCategory::SetRenderTargets.colour().hue_index, 0);
    assert_eq!(CommandCategory::Unknown.index(), CATEGORY_COUNT - 1);
    assert_eq!(CommandCategory::from_type(9), CommandCategory::XIVRHijack);
    assert_eq!(CommandCategory::from_type(17), CommandCategory::Unknown);
}

#[test]
fn slot_headings() {
    let ui = CommandStreamUI::new(vec![]);
    let copy = CommandPayload::new(CommandCategory::CopyTexture, vec![1, 2]);
    assert_eq!(ui.slot_heading(&copy, 0), "Destination");
    assert_eq!(ui.slot_heading(&copy, 1), "Source");
    let rts = CommandPayload::new(CommandCategory::SetRenderTargets, vec![1]);
    assert_eq!(ui.slot_heading(&rts, 0), "Render Target");
    let other = CommandPayload::new(CommandCategory::CopyResource, vec![1]);
    assert_eq!(ui.slot_heading(&other, 0), "Resource");
}

#[test]
fn unknown_module_shows_lowercase_address() {
    let ui = CommandStreamUI::new(modules());
    assert_eq!(ui.module_name_from_mba(0xab), "0xab");
    assert_eq!(ui.module_name_from_mba(0x7FF0_ABCD), "0x7ff0abcd");
}
