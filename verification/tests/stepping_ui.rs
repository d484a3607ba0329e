use blobo_party::stepping::{
    build_stepping_ui, handle_stepping_input, is_stepping_initialized, should_always_run,
    starts_with, stepping_ui_visibility, system_mark, update_stepping_ui, MarkColor,
    ScheduleSystems, StepSpan, SteppingCommand, SteppingContext, SteppingKeys, SystemKey,
    SystemSteppingContext, UiVisibility,
};

fn schedules() -> Vec<ScheduleSystems> {
    vec![
        ScheduleSystems {
            label: "PreUpdate\n".to_string(),
            systems: vec![
                (0, "bevy_input::keyboard::keyboard_input_system".to_string()),
                (1, "blobo_party::game::card::deck::play_card_from_deck".to_string()),
            ],
        },
        ScheduleSystems {
            label: "PostUpdate\n".to_string(),
            systems: vec![
                (4, "avian2d::sync::sync".to_string()),
                (5, "blobo_party::game::sprite::update_sprite_animation".to_string()),
                (6, "Pipe(a, b)".to_string()),
            ],
        },
    ]
}

#[test]
fn always_run_prefixes() {
    assert!(should_always_run("bevy_render::extract"));
    assert!(should_always_run("Pipe(a, b)"));
    assert!(should_always_run("avian2d::step"));
    assert!(!should_always_run("blobo_party::x"));
    assert!(!should_always_run("bev"));
    assert!(starts_with("abc", ""));
    assert!(!starts_with("ab", "abc"));
}

#[test]
fn stepping_layout_points_marks_at_names() {
    let mut ctx = SteppingContext { systems: Vec::new() };
    assert!(!is_stepping_initialized(&ctx));
    let layout = build_stepping_ui(&schedules(), &mut ctx);
    assert!(is_stepping_initialized(&ctx));
    let texts: Vec<String> = layout
        .spans
        .iter()
        .map(|s| match s {
            StepSpan::Schedule(t) => format!("S:{t}"),
            StepSpan::Cursor => "C".to_string(),
            StepSpan::SystemName(t) => format!("N:{t}"),
        })
        .collect();
    assert_eq!(
        texts,
        vec![
            "S:PreUpdate\n",
            "C",
            "N:play_card_from_deck\n",
            "S:PostUpdate\n",
            "C",
            "N:update_sprite_animation\n",
        ]
    );
    assert_eq!(
        layout.always_run,
        vec![
            SystemKey { schedule: 0, node: 0 },
            SystemKey { schedule: 1, node: 4 },
            SystemKey { schedule: 1, node: 6 },
        ]
    );
    assert_eq!(ctx.systems.len(), 2);
    assert_eq!(ctx.systems[0].0, SystemKey { schedule: 0, node: 1 });
    assert_eq!(ctx.systems[0].1.text_idx_mark, 2);
    assert_eq!(ctx.systems[0].1.text_idx_name, 3);
    assert_eq!(ctx.systems[1].0, SystemKey { schedule: 1, node: 5 });
    assert_eq!(ctx.systems[1].1.text_idx_mark, 5);
    assert_eq!(ctx.systems[1].1.text_idx_name, 6);
}

#[test]
fn next_system_idx_finds_the_cursor() {
    let mut ctx = SteppingContext { systems: Vec::new() };
    build_stepping_ui(&schedules(), &mut ctx);
    assert_eq!(ctx.next_system_idx(Some(SystemKey { schedule: 1, node: 5 })), Some(1));
    assert_eq!(ctx.next_system_idx(Some(SystemKey { schedule: 1, node: 4 })), None);
    assert_eq!(ctx.next_system_idx(None), None);
}

#[test]
fn stepping_keys_toggle_and_mark_systems() {
    let mut ctx = SteppingContext { systems: Vec::new() };
    build_stepping_ui(&schedules(), &mut ctx);
    let cursor = Some(SystemKey { schedule: 0, node: 1 });

    let enable = SteppingKeys { backquote: true, space: true, ..Default::default() };
    let cmds = handle_stepping_input(&enable, false, cursor, &mut ctx);
    assert!(cmds == vec![SteppingCommand::Enable, SteppingCommand::ContinueFrame]);

    let disabled = SteppingKeys { key_q: true, ..Default::default() };
    assert!(handle_stepping_input(&disabled, false, cursor, &mut ctx).is_empty());
    assert!(!ctx.systems[0].1.never_run);

    let d = SteppingKeys { key_d: true, key_s: true, slash: true, ..Default::default() };
    let cmds = handle_stepping_input(&d, true, cursor, &mut ctx);
    let key = cursor.unwrap();
    assert!(cmds == vec![SteppingCommand::LogState, SteppingCommand::StepFrame, SteppingCommand::SetBreakpointNode(key)]);
    assert!(ctx.systems[0].1.breakpoint);

    let e = SteppingKeys { key_e: true, ..Default::default() };
    let cmds = handle_stepping_input(&e, true, cursor, &mut ctx);
    assert!(cmds == vec![SteppingCommand::AlwaysRunNode(key)]);
    assert!(ctx.systems[0].1.always_run && !ctx.systems[0].1.never_run);

    let w = SteppingKeys { key_w: true, key_q: false, ..Default::default() };
    let cmds = handle_stepping_input(&w, true, cursor, &mut ctx);
    assert!(cmds == vec![SteppingCommand::ClearNode(key), SteppingCommand::SetBreakpointNode(key)]);

    let q = SteppingKeys { key_q: true, key_e: true, ..Default::default() };
    let cmds = handle_stepping_input(&q, true, cursor, &mut ctx);
    assert!(cmds == vec![SteppingCommand::NeverRunNode(key)]);
    assert!(ctx.systems[0].1.never_run && !ctx.systems[0].1.always_run);

    let d2 = SteppingKeys { key_d: true, ..Default::default() };
    let cmds = handle_stepping_input(&d2, true, cursor, &mut ctx);
    assert!(cmds == vec![SteppingCommand::SetBreakpointNode(key), SteppingCommand::NeverRunNode(key)]);

    let a = SteppingKeys { key_a: true, ..Default::default() };
    let cmds = handle_stepping_input(&a, true, cursor, &mut ctx);
    assert!(cmds == vec![SteppingCommand::ClearBreakpointNode(key)]);
    assert!(!ctx.systems[0].1.breakpoint);

    let off = SteppingKeys { backquote: true, key_q: true, ..Default::default() };
    let cmds = handle_stepping_input(&off, true, cursor, &mut ctx);
    assert!(cmds == vec![SteppingCommand::Disable]);
}

#[test]
fn stepping_marks_and_visibility() {
    let plain = SystemSteppingContext::new(1);
    assert_eq!(plain.text_idx_name, 2);
    assert!(system_mark(false, &plain) == ("   ", MarkColor::System));
    let bp = SystemSteppingContext { breakpoint: true, ..plain };
    assert!(system_mark(true, &bp) == ("-@ ", MarkColor::Next));
    assert!(system_mark(true, &plain) == ("-> ", MarkColor::Next));
    assert!(system_mark(false, &bp) == (" @ ", MarkColor::System));
    let always = SystemSteppingContext { always_run: true, ..plain };
    assert!(system_mark(false, &always) == (" + ", MarkColor::AlwaysRun));
    let never = SystemSteppingContext { never_run: true, ..plain };
    assert!(system_mark(false, &never) == (" - ", MarkColor::NeverRun));

    let mut ctx = SteppingContext { systems: Vec::new() };
    build_stepping_ui(&schedules(), &mut ctx);
    let updates = update_stepping_ui(&ctx, 1);
    assert_eq!(updates.len(), 2);
    assert_eq!(updates[0].mark, "   ");
    assert_eq!(updates[1].mark, "-> ");
    assert_eq!(updates[1].text_idx_mark, 5);

    assert!(stepping_ui_visibility(true, UiVisibility::Hidden) == UiVisibility::Inherited);
    assert!(stepping_ui_visibility(false, UiVisibility::Visible) == UiVisibility::Hidden);
    assert!(stepping_ui_visibility(true, UiVisibility::Visible) == UiVisibility::Visible);
    assert!(stepping_ui_visibility(false, UiVisibility::Hidden) == UiVisibility::Hidden);
}
