use lx::{
    CommandMode, CursorShape, EditMode, Effect, GlobalKey, InsertMode, KeyCode, KeyEvent,
    KeyModifiers, Lx, Mode, ModeOp, Operation, OverviewMode, OverviewPane,
};

fn plain(code: KeyCode) -> KeyEvent {
    KeyEvent::plain(code)
}

fn all_modes() -> Vec<Mode> {
    vec![Mode::insert(), Mode::edit(), Mode::command(), Mode::overview()]
}

#[test]
fn global_combinations_switch_from_every_mode() {
    for mut mode in all_modes() {
        assert_eq!(mode.match_key(KeyEvent::ctrl('v')), Some(Mode::insert()));
        assert_eq!(mode.match_key(KeyEvent::ctrl('z')), Some(Mode::overview()));
        assert_eq!(mode.match_key(KeyEvent::ctrl('c')), Some(Mode::edit()));
        assert_eq!(mode.match_key(KeyEvent::ctrl('x')), Some(Mode::command()));
    }
}

#[test]
fn mode_triggers_are_the_four_control_combinations() {
    assert_eq!(InsertMode::key(), KeyEvent::ctrl('v'));
    assert_eq!(OverviewMode::key(), KeyEvent::ctrl('z'));
    assert_eq!(EditMode::key(), KeyEvent::ctrl('c'));
    assert_eq!(CommandMode::key(), KeyEvent::ctrl('x'));
    assert_eq!(InsertMode::match_key(KeyEvent::ctrl('v')), Some(InsertMode {}));
    assert_eq!(InsertMode::match_key(KeyEvent::ctrl('c')), None);
    assert_eq!(
        OverviewMode::match_key(KeyEvent::ctrl('z')),
        Some(OverviewMode { view: OverviewPane::Buffers })
    );
    assert_eq!(
        CommandMode::match_key(KeyEvent::ctrl('x')),
        Some(CommandMode { command_buf: String::new() })
    );
    assert_eq!(EditMode::match_key(KeyEvent::plain(KeyCode::Char('c'))), None);
}

#[test]
fn escape_steps_back_and_stops_at_overview() {
    assert_eq!(Mode::insert().match_key(plain(KeyCode::Esc)), Some(Mode::edit()));
    assert_eq!(Mode::edit().match_key(plain(KeyCode::Esc)), Some(Mode::overview()));
    assert_eq!(Mode::command().match_key(plain(KeyCode::Esc)), Some(Mode::edit()));
    assert_eq!(Mode::overview().match_key(plain(KeyCode::Esc)), None);
}

#[test]
fn enter_steps_forward_from_overview_and_edit_only() {
    assert_eq!(Mode::overview().match_key(plain(KeyCode::Enter)), Some(Mode::edit()));
    assert_eq!(Mode::edit().match_key(plain(KeyCode::Enter)), Some(Mode::insert()));
    assert_eq!(Mode::insert().match_key(plain(KeyCode::Enter)), None);
    assert_eq!(Mode::command().match_key(plain(KeyCode::Enter)), None);
}

#[test]
fn colon_enters_command_mode_from_edit_only() {
    let colon = plain(KeyCode::Char(':'));
    assert_eq!(Mode::edit().match_key(colon), Some(Mode::command()));
    assert_eq!(Mode::insert().match_key(colon), None);
    assert_eq!(Mode::overview().match_key(colon), None);
    assert_eq!(Mode::command().match_key(colon), None);
}

#[test]
fn modified_escape_enter_and_colon_switch_nothing() {
    for mut mode in all_modes() {
        assert_eq!(mode.match_key(KeyEvent::new(KeyCode::Esc, KeyModifiers::shift())), None);
        assert_eq!(mode.match_key(KeyEvent::new(KeyCode::Enter, KeyModifiers::control())), None);
        assert_eq!(mode.match_key(KeyEvent::new(KeyCode::Char(':'), KeyModifiers::alt())), None);
        assert_eq!(mode.match_key(plain(KeyCode::Char('v'))), None);
    }
}

#[test]
fn match_key_leaves_the_mode_itself_alone() {
    let mut mode = Mode::Command(CommandMode { command_buf: "wri".to_string() });
    assert_eq!(mode.match_key(plain(KeyCode::Esc)), Some(Mode::edit()));
    assert_eq!(mode, Mode::Command(CommandMode { command_buf: "wri".to_string() }));
}

#[test]
fn insert_toggle_leads_to_insert_from_edit_and_to_edit_otherwise() {
    assert_eq!(Mode::command().toggle_insert(), Mode::edit());
    assert_eq!(Mode::edit().toggle_insert(), Mode::insert());
    assert_eq!(Mode::insert().toggle_insert(), Mode::edit());
    assert_eq!(Mode::overview().toggle_insert(), Mode::edit());
    assert_eq!(
        Mode::toggle_insert_key(),
        KeyEvent::new(KeyCode::Enter, KeyModifiers::control())
    );
}

#[test]
fn modes_are_entered_in_their_initial_form() {
    assert_eq!(Mode::edit(), Mode::Edit(EditMode {}));
    assert_eq!(Mode::insert(), Mode::Insert(InsertMode {}));
    assert_eq!(Mode::overview(), Mode::Overview(OverviewMode { view: OverviewPane::Buffers }));
    assert_eq!(Mode::command(), Mode::Command(CommandMode { command_buf: String::new() }));
    assert_eq!(OverviewPane::default(), OverviewPane::Buffers);
}

#[test]
fn mode_names() {
    assert_eq!(Mode::command().to_string(), "COMMAND");
    assert_eq!(Mode::edit().to_string(), "EDIT");
    assert_eq!(Mode::insert().to_string(), "INSERT");
    assert_eq!(Mode::overview().to_string(), "OVERVIEW");
}

#[test]
fn same_kind_ignores_what_the_mode_carries() {
    let typed = Mode::Command(CommandMode { command_buf: "q".to_string() });
    assert!(typed.same_kind(&Mode::command()));
    assert!(!typed.same_kind(&Mode::edit()));
    assert!(Mode::overview().same_kind(&Mode::Overview(OverviewMode { view: OverviewPane::Tabs })));
    assert!(!Mode::insert().same_kind(&Mode::edit()));
}

#[test]
fn mode_requests_name_their_modes() {
    assert_eq!(Mode::insert().switch_op(), ModeOp::Insert);
    assert_eq!(Mode::edit().switch_op(), ModeOp::Edit);
    assert_eq!(Mode::overview().switch_op(), ModeOp::Overview);
    assert_eq!(Mode::command().switch_op(), ModeOp::Command);
    assert_eq!(ModeOp::Insert.target(), Some(Mode::insert()));
    assert_eq!(ModeOp::Edit.target(), Some(Mode::edit()));
    assert_eq!(ModeOp::Overview.target(), Some(Mode::overview()));
    assert_eq!(ModeOp::Command.target(), Some(Mode::command()));
    assert_eq!(ModeOp::ToggleInsert.target(), None);
    assert_eq!(ModeOp::default(), ModeOp::Insert);
}

#[test]
fn switch_effects_for_every_pair_of_modes() {
    let save = Effect::SaveCursor;
    let restore = Effect::RestoreCursor;
    let line = Effect::SetCursorShape(CursorShape::Line);
    let block = Effect::SetCursorShape(CursorShape::Block);
    let status = Effect::MoveToStatusRow;
    let cases: Vec<(Mode, Mode, Vec<Effect>)> = vec![
        (Mode::insert(), Mode::edit(), vec![save, block, restore]),
        (Mode::insert(), Mode::command(), vec![save, status, line]),
        (Mode::insert(), Mode::overview(), vec![save, block]),
        (Mode::edit(), Mode::insert(), vec![save, restore, line]),
        (Mode::edit(), Mode::command(), vec![save, status, line]),
        (Mode::edit(), Mode::overview(), vec![save, block]),
        (Mode::command(), Mode::insert(), vec![restore, line]),
        (Mode::command(), Mode::edit(), vec![block, restore]),
        (Mode::command(), Mode::overview(), vec![block]),
        (Mode::overview(), Mode::insert(), vec![restore, line]),
        (Mode::overview(), Mode::edit(), vec![block, restore]),
        (Mode::overview(), Mode::command(), vec![status, line]),
    ];
    for (from, to, expected) in cases {
        let mut lx = Lx::new();
        lx.mode_switch(from);
        let shown = to.to_string();
        let effects = lx.mode_switch(to);
        assert_eq!(effects, expected);
        assert_eq!(lx.mode().to_string(), shown);
    }
}

#[test]
fn switch_to_the_active_mode_does_nothing() {
    let mut lx = Lx::new();
    assert_eq!(lx.mode_switch(Mode::insert()), vec![]);
    lx.mode_switch(Mode::command());
    lx.write_cmd_char('w');
    assert_eq!(lx.mode_switch(Mode::command()), vec![]);
    assert_eq!(*lx.mode(), Mode::Command(CommandMode { command_buf: "w".to_string() }));
    assert_eq!(lx.match_key_event(KeyEvent::ctrl('x'), 0), vec![]);
    assert_eq!(*lx.mode(), Mode::Command(CommandMode { command_buf: "w".to_string() }));
}

#[test]
fn mode_keys_drive_the_editor_through_the_modes() {
    let mut lx = Lx::new();
    lx.match_key_event(plain(KeyCode::Esc), 0);
    assert_eq!(*lx.mode(), Mode::edit());
    lx.match_key_event(plain(KeyCode::Esc), 1);
    assert_eq!(*lx.mode(), Mode::overview());
    lx.match_key_event(plain(KeyCode::Esc), 2);
    assert_eq!(*lx.mode(), Mode::overview());
    lx.match_key_event(plain(KeyCode::Enter), 3);
    assert_eq!(*lx.mode(), Mode::edit());
    lx.match_key_event(plain(KeyCode::Enter), 4);
    assert_eq!(*lx.mode(), Mode::insert());
    lx.match_key_event(KeyEvent::ctrl('x'), 5);
    assert_eq!(*lx.mode(), Mode::command());
    lx.match_key_event(KeyEvent::ctrl('z'), 6);
    assert_eq!(*lx.mode(), Mode::overview());
    lx.match_key_event(KeyEvent::ctrl('v'), 7);
    assert_eq!(*lx.mode(), Mode::insert());
    lx.match_key_event(KeyEvent::ctrl('c'), 8);
    assert_eq!(*lx.mode(), Mode::edit());
}

#[test]
fn dispatch_asks_for_a_mode_switch_and_leaves_the_mode_to_the_executor() {
    let mut lx = Lx::new();
    let op = lx.dispatch(plain(KeyCode::Esc), 0);
    assert_eq!(op, Some(Operation::Mode(ModeOp::Edit)));
    assert_eq!(*lx.mode(), Mode::insert());
    lx.execute(Operation::Mode(ModeOp::Edit));
    assert_eq!(*lx.mode(), Mode::edit());
}

#[test]
fn toggle_request_leaves_the_mode_as_it_is() {
    let mut lx = Lx::new();
    assert_eq!(lx.execute(Operation::Mode(ModeOp::ToggleInsert)), vec![]);
    assert_eq!(*lx.mode(), Mode::insert());
}

#[test]
fn overview_mode_binds_no_key_of_its_own() {
    let mut lx = Lx::new();
    lx.mode_switch(Mode::overview());
    for k in [
        KeyEvent::ctrl('q'),
        plain(KeyCode::Char('q')),
        plain(KeyCode::Char('c')),
        plain(KeyCode::Char('a')),
        plain(KeyCode::Backspace),
        plain(KeyCode::Down),
        KeyEvent::new(KeyCode::Char('h'), KeyModifiers::shift()),
    ] {
        assert_eq!(Lx::match_overview_key_event(k), None);
        assert_eq!(lx.match_key_event(k, 1), vec![]);
        assert_eq!(*lx.mode(), Mode::overview());
        assert!(!lx.quit());
        assert_eq!(lx.buffers().len(), 1);
    }
}
