use lx::{
    CommandOp, CursorDirection, Direction, EditOp, Effect, GlobalOp, InsertOp, KeyCode, KeyEvent,
    KeyModifiers, Lx, Mode, Operation, Position, Prefix, Resolution, PAGE_SCROLL_LINES,
};

fn plain(code: KeyCode) -> KeyEvent {
    KeyEvent::plain(code)
}

fn key(c: char) -> KeyEvent {
    KeyEvent::plain(KeyCode::Char(c))
}

fn step(dir: CursorDirection) -> Option<Operation> {
    Some(Operation::MoveCursor(dir, 1))
}

#[test]
fn insert_mode_bindings() {
    assert_eq!(
        Lx::match_insert_key_event(key('a')),
        Some(Operation::Insert(InsertOp::InsertChar('a')))
    );
    assert_eq!(
        Lx::match_insert_key_event(key(' ')),
        Some(Operation::Insert(InsertOp::InsertChar(' ')))
    );
    assert_eq!(
        Lx::match_insert_key_event(plain(KeyCode::Backspace)),
        Some(Operation::Insert(InsertOp::Backspace(1)))
    );
    assert_eq!(
        Lx::match_insert_key_event(plain(KeyCode::PageUp)),
        Some(Operation::ScrollUp(3))
    );
    assert_eq!(
        Lx::match_insert_key_event(plain(KeyCode::PageDown)),
        Some(Operation::ScrollDown(3))
    );
    assert_eq!(PAGE_SCROLL_LINES, 3);
    assert_eq!(Lx::match_insert_key_event(KeyEvent::ctrl('q')), Some(Operation::Quit));
    assert_eq!(Lx::match_insert_key_event(KeyEvent::ctrl('h')), step(CursorDirection::Left));
    assert_eq!(Lx::match_insert_key_event(KeyEvent::ctrl('x')), None);
    assert_eq!(Lx::match_insert_key_event(plain(KeyCode::Enter)), None);
    assert_eq!(Lx::match_insert_key_event(plain(KeyCode::Esc)), None);
    assert_eq!(Lx::match_insert_key_event(plain(KeyCode::Left)), None);
    assert_eq!(
        Lx::match_insert_key_event(KeyEvent::new(KeyCode::Char('a'), KeyModifiers::alt())),
        None
    );
    assert_eq!(
        Lx::match_insert_key_event(KeyEvent::new(KeyCode::Char('A'), KeyModifiers::shift())),
        None
    );
    assert_eq!(
        Lx::match_insert_key_event(KeyEvent::new(KeyCode::Backspace, KeyModifiers::shift())),
        None
    );
    assert_eq!(
        Lx::match_insert_key_event(KeyEvent::new(
            KeyCode::Char('q'),
            KeyModifiers::control().union(KeyModifiers::shift())
        )),
        None
    );
}

#[test]
fn control_key_bindings_of_insert_and_command_mode() {
    assert_eq!(Lx::match_insert_ctrl(KeyCode::Char('h')), step(CursorDirection::Left));
    assert_eq!(Lx::match_insert_ctrl(KeyCode::Char('j')), step(CursorDirection::Down));
    assert_eq!(Lx::match_insert_ctrl(KeyCode::Char('k')), step(CursorDirection::Up));
    assert_eq!(Lx::match_insert_ctrl(KeyCode::Char('l')), step(CursorDirection::Right));
    assert_eq!(Lx::match_insert_ctrl(KeyCode::Char('q')), Some(Operation::Quit));
    assert_eq!(Lx::match_insert_ctrl(KeyCode::Char('a')), None);
    assert_eq!(Lx::match_insert_ctrl(KeyCode::Left), None);
}

#[test]
fn command_mode_bindings() {
    assert_eq!(
        Lx::match_command_key_event(plain(KeyCode::Enter)),
        Some(Operation::Command(CommandOp::Enter))
    );
    assert_eq!(
        Lx::match_command_key_event(key('w')),
        Some(Operation::Command(CommandOp::InsertChar('w')))
    );
    assert_eq!(
        Lx::match_command_key_event(plain(KeyCode::Backspace)),
        Some(Operation::Command(CommandOp::Backspace(1)))
    );
    assert_eq!(Lx::match_command_key_event(KeyEvent::ctrl('q')), Some(Operation::Quit));
    assert_eq!(Lx::match_command_key_event(KeyEvent::ctrl('k')), step(CursorDirection::Up));
    assert_eq!(Lx::match_command_key_event(KeyEvent::ctrl('b')), None);
    assert_eq!(Lx::match_command_key_event(plain(KeyCode::Tab)), None);
    assert_eq!(
        Lx::match_command_key_event(KeyEvent::new(KeyCode::Enter, KeyModifiers::alt())),
        None
    );
    assert_eq!(
        Lx::match_command_key_event(KeyEvent::new(KeyCode::Char('w'), KeyModifiers::alt())),
        None
    );
}

#[test]
fn edit_mode_bindings() {
    assert_eq!(Lx::match_edit_key_event(key('q')), Some(Operation::CloseBuffer));
    assert_eq!(Lx::match_edit_key_event(key('c')), Some(Operation::Global(GlobalOp::NewBuffer)));
    assert_eq!(
        Lx::match_edit_key_event(key('n')),
        Some(Operation::Edit(EditOp::MoveLine(Direction::Next, 1)))
    );
    assert_eq!(
        Lx::match_edit_key_event(key('p')),
        Some(Operation::Edit(EditOp::MoveLine(Direction::Prev, 1)))
    );
    assert_eq!(Lx::match_edit_key_event(key('h')), step(CursorDirection::Left));
    assert_eq!(Lx::match_edit_key_event(key('j')), step(CursorDirection::Down));
    assert_eq!(Lx::match_edit_key_event(key('k')), step(CursorDirection::Up));
    assert_eq!(Lx::match_edit_key_event(key('l')), step(CursorDirection::Right));
    assert_eq!(Lx::match_edit_key_event(plain(KeyCode::Left)), step(CursorDirection::Left));
    assert_eq!(Lx::match_edit_key_event(plain(KeyCode::Down)), step(CursorDirection::Down));
    assert_eq!(Lx::match_edit_key_event(plain(KeyCode::Up)), step(CursorDirection::Up));
    assert_eq!(Lx::match_edit_key_event(plain(KeyCode::Right)), step(CursorDirection::Right));
    assert_eq!(Lx::match_edit_key_event(plain(KeyCode::PageUp)), Some(Operation::ScrollUp(3)));
    assert_eq!(
        Lx::match_edit_key_event(plain(KeyCode::PageDown)),
        Some(Operation::ScrollDown(3))
    );
    assert_eq!(Lx::match_edit_key_event(KeyEvent::ctrl('q')), Some(Operation::Quit));
    assert_eq!(Lx::match_edit_key_event(KeyEvent::ctrl('h')), None);
    assert_eq!(Lx::match_edit_key_event(key('a')), None);
    assert_eq!(Lx::match_edit_key_event(plain(KeyCode::Backspace)), None);
    assert_eq!(
        Lx::match_edit_key_event(KeyEvent::new(KeyCode::Char('q'), KeyModifiers::alt())),
        None
    );
    assert_eq!(
        Lx::match_edit_key_event(KeyEvent::new(KeyCode::Char('c'), KeyModifiers::shift())),
        None
    );
}

#[test]
fn leader_bindings() {
    assert_eq!(
        Lx::match_leader_event(key('1')),
        Resolution::Resolved(Operation::SwitchBuffer(0))
    );
    assert_eq!(
        Lx::match_leader_event(key('2')),
        Resolution::Resolved(Operation::SwitchBuffer(1))
    );
    assert_eq!(
        Lx::match_leader_event(key('9')),
        Resolution::Resolved(Operation::SwitchBuffer(8))
    );
    assert_eq!(Lx::match_leader_event(key('0')), Resolution::Dropped);
    assert_eq!(Lx::match_leader_event(key('b')), Resolution::Rearmed(Prefix::buffer()));
    assert_eq!(Lx::match_leader_event(key('f')), Resolution::Rearmed(Prefix::find()));
    assert_eq!(Lx::match_leader_event(key('w')), Resolution::Rearmed(Prefix::window()));
    assert_eq!(Lx::match_leader_event(key('/')), Resolution::Rearmed(Prefix::search()));
    assert_eq!(Lx::match_leader_event(key('t')), Resolution::Rearmed(Prefix::tab()));
    assert_eq!(Lx::match_leader_event(key('m')), Resolution::Dropped);
    assert_eq!(Lx::match_leader_event(key('B')), Resolution::Dropped);
    assert_eq!(Lx::match_leader_event(plain(KeyCode::Enter)), Resolution::Dropped);
    assert_eq!(Lx::match_leader_event(plain(KeyCode::Esc)), Resolution::Dropped);
    assert_eq!(
        Lx::match_leader_event(KeyEvent::ctrl('b')),
        Resolution::Rearmed(Prefix::buffer())
    );
    assert_eq!(
        Lx::match_leader_event(KeyEvent::new(KeyCode::Char('3'), KeyModifiers::alt())),
        Resolution::Resolved(Operation::SwitchBuffer(2))
    );
}

#[test]
fn only_the_leader_has_keys_that_complete_it() {
    assert_eq!(
        Lx::match_prefix_key_event(Prefix::leader(), key('4')),
        Resolution::Resolved(Operation::SwitchBuffer(3))
    );
    for p in [
        Prefix::buffer(),
        Prefix::tab(),
        Prefix::find(),
        Prefix::window(),
        Prefix::motion(),
        Prefix::search(),
    ] {
        assert_eq!(Lx::match_prefix_key_event(p, key('4')), Resolution::Dropped);
        assert_eq!(Lx::match_prefix_key_event(p, key('b')), Resolution::Dropped);
        assert_eq!(Lx::match_prefix_key_event(p, plain(KeyCode::Esc)), Resolution::Dropped);
    }
}

#[test]
fn cursor_operations_move_the_cursor_of_the_active_buffer() {
    let mut lx = Lx::new();
    let effects = lx.execute(Operation::MoveCursor(CursorDirection::Right, 4));
    assert_eq!(effects, vec![Effect::MoveCursor(CursorDirection::Right, 4)]);
    lx.execute(Operation::MoveCursor(CursorDirection::Down, 2));
    assert_eq!(lx.buffers().active_cursor(), Position { col: 4, row: 2 });
    lx.execute(Operation::MoveCursor(CursorDirection::Left, 1));
    lx.execute(Operation::MoveCursor(CursorDirection::Up, 5));
    assert_eq!(lx.buffers().active_cursor(), Position { col: 3, row: 0 });
    let effects = lx.execute(Operation::Edit(EditOp::MoveLine(Direction::Next, 2)));
    assert_eq!(effects, vec![Effect::MoveToNextLine(2)]);
    assert_eq!(lx.buffers().active_cursor(), Position { col: 0, row: 2 });
    lx.execute(Operation::MoveCursor(CursorDirection::Right, 7));
    let effects = lx.execute(Operation::Edit(EditOp::MoveLine(Direction::Prev, 1)));
    assert_eq!(effects, vec![Effect::MoveToPreviousLine(1)]);
    assert_eq!(lx.buffers().active_cursor(), Position { col: 0, row: 1 });
    let effects = lx.execute(Operation::Edit(EditOp::MoveLine(Direction::Next, 70000)));
    assert_eq!(effects, vec![Effect::MoveToNextLine(65535)]);
    assert_eq!(lx.buffers().active_cursor(), Position { col: 0, row: 65535 });
}

#[test]
fn scrolling_is_left_to_the_host() {
    let mut lx = Lx::new();
    lx.write_char('a');
    let before = lx.snapshot();
    assert_eq!(lx.execute(Operation::ScrollUp(3)), vec![Effect::ScrollUp(3)]);
    assert_eq!(lx.execute(Operation::ScrollDown(3)), vec![Effect::ScrollDown(3)]);
    assert_eq!(lx.snapshot(), before);
    assert_eq!(lx.buffers().active_cursor(), Position { col: 0, row: 0 });
}

#[test]
fn backspace_operation_removes_from_the_end_and_steps_left() {
    let mut lx = Lx::new();
    for c in "hello".chars() {
        lx.write_char(c);
    }
    lx.execute(Operation::MoveCursor(CursorDirection::Right, 5));
    let effects = lx.execute(Operation::Insert(InsertOp::Backspace(2)));
    assert_eq!(effects, vec![Effect::MoveCursor(CursorDirection::Left, 2)]);
    assert_eq!(lx.buffers().active_text(), "hel");
    assert_eq!(lx.buffers().active_cursor(), Position { col: 3, row: 0 });
    lx.execute(Operation::Insert(InsertOp::Backspace(0)));
    assert_eq!(lx.buffers().active_text(), "hel");
    lx.execute(Operation::Insert(InsertOp::Backspace(10)));
    assert_eq!(lx.buffers().active_text(), "");
    assert_eq!(lx.buffers().active_cursor(), Position { col: 0, row: 0 });
}

#[test]
fn operations_without_a_meaning_here_change_nothing() {
    let mut lx = Lx::new();
    lx.write_char('a');
    let before = lx.snapshot();
    let ops = vec![
        Operation::Insert(InsertOp::Delete(1)),
        Operation::Insert(InsertOp::Return(1)),
        Operation::Insert(InsertOp::Nothing),
        Operation::Edit(EditOp::CutLine),
        Operation::Edit(EditOp::InsertChar('x')),
        Operation::Edit(EditOp::Backspace(1)),
        Operation::Edit(EditOp::Nothing),
        Operation::Global(GlobalOp::Nothing),
        Operation::Global(GlobalOp::InsertChar('x')),
        Operation::Global(GlobalOp::OpenFile(std::path::PathBuf::from("notes.txt"))),
        Operation::Global(GlobalOp::Find(lx::FindTarget::Buffers)),
        Operation::Motion(lx::MotionOp::SkipWord(Direction::Next, 1)),
        Operation::Search(lx::SearchOp::SearchInBuffer(Direction::Prev, "a".to_string())),
        Operation::default(),
    ];
    for op in ops {
        assert_eq!(lx.execute(op), vec![]);
        assert_eq!(lx.snapshot(), before);
        assert_eq!(*lx.mode(), Mode::insert());
    }
}

#[test]
fn operation_defaults() {
    assert_eq!(EditOp::default(), EditOp::Nothing);
    assert_eq!(CommandOp::default(), CommandOp::Nothing);
    assert_eq!(GlobalOp::default(), GlobalOp::Nothing);
    assert_eq!(InsertOp::default(), InsertOp::Nothing);
    assert_eq!(lx::SearchOp::default(), lx::SearchOp::Nothing);
    assert_eq!(lx::MotionOp::default(), lx::MotionOp::Nothing);
    assert_eq!(Operation::default(), Operation::Global(GlobalOp::Nothing));
}
