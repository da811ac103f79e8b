use lx::text::{reads_as, remove_tail};
use lx::{Buffer, BufferRegistry, CursorDirection, Direction, Lx, Position};

#[test]
fn registry_starts_with_one_empty_active_buffer() {
    let r = BufferRegistry::new();
    assert_eq!(r.len(), 1);
    assert_eq!(r.active(), 0);
    assert_eq!(r.active_text(), "");
    assert_eq!(r.active_cursor(), Position { col: 0, row: 0 });
    assert_eq!(r.get(0), Some(&Buffer::new()));
    assert_eq!(r.get(1), None);
    assert!(r.well_formed());
}

#[test]
fn create_appends_and_activates() {
    let mut r = BufferRegistry::new();
    r.insert_char('a');
    r.create();
    assert_eq!(r.len(), 2);
    assert_eq!(r.active(), 1);
    assert_eq!(r.active_text(), "");
    r.insert_char('b');
    r.create();
    assert_eq!(r.len(), 3);
    assert_eq!(r.active(), 2);
    assert_eq!(r.get(0).map(|b| b.text.as_str()), Some("a"));
    assert_eq!(r.get(1).map(|b| b.text.as_str()), Some("b"));
    assert_eq!(r.get(2).map(|b| b.text.as_str()), Some(""));
    assert!(r.well_formed());
}

fn three_buffers() -> BufferRegistry {
    let mut r = BufferRegistry::new();
    r.insert_char('0');
    r.create();
    r.insert_char('1');
    r.create();
    r.insert_char('2');
    r
}

#[test]
fn close_removes_the_active_buffer_and_activates_its_predecessor() {
    let mut r = three_buffers();
    assert!(!r.close());
    assert_eq!(r.len(), 2);
    assert_eq!(r.active(), 1);
    assert_eq!(r.active_text(), "1");
    let mut r = three_buffers();
    r.switch_to(1);
    assert!(!r.close());
    assert_eq!(r.len(), 2);
    assert_eq!(r.active(), 0);
    assert_eq!(r.get(0).map(|b| b.text.as_str()), Some("0"));
    assert_eq!(r.get(1).map(|b| b.text.as_str()), Some("2"));
}

#[test]
fn closing_the_first_buffer_keeps_index_zero_active() {
    let mut r = three_buffers();
    r.switch_to(0);
    assert!(!r.close());
    assert_eq!(r.len(), 2);
    assert_eq!(r.active(), 0);
    assert_eq!(r.active_text(), "1");
    assert!(r.well_formed());
}

#[test]
fn the_last_buffer_is_not_removed() {
    let mut r = BufferRegistry::new();
    r.insert_char('k');
    assert!(r.close());
    assert_eq!(r.len(), 1);
    assert_eq!(r.active(), 0);
    assert_eq!(r.active_text(), "k");
    assert!(r.close());
    assert_eq!(r.len(), 1);
    assert!(r.well_formed());
}

#[test]
fn switch_to_an_index_that_is_not_there_changes_nothing() {
    let mut r = three_buffers();
    r.switch_to(0);
    assert_eq!(r.active(), 0);
    r.switch_to(3);
    assert_eq!(r.active(), 0);
    r.switch_to(usize::MAX);
    assert_eq!(r.active(), 0);
    r.switch_to(2);
    assert_eq!(r.active(), 2);
    let mut lx = Lx::new();
    lx.switch_buf(1);
    assert_eq!(lx.buffers().active(), 0);
    lx.create_buf();
    lx.switch_buf(0);
    assert_eq!(lx.buffers().active(), 0);
    lx.switch_buf(1);
    assert_eq!(lx.buffers().active(), 1);
}

#[test]
fn editing_goes_to_the_active_buffer_alone() {
    let mut r = three_buffers();
    r.switch_to(1);
    r.insert_char('x');
    r.insert_char('y');
    r.backspace(1);
    r.move_cursor(CursorDirection::Right, 3);
    assert_eq!(r.get(0), Some(&Buffer { text: "0".into(), cursor: Position { col: 0, row: 0 } }));
    assert_eq!(r.get(1), Some(&Buffer { text: "1x".into(), cursor: Position { col: 3, row: 0 } }));
    assert_eq!(r.get(2), Some(&Buffer { text: "2".into(), cursor: Position { col: 0, row: 0 } }));
}

#[test]
fn editor_buffer_functions() {
    let mut lx = Lx::new();
    lx.write_char('h');
    lx.write_char('i');
    assert_eq!(lx.buffers().active_text(), "hi");
    lx.create_buf();
    assert_eq!(lx.buffers().len(), 2);
    assert_eq!(lx.buffers().active(), 1);
    lx.close_buf();
    assert_eq!(lx.buffers().len(), 1);
    assert_eq!(lx.buffers().active_text(), "hi");
    assert!(!lx.quit());
    lx.close_buf();
    assert_eq!(lx.buffers().len(), 1);
    assert!(lx.quit());
    assert!(lx.well_formed());
}

#[test]
fn position_steps_stop_at_the_edges() {
    let p = Position { col: 2, row: 3 };
    assert_eq!(p.step(CursorDirection::Left, 1), Position { col: 1, row: 3 });
    assert_eq!(p.step(CursorDirection::Left, 2), Position { col: 0, row: 3 });
    assert_eq!(p.step(CursorDirection::Left, 3), Position { col: 0, row: 3 });
    assert_eq!(p.step(CursorDirection::Right, 10), Position { col: 12, row: 3 });
    assert_eq!(p.step(CursorDirection::Right, 65535), Position { col: 65535, row: 3 });
    assert_eq!(p.step(CursorDirection::Up, 3), Position { col: 2, row: 0 });
    assert_eq!(p.step(CursorDirection::Up, 4), Position { col: 2, row: 0 });
    assert_eq!(p.step(CursorDirection::Down, 1), Position { col: 2, row: 4 });
    assert_eq!(p.step(CursorDirection::Down, 65533), Position { col: 2, row: 65535 });
    assert_eq!(p.line(Direction::Next, 2), Position { col: 0, row: 5 });
    assert_eq!(p.line(Direction::Prev, 2), Position { col: 0, row: 1 });
    assert_eq!(p.line(Direction::Prev, 9), Position { col: 0, row: 0 });
    assert_eq!(p.line(Direction::Next, 65535), Position { col: 0, row: 65535 });
}

#[test]
fn clamp_to_sixteen_bits() {
    assert_eq!(lx::buffer::clamp16(0), 0);
    assert_eq!(lx::buffer::clamp16(65535), 65535);
    assert_eq!(lx::buffer::clamp16(65536), 65535);
    assert_eq!(lx::buffer::clamp16(usize::MAX), 65535);
}

#[test]
fn remove_tail_takes_characters_not_bytes() {
    let mut s = "über-straße".to_string();
    remove_tail(&mut s, 3);
    assert_eq!(s, "über-str");
    remove_tail(&mut s, 0);
    assert_eq!(s, "über-str");
    remove_tail(&mut s, 7);
    assert_eq!(s, "ü");
    remove_tail(&mut s, 2);
    assert_eq!(s, "");
    remove_tail(&mut s, usize::MAX);
    assert_eq!(s, "");
}

#[test]
fn reads_as_compares_whole_strings() {
    assert!(reads_as(&"quit".to_string(), "quit"));
    assert!(!reads_as(&"quit".to_string(), "qui"));
    assert!(!reads_as(&"qui".to_string(), "quit"));
    assert!(!reads_as(&"Quit".to_string(), "quit"));
    assert!(reads_as(&String::new(), ""));
}
