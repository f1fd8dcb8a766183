use redo::cursor::Cursor;
use redo::event::{Event, EventHandler, KeyCode, KeyEvent, KeyEventKind, ALT, CONTROL, SHIFT};
use redo::parser::load;
use redo::todo::{Todo, TodoList, TodoListCollection, TodoStatus};
use redo::tui::{Interface, InterfaceState, PopupState, ScreenState};
use redo::viewport::Viewport;

fn collection(lists: &[(&str, &[(&str, bool)])]) -> TodoListCollection {
    let mut collection = TodoListCollection::default();
    for (title, items) in lists {
        let mut list = TodoList::empty(title.to_string());
        for (text, done) in items.iter() {
            list.push_todo(Todo { data: text.to_string(), status: TodoStatus::from(*done) });
        }
        collection.push(list);
    }
    collection
}

fn interface(lists: &[(&str, &[(&str, bool)])]) -> Interface {
    Interface::new(collection(lists), Viewport::new(24, 80))
}

fn press(interface: &mut Interface, code: KeyCode) {
    assert!(interface.handle_event(&Event::key(code), ()).is_none());
}

fn type_text(interface: &mut Interface, text: &str) {
    for c in text.chars() {
        press(interface, KeyCode::Char(c));
    }
}

fn titles(interface: &Interface) -> Vec<String> {
    interface.collection.lists.iter().map(|list| list.title.clone()).collect()
}

/// What must hold of the screen after every event.
fn check(interface: &Interface) {
    let count = interface.collection.lists.len();
    assert_eq!(interface.selection_bar.names, titles(interface));
    assert_eq!(interface.selected_list, interface.selection_bar.cursor.y as usize);
    assert!(interface.selected_list < count || (count == 0 && interface.selected_list == 0));
    if interface.screen_state == ScreenState::Editor {
        assert!(count > 0);
        assert!(!interface.selection_bar.popup_mode);
        let entries = interface.collection.lists[interface.selected_list].len();
        assert!(interface.editor.cursor.y as usize <= entries.saturating_sub(1));
    } else {
        assert!(!interface.editor.popup_mode);
        assert_eq!(interface.editor.cursor.y, 0);
    }
    assert_eq!(interface.help_screen.active, interface.screen_state == ScreenState::Help);
    let expected: Vec<PopupState> = if interface.selection_bar.popup_mode {
        vec![PopupState::Selection]
    } else if interface.editor.popup_mode {
        vec![PopupState::Editor]
    } else {
        vec![]
    };
    assert_eq!(interface.popups, expected);
}

#[test]
fn a_new_screen_starts_in_the_selection_pane() {
    let interface = interface(&[("[a]", &[]), ("[b]", &[("x", true)])]);
    check(&interface);
    assert_eq!(interface.screen_state, ScreenState::Selection);
    assert_eq!(interface.selected_list, 0);
    assert_eq!(interface.selection_bar.cursor, Cursor::new(0, 0));
    assert_eq!(interface.editor.cursor, Cursor::new(0, 0));
    assert_eq!(interface.selection_bar.viewport, Viewport::new(24, 80));
    assert_eq!(interface.editor.viewport, Viewport::new(24, 80));
    assert_eq!(*interface.get_editor_viewport(), Viewport::new(24, 80));
    assert_eq!(interface.collection_names(), vec!["[a]".to_string(), "[b]".to_string()]);
    assert!(interface.top_popup().is_none());
    let fresh = Interface::default();
    check(&fresh);
    assert!(fresh.collection.is_empty());
    assert_eq!(*fresh.get_editor_viewport(), Viewport::new(0, 0));
}

#[test]
fn an_empty_file_then_a_new_list() {
    let mut interface = Interface::new(load(""), Viewport::new(24, 80));
    assert_eq!(interface.collection.lists.len(), 0);
    press(&mut interface, KeyCode::Enter);
    assert_eq!(interface.top_popup(), Some(PopupState::Selection));
    check(&interface);
    type_text(&mut interface, "Groceries");
    check(&interface);
    press(&mut interface, KeyCode::Enter);
    check(&interface);
    assert_eq!(interface.collection.lists.len(), 1);
    assert_eq!(interface.collection.lists[0].title, "[Groceries]");
    assert_eq!(interface.collection.lists[0].data.len(), 0);
    assert!(interface.top_popup().is_none());
    assert_eq!(interface.screen_state, ScreenState::Selection);
    assert_eq!(interface.collection.serialize(), "[Groceries]:\n");
}

#[test]
fn removing_the_only_entry_goes_back_to_the_selection_pane() {
    let mut interface = interface(&[("[one]", &[("only", false)])]);
    press(&mut interface, KeyCode::Char(' '));
    assert_eq!(interface.screen_state, ScreenState::Editor);
    check(&interface);
    press(&mut interface, KeyCode::Char('x'));
    check(&interface);
    assert_eq!(interface.collection.lists[0].data.len(), 0);
    assert_eq!(interface.screen_state, ScreenState::Selection);
    assert_eq!(interface.collection.lists.len(), 1);
}

#[test]
fn removing_an_entry_shifts_the_entries_behind_it() {
    let mut interface = interface(&[("[l]", &[("a", false), ("b", true), ("c", false)])]);
    press(&mut interface, KeyCode::Char(' '));
    press(&mut interface, KeyCode::Down);
    press(&mut interface, KeyCode::Char('x'));
    check(&interface);
    assert_eq!(interface.screen_state, ScreenState::Editor);
    let left: Vec<&str> = interface.collection.lists[0].data.iter().map(|t| t.data.as_str()).collect();
    assert_eq!(left, vec!["a", "c"]);
    assert_eq!(interface.editor.cursor, Cursor::new(0, 1));
    press(&mut interface, KeyCode::Char('x'));
    assert_eq!(interface.editor.cursor, Cursor::new(0, 0));
    assert_eq!(interface.collection.lists[0].data.len(), 1);
    assert_eq!(interface.collection.lists[0].data[0].data, "a");
    assert_eq!(interface.screen_state, ScreenState::Editor);
}

#[test]
fn x_removes_a_list_and_shifts_the_lists_behind_it() {
    let mut interface = interface(&[("[a]", &[]), ("[b]", &[("kept", true)]), ("[c]", &[]), ("[d]", &[])]);
    press(&mut interface, KeyCode::Down);
    press(&mut interface, KeyCode::Char('x'));
    check(&interface);
    assert_eq!(titles(&interface), vec!["[a]", "[c]", "[d]"]);
    assert_eq!(interface.selected_list, 1);
    press(&mut interface, KeyCode::Down);
    press(&mut interface, KeyCode::Char('x'));
    check(&interface);
    assert_eq!(titles(&interface), vec!["[a]", "[c]"]);
    assert_eq!(interface.selected_list, 1);
    press(&mut interface, KeyCode::Char('x'));
    press(&mut interface, KeyCode::Char('x'));
    check(&interface);
    assert_eq!(interface.collection.lists.len(), 0);
    assert_eq!(interface.selected_list, 0);
}

#[test]
fn removing_from_an_empty_collection_changes_nothing() {
    let mut interface = interface(&[]);
    press(&mut interface, KeyCode::Char('x'));
    check(&interface);
    assert_eq!(interface.collection.lists.len(), 0);
    assert_eq!(interface.selected_list, 0);
    assert_eq!(interface.screen_state, ScreenState::Selection);
    press(&mut interface, KeyCode::Char(' '));
    assert_eq!(interface.screen_state, ScreenState::Selection);
}

#[test]
fn space_toggles_in_the_editor() {
    let mut interface = interface(&[("[l]", &[("x", false)])]);
    press(&mut interface, KeyCode::Char(' '));
    assert_eq!(interface.screen_state, ScreenState::Editor);
    press(&mut interface, KeyCode::Char(' '));
    assert_eq!(interface.collection.lists[0].data[0].status, TodoStatus::Complete);
    press(&mut interface, KeyCode::Char(' '));
    assert_eq!(interface.collection.lists[0].data[0].status, TodoStatus::Incomplete);
    check(&interface);
}

#[test]
fn adding_entries_moves_the_cursor_down() {
    let mut interface = interface(&[("[a]", &[]), ("[b]", &[])]);
    press(&mut interface, KeyCode::Down);
    press(&mut interface, KeyCode::Char(' '));
    assert_eq!(interface.screen_state, ScreenState::Editor);
    assert_eq!(interface.selected_list, 1);
    press(&mut interface, KeyCode::Enter);
    assert_eq!(interface.top_popup(), Some(PopupState::Editor));
    type_text(&mut interface, "first x");
    check(&interface);
    press(&mut interface, KeyCode::Enter);
    check(&interface);
    assert!(interface.top_popup().is_none());
    assert_eq!(interface.editor.cursor, Cursor::new(0, 0));
    press(&mut interface, KeyCode::Enter);
    type_text(&mut interface, "second");
    press(&mut interface, KeyCode::Enter);
    assert_eq!(interface.editor.cursor, Cursor::new(0, 1));
    let list = &interface.collection.lists[1];
    assert_eq!(list.data.len(), 2);
    assert_eq!(list.data[0].data, "first x");
    assert_eq!(list.data[0].status, TodoStatus::Incomplete);
    assert_eq!(list.data[1].data, "second");
    assert_eq!(interface.collection.lists[0].data.len(), 0);
    assert_eq!(interface.collection.serialize(), "[a]:\n[b]:\n[ ] first x\n[ ] second\n");
}

#[test]
fn esc_leaves_the_editor_only_where_the_list_has_entries() {
    let mut interface = interface(&[("[full]", &[("a", false)]), ("[empty]", &[])]);
    press(&mut interface, KeyCode::Char(' '));
    assert_eq!(interface.screen_state, ScreenState::Editor);
    press(&mut interface, KeyCode::Esc);
    assert_eq!(interface.screen_state, ScreenState::Selection);
    press(&mut interface, KeyCode::Down);
    press(&mut interface, KeyCode::Char(' '));
    assert_eq!(interface.screen_state, ScreenState::Editor);
    assert_eq!(interface.selected_list, 1);
    press(&mut interface, KeyCode::Esc);
    assert_eq!(interface.screen_state, ScreenState::Editor);
    press(&mut interface, KeyCode::Char('x'));
    assert_eq!(interface.screen_state, ScreenState::Editor);
    check(&interface);
    press(&mut interface, KeyCode::Enter);
    press(&mut interface, KeyCode::Enter);
    assert_eq!(interface.collection.lists[1].data.len(), 1);
    press(&mut interface, KeyCode::Esc);
    assert_eq!(interface.screen_state, ScreenState::Selection);
    check(&interface);
}

#[test]
fn esc_closes_a_popup_without_adding() {
    let mut interface = interface(&[("[a]", &[("x", false)])]);
    press(&mut interface, KeyCode::Enter);
    type_text(&mut interface, "nope");
    press(&mut interface, KeyCode::Esc);
    check(&interface);
    assert_eq!(interface.collection.lists.len(), 1);
    assert!(interface.top_popup().is_none());
    press(&mut interface, KeyCode::Char(' '));
    press(&mut interface, KeyCode::Enter);
    type_text(&mut interface, "nope");
    press(&mut interface, KeyCode::Esc);
    check(&interface);
    assert_eq!(interface.screen_state, ScreenState::Editor);
    assert_eq!(interface.collection.lists[0].data.len(), 1);
    assert!(interface.top_popup().is_none());
}

#[test]
fn the_help_overlay_opens_from_the_selection_pane_only() {
    let mut interface = interface(&[("[a]", &[("x", false)]), ("[b]", &[])]);
    press(&mut interface, KeyCode::Char('?'));
    assert_eq!(interface.screen_state, ScreenState::Help);
    assert!(interface.help_screen.active);
    check(&interface);
    for code in [KeyCode::Down, KeyCode::Char('x'), KeyCode::Char(' '), KeyCode::Enter, KeyCode::Other] {
        press(&mut interface, code);
        assert_eq!(interface.screen_state, ScreenState::Help);
    }
    assert_eq!(interface.collection.lists.len(), 2);
    assert_eq!(interface.selected_list, 0);
    assert!(interface.top_popup().is_none());
    press(&mut interface, KeyCode::Esc);
    assert_eq!(interface.screen_state, ScreenState::Selection);
    assert!(!interface.help_screen.active);
    press(&mut interface, KeyCode::Char('?'));
    press(&mut interface, KeyCode::Char('?'));
    assert_eq!(interface.screen_state, ScreenState::Selection);
    press(&mut interface, KeyCode::Char(' '));
    press(&mut interface, KeyCode::Char('?'));
    assert_eq!(interface.screen_state, ScreenState::Editor);
    assert!(!interface.help_screen.active);
    check(&interface);
}

#[test]
fn control_q_quits_from_every_pane() {
    let quit = Event::Key(KeyEvent::new(KeyCode::Char('q'), CONTROL));
    let mut interface = interface(&[("[a]", &[("x", false)])]);
    assert!(interface.should_quit(&quit));
    assert!(matches!(interface.handle_event(&quit, ()), Some(InterfaceState::Quit(Ok(())))));
    assert_eq!(interface.screen_state, ScreenState::Selection);
    press(&mut interface, KeyCode::Char('?'));
    assert!(matches!(interface.handle_event(&quit, ()), Some(InterfaceState::Quit(Ok(())))));
    press(&mut interface, KeyCode::Esc);
    press(&mut interface, KeyCode::Enter);
    assert!(matches!(interface.handle_event(&quit, ()), Some(InterfaceState::Quit(Ok(())))));
    assert_eq!(interface.selection_bar.buffer, "");
    press(&mut interface, KeyCode::Esc);
    press(&mut interface, KeyCode::Char(' '));
    assert!(matches!(interface.handle_event(&quit, ()), Some(InterfaceState::Quit(Ok(())))));
    assert_eq!(interface.collection.lists[0].data.len(), 1);
    check(&interface);
}

#[test]
fn other_chords_do_not_quit() {
    let mut interface = interface(&[]);
    let near = [
        KeyEvent::new(KeyCode::Char('q'), 0),
        KeyEvent::new(KeyCode::Char('q'), CONTROL | SHIFT),
        KeyEvent::new(KeyCode::Char('q'), CONTROL | ALT),
        KeyEvent::new(KeyCode::Char('Q'), CONTROL),
        KeyEvent::new(KeyCode::Char('w'), CONTROL),
        KeyEvent::new(KeyCode::Esc, CONTROL),
        KeyEvent { code: KeyCode::Char('q'), modifiers: CONTROL, kind: KeyEventKind::Release, state: 0 },
        KeyEvent { code: KeyCode::Char('q'), modifiers: CONTROL, kind: KeyEventKind::Repeat, state: 0 },
        KeyEvent { code: KeyCode::Char('q'), modifiers: CONTROL, kind: KeyEventKind::Press, state: 2 },
    ];
    for key in near {
        assert!(!interface.should_quit(&Event::Key(key)), "{:?}", key);
    }
    assert!(!interface.should_quit(&Event::Resize(1, 1)));
    assert!(!interface.should_quit(&Event::Other));
}

fn outside_code(code: KeyCode) -> crossterm::event::KeyCode {
    match code {
        KeyCode::Backspace => crossterm::event::KeyCode::Backspace,
        KeyCode::Enter => crossterm::event::KeyCode::Enter,
        KeyCode::Left => crossterm::event::KeyCode::Left,
        KeyCode::Right => crossterm::event::KeyCode::Right,
        KeyCode::Up => crossterm::event::KeyCode::Up,
        KeyCode::Down => crossterm::event::KeyCode::Down,
        KeyCode::Esc => crossterm::event::KeyCode::Esc,
        KeyCode::Char(c) => crossterm::event::KeyCode::Char(c),
        KeyCode::Other => crossterm::event::KeyCode::Null,
    }
}

#[test]
fn the_quit_chord_is_the_one_the_terminal_library_compares_equal() {
    let quit = crossterm::event::KeyEvent::new(
        crossterm::event::KeyCode::Char('q'),
        crossterm::event::KeyModifiers::CONTROL,
    );
    let kinds = [
        (KeyEventKind::Press, crossterm::event::KeyEventKind::Press),
        (KeyEventKind::Repeat, crossterm::event::KeyEventKind::Repeat),
        (KeyEventKind::Release, crossterm::event::KeyEventKind::Release),
    ];
    let codes = [
        KeyCode::Char('q'),
        KeyCode::Char('Q'),
        KeyCode::Char('a'),
        KeyCode::Char('1'),
        KeyCode::Esc,
        KeyCode::Enter,
        KeyCode::Other,
    ];
    let mut interface = interface(&[]);
    let mut quits = 0;
    for code in codes {
        for modifiers in 0..64u8 {
            for (kind, outside_kind) in kinds {
                for state in 0..8u8 {
                    let key = KeyEvent { code, modifiers, kind, state };
                    let outside = crossterm::event::KeyEvent::new_with_kind_and_state(
                        outside_code(code),
                        crossterm::event::KeyModifiers::from_bits_truncate(modifiers),
                        outside_kind,
                        crossterm::event::KeyEventState::from_bits_truncate(state),
                    );
                    let found = interface.should_quit(&Event::Key(key));
                    assert_eq!(found, outside == quit, "{:?}", key);
                    if found {
                        quits += 1;
                    }
                }
            }
        }
    }
    assert_eq!(quits, 1);
}

#[test]
fn a_resize_sets_the_size_and_nothing_else() {
    let mut interface = interface(&[("[a]", &[])]);
    assert!(interface.handle_event(&Event::Resize(120, 40), ()).is_none());
    assert_eq!(*interface.get_editor_viewport(), Viewport::new(40, 120));
    assert_eq!(interface.selection_bar.viewport, Viewport::new(24, 80));
    assert_eq!(interface.editor.viewport, Viewport::new(24, 80));
    check(&interface);
    interface.handle_resize(&Event::Resize(1, 2));
    assert_eq!(interface.screen_size.x(), 1);
    assert_eq!(interface.screen_size.y(), 2);
    interface.handle_resize(&Event::Other);
    assert_eq!(*interface.get_editor_viewport(), Viewport::new(2, 1));
}

#[test]
fn add_and_remove_by_hand() {
    let mut interface = interface(&[("[a]", &[]), ("[b]", &[])]);
    interface.add_todo("zero");
    interface.add_todo("one");
    assert_eq!(interface.collection.lists[0].data.len(), 2);
    assert_eq!(interface.collection.lists[0].data[1].data, "one");
    assert_eq!(interface.collection.lists[0].data[1].status, TodoStatus::Incomplete);
    interface.editor.cursor = Cursor::new(1, 0);
    interface.remove_todo();
    assert_eq!(interface.collection.lists[0].data.len(), 1);
    assert_eq!(interface.collection.lists[0].data[0].data, "zero");
    interface.remove_todo();
    assert_eq!(interface.collection.lists[0].data.len(), 1);
    assert_eq!(interface.collection.lists[1].data.len(), 0);
    let mut empty = Interface::default();
    empty.add_todo("lost");
    empty.remove_todo();
    assert!(empty.collection.is_empty());
}

#[test]
fn the_cursor_is_drawn_inside_the_border() {
    let mut interface = interface(&[("[a]", &[("abc", false), ("d", false)]), ("[b]", &[])]);
    assert_eq!(interface.cursor_position(16), Some((1, 1)));
    press(&mut interface, KeyCode::Down);
    assert_eq!(interface.cursor_position(16), Some((1, 2)));
    press(&mut interface, KeyCode::Up);
    press(&mut interface, KeyCode::Char(' '));
    assert_eq!(interface.cursor_position(16), Some((21, 1)));
    press(&mut interface, KeyCode::Right);
    press(&mut interface, KeyCode::Right);
    press(&mut interface, KeyCode::Down);
    assert_eq!(interface.cursor_position(16), Some((23, 2)));
    assert_eq!(interface.cursor_position(u16::MAX), Some((u16::MAX, 2)));
    press(&mut interface, KeyCode::Esc);
    press(&mut interface, KeyCode::Char('?'));
    assert_eq!(interface.cursor_position(16), None);
}

#[test]
fn the_selected_list_is_shown() {
    let mut interface = interface(&[("[a]", &[]), ("[b]", &[])]);
    assert_eq!(interface.shown_list().unwrap().title, "[a]");
    press(&mut interface, KeyCode::Down);
    assert_eq!(interface.shown_list().unwrap().title, "[b]");
    assert!(Interface::default().shown_list().is_none());
}

#[test]
fn change_state_sets_the_pane() {
    let mut interface = interface(&[("[a]", &[])]);
    interface.change_state(ScreenState::Editor);
    assert_eq!(interface.screen_state, ScreenState::Editor);
    assert_eq!(interface.collection.lists.len(), 1);
    assert_eq!(ScreenState::default(), ScreenState::Selection);
}

#[test]
fn a_long_session_keeps_the_screen_in_order() {
    let keys = [
        KeyCode::Up,
        KeyCode::Down,
        KeyCode::Left,
        KeyCode::Right,
        KeyCode::Enter,
        KeyCode::Esc,
        KeyCode::Backspace,
        KeyCode::Char(' '),
        KeyCode::Char('x'),
        KeyCode::Char('j'),
        KeyCode::Char('k'),
        KeyCode::Char('?'),
        KeyCode::Char('a'),
        KeyCode::Enter,
        KeyCode::Other,
    ];
    let mut interface = Interface::new(load("[a]:\n[x] one\n[ ] two\n[b]:\n"), Viewport::new(6, 40));
    let mut seed: u32 = 2024;
    for step in 0..20000 {
        seed = seed.wrapping_mul(1664525).wrapping_add(1013904223);
        let event = if step % 97 == 0 {
            Event::Resize((seed >> 8) as u16, (seed >> 16) as u16)
        } else {
            Event::key(keys[(seed >> 16) as usize % keys.len()])
        };
        assert!(interface.handle_event(&event, ()).is_none());
        check(&interface);
    }
    let text = interface.collection.serialize();
    let read = load(&text);
    assert_eq!(read.lists.len(), interface.collection.lists.len());
    for (a, b) in read.lists.iter().zip(interface.collection.lists.iter()) {
        assert_eq!(a.title, b.title);
        assert_eq!(a.data.len(), b.data.len());
        for (x, y) in a.data.iter().zip(b.data.iter()) {
            assert_eq!(x.data, y.data.trim());
            assert_eq!(x.status, y.status);
        }
    }
}
