//! The screen as a whole: which pane has the keys, which list is open, and
//! what each event does to the collection.

use vstd::prelude::*;
use crate::cursor::{clamped, last_row, last_row_of, step_back, step_forward, Cursor, CursorMovement};
use crate::editor::{Editor, EditorIntent, EditorState, EditorView};
use crate::event::{Event, EventHandler, KeyCode, KeyEvent, KeyEventKind, CONTROL};
use crate::selection::{name_views, SelectionBar, SelectionIntent, SelectionState, SelectionView};
use crate::todo::{titles, ListView, TodoList, TodoListCollection, TodoView};
use crate::viewport::Viewport;

verus! {

/// The pane that has the keys.
#[derive(Debug, Clone, Copy, PartialEq, Eq, Structural)]
pub enum ScreenState {
    Selection,
    Editor,
    Help,
}

/// The pane that a popup belongs to.
#[derive(Debug, Clone, Copy, PartialEq, Eq, Structural)]
pub enum PopupState {
    Editor,
    Selection,
}

/// The overlay that lists the keys.
#[derive(Debug, Clone, Copy, PartialEq, Eq, Structural)]
pub struct HelpScreen {
    pub active: bool,
}

/// What the screen asks of the program that runs it.
#[derive(Debug)]
pub enum InterfaceState {
    /// Stop, with a message where something went wrong.
    Quit(Result<(), String>),
}

#[derive(Debug)]
pub struct Interface {
    pub collection: TodoListCollection,
    /// The index of the list that is shown and, in the editor, open.
    pub selected_list: usize,
    pub screen_size: Viewport,
    pub selection_bar: SelectionBar,
    pub editor: Editor,
    pub screen_state: ScreenState,
    /// The open popups, the latest last.
    pub popups: Vec<PopupState>,
    pub help_screen: HelpScreen,
}

/// The screen as mathematics sees it.
pub struct InterfaceView {
    pub collection: Seq<ListView>,
    pub selected: usize,
    pub size: Viewport,
    pub selection: SelectionView,
    pub editor: EditorView,
    pub screen: ScreenState,
    pub popups: Seq<PopupState>,
    pub help: bool,
}

/// The key press that ends the program: `q` with the control key and nothing
/// else.
pub open spec fn quit_chord() -> Event {
    Event::Key(KeyEvent { code: KeyCode::Char('q'), modifiers: CONTROL, kind: KeyEventKind::Press, state: 0 })
}

/// `popups` without its latest entry.
pub open spec fn popped(popups: Seq<PopupState>) -> Seq<PopupState> {
    if popups.len() > 0 {
        popups.drop_last()
    } else {
        popups
    }
}

/// The popups that are open when the panes' flags are these.
pub open spec fn open_popups(selection: bool, editor: bool) -> Seq<PopupState> {
    if selection {
        seq![PopupState::Selection]
    } else if editor {
        seq![PopupState::Editor]
    } else {
        Seq::empty()
    }
}

/// The largest index into `count` things, zero where there is none.
pub open spec fn last_index(count: nat) -> usize {
    if count == 0 {
        0
    } else {
        (count - 1) as usize
    }
}

impl InterfaceView {
    /// What holds of the screen at every moment: the selection pane shows
    /// the titles of the collection, its cursor is on a list unless there is
    /// none, the selected list is the one under that cursor, the editor is
    /// open only where there is a list, its cursor is on an entry of that
    /// list unless there is none and at the top while the editor is closed,
    /// and at most one popup is open, in the pane that has the keys.
    pub open spec fn wf(self) -> bool {
        &&& self.selection.names == titles(self.collection)
        &&& self.selection.wf()
        &&& self.selected == self.selection.cursor.y
        &&& (self.screen == ScreenState::Editor ==> self.collection.len() > 0)
        &&& self.editor.cursor.y <= if self.screen == ScreenState::Editor {
            last_row(self.collection[self.selected as int].items.len())
        } else {
            0
        }
        &&& self.help == (self.screen == ScreenState::Help)
        &&& (self.selection.popup ==> self.screen != ScreenState::Editor)
        &&& (self.editor.popup ==> self.screen == ScreenState::Editor)
        &&& self.popups == open_popups(self.selection.popup, self.editor.popup)
    }

    /// A resize event sets the stored size; nothing else does.
    pub open spec fn resized(self, event: Event) -> InterfaceView {
        match event {
            Event::Resize(cols, rows) => InterfaceView { size: Viewport { x: cols, y: rows }, ..self },
            _ => self,
        }
    }

    /// The screen after what the selection pane asked has been done.
    pub open spec fn selection_applied(self, intent: Option<SelectionIntent>) -> InterfaceView {
        match intent {
            None => self,
            Some(SelectionIntent::DelPopup) => InterfaceView { popups: popped(self.popups), ..self },
            Some(SelectionIntent::Show(index)) => InterfaceView { selected: index, ..self },
            Some(SelectionIntent::AddPopup) => InterfaceView {
                popups: self.popups.push(PopupState::Selection),
                ..self
            },
            Some(SelectionIntent::Selected(index)) => InterfaceView {
                screen: ScreenState::Editor,
                selected: index,
                ..self
            },
            Some(SelectionIntent::AddTodo(title)) => {
                let collection = self.collection.push(ListView { title, items: Seq::empty() });
                InterfaceView {
                    collection,
                    selection: SelectionView { names: titles(collection), ..self.selection },
                    popups: popped(self.popups),
                    ..self
                }
            },
            Some(SelectionIntent::Remove(index)) => if index < self.collection.len() {
                let collection = self.collection.remove(index as int);
                InterfaceView {
                    collection,
                    selected: if self.selected < collection.len() {
                        self.selected
                    } else {
                        last_index(collection.len())
                    },
                    ..self
                }
            } else {
                self
            },
        }
    }

    /// The screen after the selection pane has had `event`.
    pub open spec fn selection_handled(self, event: Event) -> InterfaceView {
        let (pane, intent) = self.selection.handled(event);
        (InterfaceView { selection: pane, ..self }).selection_applied(intent)
    }

    /// The screen after what the editor asked has been done. Leaving needs an
    /// entry in the open list; removing the last entry leaves by itself.
    pub open spec fn editor_applied(self, intent: Option<EditorIntent>) -> InterfaceView
        recommends
            self.selected < self.collection.len(),
    {
        let list = self.collection[self.selected as int];
        match intent {
            None => self,
            Some(EditorIntent::Selected) | Some(EditorIntent::Leave) => if list.items.len() > 0 {
                InterfaceView { screen: ScreenState::Selection, ..self }
            } else {
                self
            },
            Some(EditorIntent::AddPopup) => InterfaceView {
                popups: self.popups.push(PopupState::Editor),
                ..self
            },
            Some(EditorIntent::DelPopup) => InterfaceView { popups: popped(self.popups), ..self },
            Some(EditorIntent::Add(text)) => {
                let longer = list.with(TodoView { text, done: false });
                InterfaceView {
                    collection: self.collection.update(self.selected as int, longer),
                    editor: EditorView {
                        cursor: Cursor {
                            y: if list.items.len() > 0 {
                                step_forward(self.editor.cursor.y, 1, last_row(longer.items.len()))
                            } else {
                                self.editor.cursor.y
                            },
                            x: self.editor.cursor.x,
                        },
                        ..self.editor
                    },
                    popups: popped(self.popups),
                    ..self
                }
            },
            Some(EditorIntent::Remove(index)) => if index < list.items.len() {
                let shorter = list.without(index as int);
                InterfaceView {
                    collection: self.collection.update(self.selected as int, shorter),
                    editor: EditorView {
                        cursor: Cursor {
                            y: if last_row(shorter.items.len()) < self.editor.cursor.y {
                                step_back(self.editor.cursor.y, 1)
                            } else {
                                self.editor.cursor.y
                            },
                            x: self.editor.cursor.x,
                        },
                        ..self.editor
                    },
                    screen: if shorter.items.len() == 0 {
                        ScreenState::Selection
                    } else {
                        self.screen
                    },
                    ..self
                }
            } else {
                self
            },
        }
    }

    /// The screen after the editor has had `event`. Without an open list the
    /// event is lost.
    pub open spec fn editor_handled(self, event: Event) -> InterfaceView {
        if self.selected < self.collection.len() {
            let (pane, list, intent) = self.editor.handled(event, self.collection[self.selected as int]);
            (InterfaceView {
                editor: pane,
                collection: self.collection.update(self.selected as int, list),
                ..self
            }).editor_applied(intent)
        } else {
            self
        }
    }

    /// The screen after `event`: first the size, then the quit chord, then
    /// the help overlay, then the pane that has the keys.
    pub open spec fn handled(self, event: Event) -> InterfaceView {
        let sized = self.resized(event);
        if event == quit_chord() {
            sized
        } else {
            match sized.screen {
                ScreenState::Selection => if event.code() == Some(KeyCode::Char('?')) {
                    InterfaceView { help: true, screen: ScreenState::Help, ..sized }
                } else {
                    sized.selection_handled(event)
                },
                ScreenState::Help => if event.code() == Some(KeyCode::Esc) || event.code() == Some(
                    KeyCode::Char('?'),
                ) {
                    InterfaceView { help: false, screen: ScreenState::Selection, ..sized }
                } else {
                    sized
                },
                ScreenState::Editor => sized.editor_handled(event),
            }
        }
    }
}

/// Removing one list changes no other title, and takes exactly one away.
proof fn titles_without(lists: Seq<ListView>, index: int)
    requires
        0 <= index < lists.len(),
    ensures
        titles(lists.remove(index)) == titles(lists).remove(index),
{
    assert(titles(lists.remove(index)) =~= titles(lists).remove(index));
}

/// A list that changes its entries alone leaves the titles as they were.
proof fn titles_with_entries(lists: Seq<ListView>, index: int, list: ListView)
    requires
        0 <= index < lists.len(),
        list.title == lists[index].title,
    ensures
        titles(lists.update(index, list)) == titles(lists),
{
    assert(titles(lists.update(index, list)) =~= titles(lists));
}

impl InterfaceView {
    /// Index-shift law: removing the list at `index` from a collection that
    /// has one there leaves one list fewer, the lists before `index` in
    /// place and each list behind it one place earlier. Where there is no
    /// such list, and so on an empty collection, nothing changes.
    pub proof fn remove_shifts(self, index: usize)
        ensures
            index < self.collection.len() ==> {
                let after = self.selection_applied(Some(SelectionIntent::Remove(index))).collection;
                &&& after.len() == self.collection.len() - 1
                &&& forall|i: int| 0 <= i < index ==> after[i] == self.collection[i]
                &&& forall|i: int| index <= i < after.len() ==> after[i] == self.collection[i + 1]
            },
            index >= self.collection.len() ==> self.selection_applied(Some(SelectionIntent::Remove(index)))
                == self,
    {
    }

    /// No event takes the screen out of the states in which `wf` holds.
    pub proof fn handled_keeps_wf(self, event: Event)
        requires
            self.wf(),
        ensures
            self.handled(event).wf(),
    {
        let sized = self.resized(event);
        assert(sized.wf());
        if event != quit_chord() {
            match sized.screen {
                ScreenState::Selection => {
                    if event.code() != Some(KeyCode::Char('?')) {
                        sized.selection_handled_keeps_wf(event);
                    }
                },
                ScreenState::Help => {},
                ScreenState::Editor => {
                    sized.editor_handled_keeps_wf(event);
                },
            }
        }
    }

    /// In the states in which `wf` holds, the selected index is on a list
    /// unless the collection is empty.
    pub proof fn selected_in_bounds(self)
        requires
            self.wf(),
        ensures
            self.selected < self.collection.len() || (self.collection.len() == 0 && self.selected == 0
                && self.screen != ScreenState::Editor),
    {
    }

    /// The ways from pane to pane. The help overlay opens from the selection
    /// pane alone, on `?`, and closes to it, on `?` or Esc, taking no other
    /// key and changing nothing else. The editor opens from the selection
    /// pane on a list that exists, and closes to the selection pane. The
    /// quit chord changes no pane.
    pub proof fn panes_follow_each_other(self, event: Event)
        requires
            self.wf(),
        ensures
            event == quit_chord() ==> self.handled(event) == self.resized(event),
            self.screen == ScreenState::Selection ==> (self.handled(event).screen == ScreenState::Help <==> event
                != quit_chord() && event.code() == Some(KeyCode::Char('?'))),
            self.screen == ScreenState::Selection && self.handled(event).screen == ScreenState::Editor
                ==> self.handled(event).selected < self.collection.len() && self.handled(event).collection
                == self.collection,
            self.screen == ScreenState::Editor ==> self.handled(event).screen != ScreenState::Help,
            self.screen == ScreenState::Help ==> (self.handled(event).screen == ScreenState::Selection <==> event
                != quit_chord() && (event.code() == Some(KeyCode::Esc) || event.code() == Some(
                KeyCode::Char('?'),
            ))),
            self.screen == ScreenState::Help ==> self.handled(event).screen != ScreenState::Editor
                && self.handled(event) == (InterfaceView {
                screen: self.handled(event).screen,
                help: self.handled(event).help,
                ..self.resized(event)
            }),
    {
        self.handled_keeps_wf(event);
    }

    /// The selection pane keeps the screen in order.
    proof fn selection_handled_keeps_wf(self, event: Event)
        requires
            self.wf(),
            self.screen == ScreenState::Selection,
        ensures
            self.selection_handled(event).wf(),
    {
        let (pane, intent) = self.selection.handled(event);
        let index = self.selection.cursor.y as usize;
        if intent == Some(SelectionIntent::Remove(index)) && index < self.collection.len() {
            titles_without(self.collection, index as int);
        }
        match intent {
            Some(SelectionIntent::AddTodo(title)) => {
                assert(self.popups.drop_last() =~= Seq::<PopupState>::empty());
            },
            Some(SelectionIntent::DelPopup) => {
                assert(self.popups.drop_last() =~= Seq::<PopupState>::empty());
            },
            Some(SelectionIntent::AddPopup) => {
                assert(self.popups.push(PopupState::Selection) =~= seq![PopupState::Selection]);
            },
            _ => {},
        }
    }

    /// The editor keeps the screen in order.
    proof fn editor_handled_keeps_wf(self, event: Event)
        requires
            self.wf(),
            self.screen == ScreenState::Editor,
        ensures
            self.editor_handled(event).wf(),
    {
        let open = self.selected as int;
        let (pane, list, intent) = self.editor.handled(event, self.collection[open]);
        let lists = self.collection.update(open, list);
        titles_with_entries(self.collection, open, list);
        match intent {
            Some(EditorIntent::Add(text)) => {
                titles_with_entries(lists, open, list.with(TodoView { text, done: false }));
                assert(self.popups.drop_last() =~= Seq::<PopupState>::empty());
            },
            Some(EditorIntent::Remove(index)) => {
                if index < list.items.len() {
                    titles_with_entries(lists, open, list.without(index as int));
                }
            },
            Some(EditorIntent::DelPopup) => {
                assert(self.popups.drop_last() =~= Seq::<PopupState>::empty());
            },
            Some(EditorIntent::AddPopup) => {
                assert(self.popups.push(PopupState::Editor) =~= seq![PopupState::Editor]);
            },
            _ => {},
        }
    }
}

impl View for Interface {
    type V = InterfaceView;

    open spec fn view(&self) -> InterfaceView {
        InterfaceView {
            collection: self.collection@,
            selected: self.selected_list,
            size: self.screen_size,
            selection: self.selection_bar@,
            editor: self.editor@,
            screen: self.screen_state,
            popups: self.popups@,
            help: self.help_screen.active,
        }
    }
}

impl Default for ScreenState {
    fn default() -> (state: Self)
        ensures
            state == ScreenState::Selection,
    {
        ScreenState::Selection
    }
}

impl Default for HelpScreen {
    fn default() -> (help: Self)
        ensures
            !help.active,
    {
        HelpScreen { active: false }
    }
}

impl Interface {
    /// The screen at the start: the selection pane has the keys, both
    /// cursors are at the top, and no popup is open. Both panes get
    /// `viewport` as their size.
    pub fn new(collection: TodoListCollection, viewport: Viewport) -> (interface: Self)
        ensures
            interface@.wf(),
            interface@.collection == collection@,
            interface@.selected == 0,
            interface@.size == viewport,
            interface@.screen == ScreenState::Selection,
            interface@.popups.len() == 0,
            !interface@.help,
            interface@.selection == (SelectionView {
                buffer: Seq::empty(),
                viewport,
                popup: false,
                cursor: Cursor { y: 0, x: 0 },
                scroll: 0,
                names: titles(collection@),
            }),
            interface@.editor == (EditorView {
                buffer: Seq::empty(),
                cursor: Cursor { y: 0, x: 0 },
                viewport,
                popup: false,
                scroll: 0,
            }),
    {
        let mut editor = Editor::default();
        editor.viewport = viewport;
        let mut selection_bar = SelectionBar::default();
        selection_bar.viewport = viewport;
        let mut interface = Interface {
            popups: Vec::new(),
            collection,
            editor,
            selection_bar,
            help_screen: HelpScreen::default(),
            selected_list: 0,
            screen_size: viewport,
            screen_state: ScreenState::default(),
        };
        let names = interface.collection_names();
        interface.selection_bar.set_names(names);
        assert(interface@.selection.buffer =~= Seq::empty());
        assert(interface@.editor.buffer =~= Seq::empty());
        assert(interface@.popups =~= open_popups(false, false));
        interface
    }

    /// Appends an entry that is not done to the selected list, if there is
    /// such a list.
    pub fn add_todo(&mut self, content: &str)
        ensures
            old(self)@.selected < old(self)@.collection.len() ==> final(self)@ == (InterfaceView {
                collection: old(self)@.collection.update(
                    old(self)@.selected as int,
                    old(self)@.collection[old(self)@.selected as int].with(
                        TodoView { text: content@, done: false },
                    ),
                ),
                ..old(self)@
            }),
            old(self)@.selected >= old(self)@.collection.len() ==> final(self)@ == old(self)@,
    {
        if self.selected_list < self.collection.len() {
            self.collection.lists[self.selected_list].push_str(content);
            assert(self.collection@ =~= old(self)@.collection.update(
                self.selected_list as int,
                self.collection.lists@[self.selected_list as int]@,
            ));
        }
    }

    /// Removes from the selected list the entry whose index is the editor
    /// cursor's column, if there is such a list and such an entry.
    pub fn remove_todo(&mut self)
        ensures
            old(self)@.selected < old(self)@.collection.len() && old(self)@.editor.cursor.x < old(
                self,
            )@.collection[old(self)@.selected as int].items.len() ==> final(self)@ == (InterfaceView {
                collection: old(self)@.collection.update(
                    old(self)@.selected as int,
                    old(self)@.collection[old(self)@.selected as int].without(
                        old(self)@.editor.cursor.x as int,
                    ),
                ),
                ..old(self)@
            }),
            !(old(self)@.selected < old(self)@.collection.len() && old(self)@.editor.cursor.x < old(
                self,
            )@.collection[old(self)@.selected as int].items.len()) ==> final(self)@ == old(self)@,
    {
        if self.selected_list < self.collection.len() {
            let index = self.editor.cursor.x as usize;
            if index < self.collection.lists[self.selected_list].len() {
                self.collection.lists[self.selected_list].remove(index);
                assert(self.collection@ =~= old(self)@.collection.update(
                    self.selected_list as int,
                    self.collection.lists@[self.selected_list as int]@,
                ));
            }
        }
    }

    /// Where the terminal's cursor belongs, column first, when the editor's
    /// area starts at column `editor_left`: one past the pane's border, and
    /// in the editor four more columns for the marker. Nowhere while the
    /// help overlay is shown. Coordinates stop at the largest value.
    pub fn cursor_position(&self, editor_left: u16) -> (position: Option<(u16, u16)>)
        ensures
            position == match self@.screen {
                ScreenState::Selection => Some(
                    (clamped(self@.selection.cursor.x as nat + 1), clamped(self@.selection.cursor.y as nat + 1)),
                ),
                ScreenState::Editor => Some(
                    (
                        clamped(editor_left as nat + self@.editor.cursor.x as nat + 5),
                        clamped(self@.editor.cursor.y as nat + 1),
                    ),
                ),
                ScreenState::Help => None,
            },
    {
        match self.screen_state {
            ScreenState::Selection => {
                let (y, x) = self.selection_bar.cursor_pos();
                Some((x.saturating_add(1), y.saturating_add(1)))
            },
            ScreenState::Editor => {
                let x = self.editor.cursor.x.saturating_add(1);
                let y = self.editor.cursor.y.saturating_add(1);
                Some((editor_left.saturating_add(x).saturating_add(4), y))
            },
            ScreenState::Help => None,
        }
    }

    /// The popup to draw: the latest that was opened, if any is open. The
    /// editor's popup is drawn only while the editor itself has it open.
    pub fn top_popup(&self) -> (popup: Option<PopupState>)
        ensures
            popup == if self@.popups.len() == 0 || (self@.popups.last() == PopupState::Editor
                && !self@.editor.popup) {
                None
            } else {
                Some(self@.popups.last())
            },
    {
        if self.popups.len() == 0 {
            return None;
        }
        match self.popups[self.popups.len() - 1] {
            PopupState::Editor => if self.editor.popup_mode {
                Some(PopupState::Editor)
            } else {
                None
            },
            PopupState::Selection => Some(PopupState::Selection),
        }
    }

    /// The list to draw beside the selection pane: the selected one, if
    /// there is one.
    pub fn shown_list(&self) -> (list: Option<&TodoList>)
        ensures
            self@.selected < self@.collection.len() ==> list.is_some() && list.unwrap()@
                == self@.collection[self@.selected as int],
            self@.selected >= self@.collection.len() ==> list.is_none(),
    {
        self.collection.get_todo_list(self.selected_list)
    }

    /// The size that the terminal last reported.
    pub fn get_editor_viewport(&self) -> (viewport: &Viewport)
        ensures
            *viewport == self@.size,
    {
        &self.screen_size
    }

    /// Does what the selection pane asks after `event`.
    pub fn handle_selection_bar(&mut self, event: &Event)
        ensures
            final(self)@ == old(self)@.selection_handled(*event),
    {
        if let Some(state) = self.selection_bar.handle_event(event, ()) {
            match state {
                SelectionState::DelPopup => {
                    self.popups.pop();
                },
                SelectionState::Show(index) => {
                    self.selected_list = index;
                },
                SelectionState::AddPopup => {
                    self.popups.push(PopupState::Selection);
                },
                SelectionState::Selected(index) => {
                    self.change_state(ScreenState::Editor);
                    self.selected_list = index;
                },
                SelectionState::AddTodo(title) => {
                    self.collection.push(TodoList::empty(title));
                    let names = self.collection_names();
                    self.selection_bar.set_names(names);
                    self.popups.pop();
                },
                SelectionState::Remove(index) => {
                    if index < self.collection.len() {
                        self.collection.remove(index);
                        if self.selected_list >= self.collection.len() {
                            self.selected_list = self.collection.len().saturating_sub(1);
                        }
                    }
                },
            }
        }
    }

    /// Hands `event` to the editor and does what it asks.
    pub fn handle_editor(&mut self, event: &Event)
        ensures
            final(self)@ == old(self)@.editor_handled(*event),
    {
        if self.selected_list >= self.collection.len() {
            return ;
        }
        let ghost open = self.selected_list as int;
        let state = self.editor.handle_event(event, &mut self.collection.lists[self.selected_list]);
        let ghost lists = self.collection@;
        assert(lists =~= old(self)@.collection.update(open, self.collection.lists@[open]@));
        let Some(state) = state else {
            return ;
        };
        match state {
            EditorState::Selected | EditorState::Leave => {
                if !self.collection.lists[self.selected_list].is_empty() {
                    self.change_state(ScreenState::Selection);
                }
            },
            EditorState::AddPopup => {
                self.popups.push(PopupState::Editor);
            },
            EditorState::DelPopup => {
                self.popups.pop();
            },
            EditorState::Add(text) => {
                let list = &mut self.collection.lists[self.selected_list];
                let was_empty = list.is_empty();
                list.push_str(text.as_str());
                if !was_empty {
                    let max = last_row_of(list.len());
                    self.editor.cursor.move_down(1, max);
                }
                self.popups.pop();
                assert(self.collection@ =~= lists.update(open, self.collection.lists@[open]@));
            },
            EditorState::Remove(index) => {
                let list = &mut self.collection.lists[self.selected_list];
                if index < list.len() {
                    list.remove(index);
                    if last_row_of(list.len()) < self.editor.cursor.y {
                        self.editor.cursor.move_up(1);
                    }
                    if list.is_empty() {
                        self.change_state(ScreenState::Selection);
                    }
                    assert(self.collection@ =~= lists.update(open, self.collection.lists@[open]@));
                }
            },
        }
    }

    /// The titles of the lists, in their order.
    pub fn collection_names(&self) -> (names: Vec<String>)
        ensures
            name_views(names@) == titles(self@.collection),
    {
        let mut names: Vec<String> = Vec::new();
        let mut i: usize = 0;
        while i < self.collection.lists.len()
            invariant
                i <= self.collection.lists.len(),
                names@.len() == i,
                name_views(names@) == titles(self@.collection).take(i as int),
            decreases self.collection.lists.len() - i,
        {
            let ghost before = name_views(names@);
            names.push(self.collection.lists[i].title.clone());
            i += 1;
            assert(name_views(names@) =~= before.push(self@.collection[i - 1].title));
            assert(name_views(names@) =~= titles(self@.collection).take(i as int));
        }
        assert(titles(self@.collection).take(i as int) =~= titles(self@.collection));
        names
    }

    pub fn change_state(&mut self, state: ScreenState)
        ensures
            *final(self) == (Interface { screen_state: state, ..*old(self) }),
    {
        self.screen_state = state;
    }

    /// Whether `event` is the key press that ends the program.
    pub fn should_quit(&mut self, event: &Event) -> (quit: bool)
        ensures
            quit == (*event == quit_chord()),
            *final(self) == *old(self),
    {
        match event {
            Event::Key(key) => key.code == KeyCode::Char('q') && key.modifiers == CONTROL && key.kind
                == KeyEventKind::Press && key.state == 0,
            _ => false,
        }
    }

    /// Takes the terminal's new size from a resize event.
    pub fn handle_resize(&mut self, event: &Event)
        ensures
            final(self)@ == old(self)@.resized(*event),
    {
        if let Event::Resize(x, y) = event {
            self.screen_size = Viewport::new(*y, *x);
        }
    }
}

impl Default for Interface {
    fn default() -> (interface: Self)
        ensures
            interface@.wf(),
            interface@.collection.len() == 0,
            interface@.screen == ScreenState::Selection,
    {
        Self::new(TodoListCollection::default(), Viewport::default())
    }
}

impl EventHandler<(), InterfaceState> for Interface {
    fn handle_event(&mut self, event: &Event, _input: ()) -> (state: Option<InterfaceState>)
        ensures
            final(self)@ == old(self)@.handled(*event),
            old(self)@.wf() ==> final(self)@.wf(),
            *event == quit_chord() ==> state matches Some(InterfaceState::Quit(Ok(()))),
            *event != quit_chord() ==> state.is_none(),
    {
        proof {
            if self@.wf() {
                self@.handled_keeps_wf(*event);
            }
        }
        self.handle_resize(event);
        if self.should_quit(event) {
            return Some(InterfaceState::Quit(Ok(())));
        }
        match self.screen_state {
            ScreenState::Selection => {
                if let Event::Key(key) = event {
                    if key.code == KeyCode::Char('?') {
                        self.help_screen.active = true;
                        self.change_state(ScreenState::Help);
                        return None;
                    }
                }
                self.handle_selection_bar(event);
            },
            ScreenState::Editor => self.handle_editor(event),
            ScreenState::Help => {
                if let Event::Key(key) = event {
                    if key.code == KeyCode::Esc || key.code == KeyCode::Char('?') {
                        self.help_screen.active = false;
                        self.change_state(ScreenState::Selection);
                    }
                }
            },
        }
        None
    }
}

} // verus!
