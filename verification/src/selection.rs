//! The pane that lists the names of the lists and lets one be chosen, added
//! or removed.

use vstd::prelude::*;
use crate::cursor::{last_row, last_row_of, step_back, step_forward, Cursor, CursorMovement};
use crate::event::{Event, EventHandler, KeyCode};
use crate::viewport::{window, window_range, Viewport};

verus! {

#[derive(Debug)]
pub struct SelectionBar {
    /// What has been typed into the popup so far.
    pub buffer: String,
    pub viewport: Viewport,
    /// Whether the popup that asks for a new list's name is open.
    pub popup_mode: bool,
    pub cursor: Cursor,
    /// The number of names that have scrolled out at the top.
    pub scroll: u16,
    pub names: Vec<String>,
}

/// What the pane asks of its owner.
#[derive(Debug)]
pub enum SelectionState {
    /// Open the list at this index in the editor.
    Selected(usize),
    /// The popup has opened.
    AddPopup,
    /// The popup has closed without a new list.
    DelPopup,
    /// Remove the list at this index.
    Remove(usize),
    /// Add an empty list with this title.
    AddTodo(String),
    /// Show the list at this index beside the pane.
    Show(usize),
}

/// A request as mathematics sees it.
pub enum SelectionIntent {
    Selected(usize),
    AddPopup,
    DelPopup,
    Remove(usize),
    AddTodo(Seq<char>),
    Show(usize),
}

impl View for SelectionState {
    type V = SelectionIntent;

    open spec fn view(&self) -> SelectionIntent {
        match *self {
            SelectionState::Selected(index) => SelectionIntent::Selected(index),
            SelectionState::AddPopup => SelectionIntent::AddPopup,
            SelectionState::DelPopup => SelectionIntent::DelPopup,
            SelectionState::Remove(index) => SelectionIntent::Remove(index),
            SelectionState::AddTodo(title) => SelectionIntent::AddTodo(title@),
            SelectionState::Show(index) => SelectionIntent::Show(index),
        }
    }
}

/// The request inside `state`, if there is one.
pub open spec fn selection_intent(state: Option<SelectionState>) -> Option<SelectionIntent> {
    match state {
        Some(state) => Some(state@),
        None => None,
    }
}

/// The pane as mathematics sees it.
pub struct SelectionView {
    pub buffer: Seq<char>,
    pub viewport: Viewport,
    pub popup: bool,
    pub cursor: Cursor,
    pub scroll: u16,
    pub names: Seq<Seq<char>>,
}

/// What `names` hold, name by name.
pub open spec fn name_views(names: Seq<String>) -> Seq<Seq<char>> {
    Seq::new(names.len(), |i: int| names[i]@)
}

/// `name` between square brackets.
pub open spec fn bracketed(name: Seq<char>) -> Seq<char> {
    seq!['['] + name + seq![']']
}

impl SelectionView {
    /// The cursor is on a name, or on row zero where there is none.
    pub open spec fn wf(self) -> bool {
        self.cursor.y <= last_row(self.names.len())
    }

    /// One step towards the first name. At the first name the scroll offset
    /// goes back by one instead.
    pub open spec fn moved_up(self, amount: u16) -> SelectionView {
        SelectionView {
            scroll: if self.cursor.y == 0 {
                step_back(self.scroll, 1)
            } else {
                self.scroll
            },
            cursor: Cursor { y: step_back(self.cursor.y, amount), x: self.cursor.x },
            ..self
        }
    }

    /// One step towards row `max`. The scroll offset grows by one where the
    /// cursor has come within two rows of the viewport's height while a row
    /// is left below.
    pub open spec fn moved_down(self, amount: u16, max: u16) -> SelectionView {
        let y = step_forward(self.cursor.y, amount, max);
        SelectionView {
            scroll: if y >= step_back(self.viewport.y, 2) && y + self.scroll <= step_back(max, 1) {
                (self.scroll + 1) as u16
            } else {
                self.scroll
            },
            cursor: Cursor { y, x: self.cursor.x },
            ..self
        }
    }

    /// The pane without the name at `index`. A cursor that has lost its row
    /// goes back by one. Nothing changes where there is no such name.
    pub open spec fn without_name(self, index: usize) -> SelectionView {
        if index < self.names.len() {
            let names = self.names.remove(index as int);
            SelectionView {
                names,
                cursor: Cursor {
                    y: if self.cursor.y > last_row(names.len()) {
                        step_back(self.cursor.y, 1)
                    } else {
                        self.cursor.y
                    },
                    x: self.cursor.x,
                },
                ..self
            }
        } else {
            self
        }
    }

    /// A key while the popup is open: the pane afterwards and what it asks.
    /// The popup takes every key; an empty name is not accepted.
    pub open spec fn typed(self, code: KeyCode) -> (SelectionView, Option<SelectionIntent>) {
        match code {
            KeyCode::Char(ch) => (SelectionView { buffer: self.buffer.push(ch), ..self }, None),
            KeyCode::Backspace => (
                SelectionView {
                    buffer: if self.buffer.len() > 0 {
                        self.buffer.drop_last()
                    } else {
                        self.buffer
                    },
                    ..self
                },
                None,
            ),
            KeyCode::Enter => if self.buffer.len() == 0 {
                (self, None)
            } else {
                (
                    SelectionView { popup: false, buffer: Seq::empty(), ..self },
                    Some(SelectionIntent::AddTodo(bracketed(self.buffer))),
                )
            },
            KeyCode::Esc => (SelectionView { popup: false, ..self }, Some(SelectionIntent::DelPopup)),
            _ => (self, None),
        }
    }

    /// A key while the popup is closed: the pane afterwards and what it asks.
    pub open spec fn commanded(self, code: KeyCode) -> (SelectionView, Option<SelectionIntent>) {
        if code == KeyCode::Up || code == KeyCode::Char('k') {
            let moved = self.moved_up(1);
            (moved, Some(SelectionIntent::Show(moved.cursor.y as usize)))
        } else if code == KeyCode::Down || code == KeyCode::Char('j') {
            let moved = self.moved_down(1, last_row(self.names.len()));
            (moved, Some(SelectionIntent::Show(moved.cursor.y as usize)))
        } else if code == KeyCode::Char(' ') {
            (
                self,
                if self.names.len() > 0 {
                    Some(SelectionIntent::Selected(self.cursor.y as usize))
                } else {
                    None
                },
            )
        } else if code == KeyCode::Char('x') {
            (
                self.without_name(self.cursor.y as usize),
                Some(SelectionIntent::Remove(self.cursor.y as usize)),
            )
        } else if code == KeyCode::Enter {
            (SelectionView { popup: true, ..self }, Some(SelectionIntent::AddPopup))
        } else {
            (self, None)
        }
    }

    /// An event: the pane afterwards and what it asks. Only keys count.
    pub open spec fn handled(self, event: Event) -> (SelectionView, Option<SelectionIntent>) {
        match event {
            Event::Key(key) => if self.popup {
                self.typed(key.code)
            } else {
                self.commanded(key.code)
            },
            _ => (self, None),
        }
    }
}

impl SelectionView {
    /// No event takes the cursor off the names: a cursor that is on a name,
    /// or on row zero of an empty pane, is so after every event.
    pub proof fn handled_keeps_wf(self, event: Event)
        requires
            self.wf(),
        ensures
            self.handled(event).0.wf(),
    {
    }

    /// A request to select or remove names the row under the cursor, and a
    /// request to select comes only where that row holds a name.
    pub proof fn requests_name_the_cursor(self, event: Event)
        requires
            self.wf(),
        ensures
            match self.handled(event).1 {
                Some(SelectionIntent::Selected(index)) => index == self.cursor.y && index < self.names.len(),
                Some(SelectionIntent::Remove(index)) => index == self.cursor.y && (index < self.names.len()
                    || self.names.len() == 0),
                Some(SelectionIntent::Show(index)) => index == self.handled(event).0.cursor.y,
                _ => true,
            },
    {
    }
}

impl View for SelectionBar {
    type V = SelectionView;

    open spec fn view(&self) -> SelectionView {
        SelectionView {
            buffer: self.buffer@,
            viewport: self.viewport,
            popup: self.popup_mode,
            cursor: self.cursor,
            scroll: self.scroll,
            names: name_views(self.names@),
        }
    }
}

impl Default for SelectionBar {
    fn default() -> (pane: Self)
        ensures
            pane@.buffer.len() == 0,
            pane@.viewport == (Viewport { x: 0, y: 0 }),
            !pane@.popup,
            pane@.cursor == (Cursor { y: 0, x: 0 }),
            pane@.scroll == 0,
            pane@.names.len() == 0,
    {
        SelectionBar {
            buffer: String::new(),
            viewport: Viewport::default(),
            popup_mode: false,
            cursor: Cursor::default(),
            scroll: 0,
            names: Vec::new(),
        }
    }
}

impl EventHandler<(), SelectionState> for SelectionBar {
    fn handle_event(&mut self, event: &Event, _input: ()) -> (state: Option<SelectionState>)
        ensures
            (final(self)@, selection_intent(state)) == old(self)@.handled(*event),
    {
        if let Event::Key(key) = event {
            if self.popup_mode {
                match key.code {
                    KeyCode::Char(ch) => {
                        self.buffer.push(ch);
                        return None;
                    },
                    KeyCode::Backspace => {
                        let _ = self.buffer.pop();
                        return None;
                    },
                    KeyCode::Enter => {
                        if self.buffer.as_str().is_empty() {
                            return None;
                        }
                        proof {
                            reveal_strlit("[");
                            reveal_strlit("]");
                        }
                        let mut title = "[".to_owned();
                        title.append(self.buffer.as_str());
                        title.append("]");
                        assert(title@ =~= bracketed(self.buffer@));
                        self.popup_mode = false;
                        self.buffer.clear();
                        return Some(SelectionState::AddTodo(title));
                    },
                    KeyCode::Esc => {
                        self.popup_mode = false;
                        return Some(SelectionState::DelPopup);
                    },
                    _ => {
                        return None;
                    },
                }
            }
            match key.code {
                KeyCode::Up | KeyCode::Char('k') => {
                    self.move_up(1);
                    return Some(SelectionState::Show(self.cursor.y as usize));
                },
                KeyCode::Down | KeyCode::Char('j') => {
                    self.move_down(1, last_row_of(self.names.len()));
                    return Some(SelectionState::Show(self.cursor.y as usize));
                },
                KeyCode::Char(' ') => {
                    if !self.names.is_empty() {
                        return Some(SelectionState::Selected(self.cursor.y as usize));
                    }
                },
                KeyCode::Char('x') => {
                    let index = self.cursor.y as usize;
                    self.remove_name(index);
                    return Some(SelectionState::Remove(index));
                },
                KeyCode::Enter => {
                    self.popup_mode = true;
                    return Some(SelectionState::AddPopup);
                },
                _ => {},
            }
        }
        None
    }
}

impl SelectionBar {
    /// Replaces the names that the pane shows.
    pub fn set_names(&mut self, names: Vec<String>)
        ensures
            final(self)@ == (SelectionView { names: name_views(names@), ..old(self)@ }),
    {
        self.names = names
    }

    /// Forgets the name at `index` and keeps the cursor on a row.
    pub fn remove_name(&mut self, index: usize)
        ensures
            final(self)@ == old(self)@.without_name(index),
    {
        if index >= self.names.len() {
            return ;
        }
        self.names.remove(index);
        assert(name_views(self.names@) =~= name_views(old(self).names@).remove(index as int));
        if self.cursor.y > last_row_of(self.names.len()) {
            self.cursor.move_up(1);
        }
    }

    /// The names to draw: those from the scroll offset on, as many as the
    /// viewport has rows.
    pub fn visible_names(&self) -> (names: Vec<String>)
        ensures
            name_views(names@) == window(self@.names, self@.scroll, self@.viewport.y),
    {
        let (start, end) = window_range(self.names.len(), self.scroll, self.viewport.y());
        let mut names: Vec<String> = Vec::new();
        let mut i: usize = start;
        while i < end
            invariant
                start <= i <= end <= self.names@.len(),
                names@.len() == i - start,
                name_views(names@) == self@.names.subrange(start as int, i as int),
            decreases end - i,
        {
            let ghost before = name_views(names@);
            names.push(self.names[i].clone());
            i += 1;
            assert(name_views(names@) =~= before.push(self@.names[i - 1]));
            assert(name_views(names@) =~= self@.names.subrange(start as int, i as int));
        }
        names
    }

    /// The cursor's row, then its column.
    pub fn cursor_pos(&self) -> (pos: (u16, u16))
        ensures
            pos == (self@.cursor.y, self@.cursor.x),
    {
        (self.cursor.y, self.cursor.x)
    }
}

impl CursorMovement for SelectionBar {
    fn move_up(&mut self, amount: u16)
        ensures
            final(self)@ == old(self)@.moved_up(amount),
    {
        if self.cursor.y == 0 {
            self.scroll = self.scroll.saturating_sub(1);
        }
        self.cursor.move_up(amount);
    }

    fn move_down(&mut self, amount: u16, max: u16)
        ensures
            final(self)@ == old(self)@.moved_down(amount, max),
    {
        self.cursor.move_down(amount, max);
        if self.cursor.y >= self.viewport.y().saturating_sub(2) && self.cursor.y as u32
            + self.scroll as u32 <= max.saturating_sub(1) as u32 {
            self.scroll += 1;
        }
    }
}

} // verus!
