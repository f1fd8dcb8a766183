//! The pane that shows the entries of one list and lets them be ticked, added
//! or removed.

use vstd::prelude::*;
use crate::cursor::{clamp, clamped, last_row, last_row_of, step_back, step_forward, Cursor, CursorMovement};
use crate::event::{Event, EventHandler, KeyCode};
use crate::todo::{byte_len, ListView, TodoList};
use crate::viewport::{window, window_range, Viewport};
use crate::writer::item_lines;

verus! {

#[derive(Debug)]
pub struct Editor {
    /// What has been typed into the popup so far.
    pub buffer: String,
    pub cursor: Cursor,
    pub viewport: Viewport,
    /// Whether the popup that asks for a new entry's text is open.
    pub popup_mode: bool,
    /// The number of entries that have scrolled out at the top.
    pub scroll: u16,
}

/// What the pane asks of its owner.
#[derive(Debug)]
pub enum EditorState {
    /// Leave the editor.
    Leave,
    /// The popup has opened.
    AddPopup,
    /// The popup has closed without a new entry.
    DelPopup,
    /// Leave the editor.
    Selected,
    /// Add an entry with this text.
    Add(String),
    /// Remove the entry at this index.
    Remove(usize),
}

/// A request as mathematics sees it.
pub enum EditorIntent {
    Leave,
    AddPopup,
    DelPopup,
    Selected,
    Add(Seq<char>),
    Remove(usize),
}

impl View for EditorState {
    type V = EditorIntent;

    open spec fn view(&self) -> EditorIntent {
        match *self {
            EditorState::Leave => EditorIntent::Leave,
            EditorState::AddPopup => EditorIntent::AddPopup,
            EditorState::DelPopup => EditorIntent::DelPopup,
            EditorState::Selected => EditorIntent::Selected,
            EditorState::Add(text) => EditorIntent::Add(text@),
            EditorState::Remove(index) => EditorIntent::Remove(index),
        }
    }
}

/// The request inside `state`, if there is one.
pub open spec fn editor_intent(state: Option<EditorState>) -> Option<EditorIntent> {
    match state {
        Some(state) => Some(state@),
        None => None,
    }
}

/// The pane as mathematics sees it.
pub struct EditorView {
    pub buffer: Seq<char>,
    pub cursor: Cursor,
    pub viewport: Viewport,
    pub popup: bool,
    pub scroll: u16,
}

/// How far right the cursor may go on `row` of `list`: the length of that
/// entry's text in bytes, zero where there is no such entry.
pub open spec fn row_width(list: ListView, row: u16) -> u16 {
    if row < list.items.len() {
        clamped(byte_len(list.items[row as int].text))
    } else {
        0
    }
}

impl EditorView {
    /// One step towards the first entry. At the first entry the scroll offset
    /// goes back by one instead.
    pub open spec fn moved_up(self, amount: u16) -> EditorView {
        EditorView {
            scroll: if self.cursor.y == 0 {
                step_back(self.scroll, 1)
            } else {
                self.scroll
            },
            cursor: Cursor { y: step_back(self.cursor.y, amount), x: self.cursor.x },
            ..self
        }
    }

    /// One step towards row `max`. The scroll offset grows by one where the
    /// cursor has come within two rows of the viewport's height while a row
    /// is left below.
    pub open spec fn moved_down(self, amount: u16, max: u16) -> EditorView {
        let y = step_forward(self.cursor.y, amount, max);
        EditorView {
            scroll: if y >= step_back(self.viewport.y, 2) && y + self.scroll <= step_back(max, 1) {
                (self.scroll + 1) as u16
            } else {
                self.scroll
            },
            cursor: Cursor { y, x: self.cursor.x },
            ..self
        }
    }

    pub open spec fn moved_left(self, amount: u16) -> EditorView {
        EditorView { cursor: Cursor { y: self.cursor.y, x: step_back(self.cursor.x, amount) }, ..self }
    }

    pub open spec fn moved_right(self, amount: u16, max: u16) -> EditorView {
        EditorView { cursor: Cursor { y: self.cursor.y, x: step_forward(self.cursor.x, amount, max) }, ..self }
    }

    /// A key while the popup is open: the pane afterwards and what it asks.
    /// The popup takes every key, and accepts an empty text.
    pub open spec fn typed(self, code: KeyCode) -> (EditorView, Option<EditorIntent>) {
        match code {
            KeyCode::Esc => (
                EditorView { popup: false, buffer: Seq::empty(), ..self },
                Some(EditorIntent::DelPopup),
            ),
            KeyCode::Char(ch) => (EditorView { buffer: self.buffer.push(ch), ..self }, None),
            KeyCode::Backspace => (
                EditorView {
                    buffer: if self.buffer.len() > 0 {
                        self.buffer.drop_last()
                    } else {
                        self.buffer
                    },
                    ..self
                },
                None,
            ),
            KeyCode::Enter => (
                EditorView { popup: false, buffer: Seq::empty(), ..self },
                Some(EditorIntent::Add(self.buffer)),
            ),
            _ => (self, None),
        }
    }

    /// A key while the popup is closed: the pane afterwards, the list
    /// afterwards, and what the pane asks.
    pub open spec fn commanded(self, code: KeyCode, list: ListView) -> (
        EditorView,
        ListView,
        Option<EditorIntent>,
    ) {
        if code == KeyCode::Esc {
            (
                EditorView { cursor: Cursor { y: 0, x: 0 }, ..self },
                list,
                if list.items.len() > 0 {
                    Some(EditorIntent::Selected)
                } else {
                    None
                },
            )
        } else if code == KeyCode::Up || code == KeyCode::Char('k') {
            (self.moved_up(1), list, None)
        } else if code == KeyCode::Down || code == KeyCode::Char('j') {
            (self.moved_down(1, last_row(list.items.len())), list, None)
        } else if code == KeyCode::Left || code == KeyCode::Char('h') {
            (self.moved_left(1), list, None)
        } else if code == KeyCode::Right || code == KeyCode::Char('l') {
            (self.moved_right(1, row_width(list, self.cursor.y)), list, None)
        } else if code == KeyCode::Enter {
            (EditorView { popup: true, ..self }, list, Some(EditorIntent::AddPopup))
        } else if code == KeyCode::Char('x') {
            (
                self,
                list,
                if self.cursor.y < list.items.len() {
                    Some(EditorIntent::Remove(self.cursor.y as usize))
                } else {
                    None
                },
            )
        } else if code == KeyCode::Char(' ') {
            (self, list.toggled(self.cursor.y as int), None)
        } else {
            (self, list, None)
        }
    }

    /// An event: the pane afterwards, the list afterwards, and what the pane
    /// asks. Only keys count.
    pub open spec fn handled(self, event: Event, list: ListView) -> (
        EditorView,
        ListView,
        Option<EditorIntent>,
    ) {
        match event {
            Event::Key(key) => if self.popup {
                (self.typed(key.code).0, list, self.typed(key.code).1)
            } else {
                self.commanded(key.code, list)
            },
            _ => (self, list, None),
        }
    }
}

impl EditorView {
    /// The cursor is on an entry of `list`, or on row zero where it has none.
    pub open spec fn on(self, list: ListView) -> bool {
        self.cursor.y <= last_row(list.items.len())
    }

    /// No event takes the cursor off the entries, as long as the list stays
    /// as the editor left it.
    pub proof fn handled_keeps_cursor_on(self, event: Event, list: ListView)
        requires
            self.on(list),
        ensures
            self.handled(event, list).0.on(self.handled(event, list).1),
    {
    }

    /// After a step to the right the cursor is within the text of its row.
    pub proof fn right_stays_on_the_text(self, list: ListView)
        requires
            !self.popup,
        ensures
            self.commanded(KeyCode::Right, list).0.cursor.x <= row_width(list, self.cursor.y),
    {
    }

    /// The editor changes no title and no text, and adds or removes no
    /// entry: all it does to the list is to flip the flag under the cursor.
    pub proof fn handled_only_toggles(self, event: Event, list: ListView)
        ensures
            self.handled(event, list).1 == list || self.handled(event, list).1 == list.toggled(
                self.cursor.y as int,
            ),
            self.handled(event, list).1.title == list.title,
            self.handled(event, list).1.items.len() == list.items.len(),
    {
    }

    /// A request to remove names an entry that exists.
    pub proof fn removes_what_exists(self, event: Event, list: ListView)
        ensures
            match self.handled(event, list).2 {
                Some(EditorIntent::Remove(index)) => index < list.items.len() && index == self.cursor.y,
                _ => true,
            },
    {
    }
}

impl View for Editor {
    type V = EditorView;

    open spec fn view(&self) -> EditorView {
        EditorView {
            buffer: self.buffer@,
            cursor: self.cursor,
            viewport: self.viewport,
            popup: self.popup_mode,
            scroll: self.scroll,
        }
    }
}

impl Default for Editor {
    fn default() -> (pane: Self)
        ensures
            pane@.buffer.len() == 0,
            pane@.cursor == (Cursor { y: 0, x: 0 }),
            pane@.viewport == (Viewport { x: 0, y: 0 }),
            !pane@.popup,
            pane@.scroll == 0,
    {
        Editor {
            buffer: String::new(),
            cursor: Cursor::default(),
            viewport: Viewport::default(),
            popup_mode: false,
            scroll: 0,
        }
    }
}

impl Clone for Editor {
    fn clone(&self) -> (pane: Self)
        ensures
            pane@ == self@,
    {
        Editor {
            buffer: self.buffer.clone(),
            cursor: self.cursor,
            viewport: self.viewport,
            popup_mode: self.popup_mode,
            scroll: self.scroll,
        }
    }
}

impl EventHandler<&mut TodoList, EditorState> for Editor {
    fn handle_event(&mut self, event: &Event, list: &mut TodoList) -> (state: Option<EditorState>)
        ensures
            (final(self)@, final(list)@, editor_intent(state)) == old(self)@.handled(*event, old(list)@),
    {
        if let Event::Key(key) = event {
            if self.popup_mode {
                match key.code {
                    KeyCode::Esc => {
                        self.popup_mode = false;
                        self.buffer.clear();
                        return Some(EditorState::DelPopup);
                    },
                    KeyCode::Char(ch) => {
                        self.push_char(ch);
                        return None;
                    },
                    KeyCode::Backspace => {
                        let _ = self.buffer.pop();
                        return None;
                    },
                    KeyCode::Enter => {
                        self.popup_mode = false;
                        let text = self.buffer.clone();
                        self.buffer.clear();
                        return Some(EditorState::Add(text));
                    },
                    _ => {
                        return None;
                    },
                }
            }
            match key.code {
                KeyCode::Esc => {
                    self.cursor = Cursor::new(0, 0);
                    if !list.is_empty() {
                        return Some(EditorState::Selected);
                    }
                },
                KeyCode::Up | KeyCode::Char('k') => self.move_up(1),
                KeyCode::Down | KeyCode::Char('j') => {
                    self.move_down(1, last_row_of(list.len()));
                },
                KeyCode::Left | KeyCode::Char('h') => self.move_left(1),
                KeyCode::Right | KeyCode::Char('l') => {
                    let row = self.cursor.y as usize;
                    let max: u16 = if row < list.len() {
                        clamp(list.len_line(row))
                    } else {
                        0
                    };
                    self.move_right(1, max);
                },
                KeyCode::Enter => {
                    self.popup_mode = true;
                    return Some(EditorState::AddPopup);
                },
                KeyCode::Char('x') => {
                    let row = self.cursor.y as usize;
                    if row < list.len() {
                        return Some(EditorState::Remove(row));
                    }
                },
                KeyCode::Char(' ') => {
                    list.toggle(self.cursor.y as usize);
                },
                _ => {},
            }
        }
        None
    }
}

/// What `lines` hold, line by line.
pub open spec fn line_views(lines: Seq<String>) -> Seq<Seq<char>> {
    Seq::new(lines.len(), |i: int| lines[i]@)
}

impl Editor {
    /// The lines to draw for `list`: its entries from the scroll offset on,
    /// as many as the viewport has rows, each with its marker. None where
    /// there is no list.
    pub fn visible_lines(&self, list: Option<&TodoList>) -> (lines: Vec<String>)
        ensures
            line_views(lines@) == match list {
                Some(list) => item_lines(window(list@.items, self@.scroll, self@.viewport.y)),
                None => Seq::empty(),
            },
    {
        let mut lines: Vec<String> = Vec::new();
        if let Some(list) = list {
            let (start, end) = window_range(list.len(), self.scroll, self.viewport.y());
            let mut i: usize = start;
            assert(line_views(lines@) =~= item_lines(list@.items.subrange(start as int, start as int)));
            while i < end
                invariant
                    start <= i <= end <= list@.items.len(),
                    lines@.len() == i - start,
                    line_views(lines@) == item_lines(list@.items.subrange(start as int, i as int)),
                decreases end - i,
            {
                let ghost before = line_views(lines@);
                let line = list.data[i].to_line();
                lines.push(line);
                i += 1;
                assert(line_views(lines@) =~= before.push(item_lines(list@.items)[i - 1]));
                assert(line_views(lines@) =~= item_lines(list@.items.subrange(start as int, i as int)));
            }
        } else {
            assert(line_views(lines@) =~= Seq::empty());
        }
        lines
    }

    /// Appends `c` to what has been typed.
    pub fn push_char(&mut self, c: char)
        ensures
            final(self)@ == (EditorView { buffer: old(self)@.buffer.push(c), ..old(self)@ }),
    {
        self.buffer.push(c);
    }
}

impl CursorMovement for Editor {
    fn move_up(&mut self, amount: u16)
        ensures
            final(self)@ == old(self)@.moved_up(amount),
    {
        if self.cursor.y == 0 {
            self.scroll = self.scroll.saturating_sub(1);
        }
        self.cursor.move_up(amount);
    }

    fn move_down(&mut self, amount: u16, max: u16)
        ensures
            final(self)@ == old(self)@.moved_down(amount, max),
    {
        self.cursor.move_down(amount, max);
        if self.cursor.y >= self.viewport.y().saturating_sub(2) && self.cursor.y as u32
            + self.scroll as u32 <= max.saturating_sub(1) as u32 {
            self.scroll += 1;
        }
    }

    fn move_left(&mut self, amount: u16)
        ensures
            final(self)@ == old(self)@.moved_left(amount),
    {
        self.cursor.move_left(amount);
    }

    fn move_right(&mut self, amount: u16, max: u16)
        ensures
            final(self)@ == old(self)@.moved_right(amount, max),
    {
        self.cursor.move_right(amount, max);
    }
}

} // verus!
