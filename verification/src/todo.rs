//! The data model: items, lists of items, and the collection of lists.

use vstd::prelude::*;
use vstd::string::StringSliceAdditionalSpecFns;
use crate::parser::{list_of, parse};
use crate::text::to_chars;

verus! {

#[derive(Debug, Clone, Copy, PartialEq, Eq, PartialOrd, Ord, Structural)]
pub enum TodoStatus {
    Incomplete,
    Complete,
}

/// A checklist entry as mathematics sees it.
pub struct TodoView {
    pub text: Seq<char>,
    pub done: bool,
}

/// A list as mathematics sees it.
pub struct ListView {
    pub title: Seq<char>,
    pub items: Seq<TodoView>,
}

impl TodoView {
    /// The same entry with its flag flipped.
    pub open spec fn toggled(self) -> TodoView {
        TodoView { text: self.text, done: !self.done }
    }

    /// Toggling an entry twice gives it back as it was.
    pub proof fn toggle_is_self_inverse(self)
        ensures
            self.toggled().toggled() == self,
    {
    }
}

impl ListView {
    /// The same list with the flag of entry `index` flipped, if there is one.
    pub open spec fn toggled(self, index: int) -> ListView {
        if 0 <= index < self.items.len() {
            ListView { title: self.title, items: self.items.update(index, self.items[index].toggled()) }
        } else {
            self
        }
    }

    /// The same list with `item` at its end.
    pub open spec fn with(self, item: TodoView) -> ListView {
        ListView { title: self.title, items: self.items.push(item) }
    }

    /// The same list without entry `index`.
    pub open spec fn without(self, index: int) -> ListView
        recommends
            0 <= index < self.items.len(),
    {
        ListView { title: self.title, items: self.items.remove(index) }
    }
}

impl TodoStatus {
    /// The other status.
    pub open spec fn flipped(self) -> TodoStatus {
        match self {
            TodoStatus::Complete => TodoStatus::Incomplete,
            TodoStatus::Incomplete => TodoStatus::Complete,
        }
    }

    /// Whether the status is `Complete`.
    pub open spec fn done(self) -> bool {
        self is Complete
    }

    /// `Complete` for `true`, `Incomplete` for `false`.
    pub open spec fn of(done: bool) -> TodoStatus {
        if done {
            TodoStatus::Complete
        } else {
            TodoStatus::Incomplete
        }
    }

    /// The three characters that stand for a status in a file.
    pub open spec fn marker(done: bool) -> Seq<char> {
        if done {
            seq!['[', 'x', ']']
        } else {
            seq!['[', ' ', ']']
        }
    }

    pub fn toggle(&mut self)
        ensures
            *final(self) == old(self).flipped(),
    {
        match self {
            Self::Complete => *self = Self::Incomplete,
            Self::Incomplete => *self = Self::Complete,
        }
    }

    pub fn is_done(&self) -> (done: bool)
        ensures
            done == self.done(),
    {
        match self {
            Self::Complete => true,
            Self::Incomplete => false,
        }
    }

    /// `[x]` for a complete entry, `[ ]` for an incomplete one.
    pub fn as_str(&self) -> (marker: &'static str)
        ensures
            marker@ == Self::marker(self.done()),
    {
        proof {
            reveal_strlit("[x]");
            reveal_strlit("[ ]");
        }
        match self {
            Self::Complete => {
                assert("[x]"@ =~= Self::marker(true));
                "[x]"
            },
            Self::Incomplete => {
                assert("[ ]"@ =~= Self::marker(false));
                "[ ]"
            },
        }
    }

    /// Flipping a status twice gives it back.
    pub proof fn toggle_is_self_inverse(status: TodoStatus)
        ensures
            status.flipped().flipped() == status,
    {
    }
}

impl Default for TodoStatus {
    fn default() -> (status: Self)
        ensures
            status == TodoStatus::Incomplete,
    {
        TodoStatus::Incomplete
    }
}

impl From<bool> for TodoStatus {
    fn from(value: bool) -> (status: Self) {
        match value {
            true => Self::Complete,
            false => Self::Incomplete,
        }
    }
}

impl vstd::std_specs::convert::FromSpecImpl<bool> for TodoStatus {
    open spec fn obeys_from_spec() -> bool {
        true
    }

    open spec fn from_spec(value: bool) -> Self {
        TodoStatus::of(value)
    }
}

#[derive(Debug)]
pub struct Todo {
    pub data: String,
    pub status: TodoStatus,
}

impl View for Todo {
    type V = TodoView;

    open spec fn view(&self) -> TodoView {
        TodoView { text: self.data@, done: self.status.done() }
    }
}

/// Whether `text` starts with the marker of an entry that is done.
pub open spec fn starts_done(text: Seq<char>) -> bool {
    text.len() >= 3 && text[0] == '[' && text[1] == 'x' && text[2] == ']'
}

impl From<String> for Todo {
    /// An entry with `data` as its text, done where the text starts with
    /// `[x]`.
    fn from(data: String) -> (todo: Self) {
        let chars = to_chars(data.as_str());
        let done = chars.len() >= 3 && chars[0] == '[' && chars[1] == 'x' && chars[2] == ']';
        let status = if done {
            TodoStatus::Complete
        } else {
            TodoStatus::Incomplete
        };
        Todo { status, data }
    }
}

impl vstd::std_specs::convert::FromSpecImpl<String> for Todo {
    open spec fn obeys_from_spec() -> bool {
        true
    }

    open spec fn from_spec(data: String) -> Self {
        Todo { data, status: TodoStatus::of(starts_done(data@)) }
    }
}

/// The number of bytes that `text` takes in UTF-8.
pub open spec fn byte_len(text: Seq<char>) -> nat {
    vstd::utf8::encode_utf8(text).len()
}

impl Todo {
    pub fn is_empty(&self) -> (empty: bool)
        ensures
            empty == (self@.text.len() == 0),
    {
        self.data.as_str().is_empty()
    }

    /// The length of the text in bytes.
    pub fn len(&self) -> (len: usize)
        ensures
            len == byte_len(self@.text),
    {
        let text: &str = self.data.as_str();
        assert(text.spec_bytes() == vstd::utf8::encode_utf8(text@));
        text.as_bytes().len()
    }

    /// Flips the entry's flag.
    pub fn toggle(&mut self)
        ensures
            final(self)@ == old(self)@.toggled(),
    {
        self.status.toggle();
    }
}

impl Default for Todo {
    fn default() -> (todo: Self)
        ensures
            todo@ == (TodoView { text: Seq::empty(), done: false }),
    {
        Todo { data: String::new(), status: TodoStatus::Incomplete }
    }
}

impl Clone for Todo {
    fn clone(&self) -> (todo: Self)
        ensures
            todo@ == self@,
    {
        Todo { data: self.data.clone(), status: self.status }
    }
}

#[derive(Debug)]
pub struct TodoList {
    pub title: String,
    pub data: Vec<Todo>,
}

/// What `items` hold, entry by entry.
pub open spec fn item_views(items: Seq<Todo>) -> Seq<TodoView> {
    Seq::new(items.len(), |i: int| items[i]@)
}

impl View for TodoList {
    type V = ListView;

    open spec fn view(&self) -> ListView {
        ListView { title: self.title@, items: item_views(self.data@) }
    }
}

impl TodoList {
    pub fn is_empty(&self) -> (empty: bool)
        ensures
            empty == (self@.items.len() == 0),
    {
        self.data.is_empty()
    }

    pub fn len(&self) -> (len: usize)
        ensures
            len == self@.items.len(),
    {
        self.data.len()
    }

    /// The length in bytes of the text of entry `index`.
    pub fn len_line(&self, index: usize) -> (len: usize)
        requires
            index < self@.items.len(),
        ensures
            len == byte_len(self@.items[index as int].text),
    {
        self.data[index].len()
    }

    /// A list with the entries that `contents` holds, one a line; without
    /// entries where `contents` is empty or does not start with an entry.
    pub fn new(title: String, contents: &str) -> (list: Self)
        ensures
            list@.title == title@,
            list@.items == match list_of(contents@) {
                Ok(read) => read.items,
                Err(_) => Seq::empty(),
            },
    {
        match parse(contents) {
            Ok(read) => TodoList { title, data: read.data },
            Err(_) => TodoList::empty(title),
        }
    }

    /// A list without entries.
    pub fn empty(title: String) -> (list: Self)
        ensures
            list@ == (ListView { title: title@, items: Seq::empty() }),
    {
        let list = TodoList { title, data: Vec::new() };
        assert(list@.items =~= Seq::empty());
        list
    }

    /// Appends an entry with the text `contents` that is not done.
    pub fn push_str(&mut self, contents: &str)
        ensures
            final(self)@ == old(self)@.with(TodoView { text: contents@, done: false }),
    {
        let todo = Todo { data: contents.to_owned(), status: TodoStatus::Incomplete };
        self.push_todo(todo);
    }

    pub fn push_todo(&mut self, todo: Todo)
        ensures
            final(self)@ == old(self)@.with(todo@),
    {
        self.data.push(todo);
        assert(self@.items =~= old(self)@.items.push(todo@));
    }

    /// Drops the last entry, if there is one.
    pub fn pop(&mut self)
        ensures
            final(self)@.title == old(self)@.title,
            old(self)@.items.len() == 0 ==> final(self)@.items == old(self)@.items,
            old(self)@.items.len() > 0 ==> final(self)@.items == old(self)@.items.drop_last(),
    {
        self.data.pop();
        assert(old(self)@.items.len() > 0 ==> self@.items =~= old(self)@.items.drop_last());
        assert(old(self)@.items.len() == 0 ==> self@.items =~= old(self)@.items);
    }

    /// Removes entry `index`; the entries behind it move up by one.
    pub fn remove(&mut self, index: usize)
        requires
            index < old(self)@.items.len(),
        ensures
            final(self)@ == old(self)@.without(index as int),
    {
        self.data.remove(index);
        assert(self@.items =~= old(self)@.items.remove(index as int));
    }

    /// Flips the flag of entry `index`, if there is one.
    pub fn toggle(&mut self, index: usize)
        ensures
            final(self)@ == old(self)@.toggled(index as int),
    {
        if index < self.data.len() {
            self.data[index].toggle();
            assert(self@.items =~= old(self)@.toggled(index as int).items);
        }
    }
}

impl Default for TodoList {
    fn default() -> (list: Self)
        ensures
            list@ == (ListView { title: Seq::empty(), items: Seq::empty() }),
    {
        TodoList::empty(String::new())
    }
}

impl Clone for TodoList {
    fn clone(&self) -> (list: Self)
        ensures
            list@ == self@,
    {
        let mut data: Vec<Todo> = Vec::new();
        let mut i: usize = 0;
        while i < self.data.len()
            invariant
                i <= self.data.len(),
                data@.len() == i,
                item_views(data@) == item_views(self.data@).take(i as int),
            decreases self.data.len() - i,
        {
            let ghost before = item_views(data@);
            data.push(self.data[i].clone());
            i += 1;
            assert(item_views(data@) =~= before.push(self.data@[i - 1]@));
            assert(item_views(data@) =~= item_views(self.data@).take(i as int));
        }
        assert(item_views(self.data@).take(i as int) =~= item_views(self.data@));
        TodoList { title: self.title.clone(), data }
    }
}

#[derive(Debug)]
pub struct TodoListCollection {
    pub lists: Vec<TodoList>,
}

/// What `lists` hold, list by list.
pub open spec fn list_views(lists: Seq<TodoList>) -> Seq<ListView> {
    Seq::new(lists.len(), |i: int| lists[i]@)
}

/// The titles of `lists`, in their order.
pub open spec fn titles(lists: Seq<ListView>) -> Seq<Seq<char>> {
    Seq::new(lists.len(), |i: int| lists[i].title)
}

impl View for TodoListCollection {
    type V = Seq<ListView>;

    open spec fn view(&self) -> Seq<ListView> {
        list_views(self.lists@)
    }
}

impl TodoListCollection {
    pub fn push(&mut self, list: TodoList)
        ensures
            final(self)@ == old(self)@.push(list@),
    {
        self.lists.push(list);
        assert(self@ =~= old(self)@.push(list@));
    }

    pub fn len(&self) -> (len: usize)
        ensures
            len == self@.len(),
    {
        self.lists.len()
    }

    pub fn is_empty(&self) -> (empty: bool)
        ensures
            empty == (self@.len() == 0),
    {
        self.lists.is_empty()
    }

    /// The list at `index`, if there is one.
    pub fn get_todo_list(&self, index: usize) -> (list: Option<&TodoList>)
        ensures
            index < self@.len() ==> list.is_some() && *list.unwrap() == self.lists@[index as int],
            index >= self@.len() ==> list.is_none(),
    {
        if index >= self.lists.len() {
            return None;
        }
        Some(&self.lists[index])
    }

    /// The list at `index`, if there is one, to be changed in place.
    pub fn get_mut_todo_list(&mut self, index: usize) -> (list: Option<&mut TodoList>)
        ensures
            index >= old(self)@.len() ==> list.is_none() && *final(self) == *old(self),
            index < old(self)@.len() ==> list.is_some() && *list.unwrap() == old(self).lists@[index as int]
                && final(self).lists@ == old(self).lists@.update(index as int, *final(list.unwrap())),
    {
        if index >= self.lists.len() {
            return None;
        }
        Some(&mut self.lists[index])
    }

    /// Removes the list at `index`; the lists behind it move up by one.
    pub fn remove(&mut self, index: usize)
        requires
            index < old(self)@.len(),
        ensures
            final(self)@ == old(self)@.remove(index as int),
    {
        self.lists.remove(index);
        assert(self@ =~= old(self)@.remove(index as int));
    }
}

impl Default for TodoListCollection {
    fn default() -> (collection: Self)
        ensures
            collection@ == Seq::<ListView>::empty(),
    {
        let collection = TodoListCollection { lists: Vec::new() };
        assert(collection@ =~= Seq::<ListView>::empty());
        collection
    }
}

impl Clone for TodoListCollection {
    fn clone(&self) -> (collection: Self)
        ensures
            collection@ == self@,
    {
        let mut lists: Vec<TodoList> = Vec::new();
        let mut i: usize = 0;
        while i < self.lists.len()
            invariant
                i <= self.lists.len(),
                lists@.len() == i,
                list_views(lists@) == list_views(self.lists@).take(i as int),
            decreases self.lists.len() - i,
        {
            let ghost before = list_views(lists@);
            lists.push(self.lists[i].clone());
            i += 1;
            assert(list_views(lists@) =~= before.push(self.lists@[i - 1]@));
            assert(list_views(lists@) =~= list_views(self.lists@).take(i as int));
        }
        assert(list_views(self.lists@).take(i as int) =~= list_views(self.lists@));
        TodoListCollection { lists }
    }
}

} // verus!
