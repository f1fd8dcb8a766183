//! Reading lists and entries from text.
//!
//! An entry is a line that starts with `[x]` or `[ ]`; what follows, without
//! the white space around it, is its text. A line that starts with `[` and
//! ends with `]:` opens a list, whose title is the line without the colon.

use vstd::prelude::*;
use crate::text::{line_end, line_len, line_len_bounds, lines, string_of, to_chars, trim, trim_range};
use crate::todo::{ListView, Todo, TodoList, TodoListCollection, TodoStatus, TodoView};

verus! {

/// Whether `line` has the shape of an entry.
pub open spec fn is_item_line(line: Seq<char>) -> bool {
    &&& line.len() >= 3
    &&& line[0] == '['
    &&& (line[1] == ' ' || line[1] == 'x')
    &&& line[2] == ']'
}

/// Whether `line` opens a list.
pub open spec fn is_header_line(line: Seq<char>) -> bool {
    &&& line.len() > 3
    &&& line[0] == '['
    &&& line[line.len() - 2] == ']'
    &&& line[line.len() - 1] == ':'
}

/// The entry that `line` stands for, if it has the shape of one.
pub open spec fn item_of(line: Seq<char>) -> Option<TodoView> {
    if is_item_line(line) {
        Some(TodoView { text: trim(line.skip(3)), done: line[1] == 'x' })
    } else {
        None
    }
}

/// The entries among `lines`, in their order.
pub open spec fn items_of(lines: Seq<Seq<char>>) -> Seq<TodoView>
    decreases lines.len(),
{
    if lines.len() == 0 {
        Seq::empty()
    } else {
        match item_of(lines[0]) {
            Some(item) => seq![item] + items_of(lines.skip(1)),
            None => items_of(lines.skip(1)),
        }
    }
}

/// The lists read so far, after one more line. The white space around the
/// line does not count. A line that opens a list adds an empty list; an
/// entry goes to the latest list; any other line, and any line before the
/// first list, is passed over.
pub open spec fn read_line(lists: Seq<ListView>, line: Seq<char>) -> Seq<ListView> {
    let line = trim(line);
    if is_header_line(line) {
        lists.push(ListView { title: line.drop_last(), items: Seq::empty() })
    } else if lists.len() > 0 && item_of(line).is_some() {
        lists.update(lists.len() - 1, lists.last().with(item_of(line).unwrap()))
    } else {
        lists
    }
}

/// The lists read so far, after `lines` more lines.
pub open spec fn read_lines(lists: Seq<ListView>, lines: Seq<Seq<char>>) -> Seq<ListView>
    decreases lines.len(),
{
    if lines.len() == 0 {
        lists
    } else {
        read_lines(read_line(lists, lines[0]), lines.skip(1))
    }
}

/// The collection that `text` holds.
pub open spec fn collection_of(text: Seq<char>) -> Seq<ListView> {
    read_lines(Seq::empty(), lines(text))
}

/// What is said of an empty text.
pub open spec fn empty_message() -> Seq<char> {
    "Could not parse because contents was empty"@
}

/// What is said of a text that does not start with an entry.
pub open spec fn invalid_message(content: Seq<char>) -> Seq<char> {
    "Could not parse because contents was invalid: "@ + content
}

/// The list without a title that `content` holds: an error where it is
/// empty or does not start with an entry, else its entries.
pub open spec fn list_of(content: Seq<char>) -> Result<ListView, Seq<char>> {
    if content.len() == 0 {
        Err(empty_message())
    } else if !is_item_line(content) {
        Err(invalid_message(content))
    } else {
        Ok(ListView { title: Seq::empty(), items: items_of(lines(content)) })
    }
}

/// Whether the characters of `chars` from `from` up to `to` have the shape of
/// an entry.
fn is_item_range(chars: &Vec<char>, from: usize, to: usize) -> (valid: bool)
    requires
        from <= to <= chars@.len(),
    ensures
        valid == is_item_line(chars@.subrange(from as int, to as int)),
{
    to - from >= 3 && chars[from] == '[' && (chars[from + 1] == ' ' || chars[from + 1] == 'x')
        && chars[from + 2] == ']'
}

/// Whether the characters of `chars` from `from` up to `to` open a list.
fn is_header_range(chars: &Vec<char>, from: usize, to: usize) -> (header: bool)
    requires
        from <= to <= chars@.len(),
    ensures
        header == is_header_line(chars@.subrange(from as int, to as int)),
{
    to - from > 3 && chars[from] == '[' && chars[to - 2] == ']' && chars[to - 1] == ':'
}

/// The entry that the characters of `chars` from `from` up to `to` stand for.
fn item_in(chars: &Vec<char>, from: usize, to: usize) -> (todo: Option<Todo>)
    requires
        from <= to <= chars@.len(),
    ensures
        todo_view(todo) == item_of(chars@.subrange(from as int, to as int)),
{
    if !is_item_range(chars, from, to) {
        return None;
    }
    let ghost line = chars@.subrange(from as int, to as int);
    let status = if chars[from + 1] == 'x' {
        TodoStatus::Complete
    } else {
        TodoStatus::Incomplete
    };
    assert(line.skip(3) =~= chars@.subrange(from + 3, to as int));
    let (start, end) = trim_range(chars, from + 3, to);
    Some(Todo { data: string_of(chars, start, end), status })
}

/// What `todo` holds, if it holds an entry.
pub open spec fn todo_view(todo: Option<Todo>) -> Option<TodoView> {
    match todo {
        Some(todo) => Some(todo@),
        None => None,
    }
}

/// Whether `start` has the shape of an entry.
pub fn is_valid(start: &str) -> (valid: bool)
    ensures
        valid == is_item_line(start@),
{
    let chars = to_chars(start);
    assert(chars@.subrange(0, chars@.len() as int) =~= chars@);
    is_item_range(&chars, 0, chars.len())
}

/// Reads one entry from `line`, which must start with its marker.
pub fn parse_todo(line: &str) -> (todo: Option<Todo>)
    ensures
        todo_view(todo) == item_of(line@),
{
    let chars = to_chars(line);
    assert(chars@.subrange(0, chars@.len() as int) =~= chars@);
    item_in(&chars, 0, chars.len())
}

/// Whether `line` opens a list.
pub fn is_collection(line: &str) -> (header: bool)
    ensures
        header == is_header_line(line@),
{
    let chars = to_chars(line);
    assert(chars@.subrange(0, chars@.len() as int) =~= chars@);
    is_header_range(&chars, 0, chars.len())
}

/// What `result` holds.
pub open spec fn list_result(result: Result<TodoList, String>) -> Result<ListView, Seq<char>> {
    match result {
        Ok(list) => Ok(list@),
        Err(message) => Err(message@),
    }
}

/// What `result` holds.
pub open spec fn collection_result(result: Result<TodoListCollection, String>) -> Result<
    Seq<ListView>,
    Seq<char>,
> {
    match result {
        Ok(collection) => Ok(collection@),
        Err(message) => Err(message@),
    }
}

/// One line of `lines`, then the rest.
proof fn lines_unfold(s: Seq<char>)
    ensures
        line_len(s) <= s.len(),
        line_len(s) == s.len() ==> lines(s) == seq![s],
        line_len(s) < s.len() ==> lines(s) == seq![s.take(line_len(s) as int)] + lines(
            s.skip(line_len(s) as int + 1),
        ),
{
    line_len_bounds(s);
}

/// Reads the entries of a list without a title from `content`, one entry a
/// line. Lines that are no entries are passed over, but the text must start
/// with an entry.
pub fn parse(content: &str) -> (list: Result<TodoList, String>)
    ensures
        list_result(list) == list_of(content@),
{
    let chars = to_chars(content);
    if chars.len() == 0 {
        return Err("Could not parse because contents was empty".to_owned());
    }
    assert(chars@.subrange(0, chars@.len() as int) =~= chars@);
    if !is_item_range(&chars, 0, chars.len()) {
        let mut message = "Could not parse because contents was invalid: ".to_owned();
        message.append(content);
        return Err(message);
    }
    let mut list = TodoList::empty(String::new());
    let mut from: usize = 0;
    let mut more = true;
    assert(chars@.skip(0) =~= chars@);
    while more
        invariant
            from <= chars@.len(),
            list@.title == Seq::<char>::empty(),
            more ==> items_of(lines(chars@)) == list@.items + items_of(lines(chars@.skip(from as int))),
            !more ==> items_of(lines(chars@)) == list@.items,
        decreases chars@.len() - from + if more { 1nat } else { 0nat },
    {
        let ghost rest = chars@.skip(from as int);
        let ghost before = list@.items;
        let to = line_end(&chars, from);
        proof {
            lines_unfold(rest);
            assert(rest.take(line_len(rest) as int) =~= chars@.subrange(from as int, to as int));
            assert(lines(rest).skip(1) =~= if to < chars@.len() {
                lines(rest.skip(line_len(rest) as int + 1))
            } else {
                Seq::empty()
            });
            if to < chars@.len() {
                assert(rest.skip(line_len(rest) as int + 1) =~= chars@.skip(to + 1));
            }
        }
        if let Some(todo) = item_in(&chars, from, to) {
            list.push_todo(todo);
        }
        proof {
            let line = chars@.subrange(from as int, to as int);
            let found = match item_of(line) {
                Some(item) => seq![item],
                None => Seq::empty(),
            };
            assert(list@.items =~= before + found);
            assert(items_of(lines(rest)) =~= found + items_of(lines(rest).skip(1)));
            assert(before + (found + items_of(lines(rest).skip(1))) =~= (before + found) + items_of(
                lines(rest).skip(1),
            ));
        }
        if to < chars.len() {
            from = to + 1;
        } else {
            more = false;
            assert(items_of(Seq::<Seq<char>>::empty()) =~= Seq::<TodoView>::empty());
            assert(list@.items + Seq::<TodoView>::empty() =~= list@.items);
        }
    }
    Ok(list)
}

/// Reads a collection from `content`, line by line. An empty text is an
/// error; every other text gives a collection.
pub fn parse_collection(content: &str) -> (collection: Result<TodoListCollection, String>)
    ensures
        collection_result(collection) == if content@.len() == 0 {
            Err(empty_message())
        } else {
            Ok(collection_of(content@))
        },
{
    let chars = to_chars(content);
    if chars.len() == 0 {
        return Err("Could not parse because contents was empty".to_owned());
    }
    let mut collection = TodoListCollection::default();
    let mut from: usize = 0;
    let mut more = true;
    assert(chars@.skip(0) =~= chars@);
    while more
        invariant
            from <= chars@.len(),
            more ==> collection_of(chars@) == read_lines(collection@, lines(chars@.skip(from as int))),
            !more ==> collection_of(chars@) == collection@,
        decreases chars@.len() - from + if more { 1nat } else { 0nat },
    {
        let ghost rest = chars@.skip(from as int);
        let ghost before = collection@;
        let to = line_end(&chars, from);
        proof {
            lines_unfold(rest);
            assert(rest.take(line_len(rest) as int) =~= chars@.subrange(from as int, to as int));
            assert(lines(rest).skip(1) =~= if to < chars@.len() {
                lines(rest.skip(line_len(rest) as int + 1))
            } else {
                Seq::empty()
            });
            if to < chars@.len() {
                assert(rest.skip(line_len(rest) as int + 1) =~= chars@.skip(to + 1));
            }
        }
        let (start, end) = trim_range(&chars, from, to);
        if is_header_range(&chars, start, end) {
            assert(chars@.subrange(start as int, end as int).drop_last() =~= chars@.subrange(
                start as int,
                end - 1,
            ));
            collection.push(TodoList::empty(string_of(&chars, start, end - 1)));
        } else if collection.len() > 0 {
            if let Some(todo) = item_in(&chars, start, end) {
                let last = collection.len() - 1;
                collection.lists[last].push_todo(todo);
                assert(collection@ =~= before.update(last as int, before.last().with(todo@)));
            }
        }
        assert(collection@ == read_line(before, chars@.subrange(from as int, to as int)));
        if to < chars.len() {
            from = to + 1;
        } else {
            more = false;
            assert(read_lines(collection@, Seq::empty()) == collection@);
        }
    }
    Ok(collection)
}

/// The collection that a file with the text `content` holds. An empty file
/// holds none.
pub fn load(content: &str) -> (collection: TodoListCollection)
    ensures
        collection@ == collection_of(content@),
{
    match parse_collection(content) {
        Ok(collection) => collection,
        Err(_) => {
            proof {
                let text = content@;
                let none = Seq::<ListView>::empty();
                assert(lines(text) =~= seq![text]);
                assert(trim(text) =~= text);
                assert(read_line(none, text) == none);
                assert(lines(text).skip(1) =~= Seq::<Seq<char>>::empty());
                assert(read_lines(none, lines(text).skip(1)) == none);
                assert(collection_of(text) == none);
            }
            TodoListCollection::default()
        },
    }
}

} // verus!
