//! What is written can be read back.

use vstd::prelude::*;
use crate::parser::{collection_of, is_header_line, item_of, read_line, read_lines};
use crate::text::{is_whitespace, line_len, lines, trim, trim_end, trim_start};
use crate::todo::{ListView, TodoStatus, TodoView};
use crate::writer::{file_lines, item_line, item_lines, list_lines, serialized, unlines};

verus! {

/// A title that survives writing and reading: on one line, in square
/// brackets, with something between them.
pub open spec fn writable_title(title: Seq<char>) -> bool {
    &&& title.len() >= 3
    &&& title[0] == '['
    &&& title.last() == ']'
    &&& !title.contains('\n')
}

/// A text that survives writing and reading: on one line, without white
/// space at either end, and not ending in `]:`, which would open a list.
pub open spec fn writable_text(text: Seq<char>) -> bool {
    &&& !text.contains('\n')
    &&& trim(text) == text
    &&& !(text.len() >= 2 && text[text.len() - 2] == ']' && text.last() == ':')
}

/// A list whose title and texts survive writing and reading.
pub open spec fn writable_list(list: ListView) -> bool {
    &&& writable_title(list.title)
    &&& forall|j: int| 0 <= j < list.items.len() ==> writable_text(#[trigger] list.items[j].text)
}

/// A collection whose lists survive writing and reading.
pub open spec fn writable(lists: Seq<ListView>) -> bool {
    forall|i: int| 0 <= i < lists.len() ==> writable_list(#[trigger] lists[i])
}

/// Trimming at the start never adds, and takes away where the text starts
/// with white space.
proof fn trim_start_len(s: Seq<char>)
    ensures
        trim_start(s).len() <= s.len(),
        s.len() > 0 && is_whitespace(s[0]) ==> trim_start(s).len() < s.len(),
    decreases s.len(),
{
    if s.len() > 0 && is_whitespace(s[0]) {
        trim_start_len(s.skip(1));
    }
}

/// Trimming at the end never adds, and takes away where the text ends with
/// white space.
proof fn trim_end_len(s: Seq<char>)
    ensures
        trim_end(s).len() <= s.len(),
        s.len() > 0 && is_whitespace(s.last()) ==> trim_end(s).len() < s.len(),
    decreases s.len(),
{
    if s.len() > 0 && is_whitespace(s.last()) {
        trim_end_len(s.drop_last());
    }
}

/// A text that trimming leaves alone has no white space at either end.
proof fn trimmed_ends(text: Seq<char>)
    requires
        text.len() > 0,
        trim(text) == text,
    ensures
        !is_whitespace(text[0]),
        !is_whitespace(text.last()),
{
    trim_start_len(text);
    trim_end_len(trim_start(text));
    trim_end_len(text);
}

/// A line that is cut at the first line feed: where the text before a line
/// feed has none itself, the line is that text.
proof fn line_len_of_first(first: Seq<char>, rest: Seq<char>)
    requires
        !first.contains('\n'),
    ensures
        line_len(first.push('\n') + rest) == first.len(),
    decreases first.len(),
{
    let s = first.push('\n') + rest;
    if first.len() == 0 {
        assert(s[0] == '\n');
    } else {
        assert(s[0] == first[0]);
        assert(first.contains(first[0]));
        let tail = first.skip(1);
        assert forall|c: char| tail.contains(c) implies first.contains(c) by {
            let i = choose|i: int| 0 <= i < tail.len() && tail[i] == c;
            assert(first[i + 1] == c);
        }
        line_len_of_first(tail, rest);
        assert(s.skip(1) =~= tail.push('\n') + rest);
    }
}

/// Lines that hold no line feed come back when their text is cut into
/// lines, followed by the empty piece behind the last line feed.
proof fn lines_of_unlines(written: Seq<Seq<char>>)
    requires
        forall|i: int| 0 <= i < written.len() ==> !(#[trigger] written[i]).contains('\n'),
    ensures
        lines(unlines(written)) == written.push(Seq::empty()),
    decreases written.len(),
{
    let text = unlines(written);
    if written.len() == 0 {
        assert(lines(text) =~= written.push(Seq::empty()));
    } else {
        let first = written[0];
        let rest = unlines(written.skip(1));
        line_len_of_first(first, rest);
        assert(text.take(first.len() as int) =~= first);
        assert(text.skip(first.len() as int + 1) =~= rest);
        assert forall|i: int| 0 <= i < written.skip(1).len() implies !(#[trigger] written.skip(1)[i]).contains(
            '\n',
        ) by {
            assert(written.skip(1)[i] == written[i + 1]);
        }
        lines_of_unlines(written.skip(1));
        assert(lines(text) =~= written.push(Seq::empty()));
    }
}

/// Reading lines one after the other is reading the first ones, then the
/// others.
proof fn read_lines_split(lists: Seq<ListView>, first: Seq<Seq<char>>, then: Seq<Seq<char>>)
    ensures
        read_lines(lists, first + then) == read_lines(read_lines(lists, first), then),
    decreases first.len(),
{
    if first.len() == 0 {
        assert(first + then =~= then);
    } else {
        assert((first + then).skip(1) =~= first.skip(1) + then);
        read_lines_split(read_line(lists, first[0]), first.skip(1), then);
    }
}

/// The line of a title opens a list with that title.
proof fn read_title(lists: Seq<ListView>, title: Seq<char>)
    requires
        writable_title(title),
    ensures
        read_line(lists, title.push(':')) == lists.push(ListView { title, items: Seq::empty() }),
{
    let line = title.push(':');
    assert(trim_start(line) == line);
    assert(trim_end(line) == line);
    assert(line.drop_last() =~= title);
}

/// The line of an entry adds that entry to the latest list.
proof fn read_item(lists: Seq<ListView>, item: TodoView)
    requires
        lists.len() > 0,
        writable_text(item.text),
    ensures
        read_line(lists, item_line(item)) == lists.update(lists.len() - 1, lists.last().with(item)),
{
    let marker = TodoStatus::marker(item.done);
    let line = item_line(item);
    assert(trim_start(line) == line);
    if item.text.len() == 0 {
        assert(line.drop_last() =~= marker);
        assert(trim_end(marker) == marker);
        assert(trim_end(line) == marker);
        assert(marker.skip(3) =~= Seq::<char>::empty());
        assert(trim(marker.skip(3)) =~= item.text);
        assert(item_of(marker) == Some(item));
    } else {
        trimmed_ends(item.text);
        assert(line.last() == item.text.last());
        assert(trim_end(line) == line);
        let tail = line.skip(3);
        assert(tail =~= seq![' '] + item.text);
        assert(tail.skip(1) =~= item.text);
        assert(trim_start(item.text) == item.text);
        assert(trim_start(tail) == item.text);
        assert(trim_end(item.text) == item.text);
        if item.text.len() >= 2 {
            assert(line[line.len() - 2] == item.text[item.text.len() - 2]);
        } else {
            assert(line[line.len() - 2] == ' ');
        }
        assert(!is_header_line(line));
        assert(item_of(line) == Some(item));
    }
}

/// The lines of entries add those entries to the latest list.
proof fn read_items(lists: Seq<ListView>, items: Seq<TodoView>)
    requires
        lists.len() > 0,
        forall|j: int| 0 <= j < items.len() ==> writable_text(#[trigger] items[j].text),
    ensures
        read_lines(lists, item_lines(items)) == lists.update(
            lists.len() - 1,
            ListView { title: lists.last().title, items: lists.last().items + items },
        ),
    decreases items.len(),
{
    let last = lists.len() - 1;
    if items.len() == 0 {
        assert(lists.last().items + items =~= lists.last().items);
        assert(lists.update(last, ListView { title: lists.last().title, items: lists.last().items }) =~= lists);
    } else {
        read_item(lists, items[0]);
        let next = read_line(lists, item_lines(items)[0]);
        assert(item_lines(items).skip(1) =~= item_lines(items.skip(1)));
        assert forall|j: int| 0 <= j < items.skip(1).len() implies writable_text(
            #[trigger] items.skip(1)[j].text,
        ) by {
            assert(items.skip(1)[j] == items[j + 1]);
        }
        read_items(next, items.skip(1));
        assert(lists.last().items.push(items[0]) + items.skip(1) =~= lists.last().items + items);
        assert(read_lines(lists, item_lines(items)) =~= lists.update(
            last,
            ListView { title: lists.last().title, items: lists.last().items + items },
        ));
    }
}

/// The lines of a list add that list.
proof fn read_list(lists: Seq<ListView>, list: ListView)
    requires
        writable_list(list),
    ensures
        read_lines(lists, list_lines(list)) == lists.push(list),
{
    let opened = lists.push(ListView { title: list.title, items: Seq::empty() });
    read_title(lists, list.title);
    read_lines_split(lists, seq![list.title.push(':')], item_lines(list.items));
    let head = seq![list.title.push(':')];
    assert(head.skip(1) =~= Seq::<Seq<char>>::empty());
    assert(read_lines(read_line(lists, head[0]), head.skip(1)) == opened);
    assert(read_lines(lists, head) == opened);
    read_items(opened, list.items);
    assert(Seq::<TodoView>::empty() + list.items =~= list.items);
    assert(opened.update(opened.len() - 1, list) =~= lists.push(list));
}

/// The lines of a collection give that collection.
proof fn read_file(lists: Seq<ListView>)
    requires
        writable(lists),
    ensures
        read_lines(Seq::empty(), file_lines(lists)) == lists,
    decreases lists.len(),
{
    if lists.len() == 0 {
        assert(lists =~= Seq::<ListView>::empty());
    } else {
        let front = lists.drop_last();
        assert forall|i: int| 0 <= i < front.len() implies writable_list(#[trigger] front[i]) by {
            assert(front[i] == lists[i]);
        }
        read_file(front);
        read_lines_split(Seq::empty(), file_lines(front), list_lines(lists.last()));
        read_list(front, lists.last());
        assert(front.push(lists.last()) =~= lists);
    }
}

/// No line of a collection that can be written holds a line feed.
proof fn file_lines_are_lines(lists: Seq<ListView>)
    requires
        writable(lists),
    ensures
        forall|i: int| 0 <= i < file_lines(lists).len() ==> !(#[trigger] file_lines(lists)[i]).contains('\n'),
    decreases lists.len(),
{
    if lists.len() > 0 {
        let front = lists.drop_last();
        let list = lists.last();
        assert forall|i: int| 0 <= i < front.len() implies writable_list(#[trigger] front[i]) by {
            assert(front[i] == lists[i]);
        }
        file_lines_are_lines(front);
        let written = file_lines(lists);
        let before = file_lines(front).len();
        assert forall|i: int| 0 <= i < written.len() implies !(#[trigger] written[i]).contains('\n') by {
            if i < before {
                assert(written[i] == file_lines(front)[i]);
            } else {
                let line = list_lines(list)[i - before];
                assert(written[i] == line);
                if line.contains('\n') {
                    let k = choose|k: int| 0 <= k < line.len() && line[k] == '\n';
                    if i == before {
                        assert(line == list.title.push(':'));
                        assert(list.title[k] == '\n');
                        assert(list.title.contains('\n'));
                    } else {
                        let item = list.items[i - before - 1];
                        assert(line == item_line(item));
                        assert(writable_text(item.text));
                        assert(item.text[k - 4] == '\n');
                        assert(item.text.contains('\n'));
                    }
                }
            }
        }
    }
}

/// Round trip: a collection whose titles and texts can be written comes back
/// from its text as it was, with every title, text and flag in its place.
pub proof fn read_back(lists: Seq<ListView>)
    requires
        writable(lists),
    ensures
        collection_of(serialized(lists)) == lists,
{
    let written = file_lines(lists);
    file_lines_are_lines(lists);
    lines_of_unlines(written);
    read_lines_split(Seq::empty(), written, seq![Seq::<char>::empty()]);
    read_file(lists);
    let tail = seq![Seq::<char>::empty()];
    assert(written.push(Seq::empty()) =~= written + tail);
    assert(trim(Seq::<char>::empty()) =~= Seq::<char>::empty());
    assert(read_line(lists, tail[0]) == lists);
    assert(tail.skip(1) =~= Seq::<Seq<char>>::empty());
    assert(read_lines(lists, tail.skip(1)) == lists);
    assert(read_lines(lists, tail) == lists);
}

} // verus!
