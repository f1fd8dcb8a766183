//! Writing lists and entries as text.
//!
//! A list is written as its title and a colon on one line, then one line for
//! each entry: `[x]` or `[ ]`, a space, and the entry's text.

use vstd::prelude::*;
use vstd::string::StringExecFns;
use crate::todo::{ListView, Todo, TodoList, TodoListCollection, TodoStatus, TodoView};

verus! {

/// The line that stands for `item`.
pub open spec fn item_line(item: TodoView) -> Seq<char> {
    TodoStatus::marker(item.done) + seq![' '] + item.text
}

/// The lines that stand for `items`, one for each.
pub open spec fn item_lines(items: Seq<TodoView>) -> Seq<Seq<char>> {
    Seq::new(items.len(), |i: int| item_line(items[i]))
}

/// The lines that stand for `list`: its title with a colon, then its entries.
pub open spec fn list_lines(list: ListView) -> Seq<Seq<char>> {
    seq![list.title.push(':')] + item_lines(list.items)
}

/// The lines that stand for `lists`, one list after the other.
pub open spec fn file_lines(lists: Seq<ListView>) -> Seq<Seq<char>>
    decreases lists.len(),
{
    if lists.len() == 0 {
        Seq::empty()
    } else {
        file_lines(lists.drop_last()) + list_lines(lists.last())
    }
}

/// `lines` as one text, a line feed after each.
pub open spec fn unlines(lines: Seq<Seq<char>>) -> Seq<char>
    decreases lines.len(),
{
    if lines.len() == 0 {
        Seq::empty()
    } else {
        lines[0].push('\n') + unlines(lines.skip(1))
    }
}

/// `lines` as one text, a line feed between each two.
pub open spec fn joined(lines: Seq<Seq<char>>) -> Seq<char>
    decreases lines.len(),
{
    if lines.len() == 0 {
        Seq::empty()
    } else if lines.len() == 1 {
        lines[0]
    } else {
        joined(lines.drop_last()).push('\n') + lines.last()
    }
}

/// The text that stands for `lists`.
pub open spec fn serialized(lists: Seq<ListView>) -> Seq<char> {
    unlines(file_lines(lists))
}

/// One more line at the end of `lines` is one more line at the end of the
/// text.
pub proof fn unlines_push(lines: Seq<Seq<char>>, line: Seq<char>)
    ensures
        unlines(lines.push(line)) == unlines(lines) + line.push('\n'),
    decreases lines.len(),
{
    if lines.len() == 0 {
        let one = lines.push(line);
        assert(one.skip(1) =~= Seq::<Seq<char>>::empty());
        assert(unlines(one.skip(1)) =~= Seq::<char>::empty());
        assert(unlines(one) =~= one[0].push('\n') + unlines(one.skip(1)));
        assert(unlines(one) =~= unlines(lines) + line.push('\n'));
    } else {
        assert(lines.push(line).skip(1) =~= lines.skip(1).push(line));
        unlines_push(lines.skip(1), line);
        assert(unlines(lines.push(line)) =~= unlines(lines) + line.push('\n'));
    }
}

impl Todo {
    /// The entry as a line of text: its marker, a space, and its text.
    pub fn to_line(&self) -> (line: String)
        ensures
            line@ == item_line(self@),
    {
        proof {
            reveal_strlit(" ");
        }
        let mut line = self.status.as_str().to_owned();
        line.append(" ");
        line.append(self.data.as_str());
        assert(line@ =~= item_line(self@));
        line
    }
}

impl TodoListCollection {
    /// The collection as text, list after list.
    pub fn serialize(&self) -> (text: String)
        ensures
            text@ == serialized(self@),
    {
        let mut text = String::new();
        let ghost mut written: Seq<Seq<char>> = Seq::empty();
        let mut i: usize = 0;
        assert(self@.take(0) =~= Seq::<ListView>::empty());
        while i < self.lists.len()
            invariant
                i <= self.lists.len(),
                text@ == unlines(written),
                written == file_lines(self@.take(i as int)),
            decreases self.lists.len() - i,
        {
            let list = &self.lists[i];
            let ghost head = written;
            proof {
                reveal_strlit(":\n");
                unlines_push(written, list@.title.push(':'));
                written = written.push(list@.title.push(':'));
            }
            text.append(list.title.as_str());
            text.append(":\n");
            assert(text@ =~= unlines(written));
            let mut j: usize = 0;
            assert(written =~= head + (seq![list@.title.push(':')] + item_lines(list@.items.take(0))));
            while j < list.data.len()
                invariant
                    j <= list.data.len(),
                    text@ == unlines(written),
                    written == head + (seq![list@.title.push(':')] + item_lines(list@.items.take(j as int))),
                decreases list.data.len() - j,
            {
                let line = list.data[j].to_line();
                let ghost body = written;
                proof {
                    reveal_strlit("\n");
                    unlines_push(written, line@);
                    written = written.push(line@);
                }
                text.append(line.as_str());
                text.append("\n");
                assert(text@ =~= unlines(written));
                j += 1;
                assert(item_lines(list@.items.take(j as int)) =~= item_lines(list@.items.take(j - 1)).push(
                    line@,
                ));
                assert(written =~= head + (seq![list@.title.push(':')] + item_lines(
                    list@.items.take(j as int),
                )));
            }
            i += 1;
            proof {
                assert(list@.items.take(j as int) =~= list@.items);
                assert(self@.take(i as int).drop_last() =~= self@.take(i - 1));
                assert(self@.take(i as int).last() == list@);
            }
        }
        assert(self@.take(i as int) =~= self@);
        text
    }
}

/// The entries of `contents` as text, one a line, a line feed between each
/// two.
pub fn collect_todos(contents: TodoList) -> (text: String)
    ensures
        text@ == joined(item_lines(contents@.items)),
{
    let mut text = String::new();
    let mut i: usize = 0;
    assert(item_lines(contents@.items.take(0)) =~= Seq::<Seq<char>>::empty());
    while i < contents.data.len()
        invariant
            i <= contents.data.len(),
            text@ == joined(item_lines(contents@.items.take(i as int))),
        decreases contents.data.len() - i,
    {
        let ghost before = item_lines(contents@.items.take(i as int));
        if i > 0 {
            proof {
                reveal_strlit("\n");
            }
            text.append("\n");
        }
        let line = contents.data[i].to_line();
        text.append(line.as_str());
        i += 1;
        proof {
            let after = item_lines(contents@.items.take(i as int));
            assert(after =~= before.push(line@));
            assert(after.drop_last() =~= before);
            assert(text@ =~= joined(after));
        }
    }
    assert(contents@.items.take(i as int) =~= contents@.items);
    text
}

} // verus!
