use redo::parser::{is_collection, is_valid, load, parse, parse_collection, parse_todo};
use redo::text::{is_space, to_chars, trim_range};
use redo::todo::TodoStatus;

#[test]
fn parse_collection_test() {
    let content = "[workouts]:
        [ ] urmom";
    let collection = parse_collection(content).expect("");
    assert!(collection.lists.len() == 1);
}

#[test]
fn test_deserialize() {
    let data = "[x] asdwasd
        [x] wehadhkjs
        [ ] urmom
        [ ]
        ";

    let res = parse(data).expect("");
    assert!(!res.data.is_empty());
}

#[test]
fn parse_collection_reads_titles_texts_and_flags() {
    let content = "[workouts]:\n        [ ] urmom\n[x] run \n\n[food]:\r\n[x]\n[ ]   bread and butter  ";
    let collection = parse_collection(content).unwrap();
    assert_eq!(collection.lists.len(), 2);
    assert_eq!(collection.lists[0].title, "[workouts]");
    assert_eq!(collection.lists[0].data.len(), 2);
    assert_eq!(collection.lists[0].data[0].data, "urmom");
    assert_eq!(collection.lists[0].data[0].status, TodoStatus::Incomplete);
    assert_eq!(collection.lists[0].data[1].data, "run");
    assert_eq!(collection.lists[0].data[1].status, TodoStatus::Complete);
    assert_eq!(collection.lists[1].title, "[food]");
    assert_eq!(collection.lists[1].data.len(), 2);
    assert_eq!(collection.lists[1].data[0].data, "");
    assert_eq!(collection.lists[1].data[0].status, TodoStatus::Complete);
    assert_eq!(collection.lists[1].data[1].data, "bread and butter");
    assert_eq!(collection.lists[1].data[1].status, TodoStatus::Incomplete);
}

#[test]
fn parse_collection_rejects_an_empty_text() {
    let error = parse_collection("").unwrap_err();
    assert_eq!(error, "Could not parse because contents was empty");
}

#[test]
fn parse_collection_passes_over_what_comes_before_the_first_list() {
    let collection = parse_collection("notes\n[x] stray\n\n[a]:\n[ ] kept\nnoise\n").unwrap();
    assert_eq!(collection.lists.len(), 1);
    assert_eq!(collection.lists[0].title, "[a]");
    assert_eq!(collection.lists[0].data.len(), 1);
    assert_eq!(collection.lists[0].data[0].data, "kept");
    let none = parse_collection("just text\n[x] stray").unwrap();
    assert_eq!(none.lists.len(), 0);
}

#[test]
fn a_line_that_opens_a_list_is_no_entry() {
    let collection = parse_collection("[a]:\n[x]:\n[ ] b]:\n[ ] c").unwrap();
    assert_eq!(collection.lists.len(), 3);
    assert_eq!(collection.lists[0].title, "[a]");
    assert_eq!(collection.lists[0].data.len(), 0);
    assert_eq!(collection.lists[1].title, "[x]");
    assert_eq!(collection.lists[1].data.len(), 0);
    assert_eq!(collection.lists[2].title, "[ ] b]");
    assert_eq!(collection.lists[2].data.len(), 1);
    assert_eq!(collection.lists[2].data[0].data, "c");
}

#[test]
fn the_shortest_bracketed_line_opens_no_list() {
    let collection = parse_collection("[]:\n[a]:\n[]:").unwrap();
    assert_eq!(collection.lists.len(), 1);
    assert_eq!(collection.lists[0].title, "[a]");
}

#[test]
fn load_gives_an_empty_collection_for_an_empty_file() {
    assert_eq!(load("").lists.len(), 0);
    assert_eq!(load("\n\n").lists.len(), 0);
    let loaded = load("[a]:\n[x] b\n");
    assert_eq!(loaded.lists.len(), 1);
    assert_eq!(loaded.lists[0].data.len(), 1);
}

#[test]
fn parse_todo_reads_marker_and_text() {
    let done = parse_todo("[x]   buy milk \t").unwrap();
    assert_eq!(done.data, "buy milk");
    assert_eq!(done.status, TodoStatus::Complete);
    let open = parse_todo("[ ]x").unwrap();
    assert_eq!(open.data, "x");
    assert_eq!(open.status, TodoStatus::Incomplete);
    let bare = parse_todo("[ ]").unwrap();
    assert_eq!(bare.data, "");
    let wide = parse_todo("[x]\u{3000}\u{a0}caf\u{e9}\u{2003}\u{85}").unwrap();
    assert_eq!(wide.data, "caf\u{e9}");
}

#[test]
fn parse_todo_rejects_other_lines() {
    assert!(parse_todo("").is_none());
    assert!(parse_todo("[x").is_none());
    assert!(parse_todo(" [x] indented").is_none());
    assert!(parse_todo("[X] capital").is_none());
    assert!(parse_todo("[]] bracket").is_none());
    assert!(parse_todo("(x) round").is_none());
    assert!(parse_todo("[x) mixed").is_none());
    assert!(parse_todo("\u{e9}a").is_none());
}

#[test]
fn is_valid_looks_at_three_characters() {
    assert!(is_valid("[x]"));
    assert!(is_valid("[ ]"));
    assert!(is_valid("[x]anything"));
    assert!(!is_valid("[y]"));
    assert!(!is_valid("[]"));
    assert!(!is_valid(""));
    assert!(!is_valid("x[x]"));
}

#[test]
fn is_collection_wants_brackets_and_a_colon() {
    assert!(is_collection("[a]:"));
    assert!(is_collection("[Groceries]:"));
    assert!(is_collection("[ ] text]:"));
    assert!(!is_collection("[]:"));
    assert!(!is_collection("[a]"));
    assert!(!is_collection("a]:"));
    assert!(!is_collection("[a]: "));
    assert!(!is_collection(""));
}

#[test]
fn parse_reads_the_entries_of_one_list() {
    let list = parse("[x] one\nskip me\n[ ] two\r\n  [x] indented\n[ ]").unwrap();
    assert_eq!(list.title, "");
    assert_eq!(list.data.len(), 3);
    assert_eq!(list.data[0].data, "one");
    assert_eq!(list.data[0].status, TodoStatus::Complete);
    assert_eq!(list.data[1].data, "two");
    assert_eq!(list.data[1].status, TodoStatus::Incomplete);
    assert_eq!(list.data[2].data, "");
}

#[test]
fn parse_agrees_with_the_lines_of_the_standard_library() {
    let content = "[x] a\r\n[ ] b\n\n[x]\r\n[ ] \rc\r\n";
    let list = parse(content).unwrap();
    let expected: Vec<String> = content
        .lines()
        .filter(|line| is_valid(line))
        .map(|line| line[3..].trim().to_string())
        .collect();
    let found: Vec<String> = list.data.iter().map(|todo| todo.data.clone()).collect();
    assert_eq!(found, expected);
    assert_eq!(found.len(), 4);
}

#[test]
fn parse_says_why_it_failed() {
    assert_eq!(parse("").unwrap_err(), "Could not parse because contents was empty");
    assert_eq!(
        parse("hello\n[x] late").unwrap_err(),
        "Could not parse because contents was invalid: hello\n[x] late"
    );
    assert_eq!(parse("\n[x] a").unwrap_err(), "Could not parse because contents was invalid: \n[x] a");
}

#[test]
fn white_space_is_what_the_standard_library_calls_white_space() {
    let mut code: u32 = 0;
    while code <= 0x10FFFF {
        if let Some(c) = char::from_u32(code) {
            assert_eq!(is_space(c), c.is_whitespace(), "U+{:04X}", code);
        }
        code += 1;
    }
}

#[test]
fn trimming_agrees_with_the_standard_library() {
    for text in ["", " ", "a", "  a  ", "\t\na b\r\n", "\u{2000}x\u{3000}", " \u{1680} ", "no space", "\u{feff} a"] {
        let chars = to_chars(text);
        assert_eq!(chars, text.chars().collect::<Vec<char>>());
        let (start, end) = trim_range(&chars, 0, chars.len());
        let found: String = chars[start..end].iter().collect();
        assert_eq!(found, text.trim());
    }
}
