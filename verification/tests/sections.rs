use doxygen_rs::ast::{Param, ParsedDoxygen};
use doxygen_rs::generator::text::strip_line;
use doxygen_rs::generator::{
    push_block, push_brief, push_bullet, push_deprecated, push_description, push_joined,
    push_notes, push_params, push_return_values, push_returns, push_title, push_todos,
    push_warnings,
};

fn list(entries: &[&str]) -> Vec<String> {
    entries.iter().map(|e| e.to_string()).collect()
}

#[test]
fn strip_line_removes_a_leading_marker() {
    assert_eq!(strip_line("< indented note"), "indented note");
}

#[test]
fn strip_line_keeps_text_without_marker() {
    assert_eq!(strip_line("a <b> c<"), "a <b> c<");
    assert_eq!(strip_line(""), "");
    assert_eq!(strip_line("<"), "<");
    assert_eq!(strip_line(" "), " ");
}

#[test]
fn strip_line_removes_every_marker() {
    assert_eq!(strip_line("< < < "), "");
    assert_eq!(strip_line("a< b< c"), "abc");
    assert_eq!(strip_line("x <  y"), "x  y");
}

#[test]
fn strip_line_reads_once_from_the_left() {
    assert_eq!(strip_line("<<  "), "< ");
    assert_eq!(strip_line("<< x"), "<x");
    assert_eq!(strip_line("<<<"), "<<<");
}

#[test]
fn strip_line_agrees_with_replace() {
    for line in ["< a", "a < b", "<<  <", "<  < ", "no marker", "<\t< \n", "é< ü"] {
        assert_eq!(strip_line(line), line.replace("< ", ""));
    }
}

#[test]
fn push_joined_appends_after_what_is_there() {
    let mut out = String::from("start:");
    push_joined(&mut out, &list(&["a", "b"]), ", ");
    assert_eq!(out, "start:a, b, ");
    push_joined(&mut out, &list(&[]), ", ");
    assert_eq!(out, "start:a, b, ");
}

#[test]
fn push_block_writes_header_lines_and_blank_line() {
    let mut out = String::from("x");
    push_block(&mut out, "H\n", &list(&["1", "2"]));
    assert_eq!(out, "xH\n1\n2\n\n");
}

#[test]
fn push_bullet_writes_no_line_end() {
    let mut out = String::new();
    let param = Param {
        arg_name: "n".to_string(),
        direction: None,
        description: Some("count".to_string()),
    };
    push_bullet(&param, &mut out);
    assert_eq!(out, "* `n` - count");
}

#[test]
fn writers_say_whether_they_wrote() {
    let doc = ParsedDoxygen {
        title: Some("T".to_string()),
        warnings: Some(Vec::new()),
        notes: Some(Vec::new()),
        ..ParsedDoxygen::default()
    };
    let mut out = String::new();
    assert!(push_title(&doc, &mut out));
    assert_eq!(out, "# T\n\n");
    assert!(!push_deprecated(&doc, &mut out));
    assert!(!push_brief(&doc, &mut out));
    assert!(!push_description(&doc, &mut out));
    assert!(!push_warnings(&doc, &mut out));
    assert!(!push_returns(&doc, &mut out));
    assert!(!push_params(&doc, &mut out));
    assert!(!push_return_values(&doc, &mut out));
    assert_eq!(out, "# T\n\n");
    assert!(push_notes(&doc, &mut out));
    assert_eq!(out, "# T\n\n# Notes\n\n\n");
    assert!(!push_todos(&doc, &mut out));
    assert_eq!(out, "# T\n\n# Notes\n\n\n");
}

#[test]
fn writers_append_to_the_buffer() {
    let doc = ParsedDoxygen {
        brief: Some("b".to_string()),
        warnings: Some(list(&["w"])),
        ..ParsedDoxygen::default()
    };
    let mut out = String::from(">");
    assert!(push_warnings(&doc, &mut out));
    assert!(push_brief(&doc, &mut out));
    assert_eq!(out, ">**Warning!**\n\nw\n\nb\n\n");
}
