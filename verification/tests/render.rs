use doxygen_rs::ast::{Deprecated, Param, ParsedDoxygen};
use doxygen_rs::generator::generate_rustdoc;

fn texts(entries: &[&str]) -> Option<Vec<String>> {
    Some(entries.iter().map(|e| e.to_string()).collect())
}

fn full_model() -> ParsedDoxygen {
    ParsedDoxygen {
        title: Some("Title".to_string()),
        deprecated: Some(Deprecated { message: Some("gone".to_string()) }),
        brief: Some("Brief.".to_string()),
        description: texts(&["first", "< second"]),
        warnings: texts(&["careful"]),
        returns: texts(&["a number"]),
        params: Some(vec![
            Param {
                arg_name: "a".to_string(),
                direction: Some("out".to_string()),
                description: Some("result".to_string()),
            },
            Param { arg_name: "b".to_string(), direction: None, description: None },
        ]),
        return_values: texts(&["0 on success", "1 on failure"]),
        notes: texts(&["note one"]),
        todos: texts(&["finish\n", "polish"]),
    }
}

#[test]
fn empty_model_renders_nothing() {
    assert_eq!(generate_rustdoc(ParsedDoxygen::default()), "");
}

#[test]
fn title_is_a_heading_with_a_blank_line() {
    let doc = ParsedDoxygen { title: Some("Foo".to_string()), ..ParsedDoxygen::default() };
    assert_eq!(generate_rustdoc(doc), "# Foo\n\n");
}

#[test]
fn empty_title_still_gives_the_heading() {
    let doc = ParsedDoxygen { title: Some(String::new()), ..ParsedDoxygen::default() };
    assert_eq!(generate_rustdoc(doc), "# \n\n");
}

#[test]
fn deprecation_with_message() {
    let doc = ParsedDoxygen {
        deprecated: Some(Deprecated { message: Some("use foo instead".to_string()) }),
        ..ParsedDoxygen::default()
    };
    assert_eq!(generate_rustdoc(doc), "**Warning!** This is deprecated! - use foo instead\n\n");
}

#[test]
fn deprecation_without_message() {
    let doc = ParsedDoxygen {
        deprecated: Some(Deprecated { message: None }),
        ..ParsedDoxygen::default()
    };
    assert_eq!(generate_rustdoc(doc), "**Warning!** This is deprecated!\n\n");
}

#[test]
fn brief_is_verbatim() {
    let doc = ParsedDoxygen {
        brief: Some("Keeps < this and  spaces ".to_string()),
        ..ParsedDoxygen::default()
    };
    assert_eq!(generate_rustdoc(doc), "Keeps < this and  spaces \n\n");
}

#[test]
fn description_strips_the_marker() {
    let doc = ParsedDoxygen {
        description: texts(&["< indented note"]),
        ..ParsedDoxygen::default()
    };
    assert_eq!(generate_rustdoc(doc), "indented note\n\n");
}

#[test]
fn description_lines_keep_their_order() {
    let doc = ParsedDoxygen {
        description: texts(&["one", "a < b < c", "", "three"]),
        ..ParsedDoxygen::default()
    };
    assert_eq!(generate_rustdoc(doc), "one\na b c\n\nthree\n\n");
}

#[test]
fn empty_description_gives_a_blank_line() {
    let doc = ParsedDoxygen { description: texts(&[]), ..ParsedDoxygen::default() };
    assert_eq!(generate_rustdoc(doc), "\n");
}

#[test]
fn warnings_have_a_header() {
    let doc = ParsedDoxygen { warnings: texts(&["hot", "< sharp"]), ..ParsedDoxygen::default() };
    assert_eq!(generate_rustdoc(doc), "**Warning!**\n\nhot\n< sharp\n\n");
}

#[test]
fn empty_warnings_give_nothing() {
    let doc = ParsedDoxygen { warnings: texts(&[]), ..ParsedDoxygen::default() };
    assert_eq!(generate_rustdoc(doc), "");
}

#[test]
fn returns_have_a_header() {
    let doc = ParsedDoxygen { returns: texts(&["the sum"]), ..ParsedDoxygen::default() };
    assert_eq!(generate_rustdoc(doc), "Returns:\n\nthe sum\n\n");
}

#[test]
fn empty_returns_give_a_bare_header() {
    let doc = ParsedDoxygen { returns: texts(&[]), ..ParsedDoxygen::default() };
    assert_eq!(generate_rustdoc(doc), "Returns:\n\n\n");
}

#[test]
fn parameter_with_direction_and_description() {
    let doc = ParsedDoxygen {
        params: Some(vec![Param {
            arg_name: "x".to_string(),
            direction: Some("in".to_string()),
            description: Some("the value".to_string()),
        }]),
        ..ParsedDoxygen::default()
    };
    assert_eq!(generate_rustdoc(doc), "# Arguments\n\n* `x` - [Direction: in] the value\n\n");
}

#[test]
fn parameter_with_name_only() {
    let doc = ParsedDoxygen {
        params: Some(vec![Param { arg_name: "x".to_string(), direction: None, description: None }]),
        ..ParsedDoxygen::default()
    };
    assert_eq!(generate_rustdoc(doc), "# Arguments\n\n* `x` - \n\n");
}

#[test]
fn parameter_with_direction_only() {
    let doc = ParsedDoxygen {
        params: Some(vec![Param {
            arg_name: "buf".to_string(),
            direction: Some("in,out".to_string()),
            description: None,
        }]),
        ..ParsedDoxygen::default()
    };
    assert_eq!(generate_rustdoc(doc), "# Arguments\n\n* `buf` - [Direction: in,out] \n\n");
}

#[test]
fn empty_params_give_a_bare_heading() {
    let doc = ParsedDoxygen { params: Some(Vec::new()), ..ParsedDoxygen::default() };
    assert_eq!(generate_rustdoc(doc), "# Arguments\n\n\n");
}

#[test]
fn return_values_follow_their_heading_directly() {
    let doc = ParsedDoxygen { return_values: texts(&["0", "-1"]), ..ParsedDoxygen::default() };
    assert_eq!(generate_rustdoc(doc), "# Return values\n0\n-1\n\n");
}

#[test]
fn empty_return_values_give_a_bare_heading() {
    let doc = ParsedDoxygen { return_values: texts(&[]), ..ParsedDoxygen::default() };
    assert_eq!(generate_rustdoc(doc), "# Return values\n\n");
}

#[test]
fn notes_have_a_heading() {
    let doc = ParsedDoxygen { notes: texts(&["mind the gap"]), ..ParsedDoxygen::default() };
    assert_eq!(generate_rustdoc(doc), "# Notes\n\nmind the gap\n\n");
}

#[test]
fn empty_notes_give_a_bare_heading() {
    let doc = ParsedDoxygen { notes: texts(&[]), ..ParsedDoxygen::default() };
    assert_eq!(generate_rustdoc(doc), "# Notes\n\n\n");
}

#[test]
fn todos_are_not_separated() {
    let doc = ParsedDoxygen { todos: texts(&["one", "two\n", "three"]), ..ParsedDoxygen::default() };
    assert_eq!(generate_rustdoc(doc), "# To Do\n\nonetwo\nthree\n");
}

#[test]
fn empty_todos_give_a_bare_heading() {
    let doc = ParsedDoxygen { todos: texts(&[]), ..ParsedDoxygen::default() };
    assert_eq!(generate_rustdoc(doc), "# To Do\n\n\n");
}

#[test]
fn title_brief_and_one_parameter() {
    let doc = ParsedDoxygen {
        title: Some("Foo".to_string()),
        brief: Some("Does a thing.".to_string()),
        params: Some(vec![Param {
            arg_name: "x".to_string(),
            direction: None,
            description: Some("input value".to_string()),
        }]),
        ..ParsedDoxygen::default()
    };
    assert_eq!(
        generate_rustdoc(doc),
        "# Foo\n\nDoes a thing.\n\n# Arguments\n\n* `x` - input value\n\n"
    );
}

#[test]
fn all_sections_in_their_order() {
    let expected = "# Title\n\n\
        **Warning!** This is deprecated! - gone\n\n\
        Brief.\n\n\
        first\nsecond\n\n\
        **Warning!**\n\ncareful\n\n\
        Returns:\n\na number\n\n\
        # Arguments\n\n* `a` - [Direction: out] result\n* `b` - \n\n\
        # Return values\n0 on success\n1 on failure\n\n\
        # Notes\n\nnote one\n\n\
        # To Do\n\nfinish\npolish\n";
    assert_eq!(generate_rustdoc(full_model()), expected);
}

#[test]
fn order_holds_for_a_subset() {
    let doc = ParsedDoxygen {
        title: None,
        brief: None,
        warnings: None,
        params: None,
        notes: None,
        ..full_model()
    };
    let expected = "**Warning!** This is deprecated! - gone\n\n\
        first\nsecond\n\n\
        Returns:\n\na number\n\n\
        # Return values\n0 on success\n1 on failure\n\n\
        # To Do\n\nfinish\npolish\n";
    assert_eq!(generate_rustdoc(doc), expected);
}

#[test]
fn rendering_twice_gives_the_same_text() {
    let doc = full_model();
    let first = generate_rustdoc(doc.clone());
    let second = generate_rustdoc(doc);
    assert_eq!(first, second);
}

#[test]
fn text_outside_ascii_is_kept() {
    let doc = ParsedDoxygen {
        title: Some("Größe".to_string()),
        description: texts(&["< ∑ über < alle"]),
        ..ParsedDoxygen::default()
    };
    assert_eq!(generate_rustdoc(doc), "# Größe\n\n∑ über alle\n\n");
}
