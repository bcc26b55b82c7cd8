//! Generate raw Rustdoc comments from a given [`crate::ast::ParsedDoxygen`].
//!
//! The comment is written section by section into one buffer. Each section has a
//! function of its own, which writes nothing where the section is absent and says
//! whether it wrote. [`layout`] states the text of each section.

pub mod layout;
pub mod sections;
pub mod text;

use crate::ast::{params, texts, Param, ParsedDoxygen};
use crate::generator::layout::{
    brief_section, bullet, bullets, deprecated_section, description_section, direction_clause,
    joined, lemma_joined_step, lines, notes_section, nothing, params_section, rendered, return_values_section,
    returns_section, stripped, title_section, todos_section, warnings_section,
};
use crate::generator::sections::{lemma_nothing_present, present, Section};
use crate::generator::text::strip_line;
use vstd::prelude::*;
use vstd::string::StringExecFns;

verus! {

/// Appends every entry of `entries` to `out`, each followed by `end`.
pub fn push_joined(out: &mut String, entries: &Vec<String>, end: &str)
    ensures
        final(out)@ == old(out)@ + joined(texts(entries@), end@),
{
    let ghost start = out@;
    let ghost all = texts(entries@);
    assert(out@ =~= start + joined(all.take(0), end@));
    for i in 0..entries.len()
        invariant
            all == texts(entries@),
            out@ == start + joined(all.take(i as int), end@),
    {
        out.append(entries[i].as_str());
        out.append(end);
        proof {
            lemma_joined_step(all, i as int, end@);
            assert(out@ =~= start + joined(all.take(i + 1), end@));
        }
    }
    assert(all.take(entries@.len() as int) =~= all);
}

/// Writes the title as a heading.
pub fn push_title(doxygen: &ParsedDoxygen, out: &mut String) -> (wrote: bool)
    ensures
        final(out)@ == old(out)@ + title_section(doxygen@.title),
        wrote == present(doxygen@, Section::Title),
{
    let ghost start = out@;
    match &doxygen.title {
        Some(title) => {
            out.append("# ");
            out.append(title.as_str());
            out.append("\n\n");
            assert(out@ =~= start + title_section(doxygen@.title));
            true
        },
        None => {
            assert(out@ =~= start + nothing());
            false
        },
    }
}

/// Writes the deprecation warning.
pub fn push_deprecated(doxygen: &ParsedDoxygen, out: &mut String) -> (wrote: bool)
    ensures
        final(out)@ == old(out)@ + deprecated_section(doxygen@.deprecated),
        wrote == present(doxygen@, Section::Deprecated),
{
    let ghost start = out@;
    match &doxygen.deprecated {
        Some(deprecated) => {
            out.append("**Warning!** This is deprecated!");
            match &deprecated.message {
                Some(message) => {
                    out.append(" - ");
                    out.append(message.as_str());
                },
                None => {},
            }
            out.append("\n\n");
            assert(out@ =~= start + deprecated_section(doxygen@.deprecated));
            true
        },
        None => {
            assert(out@ =~= start + nothing());
            false
        },
    }
}

/// Writes the brief.
pub fn push_brief(doxygen: &ParsedDoxygen, out: &mut String) -> (wrote: bool)
    ensures
        final(out)@ == old(out)@ + brief_section(doxygen@.brief),
        wrote == present(doxygen@, Section::Brief),
{
    let ghost start = out@;
    match &doxygen.brief {
        Some(brief) => {
            out.append(brief.as_str());
            out.append("\n\n");
            assert(out@ =~= start + brief_section(doxygen@.brief));
            true
        },
        None => {
            assert(out@ =~= start + nothing());
            false
        },
    }
}

/// Writes the description, line by line, without the `"< "` markers.
pub fn push_description(doxygen: &ParsedDoxygen, out: &mut String) -> (wrote: bool)
    ensures
        final(out)@ == old(out)@ + description_section(doxygen@.description),
        wrote == present(doxygen@, Section::Description),
{
    let ghost start = out@;
    match &doxygen.description {
        Some(description) => {
            let ghost all = stripped(texts(description@));
            assert(out@ =~= start + lines(all.take(0)));
            for i in 0..description.len()
                invariant
                    all == stripped(texts(description@)),
                    out@ == start + lines(all.take(i as int)),
            {
                let line = strip_line(description[i].as_str());
                out.append(line.as_str());
                out.append("\n");
                proof {
                    lemma_joined_step(all, i as int, "\n"@);
                    assert(out@ =~= start + lines(all.take(i + 1)));
                }
            }
            out.append("\n");
            assert(all.take(description@.len() as int) =~= all);
            assert(out@ =~= start + description_section(doxygen@.description));
            true
        },
        None => {
            assert(out@ =~= start + nothing());
            false
        },
    }
}

/// Writes `header`, the entries on a line each, and a blank line.
pub fn push_block(out: &mut String, header: &str, entries: &Vec<String>)
    ensures
        final(out)@ == old(out)@ + (header@ + lines(texts(entries@)) + "\n"@),
{
    let ghost start = out@;
    out.append(header);
    push_joined(out, entries, "\n");
    out.append("\n");
    assert(out@ =~= start + (header@ + lines(texts(entries@)) + "\n"@));
}

/// Writes the warnings, if there is at least one.
pub fn push_warnings(doxygen: &ParsedDoxygen, out: &mut String) -> (wrote: bool)
    ensures
        final(out)@ == old(out)@ + warnings_section(doxygen@.warnings),
        wrote == present(doxygen@, Section::Warnings),
{
    let ghost start = out@;
    match &doxygen.warnings {
        Some(warnings) => {
            if warnings.len() > 0 {
                push_block(out, "**Warning!**\n\n", warnings);
                true
            } else {
                assert(out@ =~= start + nothing());
                false
            }
        },
        None => {
            assert(out@ =~= start + nothing());
            false
        },
    }
}

/// Writes what is returned.
pub fn push_returns(doxygen: &ParsedDoxygen, out: &mut String) -> (wrote: bool)
    ensures
        final(out)@ == old(out)@ + returns_section(doxygen@.returns),
        wrote == present(doxygen@, Section::Returns),
{
    let ghost start = out@;
    match &doxygen.returns {
        Some(entries) => {
            push_block(out, "Returns:\n\n", entries);
            true
        },
        None => {
            assert(out@ =~= start + nothing());
            false
        },
    }
}

/// Writes the bullet of one parameter, without the end of its line.
pub fn push_bullet(param: &Param, out: &mut String)
    ensures
        final(out)@ == old(out)@ + bullet(param@),
{
    let ghost start = out@;
    out.append("* `");
    out.append(param.arg_name.as_str());
    out.append("` -");
    match &param.direction {
        Some(direction) => {
            out.append(" [Direction: ");
            out.append(direction.as_str());
            out.append("] ");
        },
        None => {
            out.append(" ");
        },
    }
    let ghost clause = direction_clause(param@.direction);
    assert(out@ =~= start + ("* `"@ + param@.arg_name + "` -"@ + clause));
    match &param.description {
        Some(description) => {
            out.append(description.as_str());
        },
        None => {},
    }
    assert(out@ =~= start + bullet(param@));
}

/// Writes the parameters, a bullet for each.
pub fn push_params(doxygen: &ParsedDoxygen, out: &mut String) -> (wrote: bool)
    ensures
        final(out)@ == old(out)@ + params_section(doxygen@.params),
        wrote == present(doxygen@, Section::Arguments),
{
    let ghost start = out@;
    match &doxygen.params {
        Some(list) => {
            let ghost all = bullets(params(list@));
            out.append("# Arguments\n\n");
            let ghost head = out@;
            assert(out@ =~= head + lines(all.take(0)));
            for i in 0..list.len()
                invariant
                    all == bullets(params(list@)),
                    head == start + "# Arguments\n\n"@,
                    out@ == head + lines(all.take(i as int)),
            {
                push_bullet(&list[i], out);
                out.append("\n");
                proof {
                    lemma_joined_step(all, i as int, "\n"@);
                    assert(out@ =~= head + lines(all.take(i + 1)));
                }
            }
            out.append("\n");
            assert(all.take(list@.len() as int) =~= all);
            assert(out@ =~= start + params_section(doxygen@.params));
            true
        },
        None => {
            assert(out@ =~= start + nothing());
            false
        },
    }
}

/// Writes the return values.
pub fn push_return_values(doxygen: &ParsedDoxygen, out: &mut String) -> (wrote: bool)
    ensures
        final(out)@ == old(out)@ + return_values_section(doxygen@.return_values),
        wrote == present(doxygen@, Section::ReturnValues),
{
    let ghost start = out@;
    match &doxygen.return_values {
        Some(return_values) => {
            push_block(out, "# Return values\n", return_values);
            true
        },
        None => {
            assert(out@ =~= start + nothing());
            false
        },
    }
}

/// Writes the notes.
pub fn push_notes(doxygen: &ParsedDoxygen, out: &mut String) -> (wrote: bool)
    ensures
        final(out)@ == old(out)@ + notes_section(doxygen@.notes),
        wrote == present(doxygen@, Section::Notes),
{
    let ghost start = out@;
    match &doxygen.notes {
        Some(notes) => {
            push_block(out, "# Notes\n\n", notes);
            true
        },
        None => {
            assert(out@ =~= start + nothing());
            false
        },
    }
}

/// Writes the to-dos, the one directly after the other.
pub fn push_todos(doxygen: &ParsedDoxygen, out: &mut String) -> (wrote: bool)
    ensures
        final(out)@ == old(out)@ + todos_section(doxygen@.todos),
        wrote == present(doxygen@, Section::ToDo),
{
    let ghost start = out@;
    match &doxygen.todos {
        Some(todos) => {
            out.append("# To Do\n\n");
            push_joined(out, todos, "");
            out.append("\n");
            proof {
                reveal_strlit("");
                assert(""@ =~= nothing());
                assert(out@ =~= start + todos_section(doxygen@.todos));
            }
            true
        },
        None => {
            assert(out@ =~= start + nothing());
            false
        },
    }
}

/// Generate raw Rustdoc comments from a given [`crate::ast::ParsedDoxygen`].
///
/// The sections come in a fixed order: title, deprecation, brief, description,
/// warnings, returns, arguments, return values, notes, to-dos. An absent section
/// leaves no trace in the text.
pub fn generate_rustdoc(doxygen: ParsedDoxygen) -> (rustdoc: String)
    ensures
        rustdoc@ == rendered(doxygen@),
        (forall|section: Section| !present(doxygen@, section)) ==> rustdoc@ == nothing(),
{
    let mut rustdoc = String::new();
    push_title(&doxygen, &mut rustdoc);
    push_deprecated(&doxygen, &mut rustdoc);
    push_brief(&doxygen, &mut rustdoc);
    push_description(&doxygen, &mut rustdoc);
    push_warnings(&doxygen, &mut rustdoc);
    push_returns(&doxygen, &mut rustdoc);
    push_params(&doxygen, &mut rustdoc);
    push_return_values(&doxygen, &mut rustdoc);
    push_notes(&doxygen, &mut rustdoc);
    push_todos(&doxygen, &mut rustdoc);
    proof {
        assert(rustdoc@ =~= rendered(doxygen@));
        if forall|section: Section| !present(doxygen@, section) {
            lemma_nothing_present(doxygen@);
        }
    }
    rustdoc
}

} // verus!
