//! What each section of a documentation comment looks like as text, and what the
//! whole comment looks like: the sections one after the other, in a fixed order.

use crate::ast::{DeprecatedView, DoxygenView, ParamView};
use crate::generator::text::strip_marker;
use vstd::prelude::*;

verus! {

/// The text without characters.
pub open spec fn nothing() -> Seq<char> {
    Seq::<char>::empty()
}

/// Every entry followed by `end`, in the order of `entries`.
pub open spec fn joined(entries: Seq<Seq<char>>, end: Seq<char>) -> Seq<char>
    decreases entries.len(),
{
    if entries.len() == 0 {
        nothing()
    } else {
        joined(entries.drop_last(), end) + entries.last() + end
    }
}

/// Joining one entry more appends that entry and `end`.
pub proof fn lemma_joined_step(entries: Seq<Seq<char>>, count: int, end: Seq<char>)
    requires
        0 <= count < entries.len(),
    ensures
        joined(entries.take(count + 1), end) == joined(entries.take(count), end) + entries[count]
            + end,
{
    let longer = entries.take(count + 1);
    assert(longer.drop_last() =~= entries.take(count));
    assert(longer.last() == entries[count]);
}

/// Every entry on a line of its own.
pub open spec fn lines(entries: Seq<Seq<char>>) -> Seq<char> {
    joined(entries, "\n"@)
}

/// Every entry without its `"< "` markers.
pub open spec fn stripped(entries: Seq<Seq<char>>) -> Seq<Seq<char>> {
    Seq::new(entries.len(), |i: int| strip_marker(entries[i]))
}

/// What stands between a parameter's name and its description.
pub open spec fn direction_clause(direction: Option<Seq<char>>) -> Seq<char> {
    match direction {
        Some(d) => " [Direction: "@ + d + "] "@,
        None => " "@,
    }
}

/// The bullet of one parameter, without the end of its line.
pub open spec fn bullet(param: ParamView) -> Seq<char> {
    "* `"@ + param.arg_name + "` -"@ + direction_clause(param.direction) + match param.description {
        Some(d) => d,
        None => nothing(),
    }
}

/// The bullets of a list of parameters, in its order.
pub open spec fn bullets(params: Seq<ParamView>) -> Seq<Seq<char>> {
    Seq::new(params.len(), |i: int| bullet(params[i]))
}

/// The heading line with the title, and a blank line.
pub open spec fn title_section(title: Option<Seq<char>>) -> Seq<char> {
    match title {
        Some(t) => "# "@ + t + "\n\n"@,
        None => nothing(),
    }
}

/// The deprecation warning, with its message if it has one, and a blank line.
pub open spec fn deprecated_section(deprecated: Option<DeprecatedView>) -> Seq<char> {
    match deprecated {
        Some(d) => "**Warning!** This is deprecated!"@ + match d.message {
            Some(m) => " - "@ + m,
            None => nothing(),
        } + "\n\n"@,
        None => nothing(),
    }
}

/// The brief as it is, and a blank line.
pub open spec fn brief_section(brief: Option<Seq<char>>) -> Seq<char> {
    match brief {
        Some(b) => b + "\n\n"@,
        None => nothing(),
    }
}

/// The lines of the description without their `"< "` markers, and a blank line.
pub open spec fn description_section(description: Option<Seq<Seq<char>>>) -> Seq<char> {
    match description {
        Some(d) => lines(stripped(d)) + "\n"@,
        None => nothing(),
    }
}

/// The warnings under their header. A list without entries gives no text at all.
pub open spec fn warnings_section(warnings: Option<Seq<Seq<char>>>) -> Seq<char> {
    match warnings {
        Some(w) => if w.len() > 0 {
            "**Warning!**\n\n"@ + lines(w) + "\n"@
        } else {
            nothing()
        },
        None => nothing(),
    }
}

/// What is returned, under its header.
pub open spec fn returns_section(returns: Option<Seq<Seq<char>>>) -> Seq<char> {
    match returns {
        Some(r) => "Returns:\n\n"@ + lines(r) + "\n"@,
        None => nothing(),
    }
}

/// One bullet for each parameter, under the heading of the arguments.
pub open spec fn params_section(params: Option<Seq<ParamView>>) -> Seq<char> {
    match params {
        Some(p) => "# Arguments\n\n"@ + lines(bullets(p)) + "\n"@,
        None => nothing(),
    }
}

/// The return values, directly under their heading.
pub open spec fn return_values_section(return_values: Option<Seq<Seq<char>>>) -> Seq<char> {
    match return_values {
        Some(r) => "# Return values\n"@ + lines(r) + "\n"@,
        None => nothing(),
    }
}

/// The notes under their heading.
pub open spec fn notes_section(notes: Option<Seq<Seq<char>>>) -> Seq<char> {
    match notes {
        Some(n) => "# Notes\n\n"@ + lines(n) + "\n"@,
        None => nothing(),
    }
}

/// The to-dos under their heading, one directly after the other.
pub open spec fn todos_section(todos: Option<Seq<Seq<char>>>) -> Seq<char> {
    match todos {
        Some(t) => "# To Do\n\n"@ + joined(t, nothing()) + "\n"@,
        None => nothing(),
    }
}

/// The whole comment: its sections in their fixed order.
pub open spec fn rendered(doc: DoxygenView) -> Seq<char> {
    title_section(doc.title) + deprecated_section(doc.deprecated) + brief_section(doc.brief)
        + description_section(doc.description) + warnings_section(doc.warnings) + returns_section(
        doc.returns,
    ) + params_section(doc.params) + return_values_section(doc.return_values) + notes_section(
        doc.notes,
    ) + todos_section(doc.todos)
}

} // verus!
