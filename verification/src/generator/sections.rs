//! The sections of a comment by name: which of them a model has, where the text of
//! each stands in the whole, and what follows from that.

use crate::ast::{DoxygenView, ParsedDoxygen};
use crate::generator::layout::{
    brief_section, deprecated_section, description_section, notes_section, nothing,
    params_section, rendered, return_values_section, returns_section, title_section,
    todos_section, warnings_section,
};
use vstd::prelude::*;

verus! {

/// The sections, in the order in which they are written.
pub ghost enum Section {
    Title,
    Deprecated,
    Brief,
    Description,
    Warnings,
    Returns,
    Arguments,
    ReturnValues,
    Notes,
    ToDo,
}

/// How many sections there are.
pub open spec fn section_count() -> int {
    10
}

/// The place of a section among the sections, from 0.
pub open spec fn position(section: Section) -> int {
    match section {
        Section::Title => 0,
        Section::Deprecated => 1,
        Section::Brief => 2,
        Section::Description => 3,
        Section::Warnings => 4,
        Section::Returns => 5,
        Section::Arguments => 6,
        Section::ReturnValues => 7,
        Section::Notes => 8,
        Section::ToDo => 9,
    }
}

/// The section at a place.
pub open spec fn section_at(place: int) -> Section {
    if place <= 0 {
        Section::Title
    } else if place == 1 {
        Section::Deprecated
    } else if place == 2 {
        Section::Brief
    } else if place == 3 {
        Section::Description
    } else if place == 4 {
        Section::Warnings
    } else if place == 5 {
        Section::Returns
    } else if place == 6 {
        Section::Arguments
    } else if place == 7 {
        Section::ReturnValues
    } else if place == 8 {
        Section::Notes
    } else {
        Section::ToDo
    }
}

/// Whether the model has the section: its field is there, and for the warnings the
/// list has an entry too.
pub open spec fn present(doc: DoxygenView, section: Section) -> bool {
    match section {
        Section::Title => doc.title is Some,
        Section::Deprecated => doc.deprecated is Some,
        Section::Brief => doc.brief is Some,
        Section::Description => doc.description is Some,
        Section::Warnings => doc.warnings is Some && doc.warnings->0.len() > 0,
        Section::Returns => doc.returns is Some,
        Section::Arguments => doc.params is Some,
        Section::ReturnValues => doc.return_values is Some,
        Section::Notes => doc.notes is Some,
        Section::ToDo => doc.todos is Some,
    }
}

/// The text of a section.
pub open spec fn section_text(doc: DoxygenView, section: Section) -> Seq<char> {
    match section {
        Section::Title => title_section(doc.title),
        Section::Deprecated => deprecated_section(doc.deprecated),
        Section::Brief => brief_section(doc.brief),
        Section::Description => description_section(doc.description),
        Section::Warnings => warnings_section(doc.warnings),
        Section::Returns => returns_section(doc.returns),
        Section::Arguments => params_section(doc.params),
        Section::ReturnValues => return_values_section(doc.return_values),
        Section::Notes => notes_section(doc.notes),
        Section::ToDo => todos_section(doc.todos),
    }
}

/// The text of the sections before a place, one after the other.
pub open spec fn text_before(doc: DoxygenView, place: int) -> Seq<char>
    decreases place,
{
    if place <= 0 {
        nothing()
    } else {
        text_before(doc, place - 1) + section_text(doc, section_at(place - 1))
    }
}

/// Where the text of a section begins in the whole.
pub open spec fn starts_at(doc: DoxygenView, section: Section) -> int {
    text_before(doc, position(section)).len() as int
}

/// Where the text of a section ends in the whole.
pub open spec fn ends_at(doc: DoxygenView, section: Section) -> int {
    starts_at(doc, section) + section_text(doc, section).len()
}

/// The whole is the text of all the sections.
pub proof fn lemma_rendered_is_all_sections(doc: DoxygenView)
    ensures
        rendered(doc) == text_before(doc, section_count()),
{
    reveal_with_fuel(text_before, 11);
    assert(rendered(doc) =~= text_before(doc, section_count()));
}

/// A model without any field gives the empty text.
pub proof fn lemma_nothing_present(doc: DoxygenView)
    requires
        forall|section: Section| !present(doc, section),
    ensures
        rendered(doc) == nothing(),
{
    assert(!present(doc, Section::Title));
    assert(!present(doc, Section::Deprecated));
    assert(!present(doc, Section::Brief));
    assert(!present(doc, Section::Description));
    assert(!present(doc, Section::Warnings));
    assert(!present(doc, Section::Returns));
    assert(!present(doc, Section::Arguments));
    assert(!present(doc, Section::ReturnValues));
    assert(!present(doc, Section::Notes));
    assert(!present(doc, Section::ToDo));
    assert(rendered(doc) =~= nothing());
}

/// A section has text exactly where the model has the section: an absent one leaves
/// not even its heading.
pub proof fn lemma_text_iff_present(doc: DoxygenView, section: Section)
    ensures
        present(doc, section) <==> section_text(doc, section).len() > 0,
        !present(doc, section) ==> section_text(doc, section) == nothing(),
{
    reveal_strlit("\n");
    reveal_strlit("\n\n");
    reveal_strlit("# ");
    reveal_strlit("**Warning!** This is deprecated!");
    reveal_strlit("**Warning!**\n\n");
    reveal_strlit("Returns:\n\n");
    reveal_strlit("# Arguments\n\n");
    reveal_strlit("# Return values\n");
    reveal_strlit("# Notes\n\n");
    reveal_strlit("# To Do\n\n");
}

/// The text before a place begins the text before every later place.
pub proof fn lemma_text_before_grows(doc: DoxygenView, place: int, later: int)
    requires
        place <= later,
    ensures
        text_before(doc, place).len() <= text_before(doc, later).len(),
        text_before(doc, later).subrange(0, text_before(doc, place).len() as int) == text_before(
            doc,
            place,
        ),
    decreases later - place,
{
    let short = text_before(doc, place);
    let long = text_before(doc, later);
    if place == later {
        assert(long.subrange(0, short.len() as int) =~= short);
    } else if later <= 0 {
        assert(short =~= long);
        assert(long.subrange(0, short.len() as int) =~= short);
    } else {
        lemma_text_before_grows(doc, place, later - 1);
        let middle = text_before(doc, later - 1);
        assert(long == middle + section_text(doc, section_at(later - 1)));
        assert(long.subrange(0, short.len() as int) =~= middle.subrange(0, short.len() as int));
    }
}

/// The text of a section stands in the whole, from its beginning to its end.
pub proof fn lemma_section_stands(doc: DoxygenView, section: Section)
    ensures
        0 <= starts_at(doc, section) <= ends_at(doc, section) <= rendered(doc).len(),
        rendered(doc).subrange(starts_at(doc, section), ends_at(doc, section)) == section_text(
            doc,
            section,
        ),
{
    let place = position(section);
    let before = text_before(doc, place);
    let with = text_before(doc, place + 1);
    assert(section_at(place) == section);
    assert(with == before + section_text(doc, section));
    lemma_rendered_is_all_sections(doc);
    lemma_text_before_grows(doc, place + 1, section_count());
    assert(rendered(doc).subrange(starts_at(doc, section), ends_at(doc, section))
        =~= rendered(doc).subrange(0, with.len() as int).subrange(
        before.len() as int,
        with.len() as int,
    ));
    assert(with.subrange(before.len() as int, with.len() as int) =~= section_text(doc, section));
}

/// The sections stand in their order, whichever of them are present: one that comes
/// earlier in the order ends before a later one begins, and directly before it where
/// the two are neighbours. The first begins the whole and the last ends it.
pub proof fn lemma_sections_in_order(doc: DoxygenView, earlier: Section, later: Section)
    requires
        position(earlier) < position(later),
    ensures
        ends_at(doc, earlier) <= starts_at(doc, later),
        position(later) == position(earlier) + 1 ==> ends_at(doc, earlier) == starts_at(
            doc,
            later,
        ),
        starts_at(doc, Section::Title) == 0,
        ends_at(doc, Section::ToDo) == rendered(doc).len(),
{
    let place = position(earlier);
    assert(section_at(place) == earlier);
    assert(text_before(doc, place + 1) == text_before(doc, place) + section_text(doc, earlier));
    lemma_text_before_grows(doc, place + 1, position(later));
    lemma_rendered_is_all_sections(doc);
    assert(section_at(9) == Section::ToDo);
    assert(text_before(doc, 10) == text_before(doc, 9) + section_text(doc, Section::ToDo));
}

/// Models that hold the same give the same text, character for character.
pub proof fn lemma_same_model_same_text(
    first: ParsedDoxygen,
    second: ParsedDoxygen,
    first_text: String,
    second_text: String,
)
    requires
        first@ == second@,
        first_text@ == rendered(first@),
        second_text@ == rendered(second@),
    ensures
        first_text@ == second_text@,
{
}

} // verus!
