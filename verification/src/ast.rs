//! The documentation model: one documentation comment, split into its sections.
//!
//! Every section is optional. An absent section is `None`; a present one keeps the
//! order of its entries.

use vstd::prelude::*;

verus! {

/// A deprecation notice, with or without a message.
#[derive(Clone, Debug, Default, PartialEq, Eq)]
pub struct Deprecated {
    pub message: Option<String>,
}

/// One documented parameter.
#[derive(Clone, Debug, Default, PartialEq, Eq)]
pub struct Param {
    pub arg_name: String,
    pub direction: Option<String>,
    pub description: Option<String>,
}

/// A parsed documentation comment.
#[derive(Clone, Debug, Default, PartialEq, Eq)]
pub struct ParsedDoxygen {
    pub title: Option<String>,
    pub deprecated: Option<Deprecated>,
    pub brief: Option<String>,
    pub description: Option<Vec<String>>,
    pub warnings: Option<Vec<String>>,
    pub returns: Option<Vec<String>>,
    pub params: Option<Vec<Param>>,
    pub return_values: Option<Vec<String>>,
    pub notes: Option<Vec<String>>,
    pub todos: Option<Vec<String>>,
}

/// The characters of an optional text.
pub open spec fn text_of(text: Option<String>) -> Option<Seq<char>> {
    match text {
        Some(t) => Some(t@),
        None => None,
    }
}

/// The texts of a list, in its order.
pub open spec fn texts(list: Seq<String>) -> Seq<Seq<char>> {
    Seq::new(list.len(), |i: int| list[i]@)
}

/// The texts of an optional list.
pub open spec fn texts_of(list: Option<Vec<String>>) -> Option<Seq<Seq<char>>> {
    match list {
        Some(l) => Some(texts(l@)),
        None => None,
    }
}

/// What a [`Deprecated`] holds.
pub ghost struct DeprecatedView {
    pub message: Option<Seq<char>>,
}

/// What a [`Param`] holds.
pub ghost struct ParamView {
    pub arg_name: Seq<char>,
    pub direction: Option<Seq<char>>,
    pub description: Option<Seq<char>>,
}

/// What a [`ParsedDoxygen`] holds.
pub ghost struct DoxygenView {
    pub title: Option<Seq<char>>,
    pub deprecated: Option<DeprecatedView>,
    pub brief: Option<Seq<char>>,
    pub description: Option<Seq<Seq<char>>>,
    pub warnings: Option<Seq<Seq<char>>>,
    pub returns: Option<Seq<Seq<char>>>,
    pub params: Option<Seq<ParamView>>,
    pub return_values: Option<Seq<Seq<char>>>,
    pub notes: Option<Seq<Seq<char>>>,
    pub todos: Option<Seq<Seq<char>>>,
}

impl View for Deprecated {
    type V = DeprecatedView;

    open spec fn view(&self) -> DeprecatedView {
        DeprecatedView { message: text_of(self.message) }
    }
}

impl View for Param {
    type V = ParamView;

    open spec fn view(&self) -> ParamView {
        ParamView {
            arg_name: self.arg_name@,
            direction: text_of(self.direction),
            description: text_of(self.description),
        }
    }
}

/// The parameters of a list, in its order.
pub open spec fn params(list: Seq<Param>) -> Seq<ParamView> {
    Seq::new(list.len(), |i: int| list[i]@)
}

impl View for ParsedDoxygen {
    type V = DoxygenView;

    open spec fn view(&self) -> DoxygenView {
        DoxygenView {
            title: text_of(self.title),
            deprecated: match self.deprecated {
                Some(d) => Some(d@),
                None => None,
            },
            brief: text_of(self.brief),
            description: texts_of(self.description),
            warnings: texts_of(self.warnings),
            returns: texts_of(self.returns),
            params: match self.params {
                Some(p) => Some(params(p@)),
                None => None,
            },
            return_values: texts_of(self.return_values),
            notes: texts_of(self.notes),
            todos: texts_of(self.todos),
        }
    }
}

} // verus!
