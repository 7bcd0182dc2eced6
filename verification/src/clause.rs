//! The clauses of a configuration, as plain values.
use vstd::prelude::*;
use crate::text::{option_view, views};

verus! {

/// What stands behind the `=` of a name-value clause.
#[derive(Clone, Debug, PartialEq, Eq)]
pub enum Value {
    /// A string literal: the text that it denotes, and the suffix written
    /// behind its closing quote, which is empty as a rule.
    Str { value: String, suffix: String },
    /// `true` or `false`.
    Bool(bool),
    /// A literal of another kind: a number, a character, a byte string.
    OtherLiteral,
    /// An expression that is no literal.
    Expression,
}

/// The mathematical value of a [`Value`].
pub enum ValueView {
    Str { value: Seq<char>, suffix: Seq<char> },
    Bool(bool),
    OtherLiteral,
    Expression,
}

impl View for Value {
    type V = ValueView;

    open spec fn view(&self) -> ValueView {
        match self {
            Value::Str { value, suffix } => ValueView::Str { value: value@, suffix: suffix@ },
            Value::Bool(b) => ValueView::Bool(*b),
            Value::OtherLiteral => ValueView::OtherLiteral,
            Value::Expression => ValueView::Expression,
        }
    }
}

/// The three forms that a clause can have.
#[derive(Clone, Debug, PartialEq, Eq)]
pub enum Shape {
    /// A bare name: `name`.
    Word,
    /// A name with a bracketed list: `name(...)`. Holds the tokens between
    /// the brackets, as text.
    List(String),
    /// A name with a value: `name = value`.
    NameValue(Value),
}

/// The mathematical value of a [`Shape`].
pub enum ShapeView {
    Word,
    List(Seq<char>),
    NameValue(ValueView),
}

impl View for Shape {
    type V = ShapeView;

    open spec fn view(&self) -> ShapeView {
        match self {
            Shape::Word => ShapeView::Word,
            Shape::List(tokens) => ShapeView::List(tokens@),
            Shape::NameValue(value) => ShapeView::NameValue(value@),
        }
    }
}

/// One clause of the list, as written.
#[derive(Clone, Debug, PartialEq, Eq)]
pub struct Clause {
    /// The name in front, where it is a single identifier; `None` for a
    /// path of several segments.
    pub name: Option<String>,
    pub shape: Shape,
}

/// The mathematical value of a [`Clause`].
pub struct ClauseView {
    pub name: Option<Seq<char>>,
    pub shape: ShapeView,
}

impl View for Clause {
    type V = ClauseView;

    open spec fn view(&self) -> ClauseView {
        ClauseView { name: option_view(self.name), shape: self.shape@ }
    }
}

/// The view of what reading a clause list gave: the clauses found, or a
/// message.
pub open spec fn clauses_outcome(r: Result<Vec<Clause>, String>) -> Result<
    Seq<ClauseView>,
    Seq<char>,
> {
    match r {
        Ok(clauses) => Ok(views(clauses@)),
        Err(message) => Err(message@),
    }
}

impl ClauseView {
    /// Whether the clause is the list clause called `name`.
    pub open spec fn is_list(self, name: Seq<char>) -> bool {
        self.name == Some(name) && self.shape is List
    }

    /// Whether the clause is the name-value clause called `name`.
    pub open spec fn is_name_value(self, name: Seq<char>) -> bool {
        self.name == Some(name) && self.shape is NameValue
    }
}

} // verus!
