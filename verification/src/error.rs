//! Diagnostics: what went wrong, and where in the input it points.
use vstd::prelude::*;
use vstd::string::*;

verus! {

/// The kinds of diagnostic that an expansion can end in.
#[derive(Clone, Copy, Debug, PartialEq, Eq, Structural)]
pub enum ErrorKind {
    /// The clause list, or the inside of a list clause, is malformed.
    SyntaxError,
    /// An option was given a second time.
    DuplicateOption,
    /// The value of an option has the wrong form.
    InvalidOptionValue,
    /// The option asks for what is done anyway.
    RedundantOption,
    /// Options on a function that takes no parameters.
    UnsupportedCombination,
    /// The build cannot manage a test database.
    MissingCapability,
    /// A file or directory that the configuration names cannot be read.
    IOError,
}

/// The part of the input that a diagnostic is attributed to. Clauses and
/// fixtures are counted from zero, in the order in which they were written.
#[derive(Clone, Copy, Debug, PartialEq, Eq, Structural)]
pub enum Site {
    /// The clause list as a whole.
    Arguments,
    /// A whole clause.
    Clause(usize),
    /// The name of a clause.
    ClauseName(usize),
    /// What a clause gives to its name: the literal behind `=`, or the
    /// items between the brackets.
    ClauseValue(usize),
    /// An entry of the fixture list.
    Fixture(usize),
    /// The directory of the migrations: the literal that names it, or the
    /// place of the attribute where convention names it.
    Migrations,
    /// The annotated function.
    Function,
}

/// A diagnostic. An expansion that fails yields exactly one.
#[derive(Clone, Debug, PartialEq, Eq)]
pub struct ExpandError {
    pub kind: ErrorKind,
    pub site: Site,
    pub message: String,
}

/// The mathematical value of an [`ExpandError`].
pub struct ExpandErrorView {
    pub kind: ErrorKind,
    pub site: Site,
    pub message: Seq<char>,
}

impl View for ExpandError {
    type V = ExpandErrorView;

    open spec fn view(&self) -> ExpandErrorView {
        ExpandErrorView { kind: self.kind, site: self.site, message: self.message@ }
    }
}

impl ExpandError {
    /// A diagnostic with a fixed message.
    pub fn new(kind: ErrorKind, site: Site, message: &str) -> (e: ExpandError)
        ensures
            e@ == (ExpandErrorView { kind, site, message: message@ }),
    {
        ExpandError { kind, site, message: String::from_str(message) }
    }

    /// The message of the diagnostic.
    pub fn to_string(&self) -> (s: String)
        ensures
            s@ == self@.message,
    {
        self.message.clone()
    }
}

} // verus!
