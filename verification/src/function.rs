//! The annotated function, and the function that replaces it.
use vstd::prelude::*;
use crate::text::{option_view, views};

verus! {

/// The parts of the annotated function that the generated code keeps, each
/// as source text.
#[derive(Clone, Debug, PartialEq, Eq)]
pub struct TestFn {
    /// The attributes on the function, in order, each with its `#[...]`.
    pub attrs: Vec<String>,
    /// The name of the function.
    pub name: String,
    /// The parameters, in order, each with its type.
    pub inputs: Vec<String>,
    /// The return type with its arrow, or nothing.
    pub output: String,
    /// The body, with its braces.
    pub body: String,
}

/// The mathematical value of a [`TestFn`].
pub struct TestFnView {
    pub attrs: Seq<Seq<char>>,
    pub name: Seq<char>,
    pub inputs: Seq<Seq<char>>,
    pub output: Seq<char>,
    pub body: Seq<char>,
}

impl View for TestFn {
    type V = TestFnView;

    open spec fn view(&self) -> TestFnView {
        TestFnView {
            attrs: views(self.attrs@),
            name: self.name@,
            inputs: views(self.inputs@),
            output: self.output@,
            body: self.body@,
        }
    }
}

/// A fixture script that is loaded before the test runs.
#[derive(Clone, Debug, PartialEq, Eq)]
pub struct FixtureRecord {
    /// The name as written in the `fixtures` clause.
    pub name: String,
    /// Where the script lies, relative to the project root.
    pub path: String,
    /// What the file held when the function was generated. The generated
    /// code has the compiler include the file at `path`.
    pub contents: String,
}

/// The mathematical value of a [`FixtureRecord`].
pub struct FixtureRecordView {
    pub name: Seq<char>,
    pub path: Seq<char>,
    pub contents: Seq<char>,
}

impl View for FixtureRecord {
    type V = FixtureRecordView;

    open spec fn view(&self) -> FixtureRecordView {
        FixtureRecordView { name: self.name@, path: self.path@, contents: self.contents@ }
    }
}

/// The test entry point that replaces the annotated function.
#[derive(Clone, Debug, PartialEq, Eq)]
pub enum GeneratedFunction {
    /// The body of the function, run as it stands.
    Simple { function: TestFn },
    /// The function kept as an inner function, and handed to the test
    /// runner with the setup that it asked for.
    Managed {
        function: TestFn,
        /// The expression that yields the migrator, if there is one.
        migrator: Option<String>,
        /// The fixtures, in the order in which they are loaded.
        fixtures: Vec<FixtureRecord>,
    },
}

/// The mathematical value of a [`GeneratedFunction`].
pub enum GeneratedFunctionView {
    Simple { function: TestFnView },
    Managed { function: TestFnView, migrator: Option<Seq<char>>, fixtures: Seq<FixtureRecordView> },
}

impl View for GeneratedFunction {
    type V = GeneratedFunctionView;

    open spec fn view(&self) -> GeneratedFunctionView {
        match self {
            GeneratedFunction::Simple { function } => GeneratedFunctionView::Simple {
                function: function@,
            },
            GeneratedFunction::Managed {
                function,
                migrator,
                fixtures,
            } => GeneratedFunctionView::Managed {
                function: function@,
                migrator: option_view(*migrator),
                fixtures: views(fixtures@),
            },
        }
    }
}

} // verus!
