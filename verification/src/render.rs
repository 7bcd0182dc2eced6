//! The generated entry point as Rust source text.
use vstd::prelude::*;
use vstd::string::*;
use crate::function::{
    FixtureRecord, FixtureRecordView, GeneratedFunction, GeneratedFunctionView, TestFn, TestFnView,
};
use crate::expand::expansion;
use crate::project::Project;
use crate::syntax::{string_literal, write_string_literal};
use crate::text::views;

verus! {

/// The items in order, each followed by `end`.
pub open spec fn each_with(items: Seq<Seq<char>>, end: Seq<char>) -> Seq<char>
    decreases items.len(),
{
    if items.len() == 0 {
        Seq::empty()
    } else {
        each_with(items.drop_last(), end) + items.last() + end
    }
}

/// The items in order, with `separator` between every two of them and
/// nothing behind the last.
pub open spec fn separated(items: Seq<Seq<char>>, separator: Seq<char>) -> Seq<char>
    decreases items.len(),
{
    if items.len() == 0 {
        Seq::empty()
    } else if items.len() == 1 {
        items[0]
    } else {
        separated(items.drop_last(), separator) + separator + items.last()
    }
}

/// `n` placeholders for parameter types, separated by commas: `_, _, _`.
pub open spec fn placeholders(n: nat) -> Seq<char> {
    separated(Seq::new(n, |k: int| "_"@), ", "@)
}

/// The expression that hands one fixture to the test runner, where
/// `literal` is the string literal for the path of the fixture: the path,
/// and the contents that the compiler includes from the file at that path.
pub open spec fn fixture_expression(literal: Seq<char>) -> Seq<char> {
    "::sqlx::testing::TestFixture { path: "@ + literal + ", contents: include_str!("@ + literal
        + "), }"@
}

/// The expression that hands one fixture to the test runner.
pub open spec fn fixture_entry(record: FixtureRecordView) -> Seq<char> {
    fixture_expression(string_literal(record.path))
}

/// The expressions for the fixtures, in order, separated by commas.
pub open spec fn fixture_entries(records: Seq<FixtureRecordView>) -> Seq<char> {
    separated(Seq::new(records.len(), |k: int| fixture_entry(records[k])), ", "@)
}

/// The head of the entry point: the test attribute, the attributes of the
/// function, its name without parameters, and its return type.
pub open spec fn signature(function: TestFnView) -> Seq<char> {
    "#[::core::prelude::v1::test]\n"@ + each_with(function.attrs, "\n"@) + "fn "@ + function.name
        + "() "@ + function.output + " {\n"@
}

/// The entry point of simple mode: the body, run to its end.
pub open spec fn simple_source(function: TestFnView) -> Seq<char> {
    signature(function) + "    ::sqlx::test_block_on(async { "@ + function.body + " })\n}\n"@
}

/// The statement that attaches the migrator, if there is one.
pub open spec fn migrator_statement(migrator: Option<Seq<char>>) -> Seq<char> {
    match migrator {
        Some(reference) => "    args.migrator(&"@ + reference + ");\n"@,
        None => Seq::empty(),
    }
}

/// The entry point of managed mode: the function as an inner function, the
/// arguments for the test runner under the function's own name, the
/// migrator and the fixtures, and the call of the runner on the inner
/// function, whose parameter types are left to be inferred.
pub open spec fn managed_source(
    function: TestFnView,
    migrator: Option<Seq<char>>,
    fixtures: Seq<FixtureRecordView>,
) -> Seq<char> {
    signature(function) + "    async fn inner("@ + separated(function.inputs, ", "@) + ") "@
        + function.output + " { "@ + function.body + " }\n"@
        + "    let mut args = ::sqlx::testing::TestArgs::new(concat!(module_path!(), \"::\", stringify!("@
        + function.name + ")));\n"@ + migrator_statement(migrator) + "    args.fixtures(&["@
        + fixture_entries(fixtures) + "]);\n"@ + "    let f: fn("@ + placeholders(
        function.inputs.len(),
    ) + ") -> _ = inner;\n"@ + "    ::sqlx::testing::TestFn::run_test(f, args)\n}\n"@
}

/// The source text of a generated entry point.
pub open spec fn source(generated: GeneratedFunctionView) -> Seq<char> {
    match generated {
        GeneratedFunctionView::Simple { function } => simple_source(function),
        GeneratedFunctionView::Managed { function, migrator, fixtures } => managed_source(
            function,
            migrator,
            fixtures,
        ),
    }
}

/// An expansion depends on nothing but the text of the clause list, the
/// function and the state of the project: where these agree, two expansions
/// end alike, and what they generate has the same source text, character
/// for character.
pub proof fn lemma_expansion_is_deterministic(
    text: &str,
    again_text: &str,
    function: TestFn,
    again_function: TestFn,
    project: Project,
    again_project: Project,
)
    requires
        text@ == again_text@,
        function@ == again_function@,
        project@ == again_project@,
    ensures
        expansion(text@, function@, project@) == expansion(
            again_text@,
            again_function@,
            again_project@,
        ),
        expansion(text@, function@, project@) matches Ok(generated) ==> source(generated)
            == source(expansion(again_text@, again_function@, again_project@)->Ok_0),
{
}

/// The items in order, each followed by `end`.
pub fn write_each(items: &Vec<String>, end: &str) -> (out: String)
    ensures
        out@ == each_with(views(items@), end@),
{
    let mut out = String::new();
    let mut i: usize = 0;
    while i < items.len()
        invariant
            i <= items.len(),
            out@ == each_with(views(items@).take(i as int), end@),
        decreases items.len() - i,
    {
        assert(views(items@).take(i + 1).drop_last() =~= views(items@).take(i as int));
        out.append(items[i].as_str());
        out.append(end);
        i += 1;
    }
    assert(views(items@).take(items@.len() as int) =~= views(items@));
    out
}

/// The items in order, with `separator` between every two of them and
/// nothing behind the last.
pub fn write_separated(items: &Vec<String>, separator: &str) -> (out: String)
    ensures
        out@ == separated(views(items@), separator@),
{
    let mut out = String::new();
    let mut i: usize = 0;
    while i < items.len()
        invariant
            i <= items.len(),
            out@ == separated(views(items@).take(i as int), separator@),
        decreases items.len() - i,
    {
        let ghost before = out@;
        assert(views(items@).take(i + 1).drop_last() =~= views(items@).take(i as int));
        if i > 0 {
            out.append(separator);
        }
        out.append(items[i].as_str());
        assert(i == 0 ==> out@ =~= items[i as int]@);
        i += 1;
    }
    assert(views(items@).take(items@.len() as int) =~= views(items@));
    out
}

/// `n` placeholders for parameter types, separated by commas.
pub fn write_placeholders(n: usize) -> (out: String)
    ensures
        out@ == placeholders(n as nat),
{
    let mut items: Vec<String> = Vec::new();
    let mut i: usize = 0;
    while i < n
        invariant
            i <= n,
            items@.len() == i,
            forall|k: int| 0 <= k < i ==> (#[trigger] items@[k])@ == "_"@,
        decreases n - i,
    {
        items.push(String::from_str("_"));
        i += 1;
    }
    assert(views(items@) =~= Seq::new(n as nat, |k: int| "_"@));
    write_separated(&items, ", ")
}

/// The expression that hands one fixture to the test runner, where
/// `literal` is the string literal for the path of the fixture.
pub fn write_fixture(literal: &str) -> (out: String)
    ensures
        out@ == fixture_expression(literal@),
{
    let mut out = String::from_str("::sqlx::testing::TestFixture { path: ");
    out.append(literal);
    out.append(", contents: include_str!(");
    out.append(literal);
    out.append("), }");
    out
}

impl FixtureRecord {
    /// The expression that hands the fixture to the test runner.
    pub fn render(&self) -> (out: String)
        ensures
            out@ == fixture_entry(self@),
    {
        write_fixture(write_string_literal(self.path.as_str()).as_str())
    }
}

/// The expressions for the fixtures, in order, separated by commas.
pub fn write_fixtures(records: &Vec<FixtureRecord>) -> (out: String)
    ensures
        out@ == fixture_entries(views(records@)),
{
    let mut entries: Vec<String> = Vec::new();
    let mut i: usize = 0;
    while i < records.len()
        invariant
            i <= records.len(),
            entries@.len() == i,
            forall|k: int| 0 <= k < i ==> (#[trigger] entries@[k])@ == fixture_entry(records@[k]@),
        decreases records.len() - i,
    {
        entries.push(records[i].render());
        i += 1;
    }
    assert(views(entries@) =~= Seq::new(
        views(records@).len(),
        |k: int| fixture_entry(views(records@)[k]),
    ));
    write_separated(&entries, ", ")
}

impl TestFn {
    /// The head of the entry point for this function.
    pub fn render_signature(&self) -> (out: String)
        ensures
            out@ == signature(self@),
    {
        let mut out = String::from_str("#[::core::prelude::v1::test]\n");
        out.append(write_each(&self.attrs, "\n").as_str());
        out.append("fn ");
        out.append(self.name.as_str());
        out.append("() ");
        out.append(self.output.as_str());
        out.append(" {\n");
        out
    }
}

impl GeneratedFunction {
    /// The entry point as Rust source text.
    pub fn render(&self) -> (out: String)
        ensures
            out@ == source(self@),
    {
        match self {
            GeneratedFunction::Simple { function } => {
                let mut out = function.render_signature();
                out.append("    ::sqlx::test_block_on(async { ");
                out.append(function.body.as_str());
                out.append(" })\n}\n");
                out
            },
            GeneratedFunction::Managed { function, migrator, fixtures } => {
                let mut out = function.render_signature();
                out.append("    async fn inner(");
                out.append(write_separated(&function.inputs, ", ").as_str());
                out.append(") ");
                out.append(function.output.as_str());
                out.append(" { ");
                out.append(function.body.as_str());
                out.append(" }\n");
                out.append(
                    "    let mut args = ::sqlx::testing::TestArgs::new(concat!(module_path!(), \"::\", stringify!(",
                );
                out.append(function.name.as_str());
                out.append(")));\n");
                let mut statement = String::new();
                match migrator {
                    Some(reference) => {
                        statement.append("    args.migrator(&");
                        statement.append(reference.as_str());
                        statement.append(");\n");
                    },
                    None => {},
                }
                assert(statement@ =~= migrator_statement(crate::text::option_view(*migrator)));
                out.append(statement.as_str());
                out.append("    args.fixtures(&[");
                out.append(write_fixtures(fixtures).as_str());
                out.append("]);\n");
                out.append("    let f: fn(");
                out.append(write_placeholders(function.inputs.len()).as_str());
                out.append(") -> _ = inner;\n");
                out.append("    ::sqlx::testing::TestFn::run_test(f, args)\n}\n");
                out
            },
        }
    }
}

} // verus!
