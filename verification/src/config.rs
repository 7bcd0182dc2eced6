//! The configuration of a test, and the rules by which a clause list
//! becomes one.
use vstd::prelude::*;
use vstd::string::*;
use crate::clause::{Clause, ClauseView, Shape, ShapeView, Value, ValueView};
use crate::error::{ErrorKind, ExpandError, ExpandErrorView, Site};
use crate::syntax::{
    items_in, parse_rust_path, parse_string_list, rust_path, string_literal,
    write_string_literal,
};
use crate::text::{is_text, list_outcome, result_view, text_outcome, views};

verus! {

/// The message for a second `fixtures` clause.
pub const DUPLICATE_FIXTURES: &'static str = "duplicate `fixtures` arg";

/// The message for a second clause that names the source of the migrations.
pub const DUPLICATE_MIGRATIONS: &'static str = "cannot have more than one `migrations` or `migrator` arg";

/// The message for `migrations` with a value that is no literal.
pub const MIGRATIONS_NOT_LITERAL: &'static str = "expected string for `false`";

/// The message for `migrations = true`.
pub const MIGRATIONS_REDUNDANT: &'static str = "`migrations = true` is redundant";

/// The message for `migrations` with a literal that is neither a string nor
/// a boolean.
pub const MIGRATIONS_WRONG_LITERAL: &'static str = "expected string or `false`";

/// The message for `migrator` with a value that is no string literal.
pub const MIGRATOR_NOT_STRING: &'static str = "expected string";

/// The message for a clause that the grammar does not have.
pub const UNEXPECTED_CLAUSE: &'static str =
    "expected `fixtures(\"<filename>\", ...)` or `migrations = \"<path>\" | false` or `migrator = \"<rust path>\"`";

/// Where the migrations of a test come from.
#[derive(Clone, Debug, PartialEq, Eq)]
pub enum MigrationsOpt {
    /// Nothing was said: the conventional directory is used if it is there.
    InferredPath,
    /// `migrations = "<path>"`: the directory at that path.
    ExplicitPath(String),
    /// `migrator = "<rust path>"`: the migrator that the path refers to.
    ExplicitMigrator(String),
    /// `migrations = false`: none.
    Disabled,
}

/// The mathematical value of a [`MigrationsOpt`].
pub enum MigrationsOptView {
    InferredPath,
    ExplicitPath(Seq<char>),
    ExplicitMigrator(Seq<char>),
    Disabled,
}

impl View for MigrationsOpt {
    type V = MigrationsOptView;

    open spec fn view(&self) -> MigrationsOptView {
        match self {
            MigrationsOpt::InferredPath => MigrationsOptView::InferredPath,
            MigrationsOpt::ExplicitPath(path) => MigrationsOptView::ExplicitPath(path@),
            MigrationsOpt::ExplicitMigrator(path) => MigrationsOptView::ExplicitMigrator(path@),
            MigrationsOpt::Disabled => MigrationsOptView::Disabled,
        }
    }
}

/// The configuration that a clause list amounts to.
#[derive(Clone, Debug, PartialEq, Eq)]
pub struct Args {
    /// The fixture names in the order written, duplicates included; `None`
    /// as long as no `fixtures` clause was read.
    pub fixtures: Option<Vec<String>>,
    pub migrations: MigrationsOpt,
}

/// The mathematical value of an [`Args`].
pub struct ArgsView {
    pub fixtures: Option<Seq<Seq<char>>>,
    pub migrations: MigrationsOptView,
}

impl View for Args {
    type V = ArgsView;

    open spec fn view(&self) -> ArgsView {
        ArgsView {
            fixtures: match self.fixtures {
                Some(names) => Some(views(names@)),
                None => None,
            },
            migrations: self.migrations@,
        }
    }
}

/// What a `migrator` clause refers to: nothing unless its value is a string
/// literal, else what reading that literal as a Rust path gives. The
/// literal is read as it is written anew, with its suffix behind it.
pub open spec fn migrator_reference(value: ValueView) -> Option<Result<Seq<char>, Seq<char>>> {
    match value {
        ValueView::Str { value, suffix } => Some(rust_path(string_literal(value) + suffix)),
        _ => None,
    }
}

impl ArgsView {
    /// The configuration before any clause is read.
    pub open spec fn initial() -> ArgsView {
        ArgsView { fixtures: None, migrations: MigrationsOptView::InferredPath }
    }

    /// The fixture names, none where no clause gave any.
    pub open spec fn fixture_names(self) -> Seq<Seq<char>> {
        match self.fixtures {
            Some(names) => names,
            None => Seq::empty(),
        }
    }

    /// The effect of clause number `index` being `fixtures(...)`, where
    /// reading what is between the brackets gave `items`.
    pub open spec fn with_fixtures(
        self,
        index: usize,
        items: Result<Seq<Seq<char>>, Seq<char>>,
    ) -> Result<ArgsView, ExpandErrorView> {
        if self.fixtures is Some {
            Err(
                ExpandErrorView {
                    kind: ErrorKind::DuplicateOption,
                    site: Site::ClauseName(index),
                    message: DUPLICATE_FIXTURES@,
                },
            )
        } else {
            match items {
                Ok(names) => Ok(ArgsView { fixtures: Some(names), migrations: self.migrations }),
                Err(message) => Err(
                    ExpandErrorView {
                        kind: ErrorKind::SyntaxError,
                        site: Site::ClauseValue(index),
                        message,
                    },
                ),
            }
        }
    }

    /// The effect of clause number `index` being `migrations = value`.
    /// `true` is refused as redundant in every state; any other value is
    /// refused as a duplicate once the source of the migrations is chosen.
    pub open spec fn with_migrations(self, index: usize, value: ValueView) -> Result<
        ArgsView,
        ExpandErrorView,
    > {
        if value == ValueView::Bool(true) {
            Err(
                ExpandErrorView {
                    kind: ErrorKind::RedundantOption,
                    site: Site::ClauseValue(index),
                    message: MIGRATIONS_REDUNDANT@,
                },
            )
        } else if !(self.migrations is InferredPath) {
            Err(
                ExpandErrorView {
                    kind: ErrorKind::DuplicateOption,
                    site: Site::ClauseName(index),
                    message: DUPLICATE_MIGRATIONS@,
                },
            )
        } else {
            match value {
                ValueView::Str { value, .. } => Ok(
                    ArgsView {
                        fixtures: self.fixtures,
                        migrations: MigrationsOptView::ExplicitPath(value),
                    },
                ),
                ValueView::Bool(_) => Ok(
                    ArgsView { fixtures: self.fixtures, migrations: MigrationsOptView::Disabled },
                ),
                ValueView::OtherLiteral => Err(
                    ExpandErrorView {
                        kind: ErrorKind::InvalidOptionValue,
                        site: Site::ClauseValue(index),
                        message: MIGRATIONS_WRONG_LITERAL@,
                    },
                ),
                ValueView::Expression => Err(
                    ExpandErrorView {
                        kind: ErrorKind::InvalidOptionValue,
                        site: Site::ClauseName(index),
                        message: MIGRATIONS_NOT_LITERAL@,
                    },
                ),
            }
        }
    }

    /// The effect of clause number `index` being `migrator = value`, where
    /// `reference` is `None` unless the value is a string literal, and else
    /// what reading the string as a Rust path gave.
    pub open spec fn with_migrator(
        self,
        index: usize,
        reference: Option<Result<Seq<char>, Seq<char>>>,
    ) -> Result<ArgsView, ExpandErrorView> {
        if !(self.migrations is InferredPath) {
            Err(
                ExpandErrorView {
                    kind: ErrorKind::DuplicateOption,
                    site: Site::ClauseName(index),
                    message: DUPLICATE_MIGRATIONS@,
                },
            )
        } else {
            match reference {
                Some(Ok(path)) => Ok(
                    ArgsView {
                        fixtures: self.fixtures,
                        migrations: MigrationsOptView::ExplicitMigrator(path),
                    },
                ),
                Some(Err(message)) => Err(
                    ExpandErrorView {
                        kind: ErrorKind::InvalidOptionValue,
                        site: Site::ClauseValue(index),
                        message,
                    },
                ),
                None => Err(
                    ExpandErrorView {
                        kind: ErrorKind::InvalidOptionValue,
                        site: Site::ClauseName(index),
                        message: MIGRATOR_NOT_STRING@,
                    },
                ),
            }
        }
    }

    /// The effect of clause number `index`: one of the three clauses of the
    /// grammar, or a syntax error that names the grammar.
    pub open spec fn with_clause(self, index: usize, clause: ClauseView) -> Result<
        ArgsView,
        ExpandErrorView,
    > {
        if clause.is_list("fixtures"@) {
            self.with_fixtures(index, items_in(clause.shape->List_0))
        } else if clause.is_name_value("migrations"@) {
            self.with_migrations(index, clause.shape->NameValue_0)
        } else if clause.is_name_value("migrator"@) {
            self.with_migrator(index, migrator_reference(clause.shape->NameValue_0))
        } else {
            Err(
                ExpandErrorView {
                    kind: ErrorKind::SyntaxError,
                    site: Site::Clause(index),
                    message: UNEXPECTED_CLAUSE@,
                },
            )
        }
    }
}

/// The outcome of reading the first `n` clauses in order: the configuration
/// so far, or the diagnostic of the first clause that was refused.
pub open spec fn parsed_prefix(clauses: Seq<ClauseView>, n: nat) -> Result<
    ArgsView,
    ExpandErrorView,
>
    decreases n,
{
    if n == 0 {
        Ok(ArgsView::initial())
    } else {
        match parsed_prefix(clauses, (n - 1) as nat) {
            Ok(args) => args.with_clause((n - 1) as usize, clauses[n - 1]),
            Err(e) => Err(e),
        }
    }
}

/// The outcome of reading a whole clause list.
pub open spec fn parsed_args(clauses: Seq<ClauseView>) -> Result<ArgsView, ExpandErrorView> {
    parsed_prefix(clauses, clauses.len())
}

/// Once a clause was refused, the clauses behind it change nothing.
pub proof fn lemma_refusal_is_final(clauses: Seq<ClauseView>, m: nat, n: nat)
    requires
        m <= n,
        parsed_prefix(clauses, m) is Err,
    ensures
        parsed_prefix(clauses, n) == parsed_prefix(clauses, m),
    decreases n,
{
    if m < n {
        lemma_refusal_is_final(clauses, m, (n - 1) as nat);
    }
}

/// Whether the clause gives the source of the migrations: a name-value
/// clause called `migrations` or `migrator`.
pub open spec fn names_migrations(clause: ClauseView) -> bool {
    clause.is_name_value("migrations"@) || clause.is_name_value("migrator"@)
}

/// Whether the clause is `migrations = true`.
pub open spec fn is_migrations_true(clause: ClauseView) -> bool {
    clause.is_name_value("migrations"@) && clause.shape == ShapeView::NameValue(
        ValueView::Bool(true),
    )
}

/// What was settled stays settled: while clauses are accepted, a fixture
/// list that was given stays given, and a source of migrations that was
/// chosen stays chosen.
pub proof fn lemma_settled_stays_settled(clauses: Seq<ClauseView>, m: nat, n: nat)
    requires
        m <= n,
        parsed_prefix(clauses, n) is Ok,
    ensures
        parsed_prefix(clauses, m) is Ok,
        parsed_prefix(clauses, m)->Ok_0.fixtures is Some ==> parsed_prefix(
            clauses,
            n,
        )->Ok_0.fixtures is Some,
        !(parsed_prefix(clauses, m)->Ok_0.migrations is InferredPath) ==> !(parsed_prefix(
            clauses,
            n,
        )->Ok_0.migrations is InferredPath),
    decreases n,
{
    if m < n {
        lemma_settled_stays_settled(clauses, m, (n - 1) as nat);
    }
}

/// A list in which no clause names the source of the migrations leaves it
/// to convention.
pub proof fn lemma_unnamed_migrations_are_inferred(clauses: Seq<ClauseView>, n: nat)
    requires
        n <= clauses.len(),
        forall|i: int| 0 <= i < n ==> !names_migrations(#[trigger] clauses[i]),
        parsed_prefix(clauses, n) is Ok,
    ensures
        parsed_prefix(clauses, n)->Ok_0.migrations is InferredPath,
    decreases n,
{
    if n > 0 {
        lemma_unnamed_migrations_are_inferred(clauses, (n - 1) as nat);
        assert(!names_migrations(clauses[n - 1]));
    }
}

/// `migrations = true` is never accepted. Where the clauses before it were
/// accepted, the diagnostic is `RedundantOption`, at the literal, whatever
/// those clauses chose and whatever stands behind it.
pub proof fn lemma_migrations_true_is_redundant(clauses: Seq<ClauseView>, i: nat)
    requires
        i < clauses.len(),
        is_migrations_true(clauses[i as int]),
    ensures
        parsed_args(clauses) is Err,
        parsed_prefix(clauses, i) is Ok ==> parsed_args(clauses) == Err::<
            ArgsView,
            ExpandErrorView,
        >(
            ExpandErrorView {
                kind: ErrorKind::RedundantOption,
                site: Site::ClauseValue(i as usize),
                message: MIGRATIONS_REDUNDANT@,
            },
        ),
{
    assert(parsed_prefix(clauses, i + 1) is Err);
    lemma_refusal_is_final(clauses, i + 1, clauses.len());
}

/// A list that gives the source of the migrations twice is never accepted,
/// be it by `migrations`, by `migrator` or by one of each. Where the clauses
/// before the second were accepted and the second is not `migrations =
/// true`, which is redundant before it is a duplicate, the diagnostic is
/// `DuplicateOption`, at the name of the second.
pub proof fn lemma_second_migrations_source_is_duplicate(
    clauses: Seq<ClauseView>,
    i: nat,
    j: nat,
)
    requires
        i < j < clauses.len(),
        names_migrations(clauses[i as int]),
        names_migrations(clauses[j as int]),
    ensures
        parsed_args(clauses) is Err,
        (parsed_prefix(clauses, j) is Ok && !is_migrations_true(clauses[j as int]))
            ==> parsed_args(clauses) == Err::<ArgsView, ExpandErrorView>(
            ExpandErrorView {
                kind: ErrorKind::DuplicateOption,
                site: Site::ClauseName(j as usize),
                message: DUPLICATE_MIGRATIONS@,
            },
        ),
{
    if parsed_prefix(clauses, j) is Ok {
        lemma_settled_stays_settled(clauses, i + 1, j);
        assert(!(parsed_prefix(clauses, i + 1)->Ok_0.migrations is InferredPath));
        assert(parsed_prefix(clauses, j + 1) is Err);
        lemma_refusal_is_final(clauses, j + 1, clauses.len());
    } else {
        lemma_refusal_is_final(clauses, j, clauses.len());
    }
}

/// A list with two `fixtures(...)` clauses is never accepted. Where the
/// clauses before the second were accepted, the diagnostic is
/// `DuplicateOption`, at the name of the second.
pub proof fn lemma_second_fixtures_is_duplicate(clauses: Seq<ClauseView>, i: nat, j: nat)
    requires
        i < j < clauses.len(),
        clauses[i as int].is_list("fixtures"@),
        clauses[j as int].is_list("fixtures"@),
    ensures
        parsed_args(clauses) is Err,
        parsed_prefix(clauses, j) is Ok ==> parsed_args(clauses) == Err::<
            ArgsView,
            ExpandErrorView,
        >(
            ExpandErrorView {
                kind: ErrorKind::DuplicateOption,
                site: Site::ClauseName(j as usize),
                message: DUPLICATE_FIXTURES@,
            },
        ),
{
    if parsed_prefix(clauses, j) is Ok {
        lemma_settled_stays_settled(clauses, i + 1, j);
        assert(parsed_prefix(clauses, i + 1)->Ok_0.fixtures is Some);
        assert(parsed_prefix(clauses, j + 1) is Err);
        lemma_refusal_is_final(clauses, j + 1, clauses.len());
    } else {
        lemma_refusal_is_final(clauses, j, clauses.len());
    }
}

impl Args {
    /// The configuration before any clause is read.
    pub fn new() -> (args: Args)
        ensures
            args@ == ArgsView::initial(),
    {
        Args { fixtures: None, migrations: MigrationsOpt::InferredPath }
    }

    /// Takes in a `fixtures(...)` clause, number `index` of the list, where
    /// reading what is between its brackets gave `items`.
    pub fn with_fixtures(self, index: usize, items: Result<Vec<String>, String>) -> (r: Result<
        Args,
        ExpandError,
    >)
        ensures
            result_view(r) == self@.with_fixtures(index, list_outcome(items)),
    {
        if self.fixtures.is_some() {
            return Err(
                ExpandError::new(
                    ErrorKind::DuplicateOption,
                    Site::ClauseName(index),
                    DUPLICATE_FIXTURES,
                ),
            );
        }
        match items {
            Ok(names) => Ok(Args { fixtures: Some(names), migrations: self.migrations }),
            Err(message) => Err(
                ExpandError { kind: ErrorKind::SyntaxError, site: Site::ClauseValue(index), message },
            ),
        }
    }

    /// Takes in a `migrations = value` clause, number `index` of the list.
    pub fn with_migrations(self, index: usize, value: &Value) -> (r: Result<Args, ExpandError>)
        ensures
            result_view(r) == self@.with_migrations(index, value@),
    {
        if matches!(value, Value::Bool(true)) {
            return Err(
                ExpandError::new(
                    ErrorKind::RedundantOption,
                    Site::ClauseValue(index),
                    MIGRATIONS_REDUNDANT,
                ),
            );
        }
        if !matches!(self.migrations, MigrationsOpt::InferredPath) {
            return Err(
                ExpandError::new(
                    ErrorKind::DuplicateOption,
                    Site::ClauseName(index),
                    DUPLICATE_MIGRATIONS,
                ),
            );
        }
        match value {
            Value::Str { value, .. } => Ok(
                Args {
                    fixtures: self.fixtures,
                    migrations: MigrationsOpt::ExplicitPath(value.clone()),
                },
            ),
            Value::Bool(_) => Ok(
                Args { fixtures: self.fixtures, migrations: MigrationsOpt::Disabled },
            ),
            Value::OtherLiteral => Err(
                ExpandError::new(
                    ErrorKind::InvalidOptionValue,
                    Site::ClauseValue(index),
                    MIGRATIONS_WRONG_LITERAL,
                ),
            ),
            Value::Expression => Err(
                ExpandError::new(
                    ErrorKind::InvalidOptionValue,
                    Site::ClauseName(index),
                    MIGRATIONS_NOT_LITERAL,
                ),
            ),
        }
    }

    /// Takes in a `migrator = value` clause, number `index` of the list.
    /// `reference` is `None` unless the value is a string literal, and else
    /// what reading the string as a Rust path gave.
    pub fn with_migrator(self, index: usize, reference: Option<Result<String, String>>) -> (r:
        Result<Args, ExpandError>)
        ensures
            result_view(r) == self@.with_migrator(
                index,
                match reference {
                    Some(outcome) => Some(text_outcome(outcome)),
                    None => None,
                },
            ),
    {
        if !matches!(self.migrations, MigrationsOpt::InferredPath) {
            return Err(
                ExpandError::new(
                    ErrorKind::DuplicateOption,
                    Site::ClauseName(index),
                    DUPLICATE_MIGRATIONS,
                ),
            );
        }
        match reference {
            Some(Ok(path)) => Ok(
                Args { fixtures: self.fixtures, migrations: MigrationsOpt::ExplicitMigrator(path) },
            ),
            Some(Err(message)) => Err(
                ExpandError {
                    kind: ErrorKind::InvalidOptionValue,
                    site: Site::ClauseValue(index),
                    message,
                },
            ),
            None => Err(
                ExpandError::new(
                    ErrorKind::InvalidOptionValue,
                    Site::ClauseName(index),
                    MIGRATOR_NOT_STRING,
                ),
            ),
        }
    }

    /// Takes in clause number `index` of the list.
    pub fn with_clause(self, index: usize, clause: &Clause) -> (r: Result<Args, ExpandError>)
        ensures
            result_view(r) == self@.with_clause(index, clause@),
    {
        match (&clause.name, &clause.shape) {
            (Some(name), Shape::List(tokens)) if is_text(name, "fixtures") => {
                self.with_fixtures(index, parse_string_list(tokens.as_str()))
            },
            (Some(name), Shape::NameValue(value)) if is_text(name, "migrations") => {
                self.with_migrations(index, value)
            },
            (Some(name), Shape::NameValue(value)) if is_text(name, "migrator") => {
                let reference = match value {
                    Value::Str { value, suffix } => {
                        let mut literal = write_string_literal(value.as_str());
                        literal.append(suffix.as_str());
                        Some(parse_rust_path(literal.as_str()))
                    },
                    _ => None,
                };
                self.with_migrator(index, reference)
            },
            _ => Err(ExpandError::new(ErrorKind::SyntaxError, Site::Clause(index), UNEXPECTED_CLAUSE)),
        }
    }
}

/// Reads a clause list into a configuration: the clauses are taken in order,
/// and the first one that is refused ends the reading with its diagnostic.
pub fn parse_args(clauses: &Vec<Clause>) -> (r: Result<Args, ExpandError>)
    ensures
        result_view(r) == parsed_args(views(clauses@)),
{
    let mut args = Args::new();
    let mut i: usize = 0;
    while i < clauses.len()
        invariant
            i <= clauses.len(),
            parsed_prefix(views(clauses@), i as nat) == Ok::<ArgsView, ExpandErrorView>(args@),
        decreases clauses.len() - i,
    {
        match args.with_clause(i, &clauses[i]) {
            Ok(next) => {
                args = next;
            },
            Err(e) => {
                proof {
                    lemma_refusal_is_final(views(clauses@), (i + 1) as nat, clauses@.len());
                }
                return Err(e);
            },
        }
        i += 1;
    }
    Ok(args)
}

} // verus!
