//! From a clause list and a function to the generated test entry point.
use vstd::prelude::*;
use vstd::string::*;
use crate::clause::{Clause, ClauseView};
use crate::config::{
    lemma_unnamed_migrations_are_inferred, names_migrations, parse_args, parsed_args, Args,
    ArgsView, MigrationsOpt, MigrationsOptView,
};
use crate::error::{ErrorKind, ExpandError, ExpandErrorView, Site};
use crate::function::{
    FixtureRecord, FixtureRecordView, GeneratedFunction, GeneratedFunctionView, TestFn, TestFnView,
};
use crate::project::{
    compiled_migrations, file_contents, Project, ProjectFileView, ProjectView,
    CONVENTIONAL_MIGRATIONS,
};
use crate::syntax::{clauses_in, parse_meta_list};
use crate::text::{option_view, result_view, views};

verus! {

/// The message for options on a function without parameters, in a build
/// that can manage a test database.
pub const OPTIONS_NEED_MANAGEMENT: &'static str =
    "control attributes are not allowed unless automatic test DB management is used; see docs";

/// The message for options on a function without parameters, in a build
/// that cannot manage a test database.
pub const OPTIONS_NEED_MIGRATE: &'static str =
    "control attributes are not allowed unless the `migrate` feature is enabled and automatic test DB management is used; see docs";

/// The message for a function with parameters in a build that cannot
/// manage a test database.
pub const MIGRATE_REQUIRED: &'static str = "`migrate` feature required";

/// What stands before the path in the message for a fixture file that is
/// not there.
pub const FIXTURE_UNREADABLE: &'static str = "cannot read fixture file: ";

/// What stands before the path in the message for a directory of
/// migrations that is not there.
pub const MIGRATIONS_UNREADABLE: &'static str = "cannot read migrations directory: ";

/// The two ways of generating the entry point.
#[derive(Clone, Copy, Debug, PartialEq, Eq, Structural)]
pub enum Mode {
    /// No setup: for a function without parameters.
    Simple,
    /// A test database is set up and handed to the function.
    Managed,
}

/// The mode for a function with `parameters` parameters and `clauses`
/// clauses on it. The number of parameters alone selects it; options on a
/// function without parameters are refused, and so is a function with
/// parameters in a build that cannot manage a database.
pub open spec fn selected_mode(parameters: nat, clauses: nat, migrate: bool) -> Result<
    Mode,
    ExpandErrorView,
> {
    if parameters == 0 {
        if clauses == 0 {
            Ok(Mode::Simple)
        } else {
            Err(
                ExpandErrorView {
                    kind: ErrorKind::UnsupportedCombination,
                    site: Site::Clause(0),
                    message: if migrate {
                        OPTIONS_NEED_MANAGEMENT@
                    } else {
                        OPTIONS_NEED_MIGRATE@
                    },
                },
            )
        }
    } else if migrate {
        Ok(Mode::Managed)
    } else {
        Err(
            ExpandErrorView {
                kind: ErrorKind::MissingCapability,
                site: Site::Function,
                message: MIGRATE_REQUIRED@,
            },
        )
    }
}

/// Where the fixture called `name` lies, relative to the project root.
pub open spec fn fixture_path_of(name: Seq<char>) -> Seq<char> {
    "fixtures/"@ + name + ".sql"@
}

/// The records of the first `n` fixtures, each with the contents of its
/// file, or the diagnostic for the first whose file is not there.
pub open spec fn resolved_fixtures(
    names: Seq<Seq<char>>,
    files: Seq<ProjectFileView>,
    n: nat,
) -> Result<Seq<FixtureRecordView>, ExpandErrorView>
    decreases n,
{
    if n == 0 {
        Ok(Seq::empty())
    } else {
        let name = names[n - 1];
        match resolved_fixtures(names, files, (n - 1) as nat) {
            Err(e) => Err(e),
            Ok(records) => match file_contents(files, fixture_path_of(name)) {
                Some(contents) => Ok(
                    records.push(
                        FixtureRecordView { name, path: fixture_path_of(name), contents },
                    ),
                ),
                None => Err(
                    ExpandErrorView {
                        kind: ErrorKind::IOError,
                        site: Site::Fixture((n - 1) as usize),
                        message: FIXTURE_UNREADABLE@ + fixture_path_of(name),
                    },
                ),
            },
        }
    }
}

/// The migrator of a test, if it has one. A directory that the
/// configuration names must be there and compile. The conventional
/// directory is looked at only in managed mode and may be absent.
pub open spec fn resolved_migrator(
    migrations: MigrationsOptView,
    managed: bool,
    project: ProjectView,
) -> Result<Option<Seq<char>>, ExpandErrorView> {
    match migrations {
        MigrationsOptView::ExplicitPath(path) => match compiled_migrations(
            project.migrations,
            path,
        ) {
            Some(Ok(migrator)) => Ok(Some(migrator)),
            Some(Err(message)) => Err(
                ExpandErrorView { kind: ErrorKind::IOError, site: Site::Migrations, message },
            ),
            None => Err(
                ExpandErrorView {
                    kind: ErrorKind::IOError,
                    site: Site::Migrations,
                    message: MIGRATIONS_UNREADABLE@ + path,
                },
            ),
        },
        MigrationsOptView::InferredPath => if managed {
            match compiled_migrations(project.migrations, CONVENTIONAL_MIGRATIONS@) {
                Some(Ok(migrator)) => Ok(Some(migrator)),
                Some(Err(message)) => Err(
                    ExpandErrorView { kind: ErrorKind::IOError, site: Site::Migrations, message },
                ),
                None => Ok(None),
            }
        } else {
            Ok(None)
        },
        MigrationsOptView::ExplicitMigrator(reference) => Ok(Some(reference)),
        MigrationsOptView::Disabled => Ok(None),
    }
}

/// The managed entry point for a function under a given configuration. The
/// migrator is resolved first, then the fixtures in order.
pub open spec fn managed(args: ArgsView, function: TestFnView, project: ProjectView) -> Result<
    GeneratedFunctionView,
    ExpandErrorView,
> {
    match resolved_migrator(args.migrations, function.inputs.len() > 0, project) {
        Err(e) => Err(e),
        Ok(migrator) => match resolved_fixtures(
            args.fixture_names(),
            project.files,
            args.fixture_names().len(),
        ) {
            Err(e) => Err(e),
            Ok(fixtures) => Ok(GeneratedFunctionView::Managed { function, migrator, fixtures }),
        },
    }
}

/// The managed entry point for a function and the clauses on it.
pub open spec fn expanded_advanced(
    clauses: Seq<ClauseView>,
    function: TestFnView,
    project: ProjectView,
) -> Result<GeneratedFunctionView, ExpandErrorView> {
    match parsed_args(clauses) {
        Err(e) => Err(e),
        Ok(args) => managed(args, function, project),
    }
}

/// The entry point for a function and the clauses on it.
pub open spec fn expanded(
    clauses: Seq<ClauseView>,
    function: TestFnView,
    project: ProjectView,
) -> Result<GeneratedFunctionView, ExpandErrorView> {
    match selected_mode(function.inputs.len(), clauses.len(), project.migrate) {
        Err(e) => Err(e),
        Ok(Mode::Simple) => Ok(GeneratedFunctionView::Simple { function }),
        Ok(Mode::Managed) => expanded_advanced(clauses, function, project),
    }
}

/// The entry point for a function and the text of the clause list on it.
pub open spec fn expansion(text: Seq<char>, function: TestFnView, project: ProjectView) -> Result<
    GeneratedFunctionView,
    ExpandErrorView,
> {
    match clauses_in(text) {
        Err(message) => Err(
            ExpandErrorView { kind: ErrorKind::SyntaxError, site: Site::Arguments, message },
        ),
        Ok(clauses) => expanded(clauses, function, project),
    }
}

/// The configuration of a function with `parameters` parameters and the
/// given clauses on it: none in simple mode.
pub open spec fn configured(clauses: Seq<ClauseView>, parameters: nat, migrate: bool) -> Result<
    Option<ArgsView>,
    ExpandErrorView,
> {
    match selected_mode(parameters, clauses.len(), migrate) {
        Err(e) => Err(e),
        Ok(Mode::Simple) => Ok(None),
        Ok(Mode::Managed) => match parsed_args(clauses) {
            Err(e) => Err(e),
            Ok(args) => Ok(Some(args)),
        },
    }
}

/// The configuration of a function, from the text of the clause list on it.
pub open spec fn configuration(text: Seq<char>, parameters: nat, migrate: bool) -> Result<
    Option<ArgsView>,
    ExpandErrorView,
> {
    match clauses_in(text) {
        Err(message) => Err(
            ExpandErrorView { kind: ErrorKind::SyntaxError, site: Site::Arguments, message },
        ),
        Ok(clauses) => configured(clauses, parameters, migrate),
    }
}

/// A function without parameters and without options is wrapped as it
/// stands: the entry point keeps its name, its attributes in their order,
/// its return type and its body, and nothing is set up.
pub proof fn lemma_plain_function_is_kept(
    clauses: Seq<ClauseView>,
    function: TestFnView,
    project: ProjectView,
)
    requires
        function.inputs.len() == 0,
        clauses.len() == 0,
    ensures
        expanded(clauses, function, project) == Ok::<GeneratedFunctionView, ExpandErrorView>(
            GeneratedFunctionView::Simple { function },
        ),
{
}

/// Options on a function without parameters are refused as an unsupported
/// combination, at the first clause, whatever the clauses are.
pub proof fn lemma_options_need_parameters(
    clauses: Seq<ClauseView>,
    function: TestFnView,
    project: ProjectView,
)
    requires
        function.inputs.len() == 0,
        clauses.len() > 0,
    ensures
        expanded(clauses, function, project) matches Err(e) && e.kind
            == ErrorKind::UnsupportedCombination && e.site == Site::Clause(0),
{
}

/// In managed mode, a clause list that is refused fails the expansion with
/// the diagnostic of the refusal.
pub proof fn lemma_refused_clauses_fail_expansion(
    clauses: Seq<ClauseView>,
    function: TestFnView,
    project: ProjectView,
)
    requires
        function.inputs.len() > 0,
        project.migrate,
        parsed_args(clauses) is Err,
    ensures
        expanded(clauses, function, project) == Err::<GeneratedFunctionView, ExpandErrorView>(
            parsed_args(clauses)->Err_0,
        ),
{
}

/// Every fixture is resolved to `fixtures/<name>.sql`, with what that file
/// holds. The fixtures are resolved if and only if each of these files is
/// there; else the diagnostic is an `IOError` at the first fixture whose
/// file is missing.
pub proof fn lemma_fixtures_hold_file_contents(
    names: Seq<Seq<char>>,
    files: Seq<ProjectFileView>,
    n: nat,
)
    requires
        n <= names.len() <= usize::MAX,
    ensures
        match resolved_fixtures(names, files, n) {
            Ok(records) => {
                &&& records.len() == n
                &&& forall|k: int|
                    0 <= k < n ==> file_contents(files, fixture_path_of(names[k])) == Some(
                        (#[trigger] records[k]).contents,
                    ) && records[k].name == names[k] && records[k].path == fixture_path_of(
                        names[k],
                    )
            },
            Err(e) => {
                &&& e.kind == ErrorKind::IOError
                &&& e.site matches Site::Fixture(k)
                &&& k < n
                &&& file_contents(files, fixture_path_of(names[k as int])) is None
                &&& e.message == FIXTURE_UNREADABLE@ + fixture_path_of(names[k as int])
                &&& forall|j: int|
                    0 <= j < k ==> (#[trigger] file_contents(
                        files,
                        fixture_path_of(names[j]),
                    )) is Some
            },
        },
    decreases n,
{
    if n > 0 {
        let m = (n - 1) as nat;
        lemma_fixtures_hold_file_contents(names, files, m);
        if let Ok(earlier) = resolved_fixtures(names, files, m) {
            match file_contents(files, fixture_path_of(names[m as int])) {
                Some(contents) => {
                    let records = resolved_fixtures(names, files, n)->Ok_0;
                    assert forall|k: int| 0 <= k < n implies file_contents(
                        files,
                        fixture_path_of(names[k]),
                    ) == Some((#[trigger] records[k]).contents) && records[k].name == names[k]
                        && records[k].path == fixture_path_of(names[k]) by {
                        if k < m {
                            assert(records[k] == earlier[k]);
                        }
                    }
                },
                None => {
                    assert forall|j: int| 0 <= j < m implies (#[trigger] file_contents(
                        files,
                        fixture_path_of(names[j]),
                    )) is Some by {
                        assert(earlier[j].name == names[j]);
                    }
                },
            }
        }
    }
}

/// What a managed entry point loads is what the configuration names: one
/// record for each fixture name, in the order written, with the contents of
/// `fixtures/<name>.sql`.
pub proof fn lemma_managed_fixtures(args: ArgsView, function: TestFnView, project: ProjectView)
    requires
        args.fixture_names().len() <= usize::MAX,
    ensures
        managed(args, function, project) matches Ok(
            GeneratedFunctionView::Managed { fixtures, .. },
        ) ==> {
            &&& fixtures.len() == args.fixture_names().len()
            &&& forall|k: int|
                0 <= k < fixtures.len() ==> file_contents(
                    project.files,
                    fixture_path_of(args.fixture_names()[k]),
                ) == Some((#[trigger] fixtures[k]).contents) && fixtures[k].name
                    == args.fixture_names()[k] && fixtures[k].path == fixture_path_of(
                    args.fixture_names()[k],
                )
        },
        (resolved_migrator(args.migrations, function.inputs.len() > 0, project) is Ok && exists|
            k: int,
        |
            0 <= k < args.fixture_names().len() && (#[trigger] file_contents(
                project.files,
                fixture_path_of(args.fixture_names()[k]),
            )) is None) ==> (managed(args, function, project) matches Err(e) && e.kind
            == ErrorKind::IOError),
{
    let names = args.fixture_names();
    lemma_fixtures_hold_file_contents(names, project.files, names.len());
    if let Ok(records) = resolved_fixtures(names, project.files, names.len()) {
        if exists|k: int|
            0 <= k < names.len() && (#[trigger] file_contents(
                project.files,
                fixture_path_of(names[k]),
            )) is None {
            let k = choose|k: int|
                0 <= k < names.len() && (#[trigger] file_contents(
                    project.files,
                    fixture_path_of(names[k]),
                )) is None;
            assert(records[k].name == names[k]);
        }
    }
}

/// Where no clause names the source of the migrations, convention decides.
/// For a function with parameters whose clauses are accepted and whose
/// fixtures can be read: if the conventional directory is there and
/// compiles, the entry point has its migrator; if it is not there, the
/// entry point has none and is generated all the same; if it is there and
/// does not compile, the expansion fails.
pub proof fn lemma_conventional_migrations(
    clauses: Seq<ClauseView>,
    function: TestFnView,
    project: ProjectView,
)
    requires
        function.inputs.len() > 0,
        project.migrate,
        forall|i: int| 0 <= i < clauses.len() ==> !names_migrations(#[trigger] clauses[i]),
        parsed_args(clauses) matches Ok(args) && resolved_fixtures(
            args.fixture_names(),
            project.files,
            args.fixture_names().len(),
        ) is Ok,
    ensures
        match compiled_migrations(project.migrations, CONVENTIONAL_MIGRATIONS@) {
            Some(Ok(reference)) => expanded(clauses, function, project) matches Ok(
                GeneratedFunctionView::Managed { migrator, .. },
            ) && migrator == Some(reference),
            Some(Err(message)) => expanded(clauses, function, project) == Err::<
                GeneratedFunctionView,
                ExpandErrorView,
            >(ExpandErrorView { kind: ErrorKind::IOError, site: Site::Migrations, message }),
            None => expanded(clauses, function, project) matches Ok(
                GeneratedFunctionView::Managed { migrator, .. },
            ) && migrator is None,
        },
{
    lemma_unnamed_migrations_are_inferred(clauses, clauses.len());
}

/// Selects the mode for a function with `parameters` parameters and
/// `clauses` clauses on it.
pub fn select_mode(parameters: usize, clauses: usize, migrate: bool) -> (r: Result<
    Mode,
    ExpandError,
>)
    ensures
        match r {
            Ok(mode) => selected_mode(parameters as nat, clauses as nat, migrate) == Ok::<
                Mode,
                ExpandErrorView,
            >(mode),
            Err(e) => selected_mode(parameters as nat, clauses as nat, migrate) == Err::<
                Mode,
                ExpandErrorView,
            >(e@),
        },
{
    if parameters == 0 {
        if clauses == 0 {
            Ok(Mode::Simple)
        } else if migrate {
            Err(
                ExpandError::new(
                    ErrorKind::UnsupportedCombination,
                    Site::Clause(0),
                    OPTIONS_NEED_MANAGEMENT,
                ),
            )
        } else {
            Err(
                ExpandError::new(
                    ErrorKind::UnsupportedCombination,
                    Site::Clause(0),
                    OPTIONS_NEED_MIGRATE,
                ),
            )
        }
    } else if migrate {
        Ok(Mode::Managed)
    } else {
        Err(ExpandError::new(ErrorKind::MissingCapability, Site::Function, MIGRATE_REQUIRED))
    }
}

/// Where the fixture called `name` lies: `fixtures/<name>.sql`, relative to
/// the project root.
pub fn fixture_path(name: &str) -> (path: String)
    ensures
        path@ == fixture_path_of(name@),
{
    let mut path = String::from_str("fixtures/");
    path.append(name);
    path.append(".sql");
    path
}

/// Reads the fixtures called `names` from the project, in order.
pub fn resolve_fixtures(names: &Vec<String>, project: &Project) -> (r: Result<
    Vec<FixtureRecord>,
    ExpandError,
>)
    ensures
        match r {
            Ok(records) => resolved_fixtures(views(names@), project@.files, names@.len()) == Ok::<
                Seq<FixtureRecordView>,
                ExpandErrorView,
            >(views(records@)),
            Err(e) => resolved_fixtures(views(names@), project@.files, names@.len()) == Err::<
                Seq<FixtureRecordView>,
                ExpandErrorView,
            >(e@),
        },
{
    let mut records: Vec<FixtureRecord> = Vec::new();
    let mut i: usize = 0;
    assert(views(records@) =~= Seq::empty());
    while i < names.len()
        invariant
            i <= names.len(),
            resolved_fixtures(views(names@), project@.files, i as nat) == Ok::<
                Seq<FixtureRecordView>,
                ExpandErrorView,
            >(views(records@)),
        decreases names.len() - i,
    {
        let path = fixture_path(names[i].as_str());
        let ghost before = views(records@);
        match project.read(path.as_str()) {
            Some(contents) => {
                let record = FixtureRecord { name: names[i].clone(), path, contents };
                records.push(record);
                assert(views(records@) =~= before.push(record@));
            },
            None => {
                let mut message = String::from_str(FIXTURE_UNREADABLE);
                message.append(path.as_str());
                let e = ExpandError { kind: ErrorKind::IOError, site: Site::Fixture(i), message };
                proof {
                    lemma_missing_fixture_is_final(
                        views(names@),
                        project@.files,
                        (i + 1) as nat,
                        names@.len(),
                    );
                }
                return Err(e);
            },
        }
        i += 1;
    }
    Ok(records)
}

/// Once a fixture was found missing, the fixtures behind it change nothing.
pub proof fn lemma_missing_fixture_is_final(
    names: Seq<Seq<char>>,
    files: Seq<ProjectFileView>,
    m: nat,
    n: nat,
)
    requires
        m <= n,
        resolved_fixtures(names, files, m) is Err,
    ensures
        resolved_fixtures(names, files, n) == resolved_fixtures(names, files, m),
    decreases n,
{
    if m < n {
        lemma_missing_fixture_is_final(names, files, m, (n - 1) as nat);
    }
}

/// Finds the migrator of a test, if it has one.
pub fn resolve_migrator(migrations: MigrationsOpt, managed: bool, project: &Project) -> (r: Result<
    Option<String>,
    ExpandError,
>)
    ensures
        match r {
            Ok(migrator) => resolved_migrator(migrations@, managed, project@) == Ok::<
                Option<Seq<char>>,
                ExpandErrorView,
            >(option_view(migrator)),
            Err(e) => resolved_migrator(migrations@, managed, project@) == Err::<
                Option<Seq<char>>,
                ExpandErrorView,
            >(e@),
        },
{
    match migrations {
        MigrationsOpt::ExplicitPath(path) => match project.migrations_at(path.as_str()) {
            Some(Ok(migrator)) => Ok(Some(migrator)),
            Some(Err(message)) => Err(
                ExpandError { kind: ErrorKind::IOError, site: Site::Migrations, message },
            ),
            None => {
                let mut message = String::from_str(MIGRATIONS_UNREADABLE);
                message.append(path.as_str());
                Err(ExpandError { kind: ErrorKind::IOError, site: Site::Migrations, message })
            },
        },
        MigrationsOpt::InferredPath => {
            if managed {
                match project.migrations_at(CONVENTIONAL_MIGRATIONS) {
                    Some(Ok(migrator)) => Ok(Some(migrator)),
                    Some(Err(message)) => Err(
                        ExpandError { kind: ErrorKind::IOError, site: Site::Migrations, message },
                    ),
                    None => Ok(None),
                }
            } else {
                Ok(None)
            }
        },
        MigrationsOpt::ExplicitMigrator(reference) => Ok(Some(reference)),
        MigrationsOpt::Disabled => Ok(None),
    }
}

/// What an expansion in managed mode reads from the project.
#[derive(Clone, Debug, PartialEq, Eq)]
pub struct Requests {
    /// The directory of migrations that is looked for, if any.
    pub migrations: Option<String>,
    /// The fixture files that are read, in order.
    pub fixtures: Vec<String>,
}

/// The directory of migrations that a configuration asks for: the one it
/// names, or the conventional one where it names none.
pub open spec fn requested_migrations(migrations: MigrationsOptView) -> Option<Seq<char>> {
    match migrations {
        MigrationsOptView::ExplicitPath(path) => Some(path),
        MigrationsOptView::InferredPath => Some(CONVENTIONAL_MIGRATIONS@),
        _ => None,
    }
}

/// The fixture files that a configuration asks for, in order.
pub open spec fn requested_fixtures(names: Seq<Seq<char>>) -> Seq<Seq<char>> {
    Seq::new(names.len(), |k: int| fixture_path_of(names[k]))
}

impl Args {
    /// What an expansion under this configuration reads from the project.
    pub fn requests(&self) -> (r: Requests)
        ensures
            option_view(r.migrations) == requested_migrations(self@.migrations),
            views(r.fixtures@) == requested_fixtures(self@.fixture_names()),
    {
        let migrations = match &self.migrations {
            MigrationsOpt::ExplicitPath(path) => Some(path.clone()),
            MigrationsOpt::InferredPath => Some(String::from_str(CONVENTIONAL_MIGRATIONS)),
            _ => None,
        };
        let mut fixtures: Vec<String> = Vec::new();
        match &self.fixtures {
            Some(names) => {
                let mut i: usize = 0;
                while i < names.len()
                    invariant
                        i <= names.len(),
                        fixtures@.len() == i,
                        forall|k: int|
                            0 <= k < i ==> (#[trigger] fixtures@[k])@ == fixture_path_of(
                                names@[k]@,
                            ),
                    decreases names.len() - i,
                {
                    fixtures.push(fixture_path(names[i].as_str()));
                    i += 1;
                }
                assert(views(fixtures@) =~= requested_fixtures(views(names@)));
            },
            None => {
                assert(views(fixtures@) =~= requested_fixtures(Seq::empty()));
            },
        }
        Requests { migrations, fixtures }
    }
}

/// Fixtures are resolved alike in two sets of files that hold the same at
/// each of the paths asked for.
pub proof fn lemma_fixtures_read_only_requests(
    names: Seq<Seq<char>>,
    files: Seq<ProjectFileView>,
    others: Seq<ProjectFileView>,
    n: nat,
)
    requires
        n <= names.len(),
        forall|k: int|
            0 <= k < n ==> file_contents(files, #[trigger] requested_fixtures(names)[k])
                == file_contents(others, requested_fixtures(names)[k]),
    ensures
        resolved_fixtures(names, files, n) == resolved_fixtures(names, others, n),
    decreases n,
{
    if n > 0 {
        lemma_fixtures_read_only_requests(names, files, others, (n - 1) as nat);
        assert(requested_fixtures(names)[n - 1] == fixture_path_of(names[n - 1]));
    }
}

/// A managed expansion reads nothing of the project but what its
/// configuration asks for: two projects that agree on the requested
/// directory of migrations and on each requested fixture file give the same
/// entry point, or the same diagnostic.
pub proof fn lemma_expansion_reads_only_requests(
    args: ArgsView,
    function: TestFnView,
    project: ProjectView,
    other: ProjectView,
)
    requires
        requested_migrations(args.migrations) matches Some(dir) ==> compiled_migrations(
            project.migrations,
            dir,
        ) == compiled_migrations(other.migrations, dir),
        forall|k: int|
            0 <= k < args.fixture_names().len() ==> file_contents(
                project.files,
                #[trigger] requested_fixtures(args.fixture_names())[k],
            ) == file_contents(other.files, requested_fixtures(args.fixture_names())[k]),
    ensures
        managed(args, function, project) == managed(args, function, other),
{
    lemma_fixtures_read_only_requests(
        args.fixture_names(),
        project.files,
        other.files,
        args.fixture_names().len(),
    );
}

/// Wraps a function without parameters: the entry point runs its body as it
/// stands, under the same name, with the same attributes and return type.
pub fn expand_simple(input: TestFn) -> (generated: GeneratedFunction)
    ensures
        generated@ == (GeneratedFunctionView::Simple { function: input@ }),
{
    GeneratedFunction::Simple { function: input }
}

/// Generates the managed entry point for a function under a configuration
/// that was read before.
pub fn expand_configured(args: Args, input: TestFn, project: &Project) -> (r: Result<
    GeneratedFunction,
    ExpandError,
>)
    ensures
        result_view(r) == managed(args@, input@, project@),
{
    let managed = input.inputs.len() > 0;
    let names = match args.fixtures {
        Some(names) => names,
        None => Vec::new(),
    };
    assert(views(names@) =~= args@.fixture_names());
    let migrator = match resolve_migrator(args.migrations, managed, project) {
        Ok(migrator) => migrator,
        Err(e) => {
            return Err(e);
        },
    };
    let fixtures = match resolve_fixtures(&names, project) {
        Ok(fixtures) => fixtures,
        Err(e) => {
            return Err(e);
        },
    };
    Ok(GeneratedFunction::Managed { function: input, migrator, fixtures })
}

/// Generates the managed entry point for a function and the clauses on it.
pub fn expand_advanced(clauses: &Vec<Clause>, input: TestFn, project: &Project) -> (r: Result<
    GeneratedFunction,
    ExpandError,
>)
    ensures
        result_view(r) == expanded_advanced(views(clauses@), input@, project@),
{
    match parse_args(clauses) {
        Ok(args) => expand_configured(args, input, project),
        Err(e) => Err(e),
    }
}

/// Generates the entry point for a function and the clauses on it.
pub fn expand_clauses(clauses: &Vec<Clause>, input: TestFn, project: &Project) -> (r: Result<
    GeneratedFunction,
    ExpandError,
>)
    ensures
        result_view(r) == expanded(views(clauses@), input@, project@),
{
    match select_mode(input.inputs.len(), clauses.len(), project.migrate) {
        Ok(Mode::Simple) => Ok(expand_simple(input)),
        Ok(Mode::Managed) => expand_advanced(clauses, input, project),
        Err(e) => Err(e),
    }
}

/// Generates the entry point for a function and the text of the clause list
/// on it. A function without parameters under an empty text is wrapped as it
/// stands.
pub fn expand(args: &str, input: TestFn, project: &Project) -> (r: Result<
    GeneratedFunction,
    ExpandError,
>)
    ensures
        result_view(r) == expansion(args@, input@, project@),
        args@.len() == 0 && input@.inputs.len() == 0 ==> result_view(r) == Ok::<
            GeneratedFunctionView,
            ExpandErrorView,
        >(GeneratedFunctionView::Simple { function: input@ }),
{
    match parse_meta_list(args) {
        Ok(clauses) => expand_clauses(&clauses, input, project),
        Err(message) => Err(
            ExpandError { kind: ErrorKind::SyntaxError, site: Site::Arguments, message },
        ),
    }
}

/// Reads the configuration of a function with `parameters` parameters from
/// the clauses on it: none in simple mode.
pub fn configure_clauses(clauses: &Vec<Clause>, parameters: usize, migrate: bool) -> (r: Result<
    Option<Args>,
    ExpandError,
>)
    ensures
        match r {
            Ok(args) => configured(views(clauses@), parameters as nat, migrate) == Ok::<
                Option<ArgsView>,
                ExpandErrorView,
            >(option_view(args)),
            Err(e) => configured(views(clauses@), parameters as nat, migrate) == Err::<
                Option<ArgsView>,
                ExpandErrorView,
            >(e@),
        },
{
    match select_mode(parameters, clauses.len(), migrate) {
        Ok(Mode::Simple) => Ok(None),
        Ok(Mode::Managed) => match parse_args(clauses) {
            Ok(args) => Ok(Some(args)),
            Err(e) => Err(e),
        },
        Err(e) => Err(e),
    }
}

/// Reads the configuration of a function with `parameters` parameters from
/// the text of the clause list on it: none in simple mode. This is what an
/// expansion will ask of the project.
pub fn configure(args: &str, parameters: usize, migrate: bool) -> (r: Result<
    Option<Args>,
    ExpandError,
>)
    ensures
        match r {
            Ok(found) => configuration(args@, parameters as nat, migrate) == Ok::<
                Option<ArgsView>,
                ExpandErrorView,
            >(option_view(found)),
            Err(e) => configuration(args@, parameters as nat, migrate) == Err::<
                Option<ArgsView>,
                ExpandErrorView,
            >(e@),
        },
        args@.len() == 0 && parameters == 0 ==> r matches Ok(None),
{
    match parse_meta_list(args) {
        Ok(clauses) => configure_clauses(&clauses, parameters, migrate),
        Err(message) => Err(
            ExpandError { kind: ErrorKind::SyntaxError, site: Site::Arguments, message },
        ),
    }
}

} // verus!
