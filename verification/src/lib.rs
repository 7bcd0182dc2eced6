//! Compiles the options written on a database test function into the test
//! entry point that replaces the function.
//!
//! The options are a comma-separated list of clauses. There are three:
//!
//! ```text
//! fixtures("users", "posts")      the scripts to load, in this order
//! migrations = "db/migrations"    the directory of the migrations, or `false`
//! migrator = "crate::MIGRATOR"    a migrator that the test crate defines
//! ```
//!
//! `fixtures` may be given once, and `migrations` and `migrator` exclude each
//! other. A function without parameters takes no options and is wrapped as
//! it stands. A function with parameters is handed to the test runner with
//! its setup: the migrator, and the fixture scripts found under the project
//! root as `fixtures/<name>.sql`.
//!
//! The surface syntax is read by `syn` ([`syntax`]); the rules on the clauses
//! ([`config`]), the choice between the two modes and the resolution against
//! the project ([`expand`]), and the source text of the entry point
//! ([`render`]) are verified.
pub mod clause;
pub mod config;
pub mod error;
pub mod expand;
pub mod function;
pub mod project;
pub mod render;
pub mod syntax;
pub mod text;

pub use crate::clause::{Clause, ClauseView, Shape, ShapeView, Value, ValueView};
pub use crate::config::{parse_args, Args, ArgsView, MigrationsOpt, MigrationsOptView};
pub use crate::error::{ErrorKind, ExpandError, ExpandErrorView, Site};
pub use crate::expand::{
    configure, configure_clauses, expand, expand_advanced, expand_clauses, expand_configured,
    expand_simple, fixture_path, resolve_fixtures, resolve_migrator, select_mode, Mode, Requests,
};
pub use crate::function::{
    FixtureRecord, FixtureRecordView, GeneratedFunction, GeneratedFunctionView, TestFn, TestFnView,
};
pub use crate::render::{
    write_each, write_fixture, write_fixtures, write_placeholders, write_separated,
};
pub use crate::project::{
    MigrationsDir, MigrationsDirView, Project, ProjectFile, ProjectFileView, ProjectView,
};
