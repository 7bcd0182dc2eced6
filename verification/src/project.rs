//! What the project holds on disk, as far as an expansion reads it.
use vstd::prelude::*;
use vstd::string::*;
use crate::text::{option_view, text_outcome, views};

verus! {

/// The directory of migrations that is used where the configuration names
/// none.
pub const CONVENTIONAL_MIGRATIONS: &'static str = "./migrations";

/// A file under the project root.
#[derive(Clone, Debug, PartialEq, Eq)]
pub struct ProjectFile {
    /// The path, relative to the project root.
    pub path: String,
    pub contents: String,
}

/// The mathematical value of a [`ProjectFile`].
pub struct ProjectFileView {
    pub path: Seq<char>,
    pub contents: Seq<char>,
}

impl View for ProjectFile {
    type V = ProjectFileView;

    open spec fn view(&self) -> ProjectFileView {
        ProjectFileView { path: self.path@, contents: self.contents@ }
    }
}

/// A directory of migrations, and what compiling it gave.
#[derive(Debug, PartialEq, Eq)]
pub struct MigrationsDir {
    /// The path as a configuration names it.
    pub path: String,
    /// The expression that yields the compiled migrator, or why the
    /// directory could not be compiled.
    pub migrator: Result<String, String>,
}

/// The mathematical value of a [`MigrationsDir`].
pub struct MigrationsDirView {
    pub path: Seq<char>,
    pub migrator: Result<Seq<char>, Seq<char>>,
}

impl View for MigrationsDir {
    type V = MigrationsDirView;

    open spec fn view(&self) -> MigrationsDirView {
        MigrationsDirView { path: self.path@, migrator: text_outcome(self.migrator) }
    }
}

/// The state of the project at the time of an expansion. A path that is not
/// listed does not exist. Where a path is listed twice, the first entry
/// counts.
#[derive(Debug, PartialEq, Eq)]
pub struct Project {
    /// Whether the build can manage a test database.
    pub migrate: bool,
    /// The files that can be read.
    pub files: Vec<ProjectFile>,
    /// The directories of migrations that exist.
    pub migrations: Vec<MigrationsDir>,
}

/// The mathematical value of a [`Project`].
pub struct ProjectView {
    pub migrate: bool,
    pub files: Seq<ProjectFileView>,
    pub migrations: Seq<MigrationsDirView>,
}

impl View for Project {
    type V = ProjectView;

    open spec fn view(&self) -> ProjectView {
        ProjectView {
            migrate: self.migrate,
            files: views(self.files@),
            migrations: views(self.migrations@),
        }
    }
}

/// The contents of the first file at `path`, if there is one.
pub open spec fn file_contents(files: Seq<ProjectFileView>, path: Seq<char>) -> Option<Seq<char>>
    decreases files.len(),
{
    if files.len() == 0 {
        None
    } else if files[0].path == path {
        Some(files[0].contents)
    } else {
        file_contents(files.drop_first(), path)
    }
}

/// What compiling the first directory at `path` gave, if there is one.
pub open spec fn compiled_migrations(dirs: Seq<MigrationsDirView>, path: Seq<char>) -> Option<
    Result<Seq<char>, Seq<char>>,
>
    decreases dirs.len(),
{
    if dirs.len() == 0 {
        None
    } else if dirs[0].path == path {
        Some(dirs[0].migrator)
    } else {
        compiled_migrations(dirs.drop_first(), path)
    }
}

impl Project {
    /// A project without files and without migrations.
    pub fn new(migrate: bool) -> (project: Project)
        ensures
            project@ == (ProjectView { migrate, files: Seq::empty(), migrations: Seq::empty() }),
    {
        let project = Project { migrate, files: Vec::new(), migrations: Vec::new() };
        assert(project@.files =~= Seq::empty());
        assert(project@.migrations =~= Seq::empty());
        project
    }

    /// The contents of the file at `path`, if the project has it.
    pub fn read(&self, path: &str) -> (contents: Option<String>)
        ensures
            option_view(contents) == file_contents(self@.files, path@),
    {
        let wanted = String::from_str(path);
        let mut i: usize = 0;
        assert(self@.files.skip(0) =~= self@.files);
        while i < self.files.len()
            invariant
                i <= self.files.len(),
                wanted@ == path@,
                file_contents(self@.files, path@) == file_contents(
                    self@.files.skip(i as int),
                    path@,
                ),
            decreases self.files.len() - i,
        {
            let ghost rest = self@.files.skip(i as int);
            assert(rest[0] == self.files[i as int]@);
            assert(rest.drop_first() =~= self@.files.skip(i + 1));
            if self.files[i].path == wanted {
                return Some(self.files[i].contents.clone());
            }
            i += 1;
        }
        None
    }

    /// What compiling the directory at `path` gave, if the project has it.
    pub fn migrations_at(&self, path: &str) -> (outcome: Option<Result<String, String>>)
        ensures
            match outcome {
                Some(migrator) => compiled_migrations(self@.migrations, path@) == Some(
                    text_outcome(migrator),
                ),
                None => compiled_migrations(self@.migrations, path@) is None,
            },
    {
        let wanted = String::from_str(path);
        let mut i: usize = 0;
        assert(self@.migrations.skip(0) =~= self@.migrations);
        while i < self.migrations.len()
            invariant
                i <= self.migrations.len(),
                wanted@ == path@,
                compiled_migrations(self@.migrations, path@) == compiled_migrations(
                    self@.migrations.skip(i as int),
                    path@,
                ),
            decreases self.migrations.len() - i,
        {
            let ghost rest = self@.migrations.skip(i as int);
            assert(rest[0] == self.migrations[i as int]@);
            assert(rest.drop_first() =~= self@.migrations.skip(i + 1));
            if self.migrations[i].path == wanted {
                return Some(
                    match &self.migrations[i].migrator {
                        Ok(migrator) => Ok(migrator.clone()),
                        Err(message) => Err(message.clone()),
                    },
                );
            }
            i += 1;
        }
        None
    }
}

} // verus!
