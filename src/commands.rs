use vstd::prelude::*;

verus! {

/// Options that hold for every command.
#[derive(Clone, Debug)]
pub struct GlobalOptions {
    /// Show additional diagnostic output, which may include secrets.
    pub debug: bool,
    /// The output format asked for, where one was.
    pub format: Option<String>,
}

/// The output format asked for.
pub fn get_format(opts: &GlobalOptions) -> (r: Option<String>)
    ensures
        r == opts.format,
{
    opts.format.clone()
}

/// Why a command did not run.
#[derive(Clone, Copy, Debug, PartialEq, Eq, Structural)]
pub enum CommandError {
    /// The command exists but does nothing yet.
    Unimplemented,
}

/// Checks for a newer release and installs it.
pub fn update() -> (r: Result<(), CommandError>)
    ensures
        r == Err::<(), CommandError>(CommandError::Unimplemented),
{
    Err(CommandError::Unimplemented)
}

/// Sets up a new project from a template.
pub fn init() -> (r: Result<(), CommandError>)
    ensures
        r == Err::<(), CommandError>(CommandError::Unimplemented),
{
    Err(CommandError::Unimplemented)
}

/// The `publish` command.
#[derive(Clone, Debug)]
pub struct Publish {
    /// The group to publish into; the user's own by default.
    pub group: Option<String>,
    /// The message of the first commit.
    pub message: Option<String>,
}

impl Publish {
    pub fn publish(&self) -> (r: Result<(), CommandError>)
        ensures
            r == Err::<(), CommandError>(CommandError::Unimplemented),
    {
        Err(CommandError::Unimplemented)
    }
}

/// The `status` command: the state of a project's CI pipelines.
#[derive(Clone, Debug)]
pub struct Status {
    /// The project; found from the working directory by default.
    pub project: Option<String>,
}

impl Status {
    pub fn status(&self) -> (r: Result<(), CommandError>)
        ensures
            r == Err::<(), CommandError>(CommandError::Unimplemented),
    {
        Err(CommandError::Unimplemented)
    }
}

/// The `clone` command: `git clone` of a project, by its path.
#[derive(Clone, Debug)]
pub struct GitClone {
    /// Namespace and name of the project.
    pub project: String,
    /// Further arguments to `git`.
    pub args: Vec<String>,
}

impl GitClone {
    pub fn git_clone(&self) -> (r: Result<(), CommandError>)
        ensures
            r == Err::<(), CommandError>(CommandError::Unimplemented),
    {
        Err(CommandError::Unimplemented)
    }
}

/// The `completion` command: a completion script for a shell.
#[derive(Clone, Debug)]
pub struct Completion {
    /// The shell's name; `bash` by default.
    pub shell: String,
}

} // verus!
