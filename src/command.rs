use vstd::prelude::*;
use vstd::string::StringExecFns;

verus! {

/// A request to the version-control tool, aimed at a single path.
#[derive(Debug, Clone)]
pub enum GitCommand {
    /// Record the path's current content in the index.
    Add(String),
    /// Take the path's content back out of the index.
    Reset(String),
}

impl GitCommand {
    /// The arguments handed to the tool: the operation's name, then the path.
    pub open spec fn args_view(self) -> Seq<Seq<char>> {
        match self {
            GitCommand::Add(path) => seq!["add"@, path@],
            GitCommand::Reset(path) => seq!["reset"@, path@],
        }
    }

    /// The arguments to run the tool with.
    pub fn args(&self) -> (r: Vec<String>)
        ensures
            r@.map_values(|s: String| s@) == self.args_view(),
    {
        let mut r: Vec<String> = Vec::new();
        match self {
            GitCommand::Add(path) => {
                r.push(String::from_str("add"));
                r.push(path.clone());
            },
            GitCommand::Reset(path) => {
                r.push(String::from_str("reset"));
                r.push(path.clone());
            },
        }
        assert(r@.map_values(|s: String| s@) =~= self.args_view());
        r
    }
}

/// What running a command reported.
#[derive(Debug, Clone, Copy, PartialEq, Eq, Structural)]
pub enum CommandOutcome {
    /// The tool ran and exited with success.
    Succeeded,
    /// The tool ran and exited with a failure status.
    Failed,
    /// The tool's executable could not be started.
    NotLaunched,
}

/// Why a transition did not take effect.
#[derive(Debug, Clone, Copy, PartialEq, Eq, Structural)]
pub enum TransitionError {
    /// The tool's executable could not be started.
    LaunchFailure,
    /// The tool ran and exited with a failure status.
    CommandFailure,
}

/// The result a transition reports for a given outcome of its command.
pub open spec fn outcome_result(o: CommandOutcome) -> Result<(), TransitionError> {
    match o {
        CommandOutcome::Succeeded => Ok(()),
        CommandOutcome::Failed => Err(TransitionError::CommandFailure),
        CommandOutcome::NotLaunched => Err(TransitionError::LaunchFailure),
    }
}

} // verus!
