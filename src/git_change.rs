use vstd::prelude::*;
use vstd::string::StringExecFns;
use vstd::utf8::encode_utf8;
use core::cmp::Ordering;
use crate::order::{bytes_cmp, compare_bytes};
use crate::command::{outcome_result, CommandOutcome, GitCommand, TransitionError};

verus! {

/// Where a changed path stands with respect to the tool's index.
#[derive(Debug, Clone, Copy, PartialEq, Eq, Structural)]
pub enum GitChangeStatus {
    Staged,
    Unstaged,
    Untracked,
}

impl GitChangeStatus {
    /// The rank used for ordering: staged first, untracked last.
    pub open spec fn rank(self) -> nat {
        match self {
            GitChangeStatus::Staged => 0,
            GitChangeStatus::Unstaged => 1,
            GitChangeStatus::Untracked => 2,
        }
    }

    /// The human-readable label, equal to the variant's name.
    pub open spec fn label_view(self) -> Seq<char> {
        match self {
            GitChangeStatus::Staged => "Staged"@,
            GitChangeStatus::Unstaged => "Unstaged"@,
            GitChangeStatus::Untracked => "Untracked"@,
        }
    }

    /// The status's rank as an integer.
    pub fn get_status_code(&self) -> (r: usize)
        ensures
            r == self.rank(),
    {
        match self {
            GitChangeStatus::Staged => 0,
            GitChangeStatus::Unstaged => 1,
            GitChangeStatus::Untracked => 2,
        }
    }

    /// The status's label, as text.
    pub fn label(&self) -> (r: String)
        ensures
            r@ == self.label_view(),
    {
        match self {
            GitChangeStatus::Staged => String::from_str("Staged"),
            GitChangeStatus::Unstaged => String::from_str("Unstaged"),
            GitChangeStatus::Untracked => String::from_str("Untracked"),
        }
    }
}

/// One changed path in the working tree with its last known classification.
#[derive(Debug, Clone)]
pub struct GitChange {
    /// The path relative to the working tree, as the tool reports it.
    pub path: String,
    /// The classification as of the last query of the tool.
    pub status: GitChangeStatus,
}

/// The display order of two records: status rank first, then the paths' bytes
/// compared lexicographically, which is how `str` orders text.
pub open spec fn change_cmp(a: GitChange, b: GitChange) -> Ordering {
    if a.status == b.status {
        bytes_cmp(encode_utf8(a.path@), encode_utf8(b.path@))
    } else if a.status.rank() < b.status.rank() {
        Ordering::Less
    } else {
        Ordering::Greater
    }
}

impl GitChange {
    /// The rendered form: the status label, a tab, a colon and a space, then the path.
    pub open spec fn render_view(self) -> Seq<char> {
        self.status.label_view() + "\t: "@ + self.path@
    }

    /// A record of `path` with status `status`.
    pub fn new(path: String, status: GitChangeStatus) -> (r: Self)
        ensures
            r.path == path,
            r.status == status,
    {
        Self { path, status }
    }

    /// The record as shown to a person, e.g. `Untracked\t: src/main.rs`.
    pub fn render(&self) -> (r: String)
        ensures
            r@ == self.render_view(),
    {
        let mut r = self.status.label();
        r.append("\t: ");
        r.append(self.path.as_str());
        r
    }

    /// The status after a transition toward `target` whose command reported `o`:
    /// `target` on success, the status as it was otherwise.
    pub open spec fn status_after(self, target: GitChangeStatus, o: CommandOutcome) -> GitChangeStatus {
        if o == CommandOutcome::Succeeded {
            target
        } else {
            self.status
        }
    }

    /// Applies what the tool reported for a transition toward `target`. The status
    /// changes only when the command succeeded, so a failed command never leaves
    /// the record claiming a state the tool did not reach.
    pub fn record_outcome(&mut self, target: GitChangeStatus, outcome: CommandOutcome) -> (r: Result<
        (),
        TransitionError,
    >)
        ensures
            r == outcome_result(outcome),
            final(self).path == old(self).path,
            final(self).status == old(self).status_after(target, outcome),
    {
        match outcome {
            CommandOutcome::Succeeded => {
                self.status = target;
                Ok(())
            },
            CommandOutcome::Failed => Err(TransitionError::CommandFailure),
            CommandOutcome::NotLaunched => Err(TransitionError::LaunchFailure),
        }
    }

    /// Stages the path: hands `add <path>` to `run`, which runs the tool to
    /// completion, and marks the record staged if the tool succeeded.
    pub fn stage<F: Fn(GitCommand) -> CommandOutcome>(&mut self, run: F) -> (r: Result<
        (),
        TransitionError,
    >)
        requires
            run.requires((GitCommand::Add(old(self).path),)),
        ensures
            exists|o: CommandOutcome|
                {
                    &&& run.ensures((GitCommand::Add(old(self).path),), o)
                    &&& r == outcome_result(o)
                    &&& final(self).path == old(self).path
                    &&& final(self).status == old(self).status_after(GitChangeStatus::Staged, o)
                },
    {
        let outcome = run(GitCommand::Add(self.path.clone()));
        self.record_outcome(GitChangeStatus::Staged, outcome)
    }

    /// Unstages the path: hands `reset <path>` to `run`, which runs the tool to
    /// completion, and marks the record unstaged if the tool succeeded.
    pub fn unstage<F: Fn(GitCommand) -> CommandOutcome>(&mut self, run: F) -> (r: Result<
        (),
        TransitionError,
    >)
        requires
            run.requires((GitCommand::Reset(old(self).path),)),
        ensures
            exists|o: CommandOutcome|
                {
                    &&& run.ensures((GitCommand::Reset(old(self).path),), o)
                    &&& r == outcome_result(o)
                    &&& final(self).path == old(self).path
                    &&& final(self).status == old(self).status_after(GitChangeStatus::Unstaged, o)
                },
    {
        let outcome = run(GitCommand::Reset(self.path.clone()));
        self.record_outcome(GitChangeStatus::Unstaged, outcome)
    }

    /// Whether this record comes no later than `other` in display order.
    pub fn orders_no_later_than(&self, other: &GitChange) -> (r: bool)
        ensures
            r == (change_cmp(*self, *other) != Ordering::Greater),
    {
        match self.compare(other) {
            Ordering::Greater => false,
            _ => true,
        }
    }

    /// Compares two records in display order.
    pub fn compare(&self, other: &GitChange) -> (r: Ordering)
        ensures
            r == change_cmp(*self, *other),
    {
        if self.status == other.status {
            compare_bytes(self.path.as_str().as_bytes(), other.path.as_str().as_bytes())
        } else if self.status.get_status_code() < other.status.get_status_code() {
            Ordering::Less
        } else {
            Ordering::Greater
        }
    }
}

impl PartialEq for GitChange {
    fn eq(&self, other: &GitChange) -> (r: bool) {
        self.status == other.status && self.path == other.path
    }
}

impl Eq for GitChange {}

impl vstd::std_specs::cmp::PartialEqSpecImpl for GitChange {
    open spec fn obeys_eq_spec() -> bool {
        true
    }

    open spec fn eq_spec(&self, other: &GitChange) -> bool {
        self.status == other.status && self.path@ == other.path@
    }
}

impl PartialOrd for GitChange {
    fn partial_cmp(&self, other: &GitChange) -> (r: Option<Ordering>) {
        Some(self.compare(other))
    }
}

impl vstd::std_specs::cmp::PartialOrdSpecImpl for GitChange {
    open spec fn obeys_partial_cmp_spec() -> bool {
        true
    }

    open spec fn partial_cmp_spec(&self, other: &GitChange) -> Option<Ordering> {
        Some(change_cmp(*self, *other))
    }
}

} // verus!
