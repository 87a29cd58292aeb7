use vstd::prelude::*;
use crate::git_change::{GitChange, GitChangeStatus};

verus! {

/// Whether some record of `s` has status `st`.
pub open spec fn any_with_status(s: Seq<GitChange>, st: GitChangeStatus) -> bool {
    exists|i: int| 0 <= i < s.len() && (#[trigger] s[i]).status == st
}

/// Aggregate predicates over a collection of change records.
pub trait GitChanges: View<V = Seq<GitChange>> {
    fn has_staged_changes(&self) -> (r: bool)
        ensures
            r == any_with_status(self@, GitChangeStatus::Staged),
    ;

    fn has_unstaged_changes(&self) -> (r: bool)
        ensures
            r == any_with_status(self@, GitChangeStatus::Unstaged),
    ;

    fn has_untracked_changes(&self) -> (r: bool)
        ensures
            r == any_with_status(self@, GitChangeStatus::Untracked),
    ;

    fn has_changes(&self) -> (r: bool)
        ensures
            r == (self@.len() > 0),
    ;
}

/// Whether some record of `changes` has status `st`, scanning until the first match.
pub fn has_status(changes: &Vec<GitChange>, st: GitChangeStatus) -> (r: bool)
    ensures
        r == any_with_status(changes@, st),
{
    let mut i: usize = 0;
    while i < changes.len()
        invariant
            i <= changes@.len(),
            forall|k: int| 0 <= k < i ==> (#[trigger] changes@[k]).status != st,
        decreases changes@.len() - i,
    {
        if changes[i].status == st {
            return true;
        }
        i = i + 1;
    }
    false
}

impl GitChanges for Vec<GitChange> {
    fn has_staged_changes(&self) -> (r: bool) {
        has_status(self, GitChangeStatus::Staged)
    }

    fn has_unstaged_changes(&self) -> (r: bool) {
        has_status(self, GitChangeStatus::Unstaged)
    }

    fn has_untracked_changes(&self) -> (r: bool) {
        has_status(self, GitChangeStatus::Untracked)
    }

    fn has_changes(&self) -> (r: bool) {
        self.len() > 0
    }
}

} // verus!
