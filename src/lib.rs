//! The change set of a version-controlled working tree: each changed path with its
//! classification, a total display order, aggregate predicates over a collection,
//! and the staging transitions that hand a command to the version-control tool.

pub mod changes;
pub mod command;
pub mod git_change;
pub mod order;

pub use changes::GitChanges;
pub use command::{CommandOutcome, GitCommand, TransitionError};
pub use git_change::{GitChange, GitChangeStatus};
pub use order::sort_changes;
