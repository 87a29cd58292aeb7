use changeset::order::compare_bytes;
use changeset::{
    sort_changes, CommandOutcome, GitChange, GitChangeStatus, GitChanges, GitCommand,
    TransitionError,
};
use std::cell::RefCell;
use std::cmp::Ordering;

fn change(path: &str, status: GitChangeStatus) -> GitChange {
    GitChange::new(path.to_string(), status)
}

#[test]
fn status_codes_follow_rank() {
    assert_eq!(GitChangeStatus::Staged.get_status_code(), 0);
    assert_eq!(GitChangeStatus::Unstaged.get_status_code(), 1);
    assert_eq!(GitChangeStatus::Untracked.get_status_code(), 2);
}

#[test]
fn status_labels_are_variant_names() {
    assert_eq!(GitChangeStatus::Staged.label(), "Staged");
    assert_eq!(GitChangeStatus::Unstaged.label(), "Unstaged");
    assert_eq!(GitChangeStatus::Untracked.label(), "Untracked");
}

#[test]
fn statuses_order_staged_unstaged_untracked() {
    let staged = change("x", GitChangeStatus::Staged);
    let unstaged = change("x", GitChangeStatus::Unstaged);
    let untracked = change("x", GitChangeStatus::Untracked);
    assert!(staged < unstaged);
    assert!(unstaged < untracked);
    assert!(staged < untracked);
    assert_eq!(untracked.compare(&staged), Ordering::Greater);
    assert_eq!(unstaged.compare(&unstaged.clone()), Ordering::Equal);
}

#[test]
fn equal_status_orders_by_path() {
    let b = change("b.txt", GitChangeStatus::Unstaged);
    let a = change("a.txt", GitChangeStatus::Unstaged);
    assert!(b > a);
    assert_eq!(b.partial_cmp(&a), Some(Ordering::Greater));
    assert_eq!(a.compare(&b), Ordering::Less);
}

#[test]
fn different_status_ignores_path() {
    let z = change("z.txt", GitChangeStatus::Staged);
    let a = change("a.txt", GitChangeStatus::Unstaged);
    assert!(z < a);
    assert_eq!(a.partial_cmp(&z), Some(Ordering::Greater));
}

#[test]
fn path_prefix_orders_first() {
    let short = change("src", GitChangeStatus::Staged);
    let long = change("src/main.rs", GitChangeStatus::Staged);
    assert!(short < long);
    assert_eq!(compare_bytes(b"abc", b"abd"), Ordering::Less);
    assert_eq!(compare_bytes(b"", b""), Ordering::Equal);
    assert_eq!(compare_bytes(b"b", b"ab"), Ordering::Greater);
}

#[test]
fn records_equal_iff_path_and_status_equal() {
    let a = change("a.txt", GitChangeStatus::Staged);
    assert_eq!(a, change("a.txt", GitChangeStatus::Staged));
    assert_ne!(a, change("a.txt", GitChangeStatus::Unstaged));
    assert_ne!(a, change("b.txt", GitChangeStatus::Staged));
}

#[test]
fn has_changes_tracks_emptiness() {
    let empty: Vec<GitChange> = Vec::new();
    assert!(!empty.has_changes());
    assert!(vec![change("a.txt", GitChangeStatus::Untracked)].has_changes());
}

#[test]
fn status_predicates_on_empty_collection() {
    let empty: Vec<GitChange> = Vec::new();
    assert!(!empty.has_staged_changes());
    assert!(!empty.has_unstaged_changes());
    assert!(!empty.has_untracked_changes());
}

#[test]
fn status_predicates_match_present_statuses() {
    let changes = vec![
        change("a.txt", GitChangeStatus::Unstaged),
        change("b.txt", GitChangeStatus::Untracked),
        change("c.txt", GitChangeStatus::Unstaged),
    ];
    assert!(!changes.has_staged_changes());
    assert!(changes.has_unstaged_changes());
    assert!(changes.has_untracked_changes());
    let staged = vec![change("d.txt", GitChangeStatus::Staged)];
    assert!(staged.has_staged_changes());
    assert!(!staged.has_unstaged_changes());
    assert!(!staged.has_untracked_changes());
}

#[test]
fn render_untracked_record() {
    let record = change("src/main.rs", GitChangeStatus::Untracked);
    assert_eq!(record.render(), "Untracked\t: src/main.rs");
    assert_eq!(change("a", GitChangeStatus::Staged).render(), "Staged\t: a");
}

#[test]
fn sort_orders_by_status_then_path() {
    let mut changes = vec![
        change("a.txt", GitChangeStatus::Staged),
        change("z.txt", GitChangeStatus::Untracked),
        change("m.txt", GitChangeStatus::Unstaged),
    ];
    sort_changes(&mut changes);
    assert_eq!(
        changes,
        vec![
            change("a.txt", GitChangeStatus::Staged),
            change("m.txt", GitChangeStatus::Unstaged),
            change("z.txt", GitChangeStatus::Untracked),
        ]
    );
}

#[test]
fn sort_handles_paths_within_a_status_and_empty() {
    let mut changes = vec![
        change("c", GitChangeStatus::Unstaged),
        change("b", GitChangeStatus::Staged),
        change("a", GitChangeStatus::Unstaged),
        change("a", GitChangeStatus::Staged),
    ];
    sort_changes(&mut changes);
    let paths: Vec<String> = changes.iter().map(|c| c.render()).collect();
    assert_eq!(paths, vec!["Staged\t: a", "Staged\t: b", "Unstaged\t: a", "Unstaged\t: c"]);
    let mut empty: Vec<GitChange> = Vec::new();
    sort_changes(&mut empty);
    assert!(empty.is_empty());
}

#[test]
fn stage_hands_add_with_path_and_marks_staged() {
    let seen = RefCell::new(Vec::new());
    let mut record = change("src/lib.rs", GitChangeStatus::Unstaged);
    let r = record.stage(|c: GitCommand| {
        seen.borrow_mut().push(c.args());
        CommandOutcome::Succeeded
    });
    assert_eq!(r, Ok(()));
    assert_eq!(record.status, GitChangeStatus::Staged);
    assert_eq!(record.path, "src/lib.rs");
    assert_eq!(seen.into_inner(), vec![vec!["add".to_string(), "src/lib.rs".to_string()]]);
}

#[test]
fn stage_failure_leaves_status() {
    let mut record = change("a.txt", GitChangeStatus::Unstaged);
    let r = record.stage(|_c: GitCommand| CommandOutcome::Failed);
    assert_eq!(r, Err(TransitionError::CommandFailure));
    assert_eq!(record.status, GitChangeStatus::Unstaged);
    let r = record.stage(|_c: GitCommand| CommandOutcome::NotLaunched);
    assert_eq!(r, Err(TransitionError::LaunchFailure));
    assert_eq!(record.status, GitChangeStatus::Unstaged);
}

#[test]
fn unstage_hands_reset_with_path_and_marks_unstaged() {
    let seen = RefCell::new(Vec::new());
    let mut record = change("docs/a b.md", GitChangeStatus::Staged);
    let r = record.unstage(|c: GitCommand| {
        seen.borrow_mut().push(c.args());
        CommandOutcome::Succeeded
    });
    assert_eq!(r, Ok(()));
    assert_eq!(record.status, GitChangeStatus::Unstaged);
    assert_eq!(seen.into_inner(), vec![vec!["reset".to_string(), "docs/a b.md".to_string()]]);
}

#[test]
fn unstage_failure_leaves_status() {
    let mut record = change("a.txt", GitChangeStatus::Staged);
    assert_eq!(
        record.unstage(|_c: GitCommand| CommandOutcome::Failed),
        Err(TransitionError::CommandFailure)
    );
    assert_eq!(record.status, GitChangeStatus::Staged);
    assert_eq!(
        record.unstage(|_c: GitCommand| CommandOutcome::NotLaunched),
        Err(TransitionError::LaunchFailure)
    );
    assert_eq!(record.status, GitChangeStatus::Staged);
}

#[test]
fn repeated_stage_keeps_staged() {
    let mut record = change("a.txt", GitChangeStatus::Staged);
    assert_eq!(record.stage(|_c: GitCommand| CommandOutcome::Succeeded), Ok(()));
    assert_eq!(record.stage(|_c: GitCommand| CommandOutcome::Succeeded), Ok(()));
    assert_eq!(record.status, GitChangeStatus::Staged);
}

#[test]
fn record_outcome_applies_target_only_on_success() {
    let mut record = change("a.txt", GitChangeStatus::Untracked);
    assert_eq!(
        record.record_outcome(GitChangeStatus::Unstaged, CommandOutcome::Failed),
        Err(TransitionError::CommandFailure)
    );
    assert_eq!(record.status, GitChangeStatus::Untracked);
    assert_eq!(
        record.record_outcome(GitChangeStatus::Unstaged, CommandOutcome::Succeeded),
        Ok(())
    );
    assert_eq!(record.status, GitChangeStatus::Unstaged);
}

#[test]
fn command_args_name_operation_then_path() {
    assert_eq!(
        GitCommand::Add("x/y.rs".to_string()).args(),
        vec!["add".to_string(), "x/y.rs".to_string()]
    );
    assert_eq!(
        GitCommand::Reset("y".to_string()).args(),
        vec!["reset".to_string(), "y".to_string()]
    );
}
