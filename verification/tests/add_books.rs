use gashuu::add_books::{add_report_status, AddStatus};
use gashuu::add_books::{plan_adds, select_add_notice, AddNotice, AddReport};
use gashuu::add_books::{add_report_for, new_books_of};
use gashuu::add_loader::{AddController, ProbeKind, ProbeOutcome};
use gashuu::library_model::{BookEntry, LibrarySnapshot};

#[test]
fn select_add_notice_already_in_library_when_both_zero() {
    assert_eq!(select_add_notice(0, 0), AddNotice::AlreadyInLibrary);
}

#[test]
fn select_add_notice_none_added_all_skipped_when_added_zero_skipped_nonzero() {
    assert_eq!(select_add_notice(0, 3), AddNotice::NoneAddedAllSkipped { skipped: 3 });
}

#[test]
fn select_add_notice_added_with_skips_when_both_nonzero() {
    assert_eq!(select_add_notice(2, 1), AddNotice::AddedWithSkips { added: 2, skipped: 1 });
}

#[test]
fn select_add_notice_added_when_added_nonzero_skipped_zero() {
    assert_eq!(select_add_notice(5, 0), AddNotice::Added { added: 5 });
}

fn outcome(index: usize, path: &str, kind: ProbeKind) -> ProbeOutcome {
    ProbeOutcome { index, path: path.to_string(), kind }
}

#[test]
fn plan_adds_keeps_books_in_order_and_counts_rejections() {
    let outcomes = vec![
        outcome(0, "/a", ProbeKind::Counted(3)),
        outcome(1, "/empty", ProbeKind::Empty),
        outcome(2, "/b.cbr", ProbeKind::FormatDisabled { format: "rar".to_string() }),
        outcome(3, "/missing", ProbeKind::Unreadable { error: "not found".to_string() }),
        outcome(4, "/b", ProbeKind::Counted(1)),
    ];
    let plan = plan_adds(&outcomes);
    assert_eq!(plan.to_add, vec![("/a".to_string(), 3), ("/b".to_string(), 1)]);
    assert_eq!(plan.rejected, 3);
}

#[test]
fn plan_adds_empty_batch_is_empty() {
    let plan = plan_adds(&Vec::new());
    assert!(plan.to_add.is_empty());
    assert_eq!(plan.rejected, 0);
}

#[test]
fn report_saves_only_when_something_was_added() {
    assert!(!AddReport { added: vec![], skipped: 2 }.should_save());
    assert!(AddReport { added: vec!["/a".to_string()], skipped: 0 }.should_save());
}

fn push_outcome(ctrl: &mut AddController, epoch: usize, index: usize) -> Option<usize> {
    ctrl.record_outcome(
        epoch,
        ProbeOutcome { index, path: format!("/p{index}"), kind: ProbeKind::Empty },
    )
}

#[test]
fn take_outcomes_restores_input_order() {
    let mut ctrl = AddController::new();
    for index in [2usize, 0, 1] {
        push_outcome(&mut ctrl, 0, index);
    }
    let (outcomes, _op) = ctrl.take_outcomes(0).expect("current generation drains");
    let order: Vec<usize> = outcomes.iter().map(|o| o.index).collect();
    assert_eq!(order, vec![0, 1, 2], "outcomes restored to input order");
    let (again, _) = ctrl.take_outcomes(0).expect("still current");
    assert!(again.is_empty(), "outcomes drained exactly once");
}

#[test]
fn take_outcomes_drops_superseded_generation() {
    let mut ctrl = AddController::new();
    push_outcome(&mut ctrl, 0, 0);
    for _ in 0..5 {
        ctrl.start("add-books".to_string());
    }
    assert_eq!(ctrl.current_epoch(), 5);
    assert!(ctrl.take_outcomes(0).is_none(), "a superseded generation's finalize drains nothing");
}

#[test]
fn stale_outcomes_are_dropped_and_progress_counts_current_ones() {
    let mut ctrl = AddController::new();
    let first = ctrl.start("add-books".to_string());
    let second = ctrl.start("add-folder".to_string());
    assert_eq!(push_outcome(&mut ctrl, first, 0), None, "stale worker dropped");
    assert_eq!(push_outcome(&mut ctrl, second, 1), Some(1));
    assert_eq!(push_outcome(&mut ctrl, second, 0), Some(2));
    let (outcomes, op) = ctrl.take_outcomes(second).expect("current");
    assert_eq!(op, "add-folder");
    assert_eq!(outcomes.iter().map(|o| o.index).collect::<Vec<_>>(), vec![0, 1]);
}

#[test]
fn new_controller_tags_add() {
    let mut ctrl = AddController::new();
    let (outcomes, op) = ctrl.take_outcomes(0).unwrap();
    assert!(outcomes.is_empty());
    assert_eq!(op, "add");
}

#[test]
fn add_report_status_routes_every_outcome() {
    assert_eq!(add_report_status(0, 0, false), AddStatus::AlreadyInLibrary);
    assert_eq!(add_report_status(0, 4, false), AddStatus::NoneAdded { skipped: 4 });
    assert_eq!(add_report_status(2, 1, true), AddStatus::SaveFailed { added: 2 });
    assert_eq!(add_report_status(2, 1, false), AddStatus::AddedWithSkips { added: 2, skipped: 1 });
    assert_eq!(add_report_status(2, 0, false), AddStatus::Added { added: 2 });
    assert!(!AddStatus::Added { added: 2 }.is_toast());
    assert!(AddStatus::NoneAdded { skipped: 1 }.is_toast());
}

fn shelf(paths: &[&str]) -> LibrarySnapshot {
    LibrarySnapshot {
        books: paths
            .iter()
            .map(|p| BookEntry {
                path: p.to_string(),
                title: p.to_string(),
                current: 1,
                page_count: None,
                available: true,
            })
            .collect(),
        last_opened: None,
    }
}

#[test]
fn add_paths_empty_vec_returns_zero() {
    let report = add_report_for(&plan_adds(&Vec::new()), &shelf(&[]));
    assert!(report.added.is_empty());
    assert_eq!(report.skipped, 0);
}

#[test]
fn add_paths_new_paths_counted() {
    let outcomes = vec![
        outcome(0, "/lib/vol1", ProbeKind::Counted(1)),
        outcome(1, "/lib/vol2", ProbeKind::Counted(2)),
    ];
    let plan = plan_adds(&outcomes);
    let lib = shelf(&[]);
    assert_eq!(
        new_books_of(&plan.to_add, &lib),
        vec![("/lib/vol1".to_string(), 1), ("/lib/vol2".to_string(), 2)]
    );
    let report = add_report_for(&plan, &lib);
    assert_eq!(report.added, vec!["/lib/vol1".to_string(), "/lib/vol2".to_string()]);
    assert_eq!(report.skipped, 0);
}

#[test]
fn add_paths_dedup_within_batch() {
    let outcomes = vec![
        outcome(0, "/lib/vol1", ProbeKind::Counted(1)),
        outcome(1, "/lib/vol1", ProbeKind::Counted(1)),
    ];
    let report = add_report_for(&plan_adds(&outcomes), &shelf(&[]));
    assert_eq!(report.added.len(), 1, "duplicate within the batch must not be double-counted");
    assert_eq!(report.skipped, 0, "a duplicate is not an empty/unreadable skip");
}

#[test]
fn add_paths_dedup_against_existing() {
    let outcomes = vec![
        outcome(0, "/lib/vol1", ProbeKind::Counted(1)),
        outcome(1, "/lib/vol2", ProbeKind::Counted(1)),
    ];
    let report = add_report_for(&plan_adds(&outcomes), &shelf(&["/lib/vol1"]));
    assert_eq!(report.added.len(), 1, "a path already in the library must not be counted");
    assert_eq!(report.added, vec!["/lib/vol2".to_string()]);
    assert_eq!(report.skipped, 0, "an existing path is not an empty/unreadable skip");
}

#[test]
fn add_paths_all_existing_returns_zero() {
    let outcomes = vec![
        outcome(0, "/lib/vol1", ProbeKind::Counted(1)),
        outcome(1, "/lib/vol2", ProbeKind::Counted(1)),
    ];
    let report = add_report_for(&plan_adds(&outcomes), &shelf(&["/lib/vol1", "/lib/vol2"]));
    assert!(report.added.is_empty(), "all-duplicate batch must add 0");
    assert_eq!(report.skipped, 0, "duplicates are not skips");
}

#[test]
fn add_paths_mixed_batch_counts_added_and_skipped() {
    let outcomes = vec![
        outcome(0, "/lib/valid", ProbeKind::Counted(1)),
        outcome(1, "/lib/empty", ProbeKind::Empty),
        outcome(2, "/lib/valid", ProbeKind::Counted(1)),
    ];
    let report = add_report_for(&plan_adds(&outcomes), &shelf(&[]));
    assert_eq!(report.added, vec!["/lib/valid".to_string()], "only the valid book is added");
    assert_eq!(report.skipped, 1, "the empty folder is the one skip");
}
