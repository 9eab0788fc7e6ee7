use gashuu::open_book::{open_finalize_plan, NoticesContent};
use gashuu::open_book::{open_plan, open_rejected, open_success, OpenPlan};
use gashuu::library_model::{BookEntry, LibrarySnapshot};
use gashuu::open_book::{
    book_display_title, empty_book_outcome, notices_content, skipped_detail_for, OpenOutcome,
    SkippedDetail,
};

fn err() -> Result<(), String> {
    Err("x".to_string())
}

#[test]
fn open_book_clean_open_emits_no_notices() {
    let c = notices_content(0, SkippedDetail::NoDetail, None, &Ok(()));
    assert_eq!(c.skipped, 0);
    assert!(c.settings_save_err.is_none());
    assert!(c.library_save_err.is_none());
    let c2 = notices_content(0, SkippedDetail::Archive, None, &Ok(()));
    assert_eq!(c2.skipped, 0);
}

#[test]
fn open_book_skipped_only_emits_skipped_notice() {
    let c = notices_content(3, SkippedDetail::Archive, Some(&Ok(())), &Ok(()));
    assert_eq!(c.skipped, 3);
    assert_eq!(c.skipped_detail, SkippedDetail::Archive);
    assert!(c.settings_save_err.is_none());
    assert!(c.library_save_err.is_none());
}

#[test]
fn open_book_settings_failure_only_emits_settings_notice() {
    let c = notices_content(0, SkippedDetail::NoDetail, Some(&err()), &Ok(()));
    assert_eq!(c.skipped, 0);
    let e_str = c.settings_save_err.as_ref().expect("settings_save_err must be Some");
    assert!(!e_str.is_empty(), "captured error string must not be empty");
    assert!(e_str.contains('x'), "error string must embed the 'x' from err()");
    assert!(c.library_save_err.is_none());
}

#[test]
fn open_book_library_failure_only_emits_library_notice() {
    let c = notices_content(0, SkippedDetail::NoDetail, Some(&Ok(())), &err());
    assert_eq!(c.skipped, 0);
    assert!(c.settings_save_err.is_none());
    let e_str = c.library_save_err.as_ref().expect("library_save_err must be Some");
    assert!(!e_str.is_empty(), "captured error string must not be empty");
    assert!(e_str.contains('x'), "error string must embed the 'x' from err()");
}

#[test]
fn open_book_all_three_failures_captured() {
    let c = notices_content(2, SkippedDetail::Archive, Some(&err()), &err());
    assert_eq!(c.skipped, 2);
    assert_eq!(c.skipped_detail, SkippedDetail::Archive);
    assert!(c.settings_save_err.is_some());
    assert!(c.library_save_err.is_some());
}

#[test]
fn open_book_settings_none_with_library_failure() {
    let c = notices_content(0, SkippedDetail::NoDetail, None, &err());
    assert!(c.settings_save_err.is_none());
    assert!(c.library_save_err.is_some());
}

#[test]
fn open_book_skipped_and_library_failure_without_settings_tracking() {
    let c = notices_content(1, SkippedDetail::Archive, None, &err());
    assert_eq!(c.skipped, 1);
    assert!(c.settings_save_err.is_none());
    assert!(c.library_save_err.is_some());
}

#[test]
fn open_book_skipped_and_settings_failure_captured() {
    let c = notices_content(1, SkippedDetail::NoDetail, Some(&err()), &Ok(()));
    assert_eq!(c.skipped, 1);
    assert!(c.settings_save_err.is_some());
    assert!(c.library_save_err.is_none());
}

#[test]
fn app_clean_open_emits_no_notices() {
    let c = notices_content(0, SkippedDetail::NoDetail, None, &Ok(()));
    assert_eq!(c.skipped, 0);
    assert!(c.settings_save_err.is_none());
    assert!(c.library_save_err.is_none());
    let c2 = notices_content(0, SkippedDetail::Archive, None, &Ok(()));
    assert_eq!(c2.skipped, 0);
}

#[test]
fn app_skipped_only_emits_skipped_notice() {
    let c = notices_content(3, SkippedDetail::Archive, Some(&Ok(())), &Ok(()));
    assert_eq!(c.skipped, 3);
    assert_eq!(c.skipped_detail, SkippedDetail::Archive);
    assert!(c.settings_save_err.is_none());
    assert!(c.library_save_err.is_none());
}

#[test]
fn app_settings_failure_only_emits_settings_notice() {
    let c = notices_content(0, SkippedDetail::NoDetail, Some(&err()), &Ok(()));
    assert_eq!(c.skipped, 0);
    let e_str = c.settings_save_err.as_ref().expect("settings_save_err must be Some");
    assert!(!e_str.is_empty(), "captured error string must not be empty");
    assert!(e_str.contains('x'), "error string must embed the 'x' from err()");
    assert!(c.library_save_err.is_none());
}

#[test]
fn app_library_failure_only_emits_library_notice() {
    let c = notices_content(0, SkippedDetail::NoDetail, Some(&Ok(())), &err());
    assert_eq!(c.skipped, 0);
    assert!(c.settings_save_err.is_none());
    let e_str = c.library_save_err.as_ref().expect("library_save_err must be Some");
    assert!(!e_str.is_empty(), "captured error string must not be empty");
    assert!(e_str.contains('x'), "error string must embed the 'x' from err()");
}

#[test]
fn app_all_three_failures_captured() {
    let c = notices_content(2, SkippedDetail::Archive, Some(&err()), &err());
    assert_eq!(c.skipped, 2);
    assert_eq!(c.skipped_detail, SkippedDetail::Archive);
    assert!(c.settings_save_err.is_some());
    assert!(c.library_save_err.is_some());
}

#[test]
fn app_settings_none_with_library_failure() {
    let c = notices_content(0, SkippedDetail::NoDetail, None, &err());
    assert!(c.settings_save_err.is_none());
    assert!(c.library_save_err.is_some());
}

#[test]
fn app_skipped_and_library_failure_without_settings_tracking() {
    let c = notices_content(1, SkippedDetail::Archive, None, &err());
    assert_eq!(c.skipped, 1);
    assert!(c.settings_save_err.is_none());
    assert!(c.library_save_err.is_some());
}

#[test]
fn app_skipped_and_settings_failure_captured() {
    let c = notices_content(1, SkippedDetail::NoDetail, Some(&err()), &Ok(()));
    assert_eq!(c.skipped, 1);
    assert!(c.settings_save_err.is_some());
    assert!(c.library_save_err.is_none());
}

#[test]
fn empty_book_rejected_outcome_constructs_and_matches() {
    let outcome = OpenOutcome::EmptyBookRejected {
        title: "Empty Book".to_string(),
        removed: true,
        save_error: Some("disk full".to_string()),
    };
    match outcome {
        OpenOutcome::EmptyBookRejected { title, removed, save_error } => {
            assert_eq!(title, "Empty Book");
            assert!(removed);
            assert_eq!(save_error.as_deref(), Some("disk full"));
        }
        other => panic!("expected EmptyBookRejected, got {other:?}"),
    }
}

#[test]
fn empty_book_rejected_outcome_carries_not_removed_no_error() {
    let outcome = OpenOutcome::EmptyBookRejected {
        title: "Ghost".to_string(),
        removed: false,
        save_error: None,
    };
    match outcome {
        OpenOutcome::EmptyBookRejected { title, removed, save_error } => {
            assert_eq!(title, "Ghost");
            assert!(!removed);
            assert!(save_error.is_none());
        }
        other => panic!("expected EmptyBookRejected, got {other:?}"),
    }
}

#[test]
fn empty_book_outcome_reports_the_save_error_only_after_a_removal() {
    let removed = empty_book_outcome("Vol 1".to_string(), true, Err("disk full".to_string()));
    assert_eq!(removed.title, "Vol 1");
    assert!(removed.removed);
    assert_eq!(removed.save_error.as_deref(), Some("disk full"));
    let absent = empty_book_outcome("Ghost".to_string(), false, Err("ignored".to_string()));
    assert!(!absent.removed);
    assert!(absent.save_error.is_none());
    let clean = empty_book_outcome("Vol 2".to_string(), true, Ok(()));
    assert!(clean.save_error.is_none());
}

#[test]
fn skipped_detail_depends_on_the_source_kind() {
    assert_eq!(skipped_detail_for(true), SkippedDetail::NoDetail);
    assert_eq!(skipped_detail_for(false), SkippedDetail::Archive);
}

#[test]
fn book_display_title_uses_the_stored_title() {
    let lib = LibrarySnapshot {
        books: vec![BookEntry {
            path: "/manga/Just Opened Vol.cbz".to_string(),
            title: "Just Opened Vol".to_string(),
            current: 1,
            page_count: Some(42),
            available: true,
        }],
        last_opened: None,
    };
    assert_eq!(book_display_title(&lib, "/manga/Just Opened Vol.cbz").as_deref(), Some("Just Opened Vol"));
    assert_eq!(book_display_title(&lib, "/manga/other.cbz"), None);
}

#[test]
fn open_finalize_enters_the_viewer_only_on_success() {
    let ok = OpenOutcome::Success {
        notices: NoticesContent {
            skipped: 0,
            skipped_detail: SkippedDetail::NoDetail,
            settings_save_err: None,
            library_save_err: None,
        },
        count_changed: false,
    };
    assert_eq!(open_finalize_plan(&ok, None), (true, false));
    let failed = OpenOutcome::Error("gone".to_string());
    assert_eq!(open_finalize_plan(&failed, Some(false)), (false, true));
    assert_eq!(open_finalize_plan(&failed, Some(true)), (false, false));
}

#[test]
fn open_plan_reports_the_open_error() {
    assert_eq!(
        open_plan(Err("no such file".to_string()), None, false, true),
        OpenPlan::Fail("no such file".to_string())
    );
}

#[test]
fn open_plan_rejects_an_empty_stored_book() {
    assert_eq!(
        open_plan(Ok(()), Some("/m/a".to_string()), false, true),
        OpenPlan::RejectEmpty { canonical: "/m/a".to_string() }
    );
}

#[test]
fn open_plan_goes_on_with_recents_and_registration() {
    assert_eq!(
        open_plan(Ok(()), Some("/m/a".to_string()), true, true),
        OpenPlan::Proceed { push_recent: true, register: Some("/m/a".to_string()) }
    );
    assert_eq!(
        open_plan(Ok(()), None, false, false),
        OpenPlan::Proceed { push_recent: false, register: None }
    );
}

#[test]
fn open_success_reports_settings_save_failure_only() {
    match open_success(3, false, Some(Err("denied".to_string())), true) {
        OpenOutcome::Success { notices, count_changed } => {
            assert!(count_changed);
            assert_eq!(
                notices,
                NoticesContent {
                    skipped: 3,
                    skipped_detail: SkippedDetail::Archive,
                    settings_save_err: Some("denied".to_string()),
                    library_save_err: None,
                }
            );
        }
        other => panic!("expected success, got {other:?}"),
    }
    match open_success(0, true, None, false) {
        OpenOutcome::Success { notices, count_changed } => {
            assert!(!count_changed);
            assert_eq!(notices.skipped_detail, SkippedDetail::NoDetail);
            assert_eq!(notices.settings_save_err, None);
        }
        other => panic!("expected success, got {other:?}"),
    }
}

#[test]
fn open_rejected_carries_the_removal_report() {
    let o = open_rejected(empty_book_outcome("Vol 1".to_string(), true, err()));
    match o {
        OpenOutcome::EmptyBookRejected { title, removed, save_error } => {
            assert_eq!(title, "Vol 1");
            assert!(removed);
            assert_eq!(save_error.as_deref(), Some("x"));
        }
        other => panic!("expected rejection, got {other:?}"),
    }
}

#[test]
fn run_returns_error_for_unopenable_path() {
    let plan = open_plan(Err("No such file or directory".to_string()), None, false, true);
    assert!(
        matches!(plan, OpenPlan::Fail(_)),
        "an unopenable path must yield an error, got {plan:?}"
    );
}

#[test]
fn run_rejects_empty_source_and_does_not_enter_viewer() {
    let lib = LibrarySnapshot { books: vec![], last_opened: None };
    let plan = open_plan(Ok(()), Some("/tmp/empty".to_string()), false, true);
    let canonical = match plan {
        OpenPlan::RejectEmpty { canonical } => canonical,
        other => panic!("expected RejectEmpty, got {other:?}"),
    };
    let stored = book_display_title(&lib, &canonical);
    assert!(stored.is_none(), "a never-added empty source is not stored");
    let outcome = open_rejected(empty_book_outcome("empty".to_string(), stored.is_some(), Ok(())));
    match &outcome {
        OpenOutcome::EmptyBookRejected { removed, save_error, .. } => {
            assert!(!removed, "a never-added empty source is not removed");
            assert!(save_error.is_none(), "no save is attempted when nothing was removed");
        }
        other => panic!("expected EmptyBookRejected, got {other:?}"),
    }
    assert_eq!(open_finalize_plan(&outcome, Some(true)), (false, false), "the viewer is not entered");
}
