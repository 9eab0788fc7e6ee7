//! Single-book open rules: which notices an open raises, how a skipped-entry
//! notice is worded, and what an empty book's rejection reports.
use crate::library_model::LibrarySnapshot;
use crate::remove_books::{book_title_for, find_title};
use vstd::prelude::*;

verus! {

/// How a skipped-entries notice is qualified: a folder lists no archive
/// detail, an archive does.
#[derive(Clone, Copy, PartialEq, Eq, Debug, Structural)]
pub enum SkippedDetail {
    NoDetail,
    Archive,
}

/// The notices one open raises: skipped entries, and the rendered errors of a
/// failed settings save and of a failed library save.
#[derive(Debug, PartialEq, Eq)]
pub struct NoticesContent {
    pub skipped: usize,
    pub skipped_detail: SkippedDetail,
    pub settings_save_err: Option<String>,
    pub library_save_err: Option<String>,
}

/// What opening a book ended in.
#[derive(Debug)]
pub enum OpenOutcome {
    /// The source could not be opened; the rendered error.
    Error(String),
    /// Opened; its notices, and whether its stored page count changed.
    Success { notices: NoticesContent, count_changed: bool },
    /// Opened but holds no page: rejected, and removed from the library when
    /// it was stored there.
    EmptyBookRejected { title: String, removed: bool, save_error: Option<String> },
}

/// The report of removing an empty book from the library.
#[derive(Debug)]
pub struct EmptyBookOutcome {
    pub title: String,
    pub removed: bool,
    pub save_error: Option<String>,
}

/// The skipped-entries qualifier for a source: none for a folder, archive
/// otherwise.
pub fn skipped_detail_for(is_dir: bool) -> (d: SkippedDetail)
    ensures
        d == if is_dir {
            SkippedDetail::NoDetail
        } else {
            SkippedDetail::Archive
        },
{
    if is_dir {
        SkippedDetail::NoDetail
    } else {
        SkippedDetail::Archive
    }
}

/// The notices of an open: the skipped count and qualifier, the settings
/// save error (when recent sources are tracked and saving them failed), and
/// the library save error.
pub fn notices_content(
    skipped: usize,
    skipped_detail: SkippedDetail,
    settings_save: Option<&Result<(), String>>,
    library_save: &Result<(), String>,
) -> (c: NoticesContent)
    ensures
        c.skipped == skipped,
        c.skipped_detail == skipped_detail,
        c.settings_save_err == match settings_save {
            Some(Err(e)) => Some(*e),
            _ => None::<String>,
        },
        c.library_save_err == match library_save {
            Err(e) => Some(*e),
            Ok(_) => None::<String>,
        },
{
    let settings_save_err = match settings_save {
        Some(Err(e)) => Some(e.clone()),
        _ => None,
    };
    let library_save_err = match library_save {
        Err(e) => Some(e.clone()),
        Ok(_) => None,
    };
    NoticesContent { skipped, skipped_detail, settings_save_err, library_save_err }
}

/// The stored title of the book at `path`, if it is stored.
pub fn book_display_title(library: &LibrarySnapshot, path: &str) -> (r: Option<String>)
    ensures
        r matches Some(t) ==> book_title_for(library.books@, path@) == Some(t@),
        r is None ==> book_title_for(library.books@, path@) is None,
{
    find_title(library, path)
}

/// The report of an empty book's removal: its title, whether it was removed,
/// and the rendered save error; the library is saved only after a removal, so
/// a book that was not stored carries no save error.
pub fn empty_book_outcome(title: String, removed: bool, save: Result<(), String>) -> (o: EmptyBookOutcome)
    ensures
        o.title == title,
        o.removed == removed,
        o.save_error == if removed {
            match save {
                Err(e) => Some(e),
                Ok(_) => None::<String>,
            }
        } else {
            None::<String>
        },
{
    let save_error = if removed {
        match save {
            Err(e) => Some(e),
            Ok(_) => None,
        }
    } else {
        None
    };
    EmptyBookOutcome { title, removed, save_error }
}

/// How the UI follows up a finished open: whether to enter the viewer (a
/// successful open), and whether to report the book inaccessible (the open
/// failed and its path no longer exists).
pub fn open_finalize_plan(outcome: &OpenOutcome, path_exists: Option<bool>) -> (r: (bool, bool))
    ensures
        r.0 == (outcome is Success),
        r.1 == (outcome is Error && path_exists == Some(false)),
{
    let enter_viewer = match outcome {
        OpenOutcome::Success { .. } => true,
        _ => false,
    };
    let open_failed = match outcome {
        OpenOutcome::Error(_) => true,
        _ => false,
    };
    let gone = match path_exists {
        Some(false) => true,
        _ => false,
    };
    (enter_viewer, open_failed && gone)
}

/// What an open does once the source was tried: report the open error;
/// reject an empty book stored under its canonical path; or go on, pushing the
/// source to the recent list (and saving settings) when recent sources are
/// tracked, and registering the book under its canonical path when it has one.
#[derive(Debug, PartialEq, Eq)]
pub enum OpenPlan {
    Fail(String),
    RejectEmpty { canonical: String },
    Proceed { push_recent: bool, register: Option<String> },
}

/// Decide how an open goes on from its attempt: `opened` is the open result,
/// `canonical` the path the source was opened under, `has_pages` whether it
/// holds a page. An empty source without a canonical path goes on like a
/// book with pages.
pub fn open_plan(opened: Result<(), String>, canonical: Option<String>, has_pages: bool, track_recent: bool) -> (p: OpenPlan)
    ensures
        opened matches Err(e) ==> p == OpenPlan::Fail(e),
        opened is Ok && !has_pages && canonical is Some ==> p == (OpenPlan::RejectEmpty {
            canonical: canonical.unwrap(),
        }),
        opened is Ok && (has_pages || canonical is None) ==> p == (OpenPlan::Proceed {
            push_recent: track_recent,
            register: canonical,
        }),
{
    match opened {
        Err(e) => OpenPlan::Fail(e),
        Ok(()) => {
            if !has_pages && canonical.is_some() {
                OpenPlan::RejectEmpty { canonical: canonical.unwrap() }
            } else {
                OpenPlan::Proceed { push_recent: track_recent, register: canonical }
            }
        },
    }
}

/// The fields of a successful open's outcome: skipped count, qualifier,
/// settings and library save errors, and whether the page count changed.
pub open spec fn success_fields(o: OpenOutcome) -> Option<(usize, SkippedDetail, Option<String>, Option<String>, bool)> {
    match o {
        OpenOutcome::Success { notices, count_changed } => Some(
            (
                notices.skipped,
                notices.skipped_detail,
                notices.settings_save_err,
                notices.library_save_err,
                count_changed,
            ),
        ),
        _ => None,
    }
}

/// The rendered error of a failed save, if it failed.
pub open spec fn save_error_of(save: Option<Result<(), String>>) -> Option<String> {
    match save {
        Some(Err(e)) => Some(e),
        _ => None,
    }
}

/// The outcome of an open that went on: its notices (the skipped entries,
/// qualified by whether the source is a folder, and the settings save result
/// when recent sources are tracked; the library save on open is best effort
/// and never reported), and whether the stored page count changed.
pub fn open_success(skipped: usize, is_dir: bool, settings_save: Option<Result<(), String>>, count_changed: bool) -> (o: OpenOutcome)
    ensures
        success_fields(o) == Some(
            (
                skipped,
                if is_dir { SkippedDetail::NoDetail } else { SkippedDetail::Archive },
                save_error_of(settings_save),
                None::<String>,
                count_changed,
            ),
        ),
{
    let detail = skipped_detail_for(is_dir);
    let notices = notices_content(skipped, detail, settings_save.as_ref(), &Ok(()));
    OpenOutcome::Success { notices, count_changed }
}

/// The outcome of rejecting an empty book.
pub fn open_rejected(e: EmptyBookOutcome) -> (o: OpenOutcome)
    ensures
        o == (OpenOutcome::EmptyBookRejected {
            title: e.title,
            removed: e.removed,
            save_error: e.save_error,
        }),
{
    OpenOutcome::EmptyBookRejected { title: e.title, removed: e.removed, save_error: e.save_error }
}

} // verus!
