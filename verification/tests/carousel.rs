use gashuu::carousel_refresh::carousel_move;
use gashuu::carousel::{cover_requests, thumb_state_at, ThumbState};
use gashuu::carousel_refresh::{
    clamp_focused_index, entry_focus_index, visible_focus_index_for_path, visible_index_to_path,
};
use gashuu::library_model::{BookEntry, LibrarySnapshot};

fn book(path: &str) -> BookEntry {
    let leaf = path.rsplit('/').next().unwrap();
    let title = leaf.split('.').next().unwrap();
    BookEntry {
        path: path.to_string(),
        title: title.to_string(),
        current: 1,
        page_count: None,
        available: true,
    }
}

fn lib_of(paths: &[&str]) -> LibrarySnapshot {
    LibrarySnapshot { books: paths.iter().map(|p| book(p)).collect(), last_opened: None }
}

#[test]
fn cover_requests_flags_only_books_with_unknown_count() {
    let mut lib = lib_of(&["/root/known", "/root/unknown"]);
    lib.books[0].page_count = Some(10);
    let known_path = lib.books[0].path.clone();

    let reqs = cover_requests(&lib, &[0, 1]);
    assert_eq!(reqs.len(), 2);
    assert_eq!(reqs[0].row, 0);
    assert_eq!(reqs[0].path, known_path);
    assert!(!reqs[0].needs_count, "book with a known total must not be re-opened just to count");
    assert_eq!(reqs[1].row, 1);
    let unknown_path = lib.books[1].path.clone();
    assert_eq!(reqs[1].path, unknown_path);
    assert!(reqs[1].needs_count, "fresh book with no persisted total needs its count resolved");
}

#[test]
fn cover_requests_rebase_rows_to_filtered_model() {
    let lib = lib_of(&["/manga/alpha.cbz", "/manga/beta.cbz"]);
    let beta_path = lib.books[1].path.clone();
    let reqs = cover_requests(&lib, &[1]);
    assert_eq!(reqs.len(), 1);
    assert_eq!(reqs[0].row, 0);
    assert_eq!(reqs[0].path, beta_path);
}

#[test]
fn cover_requests_skips_out_of_range_index() {
    let lib = lib_of(&["/manga/alpha.cbz"]);
    let reqs = cover_requests(&lib, &[0, 99]);
    assert_eq!(reqs.len(), 1);
    assert_eq!(reqs[0].row, 0);
}

fn cell(loaded: bool, failed: bool) -> (bool, bool) {
    (loaded, failed)
}

#[test]
fn loaded_page_reports_loaded_not_failed() {
    let (loaded, failed) = thumb_state_at(&[cell(true, false)], 0).flags();
    assert!(loaded);
    assert!(!failed);
}

#[test]
fn still_loading_page_reports_neither() {
    let (loaded, failed) = thumb_state_at(&[cell(false, false)], 0).flags();
    assert!(!loaded);
    assert!(!failed);
}

#[test]
fn failed_page_reports_failed() {
    let (loaded, failed) = thumb_state_at(&[cell(false, true)], 0).flags();
    assert!(!loaded);
    assert!(failed);
}

#[test]
fn loaded_page_overrides_failed_flag() {
    let (loaded, failed) = thumb_state_at(&[cell(true, true)], 0).flags();
    assert!(loaded);
    assert!(!failed);
}

#[test]
fn out_of_range_page_reports_blank() {
    let (loaded, failed) = thumb_state_at(&[cell(true, false)], 5).flags();
    assert!(!loaded);
    assert!(!failed);
}

#[test]
fn thumbnail_item_loading_maps_to_neither_flag() {
    assert_eq!(ThumbState::Loading.flags(), (false, false));
}

#[test]
fn thumbnail_item_loaded_sets_loaded_flag() {
    assert_eq!(ThumbState::Loaded.flags(), (true, false));
}

#[test]
fn thumbnail_item_failed_sets_failed_flag() {
    assert_eq!(ThumbState::Failed.flags(), (false, true));
}

#[test]
fn cell_flags_read_back_as_the_same_state() {
    for s in [ThumbState::Loaded, ThumbState::Failed, ThumbState::Loading] {
        let (loaded, failed) = s.flags();
        assert_eq!(thumb_state_at(&[(loaded, failed)], 0), s);
    }
}

#[test]
fn visible_focus_index_for_path_uses_filtered_rows() {
    let lib = lib_of(&["/manga/alpha.cbz", "/manga/beta.cbz", "/manga/gamma.cbz"]);
    let path = lib.books[2].path.clone();
    assert_eq!(visible_focus_index_for_path(&lib, &[2], &path), Some(0));
    assert_eq!(visible_focus_index_for_path(&lib, &[0, 1], &path), None);
}

fn library_with_last_opened(index: usize) -> LibrarySnapshot {
    let mut lib = lib_of(&["/manga/alpha.cbz", "/manga/beta.cbz", "/manga/gamma.cbz"]);
    lib.last_opened = Some(lib.books[index].path.clone());
    lib
}

#[test]
fn entry_focus_index_resolves_last_opened_with_no_filter() {
    let lib = library_with_last_opened(1);
    assert_eq!(entry_focus_index(&lib, &[0, 1, 2]), 1);
}

#[test]
fn entry_focus_index_uses_filtered_position() {
    let lib = library_with_last_opened(2);
    assert_eq!(entry_focus_index(&lib, &[1, 2]), 1);
}

#[test]
fn entry_focus_index_falls_back_when_last_opened_filtered_out() {
    let lib = library_with_last_opened(0);
    assert_eq!(entry_focus_index(&lib, &[2]), 0);
}

#[test]
fn entry_focus_index_falls_back_when_no_last_opened() {
    let lib = lib_of(&["/manga/alpha.cbz"]);
    assert_eq!(lib.last_opened, None, "no book opened yet");
    assert_eq!(entry_focus_index(&lib, &[0]), 0);
}

#[test]
fn entry_focus_index_falls_back_for_empty_library() {
    let lib = lib_of(&[]);
    assert_eq!(entry_focus_index(&lib, &[]), 0);
}

#[test]
fn clamp_focused_index_pins_into_shrunken_projection() {
    assert_eq!(clamp_focused_index(7, 3), 2, "past-end clamps to last row");
    assert_eq!(clamp_focused_index(7, 0), 0, "empty projection floors to 0");
    assert_eq!(clamp_focused_index(0, 0), 0, "0 on empty stays 0");
    assert_eq!(clamp_focused_index(1, 4), 1, "in-range index unchanged");
    assert_eq!(clamp_focused_index(0, 1), 0, "single row keeps focus at 0");
    assert_eq!(clamp_focused_index(-1, 4), 0, "negative floors to 0");
}

#[test]
fn visible_index_to_path_maps_rows_back_to_books() {
    let lib = lib_of(&["/manga/alpha.cbz", "/manga/beta.cbz"]);
    assert_eq!(visible_index_to_path(&lib, &[1, 0], 0).as_deref(), Some("/manga/beta.cbz"));
    assert_eq!(visible_index_to_path(&lib, &[1, 0], -1), None);
    assert_eq!(visible_index_to_path(&lib, &[1, 0], 2), None);
    assert_eq!(visible_index_to_path(&lib, &[7], 0), None);
}

#[test]
fn selection_flags_cover_in_range_rows() {
    let lib = lib_of(&["/manga/alpha.cbz", "/manga/beta.cbz"]);
    let mut sel = gashuu::library_model::LibrarySelectionState::default();
    sel.toggle("/manga/beta.cbz".to_string());
    assert_eq!(
        gashuu::carousel::selection_flags(&lib, &[1, 9, 0], &sel),
        vec![(0, true), (2, false)]
    );
}

#[test]
fn carousel_move_clamps_into_the_projection() {
    assert_eq!(carousel_move(2, 1, 0), None);
    assert_eq!(carousel_move(2, 1, 5), Some(3));
    assert_eq!(carousel_move(4, 1, 5), Some(4));
    assert_eq!(carousel_move(0, -1, 5), Some(0));
}
