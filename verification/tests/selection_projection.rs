use gashuu::library_model::{BookEntry, LibrarySearchState, LibrarySelectionState, LibrarySnapshot};
use gashuu::selection_projection::{
    all_visible_selected, deselect_visible, select_visible, toggle_select_all, toggle_visible_row,
    visible_selected_count,
};

fn book(path: &str) -> BookEntry {
    let leaf = path.rsplit('/').next().unwrap();
    let title = leaf.split('.').next().unwrap();
    BookEntry {
        path: path.to_string(),
        title: title.to_string(),
        current: 1,
        page_count: None,
        available: true,
    }
}

fn lib_of(paths: &[&str]) -> LibrarySnapshot {
    LibrarySnapshot { books: paths.iter().map(|p| book(p)).collect(), last_opened: None }
}

#[test]
fn selection_projection_select_visible_selects_only_the_visible_projection() {
    let lib = lib_of(&["/manga/alpha.cbz", "/manga/beta.cbz"]);
    let alpha_path = lib.books[0].path.clone();
    let beta_path = lib.books[1].path.clone();

    let mut search = LibrarySearchState::default();
    search.set_query("alpha".to_string(), &lib);
    let mut sel = LibrarySelectionState::default();
    select_visible(&mut sel, &search, &lib);

    assert!(sel.contains(&alpha_path), "visible book is selected");
    assert!(!sel.contains(&beta_path), "filtered-out book is not");
    assert_eq!(sel.count(), 1);
}

#[test]
fn selection_projection_all_visible_selected_flips_with_the_visible_set() {
    let lib = lib_of(&["/manga/alpha.cbz", "/manga/beta.cbz"]);
    let alpha_path = lib.books[0].path.clone();
    let beta_path = lib.books[1].path.clone();

    let mut search = LibrarySearchState::default();
    search.set_query(String::new(), &lib);
    let mut sel = LibrarySelectionState::default();

    assert!(!all_visible_selected(&sel, &search, &lib), "nothing selected");
    sel.toggle(alpha_path.clone());
    assert!(!all_visible_selected(&sel, &search, &lib), "only one of two visible selected");
    assert_eq!(visible_selected_count(&sel, &search, &lib), 1);

    sel.toggle(beta_path);
    assert!(all_visible_selected(&sel, &search, &lib), "both visible now selected");
    assert_eq!(visible_selected_count(&sel, &search, &lib), 2);

    search.set_query("alpha".to_string(), &lib);
    assert!(all_visible_selected(&sel, &search, &lib));
    assert_eq!(visible_selected_count(&sel, &search, &lib), 1);
}

#[test]
fn selection_projection_deselect_visible_removes_only_visible_selections_preserves_out_of_search() {
    let lib = lib_of(&["/manga/alpha.cbz", "/manga/beta.cbz"]);
    let alpha_path = lib.books[0].path.clone();
    let beta_path = lib.books[1].path.clone();

    let mut search = LibrarySearchState::default();
    search.set_query("alpha".to_string(), &lib);
    assert_eq!(search.visible_indices(), &[0]);

    let mut sel = LibrarySelectionState::default();
    sel.toggle(alpha_path.clone());
    sel.toggle(beta_path.clone());
    assert_eq!(sel.count(), 2);

    deselect_visible(&mut sel, &search, &lib);
    assert!(!sel.contains(&alpha_path), "visible alpha must be deselected");
    assert!(sel.contains(&beta_path), "out-of-search beta must remain selected");
    assert_eq!(sel.count(), 1);
}

#[test]
fn selection_projection_deselect_visible_empty_projection_is_noop() {
    let lib = lib_of(&["/manga/alpha.cbz"]);
    let alpha_path = lib.books[0].path.clone();

    let mut search = LibrarySearchState::default();
    search.set_query("no-match".to_string(), &lib);
    assert!(search.visible_indices().is_empty());

    let mut sel = LibrarySelectionState::default();
    sel.toggle(alpha_path.clone());
    assert_eq!(sel.count(), 1);

    deselect_visible(&mut sel, &search, &lib);
    assert_eq!(sel.count(), 1, "empty projection must be a no-op");
    assert!(sel.contains(&alpha_path));
}

#[test]
fn selection_projection_select_visible_then_deselect_visible_clears_all_visible() {
    let lib = lib_of(&["/manga/alpha.cbz", "/manga/beta.cbz"]);

    let mut search = LibrarySearchState::default();
    search.set_query(String::new(), &lib);

    let mut sel = LibrarySelectionState::default();
    select_visible(&mut sel, &search, &lib);
    assert!(all_visible_selected(&sel, &search, &lib));

    deselect_visible(&mut sel, &search, &lib);
    assert!(!all_visible_selected(&sel, &search, &lib));
    assert_eq!(visible_selected_count(&sel, &search, &lib), 0);
}

#[test]
fn selection_projection_deselect_visible_no_panic_when_some_visible_were_never_selected() {
    let lib = lib_of(&["/manga/alpha.cbz", "/manga/beta.cbz"]);
    let alpha_path = lib.books[0].path.clone();

    let mut search = LibrarySearchState::default();
    search.set_query(String::new(), &lib);

    let mut sel = LibrarySelectionState::default();
    sel.toggle(alpha_path.clone());
    assert_eq!(sel.count(), 1);

    deselect_visible(&mut sel, &search, &lib);
    assert_eq!(sel.count(), 0, "alpha must be deselected");
    assert!(!sel.contains(&alpha_path));
}

#[test]
fn selection_projection_all_visible_selected_false_for_empty_projection() {
    let lib = lib_of(&["/manga/alpha.cbz"]);
    let mut search = LibrarySearchState::default();
    search.set_query("no-match".to_string(), &lib);
    assert!(search.visible_indices().is_empty());
    let sel = LibrarySelectionState::default();
    assert!(!all_visible_selected(&sel, &search, &lib));
    assert_eq!(visible_selected_count(&sel, &search, &lib), 0);
}

#[test]
fn selection_projection_deselect_visible_after_query_pivot_removes_only_new_projection() {
    let lib = lib_of(&["/manga/alpha.cbz", "/manga/beta.cbz", "/manga/gamma.cbz"]);
    let alpha_path = lib.books[0].path.clone();
    let beta_path = lib.books[1].path.clone();
    let gamma_path = lib.books[2].path.clone();

    let mut search = LibrarySearchState::default();
    search.set_query(String::new(), &lib);
    assert_eq!(search.visible_indices().len(), 3);

    let mut sel = LibrarySelectionState::default();
    select_visible(&mut sel, &search, &lib);
    assert_eq!(sel.count(), 3);

    search.set_query("alpha".to_string(), &lib);
    assert_eq!(search.visible_indices(), &[0], "only alpha index visible");

    deselect_visible(&mut sel, &search, &lib);
    assert!(!sel.contains(&alpha_path));
    assert!(sel.contains(&beta_path));
    assert!(sel.contains(&gamma_path));
    assert_eq!(sel.count(), 2);
}

#[test]
fn out_of_range_visible_rows_are_skipped_by_the_projection() {
    let lib = lib_of(&["/manga/alpha.cbz"]);
    let mut search = LibrarySearchState::default();
    search.set_query(String::new(), &lib);
    let mut sel = LibrarySelectionState::default();
    sel.toggle("/manga/alpha.cbz".to_string());
    assert!(all_visible_selected(&sel, &search, &lib));
    let empty = lib_of(&[]);
    assert!(!all_visible_selected(&sel, &search, &empty), "no in-range row => not all selected");
}

#[test]
fn toggling_a_visible_row_reports_the_new_state() {
    let lib = lib_of(&["/manga/alpha.cbz", "/manga/beta.cbz"]);
    let mut search = LibrarySearchState::default();
    search.set_query("beta".to_string(), &lib);
    let mut sel = LibrarySelectionState::default();
    assert_eq!(toggle_visible_row(&mut sel, &search, &lib, 0), Some(true));
    assert!(sel.contains("/manga/beta.cbz"));
    assert_eq!(toggle_visible_row(&mut sel, &search, &lib, 0), Some(false));
    assert_eq!(toggle_visible_row(&mut sel, &search, &lib, 1), None, "no second visible row");
    assert_eq!(toggle_visible_row(&mut sel, &search, &lib, -1), None);
    assert_eq!(sel.count(), 0);
}

#[test]
fn select_all_flips_between_selecting_and_clearing_the_visible_rows() {
    let lib = lib_of(&["/manga/alpha.cbz", "/manga/beta.cbz", "/manga/gamma.cbz"]);
    let mut search = LibrarySearchState::default();
    search.set_query(String::new(), &lib);
    let mut sel = LibrarySelectionState::default();
    sel.toggle("/manga/alpha.cbz".to_string());
    toggle_select_all(&mut sel, &search, &lib);
    assert_eq!(sel.count(), 3, "not all selected => select the visible rows");
    search.set_query("beta".to_string(), &lib);
    toggle_select_all(&mut sel, &search, &lib);
    assert_eq!(sel.count(), 2, "all visible selected => deselect only the visible rows");
    assert!(!sel.contains("/manga/beta.cbz"));
}
