use gashuu::library_model::{
    book_matches, carousel_data_for_indices, clamp_to_i32, matching_indices, BookEntry,
    CarouselData, LibrarySearchState, LibrarySelectionState, LibrarySnapshot,
};

/// A stored book as the library keeps it right after being added: title from
/// the file stem, unread (current page 1), count unknown, available.
fn book(path: &str) -> BookEntry {
    let leaf = path.rsplit('/').next().unwrap();
    let title = match leaf.rfind('.') {
        Some(dot) => &leaf[..dot],
        None => leaf,
    };
    BookEntry {
        path: path.to_string(),
        title: title.to_string(),
        current: 1,
        page_count: None,
        available: true,
    }
}

/// A shelf holding `paths` in the given (natural) order, nothing opened yet.
fn lib_of(paths: &[&str]) -> LibrarySnapshot {
    LibrarySnapshot { books: paths.iter().map(|p| book(p)).collect(), last_opened: None }
}

fn carousel_data(library: &LibrarySnapshot) -> Vec<CarouselData> {
    let all: Vec<usize> = (0..library.books.len()).collect();
    carousel_data_for_indices(library, &all)
}

#[test]
fn empty_library_yields_no_rows() {
    let lib = lib_of(&[]);
    assert!(carousel_data(&lib).is_empty());
}

#[test]
fn unavailable_book_marked_unavailable() {
    let mut lib = lib_of(&["/tmp/gone"]);
    lib.books[0].available = false;
    let rows = carousel_data(&lib);
    assert_eq!(rows.len(), 1, "unavailable book is NOT auto-removed");
    assert!(!rows[0].available);
}

#[test]
fn clamp_to_i32_saturates_at_max() {
    assert_eq!(clamp_to_i32(0), 0);
    assert_eq!(clamp_to_i32(i32::MAX as usize), i32::MAX);
    assert_eq!(clamp_to_i32((i32::MAX as usize) + 1), i32::MAX);
    assert_eq!(clamp_to_i32(usize::MAX), i32::MAX);
}

#[test]
fn carousel_data_uses_library_natural_order() {
    let lib = lib_of(&["/root/vol 1", "/root/vol 2", "/root/vol 10"]);
    let rows = carousel_data(&lib);
    assert_eq!(rows.len(), 3);
    assert_eq!(rows[0].title, "vol 1");
    assert_eq!(rows[1].title, "vol 2");
    assert_eq!(rows[2].title, "vol 10");
}

#[test]
fn carousel_data_mixed_availability_per_book() {
    let mut lib = lib_of(&["/root/gone", "/root/keep"]);
    lib.books[0].available = false;
    let rows = carousel_data(&lib);
    assert_eq!(rows.len(), 2, "both books stay in the shelf (no auto-prune)");
    assert!(!rows[0].available, "gone dir no longer resolves");
    assert!(rows[1].available, "keep dir still resolves");
}

#[test]
fn carousel_data_current_reflects_last_page() {
    let mut lib = lib_of(&["/root/book"]);
    lib.books[0].current = 5;
    let rows = carousel_data(&lib);
    assert_eq!(rows[0].current, 5);
}

#[test]
fn carousel_data_total_from_page_count() {
    let mut lib = lib_of(&["/root/book"]);
    lib.books[0].current = 5;
    lib.books[0].page_count = Some(10);
    let rows = carousel_data(&lib);
    assert_eq!(rows.len(), 1);
    assert_eq!(rows[0].total, 10);
    assert_eq!(rows[0].current, 5);
}

#[test]
fn book_matches_title_and_path_case_insensitively() {
    let lib = lib_of(&["/manga/Akira/Vol 01.cbz"]);
    let book = &lib.books[0];

    assert!(book_matches(book, "vol 01"));
    assert!(book_matches(book, "VOL 01"));
    assert!(book_matches(book, "akira"));
    assert!(book_matches(book, "/MANGA/AKIRA"));
    assert!(!book_matches(book, "banana"));
}

#[test]
fn book_matches_empty_query_matches_everything() {
    let lib = lib_of(&["/manga/One Piece.cbz"]);
    assert!(book_matches(&lib.books[0], ""));
}

#[test]
fn search_state_keeps_forced_added_paths_visible_until_query_changes() {
    let lib = lib_of(&["/manga/alpha.cbz", "/manga/beta.cbz"]);
    let beta_path = lib.books[1].path.clone();

    let mut state = LibrarySearchState::default();
    state.set_query("alpha".to_string(), &lib);
    state.force_visible(vec![beta_path], &lib);
    assert_eq!(state.visible_indices(), &[0, 1]);

    state.set_query("alpha".to_string(), &lib);
    assert_eq!(state.visible_indices(), &[0]);
}

#[test]
fn recompute_forced_branch_excludes_non_matching_non_forced_books() {
    let lib = lib_of(&["/manga/alpha.cbz", "/manga/beta.cbz", "/manga/gamma.cbz"]);
    let beta_path = lib.books[1].path.clone();

    let mut state = LibrarySearchState::default();
    state.set_query("alpha".to_string(), &lib);
    state.force_visible(vec![beta_path], &lib);
    assert_eq!(state.visible_indices(), &[0, 1]);
}

#[test]
fn carousel_data_for_indices_skips_out_of_range_index() {
    let lib = lib_of(&["/manga/alpha.cbz"]);
    let rows = carousel_data_for_indices(&lib, &[0, 99]);
    assert_eq!(rows.len(), 1);
    assert_eq!(rows[0].title, "alpha");
}

#[test]
fn matching_indices_return_library_natural_order_rows() {
    let lib = lib_of(&["/manga/bonus.cbz", "/manga/vol 1.cbz", "/manga/vol 10.cbz"]);
    assert_eq!(matching_indices(&lib, "vol"), vec![1, 2]);
    assert_eq!(matching_indices(&lib, "BONUS"), vec![0]);
    assert_eq!(matching_indices(&lib, ""), vec![0, 1, 2]);
    assert!(matching_indices(&lib, "missing").is_empty());
}

#[test]
fn selection_toggle_adds_then_removes() {
    let mut sel = LibrarySelectionState::default();
    let path = "/manga/a.cbz".to_string();
    assert!(!sel.contains(&path));
    assert_eq!(sel.count(), 0);

    sel.toggle(path.clone());
    assert!(sel.contains(&path), "first toggle selects");
    assert_eq!(sel.count(), 1);

    sel.toggle(path.clone());
    assert!(!sel.contains(&path), "second toggle deselects");
    assert_eq!(sel.count(), 0);
}

#[test]
fn selection_toggle_on_path_not_in_library_still_selects_and_deselects() {
    let mut sel = LibrarySelectionState::default();
    let path = "/manga/never-added.cbz".to_string();
    assert!(!sel.contains(&path));

    sel.toggle(path.clone());
    assert!(sel.contains(&path), "toggling an absent path still selects it");

    sel.toggle(path.clone());
    assert!(!sel.contains(&path), "a second toggle deselects it");
}

#[test]
fn selection_clear_drops_everything() {
    let mut sel = LibrarySelectionState::default();
    sel.toggle("/manga/a.cbz".to_string());
    sel.toggle("/manga/b.cbz".to_string());
    assert_eq!(sel.count(), 2);
    sel.clear();
    assert_eq!(sel.count(), 0);
    assert!(!sel.contains("/manga/a.cbz"));
}

#[test]
fn selected_iterates_in_deterministic_path_order() {
    let mut sel = LibrarySelectionState::default();
    sel.toggle("/manga/c.cbz".to_string());
    sel.toggle("/manga/a.cbz".to_string());
    sel.toggle("/manga/b.cbz".to_string());
    let paths: Vec<String> = sel.selected();
    assert_eq!(paths, vec!["/manga/a.cbz", "/manga/b.cbz", "/manga/c.cbz"]);
}

#[test]
fn selection_is_orthogonal_to_search_query() {
    let lib = lib_of(&["/manga/alpha.cbz", "/manga/beta.cbz"]);
    let beta_path = lib.books[1].path.clone();

    let mut search = LibrarySearchState::default();
    search.set_query(String::new(), &lib);
    let mut sel = LibrarySelectionState::default();
    sel.toggle(beta_path.clone());
    assert!(sel.contains(&beta_path));

    search.set_query("alpha".to_string(), &lib);
    assert_eq!(search.visible_indices(), &[0]);
    assert!(sel.contains(&beta_path), "a query change must not drop a selection");

    search.set_query(String::new(), &lib);
    assert_eq!(search.visible_indices(), &[0, 1]);
    assert!(sel.contains(&beta_path));
}

#[test]
fn library_model_select_visible_selects_only_the_visible_projection() {
    let lib = lib_of(&["/manga/alpha.cbz", "/manga/beta.cbz"]);
    let alpha_path = lib.books[0].path.clone();
    let beta_path = lib.books[1].path.clone();

    let mut search = LibrarySearchState::default();
    search.set_query("alpha".to_string(), &lib);
    let mut sel = LibrarySelectionState::default();
    sel.select_visible(&search, &lib);

    assert!(sel.contains(&alpha_path), "visible book is selected");
    assert!(!sel.contains(&beta_path), "filtered-out book is not");
    assert_eq!(sel.count(), 1);
}

#[test]
fn library_model_all_visible_selected_flips_with_the_visible_set() {
    let lib = lib_of(&["/manga/alpha.cbz", "/manga/beta.cbz"]);
    let alpha_path = lib.books[0].path.clone();
    let beta_path = lib.books[1].path.clone();

    let mut search = LibrarySearchState::default();
    search.set_query(String::new(), &lib);
    let mut sel = LibrarySelectionState::default();

    assert!(!sel.all_visible_selected(&search, &lib), "nothing selected");
    sel.toggle(alpha_path.clone());
    assert!(!sel.all_visible_selected(&search, &lib), "only one of two visible selected");
    assert_eq!(sel.visible_selected_count(&search, &lib), 1);

    sel.toggle(beta_path);
    assert!(sel.all_visible_selected(&search, &lib), "both visible now selected");
    assert_eq!(sel.visible_selected_count(&search, &lib), 2);

    search.set_query("alpha".to_string(), &lib);
    assert!(sel.all_visible_selected(&search, &lib));
    assert_eq!(sel.visible_selected_count(&search, &lib), 1);
}

#[test]
fn library_model_deselect_visible_removes_only_visible_selections_preserves_out_of_search() {
    let lib = lib_of(&["/manga/alpha.cbz", "/manga/beta.cbz"]);
    let alpha_path = lib.books[0].path.clone();
    let beta_path = lib.books[1].path.clone();

    let mut search = LibrarySearchState::default();
    search.set_query("alpha".to_string(), &lib);
    assert_eq!(search.visible_indices(), &[0]);

    let mut sel = LibrarySelectionState::default();
    sel.toggle(alpha_path.clone());
    sel.toggle(beta_path.clone());
    assert_eq!(sel.count(), 2);

    sel.deselect_visible(&search, &lib);
    assert!(!sel.contains(&alpha_path), "visible alpha must be deselected");
    assert!(sel.contains(&beta_path), "out-of-search beta must remain selected");
    assert_eq!(sel.count(), 1);
}

#[test]
fn library_model_deselect_visible_empty_projection_is_noop() {
    let lib = lib_of(&["/manga/alpha.cbz"]);
    let alpha_path = lib.books[0].path.clone();

    let mut search = LibrarySearchState::default();
    search.set_query("no-match".to_string(), &lib);
    assert!(search.visible_indices().is_empty());

    let mut sel = LibrarySelectionState::default();
    sel.toggle(alpha_path.clone());
    assert_eq!(sel.count(), 1);

    sel.deselect_visible(&search, &lib);
    assert_eq!(sel.count(), 1, "empty projection must be a no-op");
    assert!(sel.contains(&alpha_path));
}

#[test]
fn library_model_select_visible_then_deselect_visible_clears_all_visible() {
    let lib = lib_of(&["/manga/alpha.cbz", "/manga/beta.cbz"]);

    let mut search = LibrarySearchState::default();
    search.set_query(String::new(), &lib);

    let mut sel = LibrarySelectionState::default();
    sel.select_visible(&search, &lib);
    assert!(sel.all_visible_selected(&search, &lib));

    sel.deselect_visible(&search, &lib);
    assert!(!sel.all_visible_selected(&search, &lib));
    assert_eq!(sel.visible_selected_count(&search, &lib), 0);
}

#[test]
fn library_model_deselect_visible_no_panic_when_some_visible_were_never_selected() {
    let lib = lib_of(&["/manga/alpha.cbz", "/manga/beta.cbz"]);
    let alpha_path = lib.books[0].path.clone();

    let mut search = LibrarySearchState::default();
    search.set_query(String::new(), &lib);

    let mut sel = LibrarySelectionState::default();
    sel.toggle(alpha_path.clone());
    assert_eq!(sel.count(), 1);

    sel.deselect_visible(&search, &lib);
    assert_eq!(sel.count(), 0, "alpha must be deselected");
    assert!(!sel.contains(&alpha_path));
}

#[test]
fn library_model_all_visible_selected_false_for_empty_projection() {
    let lib = lib_of(&["/manga/alpha.cbz"]);
    let mut search = LibrarySearchState::default();
    search.set_query("no-match".to_string(), &lib);
    assert!(search.visible_indices().is_empty());
    let sel = LibrarySelectionState::default();
    assert!(!sel.all_visible_selected(&search, &lib));
    assert_eq!(sel.visible_selected_count(&search, &lib), 0);
}

#[test]
fn carousel_data_bookmarked_matches_last_opened_book() {
    let mut lib = lib_of(&["/manga/alpha.cbz"]);
    lib.last_opened = Some("/manga/alpha.cbz".to_string());
    let rows = carousel_data_for_indices(&lib, &[0]);
    assert_eq!(rows.len(), 1);
    assert!(rows[0].bookmarked, "the last-opened book must be bookmarked");
}

#[test]
fn carousel_data_bookmarked_false_for_other_rows() {
    let mut lib = lib_of(&["/manga/alpha.cbz", "/manga/beta.cbz"]);
    lib.last_opened = Some("/manga/alpha.cbz".to_string());
    let rows = carousel_data_for_indices(&lib, &[0, 1]);
    assert_eq!(rows.len(), 2);
    assert!(rows[0].bookmarked, "alpha is the last-opened book");
    assert!(!rows[1].bookmarked, "beta is NOT last-opened");
}

#[test]
fn carousel_data_bookmarked_false_when_last_opened_filtered_out() {
    let mut lib = lib_of(&["/manga/alpha.cbz", "/manga/beta.cbz"]);
    lib.last_opened = Some("/manga/alpha.cbz".to_string());
    let beta_idx = lib.books.iter().position(|b| b.path.ends_with("beta.cbz")).unwrap();
    let rows = carousel_data_for_indices(&lib, &[beta_idx]);
    assert_eq!(rows.len(), 1);
    assert!(!rows[0].bookmarked);
}

#[test]
fn carousel_data_bookmarked_false_when_last_opened_is_none() {
    let lib = lib_of(&["/manga/alpha.cbz", "/manga/beta.cbz"]);
    assert_eq!(lib.last_opened, None, "no book opened yet");
    let rows = carousel_data_for_indices(&lib, &[0, 1]);
    assert!(rows.iter().all(|r| !r.bookmarked));
}

#[test]
fn library_model_deselect_visible_after_query_pivot_removes_only_new_projection() {
    let lib = lib_of(&["/manga/alpha.cbz", "/manga/beta.cbz", "/manga/gamma.cbz"]);
    let alpha_path = lib.books[0].path.clone();
    let beta_path = lib.books[1].path.clone();
    let gamma_path = lib.books[2].path.clone();

    let mut search = LibrarySearchState::default();
    search.set_query(String::new(), &lib);
    assert_eq!(search.visible_indices().len(), 3);

    let mut sel = LibrarySelectionState::default();
    sel.select_visible(&search, &lib);
    assert_eq!(sel.count(), 3);

    search.set_query("alpha".to_string(), &lib);
    assert_eq!(search.visible_indices(), &[0], "only alpha index visible");

    sel.deselect_visible(&search, &lib);
    assert!(!sel.contains(&alpha_path));
    assert!(sel.contains(&beta_path));
    assert!(sel.contains(&gamma_path));
    assert_eq!(sel.count(), 2);
}

#[test]
fn toggling_twice_restores_the_selection() {
    let mut sel = LibrarySelectionState::default();
    sel.toggle("/manga/a.cbz".to_string());
    let before = sel.selected();
    sel.toggle("/manga/b.cbz".to_string());
    sel.toggle("/manga/b.cbz".to_string());
    assert_eq!(sel.selected(), before);
}

#[test]
fn row_counters_saturate_into_i32() {
    let mut lib = lib_of(&["/manga/huge.cbz"]);
    lib.books[0].current = usize::MAX;
    lib.books[0].page_count = Some(usize::MAX);
    let rows = carousel_data(&lib);
    assert_eq!(rows[0].current, i32::MAX);
    assert_eq!(rows[0].total, i32::MAX);
}
