//! Selection operations projected onto the visible rows: select or deselect
//! exactly the visible books, ask whether every visible book is selected,
//! and count the visible selected books. Visible indices that point past the
//! shelf are skipped.
use crate::carousel_refresh::visible_index_to_path;
use crate::library_model::{
    toggled, visible_paths, visible_selected_spec, BookEntry, LibrarySearchState, LibrarySelectionState,
    LibrarySnapshot,
};
use vstd::prelude::*;

verus! {

/// Whether visible row `k` points at a stored book.
pub open spec fn row_in_range(visible: Seq<usize>, books: Seq<BookEntry>, k: int) -> bool {
    0 <= k < visible.len() && (visible[k] as int) < books.len()
}

/// Select every visible book; selections outside the visible rows stay.
pub fn select_visible(selection: &mut LibrarySelectionState, search: &LibrarySearchState, library: &LibrarySnapshot)
    requires
        old(selection).wf(),
    ensures
        final(selection).wf(),
        final(selection).selection() == old(selection).selection().union(
            visible_paths(search.visible_spec(), library.books@),
        ),
{
    selection.select_visible(search, library);
}

/// Deselect every visible book; selections outside the visible rows stay.
pub fn deselect_visible(selection: &mut LibrarySelectionState, search: &LibrarySearchState, library: &LibrarySnapshot)
    requires
        old(selection).wf(),
    ensures
        final(selection).wf(),
        final(selection).selection() == old(selection).selection().difference(
            visible_paths(search.visible_spec(), library.books@),
        ),
{
    selection.deselect_visible(search, library);
}

/// Whether some visible row points at a stored book and every such book is
/// selected.
pub fn all_visible_selected(selection: &LibrarySelectionState, search: &LibrarySearchState, library: &LibrarySnapshot) -> (r: bool)
    requires
        selection.wf(),
    ensures
        r == ((exists|k: int| row_in_range(search.visible_spec(), library.books@, k)) && forall|k: int|
            #[trigger] row_in_range(search.visible_spec(), library.books@, k)
                ==> selection.selection().contains(
                library.books@[search.visible_spec()[k] as int].path@,
            )),
{
    let visible = search.visible_indices();
    let n = library.books.len();
    let mut any = false;
    let mut k: usize = 0;
    while k < visible.len()
        invariant
            selection.wf(),
            n == library.books@.len(),
            visible@ == search.visible_spec(),
            k <= visible@.len(),
            any == exists|q: int| 0 <= q < k && #[trigger] row_in_range(visible@, library.books@, q),
            forall|q: int|
                0 <= q < k && #[trigger] row_in_range(visible@, library.books@, q)
                    ==> selection.selection().contains(library.books@[visible@[q] as int].path@),
        decreases visible@.len() - k,
    {
        let index = visible[k];
        if index < n {
            assert(row_in_range(visible@, library.books@, k as int));
            any = true;
            if !selection.contains(library.books[index].path.as_str()) {
                assert(!selection.selection().contains(library.books@[visible@[k as int] as int].path@));
                return false;
            }
        }
        k = k + 1;
    }
    any
}

/// How many visible rows point at selected books.
pub fn visible_selected_count(selection: &LibrarySelectionState, search: &LibrarySearchState, library: &LibrarySnapshot) -> (c: usize)
    requires
        selection.wf(),
    ensures
        c == visible_selected_spec(search.visible_spec(), library.books@, selection.selection()),
{
    selection.visible_selected_count(search, library)
}

/// Toggle the selection of the book on visible row `index`, returning
/// whether it is selected now; `None` (and no change) when the row shows no
/// stored book.
pub fn toggle_visible_row(
    selection: &mut LibrarySelectionState,
    search: &LibrarySearchState,
    library: &LibrarySnapshot,
    index: i32,
) -> (r: Option<bool>)
    requires
        old(selection).wf(),
    ensures
        final(selection).wf(),
        (index < 0 || index >= search.visible_spec().len() || search.visible_spec()[index as int]
            >= library.books@.len()) ==> r is None && final(selection).selection() == old(
            selection,
        ).selection(),
        (0 <= index < search.visible_spec().len() && search.visible_spec()[index as int]
            < library.books@.len()) ==> {
            let p = library.books@[search.visible_spec()[index as int] as int].path@;
            &&& final(selection).selection() == toggled(old(selection).selection(), p)
            &&& r == Some(final(selection).selection().contains(p))
        },
{
    match visible_index_to_path(library, search.visible_indices(), index) {
        None => None,
        Some(path) => {
            let key = path.clone();
            selection.toggle(path);
            Some(selection.contains(key.as_str()))
        },
    }
}

/// The select-all toggle: deselect the visible books when all of them are
/// selected, select them otherwise.
pub fn toggle_select_all(selection: &mut LibrarySelectionState, search: &LibrarySearchState, library: &LibrarySnapshot)
    requires
        old(selection).wf(),
    ensures
        final(selection).wf(),
        ({
            let v = visible_paths(search.visible_spec(), library.books@);
            let all = (exists|k: int| row_in_range(search.visible_spec(), library.books@, k)) && forall|k: int|
                #[trigger] row_in_range(search.visible_spec(), library.books@, k)
                    ==> old(selection).selection().contains(
                    library.books@[search.visible_spec()[k] as int].path@,
                );
            final(selection).selection() == if all {
                old(selection).selection().difference(v)
            } else {
                old(selection).selection().union(v)
            }
        }),
{
    if all_visible_selected(selection, search, library) {
        deselect_visible(selection, search, library);
    } else {
        select_visible(selection, search, library);
    }
}

} // verus!
