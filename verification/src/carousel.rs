//! Carousel-side derivations: the cover requests for the visible rows, and
//! the display state of one thumbnail cell.
use crate::cover_loader::CoverRequest;
use crate::library_model::{in_range, LibrarySelectionState, LibrarySnapshot};
use vstd::prelude::*;

verus! {

/// One cover request per in-range library index of `indices`, rebased to its
/// row in the filtered carousel, flagged when the book's page count is still
/// unknown.
pub fn cover_requests(library: &LibrarySnapshot, indices: &[usize]) -> (reqs: Vec<CoverRequest>)
    ensures
        reqs@.len() == in_range(indices@, library.books@.len()).len(),
        forall|k: int|
            0 <= k < reqs@.len() ==> {
                let b = library.books@[in_range(indices@, library.books@.len())[k] as int];
                &&& (#[trigger] reqs@[k]).row == k
                &&& reqs@[k].path@ == b.path@
                &&& reqs@[k].needs_count == (b.page_count is None)
            },
{
    let n = library.books.len();
    let mut reqs: Vec<CoverRequest> = Vec::new();
    let mut i: usize = 0;
    while i < indices.len()
        invariant
            n == library.books@.len(),
            i <= indices@.len(),
            reqs@.len() == in_range(indices@.take(i as int), n as nat).len(),
            forall|k: int|
                0 <= k < in_range(indices@.take(i as int), n as nat).len() ==> (
                #[trigger] in_range(indices@.take(i as int), n as nat)[k] as int) < n,
            forall|k: int|
                0 <= k < reqs@.len() ==> {
                    let b = library.books@[in_range(indices@.take(i as int), n as nat)[k] as int];
                    &&& (#[trigger] reqs@[k]).row == k
                    &&& reqs@[k].path@ == b.path@
                    &&& reqs@[k].needs_count == (b.page_count is None)
                },
        decreases indices@.len() - i,
    {
        let ghost before = in_range(indices@.take(i as int), n as nat);
        assert(indices@.take(i as int + 1).drop_last() =~= indices@.take(i as int));
        let index = indices[i];
        if index < n {
            let book = &library.books[index];
            let row = reqs.len();
            reqs.push(
                CoverRequest {
                    row,
                    path: book.path.clone(),
                    needs_count: book.page_count.is_none(),
                },
            );
            assert(in_range(indices@.take(i as int + 1), n as nat) == before.push(index));
        }
        i = i + 1;
    }
    assert(indices@.take(indices@.len() as int) =~= indices@);
    reqs
}

/// The selection flag of each visible row that shows a stored book: pairs of
/// the row and whether its book is selected, in row order.
pub fn selection_flags(library: &LibrarySnapshot, indices: &[usize], selection: &LibrarySelectionState) -> (flags: Vec<(usize, bool)>)
    requires
        selection.wf(),
    ensures
        forall|k: int|
            0 <= k < flags@.len() ==> {
                let (row, selected) = #[trigger] flags@[k];
                &&& (row as int) < indices@.len()
                &&& (indices@[row as int] as int) < library.books@.len()
                &&& selected == selection.selection().contains(library.books@[indices@[row as int] as int].path@)
            },
        forall|k: int, j: int| 0 <= k < j < flags@.len() ==> flags@[k].0 < flags@[j].0,
        forall|row: int|
            0 <= row < indices@.len() && (indices@[row] as int) < library.books@.len() ==> exists|k: int|
                0 <= k < flags@.len() && #[trigger] flags@[k].0 == row,
{
    let n = library.books.len();
    let mut flags: Vec<(usize, bool)> = Vec::new();
    let mut row: usize = 0;
    while row < indices.len()
        invariant
            selection.wf(),
            n == library.books@.len(),
            row <= indices@.len(),
            forall|k: int|
                0 <= k < flags@.len() ==> {
                    let (r, selected) = #[trigger] flags@[k];
                    &&& (r as int) < row
                    &&& (indices@[r as int] as int) < library.books@.len()
                    &&& selected == selection.selection().contains(library.books@[indices@[r as int] as int].path@)
                },
            forall|k: int, j: int| 0 <= k < j < flags@.len() ==> flags@[k].0 < flags@[j].0,
            forall|r: int|
                0 <= r < row && (indices@[r] as int) < library.books@.len() ==> exists|k: int|
                    0 <= k < flags@.len() && #[trigger] flags@[k].0 == r,
        decreases indices@.len() - row,
    {
        let index = indices[row];
        let ghost before = flags@;
        if index < n {
            let selected = selection.contains(library.books[index].path.as_str());
            flags.push((row, selected));
            assert(flags@[flags@.len() - 1].0 == row);
            assert forall|r: int|
                0 <= r < row && (indices@[r] as int) < library.books@.len() implies exists|k: int|
                    0 <= k < flags@.len() && #[trigger] flags@[k].0 == r by {
                let k = choose|k: int| 0 <= k < before.len() && #[trigger] before[k].0 == r;
                assert(flags@[k] == before[k]);
            }
        }
        row = row + 1;
    }
    flags
}

/// Display state of one thumbnail cell.
#[derive(Clone, Copy, PartialEq, Eq, Debug, Structural)]
pub enum ThumbState {
    /// The page's image is shown.
    Loaded,
    /// The page's thumbnail failed for good.
    Failed,
    /// Still loading, or the page lies outside the thumbnail model.
    Loading,
}

impl ThumbState {
    /// The `(loaded, failed)` flags a thumbnail cell in this state carries:
    /// never both set.
    pub fn flags(self) -> (f: (bool, bool))
        ensures
            f == state_flags(self),
    {
        match self {
            ThumbState::Loaded => (true, false),
            ThumbState::Failed => (false, true),
            ThumbState::Loading => (false, false),
        }
    }
}

/// The `(loaded, failed)` flags of a cell in state `s`.
pub open spec fn state_flags(s: ThumbState) -> (bool, bool) {
    (s == ThumbState::Loaded, s == ThumbState::Failed)
}

/// The state a cell with flags `f` shows: loaded wins over failed.
pub open spec fn state_from_flags(f: (bool, bool)) -> ThumbState {
    if f.0 {
        ThumbState::Loaded
    } else if f.1 {
        ThumbState::Failed
    } else {
        ThumbState::Loading
    }
}

/// A cell's state read back from the flags it was given is that state, and
/// no state sets both flags.
pub proof fn lemma_flags_round_trip(s: ThumbState)
    ensures
        !(state_flags(s).0 && state_flags(s).1),
        state_from_flags(state_flags(s)) == s,
{
}

/// The display state of thumbnail `page`, given each cell's `(loaded,
/// failed)` flags: a loaded cell wins over a failed one, and a page outside
/// the model shows as loading.
pub fn thumb_state_at(cells: &[(bool, bool)], page: usize) -> (s: ThumbState)
    ensures
        page >= cells@.len() ==> s == ThumbState::Loading,
        page < cells@.len() ==> s == state_from_flags(cells@[page as int]),
{
    if page >= cells.len() {
        return ThumbState::Loading;
    }
    let (loaded, failed) = cells[page];
    if loaded {
        ThumbState::Loaded
    } else if failed {
        ThumbState::Failed
    } else {
        ThumbState::Loading
    }
}

} // verus!
