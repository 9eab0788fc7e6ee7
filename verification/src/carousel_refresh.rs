//! Carousel focus rules: mapping a visible row back to its book, finding the
//! visible row of a book, the row the carousel focuses on entry, and pinning a
//! focused row into a shrunken projection.
use crate::keymap::str_eq;
use crate::library_model::{BookEntry, LibrarySnapshot};
use vstd::prelude::*;

verus! {

/// Whether visible row `row` shows the book at `path`.
pub open spec fn row_shows(books: Seq<BookEntry>, visible: Seq<usize>, row: int, path: Seq<char>) -> bool {
    &&& 0 <= row < visible.len()
    &&& (visible[row] as int) < books.len()
    &&& books[visible[row] as int].path@ == path
}

/// The path of the book on visible row `index`, if `index` is a valid row
/// that points at a stored book.
pub fn visible_index_to_path(library: &LibrarySnapshot, visible: &[usize], index: i32) -> (r: Option<String>)
    ensures
        (index < 0 || index >= visible@.len() || visible@[index as int] >= library.books@.len())
            ==> r is None,
        (0 <= index < visible@.len() && visible@[index as int] < library.books@.len()) ==> r
            is Some && r.unwrap()@ == library.books@[visible@[index as int] as int].path@,
{
    if index < 0 {
        return None;
    }
    let row = index as usize;
    if row >= visible.len() {
        return None;
    }
    let library_index = visible[row];
    if library_index >= library.books.len() {
        return None;
    }
    Some(library.books[library_index].path.clone())
}

/// The first visible row that shows the book at `path`.
pub fn visible_focus_index_for_path(library: &LibrarySnapshot, visible: &[usize], path: &str) -> (r: Option<usize>)
    ensures
        r is Some ==> row_shows(library.books@, visible@, r.unwrap() as int, path@) && forall|q: int|
            0 <= q < r.unwrap() ==> !row_shows(library.books@, visible@, q, path@),
        r is None ==> forall|q: int| 0 <= q < visible@.len() ==> !row_shows(library.books@, visible@, q, path@),
{
    let mut p: usize = 0;
    while p < visible.len()
        invariant
            p <= visible@.len(),
            forall|q: int| 0 <= q < p ==> !row_shows(library.books@, visible@, q, path@),
        decreases visible@.len() - p,
    {
        let li = visible[p];
        if li < library.books.len() && str_eq(library.books[li].path.as_str(), path) {
            return Some(p);
        }
        p = p + 1;
    }
    None
}

/// The row the carousel focuses on entering the library: the visible row of
/// the last-opened book, or row 0 when there is none or it is filtered out.
pub fn entry_focus_index(library: &LibrarySnapshot, visible: &[usize]) -> (r: i32)
    ensures
        ({
            let found = match library.last_opened {
                Some(p) => exists|q: int| row_shows(library.books@, visible@, q, p@),
                None => false,
            };
            &&& !found ==> r == 0
            &&& found ==> exists|q: int| {
                &&& row_shows(library.books@, visible@, q, library.last_opened.unwrap()@)
                &&& forall|q2: int| 0 <= q2 < q ==> !row_shows(library.books@, visible@, q2, library.last_opened.unwrap()@)
                &&& r == q as i32
            }
        }),
{
    match &library.last_opened {
        Some(p) => match visible_focus_index_for_path(library, visible, p.as_str()) {
            Some(q) => q as i32,
            None => 0,
        },
        None => 0,
    }
}

/// Pin a focused row into a projection of `visible_count` rows: 0 for an
/// empty projection, else `old` clamped to `0 ..= visible_count - 1` (that
/// bound taken as an `i32`).
pub fn clamp_focused_index(old: i32, visible_count: usize) -> (r: i32)
    requires
        visible_count == 0 || (visible_count - 1) as i32 >= 0,
    ensures
        visible_count == 0 ==> r == 0,
        visible_count > 0 ==> r == if old < 0 {
            0
        } else if old > (visible_count - 1) as i32 {
            (visible_count - 1) as i32
        } else {
            old
        },
{
    if visible_count == 0 {
        return 0;
    }
    let last = (visible_count - 1) as i32;
    if old < 0 {
        0
    } else if old > last {
        last
    } else {
        old
    }
}

/// Move the carousel focus by `delta` rows within a projection of
/// `visible_count` rows: `None` (no move) for an empty projection, else the
/// moved row clamped to `0 ..= visible_count - 1`.
pub fn carousel_move(focused: i32, delta: i32, visible_count: usize) -> (r: Option<i32>)
    requires
        i32::MIN <= focused + delta <= i32::MAX,
        visible_count == 0 || (visible_count - 1) as i32 >= 0,
    ensures
        visible_count == 0 ==> r is None,
        visible_count > 0 ==> r == Some(
            if focused + delta < 0 {
                0
            } else if focused + delta > (visible_count - 1) as i32 {
                (visible_count - 1) as i32
            } else {
                (focused + delta) as i32
            },
        ),
{
    if visible_count == 0 {
        return None;
    }
    Some(clamp_focused_index(focused + delta, visible_count))
}

} // verus!
