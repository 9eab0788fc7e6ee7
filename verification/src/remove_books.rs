//! Bulk-remove rules: whether a removal closes the open book, the outcome of
//! a removal, and what the delete confirmation lists.
use crate::keymap::str_eq;
use crate::library_model::{
    has_book, library_has, visible_selected_spec, BookEntry, LibrarySearchState, LibrarySelectionState,
    LibrarySnapshot,
};
use vstd::prelude::*;

verus! {

/// At most this many titles are listed by the delete confirmation.
pub const CONFIRM_DELETE_LIST_CAP: usize = 10;

/// Outcome of a bulk remove.
#[derive(Debug, PartialEq, Eq)]
pub enum RemoveOutcome {
    /// Nothing was selected; nothing happened.
    NoSelection,
    /// Saving failed; the library was rolled back.
    SaveFailed { error: String },
    /// `n` books were removed; `closed_open_book` when the open book was one.
    Removed { n: usize, closed_open_book: bool },
}

/// What a removal did: the requested paths some stored book had, and those
/// none had, each in request order.
pub struct RemovalReport {
    pub removed: Vec<String>,
    pub not_found: Vec<String>,
}

/// The observable fields of a stored book.
pub open spec fn book_view(b: BookEntry) -> (Seq<char>, Seq<char>, usize, Option<usize>, bool) {
    (b.path@, b.title@, b.current, b.page_count, b.available)
}

/// The books of `books` whose path is not among `paths`, in order.
pub open spec fn books_kept(books: Seq<BookEntry>, paths: Seq<Seq<char>>) -> Seq<
    (Seq<char>, Seq<char>, usize, Option<usize>, bool),
>
    decreases books.len(),
{
    if books.len() == 0 {
        Seq::empty()
    } else {
        let rest = books_kept(books.drop_last(), paths);
        if paths.contains(books.last().path@) {
            rest
        } else {
            rest.push(book_view(books.last()))
        }
    }
}

/// Whether a stored book is not among the removed `paths`.
pub open spec fn not_removed(paths: Seq<Seq<char>>) -> spec_fn(BookEntry) -> bool {
    |b: BookEntry| !paths.contains(b.path@)
}

/// A removal drops exactly the listed books and leaves every other stored
/// book as it was: the kept entries are the stored books whose path is not
/// listed, in their order, each with its path, title, current page, page
/// count and availability unchanged.
pub proof fn lemma_removal_keeps_other_books_unchanged(books: Seq<BookEntry>, paths: Seq<Seq<char>>)
    ensures
        books_kept(books, paths).len() == books.filter(not_removed(paths)).len(),
        forall|k: int| 0 <= k < books_kept(books, paths).len() ==> {
            let b = books.filter(not_removed(paths))[k];
            let e = #[trigger] books_kept(books, paths)[k];
            &&& e.0 == b.path@
            &&& e.1 == b.title@
            &&& e.2 == b.current
            &&& e.3 == b.page_count
            &&& e.4 == b.available
        },
    decreases books.len(),
{
    reveal(Seq::filter);
    if books.len() > 0 {
        lemma_removal_keeps_other_books_unchanged(books.drop_last(), paths);
    }
}

/// The paths of `paths` that some stored book has (`found`) or none has
/// (`!found`), in order.
pub open spec fn paths_where(paths: Seq<Seq<char>>, books: Seq<BookEntry>, found: bool) -> Seq<Seq<char>>
    decreases paths.len(),
{
    if paths.len() == 0 {
        Seq::empty()
    } else {
        let rest = paths_where(paths.drop_last(), books, found);
        if library_has(books, paths.last()) == found {
            rest.push(paths.last())
        } else {
            rest
        }
    }
}

/// A planned removal: the library without the removed books, and its report.
pub struct RemovalPlan {
    pub remaining: LibrarySnapshot,
    pub report: RemovalReport,
}

fn copy_entry(b: &BookEntry) -> (r: BookEntry)
    ensures
        book_view(r) == book_view(*b),
{
    BookEntry {
        path: b.path.clone(),
        title: b.title.clone(),
        current: b.current,
        page_count: b.page_count,
        available: b.available,
    }
}

fn copy_path(p: &Option<String>) -> (r: Option<String>)
    ensures
        r.is_some() == p.is_some(),
        r is Some ==> r.unwrap()@ == p.unwrap()@,
{
    match p {
        Some(s) => Some(s.clone()),
        None => None,
    }
}

/// Plan removing the books at `paths` from `library`: the remaining books in
/// their order (the last-opened path kept), and which requested paths a
/// stored book had and which none had. Nothing is changed yet, so a failed
/// save has nothing to undo.
pub fn plan_removal(library: &LibrarySnapshot, paths: &Vec<String>) -> (plan: RemovalPlan)
    ensures
        plan.remaining.books@.map_values(|b: BookEntry| book_view(b)) == books_kept(
            library.books@,
            paths.deep_view(),
        ),
        plan.remaining.last_opened.is_some() == library.last_opened.is_some(),
        plan.remaining.last_opened is Some ==> plan.remaining.last_opened.unwrap()@
            == library.last_opened.unwrap()@,
        plan.report.removed.deep_view() == paths_where(paths.deep_view(), library.books@, true),
        plan.report.not_found.deep_view() == paths_where(paths.deep_view(), library.books@, false),
        plan.remaining.books@.len() == library.books@.filter(not_removed(paths.deep_view())).len(),
        forall|k: int| 0 <= k < plan.remaining.books@.len() ==> {
            let b = library.books@.filter(not_removed(paths.deep_view()))[k];
            let e = #[trigger] plan.remaining.books@[k];
            &&& e.path@ == b.path@
            &&& e.title@ == b.title@
            &&& e.current == b.current
            &&& e.page_count == b.page_count
            &&& e.available == b.available
        },
{
    proof {
        lemma_removal_keeps_other_books_unchanged(library.books@, paths.deep_view());
    }
    let ghost ps = paths.deep_view();
    let mut kept: Vec<BookEntry> = Vec::new();
    let mut i: usize = 0;
    proof {
        assert(library.books@.take(0) =~= Seq::<BookEntry>::empty());
        assert(kept@.map_values(|b: BookEntry| book_view(b)) =~= Seq::<(Seq<char>, Seq<char>, usize, Option<usize>, bool)>::empty());
    }
    while i < library.books.len()
        invariant
            ps == paths.deep_view(),
            i <= library.books@.len(),
            kept@.map_values(|b: BookEntry| book_view(b)) == books_kept(library.books@.take(i as int), ps),
        decreases library.books@.len() - i,
    {
        let ghost before = kept@;
        proof {
            assert(library.books@.take(i + 1).drop_last() =~= library.books@.take(i as int));
            assert(library.books@.take(i + 1).last() == library.books@[i as int]);
        }
        let book = &library.books[i];
        let mut listed = false;
        let mut j: usize = 0;
        while j < paths.len() && !listed
            invariant
                ps == paths.deep_view(),
                j <= paths@.len(),
                listed ==> ps.contains(book.path@),
                !listed ==> forall|k: int| 0 <= k < j ==> #[trigger] ps[k] != book.path@,
            decreases paths@.len() - j,
        {
            if crate::keymap::str_eq(paths[j].as_str(), book.path.as_str()) {
                listed = true;
                assert(ps[j as int] == book.path@);
            }
            j = j + 1;
        }
        if !listed {
            let c = copy_entry(book);
            kept.push(c);
            proof {
                assert(kept@.map_values(|b: BookEntry| book_view(b)) =~= before.map_values(
                    |b: BookEntry| book_view(b),
                ).push(book_view(*book)));
            }
        }
        i = i + 1;
    }
    proof {
        assert(library.books@.take(library.books@.len() as int) =~= library.books@);
        let kv = kept@.map_values(|b: BookEntry| book_view(b));
        assert(kv.len() == kept@.len());
        lemma_removal_keeps_other_books_unchanged(library.books@, ps);
        let f = library.books@.filter(not_removed(ps));
        assert(kept@.len() == f.len());
        assert forall|k: int| 0 <= k < kept@.len() implies {
            let b = f[k];
            let e = #[trigger] kept@[k];
            &&& e.path@ == b.path@
            &&& e.title@ == b.title@
            &&& e.current == b.current
            &&& e.page_count == b.page_count
            &&& e.available == b.available
        } by {
            assert(kv[k] == book_view(kept@[k]));
            assert(books_kept(library.books@, ps)[k] == kv[k]);
        }
    }
    let mut removed: Vec<String> = Vec::new();
    let mut not_found: Vec<String> = Vec::new();
    let mut k: usize = 0;
    proof {
        assert(ps.take(0) =~= Seq::<Seq<char>>::empty());
        assert(removed.deep_view() =~= Seq::<Seq<char>>::empty());
        assert(not_found.deep_view() =~= Seq::<Seq<char>>::empty());
    }
    while k < paths.len()
        invariant
            ps == paths.deep_view(),
            k <= paths@.len(),
            removed.deep_view() == paths_where(ps.take(k as int), library.books@, true),
            not_found.deep_view() == paths_where(ps.take(k as int), library.books@, false),
        decreases paths@.len() - k,
    {
        proof {
            assert(ps.take(k + 1).drop_last() =~= ps.take(k as int));
            assert(ps.take(k + 1).last() == paths@[k as int]@);
        }
        let ghost r0 = removed.deep_view();
        let ghost n0 = not_found.deep_view();
        let c = paths[k].clone();
        if has_book(library, paths[k].as_str()) {
            removed.push(c);
            proof {
                assert(removed.deep_view() =~= r0.push(paths@[k as int]@));
            }
        } else {
            not_found.push(c);
            proof {
                assert(not_found.deep_view() =~= n0.push(paths@[k as int]@));
            }
        }
        k = k + 1;
    }
    proof {
        assert(ps.take(paths@.len() as int) =~= ps);
    }
    RemovalPlan {
        remaining: LibrarySnapshot { books: kept, last_opened: copy_path(&library.last_opened) },
        report: RemovalReport { removed, not_found },
    }
}

/// Settle a planned removal once the remaining library was saved: on success
/// the library becomes the planned one and the report is handed back; when
/// the save failed the library is left exactly as it was and the error is
/// handed back.
pub fn commit_removal(library: &mut LibrarySnapshot, plan: RemovalPlan, saved: Result<(), String>) -> (r: Result<RemovalReport, String>)
    ensures
        saved is Ok ==> *final(library) == plan.remaining && r == Ok::<RemovalReport, String>(plan.report),
        saved matches Err(e) ==> *final(library) == *old(library) && r == Err::<RemovalReport, String>(e),
{
    match saved {
        Ok(()) => {
            *library = plan.remaining;
            Ok(plan.report)
        },
        Err(e) => Err(e),
    }
}

/// What a bulk remove reports: nothing selected; the save failed (the
/// library was left as it was); or how many books were removed and whether
/// the open book was one of them.
pub fn remove_outcome(selected: &Vec<String>, result: Result<RemovalReport, String>, open_file: Option<&str>) -> (o: RemoveOutcome)
    ensures
        selected@.len() == 0 ==> o == RemoveOutcome::NoSelection,
        selected@.len() > 0 ==> match result {
            Err(e) => o == RemoveOutcome::SaveFailed { error: e },
            Ok(rep) => o == RemoveOutcome::Removed {
                n: rep.removed@.len() as usize,
                closed_open_book: match open_file {
                    Some(p) => has_path(rep.removed@, p@),
                    None => false,
                },
            },
        },
{
    if selected.len() == 0 {
        return RemoveOutcome::NoSelection;
    }
    match result {
        Err(e) => RemoveOutcome::SaveFailed { error: e },
        Ok(rep) => {
            let closed = removed_contains_open(open_file, rep.removed.as_slice());
            RemoveOutcome::Removed { n: rep.removed.len(), closed_open_book: closed }
        },
    }
}

/// Whether `path` is one of `paths`.
pub open spec fn has_path(paths: Seq<String>, path: Seq<char>) -> bool {
    exists|i: int| 0 <= i < paths.len() && #[trigger] paths[i]@ == path
}

/// Whether the open book (if any) is among the removed paths.
pub fn removed_contains_open(open_file: Option<&str>, removed: &[String]) -> (r: bool)
    ensures
        r == match open_file {
            Some(open) => has_path(removed@, open@),
            None => false,
        },
{
    match open_file {
        None => false,
        Some(open) => {
            let mut i: usize = 0;
            while i < removed.len()
                invariant
                    open_file == Some(open),
                    i <= removed@.len(),
                    forall|j: int| 0 <= j < i ==> #[trigger] removed@[j]@ != open@,
                decreases removed@.len() - i,
            {
                if str_eq(removed[i].as_str(), open) {
                    assert(removed@[i as int]@ == open@);
                    return true;
                }
                i = i + 1;
            }
            false
        },
    }
}

/// The title of the first stored book at `path`.
pub open spec fn book_title_for(books: Seq<BookEntry>, path: Seq<char>) -> Option<Seq<char>>
    decreases books.len(),
{
    if books.len() == 0 {
        None
    } else if books[0].path@ == path {
        Some(books[0].title@)
    } else {
        book_title_for(books.drop_first(), path)
    }
}

/// The titles of the stored books at `paths`, in order, skipping paths no
/// stored book has.
pub open spec fn resolved_titles(paths: Seq<Seq<char>>, books: Seq<BookEntry>) -> Seq<Seq<char>>
    decreases paths.len(),
{
    if paths.len() == 0 {
        Seq::empty()
    } else {
        let rest = resolved_titles(paths.drop_last(), books);
        match book_title_for(books, paths.last()) {
            Some(t) => rest.push(t),
            None => rest,
        }
    }
}

/// The first `n` items of `s` (all of them when there are fewer).
pub open spec fn at_most(s: Seq<Seq<char>>, n: nat) -> Seq<Seq<char>> {
    if s.len() <= n {
        s
    } else {
        s.take(n as int)
    }
}

/// `order` lists the selection `sel`, each path once.
pub open spec fn lists_selection(order: Seq<Seq<char>>, sel: Set<Seq<char>>) -> bool {
    &&& order.to_set() == sel
    &&& order.no_duplicates()
}

/// The title of the first stored book at `path`, if one is stored.
pub fn find_title(library: &LibrarySnapshot, path: &str) -> (r: Option<String>)
    ensures
        r matches Some(t) ==> book_title_for(library.books@, path@) == Some(t@),
        r is None ==> book_title_for(library.books@, path@) is None,
{
    let mut i: usize = 0;
    proof {
        assert(library.books@.skip(0) =~= library.books@);
    }
    while i < library.books.len()
        invariant
            i <= library.books@.len(),
            book_title_for(library.books@, path@) == book_title_for(library.books@.skip(i as int), path@),
        decreases library.books@.len() - i,
    {
        proof {
            assert(library.books@.skip(i as int).drop_first() =~= library.books@.skip(i + 1));
            assert(library.books@.skip(i as int)[0] == library.books@[i as int]);
        }
        if str_eq(library.books[i].path.as_str(), path) {
            return Some(library.books[i].title.clone());
        }
        i = i + 1;
    }
    proof {
        assert(library.books@.skip(i as int) =~= Seq::<BookEntry>::empty());
    }
    None
}

/// What the delete confirmation shows: the selection count, the titles of
/// the first selected books, how many more are selected beyond the listed
/// cap, how many selected books lie outside the current search, and whether
/// the open book is among them.
pub struct ConfirmDeletePlan {
    pub count: usize,
    pub titles: Vec<String>,
    pub more: Option<usize>,
    pub outside_search: Option<usize>,
    pub warn_open_book: bool,
}

/// Plan the delete confirmation for the current selection. Titles are those
/// of the selected books in the selection's path order (skipping paths no
/// stored book has), at most `CONFIRM_DELETE_LIST_CAP` of them.
pub fn confirm_delete_plan(
    selection: &LibrarySelectionState,
    search: &LibrarySearchState,
    library: &LibrarySnapshot,
    open_file: Option<&str>,
) -> (plan: ConfirmDeletePlan)
    requires
        selection.wf(),
    ensures
        plan.count == selection.selection().len(),
        exists|order: Seq<Seq<char>>| {
            &&& #[trigger] lists_selection(order, selection.selection())
            &&& plan.titles@.map_values(|t: String| t@) == at_most(
                resolved_titles(order, library.books@),
                CONFIRM_DELETE_LIST_CAP as nat,
            )
        },
        plan.more == if plan.count > CONFIRM_DELETE_LIST_CAP {
            Some((plan.count - CONFIRM_DELETE_LIST_CAP) as usize)
        } else {
            None
        },
        ({
            let vis = visible_selected_spec(search.visible_spec(), library.books@, selection.selection());
            plan.outside_search == if plan.count > vis {
                Some((plan.count - vis) as usize)
            } else {
                None
            }
        }),
        plan.warn_open_book == match open_file {
            Some(p) => selection.selection().contains(p@),
            None => false,
        },
{
    let count = selection.count();
    let order = selection.selected();
    let ghost ord = order.deep_view();
    let mut titles: Vec<String> = Vec::new();
    let mut i: usize = 0;
    proof {
        assert(ord.take(0) =~= Seq::<Seq<char>>::empty());
        assert(titles@.map_values(|t: String| t@) =~= Seq::<Seq<char>>::empty());
    }
    while i < order.len()
        invariant
            ord == order.deep_view(),
            i <= order@.len(),
            titles@.map_values(|t: String| t@) == at_most(
                resolved_titles(ord.take(i as int), library.books@),
                CONFIRM_DELETE_LIST_CAP as nat,
            ),
        decreases order@.len() - i,
    {
        let ghost before = titles@;
        let ghost prev = resolved_titles(ord.take(i as int), library.books@);
        proof {
            assert(ord.take(i + 1).drop_last() =~= ord.take(i as int));
            assert(ord.take(i + 1).last() == order@[i as int]@);
        }
        match find_title(library, order[i].as_str()) {
            Some(t) => {
                if titles.len() < CONFIRM_DELETE_LIST_CAP {
                    titles.push(t);
                    proof {
                        assert(titles@.map_values(|t: String| t@) =~= before.map_values(|t: String| t@).push(t@));
                        assert(prev.push(t@) =~= resolved_titles(ord.take(i + 1), library.books@));
                    }
                } else {
                    proof {
                        let next = resolved_titles(ord.take(i + 1), library.books@);
                        assert(next =~= prev.push(t@));
                        assert(next.take(CONFIRM_DELETE_LIST_CAP as int) =~= at_most(prev, CONFIRM_DELETE_LIST_CAP as nat));
                    }
                }
            },
            None => {},
        }
        i = i + 1;
    }
    proof {
        assert(ord.take(order@.len() as int) =~= ord);
        assert(lists_selection(ord, selection.selection()));
    }
    let more = if count > CONFIRM_DELETE_LIST_CAP {
        Some(count - CONFIRM_DELETE_LIST_CAP)
    } else {
        None
    };
    let visible_selected = selection.visible_selected_count(search, library);
    let outside_search = if count > visible_selected {
        Some(count - visible_selected)
    } else {
        None
    };
    let warn_open_book = match open_file {
        Some(p) => selection.contains(p),
        None => false,
    };
    ConfirmDeletePlan { count, titles, more, outside_search, warn_open_book }
}

} // verus!
