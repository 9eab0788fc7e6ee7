//! Bulk-add domain rules: which probed sources are added to the library and
//! which are rejected, the batch report, and which status notice the report
//! calls for.
use crate::add_loader::{ProbeKind, ProbeOutcome};
use crate::library_model::{has_book, library_has, LibrarySnapshot};
use vstd::prelude::*;

verus! {

/// Outcome of an add batch: the canonical paths actually inserted, in input
/// order, and the number of sources rejected because they could not be opened
/// as a book (empty, format disabled or unreadable). Duplicates are neither
/// added nor counted as rejected.
pub struct AddReport {
    pub added: Vec<String>,
    pub skipped: usize,
}

impl AddReport {
    /// Whether applying the batch changed the library, so that it must be
    /// saved: some book was added.
    pub fn should_save(&self) -> (b: bool)
        ensures
            b == (self.added@.len() > 0),
    {
        self.added.len() > 0
    }
}

/// The sources of `s` that are books, with their page counts, in order.
pub open spec fn counted_sources(s: Seq<ProbeOutcome>) -> Seq<(Seq<char>, usize)>
    decreases s.len(),
{
    if s.len() == 0 {
        Seq::empty()
    } else {
        let rest = counted_sources(s.drop_last());
        match s.last().kind {
            ProbeKind::Counted(n) => rest.push((s.last().path@, n)),
            _ => rest,
        }
    }
}

/// How many sources of `s` are rejected (not books).
pub open spec fn rejected_count(s: Seq<ProbeOutcome>) -> nat
    decreases s.len(),
{
    if s.len() == 0 {
        0
    } else {
        let rest = rejected_count(s.drop_last());
        match s.last().kind {
            ProbeKind::Counted(_) => rest,
            _ => rest + 1,
        }
    }
}

/// What applying a probed batch asks of the library: add these sources with
/// their page counts, in input order; `rejected` sources were not books.
pub struct AddPlan {
    pub to_add: Vec<(String, usize)>,
    pub rejected: usize,
}

/// Split a probed batch into the sources to add (with their page counts, in
/// order) and the number of rejected sources.
pub fn plan_adds(outcomes: &Vec<ProbeOutcome>) -> (plan: AddPlan)
    ensures
        plan.to_add@.map_values(|e: (String, usize)| (e.0@, e.1)) == counted_sources(outcomes@),
        plan.rejected == rejected_count(outcomes@),
{
    let mut to_add: Vec<(String, usize)> = Vec::new();
    let mut rejected: usize = 0;
    let mut i: usize = 0;
    proof {
        assert(outcomes@.take(0) =~= Seq::<ProbeOutcome>::empty());
        assert(to_add@.map_values(|e: (String, usize)| (e.0@, e.1)) =~= Seq::<(Seq<char>, usize)>::empty());
    }
    while i < outcomes.len()
        invariant
            i <= outcomes.len(),
            rejected <= i,
            to_add@.map_values(|e: (String, usize)| (e.0@, e.1)) == counted_sources(
                outcomes@.take(i as int),
            ),
            rejected == rejected_count(outcomes@.take(i as int)),
        decreases outcomes.len() - i,
    {
        let ghost before = to_add@;
        proof {
            assert(outcomes@.take(i + 1).drop_last() =~= outcomes@.take(i as int));
            assert(outcomes@.take(i + 1).last() == outcomes@[i as int]);
        }
        let o = &outcomes[i];
        match &o.kind {
            ProbeKind::Counted(n) => {
                to_add.push((o.path.clone(), *n));
                proof {
                    assert(to_add@.map_values(|e: (String, usize)| (e.0@, e.1)) =~= before.map_values(
                        |e: (String, usize)| (e.0@, e.1),
                    ).push((o.path@, *n)));
                }
            },
            _ => {
                rejected = rejected + 1;
            },
        }
        i = i + 1;
    }
    proof {
        assert(outcomes@.take(outcomes.len() as int) =~= outcomes@);
    }
    AddPlan { to_add, rejected }
}

/// Which status notice to surface after an add batch was applied.
#[derive(Clone, Copy, PartialEq, Eq, Debug, Structural)]
pub enum AddNotice {
    /// Nothing was added and nothing was rejected: all already in the library.
    AlreadyInLibrary,
    /// Every source was rejected; nothing was added.
    NoneAddedAllSkipped { skipped: usize },
    /// Some books were added and some sources were rejected.
    AddedWithSkips { added: usize, skipped: usize },
    /// Books were added and nothing was rejected.
    Added { added: usize },
}

/// The notice for `added` added books and `skipped` rejected sources.
pub fn select_add_notice(added: usize, skipped: usize) -> (n: AddNotice)
    ensures
        added == 0 && skipped == 0 ==> n == AddNotice::AlreadyInLibrary,
        added == 0 && skipped != 0 ==> n == (AddNotice::NoneAddedAllSkipped { skipped }),
        added != 0 && skipped == 0 ==> n == (AddNotice::Added { added }),
        added != 0 && skipped != 0 ==> n == (AddNotice::AddedWithSkips { added, skipped }),
{
    if added == 0 {
        if skipped == 0 {
            AddNotice::AlreadyInLibrary
        } else {
            AddNotice::NoneAddedAllSkipped { skipped }
        }
    } else if skipped == 0 {
        AddNotice::Added { added }
    } else {
        AddNotice::AddedWithSkips { added, skipped }
    }
}

/// The status message after applying an add batch, and where it shows: a
/// toast for what the user must notice (rejections, a failed save), the
/// quiet status strip otherwise.
#[derive(Clone, Copy, PartialEq, Eq, Debug, Structural)]
pub enum AddStatus {
    /// Strip: every source was already in the library.
    AlreadyInLibrary,
    /// Toast: nothing added, `skipped` sources rejected.
    NoneAdded { skipped: usize },
    /// Toast: `added` books added but the library could not be saved.
    SaveFailed { added: usize },
    /// Toast: `added` books added, `skipped` sources rejected.
    AddedWithSkips { added: usize, skipped: usize },
    /// Strip: `added` books added.
    Added { added: usize },
}

impl AddStatus {
    /// Whether the message shows as a toast rather than on the status strip.
    pub fn is_toast(self) -> (b: bool)
        ensures
            b == !(self is AlreadyInLibrary || self is Added),
    {
        match self {
            AddStatus::AlreadyInLibrary | AddStatus::Added { .. } => false,
            _ => true,
        }
    }
}

/// The status after applying a batch that added `added` books and rejected
/// `skipped` sources; `save_failed` tells whether saving the grown library
/// failed (a batch that added nothing saves nothing).
pub fn add_report_status(added: usize, skipped: usize, save_failed: bool) -> (st: AddStatus)
    ensures
        st == if added == 0 {
            if skipped == 0 {
                AddStatus::AlreadyInLibrary
            } else {
                AddStatus::NoneAdded { skipped }
            }
        } else if save_failed {
            AddStatus::SaveFailed { added }
        } else if skipped == 0 {
            AddStatus::Added { added }
        } else {
            AddStatus::AddedWithSkips { added, skipped }
        },
{
    if added == 0 {
        match select_add_notice(0, skipped) {
            AddNotice::NoneAddedAllSkipped { skipped: s } => AddStatus::NoneAdded { skipped: s },
            _ => AddStatus::AlreadyInLibrary,
        }
    } else if save_failed {
        AddStatus::SaveFailed { added }
    } else {
        match select_add_notice(added, skipped) {
            AddNotice::AddedWithSkips { added: n, skipped: s } => AddStatus::AddedWithSkips { added: n, skipped: s },
            AddNotice::Added { added: n } => AddStatus::Added { added: n },
            _ => AddStatus::Added { added },
        }
    }
}

/// The paths of `s`, in order.
pub open spec fn paths_of(s: Seq<(Seq<char>, usize)>) -> Seq<Seq<char>> {
    s.map_values(|e: (Seq<char>, usize)| e.0)
}

/// The entries of `s` that insert a new book into a library holding `books`:
/// those whose path no stored book has and no earlier entry of `s` has, in
/// order.
pub open spec fn new_books(s: Seq<(Seq<char>, usize)>, books: Seq<crate::library_model::BookEntry>) -> Seq<
    (Seq<char>, usize),
>
    decreases s.len(),
{
    if s.len() == 0 {
        Seq::empty()
    } else {
        let rest = new_books(s.drop_last(), books);
        let e = s.last();
        if library_has(books, e.0) || paths_of(s.drop_last()).contains(e.0) {
            rest
        } else {
            rest.push(e)
        }
    }
}

/// Which planned sources are new books: the sources (by canonical path) that
/// the library does not hold yet, each once, in order, with their page counts.
/// A source already stored, or repeated in the batch, is neither added nor
/// counted as rejected.
pub fn new_books_of(to_add: &Vec<(String, usize)>, library: &LibrarySnapshot) -> (r: Vec<(String, usize)>)
    ensures
        r@.map_values(|e: (String, usize)| (e.0@, e.1)) == new_books(
            to_add@.map_values(|e: (String, usize)| (e.0@, e.1)),
            library.books@,
        ),
        forall|k: int| 0 <= k < r@.len() ==> !library_has(library.books@, #[trigger] r@[k].0@),
        r.deep_view().len() == r@.len(),
        forall|a: int, b: int| 0 <= a < b < r@.len() ==> r@[a].0@ != r@[b].0@,
{
    let ghost src = to_add@.map_values(|e: (String, usize)| (e.0@, e.1));
    let mut out: Vec<(String, usize)> = Vec::new();
    let mut i: usize = 0;
    proof {
        assert(src.take(0) =~= Seq::<(Seq<char>, usize)>::empty());
        assert(out@.map_values(|e: (String, usize)| (e.0@, e.1)) =~= Seq::<(Seq<char>, usize)>::empty());
    }
    while i < to_add.len()
        invariant
            src == to_add@.map_values(|e: (String, usize)| (e.0@, e.1)),
            i <= to_add@.len(),
            out@.map_values(|e: (String, usize)| (e.0@, e.1)) == new_books(src.take(i as int), library.books@),
            forall|k: int| 0 <= k < out@.len() ==> !library_has(library.books@, #[trigger] out@[k].0@),
            forall|k: int| 0 <= k < out@.len() ==> paths_of(src.take(i as int)).contains(#[trigger] out@[k].0@),
            forall|a: int, b: int| 0 <= a < b < out@.len() ==> out@[a].0@ != out@[b].0@,
        decreases to_add@.len() - i,
    {
        let ghost before = out@;
        let ghost prefix = src.take(i as int);
        proof {
            assert(src.take(i + 1).drop_last() =~= prefix);
            assert(src.take(i + 1).last() == src[i as int]);
            assert(src[i as int] == (to_add@[i as int].0@, to_add@[i as int].1));
        }
        let path = &to_add[i].0;
        let mut seen = has_book(library, path.as_str());
        let mut j: usize = 0;
        while j < i && !seen
            invariant
                i < to_add@.len(),
                j <= i,
                src == to_add@.map_values(|e: (String, usize)| (e.0@, e.1)),
                prefix == src.take(i as int),
                path@ == to_add@[i as int].0@,
                seen ==> library_has(library.books@, path@) || paths_of(prefix).contains(path@),
                !seen ==> !library_has(library.books@, path@),
                !seen ==> forall|k: int| 0 <= k < j ==> #[trigger] to_add@[k].0@ != path@,
            decreases i - j,
        {
            if crate::keymap::str_eq(to_add[j].0.as_str(), path.as_str()) {
                seen = true;
                assert(paths_of(prefix)[j as int] == path@);
            }
            j = j + 1;
        }
        proof {
            if !seen {
                assert forall|k: int| 0 <= k < prefix.len() implies #[trigger] paths_of(prefix)[k] != path@ by {
                    assert(paths_of(prefix)[k] == to_add@[k].0@);
                }
            }
        }
        if !seen {
            out.push((path.clone(), to_add[i].1));
            proof {
                assert(out@.map_values(|e: (String, usize)| (e.0@, e.1)) =~= before.map_values(
                    |e: (String, usize)| (e.0@, e.1),
                ).push(src[i as int]));
            }
        }
        proof {
            assert forall|k: int| 0 <= k < out@.len() implies paths_of(src.take(i + 1)).contains(#[trigger] out@[k].0@) by {
                if k < before.len() {
                    let w = choose|w: int| 0 <= w < paths_of(prefix).len() && paths_of(prefix)[w] == out@[k].0@;
                    assert(paths_of(src.take(i + 1))[w] == out@[k].0@);
                } else {
                    assert(paths_of(src.take(i + 1))[i as int] == out@[k].0@);
                }
            }
        }
        i = i + 1;
    }
    proof {
        assert(src.take(to_add@.len() as int) =~= src);
    }
    out
}

/// The report of applying `plan` to a library holding `library`'s books: the
/// new books' paths, in order, and the rejected count.
pub fn add_report_for(plan: &AddPlan, library: &LibrarySnapshot) -> (r: AddReport)
    ensures
        r.added.deep_view() == paths_of(
            new_books(plan.to_add@.map_values(|e: (String, usize)| (e.0@, e.1)), library.books@),
        ),
        r.skipped == plan.rejected,
{
    let fresh = new_books_of(&plan.to_add, library);
    let mut added: Vec<String> = Vec::new();
    let mut i: usize = 0;
    let ghost fm = fresh@.map_values(|e: (String, usize)| (e.0@, e.1));
    while i < fresh.len()
        invariant
            i <= fresh@.len(),
            fm == fresh@.map_values(|e: (String, usize)| (e.0@, e.1)),
            added.deep_view() == paths_of(fm.take(i as int)),
        decreases fresh@.len() - i,
    {
        let ghost before = added.deep_view();
        let c = fresh[i].0.clone();
        added.push(c);
        proof {
            assert(fm[i as int].0 == fresh@[i as int].0@);
            assert(added.deep_view() =~= before.push(c@));
            assert(paths_of(fm.take(i + 1)) =~= paths_of(fm.take(i as int)).push(fm[i as int].0));
        }
        i = i + 1;
    }
    proof {
        assert(fm.take(fresh@.len() as int) =~= fm);
    }
    AddReport { added, skipped: plan.rejected }
}

} // verus!
