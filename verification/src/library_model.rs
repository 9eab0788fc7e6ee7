//! The library shelf as the carousel sees it, and the two pieces of state the
//! carousel keeps over it: the search projection (which rows are visible) and
//! the bulk selection (which books are selected, keyed by path).
//!
//! A `LibrarySnapshot` holds, as plain values, what the carousel reads of each
//! stored book: its canonical path, display title, 1-based current page,
//! persisted page count and availability, plus the last-opened path.
use vstd::prelude::*;

verus! {

/// What the carousel reads of one stored book.
#[derive(Clone, Debug)]
pub struct BookEntry {
    /// Canonical filesystem path: the book's identity.
    pub path: String,
    /// Display title (file stem or directory name).
    pub title: String,
    /// 1-based current page (`reached + 1`).
    pub current: usize,
    /// Persisted page count; `None` until the book has been counted.
    pub page_count: Option<usize>,
    /// Whether the stored path still resolves.
    pub available: bool,
}

/// The shelf in natural order, and the path of the last-opened book.
#[derive(Clone, Debug)]
pub struct LibrarySnapshot {
    pub books: Vec<BookEntry>,
    pub last_opened: Option<String>,
}

impl LibrarySnapshot {
    /// Every stored book's current page is 1-based, so at least 1.
    pub open spec fn wf(&self) -> bool {
        forall|i: int| 0 <= i < self.books@.len() ==> #[trigger] self.books@[i].current >= 1
    }
}

/// Whether some stored book has path `p`.
pub open spec fn library_has(books: Seq<BookEntry>, p: Seq<char>) -> bool {
    exists|i: int| 0 <= i < books.len() && #[trigger] books[i].path@ == p
}

/// Whether some stored book has path `path`.
pub fn has_book(library: &LibrarySnapshot, path: &str) -> (r: bool)
    ensures
        r == library_has(library.books@, path@),
{
    let mut i: usize = 0;
    while i < library.books.len()
        invariant
            i <= library.books@.len(),
            forall|j: int| 0 <= j < i ==> #[trigger] library.books@[j].path@ != path@,
        decreases library.books@.len() - i,
    {
        if crate::keymap::str_eq(library.books[i].path.as_str(), path) {
            assert(library.books@[i as int].path@ == path@);
            return true;
        }
        i = i + 1;
    }
    false
}

/// One carousel row's display data.
#[derive(Clone, Debug, PartialEq, Eq)]
pub struct CarouselData {
    pub title: String,
    /// 1-based current page, saturated into `i32`.
    pub current: i32,
    /// Total page count (0 when unknown), saturated into `i32`.
    pub total: i32,
    pub available: bool,
    /// True for the last-opened book.
    pub bookmarked: bool,
}

/// `str::to_lowercase`: the Unicode lowercase mapping of a string.
pub uninterp spec fn lowercase(s: Seq<char>) -> Seq<char>;

/// `str::to_lowercase`. Its result is the Unicode lowercase mapping of the
/// argument and depends on nothing else; the mapping itself is left unstated.
#[verifier::external_body]
fn to_lowercase(s: &str) -> (r: String)
    ensures
        r@ == lowercase(s@),
{
    s.to_lowercase()
}

/// Whether `needle` occurs in `hay` starting at position `i`.
pub open spec fn occurs_at(needle: Seq<char>, hay: Seq<char>, i: int) -> bool {
    0 <= i && i + needle.len() <= hay.len() && hay.subrange(i, i + needle.len()) == needle
}

/// Whether `needle` occurs in `hay` as a contiguous run.
pub open spec fn is_substring(needle: Seq<char>, hay: Seq<char>) -> bool {
    exists|i: int| #[trigger] occurs_at(needle, hay, i)
}

/// Whether `needle` occurs in `hay`.
pub fn str_contains(hay: &str, needle: &str) -> (r: bool)
    ensures
        r == is_substring(needle@, hay@),
{
    let h = hay.unicode_len();
    let n = needle.unicode_len();
    if n > h {
        assert forall|k: int| !#[trigger] occurs_at(needle@, hay@, k) by {}
        return false;
    }
    let mut i: usize = 0;
    while i <= h - n
        invariant
            h == hay@.len(),
            n == needle@.len(),
            n <= h,
            i <= h - n + 1,
            forall|k: int| 0 <= k < i ==> !#[trigger] occurs_at(needle@, hay@, k),
        decreases h - n + 1 - i,
    {
        let mut j: usize = 0;
        let mut same = true;
        while j < n
            invariant
                h == hay@.len(),
                n == needle@.len(),
                i + n <= h,
                j <= n,
                same == (forall|k: int| 0 <= k < j ==> hay@[i + k] == needle@[k]),
            decreases n - j,
        {
            if hay.get_char(i + j) != needle.get_char(j) {
                same = false;
            }
            j = j + 1;
        }
        if same {
            assert(hay@.subrange(i as int, i + n) =~= needle@);
            assert(occurs_at(needle@, hay@, i as int));
            return true;
        }
        assert(!occurs_at(needle@, hay@, i as int)) by {
            let k = choose|k: int| 0 <= k < n && hay@[i + k] != needle@[k];
            assert(hay@.subrange(i as int, i + n)[k] == hay@[i + k]);
        }
        i = i + 1;
    }
    assert forall|k: int| !#[trigger] occurs_at(needle@, hay@, k) by {
        if 0 <= k && k + n <= h {
            assert(k < i);
        }
    }
    false
}

/// Whether a book matches a search query: an empty query matches every book;
/// otherwise the lowercased query must occur in the lowercased title or the
/// lowercased path. The query is taken verbatim (not trimmed).
pub open spec fn book_matches_spec(book: BookEntry, query: Seq<char>) -> bool {
    query.len() == 0 || is_substring(lowercase(query), lowercase(book.title@))
        || is_substring(lowercase(query), lowercase(book.path@))
}

/// Case-insensitive substring match of `query` against a book's display title
/// and its path. An empty query matches every book.
pub fn book_matches(book: &BookEntry, query: &str) -> (r: bool)
    ensures
        r == book_matches_spec(*book, query@),
{
    if query.is_empty() {
        return true;
    }
    let needle = to_lowercase(query);
    let title = to_lowercase(book.title.as_str());
    if str_contains(title.as_str(), needle.as_str()) {
        return true;
    }
    let path = to_lowercase(book.path.as_str());
    str_contains(path.as_str(), needle.as_str())
}

/// Whether `path` is among `forced`.
pub open spec fn seq_has(forced: Seq<Seq<char>>, path: Seq<char>) -> bool {
    exists|i: int| 0 <= i < forced.len() && #[trigger] forced[i] == path
}

/// Whether a book is visible under `query` with the `forced` paths kept
/// visible whatever the query.
pub open spec fn book_visible(book: BookEntry, query: Seq<char>, forced: Seq<Seq<char>>) -> bool {
    book_matches_spec(book, query) || seq_has(forced, book.path@)
}

/// The indices of the visible books of `books`, in natural order.
pub open spec fn projection(books: Seq<BookEntry>, query: Seq<char>, forced: Seq<Seq<char>>) -> Seq<usize>
    decreases books.len(),
{
    if books.len() == 0 {
        Seq::empty()
    } else {
        let rest = projection(books.drop_last(), query, forced);
        if book_visible(books.last(), query, forced) {
            rest.push((books.len() - 1) as usize)
        } else {
            rest
        }
    }
}

/// A projection lists exactly the visible indices, in strictly increasing
/// order.
pub proof fn lemma_projection_members(books: Seq<BookEntry>, query: Seq<char>, forced: Seq<Seq<char>>)
    requires
        books.len() <= usize::MAX,
    ensures
        forall|k: int| 0 <= k < projection(books, query, forced).len()
            ==> (#[trigger] projection(books, query, forced)[k] as int) < books.len(),
        forall|j: int, k: int| 0 <= j < k < projection(books, query, forced).len()
            ==> projection(books, query, forced)[j] < projection(books, query, forced)[k],
        forall|i: int| 0 <= i < books.len()
            ==> (projection(books, query, forced).contains(i as usize)
                <==> book_visible(#[trigger] books[i], query, forced)),
    decreases books.len(),
{
    if books.len() > 0 {
        let init = books.drop_last();
        lemma_projection_members(init, query, forced);
        let rest = projection(init, query, forced);
        let p = projection(books, query, forced);
        let last = (books.len() - 1) as usize;
        if book_visible(books.last(), query, forced) {
            assert(p == rest.push(last));
        } else {
            assert(p == rest);
        }
        assert forall|i: int| 0 <= i < books.len()
            implies (p.contains(i as usize) <==> book_visible(#[trigger] books[i], query, forced)) by {
            if i < init.len() {
                assert(init[i] == books[i]);
                if p.contains(i as usize) {
                    let k = choose|k: int| 0 <= k < p.len() && p[k] == i as usize;
                    if k < rest.len() {
                        assert(rest[k] == p[k]);
                        assert(rest.contains(i as usize));
                    }
                }
                if rest.contains(i as usize) {
                    let k = choose|k: int| 0 <= k < rest.len() && rest[k] == i as usize;
                    assert(p[k] == i as usize);
                }
            } else {
                assert(books[i] == books.last());
                if book_visible(books.last(), query, forced) {
                    assert(p[p.len() - 1] == i as usize);
                } else {
                    if p.contains(i as usize) {
                        let k = choose|k: int| 0 <= k < p.len() && p[k] == i as usize;
                        assert(rest[k] == p[k]);
                        assert((rest[k] as int) < init.len());
                    }
                }
            }
        }
    }
}

/// Return the indices (in natural order) of all books that match `query`.
pub fn matching_indices(library: &LibrarySnapshot, query: &str) -> (r: Vec<usize>)
    ensures
        r@ == projection(library.books@, query@, Seq::empty()),
{
    let n = library.books.len();
    let mut out: Vec<usize> = Vec::new();
    let mut i: usize = 0;
    while i < n
        invariant
            n == library.books@.len(),
            i <= n,
            out@ == projection(library.books@.take(i as int), query@, Seq::empty()),
        decreases n - i,
    {
        let ghost prefix = library.books@.take(i as int + 1);
        assert(prefix.drop_last() =~= library.books@.take(i as int));
        assert(prefix.last() == library.books@[i as int]);
        assert(!seq_has(Seq::<Seq<char>>::empty(), library.books@[i as int].title@));
        if book_matches(&library.books[i], query) {
            out.push(i);
        }
        i = i + 1;
    }
    assert(library.books@.take(n as int) =~= library.books@);
    out
}

/// Saturating `usize -> i32` for display counts.
pub fn clamp_to_i32(v: usize) -> (r: i32)
    ensures
        r == (if v <= i32::MAX { v as int } else { i32::MAX as int }),
{
    if v <= i32::MAX as usize { v as i32 } else { i32::MAX }
}

/// `v` saturated into `i32`.
pub open spec fn sat_i32(v: int) -> i32 {
    if v <= i32::MAX { v as i32 } else { i32::MAX }
}

/// The carousel row derived from a book and its bookmark flag.
pub open spec fn row_spec(book: BookEntry, bookmarked: bool) -> (Seq<char>, i32, i32, bool, bool) {
    (
        book.title@,
        sat_i32(book.current as int),
        match book.page_count {
            Some(c) => sat_i32(c as int),
            None => 0,
        },
        book.available,
        bookmarked,
    )
}

/// The observable fields of a row.
pub open spec fn row_fields(row: CarouselData) -> (Seq<char>, i32, i32, bool, bool) {
    (row.title@, row.current, row.total, row.available, row.bookmarked)
}

/// Whether `book` is the last-opened book of the shelf.
pub open spec fn is_last_opened(library: LibrarySnapshot, book: BookEntry) -> bool {
    library.last_opened matches Some(p) && p@ == book.path@
}

/// The in-range indices of `indices`, in their order.
pub open spec fn in_range(indices: Seq<usize>, n: nat) -> Seq<usize>
    decreases indices.len(),
{
    if indices.len() == 0 {
        Seq::empty()
    } else {
        let rest = in_range(indices.drop_last(), n);
        if (indices.last() as nat) < n { rest.push(indices.last()) } else { rest }
    }
}

fn carousel_row(book: &BookEntry, bookmarked: bool) -> (r: CarouselData)
    ensures
        row_fields(r) == row_spec(*book, bookmarked),
{
    CarouselData {
        title: book.title.clone(),
        current: clamp_to_i32(book.current),
        total: match book.page_count {
            Some(c) => clamp_to_i32(c),
            None => 0,
        },
        available: book.available,
        bookmarked,
    }
}

/// Map library row `indices` to carousel rows, preserving their order and
/// skipping out-of-range indices; a row is bookmarked when its book is the
/// last-opened one.
pub fn carousel_data_for_indices(library: &LibrarySnapshot, indices: &[usize]) -> (rows: Vec<CarouselData>)
    requires
        library.wf(),
    ensures
        forall|k: int| 0 <= k < rows@.len() ==> #[trigger] rows@[k].current >= 1,
        rows@.len() == in_range(indices@, library.books@.len()).len(),
        forall|k: int| 0 <= k < rows@.len() ==> {
            let b = library.books@[in_range(indices@, library.books@.len())[k] as int];
            row_fields(#[trigger] rows@[k]) == row_spec(b, is_last_opened(*library, b))
        },
{
    let n = library.books.len();
    let mut rows: Vec<CarouselData> = Vec::new();
    let mut i: usize = 0;
    while i < indices.len()
        invariant
            n == library.books@.len(),
            library.wf(),
            i <= indices@.len(),
            forall|k: int| 0 <= k < rows@.len() ==> #[trigger] rows@[k].current >= 1,
            rows@.len() == in_range(indices@.take(i as int), n as nat).len(),
            forall|k: int| 0 <= k < in_range(indices@.take(i as int), n as nat).len()
                ==> (#[trigger] in_range(indices@.take(i as int), n as nat)[k] as int) < n,
            forall|k: int| 0 <= k < rows@.len() ==> {
                let b = library.books@[in_range(indices@.take(i as int), n as nat)[k] as int];
                row_fields(#[trigger] rows@[k]) == row_spec(b, is_last_opened(*library, b))
            },
        decreases indices@.len() - i,
    {
        let ghost before = in_range(indices@.take(i as int), n as nat);
        assert(indices@.take(i as int + 1).drop_last() =~= indices@.take(i as int));
        let index = indices[i];
        if index < n {
            let book = &library.books[index];
            let bookmarked = match &library.last_opened {
                Some(p) => *p == book.path,
                None => false,
            };
            let row = carousel_row(book, bookmarked);
            rows.push(row);
            assert(in_range(indices@.take(i as int + 1), n as nat) == before.push(index));
        }
        i = i + 1;
    }
    assert(indices@.take(indices@.len() as int) =~= indices@);
    rows
}

} // verus!

verus! {

/// The forced paths after adding `paths` in order, skipping any path already
/// present.
pub open spec fn add_unique(forced: Seq<Seq<char>>, paths: Seq<Seq<char>>) -> Seq<Seq<char>>
    decreases paths.len(),
{
    if paths.len() == 0 {
        forced
    } else {
        let before = add_unique(forced, paths.drop_last());
        if seq_has(before, paths.last()) { before } else { before.push(paths.last()) }
    }
}

proof fn lemma_add_unique_has(forced: Seq<Seq<char>>, paths: Seq<Seq<char>>, p: Seq<char>)
    requires
        seq_has(forced, p) || seq_has(paths, p),
    ensures
        seq_has(add_unique(forced, paths), p),
    decreases paths.len(),
{
    if paths.len() > 0 {
        let init = paths.drop_last();
        let before = add_unique(forced, init);
        if seq_has(forced, p) || seq_has(init, p) {
            lemma_add_unique_has(forced, init, p);
            if !seq_has(before, paths.last()) {
                let k = choose|k: int| 0 <= k < before.len() && before[k] == p;
                assert(before.push(paths.last())[k] == p);
            }
        } else {
            let k = choose|k: int| 0 <= k < paths.len() && paths[k] == p;
            if k < init.len() {
                assert(init[k] == p);
            }
            assert(paths.last() == p);
            if !seq_has(before, p) {
                assert(before.push(p)[before.len() as int] == p);
            }
        }
    }
}

/// A book whose path was forced visible is visible, whatever the query,
/// until the next query change.
pub proof fn lemma_forced_books_are_visible(
    books: Seq<BookEntry>,
    query: Seq<char>,
    forced: Seq<Seq<char>>,
    paths: Seq<Seq<char>>,
    i: int,
)
    requires
        books.len() <= usize::MAX,
        0 <= i < books.len(),
        seq_has(paths, books[i].path@),
    ensures
        projection(books, query, add_unique(forced, paths)).contains(i as usize),
{
    lemma_add_unique_has(forced, paths, books[i].path@);
    lemma_projection_members(books, query, add_unique(forced, paths));
}

/// Whether `path` is among `forced`.
pub fn forced_contains(forced: &Vec<String>, path: &String) -> (r: bool)
    ensures
        r == seq_has(forced.deep_view(), path@),
{
    let mut i: usize = 0;
    while i < forced.len()
        invariant
            i <= forced@.len(),
            forall|k: int| 0 <= k < i ==> forced.deep_view()[k] != path@,
        decreases forced@.len() - i,
    {
        if forced[i] == *path {
            assert(forced.deep_view()[i as int] == path@);
            return true;
        }
        i = i + 1;
    }
    false
}

/// The projection of `books` under `query` with `forced` kept visible.
fn project(books: &Vec<BookEntry>, query: &String, forced: &Vec<String>) -> (r: Vec<usize>)
    ensures
        r@ == projection(books@, query@, forced.deep_view()),
{
    let n = books.len();
    let mut out: Vec<usize> = Vec::new();
    let mut i: usize = 0;
    while i < n
        invariant
            n == books@.len(),
            i <= n,
            out@ == projection(books@.take(i as int), query@, forced.deep_view()),
        decreases n - i,
    {
        let ghost prefix = books@.take(i as int + 1);
        assert(prefix.drop_last() =~= books@.take(i as int));
        assert(prefix.last() == books@[i as int]);
        let visible = book_matches(&books[i], query.as_str()) || forced_contains(forced, &books[i].path);
        if visible {
            out.push(i);
        }
        i = i + 1;
    }
    assert(books@.take(n as int) =~= books@);
    out
}

/// The search state shared by the live query, the add path and the open path:
/// the query text, the paths forced visible since the last query change, and
/// the visible row indices as of the last recompute.
pub struct LibrarySearchState {
    query: String,
    forced_visible_paths: Vec<String>,
    visible_indices: Vec<usize>,
}

impl LibrarySearchState {
    /// The current query text.
    pub closed spec fn query_spec(&self) -> Seq<char> {
        self.query@
    }

    /// The paths kept visible whatever the query.
    pub closed spec fn forced_spec(&self) -> Seq<Seq<char>> {
        self.forced_visible_paths.deep_view()
    }

    /// The visible library row indices as of the last recompute.
    pub closed spec fn visible_spec(&self) -> Seq<usize> {
        self.visible_indices@
    }

    /// The library row indices currently visible, in natural order.
    pub fn visible_indices(&self) -> (r: &[usize])
        ensures
            r@ == self.visible_spec(),
    {
        self.visible_indices.as_slice()
    }

    /// Replace the query, clear the forced-visible paths and recompute.
    pub fn set_query(&mut self, query: String, library: &LibrarySnapshot)
        ensures
            final(self).query_spec() == query@,
            final(self).forced_spec() == Seq::<Seq<char>>::empty(),
            final(self).visible_spec() == projection(library.books@, query@, Seq::empty()),
    {
        self.query = query;
        self.forced_visible_paths = Vec::new();
        self.recompute(library);
        assert(self.forced_visible_paths.deep_view() =~= Seq::<Seq<char>>::empty());
    }

    /// Keep `paths` visible whatever the query (skipping paths already
    /// forced) until the next query change, and recompute.
    pub fn force_visible(&mut self, paths: Vec<String>, library: &LibrarySnapshot)
        ensures
            final(self).query_spec() == old(self).query_spec(),
            final(self).forced_spec() == add_unique(old(self).forced_spec(), paths.deep_view()),
            final(self).visible_spec() == projection(library.books@, old(self).query_spec(), final(self).forced_spec()),
    {
        let ghost start = self.forced_visible_paths.deep_view();
        let mut i: usize = 0;
        while i < paths.len()
            invariant
                i <= paths@.len(),
                self.query@ == old(self).query@,
                start == old(self).forced_visible_paths.deep_view(),
                self.forced_visible_paths.deep_view() == add_unique(start, paths.deep_view().take(i as int)),
            decreases paths@.len() - i,
        {
            let ghost before = self.forced_visible_paths.deep_view();
            assert(paths.deep_view().take(i as int + 1).drop_last() =~= paths.deep_view().take(i as int));
            assert(paths.deep_view().take(i as int + 1).last() == paths@[i as int]@);
            let path = paths[i].clone();
            if !forced_contains(&self.forced_visible_paths, &path) {
                self.forced_visible_paths.push(path);
                assert(self.forced_visible_paths.deep_view() =~= before.push(paths@[i as int]@));
            }
            i = i + 1;
        }
        assert(paths.deep_view().take(paths@.len() as int) =~= paths.deep_view());
        self.recompute(library);
    }

    /// Recompute the visible indices from `library`: a book is visible if it
    /// matches the query or its path is forced visible.
    pub fn recompute(&mut self, library: &LibrarySnapshot)
        ensures
            final(self).query_spec() == old(self).query_spec(),
            final(self).forced_spec() == old(self).forced_spec(),
            final(self).visible_spec() == projection(library.books@, old(self).query_spec(), old(self).forced_spec()),
    {
        self.visible_indices = project(&library.books, &self.query, &self.forced_visible_paths);
    }
}

impl Default for LibrarySearchState {
    /// The empty query, nothing forced, nothing visible yet.
    fn default() -> (s: Self)
        ensures
            s.query_spec() == Seq::<char>::empty(),
            s.forced_spec() == Seq::<Seq<char>>::empty(),
            s.visible_spec() == Seq::<usize>::empty(),
    {
        let s = LibrarySearchState {
            query: String::new(),
            forced_visible_paths: Vec::new(),
            visible_indices: Vec::new(),
        };
        assert(s.forced_visible_paths.deep_view() =~= Seq::<Seq<char>>::empty());
        s
    }
}

} // verus!

verus! {

/// Sort paths into the standard library's path order (`slice::sort` on
/// `PathBuf`s). The result is a permutation of the input. Path order compares
/// components, and what separates components depends on the platform, so the
/// order itself is left unstated.
#[verifier::external_body]
fn sort_paths(v: Vec<String>) -> (r: Vec<String>)
    ensures
        r.deep_view().to_multiset() == v.deep_view().to_multiset(),
{
    let mut paths: Vec<std::path::PathBuf> = v.into_iter().map(std::path::PathBuf::from).collect();
    paths.sort();
    paths.into_iter().map(|p| p.to_string_lossy().into_owned()).collect()
}

/// The paths of the visible rows (in-range visible indices only).
pub open spec fn visible_paths(visible: Seq<usize>, books: Seq<BookEntry>) -> Set<Seq<char>> {
    Set::new(|p: Seq<char>| exists|k: int| 0 <= k < visible.len() && (visible[k] as int) < books.len()
        && #[trigger] books[visible[k] as int].path@ == p)
}

/// How many visible rows are in range and selected.
pub open spec fn visible_selected_spec(visible: Seq<usize>, books: Seq<BookEntry>, selected: Set<Seq<char>>) -> nat
    decreases visible.len(),
{
    if visible.len() == 0 {
        0
    } else {
        let rest = visible_selected_spec(visible.drop_last(), books, selected);
        let i = visible.last() as int;
        if i < books.len() && selected.contains(books[i].path@) { rest + 1 } else { rest }
    }
}

/// `sel` with `p` deselected when it was selected, selected otherwise.
pub open spec fn toggled(sel: Set<Seq<char>>, p: Seq<char>) -> Set<Seq<char>> {
    if sel.contains(p) {
        sel.remove(p)
    } else {
        sel.insert(p)
    }
}

/// Toggling the same path twice restores the selection.
pub proof fn lemma_toggle_twice_restores(sel: Set<Seq<char>>, p: Seq<char>)
    ensures
        toggled(toggled(sel, p), p) == sel,
{
    assert(toggled(toggled(sel, p), p) =~= sel);
}

/// Toggling a path in a finite selection changes its size by one: down when
/// the path was selected, up when it was not.
pub proof fn lemma_toggle_changes_count(sel: Set<Seq<char>>, p: Seq<char>)
    requires
        sel.finite(),
    ensures
        toggled(sel, p).finite(),
        sel.contains(p) ==> toggled(sel, p).len() == sel.len() - 1,
        !sel.contains(p) ==> toggled(sel, p).len() == sel.len() + 1,
{
}

/// After selecting the visible rows, every visible row that points at a
/// stored book is selected.
pub proof fn lemma_select_visible_selects_every_visible_book(
    sel: Set<Seq<char>>,
    visible: Seq<usize>,
    books: Seq<BookEntry>,
)
    ensures
        forall|k: int|
            0 <= k < visible.len() && (visible[k] as int) < books.len() ==> sel.union(
                visible_paths(visible, books),
            ).contains(#[trigger] books[visible[k] as int].path@),
{
    assert forall|k: int| 0 <= k < visible.len() && (visible[k] as int) < books.len() implies sel.union(
        visible_paths(visible, books),
    ).contains(#[trigger] books[visible[k] as int].path@) by {
        assert(visible_paths(visible, books).contains(books[visible[k] as int].path@));
    }
}

/// Deselecting the visible rows keeps every selection that no visible row
/// shows.
pub proof fn lemma_deselect_visible_keeps_outside(
    sel: Set<Seq<char>>,
    visible: Seq<usize>,
    books: Seq<BookEntry>,
    p: Seq<char>,
)
    requires
        sel.contains(p),
        !visible_paths(visible, books).contains(p),
    ensures
        sel.difference(visible_paths(visible, books)).contains(p),
{
}

/// After deselecting the visible rows, no visible row is selected.
pub proof fn lemma_deselect_visible_clears_visible_count(
    sel: Set<Seq<char>>,
    visible: Seq<usize>,
    books: Seq<BookEntry>,
)
    ensures
        visible_selected_spec(visible, books, sel.difference(visible_paths(visible, books))) == 0,
{
    lemma_no_selected_rows(visible, books, sel.difference(visible_paths(visible, books)), visible_paths(visible, books));
}

proof fn lemma_no_selected_rows(
    rows: Seq<usize>,
    books: Seq<BookEntry>,
    sel: Set<Seq<char>>,
    shown: Set<Seq<char>>,
)
    requires
        forall|k: int| 0 <= k < rows.len() && (rows[k] as int) < books.len() ==> shown.contains(
            #[trigger] books[rows[k] as int].path@,
        ),
        forall|p: Seq<char>| shown.contains(p) ==> !sel.contains(p),
    ensures
        visible_selected_spec(rows, books, sel) == 0,
    decreases rows.len(),
{
    if rows.len() > 0 {
        let init = rows.drop_last();
        assert forall|k: int| 0 <= k < init.len() && (init[k] as int) < books.len() implies shown.contains(
            #[trigger] books[init[k] as int].path@,
        ) by {
            assert(init[k] == rows[k]);
        }
        lemma_no_selected_rows(init, books, sel, shown);
        let i = rows.last() as int;
        if i < books.len() {
            assert(rows[rows.len() - 1] == rows.last());
            assert(shown.contains(books[rows[rows.len() - 1] as int].path@));
        }
    }
}

/// The bulk selection of the library carousel, keyed by path (not by row, so
/// it survives any change of the visible projection). Orthogonal to the
/// search query.
pub struct LibrarySelectionState {
    selected: Vec<String>,
}

impl LibrarySelectionState {
    /// The selected paths.
    pub closed spec fn selection(&self) -> Set<Seq<char>> {
        self.selected.deep_view().to_set()
    }

    /// No path is stored twice.
    pub closed spec fn wf(&self) -> bool {
        self.selected.deep_view().no_duplicates()
    }

    /// The position of `path` in the stored list.
    fn position(&self, path: &str) -> (r: Option<usize>)
        requires
            self.wf(),
        ensures
            r matches Some(i) ==> i < self.selected@.len() && self.selected.deep_view()[i as int] == path@,
            r is None ==> !self.selection().contains(path@),
    {
        let mut i: usize = 0;
        while i < self.selected.len()
            invariant
                i <= self.selected@.len(),
                forall|k: int| 0 <= k < i ==> self.selected.deep_view()[k] != path@,
            decreases self.selected@.len() - i,
        {
            if crate::keymap::str_eq(self.selected[i].as_str(), path) {
                return Some(i);
            }
            i = i + 1;
        }
        assert(!self.selection().contains(path@)) by {
            if self.selected.deep_view().contains(path@) {
                let k = choose|k: int| 0 <= k < self.selected.deep_view().len() && self.selected.deep_view()[k] == path@;
                assert(k < i);
            }
        }
        None
    }

    /// Remove the path stored at `i`.
    fn remove_at(&mut self, i: usize)
        requires
            old(self).wf(),
            i < old(self).selected@.len(),
        ensures
            final(self).wf(),
            final(self).selection() == old(self).selection().remove(old(self).selected.deep_view()[i as int]),
    {
        let ghost before = self.selected.deep_view();
        self.selected.remove(i);
        assert(self.selected.deep_view() =~= before.remove(i as int));
        assert(self.selection() =~= before.to_set().remove(before[i as int])) by {
            assert forall|x: Seq<char>| self.selection().contains(x) <==> before.to_set().remove(before[i as int]).contains(x) by {
                if before.to_set().remove(before[i as int]).contains(x) {
                    let k = choose|k: int| 0 <= k < before.len() && before[k] == x;
                    if k < i {
                        assert(self.selected.deep_view()[k] == x);
                    } else {
                        assert(k != i);
                        assert(self.selected.deep_view()[k - 1] == x);
                    }
                }
                if self.selection().contains(x) {
                    let k = choose|k: int| 0 <= k < self.selected.deep_view().len() && self.selected.deep_view()[k] == x;
                    if k < i {
                        assert(before[k] == x);
                    } else {
                        assert(before[k + 1] == x);
                    }
                }
            }
        }
    }

    /// Add `path`, known to be absent.
    fn push_new(&mut self, path: String)
        requires
            old(self).wf(),
            !old(self).selection().contains(path@),
        ensures
            final(self).wf(),
            final(self).selection() == old(self).selection().insert(path@),
    {
        let ghost before = self.selected.deep_view();
        let ghost p = path@;
        self.selected.push(path);
        assert(self.selected.deep_view() =~= before.push(p));
        assert(self.selection() =~= before.to_set().insert(p)) by {
            assert forall|x: Seq<char>| self.selection().contains(x) <==> before.to_set().insert(p).contains(x) by {
                if before.to_set().insert(p).contains(x) && x != p {
                    let k = choose|k: int| 0 <= k < before.len() && before[k] == x;
                    assert(self.selected.deep_view()[k] == x);
                }
                if x == p {
                    assert(self.selected.deep_view()[before.len() as int] == x);
                }
                if self.selection().contains(x) && x != p {
                    let k = choose|k: int| 0 <= k < self.selected.deep_view().len() && self.selected.deep_view()[k] == x;
                    assert(before[k] == x);
                }
            }
        }
    }

    /// Select `path` if absent, deselect it if present.
    pub fn toggle(&mut self, path: String)
        requires
            old(self).wf(),
        ensures
            final(self).wf(),
            final(self).selection().finite(),
            final(self).selection() == toggled(old(self).selection(), path@),
    {
        match self.position(path.as_str()) {
            Some(i) => self.remove_at(i),
            None => self.push_new(path),
        }
        proof { vstd::seq_lib::seq_to_set_is_finite(self.selected.deep_view()); }
    }

    /// Whether `path` is selected.
    pub fn contains(&self, path: &str) -> (r: bool)
        requires
            self.wf(),
        ensures
            r == self.selection().contains(path@),
    {
        self.position(path).is_some()
    }

    /// Drop every selection.
    pub fn clear(&mut self)
        ensures
            final(self).wf(),
            final(self).selection().finite(),
            final(self).selection() == Set::<Seq<char>>::empty(),
    {
        self.selected = Vec::new();
        assert(self.selection() =~= Set::<Seq<char>>::empty());
    }

    /// How many paths are selected (across the whole library).
    pub fn count(&self) -> (n: usize)
        requires
            self.wf(),
        ensures
            self.selection().finite(),
            n == self.selection().len(),
    {
        proof {
            self.selected.deep_view().unique_seq_to_set();
            vstd::seq_lib::seq_to_set_is_finite(self.selected.deep_view());
        }
        self.selected.len()
    }

    /// The selected paths in the standard library's path order.
    pub fn selected(&self) -> (r: Vec<String>)
        requires
            self.wf(),
        ensures
            r.deep_view().to_set() == self.selection(),
            r.deep_view().no_duplicates(),
            r@.len() == self.selection().len(),
    {
        let copy = self.selected.clone();
        assert(copy.deep_view() =~= self.selected.deep_view()) by {
            assert forall|k: int| 0 <= k < copy@.len() implies copy.deep_view()[k] == self.selected.deep_view()[k] by {
                assert(copy@[k] == self.selected@[k]);
            }
        }
        let r = sort_paths(copy);
        proof {
            broadcast use vstd::seq_lib::group_to_multiset_ensures;
            let a = self.selected.deep_view();
            let b = r.deep_view();
            a.lemma_multiset_has_no_duplicates();
            b.lemma_multiset_has_no_duplicates_conv();
            assert(b.to_set() =~= a.to_set()) by {
                assert forall|x: Seq<char>| b.to_set().contains(x) <==> a.to_set().contains(x) by {
                    assert(b.contains(x) == b.to_multiset().contains(x));
                    assert(a.contains(x) == a.to_multiset().contains(x));
                }
            }
            assert(b.len() == b.to_multiset().len());
            assert(a.len() == a.to_multiset().len());
            a.unique_seq_to_set();
        }
        r
    }

    /// Select every currently visible book, leaving selected books outside
    /// the visible rows untouched.
    pub fn select_visible(&mut self, search: &LibrarySearchState, library: &LibrarySnapshot)
        requires
            old(self).wf(),
        ensures
            final(self).wf(),
            final(self).selection() == old(self).selection().union(visible_paths(search.visible_spec(), library.books@)),
    {
        let visible = search.visible_indices();
        let n = library.books.len();
        let mut k: usize = 0;
        while k < visible.len()
            invariant
                self.wf(),
                n == library.books@.len(),
                visible@ == search.visible_spec(),
                k <= visible@.len(),
                self.selection() == old(self).selection().union(visible_paths(visible@.take(k as int), library.books@)),
            decreases visible@.len() - k,
        {
            let ghost before = self.selection();
            let index = visible[k];
            if index < n {
                let path = library.books[index].path.clone();
                if !self.contains(path.as_str()) {
                    self.push_new(path);
                }
            }
            assert(self.selection() =~= old(self).selection().union(visible_paths(visible@.take(k as int + 1), library.books@))) by {
                let vk = visible@.take(k as int);
                let vk1 = visible@.take(k as int + 1);
                assert forall|p: Seq<char>| visible_paths(vk1, library.books@).contains(p)
                    <==> (visible_paths(vk, library.books@).contains(p)
                        || (index < n && library.books@[index as int].path@ == p)) by {
                    if visible_paths(vk1, library.books@).contains(p) {
                        let j = choose|j: int| 0 <= j < vk1.len() && (vk1[j] as int) < library.books@.len()
                            && #[trigger] library.books@[vk1[j] as int].path@ == p;
                        if j < k {
                            assert(vk[j] == vk1[j]);
                        }
                    }
                    if visible_paths(vk, library.books@).contains(p) {
                        let j = choose|j: int| 0 <= j < vk.len() && (vk[j] as int) < library.books@.len()
                            && #[trigger] library.books@[vk[j] as int].path@ == p;
                        assert(vk1[j] == vk[j]);
                    }
                    if index < n && library.books@[index as int].path@ == p {
                        assert(vk1[k as int] == index);
                    }
                }
            }
            k = k + 1;
        }
        assert(visible@.take(visible@.len() as int) =~= visible@);
    }

    /// Deselect every currently visible book, leaving selected books outside
    /// the visible rows untouched.
    pub fn deselect_visible(&mut self, search: &LibrarySearchState, library: &LibrarySnapshot)
        requires
            old(self).wf(),
        ensures
            final(self).wf(),
            final(self).selection() == old(self).selection().difference(visible_paths(search.visible_spec(), library.books@)),
    {
        let visible = search.visible_indices();
        let n = library.books.len();
        let mut k: usize = 0;
        while k < visible.len()
            invariant
                self.wf(),
                n == library.books@.len(),
                visible@ == search.visible_spec(),
                k <= visible@.len(),
                self.selection() == old(self).selection().difference(visible_paths(visible@.take(k as int), library.books@)),
            decreases visible@.len() - k,
        {
            let index = visible[k];
            if index < n {
                match self.position(library.books[index].path.as_str()) {
                    Some(i) => self.remove_at(i),
                    None => {},
                }
            }
            assert(self.selection() =~= old(self).selection().difference(visible_paths(visible@.take(k as int + 1), library.books@))) by {
                let vk = visible@.take(k as int);
                let vk1 = visible@.take(k as int + 1);
                assert forall|p: Seq<char>| visible_paths(vk1, library.books@).contains(p)
                    <==> (visible_paths(vk, library.books@).contains(p)
                        || (index < n && library.books@[index as int].path@ == p)) by {
                    if visible_paths(vk1, library.books@).contains(p) {
                        let j = choose|j: int| 0 <= j < vk1.len() && (vk1[j] as int) < library.books@.len()
                            && #[trigger] library.books@[vk1[j] as int].path@ == p;
                        if j < k {
                            assert(vk[j] == vk1[j]);
                        }
                    }
                    if visible_paths(vk, library.books@).contains(p) {
                        let j = choose|j: int| 0 <= j < vk.len() && (vk[j] as int) < library.books@.len()
                            && #[trigger] library.books@[vk[j] as int].path@ == p;
                        assert(vk1[j] == vk[j]);
                    }
                    if index < n && library.books@[index as int].path@ == p {
                        assert(vk1[k as int] == index);
                    }
                }
            }
            k = k + 1;
        }
        assert(visible@.take(visible@.len() as int) =~= visible@);
    }

    /// Whether every visible row is an in-range, selected book; `false` when
    /// no row is visible.
    pub fn all_visible_selected(&self, search: &LibrarySearchState, library: &LibrarySnapshot) -> (r: bool)
        requires
            self.wf(),
        ensures
            r == (search.visible_spec().len() > 0 && forall|k: int| 0 <= k < search.visible_spec().len() ==> {
                let i = #[trigger] search.visible_spec()[k] as int;
                i < library.books@.len() && self.selection().contains(library.books@[i].path@)
            }),
    {
        let visible = search.visible_indices();
        if visible.len() == 0 {
            return false;
        }
        let n = library.books.len();
        let mut k: usize = 0;
        while k < visible.len()
            invariant
                self.wf(),
                n == library.books@.len(),
                visible@ == search.visible_spec(),
                k <= visible@.len(),
                forall|j: int| 0 <= j < k ==> {
                    let i = #[trigger] visible@[j] as int;
                    i < library.books@.len() && self.selection().contains(library.books@[i].path@)
                },
            decreases visible@.len() - k,
        {
            let index = visible[k];
            if index >= n || !self.contains(library.books[index].path.as_str()) {
                return false;
            }
            k = k + 1;
        }
        true
    }

    /// How many visible rows are in-range, selected books.
    pub fn visible_selected_count(&self, search: &LibrarySearchState, library: &LibrarySnapshot) -> (c: usize)
        requires
            self.wf(),
        ensures
            c == visible_selected_spec(search.visible_spec(), library.books@, self.selection()),
    {
        let visible = search.visible_indices();
        let n = library.books.len();
        let mut c: usize = 0;
        let mut k: usize = 0;
        while k < visible.len()
            invariant
                self.wf(),
                n == library.books@.len(),
                visible@ == search.visible_spec(),
                k <= visible@.len(),
                c <= k,
                c == visible_selected_spec(visible@.take(k as int), library.books@, self.selection()),
            decreases visible@.len() - k,
        {
            assert(visible@.take(k as int + 1).drop_last() =~= visible@.take(k as int));
            let index = visible[k];
            if index < n && self.contains(library.books[index].path.as_str()) {
                c = c + 1;
            }
            k = k + 1;
        }
        assert(visible@.take(visible@.len() as int) =~= visible@);
        c
    }
}

impl Default for LibrarySelectionState {
    /// Nothing selected.
    fn default() -> (s: Self)
        ensures
            s.wf(),
            s.selection().finite(),
            s.selection() == Set::<Seq<char>>::empty(),
    {
        let s = LibrarySelectionState { selected: Vec::new() };
        assert(s.selection() =~= Set::<Seq<char>>::empty());
        s
    }
}

} // verus!
