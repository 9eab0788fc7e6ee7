//! Thumbnail-strip request gate: each page's thumbnail is decoded at most
//! once across repeated and overlapping visible-range events.
use std::collections::HashSet;
use vstd::prelude::*;

verus! {

broadcast use vstd::std_specs::hash::group_hash_axioms;

/// Extra cells fetched on each side of the visible window.
pub const VISIBLE_MARGIN: usize = 3;

/// Pages requested on the initial open, before any viewport geometry is known.
pub const INITIAL_VISIBLE_PAGES: usize = 16;

/// The fresh pages of `pages` given the already-requested set `requested`
/// and `page_count` pages, and the requested set afterwards: a page is fresh
/// when it is in range and neither requested before nor earlier in `pages`.
pub open spec fn fresh_pages(requested: Set<usize>, page_count: usize, pages: Seq<usize>) -> (Seq<usize>, Set<usize>)
    decreases pages.len(),
{
    if pages.len() == 0 {
        (Seq::empty(), requested)
    } else {
        let (out, req) = fresh_pages(requested, page_count, pages.drop_last());
        let p = pages.last();
        if p < page_count && !req.contains(p) {
            (out.push(p), req.insert(p))
        } else {
            (out, req)
        }
    }
}

/// Each page is handed out at most once: every fresh page is in range, was
/// not requested before and appears once; afterwards the requested set is the
/// earlier one plus exactly the fresh pages.
pub proof fn lemma_fresh_pages_at_most_once(requested: Set<usize>, page_count: usize, pages: Seq<usize>)
    ensures
        fresh_pages(requested, page_count, pages).0.no_duplicates(),
        forall|i: int|
            0 <= i < fresh_pages(requested, page_count, pages).0.len() ==> {
                let p = #[trigger] fresh_pages(requested, page_count, pages).0[i];
                p < page_count && !requested.contains(p)
            },
        fresh_pages(requested, page_count, pages).1 == requested.union(
            fresh_pages(requested, page_count, pages).0.to_set(),
        ),
    decreases pages.len(),
{
    if pages.len() > 0 {
        let init = pages.drop_last();
        lemma_fresh_pages_at_most_once(requested, page_count, init);
        let (out, req) = fresh_pages(requested, page_count, init);
        let p = pages.last();
        if p < page_count && !req.contains(p) {
            let out2 = out.push(p);
            assert forall|i: int| 0 <= i < out.len() implies out2[i] != p by {
                assert(out.to_set().contains(out[i]));
            }
            Seq::lemma_to_set_insert_commutes(out, p);
            assert(out + seq![p] =~= out2);
            assert(out2.to_set() =~= out.to_set().insert(p));
            assert(req.insert(p) =~= requested.union(out2.to_set()));
        }
    }
}

/// No in-range page is left out: every page of the request below
/// `page_count` that was not requested before is among the fresh pages, and
/// afterwards the requested set is the earlier one plus exactly the request's
/// in-range pages.
pub proof fn lemma_fresh_pages_complete(requested: Set<usize>, page_count: usize, pages: Seq<usize>)
    ensures
        forall|i: int|
            0 <= i < pages.len() && #[trigger] pages[i] < page_count && !requested.contains(pages[i])
                ==> fresh_pages(requested, page_count, pages).0.contains(pages[i]),
        fresh_pages(requested, page_count, pages).1 == requested.union(
            Set::new(|q: usize| pages.contains(q) && q < page_count),
        ),
    decreases pages.len(),
{
    lemma_fresh_pages_at_most_once(requested, page_count, pages);
    if pages.len() == 0 {
        assert(requested.union(Set::new(|q: usize| pages.contains(q) && q < page_count)) =~= requested);
    } else {
        let init = pages.drop_last();
        lemma_fresh_pages_complete(requested, page_count, init);
        lemma_fresh_pages_at_most_once(requested, page_count, init);
        let (out, req) = fresh_pages(requested, page_count, init);
        let p = pages.last();
        let (out2, req2) = fresh_pages(requested, page_count, pages);
        assert forall|i: int|
            0 <= i < pages.len() && #[trigger] pages[i] < page_count && !requested.contains(pages[i])
                implies out2.contains(pages[i]) by {
            if i < pages.len() - 1 {
                assert(init[i] == pages[i]);
                let k = choose|k: int| 0 <= k < out.len() && out[k] == pages[i];
                if p < page_count && !req.contains(p) {
                    assert(out2[k] == pages[i]);
                }
            } else {
                if p < page_count && !req.contains(p) {
                    assert(out2[out.len() as int] == p);
                } else {
                    assert(req.contains(p));
                    assert(out.to_set().contains(p));
                }
            }
        }
        assert(req2 =~= requested.union(Set::new(|q: usize| pages.contains(q) && q < page_count))) by {
            assert forall|q: usize| req2.contains(q) <==> requested.union(
                Set::new(|q: usize| pages.contains(q) && q < page_count),
            ).contains(q) by {
                if init.contains(q) {
                    let k = choose|k: int| 0 <= k < init.len() && init[k] == q;
                    assert(pages[k] == q);
                }
                if pages.contains(q) && q != p {
                    let k = choose|k: int| 0 <= k < pages.len() && pages[k] == q;
                    assert(k != pages.len() - 1);
                    assert(init[k] == q);
                }
                if q == p {
                    assert(pages[pages.len() - 1] == p);
                }
            }
        }
    }
}

/// Keep the in-range pages of `pages` not already in `requested`, in order and
/// without repeats, and mark them requested.
pub fn take_fresh(requested: &mut HashSet<usize>, page_count: usize, pages: Vec<usize>) -> (fresh: Vec<usize>)
    ensures
        fresh@ == fresh_pages(old(requested)@, page_count, pages@).0,
        final(requested)@ == fresh_pages(old(requested)@, page_count, pages@).1,
        forall|i: int|
            0 <= i < pages@.len() && #[trigger] pages@[i] < page_count && !old(requested)@.contains(pages@[i])
                ==> fresh@.contains(pages@[i]),
        final(requested)@ == old(requested)@.union(
            Set::new(|q: usize| pages@.contains(q) && q < page_count),
        ),
        forall|i: int| 0 <= i < fresh@.len() ==> #[trigger] fresh@[i] < page_count && !old(requested)@.contains(fresh@[i]),
        fresh@.no_duplicates(),
{
    proof {
        lemma_fresh_pages_complete(requested@, page_count, pages@);
        lemma_fresh_pages_at_most_once(requested@, page_count, pages@);
    }
    let mut fresh: Vec<usize> = Vec::new();
    let mut i: usize = 0;
    proof {
        assert(pages@.take(0) =~= Seq::<usize>::empty());
    }
    while i < pages.len()
        invariant
            i <= pages@.len(),
            fresh@ == fresh_pages(old(requested)@, page_count, pages@.take(i as int)).0,
            requested@ == fresh_pages(old(requested)@, page_count, pages@.take(i as int)).1,
        decreases pages@.len() - i,
    {
        proof {
            assert(pages@.take(i + 1).drop_last() =~= pages@.take(i as int));
        }
        let p = pages[i];
        if p < page_count {
            if requested.insert(p) {
                fresh.push(p);
            }
        }
        i = i + 1;
    }
    proof {
        assert(pages@.take(pages@.len() as int) =~= pages@);
    }
    fresh
}

/// The second page the scrubber previews for leading page `lead` of a
/// `total`-page book: the next page (the last page at most) when the preview
/// is a double spread, none otherwise.
pub fn preview_trailing(lead: usize, total: usize, is_double: bool) -> (t: Option<usize>)
    requires
        lead < total,
    ensures
        t == if is_double {
            Some(if lead + 1 <= total - 1 { (lead + 1) as usize } else { (total - 1) as usize })
        } else {
            None::<usize>
        },
{
    if is_double {
        let next = lead + 1;
        Some(if next <= total - 1 { next } else { total - 1 })
    } else {
        None
    }
}

/// The pages of the initial request of a `page_count`-page strip: the
/// leading `INITIAL_VISIBLE_PAGES` pages (fewer for a shorter book).
pub open spec fn initial_pages(page_count: usize) -> Seq<usize> {
    Seq::new(
        if page_count < INITIAL_VISIBLE_PAGES { page_count as nat } else { INITIAL_VISIBLE_PAGES as nat },
        |i: int| i as usize,
    )
}

/// The live generation of the thumbnail strip: its page count, its number
/// and the pages already requested.
pub struct StripGen {
    page_count: usize,
    epoch: usize,
    requested: HashSet<usize>,
}

/// The thumbnail-strip bookkeeping: the generation counter and the live
/// generation, if a source is shown.
pub struct ThumbnailController {
    epoch: usize,
    current: Option<StripGen>,
}

impl ThumbnailController {
    /// The generation counter.
    pub closed spec fn epoch_spec(&self) -> usize {
        self.epoch
    }

    /// The live generation as plain values: page count, number, requested
    /// pages.
    pub closed spec fn current_spec(&self) -> Option<(usize, usize, Set<usize>)> {
        match self.current {
            Some(g) => Some((g.page_count, g.epoch, g.requested@)),
            None => None,
        }
    }

    /// Generation 0, no source.
    pub fn new() -> (c: Self)
        ensures
            c.epoch_spec() == 0,
            c.current_spec() is None,
    {
        ThumbnailController { epoch: 0, current: None }
    }

    /// Start the strip of a new source with `page_count` pages (no source
    /// when `has_source` is false): the generation advances (wrapping), and
    /// the leading pages are requested. Returns the new generation and, when
    /// there is a source with pages, the pages to decode first.
    pub fn start(&mut self, has_source: bool, page_count: usize) -> (r: (usize, Option<Vec<usize>>))
        ensures
            r.0 == final(self).epoch_spec(),
            r.0 == if old(self).epoch_spec() == usize::MAX {
                0
            } else {
                (old(self).epoch_spec() + 1) as usize
            },
            !has_source ==> final(self).current_spec() is None && r.1 is None,
            has_source ==> {
                let init = initial_pages(page_count);
                &&& final(self).current_spec() == Some((page_count, r.0, init.to_set()))
                &&& (init.len() == 0 ==> r.1 is None)
                &&& (init.len() > 0 ==> r.1 is Some && r.1.unwrap()@ == init)
            },
    {
        self.epoch = self.epoch.wrapping_add(1);
        if !has_source {
            self.current = None;
            return (self.epoch, None);
        }
        let n = if page_count < INITIAL_VISIBLE_PAGES { page_count } else { INITIAL_VISIBLE_PAGES };
        let mut initial: Vec<usize> = Vec::new();
        let mut i: usize = 0;
        while i < n
            invariant
                i <= n,
                n == initial_pages(page_count).len(),
                initial@ == initial_pages(page_count).take(i as int),
            decreases n - i,
        {
            initial.push(i);
            i = i + 1;
        }
        proof {
            assert(initial_pages(page_count).take(n as int) =~= initial_pages(page_count));
        }
        let mut requested: HashSet<usize> = HashSet::new();
        let fresh = take_fresh(&mut requested, page_count, initial);
        proof {
            lemma_fresh_initial(page_count, n as int);
        }
        self.current = Some(StripGen { page_count, epoch: self.epoch, requested });
        if fresh.len() == 0 {
            (self.epoch, None)
        } else {
            (self.epoch, Some(fresh))
        }
    }

    /// Request thumbnails for `pages` (a visible-range event): the fresh
    /// pages of the live generation (see `take_fresh`) with its number, or
    /// `None` when no source is shown or nothing is fresh.
    pub fn request_pages(&mut self, pages: Vec<usize>) -> (r: Option<(usize, Vec<usize>)>)
        ensures
            final(self).epoch_spec() == old(self).epoch_spec(),
            old(self).current_spec() is None ==> r is None && final(self).current_spec() is None,
            old(self).current_spec() matches Some((n, e, req)) ==> {
                let (fresh, req2) = fresh_pages(req, n, pages@);
                &&& final(self).current_spec() == Some((n, e, req2))
                &&& (fresh.len() == 0 ==> r is None)
                &&& (fresh.len() > 0 ==> r is Some && r.unwrap().0 == e && r.unwrap().1@ == fresh)
            },
    {
        match self.current.as_mut() {
            None => None,
            Some(gen) => {
                let fresh = take_fresh(&mut gen.requested, gen.page_count, pages);
                if fresh.len() == 0 {
                    None
                } else {
                    Some((gen.epoch, fresh))
                }
            },
        }
    }
}

proof fn lemma_fresh_initial(page_count: usize, n: int)
    requires
        n == initial_pages(page_count).len(),
    ensures
        fresh_pages(Set::empty(), page_count, initial_pages(page_count)).0 == initial_pages(page_count),
        fresh_pages(Set::empty(), page_count, initial_pages(page_count)).1 == initial_pages(page_count).to_set(),
{
    lemma_fresh_prefix(page_count, n);
    assert(initial_pages(page_count).take(n) =~= initial_pages(page_count));
}

proof fn lemma_fresh_prefix(page_count: usize, k: int)
    requires
        0 <= k <= initial_pages(page_count).len(),
    ensures
        fresh_pages(Set::empty(), page_count, initial_pages(page_count).take(k)).0 == initial_pages(page_count).take(k),
        fresh_pages(Set::empty(), page_count, initial_pages(page_count).take(k)).1 == initial_pages(page_count).take(k).to_set(),
    decreases k,
{
    let s = initial_pages(page_count);
    if k == 0 {
        assert(s.take(0) =~= Seq::<usize>::empty());
        assert(s.take(0).to_set() =~= Set::<usize>::empty());
    } else {
        lemma_fresh_prefix(page_count, k - 1);
        assert(s.take(k).drop_last() =~= s.take(k - 1));
        let prev = s.take(k - 1);
        assert(!prev.to_set().contains((k - 1) as usize)) by {
            if prev.to_set().contains((k - 1) as usize) {
                let j = choose|j: int| 0 <= j < prev.len() && prev[j] == (k - 1) as usize;
                assert(prev[j] == j as usize);
            }
        }
        assert(s.take(k) =~= prev.push((k - 1) as usize));
        Seq::lemma_to_set_insert_commutes(prev, (k - 1) as usize);
        assert(prev + seq![(k - 1) as usize] =~= prev.push((k - 1) as usize));
    }
}

} // verus!
