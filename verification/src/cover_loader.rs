//! Carousel cover bookkeeping: the on-disk cover-cache policy, the order in
//! which cover loads are dispatched, the empty-book decision, and the
//! byte-budgeted in-memory LRU of decoded covers.
//!
//! The in-memory cache keeps, per cover key, the byte size of its decoded
//! buffer in an `lru::LruCache`; the decoded buffers themselves are held by the
//! caller under the same keys, and `CoverMemCache::insert` reports which keys
//! it evicted so the caller can drop them.
use crate::page_count_prefetch::PageCountPrefetch;
use lru::LruCache;
use vstd::prelude::*;

verus! {

#[verifier::external_type_specification]
#[verifier::external_body]
#[verifier::reject_recursive_types(K)]
#[verifier::reject_recursive_types(V)]
#[verifier::reject_recursive_types(S)]
pub struct ExLruCache<K, V, S>(LruCache<K, V, S>);

#[verifier::external_type_specification]
#[verifier::external_body]
pub struct ExLruDefaultHasher(lru::DefaultHasher);

/// What an `LruCache<String, u64>` holds: its `(key, value)` entries ordered
/// from least to most recently used.
pub uninterp spec fn lru_entries(c: LruCache<String, u64>) -> Seq<(Seq<char>, u64)>;

/// The entry capacity an `LruCache<String, u64>` was made with.
pub uninterp spec fn lru_cap(c: LruCache<String, u64>) -> nat;

/// The position of the entry keyed `k` in `entries`, or -1 when there is none.
pub open spec fn key_position(entries: Seq<(Seq<char>, u64)>, k: Seq<char>) -> int
    decreases entries.len(),
{
    if entries.len() == 0 {
        -1
    } else if entries.last().0 == k {
        entries.len() - 1
    } else {
        key_position(entries.drop_last(), k)
    }
}

/// `lru::LruCache::unbounded`: an empty cache whose capacity is `usize::MAX`
/// entries.
#[verifier::external_body]
fn lru_unbounded() -> (c: LruCache<String, u64>)
    ensures
        lru_entries(c) == Seq::<(Seq<char>, u64)>::empty(),
        lru_cap(c) == usize::MAX,
{
    LruCache::unbounded()
}

/// Whether no two entries of `e` share a key.
pub open spec fn keys_distinct(e: Seq<(Seq<char>, u64)>) -> bool {
    forall|i: int, j: int| 0 <= i < e.len() && 0 <= j < e.len() && i != j ==> e[i].0 != e[j].0
}

/// The total of the byte sizes held in `e`.
pub open spec fn entries_bytes(e: Seq<(Seq<char>, u64)>) -> nat
    decreases e.len(),
{
    if e.len() == 0 {
        0
    } else {
        e[0].1 as nat + entries_bytes(e.drop_first())
    }
}

/// `lru::LruCache::put` on an existing key: the entry takes the new value and
/// becomes the most recently used, and the old value is handed back.
/// `lru::LruCache::put` on a new key: a fresh entry is attached as the most
/// recently used, after the least recently used entry was dropped to make
/// room when the cache already held as many entries as its capacity; `None` is
/// handed back either way. (A cache never holds more entries than its
/// capacity, so nothing is said of that case.)
pub open spec fn put_outcome(
    before: Seq<(Seq<char>, u64)>,
    cap: nat,
    k: Seq<char>,
    v: u64,
    prev: Option<u64>,
    after: Seq<(Seq<char>, u64)>,
) -> bool {
    let i = key_position(before, k);
    &&& i >= 0 ==> prev == Some(before[i].1) && after == before.remove(i).push((k, v))
    &&& i < 0 && before.len() < cap ==> prev is None && after == before.push((k, v))
    &&& i < 0 && before.len() == cap ==> prev is None && after == before.drop_first().push((k, v))
}

/// `lru::LruCache::put`: see `put_outcome`; the capacity is unchanged.
#[verifier::external_body]
fn lru_put(c: &mut LruCache<String, u64>, k: String, v: u64) -> (prev: Option<u64>)
    ensures
        lru_cap(*final(c)) == lru_cap(*old(c)),
        put_outcome(lru_entries(*old(c)), lru_cap(*old(c)), k@, v, prev, lru_entries(*final(c))),
{
    c.put(k, v)
}

/// `lru::LruCache::get`: the value stored under `k`, if any; a found entry
/// becomes the most recently used, and a miss leaves the cache unchanged.
#[verifier::external_body]
fn lru_get(c: &mut LruCache<String, u64>, k: &str) -> (r: Option<u64>)
    ensures
        lru_cap(*final(c)) == lru_cap(*old(c)),
        key_position(lru_entries(*old(c)), k@) >= 0 ==> {
            let i = key_position(lru_entries(*old(c)), k@);
            &&& r == Some(lru_entries(*old(c))[i].1)
            &&& lru_entries(*final(c)) == lru_entries(*old(c)).remove(i).push(
                lru_entries(*old(c))[i],
            )
        },
        key_position(lru_entries(*old(c)), k@) < 0 ==> r is None && lru_entries(*final(c))
            == lru_entries(*old(c)),
{
    c.get(k).copied()
}

/// `lru::LruCache::pop_lru`: removes and hands back the least recently used
/// entry, or `None` on an empty cache.
#[verifier::external_body]
fn lru_pop_lru(c: &mut LruCache<String, u64>) -> (r: Option<(String, u64)>)
    ensures
        lru_cap(*final(c)) == lru_cap(*old(c)),
        lru_entries(*old(c)).len() == 0 ==> r is None && lru_entries(*final(c)) == lru_entries(
            *old(c),
        ),
        lru_entries(*old(c)).len() > 0 ==> r is Some && r.unwrap().0@ == lru_entries(
            *old(c),
        )[0].0 && r.unwrap().1 == lru_entries(*old(c))[0].1 && lru_entries(*final(c))
            == lru_entries(*old(c)).drop_first(),
{
    c.pop_lru()
}

/// `lru::LruCache::len`: the number of entries.
#[verifier::external_body]
fn lru_len(c: &LruCache<String, u64>) -> (n: usize)
    ensures
        n == lru_entries(*c).len(),
{
    c.len()
}

proof fn lemma_key_position(e: Seq<(Seq<char>, u64)>, k: Seq<char>)
    ensures
        -1 <= key_position(e, k) < e.len(),
        key_position(e, k) >= 0 ==> e[key_position(e, k)].0 == k,
        key_position(e, k) < 0 ==> forall|j: int| 0 <= j < e.len() ==> e[j].0 != k,
    decreases e.len(),
{
    if e.len() > 0 {
        lemma_key_position(e.drop_last(), k);
        assert(forall|j: int| 0 <= j < e.len() - 1 ==> e.drop_last()[j] == e[j]);
    }
}

proof fn lemma_bytes_push(e: Seq<(Seq<char>, u64)>, x: (Seq<char>, u64))
    ensures
        entries_bytes(e.push(x)) == entries_bytes(e) + x.1,
    decreases e.len(),
{
    if e.len() > 0 {
        lemma_bytes_push(e.drop_first(), x);
        assert(e.push(x).drop_first() =~= e.drop_first().push(x));
        assert(e.push(x)[0] == e[0]);
    } else {
        assert(e.push(x).drop_first() =~= Seq::<(Seq<char>, u64)>::empty());
        assert(entries_bytes(Seq::<(Seq<char>, u64)>::empty()) == 0);
        assert(e.push(x)[0] == x);
    }
}

proof fn lemma_bytes_remove(e: Seq<(Seq<char>, u64)>, i: int)
    requires
        0 <= i < e.len(),
    ensures
        entries_bytes(e.remove(i)) + e[i].1 == entries_bytes(e),
    decreases e.len(),
{
    if i == 0 {
        assert(e.remove(0) =~= e.drop_first());
    } else {
        lemma_bytes_remove(e.drop_first(), i - 1);
        assert(e.remove(i).drop_first() =~= e.drop_first().remove(i - 1));
    }
}

/// How many least-recently-used entries the budget enforcement drops from
/// `e`: entries are dropped from the front while the total exceeds `budget`
/// and more than one entry is left.
pub open spec fn evict_count(e: Seq<(Seq<char>, u64)>, budget: u64) -> nat
    decreases e.len(),
{
    if e.len() > 1 && entries_bytes(e) > budget {
        1 + evict_count(e.drop_first(), budget)
    } else {
        0
    }
}

/// The entries after `k` was put with `v` into an unbounded cache holding `e`.
pub open spec fn staged_entries(e: Seq<(Seq<char>, u64)>, k: Seq<char>, v: u64) -> Seq<
    (Seq<char>, u64),
> {
    let i = key_position(e, k);
    if i >= 0 {
        e.remove(i).push((k, v))
    } else {
        e.push((k, v))
    }
}

/// The on-disk cover-cache retention policy: the size cap of the cache
/// (`max_bytes`) and the longer-edge size of generated covers (`max_side`,
/// also part of every cover cache key).
#[derive(Clone, Copy, PartialEq, Eq, Debug, Structural)]
pub struct CoverCachePolicy {
    pub max_bytes: u64,
    pub max_side: u32,
}

impl Default for CoverCachePolicy {
    /// The canonical policy: a 256 MiB cache of covers at most 512 px on their
    /// longer edge.
    fn default() -> (p: Self)
        ensures
            p.max_bytes == 268435456,
            p.max_side == 512,
    {
        CoverCachePolicy { max_bytes: 268435456, max_side: 512 }
    }
}

/// One book whose cover must be loaded: its carousel row, its path, and
/// whether its page count is still unknown and must be resolved as well.
#[derive(Debug)]
pub struct CoverRequest {
    pub row: usize,
    pub path: String,
    pub needs_count: bool,
}

/// The distance between two rows.
pub open spec fn row_distance(a: usize, b: usize) -> int {
    if a >= b {
        a - b
    } else {
        b - a
    }
}

/// The requests of `s` whose row lies at distance `d` from `focus`, in order.
pub open spec fn at_distance(s: Seq<CoverRequest>, focus: usize, d: int) -> Seq<CoverRequest> {
    s.filter(|r: CoverRequest| row_distance(r.row, focus) == d)
}

/// `out` is `input` stably sorted by distance from `focus`: nondecreasing in
/// distance, and for every distance the requests at that distance appear in
/// the order they had in `input`.
pub open spec fn focus_ordered(input: Seq<CoverRequest>, out: Seq<CoverRequest>, focus: usize) -> bool {
    &&& forall|i: int, j: int|
        0 <= i <= j < out.len() ==> row_distance(out[i].row, focus) <= row_distance(
            out[j].row,
            focus,
        )
    &&& forall|d: int| #[trigger] at_distance(out, focus, d) == at_distance(input, focus, d)
}

/// The distance between two rows.
pub fn distance(a: usize, b: usize) -> (d: usize)
    ensures
        d == row_distance(a, b),
{
    if a >= b {
        a - b
    } else {
        b - a
    }
}

proof fn lemma_filter_none(s: Seq<CoverRequest>, focus: usize, d: int)
    requires
        forall|j: int| 0 <= j < s.len() ==> row_distance(s[j].row, focus) != d,
    ensures
        at_distance(s, focus, d) == Seq::<CoverRequest>::empty(),
{
    let pred = |r: CoverRequest| row_distance(r.row, focus) == d;
    s.lemma_all_neg_filter_empty(pred);
}

/// Reorder the requests so the rows nearest `focus_row` come first, expanding
/// outward; requests at equal distance keep their input order.
pub fn prioritize_by_focus(requests: Vec<CoverRequest>, focus_row: usize) -> (out: Vec<CoverRequest>)
    ensures
        focus_ordered(requests@, out@, focus_row),
        out@.len() == requests@.len(),
{
    let ghost input = requests@;
    let mut rest = requests;
    let mut out: Vec<CoverRequest> = Vec::new();
    let mut taken: usize = 0;
    let n = rest.len();
    proof {
        assert(input.take(0) =~= out@);
        assert(input.skip(0) =~= input);
    }
    while taken < n
        invariant
            n == input.len(),
            taken <= n,
            rest@ == input.skip(taken as int),
            out@.len() == taken,
            focus_ordered(input.take(taken as int), out@, focus_row),
        decreases n - taken,
    {
        let x = rest.remove(0);
        let kx = distance(x.row, focus_row);
        let mut p: usize = 0;
        while p < out.len() && distance(out[p].row, focus_row) <= kx
            invariant
                p <= out.len(),
                forall|j: int| 0 <= j < p ==> row_distance(out@[j].row, focus_row) <= kx,
            decreases out.len() - p,
        {
            p = p + 1;
        }
        let ghost before = out@;
        let ghost prefix = input.take(taken as int);
        out.insert(p, x);
        proof {
            assert(x == input[taken as int]);
            assert(input.take(taken + 1) =~= prefix.push(x));
            let a = before.subrange(0, p as int);
            let b = before.subrange(p as int, before.len() as int);
            assert(before =~= a + b);
            assert(out@ =~= a + seq![x] + b);
            assert forall|j: int| 0 <= j < b.len() implies row_distance(b[j].row, focus_row) > kx by {
                assert(b[j] == before[p + j]);
            }
            assert forall|d: int| #[trigger] at_distance(out@, focus_row, d) == at_distance(
                input.take(taken + 1),
                focus_row,
                d,
            ) by {
                let pred = |r: CoverRequest| row_distance(r.row, focus_row) == d;
                Seq::filter_distributes_over_add(a + seq![x], b, pred);
                Seq::filter_distributes_over_add(a, seq![x], pred);
                Seq::filter_distributes_over_add(a, b, pred);
                prefix.lemma_filter_push(x, pred);
                reveal_with_fuel(Seq::filter, 2);
                assert(at_distance(before, focus_row, d) == at_distance(prefix, focus_row, d));
                if d == kx {
                    lemma_filter_none(b, focus_row, d);
                    assert(at_distance(seq![x], focus_row, d) =~= seq![x]);
                } else {
                    assert(at_distance(seq![x], focus_row, d) =~= Seq::<CoverRequest>::empty());
                }
                assert(at_distance(prefix.push(x), focus_row, d) =~= at_distance(out@, focus_row, d));
            }
        }
        taken = taken + 1;
    }
    proof {
        assert(input.take(n as int) =~= input);
    }
    out
}

/// Whether opening a book for its cover should raise the "empty book" signal:
/// only when the source opened cleanly and counted no pages (`page_count` is
/// the page count when it is nonzero). An open error means unreadable, not
/// empty.
pub fn should_signal_empty<S, E>(open_result: &Result<S, E>, page_count: Option<usize>) -> (b: bool)
    ensures
        b == (open_result is Ok && page_count is None),
{
    open_result.is_ok() && page_count.is_none()
}

/// A cover just inserted can be fetched back: it is the most recently used
/// entry, so a lookup of its key finds it with the inserted size.
pub proof fn lemma_inserted_cover_is_cached(entries: Seq<(Seq<char>, u64)>, key: Seq<char>, bytes: u64)
    requires
        entries.len() >= 1,
        entries.last() == (key, bytes),
    ensures
        key_position(entries, key) == entries.len() - 1,
        entries[key_position(entries, key)].1 == bytes,
{
}

/// Where a cover-loading worker stands: what it waits for next.
#[derive(Clone, Copy, PartialEq, Eq, Debug, Structural)]
pub enum CoverPhase {
    /// Not started.
    Start,
    /// Waiting for the in-memory cache lookup.
    Memory,
    /// Waiting for the on-disk cache lookup.
    Disk,
    /// Waiting for the book's source to open.
    Open,
    /// Waiting for the cover to be generated; the page count to stream, if
    /// one is to be resolved.
    Generate { count: Option<usize> },
    /// Done.
    Finished,
}

/// What a cover-loading worker learned from its last step. `cancelled` is the
/// generation's cancel flag read right after that step.
#[derive(Clone, Copy, PartialEq, Eq, Debug, Structural)]
pub enum CoverEvent {
    Started { cancelled: bool, cache_ok: bool },
    MemoryLookup { hit: bool, cancelled: bool },
    DiskLookup { hit: bool, cancelled: bool },
    SourceOpened { ok: bool, page_count: usize, cancelled: bool },
    CoverGenerated { ok: bool, cancelled: bool },
}

/// What a cover-loading worker does next.
#[derive(Clone, Copy, PartialEq, Eq, Debug, Structural)]
pub enum CoverAction {
    /// Look the cover up in the in-memory cache.
    CheckMemory,
    /// Look the cover up in the on-disk cache.
    CheckDisk,
    /// Show the cover found in memory; then resolve the page count when asked.
    ShowCached { resolve_count: bool },
    /// Keep the cover read from disk in memory and show it; then resolve the
    /// page count when asked.
    ShowFromDisk { resolve_count: bool },
    /// Open the book's source.
    OpenSource,
    /// Generate the cover from the opened source.
    GenerateCover,
    /// Store the generated cover on disk and in memory, then show it (and
    /// stream the page count) unless the generation was cancelled meanwhile.
    StoreCover { show: bool, count: Option<usize> },
    /// Mark the row's cover as failed.
    MarkFailed,
    /// Report the book as empty.
    SignalEmpty,
    /// Stop without further effect.
    Stop,
}

/// The cover-loading worker's transition: from the phase it is in and what
/// the last step reported, the next phase and what to do.
pub open spec fn cover_transition(phase: CoverPhase, needs_count: bool, event: CoverEvent) -> (CoverPhase, CoverAction) {
    match (phase, event) {
        (CoverPhase::Start, CoverEvent::Started { cancelled, cache_ok }) => if cancelled || !cache_ok {
            (CoverPhase::Finished, CoverAction::Stop)
        } else {
            (CoverPhase::Memory, CoverAction::CheckMemory)
        },
        (CoverPhase::Memory, CoverEvent::MemoryLookup { hit, cancelled }) => if hit {
            (CoverPhase::Finished, CoverAction::ShowCached { resolve_count: needs_count && !cancelled })
        } else {
            (CoverPhase::Disk, CoverAction::CheckDisk)
        },
        (CoverPhase::Disk, CoverEvent::DiskLookup { hit, cancelled }) => if hit {
            (CoverPhase::Finished, CoverAction::ShowFromDisk { resolve_count: needs_count && !cancelled })
        } else {
            (CoverPhase::Open, CoverAction::OpenSource)
        },
        (CoverPhase::Open, CoverEvent::SourceOpened { ok, page_count, cancelled }) => if !ok {
            (CoverPhase::Finished, if cancelled { CoverAction::Stop } else { CoverAction::MarkFailed })
        } else if page_count == 0 {
            (CoverPhase::Finished, if cancelled { CoverAction::Stop } else { CoverAction::SignalEmpty })
        } else {
            (
                CoverPhase::Generate { count: if needs_count { Some(page_count) } else { None } },
                CoverAction::GenerateCover,
            )
        },
        (CoverPhase::Generate { count }, CoverEvent::CoverGenerated { ok, cancelled }) => if !ok {
            (CoverPhase::Finished, if cancelled { CoverAction::Stop } else { CoverAction::MarkFailed })
        } else {
            (CoverPhase::Finished, CoverAction::StoreCover { show: !cancelled, count: if cancelled { None } else { count } })
        },
        _ => (CoverPhase::Finished, CoverAction::Stop),
    }
}

/// Whether an event reports the generation cancelled.
pub open spec fn event_cancelled(event: CoverEvent) -> bool {
    match event {
        CoverEvent::Started { cancelled, .. } => cancelled,
        CoverEvent::MemoryLookup { cancelled, .. } => cancelled,
        CoverEvent::DiskLookup { cancelled, .. } => cancelled,
        CoverEvent::SourceOpened { cancelled, .. } => cancelled,
        CoverEvent::CoverGenerated { cancelled, .. } => cancelled,
    }
}

/// A worker of a cancelled generation never marks a row failed, never
/// reports a book empty, never shows a freshly generated cover and never
/// starts resolving a page count.
pub proof fn lemma_cancelled_worker_stays_silent(phase: CoverPhase, needs_count: bool, event: CoverEvent)
    requires
        event_cancelled(event),
    ensures
        ({
            let a = cover_transition(phase, needs_count, event).1;
            &&& a != CoverAction::MarkFailed
            &&& a != CoverAction::SignalEmpty
            &&& !(a matches CoverAction::StoreCover { show: true, .. })
            &&& !(a matches CoverAction::ShowCached { resolve_count: true })
            &&& !(a matches CoverAction::ShowFromDisk { resolve_count: true })
        }),
{
}

/// A cover found in memory or in the on-disk cache is shown and the worker
/// finishes; the book's unknown page count is then resolved exactly when it
/// is unknown and the generation is still live, whichever cache hit.
pub proof fn lemma_hit_resolves_unknown_count(needs_count: bool, cancelled: bool)
    ensures
        cover_transition(CoverPhase::Memory, needs_count, CoverEvent::MemoryLookup { hit: true, cancelled }).0
            == CoverPhase::Finished,
        cover_transition(CoverPhase::Disk, needs_count, CoverEvent::DiskLookup { hit: true, cancelled }).0
            == CoverPhase::Finished,
        cover_transition(CoverPhase::Memory, needs_count, CoverEvent::MemoryLookup { hit: true, cancelled }).1
            matches CoverAction::ShowCached { resolve_count } && resolve_count == (needs_count && !cancelled),
        cover_transition(CoverPhase::Disk, needs_count, CoverEvent::DiskLookup { hit: true, cancelled }).1
            matches CoverAction::ShowFromDisk { resolve_count } && resolve_count == (needs_count && !cancelled),
{
}

/// A cover generated for a book whose page count was unknown, with the
/// generation still live, is shown together with the count its source was
/// opened with; a book whose count was known streams none.
pub proof fn lemma_generated_cover_streams_opened_count(needs_count: bool, page_count: usize, cancelled: bool)
    requires
        page_count > 0,
    ensures
        ({
            let opened = cover_transition(
                CoverPhase::Open,
                needs_count,
                CoverEvent::SourceOpened { ok: true, page_count, cancelled: false },
            );
            let stored = cover_transition(opened.0, needs_count, CoverEvent::CoverGenerated { ok: true, cancelled });
            &&& opened.1 == CoverAction::GenerateCover
            &&& stored.0 == CoverPhase::Finished
            &&& stored.1 matches CoverAction::StoreCover { show, count }
            &&& show == !cancelled
            &&& count == (if needs_count && !cancelled { Some(page_count) } else { None::<usize> })
        }),
{
}

/// How many steps a worker in phase `p` has left at most.
pub open spec fn phase_rank(p: CoverPhase) -> nat {
    match p {
        CoverPhase::Start => 5,
        CoverPhase::Memory => 4,
        CoverPhase::Disk => 3,
        CoverPhase::Open => 2,
        CoverPhase::Generate { .. } => 1,
        CoverPhase::Finished => 0,
    }
}

/// Every step of an unfinished worker moves it strictly closer to the end, so
/// a worker finishes after at most five steps.
pub proof fn lemma_cover_step_progresses(phase: CoverPhase, needs_count: bool, event: CoverEvent)
    requires
        phase != CoverPhase::Finished,
    ensures
        phase_rank(cover_transition(phase, needs_count, event).0) < phase_rank(phase),
{
}

/// The cover-loading worker's decision for one step: from the phase it is in
/// and what the last step reported, the next phase and what to do. A miss
/// opens the source; a source that fails to open, or a cover that fails to
/// generate, marks the row failed and a source without pages reports the book
/// empty — unless the generation was cancelled meanwhile. An event that does
/// not belong to the phase ends the worker.
pub fn cover_step(phase: CoverPhase, needs_count: bool, event: CoverEvent) -> (r: (CoverPhase, CoverAction))
    ensures
        r == cover_transition(phase, needs_count, event),
        event matches CoverEvent::MemoryLookup { hit: true, cancelled } ==> (phase == CoverPhase::Memory ==> r
            == (CoverPhase::Finished, CoverAction::ShowCached { resolve_count: needs_count && !cancelled })),
        event matches CoverEvent::DiskLookup { hit: true, cancelled } ==> (phase == CoverPhase::Disk ==> r
            == (CoverPhase::Finished, CoverAction::ShowFromDisk { resolve_count: needs_count && !cancelled })),
{
    match (phase, event) {
        (CoverPhase::Start, CoverEvent::Started { cancelled, cache_ok }) => {
            if cancelled || !cache_ok {
                (CoverPhase::Finished, CoverAction::Stop)
            } else {
                (CoverPhase::Memory, CoverAction::CheckMemory)
            }
        },
        (CoverPhase::Memory, CoverEvent::MemoryLookup { hit, cancelled }) => {
            if hit {
                (CoverPhase::Finished, CoverAction::ShowCached { resolve_count: needs_count && !cancelled })
            } else {
                (CoverPhase::Disk, CoverAction::CheckDisk)
            }
        },
        (CoverPhase::Disk, CoverEvent::DiskLookup { hit, cancelled }) => {
            if hit {
                (CoverPhase::Finished, CoverAction::ShowFromDisk { resolve_count: needs_count && !cancelled })
            } else {
                (CoverPhase::Open, CoverAction::OpenSource)
            }
        },
        (CoverPhase::Open, CoverEvent::SourceOpened { ok, page_count, cancelled }) => {
            if !ok {
                (CoverPhase::Finished, if cancelled { CoverAction::Stop } else { CoverAction::MarkFailed })
            } else if page_count == 0 {
                (CoverPhase::Finished, if cancelled { CoverAction::Stop } else { CoverAction::SignalEmpty })
            } else {
                (
                    CoverPhase::Generate { count: if needs_count { Some(page_count) } else { None } },
                    CoverAction::GenerateCover,
                )
            }
        },
        (CoverPhase::Generate { count }, CoverEvent::CoverGenerated { ok, cancelled }) => {
            if !ok {
                (CoverPhase::Finished, if cancelled { CoverAction::Stop } else { CoverAction::MarkFailed })
            } else {
                (
                    CoverPhase::Finished,
                    CoverAction::StoreCover { show: !cancelled, count: if cancelled { None } else { count } },
                )
            }
        },
        _ => (CoverPhase::Finished, CoverAction::Stop),
    }
}

/// Byte budget, in bytes, of the in-memory decoded-cover cache: 64 MiB, about
/// 64 decoded covers of at most 512 x 512 RGBA pixels.
pub const COVER_MEM_BUDGET_BYTES: u64 = 67108864;

/// Byte-budgeted LRU of decoded covers, keyed by cover cache key. Each entry
/// holds the byte size of the decoded buffer stored under its key.
pub struct CoverMemCache {
    lru: LruCache<String, u64>,
    total_bytes: u64,
    budget: u64,
}

impl CoverMemCache {
    /// The entries, least recently used first.
    pub closed spec fn entries(&self) -> Seq<(Seq<char>, u64)> {
        lru_entries(self.lru)
    }

    /// The byte budget.
    pub closed spec fn budget_spec(&self) -> u64 {
        self.budget
    }

    /// The running byte total.
    pub closed spec fn total_spec(&self) -> u64 {
        self.total_bytes
    }

    /// Keys are distinct, the running total is the sum of the entries' sizes,
    /// and the underlying cache never evicts on its own.
    pub closed spec fn wf(&self) -> bool {
        &&& keys_distinct(lru_entries(self.lru))
        &&& self.total_bytes == entries_bytes(lru_entries(self.lru))
        &&& lru_cap(self.lru) == usize::MAX
    }

    /// In a well-formed cache the running total is the sum of the cached
    /// sizes, and no key is cached twice.
    pub proof fn lemma_total_is_sum(&self)
        requires
            self.wf(),
        ensures
            self.total_spec() == entries_bytes(self.entries()),
            keys_distinct(self.entries()),
    {
    }

    /// An empty cache with the default 64 MiB budget.
    pub fn new() -> (c: Self)
        ensures
            c.wf(),
            c.entries() == Seq::<(Seq<char>, u64)>::empty(),
            c.total_spec() == 0,
            c.total_spec() == entries_bytes(c.entries()),
            c.budget_spec() == COVER_MEM_BUDGET_BYTES,
    {
        Self::with_budget(COVER_MEM_BUDGET_BYTES)
    }

    /// An empty cache with the given byte budget.
    pub fn with_budget(budget: u64) -> (c: Self)
        ensures
            c.wf(),
            c.entries() == Seq::<(Seq<char>, u64)>::empty(),
            c.total_spec() == 0,
            c.total_spec() == entries_bytes(c.entries()),
            c.budget_spec() == budget,
    {
        CoverMemCache { lru: lru_unbounded(), total_bytes: 0, budget }
    }

    /// The byte budget.
    pub fn budget(&self) -> (b: u64)
        ensures
            b == self.budget_spec(),
    {
        self.budget
    }

    /// The running byte total of the cached covers.
    pub fn total_bytes(&self) -> (t: u64)
        ensures
            t == self.total_spec(),
            self.wf() ==> t == entries_bytes(self.entries()) && keys_distinct(self.entries()),
    {
        self.total_bytes
    }

    /// The number of cached covers.
    pub fn len(&self) -> (n: usize)
        ensures
            n == self.entries().len(),
    {
        lru_len(&self.lru)
    }

    /// The byte size cached under `key`, promoting that entry to most recently
    /// used; `None` (and no change) when `key` is not cached.
    pub fn get(&mut self, key: &str) -> (r: Option<u64>)
        requires
            old(self).wf(),
        ensures
            final(self).wf(),
            final(self).budget_spec() == old(self).budget_spec(),
            final(self).total_spec() == old(self).total_spec(),
            final(self).total_spec() == entries_bytes(final(self).entries()),
            keys_distinct(final(self).entries()),
            key_position(old(self).entries(), key@) >= 0 ==> {
                let i = key_position(old(self).entries(), key@);
                &&& r == Some(old(self).entries()[i].1)
                &&& final(self).entries() == old(self).entries().remove(i).push(
                    old(self).entries()[i],
                )
            },
            key_position(old(self).entries(), key@) < 0 ==> r is None && final(self).entries()
                == old(self).entries(),
    {
        let ghost e = self.entries();
        proof {
            lemma_key_position(e, key@);
        }
        let r = lru_get(&mut self.lru, key);
        proof {
            let i = key_position(e, key@);
            if i >= 0 {
                lemma_bytes_remove(e, i);
                lemma_bytes_push(e.remove(i), e[i]);
                let e2 = e.remove(i).push(e[i]);
                assert forall|a: int, b: int|
                    0 <= a < e2.len() && 0 <= b < e2.len() && a != b implies e2[a].0
                    != e2[b].0 by {
                    let oa = if a == e2.len() - 1 { i } else if a < i { a } else { a + 1 };
                    let ob = if b == e2.len() - 1 { i } else if b < i { b } else { b + 1 };
                    assert(e2[a] == e[oa]);
                    assert(e2[b] == e[ob]);
                }
            }
        }
        r
    }

    /// Insert or replace the size of the cover cached under `key`, then drop
    /// least-recently-used entries while the running total exceeds the budget
    /// and more than one entry is left. Returns the dropped keys, least
    /// recently used first. The new entry is never dropped: a single cover
    /// larger than the whole budget stays cached.
    pub fn insert(&mut self, key: String, bytes: u64) -> (evicted: Vec<String>)
        requires
            old(self).wf(),
            old(self).total_spec() + bytes <= u64::MAX,
            old(self).entries().len() < usize::MAX,
        ensures
            final(self).wf(),
            final(self).budget_spec() == old(self).budget_spec(),
            final(self).total_spec() == entries_bytes(final(self).entries()),
            keys_distinct(final(self).entries()),
            ({
                let staged = staged_entries(old(self).entries(), key@, bytes);
                let n = evict_count(staged, old(self).budget_spec()) as int;
                &&& final(self).entries() == staged.skip(n)
                &&& evicted@.map_values(|s: String| s@) == staged.take(n).map_values(
                    |p: (Seq<char>, u64)| p.0,
                )
            }),
            final(self).entries().len() >= 1,
            final(self).entries().last() == (key@, bytes),
            final(self).total_spec() <= final(self).budget_spec() || final(self).entries().len()
                == 1,
    {
        let ghost e = self.entries();
        let ghost k = key@;
        proof {
            lemma_key_position(e, k);
        }
        let prev = lru_put(&mut self.lru, key, bytes);
        let ghost staged = staged_entries(e, k, bytes);
        proof {
            let i = key_position(e, k);
            if i >= 0 {
                lemma_bytes_remove(e, i);
                lemma_bytes_push(e.remove(i), (k, bytes));
                assert forall|a: int, b: int|
                    0 <= a < staged.len() && 0 <= b < staged.len() && a != b implies staged[a].0
                    != staged[b].0 by {
                    if a != staged.len() - 1 {
                        let oa = if a < i { a } else { a + 1 };
                        assert(staged[a] == e[oa]);
                    }
                    if b != staged.len() - 1 {
                        let ob = if b < i { b } else { b + 1 };
                        assert(staged[b] == e[ob]);
                    }
                }
            } else {
                lemma_bytes_push(e, (k, bytes));
                assert forall|a: int, b: int|
                    0 <= a < staged.len() && 0 <= b < staged.len() && a != b implies staged[a].0
                    != staged[b].0 by {
                    if a != staged.len() - 1 {
                        assert(staged[a] == e[a]);
                    }
                    if b != staged.len() - 1 {
                        assert(staged[b] == e[b]);
                    }
                }
            }
        }
        match prev {
            Some(p) => {
                self.total_bytes = self.total_bytes - p + bytes;
            },
            None => {
                self.total_bytes = self.total_bytes + bytes;
            },
        }
        let mut evicted: Vec<String> = Vec::new();
        let budget = self.budget;
        while self.total_bytes > budget && lru_len(&self.lru) > 1
            invariant
                budget == self.budget,
                self.budget == old(self).budget,
                lru_cap(self.lru) == usize::MAX,
                0 <= evicted.len() <= staged.len(),
                lru_entries(self.lru) == staged.skip(evicted.len() as int),
                lru_entries(self.lru).len() >= 1,
                keys_distinct(staged),
                self.total_bytes == entries_bytes(lru_entries(self.lru)),
                evicted.len() + evict_count(lru_entries(self.lru), budget) == evict_count(
                    staged,
                    budget,
                ),
                evicted@.map_values(|s: String| s@) == staged.take(evicted.len() as int).map_values(
                    |p: (Seq<char>, u64)| p.0,
                ),
            decreases lru_entries(self.lru).len(),
        {
            let ghost cur = lru_entries(self.lru);
            let ghost done = evicted@;
            let popped = lru_pop_lru(&mut self.lru);
            match popped {
                Some((gone, size)) => {
                    self.total_bytes = self.total_bytes - size;
                    evicted.push(gone);
                    proof {
                        let m = done.len() as int;
                        assert(cur.drop_first() =~= staged.skip(m + 1));
                        assert(staged.take(m + 1).map_values(|p: (Seq<char>, u64)| p.0)
                            =~= staged.take(m).map_values(|p: (Seq<char>, u64)| p.0).push(
                            staged[m].0,
                        ));
                        assert(evicted@.map_values(|s: String| s@) =~= done.map_values(
                            |s: String| s@,
                        ).push(staged[m].0));
                    }
                },
                None => {},
            }
        }
        proof {
            let st = staged.skip(evicted.len() as int);
            assert forall|a: int, b: int|
                0 <= a < st.len() && 0 <= b < st.len() && a != b implies st[a].0 != st[b].0 by {
                assert(st[a] == staged[a + evicted.len()]);
                assert(st[b] == staged[b + evicted.len()]);
            }
        }
        evicted
    }
}

/// The carousel-cover bookkeeping: the generation counter of cover loading,
/// the queue of page counts resolved by cover workers, and the in-memory
/// cover cache shared by the workers.
pub struct CoverController {
    epoch: usize,
    prefetch: PageCountPrefetch,
    mem: CoverMemCache,
}

impl CoverController {
    /// The current generation.
    pub closed spec fn epoch_spec(&self) -> usize {
        self.epoch
    }

    /// The resolved counts awaiting persistence, oldest first.
    pub closed spec fn pending_spec(&self) -> Seq<(Seq<char>, usize)> {
        self.prefetch.pending_spec()
    }

    /// The in-memory cover cache's entries, least recently used first.
    pub closed spec fn mem_entries(&self) -> Seq<(Seq<char>, u64)> {
        self.mem.entries()
    }

    /// The in-memory cover cache's running byte total.
    pub closed spec fn mem_total(&self) -> u64 {
        self.mem.total_spec()
    }

    /// The in-memory cover cache's byte budget.
    pub closed spec fn mem_budget(&self) -> u64 {
        self.mem.budget_spec()
    }

    /// The cover cache is well formed.
    pub closed spec fn wf(&self) -> bool {
        self.mem.wf()
    }

    /// In a well-formed controller the cover cache's running total is the sum
    /// of the cached sizes, and no key is cached twice.
    pub proof fn lemma_mem_total_is_sum(&self)
        requires
            self.wf(),
        ensures
            self.mem_total() == entries_bytes(self.mem_entries()),
            keys_distinct(self.mem_entries()),
    {
        self.mem.lemma_total_is_sum();
    }

    /// Generation 0, no pending count, an empty cover cache with the default
    /// budget.
    pub fn new() -> (c: Self)
        ensures
            c.wf(),
            c.epoch_spec() == 0,
            c.pending_spec() == Seq::<(Seq<char>, usize)>::empty(),
            c.mem_entries() == Seq::<(Seq<char>, u64)>::empty(),
            c.mem_total() == 0,
            c.mem_budget() == COVER_MEM_BUDGET_BYTES,
    {
        CoverController { epoch: 0, prefetch: PageCountPrefetch::new(), mem: CoverMemCache::new() }
    }

    /// The current generation.
    pub fn current_epoch(&self) -> (e: usize)
        ensures
            e == self.epoch_spec(),
    {
        self.epoch
    }

    /// Start a new cover-loading generation: hand out the counts resolved by
    /// the previous generations for persistence, then advance the generation
    /// (wrapping), which the new workers carry.
    pub fn start(&mut self) -> (r: (usize, Vec<(String, usize)>))
        requires
            old(self).wf(),
        ensures
            final(self).wf(),
            r.0 == final(self).epoch_spec(),
            r.0 == if old(self).epoch_spec() == usize::MAX {
                0
            } else {
                (old(self).epoch_spec() + 1) as usize
            },
            r.1@.map_values(|e: (String, usize)| (e.0@, e.1)) == old(self).pending_spec(),
            final(self).pending_spec() == Seq::<(Seq<char>, usize)>::empty(),
            final(self).mem_entries() == old(self).mem_entries(),
            final(self).mem_total() == old(self).mem_total(),
            final(self).mem_budget() == old(self).mem_budget(),
    {
        let counts = self.prefetch.drain();
        self.epoch = self.epoch.wrapping_add(1);
        (self.epoch, counts)
    }

    /// Hand out every pending count for persistence (at shutdown).
    pub fn flush_counts(&mut self) -> (counts: Vec<(String, usize)>)
        requires
            old(self).wf(),
        ensures
            final(self).wf(),
            counts@.map_values(|e: (String, usize)| (e.0@, e.1)) == old(self).pending_spec(),
            final(self).pending_spec() == Seq::<(Seq<char>, usize)>::empty(),
            final(self).epoch_spec() == old(self).epoch_spec(),
            final(self).mem_entries() == old(self).mem_entries(),
            final(self).mem_total() == old(self).mem_total(),
            final(self).mem_budget() == old(self).mem_budget(),
    {
        self.prefetch.drain()
    }

    /// Queue the count a worker of generation `my_epoch` resolved for
    /// `path`, when that generation is current and the count nonzero.
    pub fn push_count(&mut self, my_epoch: usize, path: String, count: usize) -> (queued: bool)
        requires
            old(self).wf(),
        ensures
            final(self).wf(),
            queued == (my_epoch == old(self).epoch_spec() && count > 0),
            queued ==> final(self).pending_spec() == old(self).pending_spec().push((path@, count)),
            !queued ==> final(self).pending_spec() == old(self).pending_spec(),
            final(self).epoch_spec() == old(self).epoch_spec(),
            final(self).mem_entries() == old(self).mem_entries(),
            final(self).mem_total() == old(self).mem_total(),
            final(self).mem_budget() == old(self).mem_budget(),
    {
        self.prefetch.push_count(self.epoch, my_epoch, path, count)
    }

    /// Look a cover up in the in-memory cache (see `CoverMemCache::get`).
    pub fn mem_get(&mut self, key: &str) -> (r: Option<u64>)
        requires
            old(self).wf(),
        ensures
            final(self).wf(),
            final(self).epoch_spec() == old(self).epoch_spec(),
            final(self).pending_spec() == old(self).pending_spec(),
            final(self).mem_budget() == old(self).mem_budget(),
            final(self).mem_total() == old(self).mem_total(),
            key_position(old(self).mem_entries(), key@) >= 0 ==> {
                let i = key_position(old(self).mem_entries(), key@);
                &&& r == Some(old(self).mem_entries()[i].1)
                &&& final(self).mem_entries() == old(self).mem_entries().remove(i).push(
                    old(self).mem_entries()[i],
                )
            },
            key_position(old(self).mem_entries(), key@) < 0 ==> r is None && final(self).mem_entries()
                == old(self).mem_entries(),
    {
        self.mem.get(key)
    }

    /// Keep a decoded cover's size in the in-memory cache (see
    /// `CoverMemCache::insert`); returns the evicted keys.
    pub fn mem_insert(&mut self, key: String, bytes: u64) -> (evicted: Vec<String>)
        requires
            old(self).wf(),
            old(self).mem_total() + bytes <= u64::MAX,
            old(self).mem_entries().len() < usize::MAX,
        ensures
            final(self).wf(),
            final(self).epoch_spec() == old(self).epoch_spec(),
            final(self).pending_spec() == old(self).pending_spec(),
            final(self).mem_budget() == old(self).mem_budget(),
            ({
                let staged = staged_entries(old(self).mem_entries(), key@, bytes);
                let n = evict_count(staged, old(self).mem_budget()) as int;
                &&& final(self).mem_entries() == staged.skip(n)
                &&& evicted@.map_values(|s: String| s@) == staged.take(n).map_values(
                    |p: (Seq<char>, u64)| p.0,
                )
            }),
            final(self).mem_entries().len() >= 1,
            final(self).mem_entries().last() == (key@, bytes),
            final(self).mem_total() <= final(self).mem_budget() || final(self).mem_entries().len() == 1,
    {
        self.mem.insert(key, bytes)
    }
}

} // verus!
