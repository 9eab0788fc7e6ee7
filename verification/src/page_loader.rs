//! Viewer page-decode dispatch bookkeeping.
//!
//! `PageController` owns the generation counter ("epoch") that tags every
//! asynchronous page decode, the set of pages whose decode is currently in
//! flight (so a page is never dispatched twice while a result is pending), and
//! the spread currently targeted by the viewer. A real target change, a source
//! reset and a cleared target each start a new generation, so late results of
//! an earlier generation can be recognised and dropped.
use std::collections::HashSet;
use vstd::prelude::*;

verus! {

broadcast use vstd::std_specs::hash::group_hash_axioms;

/// The spread the viewer currently targets: its leading page, its optional
/// trailing page and whether it is laid out as a single page.
#[derive(Clone, Copy, PartialEq, Eq, Debug, Structural)]
pub struct SpreadTarget {
    pub leading_idx: usize,
    pub trailing_idx: Option<usize>,
    pub single: bool,
}

/// Result of a dispatch attempt.
#[derive(Clone, Copy, PartialEq, Eq, Debug, Default, Structural)]
pub struct DispatchStatus {
    pub leading_reserved: bool,
    pub trailing_reserved: bool,
    pub blocked_by_in_flight: bool,
}

impl DispatchStatus {
    /// Whether this attempt reserved at least one page.
    pub fn any_reserved(self) -> (b: bool)
        ensures
            b == (self.leading_reserved || self.trailing_reserved),
    {
        self.leading_reserved || self.trailing_reserved
    }
}

/// The page index of an optional trailing slot (0 when there is none).
pub open spec fn trailing_page(trailing: Option<(usize, bool)>) -> usize {
    match trailing {
        Some((t, _)) => t,
        None => 0,
    }
}

/// The generation that follows `e`: one more, wrapping to 0 after `usize::MAX`.
pub open spec fn next_epoch(e: usize) -> usize {
    if e == usize::MAX { 0 } else { (e + 1) as usize }
}

/// A new generation always differs from the one it replaces, so a result
/// tagged with the replaced generation is recognised as stale.
pub proof fn lemma_next_epoch_differs(e: usize)
    ensures
        next_epoch(e) != e,
{
}

/// Owns the viewer's page-decode generation counter, its in-flight
/// reservations and the currently targeted spread.
pub struct PageController {
    epoch: usize,
    dispatched: HashSet<usize>,
    target: Option<SpreadTarget>,
}

impl PageController {
    /// The current generation number.
    pub closed spec fn epoch_spec(&self) -> usize {
        self.epoch
    }

    /// The pages currently reserved for decode.
    pub closed spec fn in_flight(&self) -> Set<usize> {
        self.dispatched@
    }

    /// The currently targeted spread, if any.
    pub closed spec fn target_spec(&self) -> Option<SpreadTarget> {
        self.target
    }

    /// Build the controller: generation 0, nothing in flight, no target.
    pub fn new() -> (c: Self)
        ensures
            c.epoch_spec() == 0,
            c.in_flight() == Set::<usize>::empty(),
            c.target_spec() is None,
    {
        PageController { epoch: 0, dispatched: HashSet::new(), target: None }
    }

    /// The current generation number.
    pub fn current_epoch(&self) -> (e: usize)
        ensures
            e == self.epoch_spec(),
    {
        self.epoch
    }

    /// Start a fresh generation and clear all reservations; returns the new
    /// generation number.
    pub fn begin_generation(&mut self) -> (e: usize)
        ensures
            e == next_epoch(old(self).epoch_spec()),
            final(self).epoch_spec() == e,
            final(self).in_flight() == Set::<usize>::empty(),
            final(self).target_spec() == old(self).target_spec(),
    {
        self.dispatched.clear();
        self.epoch = if self.epoch == usize::MAX { 0 } else { self.epoch + 1 };
        self.epoch
    }

    /// Reset for a different opened source: forget the target and start a new
    /// generation with nothing in flight.
    pub fn reset_for_source(&mut self) -> (e: usize)
        ensures
            e == next_epoch(old(self).epoch_spec()),
            final(self).epoch_spec() == e,
            final(self).in_flight() == Set::<usize>::empty(),
            final(self).target_spec() is None,
    {
        self.target = None;
        self.begin_generation()
    }

    /// Target a spread. An unchanged target changes nothing and returns the
    /// current generation; a different one is recorded and starts a new
    /// generation (clearing all reservations).
    pub fn set_target(&mut self, leading_idx: usize, trailing_idx: Option<usize>, single: bool) -> (e: usize)
        ensures
            ({
                let next = SpreadTarget { leading_idx, trailing_idx, single };
                if old(self).target_spec() == Some(next) {
                    &&& e == old(self).epoch_spec()
                    &&& final(self).epoch_spec() == old(self).epoch_spec()
                    &&& final(self).in_flight() == old(self).in_flight()
                    &&& final(self).target_spec() == old(self).target_spec()
                } else {
                    &&& e == next_epoch(old(self).epoch_spec())
                    &&& final(self).epoch_spec() == e
                    &&& final(self).in_flight() == Set::<usize>::empty()
                    &&& final(self).target_spec() == Some(next)
                }
            }),
    {
        let next = SpreadTarget { leading_idx, trailing_idx, single };
        if self.target == Some(next) {
            return self.epoch;
        }
        self.target = Some(next);
        self.begin_generation()
    }

    /// Forget the target. When a spread was targeted this starts a new
    /// generation; otherwise only the reservations are cleared.
    pub fn clear_target(&mut self) -> (e: usize)
        ensures
            final(self).target_spec() is None,
            final(self).in_flight() == Set::<usize>::empty(),
            old(self).target_spec() is Some ==> e == next_epoch(old(self).epoch_spec()),
            old(self).target_spec() is None ==> e == old(self).epoch_spec(),
            final(self).epoch_spec() == e,
    {
        let had_target = self.target.is_some();
        self.target = None;
        if had_target {
            self.begin_generation()
        } else {
            self.dispatched.clear();
            self.epoch
        }
    }

    /// Reserve `index` for decode. `true` only for the first reservation while
    /// the page is in flight.
    pub fn reserve_dispatch(&mut self, index: usize) -> (fresh: bool)
        ensures
            fresh == !old(self).in_flight().contains(index),
            final(self).in_flight() == old(self).in_flight().insert(index),
            final(self).epoch_spec() == old(self).epoch_spec(),
            final(self).target_spec() == old(self).target_spec(),
    {
        self.dispatched.insert(index)
    }

    /// Clear one completed or failed page reservation.
    pub fn clear_dispatched(&mut self, index: usize)
        ensures
            final(self).in_flight() == old(self).in_flight().remove(index),
            final(self).epoch_spec() == old(self).epoch_spec(),
            final(self).target_spec() == old(self).target_spec(),
    {
        self.dispatched.remove(&index);
    }

    /// Clear the reservations of the displayed spread.
    pub fn clear_dispatched_spread(&mut self, leading_idx: usize, trailing_idx: Option<usize>)
        ensures
            final(self).in_flight() == (match trailing_idx {
                Some(t) => old(self).in_flight().remove(leading_idx).remove(t),
                None => old(self).in_flight().remove(leading_idx),
            }),
            final(self).epoch_spec() == old(self).epoch_spec(),
            final(self).target_spec() == old(self).target_spec(),
    {
        self.dispatched.remove(&leading_idx);
        if let Some(t) = trailing_idx {
            self.dispatched.remove(&t);
        }
    }

    /// Whether `index` is currently reserved.
    pub fn is_dispatched(&self, index: usize) -> (b: bool)
        ensures
            b == self.in_flight().contains(index),
    {
        self.dispatched.contains(&index)
    }

    /// Reserve each missing spread slot independently. `blocked_by_in_flight`
    /// is set only when some slot was missing but every missing slot was
    /// already reserved by an earlier dispatch.
    pub fn reserve_missing_slots(
        &mut self,
        leading_idx: usize,
        leading_missing: bool,
        trailing: Option<(usize, bool)>,
    ) -> (status: DispatchStatus)
        ensures
            ({
                let mid = if leading_missing { old(self).in_flight().insert(leading_idx) } else { old(self).in_flight() };
                let trailing_missing = trailing matches Some((_, true));
                let t = trailing_page(trailing);
                &&& status.leading_reserved == (leading_missing && !old(self).in_flight().contains(leading_idx))
                &&& status.trailing_reserved == (trailing_missing && !mid.contains(t))
                &&& final(self).in_flight() == (if trailing_missing { mid.insert(t) } else { mid })
                &&& status.blocked_by_in_flight == ((leading_missing || trailing_missing)
                    && !status.leading_reserved && !status.trailing_reserved)
            }),
            final(self).epoch_spec() == old(self).epoch_spec(),
            final(self).target_spec() == old(self).target_spec(),
    {
        let mut status = DispatchStatus { leading_reserved: false, trailing_reserved: false, blocked_by_in_flight: false };
        let mut requested_missing = false;
        if leading_missing {
            requested_missing = true;
            status.leading_reserved = self.reserve_dispatch(leading_idx);
        }
        if let Some((trailing_idx, true)) = trailing {
            requested_missing = true;
            status.trailing_reserved = self.reserve_dispatch(trailing_idx);
        }
        status.blocked_by_in_flight = requested_missing && !status.any_reserved();
        status
    }
}

impl PageController {
    /// Reserve the cache-missing slots of `request`. When some slot was
    /// reserved, the caller dispatches one decode job for the current
    /// generation; otherwise the request is either fully cached or blocked by
    /// an earlier in-flight decode.
    pub fn dispatch_spread<I>(&mut self, request: &SpreadDecodeRequest<I>) -> (status: DispatchStatus)
        ensures
            ({
                let leading_missing = request.leading.decoded is None;
                let trailing = match request.trailing {
                    Some(t) => Some((t.index, t.decoded is None)),
                    None => None::<(usize, bool)>,
                };
                let mid = if leading_missing { old(self).in_flight().insert(request.leading.index) } else { old(self).in_flight() };
                let trailing_missing = trailing matches Some((_, true));
                let t = trailing_page(trailing);
                &&& status.leading_reserved == (leading_missing && !old(self).in_flight().contains(request.leading.index))
                &&& status.trailing_reserved == (trailing_missing && !mid.contains(t))
                &&& final(self).in_flight() == (if trailing_missing { mid.insert(t) } else { mid })
                &&& status.blocked_by_in_flight == ((leading_missing || trailing_missing)
                    && !status.leading_reserved && !status.trailing_reserved)
            }),
            final(self).epoch_spec() == old(self).epoch_spec(),
            final(self).target_spec() == old(self).target_spec(),
    {
        let leading_missing = request.leading.is_missing();
        let trailing = match &request.trailing {
            Some(t) => Some((t.index, t.is_missing())),
            None => None,
        };
        self.reserve_missing_slots(request.leading.index, leading_missing, trailing)
    }
}

/// What the viewer shows after a refresh.
#[derive(Clone, Copy, PartialEq, Eq, Debug, Structural)]
pub enum RefreshAction {
    /// Every page of the spread is cached: show it now.
    ShowCached,
    /// Some page must be decoded first: show loading slots and dispatch.
    ShowLoading { leading_missing: bool, trailing_missing: bool },
    /// No spread (nothing opened, or an empty source): clear the page view.
    ShowEmpty,
}

/// The target a spread request stands for.
pub open spec fn request_target<I>(q: SpreadDecodeRequest<I>) -> SpreadTarget {
    SpreadTarget {
        leading_idx: q.leading.index,
        trailing_idx: match q.trailing {
            Some(t) => Some(t.index),
            None => None::<usize>,
        },
        single: q.single,
    }
}

/// The reservations after targeting `next`: kept when it was already the
/// target, cleared otherwise.
pub open spec fn in_flight_after_target(old_target: Option<SpreadTarget>, old_in_flight: Set<usize>, next: SpreadTarget) -> Set<usize> {
    if old_target == Some(next) {
        old_in_flight
    } else {
        Set::empty()
    }
}

impl PageController {
    /// Refresh the viewer's spread: target it (see `set_target`), and either
    /// show it from the cache, releasing its pages' reservations, or show
    /// loading slots for the missing pages; with no spread, forget the target.
    pub fn refresh_spread<I>(&mut self, spread: Option<&SpreadDecodeRequest<I>>) -> (r: RefreshAction)
        ensures
            spread is None ==> {
                &&& r == RefreshAction::ShowEmpty
                &&& final(self).target_spec() is None
                &&& final(self).in_flight() == Set::<usize>::empty()
                &&& final(self).epoch_spec() == if old(self).target_spec() is Some {
                    next_epoch(old(self).epoch_spec())
                } else {
                    old(self).epoch_spec()
                }
            },
            spread matches Some(q) ==> {
                let next = request_target(*q);
                let mid = in_flight_after_target(old(self).target_spec(), old(self).in_flight(), next);
                let leading_missing = q.leading.decoded is None;
                let trailing_missing = q.trailing matches Some(t) && t.decoded is None;
                &&& final(self).target_spec() == Some(next)
                &&& final(self).epoch_spec() == if old(self).target_spec() == Some(next) {
                    old(self).epoch_spec()
                } else {
                    next_epoch(old(self).epoch_spec())
                }
                &&& (!leading_missing && !trailing_missing) ==> {
                    &&& r == RefreshAction::ShowCached
                    &&& final(self).in_flight() == match next.trailing_idx {
                        Some(t) => mid.remove(next.leading_idx).remove(t),
                        None => mid.remove(next.leading_idx),
                    }
                }
                &&& (leading_missing || trailing_missing) ==> {
                    &&& r == (RefreshAction::ShowLoading { leading_missing, trailing_missing })
                    &&& final(self).in_flight() == mid
                }
            },
    {
        match spread {
            None => {
                self.clear_target();
                RefreshAction::ShowEmpty
            },
            Some(q) => {
                let trailing_idx = match &q.trailing {
                    Some(t) => Some(t.index),
                    None => None,
                };
                self.set_target(q.leading.index, trailing_idx, q.single);
                let leading_missing = q.leading.is_missing();
                let trailing_missing = match &q.trailing {
                    Some(t) => t.is_missing(),
                    None => false,
                };
                if !leading_missing && !trailing_missing {
                    self.clear_dispatched_spread(q.leading.index, trailing_idx);
                    RefreshAction::ShowCached
                } else {
                    RefreshAction::ShowLoading { leading_missing, trailing_missing }
                }
            },
        }
    }
}

/// One page slot of a spread: its index, and the decoded image when the page
/// cache already held it (`None`: a miss that must be decoded).
pub struct PageSlot<I> {
    pub index: usize,
    pub decoded: Option<I>,
}

impl<I> PageSlot<I> {
    /// A cache hit.
    pub fn hit(index: usize, decoded: I) -> (s: Self)
        ensures
            s.index == index,
            s.decoded == Some(decoded),
    {
        PageSlot { index, decoded: Some(decoded) }
    }

    /// A cache miss.
    pub fn miss(index: usize) -> (s: Self)
        ensures
            s.index == index,
            s.decoded is None,
    {
        PageSlot { index, decoded: None }
    }

    /// Whether the page must still be decoded.
    pub fn is_missing(&self) -> (b: bool)
        ensures
            b == (self.decoded is None),
    {
        self.decoded.is_none()
    }
}

/// A targeted spread whose missing slots are to be decoded.
pub struct SpreadDecodeRequest<I> {
    pub leading: PageSlot<I>,
    pub trailing: Option<PageSlot<I>>,
    pub single: bool,
}

impl<I> SpreadDecodeRequest<I> {
    /// A single-page spread.
    pub fn single(leading: PageSlot<I>) -> (r: Self)
        ensures
            r.leading == leading,
            r.trailing is None,
            r.single,
    {
        SpreadDecodeRequest { leading, trailing: None, single: true }
    }

    /// A two-page spread.
    pub fn double(leading: PageSlot<I>, trailing: PageSlot<I>) -> (r: Self)
        ensures
            r.leading == leading,
            r.trailing == Some(trailing),
            !r.single,
    {
        SpreadDecodeRequest { leading, trailing: Some(trailing), single: false }
    }
}

/// What a finished spread decode shows.
#[derive(Clone, Copy, PartialEq, Eq, Debug, Structural)]
pub enum SpreadOutcome {
    /// The leading page failed: report it failed, and the trailing page too
    /// when that one failed as well.
    LeadingFailed { leading_idx: usize, failed_trailing: Option<usize> },
    /// Show the spread: single when one page was asked for or the trailing
    /// page is missing; `failed_trailing_page` marks a trailing page that
    /// failed to decode.
    Show {
        leading_idx: usize,
        trailing_idx: Option<usize>,
        show_trailing: bool,
        single: bool,
        failed_trailing_page: Option<usize>,
    },
}

/// Decide what a finished spread decode shows from whether the leading page
/// decoded and, for a two-page request, the trailing page's index and whether
/// it decoded.
pub fn spread_outcome(
    leading_idx: usize,
    leading_ok: bool,
    trailing: Option<(usize, bool)>,
    requested_single: bool,
) -> (o: SpreadOutcome)
    ensures
        !leading_ok ==> o == (SpreadOutcome::LeadingFailed {
            leading_idx,
            failed_trailing: match trailing {
                Some((t, false)) => Some(t),
                _ => None::<usize>,
            },
        }),
        leading_ok ==> o == (SpreadOutcome::Show {
            leading_idx,
            trailing_idx: match trailing {
                Some((t, _)) => Some(t),
                None => None::<usize>,
            },
            show_trailing: trailing matches Some((_, true)),
            single: requested_single || !(trailing matches Some((_, true))),
            failed_trailing_page: match trailing {
                Some((t, false)) => Some(t),
                _ => None::<usize>,
            },
        }),
{
    if !leading_ok {
        let failed_trailing = match trailing {
            Some((t, false)) => Some(t),
            _ => None,
        };
        return SpreadOutcome::LeadingFailed { leading_idx, failed_trailing };
    }
    let (trailing_idx, show_trailing, failed_trailing_page) = match trailing {
        Some((t, true)) => (Some(t), true, None),
        Some((t, false)) => (Some(t), false, Some(t)),
        None => (None, false, None),
    };
    SpreadOutcome::Show {
        leading_idx,
        trailing_idx,
        show_trailing,
        single: requested_single || !show_trailing,
        failed_trailing_page,
    }
}

impl Default for PageController {
    fn default() -> (c: Self)
        ensures
            c.epoch_spec() == 0,
            c.in_flight() == Set::<usize>::empty(),
            c.target_spec() is None,
    {
        Self::new()
    }
}

/// A page index as the window's `i32`, saturating at `i32::MAX`.
pub fn page_i32(index: usize) -> (r: i32)
    ensures
        r == (if index <= i32::MAX { index as i32 } else { i32::MAX }),
{
    if index <= i32::MAX as usize { index as i32 } else { i32::MAX }
}

/// An optional page index as the window's `i32`: `-1` for none, saturating
/// at `i32::MAX`.
pub open spec fn window_optional_page(index: Option<usize>) -> i32 {
    match index {
        Some(i) => if i <= i32::MAX { i as i32 } else { i32::MAX },
        None => -1i32,
    }
}

/// An optional page index read from the window's `i32`: negative is none.
pub open spec fn page_from_window(i: i32) -> Option<usize> {
    if i < 0 {
        None
    } else {
        Some(i as usize)
    }
}

/// An optional page index as the window's `i32`: `-1` for none.
pub fn optional_page_i32(index: Option<usize>) -> (r: i32)
    ensures
        r == window_optional_page(index),
{
    match index {
        Some(i) => page_i32(i),
        None => -1,
    }
}

/// A page index received from the window (negative values read as 0).
pub fn page_from_i32(i: i32) -> (p: usize)
    ensures
        p == if i < 0 {
            0
        } else {
            i as usize
        },
{
    if i < 0 {
        0
    } else {
        i as usize
    }
}

/// An optional page index received from the window: a negative value is none.
pub fn optional_page_from_i32(i: i32) -> (p: Option<usize>)
    ensures
        p == page_from_window(i),
{
    if i < 0 {
        None
    } else {
        Some(i as usize)
    }
}

/// Handing an optional page to the window and reading it back gives the same
/// page, for every page the window's `i32` can hold.
pub proof fn lemma_optional_page_round_trip(p: Option<usize>)
    requires
        p matches Some(i) ==> i <= i32::MAX,
    ensures
        page_from_window(window_optional_page(p)) == p,
{
}

} // verus!
