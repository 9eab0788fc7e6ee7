//! Single-book open bookkeeping: the generation counter of the current open
//! and the slot its probe outcome is parked in until the UI applies it. A new
//! `start` supersedes the previous open; an outcome of a superseded open is
//! dropped, and the current one is handed out exactly once.
use vstd::prelude::*;

verus! {

/// The open bookkeeping, generic over the probe outcome it parks.
pub struct OpenController<T> {
    epoch: usize,
    pending: Option<(String, T)>,
}

impl<T> OpenController<T> {
    /// The current generation.
    pub closed spec fn epoch_spec(&self) -> usize {
        self.epoch
    }

    /// The parked outcome of the current generation, if any.
    pub closed spec fn pending_spec(&self) -> Option<(String, T)> {
        self.pending
    }

    /// Generation 0 with nothing parked.
    pub fn new() -> (c: Self)
        ensures
            c.epoch_spec() == 0,
            c.pending_spec() is None,
    {
        OpenController { epoch: 0, pending: None }
    }

    /// Start a new open: the generation advances (wrapping after
    /// `usize::MAX`), the slot is emptied, and the new generation is returned.
    pub fn start(&mut self) -> (my_epoch: usize)
        ensures
            my_epoch == final(self).epoch_spec(),
            my_epoch == if old(self).epoch_spec() == usize::MAX {
                0
            } else {
                (old(self).epoch_spec() + 1) as usize
            },
            final(self).pending_spec() is None,
    {
        self.epoch = self.epoch.wrapping_add(1);
        self.pending = None;
        self.epoch
    }

    /// Park the probe outcome of generation `my_epoch` for `path`; an outcome
    /// of a superseded generation is dropped. Returns whether it was parked.
    pub fn store(&mut self, my_epoch: usize, path: String, outcome: T) -> (parked: bool)
        ensures
            final(self).epoch_spec() == old(self).epoch_spec(),
            parked == (my_epoch == old(self).epoch_spec()),
            parked ==> final(self).pending_spec() == Some((path, outcome)),
            !parked ==> final(self).pending_spec() == old(self).pending_spec(),
    {
        if my_epoch != self.epoch {
            return false;
        }
        self.pending = Some((path, outcome));
        true
    }

    /// Hand out the parked outcome of generation `my_epoch`, emptying the
    /// slot; `None` (and no change) when `my_epoch` was superseded.
    pub fn take_outcome(&mut self, my_epoch: usize) -> (r: Option<(String, T)>)
        ensures
            final(self).epoch_spec() == old(self).epoch_spec(),
            my_epoch != old(self).epoch_spec() ==> r is None && final(self).pending_spec()
                == old(self).pending_spec(),
            my_epoch == old(self).epoch_spec() ==> r == old(self).pending_spec()
                && final(self).pending_spec() is None,
    {
        if my_epoch != self.epoch {
            return None;
        }
        self.pending.take()
    }
}

} // verus!
