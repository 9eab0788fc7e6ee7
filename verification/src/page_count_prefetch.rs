//! Page counts resolved in the background, queued until the UI thread
//! persists them into the library.
use vstd::prelude::*;

verus! {

/// The queue of resolved `(path, page count)` pairs awaiting persistence.
pub struct PageCountPrefetch {
    pending: Vec<(String, usize)>,
}

impl PageCountPrefetch {
    /// The queued pairs, oldest first.
    pub closed spec fn pending_spec(&self) -> Seq<(Seq<char>, usize)> {
        self.pending@.map_values(|e: (String, usize)| (e.0@, e.1))
    }

    /// An empty queue.
    pub fn new() -> (q: Self)
        ensures
            q.pending_spec() == Seq::<(Seq<char>, usize)>::empty(),
    {
        PageCountPrefetch { pending: Vec::new() }
    }

    /// Queue the count resolved for `path` by a worker of generation
    /// `my_epoch`, when that generation is still `current` and the count is
    /// nonzero (a zero count persists nothing). Returns whether it was queued.
    pub fn push_count(&mut self, current: usize, my_epoch: usize, path: String, count: usize) -> (queued: bool)
        ensures
            queued == (current == my_epoch && count > 0),
            queued ==> final(self).pending_spec() == old(self).pending_spec().push((path@, count)),
            !queued ==> final(self).pending_spec() == old(self).pending_spec(),
    {
        if current != my_epoch || count == 0 {
            return false;
        }
        let ghost before = self.pending@;
        self.pending.push((path, count));
        proof {
            assert(self.pending@.map_values(|e: (String, usize)| (e.0@, e.1)) =~= before.map_values(
                |e: (String, usize)| (e.0@, e.1),
            ).push((path@, count)));
        }
        true
    }

    /// Hand out every queued pair, oldest first, leaving the queue empty.
    pub fn drain(&mut self) -> (drained: Vec<(String, usize)>)
        ensures
            drained@.map_values(|e: (String, usize)| (e.0@, e.1)) == old(self).pending_spec(),
            final(self).pending_spec() == Seq::<(Seq<char>, usize)>::empty(),
    {
        let mut drained: Vec<(String, usize)> = Vec::new();
        std::mem::swap(&mut drained, &mut self.pending);
        proof {
            assert(self.pending@.map_values(|e: (String, usize)| (e.0@, e.1)) =~= Seq::<(Seq<char>, usize)>::empty());
        }
        drained
    }
}

} // verus!
