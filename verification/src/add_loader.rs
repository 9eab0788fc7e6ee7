//! Bulk-add probe bookkeeping.
//!
//! Each picked source is probed on a worker and classified as a
//! [`ProbeOutcome`]. [`AddController`] owns the generation counter of the
//! current bulk add, its accumulator of outcomes and its operation tag: a new
//! `start` supersedes the previous generation, outcomes of a superseded
//! generation are dropped, and `take_outcomes` drains the current generation's
//! outcomes restored to input order.
use vstd::prelude::*;

verus! {

/// How one probed source classified.
pub enum ProbeKind {
    /// Opened cleanly with this many (nonzero) image pages.
    Counted(usize),
    /// Opened cleanly but holds no image page.
    Empty,
    /// Its format is disabled by the archive policy.
    FormatDisabled { format: String },
    /// It could not be opened at all.
    Unreadable { error: String },
}

/// One probed source: its position in the picked input, its path and its
/// classification.
pub struct ProbeOutcome {
    pub index: usize,
    pub path: String,
    pub kind: ProbeKind,
}

/// The outcomes of `s` whose input index is `i`, in order.
pub open spec fn with_index(s: Seq<ProbeOutcome>, i: int) -> Seq<ProbeOutcome> {
    s.filter(|o: ProbeOutcome| o.index == i)
}

/// `out` is `input` stably sorted by input index: nondecreasing in index, and
/// the outcomes sharing an index keep their relative order.
pub open spec fn index_ordered(input: Seq<ProbeOutcome>, out: Seq<ProbeOutcome>) -> bool {
    &&& forall|i: int, j: int| 0 <= i <= j < out.len() ==> out[i].index <= out[j].index
    &&& forall|k: int| #[trigger] with_index(out, k) == with_index(input, k)
}

/// Stably sort outcomes by their input index.
pub fn sort_by_index(outcomes: Vec<ProbeOutcome>) -> (out: Vec<ProbeOutcome>)
    ensures
        index_ordered(outcomes@, out@),
        out@.len() == outcomes@.len(),
{
    let ghost input = outcomes@;
    let mut rest = outcomes;
    let mut out: Vec<ProbeOutcome> = Vec::new();
    let mut taken: usize = 0;
    let n = rest.len();
    proof {
        assert(input.take(0) =~= out@);
        assert(input.skip(0) =~= input);
    }
    while taken < n
        invariant
            n == input.len(),
            taken <= n,
            rest@ == input.skip(taken as int),
            out@.len() == taken,
            index_ordered(input.take(taken as int), out@),
        decreases n - taken,
    {
        let x = rest.remove(0);
        let kx = x.index;
        let mut p: usize = 0;
        while p < out.len() && out[p].index <= kx
            invariant
                p <= out.len(),
                forall|j: int| 0 <= j < p ==> out@[j].index <= kx,
            decreases out.len() - p,
        {
            p = p + 1;
        }
        let ghost before = out@;
        let ghost prefix = input.take(taken as int);
        out.insert(p, x);
        proof {
            assert(x == input[taken as int]);
            assert(input.take(taken + 1) =~= prefix.push(x));
            let a = before.subrange(0, p as int);
            let b = before.subrange(p as int, before.len() as int);
            assert(before =~= a + b);
            assert(out@ =~= a + seq![x] + b);
            assert forall|j: int| 0 <= j < b.len() implies b[j].index > kx by {
                assert(b[j] == before[p + j]);
            }
            assert forall|k: int| #[trigger] with_index(out@, k) == with_index(
                input.take(taken + 1),
                k,
            ) by {
                let pred = |o: ProbeOutcome| o.index == k;
                Seq::filter_distributes_over_add(a + seq![x], b, pred);
                Seq::filter_distributes_over_add(a, seq![x], pred);
                Seq::filter_distributes_over_add(a, b, pred);
                prefix.lemma_filter_push(x, pred);
                reveal_with_fuel(Seq::filter, 2);
                assert(with_index(before, k) == with_index(prefix, k));
                if k == kx {
                    b.lemma_all_neg_filter_empty(pred);
                    assert(with_index(seq![x], k) =~= seq![x]);
                } else {
                    assert(with_index(seq![x], k) =~= Seq::<ProbeOutcome>::empty());
                }
                assert(with_index(prefix.push(x), k) =~= with_index(out@, k));
            }
        }
        taken = taken + 1;
    }
    proof {
        assert(input.take(n as int) =~= input);
    }
    out
}

/// The bulk-add bookkeeping: generation counter, the current generation's
/// outcomes and its operation tag.
pub struct AddController {
    epoch: usize,
    outcomes: Vec<ProbeOutcome>,
    op: String,
}

impl AddController {
    /// The current generation.
    pub closed spec fn epoch_spec(&self) -> usize {
        self.epoch
    }

    /// The outcomes recorded for the current generation, in arrival order.
    pub closed spec fn outcomes_spec(&self) -> Seq<ProbeOutcome> {
        self.outcomes@
    }

    /// The operation tag of the current generation.
    pub closed spec fn op_spec(&self) -> Seq<char> {
        self.op@
    }

    /// Generation 0, no outcome, operation tag "add".
    pub fn new() -> (c: Self)
        ensures
            c.epoch_spec() == 0,
            c.outcomes_spec() == Seq::<ProbeOutcome>::empty(),
            c.op_spec() == "add"@,
    {
        AddController { epoch: 0, outcomes: Vec::new(), op: String::from_str("add") }
    }

    /// The current generation.
    pub fn current_epoch(&self) -> (e: usize)
        ensures
            e == self.epoch_spec(),
    {
        self.epoch
    }

    /// Start a new bulk add tagged `op`: the generation advances (wrapping
    /// after `usize::MAX`), the outcome accumulator starts empty, and the new
    /// generation is returned.
    pub fn start(&mut self, op: String) -> (my_epoch: usize)
        ensures
            my_epoch == final(self).epoch_spec(),
            my_epoch == if old(self).epoch_spec() == usize::MAX {
                0
            } else {
                (old(self).epoch_spec() + 1) as usize
            },
            final(self).outcomes_spec() == Seq::<ProbeOutcome>::empty(),
            final(self).op_spec() == op@,
    {
        self.epoch = self.epoch.wrapping_add(1);
        self.outcomes = Vec::new();
        self.op = op;
        self.epoch
    }

    /// Record one probe outcome of generation `my_epoch`. An outcome of the
    /// current generation is appended and the number of outcomes recorded for
    /// it so far is returned; one of a superseded generation is dropped
    /// (`None`).
    pub fn record_outcome(&mut self, my_epoch: usize, outcome: ProbeOutcome) -> (done: Option<usize>)
        requires
            old(self).outcomes_spec().len() < usize::MAX,
        ensures
            final(self).epoch_spec() == old(self).epoch_spec(),
            final(self).op_spec() == old(self).op_spec(),
            my_epoch == old(self).epoch_spec() ==> {
                &&& final(self).outcomes_spec() == old(self).outcomes_spec().push(outcome)
                &&& done == Some(final(self).outcomes_spec().len() as usize)
            },
            my_epoch != old(self).epoch_spec() ==> {
                &&& final(self).outcomes_spec() == old(self).outcomes_spec()
                &&& done is None
            },
    {
        if my_epoch != self.epoch {
            return None;
        }
        self.outcomes.push(outcome);
        Some(self.outcomes.len())
    }

    /// Drain the outcomes of generation `my_epoch`, stably sorted by input
    /// index, with the operation tag, when `my_epoch` is still current; `None`
    /// (and no change) for a superseded generation. A drained generation has
    /// no outcome left.
    pub fn take_outcomes(&mut self, my_epoch: usize) -> (r: Option<(Vec<ProbeOutcome>, String)>)
        ensures
            final(self).epoch_spec() == old(self).epoch_spec(),
            final(self).op_spec() == old(self).op_spec(),
            my_epoch != old(self).epoch_spec() ==> r is None && final(self).outcomes_spec()
                == old(self).outcomes_spec(),
            my_epoch == old(self).epoch_spec() ==> {
                &&& r is Some
                &&& index_ordered(old(self).outcomes_spec(), r.unwrap().0@)
                &&& r.unwrap().0@.len() == old(self).outcomes_spec().len()
                &&& r.unwrap().1@ == old(self).op_spec()
                &&& final(self).outcomes_spec() == Seq::<ProbeOutcome>::empty()
            },
    {
        if my_epoch != self.epoch {
            return None;
        }
        let mut taken: Vec<ProbeOutcome> = Vec::new();
        std::mem::swap(&mut taken, &mut self.outcomes);
        let sorted = sort_by_index(taken);
        Some((sorted, self.op.clone()))
    }
}

} // verus!
