//! The parameter search controller: a bounded binary search over an integer
//! knob (DPI, quality, scale percent) that keeps the best probe it has seen.

use vstd::arithmetic::power2::{lemma2_to64, lemma_pow2_unfold, pow2};
use vstd::prelude::*;

verus! {

/// What one codec invocation at one knob value produced.
#[derive(Clone, Copy, Debug, PartialEq, Eq, Structural)]
pub struct ProbeResult {
    pub knob: u64,
    pub size_kb: u64,
    pub success: bool,
}

impl ProbeResult {
    /// The probe ran cleanly and its output is no larger than the target.
    pub open spec fn meets(self, target_kb: u64) -> bool {
        self.success && self.size_kb <= target_kb
    }

    pub fn fits(&self, target_kb: u64) -> (r: bool)
        ensures
            r == self.meets(target_kb),
    {
        self.success && self.size_kb <= target_kb
    }
}

/// The best knob found so far, with the size it produced.
#[derive(Clone, Copy, Debug, PartialEq, Eq, Structural)]
pub struct BestCandidate {
    pub knob: u64,
    pub size_kb: u64,
}

/// The knob values still in play, `lo..=hi`, and the probes still allowed.
///
/// A range with `lo > hi` holds no knob. Narrowing past either end of `u64`
/// gives the range `1..=0`.
#[derive(Clone, Copy, Debug, PartialEq, Eq, Structural)]
pub struct SearchRange {
    pub lo: u64,
    pub hi: u64,
    pub probes_left: u64,
}

impl SearchRange {
    /// How many knob values are still in play.
    pub open spec fn width(self) -> nat {
        if self.lo > self.hi {
            0
        } else {
            (self.hi - self.lo + 1) as nat
        }
    }

    pub open spec fn contains(self, knob: int) -> bool {
        self.lo <= knob <= self.hi
    }

    /// No further probe: the range is empty or the budget is spent.
    pub open spec fn is_closed(self) -> bool {
        self.lo > self.hi || self.probes_left == 0
    }

    pub open spec fn midpoint(self) -> u64 {
        ((self.lo + self.hi) / 2) as u64
    }

    /// The knob to probe next, if any.
    pub open spec fn pending(self) -> Option<u64> {
        if self.is_closed() {
            None
        } else {
            Some(self.midpoint())
        }
    }

    /// The range once the midpoint has been probed and found acceptable:
    /// only knobs above it stay in play.
    pub open spec fn raised(self) -> SearchRange {
        let mid = self.midpoint();
        if mid == u64::MAX {
            SearchRange { lo: 1, hi: 0, probes_left: (self.probes_left - 1) as u64 }
        } else {
            SearchRange { lo: (mid + 1) as u64, hi: self.hi, probes_left: (self.probes_left - 1) as u64 }
        }
    }

    /// The range once the midpoint has been probed and found too large, or
    /// the codec failed there: only knobs below it stay in play.
    pub open spec fn lowered(self) -> SearchRange {
        let mid = self.midpoint();
        if mid == 0 {
            SearchRange { lo: 1, hi: 0, probes_left: (self.probes_left - 1) as u64 }
        } else {
            SearchRange { lo: self.lo, hi: (mid - 1) as u64, probes_left: (self.probes_left - 1) as u64 }
        }
    }

    pub fn new(lo: u64, hi: u64, max_probes: u64) -> (r: SearchRange)
        ensures
            r == (SearchRange { lo, hi, probes_left: max_probes }),
    {
        SearchRange { lo, hi, probes_left: max_probes }
    }

    pub fn next_knob(&self) -> (k: Option<u64>)
        ensures
            k == self.pending(),
            k matches Some(mid) ==> self.contains(mid as int),
    {
        if self.lo > self.hi || self.probes_left == 0 {
            None
        } else {
            Some(self.lo + (self.hi - self.lo) / 2)
        }
    }

    /// Drops the midpoint and everything below it. Does nothing to a closed
    /// range.
    pub fn raise(&mut self)
        ensures
            *final(self) == if old(self).is_closed() { *old(self) } else { old(self).raised() },
    {
        match self.next_knob() {
            None => {},
            Some(mid) => {
                self.probes_left = self.probes_left - 1;
                if mid == u64::MAX {
                    self.lo = 1;
                    self.hi = 0;
                } else {
                    self.lo = mid + 1;
                }
            },
        }
    }

    /// Drops the midpoint and everything above it. Does nothing to a closed
    /// range.
    pub fn lower(&mut self)
        ensures
            *final(self) == if old(self).is_closed() { *old(self) } else { old(self).lowered() },
    {
        match self.next_knob() {
            None => {},
            Some(mid) => {
                self.probes_left = self.probes_left - 1;
                if mid == 0 {
                    self.lo = 1;
                    self.hi = 0;
                } else {
                    self.hi = mid - 1;
                }
            },
        }
    }
}


/// The controller's whole state: the range, the target and the best probe
/// seen so far.
#[derive(Clone, Copy, Debug, PartialEq, Eq, Structural)]
pub struct Search {
    pub range: SearchRange,
    pub target_kb: u64,
    pub best: Option<BestCandidate>,
}

impl Search {
    /// A fresh search over `lo..=hi` with nothing found yet.
    pub open spec fn begun(lo: u64, hi: u64, max_probes: u64, target_kb: u64) -> Search {
        Search { range: SearchRange { lo, hi, probes_left: max_probes }, target_kb, best: None }
    }

    pub open spec fn pending(self) -> Option<u64> {
        self.range.pending()
    }

    /// A probe replaces the best when it meets the target and its knob is
    /// strictly higher than the best so far.
    pub open spec fn improves(self, probe: ProbeResult) -> bool {
        probe.meets(self.target_kb) && match self.best {
            None => true,
            Some(b) => probe.knob > b.knob,
        }
    }

    /// The state after the pending knob was probed with the given outcome.
    /// A codec failure counts as too large. A closed search ignores the
    /// outcome.
    pub open spec fn recorded(self, size_kb: u64, success: bool) -> Search {
        match self.pending() {
            None => self,
            Some(mid) => {
                let probe = ProbeResult { knob: mid, size_kb, success };
                if probe.meets(self.target_kb) {
                    Search {
                        range: self.range.raised(),
                        target_kb: self.target_kb,
                        best: if self.improves(probe) {
                            Some(BestCandidate { knob: mid, size_kb })
                        } else {
                            self.best
                        },
                    }
                } else {
                    Search { range: self.range.lowered(), target_kb: self.target_kb, best: self.best }
                }
            },
        }
    }

    /// The state the search ends in when every probe at knob `k` answers
    /// `probe(k)`, a pair of output size and success.
    pub open spec fn run(self, probe: spec_fn(u64) -> (u64, bool)) -> Search
        decreases self.range.probes_left,
    {
        match self.pending() {
            None => self,
            Some(mid) => self.recorded(probe(mid).0, probe(mid).1).run(probe),
        }
    }

    /// The probes that `run` makes, in order.
    pub open spec fn history(self, probe: spec_fn(u64) -> (u64, bool)) -> Seq<ProbeResult>
        decreases self.range.probes_left,
    {
        match self.pending() {
            None => Seq::empty(),
            Some(mid) => seq![ProbeResult { knob: mid, size_kb: probe(mid).0, success: probe(mid).1 }]
                + self.recorded(probe(mid).0, probe(mid).1).history(probe),
        }
    }

    pub fn new(lo: u64, hi: u64, max_probes: u64, target_kb: u64) -> (s: Search)
        ensures
            s == Search::begun(lo, hi, max_probes, target_kb),
    {
        Search { range: SearchRange::new(lo, hi, max_probes), target_kb, best: None }
    }

    pub fn next_knob(&self) -> (k: Option<u64>)
        ensures
            k == self.pending(),
            k matches Some(mid) ==> self.range.contains(mid as int),
    {
        self.range.next_knob()
    }

    pub fn is_done(&self) -> (r: bool)
        ensures
            r == self.pending().is_none(),
    {
        self.range.next_knob().is_none()
    }

    /// Takes in the outcome of the probe at the pending knob and narrows the
    /// range. Returns the probe as recorded, or `None` where the search was
    /// already closed.
    pub fn record(&mut self, size_kb: u64, success: bool) -> (probe: Option<ProbeResult>)
        ensures
            *final(self) == old(self).recorded(size_kb, success),
            probe == match old(self).pending() {
                None => None,
                Some(mid) => Some(ProbeResult { knob: mid, size_kb, success }),
            },
    {
        match self.range.next_knob() {
            None => None,
            Some(mid) => {
                let probe = ProbeResult { knob: mid, size_kb, success };
                if probe.fits(self.target_kb) {
                    let better = match self.best {
                        None => true,
                        Some(b) => mid > b.knob,
                    };
                    if better {
                        self.best = Some(BestCandidate { knob: mid, size_kb });
                    }
                    self.range.raise();
                } else {
                    self.range.lower();
                }
                Some(probe)
            },
        }
    }
}

/// The closure answers each knob in `lo..=hi` exactly as `model` says.
pub open spec fn answers_as<F: Fn(u64) -> (u64, bool)>(
    probe_fn: F,
    model: spec_fn(u64) -> (u64, bool),
    lo: u64,
    hi: u64,
) -> bool {
    forall|knob: u64, r: (u64, bool)|
        lo <= knob <= hi && #[trigger] call_ensures(probe_fn, (knob,), r) ==> r == model(knob)
}

/// Searches `lo..=hi` for the highest knob whose output fits `target_kb`,
/// with at most `max_probes` calls of `probe_fn`. `probe_fn(knob)` invokes the
/// codec and returns the output size in KB and whether the codec succeeded.
///
/// The result is a probe that was made and met the target, or `None` where no
/// probe did; so it is `None` where the closure can meet the target at no
/// knob of the range. Where the closure is a function of its argument, the
/// result is that of [`Search::run`].
pub fn search<F: Fn(u64) -> (u64, bool)>(
    lo: u64,
    hi: u64,
    max_probes: u64,
    target_kb: u64,
    probe_fn: F,
) -> (best: Option<BestCandidate>)
    requires
        forall|knob: u64| lo <= knob <= hi ==> call_requires(probe_fn, (knob,)),
    ensures
        best matches Some(c) ==> lo <= c.knob <= hi && c.size_kb <= target_kb && call_ensures(
            probe_fn,
            (c.knob,),
            (c.size_kb, true),
        ),
        forall|model: spec_fn(u64) -> (u64, bool)|
            answers_as(probe_fn, model, lo, hi) ==> best == (#[trigger] Search::begun(
                lo,
                hi,
                max_probes,
                target_kb,
            ).run(model)).best,
        (forall|knob: u64, r: (u64, bool)|
            lo <= knob <= hi && #[trigger] call_ensures(probe_fn, (knob,), r) ==> !(r.1 && r.0
                <= target_kb)) ==> best is None,
{
    let mut s = Search::new(lo, hi, max_probes, target_kb);
    loop
        invariant
            s.target_kb == target_kb,
            s.range.lo > s.range.hi || (lo <= s.range.lo && s.range.hi <= hi),
            forall|knob: u64| lo <= knob <= hi ==> call_requires(probe_fn, (knob,)),
            s.best matches Some(c) ==> lo <= c.knob <= hi && c.size_kb <= target_kb
                && call_ensures(probe_fn, (c.knob,), (c.size_kb, true)),
            forall|model: spec_fn(u64) -> (u64, bool)|
                answers_as(probe_fn, model, lo, hi) ==> (#[trigger] Search::begun(
                    lo,
                    hi,
                    max_probes,
                    target_kb,
                ).run(model)) == s.run(model),
        decreases s.range.probes_left,
    {
        match s.next_knob() {
            None => {
                return s.best;
            },
            Some(mid) => {
                let r = probe_fn(mid);
                proof {
                    assert forall|model: spec_fn(u64) -> (u64, bool)|
                        answers_as(probe_fn, model, lo, hi) implies (#[trigger] Search::begun(
                        lo,
                        hi,
                        max_probes,
                        target_kb,
                    ).run(model)) == s.recorded(r.0, r.1).run(model) by {
                        assert(r == model(mid));
                    }
                }
                s.record(r.0, r.1);
            },
        }
    }
}

/// The codec succeeds at `knob` and its output fits the target.
pub open spec fn feasible(probe: spec_fn(u64) -> (u64, bool), knob: u64, target_kb: u64) -> bool {
    probe(knob).1 && probe(knob).0 <= target_kb
}

/// Within `lo..=hi`, every knob below a feasible knob is feasible too.
pub open spec fn downward_closed(
    probe: spec_fn(u64) -> (u64, bool),
    target_kb: u64,
    lo: u64,
    hi: u64,
) -> bool {
    forall|i: u64, j: u64|
        lo <= i <= j <= hi && #[trigger] feasible(probe, j, target_kb) ==> #[trigger] feasible(
            probe,
            i,
            target_kb,
        )
}

/// Within `lo..=hi`, the codec never fails and a higher knob never gives a
/// smaller output.
pub open spec fn monotonic(probe: spec_fn(u64) -> (u64, bool), lo: u64, hi: u64) -> bool {
    &&& forall|k: u64| lo <= k <= hi ==> (#[trigger] probe(k)).1
    &&& forall|i: u64, j: u64|
        lo <= i <= j <= hi ==> (#[trigger] probe(i)).0 <= (#[trigger] probe(j)).0
}

/// `range` lies inside `lo..=hi`, or holds no knob.
pub open spec fn within(range: SearchRange, lo: u64, hi: u64) -> bool {
    range.width() == 0 || (lo <= range.lo && range.hi <= hi)
}

/// `c` is a knob of `lo..=hi` at which `probe` succeeds with the size that
/// `c` records, and that size fits the target.
pub open spec fn witnessed(
    c: BestCandidate,
    probe: spec_fn(u64) -> (u64, bool),
    target_kb: u64,
    lo: u64,
    hi: u64,
) -> bool {
    lo <= c.knob <= hi && probe(c.knob) == (c.size_kb, true) && c.size_kb <= target_kb
}

/// A probe that never fails and never shrinks its output as the knob grows
/// has a downward-closed set of feasible knobs.
pub proof fn lemma_monotonic_is_downward_closed(
    probe: spec_fn(u64) -> (u64, bool),
    target_kb: u64,
    lo: u64,
    hi: u64,
)
    requires
        monotonic(probe, lo, hi),
    ensures
        downward_closed(probe, target_kb, lo, hi),
{
    assert forall|i: u64, j: u64|
        lo <= i <= j <= hi && #[trigger] feasible(probe, j, target_kb) implies #[trigger] feasible(
        probe,
        i,
        target_kb,
    ) by {
        assert(probe(i).0 <= probe(j).0);
    }
}

/// A run never asks for more probes than the budget allows, and what is left
/// of the budget is what the probes did not use.
pub proof fn lemma_probe_budget(s: Search, probe: spec_fn(u64) -> (u64, bool))
    ensures
        s.history(probe).len() <= s.range.probes_left,
        s.run(probe).range.probes_left + s.history(probe).len() == s.range.probes_left,
        s.run(probe).pending() is None,
        s.run(probe).target_kb == s.target_kb,
    decreases s.range.probes_left,
{
    match s.pending() {
        None => {},
        Some(mid) => {
            lemma_probe_budget(s.recorded(probe(mid).0, probe(mid).1), probe);
        },
    }
}

/// Every probe of a run is made at a knob of the range the run began with.
pub proof fn lemma_probes_stay_in_range(
    s: Search,
    probe: spec_fn(u64) -> (u64, bool),
    lo: u64,
    hi: u64,
)
    requires
        within(s.range, lo, hi),
    ensures
        forall|i: int|
            0 <= i < s.history(probe).len() ==> lo <= (#[trigger] s.history(probe)[i]).knob <= hi,
        forall|i: int|
            0 <= i < s.history(probe).len() ==> probe((#[trigger] s.history(probe)[i]).knob) == (
                s.history(probe)[i].size_kb,
                s.history(probe)[i].success,
            ),
    decreases s.range.probes_left,
{
    match s.pending() {
        None => {},
        Some(mid) => {
            let next = s.recorded(probe(mid).0, probe(mid).1);
            lemma_probes_stay_in_range(next, probe, lo, hi);
            assert forall|i: int| 0 <= i < s.history(probe).len() implies lo <= (
            #[trigger] s.history(probe)[i]).knob <= hi && probe(s.history(probe)[i].knob) == (
                s.history(probe)[i].size_kb,
                s.history(probe)[i].success,
            ) by {
                if i > 0 {
                    assert(s.history(probe)[i] == next.history(probe)[i - 1]);
                }
            }
        },
    }
}

/// The range only ever narrows, and a range that began with `lo <= hi + 1`
/// ends so.
pub proof fn lemma_range_narrows(s: Search, probe: spec_fn(u64) -> (u64, bool), lo: u64, hi: u64)
    requires
        within(s.range, lo, hi),
        s.range.lo <= s.range.hi + 1,
    ensures
        within(s.run(probe).range, lo, hi),
        s.run(probe).range.lo <= s.run(probe).range.hi + 1,
        s.run(probe).range.width() <= s.range.width(),
    decreases s.range.probes_left,
{
    match s.pending() {
        None => {},
        Some(mid) => {
            lemma_range_narrows(s.recorded(probe(mid).0, probe(mid).1), probe, lo, hi);
        },
    }
}

/// What a run reports as best is a probe that met the target: either the
/// best it began with, or a knob of the range at which `probe` fits. A best
/// once found is never lost.
pub proof fn lemma_best_is_witnessed(
    s: Search,
    probe: spec_fn(u64) -> (u64, bool),
    lo: u64,
    hi: u64,
)
    requires
        within(s.range, lo, hi),
        s.best matches Some(b) ==> witnessed(b, probe, s.target_kb, lo, hi),
    ensures
        s.run(probe).best matches Some(c) ==> witnessed(c, probe, s.target_kb, lo, hi),
        s.best is Some ==> s.run(probe).best is Some,
        s.best matches Some(b) ==> b.knob <= s.run(probe).best->0.knob,
    decreases s.range.probes_left,
{
    match s.pending() {
        None => {},
        Some(mid) => {
            lemma_best_is_witnessed(s.recorded(probe(mid).0, probe(mid).1), probe, lo, hi);
        },
    }
}

proof fn lemma_best_only_rises(s: Search, probe: spec_fn(u64) -> (u64, bool))
    ensures
        s.best matches Some(b) ==> s.run(probe).best matches Some(c) && b.knob <= c.knob,
    decreases s.range.probes_left,
{
    match s.pending() {
        None => {},
        Some(mid) => {
            lemma_best_only_rises(s.recorded(probe(mid).0, probe(mid).1), probe);
        },
    }
}

/// The best reported is the highest knob among all probes of the run that
/// met the target: no probe that met it has a higher knob.
pub proof fn lemma_best_is_highest_met(s: Search, probe: spec_fn(u64) -> (u64, bool))
    ensures
        forall|i: int|
            0 <= i < s.history(probe).len() && (#[trigger] s.history(probe)[i]).meets(s.target_kb)
                ==> (s.run(probe).best matches Some(c) && s.history(probe)[i].knob <= c.knob),
    decreases s.range.probes_left,
{
    match s.pending() {
        None => {},
        Some(mid) => {
            let next = s.recorded(probe(mid).0, probe(mid).1);
            lemma_best_is_highest_met(next, probe);
            lemma_best_only_rises(next, probe);
            assert forall|i: int|
                0 <= i < s.history(probe).len() && (#[trigger] s.history(probe)[i]).meets(
                    s.target_kb,
                ) implies (s.run(probe).best matches Some(c) && s.history(probe)[i].knob
                <= c.knob) by {
                if i > 0 {
                    assert(s.history(probe)[i] == next.history(probe)[i - 1]);
                }
            }
        },
    }
}

/// Where no knob of the range is feasible, the search reports none found,
/// within its budget of probes.
pub proof fn lemma_none_found_when_infeasible(
    lo: u64,
    hi: u64,
    max_probes: u64,
    target_kb: u64,
    probe: spec_fn(u64) -> (u64, bool),
)
    requires
        forall|knob: u64| lo <= knob <= hi ==> !feasible(probe, knob, target_kb),
    ensures
        Search::begun(lo, hi, max_probes, target_kb).run(probe).best is None,
        Search::begun(lo, hi, max_probes, target_kb).history(probe).len() <= max_probes,
{
    let s = Search::begun(lo, hi, max_probes, target_kb);
    lemma_best_is_witnessed(s, probe, lo, hi);
    lemma_probe_budget(s, probe);
    if let Some(c) = s.run(probe).best {
        assert(feasible(probe, c.knob, target_kb));
    }
}

/// The budget is enough to reach the lowest knob of the range by halving.
pub open spec fn budget_reaches_floor(range: SearchRange) -> bool {
    range.width() + 2 <= pow2(range.probes_left as nat + 1)
}

/// The budget is enough to halve the range down to nothing.
pub open spec fn budget_exhausts_range(range: SearchRange) -> bool {
    range.width() < pow2(range.probes_left as nat)
}

proof fn lemma_finds_feasible(s: Search, probe: spec_fn(u64) -> (u64, bool), knob: u64)
    requires
        downward_closed(probe, s.target_kb, s.range.lo, s.range.hi),
        s.range.contains(knob as int),
        feasible(probe, knob, s.target_kb),
        budget_reaches_floor(s.range),
    ensures
        s.run(probe).best is Some,
    decreases s.range.probes_left,
{
    lemma_pow2_unfold(s.range.probes_left as nat + 1);
    if s.range.probes_left == 0 {
        lemma2_to64();
    }
    let mid = s.range.midpoint();
    let next = s.recorded(probe(mid).0, probe(mid).1);
    if feasible(probe, mid, s.target_kb) {
        lemma_best_is_kept(next, probe);
    } else {
        assert(knob < mid) by {
            if mid <= knob {
                assert(feasible(probe, mid, s.target_kb));
            }
        }
        lemma_finds_feasible(next, probe, knob);
    }
}

proof fn lemma_best_is_kept(s: Search, probe: spec_fn(u64) -> (u64, bool))
    requires
        s.best is Some,
    ensures
        s.run(probe).best is Some,
    decreases s.range.probes_left,
{
    match s.pending() {
        None => {},
        Some(mid) => {
            lemma_best_is_kept(s.recorded(probe(mid).0, probe(mid).1), probe);
        },
    }
}

/// Where the feasible knobs are downward closed, one of them lies in the
/// range, and the budget reaches the floor of the range, the search finds a
/// candidate within its budget, and what it finds fits the target.
pub proof fn lemma_finds_candidate(
    lo: u64,
    hi: u64,
    max_probes: u64,
    target_kb: u64,
    probe: spec_fn(u64) -> (u64, bool),
    knob: u64,
)
    requires
        downward_closed(probe, target_kb, lo, hi),
        lo <= knob <= hi,
        feasible(probe, knob, target_kb),
        budget_reaches_floor(SearchRange { lo, hi, probes_left: max_probes }),
    ensures
        Search::begun(lo, hi, max_probes, target_kb).run(probe).best matches Some(c) && witnessed(
            c,
            probe,
            target_kb,
            lo,
            hi,
        ),
        Search::begun(lo, hi, max_probes, target_kb).history(probe).len() <= max_probes,
{
    let s = Search::begun(lo, hi, max_probes, target_kb);
    lemma_finds_feasible(s, probe, knob);
    lemma_best_is_witnessed(s, probe, lo, hi);
    lemma_probe_budget(s, probe);
}


/// The same for a probe that never fails and never shrinks its output as the
/// knob grows.
pub proof fn lemma_monotonic_probe_finds_candidate(
    lo: u64,
    hi: u64,
    max_probes: u64,
    target_kb: u64,
    probe: spec_fn(u64) -> (u64, bool),
    knob: u64,
)
    requires
        monotonic(probe, lo, hi),
        lo <= knob <= hi,
        feasible(probe, knob, target_kb),
        budget_reaches_floor(SearchRange { lo, hi, probes_left: max_probes }),
    ensures
        Search::begun(lo, hi, max_probes, target_kb).run(probe).best matches Some(c) && witnessed(
            c,
            probe,
            target_kb,
            lo,
            hi,
        ),
        Search::begun(lo, hi, max_probes, target_kb).history(probe).len() <= max_probes,
{
    lemma_monotonic_is_downward_closed(probe, target_kb, lo, hi);
    lemma_finds_candidate(lo, hi, max_probes, target_kb, probe, knob);
}

/// Every feasible knob of `lo..=hi` is still in the range or no higher than
/// the best so far, and the best so far lies below the range.
spec fn covers_feasible(s: Search, probe: spec_fn(u64) -> (u64, bool), lo: u64, hi: u64) -> bool {
    &&& forall|k: u64|
        lo <= k <= hi && #[trigger] feasible(probe, k, s.target_kb) ==> s.range.contains(k as int)
            || (s.best matches Some(b) && k <= b.knob)
    &&& s.best matches Some(b) ==> s.range.width() == 0 || b.knob < s.range.lo
}

proof fn lemma_run_covers_feasible(s: Search, probe: spec_fn(u64) -> (u64, bool), lo: u64, hi: u64)
    requires
        within(s.range, lo, hi),
        downward_closed(probe, s.target_kb, lo, hi),
        budget_exhausts_range(s.range),
        covers_feasible(s, probe, lo, hi),
    ensures
        forall|k: u64|
            lo <= k <= hi && #[trigger] feasible(probe, k, s.target_kb) ==> (s.run(
                probe,
            ).best matches Some(c) && k <= c.knob),
    decreases s.range.probes_left,
{
    lemma2_to64();
    match s.pending() {
        None => {
        },
        Some(mid) => {
            let next = s.recorded(probe(mid).0, probe(mid).1);
            lemma_pow2_unfold(s.range.probes_left as nat);
            assert(covers_feasible(next, probe, lo, hi)) by {
                assert forall|k: u64|
                    lo <= k <= hi && #[trigger] feasible(
                        probe,
                        k,
                        next.target_kb,
                    ) implies next.range.contains(k as int) || (next.best matches Some(b) && k
                    <= b.knob) by {
                    if !feasible(probe, mid, s.target_kb) && mid <= k {
                        assert(feasible(probe, mid, s.target_kb));
                    }
                }
            }
            lemma_run_covers_feasible(next, probe, lo, hi);
        },
    }
}

/// Where the feasible knobs are downward closed and the budget is enough to
/// halve the range down to nothing, the search reports the highest feasible
/// knob of the range.
pub proof fn lemma_finds_highest(
    lo: u64,
    hi: u64,
    max_probes: u64,
    target_kb: u64,
    probe: spec_fn(u64) -> (u64, bool),
)
    requires
        downward_closed(probe, target_kb, lo, hi),
        budget_exhausts_range(SearchRange { lo, hi, probes_left: max_probes }),
    ensures
        forall|k: u64|
            lo <= k <= hi && #[trigger] feasible(probe, k, target_kb) ==> (Search::begun(
                lo,
                hi,
                max_probes,
                target_kb,
            ).run(probe).best matches Some(c) && k <= c.knob),
        Search::begun(lo, hi, max_probes, target_kb).run(probe).best matches Some(c) ==> witnessed(
            c,
            probe,
            target_kb,
            lo,
            hi,
        ),
{
    let s = Search::begun(lo, hi, max_probes, target_kb);
    lemma_run_covers_feasible(s, probe, lo, hi);
    lemma_best_is_witnessed(s, probe, lo, hi);
}

} // verus!
