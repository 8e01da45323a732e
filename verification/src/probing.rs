//! A search together with the two scratch files its probes are written to.

use crate::protocol::Slot;
use crate::search::{within, BestCandidate, ProbeResult, Search};
use vstd::prelude::*;

verus! {

/// A search whose probes each leave a file behind.
///
/// While nothing has met the target every probe writes to slot `A`. Once a
/// probe has met it, the file of the best probe stays where it is and the
/// next probe writes to the other slot.
#[derive(Clone, Copy, Debug, PartialEq, Eq, Structural)]
pub struct Probing {
    pub search: Search,
    /// Where the output of the best probe lies, once there is one.
    pub best_slot: Slot,
    /// While nothing has met the target: the size of the last output that a
    /// probe did write, if any. That file lies in slot `A`.
    pub spare_kb: Option<u64>,
}

impl Probing {
    pub open spec fn begun(lo: u64, hi: u64, max_probes: u64, target_kb: u64) -> Probing {
        Probing {
            search: Search::begun(lo, hi, max_probes, target_kb),
            best_slot: Slot::A,
            spare_kb: None,
        }
    }

    /// The slot the next probe writes to.
    pub open spec fn scratch(self) -> Slot {
        if self.search.best is Some {
            self.best_slot.other()
        } else {
            Slot::A
        }
    }

    pub open spec fn pending(self) -> Option<u64> {
        self.search.pending()
    }

    /// The state after the pending probe wrote `size_kb` to the scratch slot,
    /// or failed.
    pub open spec fn observed(self, size_kb: u64, success: bool) -> Probing {
        match self.search.pending() {
            None => self,
            Some(mid) => {
                let probe = ProbeResult { knob: mid, size_kb, success };
                let search = self.search.recorded(size_kb, success);
                if self.search.improves(probe) {
                    Probing { search, best_slot: self.scratch(), spare_kb: None }
                } else if success && self.search.best is None {
                    Probing { search, best_slot: self.best_slot, spare_kb: Some(size_kb) }
                } else {
                    Probing { search, best_slot: self.best_slot, spare_kb: self.spare_kb }
                }
            },
        }
    }

    /// The best probe and the slot its output lies in.
    pub open spec fn found(self) -> Option<(BestCandidate, Slot)> {
        match self.search.best {
            Some(c) => Some((c, self.best_slot)),
            None => None,
        }
    }

    /// What holds of a search over `lo..=hi` toward `target_kb` that began
    /// with `max_probes` probes: it has stayed inside its range and budget,
    /// and its best probe fits the target and lies below what is left of
    /// the range.
    pub open spec fn wf(self, lo: u64, hi: u64, max_probes: u64, target_kb: u64) -> bool {
        &&& self.search.target_kb == target_kb
        &&& within(self.search.range, lo, hi)
        &&& self.search.range.probes_left <= max_probes
        &&& self.search.best matches Some(c) ==> {
            &&& lo <= c.knob <= hi
            &&& c.size_kb <= target_kb
            &&& self.search.range.width() == 0 || c.knob < self.search.range.lo
        }
        &&& self.spare_kb is Some ==> self.search.best is None
    }

    /// A search that began well stays so.
    pub proof fn lemma_observed_wf(
        self,
        lo: u64,
        hi: u64,
        max_probes: u64,
        target_kb: u64,
        size_kb: u64,
        success: bool,
    )
        requires
            self.wf(lo, hi, max_probes, target_kb),
        ensures
            self.observed(size_kb, success).wf(lo, hi, max_probes, target_kb),
            self.pending() is Some ==> self.observed(size_kb, success).search.range.probes_left
                == self.search.range.probes_left - 1,
            self.pending() is None ==> self.observed(size_kb, success) == self,
            self.search.best is Some ==> self.observed(size_kb, success).search.best is Some,
    {
    }

    pub proof fn lemma_begun_wf(lo: u64, hi: u64, max_probes: u64, target_kb: u64)
        ensures
            Probing::begun(lo, hi, max_probes, target_kb).wf(lo, hi, max_probes, target_kb),
    {
    }

    pub fn new(lo: u64, hi: u64, max_probes: u64, target_kb: u64) -> (r: Probing)
        ensures
            r == Probing::begun(lo, hi, max_probes, target_kb),
    {
        Probing {
            search: Search::new(lo, hi, max_probes, target_kb),
            best_slot: Slot::A,
            spare_kb: None,
        }
    }

    pub fn next_slot(&self) -> (r: Slot)
        ensures
            r == self.scratch(),
            self.search.best is Some ==> r != self.best_slot,
    {
        match self.search.best {
            Some(_) => self.best_slot.flip(),
            None => Slot::A,
        }
    }

    pub fn next_knob(&self) -> (k: Option<u64>)
        ensures
            k == self.pending(),
    {
        self.search.next_knob()
    }

    pub fn observe(&mut self, size_kb: u64, success: bool)
        ensures
            *final(self) == old(self).observed(size_kb, success),
    {
        let slot = self.next_slot();
        let had_best = self.search.best.is_some();
        let before = self.search.best;
        match self.search.record(size_kb, success) {
            None => {},
            Some(probe) => {
                let improved = probe.fits(self.search.target_kb) && match before {
                    None => true,
                    Some(b) => probe.knob > b.knob,
                };
                if improved {
                    self.best_slot = slot;
                    self.spare_kb = None;
                } else if success && !had_best {
                    self.spare_kb = Some(size_kb);
                }
            },
        }
    }

    pub fn best(&self) -> (r: Option<(BestCandidate, Slot)>)
        ensures
            r == self.found(),
    {
        match self.search.best {
            Some(c) => Some((c, self.best_slot)),
            None => None,
        }
    }
}

} // verus!
