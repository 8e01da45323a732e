use crnch::probing::Probing;
use crnch::protocol::Slot;
use crnch::search::{search, BestCandidate, ProbeResult, Search, SearchRange};
use std::cell::Cell;

#[test]
fn search_finds_the_highest_knob_that_fits() {
    // Output grows with the knob; 62 is the last knob at or under 200 KB.
    let probe = |q: u64| (if q <= 62 { 195 - (62 - q) } else { 201 + (q - 63) }, true);
    assert_eq!(search(30, 100, 8, 200, probe), Some(BestCandidate { knob: 62, size_kb: 195 }));
}

#[test]
fn search_over_every_threshold_finds_it() {
    for limit in 30..=100u64 {
        let calls = Cell::new(0u64);
        let probe = |q: u64| {
            calls.set(calls.get() + 1);
            (if q <= limit { 100 } else { 300 }, true)
        };
        let best = search(30, 100, 8, 200, probe);
        assert_eq!(best, Some(BestCandidate { knob: limit, size_kb: 100 }));
        assert!(calls.get() <= 8);
    }
}

#[test]
fn search_reports_none_when_nothing_fits() {
    let calls = Cell::new(0u64);
    let probe = |_q: u64| {
        calls.set(calls.get() + 1);
        (500, true)
    };
    assert_eq!(search(1, 100, 8, 200, probe), None);
    assert!(calls.get() <= 8);
    assert_eq!(calls.get(), 6);
}

#[test]
fn search_stops_when_the_budget_is_spent() {
    let calls = Cell::new(0u64);
    let probe = |_q: u64| {
        calls.set(calls.get() + 1);
        (500, true)
    };
    assert_eq!(search(1, 1000, 2, 200, probe), None);
    assert_eq!(calls.get(), 2);
}

#[test]
fn search_with_too_small_a_budget_can_miss_a_feasible_knob() {
    // Only knob 1 fits; two probes reach 500 and 250 and stop.
    let probe = |q: u64| (if q <= 1 { 100 } else { 300 }, true);
    assert_eq!(search(1, 1000, 2, 200, probe), None);
}

#[test]
fn search_treats_a_failed_probe_as_too_large() {
    // The codec fails above 40 and fits everywhere else.
    let probe = |q: u64| (10, q <= 40);
    assert_eq!(search(30, 100, 8, 200, probe), Some(BestCandidate { knob: 40, size_kb: 10 }));
}

#[test]
fn search_keeps_the_best_observed_probe_of_a_bumpy_codec() {
    // 65 is too large although 82 would fit: the search never sees 82 and
    // reports the best it did see.
    let probe = |q: u64| (if q == 65 { 300 } else if q < 65 { 150 } else { 100 }, true);
    assert_eq!(search(30, 100, 8, 200, probe), Some(BestCandidate { knob: 64, size_kb: 150 }));
}

#[test]
fn search_with_zero_budget_or_empty_range_probes_nothing() {
    let calls = Cell::new(0u64);
    let probe = |_q: u64| {
        calls.set(calls.get() + 1);
        (1, true)
    };
    assert_eq!(search(1, 100, 0, 200, &probe), None);
    assert_eq!(search(10, 3, 8, 200, &probe), None);
    assert_eq!(calls.get(), 0);
}

#[test]
fn search_at_the_ends_of_the_knob_type() {
    let fits = |_q: u64| (1, true);
    assert_eq!(
        search(u64::MAX - 1, u64::MAX, 8, 200, fits),
        Some(BestCandidate { knob: u64::MAX, size_kb: 1 })
    );
    let never = |_q: u64| (1, false);
    assert_eq!(search(0, 1, 8, 200, never), None);
}

#[test]
fn range_midpoint_and_narrowing() {
    let mut range = SearchRange::new(30, 100, 8);
    assert_eq!(range.next_knob(), Some(65));
    range.lower();
    assert_eq!(range, SearchRange { lo: 30, hi: 64, probes_left: 7 });
    assert_eq!(range.next_knob(), Some(47));
    range.raise();
    assert_eq!(range, SearchRange { lo: 48, hi: 64, probes_left: 6 });
}

#[test]
fn range_narrowed_past_the_ends_is_empty() {
    let mut low = SearchRange::new(0, 0, 3);
    low.lower();
    assert_eq!(low, SearchRange { lo: 1, hi: 0, probes_left: 2 });
    assert_eq!(low.next_knob(), None);
    let mut high = SearchRange::new(u64::MAX, u64::MAX, 3);
    high.raise();
    assert_eq!(high, SearchRange { lo: 1, hi: 0, probes_left: 2 });
    high.raise();
    assert_eq!(high, SearchRange { lo: 1, hi: 0, probes_left: 2 });
}

#[test]
fn stepwise_search_records_each_probe() {
    let mut s = Search::new(1, 100, 8, 200);
    assert_eq!(s.next_knob(), Some(50));
    assert_eq!(s.record(150, true), Some(ProbeResult { knob: 50, size_kb: 150, success: true }));
    assert_eq!(s.best, Some(BestCandidate { knob: 50, size_kb: 150 }));
    assert_eq!(s.next_knob(), Some(75));
    assert_eq!(s.record(150, false), Some(ProbeResult { knob: 75, size_kb: 150, success: false }));
    assert_eq!(s.best, Some(BestCandidate { knob: 50, size_kb: 150 }));
    assert_eq!(s.next_knob(), Some(62));
    assert_eq!(s.record(201, true), Some(ProbeResult { knob: 62, size_kb: 201, success: true }));
    assert_eq!(s.range, SearchRange { lo: 51, hi: 61, probes_left: 5 });
    assert!(!s.is_done());
}

#[test]
fn closed_search_ignores_what_it_is_told() {
    let mut s = Search::new(5, 5, 1, 10);
    assert_eq!(s.record(3, true), Some(ProbeResult { knob: 5, size_kb: 3, success: true }));
    assert!(s.is_done());
    let before = s;
    assert_eq!(s.record(1, true), None);
    assert_eq!(s, before);
}

#[test]
fn probe_fits_only_on_success_within_target() {
    assert!(ProbeResult { knob: 1, size_kb: 200, success: true }.fits(200));
    assert!(!ProbeResult { knob: 1, size_kb: 201, success: true }.fits(200));
    assert!(!ProbeResult { knob: 1, size_kb: 100, success: false }.fits(200));
}

#[test]
fn probing_never_writes_over_the_best_output() {
    let mut p = Probing::new(1, 100, 8, 200);
    assert_eq!(p.next_slot(), Slot::A);
    p.observe(300, true); // 50 too large, written to A
    assert_eq!(p.spare_kb, Some(300));
    assert_eq!(p.next_slot(), Slot::A);
    p.observe(150, true); // 25 fits, written to A, now the best
    assert_eq!(p.best(), Some((BestCandidate { knob: 25, size_kb: 150 }, Slot::A)));
    assert_eq!(p.spare_kb, None);
    assert_eq!(p.next_slot(), Slot::B);
    p.observe(250, true); // 37 too large, written to B
    assert_eq!(p.best(), Some((BestCandidate { knob: 25, size_kb: 150 }, Slot::A)));
    assert_eq!(p.next_slot(), Slot::B);
    p.observe(180, true); // 31 fits, written to B, now the best
    assert_eq!(p.best(), Some((BestCandidate { knob: 31, size_kb: 180 }, Slot::B)));
    assert_eq!(p.next_slot(), Slot::A);
}

#[test]
fn probing_remembers_the_last_output_while_nothing_fits() {
    let mut p = Probing::new(1, 100, 8, 200);
    p.observe(900, true);
    p.observe(0, false);
    assert_eq!(p.spare_kb, Some(900));
    p.observe(400, true);
    assert_eq!(p.spare_kb, Some(400));
    assert_eq!(p.best(), None);
}
