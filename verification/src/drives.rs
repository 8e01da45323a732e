//! Runs against a codec and a user that answer each call and each question
//! in one way, and what the searches of the engines find in such runs.

use crate::engine::Engine;
use crate::fallback::{Fallback, FallbackPhase, MAX_RESIZE_PROBES, MAX_SCALE, MIN_SCALE};
use crate::jpeg::{JpegEngine, JpegPhase};
use crate::pdf::{dpi_range, PdfEngine, PdfPhase, MAX_DPI_PROBES};
use crate::png::{PngEngine, PngPhase, MAX_QUALITY, MAX_QUANTIZE_PROBES, MIN_QUALITY};
use crate::probing::Probing;
use crate::protocol::{
    Action, Algorithm, Artifact, CompressionRequest, Event, FallbackStage, Format, Invocation,
    Outcome, Preset, Prompt, Slot,
};
use crate::runs::reached;
use crate::search::{downward_closed, feasible, lemma_finds_highest, lemma_probe_budget};
use vstd::arithmetic::power2::lemma2_to64;
use vstd::prelude::*;

verus! {

/// The event that answers `action` where the codec answers each call with
/// `codec`, a pair of output size and success, and the user each question
/// with `user`.
pub open spec fn answer(
    action: Action,
    codec: spec_fn(Invocation) -> (u64, bool),
    user: spec_fn(Prompt) -> bool,
) -> Event {
    match action {
        Action::Invoke(i) => Event::Ran { success: codec(i).1, size_kb: codec(i).0 },
        Action::Ask(p) => Event::Answered { yes: user(p) },
        Action::Finish(_) => Event::Answered { yes: true },
    }
}

/// Where a run stands after at most `steps` actions were answered by the
/// codec and the user. A run that is over stays where it is.
pub open spec fn driven(
    step: (Engine, Action),
    codec: spec_fn(Invocation) -> (u64, bool),
    user: spec_fn(Prompt) -> bool,
    steps: nat,
) -> (Engine, Action)
    decreases steps,
{
    if steps == 0 || step.1 is Finish {
        step
    } else {
        driven(step.0.advanced(answer(step.1, codec, user)), codec, user, (steps - 1) as nat)
    }
}

impl Probing {
    /// The state a search with scratch files ends in when every probe at
    /// knob `k` answers `probe(k)`.
    pub open spec fn run(self, probe: spec_fn(u64) -> (u64, bool)) -> Probing
        decreases self.search.range.probes_left,
    {
        match self.pending() {
            None => self,
            Some(mid) => self.observed(probe(mid).0, probe(mid).1).run(probe),
        }
    }

    /// The scratch files change nothing of what the search finds.
    pub proof fn lemma_run_is_search_run(self, probe: spec_fn(u64) -> (u64, bool))
        ensures
            self.run(probe).search == self.search.run(probe),
            self.run(probe).pending() is None,
        decreases self.search.range.probes_left,
    {
        match self.pending() {
            None => {},
            Some(mid) => {
                self.observed(probe(mid).0, probe(mid).1).lemma_run_is_search_run(probe);
            },
        }
    }
}

/// The codec answers every quantization at quality `q` with `probe(q)`,
/// whichever scratch file it writes.
pub open spec fn quantizes_as(
    codec: spec_fn(Invocation) -> (u64, bool),
    probe: spec_fn(u64) -> (u64, bool),
) -> bool {
    forall|q: u64, slot: Slot|
        #[trigger] codec(
            Invocation::Quantize {
                min_quality: q,
                max_quality: MAX_QUALITY,
                output: Artifact::Quantized(slot),
            },
        ) == probe(q)
}

/// The codec answers every render at resolution `dpi` with `probe(dpi)`,
/// whichever scratch file it writes.
pub open spec fn renders_as(
    codec: spec_fn(Invocation) -> (u64, bool),
    probe: spec_fn(u64) -> (u64, bool),
) -> bool {
    forall|dpi: u64, slot: Slot|
        #[trigger] codec(
            Invocation::Render {
                preset: Some(Preset::Printer),
                dpi: Some(dpi),
                output: Artifact::Rendered(slot),
            },
        ) == probe(dpi)
}

proof fn lemma_quantizing_runs_the_search(
    png: PngEngine,
    codec: spec_fn(Invocation) -> (u64, bool),
    user: spec_fn(Prompt) -> bool,
    probe: spec_fn(u64) -> (u64, bool),
    steps: nat,
)
    requires
        png.phase is Quantizing,
        png.phase->Quantizing_probing.pending() is Some,
        quantizes_as(codec, probe),
        steps >= png.phase->Quantizing_probing.search.range.probes_left,
    ensures
        ({
            let stripped_kb = png.phase->Quantizing_stripped_kb;
            let probing = png.phase->Quantizing_probing;
            let (then, action) = png.quantize_concluded(stripped_kb, probing.run(probe));
            let used = probing.search.history(probe).len();
            used <= steps && driven((Engine::Png { png }, png.awaited()), codec, user, steps)
                == driven((Engine::Png { png: then }, action), codec, user, (steps - used) as nat)
        }),
    decreases png.phase->Quantizing_probing.search.range.probes_left,
{
    let stripped_kb = png.phase->Quantizing_stripped_kb;
    let probing = png.phase->Quantizing_probing;
    let mid = probing.search.range.midpoint();
    let call = Invocation::Quantize {
        min_quality: mid,
        max_quality: MAX_QUALITY,
        output: Artifact::Quantized(probing.scratch()),
    };
    assert(codec(call) == probe(mid));
    let next = probing.observed(probe(mid).0, probe(mid).1);
    lemma_probe_budget(probing.search, probe);
    if next.pending() is Some {
        let then = png.at(PngPhase::Quantizing { stripped_kb, probing: next });
        lemma_quantizing_runs_the_search(then, codec, user, probe, (steps - 1) as nat);
    } else {
        assert(next.search.history(probe).len() == 0);
    }
}

/// A PNG run against a codec whose feasible qualities are downward closed
/// ends with the highest feasible quality: where some quality between 30
/// and 100 fits the target, the outcome is the quantization at the highest
/// such quality, with the size the codec gives at that quality. The run is
/// over within ten answers.
pub proof fn lemma_png_finds_highest_quality(
    request: CompressionRequest,
    codec: spec_fn(Invocation) -> (u64, bool),
    user: spec_fn(Prompt) -> bool,
    probe: spec_fn(u64) -> (u64, bool),
    quality: u64,
)
    requires
        request.target_kb matches Some(t) && t < request.original_kb && codec(
            Invocation::StripMetadata,
        ).0 > t && downward_closed(probe, t, MIN_QUALITY, MAX_QUALITY) && feasible(
            probe,
            quality,
            t,
        ),
        codec(Invocation::StripMetadata).1,
        quantizes_as(codec, probe),
        MIN_QUALITY <= quality <= MAX_QUALITY,
    ensures
        driven(Engine::begun(Format::Png, request), codec, user, 10).1 matches Action::Finish(
            Outcome::Saved { artifact, algorithm: Algorithm::PngHybrid { quality: best }, size_kb, stage },
        ) && quality <= best <= MAX_QUALITY && probe(best) == (size_kb, true) && size_kb
            <= request.target_kb->0 && artifact is Quantized && stage == Some(
            FallbackStage::Quantize,
        ),
{
    let t = request.target_kb->0;
    let stripped_kb = codec(Invocation::StripMetadata).0;
    let probing = Probing::begun(MIN_QUALITY, MAX_QUALITY, MAX_QUANTIZE_PROBES, t);
    let png = PngEngine { request, phase: PngPhase::Quantizing { stripped_kb, probing } };
    lemma_quantizing_runs_the_search(png, codec, user, probe, 9);
    probing.lemma_run_is_search_run(probe);
    lemma_probe_budget(probing.search, probe);
    lemma2_to64();
    lemma_finds_highest(MIN_QUALITY, MAX_QUALITY, MAX_QUANTIZE_PROBES, t, probe);
    let found = probing.run(probe);
    let used = probing.search.history(probe).len();
    let (then, action) = png.quantize_concluded(stripped_kb, found);
    let polished = then.advanced(answer(action, codec, user));
    assert(driven((Engine::Png { png: then }, action), codec, user, (9 - used) as nat) == driven(
        (Engine::Png { png: polished.0 }, polished.1),
        codec,
        user,
        (9 - used - 1) as nat,
    ));
}

proof fn lemma_searching_runs_the_search(
    pdf: PdfEngine,
    codec: spec_fn(Invocation) -> (u64, bool),
    user: spec_fn(Prompt) -> bool,
    probe: spec_fn(u64) -> (u64, bool),
    steps: nat,
)
    requires
        pdf.phase is Searching,
        pdf.phase->Searching_probing.pending() is Some,
        renders_as(codec, probe),
        steps >= pdf.phase->Searching_probing.search.range.probes_left,
    ensures
        ({
            let floor = pdf.phase->Searching_floor;
            let probing = pdf.phase->Searching_probing;
            let (then, action) = pdf.search_concluded(floor, probing.run(probe));
            let used = probing.search.history(probe).len();
            used <= steps && driven((Engine::Pdf { pdf }, pdf.awaited()), codec, user, steps)
                == driven((Engine::Pdf { pdf: then }, action), codec, user, (steps - used) as nat)
        }),
    decreases pdf.phase->Searching_probing.search.range.probes_left,
{
    let floor = pdf.phase->Searching_floor;
    let probing = pdf.phase->Searching_probing;
    let mid = probing.search.range.midpoint();
    let call = Invocation::Render {
        preset: Some(Preset::Printer),
        dpi: Some(mid),
        output: Artifact::Rendered(probing.scratch()),
    };
    assert(codec(call) == probe(mid));
    let next = probing.observed(probe(mid).0, probe(mid).1);
    lemma_probe_budget(probing.search, probe);
    if next.pending() is Some {
        let then = pdf.at(PdfPhase::Searching { floor, probing: next });
        lemma_searching_runs_the_search(then, codec, user, probe, (steps - 1) as nat);
    } else {
        assert(next.run(probe) == next);
        assert(next.search.history(probe).len() == 0);
    }
}

/// A PDF run against a codec whose feasible resolutions are downward closed
/// ends with the highest feasible resolution: where the floor is not above
/// the target and some resolution of the range fits the target, the outcome
/// is the render at the highest such resolution, with the size the codec
/// gives at that resolution. The run is over within sixteen answers.
pub proof fn lemma_pdf_finds_highest_resolution(
    request: CompressionRequest,
    codec: spec_fn(Invocation) -> (u64, bool),
    user: spec_fn(Prompt) -> bool,
    probe: spec_fn(u64) -> (u64, bool),
    dpi: u64,
)
    requires
        request.target_kb matches Some(t) && t < request.original_kb && downward_closed(
            probe,
            t,
            dpi_range(request.original_kb, t).0,
            dpi_range(request.original_kb, t).1,
        ) && feasible(probe, dpi, t) && dpi_range(request.original_kb, t).0 <= dpi <= dpi_range(
            request.original_kb,
            t,
        ).1 && !(codec(PdfEngine::render_floor()->Invoke_0).1 && codec(
            PdfEngine::render_floor()->Invoke_0,
        ).0 > t),
        renders_as(codec, probe),
    ensures
        driven(Engine::begun(Format::Pdf, request), codec, user, 16).1 matches Action::Finish(
            Outcome::Saved { artifact, algorithm: Algorithm::BinarySearch { dpi: best }, size_kb, .. },
        ) && dpi <= best <= dpi_range(request.original_kb, request.target_kb->0).1 && probe(best)
            == (size_kb, true) && size_kb <= request.target_kb->0 && artifact is Rendered,
{
    let t = request.target_kb->0;
    let (lo, hi) = dpi_range(request.original_kb, t);
    let floor_call = PdfEngine::render_floor()->Invoke_0;
    let floor = if codec(floor_call).1 {
        Some(codec(floor_call).0)
    } else {
        None
    };
    let probing = Probing::begun(lo, hi, MAX_DPI_PROBES, t);
    let pdf = PdfEngine { request, phase: PdfPhase::Searching { floor, probing } };
    lemma_searching_runs_the_search(pdf, codec, user, probe, 15);
    probing.lemma_run_is_search_run(probe);
    lemma_probe_budget(probing.search, probe);
    lemma2_to64();
    lemma_finds_highest(lo, hi, MAX_DPI_PROBES, t, probe);
}

/// The codec answers every resize of `base` to `scale` percent with
/// `probe(scale)`, whichever scratch file it writes.
pub open spec fn resizes_as(
    codec: spec_fn(Invocation) -> (u64, bool),
    base: Artifact,
    probe: spec_fn(u64) -> (u64, bool),
) -> bool {
    forall|scale: u64, slot: Slot|
        #[trigger] codec(
            Invocation::Resize {
                input: base,
                scale_percent: scale,
                output: Artifact::Resized(slot),
            },
        ) == probe(scale)
}

/// A PNG or JPEG run on `request` that stands in the fallbacks.
pub open spec fn falling(request: CompressionRequest, fallback: Fallback) -> Engine {
    if fallback.plan.format is Png {
        Engine::Png { png: PngEngine { request, phase: PngPhase::Falling { fallback } } }
    } else {
        Engine::Jpeg { jpeg: JpegEngine { request, phase: JpegPhase::Falling { fallback } } }
    }
}

proof fn lemma_resizing_runs_the_search(
    request: CompressionRequest,
    fallback: Fallback,
    codec: spec_fn(Invocation) -> (u64, bool),
    user: spec_fn(Prompt) -> bool,
    probe: spec_fn(u64) -> (u64, bool),
    steps: nat,
)
    requires
        fallback.phase is Resizing,
        fallback.phase->Resizing_probing.pending() is Some,
        resizes_as(codec, fallback.phase->Resizing_base, probe),
        steps >= fallback.phase->Resizing_probing.search.range.probes_left,
    ensures
        ({
            let base = fallback.phase->Resizing_base;
            let base_kb = fallback.phase->Resizing_base_kb;
            let probing = fallback.phase->Resizing_probing;
            let (then, action) = fallback.resize_concluded(base, base_kb, probing.run(probe));
            let used = probing.search.history(probe).len();
            used <= steps && driven((falling(request, fallback), fallback.awaited()), codec, user, steps)
                == driven((falling(request, then), action), codec, user, (steps - used) as nat)
        }),
    decreases fallback.phase->Resizing_probing.search.range.probes_left,
{
    let base = fallback.phase->Resizing_base;
    let base_kb = fallback.phase->Resizing_base_kb;
    let probing = fallback.phase->Resizing_probing;
    let mid = probing.search.range.midpoint();
    let call = Invocation::Resize {
        input: base,
        scale_percent: mid,
        output: Artifact::Resized(probing.scratch()),
    };
    assert(codec(call) == probe(mid));
    let next = probing.observed(probe(mid).0, probe(mid).1);
    lemma_probe_budget(probing.search, probe);
    if next.pending() is Some {
        let then = fallback.at(FallbackPhase::Resizing { base, base_kb, probing: next });
        lemma_resizing_runs_the_search(request, then, codec, user, probe, (steps - 1) as nat);
    } else {
        assert(next.run(probe) == next);
        assert(next.search.history(probe).len() == 0);
    }
}

/// Once a PNG or JPEG run has begun to resize `base`, against a codec
/// whose feasible scales are downward closed it ends with the largest
/// feasible scale: where some scale between 1 and 100 percent fits the
/// target, the outcome is the resize at the largest such scale, with the
/// size the codec gives at that scale. The run is over within ten answers.
pub proof fn lemma_resize_finds_largest_scale(
    request: CompressionRequest,
    fallback: Fallback,
    base: Artifact,
    base_kb: u64,
    codec: spec_fn(Invocation) -> (u64, bool),
    user: spec_fn(Prompt) -> bool,
    probe: spec_fn(u64) -> (u64, bool),
    scale: u64,
)
    requires
        resizes_as(codec, base, probe),
        downward_closed(probe, fallback.plan.target_kb, MIN_SCALE, MAX_SCALE),
        MIN_SCALE <= scale <= MAX_SCALE,
        feasible(probe, scale, fallback.plan.target_kb),
    ensures
        driven(
            (
                falling(request, fallback.resizing_begun(base, base_kb).0),
                fallback.resizing_begun(base, base_kb).1,
            ),
            codec,
            user,
            10,
        ).1 matches Action::Finish(
            Outcome::Saved { artifact, algorithm: Algorithm::Resized { format, scale_percent }, size_kb, stage },
        ) && scale <= scale_percent <= MAX_SCALE && probe(scale_percent) == (size_kb, true)
            && size_kb <= fallback.plan.target_kb && artifact is Resized && format
            == fallback.plan.format && stage == Some(FallbackStage::Resize),
{
    let t = fallback.plan.target_kb;
    let (resizing, first) = fallback.resizing_begun(base, base_kb);
    let probing = Probing::begun(MIN_SCALE, MAX_SCALE, MAX_RESIZE_PROBES, t);
    lemma_resizing_runs_the_search(request, resizing, codec, user, probe, 10);
    probing.lemma_run_is_search_run(probe);
    lemma_probe_budget(probing.search, probe);
    lemma2_to64();
    lemma_finds_highest(MIN_SCALE, MAX_SCALE, MAX_RESIZE_PROBES, t, probe);
    let found = probing.run(probe);
    let used = probing.search.history(probe).len();
    let (then, action) = resizing.resize_concluded(base, base_kb, found);
    if fallback.plan.format is Png {
        let polished = falling(request, then).advanced(answer(action, codec, user));
        assert(driven((falling(request, then), action), codec, user, (10 - used) as nat) == driven(
            polished,
            codec,
            user,
            (10 - used - 1) as nat,
        ));
    }
}

/// The events with which the codec and the user answer the first `steps`
/// actions of a run.
pub open spec fn script(
    step: (Engine, Action),
    codec: spec_fn(Invocation) -> (u64, bool),
    user: spec_fn(Prompt) -> bool,
    steps: nat,
) -> Seq<Event>
    decreases steps,
{
    if steps == 0 || step.1 is Finish {
        Seq::empty()
    } else {
        seq![answer(step.1, codec, user)] + script(
            step.0.advanced(answer(step.1, codec, user)),
            codec,
            user,
            (steps - 1) as nat,
        )
    }
}

proof fn lemma_reached_after_first(start: (Engine, Action), first: Event, rest: Seq<Event>)
    ensures
        reached(start, seq![first] + rest) == reached(start.0.advanced(first), rest),
    decreases rest.len(),
{
    let all = seq![first] + rest;
    if rest.len() == 0 {
        assert(reached(start, all.drop_last()) == start);
    } else {
        lemma_reached_after_first(start, first, rest.drop_last());
        assert(all.drop_last() =~= seq![first] + rest.drop_last());
    }
}

/// A run against a codec and a user is a run like any other: it stands
/// where the events they answer with lead. So what holds of every run holds
/// of it.
pub proof fn lemma_driven_is_reached(
    step: (Engine, Action),
    codec: spec_fn(Invocation) -> (u64, bool),
    user: spec_fn(Prompt) -> bool,
    steps: nat,
)
    ensures
        driven(step, codec, user, steps) == reached(step, script(step, codec, user, steps)),
        script(step, codec, user, steps).len() <= steps,
    decreases steps,
{
    if steps > 0 && !(step.1 is Finish) {
        let first = answer(step.1, codec, user);
        let next = step.0.advanced(first);
        lemma_driven_is_reached(next, codec, user, (steps - 1) as nat);
        lemma_reached_after_first(step, first, script(next, codec, user, (steps - 1) as nat));
    }
}

} // verus!
