//! What holds of every run of an engine, whatever the driver reports.
//!
//! A run is an opening step and the events the driver answered with, in
//! order. Every statement here is made for all sequences of events, so it
//! holds of every codec and of every user.

use crate::engine::Engine;
use crate::fallback::{Fallback, FallbackPhase, MAX_RESIZE_PROBES, MAX_SCALE, MIN_SCALE};
use crate::jpeg::{rung_target, JpegEngine, JpegPhase, RUNGS};
use crate::pdf::{dpi_range, PdfEngine, PdfPhase, MAX_DPI_PROBES};
use crate::png::{PngPhase, MAX_QUALITY, MAX_QUANTIZE_PROBES, MIN_QUALITY};
use crate::protocol::{
    Action, Algorithm, CompressionRequest, Event, Failure, FallbackStage, Format, Invocation,
    Outcome, Prompt, Tool,
};
use vstd::prelude::*;

verus! {

/// The state and the action a run stands at after the driver has answered
/// with `events`, one for each action it was handed.
pub open spec fn reached(start: (Engine, Action), events: Seq<Event>) -> (Engine, Action)
    decreases events.len(),
{
    if events.len() == 0 {
        start
    } else {
        reached(start, events.drop_last()).0.advanced(events.last())
    }
}

/// `action` calls a codec for the given stage of the waterfall.
pub open spec fn invokes(action: Action, stage: FallbackStage) -> bool {
    action matches Action::Invoke(i) && i.stage() == Some(stage)
}

/// `action` calls a codec.
pub open spec fn calls_codec(action: Action) -> bool {
    action is Invoke
}

/// Before the action the run now stands at, it handed out a codec call for
/// the given stage.
pub open spec fn attempted(start: (Engine, Action), events: Seq<Event>, stage: FallbackStage) -> bool
    decreases events.len(),
{
    events.len() > 0 && (attempted(start, events.drop_last(), stage) || invokes(
        reached(start, events.drop_last()).1,
        stage,
    ))
}

/// Every state a run reaches is one its engine can be in, and the action it
/// hands out is the one that state waits for.
pub proof fn lemma_run_is_well_formed(
    format: Format,
    request: CompressionRequest,
    events: Seq<Event>,
)
    ensures
        reached(Engine::begun(format, request), events).0.wf(format, request),
        reached(Engine::begun(format, request), events).1 == reached(
            Engine::begun(format, request),
            events,
        ).0.awaited(),
        reached(Engine::begun(format, request), events).0.steps_left() + events.len()
            <= Engine::max_steps(format) || reached(
            Engine::begun(format, request),
            events,
        ).0.steps_left() == 0,
    decreases events.len(),
{
    if events.len() == 0 {
        Engine::lemma_begun(format, request);
    } else {
        lemma_run_is_well_formed(format, request, events.drop_last());
        reached(Engine::begun(format, request), events.drop_last()).0.lemma_advanced(
            format,
            request,
            events.last(),
        );
    }
}

/// Every run is over within a fixed number of events: 22 for a PNG, 15 for
/// a JPEG, 16 for a PDF. So no run makes more codec calls than that.
pub proof fn lemma_run_ends(format: Format, request: CompressionRequest, events: Seq<Event>)
    requires
        events.len() >= Engine::max_steps(format),
    ensures
        reached(Engine::begun(format, request), events).1 is Finish,
{
    lemma_run_is_well_formed(format, request, events);
}

/// `Finish` is final: once a run has handed it out, it hands out the same
/// outcome whatever the driver reports next.
pub proof fn lemma_finish_is_final(
    format: Format,
    request: CompressionRequest,
    events: Seq<Event>,
    more: Seq<Event>,
)
    requires
        reached(Engine::begun(format, request), events).1 is Finish,
    ensures
        reached(Engine::begun(format, request), events + more) == reached(
            Engine::begun(format, request),
            events,
        ),
    decreases more.len(),
{
    let start = Engine::begun(format, request);
    lemma_run_is_well_formed(format, request, events);
    if more.len() > 0 {
        lemma_finish_is_final(format, request, events, more.drop_last());
        assert((events + more).drop_last() =~= events + more.drop_last());
        reached(start, events).0.lemma_advanced(format, request, more.last());
    }
}

/// Where the request takes every question as answered, no run ever asks
/// one.
pub proof fn lemma_auto_yes_never_asks(
    format: Format,
    request: CompressionRequest,
    events: Seq<Event>,
)
    requires
        request.auto_yes,
    ensures
        !(reached(Engine::begun(format, request), events).1 is Ask),
{
    lemma_run_is_well_formed(format, request, events);
}

/// Where the target is no smaller than the input, no engine ever calls a
/// codec: the run asks whether to keep the input, or with every question
/// taken as answered keeps it at once. A yes keeps the input, a no cancels.
pub proof fn lemma_met_target_calls_no_codec(
    format: Format,
    request: CompressionRequest,
    events: Seq<Event>,
)
    requires
        request.is_met_by_original(),
    ensures
        !calls_codec(reached(Engine::begun(format, request), events).1),
        events.len() == 0 && !request.auto_yes ==> reached(
            Engine::begun(format, request),
            events,
        ).1 == Action::Ask(
            Prompt::KeepOriginal {
                original_kb: request.original_kb,
                target_kb: request.target_kb->0,
            },
        ),
        request.auto_yes ==> reached(Engine::begun(format, request), events).1 == Action::Finish(
            Engine::original_kept(request),
        ),
        events.len() > 0 && !request.auto_yes ==> reached(Engine::begun(format, request), events).1
            == Action::Finish(
            match events[0] {
                Event::Answered { yes } => if yes {
                    Engine::original_kept(request)
                } else {
                    Outcome::Failed(Failure::CancelledByUser)
                },
                Event::Ran { .. } => Outcome::Failed(Failure::UnexpectedEvent),
            },
        ),
    decreases events.len(),
{
    lemma_run_is_well_formed(format, request, events);
    if events.len() > 0 {
        lemma_met_target_calls_no_codec(format, request, events.drop_last());
    }
}

/// Every outcome is true to the request: a file reported as meeting the
/// target is no larger than the target, a rung of the ladder is no larger
/// than its own extent, the floor is kept only where it lies above the
/// target, and the input is kept only where nothing was gained.
pub proof fn lemma_outcome_honours_request(
    format: Format,
    request: CompressionRequest,
    events: Seq<Event>,
)
    ensures
        reached(Engine::begun(format, request), events).1 matches Action::Finish(outcome)
            ==> outcome.honours(request),
{
    lemma_run_is_well_formed(format, request, events);
}

/// What can have made a run fail: a refusal, a failed pass that nothing can
/// stand in for, or an event of the wrong kind.
pub open spec fn explains(action: Action, event: Event, failure: Failure) -> bool {
    match failure {
        Failure::CancelledByUser => {
            &&& action matches Action::Ask(Prompt::KeepOriginal { .. })
            &&& event == (Event::Answered { yes: false })
        },
        Failure::Cancelled => {
            &&& event == (Event::Answered { yes: false })
            &&& action matches Action::Ask(p) && (p is SaveSmallest || p is SaveFloor)
        },
        Failure::ToolFailed(tool) => {
            &&& event matches Event::Ran { success: false, .. }
            &&& action matches Action::Invoke(i) && match tool {
                Tool::Oxipng => i is StripMetadata,
                Tool::ImageMagick => i is LossyExtent || i is LossyQuality,
                Tool::Ghostscript => i matches Invocation::Render { dpi: None, .. },
            }
        },
        Failure::UnexpectedEvent => !action.accepts(event),
    }
}

proof fn lemma_fallback_failure_explained(fallback: Fallback, event: Event)
    requires
        fallback.wf(),
        !(fallback.awaited() is Finish),
    ensures
        fallback.advanced(event).1 matches Action::Finish(Outcome::Failed(failure)) ==> explains(
            fallback.awaited(),
            event,
            failure,
        ),
{
}

proof fn lemma_step_failure_explained(
    engine: Engine,
    format: Format,
    request: CompressionRequest,
    event: Event,
)
    requires
        engine.wf(format, request),
        !(engine.awaited() is Finish),
    ensures
        engine.advanced(event).1 matches Action::Finish(Outcome::Failed(failure)) ==> explains(
            engine.awaited(),
            event,
            failure,
        ),
{
    match engine {
        Engine::Png { png } => {
            if let PngPhase::Falling { fallback } = png.phase {
                lemma_fallback_failure_explained(fallback, event);
            }
        },
        Engine::Jpeg { jpeg } => {
            if let JpegPhase::Falling { fallback } = jpeg.phase {
                lemma_fallback_failure_explained(fallback, event);
            }
        },
        _ => {},
    }
}

/// A run fails only for a reason: the user refused to keep the original,
/// the floor or the smallest attempt; or the strip, the one lossy pass or a
/// render with a preset failed; or the driver answered out of turn. A failed
/// probe of a search, a failed grayscale and a failed rung never end a run.
pub proof fn lemma_failure_is_explained(
    format: Format,
    request: CompressionRequest,
    events: Seq<Event>,
)
    requires
        events.len() > 0,
        !(reached(Engine::begun(format, request), events.drop_last()).1 is Finish),
    ensures
        reached(Engine::begun(format, request), events).1 matches Action::Finish(
            Outcome::Failed(failure),
        ) ==> explains(
            reached(Engine::begun(format, request), events.drop_last()).1,
            events.last(),
            failure,
        ),
{
    lemma_run_is_well_formed(format, request, events.drop_last());
    lemma_step_failure_explained(
        reached(Engine::begun(format, request), events.drop_last()).0,
        format,
        request,
        events.last(),
    );
}

/// How far a saved outcome says the run went, against how far it went.
spec fn outcome_accounted(outcome: Outcome, quantized: bool, grayed: bool, resized: bool) -> bool {
    match outcome {
        Outcome::Saved { stage, .. } => match stage {
            None => !quantized && !grayed && !resized,
            Some(FallbackStage::Quantize) => quantized && !grayed && !resized,
            Some(FallbackStage::Grayscale) => grayed && !resized,
            Some(FallbackStage::Resize) => grayed && resized,
            Some(FallbackStage::BestEffort) => grayed,
        },
        Outcome::Failed(_) => true,
    }
}

spec fn fallback_accounted(fallback: Fallback, grayed: bool, resized: bool) -> bool {
    match fallback.phase {
        FallbackPhase::Graying => !grayed && !resized,
        FallbackPhase::Resizing { .. } => grayed,
        FallbackPhase::Polishing { .. } => grayed && resized,
        FallbackPhase::ConfirmSmallest { .. } => grayed && resized,
        FallbackPhase::Finished { outcome } => outcome_accounted(outcome, false, grayed, resized)
            || outcome_accounted(outcome, true, grayed, resized),
        _ => grayed && !resized,
    }
}

/// The stages a run has called for so far are those its state has passed.
spec fn accounted(engine: Engine, quantized: bool, grayed: bool, resized: bool) -> bool {
    match engine {
        Engine::Png { png } => match png.phase {
            PngPhase::Stripping => !quantized && !grayed && !resized,
            PngPhase::Quantizing { .. } => !grayed && !resized,
            PngPhase::Polishing { .. } => quantized && !grayed && !resized,
            PngPhase::Falling { fallback } => quantized && fallback_accounted(
                fallback,
                grayed,
                resized,
            ),
            PngPhase::Finished { outcome } => outcome_accounted(
                outcome,
                quantized,
                grayed,
                resized,
            ) && !grayed && !resized,
        },
        Engine::Jpeg { jpeg } => !quantized && match jpeg.phase {
            JpegPhase::Falling { fallback } => fallback_accounted(fallback, grayed, resized),
            _ => !grayed && !resized,
        },
        _ => !quantized && !grayed && !resized,
    }
}

proof fn lemma_fallback_stays_accounted(fallback: Fallback, event: Event, grayed: bool, resized: bool)
    requires
        fallback.wf(),
        fallback_accounted(fallback, grayed, resized),
    ensures
        fallback_accounted(
            fallback.advanced(event).0,
            grayed || invokes(fallback.awaited(), FallbackStage::Grayscale),
            resized || invokes(fallback.awaited(), FallbackStage::Resize),
        ),
        !invokes(fallback.awaited(), FallbackStage::Quantize),
{
}

proof fn lemma_stays_accounted(
    engine: Engine,
    format: Format,
    request: CompressionRequest,
    event: Event,
    quantized: bool,
    grayed: bool,
    resized: bool,
)
    requires
        engine.wf(format, request),
        accounted(engine, quantized, grayed, resized),
    ensures
        accounted(
            engine.advanced(event).0,
            quantized || invokes(engine.awaited(), FallbackStage::Quantize),
            grayed || invokes(engine.awaited(), FallbackStage::Grayscale),
            resized || invokes(engine.awaited(), FallbackStage::Resize),
        ),
{
    match engine {
        Engine::Png { png } => {
            if let PngPhase::Falling { fallback } = png.phase {
                lemma_fallback_stays_accounted(fallback, event, grayed, resized);
            }
        },
        Engine::Jpeg { jpeg } => {
            if let JpegPhase::Falling { fallback } = jpeg.phase {
                lemma_fallback_stays_accounted(fallback, event, grayed, resized);
            }
        },
        _ => {},
    }
}

proof fn lemma_accounted(format: Format, request: CompressionRequest, events: Seq<Event>)
    ensures
        accounted(
            reached(Engine::begun(format, request), events).0,
            attempted(Engine::begun(format, request), events, FallbackStage::Quantize),
            attempted(Engine::begun(format, request), events, FallbackStage::Grayscale),
            attempted(Engine::begun(format, request), events, FallbackStage::Resize),
        ),
    decreases events.len(),
{
    let start = Engine::begun(format, request);
    if events.len() > 0 {
        let before = events.drop_last();
        lemma_accounted(format, request, before);
        lemma_run_is_well_formed(format, request, before);
        lemma_stays_accounted(
            reached(start, before).0,
            format,
            request,
            events.last(),
            attempted(start, before, FallbackStage::Quantize),
            attempted(start, before, FallbackStage::Grayscale),
            attempted(start, before, FallbackStage::Resize),
        );
    }
}

/// The order of the waterfall is fixed. A PNG run calls for grayscale only
/// after it has called for quantization, and any run calls for a resize only
/// after it has called for grayscale.
pub proof fn lemma_waterfall_order(format: Format, request: CompressionRequest, events: Seq<Event>)
    ensures
        format is Png && invokes(
            reached(Engine::begun(format, request), events).1,
            FallbackStage::Grayscale,
        ) ==> attempted(Engine::begun(format, request), events, FallbackStage::Quantize),
        invokes(reached(Engine::begun(format, request), events).1, FallbackStage::Resize)
            ==> attempted(Engine::begun(format, request), events, FallbackStage::Grayscale),
        format is Png && invokes(
            reached(Engine::begun(format, request), events).1,
            FallbackStage::Resize,
        ) ==> attempted(Engine::begun(format, request), events, FallbackStage::Quantize),
{
    lemma_accounted(format, request, events);
    lemma_run_is_well_formed(format, request, events);
}

/// The stage a saved outcome names is how far down the waterfall the run
/// went: no stage where no fallback was called for, `Quantize` where only
/// quantization was, `Grayscale` where grayscale was and no resize,
/// `Resize` where both were, and `BestEffort` only after grayscale.
pub proof fn lemma_stage_tells_descent(
    format: Format,
    request: CompressionRequest,
    events: Seq<Event>,
)
    ensures
        reached(Engine::begun(format, request), events).1 matches Action::Finish(
            Outcome::Saved { stage, .. },
        ) ==> {
            let quantized = attempted(
                Engine::begun(format, request),
                events,
                FallbackStage::Quantize,
            );
            let grayed = attempted(
                Engine::begun(format, request),
                events,
                FallbackStage::Grayscale,
            );
            let resized = attempted(Engine::begun(format, request), events, FallbackStage::Resize);
            match stage {
                None => !quantized && !grayed && !resized,
                Some(FallbackStage::Quantize) => quantized && !grayed && !resized,
                Some(FallbackStage::Grayscale) => grayed && !resized,
                Some(FallbackStage::Resize) => grayed && resized,
                Some(FallbackStage::BestEffort) => grayed,
            }
        },
{
    lemma_accounted(format, request, events);
    lemma_run_is_well_formed(format, request, events);
}

/// `action` is a probe of the search that belongs to `stage`: a
/// quantization, a resize, or, for no stage, a render at a resolution.
pub open spec fn probes(action: Action, stage: Option<FallbackStage>) -> bool {
    action matches Action::Invoke(i) && match stage {
        Some(FallbackStage::Quantize) => i is Quantize,
        Some(FallbackStage::Resize) => i is Resize,
        None => i matches Invocation::Render { dpi: Some(_), .. },
        _ => false,
    }
}

/// How many probes of the search of `stage` a run handed out before the
/// action it now stands at.
pub open spec fn probes_made(
    start: (Engine, Action),
    events: Seq<Event>,
    stage: Option<FallbackStage>,
) -> nat
    decreases events.len(),
{
    if events.len() == 0 {
        0
    } else {
        probes_made(start, events.drop_last(), stage) + if probes(
            reached(start, events.drop_last()).1,
            stage,
        ) {
            1nat
        } else {
            0nat
        }
    }
}

spec fn fallback_within_budget(fallback: Fallback, resizes: nat) -> bool {
    match fallback.phase {
        FallbackPhase::Resizing { probing, .. } => resizes + probing.search.range.probes_left
            <= MAX_RESIZE_PROBES,
        FallbackPhase::Polishing { .. } => resizes <= MAX_RESIZE_PROBES,
        FallbackPhase::ConfirmSmallest { .. } => resizes <= MAX_RESIZE_PROBES,
        FallbackPhase::Finished { .. } => resizes <= MAX_RESIZE_PROBES,
        _ => resizes == 0,
    }
}

/// The probes handed out so far and the probes the state still allows stay
/// within the budget of each search.
spec fn within_budget(engine: Engine, quantizes: nat, resizes: nat, renders: nat) -> bool {
    match engine {
        Engine::Png { png } => renders == 0 && match png.phase {
            PngPhase::Stripping => quantizes == 0 && resizes == 0,
            PngPhase::Quantizing { probing, .. } => resizes == 0 && quantizes
                + probing.search.range.probes_left <= MAX_QUANTIZE_PROBES,
            PngPhase::Falling { fallback } => quantizes <= MAX_QUANTIZE_PROBES
                && fallback_within_budget(fallback, resizes),
            _ => quantizes <= MAX_QUANTIZE_PROBES && resizes == 0,
        },
        Engine::Jpeg { jpeg } => quantizes == 0 && renders == 0 && match jpeg.phase {
            JpegPhase::Falling { fallback } => fallback_within_budget(fallback, resizes),
            _ => resizes == 0,
        },
        Engine::Pdf { pdf } => quantizes == 0 && resizes == 0 && match pdf.phase {
            PdfPhase::Rendering { .. } => renders == 0,
            PdfPhase::FloorCheck { .. } => renders == 0,
            PdfPhase::ConfirmFloor { .. } => renders == 0,
            PdfPhase::Searching { probing, .. } => renders + probing.search.range.probes_left
                <= MAX_DPI_PROBES,
            _ => renders <= MAX_DPI_PROBES,
        },
        _ => quantizes == 0 && resizes == 0 && renders == 0,
    }
}

proof fn lemma_fallback_stays_within_budget(fallback: Fallback, event: Event, resizes: nat)
    requires
        fallback.wf(),
        fallback_within_budget(fallback, resizes),
    ensures
        fallback_within_budget(
            fallback.advanced(event).0,
            resizes + if probes(fallback.awaited(), Some(FallbackStage::Resize)) {
                1nat
            } else {
                0nat
            },
        ),
        !probes(fallback.awaited(), Some(FallbackStage::Quantize)),
        !probes(fallback.awaited(), None),
{
    if let FallbackPhase::Resizing { probing, .. } = fallback.phase {
        if let Event::Ran { success, size_kb } = event {
            probing.lemma_observed_wf(
                MIN_SCALE,
                MAX_SCALE,
                MAX_RESIZE_PROBES,
                fallback.plan.target_kb,
                size_kb,
                success,
            );
        }
    }
}

proof fn lemma_stays_within_budget(
    engine: Engine,
    format: Format,
    request: CompressionRequest,
    event: Event,
    quantizes: nat,
    resizes: nat,
    renders: nat,
)
    requires
        engine.wf(format, request),
        within_budget(engine, quantizes, resizes, renders),
    ensures
        within_budget(
            engine.advanced(event).0,
            quantizes + if probes(engine.awaited(), Some(FallbackStage::Quantize)) {
                1nat
            } else {
                0nat
            },
            resizes + if probes(engine.awaited(), Some(FallbackStage::Resize)) {
                1nat
            } else {
                0nat
            },
            renders + if probes(engine.awaited(), None) {
                1nat
            } else {
                0nat
            },
        ),
{
    match engine {
        Engine::Png { png } => {
            match png.phase {
                PngPhase::Falling { fallback } => {
                    lemma_fallback_stays_within_budget(fallback, event, resizes);
                },
                PngPhase::Quantizing { probing, .. } => {
                    if let Event::Ran { success, size_kb } = event {
                        probing.lemma_observed_wf(
                            MIN_QUALITY,
                            MAX_QUALITY,
                            MAX_QUANTIZE_PROBES,
                            request.target_kb->0,
                            size_kb,
                            success,
                        );
                    }
                },
                _ => {},
            }
        },
        Engine::Jpeg { jpeg } => {
            if let JpegPhase::Falling { fallback } = jpeg.phase {
                lemma_fallback_stays_within_budget(fallback, event, resizes);
            }
        },
        Engine::Pdf { pdf } => {
            if let PdfPhase::Searching { probing, .. } = pdf.phase {
                if let Event::Ran { success, size_kb } = event {
                    let t = request.target_kb->0;
                    probing.lemma_observed_wf(
                        dpi_range(request.original_kb, t).0,
                        dpi_range(request.original_kb, t).1,
                        MAX_DPI_PROBES,
                        t,
                        size_kb,
                        success,
                    );
                }
            }
        },
        _ => {},
    }
}

proof fn lemma_within_budget(format: Format, request: CompressionRequest, events: Seq<Event>)
    ensures
        within_budget(
            reached(Engine::begun(format, request), events).0,
            probes_made(Engine::begun(format, request), events, Some(FallbackStage::Quantize)),
            probes_made(Engine::begun(format, request), events, Some(FallbackStage::Resize)),
            probes_made(Engine::begun(format, request), events, None),
        ),
    decreases events.len(),
{
    let start = Engine::begun(format, request);
    if events.len() > 0 {
        let before = events.drop_last();
        lemma_within_budget(format, request, before);
        lemma_run_is_well_formed(format, request, before);
        lemma_stays_within_budget(
            reached(start, before).0,
            format,
            request,
            events.last(),
            probes_made(start, before, Some(FallbackStage::Quantize)),
            probes_made(start, before, Some(FallbackStage::Resize)),
            probes_made(start, before, None),
        );
    }
}

/// No search outruns its budget: whatever the codec answers, a run hands
/// out at most 8 quantizations, at most 8 resizes, and at most 14 renders
/// at a chosen resolution, the one it stands at included.
pub proof fn lemma_probes_stay_within_budget(
    format: Format,
    request: CompressionRequest,
    events: Seq<Event>,
)
    ensures
        probes_made(Engine::begun(format, request), events, Some(FallbackStage::Quantize)) + (
        if probes(
            reached(Engine::begun(format, request), events).1,
            Some(FallbackStage::Quantize),
        ) {
            1nat
        } else {
            0nat
        }) <= MAX_QUANTIZE_PROBES,
        probes_made(Engine::begun(format, request), events, Some(FallbackStage::Resize)) + (
        if probes(reached(Engine::begun(format, request), events).1, Some(FallbackStage::Resize)) {
            1nat
        } else {
            0nat
        }) <= MAX_RESIZE_PROBES,
        probes_made(Engine::begun(format, request), events, None) + (if probes(
            reached(Engine::begun(format, request), events).1,
            None,
        ) {
            1nat
        } else {
            0nat
        }) <= MAX_DPI_PROBES,
{
    lemma_within_budget(format, request, events);
    lemma_run_is_well_formed(format, request, events);
}

/// A PDF whose floor is above the target is never searched: after the floor
/// render no codec is called again. The run goes straight to the question
/// whether to keep the floor, or with every question taken as answered
/// keeps it at once; and the only file it ever saves is the floor.
pub proof fn lemma_floor_above_target_skips_search(
    request: CompressionRequest,
    floor_kb: u64,
    events: Seq<Event>,
)
    requires
        request.target_kb matches Some(t) && t < request.original_kb && floor_kb > t,
        events.len() > 0,
        events[0] == (Event::Ran { success: true, size_kb: floor_kb }),
    ensures
        !calls_codec(reached(Engine::begun(Format::Pdf, request), events).1),
        reached(Engine::begun(Format::Pdf, request), events.take(1)).1 == if request.auto_yes {
            Action::Finish(PdfEngine::floor_kept(floor_kb))
        } else {
            Action::Ask(Prompt::SaveFloor { floor_kb, target_kb: request.target_kb->0 })
        },
        reached(Engine::begun(Format::Pdf, request), events).1 matches Action::Finish(
            Outcome::Saved { artifact, .. },
        ) ==> reached(Engine::begun(Format::Pdf, request), events).1 == Action::Finish(
            PdfEngine::floor_kept(floor_kb),
        ),
{
    lemma_unreachable_floor(request, floor_kb, events);
    let start = Engine::begun(Format::Pdf, request);
    let first = events.take(1);
    assert(reached(start, first.drop_last()) == start);
}

proof fn lemma_unreachable_floor(request: CompressionRequest, floor_kb: u64, events: Seq<Event>)
    requires
        request.target_kb matches Some(t) && t < request.original_kb && floor_kb > t,
        events.len() > 0,
        events[0] == (Event::Ran { success: true, size_kb: floor_kb }),
    ensures
        match reached(Engine::begun(Format::Pdf, request), events) {
            (Engine::Pdf { pdf }, action) => match pdf.phase {
                PdfPhase::ConfirmFloor { floor_kb: f, .. } => f == floor_kb && action is Ask
                    && pdf.request == request,
                PdfPhase::Finished { outcome } => action == Action::Finish(outcome) && (
                outcome is Saved ==> outcome == PdfEngine::floor_kept(floor_kb)),
                _ => false,
            },
            _ => false,
        },
    decreases events.len(),
{
    if events.len() == 1 {
        assert(events.drop_last() =~= Seq::<Event>::empty());
    } else {
        lemma_unreachable_floor(request, floor_kb, events.drop_last());
    }
}

/// The codec call for rung `rung` of the ladder was answered with an output
/// no larger than the extent of that rung. The first event of a JPEG run
/// answers the lossless pass; the event after it answers rung 0.
pub open spec fn rung_held(original_kb: u64, events: Seq<Event>, rung: int) -> bool {
    &&& 0 <= rung < RUNGS
    &&& rung + 1 < events.len()
    &&& events[rung + 1] matches Event::Ran { success: true, size_kb } && size_kb <= rung_target(
        original_kb,
        rung as u64,
    )
}

spec fn laddered(request: CompressionRequest, jpeg: JpegEngine, events: Seq<Event>) -> bool {
    match jpeg.phase {
        JpegPhase::Optimizing => events.len() == 0,
        JpegPhase::Climbing { rung, .. } => events.len() == rung + 1 && forall|j: int|
            0 <= j < rung ==> !#[trigger] rung_held(request.original_kb, events, j),
        JpegPhase::Finished { outcome } => match outcome {
            Outcome::Saved { algorithm: Algorithm::StandardPreset { target_kb }, size_kb, .. } => {
                exists|rung: int| #[trigger]
                    first_to_hold(request.original_kb, events, rung, target_kb, size_kb)
            },
            Outcome::Saved { algorithm: Algorithm::NoReduction, .. } => events.len() > RUNGS
                && forall|j: int|
                0 <= j < RUNGS ==> !#[trigger] rung_held(request.original_kb, events, j),
            _ => true,
        },
        _ => true,
    }
}

/// Rung `rung` held with an output of `size_kb` KB, its extent is
/// `target_kb`, and no rung before it held.
pub open spec fn first_to_hold(
    original_kb: u64,
    events: Seq<Event>,
    rung: int,
    target_kb: u64,
    size_kb: u64,
) -> bool {
    &&& rung_held(original_kb, events, rung)
    &&& target_kb == rung_target(original_kb, rung as u64)
    &&& events[rung + 1] == (Event::Ran { success: true, size_kb })
    &&& forall|j: int| 0 <= j < rung ==> !#[trigger] rung_held(original_kb, events, j)
}

proof fn lemma_laddered(request: CompressionRequest, events: Seq<Event>)
    requires
        request.target_kb is None,
        request.level is None,
    ensures
        reached(Engine::begun(Format::Jpeg, request), events).0 matches Engine::Jpeg { jpeg }
            && laddered(request, jpeg, events),
    decreases events.len(),
{
    let start = Engine::begun(Format::Jpeg, request);
    if events.len() > 0 {
        let before = events.drop_last();
        lemma_laddered(request, before);
        lemma_run_is_well_formed(Format::Jpeg, request, before);
        let prev = reached(start, before).0->jpeg;
        let now = reached(start, events).0->jpeg;
        assert forall|j: int|
            0 <= j < RUNGS && j + 1 < before.len() implies #[trigger] rung_held(
            request.original_kb,
            events,
            j,
        ) == rung_held(request.original_kb, before, j) by {}
        match prev.phase {
            JpegPhase::Climbing { rung, .. } => {
                JpegEngine::lemma_rung_target_bounded(request.original_kb, rung);
                match now.phase {
                    JpegPhase::Finished {
                        outcome: Outcome::Saved {
                            algorithm: Algorithm::StandardPreset { target_kb },
                            size_kb,
                            ..
                        },
                    } => {
                        assert(first_to_hold(
                            request.original_kb,
                            events,
                            rung as int,
                            target_kb,
                            size_kb,
                        ));
                    },
                    _ => {},
                }
            },
            JpegPhase::Finished { outcome } => {
                match outcome {
                    Outcome::Saved {
                        algorithm: Algorithm::StandardPreset { target_kb },
                        size_kb,
                        ..
                    } => {
                        let rung = choose|rung: int| #[trigger]
                            first_to_hold(request.original_kb, before, rung, target_kb, size_kb);
                        assert(first_to_hold(request.original_kb, events, rung, target_kb, size_kb));
                    },
                    _ => {},
                }
            },
            _ => {},
        }
    }
}

/// The ladder of a JPEG run without target or level keeps the output of the
/// first rung that held, and names the extent of that rung. It keeps the
/// original only where all eight rungs were tried and none held.
pub proof fn lemma_ladder_keeps_first_rung_that_holds(
    request: CompressionRequest,
    events: Seq<Event>,
)
    requires
        request.target_kb is None,
        request.level is None,
    ensures
        reached(Engine::begun(Format::Jpeg, request), events).1 matches Action::Finish(
            Outcome::Saved { algorithm: Algorithm::StandardPreset { target_kb }, size_kb, .. },
        ) ==> exists|rung: int| #[trigger]
            first_to_hold(request.original_kb, events, rung, target_kb, size_kb),
        reached(Engine::begun(Format::Jpeg, request), events).1 matches Action::Finish(
            Outcome::Saved { algorithm: Algorithm::NoReduction, .. },
        ) ==> events.len() > RUNGS && forall|j: int|
            0 <= j < RUNGS ==> !#[trigger] rung_held(request.original_kb, events, j),
{
    lemma_laddered(request, events);
    lemma_run_is_well_formed(Format::Jpeg, request, events);
}

} // verus!
