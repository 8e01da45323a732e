//! What the files of a run hold, and that a run keeps the file it says it
//! keeps.
//!
//! The model: a codec call that succeeds leaves its output in the file it
//! writes, a call that fails leaves that file as it was, and the final
//! repack changes a file without making it another one.

use crate::engine::Engine;
use crate::fallback::{Fallback, FallbackPhase, MAX_RESIZE_PROBES, MAX_SCALE, MIN_SCALE};
use crate::jpeg::{JpegEngine, JpegPhase};
use crate::pdf::{dpi_range, PdfEngine, PdfPhase, MAX_DPI_PROBES};
use crate::png::{PngEngine, PngPhase, MAX_QUALITY, MAX_QUANTIZE_PROBES, MIN_QUALITY};
use crate::probing::Probing;
use crate::protocol::{
    Action, Algorithm, Artifact, CompressionRequest, Event, Format, Invocation, Outcome, Preset,
    Slot,
};
use crate::runs::{lemma_run_is_well_formed, reached};
use vstd::prelude::*;

verus! {

/// The files after `action` was answered with `event`: a codec call that
/// succeeded, other than the repack, is now what its output file holds.
pub open spec fn after_call(
    files: Map<Artifact, (Invocation, u64)>,
    action: Action,
    event: Event,
) -> Map<Artifact, (Invocation, u64)> {
    match (action, event) {
        (Action::Invoke(i), Event::Ran { success, size_kb }) => if success && !(i is Polish) {
            files.insert(i.output(), (i, size_kb))
        } else {
            files
        },
        _ => files,
    }
}

/// For each file written so far in a run, the codec call that last wrote it
/// and the size the driver reported for it.
pub open spec fn files_of(start: (Engine, Action), events: Seq<Event>) -> Map<
    Artifact,
    (Invocation, u64),
>
    decreases events.len(),
{
    if events.len() == 0 {
        Map::empty()
    } else {
        after_call(
            files_of(start, events.drop_last()),
            reached(start, events.drop_last()).1,
            events.last(),
        )
    }
}

/// `artifact` is the input, or a file of `size_kb` KB.
pub open spec fn holds(files: Map<Artifact, (Invocation, u64)>, artifact: Artifact, size_kb: u64) -> bool {
    artifact.is_temporary() ==> {
        &&& files.dom().contains(artifact)
        &&& files[artifact].1 == size_kb
        &&& files[artifact].0.output() == artifact
    }
}

/// `artifact` is the file of `size_kb` KB that `invocation` wrote.
pub open spec fn made_by(
    files: Map<Artifact, (Invocation, u64)>,
    artifact: Artifact,
    invocation: Invocation,
    size_kb: u64,
) -> bool {
    files.dom().contains(artifact) && files[artifact] == (invocation, size_kb)
}

impl Algorithm {
    /// The codec call that an algorithm is the name of. A best effort may be
    /// the output of any call.
    pub open spec fn names(self, invocation: Invocation) -> bool {
        match self {
            Algorithm::NoCompression | Algorithm::NoReduction => false,
            Algorithm::PngLossless => invocation is StripMetadata,
            Algorithm::PngHybrid { quality } => invocation matches Invocation::Quantize {
                min_quality,
                max_quality,
                ..
            } && min_quality == quality && max_quality == MAX_QUALITY,
            Algorithm::Grayscale { .. } => invocation is Grayscale,
            Algorithm::Resized { scale_percent, .. } => invocation matches Invocation::Resize {
                scale_percent: s,
                ..
            } && s == scale_percent,
            Algorithm::BestEffortColor { .. }
            | Algorithm::BestEffort { .. }
            | Algorithm::SmallestResize { .. } => true,
            Algorithm::StandardPreset { target_kb } => invocation matches Invocation::LossyExtent {
                extent_kb,
                ..
            } && extent_kb == target_kb,
            Algorithm::JpegLossless => invocation is LosslessOptimize,
            Algorithm::JpegLossy => invocation is LossyExtent || invocation is LossyQuality,
            Algorithm::SmartCompression { preset } => invocation matches Invocation::Render {
                preset: p,
                dpi,
                ..
            } && p == Some(preset) && dpi is None,
            Algorithm::Floor | Algorithm::FallbackScreen => invocation matches Invocation::Render {
                preset,
                dpi,
                ..
            } && preset == Some(Preset::Screen) && dpi is None,
            Algorithm::BinarySearch { dpi } => invocation matches Invocation::Render {
                dpi: d,
                ..
            } && d == Some(dpi),
        }
    }
}

impl Outcome {
    /// The file a saved outcome keeps is the input, or a file that holds
    /// the output of the codec call its algorithm names, of the size that
    /// the outcome reports.
    pub open spec fn backed_by(self, files: Map<Artifact, (Invocation, u64)>) -> bool {
        match self {
            Outcome::Saved { artifact, algorithm, size_kb, .. } => artifact.is_temporary() ==> {
                &&& files.dom().contains(artifact)
                &&& files[artifact].1 == size_kb
                &&& files[artifact].0.output() == artifact
                &&& algorithm.names(files[artifact].0)
            },
            Outcome::Failed(_) => true,
        }
    }
}

impl Probing {
    /// The best probe lies in its slot, and so does the spare output.
    /// `place` says which file a slot is, `call` which codec call probes a
    /// knob into a slot.
    pub open spec fn backed(
        self,
        files: Map<Artifact, (Invocation, u64)>,
        place: spec_fn(Slot) -> Artifact,
        call: spec_fn(u64, Slot) -> Invocation,
    ) -> bool {
        &&& self.search.best matches Some(c) ==> made_by(
            files,
            place(self.best_slot),
            call(c.knob, self.best_slot),
            c.size_kb,
        )
        &&& self.spare_kb matches Some(s) ==> self.search.best is None && files.dom().contains(
            place(Slot::A),
        ) && files[place(Slot::A)].1 == s && files[place(Slot::A)].0.output() == place(Slot::A)
    }

    /// A probe is written to the scratch slot, so the best output so far is
    /// never written over.
    pub proof fn lemma_observed_backed(
        self,
        files: Map<Artifact, (Invocation, u64)>,
        place: spec_fn(Slot) -> Artifact,
        call: spec_fn(u64, Slot) -> Invocation,
        size_kb: u64,
        success: bool,
    )
        requires
            self.pending() is Some,
            self.backed(files, place, call),
            place(Slot::A) != place(Slot::B),
            forall|k: u64, s: Slot|
                (#[trigger] call(k, s)).output() == place(s) && !(call(k, s) is Polish),
        ensures
            self.observed(size_kb, success).backed(
                after_call(
                    files,
                    Action::Invoke(call(self.search.range.midpoint(), self.scratch())),
                    Event::Ran { success, size_kb },
                ),
                place,
                call,
            ),
    {
        let probe = call(self.search.range.midpoint(), self.scratch());
        assert(probe.output() == place(self.scratch()));
    }
}

impl Fallback {
    pub open spec fn resize_place() -> spec_fn(Slot) -> Artifact {
        |slot: Slot| Artifact::Resized(slot)
    }

    pub open spec fn resize_call(base: Artifact) -> spec_fn(u64, Slot) -> Invocation {
        |scale: u64, slot: Slot|
            Invocation::Resize { input: base, scale_percent: scale, output: Artifact::Resized(slot) }
    }

    /// Every file the fallbacks remember is there, with the size they
    /// remember.
    pub open spec fn backed(self, files: Map<Artifact, (Invocation, u64)>) -> bool {
        &&& holds(files, self.plan.color, self.plan.color_kb)
        &&& holds(files, self.plan.candidate, self.plan.candidate_kb)
        &&& !(self.plan.color is Gray) && !(self.plan.color is Resized)
        &&& !(self.plan.candidate is Gray) && !(self.plan.candidate is Resized)
        &&& match self.phase {
            FallbackPhase::Graying => true,
            FallbackPhase::ConfirmGrayscale { gray_kb } => made_by(
                files,
                Artifact::Gray,
                Invocation::Grayscale { input: self.plan.color },
                gray_kb,
            ),
            FallbackPhase::ConfirmGrayResize { gray_kb } => made_by(
                files,
                Artifact::Gray,
                Invocation::Grayscale { input: self.plan.color },
                gray_kb,
            ),
            FallbackPhase::ConfirmColorResize => true,
            FallbackPhase::ConfirmResize => true,
            FallbackPhase::Resizing { base, base_kb, probing } => {
                &&& holds(files, base, base_kb)
                &&& !(base is Resized)
                &&& probing.backed(files, Self::resize_place(), Self::resize_call(base))
            },
            FallbackPhase::Polishing { outcome } => outcome.backed_by(files),
            FallbackPhase::ConfirmSmallest { artifact, size_kb } => holds(files, artifact, size_kb),
            FallbackPhase::Finished { outcome } => outcome.backed_by(files),
        }
    }

    pub proof fn lemma_advanced_backed(
        self,
        files: Map<Artifact, (Invocation, u64)>,
        event: Event,
    )
        requires
            self.wf(),
            self.backed(files),
        ensures
            self.advanced(event).0.backed(after_call(files, self.awaited(), event)),
    {
        match self.phase {
            FallbackPhase::Resizing { base, base_kb, probing } => {
                if let Event::Ran { success, size_kb } = event {
                    probing.lemma_observed_backed(
                        files,
                        Self::resize_place(),
                        Self::resize_call(base),
                        size_kb,
                        success,
                    );
                    probing.lemma_observed_wf(
                        MIN_SCALE,
                        MAX_SCALE,
                        MAX_RESIZE_PROBES,
                        self.plan.target_kb,
                        size_kb,
                        success,
                    );
                    let next = probing.observed(size_kb, success);
                    let after = after_call(files, self.awaited(), event);
                    if next.pending() is None {
                        self.lemma_resize_concluded_backed(after, base, base_kb, next);
                    }
                }
            },
            _ => {},
        }
    }

    proof fn lemma_resize_concluded_backed(
        self,
        files: Map<Artifact, (Invocation, u64)>,
        base: Artifact,
        base_kb: u64,
        probing: Probing,
    )
        requires
            holds(files, self.plan.color, self.plan.color_kb),
            holds(files, self.plan.candidate, self.plan.candidate_kb),
            !(self.plan.color is Gray) && !(self.plan.color is Resized),
            !(self.plan.candidate is Gray) && !(self.plan.candidate is Resized),
            holds(files, base, base_kb),
            probing.backed(files, Self::resize_place(), Self::resize_call(base)),
        ensures
            self.resize_concluded(base, base_kb, probing).0.backed(files),
    {
        match probing.found() {
            Some((best, slot)) => {
            },
            None => {
            },
        }
    }
}

impl PngEngine {
    pub open spec fn quantize_place() -> spec_fn(Slot) -> Artifact {
        |slot: Slot| Artifact::Quantized(slot)
    }

    pub open spec fn quantize_call() -> spec_fn(u64, Slot) -> Invocation {
        |quality: u64, slot: Slot|
            Invocation::Quantize {
                min_quality: quality,
                max_quality: MAX_QUALITY,
                output: Artifact::Quantized(slot),
            }
    }

    /// Every file a PNG run remembers is there, with the size it remembers.
    pub open spec fn backed(self, files: Map<Artifact, (Invocation, u64)>) -> bool {
        match self.phase {
            PngPhase::Stripping => true,
            PngPhase::Quantizing { stripped_kb, probing } => {
                &&& made_by(files, Artifact::Stripped, Invocation::StripMetadata, stripped_kb)
                &&& probing.backed(files, Self::quantize_place(), Self::quantize_call())
            },
            PngPhase::Polishing { outcome } => outcome.backed_by(files),
            PngPhase::Falling { fallback } => fallback.backed(files),
            PngPhase::Finished { outcome } => outcome.backed_by(files),
        }
    }

    pub proof fn lemma_advanced_backed(
        self,
        files: Map<Artifact, (Invocation, u64)>,
        event: Event,
    )
        requires
            self.wf(),
            self.backed(files),
        ensures
            self.advanced(event).0.backed(after_call(files, self.awaited(), event)),
    {
        match self.phase {
            PngPhase::Quantizing { stripped_kb, probing } => {
                if let Event::Ran { success, size_kb } = event {
                    probing.lemma_observed_backed(
                        files,
                        Self::quantize_place(),
                        Self::quantize_call(),
                        size_kb,
                        success,
                    );
                    probing.lemma_observed_wf(
                        MIN_QUALITY,
                        MAX_QUALITY,
                        MAX_QUANTIZE_PROBES,
                        self.request.target_kb->0,
                        size_kb,
                        success,
                    );
                }
            },
            PngPhase::Falling { fallback } => {
                fallback.lemma_advanced_backed(files, event);
            },
            _ => {},
        }
    }
}

impl JpegEngine {
    /// Every file a JPEG run remembers is there, with the size it
    /// remembers.
    pub open spec fn backed(self, files: Map<Artifact, (Invocation, u64)>) -> bool {
        match self.phase {
            JpegPhase::Falling { fallback } => fallback.backed(files),
            JpegPhase::Finished { outcome } => outcome.backed_by(files),
            _ => true,
        }
    }

    pub proof fn lemma_advanced_backed(
        self,
        files: Map<Artifact, (Invocation, u64)>,
        event: Event,
    )
        requires
            self.wf(),
            self.backed(files),
        ensures
            self.advanced(event).0.backed(after_call(files, self.awaited(), event)),
    {
        match self.phase {
            JpegPhase::Falling { fallback } => {
                fallback.lemma_advanced_backed(files, event);
            },
            JpegPhase::Climbing { rung, .. } => {
                Self::lemma_rung_target_bounded(self.request.original_kb, rung);
            },
            _ => {},
        }
    }
}

impl PdfEngine {
    pub open spec fn render_place() -> spec_fn(Slot) -> Artifact {
        |slot: Slot| Artifact::Rendered(slot)
    }

    pub open spec fn render_call() -> spec_fn(u64, Slot) -> Invocation {
        |dpi: u64, slot: Slot|
            Invocation::Render {
                preset: Some(Preset::Printer),
                dpi: Some(dpi),
                output: Artifact::Rendered(slot),
            }
    }

    /// The floor as the most aggressive preset rendered it.
    pub open spec fn floor_made(files: Map<Artifact, (Invocation, u64)>, floor_kb: u64) -> bool {
        made_by(
            files,
            Artifact::Floor,
            Invocation::Render { preset: Some(Preset::Screen), dpi: None, output: Artifact::Floor },
            floor_kb,
        )
    }

    /// Every file a PDF run remembers is there, with the size it remembers.
    pub open spec fn backed(self, files: Map<Artifact, (Invocation, u64)>) -> bool {
        match self.phase {
            PdfPhase::ConfirmFloor { floor_kb, .. } => Self::floor_made(files, floor_kb),
            PdfPhase::Searching { floor, probing } => {
                &&& floor matches Some(f) ==> Self::floor_made(files, f)
                &&& probing.backed(files, Self::render_place(), Self::render_call())
            },
            PdfPhase::Finished { outcome } => outcome.backed_by(files),
            _ => true,
        }
    }

    pub proof fn lemma_advanced_backed(
        self,
        files: Map<Artifact, (Invocation, u64)>,
        event: Event,
    )
        requires
            self.wf(),
            self.backed(files),
        ensures
            self.advanced(event).0.backed(after_call(files, self.awaited(), event)),
    {
        match self.phase {
            PdfPhase::Searching { floor, probing } => {
                if let Event::Ran { success, size_kb } = event {
                    let t = self.request.target_kb->0;
                    probing.lemma_observed_backed(
                        files,
                        Self::render_place(),
                        Self::render_call(),
                        size_kb,
                        success,
                    );
                    probing.lemma_observed_wf(
                        dpi_range(self.request.original_kb, t).0,
                        dpi_range(self.request.original_kb, t).1,
                        MAX_DPI_PROBES,
                        t,
                        size_kb,
                        success,
                    );
                }
            },
            _ => {},
        }
    }
}

impl Engine {
    /// Every file a run remembers is there, with the size it remembers.
    pub open spec fn backed(self, files: Map<Artifact, (Invocation, u64)>) -> bool {
        match self {
            Engine::Png { png } => png.backed(files),
            Engine::Jpeg { jpeg } => jpeg.backed(files),
            Engine::Pdf { pdf } => pdf.backed(files),
            Engine::KeepOriginal { .. } => true,
            Engine::Finished { outcome } => outcome.backed_by(files),
        }
    }
}

proof fn lemma_run_is_backed(format: Format, request: CompressionRequest, events: Seq<Event>)
    ensures
        reached(Engine::begun(format, request), events).0.backed(
            files_of(Engine::begun(format, request), events),
        ),
    decreases events.len(),
{
    let start = Engine::begun(format, request);
    if events.len() > 0 {
        let before = events.drop_last();
        lemma_run_is_backed(format, request, before);
        lemma_run_is_well_formed(format, request, before);
        let files = files_of(start, before);
        match reached(start, before).0 {
            Engine::Png { png } => {
                png.lemma_advanced_backed(files, events.last());
            },
            Engine::Jpeg { jpeg } => {
                jpeg.lemma_advanced_backed(files, events.last());
            },
            Engine::Pdf { pdf } => {
                pdf.lemma_advanced_backed(files, events.last());
            },
            _ => {},
        }
    }
}

/// A run keeps the file it says it keeps. Where the outcome names a
/// temporary file, the last codec call that wrote that file with success
/// is the call the algorithm names, at the knob the algorithm names, and
/// the driver reported for it the size the outcome reports. No later probe
/// has written over it.
pub proof fn lemma_kept_file_is_as_reported(
    format: Format,
    request: CompressionRequest,
    events: Seq<Event>,
)
    ensures
        reached(Engine::begun(format, request), events).1 matches Action::Finish(outcome)
            ==> outcome.backed_by(files_of(Engine::begun(format, request), events)),
{
    lemma_run_is_backed(format, request, events);
    lemma_run_is_well_formed(format, request, events);
}

} // verus!
