//! The PNG engine: lossless strip, then colour quantization by binary
//! search, then the shared fallbacks.

use crate::fallback::{Fallback, Waterfall};
use crate::probing::Probing;
use crate::protocol::{
    Action, Algorithm, Artifact, CompressionRequest, Event, Failure, FallbackStage, Format,
    Invocation, Outcome, Tool,
};
use vstd::prelude::*;

verus! {

/// Lowest quality index the quantization search tries.
pub const MIN_QUALITY: u64 = 30;

/// Highest quality index, and the upper bound handed to every quantization.
pub const MAX_QUALITY: u64 = 100;

/// Most quantization probes one run makes.
pub const MAX_QUANTIZE_PROBES: u64 = 8;

/// Where a PNG run stands.
#[derive(Clone, Copy, Debug, PartialEq, Eq, Structural)]
pub enum PngPhase {
    /// Waiting for the lossless strip.
    Stripping,
    /// Waiting for a quantization probe.
    Quantizing { stripped_kb: u64, probing: Probing },
    /// Waiting for the final lossless repack.
    Polishing { outcome: Outcome },
    /// In the shared fallbacks.
    Falling { fallback: Fallback },
    Finished { outcome: Outcome },
}

/// The PNG waterfall as a state machine.
#[derive(Clone, Copy, Debug, PartialEq, Eq, Structural)]
pub struct PngEngine {
    pub request: CompressionRequest,
    pub phase: PngPhase,
}

impl PngEngine {
    pub open spec fn at(self, phase: PngPhase) -> PngEngine {
        PngEngine { request: self.request, phase }
    }

    pub open spec fn finished(self, outcome: Outcome) -> (PngEngine, Action) {
        (self.at(PngPhase::Finished { outcome }), Action::Finish(outcome))
    }

    /// A PNG run opens with the lossless strip, whatever the target. That
    /// the input does not meet the target already is seen to before: see
    /// [`crate::engine::Engine::begun`].
    pub open spec fn begun(request: CompressionRequest) -> (PngEngine, Action) {
        (PngEngine { request, phase: PngPhase::Stripping }, Action::Invoke(Invocation::StripMetadata))
    }

    /// The quantization probe at `probing`'s midpoint, written to
    /// `probing`'s scratch slot.
    pub open spec fn quantize(probing: Probing) -> Action {
        Action::Invoke(
            Invocation::Quantize {
                min_quality: probing.search.range.midpoint(),
                max_quality: MAX_QUALITY,
                output: Artifact::Quantized(probing.scratch()),
            },
        )
    }

    /// What the run waits for the driver to do.
    pub open spec fn awaited(self) -> Action {
        match self.phase {
            PngPhase::Stripping => Action::Invoke(Invocation::StripMetadata),
            PngPhase::Quantizing { probing, .. } => Self::quantize(probing),
            PngPhase::Polishing { outcome } => Action::Invoke(
                Invocation::Polish {
                    target: match outcome {
                        Outcome::Saved { artifact, .. } => artifact,
                        Outcome::Failed(_) => Artifact::Original,
                    },
                },
            ),
            PngPhase::Falling { fallback } => fallback.awaited(),
            PngPhase::Finished { outcome } => Action::Finish(outcome),
        }
    }

    /// The strip returned. A failed strip ends the run. Without a target, or
    /// with one that the stripped file meets, the stripped file is the
    /// result. Otherwise the quantization search opens.
    pub open spec fn stripped(self, success: bool, stripped_kb: u64) -> (PngEngine, Action) {
        let lossless = Outcome::Saved {
            artifact: Artifact::Stripped,
            algorithm: Algorithm::PngLossless,
            size_kb: stripped_kb,
            stage: None,
        };
        if !success {
            self.finished(Outcome::Failed(Failure::ToolFailed(Tool::Oxipng)))
        } else {
            match self.request.target_kb {
                None => self.finished(lossless),
                Some(target_kb) => if stripped_kb <= target_kb {
                    self.finished(lossless)
                } else {
                    let probing = Probing::begun(
                        MIN_QUALITY,
                        MAX_QUALITY,
                        MAX_QUANTIZE_PROBES,
                        target_kb,
                    );
                    (
                        self.at(PngPhase::Quantizing { stripped_kb, probing }),
                        Self::quantize(probing),
                    )
                },
            }
        }
    }

    /// What the fallbacks start from once quantization has found nothing:
    /// the stripped image, and as the colour file to fall back on the last
    /// quantized output, or the stripped image where there is none.
    pub open spec fn waterfall(self, stripped_kb: u64, probing: Probing) -> Waterfall {
        let (candidate, candidate_kb) = match probing.spare_kb {
            Some(s) => (Artifact::Quantized(probing.scratch()), s),
            None => (Artifact::Stripped, stripped_kb),
        };
        Waterfall {
            format: Format::Png,
            target_kb: probing.search.target_kb,
            auto_yes: self.request.auto_yes,
            color: Artifact::Stripped,
            color_kb: stripped_kb,
            candidate,
            candidate_kb,
        }
    }

    /// The quantization search is over. What it found is polished and kept;
    /// where it found nothing the fallbacks begin.
    pub open spec fn quantize_concluded(self, stripped_kb: u64, probing: Probing) -> (
        PngEngine,
        Action,
    ) {
        match probing.found() {
            Some((best, slot)) => {
                let outcome = Outcome::Saved {
                    artifact: Artifact::Quantized(slot),
                    algorithm: Algorithm::PngHybrid { quality: best.knob },
                    size_kb: best.size_kb,
                    stage: Some(FallbackStage::Quantize),
                };
                (
                    self.at(PngPhase::Polishing { outcome }),
                    Action::Invoke(Invocation::Polish { target: Artifact::Quantized(slot) }),
                )
            },
            None => {
                let (fallback, action) = Fallback::begun(self.waterfall(stripped_kb, probing));
                (self.at(PngPhase::Falling { fallback }), action)
            },
        }
    }

    /// A quantization probe returned.
    pub open spec fn quantized(
        self,
        stripped_kb: u64,
        probing: Probing,
        success: bool,
        size_kb: u64,
    ) -> (PngEngine, Action) {
        let next = probing.observed(size_kb, success);
        if next.pending() is Some {
            (self.at(PngPhase::Quantizing { stripped_kb, probing: next }), Self::quantize(next))
        } else {
            self.quantize_concluded(stripped_kb, next)
        }
    }

    /// The next state and action, for every state and every event. An event
    /// of the wrong kind ends the run.
    pub open spec fn advanced(self, event: Event) -> (PngEngine, Action) {
        match (self.phase, event) {
            (PngPhase::Finished { outcome }, _) => (self, Action::Finish(outcome)),
            (PngPhase::Stripping, Event::Ran { success, size_kb }) => self.stripped(
                success,
                size_kb,
            ),
            (PngPhase::Quantizing { stripped_kb, probing }, Event::Ran { success, size_kb }) => {
                self.quantized(stripped_kb, probing, success, size_kb)
            },
            (PngPhase::Polishing { outcome }, Event::Ran { .. }) => self.finished(outcome),
            (PngPhase::Falling { fallback }, _) => {
                let (next, action) = fallback.advanced(event);
                (self.at(PngPhase::Falling { fallback: next }), action)
            },
            _ => self.finished(Outcome::Failed(Failure::UnexpectedEvent)),
        }
    }

    /// What holds of every state a PNG run can be in.
    pub open spec fn wf(self) -> bool {
        match self.phase {
            PngPhase::Stripping => true,
            PngPhase::Quantizing { stripped_kb, probing } => {
                &&& self.request.target_kb matches Some(t) && stripped_kb > t && probing.wf(
                    MIN_QUALITY,
                    MAX_QUALITY,
                    MAX_QUANTIZE_PROBES,
                    t,
                )
                &&& probing.pending() is Some
            },
            PngPhase::Polishing { outcome } => {
                &&& outcome.honours(self.request)
                &&& outcome matches Outcome::Saved {
                    artifact: Artifact::Quantized(_),
                    algorithm: Algorithm::PngHybrid { quality },
                    stage: Some(FallbackStage::Quantize),
                    ..
                } && MIN_QUALITY <= quality <= MAX_QUALITY
            },
            PngPhase::Falling { fallback } => {
                &&& fallback.wf()
                &&& fallback.plan.format is Png
                &&& fallback.plan.auto_yes == self.request.auto_yes
                &&& self.request.target_kb == Some(fallback.plan.target_kb)
                &&& fallback.plan.color == Artifact::Stripped
                &&& fallback.plan.color_kb > fallback.plan.target_kb
            },
            PngPhase::Finished { outcome } => outcome.honours(self.request) && match outcome {
                Outcome::Saved { algorithm, stage, .. } => (algorithm is PngLossless && stage
                    is None) || (algorithm is PngHybrid && stage == Some(FallbackStage::Quantize)),
                Outcome::Failed(failure) => failure == Failure::ToolFailed(Tool::Oxipng)
                    || failure is UnexpectedEvent,
            },
        }
    }

    /// The most events the driver can still have to report before the run
    /// is over.
    pub open spec fn steps_left(self) -> nat {
        match self.phase {
            PngPhase::Stripping => 22,
            PngPhase::Quantizing { probing, .. } => probing.search.range.probes_left as nat + 13,
            PngPhase::Polishing { .. } => 1,
            PngPhase::Falling { fallback } => fallback.steps_left(),
            PngPhase::Finished { .. } => 0,
        }
    }

    /// A PNG run opens in a state it can be in.
    pub proof fn lemma_begun(request: CompressionRequest)
        ensures
            PngEngine::begun(request).0.wf(),
            PngEngine::begun(request).1 == PngEngine::begun(request).0.awaited(),
            PngEngine::begun(request).0.request == request,
            PngEngine::begun(request).0.steps_left() == 22,
    {
    }

    /// One step on: the state is again one a PNG run can be in, the action
    /// handed out is the one that state waits for, the request is the same,
    /// and the run is at least one event nearer its end.
    pub proof fn lemma_advanced(self, event: Event)
        requires
            self.wf(),
        ensures
            self.advanced(event).0.wf(),
            self.advanced(event).1 == self.advanced(event).0.awaited(),
            self.advanced(event).0.request == self.request,
            self.steps_left() > 0 ==> self.advanced(event).0.steps_left() < self.steps_left(),
            self.steps_left() == 0 ==> self.advanced(event) == (self, self.awaited()),
    {
        match self.phase {
            PngPhase::Stripping => {
                if let Some(t) = self.request.target_kb {
                    Probing::lemma_begun_wf(MIN_QUALITY, MAX_QUALITY, MAX_QUANTIZE_PROBES, t);
                }
            },
            PngPhase::Quantizing { stripped_kb, probing } => {
                if let Event::Ran { success, size_kb } = event {
                    let t = self.request.target_kb->0;
                    probing.lemma_observed_wf(
                        MIN_QUALITY,
                        MAX_QUALITY,
                        MAX_QUANTIZE_PROBES,
                        t,
                        size_kb,
                        success,
                    );
                    let next = probing.observed(size_kb, success);
                    Fallback::lemma_begun(self.waterfall(stripped_kb, next));
                }
            },
            PngPhase::Falling { fallback } => {
                fallback.lemma_advanced(event);
            },
            _ => {},
        }
    }

    fn goto(self, phase: PngPhase) -> (r: PngEngine)
        ensures
            r == self.at(phase),
    {
        PngEngine { request: self.request, phase }
    }

    fn finish(self, outcome: Outcome) -> (r: (PngEngine, Action))
        ensures
            r == self.finished(outcome),
    {
        (self.goto(PngPhase::Finished { outcome }), Action::Finish(outcome))
    }

    pub(crate) fn begin(request: CompressionRequest) -> (r: (PngEngine, Action))
        ensures
            r == PngEngine::begun(request),
    {
        (PngEngine { request, phase: PngPhase::Stripping }, Action::Invoke(Invocation::StripMetadata))
    }

    fn probe(quality: u64, probing: &Probing) -> (r: Action)
        requires
            probing.pending() == Some(quality),
        ensures
            r == Self::quantize(*probing),
    {
        Action::Invoke(
            Invocation::Quantize {
                min_quality: quality,
                max_quality: MAX_QUALITY,
                output: Artifact::Quantized(probing.next_slot()),
            },
        )
    }

    fn on_strip(self, success: bool, stripped_kb: u64) -> (r: (PngEngine, Action))
        ensures
            r == self.stripped(success, stripped_kb),
    {
        let lossless = Outcome::Saved {
            artifact: Artifact::Stripped,
            algorithm: Algorithm::PngLossless,
            size_kb: stripped_kb,
            stage: None,
        };
        if !success {
            return self.finish(Outcome::Failed(Failure::ToolFailed(Tool::Oxipng)));
        }
        match self.request.target_kb {
            None => self.finish(lossless),
            Some(target_kb) => {
                if stripped_kb <= target_kb {
                    self.finish(lossless)
                } else {
                    let probing = Probing::new(
                        MIN_QUALITY,
                        MAX_QUALITY,
                        MAX_QUANTIZE_PROBES,
                        target_kb,
                    );
                    let quality = probing.next_knob().unwrap();
                    (
                        self.goto(PngPhase::Quantizing { stripped_kb, probing }),
                        Self::probe(quality, &probing),
                    )
                }
            },
        }
    }

    fn plan(&self, stripped_kb: u64, probing: &Probing) -> (r: Waterfall)
        ensures
            r == self.waterfall(stripped_kb, *probing),
    {
        let (candidate, candidate_kb) = match probing.spare_kb {
            Some(s) => (Artifact::Quantized(probing.next_slot()), s),
            None => (Artifact::Stripped, stripped_kb),
        };
        Waterfall {
            format: Format::Png,
            target_kb: probing.search.target_kb,
            auto_yes: self.request.auto_yes,
            color: Artifact::Stripped,
            color_kb: stripped_kb,
            candidate,
            candidate_kb,
        }
    }

    fn conclude_quantize(self, stripped_kb: u64, probing: Probing) -> (r: (PngEngine, Action))
        ensures
            r == self.quantize_concluded(stripped_kb, probing),
    {
        match probing.best() {
            Some((best, slot)) => {
                let outcome = Outcome::Saved {
                    artifact: Artifact::Quantized(slot),
                    algorithm: Algorithm::PngHybrid { quality: best.knob },
                    size_kb: best.size_kb,
                    stage: Some(FallbackStage::Quantize),
                };
                (
                    self.goto(PngPhase::Polishing { outcome }),
                    Action::Invoke(Invocation::Polish { target: Artifact::Quantized(slot) }),
                )
            },
            None => {
                let (fallback, action) = Fallback::begin(self.plan(stripped_kb, &probing));
                (self.goto(PngPhase::Falling { fallback }), action)
            },
        }
    }

    fn on_quantize(self, stripped_kb: u64, probing: Probing, success: bool, size_kb: u64) -> (r: (
        PngEngine,
        Action,
    ))
        ensures
            r == self.quantized(stripped_kb, probing, success, size_kb),
    {
        let mut next = probing;
        next.observe(size_kb, success);
        match next.next_knob() {
            Some(quality) => (
                self.goto(PngPhase::Quantizing { stripped_kb, probing: next }),
                Self::probe(quality, &next),
            ),
            None => self.conclude_quantize(stripped_kb, next),
        }
    }

    /// Takes in what the driver reports and says what to do next.
    pub fn advance(self, event: Event) -> (r: (PngEngine, Action))
        ensures
            r == self.advanced(event),
    {
        match self.phase {
            PngPhase::Finished { outcome } => (self, Action::Finish(outcome)),
            PngPhase::Falling { fallback } => {
                let (next, action) = fallback.advance(event);
                (self.goto(PngPhase::Falling { fallback: next }), action)
            },
            PngPhase::Stripping => match event {
                Event::Ran { success, size_kb } => self.on_strip(success, size_kb),
                _ => self.finish(Outcome::Failed(Failure::UnexpectedEvent)),
            },
            PngPhase::Quantizing { stripped_kb, probing } => match event {
                Event::Ran { success, size_kb } => self.on_quantize(
                    stripped_kb,
                    probing,
                    success,
                    size_kb,
                ),
                _ => self.finish(Outcome::Failed(Failure::UnexpectedEvent)),
            },
            PngPhase::Polishing { outcome } => match event {
                Event::Ran { .. } => self.finish(outcome),
                _ => self.finish(Outcome::Failed(Failure::UnexpectedEvent)),
            },
        }
    }
}

} // verus!
