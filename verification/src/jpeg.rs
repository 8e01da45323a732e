//! The JPEG engine: a lossless pass, then either a fixed ladder of extents
//! (no target), one lossy pass at a named quality (a level, no target), or
//! one lossy pass at the target followed by the shared fallbacks.

use crate::fallback::{Fallback, Waterfall};
use crate::protocol::{
    Action, Algorithm, Artifact, CompressionLevel, CompressionRequest, Event, Failure, Format,
    Invocation, Outcome, Tool,
};
use vstd::prelude::*;

verus! {

/// Number of rungs of the ladder.
pub const RUNGS: u64 = 8;

/// Percentage of the original size that rung `rung` aims at: 60, 65, and so
/// on up to 95. Past the last rung it stays at 95.
pub open spec fn rung_percent(rung: u64) -> int {
    if rung < RUNGS {
        60 + 5 * rung
    } else {
        95
    }
}

/// The extent in KB that rung `rung` aims at, rounded down.
pub open spec fn rung_target(original_kb: u64, rung: u64) -> int {
    original_kb * rung_percent(rung) / 100
}

/// The quality a named level stands for.
pub open spec fn level_quality(level: CompressionLevel) -> u64 {
    match level {
        CompressionLevel::Low => 85,
        CompressionLevel::Medium => 75,
        CompressionLevel::High => 50,
    }
}

pub fn quality_of(level: CompressionLevel) -> (q: u64)
    ensures
        q == level_quality(level),
{
    match level {
        CompressionLevel::Low => 85,
        CompressionLevel::Medium => 75,
        CompressionLevel::High => 50,
    }
}

pub fn rung_extent(original_kb: u64, rung: u64) -> (extent_kb: u64)
    ensures
        extent_kb == rung_target(original_kb, rung),
        extent_kb <= original_kb,
{
    let percent: u64 = if rung < RUNGS {
        60 + 5 * rung
    } else {
        95
    };
    assert(original_kb * percent <= original_kb * 100) by (nonlinear_arith)
        requires
            percent <= 100,
    ;
    let scaled: u128 = (original_kb as u128) * (percent as u128);
    (scaled / 100) as u64
}

/// Where a JPEG run stands.
#[derive(Clone, Copy, Debug, PartialEq, Eq, Structural)]
pub enum JpegPhase {
    /// Waiting for the lossless pass.
    Optimizing,
    /// Waiting for the lossy pass of rung `rung`, made on `base`.
    Climbing { base: Artifact, rung: u64 },
    /// Waiting for the one lossy pass at the target, made on `base`.
    Extent { base: Artifact, target_kb: u64 },
    /// Waiting for the one lossy pass at a named quality, made on `base`.
    Quality { base: Artifact, quality: u64 },
    /// In the shared fallbacks.
    Falling { fallback: Fallback },
    Finished { outcome: Outcome },
}

/// The JPEG engine as a state machine.
#[derive(Clone, Copy, Debug, PartialEq, Eq, Structural)]
pub struct JpegEngine {
    pub request: CompressionRequest,
    pub phase: JpegPhase,
}

impl JpegEngine {
    pub open spec fn at(self, phase: JpegPhase) -> JpegEngine {
        JpegEngine { request: self.request, phase }
    }

    pub open spec fn finished(self, outcome: Outcome) -> (JpegEngine, Action) {
        (self.at(JpegPhase::Finished { outcome }), Action::Finish(outcome))
    }

    /// A JPEG run opens with the lossless pass. That the input does not
    /// meet the target already is seen to before: see
    /// [`crate::engine::Engine::begun`].
    pub open spec fn begun(request: CompressionRequest) -> (JpegEngine, Action) {
        (
            JpegEngine { request, phase: JpegPhase::Optimizing },
            Action::Invoke(Invocation::LosslessOptimize),
        )
    }

    /// What the run waits for the driver to do.
    pub open spec fn awaited(self) -> Action {
        match self.phase {
            JpegPhase::Optimizing => Action::Invoke(Invocation::LosslessOptimize),
            JpegPhase::Climbing { base, rung } => Action::Invoke(
                Invocation::LossyExtent {
                    input: base,
                    extent_kb: rung_target(self.request.original_kb, rung) as u64,
                },
            ),
            JpegPhase::Extent { base, target_kb } => Action::Invoke(
                Invocation::LossyExtent { input: base, extent_kb: target_kb },
            ),
            JpegPhase::Quality { base, quality } => Action::Invoke(
                Invocation::LossyQuality { input: base, quality },
            ),
            JpegPhase::Falling { fallback } => fallback.awaited(),
            JpegPhase::Finished { outcome } => Action::Finish(outcome),
        }
    }

    /// The lossy pass of rung `rung`.
    pub open spec fn climb(self, base: Artifact, rung: u64) -> (JpegEngine, Action) {
        (
            self.at(JpegPhase::Climbing { base, rung }),
            Action::Invoke(
                Invocation::LossyExtent {
                    input: base,
                    extent_kb: rung_target(self.request.original_kb, rung) as u64,
                },
            ),
        )
    }

    /// The lossless pass returned. Where it failed the original stands in
    /// for its output. With a target that the lossless output meets, that
    /// output is the result.
    pub open spec fn optimized(self, success: bool, size_kb: u64) -> (JpegEngine, Action) {
        let base = if success {
            Artifact::Optimized
        } else {
            Artifact::Original
        };
        match (self.request.target_kb, self.request.level) {
            (Some(target_kb), _) => if success && size_kb <= target_kb {
                self.finished(
                    Outcome::Saved {
                        artifact: Artifact::Optimized,
                        algorithm: Algorithm::JpegLossless,
                        size_kb,
                        stage: None,
                    },
                )
            } else {
                (
                    self.at(JpegPhase::Extent { base, target_kb }),
                    Action::Invoke(Invocation::LossyExtent { input: base, extent_kb: target_kb }),
                )
            },
            (None, Some(level)) => (
                self.at(JpegPhase::Quality { base, quality: level_quality(level) }),
                Action::Invoke(
                    Invocation::LossyQuality { input: base, quality: level_quality(level) },
                ),
            ),
            (None, None) => self.climb(base, 0),
        }
    }

    /// The lossy pass of rung `rung` returned. The first rung whose output
    /// is no larger than its own extent is kept. After the last rung the
    /// original is kept.
    pub open spec fn climbed(self, base: Artifact, rung: u64, success: bool, size_kb: u64) -> (
        JpegEngine,
        Action,
    ) {
        if success && size_kb <= rung_target(self.request.original_kb, rung) {
            self.finished(
                Outcome::Saved {
                    artifact: Artifact::Lossy,
                    algorithm: Algorithm::StandardPreset {
                        target_kb: rung_target(self.request.original_kb, rung) as u64,
                    },
                    size_kb,
                    stage: None,
                },
            )
        } else if rung + 1 < RUNGS {
            self.climb(base, (rung + 1) as u64)
        } else {
            self.finished(
                Outcome::Saved {
                    artifact: Artifact::Original,
                    algorithm: Algorithm::NoReduction,
                    size_kb: self.request.original_kb,
                    stage: None,
                },
            )
        }
    }

    /// The lossy pass at the target returned. A failed pass ends the run.
    /// An output above the target opens the fallbacks on that output.
    pub open spec fn extent_done(self, target_kb: u64, success: bool, size_kb: u64) -> (
        JpegEngine,
        Action,
    ) {
        if !success {
            self.finished(Outcome::Failed(Failure::ToolFailed(Tool::ImageMagick)))
        } else if size_kb <= target_kb {
            self.finished(
                Outcome::Saved {
                    artifact: Artifact::Lossy,
                    algorithm: Algorithm::JpegLossy,
                    size_kb,
                    stage: None,
                },
            )
        } else {
            let (fallback, action) = Fallback::begun(
                Waterfall {
                    format: Format::Jpeg,
                    target_kb,
                    auto_yes: self.request.auto_yes,
                    color: Artifact::Lossy,
                    color_kb: size_kb,
                    candidate: Artifact::Lossy,
                    candidate_kb: size_kb,
                },
            );
            (self.at(JpegPhase::Falling { fallback }), action)
        }
    }

    /// The lossy pass at a named quality returned.
    pub open spec fn quality_done(self, success: bool, size_kb: u64) -> (JpegEngine, Action) {
        if success {
            self.finished(
                Outcome::Saved {
                    artifact: Artifact::Lossy,
                    algorithm: Algorithm::JpegLossy,
                    size_kb,
                    stage: None,
                },
            )
        } else {
            self.finished(Outcome::Failed(Failure::ToolFailed(Tool::ImageMagick)))
        }
    }

    /// The next state and action, for every state and every event. An event
    /// of the wrong kind ends the run.
    pub open spec fn advanced(self, event: Event) -> (JpegEngine, Action) {
        match (self.phase, event) {
            (JpegPhase::Finished { outcome }, _) => (self, Action::Finish(outcome)),
            (JpegPhase::Optimizing, Event::Ran { success, size_kb }) => self.optimized(
                success,
                size_kb,
            ),
            (JpegPhase::Climbing { base, rung }, Event::Ran { success, size_kb }) => self.climbed(
                base,
                rung,
                success,
                size_kb,
            ),
            (JpegPhase::Extent { target_kb, .. }, Event::Ran { success, size_kb }) => self.extent_done(
                target_kb,
                success,
                size_kb,
            ),
            (JpegPhase::Quality { .. }, Event::Ran { success, size_kb }) => self.quality_done(
                success,
                size_kb,
            ),
            (JpegPhase::Falling { fallback }, _) => {
                let (next, action) = fallback.advanced(event);
                (self.at(JpegPhase::Falling { fallback: next }), action)
            },
            _ => self.finished(Outcome::Failed(Failure::UnexpectedEvent)),
        }
    }

    /// What holds of every state a JPEG run can be in.
    pub open spec fn wf(self) -> bool {
        match self.phase {
            JpegPhase::Optimizing => true,
            JpegPhase::Climbing { rung, .. } => rung < RUNGS && self.request.target_kb is None,
            JpegPhase::Extent { target_kb, .. } => self.request.target_kb == Some(target_kb),
            JpegPhase::Quality { .. } => self.request.target_kb is None,
            JpegPhase::Falling { fallback } => {
                &&& fallback.wf()
                &&& fallback.plan.format is Jpeg
                &&& fallback.plan.auto_yes == self.request.auto_yes
                &&& self.request.target_kb == Some(fallback.plan.target_kb)
                &&& fallback.plan.color == Artifact::Lossy
                &&& fallback.plan.color_kb > fallback.plan.target_kb
            },
            JpegPhase::Finished { outcome } => outcome.honours(self.request) && match outcome {
                Outcome::Saved { algorithm, stage, .. } => stage is None && (algorithm
                    is StandardPreset || algorithm is NoReduction || algorithm is JpegLossless
                    || algorithm is JpegLossy),
                Outcome::Failed(failure) => failure == Failure::ToolFailed(Tool::ImageMagick)
                    || failure is UnexpectedEvent,
            },
        }
    }

    /// The most events the driver can still have to report before the run
    /// is over.
    pub open spec fn steps_left(self) -> nat {
        match self.phase {
            JpegPhase::Optimizing => 15,
            JpegPhase::Climbing { rung, .. } => if rung < RUNGS {
                (RUNGS - rung) as nat
            } else {
                1
            },
            JpegPhase::Extent { .. } => 14,
            JpegPhase::Quality { .. } => 1,
            JpegPhase::Falling { fallback } => fallback.steps_left(),
            JpegPhase::Finished { .. } => 0,
        }
    }

    /// A JPEG run opens in a state it can be in.
    pub proof fn lemma_begun(request: CompressionRequest)
        ensures
            JpegEngine::begun(request).0.wf(),
            JpegEngine::begun(request).1 == JpegEngine::begun(request).0.awaited(),
            JpegEngine::begun(request).0.request == request,
            JpegEngine::begun(request).0.steps_left() == 15,
    {
    }

    /// Every rung aims at no more than the original size.
    pub proof fn lemma_rung_target_bounded(original_kb: u64, rung: u64)
        ensures
            0 <= rung_target(original_kb, rung) <= original_kb,
    {
        let percent = rung_percent(rung);
        assert(original_kb * percent <= original_kb * 100) by (nonlinear_arith)
            requires
                0 <= percent <= 100,
        ;
        assert(original_kb * percent >= 0) by (nonlinear_arith)
            requires
                0 <= percent,
        ;
    }

    /// One step on: the state is again one a JPEG run can be in, the action
    /// handed out is the one that state waits for, the request is the same,
    /// and the run is at least one event nearer its end.
    pub proof fn lemma_advanced(self, event: Event)
        requires
            self.wf(),
        ensures
            self.advanced(event).0.wf(),
            self.advanced(event).1 == self.advanced(event).0.awaited(),
            self.advanced(event).0.request == self.request,
            self.steps_left() > 0 ==> self.advanced(event).0.steps_left() < self.steps_left(),
            self.steps_left() == 0 ==> self.advanced(event) == (self, self.awaited()),
    {
        match self.phase {
            JpegPhase::Climbing { rung, .. } => {
                Self::lemma_rung_target_bounded(self.request.original_kb, rung);
            },
            JpegPhase::Extent { target_kb, .. } => {
                if let Event::Ran { success, size_kb } = event {
                    Fallback::lemma_begun(
                        Waterfall {
                            format: Format::Jpeg,
                            target_kb,
                            auto_yes: self.request.auto_yes,
                            color: Artifact::Lossy,
                            color_kb: size_kb,
                            candidate: Artifact::Lossy,
                            candidate_kb: size_kb,
                        },
                    );
                }
            },
            JpegPhase::Falling { fallback } => {
                fallback.lemma_advanced(event);
            },
            _ => {},
        }
    }

    fn goto(self, phase: JpegPhase) -> (r: JpegEngine)
        ensures
            r == self.at(phase),
    {
        JpegEngine { request: self.request, phase }
    }

    fn finish(self, outcome: Outcome) -> (r: (JpegEngine, Action))
        ensures
            r == self.finished(outcome),
    {
        (self.goto(JpegPhase::Finished { outcome }), Action::Finish(outcome))
    }

    pub(crate) fn begin(request: CompressionRequest) -> (r: (JpegEngine, Action))
        ensures
            r == JpegEngine::begun(request),
    {
        (
            JpegEngine { request, phase: JpegPhase::Optimizing },
            Action::Invoke(Invocation::LosslessOptimize),
        )
    }

    fn start_rung(self, base: Artifact, rung: u64) -> (r: (JpegEngine, Action))
        ensures
            r == self.climb(base, rung),
    {
        (
            self.goto(JpegPhase::Climbing { base, rung }),
            Action::Invoke(
                Invocation::LossyExtent {
                    input: base,
                    extent_kb: rung_extent(self.request.original_kb, rung),
                },
            ),
        )
    }

    fn on_optimize(self, success: bool, size_kb: u64) -> (r: (JpegEngine, Action))
        ensures
            r == self.optimized(success, size_kb),
    {
        let base = if success {
            Artifact::Optimized
        } else {
            Artifact::Original
        };
        match self.request.target_kb {
            Some(target_kb) => {
                if success && size_kb <= target_kb {
                    self.finish(
                        Outcome::Saved {
                            artifact: Artifact::Optimized,
                            algorithm: Algorithm::JpegLossless,
                            size_kb,
                            stage: None,
                        },
                    )
                } else {
                    (
                        self.goto(JpegPhase::Extent { base, target_kb }),
                        Action::Invoke(
                            Invocation::LossyExtent { input: base, extent_kb: target_kb },
                        ),
                    )
                }
            },
            None => match self.request.level {
                Some(level) => {
                    let quality = quality_of(level);
                    (
                        self.goto(JpegPhase::Quality { base, quality }),
                        Action::Invoke(Invocation::LossyQuality { input: base, quality }),
                    )
                },
                None => self.start_rung(base, 0),
            },
        }
    }

    fn on_rung(self, base: Artifact, rung: u64, success: bool, size_kb: u64) -> (r: (
        JpegEngine,
        Action,
    ))
        ensures
            r == self.climbed(base, rung, success, size_kb),
    {
        let extent_kb = rung_extent(self.request.original_kb, rung);
        if success && size_kb <= extent_kb {
            self.finish(
                Outcome::Saved {
                    artifact: Artifact::Lossy,
                    algorithm: Algorithm::StandardPreset { target_kb: extent_kb },
                    size_kb,
                    stage: None,
                },
            )
        } else if rung < RUNGS - 1 {
            self.start_rung(base, rung + 1)
        } else {
            self.finish(
                Outcome::Saved {
                    artifact: Artifact::Original,
                    algorithm: Algorithm::NoReduction,
                    size_kb: self.request.original_kb,
                    stage: None,
                },
            )
        }
    }

    fn on_extent(self, target_kb: u64, success: bool, size_kb: u64) -> (r: (JpegEngine, Action))
        ensures
            r == self.extent_done(target_kb, success, size_kb),
    {
        if !success {
            self.finish(Outcome::Failed(Failure::ToolFailed(Tool::ImageMagick)))
        } else if size_kb <= target_kb {
            self.finish(
                Outcome::Saved {
                    artifact: Artifact::Lossy,
                    algorithm: Algorithm::JpegLossy,
                    size_kb,
                    stage: None,
                },
            )
        } else {
            let (fallback, action) = Fallback::begin(
                Waterfall {
                    format: Format::Jpeg,
                    target_kb,
                    auto_yes: self.request.auto_yes,
                    color: Artifact::Lossy,
                    color_kb: size_kb,
                    candidate: Artifact::Lossy,
                    candidate_kb: size_kb,
                },
            );
            (self.goto(JpegPhase::Falling { fallback }), action)
        }
    }

    fn on_quality(self, success: bool, size_kb: u64) -> (r: (JpegEngine, Action))
        ensures
            r == self.quality_done(success, size_kb),
    {
        if success {
            self.finish(
                Outcome::Saved {
                    artifact: Artifact::Lossy,
                    algorithm: Algorithm::JpegLossy,
                    size_kb,
                    stage: None,
                },
            )
        } else {
            self.finish(Outcome::Failed(Failure::ToolFailed(Tool::ImageMagick)))
        }
    }

    /// Takes in what the driver reports and says what to do next.
    pub fn advance(self, event: Event) -> (r: (JpegEngine, Action))
        ensures
            r == self.advanced(event),
    {
        match self.phase {
            JpegPhase::Finished { outcome } => (self, Action::Finish(outcome)),
            JpegPhase::Falling { fallback } => {
                let (next, action) = fallback.advance(event);
                (self.goto(JpegPhase::Falling { fallback: next }), action)
            },
            JpegPhase::Optimizing => match event {
                Event::Ran { success, size_kb } => self.on_optimize(success, size_kb),
                _ => self.finish(Outcome::Failed(Failure::UnexpectedEvent)),
            },
            JpegPhase::Climbing { base, rung } => match event {
                Event::Ran { success, size_kb } => self.on_rung(base, rung, success, size_kb),
                _ => self.finish(Outcome::Failed(Failure::UnexpectedEvent)),
            },
            JpegPhase::Extent { target_kb, .. } => match event {
                Event::Ran { success, size_kb } => self.on_extent(target_kb, success, size_kb),
                _ => self.finish(Outcome::Failed(Failure::UnexpectedEvent)),
            },
            JpegPhase::Quality { .. } => match event {
                Event::Ran { success, size_kb } => self.on_quality(success, size_kb),
                _ => self.finish(Outcome::Failed(Failure::UnexpectedEvent)),
            },
        }
    }
}

} // verus!
