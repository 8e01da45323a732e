//! The PDF engine: a preset picked by size where there is no target;
//! otherwise floor detection, then a binary search over the resolution.

use crate::probing::Probing;
use crate::protocol::{
    Action, Algorithm, Artifact, CompressionRequest, Event, Failure, Invocation, Outcome, Preset,
    Prompt, Tool,
};
use vstd::prelude::*;

verus! {

/// Most resolution probes one run makes.
pub const MAX_DPI_PROBES: u64 = 14;

/// Inputs above this many KB get the `Ebook` preset, others `Printer`.
pub const EBOOK_ABOVE_KB: u64 = 10_000;

/// The preset for a run without a target.
pub open spec fn preset_for(original_kb: u64) -> Preset {
    if original_kb > EBOOK_ABOVE_KB {
        Preset::Ebook
    } else {
        Preset::Printer
    }
}

/// The resolutions worth searching, by how hard the file must shrink: the
/// ratio of original to target above 10, above 3, above 2, or at most 2.
pub open spec fn dpi_range(original_kb: u64, target_kb: u64) -> (u64, u64) {
    if original_kb > 10 * target_kb {
        (50, 150)
    } else if original_kb > 3 * target_kb {
        (72, 250)
    } else if original_kb > 2 * target_kb {
        (100, 400)
    } else {
        (150, 600)
    }
}

pub fn pick_preset(original_kb: u64) -> (p: Preset)
    ensures
        p == preset_for(original_kb),
{
    if original_kb > EBOOK_ABOVE_KB {
        Preset::Ebook
    } else {
        Preset::Printer
    }
}

pub fn pick_dpi_range(original_kb: u64, target_kb: u64) -> (r: (u64, u64))
    ensures
        r == dpi_range(original_kb, target_kb),
        r.0 <= r.1,
{
    let original: u128 = original_kb as u128;
    let target: u128 = target_kb as u128;
    if original > 10 * target {
        (50, 150)
    } else if original > 3 * target {
        (72, 250)
    } else if original > 2 * target {
        (100, 400)
    } else {
        (150, 600)
    }
}

/// Where a PDF run stands.
#[derive(Clone, Copy, Debug, PartialEq, Eq, Structural)]
pub enum PdfPhase {
    /// No target: waiting for the one render with the chosen preset.
    Rendering { preset: Preset },
    /// Waiting for the render with the most aggressive preset.
    FloorCheck { target_kb: u64 },
    /// The floor is above the target: waiting to hear whether to keep it.
    ConfirmFloor { floor_kb: u64, target_kb: u64 },
    /// Waiting for a render at a probed resolution. `floor` is the size
    /// of the floor where that render succeeded.
    Searching { floor: Option<u64>, probing: Probing },
    /// The search found nothing and there is no floor yet: waiting for it.
    FallingBack,
    Finished { outcome: Outcome },
}

/// The PDF engine as a state machine.
#[derive(Clone, Copy, Debug, PartialEq, Eq, Structural)]
pub struct PdfEngine {
    pub request: CompressionRequest,
    pub phase: PdfPhase,
}

impl PdfEngine {
    pub open spec fn at(self, phase: PdfPhase) -> PdfEngine {
        PdfEngine { request: self.request, phase }
    }

    pub open spec fn finished(self, outcome: Outcome) -> (PdfEngine, Action) {
        (self.at(PdfPhase::Finished { outcome }), Action::Finish(outcome))
    }

    /// The render with the most aggressive preset, which gives the floor.
    pub open spec fn render_floor() -> Action {
        Action::Invoke(
            Invocation::Render { preset: Some(Preset::Screen), dpi: None, output: Artifact::Floor },
        )
    }

    /// The render at the resolution of `probing`'s midpoint, written to
    /// `probing`'s scratch slot.
    pub open spec fn render_at(probing: Probing) -> Action {
        Action::Invoke(
            Invocation::Render {
                preset: Some(Preset::Printer),
                dpi: Some(probing.search.range.midpoint()),
                output: Artifact::Rendered(probing.scratch()),
            },
        )
    }

    /// What the run waits for the driver to do.
    pub open spec fn awaited(self) -> Action {
        match self.phase {
            PdfPhase::Rendering { preset } => Action::Invoke(
                Invocation::Render { preset: Some(preset), dpi: None, output: Artifact::Preset },
            ),
            PdfPhase::FloorCheck { .. } => Self::render_floor(),
            PdfPhase::ConfirmFloor { floor_kb, target_kb } => Action::Ask(
                Prompt::SaveFloor { floor_kb, target_kb },
            ),
            PdfPhase::Searching { probing, .. } => Self::render_at(probing),
            PdfPhase::FallingBack => Self::render_floor(),
            PdfPhase::Finished { outcome } => Action::Finish(outcome),
        }
    }

    /// Without a target a PDF run is one render with a preset picked by
    /// size. With a target it opens with floor detection. That the input
    /// does not meet the target already is seen to before: see
    /// [`crate::engine::Engine::begun`].
    pub open spec fn begun(request: CompressionRequest) -> (PdfEngine, Action) {
        match request.target_kb {
            None => {
                let preset = preset_for(request.original_kb);
                (
                    PdfEngine { request, phase: PdfPhase::Rendering { preset } },
                    Action::Invoke(
                        Invocation::Render {
                            preset: Some(preset),
                            dpi: None,
                            output: Artifact::Preset,
                        },
                    ),
                )
            },
            Some(target_kb) => (
                PdfEngine { request, phase: PdfPhase::FloorCheck { target_kb } },
                Self::render_floor(),
            ),
        }
    }

    /// The one render of a run without a target returned.
    pub open spec fn rendered(self, preset: Preset, success: bool, size_kb: u64) -> (
        PdfEngine,
        Action,
    ) {
        if success {
            self.finished(
                Outcome::Saved {
                    artifact: Artifact::Preset,
                    algorithm: Algorithm::SmartCompression { preset },
                    size_kb,
                    stage: None,
                },
            )
        } else {
            self.finished(Outcome::Failed(Failure::ToolFailed(Tool::Ghostscript)))
        }
    }

    /// The floor kept as the result although above the target.
    pub open spec fn floor_kept(floor_kb: u64) -> Outcome {
        Outcome::Saved {
            artifact: Artifact::Floor,
            algorithm: Algorithm::Floor,
            size_kb: floor_kb,
            stage: None,
        }
    }

    /// Floor detection returned. A floor above the target makes the target
    /// unreachable: no resolution is tried, and the floor is offered.
    /// Otherwise, and where the render failed, the search opens.
    pub open spec fn floor_checked(self, target_kb: u64, success: bool, floor_kb: u64) -> (
        PdfEngine,
        Action,
    ) {
        if success && floor_kb > target_kb {
            if self.request.auto_yes {
                self.finished(Self::floor_kept(floor_kb))
            } else {
                (
                    self.at(PdfPhase::ConfirmFloor { floor_kb, target_kb }),
                    Action::Ask(Prompt::SaveFloor { floor_kb, target_kb }),
                )
            }
        } else {
            let (lo, hi) = dpi_range(self.request.original_kb, target_kb);
            let probing = Probing::begun(lo, hi, MAX_DPI_PROBES, target_kb);
            (
                self.at(
                    PdfPhase::Searching {
                        floor: if success {
                            Some(floor_kb)
                        } else {
                            None
                        },
                        probing,
                    },
                ),
                Self::render_at(probing),
            )
        }
    }

    /// The user answered whether to keep the floor.
    pub open spec fn floor_answered(self, floor_kb: u64, yes: bool) -> (PdfEngine, Action) {
        if yes {
            self.finished(Self::floor_kept(floor_kb))
        } else {
            self.finished(Outcome::Failed(Failure::Cancelled))
        }
    }

    /// The search is over. What it found is the result. Where it found
    /// nothing the floor is, rendered now if it was not before.
    pub open spec fn search_concluded(self, floor_kb: Option<u64>, probing: Probing) -> (
        PdfEngine,
        Action,
    ) {
        match probing.found() {
            Some((best, slot)) => self.finished(
                Outcome::Saved {
                    artifact: Artifact::Rendered(slot),
                    algorithm: Algorithm::BinarySearch { dpi: best.knob },
                    size_kb: best.size_kb,
                    stage: None,
                },
            ),
            None => match floor_kb {
                Some(f) => self.finished(
                    Outcome::Saved {
                        artifact: Artifact::Floor,
                        algorithm: Algorithm::FallbackScreen,
                        size_kb: f,
                        stage: None,
                    },
                ),
                None => (self.at(PdfPhase::FallingBack), Self::render_floor()),
            },
        }
    }

    /// A render at a probed resolution returned.
    pub open spec fn probed(
        self,
        floor_kb: Option<u64>,
        probing: Probing,
        success: bool,
        size_kb: u64,
    ) -> (PdfEngine, Action) {
        let next = probing.observed(size_kb, success);
        if next.pending() is Some {
            (self.at(PdfPhase::Searching { floor: floor_kb, probing: next }), Self::render_at(next))
        } else {
            self.search_concluded(floor_kb, next)
        }
    }

    /// The late render of the floor returned.
    pub open spec fn fell_back(self, success: bool, size_kb: u64) -> (PdfEngine, Action) {
        if success {
            self.finished(
                Outcome::Saved {
                    artifact: Artifact::Floor,
                    algorithm: Algorithm::FallbackScreen,
                    size_kb,
                    stage: None,
                },
            )
        } else {
            self.finished(Outcome::Failed(Failure::ToolFailed(Tool::Ghostscript)))
        }
    }

    /// The next state and action, for every state and every event. An event
    /// of the wrong kind ends the run.
    pub open spec fn advanced(self, event: Event) -> (PdfEngine, Action) {
        match (self.phase, event) {
            (PdfPhase::Finished { outcome }, _) => (self, Action::Finish(outcome)),
            (PdfPhase::Rendering { preset }, Event::Ran { success, size_kb }) => self.rendered(
                preset,
                success,
                size_kb,
            ),
            (PdfPhase::FloorCheck { target_kb }, Event::Ran { success, size_kb }) => {
                self.floor_checked(target_kb, success, size_kb)
            },
            (PdfPhase::ConfirmFloor { floor_kb, .. }, Event::Answered { yes }) => self.floor_answered(
                floor_kb,
                yes,
            ),
            (PdfPhase::Searching { floor: floor_kb, probing }, Event::Ran { success, size_kb }) => {
                self.probed(floor_kb, probing, success, size_kb)
            },
            (PdfPhase::FallingBack, Event::Ran { success, size_kb }) => self.fell_back(
                success,
                size_kb,
            ),
            _ => self.finished(Outcome::Failed(Failure::UnexpectedEvent)),
        }
    }

    /// What holds of every state a PDF run can be in.
    pub open spec fn wf(self) -> bool {
        match self.phase {
            PdfPhase::Rendering { .. } => self.request.target_kb is None,
            PdfPhase::FloorCheck { target_kb } => self.request.target_kb == Some(target_kb),
            PdfPhase::ConfirmFloor { floor_kb, target_kb } => {
                &&& self.request.target_kb == Some(target_kb)
                &&& floor_kb > target_kb
                &&& !self.request.auto_yes
            },
            PdfPhase::Searching { floor, probing } => {
                &&& self.request.target_kb matches Some(t) && probing.wf(
                    dpi_range(self.request.original_kb, t).0,
                    dpi_range(self.request.original_kb, t).1,
                    MAX_DPI_PROBES,
                    t,
                ) && (floor matches Some(f) ==> f <= t)
                &&& probing.pending() is Some
            },
            PdfPhase::FallingBack => self.request.target_kb is Some,
            PdfPhase::Finished { outcome } => outcome.honours(self.request) && match outcome {
                Outcome::Saved { algorithm, stage, .. } => stage is None && (algorithm
                    is SmartCompression || algorithm is Floor || algorithm is BinarySearch
                    || algorithm is FallbackScreen),
                Outcome::Failed(failure) => failure == Failure::ToolFailed(Tool::Ghostscript)
                    || failure is Cancelled || failure is UnexpectedEvent,
            },
        }
    }

    /// The most events the driver can still have to report before the run
    /// is over.
    pub open spec fn steps_left(self) -> nat {
        match self.phase {
            PdfPhase::Rendering { .. } => 1,
            PdfPhase::FloorCheck { .. } => 16,
            PdfPhase::ConfirmFloor { .. } => 1,
            PdfPhase::Searching { probing, .. } => probing.search.range.probes_left as nat + 1,
            PdfPhase::FallingBack => 1,
            PdfPhase::Finished { .. } => 0,
        }
    }

    /// A PDF run opens in a state it can be in.
    pub proof fn lemma_begun(request: CompressionRequest)
        ensures
            PdfEngine::begun(request).0.wf(),
            PdfEngine::begun(request).1 == PdfEngine::begun(request).0.awaited(),
            PdfEngine::begun(request).0.request == request,
            PdfEngine::begun(request).0.steps_left() <= 16,
    {
    }

    /// One step on: the state is again one a PDF run can be in, the action
    /// handed out is the one that state waits for, the request is the same,
    /// and the run is at least one event nearer its end.
    pub proof fn lemma_advanced(self, event: Event)
        requires
            self.wf(),
        ensures
            self.advanced(event).0.wf(),
            self.advanced(event).1 == self.advanced(event).0.awaited(),
            self.advanced(event).0.request == self.request,
            self.steps_left() > 0 ==> self.advanced(event).0.steps_left() < self.steps_left(),
            self.steps_left() == 0 ==> self.advanced(event) == (self, self.awaited()),
    {
        match self.phase {
            PdfPhase::FloorCheck { target_kb } => {
                let (lo, hi) = dpi_range(self.request.original_kb, target_kb);
                Probing::lemma_begun_wf(lo, hi, MAX_DPI_PROBES, target_kb);
            },
            PdfPhase::Searching { floor, probing } => {
                if let Event::Ran { success, size_kb } = event {
                    let t = self.request.target_kb->0;
                    let (lo, hi) = dpi_range(self.request.original_kb, t);
                    probing.lemma_observed_wf(lo, hi, MAX_DPI_PROBES, t, size_kb, success);
                }
            },
            _ => {},
        }
    }

    fn goto(self, phase: PdfPhase) -> (r: PdfEngine)
        ensures
            r == self.at(phase),
    {
        PdfEngine { request: self.request, phase }
    }

    fn finish(self, outcome: Outcome) -> (r: (PdfEngine, Action))
        ensures
            r == self.finished(outcome),
    {
        (self.goto(PdfPhase::Finished { outcome }), Action::Finish(outcome))
    }

    fn floor_render() -> (r: Action)
        ensures
            r == Self::render_floor(),
    {
        Action::Invoke(
            Invocation::Render { preset: Some(Preset::Screen), dpi: None, output: Artifact::Floor },
        )
    }

    fn probe(dpi: u64, probing: &Probing) -> (r: Action)
        requires
            probing.pending() == Some(dpi),
        ensures
            r == Self::render_at(*probing),
    {
        Action::Invoke(
            Invocation::Render {
                preset: Some(Preset::Printer),
                dpi: Some(dpi),
                output: Artifact::Rendered(probing.next_slot()),
            },
        )
    }

    fn keep_floor(floor_kb: u64) -> (r: Outcome)
        ensures
            r == Self::floor_kept(floor_kb),
    {
        Outcome::Saved {
            artifact: Artifact::Floor,
            algorithm: Algorithm::Floor,
            size_kb: floor_kb,
            stage: None,
        }
    }

    pub(crate) fn begin(request: CompressionRequest) -> (r: (PdfEngine, Action))
        ensures
            r == PdfEngine::begun(request),
    {
        match request.target_kb {
            None => {
                let preset = pick_preset(request.original_kb);
                (
                    PdfEngine { request, phase: PdfPhase::Rendering { preset } },
                    Action::Invoke(
                        Invocation::Render {
                            preset: Some(preset),
                            dpi: None,
                            output: Artifact::Preset,
                        },
                    ),
                )
            },
            Some(target_kb) => (
                PdfEngine { request, phase: PdfPhase::FloorCheck { target_kb } },
                Self::floor_render(),
            ),
        }
    }

    fn on_render(self, preset: Preset, success: bool, size_kb: u64) -> (r: (PdfEngine, Action))
        ensures
            r == self.rendered(preset, success, size_kb),
    {
        if success {
            self.finish(
                Outcome::Saved {
                    artifact: Artifact::Preset,
                    algorithm: Algorithm::SmartCompression { preset },
                    size_kb,
                    stage: None,
                },
            )
        } else {
            self.finish(Outcome::Failed(Failure::ToolFailed(Tool::Ghostscript)))
        }
    }

    fn on_floor(self, target_kb: u64, success: bool, floor_kb: u64) -> (r: (PdfEngine, Action))
        ensures
            r == self.floor_checked(target_kb, success, floor_kb),
    {
        if success && floor_kb > target_kb {
            if self.request.auto_yes {
                self.finish(Self::keep_floor(floor_kb))
            } else {
                (
                    self.goto(PdfPhase::ConfirmFloor { floor_kb, target_kb }),
                    Action::Ask(Prompt::SaveFloor { floor_kb, target_kb }),
                )
            }
        } else {
            let (lo, hi) = pick_dpi_range(self.request.original_kb, target_kb);
            let probing = Probing::new(lo, hi, MAX_DPI_PROBES, target_kb);
            let dpi = probing.next_knob().unwrap();
            let floor = if success {
                Some(floor_kb)
            } else {
                None
            };
            (
                self.goto(PdfPhase::Searching { floor, probing }),
                Self::probe(dpi, &probing),
            )
        }
    }

    fn on_floor_answer(self, floor_kb: u64, yes: bool) -> (r: (PdfEngine, Action))
        ensures
            r == self.floor_answered(floor_kb, yes),
    {
        if yes {
            self.finish(Self::keep_floor(floor_kb))
        } else {
            self.finish(Outcome::Failed(Failure::Cancelled))
        }
    }

    fn conclude_search(self, floor_kb: Option<u64>, probing: Probing) -> (r: (PdfEngine, Action))
        ensures
            r == self.search_concluded(floor_kb, probing),
    {
        match probing.best() {
            Some((best, slot)) => self.finish(
                Outcome::Saved {
                    artifact: Artifact::Rendered(slot),
                    algorithm: Algorithm::BinarySearch { dpi: best.knob },
                    size_kb: best.size_kb,
                    stage: None,
                },
            ),
            None => match floor_kb {
                Some(f) => self.finish(
                    Outcome::Saved {
                        artifact: Artifact::Floor,
                        algorithm: Algorithm::FallbackScreen,
                        size_kb: f,
                        stage: None,
                    },
                ),
                None => (self.goto(PdfPhase::FallingBack), Self::floor_render()),
            },
        }
    }

    fn on_probe(self, floor_kb: Option<u64>, probing: Probing, success: bool, size_kb: u64) -> (r: (
        PdfEngine,
        Action,
    ))
        ensures
            r == self.probed(floor_kb, probing, success, size_kb),
    {
        let mut next = probing;
        next.observe(size_kb, success);
        match next.next_knob() {
            Some(dpi) => (
                self.goto(PdfPhase::Searching { floor: floor_kb, probing: next }),
                Self::probe(dpi, &next),
            ),
            None => self.conclude_search(floor_kb, next),
        }
    }

    fn on_fallback(self, success: bool, size_kb: u64) -> (r: (PdfEngine, Action))
        ensures
            r == self.fell_back(success, size_kb),
    {
        if success {
            self.finish(
                Outcome::Saved {
                    artifact: Artifact::Floor,
                    algorithm: Algorithm::FallbackScreen,
                    size_kb,
                    stage: None,
                },
            )
        } else {
            self.finish(Outcome::Failed(Failure::ToolFailed(Tool::Ghostscript)))
        }
    }

    /// Takes in what the driver reports and says what to do next.
    pub fn advance(self, event: Event) -> (r: (PdfEngine, Action))
        ensures
            r == self.advanced(event),
    {
        match self.phase {
            PdfPhase::Finished { outcome } => (self, Action::Finish(outcome)),
            PdfPhase::ConfirmFloor { floor_kb, .. } => match event {
                Event::Answered { yes } => self.on_floor_answer(floor_kb, yes),
                _ => self.finish(Outcome::Failed(Failure::UnexpectedEvent)),
            },
            PdfPhase::Rendering { preset } => match event {
                Event::Ran { success, size_kb } => self.on_render(preset, success, size_kb),
                _ => self.finish(Outcome::Failed(Failure::UnexpectedEvent)),
            },
            PdfPhase::FloorCheck { target_kb } => match event {
                Event::Ran { success, size_kb } => self.on_floor(target_kb, success, size_kb),
                _ => self.finish(Outcome::Failed(Failure::UnexpectedEvent)),
            },
            PdfPhase::Searching { floor: floor_kb, probing } => match event {
                Event::Ran { success, size_kb } => self.on_probe(
                    floor_kb,
                    probing,
                    success,
                    size_kb,
                ),
                _ => self.finish(Outcome::Failed(Failure::UnexpectedEvent)),
            },
            PdfPhase::FallingBack => match event {
                Event::Ran { success, size_kb } => self.on_fallback(success, size_kb),
                _ => self.finish(Outcome::Failed(Failure::UnexpectedEvent)),
            },
        }
    }
}

} // verus!
