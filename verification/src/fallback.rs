//! The destructive fallbacks that PNG and JPEG share once colour alone cannot
//! reach the target: grayscale first, then a search for a smaller scale.
//! Nothing irreversible is kept without consent.

use crate::probing::Probing;
use crate::protocol::{
    Action, Algorithm, Artifact, Event, Failure, FallbackStage, Format, Invocation, Outcome, Prompt,
};
use vstd::prelude::*;

verus! {

/// Lowest scale the resize search tries, in percent.
pub const MIN_SCALE: u64 = 1;

/// Highest scale the resize search tries, in percent.
pub const MAX_SCALE: u64 = 100;

/// Most resize probes one run makes.
pub const MAX_RESIZE_PROBES: u64 = 8;

/// What is fixed when the fallbacks begin.
#[derive(Clone, Copy, Debug, PartialEq, Eq, Structural)]
pub struct Waterfall {
    pub format: Format,
    pub target_kb: u64,
    pub auto_yes: bool,
    /// The colour image that grayscale and resize start from.
    pub color: Artifact,
    pub color_kb: u64,
    /// The colour file to keep where every fallback is declined.
    pub candidate: Artifact,
    pub candidate_kb: u64,
}

/// Where in the fallbacks a run stands.
#[derive(Clone, Copy, Debug, PartialEq, Eq, Structural)]
pub enum FallbackPhase {
    /// Waiting for the grayscale conversion.
    Graying,
    /// Grayscale fits: waiting to hear whether to accept it.
    ConfirmGrayscale { gray_kb: u64 },
    /// Grayscale is smaller than colour: waiting to hear whether to resize it.
    ConfirmGrayResize { gray_kb: u64 },
    /// Waiting to hear whether to resize the colour image instead.
    ConfirmColorResize,
    /// Grayscale is no help: waiting to hear whether to resize at all.
    ConfirmResize,
    /// Waiting for a resize probe.
    Resizing { base: Artifact, base_kb: u64, probing: Probing },
    /// Waiting for the final lossless repack.
    Polishing { outcome: Outcome },
    /// No scale fits: waiting to hear whether to keep the smallest attempt.
    ConfirmSmallest { artifact: Artifact, size_kb: u64 },
    Finished { outcome: Outcome },
}

/// The fallbacks as a state machine.
#[derive(Clone, Copy, Debug, PartialEq, Eq, Structural)]
pub struct Fallback {
    pub plan: Waterfall,
    pub phase: FallbackPhase,
}

impl Fallback {
    pub open spec fn at(self, phase: FallbackPhase) -> Fallback {
        Fallback { plan: self.plan, phase }
    }

    pub open spec fn finished(self, outcome: Outcome) -> (Fallback, Action) {
        (self.at(FallbackPhase::Finished { outcome }), Action::Finish(outcome))
    }

    /// The resize probe at `probing`'s midpoint, made of `base` and written
    /// to `probing`'s scratch slot.
    pub open spec fn resize(base: Artifact, probing: Probing) -> Action {
        Action::Invoke(
            Invocation::Resize {
                input: base,
                scale_percent: probing.search.range.midpoint(),
                output: Artifact::Resized(probing.scratch()),
            },
        )
    }

    /// What the run waits for the driver to do.
    pub open spec fn awaited(self) -> Action {
        let target_kb = self.plan.target_kb;
        match self.phase {
            FallbackPhase::Graying => Action::Invoke(
                Invocation::Grayscale { input: self.plan.color },
            ),
            FallbackPhase::ConfirmGrayscale { gray_kb } => Action::Ask(
                Prompt::AcceptGrayscale { gray_kb, target_kb },
            ),
            FallbackPhase::ConfirmGrayResize { gray_kb } => Action::Ask(
                Prompt::ResizeGrayscale { gray_kb, target_kb },
            ),
            FallbackPhase::ConfirmColorResize => Action::Ask(
                Prompt::ResizeColor { color_kb: self.plan.color_kb, target_kb },
            ),
            FallbackPhase::ConfirmResize => Action::Ask(
                Prompt::ResizeImage { color_kb: self.plan.color_kb, target_kb },
            ),
            FallbackPhase::Resizing { base, probing, .. } => Self::resize(base, probing),
            FallbackPhase::Polishing { outcome } => Action::Invoke(
                Invocation::Polish {
                    target: match outcome {
                        Outcome::Saved { artifact, .. } => artifact,
                        Outcome::Failed(_) => Artifact::Original,
                    },
                },
            ),
            FallbackPhase::ConfirmSmallest { size_kb, .. } => Action::Ask(
                Prompt::SaveSmallest { smallest_kb: size_kb, target_kb },
            ),
            FallbackPhase::Finished { outcome } => Action::Finish(outcome),
        }
    }

    /// The fallbacks open with the grayscale conversion of the colour image.
    pub open spec fn begun(plan: Waterfall) -> (Fallback, Action) {
        (
            Fallback { plan, phase: FallbackPhase::Graying },
            Action::Invoke(Invocation::Grayscale { input: plan.color }),
        )
    }

    /// The resize search opens on `base`.
    pub open spec fn resizing_begun(self, base: Artifact, base_kb: u64) -> (Fallback, Action) {
        let probing = Probing::begun(MIN_SCALE, MAX_SCALE, MAX_RESIZE_PROBES, self.plan.target_kb);
        (self.at(FallbackPhase::Resizing { base, base_kb, probing }), Self::resize(base, probing))
    }

    /// What a yes leads to.
    pub open spec fn accepted(self) -> (Fallback, Action) {
        match self.phase {
            FallbackPhase::ConfirmGrayscale { gray_kb } => self.finished(
                Outcome::Saved {
                    artifact: Artifact::Gray,
                    algorithm: Algorithm::Grayscale { format: self.plan.format },
                    size_kb: gray_kb,
                    stage: Some(FallbackStage::Grayscale),
                },
            ),
            FallbackPhase::ConfirmGrayResize { gray_kb } => self.resizing_begun(
                Artifact::Gray,
                gray_kb,
            ),
            FallbackPhase::ConfirmColorResize => self.resizing_begun(
                self.plan.color,
                self.plan.color_kb,
            ),
            FallbackPhase::ConfirmResize => self.resizing_begun(self.plan.color, self.plan.color_kb),
            FallbackPhase::ConfirmSmallest { artifact, size_kb } => self.finished(
                Outcome::Saved {
                    artifact,
                    algorithm: Algorithm::SmallestResize { format: self.plan.format },
                    size_kb,
                    stage: Some(FallbackStage::BestEffort),
                },
            ),
            _ => self.finished(Outcome::Failed(Failure::UnexpectedEvent)),
        }
    }

    /// Puts `prompt` to the user, or takes the yes for granted where the
    /// request says so.
    pub open spec fn asked(self, prompt: Prompt) -> (Fallback, Action) {
        if self.plan.auto_yes {
            self.accepted()
        } else {
            (self, Action::Ask(prompt))
        }
    }

    /// Grayscale is out or was turned down: which image is resized? Where
    /// grayscale is strictly smaller than colour it is offered first.
    pub open spec fn base_chosen(self, gray_kb: Option<u64>) -> (Fallback, Action) {
        match gray_kb {
            Some(g) if g < self.plan.color_kb => self.at(
                FallbackPhase::ConfirmGrayResize { gray_kb: g },
            ).asked(Prompt::ResizeGrayscale { gray_kb: g, target_kb: self.plan.target_kb }),
            _ => self.at(FallbackPhase::ConfirmResize).asked(
                Prompt::ResizeImage { color_kb: self.plan.color_kb, target_kb: self.plan.target_kb },
            ),
        }
    }

    /// What a no leads to.
    pub open spec fn declined(self) -> (Fallback, Action) {
        match self.phase {
            FallbackPhase::ConfirmGrayscale { gray_kb } => self.base_chosen(Some(gray_kb)),
            FallbackPhase::ConfirmGrayResize { .. } => self.at(
                FallbackPhase::ConfirmColorResize,
            ).asked(
                Prompt::ResizeColor { color_kb: self.plan.color_kb, target_kb: self.plan.target_kb },
            ),
            FallbackPhase::ConfirmColorResize => self.finished(
                Outcome::Saved {
                    artifact: self.plan.candidate,
                    algorithm: Algorithm::BestEffortColor { format: self.plan.format },
                    size_kb: self.plan.candidate_kb,
                    stage: Some(FallbackStage::BestEffort),
                },
            ),
            FallbackPhase::ConfirmResize => self.finished(
                Outcome::Saved {
                    artifact: self.plan.candidate,
                    algorithm: Algorithm::BestEffort { format: self.plan.format },
                    size_kb: self.plan.candidate_kb,
                    stage: Some(FallbackStage::BestEffort),
                },
            ),
            FallbackPhase::ConfirmSmallest { .. } => self.finished(
                Outcome::Failed(Failure::Cancelled),
            ),
            _ => self.finished(Outcome::Failed(Failure::UnexpectedEvent)),
        }
    }

    /// The grayscale conversion returned.
    pub open spec fn grayed(self, success: bool, gray_kb: u64) -> (Fallback, Action) {
        if success && gray_kb <= self.plan.target_kb {
            self.at(FallbackPhase::ConfirmGrayscale { gray_kb }).asked(
                Prompt::AcceptGrayscale { gray_kb, target_kb: self.plan.target_kb },
            )
        } else if success {
            self.base_chosen(Some(gray_kb))
        } else {
            self.base_chosen(None)
        }
    }

    /// The resize search is over.
    pub open spec fn resize_concluded(self, base: Artifact, base_kb: u64, probing: Probing) -> (
        Fallback,
        Action,
    ) {
        match probing.found() {
            Some((best, slot)) => {
                let outcome = Outcome::Saved {
                    artifact: Artifact::Resized(slot),
                    algorithm: Algorithm::Resized {
                        format: self.plan.format,
                        scale_percent: best.knob,
                    },
                    size_kb: best.size_kb,
                    stage: Some(FallbackStage::Resize),
                };
                if self.plan.format is Png {
                    (
                        self.at(FallbackPhase::Polishing { outcome }),
                        Action::Invoke(Invocation::Polish { target: Artifact::Resized(slot) }),
                    )
                } else {
                    self.finished(outcome)
                }
            },
            None => {
                let (artifact, size_kb) = match probing.spare_kb {
                    Some(s) => (Artifact::Resized(probing.scratch()), s),
                    None => (base, base_kb),
                };
                self.at(FallbackPhase::ConfirmSmallest { artifact, size_kb }).asked(
                    Prompt::SaveSmallest { smallest_kb: size_kb, target_kb: self.plan.target_kb },
                )
            },
        }
    }

    /// A resize probe returned.
    pub open spec fn resized(
        self,
        base: Artifact,
        base_kb: u64,
        probing: Probing,
        success: bool,
        size_kb: u64,
    ) -> (Fallback, Action) {
        let next = probing.observed(size_kb, success);
        if next.pending() is Some {
            (
                self.at(FallbackPhase::Resizing { base, base_kb, probing: next }),
                Self::resize(base, next),
            )
        } else {
            self.resize_concluded(base, base_kb, next)
        }
    }

    /// The next state and action, for every state and every event. An event
    /// of the wrong kind ends the run.
    pub open spec fn advanced(self, event: Event) -> (Fallback, Action) {
        match (self.phase, event) {
            (FallbackPhase::Finished { outcome }, _) => (self, Action::Finish(outcome)),
            (FallbackPhase::Graying, Event::Ran { success, size_kb }) => self.grayed(
                success,
                size_kb,
            ),
            (FallbackPhase::Resizing { base, base_kb, probing }, Event::Ran { success, size_kb }) => {
                self.resized(base, base_kb, probing, success, size_kb)
            },
            (FallbackPhase::Polishing { outcome }, Event::Ran { .. }) => self.finished(outcome),
            (FallbackPhase::ConfirmGrayscale { .. }, Event::Answered { yes })
            | (FallbackPhase::ConfirmGrayResize { .. }, Event::Answered { yes })
            | (FallbackPhase::ConfirmColorResize, Event::Answered { yes })
            | (FallbackPhase::ConfirmResize, Event::Answered { yes })
            | (FallbackPhase::ConfirmSmallest { .. }, Event::Answered { yes }) => if yes {
                self.accepted()
            } else {
                self.declined()
            },
            _ => self.finished(Outcome::Failed(Failure::UnexpectedEvent)),
        }
    }

    /// What the fallbacks answer for when they hand out `outcome`: a
    /// grayscale or resized file fits the target, a best effort is the
    /// colour file set aside for it, and the only failures are a refusal
    /// and an event out of turn.
    pub open spec fn vouches(self, outcome: Outcome) -> bool {
        match outcome {
            Outcome::Saved { artifact, algorithm, size_kb, stage } => match algorithm {
                Algorithm::Grayscale { format } => {
                    &&& format == self.plan.format
                    &&& artifact == Artifact::Gray
                    &&& size_kb <= self.plan.target_kb
                    &&& stage == Some(FallbackStage::Grayscale)
                },
                Algorithm::Resized { format, scale_percent } => {
                    &&& format == self.plan.format
                    &&& artifact is Resized
                    &&& size_kb <= self.plan.target_kb
                    &&& MIN_SCALE <= scale_percent <= MAX_SCALE
                    &&& stage == Some(FallbackStage::Resize)
                },
                Algorithm::BestEffortColor { format } | Algorithm::BestEffort { format } => {
                    &&& format == self.plan.format
                    &&& artifact == self.plan.candidate
                    &&& size_kb == self.plan.candidate_kb
                    &&& stage == Some(FallbackStage::BestEffort)
                },
                Algorithm::SmallestResize { format } => {
                    &&& format == self.plan.format
                    &&& stage == Some(FallbackStage::BestEffort)
                },
                _ => false,
            },
            Outcome::Failed(failure) => failure is Cancelled || failure is UnexpectedEvent,
        }
    }

    /// What holds of every state the fallbacks can be in.
    pub open spec fn wf(self) -> bool {
        match self.phase {
            FallbackPhase::Graying => true,
            FallbackPhase::ConfirmGrayscale { gray_kb } => !self.plan.auto_yes && gray_kb
                <= self.plan.target_kb,
            FallbackPhase::ConfirmGrayResize { gray_kb } => !self.plan.auto_yes && gray_kb
                < self.plan.color_kb,
            FallbackPhase::ConfirmColorResize => !self.plan.auto_yes,
            FallbackPhase::ConfirmResize => !self.plan.auto_yes,
            FallbackPhase::Resizing { probing, .. } => probing.wf(
                MIN_SCALE,
                MAX_SCALE,
                MAX_RESIZE_PROBES,
                self.plan.target_kb,
            ) && probing.pending() is Some,
            FallbackPhase::Polishing { outcome } => {
                &&& self.plan.format is Png
                &&& self.vouches(outcome)
                &&& outcome matches Outcome::Saved { algorithm: Algorithm::Resized { .. }, .. }
            },
            FallbackPhase::ConfirmSmallest { .. } => !self.plan.auto_yes,
            FallbackPhase::Finished { outcome } => self.vouches(outcome),
        }
    }

    /// The most events the driver can still have to report before the run
    /// is over.
    pub open spec fn steps_left(self) -> nat {
        match self.phase {
            FallbackPhase::Graying => 13,
            FallbackPhase::ConfirmGrayscale { .. } => 12,
            FallbackPhase::ConfirmGrayResize { .. } => 11,
            FallbackPhase::ConfirmColorResize => 10,
            FallbackPhase::ConfirmResize => 10,
            FallbackPhase::Resizing { probing, .. } => probing.search.range.probes_left as nat + 1,
            FallbackPhase::Polishing { .. } => 1,
            FallbackPhase::ConfirmSmallest { .. } => 1,
            FallbackPhase::Finished { .. } => 0,
        }
    }

    /// The fallbacks open in a state they can be in.
    pub proof fn lemma_begun(plan: Waterfall)
        ensures
            Fallback::begun(plan).0.wf(),
            Fallback::begun(plan).1 == Fallback::begun(plan).0.awaited(),
            Fallback::begun(plan).0.plan == plan,
            Fallback::begun(plan).0.steps_left() == 13,
    {
    }

    proof fn lemma_resizing_begun(self, base: Artifact, base_kb: u64)
        ensures
            self.resizing_begun(base, base_kb).0.wf(),
            self.resizing_begun(base, base_kb).0.steps_left() == 9,
            self.resizing_begun(base, base_kb).1 == self.resizing_begun(base, base_kb).0.awaited(),
            self.resizing_begun(base, base_kb).0.plan == self.plan,
    {
        Probing::lemma_begun_wf(MIN_SCALE, MAX_SCALE, MAX_RESIZE_PROBES, self.plan.target_kb);
    }

    /// One step on: the state is again one the fallbacks can be in, the
    /// action handed out is the one that state waits for, the plan is the
    /// same, and the run is at least one event nearer its end.
    pub proof fn lemma_advanced(self, event: Event)
        requires
            self.wf(),
        ensures
            self.advanced(event).0.wf(),
            self.advanced(event).1 == self.advanced(event).0.awaited(),
            self.advanced(event).0.plan == self.plan,
            self.steps_left() > 0 ==> self.advanced(event).0.steps_left() < self.steps_left(),
            self.steps_left() == 0 ==> self.advanced(event) == (self, self.awaited()),
    {
        match self.phase {
            FallbackPhase::Resizing { base, base_kb, probing } => {
                if let Event::Ran { success, size_kb } = event {
                    probing.lemma_observed_wf(
                        MIN_SCALE,
                        MAX_SCALE,
                        MAX_RESIZE_PROBES,
                        self.plan.target_kb,
                        size_kb,
                        success,
                    );
                }
            },
            FallbackPhase::ConfirmGrayResize { gray_kb } => {
                self.lemma_resizing_begun(Artifact::Gray, gray_kb);
            },
            FallbackPhase::ConfirmColorResize => {
                self.lemma_resizing_begun(self.plan.color, self.plan.color_kb);
            },
            FallbackPhase::ConfirmResize => {
                self.lemma_resizing_begun(self.plan.color, self.plan.color_kb);
            },
            FallbackPhase::Graying => {
                if let Event::Ran { success, size_kb } = event {
                    self.at(FallbackPhase::ConfirmGrayResize { gray_kb: size_kb }).lemma_resizing_begun(
                        Artifact::Gray,
                        size_kb,
                    );
                    self.at(FallbackPhase::ConfirmResize).lemma_resizing_begun(
                        self.plan.color,
                        self.plan.color_kb,
                    );
                }
            },
            _ => {},
        }
    }

    fn goto(self, phase: FallbackPhase) -> (r: Fallback)
        ensures
            r == self.at(phase),
    {
        Fallback { plan: self.plan, phase }
    }

    fn finish(self, outcome: Outcome) -> (r: (Fallback, Action))
        ensures
            r == self.finished(outcome),
    {
        (self.goto(FallbackPhase::Finished { outcome }), Action::Finish(outcome))
    }

    pub fn begin(plan: Waterfall) -> (r: (Fallback, Action))
        ensures
            r == Fallback::begun(plan),
    {
        (
            Fallback { plan, phase: FallbackPhase::Graying },
            Action::Invoke(Invocation::Grayscale { input: plan.color }),
        )
    }

    fn begin_resize(self, base: Artifact, base_kb: u64) -> (r: (Fallback, Action))
        ensures
            r == self.resizing_begun(base, base_kb),
    {
        let probing = Probing::new(MIN_SCALE, MAX_SCALE, MAX_RESIZE_PROBES, self.plan.target_kb);
        let scale = probing.next_knob().unwrap();
        (
            self.goto(FallbackPhase::Resizing { base, base_kb, probing }),
            Action::Invoke(
                Invocation::Resize {
                    input: base,
                    scale_percent: scale,
                    output: Artifact::Resized(probing.next_slot()),
                },
            ),
        )
    }

    fn accept(self) -> (r: (Fallback, Action))
        ensures
            r == self.accepted(),
    {
        match self.phase {
            FallbackPhase::ConfirmGrayscale { gray_kb } => self.finish(
                Outcome::Saved {
                    artifact: Artifact::Gray,
                    algorithm: Algorithm::Grayscale { format: self.plan.format },
                    size_kb: gray_kb,
                    stage: Some(FallbackStage::Grayscale),
                },
            ),
            FallbackPhase::ConfirmGrayResize { gray_kb } => self.begin_resize(
                Artifact::Gray,
                gray_kb,
            ),
            FallbackPhase::ConfirmColorResize => self.begin_resize(
                self.plan.color,
                self.plan.color_kb,
            ),
            FallbackPhase::ConfirmResize => self.begin_resize(self.plan.color, self.plan.color_kb),
            FallbackPhase::ConfirmSmallest { artifact, size_kb } => self.finish(
                Outcome::Saved {
                    artifact,
                    algorithm: Algorithm::SmallestResize { format: self.plan.format },
                    size_kb,
                    stage: Some(FallbackStage::BestEffort),
                },
            ),
            _ => self.finish(Outcome::Failed(Failure::UnexpectedEvent)),
        }
    }

    fn ask(self, prompt: Prompt) -> (r: (Fallback, Action))
        ensures
            r == self.asked(prompt),
    {
        if self.plan.auto_yes {
            self.accept()
        } else {
            (self, Action::Ask(prompt))
        }
    }

    fn choose_base(self, gray_kb: Option<u64>) -> (r: (Fallback, Action))
        ensures
            r == self.base_chosen(gray_kb),
    {
        match gray_kb {
            Some(g) if g < self.plan.color_kb => self.goto(
                FallbackPhase::ConfirmGrayResize { gray_kb: g },
            ).ask(Prompt::ResizeGrayscale { gray_kb: g, target_kb: self.plan.target_kb }),
            _ => self.goto(FallbackPhase::ConfirmResize).ask(
                Prompt::ResizeImage { color_kb: self.plan.color_kb, target_kb: self.plan.target_kb },
            ),
        }
    }

    fn decline(self) -> (r: (Fallback, Action))
        ensures
            r == self.declined(),
    {
        match self.phase {
            FallbackPhase::ConfirmGrayscale { gray_kb } => self.choose_base(Some(gray_kb)),
            FallbackPhase::ConfirmGrayResize { .. } => self.goto(
                FallbackPhase::ConfirmColorResize,
            ).ask(
                Prompt::ResizeColor { color_kb: self.plan.color_kb, target_kb: self.plan.target_kb },
            ),
            FallbackPhase::ConfirmColorResize => self.finish(
                Outcome::Saved {
                    artifact: self.plan.candidate,
                    algorithm: Algorithm::BestEffortColor { format: self.plan.format },
                    size_kb: self.plan.candidate_kb,
                    stage: Some(FallbackStage::BestEffort),
                },
            ),
            FallbackPhase::ConfirmResize => self.finish(
                Outcome::Saved {
                    artifact: self.plan.candidate,
                    algorithm: Algorithm::BestEffort { format: self.plan.format },
                    size_kb: self.plan.candidate_kb,
                    stage: Some(FallbackStage::BestEffort),
                },
            ),
            FallbackPhase::ConfirmSmallest { .. } => self.finish(Outcome::Failed(Failure::Cancelled)),
            _ => self.finish(Outcome::Failed(Failure::UnexpectedEvent)),
        }
    }

    fn on_gray(self, success: bool, gray_kb: u64) -> (r: (Fallback, Action))
        ensures
            r == self.grayed(success, gray_kb),
    {
        if success && gray_kb <= self.plan.target_kb {
            self.goto(FallbackPhase::ConfirmGrayscale { gray_kb }).ask(
                Prompt::AcceptGrayscale { gray_kb, target_kb: self.plan.target_kb },
            )
        } else if success {
            self.choose_base(Some(gray_kb))
        } else {
            self.choose_base(None)
        }
    }

    fn conclude_resize(self, base: Artifact, base_kb: u64, probing: Probing) -> (r: (
        Fallback,
        Action,
    ))
        ensures
            r == self.resize_concluded(base, base_kb, probing),
    {
        match probing.best() {
            Some((best, slot)) => {
                let outcome = Outcome::Saved {
                    artifact: Artifact::Resized(slot),
                    algorithm: Algorithm::Resized {
                        format: self.plan.format,
                        scale_percent: best.knob,
                    },
                    size_kb: best.size_kb,
                    stage: Some(FallbackStage::Resize),
                };
                match self.plan.format {
                    Format::Png => (
                        self.goto(FallbackPhase::Polishing { outcome }),
                        Action::Invoke(Invocation::Polish { target: Artifact::Resized(slot) }),
                    ),
                    _ => self.finish(outcome),
                }
            },
            None => {
                let (artifact, size_kb) = match probing.spare_kb {
                    Some(s) => (Artifact::Resized(probing.next_slot()), s),
                    None => (base, base_kb),
                };
                self.goto(FallbackPhase::ConfirmSmallest { artifact, size_kb }).ask(
                    Prompt::SaveSmallest { smallest_kb: size_kb, target_kb: self.plan.target_kb },
                )
            },
        }
    }

    fn on_resize(
        self,
        base: Artifact,
        base_kb: u64,
        probing: Probing,
        success: bool,
        size_kb: u64,
    ) -> (r: (Fallback, Action))
        ensures
            r == self.resized(base, base_kb, probing, success, size_kb),
    {
        let mut next = probing;
        next.observe(size_kb, success);
        match next.next_knob() {
            Some(scale) => (
                self.goto(FallbackPhase::Resizing { base, base_kb, probing: next }),
                Action::Invoke(
                    Invocation::Resize {
                        input: base,
                        scale_percent: scale,
                        output: Artifact::Resized(next.next_slot()),
                    },
                ),
            ),
            None => self.conclude_resize(base, base_kb, next),
        }
    }

    /// Takes in what the driver reports and says what to do next.
    pub fn advance(self, event: Event) -> (r: (Fallback, Action))
        ensures
            r == self.advanced(event),
    {
        match self.phase {
            FallbackPhase::Finished { outcome } => (self, Action::Finish(outcome)),
            FallbackPhase::Graying => match event {
                Event::Ran { success, size_kb } => self.on_gray(success, size_kb),
                _ => self.finish(Outcome::Failed(Failure::UnexpectedEvent)),
            },
            FallbackPhase::Resizing { base, base_kb, probing } => match event {
                Event::Ran { success, size_kb } => self.on_resize(
                    base,
                    base_kb,
                    probing,
                    success,
                    size_kb,
                ),
                _ => self.finish(Outcome::Failed(Failure::UnexpectedEvent)),
            },
            FallbackPhase::Polishing { outcome } => match event {
                Event::Ran { .. } => self.finish(outcome),
                _ => self.finish(Outcome::Failed(Failure::UnexpectedEvent)),
            },
            _ => match event {
                Event::Answered { yes } => if yes {
                    self.accept()
                } else {
                    self.decline()
                },
                _ => self.finish(Outcome::Failed(Failure::UnexpectedEvent)),
            },
        }
    }
}

} // verus!
