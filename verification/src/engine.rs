//! The engine a driver talks to: it short-circuits a target that the input
//! already meets, and otherwise hands the run to the engine of the format.

use crate::jpeg::JpegEngine;
use crate::pdf::PdfEngine;
use crate::png::PngEngine;
use crate::protocol::{
    Action, Algorithm, Artifact, CompressionRequest, Event, Failure, Format, Outcome, Prompt,
};
use vstd::prelude::*;

verus! {

/// A run of any format.
#[derive(Clone, Copy, Debug, PartialEq, Eq, Structural)]
pub enum Engine {
    /// The target is no smaller than the input: waiting to hear whether to
    /// keep the input as it is.
    KeepOriginal { request: CompressionRequest },
    Png { png: PngEngine },
    Jpeg { jpeg: JpegEngine },
    Pdf { pdf: PdfEngine },
    Finished { outcome: Outcome },
}

impl Engine {
    /// The input kept as it is.
    pub open spec fn original_kept(request: CompressionRequest) -> Outcome {
        Outcome::Saved {
            artifact: Artifact::Original,
            algorithm: Algorithm::NoCompression,
            size_kb: request.original_kb,
            stage: None,
        }
    }

    pub open spec fn finished(outcome: Outcome) -> (Engine, Action) {
        (Engine::Finished { outcome }, Action::Finish(outcome))
    }

    /// What the run waits for the driver to do.
    pub open spec fn awaited(self) -> Action {
        match self {
            Engine::KeepOriginal { request } => Action::Ask(
                Prompt::KeepOriginal {
                    original_kb: request.original_kb,
                    target_kb: match request.target_kb {
                        Some(t) => t,
                        None => 0,
                    },
                },
            ),
            Engine::Png { png } => png.awaited(),
            Engine::Jpeg { jpeg } => jpeg.awaited(),
            Engine::Pdf { pdf } => pdf.awaited(),
            Engine::Finished { outcome } => Action::Finish(outcome),
        }
    }

    /// How a run opens. Where the target is no smaller than the input no
    /// codec is called: the input is kept, given consent. Otherwise the
    /// engine of the format opens.
    pub open spec fn begun(format: Format, request: CompressionRequest) -> (Engine, Action) {
        match request.target_kb {
            Some(target_kb) if target_kb >= request.original_kb => if request.auto_yes {
                Self::finished(Self::original_kept(request))
            } else {
                (
                    Engine::KeepOriginal { request },
                    Action::Ask(
                        Prompt::KeepOriginal { original_kb: request.original_kb, target_kb },
                    ),
                )
            },
            _ => match format {
                Format::Png => {
                    let (engine, action) = PngEngine::begun(request);
                    (Engine::Png { png: engine }, action)
                },
                Format::Jpeg => {
                    let (engine, action) = JpegEngine::begun(request);
                    (Engine::Jpeg { jpeg: engine }, action)
                },
                Format::Pdf => {
                    let (engine, action) = PdfEngine::begun(request);
                    (Engine::Pdf { pdf: engine }, action)
                },
            },
        }
    }

    /// The next state and action, for every state and every event.
    pub open spec fn advanced(self, event: Event) -> (Engine, Action) {
        match self {
            Engine::Finished { outcome } => (self, Action::Finish(outcome)),
            Engine::KeepOriginal { request } => match event {
                Event::Answered { yes } => if yes {
                    Self::finished(Self::original_kept(request))
                } else {
                    Self::finished(Outcome::Failed(Failure::CancelledByUser))
                },
                _ => Self::finished(Outcome::Failed(Failure::UnexpectedEvent)),
            },
            Engine::Png { png: engine } => {
                let (next, action) = engine.advanced(event);
                (Engine::Png { png: next }, action)
            },
            Engine::Jpeg { jpeg: engine } => {
                let (next, action) = engine.advanced(event);
                (Engine::Jpeg { jpeg: next }, action)
            },
            Engine::Pdf { pdf: engine } => {
                let (next, action) = engine.advanced(event);
                (Engine::Pdf { pdf: next }, action)
            },
        }
    }

    /// What holds of every state a run of `format` on `request` can be in.
    pub open spec fn wf(self, format: Format, request: CompressionRequest) -> bool {
        match self {
            Engine::KeepOriginal { request: r } => r == request && request.is_met_by_original()
                && !request.auto_yes,
            Engine::Png { png } => format is Png && png.request == request && png.wf()
                && !request.is_met_by_original(),
            Engine::Jpeg { jpeg } => format is Jpeg && jpeg.request == request && jpeg.wf()
                && !request.is_met_by_original(),
            Engine::Pdf { pdf } => format is Pdf && pdf.request == request && pdf.wf()
                && !request.is_met_by_original(),
            Engine::Finished { outcome } => request.is_met_by_original() && (outcome
                == Self::original_kept(request) || outcome == Outcome::Failed(
                Failure::CancelledByUser,
            ) || outcome == Outcome::Failed(Failure::UnexpectedEvent)),
        }
    }

    /// The most events the driver can still have to report before the run
    /// is over.
    pub open spec fn steps_left(self) -> nat {
        match self {
            Engine::KeepOriginal { .. } => 1,
            Engine::Png { png } => png.steps_left(),
            Engine::Jpeg { jpeg } => jpeg.steps_left(),
            Engine::Pdf { pdf } => pdf.steps_left(),
            Engine::Finished { .. } => 0,
        }
    }

    /// No run needs more events than this.
    pub open spec fn max_steps(format: Format) -> nat {
        match format {
            Format::Png => 22,
            Format::Jpeg => 15,
            Format::Pdf => 16,
        }
    }

    /// A run opens in a state it can be in.
    pub proof fn lemma_begun(format: Format, request: CompressionRequest)
        ensures
            Engine::begun(format, request).0.wf(format, request),
            Engine::begun(format, request).1 == Engine::begun(format, request).0.awaited(),
            Engine::begun(format, request).0.steps_left() <= Self::max_steps(format),
    {
        PngEngine::lemma_begun(request);
        JpegEngine::lemma_begun(request);
        PdfEngine::lemma_begun(request);
    }

    /// One step on: the state is again one the run can be in, the action
    /// handed out is the one that state waits for, and the run is at least
    /// one event nearer its end.
    pub proof fn lemma_advanced(self, format: Format, request: CompressionRequest, event: Event)
        requires
            self.wf(format, request),
        ensures
            self.advanced(event).0.wf(format, request),
            self.advanced(event).1 == self.advanced(event).0.awaited(),
            self.steps_left() > 0 ==> self.advanced(event).0.steps_left() < self.steps_left(),
            self.steps_left() == 0 ==> self.advanced(event) == (self, self.awaited()),
    {
        match self {
            Engine::Png { png } => {
                png.lemma_advanced(event);
            },
            Engine::Jpeg { jpeg } => {
                jpeg.lemma_advanced(event);
            },
            Engine::Pdf { pdf } => {
                pdf.lemma_advanced(event);
            },
            _ => {},
        }
    }

    fn keep_original(request: &CompressionRequest) -> (r: Outcome)
        ensures
            r == Self::original_kept(*request),
    {
        Outcome::Saved {
            artifact: Artifact::Original,
            algorithm: Algorithm::NoCompression,
            size_kb: request.original_kb,
            stage: None,
        }
    }

    fn finish(outcome: Outcome) -> (r: (Engine, Action))
        ensures
            r == Self::finished(outcome),
    {
        (Engine::Finished { outcome }, Action::Finish(outcome))
    }

    /// Opens a run and says what to do first.
    pub fn begin(format: Format, request: CompressionRequest) -> (r: (Engine, Action))
        ensures
            r == Engine::begun(format, request),
    {
        match request.target_kb {
            Some(target_kb) if target_kb >= request.original_kb => {
                if request.auto_yes {
                    Self::finish(Self::keep_original(&request))
                } else {
                    (
                        Engine::KeepOriginal { request },
                        Action::Ask(
                            Prompt::KeepOriginal { original_kb: request.original_kb, target_kb },
                        ),
                    )
                }
            },
            _ => match format {
                Format::Png => {
                    let (engine, action) = PngEngine::begin(request);
                    (Engine::Png { png: engine }, action)
                },
                Format::Jpeg => {
                    let (engine, action) = JpegEngine::begin(request);
                    (Engine::Jpeg { jpeg: engine }, action)
                },
                Format::Pdf => {
                    let (engine, action) = PdfEngine::begin(request);
                    (Engine::Pdf { pdf: engine }, action)
                },
            },
        }
    }

    /// Takes in what the driver reports and says what to do next.
    pub fn advance(self, event: Event) -> (r: (Engine, Action))
        ensures
            r == self.advanced(event),
    {
        match self {
            Engine::Finished { outcome } => (self, Action::Finish(outcome)),
            Engine::KeepOriginal { request } => match event {
                Event::Answered { yes } => if yes {
                    Self::finish(Self::keep_original(&request))
                } else {
                    Self::finish(Outcome::Failed(Failure::CancelledByUser))
                },
                _ => Self::finish(Outcome::Failed(Failure::UnexpectedEvent)),
            },
            Engine::Png { png: engine } => {
                let (next, action) = engine.advance(event);
                (Engine::Png { png: next }, action)
            },
            Engine::Jpeg { jpeg: engine } => {
                let (next, action) = engine.advance(event);
                (Engine::Jpeg { jpeg: next }, action)
            },
            Engine::Pdf { pdf: engine } => {
                let (next, action) = engine.advance(event);
                (Engine::Pdf { pdf: next }, action)
            },
        }
    }
}

} // verus!
