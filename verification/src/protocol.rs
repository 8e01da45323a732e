//! What an engine and its driver say to each other.
//!
//! An engine hands out one [`Action`] at a time. The driver carries it out
//! and answers with the matching [`Event`]: [`Event::Ran`] for an
//! [`Action::Invoke`], [`Event::Answered`] for an [`Action::Ask`]. After
//! [`Action::Finish`] there is nothing more to do.

use vstd::prelude::*;

verus! {

/// The file formats the engines know.
#[derive(Clone, Copy, Debug, PartialEq, Eq, Structural)]
pub enum Format {
    Jpeg,
    Png,
    Pdf,
}

/// A named quality level for a lossy pass without a byte target.
#[derive(Clone, Copy, Debug, PartialEq, Eq, PartialOrd, Ord, Structural)]
pub enum CompressionLevel {
    /// Better quality.
    Low,
    /// Balanced.
    Medium,
    /// Smallest size.
    High,
}

/// What one run is asked to do, with the measured size of its input.
#[derive(Clone, Copy, Debug, PartialEq, Eq, Structural)]
pub struct CompressionRequest {
    /// Size of the input file in whole KB.
    pub original_kb: u64,
    /// The size the output should not exceed, if any.
    pub target_kb: Option<u64>,
    pub level: Option<CompressionLevel>,
    /// Every question is taken as answered with yes, and none is asked.
    pub auto_yes: bool,
}

impl CompressionRequest {
    /// The target is no smaller than the input: there is nothing to gain.
    pub open spec fn is_met_by_original(self) -> bool {
        self.target_kb matches Some(t) && t >= self.original_kb
    }

    pub fn met_by_original(&self) -> (r: bool)
        ensures
            r == self.is_met_by_original(),
    {
        match self.target_kb {
            Some(t) => t >= self.original_kb,
            None => false,
        }
    }
}

/// One of the two scratch files a search writes its probes to in turn, so
/// that a probe never overwrites the best output so far.
#[derive(Clone, Copy, Debug, PartialEq, Eq, Structural)]
pub enum Slot {
    A,
    B,
}

impl Slot {
    pub open spec fn other(self) -> Slot {
        match self {
            Slot::A => Slot::B,
            Slot::B => Slot::A,
        }
    }

    pub fn flip(&self) -> (r: Slot)
        ensures
            r == self.other(),
            r != *self,
    {
        match self {
            Slot::A => Slot::B,
            Slot::B => Slot::A,
        }
    }
}

/// A file of the run: the input, or an intermediate output of one stage.
#[derive(Clone, Copy, Debug, PartialEq, Eq, Structural)]
pub enum Artifact {
    /// The input file.
    Original,
    /// PNG after the lossless strip.
    Stripped,
    /// PNG after colour quantization.
    Quantized(Slot),
    /// The image converted to 8-bit grayscale.
    Gray,
    /// The image scaled down.
    Resized(Slot),
    /// JPEG after the lossless pass.
    Optimized,
    /// JPEG after a lossy pass.
    Lossy,
    /// PDF rendered with the most aggressive preset.
    Floor,
    /// PDF rendered at a chosen resolution.
    Rendered(Slot),
    /// PDF rendered with the preset picked for its size.
    Preset,
}

impl Artifact {
    pub open spec fn is_temporary(self) -> bool {
        self != Artifact::Original
    }
}

/// The built-in Ghostscript presets, from most to least aggressive.
#[derive(Clone, Copy, Debug, PartialEq, Eq, Structural)]
pub enum Preset {
    Screen,
    Ebook,
    Printer,
}

/// One call of a codec.
#[derive(Clone, Copy, Debug, PartialEq, Eq, Structural)]
pub enum Invocation {
    /// Render the PDF input. A resolution, where given, overrides what the
    /// preset says of colour, gray and mono images.
    Render { preset: Option<Preset>, dpi: Option<u64>, output: Artifact },
    /// Strip the PNG input of metadata, losslessly, into `Stripped`.
    StripMetadata,
    /// Quantize `Stripped` with a quality between the two bounds.
    Quantize { min_quality: u64, max_quality: u64, output: Artifact },
    /// Convert `input` to 8-bit grayscale, into `Gray`.
    Grayscale { input: Artifact },
    /// Scale `input` to `scale_percent` of its dimensions.
    Resize { input: Artifact, scale_percent: u64, output: Artifact },
    /// Repack `target` in place, losslessly.
    Polish { target: Artifact },
    /// Optimize the JPEG input losslessly, into `Optimized`.
    LosslessOptimize,
    /// Recompress `input` toward `extent_kb`, into `Lossy`.
    LossyExtent { input: Artifact, extent_kb: u64 },
    /// Recompress `input` at `quality`, into `Lossy`.
    LossyQuality { input: Artifact, quality: u64 },
}

impl Invocation {
    /// The file this call writes.
    pub open spec fn output(self) -> Artifact {
        match self {
            Invocation::Render { output, .. } => output,
            Invocation::StripMetadata => Artifact::Stripped,
            Invocation::Quantize { output, .. } => output,
            Invocation::Grayscale { .. } => Artifact::Gray,
            Invocation::Resize { output, .. } => output,
            Invocation::Polish { target } => target,
            Invocation::LosslessOptimize => Artifact::Optimized,
            Invocation::LossyExtent { .. } => Artifact::Lossy,
            Invocation::LossyQuality { .. } => Artifact::Lossy,
        }
    }

    /// The file this call reads.
    pub open spec fn input(self) -> Artifact {
        match self {
            Invocation::Render { .. } => Artifact::Original,
            Invocation::StripMetadata => Artifact::Original,
            Invocation::Quantize { .. } => Artifact::Stripped,
            Invocation::Grayscale { input } => input,
            Invocation::Resize { input, .. } => input,
            Invocation::Polish { target } => target,
            Invocation::LosslessOptimize => Artifact::Original,
            Invocation::LossyExtent { input, .. } => input,
            Invocation::LossyQuality { input, .. } => input,
        }
    }

    /// The stage of the waterfall this call belongs to, if any.
    pub open spec fn stage(self) -> Option<FallbackStage> {
        match self {
            Invocation::Quantize { .. } => Some(FallbackStage::Quantize),
            Invocation::Grayscale { .. } => Some(FallbackStage::Grayscale),
            Invocation::Resize { .. } => Some(FallbackStage::Resize),
            _ => None,
        }
    }

    pub fn writes(&self) -> (r: Artifact)
        ensures
            r == self.output(),
    {
        match *self {
            Invocation::Render { output, .. } => output,
            Invocation::StripMetadata => Artifact::Stripped,
            Invocation::Quantize { output, .. } => output,
            Invocation::Grayscale { .. } => Artifact::Gray,
            Invocation::Resize { output, .. } => output,
            Invocation::Polish { target } => target,
            Invocation::LosslessOptimize => Artifact::Optimized,
            Invocation::LossyExtent { .. } => Artifact::Lossy,
            Invocation::LossyQuality { .. } => Artifact::Lossy,
        }
    }

    pub fn reads(&self) -> (r: Artifact)
        ensures
            r == self.input(),
    {
        match *self {
            Invocation::Render { .. } => Artifact::Original,
            Invocation::StripMetadata => Artifact::Original,
            Invocation::Quantize { .. } => Artifact::Stripped,
            Invocation::Grayscale { input } => input,
            Invocation::Resize { input, .. } => input,
            Invocation::Polish { target } => target,
            Invocation::LosslessOptimize => Artifact::Original,
            Invocation::LossyExtent { input, .. } => input,
            Invocation::LossyQuality { input, .. } => input,
        }
    }
}

/// A question put to the user before something irreversible is kept. Each
/// carries the sizes the user should see before deciding.
#[derive(Clone, Copy, Debug, PartialEq, Eq, Structural)]
pub enum Prompt {
    /// The target is no smaller than the input: keep the input as it is?
    KeepOriginal { original_kb: u64, target_kb: u64 },
    /// Grayscale reaches the target: accept it?
    AcceptGrayscale { gray_kb: u64, target_kb: u64 },
    /// Colour cannot reach the target: resize the grayscale image?
    ResizeGrayscale { gray_kb: u64, target_kb: u64 },
    /// Resize the colour image instead?
    ResizeColor { color_kb: u64, target_kb: u64 },
    /// The target is out of reach: resize the image?
    ResizeImage { color_kb: u64, target_kb: u64 },
    /// No scale reaches the target: save the smallest attempt?
    SaveSmallest { smallest_kb: u64, target_kb: u64 },
    /// The floor of the PDF is above the target: save the floor?
    SaveFloor { floor_kb: u64, target_kb: u64 },
}

impl Prompt {
    /// The answer offered to the user as the default.
    pub open spec fn default_answer(self) -> bool {
        !(self is ResizeColor || self is ResizeImage)
    }

    pub fn default_yes(&self) -> (r: bool)
        ensures
            r == self.default_answer(),
    {
        match self {
            Prompt::ResizeColor { .. } => false,
            Prompt::ResizeImage { .. } => false,
            _ => true,
        }
    }
}

/// How far down the waterfall of destructive fallbacks a run descended.
#[derive(Clone, Copy, Debug, PartialEq, Eq, Structural)]
pub enum FallbackStage {
    Quantize,
    Grayscale,
    Resize,
    BestEffort,
}

impl FallbackStage {
    /// Position in the fixed order of the waterfall.
    pub open spec fn rank(self) -> nat {
        match self {
            FallbackStage::Quantize => 0,
            FallbackStage::Grayscale => 1,
            FallbackStage::Resize => 2,
            FallbackStage::BestEffort => 3,
        }
    }

    pub fn order(&self) -> (r: u8)
        ensures
            r == self.rank(),
    {
        match self {
            FallbackStage::Quantize => 0,
            FallbackStage::Grayscale => 1,
            FallbackStage::Resize => 2,
            FallbackStage::BestEffort => 3,
        }
    }
}

/// What produced the file that was kept.
#[derive(Clone, Copy, Debug, PartialEq, Eq, Structural)]
pub enum Algorithm {
    /// The target was no smaller than the input.
    NoCompression,
    /// PNG: the lossless strip alone.
    PngLossless,
    /// PNG: strip, then quantization at the quality the search found.
    PngHybrid { quality: u64 },
    /// Grayscale conversion met the target.
    Grayscale { format: Format },
    /// The user declined to resize a colour image that grayscale would have
    /// made smaller.
    BestEffortColor { format: Format },
    /// The user declined to resize.
    BestEffort { format: Format },
    /// The image was resized to the scale the search found.
    Resized { format: Format, scale_percent: u64 },
    /// No scale met the target; the smallest attempt was kept.
    SmallestResize { format: Format },
    /// JPEG: the first rung of the ladder that held.
    StandardPreset { target_kb: u64 },
    /// JPEG: no rung of the ladder held.
    NoReduction,
    /// JPEG: the lossless pass alone.
    JpegLossless,
    /// JPEG: lossless pass, then one lossy pass.
    JpegLossy,
    /// PDF: the preset picked for the size of the input.
    SmartCompression { preset: Preset },
    /// PDF: the floor, kept although above the target.
    Floor,
    /// PDF: the resolution the search found.
    BinarySearch { dpi: u64 },
    /// PDF: no resolution met the target; the floor was kept.
    FallbackScreen,
}

/// The codecs an engine cannot go on without.
#[derive(Clone, Copy, Debug, PartialEq, Eq, Structural)]
pub enum Tool {
    Oxipng,
    ImageMagick,
    Ghostscript,
}

/// Why a run ended without an output.
#[derive(Clone, Copy, Debug, PartialEq, Eq, Structural)]
pub enum Failure {
    /// The user declined to keep the original.
    CancelledByUser,
    /// The user declined the best effort.
    Cancelled,
    /// A pass that nothing can stand in for failed.
    ToolFailed(Tool),
    /// The driver answered with an event the engine was not waiting for.
    UnexpectedEvent,
}

/// How a run ended.
#[derive(Clone, Copy, Debug, PartialEq, Eq, Structural)]
pub enum Outcome {
    /// `artifact` becomes the output; every other temporary file goes.
    Saved { artifact: Artifact, algorithm: Algorithm, size_kb: u64, stage: Option<FallbackStage> },
    Failed(Failure),
}

impl Outcome {
    /// What an outcome says of the request it ends: a file named as
    /// meeting the target is no larger than the target, a rung of the
    /// ladder is no larger than its own extent, and a floor is kept only
    /// where it is above the target.
    pub open spec fn honours(self, request: CompressionRequest) -> bool {
        match self {
            Outcome::Saved { artifact, algorithm, size_kb, stage } => match algorithm {
                Algorithm::NoCompression => request.is_met_by_original() && artifact
                    == Artifact::Original && size_kb == request.original_kb,
                Algorithm::PngLossless | Algorithm::JpegLossy => request.target_kb matches Some(t)
                    ==> size_kb <= t,
                Algorithm::PngHybrid { .. }
                | Algorithm::Grayscale { .. }
                | Algorithm::Resized { .. }
                | Algorithm::JpegLossless
                | Algorithm::BinarySearch { .. } => request.target_kb matches Some(t) && size_kb
                    <= t,
                Algorithm::BestEffortColor { .. }
                | Algorithm::BestEffort { .. }
                | Algorithm::SmallestResize { .. }
                | Algorithm::FallbackScreen => request.target_kb is Some,
                Algorithm::StandardPreset { target_kb } => request.target_kb is None && size_kb
                    <= target_kb <= request.original_kb,
                Algorithm::NoReduction => request.target_kb is None && artifact
                    == Artifact::Original && size_kb == request.original_kb,
                Algorithm::SmartCompression { .. } => request.target_kb is None,
                Algorithm::Floor => request.target_kb matches Some(t) && size_kb > t && artifact
                    == Artifact::Floor,
            },
            Outcome::Failed(_) => true,
        }
    }
}

/// What the driver reports back.
#[derive(Clone, Copy, Debug, PartialEq, Eq, Structural)]
pub enum Event {
    /// The codec returned; `size_kb` is the size of what it wrote, 0 where
    /// there is no such file.
    Ran { success: bool, size_kb: u64 },
    /// The question was answered with yes or no.
    Answered { yes: bool },
}

/// What the driver is to do next.
#[derive(Clone, Copy, Debug, PartialEq, Eq, Structural)]
pub enum Action {
    Invoke(Invocation),
    Ask(Prompt),
    Finish(Outcome),
}

impl Action {
    /// The event this action is answered with. `Finish` waits for none.
    pub open spec fn accepts(self, event: Event) -> bool {
        match self {
            Action::Invoke(_) => event is Ran,
            Action::Ask(_) => event is Answered,
            Action::Finish(_) => false,
        }
    }
}

/// The size oracle: whole kilobytes, rounded down.
pub fn size_kb(bytes: u64) -> (kb: u64)
    ensures
        kb == bytes / 1024,
{
    bytes / 1024
}

} // verus!
