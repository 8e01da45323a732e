//! The words a run is reported in: the name of the algorithm that produced
//! the output, the text of each question, and the message of each failure.

use crate::protocol::{Algorithm, Failure, Format, Preset, Prompt, Tool};
use crate::size::{all_digits, number_value};
use vstd::prelude::*;

verus! {

pub open spec fn digit_char(d: nat) -> char {
    if d == 0 {
        '0'
    } else if d == 1 {
        '1'
    } else if d == 2 {
        '2'
    } else if d == 3 {
        '3'
    } else if d == 4 {
        '4'
    } else if d == 5 {
        '5'
    } else if d == 6 {
        '6'
    } else if d == 7 {
        '7'
    } else if d == 8 {
        '8'
    } else {
        '9'
    }
}

/// `n` written in decimal, without leading zeros.
pub open spec fn decimal_digits(n: nat) -> Seq<char>
    decreases n,
{
    if n < 10 {
        seq![digit_char(n)]
    } else {
        decimal_digits(n / 10).push(digit_char(n % 10))
    }
}

/// What `decimal_digits` writes reads back as the number it was written
/// for: it is all digits, and the number those digits write is `n`.
pub proof fn lemma_decimal_reads_back(n: nat)
    ensures
        all_digits(decimal_digits(n)),
        number_value(decimal_digits(n)) == n,
        decimal_digits(n).len() > 0,
    decreases n,
{
    let digits = decimal_digits(n);
    if n < 10 {
        assert(number_value(digits.drop_last()) == 0);
    } else {
        let front = decimal_digits(n / 10);
        lemma_decimal_reads_back(n / 10);
        assert(digits.drop_last() =~= front);
    }
}

fn digit_text(d: u64) -> (text: &'static str)
    requires
        d < 10,
    ensures
        text@ == seq![digit_char(d as nat)],
{
    proof {
        reveal_strlit("0");
        reveal_strlit("1");
        reveal_strlit("2");
        reveal_strlit("3");
        reveal_strlit("4");
        reveal_strlit("5");
        reveal_strlit("6");
        reveal_strlit("7");
        reveal_strlit("8");
        reveal_strlit("9");
    }
    let text = if d == 0 {
        "0"
    } else if d == 1 {
        "1"
    } else if d == 2 {
        "2"
    } else if d == 3 {
        "3"
    } else if d == 4 {
        "4"
    } else if d == 5 {
        "5"
    } else if d == 6 {
        "6"
    } else if d == 7 {
        "7"
    } else if d == 8 {
        "8"
    } else {
        "9"
    };
    text
}

/// Writes `n` in decimal.
pub fn decimal(n: u64) -> (text: String)
    ensures
        text@ == decimal_digits(n as nat),
    decreases n,
{
    if n < 10 {
        String::from_str(digit_text(n))
    } else {
        let mut text = decimal(n / 10);
        let last = digit_text(n % 10);
        text.append(last);
        text
    }
}

impl Preset {
    /// The name Ghostscript knows the preset by.
    pub open spec fn name_text(self) -> Seq<char> {
        match self {
            Preset::Screen => "/screen"@,
            Preset::Ebook => "/ebook"@,
            Preset::Printer => "/printer"@,
        }
    }

    pub fn name(&self) -> (text: &'static str)
        ensures
            text@ == self.name_text(),
    {
        match self {
            Preset::Screen => "/screen",
            Preset::Ebook => "/ebook",
            Preset::Printer => "/printer",
        }
    }
}

impl Format {
    /// The name the fallbacks report a format by.
    pub open spec fn tag_text(self) -> Seq<char> {
        match self {
            Format::Jpeg => "JPG"@,
            Format::Png => "PNG"@,
            Format::Pdf => "PDF"@,
        }
    }

    pub fn tag(&self) -> (text: &'static str)
        ensures
            text@ == self.tag_text(),
    {
        match self {
            Format::Jpeg => "JPG",
            Format::Png => "PNG",
            Format::Pdf => "PDF",
        }
    }
}

impl Algorithm {
    /// The name a run reports its algorithm by.
    pub open spec fn label_text(self) -> Seq<char> {
        match self {
            Algorithm::NoCompression => "No compression (requested size >= original)"@,
            Algorithm::PngLossless => "oxipng (Lossless)"@,
            Algorithm::PngHybrid { .. } => "Hybrid (Oxipng + Binary Search)"@,
            Algorithm::Grayscale { format } => if format is Png {
                "pngquant + Grayscale"@
            } else {
                format.tag_text() + " + Grayscale"@
            },
            Algorithm::BestEffortColor { format } => if format is Png {
                "pngquant (Best Effort Color)"@
            } else {
                "Best Effort"@
            },
            Algorithm::BestEffort { format } => if format is Png {
                "pngquant (Best Effort)"@
            } else {
                "Best Effort"@
            },
            Algorithm::Resized { format, scale_percent } => if format is Png {
                "Hybrid Chain"@
            } else {
                format.tag_text() + " + Resize "@ + decimal_digits(scale_percent as nat) + "%"@
            },
            Algorithm::SmallestResize { format } => if format is Png {
                "Hybrid Chain"@
            } else {
                "Best Effort"@
            },
            Algorithm::StandardPreset { target_kb } => "jpegoptim + magick (Standard Preset, target "@
                + decimal_digits(target_kb as nat) + " KB)"@,
            Algorithm::NoReduction => "jpegoptim + magick (No reduction, original kept)"@,
            Algorithm::JpegLossless => "jpegoptim (Lossless)"@,
            Algorithm::JpegLossy => "jpegoptim + ImageMagick"@,
            Algorithm::SmartCompression { preset } => "Smart Compression ("@ + preset.name_text()
                + ")"@,
            Algorithm::Floor => "Floor (Min Quality)"@,
            Algorithm::BinarySearch { dpi } => "Binary Search ("@ + decimal_digits(dpi as nat)
                + " DPI)"@,
            Algorithm::FallbackScreen => "Fallback /screen"@,
        }
    }

    pub fn label(&self) -> (text: String)
        ensures
            text@ == self.label_text(),
    {
        match *self {
            Algorithm::NoCompression => String::from_str(
                "No compression (requested size >= original)",
            ),
            Algorithm::PngLossless => String::from_str("oxipng (Lossless)"),
            Algorithm::PngHybrid { .. } => String::from_str("Hybrid (Oxipng + Binary Search)"),
            Algorithm::Grayscale { format } => match format {
                Format::Png => String::from_str("pngquant + Grayscale"),
                _ => String::from_str(format.tag()).concat(" + Grayscale"),
            },
            Algorithm::BestEffortColor { format } => match format {
                Format::Png => String::from_str("pngquant (Best Effort Color)"),
                _ => String::from_str("Best Effort"),
            },
            Algorithm::BestEffort { format } => match format {
                Format::Png => String::from_str("pngquant (Best Effort)"),
                _ => String::from_str("Best Effort"),
            },
            Algorithm::Resized { format, scale_percent } => match format {
                Format::Png => String::from_str("Hybrid Chain"),
                _ => String::from_str(format.tag()).concat(" + Resize ").concat(
                    decimal(scale_percent).as_str(),
                ).concat("%"),
            },
            Algorithm::SmallestResize { format } => match format {
                Format::Png => String::from_str("Hybrid Chain"),
                _ => String::from_str("Best Effort"),
            },
            Algorithm::StandardPreset { target_kb } => String::from_str(
                "jpegoptim + magick (Standard Preset, target ",
            ).concat(decimal(target_kb).as_str()).concat(" KB)"),
            Algorithm::NoReduction => String::from_str(
                "jpegoptim + magick (No reduction, original kept)",
            ),
            Algorithm::JpegLossless => String::from_str("jpegoptim (Lossless)"),
            Algorithm::JpegLossy => String::from_str("jpegoptim + ImageMagick"),
            Algorithm::SmartCompression { preset } => String::from_str(
                "Smart Compression (",
            ).concat(preset.name()).concat(")"),
            Algorithm::Floor => String::from_str("Floor (Min Quality)"),
            Algorithm::BinarySearch { dpi } => String::from_str("Binary Search (").concat(
                decimal(dpi).as_str(),
            ).concat(" DPI)"),
            Algorithm::FallbackScreen => String::from_str("Fallback /screen"),
        }
    }
}

impl Prompt {
    /// The question as the user reads it.
    pub open spec fn question_text(self) -> Seq<char> {
        match self {
            Prompt::KeepOriginal { .. } => "Keep original file?"@,
            Prompt::AcceptGrayscale { gray_kb, .. } => "Target reached by converting to Grayscale ("@
                + decimal_digits(gray_kb as nat) + " KB). Proceed?"@,
            Prompt::ResizeGrayscale { .. } => "Target unreachable in Color. Proceed with Grayscale Resizing?"@,
            Prompt::ResizeColor { .. } => "Resize the Color image instead?"@,
            Prompt::ResizeImage { .. } => "Target unreachable. Resize image dimensions?"@,
            Prompt::SaveSmallest { .. } => "Target unreachable. Save smallest possible?"@,
            Prompt::SaveFloor { .. } => "Save the smallest possible version?"@,
        }
    }

    pub fn question(&self) -> (text: String)
        ensures
            text@ == self.question_text(),
    {
        match *self {
            Prompt::KeepOriginal { .. } => String::from_str("Keep original file?"),
            Prompt::AcceptGrayscale { gray_kb, .. } => String::from_str(
                "Target reached by converting to Grayscale (",
            ).concat(decimal(gray_kb).as_str()).concat(" KB). Proceed?"),
            Prompt::ResizeGrayscale { .. } => String::from_str(
                "Target unreachable in Color. Proceed with Grayscale Resizing?",
            ),
            Prompt::ResizeColor { .. } => String::from_str("Resize the Color image instead?"),
            Prompt::ResizeImage { .. } => String::from_str(
                "Target unreachable. Resize image dimensions?",
            ),
            Prompt::SaveSmallest { .. } => String::from_str(
                "Target unreachable. Save smallest possible?",
            ),
            Prompt::SaveFloor { .. } => String::from_str("Save the smallest possible version?"),
        }
    }
}

impl Tool {
    pub open spec fn name_text(self) -> Seq<char> {
        match self {
            Tool::Oxipng => "oxipng"@,
            Tool::ImageMagick => "ImageMagick"@,
            Tool::Ghostscript => "Ghostscript"@,
        }
    }

    pub fn name(&self) -> (text: &'static str)
        ensures
            text@ == self.name_text(),
    {
        match self {
            Tool::Oxipng => "oxipng",
            Tool::ImageMagick => "ImageMagick",
            Tool::Ghostscript => "Ghostscript",
        }
    }
}

impl Failure {
    /// The failure as the user reads it.
    pub open spec fn message_text(self) -> Seq<char> {
        match self {
            Failure::CancelledByUser => "Compression cancelled by user."@,
            Failure::Cancelled => "Compression cancelled."@,
            Failure::ToolFailed(tool) => tool.name_text() + " failed."@,
            Failure::UnexpectedEvent => "Compression stopped: the driver answered out of turn."@,
        }
    }

    pub fn message(&self) -> (text: String)
        ensures
            text@ == self.message_text(),
    {
        match *self {
            Failure::CancelledByUser => String::from_str("Compression cancelled by user."),
            Failure::Cancelled => String::from_str("Compression cancelled."),
            Failure::ToolFailed(tool) => String::from_str(tool.name()).concat(" failed."),
            Failure::UnexpectedEvent => String::from_str(
                "Compression stopped: the driver answered out of turn.",
            ),
        }
    }
}

/// What a finished run reports: how the output was made and how long it
/// took.
#[derive(Debug, PartialEq, Eq)]
pub struct CompResult {
    pub algorithm: String,
    pub time_ms: u128,
}

/// The report of a run that kept the output of `algorithm` after `time_ms`
/// milliseconds.
pub fn result_with_time(algorithm: Algorithm, time_ms: u128) -> (result: CompResult)
    ensures
        result.algorithm@ == algorithm.label_text(),
        result.time_ms == time_ms,
{
    CompResult { algorithm: algorithm.label(), time_ms }
}

} // verus!
