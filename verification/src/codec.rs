//! The command line that carries out each codec call.

use crate::protocol::{Invocation, Preset};
use crate::report::{decimal, decimal_digits};
use vstd::prelude::*;

verus! {

/// A program to run, its arguments in order, and the file its standard
/// output is to be written to, if any.
#[derive(Debug, PartialEq, Eq)]
pub struct CommandLine {
    pub program: String,
    pub args: Vec<String>,
    pub stdout: Option<String>,
}

/// The characters of each text, in order.
pub open spec fn texts(strings: Seq<String>) -> Seq<Seq<char>> {
    Seq::new(strings.len(), |i: int| strings[i]@)
}

impl CommandLine {
    /// The command line as plain text: program, arguments, and the file for
    /// standard output.
    pub open spec fn view(self) -> (Seq<char>, Seq<Seq<char>>, Option<Seq<char>>) {
        (
            self.program@,
            texts(self.args@),
            match self.stdout {
                Some(path) => Some(path@),
                None => None,
            },
        )
    }
}

/// The arguments that make Ghostscript write `input` to `output` as a PDF.
/// With a resolution, colour, gray and mono images are downsampled to it
/// and the preset is left out; without one the preset, if any, decides.
pub open spec fn ghostscript_args(
    preset: Option<Preset>,
    dpi: Option<u64>,
    input: Seq<char>,
    output: Seq<char>,
) -> Seq<Seq<char>> {
    let head = seq![
        "-sDEVICE=pdfwrite"@,
        "-dCompatibilityLevel=1.4"@,
        "-dCompressFonts=true"@,
        "-dSubsetFonts=true"@,
    ];
    let quality = match (dpi, preset) {
        (Some(d), _) => seq![
            "-dDownsampleColorImages=true"@,
            "-dColorImageResolution="@ + decimal_digits(d as nat),
            "-dGrayImageResolution="@ + decimal_digits(d as nat),
            "-dMonoImageResolution="@ + decimal_digits(d as nat),
        ],
        (None, Some(p)) => seq!["-dPDFSETTINGS="@ + p.name_text()],
        (None, None) => Seq::empty(),
    };
    let tail = seq!["-dNOPAUSE"@, "-dQUIET"@, "-dBATCH"@, "-sOutputFile="@ + output, input];
    head + quality + tail
}

/// The arguments of the lossless repack that both the strip and the polish
/// make.
pub open spec fn oxipng_options() -> Seq<Seq<char>> {
    seq!["-o"@, "2"@, "--strip"@, "safe"@, "--quiet"@]
}

/// The program, the arguments and the file for standard output that carry
/// out `invocation`, reading the file at `input` and writing the file at
/// `output`.
pub open spec fn command_text(invocation: Invocation, input: Seq<char>, output: Seq<char>) -> (
    Seq<char>,
    Seq<Seq<char>>,
    Option<Seq<char>>,
) {
    match invocation {
        Invocation::Render { preset, dpi, .. } => (
            "gs"@,
            ghostscript_args(preset, dpi, input, output),
            None,
        ),
        Invocation::StripMetadata => (
            "oxipng"@,
            oxipng_options() + seq!["--out"@, output, input],
            None,
        ),
        Invocation::Polish { .. } => ("oxipng"@, oxipng_options() + seq![output], None),
        Invocation::Quantize { min_quality, max_quality, .. } => (
            "pngquant"@,
            seq![
                "--quality"@,
                decimal_digits(min_quality as nat) + "-"@ + decimal_digits(max_quality as nat),
                "--force"@,
                "--output"@,
                output,
                input,
            ],
            None,
        ),
        Invocation::Grayscale { .. } => (
            "magick"@,
            seq![input, "-colorspace"@, "Gray"@, "-depth"@, "8"@, output],
            None,
        ),
        Invocation::Resize { scale_percent, .. } => (
            "magick"@,
            seq![input, "-resize"@, decimal_digits(scale_percent as nat) + "%"@, output],
            None,
        ),
        Invocation::LosslessOptimize => (
            "jpegoptim"@,
            seq!["--strip-all"@, "--dest=."@, "--stdout"@, input],
            Some(output),
        ),
        Invocation::LossyExtent { extent_kb, .. } => (
            "magick"@,
            seq![
                input,
                "-define"@,
                "jpeg:extent="@ + decimal_digits(extent_kb as nat) + "KB"@,
                "-sampling-factor"@,
                "4:4:4"@,
                "-interlace"@,
                "Plane"@,
                "-strip"@,
                output,
            ],
            None,
        ),
        Invocation::LossyQuality { quality, .. } => (
            "magick"@,
            seq![
                input,
                "-strip"@,
                "-sampling-factor"@,
                "4:4:4"@,
                "-quality"@,
                decimal_digits(quality as nat),
                output,
            ],
            None,
        ),
    }
}

fn put(args: &mut Vec<String>, text: String)
    ensures
        texts(final(args)@) == texts(old(args)@).push(text@),
{
    args.push(text);
}

fn put_str(args: &mut Vec<String>, text: &str)
    ensures
        texts(final(args)@) == texts(old(args)@).push(text@),
{
    put(args, String::from_str(text));
}

fn ghostscript(preset: Option<Preset>, dpi: Option<u64>, input: &str, output: &str) -> (args: Vec<
    String,
>)
    ensures
        texts(args@) == ghostscript_args(preset, dpi, input@, output@),
{
    let mut args: Vec<String> = Vec::new();
    put_str(&mut args, "-sDEVICE=pdfwrite");
    put_str(&mut args, "-dCompatibilityLevel=1.4");
    put_str(&mut args, "-dCompressFonts=true");
    put_str(&mut args, "-dSubsetFonts=true");
    match dpi {
        Some(d) => {
            let digits = decimal(d);
            put_str(&mut args, "-dDownsampleColorImages=true");
            put(&mut args, String::from_str("-dColorImageResolution=").concat(digits.as_str()));
            put(&mut args, String::from_str("-dGrayImageResolution=").concat(digits.as_str()));
            put(&mut args, String::from_str("-dMonoImageResolution=").concat(digits.as_str()));
        },
        None => match preset {
            Some(p) => {
                put(&mut args, String::from_str("-dPDFSETTINGS=").concat(p.name()));
            },
            None => {},
        },
    }
    put_str(&mut args, "-dNOPAUSE");
    put_str(&mut args, "-dQUIET");
    put_str(&mut args, "-dBATCH");
    put(&mut args, String::from_str("-sOutputFile=").concat(output));
    put_str(&mut args, input);
    args
}

fn oxipng() -> (args: Vec<String>)
    ensures
        texts(args@) == oxipng_options(),
{
    let mut args: Vec<String> = Vec::new();
    put_str(&mut args, "-o");
    put_str(&mut args, "2");
    put_str(&mut args, "--strip");
    put_str(&mut args, "safe");
    put_str(&mut args, "--quiet");
    args
}

/// The command line that carries out `invocation`, reading the file at
/// `input` and writing the file at `output`.
pub fn command_line(invocation: &Invocation, input: &str, output: &str) -> (command: CommandLine)
    ensures
        command@ == command_text(*invocation, input@, output@),
{
    let mut args: Vec<String> = Vec::new();
    let mut stdout: Option<String> = None;
    let program = match *invocation {
        Invocation::Render { preset, dpi, .. } => {
            args = ghostscript(preset, dpi, input, output);
            "gs"
        },
        Invocation::StripMetadata => {
            args = oxipng();
            put_str(&mut args, "--out");
            put_str(&mut args, output);
            put_str(&mut args, input);
            "oxipng"
        },
        Invocation::Polish { .. } => {
            args = oxipng();
            put_str(&mut args, output);
            "oxipng"
        },
        Invocation::Quantize { min_quality, max_quality, .. } => {
            put_str(&mut args, "--quality");
            put(
                &mut args,
                decimal(min_quality).concat("-").concat(decimal(max_quality).as_str()),
            );
            put_str(&mut args, "--force");
            put_str(&mut args, "--output");
            put_str(&mut args, output);
            put_str(&mut args, input);
            "pngquant"
        },
        Invocation::Grayscale { .. } => {
            put_str(&mut args, input);
            put_str(&mut args, "-colorspace");
            put_str(&mut args, "Gray");
            put_str(&mut args, "-depth");
            put_str(&mut args, "8");
            put_str(&mut args, output);
            "magick"
        },
        Invocation::Resize { scale_percent, .. } => {
            put_str(&mut args, input);
            put_str(&mut args, "-resize");
            put(&mut args, decimal(scale_percent).concat("%"));
            put_str(&mut args, output);
            "magick"
        },
        Invocation::LosslessOptimize => {
            put_str(&mut args, "--strip-all");
            put_str(&mut args, "--dest=.");
            put_str(&mut args, "--stdout");
            put_str(&mut args, input);
            stdout = Some(String::from_str(output));
            "jpegoptim"
        },
        Invocation::LossyExtent { extent_kb, .. } => {
            put_str(&mut args, input);
            put_str(&mut args, "-define");
            put(
                &mut args,
                String::from_str("jpeg:extent=").concat(decimal(extent_kb).as_str()).concat("KB"),
            );
            put_str(&mut args, "-sampling-factor");
            put_str(&mut args, "4:4:4");
            put_str(&mut args, "-interlace");
            put_str(&mut args, "Plane");
            put_str(&mut args, "-strip");
            put_str(&mut args, output);
            "magick"
        },
        Invocation::LossyQuality { quality, .. } => {
            put_str(&mut args, input);
            put_str(&mut args, "-strip");
            put_str(&mut args, "-sampling-factor");
            put_str(&mut args, "4:4:4");
            put_str(&mut args, "-quality");
            put(&mut args, decimal(quality));
            put_str(&mut args, output);
            "magick"
        },
    };
    CommandLine { program: String::from_str(program), args, stdout }
}

} // verus!
