//! From a file name and the options of the command line to a run.

use crate::engine::Engine;
use crate::paths::format_of;
use crate::protocol::{Action, CompressionLevel, CompressionRequest, Format};
use crate::size::{parse_size, parsed_size};
use crate::text::{
    extension_of, lowercase, path_extension, path_stem, stem_of, to_lowercase,
};
use vstd::prelude::*;

verus! {

/// Why no run was begun.
#[derive(Debug, PartialEq, Eq)]
pub enum CompressError {
    /// The extension of the input, here in lowercase, names no supported
    /// format. An input without extension has the empty extension.
    UnsupportedFileType { extension: String },
}

impl CompressError {
    pub open spec fn message_text(self) -> Seq<char> {
        match self {
            CompressError::UnsupportedFileType { extension } => "Unsupported file type: ."@
                + extension@,
        }
    }

    pub fn message(&self) -> (text: String)
        ensures
            text@ == self.message_text(),
    {
        match self {
            CompressError::UnsupportedFileType { extension } => String::from_str(
                "Unsupported file type: .",
            ).concat(extension.as_str()),
        }
    }
}

/// The extension of `input` in lowercase, empty where it has none.
pub open spec fn file_type(input: Seq<char>) -> Seq<char> {
    lowercase(
        match path_extension(input) {
            Some(e) => e,
            None => Seq::empty(),
        },
    )
}

/// The request that the options stand for. A size that does not parse
/// counts as no target.
pub open spec fn requested(
    original_kb: u64,
    size_str: Option<Seq<char>>,
    level: Option<CompressionLevel>,
    auto_yes: bool,
) -> CompressionRequest {
    CompressionRequest {
        original_kb,
        target_kb: match size_str {
            Some(s) => parsed_size(s),
            None => None,
        },
        level,
        auto_yes,
    }
}

/// Begins the run of the engine that `file_type`, an extension in
/// lowercase, stands for.
pub fn start(file_type: &str, request: CompressionRequest) -> (r: Result<
    (Engine, Action),
    CompressError,
>)
    ensures
        match r {
            Ok(step) => format_of(file_type@) matches Some(format) && step == Engine::begun(
                format,
                request,
            ),
            Err(CompressError::UnsupportedFileType { extension }) => format_of(file_type@) is None
                && extension@ == file_type@,
        },
{
    match Format::from_extension(file_type) {
        Some(format) => Ok(Engine::begin(format, request)),
        None => Err(CompressError::UnsupportedFileType { extension: String::from_str(file_type) }),
    }
}

/// Begins the compression of `input`, a file of `original_kb` KB: picks the
/// engine by the extension of the file, reads the target size, and says
/// what the driver is to do first. The driver then reports each event to
/// [`Engine::advance`] until it is handed [`Action::Finish`].
pub fn compress_file(
    input: &str,
    original_kb: u64,
    size_str: Option<&str>,
    level: Option<CompressionLevel>,
    auto_yes: bool,
) -> (r: Result<(Engine, Action), CompressError>)
    ensures
        match r {
            Ok(step) => format_of(file_type(input@)) matches Some(format) && step == Engine::begun(
                format,
                requested(
                    original_kb,
                    match size_str {
                        Some(s) => Some(s@),
                        None => None,
                    },
                    level,
                    auto_yes,
                ),
            ),
            Err(CompressError::UnsupportedFileType { extension }) => format_of(file_type(input@))
                is None && extension@ == file_type(input@),
        },
{
    let extension = match extension_of(input) {
        Some(e) => to_lowercase(e.as_str()),
        None => to_lowercase(""),
    };
    let target_kb = match size_str {
        Some(s) => parse_size(s),
        None => None,
    };
    proof {
        assert(""@ =~= Seq::<char>::empty()) by {
            reveal_strlit("");
        }
    }
    start(extension.as_str(), CompressionRequest { original_kb, target_kb, level, auto_yes })
}

/// How much a run says of itself: 1 by default, 2 when asked to be
/// verbose, 3 when asked for every detail.
pub open spec fn verbosity_level(nerd: bool, verbose: u8) -> u8 {
    if nerd || verbose + 1 >= 3 {
        3
    } else {
        (verbose + 1) as u8
    }
}

/// The verbosity that the flags of the command line stand for: `nerd` asks
/// for every detail, and so does being asked twice or more to be verbose.
pub fn verbosity(nerd: bool, verbose: u8) -> (level: u8)
    ensures
        level == verbosity_level(nerd, verbose),
        1 <= level <= 3,
{
    if nerd || verbose >= 2 {
        3
    } else {
        verbose + 1
    }
}

/// The name an output is given when the command line names none, from the
/// stem and the extension of the input.
pub open spec fn named_output(stem: Option<Seq<char>>, extension: Option<Seq<char>>) -> Seq<char> {
    "crnched_"@ + (match stem {
        Some(s) => s,
        None => "output"@,
    }) + "."@ + lowercase(
        match extension {
            Some(e) => e,
            None => "bin"@,
        },
    )
}

/// The name of the output where none was given: `crnched_`, the stem of
/// the input, a dot, and the extension of the input in lowercase. An input
/// without stem counts as `output`, one without extension as `bin`.
pub fn default_output(input: &str) -> (output: String)
    ensures
        output@ == named_output(path_stem(input@), path_extension(input@)),
{
    let stem = match stem_of(input) {
        Some(s) => s,
        None => String::from_str("output"),
    };
    let extension = match extension_of(input) {
        Some(e) => to_lowercase(e.as_str()),
        None => to_lowercase("bin"),
    };
    String::from_str("crnched_").concat(stem.as_str()).concat(".").concat(extension.as_str())
}

/// The output is more than a fifth above the target.
pub open spec fn misses_target(new_kb: u64, target_kb: u64) -> bool {
    new_kb > target_kb + target_kb / 5
}

/// Whether the output missed the target by so much that the user is told:
/// by more than a fifth of the target, rounded down.
pub fn missed_target(new_kb: u64, target_kb: u64) -> (missed: bool)
    ensures
        missed == misses_target(new_kb, target_kb),
{
    let limit: u128 = target_kb as u128 + (target_kb / 5) as u128;
    new_kb as u128 > limit
}

impl Format {
    /// What to suggest where a file of this format missed its target.
    pub open spec fn tip_text(self) -> Seq<char> {
        match self {
            Format::Pdf => "Try a larger target size, or use lower quality settings."@,
            Format::Jpeg => "Try resizing the image dimensions for better compression."@,
            Format::Png => "Try resizing the image or converting to JPEG format."@,
        }
    }

    pub fn tip(&self) -> (text: &'static str)
        ensures
            text@ == self.tip_text(),
    {
        match self {
            Format::Pdf => "Try a larger target size, or use lower quality settings.",
            Format::Jpeg => "Try resizing the image dimensions for better compression.",
            Format::Png => "Try resizing the image or converting to JPEG format.",
        }
    }
}

} // verus!
