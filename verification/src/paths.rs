//! What a file name says of its format, and where an output may be written.

use crate::protocol::Format;
use crate::text::{
    chars_of, extension_of, lowercase, path_extension, same_text, starts_with, to_lowercase,
};
use vstd::prelude::*;

verus! {

/// The format an extension stands for. `extension` is in lowercase and has
/// no dot.
pub open spec fn format_of(extension: Seq<char>) -> Option<Format> {
    if extension == "jpg"@ || extension == "jpeg"@ {
        Some(Format::Jpeg)
    } else if extension == "png"@ {
        Some(Format::Png)
    } else if extension == "pdf"@ {
        Some(Format::Pdf)
    } else {
        None
    }
}

impl Format {
    pub fn from_extension(extension: &str) -> (format: Option<Format>)
        ensures
            format == format_of(extension@),
    {
        if same_text(extension, "jpg") || same_text(extension, "jpeg") {
            Some(Format::Jpeg)
        } else if same_text(extension, "png") {
            Some(Format::Png)
        } else if same_text(extension, "pdf") {
            Some(Format::Pdf)
        } else {
            None
        }
    }
}

/// Why a file name was turned down.
#[derive(Debug, PartialEq, Eq)]
pub enum ExtensionError {
    /// The name has no extension.
    Missing,
    /// The extension, here in lowercase, is none of the supported ones.
    Unsupported { extension: String },
}

/// Judges an extension that is already in lowercase: it is handed back where
/// it stands for a supported format.
pub fn check_extension(extension: Option<String>) -> (verdict: Result<String, ExtensionError>)
    ensures
        match verdict {
            Ok(ext) => extension matches Some(e) && ext@ == e@ && format_of(e@) is Some,
            Err(ExtensionError::Missing) => extension is None,
            Err(ExtensionError::Unsupported { extension: ext }) => extension matches Some(e)
                && ext@ == e@ && format_of(e@) is None,
        },
{
    match extension {
        None => Err(ExtensionError::Missing),
        Some(ext) => {
            if Format::from_extension(ext.as_str()).is_some() {
                Ok(ext)
            } else {
                Err(ExtensionError::Unsupported { extension: ext })
            }
        },
    }
}

/// Checks that the extension of `filename`, in lowercase, is a supported
/// one, and returns it in lowercase.
pub fn validate_file_extension(filename: &str) -> (verdict: Result<String, ExtensionError>)
    ensures
        match verdict {
            Ok(ext) => path_extension(filename@) matches Some(e) && ext@ == lowercase(e)
                && format_of(ext@) is Some,
            Err(ExtensionError::Missing) => path_extension(filename@) is None,
            Err(ExtensionError::Unsupported { extension }) => path_extension(
                filename@,
            ) matches Some(e) && extension@ == lowercase(e) && format_of(extension@) is None,
        },
{
    match extension_of(filename) {
        None => check_extension(None),
        Some(ext) => check_extension(Some(to_lowercase(ext.as_str()))),
    }
}

impl ExtensionError {
    pub open spec fn message_text(self, filename: Seq<char>) -> Seq<char> {
        match self {
            ExtensionError::Missing => "File '"@ + filename
                + "' has no extension.\nSupported formats: .jpg, .jpeg, .png, .pdf"@,
            ExtensionError::Unsupported { extension } => "Unsupported file type: ."@ + extension@
                + "\nSupported formats: .jpg, .jpeg, .png, .pdf"@,
        }
    }

    /// What to tell the user, given the file name that was turned down.
    pub fn message(&self, filename: &str) -> (text: String)
        ensures
            text@ == self.message_text(filename@),
    {
        match self {
            ExtensionError::Missing => String::from_str("File '").concat(filename).concat(
                "' has no extension.\nSupported formats: .jpg, .jpeg, .png, .pdf",
            ),
            ExtensionError::Unsupported { extension } => String::from_str(
                "Unsupported file type: .",
            ).concat(extension.as_str()).concat("\nSupported formats: .jpg, .jpeg, .png, .pdf"),
        }
    }
}

/// The directories no output may be written under, in the order in which
/// they are checked.
#[derive(Clone, Copy, Debug, PartialEq, Eq, Structural)]
pub enum SystemDirectory {
    Etc,
    Sys,
    Proc,
    Dev,
    Boot,
    Root,
}

impl SystemDirectory {
    pub open spec fn path_text(self) -> Seq<char> {
        match self {
            SystemDirectory::Etc => "/etc"@,
            SystemDirectory::Sys => "/sys"@,
            SystemDirectory::Proc => "/proc"@,
            SystemDirectory::Dev => "/dev"@,
            SystemDirectory::Boot => "/boot"@,
            SystemDirectory::Root => "/root"@,
        }
    }

    pub fn path(&self) -> (p: &'static str)
        ensures
            p@ == self.path_text(),
    {
        match self {
            SystemDirectory::Etc => "/etc",
            SystemDirectory::Sys => "/sys",
            SystemDirectory::Proc => "/proc",
            SystemDirectory::Dev => "/dev",
            SystemDirectory::Boot => "/boot",
            SystemDirectory::Root => "/root",
        }
    }

    /// The directory checked after this one.
    pub open spec fn following(self) -> Option<SystemDirectory> {
        match self {
            SystemDirectory::Etc => Some(SystemDirectory::Sys),
            SystemDirectory::Sys => Some(SystemDirectory::Proc),
            SystemDirectory::Proc => Some(SystemDirectory::Dev),
            SystemDirectory::Dev => Some(SystemDirectory::Boot),
            SystemDirectory::Boot => Some(SystemDirectory::Root),
            SystemDirectory::Root => None,
        }
    }

    /// Checked strictly before `other`.
    pub open spec fn precedes(self, other: SystemDirectory) -> bool {
        self.position() < other.position()
    }

    pub open spec fn position(self) -> nat {
        match self {
            SystemDirectory::Etc => 0,
            SystemDirectory::Sys => 1,
            SystemDirectory::Proc => 2,
            SystemDirectory::Dev => 3,
            SystemDirectory::Boot => 4,
            SystemDirectory::Root => 5,
        }
    }

    pub fn next(&self) -> (r: Option<SystemDirectory>)
        ensures
            r == self.following(),
            r matches Some(d) ==> d.position() == self.position() + 1,
            r is None ==> self.position() == 5,
    {
        match self {
            SystemDirectory::Etc => Some(SystemDirectory::Sys),
            SystemDirectory::Sys => Some(SystemDirectory::Proc),
            SystemDirectory::Proc => Some(SystemDirectory::Dev),
            SystemDirectory::Dev => Some(SystemDirectory::Boot),
            SystemDirectory::Boot => Some(SystemDirectory::Root),
            SystemDirectory::Root => None,
        }
    }
}

/// `output` is written as lying under `directory`.
pub open spec fn lies_under(output: Seq<char>, directory: SystemDirectory) -> bool {
    directory.path_text().is_prefix_of(output)
}

/// The first system directory, in the order of checking, that `output` is
/// written as lying under.
pub fn system_directory_of(output: &str) -> (found: Option<SystemDirectory>)
    ensures
        match found {
            Some(d) => lies_under(output@, d) && forall|e: SystemDirectory|
                e.precedes(d) ==> !lies_under(output@, e),
            None => forall|e: SystemDirectory| !lies_under(output@, e),
        },
{
    let text = chars_of(output);
    let mut directory = SystemDirectory::Etc;
    loop
        invariant
            text@ == output@,
            forall|e: SystemDirectory| e.precedes(directory) ==> !lies_under(output@, e),
        decreases 5 - directory.position(),
    {
        let prefix = chars_of(directory.path());
        if starts_with(&text, &prefix) {
            return Some(directory);
        }
        match directory.next() {
            Some(d) => {
                assert forall|e: SystemDirectory| e.precedes(d) implies !lies_under(
                    output@,
                    e,
                ) by {
                    if !e.precedes(directory) {
                        assert(e == directory);
                    }
                }
                directory = d;
            },
            None => {
                assert forall|e: SystemDirectory| !lies_under(output@, e) by {
                    if !e.precedes(directory) {
                        assert(e == directory);
                    }
                }
                return None;
            },
        }
    }
}

/// What the driver found of the directory an output is to be written to.
#[derive(Clone, Copy, Debug, PartialEq, Eq, Structural)]
pub enum ParentDirectory {
    /// The output names no directory: it goes to the current one.
    Current,
    /// The directory does not exist.
    Missing,
    /// The directory exists and cannot be looked at.
    Inaccessible,
    /// The directory cannot be written to.
    ReadOnly,
    Writable,
}

/// Why an output path was turned down.
#[derive(Clone, Copy, Debug, PartialEq, Eq, Structural)]
pub enum OutputPathError {
    SystemDirectory { directory: SystemDirectory },
    MissingDirectory,
    InaccessibleDirectory,
    ReadOnlyDirectory,
}

impl OutputPathError {
    /// What to tell the user. `directory` is the directory the output was
    /// to go to, as the driver shows it; `cause` is what the system said
    /// where the directory could not be looked at.
    pub open spec fn message_text(self, directory: Seq<char>, cause: Seq<char>) -> Seq<char> {
        match self {
            OutputPathError::SystemDirectory { directory: system } => "Cannot write to system directory: "@
                + system.path_text(),
            OutputPathError::MissingDirectory => "Output directory does not exist: "@ + directory
                + "\nCreate it first with: mkdir -p "@ + directory,
            OutputPathError::InaccessibleDirectory => "Cannot access directory "@ + directory
                + ": "@ + cause,
            OutputPathError::ReadOnlyDirectory => "Output directory is read-only: "@ + directory,
        }
    }

    pub fn message(&self, directory: &str, cause: &str) -> (text: String)
        ensures
            text@ == self.message_text(directory@, cause@),
    {
        match self {
            OutputPathError::SystemDirectory { directory: system } => String::from_str(
                "Cannot write to system directory: ",
            ).concat(system.path()),
            OutputPathError::MissingDirectory => String::from_str(
                "Output directory does not exist: ",
            ).concat(directory).concat("\nCreate it first with: mkdir -p ").concat(directory),
            OutputPathError::InaccessibleDirectory => String::from_str(
                "Cannot access directory ",
            ).concat(directory).concat(": ").concat(cause),
            OutputPathError::ReadOnlyDirectory => String::from_str(
                "Output directory is read-only: ",
            ).concat(directory),
        }
    }
}

/// Checks that an output may be written to `output`. A path under a system
/// directory is turned down whatever the state of its directory; otherwise
/// the directory must exist and be writable.
pub fn validate_output_path(output: &str, parent: ParentDirectory) -> (verdict: Result<
    (),
    OutputPathError,
>)
    ensures
        match verdict {
            Err(OutputPathError::SystemDirectory { directory }) => lies_under(output@, directory)
                && forall|e: SystemDirectory| e.precedes(directory) ==> !lies_under(output@, e),
            Err(OutputPathError::MissingDirectory) => parent is Missing,
            Err(OutputPathError::InaccessibleDirectory) => parent is Inaccessible,
            Err(OutputPathError::ReadOnlyDirectory) => parent is ReadOnly,
            Ok(_) => parent is Current || parent is Writable,
        },
        !(verdict matches Err(OutputPathError::SystemDirectory { .. })) ==> forall|
            e: SystemDirectory,
        |
            !lies_under(output@, e),
{
    match system_directory_of(output) {
        Some(directory) => Err(OutputPathError::SystemDirectory { directory }),
        None => match parent {
            ParentDirectory::Current => Ok(()),
            ParentDirectory::Writable => Ok(()),
            ParentDirectory::Missing => Err(OutputPathError::MissingDirectory),
            ParentDirectory::Inaccessible => Err(OutputPathError::InaccessibleDirectory),
            ParentDirectory::ReadOnly => Err(OutputPathError::ReadOnlyDirectory),
        },
    }
}

} // verus!
