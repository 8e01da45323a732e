//! The programs a run depends on, and how to install the missing ones.

use vstd::prelude::*;

verus! {

/// The programs looked for before anything else is done, in the order in
/// which they are looked for.
#[derive(Clone, Copy, Debug, PartialEq, Eq, Structural)]
pub enum Program {
    Ghostscript,
    Magick,
    Pngquant,
}

impl Program {
    /// The name of the binary.
    pub open spec fn binary_text(self) -> Seq<char> {
        match self {
            Program::Ghostscript => "gs"@,
            Program::Magick => "magick"@,
            Program::Pngquant => "pngquant"@,
        }
    }

    pub fn binary(&self) -> (name: &'static str)
        ensures
            name@ == self.binary_text(),
    {
        match self {
            Program::Ghostscript => "gs",
            Program::Magick => "magick",
            Program::Pngquant => "pngquant",
        }
    }
}

/// The programs that were not found, in the order in which they are looked
/// for.
pub open spec fn missing_programs(gs: bool, magick: bool, pngquant: bool) -> Seq<Program> {
    (if gs {
        Seq::<Program>::empty()
    } else {
        seq![Program::Ghostscript]
    }) + (if magick {
        Seq::<Program>::empty()
    } else {
        seq![Program::Magick]
    }) + (if pngquant {
        Seq::<Program>::empty()
    } else {
        seq![Program::Pngquant]
    })
}

/// Given which of the programs were found, says whether all are there, or
/// which are missing.
pub fn check_dependencies(gs: bool, magick: bool, pngquant: bool) -> (r: Result<(), Vec<Program>>)
    ensures
        r is Ok <==> gs && magick && pngquant,
        r matches Err(missing) ==> missing@ == missing_programs(gs, magick, pngquant),
{
    let mut missing: Vec<Program> = Vec::new();
    if !gs {
        missing.push(Program::Ghostscript);
    }
    if !magick {
        missing.push(Program::Magick);
    }
    if !pngquant {
        missing.push(Program::Pngquant);
    }
    if missing.len() == 0 {
        Ok(())
    } else {
        Err(missing)
    }
}

/// The families of systems that install packages in the same way.
#[derive(Clone, Copy, Debug, PartialEq, Eq, Structural)]
pub enum OsFamily {
    Arch,
    /// Debian, Ubuntu, Pop!_OS and Mint.
    Debian,
    /// Fedora and CentOS.
    Fedora,
    Macos,
    Other,
}

/// The commands that install the programs on a system of `family`. For a
/// system of no known family, one command for each of the families it may
/// belong to.
pub open spec fn install_commands_text(family: OsFamily) -> Seq<Seq<char>> {
    match family {
        OsFamily::Arch => seq![
            "sudo pacman -S ghostscript imagemagick pngquant"@,
            "yay -S ghostscript imagemagick pngquant"@,
        ],
        OsFamily::Debian => seq![
            "sudo apt update && sudo apt install ghostscript imagemagick pngquant"@,
        ],
        OsFamily::Fedora => seq!["sudo dnf install ghostscript ImageMagick pngquant"@],
        OsFamily::Macos => seq!["brew install ghostscript imagemagick pngquant"@],
        OsFamily::Other => seq![
            "Arch:   sudo pacman -S ghostscript imagemagick pngquant"@,
            "Debian: sudo apt install ghostscript imagemagick pngquant"@,
            "Mac:    brew install ghostscript imagemagick pngquant"@,
        ],
    }
}

/// The characters of each text, in order.
pub open spec fn lines(strings: Seq<&'static str>) -> Seq<Seq<char>> {
    Seq::new(strings.len(), |i: int| strings[i]@)
}

pub fn install_commands(family: OsFamily) -> (commands: Vec<&'static str>)
    ensures
        lines(commands@) == install_commands_text(family),
{
    let commands = match family {
        OsFamily::Arch => vec![
            "sudo pacman -S ghostscript imagemagick pngquant",
            "yay -S ghostscript imagemagick pngquant",
        ],
        OsFamily::Debian => vec![
            "sudo apt update && sudo apt install ghostscript imagemagick pngquant",
        ],
        OsFamily::Fedora => vec!["sudo dnf install ghostscript ImageMagick pngquant"],
        OsFamily::Macos => vec!["brew install ghostscript imagemagick pngquant"],
        OsFamily::Other => vec![
            "Arch:   sudo pacman -S ghostscript imagemagick pngquant",
            "Debian: sudo apt install ghostscript imagemagick pngquant",
            "Mac:    brew install ghostscript imagemagick pngquant",
        ],
    };
    commands
}

} // verus!
