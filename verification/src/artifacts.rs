//! Where the files of a run lie, and which of them go when it is over.
//!
//! Every intermediate file lies beside the output, under the name of the
//! output followed by a tag of its own, so that no two stages write to the
//! same file.

use crate::protocol::{Artifact, Format, Outcome, Slot};
use vstd::prelude::*;

verus! {

impl Artifact {
    /// The tag that sets the file of an artifact apart.
    pub open spec fn tag_text(self) -> Seq<char> {
        match self {
            Artifact::Original => ""@,
            Artifact::Stripped => ".stripped"@,
            Artifact::Quantized(Slot::A) => ".quantized"@,
            Artifact::Quantized(Slot::B) => ".quantized-b"@,
            Artifact::Gray => ".gray"@,
            Artifact::Resized(Slot::A) => ".resized"@,
            Artifact::Resized(Slot::B) => ".resized-b"@,
            Artifact::Optimized => ".optimized"@,
            Artifact::Lossy => ".lossy"@,
            Artifact::Floor => ".floor"@,
            Artifact::Rendered(Slot::A) => ".rendered"@,
            Artifact::Rendered(Slot::B) => ".rendered-b"@,
            Artifact::Preset => ".preset"@,
        }
    }

    pub fn tag(&self) -> (text: &'static str)
        ensures
            text@ == self.tag_text(),
    {
        match self {
            Artifact::Original => "",
            Artifact::Stripped => ".stripped",
            Artifact::Quantized(Slot::A) => ".quantized",
            Artifact::Quantized(Slot::B) => ".quantized-b",
            Artifact::Gray => ".gray",
            Artifact::Resized(Slot::A) => ".resized",
            Artifact::Resized(Slot::B) => ".resized-b",
            Artifact::Optimized => ".optimized",
            Artifact::Lossy => ".lossy",
            Artifact::Floor => ".floor",
            Artifact::Rendered(Slot::A) => ".rendered",
            Artifact::Rendered(Slot::B) => ".rendered-b",
            Artifact::Preset => ".preset",
        }
    }

    /// No two artifacts share a tag: the tags differ in length or in their
    /// second character.
    pub proof fn lemma_tags_differ(self, other: Artifact)
        requires
            self != other,
        ensures
            self.tag_text() != other.tag_text(),
            self.is_temporary() ==> self.tag_text().len() > 0,
    {
        reveal_strlit("");
        reveal_strlit(".stripped");
        reveal_strlit(".quantized");
        reveal_strlit(".quantized-b");
        reveal_strlit(".gray");
        reveal_strlit(".resized");
        reveal_strlit(".resized-b");
        reveal_strlit(".optimized");
        reveal_strlit(".lossy");
        reveal_strlit(".floor");
        reveal_strlit(".rendered");
        reveal_strlit(".rendered-b");
        reveal_strlit(".preset");
        if self.tag_text().len() == other.tag_text().len() && self.tag_text().len() > 0 {
            assert(self.tag_text()[1] != other.tag_text()[1]);
        }
    }
}

impl Format {
    /// The extension the codecs know the format by.
    pub open spec fn extension_text(self) -> Seq<char> {
        match self {
            Format::Jpeg => ".jpg"@,
            Format::Png => ".png"@,
            Format::Pdf => ".pdf"@,
        }
    }

    pub fn extension(&self) -> (text: &'static str)
        ensures
            text@ == self.extension_text(),
    {
        match self {
            Format::Jpeg => ".jpg",
            Format::Png => ".png",
            Format::Pdf => ".pdf",
        }
    }
}

/// Where the file of a temporary artifact lies: the output path, the tag of
/// the artifact, `.tmp`, and the extension of the format.
pub open spec fn temporary_path_text(output: Seq<char>, format: Format, artifact: Artifact) -> Seq<
    char,
> {
    output + artifact.tag_text() + ".tmp"@ + format.extension_text()
}

/// Where the file of an artifact lies. The original is the input file.
pub fn artifact_path(input: &str, output: &str, format: Format, artifact: Artifact) -> (path: String)
    ensures
        path@ == if artifact == Artifact::Original {
            input@
        } else {
            temporary_path_text(output@, format, artifact)
        },
{
    match artifact {
        Artifact::Original => String::from_str(input),
        _ => String::from_str(output).concat(artifact.tag()).concat(".tmp").concat(
            format.extension(),
        ),
    }
}

/// Two different temporary artifacts never lie in the same file, and none
/// lies in the output file.
pub proof fn lemma_temporary_paths_differ(
    output: Seq<char>,
    format: Format,
    a: Artifact,
    b: Artifact,
)
    requires
        a.is_temporary(),
        a != b,
    ensures
        temporary_path_text(output, format, a) != temporary_path_text(output, format, b),
        temporary_path_text(output, format, a) != output,
{
    a.lemma_tags_differ(b);
    let tail = ".tmp"@ + format.extension_text();
    let x = a.tag_text();
    let y = b.tag_text();
    assert(temporary_path_text(output, format, a) =~= output + x + tail);
    assert(temporary_path_text(output, format, b) =~= output + y + tail);
    if output + x + tail == output + y + tail {
        assert forall|i: int| 0 <= i < x.len() implies x[i] == y[i] by {
            assert((output + x + tail)[output.len() + i] == x[i]);
        }
        assert(x =~= y);
    }
}

impl Outcome {
    /// The file that becomes the output, if the run saved one.
    pub open spec fn kept(self) -> Option<Artifact> {
        match self {
            Outcome::Saved { artifact, .. } => Some(artifact),
            Outcome::Failed(_) => None,
        }
    }

    /// The temporary files to remove once the kept file has become the
    /// output: every temporary artifact but the kept one, each once. After
    /// a failure every temporary artifact goes.
    pub fn discards(&self) -> (gone: Vec<Artifact>)
        ensures
            forall|a: Artifact| gone@.contains(a) <==> a.is_temporary() && self.kept() != Some(a),
            gone@.no_duplicates(),
    {
        let all = temporaries();
        let mut gone: Vec<Artifact> = Vec::new();
        let mut i: usize = 0;
        while i < all.len()
            invariant
                i <= all.len(),
                all@.no_duplicates(),
                forall|a: Artifact| all@.contains(a) <==> a.is_temporary(),
                forall|a: Artifact|
                    gone@.contains(a) <==> (exists|j: int| 0 <= j < i && all@[j] == a)
                        && self.kept() != Some(a),
                gone@.no_duplicates(),
            decreases all.len() - i,
        {
            let a = all[i];
            let keep = match self {
                Outcome::Saved { artifact, .. } => same_artifact(*artifact, a),
                Outcome::Failed(_) => false,
            };
            let ghost before = gone@;
            if !keep {
                gone.push(a);
                assert forall|b: Artifact| gone@.contains(b) <==> (exists|j: int|
                    0 <= j < i + 1 && all@[j] == b) && self.kept() != Some(b) by {
                    if gone@.contains(b) {
                        let k = choose|k: int| 0 <= k < gone@.len() && gone@[k] == b;
                        if k < before.len() {
                            assert(before.contains(b));
                        }
                    }
                    if (exists|j: int| 0 <= j < i + 1 && all@[j] == b) && self.kept() != Some(b) {
                        let j = choose|j: int| 0 <= j < i + 1 && all@[j] == b;
                        if j < i {
                            assert(before.contains(b));
                            let k = choose|k: int| 0 <= k < before.len() && before[k] == b;
                            assert(gone@[k] == b);
                        } else {
                            assert(gone@[gone@.len() - 1] == b);
                        }
                    }
                }
                assert(!before.contains(a));
            }
            i += 1;
        }
        gone
    }
}

fn same_slot(a: Slot, b: Slot) -> (r: bool)
    ensures
        r == (a == b),
{
    match (a, b) {
        (Slot::A, Slot::A) => true,
        (Slot::B, Slot::B) => true,
        _ => false,
    }
}

/// Whether two artifacts are the same.
pub fn same_artifact(a: Artifact, b: Artifact) -> (r: bool)
    ensures
        r == (a == b),
{
    match (a, b) {
        (Artifact::Original, Artifact::Original) => true,
        (Artifact::Stripped, Artifact::Stripped) => true,
        (Artifact::Quantized(x), Artifact::Quantized(y)) => same_slot(x, y),
        (Artifact::Gray, Artifact::Gray) => true,
        (Artifact::Resized(x), Artifact::Resized(y)) => same_slot(x, y),
        (Artifact::Optimized, Artifact::Optimized) => true,
        (Artifact::Lossy, Artifact::Lossy) => true,
        (Artifact::Floor, Artifact::Floor) => true,
        (Artifact::Rendered(x), Artifact::Rendered(y)) => same_slot(x, y),
        (Artifact::Preset, Artifact::Preset) => true,
        _ => false,
    }
}

/// Every temporary artifact, each once.
pub fn temporaries() -> (all: Vec<Artifact>)
    ensures
        forall|a: Artifact| all@.contains(a) <==> a.is_temporary(),
        all@.no_duplicates(),
        all@.len() == 12,
{
    let all = vec![
        Artifact::Stripped,
        Artifact::Quantized(Slot::A),
        Artifact::Quantized(Slot::B),
        Artifact::Gray,
        Artifact::Resized(Slot::A),
        Artifact::Resized(Slot::B),
        Artifact::Optimized,
        Artifact::Lossy,
        Artifact::Floor,
        Artifact::Rendered(Slot::A),
        Artifact::Rendered(Slot::B),
        Artifact::Preset,
    ];
    all
}

} // verus!
