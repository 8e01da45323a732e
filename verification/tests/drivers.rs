use crnch::artifacts::{artifact_path, same_artifact, temporaries};
use crnch::codec::{command_line, CommandLine};
use crnch::deps::{check_dependencies, install_commands, OsFamily, Program};
use crnch::protocol::{
    size_kb, Algorithm, Artifact, Failure, FallbackStage, Format, Invocation, Outcome, Preset,
    Prompt, Slot,
};
use crnch::report::{decimal, result_with_time, CompResult};
use crnch::request::{default_output, missed_target, verbosity};

fn strings(args: &[&str]) -> Vec<String> {
    args.iter().map(|s| s.to_string()).collect()
}

fn line(program: &str, args: &[&str]) -> CommandLine {
    CommandLine { program: program.to_string(), args: strings(args), stdout: None }
}

#[test]
fn ghostscript_with_a_preset() {
    let render =
        Invocation::Render { preset: Some(Preset::Screen), dpi: None, output: Artifact::Floor };
    assert_eq!(
        command_line(&render, "in.pdf", "out.pdf.floor.tmp.pdf"),
        line(
            "gs",
            &[
                "-sDEVICE=pdfwrite",
                "-dCompatibilityLevel=1.4",
                "-dCompressFonts=true",
                "-dSubsetFonts=true",
                "-dPDFSETTINGS=/screen",
                "-dNOPAUSE",
                "-dQUIET",
                "-dBATCH",
                "-sOutputFile=out.pdf.floor.tmp.pdf",
                "in.pdf",
            ]
        )
    );
}

#[test]
fn ghostscript_with_a_resolution_leaves_the_preset_out() {
    let render = Invocation::Render {
        preset: Some(Preset::Printer),
        dpi: Some(161),
        output: Artifact::Rendered(Slot::A),
    };
    assert_eq!(
        command_line(&render, "in.pdf", "tmp.pdf"),
        line(
            "gs",
            &[
                "-sDEVICE=pdfwrite",
                "-dCompatibilityLevel=1.4",
                "-dCompressFonts=true",
                "-dSubsetFonts=true",
                "-dDownsampleColorImages=true",
                "-dColorImageResolution=161",
                "-dGrayImageResolution=161",
                "-dMonoImageResolution=161",
                "-dNOPAUSE",
                "-dQUIET",
                "-dBATCH",
                "-sOutputFile=tmp.pdf",
                "in.pdf",
            ]
        )
    );
}

#[test]
fn ghostscript_without_preset_or_resolution() {
    let render = Invocation::Render { preset: None, dpi: None, output: Artifact::Preset };
    assert_eq!(command_line(&render, "a", "b").args.len(), 9);
}

#[test]
fn png_command_lines() {
    assert_eq!(
        command_line(&Invocation::StripMetadata, "in.png", "s.png"),
        line("oxipng", &["-o", "2", "--strip", "safe", "--quiet", "--out", "s.png", "in.png"])
    );
    assert_eq!(
        command_line(&Invocation::Polish { target: Artifact::Quantized(Slot::A) }, "q.png", "q.png"),
        line("oxipng", &["-o", "2", "--strip", "safe", "--quiet", "q.png"])
    );
    let quantize = Invocation::Quantize {
        min_quality: 62,
        max_quality: 100,
        output: Artifact::Quantized(Slot::B),
    };
    assert_eq!(
        command_line(&quantize, "s.png", "q.png"),
        line("pngquant", &["--quality", "62-100", "--force", "--output", "q.png", "s.png"])
    );
}

#[test]
fn imagemagick_command_lines() {
    assert_eq!(
        command_line(&Invocation::Grayscale { input: Artifact::Stripped }, "s.png", "g.png"),
        line("magick", &["s.png", "-colorspace", "Gray", "-depth", "8", "g.png"])
    );
    let resize = Invocation::Resize {
        input: Artifact::Gray,
        scale_percent: 50,
        output: Artifact::Resized(Slot::A),
    };
    assert_eq!(
        command_line(&resize, "g.png", "r.png"),
        line("magick", &["g.png", "-resize", "50%", "r.png"])
    );
    let extent = Invocation::LossyExtent { input: Artifact::Optimized, extent_kb: 600 };
    assert_eq!(
        command_line(&extent, "o.jpg", "l.jpg"),
        line(
            "magick",
            &[
                "o.jpg",
                "-define",
                "jpeg:extent=600KB",
                "-sampling-factor",
                "4:4:4",
                "-interlace",
                "Plane",
                "-strip",
                "l.jpg",
            ]
        )
    );
    let quality = Invocation::LossyQuality { input: Artifact::Original, quality: 75 };
    assert_eq!(
        command_line(&quality, "in.jpg", "l.jpg"),
        line("magick", &["in.jpg", "-strip", "-sampling-factor", "4:4:4", "-quality", "75", "l.jpg"])
    );
}

#[test]
fn jpegoptim_writes_to_standard_output() {
    assert_eq!(
        command_line(&Invocation::LosslessOptimize, "in.jpg", "o.jpg"),
        CommandLine {
            program: "jpegoptim".to_string(),
            args: strings(&["--strip-all", "--dest=.", "--stdout", "in.jpg"]),
            stdout: Some("o.jpg".to_string()),
        }
    );
}

#[test]
fn invocations_name_what_they_read_and_write() {
    let resize = Invocation::Resize {
        input: Artifact::Gray,
        scale_percent: 50,
        output: Artifact::Resized(Slot::B),
    };
    assert_eq!(resize.reads(), Artifact::Gray);
    assert_eq!(resize.writes(), Artifact::Resized(Slot::B));
    assert_eq!(Invocation::StripMetadata.reads(), Artifact::Original);
    assert_eq!(Invocation::StripMetadata.writes(), Artifact::Stripped);
    assert_eq!(Invocation::LosslessOptimize.writes(), Artifact::Optimized);
    let polish = Invocation::Polish { target: Artifact::Quantized(Slot::A) };
    assert_eq!(polish.reads(), polish.writes());
    let extent = Invocation::LossyExtent { input: Artifact::Original, extent_kb: 1 };
    assert_eq!(extent.reads(), Artifact::Original);
    assert_eq!(extent.writes(), Artifact::Lossy);
}

#[test]
fn decimal_writes_numbers() {
    assert_eq!(decimal(0), "0");
    assert_eq!(decimal(7), "7");
    assert_eq!(decimal(10), "10");
    assert_eq!(decimal(600), "600");
    assert_eq!(decimal(1234567890), "1234567890");
    assert_eq!(decimal(u64::MAX), "18446744073709551615");
}

#[test]
fn temporary_paths_are_all_different() {
    let all = temporaries();
    assert_eq!(all.len(), 12);
    for format in [Format::Png, Format::Jpeg, Format::Pdf] {
        let mut paths: Vec<String> =
            all.iter().map(|a| artifact_path("in.png", "out.png", format, *a)).collect();
        assert!(paths.iter().all(|p| p.starts_with("out.png.") && p != "out.png"));
        paths.sort();
        paths.dedup();
        assert_eq!(paths.len(), 12);
    }
}

#[test]
fn artifact_paths() {
    assert_eq!(artifact_path("in.png", "out.png", Format::Png, Artifact::Original), "in.png");
    assert_eq!(
        artifact_path("in.png", "out.png", Format::Png, Artifact::Stripped),
        "out.png.stripped.tmp.png"
    );
    assert_eq!(
        artifact_path("in.jpg", "o.jpg", Format::Jpeg, Artifact::Resized(Slot::B)),
        "o.jpg.resized-b.tmp.jpg"
    );
    assert_eq!(
        artifact_path("in.pdf", "o.pdf", Format::Pdf, Artifact::Rendered(Slot::A)),
        "o.pdf.rendered.tmp.pdf"
    );
}

#[test]
fn everything_but_the_kept_file_is_discarded() {
    let kept = Outcome::Saved {
        artifact: Artifact::Quantized(Slot::B),
        algorithm: Algorithm::PngHybrid { quality: 62 },
        size_kb: 195,
        stage: Some(FallbackStage::Quantize),
    };
    let gone = kept.discards();
    assert_eq!(gone.len(), 11);
    assert!(!gone.contains(&Artifact::Quantized(Slot::B)));
    assert!(!gone.contains(&Artifact::Original));
    assert!(gone.contains(&Artifact::Quantized(Slot::A)));
    assert!(gone.contains(&Artifact::Stripped));
    let original = Outcome::Saved {
        artifact: Artifact::Original,
        algorithm: Algorithm::NoReduction,
        size_kb: 1,
        stage: None,
    };
    assert_eq!(original.discards(), temporaries());
    assert_eq!(Outcome::Failed(Failure::Cancelled).discards(), temporaries());
}

#[test]
fn artifacts_compare() {
    assert!(same_artifact(Artifact::Gray, Artifact::Gray));
    assert!(same_artifact(Artifact::Resized(Slot::A), Artifact::Resized(Slot::A)));
    assert!(!same_artifact(Artifact::Resized(Slot::A), Artifact::Resized(Slot::B)));
    assert!(!same_artifact(Artifact::Resized(Slot::A), Artifact::Quantized(Slot::A)));
    assert!(!same_artifact(Artifact::Original, Artifact::Stripped));
    assert_eq!(Slot::A.flip(), Slot::B);
    assert_eq!(Slot::B.flip(), Slot::A);
}

#[test]
fn missing_programs_are_named_in_order() {
    assert_eq!(check_dependencies(true, true, true), Ok(()));
    assert_eq!(check_dependencies(false, true, true), Err(vec![Program::Ghostscript]));
    assert_eq!(
        check_dependencies(false, true, false),
        Err(vec![Program::Ghostscript, Program::Pngquant])
    );
    assert_eq!(
        check_dependencies(false, false, false),
        Err(vec![Program::Ghostscript, Program::Magick, Program::Pngquant])
    );
    assert_eq!(Program::Ghostscript.binary(), "gs");
    assert_eq!(Program::Magick.binary(), "magick");
    assert_eq!(Program::Pngquant.binary(), "pngquant");
}

#[test]
fn install_commands_by_family() {
    assert_eq!(
        install_commands(OsFamily::Arch),
        vec![
            "sudo pacman -S ghostscript imagemagick pngquant",
            "yay -S ghostscript imagemagick pngquant"
        ]
    );
    assert_eq!(
        install_commands(OsFamily::Debian),
        vec!["sudo apt update && sudo apt install ghostscript imagemagick pngquant"]
    );
    assert_eq!(
        install_commands(OsFamily::Fedora),
        vec!["sudo dnf install ghostscript ImageMagick pngquant"]
    );
    assert_eq!(
        install_commands(OsFamily::Macos),
        vec!["brew install ghostscript imagemagick pngquant"]
    );
    assert_eq!(install_commands(OsFamily::Other).len(), 3);
}

#[test]
fn verbosity_from_flags() {
    assert_eq!(verbosity(false, 0), 1);
    assert_eq!(verbosity(false, 1), 2);
    assert_eq!(verbosity(false, 2), 3);
    assert_eq!(verbosity(false, 255), 3);
    assert_eq!(verbosity(true, 0), 3);
    assert_eq!(verbosity(true, 1), 3);
}

#[test]
fn default_output_names() {
    assert_eq!(default_output("photo.JPG"), "crnched_photo.jpg");
    assert_eq!(default_output("dir/scan.final.pdf"), "crnched_scan.final.pdf");
    assert_eq!(default_output("Makefile"), "crnched_Makefile.bin");
    assert_eq!(default_output(".."), "crnched_output.bin");
    assert_eq!(default_output(".hidden"), "crnched_.hidden.bin");
}

#[test]
fn missed_target_allows_a_fifth() {
    assert!(!missed_target(240, 200));
    assert!(missed_target(241, 200));
    assert!(!missed_target(8, 7)); // 7 / 5 rounds down to 1
    assert!(missed_target(9, 7));
    assert!(missed_target(1, 0));
    assert!(!missed_target(0, 0));
    assert!(!missed_target(u64::MAX, u64::MAX));
    assert_eq!(Format::Pdf.tip(), "Try a larger target size, or use lower quality settings.");
    assert_eq!(Format::Jpeg.tip(), "Try resizing the image dimensions for better compression.");
    assert_eq!(Format::Png.tip(), "Try resizing the image or converting to JPEG format.");
}

#[test]
fn size_oracle_rounds_down() {
    assert_eq!(size_kb(0), 0);
    assert_eq!(size_kb(1023), 0);
    assert_eq!(size_kb(1024), 1);
    assert_eq!(size_kb(2047), 1);
    assert_eq!(size_kb(u64::MAX), u64::MAX / 1024);
}

#[test]
fn questions_read_as_written() {
    assert_eq!(
        Prompt::KeepOriginal { original_kb: 1, target_kb: 2 }.question(),
        "Keep original file?"
    );
    assert_eq!(
        Prompt::AcceptGrayscale { gray_kb: 180, target_kb: 200 }.question(),
        "Target reached by converting to Grayscale (180 KB). Proceed?"
    );
    assert_eq!(
        Prompt::ResizeGrayscale { gray_kb: 1, target_kb: 2 }.question(),
        "Target unreachable in Color. Proceed with Grayscale Resizing?"
    );
    assert_eq!(
        Prompt::ResizeColor { color_kb: 1, target_kb: 2 }.question(),
        "Resize the Color image instead?"
    );
    assert_eq!(
        Prompt::ResizeImage { color_kb: 1, target_kb: 2 }.question(),
        "Target unreachable. Resize image dimensions?"
    );
    assert_eq!(
        Prompt::SaveSmallest { smallest_kb: 1, target_kb: 2 }.question(),
        "Target unreachable. Save smallest possible?"
    );
    assert_eq!(
        Prompt::SaveFloor { floor_kb: 1, target_kb: 2 }.question(),
        "Save the smallest possible version?"
    );
}

#[test]
fn default_answers() {
    assert!(Prompt::KeepOriginal { original_kb: 1, target_kb: 2 }.default_yes());
    assert!(Prompt::AcceptGrayscale { gray_kb: 1, target_kb: 2 }.default_yes());
    assert!(Prompt::ResizeGrayscale { gray_kb: 1, target_kb: 2 }.default_yes());
    assert!(!Prompt::ResizeColor { color_kb: 1, target_kb: 2 }.default_yes());
    assert!(!Prompt::ResizeImage { color_kb: 1, target_kb: 2 }.default_yes());
    assert!(Prompt::SaveSmallest { smallest_kb: 1, target_kb: 2 }.default_yes());
    assert!(Prompt::SaveFloor { floor_kb: 1, target_kb: 2 }.default_yes());
}

#[test]
fn stages_are_ordered() {
    assert!(FallbackStage::Quantize.order() < FallbackStage::Grayscale.order());
    assert!(FallbackStage::Grayscale.order() < FallbackStage::Resize.order());
    assert!(FallbackStage::Resize.order() < FallbackStage::BestEffort.order());
}

#[test]
fn result_carries_label_and_time() {
    assert_eq!(
        result_with_time(Algorithm::BinarySearch { dpi: 131 }, 1234),
        CompResult { algorithm: "Binary Search (131 DPI)".to_string(), time_ms: 1234 }
    );
    assert_eq!(
        result_with_time(Algorithm::SmallestResize { format: Format::Jpeg }, 0).algorithm,
        "Best Effort"
    );
    assert_eq!(Failure::UnexpectedEvent.message(), "Compression stopped: the driver answered out of turn.");
    assert_eq!(Failure::ToolFailed(crnch::protocol::Tool::Oxipng).message(), "oxipng failed.");
}
