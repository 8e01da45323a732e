use crnch::engine::Engine;
use crnch::protocol::{
    Action, Algorithm, Artifact, CompressionLevel, CompressionRequest, Event, Failure,
    FallbackStage, Format, Invocation, Outcome, Preset, Prompt, Slot, Tool,
};

fn request(original_kb: u64, target_kb: Option<u64>, auto_yes: bool) -> CompressionRequest {
    CompressionRequest { original_kb, target_kb, level: None, auto_yes }
}

/// Runs an engine to its end against a scripted codec and a scripted user,
/// and returns every action it handed out.
fn drive(
    format: Format,
    request: CompressionRequest,
    codec: impl Fn(&Invocation) -> (bool, u64),
    user: impl Fn(&Prompt) -> bool,
) -> Vec<Action> {
    let (mut engine, mut action) = Engine::begin(format, request);
    let mut actions = vec![action];
    for _ in 0..100 {
        let event = match &action {
            Action::Invoke(invocation) => {
                let (success, size_kb) = codec(invocation);
                Event::Ran { success, size_kb }
            }
            Action::Ask(prompt) => Event::Answered { yes: user(prompt) },
            Action::Finish(_) => return actions,
        };
        let next = engine.advance(event);
        engine = next.0;
        action = next.1;
        actions.push(action);
    }
    panic!("the engine did not finish");
}

fn outcome(actions: &[Action]) -> Outcome {
    match actions.last() {
        Some(Action::Finish(outcome)) => *outcome,
        _ => panic!("no outcome"),
    }
}

fn count(actions: &[Action], pick: impl Fn(&Invocation) -> bool) -> usize {
    actions.iter().filter(|a| matches!(a, Action::Invoke(i) if pick(i))).count()
}

fn position(actions: &[Action], pick: impl Fn(&Invocation) -> bool) -> Option<usize> {
    actions.iter().position(|a| matches!(a, Action::Invoke(i) if pick(i)))
}

fn png_codec(stripped: u64, fits_up_to: u64, gray: u64, scale_fits_up_to: u64)
    -> impl Fn(&Invocation) -> (bool, u64) {
    move |invocation| match *invocation {
        Invocation::StripMetadata => (true, stripped),
        Invocation::Quantize { min_quality, .. } => {
            if min_quality <= fits_up_to {
                (true, 195 - (fits_up_to - min_quality))
            } else {
                (true, 201 + min_quality)
            }
        }
        Invocation::Grayscale { .. } => (true, gray),
        Invocation::Resize { scale_percent, .. } => {
            (true, if scale_percent <= scale_fits_up_to { 150 } else { 250 })
        }
        Invocation::Polish { .. } => (true, 190),
        _ => (false, 0),
    }
}

#[test]
fn png_quantization_converges_to_quality_62() {
    let actions = drive(
        Format::Png,
        request(500, Some(200), false),
        png_codec(450, 62, 400, 0),
        |_| panic!("no question is due"),
    );
    match outcome(&actions) {
        Outcome::Saved { artifact, algorithm, size_kb, stage } => {
            assert_eq!(algorithm, Algorithm::PngHybrid { quality: 62 });
            assert_eq!(size_kb, 195);
            assert_eq!(stage, Some(FallbackStage::Quantize));
            assert!(matches!(artifact, Artifact::Quantized(_)));
            assert_eq!(algorithm.label(), "Hybrid (Oxipng + Binary Search)");
            // The kept file is the one the probe at quality 62 wrote, and
            // nothing was written to it afterwards except the polish.
            let last_write = actions
                .iter()
                .rposition(|a| {
                    matches!(a, Action::Invoke(i @ Invocation::Quantize { .. }) if i.writes() == artifact)
                })
                .unwrap();
            assert!(matches!(
                actions[last_write],
                Action::Invoke(Invocation::Quantize { min_quality: 62, max_quality: 100, .. })
            ));
            assert_eq!(
                actions[actions.len() - 2],
                Action::Invoke(Invocation::Polish { target: artifact })
            );
        }
        other => panic!("unexpected outcome {:?}", other),
    }
    assert_eq!(actions[0], Action::Invoke(Invocation::StripMetadata));
    assert_eq!(
        actions[1],
        Action::Invoke(Invocation::Quantize {
            min_quality: 65,
            max_quality: 100,
            output: Artifact::Quantized(Slot::A)
        })
    );
    assert!(count(&actions, |i| matches!(i, Invocation::Quantize { .. })) <= 8);
    assert_eq!(count(&actions, |i| matches!(i, Invocation::Grayscale { .. })), 0);
}

#[test]
fn png_without_target_is_the_lossless_strip() {
    let actions =
        drive(Format::Png, request(500, None, false), png_codec(450, 0, 0, 0), |_| panic!());
    assert_eq!(
        actions,
        vec![
            Action::Invoke(Invocation::StripMetadata),
            Action::Finish(Outcome::Saved {
                artifact: Artifact::Stripped,
                algorithm: Algorithm::PngLossless,
                size_kb: 450,
                stage: None
            })
        ]
    );
}

#[test]
fn png_strip_alone_can_meet_the_target() {
    let actions =
        drive(Format::Png, request(500, Some(460), false), png_codec(450, 0, 0, 0), |_| panic!());
    assert_eq!(actions.len(), 2);
    assert_eq!(
        outcome(&actions),
        Outcome::Saved {
            artifact: Artifact::Stripped,
            algorithm: Algorithm::PngLossless,
            size_kb: 450,
            stage: None
        }
    );
}

#[test]
fn png_failed_strip_ends_the_run() {
    let actions = drive(Format::Png, request(500, Some(200), true), |_| (false, 0), |_| panic!());
    assert_eq!(actions.len(), 2);
    assert_eq!(outcome(&actions), Outcome::Failed(Failure::ToolFailed(Tool::Oxipng)));
}

#[test]
fn png_stages_come_in_order() {
    // Nothing fits until the image is resized to 30% or less.
    let actions = drive(
        Format::Png,
        request(500, Some(200), false),
        png_codec(450, 0, 400, 30),
        |_| true,
    );
    let quantize = position(&actions, |i| matches!(i, Invocation::Quantize { .. })).unwrap();
    let gray = position(&actions, |i| matches!(i, Invocation::Grayscale { .. })).unwrap();
    let resize = position(&actions, |i| matches!(i, Invocation::Resize { .. })).unwrap();
    assert!(quantize < gray && gray < resize);
    assert_eq!(count(&actions, |i| matches!(i, Invocation::Quantize { .. })), 6);
    assert_eq!(count(&actions, |i| matches!(i, Invocation::Grayscale { .. })), 1);
    assert!(count(&actions, |i| matches!(i, Invocation::Resize { .. })) <= 8);
    match outcome(&actions) {
        Outcome::Saved { algorithm, size_kb, stage, .. } => {
            assert_eq!(algorithm, Algorithm::Resized { format: Format::Png, scale_percent: 30 });
            assert_eq!(size_kb, 150);
            assert_eq!(stage, Some(FallbackStage::Resize));
            assert_eq!(algorithm.label(), "Hybrid Chain");
        }
        other => panic!("unexpected outcome {:?}", other),
    }
}

#[test]
fn png_grayscale_that_fits_is_offered_and_kept() {
    let actions = drive(
        Format::Png,
        request(500, Some(200), false),
        png_codec(450, 0, 180, 0),
        |prompt| matches!(prompt, Prompt::AcceptGrayscale { gray_kb: 180, target_kb: 200 }),
    );
    assert_eq!(
        outcome(&actions),
        Outcome::Saved {
            artifact: Artifact::Gray,
            algorithm: Algorithm::Grayscale { format: Format::Png },
            size_kb: 180,
            stage: Some(FallbackStage::Grayscale)
        }
    );
    assert_eq!(count(&actions, |i| matches!(i, Invocation::Resize { .. })), 0);
    assert_eq!(Algorithm::Grayscale { format: Format::Png }.label(), "pngquant + Grayscale");
}

#[test]
fn png_grayscale_is_made_from_the_stripped_image() {
    let actions = drive(
        Format::Png,
        request(500, Some(200), true),
        png_codec(450, 0, 180, 0),
        |_| panic!(),
    );
    assert!(actions.contains(&Action::Invoke(Invocation::Grayscale { input: Artifact::Stripped })));
}

#[test]
fn png_declining_everything_keeps_the_best_colour_file() {
    // Grayscale (400) is smaller than colour (450) but misses the target.
    let actions = drive(
        Format::Png,
        request(500, Some(200), false),
        png_codec(450, 0, 400, 0),
        |_| false,
    );
    let asked: Vec<&Action> = actions.iter().filter(|a| matches!(a, Action::Ask(_))).collect();
    assert_eq!(
        asked,
        vec![
            &Action::Ask(Prompt::ResizeGrayscale { gray_kb: 400, target_kb: 200 }),
            &Action::Ask(Prompt::ResizeColor { color_kb: 450, target_kb: 200 }),
        ]
    );
    match outcome(&actions) {
        Outcome::Saved { artifact, algorithm, size_kb, stage } => {
            // Every quantization was too large: the last one written is kept.
            assert_eq!(artifact, Artifact::Quantized(Slot::A));
            assert_eq!(algorithm, Algorithm::BestEffortColor { format: Format::Png });
            assert_eq!(size_kb, 201 + 30);
            assert_eq!(stage, Some(FallbackStage::BestEffort));
            assert_eq!(algorithm.label(), "pngquant (Best Effort Color)");
        }
        other => panic!("unexpected outcome {:?}", other),
    }
}

#[test]
fn png_declined_resize_without_quantized_output_keeps_the_stripped_file() {
    let codec = |invocation: &Invocation| match invocation {
        Invocation::StripMetadata => (true, 450),
        Invocation::Grayscale { .. } => (true, 470),
        _ => (false, 0),
    };
    let actions = drive(Format::Png, request(500, Some(200), false), codec, |_| false);
    let asked: Vec<&Action> = actions.iter().filter(|a| matches!(a, Action::Ask(_))).collect();
    assert_eq!(asked, vec![&Action::Ask(Prompt::ResizeImage { color_kb: 450, target_kb: 200 })]);
    assert_eq!(
        outcome(&actions),
        Outcome::Saved {
            artifact: Artifact::Stripped,
            algorithm: Algorithm::BestEffort { format: Format::Png },
            size_kb: 450,
            stage: Some(FallbackStage::BestEffort)
        }
    );
    assert_eq!(Algorithm::BestEffort { format: Format::Png }.label(), "pngquant (Best Effort)");
}

#[test]
fn png_rejected_grayscale_can_still_be_resized() {
    // Grayscale fits and is rejected; it is smaller than colour, so it is
    // offered as the image to resize.
    let actions = drive(
        Format::Png,
        request(500, Some(200), false),
        png_codec(450, 0, 180, 40),
        |prompt| !matches!(prompt, Prompt::AcceptGrayscale { .. }),
    );
    let first_resize = position(&actions, |i| matches!(i, Invocation::Resize { .. })).unwrap();
    assert_eq!(
        actions[first_resize],
        Action::Invoke(Invocation::Resize {
            input: Artifact::Gray,
            scale_percent: 50,
            output: Artifact::Resized(Slot::A)
        })
    );
    assert!(matches!(
        outcome(&actions),
        Outcome::Saved {
            algorithm: Algorithm::Resized { format: Format::Png, scale_percent: 40 },
            ..
        }
    ));
}

#[test]
fn png_when_no_scale_fits_the_smallest_attempt_is_offered() {
    let sizes = |invocation: &Invocation| match *invocation {
        Invocation::StripMetadata => (true, 450),
        Invocation::Grayscale { .. } => (true, 500),
        Invocation::Resize { scale_percent, .. } => (true, 300 + scale_percent),
        _ => (false, 0),
    };
    let kept = drive(Format::Png, request(900, Some(200), false), sizes, |_| true);
    assert_eq!(
        kept[kept.len() - 2],
        Action::Ask(Prompt::SaveSmallest { smallest_kb: 301, target_kb: 200 })
    );
    assert_eq!(
        outcome(&kept),
        Outcome::Saved {
            artifact: Artifact::Resized(Slot::A),
            algorithm: Algorithm::SmallestResize { format: Format::Png },
            size_kb: 301,
            stage: Some(FallbackStage::BestEffort)
        }
    );
    let refused = drive(Format::Png, request(900, Some(200), false), sizes, |prompt| {
        !matches!(prompt, Prompt::SaveSmallest { .. })
    });
    assert_eq!(outcome(&refused), Outcome::Failed(Failure::Cancelled));
}

#[test]
fn png_with_auto_yes_asks_nothing() {
    for gray in [100u64, 400, 470] {
        for scale in [0u64, 30, 100] {
            let actions = drive(
                Format::Png,
                request(500, Some(200), true),
                png_codec(450, 0, gray, scale),
                |_| panic!("asked in spite of auto-yes"),
            );
            assert!(matches!(outcome(&actions), Outcome::Saved { .. }));
        }
    }
}

#[test]
fn target_at_or_above_the_original_calls_no_codec() {
    for format in [Format::Png, Format::Jpeg, Format::Pdf] {
        for target in [500u64, 501, u64::MAX] {
            let kept = Outcome::Saved {
                artifact: Artifact::Original,
                algorithm: Algorithm::NoCompression,
                size_kb: 500,
                stage: None,
            };
            let asked = Action::Ask(Prompt::KeepOriginal { original_kb: 500, target_kb: target });
            let yes = drive(format, request(500, Some(target), false), |_| panic!(), |_| true);
            assert_eq!(yes, vec![asked, Action::Finish(kept)]);
            let no = drive(format, request(500, Some(target), false), |_| panic!(), |_| false);
            assert_eq!(
                no,
                vec![asked, Action::Finish(Outcome::Failed(Failure::CancelledByUser))]
            );
            let auto = drive(format, request(500, Some(target), true), |_| panic!(), |_| panic!());
            assert_eq!(auto, vec![Action::Finish(kept)]);
        }
    }
    assert_eq!(Algorithm::NoCompression.label(), "No compression (requested size >= original)");
    assert_eq!(Failure::CancelledByUser.message(), "Compression cancelled by user.");
}

#[test]
fn pdf_floor_above_target_is_unreachable() {
    let codec = |invocation: &Invocation| match invocation {
        Invocation::Render { preset: Some(Preset::Screen), dpi: None, .. } => (true, 1200),
        _ => panic!("no search is due"),
    };
    let auto = drive(Format::Pdf, request(10_000, Some(1_000), true), codec, |_| panic!());
    assert_eq!(
        auto,
        vec![
            Action::Invoke(Invocation::Render {
                preset: Some(Preset::Screen),
                dpi: None,
                output: Artifact::Floor
            }),
            Action::Finish(Outcome::Saved {
                artifact: Artifact::Floor,
                algorithm: Algorithm::Floor,
                size_kb: 1200,
                stage: None
            }),
        ]
    );
    assert_eq!(Algorithm::Floor.label(), "Floor (Min Quality)");
    let asked = drive(Format::Pdf, request(10_000, Some(1_000), false), codec, |_| false);
    assert_eq!(asked[1], Action::Ask(Prompt::SaveFloor { floor_kb: 1200, target_kb: 1000 }));
    assert_eq!(outcome(&asked), Outcome::Failed(Failure::Cancelled));
    assert_eq!(Failure::Cancelled.message(), "Compression cancelled.");
}

#[test]
fn pdf_search_finds_the_highest_resolution_that_fits() {
    // Ratio 10000 / 2000 = 5: resolutions 72 to 250. 131 DPI is the last
    // that fits.
    let codec = |invocation: &Invocation| match *invocation {
        Invocation::Render { dpi: None, .. } => (true, 900),
        Invocation::Render { dpi: Some(dpi), .. } => (true, if dpi <= 131 { 1900 } else { 2100 }),
        _ => (false, 0),
    };
    let actions = drive(Format::Pdf, request(10_000, Some(2_000), false), codec, |_| panic!());
    assert_eq!(
        actions[1],
        Action::Invoke(Invocation::Render {
            preset: Some(Preset::Printer),
            dpi: Some(161),
            output: Artifact::Rendered(Slot::A)
        })
    );
    match outcome(&actions) {
        Outcome::Saved { algorithm, size_kb, .. } => {
            assert_eq!(algorithm, Algorithm::BinarySearch { dpi: 131 });
            assert_eq!(size_kb, 1900);
            assert_eq!(algorithm.label(), "Binary Search (131 DPI)");
        }
        other => panic!("unexpected outcome {:?}", other),
    }
    assert!(count(&actions, |i| matches!(i, Invocation::Render { dpi: Some(_), .. })) <= 14);
}

#[test]
fn pdf_dpi_range_follows_the_ratio() {
    let first_dpi = |original: u64, target: u64| {
        let codec = |invocation: &Invocation| match invocation {
            Invocation::Render { dpi: None, .. } => (true, 0),
            _ => (true, u64::MAX),
        };
        let actions = drive(Format::Pdf, request(original, Some(target), true), codec, |_| true);
        match actions[1] {
            Action::Invoke(Invocation::Render { dpi: Some(dpi), .. }) => dpi,
            other => panic!("unexpected action {:?}", other),
        }
    };
    assert_eq!(first_dpi(10_001, 1_000), 100); // above 10: 50 to 150
    assert_eq!(first_dpi(10_000, 1_000), 161); // above 3: 72 to 250
    assert_eq!(first_dpi(3_001, 1_000), 161);
    assert_eq!(first_dpi(3_000, 1_000), 250); // above 2: 100 to 400
    assert_eq!(first_dpi(2_001, 1_000), 250);
    assert_eq!(first_dpi(2_000, 1_000), 375); // at most 2: 150 to 600
    assert_eq!(first_dpi(1_001, 1_000), 375);
    assert_eq!(first_dpi(5, 0), 100);
}

#[test]
fn pdf_search_that_finds_nothing_falls_back_to_the_floor() {
    let codec = |invocation: &Invocation| match invocation {
        Invocation::Render { dpi: None, .. } => (true, 900),
        _ => (true, 5_000),
    };
    let actions = drive(Format::Pdf, request(10_000, Some(2_000), false), codec, |_| panic!());
    assert_eq!(
        outcome(&actions),
        Outcome::Saved {
            artifact: Artifact::Floor,
            algorithm: Algorithm::FallbackScreen,
            size_kb: 900,
            stage: None
        }
    );
    assert_eq!(count(&actions, |i| matches!(i, Invocation::Render { dpi: None, .. })), 1);
    assert_eq!(Algorithm::FallbackScreen.label(), "Fallback /screen");
}

#[test]
fn pdf_failed_floor_is_rendered_again_after_a_fruitless_search() {
    let codec = |invocation: &Invocation| match invocation {
        Invocation::Render { dpi: None, .. } => (false, 0),
        _ => (true, 5_000),
    };
    let actions = drive(Format::Pdf, request(10_000, Some(2_000), false), codec, |_| panic!());
    assert_eq!(count(&actions, |i| matches!(i, Invocation::Render { dpi: None, .. })), 2);
    assert_eq!(outcome(&actions), Outcome::Failed(Failure::ToolFailed(Tool::Ghostscript)));
    assert_eq!(Failure::ToolFailed(Tool::Ghostscript).message(), "Ghostscript failed.");
}

#[test]
fn pdf_failed_probes_do_not_end_the_search() {
    let codec = |invocation: &Invocation| match *invocation {
        Invocation::Render { dpi: None, .. } => (true, 900),
        Invocation::Render { dpi: Some(dpi), .. } => (dpi < 100, 1500),
        _ => (false, 0),
    };
    let actions = drive(Format::Pdf, request(10_000, Some(2_000), false), codec, |_| panic!());
    assert!(matches!(
        outcome(&actions),
        Outcome::Saved { algorithm: Algorithm::BinarySearch { dpi: 99 }, size_kb: 1500, .. }
    ));
}

#[test]
fn pdf_without_target_renders_once_with_a_preset() {
    for (original, preset, label) in [
        (500u64, Preset::Printer, "Smart Compression (/printer)"),
        (10_000, Preset::Printer, "Smart Compression (/printer)"),
        (10_001, Preset::Ebook, "Smart Compression (/ebook)"),
        (80_000, Preset::Ebook, "Smart Compression (/ebook)"),
    ] {
        let actions = drive(Format::Pdf, request(original, None, false), |_| (true, 77), |_| panic!());
        assert_eq!(
            actions,
            vec![
                Action::Invoke(Invocation::Render {
                    preset: Some(preset),
                    dpi: None,
                    output: Artifact::Preset
                }),
                Action::Finish(Outcome::Saved {
                    artifact: Artifact::Preset,
                    algorithm: Algorithm::SmartCompression { preset },
                    size_kb: 77,
                    stage: None
                }),
            ]
        );
        assert_eq!(Algorithm::SmartCompression { preset }.label(), label);
    }
    let failed = drive(Format::Pdf, request(500, None, false), |_| (false, 0), |_| panic!());
    assert_eq!(outcome(&failed), Outcome::Failed(Failure::ToolFailed(Tool::Ghostscript)));
}

#[test]
fn jpeg_ladder_stops_at_the_first_rung_that_holds() {
    let codec = |invocation: &Invocation| match *invocation {
        Invocation::LosslessOptimize => (true, 950),
        Invocation::LossyExtent { extent_kb: 600, input: Artifact::Optimized } => (true, 580),
        _ => panic!("unexpected call {:?}", invocation),
    };
    let actions = drive(Format::Jpeg, request(1_000, None, false), codec, |_| panic!());
    assert_eq!(actions.len(), 3);
    match outcome(&actions) {
        Outcome::Saved { artifact, algorithm, size_kb, stage } => {
            assert_eq!(artifact, Artifact::Lossy);
            assert_eq!(algorithm, Algorithm::StandardPreset { target_kb: 600 });
            assert_eq!(size_kb, 580);
            assert_eq!(stage, None);
            assert_eq!(
                algorithm.label(),
                "jpegoptim + magick (Standard Preset, target 600 KB)"
            );
        }
        other => panic!("unexpected outcome {:?}", other),
    }
}

#[test]
fn jpeg_ladder_climbs_in_steps_of_five_percent() {
    let codec = |invocation: &Invocation| match *invocation {
        Invocation::LosslessOptimize => (true, 950),
        Invocation::LossyExtent { extent_kb, .. } => (extent_kb != 700, extent_kb + 1),
        _ => panic!(),
    };
    let actions = drive(Format::Jpeg, request(1_000, None, false), codec, |_| panic!());
    let extents: Vec<u64> = actions
        .iter()
        .filter_map(|a| match a {
            Action::Invoke(Invocation::LossyExtent { extent_kb, .. }) => Some(*extent_kb),
            _ => None,
        })
        .collect();
    assert_eq!(extents, vec![600, 650, 700, 750, 800, 850, 900, 950]);
    assert_eq!(
        outcome(&actions),
        Outcome::Saved {
            artifact: Artifact::Original,
            algorithm: Algorithm::NoReduction,
            size_kb: 1_000,
            stage: None
        }
    );
    assert_eq!(
        Algorithm::NoReduction.label(),
        "jpegoptim + magick (No reduction, original kept)"
    );
}

#[test]
fn jpeg_ladder_extents_round_down() {
    let codec = |invocation: &Invocation| match *invocation {
        Invocation::LosslessOptimize => (true, 9),
        Invocation::LossyExtent { extent_kb, .. } => (true, extent_kb + 1),
        _ => panic!(),
    };
    let actions = drive(Format::Jpeg, request(7, None, false), codec, |_| panic!());
    let extents: Vec<u64> = actions
        .iter()
        .filter_map(|a| match a {
            Action::Invoke(Invocation::LossyExtent { extent_kb, .. }) => Some(*extent_kb),
            _ => None,
        })
        .collect();
    assert_eq!(extents, vec![4, 4, 4, 5, 5, 5, 6, 6]);
}

#[test]
fn jpeg_ladder_on_the_largest_input_does_not_overflow() {
    let codec = |invocation: &Invocation| match *invocation {
        Invocation::LosslessOptimize => (true, 1),
        Invocation::LossyExtent { .. } => (true, u64::MAX),
        _ => panic!(),
    };
    let actions = drive(Format::Jpeg, request(u64::MAX, None, false), codec, |_| panic!());
    assert_eq!(
        actions[1],
        Action::Invoke(Invocation::LossyExtent {
            input: Artifact::Optimized,
            extent_kb: 11068046444225730969
        })
    );
}

#[test]
fn jpeg_failed_lossless_pass_hands_on_the_original() {
    let codec = |invocation: &Invocation| match *invocation {
        Invocation::LosslessOptimize => (false, 0),
        Invocation::LossyExtent { input, .. } => {
            assert_eq!(input, Artifact::Original);
            (true, 100)
        }
        _ => panic!(),
    };
    let ladder = drive(Format::Jpeg, request(1_000, None, false), codec, |_| panic!());
    assert!(matches!(outcome(&ladder), Outcome::Saved { algorithm: Algorithm::StandardPreset { .. }, .. }));
    let target = drive(Format::Jpeg, request(1_000, Some(300), false), codec, |_| panic!());
    assert_eq!(
        outcome(&target),
        Outcome::Saved {
            artifact: Artifact::Lossy,
            algorithm: Algorithm::JpegLossy,
            size_kb: 100,
            stage: None
        }
    );
}

#[test]
fn jpeg_lossless_pass_alone_can_meet_the_target() {
    let actions =
        drive(Format::Jpeg, request(1_000, Some(960), false), |_| (true, 950), |_| panic!());
    assert_eq!(
        actions,
        vec![
            Action::Invoke(Invocation::LosslessOptimize),
            Action::Finish(Outcome::Saved {
                artifact: Artifact::Optimized,
                algorithm: Algorithm::JpegLossless,
                size_kb: 950,
                stage: None
            }),
        ]
    );
    assert_eq!(Algorithm::JpegLossless.label(), "jpegoptim (Lossless)");
}

#[test]
fn jpeg_with_a_level_and_no_target_makes_one_pass_at_its_quality() {
    for (level, quality) in
        [(CompressionLevel::Low, 85u64), (CompressionLevel::Medium, 75), (CompressionLevel::High, 50)]
    {
        let request =
            CompressionRequest { original_kb: 1_000, target_kb: None, level: Some(level), auto_yes: false };
        let actions = drive(Format::Jpeg, request, |_| (true, 700), |_| panic!());
        assert_eq!(
            actions,
            vec![
                Action::Invoke(Invocation::LosslessOptimize),
                Action::Invoke(Invocation::LossyQuality { input: Artifact::Optimized, quality }),
                Action::Finish(Outcome::Saved {
                    artifact: Artifact::Lossy,
                    algorithm: Algorithm::JpegLossy,
                    size_kb: 700,
                    stage: None
                }),
            ]
        );
    }
    assert_eq!(Algorithm::JpegLossy.label(), "jpegoptim + ImageMagick");
}

#[test]
fn jpeg_failed_lossy_pass_ends_the_run() {
    let codec = |invocation: &Invocation| match invocation {
        Invocation::LosslessOptimize => (true, 950),
        _ => (false, 0),
    };
    let actions = drive(Format::Jpeg, request(1_000, Some(300), false), codec, |_| panic!());
    assert_eq!(outcome(&actions), Outcome::Failed(Failure::ToolFailed(Tool::ImageMagick)));
    assert_eq!(Failure::ToolFailed(Tool::ImageMagick).message(), "ImageMagick failed.");
}

#[test]
fn jpeg_above_target_goes_down_the_fallbacks() {
    let codec = |invocation: &Invocation| match *invocation {
        Invocation::LosslessOptimize => (true, 950),
        Invocation::LossyExtent { .. } => (true, 400),
        Invocation::Grayscale { input } => {
            assert_eq!(input, Artifact::Lossy);
            (true, 350)
        }
        Invocation::Resize { scale_percent, input, .. } => {
            assert_eq!(input, Artifact::Gray);
            (true, if scale_percent <= 42 { 290 } else { 310 })
        }
        _ => panic!("unexpected call {:?}", invocation),
    };
    let actions = drive(Format::Jpeg, request(1_000, Some(300), false), codec, |_| true);
    match outcome(&actions) {
        Outcome::Saved { algorithm, size_kb, stage, .. } => {
            assert_eq!(algorithm, Algorithm::Resized { format: Format::Jpeg, scale_percent: 42 });
            assert_eq!(size_kb, 290);
            assert_eq!(stage, Some(FallbackStage::Resize));
            assert_eq!(algorithm.label(), "JPG + Resize 42%");
        }
        other => panic!("unexpected outcome {:?}", other),
    }
    assert_eq!(count(&actions, |i| matches!(i, Invocation::Polish { .. })), 0);
    let declined = drive(Format::Jpeg, request(1_000, Some(300), false), codec, |_| false);
    assert_eq!(
        outcome(&declined),
        Outcome::Saved {
            artifact: Artifact::Lossy,
            algorithm: Algorithm::BestEffortColor { format: Format::Jpeg },
            size_kb: 400,
            stage: Some(FallbackStage::BestEffort)
        }
    );
    assert_eq!(Algorithm::BestEffortColor { format: Format::Jpeg }.label(), "Best Effort");
    assert_eq!(Algorithm::Grayscale { format: Format::Jpeg }.label(), "JPG + Grayscale");
}

#[test]
fn failed_grayscale_is_passed_over() {
    let codec = |invocation: &Invocation| match *invocation {
        Invocation::StripMetadata => (true, 450),
        Invocation::Grayscale { .. } => (false, 0),
        Invocation::Resize { input, scale_percent, .. } => {
            assert_eq!(input, Artifact::Stripped);
            (true, scale_percent * 4)
        }
        Invocation::Polish { .. } => (false, 0),
        _ => (false, 0),
    };
    let actions = drive(Format::Png, request(500, Some(200), false), codec, |_| true);
    assert!(actions.contains(&Action::Ask(Prompt::ResizeImage { color_kb: 450, target_kb: 200 })));
    assert!(matches!(
        outcome(&actions),
        Outcome::Saved {
            algorithm: Algorithm::Resized { scale_percent: 50, .. },
            size_kb: 200,
            ..
        }
    ));
}

#[test]
fn an_event_of_the_wrong_kind_ends_the_run() {
    let (engine, _) = Engine::begin(Format::Png, request(500, Some(200), false));
    let (engine, action) = engine.advance(Event::Answered { yes: true });
    assert_eq!(action, Action::Finish(Outcome::Failed(Failure::UnexpectedEvent)));
    let (_, again) = engine.advance(Event::Ran { success: true, size_kb: 1 });
    assert_eq!(again, action);
    let (engine, _) = Engine::begin(Format::Pdf, request(500, Some(600), false));
    let (_, action) = engine.advance(Event::Ran { success: true, size_kb: 1 });
    assert_eq!(action, Action::Finish(Outcome::Failed(Failure::UnexpectedEvent)));
}

#[test]
fn finish_is_handed_out_again_whatever_follows() {
    let (engine, _) = Engine::begin(Format::Png, request(500, None, false));
    let (engine, done) = engine.advance(Event::Ran { success: true, size_kb: 450 });
    assert!(matches!(done, Action::Finish(Outcome::Saved { .. })));
    for event in [Event::Ran { success: false, size_kb: 0 }, Event::Answered { yes: false }] {
        let (next, action) = engine.advance(event);
        assert_eq!(next, engine);
        assert_eq!(action, done);
    }
}

/// A codec and a user that answer from a stream of pseudo-random numbers.
fn dice(seed: u64) -> impl Fn() -> u64 {
    let state = std::cell::Cell::new(seed.wrapping_mul(6364136223846793005).wrapping_add(1442695040888963407));
    move || {
        let next = state.get().wrapping_mul(6364136223846793005).wrapping_add(1442695040888963407);
        state.set(next);
        next >> 33
    }
}

#[test]
fn every_run_ends_within_its_bounds_and_keeps_its_word() {
    for seed in 0..3000u64 {
        for (format, most) in [(Format::Png, 22usize), (Format::Jpeg, 15), (Format::Pdf, 16)] {
            let roll = dice(seed);
            let target = if seed % 5 == 0 { None } else { Some(100 + seed % 300) };
            let level = if seed % 7 == 0 { Some(CompressionLevel::Medium) } else { None };
            let request = CompressionRequest {
                original_kb: 250 + seed % 400,
                target_kb: target,
                level,
                auto_yes: seed % 3 == 0,
            };
            let actions = drive(
                format,
                request,
                |_| (roll() % 4 != 0, roll() % 500),
                |_| roll() % 2 == 0,
            );
            assert!(actions.len() - 1 <= most);
            assert!(count(&actions, |i| matches!(i, Invocation::Quantize { .. })) <= 8);
            assert!(count(&actions, |i| matches!(i, Invocation::Resize { .. })) <= 8);
            assert!(count(&actions, |i| matches!(i, Invocation::Render { dpi: Some(_), .. })) <= 14);
            if request.auto_yes {
                assert!(!actions.iter().any(|a| matches!(a, Action::Ask(_))));
            }
            let gray = position(&actions, |i| matches!(i, Invocation::Grayscale { .. }));
            let quantize = position(&actions, |i| matches!(i, Invocation::Quantize { .. }));
            let resize = position(&actions, |i| matches!(i, Invocation::Resize { .. }));
            if let Some(r) = resize {
                assert!(gray.unwrap() < r);
            }
            if let (Format::Png, Some(g)) = (format, gray) {
                assert!(quantize.unwrap() < g);
            }
            if let Outcome::Saved { artifact, algorithm, size_kb, stage } = outcome(&actions) {
                match algorithm {
                    Algorithm::PngHybrid { .. }
                    | Algorithm::Grayscale { .. }
                    | Algorithm::Resized { .. }
                    | Algorithm::JpegLossless
                    | Algorithm::BinarySearch { .. } => assert!(size_kb <= target.unwrap()),
                    Algorithm::StandardPreset { target_kb } => {
                        assert!(size_kb <= target_kb && target_kb <= request.original_kb)
                    }
                    Algorithm::Floor => assert!(size_kb > target.unwrap()),
                    Algorithm::NoCompression | Algorithm::NoReduction => {
                        assert_eq!(artifact, Artifact::Original)
                    }
                    _ => {}
                }
                match stage {
                    None => assert!(gray.is_none() && quantize.is_none() && resize.is_none()),
                    Some(FallbackStage::Quantize) => assert!(quantize.is_some() && gray.is_none()),
                    Some(FallbackStage::Grayscale) => assert!(gray.is_some() && resize.is_none()),
                    Some(FallbackStage::Resize) => assert!(resize.is_some()),
                    Some(FallbackStage::BestEffort) => assert!(gray.is_some()),
                }
                // Some call wrote the kept file.
                if artifact != Artifact::Original {
                    assert!(actions.iter().any(
                        |a| matches!(a, Action::Invoke(i) if i.writes() == artifact)
                    ));
                }
            }
        }
    }
}
