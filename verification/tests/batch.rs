use smartcropper::batch::{exit_status, BatchProgress, BatchReport, Stage};
use smartcropper::configuration::JobError;
use smartcropper::geometry::TargetAspectRatio;
use smartcropper::naming::output_name;
use smartcropper::pixels::{crop_to_ratio, Image};

#[test]
fn stages_follow_one_another() {
    assert_eq!(Stage::Load.advance(true), Stage::Detect);
    assert_eq!(Stage::Detect.advance(true), Stage::ComputeGeometry);
    assert_eq!(Stage::ComputeGeometry.advance(true), Stage::Crop);
    assert_eq!(Stage::Crop.advance(true), Stage::Save);
    assert_eq!(Stage::Save.advance(true), Stage::Success);
}

#[test]
fn failure_at_any_stage_leads_to_failed() {
    let stages = [Stage::Load, Stage::Detect, Stage::ComputeGeometry, Stage::Crop, Stage::Save];
    for stage in stages {
        assert_eq!(stage.advance(false), Stage::Failed);
    }
}

#[test]
fn terminal_stages_are_never_left() {
    assert_eq!(Stage::Success.advance(true), Stage::Success);
    assert_eq!(Stage::Success.advance(false), Stage::Success);
    assert_eq!(Stage::Failed.advance(true), Stage::Failed);
    assert_eq!(Stage::Failed.advance(false), Stage::Failed);
    assert!(Stage::Success.is_terminal());
    assert!(Stage::Failed.is_terminal());
    let stages = [Stage::Load, Stage::Detect, Stage::ComputeGeometry, Stage::Crop, Stage::Save];
    for stage in stages {
        assert!(!stage.is_terminal());
    }
}

#[test]
fn run_starts_with_loading_the_first_image() {
    let progress = BatchProgress::start(3);
    assert_eq!(progress.current(), Some(0));
    assert_eq!(progress.stage(), Stage::Load);
    assert_eq!(progress.report(), BatchReport { succeeded: 0, failed: 0 });
}

#[test]
fn run_over_nothing_is_finished_at_once() {
    let mut progress = BatchProgress::start(0);
    assert_eq!(progress.current(), None);
    progress.advance(true);
    progress.advance(false);
    assert_eq!(progress.current(), None);
    assert_eq!(progress.report(), BatchReport { succeeded: 0, failed: 0 });
}

#[test]
fn image_is_counted_when_its_last_stage_completes() {
    let mut progress = BatchProgress::start(2);
    let expected = [Stage::Detect, Stage::ComputeGeometry, Stage::Crop, Stage::Save];
    for stage in expected {
        progress.advance(true);
        assert_eq!(progress.stage(), stage);
        assert_eq!(progress.current(), Some(0));
        assert_eq!(progress.report(), BatchReport { succeeded: 0, failed: 0 });
    }
    progress.advance(true);
    assert_eq!(progress.report(), BatchReport { succeeded: 1, failed: 0 });
    assert_eq!(progress.current(), Some(1));
    assert_eq!(progress.stage(), Stage::Load);
}

#[test]
fn failed_image_is_counted_and_the_run_goes_on() {
    let mut progress = BatchProgress::start(3);
    progress.advance(true);
    progress.advance(true);
    progress.advance(false);
    assert_eq!(progress.report(), BatchReport { succeeded: 0, failed: 1 });
    assert_eq!(progress.current(), Some(1));
    assert_eq!(progress.stage(), Stage::Load);
    progress.advance(false);
    assert_eq!(progress.report(), BatchReport { succeeded: 0, failed: 2 });
    assert_eq!(progress.current(), Some(2));
    for _ in 0..4 {
        progress.advance(true);
    }
    progress.advance(false);
    assert_eq!(progress.report(), BatchReport { succeeded: 0, failed: 3 });
    assert_eq!(progress.current(), None);
}

#[test]
fn finished_run_counts_nothing_more() {
    let mut progress = BatchProgress::start(1);
    for _ in 0..5 {
        progress.advance(true);
    }
    assert_eq!(progress.current(), None);
    for _ in 0..7 {
        progress.advance(true);
        progress.advance(false);
    }
    assert_eq!(progress.report(), BatchReport { succeeded: 1, failed: 0 });
}

#[test]
fn exit_status_ignores_the_counts() {
    assert_eq!(exit_status(&Ok(BatchReport { succeeded: 5, failed: 2 })), 0);
    assert_eq!(exit_status(&Ok(BatchReport { succeeded: 0, failed: 7 })), 0);
    assert_eq!(exit_status(&Ok(BatchReport { succeeded: 0, failed: 0 })), 0);
}

#[test]
fn exit_status_reports_a_fatal_error() {
    let errors = [
        JobError::InvalidRatio,
        JobError::InputMissing,
        JobError::InputUnreadable,
        JobError::ModelMissing,
        JobError::ModelNotFile,
        JobError::ModelUnusable,
        JobError::OutputMissing,
        JobError::OutputNotDirectory,
    ];
    for error in errors {
        assert_eq!(exit_status(&Err(error)), 1);
    }
}

/// Encodes a plain image of the given size as a PNG file.
fn encoded(width: u32, height: u32, shade: u8) -> Vec<u8> {
    let picture = image::RgbaImage::from_pixel(width, height, image::Rgba([shade, shade, shade, 255]));
    let mut bytes = Vec::new();
    picture
        .write_to(&mut std::io::Cursor::new(&mut bytes), image::ImageFormat::Png)
        .expect("a plain image can be encoded");
    bytes
}

#[test]
fn batch_of_five_images_and_two_corrupt_files() {
    let files: Vec<(&str, Vec<u8>)> = vec![
        ("a.png", encoded(40, 20, 10)),
        ("b.png", b"this is no image at all".to_vec()),
        ("c.png", encoded(20, 40, 30)),
        ("d.png", encoded(33, 33, 50)),
        ("e.png", encoded(64, 48, 70)),
        ("f.png", encoded(40, 20, 90)[..25].to_vec()),
        ("g.png", encoded(1, 1, 110)),
    ];
    let target = TargetAspectRatio::new(1, 1).expect("both terms are positive");
    let mut progress = BatchProgress::start(files.len());
    let mut written: Vec<(String, u32, u32)> = Vec::new();
    while let Some(index) = progress.current() {
        assert_eq!(progress.stage(), Stage::Load);
        let decoded = match image::load_from_memory(&files[index].1) {
            Ok(decoded) => decoded,
            Err(_) => {
                progress.advance(false);
                continue;
            }
        };
        progress.advance(true);
        let faces = Vec::new();
        progress.advance(true);
        let rgba = decoded.to_rgba8();
        let source = Image::new(rgba.width(), rgba.height(), rgba.into_raw())
            .expect("a decoded image has a pixel and four samples for each");
        progress.advance(true);
        let outcome = crop_to_ratio(source, &target, &faces);
        progress.advance(true);
        assert_eq!(progress.stage(), Stage::Save);
        let name = output_name(Some(String::from(files[index].0)), progress.report().succeeded);
        let width = outcome.image.width();
        let height = outcome.image.height();
        let result = image::RgbaImage::from_raw(width, height, outcome.image.into_samples())
            .expect("the buffer has the size of the crop");
        let mut bytes = Vec::new();
        let saved = result
            .write_to(&mut std::io::Cursor::new(&mut bytes), image::ImageFormat::Png)
            .is_ok();
        if saved {
            written.push((name, width, height));
        }
        progress.advance(saved);
    }
    let report = progress.report();
    assert_eq!(report, BatchReport { succeeded: 5, failed: 2 });
    assert_eq!(exit_status(&Ok(report)), 0);
    assert_eq!(
        written,
        vec![
            (String::from("a.png"), 20, 20),
            (String::from("c.png"), 20, 20),
            (String::from("d.png"), 33, 33),
            (String::from("e.png"), 48, 48),
            (String::from("g.png"), 1, 1),
        ]
    );
}
