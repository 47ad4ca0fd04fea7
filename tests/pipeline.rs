use std::io::Cursor;
use zip_packer::envelope::envelope_name;
use zip_packer::kind::FileType;
use zip_packer::pack::{check_envelope, convert_to_target_format, plan_entry, EntryError, EntryPlan, PackReport};
use zip_packer::restore::{convert_binary_to_image, convert_binary_to_text, ConversionError};
use zip_packer::retry::{classify_delete_error, CleanupFailure, DeleteOutcome, DeleteRetry, DeleteStep};
use zip_packer::unpack::{remove_after_conversion, restore_action, RestoreAction, RestoreRun, RestoreStep};

fn png_bytes() -> Vec<u8> {
    let img = image::DynamicImage::ImageRgb8(image::RgbImage::new(1, 1));
    let mut out = Cursor::new(Vec::new());
    img.write_to(&mut out, image::ImageFormat::Png).unwrap();
    out.into_inner()
}

#[test]
fn conversion_plans() {
    match convert_to_target_format("in/photo.png") {
        EntryPlan::Envelope { kind, name } => {
            assert_eq!(kind, FileType::Image);
            assert_eq!(name, "photo.png.bin");
        }
        other => panic!("unexpected plan {:?}", other),
    }
    match convert_to_target_format("in/movie.mp4") {
        EntryPlan::Raw { name } => assert_eq!(name, "movie.mp4"),
        other => panic!("unexpected plan {:?}", other),
    }
}

#[test]
fn entry_plans() {
    assert!(matches!(plan_entry("in/sub", false, &FileType::Other, true), EntryPlan::Skip));
    assert!(matches!(plan_entry("in/a.txt", true, &FileType::Image, true), EntryPlan::Skip));
    match plan_entry("in/a.txt", true, &FileType::Other, false) {
        EntryPlan::Raw { name } => assert_eq!(name, "a.txt"),
        other => panic!("unexpected plan {:?}", other),
    }
    match plan_entry("in/a.txt", true, &FileType::Text, true) {
        EntryPlan::Envelope { kind, name } => {
            assert_eq!(kind, FileType::Text);
            assert_eq!(name, "a.txt.bin");
        }
        other => panic!("unexpected plan {:?}", other),
    }
}

#[test]
fn one_broken_image_does_not_stop_the_others() {
    let files: Vec<(&str, Vec<u8>)> = vec![
        ("in/a.png", png_bytes()),
        ("in/b.png", png_bytes()),
        ("in/broken.png", b"garbage".to_vec()),
        ("in/c.png", png_bytes()),
    ];
    let mut report = PackReport::new();
    for (path, bytes) in &files {
        match plan_entry(path, true, &FileType::Other, true) {
            EntryPlan::Envelope { kind, name } => {
                let outcome = check_envelope(kind, bytes).map_err(EntryError::Conversion);
                report.record(name, outcome);
            }
            other => panic!("unexpected plan {:?}", other),
        }
    }
    assert_eq!(report.archived, vec!["a.png.bin", "b.png.bin", "c.png.bin"]);
    assert_eq!(report.failed.len(), 1);
    assert_eq!(report.failed[0].0, "broken.png.bin");
    assert_eq!(report.failed[0].1, EntryError::Conversion(ConversionError::InvalidImageData));
    assert_eq!(report.conversion_failures(), 1);
}

#[test]
fn text_envelopes_need_no_check() {
    assert_eq!(check_envelope(FileType::Text, &[0xff, 0xfe]), Ok(()));
}

#[test]
fn pack_then_restore_text_gives_back_name_and_bytes() {
    let name = envelope_name("in/notes.txt");
    assert_eq!(restore_action(&name), RestoreAction::ConvertText);
    let contents = b"line one\nline two\n".to_vec();
    let restored = convert_binary_to_text(&name, &contents).unwrap();
    assert_eq!(restored.path, "notes.txt");
    assert_eq!(restored.contents, contents);
    assert!(remove_after_conversion(&name, &restored.path));
}

#[test]
fn pack_then_restore_image_keeps_its_name() {
    let name = envelope_name("in/pic.jpg");
    assert_eq!(restore_action(&name), RestoreAction::ConvertImage);
    let restored = convert_binary_to_image(&name, &png_bytes()).unwrap();
    assert_eq!(restored.path, "pic.jpg");
}

#[test]
fn restore_actions() {
    assert_eq!(restore_action("x.txt"), RestoreAction::ConvertText);
    assert_eq!(restore_action("x.json"), RestoreAction::ConvertText);
    assert_eq!(restore_action("x.png"), RestoreAction::Keep);
    assert_eq!(restore_action("x.mp4.bin"), RestoreAction::Unsupported(FileType::Video));
    assert_eq!(restore_action("x.bin"), RestoreAction::Unsupported(FileType::Other));
    assert_eq!(restore_action("noext"), RestoreAction::Keep);
    assert!(!remove_after_conversion("x.txt", "x.txt"));
}

#[test]
fn empty_archive_finishes_at_once() {
    let mut run = RestoreRun::new(0);
    assert_eq!(run.step(), RestoreStep::Finish);
    assert_eq!(run.step(), RestoreStep::Finish);
}

#[test]
fn restore_reads_each_entry_then_sweeps() {
    let mut run = RestoreRun::new(2);
    assert_eq!(run.step(), RestoreStep::ReadEntry(0));
    assert_eq!(run.step(), RestoreStep::ReadEntry(1));
    assert_eq!(run.step(), RestoreStep::Sweep);
    assert_eq!(run.step(), RestoreStep::Finish);
}

#[test]
fn locked_file_gives_up_after_five_attempts() {
    let mut retry = DeleteRetry::new();
    let mut waits = Vec::new();
    let mut attempts = 0;
    while retry.may_attempt() {
        attempts += 1;
        match retry.record(DeleteOutcome::Locked) {
            DeleteStep::Wait(ms) => waits.push(ms),
            other => panic!("unexpected step {:?}", other),
        }
    }
    assert_eq!(attempts, 5);
    assert_eq!(waits, vec![100, 200, 400, 800, 1600]);
}

#[test]
fn other_delete_errors_are_not_retried() {
    let mut retry = DeleteRetry::new();
    assert_eq!(retry.record(DeleteOutcome::Failed), DeleteStep::GiveUp(CleanupFailure::NotRemovable));
}

#[test]
fn removal_after_a_lock_succeeds() {
    let mut retry = DeleteRetry::new();
    assert_eq!(retry.record(DeleteOutcome::Locked), DeleteStep::Wait(100));
    assert_eq!(retry.record(DeleteOutcome::Removed), DeleteStep::Done);
}

#[test]
fn delete_errors_are_classified_by_code() {
    assert_eq!(classify_delete_error(Some(1224)), DeleteOutcome::Locked);
    assert_eq!(classify_delete_error(Some(5)), DeleteOutcome::Failed);
    assert_eq!(classify_delete_error(None), DeleteOutcome::Failed);
}

#[test]
fn raw_files_come_back_under_their_names() {
    match convert_to_target_format("in/movie.mp4") {
        EntryPlan::Raw { name } => assert_eq!(restore_action(&name), RestoreAction::Keep),
        other => panic!("unexpected plan {:?}", other),
    }
    match convert_to_target_format("in/data.json") {
        EntryPlan::Raw { name } => {
            assert_eq!(restore_action(&name), RestoreAction::ConvertText);
            let restored = convert_binary_to_text(&name, b"{\"a\": 1}").unwrap();
            assert_eq!(restored.path, "data.json");
            assert_eq!(restored.contents, b"{\"a\": 1}".to_vec());
            assert!(!remove_after_conversion(&name, &restored.path));
        }
        other => panic!("unexpected plan {:?}", other),
    }
}

#[test]
fn report_of_a_whole_run() {
    let outcomes: Vec<(String, Result<(), EntryError>)> = vec![
        ("a.png.bin".to_string(), Ok(())),
        ("broken.png.bin".to_string(), Err(EntryError::Conversion(ConversionError::InvalidImageData))),
        ("b.png.bin".to_string(), Ok(())),
        ("c.png.bin".to_string(), Ok(())),
    ];
    let report = PackReport::from_outcomes(&outcomes);
    assert_eq!(report.archived, vec!["a.png.bin", "b.png.bin", "c.png.bin"]);
    assert_eq!(report.failed, vec![("broken.png.bin".to_string(), EntryError::Conversion(ConversionError::InvalidImageData))]);
    assert_eq!(report.conversion_failures(), 1);
}

#[test]
fn report_of_an_empty_run() {
    let report = PackReport::from_outcomes(&Vec::new());
    assert!(report.archived.is_empty());
    assert!(report.failed.is_empty());
    assert_eq!(report.conversion_failures(), 0);
}
