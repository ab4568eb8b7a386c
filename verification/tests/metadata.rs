//! Tests of metadata handling: EXIF extraction from real bytes, the date
//! fallback chain, video container metadata, message lookup, the preview
//! rendering and the prompt mapping.

use y4m2d2::clock::current_civil;
use y4m2d2::dates::CivilDateTime;
use y4m2d2::dates::valid_date_check;
use y4m2d2::i18n::I18n;
use y4m2d2::i18n::Language;
use y4m2d2::i18n::timezone_name_for_offset;
use y4m2d2::photo_date::DateSource;
use y4m2d2::photo_date::PhotoDate;
use y4m2d2::photo_date::date_from_filename;
use y4m2d2::photo_orientation::OrientationDecision;
use y4m2d2::photo_orientation::OrientationDetector;
use y4m2d2::photo_orientation::orientation_suffix;
use y4m2d2::preview::RenamePreview;
use y4m2d2::prompt::Prompt;
use y4m2d2::prompt::PromptChoice;
use y4m2d2::media_orientation::OrientationDecision as RunDecision;
use y4m2d2::display::Display;
use y4m2d2::rename_error::ErrorContext;
use y4m2d2::rename_error::PhotoRenamerError;
use y4m2d2::renamer::PhotoRenamer;
use y4m2d2::video::VideoDate;

fn civil(year: u32, month: u32, day: u32, hour: u32, minute: u32, second: u32) -> CivilDateTime {
    CivilDateTime { year, month, day, hour, minute, second, nanosecond: 0 }
}

/// A minimal TIFF byte run carrying an Orientation tag of 6 and a
/// DateTimeOriginal of 2024:02:14 12:34:56.
fn exif_bytes() -> Vec<u8> {
    let mut b: Vec<u8> = Vec::new();
    // header: little endian, magic 42, first IFD at offset 8
    b.extend_from_slice(&[0x49, 0x49, 0x2A, 0x00, 0x08, 0x00, 0x00, 0x00]);
    // IFD0: two entries
    b.extend_from_slice(&[0x02, 0x00]);
    // Orientation (0x0112), SHORT, count 1, value 6
    b.extend_from_slice(&[0x12, 0x01, 0x03, 0x00, 0x01, 0x00, 0x00, 0x00, 0x06, 0x00, 0x00, 0x00]);
    // Exif IFD pointer (0x8769), LONG, count 1, offset 38
    b.extend_from_slice(&[0x69, 0x87, 0x04, 0x00, 0x01, 0x00, 0x00, 0x00, 0x26, 0x00, 0x00, 0x00]);
    // no further IFD
    b.extend_from_slice(&[0x00, 0x00, 0x00, 0x00]);
    // Exif IFD at 38: one entry
    b.extend_from_slice(&[0x01, 0x00]);
    // DateTimeOriginal (0x9003), ASCII, count 20, offset 56
    b.extend_from_slice(&[0x03, 0x90, 0x02, 0x00, 0x14, 0x00, 0x00, 0x00, 0x38, 0x00, 0x00, 0x00]);
    b.extend_from_slice(&[0x00, 0x00, 0x00, 0x00]);
    // the date text itself
    b.extend_from_slice(b"2024:02:14 12:34:56\0");
    b
}

#[test]
fn test_exif_date_resolution() {
    // no offset tag and no modified time: the nine-hour default applies
    let resolver = PhotoDate::new();
    let bytes = exif_bytes();
    let now = civil(2030, 1, 1, 0, 0, 0);
    let (date, source) = resolver.get_photo_date(Some(&bytes), "IMG_0001.jpg", None, None, 0, &now);
    assert_eq!(source, DateSource::Exif);
    assert_eq!(date, civil(2024, 2, 14, 21, 34, 56));
}

#[test]
fn test_exif_wins_over_filename() {
    // the name embeds a different date, but the EXIF date wins
    let resolver = PhotoDate::new();
    let bytes = exif_bytes();
    let now = civil(2030, 1, 1, 0, 0, 0);
    let (date, source) = resolver.get_photo_date(
        Some(&bytes),
        "20190101_000000.jpg",
        None,
        None,
        0,
        &now,
    );
    assert_eq!(source, DateSource::Exif);
    assert_eq!(date.year, 2024);
}

#[test]
fn test_resolution_idempotent() {
    // resolving twice on the same unmodified inputs yields an identical
    // timestamp and source, whatever the wall clock says
    let resolver = PhotoDate::new();
    let bytes = exif_bytes();
    let now1 = civil(2030, 1, 1, 0, 0, 0);
    let now2 = civil(2031, 6, 6, 6, 6, 6);
    let first = resolver.get_photo_date(Some(&bytes), "a.jpg", None, None, 0, &now1);
    let second = resolver.get_photo_date(Some(&bytes), "a.jpg", None, None, 0, &now2);
    assert_eq!(first, second);
}

#[test]
fn test_filename_date_patterns() {
    assert_eq!(date_from_filename("IMG_20240214_123456.jpg"), Some(civil(2024, 2, 14, 12, 34, 56)));
    assert_eq!(
        date_from_filename("2023-05-01_09-08-07.png"),
        Some(civil(2023, 5, 1, 9, 8, 7))
    );
    assert_eq!(date_from_filename("20240214-123456.jpg"), Some(civil(2024, 2, 14, 12, 34, 56)));
    assert_eq!(date_from_filename("nothing_here.jpg"), None);
    // a matched shape naming an impossible date falls through
    assert_eq!(date_from_filename("20241399_996100.jpg"), None);
}

#[test]
fn test_fallback_to_creation_and_clock() {
    let resolver = PhotoDate::new();
    let now = civil(2030, 1, 1, 0, 0, 0);
    // creation time, read in the caller's zone
    let (date, source) = resolver.get_photo_date(None, "plain.jpg", None, Some(1707914096), 0, &now);
    assert_eq!(source, DateSource::CreationTime);
    assert_eq!(date, civil(2024, 2, 14, 12, 34, 56));
    // nothing at all: the wall clock
    let (date, source) = resolver.get_photo_date(None, "plain.jpg", None, None, 0, &now);
    assert_eq!(source, DateSource::CurrentTime);
    assert_eq!(date, now);
}

#[test]
fn test_video_metadata_probing() {
    let video = VideoDate::new();
    let now = civil(2030, 1, 1, 0, 0, 0);
    let metadata = vec![
        ("encoder".to_string(), "zlib".to_string()),
        ("creation_time".to_string(), "2024-01-01T00:00:00".to_string()),
    ];
    // the nine-hour default offset shifts the stored time
    let date = video.get_video_date(&metadata, None, 0, &now);
    assert_eq!(date, civil(2024, 1, 1, 9, 0, 0));

    // an unparsable value falls through to the creation time
    let broken = vec![("creation_time".to_string(), "not a date".to_string())];
    let date = video.get_video_date(&broken, Some(1707914096), 0, &now);
    assert_eq!(date, civil(2024, 2, 14, 12, 34, 56));

    // and with nothing at hand, to the wall clock
    let date = video.get_video_date(&broken, None, 0, &now);
    assert_eq!(date, now);
}

#[test]
fn test_video_formats() {
    let mut video = VideoDate::new();
    video.set_timezone_offset(0);
    let now = civil(2030, 1, 1, 0, 0, 0);
    for value in [
        "2024-02-14 12:34:56",
        "2024-02-14T12:34:56",
        "2024:02:14 12:34:56",
    ] {
        let md = vec![("date".to_string(), value.to_string())];
        assert_eq!(video.get_video_date(&md, None, 0, &now), civil(2024, 2, 14, 12, 34, 56));
    }
    let md = vec![("date".to_string(), "2024-02-14T12:34:56.120".to_string())];
    let with_frac = video.get_video_date(&md, None, 0, &now);
    assert_eq!(with_frac.nanosecond, 120_000_000);
    assert_eq!(with_frac.second, 56);
    let formats = video.get_date_formats();
    assert_eq!(formats.len(), 5);
    assert_eq!(formats[0], "%Y-%m-%d %H:%M:%S");
}

#[test]
fn test_photo_orientation_cache_window() {
    let mut detector = OrientationDetector::new();
    assert_eq!(detector.cache_duration, 300);
    let d = detector.detect_orientation(1000, Some(6), None);
    assert_eq!(d, Some(OrientationDecision::Rotate90));
    // within the window the cached answer wins over a new tag
    let d = detector.detect_orientation(1200, Some(3), None);
    assert_eq!(d, Some(OrientationDecision::Rotate90));
    // after the window the new tag decides
    let d = detector.detect_orientation(2000, Some(3), None);
    assert_eq!(d, Some(OrientationDecision::Rotate180));
    // a tag that cannot settle alone asks the user
    let mut fresh = OrientationDetector::new();
    assert_eq!(fresh.detect_orientation(0, Some(2), None), None);
    assert_eq!(orientation_suffix(OrientationDecision::Rotate270), "_r270");
    assert_eq!(orientation_suffix(OrientationDecision::KeepOriginal), "");
}

#[test]
fn test_preview_names() {
    let renamer = PhotoRenamer::new();
    let date = civil(2024, 2, 14, 12, 34, 56);
    assert_eq!(renamer.preview_name(&date, None, "jpg"), "2024-02-14_12-34-56.jpg");
    assert_eq!(renamer.preview_name(&date, Some(2), "jpg"), "2024-02-14_12-34-56_burst002.jpg");
    assert_eq!(
        renamer.generate_filename("x/y.PNG", &date, OrientationDecision::Rotate180),
        "20240214_123456_r180.png"
    );
    assert_eq!(renamer.format_datetime(&date), "2024-02-14_12-34-56");
}

#[test]
fn test_preview_line() {
    let p = RenamePreview::new(
        "in/a.jpg".to_string(),
        "out/b.jpg".to_string(),
        Some(civil(2024, 2, 14, 12, 34, 56)),
        y4m2d2::preview::DateSource::Exif,
    );
    let line = p.display();
    assert!(line.contains("in/a.jpg -> out/b.jpg"));
    assert!(line.contains("2024-02-14 12:34:56"));
    assert!(line.contains("EXIF"));
    assert!(line.contains("成功"));

    let failed = RenamePreview::with_error(
        "in/a.jpg".to_string(),
        "out/b.jpg".to_string(),
        None,
        y4m2d2::preview::DateSource::CurrentTime,
        "読めません".to_string(),
    );
    let line = failed.display();
    assert!(line.contains("不明"));
    assert!(line.contains("エラー: 読めません"));
    assert_eq!(y4m2d2::preview::DateSource::Filename.to_string(), "ファイル名");
    assert_eq!(y4m2d2::preview::DateSource::Exif.color_code(), "\x1b[32m");
}

#[test]
fn test_prompt_choices() {
    let prompt = Prompt::new(Display::new());
    assert_eq!(prompt.parse_choice("2"), PromptChoice::Decision(RunDecision::Rotate90));
    assert_eq!(prompt.parse_choice("a"), PromptChoice::ApplyToAll);
    assert_eq!(prompt.parse_choice("x"), PromptChoice::Decision(RunDecision::Keep));
    assert_eq!(prompt.parse_final_choice("4"), RunDecision::Rotate270);
    assert_eq!(prompt.parse_final_choice("a"), RunDecision::Keep);
}

#[test]
fn test_display_counters() {
    let mut display = Display::new();
    display.set_total_files(4);
    display.update_progress("a.jpg");
    display.update_progress("b.jpg");
    assert_eq!(display.processed_files, 2);
    assert_eq!(display.total_files, 4);
    assert_eq!(display.current_file, "b.jpg");
}

#[test]
fn test_message_lookup() {
    let en = Language {
        code: "en".to_string(),
        name: "English".to_string(),
        messages: vec![("hello".to_string(), "Hello".to_string())],
    };
    let ja = Language {
        code: "ja".to_string(),
        name: "日本語".to_string(),
        messages: vec![("hello".to_string(), "こんにちは".to_string())],
    };
    let mut i18n = I18n::new(vec![en, ja], 0);
    assert_eq!(i18n.get_message("hello"), "Hello");
    i18n.set_language("ja");
    assert_eq!(i18n.get_message("hello"), "こんにちは");
    // an unknown language keeps the selection
    i18n.set_language("xx");
    assert_eq!(i18n.get_message("hello"), "こんにちは");
    // an unknown key falls back to itself
    assert_eq!(i18n.get_message("missing"), "missing");
    i18n.set_timezone(32400);
    assert_eq!(i18n.get_timezone(), 32400);
    assert_eq!(timezone_name_for_offset(32400), "Asia/Tokyo");
    assert_eq!(timezone_name_for_offset(12345), "UTC");
}

#[test]
fn test_error_context() {
    let e = PhotoRenamerError::FileOperation("no space".to_string());
    assert_eq!(e.message(), "ファイル操作エラー: no space");
    let r: Result<(), PhotoRenamerError> = Err(PhotoRenamerError::FileOperation(
        "denied".to_string(),
    ));
    match r.with_context("copy failed") {
        Err(PhotoRenamerError::FileOperation(m)) => assert_eq!(m, "copy failed: denied"),
        _ => panic!("context was not recorded"),
    }
    let other: Result<(), PhotoRenamerError> = Err(PhotoRenamerError::DateParseError(
        "bad".to_string(),
    ));
    match other.with_context("ignored") {
        Err(PhotoRenamerError::DateParseError(m)) => assert_eq!(m, "bad"),
        _ => panic!("context leaked into another variant"),
    }
}

#[test]
fn test_clock_yields_valid_date() {
    let (now, offset) = current_civil();
    assert!(valid_date_check(&now));
    assert!(-86400 < offset && offset < 86400);
}

#[test]
fn test_preview_file_target() {
    let renamer = PhotoRenamer::new();
    let date = civil(2025, 2, 14, 12, 34, 56);
    let p = renamer.preview_file(
        "in/IMG.JPG",
        "out",
        &date,
        y4m2d2::preview::DateSource::Exif,
        Some(3),
    );
    assert_eq!(p.original_path, "in/IMG.JPG");
    assert_eq!(p.new_path, "out/2025/02/14/2025-02-14_12-34-56_burst003.JPG");
    assert!(p.error.is_none());
}

#[test]
fn test_format_duration() {
    assert_eq!(y4m2d2::renamer::format_duration(5), "5秒");
    assert_eq!(y4m2d2::renamer::format_duration(65), "1分5秒");
    assert_eq!(y4m2d2::renamer::format_duration(3725), "1時間2分5秒");
}
