//! Tests of the rename pipeline's verified decisions: classification,
//! calendar conversions, name generation and collision handling, burst
//! grouping, the orientation tables, the move plan, and the run summary.

use y4m2d2::args::Args;
use y4m2d2::args::OrientationMode;
use y4m2d2::args::parse_orientation_mode;
use y4m2d2::burst::burst_intervals;
use y4m2d2::burst::burst_ordinal;
use y4m2d2::burst::make_burst_groups;
use y4m2d2::classify::extension_lower;
use y4m2d2::classify::is_image_path;
use y4m2d2::classify::to_ascii_lower;
use y4m2d2::dates::CivilDateTime;
use y4m2d2::dates::civil_from_epoch;
use y4m2d2::dates::epoch_seconds;
use y4m2d2::fsutil::DirectoryState;
use y4m2d2::fsutil::FileState;
use y4m2d2::fsutil::FileSystem;
use y4m2d2::media_orientation::OrientationDecision;
use y4m2d2::media_orientation::OrientationDetector;
use y4m2d2::mover::MoveAction;
use y4m2d2::mover::move_plan;
use y4m2d2::namegen::compact_timestamp;
use y4m2d2::namegen::dashed_timestamp;
use y4m2d2::namegen::unique_name;
use y4m2d2::processor::MediaProcessor;
use y4m2d2::processor::summarize;
use y4m2d2::progress::ProgressBar;
use y4m2d2::renamer::PhotoRenamer;

fn civil(year: u32, month: u32, day: u32, hour: u32, minute: u32, second: u32) -> CivilDateTime {
    CivilDateTime { year, month, day, hour, minute, second, nanosecond: 0 }
}

#[test]
fn test_orientation_decision() {
    assert_eq!(OrientationDecision::Keep.to_string(), "Keep");
    assert_eq!(OrientationDecision::Rotate90.to_string(), "Rotate90");
    assert_eq!(OrientationDecision::Rotate180.to_string(), "Rotate180");
    assert_eq!(OrientationDecision::Rotate270.to_string(), "Rotate270");
    assert_eq!(OrientationDecision::FlipHorizontal.to_string(), "FlipHorizontal");
    assert_eq!(OrientationDecision::FlipVertical.to_string(), "FlipVertical");
}

#[test]
fn test_is_media_file() {
    let fs = FileSystem::new();
    assert!(fs.is_media_file("test.jpg"));
    assert!(fs.is_media_file("test.jpeg"));
    assert!(fs.is_media_file("test.png"));
    assert!(fs.is_media_file("test.mp4"));
    assert!(fs.is_media_file("test.mov"));
    assert!(!fs.is_media_file("test.txt"));
    assert!(!fs.is_media_file("test.pdf"));
}

#[test]
fn test_is_image_file() {
    let fs = FileSystem::new();
    assert!(fs.is_image_file("test.jpg"));
    assert!(fs.is_image_file("test.jpeg"));
    assert!(fs.is_image_file("test.png"));
    assert!(!fs.is_image_file("test.mp4"));
    assert!(!fs.is_image_file("test.txt"));
}

#[test]
fn test_is_video_file() {
    let fs = FileSystem::new();
    assert!(fs.is_video_file("test.mp4"));
    assert!(fs.is_video_file("test.mov"));
    assert!(!fs.is_video_file("test.jpg"));
    assert!(!fs.is_video_file("test.txt"));
}

#[test]
fn test_find_all_media_files() {
    let fs = FileSystem::new();
    let entries = vec![
        "dir/test.txt".to_string(),
        "dir/test.mp4".to_string(),
        "dir/test.jpg".to_string(),
    ];
    let files = fs.find_all_media_files(&entries);
    assert_eq!(files.len(), 2);
    assert_eq!(files[0], "dir/test.jpg");
    assert_eq!(files[1], "dir/test.mp4");
}

#[test]
fn test_classification_edges() {
    assert!(is_image_path("photo.JPG"));
    assert!(is_image_path("a/b.c/photo.webp"));
    assert!(!is_image_path(".jpg"));
    assert!(!is_image_path("noextension"));
    assert!(!is_image_path(""));
    assert_eq!(extension_lower("shot.JPeG"), Some("jpeg".to_string()));
    assert_eq!(extension_lower("archive"), None);
    assert_eq!(to_ascii_lower("MiXeD123"), "mixed123");
}

#[test]
fn test_is_temp_file() {
    let fs = FileSystem::new();
    assert!(fs.is_temp_file("out/picture.tmp"));
    assert!(fs.is_temp_file("logs/photo_renamer_2024.log"));
    assert!(!fs.is_temp_file("out/picture.jpg"));
    assert!(!fs.is_temp_file("notes.log"));
}

#[test]
fn test_epoch_round_trip() {
    let c = civil(2024, 2, 14, 12, 34, 56);
    assert_eq!(epoch_seconds(&c), 1707914096);
    assert_eq!(civil_from_epoch(1707914096), Some(c));
    let leap = civil(2024, 2, 29, 0, 0, 0);
    let back = civil_from_epoch(epoch_seconds(&leap)).unwrap();
    assert_eq!(back, leap);
}

#[test]
fn test_timestamp_rendering() {
    let c = civil(2024, 2, 14, 12, 34, 56);
    assert_eq!(compact_timestamp(&c), "20240214_123456");
    assert_eq!(dashed_timestamp(&c), "2024-02-14_12-34-56");
    let with_millis = CivilDateTime { nanosecond: 120_000_000, ..c };
    assert_eq!(dashed_timestamp(&with_millis), "2024-02-14_12-34-56-120");
}

#[test]
fn test_unique_name_collision_counter() {
    let empty: Vec<String> = Vec::new();
    assert_eq!(unique_name("20240214_123456", "jpg", &empty), "20240214_123456.jpg");

    let mut existing: Vec<String> = Vec::new();
    existing.push("20240214_123456.jpg".to_string());
    assert_eq!(unique_name("20240214_123456", "jpg", &existing), "20240214_123456_1.jpg");

    existing.push("20240214_123456_1.jpg".to_string());
    assert_eq!(unique_name("20240214_123456", "jpg", &existing), "20240214_123456_2.jpg");
}

#[test]
fn test_generate_new_path() {
    let renamer = PhotoRenamer::new();
    let existing = vec!["20240214_123456.jpg".to_string()];
    let path = renamer.generate_new_path("out", "20240214_123456", "jpg", &existing);
    assert_eq!(path, "out/20240214_123456_1.jpg");
}

#[test]
fn test_burst_grouping() {
    // photos at T, T+1s, T+40s with a 5 s threshold: one two-member burst
    // and one photo on its own
    let t: i64 = 1577836800;
    let ts = vec![t, t + 1, t + 40];
    let intervals = burst_intervals(&ts, 5);
    assert_eq!(intervals, vec![(0, 2), (2, 3)]);
    assert_eq!(burst_ordinal(intervals[0], 0), 1);
    assert_eq!(burst_ordinal(intervals[0], 1), 2);

    let photos = vec!["a.jpg".to_string(), "b.jpg".to_string(), "c.jpg".to_string()];
    let groups = make_burst_groups("dir", &photos, &ts, 5);
    assert_eq!(groups.len(), 2);
    assert_eq!(groups[0].photos, vec!["a.jpg".to_string(), "b.jpg".to_string()]);
    assert_eq!(groups[1].photos, vec!["c.jpg".to_string()]);
    assert_eq!(groups[0].timestamp, t);
    assert_eq!(groups[0].folder_path, "dir");
}

#[test]
fn test_burst_edges() {
    let none: Vec<i64> = Vec::new();
    assert_eq!(burst_intervals(&none, 5).len(), 0);
    let equal = vec![10, 10, 10];
    assert_eq!(burst_intervals(&equal, 5), vec![(0, 3)]);
}

#[test]
fn test_orientation_mapping() {
    // EXIF orientation 6 in Auto mode turns into Rotate90 and the _r90
    // suffix; orientation 1 leaves no suffix
    let mut detector = OrientationDetector::new(OrientationMode::Auto);
    let processor = MediaProcessor::new(OrientationMode::Auto);
    let d6 = detector.detect_orientation(Some(6), None).unwrap();
    assert_eq!(d6, OrientationDecision::Rotate90);
    assert_eq!(processor.get_orientation_suffix(d6), "_r90");
    let d1 = detector.detect_orientation(Some(1), None).unwrap();
    assert_eq!(d1, OrientationDecision::Keep);
    assert_eq!(processor.get_orientation_suffix(d1), "");
}

#[test]
fn test_interactive_decision_is_cached() {
    let mut detector = OrientationDetector::new(OrientationMode::Interactive);
    assert!(detector.needs_interaction());
    assert_eq!(detector.detect_orientation(Some(6), None), None);
    assert_eq!(
        detector.detect_orientation(Some(6), Some(OrientationDecision::Rotate180)),
        Some(OrientationDecision::Rotate180)
    );
    // the first answer is reused, whatever the next tag says
    assert_eq!(detector.detect_orientation(Some(1), None), Some(OrientationDecision::Rotate180));
}

#[test]
fn test_needs_interaction() {
    let processor = MediaProcessor::new(OrientationMode::Interactive);
    assert!(processor.needs_interaction("a.jpg"));
    assert!(!processor.needs_interaction("a.mp4"));

    let keep = MediaProcessor::new(OrientationMode::Keep);
    assert!(!keep.needs_interaction("a.jpg"));

    let auto = MediaProcessor::new(OrientationMode::Auto);
    assert!(!auto.needs_interaction("a.jpg"));
}

#[test]
fn test_partition_for_processing() {
    let processor = MediaProcessor::new(OrientationMode::Interactive);
    let files = vec!["a.jpg".to_string(), "b.mp4".to_string(), "c.png".to_string()];
    let (interactive, parallel) = processor.separate_files_by_processing_type(&files);
    assert_eq!(interactive, vec!["a.jpg".to_string(), "c.png".to_string()]);
    assert_eq!(parallel, vec!["b.mp4".to_string()]);
}

#[test]
fn test_generate_filename() {
    let processor = MediaProcessor::new(OrientationMode::Keep);
    let date = civil(2024, 2, 14, 12, 34, 56);
    let name = processor.generate_filename("input/photo.JPG", &date, OrientationDecision::Rotate90);
    assert_eq!(name, "20240214_123456_r90.jpg");
    let target = processor.get_target_path("input/photo.JPG", Some("out"), name.as_str());
    assert_eq!(target, "out/20240214_123456_r90.jpg");
    let sibling = processor.get_target_path("input/photo.JPG", None, name.as_str());
    assert_eq!(sibling, "input/20240214_123456_r90.jpg");
}

#[test]
fn test_move_plan_shape() {
    // the rename is the last step and the only one that touches the
    // target name; the backup copy, when asked for, comes first
    let plain = move_plan(false);
    assert_eq!(
        plain,
        vec![
            MoveAction::CopyToTemp,
            MoveAction::SetTempPermissions,
            MoveAction::RenameTempToTarget,
        ]
    );
    let with_backup = move_plan(true);
    assert_eq!(with_backup.len(), 4);
    assert_eq!(with_backup[0], MoveAction::CopyToBackup);
    assert_eq!(with_backup[3], MoveAction::RenameTempToTarget);
    assert_eq!(
        with_backup.iter().filter(|a| **a == MoveAction::RenameTempToTarget).count(),
        1
    );
}

#[test]
fn test_partial_failure_isolation() {
    // five files, one with unreadable metadata: four successes and one
    // reported failure, not an abort
    let outcomes: Vec<Result<(String, String), (String, String)>> = vec![
        Ok(("a.jpg".to_string(), "out/1.jpg".to_string())),
        Ok(("b.jpg".to_string(), "out/2.jpg".to_string())),
        Err(("c.jpg".to_string(), "corrupted EXIF".to_string())),
        Ok(("d.jpg".to_string(), "out/3.jpg".to_string())),
        Ok(("e.jpg".to_string(), "out/4.jpg".to_string())),
    ];
    let summary = summarize(&outcomes);
    assert_eq!(summary.renamed, 4);
    assert_eq!(summary.failed, 1);

    let none: Vec<Result<(String, String), (String, String)>> = Vec::new();
    let empty = summarize(&none);
    assert_eq!(empty.renamed, 0);
    assert_eq!(empty.failed, 0);
}

#[test]
fn test_args_validation() {
    let mut args = Args {
        input_dir: None,
        output_dir: None,
        backup_dir: None,
        orientation_mode: OrientationMode::Keep,
        cleanup: false,
        parallel: false,
        timezone_offset_secs: 0,
        language: "en".to_string(),
    };
    assert_eq!(args.validate(), Err("Input directory is required".to_string()));
    args.input_dir = Some("in".to_string());
    assert_eq!(args.validate(), Err("Output directory is required".to_string()));
    args.output_dir = Some("out".to_string());
    assert!(args.validate().is_ok());
    args.cleanup = true;
    args.output_dir = None;
    assert_eq!(
        args.validate(),
        Err("Output directory is required for cleanup mode".to_string())
    );
}

#[test]
fn test_orientation_mode_tokens() {
    assert_eq!(parse_orientation_mode("auto"), OrientationMode::Auto);
    assert_eq!(parse_orientation_mode("skip"), OrientationMode::Skip);
    assert_eq!(parse_orientation_mode("interactive"), OrientationMode::Interactive);
    assert_eq!(parse_orientation_mode("anything"), OrientationMode::Interactive);
}

#[test]
fn test_progress_counters() {
    let mut bar = ProgressBar::new(3);
    assert_eq!(bar.current(), 0);
    assert_eq!(bar.total(), 3);
    bar.increment();
    bar.increment();
    assert_eq!(bar.current(), 2);
    bar.update(1);
    assert_eq!(bar.current(), 1);
}

#[test]
fn test_file_state_change_detection() {
    let a = FileState::new(100, 5000, 4000);
    let same = FileState::new(100, 5000, 9999);
    let grown = FileState::new(101, 5000, 4000);
    let touched = FileState::new(100, 5001, 4000);
    assert!(!a.has_changed(&same));
    assert!(a.has_changed(&grown));
    assert!(a.has_changed(&touched));
}

#[test]
fn test_directory_state_change_detection() {
    let files = vec![
        ("a.jpg".to_string(), FileState::new(1, 10, 10)),
        ("b.jpg".to_string(), FileState::new(2, 20, 20)),
    ];
    let base = DirectoryState::new(files.clone(), 7);
    let same = DirectoryState::new(files.clone(), 7);
    assert!(!base.has_changed(&same));

    let retimed = DirectoryState::new(files.clone(), 8);
    assert!(base.has_changed(&retimed));

    let missing = DirectoryState::new(
        vec![
            ("a.jpg".to_string(), FileState::new(1, 10, 10)),
            ("c.jpg".to_string(), FileState::new(2, 20, 20)),
        ],
        7,
    );
    assert!(base.has_changed(&missing));

    let rewritten = DirectoryState::new(
        vec![
            ("a.jpg".to_string(), FileState::new(1, 10, 10)),
            ("b.jpg".to_string(), FileState::new(3, 20, 20)),
        ],
        7,
    );
    assert!(base.has_changed(&rewritten));
}

#[test]
fn test_date_directory() {
    let date = civil(2025, 2, 14, 12, 34, 56);
    assert_eq!(y4m2d2::namegen::date_directory(&date), "2025/02/14");
}

#[test]
fn test_canonical_name() {
    let date = civil(2024, 2, 14, 12, 34, 56);
    assert_eq!(
        y4m2d2::namegen::generate_name(&date, "_r90", Some(7), "jpg"),
        "20240214_123456_r90_burst007.jpg"
    );
    let with_millis = CivilDateTime { nanosecond: 25_000_000, ..date };
    assert_eq!(
        y4m2d2::namegen::generate_name(&with_millis, "", None, "mov"),
        "20240214_123456_025.mov"
    );
}
