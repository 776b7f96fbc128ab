//! Tests of the destination resolver, the relocation state machine, the
//! sidecar rule and the error reporting.

use exifmv::config::{DeletionPolicy, RunConfig};
use exifmv::engine::{
    decide_relocation, resolve_sidecar, should_log, sidecar_candidates, RelocationAction,
    RelocationOutcome,
};
use exifmv::errors::{file_error_message, ErrorChain, FileError};
use exifmv::resolve::{destination_file, plan_move};
use exifmv::timestamp::{CaptureTimestamp, DayWrapOffset};

fn ts(year: u16, month: u8, day: u8, hour: u8, minute: u8, second: u8) -> CaptureTimestamp {
    CaptureTimestamp { year, month, day, hour, minute, second }
}

fn config(dry_run: bool, make_lowercase: bool, policy: DeletionPolicy) -> RunConfig {
    RunConfig {
        verbose: false,
        recursive: false,
        dry_run,
        make_lowercase,
        dereference_symlinks: false,
        halt_on_errors: false,
        policy,
        day_wrap: DayWrapOffset { hour: 0, minute: 0 },
    }
}

#[test]
fn test_destination_file_example() {
    let dest = destination_file(
        "photos",
        &ts(2019, 11, 22, 10, 0, 0),
        &DayWrapOffset { hour: 0, minute: 0 },
        true,
        "Foo1234.ARW",
    );
    assert_eq!(dest, "photos/2019/11/22/foo1234.arw");
}

#[test]
fn test_destination_file_keeps_case_without_fold() {
    let dest = destination_file(
        "photos",
        &ts(2019, 3, 4, 10, 0, 0),
        &DayWrapOffset { hour: 0, minute: 0 },
        false,
        "Foo1234.ARW",
    );
    assert_eq!(dest, "photos/2019/03/04/Foo1234.ARW");
}

#[test]
fn test_destination_day_wrap_advances_bucket() {
    let dest = destination_file(
        "out",
        &ts(2023, 8, 21, 23, 59, 0),
        &DayWrapOffset { hour: 0, minute: 1 },
        true,
        "a.jpg",
    );
    assert_eq!(dest, "out/2023/08/22/a.jpg");
    let dest = destination_file(
        "out",
        &ts(2023, 8, 21, 23, 59, 0),
        &DayWrapOffset { hour: 0, minute: 0 },
        true,
        "a.jpg",
    );
    assert_eq!(dest, "out/2023/08/21/a.jpg");
}

#[test]
fn test_plan_move_resolves_destination() {
    let plan = plan_move(
        "IMG.ARW",
        "dest",
        Ok(ts(2020, 1, 2, 3, 4, 5)),
        &config(false, true, DeletionPolicy::ReportOnly),
    )
    .unwrap();
    assert_eq!(plan.dest_dir, "dest/2020/01/02");
    assert_eq!(plan.dest_file, "dest/2020/01/02/img.arw");
    assert!(plan.create_dest_dir);
}

#[test]
fn test_plan_move_dry_run_skips_directory_creation() {
    let plan = plan_move(
        "IMG.ARW",
        "dest",
        Ok(ts(2020, 1, 2, 3, 4, 5)),
        &config(true, false, DeletionPolicy::ReportOnly),
    )
    .unwrap();
    assert!(!plan.create_dest_dir);
    assert_eq!(plan.dest_file, "dest/2020/01/02/IMG.ARW");
}

#[test]
fn test_plan_move_metadata_error_never_moves() {
    // A file without the original-capture timestamp field fails with the
    // metadata error and no plan is produced for it.
    let planned = plan_move(
        "IMG.ARW",
        "dest",
        Err(FileError::TimestampMissing),
        &config(false, false, DeletionPolicy::RemoveSource),
    );
    assert!(matches!(planned, Err(FileError::TimestampMissing)));
    let planned = plan_move(
        "IMG.ARW",
        "dest",
        Err(FileError::MetadataUnreadable),
        &config(false, false, DeletionPolicy::ReportOnly),
    );
    assert!(matches!(planned, Err(FileError::MetadataUnreadable)));
}

#[test]
fn test_decide_already_in_place() {
    let d = decide_relocation(
        "dest/2020/01/02/img.arw",
        "dest/2020/01/02/img.arw",
        true,
        10,
        10,
        DeletionPolicy::RemoveSource,
        false,
    );
    assert_eq!(d.outcome, RelocationOutcome::SkippedAlreadyInPlace);
    assert_eq!(d.action, RelocationAction::DoNothing);
}

#[test]
fn test_decide_moves_to_absent_destination() {
    let d = decide_relocation(
        "src/img.arw",
        "dest/2020/01/02/img.arw",
        false,
        10,
        0,
        DeletionPolicy::ReportOnly,
        false,
    );
    assert_eq!(d.outcome, RelocationOutcome::Moved);
    assert_eq!(d.action, RelocationAction::Rename);
    let dry = decide_relocation(
        "src/img.arw",
        "dest/2020/01/02/img.arw",
        false,
        10,
        0,
        DeletionPolicy::ReportOnly,
        true,
    );
    assert_eq!(dry.outcome, RelocationOutcome::Moved);
    assert_eq!(dry.action, RelocationAction::DoNothing);
}

#[test]
fn test_decide_second_run_is_idempotent() {
    // First run: the destination is absent and the file moves there.
    let first = decide_relocation(
        "src/IMG.ARW",
        "dest/2020/01/02/img.arw",
        false,
        10,
        0,
        DeletionPolicy::ReportOnly,
        false,
    );
    assert_eq!(first.outcome, RelocationOutcome::Moved);
    assert_eq!(first.action, RelocationAction::Rename);
    // Second run: the file sits at its own destination and is only skipped,
    // whatever the policy.
    let second = decide_relocation(
        "dest/2020/01/02/img.arw",
        "dest/2020/01/02/img.arw",
        true,
        10,
        10,
        DeletionPolicy::RemoveSource,
        false,
    );
    assert_eq!(second.outcome, RelocationOutcome::SkippedAlreadyInPlace);
    assert_eq!(second.action, RelocationAction::DoNothing);
}

#[test]
fn test_decide_duplicate_policies() {
    let remove = decide_relocation(
        "a.jpg",
        "d/a.jpg",
        true,
        77,
        77,
        DeletionPolicy::RemoveSource,
        false,
    );
    assert_eq!(remove.outcome, RelocationOutcome::DeletedDuplicate);
    assert_eq!(remove.action, RelocationAction::DeleteSource);
    let trash = decide_relocation(
        "a.jpg",
        "d/a.jpg",
        true,
        77,
        77,
        DeletionPolicy::TrashSource,
        false,
    );
    assert_eq!(trash.outcome, RelocationOutcome::DeletedDuplicate);
    assert_eq!(trash.action, RelocationAction::MoveToTrash);
    let report = decide_relocation(
        "a.jpg",
        "d/a.jpg",
        true,
        77,
        77,
        DeletionPolicy::ReportOnly,
        false,
    );
    assert_eq!(report.outcome, RelocationOutcome::SkippedDuplicateReported);
    assert_eq!(report.action, RelocationAction::DoNothing);
}

#[test]
fn test_decide_dry_run_never_mutates() {
    for policy in [
        DeletionPolicy::ReportOnly,
        DeletionPolicy::RemoveSource,
        DeletionPolicy::TrashSource,
    ] {
        for dest_exists in [false, true] {
            for dest_size in [77u64, 99u64] {
                let d = decide_relocation(
                    "a.jpg",
                    "d/a.jpg",
                    dest_exists,
                    77,
                    dest_size,
                    policy,
                    true,
                );
                assert_eq!(d.action, RelocationAction::DoNothing);
            }
        }
    }
}

#[test]
fn test_decide_equal_size_means_duplicate_regardless_of_content() {
    // Two different files of identical size at the same destination path are,
    // by documented design limitation, treated as duplicates: content is not
    // even an input to the decision, size equality is the only test.
    let d = decide_relocation(
        "src/one-content.jpg",
        "dest/other-content.jpg",
        true,
        4096,
        4096,
        DeletionPolicy::RemoveSource,
        false,
    );
    assert_eq!(d.outcome, RelocationOutcome::DeletedDuplicate);
    assert_eq!(d.action, RelocationAction::DeleteSource);
}

#[test]
fn test_decide_different_size_skips() {
    let d = decide_relocation(
        "a.jpg",
        "d/a.jpg",
        true,
        77,
        78,
        DeletionPolicy::RemoveSource,
        false,
    );
    assert_eq!(d.outcome, RelocationOutcome::SkippedExistsDifferentSize);
    assert_eq!(d.action, RelocationAction::DoNothing);
}

#[test]
fn test_should_log() {
    assert!(!should_log(&RelocationOutcome::Moved, false, false));
    assert!(should_log(&RelocationOutcome::Moved, true, false));
    assert!(should_log(&RelocationOutcome::Moved, false, true));
    assert!(should_log(&RelocationOutcome::SkippedAlreadyInPlace, true, false));
    assert!(!should_log(&RelocationOutcome::SkippedAlreadyInPlace, false, false));
    assert!(should_log(&RelocationOutcome::SkippedExistsDifferentSize, false, true));
    assert!(!should_log(&RelocationOutcome::DeletedDuplicate, true, false));
    assert!(should_log(&RelocationOutcome::DeletedDuplicate, false, true));
}

#[test]
fn test_sidecar_candidates() {
    let (lower, upper) = sidecar_candidates("a/IMG.ARW");
    assert_eq!(lower, "a/IMG.ARW.xmp");
    assert_eq!(upper, "a/IMG.ARW.XMP");
}

#[test]
fn test_sidecar_lowercase_match() {
    let pair = resolve_sidecar("a/IMG.ARW", "d/2020/01/02/img.arw", true, false, true, false);
    let (src, dst) = pair.unwrap();
    assert_eq!(src, "a/IMG.ARW.xmp");
    // Same destination bucket as the primary, same folding decision.
    assert_eq!(dst, "d/2020/01/02/img.arw.xmp");
}

#[test]
fn test_sidecar_lowercase_tried_first() {
    // Both casings present: the lowercase one wins.
    let pair = resolve_sidecar("a/IMG.ARW", "d/img.arw", true, true, false, false);
    let (src, _) = pair.unwrap();
    assert_eq!(src, "a/IMG.ARW.xmp");
}

#[test]
fn test_sidecar_uppercase_match_keeps_case() {
    let pair = resolve_sidecar("a/IMG.ARW", "d/IMG.ARW", false, true, false, false);
    let (src, dst) = pair.unwrap();
    assert_eq!(src, "a/IMG.ARW.XMP");
    assert_eq!(dst, "d/IMG.ARW.XMP");
}

#[test]
fn test_sidecar_uppercase_match_folded() {
    let pair = resolve_sidecar("a/IMG.ARW", "d/img.arw", false, true, true, false);
    let (src, dst) = pair.unwrap();
    assert_eq!(src, "a/IMG.ARW.XMP");
    assert_eq!(dst, "d/img.arw.xmp");
}

#[test]
fn test_sidecar_absent() {
    assert!(resolve_sidecar("a/IMG.ARW", "d/img.arw", false, false, true, false).is_none());
}

#[test]
fn test_sidecar_untouched_after_primary_failure() {
    // Even with a sidecar present, a failed primary relocation leaves it be.
    assert!(resolve_sidecar("a/IMG.ARW", "d/img.arw", true, true, true, true).is_none());
}

#[test]
fn test_file_error_messages() {
    assert_eq!(
        file_error_message(&FileError::Unopenable, "a/b.arw", ""),
        "Unable to open 'a/b.arw'."
    );
    assert_eq!(
        file_error_message(&FileError::MetadataUnreadable, "a/b.arw", ""),
        "Unable to read EXIF metadata of 'a/b.arw'."
    );
    assert_eq!(
        file_error_message(&FileError::TimestampMissing, "a/b.arw", ""),
        "Timestamp metadata missing in 'a/b.arw'."
    );
    assert_eq!(
        file_error_message(&FileError::SizeUnreadable, "a/b.arw", ""),
        "Unable to read size of 'a/b.arw'."
    );
    assert_eq!(
        file_error_message(&FileError::CreateDirFailed, "", "d/2020"),
        "Unable to create destination folder 'd/2020'."
    );
    assert_eq!(
        file_error_message(&FileError::RenameFailed, "a/b.arw", "d/b.arw"),
        "Unable to move a/b.arw to d/b.arw."
    );
    assert_eq!(
        file_error_message(&FileError::RemoveFailed, "a/b.arw", ""),
        "Failed to remove a/b.arw."
    );
    assert_eq!(
        file_error_message(&FileError::TrashFailed, "a/b.arw", ""),
        "Failed to remove a/b.arw."
    );
}

#[test]
fn test_error_chain_renders_top_to_bottom() {
    let mut chain = ErrorChain::new(String::from("Unable to move a to b."));
    chain.push_cause(String::from("Permission denied (os error 13)"));
    chain.push_cause(String::from("while renaming"));
    let lines = chain.render_lines();
    assert_eq!(lines.len(), 3);
    assert_eq!(lines[0], "Unable to move a to b.");
    assert_eq!(lines[1], "Permission denied (os error 13)");
    assert_eq!(lines[2], "while renaming");
}
