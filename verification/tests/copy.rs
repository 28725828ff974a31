use blackout::copy::{
    announce, backup_layout, begin_file, copy_files, CopyRun, FileAttempt, BACKUP_FOLDER,
};
use blackout::error::BackupError;
use blackout::feedback::Feedback;
use blackout::logger::LogLevel;
use blackout::text::Elapsed;
use std::path::Path;

fn copied(path: &str, size: u64) -> FileAttempt {
    FileAttempt { path: path.to_string(), size, dir_error: None, copy_error: None }
}

fn failed(path: &str, size: u64, reason: &str) -> FileAttempt {
    FileAttempt { path: path.to_string(), size, dir_error: None, copy_error: Some(reason.to_string()) }
}

fn info(text: &str) -> Feedback {
    Feedback { level: LogLevel::Info, text: text.to_string() }
}

fn error(text: &str) -> Feedback {
    Feedback { level: LogLevel::Error, text: text.to_string() }
}

const NO_TIME: Elapsed = Elapsed { seconds: 0, milliseconds: 0 };

#[test]
fn a_backup_lies_in_a_folder_named_by_the_time_with_its_log_beside() {
    assert_eq!(BACKUP_FOLDER, "BlackoutBackup");
    let layout = backup_layout("E:\\", "20240131_235959");
    assert_eq!(layout.folder, vec!["E:\\", "BlackoutBackup", "20240131_235959"]);
    assert_eq!(layout.log, vec!["E:\\", "BlackoutBackup", "20240131_235959.log"]);
}

#[test]
fn a_file_is_announced_before_it_is_copied() {
    assert_eq!(announce("C:\\docs\\a.txt"), info("Copying C:\\docs\\a.txt ..."));
    assert_eq!(begin_file("/docs/a.txt").announcement, info("Copying /docs/a.txt ..."));
}

#[test]
fn a_copy_goes_where_the_file_was_without_its_volume() {
    assert_eq!(begin_file("/docs/a.txt").relative, "docs/a.txt");
    assert_eq!(begin_file("/a.txt").relative, "a.txt");
    assert_eq!(begin_file("/d/e/f/").relative, "d/e/f");
}

#[test]
fn a_path_that_names_no_volume_stays_as_it_is() {
    assert_eq!(begin_file("docs/a.txt").relative, "docs/a.txt");
    assert_eq!(begin_file("a.txt").relative, "a.txt");
}

#[test]
fn the_path_beneath_the_folder_is_what_the_platform_leaves_behind_the_root() {
    for path in ["/docs/a.txt", "docs/a.txt", "/", "", "/a/../b", "C:\\docs\\a.txt", "\\\\server\\share\\a"] {
        let whole = Path::new(path);
        let expected = whole.strip_prefix(whole.ancestors().last().unwrap()).unwrap();
        assert_eq!(begin_file(path).relative, expected.to_string_lossy(), "for {:?}", path);
    }
}

#[test]
fn an_unwritable_destination_fails_the_stage() {
    let result = CopyRun::start(Err("Access is denied. (os error 5)".to_string()), "abc", 30);
    assert_eq!(
        result.unwrap_err(),
        BackupError::DestinationUnwritable("Access is denied. (os error 5)".to_string())
    );
    let result = copy_files(Err("disk full".to_string()), &vec![copied("/a", 1)], "abc", 1, NO_TIME);
    assert_eq!(result.unwrap_err(), BackupError::DestinationUnwritable("disk full".to_string()));
}

#[test]
fn the_log_opens_with_the_checksum() {
    let (run, log) = CopyRun::start(Ok(()), "d41d8cd98f00b204e9800998ecf8427e", 30).unwrap();
    assert_eq!(log, vec!["Sources checksum: d41d8cd98f00b204e9800998ecf8427e".to_string(), String::new()]);
    assert_eq!(run.bytes_written(), 0);
}

#[test]
fn a_copied_file_is_logged_and_counted() {
    let (mut run, _) = CopyRun::start(Ok(()), "abc", 30).unwrap();
    let report = run.record(&copied("/docs/a.txt", 10));
    assert!(report.feedback.is_empty());
    assert_eq!(report.relative, "docs/a.txt");
    assert_eq!(report.log, vec!["  10 bytes | docs/a.txt".to_string()]);
    assert_eq!(run.bytes_written(), 10);
    let report = run.record(&copied("/big", 5 * 1024 * 1024));
    assert_eq!(report.log, vec!["   5.00 MB | big".to_string()]);
    assert_eq!(run.bytes_written(), 10 + 5 * 1024 * 1024);
}

#[test]
fn a_file_that_was_not_copied_is_reported_and_not_counted() {
    let (mut run, _) = CopyRun::start(Ok(()), "abc", 30).unwrap();
    let report = run.record(&FileAttempt {
        path: "/a".to_string(),
        size: 10,
        dir_error: Some("cannot make folder".to_string()),
        copy_error: Some("cannot copy".to_string()),
    });
    assert_eq!(report.feedback, vec![error("cannot make folder"), error("cannot copy")]);
    assert!(report.log.is_empty());
    assert_eq!(run.bytes_written(), 0);
}

#[test]
fn a_file_copied_in_spite_of_a_folder_error_counts() {
    let (mut run, _) = CopyRun::start(Ok(()), "abc", 30).unwrap();
    let report = run.record(&FileAttempt {
        path: "/a".to_string(),
        size: 10,
        dir_error: Some("cannot make folder".to_string()),
        copy_error: None,
    });
    assert_eq!(report.feedback, vec![error("cannot make folder")]);
    assert_eq!(report.log, vec!["  10 bytes | a".to_string()]);
    assert_eq!(run.bytes_written(), 10);
}

#[test]
fn the_bytes_written_stay_at_the_largest_number() {
    let (mut run, _) = CopyRun::start(Ok(()), "abc", u64::MAX).unwrap();
    run.record(&copied("/a", u64::MAX - 1));
    run.record(&copied("/b", 2));
    assert_eq!(run.bytes_written(), u64::MAX);
}

#[test]
fn the_summary_sets_written_against_total() {
    let (mut run, _) = CopyRun::start(Ok(()), "abc", 30).unwrap();
    run.record(&copied("/a", 10));
    run.record(&failed("/b", 20, "gone"));
    let summary = run.finish(Elapsed { seconds: 3725, milliseconds: 42 });
    assert_eq!(
        summary.feedback,
        vec![info("Written: 10 bytes / 30 bytes"), info("Time elapsed: 01h02m:05s::042")]
    );
    assert_eq!(
        summary.log,
        vec![
            String::new(),
            "Written: 10 bytes / 30 bytes".to_string(),
            String::new(),
            "Time elapsed: 01h02m:05s::042".to_string(),
        ]
    );
}

#[test]
fn a_whole_stage_reports_each_file_and_the_summary() {
    let files = vec![copied("/a.txt", 10), copied("/d/b.txt", 20)];
    let report = copy_files(Ok(()), &files, "0123", 30, Elapsed { seconds: 1, milliseconds: 5 }).unwrap();
    assert_eq!(report.relatives, vec!["a.txt", "d/b.txt"]);
    assert_eq!(
        report.feedback,
        vec![
            info("Copying /a.txt ..."),
            info("Copying /d/b.txt ..."),
            info("Written: 30 bytes / 30 bytes"),
            info("Time elapsed: 00h00m:01s::005"),
        ]
    );
    assert_eq!(
        report.log,
        vec![
            "Sources checksum: 0123".to_string(),
            String::new(),
            "  10 bytes | a.txt".to_string(),
            "  20 bytes | d/b.txt".to_string(),
            String::new(),
            "Written: 30 bytes / 30 bytes".to_string(),
            String::new(),
            "Time elapsed: 00h00m:01s::005".to_string(),
        ]
    );
    assert_eq!(report.written, 30);
}

#[test]
fn a_failure_in_the_middle_stops_nothing() {
    let files = vec![
        copied("/a", 1),
        failed("/b", 2, "Permission denied (os error 13)"),
        copied("/c", 4),
    ];
    let report = copy_files(Ok(()), &files, "0123", 7, NO_TIME).unwrap();
    assert_eq!(
        report.feedback,
        vec![
            info("Copying /a ..."),
            info("Copying /b ..."),
            error("Permission denied (os error 13)"),
            info("Copying /c ..."),
            info("Written: 5 bytes / 7 bytes"),
            info("Time elapsed: 00h00m:00s::000"),
        ]
    );
    assert_eq!(
        report.log,
        vec![
            "Sources checksum: 0123".to_string(),
            String::new(),
            "   1 bytes | a".to_string(),
            "   4 bytes | c".to_string(),
            String::new(),
            "Written: 5 bytes / 7 bytes".to_string(),
            String::new(),
            "Time elapsed: 00h00m:00s::000".to_string(),
        ]
    );
    assert_eq!(report.relatives, vec!["a", "b", "c"]);
    assert_eq!(report.written, 5);
}

#[test]
fn a_stage_without_files_has_only_head_and_summary() {
    let report = copy_files(Ok(()), &vec![], "0123", 0, NO_TIME).unwrap();
    assert_eq!(report.feedback.len(), 2);
    assert_eq!(report.log.len(), 6);
    assert!(report.relatives.is_empty());
    assert_eq!(report.written, 0);
}

#[test]
fn the_stage_at_once_is_the_stage_step_by_step() {
    let files = vec![copied("/a", 1500), failed("/b", 2, "no"), copied("/c", 4)];
    let elapsed = Elapsed { seconds: 61, milliseconds: 1 };
    let at_once = copy_files(Ok(()), &files, "sum", 1506, elapsed).unwrap();
    let (mut run, mut log) = CopyRun::start(Ok(()), "sum", 1506).unwrap();
    let mut feedback = vec![];
    let mut relatives = vec![];
    for file in &files {
        let start = begin_file(&file.path);
        feedback.push(start.announcement);
        let report = run.record(file);
        assert_eq!(report.relative, start.relative);
        relatives.push(report.relative);
        feedback.extend(report.feedback);
        log.extend(report.log);
    }
    let summary = run.finish(elapsed);
    feedback.extend(summary.feedback);
    log.extend(summary.log);
    assert_eq!(at_once.feedback, feedback);
    assert_eq!(at_once.log, log);
    assert_eq!(at_once.relatives, relatives);
    assert_eq!(at_once.written, run.bytes_written());
}
