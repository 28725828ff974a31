//! The copy stage of a backup: what is said and logged for each file, and
//! the totals at the end. Copying itself is left to the caller, who hands
//! back how each file fared. A file that cannot be copied is reported and
//! the run goes on with the next.

use vstd::prelude::*;

use crate::error::{BackupError, BackupFailure};
use crate::feedback::{
    error,
    feedback_models,
    info,
    optional_text,
    push_feedback,
    push_text,
    text_models,
    Feedback,
    FeedbackModel,
};
use crate::manifest::capped;
use crate::text::{align_right, duration_text, padded_left, size_text, Elapsed, HumanReadable};

verus! {

/// The folder on the destination volume that holds all backups.
pub const BACKUP_FOLDER: &'static str = "BlackoutBackup";

/// The name of the log of the backup made at `timestamp`; it lies beside the
/// backup's folder, which is named `timestamp`.
pub open spec fn log_name(timestamp: Seq<char>) -> Seq<char> {
    timestamp + ".log"@
}

/// Where a backup lies on its volume, each place as the names that lead to
/// it from the volume's mount point.
#[derive(Debug, PartialEq, Eq)]
pub struct BackupLayout {
    /// The folder that the files are copied beneath.
    pub folder: Vec<String>,
    /// The backup's log.
    pub log: Vec<String>,
}

/// The folder of the backup made at `timestamp` on the volume mounted at
/// `destination`: the folder of all backups, then one named by the time.
pub open spec fn folder_path(destination: Seq<char>, timestamp: Seq<char>) -> Seq<Seq<char>> {
    seq![destination, BACKUP_FOLDER@, timestamp]
}

/// The log of the backup made at `timestamp`: it lies beside the backup's
/// folder.
pub open spec fn log_path(destination: Seq<char>, timestamp: Seq<char>) -> Seq<Seq<char>> {
    seq![destination, BACKUP_FOLDER@, log_name(timestamp)]
}

/// Where the backup made at `timestamp` lies on the volume mounted at
/// `destination`.
pub fn backup_layout(destination: &str, timestamp: &str) -> (layout: BackupLayout)
    ensures
        text_models(layout.folder@) == folder_path(destination@, timestamp@),
        text_models(layout.log@) == log_path(destination@, timestamp@),
{
    let mut log_file = String::from_str(timestamp);
    log_file.append(".log");
    let mut folder: Vec<String> = Vec::new();
    push_text(&mut folder, String::from_str(destination));
    push_text(&mut folder, String::from_str(BACKUP_FOLDER));
    push_text(&mut folder, String::from_str(timestamp));
    let mut log: Vec<String> = Vec::new();
    push_text(&mut log, String::from_str(destination));
    push_text(&mut log, String::from_str(BACKUP_FOLDER));
    push_text(&mut log, log_file);
    BackupLayout { folder, log }
}

/// How the copy of one file fared.
#[derive(Debug, PartialEq, Eq)]
pub struct FileAttempt {
    /// The file's path at the source.
    pub path: String,
    pub size: u64,
    /// Why the folder for the copy could not be made, if it could not.
    pub dir_error: Option<String>,
    /// Why the file could not be copied, if it could not.
    pub copy_error: Option<String>,
}

/// A `FileAttempt` as contracts see it, together with the file's path
/// beneath the backup's folder: the path at the source without the volume it
/// is on.
pub struct AttemptModel {
    pub path: Seq<char>,
    pub size: nat,
    pub relative: Seq<char>,
    pub dir_error: Option<Seq<char>>,
    pub copy_error: Option<Seq<char>>,
}

impl FileAttempt {
    /// The attempt as contracts see it, for a file that lies at `relative`
    /// beneath the backup's folder.
    pub open spec fn placed(&self, relative: Seq<char>) -> AttemptModel {
        AttemptModel {
            path: self.path@,
            size: self.size as nat,
            relative,
            dir_error: optional_text(self.dir_error),
            copy_error: optional_text(self.copy_error),
        }
    }
}

/// The attempts of a list as contracts see them, each with its path beneath
/// the backup's folder.
pub open spec fn attempt_models(
    attempts: Seq<FileAttempt>,
    relatives: Seq<Seq<char>>,
) -> Seq<AttemptModel> {
    Seq::new(attempts.len(), |i: int| attempts[i].placed(relatives[i]))
}

/// `std::path::Path::ancestors`: the path, then its parent, then the parent
/// of that and so on. The path itself always comes first. How a path falls
/// into parents is the platform's business, so nothing is claimed of the
/// others.
#[verifier::external_body]
fn path_ancestors(path: &str) -> (ancestors: Vec<String>)
    ensures
        ancestors@.len() >= 1,
        ancestors@[0]@ == path@,
{
    std::path::Path::new(path).ancestors().map(|a| a.to_string_lossy().into_owned()).collect()
}

/// `std::path::Path::strip_prefix`: what is left of `path` behind `base`, or
/// `None` if `path` does not begin with `base`. Nothing is claimed of either.
#[verifier::external_body]
fn path_behind(path: &str, base: &str) -> (rest: Option<String>) {
    std::path::Path::new(path).strip_prefix(base).ok().map(|r| r.to_string_lossy().into_owned())
}

/// The path without the volume it is on: what is left of it behind the last
/// of its ancestors. That ancestor is the root of the volume; for a path
/// that names no volume it is empty, and the path stays as it is.
fn path_beneath_volume(path: &str) -> (relative: String) {
    let ancestors = path_ancestors(path);
    let volume = &ancestors[ancestors.len() - 1];
    match path_behind(path, volume.as_str()) {
        Some(rest) => rest,
        None => String::from_str(path),
    }
}

/// The line that says a file is about to be copied.
pub open spec fn announcement(path: Seq<char>) -> Seq<char> {
    "Copying "@ + path + " ..."@
}

/// The log line of a copied file: its size in a field of ten characters,
/// then its path beneath the backup's folder.
pub open spec fn file_line(size: nat, relative: Seq<char>) -> Seq<char> {
    padded_left(size_text(size), 10, ' ') + " | "@ + relative
}

/// At most one line, at level `Error`.
pub open spec fn error_lines(reason: Option<Seq<char>>) -> Seq<FeedbackModel> {
    match reason {
        Some(reason) => seq![error(reason)],
        None => Seq::empty(),
    }
}

impl AttemptModel {
    /// The file arrived at the destination.
    pub open spec fn succeeded(self) -> bool {
        self.copy_error is None
    }

    /// What is said once the copy was tried: the errors, if there were any.
    pub open spec fn errors(self) -> Seq<FeedbackModel> {
        error_lines(self.dir_error) + error_lines(self.copy_error)
    }

    /// All that is said of the file: that it is being copied, then the
    /// errors.
    pub open spec fn feedback(self) -> Seq<FeedbackModel> {
        seq![info(announcement(self.path))] + self.errors()
    }

    /// What the backup's log gets: a line for a file that was copied, nothing
    /// for one that was not.
    pub open spec fn log(self) -> Seq<Seq<char>> {
        if self.succeeded() {
            seq![file_line(self.size, self.relative)]
        } else {
            Seq::empty()
        }
    }

    /// The bytes the file adds to those written.
    pub open spec fn bytes(self) -> nat {
        if self.succeeded() {
            self.size
        } else {
            0
        }
    }
}

/// The bytes of the files that were copied.
pub open spec fn written(attempts: Seq<AttemptModel>) -> nat
    decreases attempts.len(),
{
    if attempts.len() == 0 {
        0
    } else {
        written(attempts.drop_last()) + attempts.last().bytes()
    }
}

/// All that is said of the files, in their order.
pub open spec fn files_feedback(attempts: Seq<AttemptModel>) -> Seq<FeedbackModel>
    decreases attempts.len(),
{
    if attempts.len() == 0 {
        Seq::empty()
    } else {
        files_feedback(attempts.drop_last()) + attempts.last().feedback()
    }
}

/// The log lines of the files, in their order.
pub open spec fn files_log(attempts: Seq<AttemptModel>) -> Seq<Seq<char>>
    decreases attempts.len(),
{
    if attempts.len() == 0 {
        Seq::empty()
    } else {
        files_log(attempts.drop_last()) + attempts.last().log()
    }
}

/// The head of the backup's log: the manifest's checksum and an empty line.
pub open spec fn header(checksum: Seq<char>) -> Seq<Seq<char>> {
    seq!["Sources checksum: "@ + checksum, Seq::empty()]
}

/// The line that sets the bytes written against the bytes of the manifest.
pub open spec fn written_line(written: nat, total: nat) -> Seq<char> {
    "Written: "@ + size_text(written) + " / "@ + size_text(total)
}

/// The line that says how long the copy stage took.
pub open spec fn elapsed_line(elapsed: Elapsed) -> Seq<char> {
    "Time elapsed: "@ + duration_text(elapsed.seconds as nat, elapsed.milliseconds as nat)
}

/// What is said at the end of the copy stage.
pub open spec fn summary_feedback(written: nat, total: nat, elapsed: Elapsed) -> Seq<
    FeedbackModel,
> {
    seq![info(written_line(written, total)), info(elapsed_line(elapsed))]
}

/// The end of the backup's log: the two summary lines, an empty line before
/// each.
pub open spec fn summary_log(written: nat, total: nat, elapsed: Elapsed) -> Seq<Seq<char>> {
    seq![Seq::empty(), written_line(written, total), Seq::empty(), elapsed_line(elapsed)]
}

/// The line that says a file is about to be copied.
pub fn announce(path: &str) -> (line: Feedback)
    ensures
        line@ == info(announcement(path@)),
{
    let mut text = String::from_str("Copying ");
    text.append(path);
    text.append(" ...");
    Feedback::info(text)
}

/// What is known of a file before it is copied.
#[derive(Debug, PartialEq, Eq)]
pub struct FileStart {
    /// The line that says the file is about to be copied.
    pub announcement: Feedback,
    /// Where the copy goes, beneath the backup's folder: the file's path
    /// without the volume it is on.
    pub relative: String,
}

/// Opens the copy of the file at `path`: the line that announces it, and
/// where beneath the backup's folder the copy goes.
pub fn begin_file(path: &str) -> (start: FileStart)
    ensures
        start.announcement@ == info(announcement(path@)),
{
    FileStart { announcement: announce(path), relative: path_beneath_volume(path) }
}

/// What one file adds to the console and to the backup's log.
#[derive(Debug, PartialEq, Eq)]
pub struct FileReport {
    /// The file's path beneath the backup's folder, as the log shows it.
    pub relative: String,
    pub feedback: Vec<Feedback>,
    pub log: Vec<String>,
}

/// What the end of the copy stage adds to the console and to the backup's
/// log.
#[derive(Debug, PartialEq, Eq)]
pub struct Summary {
    pub feedback: Vec<Feedback>,
    pub log: Vec<String>,
}

/// A copy stage under way: the bytes written so far, and the bytes of the
/// manifest.
#[derive(Debug)]
pub struct CopyRun {
    written: u64,
    total_size: u64,
}

impl CopyRun {
    /// The bytes of the files copied so far; the largest `u64` if they are
    /// more.
    pub closed spec fn written(&self) -> u64 {
        self.written
    }

    /// The bytes of the manifest.
    pub closed spec fn total_size(&self) -> u64 {
        self.total_size
    }

    /// Opens the copy stage. `destination` says whether the backup's folder
    /// and log could be made; if not, the stage fails with the reason. The
    /// lines returned open the backup's log.
    pub fn start(destination: Result<(), String>, checksum: &str, total_size: u64) -> (result:
        Result<(CopyRun, Vec<String>), BackupError>)
        ensures
            match destination {
                Ok(_) => result matches Ok((run, log)) && run.written() == 0 && run.total_size()
                    == total_size && text_models(log@) == header(checksum@),
                Err(reason) => result matches Err(failure) && failure@
                    == BackupFailure::DestinationUnwritable(reason@),
            },
    {
        match destination {
            Ok(_) => {
                let mut first = String::from_str("Sources checksum: ");
                first.append(checksum);
                let mut log: Vec<String> = Vec::new();
                push_text(&mut log, first);
                push_text(&mut log, String::new());
                Ok((CopyRun { written: 0, total_size }, log))
            },
            Err(reason) => Err(BackupError::DestinationUnwritable(reason)),
        }
    }

    /// The bytes of the files copied so far.
    pub fn bytes_written(&self) -> (written: u64)
        ensures
            written == self.written(),
    {
        self.written
    }

    /// Takes how the copy of one file fared: its errors are to be shown, and
    /// a file that was copied gets its line in the log, with its path
    /// beneath the backup's folder, and counts among the bytes written.
    /// Whatever happened, the run goes on.
    pub fn record(&mut self, attempt: &FileAttempt) -> (report: FileReport)
        ensures
            feedback_models(report.feedback@) == attempt.placed(report.relative@).errors(),
            text_models(report.log@) == attempt.placed(report.relative@).log(),
            final(self).written() == capped(
                old(self).written() as nat + attempt.placed(report.relative@).bytes(),
            ),
            final(self).total_size() == old(self).total_size(),
    {
        let relative = path_beneath_volume(attempt.path.as_str());
        let mut feedback: Vec<Feedback> = Vec::new();
        let mut log: Vec<String> = Vec::new();
        match &attempt.dir_error {
            Some(reason) => {
                push_feedback(&mut feedback, Feedback::error(reason.clone()));
            },
            None => {},
        }
        match &attempt.copy_error {
            Some(reason) => {
                push_feedback(&mut feedback, Feedback::error(reason.clone()));
            },
            None => {
                let size = attempt.size.human_readable();
                let mut line = align_right(size.as_str(), 10);
                line.append(" | ");
                line.append(relative.as_str());
                push_text(&mut log, line);
                self.written = self.written.saturating_add(attempt.size);
            },
        }
        FileReport { relative, feedback, log }
    }

    /// Closes the copy stage after `elapsed`: the two summary lines, for the
    /// console and for the backup's log.
    pub fn finish(&self, elapsed: Elapsed) -> (summary: Summary)
        ensures
            feedback_models(summary.feedback@) == summary_feedback(
                self.written() as nat,
                self.total_size() as nat,
                elapsed,
            ),
            text_models(summary.log@) == summary_log(
                self.written() as nat,
                self.total_size() as nat,
                elapsed,
            ),
    {
        let mut written_text = String::from_str("Written: ");
        let size = self.written.human_readable();
        written_text.append(size.as_str());
        written_text.append(" / ");
        let size = self.total_size.human_readable();
        written_text.append(size.as_str());
        let mut elapsed_text = String::from_str("Time elapsed: ");
        let time = elapsed.human_readable();
        elapsed_text.append(time.as_str());

        let mut feedback: Vec<Feedback> = Vec::new();
        let mut log: Vec<String> = Vec::new();
        push_text(&mut log, String::new());
        push_text(&mut log, written_text.clone());
        push_text(&mut log, String::new());
        push_text(&mut log, elapsed_text.clone());
        push_feedback(&mut feedback, Feedback::info(written_text));
        push_feedback(&mut feedback, Feedback::info(elapsed_text));
        Summary { feedback, log }
    }
}

/// What a whole copy stage says and logs, and the bytes it wrote.
#[derive(Debug, PartialEq, Eq)]
pub struct CopyReport {
    /// The path of each file beneath the backup's folder.
    pub relatives: Vec<String>,
    pub feedback: Vec<Feedback>,
    pub log: Vec<String>,
    pub written: u64,
}

/// All that a copy stage says: of each file in its turn, then the summary.
pub open spec fn run_feedback(attempts: Seq<AttemptModel>, total: nat, elapsed: Elapsed) -> Seq<
    FeedbackModel,
> {
    files_feedback(attempts) + summary_feedback(
        capped(written(attempts)) as nat,
        total,
        elapsed,
    )
}

/// The backup's log of a copy stage: the head, a line for each file that
/// was copied, then the summary.
pub open spec fn run_log(
    checksum: Seq<char>,
    attempts: Seq<AttemptModel>,
    total: nat,
    elapsed: Elapsed,
) -> Seq<Seq<char>> {
    header(checksum) + files_log(attempts) + summary_log(
        capped(written(attempts)) as nat,
        total,
        elapsed,
    )
}

/// A file that cannot be copied stops nothing: whatever became of the files,
/// each of them is announced in its turn, each that was copied has its line
/// in the log, and the summary closes both the console and the log.
pub proof fn lemma_failures_stop_nothing(
    checksum: Seq<char>,
    attempts: Seq<AttemptModel>,
    total: nat,
    elapsed: Elapsed,
)
    ensures
        forall|i: int|
            0 <= i < attempts.len() ==> run_feedback(attempts, total, elapsed).contains(
                info(announcement((#[trigger] attempts[i]).path)),
            ),
        forall|i: int|
            0 <= i < attempts.len() && (#[trigger] attempts[i]).succeeded() ==> run_log(
                checksum,
                attempts,
                total,
                elapsed,
            ).contains(file_line(attempts[i].size, attempts[i].relative)),
        run_feedback(attempts, total, elapsed).len() >= 2,
        run_feedback(attempts, total, elapsed).subrange(
            run_feedback(attempts, total, elapsed).len() - 2,
            run_feedback(attempts, total, elapsed).len() as int,
        ) == summary_feedback(capped(written(attempts)) as nat, total, elapsed),
        run_log(checksum, attempts, total, elapsed).len() >= 4,
        run_log(checksum, attempts, total, elapsed).subrange(
            run_log(checksum, attempts, total, elapsed).len() - 4,
            run_log(checksum, attempts, total, elapsed).len() as int,
        ) == summary_log(capped(written(attempts)) as nat, total, elapsed),
{
    let said = run_feedback(attempts, total, elapsed);
    let logged = run_log(checksum, attempts, total, elapsed);
    lemma_files_are_told(attempts);
    assert forall|i: int| 0 <= i < attempts.len() implies said.contains(
        info(announcement((#[trigger] attempts[i]).path)),
    ) by {
        let line = info(announcement(attempts[i].path));
        let at = choose|at: int| 0 <= at < files_feedback(attempts).len() && files_feedback(
            attempts,
        )[at] == line;
        assert(said[at] == line);
    }
    assert forall|i: int| 0 <= i < attempts.len() && (#[trigger] attempts[i]).succeeded() implies
        logged.contains(file_line(attempts[i].size, attempts[i].relative)) by {
        let line = file_line(attempts[i].size, attempts[i].relative);
        let at = choose|at: int| 0 <= at < files_log(attempts).len() && files_log(attempts)[at]
            == line;
        assert(logged[at + 2] == line);
    }
}

/// The sizes of the files added up.
pub open spec fn sizes(attempts: Seq<AttemptModel>) -> nat
    decreases attempts.len(),
{
    if attempts.len() == 0 {
        0
    } else {
        sizes(attempts.drop_last()) + attempts.last().size
    }
}

/// When every file was copied, the log is the head with the checksum, then
/// one line for each file in the order of the files, its size and its path
/// beneath the backup's folder, then the summary; and the bytes written are
/// the sizes of the files added up.
pub proof fn lemma_all_copied(
    checksum: Seq<char>,
    attempts: Seq<AttemptModel>,
    total: nat,
    elapsed: Elapsed,
)
    requires
        forall|i: int| 0 <= i < attempts.len() ==> (#[trigger] attempts[i]).succeeded(),
    ensures
        files_log(attempts) == Seq::new(
            attempts.len(),
            |i: int| file_line(attempts[i].size, attempts[i].relative),
        ),
        written(attempts) == sizes(attempts),
        run_log(checksum, attempts, total, elapsed) == header(checksum) + Seq::new(
            attempts.len(),
            |i: int| file_line(attempts[i].size, attempts[i].relative),
        ) + summary_log(capped(sizes(attempts)) as nat, total, elapsed),
        run_log(checksum, attempts, total, elapsed)[0] == "Sources checksum: "@ + checksum,
    decreases attempts.len(),
{
    if attempts.len() > 0 {
        let front = attempts.drop_last();
        assert forall|i: int| 0 <= i < front.len() implies (#[trigger] front[i]).succeeded() by {
            assert(front[i] == attempts[i]);
        }
        lemma_all_copied(checksum, front, total, elapsed);
        assert(attempts.last() == attempts[attempts.len() - 1]);
        assert(files_log(attempts) =~= Seq::new(
            attempts.len(),
            |i: int| file_line(attempts[i].size, attempts[i].relative),
        ));
    } else {
        assert(files_log(attempts) =~= Seq::new(
            attempts.len(),
            |i: int| file_line(attempts[i].size, attempts[i].relative),
        ));
    }
}

/// Each file is announced, and each file that was copied has its log line.
proof fn lemma_files_are_told(attempts: Seq<AttemptModel>)
    ensures
        forall|i: int|
            0 <= i < attempts.len() ==> files_feedback(attempts).contains(
                info(announcement((#[trigger] attempts[i]).path)),
            ),
        forall|i: int|
            0 <= i < attempts.len() && (#[trigger] attempts[i]).succeeded() ==> files_log(
                attempts,
            ).contains(file_line(attempts[i].size, attempts[i].relative)),
    decreases attempts.len(),
{
    if attempts.len() > 0 {
        let front = attempts.drop_last();
        let last = attempts.last();
        lemma_files_are_told(front);
        assert forall|i: int| 0 <= i < attempts.len() implies files_feedback(attempts).contains(
            info(announcement((#[trigger] attempts[i]).path)),
        ) by {
            let line = info(announcement(attempts[i].path));
            if i < front.len() {
                assert(front[i] == attempts[i]);
                let at = choose|at: int| 0 <= at < files_feedback(front).len() && files_feedback(
                    front,
                )[at] == line;
                assert(files_feedback(attempts)[at] == line);
            } else {
                assert(last.feedback()[0] == line);
                assert(files_feedback(attempts)[files_feedback(front).len() as int] == line);
            }
        }
        assert forall|i: int|
            0 <= i < attempts.len() && (#[trigger] attempts[i]).succeeded() implies files_log(
            attempts,
        ).contains(file_line(attempts[i].size, attempts[i].relative)) by {
            let line = file_line(attempts[i].size, attempts[i].relative);
            if i < front.len() {
                assert(front[i] == attempts[i]);
                let at = choose|at: int| 0 <= at < files_log(front).len() && files_log(front)[at]
                    == line;
                assert(files_log(attempts)[at] == line);
            } else {
                assert(last.log()[0] == line);
                assert(files_log(attempts)[files_log(front).len() as int] == line);
            }
        }
    }
}

/// A whole copy stage at once, for files whose copies are all done: what
/// `CopyRun` gives when it starts, records each file in its turn and
/// finishes after `elapsed`. Each file is logged with the path beneath the
/// backup's folder that the report names for it.
pub fn copy_files(
    destination: Result<(), String>,
    files: &Vec<FileAttempt>,
    checksum: &str,
    total_size: u64,
    elapsed: Elapsed,
) -> (result: Result<CopyReport, BackupError>)
    ensures
        match destination {
            Ok(_) => result matches Ok(report) && report.relatives@.len() == files@.len()
                && feedback_models(report.feedback@) == run_feedback(
                attempt_models(files@, text_models(report.relatives@)),
                total_size as nat,
                elapsed,
            ) && text_models(report.log@) == run_log(
                checksum@,
                attempt_models(files@, text_models(report.relatives@)),
                total_size as nat,
                elapsed,
            ) && report.written == capped(
                written(attempt_models(files@, text_models(report.relatives@))),
            ),
            Err(reason) => result matches Err(failure) && failure@
                == BackupFailure::DestinationUnwritable(reason@),
        },
{
    let (mut run, mut log) = match CopyRun::start(destination, checksum, total_size) {
        Ok(started) => started,
        Err(failure) => {
            return Err(failure);
        },
    };
    let mut feedback: Vec<Feedback> = Vec::new();
    let mut relatives: Vec<String> = Vec::new();
    let count: usize = files.len();
    let mut index: usize = 0;
    while index < count
        invariant
            count == files@.len(),
            index <= count,
            relatives@.len() == index,
            run.total_size() == total_size,
            run.written() == capped(
                written(
                    attempt_models(files@.subrange(0, index as int), text_models(relatives@)),
                ),
            ),
            feedback_models(feedback@) == files_feedback(
                attempt_models(files@.subrange(0, index as int), text_models(relatives@)),
            ),
            text_models(log@) == header(checksum@) + files_log(
                attempt_models(files@.subrange(0, index as int), text_models(relatives@)),
            ),
        decreases count - index,
    {
        let attempt = &files[index];
        push_feedback(&mut feedback, announce(attempt.path.as_str()));
        let mut report = run.record(attempt);
        let ghost so_far = attempt_models(
            files@.subrange(0, index as int),
            text_models(relatives@),
        );
        let ghost said = feedback@;
        let ghost logged = log@;
        feedback.append(&mut report.feedback);
        log.append(&mut report.log);
        let ghost relative = report.relative@;
        push_text(&mut relatives, report.relative);
        assert(text_models(relatives@).len() == relatives@.len());
        let ghost further = attempt_models(
            files@.subrange(0, index + 1),
            text_models(relatives@),
        );
        assert(further.drop_last() == so_far);
        assert(further.last() == attempt.placed(relative));
        assert(feedback_models(feedback@) == feedback_models(said) + further.last().errors());
        assert(text_models(log@) == text_models(logged) + further.last().log());
        index += 1;
    }
    assert(files@.subrange(0, count as int) == files@);
    let mut summary = run.finish(elapsed);
    feedback.append(&mut summary.feedback);
    log.append(&mut summary.log);
    Ok(CopyReport { relatives, feedback, log, written: run.bytes_written() })
}

} // verus!
