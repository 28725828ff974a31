//! The backup pipeline: which stage follows which, what the user is told
//! and which sound is played. The stages themselves are run by the caller,
//! who hands back what came of each.

use vstd::prelude::*;

use crate::audio::SoundCue;
use crate::destination::{mount_models, Mount, MountModel};
use crate::error::{BackupError, BackupFailure};
use crate::feedback::{
    error,
    feedback_models,
    info,
    push_feedback,
    Feedback,
    FeedbackModel,
};
use crate::text::{size_text, HumanReadable};

verus! {

/// Seconds between two heartbeat sounds while a backup runs.
pub const HEARTBEAT_SECONDS: u64 = 1;

/// Seconds the console stays open after the last line.
pub const LINGER_SECONDS: u64 = 5;

/// What came of a stage.
#[derive(Debug, PartialEq, Eq)]
pub enum BackupEvent {
    /// The run begins.
    Started,
    /// The manifest was resolved into `files` files of `total_size` bytes.
    Resolved { files: usize, total_size: u64 },
    /// These volumes have room for the `required` bytes.
    Mounts { mounts: Vec<Mount>, required: u64 },
    /// The copy stage is through.
    Copied,
    /// The manifest could not be resolved, or the copy stage could not begin.
    Failed(BackupError),
}

/// A `BackupEvent` as contracts see it.
pub enum EventModel {
    Started,
    Resolved { files: nat, total_size: nat },
    Mounts { mounts: Seq<MountModel>, required: nat },
    Copied,
    Failed(BackupFailure),
}

impl View for BackupEvent {
    type V = EventModel;

    open spec fn view(&self) -> EventModel {
        match self {
            BackupEvent::Started => EventModel::Started,
            BackupEvent::Resolved { files, total_size } => EventModel::Resolved {
                files: *files as nat,
                total_size: *total_size as nat,
            },
            BackupEvent::Mounts { mounts, required } => EventModel::Mounts {
                mounts: mount_models(mounts@),
                required: *required as nat,
            },
            BackupEvent::Copied => EventModel::Copied,
            BackupEvent::Failed(failure) => EventModel::Failed(failure@),
        }
    }
}

/// The stage to run next.
#[derive(Debug, PartialEq, Eq)]
pub enum BackupStage {
    /// Start the heartbeat, which sounds every `HEARTBEAT_SECONDS` until the
    /// run concludes, then read the manifest and resolve it.
    Resolve,
    /// Look for the volumes that have room for `required` bytes.
    Select { required: u64 },
    /// Copy the files to the volume mounted at `destination`.
    Copy { destination: String },
    /// Stop the heartbeat, show the line that `finished` gives, keep the
    /// console open for `LINGER_SECONDS` and close it.
    Conclude,
}

/// A `BackupStage` as contracts see it.
pub enum StageModel {
    Resolve,
    Select { required: nat },
    Copy { destination: Seq<char> },
    Conclude,
}

impl View for BackupStage {
    type V = StageModel;

    open spec fn view(&self) -> StageModel {
        match self {
            BackupStage::Resolve => StageModel::Resolve,
            BackupStage::Select { required } => StageModel::Select { required: *required as nat },
            BackupStage::Copy { destination } => StageModel::Copy { destination: destination@ },
            BackupStage::Conclude => StageModel::Conclude,
        }
    }
}

/// What to do after an event: the lines to show and log, the sound to play
/// and the stage to run.
#[derive(Debug, PartialEq, Eq)]
pub struct BackupDirective {
    pub feedback: Vec<Feedback>,
    pub cue: Option<SoundCue>,
    pub next: BackupStage,
}

/// A `BackupDirective` as contracts see it.
pub struct DirectiveModel {
    pub feedback: Seq<FeedbackModel>,
    pub cue: Option<SoundCue>,
    pub next: StageModel,
}

impl View for BackupDirective {
    type V = DirectiveModel;

    open spec fn view(&self) -> DirectiveModel {
        DirectiveModel {
            feedback: feedback_models(self.feedback@),
            cue: self.cue,
            next: self.next@,
        }
    }
}

/// The line that says where the backup goes.
pub open spec fn destination_line(mount: MountModel, required: nat) -> Seq<char> {
    "Found "@ + mount.mount_point + " as suitable destination drive. Available space: "@
        + size_text(mount.available_space) + ". Required space "@ + size_text(required)
        + ". Started copying files..."@
}

/// The last line of every run.
pub open spec fn finished_line() -> FeedbackModel {
    info("Backup finished."@)
}

/// The last line of every run, shown once the heartbeat has stopped.
pub fn finished() -> (line: Feedback)
    ensures
        line@ == finished_line(),
{
    Feedback::info(String::from_str("Backup finished."))
}

/// The pipeline. After a manifest that resolved, with however many files,
/// a destination is looked for. The backup goes to the first volume with
/// room; without one the run fails. A failure is told and ends the run with
/// the error sound; the success sound is for a copy stage that ran through,
/// whatever became of single files. So a run ends with exactly one of the
/// two sounds.
pub open spec fn directive_for(event: EventModel) -> DirectiveModel {
    match event {
        EventModel::Started => DirectiveModel {
            feedback: seq![info("Parsing sources..."@)],
            cue: None,
            next: StageModel::Resolve,
        },
        EventModel::Resolved { files, total_size } => DirectiveModel {
            feedback: Seq::empty(),
            cue: None,
            next: StageModel::Select { required: total_size },
        },
        EventModel::Mounts { mounts, required } => if mounts.len() == 0 {
            DirectiveModel {
                feedback: seq![error(BackupFailure::NoSuitableDestination(required).message())],
                cue: Some(SoundCue::Error),
                next: StageModel::Conclude,
            }
        } else {
            DirectiveModel {
                feedback: seq![info(destination_line(mounts[0], required))],
                cue: None,
                next: StageModel::Copy { destination: mounts[0].mount_point },
            }
        },
        EventModel::Copied => DirectiveModel {
            feedback: Seq::empty(),
            cue: Some(SoundCue::Success),
            next: StageModel::Conclude,
        },
        EventModel::Failed(failure) => DirectiveModel {
            feedback: seq![error(failure.message())],
            cue: Some(SoundCue::Error),
            next: StageModel::Conclude,
        },
    }
}

/// The line that tells of a failure.
fn failure_lines(failure: &BackupError) -> (lines: Vec<Feedback>)
    ensures
        feedback_models(lines@) == seq![error(failure@.message())],
{
    let mut lines: Vec<Feedback> = Vec::new();
    push_feedback(&mut lines, Feedback::error(failure.message()));
    lines
}

/// The last directive of a whole run: the stages are run as the directives
/// ask for them, each with what came of the stage before. `resolution` is
/// the number of files and their total size, or why the manifest did not
/// resolve; `mounts` are the volumes with room for that size; `copy` says
/// whether the copy stage could begin.
pub open spec fn run_end(
    resolution: Result<(nat, nat), BackupFailure>,
    mounts: Seq<MountModel>,
    copy: Result<(), BackupFailure>,
) -> DirectiveModel {
    match resolution {
        Err(failure) => directive_for(EventModel::Failed(failure)),
        Ok((files, total_size)) => {
            let selected = directive_for(EventModel::Mounts { mounts, required: total_size });
            if selected.next is Copy {
                match copy {
                    Ok(_) => directive_for(EventModel::Copied),
                    Err(failure) => directive_for(EventModel::Failed(failure)),
                }
            } else {
                selected
            }
        },
    }
}

/// A run ends with exactly one sound. It is the success sound exactly when
/// the manifest resolved, a volume with room was found and the copy stage
/// could begin; it is the error sound otherwise. After a manifest that
/// resolved, a destination is always looked for, and the copy goes to the
/// first volume with room.
pub proof fn lemma_run_ends_with_one_sound(
    resolution: Result<(nat, nat), BackupFailure>,
    mounts: Seq<MountModel>,
    copy: Result<(), BackupFailure>,
)
    ensures
        directive_for(EventModel::Started).next == StageModel::Resolve,
        resolution matches Ok((files, total_size)) ==> directive_for(
            EventModel::Resolved { files, total_size },
        ).next == (StageModel::Select { required: total_size }),
        resolution matches Ok((files, total_size)) ==> mounts.len() > 0 ==> directive_for(
            EventModel::Mounts { mounts, required: total_size },
        ).next == (StageModel::Copy { destination: mounts[0].mount_point }),
        run_end(resolution, mounts, copy).next == StageModel::Conclude,
        run_end(resolution, mounts, copy).cue == Some(SoundCue::Success) <==> resolution is Ok
            && mounts.len() > 0 && copy is Ok,
        run_end(resolution, mounts, copy).cue == Some(SoundCue::Success) || run_end(
            resolution,
            mounts,
            copy,
        ).cue == Some(SoundCue::Error),
{
}

/// One decision of the pipeline: from what came of a stage to what is done
/// next. A sound is asked for exactly when the run concludes, and it is the
/// success sound only after a copy stage; a destination is looked for after
/// every manifest that resolved, and a copy stage is asked for only when a
/// volume with room was found.
pub fn backup_main(event: BackupEvent) -> (directive: BackupDirective)
    ensures
        directive@ == directive_for(event@),
        directive.cue == Some(SoundCue::Success) <==> event is Copied,
        directive.cue is Some <==> directive.next is Conclude,
        directive.cue is Some ==> directive.cue == Some(SoundCue::Success) || directive.cue
            == Some(SoundCue::Error),
        directive.next is Select <==> event is Resolved,
        directive.next is Copy <==> (event matches BackupEvent::Mounts { mounts, .. }
            && mounts@.len() > 0),
{
    let mut feedback: Vec<Feedback> = Vec::new();
    assert(feedback_models(feedback@) == Seq::<FeedbackModel>::empty());
    match event {
        BackupEvent::Started => {
            push_feedback(&mut feedback, Feedback::info(String::from_str("Parsing sources...")));
            BackupDirective { feedback, cue: None, next: BackupStage::Resolve }
        },
        BackupEvent::Resolved { files, total_size } => BackupDirective {
            feedback,
            cue: None,
            next: BackupStage::Select { required: total_size },
        },
        BackupEvent::Mounts { mounts, required } => {
            if mounts.len() == 0 {
                let failure = BackupError::NoSuitableDestination(required);
                BackupDirective {
                    feedback: failure_lines(&failure),
                    cue: Some(SoundCue::Error),
                    next: BackupStage::Conclude,
                }
            } else {
                let mount = &mounts[0];
                let mut text = String::from_str("Found ");
                text.append(mount.mount_point.as_str());
                text.append(" as suitable destination drive. Available space: ");
                let size = mount.available_space.human_readable();
                text.append(size.as_str());
                text.append(". Required space ");
                let size = required.human_readable();
                text.append(size.as_str());
                text.append(". Started copying files...");
                push_feedback(&mut feedback, Feedback::info(text));
                BackupDirective {
                    feedback,
                    cue: None,
                    next: BackupStage::Copy { destination: mount.mount_point.clone() },
                }
            }
        },
        BackupEvent::Copied => BackupDirective {
            feedback,
            cue: Some(SoundCue::Success),
            next: BackupStage::Conclude,
        },
        BackupEvent::Failed(failure) => BackupDirective {
            feedback: failure_lines(&failure),
            cue: Some(SoundCue::Error),
            next: BackupStage::Conclude,
        },
    }
}

} // verus!
