//! Installation progress.
//!
//! Installation steps report events; a tracker folds them into the progress
//! that is shown for a profile.

use vstd::prelude::*;

use crate::text;

verus! {

/// A stage of an installation.
#[derive(Debug, Clone, Copy, PartialEq, Eq, Structural)]
pub enum InstallStage {
    /// Version metadata is resolved.
    ResolveVersion,
    /// Libraries are downloaded.
    DownloadLibraries,
    /// Assets are downloaded.
    DownloadAssets,
    /// The Java runtime is installed.
    InstallRuntime,
    /// Native libraries are extracted.
    ExtractNatives,
    /// The loader is installed.
    LoaderInstall,
    /// The installation is verified.
    Verify,
}

/// Why a download was not needed.
#[derive(Debug, Clone, Copy, PartialEq, Eq, Structural)]
pub enum SkipReason {
    /// The file is there with the checksum it should have.
    ChecksumMatched,
    /// The file is there and no checksum is given.
    FileExistsWithoutChecksum,
}

/// What an installation reports.
#[derive(Debug, Clone, PartialEq, Eq)]
pub enum ProgressEvent {
    /// A stage began.
    StageStarted {
        /// The stage.
        stage: InstallStage,
    },
    /// A batch of downloads began.
    PlanStarted {
        /// How many tasks it has.
        total_tasks: u64,
    },
    /// A download began.
    TaskStarted {
        /// What is downloaded.
        label: String,
        /// Where to.
        path: String,
    },
    /// A download was not needed.
    TaskSkipped {
        /// What would have been downloaded.
        label: String,
        /// Why not.
        reason: SkipReason,
    },
    /// A download ended.
    TaskFinished {
        /// What was downloaded.
        label: String,
    },
    /// Part of a download arrived.
    BytesReceived {
        /// What is downloaded.
        label: String,
        /// Bytes received so far.
        received: u64,
        /// Bytes in all, where the server says so.
        total: Option<u64>,
    },
}

/// The name that is shown for a stage.
pub open spec fn stage_label(stage: InstallStage) -> Seq<char> {
    match stage {
        InstallStage::ResolveVersion => "Resolving version metadata"@,
        InstallStage::DownloadLibraries => "Downloading libraries"@,
        InstallStage::DownloadAssets => "Downloading assets"@,
        InstallStage::InstallRuntime => "Installing Java runtime"@,
        InstallStage::ExtractNatives => "Extracting native libraries"@,
        InstallStage::LoaderInstall => "Installing loader"@,
        InstallStage::Verify => "Verifying installation"@,
    }
}

/// The name that is shown for a stage.
pub fn install_stage_label(stage: &InstallStage) -> (r: &'static str)
    ensures
        r@ == stage_label(*stage),
{
    match stage {
        InstallStage::ResolveVersion => "Resolving version metadata",
        InstallStage::DownloadLibraries => "Downloading libraries",
        InstallStage::DownloadAssets => "Downloading assets",
        InstallStage::InstallRuntime => "Installing Java runtime",
        InstallStage::ExtractNatives => "Extracting native libraries",
        InstallStage::LoaderInstall => "Installing loader",
        InstallStage::Verify => "Verifying installation",
    }
}

/// The progress of one profile's preparation.
#[derive(Debug, Clone, PartialEq, Eq)]
pub struct LaunchProgress {
    /// The profile.
    pub profile_id: String,
    /// The stage that is shown.
    pub stage: String,
    /// Tasks of the batch that have ended.
    pub completed_tasks: u64,
    /// Tasks of the batch, where a batch runs.
    pub total_tasks: Option<u64>,
    /// The task that was last reported.
    pub current_task: Option<String>,
    /// Bytes of the task received so far.
    pub bytes_received: u64,
    /// Bytes of the task, where they are known.
    pub total_bytes: Option<u64>,
}

/// Progress as plain values.
pub struct ProgressView {
    pub profile_id: Seq<char>,
    pub stage: Seq<char>,
    pub completed_tasks: u64,
    pub total_tasks: Option<u64>,
    pub current_task: Option<Seq<char>>,
    pub bytes_received: u64,
    pub total_bytes: Option<u64>,
}

impl View for LaunchProgress {
    type V = ProgressView;

    open spec fn view(&self) -> ProgressView {
        ProgressView {
            profile_id: self.profile_id@,
            stage: self.stage@,
            completed_tasks: self.completed_tasks,
            total_tasks: self.total_tasks,
            current_task: text::opt_text(self.current_task),
            bytes_received: self.bytes_received,
            total_bytes: self.total_bytes,
        }
    }
}

/// One more, up to the largest number.
pub open spec fn saturating_next(n: u64) -> u64 {
    if n < u64::MAX {
        (n + 1) as u64
    } else {
        n
    }
}

/// The progress after an event.
pub open spec fn advanced(p: ProgressView, event: ProgressEvent) -> ProgressView {
    match event {
        ProgressEvent::StageStarted { stage } => ProgressView {
            stage: stage_label(stage),
            completed_tasks: 0,
            total_tasks: None,
            bytes_received: 0,
            total_bytes: None,
            ..p
        },
        ProgressEvent::PlanStarted { total_tasks } => ProgressView {
            completed_tasks: 0,
            total_tasks: Some(total_tasks),
            current_task: None,
            bytes_received: 0,
            total_bytes: None,
            ..p
        },
        ProgressEvent::TaskStarted { label, .. } => ProgressView {
            current_task: Some(label@),
            bytes_received: 0,
            total_bytes: None,
            ..p
        },
        ProgressEvent::TaskSkipped { label, .. } => ProgressView {
            completed_tasks: saturating_next(p.completed_tasks),
            current_task: Some(label@),
            bytes_received: 0,
            total_bytes: None,
            ..p
        },
        ProgressEvent::TaskFinished { label } => ProgressView {
            completed_tasks: saturating_next(p.completed_tasks),
            current_task: Some(label@),
            bytes_received: match p.total_bytes {
                Some(total) => total,
                None => p.bytes_received,
            },
            ..p
        },
        ProgressEvent::BytesReceived { label, received, total } => ProgressView {
            current_task: Some(label@),
            bytes_received: received,
            total_bytes: total,
            ..p
        },
    }
}

/// Folds installation events into the progress of a profile.
#[derive(Debug)]
pub struct ProgressTracker {
    progress: LaunchProgress,
}

impl View for ProgressTracker {
    type V = ProgressView;

    closed spec fn view(&self) -> ProgressView {
        self.progress@
    }
}

impl ProgressTracker {
    /// The progress before the first event.
    pub fn new(profile_id: String) -> (r: Self)
        ensures
            r@ == (ProgressView {
                profile_id: profile_id@,
                stage: "Preparing installation"@,
                completed_tasks: 0,
                total_tasks: None,
                current_task: None,
                bytes_received: 0,
                total_bytes: None,
            }),
    {
        ProgressTracker {
            progress: LaunchProgress {
                profile_id,
                stage: "Preparing installation".to_owned(),
                completed_tasks: 0,
                total_tasks: None,
                current_task: None,
                bytes_received: 0,
                total_bytes: None,
            },
        }
    }

    /// Takes in an event, and gives the progress to show.
    pub fn report(&mut self, event: ProgressEvent) -> (r: LaunchProgress)
        ensures
            final(self)@ == advanced(old(self)@, event),
            r@ == final(self)@,
    {
        match event {
            ProgressEvent::StageStarted { stage } => {
                self.progress.stage = install_stage_label(&stage).to_owned();
                self.progress.completed_tasks = 0;
                self.progress.total_tasks = None;
                self.progress.bytes_received = 0;
                self.progress.total_bytes = None;
            },
            ProgressEvent::PlanStarted { total_tasks } => {
                self.progress.total_tasks = Some(total_tasks);
                self.progress.completed_tasks = 0;
                self.progress.current_task = None;
                self.progress.bytes_received = 0;
                self.progress.total_bytes = None;
            },
            ProgressEvent::TaskStarted { label, path: _ } => {
                self.progress.current_task = Some(label);
                self.progress.bytes_received = 0;
                self.progress.total_bytes = None;
            },
            ProgressEvent::TaskSkipped { label, reason: _ } => {
                self.progress.completed_tasks = self.progress.completed_tasks.saturating_add(1);
                self.progress.current_task = Some(label);
                self.progress.bytes_received = 0;
                self.progress.total_bytes = None;
            },
            ProgressEvent::TaskFinished { label } => {
                self.progress.completed_tasks = self.progress.completed_tasks.saturating_add(1);
                self.progress.current_task = Some(label);
                if let Some(total) = self.progress.total_bytes {
                    self.progress.bytes_received = total;
                }
            },
            ProgressEvent::BytesReceived { label, received, total } => {
                self.progress.current_task = Some(label);
                self.progress.bytes_received = received;
                self.progress.total_bytes = total;
            },
        }
        self.current()
    }

    /// The progress to show.
    pub fn current(&self) -> (r: LaunchProgress)
        ensures
            r@ == self@,
    {
        LaunchProgress {
            profile_id: self.progress.profile_id.clone(),
            stage: self.progress.stage.clone(),
            completed_tasks: self.progress.completed_tasks,
            total_tasks: self.progress.total_tasks,
            current_task: match &self.progress.current_task {
                Some(label) => Some(label.clone()),
                None => None,
            },
            bytes_received: self.progress.bytes_received,
            total_bytes: self.progress.total_bytes,
        }
    }
}

/// Progress of a step that gives no totals.
pub fn indeterminate_progress(profile_id: &str, stage: String) -> (r: LaunchProgress)
    ensures
        r@ == (ProgressView {
            profile_id: profile_id@,
            stage: stage@,
            completed_tasks: 0,
            total_tasks: None,
            current_task: None,
            bytes_received: 0,
            total_bytes: None,
        }),
{
    LaunchProgress {
        profile_id: profile_id.to_owned(),
        stage,
        completed_tasks: 0,
        total_tasks: None,
        current_task: None,
        bytes_received: 0,
        total_bytes: None,
    }
}

/// The progress after a series of events.
pub open spec fn advanced_by(p: ProgressView, events: Seq<ProgressEvent>) -> ProgressView
    decreases events.len(),
{
    if events.len() == 0 {
        p
    } else {
        advanced(advanced_by(p, events.drop_last()), events.last())
    }
}

/// Whether an event ends a task.
pub open spec fn ends_task(event: ProgressEvent) -> bool {
    event is TaskSkipped || event is TaskFinished
}

/// How many events end a task.
pub open spec fn ended_tasks(events: Seq<ProgressEvent>) -> nat
    decreases events.len(),
{
    if events.len() == 0 {
        0
    } else {
        ended_tasks(events.drop_last()) + if ends_task(events.last()) {
            1nat
        } else {
            0nat
        }
    }
}

/// Whether the events come from within one batch.
pub open spec fn within_batch(events: Seq<ProgressEvent>) -> bool {
    forall|i: int|
        0 <= i < events.len() ==> !(#[trigger] events[i] is StageStarted) && !(
        events[i] is PlanStarted)
}

/// A batch is counted exactly: once it began, the total is the one announced and
/// the completed tasks are those that were skipped or finished since.
pub proof fn law_batch_is_counted(p: ProgressView, total_tasks: u64, events: Seq<ProgressEvent>)
    requires
        within_batch(events),
        ended_tasks(events) <= u64::MAX,
    ensures
        ({
            let after = advanced_by(
                advanced(p, ProgressEvent::PlanStarted { total_tasks }),
                events,
            );
            &&& after.total_tasks == Some(total_tasks)
            &&& after.completed_tasks == ended_tasks(events)
            &&& after.stage == p.stage
            &&& after.profile_id == p.profile_id
        }),
    decreases events.len(),
{
    if events.len() > 0 {
        let front = events.drop_last();
        assert forall|i: int| 0 <= i < front.len() implies !(#[trigger] front[i] is StageStarted)
            && !(front[i] is PlanStarted) by {
            assert(front[i] == events[i]);
        }
        law_batch_is_counted(p, total_tasks, front);
        assert(events[events.len() - 1] == events.last());
    }
}

/// A finished task whose size is known shows as received in full.
pub proof fn law_finished_task_is_complete(p: ProgressView, label: String)
    ensures
        p.total_bytes matches Some(total) ==> advanced(
            p,
            ProgressEvent::TaskFinished { label },
        ).bytes_received == total,
{
}

/// What every event shows: it leaves the profile as it is; a task is shown by its
/// label with the bytes received for it; a new stage or batch counts from nothing, and
/// only a stage changes what the stage is called.
pub proof fn law_event_is_shown(p: ProgressView, event: ProgressEvent)
    ensures
        advanced(p, event).profile_id == p.profile_id,
        !(event is StageStarted) ==> advanced(p, event).stage == p.stage,
        event is StageStarted || event is PlanStarted ==> advanced(p, event).completed_tasks == 0
            && advanced(p, event).bytes_received == 0 && advanced(p, event).total_bytes is None,
        event is StageStarted ==> advanced(p, event).total_tasks is None && advanced(
            p,
            event,
        ).current_task == p.current_task,
        event matches ProgressEvent::PlanStarted { total_tasks } ==> advanced(p, event).total_tasks
            == Some(total_tasks) && advanced(p, event).current_task is None,
        event matches ProgressEvent::TaskStarted { label, .. } ==> advanced(p, event).current_task
            == Some(label@) && advanced(p, event).bytes_received == 0 && advanced(
            p,
            event,
        ).total_bytes is None && advanced(p, event).completed_tasks == p.completed_tasks,
        event matches ProgressEvent::TaskSkipped { label, .. } ==> advanced(p, event).current_task
            == Some(label@) && advanced(p, event).bytes_received == 0 && advanced(
            p,
            event,
        ).total_bytes is None,
        event matches ProgressEvent::TaskFinished { label } ==> advanced(p, event).current_task
            == Some(label@) && advanced(p, event).total_bytes == p.total_bytes,
        event matches ProgressEvent::BytesReceived { label, received, total } ==> advanced(
            p,
            event,
        ).current_task == Some(label@) && advanced(p, event).bytes_received == received && advanced(
            p,
            event,
        ).total_bytes == total && advanced(p, event).completed_tasks == p.completed_tasks,
        event is TaskSkipped || event is TaskFinished ==> (p.completed_tasks < u64::MAX ==> advanced(
            p,
            event,
        ).completed_tasks == p.completed_tasks + 1) && (p.completed_tasks == u64::MAX ==> advanced(
            p,
            event,
        ).completed_tasks == u64::MAX),
        !(event is StageStarted) && !(event is PlanStarted) ==> advanced(p, event).total_tasks
            == p.total_tasks,
        event is TaskFinished && p.total_bytes is None ==> advanced(p, event).bytes_received
            == p.bytes_received,
{
}

/// What a stage is called while it runs.
pub proof fn law_names_of_stages(p: ProgressView, stage: InstallStage)
    ensures
        advanced(p, ProgressEvent::StageStarted { stage }).stage == match stage {
            InstallStage::ResolveVersion => "Resolving version metadata"@,
            InstallStage::DownloadLibraries => "Downloading libraries"@,
            InstallStage::DownloadAssets => "Downloading assets"@,
            InstallStage::InstallRuntime => "Installing Java runtime"@,
            InstallStage::ExtractNatives => "Extracting native libraries"@,
            InstallStage::LoaderInstall => "Installing loader"@,
            InstallStage::Verify => "Verifying installation"@,
        },
{
}

} // verus!
