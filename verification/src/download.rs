//! Download plans and their execution.
//!
//! A plan is executed as a conversation: the run says what is to be done, the
//! caller does it and says how it ended. A payload is complete and verified
//! before it takes the place of its destination.

use vstd::prelude::*;

use crate::atomic;
use crate::atomic::hidden_path;
use crate::checksum;
use crate::checksum::{sha1_hex, sha256_hex};
use crate::error::ErrorView;
use crate::error::LauncherError;
use crate::path;
use crate::progress::{ProgressEvent, SkipReason};

verus! {

/// Checksums of downloaded files.
#[derive(Debug, Clone, PartialEq, Eq)]
pub enum Checksum {
    /// SHA-1 checksum.
    Sha1(String),
    /// SHA-256 checksum.
    Sha256(String),
}

/// One file download.
#[derive(Debug, Clone, PartialEq, Eq)]
pub struct DownloadTask {
    /// Source URL.
    pub url: String,
    /// Destination path.
    pub destination: String,
    /// Checksum that decides whether a file is reused and a payload accepted.
    pub checksum: Option<Checksum>,
    /// What progress events call the task.
    pub label: String,
}

/// A batch of download tasks.
#[derive(Debug, Clone, Default, PartialEq, Eq)]
pub struct DownloadPlan {
    /// Tasks in the order of execution.
    pub tasks: Vec<DownloadTask>,
}

/// What stands at the destination of a task.
#[derive(Debug, PartialEq, Eq)]
pub enum ExistingFile {
    /// No file.
    Missing,
    /// A file whose contents were not read.
    Unread,
    /// A file with these contents.
    Contents(Vec<u8>),
    /// A file that cannot be read.
    Unreadable(LauncherError),
}

/// The digest that a checksum asks for.
pub open spec fn expected_digest(checksum: Checksum) -> Seq<char> {
    match checksum {
        Checksum::Sha1(expected) => expected@,
        Checksum::Sha256(expected) => expected@,
    }
}

/// The digest of contents, of the kind that a checksum asks for.
pub open spec fn actual_digest(checksum: Checksum, bytes: Seq<u8>) -> Seq<char> {
    match checksum {
        Checksum::Sha1(_) => checksum::sha1_digest(bytes),
        Checksum::Sha256(_) => checksum::sha256_digest(bytes),
    }
}

/// Whether contents have the checksum of a task, if it has one.
pub open spec fn matches_checksum(task: DownloadTask, bytes: Seq<u8>) -> bool {
    match task.checksum {
        Some(checksum) => actual_digest(checksum, bytes) == expected_digest(checksum),
        None => true,
    }
}

/// Whether a decision about an existing file needs its contents.
pub open spec fn compares_contents(task: DownloadTask) -> bool {
    task.checksum is Some
}

/// Whether an existing file is reused: without a checksum always, with a checksum
/// if the contents have it.
pub open spec fn reuses(task: DownloadTask, existing: ExistingFile) -> Result<bool, ErrorView> {
    if existing is Missing {
        Ok(false)
    } else if task.checksum is None {
        Ok(true)
    } else {
        match existing {
            ExistingFile::Contents(bytes) => Ok(matches_checksum(task, bytes@)),
            ExistingFile::Unreadable(error) => Err(error@),
            _ => Ok(false),
        }
    }
}

/// The digest of contents, of the kind that the checksum asks for.
fn digest_for(checksum: &Checksum, bytes: &Vec<u8>) -> (r: String)
    ensures
        r@ == actual_digest(*checksum, bytes@),
{
    match checksum {
        Checksum::Sha1(_) => sha1_hex(bytes.as_slice()),
        Checksum::Sha256(_) => sha256_hex(bytes.as_slice()),
    }
}

/// The failure of contents that do not have the checksum of the task.
fn find_mismatch(task: &DownloadTask, bytes: &Vec<u8>) -> (r: Option<LauncherError>)
    ensures
        match r {
            Some(error) => task.checksum matches Some(checksum) && !matches_checksum(*task, bytes@)
                && error@ == mismatch(*task, checksum, bytes@),
            None => matches_checksum(*task, bytes@),
        },
{
    match &task.checksum {
        Some(checksum) => {
            let actual = digest_for(checksum, bytes);
            let expected = match checksum {
                Checksum::Sha1(expected) => expected,
                Checksum::Sha256(expected) => expected,
            };
            if actual == *expected {
                None
            } else {
                Some(
                    LauncherError::ChecksumMismatch {
                        path: task.destination.clone(),
                        expected: expected.clone(),
                        actual,
                    },
                )
            }
        },
        None => None,
    }
}

/// Whether an existing destination file can be reused.
///
/// The contents matter only to a task with a checksum; a file whose contents are
/// not known does not match it. Contents that cannot be read are an error.
pub fn should_skip_existing(task: &DownloadTask, existing: ExistingFile) -> (r: Result<
    bool,
    LauncherError,
>)
    ensures
        match reuses(*task, existing) {
            Ok(reused) => r == Ok::<bool, LauncherError>(reused),
            Err(error) => r matches Err(e) && e@ == error,
        },
{
    if let ExistingFile::Missing = existing {
        return Ok(false);
    }
    if task.checksum.is_none() {
        return Ok(true);
    }
    match existing {
        ExistingFile::Contents(bytes) => Ok(find_mismatch(task, &bytes).is_none()),
        ExistingFile::Unreadable(error) => Err(error),
        _ => Ok(false),
    }
}

/// The hidden file next to the destination that a download is written to.
pub fn temporary_download_path(destination: &str) -> (r: String)
    ensures
        r@ == atomic::hidden_sibling(destination@, "download"@, ".lucent-part"@),
{
    hidden_path(destination, "download", ".lucent-part")
}

/// What the caller of a run is to do next.
#[derive(Debug, PartialEq, Eq)]
pub enum PlanAction {
    /// Hand the event to the progress display.
    Report(ProgressEvent),
    /// Look at the destination of the task.
    Inspect {
        /// The task's position in the plan.
        task: usize,
        /// Whether the contents are needed.
        read_contents: bool,
    },
    /// Create the directory of the destination.
    CreateDirectory {
        /// The task's position in the plan.
        task: usize,
    },
    /// Request the URL and create the temporary file.
    Open {
        /// The task's position in the plan.
        task: usize,
    },
    /// Append the next part of the response to the temporary file.
    Receive {
        /// The task's position in the plan.
        task: usize,
    },
    /// Read the temporary file back.
    ReadBack {
        /// The task's position in the plan.
        task: usize,
    },
    /// Move the temporary file to the destination, in place of what stands there.
    Publish {
        /// The task's position in the plan.
        task: usize,
    },
    /// Remove the temporary file.
    Discard {
        /// The task's position in the plan.
        task: usize,
    },
    /// Nothing more: the run has ended.
    Finish,
}

/// How an action ended.
#[derive(Debug, PartialEq, Eq)]
pub enum PlanEvent {
    /// What stands at the destination.
    Inspected(ExistingFile),
    /// A directory was created or a file moved into place.
    Done,
    /// The response began.
    Opened {
        /// The payload's size, where the server says so.
        total: Option<u64>,
    },
    /// A part of the payload was appended; an empty one is the end of the payload.
    Chunk {
        /// Its size.
        count: u32,
    },
    /// The contents of the temporary file.
    Contents(Vec<u8>),
    /// The action failed.
    Failed(LauncherError),
}

/// What a run waits for.
#[derive(Debug, PartialEq, Eq)]
pub enum PlanStage {
    /// What stands at the destination.
    Inspecting,
    /// The directory of the destination.
    Preparing,
    /// The response.
    Opening,
    /// The payload.
    Receiving {
        /// Bytes received so far.
        received: u64,
        /// Bytes in all, where the server says so.
        total: Option<u64>,
    },
    /// The contents of the temporary file.
    Verifying,
    /// The move to the destination.
    Publishing,
    /// Nothing: all tasks are done.
    Completed,
    /// Nothing: a task failed.
    Aborted(LauncherError),
}

/// What a run waits for, as plain values.
pub enum StageView {
    Inspecting,
    Preparing,
    Opening,
    Receiving { received: u64, total: Option<u64> },
    Verifying,
    Publishing,
    Completed,
    Aborted(ErrorView),
}

impl View for PlanStage {
    type V = StageView;

    open spec fn view(&self) -> StageView {
        match *self {
            PlanStage::Inspecting => StageView::Inspecting,
            PlanStage::Preparing => StageView::Preparing,
            PlanStage::Opening => StageView::Opening,
            PlanStage::Receiving { received, total } => StageView::Receiving { received, total },
            PlanStage::Verifying => StageView::Verifying,
            PlanStage::Publishing => StageView::Publishing,
            PlanStage::Completed => StageView::Completed,
            PlanStage::Aborted(error) => StageView::Aborted(error@),
        }
    }
}

/// Where a run stands: the task it is at, and what it waits for.
pub struct RunView {
    pub task: int,
    pub stage: StageView,
}

/// Turns to a task, or completes the run after the last one.
pub open spec fn turn_to(tasks: Seq<DownloadTask>, task: int) -> (RunView, Seq<PlanAction>) {
    if task < tasks.len() {
        (
            RunView { task, stage: StageView::Inspecting },
            seq![
                PlanAction::Inspect {
                    task: task as usize,
                    read_contents: compares_contents(tasks[task]),
                },
            ],
        )
    } else {
        (RunView { task, stage: StageView::Completed }, seq![PlanAction::Finish])
    }
}

/// Gives up a task: the temporary file goes, the destination stays.
pub open spec fn give_up(task: int, error: ErrorView) -> (RunView, Seq<PlanAction>) {
    (
        RunView { task, stage: StageView::Aborted(error) },
        seq![PlanAction::Discard { task: task as usize }, PlanAction::Finish],
    )
}

/// The failure of contents that do not have a checksum.
pub open spec fn mismatch(task: DownloadTask, checksum: Checksum, bytes: Seq<u8>) -> ErrorView {
    ErrorView::ChecksumMismatch {
        path: task.destination@,
        expected: expected_digest(checksum),
        actual: actual_digest(checksum, bytes),
    }
}

/// Why an existing file was reused.
pub open spec fn skip_reason(task: DownloadTask) -> SkipReason {
    if task.checksum is Some {
        SkipReason::ChecksumMatched
    } else {
        SkipReason::FileExistsWithoutChecksum
    }
}

/// What a run does on an event. An event that it does not wait for changes
/// nothing.
pub open spec fn run_step(tasks: Seq<DownloadTask>, run: RunView, event: PlanEvent) -> (
    RunView,
    Seq<PlanAction>,
) {
    let task = tasks[run.task];
    let at = run.task as usize;
    match (run.stage, event) {
        (StageView::Inspecting, PlanEvent::Inspected(existing)) => match reuses(task, existing) {
            Err(error) => (
                RunView { stage: StageView::Aborted(error), ..run },
                seq![PlanAction::Finish],
            ),
            Ok(true) => {
                let skipped = ProgressEvent::TaskSkipped {
                    label: task.label,
                    reason: skip_reason(task),
                };
                let (next, actions) = turn_to(tasks, run.task + 1);
                (next, seq![PlanAction::Report(skipped)] + actions)
            },
            Ok(false) => {
                let started = ProgressEvent::TaskStarted {
                    label: task.label,
                    path: task.destination,
                };
                (
                    RunView { stage: StageView::Preparing, ..run },
                    seq![PlanAction::Report(started), PlanAction::CreateDirectory { task: at }],
                )
            },
        },
        (StageView::Preparing, PlanEvent::Done) => (
            RunView { stage: StageView::Opening, ..run },
            seq![PlanAction::Open { task: at }],
        ),
        (StageView::Preparing, PlanEvent::Failed(error)) => (
            RunView { stage: StageView::Aborted(error@), ..run },
            seq![PlanAction::Finish],
        ),
        (StageView::Opening, PlanEvent::Opened { total }) => (
            RunView { stage: StageView::Receiving { received: 0, total }, ..run },
            seq![PlanAction::Receive { task: at }],
        ),
        (StageView::Receiving { received, total }, PlanEvent::Chunk { count }) => if count > 0 {
            let received = (received + count) as u64;
            (
                RunView { stage: StageView::Receiving { received, total }, ..run },
                seq![
                    PlanAction::Report(
                        ProgressEvent::BytesReceived { label: task.label, received, total },
                    ),
                    PlanAction::Receive { task: at },
                ],
            )
        } else if compares_contents(task) {
            (
                RunView { stage: StageView::Verifying, ..run },
                seq![PlanAction::ReadBack { task: at }],
            )
        } else {
            (
                RunView { stage: StageView::Publishing, ..run },
                seq![PlanAction::Publish { task: at }],
            )
        },
        (StageView::Verifying, PlanEvent::Contents(bytes)) => if matches_checksum(task, bytes@) {
            (
                RunView { stage: StageView::Publishing, ..run },
                seq![PlanAction::Publish { task: at }],
            )
        } else {
            give_up(run.task, mismatch(task, task.checksum->0, bytes@))
        },
        (StageView::Publishing, PlanEvent::Done) => {
            let (next, actions) = turn_to(tasks, run.task + 1);
            (
                next,
                seq![PlanAction::Report(ProgressEvent::TaskFinished { label: task.label })]
                    + actions,
            )
        },
        (StageView::Opening, PlanEvent::Failed(error)) => give_up(run.task, error@),
        (StageView::Receiving { .. }, PlanEvent::Failed(error)) => give_up(run.task, error@),
        (StageView::Verifying, PlanEvent::Failed(error)) => give_up(run.task, error@),
        (StageView::Publishing, PlanEvent::Failed(error)) => give_up(run.task, error@),
        _ => (run, Seq::empty()),
    }
}

/// The execution of a plan.
#[derive(Debug)]
pub struct PlanRun {
    tasks: Vec<DownloadTask>,
    task: usize,
    stage: PlanStage,
}

impl View for PlanRun {
    type V = RunView;

    closed spec fn view(&self) -> RunView {
        RunView { task: self.task as int, stage: self.stage@ }
    }
}

/// Whether a run waits for anything.
pub open spec fn is_over(stage: StageView) -> bool {
    stage is Completed || stage is Aborted
}

/// Begins the execution of a plan.
///
/// Existing files with matching checksums are skipped. Each payload with a
/// checksum is verified before it takes the place of its destination.
pub fn execute_plan(plan: DownloadPlan) -> (r: (PlanRun, Vec<PlanAction>))
    ensures
        r.0.wf(),
        r.0.tasks() == plan.tasks@,
        ({
            let (run, actions) = turn_to(plan.tasks@, 0);
            &&& r.0@ == run
            &&& r.1@ == seq![
                PlanAction::Report(
                    ProgressEvent::PlanStarted { total_tasks: plan.tasks@.len() as u64 },
                ),
            ] + actions
        }),
{
    let mut actions: Vec<PlanAction> = Vec::new();
    let total = plan.tasks.len();
    actions.push(PlanAction::Report(ProgressEvent::PlanStarted { total_tasks: total as u64 }));
    let mut run = PlanRun { tasks: plan.tasks, task: 0, stage: PlanStage::Inspecting };
    let ghost expected = seq![
        PlanAction::Report(ProgressEvent::PlanStarted { total_tasks: total as u64 }),
    ] + turn_to(plan.tasks@, 0).1;
    run.turn(0, &mut actions);
    assert(actions@ =~= expected);
    (run, actions)
}

impl PlanRun {
    /// The tasks of the plan.
    pub closed spec fn tasks(&self) -> Seq<DownloadTask> {
        self.tasks@
    }

    /// A run that waits for something is at a task of its plan.
    pub open spec fn wf(&self) -> bool {
        &&& 0 <= self@.task <= self.tasks().len()
        &&& !is_over(self@.stage) ==> self@.task < self.tasks().len()
    }

    /// The task at a position of the plan.
    pub fn task(&self, position: usize) -> (r: Option<&DownloadTask>)
        ensures
            match r {
                Some(task) => position < self.tasks().len() && *task
                    == self.tasks()[position as int],
                None => position >= self.tasks().len(),
            },
    {
        if position < self.tasks.len() {
            Some(&self.tasks[position])
        } else {
            None
        }
    }

    /// How the run ended, once it is over.
    pub fn outcome(self) -> (r: Option<Result<(), LauncherError>>)
        ensures
            match self@.stage {
                StageView::Completed => r == Some(Ok::<(), LauncherError>(())),
                StageView::Aborted(error) => r matches Some(Err(e)) && e@ == error,
                _ => r is None,
            },
    {
        match self.stage {
            PlanStage::Completed => Some(Ok(())),
            PlanStage::Aborted(error) => Some(Err(error)),
            _ => None,
        }
    }

    /// Turns to a task, or completes the run after the last one.
    fn turn(&mut self, task: usize, actions: &mut Vec<PlanAction>)
        requires
            task <= old(self).tasks().len(),
        ensures
            final(self).tasks() == old(self).tasks(),
            final(self).wf(),
            final(self)@ == turn_to(old(self).tasks(), task as int).0,
            final(actions)@ == old(actions)@ + turn_to(old(self).tasks(), task as int).1,
    {
        self.task = task;
        if task < self.tasks.len() {
            let read_contents = self.tasks[task].checksum.is_some();
            self.stage = PlanStage::Inspecting;
            actions.push(PlanAction::Inspect { task, read_contents });
        } else {
            self.stage = PlanStage::Completed;
            actions.push(PlanAction::Finish);
        }
        assert(actions@ =~= old(actions)@ + turn_to(old(self).tasks(), task as int).1);
    }

    /// Gives up the current task.
    fn abort(&mut self, error: LauncherError, actions: &mut Vec<PlanAction>)
        requires
            old(self).wf(),
        ensures
            final(self).tasks() == old(self).tasks(),
            final(self).wf(),
            final(self)@ == give_up(old(self)@.task, error@).0,
            final(actions)@ == old(actions)@ + give_up(old(self)@.task, error@).1,
    {
        self.stage = PlanStage::Aborted(error);
        actions.push(PlanAction::Discard { task: self.task });
        actions.push(PlanAction::Finish);
        assert(actions@ =~= old(actions)@ + give_up(old(self)@.task, error@).1);
    }

    /// Takes in how an action ended, and says what is to be done next. An event
    /// that the run does not wait for changes nothing.
    pub fn step(&mut self, event: PlanEvent) -> (r: Vec<PlanAction>)
        requires
            old(self).wf(),
            (old(self)@.stage, event) matches (
                StageView::Receiving { received, .. },
                PlanEvent::Chunk { count },
            ) ==> received + count <= u64::MAX,
        ensures
            final(self).wf(),
            final(self).tasks() == old(self).tasks(),
            final(self)@ == run_step(old(self).tasks(), old(self)@, event).0,
            r@ == run_step(old(self).tasks(), old(self)@, event).1,
    {
        let ghost tasks = self.tasks();
        let ghost before = self@;
        let ghost expected = run_step(tasks, before, event);
        let at = self.task;
        let count = self.tasks.len();
        assert(at < count || is_over(before.stage));
        let mut actions: Vec<PlanAction> = Vec::new();
        match (&self.stage, event) {
            (PlanStage::Inspecting, PlanEvent::Inspected(existing)) => {
                match should_skip_existing(&self.tasks[at], existing) {
                    Err(error) => {
                        self.stage = PlanStage::Aborted(error);
                        actions.push(PlanAction::Finish);
                    },
                    Ok(true) => {
                        let label = self.tasks[at].label.clone();
                        let reason = if self.tasks[at].checksum.is_some() {
                            SkipReason::ChecksumMatched
                        } else {
                            SkipReason::FileExistsWithoutChecksum
                        };
                        actions.push(
                            PlanAction::Report(ProgressEvent::TaskSkipped { label, reason }),
                        );
                        self.turn(at + 1, &mut actions);
                    },
                    Ok(false) => {
                        let label = self.tasks[at].label.clone();
                        let path = self.tasks[at].destination.clone();
                        actions.push(
                            PlanAction::Report(ProgressEvent::TaskStarted { label, path }),
                        );
                        actions.push(PlanAction::CreateDirectory { task: at });
                        self.stage = PlanStage::Preparing;
                    },
                }
            },
            (PlanStage::Preparing, PlanEvent::Done) => {
                self.stage = PlanStage::Opening;
                actions.push(PlanAction::Open { task: at });
            },
            (PlanStage::Preparing, PlanEvent::Failed(error)) => {
                self.stage = PlanStage::Aborted(error);
                actions.push(PlanAction::Finish);
            },
            (PlanStage::Opening, PlanEvent::Opened { total }) => {
                self.stage = PlanStage::Receiving { received: 0, total };
                actions.push(PlanAction::Receive { task: at });
            },
            (PlanStage::Receiving { received, total }, PlanEvent::Chunk { count }) => {
                if count > 0 {
                    let received: u64 = *received + count as u64;
                    let total = *total;
                    let label = self.tasks[at].label.clone();
                    self.stage = PlanStage::Receiving { received, total };
                    actions.push(
                        PlanAction::Report(ProgressEvent::BytesReceived { label, received, total }),
                    );
                    actions.push(PlanAction::Receive { task: at });
                } else if self.tasks[at].checksum.is_some() {
                    self.stage = PlanStage::Verifying;
                    actions.push(PlanAction::ReadBack { task: at });
                } else {
                    self.stage = PlanStage::Publishing;
                    actions.push(PlanAction::Publish { task: at });
                }
            },
            (PlanStage::Verifying, PlanEvent::Contents(bytes)) => {
                match find_mismatch(&self.tasks[at], &bytes) {
                    Some(error) => {
                        self.abort(error, &mut actions);
                    },
                    None => {
                        self.stage = PlanStage::Publishing;
                        actions.push(PlanAction::Publish { task: at });
                    },
                }
            },
            (PlanStage::Publishing, PlanEvent::Done) => {
                let label = self.tasks[at].label.clone();
                actions.push(PlanAction::Report(ProgressEvent::TaskFinished { label }));
                self.turn(at + 1, &mut actions);
            },
            (PlanStage::Opening, PlanEvent::Failed(error)) => {
                self.abort(error, &mut actions);
            },
            (PlanStage::Receiving { .. }, PlanEvent::Failed(error)) => {
                self.abort(error, &mut actions);
            },
            (PlanStage::Verifying, PlanEvent::Failed(error)) => {
                self.abort(error, &mut actions);
            },
            (PlanStage::Publishing, PlanEvent::Failed(error)) => {
                self.abort(error, &mut actions);
            },
            _ => {},
        }
        assert(actions@ =~= expected.1);
        actions
    }
}

/// A payload is verified before it becomes visible: a task with a checksum is
/// published only on the contents of its temporary file, and only if they have
/// that checksum.
pub proof fn law_published_payload_is_verified(
    tasks: Seq<DownloadTask>,
    run: RunView,
    event: PlanEvent,
    task: usize,
)
    requires
        0 <= run.task < tasks.len() <= usize::MAX,
        run_step(tasks, run, event).1.contains(PlanAction::Publish { task }),
    ensures
        task == run.task,
        tasks[run.task].checksum is Some ==> run.stage is Verifying && (
        event matches PlanEvent::Contents(bytes) && matches_checksum(tasks[run.task], bytes@)),
{
    let actions = run_step(tasks, run, event).1;
    let i = choose|i: int| 0 <= i < actions.len() && actions[i] == (PlanAction::Publish { task });
    lemma_turn_publishes_nothing(tasks, run.task + 1);
    if i >= 1 && actions.len() > 1 {
        let rest = turn_to(tasks, run.task + 1).1;
        assert(rest.len() == 1);
        assert(actions.len() == 2);
    }
}

proof fn lemma_turn_publishes_nothing(tasks: Seq<DownloadTask>, task: int)
    ensures
        turn_to(tasks, task).1.len() == 1,
        !(turn_to(tasks, task).1[0] is Publish),
{
}

/// A failed download leaves nothing behind: whatever fails after the temporary
/// file may exist, the file is discarded, the run ends with that failure, and no
/// later task begins.
pub proof fn law_failed_download_is_discarded(
    tasks: Seq<DownloadTask>,
    run: RunView,
    error: LauncherError,
)
    requires
        0 <= run.task < tasks.len(),
        run.stage is Opening || run.stage is Receiving || run.stage is Verifying
            || run.stage is Publishing,
    ensures
        run_step(tasks, run, PlanEvent::Failed(error)) == (
            RunView { task: run.task, stage: StageView::Aborted(error@) },
            seq![PlanAction::Discard { task: run.task as usize }, PlanAction::Finish],
        ),
{
}

/// Once a run is over, no event changes it or asks for anything.
pub proof fn law_ended_run_stays_ended(
    tasks: Seq<DownloadTask>,
    run: RunView,
    event: PlanEvent,
)
    requires
        is_over(run.stage),
    ensures
        run_step(tasks, run, event) == (run, Seq::<PlanAction>::empty()),
{
}

/// Tasks are executed in order: an event keeps the run at its task or moves it
/// to the next one, which happens only when the task was skipped or published.
pub proof fn law_tasks_run_in_order(tasks: Seq<DownloadTask>, run: RunView, event: PlanEvent)
    requires
        0 <= run.task < tasks.len(),
    ensures
        ({
            let next = run_step(tasks, run, event).0;
            ||| next.task == run.task
            ||| next.task == run.task + 1 && (run.stage is Publishing && event is Done || (
            run.stage is Inspecting && (event matches PlanEvent::Inspected(existing) && reuses(
                tasks[run.task],
                existing,
            ) == Ok::<bool, ErrorView>(true))))
        }),
{
}

/// The temporary file of a task.
pub open spec fn temporary_of(task: DownloadTask) -> Seq<char> {
    atomic::hidden_sibling(task.destination@, "download"@, ".lucent-part"@)
}

/// Whether the destinations of tasks are distinct, and none is the temporary file
/// of another task.
pub open spec fn are_apart(tasks: Seq<DownloadTask>) -> bool {
    forall|i: int, j: int|
        0 <= i < tasks.len() && 0 <= j < tasks.len() && i != j ==> (
        #[trigger] tasks[i]).destination@ != (#[trigger] tasks[j]).destination@
            && tasks[i].destination@ != temporary_of(tasks[j])
}

/// Whether the file of a task is at its destination: it is there, and has the
/// checksum.
pub open spec fn is_in_place(task: DownloadTask, files: Map<Seq<char>, Seq<u8>>) -> bool {
    files.contains_key(task.destination@) && matches_checksum(task, files[task.destination@])
}

/// Whether an event tells how the action that a run waits for went, and the files
/// changed as it did: only the temporary file is written, and only a publication
/// changes the destination.
pub open spec fn is_truthful(
    task: DownloadTask,
    stage: StageView,
    event: PlanEvent,
    before: Map<Seq<char>, Seq<u8>>,
    after: Map<Seq<char>, Seq<u8>>,
) -> bool {
    let destination = task.destination@;
    let temporary = temporary_of(task);
    match (stage, event) {
        (StageView::Inspecting, PlanEvent::Inspected(existing)) => after == before && match existing {
            ExistingFile::Missing => !before.contains_key(destination),
            ExistingFile::Contents(bytes) => before.contains_key(destination)
                && before[destination] == bytes@,
            _ => before.contains_key(destination),
        },
        (StageView::Verifying, PlanEvent::Contents(bytes)) => after == before
            && before.contains_key(temporary) && before[temporary] == bytes@,
        (StageView::Publishing, PlanEvent::Done) => before.contains_key(temporary) && after
            == before.remove(temporary).insert(destination, before[temporary]),
        (StageView::Opening, _) => after.remove(temporary) == before.remove(temporary),
        (StageView::Receiving { .. }, _) => after.remove(temporary) == before.remove(temporary),
        _ => after == before,
    }
}

/// Whether the files of the tasks that a run has left behind are in place, and
/// what it publishes has the checksum.
pub open spec fn has_placed(
    tasks: Seq<DownloadTask>,
    run: RunView,
    files: Map<Seq<char>, Seq<u8>>,
) -> bool {
    &&& forall|j: int| 0 <= j < run.task && j < tasks.len() ==> is_in_place(#[trigger] tasks[j], files)
    &&& run.stage is Publishing && tasks[run.task].checksum is Some ==> files.contains_key(
        temporary_of(tasks[run.task]),
    ) && matches_checksum(tasks[run.task], files[temporary_of(tasks[run.task])])
    &&& run.stage is Completed ==> run.task == tasks.len()
}

proof fn lemma_temporary_is_another_file(task: DownloadTask)
    ensures
        temporary_of(task) != task.destination@,
{
    let destination = task.destination@;
    reveal_strlit("download");
    reveal_strlit(".lucent-part");
    reveal_strlit(".");
    if path::name_part(destination) is Some {
        assert(!".lucent-part"@.contains('/'));
        atomic::law_temporary_file_is_a_distinct_sibling(
            destination,
            destination,
            "download"@,
            ".lucent-part"@,
        );
    } else {
        assert(temporary_of(task).len() > destination.len());
    }
}

/// What a run has downloaded stays: a step keeps every file that the run has put
/// in place or found there, and when the run completes, the file of every task is
/// in place. A run that begins has left no task behind.
pub proof fn law_completed_run_has_placed_its_files(
    tasks: Seq<DownloadTask>,
    run: RunView,
    event: PlanEvent,
    before: Map<Seq<char>, Seq<u8>>,
    after: Map<Seq<char>, Seq<u8>>,
)
    requires
        are_apart(tasks),
        0 <= run.task < tasks.len(),
        !is_over(run.stage),
        has_placed(tasks, run, before),
        is_truthful(tasks[run.task], run.stage, event, before, after),
    ensures
        has_placed(tasks, run_step(tasks, run, event).0, after),
        has_placed(tasks, turn_to(tasks, 0).0, after),
{
    let task = tasks[run.task];
    let temporary = temporary_of(task);
    let next = run_step(tasks, run, event).0;
    lemma_temporary_is_another_file(task);
    assert forall|j: int| 0 <= j < run.task implies is_in_place(#[trigger] tasks[j], after) by {
        let other = tasks[j].destination@;
        assert(is_in_place(tasks[j], before));
        assert(other != task.destination@ && other != temporary);
        assert(before.remove(temporary).contains_key(other));
        assert(before.remove(temporary)[other] == before[other]);
        assert(after.remove(temporary).contains_key(other) == after.contains_key(other));
        assert(after.remove(temporary)[other] == after[other]);
    }
    if next.task == run.task + 1 {
        assert(is_in_place(task, after));
    }
}

/// The actions of a run that found an existing file for each of its first `n`
/// tasks, and where it stands then.
pub open spec fn inspected(
    tasks: Seq<DownloadTask>,
    found: Seq<ExistingFile>,
    n: int,
) -> (RunView, Seq<PlanAction>)
    decreases n,
{
    if n <= 0 {
        let (run, actions) = turn_to(tasks, 0);
        (
            run,
            seq![
                PlanAction::Report(
                    ProgressEvent::PlanStarted { total_tasks: tasks.len() as u64 },
                ),
            ] + actions,
        )
    } else {
        let (run, so_far) = inspected(tasks, found, n - 1);
        let (next, actions) = run_step(tasks, run, PlanEvent::Inspected(found[n - 1]));
        (next, so_far + actions)
    }
}

/// What actions report, in order.
pub open spec fn reported(actions: Seq<PlanAction>) -> Seq<ProgressEvent>
    decreases actions.len(),
{
    if actions.len() == 0 {
        Seq::empty()
    } else {
        match actions.last() {
            PlanAction::Report(event) => reported(actions.drop_last()).push(event),
            _ => reported(actions.drop_last()),
        }
    }
}

/// The report that a task is skipped.
pub open spec fn skip_report(task: DownloadTask) -> ProgressEvent {
    ProgressEvent::TaskSkipped { label: task.label, reason: skip_reason(task) }
}

/// Whether an action only looks and tells.
pub open spec fn changes_nothing(action: PlanAction) -> bool {
    action is Report || action is Inspect || action is Finish
}

proof fn lemma_reported_add(first: Seq<PlanAction>, second: Seq<PlanAction>)
    ensures
        reported(first + second) == reported(first) + reported(second),
    decreases second.len(),
{
    if second.len() == 0 {
        assert(first + second =~= first);
        assert(reported(first) + reported(second) =~= reported(first));
    } else {
        assert((first + second).drop_last() =~= first + second.drop_last());
        lemma_reported_add(first, second.drop_last());
        assert(reported(first + second) =~= reported(first) + reported(second));
    }
}

/// A plan whose files are in place is only skipped: if there is a file with the
/// checksum at every destination, as there is after a completed run, the run
/// reports the start and that each task is skipped, in order, asks for no change
/// of any file, and completes.
pub proof fn law_repeated_plan_is_skipped(
    tasks: Seq<DownloadTask>,
    files: Map<Seq<char>, Seq<u8>>,
    found: Seq<ExistingFile>,
    n: int,
)
    requires
        0 <= n <= tasks.len(),
        found.len() == tasks.len(),
        forall|i: int| 0 <= i < tasks.len() ==> is_in_place(#[trigger] tasks[i], files),
        forall|i: int|
            0 <= i < tasks.len() ==> is_truthful(
                tasks[i],
                StageView::Inspecting,
                PlanEvent::Inspected(#[trigger] found[i]),
                files,
                files,
            ) && (compares_contents(tasks[i]) ==> found[i] is Contents),
    ensures
        inspected(tasks, found, n).0 == turn_to(tasks, n).0,
        n == tasks.len() ==> inspected(tasks, found, n).0.stage is Completed,
        reported(inspected(tasks, found, n).1) == seq![
            ProgressEvent::PlanStarted { total_tasks: tasks.len() as u64 },
        ] + tasks.take(n).map_values(|task: DownloadTask| skip_report(task)),
        forall|i: int|
            0 <= i < inspected(tasks, found, n).1.len() ==> changes_nothing(
                #[trigger] inspected(tasks, found, n).1[i],
            ),
    decreases n,
{
    reveal_with_fuel(reported, 3);
    let skips = tasks.take(n).map_values(|task: DownloadTask| skip_report(task));
    let (run, actions) = inspected(tasks, found, n);
    let turned = turn_to(tasks, n).1;
    assert(turned.len() == 1 && changes_nothing(turned[0]));
    assert(turned.drop_last() =~= Seq::empty());
    assert(reported(turned) =~= Seq::empty());
    if n == 0 {
        let started = ProgressEvent::PlanStarted { total_tasks: tasks.len() as u64 };
        let first = seq![PlanAction::Report(started)];
        assert(first.drop_last() =~= Seq::empty());
        assert(reported(first) =~= seq![started]);
        lemma_reported_add(first, turned);
        assert(reported(actions) =~= seq![started] + skips);
    } else {
        law_repeated_plan_is_skipped(tasks, files, found, n - 1);
        let task = tasks[n - 1];
        assert(is_in_place(task, files));
        let so_far = inspected(tasks, found, n - 1).1;
        assert(reuses(task, found[n - 1]) == Ok::<bool, ErrorView>(true));
        let first = seq![PlanAction::Report(skip_report(task))];
        assert(first.drop_last() =~= Seq::empty());
        assert(reported(first) =~= seq![skip_report(task)]);
        assert(actions =~= so_far + (first + turned));
        lemma_reported_add(first, turned);
        lemma_reported_add(so_far, first + turned);
        assert(skips =~= tasks.take(n - 1).map_values(
            |task: DownloadTask| skip_report(task),
        ).push(skip_report(task)));
        assert(reported(actions) =~= seq![
            ProgressEvent::PlanStarted { total_tasks: tasks.len() as u64 },
        ] + skips);
        assert forall|i: int| 0 <= i < actions.len() implies changes_nothing(
            #[trigger] actions[i],
        ) by {
            if i < so_far.len() {
                assert(actions[i] == so_far[i]);
            } else if i == so_far.len() {
                assert(actions[i] == first[0]);
            } else {
                assert(actions[i] == turned[0]);
            }
        }
    }
}

/// Where a run stands after events.
pub open spec fn ran(tasks: Seq<DownloadTask>, events: Seq<PlanEvent>) -> RunView
    decreases events.len(),
{
    if events.len() == 0 {
        turn_to(tasks, 0).0
    } else {
        run_step(tasks, ran(tasks, events.drop_last()), events.last()).0
    }
}

/// Whether events and the files before and after each of them are the history of
/// one run.
pub open spec fn is_history(
    tasks: Seq<DownloadTask>,
    events: Seq<PlanEvent>,
    files: Seq<Map<Seq<char>, Seq<u8>>>,
) -> bool {
    &&& files.len() == events.len() + 1
    &&& forall|i: int|
        0 <= i < events.len() ==> {
            let run = ran(tasks, #[trigger] events.take(i));
            !is_over(run.stage) && is_truthful(
                tasks[run.task],
                run.stage,
                events[i],
                files[i],
                files[i + 1],
            )
        }
}

proof fn lemma_history_has_placed(
    tasks: Seq<DownloadTask>,
    events: Seq<PlanEvent>,
    files: Seq<Map<Seq<char>, Seq<u8>>>,
    n: int,
)
    requires
        are_apart(tasks),
        is_history(tasks, events, files),
        0 <= n <= events.len(),
    ensures
        has_placed(tasks, ran(tasks, events.take(n)), files[n]),
        0 <= ran(tasks, events.take(n)).task <= tasks.len(),
        !is_over(ran(tasks, events.take(n)).stage) ==> ran(tasks, events.take(n)).task
            < tasks.len(),
    decreases n,
{
    if n > 0 {
        let earlier = events.take(n - 1);
        let run = ran(tasks, earlier);
        lemma_history_has_placed(tasks, events, files, n - 1);
        assert(events.take(n).drop_last() =~= earlier);
        assert(events.take(n).last() == events[n - 1]);
        law_completed_run_has_placed_its_files(
            tasks,
            run,
            events[n - 1],
            files[n - 1],
            files[n],
        );
    }
}

/// Executing a plan again only skips: after a run that completed, if no file has
/// changed since, a second run reports the start and that each task is skipped, in
/// order, asks for no change of any file, and completes.
pub proof fn law_second_execution_only_skips(
    tasks: Seq<DownloadTask>,
    events: Seq<PlanEvent>,
    files: Seq<Map<Seq<char>, Seq<u8>>>,
    found: Seq<ExistingFile>,
)
    requires
        are_apart(tasks),
        is_history(tasks, events, files),
        ran(tasks, events).stage is Completed,
        found.len() == tasks.len(),
        forall|i: int|
            0 <= i < tasks.len() ==> is_truthful(
                tasks[i],
                StageView::Inspecting,
                PlanEvent::Inspected(#[trigger] found[i]),
                files.last(),
                files.last(),
            ) && (compares_contents(tasks[i]) ==> found[i] is Contents),
    ensures
        ({
            let (run, actions) = inspected(tasks, found, tasks.len() as int);
            &&& run.stage is Completed
            &&& reported(actions) == seq![
                ProgressEvent::PlanStarted { total_tasks: tasks.len() as u64 },
            ] + tasks.map_values(|task: DownloadTask| skip_report(task))
            &&& forall|i: int|
                0 <= i < actions.len() ==> changes_nothing(#[trigger] actions[i])
        }),
{
    let n = events.len() as int;
    lemma_history_has_placed(tasks, events, files, n);
    assert(events.take(n) =~= events);
    assert forall|i: int| 0 <= i < tasks.len() implies is_in_place(
        #[trigger] tasks[i],
        files.last(),
    ) by {}
    law_repeated_plan_is_skipped(tasks, files.last(), found, tasks.len() as int);
    assert(tasks.take(tasks.len() as int) =~= tasks);
}

/// When contents have the checksum of a task: when their digest, of the kind that the
/// checksum has, is the one that it names. Without a checksum all contents are right.
pub proof fn law_digest_is_compared(task: DownloadTask, bytes: Seq<u8>)
    ensures
        task.checksum is None ==> matches_checksum(task, bytes),
        task.checksum matches Some(Checksum::Sha1(named)) ==> (matches_checksum(task, bytes)
            <==> checksum::sha1_digest(bytes) == named@),
        task.checksum matches Some(Checksum::Sha256(named)) ==> (matches_checksum(task, bytes)
            <==> checksum::sha256_digest(bytes) == named@),
{
}

/// Which files are used again: without a checksum every one that is there; with one,
/// only those whose contents have it. What cannot be read is then a failure.
pub proof fn law_right_file_is_used_again(task: DownloadTask, existing: ExistingFile)
    ensures
        existing is Missing ==> reuses(task, existing) == Ok::<bool, ErrorView>(false),
        !(existing is Missing) && task.checksum is None ==> reuses(task, existing) == Ok::<
            bool,
            ErrorView,
        >(true),
        task.checksum is Some ==> (existing matches ExistingFile::Contents(bytes) ==> reuses(
            task,
            existing,
        ) == Ok::<bool, ErrorView>(matches_checksum(task, bytes@))),
        task.checksum is Some ==> (existing matches ExistingFile::Unreadable(error) ==> reuses(
            task,
            existing,
        ) == Err::<bool, ErrorView>(error@)),
        task.checksum is Some && existing is Unread ==> reuses(task, existing) == Ok::<
            bool,
            ErrorView,
        >(false),
{
}

/// Whether an action is what a run waits for in a stage of a task.
pub open spec fn is_request_of(stage: StageView, task: usize, action: PlanAction) -> bool {
    match stage {
        StageView::Inspecting => action matches PlanAction::Inspect { task: at, .. } && at == task,
        StageView::Preparing => action == PlanAction::CreateDirectory { task },
        StageView::Opening => action == PlanAction::Open { task },
        StageView::Receiving { .. } => action == PlanAction::Receive { task },
        StageView::Verifying => action == PlanAction::ReadBack { task },
        StageView::Publishing => action == PlanAction::Publish { task },
        StageView::Completed => action == PlanAction::Finish,
        StageView::Aborted(_) => action == PlanAction::Finish,
    }
}

/// A run asks last for what it then waits for, and for nothing where nothing changes.
/// It asks for contents exactly where the task has a checksum.
pub proof fn law_run_asks_for_what_it_waits_for(
    tasks: Seq<DownloadTask>,
    run: RunView,
    event: PlanEvent,
)
    requires
        0 <= run.task < tasks.len() <= usize::MAX,
    ensures
        ({
            let (next, actions) = run_step(tasks, run, event);
            &&& actions.len() == 0 <==> next == run && actions.len() == 0
            &&& actions.len() > 0 ==> (next.task < tasks.len() || next.stage is Completed) && (
            next.stage is Completed || is_request_of(next.stage, next.task as usize, actions.last()))
            &&& next.stage is Completed && !(run.stage is Completed) ==> actions.last()
                == PlanAction::Finish && next.task == tasks.len()
            &&& forall|i: int|
                0 <= i < actions.len() ==> ((#[trigger] actions[i]) matches PlanAction::Inspect {
                    task,
                    read_contents,
                } ==> read_contents == tasks[task as int].checksum is Some)
        }),
        ({
            let (first, actions) = turn_to(tasks, 0);
            &&& first.task == 0 && first.stage is Inspecting && actions.len() == 1
            &&& actions[0] == PlanAction::Inspect {
                task: 0,
                read_contents: tasks[0].checksum is Some,
            }
        }),
{
    let (next, actions) = run_step(tasks, run, event);
    let turned = turn_to(tasks, run.task + 1).1;
    assert(turned.len() == 1);
}

/// A task that is there is skipped, and told so with the reason; one that is not is
/// told to begin, and goes through all stages: the directory, the response, the
/// payload, its verification where it has a checksum, and the move.
pub proof fn law_no_stage_of_a_task_is_left_out(
    tasks: Seq<DownloadTask>,
    run: RunView,
    event: PlanEvent,
)
    requires
        0 <= run.task < tasks.len() <= usize::MAX,
    ensures
        ({
            let (next, actions) = run_step(tasks, run, event);
            let task = tasks[run.task];
            &&& run.stage is Inspecting ==> (event matches PlanEvent::Inspected(existing) ==> {
                &&& reuses(task, existing) == Ok::<bool, ErrorView>(true) ==> next.task == run.task
                    + 1 && actions[0] == PlanAction::Report(
                    ProgressEvent::TaskSkipped {
                        label: task.label,
                        reason: if task.checksum is Some {
                            SkipReason::ChecksumMatched
                        } else {
                            SkipReason::FileExistsWithoutChecksum
                        },
                    },
                )
                &&& reuses(task, existing) == Ok::<bool, ErrorView>(false) ==> next.task == run.task
                    && next.stage is Preparing && actions[0] == PlanAction::Report(
                    ProgressEvent::TaskStarted { label: task.label, path: task.destination },
                )
                &&& reuses(task, existing) matches Err(error) ==> next.stage == StageView::Aborted(
                    error,
                ) && actions == seq![PlanAction::Finish]
            })
            &&& run.stage is Preparing && event is Done ==> next.stage is Opening
            &&& run.stage is Preparing ==> (event matches PlanEvent::Failed(error) ==> next.stage
                == StageView::Aborted(error@) && actions == seq![PlanAction::Finish])
            &&& run.stage is Opening ==> (event matches PlanEvent::Opened { total } ==> next.stage
                == StageView::Receiving { received: 0, total })
            &&& run.stage is Verifying ==> (event matches PlanEvent::Contents(bytes) ==> {
                &&& matches_checksum(task, bytes@) ==> next.stage is Publishing
                &&& !matches_checksum(task, bytes@) ==> next.stage is Aborted
            })
            &&& run.stage is Publishing && event is Done ==> next.task == run.task + 1 && actions[0]
                == PlanAction::Report(ProgressEvent::TaskFinished { label: task.label })
            &&& next.task == run.task + 1 && next.task < tasks.len() ==> next.stage is Inspecting
            &&& next.task == tasks.len() ==> next.stage is Completed
        }),
{
}

/// What arrives is counted and told, with the size that the server named; an empty
/// part ends the payload, which is verified where the task has a checksum.
pub proof fn law_received_bytes_are_counted(
    tasks: Seq<DownloadTask>,
    run: RunView,
    count: u32,
    received: u64,
    total: Option<u64>,
)
    requires
        0 <= run.task < tasks.len() <= usize::MAX,
        run.stage == (StageView::Receiving { received, total }),
        received + count <= u64::MAX,
    ensures
        ({
            let (next, actions) = run_step(tasks, run, PlanEvent::Chunk { count });
            let sum = (received + count) as u64;
            &&& next.task == run.task
            &&& count > 0 ==> next.stage == (StageView::Receiving { received: sum, total })
                && actions[0] == PlanAction::Report(
                ProgressEvent::BytesReceived { label: tasks[run.task].label, received: sum, total },
            )
            &&& count == 0 && tasks[run.task].checksum is Some ==> next.stage is Verifying
            &&& count == 0 && tasks[run.task].checksum is None ==> next.stage is Publishing
        }),
{
}

/// What is said of a payload that does not have its checksum: the destination, the
/// digest that was asked for and the one that the payload has. The destination is
/// not touched.
pub proof fn law_wrong_payload_is_told(
    tasks: Seq<DownloadTask>,
    run: RunView,
    bytes: Vec<u8>,
    named: String,
)
    requires
        0 <= run.task < tasks.len() <= usize::MAX,
        run.stage is Verifying,
        !matches_checksum(tasks[run.task], bytes@),
    ensures
        ({
            let (next, actions) = run_step(tasks, run, PlanEvent::Contents(bytes));
            let task = tasks[run.task];
            &&& actions == seq![
                PlanAction::Discard { task: run.task as usize },
                PlanAction::Finish,
            ]
            &&& task.checksum == Some(Checksum::Sha1(named)) ==> next.stage == StageView::Aborted(
                ErrorView::ChecksumMismatch {
                    path: task.destination@,
                    expected: named@,
                    actual: checksum::sha1_digest(bytes@),
                },
            )
            &&& task.checksum == Some(Checksum::Sha256(named)) ==> next.stage == StageView::Aborted(
                ErrorView::ChecksumMismatch {
                    path: task.destination@,
                    expected: named@,
                    actual: checksum::sha256_digest(bytes@),
                },
            )
        }),
{
}

} // verus!
