//! Decisions of the platform's main loop and of the watchers of its task
//! pools: what each event leads to and what is logged of it.
use vstd::prelude::*;
use crate::error::{Error, error_text};
use crate::logger::LogLevel;

verus! {

/// How a task of a pool ended.
pub enum TaskOutcome {
    /// The task returned `Ok`.
    Completed,
    /// The task returned an error.
    Failed(Error),
    /// The task could not be joined; the text describes why.
    JoinFailed(String),
}

/// What the watcher of a pool does when a task ends: the record it logs and
/// whether it aborts every other task of the pool.
pub struct TaskReport {
    pub level: LogLevel,
    pub text: String,
    pub abort_all: bool,
}

/// The text logged for an outcome; `failed_prefix` starts the text of a
/// failed task.
pub open spec fn report_text(outcome: TaskOutcome, failed_prefix: Seq<char>) -> Seq<char> {
    match outcome {
        TaskOutcome::Completed => "Task completed"@,
        TaskOutcome::Failed(e) => failed_prefix + error_text(e),
        TaskOutcome::JoinFailed(why) => "Join failed: "@ + why@,
    }
}

/// The report of the end of a task: a completed task is logged as a warning;
/// a failed one as an error, and the pool is aborted; one that could not be
/// joined as an error, and the pool goes on.
pub fn task_report(outcome: &TaskOutcome, failed_prefix: &str) -> (r: TaskReport)
    ensures
        r.text@ == report_text(*outcome, failed_prefix@),
        r.level == (if *outcome is Completed { LogLevel::Warn } else { LogLevel::Error }),
        r.abort_all == (*outcome is Failed),
{
    match outcome {
        TaskOutcome::Completed => TaskReport { level: LogLevel::Warn, text: String::from_str("Task completed"), abort_all: false },
        TaskOutcome::Failed(e) => {
            let mut text = String::from_str(failed_prefix);
            text.append(e.message());
            TaskReport { level: LogLevel::Error, text, abort_all: true }
        },
        TaskOutcome::JoinFailed(why) => {
            let mut text = String::from_str("Join failed: ");
            text.append(why.as_str());
            TaskReport { level: LogLevel::Error, text, abort_all: false }
        },
    }
}

/// What wakes the main loop of the platform.
#[derive(Debug, Clone, Copy, PartialEq, Eq, Structural)]
pub enum PlatformEvent {
    /// The user pressed ctrl-c.
    UserInterrupt,
    /// A task was sent to the main pool.
    MainTaskRequested,
    /// A task was sent to the device pool.
    DeviceTaskRequested,
    /// Every task of the main pool has ended.
    AllMainTasksEnded,
}

/// What the main loop does next.
#[derive(Debug, Clone, Copy, PartialEq, Eq, Structural)]
pub enum PlatformStep {
    AbortAllMainTasks,
    SpawnMainTask,
    SpawnDeviceTask,
    Stop,
}

/// The step that the main loop takes on an event.
pub open spec fn platform_step_view(event: PlatformEvent) -> PlatformStep {
    match event {
        PlatformEvent::UserInterrupt => PlatformStep::AbortAllMainTasks,
        PlatformEvent::MainTaskRequested => PlatformStep::SpawnMainTask,
        PlatformEvent::DeviceTaskRequested => PlatformStep::SpawnDeviceTask,
        PlatformEvent::AllMainTasksEnded => PlatformStep::Stop,
    }
}

/// The warning logged on an event, when there is one.
pub open spec fn platform_warning_view(event: PlatformEvent) -> Option<Seq<char>> {
    match event {
        PlatformEvent::UserInterrupt => Some("User ctrl-c, abort requested"@),
        PlatformEvent::AllMainTasksEnded => Some("All tasks completed, stop the platform"@),
        _ => None,
    }
}

/// The step of the main loop on `event`, and the warning it logs: a ctrl-c
/// aborts the main tasks, a requested task is spawned in its pool, and the
/// loop stops once all main tasks have ended, and only then.
pub fn platform_step(event: PlatformEvent) -> (r: (PlatformStep, Option<&'static str>))
    ensures
        r.0 == platform_step_view(event),
        match (r.1, platform_warning_view(event)) {
            (Some(t), Some(w)) => t@ == w,
            (None, None) => true,
            _ => false,
        },
        r.0 == PlatformStep::Stop <==> event == PlatformEvent::AllMainTasksEnded,
{
    match event {
        PlatformEvent::UserInterrupt => (PlatformStep::AbortAllMainTasks, Some("User ctrl-c, abort requested")),
        PlatformEvent::MainTaskRequested => (PlatformStep::SpawnMainTask, None),
        PlatformEvent::DeviceTaskRequested => (PlatformStep::SpawnDeviceTask, None),
        PlatformEvent::AllMainTasksEnded => (PlatformStep::Stop, Some("All tasks completed, stop the platform")),
    }
}

} // verus!
