//! The one-off task orchestrator: register a task-definition revision, launch
//! exactly one task instance, and poll until it terminates.  The outcome of
//! every poll tick is classified by `check_stopped`; the checks short-circuit
//! in a fixed order, each one yielding a more specific diagnostic than the
//! next: scheduling failure, then instance presence, then lifecycle status,
//! then the stop reason, then the essential container's exit code.
use vstd::prelude::*;

use crate::command::ecs;
use crate::command::ecs::TaskDescription;
use crate::command::select;
use crate::config;
use crate::text::i64_to_string;
use crate::text::spec_i64_string;
use crate::text::str_eq;

verus! {

/// Options of the one-off task orchestrator.
#[derive(Debug, Clone, PartialEq, Eq, Structural)]
pub struct ExecuterOptions {
    pub no_wait: bool,
}

/// Why a one-off task run counts as failed.
#[derive(Debug, Clone, PartialEq)]
pub enum TaskFailure {
    /// The control plane could not place the task at all.
    Scheduling { reason: Option<String> },
    /// A poll answered with no task instance.
    TaskMissing,
    /// The task instance carries no lifecycle status.
    StatusMissing,
    /// The task stopped for another reason than its essential container
    /// exiting: it was stopped externally or abnormally.
    AbnormalStop { reason: String },
    /// The stopped task reports no containers.
    ContainerMissing,
    /// The essential container exited with a code other than zero.
    NonzeroExit { code: i64 },
    /// The essential container stopped without an exit code; its free-text
    /// reason is the diagnostic.
    NoExitCode { reason: Option<String> },
    /// The registered task definition came back without its ARN.
    TaskDefinitionArnMissing,
    /// The launched task instance carries no ARN to poll for.
    TaskArnMissing,
}

/// The view of an optional string, empty when absent.
pub open spec fn spec_opt_text(o: Option<String>) -> Seq<char> {
    match o {
        Some(s) => s@,
        None => Seq::empty(),
    }
}

/// The diagnostic text of each failure.
pub open spec fn spec_failure_message(f: TaskFailure) -> Seq<char> {
    match f {
        TaskFailure::Scheduling { reason } => "Finished task with error :"@ + spec_opt_text(reason),
        TaskFailure::TaskMissing => "No task found"@,
        TaskFailure::StatusMissing => "Unexpected error occurred"@,
        TaskFailure::AbnormalStop { reason } => "The task stopped with reason: "@ + reason@,
        TaskFailure::ContainerMissing => "Unexpected error occurred"@,
        TaskFailure::NonzeroExit { code } => "The container in the task exited with code: "@
            + spec_i64_string(code),
        TaskFailure::NoExitCode { reason } => "Failed running task by some reason: "@
            + spec_opt_text(reason),
        TaskFailure::TaskDefinitionArnMissing => "Unexpected error occurred"@,
        TaskFailure::TaskArnMissing => "Unexpected error occurred"@,
    }
}

impl TaskFailure {
    /// Renders the diagnostic for this failure.
    pub fn message(&self) -> (msg: String)
        ensures
            msg@ == spec_failure_message(*self),
    {
        match self {
            TaskFailure::Scheduling { reason } => {
                let mut msg = "Finished task with error :".to_owned();
                match reason {
                    Some(r) => msg.append(r.as_str()),
                    None => (),
                }
                proof {
                    if reason is None {
                        assert(msg@ =~= spec_failure_message(*self));
                    }
                }
                msg
            },
            TaskFailure::TaskMissing => "No task found".to_owned(),
            TaskFailure::AbnormalStop { reason } => {
                let mut msg = "The task stopped with reason: ".to_owned();
                msg.append(reason.as_str());
                msg
            },
            TaskFailure::NonzeroExit { code } => {
                let mut msg = "The container in the task exited with code: ".to_owned();
                msg.append(i64_to_string(*code).as_str());
                msg
            },
            TaskFailure::NoExitCode { reason } => {
                let mut msg = "Failed running task by some reason: ".to_owned();
                match reason {
                    Some(r) => msg.append(r.as_str()),
                    None => (),
                }
                proof {
                    if reason is None {
                        assert(msg@ =~= spec_failure_message(*self));
                    }
                }
                msg
            },
            TaskFailure::StatusMissing => "Unexpected error occurred".to_owned(),
            TaskFailure::ContainerMissing => "Unexpected error occurred".to_owned(),
            TaskFailure::TaskDefinitionArnMissing => "Unexpected error occurred".to_owned(),
            TaskFailure::TaskArnMissing => "Unexpected error occurred".to_owned(),
        }
    }
}

/// The verdict of one poll tick.
#[derive(Debug, Clone, PartialEq)]
pub enum TaskCheck {
    /// The essential container exited with code zero: success, stop polling.
    Stopped,
    /// Not yet terminal; `task_arn` is the instance's handle, if it reported
    /// one.
    Running { task_arn: Option<String> },
    /// Terminal failure.
    Failed(TaskFailure),
}

/// Classification of the essential container of a stopped task: the first
/// container in the list.  Exit code zero is success, any other exit code is
/// a failure naming it, a missing exit code is a failure carrying the
/// container's free-text reason, and a missing container list is the generic
/// failure.
pub open spec fn spec_classify_containers(containers: Option<Vec<ecs::Container>>) -> TaskCheck {
    match containers {
        Some(cs) => if cs@.len() > 0 {
            match cs@[0].exit_code {
                Some(code) => if code == 0 {
                    TaskCheck::Stopped
                } else {
                    TaskCheck::Failed(TaskFailure::NonzeroExit { code })
                },
                None => TaskCheck::Failed(TaskFailure::NoExitCode { reason: cs@[0].reason }),
            }
        } else {
            TaskCheck::Failed(TaskFailure::ContainerMissing)
        },
        None => TaskCheck::Failed(TaskFailure::ContainerMissing),
    }
}

/// The sentinel reason of a normal stop.
pub open spec fn spec_normal_stop_reason() -> Seq<char> {
    "Essential container in task exited"@
}

/// The verdict on one poll answer, in the fixed short-circuit order: a
/// scheduling failure beats everything; a missing instance beats status
/// checks; a status other than STOPPED means the task is still running; an
/// unexpected stop reason is an abnormal stop; otherwise the essential
/// container's exit code decides.
pub open spec fn spec_check_stopped(d: TaskDescription) -> TaskCheck {
    match d.failure {
        Some(f) => TaskCheck::Failed(TaskFailure::Scheduling { reason: f.reason }),
        None => match d.task {
            None => TaskCheck::Failed(TaskFailure::TaskMissing),
            Some(t) => match t.last_status {
                None => TaskCheck::Failed(TaskFailure::StatusMissing),
                Some(status) => if status@ != "STOPPED"@ {
                    TaskCheck::Running { task_arn: t.task_arn }
                } else {
                    match t.stopped_reason {
                        Some(r) => if r@ != spec_normal_stop_reason() {
                            TaskCheck::Failed(TaskFailure::AbnormalStop { reason: r })
                        } else {
                            spec_classify_containers(t.containers)
                        },
                        None => spec_classify_containers(t.containers),
                    }
                },
            },
        },
    }
}

fn classify_containers(containers: Option<Vec<ecs::Container>>) -> (r: TaskCheck)
    ensures
        r == spec_classify_containers(containers),
{
    match containers {
        Some(mut cs) => {
            if cs.len() > 0 {
                let c = cs.remove(0);
                match c.exit_code {
                    Some(code) => {
                        if code == 0 {
                            TaskCheck::Stopped
                        } else {
                            TaskCheck::Failed(TaskFailure::NonzeroExit { code })
                        }
                    },
                    None => TaskCheck::Failed(TaskFailure::NoExitCode { reason: c.reason }),
                }
            } else {
                TaskCheck::Failed(TaskFailure::ContainerMissing)
            }
        },
        None => TaskCheck::Failed(TaskFailure::ContainerMissing),
    }
}

/// Evaluates one poll answer against the termination state machine.
pub fn check_stopped(current_task: TaskDescription) -> (r: TaskCheck)
    ensures
        r == spec_check_stopped(current_task),
{
    let TaskDescription { task, failure } = current_task;
    if let Some(f) = failure {
        return TaskCheck::Failed(TaskFailure::Scheduling { reason: f.reason });
    }
    match task {
        None => TaskCheck::Failed(TaskFailure::TaskMissing),
        Some(t) => {
            let ecs::Task { task_arn, last_status, stopped_reason, containers } = t;
            match last_status {
                None => TaskCheck::Failed(TaskFailure::StatusMissing),
                Some(status) => {
                    if !str_eq(status.as_str(), "STOPPED") {
                        TaskCheck::Running { task_arn }
                    } else {
                        match stopped_reason {
                            Some(r) => {
                                if !str_eq(r.as_str(), "Essential container in task exited") {
                                    TaskCheck::Failed(TaskFailure::AbnormalStop { reason: r })
                                } else {
                                    classify_containers(containers)
                                }
                            },
                            None => classify_containers(containers),
                        }
                    }
                },
            }
        },
    }
}

/// A scheduling failure takes precedence over everything else the poll
/// answer carries: whatever the task instance reports, even a clean exit
/// with code zero, the verdict is that scheduling failure.
pub proof fn lemma_scheduling_failure_takes_precedence(d: TaskDescription)
    requires
        d.failure is Some,
    ensures
        spec_check_stopped(d) == TaskCheck::Failed(
            TaskFailure::Scheduling { reason: d.failure.unwrap().reason },
        ),
{
}

/// The phase of the one-off task orchestrator.
#[derive(Debug, Clone, Copy, PartialEq, Eq, Structural)]
pub enum RunTaskPhase {
    Init,
    Registering,
    Starting,
    Waiting,
    Done,
    Failed,
}

/// What the orchestrator hears back from the control plane.  A registration
/// answer of `None` stands for a reply that broke the call's promise of a
/// task definition.
#[derive(Debug, Clone, PartialEq)]
pub enum RunTaskEvent {
    Start,
    TaskDefinitionRegistered(Option<ecs::TaskDefinition>),
    TaskStarted(TaskDescription),
    TaskObserved(TaskDescription),
}

/// What the orchestrator asks for next.  The driver reads the request's
/// parameters from the orchestrator: the configuration entry, the registered
/// task-definition ARN and the launched task's ARN.  `DescribeTask` implies
/// waiting the poll interval first.
#[derive(Debug, Clone, PartialEq)]
pub enum RunTaskAction {
    RegisterTaskDefinition,
    RunTask,
    DescribeTask,
    Succeed,
    Fail(TaskFailure),
}

/// The one-off task orchestrator: a state machine from poll events to the
/// next remote request.
#[derive(Debug, Clone, PartialEq)]
pub struct Executer {
    pub config: config::command::RunTaskConfig,
    pub options: ExecuterOptions,
    pub phase: RunTaskPhase,
    /// The ARN of the revision registered for this run, once known.
    pub task_definition_arn: Option<String>,
    /// The ARN of the launched task instance, once known.
    pub task_arn: Option<String>,
}

/// Which events answer which phase.
pub open spec fn spec_run_task_expects(phase: RunTaskPhase, event: RunTaskEvent) -> bool {
    match phase {
        RunTaskPhase::Init => event is Start,
        RunTaskPhase::Registering => event is TaskDefinitionRegistered,
        RunTaskPhase::Starting => event is TaskStarted,
        RunTaskPhase::Waiting => event is TaskObserved,
        RunTaskPhase::Done => false,
        RunTaskPhase::Failed => false,
    }
}

/// The verdict-driven part of a step: what a poll answer does to the
/// orchestrator while it waits for the task to stop.
pub open spec fn spec_run_task_wait_step(pre: Executer, d: TaskDescription) -> (Executer,
    RunTaskAction,
) {
    match spec_check_stopped(d) {
        TaskCheck::Stopped => (Executer { phase: RunTaskPhase::Done, ..pre }, RunTaskAction::Succeed),
        TaskCheck::Failed(f) => (Executer { phase: RunTaskPhase::Failed, ..pre }, RunTaskAction::Fail(f)),
        TaskCheck::Running { task_arn: _ } => (
            Executer { phase: RunTaskPhase::Waiting, ..pre },
            RunTaskAction::DescribeTask,
        ),
    }
}

/// One transition of the orchestrator.
pub open spec fn spec_run_task_step(pre: Executer, event: RunTaskEvent) -> (Executer, RunTaskAction) {
    match event {
        RunTaskEvent::Start => (
            Executer { phase: RunTaskPhase::Registering, ..pre },
            RunTaskAction::RegisterTaskDefinition,
        ),
        RunTaskEvent::TaskDefinitionRegistered(td) => {
            match td {
                Some(t) => match t.task_definition_arn {
                    Some(arn) => (
                        Executer {
                            phase: RunTaskPhase::Starting,
                            task_definition_arn: Some(arn),
                            ..pre
                        },
                        RunTaskAction::RunTask,
                    ),
                    None => (
                        Executer { phase: RunTaskPhase::Failed, ..pre },
                        RunTaskAction::Fail(TaskFailure::TaskDefinitionArnMissing),
                    ),
                },
                None => (
                    Executer { phase: RunTaskPhase::Failed, ..pre },
                    RunTaskAction::Fail(TaskFailure::TaskDefinitionArnMissing),
                ),
            }
        },
        RunTaskEvent::TaskStarted(d) => {
            if pre.options.no_wait {
                (Executer { phase: RunTaskPhase::Done, ..pre }, RunTaskAction::Succeed)
            } else {
                match spec_check_stopped(d) {
                    TaskCheck::Stopped => (
                        Executer { phase: RunTaskPhase::Done, ..pre },
                        RunTaskAction::Succeed,
                    ),
                    TaskCheck::Failed(f) => (
                        Executer { phase: RunTaskPhase::Failed, ..pre },
                        RunTaskAction::Fail(f),
                    ),
                    TaskCheck::Running { task_arn } => match task_arn {
                        Some(arn) => (
                            Executer {
                                phase: RunTaskPhase::Waiting,
                                task_arn: Some(arn),
                                ..pre
                            },
                            RunTaskAction::DescribeTask,
                        ),
                        None => (
                            Executer { phase: RunTaskPhase::Failed, ..pre },
                            RunTaskAction::Fail(TaskFailure::TaskArnMissing),
                        ),
                    },
                }
            }
        },
        RunTaskEvent::TaskObserved(d) => spec_run_task_wait_step(pre, d),
    }
}

impl Executer {
    /// A fresh orchestrator for one configuration entry.
    pub fn from_config(config: config::command::RunTaskConfig, options: ExecuterOptions) -> (e:
        Executer)
        ensures
            e.config == config,
            e.options == options,
            e.phase == RunTaskPhase::Init,
            e.task_definition_arn is None,
            e.task_arn is None,
    {
        Executer {
            config,
            options,
            phase: RunTaskPhase::Init,
            task_definition_arn: None,
            task_arn: None,
        }
    }

    /// Whether the orchestrator still expects an event.
    pub fn is_terminal(&self) -> (r: bool)
        ensures
            r == (self.phase is Done || self.phase is Failed),
    {
        match self.phase {
            RunTaskPhase::Done => true,
            RunTaskPhase::Failed => true,
            _ => false,
        }
    }

    /// Feeds the answer to the last request in and hands the next request
    /// out.
    pub fn step(&mut self, event: RunTaskEvent) -> (r: RunTaskAction)
        requires
            spec_run_task_expects(old(self).phase, event),
        ensures
            *final(self) == spec_run_task_step(*old(self), event).0,
            r == spec_run_task_step(*old(self), event).1,
    {
        match event {
            RunTaskEvent::Start => {
                self.phase = RunTaskPhase::Registering;
                RunTaskAction::RegisterTaskDefinition
            },
            RunTaskEvent::TaskDefinitionRegistered(td) => {
                match td {
                    Some(t) => match t.task_definition_arn {
                        Some(arn) => {
                            self.phase = RunTaskPhase::Starting;
                            self.task_definition_arn = Some(arn);
                            RunTaskAction::RunTask
                        },
                        None => {
                            self.phase = RunTaskPhase::Failed;
                            RunTaskAction::Fail(TaskFailure::TaskDefinitionArnMissing)
                        },
                    },
                    None => {
                        self.phase = RunTaskPhase::Failed;
                        RunTaskAction::Fail(TaskFailure::TaskDefinitionArnMissing)
                    },
                }
            },
            RunTaskEvent::TaskStarted(d) => {
                if self.options.no_wait {
                    self.phase = RunTaskPhase::Done;
                    RunTaskAction::Succeed
                } else {
                    match check_stopped(d) {
                        TaskCheck::Stopped => {
                            self.phase = RunTaskPhase::Done;
                            RunTaskAction::Succeed
                        },
                        TaskCheck::Failed(f) => {
                            self.phase = RunTaskPhase::Failed;
                            RunTaskAction::Fail(f)
                        },
                        TaskCheck::Running { task_arn } => {
                            match task_arn {
                                Some(arn) => {
                                    self.phase = RunTaskPhase::Waiting;
                                    self.task_arn = Some(arn);
                                    RunTaskAction::DescribeTask
                                },
                                None => {
                                    self.phase = RunTaskPhase::Failed;
                                    RunTaskAction::Fail(TaskFailure::TaskArnMissing)
                                },
                            }
                        },
                    }
                }
            },
            RunTaskEvent::TaskObserved(d) => {
                match check_stopped(d) {
                    TaskCheck::Stopped => {
                        self.phase = RunTaskPhase::Done;
                        RunTaskAction::Succeed
                    },
                    TaskCheck::Failed(f) => {
                        self.phase = RunTaskPhase::Failed;
                        RunTaskAction::Fail(f)
                    },
                    TaskCheck::Running { task_arn: _ } => {
                        self.phase = RunTaskPhase::Waiting;
                        RunTaskAction::DescribeTask
                    },
                }
            },
        }
    }
}

/// While waiting, the orchestrator keeps polling exactly as long as the poll
/// answer is not terminal, and it never launches or registers anything
/// further: every poll is a read, against the task instance it launched.
pub proof fn lemma_wait_polls_until_terminal(pre: Executer, d: TaskDescription)
    requires
        pre.phase is Waiting,
    ensures
        spec_run_task_step(pre, RunTaskEvent::TaskObserved(d)).1 == RunTaskAction::DescribeTask
            <==> spec_check_stopped(d) is Running,
        spec_run_task_step(pre, RunTaskEvent::TaskObserved(d)).1 == RunTaskAction::Succeed
            <==> spec_check_stopped(d) is Stopped,
        !(spec_run_task_step(pre, RunTaskEvent::TaskObserved(d)).1
            is RegisterTaskDefinition) && !(spec_run_task_step(
            pre,
            RunTaskEvent::TaskObserved(d),
        ).1 is RunTask),
        spec_run_task_step(pre, RunTaskEvent::TaskObserved(d)).0.task_arn == pre.task_arn,
        spec_run_task_step(pre, RunTaskEvent::TaskObserved(d)).0.task_definition_arn
            == pre.task_definition_arn,
{
}

/// The names of the entries of a one-off task group, in order.
pub open spec fn spec_run_task_names(g: Seq<config::command::RunTaskConfig>) -> Seq<Seq<char>> {
    g.map_values(|c: config::command::RunTaskConfig| c.name@)
}

fn run_task_group_names(group: &Vec<config::command::RunTaskConfig>) -> (names: Vec<String>)
    ensures
        names.deep_view() == spec_run_task_names(group@),
{
    let mut names: Vec<String> = Vec::new();
    let mut i: usize = 0;
    while i < group.len()
        invariant
            0 <= i <= group@.len(),
            names@.len() == i,
            forall|j: int| 0 <= j < i ==> names@[j]@ == group@[j].name@,
        decreases group@.len() - i,
    {
        names.push(group[i].name.clone());
        i = i + 1;
    }
    proof {
        assert forall|j: int| 0 <= j < group@.len() implies names.deep_view()[j]
            == spec_run_task_names(group@)[j] by {
            assert(names.deep_view()[j] == names@[j]@);
        }
        assert(names.deep_view() =~= spec_run_task_names(group@));
    }
    names
}

/// The one-off task subcommand: selects the entries of the task group that
/// carry the requested name.
pub struct Command<'c> {
    pub config: &'c config::command::Config,
    pub name: &'c str,
    pub no_wait: bool,
}

impl<'c> Command<'c> {
    /// A run-task command for one named entry.
    pub fn new(config: &'c config::command::Config, name: &'c str, no_wait: bool) -> (c: Command<
        'c,
    >)
        ensures
            c.config == config,
            c.name@ == name@,
            c.no_wait == no_wait,
    {
        Command { config, name, no_wait }
    }

    /// The positions of the entries this command processes, in configuration
    /// order: exactly those whose name is the requested one.
    pub fn run(&self) -> (r: Vec<usize>)
        ensures
            match self.config.run_task {
                Some(g) => {
                    let sel = select::spec_selected(
                        spec_run_task_names(g@),
                        Some(self.name@),
                        false,
                    );
                    r@.len() == sel.len() && forall|k: int|
                        0 <= k < r@.len() ==> r@[k] as int == sel[k]
                },
                None => r@.len() == 0,
            },
    {
        match &self.config.run_task {
            Some(group) => {
                let names = run_task_group_names(group);
                select::select_by_name(&names, Some(self.name), false)
            },
            None => Vec::new(),
        }
    }
}

/// The earlier form of the one-off task subcommand, selecting by required
/// name with no waiting options.
pub struct RunTaskCommand<'c> {
    pub config: &'c config::command::Config,
    pub name: &'c str,
}

impl<'c> RunTaskCommand<'c> {
    /// A run-task command for one named entry.
    pub fn new(config: &'c config::command::Config, name: &'c str) -> (c: RunTaskCommand<'c>)
        ensures
            c.config == config,
            c.name@ == name@,
    {
        RunTaskCommand { config, name }
    }

    /// The positions of the entries this command processes, in configuration
    /// order.
    pub fn run(&self) -> (r: Vec<usize>)
        ensures
            match self.config.run_task {
                Some(g) => {
                    let sel = select::spec_selected(
                        spec_run_task_names(g@),
                        Some(self.name@),
                        false,
                    );
                    r@.len() == sel.len() && forall|k: int|
                        0 <= k < r@.len() ==> r@[k] as int == sel[k]
                },
                None => r@.len() == 0,
            },
    {
        match &self.config.run_task {
            Some(group) => {
                let names = run_task_group_names(group);
                select::select_by_name(&names, Some(self.name), false)
            },
            None => Vec::new(),
        }
    }
}

} // verus!
