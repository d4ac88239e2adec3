//! The scheduled-task put orchestrator: resolve the target cluster's ARN,
//! register the task-definition revision, upsert the rule, then upsert its
//! single execution target under the deterministic identifier, embedding
//! the resolved cluster and task-definition ARNs.  Both remote puts are
//! create-or-replace calls, so re-running the whole put is idempotent.
use vstd::prelude::*;

use crate::command::cloudwatch_events;
use crate::command::ecs;
use crate::command::error::CommandError;
use crate::config;

verus! {

/// The phase of the put orchestrator.
#[derive(Debug, Clone, Copy, PartialEq, Eq, Structural)]
pub enum PutPhase {
    Init,
    DescribingCluster,
    Registering,
    PuttingRule,
    PuttingTarget,
    Done,
    Failed,
}

/// What the orchestrator hears back from the two control planes.
#[derive(Debug, Clone, PartialEq)]
pub enum PutEvent {
    Start,
    ClustersDescribed(Option<Vec<ecs::Cluster>>),
    TaskDefinitionRegistered(Option<ecs::TaskDefinition>),
    RulePut,
    TargetPut,
}

/// What the orchestrator asks for next.  The driver reads the requests'
/// parameters from the orchestrator: the configuration entry, the resolved
/// `cluster_arn` and `task_definition_arn`, and `target_id` for the put of
/// the target.
#[derive(Debug, Clone, PartialEq)]
pub enum PutAction {
    DescribeCluster,
    RegisterTaskDefinition,
    PutRule,
    PutTarget,
    Succeed,
    Fail(CommandError),
}

/// The put orchestrator: a state machine from control-plane answers to the
/// next remote request.
#[derive(Debug, Clone, PartialEq)]
pub struct Executer {
    pub config: config::command::ScheduleTaskConfig,
    pub phase: PutPhase,
    /// The ARN of the ACTIVE cluster the target will point at, once known.
    pub cluster_arn: Option<String>,
    /// The ARN of the registered revision, once known.
    pub task_definition_arn: Option<String>,
}

/// Which events answer which phase.
pub open spec fn spec_put_expects(phase: PutPhase, event: PutEvent) -> bool {
    match phase {
        PutPhase::Init => event is Start,
        PutPhase::DescribingCluster => event is ClustersDescribed,
        PutPhase::Registering => event is TaskDefinitionRegistered,
        PutPhase::PuttingRule => event is RulePut,
        PutPhase::PuttingTarget => event is TargetPut,
        PutPhase::Done => false,
        PutPhase::Failed => false,
    }
}

/// The machine's invariant: the rule and its target are only ever put once
/// both ARNs the target embeds have been resolved.
pub open spec fn spec_put_inv(e: Executer) -> bool {
    &&& ((e.phase is PuttingRule || e.phase is PuttingTarget) ==> e.cluster_arn is Some
        && e.task_definition_arn is Some)
    &&& (e.phase is Registering ==> e.cluster_arn is Some)
}

/// One transition of the put orchestrator.
pub open spec fn spec_put_step(pre: Executer, event: PutEvent) -> (Executer, PutAction) {
    match event {
        PutEvent::Start => (
            Executer { phase: PutPhase::DescribingCluster, ..pre },
            PutAction::DescribeCluster,
        ),
        PutEvent::ClustersDescribed(cs) => {
            match cs {
                None => (
                    Executer { phase: PutPhase::Failed, ..pre },
                    PutAction::Fail(CommandError::Unknown),
                ),
                Some(list) => match ecs::spec_first_active_cluster(list@) {
                    None => (
                        Executer { phase: PutPhase::Failed, ..pre },
                        PutAction::Fail(CommandError::Unknown),
                    ),
                    Some(i) => match list@[i].cluster_arn {
                        None => (
                            Executer { phase: PutPhase::Failed, ..pre },
                            PutAction::Fail(CommandError::Unknown),
                        ),
                        Some(arn) => (
                            Executer {
                                phase: PutPhase::Registering,
                                cluster_arn: Some(arn),
                                ..pre
                            },
                            PutAction::RegisterTaskDefinition,
                        ),
                    },
                },
            }
        },
        PutEvent::TaskDefinitionRegistered(td) => {
            match td {
                None => (
                    Executer { phase: PutPhase::Failed, ..pre },
                    PutAction::Fail(CommandError::Unknown),
                ),
                Some(t) => match t.task_definition_arn {
                    None => (
                        Executer { phase: PutPhase::Failed, ..pre },
                        PutAction::Fail(CommandError::Unknown),
                    ),
                    Some(arn) => (
                        Executer {
                            phase: PutPhase::PuttingRule,
                            task_definition_arn: Some(arn),
                            ..pre
                        },
                        PutAction::PutRule,
                    ),
                },
            }
        },
        PutEvent::RulePut => (
            Executer { phase: PutPhase::PuttingTarget, ..pre },
            PutAction::PutTarget,
        ),
        PutEvent::TargetPut => (Executer { phase: PutPhase::Done, ..pre }, PutAction::Succeed),
    }
}

impl Executer {
    /// A fresh put orchestrator for one configuration entry.
    pub fn from_config(config: config::command::ScheduleTaskConfig) -> (e: Executer)
        ensures
            e.config == config,
            e.phase == PutPhase::Init,
            e.cluster_arn is None,
            e.task_definition_arn is None,
            spec_put_inv(e),
    {
        Executer { config, phase: PutPhase::Init, cluster_arn: None, task_definition_arn: None }
    }

    /// Whether the orchestrator still expects an event.
    pub fn is_terminal(&self) -> (r: bool)
        ensures
            r == (self.phase is Done || self.phase is Failed),
    {
        match self.phase {
            PutPhase::Done => true,
            PutPhase::Failed => true,
            _ => false,
        }
    }

    /// The deterministic identifier under which the rule's single target is
    /// put: the rule's name followed by `_target_1`.
    pub fn target_id(&self) -> (id: String)
        ensures
            id@ == cloudwatch_events::spec_auto_generated_target_id(self.config.rule.name@),
    {
        cloudwatch_events::auto_generated_target_id(&self.config.rule)
    }

    /// Feeds the answer to the last request in and hands the next request
    /// out.
    pub fn step(&mut self, event: PutEvent) -> (r: PutAction)
        requires
            spec_put_expects(old(self).phase, event),
        ensures
            *final(self) == spec_put_step(*old(self), event).0,
            r == spec_put_step(*old(self), event).1,
    {
        match event {
            PutEvent::Start => {
                self.phase = PutPhase::DescribingCluster;
                PutAction::DescribeCluster
            },
            PutEvent::ClustersDescribed(cs) => {
                match cs {
                    None => {
                        self.phase = PutPhase::Failed;
                        PutAction::Fail(CommandError::Unknown)
                    },
                    Some(mut list) => {
                        match ecs::first_active_cluster(&list) {
                            None => {
                                self.phase = PutPhase::Failed;
                                PutAction::Fail(CommandError::Unknown)
                            },
                            Some(i) => {
                                let c = list.remove(i);
                                match c.cluster_arn {
                                    None => {
                                        self.phase = PutPhase::Failed;
                                        PutAction::Fail(CommandError::Unknown)
                                    },
                                    Some(arn) => {
                                        self.phase = PutPhase::Registering;
                                        self.cluster_arn = Some(arn);
                                        PutAction::RegisterTaskDefinition
                                    },
                                }
                            },
                        }
                    },
                }
            },
            PutEvent::TaskDefinitionRegistered(td) => {
                match td {
                    None => {
                        self.phase = PutPhase::Failed;
                        PutAction::Fail(CommandError::Unknown)
                    },
                    Some(t) => {
                        match t.task_definition_arn {
                            None => {
                                self.phase = PutPhase::Failed;
                                PutAction::Fail(CommandError::Unknown)
                            },
                            Some(arn) => {
                                self.phase = PutPhase::PuttingRule;
                                self.task_definition_arn = Some(arn);
                                PutAction::PutRule
                            },
                        }
                    },
                }
            },
            PutEvent::RulePut => {
                self.phase = PutPhase::PuttingTarget;
                PutAction::PutTarget
            },
            PutEvent::TargetPut => {
                self.phase = PutPhase::Done;
                PutAction::Succeed
            },
        }
    }
}

/// The scheduled-task put subcommand: selects the entries of the
/// scheduled-task group that carry the requested name, or all of them.
pub struct Command<'c> {
    pub config: &'c config::command::Config,
    pub name: Option<&'c str>,
    pub all: bool,
}

impl<'c> Command<'c> {
    /// A put command for one named entry, or for all of them.
    pub fn new(config: &'c config::command::Config, name: Option<&'c str>, all: bool) -> (c:
        Command<'c>)
        ensures
            c.config == config,
            crate::command::select::spec_target_view(c.name)
                == crate::command::select::spec_target_view(name),
            c.all == all,
    {
        Command { config, name, all }
    }

    /// The positions of the entries this command processes, in
    /// configuration order: those whose name is the requested one, or every
    /// entry when all of them were asked for.
    pub fn run(&self) -> (r: Vec<usize>)
        ensures
            match self.config.schedule_task {
                Some(g) => {
                    let sel = crate::command::select::spec_selected(
                        crate::command::schedule_task::spec_schedule_task_names(g@),
                        crate::command::select::spec_target_view(self.name),
                        self.all,
                    );
                    r@.len() == sel.len() && forall|k: int|
                        0 <= k < r@.len() ==> r@[k] as int == sel[k]
                },
                None => r@.len() == 0,
            },
    {
        match &self.config.schedule_task {
            Some(group) => {
                let names = crate::command::schedule_task::schedule_task_group_names(group);
                crate::command::select::select_by_name(&names, self.name, self.all)
            },
            None => Vec::new(),
        }
    }
}

/// The earlier form of the scheduled-task put subcommand, selecting by
/// required name.
pub struct ScheduleTaskPutCommand<'c> {
    pub config: &'c config::command::Config,
    pub name: &'c str,
}

impl<'c> ScheduleTaskPutCommand<'c> {
    /// A put command for one named entry.
    pub fn new(config: &'c config::command::Config, name: &'c str) -> (c: ScheduleTaskPutCommand<
        'c,
    >)
        ensures
            c.config == config,
            c.name@ == name@,
    {
        ScheduleTaskPutCommand { config, name }
    }

    /// The positions of the entries this command processes, in
    /// configuration order: exactly those whose name is the requested one.
    pub fn run(&self) -> (r: Vec<usize>)
        ensures
            match self.config.schedule_task {
                Some(g) => {
                    let sel = crate::command::select::spec_selected(
                        crate::command::schedule_task::spec_schedule_task_names(g@),
                        Some(self.name@),
                        false,
                    );
                    r@.len() == sel.len() && forall|k: int|
                        0 <= k < r@.len() ==> r@[k] as int == sel[k]
                },
                None => r@.len() == 0,
            },
    {
        match &self.config.schedule_task {
            Some(group) => {
                let names = crate::command::schedule_task::schedule_task_group_names(group);
                crate::command::select::select_by_name(&names, Some(self.name), false)
            },
            None => Vec::new(),
        }
    }
}

/// Every step keeps the machine's invariant: the rule and its target are
/// only ever put with the cluster and task-definition ARNs resolved, and
/// in that order — cluster, revision, rule, target.
pub proof fn lemma_put_requires_resolved_arns(pre: Executer, event: PutEvent)
    requires
        spec_put_expects(pre.phase, event),
        spec_put_inv(pre),
    ensures
        spec_put_inv(spec_put_step(pre, event).0),
        spec_put_step(pre, event).1 == PutAction::PutRule ==> {
            let post = spec_put_step(pre, event).0;
            post.cluster_arn is Some && post.task_definition_arn is Some
        },
        spec_put_step(pre, event).1 == PutAction::PutTarget ==> pre.cluster_arn is Some
            && pre.task_definition_arn is Some,
{
}

} // verus!
