//! The service stop orchestrator: a specialization of the deploy update
//! path that forces the desired replica count to zero and registers
//! nothing.  Stopping a service that does not exist is a no-op success, and
//! no remote mutation is requested for it.
use vstd::prelude::*;

use crate::command::ecs;
use crate::command::error::CommandError;
use crate::config;

verus! {

/// Options of the stop orchestrator.
#[derive(Debug, Clone, PartialEq, Eq, Structural)]
pub struct ExecuterOptions {
    pub no_wait: bool,
}

/// The phase of the stop orchestrator.
#[derive(Debug, Clone, Copy, PartialEq, Eq, Structural)]
pub enum StopPhase {
    Init,
    DescribingService,
    DescribingTaskDefinition,
    Updating,
    Done,
    Failed,
}

/// What the orchestrator hears back from the control plane.
#[derive(Debug, Clone, PartialEq)]
pub enum StopEvent {
    Start,
    ServicesDescribed(Option<Vec<ecs::Service>>),
    TaskDefinitionDescribed(Option<ecs::TaskDefinition>),
    ServiceUpdated(Option<ecs::Service>),
}

/// What the orchestrator asks for next.  The update request carries the
/// desired replica count it was decided with; the driver reads everything
/// else from the configuration entry and the resolved `task_definition_arn`.
#[derive(Debug, Clone, PartialEq)]
pub enum StopAction {
    DescribeService,
    DescribeTaskDefinition,
    UpdateService { desired_count: Option<i64> },
    Succeed,
    Fail(CommandError),
}

/// The stop orchestrator: a state machine from control-plane answers to the
/// next remote request.
#[derive(Debug, Clone, PartialEq)]
pub struct Executer {
    pub config: config::command::ServiceConfig,
    pub options: ExecuterOptions,
    pub phase: StopPhase,
    /// The ARN of the latest registered revision, once known.
    pub task_definition_arn: Option<String>,
    /// Whether an update request has been issued.
    pub updated: bool,
}

/// Which events answer which phase.
pub open spec fn spec_stop_expects(phase: StopPhase, event: StopEvent) -> bool {
    match phase {
        StopPhase::Init => event is Start,
        StopPhase::DescribingService => event is ServicesDescribed,
        StopPhase::DescribingTaskDefinition => event is TaskDefinitionDescribed,
        StopPhase::Updating => event is ServiceUpdated,
        StopPhase::Done => false,
        StopPhase::Failed => false,
    }
}

/// One transition of the stop orchestrator.
pub open spec fn spec_stop_step(pre: Executer, event: StopEvent) -> (Executer, StopAction) {
    match event {
        StopEvent::Start => (
            Executer { phase: StopPhase::DescribingService, ..pre },
            StopAction::DescribeService,
        ),
        StopEvent::ServicesDescribed(services) => {
            match services {
                None => (
                    Executer { phase: StopPhase::Failed, ..pre },
                    StopAction::Fail(CommandError::Unknown),
                ),
                Some(list) => if ecs::spec_first_active_service(list@) is None {
                    (Executer { phase: StopPhase::Done, ..pre }, StopAction::Succeed)
                } else {
                    (
                        Executer { phase: StopPhase::DescribingTaskDefinition, ..pre },
                        StopAction::DescribeTaskDefinition,
                    )
                },
            }
        },
        StopEvent::TaskDefinitionDescribed(td) => {
            match td {
                None => (
                    Executer { phase: StopPhase::Failed, ..pre },
                    StopAction::Fail(CommandError::Unknown),
                ),
                Some(t) => match t.task_definition_arn {
                    None => (
                        Executer { phase: StopPhase::Failed, ..pre },
                        StopAction::Fail(CommandError::Unknown),
                    ),
                    Some(arn) => (
                        Executer {
                            phase: StopPhase::Updating,
                            task_definition_arn: Some(arn),
                            updated: true,
                            ..pre
                        },
                        StopAction::UpdateService { desired_count: Some(0) },
                    ),
                },
            }
        },
        StopEvent::ServiceUpdated(service) => {
            match service {
                None => (
                    Executer { phase: StopPhase::Failed, ..pre },
                    StopAction::Fail(CommandError::Unknown),
                ),
                Some(_) => (Executer { phase: StopPhase::Done, ..pre }, StopAction::Succeed),
            }
        },
    }
}

impl Executer {
    /// A fresh stop orchestrator for one configuration entry.
    pub fn from_config(config: config::command::ServiceConfig, options: ExecuterOptions) -> (e:
        Executer)
        ensures
            e.config == config,
            e.options == options,
            e.phase == StopPhase::Init,
            e.task_definition_arn is None,
            !e.updated,
    {
        Executer {
            config,
            options,
            phase: StopPhase::Init,
            task_definition_arn: None,
            updated: false,
        }
    }

    /// Whether the orchestrator still expects an event.
    pub fn is_terminal(&self) -> (r: bool)
        ensures
            r == (self.phase is Done || self.phase is Failed),
    {
        match self.phase {
            StopPhase::Done => true,
            StopPhase::Failed => true,
            _ => false,
        }
    }

    /// Feeds the answer to the last request in and hands the next request
    /// out.
    pub fn step(&mut self, event: StopEvent) -> (r: StopAction)
        requires
            spec_stop_expects(old(self).phase, event),
        ensures
            *final(self) == spec_stop_step(*old(self), event).0,
            r == spec_stop_step(*old(self), event).1,
    {
        match event {
            StopEvent::Start => {
                self.phase = StopPhase::DescribingService;
                StopAction::DescribeService
            },
            StopEvent::ServicesDescribed(services) => {
                match services {
                    None => {
                        self.phase = StopPhase::Failed;
                        StopAction::Fail(CommandError::Unknown)
                    },
                    Some(list) => {
                        match ecs::first_active_service(&list) {
                            None => {
                                self.phase = StopPhase::Done;
                                StopAction::Succeed
                            },
                            Some(_) => {
                                self.phase = StopPhase::DescribingTaskDefinition;
                                StopAction::DescribeTaskDefinition
                            },
                        }
                    },
                }
            },
            StopEvent::TaskDefinitionDescribed(td) => {
                match td {
                    None => {
                        self.phase = StopPhase::Failed;
                        StopAction::Fail(CommandError::Unknown)
                    },
                    Some(t) => {
                        match t.task_definition_arn {
                            None => {
                                self.phase = StopPhase::Failed;
                                StopAction::Fail(CommandError::Unknown)
                            },
                            Some(arn) => {
                                self.phase = StopPhase::Updating;
                                self.task_definition_arn = Some(arn);
                                self.updated = true;
                                StopAction::UpdateService { desired_count: Some(0) }
                            },
                        }
                    },
                }
            },
            StopEvent::ServiceUpdated(service) => {
                match service {
                    None => {
                        self.phase = StopPhase::Failed;
                        StopAction::Fail(CommandError::Unknown)
                    },
                    Some(_) => {
                        self.phase = StopPhase::Done;
                        StopAction::Succeed
                    },
                }
            },
        }
    }
}

/// Stopping a service that does not exist succeeds without requesting any
/// remote mutation: when the describe answer holds no ACTIVE service, the
/// orchestrator reports success at once and its update flag stays off.
pub proof fn lemma_stop_nonexistent_service_is_noop(pre: Executer, list: Vec<ecs::Service>)
    requires
        pre.phase is DescribingService,
        !pre.updated,
        ecs::spec_first_active_service(list@) is None,
    ensures
        spec_stop_step(pre, StopEvent::ServicesDescribed(Some(list))).1 == StopAction::Succeed,
        !spec_stop_step(pre, StopEvent::ServicesDescribed(Some(list))).0.updated,
        spec_stop_step(pre, StopEvent::ServicesDescribed(Some(list))).0.phase is Done,
{
}

/// The only mutation the stop orchestrator ever requests is the update that
/// forces the desired replica count to zero.
pub proof fn lemma_stop_updates_to_zero(pre: Executer, event: StopEvent)
    requires
        spec_stop_expects(pre.phase, event),
    ensures
        spec_stop_step(pre, event).1 matches StopAction::UpdateService { desired_count }
            ==> desired_count == Some(0i64),
{
}

} // verus!
