//! The service deploy orchestrator: reconcile the task definition, create
//! the service when no ACTIVE one exists or update it in place when one
//! does, then poll until the PRIMARY deployment reports as many running
//! replicas as desired.
use vstd::prelude::*;

use crate::command::ecs;
use crate::command::error::CommandError;
use crate::command::select;
use crate::config;

verus! {

/// Options of the deploy orchestrator.
#[derive(Debug, Clone, PartialEq, Eq, Structural)]
pub struct ExecuterOptions {
    pub no_wait: bool,
}

/// The phase of the deploy orchestrator.
#[derive(Debug, Clone, Copy, PartialEq, Eq, Structural)]
pub enum DeployPhase {
    Init,
    DescribingTaskDefinition,
    Registering,
    DescribingService,
    Creating,
    Updating,
    Waiting,
    Done,
    Failed,
}

/// What the orchestrator hears back from the control plane.  A `None` in a
/// `TaskDefinitionDescribed` answer is the not-found signal; a `None` in any
/// other answer stands for a reply that broke the call's promise.
#[derive(Debug, Clone, PartialEq)]
pub enum DeployEvent {
    Start,
    TaskDefinitionDescribed(Option<ecs::TaskDefinition>),
    TaskDefinitionRegistered(Option<ecs::TaskDefinition>),
    ServicesDescribed(Option<Vec<ecs::Service>>),
    ServiceCreated(Option<ecs::Service>),
    ServiceUpdated(Option<ecs::Service>),
    ServiceObserved(Option<Vec<ecs::Service>>),
}

/// What the orchestrator asks for next.  The driver reads the request's
/// parameters from the orchestrator's configuration entry and its
/// `task_definition_arn`.  `PollService` implies waiting the poll interval
/// before the next describe.
#[derive(Debug, Clone, PartialEq)]
pub enum DeployAction {
    DescribeTaskDefinition,
    RegisterTaskDefinition,
    DescribeService,
    CreateService,
    UpdateService,
    PollService,
    Succeed,
    Fail(CommandError),
}

/// The deploy orchestrator: a state machine from control-plane answers to
/// the next remote request.  The three flags record which mutations have
/// been requested, so that the at-most-once guarantees are part of the
/// machine's state.
#[derive(Debug, Clone, PartialEq)]
pub struct Executer {
    pub config: config::command::ServiceConfig,
    pub options: ExecuterOptions,
    pub phase: DeployPhase,
    /// The ARN of the revision this deploy resolved, once known.
    pub task_definition_arn: Option<String>,
    /// Whether a register request has been issued.
    pub registered: bool,
    /// Whether a create request has been issued.
    pub created: bool,
    /// Whether an update request has been issued.
    pub updated: bool,
}

/// Which events answer which phase.
pub open spec fn spec_deploy_expects(phase: DeployPhase, event: DeployEvent) -> bool {
    match phase {
        DeployPhase::Init => event is Start,
        DeployPhase::DescribingTaskDefinition => event is TaskDefinitionDescribed,
        DeployPhase::Registering => event is TaskDefinitionRegistered,
        DeployPhase::DescribingService => event is ServicesDescribed,
        DeployPhase::Creating => event is ServiceCreated,
        DeployPhase::Updating => event is ServiceUpdated,
        DeployPhase::Waiting => event is ServiceObserved,
        DeployPhase::Done => false,
        DeployPhase::Failed => false,
    }
}

/// The machine's invariant: at most one of create and update is ever
/// requested, mutations only happen once the service has been described,
/// and a register is only requested before the task definition is resolved.
pub open spec fn spec_deploy_inv(e: Executer) -> bool {
    &&& !(e.created && e.updated)
    &&& ((e.created || e.updated) ==> (e.phase is Creating || e.phase is Updating
        || e.phase is Waiting || e.phase is Done || e.phase is Failed))
    &&& (e.registered ==> !(e.phase is Init || e.phase is DescribingTaskDefinition))
}

/// What the orchestrator does once it knows the task-definition ARN: ask for
/// the service's description.
pub open spec fn spec_deploy_with_arn(pre: Executer, arn: Option<String>) -> (Executer,
    DeployAction,
) {
    match arn {
        Some(a) => (
            Executer {
                phase: DeployPhase::DescribingService,
                task_definition_arn: Some(a),
                ..pre
            },
            DeployAction::DescribeService,
        ),
        None => (
            Executer { phase: DeployPhase::Failed, ..pre },
            DeployAction::Fail(CommandError::Unknown),
        ),
    }
}

/// What the orchestrator does right after its mutation went through: done at
/// once when asked not to wait, else start polling.
pub open spec fn spec_deploy_after_mutation(pre: Executer, service: Option<ecs::Service>) -> (
    Executer,
    DeployAction,
) {
    match service {
        Some(_) => if pre.options.no_wait {
            (Executer { phase: DeployPhase::Done, ..pre }, DeployAction::Succeed)
        } else {
            (Executer { phase: DeployPhase::Waiting, ..pre }, DeployAction::PollService)
        },
        None => (
            Executer { phase: DeployPhase::Failed, ..pre },
            DeployAction::Fail(CommandError::Unknown),
        ),
    }
}

/// One transition of the deploy orchestrator.
pub open spec fn spec_deploy_step(pre: Executer, event: DeployEvent) -> (Executer, DeployAction) {
    match event {
        DeployEvent::Start => (
            Executer { phase: DeployPhase::DescribingTaskDefinition, ..pre },
            DeployAction::DescribeTaskDefinition,
        ),
        DeployEvent::TaskDefinitionDescribed(td) => {
            match td {
                None => (
                    Executer { phase: DeployPhase::Registering, registered: true, ..pre },
                    DeployAction::RegisterTaskDefinition,
                ),
                Some(latest) => if ecs::spec_task_definition_changed(
                    pre.config.service.task_definition,
                    latest,
                ) {
                    (
                        Executer { phase: DeployPhase::Registering, registered: true, ..pre },
                        DeployAction::RegisterTaskDefinition,
                    )
                } else {
                    spec_deploy_with_arn(pre, latest.task_definition_arn)
                },
            }
        },
        DeployEvent::TaskDefinitionRegistered(td) => {
            match td {
                Some(t) => spec_deploy_with_arn(pre, t.task_definition_arn),
                None => (
                    Executer { phase: DeployPhase::Failed, ..pre },
                    DeployAction::Fail(CommandError::Unknown),
                ),
            }
        },
        DeployEvent::ServicesDescribed(services) => {
            match services {
                None => (
                    Executer { phase: DeployPhase::Failed, ..pre },
                    DeployAction::Fail(CommandError::Unknown),
                ),
                Some(list) => if ecs::spec_first_active_service(list@) is None {
                    (
                        Executer { phase: DeployPhase::Creating, created: true, ..pre },
                        DeployAction::CreateService,
                    )
                } else {
                    (
                        Executer { phase: DeployPhase::Updating, updated: true, ..pre },
                        DeployAction::UpdateService,
                    )
                },
            }
        },
        DeployEvent::ServiceCreated(service) => spec_deploy_after_mutation(pre, service),
        DeployEvent::ServiceUpdated(service) => spec_deploy_after_mutation(pre, service),
        DeployEvent::ServiceObserved(services) => {
            match services {
                None => (
                    Executer { phase: DeployPhase::Failed, ..pre },
                    DeployAction::Fail(CommandError::Unknown),
                ),
                Some(list) => match ecs::spec_first_active_service(list@) {
                    None => (
                        Executer { phase: DeployPhase::Failed, ..pre },
                        DeployAction::Fail(CommandError::Unknown),
                    ),
                    Some(i) => if ecs::spec_service_is_stable(list@[i]) {
                        (Executer { phase: DeployPhase::Done, ..pre }, DeployAction::Succeed)
                    } else {
                        (Executer { phase: DeployPhase::Waiting, ..pre }, DeployAction::PollService)
                    },
                },
            }
        },
    }
}

impl Executer {
    /// A fresh deploy orchestrator for one configuration entry.
    pub fn from_config(config: config::command::ServiceConfig, options: ExecuterOptions) -> (e:
        Executer)
        ensures
            e.config == config,
            e.options == options,
            e.phase == DeployPhase::Init,
            e.task_definition_arn is None,
            !e.registered && !e.created && !e.updated,
            spec_deploy_inv(e),
    {
        Executer {
            config,
            options,
            phase: DeployPhase::Init,
            task_definition_arn: None,
            registered: false,
            created: false,
            updated: false,
        }
    }

    /// Whether the orchestrator still expects an event.
    pub fn is_terminal(&self) -> (r: bool)
        ensures
            r == (self.phase is Done || self.phase is Failed),
    {
        match self.phase {
            DeployPhase::Done => true,
            DeployPhase::Failed => true,
            _ => false,
        }
    }

    /// Feeds the answer to the last request in and hands the next request
    /// out.
    pub fn step(&mut self, event: DeployEvent) -> (r: DeployAction)
        requires
            spec_deploy_expects(old(self).phase, event),
        ensures
            *final(self) == spec_deploy_step(*old(self), event).0,
            r == spec_deploy_step(*old(self), event).1,
    {
        match event {
            DeployEvent::Start => {
                self.phase = DeployPhase::DescribingTaskDefinition;
                DeployAction::DescribeTaskDefinition
            },
            DeployEvent::TaskDefinitionDescribed(td) => {
                match td {
                    None => {
                        self.phase = DeployPhase::Registering;
                        self.registered = true;
                        DeployAction::RegisterTaskDefinition
                    },
                    Some(latest) => {
                        if ecs::detect_task_definition_changes(
                            &self.config.service.task_definition,
                            &latest,
                        ) {
                            self.phase = DeployPhase::Registering;
                            self.registered = true;
                            DeployAction::RegisterTaskDefinition
                        } else {
                            self.with_arn(latest.task_definition_arn)
                        }
                    },
                }
            },
            DeployEvent::TaskDefinitionRegistered(td) => {
                match td {
                    Some(t) => self.with_arn(t.task_definition_arn),
                    None => {
                        self.phase = DeployPhase::Failed;
                        DeployAction::Fail(CommandError::Unknown)
                    },
                }
            },
            DeployEvent::ServicesDescribed(services) => {
                match services {
                    None => {
                        self.phase = DeployPhase::Failed;
                        DeployAction::Fail(CommandError::Unknown)
                    },
                    Some(list) => {
                        match ecs::first_active_service(&list) {
                            None => {
                                self.phase = DeployPhase::Creating;
                                self.created = true;
                                DeployAction::CreateService
                            },
                            Some(_) => {
                                self.phase = DeployPhase::Updating;
                                self.updated = true;
                                DeployAction::UpdateService
                            },
                        }
                    },
                }
            },
            DeployEvent::ServiceCreated(service) => self.after_mutation(service),
            DeployEvent::ServiceUpdated(service) => self.after_mutation(service),
            DeployEvent::ServiceObserved(services) => {
                match services {
                    None => {
                        self.phase = DeployPhase::Failed;
                        DeployAction::Fail(CommandError::Unknown)
                    },
                    Some(list) => {
                        match ecs::first_active_service(&list) {
                            None => {
                                self.phase = DeployPhase::Failed;
                                DeployAction::Fail(CommandError::Unknown)
                            },
                            Some(i) => {
                                if ecs::service_is_stable(&list[i]) {
                                    self.phase = DeployPhase::Done;
                                    DeployAction::Succeed
                                } else {
                                    self.phase = DeployPhase::Waiting;
                                    DeployAction::PollService
                                }
                            },
                        }
                    },
                }
            },
        }
    }

    fn with_arn(&mut self, arn: Option<String>) -> (r: DeployAction)
        ensures
            *final(self) == spec_deploy_with_arn(*old(self), arn).0,
            r == spec_deploy_with_arn(*old(self), arn).1,
    {
        match arn {
            Some(a) => {
                self.phase = DeployPhase::DescribingService;
                self.task_definition_arn = Some(a);
                DeployAction::DescribeService
            },
            None => {
                self.phase = DeployPhase::Failed;
                DeployAction::Fail(CommandError::Unknown)
            },
        }
    }

    fn after_mutation(&mut self, service: Option<ecs::Service>) -> (r: DeployAction)
        ensures
            *final(self) == spec_deploy_after_mutation(*old(self), service).0,
            r == spec_deploy_after_mutation(*old(self), service).1,
    {
        match service {
            Some(_) => {
                if self.options.no_wait {
                    self.phase = DeployPhase::Done;
                    DeployAction::Succeed
                } else {
                    self.phase = DeployPhase::Waiting;
                    DeployAction::PollService
                }
            },
            None => {
                self.phase = DeployPhase::Failed;
                DeployAction::Fail(CommandError::Unknown)
            },
        }
    }
}

/// Once the service has been described, the orchestrator requests a create
/// exactly when the answer held no ACTIVE service, and an update exactly
/// when it held one: never both, never neither.
pub proof fn lemma_create_iff_absent(pre: Executer, list: Vec<ecs::Service>)
    requires
        pre.phase is DescribingService,
    ensures
        spec_deploy_step(pre, DeployEvent::ServicesDescribed(Some(list))).1
            == DeployAction::CreateService <==> ecs::spec_first_active_service(list@) is None,
        spec_deploy_step(pre, DeployEvent::ServicesDescribed(Some(list))).1
            == DeployAction::UpdateService <==> ecs::spec_first_active_service(list@) is Some,
{
}

/// Every step keeps the machine's invariant, and a mutation is only ever
/// requested out of the described phase, with its flag not yet set: along
/// any run, at most one register and at most one create-or-update is
/// requested, and never both a create and an update.
pub proof fn lemma_at_most_one_mutation(pre: Executer, event: DeployEvent)
    requires
        spec_deploy_expects(pre.phase, event),
        spec_deploy_inv(pre),
    ensures
        spec_deploy_inv(spec_deploy_step(pre, event).0),
        spec_deploy_step(pre, event).1 == DeployAction::CreateService ==> pre.phase
            is DescribingService && !pre.created && !pre.updated,
        spec_deploy_step(pre, event).1 == DeployAction::UpdateService ==> pre.phase
            is DescribingService && !pre.created && !pre.updated,
        spec_deploy_step(pre, event).1 == DeployAction::RegisterTaskDefinition ==> !pre.registered,
{
}

/// While the orchestrator waits, an observation of the service ends the wait
/// with success exactly when the stability predicate holds of the first
/// ACTIVE service: its PRIMARY deployment's desired count equals its running
/// count.  Any observation whose PRIMARY deployment has not reached that
/// point keeps the orchestrator polling, whatever the other deployments
/// report.
pub proof fn lemma_wait_terminates_iff_primary_stable(pre: Executer, list: Vec<ecs::Service>)
    requires
        pre.phase is Waiting,
        ecs::spec_first_active_service(list@) is Some,
    ensures
        ({
            let i = ecs::spec_first_active_service(list@).unwrap();
            &&& (spec_deploy_step(pre, DeployEvent::ServiceObserved(Some(list))).1
                == DeployAction::Succeed <==> ecs::spec_service_is_stable(list@[i]))
            &&& (spec_deploy_step(pre, DeployEvent::ServiceObserved(Some(list))).1
                == DeployAction::PollService <==> !ecs::spec_service_is_stable(list@[i]))
        }),
{
}

/// Once the orchestrator waits, it only ever reads: no observation makes it
/// request another register, create or update, and its mutation record does
/// not change.  Every remote mutation therefore happens before the wait
/// loop, and breaking off a wait leaves no mutation half-applied.
pub proof fn lemma_waiting_polls_are_read_only(pre: Executer, services: Option<Vec<ecs::Service>>)
    requires
        pre.phase is Waiting,
    ensures
        ({
            let (post, action) = spec_deploy_step(pre, DeployEvent::ServiceObserved(services));
            &&& (action is PollService || action is Succeed || action is Fail)
            &&& post.registered == pre.registered
            &&& post.created == pre.created
            &&& post.updated == pre.updated
        }),
{
}

/// A service with no PRIMARY deployment is not stable, whatever counts its
/// other deployments report: a non-PRIMARY deployment reaching desired ==
/// running never ends the wait.
pub proof fn lemma_only_primary_counts(s: ecs::Service)
    requires
        s.deployments matches Some(ds) ==> ecs::spec_first_primary(ds@) is None,
    ensures
        !ecs::spec_service_is_stable(s),
{
}

/// The names of the entries of a service group, in order.
pub open spec fn spec_service_names(g: Seq<config::command::ServiceConfig>) -> Seq<Seq<char>> {
    g.map_values(|c: config::command::ServiceConfig| c.name@)
}

pub(crate) fn service_group_names(group: &Vec<config::command::ServiceConfig>) -> (names: Vec<
    String,
>)
    ensures
        names.deep_view() == spec_service_names(group@),
{
    let mut names: Vec<String> = Vec::new();
    let mut i: usize = 0;
    while i < group.len()
        invariant
            0 <= i <= group@.len(),
            names@.len() == i,
            forall|j: int| 0 <= j < i ==> names@[j]@ == group@[j].name@,
        decreases group@.len() - i,
    {
        names.push(group[i].name.clone());
        i = i + 1;
    }
    proof {
        assert forall|j: int| 0 <= j < group@.len() implies names.deep_view()[j]
            == spec_service_names(group@)[j] by {
            assert(names.deep_view()[j] == names@[j]@);
        }
        assert(names.deep_view() =~= spec_service_names(group@));
    }
    names
}

/// The service deploy subcommand: selects the service entries that carry the
/// requested name, or all of them.
pub struct Command<'c> {
    pub config: &'c config::command::Config,
    pub name: Option<&'c str>,
    pub no_wait: bool,
    pub all: bool,
}

impl<'c> Command<'c> {
    /// A deploy command for one named entry, or for all of them.
    pub fn new(config: &'c config::command::Config, name: Option<&'c str>, no_wait: bool, all: bool) -> (c:
        Command<'c>)
        ensures
            c.config == config,
            select::spec_target_view(c.name) == select::spec_target_view(name),
            c.no_wait == no_wait,
            c.all == all,
    {
        Command { config, name, no_wait, all }
    }

    /// The positions of the entries this command processes, in configuration
    /// order: those whose name is the requested one, or every entry when all
    /// of them were asked for.
    pub fn run(&self) -> (r: Vec<usize>)
        ensures
            match self.config.service {
                Some(g) => {
                    let sel = select::spec_selected(
                        spec_service_names(g@),
                        select::spec_target_view(self.name),
                        self.all,
                    );
                    r@.len() == sel.len() && forall|k: int|
                        0 <= k < r@.len() ==> r@[k] as int == sel[k]
                },
                None => r@.len() == 0,
            },
    {
        match &self.config.service {
            Some(group) => {
                let names = service_group_names(group);
                select::select_by_name(&names, self.name, self.all)
            },
            None => Vec::new(),
        }
    }
}

} // verus!
