//! The scheduled-task delete orchestrator.  A rule that does not exist is
//! already-satisfied success, not an error; and because the control plane
//! rejects deleting a rule that still has targets, the orchestrator removes
//! the rule's targets before it deletes the rule whenever there are any,
//! and skips the removal when there are none.
use vstd::prelude::*;

use crate::command::cloudwatch_events;
use crate::command::cloudwatch_events::Target;

verus! {

/// The phase of the delete orchestrator.
#[derive(Debug, Clone, Copy, PartialEq, Eq, Structural)]
pub enum DeletePhase {
    Init,
    CheckingRule,
    ListingTargets,
    RemovingTargets,
    DeletingRule,
    Done,
    Failed,
}

/// What the orchestrator hears back from the event-rule control plane.
#[derive(Debug, Clone, PartialEq)]
pub enum DeleteEvent {
    Start,
    /// Whether the rule exists; a not-found answer to the describe call is
    /// `false`.
    RuleChecked(bool),
    /// The rule's targets, as the list call reports them.
    TargetsListed(Option<Vec<Target>>),
    TargetsRemoved,
    RuleDeleted,
}

/// What the orchestrator asks for next.  For `RemoveTargets` the driver
/// reads the identifiers to remove from the orchestrator's `target_ids`.
#[derive(Debug, Clone, PartialEq)]
pub enum DeleteAction {
    DescribeRule,
    ListTargets,
    RemoveTargets,
    DeleteRule,
    Succeed,
}

/// How many targets the list call reported.
pub open spec fn spec_n_targets(targets: Option<Vec<Target>>) -> int {
    match targets {
        Some(ts) => ts@.len() as int,
        None => 0,
    }
}

/// The delete orchestrator: a state machine from control-plane answers to
/// the next remote request.
#[derive(Debug, Clone, PartialEq)]
pub struct Executer {
    pub rule_name: String,
    pub phase: DeletePhase,
    /// The targets the list call reported, once known.
    pub targets: Option<Vec<Target>>,
    /// Whether a remove-targets request has been issued.
    pub removed: bool,
    /// Whether a delete-rule request has been issued.
    pub deleted: bool,
}

/// Which events answer which phase.
pub open spec fn spec_delete_expects(phase: DeletePhase, event: DeleteEvent) -> bool {
    match phase {
        DeletePhase::Init => event is Start,
        DeletePhase::CheckingRule => event is RuleChecked,
        DeletePhase::ListingTargets => event is TargetsListed,
        DeletePhase::RemovingTargets => event is TargetsRemoved,
        DeletePhase::DeletingRule => event is RuleDeleted,
        DeletePhase::Done => false,
        DeletePhase::Failed => false,
    }
}

/// The machine's invariant: a delete-rule request is only ever issued after
/// the targets have been listed, and, when any were listed, after their
/// removal has been requested.
pub open spec fn spec_delete_inv(e: Executer) -> bool {
    &&& (e.deleted ==> (e.phase is DeletingRule || e.phase is Done) && (spec_n_targets(e.targets)
        == 0 || e.removed))
    &&& (e.removed ==> (e.phase is RemovingTargets || e.phase is DeletingRule || e.phase is Done)
        && spec_n_targets(e.targets) > 0)
    &&& ((e.phase is Init || e.phase is CheckingRule || e.phase is ListingTargets) ==> e.targets
        is None && !e.removed && !e.deleted)
    &&& (e.phase is RemovingTargets ==> e.removed && !e.deleted)
}

/// One transition of the delete orchestrator.
pub open spec fn spec_delete_step(pre: Executer, event: DeleteEvent) -> (Executer, DeleteAction) {
    match event {
        DeleteEvent::Start => (
            Executer { phase: DeletePhase::CheckingRule, ..pre },
            DeleteAction::DescribeRule,
        ),
        DeleteEvent::RuleChecked(exists) => {
            if exists {
                (Executer { phase: DeletePhase::ListingTargets, ..pre }, DeleteAction::ListTargets)
            } else {
                (Executer { phase: DeletePhase::Done, ..pre }, DeleteAction::Succeed)
            }
        },
        DeleteEvent::TargetsListed(targets) => {
            if spec_n_targets(targets) > 0 {
                (
                    Executer {
                        phase: DeletePhase::RemovingTargets,
                        targets,
                        removed: true,
                        ..pre
                    },
                    DeleteAction::RemoveTargets,
                )
            } else {
                (
                    Executer { phase: DeletePhase::DeletingRule, targets, deleted: true, ..pre },
                    DeleteAction::DeleteRule,
                )
            }
        },
        DeleteEvent::TargetsRemoved => (
            Executer { phase: DeletePhase::DeletingRule, deleted: true, ..pre },
            DeleteAction::DeleteRule,
        ),
        DeleteEvent::RuleDeleted => (
            Executer { phase: DeletePhase::Done, ..pre },
            DeleteAction::Succeed,
        ),
    }
}

impl Executer {
    /// A fresh delete orchestrator for one rule name.
    pub fn new(rule_name: String) -> (e: Executer)
        ensures
            e.rule_name == rule_name,
            e.phase == DeletePhase::Init,
            e.targets is None,
            !e.removed && !e.deleted,
            spec_delete_inv(e),
    {
        Executer {
            rule_name,
            phase: DeletePhase::Init,
            targets: None,
            removed: false,
            deleted: false,
        }
    }

    /// Whether the orchestrator still expects an event.
    pub fn is_terminal(&self) -> (r: bool)
        ensures
            r == (self.phase is Done || self.phase is Failed),
    {
        match self.phase {
            DeletePhase::Done => true,
            DeletePhase::Failed => true,
            _ => false,
        }
    }

    /// The identifiers of the targets to remove, in the order the control
    /// plane listed them.
    pub fn target_ids(&self) -> (ids: Vec<String>)
        ensures
            match self.targets {
                Some(ts) => ids.deep_view() == cloudwatch_events::spec_target_ids(ts@),
                None => ids@.len() == 0,
            },
    {
        match &self.targets {
            Some(ts) => cloudwatch_events::target_ids(ts),
            None => Vec::new(),
        }
    }

    /// Feeds the answer to the last request in and hands the next request
    /// out.
    pub fn step(&mut self, event: DeleteEvent) -> (r: DeleteAction)
        requires
            spec_delete_expects(old(self).phase, event),
        ensures
            *final(self) == spec_delete_step(*old(self), event).0,
            r == spec_delete_step(*old(self), event).1,
    {
        match event {
            DeleteEvent::Start => {
                self.phase = DeletePhase::CheckingRule;
                DeleteAction::DescribeRule
            },
            DeleteEvent::RuleChecked(exists) => {
                if exists {
                    self.phase = DeletePhase::ListingTargets;
                    DeleteAction::ListTargets
                } else {
                    self.phase = DeletePhase::Done;
                    DeleteAction::Succeed
                }
            },
            DeleteEvent::TargetsListed(targets) => {
                let n = match &targets {
                    Some(ts) => ts.len(),
                    None => 0,
                };
                if n > 0 {
                    self.phase = DeletePhase::RemovingTargets;
                    self.targets = targets;
                    self.removed = true;
                    DeleteAction::RemoveTargets
                } else {
                    self.phase = DeletePhase::DeletingRule;
                    self.targets = targets;
                    self.deleted = true;
                    DeleteAction::DeleteRule
                }
            },
            DeleteEvent::TargetsRemoved => {
                self.phase = DeletePhase::DeletingRule;
                self.deleted = true;
                DeleteAction::DeleteRule
            },
            DeleteEvent::RuleDeleted => {
                self.phase = DeletePhase::Done;
                DeleteAction::Succeed
            },
        }
    }
}

/// The rule names a delete request resolves to: the requested name itself
/// when one was given, else the rule name of every scheduled-task entry
/// when all of them were asked for.
pub open spec fn spec_delete_rule_names(
    config: crate::config::command::Config,
    name: Option<&str>,
    all: bool,
) -> Seq<Seq<char>> {
    match name {
        Some(n) => seq![n@],
        None => if all {
            match config.schedule_task {
                Some(g) => g@.map_values(
                    |c: crate::config::command::ScheduleTaskConfig| c.rule.name@,
                ),
                None => Seq::empty(),
            }
        } else {
            Seq::empty()
        },
    }
}

/// The scheduled-task delete subcommand: resolves which rules to delete.
pub struct Command<'c> {
    pub config: &'c crate::config::command::Config,
    pub name: Option<&'c str>,
    pub all: bool,
}

impl<'c> Command<'c> {
    /// A delete command for one rule name, or for the rules of all entries.
    pub fn new(config: &'c crate::config::command::Config, name: Option<&'c str>, all: bool) -> (c:
        Command<'c>)
        ensures
            c.config == config,
            crate::command::select::spec_target_view(c.name)
                == crate::command::select::spec_target_view(name),
            c.all == all,
    {
        Command { config, name, all }
    }

    /// The names of the rules this command deletes, in order: the requested
    /// name, or each entry's rule name when all were asked for.
    pub fn run(&self) -> (r: Vec<String>)
        ensures
            r.deep_view() == spec_delete_rule_names(*self.config, self.name, self.all),
    {
        match self.name {
            Some(n) => {
                let mut r: Vec<String> = Vec::new();
                r.push(n.to_owned());
                proof {
                    assert(r.deep_view() =~= spec_delete_rule_names(
                        *self.config,
                        self.name,
                        self.all,
                    ));
                }
                r
            },
            None => {
                if self.all {
                    match &self.config.schedule_task {
                        Some(group) => {
                            let mut names: Vec<String> = Vec::new();
                            let mut i: usize = 0;
                            while i < group.len()
                                invariant
                                    0 <= i <= group@.len(),
                                    names@.len() == i,
                                    forall|j: int| 0 <= j < i ==> names@[j]@ == group@[j].rule.name@,
                                decreases group@.len() - i,
                            {
                                names.push(group[i].rule.name.clone());
                                i = i + 1;
                            }
                            proof {
                                assert forall|j: int|
                                    0 <= j < group@.len() implies names.deep_view()[j]
                                    == spec_delete_rule_names(*self.config, self.name, self.all)[j] by {
                                    assert(names.deep_view()[j] == names@[j]@);
                                }
                                assert(names.deep_view() =~= spec_delete_rule_names(
                                    *self.config,
                                    self.name,
                                    self.all,
                                ));
                            }
                            names
                        },
                        None => {
                            let r: Vec<String> = Vec::new();
                            proof {
                                assert(r.deep_view() =~= spec_delete_rule_names(
                                    *self.config,
                                    self.name,
                                    self.all,
                                ));
                            }
                            r
                        },
                    }
                } else {
                    let r: Vec<String> = Vec::new();
                    proof {
                        assert(r.deep_view() =~= spec_delete_rule_names(
                            *self.config,
                            self.name,
                            self.all,
                        ));
                    }
                    r
                }
            },
        }
    }
}

/// The earlier form of the scheduled-task delete subcommand, deleting the
/// one requested rule.
pub struct ScheduleTaskDeleteCommand<'c> {
    pub config: &'c crate::config::command::Config,
    pub name: &'c str,
}

impl<'c> ScheduleTaskDeleteCommand<'c> {
    /// A delete command for one rule name.
    pub fn new(config: &'c crate::config::command::Config, name: &'c str) -> (c:
        ScheduleTaskDeleteCommand<'c>)
        ensures
            c.config == config,
            c.name@ == name@,
    {
        ScheduleTaskDeleteCommand { config, name }
    }

    /// The names of the rules this command deletes: exactly the requested
    /// one.
    pub fn run(&self) -> (r: Vec<String>)
        ensures
            r.deep_view() == seq![self.name@],
    {
        let mut r: Vec<String> = Vec::new();
        r.push(self.name.to_owned());
        proof {
            assert(r.deep_view() =~= seq![self.name@]);
        }
        r
    }
}

/// Deleting a rule that does not exist succeeds without requesting any
/// remote mutation, for every rule name: the orchestrator reports success
/// at once and neither its removal flag nor its deletion flag is set.
pub proof fn lemma_delete_missing_rule_succeeds(pre: Executer)
    requires
        pre.phase is CheckingRule,
        !pre.removed,
        !pre.deleted,
    ensures
        spec_delete_step(pre, DeleteEvent::RuleChecked(false)).1 == DeleteAction::Succeed,
        spec_delete_step(pre, DeleteEvent::RuleChecked(false)).0.phase is Done,
        !spec_delete_step(pre, DeleteEvent::RuleChecked(false)).0.removed,
        !spec_delete_step(pre, DeleteEvent::RuleChecked(false)).0.deleted,
{
}

/// For a rule with listed targets, the orchestrator requests the removal of
/// the targets exactly when there are any, and goes straight to deleting
/// the rule exactly when there are none.
pub proof fn lemma_removal_iff_targets(pre: Executer, targets: Option<Vec<Target>>)
    requires
        pre.phase is ListingTargets,
    ensures
        spec_delete_step(pre, DeleteEvent::TargetsListed(targets)).1 == DeleteAction::RemoveTargets
            <==> spec_n_targets(targets) > 0,
        spec_delete_step(pre, DeleteEvent::TargetsListed(targets)).1 == DeleteAction::DeleteRule
            <==> spec_n_targets(targets) == 0,
{
}

/// Every step keeps the machine's invariant, and the delete-rule request is
/// only ever issued once the rule's targets are known and, when there were
/// any, after their removal was requested: along any run, target removal
/// precedes rule deletion whenever targets exist.
pub proof fn lemma_targets_removed_before_rule_deleted(pre: Executer, event: DeleteEvent)
    requires
        spec_delete_expects(pre.phase, event),
        spec_delete_inv(pre),
    ensures
        spec_delete_inv(spec_delete_step(pre, event).0),
        spec_delete_step(pre, event).1 == DeleteAction::DeleteRule ==> {
            let post = spec_delete_step(pre, event).0;
            spec_n_targets(post.targets) == 0 || post.removed
        },
        spec_delete_step(pre, event).1 == DeleteAction::RemoveTargets ==> !pre.deleted,
{
}

} // verus!
