//! The scheduled-task subcommands: selecting the configuration entries to
//! put, and the rule names to delete.
use vstd::prelude::*;

use crate::command::select;
use crate::config;

verus! {

/// The names of the entries of a scheduled-task group, in order.
pub open spec fn spec_schedule_task_names(g: Seq<config::command::ScheduleTaskConfig>) -> Seq<
    Seq<char>,
> {
    g.map_values(|c: config::command::ScheduleTaskConfig| c.name@)
}

pub(crate) fn schedule_task_group_names(group: &Vec<config::command::ScheduleTaskConfig>) -> (names:
    Vec<String>)
    ensures
        names.deep_view() == spec_schedule_task_names(group@),
{
    let mut names: Vec<String> = Vec::new();
    let mut i: usize = 0;
    while i < group.len()
        invariant
            0 <= i <= group@.len(),
            names@.len() == i,
            forall|j: int| 0 <= j < i ==> names@[j]@ == group@[j].name@,
        decreases group@.len() - i,
    {
        names.push(group[i].name.clone());
        i = i + 1;
    }
    proof {
        assert forall|j: int| 0 <= j < group@.len() implies names.deep_view()[j]
            == spec_schedule_task_names(group@)[j] by {
            assert(names.deep_view()[j] == names@[j]@);
        }
        assert(names.deep_view() =~= spec_schedule_task_names(group@));
    }
    names
}

/// The earlier form of the scheduled-task subcommand: selects the entries
/// of the scheduled-task group that carry the requested name.
pub struct ScheduleTaskCommand<'c> {
    pub config: &'c config::command::Config,
    pub name: &'c str,
}

impl<'c> ScheduleTaskCommand<'c> {
    /// A scheduled-task command for one named entry.
    pub fn new(config: &'c config::command::Config, name: &'c str) -> (c: ScheduleTaskCommand<'c>)
        ensures
            c.config == config,
            c.name@ == name@,
    {
        ScheduleTaskCommand { config, name }
    }

    /// The positions of the entries this command processes, in
    /// configuration order: exactly those whose name is the requested one.
    pub fn run(&self) -> (r: Vec<usize>)
        ensures
            match self.config.schedule_task {
                Some(g) => {
                    let sel = select::spec_selected(
                        spec_schedule_task_names(g@),
                        Some(self.name@),
                        false,
                    );
                    r@.len() == sel.len() && forall|k: int|
                        0 <= k < r@.len() ==> r@[k] as int == sel[k]
                },
                None => r@.len() == 0,
            },
    {
        match &self.config.schedule_task {
            Some(group) => {
                let names = schedule_task_group_names(group);
                select::select_by_name(&names, Some(self.name), false)
            },
            None => Vec::new(),
        }
    }
}

} // verus!
