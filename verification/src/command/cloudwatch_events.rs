//! Model of the event-rule control plane: the execution targets attached to
//! a rule, and the deterministic identifier scheme that binds a rule to its
//! single target.
use vstd::prelude::*;

use crate::config;

verus! {

/// One execution target attached to a rule, as the control plane lists it.
#[derive(Debug, Clone, PartialEq)]
pub struct Target {
    pub id: String,
}

/// The identifier of the single target attached to a rule: the rule's name
/// followed by `_target_1`, for every rule name.
pub open spec fn spec_auto_generated_target_id(rule_name: Seq<char>) -> Seq<char> {
    rule_name + "_target_1"@
}

/// Builds the deterministic identifier of a rule's single execution target.
pub fn auto_generated_target_id(rule_conf: &config::cloudwatch_events::ScheduleRule) -> (id:
    String)
    ensures
        id@ == spec_auto_generated_target_id(rule_conf.name@),
{
    let mut id = rule_conf.name.as_str().to_owned();
    id.append("_target_1");
    id
}

/// The identifiers of the listed targets, in order.
pub open spec fn spec_target_ids(ts: Seq<Target>) -> Seq<Seq<char>> {
    ts.map_values(|t: Target| t.id@)
}

/// Reads the identifiers out of a list of targets.
pub fn target_ids(targets: &Vec<Target>) -> (ids: Vec<String>)
    ensures
        ids.deep_view() == spec_target_ids(targets@),
{
    let mut ids: Vec<String> = Vec::new();
    let mut i: usize = 0;
    while i < targets.len()
        invariant
            0 <= i <= targets@.len(),
            ids@.len() == i,
            forall|j: int| 0 <= j < i ==> ids@[j]@ == targets@[j].id@,
        decreases targets@.len() - i,
    {
        ids.push(targets[i].id.clone());
        i = i + 1;
    }
    proof {
        assert forall|j: int| 0 <= j < targets@.len() implies ids.deep_view()[j] == spec_target_ids(
            targets@,
        )[j] by {
            assert(ids.deep_view()[j] == ids@[j]@);
        }
        assert(ids.deep_view() =~= spec_target_ids(targets@));
    }
    ids
}

} // verus!
