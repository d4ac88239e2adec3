//! The top-level command: checking and reading the template variables that
//! are handed in on the command line as `name=value` pairs.
use vstd::prelude::*;

use crate::text;

verus! {

/// The top-level command.
pub struct MainCommand {}

/// The name and the value of one `name=value` argument: what stands before
/// the first `=`, and what stands between the first `=` and the second one
/// or the end.
pub open spec fn spec_var_pair(s: Seq<char>) -> (Seq<char>, Seq<char>)
    recommends
        text::spec_find_char(s, '=', 0) is Some,
{
    let i = text::spec_find_char(s, '=', 0).unwrap_or(0);
    let j = match text::spec_find_char(s, '=', i + 1) {
        Some(j) => j,
        None => s.len() as int,
    };
    (s.subrange(0, i), s.subrange(i + 1, j))
}

impl MainCommand {
    /// Checks one template-variable argument: it must hold a variable name
    /// and a variable value separated by exactly one `=` character.
    pub fn validate_args_template_variables(tag_str: String) -> (r: Result<(), String>)
        ensures
            r is Ok <==> text::spec_count_char(tag_str@, '=') == 1,
    {
        let n = text::count_char(tag_str.as_str(), '=');
        if n == 1 {
            Ok(())
        } else {
            Err(
                "The variable format should contain variable name and variable value, and those are seperated with `=` character".to_owned(),
            )
        }
    }

    /// Reads the template-variable arguments into name and value pairs, in
    /// argument order.  Every argument must contain at least one `=`; the
    /// validation above is expected to have run first.
    pub fn parse_args_template_variables(vars: &Vec<String>) -> (r: Vec<(String, String)>)
        requires
            forall|k: int|
                0 <= k < vars@.len() ==> text::spec_find_char(#[trigger] vars@[k]@, '=', 0)
                    is Some,
        ensures
            r@.len() == vars@.len(),
            forall|k: int|
                0 <= k < r@.len() ==> (#[trigger] r@[k].0@, r@[k].1@) == spec_var_pair(vars@[k]@),
    {
        let mut r: Vec<(String, String)> = Vec::new();
        let mut k: usize = 0;
        while k < vars.len()
            invariant
                0 <= k <= vars@.len(),
                forall|i: int|
                    0 <= i < vars@.len() ==> text::spec_find_char(#[trigger] vars@[i]@, '=', 0)
                        is Some,
                r@.len() == k,
                forall|i: int|
                    0 <= i < k ==> (#[trigger] r@[i].0@, r@[i].1@) == spec_var_pair(vars@[i]@),
            decreases vars@.len() - k,
        {
            let v = &vars[k];
            let len = v.as_str().unicode_len();
            let first = match text::find_char(v.as_str(), '=', 0) {
                Some(i) => i,
                None => 0,
            };
            let second = match text::find_char(v.as_str(), '=', first + 1) {
                Some(j) => j,
                None => len,
            };
            let name = v.as_str().substring_char(0, first).to_owned();
            let value = v.as_str().substring_char(first + 1, second).to_owned();
            r.push((name, value));
            k = k + 1;
        }
        r
    }
}

} // verus!
