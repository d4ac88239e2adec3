//! Selection of configuration entries by name.  Every subcommand walks its
//! configuration group in order and picks the entries whose name matches the
//! requested one, or every entry when asked for all of them.
use vstd::prelude::*;

verus! {

/// Whether an entry with this name is picked for a request naming `target`,
/// or for a request that asks for all entries.
pub open spec fn spec_matches(name: Seq<char>, target: Option<Seq<char>>, all: bool) -> bool {
    all || (target matches Some(t) && name == t)
}

/// The positions of the selected entries, in configuration order.
pub open spec fn spec_selected(names: Seq<Seq<char>>, target: Option<Seq<char>>, all: bool) -> Seq<
    int,
>
    decreases names.len(),
{
    if names.len() == 0 {
        Seq::empty()
    } else {
        let prefix = spec_selected(names.drop_last(), target, all);
        if spec_matches(names.last(), target, all) {
            prefix.push(names.len() - 1)
        } else {
            prefix
        }
    }
}

/// What the selection guarantees: every picked position is in range and
/// matches, the positions are strictly increasing, and every matching
/// position is picked.
pub proof fn lemma_selected_props(names: Seq<Seq<char>>, target: Option<Seq<char>>, all: bool)
    ensures
        forall|k: int|
            0 <= k < spec_selected(names, target, all).len() ==> 0 <= #[trigger] spec_selected(
                names,
                target,
                all,
            )[k] < names.len() && spec_matches(names[spec_selected(names, target, all)[k]], target, all),
        forall|k1: int, k2: int|
            0 <= k1 < k2 < spec_selected(names, target, all).len() ==> spec_selected(
                names,
                target,
                all,
            )[k1] < spec_selected(names, target, all)[k2],
        forall|i: int|
            0 <= i < names.len() && spec_matches(names[i], target, all)
                ==> spec_selected(names, target, all).contains(i),
    decreases names.len(),
{
    if names.len() > 0 {
        let prefix_names = names.drop_last();
        lemma_selected_props(prefix_names, target, all);
        let prefix = spec_selected(prefix_names, target, all);
        let sel = spec_selected(names, target, all);
        assert(forall|j: int| 0 <= j < prefix_names.len() ==> prefix_names[j] == names[j]);
        if spec_matches(names.last(), target, all) {
            assert(sel == prefix.push(names.len() - 1));
            assert(forall|k: int| 0 <= k < prefix.len() ==> sel[k] == prefix[k]);
            assert(sel[sel.len() - 1] == names.len() - 1);
            assert forall|i: int|
                0 <= i < names.len() && spec_matches(names[i], target, all) implies sel.contains(
                i,
            ) by {
                if i < names.len() - 1 {
                    assert(prefix_names[i] == names[i]);
                    assert(prefix.contains(i));
                    let k = choose|k: int| 0 <= k < prefix.len() && prefix[k] == i;
                    assert(sel[k] == i);
                } else {
                    assert(sel[sel.len() - 1] == i);
                }
            }
        } else {
            assert(sel == prefix);
            assert forall|i: int|
                0 <= i < names.len() && spec_matches(names[i], target, all) implies sel.contains(
                i,
            ) by {
                assert(i < names.len() - 1);
                assert(prefix_names[i] == names[i]);
                assert(prefix.contains(i));
                let k = choose|k: int| 0 <= k < prefix.len() && prefix[k] == i;
                assert(sel[k] == i);
            }
        }
    }
}

/// The view of an optional requested name.
pub open spec fn spec_target_view(target: Option<&str>) -> Option<Seq<char>> {
    match target {
        Some(t) => Some(t@),
        None => None,
    }
}

/// Picks, in order, the positions of the names that match the request.
pub fn select_by_name(names: &Vec<String>, target: Option<&str>, all: bool) -> (r: Vec<usize>)
    ensures
        r@.len() == spec_selected(names.deep_view(), spec_target_view(target), all).len(),
        forall|k: int|
            0 <= k < r@.len() ==> r@[k] as int == spec_selected(
                names.deep_view(),
                spec_target_view(target),
                all,
            )[k],
        forall|k: int| 0 <= k < r@.len() ==> #[trigger] r@[k] < names@.len(),
{
    let ghost dv = names.deep_view();
    let ghost tv = spec_target_view(target);
    let mut r: Vec<usize> = Vec::new();
    let mut i: usize = 0;
    proof {
        assert(dv.subrange(0, 0) =~= Seq::<Seq<char>>::empty());
    }
    while i < names.len()
        invariant
            0 <= i <= names@.len(),
            dv == names.deep_view(),
            tv == spec_target_view(target),
            dv.len() == names@.len(),
            forall|j: int| 0 <= j < dv.len() ==> dv[j] == names@[j]@,
            r@.len() == spec_selected(dv.subrange(0, i as int), tv, all).len(),
            forall|k: int|
                0 <= k < r@.len() ==> r@[k] as int == spec_selected(
                    dv.subrange(0, i as int),
                    tv,
                    all,
                )[k],
        decreases names@.len() - i,
    {
        let picked = if all {
            true
        } else {
            match target {
                Some(t) => crate::text::str_eq(names[i].as_str(), t),
                None => false,
            }
        };
        proof {
            assert(dv.subrange(0, i + 1).drop_last() =~= dv.subrange(0, i as int));
            assert(dv.subrange(0, i + 1).last() == dv[i as int]);
            assert(picked == spec_matches(dv[i as int], tv, all));
        }
        if picked {
            r.push(i);
        }
        i = i + 1;
    }
    proof {
        assert(dv.subrange(0, names@.len() as int) =~= dv);
        lemma_selected_props(dv, tv, all);
    }
    r
}

} // verus!
