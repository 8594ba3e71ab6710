use vstd::prelude::*;
use vstd::seq_lib::seq_to_set_is_finite;
use vstd::set_lib::{lemma_int_range, lemma_len_subset, set_int_range};
use crate::changeclass::{spec_replace, ChangeClass, ClassChange};

verus! {

/// The change between two markers that shows the state `to_new`: `new` is
/// added and `old` removed if `to_new`, the other way round if not.
pub fn replace_class<'a>(old: &'a str, new: &'a str, to_new: bool) -> (res: ClassChange<'a>)
    ensures
        res == spec_replace(Some(old), new, to_new),
        res.add == Some(if to_new { new } else { old }),
        res.remove == Some(if to_new { old } else { new }),
{
    ChangeClass::replace(Some(old), new, to_new)
}

/// The arrow that points where a handle's region grows: sideways for a
/// lateral handle, up or down for a vertical one.
pub open spec fn spec_panel_arrow(is_lateral: bool, to_left: bool) -> Seq<char> {
    if is_lateral {
        if to_left {
            "←"@
        } else {
            "→"@
        }
    } else {
        if to_left {
            "↑"@
        } else {
            "↓"@
        }
    }
}

/// The arrow that points where a handle's region grows.
pub fn panel_arrow(is_lateral: bool, to_left: bool) -> (res: &'static str)
    ensures
        res@ == spec_panel_arrow(is_lateral, to_left),
{
    if is_lateral {
        if to_left {
            "←"
        } else {
            "→"
        }
    } else {
        if to_left {
            "↑"
        } else {
            "↓"
        }
    }
}

/// Whether the list holds `x`.
fn holds(list: &Vec<usize>, x: usize) -> (found: bool)
    ensures
        found == list@.contains(x),
{
    let mut i: usize = 0;
    while i < list.len()
        invariant
            0 <= i <= list@.len(),
            forall|k: int| 0 <= k < i ==> list@[k] != x,
        decreases list@.len() - i,
    {
        if list[i] == x {
            return true;
        }
        i += 1;
    }
    false
}

/// A list that holds every number from 1 to its length has no place left
/// for 0.
proof fn lemma_full_list_has_no_zero(list: Seq<usize>)
    requires
        list.len() <= usize::MAX,
        forall|x: usize| 1 <= x <= list.len() ==> list.contains(x),
    ensures
        !list.contains(0usize),
{
    if list.contains(0usize) {
        let k = choose|k: int| 0 <= k < list.len() && list[k] == 0usize;
        let rest = list.remove(k).map_values(|x: usize| x as int);
        let wanted = set_int_range(1, list.len() as int + 1);
        assert forall|v: int| wanted.contains(v) implies rest.to_set().contains(v) by {
            let x = v as usize;
            assert(list.contains(x));
            let j = choose|j: int| 0 <= j < list.len() && list[j] == x;
            let at = if j < k {
                j
            } else {
                j - 1
            };
            assert(rest[at] == v);
        }
        lemma_int_range(1, list.len() as int + 1);
        seq_to_set_is_finite(rest);
        lemma_len_subset(wanted, rest.to_set());
        rest.lemma_cardinality_of_set();
    }
}

/// A number that the list does not hold yet: the largest from 1 to the
/// list's length that is free, or 0 where all of them are taken.
pub fn new_id(list: &Vec<usize>) -> (id: usize)
    ensures
        id <= list@.len(),
        !list@.contains(id),
        id > 0 ==> forall|x: usize| id < x <= list@.len() ==> list@.contains(x),
        id == 0 ==> forall|x: usize| 1 <= x <= list@.len() ==> list@.contains(x),
{
    let mut id: usize = list.len();
    while id > 0
        invariant
            id <= list@.len(),
            forall|x: usize| id < x <= list@.len() ==> list@.contains(x),
        decreases id,
    {
        if !holds(list, id) {
            return id;
        }
        id -= 1;
    }
    proof {
        lemma_full_list_has_no_zero(list@);
    }
    id
}

} // verus!
