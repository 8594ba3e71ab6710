use vstd::prelude::*;
use vstd::std_specs::cmp::PartialEqSpec;

verus! {

/// A change of an element's markers: first `add` is added, then `remove` is
/// removed, each where it is set.
#[derive(Debug, Clone, Copy)]
pub struct ClassChange<'a> {
    pub add: Option<&'a str>,
    pub remove: Option<&'a str>,
}

/// Switches an element between two markers, by a condition.
#[derive(Debug, Clone, Copy)]
pub struct ChangeClass;

/// The change that shows the state `to_new`: the marker `new` comes and `old`
/// goes if `to_new`; `old` comes and `new` goes if not.
pub open spec fn spec_replace<'a>(old: Option<&'a str>, new: &'a str, to_new: bool) -> ClassChange<'a> {
    if to_new {
        ClassChange { add: Some(new), remove: old }
    } else {
        ClassChange { add: old, remove: Some(new) }
    }
}

impl<'a> ClassChange<'a> {
    /// The markers of an element after the change, given those before it.
    pub open spec fn spec_apply(self, classes: Set<Seq<char>>) -> Set<Seq<char>> {
        let added = match self.add {
            Some(marker) => classes.insert(marker@),
            None => classes,
        };
        match self.remove {
            Some(marker) => added.remove(marker@),
            None => added,
        }
    }
}

impl ChangeClass {
    /// The change that shows the state `to_new` on an element: with `to_new`
    /// the marker `new` is added and `old` removed, without it `old` is added
    /// and `new` removed. Without an `old` marker only `new` comes and goes.
    pub fn replace<'a>(old: Option<&'a str>, new: &'a str, to_new: bool) -> (res: ClassChange<'a>)
        ensures
            res == spec_replace(old, new, to_new),
            to_new ==> res.add == Some(new) && res.remove == old,
            !to_new ==> res.add == old && res.remove == Some(new),
    {
        if to_new {
            ClassChange { add: Some(new), remove: old }
        } else {
            ClassChange { add: old, remove: Some(new) }
        }
    }

    /// The change that shows whether `condition` holds of `value`. It is to be
    /// asked once when the element is there, and again whenever the value has
    /// changed.
    pub fn when<'a, T, F>(value: &T, condition: F, old: Option<&'a str>, new: &'a str) -> (res:
        ClassChange<'a>) where F: Fn(&T) -> bool
        requires
            condition.requires((value,)),
        ensures
            exists|to_new: bool| #[trigger]
                condition.ensures((value,), to_new) && res == spec_replace(old, new, to_new),
    {
        let to_new = condition(value);
        Self::replace(old, new, to_new)
    }

    /// The change that shows `value` itself: `new` while it is true.
    pub fn on_true<'a>(value: bool, old: Option<&'a str>, new: &'a str) -> (res: ClassChange<'a>)
        ensures
            res == spec_replace(old, new, value),
    {
        let shown = |x: &bool| -> (b: bool)
            ensures
                b == *x,
            {
                *x
            };
        Self::when(&value, shown, old, new)
    }

    /// The change that shows whether `current` equals `value`: `new` while it
    /// does.
    pub fn on_value<'a, T: PartialEq>(current: &T, value: &T, old: Option<&'a str>, new: &'a str) -> (res:
        ClassChange<'a>)
        ensures
            T::obeys_eq_spec() ==> res == spec_replace(old, new, current.eq_spec(value)),
            res == spec_replace(old, new, true) || res == spec_replace(old, new, false),
    {
        let same = |x: &T| -> (b: bool)
            ensures
                T::obeys_eq_spec() ==> b == x.eq_spec(value),
            {
                x == value
            };
        Self::when(current, same, old, new)
    }
}

/// After a change between two different markers the element carries the one
/// that stands for the state shown, and not the other.
pub proof fn lemma_replace_leaves_one(old: &str, new: &str, to_new: bool, classes: Set<Seq<char>>)
    requires
        old@ != new@,
    ensures
        ({
            let after = spec_replace(Some(old), new, to_new).spec_apply(classes);
            &&& after.contains(new@) == to_new
            &&& after.contains(old@) == !to_new
            &&& forall|marker: Seq<char>|
                marker != old@ && marker != new@ ==> after.contains(marker) == classes.contains(marker)
        }),
{
}

} // verus!
