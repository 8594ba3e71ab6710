use vstd::prelude::*;
use crate::geometry::{lemma_total_update, spec_total, Layout, Pointer, Region};
use crate::resizer::panel::spec_meets_limits;
use crate::lengthmap::LengthMap;
use crate::resizer::{get_length, get_lengths, spec_gap};
use crate::stylelength::{
    lemma_max_check_shrinks, lemma_min_check_grows, percent_of, spec_length_property, StyleLength, StyleWrite,
};

verus! {

/// What is reported for one region: where it stands in its container, its key,
/// its extent after the resize, the length that stands for that extent, and
/// the style to write on the region, unless writing was switched off.
#[derive(Debug, Clone)]
pub struct ParcelResize {
    pub index: usize,
    pub key: Option<u64>,
    pub extent: u32,
    pub length: StyleLength,
    pub style: Option<StyleWrite>,
}

/// A resize of a row or column of regions: one report for each region, and the
/// lengths by the regions' keys where a map was asked for.
#[derive(Debug)]
pub struct ParcelsResize {
    pub parcels: Vec<ParcelResize>,
    pub map: Option<LengthMap>,
}

/// Which region grows: its place in the container, the side of it on which it
/// grows, and by how much (above zero).
pub struct Growing {
    pub index: int,
    pub to_left: bool,
    pub gap: int,
}

/// A resize that was found possible: the region that grows, and the region
/// that gives up the same amount.
pub struct Plan {
    pub growing: int,
    pub to_left: bool,
    pub gap: int,
    pub absorber: int,
}

/// The neighbour of the region at `index` among `len` regions: the one before
/// it if `to_left`, else the one after it.
pub open spec fn spec_get_sibling(to_left: bool, len: nat, index: int) -> Option<int> {
    if to_left {
        if 0 < index < len {
            Some(index - 1)
        } else {
            None
        }
    } else {
        if 0 <= index && index + 1 < len {
            Some(index + 1)
        } else {
            None
        }
    }
}

/// All regions on one side of the region at `index`, the nearest first.
pub open spec fn spec_get_siblings(to_left: bool, len: nat, index: int) -> Seq<int> {
    if !(0 <= index < len) {
        Seq::empty()
    } else if to_left {
        Seq::new(index as nat, |k: int| index - 1 - k)
    } else {
        Seq::new((len - 1 - index) as nat, |k: int| index + 1 + k)
    }
}

/// The region that grows for this pointer sample. Where the pointer pulls the
/// handle's owner outwards, the owner grows. Where it pushes into the owner,
/// the neighbour across the handle grows instead, towards the owner. `None`
/// where the layout has no owner, the pointer is on the handle's edge, or
/// there is no neighbour across the handle.
pub open spec fn spec_growing(is_lateral: bool, to_left: bool, layout: Layout, e: Pointer) -> Option<Growing> {
    let len = layout.regions@.len();
    if layout.owner >= len {
        None
    } else {
        let gap = spec_gap(layout.regions@[layout.owner as int].rect, e, is_lateral, to_left);
        if gap == 0 {
            None
        } else if gap > 0 {
            Some(Growing { index: layout.owner as int, to_left, gap })
        } else {
            match spec_get_sibling(to_left, len, layout.owner as int) {
                Some(n) => Some(Growing { index: n, to_left: !to_left, gap: -gap }),
                None => None,
            }
        }
    }
}

/// Whether a region of extent `len` can give up `gap`: something must be
/// left of it, and what is left must not be under the lower limit.
pub open spec fn spec_can_absorb(min_len: Option<StyleLength>, len: int, gap: int, par_len: u32) -> bool {
    len - gap > 0 && match min_len {
        Some(limit) => limit.spec_min_check((len - gap) as u32, par_len),
        None => true,
    }
}

/// The first place at or after `from` in `siblings` whose region can give up
/// `gap`.
pub open spec fn spec_absorber(
    min_len: Option<StyleLength>,
    extents: Seq<int>,
    siblings: Seq<int>,
    gap: int,
    par_len: u32,
    from: int,
) -> Option<int>
    decreases siblings.len() - from,
{
    if from < 0 || from >= siblings.len() {
        None
    } else if spec_can_absorb(min_len, extents[siblings[from]], gap, par_len) {
        Some(from)
    } else {
        spec_absorber(min_len, extents, siblings, gap, par_len, from + 1)
    }
}

/// The resize that this pointer sample asks for, or `None` where it changes
/// nothing: no region grows, the one that would grow passes the container or
/// its upper limit, or no region on the side it grows towards can give up
/// what it takes.
pub open spec fn spec_parcels_plan(
    is_lateral: bool,
    to_left: bool,
    min_len: Option<StyleLength>,
    max_len: Option<StyleLength>,
    layout: Layout,
    e: Pointer,
) -> Option<Plan> {
    match spec_growing(is_lateral, to_left, layout, e) {
        None => None,
        Some(g) => {
            let par_len = layout.extent(is_lateral);
            let extents = layout.extents(is_lateral);
            let to_len = extents[g.index] + g.gap;
            let siblings = spec_get_siblings(g.to_left, layout.regions@.len(), g.index);
            if par_len < to_len {
                None
            } else if max_len.is_some() && !max_len.unwrap().spec_max_check(to_len as u32, par_len) {
                None
            } else {
                match spec_absorber(min_len, extents, siblings, g.gap, par_len, 0) {
                    None => None,
                    Some(p) => Some(
                        Plan { growing: g.index, to_left: g.to_left, gap: g.gap, absorber: siblings[p] },
                    ),
                }
            }
        },
    }
}

/// The extents after a resize: one region has grown by the gap, one has
/// shrunk by it, the others are as they were.
pub open spec fn spec_parcels_extents(plan: Plan, extents: Seq<int>) -> Seq<int> {
    extents.update(plan.growing, extents[plan.growing] + plan.gap).update(
        plan.absorber,
        extents[plan.absorber] - plan.gap,
    )
}

/// The order in which the regions are reported: the one that grew, then those
/// on the side it grew towards, the nearest first, then those on its other
/// side, the nearest first.
pub open spec fn spec_report_order(plan: Plan, len: nat) -> Seq<int> {
    seq![plan.growing] + spec_get_siblings(plan.to_left, len, plan.growing) + spec_get_siblings(
        !plan.to_left,
        len,
        plan.growing,
    )
}

/// Whether `p` reports the region at `index` with the extent `extent`.
pub open spec fn spec_reports(
    p: ParcelResize,
    index: int,
    extent: int,
    layout: Layout,
    is_lateral: bool,
    to_pixel: bool,
    skip_set_style: bool,
) -> bool {
    &&& p.index == index
    &&& p.key == layout.regions@[index].key
    &&& p.extent == extent
    &&& p.length == StyleLength::spec_new(p.extent, layout.extent(is_lateral), to_pixel)
    &&& p.style.is_some() == !skip_set_style
    &&& p.style matches Some(w) ==> w.property@ == spec_length_property(is_lateral) && w.value@
        == p.length.spec_style_value()
}

/// The lengths by key after the reports were entered one after the other: a
/// report without a key enters nothing, and of two reports with one key the
/// later one stays.
pub open spec fn spec_length_map(parcels: Seq<ParcelResize>) -> Map<u64, StyleLength>
    decreases parcels.len(),
{
    if parcels.len() == 0 {
        Map::empty()
    } else {
        let before = spec_length_map(parcels.drop_last());
        match parcels.last().key {
            Some(k) => before.insert(k, parcels.last().length),
            None => before,
        }
    }
}

/// The neighbour of the region at `index`: the one before it if `to_left`,
/// else the one after it.
pub fn get_sibling(to_left: bool, layout: &Layout, index: usize) -> (res: Option<usize>)
    ensures
        res.is_some() == spec_get_sibling(to_left, layout.regions@.len(), index as int).is_some(),
        res matches Some(n) ==> Some(n as int) == spec_get_sibling(
            to_left,
            layout.regions@.len(),
            index as int,
        ) && n < layout.regions@.len(),
{
    if to_left {
        if 0 < index && index < layout.regions.len() {
            Some(index - 1)
        } else {
            None
        }
    } else {
        if index < layout.regions.len() && index + 1 < layout.regions.len() {
            Some(index + 1)
        } else {
            None
        }
    }
}

/// All regions on one side of the region at `index`, the nearest first.
pub fn get_siblings(to_left: bool, layout: &Layout, index: usize) -> (res: Vec<usize>)
    ensures
        res@.map_values(|i: usize| i as int) == spec_get_siblings(
            to_left,
            layout.regions@.len(),
            index as int,
        ),
        forall|k: int| 0 <= k < res@.len() ==> #[trigger] res@[k] < layout.regions@.len(),
{
    let mut siblings: Vec<usize> = Vec::new();
    let ghost walk = spec_get_siblings(to_left, layout.regions@.len(), index as int);
    if index >= layout.regions.len() {
        assert(siblings@.map_values(|i: usize| i as int) =~= walk);
        return siblings;
    }
    let mut last: usize = index;
    loop
        invariant
            index < layout.regions@.len(),
            last < layout.regions@.len(),
            walk == spec_get_siblings(to_left, layout.regions@.len(), index as int),
            to_left ==> last as int == index - siblings@.len(),
            !to_left ==> last as int == index + siblings@.len(),
            forall|k: int|
                0 <= k < siblings@.len() ==> #[trigger] siblings@[k] as int == walk[k] && siblings@[k]
                    < layout.regions@.len(),
        ensures
            siblings@.len() == walk.len(),
        decreases
            if to_left { last as int } else { layout.regions@.len() - last },
    {
        match get_sibling(to_left, layout, last) {
            Some(sibling) => {
                siblings.push(sibling);
                last = sibling;
            },
            None => {
                break ;
            },
        }
    }
    assert(siblings@.map_values(|i: usize| i as int) =~= walk);
    siblings
}

/// Reports one region with its extent after the resize, and enters its length
/// in `map` where lengths are collected (`parcel_name` is set) and the region
/// carries a key.
pub fn set_parcel_style_and_update_map(
    region: &Region,
    index: usize,
    to_len: u32,
    par_len: u32,
    map: &mut LengthMap,
    is_lateral: bool,
    to_pixel: bool,
    parcel_name: Option<&str>,
    skip_set_style: bool,
) -> (res: ParcelResize)
    requires
        to_pixel || par_len > 0,
    ensures
        res.index == index,
        res.key == region.key,
        res.extent == to_len,
        res.length == StyleLength::spec_new(to_len, par_len, to_pixel),
        res.style.is_some() == !skip_set_style,
        res.style matches Some(w) ==> w.property@ == spec_length_property(is_lateral) && w.value@
            == res.length.spec_style_value(),
        final(map)@ == if parcel_name.is_some() && region.key.is_some() {
            old(map)@.insert(region.key.unwrap(), res.length)
        } else {
            old(map)@
        },
{
    let style_len = StyleLength::new(to_len, par_len, to_pixel);
    let style = if skip_set_style {
        None
    } else {
        style_len.set_style(is_lateral)
    };
    if parcel_name.is_some() {
        if let Some(key) = region.key {
            let _ = map.insert(key, style_len);
        }
    }
    ParcelResize { index, key: region.key, extent: to_len, length: style_len, style }
}

/// Whether `res` is the answer to a pointer sample: nothing where
/// `spec_parcels_plan` has no plan; else one report for each region of the
/// container, in the order of `spec_report_order`, each with its extent after
/// the resize, and the map of these lengths by key where `named`.
pub open spec fn spec_parcels_answer(
    res: Option<ParcelsResize>,
    is_lateral: bool,
    to_left: bool,
    to_pixel: bool,
    min_len: Option<StyleLength>,
    max_len: Option<StyleLength>,
    layout: Layout,
    e: Pointer,
    named: bool,
    skip_set_style: bool,
) -> bool {
    &&& res.is_some() == spec_parcels_plan(is_lateral, to_left, min_len, max_len, layout, e).is_some()
    &&& res matches Some(r) ==> spec_reports_plan(
        r,
        spec_parcels_plan(is_lateral, to_left, min_len, max_len, layout, e).unwrap(),
        layout,
        is_lateral,
        to_pixel,
        named,
        skip_set_style,
    )
}

/// The region that grows for this pointer sample, with its extent, the gap
/// it grows by and the side it grows on; and the container's extent.
fn find_growing(is_lateral: bool, to_left: bool, layout: &Layout, e: Pointer) -> (res: Option<
    (usize, u32, i64, bool, u32),
>)
    ensures
        res.is_some() == spec_growing(is_lateral, to_left, *layout, e).is_some(),
        res matches Some((element, len, gap, side, par_len)) ==> {
            &&& spec_growing(is_lateral, to_left, *layout, e) == Some(
                Growing { index: element as int, to_left: side, gap: gap as int },
            )
            &&& element < layout.regions@.len()
            &&& len == layout.regions@[element as int].rect.extent(is_lateral)
            &&& 0 < gap <= 0x2_0000_0000
            &&& par_len == layout.extent(is_lateral)
        },
{
    let Some((par_len, len, gap)) = get_lengths(layout, layout.owner, e, is_lateral, to_left) else {
        return None;
    };
    if gap == 0 {
        return None;
    }
    if gap > 0 {
        return Some((layout.owner, len, gap, to_left, par_len));
    }
    // the owner shrinks: its neighbour across the handle grows, towards the owner

    let Some(neighbour) = get_sibling(to_left, layout, layout.owner) else {
        return None;
    };
    let len = get_length(&layout.regions[neighbour].rect, is_lateral);
    Some((neighbour, len, -gap, !to_left, par_len))
}

/// Walks the regions that may pay for the gap, the nearest first, and takes
/// it from the first that can give it up. The answer holds the extent of each
/// region of the walk after that, or nothing where none can pay.
fn shrink_siblings(
    is_lateral: bool,
    min_len: Option<StyleLength>,
    layout: &Layout,
    siblings: &Vec<usize>,
    gap: i64,
    par_len: u32,
) -> (res: Option<Vec<u32>>)
    requires
        0 < gap <= 0x2_0000_0000,
        par_len > 0,
        forall|k: int| 0 <= k < siblings@.len() ==> #[trigger] siblings@[k] < layout.regions@.len(),
    ensures
        ({
            let walk = siblings@.map_values(|i: usize| i as int);
            let extents = layout.extents(is_lateral);
            let absorber = spec_absorber(min_len, extents, walk, gap as int, par_len, 0);
            &&& res.is_some() == absorber.is_some()
            &&& res matches Some(lens) ==> {
                &&& lens@.len() == siblings@.len()
                &&& 0 <= absorber.unwrap() < siblings@.len()
                &&& forall|k: int|
                    0 <= k < lens@.len() ==> #[trigger] lens@[k] as int == if k == absorber.unwrap() {
                        extents[walk[k]] - gap
                    } else {
                        extents[walk[k]]
                    }
            }
        }),
{
    let ghost walk = siblings@.map_values(|i: usize| i as int);
    let ghost extents = layout.extents(is_lateral);
    let mut any_chg = false;
    let mut siblings_to_len: Vec<u32> = Vec::new();
    let ghost mut at: int = 0;
    let mut i: usize = 0;
    while i < siblings.len()
        invariant
            0 <= i <= siblings@.len(),
            walk == siblings@.map_values(|i: usize| i as int),
            extents == layout.extents(is_lateral),
            0 < gap <= 0x2_0000_0000,
            par_len > 0,
            forall|k: int| 0 <= k < siblings@.len() ==> #[trigger] siblings@[k] < layout.regions@.len(),
            siblings_to_len@.len() == i,
            !any_chg ==> spec_absorber(min_len, extents, walk, gap as int, par_len, 0)
                == spec_absorber(min_len, extents, walk, gap as int, par_len, i as int),
            any_chg ==> 0 <= at < i && spec_absorber(min_len, extents, walk, gap as int, par_len, 0)
                == Some(at),
            forall|k: int|
                0 <= k < i ==> #[trigger] siblings_to_len@[k] as int == if any_chg && k == at {
                    extents[walk[k]] - gap
                } else {
                    extents[walk[k]]
                },
        decreases siblings@.len() - i,
    {
        let len = get_length(&layout.regions[siblings[i]].rect, is_lateral);
        assert(extents[walk[i as int]] == len);
        let mut to_len = len;
        if !any_chg {
            let shrunk: i64 = len as i64 - gap;
            if shrunk > 0 {
                let allowed = match min_len {
                    Some(limit) => limit.min_check(shrunk as u32, par_len),
                    None => true,
                };
                if allowed {
                    any_chg = true;
                    to_len = shrunk as u32;
                    proof {
                        at = i as int;
                    }
                }
            }
        }
        siblings_to_len.push(to_len);
        i += 1;
    }
    if any_chg {
        Some(siblings_to_len)
    } else {
        None
    }
}

/// Resizes one region of a row or column and lets a neighbour pay for it.
///
/// The region that grows is the handle's owner where the pointer pulls its
/// edge outwards, else the neighbour across the handle. It grows by the gap
/// between the handle's edge and the pointer, unless that takes it beyond the
/// container or its upper limit. The regions on the side it grows towards are
/// asked in turn, the nearest first, and the first that keeps something above
/// zero and its lower limit gives up the whole gap; the others keep their
/// extent. Where none can, nothing changes and the answer is `None`.
///
/// A resize reports every region of the container once, the changed and the
/// unchanged, in the order of `spec_report_order`, each with its extent after
/// the resize. With a `parcel_name` the lengths are also entered in a map, by
/// the keys of the regions that carry one.
pub fn handle_parcels_mousemove(
    is_lateral: bool,
    to_left: bool,
    to_pixel: bool,
    min_len: Option<StyleLength>,
    max_len: Option<StyleLength>,
    layout: &Layout,
    e: Pointer,
    parcel_name: Option<&str>,
    skip_set_style: bool,
) -> (res: Option<ParcelsResize>)
    ensures
        spec_parcels_answer(
            res,
            is_lateral,
            to_left,
            to_pixel,
            min_len,
            max_len,
            *layout,
            e,
            parcel_name.is_some(),
            skip_set_style,
        ),
{
    let Some((element, len, gap, side, par_len)) = find_growing(is_lateral, to_left, layout, e) else {
        return None;
    };
    let ghost count = layout.regions@.len();
    let ghost extents = layout.extents(is_lateral);
    assert(extents[element as int] == len);

    let to_len: i64 = len as i64 + gap;
    if (par_len as i64) < to_len {
        return None;
    }
    let to_len: u32 = to_len as u32;
    if let Some(limit) = max_len {
        if !limit.max_check(to_len, par_len) {
            return None;
        }
    }
    // the side that shrinks: the first region that can give up the gap does

    let siblings = get_siblings(side, layout, element);
    let ghost walk = spec_get_siblings(side, count, element as int);
    let Some(siblings_to_len) = shrink_siblings(is_lateral, min_len, layout, &siblings, gap, par_len) else {
        return None;
    };
    // the other side keeps its extents and is reported all the same

    let siblings2 = get_siblings(!side, layout, element);
    let ghost rest = spec_get_siblings(!side, count, element as int);
    let ghost at = spec_absorber(min_len, extents, walk, gap as int, par_len, 0).unwrap();
    let ghost plan = Plan { growing: element as int, to_left: side, gap: gap as int, absorber: walk[at] };
    assert(spec_parcels_plan(is_lateral, to_left, min_len, max_len, *layout, e) == Some(plan));
    proof {
        let after = spec_parcels_extents(plan, extents);
        assert forall|k: int| 0 <= k < siblings2@.len() implies extents[#[trigger] siblings2@[k] as int]
            == after[siblings2@[k] as int] by {
            assert(siblings2@.map_values(|i: usize| i as int)[k] == rest[k]);
            assert(0 <= at < walk.len());
            assert(0 <= k < rest.len());
            assert(side ==> walk[at] < element);
            assert(side ==> rest[k] > element);
            assert(!side ==> walk[at] > element);
            assert(!side ==> rest[k] < element);
        }
        assert forall|k: int| 0 <= k < siblings@.len() implies #[trigger] siblings_to_len@[k] as int
            == after[siblings@[k] as int] by {
            assert(siblings@.map_values(|i: usize| i as int)[k] == walk[k]);
        }
    }

    let res = report_all(
        is_lateral,
        to_pixel,
        layout,
        parcel_name,
        skip_set_style,
        element,
        to_len,
        par_len,
        &siblings,
        &siblings_to_len,
        &siblings2,
        Ghost(plan),
    );
    Some(res)
}

/// Whether the reports of `r` are those of the plan: one for each region, in
/// the order of `spec_report_order`, with the extents of `spec_parcels_extents`.
pub open spec fn spec_reports_plan(
    r: ParcelsResize,
    plan: Plan,
    layout: Layout,
    is_lateral: bool,
    to_pixel: bool,
    named: bool,
    skip_set_style: bool,
) -> bool {
    let order = spec_report_order(plan, layout.regions@.len());
    let after = spec_parcels_extents(plan, layout.extents(is_lateral));
    &&& r.parcels@.len() == layout.regions@.len()
    &&& order.len() == layout.regions@.len()
    &&& forall|k: int|
        0 <= k < r.parcels@.len() ==> spec_reports(
            #[trigger] r.parcels@[k],
            order[k],
            after[order[k]],
            layout,
            is_lateral,
            to_pixel,
            skip_set_style,
        )
    &&& r.map.is_some() == named
    &&& r.map matches Some(m) ==> m@ == spec_length_map(r.parcels@)
}

/// Reports the region that grew, then the side that paid, then the other
/// side, and enters each length in the map where one is asked for.
fn report_all(
    is_lateral: bool,
    to_pixel: bool,
    layout: &Layout,
    parcel_name: Option<&str>,
    skip_set_style: bool,
    element: usize,
    to_len: u32,
    par_len: u32,
    siblings: &Vec<usize>,
    siblings_to_len: &Vec<u32>,
    siblings2: &Vec<usize>,
    Ghost(plan): Ghost<Plan>,
) -> (res: ParcelsResize)
    requires
        element < layout.regions@.len(),
        plan.growing == element,
        par_len == layout.extent(is_lateral),
        to_pixel || par_len > 0,
        siblings@.map_values(|i: usize| i as int) == spec_get_siblings(
            plan.to_left,
            layout.regions@.len(),
            element as int,
        ),
        siblings2@.map_values(|i: usize| i as int) == spec_get_siblings(
            !plan.to_left,
            layout.regions@.len(),
            element as int,
        ),
        siblings_to_len@.len() == siblings@.len(),
        to_len == spec_parcels_extents(plan, layout.extents(is_lateral))[element as int],
        forall|k: int|
            0 <= k < siblings@.len() ==> #[trigger] siblings_to_len@[k] as int == spec_parcels_extents(
                plan,
                layout.extents(is_lateral),
            )[siblings@[k] as int],
        forall|k: int|
            0 <= k < siblings2@.len() ==> layout.extents(is_lateral)[#[trigger] siblings2@[k] as int]
                == spec_parcels_extents(plan, layout.extents(is_lateral))[siblings2@[k] as int],
    ensures
        spec_reports_plan(res, plan, *layout, is_lateral, to_pixel, parcel_name.is_some(), skip_set_style),
{
    let ghost count = layout.regions@.len();
    let ghost walk = spec_get_siblings(plan.to_left, count, element as int);
    let ghost rest = spec_get_siblings(!plan.to_left, count, element as int);
    let ghost order = spec_report_order(plan, count);
    let ghost after = spec_parcels_extents(plan, layout.extents(is_lateral));
    assert(order.len() == count);

    let mut map = LengthMap::new();
    let mut parcels: Vec<ParcelResize> = Vec::new();
    let own = set_parcel_style_and_update_map(
        &layout.regions[element],
        element,
        to_len,
        par_len,
        &mut map,
        is_lateral,
        to_pixel,
        parcel_name,
        skip_set_style,
    );
    parcels.push(own);
    proof {
        lemma_length_map_push(Seq::<ParcelResize>::empty(), own);
        assert(parcels@ =~= Seq::<ParcelResize>::empty().push(own));
    }

    let mut j: usize = 0;
    while j < siblings.len()
        invariant
            0 <= j <= siblings@.len(),
            siblings_to_len@.len() == siblings@.len(),
            count == layout.regions@.len(),
            siblings@.map_values(|i: usize| i as int) == walk,
            walk == spec_get_siblings(plan.to_left, count, element as int),
            rest == spec_get_siblings(!plan.to_left, count, element as int),
            order == spec_report_order(plan, count),
            after == spec_parcels_extents(plan, layout.extents(is_lateral)),
            plan.growing == element,
            element < count,
            to_pixel || par_len > 0,
            par_len == layout.extent(is_lateral),
            forall|k: int|
                0 <= k < siblings@.len() ==> #[trigger] siblings_to_len@[k] as int
                    == after[siblings@[k] as int],
            parcels@.len() == 1 + j,
            forall|k: int|
                0 <= k < parcels@.len() ==> spec_reports(
                    #[trigger] parcels@[k],
                    order[k],
                    after[order[k]],
                    *layout,
                    is_lateral,
                    to_pixel,
                    skip_set_style,
                ),
            parcel_name.is_some() ==> map@ == spec_length_map(parcels@),
        decreases siblings@.len() - j,
    {
        let ghost before = parcels@;
        let sibling = siblings[j];
        assert(walk[j as int] == sibling);
        assert(order[1 + j] == walk[j as int]);
        let report = set_parcel_style_and_update_map(
            &layout.regions[sibling],
            sibling,
            siblings_to_len[j],
            par_len,
            &mut map,
            is_lateral,
            to_pixel,
            parcel_name,
            skip_set_style,
        );
        parcels.push(report);
        proof {
            lemma_length_map_push(before, report);
        }
        j += 1;
    }

    let mut j: usize = 0;
    while j < siblings2.len()
        invariant
            0 <= j <= siblings2@.len(),
            count == layout.regions@.len(),
            siblings@.len() == walk.len(),
            siblings2@.map_values(|i: usize| i as int) == rest,
            walk == spec_get_siblings(plan.to_left, count, element as int),
            rest == spec_get_siblings(!plan.to_left, count, element as int),
            order == spec_report_order(plan, count),
            after == spec_parcels_extents(plan, layout.extents(is_lateral)),
            plan.growing == element,
            element < count,
            to_pixel || par_len > 0,
            par_len == layout.extent(is_lateral),
            forall|k: int|
                0 <= k < siblings2@.len() ==> layout.extents(is_lateral)[#[trigger] siblings2@[k] as int]
                    == after[siblings2@[k] as int],
            parcels@.len() == 1 + siblings@.len() + j,
            forall|k: int|
                0 <= k < parcels@.len() ==> spec_reports(
                    #[trigger] parcels@[k],
                    order[k],
                    after[order[k]],
                    *layout,
                    is_lateral,
                    to_pixel,
                    skip_set_style,
                ),
            parcel_name.is_some() ==> map@ == spec_length_map(parcels@),
        decreases siblings2@.len() - j,
    {
        let ghost before = parcels@;
        let sibling = siblings2[j];
        assert(rest[j as int] == sibling);
        assert(order[1 + siblings@.len() + j] == rest[j as int]);
        let len = get_length(&layout.regions[sibling].rect, is_lateral);
        assert(layout.extents(is_lateral)[sibling as int] == len);
        let report = set_parcel_style_and_update_map(
            &layout.regions[sibling],
            sibling,
            len,
            par_len,
            &mut map,
            is_lateral,
            to_pixel,
            parcel_name,
            skip_set_style,
        );
        parcels.push(report);
        proof {
            lemma_length_map_push(before, report);
        }
        j += 1;
    }

    let map = if parcel_name.is_some() {
        Some(map)
    } else {
        None
    };
    ParcelsResize { parcels, map }
}

/// Entering one more report in the map of lengths.
pub proof fn lemma_length_map_push(parcels: Seq<ParcelResize>, p: ParcelResize)
    ensures
        spec_length_map(parcels.push(p)) == match p.key {
            Some(k) => spec_length_map(parcels).insert(k, p.length),
            None => spec_length_map(parcels),
        },
{
    assert(parcels.push(p).drop_last() =~= parcels);
}

/// The absorber is the first region of the walk that can give up the gap:
/// it can, and none before it can. Where there is none, no region can.
pub proof fn lemma_absorber_is_first(
    min_len: Option<StyleLength>,
    extents: Seq<int>,
    siblings: Seq<int>,
    gap: int,
    par_len: u32,
    from: int,
)
    requires
        0 <= from,
    ensures
        match spec_absorber(min_len, extents, siblings, gap, par_len, from) {
            Some(p) => {
                &&& from <= p < siblings.len()
                &&& spec_can_absorb(min_len, extents[siblings[p]], gap, par_len)
                &&& forall|k: int|
                    from <= k < p ==> !spec_can_absorb(min_len, extents[#[trigger] siblings[k]], gap, par_len)
            },
            None => forall|k: int|
                from <= k < siblings.len() ==> !spec_can_absorb(
                    min_len,
                    extents[#[trigger] siblings[k]],
                    gap,
                    par_len,
                ),
        },
    decreases siblings.len() - from,
{
    if from < siblings.len() && !spec_can_absorb(min_len, extents[siblings[from]], gap, par_len) {
        lemma_absorber_is_first(min_len, extents, siblings, gap, par_len, from + 1);
    }
}

/// What a plan holds: the region that grows and the one that pays are two
/// regions of the container, the second on the side the first grows towards.
/// The first stays inside the container and under its upper limit; the second
/// keeps something, and not less than its lower limit.
pub proof fn lemma_parcels_plan_sound(
    is_lateral: bool,
    to_left: bool,
    min_len: Option<StyleLength>,
    max_len: Option<StyleLength>,
    layout: Layout,
    e: Pointer,
)
    requires
        spec_parcels_plan(is_lateral, to_left, min_len, max_len, layout, e).is_some(),
    ensures
        ({
            let plan = spec_parcels_plan(is_lateral, to_left, min_len, max_len, layout, e).unwrap();
            let extents = layout.extents(is_lateral);
            let par_len = layout.extent(is_lateral);
            &&& 0 <= plan.growing < layout.regions@.len()
            &&& 0 <= plan.absorber < layout.regions@.len()
            &&& plan.to_left ==> plan.absorber < plan.growing
            &&& !plan.to_left ==> plan.absorber > plan.growing
            &&& plan.gap > 0
            &&& extents[plan.growing] + plan.gap <= par_len
            &&& max_len matches Some(limit) ==> limit.spec_max_check(
                (extents[plan.growing] + plan.gap) as u32,
                par_len,
            )
            &&& extents[plan.absorber] - plan.gap > 0
            &&& min_len matches Some(limit) ==> limit.spec_min_check(
                (extents[plan.absorber] - plan.gap) as u32,
                par_len,
            )
        }),
{
    let g = spec_growing(is_lateral, to_left, layout, e).unwrap();
    let extents = layout.extents(is_lateral);
    let par_len = layout.extent(is_lateral);
    let siblings = spec_get_siblings(g.to_left, layout.regions@.len(), g.index);
    lemma_absorber_is_first(min_len, extents, siblings, g.gap, par_len, 0);
}

/// A resize keeps the sum of the extents: what one region gains, another
/// gives up, and no third region changes.
pub proof fn lemma_parcels_conserve_total(
    is_lateral: bool,
    to_left: bool,
    min_len: Option<StyleLength>,
    max_len: Option<StyleLength>,
    layout: Layout,
    e: Pointer,
)
    requires
        spec_parcels_plan(is_lateral, to_left, min_len, max_len, layout, e).is_some(),
    ensures
        ({
            let plan = spec_parcels_plan(is_lateral, to_left, min_len, max_len, layout, e).unwrap();
            let before = layout.extents(is_lateral);
            let after = spec_parcels_extents(plan, before);
            &&& spec_total(after) == spec_total(before)
            &&& after.len() == before.len()
            &&& after[plan.growing] == before[plan.growing] + plan.gap
            &&& after[plan.absorber] == before[plan.absorber] - plan.gap
            &&& forall|i: int|
                0 <= i < before.len() && i != plan.growing && i != plan.absorber ==> after[i]
                    == before[i]
        }),
{
    let plan = spec_parcels_plan(is_lateral, to_left, min_len, max_len, layout, e).unwrap();
    let before = layout.extents(is_lateral);
    let grown = before.update(plan.growing, before[plan.growing] + plan.gap);
    lemma_parcels_plan_sound(is_lateral, to_left, min_len, max_len, layout, e);
    lemma_total_update(before, plan.growing, before[plan.growing] + plan.gap);
    lemma_total_update(grown, plan.absorber, before[plan.absorber] - plan.gap);
}

/// Where every region met both limits before a resize, every region meets
/// both after it, as an absolute size and as a share of the container.
pub proof fn lemma_parcels_keep_limits(
    is_lateral: bool,
    to_left: bool,
    min_len: Option<StyleLength>,
    max_len: Option<StyleLength>,
    layout: Layout,
    e: Pointer,
)
    requires
        spec_parcels_plan(is_lateral, to_left, min_len, max_len, layout, e).is_some(),
        forall|i: int|
            0 <= i < layout.regions@.len() ==> spec_meets_limits(
                min_len,
                max_len,
                (#[trigger] layout.regions@[i]).rect.extent(is_lateral),
                layout.extent(is_lateral),
            ),
    ensures
        ({
            let plan = spec_parcels_plan(is_lateral, to_left, min_len, max_len, layout, e).unwrap();
            let after = spec_parcels_extents(plan, layout.extents(is_lateral));
            let par_len = layout.extent(is_lateral);
            forall|i: int|
                0 <= i < layout.regions@.len() ==> {
                    let share = percent_of(#[trigger] after[i], par_len as int);
                    &&& 0 <= after[i] <= u32::MAX
                    &&& spec_meets_limits(min_len, max_len, after[i] as u32, par_len)
                    &&& min_len matches Some(limit) ==> limit.spec_check_min_limit(after[i], share)
                    &&& max_len matches Some(limit) ==> limit.spec_check_max_limit(after[i], share)
                }
        }),
{
    let plan = spec_parcels_plan(is_lateral, to_left, min_len, max_len, layout, e).unwrap();
    let before = layout.extents(is_lateral);
    let after = spec_parcels_extents(plan, before);
    let par_len = layout.extent(is_lateral);
    lemma_parcels_plan_sound(is_lateral, to_left, min_len, max_len, layout, e);
    assert forall|i: int| 0 <= i < layout.regions@.len() implies {
        let share = percent_of(#[trigger] after[i], par_len as int);
        &&& 0 <= after[i] <= u32::MAX
        &&& spec_meets_limits(min_len, max_len, after[i] as u32, par_len)
        &&& min_len matches Some(limit) ==> limit.spec_check_min_limit(after[i], share)
        &&& max_len matches Some(limit) ==> limit.spec_check_max_limit(after[i], share)
    } by {
        let was = layout.regions@[i].rect.extent(is_lateral);
        assert(before[i] == was);
        if i == plan.growing {
            if let Some(limit) = min_len {
                lemma_min_check_grows(limit, was, after[i] as u32, par_len);
            }
        } else if i == plan.absorber {
            if let Some(limit) = max_len {
                lemma_max_check_shrinks(limit, after[i] as u32, was, par_len);
            }
        }
        if let Some(limit) = min_len {
        }
        if let Some(limit) = max_len {
        }
    }
}

/// A pointer on the handle's edge changes nothing.
pub proof fn lemma_parcels_still(
    is_lateral: bool,
    to_left: bool,
    min_len: Option<StyleLength>,
    max_len: Option<StyleLength>,
    layout: Layout,
    e: Pointer,
)
    requires
        layout.owner < layout.regions@.len(),
        spec_gap(layout.regions@[layout.owner as int].rect, e, is_lateral, to_left) == 0,
    ensures
        spec_parcels_plan(is_lateral, to_left, min_len, max_len, layout, e).is_none(),
{
}

/// Where no region of a walk can give up a gap, none can give up a larger one.
proof fn lemma_absorber_none_farther(
    min_len: Option<StyleLength>,
    layout: Layout,
    is_lateral: bool,
    siblings: Seq<int>,
    gap: int,
    gap_farther: int,
    from: int,
)
    requires
        0 <= from,
        0 < gap <= gap_farther,
        layout.extent(is_lateral) > 0,
        forall|k: int| 0 <= k < siblings.len() ==> 0 <= #[trigger] siblings[k] < layout.regions@.len(),
        spec_absorber(
            min_len,
            layout.extents(is_lateral),
            siblings,
            gap,
            layout.extent(is_lateral),
            from,
        ).is_none(),
    ensures
        spec_absorber(
            min_len,
            layout.extents(is_lateral),
            siblings,
            gap_farther,
            layout.extent(is_lateral),
            from,
        ).is_none(),
    decreases siblings.len() - from,
{
    if from < siblings.len() {
        let len = layout.extents(is_lateral)[siblings[from]];
        if len - gap_farther > 0 {
            if let Some(limit) = min_len {
                if limit.spec_min_check((len - gap_farther) as u32, layout.extent(is_lateral)) {
                    lemma_min_check_grows(
                        limit,
                        (len - gap_farther) as u32,
                        (len - gap) as u32,
                        layout.extent(is_lateral),
                    );
                }
            }
        }
        lemma_absorber_none_farther(min_len, layout, is_lateral, siblings, gap, gap_farther, from + 1);
    }
}

/// Beyond a refused sample every sample is refused: where the pointer is off
/// the handle's edge and changes nothing, a pointer farther out on the same
/// side changes nothing either. No region is ever set to the limit that
/// stopped the resize.
pub proof fn lemma_parcels_sticky(
    is_lateral: bool,
    to_left: bool,
    min_len: Option<StyleLength>,
    max_len: Option<StyleLength>,
    layout: Layout,
    e: Pointer,
    farther: Pointer,
)
    requires
        layout.owner < layout.regions@.len(),
        spec_parcels_plan(is_lateral, to_left, min_len, max_len, layout, e).is_none(),
        ({
            let rect = layout.regions@[layout.owner as int].rect;
            let gap = spec_gap(rect, e, is_lateral, to_left);
            let gap_farther = spec_gap(rect, farther, is_lateral, to_left);
            (0 < gap <= gap_farther) || (gap_farther <= gap < 0)
        }),
    ensures
        spec_parcels_plan(is_lateral, to_left, min_len, max_len, layout, farther).is_none(),
{
    if let Some(g) = spec_growing(is_lateral, to_left, layout, e) {
        let h = spec_growing(is_lateral, to_left, layout, farther).unwrap();
        let par_len = layout.extent(is_lateral);
        let extents = layout.extents(is_lateral);
        let siblings = spec_get_siblings(g.to_left, layout.regions@.len(), g.index);
        assert(h.index == g.index && h.to_left == g.to_left && g.gap <= h.gap);
        let to_len = extents[g.index] + g.gap;
        let to_len_farther = extents[g.index] + h.gap;
        if to_len_farther <= par_len && (max_len matches Some(limit) ==> limit.spec_max_check(
            to_len_farther as u32,
            par_len,
        )) {
            if let Some(limit) = max_len {
                lemma_max_check_shrinks(limit, to_len as u32, to_len_farther as u32, par_len);
            }
            lemma_absorber_none_farther(min_len, layout, is_lateral, siblings, g.gap, h.gap, 0);
        }
    }
}

} // verus!
