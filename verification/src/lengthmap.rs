use vstd::prelude::*;
use crate::stylelength::StyleLength;

verus! {

/// The lengths reported for the regions of a container, by the regions' keys.
/// It is a `hashbrown::HashMap`. Proofs do not see inside it: what it holds
/// is named by `map_entries`, and the functions below say how each call of the
/// map changes that.
#[verifier::external_body]
#[derive(Debug)]
pub struct LengthMap {
    inner: hashbrown::HashMap<u64, StyleLength>,
}

/// What a `LengthMap` holds: the length under each key.
pub uninterp spec fn map_entries(m: LengthMap) -> Map<u64, StyleLength>;

/// `hashbrown::HashMap::new`: the new map holds nothing.
#[verifier::external_body]
fn map_new() -> (m: LengthMap)
    ensures
        map_entries(m) =~= Map::empty(),
{
    LengthMap { inner: hashbrown::HashMap::new() }
}

/// `hashbrown::HashMap::insert`: afterwards `k` maps to `v` and every other
/// key to what it mapped to; the answer is what `k` mapped to before.
#[verifier::external_body]
fn map_insert(m: &mut LengthMap, k: u64, v: StyleLength) -> (prev: Option<StyleLength>)
    ensures
        map_entries(*final(m)) == map_entries(*old(m)).insert(k, v),
        prev == map_entries(*old(m)).get(k),
{
    m.inner.insert(k, v)
}

/// `hashbrown::HashMap::get`: the length under `k`, if the map holds one.
#[verifier::external_body]
fn map_get(m: &LengthMap, k: u64) -> (res: Option<StyleLength>)
    ensures
        res == map_entries(*m).get(k),
{
    m.inner.get(&k).copied()
}

/// `hashbrown::HashMap::into_iter`: every key comes out once, with its length,
/// and nothing else comes out. The order is not told.
#[verifier::external_body]
fn map_into_entries(m: LengthMap) -> (res: Vec<(u64, StyleLength)>)
    ensures
        forall|k: u64, v: StyleLength| res@.contains((k, v)) <==> map_entries(m).contains_pair(k, v),
        forall|i: int, j: int| 0 <= i < j < res@.len() ==> res@[i].0 != res@[j].0,
{
    m.inner.into_iter().collect()
}

impl LengthMap {
    /// What the map holds.
    pub open spec fn view(&self) -> Map<u64, StyleLength> {
        map_entries(*self)
    }

    /// A map that holds nothing.
    pub fn new() -> (m: LengthMap)
        ensures
            m@ == Map::<u64, StyleLength>::empty(),
    {
        map_new()
    }

    /// Puts `v` under `k` and answers what stood there before.
    pub fn insert(&mut self, k: u64, v: StyleLength) -> (prev: Option<StyleLength>)
        ensures
            final(self)@ == old(self)@.insert(k, v),
            prev == old(self)@.get(k),
    {
        map_insert(self, k, v)
    }

    /// The length under `k`, if the map holds one.
    pub fn get(&self, k: u64) -> (res: Option<StyleLength>)
        ensures
            res == self@.get(k),
    {
        map_get(self, k)
    }

    /// All keys with their lengths, each key once, in no order to rely on.
    pub fn into_entries(self) -> (res: Vec<(u64, StyleLength)>)
        ensures
            forall|k: u64, v: StyleLength| res@.contains((k, v)) <==> self@.contains_pair(k, v),
            forall|i: int, j: int| 0 <= i < j < res@.len() ==> res@[i].0 != res@[j].0,
    {
        map_into_entries(self)
    }
}

} // verus!
