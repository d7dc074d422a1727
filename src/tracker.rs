//! The change tracker: the last counter seen for each title.

use std::collections::HashMap;
use vstd::prelude::*;

verus! {

broadcast use vstd::std_specs::hash::group_hash_axioms;

/// A new counter is an update when the title was seen before, its last
/// counter was known (non-zero), and the new counter differs from it.
pub open spec fn is_update(seen: Map<u64, u64>, id: u64, new_number: u64) -> bool {
    seen.contains_key(id) && seen[id] != 0 && seen[id] != new_number
}

/// What `check_update` answers, call after call, for the counters `obs` of
/// one title, starting from the map `seen`.
pub open spec fn replay(seen: Map<u64, u64>, id: u64, obs: Seq<u64>) -> Seq<bool>
    decreases obs.len(),
{
    if obs.len() == 0 {
        Seq::empty()
    } else {
        seq![is_update(seen, id, obs[0])] + replay(seen.insert(id, obs[0]), id, obs.drop_first())
    }
}

pub struct GameVersionManager {
    ids: Vec<i32>,
    apps: HashMap<u64, u64>,
}

impl GameVersionManager {
    /// The last counter seen for each title.
    pub closed spec fn counters(&self) -> Map<u64, u64> {
        self.apps@
    }

    /// The identifiers of the known titles.
    pub closed spec fn titles(&self) -> Seq<i32> {
        self.ids@
    }

    /// A tracker over the given titles that has seen nothing yet.
    pub fn new(ids: Vec<i32>) -> (r: Self)
        ensures
            r.counters() == Map::<u64, u64>::empty(),
            r.titles() == ids@,
    {
        GameVersionManager { ids, apps: HashMap::new() }
    }

    /// The identifiers of the known titles.
    pub fn get_apps(&self) -> (r: Vec<i32>)
        ensures
            r@ == self.titles(),
    {
        self.ids.clone()
    }

    /// The last counter seen for `id`.
    pub fn last_counter(&self, id: u64) -> (r: Option<u64>)
        ensures
            r == (if self.counters().contains_key(id) {
                Some(self.counters()[id])
            } else {
                None
            }),
    {
        match self.apps.get(&id) {
            Some(v) => Some(*v),
            None => None,
        }
    }

    /// Records `new_number` as the last counter of `id`; true when that is an
    /// update of the title.
    pub fn check_update(&mut self, id: u64, new_number: u64) -> (r: bool)
        ensures
            r == is_update(old(self).counters(), id, new_number),
            final(self).counters() == old(self).counters().insert(id, new_number),
            final(self).titles() == old(self).titles(),
    {
        if let Some(old_num) = self.apps.insert(id, new_number) {
            if old_num != 0 && old_num != new_number {
                return true;
            }
        }
        false
    }
}

proof fn lemma_replay_from(seen: Map<u64, u64>, id: u64, obs: Seq<u64>)
    ensures
        replay(seen, id, obs).len() == obs.len(),
        forall|i: int|
            0 < i < obs.len() ==> #[trigger] replay(seen, id, obs)[i] == (obs[i - 1] != 0 && obs[i
                - 1] != obs[i]),
        obs.len() > 0 ==> replay(seen, id, obs)[0] == is_update(seen, id, obs[0]),
    decreases obs.len(),
{
    if obs.len() > 0 {
        let rest = obs.drop_first();
        let next = seen.insert(id, obs[0]);
        lemma_replay_from(next, id, rest);
        assert forall|i: int| 0 < i < obs.len() implies #[trigger] replay(seen, id, obs)[i] == (
        obs[i - 1] != 0 && obs[i - 1] != obs[i]) by {
            assert(replay(seen, id, obs)[i] == replay(next, id, rest)[i - 1]);
            if i > 1 {
                assert(rest[i - 2] == obs[i - 1]);
            }
        }
    }
}

/// For the counters observed of one title, from its first observation on,
/// `check_update` answers true exactly where the previous counter was
/// non-zero and differs from the new one: never on the first observation,
/// never on a repeat.
pub proof fn lemma_updates_are_transitions(seen: Map<u64, u64>, id: u64, obs: Seq<u64>)
    requires
        !seen.contains_key(id),
    ensures
        replay(seen, id, obs).len() == obs.len(),
        forall|i: int|
            0 <= i < obs.len() ==> #[trigger] replay(seen, id, obs)[i] == (i > 0 && obs[i - 1]
                != 0 && obs[i - 1] != obs[i]),
{
    lemma_replay_from(seen, id, obs);
}

} // verus!
