//! A model of the Core Bridge's guardian set accounts across successive guardian set updates.
//!
//! Guardian set accounts live at addresses derived from their index (the seeds are the guardian
//! set seed prefix and the index in big endian), so the model keeps them in a map keyed by index.

use vstd::prelude::*;
use crate::guardian_set::{Config, GuardianSet};

verus! {

/// What a guardian set account holds.
pub struct GuardianSetRecord {
    pub index: int,
    pub keys: Seq<Seq<u8>>,
    pub creation_time: int,
    pub expiration_time: int,
}

/// The configuration and the guardian set accounts, keyed by guardian set index.
pub struct BridgeModel {
    pub guardian_set_index: int,
    pub guardian_set_ttl: int,
    pub guardian_sets: Map<int, GuardianSetRecord>,
}

/// What one guardian set update brings: the new guardians, the governance VAA's timestamp and
/// the time at which the update runs.
pub struct UpdateStep {
    pub keys: Seq<Seq<u8>>,
    pub creation_time: int,
    pub now: int,
}

/// The record of a guardian set account.
pub open spec fn record_of(set: GuardianSet) -> GuardianSetRecord {
    GuardianSetRecord {
        index: set.index as int,
        keys: set.keys_seq(),
        creation_time: set.creation_time as int,
        expiration_time: set.expiration_time as int,
    }
}

/// The model of a configuration together with guardian set accounts.
pub open spec fn model_of(config: Config, guardian_sets: Map<int, GuardianSetRecord>) -> BridgeModel {
    BridgeModel {
        guardian_set_index: config.guardian_set_index as int,
        guardian_set_ttl: config.guardian_set_ttl as int,
        guardian_sets,
    }
}

/// One successful guardian set update: the current set expires `ttl` seconds after `now`, a new
/// set with the next index is created (not expiring), and the configuration points at it.
pub open spec fn apply_update(m: BridgeModel, step: UpdateStep) -> BridgeModel {
    let i = m.guardian_set_index;
    let curr = m.guardian_sets[i];
    BridgeModel {
        guardian_set_index: i + 1,
        guardian_set_ttl: m.guardian_set_ttl,
        guardian_sets: m.guardian_sets.insert(
            i,
            GuardianSetRecord { expiration_time: step.now + m.guardian_set_ttl, ..curr },
        ).insert(
            i + 1,
            GuardianSetRecord {
                index: i + 1,
                keys: step.keys,
                creation_time: step.creation_time,
                expiration_time: 0,
            },
        ),
    }
}

/// Successive successful guardian set updates, in order.
pub open spec fn apply_updates(m: BridgeModel, steps: Seq<UpdateStep>) -> BridgeModel
    decreases steps.len(),
{
    if steps.len() == 0 {
        m
    } else {
        apply_update(apply_updates(m, steps.drop_last()), steps.last())
    }
}

/// With `i0` the starting index, each update `j` (counting from 1) created the set `i0 + j` with
/// its guardians and creation time.
pub open spec fn created_as_announced(m: BridgeModel, steps: Seq<UpdateStep>, r: BridgeModel) -> bool {
    &&& forall|i: int|
        m.guardian_set_index + 1 <= i <= m.guardian_set_index + steps.len()
            ==> #[trigger] r.guardian_sets.contains_key(i)
    &&& forall|i: int|
        m.guardian_set_index + 1 <= i <= m.guardian_set_index + steps.len() ==> {
            &&& (#[trigger] r.guardian_sets[i]).keys == steps[i - m.guardian_set_index - 1].keys
            &&& r.guardian_sets[i].creation_time == steps[i - m.guardian_set_index - 1].creation_time
            &&& r.guardian_sets[i].index == i
        }
}

/// With `i0` the starting index, each update `j` (counting from 0) made the set `i0 + j` expire
/// `ttl` seconds after that update's time.
pub open spec fn expired_in_turn(m: BridgeModel, steps: Seq<UpdateStep>, r: BridgeModel) -> bool {
    forall|i: int|
        m.guardian_set_index <= i < m.guardian_set_index + steps.len() ==> (
        #[trigger] r.guardian_sets[i]).expiration_time == steps[i - m.guardian_set_index].now
            + m.guardian_set_ttl
}

/// Guardian sets outside the indices that the updates touched are as they were.
pub open spec fn others_untouched(m: BridgeModel, steps: Seq<UpdateStep>, r: BridgeModel) -> bool {
    &&& forall|i: int|
        !(m.guardian_set_index <= i <= m.guardian_set_index + steps.len()) ==> (
        #[trigger] r.guardian_sets.contains_key(i) == m.guardian_sets.contains_key(i))
    &&& forall|i: int|
        !(m.guardian_set_index <= i <= m.guardian_set_index + steps.len())
            && m.guardian_sets.contains_key(i) ==> #[trigger] r.guardian_sets[i] == m.guardian_sets[i]
}

/// After `k` successful guardian set updates starting from index `i0`, the configuration's index
/// is `i0 + k`; the `j`th update created the set `i0 + j` with its guardians and creation time,
/// and made the set `i0 + j - 1` expire `ttl` seconds after that update's time; the set at the
/// configuration's index is the latest one and does not expire; sets with other indices are
/// untouched.
pub proof fn lemma_successive_updates(m: BridgeModel, steps: Seq<UpdateStep>)
    requires
        m.guardian_sets.contains_key(m.guardian_set_index),
    ensures
        apply_updates(m, steps).guardian_set_index == m.guardian_set_index + steps.len(),
        apply_updates(m, steps).guardian_set_ttl == m.guardian_set_ttl,
        apply_updates(m, steps).guardian_sets.contains_key(apply_updates(m, steps).guardian_set_index),
        created_as_announced(m, steps, apply_updates(m, steps)),
        expired_in_turn(m, steps, apply_updates(m, steps)),
        steps.len() > 0 ==> apply_updates(m, steps).guardian_sets[apply_updates(
            m,
            steps,
        ).guardian_set_index].expiration_time == 0,
        steps.len() > 0 ==> {
            let r = apply_updates(m, steps).guardian_sets[m.guardian_set_index];
            let s = m.guardian_sets[m.guardian_set_index];
            r.keys == s.keys && r.creation_time == s.creation_time
        },
        others_untouched(m, steps, apply_updates(m, steps)),
    decreases steps.len(),
{
    if steps.len() > 0 {
        let prev = steps.drop_last();
        lemma_successive_updates(m, prev);
        let p = apply_updates(m, prev);
        let r = apply_updates(m, steps);
        let k = steps.len() as int;
        assert(r == apply_update(p, steps.last()));
        assert(p.guardian_set_index == m.guardian_set_index + k - 1);
        assert forall|i: int| m.guardian_set_index + 1 <= i <= m.guardian_set_index + steps.len()
            implies #[trigger] r.guardian_sets.contains_key(i) by {
            if i < m.guardian_set_index + k {
                let _ = p.guardian_sets[i];
            }
        }
        assert forall|i: int| m.guardian_set_index + 1 <= i <= m.guardian_set_index + steps.len() implies {
            &&& (#[trigger] r.guardian_sets[i]).keys == steps[i - m.guardian_set_index - 1].keys
            &&& r.guardian_sets[i].creation_time == steps[i - m.guardian_set_index - 1].creation_time
            &&& r.guardian_sets[i].index == i
        } by {
            if i < m.guardian_set_index + k {
                assert(prev[i - m.guardian_set_index - 1] == steps[i - m.guardian_set_index - 1]);
                let _ = p.guardian_sets[i];
            }
        }
        assert forall|i: int| m.guardian_set_index <= i < m.guardian_set_index + steps.len() implies (
        #[trigger] r.guardian_sets[i]).expiration_time == steps[i - m.guardian_set_index].now
            + m.guardian_set_ttl by {
            if i < m.guardian_set_index + k - 1 {
                assert(prev[i - m.guardian_set_index] == steps[i - m.guardian_set_index]);
                let _ = p.guardian_sets[i];
            }
        }
        if k > 1 {
            let _ = p.guardian_sets[m.guardian_set_index];
        }
        assert forall|i: int| !(m.guardian_set_index <= i <= m.guardian_set_index + steps.len())
            implies (#[trigger] r.guardian_sets.contains_key(i) == m.guardian_sets.contains_key(i)) by {
            let _ = p.guardian_sets.contains_key(i);
        }
        assert forall|i: int| !(m.guardian_set_index <= i <= m.guardian_set_index + steps.len())
            && m.guardian_sets.contains_key(i) implies #[trigger] r.guardian_sets[i]
            == m.guardian_sets[i] by {
            let _ = p.guardian_sets[i];
        }
    } else {
        assert(apply_updates(m, steps) == m);
    }
}

} // verus!
