//! Processor for guardian set update governance decrees. The instruction updates the guardian
//! set index in the Core Bridge configuration, creates a new guardian set with the guardians
//! encoded in the governance VAA and sets the expiration time of the current guardian set.

use vstd::prelude::*;
use crate::error::CoreBridgeError;
use crate::governance::{
    decree_guardian, decree_guardians, decree_new_index, decree_num_guardians, gov_payload_ok,
    is_guardian_set_update, read_core_bridge_decree, read_guardian_at, readable_payload_len,
    CoreBridgeDecree,
};
use crate::guardian_set::{
    check_guardian_keys, guardian_keys_check, guardian_set_size, keys_view,
    lemma_keys_check_ok_iff_valid, valid_guardian_keys, Config, GuardianSet,
};
use crate::model::{
    apply_update, apply_updates, created_as_announced, expired_in_turn, lemma_successive_updates,
    model_of, others_untouched, record_of, GuardianSetRecord, UpdateStep,
};

verus! {

/// What the guardian set update instruction reads and writes: the configuration, the current
/// guardian set, and the payload and timestamp of the governance VAA.
#[derive(Debug)]
pub struct GuardianSetUpdate {
    /// The Core Bridge configuration.
    pub config: Config,
    /// The current guardian set. The program finds it at the address derived from the
    /// configuration's guardian set index, so its index is that index.
    pub curr_guardian_set: GuardianSet,
    /// Payload of the posted governance VAA.
    pub vaa_payload: Vec<u8>,
    /// Timestamp of the posted governance VAA, which becomes the new set's creation time.
    pub vaa_timestamp: u32,
}

/// The account size to reserve for the new guardian set, read from a governance payload:
/// `InvalidGovernanceVaa` when it is not a Core Bridge governance payload, and
/// `InvalidGovernanceAction` when its decree is not a guardian set update.
pub open spec fn compute_size_for(payload: Seq<u8>) -> Result<int, CoreBridgeError> {
    if !gov_payload_ok(payload) {
        Err(CoreBridgeError::InvalidGovernanceVaa)
    } else if !is_guardian_set_update(payload) {
        Err(CoreBridgeError::InvalidGovernanceAction)
    } else {
        Ok(guardian_set_size(decree_num_guardians(payload) as int))
    }
}

/// The access control check: the encoded guardian set index must be the next value after the
/// current guardian set index.
pub open spec fn constraints_check(config: Config, payload: Seq<u8>) -> Result<(), CoreBridgeError> {
    if decree_new_index(payload) == config.guardian_set_index + 1 {
        Ok(())
    } else {
        Err(CoreBridgeError::InvalidGuardianSetIndex)
    }
}

/// Reads the governance decree to find the size of the new guardian set account, which depends
/// on how many guardian addresses the decree encodes.
///
/// This only determines the account size. In the program, a payload that reads as a guardian set
/// update but is otherwise invalid makes the instruction revert later, in the governance VAA
/// validity check of access control; that check is not performed by this library.
pub fn try_compute_size(payload: &[u8]) -> (r: Result<usize, CoreBridgeError>)
    requires
        readable_payload_len(payload@),
    ensures
        match r {
            Ok(size) => compute_size_for(payload@) == Ok::<int, CoreBridgeError>(size as int),
            Err(e) => compute_size_for(payload@) == Err::<int, CoreBridgeError>(e),
        },
        r matches Ok(size) ==> is_guardian_set_update(payload@) && size == 24 + 20
            * decree_num_guardians(payload@) && size == 24 + 20 * payload@[39],
        is_guardian_set_update(payload@) ==> r is Ok,
        !gov_payload_ok(payload@) ==> r == Err::<usize, CoreBridgeError>(
            CoreBridgeError::InvalidGovernanceVaa,
        ),
        gov_payload_ok(payload@) && !is_guardian_set_update(payload@) ==> r == Err::<
            usize,
            CoreBridgeError,
        >(CoreBridgeError::InvalidGovernanceAction),
{
    match read_core_bridge_decree(payload) {
        None => Err(CoreBridgeError::InvalidGovernanceVaa),
        Some(CoreBridgeDecree::Other) => Err(CoreBridgeError::InvalidGovernanceAction),
        Some(CoreBridgeDecree::GuardianSetUpdate { num_guardians, .. }) => {
            Ok(GuardianSet::compute_size(num_guardians as usize))
        },
    }
}

/// Decodes the guardian addresses of a guardian set update payload, in order.
pub fn decode_guardian_keys(payload: &[u8]) -> (keys: Vec<[u8; 20]>)
    requires
        is_guardian_set_update(payload@),
    ensures
        keys_view(keys@) == decree_guardians(payload@),
        keys@.len() == payload@[39],
        forall|i: int|
            0 <= i < keys@.len() ==> #[trigger] keys@[i]@ == payload@.subrange(40 + 20 * i, 60 + 20 * i),
{
    let num_guardians = match read_core_bridge_decree(payload) {
        Some(CoreBridgeDecree::GuardianSetUpdate { num_guardians, .. }) => num_guardians,
        _ => 0,
    };
    let n = num_guardians as usize;
    let mut keys: Vec<[u8; 20]> = Vec::new();
    let mut i: usize = 0;
    while i < n
        invariant
            is_guardian_set_update(payload@),
            n == decree_num_guardians(payload@),
            0 <= i <= n,
            keys@.len() == i,
            forall|k: int| 0 <= k < i ==> #[trigger] keys@[k]@ == decree_guardian(payload@, k),
        decreases n - i,
    {
        let key = read_guardian_at(payload, i);
        keys.push(key);
        i = i + 1;
    }
    assert(keys_view(keys@) =~= decree_guardians(payload@));
    assert forall|i: int| 0 <= i < keys@.len() implies #[trigger] keys@[i]@ == payload@.subrange(
        40 + 20 * i,
        60 + 20 * i,
    ) by {
        assert(keys_view(keys@)[i] == keys@[i]@);
    }
    keys
}

/// The model step that a guardian set update payload brings, with the VAA's timestamp and the
/// time at which the update runs.
pub open spec fn update_step_of(payload: Seq<u8>, creation_time: u32, now: u32) -> UpdateStep {
    UpdateStep {
        keys: decree_guardians(payload),
        creation_time: creation_time as int,
        now: now as int,
    }
}

/// A successful update acts on every model of the accounts whose current guardian set is the
/// account at the configuration's index as one [`apply_update`] step: the updated model holds
/// the configuration after the call, the current set as it is after the call and the new set.
pub open spec fn update_matches_model(
    old_accounts: GuardianSetUpdate,
    new_accounts: GuardianSetUpdate,
    new_set: GuardianSet,
    now: u32,
) -> bool {
    forall|sets: Map<int, GuardianSetRecord>|
        sets.contains_key(old_accounts.config.guardian_set_index as int)
            && sets[old_accounts.config.guardian_set_index as int] == record_of(
            old_accounts.curr_guardian_set,
        ) ==> #[trigger] apply_update(
            model_of(old_accounts.config, sets),
            update_step_of(old_accounts.vaa_payload@, old_accounts.vaa_timestamp, now),
        ) == model_of(
            new_accounts.config,
            sets.insert(
                old_accounts.config.guardian_set_index as int,
                record_of(new_accounts.curr_guardian_set),
            ).insert(new_set.index as int, record_of(new_set)),
        )
}

impl GuardianSetUpdate {
    /// Access control for the instruction: the encoded guardian set index must be the next
    /// value after the current guardian set index.
    ///
    /// The account constraints have already found the payload to be a guardian set update
    /// (when sizing the new account); the index must have a successor.
    ///
    /// The program's access control also checks that the governance VAA is valid (emitter,
    /// chain, latest guardian set); this library does not perform that check.
    pub fn constraints(&self) -> (r: Result<(), CoreBridgeError>)
        requires
            is_guardian_set_update(self.vaa_payload@),
            self.config.guardian_set_index < u32::MAX,
        ensures
            r == constraints_check(self.config, self.vaa_payload@),
            r is Ok <==> decree_new_index(self.vaa_payload@) == self.config.guardian_set_index + 1,
            r is Err ==> r == Err::<(), CoreBridgeError>(CoreBridgeError::InvalidGuardianSetIndex),
    {
        let new_index = match read_core_bridge_decree(self.vaa_payload.as_slice()) {
            Some(CoreBridgeDecree::GuardianSetUpdate { new_index, .. }) => new_index,
            _ => 0,
        };
        if new_index == self.config.guardian_set_index + 1 {
            Ok(())
        } else {
            Err(CoreBridgeError::InvalidGuardianSetIndex)
        }
    }
}

/// Processes a guardian set update decree, with the handler's access control first. The
/// encoded guardian set index must be the next value after the current one
/// ([`GuardianSetUpdate::constraints`]); then the guardian addresses encoded in the decree must
/// be a valid guardian set (see [`check_guardian_keys`]); then the configuration's guardian set
/// index moves to the next value, the new guardian set is returned (with that index, the VAA's
/// timestamp as creation time and no expiration), and the current guardian set expires
/// `guardian_set_ttl` seconds after `now`.
///
/// On an error nothing changes. The expiration time must not overflow for a decree that passes
/// the checks.
///
/// This library does not perform the instruction's other steps: it does not check the
/// governance VAA's validity (emitter, chain and that the latest guardian set attested to it),
/// it does not claim the VAA against replay, and it does not load the VAA account (the payload
/// and timestamp are given in [`GuardianSetUpdate`]).
pub fn guardian_set_update(accounts: &mut GuardianSetUpdate, now: u32) -> (r: Result<
    GuardianSet,
    CoreBridgeError,
>)
    requires
        is_guardian_set_update(old(accounts).vaa_payload@),
        old(accounts).curr_guardian_set.index == old(accounts).config.guardian_set_index,
        old(accounts).config.guardian_set_index < u32::MAX,
        constraints_check(old(accounts).config, old(accounts).vaa_payload@) is Ok
            && valid_guardian_keys(decree_guardians(old(accounts).vaa_payload@))
            ==> now + old(accounts).config.guardian_set_ttl <= u32::MAX,
    ensures
        match r {
            Err(e) => {
                &&& match constraints_check(old(accounts).config, old(accounts).vaa_payload@) {
                    Err(index_error) => e == index_error,
                    Ok(_) => guardian_keys_check(decree_guardians(old(accounts).vaa_payload@))
                        == Err::<(), CoreBridgeError>(e),
                }
                &&& final(accounts).config == old(accounts).config
                &&& final(accounts).curr_guardian_set.index == old(accounts).curr_guardian_set.index
                &&& final(accounts).curr_guardian_set.keys@
                    == old(accounts).curr_guardian_set.keys@
                &&& final(accounts).curr_guardian_set.creation_time
                    == old(accounts).curr_guardian_set.creation_time
                &&& final(accounts).curr_guardian_set.expiration_time
                    == old(accounts).curr_guardian_set.expiration_time
            },
            Ok(new_set) => {
                &&& constraints_check(old(accounts).config, old(accounts).vaa_payload@) is Ok
                &&& guardian_keys_check(decree_guardians(old(accounts).vaa_payload@)) is Ok
                &&& valid_guardian_keys(new_set.keys_seq())
                &&& new_set.index == decree_new_index(old(accounts).vaa_payload@)
                &&& new_set.index == old(accounts).config.guardian_set_index + 1
                &&& new_set.index == old(accounts).curr_guardian_set.index + 1
                &&& new_set.keys_seq() == decree_guardians(old(accounts).vaa_payload@)
                &&& new_set.creation_time == old(accounts).vaa_timestamp
                &&& new_set.expiration_time == 0
                &&& update_matches_model(*old(accounts), *final(accounts), new_set, now)
                &&& final(accounts).config.guardian_set_index
                    == old(accounts).config.guardian_set_index + 1
                &&& final(accounts).config.guardian_set_ttl == old(accounts).config.guardian_set_ttl
                &&& final(accounts).curr_guardian_set.index == old(accounts).curr_guardian_set.index
                &&& final(accounts).curr_guardian_set.keys@
                    == old(accounts).curr_guardian_set.keys@
                &&& final(accounts).curr_guardian_set.creation_time
                    == old(accounts).curr_guardian_set.creation_time
                &&& final(accounts).curr_guardian_set.expiration_time
                    == now + old(accounts).config.guardian_set_ttl
            },
        },
        final(accounts).vaa_payload@ == old(accounts).vaa_payload@,
        final(accounts).vaa_timestamp == old(accounts).vaa_timestamp,
{
    // Access control runs before the handler's body.
    match accounts.constraints() {
        Err(e) => {
            return Err(e);
        },
        Ok(()) => {},
    }
    let keys = decode_guardian_keys(accounts.vaa_payload.as_slice());
    match check_guardian_keys(&keys) {
        Err(e) => {
            return Err(e);
        },
        Ok(()) => {},
    }
    let creation_time = accounts.vaa_timestamp;

    // Set the new index on the config program data.
    accounts.config.guardian_set_index = accounts.config.guardian_set_index + 1;

    let new_set = GuardianSet {
        index: accounts.config.guardian_set_index,
        keys,
        creation_time,
        expiration_time: 0,
    };

    // Now set the expiration time for the current guardian set.
    accounts.curr_guardian_set.expiration_time = now + accounts.config.guardian_set_ttl;

    proof {
        let old_index = old(accounts).config.guardian_set_index as int;
        assert forall|sets: Map<int, GuardianSetRecord>|
            sets.contains_key(old_index) && sets[old_index] == record_of(
                old(accounts).curr_guardian_set,
            ) implies #[trigger] apply_update(
            model_of(old(accounts).config, sets),
            update_step_of(old(accounts).vaa_payload@, old(accounts).vaa_timestamp, now),
        ) == model_of(
            accounts.config,
            sets.insert(old_index, record_of(accounts.curr_guardian_set)).insert(
                new_set.index as int,
                record_of(new_set),
            ),
        ) by {
            assert(record_of(accounts.curr_guardian_set) =~= (GuardianSetRecord {
                expiration_time: now + old(accounts).config.guardian_set_ttl,
                ..sets[old_index]
            }));
            assert(record_of(new_set) =~= (GuardianSetRecord {
                index: old_index + 1,
                keys: decree_guardians(old(accounts).vaa_payload@),
                creation_time: old(accounts).vaa_timestamp as int,
                expiration_time: 0,
            }));
        }
    }

    Ok(new_set)
}

/// The checks and state changes of the guardian set update instruction that this library
/// performs, in the order in which the program applies them: sizing the new guardian set account
/// from the decree ([`try_compute_size`]), then the handler with its access control
/// ([`guardian_set_update`]). The first step that fails decides the error, and on an error
/// nothing changes.
///
/// Not performed here (nor by anything in this crate): the governance VAA validity check
/// (emitter, chain, latest guardian set), the claim of the VAA against replay, loading the VAA
/// account, and writing the new guardian set account.
pub fn process_guardian_set_update(accounts: &mut GuardianSetUpdate, now: u32) -> (r: Result<
    GuardianSet,
    CoreBridgeError,
>)
    requires
        readable_payload_len(old(accounts).vaa_payload@),
        old(accounts).curr_guardian_set.index == old(accounts).config.guardian_set_index,
        is_guardian_set_update(old(accounts).vaa_payload@)
            ==> old(accounts).config.guardian_set_index < u32::MAX,
        is_guardian_set_update(old(accounts).vaa_payload@) && constraints_check(
            old(accounts).config,
            old(accounts).vaa_payload@,
        ) is Ok && valid_guardian_keys(decree_guardians(old(accounts).vaa_payload@))
            ==> now + old(accounts).config.guardian_set_ttl <= u32::MAX,
    ensures
        match r {
            Err(e) => {
                &&& match compute_size_for(old(accounts).vaa_payload@) {
                    Err(size_error) => e == size_error,
                    Ok(_) => match constraints_check(old(accounts).config, old(accounts).vaa_payload@) {
                        Err(index_error) => e == index_error,
                        Ok(_) => guardian_keys_check(decree_guardians(old(accounts).vaa_payload@))
                            == Err::<(), CoreBridgeError>(e),
                    },
                }
                &&& final(accounts).config == old(accounts).config
                &&& final(accounts).curr_guardian_set.expiration_time
                    == old(accounts).curr_guardian_set.expiration_time
            },
            Ok(new_set) => {
                &&& is_guardian_set_update(old(accounts).vaa_payload@)
                &&& constraints_check(old(accounts).config, old(accounts).vaa_payload@) is Ok
                &&& valid_guardian_keys(new_set.keys_seq())
                &&& new_set.index == decree_new_index(old(accounts).vaa_payload@)
                &&& new_set.index == old(accounts).curr_guardian_set.index + 1
                &&& update_matches_model(*old(accounts), *final(accounts), new_set, now)
                &&& new_set.keys_seq() == decree_guardians(old(accounts).vaa_payload@)
                &&& new_set.creation_time == old(accounts).vaa_timestamp
                &&& new_set.expiration_time == 0
                &&& final(accounts).config.guardian_set_index == new_set.index
                &&& final(accounts).config.guardian_set_ttl == old(accounts).config.guardian_set_ttl
                &&& final(accounts).curr_guardian_set.expiration_time
                    == now + old(accounts).config.guardian_set_ttl
            },
        },
        final(accounts).curr_guardian_set.index == old(accounts).curr_guardian_set.index,
        final(accounts).curr_guardian_set.keys@ == old(accounts).curr_guardian_set.keys@,
        final(accounts).curr_guardian_set.creation_time
            == old(accounts).curr_guardian_set.creation_time,
        final(accounts).vaa_payload@ == old(accounts).vaa_payload@,
        final(accounts).vaa_timestamp == old(accounts).vaa_timestamp,
{
    match try_compute_size(accounts.vaa_payload.as_slice()) {
        Err(e) => {
            return Err(e);
        },
        Ok(_) => {},
    }
    guardian_set_update(accounts, now)
}

/// Access control accepts a guardian set update exactly when the decree's new index (payload
/// bytes 35 to 38, big endian) is the configuration's index plus one, and otherwise refuses it
/// with `InvalidGuardianSetIndex`.
pub proof fn lemma_constraints_accept_next_index(config: Config, payload: Seq<u8>)
    ensures
        constraints_check(config, payload) is Ok <==> (payload[35] as int) * 0x1000000 + (
        payload[36] as int) * 0x10000 + (payload[37] as int) * 0x100 + (payload[38] as int)
            == config.guardian_set_index + 1,
        constraints_check(config, payload) is Err ==> constraints_check(config, payload) == Err::<
            (),
            CoreBridgeError,
        >(CoreBridgeError::InvalidGuardianSetIndex),
{
}

/// A guardian set update that passes access control and processing creates exactly the guardian
/// set that the decree announces: its index is the decree's new index (which is also the
/// configuration's new index), its keys are the decree's guardians in order, and its size is the
/// account size that was reserved for it from the same decree.
pub proof fn lemma_update_creates_announced_set(config: Config, payload: Seq<u8>)
    requires
        is_guardian_set_update(payload),
        constraints_check(config, payload) is Ok,
        guardian_keys_check(decree_guardians(payload)) is Ok,
    ensures
        config.guardian_set_index + 1 == decree_new_index(payload),
        compute_size_for(payload) == Ok::<int, CoreBridgeError>(
            guardian_set_size(decree_guardians(payload).len() as int),
        ),
        decree_guardians(payload).len() > 0,
{
    lemma_keys_check_ok_iff_valid(decree_guardians(payload));
}

/// A governance payload that is a guardian set update always gets an account size, and that
/// size covers its announced guardians.
pub proof fn lemma_guardian_set_update_is_sized(payload: Seq<u8>)
    requires
        is_guardian_set_update(payload),
    ensures
        compute_size_for(payload) is Ok,
        decree_num_guardians(payload) >= 1,
        payload.len() == 40 + 20 * (decree_num_guardians(payload) as int),
{
    assert(payload.skip(32).drop_first() =~= payload.skip(33));
}

/// One successful call of [`guardian_set_update`]: the accounts before and after it, the guardian
/// set it returned and the time it ran at.
pub struct UpdateCall {
    pub before: GuardianSetUpdate,
    pub after: GuardianSetUpdate,
    pub new_set: GuardianSet,
    pub now: u32,
}

/// What the `ensures` of a successful [`guardian_set_update`] says of one call, as far as the
/// chain of calls needs it.
pub open spec fn successful_call(c: UpdateCall) -> bool {
    &&& c.new_set.index == c.before.config.guardian_set_index + 1
    &&& c.after.config.guardian_set_index == c.new_set.index
    &&& update_matches_model(c.before, c.after, c.new_set, c.now)
}

/// Each call starts where the previous one ended: the configuration it reads is the one the
/// previous call left, and its current guardian set is the set the previous call created.
pub open spec fn chained_calls(calls: Seq<UpdateCall>) -> bool {
    forall|j: int|
        0 <= j < calls.len() - 1 ==> {
            &&& (#[trigger] calls[j + 1]).before.config == calls[j].after.config
            &&& record_of(calls[j + 1].before.curr_guardian_set) == record_of(calls[j].new_set)
        }
}

/// The model steps that a chain of calls brings.
pub open spec fn steps_of_calls(calls: Seq<UpdateCall>) -> Seq<UpdateStep> {
    calls.map_values(
        |c: UpdateCall| update_step_of(c.before.vaa_payload@, c.before.vaa_timestamp, c.now),
    )
}

/// The guardian set accounts after a chain of calls, starting from `sets`: each call rewrites the
/// current set as it left it and adds the set it created.
pub open spec fn sets_after_calls(
    sets: Map<int, GuardianSetRecord>,
    calls: Seq<UpdateCall>,
) -> Map<int, GuardianSetRecord>
    decreases calls.len(),
{
    if calls.len() == 0 {
        sets
    } else {
        let c = calls.last();
        sets_after_calls(sets, calls.drop_last()).insert(
            c.before.config.guardian_set_index as int,
            record_of(c.after.curr_guardian_set),
        ).insert(c.new_set.index as int, record_of(c.new_set))
    }
}

/// A chain of calls is a run of model steps.
proof fn lemma_calls_follow_model(sets: Map<int, GuardianSetRecord>, calls: Seq<UpdateCall>)
    requires
        calls.len() > 0,
        sets.contains_key(calls[0].before.config.guardian_set_index as int),
        sets[calls[0].before.config.guardian_set_index as int] == record_of(
            calls[0].before.curr_guardian_set,
        ),
        forall|j: int| 0 <= j < calls.len() ==> successful_call(#[trigger] calls[j]),
        chained_calls(calls),
    ensures
        apply_updates(model_of(calls[0].before.config, sets), steps_of_calls(calls)) == model_of(
            calls.last().after.config,
            sets_after_calls(sets, calls),
        ),
        sets_after_calls(sets, calls).contains_key(calls.last().new_set.index as int),
        sets_after_calls(sets, calls)[calls.last().new_set.index as int] == record_of(
            calls.last().new_set,
        ),
    decreases calls.len(),
{
    let m0 = model_of(calls[0].before.config, sets);
    let c = calls.last();
    assert(successful_call(calls[calls.len() - 1]));
    if calls.len() == 1 {
        assert(steps_of_calls(calls).drop_last() =~= Seq::<UpdateStep>::empty());
        assert(apply_updates(m0, steps_of_calls(calls).drop_last()) == m0);
        let _ = apply_update(
            model_of(c.before.config, sets),
            update_step_of(c.before.vaa_payload@, c.before.vaa_timestamp, c.now),
        );
        assert(sets_after_calls(sets, calls.drop_last()) == sets);
    } else {
        let prev = calls.drop_last();
        assert forall|j: int| 0 <= j < prev.len() implies successful_call(#[trigger] prev[j]) by {
            assert(prev[j] == calls[j]);
            assert(successful_call(calls[j]));
        }
        assert forall|j: int| 0 <= j < prev.len() - 1 implies {
            &&& (#[trigger] prev[j + 1]).before.config == prev[j].after.config
            &&& record_of(prev[j + 1].before.curr_guardian_set) == record_of(prev[j].new_set)
        } by {
            assert(prev[j + 1] == calls[j + 1]);
            assert(prev[j] == calls[j]);
            let _ = calls[j + 1];
        }
        assert(prev[0] == calls[0]);
        lemma_calls_follow_model(sets, prev);
        let p = prev.last();
        assert(p == calls[calls.len() - 2]);
        let _ = calls[calls.len() - 2 + 1];
        assert(c.before.config == p.after.config);
        assert(record_of(c.before.curr_guardian_set) == record_of(p.new_set));
        assert(steps_of_calls(calls).drop_last() =~= steps_of_calls(prev));
        let s = sets_after_calls(sets, prev);
        let _ = apply_update(
            model_of(c.before.config, s),
            update_step_of(c.before.vaa_payload@, c.before.vaa_timestamp, c.now),
        );
    }
}

/// Successive guardian set updates, each starting from the configuration and the new guardian
/// set that the previous one left: with `i0` the first call's guardian set index, after `k`
/// successful calls the configuration's index is `i0 + k`; the `j`th call (counting from 1)
/// created the set `i0 + j` with its decree's guardians, its VAA's timestamp and (while it is the
/// latest) no expiration, and made the set `i0 + j - 1` expire `ttl` seconds after that call's
/// time; the set at the configuration's index is the latest one; sets at other indices are
/// untouched. The accounts are kept in a map keyed by index, the seed of their addresses.
pub proof fn lemma_successive_guardian_set_updates(
    sets: Map<int, GuardianSetRecord>,
    calls: Seq<UpdateCall>,
)
    requires
        calls.len() > 0,
        sets.contains_key(calls[0].before.config.guardian_set_index as int),
        sets[calls[0].before.config.guardian_set_index as int] == record_of(
            calls[0].before.curr_guardian_set,
        ),
        forall|j: int| 0 <= j < calls.len() ==> successful_call(#[trigger] calls[j]),
        chained_calls(calls),
    ensures
        calls.last().after.config.guardian_set_index == calls[0].before.config.guardian_set_index
            + calls.len(),
        calls.last().after.config.guardian_set_ttl == calls[0].before.config.guardian_set_ttl,
        ({
            let m0 = model_of(calls[0].before.config, sets);
            let r = model_of(calls.last().after.config, sets_after_calls(sets, calls));
            &&& created_as_announced(m0, steps_of_calls(calls), r)
            &&& expired_in_turn(m0, steps_of_calls(calls), r)
            &&& others_untouched(m0, steps_of_calls(calls), r)
            &&& r.guardian_sets.contains_key(r.guardian_set_index)
            &&& r.guardian_sets[r.guardian_set_index].expiration_time == 0
        }),
{
    lemma_calls_follow_model(sets, calls);
    let m0 = model_of(calls[0].before.config, sets);
    lemma_successive_updates(m0, steps_of_calls(calls));
}

} // verus!
