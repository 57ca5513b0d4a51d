use core_bridge::error::CoreBridgeError;
use core_bridge::guardian_set::{check_guardian_keys, Config, GuardianSet};
use core_bridge::guardian_set_update::{
    decode_guardian_keys, guardian_set_update, process_guardian_set_update, try_compute_size,
    GuardianSetUpdate,
};

const KEY_A: [u8; 20] = [
    0xbe, 0xfa, 0x42, 0x9d, 0x57, 0xcd, 0x18, 0xb7, 0xf8, 0xa4, 0xd9, 0x1a, 0x2d, 0xa9, 0xab,
    0x4a, 0xf0, 0x5d, 0x0f, 0xbe,
];
const KEY_B: [u8; 20] = [
    0x88, 0xd7, 0xd8, 0xb3, 0x2a, 0x91, 0x05, 0xd2, 0x28, 0x10, 0x0e, 0x72, 0xdf, 0xfe, 0x2f,
    0xae, 0x07, 0x05, 0xd3, 0x1c,
];
const KEY_C: [u8; 20] = [7; 20];
const ZERO: [u8; 20] = [0; 20];

fn core_module() -> Vec<u8> {
    let mut m = vec![0u8; 28];
    m.extend_from_slice(b"Core");
    m
}

fn gsu_payload(new_index: u32, keys: &[[u8; 20]]) -> Vec<u8> {
    let mut p = core_module();
    p.push(2);
    p.extend_from_slice(&[0, 0]);
    p.extend_from_slice(&new_index.to_be_bytes());
    p.push(keys.len() as u8);
    for k in keys {
        p.extend_from_slice(k);
    }
    p
}

fn current_set() -> GuardianSet {
    GuardianSet { index: 4, keys: vec![KEY_C], creation_time: 100, expiration_time: 0 }
}

fn accounts(payload: Vec<u8>) -> GuardianSetUpdate {
    GuardianSetUpdate {
        config: Config { guardian_set_index: 4, guardian_set_ttl: 86400 },
        curr_guardian_set: current_set(),
        vaa_payload: payload,
        vaa_timestamp: 294967295,
    }
}

#[test]
fn size_of_two_guardian_update() {
    let payload = gsu_payload(1, &[KEY_A, KEY_B]);
    assert_eq!(try_compute_size(&payload), Ok(64));
    assert_eq!(GuardianSet::compute_size(2), 64);
    assert_eq!(GuardianSet::compute_size(19), 404);
}

#[test]
fn size_of_empty_payload_is_invalid_vaa() {
    assert_eq!(try_compute_size(&[]), Err(CoreBridgeError::InvalidGovernanceVaa));
}

#[test]
fn size_of_other_module_is_invalid_vaa() {
    let mut payload = gsu_payload(1, &[KEY_A]);
    payload[31] = b'x';
    assert_eq!(try_compute_size(&payload), Err(CoreBridgeError::InvalidGovernanceVaa));
}

#[test]
fn size_of_nonzero_chain_is_invalid_vaa() {
    let mut payload = gsu_payload(1, &[KEY_A]);
    payload[34] = 1;
    assert_eq!(try_compute_size(&payload), Err(CoreBridgeError::InvalidGovernanceVaa));
}

#[test]
fn size_of_wrong_guardian_count_is_invalid_vaa() {
    let mut payload = gsu_payload(1, &[KEY_A, KEY_B]);
    payload.push(0);
    assert_eq!(try_compute_size(&payload), Err(CoreBridgeError::InvalidGovernanceVaa));
}

#[test]
fn size_of_contract_upgrade_is_invalid_action() {
    let mut payload = core_module();
    payload.push(1);
    payload.extend_from_slice(&[0, 1]);
    payload.extend_from_slice(&[0x5c; 32]);
    assert_eq!(try_compute_size(&payload), Err(CoreBridgeError::InvalidGovernanceAction));
}

#[test]
fn decode_keys_in_order() {
    let payload = gsu_payload(1, &[KEY_A, KEY_B]);
    assert_eq!(decode_guardian_keys(&payload), vec![KEY_A, KEY_B]);
}

#[test]
fn constraints_accept_next_index() {
    let acc = accounts(gsu_payload(5, &[KEY_A]));
    assert_eq!(acc.constraints(), Ok(()));
}

#[test]
fn constraints_refuse_other_index() {
    let acc = accounts(gsu_payload(6, &[KEY_A]));
    assert_eq!(acc.constraints(), Err(CoreBridgeError::InvalidGuardianSetIndex));
    let acc = accounts(gsu_payload(4, &[KEY_A]));
    assert_eq!(acc.constraints(), Err(CoreBridgeError::InvalidGuardianSetIndex));
}

#[test]
fn update_creates_new_set_and_expires_current() {
    let mut acc = accounts(gsu_payload(5, &[KEY_A, KEY_B]));
    let new_set = guardian_set_update(&mut acc, 1_000).unwrap();
    assert_eq!(new_set.index, 5);
    assert_eq!(new_set.keys, vec![KEY_A, KEY_B]);
    assert_eq!(new_set.creation_time, 294967295);
    assert_eq!(new_set.expiration_time, 0);
    assert_eq!(acc.config.guardian_set_index, 5);
    assert_eq!(acc.config.guardian_set_ttl, 86400);
    assert_eq!(acc.curr_guardian_set.expiration_time, 87400);
    assert_eq!(acc.curr_guardian_set.index, 4);
    assert_eq!(acc.curr_guardian_set.keys, vec![KEY_C]);
}

#[test]
fn update_refuses_zero_address() {
    let mut acc = accounts(gsu_payload(5, &[KEY_A, ZERO]));
    assert_eq!(guardian_set_update(&mut acc, 1_000).err(), Some(CoreBridgeError::GuardianZeroAddress));
    assert_eq!(acc.config.guardian_set_index, 4);
    assert_eq!(acc.curr_guardian_set.expiration_time, 0);
}

#[test]
fn update_refuses_duplicate_address() {
    let mut acc = accounts(gsu_payload(5, &[KEY_A, KEY_B, KEY_A]));
    assert_eq!(
        guardian_set_update(&mut acc, 1_000).err(),
        Some(CoreBridgeError::DuplicateGuardianAddress)
    );
    assert_eq!(acc.config.guardian_set_index, 4);
}

#[test]
fn first_refused_key_decides_the_error() {
    // A duplicate before any zero address.
    assert_eq!(
        check_guardian_keys(&vec![KEY_A, KEY_A, ZERO]),
        Err(CoreBridgeError::DuplicateGuardianAddress)
    );
    // A zero address that is also duplicated.
    assert_eq!(check_guardian_keys(&vec![ZERO, ZERO]), Err(CoreBridgeError::GuardianZeroAddress));
    // A zero address after a unique key, with a duplicate later.
    assert_eq!(
        check_guardian_keys(&vec![KEY_A, ZERO, KEY_B, KEY_B]),
        Err(CoreBridgeError::GuardianZeroAddress)
    );
    // Only the last key is the zero address.
    assert_eq!(
        check_guardian_keys(&vec![KEY_A, KEY_B, ZERO]),
        Err(CoreBridgeError::GuardianZeroAddress)
    );
    assert_eq!(check_guardian_keys(&vec![ZERO]), Err(CoreBridgeError::GuardianZeroAddress));
}

#[test]
fn no_guardians_is_refused() {
    assert_eq!(check_guardian_keys(&vec![]), Err(CoreBridgeError::ZeroGuardians));
}

#[test]
fn distinct_nonzero_keys_are_accepted() {
    assert_eq!(check_guardian_keys(&vec![KEY_A, KEY_B, KEY_C]), Ok(()));
    assert_eq!(check_guardian_keys(&vec![KEY_A]), Ok(()));
}

#[test]
fn instruction_runs_all_steps() {
    let mut acc = accounts(gsu_payload(5, &[KEY_A, KEY_B]));
    let new_set = process_guardian_set_update(&mut acc, 10).unwrap();
    assert_eq!(new_set.index, 5);
    assert_eq!(acc.config.guardian_set_index, 5);
    assert_eq!(acc.curr_guardian_set.expiration_time, 86410);
}

#[test]
fn instruction_reports_first_failing_step() {
    let mut acc = accounts(vec![]);
    assert_eq!(
        process_guardian_set_update(&mut acc, 10).err(),
        Some(CoreBridgeError::InvalidGovernanceVaa)
    );
    // Wrong index and a zero address: access control fails first.
    let mut acc = accounts(gsu_payload(9, &[ZERO]));
    assert_eq!(
        process_guardian_set_update(&mut acc, 10).err(),
        Some(CoreBridgeError::InvalidGuardianSetIndex)
    );
    let mut acc = accounts(gsu_payload(5, &[ZERO]));
    assert_eq!(
        process_guardian_set_update(&mut acc, 10).err(),
        Some(CoreBridgeError::GuardianZeroAddress)
    );
    assert_eq!(acc.config.guardian_set_index, 4);
}

#[test]
fn successive_updates_advance_one_index_each() {
    let mut acc = accounts(gsu_payload(5, &[KEY_A]));
    let first = process_guardian_set_update(&mut acc, 100).unwrap();
    assert_eq!(first.index, 5);
    assert_eq!(acc.curr_guardian_set.expiration_time, 100 + 86400);

    // The new set becomes the current one for the next update.
    let mut next = GuardianSetUpdate {
        config: acc.config,
        curr_guardian_set: first,
        vaa_payload: gsu_payload(6, &[KEY_B, KEY_C]),
        vaa_timestamp: 500,
    };
    let second = process_guardian_set_update(&mut next, 200).unwrap();
    assert_eq!(second.index, 6);
    assert_eq!(second.keys, vec![KEY_B, KEY_C]);
    assert_eq!(second.creation_time, 500);
    assert_eq!(second.expiration_time, 0);
    assert_eq!(next.config.guardian_set_index, 6);
    assert_eq!(next.curr_guardian_set.index, 5);
    assert_eq!(next.curr_guardian_set.keys, vec![KEY_A]);
    assert_eq!(next.curr_guardian_set.expiration_time, 200 + 86400);

    // A replayed decree for the earlier index is refused.
    let mut replay = GuardianSetUpdate {
        config: next.config,
        curr_guardian_set: second,
        vaa_payload: gsu_payload(6, &[KEY_B, KEY_C]),
        vaa_timestamp: 500,
    };
    assert_eq!(
        process_guardian_set_update(&mut replay, 300).err(),
        Some(CoreBridgeError::InvalidGuardianSetIndex)
    );
}

#[test]
fn update_runs_access_control_first() {
    // Valid keys but the wrong new index: refused before any key check, nothing changes.
    let mut acc = accounts(gsu_payload(7, &[KEY_A, KEY_B]));
    assert_eq!(
        guardian_set_update(&mut acc, 1_000).err(),
        Some(CoreBridgeError::InvalidGuardianSetIndex)
    );
    assert_eq!(acc.config.guardian_set_index, 4);
    assert_eq!(acc.curr_guardian_set.expiration_time, 0);
    // Wrong index and a zero address: the index error comes first.
    let mut acc = accounts(gsu_payload(7, &[ZERO]));
    assert_eq!(
        guardian_set_update(&mut acc, 1_000).err(),
        Some(CoreBridgeError::InvalidGuardianSetIndex)
    );
}
