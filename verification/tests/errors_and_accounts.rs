use core_bridge::error::{CoreBridgeError, ERROR_CODE_OFFSET};
use core_bridge::legacy::{
    account_variant_layout, legacy_try_deserialize, legacy_try_deserialize_unchecked,
    legacy_try_serialize, starts_with, AccountError, AccountLayout, AccountVariant,
};

#[test]
fn u64_overflow_is_reported_as_6006() {
    assert_eq!(CoreBridgeError::U64Overflow.code(), 6006);
    assert_eq!(u32::from(CoreBridgeError::U64Overflow), 6006);
    assert_eq!(ERROR_CODE_OFFSET, 6000);
}

#[test]
fn guardian_set_update_error_codes() {
    assert_eq!(CoreBridgeError::InvalidGuardianSetIndex.discriminant(), 0x600);
    assert_eq!(CoreBridgeError::ZeroGuardians.code(), 6000 + 0x1010);
    assert_eq!(CoreBridgeError::GuardianZeroAddress.code(), 6000 + 0x1020);
    assert_eq!(CoreBridgeError::DuplicateGuardianAddress.code(), 6000 + 0x1030);
    assert_eq!(CoreBridgeError::InvalidGovernanceAction.code(), 6000 + 0x22);
    assert_eq!(CoreBridgeError::InvalidGovernanceVaa.code(), 6000 + 0x28);
}

#[test]
fn no_quorum_follows_invalid_message_hash() {
    assert_eq!(CoreBridgeError::InvalidMessageHash.discriminant(), 0x202);
    assert_eq!(CoreBridgeError::NoQuorum.discriminant(), 0x203);
    assert_eq!(CoreBridgeError::MessageMismatch.discriminant(), 0x204);
}

#[test]
fn codes_are_distinct() {
    let all = [
        CoreBridgeError::InvalidInstructionArgument,
        CoreBridgeError::AccountNotZeroed,
        CoreBridgeError::NoQuorum,
        CoreBridgeError::MessageMismatch,
        CoreBridgeError::InvalidMessageHash,
        CoreBridgeError::ExecutableDisallowed,
        CoreBridgeError::PostedVaaPayloadTooLarge,
    ];
    for (i, a) in all.iter().enumerate() {
        for b in all.iter().skip(i + 1) {
            assert_ne!(a.code(), b.code());
        }
    }
}

#[test]
fn names_and_messages() {
    assert_eq!(CoreBridgeError::GuardianZeroAddress.name(), "GuardianZeroAddress");
    assert_eq!(CoreBridgeError::GuardianZeroAddress.msg(), "GuardianZeroAddress");
    assert_eq!(CoreBridgeError::ExceedsMaxPayloadSize.name(), "ExceedsMaxPayloadSize");
    assert_eq!(CoreBridgeError::ExceedsMaxPayloadSize.msg(), "ExceedsMaxPayloadSize (30KB)");
}

#[test]
fn legacy_framing_round_trip() {
    let framed = legacy_try_serialize(&[1, 2, 3], &[9, 8]);
    assert_eq!(framed, vec![1, 2, 3, 9, 8]);
    assert_eq!(legacy_try_deserialize(&[1, 2, 3], &framed), Ok(&[9u8, 8][..]));
    assert_eq!(legacy_try_deserialize_unchecked(&[1, 2, 3], &framed), &[9u8, 8][..]);
}

#[test]
fn legacy_framing_empty_discriminator() {
    assert_eq!(legacy_try_serialize(&[], &[5]), vec![5]);
    assert_eq!(legacy_try_deserialize(&[], &[5]), Ok(&[5u8][..]));
}

#[test]
fn legacy_wrong_discriminator_is_refused() {
    assert_eq!(
        legacy_try_deserialize(&[1, 2, 3], &[1, 2, 4, 0]),
        Err(AccountError::AccountDidNotDeserialize)
    );
    assert_eq!(
        legacy_try_deserialize(&[1, 2, 3], &[1, 2]),
        Err(AccountError::AccountDidNotDeserialize)
    );
    assert!(starts_with(&[1, 2], &[1, 2, 3]));
    assert!(!starts_with(&[1, 2, 3], &[1, 2]));
}

#[test]
fn account_variant_layouts() {
    let anchor = [1u8, 2, 3, 4, 5, 6, 7, 8];
    let mut anchor_data = anchor.to_vec();
    anchor_data.extend_from_slice(&[0; 4]);
    assert_eq!(account_variant_layout(&anchor, &[], &anchor_data), Ok(AccountLayout::Anchor));
    assert_eq!(
        account_variant_layout(&anchor, &[], &[0; 12]),
        Ok(AccountLayout::Legacy)
    );
    assert_eq!(
        account_variant_layout(&anchor, &[], &[0; 7]),
        Err(AccountError::AccountDidNotDeserialize)
    );
    assert_eq!(
        account_variant_layout(&anchor, &[9], &[0; 12]),
        Err(AccountError::AccountDidNotDeserialize)
    );
    let legacy = legacy_try_serialize(&[9], &[0; 10]);
    assert_eq!(account_variant_layout(&anchor, &[9], &legacy), Ok(AccountLayout::Legacy));
}

#[test]
fn account_variant_inner() {
    let mut v = AccountVariant::Legacy(3u32);
    assert_eq!(*v.inner(), 3);
    *v.inner_mut() = 7;
    assert!(matches!(v, AccountVariant::Legacy(7)));
    let mut a = AccountVariant::Anchor(1u32);
    *a.inner_mut() += 1;
    assert!(matches!(a, AccountVariant::Anchor(2)));
    assert_eq!(*a.inner(), 2);
}
