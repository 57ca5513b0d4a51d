//! Core Bridge governance payloads, as the Wormhole raw VAA reader decodes them.
//!
//! A Core Bridge governance payload is a 32 byte module name (`"Core"`, left padded with zeros),
//! a one byte action and the action's body. The guardian set update body (action 2) is a two byte
//! target chain that must be zero, the new guardian set index (big endian `u32`), the number of
//! guardians and then each guardian's 20 byte address.

use vstd::prelude::*;

verus! {

/// The 32 byte module name of Core Bridge governance: `"Core"` left padded with zeros.
pub open spec fn core_module() -> Seq<u8> {
    Seq::new(28, |i: int| 0u8) + seq![0x43u8, 0x6fu8, 0x72u8, 0x65u8]
}

/// The body of a guardian set update decree (what follows its action byte) is well formed:
/// target chain zero, at least one guardian, and exactly as many addresses as announced.
pub open spec fn guardian_set_update_body_ok(b: Seq<u8>) -> bool {
    &&& b.len() >= 27
    &&& b[0] == 0
    &&& b[1] == 0
    &&& b.len() == 7 + (b[6] as int) * 20
}

/// A decree (action byte and body) is one that the reader accepts.
pub open spec fn decree_ok(d: Seq<u8>) -> bool {
    &&& d.len() >= 1
    &&& {
        ||| d[0] == 1 && d.len() == 35
        ||| d[0] == 2 && guardian_set_update_body_ok(d.drop_first())
        ||| d[0] == 3 && d.len() == 35
        ||| d[0] == 4 && d.len() == 67
        ||| d[0] == 5 && d.len() == 37
    }
}

/// The payload is a Core Bridge governance payload that the reader accepts.
pub open spec fn gov_payload_ok(s: Seq<u8>) -> bool {
    &&& s.len() >= 32
    &&& s.take(32) == core_module()
    &&& decree_ok(s.skip(32))
}

/// The payload is an accepted Core Bridge governance payload holding a guardian set update.
pub open spec fn is_guardian_set_update(s: Seq<u8>) -> bool {
    gov_payload_ok(s) && s[32] == 2
}

/// Lengths on which the reader does not panic: it indexes the first 32 bytes of any
/// non-empty payload.
pub open spec fn readable_payload_len(s: Seq<u8>) -> bool {
    s.len() == 0 || s.len() >= 32
}

/// The new guardian set index of a guardian set update payload (big endian, after the chain).
pub open spec fn decree_new_index(s: Seq<u8>) -> int {
    (s[35] as int) * 0x1000000 + (s[36] as int) * 0x10000 + (s[37] as int) * 0x100 + (s[38] as int)
}

/// The number of guardians a guardian set update payload announces.
pub open spec fn decree_num_guardians(s: Seq<u8>) -> u8 {
    s[39]
}

/// The `i`th guardian address of a guardian set update payload.
pub open spec fn decree_guardian(s: Seq<u8>, i: int) -> Seq<u8> {
    s.subrange(40 + 20 * i, 60 + 20 * i)
}

/// All guardian addresses of a guardian set update payload, in order.
pub open spec fn decree_guardians(s: Seq<u8>) -> Seq<Seq<u8>> {
    Seq::new(decree_num_guardians(s) as nat, |i: int| decree_guardian(s, i))
}

/// Where a guardian set update payload keeps its fields: the new index in bytes 35 to 38 (big
/// endian), the guardian count in byte 39, and guardian `i` in the 20 bytes from `40 + 20 * i`.
pub proof fn lemma_guardian_set_update_fields(s: Seq<u8>)
    ensures
        decree_new_index(s) == (s[35] as int) * 0x1000000 + (s[36] as int) * 0x10000 + (
        s[37] as int) * 0x100 + (s[38] as int),
        decree_num_guardians(s) == s[39],
        decree_guardians(s).len() == s[39],
        forall|i: int|
            0 <= i < s[39] ==> #[trigger] decree_guardians(s)[i] == s.subrange(40 + 20 * i, 60 + 20 * i),
{
}

/// What the reader finds in a Core Bridge governance payload.
#[derive(Debug, Clone, Copy, PartialEq, Eq, Structural)]
pub enum CoreBridgeDecree {
    /// A guardian set update, with the new index and the number of guardians it encodes.
    GuardianSetUpdate { new_index: u32, num_guardians: u8 },
    /// Any other governance action.
    Other,
}

/// Reads a Core Bridge governance payload with `CoreBridgeGovPayload::parse` (the same reader as
/// its `TryFrom`), then `decree()`, `guardian_set_update()`, `new_index()` and `num_guardians()`.
/// Claimed of them, as their source reads: the payload is accepted exactly when
/// `gov_payload_ok` holds (`None` otherwise); an accepted decree is a guardian set update exactly
/// when its action byte is 2, and then the new index and guardian count are the bytes that the
/// `decree_*` functions name. The reader panics on a payload of 1 to 31 bytes, which `requires`
/// leaves out.
#[verifier::external_body]
pub(crate) fn read_core_bridge_decree(payload: &[u8]) -> (r: Option<CoreBridgeDecree>)
    requires
        readable_payload_len(payload@),
    ensures
        r is None <==> !gov_payload_ok(payload@),
        r matches Some(d) ==> (d is GuardianSetUpdate <==> is_guardian_set_update(payload@)),
        r matches Some(CoreBridgeDecree::GuardianSetUpdate { new_index, num_guardians }) ==> {
            &&& new_index == decree_new_index(payload@)
            &&& num_guardians == decree_num_guardians(payload@)
        },
{
    match wormhole_raw_vaas::core::CoreBridgeGovPayload::parse(payload) {
        Err(_) => None,
        Ok(gov) => match gov.decree().guardian_set_update() {
            Some(decree) => Some(CoreBridgeDecree::GuardianSetUpdate {
                new_index: decree.new_index(),
                num_guardians: decree.num_guardians(),
            }),
            None => Some(CoreBridgeDecree::Other),
        },
    }
}

/// Reads the `i`th guardian address of a guardian set update payload with
/// `CoreBridgeGovPayload::parse` (unwrapped), `decree().to_guardian_set_update_unchecked()` and
/// `guardian_at(i)`. Claimed, as their source reads: the address is the 20 bytes that
/// `decree_guardian` names. `requires` leaves out the payloads and indices on which the reader
/// would panic.
#[verifier::external_body]
pub(crate) fn read_guardian_at(payload: &[u8], i: usize) -> (r: [u8; 20])
    requires
        is_guardian_set_update(payload@),
        i < decree_num_guardians(payload@),
    ensures
        r@ == decree_guardian(payload@, i as int),
{
    wormhole_raw_vaas::core::CoreBridgeGovPayload::parse(payload)
        .unwrap()
        .decree()
        .to_guardian_set_update_unchecked()
        .guardian_at(i)
}

} // verus!
