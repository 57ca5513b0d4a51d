//! Guardian sets and the Core Bridge configuration that a guardian set update reads and writes.

use vstd::prelude::*;
use crate::error::CoreBridgeError;

verus! {

/// The Core Bridge configuration fields that guardian set updates use.
#[derive(Debug, Clone, Copy, PartialEq, Eq, Structural)]
pub struct Config {
    /// Index of the current (latest) guardian set.
    pub guardian_set_index: u32,
    /// Seconds for which a replaced guardian set stays valid.
    pub guardian_set_ttl: u32,
}

/// A guardian set account: its index, its guardians' Ethereum style addresses, when it became
/// active and when it expires (timestamps in seconds; zero means it does not expire).
#[derive(Debug)]
pub struct GuardianSet {
    /// Index representing an incrementing version number for this guardian set.
    pub index: u32,
    /// Guardian addresses.
    pub keys: Vec<[u8; 20]>,
    /// Time at which this guardian set became active.
    pub creation_time: u32,
    /// Time after which signatures of this set are no longer valid.
    pub expiration_time: u32,
}

/// The addresses of a list of keys, as byte sequences.
pub open spec fn keys_view(keys: Seq<[u8; 20]>) -> Seq<Seq<u8>> {
    keys.map_values(|k: [u8; 20]| k@)
}

impl GuardianSet {
    /// The guardian addresses of this set, as byte sequences.
    pub open spec fn keys_seq(&self) -> Seq<Seq<u8>> {
        keys_view(self.keys@)
    }
}

/// Account size of a guardian set with `num_guardians` guardians: the 8 byte account
/// discriminator, the index, the length prefixed keys and the two timestamps.
pub open spec fn guardian_set_size(num_guardians: int) -> int {
    8 + 4 + (4 + num_guardians * 20) + 4 + 4
}

impl GuardianSet {
    /// Computes the account size of a guardian set with `num_guardians` guardians.
    pub fn compute_size(num_guardians: usize) -> (r: usize)
        requires
            guardian_set_size(num_guardians as int) <= usize::MAX,
        ensures
            r == guardian_set_size(num_guardians as int),
            r == 24 + 20 * num_guardians,
    {
        8 + 4 + (4 + num_guardians * 20) + 4 + 4
    }
}

/// The account size of a guardian set grows by 20 bytes (one address) per guardian from 24 bytes
/// (discriminator, index, length prefix and the two timestamps) for none.
pub proof fn lemma_guardian_set_size(n: int)
    ensures
        guardian_set_size(n) == 24 + 20 * n,
        guardian_set_size(0) == 24,
        guardian_set_size(n + 1) == guardian_set_size(n) + 20,
{
}

/// The zero address, which no guardian may have.
pub open spec fn zero_address() -> Seq<u8> {
    Seq::new(20, |i: int| 0u8)
}

/// Some key after position `i` equals the key at `i`.
pub open spec fn has_later_duplicate(keys: Seq<Seq<u8>>, i: int) -> bool {
    exists|j: int| i < j < keys.len() && #[trigger] keys[j] == keys[i]
}

/// The key at `i` is refused: it is the zero address or it occurs again later.
pub open spec fn key_refused(keys: Seq<Seq<u8>>, i: int) -> bool {
    keys[i] == zero_address() || has_later_duplicate(keys, i)
}

/// `i` is the first position whose key is refused.
pub open spec fn first_refused(keys: Seq<Seq<u8>>, i: int) -> bool {
    &&& 0 <= i < keys.len()
    &&& key_refused(keys, i)
    &&& forall|k: int| 0 <= k < i ==> !key_refused(keys, k)
}

/// The outcome of checking a new guardian set's keys: no guardians at all is `ZeroGuardians`;
/// otherwise the first refused key decides, `GuardianZeroAddress` for the zero address and
/// `DuplicateGuardianAddress` for a key that occurs again later.
pub open spec fn guardian_keys_check(keys: Seq<Seq<u8>>) -> Result<(), CoreBridgeError> {
    if keys.len() == 0 {
        Err(CoreBridgeError::ZeroGuardians)
    } else if exists|i: int| first_refused(keys, i) {
        let i = choose|i: int| first_refused(keys, i);
        if keys[i] == zero_address() {
            Err(CoreBridgeError::GuardianZeroAddress)
        } else {
            Err(CoreBridgeError::DuplicateGuardianAddress)
        }
    } else {
        Ok(())
    }
}

/// Keys of a valid guardian set: at least one, none the zero address, no two alike.
pub open spec fn valid_guardian_keys(keys: Seq<Seq<u8>>) -> bool {
    &&& keys.len() > 0
    &&& forall|i: int| 0 <= i < keys.len() ==> #[trigger] keys[i] != zero_address()
    &&& forall|i: int, j: int| 0 <= i < j < keys.len() ==> #[trigger] keys[i] != #[trigger] keys[j]
}

/// If some key is refused, there is a first refused key.
proof fn lemma_first_refused_exists(keys: Seq<Seq<u8>>, i: int)
    requires
        0 <= i < keys.len(),
        key_refused(keys, i),
    ensures
        exists|k: int| first_refused(keys, k),
    decreases i,
{
    if forall|k: int| 0 <= k < i ==> !key_refused(keys, k) {
        assert(first_refused(keys, i));
    } else {
        let k = choose|k: int| 0 <= k < i && key_refused(keys, k);
        lemma_first_refused_exists(keys, k);
    }
}

/// There is at most one first refused key.
proof fn lemma_first_refused_unique(keys: Seq<Seq<u8>>, i: int, k: int)
    requires
        first_refused(keys, i),
        first_refused(keys, k),
    ensures
        i == k,
{
}

/// A guardian set update accepts exactly the key lists of valid guardian sets: at least one
/// guardian, no zero address and no duplicate address.
pub proof fn lemma_keys_check_ok_iff_valid(keys: Seq<Seq<u8>>)
    ensures
        guardian_keys_check(keys) is Ok <==> valid_guardian_keys(keys),
{
    if keys.len() > 0 {
        if valid_guardian_keys(keys) {
            assert forall|i: int| 0 <= i < keys.len() implies !key_refused(keys, i) by {
                assert(keys[i] != zero_address());
                if has_later_duplicate(keys, i) {
                    let j = choose|j: int| i < j < keys.len() && #[trigger] keys[j] == keys[i];
                    assert(keys[i] != keys[j]);
                }
            }
        } else {
            if exists|i: int| 0 <= i < keys.len() && #[trigger] keys[i] == zero_address() {
                let i = choose|i: int| 0 <= i < keys.len() && #[trigger] keys[i] == zero_address();
                lemma_first_refused_exists(keys, i);
            } else {
                let (i, j) = choose|i: int, j: int|
                    0 <= i < j < keys.len() && #[trigger] keys[i] == #[trigger] keys[j];
                assert(has_later_duplicate(keys, i));
                lemma_first_refused_exists(keys, i);
            }
        }
    }
}

/// The key check's outcome, stated over the keys alone: no keys gives `ZeroGuardians`; a zero
/// address before which no key occurs again later gives `GuardianZeroAddress`; a key that occurs
/// again later, with no zero address up to it, gives `DuplicateGuardianAddress`.
pub proof fn lemma_keys_check_errors(keys: Seq<Seq<u8>>)
    ensures
        keys.len() == 0 ==> guardian_keys_check(keys) == Err::<(), CoreBridgeError>(
            CoreBridgeError::ZeroGuardians,
        ),
        guardian_keys_check(keys) == Err::<(), CoreBridgeError>(CoreBridgeError::GuardianZeroAddress)
            <==> keys.len() > 0 && exists|z: int|
            0 <= z < keys.len() && #[trigger] keys[z] == zero_address() && forall|
                d: int,
                e: int,
            |
                0 <= d < z && d < e < keys.len() ==> #[trigger] keys[d] != #[trigger] keys[e],
        guardian_keys_check(keys) == Err::<(), CoreBridgeError>(
            CoreBridgeError::DuplicateGuardianAddress,
        ) <==> exists|d: int, e: int|
            0 <= d < e < keys.len() && #[trigger] keys[d] == #[trigger] keys[e] && forall|z: int|
                0 <= z <= d ==> #[trigger] keys[z] != zero_address(),
{
    let zero = zero_address();
    if keys.len() > 0 {
        if exists|i: int| first_refused(keys, i) {
            let i = choose|i: int| first_refused(keys, i);
            if keys[i] == zero_address() {
                assert forall|d: int, e: int| 0 <= d < i && d < e < keys.len() implies #[trigger] keys[d]
                    != #[trigger] keys[e] by {
                    assert(!key_refused(keys, d));
                    if keys[d] == keys[e] {
                        assert(has_later_duplicate(keys, d));
                    }
                }
                assert(keys[i] == zero);
                if exists|d: int, e: int|
                    0 <= d < e < keys.len() && #[trigger] keys[d] == #[trigger] keys[e] && forall|
                        z: int,
                    | 0 <= z <= d ==> #[trigger] keys[z] != zero {
                    let (d, e) = choose|d: int, e: int|
                        0 <= d < e < keys.len() && #[trigger] keys[d] == #[trigger] keys[e] && forall|
                            z: int,
                        | 0 <= z <= d ==> #[trigger] keys[z] != zero;
                    if d < i {
                        assert(keys[d] != keys[e]);
                    } else {
                        assert(keys[i] != zero);
                    }
                }
            } else {
                let e = choose|e: int| i < e < keys.len() && #[trigger] keys[e] == keys[i];
                assert forall|z: int| 0 <= z <= i implies #[trigger] keys[z] != zero by {
                    if z < i {
                        assert(!key_refused(keys, z));
                    }
                }
                assert(keys[i] == keys[e]);
                if exists|z: int|
                    0 <= z < keys.len() && #[trigger] keys[z] == zero && forall|d: int, e2: int|
                        0 <= d < z && d < e2 < keys.len() ==> #[trigger] keys[d] != #[trigger] keys[e2] {
                    let z = choose|z: int|
                        0 <= z < keys.len() && #[trigger] keys[z] == zero && forall|d: int, e2: int|
                            0 <= d < z && d < e2 < keys.len() ==> #[trigger] keys[d]
                                != #[trigger] keys[e2];
                    if z <= i {
                        assert(keys[z] != zero);
                    } else {
                        assert(keys[i] != keys[e]);
                    }
                }
            }
        } else {
            if exists|z: int|
                0 <= z < keys.len() && #[trigger] keys[z] == zero && forall|d: int, e: int|
                    0 <= d < z && d < e < keys.len() ==> #[trigger] keys[d] != #[trigger] keys[e] {
                let z = choose|z: int|
                    0 <= z < keys.len() && #[trigger] keys[z] == zero && forall|d: int, e: int|
                        0 <= d < z && d < e < keys.len() ==> #[trigger] keys[d] != #[trigger] keys[e];
                assert(key_refused(keys, z));
                lemma_first_refused_exists(keys, z);
            }
            if exists|d: int, e: int|
                0 <= d < e < keys.len() && #[trigger] keys[d] == #[trigger] keys[e] && forall|z: int|
                    0 <= z <= d ==> #[trigger] keys[z] != zero {
                let (d, e) = choose|d: int, e: int|
                    0 <= d < e < keys.len() && #[trigger] keys[d] == #[trigger] keys[e] && forall|
                        z: int,
                    | 0 <= z <= d ==> #[trigger] keys[z] != zero;
                assert(has_later_duplicate(keys, d));
                lemma_first_refused_exists(keys, d);
            }
        }
    }
}

/// [`lemma_keys_check_errors`] for a list of 20 byte keys.
#[verifier::rlimit(60)]
proof fn lemma_keys_check_errors_for_keys(keys: Seq<[u8; 20]>)
    ensures
        keys.len() == 0 ==> guardian_keys_check(keys_view(keys)) == Err::<(), CoreBridgeError>(
            CoreBridgeError::ZeroGuardians,
        ),
        guardian_keys_check(keys_view(keys)) == Err::<(), CoreBridgeError>(
            CoreBridgeError::GuardianZeroAddress,
        ) <==> keys.len() > 0 && exists|z: int|
            0 <= z < keys.len() && #[trigger] keys[z]@ == zero_address() && forall|
                d: int,
                e: int,
            | 0 <= d < z && d < e < keys.len() ==> #[trigger] keys[d]@ != #[trigger] keys[e]@,
        guardian_keys_check(keys_view(keys)) == Err::<(), CoreBridgeError>(
            CoreBridgeError::DuplicateGuardianAddress,
        ) <==> exists|d: int, e: int|
            0 <= d < e < keys.len() && #[trigger] keys[d]@ == #[trigger] keys[e]@ && forall|z: int|
                0 <= z <= d ==> #[trigger] keys[z]@ != zero_address(),
{
    let kv = keys_view(keys);
    let zero = zero_address();
    lemma_keys_check_errors(kv);
    assert(kv.len() == keys.len());
    assert forall|i: int| 0 <= i < keys.len() implies #[trigger] kv[i] == keys[i]@ by {}
    if exists|z: int|
        0 <= z < keys.len() && #[trigger] keys[z]@ == zero && forall|d: int, e: int|
            0 <= d < z && d < e < keys.len() ==> #[trigger] keys[d]@ != #[trigger] keys[e]@ {
        let z = choose|z: int|
            0 <= z < keys.len() && #[trigger] keys[z]@ == zero && forall|d: int, e: int|
                0 <= d < z && d < e < keys.len() ==> #[trigger] keys[d]@ != #[trigger] keys[e]@;
        assert(kv[z] == zero);
        assert forall|d: int, e: int| 0 <= d < z && d < e < kv.len() implies #[trigger] kv[d]
            != #[trigger] kv[e] by {
            assert(keys[d]@ != keys[e]@);
        }
    }
    if exists|z: int|
        0 <= z < kv.len() && #[trigger] kv[z] == zero && forall|d: int, e: int|
            0 <= d < z && d < e < kv.len() ==> #[trigger] kv[d] != #[trigger] kv[e] {
        let z = choose|z: int|
            0 <= z < kv.len() && #[trigger] kv[z] == zero && forall|d: int, e: int|
                0 <= d < z && d < e < kv.len() ==> #[trigger] kv[d] != #[trigger] kv[e];
        assert(keys[z]@ == zero);
        assert forall|d: int, e: int| 0 <= d < z && d < e < keys.len() implies #[trigger] keys[d]@
            != #[trigger] keys[e]@ by {
            assert(kv[d] != kv[e]);
        }
    }
    if exists|d: int, e: int|
        0 <= d < e < keys.len() && #[trigger] keys[d]@ == #[trigger] keys[e]@ && forall|z: int|
            0 <= z <= d ==> #[trigger] keys[z]@ != zero {
        let (d, e) = choose|d: int, e: int|
            0 <= d < e < keys.len() && #[trigger] keys[d]@ == #[trigger] keys[e]@ && forall|z: int|
                0 <= z <= d ==> #[trigger] keys[z]@ != zero;
        assert(kv[d] == kv[e]);
        assert forall|z: int| 0 <= z <= d implies #[trigger] kv[z] != zero by {
            assert(keys[z]@ != zero);
        }
    }
    if exists|d: int, e: int|
        0 <= d < e < kv.len() && #[trigger] kv[d] == #[trigger] kv[e] && forall|z: int|
            0 <= z <= d ==> #[trigger] kv[z] != zero {
        let (d, e) = choose|d: int, e: int|
            0 <= d < e < kv.len() && #[trigger] kv[d] == #[trigger] kv[e] && forall|z: int|
                0 <= z <= d ==> #[trigger] kv[z] != zero;
        assert(keys[d]@ == keys[e]@);
        assert forall|z: int| 0 <= z <= d implies #[trigger] keys[z]@ != zero by {
            assert(kv[z] != zero);
        }
    }
}

/// Whether a guardian address is the zero address.
pub fn is_zero_address(key: &[u8; 20]) -> (r: bool)
    ensures
        r == (key@ == zero_address()),
        r <==> forall|k: int| 0 <= k < 20 ==> key@[k] == 0,
{
    let mut i: usize = 0;
    while i < 20
        invariant
            0 <= i <= 20,
            key@.len() == 20,
            forall|k: int| 0 <= k < i ==> key@[k] == 0,
        decreases 20 - i,
    {
        if key[i] != 0 {
            assert(key@[i as int] != zero_address()[i as int]);
            return false;
        }
        i = i + 1;
    }
    assert(key@ =~= zero_address());
    true
}

/// Whether two guardian addresses are equal.
pub fn same_address(a: &[u8; 20], b: &[u8; 20]) -> (r: bool)
    ensures
        r == (a@ == b@),
        r <==> forall|k: int| 0 <= k < 20 ==> a@[k] == b@[k],
{
    let mut i: usize = 0;
    while i < 20
        invariant
            0 <= i <= 20,
            a@.len() == 20,
            b@.len() == 20,
            forall|k: int| 0 <= k < i ==> a@[k] == b@[k],
        decreases 20 - i,
    {
        if a[i] != b[i] {
            assert(a@[i as int] != b@[i as int]);
            return false;
        }
        i = i + 1;
    }
    assert(a@ =~= b@);
    true
}

/// Checks the keys of a new guardian set: there must be at least one, none may be the zero
/// address and none may occur twice. Keys are checked in order; each is checked for the zero
/// address and then against every later key.
pub fn check_guardian_keys(keys: &Vec<[u8; 20]>) -> (r: Result<(), CoreBridgeError>)
    ensures
        r == guardian_keys_check(keys_view(keys@)),
        r is Ok <==> valid_guardian_keys(keys_view(keys@)),
        r is Ok <==> {
            &&& keys@.len() > 0
            &&& forall|i: int| 0 <= i < keys@.len() ==> #[trigger] keys@[i]@ != zero_address()
            &&& forall|i: int, j: int|
                0 <= i < j < keys@.len() ==> #[trigger] keys@[i]@ != #[trigger] keys@[j]@
        },
        keys@.len() == 0 ==> r == Err::<(), CoreBridgeError>(CoreBridgeError::ZeroGuardians),
        r == Err::<(), CoreBridgeError>(CoreBridgeError::GuardianZeroAddress) <==> keys@.len() > 0
            && exists|z: int|
            0 <= z < keys@.len() && #[trigger] keys@[z]@ == zero_address() && forall|
                d: int,
                e: int,
            | 0 <= d < z && d < e < keys@.len() ==> #[trigger] keys@[d]@ != #[trigger] keys@[e]@,
        r == Err::<(), CoreBridgeError>(CoreBridgeError::DuplicateGuardianAddress) <==> exists|
            d: int,
            e: int,
        |
            0 <= d < e < keys@.len() && #[trigger] keys@[d]@ == #[trigger] keys@[e]@ && forall|z: int|
                0 <= z <= d ==> #[trigger] keys@[z]@ != zero_address(),
{
    let r = check_guardian_keys_in_order(keys);
    proof {
        lemma_keys_check_ok_iff_valid(keys_view(keys@));
        lemma_keys_check_errors_for_keys(keys@);
        assert forall|i: int| 0 <= i < keys@.len() implies keys_view(keys@)[i] == #[trigger] keys@[i]@ by {}
    }
    r
}

/// The key checks, in the order in which the program makes them.
fn check_guardian_keys_in_order(keys: &Vec<[u8; 20]>) -> (r: Result<(), CoreBridgeError>)
    ensures
        r == guardian_keys_check(keys_view(keys@)),
{
    let ghost kv = keys_view(keys@);
    let n = keys.len();
    if n == 0 {
        return Err(CoreBridgeError::ZeroGuardians);
    }
    let mut i: usize = 0;
    while i < n - 1
        invariant
            n == keys.len(),
            n > 0,
            0 <= i <= n - 1,
            kv == keys_view(keys@),
            forall|k: int| 0 <= k < i ==> !key_refused(kv, k),
        decreases n - 1 - i,
    {
        if is_zero_address(&keys[i]) {
            proof {
                assert(kv[i as int] == keys@[i as int]@);
                assert(first_refused(kv, i as int));
                assert forall|k: int| first_refused(kv, k) implies k == i by {
                    lemma_first_refused_unique(kv, k, i as int);
                }
            }
            return Err(CoreBridgeError::GuardianZeroAddress);
        }
        let mut j: usize = i + 1;
        while j < n
            invariant
                n == keys.len(),
                0 <= i < n - 1,
                i + 1 <= j <= n,
                kv == keys_view(keys@),
                kv[i as int] != zero_address(),
                forall|k: int| 0 <= k < i ==> !key_refused(kv, k),
                forall|m: int| i < m < j ==> kv[m] != kv[i as int],
            decreases n - j,
        {
            if same_address(&keys[i], &keys[j]) {
                proof {
                    assert(kv[j as int] == kv[i as int]);
                    assert(has_later_duplicate(kv, i as int));
                    assert(first_refused(kv, i as int));
                    assert forall|k: int| first_refused(kv, k) implies k == i by {
                        lemma_first_refused_unique(kv, k, i as int);
                    }
                }
                return Err(CoreBridgeError::DuplicateGuardianAddress);
            }
            j = j + 1;
        }
        proof {
            assert(!has_later_duplicate(kv, i as int));
        }
        i = i + 1;
    }
    if is_zero_address(&keys[n - 1]) {
        proof {
            assert(first_refused(kv, (n - 1) as int));
            assert forall|k: int| first_refused(kv, k) implies k == n - 1 by {
                lemma_first_refused_unique(kv, k, (n - 1) as int);
            }
        }
        Err(CoreBridgeError::GuardianZeroAddress)
    } else {
        proof {
            assert(!has_later_duplicate(kv, (n - 1) as int));
            assert(!key_refused(kv, (n - 1) as int));
            assert forall|k: int| !first_refused(kv, k) by {
                if 0 <= k < kv.len() {
                    assert(!key_refused(kv, k));
                }
            }
        }
        Ok(())
    }
}


} // verus!
