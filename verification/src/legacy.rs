//! Account framing for legacy programs converted to the Anchor framework.
//!
//! A legacy account is its discriminator (possibly empty) followed by the account's serialized
//! data. An Anchor account starts with Anchor's 8 byte discriminator instead. An account that may
//! be in either form (an [`AccountVariant`]) is read as an Anchor account when its first 8 bytes
//! are the Anchor discriminator, and as a legacy account otherwise.

use vstd::prelude::*;

verus! {

/// Errors of the account framing.
#[derive(Debug, Clone, Copy, PartialEq, Eq, Structural)]
pub enum AccountError {
    /// The account data does not carry the expected discriminator.
    AccountDidNotDeserialize,
    /// The account data could not be written.
    AccountDidNotSerialize,
}

/// `buf` starts with `discriminator`.
pub open spec fn has_discriminator(discriminator: Seq<u8>, buf: Seq<u8>) -> bool {
    buf.len() >= discriminator.len() && buf.take(discriminator.len() as int) == discriminator
}

/// Whether `buf` starts with `prefix`.
pub fn starts_with(prefix: &[u8], buf: &[u8]) -> (r: bool)
    ensures
        r == has_discriminator(prefix@, buf@),
        r <==> buf@.len() >= prefix@.len() && forall|i: int|
            0 <= i < prefix@.len() ==> buf@[i] == prefix@[i],
{
    if buf.len() < prefix.len() {
        return false;
    }
    let n = prefix.len();
    let mut i: usize = 0;
    while i < n
        invariant
            n == prefix@.len(),
            n <= buf@.len(),
            0 <= i <= n,
            forall|k: int| 0 <= k < i ==> buf@[k] == prefix@[k],
        decreases n - i,
    {
        if buf[i] != prefix[i] {
            assert(buf@.take(n as int)[i as int] != prefix@[i as int]);
            return false;
        }
        i = i + 1;
    }
    assert(buf@.take(n as int) =~= prefix@);
    true
}

/// Frames the serialized data of a legacy account: the account's discriminator followed by the
/// data.
pub fn legacy_try_serialize(discriminator: &[u8], data: &[u8]) -> (r: Vec<u8>)
    ensures
        r@ == discriminator@ + data@,
{
    let mut out: Vec<u8> = Vec::new();
    let mut i: usize = 0;
    while i < discriminator.len()
        invariant
            0 <= i <= discriminator@.len(),
            out@ == discriminator@.take(i as int),
        decreases discriminator@.len() - i,
    {
        out.push(discriminator[i]);
        i = i + 1;
        assert(out@ =~= discriminator@.take(i as int));
    }
    let mut j: usize = 0;
    while j < data.len()
        invariant
            0 <= j <= data@.len(),
            out@ == discriminator@ + data@.take(j as int),
        decreases data@.len() - j,
    {
        out.push(data[j]);
        j = j + 1;
        assert(out@ =~= discriminator@ + data@.take(j as int));
    }
    assert(data@.take(data@.len() as int) =~= data@);
    out
}

/// Reads a legacy account: the data must start with the account's discriminator, and the
/// serialized account follows it.
pub fn legacy_try_deserialize<'a>(discriminator: &[u8], buf: &'a [u8]) -> (r: Result<
    &'a [u8],
    AccountError,
>)
    ensures
        match r {
            Ok(data) => has_discriminator(discriminator@, buf@) && data@ == buf@.skip(
                discriminator@.len() as int,
            ),
            Err(e) => !has_discriminator(discriminator@, buf@) && e
                == AccountError::AccountDidNotDeserialize,
        },
        r is Ok <==> buf@.len() >= discriminator@.len() && forall|i: int|
            0 <= i < discriminator@.len() ==> buf@[i] == discriminator@[i],
        r matches Ok(data) ==> discriminator@ + data@ == buf@,
{
    if !starts_with(discriminator, buf) {
        return Err(AccountError::AccountDidNotDeserialize);
    }
    Ok(legacy_try_deserialize_unchecked(discriminator, buf))
}

/// Reads a legacy account without checking its discriminator: the serialized account follows as
/// many bytes as the discriminator has. The data must be at least that long.
pub fn legacy_try_deserialize_unchecked<'a>(discriminator: &[u8], buf: &'a [u8]) -> (data: &'a [u8])
    requires
        buf@.len() >= discriminator@.len(),
    ensures
        data@ == buf@.skip(discriminator@.len() as int),
{
    let data = &buf[discriminator.len()..buf.len()];
    assert(data@ =~= buf@.skip(discriminator@.len() as int));
    data
}

/// An account of a legacy program that may be stored either as an Anchor account or in its legacy
/// form.
#[derive(Debug, Clone)]
pub enum AccountVariant<T> {
    /// Stored with Anchor's discriminator.
    Anchor(T),
    /// Stored with the legacy discriminator.
    Legacy(T),
}

impl<T> AccountVariant<T> {
    /// The account, whichever its form.
    pub open spec fn spec_inner(self) -> T {
        match self {
            AccountVariant::Anchor(inner) => inner,
            AccountVariant::Legacy(inner) => inner,
        }
    }

    /// The same form holding another account.
    pub open spec fn with_inner(self, inner: T) -> Self {
        match self {
            AccountVariant::Anchor(_) => AccountVariant::Anchor(inner),
            AccountVariant::Legacy(_) => AccountVariant::Legacy(inner),
        }
    }

    /// Borrows the account, whichever its form.
    pub fn inner(&self) -> (r: &T)
        ensures
            *r == self.spec_inner(),
            match *self {
                AccountVariant::Anchor(inner) => *r == inner,
                AccountVariant::Legacy(inner) => *r == inner,
            },
    {
        match self {
            AccountVariant::Anchor(inner) => inner,
            AccountVariant::Legacy(inner) => inner,
        }
    }

    /// Borrows the account mutably, whichever its form; the form stays as it was.
    pub fn inner_mut(&mut self) -> (r: &mut T)
        ensures
            *r == old(self).spec_inner(),
            *final(self) == old(self).with_inner(*final(r)),
            match *old(self) {
                AccountVariant::Anchor(inner) => *r == inner && *final(self)
                    == AccountVariant::Anchor(*final(r)),
                AccountVariant::Legacy(inner) => *r == inner && *final(self)
                    == AccountVariant::Legacy(*final(r)),
            },
    {
        match self {
            AccountVariant::Anchor(inner) => inner,
            AccountVariant::Legacy(inner) => inner,
        }
    }
}

/// The form in which an account variant is stored.
#[derive(Debug, Clone, Copy, PartialEq, Eq, Structural)]
pub enum AccountLayout {
    /// Anchor discriminator, then the serialized account.
    Anchor,
    /// Legacy discriminator, then the serialized account.
    Legacy,
}

/// How an account variant is read from its data: fewer than 8 bytes cannot be read; data that
/// starts with the Anchor discriminator is an Anchor account; other data is a legacy account,
/// which must start with the legacy discriminator.
pub open spec fn account_variant_layout_of(
    anchor_discriminator: Seq<u8>,
    legacy_discriminator: Seq<u8>,
    buf: Seq<u8>,
) -> Result<AccountLayout, AccountError> {
    if buf.len() < 8 {
        Err(AccountError::AccountDidNotDeserialize)
    } else if buf.take(8) == anchor_discriminator {
        Ok(AccountLayout::Anchor)
    } else if has_discriminator(legacy_discriminator, buf) {
        Ok(AccountLayout::Legacy)
    } else {
        Err(AccountError::AccountDidNotDeserialize)
    }
}

/// Decides in which form an account variant is stored (see [`account_variant_layout_of`]). An
/// Anchor account is then read by Anchor from the whole data; a legacy account's serialized
/// data follows its legacy discriminator.
pub fn account_variant_layout(
    anchor_discriminator: &[u8; 8],
    legacy_discriminator: &[u8],
    buf: &[u8],
) -> (r: Result<AccountLayout, AccountError>)
    ensures
        r == account_variant_layout_of(anchor_discriminator@, legacy_discriminator@, buf@),
        r is Err ==> r == Err::<AccountLayout, AccountError>(AccountError::AccountDidNotDeserialize),
        r is Ok ==> buf@.len() >= 8,
        r == Ok::<AccountLayout, AccountError>(AccountLayout::Anchor) <==> buf@.len() >= 8
            && forall|i: int| 0 <= i < 8 ==> buf@[i] == anchor_discriminator@[i],
        r == Ok::<AccountLayout, AccountError>(AccountLayout::Legacy) <==> {
            &&& buf@.len() >= 8
            &&& exists|i: int| 0 <= i < 8 && buf@[i] != anchor_discriminator@[i]
            &&& buf@.len() >= legacy_discriminator@.len()
            &&& forall|i: int|
                0 <= i < legacy_discriminator@.len() ==> buf@[i] == legacy_discriminator@[i]
        },
{
    if buf.len() < 8 {
        return Err(AccountError::AccountDidNotDeserialize);
    }
    if starts_with(anchor_discriminator.as_slice(), buf) {
        return Ok(AccountLayout::Anchor);
    }
    match legacy_try_deserialize(legacy_discriminator, buf) {
        Ok(_) => Ok(AccountLayout::Legacy),
        Err(e) => Err(e),
    }
}

/// Reading back what was framed as a legacy account gives the same serialized account.
pub proof fn lemma_legacy_round_trip(discriminator: Seq<u8>, data: Seq<u8>)
    ensures
        has_discriminator(discriminator, discriminator + data),
        (discriminator + data).skip(discriminator.len() as int) == data,
{
    assert((discriminator + data).take(discriminator.len() as int) =~= discriminator);
    assert((discriminator + data).skip(discriminator.len() as int) =~= data);
}

/// An account variant written in its legacy form is read back in its legacy form, unless the
/// framed data is shorter than 8 bytes or begins with the Anchor discriminator; written in the
/// Anchor form, it is read back in the Anchor form.
pub proof fn lemma_account_variant_round_trip(
    anchor_discriminator: Seq<u8>,
    legacy_discriminator: Seq<u8>,
    data: Seq<u8>,
)
    requires
        anchor_discriminator.len() == 8,
    ensures
        (legacy_discriminator + data).len() >= 8 && (legacy_discriminator + data).take(8)
            != anchor_discriminator ==> account_variant_layout_of(
            anchor_discriminator,
            legacy_discriminator,
            legacy_discriminator + data,
        ) == Ok::<AccountLayout, AccountError>(AccountLayout::Legacy),
        account_variant_layout_of(
            anchor_discriminator,
            legacy_discriminator,
            anchor_discriminator + data,
        ) == Ok::<AccountLayout, AccountError>(AccountLayout::Anchor),
{
    lemma_legacy_round_trip(legacy_discriminator, data);
    assert((anchor_discriminator + data).take(8) =~= anchor_discriminator);
}

} // verus!
