use vstd::prelude::*;
use crate::access::RejectionReason;
use crate::store::{CredentialStore, store_contents};
use crate::tier::{AccessLevel, spec_access_byte};

verus! {

/// A freshly generated credential string.
/// Relies on uuid::Uuid::new_v4 and its hyphenated rendering: a random
/// version-4 identifier encoded as 36 characters (32 hexadecimal digits
/// and 4 hyphens). Nothing is assumed about which credential comes back,
/// only its length.
#[verifier::external_body]
fn fresh_credential() -> (r: String)
    ensures
        r@.len() == 36,
{
    uuid::Uuid::new_v4().hyphenated().to_string()
}

/// Mint a fresh credential bound to `access_level` and persist it with
/// its label. On success the store gains exactly that one row, under a
/// credential it did not hold before — records are write-once, so every
/// pre-existing row is unchanged — and the credential is returned, the
/// one time it is ever disclosed. On a write failure (a colliding
/// generated credential, a connection failure) the store is unchanged
/// and the caller may retry: the next attempt draws a fresh credential.
pub fn insert_api_key(store: &mut CredentialStore, access_level: AccessLevel, label: &str) -> (r:
    Option<String>)
    ensures
        (match r {
            Some(key) => key@.len() == 36 && !store_contents(*old(store)).contains_key(key@)
                && store_contents(*final(store)) == store_contents(*old(store)).insert(
                key@,
                spec_access_byte(access_level),
            ),
            None => store_contents(*final(store)) == store_contents(*old(store)),
        }),
{
    let key = fresh_credential();
    if store.insert_credential(key.as_str(), access_level.access_byte(), label) {
        Some(key)
    } else {
        None
    }
}

/// Issue a credential bound to `requested` on behalf of a caller resolved
/// to `caller`.
///
/// Only an `Administrator` caller may issue, and only the `Developer` and
/// `Basic` tiers are issuable; both rules are static and non-delegable.
/// Either rejection leaves the store untouched. On success the store
/// gains exactly the new row and the fresh credential is returned once;
/// on a write failure the store is unchanged and the caller may retry.
pub fn issue(
    store: &mut CredentialStore,
    requested: AccessLevel,
    label: &str,
    caller: AccessLevel,
) -> (r: Result<String, RejectionReason>)
    ensures
        caller != AccessLevel::Administrator ==> r == Err::<String, RejectionReason>(
            RejectionReason::NotAuthorized,
        ) && store_contents(*final(store)) == store_contents(*old(store)),
        caller == AccessLevel::Administrator && requested != AccessLevel::Developer && requested
            != AccessLevel::Basic ==> r == Err::<String, RejectionReason>(
            RejectionReason::InvalidRequestedTier,
        ) && store_contents(*final(store)) == store_contents(*old(store)),
        caller == AccessLevel::Administrator && (requested == AccessLevel::Developer || requested
            == AccessLevel::Basic) ==> (match r {
            Ok(key) => key@.len() == 36 && !store_contents(*old(store)).contains_key(key@)
                && store_contents(*final(store)) == store_contents(*old(store)).insert(
                key@,
                spec_access_byte(requested),
            ),
            Err(e) => e == RejectionReason::IssuanceFailed && store_contents(*final(store))
                == store_contents(*old(store)),
        }),
{
    if caller != AccessLevel::Administrator {
        return Err(RejectionReason::NotAuthorized);
    }
    if !(requested == AccessLevel::Developer || requested == AccessLevel::Basic) {
        return Err(RejectionReason::InvalidRequestedTier);
    }
    match insert_api_key(store, requested, label) {
        Some(key) => Ok(key),
        None => Err(RejectionReason::IssuanceFailed),
    }
}

} // verus!
