use vstd::prelude::*;
use crate::store::{CredentialStore, Database, LookupOutcome, connection_contents};
use crate::tier::{AccessLevel, spec_access_byte, spec_from_access_byte};

verus! {

/// Why a request or a privileged operation was rejected. Authentication
/// and authorization failures are distinct from transient infrastructure
/// failures, so a caller can tell what is worth retrying.
#[derive(Clone, Copy, Debug, PartialEq, Eq, Structural)]
pub enum RejectionReason {
    /// More than one credential was presented with a single request.
    MalformedCredentialPresentation,
    /// The presented credential is not in the store, or is stored under a
    /// byte that denotes no tier.
    UnrecognizedCredential,
    /// The store could not be consulted (pool exhausted, connection or
    /// query failure); retryable, not an authentication failure.
    StoreUnavailable,
    /// The caller's tier may not perform the requested privileged
    /// operation.
    NotAuthorized,
    /// The requested tier is not one of the issuable tiers.
    InvalidRequestedTier,
    /// The credential could not be persisted; retryable with a freshly
    /// generated credential.
    IssuanceFailed,
}

/// What resolving a single presented credential yields whenever the store
/// is reachable: the tier stored under it; a rejection for a credential
/// the store does not hold; and the same rejection for a stored byte that
/// denotes no tier, so a data-integrity fault in the table is never a
/// silent privilege change.
pub open spec fn spec_resolve_one(m: Map<Seq<char>, u8>, key: Seq<char>) -> Result<
    AccessLevel,
    RejectionReason,
> {
    if m.contains_key(key) {
        match spec_from_access_byte(m[key]) {
            Some(level) => Ok(level),
            None => Err(RejectionReason::UnrecognizedCredential),
        }
    } else {
        Err(RejectionReason::UnrecognizedCredential)
    }
}

/// The tier stored under one credential, read through a checked-out
/// connection: the stored tier, `UnrecognizedCredential` for a missing
/// row or a stored byte that denotes no tier, or `StoreUnavailable` when
/// the query fails.
pub fn get_access_level(db: &Database, api_key: &str) -> (r: Result<AccessLevel, RejectionReason>)
    ensures
        r == Err::<AccessLevel, RejectionReason>(RejectionReason::StoreUnavailable) || r
            == spec_resolve_one(connection_contents(*db), api_key@),
{
    match db.query_access_byte(api_key) {
        LookupOutcome::Unavailable => Err(RejectionReason::StoreUnavailable),
        LookupOutcome::Missing => Err(RejectionReason::UnrecognizedCredential),
        LookupOutcome::Found(byte) => match AccessLevel::from_access_byte(byte) {
            Some(level) => Ok(level),
            None => Err(RejectionReason::UnrecognizedCredential),
        },
    }
}

/// Resolve the credentials presented with one request to a tier.
///
/// Zero presented credentials succeed as `Unauthenticated` without the
/// store being consulted; two or more are rejected as malformed whatever
/// they hold; exactly one is looked up, and yields the stored tier, an
/// `UnrecognizedCredential` rejection, or `StoreUnavailable` when the
/// store cannot be consulted. Resolution never touches the usage ledger.
pub fn resolve(store: &CredentialStore, keys: &Vec<String>) -> (r: Result<
    AccessLevel,
    RejectionReason,
>)
    ensures
        keys@.len() == 0 ==> r == Ok::<AccessLevel, RejectionReason>(
            AccessLevel::Unauthenticated,
        ),
        keys@.len() > 1 ==> r == Err::<AccessLevel, RejectionReason>(
            RejectionReason::MalformedCredentialPresentation,
        ),
        keys@.len() == 1 ==> r == Err::<AccessLevel, RejectionReason>(
            RejectionReason::StoreUnavailable,
        ) || r == spec_resolve_one(store.contents(), keys@[0]@),
{
    if keys.len() > 1 {
        return Err(RejectionReason::MalformedCredentialPresentation);
    }
    if keys.len() == 0 {
        return Ok(AccessLevel::Unauthenticated);
    }
    let key = &keys[0];
    match store.acquire() {
        None => Err(RejectionReason::StoreUnavailable),
        Some(db) => get_access_level(&db, key.as_str()),
    }
}

/// Law: a credential just issued for a tier resolves to exactly that
/// tier. Once the store holds the row binding `key` to the access byte of
/// `level`, resolving `key` against the reachable store yields `level`.
pub proof fn lemma_issue_then_resolve(m: Map<Seq<char>, u8>, key: Seq<char>, level: AccessLevel)
    requires
        level != AccessLevel::Unauthenticated,
    ensures
        spec_resolve_one(m.insert(key, spec_access_byte(level)), key) == Ok::<
            AccessLevel,
            RejectionReason,
        >(level),
{
    crate::tier::lemma_access_byte_round_trip(level);
    assert(m.insert(key, spec_access_byte(level)).contains_key(key));
    assert(m.insert(key, spec_access_byte(level))[key] == spec_access_byte(level));
}

} // verus!
