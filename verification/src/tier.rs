use vstd::prelude::*;

verus! {

/// Privilege tier of a caller. Tiers are ordered by decreasing default
/// privilege; `Unauthenticated` is the fallback when no credential is
/// supplied with a request.
#[derive(Clone, Copy, Debug, PartialEq, Eq, Structural)]
pub enum AccessLevel {
    Administrator,
    Developer,
    Basic,
    Unauthenticated,
}

/// The byte under which a tier is stored in the credential table.
/// `Unauthenticated` is never stored; it maps to a byte no stored
/// tier uses.
pub open spec fn spec_access_byte(level: AccessLevel) -> u8 {
    match level {
        AccessLevel::Administrator => 0,
        AccessLevel::Developer => 1,
        AccessLevel::Basic => 2,
        AccessLevel::Unauthenticated => 255,
    }
}

/// The tier denoted by a stored access byte, or `None` for a byte that
/// denotes no tier (a data-integrity fault in the table).
pub open spec fn spec_from_access_byte(value: u8) -> Option<AccessLevel> {
    if value == 0 {
        Some(AccessLevel::Administrator)
    } else if value == 1 {
        Some(AccessLevel::Developer)
    } else if value == 2 {
        Some(AccessLevel::Basic)
    } else {
        None
    }
}

/// The statically configured resource budget of a tier, as
/// `(execution_limit, memory_limit)`.
pub open spec fn spec_runtime_limits(level: AccessLevel) -> (usize, usize) {
    match level {
        AccessLevel::Administrator => (usize::MAX, usize::MAX),
        AccessLevel::Developer => (10000, 128000),
        AccessLevel::Basic => (5000, 64000),
        AccessLevel::Unauthenticated => (500, 32000),
    }
}

/// The display name of a tier.
pub open spec fn spec_level_name(level: AccessLevel) -> Seq<char> {
    match level {
        AccessLevel::Administrator => "Administrator"@,
        AccessLevel::Developer => "Developer"@,
        AccessLevel::Basic => "Basic"@,
        AccessLevel::Unauthenticated => "Unauthenticated"@,
    }
}

impl AccessLevel {
    /// Decode a stored access byte into a tier; bytes outside the stored
    /// range denote no tier.
    pub fn from_access_byte(value: u8) -> (r: Option<AccessLevel>)
        ensures
            r == spec_from_access_byte(value),
    {
        match value {
            0 => Some(AccessLevel::Administrator),
            1 => Some(AccessLevel::Developer),
            2 => Some(AccessLevel::Basic),
            _ => None,
        }
    }

    /// The byte under which this tier is stored in the credential table.
    pub fn access_byte(&self) -> (r: u8)
        ensures
            r == spec_access_byte(*self),
    {
        match self {
            AccessLevel::Administrator => 0,
            AccessLevel::Developer => 1,
            AccessLevel::Basic => 2,
            AccessLevel::Unauthenticated => 255,
        }
    }

    /// The resource budget `(execution_limit, memory_limit)` granted to
    /// this tier, one statically configured pair per tier.
    pub fn get_runtime_limits(&self) -> (r: (usize, usize))
        ensures
            r == spec_runtime_limits(*self),
    {
        match self {
            AccessLevel::Administrator => (usize::MAX, usize::MAX),
            AccessLevel::Developer => (10000, 128000),
            AccessLevel::Basic => (5000, 64000),
            AccessLevel::Unauthenticated => (500, 32000),
        }
    }

    /// The display name of this tier.
    pub fn name(&self) -> (r: &'static str)
        ensures
            r@ == spec_level_name(*self),
    {
        match self {
            AccessLevel::Administrator => "Administrator",
            AccessLevel::Developer => "Developer",
            AccessLevel::Basic => "Basic",
            AccessLevel::Unauthenticated => "Unauthenticated",
        }
    }
}

/// Storing a tier and reading it back yields the same tier: decoding the
/// access byte of any storable tier returns exactly that tier.
pub proof fn lemma_access_byte_round_trip(level: AccessLevel)
    requires
        level != AccessLevel::Unauthenticated,
    ensures
        spec_from_access_byte(spec_access_byte(level)) == Some(level),
{
}

/// The configured budgets are ordered componentwise by privilege:
/// `Administrator` >= `Developer` >= `Basic` >= the default budget used
/// for unauthenticated callers.
pub proof fn lemma_runtime_limits_ordered()
    ensures
        spec_runtime_limits(AccessLevel::Administrator).0 >= spec_runtime_limits(
            AccessLevel::Developer,
        ).0 >= spec_runtime_limits(AccessLevel::Basic).0 >= spec_runtime_limits(
            AccessLevel::Unauthenticated,
        ).0,
        spec_runtime_limits(AccessLevel::Administrator).1 >= spec_runtime_limits(
            AccessLevel::Developer,
        ).1 >= spec_runtime_limits(AccessLevel::Basic).1 >= spec_runtime_limits(
            AccessLevel::Unauthenticated,
        ).1,
{
}

} // verus!
