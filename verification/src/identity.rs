//! The environment-native primitive types: account references, code
//! references, balances and timestamps.

use vstd::prelude::*;

verus! {

/// An opaque, equality-comparable account or contract reference.
/// The zero value is the well-known "unset" sentinel.
#[derive(Clone, Copy, PartialEq, Eq, Structural, Debug, Hash)]
pub struct AccountId(pub u64);

impl AccountId {
    /// Whether this is the zero/unset sentinel.
    pub open spec fn is_zero(self) -> bool {
        self.0 == 0
    }
}

impl Default for AccountId {
    /// The zero/unset sentinel account.
    fn default() -> (r: Self)
        ensures
            r.0 == 0,
    {
        AccountId(0)
    }
}

/// A reference to uploaded contract code, as used by the upgradeable
/// forwarding proxy to name its current implementation.
#[derive(Clone, Copy, PartialEq, Eq, Structural, Debug, Hash)]
pub struct CodeHash(pub u64);

impl Default for CodeHash {
    /// The zero/unset sentinel code reference.
    fn default() -> (r: Self)
        ensures
            r.0 == 0,
    {
        CodeHash(0)
    }
}

/// An amount of the environment's native token.
pub type Balance = u128;

/// A block timestamp as reported by the environment.
pub type Timestamp = u64;

} // verus!
