//! Common identifiers and value types of the protocol.

use vstd::prelude::*;

verus! {

/// The identifier of a token inside its registry.
pub type TokenId = String;

/// The identifier of an asset inside a vault; here it equals the
/// underlying token's id.
pub type AssetId = String;

/// The identifier of an option; ids are allocated in increasing order
/// starting from 1.
pub type OptionId = u64;

/// The side of an option instrument.
#[derive(Debug, Clone, Copy, PartialEq, Eq, Structural)]
pub enum OptionType {
    CALL,
    PUT,
}

/// An inclusive range of admissible expiry durations, in seconds.
#[derive(Debug, Clone, Copy, PartialEq, Eq, Structural)]
pub struct ExpiryRange {
    pub min: u64,
    pub max: u64,
}

impl ExpiryRange {
    /// Whether a duration falls inside the range.
    pub fn contains_duration(&self, duration: u64) -> (r: bool)
        ensures
            r == (self.min <= duration <= self.max),
    {
        self.min <= duration && duration <= self.max
    }
}

/// Copies an optional principal.
pub fn opt_str_dup(o: &Option<String>) -> (r: Option<String>)
    ensures
        r == *o,
{
    match o {
        None => None,
        Some(s) => Some(s.clone()),
    }
}

/// Decides whether an optional principal is exactly `who`.
pub fn opt_str_is(o: &Option<String>, who: &String) -> (r: bool)
    ensures
        r == (*o matches Some(s) && s@ == who@),
{
    match o {
        None => false,
        Some(s) => *s == *who,
    }
}

/// A transfer of money in the settlement currency, for the bank to perform.
#[derive(Debug, Clone, PartialEq, Eq)]
pub struct Payment {
    /// The receiving principal.
    pub to: String,
    /// The amount, in the smallest unit of the settlement currency.
    pub amount: u128,
}

/// A transfer of an underlying token, for its registry to perform.
#[derive(Debug, Clone, PartialEq, Eq)]
pub struct AssetTransfer {
    /// The token registry holding the asset.
    pub nft_addr: String,
    /// The token to move.
    pub token_id: TokenId,
    /// The receiving principal.
    pub recipient: String,
}

} // verus!
