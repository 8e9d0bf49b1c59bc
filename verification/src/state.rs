//! The option ledger: per-option records and the engine's configuration.

use vstd::prelude::*;

use crate::denom::Denom;
use crate::repo::StoreKey;
use crate::types::{opt_str_dup, AssetId, OptionId};

verus! {

/// The settings of one call-instrument deployment.
pub struct Config {
    /// The main protocol contract address.
    pub protocol_addr: String,
    /// The token registry permitted to serve as underlying assets.
    pub allowed_underlying_nft: String,
    /// The vault factory address.
    pub factory_addr: String,
    /// The least distance, in seconds, between minting and expiration.
    pub minimum_option_duration: u64,
    /// The single settlement currency bids must be tendered in.
    pub allowed_denom: Denom,
    /// How far a new bid must exceed the current bid, in basis points.
    pub min_bid_inc_bips: u128,
}

/// The ledger record of one covered call option.
#[derive(Debug, Clone, PartialEq, Eq)]
pub struct CallOption {
    /// The underlying asset's id within its vault.
    pub asset_id: AssetId,
    /// The writer that created the option.
    pub writer_addr: String,
    /// When the option expires.
    pub expiration: u64,
    /// The vault custodying the underlying asset.
    pub vault_addr: String,
    /// The strike price guaranteed to the writer at settlement.
    pub strike: u128,
    /// The current high bid; zero while no bid was accepted.
    pub bid: u128,
    /// The principal holding the current high bid, if any.
    pub high_bidder: Option<String>,
    /// Set once a settlement action has taken place; terminal.
    pub settled: bool,
}

impl CallOption {
    /// A copy of the record.
    pub fn dup(&self) -> (r: CallOption)
        ensures
            r == *self,
    {
        CallOption {
            asset_id: self.asset_id.clone(),
            writer_addr: self.writer_addr.clone(),
            expiration: self.expiration,
            vault_addr: self.vault_addr.clone(),
            strike: self.strike,
            bid: self.bid,
            high_bidder: opt_str_dup(&self.high_bidder),
            settled: self.settled,
        }
    }
}

/// The key of the asset→option index: a vault and an asset inside it.
pub struct VaultAssetKey {
    /// The vault custodying the asset.
    pub vault: String,
    /// The asset's id within the vault.
    pub asset: AssetId,
}

impl StoreKey for VaultAssetKey {
    type Abs = (Seq<char>, Seq<char>);

    open spec fn abs(&self) -> (Seq<char>, Seq<char>) {
        (self.vault@, self.asset@)
    }

    fn key_eq(&self, other: &VaultAssetKey) -> (r: bool) {
        self.vault == other.vault && self.asset == other.asset
    }
}

/// The per-option well-formedness the engine maintains: a high bidder is
/// recorded exactly while the bid is positive, and an accepted bid never
/// falls below the strike.
pub open spec fn option_ok(c: CallOption) -> bool {
    &&& (c.high_bidder is Some) == (c.bid > 0)
    &&& c.high_bidder is Some ==> c.bid >= c.strike
}

/// A pending claim exists only for a settled option with a winning bid, and
/// equals the spread `bid - strike` exactly.
pub open spec fn claim_ok(c: CallOption, claim: Option<u128>) -> bool {
    claim matches Some(v) ==> c.settled && c.high_bidder is Some && v == c.bid - c.strike
}

/// The id `prev` recorded in the asset→option index is a live option id.
pub open spec fn index_id_ok(prev: OptionId, count: u64) -> bool {
    1 <= prev <= count
}

} // verus!
