//! The error taxonomy of the protocol.
//!
//! Every operation validates all of its preconditions before writing any
//! state; a failure returns one of these values and leaves every component
//! unchanged.

use vstd::prelude::*;

verus! {

/// A structured error identifying why an operation was rejected.
#[derive(Debug, Clone, PartialEq, Eq)]
pub enum ContractError {
    /// The caller is not entitled to perform the operation.
    Unauthorized,
    /// The vault has no record for the named asset.
    AssetNotFound(String),
    /// The vault does not currently custody the named asset.
    AssetNotHeld(String),
    /// A new entitlement may not replace one that is still active.
    HasActiveEntitlement,
    /// The operation needs an active entitlement and none exists.
    NoActiveEntitlement,
    /// An entitlement must expire strictly in the future.
    InvalidExpiry,
    /// A beneficial owner must be set to impose an entitlement.
    BeneficialOwnerNotSet,
    /// Only the beneficial owner or a recorded approved address may act.
    OnlyBeneficialOwnerOrOperator,
    /// An unencumbered asset can only be withdrawn by its beneficial owner.
    WithdrawalFailed,
    /// The deposited token came from the wrong registry.
    InvalidNft,
    /// The underlying token does not belong to the allowed collection.
    NftNotAllowed,
    /// The asset is not resting in the named vault.
    AssetNotInVault,
    /// The vault's entitlement does not name this engine as operator.
    EngineNotOperator,
    /// The vault's entitlement expires at a different time than the option.
    EntitlementExpirationMismatch,
    /// No option with this id exists.
    OptionNotFound(u64),
    /// The option would expire sooner than the minimum option duration.
    ExpiresTooSoon,
    /// A prior option over the same vault and asset is still unsettled.
    PriorOptionNotSettled(u64),
    /// The option is already settled; no further bid, reclaim or settlement
    /// is accepted.
    OptionAlreadySettled(u64),
    /// The option's expiration has not passed yet.
    OptionNotExpired(u64),
    /// The option's expiration has passed.
    OptionIsExpired,
    /// The payment is not denominated in the allowed settlement currency.
    DenomNotAllowed,
    /// The bid does not exceed the current bid by the minimum increment.
    BidTooLow,
    /// The bid is lower than the strike price.
    BidIsLowerStrikePrice,
    /// The option received no bid, so there is nothing to settle.
    NoWinningBidder,
    /// The option still has a winning bid; use settlement instead.
    OptionHasBids,
    /// The writer must still hold the option token to reclaim the asset.
    WriterMustOwnOption,
    /// The option token no longer exists.
    OptionTokenBurned(u64),
    /// Only the current owner of the option token may act.
    OnlyOptionOwner,
    /// No pending claim is recorded for the option.
    ClaimNotFound(u64),
    /// A checked arithmetic operation overflowed or underflowed.
    OverflowError,
    /// The address does not carry the expected chain prefix.
    InvalidChainPrefix(String),
}

impl ContractError {
    /// A short, stable name of the error kind, for logs and messages.
    pub fn label(&self) -> &'static str {
        match self {
            ContractError::Unauthorized => "unauthorized",
            ContractError::AssetNotFound(_) => "asset not found",
            ContractError::AssetNotHeld(_) => "asset not held",
            ContractError::HasActiveEntitlement => "existing entitlement must be cleared first",
            ContractError::NoActiveEntitlement => "no active entitlement",
            ContractError::InvalidExpiry => "expiry has already passed",
            ContractError::BeneficialOwnerNotSet => "beneficial owner not set",
            ContractError::OnlyBeneficialOwnerOrOperator => "only beneficial owner or operator",
            ContractError::WithdrawalFailed => "asset has an active entitlement",
            ContractError::InvalidNft => "invalid nft registry",
            ContractError::NftNotAllowed => "nft not allowed",
            ContractError::AssetNotInVault => "asset not in vault",
            ContractError::EngineNotOperator => "engine is not the entitlement operator",
            ContractError::EntitlementExpirationMismatch => "entitlement expiration differs",
            ContractError::OptionNotFound(_) => "option not found",
            ContractError::ExpiresTooSoon => "expires sooner than minimum duration",
            ContractError::PriorOptionNotSettled(_) => "previous option must be settled",
            ContractError::OptionAlreadySettled(_) => "option already settled",
            ContractError::OptionNotExpired(_) => "option must be expired",
            ContractError::OptionIsExpired => "option is expired",
            ContractError::DenomNotAllowed => "denom not allowed",
            ContractError::BidTooLow => "must overbid by the minimum increment",
            ContractError::BidIsLowerStrikePrice => "bid is lower than the strike price",
            ContractError::NoWinningBidder => "bid must be won by someone",
            ContractError::OptionHasBids => "option has bids",
            ContractError::WriterMustOwnOption => "writer must own the option",
            ContractError::OptionTokenBurned(_) => "option token burned",
            ContractError::OnlyOptionOwner => "owner only",
            ContractError::ClaimNotFound(_) => "claim is zero",
            ContractError::OverflowError => "arithmetic overflow",
            ContractError::InvalidChainPrefix(_) => "invalid chain prefix",
        }
    }
}

} // verus!
