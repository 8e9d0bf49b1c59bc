//! The query message surfaces, dispatched as exhaustive sum types.

use vstd::prelude::*;

use crate::errors::ContractError;
use crate::execute::CallEngine;
use crate::types::{AssetId, OptionId};
use crate::vault::{active_at, CurrentEntitlementOperatorResponse, Vault};

verus! {

/// The read-only questions a call instrument answers.
#[derive(Debug, Clone, PartialEq, Eq)]
pub enum CallInstrumentQueryMsg {
    /// The current high settlement bid of an option.
    CurrentBid { option_id: OptionId },
    /// The current high bidder of an option, if any.
    CurrentBidder { option_id: OptionId },
    /// The vault custodying an option's underlying asset.
    GetVaultAddress { option_id: OptionId },
    /// The latest option id covering an asset, settled or not.
    GetOptionIdForAsset { vault: String, asset_id: AssetId },
    /// The underlying asset id of an option.
    GetAssetId { option_id: OptionId },
    /// The strike price of an option.
    GetStrikePrice { option_id: OptionId },
    /// The expiration timestamp of an option.
    GetExpiration { option_id: OptionId },
}

/// The answers to [`CallInstrumentQueryMsg`], variant by variant.
#[derive(Debug, Clone, PartialEq, Eq)]
pub enum CallInstrumentQueryAnswer {
    CurrentBid(u128),
    CurrentBidder(Option<String>),
    VaultAddress(String),
    OptionIdForAsset(OptionId),
    AssetId(AssetId),
    StrikePrice(u128),
    Expiration(u64),
}

impl CallEngine {
    /// Answers one read-only question about the ledger.
    pub fn query(&self, msg: &CallInstrumentQueryMsg) -> (r: Result<
        CallInstrumentQueryAnswer,
        ContractError,
    >)
        requires
            self.wf(),
        ensures
            match *msg {
                CallInstrumentQueryMsg::CurrentBid { option_id } => if self.has_option(option_id) {
                    r == Ok::<CallInstrumentQueryAnswer, ContractError>(
                        CallInstrumentQueryAnswer::CurrentBid(self.opt(option_id).bid),
                    )
                } else {
                    r is Err
                },
                CallInstrumentQueryMsg::CurrentBidder { option_id } => if self.has_option(
                    option_id,
                ) {
                    r == Ok::<CallInstrumentQueryAnswer, ContractError>(
                        CallInstrumentQueryAnswer::CurrentBidder(self.opt(option_id).high_bidder),
                    )
                } else {
                    r is Err
                },
                CallInstrumentQueryMsg::GetVaultAddress { option_id } => if self.has_option(
                    option_id,
                ) {
                    r == Ok::<CallInstrumentQueryAnswer, ContractError>(
                        CallInstrumentQueryAnswer::VaultAddress(self.opt(option_id).vault_addr),
                    )
                } else {
                    r is Err
                },
                CallInstrumentQueryMsg::GetOptionIdForAsset { vault, asset_id } => if self
                    .opts_index().contains_key((vault@, asset_id@)) {
                    r == Ok::<CallInstrumentQueryAnswer, ContractError>(
                        CallInstrumentQueryAnswer::OptionIdForAsset(
                            self.opts_index()[(vault@, asset_id@)],
                        ),
                    )
                } else {
                    r is Err
                },
                CallInstrumentQueryMsg::GetAssetId { option_id } => if self.has_option(option_id) {
                    r == Ok::<CallInstrumentQueryAnswer, ContractError>(
                        CallInstrumentQueryAnswer::AssetId(self.opt(option_id).asset_id),
                    )
                } else {
                    r is Err
                },
                CallInstrumentQueryMsg::GetStrikePrice { option_id } => if self.has_option(
                    option_id,
                ) {
                    r == Ok::<CallInstrumentQueryAnswer, ContractError>(
                        CallInstrumentQueryAnswer::StrikePrice(self.opt(option_id).strike),
                    )
                } else {
                    r is Err
                },
                CallInstrumentQueryMsg::GetExpiration { option_id } => if self.has_option(
                    option_id,
                ) {
                    r == Ok::<CallInstrumentQueryAnswer, ContractError>(
                        CallInstrumentQueryAnswer::Expiration(self.opt(option_id).expiration),
                    )
                } else {
                    r is Err
                },
            },
    {
        match msg {
            CallInstrumentQueryMsg::CurrentBid { option_id } => match self.current_bid(
                *option_id,
            ) {
                Ok(v) => Ok(CallInstrumentQueryAnswer::CurrentBid(v)),
                Err(e) => Err(e),
            },
            CallInstrumentQueryMsg::CurrentBidder { option_id } => match self.current_bidder(
                *option_id,
            ) {
                Ok(v) => Ok(CallInstrumentQueryAnswer::CurrentBidder(v)),
                Err(e) => Err(e),
            },
            CallInstrumentQueryMsg::GetVaultAddress { option_id } => match self.get_vault_address(
                *option_id,
            ) {
                Ok(v) => Ok(CallInstrumentQueryAnswer::VaultAddress(v)),
                Err(e) => Err(e),
            },
            CallInstrumentQueryMsg::GetOptionIdForAsset { vault, asset_id } => match self
                .get_option_id_for_asset(vault, asset_id) {
                Ok(v) => Ok(CallInstrumentQueryAnswer::OptionIdForAsset(v)),
                Err(e) => Err(e),
            },
            CallInstrumentQueryMsg::GetAssetId { option_id } => match self.get_asset_id(
                *option_id,
            ) {
                Ok(v) => Ok(CallInstrumentQueryAnswer::AssetId(v)),
                Err(e) => Err(e),
            },
            CallInstrumentQueryMsg::GetStrikePrice { option_id } => match self.get_strike_price(
                *option_id,
            ) {
                Ok(v) => Ok(CallInstrumentQueryAnswer::StrikePrice(v)),
                Err(e) => Err(e),
            },
            CallInstrumentQueryMsg::GetExpiration { option_id } => match self.get_expiration(
                *option_id,
            ) {
                Ok(v) => Ok(CallInstrumentQueryAnswer::Expiration(v)),
                Err(e) => Err(e),
            },
        }
    }
}

/// The read-only questions a vault answers.
#[derive(Debug, Clone, PartialEq, Eq)]
pub enum QueryMsg {
    /// The current beneficial owner of an asset.
    BeneficialOwner { asset_id: AssetId },
    /// Whether the asset is currently custodied by the vault.
    HoldsAsset { asset_id: AssetId },
    /// The token registry whose assets the vault covers.
    AssetAddress {},
    /// The recorded approved address for an asset, if any.
    ApprovedOperator { asset_id: AssetId },
    /// The expiry of the asset's entitlement, if one is currently active.
    EntitlementExpiration { asset_id: AssetId },
    /// The recorded entitlement operator of an asset, with its activity.
    CurrentEntitlementOperator { asset_id: AssetId },
}

/// The answers to [`QueryMsg`], variant by variant.
#[derive(Debug, Clone, PartialEq, Eq)]
pub enum VaultQueryAnswer {
    BeneficialOwner(Option<String>),
    HoldsAsset(bool),
    AssetAddress(String),
    ApprovedOperator(Option<String>),
    EntitlementExpiration(Option<u64>),
    CurrentEntitlementOperator(CurrentEntitlementOperatorResponse),
}

impl Vault {
    /// Answers one read-only question about the vault.
    pub fn query(&self, now: u64, msg: &QueryMsg) -> (r: Result<VaultQueryAnswer, ContractError>)
        requires
            self.wf(),
        ensures
            match *msg {
                QueryMsg::BeneficialOwner { asset_id } => if self.ents().contains_key(asset_id@) {
                    r == Ok::<VaultQueryAnswer, ContractError>(
                        VaultQueryAnswer::BeneficialOwner(
                            self.ents()[asset_id@].beneficial_owner,
                        ),
                    )
                } else {
                    r is Err
                },
                QueryMsg::HoldsAsset { asset_id } => r == Ok::<VaultQueryAnswer, ContractError>(
                    VaultQueryAnswer::HoldsAsset(self.held().contains(asset_id@)),
                ),
                QueryMsg::AssetAddress {  } => r == Ok::<VaultQueryAnswer, ContractError>(
                    VaultQueryAnswer::AssetAddress(self.nft_addr),
                ),
                QueryMsg::ApprovedOperator { asset_id } => r matches Ok(
                    VaultQueryAnswer::ApprovedOperator(o),
                ) && o == if self.approved().contains_key(asset_id@) {
                    Some(self.approved()[asset_id@])
                } else {
                    None::<String>
                },
                QueryMsg::EntitlementExpiration { asset_id } => if self.ents().contains_key(
                    asset_id@,
                ) {
                    r == Ok::<VaultQueryAnswer, ContractError>(
                        VaultQueryAnswer::EntitlementExpiration(
                            if active_at(self.ents()[asset_id@], now) {
                                self.ents()[asset_id@].expiry
                            } else {
                                None::<u64>
                            },
                        ),
                    )
                } else {
                    r is Err
                },
                QueryMsg::CurrentEntitlementOperator { asset_id } => if self.ents().contains_key(
                    asset_id@,
                ) {
                    r == Ok::<VaultQueryAnswer, ContractError>(
                        VaultQueryAnswer::CurrentEntitlementOperator(
                            CurrentEntitlementOperatorResponse {
                                is_active: active_at(self.ents()[asset_id@], now),
                                operator: self.ents()[asset_id@].operator,
                            },
                        ),
                    )
                } else {
                    r is Err
                },
            },
    {
        match msg {
            QueryMsg::BeneficialOwner { asset_id } => match self.beneficial_owner(asset_id) {
                Ok(o) => Ok(VaultQueryAnswer::BeneficialOwner(o)),
                Err(e) => Err(e),
            },
            QueryMsg::HoldsAsset { asset_id } => Ok(
                VaultQueryAnswer::HoldsAsset(self.holds_asset(asset_id)),
            ),
            QueryMsg::AssetAddress {  } => Ok(
                VaultQueryAnswer::AssetAddress(self.asset_address().clone()),
            ),
            QueryMsg::ApprovedOperator { asset_id } => Ok(
                VaultQueryAnswer::ApprovedOperator(self.approved_operator(asset_id)),
            ),
            QueryMsg::EntitlementExpiration { asset_id } => match self.entitlement_expiration(
                now,
                asset_id,
            ) {
                Ok(o) => Ok(VaultQueryAnswer::EntitlementExpiration(o)),
                Err(e) => Err(e),
            },
            QueryMsg::CurrentEntitlementOperator { asset_id } => match self
                .current_entitlement_operator(now, asset_id) {
                Ok(resp) => Ok(VaultQueryAnswer::CurrentEntitlementOperator(resp)),
                Err(e) => Err(e),
            },
        }
    }
}

} // verus!
