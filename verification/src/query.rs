//! Read-only lookups over the option ledger.

use vstd::prelude::*;

use crate::errors::ContractError;
use crate::execute::CallEngine;
use crate::repo::StoreKey;
use crate::state::VaultAssetKey;
use crate::types::{opt_str_dup, AssetId, OptionId};

verus! {

impl CallEngine {
    /// The current high settlement bid of an option; zero while nobody
    /// bid.
    pub fn current_bid(&self, option_id: OptionId) -> (r: Result<u128, ContractError>)
        requires
            self.wf(),
        ensures
            self.has_option(option_id) ==> r == Ok::<u128, ContractError>(
                self.opt(option_id).bid,
            ),
            !self.has_option(option_id) ==> r == Err::<u128, ContractError>(
                ContractError::OptionNotFound(option_id),
            ),
    {
        if option_id == 0 || option_id > self.count {
            return Err(ContractError::OptionNotFound(option_id));
        }
        let i = self.slot(option_id);
        Ok(self.options[i].bid)
    }

    /// The current high bidder of an option, if any.
    pub fn current_bidder(&self, option_id: OptionId) -> (r: Result<Option<String>, ContractError>)
        requires
            self.wf(),
        ensures
            self.has_option(option_id) ==> r == Ok::<Option<String>, ContractError>(
                self.opt(option_id).high_bidder,
            ),
            !self.has_option(option_id) ==> r == Err::<Option<String>, ContractError>(
                ContractError::OptionNotFound(option_id),
            ),
    {
        if option_id == 0 || option_id > self.count {
            return Err(ContractError::OptionNotFound(option_id));
        }
        let i = self.slot(option_id);
        Ok(opt_str_dup(&self.options[i].high_bidder))
    }

    /// The vault custodying an option's underlying asset.
    pub fn get_vault_address(&self, option_id: OptionId) -> (r: Result<String, ContractError>)
        requires
            self.wf(),
        ensures
            self.has_option(option_id) ==> r == Ok::<String, ContractError>(
                self.opt(option_id).vault_addr,
            ),
            !self.has_option(option_id) ==> r == Err::<String, ContractError>(
                ContractError::OptionNotFound(option_id),
            ),
    {
        if option_id == 0 || option_id > self.count {
            return Err(ContractError::OptionNotFound(option_id));
        }
        let i = self.slot(option_id);
        Ok(self.options[i].vault_addr.clone())
    }

    /// The latest option id covering an asset, settled or not.
    pub fn get_option_id_for_asset(&self, vault: &String, asset_id: &AssetId) -> (r: Result<
        OptionId,
        ContractError,
    >)
        requires
            self.wf(),
        ensures
            self.opts_index().contains_key((vault@, asset_id@)) ==> r == Ok::<
                OptionId,
                ContractError,
            >(self.opts_index()[(vault@, asset_id@)]),
            !self.opts_index().contains_key((vault@, asset_id@)) ==> r == Err::<
                OptionId,
                ContractError,
            >(ContractError::AssetNotFound(*asset_id)),
    {
        let key = VaultAssetKey { vault: vault.clone(), asset: asset_id.clone() };
        proof {
            assert(key.abs() == (vault@, asset_id@));
        }
        match self.index.get(&key) {
            Some(id) => Ok(*id),
            None => Err(ContractError::AssetNotFound(asset_id.clone())),
        }
    }

    /// The underlying asset id of an option.
    pub fn get_asset_id(&self, option_id: OptionId) -> (r: Result<AssetId, ContractError>)
        requires
            self.wf(),
        ensures
            self.has_option(option_id) ==> r == Ok::<AssetId, ContractError>(
                self.opt(option_id).asset_id,
            ),
            !self.has_option(option_id) ==> r == Err::<AssetId, ContractError>(
                ContractError::OptionNotFound(option_id),
            ),
    {
        if option_id == 0 || option_id > self.count {
            return Err(ContractError::OptionNotFound(option_id));
        }
        let i = self.slot(option_id);
        Ok(self.options[i].asset_id.clone())
    }

    /// The strike price of an option.
    pub fn get_strike_price(&self, option_id: OptionId) -> (r: Result<u128, ContractError>)
        requires
            self.wf(),
        ensures
            self.has_option(option_id) ==> r == Ok::<u128, ContractError>(
                self.opt(option_id).strike,
            ),
            !self.has_option(option_id) ==> r == Err::<u128, ContractError>(
                ContractError::OptionNotFound(option_id),
            ),
    {
        if option_id == 0 || option_id > self.count {
            return Err(ContractError::OptionNotFound(option_id));
        }
        let i = self.slot(option_id);
        Ok(self.options[i].strike)
    }

    /// The expiration timestamp of an option.
    pub fn get_expiration(&self, option_id: OptionId) -> (r: Result<u64, ContractError>)
        requires
            self.wf(),
        ensures
            self.has_option(option_id) ==> r == Ok::<u64, ContractError>(
                self.opt(option_id).expiration,
            ),
            !self.has_option(option_id) ==> r == Err::<u64, ContractError>(
                ContractError::OptionNotFound(option_id),
            ),
    {
        if option_id == 0 || option_id > self.count {
            return Err(ContractError::OptionNotFound(option_id));
        }
        let i = self.slot(option_id);
        Ok(self.options[i].expiration)
    }

    /// The owner of an option's token, or `None` once it is burned.
    pub fn option_owner(&self, option_id: OptionId) -> (r: Result<Option<String>, ContractError>)
        requires
            self.wf(),
        ensures
            self.has_option(option_id) ==> r == Ok::<Option<String>, ContractError>(
                self.token_owner(option_id),
            ),
            !self.has_option(option_id) ==> r == Err::<Option<String>, ContractError>(
                ContractError::OptionNotFound(option_id),
            ),
    {
        if option_id == 0 || option_id > self.count {
            return Err(ContractError::OptionNotFound(option_id));
        }
        let i = self.slot(option_id);
        Ok(opt_str_dup(&self.tokens[i]))
    }

    /// The pending claim recorded for an option, if any.
    pub fn option_claim(&self, option_id: OptionId) -> (r: Result<Option<u128>, ContractError>)
        requires
            self.wf(),
        ensures
            self.has_option(option_id) ==> r == Ok::<Option<u128>, ContractError>(
                self.claim_of(option_id),
            ),
            !self.has_option(option_id) ==> r == Err::<Option<u128>, ContractError>(
                ContractError::OptionNotFound(option_id),
            ),
    {
        if option_id == 0 || option_id > self.count {
            return Err(ContractError::OptionNotFound(option_id));
        }
        let i = self.slot(option_id);
        Ok(self.claims[i])
    }
}

} // verus!
