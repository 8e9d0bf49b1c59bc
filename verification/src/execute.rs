//! The auction / settlement engine.
//!
//! One engine manages the full lifecycle of the call options written over
//! one allowed underlying collection: mint, bid, reclaim, settle, burn and
//! claim.  The engine owns the option ledger, the option-token ownership
//! record, the pending claims, and the asset→option index; the vault
//! custodying an underlying asset is handed in by the caller, routed by the
//! option's recorded vault address.
//!
//! Every operation validates all preconditions before any write, so a
//! failure returns an error and leaves the engine and the vault unchanged.

use vstd::prelude::*;

use crate::errors::ContractError;
use crate::repo::{Repo, StoreKey};
use crate::state::{claim_ok, index_id_ok, option_ok, CallOption, Config, VaultAssetKey};
use crate::denom::{find_allowed_coin, spec_find_allowed_coin, Coin};
use crate::types::{AssetId, AssetTransfer, OptionId, Payment, TokenId};
use crate::vault::{
    active_at, ents_updated, operator_is, spec_impose, Entitlement, SetEntitlement, Vault,
};

verus! {

/// The answer to a successful mint against a freshly tendered token: the
/// new option's id and the transfer moving the token into the vault.
#[derive(Debug, Clone, PartialEq, Eq)]
pub struct MintResponse {
    /// The id of the option just created.
    pub option_id: OptionId,
    /// The instruction for the underlying registry: move the tendered
    /// token into the vault.
    pub transfer: AssetTransfer,
}

/// True if some element of `v` reads `who`.
pub open spec fn contains_str(v: Seq<String>, who: Seq<char>) -> bool {
    exists|i: int| 0 <= i < v.len() && #[trigger] v[i]@ == who
}

/// Whether some element of `v` reads `who`.
fn str_in(v: &Vec<String>, who: &String) -> (r: bool)
    ensures
        r == contains_str(v@, who@),
{
    let n = v.len();
    for i in 0..n
        invariant
            n == v@.len(),
            forall|j: int| 0 <= j < i ==> #[trigger] v@[j]@ != who@,
    {
        if v[i] == *who {
            return true;
        }
    }
    false
}

/// Whether `caller` may mint over the asset: they are its beneficial owner
/// or its recorded approved address.  Meaningful only when the asset has a
/// record.
pub open spec fn is_owner_or_operator(vault: Vault, a: Seq<char>, caller: Seq<char>) -> bool {
    ||| vault.ents()[a].beneficial_owner matches Some(bo) && bo@ == caller
    ||| vault.approved().contains_key(a) && vault.approved()[a]@ == caller
}

/// The engine running the auctions and settlements of one deployment.
pub struct CallEngine {
    /// The engine's own account address; entitlements name it as operator.
    pub addr: String,
    /// The deployment's settings.
    pub config: Config,
    /// The option records; the option with id `i` sits at position
    /// `i - 1`.
    pub options: Vec<CallOption>,
    /// How many options were ever minted; ids run from 1 to `count`.
    pub count: u64,
    /// Per option, the current owner of its option token; `None` once the
    /// token is burned.
    pub tokens: Vec<Option<String>>,
    /// Per option, the pending claim recorded at settlement, if any.
    pub claims: Vec<Option<u128>>,
    /// The most recent option id per vault/asset pair.
    pub index: Repo<VaultAssetKey, OptionId>,
}

impl CallEngine {
    /// The engine's invariant: ledgers line up with the id counter, the
    /// index points at live ids, and every record satisfies the per-option
    /// and per-claim invariants.
    pub open spec fn wf(&self) -> bool {
        &&& self.count as int == self.options@.len()
        &&& self.tokens@.len() == self.options@.len()
        &&& self.claims@.len() == self.options@.len()
        &&& self.index.wf()
        &&& forall|k: (Seq<char>, Seq<char>)| #[trigger]
            self.index.to_map().contains_key(k) ==> index_id_ok(self.index.to_map()[k], self.count)
        &&& forall|i: int| 0 <= i < self.options@.len() ==> option_ok(#[trigger] self.options@[i])
        &&& forall|i: int|
            0 <= i < self.options@.len() ==> claim_ok(
                #[trigger] self.options@[i],
                self.claims@[i],
            )
    }

    /// Whether an option with this id exists.
    pub open spec fn has_option(&self, id: OptionId) -> bool {
        1 <= id <= self.count
    }

    /// The record of option `id`.
    pub open spec fn opt(&self, id: OptionId) -> CallOption {
        self.options@[id - 1]
    }

    /// The owner of option `id`'s token, or `None` once it is burned.
    pub open spec fn token_owner(&self, id: OptionId) -> Option<String> {
        self.tokens@[id - 1]
    }

    /// The pending claim of option `id`, if one is recorded.
    pub open spec fn claim_of(&self, id: OptionId) -> Option<u128> {
        self.claims@[id - 1]
    }

    /// The asset→option index as a map.
    pub open spec fn opts_index(&self) -> Map<(Seq<char>, Seq<char>), OptionId> {
        self.index.to_map()
    }

    /// The address and configuration agree.
    pub open spec fn same_setup(&self, other: &CallEngine) -> bool {
        &&& self.addr == other.addr
        &&& self.config == other.config
    }

    /// The vault handed to an operation is the one the option references.
    pub open spec fn vault_matches(&self, vault: &Vault, id: OptionId) -> bool {
        self.has_option(id) ==> vault.addr@ == self.opt(id).vault_addr@
    }

    /// A fresh engine with no options.
    pub fn new(addr: String, config: Config) -> (r: CallEngine)
        ensures
            r.wf(),
            r.addr == addr,
            r.config == config,
            r.count == 0,
            r.options@ == Seq::<CallOption>::empty(),
            r.tokens@ == Seq::<Option<String>>::empty(),
            r.claims@ == Seq::<Option<u128>>::empty(),
            r.opts_index() == Map::<(Seq<char>, Seq<char>), OptionId>::empty(),
    {
        CallEngine {
            addr,
            config,
            options: Vec::new(),
            count: 0,
            tokens: Vec::new(),
            claims: Vec::new(),
            index: Repo::new(),
        }
    }

    /// The position of option `id` in the ledgers.
    pub(crate) fn slot(&self, id: OptionId) -> (i: usize)
        requires
            self.wf(),
            1 <= id <= self.count,
        ensures
            i as int == id - 1,
            i < self.options@.len(),
    {
        let n = self.options.len();
        (id - 1) as usize
    }

    /// Checks the preconditions common to every mint: the expiration lies
    /// beyond the minimum option duration, any prior option over the same
    /// vault/asset pair is settled, and an id is still available.
    fn mint_precheck(
        &self,
        now: u64,
        vault_addr: &String,
        asset_id: &AssetId,
        expiration: u64,
    ) -> (r: Result<(), ContractError>)
        requires
            self.wf(),
        ensures
            match spec_mint_err(*self, now, vault_addr@, asset_id@, expiration) {
                Some(e) => r == Err::<(), ContractError>(e),
                None => r is Ok,
            },
    {
        if expiration as u128 <= now as u128 + self.config.minimum_option_duration as u128 {
            return Err(ContractError::ExpiresTooSoon);
        }
        let key = VaultAssetKey { vault: vault_addr.clone(), asset: asset_id.clone() };
        proof {
            assert(key.abs() == (vault_addr@, asset_id@));
        }
        match self.index.get(&key) {
            Some(prev) => {
                let p = *prev;
                let n = self.options.len();
                proof {
                    assert(self.opts_index().contains_key((vault_addr@, asset_id@)));
                    assert(index_id_ok(p, self.count));
                    assert(p - 1 < n);
                }
                let i = (p - 1) as usize;
                proof {
                    assert(i as int == p - 1);
                }
                if !self.options[i].settled {
                    return Err(ContractError::PriorOptionNotSettled(p));
                }
            },
            None => {
                proof {
                    assert(!self.opts_index().contains_key((vault_addr@, asset_id@)));
                }
            },
        }
        if self.count == u64::MAX {
            return Err(ContractError::OverflowError);
        }
        Ok(())
    }

    /// Writes the new option: allocates the next id, records the option
    /// with no bid, mints its token to the writer, and points the
    /// asset→option index at it.
    fn mint_commit(
        &mut self,
        writer: String,
        vault_addr: &String,
        asset_id: &AssetId,
        strike: u128,
        expiration: u64,
    ) -> (id: OptionId)
        requires
            old(self).wf(),
            old(self).count < u64::MAX,
        ensures
            final(self).wf(),
            final(self).same_setup(old(self)),
            id == old(self).count + 1,
            final(self).count == id,
            final(self).options@ == old(self).options@.push(
                CallOption {
                    asset_id: *asset_id,
                    writer_addr: writer,
                    expiration,
                    vault_addr: *vault_addr,
                    strike,
                    bid: 0,
                    high_bidder: None::<String>,
                    settled: false,
                },
            ),
            final(self).tokens@ == old(self).tokens@.push(Some(writer)),
            final(self).claims@ == old(self).claims@.push(None::<u128>),
            final(self).opts_index() == old(self).opts_index().insert((vault_addr@, asset_id@), id),
    {
        let id = self.count + 1;
        self.count = id;
        self.options.push(
            CallOption {
                asset_id: asset_id.clone(),
                writer_addr: writer.clone(),
                expiration,
                vault_addr: vault_addr.clone(),
                strike,
                bid: 0,
                high_bidder: None,
                settled: false,
            },
        );
        self.tokens.push(Some(writer));
        self.claims.push(None);
        self.index.set(VaultAssetKey { vault: vault_addr.clone(), asset: asset_id.clone() }, id);
        proof {
            assert forall|k: (Seq<char>, Seq<char>)| #[trigger]
                self.index.to_map().contains_key(k) implies index_id_ok(
                self.index.to_map()[k],
                self.count,
            ) by {
                if k != (vault_addr@, asset_id@) {
                    assert(old(self).index.to_map().contains_key(k));
                }
            }
        }
        id
    }

    /// Mints a new option over an asset already resting in the vault; the
    /// engine then imposes its entitlement on the asset until expiration.
    pub fn mint_with_vault(
        &mut self,
        vault: &mut Vault,
        now: u64,
        caller: &String,
        asset_id: AssetId,
        strike: u128,
        expiration: u64,
    ) -> (r: Result<OptionId, ContractError>)
        requires
            old(self).wf(),
            old(vault).wf(),
        ensures
            final(self).wf(),
            final(vault).wf(),
            final(self).same_setup(old(self)),
            final(vault).same_profile(old(vault)),
            match spec_mint_with_vault_err(
                *old(self),
                *old(vault),
                now,
                caller@,
                asset_id,
                expiration,
            ) {
                Some(e) => r == Err::<OptionId, ContractError>(e) && *final(self) == *old(self)
                    && *final(vault) == *old(vault),
                None => {
                    let writer = old(vault).ents()[asset_id@].beneficial_owner.unwrap();
                    let id = (old(self).count + 1) as OptionId;
                    &&& r == Ok::<OptionId, ContractError>(id)
                    &&& mint_effects(
                        *old(self),
                        *final(self),
                        writer,
                        old(vault).addr,
                        asset_id,
                        strike,
                        expiration,
                        id,
                    )
                    &&& ents_updated(
                        *old(vault),
                        *final(vault),
                        asset_id@,
                        Entitlement {
                            beneficial_owner: old(vault).ents()[asset_id@].beneficial_owner,
                            operator: Some(old(self).addr),
                            expiry: Some(expiration),
                        },
                    )
                },
            },
    {
        if !(vault.nft_addr == self.config.allowed_underlying_nft) {
            return Err(ContractError::NftNotAllowed);
        }
        if !vault.holds_asset(&asset_id) {
            return Err(ContractError::AssetNotInVault);
        }
        let bo_opt = match vault.beneficial_owner(&asset_id) {
            Err(e) => {
                return Err(e);
            },
            Ok(o) => o,
        };
        let mut ok = false;
        match &bo_opt {
            Some(bo) => {
                if *bo == *caller {
                    ok = true;
                }
            },
            None => {},
        }
        if !ok {
            match vault.approved_operator(&asset_id) {
                Some(ap) => {
                    if ap == *caller {
                        ok = true;
                    }
                },
                None => {},
            }
        }
        if !ok {
            return Err(ContractError::Unauthorized);
        }
        let writer = match bo_opt {
            None => {
                return Err(ContractError::BeneficialOwnerNotSet);
            },
            Some(bo) => bo,
        };
        match self.mint_precheck(now, &vault.addr, &asset_id, expiration) {
            Err(e) => {
                return Err(e);
            },
            Ok(()) => {},
        }
        match vault.impose_entitlement(now, &asset_id, self.addr.clone(), expiration) {
            Err(e) => {
                return Err(e);
            },
            Ok(()) => {},
        }
        let id = self.mint_commit(writer, &vault.addr, &asset_id, strike, expiration);
        Ok(id)
    }

    /// Mints a new option over an asset whose vault already carries an
    /// entitlement naming this engine, with an expiry equal to the option's
    /// expiration.  The vault is only read.
    pub fn mint_with_entitled_vault(
        &mut self,
        vault: &Vault,
        now: u64,
        caller: &String,
        asset_id: AssetId,
        strike: u128,
        expiration: u64,
    ) -> (r: Result<OptionId, ContractError>)
        requires
            old(self).wf(),
            vault.wf(),
        ensures
            final(self).wf(),
            final(self).same_setup(old(self)),
            match spec_mint_with_entitled_vault_err(
                *old(self),
                *vault,
                now,
                caller@,
                asset_id,
                expiration,
            ) {
                Some(e) => r == Err::<OptionId, ContractError>(e) && *final(self) == *old(self),
                None => {
                    let writer = vault.ents()[asset_id@].beneficial_owner.unwrap();
                    let id = (old(self).count + 1) as OptionId;
                    &&& r == Ok::<OptionId, ContractError>(id)
                    &&& mint_effects(
                        *old(self),
                        *final(self),
                        writer,
                        vault.addr,
                        asset_id,
                        strike,
                        expiration,
                        id,
                    )
                },
            },
    {
        if !(vault.nft_addr == self.config.allowed_underlying_nft) {
            return Err(ContractError::NftNotAllowed);
        }
        if !vault.holds_asset(&asset_id) {
            return Err(ContractError::AssetNotInVault);
        }
        let resp = match vault.current_entitlement_operator(now, &asset_id) {
            Err(e) => {
                return Err(e);
            },
            Ok(resp) => resp,
        };
        let engine_entitled = resp.is_active && match &resp.operator {
            Some(op) => *op == self.addr,
            None => false,
        };
        if !engine_entitled {
            return Err(ContractError::EngineNotOperator);
        }
        let expiry = match vault.entitlement_expiration(now, &asset_id) {
            Err(e) => {
                return Err(e);
            },
            Ok(o) => o,
        };
        let expiry_matches = match expiry {
            Some(x) => x == expiration,
            None => false,
        };
        if !expiry_matches {
            return Err(ContractError::EntitlementExpirationMismatch);
        }
        let bo_opt = match vault.beneficial_owner(&asset_id) {
            Err(e) => {
                return Err(e);
            },
            Ok(o) => o,
        };
        let mut ok = false;
        match &bo_opt {
            Some(bo) => {
                if *bo == *caller {
                    ok = true;
                }
            },
            None => {},
        }
        if !ok {
            match vault.approved_operator(&asset_id) {
                Some(ap) => {
                    if ap == *caller {
                        ok = true;
                    }
                },
                None => {},
            }
        }
        if !ok {
            return Err(ContractError::Unauthorized);
        }
        let writer = match bo_opt {
            None => {
                return Err(ContractError::BeneficialOwnerNotSet);
            },
            Some(bo) => bo,
        };
        match self.mint_precheck(now, &vault.addr, &asset_id, expiration) {
            Err(e) => {
                return Err(e);
            },
            Ok(()) => {},
        }
        let id = self.mint_commit(writer, &vault.addr, &asset_id, strike, expiration);
        Ok(id)
    }

    /// Mints a new option against a freshly tendered token: the caller (or
    /// an address they approved) owns the token, this engine is approved to
    /// move it, and the returned transfer moves it into the vault, which
    /// registers the accompanying entitlement.
    ///
    /// `owner`, `operators` and `approvals` are the underlying registry's
    /// answers for the token: its owner, the owner's operators, and the
    /// addresses approved for the token.
    pub fn mint_with_nft(
        &mut self,
        vault: &mut Vault,
        now: u64,
        caller: &String,
        nft: String,
        nft_id: TokenId,
        strike: u128,
        expiration: u64,
        owner: String,
        operators: &Vec<String>,
        approvals: &Vec<String>,
    ) -> (r: Result<MintResponse, ContractError>)
        requires
            old(self).wf(),
            old(vault).wf(),
        ensures
            final(self).wf(),
            final(vault).wf(),
            final(self).same_setup(old(self)),
            final(vault).same_profile(old(vault)),
            match spec_mint_with_nft_err(
                *old(self),
                *old(vault),
                now,
                caller@,
                nft,
                nft_id,
                expiration,
                owner@,
                operators@,
                approvals@,
            ) {
                Some(e) => r == Err::<MintResponse, ContractError>(e) && *final(self) == *old(self)
                    && *final(vault) == *old(vault),
                None => {
                    let id = (old(self).count + 1) as OptionId;
                    &&& r == Ok::<MintResponse, ContractError>(
                        MintResponse {
                            option_id: id,
                            transfer: AssetTransfer {
                                nft_addr: nft,
                                token_id: nft_id,
                                recipient: old(vault).addr,
                            },
                        },
                    )
                    &&& mint_effects(
                        *old(self),
                        *final(self),
                        owner,
                        old(vault).addr,
                        nft_id,
                        strike,
                        expiration,
                        id,
                    )
                    &&& final(vault).ents() == old(vault).ents().insert(
                        nft_id@,
                        Entitlement {
                            beneficial_owner: Some(*caller),
                            operator: Some(old(self).addr),
                            expiry: Some(expiration),
                        },
                    )
                    &&& final(vault).held() == old(vault).held().insert(nft_id@)
                    &&& final(vault).approved() == old(vault).approved()
                },
            },
    {
        if !(nft == self.config.allowed_underlying_nft) {
            return Err(ContractError::NftNotAllowed);
        }
        let caller_may_tender = owner == *caller || str_in(operators, caller) || str_in(
            approvals,
            caller,
        );
        if !caller_may_tender {
            return Err(ContractError::Unauthorized);
        }
        let engine_approved = str_in(operators, &self.addr) || str_in(approvals, &self.addr);
        if !engine_approved {
            return Err(ContractError::EngineNotOperator);
        }
        match self.mint_precheck(now, &vault.addr, &nft_id, expiration) {
            Err(e) => {
                return Err(e);
            },
            Ok(()) => {},
        }
        let instruction = SetEntitlement {
            beneficial_owner: caller.clone(),
            entitled_operator: self.addr.clone(),
            approved_operator: None,
            expiry: expiration,
        };
        match vault.receive_cw721(now, &nft, owner.clone(), nft_id.clone(), Some(instruction)) {
            Err(e) => {
                return Err(e);
            },
            Ok(()) => {},
        }
        let id = self.mint_commit(owner, &vault.addr, &nft_id, strike, expiration);
        Ok(
            MintResponse {
                option_id: id,
                transfer: AssetTransfer {
                    nft_addr: nft,
                    token_id: nft_id,
                    recipient: vault.addr.clone(),
                },
            },
        )
    }

    /// Escrows a bid in the settlement auction of an unsettled, unexpired
    /// option.  The writer's own bid is credited the strike on top of the
    /// tendered amount, since at settlement they would receive the strike
    /// back anyway.  An accepted bid refunds the previous bidder and
    /// immediately redirects the vault's beneficial owner to the new
    /// bidder, so the writer cannot withdraw the asset between expiry and
    /// settlement.
    pub fn bid(
        &mut self,
        vault: &mut Vault,
        now: u64,
        caller: &String,
        funds: &Vec<Coin>,
        option_id: OptionId,
    ) -> (r: Result<BidResponse, ContractError>)
        requires
            old(self).wf(),
            old(vault).wf(),
            old(self).vault_matches(old(vault), option_id),
            forall|i: int| 0 <= i < funds@.len() ==> #[trigger] funds@[i].amount > 0,
        ensures
            final(self).wf(),
            final(vault).wf(),
            final(self).same_setup(old(self)),
            final(vault).same_profile(old(vault)),
            match spec_bid_err(*old(self), *old(vault), now, *caller, funds@, option_id) {
                Some(e) => r == Err::<BidResponse, ContractError>(e) && *final(self) == *old(self)
                    && *final(vault) == *old(vault),
                None => r matches Ok(resp) && bid_effects(
                    *old(self),
                    *old(vault),
                    *final(self),
                    *final(vault),
                    *caller,
                    funds@,
                    option_id,
                    resp,
                ),
            },
    {
        let coin = match find_allowed_coin(funds, &self.config.allowed_denom) {
            None => {
                return Err(ContractError::DenomNotAllowed);
            },
            Some(c) => c,
        };
        if option_id == 0 || option_id > self.count {
            return Err(ContractError::OptionNotFound(option_id));
        }
        let i = self.slot(option_id);
        if self.options[i].settled {
            return Err(ContractError::OptionAlreadySettled(option_id));
        }
        if now > self.options[i].expiration {
            return Err(ContractError::OptionIsExpired);
        }
        let is_writer = *caller == self.options[i].writer_addr;
        let eff = if is_writer {
            match coin.amount.checked_add(self.options[i].strike) {
                None => {
                    return Err(ContractError::OverflowError);
                },
                Some(x) => x,
            }
        } else {
            coin.amount
        };
        let prod = match self.options[i].bid.checked_mul(self.config.min_bid_inc_bips) {
            None => {
                return Err(ContractError::OverflowError);
            },
            Some(p) => p,
        };
        let min_required = match self.options[i].bid.checked_add(prod / 10000) {
            None => {
                return Err(ContractError::OverflowError);
            },
            Some(m) => m,
        };
        if eff < min_required {
            return Err(ContractError::BidTooLow);
        }
        if eff < self.options[i].strike {
            return Err(ContractError::BidIsLowerStrikePrice);
        }
        let asset_id = self.options[i].asset_id.clone();
        match vault.redirect_owner(&self.addr, &asset_id, caller.clone()) {
            Err(e) => {
                return Err(e);
            },
            Ok(()) => {},
        }
        let refund = match &self.options[i].high_bidder {
            None => None,
            Some(b) => {
                let amount = if *b == self.options[i].writer_addr {
                    self.options[i].bid - self.options[i].strike
                } else {
                    self.options[i].bid
                };
                if amount > 0 {
                    Some(Payment { to: b.clone(), amount })
                } else {
                    None
                }
            },
        };
        let mut rec = self.options[i].dup();
        rec.bid = eff;
        rec.high_bidder = Some(caller.clone());
        self.options[i] = rec;
        Ok(BidResponse { refund })
    }

    /// Permissionlessly settles an expired option that received a bid.
    /// The option is marked settled before anything else, so no second
    /// settlement or reclaim can run.  The writer is paid the strike unless
    /// they are themselves the winning bidder; the spread goes to the
    /// option-token holder — directly, with the token burned, when the
    /// holder is the caller, otherwise as a pending claim they retrieve
    /// later.
    pub fn settle_option(&mut self, now: u64, caller: &String, option_id: OptionId) -> (r: Result<
        SettleResponse,
        ContractError,
    >)
        requires
            old(self).wf(),
        ensures
            final(self).wf(),
            final(self).same_setup(old(self)),
            match spec_settle_err(*old(self), now, option_id) {
                Some(e) => r == Err::<SettleResponse, ContractError>(e) && *final(self) == *old(
                    self,
                ),
                None => r matches Ok(resp) && settle_effects(
                    *old(self),
                    *final(self),
                    *caller,
                    option_id,
                    resp,
                ),
            },
    {
        if option_id == 0 || option_id > self.count {
            return Err(ContractError::OptionNotFound(option_id));
        }
        let i = self.slot(option_id);
        if self.options[i].settled {
            return Err(ContractError::OptionAlreadySettled(option_id));
        }
        let bidder = match &self.options[i].high_bidder {
            None => {
                return Err(ContractError::NoWinningBidder);
            },
            Some(b) => b.clone(),
        };
        if now < self.options[i].expiration {
            return Err(ContractError::OptionNotExpired(option_id));
        }
        let spread = match self.options[i].bid.checked_sub(self.options[i].strike) {
            None => {
                return Err(ContractError::OverflowError);
            },
            Some(s) => s,
        };
        let owner = match &self.tokens[i] {
            None => {
                return Err(ContractError::OptionTokenBurned(option_id));
            },
            Some(o) => o.clone(),
        };
        let strike_payment = if bidder == self.options[i].writer_addr {
            None
        } else {
            Some(Payment { to: self.options[i].writer_addr.clone(), amount: self.options[i].strike })
        };
        let mut rec = self.options[i].dup();
        rec.settled = true;
        self.options[i] = rec;
        if *caller == owner {
            self.tokens[i] = None;
            Ok(
                SettleResponse {
                    strike_payment,
                    spread_payment: Some(Payment { to: owner, amount: spread }),
                    claimable: false,
                },
            )
        } else {
            self.claims[i] = Some(spread);
            Ok(SettleResponse { strike_payment, spread_payment: None, claimable: true })
        }
    }

    /// Lets the writer reclaim the underlying asset of an expired option
    /// that never received a bid: the option is marked settled, its token
    /// burned, and the vault records the writer as beneficial owner and
    /// clears the entitlement — releasing custody too when `withdraw` is
    /// set.  With no bid there is no escrow to refund.
    pub fn reclaim_asset(
        &mut self,
        vault: &mut Vault,
        now: u64,
        caller: &String,
        option_id: OptionId,
        withdraw: bool,
    ) -> (r: Result<ReclaimResponse, ContractError>)
        requires
            old(self).wf(),
            old(vault).wf(),
            old(self).vault_matches(old(vault), option_id),
        ensures
            final(self).wf(),
            final(vault).wf(),
            final(self).same_setup(old(self)),
            final(vault).same_profile(old(vault)),
            match spec_reclaim_err(*old(self), *old(vault), now, *caller, option_id, withdraw) {
                Some(e) => r == Err::<ReclaimResponse, ContractError>(e) && *final(self) == *old(
                    self,
                ) && *final(vault) == *old(vault),
                None => r matches Ok(resp) && reclaim_effects(
                    *old(self),
                    *old(vault),
                    *final(self),
                    *final(vault),
                    option_id,
                    withdraw,
                    resp,
                ),
            },
    {
        if option_id == 0 || option_id > self.count {
            return Err(ContractError::OptionNotFound(option_id));
        }
        let i = self.slot(option_id);
        if !(self.options[i].writer_addr == *caller) {
            return Err(ContractError::Unauthorized);
        }
        if self.options[i].settled {
            return Err(ContractError::OptionAlreadySettled(option_id));
        }
        let owner = match &self.tokens[i] {
            None => {
                return Err(ContractError::OptionTokenBurned(option_id));
            },
            Some(o) => o.clone(),
        };
        if !(owner == self.options[i].writer_addr) {
            return Err(ContractError::WriterMustOwnOption);
        }
        if now < self.options[i].expiration {
            return Err(ContractError::OptionNotExpired(option_id));
        }
        if self.options[i].high_bidder.is_some() {
            return Err(ContractError::OptionHasBids);
        }
        let asset_id = self.options[i].asset_id.clone();
        let writer = self.options[i].writer_addr.clone();
        let transfer = match vault.settle_release(&self.addr, &asset_id, writer, withdraw) {
            Err(e) => {
                return Err(e);
            },
            Ok(t) => t,
        };
        let mut rec = self.options[i].dup();
        rec.settled = true;
        self.options[i] = rec;
        self.tokens[i] = None;
        Ok(ReclaimResponse { transfer })
    }

    /// Permissionlessly burns the option token of an expired option that
    /// never received a bid.  Only the token is burned: the record stays
    /// unsettled, so the asset→option index keeps blocking new mints over
    /// the same asset until the writer reclaims it.
    pub fn burn_expired_option(&mut self, now: u64, option_id: OptionId) -> (r: Result<
        (),
        ContractError,
    >)
        requires
            old(self).wf(),
        ensures
            final(self).wf(),
            final(self).same_setup(old(self)),
            match spec_burn_err(*old(self), now, option_id) {
                Some(e) => r == Err::<(), ContractError>(e) && *final(self) == *old(self),
                None => r is Ok && burn_effects(*old(self), *final(self), option_id),
            },
    {
        if option_id == 0 || option_id > self.count {
            return Err(ContractError::OptionNotFound(option_id));
        }
        let i = self.slot(option_id);
        if self.options[i].high_bidder.is_some() {
            return Err(ContractError::OptionHasBids);
        }
        if now < self.options[i].expiration {
            return Err(ContractError::OptionNotExpired(option_id));
        }
        if self.options[i].settled {
            return Err(ContractError::OptionAlreadySettled(option_id));
        }
        match &self.tokens[i] {
            None => {
                return Err(ContractError::OptionTokenBurned(option_id));
            },
            Some(_) => {},
        }
        self.tokens[i] = None;
        Ok(())
    }

    /// Pays out the pending claim of a settled option to the current owner
    /// of its token, deletes the claim, and burns the token; a repeated
    /// call finds no claim and fails.
    pub fn claim_option_proceeds(&mut self, caller: &String, option_id: OptionId) -> (r: Result<
        Payment,
        ContractError,
    >)
        requires
            old(self).wf(),
        ensures
            final(self).wf(),
            final(self).same_setup(old(self)),
            match spec_claim_err(*old(self), *caller, option_id) {
                Some(e) => r == Err::<Payment, ContractError>(e) && *final(self) == *old(self),
                None => r matches Ok(payment) && claim_effects(
                    *old(self),
                    *final(self),
                    option_id,
                    payment,
                ),
            },
    {
        if option_id == 0 || option_id > self.count {
            return Err(ContractError::OptionNotFound(option_id));
        }
        let i = self.slot(option_id);
        let owner = match &self.tokens[i] {
            None => {
                return Err(ContractError::OptionTokenBurned(option_id));
            },
            Some(o) => o.clone(),
        };
        if !(*caller == owner) {
            return Err(ContractError::OnlyOptionOwner);
        }
        let amount = match &self.claims[i] {
            None => {
                return Err(ContractError::ClaimNotFound(option_id));
            },
            Some(v) => *v,
        };
        if amount == 0 {
            return Err(ContractError::ClaimNotFound(option_id));
        }
        self.claims[i] = None;
        self.tokens[i] = None;
        Ok(Payment { to: owner, amount })
    }

    /// Executes one command against the ledger: an exhaustive dispatch
    /// over the instrument's command surface, each arm delegating to the
    /// operation of the same name.  `nft_facts` is consulted only to mint
    /// against a fresh tender.
    pub fn execute(
        &mut self,
        vault: &mut Vault,
        now: u64,
        caller: &String,
        funds: &Vec<Coin>,
        nft_facts: &NftFacts,
        msg: CallInstrumentExecuteMsg,
    ) -> (r: Result<ExecuteResponse, ContractError>)
        requires
            old(self).wf(),
            old(vault).wf(),
            forall|i: int| 0 <= i < funds@.len() ==> #[trigger] funds@[i].amount > 0,
            match msg {
                CallInstrumentExecuteMsg::MintWithVault { vault_addr, .. } => old(vault).addr@
                    == vault_addr@,
                CallInstrumentExecuteMsg::MintWithEntitledVault { vault_addr, .. } => old(
                    vault,
                ).addr@ == vault_addr@,
                CallInstrumentExecuteMsg::Bid { option_id } => old(self).vault_matches(
                    old(vault),
                    option_id,
                ),
                CallInstrumentExecuteMsg::ReclaimAsset { option_id, .. } => old(
                    self,
                ).vault_matches(old(vault), option_id),
                _ => true,
            },
        ensures
            final(self).wf(),
            final(vault).wf(),
            final(self).same_setup(old(self)),
            final(vault).same_profile(old(vault)),
            r is Err ==> *final(self) == *old(self) && *final(vault) == *old(vault),
            match msg {
                CallInstrumentExecuteMsg::MintWithNFT { nft_addr, nft_id, strike, expiration } => {
                    match spec_mint_with_nft_err(
                        *old(self),
                        *old(vault),
                        now,
                        caller@,
                        nft_addr,
                        nft_id,
                        expiration,
                        nft_facts.owner@,
                        nft_facts.operators@,
                        nft_facts.approvals@,
                    ) {
                        Some(e) => r == Err::<ExecuteResponse, ContractError>(e),
                        None => {
                            let id = (old(self).count + 1) as OptionId;
                            &&& r == Ok::<ExecuteResponse, ContractError>(
                                ExecuteResponse::OptionMinted {
                                    option_id: id,
                                    transfer: Some(
                                        AssetTransfer {
                                            nft_addr: nft_addr,
                                            token_id: nft_id,
                                            recipient: old(vault).addr,
                                        },
                                    ),
                                },
                            )
                            &&& mint_effects(
                                *old(self),
                                *final(self),
                                nft_facts.owner,
                                old(vault).addr,
                                nft_id,
                                strike,
                                expiration,
                                id,
                            )
                            &&& final(vault).ents() == old(vault).ents().insert(
                                nft_id@,
                                Entitlement {
                                    beneficial_owner: Some(*caller),
                                    operator: Some(old(self).addr),
                                    expiry: Some(expiration),
                                },
                            )
                            &&& final(vault).held() == old(vault).held().insert(nft_id@)
                            &&& final(vault).approved() == old(vault).approved()
                        },
                    }
                },
                CallInstrumentExecuteMsg::MintWithVault { vault_addr, asset_id, strike, expiration } => {
                    match spec_mint_with_vault_err(
                        *old(self),
                        *old(vault),
                        now,
                        caller@,
                        asset_id,
                        expiration,
                    ) {
                        Some(e) => r == Err::<ExecuteResponse, ContractError>(e),
                        None => {
                            let writer = old(vault).ents()[asset_id@].beneficial_owner.unwrap();
                            let id = (old(self).count + 1) as OptionId;
                            &&& r == Ok::<ExecuteResponse, ContractError>(
                                ExecuteResponse::OptionMinted { option_id: id, transfer: None },
                            )
                            &&& mint_effects(
                                *old(self),
                                *final(self),
                                writer,
                                old(vault).addr,
                                asset_id,
                                strike,
                                expiration,
                                id,
                            )
                            &&& ents_updated(
                                *old(vault),
                                *final(vault),
                                asset_id@,
                                Entitlement {
                                    beneficial_owner: old(vault).ents()[
                                        asset_id@
                                    ].beneficial_owner,
                                    operator: Some(old(self).addr),
                                    expiry: Some(expiration),
                                },
                            )
                        },
                    }
                },
                CallInstrumentExecuteMsg::MintWithEntitledVault {
                    vault_addr,
                    asset_id,
                    strike,
                    expiration,
                } => {
                    match spec_mint_with_entitled_vault_err(
                        *old(self),
                        *old(vault),
                        now,
                        caller@,
                        asset_id,
                        expiration,
                    ) {
                        Some(e) => r == Err::<ExecuteResponse, ContractError>(e),
                        None => {
                            let writer = old(vault).ents()[asset_id@].beneficial_owner.unwrap();
                            let id = (old(self).count + 1) as OptionId;
                            &&& r == Ok::<ExecuteResponse, ContractError>(
                                ExecuteResponse::OptionMinted { option_id: id, transfer: None },
                            )
                            &&& mint_effects(
                                *old(self),
                                *final(self),
                                writer,
                                old(vault).addr,
                                asset_id,
                                strike,
                                expiration,
                                id,
                            )
                            &&& *final(vault) == *old(vault)
                        },
                    }
                },
                CallInstrumentExecuteMsg::Bid { option_id } => {
                    match spec_bid_err(*old(self), *old(vault), now, *caller, funds@, option_id) {
                        Some(e) => r == Err::<ExecuteResponse, ContractError>(e),
                        None => r matches Ok(ExecuteResponse::BidAccepted(resp)) && bid_effects(
                            *old(self),
                            *old(vault),
                            *final(self),
                            *final(vault),
                            *caller,
                            funds@,
                            option_id,
                            resp,
                        ),
                    }
                },
                CallInstrumentExecuteMsg::ReclaimAsset { option_id, withdraw } => {
                    match spec_reclaim_err(
                        *old(self),
                        *old(vault),
                        now,
                        *caller,
                        option_id,
                        withdraw,
                    ) {
                        Some(e) => r == Err::<ExecuteResponse, ContractError>(e),
                        None => r matches Ok(ExecuteResponse::AssetReclaimed(resp))
                            && reclaim_effects(
                            *old(self),
                            *old(vault),
                            *final(self),
                            *final(vault),
                            option_id,
                            withdraw,
                            resp,
                        ),
                    }
                },
                CallInstrumentExecuteMsg::SettleOption { option_id } => {
                    match spec_settle_err(*old(self), now, option_id) {
                        Some(e) => r == Err::<ExecuteResponse, ContractError>(e),
                        None => r matches Ok(ExecuteResponse::OptionSettled(resp))
                            && settle_effects(*old(self), *final(self), *caller, option_id, resp)
                            && *final(vault) == *old(vault),
                    }
                },
                CallInstrumentExecuteMsg::BurnExpiredOption { option_id } => {
                    match spec_burn_err(*old(self), now, option_id) {
                        Some(e) => r == Err::<ExecuteResponse, ContractError>(e),
                        None => r == Ok::<ExecuteResponse, ContractError>(
                            ExecuteResponse::OptionBurned,
                        ) && burn_effects(*old(self), *final(self), option_id) && *final(vault)
                            == *old(vault),
                    }
                },
                CallInstrumentExecuteMsg::ClaimOptionProceeds { option_id } => {
                    match spec_claim_err(*old(self), *caller, option_id) {
                        Some(e) => r == Err::<ExecuteResponse, ContractError>(e),
                        None => r matches Ok(ExecuteResponse::ProceedsClaimed(payment))
                            && claim_effects(*old(self), *final(self), option_id, payment)
                            && *final(vault) == *old(vault),
                    }
                },
            },
    {
        match msg {
            CallInstrumentExecuteMsg::MintWithNFT { nft_addr, nft_id, strike, expiration } => {
                match self.mint_with_nft(
                    vault,
                    now,
                    caller,
                    nft_addr,
                    nft_id,
                    strike,
                    expiration,
                    nft_facts.owner.clone(),
                    &nft_facts.operators,
                    &nft_facts.approvals,
                ) {
                    Ok(resp) => Ok(
                        ExecuteResponse::OptionMinted {
                            option_id: resp.option_id,
                            transfer: Some(resp.transfer),
                        },
                    ),
                    Err(e) => Err(e),
                }
            },
            CallInstrumentExecuteMsg::MintWithVault { vault_addr: _, asset_id, strike, expiration } => {
                match self.mint_with_vault(vault, now, caller, asset_id, strike, expiration) {
                    Ok(id) => Ok(ExecuteResponse::OptionMinted { option_id: id, transfer: None }),
                    Err(e) => Err(e),
                }
            },
            CallInstrumentExecuteMsg::MintWithEntitledVault {
                vault_addr: _,
                asset_id,
                strike,
                expiration,
            } => {
                match self.mint_with_entitled_vault(vault, now, caller, asset_id, strike,
                    expiration) {
                    Ok(id) => Ok(ExecuteResponse::OptionMinted { option_id: id, transfer: None }),
                    Err(e) => Err(e),
                }
            },
            CallInstrumentExecuteMsg::Bid { option_id } => {
                match self.bid(vault, now, caller, funds, option_id) {
                    Ok(resp) => Ok(ExecuteResponse::BidAccepted(resp)),
                    Err(e) => Err(e),
                }
            },
            CallInstrumentExecuteMsg::ReclaimAsset { option_id, withdraw } => {
                match self.reclaim_asset(vault, now, caller, option_id, withdraw) {
                    Ok(resp) => Ok(ExecuteResponse::AssetReclaimed(resp)),
                    Err(e) => Err(e),
                }
            },
            CallInstrumentExecuteMsg::SettleOption { option_id } => {
                match self.settle_option(now, caller, option_id) {
                    Ok(resp) => Ok(ExecuteResponse::OptionSettled(resp)),
                    Err(e) => Err(e),
                }
            },
            CallInstrumentExecuteMsg::BurnExpiredOption { option_id } => {
                match self.burn_expired_option(now, option_id) {
                    Ok(()) => Ok(ExecuteResponse::OptionBurned),
                    Err(e) => Err(e),
                }
            },
            CallInstrumentExecuteMsg::ClaimOptionProceeds { option_id } => {
                match self.claim_option_proceeds(caller, option_id) {
                    Ok(payment) => Ok(ExecuteResponse::ProceedsClaimed(payment)),
                    Err(e) => Err(e),
                }
            },
        }
    }
}

/// The answer to an accepted bid: the refund owed to the previous bidder,
/// if any.
#[derive(Debug, Clone, PartialEq, Eq)]
pub struct BidResponse {
    /// The refund of the outbid escrow; when the previous bidder was the
    /// writer, the strike they never escrowed is excluded.
    pub refund: Option<Payment>,
}

/// The least amount an acceptable bid must reach over the current one:
/// the current bid plus `bips` basis points of it (denominator 10000).
pub open spec fn min_required_bid(current: u128, bips: u128) -> int {
    current + current * bips / 10000
}

/// The amount a tendered bid counts as: the writer is credited the strike
/// on top of the tendered amount.
pub open spec fn effective_bid(
    amount: u128,
    strike: u128,
    caller: Seq<char>,
    writer: Seq<char>,
) -> int {
    amount + if caller == writer {
        strike as int
    } else {
        0
    }
}

/// The refund owed to the outbid bidder of `c`, if any.
pub open spec fn spec_bid_refund(c: CallOption) -> Option<Payment> {
    match c.high_bidder {
        None => None,
        Some(b) => {
            let amount: int = if b@ == c.writer_addr@ {
                c.bid - c.strike
            } else {
                c.bid as int
            };
            if amount > 0 {
                Some(Payment { to: b, amount: amount as u128 })
            } else {
                None
            }
        },
    }
}

/// The first check that fails when bidding, if any: an allowed-currency
/// payment, a live, unsettled, unexpired option, overflow-free arithmetic,
/// the two bid floors, and the vault-side redirection.
pub open spec fn spec_bid_err(
    g: CallEngine,
    vault: Vault,
    now: u64,
    caller: String,
    funds: Seq<Coin>,
    id: OptionId,
) -> Option<ContractError> {
    match spec_find_allowed_coin(funds, g.config.allowed_denom@) {
        None => Some(ContractError::DenomNotAllowed),
        Some(coin) => {
            if !g.has_option(id) {
                Some(ContractError::OptionNotFound(id))
            } else {
                let c = g.opt(id);
                if c.settled {
                    Some(ContractError::OptionAlreadySettled(id))
                } else if now > c.expiration {
                    Some(ContractError::OptionIsExpired)
                } else {
                    let eff = effective_bid(coin.amount, c.strike, caller@, c.writer_addr@);
                    if eff > u128::MAX {
                        Some(ContractError::OverflowError)
                    } else if c.bid * g.config.min_bid_inc_bips > u128::MAX {
                        Some(ContractError::OverflowError)
                    } else if min_required_bid(c.bid, g.config.min_bid_inc_bips) > u128::MAX {
                        Some(ContractError::OverflowError)
                    } else if eff < min_required_bid(c.bid, g.config.min_bid_inc_bips) {
                        Some(ContractError::BidTooLow)
                    } else if eff < c.strike {
                        Some(ContractError::BidIsLowerStrikePrice)
                    } else {
                        match crate::vault::spec_redirect(vault, g.addr, c.asset_id, caller) {
                            Err(e) => Some(e),
                            Ok(_) => None,
                        }
                    }
                }
            }
        },
    }
}

/// The answer to a successful settlement.
#[derive(Debug, Clone, PartialEq, Eq)]
pub struct SettleResponse {
    /// The strike owed to the writer; absent when the writer is the
    /// winning bidder, who only escrowed the spread.
    pub strike_payment: Option<Payment>,
    /// The spread paid to the option holder, when the holder settled.
    pub spread_payment: Option<Payment>,
    /// Whether the spread was recorded as a pending claim instead.
    pub claimable: bool,
}

/// The answer to a successful reclaim: the custody release, when the
/// writer chose to withdraw.
#[derive(Debug, Clone, PartialEq, Eq)]
pub struct ReclaimResponse {
    /// The transfer releasing the asset to the writer, if requested.
    pub transfer: Option<AssetTransfer>,
}

/// The commands a call instrument executes.
#[derive(Debug, Clone, PartialEq, Eq)]
pub enum CallInstrumentExecuteMsg {
    /// Mint a new option for a freshly tendered token.
    MintWithNFT { nft_addr: String, nft_id: TokenId, strike: u128, expiration: u64 },
    /// Mint a new option over an asset already resting in a vault.
    MintWithVault { vault_addr: String, asset_id: AssetId, strike: u128, expiration: u64 },
    /// Mint a new option over an asset whose vault already carries a
    /// matching entitlement for this engine.
    MintWithEntitledVault { vault_addr: String, asset_id: AssetId, strike: u128, expiration: u64 },
    /// Bid in the settlement auction of an option.
    Bid { option_id: OptionId },
    /// Reclaim the underlying asset of an expired option with no bids.
    ReclaimAsset { option_id: OptionId, withdraw: bool },
    /// Settle an expired option that received a bid.
    SettleOption { option_id: OptionId },
    /// Burn the option token of an expired option with no bids.
    BurnExpiredOption { option_id: OptionId },
    /// Claim the pending proceeds of a settled option.
    ClaimOptionProceeds { option_id: OptionId },
}

/// The underlying registry's view of a tendered token, needed only to
/// mint against a fresh tender: the token's owner, the owner's operators,
/// and the addresses approved for the token.
#[derive(Debug, Clone, PartialEq, Eq)]
pub struct NftFacts {
    /// The token's current owner.
    pub owner: String,
    /// The operators the owner approved over all their tokens.
    pub operators: Vec<String>,
    /// The addresses approved for this one token.
    pub approvals: Vec<String>,
}

/// The answers to [`CallInstrumentExecuteMsg`], variant by variant.
#[derive(Debug, Clone, PartialEq, Eq)]
pub enum ExecuteResponse {
    /// A new option was minted; the transfer is present only when a fresh
    /// tender has to be moved into the vault.
    OptionMinted { option_id: OptionId, transfer: Option<AssetTransfer> },
    /// A bid was accepted.
    BidAccepted(BidResponse),
    /// The asset was reclaimed by the writer.
    AssetReclaimed(ReclaimResponse),
    /// The option was settled.
    OptionSettled(SettleResponse),
    /// The expired option's token was burned.
    OptionBurned,
    /// The pending proceeds were paid out.
    ProceedsClaimed(Payment),
}

/// The ledger after a successful mint: one more option, with no bid yet,
/// its token minted to the writer, no claim, and the index pointing at it.
pub open spec fn mint_effects(
    g0: CallEngine,
    g: CallEngine,
    writer: String,
    vault_addr: String,
    asset_id: String,
    strike: u128,
    expiration: u64,
    id: OptionId,
) -> bool {
    &&& id == g0.count + 1
    &&& g.count == id
    &&& g.options@ == g0.options@.push(
        CallOption {
            asset_id: asset_id,
            writer_addr: writer,
            expiration,
            vault_addr: vault_addr,
            strike,
            bid: 0,
            high_bidder: None::<String>,
            settled: false,
        },
    )
    &&& g.tokens@ == g0.tokens@.push(Some(writer))
    &&& g.claims@ == g0.claims@.push(None::<u128>)
    &&& g.opts_index() == g0.opts_index().insert((vault_addr@, asset_id@), id)
}

/// The engine and vault after an accepted bid: the refund of the outbid
/// escrow is reported, the record carries the effective bid and the new
/// bidder, everything else is unchanged, and the vault's beneficial owner
/// for the asset is redirected to the bidder.
pub open spec fn bid_effects(
    g0: CallEngine,
    v0: Vault,
    g: CallEngine,
    v: Vault,
    caller: String,
    funds: Seq<Coin>,
    id: OptionId,
    resp: BidResponse,
) -> bool {
    let c = g0.opt(id);
    let coin = spec_find_allowed_coin(funds, g0.config.allowed_denom@).unwrap();
    let eff = effective_bid(coin.amount, c.strike, caller@, c.writer_addr@);
    &&& resp == BidResponse { refund: spec_bid_refund(c) }
    &&& g.options@ == g0.options@.update(
        id - 1,
        CallOption { bid: eff as u128, high_bidder: Some(caller), ..c },
    )
    &&& g.count == g0.count
    &&& g.tokens@ == g0.tokens@
    &&& g.claims@ == g0.claims@
    &&& g.opts_index() == g0.opts_index()
    &&& ents_updated(
        v0,
        v,
        c.asset_id@,
        Entitlement {
            beneficial_owner: Some(caller),
            operator: v0.ents()[c.asset_id@].operator,
            expiry: v0.ents()[c.asset_id@].expiry,
        },
    )
}

/// The engine after a successful settlement: the record is settled; the
/// writer is owed the strike unless they won the auction themselves; when
/// the holder settled, they are paid the spread and the token is burned,
/// otherwise the spread becomes a pending claim.
pub open spec fn settle_effects(
    g0: CallEngine,
    g: CallEngine,
    caller: String,
    id: OptionId,
    resp: SettleResponse,
) -> bool {
    let c = g0.opt(id);
    let owner = g0.token_owner(id).unwrap();
    let spread = (c.bid - c.strike) as u128;
    let to_holder = caller@ == owner@;
    &&& resp == SettleResponse {
        strike_payment: if c.high_bidder.unwrap()@ != c.writer_addr@ {
            Some(Payment { to: c.writer_addr, amount: c.strike })
        } else {
            None
        },
        spread_payment: if to_holder {
            Some(Payment { to: owner, amount: spread })
        } else {
            None
        },
        claimable: !to_holder,
    }
    &&& g.options@ == g0.options@.update(id - 1, CallOption { settled: true, ..c })
    &&& g.tokens@ == if to_holder {
        g0.tokens@.update(id - 1, None::<String>)
    } else {
        g0.tokens@
    }
    &&& g.claims@ == if to_holder {
        g0.claims@
    } else {
        g0.claims@.update(id - 1, Some(spread))
    }
    &&& g.count == g0.count
    &&& g.opts_index() == g0.opts_index()
}

/// The engine and vault after a successful reclaim: the record is settled,
/// the token burned, the writer recorded again as beneficial owner with
/// the entitlement cleared, and custody released when requested.
pub open spec fn reclaim_effects(
    g0: CallEngine,
    v0: Vault,
    g: CallEngine,
    v: Vault,
    id: OptionId,
    withdraw: bool,
    resp: ReclaimResponse,
) -> bool {
    let c = g0.opt(id);
    &&& resp == ReclaimResponse {
        transfer: if withdraw {
            Some(
                AssetTransfer {
                    nft_addr: v0.nft_addr,
                    token_id: c.asset_id,
                    recipient: c.writer_addr,
                },
            )
        } else {
            None
        },
    }
    &&& g.options@ == g0.options@.update(id - 1, CallOption { settled: true, ..c })
    &&& g.tokens@ == g0.tokens@.update(id - 1, None::<String>)
    &&& g.claims@ == g0.claims@
    &&& g.count == g0.count
    &&& g.opts_index() == g0.opts_index()
    &&& v.ents() == v0.ents().insert(
        c.asset_id@,
        Entitlement {
            beneficial_owner: Some(c.writer_addr),
            operator: None::<String>,
            expiry: None::<u64>,
        },
    )
    &&& v.held() == if withdraw {
        v0.held().remove(c.asset_id@)
    } else {
        v0.held()
    }
    &&& v.approved() == v0.approved()
}

/// The engine after burning an expired option's token: only the token
/// entry changes.
pub open spec fn burn_effects(g0: CallEngine, g: CallEngine, id: OptionId) -> bool {
    &&& g.options@ == g0.options@
    &&& g.tokens@ == g0.tokens@.update(id - 1, None::<String>)
    &&& g.claims@ == g0.claims@
    &&& g.count == g0.count
    &&& g.opts_index() == g0.opts_index()
}

/// The engine after a successful claim: the claim is paid to the token's
/// owner, deleted, and the token burned.
pub open spec fn claim_effects(g0: CallEngine, g: CallEngine, id: OptionId, payment: Payment) -> bool {
    let owner = g0.token_owner(id).unwrap();
    let amount = g0.claim_of(id).unwrap();
    &&& payment == Payment { to: owner, amount }
    &&& g.options@ == g0.options@
    &&& g.tokens@ == g0.tokens@.update(id - 1, None::<String>)
    &&& g.claims@ == g0.claims@.update(id - 1, None::<u128>)
    &&& g.count == g0.count
    &&& g.opts_index() == g0.opts_index()
}

/// The first check that fails when settling, if any: a live option that is
/// not yet settled, won by someone, expired, with spread arithmetic in
/// range and its token still alive.
pub open spec fn spec_settle_err(g: CallEngine, now: u64, id: OptionId) -> Option<ContractError> {
    if !g.has_option(id) {
        Some(ContractError::OptionNotFound(id))
    } else {
        let c = g.opt(id);
        if c.settled {
            Some(ContractError::OptionAlreadySettled(id))
        } else if c.high_bidder is None {
            Some(ContractError::NoWinningBidder)
        } else if now < c.expiration {
            Some(ContractError::OptionNotExpired(id))
        } else if c.bid < c.strike {
            Some(ContractError::OverflowError)
        } else if g.token_owner(id) is None {
            Some(ContractError::OptionTokenBurned(id))
        } else {
            None
        }
    }
}

/// The first check that fails when reclaiming, if any: the writer calls,
/// the option is unsettled and expired, they still hold the token, nobody
/// ever bid, and the vault-side release goes through.
pub open spec fn spec_reclaim_err(
    g: CallEngine,
    vault: Vault,
    now: u64,
    caller: String,
    id: OptionId,
    withdraw: bool,
) -> Option<ContractError> {
    if !g.has_option(id) {
        Some(ContractError::OptionNotFound(id))
    } else {
        let c = g.opt(id);
        if c.writer_addr@ != caller@ {
            Some(ContractError::Unauthorized)
        } else if c.settled {
            Some(ContractError::OptionAlreadySettled(id))
        } else if g.token_owner(id) is None {
            Some(ContractError::OptionTokenBurned(id))
        } else if g.token_owner(id).unwrap()@ != c.writer_addr@ {
            Some(ContractError::WriterMustOwnOption)
        } else if now < c.expiration {
            Some(ContractError::OptionNotExpired(id))
        } else if c.high_bidder is Some {
            Some(ContractError::OptionHasBids)
        } else {
            match crate::vault::spec_settle_release(vault, g.addr, c.asset_id, c.writer_addr,
                withdraw) {
                Err(e) => Some(e),
                Ok(_) => None,
            }
        }
    }
}

/// The first check that fails when burning an expired option's token, if
/// any: a live option with no bid, expired, unsettled, token still alive.
pub open spec fn spec_burn_err(g: CallEngine, now: u64, id: OptionId) -> Option<ContractError> {
    if !g.has_option(id) {
        Some(ContractError::OptionNotFound(id))
    } else {
        let c = g.opt(id);
        if c.high_bidder is Some {
            Some(ContractError::OptionHasBids)
        } else if now < c.expiration {
            Some(ContractError::OptionNotExpired(id))
        } else if c.settled {
            Some(ContractError::OptionAlreadySettled(id))
        } else if g.token_owner(id) is None {
            Some(ContractError::OptionTokenBurned(id))
        } else {
            None
        }
    }
}

/// The first check that fails when claiming proceeds, if any: a live
/// option whose token the caller owns, with a nonzero pending claim.
pub open spec fn spec_claim_err(g: CallEngine, caller: String, id: OptionId) -> Option<
    ContractError,
> {
    if !g.has_option(id) {
        Some(ContractError::OptionNotFound(id))
    } else if g.token_owner(id) is None {
        Some(ContractError::OptionTokenBurned(id))
    } else if g.token_owner(id).unwrap()@ != caller@ {
        Some(ContractError::OnlyOptionOwner)
    } else if g.claim_of(id) is None || g.claim_of(id) == Some(0u128) {
        Some(ContractError::ClaimNotFound(id))
    } else {
        None
    }
}

/// The first mint precondition that fails, if any: expiration distance,
/// prior-option settlement, id availability.
pub open spec fn spec_mint_err(
    g: CallEngine,
    now: u64,
    vault_addr: Seq<char>,
    asset_id: Seq<char>,
    expiration: u64,
) -> Option<ContractError> {
    let k = (vault_addr, asset_id);
    if expiration <= now + g.config.minimum_option_duration {
        Some(ContractError::ExpiresTooSoon)
    } else if g.opts_index().contains_key(k) && !g.opt(g.opts_index()[k]).settled {
        Some(ContractError::PriorOptionNotSettled(g.opts_index()[k]))
    } else if g.count == u64::MAX {
        Some(ContractError::OverflowError)
    } else {
        None
    }
}

/// The first check that fails when minting over a vaulted asset, if any.
pub open spec fn spec_mint_with_vault_err(
    g: CallEngine,
    vault: Vault,
    now: u64,
    caller: Seq<char>,
    asset_id: String,
    expiration: u64,
) -> Option<ContractError> {
    let a = asset_id@;
    if vault.nft_addr@ != g.config.allowed_underlying_nft@ {
        Some(ContractError::NftNotAllowed)
    } else if !vault.held().contains(a) {
        Some(ContractError::AssetNotInVault)
    } else if !vault.ents().contains_key(a) {
        Some(ContractError::AssetNotFound(asset_id))
    } else if !is_owner_or_operator(vault, a, caller) {
        Some(ContractError::Unauthorized)
    } else if vault.ents()[a].beneficial_owner is None {
        Some(ContractError::BeneficialOwnerNotSet)
    } else {
        match spec_mint_err(g, now, vault.addr@, a, expiration) {
            Some(e) => Some(e),
            None => match spec_impose(vault, now, asset_id, g.addr, expiration) {
                Err(e) => Some(e),
                Ok(_) => None,
            },
        }
    }
}

/// The first check that fails when minting over an already entitled vault,
/// if any.
pub open spec fn spec_mint_with_entitled_vault_err(
    g: CallEngine,
    vault: Vault,
    now: u64,
    caller: Seq<char>,
    asset_id: String,
    expiration: u64,
) -> Option<ContractError> {
    let a = asset_id@;
    if vault.nft_addr@ != g.config.allowed_underlying_nft@ {
        Some(ContractError::NftNotAllowed)
    } else if !vault.held().contains(a) {
        Some(ContractError::AssetNotInVault)
    } else if !vault.ents().contains_key(a) {
        Some(ContractError::AssetNotFound(asset_id))
    } else if !(active_at(vault.ents()[a], now) && operator_is(vault.ents()[a], g.addr@)) {
        Some(ContractError::EngineNotOperator)
    } else if vault.ents()[a].expiry != Some(expiration) {
        Some(ContractError::EntitlementExpirationMismatch)
    } else if !is_owner_or_operator(vault, a, caller) {
        Some(ContractError::Unauthorized)
    } else if vault.ents()[a].beneficial_owner is None {
        Some(ContractError::BeneficialOwnerNotSet)
    } else {
        spec_mint_err(g, now, vault.addr@, a, expiration)
    }
}

/// The first check that fails when minting against a freshly tendered
/// token, if any.
pub open spec fn spec_mint_with_nft_err(
    g: CallEngine,
    vault: Vault,
    now: u64,
    caller: Seq<char>,
    nft: String,
    nft_id: String,
    expiration: u64,
    owner: Seq<char>,
    operators: Seq<String>,
    approvals: Seq<String>,
) -> Option<ContractError> {
    if nft@ != g.config.allowed_underlying_nft@ {
        Some(ContractError::NftNotAllowed)
    } else if !(owner == caller || contains_str(operators, caller) || contains_str(
        approvals,
        caller,
    )) {
        Some(ContractError::Unauthorized)
    } else if !(contains_str(operators, g.addr@) || contains_str(approvals, g.addr@)) {
        Some(ContractError::EngineNotOperator)
    } else {
        match spec_mint_err(g, now, vault.addr@, nft_id@, expiration) {
            Some(e) => Some(e),
            None => {
                if nft@ != vault.nft_addr@ {
                    Some(ContractError::InvalidNft)
                } else if expiration <= now {
                    Some(ContractError::InvalidExpiry)
                } else {
                    None
                }
            },
        }
    }
}

} // verus!
