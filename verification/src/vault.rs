//! The vault / entitlement engine.
//!
//! A vault custodies underlying assets and tracks, per asset, a beneficial
//! owner together with an optional time-bounded exclusive entitlement: while
//! an entitlement is active, only its operator may redirect the asset's
//! beneficial owner, and the asset cannot be withdrawn.  An entitlement is
//! active exactly when its operator is set and its expiry lies strictly in
//! the future.

use vstd::prelude::*;

use crate::errors::ContractError;
use crate::repo::Repo;
use crate::types::{opt_str_dup, opt_str_is, AssetId, AssetTransfer, TokenId};

verus! {

/// The entitlement state of one asset resting in a vault.
#[derive(Debug, Clone, PartialEq, Eq)]
pub struct Entitlement {
    /// The principal that can claim the asset once it is free of
    /// entitlements.
    pub beneficial_owner: Option<String>,
    /// The operator that may redirect ownership during the entitlement
    /// period.
    pub operator: Option<String>,
    /// The timestamp after which the asset is free of the entitlement.
    pub expiry: Option<u64>,
}

/// An entitlement to register together with a deposited asset.
#[derive(Debug, Clone, PartialEq, Eq)]
pub struct SetEntitlement {
    /// The beneficial owner of the deposited asset.
    pub beneficial_owner: String,
    /// The operator entitled to the asset until `expiry`.
    pub entitled_operator: String,
    /// An address approved to grant entitlements besides the owner.
    pub approved_operator: Option<String>,
    /// When the entitlement lapses.
    pub expiry: u64,
}

/// The answer to an entitlement-operator lookup.
#[derive(Debug, Clone, PartialEq, Eq)]
pub struct CurrentEntitlementOperatorResponse {
    /// Whether the entitlement is currently active.
    pub is_active: bool,
    /// The recorded operator, active or not.
    pub operator: Option<String>,
}

/// Whether `e` is an active entitlement at time `now`: an operator is set
/// and the expiry lies strictly in the future.
pub open spec fn active_at(e: Entitlement, now: u64) -> bool {
    &&& e.operator is Some
    &&& e.expiry matches Some(x) && now < x
}

/// Whether `e` records `who` as its operator.
pub open spec fn operator_is(e: Entitlement, who: Seq<char>) -> bool {
    e.operator matches Some(op) && op@ == who
}

/// The record obtained by updating a stored entitlement with the set fields
/// of `e`, keeping the unset ones; a missing record is created as `e`.
pub open spec fn merged_entitlement(
    m: Map<Seq<char>, Entitlement>,
    a: Seq<char>,
    e: Entitlement,
) -> Entitlement {
    if m.contains_key(a) {
        Entitlement {
            beneficial_owner: if e.beneficial_owner is Some {
                e.beneficial_owner
            } else {
                m[a].beneficial_owner
            },
            operator: if e.operator is Some {
                e.operator
            } else {
                m[a].operator
            },
            expiry: if e.expiry is Some {
                e.expiry
            } else {
                m[a].expiry
            },
        }
    } else {
        e
    }
}

impl Entitlement {
    /// A copy of the record.
    pub fn dup(&self) -> (r: Entitlement)
        ensures
            r == *self,
    {
        Entitlement {
            beneficial_owner: opt_str_dup(&self.beneficial_owner),
            operator: opt_str_dup(&self.operator),
            expiry: self.expiry,
        }
    }

    /// Whether the entitlement is active at time `now`.
    pub fn is_active(&self, now: u64) -> (r: bool)
        ensures
            r == active_at(*self, now),
    {
        match (&self.operator, &self.expiry) {
            (Some(_), Some(x)) => now < *x,
            _ => false,
        }
    }
}

/// A custodial vault for the assets of one token registry.
pub struct Vault {
    /// The vault's own account address.
    pub addr: String,
    /// The token registry whose assets this vault covers.
    pub nft_addr: String,
    /// For a solo vault, the single covered token; `None` for a multi vault.
    pub nft_id: Option<TokenId>,
    /// The main protocol contract address.
    pub protocol_addr: String,
    /// Entitlement records per asset.
    pub assets: Repo<String, Entitlement>,
    /// The assets currently custodied here.
    pub custody: Repo<String, bool>,
    /// Approved addresses per asset.
    pub approvals: Repo<String, String>,
}

impl Vault {
    /// The repositories are well formed.
    pub open spec fn wf(&self) -> bool {
        &&& self.assets.wf()
        &&& self.custody.wf()
        &&& self.approvals.wf()
    }

    /// The entitlement records, per asset.
    pub open spec fn ents(&self) -> Map<Seq<char>, Entitlement> {
        self.assets.to_map()
    }

    /// The assets the vault currently custodies.
    pub open spec fn held(&self) -> Set<Seq<char>> {
        self.custody.to_map().dom()
    }

    /// The approved addresses, per asset.
    pub open spec fn approved(&self) -> Map<Seq<char>, String> {
        self.approvals.to_map()
    }

    /// The identity and configuration fields agree.
    pub open spec fn same_profile(&self, other: &Vault) -> bool {
        &&& self.addr == other.addr
        &&& self.nft_addr == other.nft_addr
        &&& self.nft_id == other.nft_id
        &&& self.protocol_addr == other.protocol_addr
    }

    /// An empty vault.
    pub fn new(addr: String, nft_addr: String, nft_id: Option<TokenId>, protocol_addr: String) -> (r:
        Vault)
        ensures
            r.wf(),
            r.addr == addr,
            r.nft_addr == nft_addr,
            r.nft_id == nft_id,
            r.protocol_addr == protocol_addr,
            r.ents() == Map::<Seq<char>, Entitlement>::empty(),
            r.held() == Set::<Seq<char>>::empty(),
            r.approved() == Map::<Seq<char>, String>::empty(),
    {
        let r = Vault {
            addr,
            nft_addr,
            nft_id,
            protocol_addr,
            assets: Repo::new(),
            custody: Repo::new(),
            approvals: Repo::new(),
        };
        proof {
            assert(r.held() =~= Set::<Seq<char>>::empty());
        }
        r
    }

    /// Updates the stored record for `asset_id` with the set fields of `e`,
    /// or creates it as `e` when none exists.
    pub fn update_or_create_entitlement(&mut self, asset_id: &AssetId, e: Entitlement)
        requires
            old(self).wf(),
        ensures
            final(self).wf(),
            final(self).same_profile(old(self)),
            final(self).ents() == old(self).ents().insert(
                asset_id@,
                merged_entitlement(old(self).ents(), asset_id@, e),
            ),
            final(self).held() == old(self).held(),
            final(self).approved() == old(self).approved(),
    {
        let merged = match self.assets.get(asset_id) {
            Some(prev) => Entitlement {
                beneficial_owner: if e.beneficial_owner.is_some() {
                    e.beneficial_owner
                } else {
                    opt_str_dup(&prev.beneficial_owner)
                },
                operator: if e.operator.is_some() {
                    e.operator
                } else {
                    opt_str_dup(&prev.operator)
                },
                expiry: if e.expiry.is_some() {
                    e.expiry
                } else {
                    prev.expiry
                },
            },
            None => e,
        };
        self.assets.set(asset_id.clone(), merged);
    }

    /// Accepts a deposited token, recording its beneficial owner and, when
    /// an entitlement instruction accompanies the deposit, the entitlement.
    pub fn receive_cw721(
        &mut self,
        now: u64,
        registry: &String,
        sender: String,
        token_id: TokenId,
        instruction: Option<SetEntitlement>,
    ) -> (r: Result<(), ContractError>)
        requires
            old(self).wf(),
        ensures
            final(self).wf(),
            final(self).same_profile(old(self)),
            match spec_receive(*old(self), now, *registry, sender, token_id, instruction) {
                Err(e) => r == Err::<(), ContractError>(e) && *final(self) == *old(self),
                Ok(ent) => {
                    &&& r is Ok
                    &&& final(self).ents() == old(self).ents().insert(token_id@, ent)
                    &&& final(self).held() == old(self).held().insert(token_id@)
                    &&& final(self).approved() == spec_received_approvals(
                        *old(self),
                        token_id@,
                        instruction,
                    )
                },
            },
    {
        if !(*registry == self.nft_addr) {
            return Err(ContractError::InvalidNft);
        }
        match instruction {
            None => {
                self.update_or_create_entitlement(
                    &token_id,
                    Entitlement { beneficial_owner: Some(sender), operator: None, expiry: None },
                );
            },
            Some(se) => {
                if se.expiry <= now {
                    return Err(ContractError::InvalidExpiry);
                }
                match se.approved_operator {
                    Some(ap) => {
                        self.approvals.set(token_id.clone(), ap);
                    },
                    None => {},
                }
                self.assets.set(
                    token_id.clone(),
                    Entitlement {
                        beneficial_owner: Some(se.beneficial_owner),
                        operator: Some(se.entitled_operator),
                        expiry: Some(se.expiry),
                    },
                );
            },
        }
        self.custody.set(token_id, true);
        Ok(())
    }

    /// Adds an entitlement claim to an asset held in the vault, replacing a
    /// lapsed entitlement with the new operator.
    pub fn impose_entitlement(
        &mut self,
        now: u64,
        asset_id: &AssetId,
        operator: String,
        expiry: u64,
    ) -> (r: Result<(), ContractError>)
        requires
            old(self).wf(),
        ensures
            final(self).wf(),
            final(self).same_profile(old(self)),
            final(self).held() == old(self).held(),
            final(self).approved() == old(self).approved(),
            match spec_impose(*old(self), now, *asset_id, operator, expiry) {
                Err(e) => r == Err::<(), ContractError>(e) && *final(self) == *old(self),
                Ok(ent) => r is Ok && final(self).ents() == old(self).ents().insert(
                    asset_id@,
                    ent,
                ),
            },
    {
        let e = match self.assets.get(asset_id) {
            None => {
                return Err(ContractError::AssetNotFound(asset_id.clone()));
            },
            Some(e) => e.dup(),
        };
        if e.beneficial_owner.is_none() {
            return Err(ContractError::BeneficialOwnerNotSet);
        }
        if e.is_active(now) {
            return Err(ContractError::HasActiveEntitlement);
        }
        if expiry <= now {
            return Err(ContractError::InvalidExpiry);
        }
        self.assets.set(
            asset_id.clone(),
            Entitlement {
                beneficial_owner: e.beneficial_owner,
                operator: Some(operator),
                expiry: Some(expiry),
            },
        );
        Ok(())
    }

    /// Lets the beneficial owner, or a recorded approved address, grant an
    /// entitlement over an asset held in the vault.
    pub fn grant_entitlement(
        &mut self,
        now: u64,
        sender: &String,
        asset_id: &AssetId,
        beneficial_owner: String,
        operator: String,
        expiry: u64,
    ) -> (r: Result<(), ContractError>)
        requires
            old(self).wf(),
        ensures
            final(self).wf(),
            final(self).same_profile(old(self)),
            final(self).held() == old(self).held(),
            final(self).approved() == old(self).approved(),
            match spec_grant(
                *old(self),
                now,
                *sender,
                *asset_id,
                beneficial_owner,
                operator,
                expiry,
            ) {
                Err(e) => r == Err::<(), ContractError>(e) && *final(self) == *old(self),
                Ok(ent) => r is Ok && final(self).ents() == old(self).ents().insert(
                    asset_id@,
                    ent,
                ),
            },
    {
        let e = match self.assets.get(asset_id) {
            None => {
                return Err(ContractError::AssetNotFound(asset_id.clone()));
            },
            Some(e) => e.dup(),
        };
        let owner_sent = match &e.beneficial_owner {
            Some(bo) => *bo == *sender,
            None => true,
        };
        if !owner_sent {
            let approved_sent = match self.approvals.get(asset_id) {
                Some(ap) => *ap == *sender,
                None => false,
            };
            if !approved_sent {
                return Err(ContractError::OnlyBeneficialOwnerOrOperator);
            }
        }
        if e.is_active(now) {
            return Err(ContractError::HasActiveEntitlement);
        }
        if expiry <= now {
            return Err(ContractError::InvalidExpiry);
        }
        self.assets.set(
            asset_id.clone(),
            Entitlement {
                beneficial_owner: Some(beneficial_owner),
                operator: Some(operator),
                expiry: Some(expiry),
            },
        );
        Ok(())
    }

    /// Withdraws an unencumbered asset to its beneficial owner and removes
    /// its record.
    pub fn withdrawal_asset(&mut self, now: u64, sender: &String, asset_id: &AssetId) -> (r: Result<
        AssetTransfer,
        ContractError,
    >)
        requires
            old(self).wf(),
        ensures
            final(self).wf(),
            final(self).same_profile(old(self)),
            final(self).approved() == old(self).approved(),
            match spec_withdraw(*old(self), now, *sender, *asset_id) {
                Err(e) => r == Err::<AssetTransfer, ContractError>(e) && *final(self) == *old(self),
                Ok(t) => {
                    &&& r == Ok::<AssetTransfer, ContractError>(t)
                    &&& final(self).ents() == old(self).ents().remove(asset_id@)
                    &&& final(self).held() == old(self).held().remove(asset_id@)
                },
            },
    {
        let e = match self.assets.get(asset_id) {
            None => {
                return Err(ContractError::AssetNotFound(asset_id.clone()));
            },
            Some(e) => e.dup(),
        };
        let owner = match &e.beneficial_owner {
            None => {
                return Err(ContractError::Unauthorized);
            },
            Some(bo) => bo.clone(),
        };
        if !(owner == *sender) {
            return Err(ContractError::Unauthorized);
        }
        if e.is_active(now) {
            return Err(ContractError::WithdrawalFailed);
        }
        if !self.custody.contains(asset_id) {
            return Err(ContractError::AssetNotHeld(asset_id.clone()));
        }
        self.assets.remove(asset_id);
        self.custody.remove(asset_id);
        Ok(
            AssetTransfer {
                nft_addr: self.nft_addr.clone(),
                token_id: asset_id.clone(),
                recipient: owner,
            },
        )
    }

    /// Updates the principal that can claim the asset once it is free of
    /// entitlements: the active entitlement's operator may redirect it,
    /// otherwise only the current beneficial owner may.
    pub fn set_beneficial_owner(
        &mut self,
        now: u64,
        sender: &String,
        asset_id: &AssetId,
        new_beneficial_owner: String,
    ) -> (r: Result<(), ContractError>)
        requires
            old(self).wf(),
        ensures
            final(self).wf(),
            final(self).same_profile(old(self)),
            final(self).held() == old(self).held(),
            final(self).approved() == old(self).approved(),
            match spec_set_beneficial_owner(
                *old(self),
                now,
                *sender,
                *asset_id,
                new_beneficial_owner,
            ) {
                Err(e) => r == Err::<(), ContractError>(e) && *final(self) == *old(self),
                Ok(ent) => r is Ok && final(self).ents() == old(self).ents().insert(
                    asset_id@,
                    ent,
                ),
            },
    {
        let e = match self.assets.get(asset_id) {
            None => {
                return Err(ContractError::AssetNotFound(asset_id.clone()));
            },
            Some(e) => e.dup(),
        };
        if e.is_active(now) {
            if !opt_str_is(&e.operator, sender) {
                return Err(ContractError::Unauthorized);
            }
        } else {
            if !opt_str_is(&e.beneficial_owner, sender) {
                return Err(ContractError::Unauthorized);
            }
        }
        self.assets.set(
            asset_id.clone(),
            Entitlement {
                beneficial_owner: Some(new_beneficial_owner),
                operator: e.operator,
                expiry: e.expiry,
            },
        );
        Ok(())
    }

    /// Lets the active entitlement's operator release its claim, keeping the
    /// beneficial owner.
    pub fn clear_entitlement(&mut self, now: u64, sender: &String, asset_id: &AssetId) -> (r:
        Result<(), ContractError>)
        requires
            old(self).wf(),
        ensures
            final(self).wf(),
            final(self).same_profile(old(self)),
            final(self).held() == old(self).held(),
            final(self).approved() == old(self).approved(),
            match spec_clear(*old(self), now, *sender, *asset_id) {
                Err(e) => r == Err::<(), ContractError>(e) && *final(self) == *old(self),
                Ok(ent) => r is Ok && final(self).ents() == old(self).ents().insert(
                    asset_id@,
                    ent,
                ),
            },
    {
        let e = match self.assets.get(asset_id) {
            None => {
                return Err(ContractError::AssetNotFound(asset_id.clone()));
            },
            Some(e) => e.dup(),
        };
        if !e.is_active(now) {
            return Err(ContractError::NoActiveEntitlement);
        }
        if !opt_str_is(&e.operator, sender) {
            return Err(ContractError::Unauthorized);
        }
        self.assets.set(
            asset_id.clone(),
            Entitlement { beneficial_owner: e.beneficial_owner, operator: None, expiry: None },
        );
        Ok(())
    }

    /// Clears the active entitlement and transfers custody of the asset to
    /// the receiver, who must be the beneficial owner.
    pub fn clear_entitlement_and_distribute(
        &mut self,
        now: u64,
        sender: &String,
        asset_id: &AssetId,
        receiver: &String,
    ) -> (r: Result<AssetTransfer, ContractError>)
        requires
            old(self).wf(),
        ensures
            final(self).wf(),
            final(self).same_profile(old(self)),
            final(self).approved() == old(self).approved(),
            match spec_distribute(*old(self), now, *sender, *asset_id, *receiver) {
                Err(e) => r == Err::<AssetTransfer, ContractError>(e) && *final(self) == *old(self),
                Ok(t) => {
                    &&& r == Ok::<AssetTransfer, ContractError>(t)
                    &&& final(self).ents() == old(self).ents().insert(
                        asset_id@,
                        Entitlement {
                            beneficial_owner: old(self).ents()[asset_id@].beneficial_owner,
                            operator: None,
                            expiry: None,
                        },
                    )
                    &&& final(self).held() == old(self).held().remove(asset_id@)
                },
            },
    {
        let e = match self.assets.get(asset_id) {
            None => {
                return Err(ContractError::AssetNotFound(asset_id.clone()));
            },
            Some(e) => e.dup(),
        };
        if !opt_str_is(&e.beneficial_owner, receiver) {
            return Err(ContractError::Unauthorized);
        }
        if !e.is_active(now) {
            return Err(ContractError::NoActiveEntitlement);
        }
        if !opt_str_is(&e.operator, sender) {
            return Err(ContractError::Unauthorized);
        }
        if !self.custody.contains(asset_id) {
            return Err(ContractError::AssetNotHeld(asset_id.clone()));
        }
        self.assets.set(
            asset_id.clone(),
            Entitlement { beneficial_owner: e.beneficial_owner, operator: None, expiry: None },
        );
        self.custody.remove(asset_id);
        Ok(
            AssetTransfer {
                nft_addr: self.nft_addr.clone(),
                token_id: asset_id.clone(),
                recipient: receiver.clone(),
            },
        )
    }

    /// Redirects the beneficial owner under the entitlement held by the
    /// settlement engine.  The engine is the recorded operator for the whole
    /// life of the option; its accepted bid at the expiration instant may
    /// arrive when the entitlement has just lapsed, so unlike
    /// `set_beneficial_owner` this checks the recorded operator, not the
    /// activity window.
    pub(crate) fn redirect_owner(
        &mut self,
        operator: &String,
        asset_id: &AssetId,
        new_owner: String,
    ) -> (r: Result<(), ContractError>)
        requires
            old(self).wf(),
        ensures
            final(self).wf(),
            final(self).same_profile(old(self)),
            final(self).held() == old(self).held(),
            final(self).approved() == old(self).approved(),
            match spec_redirect(*old(self), *operator, *asset_id, new_owner) {
                Err(e) => r == Err::<(), ContractError>(e) && *final(self) == *old(self),
                Ok(ent) => r is Ok && final(self).ents() == old(self).ents().insert(
                    asset_id@,
                    ent,
                ),
            },
    {
        let e = match self.assets.get(asset_id) {
            None => {
                return Err(ContractError::AssetNotFound(asset_id.clone()));
            },
            Some(e) => e.dup(),
        };
        if !opt_str_is(&e.operator, operator) {
            return Err(ContractError::Unauthorized);
        }
        self.assets.set(
            asset_id.clone(),
            Entitlement {
                beneficial_owner: Some(new_owner),
                operator: e.operator,
                expiry: e.expiry,
            },
        );
        Ok(())
    }

    /// Settles the asset back to `owner` under the entitlement held by the
    /// settlement engine: records `owner` as beneficial owner, clears the
    /// entitlement, and when `withdraw` is set also releases custody to
    /// them.  As with `redirect_owner`, settlement runs after the
    /// entitlement's expiry, so only the recorded operator is checked.
    pub(crate) fn settle_release(
        &mut self,
        operator: &String,
        asset_id: &AssetId,
        owner: String,
        withdraw: bool,
    ) -> (r: Result<Option<AssetTransfer>, ContractError>)
        requires
            old(self).wf(),
        ensures
            final(self).wf(),
            final(self).same_profile(old(self)),
            final(self).approved() == old(self).approved(),
            match spec_settle_release(*old(self), *operator, *asset_id, owner, withdraw) {
                Err(e) => r == Err::<Option<AssetTransfer>, ContractError>(e) && *final(self)
                    == *old(self),
                Ok(t) => {
                    &&& r == Ok::<Option<AssetTransfer>, ContractError>(t)
                    &&& final(self).ents() == old(self).ents().insert(
                        asset_id@,
                        Entitlement { beneficial_owner: Some(owner), operator: None, expiry: None },
                    )
                    &&& final(self).held() == if withdraw {
                        old(self).held().remove(asset_id@)
                    } else {
                        old(self).held()
                    }
                },
            },
    {
        let e = match self.assets.get(asset_id) {
            None => {
                return Err(ContractError::AssetNotFound(asset_id.clone()));
            },
            Some(e) => e.dup(),
        };
        if !opt_str_is(&e.operator, operator) {
            return Err(ContractError::Unauthorized);
        }
        if withdraw && !self.custody.contains(asset_id) {
            return Err(ContractError::AssetNotHeld(asset_id.clone()));
        }
        let transfer = if withdraw {
            Some(
                AssetTransfer {
                    nft_addr: self.nft_addr.clone(),
                    token_id: asset_id.clone(),
                    recipient: owner.clone(),
                },
            )
        } else {
            None
        };
        self.assets.set(
            asset_id.clone(),
            Entitlement { beneficial_owner: Some(owner), operator: None, expiry: None },
        );
        if withdraw {
            self.custody.remove(asset_id);
        }
        Ok(transfer)
    }

    /// Looks up the current beneficial owner of an asset.
    pub fn beneficial_owner(&self, asset_id: &AssetId) -> (r: Result<Option<String>, ContractError>)
        requires
            self.wf(),
        ensures
            match r {
                Ok(o) => self.ents().contains_key(asset_id@) && o == self.ents()[
                    asset_id@
                ].beneficial_owner,
                Err(e) => !self.ents().contains_key(asset_id@) && e
                    == ContractError::AssetNotFound(*asset_id),
            },
    {
        match self.assets.get(asset_id) {
            None => Err(ContractError::AssetNotFound(asset_id.clone())),
            Some(e) => Ok(opt_str_dup(&e.beneficial_owner)),
        }
    }

    /// Whether the asset is currently custodied by this vault.
    pub fn holds_asset(&self, asset_id: &AssetId) -> (r: bool)
        requires
            self.wf(),
        ensures
            r == self.held().contains(asset_id@),
    {
        self.custody.contains(asset_id)
    }

    /// The token registry whose assets this vault covers.
    pub fn asset_address(&self) -> (r: &String)
        ensures
            r == self.nft_addr,
    {
        &self.nft_addr
    }

    /// The recorded approved address for an asset, if any.
    pub fn approved_operator(&self, asset_id: &AssetId) -> (r: Option<String>)
        requires
            self.wf(),
        ensures
            match r {
                Some(ap) => self.approved().contains_key(asset_id@) && ap == self.approved()[
                    asset_id@
                ],
                None => !self.approved().contains_key(asset_id@),
            },
    {
        match self.approvals.get(asset_id) {
            None => None,
            Some(ap) => Some(ap.clone()),
        }
    }

    /// The expiry of the asset's entitlement, if one is currently active.
    pub fn entitlement_expiration(&self, now: u64, asset_id: &AssetId) -> (r: Result<
        Option<u64>,
        ContractError,
    >)
        requires
            self.wf(),
        ensures
            match r {
                Ok(o) => {
                    &&& self.ents().contains_key(asset_id@)
                    &&& o == if active_at(self.ents()[asset_id@], now) {
                        self.ents()[asset_id@].expiry
                    } else {
                        None::<u64>
                    }
                },
                Err(e) => !self.ents().contains_key(asset_id@) && e
                    == ContractError::AssetNotFound(*asset_id),
            },
    {
        match self.assets.get(asset_id) {
            None => Err(ContractError::AssetNotFound(asset_id.clone())),
            Some(e) => {
                if e.is_active(now) {
                    Ok(e.expiry)
                } else {
                    Ok(None)
                }
            },
        }
    }

    /// The recorded entitlement operator of an asset, with its activity.
    pub fn current_entitlement_operator(&self, now: u64, asset_id: &AssetId) -> (r: Result<
        CurrentEntitlementOperatorResponse,
        ContractError,
    >)
        requires
            self.wf(),
        ensures
            match r {
                Ok(resp) => {
                    &&& self.ents().contains_key(asset_id@)
                    &&& resp.is_active == active_at(self.ents()[asset_id@], now)
                    &&& resp.operator == self.ents()[asset_id@].operator
                },
                Err(e) => !self.ents().contains_key(asset_id@) && e
                    == ContractError::AssetNotFound(*asset_id),
            },
    {
        match self.assets.get(asset_id) {
            None => Err(ContractError::AssetNotFound(asset_id.clone())),
            Some(e) => {
                let is_active = e.is_active(now);
                Ok(
                    CurrentEntitlementOperatorResponse {
                        is_active,
                        operator: opt_str_dup(&e.operator),
                    },
                )
            },
        }
    }
}

/// The outcome of accepting a deposit: the record written under the token,
/// or the error rejecting it.
pub open spec fn spec_receive(
    v: Vault,
    now: u64,
    registry: String,
    sender: String,
    token_id: String,
    instruction: Option<SetEntitlement>,
) -> Result<Entitlement, ContractError> {
    if registry@ != v.nft_addr@ {
        Err(ContractError::InvalidNft)
    } else {
        match instruction {
            None => Ok(
                merged_entitlement(
                    v.ents(),
                    token_id@,
                    Entitlement { beneficial_owner: Some(sender), operator: None, expiry: None },
                ),
            ),
            Some(se) => {
                if se.expiry <= now {
                    Err(ContractError::InvalidExpiry)
                } else {
                    Ok(
                        Entitlement {
                            beneficial_owner: Some(se.beneficial_owner),
                            operator: Some(se.entitled_operator),
                            expiry: Some(se.expiry),
                        },
                    )
                }
            },
        }
    }
}

/// The approvals map after a deposit carrying `instruction`.
pub open spec fn spec_received_approvals(
    v: Vault,
    token: Seq<char>,
    instruction: Option<SetEntitlement>,
) -> Map<Seq<char>, String> {
    match instruction {
        Some(se) => match se.approved_operator {
            Some(ap) => v.approved().insert(token, ap),
            None => v.approved(),
        },
        None => v.approved(),
    }
}

/// The outcome of imposing an entitlement: the record to write, or the
/// error rejecting the request.
pub open spec fn spec_impose(
    v: Vault,
    now: u64,
    asset_id: String,
    operator: String,
    expiry: u64,
) -> Result<Entitlement, ContractError> {
    let a = asset_id@;
    if !v.ents().contains_key(a) {
        Err(ContractError::AssetNotFound(asset_id))
    } else if v.ents()[a].beneficial_owner is None {
        Err(ContractError::BeneficialOwnerNotSet)
    } else if active_at(v.ents()[a], now) {
        Err(ContractError::HasActiveEntitlement)
    } else if expiry <= now {
        Err(ContractError::InvalidExpiry)
    } else {
        Ok(
            Entitlement {
                beneficial_owner: v.ents()[a].beneficial_owner,
                operator: Some(operator),
                expiry: Some(expiry),
            },
        )
    }
}

/// Whether `sender` may grant an entitlement over the asset: the beneficial
/// owner always may; anyone else only when recorded as approved address.
pub open spec fn may_grant(v: Vault, a: Seq<char>, sender: Seq<char>) -> bool {
    ||| (v.ents()[a].beneficial_owner matches Some(bo) ==> bo@ == sender)
    ||| (v.approved().contains_key(a) && v.approved()[a]@ == sender)
}

/// The outcome of granting an entitlement.
pub open spec fn spec_grant(
    v: Vault,
    now: u64,
    sender: String,
    asset_id: String,
    beneficial_owner: String,
    operator: String,
    expiry: u64,
) -> Result<Entitlement, ContractError> {
    let a = asset_id@;
    if !v.ents().contains_key(a) {
        Err(ContractError::AssetNotFound(asset_id))
    } else if !may_grant(v, a, sender@) {
        Err(ContractError::OnlyBeneficialOwnerOrOperator)
    } else if active_at(v.ents()[a], now) {
        Err(ContractError::HasActiveEntitlement)
    } else if expiry <= now {
        Err(ContractError::InvalidExpiry)
    } else {
        Ok(
            Entitlement {
                beneficial_owner: Some(beneficial_owner),
                operator: Some(operator),
                expiry: Some(expiry),
            },
        )
    }
}

/// The outcome of a withdrawal: the asset transfer to perform, or the error
/// rejecting the request.
pub open spec fn spec_withdraw(v: Vault, now: u64, sender: String, asset_id: String) -> Result<
    AssetTransfer,
    ContractError,
> {
    let a = asset_id@;
    if !v.ents().contains_key(a) {
        Err(ContractError::AssetNotFound(asset_id))
    } else if !(v.ents()[a].beneficial_owner matches Some(bo) && bo@ == sender@) {
        Err(ContractError::Unauthorized)
    } else if active_at(v.ents()[a], now) {
        Err(ContractError::WithdrawalFailed)
    } else if !v.held().contains(a) {
        Err(ContractError::AssetNotHeld(asset_id))
    } else {
        Ok(
            AssetTransfer {
                nft_addr: v.nft_addr,
                token_id: asset_id,
                recipient: v.ents()[a].beneficial_owner.unwrap(),
            },
        )
    }
}

/// The outcome of redirecting the beneficial owner.
pub open spec fn spec_set_beneficial_owner(
    v: Vault,
    now: u64,
    sender: String,
    asset_id: String,
    new_beneficial_owner: String,
) -> Result<Entitlement, ContractError> {
    let a = asset_id@;
    if !v.ents().contains_key(a) {
        Err(ContractError::AssetNotFound(asset_id))
    } else if active_at(v.ents()[a], now) && !operator_is(v.ents()[a], sender@) {
        Err(ContractError::Unauthorized)
    } else if !active_at(v.ents()[a], now) && !(v.ents()[a].beneficial_owner matches Some(bo)
        && bo@ == sender@) {
        Err(ContractError::Unauthorized)
    } else {
        Ok(
            Entitlement {
                beneficial_owner: Some(new_beneficial_owner),
                operator: v.ents()[a].operator,
                expiry: v.ents()[a].expiry,
            },
        )
    }
}

/// The outcome of clearing an entitlement.
pub open spec fn spec_clear(v: Vault, now: u64, sender: String, asset_id: String) -> Result<
    Entitlement,
    ContractError,
> {
    let a = asset_id@;
    if !v.ents().contains_key(a) {
        Err(ContractError::AssetNotFound(asset_id))
    } else if !active_at(v.ents()[a], now) {
        Err(ContractError::NoActiveEntitlement)
    } else if !operator_is(v.ents()[a], sender@) {
        Err(ContractError::Unauthorized)
    } else {
        Ok(
            Entitlement {
                beneficial_owner: v.ents()[a].beneficial_owner,
                operator: None,
                expiry: None,
            },
        )
    }
}

/// The outcome of clearing an entitlement and distributing the asset.
pub open spec fn spec_distribute(
    v: Vault,
    now: u64,
    sender: String,
    asset_id: String,
    receiver: String,
) -> Result<AssetTransfer, ContractError> {
    let a = asset_id@;
    if !v.ents().contains_key(a) {
        Err(ContractError::AssetNotFound(asset_id))
    } else if !(v.ents()[a].beneficial_owner matches Some(bo) && bo@ == receiver@) {
        Err(ContractError::Unauthorized)
    } else if !active_at(v.ents()[a], now) {
        Err(ContractError::NoActiveEntitlement)
    } else if !operator_is(v.ents()[a], sender@) {
        Err(ContractError::Unauthorized)
    } else if !v.held().contains(a) {
        Err(ContractError::AssetNotHeld(asset_id))
    } else {
        Ok(AssetTransfer { nft_addr: v.nft_addr, token_id: asset_id, recipient: receiver })
    }
}

/// The vault `v` differs from `v0` only in the entitlement record of `a`,
/// which now reads `ent`.
pub open spec fn ents_updated(v0: Vault, v: Vault, a: Seq<char>, ent: Entitlement) -> bool {
    &&& v.ents() == v0.ents().insert(a, ent)
    &&& v.held() == v0.held()
    &&& v.approved() == v0.approved()
}

/// The outcome of the engine redirecting the beneficial owner under its
/// recorded entitlement.
pub open spec fn spec_redirect(
    v: Vault,
    operator: String,
    asset_id: String,
    new_owner: String,
) -> Result<Entitlement, ContractError> {
    let a = asset_id@;
    if !v.ents().contains_key(a) {
        Err(ContractError::AssetNotFound(asset_id))
    } else if !operator_is(v.ents()[a], operator@) {
        Err(ContractError::Unauthorized)
    } else {
        Ok(
            Entitlement {
                beneficial_owner: Some(new_owner),
                operator: v.ents()[a].operator,
                expiry: v.ents()[a].expiry,
            },
        )
    }
}

/// The outcome of the engine settling an asset back to an owner.
pub open spec fn spec_settle_release(
    v: Vault,
    operator: String,
    asset_id: String,
    owner: String,
    withdraw: bool,
) -> Result<Option<AssetTransfer>, ContractError> {
    let a = asset_id@;
    if !v.ents().contains_key(a) {
        Err(ContractError::AssetNotFound(asset_id))
    } else if !operator_is(v.ents()[a], operator@) {
        Err(ContractError::Unauthorized)
    } else if withdraw && !v.held().contains(a) {
        Err(ContractError::AssetNotHeld(asset_id))
    } else if withdraw {
        Ok(Some(AssetTransfer { nft_addr: v.nft_addr, token_id: asset_id, recipient: owner }))
    } else {
        Ok(None)
    }
}

} // verus!
