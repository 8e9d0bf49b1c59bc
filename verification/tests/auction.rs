//! End-to-end auction lifecycle tests: mint, bid, reclaim, settle, burn
//! and claim.

use nft_options::denom::{Coin, Denom};
use nft_options::errors::ContractError;
use nft_options::execute::{CallEngine, CallInstrumentExecuteMsg, ExecuteResponse, NftFacts};
use nft_options::state::Config;
use nft_options::types::{AssetTransfer, Payment};
use nft_options::vault::Vault;

const ENGINE: &str = "call_instrument_addr";
const NFT: &str = "bayc_nft_addr";
const WRITER: &str = "writer_addr";
const TOKEN: &str = "id001";
const EXPIRY: u64 = 1000;

fn coins(amount: u128) -> Vec<Coin> {
    vec![Coin { denom: "ATOM".to_string(), amount }]
}

fn setup() -> (CallEngine, Vault) {
    let config = Config {
        protocol_addr: "protocol_addr".to_string(),
        allowed_underlying_nft: NFT.to_string(),
        factory_addr: "vault_factory_addr".to_string(),
        minimum_option_duration: 100,
        allowed_denom: Denom::new("ATOM".to_string()),
        min_bid_inc_bips: 100,
    };
    let engine = CallEngine::new(ENGINE.to_string(), config);
    let vault = Vault::new(
        "vault_addr".to_string(),
        NFT.to_string(),
        None,
        "protocol_addr".to_string(),
    );
    (engine, vault)
}

/// Mints an option with the given strike at time 0, expiring at EXPIRY.
fn mint(engine: &mut CallEngine, vault: &mut Vault, strike: u128) -> u64 {
    let resp = engine
        .mint_with_nft(
            vault,
            0,
            &WRITER.to_string(),
            NFT.to_string(),
            TOKEN.to_string(),
            strike,
            EXPIRY,
            WRITER.to_string(),
            &vec![ENGINE.to_string()],
            &vec![],
        )
        .unwrap();
    assert_eq!(
        resp.transfer,
        AssetTransfer {
            nft_addr: NFT.to_string(),
            token_id: TOKEN.to_string(),
            recipient: "vault_addr".to_string(),
        }
    );
    resp.option_id
}

#[test]
fn mint_records_a_fresh_option() {
    let (mut engine, mut vault) = setup();
    let id = mint(&mut engine, &mut vault, 5);
    assert_eq!(id, 1);
    assert_eq!(engine.current_bid(id).unwrap(), 0);
    assert_eq!(engine.current_bidder(id).unwrap(), None);
    assert_eq!(engine.get_strike_price(id).unwrap(), 5);
    assert_eq!(engine.get_expiration(id).unwrap(), EXPIRY);
    assert_eq!(engine.get_asset_id(id).unwrap(), TOKEN.to_string());
    assert_eq!(engine.get_vault_address(id).unwrap(), "vault_addr".to_string());
    assert_eq!(
        engine
            .get_option_id_for_asset(&"vault_addr".to_string(), &TOKEN.to_string())
            .unwrap(),
        1
    );
    assert_eq!(engine.option_owner(id).unwrap(), Some(WRITER.to_string()));
    // The vault holds the asset under an entitlement naming the engine.
    assert!(vault.holds_asset(&TOKEN.to_string()));
    assert_eq!(
        vault.beneficial_owner(&TOKEN.to_string()).unwrap(),
        Some(WRITER.to_string())
    );
    let ent = vault
        .current_entitlement_operator(0, &TOKEN.to_string())
        .unwrap();
    assert!(ent.is_active);
    assert_eq!(ent.operator, Some(ENGINE.to_string()));
    assert_eq!(
        vault.entitlement_expiration(0, &TOKEN.to_string()).unwrap(),
        Some(EXPIRY)
    );
}

#[test]
fn cant_mint_with_wrong_nft() {
    let (mut engine, mut vault) = setup();
    let wrong_nft = "blabla_nft_addr";
    let err = engine
        .mint_with_nft(
            &mut vault,
            0,
            &WRITER.to_string(),
            wrong_nft.to_string(),
            wrong_nft.to_string(),
            0,
            u64::MAX,
            WRITER.to_string(),
            &vec![ENGINE.to_string()],
            &vec![],
        )
        .unwrap_err();
    assert_eq!(err, ContractError::NftNotAllowed);
}

#[test]
fn mint_with_nft_flow() {
    // The full mint path: tender the token, mint the option, and read the
    // ledger back through every query.
    let (mut engine, mut vault) = setup();
    let token_id = "id001";
    let strike: u128 = 5;
    let expiration: u64 = 86400;
    let resp = engine
        .mint_with_nft(
            &mut vault,
            0,
            &WRITER.to_string(),
            NFT.to_string(),
            token_id.to_string(),
            strike,
            expiration,
            WRITER.to_string(),
            &vec![ENGINE.to_string()],
            &vec![],
        )
        .unwrap();
    let option_id = resp.option_id;
    assert_eq!(
        engine.get_vault_address(option_id).unwrap(),
        "vault_addr".to_string()
    );
    assert_eq!(
        engine
            .get_option_id_for_asset(&"vault_addr".to_string(), &token_id.to_string())
            .unwrap(),
        option_id
    );
    assert_eq!(engine.get_asset_id(option_id).unwrap(), token_id.to_string());
    assert_eq!(engine.get_strike_price(option_id).unwrap(), 5);
    assert_eq!(engine.get_expiration(option_id).unwrap(), expiration);
    // The underlying token now rests with the vault.
    assert_eq!(resp.transfer.recipient, "vault_addr".to_string());
    assert!(vault.holds_asset(&token_id.to_string()));
}

#[test]
fn mint_rejects_a_near_expiration() {
    let (mut engine, mut vault) = setup();
    // At time 0 with a minimum duration of 100, expiration 100 is too soon
    // (the bound is strict), 101 is accepted.
    let err = engine
        .mint_with_nft(
            &mut vault,
            0,
            &WRITER.to_string(),
            NFT.to_string(),
            TOKEN.to_string(),
            5,
            100,
            WRITER.to_string(),
            &vec![ENGINE.to_string()],
            &vec![],
        )
        .unwrap_err();
    assert_eq!(err, ContractError::ExpiresTooSoon);
    let resp = engine
        .mint_with_nft(
            &mut vault,
            0,
            &WRITER.to_string(),
            NFT.to_string(),
            TOKEN.to_string(),
            5,
            101,
            WRITER.to_string(),
            &vec![ENGINE.to_string()],
            &vec![],
        )
        .unwrap();
    assert_eq!(resp.option_id, 1);
}

#[test]
fn mint_requires_tender_authority() {
    let (mut engine, mut vault) = setup();
    let err = engine
        .mint_with_nft(
            &mut vault,
            0,
            &"stranger".to_string(),
            NFT.to_string(),
            TOKEN.to_string(),
            5,
            EXPIRY,
            WRITER.to_string(),
            &vec![ENGINE.to_string()],
            &vec![],
        )
        .unwrap_err();
    assert_eq!(err, ContractError::Unauthorized);
    // Without approval for the engine itself the mint fails too.
    let err = engine
        .mint_with_nft(
            &mut vault,
            0,
            &WRITER.to_string(),
            NFT.to_string(),
            TOKEN.to_string(),
            5,
            EXPIRY,
            WRITER.to_string(),
            &vec![],
            &vec![],
        )
        .unwrap_err();
    assert_eq!(err, ContractError::EngineNotOperator);
}

#[test]
fn mint_over_unsettled_prior_option_is_rejected() {
    let (mut engine, mut vault) = setup();
    let id = mint(&mut engine, &mut vault, 5);
    // The asset rests in the vault with an unsettled option: minting over
    // the same vault/asset key is always rejected.
    let err = engine
        .mint_with_vault(
            &mut vault,
            1,
            &WRITER.to_string(),
            TOKEN.to_string(),
            7,
            EXPIRY,
        )
        .unwrap_err();
    assert_eq!(err, ContractError::PriorOptionNotSettled(id));
}

#[test]
fn mint_with_vault_after_settlement() {
    let (mut engine, mut vault) = setup();
    let id = mint(&mut engine, &mut vault, 5);
    engine
        .reclaim_asset(&mut vault, EXPIRY, &WRITER.to_string(), id, false)
        .unwrap();
    // The prior option is settled and the asset still rests in the vault:
    // a new option can be minted over it.
    let id2 = engine
        .mint_with_vault(
            &mut vault,
            EXPIRY,
            &WRITER.to_string(),
            TOKEN.to_string(),
            7,
            EXPIRY + 500,
        )
        .unwrap();
    assert_eq!(id2, 2);
    assert_eq!(
        engine
            .get_option_id_for_asset(&"vault_addr".to_string(), &TOKEN.to_string())
            .unwrap(),
        2
    );
    let ent = vault
        .current_entitlement_operator(EXPIRY, &TOKEN.to_string())
        .unwrap();
    assert!(ent.is_active);
    assert_eq!(ent.operator, Some(ENGINE.to_string()));
}

#[test]
fn mint_with_entitled_vault_checks_the_entitlement() {
    let (mut engine, mut vault) = setup();
    mint(&mut engine, &mut vault, 5);
    // The entitlement expires at EXPIRY; a different expiration must be
    // rejected, the matching one is rejected only for the prior option.
    let err = engine
        .mint_with_entitled_vault(
            &vault,
            1,
            &WRITER.to_string(),
            TOKEN.to_string(),
            7,
            EXPIRY - 1,
        )
        .unwrap_err();
    assert_eq!(err, ContractError::EntitlementExpirationMismatch);
    let err = engine
        .mint_with_entitled_vault(&vault, 1, &WRITER.to_string(), TOKEN.to_string(), 7, EXPIRY)
        .unwrap_err();
    assert_eq!(err, ContractError::PriorOptionNotSettled(1));
}

#[test]
fn bid_requires_the_allowed_denom() {
    let (mut engine, mut vault) = setup();
    let id = mint(&mut engine, &mut vault, 5);
    let err = engine
        .bid(
            &mut vault,
            1,
            &"bidder1".to_string(),
            &vec![Coin { denom: "OSMO".to_string(), amount: 10 }],
            id,
        )
        .unwrap_err();
    assert_eq!(err, ContractError::DenomNotAllowed);
}

#[test]
fn bid_below_strike_is_rejected() {
    let (mut engine, mut vault) = setup();
    let id = mint(&mut engine, &mut vault, 5);
    let err = engine
        .bid(&mut vault, 1, &"bidder1".to_string(), &coins(4), id)
        .unwrap_err();
    assert_eq!(err, ContractError::BidIsLowerStrikePrice);
    // State unchanged: no bid, no bidder.
    assert_eq!(engine.current_bid(id).unwrap(), 0);
    assert_eq!(engine.current_bidder(id).unwrap(), None);
}

#[test]
fn bid_exactly_at_the_strike_is_accepted() {
    // Boundary: a bid exactly equal to the minimum required amount is
    // accepted; the floors are `>=`, not `>`.
    let (mut engine, mut vault) = setup();
    let id = mint(&mut engine, &mut vault, 5);
    let resp = engine
        .bid(&mut vault, 1, &"bidder1".to_string(), &coins(5), id)
        .unwrap();
    assert_eq!(resp.refund, None);
    assert_eq!(engine.current_bid(id).unwrap(), 5);
    assert_eq!(engine.current_bidder(id).unwrap(), Some("bidder1".to_string()));
}

#[test]
fn bid_must_beat_the_minimum_increment() {
    let (mut engine, mut vault) = setup();
    // Strike 5 and an increment of 250 basis points.
    let config = Config {
        protocol_addr: "protocol_addr".to_string(),
        allowed_underlying_nft: NFT.to_string(),
        factory_addr: "vault_factory_addr".to_string(),
        minimum_option_duration: 100,
        allowed_denom: Denom::new("ATOM".to_string()),
        min_bid_inc_bips: 250,
    };
    engine = CallEngine::new(ENGINE.to_string(), config);
    let id = mint(&mut engine, &mut vault, 5);
    engine
        .bid(&mut vault, 1, &"bidder1".to_string(), &coins(1000), id)
        .unwrap();
    // 1000 + 1000 * 250 / 10000 = 1025: 1024 is too low, 1025 is the
    // exact boundary and accepted.
    let err = engine
        .bid(&mut vault, 2, &"bidder2".to_string(), &coins(1024), id)
        .unwrap_err();
    assert_eq!(err, ContractError::BidTooLow);
    assert_eq!(engine.current_bid(id).unwrap(), 1000);
    assert_eq!(engine.current_bidder(id).unwrap(), Some("bidder1".to_string()));
    let resp = engine
        .bid(&mut vault, 3, &"bidder2".to_string(), &coins(1025), id)
        .unwrap();
    assert_eq!(
        resp.refund,
        Some(Payment { to: "bidder1".to_string(), amount: 1000 })
    );
    assert_eq!(engine.current_bid(id).unwrap(), 1025);
}

#[test]
fn bid_allowed_at_the_expiration_instant() {
    let (mut engine, mut vault) = setup();
    let id = mint(&mut engine, &mut vault, 5);
    engine
        .bid(&mut vault, EXPIRY, &"bidder1".to_string(), &coins(6), id)
        .unwrap();
    let err = engine
        .bid(&mut vault, EXPIRY + 1, &"bidder2".to_string(), &coins(9), id)
        .unwrap_err();
    assert_eq!(err, ContractError::OptionIsExpired);
}

#[test]
fn bid_updates_the_vault_owner() {
    let (mut engine, mut vault) = setup();
    let id = mint(&mut engine, &mut vault, 5);
    engine
        .bid(&mut vault, 1, &"bidder1".to_string(), &coins(6), id)
        .unwrap();
    // The high bidder immediately becomes the asset's beneficial owner,
    // so the writer cannot withdraw the asset before settlement.
    assert_eq!(
        vault.beneficial_owner(&TOKEN.to_string()).unwrap(),
        Some("bidder1".to_string())
    );
    let err = vault
        .withdrawal_asset(1, &WRITER.to_string(), &TOKEN.to_string())
        .unwrap_err();
    assert_eq!(err, ContractError::Unauthorized);
    // Even after expiry but before settlement the writer stays locked out.
    let err = vault
        .withdrawal_asset(EXPIRY + 1, &WRITER.to_string(), &TOKEN.to_string())
        .unwrap_err();
    assert_eq!(err, ContractError::Unauthorized);
}

#[test]
fn writer_bid_is_credited_the_strike() {
    let (mut engine, mut vault) = setup();
    let id = mint(&mut engine, &mut vault, 5);
    engine
        .bid(&mut vault, 1, &"bidder1".to_string(), &coins(6), id)
        .unwrap();
    // The writer tenders only 2: with the strike credited their bid
    // counts as 7, and the outbid bidder is refunded in full.
    let resp = engine
        .bid(&mut vault, 2, &WRITER.to_string(), &coins(2), id)
        .unwrap();
    assert_eq!(
        resp.refund,
        Some(Payment { to: "bidder1".to_string(), amount: 6 })
    );
    assert_eq!(engine.current_bid(id).unwrap(), 7);
    assert_eq!(engine.current_bidder(id).unwrap(), Some(WRITER.to_string()));
    // When the writer is outbid, the refund excludes the strike they
    // never escrowed.
    let resp = engine
        .bid(&mut vault, 3, &"bidder2".to_string(), &coins(8), id)
        .unwrap();
    assert_eq!(resp.refund, Some(Payment { to: WRITER.to_string(), amount: 2 }));
}

#[test]
fn writer_bid_overflow_is_a_typed_error() {
    let (mut engine, mut vault) = setup();
    let id = mint(&mut engine, &mut vault, 5);
    let err = engine
        .bid(&mut vault, 1, &WRITER.to_string(), &coins(u128::MAX), id)
        .unwrap_err();
    assert_eq!(err, ContractError::OverflowError);
}

#[test]
fn scenario_no_bid_reclaim() {
    // Scenario A: mint with strike 5; nobody bids; after expiration the
    // writer reclaims, the beneficial owner reverts to the writer and the
    // entitlement is cleared.
    let (mut engine, mut vault) = setup();
    let id = mint(&mut engine, &mut vault, 5);
    // Too early and by the wrong caller it fails.
    let err = engine
        .reclaim_asset(&mut vault, 500, &"someone".to_string(), id, false)
        .unwrap_err();
    assert_eq!(err, ContractError::Unauthorized);
    let err = engine
        .reclaim_asset(&mut vault, 500, &WRITER.to_string(), id, false)
        .unwrap_err();
    assert_eq!(err, ContractError::OptionNotExpired(id));
    let resp = engine
        .reclaim_asset(&mut vault, EXPIRY, &WRITER.to_string(), id, false)
        .unwrap();
    assert_eq!(resp.transfer, None);
    assert_eq!(
        vault.beneficial_owner(&TOKEN.to_string()).unwrap(),
        Some(WRITER.to_string())
    );
    let ent = vault
        .current_entitlement_operator(EXPIRY, &TOKEN.to_string())
        .unwrap();
    assert!(!ent.is_active);
    assert_eq!(ent.operator, None);
    assert!(vault.holds_asset(&TOKEN.to_string()));
    // The option token is burned and the record settled.
    assert_eq!(engine.option_owner(id).unwrap(), None);
    // A second reclaim always fails with the already-settled error.
    let err = engine
        .reclaim_asset(&mut vault, EXPIRY, &WRITER.to_string(), id, false)
        .unwrap_err();
    assert_eq!(err, ContractError::OptionAlreadySettled(id));
}

#[test]
fn reclaim_with_withdraw_releases_custody() {
    let (mut engine, mut vault) = setup();
    let id = mint(&mut engine, &mut vault, 5);
    let resp = engine
        .reclaim_asset(&mut vault, EXPIRY, &WRITER.to_string(), id, true)
        .unwrap();
    assert_eq!(
        resp.transfer,
        Some(AssetTransfer {
            nft_addr: NFT.to_string(),
            token_id: TOKEN.to_string(),
            recipient: WRITER.to_string(),
        })
    );
    assert!(!vault.holds_asset(&TOKEN.to_string()));
}

#[test]
fn reclaim_refuses_an_option_with_bids() {
    let (mut engine, mut vault) = setup();
    let id = mint(&mut engine, &mut vault, 5);
    engine
        .bid(&mut vault, 1, &"bidder1".to_string(), &coins(6), id)
        .unwrap();
    let err = engine
        .reclaim_asset(&mut vault, EXPIRY, &WRITER.to_string(), id, false)
        .unwrap_err();
    assert_eq!(err, ContractError::OptionHasBids);
}

#[test]
fn scenario_writer_loses_auction() {
    // Scenario B: strike 5, expiration T, increment 100 bps; bids of 6
    // and 7 are accepted, the first bidder is refunded 6 in full; the
    // holder (the writer) settles after T: the writer receives the strike
    // 5, the holder receives the spread 2, and the token is burned.
    let (mut engine, mut vault) = setup();
    let id = mint(&mut engine, &mut vault, 5);
    let resp = engine
        .bid(&mut vault, 1, &"bidder1".to_string(), &coins(6), id)
        .unwrap();
    assert_eq!(resp.refund, None);
    let resp = engine
        .bid(&mut vault, 2, &"bidder2".to_string(), &coins(7), id)
        .unwrap();
    assert_eq!(
        resp.refund,
        Some(Payment { to: "bidder1".to_string(), amount: 6 })
    );
    // Settlement before expiry is refused.
    let err = engine
        .settle_option(EXPIRY - 1, &WRITER.to_string(), id)
        .unwrap_err();
    assert_eq!(err, ContractError::OptionNotExpired(id));
    let resp = engine
        .settle_option(EXPIRY, &WRITER.to_string(), id)
        .unwrap();
    assert_eq!(
        resp.strike_payment,
        Some(Payment { to: WRITER.to_string(), amount: 5 })
    );
    assert_eq!(
        resp.spread_payment,
        Some(Payment { to: WRITER.to_string(), amount: 2 })
    );
    assert!(!resp.claimable);
    assert_eq!(engine.option_owner(id).unwrap(), None);
    // Settlement is idempotent: a second call fails as already settled.
    let err = engine
        .settle_option(EXPIRY, &WRITER.to_string(), id)
        .unwrap_err();
    assert_eq!(err, ContractError::OptionAlreadySettled(id));
    let err = engine
        .reclaim_asset(&mut vault, EXPIRY, &WRITER.to_string(), id, false)
        .unwrap_err();
    assert_eq!(err, ContractError::OptionAlreadySettled(id));
}

#[test]
fn scenario_third_party_settles() {
    // Scenario C: as B, but a third party settles: no burn, a pending
    // claim of 2 is stored and reported claimable; the holder later
    // claims 2 and the token is burned.
    let (mut engine, mut vault) = setup();
    let id = mint(&mut engine, &mut vault, 5);
    engine
        .bid(&mut vault, 1, &"bidder1".to_string(), &coins(6), id)
        .unwrap();
    engine
        .bid(&mut vault, 2, &"bidder2".to_string(), &coins(7), id)
        .unwrap();
    let resp = engine
        .settle_option(EXPIRY, &"rando".to_string(), id)
        .unwrap();
    assert_eq!(
        resp.strike_payment,
        Some(Payment { to: WRITER.to_string(), amount: 5 })
    );
    assert_eq!(resp.spread_payment, None);
    assert!(resp.claimable);
    // The token still exists and a claim of exactly bid - strike is
    // pending.
    assert_eq!(engine.option_owner(id).unwrap(), Some(WRITER.to_string()));
    assert_eq!(engine.option_claim(id).unwrap(), Some(2));
    // Only the holder may claim.
    let err = engine
        .claim_option_proceeds(&"rando".to_string(), id)
        .unwrap_err();
    assert_eq!(err, ContractError::OnlyOptionOwner);
    let payment = engine
        .claim_option_proceeds(&WRITER.to_string(), id)
        .unwrap();
    assert_eq!(payment, Payment { to: WRITER.to_string(), amount: 2 });
    assert_eq!(engine.option_owner(id).unwrap(), None);
    assert_eq!(engine.option_claim(id).unwrap(), None);
    // The claim is payable exactly once.
    let err = engine
        .claim_option_proceeds(&WRITER.to_string(), id)
        .unwrap_err();
    assert_eq!(err, ContractError::OptionTokenBurned(id));
}

#[test]
fn settle_with_writer_as_high_bidder_skips_the_strike() {
    let (mut engine, mut vault) = setup();
    let id = mint(&mut engine, &mut vault, 5);
    engine
        .bid(&mut vault, 1, &WRITER.to_string(), &coins(2), id)
        .unwrap();
    let resp = engine
        .settle_option(EXPIRY, &WRITER.to_string(), id)
        .unwrap();
    // The writer is the winning bidder: they only escrowed the spread, so
    // no strike payment is owed.
    assert_eq!(resp.strike_payment, None);
    assert_eq!(
        resp.spread_payment,
        Some(Payment { to: WRITER.to_string(), amount: 2 })
    );
}

#[test]
fn settle_requires_a_winning_bidder() {
    let (mut engine, mut vault) = setup();
    let id = mint(&mut engine, &mut vault, 5);
    let err = engine
        .settle_option(EXPIRY, &WRITER.to_string(), id)
        .unwrap_err();
    assert_eq!(err, ContractError::NoWinningBidder);
    let err = engine
        .settle_option(EXPIRY, &WRITER.to_string(), 7)
        .unwrap_err();
    assert_eq!(err, ContractError::OptionNotFound(7));
}

#[test]
fn burn_expired_option_burns_only_the_token() {
    let (mut engine, mut vault) = setup();
    let id = mint(&mut engine, &mut vault, 5);
    let err = engine.burn_expired_option(500, id).unwrap_err();
    assert_eq!(err, ContractError::OptionNotExpired(id));
    engine.burn_expired_option(EXPIRY, id).unwrap();
    assert_eq!(engine.option_owner(id).unwrap(), None);
    let err = engine.burn_expired_option(EXPIRY, id).unwrap_err();
    assert_eq!(err, ContractError::OptionTokenBurned(id));
    // The record stays unsettled, so the index keeps blocking new mints
    // over the asset.
    let err = engine
        .mint_with_vault(
            &mut vault,
            EXPIRY,
            &WRITER.to_string(),
            TOKEN.to_string(),
            5,
            EXPIRY + 500,
        )
        .unwrap_err();
    assert_eq!(err, ContractError::PriorOptionNotSettled(id));
}

#[test]
fn burn_refuses_an_option_with_bids() {
    let (mut engine, mut vault) = setup();
    let id = mint(&mut engine, &mut vault, 5);
    engine
        .bid(&mut vault, 1, &"bidder1".to_string(), &coins(6), id)
        .unwrap();
    let err = engine.burn_expired_option(EXPIRY, id).unwrap_err();
    assert_eq!(err, ContractError::OptionHasBids);
}

#[test]
fn execute_dispatches_the_full_lifecycle() {
    let (mut engine, mut vault) = setup();
    let facts = NftFacts {
        owner: WRITER.to_string(),
        operators: vec![ENGINE.to_string()],
        approvals: vec![],
    };
    let no_funds: Vec<Coin> = vec![];
    let r = engine
        .execute(
            &mut vault,
            0,
            &WRITER.to_string(),
            &no_funds,
            &facts,
            CallInstrumentExecuteMsg::MintWithNFT {
                nft_addr: NFT.to_string(),
                nft_id: TOKEN.to_string(),
                strike: 5,
                expiration: EXPIRY,
            },
        )
        .unwrap();
    match r {
        ExecuteResponse::OptionMinted { option_id, transfer } => {
            assert_eq!(option_id, 1);
            assert!(transfer.is_some());
        }
        other => panic!("unexpected response: {other:?}"),
    }
    let r = engine
        .execute(
            &mut vault,
            1,
            &"bidder1".to_string(),
            &coins(6),
            &facts,
            CallInstrumentExecuteMsg::Bid { option_id: 1 },
        )
        .unwrap();
    match r {
        ExecuteResponse::BidAccepted(resp) => assert_eq!(resp.refund, None),
        other => panic!("unexpected response: {other:?}"),
    }
    let r = engine
        .execute(
            &mut vault,
            EXPIRY,
            &"rando".to_string(),
            &no_funds,
            &facts,
            CallInstrumentExecuteMsg::SettleOption { option_id: 1 },
        )
        .unwrap();
    match r {
        ExecuteResponse::OptionSettled(resp) => {
            assert!(resp.claimable);
            assert_eq!(
                resp.strike_payment,
                Some(Payment { to: WRITER.to_string(), amount: 5 })
            );
        }
        other => panic!("unexpected response: {other:?}"),
    }
    let r = engine
        .execute(
            &mut vault,
            EXPIRY,
            &WRITER.to_string(),
            &no_funds,
            &facts,
            CallInstrumentExecuteMsg::ClaimOptionProceeds { option_id: 1 },
        )
        .unwrap();
    assert_eq!(
        r,
        ExecuteResponse::ProceedsClaimed(Payment { to: WRITER.to_string(), amount: 1 })
    );
}

#[test]
fn claim_without_settlement_fails() {
    let (mut engine, mut vault) = setup();
    let id = mint(&mut engine, &mut vault, 5);
    let err = engine
        .claim_option_proceeds(&WRITER.to_string(), id)
        .unwrap_err();
    assert_eq!(err, ContractError::ClaimNotFound(id));
}
