//! Tests of the supporting pieces: currencies, prefixes, value types and
//! the query message surfaces.

use nft_options::addr::assert_valid_prefix;
use nft_options::denom::{find_allowed_coin, has_allowed_denoms, Coin, Denom};
use nft_options::errors::ContractError;
use nft_options::execute::CallEngine;
use nft_options::msg::{CallInstrumentQueryAnswer, CallInstrumentQueryMsg, QueryMsg, VaultQueryAnswer};
use nft_options::state::Config;
use nft_options::types::{ExpiryRange, OptionType};
use nft_options::vault::Vault;

#[test]
fn denom_wraps_a_currency_name() {
    let d = Denom::new("ATOM".to_string());
    assert_eq!(d.as_bytes(), b"ATOM");
    assert!(d.matches(&"ATOM".to_string()));
    assert!(!d.matches(&"OSMO".to_string()));
    assert_eq!(d.dup().as_bytes(), b"ATOM");
}

#[test]
fn find_allowed_coin_picks_the_first_match() {
    let coins = vec![
        Coin { denom: "OSMO".to_string(), amount: 1 },
        Coin { denom: "ATOM".to_string(), amount: 2 },
        Coin { denom: "ATOM".to_string(), amount: 3 },
    ];
    let found = find_allowed_coin(&coins, &Denom::new("ATOM".to_string())).unwrap();
    assert_eq!(found, Coin { denom: "ATOM".to_string(), amount: 2 });
    assert_eq!(find_allowed_coin(&coins, &Denom::new("JUNO".to_string())), None);
}

#[test]
fn has_allowed_denoms_checks_every_coin() {
    let coins = vec![
        Coin { denom: "ATOM".to_string(), amount: 1 },
        Coin { denom: "OSMO".to_string(), amount: 2 },
    ];
    let allowed = vec![Denom::new("ATOM".to_string()), Denom::new("OSMO".to_string())];
    assert!(has_allowed_denoms(&coins, &allowed));
    let only_atom = vec![Denom::new("ATOM".to_string())];
    assert!(!has_allowed_denoms(&coins, &only_atom));
    assert!(has_allowed_denoms(&vec![], &only_atom));
}

#[test]
fn prefix_check_accepts_matching_addresses() {
    assert!(assert_valid_prefix("cosmos1qypqxpq9qcrsszg2pvxq6rs0zqg3yyc5lzv7xu", "cosmos").is_ok());
    let err = assert_valid_prefix("osmo1qypqxpq9qcrsszg2pvxq6rs0zqg3yyc5", "cosmos").unwrap_err();
    assert_eq!(err, ContractError::InvalidChainPrefix("cosmos".to_string()));
    // The prefix may not be longer than the address.
    assert!(assert_valid_prefix("cos", "cosmos").is_err());
}

#[test]
fn expiry_range_is_inclusive() {
    let r = ExpiryRange { min: 10, max: 20 };
    assert!(r.contains_duration(10));
    assert!(r.contains_duration(20));
    assert!(!r.contains_duration(9));
    assert!(!r.contains_duration(21));
}

#[test]
fn option_types_are_distinct() {
    assert_eq!(OptionType::CALL, OptionType::CALL);
    assert_ne!(OptionType::CALL, OptionType::PUT);
}

#[test]
fn error_labels_are_stable() {
    assert_eq!(ContractError::Unauthorized.label(), "unauthorized");
    assert_eq!(ContractError::ClaimNotFound(3).label(), "claim is zero");
    assert_eq!(
        ContractError::OptionAlreadySettled(1).label(),
        "option already settled"
    );
}

#[test]
fn instrument_queries_answer_through_the_message_surface() {
    let config = Config {
        protocol_addr: "protocol_addr".to_string(),
        allowed_underlying_nft: "bayc_nft_addr".to_string(),
        factory_addr: "vault_factory_addr".to_string(),
        minimum_option_duration: 100,
        allowed_denom: Denom::new("ATOM".to_string()),
        min_bid_inc_bips: 100,
    };
    let mut engine = CallEngine::new("call_instrument_addr".to_string(), config);
    let mut vault = Vault::new(
        "vault_addr".to_string(),
        "bayc_nft_addr".to_string(),
        None,
        "protocol_addr".to_string(),
    );
    let resp = engine
        .mint_with_nft(
            &mut vault,
            0,
            &"writer_addr".to_string(),
            "bayc_nft_addr".to_string(),
            "id001".to_string(),
            5,
            1000,
            "writer_addr".to_string(),
            &vec!["call_instrument_addr".to_string()],
            &vec![],
        )
        .unwrap();
    let id = resp.option_id;
    assert_eq!(
        engine.query(&CallInstrumentQueryMsg::CurrentBid { option_id: id }).unwrap(),
        CallInstrumentQueryAnswer::CurrentBid(0)
    );
    assert_eq!(
        engine.query(&CallInstrumentQueryMsg::CurrentBidder { option_id: id }).unwrap(),
        CallInstrumentQueryAnswer::CurrentBidder(None)
    );
    assert_eq!(
        engine.query(&CallInstrumentQueryMsg::GetVaultAddress { option_id: id }).unwrap(),
        CallInstrumentQueryAnswer::VaultAddress("vault_addr".to_string())
    );
    assert_eq!(
        engine
            .query(
                &CallInstrumentQueryMsg::GetOptionIdForAsset {
                    vault: "vault_addr".to_string(),
                    asset_id: "id001".to_string(),
                },
            )
            .unwrap(),
        CallInstrumentQueryAnswer::OptionIdForAsset(1)
    );
    assert_eq!(
        engine.query(&CallInstrumentQueryMsg::GetAssetId { option_id: id }).unwrap(),
        CallInstrumentQueryAnswer::AssetId("id001".to_string())
    );
    assert_eq!(
        engine.query(&CallInstrumentQueryMsg::GetStrikePrice { option_id: id }).unwrap(),
        CallInstrumentQueryAnswer::StrikePrice(5)
    );
    assert_eq!(
        engine.query(&CallInstrumentQueryMsg::GetExpiration { option_id: id }).unwrap(),
        CallInstrumentQueryAnswer::Expiration(1000)
    );
    let err = engine
        .query(&CallInstrumentQueryMsg::CurrentBid { option_id: 9 })
        .unwrap_err();
    assert_eq!(err, ContractError::OptionNotFound(9));
}

#[test]
fn vault_queries_answer_through_the_message_surface() {
    let mut v = Vault::new(
        "vault_addr".to_string(),
        "nft_addr".to_string(),
        None,
        "protocol_addr".to_string(),
    );
    v.receive_cw721(
        0,
        &"nft_addr".to_string(),
        "alice_addr".to_string(),
        "nft_id001".to_string(),
        None,
    )
    .unwrap();
    v.impose_entitlement(0, &"nft_id001".to_string(), "operator_addr".to_string(), 100)
        .unwrap();
    let asset = "nft_id001".to_string();
    assert_eq!(
        v.query(50, &QueryMsg::BeneficialOwner { asset_id: asset.clone() }).unwrap(),
        VaultQueryAnswer::BeneficialOwner(Some("alice_addr".to_string()))
    );
    assert_eq!(
        v.query(50, &QueryMsg::HoldsAsset { asset_id: asset.clone() }).unwrap(),
        VaultQueryAnswer::HoldsAsset(true)
    );
    assert_eq!(
        v.query(50, &QueryMsg::AssetAddress {}).unwrap(),
        VaultQueryAnswer::AssetAddress("nft_addr".to_string())
    );
    assert_eq!(
        v.query(50, &QueryMsg::ApprovedOperator { asset_id: asset.clone() }).unwrap(),
        VaultQueryAnswer::ApprovedOperator(None)
    );
    assert_eq!(
        v.query(50, &QueryMsg::EntitlementExpiration { asset_id: asset.clone() }).unwrap(),
        VaultQueryAnswer::EntitlementExpiration(Some(100))
    );
    match v
        .query(50, &QueryMsg::CurrentEntitlementOperator { asset_id: asset.clone() })
        .unwrap()
    {
        VaultQueryAnswer::CurrentEntitlementOperator(resp) => {
            assert!(resp.is_active);
            assert_eq!(resp.operator, Some("operator_addr".to_string()));
        }
        other => panic!("unexpected answer: {other:?}"),
    }
    let err = v
        .query(50, &QueryMsg::BeneficialOwner { asset_id: "missing".to_string() })
        .unwrap_err();
    assert_eq!(err, ContractError::AssetNotFound("missing".to_string()));
}
