//! Distribution and registry behaviour: authorization gates, batch
//! validation, balance bookkeeping, campaign removal on exhaustion, and
//! the admin fee withdrawal.

use playlink_airdrop::contract::{
    airdrop, create_airdrop_campaign, get_campaign_by_id, instantiate, query, set_operators,
    withdraw_airdrop_fee,
};
use playlink_airdrop::error::PlaylinkAirdropErr;
use playlink_airdrop::helpers::{Asset, AssetType, Coin, NATIVE_DENOM};
use playlink_airdrop::msg::{InstantiateMsg, QueryAnswer, QueryMsg, TransferInstruction};
use playlink_airdrop::state::ContractState;

const ADMIN: &str = "admin";
const OPERATOR: &str = "operator";
const CREATOR: &str = "creator";
const WINNER: &str = "winner";
const TOKEN: &str = "token_contract";
const NOW: u64 = 1_000_000;
const START: u64 = 1_000_600;

fn native(amount: u128) -> Vec<Coin> {
    vec![Coin { denom: NATIVE_DENOM.to_string(), amount }]
}

fn fungible(amount: u128) -> Asset {
    Asset {
        asset_type: AssetType::CW20,
        asset_address: TOKEN.to_string(),
        asset_id: String::new(),
        available_amount: amount,
    }
}

/// Platform with one registered operator and one campaign of two fungible
/// assets (30 and 70), live from `START`.
fn ready_state() -> ContractState {
    let mut state = instantiate(
        ADMIN.to_string(),
        InstantiateMsg { max_batch_size: 3, fee_per_batch: 1 },
    )
    .unwrap();
    set_operators(
        &mut state,
        ADMIN.to_string(),
        vec![OPERATOR.to_string()],
        vec![true],
    )
    .unwrap();
    create_airdrop_campaign(
        &mut state,
        NOW,
        CREATOR.to_string(),
        native(1),
        "camp".to_string(),
        vec![fungible(30), fungible(70)],
        START,
    )
    .unwrap();
    state
}

#[test]
fn set_operators_is_admin_only() {
    let mut state = ready_state();
    let err = set_operators(
        &mut state,
        OPERATOR.to_string(),
        vec![OPERATOR.to_string()],
        vec![true],
    )
    .unwrap_err();
    assert_eq!(err, PlaylinkAirdropErr::NotAdmin { account: OPERATOR.to_string() });
}

#[test]
fn set_operators_rejects_length_mismatch() {
    let mut state = ready_state();
    let err = set_operators(
        &mut state,
        ADMIN.to_string(),
        vec![OPERATOR.to_string(), "other".to_string()],
        vec![true],
    )
    .unwrap_err();
    assert_eq!(err, PlaylinkAirdropErr::LengthMismatch {});
}

#[test]
fn operator_flag_last_write_wins() {
    let mut state = ready_state();
    // the same account is granted and then revoked in one call
    set_operators(
        &mut state,
        ADMIN.to_string(),
        vec![OPERATOR.to_string(), OPERATOR.to_string()],
        vec![true, false],
    )
    .unwrap();
    let err = airdrop(
        &mut state,
        START,
        OPERATOR.to_string(),
        "camp".to_string(),
        vec![0],
        vec![WINNER.to_string()],
    )
    .unwrap_err();
    assert_eq!(err, PlaylinkAirdropErr::NotOperator { account: OPERATOR.to_string() });
}

#[test]
fn airdrop_by_non_operator_mutates_nothing() {
    let mut state = ready_state();
    // a flag written as `false` is as unauthorized as no entry at all
    set_operators(
        &mut state,
        ADMIN.to_string(),
        vec!["revoked".to_string()],
        vec![false],
    )
    .unwrap();
    for caller in ["revoked", "stranger"] {
        let err = airdrop(
            &mut state,
            START,
            caller.to_string(),
            "camp".to_string(),
            vec![0],
            vec![WINNER.to_string()],
        )
        .unwrap_err();
        assert_eq!(err, PlaylinkAirdropErr::NotOperator { account: caller.to_string() });
    }
    let campaign = get_campaign_by_id(&state, "camp".to_string()).unwrap();
    assert_eq!(campaign.total_available_assets, 100);
    assert_eq!(campaign.assets.get(0).unwrap().available_amount, 30);
    assert_eq!(campaign.assets.get(1).unwrap().available_amount, 70);
}

#[test]
fn airdrop_missing_campaign_fails() {
    let mut state = ready_state();
    let err = airdrop(
        &mut state,
        START,
        OPERATOR.to_string(),
        "nope".to_string(),
        vec![0],
        vec![WINNER.to_string()],
    )
    .unwrap_err();
    assert_eq!(
        err,
        PlaylinkAirdropErr::CampaignNotExists { campaign_id: "nope".to_string() }
    );
}

#[test]
fn airdrop_before_start_fails() {
    let mut state = ready_state();
    let err = airdrop(
        &mut state,
        START - 1,
        OPERATOR.to_string(),
        "camp".to_string(),
        vec![0],
        vec![WINNER.to_string()],
    )
    .unwrap_err();
    assert_eq!(
        err,
        PlaylinkAirdropErr::CampaignNotStarts { campaign_id: "camp".to_string() }
    );
}

#[test]
fn airdrop_rejects_length_mismatch() {
    let mut state = ready_state();
    let err = airdrop(
        &mut state,
        START,
        OPERATOR.to_string(),
        "camp".to_string(),
        vec![0, 1],
        vec![WINNER.to_string()],
    )
    .unwrap_err();
    assert_eq!(err, PlaylinkAirdropErr::LengthMismatch {});
}

#[test]
fn airdrop_rejects_oversized_batch() {
    let mut state = ready_state();
    let recipients: Vec<String> = (0..4).map(|_| WINNER.to_string()).collect();
    let err = airdrop(
        &mut state,
        START,
        OPERATOR.to_string(),
        "camp".to_string(),
        vec![0, 1, 0, 1],
        recipients,
    )
    .unwrap_err();
    assert_eq!(err, PlaylinkAirdropErr::TooManyAssetsAirdropped { num_assets: 4 });
}

#[test]
fn airdrop_rejects_out_of_bounds_index() {
    let mut state = ready_state();
    let err = airdrop(
        &mut state,
        START,
        OPERATOR.to_string(),
        "camp".to_string(),
        vec![0, 5],
        vec![WINNER.to_string(), WINNER.to_string()],
    )
    .unwrap_err();
    assert_eq!(err, PlaylinkAirdropErr::IndexOutOfBound { index: 5 });
    let campaign = get_campaign_by_id(&state, "camp".to_string()).unwrap();
    assert_eq!(campaign.total_available_assets, 100);
}

#[test]
fn airdrop_repeated_index_sends_zero_the_second_time() {
    let mut state = ready_state();
    let instrs = airdrop(
        &mut state,
        START,
        OPERATOR.to_string(),
        "camp".to_string(),
        vec![0, 0],
        vec![WINNER.to_string(), WINNER.to_string()],
    )
    .unwrap();
    assert_eq!(instrs.len(), 2);
    assert_eq!(
        instrs[0],
        TransferInstruction::Cw20TransferFrom {
            token_address: TOKEN.to_string(),
            owner: CREATOR.to_string(),
            recipient: WINNER.to_string(),
            amount: 30,
        }
    );
    assert_eq!(
        instrs[1],
        TransferInstruction::Cw20TransferFrom {
            token_address: TOKEN.to_string(),
            owner: CREATOR.to_string(),
            recipient: WINNER.to_string(),
            amount: 0,
        }
    );
    let campaign = get_campaign_by_id(&state, "camp".to_string()).unwrap();
    assert_eq!(campaign.total_available_assets, 70);
}

#[test]
fn empty_batch_changes_nothing() {
    let mut state = ready_state();
    let instrs = airdrop(
        &mut state,
        START,
        OPERATOR.to_string(),
        "camp".to_string(),
        vec![],
        vec![],
    )
    .unwrap();
    assert!(instrs.is_empty());
    let campaign = get_campaign_by_id(&state, "camp".to_string()).unwrap();
    assert_eq!(campaign.total_available_assets, 100);
}

#[test]
fn exhausting_a_campaign_removes_it() {
    let mut state = ready_state();
    airdrop(
        &mut state,
        START,
        OPERATOR.to_string(),
        "camp".to_string(),
        vec![0, 1],
        vec![WINNER.to_string(), WINNER.to_string()],
    )
    .unwrap();
    let err = get_campaign_by_id(&state, "camp".to_string()).unwrap_err();
    assert_eq!(
        err,
        PlaylinkAirdropErr::CampaignNotExists { campaign_id: "camp".to_string() }
    );
}

#[test]
fn withdraw_fee_is_admin_only_and_moves_everything() {
    let state = ready_state();
    let err = withdraw_airdrop_fee(&state, CREATOR.to_string(), CREATOR.to_string(), 9)
        .unwrap_err();
    assert_eq!(err, PlaylinkAirdropErr::NotAdmin { account: CREATOR.to_string() });

    let mut contract_balance: u128 = 9;
    let instrs = withdraw_airdrop_fee(
        &state,
        ADMIN.to_string(),
        "treasury".to_string(),
        contract_balance,
    )
    .unwrap();
    assert_eq!(
        instrs,
        vec![TransferInstruction::NativeSend {
            to_address: "treasury".to_string(),
            denom: NATIVE_DENOM.to_string(),
            amount: 9,
        }]
    );
    contract_balance -= 9;
    assert_eq!(contract_balance, 0);
}

#[test]
fn query_answers_fee_and_campaign() {
    let state = ready_state();
    match query(&state, QueryMsg::EstimateAirdropFee { num_assets: 4 }).unwrap() {
        QueryAnswer::Fee(f) => assert_eq!(f, 2),
        _ => panic!("expected a fee answer"),
    }
    match query(
        &state,
        QueryMsg::GetCampaignById { campaign_id: "camp".to_string() },
    )
    .unwrap()
    {
        QueryAnswer::Campaign(c) => {
            assert_eq!(c.campaign_id, "camp");
            assert_eq!(c.total_available_assets, 100);
        },
        _ => panic!("expected a campaign answer"),
    }
}
