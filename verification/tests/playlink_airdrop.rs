//! End-to-end walk through a campaign's life: platform setup, operator
//! registration, creation, update, two distribution batches that exhaust
//! the campaign, and the admin fee withdrawal.

use playlink_airdrop::contract::{execute, get_campaign_by_id, instantiate};
use playlink_airdrop::error::PlaylinkAirdropErr;
use playlink_airdrop::helpers::{Asset, AssetType, Coin, NATIVE_DENOM};
use playlink_airdrop::msg::{ExecuteMsg, InstantiateMsg, TransferInstruction};

const ADMIN: &str = "cosmos10w2pwzxaacsj508ma5ruz5wnhn83tld73shr4a";
const OPERATOR: &str = "cosmos10w2pwzxaacsj508ma5ruz5wnhn83tld73shr4b";
const CAMPAIGN_CREATOR: &str = "cosmos10w2pwzxaacsj508ma5ruz5wnhn83tld73shr4c";
const WINNER_1: &str = "cosmos10w2pwzxaacsj508ma5ruz5wnhn83tld73shr4d";
const WINNER_2: &str = "cosmos10w2pwzxaacsj508ma5ruz5wnhn83tld73shr4e";
const CAMPAIGN_ID: &str = "01BX5ZZKBKACTAV9WEVGEMMVRY";
const CW20_ADDRESS: &str = "contract0";
const CW721_ADDRESS: &str = "contract1";
const CW1155_ADDRESS: &str = "contract2";

fn native(amount: u128) -> Vec<Coin> {
    vec![Coin { denom: NATIVE_DENOM.to_string(), amount }]
}

#[test]
fn playlink_airdrop_test() {
    let now0: u64 = 1_571_797_419;
    let mut contract_balance: u128 = 0;

    let mut state = instantiate(
        ADMIN.to_string(),
        InstantiateMsg { max_batch_size: 3, fee_per_batch: 1 },
    )
    .unwrap();

    /* ================= Set up operators ================= */
    let instrs = execute(
        &mut state,
        now0,
        ADMIN.to_string(),
        vec![],
        contract_balance,
        ExecuteMsg::SetOperators {
            operators: vec![OPERATOR.to_string()],
            is_operators: vec![true],
        },
    )
    .unwrap();
    assert!(instrs.is_empty());

    /* ================= Create a new campaign ================= */
    let mut campaign_starting_time = now0 + 20 * 60; // starts 20 minutes later
    let instrs = execute(
        &mut state,
        now0,
        CAMPAIGN_CREATOR.to_string(),
        native(20),
        contract_balance,
        ExecuteMsg::CreateAirdropCampaign {
            campaign_id: CAMPAIGN_ID.to_string(),
            assets: vec![
                Asset {
                    asset_type: AssetType::CW20,
                    asset_address: CW20_ADDRESS.to_string(),
                    asset_id: String::new(),
                    available_amount: 100,
                },
                Asset {
                    asset_type: AssetType::CW20,
                    asset_address: CW20_ADDRESS.to_string(),
                    asset_id: String::new(),
                    available_amount: 150,
                },
                Asset {
                    asset_type: AssetType::CW721,
                    asset_address: CW721_ADDRESS.to_string(),
                    asset_id: "1234".to_string(),
                    available_amount: 1,
                },
            ],
            starting_time: campaign_starting_time,
        },
    )
    .unwrap();
    // required fee = ceil(3 / 3) * 1 = 1; the excess of the attached 20 comes back
    assert_eq!(
        instrs,
        vec![TransferInstruction::NativeSend {
            to_address: CAMPAIGN_CREATOR.to_string(),
            denom: NATIVE_DENOM.to_string(),
            amount: 19,
        }]
    );
    contract_balance += 20 - 19;

    let campaign = get_campaign_by_id(&state, CAMPAIGN_ID.to_string()).unwrap();
    assert_eq!(campaign.campaign_id, CAMPAIGN_ID);
    assert_eq!(campaign.creator, CAMPAIGN_CREATOR);
    assert_eq!(campaign.assets.len(), 3);
    assert_eq!(campaign.assets.get(0).unwrap().asset_address, CW20_ADDRESS);
    assert_eq!(campaign.assets.get(2).unwrap().asset_address, CW721_ADDRESS);
    assert_eq!(campaign.max_batch_size, 3);
    assert_eq!(campaign.starting_time, campaign_starting_time);
    assert_eq!(campaign.total_available_assets, 251);
    assert_eq!(campaign.airdrop_fee, 1);

    /* ================= Update this campaign ================= */
    campaign_starting_time = now0 + 8 * 60; // now starts 8 minutes later
    let instrs = execute(
        &mut state,
        now0,
        CAMPAIGN_CREATOR.to_string(),
        native(25),
        contract_balance,
        ExecuteMsg::UpdateCampaign {
            campaign_id: CAMPAIGN_ID.to_string(),
            assets: vec![
                Asset {
                    asset_type: AssetType::CW721,
                    asset_address: CW721_ADDRESS.to_string(),
                    asset_id: "9999".to_string(),
                    available_amount: 1,
                },
                Asset {
                    asset_type: AssetType::CW20,
                    asset_address: CW20_ADDRESS.to_string(),
                    asset_id: String::new(),
                    available_amount: 180,
                },
                Asset {
                    asset_type: AssetType::CW20,
                    asset_address: CW20_ADDRESS.to_string(),
                    asset_id: String::new(),
                    available_amount: 100,
                },
                Asset {
                    asset_type: AssetType::CW721,
                    asset_address: CW721_ADDRESS.to_string(),
                    asset_id: "8888".to_string(),
                    available_amount: 1,
                },
                Asset {
                    asset_type: AssetType::CW1155,
                    asset_address: CW1155_ADDRESS.to_string(),
                    asset_id: "1234".to_string(),
                    available_amount: 15,
                },
            ],
            starting_time: campaign_starting_time,
        },
    )
    .unwrap();
    // new fee = ceil(5 / 3) * 1 = 2, delta owed = 1, refund = 25 - 1 = 24
    assert_eq!(
        instrs,
        vec![TransferInstruction::NativeSend {
            to_address: CAMPAIGN_CREATOR.to_string(),
            denom: NATIVE_DENOM.to_string(),
            amount: 24,
        }]
    );
    contract_balance += 25 - 24;

    let campaign = get_campaign_by_id(&state, CAMPAIGN_ID.to_string()).unwrap();
    assert_eq!(campaign.campaign_id, CAMPAIGN_ID);
    assert_eq!(campaign.creator, CAMPAIGN_CREATOR);
    assert_eq!(campaign.assets.len(), 5);
    assert_eq!(campaign.assets.get(0).unwrap().asset_address, CW721_ADDRESS);
    assert_eq!(campaign.assets.get(2).unwrap().asset_address, CW20_ADDRESS);
    assert_eq!(campaign.max_batch_size, 3);
    assert_eq!(campaign.starting_time, campaign_starting_time);
    assert_eq!(campaign.total_available_assets, 297);
    assert_eq!(campaign.airdrop_fee, 2);

    /* ================= Airdrop CW20 assets ================= */
    let now1 = now0 + 10 * 60; // forward the clock by 10 minutes
    let instrs = execute(
        &mut state,
        now1,
        OPERATOR.to_string(),
        vec![],
        contract_balance,
        ExecuteMsg::Airdrop {
            campaign_id: CAMPAIGN_ID.to_string(),
            asset_indexes: vec![1, 2],
            recipients: vec![WINNER_1.to_string(), WINNER_2.to_string()],
        },
    )
    .unwrap();
    assert_eq!(
        instrs,
        vec![
            TransferInstruction::Cw20TransferFrom {
                token_address: CW20_ADDRESS.to_string(),
                owner: CAMPAIGN_CREATOR.to_string(),
                recipient: WINNER_1.to_string(),
                amount: 180,
            },
            TransferInstruction::Cw20TransferFrom {
                token_address: CW20_ADDRESS.to_string(),
                owner: CAMPAIGN_CREATOR.to_string(),
                recipient: WINNER_2.to_string(),
                amount: 100,
            },
        ]
    );
    let campaign = get_campaign_by_id(&state, CAMPAIGN_ID.to_string()).unwrap();
    assert_eq!(campaign.total_available_assets, 17);
    assert_eq!(campaign.assets.get(0).unwrap().available_amount, 1);
    assert_eq!(campaign.assets.get(1).unwrap().available_amount, 0);
    assert_eq!(campaign.assets.get(2).unwrap().available_amount, 0);
    assert_eq!(campaign.assets.get(3).unwrap().available_amount, 1);
    assert_eq!(campaign.assets.get(4).unwrap().available_amount, 15);

    /* ================= Airdrop CW721 and CW1155 assets ================= */
    let instrs = execute(
        &mut state,
        now1,
        OPERATOR.to_string(),
        vec![],
        contract_balance,
        ExecuteMsg::Airdrop {
            campaign_id: CAMPAIGN_ID.to_string(),
            asset_indexes: vec![0, 3, 4],
            recipients: vec![
                WINNER_1.to_string(),
                WINNER_2.to_string(),
                WINNER_1.to_string(),
            ],
        },
    )
    .unwrap();
    assert_eq!(
        instrs,
        vec![
            TransferInstruction::Cw721TransferNft {
                token_address: CW721_ADDRESS.to_string(),
                token_id: "9999".to_string(),
                recipient: WINNER_1.to_string(),
            },
            TransferInstruction::Cw721TransferNft {
                token_address: CW721_ADDRESS.to_string(),
                token_id: "8888".to_string(),
                recipient: WINNER_2.to_string(),
            },
            TransferInstruction::Cw1155SendFrom {
                token_address: CW1155_ADDRESS.to_string(),
                from: CAMPAIGN_CREATOR.to_string(),
                to: WINNER_1.to_string(),
                token_id: "1234".to_string(),
                value: 15,
            },
        ]
    );
    // the campaign is removed once every asset is distributed
    let err = get_campaign_by_id(&state, CAMPAIGN_ID.to_string()).unwrap_err();
    assert_eq!(
        err,
        PlaylinkAirdropErr::CampaignNotExists { campaign_id: CAMPAIGN_ID.to_string() }
    );

    /* ================= Admin withdraws all airdrop fee ================= */
    let contract_balance1 = contract_balance;
    let instrs = execute(
        &mut state,
        now1,
        ADMIN.to_string(),
        vec![],
        contract_balance,
        ExecuteMsg::WithdrawAirdropFee { recipient: ADMIN.to_string() },
    )
    .unwrap();
    assert_eq!(
        instrs,
        vec![TransferInstruction::NativeSend {
            to_address: ADMIN.to_string(),
            denom: NATIVE_DENOM.to_string(),
            amount: contract_balance1,
        }]
    );
    contract_balance -= contract_balance1;
    assert_eq!(contract_balance1, 2);
    assert_eq!(contract_balance, 0);
}
