//! Entry-point messages, the outbound transfer instructions every operation
//! returns, and query answers.

use vstd::prelude::*;
use crate::helpers::{Asset, AssetType, NATIVE_DENOM};
use crate::state::AirdropCampaign;

verus! {

pub struct InstantiateMsg {
    pub max_batch_size: u64,
    pub fee_per_batch: u128,
}

pub enum ExecuteMsg {
    SetOperators { operators: Vec<String>, is_operators: Vec<bool> },
    CreateAirdropCampaign { campaign_id: String, assets: Vec<Asset>, starting_time: u64 },
    UpdateCampaign { campaign_id: String, assets: Vec<Asset>, starting_time: u64 },
    Airdrop { campaign_id: String, asset_indexes: Vec<u64>, recipients: Vec<String> },
    WithdrawAirdropFee { recipient: String },
}

pub enum QueryMsg {
    EstimateAirdropFee { num_assets: u64 },
    GetCampaignById { campaign_id: String },
}

/// The answer to a query, to be serialized by the host glue.
pub enum QueryAnswer {
    Fee(u128),
    Campaign(AirdropCampaign),
}

/// One outbound instruction, to be executed by the host atomically with the
/// call that emitted it, in emission order.
#[derive(Debug, PartialEq, Eq)]
pub enum TransferInstruction {
    /// Move a fungible amount from the campaign creator to the recipient,
    /// through the token contract's transfer-on-behalf call.
    Cw20TransferFrom { token_address: String, owner: String, recipient: String, amount: u128 },
    /// Move the unique token `token_id` to the recipient.
    Cw721TransferNft { token_address: String, token_id: String, recipient: String },
    /// Move a semi-fungible amount of `token_id` from the campaign creator
    /// to the recipient.
    Cw1155SendFrom {
        token_address: String,
        from: String,
        to: String,
        token_id: String,
        value: u128,
    },
    /// Send native currency held by the contract: fee refunds and fee
    /// withdrawal.
    NativeSend { to_address: String, denom: String, amount: u128 },
}

/// The instruction a native-currency refund or withdrawal must equal: a
/// send of `amount` in the native denomination to `to`.
pub open spec fn is_native_send(instr: TransferInstruction, to: String, amount: u128) -> bool {
    match instr {
        TransferInstruction::NativeSend { to_address, denom, amount: a } => {
            &&& to_address == to
            &&& denom@ == NATIVE_DENOM@
            &&& a == amount
        },
        _ => false,
    }
}

/// The transfer instruction that distributing `asset` to `recipient` emits,
/// for a campaign owned by `creator`: the shape is dispatched on the asset
/// type, and the amount is the asset's current available amount.
pub open spec fn instr_for_asset(creator: String, asset: Asset, recipient: String)
    -> TransferInstruction {
    match asset.asset_type {
        AssetType::CW20 => TransferInstruction::Cw20TransferFrom {
            token_address: asset.asset_address,
            owner: creator,
            recipient,
            amount: asset.available_amount,
        },
        AssetType::CW721 => TransferInstruction::Cw721TransferNft {
            token_address: asset.asset_address,
            token_id: asset.asset_id,
            recipient,
        },
        AssetType::CW1155 => TransferInstruction::Cw1155SendFrom {
            token_address: asset.asset_address,
            from: creator,
            to: recipient,
            token_id: asset.asset_id,
            value: asset.available_amount,
        },
    }
}

} // verus!
