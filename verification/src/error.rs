//! The error taxonomy: authorization, validation, state, and payment
//! failures.  Every error aborts the whole call; the caller persists no
//! partial mutation.

use vstd::prelude::*;
use crate::helpers::AssetType;

verus! {

#[derive(Debug, PartialEq, Eq)]
pub enum PlaylinkAirdropErr {
    Unauthorized {},
    /// The caller is not the platform admin.
    NotAdmin { account: String },
    /// The caller is not registered as an operator with flag `true`.
    NotOperator { account: String },
    /// Two parallel input lists differ in length.
    LengthMismatch {},
    /// A campaign with this identifier already exists.
    CampaignAlreadyCreated { campaign_id: String },
    /// The attached native-currency payment does not cover the required fee.
    InsufficientAirdropFee { fee: u128, denom: String },
    /// The requested starting time is not strictly in the future.
    LowStartingTime {},
    /// An asset carries a type outside the known variants.
    InvalidAssetType { asset_type: AssetType },
    /// A CW20 asset carries a non-empty token identifier.
    InvalidAssetId { asset_id: String },
    /// A CW721 asset carries an available amount other than 1.
    InvalidAssetAmount { asset_amount: u128 },
    /// No campaign with this identifier exists.
    CampaignNotExists { campaign_id: String },
    /// The caller is not the creator of the campaign.
    NotCampaignCreator { campaign_creator: String },
    /// The campaign has started; it is frozen against updates.
    UpdateNotAllowed { starting_time: u64 },
    /// The campaign's starting time has not been reached yet.
    CampaignNotStarts { campaign_id: String },
    /// The batch exceeds the campaign's maximum batch size.
    TooManyAssetsAirdropped { num_assets: u64 },
    /// An asset index points past the end of the campaign's asset list.
    IndexOutOfBound { index: u64 },
    /// The platform's maximum batch size must be positive.
    InvalidMaxBatchSize { size: u64 },
}

} // verus!
