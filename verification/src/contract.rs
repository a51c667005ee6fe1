//! The entry points of the airdrop engine: instantiation, the execute
//! variants (operator registry, campaign lifecycle, distribution, fee
//! withdrawal) and the queries.
//!
//! Every operation is a pure transition on an explicit [`ContractState`]
//! handle.  It returns the outbound transfer instructions the host must
//! execute atomically with the state change, or an error, in which case the
//! state is left untouched.

use vstd::prelude::*;
use crate::error::PlaylinkAirdropErr;
use crate::fee::{compute_fee, spec_fee};
use crate::helpers::{
    all_assets_valid, asset_valid, lemma_sum_remove, lemma_sum_update, native_denom_string,
    native_payment, spec_native_payment, sum_amounts, total_amount, Asset, AssetType, Coin,
    NATIVE_DENOM,
};
use crate::msg::{
    instr_for_asset, is_native_send, ExecuteMsg, InstantiateMsg, QueryAnswer, QueryMsg,
    TransferInstruction,
};
use crate::state::{
    campaign_ids_unique, find_campaign_index, find_operator_index, lemma_registry_push,
    lemma_registry_update, operator_addrs_unique, seq_has_campaign, seq_operator_flag,
    AirdropCampaign, AirdropPlatform, ContractState, OperatorEntry,
};

verus! {

/// The required fee for `num_assets` assets under `pre`'s platform
/// configuration.
pub open spec fn state_fee(pre: ContractState, num_assets: nat) -> nat {
    spec_fee(num_assets, pre.platform.max_batch_size as nat, pre.platform.fee_per_batch as nat)
}

pub open spec fn instantiate_post(
    sender: String,
    msg: InstantiateMsg,
    r: Result<ContractState, PlaylinkAirdropErr>,
) -> bool {
    if msg.max_batch_size == 0 {
        r == Err::<ContractState, PlaylinkAirdropErr>(
            PlaylinkAirdropErr::InvalidMaxBatchSize { size: 0u64 },
        )
    } else {
        match r {
            Ok(state) => {
                &&& state.platform.admin == sender
                &&& state.platform.max_batch_size == msg.max_batch_size
                &&& state.platform.fee_per_batch == msg.fee_per_batch
                &&& state.campaigns@.len() == 0
                &&& state.operators@.len() == 0
                &&& state.wf()
            },
            Err(_) => false,
        }
    }
}

/// Creates the platform configuration: the caller becomes the admin, and
/// both stores start empty.  A zero maximum batch size is rejected, so the
/// fee formula never divides by zero.
pub fn instantiate(sender: String, msg: InstantiateMsg) -> (r: Result<
    ContractState,
    PlaylinkAirdropErr,
>)
    ensures
        instantiate_post(sender, msg, r),
{
    if msg.max_batch_size == 0 {
        return Err(PlaylinkAirdropErr::InvalidMaxBatchSize { size: 0 });
    }
    Ok(
        ContractState {
            platform: AirdropPlatform {
                admin: sender,
                max_batch_size: msg.max_batch_size,
                fee_per_batch: msg.fee_per_batch,
            },
            campaigns: Vec::new(),
            operators: Vec::new(),
        },
    )
}

/// The fee owed for distributing `num_assets` assets:
/// `ceil(num_assets / max_batch_size) * fee_per_batch`, exactly.
pub fn estimate_airdrop_fee(state: &ContractState, num_assets: u64) -> (r: u128)
    requires
        state.wf(),
        state_fee(*state, num_assets as nat) <= u128::MAX,
    ensures
        r as nat == state_fee(*state, num_assets as nat),
{
    compute_fee(state.platform.max_batch_size, state.platform.fee_per_batch, num_assets)
}

/// Field-by-field equality of two campaigns, comparing the asset lists by
/// their contents.
pub open spec fn campaign_equiv(a: AirdropCampaign, b: AirdropCampaign) -> bool {
    &&& a.campaign_id == b.campaign_id
    &&& a.creator == b.creator
    &&& a.assets@ == b.assets@
    &&& a.max_batch_size == b.max_batch_size
    &&& a.starting_time == b.starting_time
    &&& a.total_available_assets == b.total_available_assets
    &&& a.airdrop_fee == b.airdrop_fee
}

pub open spec fn get_campaign_post(
    pre: ContractState,
    campaign_id: String,
    r: Result<AirdropCampaign, PlaylinkAirdropErr>,
) -> bool {
    if pre.has_campaign(campaign_id@) {
        match r {
            Ok(c) => campaign_equiv(c, pre.get_campaign(campaign_id@)),
            Err(_) => false,
        }
    } else {
        r == Err::<AirdropCampaign, PlaylinkAirdropErr>(
            PlaylinkAirdropErr::CampaignNotExists { campaign_id },
        )
    }
}

/// Returns a copy of the stored campaign, or `CampaignNotExists` exactly
/// when no campaign has this identifier.
pub fn get_campaign_by_id(state: &ContractState, campaign_id: String) -> (r: Result<
    AirdropCampaign,
    PlaylinkAirdropErr,
>)
    requires
        state.wf(),
    ensures
        get_campaign_post(*state, campaign_id, r),
{
    match find_campaign_index(&state.campaigns, &campaign_id) {
        Some(i) => Ok(state.campaigns[i].clone()),
        None => Err(PlaylinkAirdropErr::CampaignNotExists { campaign_id }),
    }
}

pub open spec fn withdraw_post(
    pre: ContractState,
    sender: String,
    recipient: String,
    contract_balance: u128,
    r: Result<Vec<TransferInstruction>, PlaylinkAirdropErr>,
) -> bool {
    if sender@ != pre.platform.admin@ {
        r == Err::<Vec<TransferInstruction>, PlaylinkAirdropErr>(
            PlaylinkAirdropErr::NotAdmin { account: sender },
        )
    } else {
        match r {
            Ok(instrs) => {
                &&& instrs@.len() == 1
                &&& is_native_send(instrs@[0], recipient, contract_balance)
            },
            Err(_) => false,
        }
    }
}

/// Admin-only fee withdrawal: emits one instruction moving the contract's
/// whole native-currency balance (passed in by the host) to the recipient,
/// leaving the contract balance at zero once the host executes it.  Any
/// other caller fails with `NotAdmin` and nothing is emitted.
pub fn withdraw_airdrop_fee(
    state: &ContractState,
    sender: String,
    recipient: String,
    contract_balance: u128,
) -> (r: Result<Vec<TransferInstruction>, PlaylinkAirdropErr>)
    requires
        state.wf(),
    ensures
        withdraw_post(*state, sender, recipient, contract_balance, r),
{
    if !(sender == state.platform.admin) {
        return Err(PlaylinkAirdropErr::NotAdmin { account: sender });
    }
    let mut instrs: Vec<TransferInstruction> = Vec::new();
    instrs.push(
        TransferInstruction::NativeSend {
            to_address: recipient,
            denom: native_denom_string(),
            amount: contract_balance,
        },
    );
    Ok(instrs)
}

/// The typed validation error for a malformed asset.
pub open spec fn invalid_asset_error(a: Asset) -> PlaylinkAirdropErr {
    if a.asset_type == AssetType::CW20 {
        PlaylinkAirdropErr::InvalidAssetId { asset_id: a.asset_id }
    } else {
        PlaylinkAirdropErr::InvalidAssetAmount { asset_amount: a.available_amount }
    }
}

/// `e` is the validation error for the first malformed asset in the list.
pub open spec fn is_first_invalid_err(assets: Seq<Asset>, e: PlaylinkAirdropErr) -> bool {
    exists|j: int|
        0 <= j < assets.len() && !asset_valid(#[trigger] assets[j]) && (forall|k: int|
            0 <= k < j ==> asset_valid(#[trigger] assets[k])) && e == invalid_asset_error(
            assets[j],
        )
}

/// Checks every asset's shape, in order, and reports the first violation.
fn validate_assets(assets: &Vec<Asset>) -> (r: Result<(), PlaylinkAirdropErr>)
    ensures
        match r {
            Ok(_) => all_assets_valid(assets@),
            Err(e) => !all_assets_valid(assets@) && is_first_invalid_err(assets@, e),
        },
{
    let empty = String::new();
    let mut j: usize = 0;
    while j < assets.len()
        invariant
            0 <= j <= assets@.len(),
            empty@ == Seq::<char>::empty(),
            forall|k: int| 0 <= k < j ==> asset_valid(#[trigger] assets@[k]),
        decreases assets@.len() - j,
    {
        let a = &assets[j];
        match a.asset_type {
            AssetType::CW20 => {
                if !(a.asset_id == empty) {
                    let e = PlaylinkAirdropErr::InvalidAssetId { asset_id: a.asset_id.clone() };
                    proof {
                        assert(!asset_valid(assets@[j as int]));
                        assert(e == invalid_asset_error(assets@[j as int]));
                    }
                    return Err(e);
                }
            },
            AssetType::CW721 => {
                if a.available_amount != 1 {
                    let e = PlaylinkAirdropErr::InvalidAssetAmount {
                        asset_amount: a.available_amount,
                    };
                    proof {
                        assert(!asset_valid(assets@[j as int]));
                        assert(e == invalid_asset_error(assets@[j as int]));
                    }
                    return Err(e);
                }
            },
            AssetType::CW1155 => {},
        }
        j = j + 1;
    }
    Ok(())
}

/// The attached payment does not cover `fee`, in the native denomination.
pub open spec fn is_insufficient_fee_err(
    r: Result<Vec<TransferInstruction>, PlaylinkAirdropErr>,
    fee: nat,
) -> bool {
    match r {
        Err(PlaylinkAirdropErr::InsufficientAirdropFee { fee: f, denom }) => {
            &&& f as nat == fee
            &&& denom@ == NATIVE_DENOM@
        },
        _ => false,
    }
}

/// The campaign snapshot that a create or update persists: the inputs as
/// given, the platform's current maximum batch size, the recomputed asset
/// total and the recomputed fee.
pub open spec fn campaign_snapshot(
    pre: ContractState,
    sender: String,
    campaign_id: String,
    assets: Vec<Asset>,
    starting_time: u64,
    fee: nat,
) -> AirdropCampaign {
    AirdropCampaign {
        campaign_id,
        creator: sender,
        assets,
        max_batch_size: pre.platform.max_batch_size,
        starting_time,
        total_available_assets: sum_amounts(assets@) as u128,
        airdrop_fee: fee as u128,
    }
}

pub open spec fn create_post(
    pre: ContractState,
    post: ContractState,
    now: u64,
    sender: String,
    funds: Seq<Coin>,
    campaign_id: String,
    assets: Vec<Asset>,
    starting_time: u64,
    r: Result<Vec<TransferInstruction>, PlaylinkAirdropErr>,
) -> bool {
    let fee = state_fee(pre, assets@.len());
    let payment = spec_native_payment(funds) as nat;
    if pre.has_campaign(campaign_id@) {
        &&& post == pre
        &&& r == Err::<Vec<TransferInstruction>, PlaylinkAirdropErr>(
            PlaylinkAirdropErr::CampaignAlreadyCreated { campaign_id },
        )
    } else if payment < fee {
        &&& post == pre
        &&& is_insufficient_fee_err(r, fee)
    } else if now >= starting_time {
        &&& post == pre
        &&& r == Err::<Vec<TransferInstruction>, PlaylinkAirdropErr>(
            PlaylinkAirdropErr::LowStartingTime {},
        )
    } else if !all_assets_valid(assets@) {
        match r {
            Ok(_) => false,
            Err(e) => post == pre && is_first_invalid_err(assets@, e),
        }
    } else {
        match r {
            Ok(instrs) => {
                &&& post.platform == pre.platform
                &&& post.operators == pre.operators
                &&& post.campaigns@ == pre.campaigns@.push(
                    campaign_snapshot(pre, sender, campaign_id, assets, starting_time, fee),
                )
                &&& if payment > fee {
                    instrs@.len() == 1 && is_native_send(
                        instrs@[0],
                        sender,
                        (payment - fee) as u128,
                    )
                } else {
                    instrs@.len() == 0
                }
            },
            Err(_) => false,
        }
    }
}

/// Registers a new campaign: the identifier must be fresh, the attached
/// native payment must cover the estimated fee (any excess is refunded to
/// the sender in the same response), the starting time must be strictly in
/// the future, and every asset must be well-shaped.  On success the
/// persisted snapshot carries the recomputed asset total and fee.
///
/// A call with an insufficient payment always fails and leaves the store
/// unchanged.
pub fn create_airdrop_campaign(
    state: &mut ContractState,
    now: u64,
    sender: String,
    funds: Vec<Coin>,
    campaign_id: String,
    assets: Vec<Asset>,
    starting_time: u64,
) -> (r: Result<Vec<TransferInstruction>, PlaylinkAirdropErr>)
    requires
        old(state).wf(),
        state_fee(*old(state), assets@.len()) <= u128::MAX,
        sum_amounts(assets@) <= u128::MAX,
    ensures
        final(state).wf(),
        create_post(
            *old(state),
            *final(state),
            now,
            sender,
            funds@,
            campaign_id,
            assets,
            starting_time,
            r,
        ),
        spec_native_payment(funds@) < state_fee(*old(state), assets@.len()) ==> r is Err
            && *final(state) == *old(state),
{
    if find_campaign_index(&state.campaigns, &campaign_id).is_some() {
        return Err(PlaylinkAirdropErr::CampaignAlreadyCreated { campaign_id });
    }
    let fee = compute_fee(
        state.platform.max_batch_size,
        state.platform.fee_per_batch,
        assets.len() as u64,
    );
    let payment = native_payment(&funds);
    if payment < fee {
        return Err(
            PlaylinkAirdropErr::InsufficientAirdropFee { fee, denom: native_denom_string() },
        );
    }
    if now >= starting_time {
        return Err(PlaylinkAirdropErr::LowStartingTime {});
    }
    match validate_assets(&assets) {
        Ok(_) => {},
        Err(e) => {
            return Err(e);
        },
    }
    let total = total_amount(&assets);
    let mut instrs: Vec<TransferInstruction> = Vec::new();
    if payment > fee {
        instrs.push(
            TransferInstruction::NativeSend {
                to_address: sender.clone(),
                denom: native_denom_string(),
                amount: payment - fee,
            },
        );
    }
    let campaign = AirdropCampaign {
        campaign_id,
        creator: sender,
        assets,
        max_batch_size: state.platform.max_batch_size,
        starting_time,
        total_available_assets: total,
        airdrop_fee: fee,
    };
    let ghost pre_cs = state.campaigns@;
    let ghost new_c = campaign;
    state.campaigns.push(campaign);
    proof {
        assert(forall|m: int|
            0 <= m < pre_cs.len() ==> (#[trigger] pre_cs[m]).campaign_id@ != new_c.campaign_id@);
        assert(forall|m: int|
            0 <= m < pre_cs.len() ==> #[trigger] state.campaigns@[m] == pre_cs[m]);
        assert(state.campaigns@[pre_cs.len() as int] == new_c);
        assert(campaign_ids_unique(state.campaigns@));
    }
    Ok(instrs)
}

pub open spec fn update_post(
    pre: ContractState,
    post: ContractState,
    now: u64,
    sender: String,
    funds: Seq<Coin>,
    campaign_id: String,
    assets: Vec<Asset>,
    starting_time: u64,
    r: Result<Vec<TransferInstruction>, PlaylinkAirdropErr>,
) -> bool {
    if !pre.has_campaign(campaign_id@) {
        &&& post == pre
        &&& r == Err::<Vec<TransferInstruction>, PlaylinkAirdropErr>(
            PlaylinkAirdropErr::CampaignNotExists { campaign_id },
        )
    } else {
        let c = pre.get_campaign(campaign_id@);
        let new_fee = state_fee(pre, assets@.len());
        let old_fee = c.airdrop_fee as nat;
        let payment = spec_native_payment(funds) as nat;
        let owed: nat = if new_fee > old_fee { (new_fee - old_fee) as nat } else { 0 };
        if sender@ != c.creator@ {
            &&& post == pre
            &&& r == Err::<Vec<TransferInstruction>, PlaylinkAirdropErr>(
                PlaylinkAirdropErr::NotCampaignCreator { campaign_creator: c.creator },
            )
        } else if now >= c.starting_time {
            &&& post == pre
            &&& r == Err::<Vec<TransferInstruction>, PlaylinkAirdropErr>(
                PlaylinkAirdropErr::UpdateNotAllowed { starting_time: c.starting_time },
            )
        } else if payment < owed {
            &&& post == pre
            &&& is_insufficient_fee_err(r, owed)
        } else if now >= starting_time {
            &&& post == pre
            &&& r == Err::<Vec<TransferInstruction>, PlaylinkAirdropErr>(
                PlaylinkAirdropErr::LowStartingTime {},
            )
        } else if !all_assets_valid(assets@) {
            match r {
                Ok(_) => false,
                Err(e) => post == pre && is_first_invalid_err(assets@, e),
            }
        } else {
            let refund = payment + old_fee - new_fee;
            match r {
                Ok(instrs) => {
                    &&& post.platform == pre.platform
                    &&& post.operators == pre.operators
                    &&& post.campaigns@ == pre.campaigns@.update(
                        pre.campaign_index(campaign_id@),
                        campaign_snapshot(pre, sender, campaign_id, assets, starting_time, new_fee),
                    )
                    &&& if refund > 0 {
                        instrs@.len() == 1 && is_native_send(instrs@[0], sender, refund as u128)
                    } else {
                        instrs@.len() == 0
                    }
                },
                Err(_) => false,
            }
        }
    }
}

/// Replaces a stored campaign wholesale: only its creator may update, and
/// only strictly before the stored starting time.  The fee is recomputed
/// for the new asset list; a fee increase must be covered by the attached
/// payment, while a fee decrease and any excess payment are refunded to
/// the caller in one combined transfer.  The new snapshot fully replaces
/// the old one, including every available amount.
///
/// Once the stored starting time has passed the call always fails,
/// whoever the caller is, and the store is unchanged.
pub fn update_campaign(
    state: &mut ContractState,
    now: u64,
    sender: String,
    funds: Vec<Coin>,
    campaign_id: String,
    assets: Vec<Asset>,
    starting_time: u64,
) -> (r: Result<Vec<TransferInstruction>, PlaylinkAirdropErr>)
    requires
        old(state).wf(),
        state_fee(*old(state), assets@.len()) <= u128::MAX,
        sum_amounts(assets@) <= u128::MAX,
        old(state).has_campaign(campaign_id@) ==> spec_native_payment(funds@) as nat + old(
            state,
        ).get_campaign(campaign_id@).airdrop_fee as nat <= u128::MAX,
    ensures
        final(state).wf(),
        update_post(
            *old(state),
            *final(state),
            now,
            sender,
            funds@,
            campaign_id,
            assets,
            starting_time,
            r,
        ),
        old(state).has_campaign(campaign_id@) && now >= old(state).get_campaign(
            campaign_id@,
        ).starting_time ==> r is Err && *final(state) == *old(state),
{
    let i = match find_campaign_index(&state.campaigns, &campaign_id) {
        Some(i) => i,
        None => {
            return Err(PlaylinkAirdropErr::CampaignNotExists { campaign_id });
        },
    };
    if !(sender == state.campaigns[i].creator) {
        return Err(
            PlaylinkAirdropErr::NotCampaignCreator {
                campaign_creator: state.campaigns[i].creator.clone(),
            },
        );
    }
    if now >= state.campaigns[i].starting_time {
        return Err(
            PlaylinkAirdropErr::UpdateNotAllowed {
                starting_time: state.campaigns[i].starting_time,
            },
        );
    }
    let new_fee = compute_fee(
        state.platform.max_batch_size,
        state.platform.fee_per_batch,
        assets.len() as u64,
    );
    let old_fee = state.campaigns[i].airdrop_fee;
    let payment = native_payment(&funds);
    let owed: u128 = if new_fee > old_fee {
        new_fee - old_fee
    } else {
        0
    };
    if payment < owed {
        return Err(
            PlaylinkAirdropErr::InsufficientAirdropFee {
                fee: owed,
                denom: native_denom_string(),
            },
        );
    }
    if now >= starting_time {
        return Err(PlaylinkAirdropErr::LowStartingTime {});
    }
    match validate_assets(&assets) {
        Ok(_) => {},
        Err(e) => {
            return Err(e);
        },
    }
    let refund: u128 = if new_fee >= old_fee {
        payment - (new_fee - old_fee)
    } else {
        payment + (old_fee - new_fee)
    };
    let total = total_amount(&assets);
    let mut instrs: Vec<TransferInstruction> = Vec::new();
    if refund > 0 {
        instrs.push(
            TransferInstruction::NativeSend {
                to_address: sender.clone(),
                denom: native_denom_string(),
                amount: refund,
            },
        );
    }
    let campaign = AirdropCampaign {
        campaign_id,
        creator: sender,
        assets,
        max_batch_size: state.platform.max_batch_size,
        starting_time,
        total_available_assets: total,
        airdrop_fee: new_fee,
    };
    let ghost pre_cs = state.campaigns@;
    let ghost new_c = campaign;
    let old_c = state.campaigns.remove(i);
    state.campaigns.insert(i, campaign);
    proof {
        assert(state.campaigns@ =~= pre_cs.update(i as int, new_c));
        assert(forall|m: int|
            0 <= m < pre_cs.len() && m != i as int ==> #[trigger] state.campaigns@[m]
                == pre_cs[m]);
        assert(state.campaigns@[i as int] == new_c);
        assert(new_c.campaign_id@ == old_c.campaign_id@);
        assert(campaign_ids_unique(state.campaigns@));
    }
    Ok(instrs)
}

/// `a` with its available amount spent.
pub open spec fn zeroed(a: Asset) -> Asset {
    Asset { available_amount: 0, ..a }
}

/// The asset list after processing the first `k` batch entries: each
/// processed index has its available amount zeroed, in input order, so a
/// repeated index is zeroed again with no further effect.
pub open spec fn zero_prefix(assets: Seq<Asset>, idxs: Seq<u64>, k: int) -> Seq<Asset>
    decreases k,
{
    if k <= 0 {
        assets
    } else {
        let prev = zero_prefix(assets, idxs, k - 1);
        prev.update(idxs[k - 1] as int, zeroed(prev[idxs[k - 1] as int]))
    }
}

pub proof fn lemma_zero_prefix_len(assets: Seq<Asset>, idxs: Seq<u64>, k: int)
    requires
        0 <= k <= idxs.len(),
        forall|m: int| 0 <= m < k ==> ((#[trigger] idxs[m]) as int) < assets.len(),
    ensures
        zero_prefix(assets, idxs, k).len() == assets.len(),
    decreases k,
{
    if k > 0 {
        lemma_zero_prefix_len(assets, idxs, k - 1);
    }
}

/// `r` is the out-of-bounds error for the first offending index.
pub open spec fn first_oob_err(
    idxs: Seq<u64>,
    n_assets: int,
    r: Result<Vec<TransferInstruction>, PlaylinkAirdropErr>,
) -> bool {
    exists|j: int|
        #![trigger idxs[j]]
        {
            &&& 0 <= j < idxs.len()
            &&& idxs[j] as int >= n_assets
            &&& forall|k: int| 0 <= k < j ==> ((#[trigger] idxs[k]) as int) < n_assets
            &&& r == Err::<Vec<TransferInstruction>, PlaylinkAirdropErr>(
                PlaylinkAirdropErr::IndexOutOfBound { index: idxs[j] },
            )
        }
}

/// The stored campaign after a successful distribution: same identity and
/// parameters, the asset list with the processed amounts zeroed, and the
/// aggregate total recomputed over it.
pub open spec fn campaign_after_airdrop(
    c: AirdropCampaign,
    post_c: AirdropCampaign,
    final_assets: Seq<Asset>,
) -> bool {
    &&& post_c.campaign_id == c.campaign_id
    &&& post_c.creator == c.creator
    &&& post_c.assets@ == final_assets
    &&& post_c.max_batch_size == c.max_batch_size
    &&& post_c.starting_time == c.starting_time
    &&& post_c.total_available_assets as nat == sum_amounts(final_assets)
    &&& post_c.airdrop_fee == c.airdrop_fee
}

/// A successful distribution: one transfer instruction per (index,
/// recipient) pair in input order, each carrying the asset's amount at
/// that point of the batch; the campaign is re-persisted with the zeroed
/// amounts, or deleted outright when nothing is left to distribute.
pub open spec fn airdrop_ok(
    pre: ContractState,
    post: ContractState,
    campaign_id_v: Seq<char>,
    idxs: Seq<u64>,
    recipients: Seq<String>,
    instrs: Seq<TransferInstruction>,
) -> bool {
    let i = pre.campaign_index(campaign_id_v);
    let c = pre.get_campaign(campaign_id_v);
    let n = idxs.len() as int;
    let final_assets = zero_prefix(c.assets@, idxs, n);
    let new_total = sum_amounts(final_assets);
    &&& instrs.len() == n
    &&& forall|m: int|
        0 <= m < n ==> #[trigger] instrs[m] == instr_for_asset(
            c.creator,
            zero_prefix(c.assets@, idxs, m)[idxs[m] as int],
            recipients[m],
        )
    &&& post.platform == pre.platform
    &&& post.operators == pre.operators
    &&& if new_total > 0 {
        &&& post.campaigns@.len() == pre.campaigns@.len()
        &&& forall|m: int|
            0 <= m < pre.campaigns@.len() && m != i ==> #[trigger] post.campaigns@[m]
                == pre.campaigns@[m]
        &&& campaign_after_airdrop(c, post.campaigns@[i], final_assets)
    } else {
        &&& post.campaigns@ == pre.campaigns@.remove(i)
        &&& !seq_has_campaign(post.campaigns@, campaign_id_v)
    }
}

pub open spec fn airdrop_post(
    pre: ContractState,
    post: ContractState,
    now: u64,
    sender: String,
    campaign_id: String,
    asset_indexes: Vec<u64>,
    recipients: Vec<String>,
    r: Result<Vec<TransferInstruction>, PlaylinkAirdropErr>,
) -> bool {
    if !pre.is_operator(sender@) {
        &&& post == pre
        &&& r == Err::<Vec<TransferInstruction>, PlaylinkAirdropErr>(
            PlaylinkAirdropErr::NotOperator { account: sender },
        )
    } else if !pre.has_campaign(campaign_id@) {
        &&& post == pre
        &&& r == Err::<Vec<TransferInstruction>, PlaylinkAirdropErr>(
            PlaylinkAirdropErr::CampaignNotExists { campaign_id },
        )
    } else {
        let c = pre.get_campaign(campaign_id@);
        if now < c.starting_time {
            &&& post == pre
            &&& r == Err::<Vec<TransferInstruction>, PlaylinkAirdropErr>(
                PlaylinkAirdropErr::CampaignNotStarts { campaign_id },
            )
        } else if asset_indexes@.len() != recipients@.len() {
            &&& post == pre
            &&& r == Err::<Vec<TransferInstruction>, PlaylinkAirdropErr>(
                PlaylinkAirdropErr::LengthMismatch {},
            )
        } else if asset_indexes@.len() > c.max_batch_size {
            &&& post == pre
            &&& r == Err::<Vec<TransferInstruction>, PlaylinkAirdropErr>(
                PlaylinkAirdropErr::TooManyAssetsAirdropped {
                    num_assets: asset_indexes@.len() as u64,
                },
            )
        } else if exists|j: int|
            0 <= j < asset_indexes@.len() && (#[trigger] asset_indexes@[j]) as int
                >= c.assets@.len() {
            &&& post == pre
            &&& first_oob_err(asset_indexes@, c.assets@.len() as int, r)
        } else {
            match r {
                Ok(instrs) => airdrop_ok(
                    pre,
                    post,
                    campaign_id@,
                    asset_indexes@,
                    recipients@,
                    instrs@,
                ),
                Err(_) => false,
            }
        }
    }
}

/// Distributes a batch of assets to winners.  Only a registered operator
/// (flag `true`) may call, only on an existing campaign whose starting
/// time has been reached; the two input lists must pair up and fit the
/// campaign's batch size, and every index must be in bounds.  Each pair
/// emits exactly one transfer instruction shaped by the asset's type, the
/// asset's amount is zeroed, and the campaign is deleted the instant its
/// total reaches zero.
///
/// A call by a non-operator always fails and never mutates any state.
#[verifier::loop_isolation(false)]
pub fn airdrop(
    state: &mut ContractState,
    now: u64,
    sender: String,
    campaign_id: String,
    asset_indexes: Vec<u64>,
    recipients: Vec<String>,
) -> (r: Result<Vec<TransferInstruction>, PlaylinkAirdropErr>)
    requires
        old(state).wf(),
    ensures
        final(state).wf(),
        airdrop_post(
            *old(state),
            *final(state),
            now,
            sender,
            campaign_id,
            asset_indexes,
            recipients,
            r,
        ),
        !old(state).is_operator(sender@) ==> r is Err && *final(state) == *old(state),
{
    let authorized = match find_operator_index(&state.operators, &sender) {
        Some(oi) => state.operators[oi].is_operator,
        None => false,
    };
    if !authorized {
        return Err(PlaylinkAirdropErr::NotOperator { account: sender });
    }
    let i = match find_campaign_index(&state.campaigns, &campaign_id) {
        Some(i) => i,
        None => {
            return Err(PlaylinkAirdropErr::CampaignNotExists { campaign_id });
        },
    };
    if now < state.campaigns[i].starting_time {
        return Err(PlaylinkAirdropErr::CampaignNotStarts { campaign_id });
    }
    if asset_indexes.len() != recipients.len() {
        return Err(PlaylinkAirdropErr::LengthMismatch {});
    }
    if asset_indexes.len() as u64 > state.campaigns[i].max_batch_size {
        return Err(
            PlaylinkAirdropErr::TooManyAssetsAirdropped {
                num_assets: asset_indexes.len() as u64,
            },
        );
    }
    let n_assets = state.campaigns[i].assets.len();
    let mut k: usize = 0;
    while k < asset_indexes.len()
        invariant
            0 <= k <= asset_indexes@.len(),
            n_assets as int == old(state).get_campaign(campaign_id@).assets@.len(),
            forall|m: int| 0 <= m < k ==> ((#[trigger] asset_indexes@[m]) as int) < n_assets as int,
        decreases asset_indexes@.len() - k,
    {
        if asset_indexes[k] >= n_assets as u64 {
            let e = PlaylinkAirdropErr::IndexOutOfBound { index: asset_indexes[k] };
            proof {
                let idxs = asset_indexes@;
                let n = old(state).get_campaign(campaign_id@).assets@.len() as int;
                assert(0 <= (k as int) < idxs.len());
                assert((idxs[k as int] as int) >= n);
                assert(forall|m: int| 0 <= m < k as int ==> ((#[trigger] idxs[m]) as int) < n);
                assert(first_oob_err(idxs, n, Err(e)));
            }
            return Err(e);
        }
        k = k + 1;
    }
    let ghost pre_cs = state.campaigns@;
    let mut campaign = state.campaigns.remove(i);
    let ghost c0 = campaign;
    let mut instrs: Vec<TransferInstruction> = Vec::new();
    let mut k: usize = 0;
    while k < asset_indexes.len()
        invariant
            0 <= k <= asset_indexes@.len(),
            asset_indexes@.len() == recipients@.len(),
            n_assets as int == c0.assets@.len(),
            forall|m: int|
                0 <= m < asset_indexes@.len() ==> ((#[trigger] asset_indexes@[m]) as int)
                    < c0.assets@.len(),
            campaign.assets@ == zero_prefix(c0.assets@, asset_indexes@, k as int),
            campaign.assets@.len() == c0.assets@.len(),
            campaign.total_available_assets as nat == sum_amounts(campaign.assets@),
            campaign.campaign_id == c0.campaign_id,
            campaign.creator == c0.creator,
            campaign.max_batch_size == c0.max_batch_size,
            campaign.starting_time == c0.starting_time,
            campaign.airdrop_fee == c0.airdrop_fee,
            instrs@.len() == k,
            forall|m: int|
                0 <= m < k ==> #[trigger] instrs@[m] == instr_for_asset(
                    c0.creator,
                    zero_prefix(c0.assets@, asset_indexes@, m)[asset_indexes@[m] as int],
                    recipients@[m],
                ),
        decreases asset_indexes@.len() - k,
    {
        let j = asset_indexes[k] as usize;
        let ghost cur_assets = campaign.assets@;
        let mut a = campaign.assets.remove(j);
        let recipient = recipients[k].clone();
        let instr = match a.asset_type {
            AssetType::CW20 => TransferInstruction::Cw20TransferFrom {
                token_address: a.asset_address.clone(),
                owner: campaign.creator.clone(),
                recipient,
                amount: a.available_amount,
            },
            AssetType::CW721 => TransferInstruction::Cw721TransferNft {
                token_address: a.asset_address.clone(),
                token_id: a.asset_id.clone(),
                recipient,
            },
            AssetType::CW1155 => TransferInstruction::Cw1155SendFrom {
                token_address: a.asset_address.clone(),
                from: campaign.creator.clone(),
                to: recipient,
                token_id: a.asset_id.clone(),
                value: a.available_amount,
            },
        };
        let ghost instr_val = instr;
        instrs.push(instr);
        proof {
            lemma_sum_remove(cur_assets, j as int);
        }
        campaign.total_available_assets = campaign.total_available_assets - a.available_amount;
        a.available_amount = 0;
        campaign.assets.insert(j, a);
        proof {
            let zj = zeroed(cur_assets[j as int]);
            assert(campaign.assets@ =~= cur_assets.update(j as int, zj));
            lemma_sum_update(cur_assets, j as int, zj);
            assert(zero_prefix(c0.assets@, asset_indexes@, k as int + 1) == campaign.assets@);
            assert(instr_val == instr_for_asset(
                c0.creator,
                cur_assets[j as int],
                recipients@[k as int],
            ));
        }
        k = k + 1;
    }
    proof {
        assert(zero_prefix(c0.assets@, asset_indexes@, asset_indexes@.len() as int)
            == campaign.assets@);
    }
    if campaign.total_available_assets > 0 {
        let ghost final_c = campaign;
        state.campaigns.insert(i, campaign);
        proof {
            assert(state.campaigns@ =~= pre_cs.update(i as int, final_c));
            assert(forall|m: int|
                0 <= m < pre_cs.len() && m != i as int ==> #[trigger] state.campaigns@[m]
                    == pre_cs[m]);
            assert(state.campaigns@[i as int] == final_c);
            assert(final_c.campaign_id@ == c0.campaign_id@);
            assert(campaign_ids_unique(state.campaigns@));
        }
    } else {
        proof {
            assert(state.campaigns@ == pre_cs.remove(i as int));
            assert forall|m1: int, m2: int| 0 <= m1 < m2 < state.campaigns@.len()
                implies (#[trigger] state.campaigns@[m1]).campaign_id@
                    != (#[trigger] state.campaigns@[m2]).campaign_id@ by {
                let o1: int = if m1 < i as int { m1 } else { m1 + 1 };
                let o2: int = if m2 < i as int { m2 } else { m2 + 1 };
                assert(state.campaigns@[m1] == pre_cs[o1]);
                assert(state.campaigns@[m2] == pre_cs[o2]);
            }
            assert forall|m: int| 0 <= m < state.campaigns@.len()
                implies (#[trigger] state.campaigns@[m]).campaign_id@ != campaign_id@ by {
                let o: int = if m < i as int { m } else { m + 1 };
                assert(state.campaigns@[m] == pre_cs[o]);
                assert(pre_cs[o].campaign_id@ != pre_cs[i as int].campaign_id@);
            }
            assert(!seq_has_campaign(state.campaigns@, campaign_id@));
        }
    }
    Ok(instrs)
}

/// No later entry of the first `t` addresses repeats the address at `k`.
pub open spec fn is_last_occurrence_before(addrs: Seq<String>, k: int, t: int) -> bool {
    forall|k2: int| k < k2 < t ==> (#[trigger] addrs[k2])@ != addrs[k]@
}

pub open spec fn is_last_occurrence(addrs: Seq<String>, k: int) -> bool {
    is_last_occurrence_before(addrs, k, addrs.len() as int)
}

/// `a` is not among the first `t` addresses.
pub open spec fn not_in_prefix(addrs: Seq<String>, a: Seq<char>, t: int) -> bool {
    forall|k: int| 0 <= k < t ==> (#[trigger] addrs[k])@ != a
}

/// The registry after writing the first `t` (address, flag) pairs in
/// order: each written key holds the flag of its last write, and every
/// other key is untouched.
pub open spec fn registry_after_writes(
    pre: Seq<OperatorEntry>,
    post: Seq<OperatorEntry>,
    addrs: Seq<String>,
    flags: Seq<bool>,
    t: int,
) -> bool {
    &&& forall|k: int|
        0 <= k < t && is_last_occurrence_before(addrs, k, t) ==> seq_operator_flag(
            post,
            (#[trigger] addrs[k])@,
        ) == Some(flags[k])
    &&& forall|a: Seq<char>|
        not_in_prefix(addrs, a, t) ==> #[trigger] seq_operator_flag(post, a)
            == seq_operator_flag(pre, a)
}

pub open spec fn set_operators_post(
    pre: ContractState,
    post: ContractState,
    sender: String,
    operators: Vec<String>,
    is_operators: Vec<bool>,
    r: Result<Vec<TransferInstruction>, PlaylinkAirdropErr>,
) -> bool {
    if sender@ != pre.platform.admin@ {
        &&& post == pre
        &&& r == Err::<Vec<TransferInstruction>, PlaylinkAirdropErr>(
            PlaylinkAirdropErr::NotAdmin { account: sender },
        )
    } else if operators@.len() != is_operators@.len() {
        &&& post == pre
        &&& r == Err::<Vec<TransferInstruction>, PlaylinkAirdropErr>(
            PlaylinkAirdropErr::LengthMismatch {},
        )
    } else {
        match r {
            Ok(instrs) => {
                &&& instrs@.len() == 0
                &&& post.platform == pre.platform
                &&& post.campaigns == pre.campaigns
                &&& registry_after_writes(
                    pre.operators@,
                    post.operators@,
                    operators@,
                    is_operators@,
                    operators@.len() as int,
                )
            },
            Err(_) => false,
        }
    }
}

/// Admin-only registry write: each (account, flag) pair is written in
/// input order, overwriting prior state; for a repeated account the last
/// pair wins, and unmentioned accounts keep their registration.
pub fn set_operators(
    state: &mut ContractState,
    sender: String,
    operators: Vec<String>,
    is_operators: Vec<bool>,
) -> (r: Result<Vec<TransferInstruction>, PlaylinkAirdropErr>)
    requires
        old(state).wf(),
    ensures
        final(state).wf(),
        set_operators_post(*old(state), *final(state), sender, operators, is_operators, r),
{
    if !(sender == state.platform.admin) {
        return Err(PlaylinkAirdropErr::NotAdmin { account: sender });
    }
    if operators.len() != is_operators.len() {
        return Err(PlaylinkAirdropErr::LengthMismatch {});
    }
    let mut t: usize = 0;
    while t < operators.len()
        invariant
            0 <= t <= operators@.len(),
            operators@.len() == is_operators@.len(),
            state.platform == old(state).platform,
            state.campaigns == old(state).campaigns,
            old(state).wf(),
            operator_addrs_unique(state.operators@),
            registry_after_writes(
                old(state).operators@,
                state.operators@,
                operators@,
                is_operators@,
                t as int,
            ),
        decreases operators@.len() - t,
    {
        let flag = is_operators[t];
        let ghost prev_ops = state.operators@;
        match find_operator_index(&state.operators, &operators[t]) {
            Some(i) => {
                let mut e = state.operators.remove(i);
                e.is_operator = flag;
                let ghost e_val = e;
                state.operators.insert(i, e);
                proof {
                    assert(state.operators@ =~= prev_ops.update(i as int, e_val));
                    lemma_registry_update(prev_ops, i as int, e_val);
                }
            },
            None => {
                let e = OperatorEntry { address: operators[t].clone(), is_operator: flag };
                let ghost e_val = e;
                state.operators.push(e);
                proof {
                    lemma_registry_push(prev_ops, e_val);
                }
            },
        }
        proof {
            let addrs = operators@;
            let flags = is_operators@;
            let pre0 = old(state).operators@;
            let now_ops = state.operators@;
            let addr_t = addrs[t as int]@;
            assert(seq_operator_flag(now_ops, addr_t) == Some(flags[t as int]));
            assert forall|k: int|
                0 <= k < t as int + 1 && is_last_occurrence_before(addrs, k, t as int + 1)
                    implies seq_operator_flag(now_ops, (#[trigger] addrs[k])@)
                    == Some(flags[k]) by {
                if k == t as int {
                } else {
                    assert(addrs[t as int]@ != addrs[k]@);
                    assert(is_last_occurrence_before(addrs, k, t as int));
                    assert(seq_operator_flag(prev_ops, addrs[k]@) == Some(flags[k]));
                    assert(seq_operator_flag(now_ops, addrs[k]@) == seq_operator_flag(
                        prev_ops,
                        addrs[k]@,
                    ));
                }
            }
            assert forall|a: Seq<char>| not_in_prefix(addrs, a, t as int + 1)
                implies #[trigger] seq_operator_flag(now_ops, a) == seq_operator_flag(
                pre0,
                a,
            ) by {
                assert(addrs[t as int]@ != a);
                assert(not_in_prefix(addrs, a, t as int));
                assert(seq_operator_flag(now_ops, a) == seq_operator_flag(prev_ops, a));
            }
        }
        t = t + 1;
    }
    Ok(Vec::new())
}

/// The machine-limit bounds a caller must establish before dispatching:
/// the recomputed fee, the asset total and the combined refund must fit in
/// the native-currency type.  The host glue checks them and aborts as the
/// unchecked arithmetic of the host would.
pub open spec fn execute_requires(pre: ContractState, funds: Seq<Coin>, msg: ExecuteMsg) -> bool {
    match msg {
        ExecuteMsg::CreateAirdropCampaign { campaign_id, assets, starting_time } => {
            &&& state_fee(pre, assets@.len()) <= u128::MAX
            &&& sum_amounts(assets@) <= u128::MAX
        },
        ExecuteMsg::UpdateCampaign { campaign_id, assets, starting_time } => {
            &&& state_fee(pre, assets@.len()) <= u128::MAX
            &&& sum_amounts(assets@) <= u128::MAX
            &&& pre.has_campaign(campaign_id@) ==> spec_native_payment(funds) as nat
                + pre.get_campaign(campaign_id@).airdrop_fee as nat <= u128::MAX
        },
        _ => true,
    }
}

pub open spec fn execute_post(
    pre: ContractState,
    post: ContractState,
    now: u64,
    sender: String,
    funds: Seq<Coin>,
    contract_balance: u128,
    msg: ExecuteMsg,
    r: Result<Vec<TransferInstruction>, PlaylinkAirdropErr>,
) -> bool {
    match msg {
        ExecuteMsg::SetOperators { operators, is_operators } => set_operators_post(
            pre,
            post,
            sender,
            operators,
            is_operators,
            r,
        ),
        ExecuteMsg::CreateAirdropCampaign { campaign_id, assets, starting_time } => create_post(
            pre,
            post,
            now,
            sender,
            funds,
            campaign_id,
            assets,
            starting_time,
            r,
        ),
        ExecuteMsg::UpdateCampaign { campaign_id, assets, starting_time } => update_post(
            pre,
            post,
            now,
            sender,
            funds,
            campaign_id,
            assets,
            starting_time,
            r,
        ),
        ExecuteMsg::Airdrop { campaign_id, asset_indexes, recipients } => airdrop_post(
            pre,
            post,
            now,
            sender,
            campaign_id,
            asset_indexes,
            recipients,
            r,
        ),
        ExecuteMsg::WithdrawAirdropFee { recipient } => {
            &&& post == pre
            &&& withdraw_post(pre, sender, recipient, contract_balance, r)
        },
    }
}

/// Dispatches an execute message to its operation.  `now` is the current
/// block time in seconds, `sender` the calling account, `funds` the coins
/// attached to the call, and `contract_balance` the contract's current
/// native-currency balance, queried by the host for the withdrawal
/// variant.
pub fn execute(
    state: &mut ContractState,
    now: u64,
    sender: String,
    funds: Vec<Coin>,
    contract_balance: u128,
    msg: ExecuteMsg,
) -> (r: Result<Vec<TransferInstruction>, PlaylinkAirdropErr>)
    requires
        old(state).wf(),
        execute_requires(*old(state), funds@, msg),
    ensures
        final(state).wf(),
        execute_post(*old(state), *final(state), now, sender, funds@, contract_balance, msg, r),
{
    match msg {
        ExecuteMsg::SetOperators { operators, is_operators } => set_operators(
            state,
            sender,
            operators,
            is_operators,
        ),
        ExecuteMsg::CreateAirdropCampaign { campaign_id, assets, starting_time } => {
            create_airdrop_campaign(state, now, sender, funds, campaign_id, assets, starting_time)
        },
        ExecuteMsg::UpdateCampaign { campaign_id, assets, starting_time } => {
            update_campaign(state, now, sender, funds, campaign_id, assets, starting_time)
        },
        ExecuteMsg::Airdrop { campaign_id, asset_indexes, recipients } => airdrop(
            state,
            now,
            sender,
            campaign_id,
            asset_indexes,
            recipients,
        ),
        ExecuteMsg::WithdrawAirdropFee { recipient } => withdraw_airdrop_fee(
            state,
            sender,
            recipient,
            contract_balance,
        ),
    }
}

pub open spec fn query_post(
    pre: ContractState,
    msg: QueryMsg,
    r: Result<QueryAnswer, PlaylinkAirdropErr>,
) -> bool {
    match msg {
        QueryMsg::EstimateAirdropFee { num_assets } => match r {
            Ok(QueryAnswer::Fee(f)) => f as nat == state_fee(pre, num_assets as nat),
            _ => false,
        },
        QueryMsg::GetCampaignById { campaign_id } => {
            if pre.has_campaign(campaign_id@) {
                match r {
                    Ok(QueryAnswer::Campaign(c)) => campaign_equiv(
                        c,
                        pre.get_campaign(campaign_id@),
                    ),
                    _ => false,
                }
            } else {
                r == Err::<QueryAnswer, PlaylinkAirdropErr>(
                    PlaylinkAirdropErr::CampaignNotExists { campaign_id },
                )
            }
        },
    }
}

/// Read-only queries: the fee estimate for a given asset count, and the
/// lookup of a stored campaign by identifier.
pub fn query(state: &ContractState, msg: QueryMsg) -> (r: Result<QueryAnswer, PlaylinkAirdropErr>)
    requires
        state.wf(),
        msg matches QueryMsg::EstimateAirdropFee { num_assets } ==> state_fee(
            *state,
            num_assets as nat,
        ) <= u128::MAX,
    ensures
        query_post(*state, msg, r),
{
    match msg {
        QueryMsg::EstimateAirdropFee { num_assets } => {
            Ok(QueryAnswer::Fee(estimate_airdrop_fee(state, num_assets)))
        },
        QueryMsg::GetCampaignById { campaign_id } => {
            match get_campaign_by_id(state, campaign_id) {
                Ok(c) => Ok(QueryAnswer::Campaign(c)),
                Err(e) => Err(e),
            }
        },
    }
}

} // verus!
