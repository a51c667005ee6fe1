//! Asset model: the typed description of a transferable unit, the coins a
//! caller can attach to a call, and the arithmetic over asset amounts.

use vstd::prelude::*;

verus! {

/// Denomination of the native currency in which airdrop fees are paid.
pub const NATIVE_DENOM: &'static str = "flavor";

/// The three kinds of transferable assets, each requiring a different
/// outbound transfer instruction.
#[derive(Clone, Copy, Debug, PartialEq, Eq, Structural)]
pub enum AssetType {
    CW20,
    CW721,
    CW1155,
}

/// One transferable unit owned by a campaign: its kind, the token contract
/// that holds it, the token identifier (meaningful for CW721 and CW1155),
/// and the quantity still available for distribution.
#[derive(Debug, PartialEq, Eq)]
pub struct Asset {
    pub asset_type: AssetType,
    pub asset_address: String,
    pub asset_id: String,
    pub available_amount: u128,
}

impl Clone for Asset {
    fn clone(&self) -> (res: Self)
        ensures
            res == *self,
    {
        Asset {
            asset_type: self.asset_type,
            asset_address: self.asset_address.clone(),
            asset_id: self.asset_id.clone(),
            available_amount: self.available_amount,
        }
    }
}

/// A native-currency amount attached to a call.
pub struct Coin {
    pub denom: String,
    pub amount: u128,
}

/// An asset is well-shaped when its type discriminates its fields: a CW20
/// asset carries no token identifier, and a CW721 asset is a unique token,
/// so its available amount is exactly 1.
pub open spec fn asset_valid(a: Asset) -> bool {
    &&& a.asset_type == AssetType::CW20 ==> a.asset_id@ == Seq::<char>::empty()
    &&& a.asset_type == AssetType::CW721 ==> a.available_amount == 1
}

pub open spec fn all_assets_valid(s: Seq<Asset>) -> bool {
    forall|i: int| 0 <= i < s.len() ==> asset_valid(#[trigger] s[i])
}

/// Sum of the available amounts of a list of assets.
pub open spec fn sum_amounts(s: Seq<Asset>) -> nat
    decreases s.len(),
{
    if s.len() == 0 {
        0
    } else {
        sum_amounts(s.drop_last()) + s.last().available_amount as nat
    }
}

pub proof fn lemma_sum_take_step(s: Seq<Asset>, k: int)
    requires
        0 <= k < s.len(),
    ensures
        sum_amounts(s.take(k + 1)) == sum_amounts(s.take(k)) + s[k].available_amount,
{
    assert(s.take(k + 1).drop_last() =~= s.take(k));
    assert(s.take(k + 1).last() == s[k]);
}

pub proof fn lemma_sum_take_le(s: Seq<Asset>, k: int)
    requires
        0 <= k <= s.len(),
    ensures
        sum_amounts(s.take(k)) <= sum_amounts(s),
    decreases s.len() - k,
{
    if k == s.len() {
        assert(s.take(k) =~= s);
    } else {
        lemma_sum_take_step(s, k);
        lemma_sum_take_le(s, k + 1);
    }
}

pub proof fn lemma_sum_take_full(s: Seq<Asset>)
    ensures
        sum_amounts(s.take(s.len() as int)) == sum_amounts(s),
{
    assert(s.take(s.len() as int) =~= s);
}

/// Removing the element at `j` decreases the sum by exactly that element's
/// amount.
pub proof fn lemma_sum_remove(s: Seq<Asset>, j: int)
    requires
        0 <= j < s.len(),
    ensures
        sum_amounts(s.remove(j)) + s[j].available_amount == sum_amounts(s),
    decreases s.len(),
{
    if j == s.len() - 1 {
        assert(s.remove(j) =~= s.drop_last());
    } else {
        assert(s.remove(j).drop_last() =~= s.drop_last().remove(j));
        assert(s.remove(j).last() == s.last());
        lemma_sum_remove(s.drop_last(), j);
    }
}

/// Every element's amount is bounded by the sum.
pub proof fn lemma_sum_element_le(s: Seq<Asset>, j: int)
    requires
        0 <= j < s.len(),
    ensures
        s[j].available_amount <= sum_amounts(s),
{
    lemma_sum_remove(s, j);
}

/// Replacing the element at `j` changes the sum by the difference of the
/// amounts.
pub proof fn lemma_sum_update(s: Seq<Asset>, j: int, a: Asset)
    requires
        0 <= j < s.len(),
    ensures
        sum_amounts(s.update(j, a)) + s[j].available_amount == sum_amounts(s)
            + a.available_amount,
{
    assert(s.update(j, a).remove(j) =~= s.remove(j));
    lemma_sum_remove(s.update(j, a), j);
    lemma_sum_remove(s, j);
}

/// Sums the available amounts of a list of assets.
pub fn total_amount(assets: &Vec<Asset>) -> (r: u128)
    requires
        sum_amounts(assets@) <= u128::MAX,
    ensures
        r as nat == sum_amounts(assets@),
{
    let mut total: u128 = 0;
    let mut k: usize = 0;
    while k < assets.len()
        invariant
            0 <= k <= assets@.len(),
            sum_amounts(assets@) <= u128::MAX,
            total as nat == sum_amounts(assets@.take(k as int)),
        decreases assets@.len() - k,
    {
        proof {
            lemma_sum_take_step(assets@, k as int);
            lemma_sum_take_le(assets@, k as int + 1);
        }
        total = total + assets[k].available_amount;
        k = k + 1;
    }
    proof {
        lemma_sum_take_full(assets@);
    }
    total
}

/// The native-currency payment attached to a call: the amount of the first
/// coin in the native denomination, or zero when none is attached.
pub open spec fn spec_native_payment(funds: Seq<Coin>) -> u128
    decreases funds.len(),
{
    if funds.len() == 0 {
        0
    } else if funds[0].denom@ == NATIVE_DENOM@ {
        funds[0].amount
    } else {
        spec_native_payment(funds.drop_first())
    }
}

/// A freshly allocated native denomination string.
pub fn native_denom_string() -> (r: String)
    ensures
        r@ == NATIVE_DENOM@,
{
    String::from_str(NATIVE_DENOM)
}

/// Extracts the attached native-currency payment from a list of coins.
pub fn native_payment(funds: &Vec<Coin>) -> (r: u128)
    ensures
        r == spec_native_payment(funds@),
{
    let native = native_denom_string();
    let mut i: usize = 0;
    proof {
        assert(funds@.skip(0) =~= funds@);
    }
    while i < funds.len()
        invariant
            0 <= i <= funds@.len(),
            native@ == NATIVE_DENOM@,
            spec_native_payment(funds@) == spec_native_payment(funds@.skip(i as int)),
        decreases funds@.len() - i,
    {
        proof {
            assert(funds@.skip(i as int)[0] == funds@[i as int]);
        }
        if funds[i].denom == native {
            return funds[i].amount;
        }
        proof {
            assert(funds@.skip(i as int).drop_first() =~= funds@.skip(i as int + 1));
        }
        i = i + 1;
    }
    proof {
        assert(funds@.skip(i as int) =~= Seq::<Coin>::empty());
    }
    0
}

} // verus!
