//! Persisted state: the platform configuration, the campaign store and the
//! operator registry, reached only through an explicit [`ContractState`]
//! handle.

use vstd::prelude::*;
use crate::helpers::{Asset, sum_amounts};

verus! {

/// The platform configuration, created once at instantiation.
#[derive(Debug)]
pub struct AirdropPlatform {
    /// The only account allowed to register operators and withdraw fees.
    pub admin: String,
    /// Upper bound on the assets processed by one distribution call;
    /// always positive.
    pub max_batch_size: u64,
    /// Native-currency fee charged per required distribution batch.
    pub fee_per_batch: u128,
}

/// A creator-owned, named collection of assets pledged for distribution
/// starting at a future time.
#[derive(Debug)]
pub struct AirdropCampaign {
    pub campaign_id: String,
    pub creator: String,
    /// Ordered list of assets; the order defines the stable index used by
    /// distribution calls.
    pub assets: Vec<Asset>,
    /// Snapshot of the platform's maximum batch size at the last create or
    /// update.
    pub max_batch_size: u64,
    /// Earliest time (in seconds) distributions may occur.
    pub starting_time: u64,
    /// Always equals the sum of the assets' available amounts.
    pub total_available_assets: u128,
    /// Escrowed fee charged for this campaign's asset count.
    pub airdrop_fee: u128,
}

impl AirdropCampaign {
    /// The aggregate counter is exactly the live sum over the asset list.
    pub open spec fn wf(self) -> bool {
        self.total_available_assets as nat == sum_amounts(self.assets@)
    }
}

/// One entry of the operator registry.  An account is authorized only when
/// its flag is explicitly `true`; absence and `false` are both
/// "not authorized".
#[derive(Debug)]
pub struct OperatorEntry {
    pub address: String,
    pub is_operator: bool,
}

/// The whole persisted state of the contract.
#[derive(Debug)]
pub struct ContractState {
    pub platform: AirdropPlatform,
    pub campaigns: Vec<AirdropCampaign>,
    pub operators: Vec<OperatorEntry>,
}

/// There is a campaign with identifier `id` in the list.
pub open spec fn seq_has_campaign(cs: Seq<AirdropCampaign>, id: Seq<char>) -> bool {
    exists|i: int| 0 <= i < cs.len() && (#[trigger] cs[i]).campaign_id@ == id
}

/// The index of the campaign with identifier `id`; meaningful only under
/// `seq_has_campaign` and identifier uniqueness.
pub open spec fn seq_campaign_index(cs: Seq<AirdropCampaign>, id: Seq<char>) -> int {
    choose|i: int| 0 <= i < cs.len() && (#[trigger] cs[i]).campaign_id@ == id
}

pub open spec fn campaign_ids_unique(cs: Seq<AirdropCampaign>) -> bool {
    forall|i: int, j: int|
        0 <= i < j < cs.len() ==> (#[trigger] cs[i]).campaign_id@ != (#[trigger] cs[j]).campaign_id@
}

/// There is a registry entry for `addr`.
pub open spec fn seq_has_operator(ops: Seq<OperatorEntry>, addr: Seq<char>) -> bool {
    exists|i: int| 0 <= i < ops.len() && (#[trigger] ops[i]).address@ == addr
}

pub open spec fn seq_operator_index(ops: Seq<OperatorEntry>, addr: Seq<char>) -> int {
    choose|i: int| 0 <= i < ops.len() && (#[trigger] ops[i]).address@ == addr
}

pub open spec fn operator_addrs_unique(ops: Seq<OperatorEntry>) -> bool {
    forall|i: int, j: int|
        0 <= i < j < ops.len() ==> (#[trigger] ops[i]).address@ != (#[trigger] ops[j]).address@
}

/// The registry flag stored for `addr`: `None` when absent.
pub open spec fn seq_operator_flag(ops: Seq<OperatorEntry>, addr: Seq<char>) -> Option<bool> {
    if seq_has_operator(ops, addr) {
        Some(ops[seq_operator_index(ops, addr)].is_operator)
    } else {
        None
    }
}

impl ContractState {
    /// Well-formedness: a positive batch size, unique keys in both stores,
    /// and every campaign's aggregate counter consistent with its assets.
    pub open spec fn wf(self) -> bool {
        &&& self.platform.max_batch_size > 0
        &&& campaign_ids_unique(self.campaigns@)
        &&& operator_addrs_unique(self.operators@)
        &&& forall|i: int|
            0 <= i < self.campaigns@.len() ==> (#[trigger] self.campaigns@[i]).wf()
    }

    pub open spec fn has_campaign(self, id: Seq<char>) -> bool {
        seq_has_campaign(self.campaigns@, id)
    }

    pub open spec fn campaign_index(self, id: Seq<char>) -> int {
        seq_campaign_index(self.campaigns@, id)
    }

    /// The stored campaign with identifier `id`; meaningful only under
    /// `has_campaign`.
    pub open spec fn get_campaign(self, id: Seq<char>) -> AirdropCampaign {
        self.campaigns@[self.campaign_index(id)]
    }

    pub open spec fn operator_flag(self, addr: Seq<char>) -> Option<bool> {
        seq_operator_flag(self.operators@, addr)
    }

    /// An account is an operator only when registered with flag `true`.
    pub open spec fn is_operator(self, addr: Seq<char>) -> bool {
        self.operator_flag(addr) == Some(true)
    }
}

/// Overwriting the flag of the entry at `i` changes exactly that entry's
/// key in the registry.
pub proof fn lemma_registry_update(ops: Seq<OperatorEntry>, i: int, e: OperatorEntry)
    requires
        operator_addrs_unique(ops),
        0 <= i < ops.len(),
        e.address == ops[i].address,
    ensures
        operator_addrs_unique(ops.update(i, e)),
        seq_operator_flag(ops.update(i, e), e.address@) == Some(e.is_operator),
        forall|a: Seq<char>|
            a != e.address@ ==> #[trigger] seq_operator_flag(ops.update(i, e), a)
                == seq_operator_flag(ops, a),
{
    let new = ops.update(i, e);
    assert(forall|m: int|
        0 <= m < new.len() ==> (#[trigger] new[m]).address@ == ops[m].address@);
    assert(new[i] == e);
    assert(new[i].address@ == e.address@);
    assert(seq_has_operator(new, e.address@));
    let j = seq_operator_index(new, e.address@);
    assert(0 <= j < new.len() && new[j].address@ == e.address@);
    if j != i {
        assert(new[j].address@ != new[i].address@);
    }
    assert forall|a: Seq<char>| a != e.address@ implies #[trigger] seq_operator_flag(new, a)
        == seq_operator_flag(ops, a) by {
        if seq_has_operator(ops, a) {
            let m = seq_operator_index(ops, a);
            assert(0 <= m < ops.len() && ops[m].address@ == a);
            assert(new[m].address@ == a);
            assert(seq_has_operator(new, a));
            let m2 = seq_operator_index(new, a);
            assert(0 <= m2 < new.len() && new[m2].address@ == a);
            assert(ops[m2].address@ == a);
            if m != m2 {
                assert(ops[m].address@ != ops[m2].address@);
            }
            assert(m != i);
            assert(new[m] == ops[m]);
        } else {
            if seq_has_operator(new, a) {
                let m = seq_operator_index(new, a);
                assert(ops[m].address@ == a);
                assert(seq_has_operator(ops, a));
            }
        }
    }
}

/// Appending an entry for a fresh key adds exactly that key to the
/// registry.
pub proof fn lemma_registry_push(ops: Seq<OperatorEntry>, e: OperatorEntry)
    requires
        operator_addrs_unique(ops),
        !seq_has_operator(ops, e.address@),
    ensures
        operator_addrs_unique(ops.push(e)),
        seq_operator_flag(ops.push(e), e.address@) == Some(e.is_operator),
        forall|a: Seq<char>|
            a != e.address@ ==> #[trigger] seq_operator_flag(ops.push(e), a)
                == seq_operator_flag(ops, a),
{
    let new = ops.push(e);
    let n = ops.len() as int;
    assert(forall|m: int| 0 <= m < n ==> (#[trigger] new[m]) == ops[m]);
    assert(new[n] == e);
    assert(new[n].address@ == e.address@);
    assert(forall|m: int|
        0 <= m < n ==> (#[trigger] ops[m]).address@ != e.address@);
    assert(operator_addrs_unique(new));
    assert(seq_has_operator(new, e.address@));
    let j = seq_operator_index(new, e.address@);
    assert(0 <= j < new.len() && new[j].address@ == e.address@);
    if j != n {
        assert(ops[j].address@ == e.address@);
    }
    assert forall|a: Seq<char>| a != e.address@ implies #[trigger] seq_operator_flag(new, a)
        == seq_operator_flag(ops, a) by {
        if seq_has_operator(ops, a) {
            let m = seq_operator_index(ops, a);
            assert(0 <= m < n && ops[m].address@ == a);
            assert(new[m].address@ == a);
            assert(seq_has_operator(new, a));
            let m2 = seq_operator_index(new, a);
            assert(0 <= m2 < new.len() && new[m2].address@ == a);
            assert(m2 != n);
            assert(ops[m2].address@ == a);
            if m != m2 {
                assert(ops[m].address@ != ops[m2].address@);
            }
            assert(new[m] == ops[m]);
        } else {
            if seq_has_operator(new, a) {
                let m = seq_operator_index(new, a);
                assert(0 <= m < new.len() && new[m].address@ == a);
                assert(m != n);
                assert(ops[m].address@ == a);
                assert(seq_has_operator(ops, a));
            }
        }
    }
}

/// Linear scan for the campaign with identifier `id`.
pub fn find_campaign_index(cs: &Vec<AirdropCampaign>, id: &String) -> (r: Option<usize>)
    requires
        campaign_ids_unique(cs@),
    ensures
        match r {
            Some(i) => {
                &&& i < cs@.len()
                &&& cs@[i as int].campaign_id@ == id@
                &&& seq_has_campaign(cs@, id@)
                &&& seq_campaign_index(cs@, id@) == i as int
            },
            None => !seq_has_campaign(cs@, id@),
        },
{
    let mut i: usize = 0;
    while i < cs.len()
        invariant
            0 <= i <= cs@.len(),
            campaign_ids_unique(cs@),
            forall|k: int| 0 <= k < i ==> (#[trigger] cs@[k]).campaign_id@ != id@,
        decreases cs@.len() - i,
    {
        if cs[i].campaign_id == *id {
            proof {
                assert(seq_has_campaign(cs@, id@));
                let j = seq_campaign_index(cs@, id@);
                assert(0 <= j < cs@.len() && cs@[j].campaign_id@ == id@);
                if j != i as int {
                    assert(cs@[i as int].campaign_id@ != cs@[j].campaign_id@);
                }
            }
            return Some(i);
        }
        i = i + 1;
    }
    None
}

/// Linear scan for the registry entry of `addr`.
pub fn find_operator_index(ops: &Vec<OperatorEntry>, addr: &String) -> (r: Option<usize>)
    requires
        operator_addrs_unique(ops@),
    ensures
        match r {
            Some(i) => {
                &&& i < ops@.len()
                &&& ops@[i as int].address@ == addr@
                &&& seq_has_operator(ops@, addr@)
                &&& seq_operator_index(ops@, addr@) == i as int
            },
            None => !seq_has_operator(ops@, addr@),
        },
{
    let mut i: usize = 0;
    while i < ops.len()
        invariant
            0 <= i <= ops@.len(),
            operator_addrs_unique(ops@),
            forall|k: int| 0 <= k < i ==> (#[trigger] ops@[k]).address@ != addr@,
        decreases ops@.len() - i,
    {
        if ops[i].address == *addr {
            proof {
                assert(seq_has_operator(ops@, addr@));
                let j = seq_operator_index(ops@, addr@);
                assert(0 <= j < ops@.len() && ops@[j].address@ == addr@);
                if j != i as int {
                    assert(ops@[i as int].address@ != ops@[j].address@);
                }
            }
            return Some(i);
        }
        i = i + 1;
    }
    None
}

/// An element-by-element copy of an asset list.
pub fn clone_assets(v: &Vec<Asset>) -> (r: Vec<Asset>)
    ensures
        r@ == v@,
{
    let mut r: Vec<Asset> = Vec::new();
    let mut i: usize = 0;
    while i < v.len()
        invariant
            0 <= i <= v@.len(),
            r@ == v@.take(i as int),
        decreases v@.len() - i,
    {
        r.push(v[i].clone());
        proof {
            assert(v@.take(i as int).push(v@[i as int]) =~= v@.take(i as int + 1));
        }
        i = i + 1;
    }
    proof {
        assert(v@.take(v@.len() as int) =~= v@);
    }
    r
}

impl Clone for AirdropCampaign {
    fn clone(&self) -> (res: Self)
        ensures
            res.campaign_id == self.campaign_id,
            res.creator == self.creator,
            res.assets@ == self.assets@,
            res.max_batch_size == self.max_batch_size,
            res.starting_time == self.starting_time,
            res.total_available_assets == self.total_available_assets,
            res.airdrop_fee == self.airdrop_fee,
    {
        AirdropCampaign {
            campaign_id: self.campaign_id.clone(),
            creator: self.creator.clone(),
            assets: clone_assets(&self.assets),
            max_batch_size: self.max_batch_size,
            starting_time: self.starting_time,
            total_available_assets: self.total_available_assets,
            airdrop_fee: self.airdrop_fee,
        }
    }
}

} // verus!
