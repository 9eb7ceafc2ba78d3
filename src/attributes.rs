//! L2 payload attributes and their mathematical model.

use vstd::prelude::*;
use crate::bytes::{Address, B256, bytes_eq, opt_b256_eq, opt_view};

verus! {

/// A withdrawal carried by a block.
#[derive(Clone, Debug)]
pub struct Withdrawal {
    pub index: u64,
    pub validator_index: u64,
    pub address: Address,
    pub amount: u64,
}

/// One encoded transaction, kept exactly as it was received.
#[derive(Clone, Debug)]
pub struct RawTransaction(pub Vec<u8>);

/// The attributes from which an L2 block is built.
#[derive(Clone, Debug)]
pub struct L2PayloadAttributes {
    pub timestamp: u64,
    pub prev_randao: B256,
    pub fee_recipient: Address,
    pub withdrawals: Option<Vec<Withdrawal>>,
    pub parent_beacon_block_root: Option<B256>,
    pub transactions: Vec<RawTransaction>,
    pub no_tx_pool: bool,
    pub gas_limit: Option<u64>,
}

/// The block that derived attributes claim to extend.
#[derive(Clone, Copy, Debug)]
pub struct BlockInfo {
    pub hash: B256,
    pub number: u64,
}

/// Attributes under validation, with the block they build on.
#[derive(Clone, Debug)]
pub struct L2AttributesWithParent {
    pub attributes: L2PayloadAttributes,
    pub parent: BlockInfo,
}

/// What the attributes of a block say, as plain values.
pub struct AttributesModel {
    pub timestamp: u64,
    pub prev_randao: Seq<u8>,
    pub fee_recipient: Seq<u8>,
    pub withdrawals: Option<Seq<(u64, u64, Seq<u8>, u64)>>,
    pub parent_beacon_block_root: Option<Seq<u8>>,
    pub transactions: Seq<Seq<u8>>,
    pub no_tx_pool: bool,
    pub gas_limit: Option<u64>,
}

impl Withdrawal {
    pub open spec fn view(&self) -> (u64, u64, Seq<u8>, u64) {
        (self.index, self.validator_index, self.address@, self.amount)
    }
}

impl RawTransaction {
    pub open spec fn view(&self) -> Seq<u8> {
        self.0@
    }

    /// A copy of the transaction's bytes.
    pub fn duplicate(&self) -> (r: RawTransaction)
        ensures
            r@ == self@,
    {
        RawTransaction(self.0.clone())
    }
}

/// The bytes of each transaction of a list.
pub open spec fn txs_view(txs: Seq<RawTransaction>) -> Seq<Seq<u8>> {
    txs.map_values(|t: RawTransaction| t@)
}

/// The model of each withdrawal of a list.
pub open spec fn withdrawals_view(ws: Seq<Withdrawal>) -> Seq<(u64, u64, Seq<u8>, u64)> {
    ws.map_values(|w: Withdrawal| w@)
}

pub open spec fn opt_withdrawals_view(o: Option<Vec<Withdrawal>>) -> Option<Seq<(u64, u64, Seq<u8>, u64)>> {
    match o {
        Some(ws) => Some(withdrawals_view(ws@)),
        None => None,
    }
}

impl L2PayloadAttributes {
    pub open spec fn view(&self) -> AttributesModel {
        AttributesModel {
            timestamp: self.timestamp,
            prev_randao: self.prev_randao@,
            fee_recipient: self.fee_recipient@,
            withdrawals: opt_withdrawals_view(self.withdrawals),
            parent_beacon_block_root: opt_view(self.parent_beacon_block_root),
            transactions: txs_view(self.transactions@),
            no_tx_pool: self.no_tx_pool,
            gas_limit: self.gas_limit,
        }
    }

    /// Whether two sets of attributes agree in every field, byte for byte.
    pub fn same_as(&self, other: &L2PayloadAttributes) -> (r: bool)
        ensures
            r == (self@ == other@),
    {
        let w = same_opt_withdrawals(&self.withdrawals, &other.withdrawals);
        let t = same_transactions(&self.transactions, &other.transactions);
        let g = match (self.gas_limit, other.gas_limit) {
            (Some(x), Some(y)) => x == y,
            (None, None) => true,
            _ => false,
        };
        self.timestamp == other.timestamp && self.prev_randao.same_as(&other.prev_randao)
            && self.fee_recipient.same_as(&other.fee_recipient) && w
            && opt_b256_eq(&self.parent_beacon_block_root, &other.parent_beacon_block_root)
            && t && self.no_tx_pool == other.no_tx_pool && g
    }
}

fn same_transactions(a: &Vec<RawTransaction>, b: &Vec<RawTransaction>) -> (r: bool)
    ensures
        r == (txs_view(a@) == txs_view(b@)),
{
    if a.len() != b.len() {
        assert(txs_view(a@).len() != txs_view(b@).len());
        return false;
    }
    let mut i: usize = 0;
    while i < a.len()
        invariant
            a@.len() == b@.len(),
            i <= a@.len(),
            forall|j: int| 0 <= j < i ==> a@[j]@ == b@[j]@,
        decreases a@.len() - i,
    {
        if !bytes_eq(a[i].0.as_slice(), b[i].0.as_slice()) {
            assert(txs_view(a@)[i as int] != txs_view(b@)[i as int]);
            return false;
        }
        i = i + 1;
    }
    assert(txs_view(a@) =~= txs_view(b@));
    true
}

fn same_withdrawals(a: &Vec<Withdrawal>, b: &Vec<Withdrawal>) -> (r: bool)
    ensures
        r == (withdrawals_view(a@) == withdrawals_view(b@)),
{
    if a.len() != b.len() {
        assert(withdrawals_view(a@).len() != withdrawals_view(b@).len());
        return false;
    }
    let mut i: usize = 0;
    while i < a.len()
        invariant
            a@.len() == b@.len(),
            i <= a@.len(),
            forall|j: int| 0 <= j < i ==> a@[j]@ == b@[j]@,
        decreases a@.len() - i,
    {
        let x = &a[i];
        let y = &b[i];
        if !(x.index == y.index && x.validator_index == y.validator_index
            && x.address.same_as(&y.address) && x.amount == y.amount) {
            assert(withdrawals_view(a@)[i as int] != withdrawals_view(b@)[i as int]);
            return false;
        }
        i = i + 1;
    }
    assert(withdrawals_view(a@) =~= withdrawals_view(b@));
    true
}

fn same_opt_withdrawals(a: &Option<Vec<Withdrawal>>, b: &Option<Vec<Withdrawal>>) -> (r: bool)
    ensures
        r == (opt_withdrawals_view(*a) == opt_withdrawals_view(*b)),
{
    match (a, b) {
        (Some(x), Some(y)) => same_withdrawals(x, y),
        (None, None) => true,
        _ => false,
    }
}

} // verus!
