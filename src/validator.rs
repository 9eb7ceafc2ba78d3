//! Validation of derived attributes against a trusted source.
//!
//! The trusted-RPC strategy rebuilds the attributes of the block that the
//! derived attributes claim to produce, from that block as a trusted node
//! serves it, and compares the two. The engine strategy reads the verdict of
//! an engine API. The network round trips are made by the caller, which hands
//! what came back to the functions here.

use vstd::prelude::*;
use crate::attributes::{
    AttributesModel, L2AttributesWithParent, L2PayloadAttributes, RawTransaction, Withdrawal,
    txs_view,
};
use crate::bytes::{Address, B256, opt_view};

verus! {

/// The header fields of a fetched block that the attributes are rebuilt from.
#[derive(Clone, Copy, Debug)]
pub struct BlockHeader {
    pub timestamp: u64,
    pub mix_hash: Option<B256>,
    pub miner: Address,
    pub parent_beacon_block_root: Option<B256>,
    pub gas_limit: u64,
}

/// Why a validation could not be completed.
#[derive(Clone, Copy, Debug, PartialEq, Eq, Structural)]
pub enum ValidationError {
    /// The trusted node could not be asked for the block.
    BlockFetch,
    /// The trusted node does not know the block.
    BlockNotFound,
    /// A raw transaction of the block could not be fetched.
    TransactionFetch,
    /// Fewer or more raw transactions came back than the block lists.
    TransactionCountMismatch,
}

impl ValidationError {
    /// A human-readable description of the error.
    pub fn message(&self) -> String {
        match self {
            ValidationError::BlockFetch => String::from_str("Failed to fetch block"),
            ValidationError::BlockNotFound => String::from_str("Block not found"),
            ValidationError::TransactionFetch => String::from_str("Failed to fetch transaction"),
            ValidationError::TransactionCountMismatch => String::from_str("Transaction count mismatch"),
        }
    }
}

/// Validates attributes by rebuilding them from a trusted L2 node.
#[derive(Clone, Copy, Debug)]
pub struct TrustedValidator {
    /// The timestamp from which blocks carry an empty withdrawals list.
    pub canyon_activation: u64,
}

/// The attributes that a block with this header and these transactions was
/// built from.
pub open spec fn expected_attributes(
    canyon_activation: u64,
    header: BlockHeader,
    transactions: Seq<Seq<u8>>,
) -> AttributesModel {
    AttributesModel {
        timestamp: header.timestamp,
        prev_randao: match header.mix_hash {
            Some(h) => h@,
            None => Seq::new(32, |i: int| 0u8),
        },
        fee_recipient: header.miner@,
        withdrawals: if header.timestamp >= canyon_activation {
            Some(Seq::empty())
        } else {
            None
        },
        parent_beacon_block_root: opt_view(header.parent_beacon_block_root),
        transactions: transactions,
        no_tx_pool: true,
        gas_limit: Some(header.gas_limit),
    }
}

/// What a block fetch yields, given the header, the number of transaction
/// hashes the block lists, and each raw transaction fetch in order, up to and
/// including the first that failed (`None`).
pub open spec fn fetched_block_spec(
    hash_count: nat,
    fetched: Seq<Option<RawTransaction>>,
) -> Result<Seq<Seq<u8>>, ValidationError> {
    if exists|i: int| 0 <= i < fetched.len() && fetched[i] is None {
        Err(ValidationError::TransactionFetch)
    } else if fetched.len() != hash_count {
        Err(ValidationError::TransactionCountMismatch)
    } else {
        Ok(fetched.map_values(|t: Option<RawTransaction>| t->Some_0@))
    }
}

impl TrustedValidator {
    /// Creates a validator for a chain whose canyon fork activates at the
    /// given timestamp.
    pub fn new(canyon_activation: u64) -> (r: Self)
        ensures
            r.canyon_activation == canyon_activation,
    {
        TrustedValidator { canyon_activation }
    }

    /// The number of the block that the attributes claim to produce: the one
    /// after their parent.
    pub fn expected_block_number(&self, attributes: &L2AttributesWithParent) -> (r: u64)
        requires
            attributes.parent.number < u64::MAX,
        ensures
            r == attributes.parent.number + 1,
    {
        attributes.parent.number + 1
    }

    /// Collects the raw transactions of a block whose header lists
    /// `hash_count` transaction hashes, failing on the first fetch that failed
    /// and when the number fetched differs from the number listed.
    pub fn get_block(
        &self,
        header: BlockHeader,
        hash_count: usize,
        fetched: Vec<Option<RawTransaction>>,
    ) -> (r: Result<(BlockHeader, Vec<RawTransaction>), ValidationError>)
        ensures
            match fetched_block_spec(hash_count as nat, fetched@) {
                Ok(txs) => r matches Ok((h, t)) && h == header && txs_view(t@) == txs,
                Err(e) => r == Err::<(BlockHeader, Vec<RawTransaction>), ValidationError>(e),
            },
    {
        let mut txs: Vec<RawTransaction> = Vec::new();
        let mut i: usize = 0;
        while i < fetched.len()
            invariant
                i <= fetched@.len(),
                txs@.len() == i,
                forall|j: int| 0 <= j < i ==> fetched@[j] is Some,
                forall|j: int| 0 <= j < i ==> txs@[j]@ == fetched@[j]->Some_0@,
            decreases fetched@.len() - i,
        {
            match &fetched[i] {
                Some(tx) => txs.push(tx.duplicate()),
                None => return Err(ValidationError::TransactionFetch),
            }
            i = i + 1;
        }
        if txs.len() != hash_count {
            return Err(ValidationError::TransactionCountMismatch);
        }
        assert(txs_view(txs@) =~= fetched@.map_values(|t: Option<RawTransaction>| t->Some_0@));
        Ok((header, txs))
    }

    /// Rebuilds the attributes of a fetched block.
    pub fn get_payload(&self, header: &BlockHeader, transactions: Vec<RawTransaction>) -> (r: L2PayloadAttributes)
        ensures
            r@ == expected_attributes(self.canyon_activation, *header, txs_view(transactions@)),
    {
        let prev_randao = match header.mix_hash {
            Some(h) => h,
            None => B256::zero(),
        };
        let withdrawals: Option<Vec<Withdrawal>> = if header.timestamp >= self.canyon_activation {
            Some(Vec::new())
        } else {
            None
        };
        let r = L2PayloadAttributes {
            timestamp: header.timestamp,
            prev_randao,
            fee_recipient: header.miner,
            withdrawals,
            parent_beacon_block_root: header.parent_beacon_block_root,
            transactions,
            no_tx_pool: true,
            gas_limit: Some(header.gas_limit),
        };
        assert(r@.withdrawals == expected_attributes(self.canyon_activation, *header, txs_view(r.transactions@)).withdrawals);
        assert(r@ == expected_attributes(self.canyon_activation, *header, txs_view(r.transactions@)));
        r
    }

    /// Decides the validation of `attributes` from what the fetch of the block
    /// they claim to produce returned: `true` exactly when they equal the
    /// attributes rebuilt from that block; a failed fetch is an error.
    pub fn validate(
        &self,
        attributes: &L2AttributesWithParent,
        block: Result<(BlockHeader, Vec<RawTransaction>), ValidationError>,
    ) -> (r: Result<bool, ValidationError>)
        ensures
            match block {
                Ok((h, t)) => r == Ok::<bool, ValidationError>(
                    attributes.attributes@ == expected_attributes(self.canyon_activation, h, txs_view(t@)),
                ),
                Err(e) => r == Err::<bool, ValidationError>(e),
            },
    {
        match block {
            Ok((header, transactions)) => {
                let payload = self.get_payload(&header, transactions);
                Ok(attributes.attributes.same_as(&payload))
            },
            Err(e) => Err(e),
        }
    }
}

} // verus!

verus! {

/// Withdrawals follow the canyon activation: a block one second before it
/// yields attributes without a withdrawals list, a block at it an empty one.
pub proof fn lemma_withdrawals_gating(canyon_activation: u64, header: BlockHeader, transactions: Seq<Seq<u8>>)
    requires
        canyon_activation > 0,
    ensures
        header.timestamp == canyon_activation - 1
            ==> expected_attributes(canyon_activation, header, transactions).withdrawals is None,
        header.timestamp == canyon_activation
            ==> expected_attributes(canyon_activation, header, transactions).withdrawals
                == Some(Seq::<(u64, u64, Seq<u8>, u64)>::empty()),
{
}

/// A block whose transactions cannot all be fetched fails: where one fetch
/// failed, and where fewer came back than the block lists.
pub proof fn lemma_short_transaction_list_fails(hash_count: nat, fetched: Seq<Option<RawTransaction>>)
    requires
        fetched.len() < hash_count,
    ensures
        fetched_block_spec(hash_count, fetched) is Err,
        (forall|i: int| 0 <= i < fetched.len() ==> fetched[i] is Some)
            ==> fetched_block_spec(hash_count, fetched)
                == Err::<Seq<Seq<u8>>, ValidationError>(ValidationError::TransactionCountMismatch),
{
}

} // verus!
