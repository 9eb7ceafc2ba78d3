//! Authentication and decoding of unsafe block announcements.
//!
//! A block message is a 65-byte signature followed by the signed bytes. On
//! the third topic version the signed bytes open with the 32-byte parent
//! beacon block root, and the encoded execution payload follows; on the
//! first two they are the payload alone. The signature covers
//! `keccak256(domain ++ chain_id ++ keccak256(signed bytes))`, with a zero
//! domain and the chain ID as a 32-byte big-endian word.

use vstd::prelude::*;
use crate::bytes::{Address, B256, copy_range, word_at};
use crate::topic::{block_topic_name, lemma_topic_names_distinct, topic_name};

verus! {

/// The length of a block signature.
pub const SIGNATURE_LEN: usize = 65;

/// The length of a parent beacon block root.
pub const ROOT_LEN: usize = 32;

/// The Keccak-256 digest of `data`.
pub uninterp spec fn keccak_of(data: Seq<u8>) -> Seq<u8>;

/// The address that signed `prehash` with the 65-byte `signature`, if the
/// signature is well formed and a key can be recovered from it.
pub uninterp spec fn recovered_signer_of(signature: Seq<u8>, prehash: Seq<u8>) -> Option<Seq<u8>>;

/// Relies on `alloy_primitives::keccak256`.
#[verifier::external_body]
fn keccak(data: &[u8]) -> (r: B256)
    ensures
        r@ == keccak_of(data@),
{
    B256(alloy_primitives::keccak256(data).0)
}

/// Relies on `Signature::recover_address_from_prehash` of alloy-primitives;
/// the bytes are read as `r ++ s ++ v` by `Signature::try_from`, which
/// refuses any length but 65.
#[verifier::external_body]
fn recover_signer(signature: &[u8], prehash: &B256) -> (r: Option<Address>)
    ensures
        match r {
            Some(a) => recovered_signer_of(signature@, prehash@) == Some(a@),
            None => recovered_signer_of(signature@, prehash@) is None,
        },
        signature@.len() != 65 ==> r is None,
{
    let Ok(sig) = alloy_primitives::Signature::try_from(signature) else {
        return None;
    };
    match sig.recover_address_from_prehash(&alloy_primitives::B256::from(prehash.0)) {
        Ok(a) => Some(Address(a.0 .0)),
        Err(_) => None,
    }
}

/// The byte `k` (0 to 31) of the 32-byte big-endian word of `n`.
pub open spec fn word_byte(n: u64, k: int) -> u8 {
    if k < 24 {
        0u8
    } else {
        (n >> ((8 * (31 - k)) as u64)) as u8
    }
}

/// The 32-byte big-endian word of `n`.
pub open spec fn u64_word(n: u64) -> Seq<u8> {
    Seq::new(32, |k: int| word_byte(n, k))
}

/// The digest that the sequencer signs for a payload whose signed bytes
/// hash to `payload_hash`, on chain `chain_id`.
pub open spec fn signing_hash(chain_id: u64, payload_hash: Seq<u8>) -> Seq<u8> {
    keccak_of(Seq::new(32, |k: int| 0u8) + u64_word(chain_id) + payload_hash)
}

/// An unsafe block as announced on a block topic.
#[derive(Clone, Debug)]
pub struct ExecutionPayloadEnvelope {
    /// The topic version it came on: 0, 1 or 2.
    pub version: u64,
    /// The sequencer's signature.
    pub signature: Vec<u8>,
    /// The digest of the signed bytes.
    pub payload_hash: B256,
    /// The parent beacon block root, on the third version.
    pub parent_beacon_block_root: Option<B256>,
    /// The encoded execution payload.
    pub payload: Vec<u8>,
}

/// The parts of a block message of the given version: signature, signed
/// bytes, parent beacon block root and payload; `None` where it is too short.
pub open spec fn decode_spec(version: u64, data: Seq<u8>)
    -> Option<(Seq<u8>, Seq<u8>, Option<Seq<u8>>, Seq<u8>)>
{
    if data.len() < 65 {
        None
    } else if version == 2 {
        if data.len() < 65 + 32 {
            None
        } else {
            Some((data.subrange(0, 65), data.subrange(65, data.len() as int),
                Some(data.subrange(65, 97)), data.subrange(97, data.len() as int)))
        }
    } else {
        Some((data.subrange(0, 65), data.subrange(65, data.len() as int), None,
            data.subrange(65, data.len() as int)))
    }
}

impl ExecutionPayloadEnvelope {
    /// Whether the envelope holds the parts of a block message.
    pub open spec fn decodes(&self, version: u64, data: Seq<u8>) -> bool {
        match decode_spec(version, data) {
            Some((sig, signed, root, payload)) => {
                &&& self.version == version
                &&& self.signature@ == sig
                &&& self.payload_hash@ == keccak_of(signed)
                &&& crate::bytes::opt_view(self.parent_beacon_block_root) == root
                &&& self.payload@ == payload
            },
            None => false,
        }
    }

    /// Splits a block message of topic version `version` into its parts.
    pub fn decode(version: u64, data: &[u8]) -> (r: Option<ExecutionPayloadEnvelope>)
        requires
            version < 3,
        ensures
            match r {
                Some(e) => e.decodes(version, data@),
                None => decode_spec(version, data@) is None,
            },
    {
        let n = data.len();
        if n < SIGNATURE_LEN {
            return None;
        }
        if version == 2 && n < SIGNATURE_LEN + ROOT_LEN {
            return None;
        }
        let signature = copy_range(data, 0, SIGNATURE_LEN);
        let signed = copy_range(data, SIGNATURE_LEN, n);
        let payload_hash = keccak(signed.as_slice());
        let (parent_beacon_block_root, payload) = if version == 2 {
            (Some(word_at(data, SIGNATURE_LEN)), copy_range(data, SIGNATURE_LEN + ROOT_LEN, n))
        } else {
            (None, copy_range(data, SIGNATURE_LEN, n))
        };
        Some(ExecutionPayloadEnvelope {
            version,
            signature,
            payload_hash,
            parent_beacon_block_root,
            payload,
        })
    }
}

/// Builds the 32-byte big-endian word of `n`.
fn u64_word_bytes(n: u64) -> (r: Vec<u8>)
    ensures
        r@ == u64_word(n),
{
    let mut r: Vec<u8> = Vec::new();
    let mut k: usize = 0;
    while k < 32
        invariant
            k <= 32,
            r@.len() == k,
            forall|j: int| 0 <= j < k ==> r@[j] == word_byte(n, j),
        decreases 32 - k,
    {
        if k < 24 {
            r.push(0u8);
        } else {
            r.push((n >> ((8 * (31 - k)) as u64)) as u8);
        }
        k = k + 1;
    }
    assert(r@ =~= u64_word(n));
    r
}

/// Computes the digest that the sequencer signs for a payload.
pub fn signature_message(chain_id: u64, payload_hash: &B256) -> (r: B256)
    ensures
        r@ == signing_hash(chain_id, payload_hash@),
{
    let mut msg: Vec<u8> = Vec::new();
    let mut k: usize = 0;
    while k < 32
        invariant
            k <= 32,
            msg@ == Seq::new(k as nat, |i: int| 0u8),
        decreases 32 - k,
    {
        msg.push(0u8);
        k = k + 1;
        assert(msg@ =~= Seq::new(k as nat, |i: int| 0u8));
    }
    let mut word = u64_word_bytes(chain_id);
    msg.append(&mut word);
    let mut hash = copy_range(payload_hash.0.as_slice(), 0, 32);
    msg.append(&mut hash);
    assert(hash@.len() == 0);
    assert(msg@ =~= Seq::new(32, |k: int| 0u8) + u64_word(chain_id) + payload_hash@);
    keccak(msg.as_slice())
}

/// Validates block announcements against the current unsafe block signer.
#[derive(Clone, Debug)]
pub struct BlockHandler {
    /// The chain the blocks belong to.
    pub chain_id: u64,
    /// The address that currently signs unsafe blocks.
    pub unsafe_block_signer: Address,
    /// The hash of the first block topic.
    pub blocks_v1_topic: String,
    /// The hash of the second block topic.
    pub blocks_v2_topic: String,
    /// The hash of the third block topic.
    pub blocks_v3_topic: String,
}

/// Relies on libp2p's `IdentTopic::hash`: the hash of an identity-hashed
/// topic is its name.
#[verifier::external_body]
fn ident_topic_hash(name: &String) -> (r: String)
    ensures
        r@ == name@,
{
    libp2p::gossipsub::IdentTopic::new(name.clone()).hash().into_string()
}

/// Computes the hash of the block topic of `version` on chain `chain_id`.
pub fn block_topic_hash(chain_id: u64, version: u64) -> (r: String)
    ensures
        r@ == topic_name(chain_id as nat, version as nat),
{
    let name = block_topic_name(chain_id, version);
    ident_topic_hash(&name)
}

impl BlockHandler {
    /// Whether the handler's topics are the three block topics of its chain.
    pub open spec fn wf(&self) -> bool {
        &&& self.blocks_v1_topic@ == topic_name(self.chain_id as nat, 0)
        &&& self.blocks_v2_topic@ == topic_name(self.chain_id as nat, 1)
        &&& self.blocks_v3_topic@ == topic_name(self.chain_id as nat, 2)
    }

    /// The version of the block topic `topic`, if it is one of the handler's.
    pub open spec fn version_spec(&self, topic: Seq<char>) -> Option<u64> {
        if topic == self.blocks_v1_topic@ {
            Some(0)
        } else if topic == self.blocks_v2_topic@ {
            Some(1)
        } else if topic == self.blocks_v3_topic@ {
            Some(2)
        } else {
            None
        }
    }

    /// Whether an envelope was signed by the current unsafe block signer.
    pub open spec fn signed_by_signer(&self, e: ExecutionPayloadEnvelope) -> bool {
        recovered_signer_of(e.signature@, signing_hash(self.chain_id, e.payload_hash@))
            == Some(self.unsafe_block_signer@)
    }

    /// Whether a message with this topic and data is accepted.
    pub open spec fn accepts(&self, topic: Seq<char>, data: Seq<u8>) -> bool {
        match self.version_spec(topic) {
            Some(v) => match decode_spec(v, data) {
                Some((sig, signed, _, _)) => recovered_signer_of(
                    sig,
                    signing_hash(self.chain_id, keccak_of(signed)),
                ) == Some(self.unsafe_block_signer@),
                None => false,
            },
            None => false,
        }
    }

    /// Creates the handler of chain `chain_id`, with the given initial signer.
    pub fn new(chain_id: u64, unsafe_block_signer: Address) -> (r: BlockHandler)
        ensures
            r.wf(),
            r.chain_id == chain_id,
            r.unsafe_block_signer@ == unsafe_block_signer@,
    {
        BlockHandler {
            chain_id,
            unsafe_block_signer,
            blocks_v1_topic: block_topic_hash(chain_id, 0),
            blocks_v2_topic: block_topic_hash(chain_id, 1),
            blocks_v3_topic: block_topic_hash(chain_id, 2),
        }
    }

    /// Replaces the unsafe block signer; messages handled afterwards are
    /// checked against the new one only.
    pub fn set_unsafe_block_signer(&mut self, signer: Address)
        ensures
            final(self).unsafe_block_signer@ == signer@,
            final(self).chain_id == old(self).chain_id,
            final(self).blocks_v1_topic == old(self).blocks_v1_topic,
            final(self).blocks_v2_topic == old(self).blocks_v2_topic,
            final(self).blocks_v3_topic == old(self).blocks_v3_topic,
    {
        self.unsafe_block_signer = signer;
    }

    /// The version of the block topic `topic`, if it is one of the handler's.
    pub fn topic_version(&self, topic: &String) -> (r: Option<u64>)
        ensures
            r == self.version_spec(topic@),
    {
        if *topic == self.blocks_v1_topic {
            Some(0)
        } else if *topic == self.blocks_v2_topic {
            Some(1)
        } else if *topic == self.blocks_v3_topic {
            Some(2)
        } else {
            None
        }
    }

    /// Whether the envelope was signed by the current unsafe block signer.
    pub fn block_valid(&self, envelope: &ExecutionPayloadEnvelope) -> (r: bool)
        ensures
            r == self.signed_by_signer(*envelope),
    {
        let msg = signature_message(self.chain_id, &envelope.payload_hash);
        match recover_signer(envelope.signature.as_slice(), &msg) {
            Some(signer) => signer.same_as(&self.unsafe_block_signer),
            None => false,
        }
    }

    /// Handles a message received on `topic`: the decoded envelope when the
    /// topic is a block topic of the handler, the message decodes, and the
    /// current unsafe block signer signed it; `None`, a rejection, otherwise.
    pub fn handle(&self, topic: &String, data: &[u8]) -> (r: Option<ExecutionPayloadEnvelope>)
        ensures
            r is Some <==> self.accepts(topic@, data@),
            r matches Some(e) ==> e.decodes(self.version_spec(topic@)->Some_0, data@),
    {
        let version = match self.topic_version(topic) {
            Some(v) => v,
            None => return None,
        };
        let envelope = match ExecutionPayloadEnvelope::decode(version, data) {
            Some(e) => e,
            None => return None,
        };
        if self.block_valid(&envelope) {
            Some(envelope)
        } else {
            None
        }
    }
}

} // verus!

verus! {

/// The three block topics of a chain are computed from the chain ID and the
/// version alone, and they are distinct: a handler reads the version of a
/// message back from the topic that it came on.
pub proof fn lemma_topic_versions(h: BlockHandler, v: u64)
    requires
        h.wf(),
        v < 3,
    ensures
        h.version_spec(topic_name(h.chain_id as nat, v as nat)) == Some(v),
        v == 0 ==> h.blocks_v1_topic@ == topic_name(h.chain_id as nat, 0),
        v == 1 ==> h.blocks_v2_topic@ == topic_name(h.chain_id as nat, 1),
        v == 2 ==> h.blocks_v3_topic@ == topic_name(h.chain_id as nat, 2),
{
    let c = h.chain_id as nat;
    lemma_topic_names_distinct(c, 0, 1);
    lemma_topic_names_distinct(c, 0, 2);
    lemma_topic_names_distinct(c, 1, 2);
}

/// A message is accepted exactly when it came on a block topic, decodes, and
/// its signature recovers to the current signer: a message that recovers to
/// any other address is rejected, and after the signer is replaced only the
/// new signer's messages are accepted.
pub proof fn lemma_signer_authorization(
    h: BlockHandler,
    signer: Address,
    topic: Seq<char>,
    data: Seq<u8>,
    other: Seq<u8>,
)
    ensures
        ({
            let h2 = BlockHandler { unsafe_block_signer: signer, ..h };
            match h2.version_spec(topic) {
                Some(v) => match decode_spec(v, data) {
                    Some((sig, signed, _, _)) => {
                        let rec = recovered_signer_of(sig, signing_hash(h.chain_id, keccak_of(signed)));
                        &&& h2.accepts(topic, data) == (rec == Some(signer@))
                        &&& (rec == Some(other) && other != signer@) ==> !h2.accepts(topic, data)
                    },
                    None => !h2.accepts(topic, data),
                },
                None => !h2.accepts(topic, data),
            }
        }),
{
}

} // verus!
