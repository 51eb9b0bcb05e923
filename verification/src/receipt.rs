//! Parachain candidate receipts and the statements signed over them.
//!
//! A full receipt duplicates data the relay chain already holds; the
//! abridged form omits it and is the canonical object whose hash names
//! the candidate. Splitting and recombining the two forms loses nothing,
//! which the contracts here state field by field.

use vstd::prelude::*;

use crate::codec::{
    collator_signature_payload, collator_payload_bytes, compact_len, compact_statement_bytes,
    encode_compact_statement, push_bytes, push_compact_len, push_u128_le, push_u32_le,
    CompactStatement,
};
use crate::crypto::{blake2b_256, blake2b_256_of, sr25519_verified, sr25519_verify};

verus! {

/// Index of a validator inside the active validator set.
#[derive(Clone, Copy, PartialEq, Eq, Structural, Debug)]
pub struct ValidatorIndex(pub u32);

impl core::convert::From<u32> for ValidatorIndex {
    fn from(n: u32) -> (r: ValidatorIndex) {
        ValidatorIndex(n)
    }
}

impl vstd::std_specs::convert::FromSpecImpl<u32> for ValidatorIndex {
    open spec fn obeys_from_spec() -> bool {
        true
    }

    open spec fn from_spec(n: u32) -> ValidatorIndex {
        ValidatorIndex(n)
    }
}

/// Commitments made as a result of validating a candidate.
pub struct CandidateCommitments {
    /// Fees paid from the chain to the relay-chain validators.
    pub fees: u128,
    /// Messages destined for the relay chain itself.
    pub upward_messages: Vec<Vec<u8>>,
    /// Root of the block's erasure-encoding Merkle tree.
    pub erasure_root: [u8; 32],
    /// New validation code, when the candidate upgrades it.
    pub new_validation_code: Option<Vec<u8>>,
    /// Number of downward messages processed by the parachain.
    pub processed_downward_messages: u32,
}

/// Global parameters every candidate of a block is validated under.
#[derive(Clone, Copy, PartialEq, Eq, Structural)]
pub struct GlobalValidationData {
    /// Maximal permitted validation-code size, in bytes.
    pub max_code_size: u32,
    /// Maximal permitted head-data size, in bytes.
    pub max_head_data_size: u32,
    /// The relay-chain block number this is in the context of.
    pub block_number: u32,
}

/// Parachain-specific data needed to validate a candidate.
pub struct LocalValidationData {
    /// The parent head data.
    pub parent_head: Vec<u8>,
    /// The parachain's balance at validation time.
    pub balance: u128,
    /// Minimal relay-chain height at which a signalled code upgrade
    /// would be applied, when upgrading is allowed.
    pub code_upgrade_allowed: Option<u32>,
}

/// All data pertaining to the execution of a parachain candidate.
pub struct CandidateReceipt {
    /// The parachain this is a candidate for.
    pub parachain_index: u32,
    /// Hash of the relay-chain block this executes in the context of.
    pub relay_parent: [u8; 32],
    /// The head data.
    pub head_data: Vec<u8>,
    /// The collator's relay-chain account.
    pub collator: [u8; 32],
    /// The collator's signature over the candidate's payload.
    pub signature: [u8; 64],
    /// Hash of the PoV block.
    pub pov_block_hash: [u8; 32],
    /// The global validation schedule.
    pub global_validation: GlobalValidationData,
    /// The local validation data.
    pub local_validation: LocalValidationData,
    /// Commitments made as a result of validation.
    pub commitments: CandidateCommitments,
}

/// The data omitted from an abridged receipt: it can be regenerated from
/// relay-chain state.
pub struct OmittedValidationData {
    /// The global validation schedule.
    pub global_validation: GlobalValidationData,
    /// The local validation data.
    pub local_validation: LocalValidationData,
}

/// An abridged candidate receipt: the full receipt with the
/// relay-chain-derivable data omitted.
pub struct AbridgedCandidateReceipt {
    /// The parachain this is a candidate for.
    pub parachain_index: u32,
    /// Hash of the relay-chain block this executes in the context of.
    pub relay_parent: [u8; 32],
    /// The head data.
    pub head_data: Vec<u8>,
    /// The collator's relay-chain account.
    pub collator: [u8; 32],
    /// The collator's signature over the candidate's payload.
    pub signature: [u8; 64],
    /// Hash of the PoV block.
    pub pov_block_hash: [u8; 32],
    /// Commitments made as a result of validation.
    pub commitments: CandidateCommitments,
}

/// The portions of a receipt a collator sends along with its block.
pub struct CollationInfo {
    /// The parachain this is a candidate for.
    pub parachain_index: u32,
    /// Hash of the relay-chain block this executes in the context of.
    pub relay_parent: [u8; 32],
    /// The collator's relay-chain account.
    pub collator: [u8; 32],
    /// The collator's signature over the candidate's payload.
    pub signature: [u8; 64],
    /// The head data.
    pub head_data: Vec<u8>,
    /// Hash of the PoV block.
    pub pov_block_hash: [u8; 32],
}

/// A unique lightweight descriptor of a candidate receipt.
pub struct CandidateDescriptor {
    /// The parachain this is a candidate for.
    pub para_id: u32,
    /// Hash of the relay-chain block this executes in the context of.
    pub relay_parent: [u8; 32],
    /// The collator's relay-chain account.
    pub collator: [u8; 32],
    /// The collator's signature over the candidate's payload.
    pub signature: [u8; 64],
    /// Hash of the PoV block.
    pub pov_hash: [u8; 32],
}

/// Check a collator's signature over a relay-parent, parachain-id,
/// PoV-hash combination.
pub fn check_collator_signature(
    relay_parent: &[u8; 32],
    parachain_index: u32,
    pov_block_hash: &[u8; 32],
    collator: &[u8; 32],
    signature: &[u8; 64],
) -> (r: Result<(), ()>)
    ensures
        r is Ok <==> sr25519_verified(
            collator@,
            collator_payload_bytes(relay_parent@, parachain_index, pov_block_hash@),
            signature@,
        ),
{
    let payload = collator_signature_payload(relay_parent, parachain_index, pov_block_hash);
    if sr25519_verify(collator, &payload, signature) {
        Ok(())
    } else {
        Err(())
    }
}

impl CandidateReceipt {
    /// Check integrity versus the provided block data.
    pub fn check_signature(&self) -> (r: Result<(), ()>)
        ensures
            r is Ok <==> sr25519_verified(
                self.collator@,
                collator_payload_bytes(
                    self.relay_parent@,
                    self.parachain_index,
                    self.pov_block_hash@,
                ),
                self.signature@,
            ),
    {
        check_collator_signature(
            &self.relay_parent,
            self.parachain_index,
            &self.pov_block_hash,
            &self.collator,
            &self.signature,
        )
    }

    /// Split this receipt into its abridged form and the omitted
    /// component; nothing is lost.
    pub fn abridge(self) -> (r: (AbridgedCandidateReceipt, OmittedValidationData))
        ensures
            r.0.parachain_index == self.parachain_index,
            r.0.relay_parent@ == self.relay_parent@,
            r.0.head_data@ == self.head_data@,
            r.0.collator@ == self.collator@,
            r.0.signature@ == self.signature@,
            r.0.pov_block_hash@ == self.pov_block_hash@,
            r.0.commitments == self.commitments,
            r.1.global_validation == self.global_validation,
            r.1.local_validation == self.local_validation,
    {
        let CandidateReceipt {
            parachain_index,
            relay_parent,
            head_data,
            collator,
            signature,
            pov_block_hash,
            global_validation,
            local_validation,
            commitments,
        } = self;
        let abridged = AbridgedCandidateReceipt {
            parachain_index,
            relay_parent,
            head_data,
            collator,
            signature,
            pov_block_hash,
            commitments,
        };
        let omitted = OmittedValidationData { global_validation, local_validation };
        (abridged, omitted)
    }
}

impl AbridgedCandidateReceipt {
    /// Check integrity versus the provided block data.
    pub fn check_signature(&self) -> (r: Result<(), ()>)
        ensures
            r is Ok <==> sr25519_verified(
                self.collator@,
                collator_payload_bytes(
                    self.relay_parent@,
                    self.parachain_index,
                    self.pov_block_hash@,
                ),
                self.signature@,
            ),
    {
        check_collator_signature(
            &self.relay_parent,
            self.parachain_index,
            &self.pov_block_hash,
            &self.collator,
            &self.signature,
        )
    }

    /// Combine the abridged receipt with the omitted data, forming a
    /// full receipt again; the inverse of `abridge`.
    pub fn complete(self, omitted: OmittedValidationData) -> (r: CandidateReceipt)
        ensures
            r.parachain_index == self.parachain_index,
            r.relay_parent@ == self.relay_parent@,
            r.head_data@ == self.head_data@,
            r.collator@ == self.collator@,
            r.signature@ == self.signature@,
            r.pov_block_hash@ == self.pov_block_hash@,
            r.commitments == self.commitments,
            r.global_validation == omitted.global_validation,
            r.local_validation == omitted.local_validation,
    {
        let AbridgedCandidateReceipt {
            parachain_index,
            relay_parent,
            head_data,
            collator,
            signature,
            pov_block_hash,
            commitments,
        } = self;
        let OmittedValidationData { global_validation, local_validation } = omitted;
        CandidateReceipt {
            parachain_index,
            relay_parent,
            head_data,
            collator,
            signature,
            pov_block_hash,
            local_validation,
            global_validation,
            commitments,
        }
    }

    /// Clone the relevant portions into a `CollationInfo`.
    pub fn to_collation_info(&self) -> (r: CollationInfo)
        ensures
            r.parachain_index == self.parachain_index,
            r.relay_parent@ == self.relay_parent@,
            r.head_data@ == self.head_data@,
            r.collator@ == self.collator@,
            r.signature@ == self.signature@,
            r.pov_block_hash@ == self.pov_block_hash@,
    {
        CollationInfo {
            parachain_index: self.parachain_index,
            relay_parent: self.relay_parent,
            head_data: self.head_data.clone(),
            collator: self.collator,
            signature: self.signature,
            pov_block_hash: self.pov_block_hash,
        }
    }

    /// Clone the relevant portions into a `CandidateDescriptor`.
    pub fn to_descriptor(&self) -> (r: CandidateDescriptor)
        ensures
            r.para_id == self.parachain_index,
            r.relay_parent@ == self.relay_parent@,
            r.collator@ == self.collator@,
            r.signature@ == self.signature@,
            r.pov_hash@ == self.pov_block_hash@,
    {
        CandidateDescriptor {
            para_id: self.parachain_index,
            relay_parent: self.relay_parent,
            collator: self.collator,
            signature: self.signature,
            pov_hash: self.pov_block_hash,
        }
    }

    /// The bytes identifying this receipt, in the order its fields are
    /// committed to.
    pub open spec fn spec_bytes(self) -> Seq<u8> {
        crate::codec::u32_le(self.parachain_index) + self.relay_parent@ + compact_len(
            self.head_data@.len() as u32,
        ) + self.head_data@ + self.collator@ + self.signature@ + self.pov_block_hash@
            + commitments_bytes(self.commitments)
    }

    /// Encode the receipt for hashing.
    pub fn encode(&self) -> (out: Vec<u8>)
        requires
            self.head_data@.len() < 0x4000_0000,
            self.commitments.wf(),
        ensures
            out@ == self.spec_bytes(),
    {
        let mut out: Vec<u8> = Vec::new();
        push_u32_le(&mut out, self.parachain_index);
        push_bytes(&mut out, &self.relay_parent);
        push_compact_len(&mut out, self.head_data.len() as u32);
        push_bytes(&mut out, self.head_data.as_slice());
        push_bytes(&mut out, &self.collator);
        push_bytes(&mut out, &self.signature);
        push_bytes(&mut out, &self.pov_block_hash);
        encode_commitments_into(&mut out, &self.commitments);
        assert(out@ =~= self.spec_bytes());
        out
    }

    /// Compute the canonical hash of the receipt: the hash of its
    /// abridged encoding names the candidate everywhere.
    pub fn hash(&self) -> (h: [u8; 32])
        requires
            self.head_data@.len() < 0x4000_0000,
            self.commitments.wf(),
        ensures
            h@ == blake2b_256_of(self.spec_bytes()),
    {
        let encoded = self.encode();
        blake2b_256(encoded.as_slice())
    }
}

/// The concatenated, length-prefixed encoding of a run of upward
/// messages.
pub open spec fn messages_bytes(msgs: Seq<Seq<u8>>) -> Seq<u8>
    decreases msgs.len(),
{
    if msgs.len() == 0 {
        Seq::empty()
    } else {
        messages_bytes(msgs.drop_last()) + compact_len(msgs.last().len() as u32) + msgs.last()
    }
}

impl CandidateCommitments {
    /// Sizes the compact length prefixes can carry.
    pub open spec fn wf(self) -> bool {
        &&& self.upward_messages@.len() < 0x4000_0000
        &&& forall|i: int|
            0 <= i < self.upward_messages@.len() ==> (#[trigger] self.upward_messages@[i])@.len()
                < 0x4000_0000
        &&& (self.new_validation_code matches Some(c) ==> c@.len() < 0x4000_0000)
    }

    /// The bytes the commitments contribute to a receipt's encoding.
    pub open spec fn spec_bytes(self) -> Seq<u8> {
        crate::codec::u128_le(self.fees) + compact_len(self.upward_messages@.len() as u32)
            + messages_bytes(self.upward_messages@.map_values(|m: Vec<u8>| m@)) + self.erasure_root@
            + match self.new_validation_code {
            Some(code) => seq![1u8] + compact_len(code@.len() as u32) + code@,
            None => seq![0u8],
        } + crate::codec::u32_le(self.processed_downward_messages)
    }
}

/// The bytes the commitments contribute to a receipt's encoding.
pub open spec fn commitments_bytes(c: CandidateCommitments) -> Seq<u8> {
    c.spec_bytes()
}

/// Append the encoding of the commitments.
pub fn encode_commitments_into(out: &mut Vec<u8>, c: &CandidateCommitments)
    requires
        c.wf(),
    ensures
        final(out)@ == old(out)@ + commitments_bytes(*c),
{
    push_u128_le(out, c.fees);
    push_compact_len(out, c.upward_messages.len() as u32);
    let ghost views = c.upward_messages@.map_values(|m: Vec<u8>| m@);
    let ghost mid = out@;
    let mut i: usize = 0;
    while i < c.upward_messages.len()
        invariant
            i <= c.upward_messages@.len(),
            c.wf(),
            views == c.upward_messages@.map_values(|m: Vec<u8>| m@),
            out@ == mid + messages_bytes(views.take(i as int)),
        decreases c.upward_messages@.len() - i,
    {
        let msg = &c.upward_messages[i];
        push_compact_len(out, msg.len() as u32);
        push_bytes(out, msg.as_slice());
        assert(views.take(i + 1).drop_last() =~= views.take(i as int));
        assert(out@ =~= mid + messages_bytes(views.take(i + 1)));
        i = i + 1;
    }
    assert(views.take(views.len() as int) =~= views);
    push_bytes(out, &c.erasure_root);
    match &c.new_validation_code {
        Some(code) => {
            out.push(1);
            push_compact_len(out, code.len() as u32);
            push_bytes(out, code.as_slice());
        },
        None => {
            out.push(0);
        },
    }
    push_u32_le(out, c.processed_downward_messages);
    assert(out@ =~= old(out)@ + commitments_bytes(*c));
}

impl CollationInfo {
    /// Check integrity versus a PoV block.
    pub fn check_signature(&self) -> (r: Result<(), ()>)
        ensures
            r is Ok <==> sr25519_verified(
                self.collator@,
                collator_payload_bytes(
                    self.relay_parent@,
                    self.parachain_index,
                    self.pov_block_hash@,
                ),
                self.signature@,
            ),
    {
        check_collator_signature(
            &self.relay_parent,
            self.parachain_index,
            &self.pov_block_hash,
            &self.collator,
            &self.signature,
        )
    }

    /// Turn this into an abridged receipt by supplying the commitments;
    /// the inverse of `to_collation_info` up to the commitments.
    pub fn into_receipt(self, commitments: CandidateCommitments) -> (r: AbridgedCandidateReceipt)
        ensures
            r.parachain_index == self.parachain_index,
            r.relay_parent@ == self.relay_parent@,
            r.head_data@ == self.head_data@,
            r.collator@ == self.collator@,
            r.signature@ == self.signature@,
            r.pov_block_hash@ == self.pov_block_hash@,
            r.commitments == commitments,
    {
        let CollationInfo {
            parachain_index,
            relay_parent,
            collator,
            signature,
            head_data,
            pov_block_hash,
        } = self;
        AbridgedCandidateReceipt {
            parachain_index,
            relay_parent,
            collator,
            signature,
            head_data,
            pov_block_hash,
            commitments,
        }
    }
}

/// A Proof-of-Validation block.
pub struct PoVBlock {
    /// The block data.
    pub block_data: Vec<u8>,
}

impl PoVBlock {
    /// The encoded form of the block: its length-prefixed data.
    pub open spec fn spec_bytes(self) -> Seq<u8> {
        compact_len(self.block_data@.len() as u32) + self.block_data@
    }

    /// Compute the hash of the block data.
    pub fn hash(&self) -> (h: [u8; 32])
        requires
            self.block_data@.len() < 0x4000_0000,
        ensures
            h@ == blake2b_256_of(self.spec_bytes()),
    {
        let mut out: Vec<u8> = Vec::new();
        push_compact_len(&mut out, self.block_data.len() as u32);
        push_bytes(&mut out, self.block_data.as_slice());
        assert(out@ =~= self.spec_bytes());
        blake2b_256(out.as_slice())
    }
}

/// A session index together with the parent hash, fixing the context a
/// statement is signed in.
#[derive(Clone, Copy)]
pub struct SigningContext {
    /// Current session index.
    pub session_index: u32,
    /// Hash of the parent block.
    pub parent_hash: [u8; 32],
}

/// The bytes a signing context contributes to a signed payload.
pub open spec fn signing_context_bytes(c: SigningContext) -> Seq<u8> {
    crate::codec::u32_le(c.session_index) + c.parent_hash@
}

/// An implicit or explicit attestation to the validity of a parachain
/// candidate.
#[derive(Clone, Copy)]
pub enum ValidityAttestation {
    /// Implicit attestation by proposing: a `Seconded` statement.
    Implicit([u8; 64]),
    /// Explicit attestation: a `Valid` statement.
    Explicit([u8; 64]),
}

impl ValidityAttestation {
    /// The attestation's signature.
    pub fn signature(&self) -> (s: &[u8; 64])
        ensures
            s@ == match *self {
                ValidityAttestation::Implicit(sig) => sig@,
                ValidityAttestation::Explicit(sig) => sig@,
            },
    {
        match self {
            ValidityAttestation::Implicit(sig) => sig,
            ValidityAttestation::Explicit(sig) => sig,
        }
    }

    /// The payload this attestation signs for a candidate hash, given
    /// the signing context: the matching statement followed by the
    /// context.
    pub fn signed_payload(&self, candidate_hash: &[u8; 32], context: &SigningContext) -> (out: Vec<
        u8,
    >)
        ensures
            out@ == match *self {
                ValidityAttestation::Implicit(_) => compact_statement_bytes(
                    CompactStatement::Seconded(*candidate_hash),
                ) + signing_context_bytes(*context),
                ValidityAttestation::Explicit(_) => compact_statement_bytes(
                    CompactStatement::Valid(*candidate_hash),
                ) + signing_context_bytes(*context),
            },
    {
        let statement = match self {
            ValidityAttestation::Implicit(_) => CompactStatement::Seconded(*candidate_hash),
            ValidityAttestation::Explicit(_) => CompactStatement::Valid(*candidate_hash),
        };
        let mut out = encode_compact_statement(&statement);
        push_u32_le(&mut out, context.session_index);
        push_bytes(&mut out, &context.parent_hash);
        assert(out@ =~= compact_statement_bytes(statement) + signing_context_bytes(*context));
        out
    }
}

/// An attested candidate, as submitted to the relay chain by a block
/// author.
pub struct AttestedCandidate {
    /// The abridged candidate data.
    pub candidate: AbridgedCandidateReceipt,
    /// Validity attestations.
    pub validity_votes: Vec<ValidityAttestation>,
    /// For each validator, whether one of the votes is its own.
    pub validator_indices: Vec<bool>,
}

impl AttestedCandidate {
    /// The candidate.
    pub fn candidate(&self) -> (c: &AbridgedCandidateReceipt)
        ensures
            c == &self.candidate,
    {
        &self.candidate
    }

    /// The parachain the candidate belongs to.
    pub fn parachain_index(&self) -> (r: u32)
        ensures
            r == self.candidate.parachain_index,
    {
        self.candidate.parachain_index
    }
}

} // verus!
