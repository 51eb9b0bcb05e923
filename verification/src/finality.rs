//! Finality-proof checking and the header-sync decision.
//!
//! A finality proof for a header is valid only if precommits from
//! authorities holding at least two thirds of the voting weight of the
//! active authority set carry valid signatures over that header's vote
//! payload. Counting is per authority: several precommits from one
//! authority add its weight once.

use vstd::prelude::*;

use crate::codec::{push_bytes, push_u32_le, push_u64_le, u32_le, u64_le};
use crate::crypto::{ed25519_verified, ed25519_verify};
use crate::types::{HeaderId, RelayError};

verus! {

/// One voting authority: its ed25519 public key and its voting weight.
#[derive(Clone, Copy)]
pub struct Authority {
    /// The authority's public key.
    pub id: [u8; 32],
    /// The authority's voting weight.
    pub weight: u64,
}

/// The authority set active at some range of headers.
pub struct AuthoritySet {
    /// The authorities, in the chain's order.
    pub authorities: Vec<Authority>,
    /// Monotonically increasing identifier of the set.
    pub set_id: u64,
}

/// One precommit inside a finality proof: which authority signed and its
/// signature over the vote payload.
#[derive(Clone, Copy)]
pub struct Precommit {
    /// Public key of the claimed signer.
    pub authority_id: [u8; 32],
    /// The ed25519 signature over the vote payload.
    pub signature: [u8; 64],
}

/// A finality proof for one header: the signed precommits of one round.
pub struct FinalityProof {
    /// The header the proof finalizes.
    pub target: HeaderId,
    /// The voting round the precommits belong to.
    pub round: u64,
    /// The precommits.
    pub precommits: Vec<Precommit>,
}

/// Total voting weight of a run of authorities.
pub open spec fn total_weight(auths: Seq<Authority>) -> int
    decreases auths.len(),
{
    if auths.len() == 0 {
        0
    } else {
        total_weight(auths.drop_last()) + auths.last().weight
    }
}

impl AuthoritySet {
    /// Well-formedness: no key appears twice (so no weight can be counted
    /// twice) and the total weight is representable.
    pub open spec fn wf(self) -> bool {
        &&& forall|i: int, j: int|
            0 <= i < j < self.authorities@.len() ==> (#[trigger] self.authorities@[i]).id@
                != (#[trigger] self.authorities@[j]).id@
        &&& total_weight(self.authorities@) <= u64::MAX
    }
}

/// The bytes an authority signs for a precommit on `target` in `round`
/// under authority set `set_id`.
pub open spec fn vote_payload_bytes(target: HeaderId, round: u64, set_id: u64) -> Seq<u8> {
    target.hash@ + u32_le(target.number) + u64_le(round) + u64_le(set_id)
}

/// Build the vote payload for a precommit.
pub fn vote_payload(target: &HeaderId, round: u64, set_id: u64) -> (out: Vec<u8>)
    ensures
        out@ == vote_payload_bytes(*target, round, set_id),
{
    let mut out: Vec<u8> = Vec::new();
    push_bytes(&mut out, &target.hash);
    push_u32_le(&mut out, target.number);
    push_u64_le(&mut out, round);
    push_u64_le(&mut out, set_id);
    assert(out@ =~= vote_payload_bytes(*target, round, set_id));
    out
}

/// Whether some precommit in `pres` is a valid vote by `auth` on
/// `payload`.
pub open spec fn authority_signed(auth: Authority, pres: Seq<Precommit>, payload: Seq<u8>) -> bool {
    exists|j: int|
        0 <= j < pres.len() && (#[trigger] pres[j]).authority_id@ == auth.id@ && ed25519_verified(
            auth.id@,
            payload,
            pres[j].signature@,
        )
}

/// The voting weight backing `payload`: the weight of every authority
/// with at least one valid precommit, each counted once.
pub open spec fn signed_weight(auths: Seq<Authority>, pres: Seq<Precommit>, payload: Seq<u8>) -> int
    decreases auths.len(),
{
    if auths.len() == 0 {
        0
    } else {
        signed_weight(auths.drop_last(), pres, payload) + if authority_signed(
            auths.last(),
            pres,
            payload,
        ) {
            auths.last().weight as int
        } else {
            0
        }
    }
}

/// The weight of the signers never exceeds the weight of the set.
pub proof fn lemma_signed_weight_le_total(auths: Seq<Authority>, pres: Seq<Precommit>, payload: Seq<u8>)
    ensures
        0 <= signed_weight(auths, pres, payload) <= total_weight(auths),
    decreases auths.len(),
{
    if auths.len() > 0 {
        lemma_signed_weight_le_total(auths.drop_last(), pres, payload);
    }
}

/// Whether `a` and `b` hold the same bytes.
pub fn bytes32_eq(a: &[u8; 32], b: &[u8; 32]) -> (r: bool)
    ensures
        r == (a@ == b@),
{
    let mut i: usize = 0;
    while i < 32
        invariant
            i <= 32,
            forall|j: int| 0 <= j < i ==> a@[j] == b@[j],
        decreases 32 - i,
    {
        if a[i] != b[i] {
            return false;
        }
        i = i + 1;
    }
    assert(a@ =~= b@);
    true
}

/// Check a finality proof against the active authority set.
///
/// Accepts exactly when authorities holding at least two thirds of the
/// set's total voting weight have validly signed the proof's vote
/// payload; everything else is `InvalidProof`, and the caller must not
/// advance its view of the finalized chain.
pub fn verify_finality_proof(set: &AuthoritySet, finality_proof: &FinalityProof) -> (r: Result<
    (),
    RelayError,
>)
    requires
        set.wf(),
    ensures
        r is Ok <==> 3 * signed_weight(
            set.authorities@,
            finality_proof.precommits@,
            vote_payload_bytes(finality_proof.target, finality_proof.round, set.set_id),
        ) >= 2 * total_weight(set.authorities@),
        r is Err ==> r == Err::<(), RelayError>(RelayError::InvalidProof),
{
    let payload = vote_payload(&finality_proof.target, finality_proof.round, set.set_id);
    let ghost payload_spec = payload@;
    let mut signed: u64 = 0;
    let mut i: usize = 0;
    while i < set.authorities.len()
        invariant
            i <= set.authorities@.len(),
            set.wf(),
            payload@ == payload_spec,
            signed == signed_weight(set.authorities@.take(i as int), finality_proof.precommits@, payload_spec),
        decreases set.authorities@.len() - i,
    {
        let auth = set.authorities[i];
        let mut found = false;
        let mut j: usize = 0;
        while j < finality_proof.precommits.len()
            invariant
                j <= finality_proof.precommits@.len(),
                payload@ == payload_spec,
                auth == set.authorities@[i as int],
                found ==> authority_signed(auth, finality_proof.precommits@, payload_spec),
                !found ==> forall|k: int|
                    0 <= k < j ==> !((#[trigger] finality_proof.precommits@[k]).authority_id@ == auth.id@
                        && ed25519_verified(
                        auth.id@,
                        payload_spec,
                        finality_proof.precommits@[k].signature@,
                    )),
            decreases finality_proof.precommits@.len() - j,
        {
            if !found {
                let pre = finality_proof.precommits[j];
                if bytes32_eq(&pre.authority_id, &auth.id) {
                    if ed25519_verify(&auth.id, payload.as_slice(), &pre.signature) {
                        found = true;
                    }
                }
            }
            j = j + 1;
        }
        proof {
            assert(set.authorities@.take(i + 1).drop_last() =~= set.authorities@.take(i as int));
            lemma_signed_weight_le_total(set.authorities@.take(i + 1), finality_proof.precommits@, payload_spec);
            lemma_take_total_weight_le(set.authorities@, i + 1);
        }
        if found {
            signed = signed + auth.weight;
        }
        i = i + 1;
    }
    assert(set.authorities@.take(set.authorities@.len() as int) =~= set.authorities@);
    let total = total_weight_exec(&set.authorities);
    if 3 * (signed as u128) >= 2 * (total as u128) {
        Ok(())
    } else {
        Err(RelayError::InvalidProof)
    }
}

/// The weight of any prefix of a set is at most the weight of the set.
pub proof fn lemma_take_total_weight_le(auths: Seq<Authority>, n: int)
    requires
        0 <= n <= auths.len(),
    ensures
        total_weight(auths.take(n)) <= total_weight(auths),
    decreases auths.len() - n,
{
    if n < auths.len() {
        lemma_take_total_weight_le(auths, n + 1);
        assert(auths.take(n + 1).drop_last() =~= auths.take(n));
    } else {
        assert(auths.take(n) =~= auths);
    }
}

/// Total voting weight of the set.
pub fn total_weight_exec(auths: &Vec<Authority>) -> (total: u64)
    requires
        total_weight(auths@) <= u64::MAX,
    ensures
        total == total_weight(auths@),
{
    let mut total: u64 = 0;
    let mut i: usize = 0;
    while i < auths.len()
        invariant
            i <= auths@.len(),
            total == total_weight(auths@.take(i as int)),
            total_weight(auths@) <= u64::MAX,
        decreases auths@.len() - i,
    {
        proof {
            assert(auths@.take(i + 1).drop_last() =~= auths@.take(i as int));
            lemma_take_total_weight_le(auths@, i + 1);
            lemma_total_weight_nonneg(auths@.take(i as int));
        }
        total = total + auths[i].weight;
        i = i + 1;
    }
    assert(auths@.take(auths@.len() as int) =~= auths@);
    total
}

/// Weights are non-negative, so the total of any run is too.
pub proof fn lemma_total_weight_nonneg(auths: Seq<Authority>)
    ensures
        total_weight(auths) >= 0,
    decreases auths.len(),
{
    if auths.len() > 0 {
        lemma_total_weight_nonneg(auths.drop_last());
    }
}

/// One cycle of the finality sync pipeline: compare the target chain's
/// last known source header against the source chain's best finalized
/// header, and submit a proof only when the source is strictly ahead.
///
/// Never proposes a submission for a header at or below the target's
/// known height, so a raced cycle is a no-op.
pub fn plan_finality_submission(target_known: &HeaderId, source_best: &HeaderId) -> (r: Option<
    HeaderId,
>)
    ensures
        r == if source_best.number > target_known.number {
            Some(*source_best)
        } else {
            None::<HeaderId>
        },
{
    if source_best.number > target_known.number {
        Some(*source_best)
    } else {
        None
    }
}

/// Where one direction of the finality sync pipeline stands.
#[derive(Clone, Copy, PartialEq, Eq, Structural, Debug)]
pub enum FinalitySyncState {
    /// Nothing submitted; each cycle compares the two chains' heights.
    Idle,
    /// A proof for the header at this height was submitted and its
    /// inclusion is awaited.
    AwaitingInclusion {
        /// Height of the submitted header.
        submitted_number: u32,
    },
}

/// One tick of the finality sync state machine, fed with the target's
/// known source height and the source's best finalized header.
///
/// While idle, a submission is proposed exactly when the source is
/// strictly ahead, and the machine then awaits the submission's
/// inclusion; it returns to idle once the target's known height reaches
/// the submitted one. A proof is never proposed for a header at or below
/// the target's known height, and never while an earlier submission is
/// still pending.
pub fn finality_sync_step(
    state: FinalitySyncState,
    target_known: &HeaderId,
    source_best: &HeaderId,
) -> (r: (FinalitySyncState, Option<HeaderId>))
    ensures
        r.1 is Some ==> state == FinalitySyncState::Idle && source_best.number
            > target_known.number && r.1 == Some(*source_best) && r.0
            == (FinalitySyncState::AwaitingInclusion { submitted_number: source_best.number }),
        state == FinalitySyncState::Idle && source_best.number > target_known.number ==> r.1
            == Some(*source_best),
        state == FinalitySyncState::Idle && source_best.number <= target_known.number ==> r == (
            FinalitySyncState::Idle,
            None::<HeaderId>,
        ),
        state matches FinalitySyncState::AwaitingInclusion { submitted_number } ==> r.1
            == None::<HeaderId> && r.0 == if target_known.number >= submitted_number {
            FinalitySyncState::Idle
        } else {
            state
        },
{
    match state {
        FinalitySyncState::Idle => {
            match plan_finality_submission(target_known, source_best) {
                Some(header) => (
                    FinalitySyncState::AwaitingInclusion { submitted_number: header.number },
                    Some(header),
                ),
                None => (FinalitySyncState::Idle, None),
            }
        },
        FinalitySyncState::AwaitingInclusion { submitted_number } => {
            if target_known.number >= submitted_number {
                (FinalitySyncState::Idle, None)
            } else {
                (state, None)
            }
        },
    }
}

/// Account for the outcome of a submitted finality proof.
///
/// A transport failure or a rejection by the target chain (a
/// justification it judged invalid) abandons the cycle without retrying
/// that header: the machine goes idle and a later, higher header
/// supersedes it.
pub fn on_submission_result(
    state: FinalitySyncState,
    accepted: bool,
) -> (r: FinalitySyncState)
    ensures
        r == if accepted {
            state
        } else {
            FinalitySyncState::Idle
        },
{
    if accepted {
        state
    } else {
        FinalitySyncState::Idle
    }
}

} // verus!
