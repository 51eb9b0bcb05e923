//! Sovereign-account derivation.
//!
//! A message arriving from a bridged chain acts on the target chain
//! through an account derived from the source chain's identifier and the
//! source account. The derivation input is domain separated so that two
//! different source chains can never feed the same bytes to the hash for
//! structurally identical source accounts.

use vstd::prelude::*;

use crate::codec::push_bytes;
use crate::crypto::{blake2b_256, blake2b_256_of};

verus! {

/// Identifier of a bridged chain, as carried inside derived-account
/// preimages and call payloads.
pub type ChainId = [u8; 4];

/// The source-chain origin an inbound message claims: the chain's root
/// origin or one of its accounts.
#[derive(Clone, Copy)]
pub enum SourceAccount {
    /// The source chain's root origin.
    Root,
    /// An account of the source chain.
    Account([u8; 32]),
}

/// Domain-separation prefix of every derived-account preimage: the ASCII
/// bytes of "account-derivation".
pub open spec fn derivation_prefix() -> Seq<u8> {
    seq![
        0x61u8, 0x63u8, 0x63u8, 0x6fu8, 0x75u8, 0x6eu8, 0x74u8, 0x2du8, 0x64u8, 0x65u8, 0x72u8,
        0x69u8, 0x76u8, 0x61u8, 0x74u8, 0x69u8, 0x6fu8, 0x6eu8,
    ]
}

/// The bytes hashed to derive a target-chain account: the prefix, the
/// source chain id, and a tagged encoding of the source origin.
pub open spec fn derivation_preimage(chain_id: ChainId, account: SourceAccount) -> Seq<u8> {
    derivation_prefix() + chain_id@ + match account {
        SourceAccount::Root => seq![0u8],
        SourceAccount::Account(id) => seq![1u8] + id@,
    }
}

/// Derive the target-chain account standing for `account` of the source
/// chain identified by `chain_id`.
pub fn derive_account_id(chain_id: &ChainId, account: &SourceAccount) -> (r: [u8; 32])
    ensures
        r@ == blake2b_256_of(derivation_preimage(*chain_id, *account)),
{
    let mut preimage: Vec<u8> = Vec::new();
    let prefix: [u8; 18] = [
        0x61, 0x63, 0x63, 0x6f, 0x75, 0x6e, 0x74, 0x2d, 0x64, 0x65, 0x72, 0x69, 0x76, 0x61, 0x74,
        0x69, 0x6f, 0x6e,
    ];
    assert(prefix@ =~= derivation_prefix());
    push_bytes(&mut preimage, &prefix);
    push_bytes(&mut preimage, chain_id);
    match account {
        SourceAccount::Root => {
            preimage.push(0);
        },
        SourceAccount::Account(id) => {
            preimage.push(1);
            push_bytes(&mut preimage, id);
        },
    }
    assert(preimage@ =~= derivation_preimage(*chain_id, *account));
    blake2b_256(preimage.as_slice())
}

/// Sovereign-account separation at the hash input: different source
/// chains, or different source origins, never produce the same
/// derivation preimage. Whatever two distinct inputs the hash receives,
/// they are distinct bytes.
pub proof fn lemma_derivation_preimage_injective(
    chain_id_1: ChainId,
    account_1: SourceAccount,
    chain_id_2: ChainId,
    account_2: SourceAccount,
)
    requires
        chain_id_1@ != chain_id_2@ || !spec_same_account(account_1, account_2),
    ensures
        derivation_preimage(chain_id_1, account_1) != derivation_preimage(chain_id_2, account_2),
{
    let p1 = derivation_preimage(chain_id_1, account_1);
    let p2 = derivation_preimage(chain_id_2, account_2);
    if p1 == p2 {
        if chain_id_1@ != chain_id_2@ {
            assert(exists|k: int| 0 <= k < 4 && chain_id_1@[k] != chain_id_2@[k]) by {
                if forall|k: int| 0 <= k < 4 ==> chain_id_1@[k] == chain_id_2@[k] {
                    assert(chain_id_1@ =~= chain_id_2@);
                }
            }
            let k = choose|k: int| 0 <= k < 4 && chain_id_1@[k] != chain_id_2@[k];
            assert(p1[18 + k] == chain_id_1@[k]);
            assert(p2[18 + k] == chain_id_2@[k]);
        } else {
            match (account_1, account_2) {
                (SourceAccount::Root, SourceAccount::Root) => {},
                (SourceAccount::Root, SourceAccount::Account(_)) => {
                    assert(p1.len() == 23);
                    assert(p2.len() == 55);
                },
                (SourceAccount::Account(_), SourceAccount::Root) => {
                    assert(p1.len() == 55);
                    assert(p2.len() == 23);
                },
                (SourceAccount::Account(a), SourceAccount::Account(b)) => {
                    assert(exists|k: int| 0 <= k < 32 && a@[k] != b@[k]) by {
                        if forall|k: int| 0 <= k < 32 ==> a@[k] == b@[k] {
                            assert(a@ =~= b@);
                        }
                    }
                    let k = choose|k: int| 0 <= k < 32 && a@[k] != b@[k];
                    assert(p1[23 + k] == a@[k]);
                    assert(p2[23 + k] == b@[k]);
                },
            }
        }
    }
}

/// Whether two source origins are structurally the same.
pub open spec fn spec_same_account(a: SourceAccount, b: SourceAccount) -> bool {
    match (a, b) {
        (SourceAccount::Root, SourceAccount::Root) => true,
        (SourceAccount::Account(x), SourceAccount::Account(y)) => x@ == y@,
        _ => false,
    }
}

/// The bytes an account owner signs to prove, on the source chain, that
/// it also controls a target-chain account: the encoded call, the
/// account, the target runtime's spec version and both chain ids.
pub open spec fn ownership_digest_bytes(
    call: Seq<u8>,
    account: Seq<u8>,
    spec_version: u32,
    source_chain_id: ChainId,
    target_chain_id: ChainId,
) -> Seq<u8> {
    call + account + crate::codec::u32_le(spec_version) + source_chain_id@ + target_chain_id@
}

/// Build the account-ownership digest for a call to be dispatched on the
/// target chain on behalf of a source-chain account.
pub fn account_ownership_digest(
    call: &[u8],
    account: &[u8; 32],
    spec_version: u32,
    source_chain_id: &ChainId,
    target_chain_id: &ChainId,
) -> (out: Vec<u8>)
    ensures
        out@ == ownership_digest_bytes(
            call@,
            account@,
            spec_version,
            *source_chain_id,
            *target_chain_id,
        ),
{
    let mut out: Vec<u8> = Vec::new();
    push_bytes(&mut out, call);
    push_bytes(&mut out, account);
    crate::codec::push_u32_le(&mut out, spec_version);
    push_bytes(&mut out, source_chain_id);
    push_bytes(&mut out, target_chain_id);
    assert(out@ =~= ownership_digest_bytes(
        call@,
        account@,
        spec_version,
        *source_chain_id,
        *target_chain_id,
    ));
    out
}

} // verus!
