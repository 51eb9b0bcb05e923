//! Dispatchable-call encoding and transaction construction.
//!
//! A transaction is an opaque signed byte blob built from a
//! chain-specific call encoding. Each call variant carries a pallet
//! index and a call index that must exactly match what the target
//! chain's runtime currently assigns, so every constructor here is
//! stamped with the runtime spec version the indices were taken from and
//! refuses to build a transaction when the chain reports another
//! version.

use vstd::prelude::*;

use crate::codec::{
    compact_len, push_bytes, push_compact_len, push_u128_le, push_u32_le, push_u64_le, u128_le,
    u32_le, u64_le,
};
use crate::crypto::{sr25519_public, sr25519_public_of, sr25519_sign, sr25519_verified};
use crate::relayers::UnrewardedRelayersState;
use crate::types::{Balance, LaneId, RelayError, Weight};

verus! {

/// Where each pallet the relay talks to sits in the target runtime's
/// dispatch table, stamped with the runtime spec version the table was
/// taken from.
#[derive(Clone, Copy, PartialEq, Eq, Structural, Debug)]
pub struct CallIndexTable {
    /// Index of the system pallet.
    pub system_pallet_index: u8,
    /// Index of the bridge GRANDPA (finality) pallet.
    pub grandpa_pallet_index: u8,
    /// Index of the bridge messages pallet.
    pub messages_pallet_index: u8,
    /// Spec version of the runtime this table mirrors.
    pub spec_version: u32,
}

/// Calls of the system pallet the relay can encode.
#[allow(non_camel_case_types)]
pub enum SystemCall {
    /// Place an opaque remark on chain.
    remark(Vec<u8>),
}

/// The SCALE bytes of a system-pallet call under pallet index `pallet`.
pub open spec fn system_call_bytes(pallet: u8, call: SystemCall) -> Seq<u8> {
    match call {
        SystemCall::remark(data) => seq![pallet, 1u8] + compact_len(data@.len() as u32) + data@,
    }
}

/// Encode a system-pallet call.
pub fn encode_system_call(pallet: u8, call: &SystemCall) -> (out: Vec<u8>)
    requires
        call matches SystemCall::remark(data) ==> data@.len() < 0x4000_0000,
    ensures
        out@ == system_call_bytes(pallet, *call),
{
    let mut out: Vec<u8> = Vec::new();
    match call {
        SystemCall::remark(data) => {
            out.push(pallet);
            out.push(1);
            push_compact_len(&mut out, data.len() as u32);
            push_bytes(&mut out, data.as_slice());
            assert(out@ =~= system_call_bytes(pallet, *call));
        },
    }
    out
}

/// The bytes of a submit-finality-proof call: the pallet index, the call
/// index, then the already-encoded header and justification.
pub open spec fn submit_finality_proof_bytes(
    pallet: u8,
    header_encoded: Seq<u8>,
    justification_encoded: Seq<u8>,
) -> Seq<u8> {
    seq![pallet, 0u8] + header_encoded + justification_encoded
}

/// Encode a submit-finality-proof call for the target's bridge module.
pub fn encode_submit_finality_proof(
    pallet: u8,
    header_encoded: &[u8],
    justification_encoded: &[u8],
) -> (out: Vec<u8>)
    ensures
        out@ == submit_finality_proof_bytes(pallet, header_encoded@, justification_encoded@),
{
    let mut out: Vec<u8> = Vec::new();
    out.push(pallet);
    out.push(0);
    push_bytes(&mut out, header_encoded);
    push_bytes(&mut out, justification_encoded);
    assert(out@ =~= submit_finality_proof_bytes(
        pallet,
        header_encoded@,
        justification_encoded@,
    ));
    out
}

/// The bytes of a receive-messages-proof call: pallet and call index,
/// the relayer account, the already-encoded messages proof, the message
/// count and the total dispatch weight.
pub open spec fn receive_messages_proof_bytes(
    pallet: u8,
    relayer_id_at_source: Seq<u8>,
    proof_encoded: Seq<u8>,
    messages_count: u32,
    dispatch_weight: Weight,
) -> Seq<u8> {
    seq![pallet, 5u8] + relayer_id_at_source + proof_encoded + u32_le(messages_count) + u64_le(
        dispatch_weight,
    )
}

/// Encode a delivery (receive-messages-proof) call for the target chain.
pub fn encode_receive_messages_proof(
    pallet: u8,
    relayer_id_at_source: &[u8; 32],
    proof_encoded: &[u8],
    messages_count: u32,
    dispatch_weight: Weight,
) -> (out: Vec<u8>)
    ensures
        out@ == receive_messages_proof_bytes(
            pallet,
            relayer_id_at_source@,
            proof_encoded@,
            messages_count,
            dispatch_weight,
        ),
{
    let mut out: Vec<u8> = Vec::new();
    out.push(pallet);
    out.push(5);
    push_bytes(&mut out, relayer_id_at_source);
    push_bytes(&mut out, proof_encoded);
    push_u32_le(&mut out, messages_count);
    push_u64_le(&mut out, dispatch_weight);
    assert(out@ =~= receive_messages_proof_bytes(
        pallet,
        relayer_id_at_source@,
        proof_encoded@,
        messages_count,
        dispatch_weight,
    ));
    out
}

/// The bytes of a receive-messages-delivery-proof (confirmation) call:
/// pallet and call index, the already-encoded delivery proof and the
/// relayers-state snapshot.
pub open spec fn receive_messages_delivery_proof_bytes(
    pallet: u8,
    proof_encoded: Seq<u8>,
    relayers_state: UnrewardedRelayersState,
) -> Seq<u8> {
    seq![pallet, 6u8] + proof_encoded + u64_le(relayers_state.unrewarded_relayer_entries) + u64_le(
        relayers_state.messages_in_oldest_entry,
    ) + u64_le(relayers_state.total_messages)
}

/// Encode a confirmation (receive-messages-delivery-proof) call for the
/// source chain.
pub fn encode_receive_messages_delivery_proof(
    pallet: u8,
    proof_encoded: &[u8],
    relayers_state: &UnrewardedRelayersState,
) -> (out: Vec<u8>)
    ensures
        out@ == receive_messages_delivery_proof_bytes(pallet, proof_encoded@, *relayers_state),
{
    let mut out: Vec<u8> = Vec::new();
    out.push(pallet);
    out.push(6);
    push_bytes(&mut out, proof_encoded);
    push_u64_le(&mut out, relayers_state.unrewarded_relayer_entries);
    push_u64_le(&mut out, relayers_state.messages_in_oldest_entry);
    push_u64_le(&mut out, relayers_state.total_messages);
    assert(out@ =~= receive_messages_delivery_proof_bytes(
        pallet,
        proof_encoded@,
        *relayers_state,
    ));
    out
}

/// The bytes of a send-message call: pallet and call index, the lane,
/// the length-prefixed payload and the declared fee.
pub open spec fn send_message_bytes(
    pallet: u8,
    lane: LaneId,
    payload: Seq<u8>,
    fee: Balance,
) -> Seq<u8> {
    seq![pallet, 3u8] + lane@ + compact_len(payload.len() as u32) + payload + u128_le(fee)
}

/// Encode a send-message call for the source chain.
pub fn encode_send_message(pallet: u8, lane: &LaneId, payload: &[u8], fee: Balance) -> (out: Vec<
    u8,
>)
    requires
        payload@.len() < 0x4000_0000,
    ensures
        out@ == send_message_bytes(pallet, *lane, payload@, fee),
{
    let mut out: Vec<u8> = Vec::new();
    out.push(pallet);
    out.push(3);
    push_bytes(&mut out, lane);
    push_compact_len(&mut out, payload.len() as u32);
    push_bytes(&mut out, payload);
    push_u128_le(&mut out, fee);
    assert(out@ =~= send_message_bytes(pallet, *lane, payload@, fee));
    out
}

/// The bytes a transaction author signs: the call, the immortal-era
/// marker, the author's transaction nonce, the runtime spec version and
/// the genesis hash.
pub open spec fn signing_payload_bytes(
    call: Seq<u8>,
    nonce: u32,
    spec_version: u32,
    genesis_hash: Seq<u8>,
) -> Seq<u8> {
    call + seq![0u8] + u32_le(nonce) + u32_le(spec_version) + genesis_hash
}

/// Build the bytes a transaction author signs.
pub fn build_signing_payload(
    call: &[u8],
    nonce: u32,
    spec_version: u32,
    genesis_hash: &[u8; 32],
) -> (out: Vec<u8>)
    ensures
        out@ == signing_payload_bytes(call@, nonce, spec_version, genesis_hash@),
{
    let mut out: Vec<u8> = Vec::new();
    push_bytes(&mut out, call);
    out.push(0);
    push_u32_le(&mut out, nonce);
    push_u32_le(&mut out, spec_version);
    push_bytes(&mut out, genesis_hash);
    assert(out@ =~= signing_payload_bytes(call@, nonce, spec_version, genesis_hash@));
    out
}

/// The bytes of a signed transaction: a signed-extrinsic marker, the
/// author, the signature, the immortal-era marker, the nonce and the
/// call.
pub open spec fn signed_transaction_bytes(
    call: Seq<u8>,
    signer: Seq<u8>,
    signature: Seq<u8>,
    nonce: u32,
) -> Seq<u8> {
    seq![0x84u8] + signer + signature + seq![0u8] + u32_le(nonce) + call
}

/// Assemble a signed transaction from its already-computed signature.
pub fn build_signed_transaction(
    call: &[u8],
    signer: &[u8; 32],
    signature: &[u8; 64],
    nonce: u32,
) -> (out: Vec<u8>)
    ensures
        out@ == signed_transaction_bytes(call@, signer@, signature@, nonce),
{
    let mut out: Vec<u8> = Vec::new();
    out.push(0x84);
    push_bytes(&mut out, signer);
    push_bytes(&mut out, signature);
    out.push(0);
    push_u32_le(&mut out, nonce);
    push_bytes(&mut out, call);
    assert(out@ =~= signed_transaction_bytes(call@, signer@, signature@, nonce));
    out
}

/// `tx` is a correctly signed transaction carrying `call` for the signer
/// expanded from `seed`: its bytes follow the signed-transaction frame
/// with a 64-byte signature that verifies, under the signer's public
/// key, over the exact signing payload of `call`.
pub open spec fn spec_signed_by(
    tx: Seq<u8>,
    call: Seq<u8>,
    seed: Seq<u8>,
    nonce: u32,
    spec_version: u32,
    genesis_hash: Seq<u8>,
) -> bool {
    exists|sig: Seq<u8>|
        {
            &&& sig.len() == 64
            &&& tx == #[trigger] signed_transaction_bytes(
                call,
                sr25519_public_of(seed),
                sig,
                nonce,
            )
            &&& sr25519_verified(
                sr25519_public_of(seed),
                signing_payload_bytes(call, nonce, spec_version, genesis_hash),
                sig,
            )
        }
}

/// Sign an encoded call and assemble the transaction, refusing when the
/// chain's reported runtime version differs from the version the call
/// indices were built against.
///
/// Succeeds exactly on a version match. The signature depends on the
/// signer's randomness, so its bytes are not pinned; everything else
/// is, and the embedded signature verifies under the signer's public
/// key over the signing payload.
pub fn sign_transaction(
    call: &[u8],
    seed: &[u8; 32],
    nonce: u32,
    genesis_hash: &[u8; 32],
    table_spec_version: u32,
    chain_spec_version: u32,
) -> (r: Result<Vec<u8>, RelayError>)
    ensures
        r is Ok <==> table_spec_version == chain_spec_version,
        r matches Ok(tx) ==> spec_signed_by(
            tx@,
            call@,
            seed@,
            nonce,
            table_spec_version,
            genesis_hash@,
        ),
        r is Err ==> r == Err::<Vec<u8>, RelayError>(RelayError::GuardTripped),
{
    if table_spec_version != chain_spec_version {
        return Err(RelayError::GuardTripped);
    }
    let payload = build_signing_payload(call, nonce, table_spec_version, genesis_hash);
    let signature = sr25519_sign(seed, payload.as_slice());
    let signer = sr25519_public(seed);
    let tx = build_signed_transaction(call, &signer, &signature, nonce);
    assert(tx@ == signed_transaction_bytes(call@, sr25519_public_of(seed@), signature@, nonce));
    assert(sr25519_verified(
        sr25519_public_of(seed@),
        signing_payload_bytes(call@, nonce, table_spec_version, genesis_hash@),
        signature@,
    ));
    Ok(tx)
}

/// Build and sign one delivery transaction for the target chain,
/// carrying the proof for the contiguous nonce range
/// `nonces_begin ..= nonces_end`.
pub fn make_messages_delivery_transaction(
    table: &CallIndexTable,
    chain_spec_version: u32,
    genesis_hash: &[u8; 32],
    seed: &[u8; 32],
    transaction_nonce: u32,
    relayer_id_at_source: &[u8; 32],
    nonces_begin: u64,
    nonces_end: u64,
    dispatch_weight: Weight,
    proof_encoded: &[u8],
) -> (r: Result<Vec<u8>, RelayError>)
    requires
        nonces_begin <= nonces_end,
        nonces_end - nonces_begin < 0xffff_ffff,
    ensures
        r is Ok <==> table.spec_version == chain_spec_version,
        r matches Ok(tx) ==> spec_signed_by(
            tx@,
            receive_messages_proof_bytes(
                table.messages_pallet_index,
                relayer_id_at_source@,
                proof_encoded@,
                (nonces_end - nonces_begin + 1) as u32,
                dispatch_weight,
            ),
            seed@,
            transaction_nonce,
            table.spec_version,
            genesis_hash@,
        ),
        r is Err ==> r == Err::<Vec<u8>, RelayError>(RelayError::GuardTripped),
{
    let messages_count: u32 = ((nonces_end - nonces_begin) + 1) as u32;
    let call = encode_receive_messages_proof(
        table.messages_pallet_index,
        relayer_id_at_source,
        proof_encoded,
        messages_count,
        dispatch_weight,
    );
    sign_transaction(
        call.as_slice(),
        seed,
        transaction_nonce,
        genesis_hash,
        table.spec_version,
        chain_spec_version,
    )
}

/// Build and sign one confirmation transaction for the source chain,
/// carrying the delivery proof and the relayers-state snapshot.
pub fn make_messages_receiving_proof_transaction(
    table: &CallIndexTable,
    chain_spec_version: u32,
    genesis_hash: &[u8; 32],
    seed: &[u8; 32],
    transaction_nonce: u32,
    relayers_state: &UnrewardedRelayersState,
    proof_encoded: &[u8],
) -> (r: Result<Vec<u8>, RelayError>)
    ensures
        r is Ok <==> table.spec_version == chain_spec_version,
        r matches Ok(tx) ==> spec_signed_by(
            tx@,
            receive_messages_delivery_proof_bytes(
                table.messages_pallet_index,
                proof_encoded@,
                *relayers_state,
            ),
            seed@,
            transaction_nonce,
            table.spec_version,
            genesis_hash@,
        ),
        r is Err ==> r == Err::<Vec<u8>, RelayError>(RelayError::GuardTripped),
{
    let call = encode_receive_messages_delivery_proof(
        table.messages_pallet_index,
        proof_encoded,
        relayers_state,
    );
    sign_transaction(
        call.as_slice(),
        seed,
        transaction_nonce,
        genesis_hash,
        table.spec_version,
        chain_spec_version,
    )
}

/// Build and sign one submit-finality-proof transaction for the target
/// chain.
pub fn make_submit_finality_proof_transaction(
    table: &CallIndexTable,
    chain_spec_version: u32,
    genesis_hash: &[u8; 32],
    seed: &[u8; 32],
    transaction_nonce: u32,
    header_encoded: &[u8],
    justification_encoded: &[u8],
) -> (r: Result<Vec<u8>, RelayError>)
    ensures
        r is Ok <==> table.spec_version == chain_spec_version,
        r matches Ok(tx) ==> spec_signed_by(
            tx@,
            submit_finality_proof_bytes(
                table.grandpa_pallet_index,
                header_encoded@,
                justification_encoded@,
            ),
            seed@,
            transaction_nonce,
            table.spec_version,
            genesis_hash@,
        ),
        r is Err ==> r == Err::<Vec<u8>, RelayError>(RelayError::GuardTripped),
{
    let call = encode_submit_finality_proof(
        table.grandpa_pallet_index,
        header_encoded,
        justification_encoded,
    );
    sign_transaction(
        call.as_slice(),
        seed,
        transaction_nonce,
        genesis_hash,
        table.spec_version,
        chain_spec_version,
    )
}

} // verus!
