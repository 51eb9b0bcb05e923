//! Call encoding, transaction construction and bridge configuration.

use bridge_relay::bridge::{
    bytes_starts_with, ensure_dev, resolve_chain_id, ss58_format_for_chain, titan, FullBridge,
};
use bridge_relay::calls::{
    build_signing_payload, encode_receive_messages_delivery_proof, encode_receive_messages_proof,
    encode_send_message, encode_submit_finality_proof, encode_system_call,
    make_messages_delivery_transaction, make_messages_receiving_proof_transaction,
    make_submit_finality_proof_transaction, CallIndexTable, SystemCall,
};
use bridge_relay::bridge::{select_native_runtime, NativeRuntime};
use bridge_relay::errors::{ChainApiError, RecoveryError, RuntimeApiError, ValidityError};
use bridge_relay::receipt::ValidatorIndex;
use bridge_relay::relayers::UnrewardedRelayersState;
use bridge_relay::types::RelayError;
use sp_core::crypto::Pair as _;

fn table() -> CallIndexTable {
    CallIndexTable {
        system_pallet_index: 0,
        grandpa_pallet_index: 40,
        messages_pallet_index: 43,
        spec_version: 51,
    }
}

#[test]
fn bridge_instance_indices() {
    assert_eq!(FullBridge::MillauToRialto.bridge_instance_index(), 0);
    assert_eq!(FullBridge::RialtoToMillau.bridge_instance_index(), 0);
    assert_eq!(FullBridge::titanToWococo.bridge_instance_index(), 0);
    assert_eq!(FullBridge::WococoTotitan.bridge_instance_index(), 0);
}

#[test]
fn system_remark_encoding_matches_scale() {
    let call = SystemCall::remark(vec![1, 2, 3]);
    let encoded = encode_system_call(0, &call);
    // Pallet index, call index, compact length, payload.
    assert_eq!(encoded[0], 0);
    assert_eq!(encoded[1], 1);
    let compact: Vec<u8> =
        parity_scale_codec::Encode::encode(&parity_scale_codec::Compact(3u32));
    assert_eq!(&encoded[2..2 + compact.len()], compact.as_slice());
    assert_eq!(&encoded[2 + compact.len()..], &[1, 2, 3]);
}

#[test]
fn compact_length_matches_scale_at_mode_boundaries() {
    for len in [0u32, 1, 63, 64, 16_383, 16_384, 1_000_000] {
        let call = SystemCall::remark(vec![0u8; len as usize]);
        let encoded = encode_system_call(7, &call);
        let compact: Vec<u8> =
            parity_scale_codec::Encode::encode(&parity_scale_codec::Compact(len));
        assert_eq!(&encoded[2..2 + compact.len()], compact.as_slice(), "length {}", len);
    }
}

#[test]
fn little_endian_helpers_match_scale() {
    let delivery = encode_receive_messages_proof(43, &[5u8; 32], &[0xaa], 9, 77);
    // Frame: [pallet, call], relayer, proof, count (u32 LE), weight (u64 LE).
    assert_eq!(&delivery[0..2], &[43, 5]);
    assert_eq!(&delivery[2..34], &[5u8; 32]);
    assert_eq!(delivery[34], 0xaa);
    assert_eq!(&delivery[35..39], parity_scale_codec::Encode::encode(&9u32).as_slice());
    assert_eq!(&delivery[39..47], parity_scale_codec::Encode::encode(&77u64).as_slice());

    let fee_call = encode_send_message(43, b"lane", &[1], 300u128);
    let tail = &fee_call[fee_call.len() - 16..];
    assert_eq!(tail, parity_scale_codec::Encode::encode(&300u128).as_slice());
}

#[test]
fn confirmation_call_carries_the_relayers_state() {
    let state = UnrewardedRelayersState {
        unrewarded_relayer_entries: 2,
        messages_in_oldest_entry: 3,
        total_messages: 5,
    };
    let call = encode_receive_messages_delivery_proof(43, &[0xbb, 0xcc], &state);
    assert_eq!(&call[0..2], &[43, 6]);
    assert_eq!(&call[2..4], &[0xbb, 0xcc]);
    assert_eq!(&call[4..12], &2u64.to_le_bytes());
    assert_eq!(&call[12..20], &3u64.to_le_bytes());
    assert_eq!(&call[20..28], &5u64.to_le_bytes());
}

#[test]
fn finality_call_frames_header_and_justification() {
    let call = encode_submit_finality_proof(40, &[1, 2], &[3, 4, 5]);
    assert_eq!(call, vec![40, 0, 1, 2, 3, 4, 5]);
}

#[test]
fn signing_refuses_on_spec_version_mismatch() {
    let r = make_messages_delivery_transaction(
        &table(),
        52,
        &[0u8; 32],
        &[1u8; 32],
        0,
        &[2u8; 32],
        11,
        13,
        1_000,
        &[0xaa],
    );
    assert_eq!(r.unwrap_err(), RelayError::GuardTripped);
}

#[test]
fn delivery_transaction_is_signed_by_the_relayer_key() {
    let seed = [1u8; 32];
    let tx = make_messages_delivery_transaction(
        &table(),
        51,
        &[9u8; 32],
        &seed,
        4,
        &[2u8; 32],
        11,
        13,
        1_000,
        &[0xaa],
    )
    .unwrap();

    let pair = sp_core::sr25519::Pair::from_seed(&seed);
    let public = pair.public().to_raw();
    // Envelope: marker, signer, signature, era, nonce, call.
    assert_eq!(tx[0], 0x84);
    assert_eq!(&tx[1..33], &public);
    let signature: [u8; 64] = tx[33..97].try_into().unwrap();
    assert_eq!(tx[97], 0);
    assert_eq!(&tx[98..102], &4u32.to_le_bytes());
    let call = &tx[102..];
    let expected_call = encode_receive_messages_proof(43, &[2u8; 32], &[0xaa], 3, 1_000);
    assert_eq!(call, expected_call.as_slice());
    // The signature really signs the declared payload under this key.
    let payload = build_signing_payload(call, 4, 51, &[9u8; 32]);
    assert!(sp_core::sr25519::Pair::verify(
        &sp_core::sr25519::Signature::from_raw(signature),
        &payload,
        &pair.public(),
    ));
}

#[test]
fn receiving_proof_and_finality_transactions_build() {
    let state = UnrewardedRelayersState {
        unrewarded_relayer_entries: 1,
        messages_in_oldest_entry: 1,
        total_messages: 1,
    };
    let tx = make_messages_receiving_proof_transaction(
        &table(),
        51,
        &[9u8; 32],
        &[1u8; 32],
        0,
        &state,
        &[0xcc],
    )
    .unwrap();
    let expected_call = encode_receive_messages_delivery_proof(43, &[0xcc], &state);
    assert_eq!(&tx[tx.len() - expected_call.len()..], expected_call.as_slice());
    // The confirmation transaction's signature verifies under the key too.
    let pair = sp_core::sr25519::Pair::from_seed(&[1u8; 32]);
    let signature: [u8; 64] = tx[33..97].try_into().unwrap();
    let payload = build_signing_payload(&expected_call, 0, 51, &[9u8; 32]);
    assert!(sp_core::sr25519::Pair::verify(
        &sp_core::sr25519::Signature::from_raw(signature),
        &payload,
        &pair.public(),
    ));

    let titan_chain = titan;
    let header_tx = make_submit_finality_proof_transaction(
        &table(),
        51,
        &[9u8; 32],
        &[1u8; 32],
        1,
        &[1, 2],
        &[3],
    )
    .unwrap();
    let expected_call = encode_submit_finality_proof(40, &[1, 2], &[3]);
    assert_eq!(&header_tx[header_tx.len() - expected_call.len()..], expected_call.as_slice());

    // The titan chain descriptor signs the same way.
    let direct = titan_chain
        .sign_transaction(&table(), 51, &[9u8; 32], &[1u8; 32], 1, &expected_call)
        .unwrap();
    assert_eq!(direct[0], 0x84);
    assert_eq!(
        titan_chain.sign_transaction(&table(), 50, &[9u8; 32], &[1u8; 32], 1, &expected_call)
            .unwrap_err(),
        RelayError::GuardTripped
    );
    assert_eq!(titan_chain.average_block_interval_ms(), 6_000);
    assert_eq!(titan_chain.name(), "titan");
}

#[test]
fn chain_id_resolution_follows_the_executable_name() {
    // An explicit id always wins.
    assert_eq!(resolve_chain_id(b"westend", b"gold-node"), b"westend".to_vec());
    // An empty id falls back to the chain the executable is named after.
    assert_eq!(resolve_chain_id(b"", b"gold-node"), b"gold".to_vec());
    assert_eq!(resolve_chain_id(b"", b"westend-collator"), b"westend".to_vec());
    assert_eq!(resolve_chain_id(b"", b"rococo9"), b"rococo".to_vec());
    assert_eq!(resolve_chain_id(b"", b"unrelated"), b"diamond".to_vec());
    assert!(bytes_starts_with(b"gold-node", b"gold"));
    assert!(!bytes_starts_with(b"gol", b"gold"));
}

#[test]
fn address_format_is_an_explicit_value() {
    let gold_chain = bridge_relay::bridge::gold;
    assert_eq!(gold_chain.ss58_format(), 2);
    assert_eq!(gold_chain.name(), "gold");
    assert_eq!(gold_chain.average_block_interval_ms(), 6_000);
    assert_eq!(ss58_format_for_chain(true, false), 2);
    assert_eq!(ss58_format_for_chain(false, true), 42);
    assert_eq!(ss58_format_for_chain(false, false), 0);
}

#[test]
fn dev_only_commands_reject_other_chains() {
    assert!(ensure_dev(true, b"diamond-dev").is_ok());
    let err = ensure_dev(false, b"gold").unwrap_err();
    assert_eq!(err, b"gold".to_vec());
}

#[test]
fn error_types_carry_their_messages() {
    let runtime_err = RuntimeApiError::from(String::from("storage gone"));
    assert_eq!(runtime_err.message().as_str(), "storage gone");
    let chain_err = ChainApiError::from(String::from("no such block"));
    assert_eq!(chain_err.message().as_str(), "no such block");
    let chain_err_from_str = ChainApiError::from("bad request");
    assert_eq!(chain_err_from_str.message().as_str(), "bad request");
    assert_eq!(RecoveryError::Invalid.message(), "Invalid");
    assert_eq!(RecoveryError::Unavailable.message(), "Unavailable");
    assert_ne!(RecoveryError::Invalid, RecoveryError::Unavailable);
}

#[test]
fn native_runtime_selection_prefers_specific_runtimes() {
    assert_eq!(select_native_runtime(true, false, false, false), NativeRuntime::Gold);
    assert_eq!(select_native_runtime(false, true, false, false), NativeRuntime::Westend);
    assert_eq!(select_native_runtime(false, false, true, false), NativeRuntime::Rococo);
    assert_eq!(select_native_runtime(false, false, false, true), NativeRuntime::Rococo);
    assert_eq!(select_native_runtime(false, false, false, false), NativeRuntime::Diamond);
}

#[test]
fn validity_errors_have_stable_codes() {
    assert_eq!(u8::from(ValidityError::InvalidEthereumSignature), 0);
    assert_eq!(u8::from(ValidityError::SignerHasNoClaim), 1);
    assert_eq!(u8::from(ValidityError::NoPermission), 2);
    assert_eq!(u8::from(ValidityError::InvalidStatement), 3);
}

#[test]
fn validator_index_from_u32() {
    assert_eq!(ValidatorIndex::from(9u32), ValidatorIndex(9));
}
