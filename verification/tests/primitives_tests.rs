//! Candidate-receipt, statement and fee behaviour.

use bridge_relay::codec::{
    collator_signature_payload, decode_compact_statement, encode_compact_statement,
    CompactStatement,
};
use bridge_relay::receipt::{
    check_collator_signature, AbridgedCandidateReceipt, CandidateCommitments, CandidateReceipt,
    GlobalValidationData, LocalValidationData, PoVBlock, SigningContext, ValidityAttestation,
};
use bridge_relay::types::RelayError;
use bridge_relay::FeeSchedule;
use blake2::Digest;
use sp_core::crypto::Pair as _;

fn sample_commitments() -> CandidateCommitments {
    CandidateCommitments {
        fees: 7,
        upward_messages: vec![vec![1, 2, 3], vec![]],
        erasure_root: [9u8; 32],
        new_validation_code: None,
        processed_downward_messages: 2,
    }
}

fn sample_receipt(signature: [u8; 64], collator: [u8; 32]) -> CandidateReceipt {
    CandidateReceipt {
        parachain_index: 5,
        relay_parent: [1u8; 32],
        head_data: vec![0xaa, 0xbb],
        collator,
        signature,
        pov_block_hash: [2u8; 32],
        global_validation: GlobalValidationData {
            max_code_size: 1024,
            max_head_data_size: 256,
            block_number: 77,
        },
        local_validation: LocalValidationData {
            parent_head: vec![0xcc],
            balance: 1_000_000,
            code_upgrade_allowed: Some(80),
        },
        commitments: sample_commitments(),
    }
}

#[test]
fn balance_bigger_than_usize() {
    let zero_b: bridge_relay::Balance = 0;
    let zero_u: usize = 0;

    assert!(zero_b.leading_zeros() >= zero_u.leading_zeros());
}

#[test]
fn collator_signature_payload_is_valid() {
    // if this fails, collator signature verification code has to be updated.
    let h = [0u8; 32];
    assert_eq!(h.as_ref().len(), 32);

    let _payload = collator_signature_payload(&[1u8; 32], 5u32, &[2u8; 32]);
}

#[test]
fn collator_signature_payload_layout() {
    let payload = collator_signature_payload(&[1u8; 32], 5u32, &[2u8; 32]);
    assert_eq!(payload.len(), 68);
    assert_eq!(&payload[0..32], &[1u8; 32]);
    assert_eq!(&payload[32..36], &5u32.to_le_bytes());
    assert_eq!(&payload[36..68], &[2u8; 32]);
    // The parachain id bytes match SCALE's u32 encoding.
    assert_eq!(&payload[32..36], parity_scale_codec::Encode::encode(&5u32).as_slice());
}

#[test]
fn receipt_signature_roundtrip() {
    let pair = sp_core::sr25519::Pair::from_seed(&[7u8; 32]);
    let collator = pair.public().to_raw();
    let unsigned = sample_receipt([0u8; 64], collator);
    let payload = collator_signature_payload(
        &unsigned.relay_parent,
        unsigned.parachain_index,
        &unsigned.pov_block_hash,
    );
    let signature = pair.sign(&payload).to_raw();

    let receipt = sample_receipt(signature, collator);
    assert!(receipt.check_signature().is_ok());

    let mut bad_signature = signature;
    bad_signature[0] ^= 1;
    let bad = sample_receipt(bad_signature, collator);
    assert!(bad.check_signature().is_err());

    // A signature over another parachain id must not check out.
    assert!(
        check_collator_signature(&[1u8; 32], 6u32, &[2u8; 32], &collator, &signature).is_err()
    );
}

#[test]
fn abridge_complete_round_trip() {
    let receipt = sample_receipt([3u8; 64], [4u8; 32]);
    let (abridged, omitted) = receipt.abridge();
    assert_eq!(abridged.parachain_index, 5);
    assert_eq!(abridged.head_data, vec![0xaa, 0xbb]);
    let full = abridged.complete(omitted);
    assert_eq!(full.parachain_index, 5);
    assert_eq!(full.relay_parent, [1u8; 32]);
    assert_eq!(full.head_data, vec![0xaa, 0xbb]);
    assert_eq!(full.collator, [4u8; 32]);
    assert_eq!(full.signature, [3u8; 64]);
    assert_eq!(full.pov_block_hash, [2u8; 32]);
    assert_eq!(full.global_validation.block_number, 77);
    assert_eq!(full.local_validation.balance, 1_000_000);
    assert_eq!(full.commitments.fees, 7);
}

#[test]
fn collation_info_round_trip() {
    let receipt = sample_receipt([3u8; 64], [4u8; 32]);
    let (abridged, _) = receipt.abridge();
    let info = abridged.to_collation_info();
    assert_eq!(info.parachain_index, 5);
    assert_eq!(info.head_data, vec![0xaa, 0xbb]);
    let descriptor = abridged.to_descriptor();
    assert_eq!(descriptor.para_id, 5);
    assert_eq!(descriptor.pov_hash, [2u8; 32]);
    let rebuilt = info.into_receipt(sample_commitments());
    assert_eq!(rebuilt.parachain_index, abridged.parachain_index);
    assert_eq!(rebuilt.head_data, abridged.head_data);
    assert_eq!(rebuilt.commitments.fees, 7);
}

#[test]
fn abridged_receipt_hash_is_blake2b_of_encoding() {
    let receipt = sample_receipt([3u8; 64], [4u8; 32]);
    let (abridged, _) = receipt.abridge();
    let encoded = abridged.encode();
    let hash = abridged.hash();

    let mut hasher = blake2::Blake2b256::new();
    hasher.update(&encoded);
    let expected: [u8; 32] = hasher.finalize().into();
    assert_eq!(hash, expected);
    // The hash is no echo of its input.
    assert_ne!(&hash[..], &encoded[0..32]);
}

#[test]
fn pov_block_hash_matches_direct_computation() {
    let pov = PoVBlock { block_data: vec![1, 2, 3, 4] };
    let hash = pov.hash();
    let mut hasher = blake2::Blake2b256::new();
    // SCALE length prefix for 4 bytes, then the data.
    hasher.update(&[4u8 << 2, 1, 2, 3, 4]);
    let expected: [u8; 32] = hasher.finalize().into();
    assert_eq!(hash, expected);
}

#[test]
fn compact_statement_round_trip() {
    let statement = CompactStatement::Seconded([5u8; 32]);
    let encoded = encode_compact_statement(&statement);
    assert_eq!(encoded.len(), 37);
    assert_eq!(&encoded[0..4], b"BKNG");
    assert_eq!(encoded[4], 1);
    let decoded = decode_compact_statement(&encoded).unwrap();
    assert!(matches!(decoded, CompactStatement::Seconded(h) if h == [5u8; 32]));

    let valid = CompactStatement::Valid([6u8; 32]);
    let encoded_valid = encode_compact_statement(&valid);
    assert_eq!(encoded_valid[4], 2);
    let decoded_valid = decode_compact_statement(&encoded_valid).unwrap();
    assert!(matches!(decoded_valid, CompactStatement::Valid(h) if h == [6u8; 32]));
}

#[test]
fn compact_statement_rejects_bad_magic() {
    let statement = CompactStatement::Valid([6u8; 32]);
    let mut encoded = encode_compact_statement(&statement);
    encoded[0] = b'X';
    assert_eq!(
        decode_compact_statement(&encoded).unwrap_err(),
        RelayError::MalformedEncoding
    );
}

#[test]
fn compact_statement_rejects_truncation_and_bad_tag() {
    let statement = CompactStatement::Valid([6u8; 32]);
    let encoded = encode_compact_statement(&statement);
    assert_eq!(
        decode_compact_statement(&encoded[..36]).unwrap_err(),
        RelayError::MalformedEncoding
    );
    let mut bad_tag = encoded.clone();
    bad_tag[4] = 3;
    assert_eq!(
        decode_compact_statement(&bad_tag).unwrap_err(),
        RelayError::MalformedEncoding
    );
}

#[test]
fn attestation_signed_payload_matches_statement() {
    let context = SigningContext { session_index: 3, parent_hash: [8u8; 32] };
    let implicit = ValidityAttestation::Implicit([0u8; 64]);
    let explicit = ValidityAttestation::Explicit([0u8; 64]);
    let hash = [5u8; 32];

    let implicit_payload = implicit.signed_payload(&hash, &context);
    let explicit_payload = explicit.signed_payload(&hash, &context);
    let seconded = encode_compact_statement(&CompactStatement::Seconded(hash));
    let valid = encode_compact_statement(&CompactStatement::Valid(hash));
    assert_eq!(&implicit_payload[..37], seconded.as_slice());
    assert_eq!(&explicit_payload[..37], valid.as_slice());
    assert_eq!(&implicit_payload[37..41], &3u32.to_le_bytes());
    assert_eq!(&implicit_payload[41..], &[8u8; 32]);
    assert_eq!(implicit.signature(), &[0u8; 64]);
}

#[test]
fn fee_computation_is_linear() {
    let schedule = FeeSchedule { base: 100, per_byte: 2 };
    assert_eq!(schedule.compute_message_fee(0), 100);
    assert_eq!(schedule.compute_message_fee(10), 120);
}

#[test]
fn fee_computation_saturates() {
    let schedule = FeeSchedule { base: u128::MAX - 10, per_byte: 2 };
    assert_eq!(schedule.compute_message_fee(6), u128::MAX);
    let all_max = FeeSchedule { base: u128::MAX, per_byte: u128::MAX };
    assert_eq!(all_max.compute_message_fee(usize::MAX), u128::MAX);
}
