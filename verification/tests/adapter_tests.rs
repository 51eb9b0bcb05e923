//! The adapter's remote method-name table and lane-parameter assembly.

use bridge_relay::adapter::{
    best_finalized_header_method, estimate_message_fee_method,
    inbound_latest_confirmed_nonce_method, inbound_latest_received_nonce_method,
    is_known_header_method, latest_generated_nonce_method, message_details_method,
    outbound_latest_received_nonce_method, unrewarded_relayers_state_method,
};
use bridge_relay::batch::MessageWeightModel;
use bridge_relay::bridge::{message_lane_loop_params, ChainConfig};
use bridge_relay::calls::CallIndexTable;
use bridge_relay::types::RelayerMode;

#[test]
fn method_names_follow_the_api_pattern() {
    assert_eq!(best_finalized_header_method("ruby"), "rubyFinalityApi_best_finalized");
    assert_eq!(is_known_header_method("ruby"), "rubyFinalityApi_is_known_header");
    assert_eq!(
        estimate_message_fee_method("ruby"),
        "TorubyOutboundLaneApi_estimate_message_delivery_and_dispatch_fee"
    );
    assert_eq!(message_details_method("ruby"), "TorubyOutboundLaneApi_message_details");
    assert_eq!(
        latest_generated_nonce_method("ruby"),
        "TorubyOutboundLaneApi_latest_generated_nonce"
    );
    assert_eq!(
        outbound_latest_received_nonce_method("ruby"),
        "TorubyOutboundLaneApi_latest_received_nonce"
    );
    assert_eq!(
        inbound_latest_received_nonce_method("ruby"),
        "FromrubyInboundLaneApi_latest_received_nonce"
    );
    assert_eq!(
        inbound_latest_confirmed_nonce_method("ruby"),
        "FromrubyInboundLaneApi_latest_confirmed_nonce"
    );
    assert_eq!(
        unrewarded_relayers_state_method("ruby"),
        "FromrubyInboundLaneApi_unrewarded_relayers_state"
    );
}

fn chain(interval: u64) -> ChainConfig {
    ChainConfig {
        chain_id: *b"chnx",
        average_block_interval_ms: interval,
        max_extrinsic_weight: 30_000,
        max_extrinsic_size: 3_000,
        max_unrewarded_relayer_entries: 16,
        max_unconfirmed_messages: 1_024,
        call_indices: CallIndexTable {
            system_pallet_index: 0,
            grandpa_pallet_index: 40,
            messages_pallet_index: 43,
            spec_version: 51,
        },
    }
}

#[test]
fn lane_loop_params_come_from_the_chain_configs() {
    let source = chain(6_000);
    let target = chain(12_000);
    let model = MessageWeightModel {
        receive_messages_proof_overhead: 1_000,
        per_message_overhead: 100,
        outbound_lane_state_overhead: 500,
    };
    let params = message_lane_loop_params(
        &source,
        &target,
        *b"ln01",
        &model,
        2,
        300_000,
        10_000,
        RelayerMode::Altruistic,
    );
    assert_eq!(params.lane, *b"ln01");
    assert_eq!(params.source_tick_ms, 6_000);
    assert_eq!(params.target_tick_ms, 12_000);
    assert_eq!(params.stall_timeout_ms, 300_000);
    assert_eq!(params.reconnect_delay_ms, 10_000);
    assert_eq!(params.relayer_mode, RelayerMode::Altruistic);
    // min(85 weight-limited, 16 entries) halved by the safety divisor.
    assert_eq!(params.delivery_limits.max_messages_in_single_batch, 8);
    assert_eq!(params.delivery_limits.max_messages_weight_in_single_batch, 10_000);
    // One third of the extrinsic size is left for message payloads.
    assert_eq!(params.delivery_limits.max_messages_size_in_single_batch, 1_000);
    assert_eq!(params.queue_limits.max_unrewarded_relayer_entries_at_target, 16);
    assert_eq!(params.queue_limits.max_unconfirmed_nonces_at_target, 1_024);
}
