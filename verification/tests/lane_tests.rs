//! Message-lane loop behaviour: batch selection, stall detection and
//! nonce tracking.

use bridge_relay::batch::{
    apply_relayer_mode, compute_delivery_limits, select_delivery_batch,
    select_delivery_transaction_limits, DeliveryLimits, MessageWeightModel,
};
use bridge_relay::lane::{
    observe_lane_cycle, next_tick_at, plan_confirmation, plan_delivery, reconnect_at,
    source_header_known, DeliveryDecision, LaneView, QueueLimits, StallTracker,
};
use bridge_relay::FeeSchedule;
use bridge_relay::relayers::UnrewardedRelayersState;
use bridge_relay::types::{MessageDetails, RelayError, RelayerMode};

fn details_from(first_nonce: u64, count: u64) -> Vec<MessageDetails> {
    (0..count)
        .map(|i| MessageDetails {
            nonce: first_nonce + i,
            dispatch_weight: 10,
            size: 100,
            fee: 5,
        })
        .collect()
}

fn roomy_limits() -> DeliveryLimits {
    DeliveryLimits {
        max_messages_in_single_batch: 1000,
        max_messages_weight_in_single_batch: 1_000_000,
        max_messages_size_in_single_batch: 1_000_000,
    }
}

fn empty_queue() -> UnrewardedRelayersState {
    UnrewardedRelayersState {
        unrewarded_relayer_entries: 0,
        messages_in_oldest_entry: 0,
        total_messages: 0,
    }
}

fn roomy_queue_limits() -> QueueLimits {
    QueueLimits {
        max_unrewarded_relayer_entries_at_target: 16,
        max_unconfirmed_nonces_at_target: 1024,
    }
}

#[test]
fn batch_selection_respects_count_ceiling() {
    // received_nonce = 10, generated_nonce = 15, max 3 per batch:
    // nonces 11..=13 go out, 14 and 15 wait.
    let details = details_from(11, 5);
    let limits = DeliveryLimits { max_messages_in_single_batch: 3, ..roomy_limits() };
    let n = select_delivery_batch(10, &details, limits);
    assert_eq!(n, 3);

    let decision = plan_delivery(
        &{
            let mut v = LaneView::new();
            v.update_source(15, 0);
            v.update_target(10);
            v
        },
        &empty_queue(),
        &roomy_queue_limits(),
        true,
        &details,
        limits,
        RelayerMode::Altruistic,
        0,
    );
    assert_eq!(decision, DeliveryDecision::Deliver { begin: 11, count: 3 });
}

#[test]
fn batch_selection_respects_weight_and_size_ceilings() {
    let details = details_from(1, 10);
    // Weight ceiling admits 4 messages of weight 10 each.
    let weight_limited = DeliveryLimits {
        max_messages_weight_in_single_batch: 45,
        ..roomy_limits()
    };
    assert_eq!(select_delivery_batch(0, &details, weight_limited), 4);
    // Size ceiling admits 2 messages of 100 bytes each.
    let size_limited = DeliveryLimits {
        max_messages_size_in_single_batch: 250,
        ..roomy_limits()
    };
    assert_eq!(select_delivery_batch(0, &details, size_limited), 2);
}

#[test]
fn batch_selection_stops_at_nonce_gap() {
    let mut details = details_from(11, 2);
    details.push(MessageDetails { nonce: 14, dispatch_weight: 10, size: 100, fee: 5 });
    let n = select_delivery_batch(10, &details, roomy_limits());
    assert_eq!(n, 2);
}

#[test]
fn rational_mode_withholds_unprofitable_batches() {
    let details = details_from(1, 4);
    // Four messages at fee 5 yield 20 in total.
    assert_eq!(apply_relayer_mode(RelayerMode::Rational, &details, 4, 21), 0);
    assert_eq!(apply_relayer_mode(RelayerMode::Rational, &details, 4, 20), 4);
    assert_eq!(apply_relayer_mode(RelayerMode::Altruistic, &details, 4, u128::MAX), 4);
}

#[test]
fn delivery_defers_until_header_is_known() {
    let mut view = LaneView::new();
    view.update_source(15, 0);
    view.update_target(10);
    let decision = plan_delivery(
        &view,
        &empty_queue(),
        &roomy_queue_limits(),
        false,
        &details_from(11, 5),
        roomy_limits(),
        RelayerMode::Altruistic,
        0,
    );
    assert_eq!(decision, DeliveryDecision::AwaitingSourceHeader);
}

#[test]
fn delivery_backs_off_when_queue_is_full() {
    let mut view = LaneView::new();
    view.update_source(15, 0);
    view.update_target(10);
    let full = UnrewardedRelayersState {
        unrewarded_relayer_entries: 16,
        messages_in_oldest_entry: 1,
        total_messages: 16,
    };
    let decision = plan_delivery(
        &view,
        &full,
        &roomy_queue_limits(),
        true,
        &details_from(11, 5),
        roomy_limits(),
        RelayerMode::Altruistic,
        0,
    );
    assert_eq!(decision, DeliveryDecision::QueueFull);
}

#[test]
fn nothing_to_deliver_when_target_caught_up() {
    let mut view = LaneView::new();
    view.update_source(10, 0);
    view.update_target(10);
    let decision = plan_delivery(
        &view,
        &empty_queue(),
        &roomy_queue_limits(),
        true,
        &Vec::new(),
        roomy_limits(),
        RelayerMode::Altruistic,
        0,
    );
    assert_eq!(decision, DeliveryDecision::NothingToDeliver);
}

#[test]
fn received_nonce_tracking_is_monotone() {
    let mut view = LaneView::new();
    view.update_target(5);
    assert_eq!(view.latest_received_nonce, 5);
    // A lagging node reporting an older nonce never moves the view back.
    view.update_target(3);
    assert_eq!(view.latest_received_nonce, 5);
    view.update_target(9);
    assert_eq!(view.latest_received_nonce, 9);
}

#[test]
fn confirmation_runs_exactly_when_target_is_ahead() {
    let mut view = LaneView::new();
    view.update_source(20, 7);
    view.update_target(12);
    assert_eq!(plan_confirmation(&view), Some(12));
    let mut caught_up = LaneView::new();
    caught_up.update_source(20, 12);
    caught_up.update_target(12);
    assert_eq!(plan_confirmation(&caught_up), None);
}

#[test]
fn stall_fires_only_after_timeout_without_progress() {
    let mut tracker = StallTracker::new(0, 0, 0);
    assert!(!tracker.on_observation(4_999, 0, 0, 5_000));
    assert!(tracker.on_observation(5_000, 0, 0, 5_000));
    // Any single nonce advance resets the timer.
    let mut tracker = StallTracker::new(0, 0, 0);
    assert!(!tracker.on_observation(4_999, 1, 0, 5_000));
    assert!(!tracker.on_observation(9_998, 1, 0, 5_000));
    assert!(tracker.on_observation(9_999, 1, 0, 5_000));
}

#[test]
fn stalled_loop_reports_stall_and_reconnects_after_delay() {
    let stall_timeout = 5 * 60 * 1_000;
    let mut view = LaneView::new();
    let mut tracker = StallTracker::new(0, 0, 0);
    // First cycle sees some progress.
    assert!(observe_lane_cycle(&mut view, &mut tracker, 0, 7, 0, 3, stall_timeout).is_ok());
    // No new finalized header and no new nonce for stall_timeout + 1s.
    let r = observe_lane_cycle(
        &mut view,
        &mut tracker,
        stall_timeout + 1_000,
        7,
        0,
        3,
        stall_timeout,
    );
    assert_eq!(r.unwrap_err(), RelayError::Stall);
    // The loop instance is rebuilt only after the reconnect delay.
    assert_eq!(reconnect_at(stall_timeout + 1_000, 10_000), stall_timeout + 11_000);
}

#[test]
fn polling_is_paced_by_block_interval() {
    assert_eq!(next_tick_at(1_000, 6_000), 7_000);
    assert_eq!(next_tick_at(u64::MAX - 10, 6_000), u64::MAX);
}

#[test]
fn transaction_limits_reserve_a_third_for_the_envelope() {
    let model = MessageWeightModel {
        receive_messages_proof_overhead: 1_000,
        per_message_overhead: 100,
        outbound_lane_state_overhead: 500,
    };
    let (count, weight) = select_delivery_transaction_limits(&model, 30_000, 1_024);
    // One third (10_000) minus 1_500 overhead leaves 8_500: 85 messages.
    assert_eq!(count, 85);
    assert_eq!(weight, 20_000);
    // The unrewarded-entries parameter caps the count.
    let (count, _) = select_delivery_transaction_limits(&model, 30_000, 10);
    assert_eq!(count, 10);

    let limits = compute_delivery_limits(&model, 30_000, 3_000, 1_024, 2);
    assert_eq!(limits.max_messages_in_single_batch, 42);
    assert_eq!(limits.max_messages_weight_in_single_batch, 10_000);
    assert_eq!(limits.max_messages_size_in_single_batch, 1_000);
}

#[test]
fn oversized_payloads_get_no_fee_estimate() {
    let schedule = FeeSchedule { base: 100, per_byte: 2 };
    assert_eq!(schedule.estimate_delivery_fee(1_000, 1_000), Some(2_100));
    assert_eq!(schedule.estimate_delivery_fee(1_001, 1_000), None);
}

#[test]
fn delivery_waits_for_a_high_enough_source_header() {
    assert!(source_header_known(100, 100));
    assert!(source_header_known(101, 100));
    assert!(!source_header_known(99, 100));
}

#[test]
fn a_backwards_clock_counts_no_elapsed_time() {
    let mut tracker = StallTracker::new(10_000, 0, 0);
    // A reading below the last progress instant never reports a stall.
    assert!(!tracker.on_observation(4_000, 0, 0, 5_000));
    assert!(tracker.on_observation(15_000, 0, 0, 5_000));
}
