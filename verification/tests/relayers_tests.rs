//! Unrewarded-relayers queue bookkeeping.

use bridge_relay::relayers::{InboundLaneLimits, InboundLaneState};
use bridge_relay::types::RelayError;

fn tight_limits() -> InboundLaneLimits {
    InboundLaneLimits { max_unrewarded_relayer_entries: 2, max_unconfirmed_messages: 100 }
}

#[test]
fn deliveries_fill_the_queue_and_confirmation_drains_it() {
    let mut lane = InboundLaneState::new(0);
    let limits = tight_limits();
    assert!(lane.note_delivery([1u8; 32], 3, &limits).is_ok());
    assert!(lane.note_delivery([2u8; 32], 2, &limits).is_ok());
    let snapshot = lane.snapshot();
    assert_eq!(snapshot.unrewarded_relayer_entries, 2);
    assert_eq!(snapshot.messages_in_oldest_entry, 3);
    assert_eq!(snapshot.total_messages, 5);

    // Entry ceiling reached: the chain rejects the next delivery until a
    // confirmation cycle clears at least one entry.
    assert_eq!(
        lane.note_delivery([3u8; 32], 1, &limits).unwrap_err(),
        RelayError::ChainRejected
    );

    lane.confirm_delivery(3);
    let snapshot = lane.snapshot();
    assert_eq!(snapshot.unrewarded_relayer_entries, 1);
    assert_eq!(snapshot.messages_in_oldest_entry, 2);
    assert_eq!(snapshot.total_messages, 2);

    assert!(lane.note_delivery([3u8; 32], 1, &limits).is_ok());
    assert_eq!(lane.snapshot().unrewarded_relayer_entries, 2);
}

#[test]
fn unconfirmed_nonce_ceiling_also_rejects() {
    let mut lane = InboundLaneState::new(0);
    let limits = InboundLaneLimits { max_unrewarded_relayer_entries: 10, max_unconfirmed_messages: 4 };
    assert!(lane.note_delivery([1u8; 32], 3, &limits).is_ok());
    assert_eq!(
        lane.note_delivery([2u8; 32], 2, &limits).unwrap_err(),
        RelayError::ChainRejected
    );
    assert!(lane.note_delivery([2u8; 32], 1, &limits).is_ok());
}

#[test]
fn confirmation_trims_a_straddling_entry() {
    let mut lane = InboundLaneState::new(10);
    let limits = InboundLaneLimits { max_unrewarded_relayer_entries: 8, max_unconfirmed_messages: 100 };
    assert!(lane.note_delivery([1u8; 32], 4, &limits).is_ok());
    // Confirm into the middle of the only entry: its confirmed head is
    // cleared, the unconfirmed tail stays.
    lane.confirm_delivery(12);
    let snapshot = lane.snapshot();
    assert_eq!(snapshot.unrewarded_relayer_entries, 1);
    assert_eq!(snapshot.messages_in_oldest_entry, 2);
    assert_eq!(snapshot.total_messages, 2);
    lane.confirm_delivery(14);
    assert_eq!(lane.snapshot().unrewarded_relayer_entries, 0);
    assert_eq!(lane.snapshot().total_messages, 0);
}

#[test]
fn empty_and_overflowing_deliveries_are_rejected() {
    let mut lane = InboundLaneState::new(u64::MAX - 2);
    let limits = InboundLaneLimits { max_unrewarded_relayer_entries: 8, max_unconfirmed_messages: 100 };
    // A delivery carrying no message is rejected outright.
    assert_eq!(lane.note_delivery([1u8; 32], 0, &limits).unwrap_err(), RelayError::ChainRejected);
    // A range running past the end of the nonce space is rejected.
    assert_eq!(lane.note_delivery([1u8; 32], 3, &limits).unwrap_err(), RelayError::ChainRejected);
    // The last two representable nonces still go through.
    assert!(lane.note_delivery([1u8; 32], 2, &limits).is_ok());
    assert_eq!(lane.snapshot().total_messages, 2);
}
