//! Batch ceilings and delivery-batch selection.
//!
//! A delivery transaction may carry only a bounded number of messages: a
//! count ceiling, a cumulative dispatch-weight ceiling and a cumulative
//! encoded-size ceiling all apply at once. Selection always takes a
//! contiguous nonce prefix: a later nonce is never delivered before an
//! earlier one.

use vstd::prelude::*;

use crate::types::{Balance, MessageDetails, MessageNonce, RelayerMode, Weight};

verus! {

/// Per-transaction ceilings for one delivery batch.
#[derive(Clone, Copy, PartialEq, Eq, Structural, Debug)]
pub struct DeliveryLimits {
    /// Maximal number of messages in a single batch.
    pub max_messages_in_single_batch: u64,
    /// Maximal cumulative dispatch weight of a single batch.
    pub max_messages_weight_in_single_batch: Weight,
    /// Maximal cumulative encoded size of a single batch, in bytes.
    pub max_messages_size_in_single_batch: u32,
}

/// Cumulative dispatch weight of the first `n` entries of `details`.
pub open spec fn sum_weight(details: Seq<MessageDetails>) -> int
    decreases details.len(),
{
    if details.len() == 0 {
        0
    } else {
        sum_weight(details.drop_last()) + details.last().dispatch_weight
    }
}

/// Cumulative encoded size of the first `n` entries of `details`.
pub open spec fn sum_size(details: Seq<MessageDetails>) -> int
    decreases details.len(),
{
    if details.len() == 0 {
        0
    } else {
        sum_size(details.drop_last()) + details.last().size
    }
}

/// Cumulative delivery fee of the first `n` entries of `details`.
pub open spec fn sum_fee(details: Seq<MessageDetails>) -> int
    decreases details.len(),
{
    if details.len() == 0 {
        0
    } else {
        sum_fee(details.drop_last()) + details.last().fee
    }
}

/// The first `n` details form a contiguous nonce run starting right after
/// `latest_received`.
pub open spec fn contiguous_from(details: Seq<MessageDetails>, latest_received: MessageNonce, n: int) -> bool {
    forall|i: int| 0 <= i < n ==> #[trigger] details[i].nonce == latest_received + 1 + i
}

/// A prefix of length `n` respects every ceiling of `limits`.
pub open spec fn within_limits(details: Seq<MessageDetails>, n: int, limits: DeliveryLimits) -> bool {
    &&& n <= limits.max_messages_in_single_batch
    &&& sum_weight(details.take(n)) <= limits.max_messages_weight_in_single_batch
    &&& sum_size(details.take(n)) <= limits.max_messages_size_in_single_batch
}

/// Approximate weight model of delivering messages to a chain: the cost of
/// the delivery transaction itself, split into a fixed part and a
/// per-message part.
///
/// When the exact weights of a newly bridged chain are unknown, a
/// known chain's model is used together with a safety divisor until real
/// benchmarks exist.
#[derive(Clone, Copy, PartialEq, Eq, Structural, Debug)]
pub struct MessageWeightModel {
    /// Fixed weight overhead of one delivery transaction.
    pub receive_messages_proof_overhead: Weight,
    /// Additional weight taken by each delivered message.
    pub per_message_overhead: Weight,
    /// Additional weight taken when the proof also carries the outbound
    /// lane state.
    pub outbound_lane_state_overhead: Weight,
}

/// Weight reserved for the delivery transaction itself: one third of the
/// maximal extrinsic weight.
pub open spec fn spec_weight_for_delivery_tx(max_extrinsic_weight: Weight) -> int {
    max_extrinsic_weight as int / 3
}

/// Weight left for message dispatch after the delivery transaction's
/// reserved third.
pub open spec fn spec_weight_for_dispatch(max_extrinsic_weight: Weight) -> int {
    max_extrinsic_weight - spec_weight_for_delivery_tx(max_extrinsic_weight)
}

/// How many messages fit into the reserved delivery weight after the fixed
/// overhead.
pub open spec fn spec_weight_limited_count(model: MessageWeightModel, max_extrinsic_weight: Weight) -> int {
    (spec_weight_for_delivery_tx(max_extrinsic_weight) - model.receive_messages_proof_overhead
        - model.outbound_lane_state_overhead) / (model.per_message_overhead as int)
}

/// Compute conservative per-transaction ceilings on the number and the
/// cumulative dispatch weight of delivered messages.
///
/// One third of the maximal extrinsic weight is reserved for the delivery
/// transaction itself; the rest is left for message dispatch. The number
/// of messages is bounded both by what fits into the reserved third after
/// the fixed overhead and by the target's unrewarded-relayer-entries
/// parameter.
///
/// Misconfigured inputs (an overhead that alone exceeds the reserved
/// weight, or ceilings that admit no message at all) are rejected by the
/// precondition: no batch could ever be built from them.
pub fn select_delivery_transaction_limits(
    model: &MessageWeightModel,
    max_extrinsic_weight: Weight,
    max_unrewarded_relayer_entries_at_target: u64,
) -> (r: (u64, Weight))
    requires
        model.per_message_overhead > 0,
        model.receive_messages_proof_overhead + model.outbound_lane_state_overhead
            <= spec_weight_for_delivery_tx(max_extrinsic_weight),
        max_unrewarded_relayer_entries_at_target > 0,
        spec_weight_limited_count(*model, max_extrinsic_weight) > 0,
    ensures
        r.0 == vstd::math::min(
            spec_weight_limited_count(*model, max_extrinsic_weight),
            max_unrewarded_relayer_entries_at_target as int,
        ),
        r.1 == spec_weight_for_dispatch(max_extrinsic_weight),
        r.0 > 0,
{
    let weight_for_delivery_tx: Weight = max_extrinsic_weight / 3;
    let weight_for_messages_dispatch: Weight = max_extrinsic_weight - weight_for_delivery_tx;

    let delivery_tx_base_weight: Weight =
        model.receive_messages_proof_overhead + model.outbound_lane_state_overhead;
    let delivery_tx_weight_rest: Weight = weight_for_delivery_tx - delivery_tx_base_weight;
    let weight_bounded: u64 = delivery_tx_weight_rest / model.per_message_overhead;
    let max_number_of_messages: u64 = if weight_bounded < max_unrewarded_relayer_entries_at_target {
        weight_bounded
    } else {
        max_unrewarded_relayer_entries_at_target
    };

    (max_number_of_messages, weight_for_messages_dispatch)
}

/// Derive the full ceilings of one lane's delivery batches from the target
/// chain's parameters, applying `safety_divisor` to the count and weight
/// ceilings (for chains whose weight model is a guess) and reserving two
/// thirds of the maximal extrinsic size for proof overhead and the
/// transaction envelope.
pub fn compute_delivery_limits(
    model: &MessageWeightModel,
    max_extrinsic_weight: Weight,
    max_extrinsic_size: u32,
    max_unrewarded_relayer_entries_at_target: u64,
    safety_divisor: u64,
) -> (limits: DeliveryLimits)
    requires
        safety_divisor > 0,
        model.per_message_overhead > 0,
        model.receive_messages_proof_overhead + model.outbound_lane_state_overhead
            <= spec_weight_for_delivery_tx(max_extrinsic_weight),
        max_unrewarded_relayer_entries_at_target > 0,
        spec_weight_limited_count(*model, max_extrinsic_weight) > 0,
    ensures
        limits.max_messages_in_single_batch == vstd::math::min(
            spec_weight_limited_count(*model, max_extrinsic_weight),
            max_unrewarded_relayer_entries_at_target as int,
        ) / (safety_divisor as int),
        limits.max_messages_weight_in_single_batch
            == spec_weight_for_dispatch(max_extrinsic_weight) / (safety_divisor as int),
        limits.max_messages_size_in_single_batch == max_extrinsic_size as int / 3,
{
    let (count, weight) = select_delivery_transaction_limits(
        model,
        max_extrinsic_weight,
        max_unrewarded_relayer_entries_at_target,
    );
    DeliveryLimits {
        max_messages_in_single_batch: count / safety_divisor,
        max_messages_weight_in_single_batch: weight / safety_divisor,
        max_messages_size_in_single_batch: max_extrinsic_size / 3,
    }
}

/// Truncate an already selected batch according to the relayer's delivery
/// policy.
///
/// Under `Altruistic` the batch is kept whole. Under `Rational` the batch
/// is delivered only when its aggregate fee reaches
/// `minimal_acceptable_reward`, the deployment's profitability threshold;
/// since fees only accumulate, a shorter prefix could not reach a
/// threshold the whole batch misses, so an unprofitable batch is withheld
/// entirely.
pub fn apply_relayer_mode(
    mode: RelayerMode,
    details: &Vec<MessageDetails>,
    n: usize,
    minimal_acceptable_reward: Balance,
) -> (m: usize)
    requires
        n <= details@.len(),
    ensures
        m == spec_apply_relayer_mode(mode, details@, n as int, minimal_acceptable_reward),
        mode == RelayerMode::Altruistic ==> m == n,
        mode == RelayerMode::Rational ==> m == if sum_fee(details@.take(n as int))
            >= minimal_acceptable_reward {
            n as int
        } else {
            0
        },
        m <= n,
{
    match mode {
        RelayerMode::Altruistic => n,
        RelayerMode::Rational => {
            let mut total: u128 = 0;
            let mut i: usize = 0;
            while i < n
                invariant
                    i <= n <= details@.len(),
                    total == if sum_fee(details@.take(i as int)) > u128::MAX {
                        u128::MAX as int
                    } else {
                        sum_fee(details@.take(i as int))
                    },
                decreases n - i,
            {
                assert(details@.take(i + 1).drop_last() =~= details@.take(i as int));
                total = total.saturating_add(details[i].fee);
                i = i + 1;
            }
            proof {
                lemma_sum_fee_nonneg(details@.take(n as int));
            }
            if total >= minimal_acceptable_reward {
                n
            } else {
                0
            }
        },
    }
}

/// The aggregate fee of any run of messages is non-negative.
proof fn lemma_sum_fee_nonneg(details: Seq<MessageDetails>)
    ensures
        sum_fee(details) >= 0,
    decreases details.len(),
{
    if details.len() > 0 {
        lemma_sum_fee_nonneg(details.drop_last());
    }
}

/// Helper for [`spec_select_count`]: the selection result when the first
/// `k` messages are already selected.
pub open spec fn spec_select_from(
    latest_received: MessageNonce,
    details: Seq<MessageDetails>,
    limits: DeliveryLimits,
    k: int,
) -> int
    decreases details.len() - k,
{
    if 0 <= k < details.len() && details[k].nonce == latest_received + 1 + k && within_limits(
        details,
        k + 1,
        limits,
    ) {
        spec_select_from(latest_received, details, limits, k + 1)
    } else {
        k
    }
}

/// The number of messages a delivery batch takes: the length of the
/// longest contiguous prefix of `details` that starts right after
/// `latest_received` and respects every ceiling of `limits`.
pub open spec fn spec_select_count(
    latest_received: MessageNonce,
    details: Seq<MessageDetails>,
    limits: DeliveryLimits,
) -> int {
    spec_select_from(latest_received, details, limits, 0)
}

/// The batch length after the relayer's delivery policy is applied to an
/// already selected batch of `n` messages.
pub open spec fn spec_apply_relayer_mode(
    mode: RelayerMode,
    details: Seq<MessageDetails>,
    n: int,
    minimal_acceptable_reward: Balance,
) -> int {
    match mode {
        RelayerMode::Altruistic => n,
        RelayerMode::Rational => if sum_fee(details.take(n)) >= minimal_acceptable_reward {
            n
        } else {
            0
        },
    }
}

/// Select the maximal contiguous prefix of `details` that respects every
/// ceiling of `limits`.
///
/// `details` is the source chain's answer for nonces
/// `latest_received + 1 ..`; a gap in it means the nonce was pruned from
/// storage and must be treated as unavailable, so selection stops there.
/// The returned count `n` selects nonces
/// `latest_received + 1 ..= latest_received + n`.
pub fn select_delivery_batch(
    latest_received: MessageNonce,
    details: &Vec<MessageDetails>,
    limits: DeliveryLimits,
) -> (n: usize)
    ensures
        n == spec_select_count(latest_received, details@, limits),
        n <= details@.len(),
        contiguous_from(details@, latest_received, n as int),
        within_limits(details@, n as int, limits),
        // Maximality: one more message would be unavailable, out of order,
        // or over a ceiling.
        n < details@.len() && details@[n as int].nonce == latest_received + 1 + n
            ==> !within_limits(details@, n + 1, limits),
{
    let mut n: usize = 0;
    let mut weight_so_far: u128 = 0;
    let mut size_so_far: u64 = 0;
    loop
        invariant
            n <= details@.len(),
            spec_select_from(latest_received, details@, limits, n as int) == spec_select_count(
                latest_received,
                details@,
                limits,
            ),
            contiguous_from(details@, latest_received, n as int),
            weight_so_far == sum_weight(details@.take(n as int)),
            size_so_far == sum_size(details@.take(n as int)),
            n <= limits.max_messages_in_single_batch,
            weight_so_far <= limits.max_messages_weight_in_single_batch,
            size_so_far <= limits.max_messages_size_in_single_batch,
        ensures
            n == details@.len()
                || details@[n as int].nonce != latest_received + 1 + n
                || !within_limits(details@, n + 1, limits),
            n == spec_select_count(latest_received, details@, limits),
        decreases details@.len() - n,
    {
        if n >= details.len() {
            break;
        }
        let d = details[n];
        let expected: Option<u64> = match latest_received.checked_add(n as u64) {
            Some(v) => v.checked_add(1),
            None => None,
        };
        let nonce_matches: bool = match expected {
            Some(e) => d.nonce == e,
            None => false,
        };
        if !nonce_matches {
            break;
        }
        assert(details@.take(n + 1).drop_last() =~= details@.take(n as int));
        let next_weight: u128 = weight_so_far + d.dispatch_weight as u128;
        let next_size: u64 = size_so_far + d.size as u64;
        if (n as u64) + 1 > limits.max_messages_in_single_batch
            || next_weight > limits.max_messages_weight_in_single_batch as u128
            || next_size > limits.max_messages_size_in_single_batch as u64
        {
            break;
        }
        n = n + 1;
        weight_so_far = next_weight;
        size_so_far = next_size;
    }
    n
}

} // verus!
