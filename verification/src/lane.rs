//! The message-lane loop: delivery and confirmation decisions, nonce
//! tracking and stall detection.
//!
//! The loop itself performs no network work. Each cycle the caller polls
//! both chains, feeds the observed values in, and executes whatever
//! action the decision functions return; every decision is recomputed
//! from fresh chain state, so a restarted loop is safe and idempotent.

use vstd::prelude::*;

use crate::batch::{
    apply_relayer_mode, contiguous_from, select_delivery_batch, spec_apply_relayer_mode,
    spec_select_count, sum_fee, within_limits, DeliveryLimits,
};
use crate::relayers::UnrewardedRelayersState;
use crate::types::{Balance, MessageDetails, MessageNonce, RelayError, RelayerMode};

verus! {

/// Largest nonce seen so far, after folding in one more observation.
pub open spec fn fold_observation(current: MessageNonce, observed: MessageNonce) -> MessageNonce {
    if observed > current {
        observed
    } else {
        current
    }
}

/// Largest nonce seen over a whole polling sequence.
pub open spec fn fold_observations(start: MessageNonce, polls: Seq<MessageNonce>) -> MessageNonce
    decreases polls.len(),
{
    if polls.len() == 0 {
        start
    } else {
        fold_observation(fold_observations(start, polls.drop_last()), polls.last())
    }
}

/// The lane's view of the nonces that drive both sub-loops. Every field
/// only ever grows: a poll that reports an older value (a lagging or
/// restarted node) never moves the view backwards.
pub struct LaneView {
    /// Latest nonce generated by the source chain's outbound lane.
    pub latest_generated_nonce: MessageNonce,
    /// Latest nonce received by the target chain's inbound lane.
    pub latest_received_nonce: MessageNonce,
    /// Latest nonce whose delivery the source chain has seen confirmed.
    pub latest_confirmed_nonce: MessageNonce,
}

impl LaneView {
    /// A fresh view before any poll.
    pub fn new() -> (view: LaneView)
        ensures
            view.latest_generated_nonce == 0,
            view.latest_received_nonce == 0,
            view.latest_confirmed_nonce == 0,
    {
        LaneView { latest_generated_nonce: 0, latest_received_nonce: 0, latest_confirmed_nonce: 0 }
    }

    /// Fold in one poll of the source chain's outbound lane.
    pub fn update_source(&mut self, observed_generated: MessageNonce, observed_confirmed: MessageNonce)
        ensures
            final(self).latest_generated_nonce == fold_observation(
                old(self).latest_generated_nonce,
                observed_generated,
            ),
            final(self).latest_confirmed_nonce == fold_observation(
                old(self).latest_confirmed_nonce,
                observed_confirmed,
            ),
            final(self).latest_received_nonce == old(self).latest_received_nonce,
            final(self).latest_generated_nonce >= old(self).latest_generated_nonce,
            final(self).latest_confirmed_nonce >= old(self).latest_confirmed_nonce,
    {
        if observed_generated > self.latest_generated_nonce {
            self.latest_generated_nonce = observed_generated;
        }
        if observed_confirmed > self.latest_confirmed_nonce {
            self.latest_confirmed_nonce = observed_confirmed;
        }
    }

    /// Fold in one poll of the target chain's inbound lane.
    pub fn update_target(&mut self, observed_received: MessageNonce)
        ensures
            final(self).latest_received_nonce == fold_observation(
                old(self).latest_received_nonce,
                observed_received,
            ),
            final(self).latest_received_nonce >= old(self).latest_received_nonce,
            final(self).latest_generated_nonce == old(self).latest_generated_nonce,
            final(self).latest_confirmed_nonce == old(self).latest_confirmed_nonce,
    {
        if observed_received > self.latest_received_nonce {
            self.latest_received_nonce = observed_received;
        }
    }
}

/// Over any polling sequence, the tracked received nonce is monotonically
/// non-decreasing: after any further polls the tracked value is at least
/// what it was before them.
pub proof fn lemma_received_nonce_monotone(start: MessageNonce, polls: Seq<MessageNonce>)
    ensures
        fold_observations(start, polls) >= start,
        forall|i: int|
            0 <= i <= polls.len() ==> #[trigger] fold_observations(start, polls.take(i))
                <= fold_observations(start, polls),
    decreases polls.len(),
{
    if polls.len() > 0 {
        lemma_received_nonce_monotone(start, polls.drop_last());
        assert(polls.take(polls.len() as int) =~= polls);
        assert forall|i: int| 0 <= i <= polls.len() implies #[trigger] fold_observations(
            start,
            polls.take(i),
        ) <= fold_observations(start, polls) by {
            if i < polls.len() {
                assert(polls.take(i) =~= polls.drop_last().take(i));
            }
        }
    }
}

/// How much time has passed since `last`: a clock reading below it (a
/// caller whose clock stepped backwards) counts as no elapsed time.
pub open spec fn spec_elapsed(last: u64, now: u64) -> int {
    if now >= last {
        now - last
    } else {
        0
    }
}

/// Stall detection over both monitored nonces.
///
/// The tracker remembers the last observed pair and the instant of the
/// last change. A stall is reported exactly when neither nonce has
/// changed for at least the stall timeout; any single change resets the
/// timer.
pub struct StallTracker {
    /// Instant (milliseconds on the caller's clock) of the last observed
    /// nonce change; a clock reading below it counts as no elapsed time.
    pub last_progress_at: u64,
    /// Source-side nonce at the last observation.
    pub last_source_nonce: MessageNonce,
    /// Target-side nonce at the last observation.
    pub last_target_nonce: MessageNonce,
}

impl StallTracker {
    /// Start tracking at instant `now` from an initial nonce pair.
    pub fn new(now: u64, source_nonce: MessageNonce, target_nonce: MessageNonce) -> (t: StallTracker)
        ensures
            t.last_progress_at == now,
            t.last_source_nonce == source_nonce,
            t.last_target_nonce == target_nonce,
    {
        StallTracker { last_progress_at: now, last_source_nonce: source_nonce, last_target_nonce: target_nonce }
    }

    /// Observe the two nonces at instant `now` and report whether the
    /// lane has stalled.
    ///
    /// Reports a stall exactly when both nonces equal the previously
    /// observed pair and at least `stall_timeout` has passed since the
    /// last change; a change of either nonce resets the timer to `now`.
    pub fn on_observation(
        &mut self,
        now: u64,
        source_nonce: MessageNonce,
        target_nonce: MessageNonce,
        stall_timeout: u64,
    ) -> (stalled: bool)
        ensures
            stalled == {
                &&& source_nonce == old(self).last_source_nonce
                &&& target_nonce == old(self).last_target_nonce
                &&& spec_elapsed(old(self).last_progress_at, now) >= stall_timeout
            },
            final(self).last_source_nonce == source_nonce,
            final(self).last_target_nonce == target_nonce,
            final(self).last_progress_at == if source_nonce == old(self).last_source_nonce
                && target_nonce == old(self).last_target_nonce {
                old(self).last_progress_at
            } else {
                now
            },
    {
        let unchanged = source_nonce == self.last_source_nonce
            && target_nonce == self.last_target_nonce;
        if !unchanged {
            self.last_progress_at = now;
            self.last_source_nonce = source_nonce;
            self.last_target_nonce = target_nonce;
            false
        } else {
            now.saturating_sub(self.last_progress_at) >= stall_timeout
        }
    }
}

/// Fold one full poll of both chains into the lane view and the stall
/// tracker.
///
/// Reports `Stall` exactly when neither monitored nonce (the source's
/// generated nonce and the target's received nonce) has moved for at
/// least `stall_timeout`; the caller must then tear the loop instance
/// down and rebuild it after the reconnect delay. All loop state is
/// recomputed from chain queries, so the restart is safe.
pub fn observe_lane_cycle(
    view: &mut LaneView,
    stall: &mut StallTracker,
    now: u64,
    observed_generated: MessageNonce,
    observed_confirmed: MessageNonce,
    observed_received: MessageNonce,
    stall_timeout: u64,
) -> (r: Result<(), RelayError>)
    ensures
        final(view).latest_generated_nonce == fold_observation(
            old(view).latest_generated_nonce,
            observed_generated,
        ),
        final(view).latest_confirmed_nonce == fold_observation(
            old(view).latest_confirmed_nonce,
            observed_confirmed,
        ),
        final(view).latest_received_nonce == fold_observation(
            old(view).latest_received_nonce,
            observed_received,
        ),
        r is Err <==> {
            &&& final(view).latest_generated_nonce == old(stall).last_source_nonce
            &&& final(view).latest_received_nonce == old(stall).last_target_nonce
            &&& spec_elapsed(old(stall).last_progress_at, now) >= stall_timeout
        },
        r is Err ==> r == Err::<(), RelayError>(RelayError::Stall),
        final(stall).last_source_nonce == final(view).latest_generated_nonce,
        final(stall).last_target_nonce == final(view).latest_received_nonce,
{
    view.update_source(observed_generated, observed_confirmed);
    view.update_target(observed_received);
    let stalled = stall.on_observation(
        now,
        view.latest_generated_nonce,
        view.latest_received_nonce,
        stall_timeout,
    );
    if stalled {
        Err(RelayError::Stall)
    } else {
        Ok(())
    }
}

/// When a torn-down loop instance may be rebuilt: `reconnect_delay`
/// after the failure, saturating at the clock's end.
pub fn reconnect_at(now: u64, reconnect_delay: u64) -> (t: u64)
    ensures
        t == if now + reconnect_delay > u64::MAX {
            u64::MAX as int
        } else {
            now + reconnect_delay
        },
{
    now.saturating_add(reconnect_delay)
}

/// The earliest instant of the next poll: one average block interval
/// after the last tick, since polling faster cannot observe new
/// finalized state.
pub fn next_tick_at(last_tick: u64, average_block_interval: u64) -> (t: u64)
    ensures
        t == if last_tick + average_block_interval > u64::MAX {
            u64::MAX as int
        } else {
            last_tick + average_block_interval
        },
{
    last_tick.saturating_add(average_block_interval)
}

/// Whether the target chain already knows a source header at or above
/// the one a message proof would be built against; until it does, the
/// delivery cycle must be deferred.
pub fn source_header_known(target_best_known_number: u32, required_number: u32) -> (r: bool)
    ensures
        r == (target_best_known_number >= required_number),
{
    target_best_known_number >= required_number
}

/// What the delivery sub-loop decides to do in one cycle.
#[derive(Clone, Copy, PartialEq, Eq, Structural, Debug)]
pub enum DeliveryDecision {
    /// Every generated message has already been received by the target.
    NothingToDeliver,
    /// Undelivered messages exist, but the target chain does not yet know
    /// a source header covering them; defer this cycle.
    AwaitingSourceHeader,
    /// The target's unrewarded-relayers queue is at a ceiling; delivery
    /// would be rejected, wait for a confirmation cycle instead.
    QueueFull,
    /// No prefix of the undelivered messages fits the ceilings, or the
    /// fitting prefix is withheld by the relayer's policy.
    NothingSelected,
    /// Deliver the contiguous nonce range `begin ..= begin + count - 1`.
    Deliver { begin: MessageNonce, count: u64 },
}

impl DeliveryDecision {
    /// Which range, if any, the decision delivers.
    pub open spec fn delivers(self) -> Option<(MessageNonce, u64)> {
        match self {
            DeliveryDecision::Deliver { begin, count } => Some((begin, count)),
            _ => None,
        }
    }
}

/// Ceilings of the target's unrewarded-relayers queue, as the delivery
/// sub-loop sees them.
#[derive(Clone, Copy, PartialEq, Eq, Structural, Debug)]
pub struct QueueLimits {
    /// Maximal number of queue entries at the target.
    pub max_unrewarded_relayer_entries_at_target: u64,
    /// Maximal number of unconfirmed messages at the target.
    pub max_unconfirmed_nonces_at_target: u64,
}

/// One delivery-cycle decision (§ delivery sub-loop).
///
/// `details` must be the source chain's message details for the nonces
/// right after `view.latest_received_nonce`, in nonce order.
/// `header_known` says whether the target chain already knows a source
/// header at or above the one the message proof would be built against.
pub fn plan_delivery(
    view: &LaneView,
    unrewarded: &UnrewardedRelayersState,
    queue_limits: &QueueLimits,
    header_known: bool,
    details: &Vec<MessageDetails>,
    limits: DeliveryLimits,
    mode: RelayerMode,
    minimal_acceptable_reward: Balance,
) -> (d: DeliveryDecision)
    ensures
        view.latest_generated_nonce <= view.latest_received_nonce ==> d
            == DeliveryDecision::NothingToDeliver,
        view.latest_generated_nonce > view.latest_received_nonce && !header_known ==> d
            == DeliveryDecision::AwaitingSourceHeader,
        view.latest_generated_nonce > view.latest_received_nonce && header_known && (
        unrewarded.unrewarded_relayer_entries
            >= queue_limits.max_unrewarded_relayer_entries_at_target
            || unrewarded.total_messages >= queue_limits.max_unconfirmed_nonces_at_target) ==> d
            == DeliveryDecision::QueueFull,
        d matches DeliveryDecision::Deliver { begin, count } ==> {
            &&& begin == view.latest_received_nonce + 1
            &&& count >= 1
            &&& count == spec_apply_relayer_mode(mode, details@, spec_select_count(
                view.latest_received_nonce,
                details@,
                limits,
            ), minimal_acceptable_reward)
            &&& contiguous_from(details@, view.latest_received_nonce, count as int)
            &&& within_limits(details@, count as int, limits)
            &&& (mode == RelayerMode::Rational ==> sum_fee(details@.take(count as int))
                >= minimal_acceptable_reward)
        },
        view.latest_generated_nonce > view.latest_received_nonce && header_known
            && unrewarded.unrewarded_relayer_entries
            < queue_limits.max_unrewarded_relayer_entries_at_target && unrewarded.total_messages
            < queue_limits.max_unconfirmed_nonces_at_target ==> (d is Deliver <==> 0
            < spec_apply_relayer_mode(mode, details@, spec_select_count(
            view.latest_received_nonce,
            details@,
            limits,
        ), minimal_acceptable_reward)),
{
    if view.latest_generated_nonce <= view.latest_received_nonce {
        return DeliveryDecision::NothingToDeliver;
    }
    if !header_known {
        return DeliveryDecision::AwaitingSourceHeader;
    }
    if unrewarded.unrewarded_relayer_entries >= queue_limits.max_unrewarded_relayer_entries_at_target
        || unrewarded.total_messages >= queue_limits.max_unconfirmed_nonces_at_target {
        return DeliveryDecision::QueueFull;
    }
    let n = select_delivery_batch(view.latest_received_nonce, details, limits);
    let m = apply_relayer_mode(mode, details, n, minimal_acceptable_reward);
    if m == 0 {
        return DeliveryDecision::NothingSelected;
    }
    DeliveryDecision::Deliver { begin: view.latest_received_nonce + 1, count: m as u64 }
}

/// One confirmation-cycle decision (§ confirmation sub-loop): confirm up
/// to the target's received nonce exactly when the target is ahead of
/// what the source has seen confirmed.
pub fn plan_confirmation(view: &LaneView) -> (r: Option<MessageNonce>)
    ensures
        r == if view.latest_received_nonce > view.latest_confirmed_nonce {
            Some(view.latest_received_nonce)
        } else {
            None::<MessageNonce>
        },
{
    if view.latest_received_nonce > view.latest_confirmed_nonce {
        Some(view.latest_received_nonce)
    } else {
        None
    }
}

} // verus!
