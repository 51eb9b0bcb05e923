//! Bookkeeping for the bounded queue of pending-reward relayer entries.
//!
//! The queue lives in target-chain storage: a delivery appends one entry
//! per transaction, a confirmation clears the oldest entries. A delivery
//! that would push the queue over its entry or nonce ceiling is rejected
//! by the target chain itself, so the relay must expect rejection on
//! delivery and retry only after a confirmation cleared room.

use vstd::prelude::*;

use crate::types::{MessageNonce, RelayError};

verus! {

/// One pending-reward entry: a relayer and the contiguous nonce range it
/// delivered.
#[derive(Clone, Copy, Debug)]
pub struct UnrewardedRelayerEntry {
    /// Identity of the relayer that delivered the range.
    pub relayer: [u8; 32],
    /// First delivered nonce of the range.
    pub begin: MessageNonce,
    /// Last delivered nonce of the range.
    pub end: MessageNonce,
}

/// Snapshot of the unrewarded-relayers queue carried inside a
/// receiving-proof transaction.
#[derive(Clone, Copy, PartialEq, Eq, Structural, Debug)]
pub struct UnrewardedRelayersState {
    /// Number of entries in the queue.
    pub unrewarded_relayer_entries: u64,
    /// Number of messages in the oldest entry.
    pub messages_in_oldest_entry: u64,
    /// Total number of unconfirmed messages over all entries.
    pub total_messages: u64,
}

/// Ceilings the target chain enforces on its inbound lane.
#[derive(Clone, Copy, PartialEq, Eq, Structural, Debug)]
pub struct InboundLaneLimits {
    /// Maximal number of queue entries.
    pub max_unrewarded_relayer_entries: u64,
    /// Maximal total number of unconfirmed messages.
    pub max_unconfirmed_messages: u64,
}

/// The queue after clearing every nonce up to and including `confirmed`:
/// fully confirmed entries leave from the front (FIFO), a straddling
/// oldest entry keeps only its unconfirmed tail.
pub open spec fn drop_confirmed(entries: Seq<UnrewardedRelayerEntry>, confirmed: MessageNonce) -> Seq<
    UnrewardedRelayerEntry,
>
    decreases entries.len(),
{
    if entries.len() == 0 {
        entries
    } else if entries.first().end <= confirmed {
        drop_confirmed(entries.drop_first(), confirmed)
    } else if entries.first().begin <= confirmed {
        seq![
            UnrewardedRelayerEntry {
                relayer: entries.first().relayer,
                begin: (confirmed + 1) as MessageNonce,
                end: entries.first().end,
            },
        ] + entries.drop_first()
    } else {
        entries
    }
}

/// State of one inbound lane at the target chain: the delivered and
/// confirmed high-water marks and the pending-reward queue between them.
pub struct InboundLaneState {
    /// Pending-reward queue, oldest entry first.
    pub entries: Vec<UnrewardedRelayerEntry>,
    /// Nonce of the latest received (delivered) message.
    pub last_delivered_nonce: MessageNonce,
    /// Nonce of the latest message whose delivery was confirmed back to
    /// the source chain.
    pub last_confirmed_nonce: MessageNonce,
}

impl InboundLaneState {
    /// Well-formedness: the queue covers exactly the delivered but not yet
    /// confirmed nonces, in order and without gaps.
    pub open spec fn wf(self) -> bool {
        &&& self.last_confirmed_nonce <= self.last_delivered_nonce
        &&& if self.entries@.len() == 0 {
            self.last_delivered_nonce == self.last_confirmed_nonce
        } else {
            &&& self.entries@.first().begin == self.last_confirmed_nonce + 1
            &&& self.entries@.last().end == self.last_delivered_nonce
        }
        &&& forall|i: int|
            0 <= i < self.entries@.len() ==> (#[trigger] self.entries@[i]).begin
                <= self.entries@[i].end
        &&& forall|i: int|
            0 <= i < self.entries@.len() - 1 ==> (#[trigger] self.entries@[i]).end + 1
                == self.entries@[i + 1].begin
    }

    /// Total number of unconfirmed messages: one per nonce between the
    /// confirmed and the delivered high-water marks.
    pub open spec fn spec_total_messages(self) -> int {
        self.last_delivered_nonce - self.last_confirmed_nonce
    }

    /// A fresh lane where everything up to `confirmed` is both delivered
    /// and confirmed.
    pub fn new(confirmed: MessageNonce) -> (lane: InboundLaneState)
        ensures
            lane.wf(),
            lane.entries@.len() == 0,
            lane.last_delivered_nonce == confirmed,
            lane.last_confirmed_nonce == confirmed,
    {
        InboundLaneState {
            entries: Vec::new(),
            last_delivered_nonce: confirmed,
            last_confirmed_nonce: confirmed,
        }
    }

    /// Execute one delivery of `count` messages by `relayer`, as the
    /// target chain's inbound lane does.
    ///
    /// The delivery is rejected — the whole transaction fails with
    /// `ChainRejected`, leaving the lane unchanged — exactly when it
    /// carries no message at all, would run past the end of the nonce
    /// space, or would push the queue over its entry ceiling or over its
    /// unconfirmed-nonces ceiling.
    pub fn note_delivery(
        &mut self,
        relayer: [u8; 32],
        count: u64,
        limits: &InboundLaneLimits,
    ) -> (r: Result<(), RelayError>)
        requires
            old(self).wf(),
    ensures
            final(self).wf(),
            r is Ok <==> {
                &&& count >= 1
                &&& old(self).last_delivered_nonce + count <= u64::MAX
                &&& old(self).entries@.len() + 1 <= limits.max_unrewarded_relayer_entries
                &&& old(self).spec_total_messages() + count <= limits.max_unconfirmed_messages
            },
            r is Ok ==> {
                &&& final(self).entries@ == old(self).entries@.push(
                    UnrewardedRelayerEntry {
                        relayer,
                        begin: (old(self).last_delivered_nonce + 1) as MessageNonce,
                        end: (old(self).last_delivered_nonce + count) as MessageNonce,
                    },
                )
                &&& final(self).last_delivered_nonce == old(self).last_delivered_nonce + count
                &&& final(self).last_confirmed_nonce == old(self).last_confirmed_nonce
                &&& final(self).entries@.len() <= limits.max_unrewarded_relayer_entries
                &&& final(self).spec_total_messages() <= limits.max_unconfirmed_messages
            },
            r is Err ==> {
                &&& r == Err::<(), RelayError>(RelayError::ChainRejected)
                &&& final(self).entries@ == old(self).entries@
                &&& final(self).last_delivered_nonce == old(self).last_delivered_nonce
                &&& final(self).last_confirmed_nonce == old(self).last_confirmed_nonce
            },
    {
        if count == 0 || count > u64::MAX - self.last_delivered_nonce {
            return Err(RelayError::ChainRejected);
        }
        let entries_len = self.entries.len();
        if entries_len as u64 >= limits.max_unrewarded_relayer_entries {
            return Err(RelayError::ChainRejected);
        }
        let unconfirmed: u64 = self.last_delivered_nonce - self.last_confirmed_nonce;
        if count > limits.max_unconfirmed_messages
            || unconfirmed > limits.max_unconfirmed_messages - count
        {
            return Err(RelayError::ChainRejected);
        }
        let begin = self.last_delivered_nonce + 1;
        let end = self.last_delivered_nonce + count;
        self.entries.push(UnrewardedRelayerEntry { relayer, begin, end });
        self.last_delivered_nonce = end;
        Ok(())
    }

    /// Execute one confirmation, as the source chain's outbound lane
    /// triggers it: every nonce up to `new_confirmed` is rewarded and the
    /// corresponding queue prefix is cleared, oldest entry first.
    pub fn confirm_delivery(&mut self, new_confirmed: MessageNonce)
        requires
            old(self).wf(),
            old(self).last_confirmed_nonce <= new_confirmed <= old(self).last_delivered_nonce,
        ensures
            final(self).wf(),
            final(self).last_confirmed_nonce == new_confirmed,
            final(self).last_delivered_nonce == old(self).last_delivered_nonce,
            final(self).entries@ == drop_confirmed(old(self).entries@, new_confirmed),
            final(self).entries@.len() <= old(self).entries@.len(),
    {
        loop
            invariant
                self.wf(),
                self.last_confirmed_nonce <= new_confirmed <= self.last_delivered_nonce,
                self.last_delivered_nonce == old(self).last_delivered_nonce,
                drop_confirmed(self.entries@, new_confirmed) == drop_confirmed(
                    old(self).entries@,
                    new_confirmed,
                ),
                self.entries@.len() <= old(self).entries@.len(),
            ensures
                self.entries@.len() == 0 || self.entries@.first().end > new_confirmed,
            decreases self.entries@.len(),
        {
            if self.entries.len() == 0 {
                break;
            }
            let first = self.entries[0];
            if first.end <= new_confirmed {
                let ghost before = self.entries@;
                self.entries.remove(0);
                assert(self.entries@ =~= before.drop_first());
                self.last_confirmed_nonce = first.end;
            } else {
                break;
            }
        }
        if self.entries.len() > 0 {
            let first = self.entries[0];
            if first.begin <= new_confirmed {
                let trimmed = UnrewardedRelayerEntry {
                    relayer: first.relayer,
                    begin: new_confirmed + 1,
                    end: first.end,
                };
                let ghost before = self.entries@;
                self.entries.set(0, trimmed);
                assert(self.entries@ =~= seq![trimmed] + before.drop_first());
            }
        }
        self.last_confirmed_nonce = new_confirmed;
    }

    /// Snapshot of the queue for a receiving-proof transaction.
    pub fn snapshot(&self) -> (state: UnrewardedRelayersState)
        requires
            self.wf(),
        ensures
            state.unrewarded_relayer_entries == self.entries@.len(),
            state.total_messages == self.spec_total_messages(),
            state.messages_in_oldest_entry == if self.entries@.len() > 0 {
                self.entries@.first().end - self.entries@.first().begin + 1
            } else {
                0
            },
    {
        let entries = self.entries.len() as u64;
        let oldest: u64 = if self.entries.len() > 0 {
            let first = self.entries[0];
            first.end - first.begin + 1
        } else {
            0
        };
        UnrewardedRelayersState {
            unrewarded_relayer_entries: entries,
            messages_in_oldest_entry: oldest,
            total_messages: self.last_delivered_nonce - self.last_confirmed_nonce,
        }
    }
}

} // verus!
