//! Core identifiers and values shared by the relay engine.

use vstd::prelude::*;

verus! {

/// Identifier of an independent, nonce-ordered message channel between a
/// chain pair.
pub type LaneId = [u8; 4];

/// Per-lane, strictly increasing sequence number identifying a message's
/// delivery order. Nonces start at 1; nonce 0 means "no message yet".
pub type MessageNonce = u64;

/// Dispatch weight of a call or message.
pub type Weight = u64;

/// Balance of an account.
pub type Balance = u128;

/// Identifier of a finalized block: its number together with its hash.
#[derive(Clone, Copy, Debug)]
pub struct HeaderId {
    /// Block number.
    pub number: u32,
    /// Block hash.
    pub hash: [u8; 32],
}

impl PartialEq for HeaderId {
    fn eq(&self, other: &HeaderId) -> (r: bool) {
        if self.number != other.number {
            return false;
        }
        let mut i: usize = 0;
        while i < 32
            invariant
                i <= 32,
                forall|j: int| 0 <= j < i ==> self.hash@[j] == other.hash@[j],
            decreases 32 - i,
        {
            if self.hash[i] != other.hash[i] {
                return false;
            }
            i = i + 1;
        }
        assert(self.hash@ =~= other.hash@);
        true
    }
}

impl Eq for HeaderId {}

impl vstd::std_specs::cmp::PartialEqSpecImpl for HeaderId {
    open spec fn obeys_eq_spec() -> bool {
        true
    }

    open spec fn eq_spec(&self, other: &HeaderId) -> bool {
        self.number == other.number && self.hash@ == other.hash@
    }
}

/// Dispatch weight, encoded size and delivery fee of a single outbound
/// message, as reported by the source chain for a still-stored nonce.
#[derive(Clone, Copy, PartialEq, Eq, Structural, Debug)]
pub struct MessageDetails {
    /// Nonce of the message inside its lane.
    pub nonce: MessageNonce,
    /// Weight that dispatching the message takes on the target chain.
    pub dispatch_weight: Weight,
    /// Size of the encoded message payload in bytes.
    pub size: u32,
    /// Delivery and dispatch fee paid by the message sender.
    pub fee: Balance,
}

/// Delivery policy of the relayer.
#[derive(Clone, Copy, PartialEq, Eq, Structural, Debug)]
pub enum RelayerMode {
    /// Deliver every undelivered message, profitable or not.
    Altruistic,
    /// Withhold delivery of batches below a profitability threshold.
    /// The threshold itself is a per-deployment policy value handed to the
    /// selection routine, not a formula fixed by the engine.
    Rational,
}

/// Failure classes of the relay engine.
#[derive(Clone, Copy, PartialEq, Eq, Structural, Debug)]
pub enum RelayError {
    /// Network or RPC failure; retryable after the reconnect delay.
    Transport,
    /// The chain refused a well-formed request or transaction;
    /// non-retryable for that exact input.
    ChainRejected,
    /// A finality proof failed its voting-weight or signature check.
    InvalidProof,
    /// No nonce progress within the stall timeout; fatal to the current
    /// loop instance.
    Stall,
    /// A safety guard fired (spec-version change or balance drain);
    /// deliberate abort requiring operator intervention.
    GuardTripped,
    /// Decoding of a structured value failed a domain-separation check.
    MalformedEncoding,
}

} // verus!
