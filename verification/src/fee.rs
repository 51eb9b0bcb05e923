//! Linear per-message fee schedule.

use vstd::prelude::*;

verus! {

/// A fee schedule for lane messages: a linear function in the number of
/// bytes of the encoded message.
pub struct FeeSchedule {
    /// The base fee charged for every message.
    pub base: u128,
    /// The fee charged per byte of the encoded message, on top of the base.
    pub per_byte: u128,
}

impl FeeSchedule {
    /// The mathematical fee for a message of `n_bytes` bytes, before
    /// saturation at the numeric limit.
    pub open spec fn exact_fee(&self, n_bytes: nat) -> int {
        self.base + n_bytes * self.per_byte
    }

    /// Compute the fee for a message of the given size.
    ///
    /// The computation saturates at `u128::MAX` instead of overflowing.
    pub fn compute_message_fee(&self, n_bytes: usize) -> (fee: u128)
        ensures
            fee == if self.exact_fee(n_bytes as nat) > u128::MAX {
                u128::MAX as int
            } else {
                self.exact_fee(n_bytes as nat)
            },
    {
        let byte_fee: u128 = match (n_bytes as u128).checked_mul(self.per_byte) {
            Some(f) => f,
            None => u128::MAX,
        };
        self.base.saturating_add(byte_fee)
    }

    /// Estimate the delivery-and-dispatch fee of a payload, or report
    /// that the payload cannot be sent over this lane at all.
    ///
    /// A payload over the lane's message-size ceiling is refused with
    /// `None`; the caller must not send it. Everything else gets the
    /// linear fee.
    pub fn estimate_delivery_fee(&self, n_bytes: usize, max_message_size: u32) -> (r: Option<
        u128,
    >)
        ensures
            r == if n_bytes > max_message_size {
                None::<u128>
            } else if self.exact_fee(n_bytes as nat) > u128::MAX {
                Some(u128::MAX)
            } else {
                Some(self.exact_fee(n_bytes as nat) as u128)
            },
    {
        if n_bytes > max_message_size as usize {
            None
        } else {
            Some(self.compute_message_fee(n_bytes))
        }
    }
}

} // verus!
