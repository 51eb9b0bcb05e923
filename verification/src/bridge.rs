//! Bridge directions and per-chain configuration values.
//!
//! Every supported bridge direction is data: a pallet-instance index, a
//! call-index table and chain parameters. Adding a bridge pair is a
//! configuration change, not new code.

use vstd::prelude::*;
use vstd::string::StringExecFns;

use crate::calls::{sign_transaction, spec_signed_by, CallIndexTable};
use crate::types::RelayError;

verus! {

/// Supported full bridges (headers + messages).
#[allow(non_camel_case_types)]
#[derive(Clone, Copy, PartialEq, Eq, Structural, Debug)]
pub enum FullBridge {
    MillauToRialto,
    RialtoToMillau,
    titanToWococo,
    WococoTotitan,
}

/// Instance index of the Rialto-to-Millau bridge pallet.
pub const RIALTO_TO_MILLAU_INDEX: u8 = 0;

/// Instance index of the Millau-to-Rialto bridge pallet.
pub const MILLAU_TO_RIALTO_INDEX: u8 = 0;

/// Instance index of the titan-to-Wococo bridge pallet.
#[allow(non_upper_case_globals)]
pub const titan_TO_WOCOCO_INDEX: u8 = 0;

/// Instance index of the Wococo-to-titan bridge pallet.
#[allow(non_upper_case_globals)]
pub const WOCOCO_TO_titan_INDEX: u8 = 0;

impl FullBridge {
    /// The instance index of this bridge's pallet in its source runtime.
    pub open spec fn spec_bridge_instance_index(self) -> u8 {
        match self {
            FullBridge::MillauToRialto => MILLAU_TO_RIALTO_INDEX,
            FullBridge::RialtoToMillau => RIALTO_TO_MILLAU_INDEX,
            FullBridge::titanToWococo => titan_TO_WOCOCO_INDEX,
            FullBridge::WococoTotitan => WOCOCO_TO_titan_INDEX,
        }
    }

    /// Return instance index of the bridge pallet in source runtime.
    pub fn bridge_instance_index(&self) -> (r: u8)
        ensures
            r == self.spec_bridge_instance_index(),
    {
        match self {
            FullBridge::MillauToRialto => MILLAU_TO_RIALTO_INDEX,
            FullBridge::RialtoToMillau => RIALTO_TO_MILLAU_INDEX,
            FullBridge::titanToWococo => titan_TO_WOCOCO_INDEX,
            FullBridge::WococoTotitan => WOCOCO_TO_titan_INDEX,
        }
    }
}

/// The gold chain definition.
#[allow(non_camel_case_types)]
#[derive(Clone, Copy, PartialEq, Eq, Structural, Debug)]
pub struct gold;

impl gold {
    /// The chain's average block interval in milliseconds; polling
    /// faster than this yields no new finalized state.
    pub fn average_block_interval_ms(&self) -> (r: u64)
        ensures
            r == 6000,
    {
        6000
    }

    /// The chain's name.
    pub fn name(&self) -> (s: String)
        ensures
            s@ == "gold"@,
    {
        String::from_str("gold")
    }

    /// The address-format discriminant of the chain, threaded explicitly
    /// to every caller that formats addresses.
    pub fn ss58_format(&self) -> (r: u16)
        ensures
            r == 2,
    {
        2
    }
}

/// The titan chain definition.
#[allow(non_camel_case_types)]
#[derive(Clone, Copy, PartialEq, Eq, Structural, Debug)]
pub struct titan;

impl titan {
    /// The chain's average block interval in milliseconds.
    pub fn average_block_interval_ms(&self) -> (r: u64)
        ensures
            r == 6000,
    {
        6000
    }

    /// The chain's name.
    pub fn name(&self) -> (s: String)
        ensures
            s@ == "titan"@,
    {
        String::from_str("titan")
    }

    /// Sign an encoded call as a titan transaction: the call-index table
    /// under `table` is stamped with the spec version of the titan
    /// runtime it mirrors, and signing is refused on any other reported
    /// version.
    pub fn sign_transaction(
        &self,
        table: &CallIndexTable,
        chain_spec_version: u32,
        genesis_hash: &[u8; 32],
        seed: &[u8; 32],
        signer_nonce: u32,
        call: &[u8],
    ) -> (r: Result<Vec<u8>, RelayError>)
        ensures
            r is Ok <==> table.spec_version == chain_spec_version,
            r matches Ok(tx) ==> spec_signed_by(
                tx@,
                call@,
                seed@,
                signer_nonce,
                table.spec_version,
                genesis_hash@,
            ),
            r is Err ==> r == Err::<Vec<u8>, RelayError>(RelayError::GuardTripped),
    {
        sign_transaction(
            call,
            seed,
            signer_nonce,
            genesis_hash,
            table.spec_version,
            chain_spec_version,
        )
    }
}

/// Everything the engine needs to know about one chain: its identity,
/// pacing, transaction ceilings and call-index table.
#[derive(Clone, Copy, Debug)]
pub struct ChainConfig {
    /// The chain's identifier inside derived-account preimages and call
    /// payloads.
    pub chain_id: crate::derivation::ChainId,
    /// Average block interval, pacing the polling of this chain.
    pub average_block_interval_ms: u64,
    /// Maximal weight of one extrinsic.
    pub max_extrinsic_weight: u64,
    /// Maximal encoded size of one extrinsic, in bytes.
    pub max_extrinsic_size: u32,
    /// Maximal number of unrewarded-relayer entries at the inbound lane.
    pub max_unrewarded_relayer_entries: u64,
    /// Maximal number of unconfirmed messages at the inbound lane.
    pub max_unconfirmed_messages: u64,
    /// Where the pallets sit in the chain's dispatch table.
    pub call_indices: CallIndexTable,
}

/// The parameters one message-lane loop instance runs under.
#[derive(Clone, Copy, Debug)]
pub struct LaneLoopParams {
    /// The lane the loop serves.
    pub lane: crate::types::LaneId,
    /// Polling pace on the source chain.
    pub source_tick_ms: u64,
    /// Polling pace on the target chain.
    pub target_tick_ms: u64,
    /// How long to wait before rebuilding a torn-down loop.
    pub reconnect_delay_ms: u64,
    /// How long both nonces may sit still before the loop is torn down.
    pub stall_timeout_ms: u64,
    /// Ceilings of one delivery batch.
    pub delivery_limits: crate::batch::DeliveryLimits,
    /// Ceilings of the target's unrewarded-relayers queue.
    pub queue_limits: crate::lane::QueueLimits,
    /// The relayer's delivery policy.
    pub relayer_mode: crate::types::RelayerMode,
}

/// Assemble the parameters of one lane's loop from the two chains'
/// configurations: batch ceilings from the target's extrinsic limits and
/// the weight model (with the safety divisor for chains whose model is a
/// guess), queue ceilings from the target's inbound-lane parameters, and
/// pacing from both chains' block intervals.
pub fn message_lane_loop_params(
    source: &ChainConfig,
    target: &ChainConfig,
    lane: crate::types::LaneId,
    weight_model: &crate::batch::MessageWeightModel,
    safety_divisor: u64,
    stall_timeout_ms: u64,
    reconnect_delay_ms: u64,
    relayer_mode: crate::types::RelayerMode,
) -> (params: LaneLoopParams)
    requires
        safety_divisor > 0,
        weight_model.per_message_overhead > 0,
        weight_model.receive_messages_proof_overhead + weight_model.outbound_lane_state_overhead
            <= crate::batch::spec_weight_for_delivery_tx(target.max_extrinsic_weight),
        target.max_unrewarded_relayer_entries > 0,
        crate::batch::spec_weight_limited_count(*weight_model, target.max_extrinsic_weight) > 0,
    ensures
        params.lane@ == lane@,
        params.source_tick_ms == source.average_block_interval_ms,
        params.target_tick_ms == target.average_block_interval_ms,
        params.reconnect_delay_ms == reconnect_delay_ms,
        params.stall_timeout_ms == stall_timeout_ms,
        params.relayer_mode == relayer_mode,
        params.queue_limits.max_unrewarded_relayer_entries_at_target
            == target.max_unrewarded_relayer_entries,
        params.queue_limits.max_unconfirmed_nonces_at_target == target.max_unconfirmed_messages,
        params.delivery_limits.max_messages_in_single_batch == vstd::math::min(
            crate::batch::spec_weight_limited_count(*weight_model, target.max_extrinsic_weight),
            target.max_unrewarded_relayer_entries as int,
        ) / (safety_divisor as int),
        params.delivery_limits.max_messages_weight_in_single_batch
            == crate::batch::spec_weight_for_dispatch(target.max_extrinsic_weight) / (
        safety_divisor as int),
        params.delivery_limits.max_messages_size_in_single_batch == target.max_extrinsic_size as int
            / 3,
{
    let delivery_limits = crate::batch::compute_delivery_limits(
        weight_model,
        target.max_extrinsic_weight,
        target.max_extrinsic_size,
        target.max_unrewarded_relayer_entries,
        safety_divisor,
    );
    LaneLoopParams {
        lane,
        source_tick_ms: source.average_block_interval_ms,
        target_tick_ms: target.average_block_interval_ms,
        reconnect_delay_ms,
        stall_timeout_ms,
        delivery_limits,
        queue_limits: crate::lane::QueueLimits {
            max_unrewarded_relayer_entries_at_target: target.max_unrewarded_relayer_entries,
            max_unconfirmed_nonces_at_target: target.max_unconfirmed_messages,
        },
        relayer_mode,
    }
}

/// Whether `s` begins with `prefix`.
pub open spec fn spec_starts_with(s: Seq<u8>, prefix: Seq<u8>) -> bool {
    prefix.len() <= s.len() && s.take(prefix.len() as int) == prefix
}

/// Whether the byte string `s` begins with `prefix`.
pub fn bytes_starts_with(s: &[u8], prefix: &[u8]) -> (r: bool)
    ensures
        r == spec_starts_with(s@, prefix@),
{
    if prefix.len() > s.len() {
        assert(!spec_starts_with(s@, prefix@));
        return false;
    }
    let mut i: usize = 0;
    while i < prefix.len()
        invariant
            i <= prefix@.len() <= s@.len(),
            forall|j: int| 0 <= j < i ==> s@[j] == prefix@[j],
        decreases prefix@.len() - i,
    {
        if s[i] != prefix[i] {
            assert(s@.take(prefix@.len() as int)[i as int] != prefix@[i as int]);
            return false;
        }
        i = i + 1;
    }
    assert(s@.take(prefix@.len() as int) =~= prefix@);
    true
}

/// The ASCII bytes of "diamond".
pub open spec fn diamond_name() -> Seq<u8> {
    seq![0x64u8, 0x69u8, 0x61u8, 0x6du8, 0x6fu8, 0x6eu8, 0x64u8]
}

/// The ASCII bytes of "gold".
pub open spec fn gold_name() -> Seq<u8> {
    seq![0x67u8, 0x6fu8, 0x6cu8, 0x64u8]
}

/// The ASCII bytes of "westend".
pub open spec fn westend_name() -> Seq<u8> {
    seq![0x77u8, 0x65u8, 0x73u8, 0x74u8, 0x65u8, 0x6eu8, 0x64u8]
}

/// The ASCII bytes of "rococo".
pub open spec fn rococo_name() -> Seq<u8> {
    seq![0x72u8, 0x6fu8, 0x63u8, 0x6fu8, 0x63u8, 0x6fu8]
}

/// The chain a chain-spec selector resolves to when none is given
/// explicitly: the first known chain name the executable's name starts
/// with, or "diamond".
pub open spec fn spec_default_chain(exec_name: Seq<u8>) -> Seq<u8> {
    if spec_starts_with(exec_name, diamond_name()) {
        diamond_name()
    } else if spec_starts_with(exec_name, gold_name()) {
        gold_name()
    } else if spec_starts_with(exec_name, westend_name()) {
        westend_name()
    } else if spec_starts_with(exec_name, rococo_name()) {
        rococo_name()
    } else {
        diamond_name()
    }
}

/// Resolve the chain-spec selector: an explicitly given id wins, an
/// empty one falls back to the chain the executable is named after.
pub fn resolve_chain_id(explicit_id: &[u8], exec_name: &[u8]) -> (r: Vec<u8>)
    ensures
        explicit_id@.len() > 0 ==> r@ == explicit_id@,
        explicit_id@.len() == 0 ==> r@ == spec_default_chain(exec_name@),
{
    let mut out: Vec<u8> = Vec::new();
    if explicit_id.len() > 0 {
        crate::codec::push_bytes(&mut out, explicit_id);
        return out;
    }
    let diamond: [u8; 7] = [0x64, 0x69, 0x61, 0x6d, 0x6f, 0x6e, 0x64];
    let gold_bytes: [u8; 4] = [0x67, 0x6f, 0x6c, 0x64];
    let westend: [u8; 7] = [0x77, 0x65, 0x73, 0x74, 0x65, 0x6e, 0x64];
    let rococo: [u8; 6] = [0x72, 0x6f, 0x63, 0x6f, 0x63, 0x6f];
    proof {
        assert(diamond@ =~= diamond_name());
        assert(gold_bytes@ =~= gold_name());
        assert(westend@ =~= westend_name());
        assert(rococo@ =~= rococo_name());
    }
    if bytes_starts_with(exec_name, &diamond) {
        crate::codec::push_bytes(&mut out, &diamond);
    } else if bytes_starts_with(exec_name, &gold_bytes) {
        crate::codec::push_bytes(&mut out, &gold_bytes);
    } else if bytes_starts_with(exec_name, &westend) {
        crate::codec::push_bytes(&mut out, &westend);
    } else if bytes_starts_with(exec_name, &rococo) {
        crate::codec::push_bytes(&mut out, &rococo);
    } else {
        crate::codec::push_bytes(&mut out, &diamond);
    }
    out
}

/// The native runtimes a node can carry.
#[derive(Clone, Copy, PartialEq, Eq, Structural, Debug)]
pub enum NativeRuntime {
    /// The gold runtime.
    Gold,
    /// The westend runtime.
    Westend,
    /// The rococo runtime, also used for wococo.
    Rococo,
    /// The diamond runtime, the default.
    Diamond,
}

/// Which native runtime serves the selected chain spec: gold and westend
/// have their own, rococo also serves wococo, and everything else is
/// assumed to be diamond.
pub fn select_native_runtime(
    is_gold: bool,
    is_westend: bool,
    is_rococo: bool,
    is_wococo: bool,
) -> (r: NativeRuntime)
    ensures
        r == if is_gold {
            NativeRuntime::Gold
        } else if is_westend {
            NativeRuntime::Westend
        } else if is_rococo || is_wococo {
            NativeRuntime::Rococo
        } else {
            NativeRuntime::Diamond
        },
{
    if is_gold {
        NativeRuntime::Gold
    } else if is_westend {
        NativeRuntime::Westend
    } else if is_rococo || is_wococo {
        NativeRuntime::Rococo
    } else {
        NativeRuntime::Diamond
    }
}

/// The address-format discriminant used when formatting accounts of the
/// selected chain. Threaded explicitly through call sites instead of
/// living in process-wide state.
pub fn ss58_format_for_chain(is_gold: bool, is_westend: bool) -> (r: u16)
    ensures
        r == if is_gold {
            2int
        } else if is_westend {
            42int
        } else {
            0int
        },
{
    if is_gold {
        2
    } else if is_westend {
        42
    } else {
        0
    }
}

/// A subcommand that may only run against a development chain: accept
/// exactly the dev chain specs, handing back the offending id otherwise
/// for the caller's diagnostic.
pub fn ensure_dev(is_dev: bool, id: &[u8]) -> (r: Result<(), Vec<u8>>)
    ensures
        r is Ok <==> is_dev,
        r matches Err(e) ==> e@ == id@,
{
    if is_dev {
        Ok(())
    } else {
        let mut out: Vec<u8> = Vec::new();
        crate::codec::push_bytes(&mut out, id);
        Err(out)
    }
}

} // verus!
