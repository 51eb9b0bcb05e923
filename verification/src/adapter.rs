//! The uniform chain-adapter surface.
//!
//! Chain query methods are invoked remotely by string identifiers of the
//! form `<ApiName>_<method>`, where the API name embeds the bridged
//! chain's name. An adapter must expose exactly these names, so they are
//! built here, under contracts that pin every character.

use vstd::prelude::*;
use vstd::string::StringExecFns;

verus! {

/// Name of the `FinalityApi::best_finalized` runtime method of `chain`.
pub fn best_finalized_header_method(chain: &str) -> (s: String)
    ensures
        s@ == chain@ + "FinalityApi_best_finalized"@,
{
    let mut s = String::from_str(chain);
    s.append("FinalityApi_best_finalized");
    s
}

/// Name of the `FinalityApi::is_known_header` runtime method of `chain`.
pub fn is_known_header_method(chain: &str) -> (s: String)
    ensures
        s@ == chain@ + "FinalityApi_is_known_header"@,
{
    let mut s = String::from_str(chain);
    s.append("FinalityApi_is_known_header");
    s
}

/// Name of the outbound-lane `estimate_message_delivery_and_dispatch_fee`
/// method for messages sent to `chain`.
pub fn estimate_message_fee_method(chain: &str) -> (s: String)
    ensures
        s@ == "To"@ + chain@ + "OutboundLaneApi_estimate_message_delivery_and_dispatch_fee"@,
{
    let mut s = String::from_str("To");
    s.append(chain);
    s.append("OutboundLaneApi_estimate_message_delivery_and_dispatch_fee");
    s
}

/// Name of the outbound-lane `message_details` method for messages sent
/// to `chain`.
pub fn message_details_method(chain: &str) -> (s: String)
    ensures
        s@ == "To"@ + chain@ + "OutboundLaneApi_message_details"@,
{
    let mut s = String::from_str("To");
    s.append(chain);
    s.append("OutboundLaneApi_message_details");
    s
}

/// Name of the outbound-lane `latest_generated_nonce` method for
/// messages sent to `chain`.
pub fn latest_generated_nonce_method(chain: &str) -> (s: String)
    ensures
        s@ == "To"@ + chain@ + "OutboundLaneApi_latest_generated_nonce"@,
{
    let mut s = String::from_str("To");
    s.append(chain);
    s.append("OutboundLaneApi_latest_generated_nonce");
    s
}

/// Name of the outbound-lane `latest_received_nonce` method for messages
/// sent to `chain`.
pub fn outbound_latest_received_nonce_method(chain: &str) -> (s: String)
    ensures
        s@ == "To"@ + chain@ + "OutboundLaneApi_latest_received_nonce"@,
{
    let mut s = String::from_str("To");
    s.append(chain);
    s.append("OutboundLaneApi_latest_received_nonce");
    s
}

/// Name of the inbound-lane `latest_received_nonce` method for messages
/// sent by `chain`.
pub fn inbound_latest_received_nonce_method(chain: &str) -> (s: String)
    ensures
        s@ == "From"@ + chain@ + "InboundLaneApi_latest_received_nonce"@,
{
    let mut s = String::from_str("From");
    s.append(chain);
    s.append("InboundLaneApi_latest_received_nonce");
    s
}

/// Name of the inbound-lane `latest_confirmed_nonce` method for messages
/// sent by `chain`.
pub fn inbound_latest_confirmed_nonce_method(chain: &str) -> (s: String)
    ensures
        s@ == "From"@ + chain@ + "InboundLaneApi_latest_confirmed_nonce"@,
{
    let mut s = String::from_str("From");
    s.append(chain);
    s.append("InboundLaneApi_latest_confirmed_nonce");
    s
}

/// Name of the inbound-lane `unrewarded_relayers_state` method for
/// messages sent by `chain`.
pub fn unrewarded_relayers_state_method(chain: &str) -> (s: String)
    ensures
        s@ == "From"@ + chain@ + "InboundLaneApi_unrewarded_relayers_state"@,
{
    let mut s = String::from_str("From");
    s.append(chain);
    s.append("InboundLaneApi_unrewarded_relayers_state");
    s
}

} // verus!
