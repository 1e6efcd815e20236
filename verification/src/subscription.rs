//! The outbound control-channel model: subscription pairs, the aggregation
//! interval, the control message shape, and the frame type handed to the
//! transport.

use vstd::prelude::*;
use crate::channel::MexcChannel;
use crate::market::MexcMarket;

verus! {

/// The venue-side batching window for aggregated trade updates.
#[derive(Clone, Copy, Debug, PartialEq, Eq, Structural)]
pub enum MexcAggInterval {
    Ms10,
    Ms100,
}

impl core::default::Default for MexcAggInterval {
    /// The venue default aggregation interval.
    fn default() -> (r: Self)
        ensures
            r == MexcAggInterval::Ms100,
    {
        MexcAggInterval::Ms100
    }
}

/// The method tag of an outbound control message.
#[derive(Clone, Copy, Debug, PartialEq, Eq, Structural)]
pub enum MexcWsMethod {
    Subscription,
}

/// The wire tag of a control method.
pub open spec fn method_tag(m: MexcWsMethod) -> Seq<char> {
    match m {
        MexcWsMethod::Subscription => "SUBSCRIPTION"@,
    }
}

impl MexcWsMethod {
    /// The method's wire tag.
    pub fn as_wire_str(&self) -> (s: &'static str)
        ensures
            s@ == method_tag(*self),
    {
        match self {
            MexcWsMethod::Subscription => "SUBSCRIPTION",
        }
    }
}

/// One outbound control message: a method tag and the full list of topic
/// strings it applies to.
#[derive(Clone, Debug, PartialEq, Eq)]
pub struct MexcWsSub {
    pub method: MexcWsMethod,
    pub params: Vec<String>,
}

/// The pairing of a channel and a market: one subscription, created once
/// at stream-setup time and immutable thereafter.
#[derive(Clone, Debug, PartialEq, Eq)]
pub struct ExchangeSub {
    pub channel: MexcChannel,
    pub market: MexcMarket,
}

/// One outbound frame for the transport to send.
#[derive(Clone, Debug, PartialEq, Eq)]
pub enum WsMessage {
    Text(String),
}

/// The heartbeat descriptor: a fixed cadence and a constant keep-alive
/// payload, handed to the external transport for scheduling. Pure
/// configuration data, not an active timer.
#[derive(Clone, Debug, PartialEq, Eq)]
pub struct PingInterval {
    /// Seconds between keep-alive sends.
    pub interval_secs: u64,
    /// The constant keep-alive frame.
    pub ping: WsMessage,
}

} // verus!
