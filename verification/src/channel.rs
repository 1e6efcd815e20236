//! The channel identifier: an immutable token naming a data-feed category
//! on the venue.

use vstd::prelude::*;

verus! {

/// Base string of a subscription topic, naming a data-feed category.
///
/// The aggregation interval (e.g. "100ms") and the market symbol (e.g.
/// "BTCUSDT") are appended to this base string, each prefixed with '@',
/// to form the full topic sent on the control channel.
#[derive(Clone, Copy, Debug, PartialEq, Eq, Hash)]
pub struct MexcChannel(pub &'static str);

impl MexcChannel {
    /// Base channel string for the venue's real-time public aggregated
    /// deals (trades) stream.
    pub const AGGREGATED_TRADES_PB: &'static str = "spot@public.aggre.deals.v3.api.pb";

    /// The fixed channel selecting the aggregated-trade stream: the one
    /// channel this adapter subscribes to.
    pub fn aggregated_trades_pb() -> (c: Self)
        ensures
            c.0@ == MexcChannel::AGGREGATED_TRADES_PB@,
    {
        MexcChannel(MexcChannel::AGGREGATED_TRADES_PB)
    }

    /// The channel's base string.
    pub fn as_ref(&self) -> (s: &str)
        ensures
            s@ == self.0@,
    {
        self.0
    }
}

} // verus!
