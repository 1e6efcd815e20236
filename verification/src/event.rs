//! Venue-agnostic normalized events: trades, top-of-book snapshots, and
//! the ordered per-item outcomes of mapping one inbound message.

use vstd::prelude::*;
use crate::decimal::Decimal;
use crate::error::DataError;
use crate::time::UtcTime;

verus! {

/// The static identity of a venue.
#[derive(Clone, Copy, Debug, PartialEq, Eq, Hash, Structural)]
pub enum ExchangeId {
    Mexc,
}

/// Which side of the book the aggressor was on.
#[derive(Clone, Copy, Debug, PartialEq, Eq, Structural)]
pub enum Side {
    Buy,
    Sell,
}

/// One normalized public trade. Price and amount are non-negative finite
/// decimals; the side is one of exactly two values.
#[derive(Clone, Debug, PartialEq, Eq)]
pub struct PublicTrade {
    /// Venue-side identifier of the trade: the string form of its
    /// millisecond timestamp.
    pub id: String,
    pub price: Decimal,
    pub amount: Decimal,
    pub side: Side,
}

/// One price level: a price and the amount resting at it.
#[derive(Clone, Copy, Debug, PartialEq, Eq, Structural)]
pub struct Level {
    pub price: Decimal,
    pub amount: Decimal,
}

impl Level {
    pub fn new(price: Decimal, amount: Decimal) -> (l: Level)
        ensures
            l == (Level { price, amount }),
    {
        Level { price, amount }
    }
}

/// A top-of-book snapshot: the best bid and ask levels, if present, and
/// when the book was last updated.
#[derive(Clone, Copy, Debug, PartialEq, Eq)]
pub struct OrderBookL1 {
    pub last_update_time: UtcTime,
    pub best_bid: Option<Level>,
    pub best_ask: Option<Level>,
}

/// One normalized market event, owned exclusively by the call that
/// produced it.
#[derive(Clone, Debug, PartialEq, Eq)]
pub struct MarketEvent<InstrumentKey, Kind> {
    /// When the venue recorded the event.
    pub time_exchange: UtcTime,
    /// When this process decoded the message that carried it.
    pub time_received: UtcTime,
    pub exchange: ExchangeId,
    pub instrument: InstrumentKey,
    pub kind: Kind,
}

/// The ordered sequence of per-item outcomes of mapping one wire
/// envelope: each entry is a normalized event or a classified error.
#[derive(Clone, Debug, PartialEq, Eq)]
pub struct MarketIter<InstrumentKey, Kind>(
    pub Vec<Result<MarketEvent<InstrumentKey, Kind>, DataError>>,
);

/// Correlates an inbound message to a subscription.
#[derive(Clone, Debug, PartialEq, Eq, Hash)]
pub struct SubscriptionId(pub String);

} // verus!
