//! The inbound data-plane envelope and the mapping of its trade batches
//! into normalized events. Each batch item is mapped independently: a
//! malformed item yields a classified error in its position and never
//! disturbs its siblings; bodies outside the modeled set are ignored.

use vstd::prelude::*;
use vstd::string::StringExecFns;
use crate::decimal::{
    dec_digit_count, dec_mantissa, dec_scale, parse_decimal, valid_decimal, DecimalError,
    MAX_DECIMAL_DIGITS,
};
use crate::error::DataError;
use crate::event::{ExchangeId, MarketEvent, MarketIter, PublicTrade, Side, SubscriptionId};
use crate::text::{dec_str_i64, i64_to_string};
use crate::time::{ms_epoch_to_datetime_utc, now_utc, valid_epoch_ms, UtcTime};

verus! {

/// One trade item of a raw-deals batch: price and quantity as wire text,
/// the side as an integer code, and a millisecond epoch timestamp.
#[derive(Clone, Debug, PartialEq, Eq)]
pub struct PublicDealsV3ApiItem {
    pub price: String,
    pub quantity: String,
    pub trade_type: i32,
    pub time: i64,
}

/// The raw-deals batch body.
#[derive(Clone, Debug, PartialEq, Eq)]
pub struct PublicDealsV3Api {
    pub deals: Vec<PublicDealsV3ApiItem>,
    pub event_type: String,
}

/// One trade item of an aggregated-deals batch.
#[derive(Clone, Debug, PartialEq, Eq)]
pub struct PublicAggreDealsV3ApiItem {
    pub price: String,
    pub quantity: String,
    pub trade_type: i32,
    pub time: i64,
}

/// The aggregated-deals batch body.
#[derive(Clone, Debug, PartialEq, Eq)]
pub struct PublicAggreDealsV3Api {
    pub deals: Vec<PublicAggreDealsV3ApiItem>,
    pub event_type: String,
}

/// The top-of-book ticker body.
#[derive(Clone, Debug, PartialEq, Eq)]
pub struct PublicAggreBookTickerV3Api {
    pub bid_price: String,
    pub bid_quantity: String,
    pub ask_price: String,
    pub ask_quantity: String,
}

/// The candle body.
#[derive(Clone, Debug, PartialEq, Eq)]
pub struct PublicSpotKlineV3Api {
    pub interval: String,
    pub window_start: i64,
    pub opening_price: String,
    pub closing_price: String,
    pub highest_price: String,
    pub lowest_price: String,
    pub volume: String,
    pub amount: String,
    pub window_end: i64,
}

/// The discriminated body of one inbound message: exactly one of the
/// modeled variants, or `Other` for any tag not yet modeled. Unrecognized
/// tags decode structurally and are silently ignored by the mappers, so
/// unannounced venue message kinds never crash or surface spurious errors.
#[derive(Clone, Debug, PartialEq, Eq)]
pub enum Body {
    PublicDeals(PublicDealsV3Api),
    PublicAggreDeals(PublicAggreDealsV3Api),
    PublicAggreBookTicker(PublicAggreBookTickerV3Api),
    PublicSpotKline(PublicSpotKlineV3Api),
    Other,
}

/// One decoded inbound wire envelope: optional venue-side creation and
/// send times, and at most one body. Created per message, consumed once.
#[derive(Clone, Debug, PartialEq, Eq)]
pub struct PushDataV3ApiWrapper {
    pub channel: String,
    pub symbol: Option<String>,
    pub symbol_id: Option<String>,
    pub create_time: Option<i64>,
    pub send_time: Option<i64>,
    pub body: Option<Body>,
}

impl PushDataV3ApiWrapper {
    /// The subscription this message correlates to: the full channel
    /// string serves as the subscription identifier.
    pub fn id(&self) -> (r: Option<SubscriptionId>)
        ensures
            r matches Some(sid) && sid.0@ == self.channel@,
    {
        Some(SubscriptionId(self.channel.clone()))
    }
}

/// What the venue's integer trade-type code denotes.
pub open spec fn spec_trade_side(t: int) -> Option<Side> {
    if t == 1 {
        Some(Side::Buy)
    } else if t == 2 {
        Some(Side::Sell)
    } else {
        None
    }
}

/// Converts the venue trade-type code to a side: 1 is a buy, 2 a sell,
/// and any other code is an unsupported value naming the raw code.
pub fn mexc_trade_type_to_side(trade_type: i32) -> (r: Result<Side, DataError>)
    ensures
        spec_trade_side(trade_type as int) matches Some(s) ==> r == Ok::<Side, DataError>(s),
        spec_trade_side(trade_type as int) is None ==> (r matches Err(e) && e matches
            DataError::UnsupportedValue { field, raw_value } && field@ == "trade_type"@
            && raw_value@ == dec_str_i64(trade_type as int)),
{
    match trade_type {
        1 => Ok(Side::Buy),
        2 => Ok(Side::Sell),
        _ => Err(
            DataError::UnsupportedValue {
                field: String::from_str("trade_type"),
                raw_value: i64_to_string(trade_type as i64),
            },
        ),
    }
}

/// Side mapping is a total bijection between the codes {1, 2} and
/// {Buy, Sell}: code 1 yields a buy and code 2 a sell (so every side is
/// reached), exactly the codes 1 and 2 are supported, and distinct
/// supported codes yield distinct sides.
pub proof fn lemma_trade_side_bijection()
    ensures
        spec_trade_side(1) == Some(Side::Buy),
        spec_trade_side(2) == Some(Side::Sell),
        forall|t: int| #[trigger] spec_trade_side(t) is Some <==> (t == 1 || t == 2),
        forall|t1: int, t2: int|
            #[trigger] spec_trade_side(t1) is Some && spec_trade_side(t1) == #[trigger]
            spec_trade_side(t2) ==> t1 == t2,
{
}

/// A wire decimal that the parser accepts: valid grammar, within the
/// digit budget.
pub open spec fn parseable_decimal(s: Seq<char>) -> bool {
    valid_decimal(s) && dec_digit_count(s) <= MAX_DECIMAL_DIGITS
}

/// The cause a rejected wire decimal carries.
pub open spec fn spec_decimal_cause(s: Seq<char>) -> DecimalError
    recommends
        !parseable_decimal(s),
{
    if s.len() == 0 {
        DecimalError::Empty
    } else if !valid_decimal(s) {
        DecimalError::Invalid
    } else {
        DecimalError::TooLong
    }
}

/// Whether one wire trade item is fully valid: both decimals parse, the
/// side code is known, and the timestamp is representable.
pub open spec fn trade_item_ok(
    price: Seq<char>,
    quantity: Seq<char>,
    trade_type: i32,
    time: i64,
) -> bool {
    &&& parseable_decimal(price)
    &&& parseable_decimal(quantity)
    &&& spec_trade_side(trade_type as int) is Some
    &&& valid_epoch_ms(time as int)
}

/// The classified failure of one invalid wire trade item: the price is
/// checked first, then the quantity, then the side code, then the
/// timestamp; the error carries the offending field and raw value.
pub open spec fn trade_error_matches(
    price: Seq<char>,
    quantity: Seq<char>,
    trade_type: i32,
    time: i64,
    e: DataError,
) -> bool {
    if !parseable_decimal(price) {
        e matches DataError::Parse { field, raw_value, cause } && field@ == "price"@
            && raw_value@ == price && cause == spec_decimal_cause(price)
    } else if !parseable_decimal(quantity) {
        e matches DataError::Parse { field, raw_value, cause } && field@ == "quantity"@
            && raw_value@ == quantity && cause == spec_decimal_cause(quantity)
    } else if spec_trade_side(trade_type as int) is None {
        e matches DataError::UnsupportedValue { field, raw_value } && field@ == "trade_type"@
            && raw_value@ == dec_str_i64(trade_type as int)
    } else {
        e == DataError::InvalidTimestamp { raw_value: time }
    }
}

/// The normalized trade a fully valid wire item denotes.
pub open spec fn trade_event_matches<InstrumentKey>(
    exchange_id: ExchangeId,
    price: Seq<char>,
    quantity: Seq<char>,
    trade_type: i32,
    time: i64,
    time_received: UtcTime,
    ev: MarketEvent<InstrumentKey, PublicTrade>,
) -> bool {
    &&& ev.exchange == exchange_id
    &&& ev.time_exchange == (UtcTime { ms: time })
    &&& ev.time_received == time_received
    &&& ev.kind.id@ == dec_str_i64(time as int)
    &&& ev.kind.price.mantissa == dec_mantissa(price)
    &&& ev.kind.price.scale == dec_scale(price)
    &&& ev.kind.price.wf()
    &&& ev.kind.amount.mantissa == dec_mantissa(quantity)
    &&& ev.kind.amount.scale == dec_scale(quantity)
    &&& ev.kind.amount.wf()
    &&& Some(ev.kind.side) == spec_trade_side(trade_type as int)
}

/// The full outcome of mapping one wire trade item: a normalized trade
/// exactly when the item is valid, its classified error otherwise.
pub open spec fn trade_result_matches<InstrumentKey>(
    exchange_id: ExchangeId,
    price: Seq<char>,
    quantity: Seq<char>,
    trade_type: i32,
    time: i64,
    time_received: UtcTime,
    r: Result<MarketEvent<InstrumentKey, PublicTrade>, DataError>,
) -> bool {
    if trade_item_ok(price, quantity, trade_type, time) {
        r matches Ok(ev) && trade_event_matches(
            exchange_id,
            price,
            quantity,
            trade_type,
            time,
            time_received,
            ev,
        )
    } else {
        r matches Err(e) && trade_error_matches(price, quantity, trade_type, time, e)
    }
}

/// Maps one raw-deals item to a normalized trade event, independently of
/// its siblings.
pub fn map_public_deals_item_to_market_event<InstrumentKey: Clone>(
    exchange_id: ExchangeId,
    instrument: InstrumentKey,
    deal_item: &PublicDealsV3ApiItem,
    time_received: UtcTime,
) -> (r: Result<MarketEvent<InstrumentKey, PublicTrade>, DataError>)
    ensures
        trade_result_matches(
            exchange_id,
            deal_item.price@,
            deal_item.quantity@,
            deal_item.trade_type,
            deal_item.time,
            time_received,
            r,
        ),
{
    let price = match parse_decimal(deal_item.price.as_str()) {
        Ok(d) => d,
        Err(cause) => {
            return Err(
                DataError::Parse {
                    field: String::from_str("price"),
                    raw_value: deal_item.price.clone(),
                    cause,
                },
            );
        },
    };
    let amount = match parse_decimal(deal_item.quantity.as_str()) {
        Ok(d) => d,
        Err(cause) => {
            return Err(
                DataError::Parse {
                    field: String::from_str("quantity"),
                    raw_value: deal_item.quantity.clone(),
                    cause,
                },
            );
        },
    };
    let side = match mexc_trade_type_to_side(deal_item.trade_type) {
        Ok(s) => s,
        Err(e) => {
            return Err(e);
        },
    };
    let exchange_time = match ms_epoch_to_datetime_utc(deal_item.time) {
        Ok(t) => t,
        Err(e) => {
            return Err(e);
        },
    };
    let id = i64_to_string(deal_item.time);
    Ok(
        MarketEvent {
            time_exchange: exchange_time,
            time_received,
            exchange: exchange_id,
            instrument,
            kind: PublicTrade { id, price, amount, side },
        },
    )
}

/// Maps one aggregated-deals item to a normalized trade event,
/// independently of its siblings.
pub fn map_public_aggre_deals_item_to_market_event<InstrumentKey: Clone>(
    exchange_id: ExchangeId,
    instrument: InstrumentKey,
    deal_item: &PublicAggreDealsV3ApiItem,
    time_received: UtcTime,
) -> (r: Result<MarketEvent<InstrumentKey, PublicTrade>, DataError>)
    ensures
        trade_result_matches(
            exchange_id,
            deal_item.price@,
            deal_item.quantity@,
            deal_item.trade_type,
            deal_item.time,
            time_received,
            r,
        ),
{
    let price = match parse_decimal(deal_item.price.as_str()) {
        Ok(d) => d,
        Err(cause) => {
            return Err(
                DataError::Parse {
                    field: String::from_str("price"),
                    raw_value: deal_item.price.clone(),
                    cause,
                },
            );
        },
    };
    let amount = match parse_decimal(deal_item.quantity.as_str()) {
        Ok(d) => d,
        Err(cause) => {
            return Err(
                DataError::Parse {
                    field: String::from_str("quantity"),
                    raw_value: deal_item.quantity.clone(),
                    cause,
                },
            );
        },
    };
    let side = match mexc_trade_type_to_side(deal_item.trade_type) {
        Ok(s) => s,
        Err(e) => {
            return Err(e);
        },
    };
    let exchange_time = match ms_epoch_to_datetime_utc(deal_item.time) {
        Ok(t) => t,
        Err(e) => {
            return Err(e);
        },
    };
    let id = i64_to_string(deal_item.time);
    Ok(
        MarketEvent {
            time_exchange: exchange_time,
            time_received,
            exchange: exchange_id,
            instrument,
            kind: PublicTrade { id, price, amount, side },
        },
    )
}

/// What mapping one envelope's trades yields: one outcome per batch item
/// for the two modeled deal batches, in order, and the empty sequence for
/// every other body.
pub open spec fn envelope_trades_match<InstrumentKey>(
    exchange_id: ExchangeId,
    w: PushDataV3ApiWrapper,
    time_received: UtcTime,
    results: Seq<Result<MarketEvent<InstrumentKey, PublicTrade>, DataError>>,
) -> bool {
    match w.body {
        Some(Body::PublicDeals(api)) => {
            &&& results.len() == api.deals@.len()
            &&& forall|i: int|
                0 <= i < results.len() ==> trade_result_matches(
                    exchange_id,
                    api.deals@[i].price@,
                    api.deals@[i].quantity@,
                    api.deals@[i].trade_type,
                    api.deals@[i].time,
                    time_received,
                    #[trigger] results[i],
                )
        },
        Some(Body::PublicAggreDeals(api)) => {
            &&& results.len() == api.deals@.len()
            &&& forall|i: int|
                0 <= i < results.len() ==> trade_result_matches(
                    exchange_id,
                    api.deals@[i].price@,
                    api.deals@[i].quantity@,
                    api.deals@[i].trade_type,
                    api.deals@[i].time,
                    time_received,
                    #[trigger] results[i],
                )
        },
        _ => results.len() == 0,
    }
}

impl<InstrumentKey: Clone> MarketIter<InstrumentKey, PublicTrade> {
    /// Maps one decoded envelope into the ordered per-item trade
    /// outcomes, with the receipt instant supplied by the caller. A deal
    /// batch yields one outcome per item with failures isolated per item;
    /// an absent, unrecognized, or non-trade body yields the empty
    /// sequence and never an error.
    pub fn from_with_time(
        t: (ExchangeId, InstrumentKey, PushDataV3ApiWrapper),
        time_received: UtcTime,
    ) -> (r: Self)
        ensures
            envelope_trades_match(t.0, t.2, time_received, r.0@),
    {
        let (exchange_id, instrument, wrapper) = t;
        let mut market_events: Vec<
            Result<MarketEvent<InstrumentKey, PublicTrade>, DataError>,
        > = Vec::new();
        match wrapper.body {
            Some(Body::PublicDeals(deals_api)) => {
                let n = deals_api.deals.len();
                let mut k: usize = 0;
                while k < n
                    invariant
                        n == deals_api.deals@.len(),
                        k <= n,
                        market_events@.len() == k,
                        forall|i: int|
                            0 <= i < k ==> trade_result_matches(
                                exchange_id,
                                deals_api.deals@[i].price@,
                                deals_api.deals@[i].quantity@,
                                deals_api.deals@[i].trade_type,
                                deals_api.deals@[i].time,
                                time_received,
                                #[trigger] market_events@[i],
                            ),
                    decreases n - k,
                {
                    let result = map_public_deals_item_to_market_event(
                        exchange_id,
                        instrument.clone(),
                        &deals_api.deals[k],
                        time_received,
                    );
                    market_events.push(result);
                    k = k + 1;
                }
            },
            Some(Body::PublicAggreDeals(aggre_deals_api)) => {
                let n = aggre_deals_api.deals.len();
                let mut k: usize = 0;
                while k < n
                    invariant
                        n == aggre_deals_api.deals@.len(),
                        k <= n,
                        market_events@.len() == k,
                        forall|i: int|
                            0 <= i < k ==> trade_result_matches(
                                exchange_id,
                                aggre_deals_api.deals@[i].price@,
                                aggre_deals_api.deals@[i].quantity@,
                                aggre_deals_api.deals@[i].trade_type,
                                aggre_deals_api.deals@[i].time,
                                time_received,
                                #[trigger] market_events@[i],
                            ),
                    decreases n - k,
                {
                    let result = map_public_aggre_deals_item_to_market_event(
                        exchange_id,
                        instrument.clone(),
                        &aggre_deals_api.deals[k],
                        time_received,
                    );
                    market_events.push(result);
                    k = k + 1;
                }
            },
            _ => {},
        }
        MarketIter(market_events)
    }

    /// Maps one decoded envelope, stamping the receipt time from the wall
    /// clock at decode time. The outcomes are those of `from_with_time`
    /// for whatever instant the clock read.
    pub fn from(t: (ExchangeId, InstrumentKey, PushDataV3ApiWrapper)) -> (r: Self)
        ensures
            exists|tr: UtcTime| #[trigger] envelope_trades_match(t.0, t.2, tr, r.0@),
    {
        let time_received = now_utc();
        let r = Self::from_with_time(t, time_received);
        proof {
            assert(envelope_trades_match(t.0, t.2, time_received, r.0@));
        }
        r
    }
}

/// Batch isolation: in a batch whose outcomes satisfy the per-item
/// mapping, where exactly one item has a malformed price and every other
/// item is fully valid, there are exactly as many outcomes as items, the
/// malformed item alone yields a parse error naming its price field, and
/// every other position carries its normalized trade, in original order.
pub proof fn lemma_batch_isolation<InstrumentKey>(
    exchange_id: ExchangeId,
    items: Seq<PublicAggreDealsV3ApiItem>,
    k: int,
    time_received: UtcTime,
    results: Seq<Result<MarketEvent<InstrumentKey, PublicTrade>, DataError>>,
)
    requires
        0 <= k < items.len(),
        results.len() == items.len(),
        forall|i: int|
            0 <= i < items.len() ==> trade_result_matches(
                exchange_id,
                items[i].price@,
                items[i].quantity@,
                items[i].trade_type,
                items[i].time,
                time_received,
                #[trigger] results[i],
            ),
        !parseable_decimal(items[k].price@),
        forall|i: int|
            0 <= i < items.len() && i != k ==> trade_item_ok(
                (#[trigger] items[i]).price@,
                items[i].quantity@,
                items[i].trade_type,
                items[i].time,
            ),
    ensures
        results[k] matches Err(e) && e matches DataError::Parse { field, raw_value, cause }
            && field@ == "price"@ && raw_value@ == items[k].price@,
        forall|i: int|
            0 <= i < items.len() && i != k ==> ((#[trigger] results[i]) matches Ok(ev)
                && trade_event_matches(
                exchange_id,
                items[i].price@,
                items[i].quantity@,
                items[i].trade_type,
                items[i].time,
                time_received,
                ev,
            )),
{
    assert(trade_result_matches(
        exchange_id,
        items[k].price@,
        items[k].quantity@,
        items[k].trade_type,
        items[k].time,
        time_received,
        results[k],
    ));
}

/// An envelope whose body is absent, unrecognized, or outside the two
/// modeled trade batches maps to the empty outcome sequence — never to an
/// error.
pub proof fn lemma_unknown_body_ignored<InstrumentKey>(
    exchange_id: ExchangeId,
    w: PushDataV3ApiWrapper,
    time_received: UtcTime,
    results: Seq<Result<MarketEvent<InstrumentKey, PublicTrade>, DataError>>,
)
    requires
        envelope_trades_match(exchange_id, w, time_received, results),
        !(w.body matches Some(Body::PublicDeals(_))),
        !(w.body matches Some(Body::PublicAggreDeals(_))),
    ensures
        results.len() == 0,
{
}

} // verus!
