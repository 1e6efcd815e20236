//! Top-of-book mapping: one ticker body yields one snapshot event, or one
//! classified error — never a partial book. The exchange time falls back
//! through send time, create time, then receipt time, skipping candidates
//! that are absent or unrepresentable.

use vstd::prelude::*;
use vstd::string::StringExecFns;
use crate::decimal::{dec_mantissa, dec_scale, parse_decimal};
use crate::error::DataError;
use crate::event::{ExchangeId, Level, MarketEvent, MarketIter, OrderBookL1};
use crate::time::{ms_epoch_to_datetime_utc, now_utc, valid_epoch_ms, UtcTime};
use crate::trade::{
    parseable_decimal, spec_decimal_cause, Body, PublicAggreBookTickerV3Api, PushDataV3ApiWrapper,
};

verus! {

/// An optional millisecond timestamp that is present and representable.
pub open spec fn valid_opt_ms(o: Option<i64>) -> bool {
    o matches Some(ms) && valid_epoch_ms(ms as int)
}

/// The resolved exchange time of a top-of-book update: the send time if
/// present and representable, else the create time if present and
/// representable, else the receipt instant.
pub open spec fn resolved_book_time(
    send_time: Option<i64>,
    create_time: Option<i64>,
    time_received: UtcTime,
) -> UtcTime {
    if valid_opt_ms(send_time) {
        UtcTime { ms: send_time->0 }
    } else if valid_opt_ms(create_time) {
        UtcTime { ms: create_time->0 }
    } else {
        time_received
    }
}

fn resolve_exchange_time(
    send_time: Option<i64>,
    create_time: Option<i64>,
    time_received: UtcTime,
) -> (t: UtcTime)
    ensures
        t == resolved_book_time(send_time, create_time, time_received),
{
    if let Some(ms) = send_time {
        if let Ok(t) = ms_epoch_to_datetime_utc(ms) {
            return t;
        }
    }
    if let Some(ms) = create_time {
        if let Ok(t) = ms_epoch_to_datetime_utc(ms) {
            return t;
        }
    }
    time_received
}

/// The outcome of parsing one book level from its two wire strings: the
/// level exactly when both parse; the first failing field's classified
/// error otherwise, the price checked before the quantity.
pub open spec fn level_result_matches(
    price: Seq<char>,
    qty: Seq<char>,
    r: Result<Level, DataError>,
) -> bool {
    if parseable_decimal(price) && parseable_decimal(qty) {
        r matches Ok(l) && l.price.mantissa == dec_mantissa(price) && l.price.scale
            == dec_scale(price) && l.price.wf() && l.amount.mantissa == dec_mantissa(qty)
            && l.amount.scale == dec_scale(qty) && l.amount.wf()
    } else if !parseable_decimal(price) {
        r matches Err(e) && e matches DataError::Parse { field, raw_value, cause } && field@
            == "price"@ && raw_value@ == price && cause == spec_decimal_cause(price)
    } else {
        r matches Err(e) && e matches DataError::Parse { field, raw_value, cause } && field@
            == "quantity"@ && raw_value@ == qty && cause == spec_decimal_cause(qty)
    }
}

/// Parses one book level. Both strings must parse; if either fails, the
/// level fails with that field's classified error.
pub fn parse_level(price: &str, qty: &str) -> (r: Result<Level, DataError>)
    ensures
        level_result_matches(price@, qty@, r),
{
    let p = match parse_decimal(price) {
        Ok(d) => d,
        Err(cause) => {
            return Err(
                DataError::Parse {
                    field: String::from_str("price"),
                    raw_value: String::from_str(price),
                    cause,
                },
            );
        },
    };
    let a = match parse_decimal(qty) {
        Ok(d) => d,
        Err(cause) => {
            return Err(
                DataError::Parse {
                    field: String::from_str("quantity"),
                    raw_value: String::from_str(qty),
                    cause,
                },
            );
        },
    };
    Ok(Level::new(p, a))
}

/// Whether every wire string of the ticker parses as a decimal.
pub open spec fn book_ticker_ok(tk: PublicAggreBookTickerV3Api) -> bool {
    &&& parseable_decimal(tk.bid_price@)
    &&& parseable_decimal(tk.bid_quantity@)
    &&& parseable_decimal(tk.ask_price@)
    &&& parseable_decimal(tk.ask_quantity@)
}

/// The single classified error a malformed ticker yields: the bid pair is
/// checked before the ask pair.
pub open spec fn book_error_matches(tk: PublicAggreBookTickerV3Api, e: DataError) -> bool {
    if !(parseable_decimal(tk.bid_price@) && parseable_decimal(tk.bid_quantity@)) {
        level_result_matches(
            tk.bid_price@,
            tk.bid_quantity@,
            Result::<Level, DataError>::Err(e),
        )
    } else {
        level_result_matches(
            tk.ask_price@,
            tk.ask_quantity@,
            Result::<Level, DataError>::Err(e),
        )
    }
}

/// What mapping one envelope's top-of-book yields: for a ticker body,
/// exactly one outcome — the full snapshot when every field parses, a
/// single classified error otherwise, never a partial book; for every
/// other body, the empty sequence.
pub open spec fn envelope_book_match<InstrumentKey>(
    exchange_id: ExchangeId,
    w: PushDataV3ApiWrapper,
    time_received: UtcTime,
    results: Seq<Result<MarketEvent<InstrumentKey, OrderBookL1>, DataError>>,
) -> bool {
    match w.body {
        Some(Body::PublicAggreBookTicker(tk)) => {
            if book_ticker_ok(tk) {
                &&& results.len() == 1
                &&& (results[0] matches Ok(ev)
                    && ev.exchange == exchange_id
                    && ev.time_received == time_received
                    && ev.time_exchange == resolved_book_time(w.send_time, w.create_time, time_received)
                    && ev.kind.last_update_time == resolved_book_time(w.send_time, w.create_time, time_received)
                    && (ev.kind.best_bid matches Some(l) && level_result_matches(
                        tk.bid_price@,
                        tk.bid_quantity@,
                        Result::<Level, DataError>::Ok(l),
                    ))
                    && (ev.kind.best_ask matches Some(l) && level_result_matches(
                        tk.ask_price@,
                        tk.ask_quantity@,
                        Result::<Level, DataError>::Ok(l),
                    )))
            } else {
                &&& results.len() == 1
                &&& (results[0] matches Err(e) && book_error_matches(tk, e))
            }
        },
        _ => results.len() == 0,
    }
}

impl<InstrumentKey: Clone> MarketIter<InstrumentKey, OrderBookL1> {
    /// Maps one decoded envelope into top-of-book outcomes, with the
    /// receipt instant supplied by the caller.
    pub fn from_with_time(
        t: (ExchangeId, InstrumentKey, PushDataV3ApiWrapper),
        time_received: UtcTime,
    ) -> (r: Self)
        ensures
            envelope_book_match(t.0, t.2, time_received, r.0@),
    {
        let (exchange_id, instrument, wrapper) = t;
        match wrapper.body {
            Some(Body::PublicAggreBookTicker(ticker)) => {
                let exchange_time = resolve_exchange_time(
                    wrapper.send_time,
                    wrapper.create_time,
                    time_received,
                );
                let best_bid = match parse_level(
                    ticker.bid_price.as_str(),
                    ticker.bid_quantity.as_str(),
                ) {
                    Ok(lvl) => Some(lvl),
                    Err(err) => {
                        let mut v: Vec<
                            Result<MarketEvent<InstrumentKey, OrderBookL1>, DataError>,
                        > = Vec::new();
                        v.push(Err(err));
                        return MarketIter(v);
                    },
                };
                let best_ask = match parse_level(
                    ticker.ask_price.as_str(),
                    ticker.ask_quantity.as_str(),
                ) {
                    Ok(lvl) => Some(lvl),
                    Err(err) => {
                        let mut v: Vec<
                            Result<MarketEvent<InstrumentKey, OrderBookL1>, DataError>,
                        > = Vec::new();
                        v.push(Err(err));
                        return MarketIter(v);
                    },
                };
                let mut v: Vec<Result<MarketEvent<InstrumentKey, OrderBookL1>, DataError>> =
                    Vec::new();
                v.push(
                    Ok(
                        MarketEvent {
                            time_exchange: exchange_time,
                            time_received,
                            exchange: exchange_id,
                            instrument,
                            kind: OrderBookL1 {
                                last_update_time: exchange_time,
                                best_bid,
                                best_ask,
                            },
                        },
                    ),
                );
                MarketIter(v)
            },
            _ => MarketIter(Vec::new()),
        }
    }

    /// Maps one decoded envelope, stamping the receipt time from the wall
    /// clock at decode time. The outcomes are those of `from_with_time`
    /// for whatever instant the clock read.
    pub fn from(t: (ExchangeId, InstrumentKey, PushDataV3ApiWrapper)) -> (r: Self)
        ensures
            exists|tr: UtcTime| #[trigger] envelope_book_match(t.0, t.2, tr, r.0@),
    {
        let time_received = now_utc();
        let r = Self::from_with_time(t, time_received);
        proof {
            assert(envelope_book_match(t.0, t.2, time_received, r.0@));
        }
        r
    }
}

} // verus!
