//! Identifier construction, the request builder and its wire grammar,
//! decimal parsing edges, timestamp edges, top-of-book mapping, and the
//! error taxonomy.

use mexc_adapter::book::parse_level;
use mexc_adapter::channel::MexcChannel;
use mexc_adapter::decimal::{parse_decimal, Decimal, DecimalError};
use mexc_adapter::error::DataError;
use mexc_adapter::event::{
    ExchangeId, Level, MarketIter, OrderBookL1, PublicTrade, Side, SubscriptionId,
};
use mexc_adapter::market::{mexc_market, MexcMarket};
use mexc_adapter::subscription::{ExchangeSub, MexcAggInterval, WsMessage};
use mexc_adapter::time::{ms_epoch_to_datetime_utc, UtcTime, MAX_UTC_MS};
use mexc_adapter::trade::{
    map_public_aggre_deals_item_to_market_event, Body, PublicAggreBookTickerV3Api,
    PublicAggreDealsV3ApiItem, PushDataV3ApiWrapper,
};
use mexc_adapter::Mexc;

fn sample_wrapper(body: Option<Body>) -> PushDataV3ApiWrapper {
    PushDataV3ApiWrapper {
        channel: "spot@public.aggre.bookTicker.v3.api.pb@100ms@BTC_USDT".to_string(),
        symbol: Some("BTC_USDT".to_string()),
        symbol_id: Some("BTC_USDT_ID".to_string()),
        create_time: Some(1609459200000),
        send_time: Some(1609459200050),
        body,
    }
}

fn sample_ticker() -> PublicAggreBookTickerV3Api {
    PublicAggreBookTickerV3Api {
        bid_price: "100".to_string(),
        bid_quantity: "1".to_string(),
        ask_price: "101".to_string(),
        ask_quantity: "2".to_string(),
    }
}

#[test]
fn market_id_is_case_normalizing_and_deterministic() {
    assert_eq!(mexc_market("eth", "usdt"), MexcMarket("ETHUSDT".to_string()));
    assert_eq!(mexc_market("ETH", "USDT"), MexcMarket("ETHUSDT".to_string()));
    assert_eq!(mexc_market("eTh", "UsDt"), mexc_market("eth", "usdt"));
    assert_eq!(mexc_market("btc", "usdt").0, "BTCUSDT");
}

#[test]
fn channel_identifier_is_fixed() {
    let c = MexcChannel::aggregated_trades_pb();
    assert_eq!(c.as_ref(), "spot@public.aggre.deals.v3.api.pb");
    assert_eq!(MexcChannel::AGGREGATED_TRADES_PB, "spot@public.aggre.deals.v3.api.pb");
}

#[test]
fn requests_empty_input_yields_no_frames() {
    let frames = Mexc::requests(Vec::new());
    assert!(frames.is_empty());
}

#[test]
fn requests_single_pair_yields_one_exact_frame() {
    let subs = vec![ExchangeSub {
        channel: MexcChannel("C"),
        market: MexcMarket("BTCUSDT".to_string()),
    }];
    let frames = Mexc::requests(subs);
    assert_eq!(frames.len(), 1);
    let WsMessage::Text(body) = &frames[0];
    assert_eq!(
        body,
        "{\"method\":\"SUBSCRIPTION\",\"params\":[\"C@100ms@BTCUSDT\"]}"
    );
    assert!(body.contains("C@100ms@BTCUSDT"));
}

#[test]
fn requests_join_topics_in_order_and_escape_them() {
    let subs = vec![
        ExchangeSub {
            channel: MexcChannel::aggregated_trades_pb(),
            market: mexc_market("eth", "usdt"),
        },
        ExchangeSub {
            channel: MexcChannel("C"),
            market: MexcMarket("A\"B\\C".to_string()),
        },
    ];
    let frames = Mexc::requests(subs);
    assert_eq!(frames.len(), 1);
    let WsMessage::Text(body) = &frames[0];
    assert_eq!(
        body,
        "{\"method\":\"SUBSCRIPTION\",\"params\":[\"spot@public.aggre.deals.v3.api.pb@100ms@ETHUSDT\",\"C@100ms@A\\\"B\\\\C\"]}"
    );
}

#[test]
fn requests_escape_control_characters() {
    let subs = vec![ExchangeSub {
        channel: MexcChannel("C"),
        market: MexcMarket("A\nB".to_string()),
    }];
    let frames = Mexc::requests(subs);
    let WsMessage::Text(body) = &frames[0];
    assert_eq!(
        body,
        "{\"method\":\"SUBSCRIPTION\",\"params\":[\"C@100ms@A\\u000aB\"]}"
    );
}

#[test]
fn agg_interval_literals() {
    assert_eq!(Mexc::agg_interval_to_str(MexcAggInterval::Ms10), "10ms");
    assert_eq!(Mexc::agg_interval_to_str(MexcAggInterval::Ms100), "100ms");
    assert_eq!(MexcAggInterval::default(), MexcAggInterval::Ms100);
}

#[test]
fn ping_interval_is_ten_seconds_of_ping() {
    let p = Mexc::ping_interval().unwrap();
    assert_eq!(p.interval_secs, 10);
    assert_eq!(p.ping, WsMessage::Text("ping".to_string()));
}

#[test]
fn base_url_parses() {
    let u = Mexc::base_url().unwrap();
    assert_eq!(u.as_str(), "wss://wbs.mexc.com/ws");
}

#[test]
fn expected_responses_counts_subscriptions() {
    assert_eq!(Mexc::expected_responses(&Vec::new()), 0);
    let subs = vec![
        ExchangeSub {
            channel: MexcChannel("C"),
            market: MexcMarket("A".to_string()),
        },
        ExchangeSub {
            channel: MexcChannel("C"),
            market: MexcMarket("B".to_string()),
        },
    ];
    assert_eq!(Mexc::expected_responses(&subs), 2);
}

#[test]
fn wrapper_id_is_the_channel_string() {
    let w = sample_wrapper(None);
    assert_eq!(
        w.id(),
        Some(SubscriptionId(
            "spot@public.aggre.bookTicker.v3.api.pb@100ms@BTC_USDT".to_string()
        ))
    );
}

#[test]
fn decimal_accepts_integer_and_fraction_forms() {
    assert_eq!(
        parse_decimal("100"),
        Ok(Decimal {
            mantissa: 100,
            scale: 0
        })
    );
    assert_eq!(
        parse_decimal("0.001"),
        Ok(Decimal {
            mantissa: 1,
            scale: 3
        })
    );
    assert_eq!(
        parse_decimal("50000.50"),
        Ok(Decimal {
            mantissa: 5000050,
            scale: 2
        })
    );
    assert_eq!(
        parse_decimal("0"),
        Ok(Decimal {
            mantissa: 0,
            scale: 0
        })
    );
}

#[test]
fn decimal_rejects_malformed_input() {
    assert_eq!(parse_decimal(""), Err(DecimalError::Empty));
    assert_eq!(parse_decimal("not_a_float"), Err(DecimalError::Invalid));
    assert_eq!(parse_decimal("1."), Err(DecimalError::Invalid));
    assert_eq!(parse_decimal(".5"), Err(DecimalError::Invalid));
    assert_eq!(parse_decimal("1.2.3"), Err(DecimalError::Invalid));
    assert_eq!(parse_decimal("-1.5"), Err(DecimalError::Invalid));
    assert_eq!(parse_decimal("1 "), Err(DecimalError::Invalid));
}

#[test]
fn decimal_enforces_digit_budget() {
    // 28 significant digits parse; 29 are too long.
    assert_eq!(
        parse_decimal("9999999999999999999999999999"),
        Ok(Decimal {
            mantissa: 9999999999999999999999999999,
            scale: 0
        })
    );
    assert_eq!(
        parse_decimal("99999999999999999999999999999"),
        Err(DecimalError::TooLong)
    );
    assert_eq!(
        parse_decimal("99999999999999999999999999.999"),
        Err(DecimalError::TooLong)
    );
}

#[test]
fn timestamp_conversion_bounds() {
    assert_eq!(ms_epoch_to_datetime_utc(0), Ok(UtcTime { ms: 0 }));
    assert_eq!(
        ms_epoch_to_datetime_utc(MAX_UTC_MS),
        Ok(UtcTime { ms: MAX_UTC_MS })
    );
    assert_eq!(
        ms_epoch_to_datetime_utc(MAX_UTC_MS + 1),
        Err(DataError::InvalidTimestamp {
            raw_value: MAX_UTC_MS + 1
        })
    );
    assert_eq!(
        ms_epoch_to_datetime_utc(-5),
        Err(DataError::InvalidTimestamp { raw_value: -5 })
    );
    let e = DataError::InvalidTimestamp {
        raw_value: MAX_UTC_MS + 1,
    };
    assert!(e.message().contains("invalid unix_epoch_ms: 8210266876800000"));
}

#[test]
fn batch_isolation_on_one_malformed_price() {
    let good = |time: i64| PublicAggreDealsV3ApiItem {
        price: "10.5".to_string(),
        quantity: "1".to_string(),
        trade_type: 1,
        time,
    };
    let bad = PublicAggreDealsV3ApiItem {
        price: "oops".to_string(),
        quantity: "1".to_string(),
        trade_type: 1,
        time: 3,
    };
    let items = vec![good(1), good(2), bad, good(4), good(5)];
    let wrapper = PushDataV3ApiWrapper {
        channel: "c".to_string(),
        symbol: None,
        symbol_id: None,
        create_time: None,
        send_time: None,
        body: Some(Body::PublicAggreDeals(
            mexc_adapter::trade::PublicAggreDealsV3Api {
                deals: items,
                event_type: "DEALS".to_string(),
            },
        )),
    };
    let out = MarketIter::<u32, PublicTrade>::from_with_time(
        (ExchangeId::Mexc, 7u32, wrapper),
        UtcTime { ms: 99 },
    );
    assert_eq!(out.0.len(), 5);
    let errors: Vec<usize> = out
        .0
        .iter()
        .enumerate()
        .filter(|(_, r)| r.is_err())
        .map(|(i, _)| i)
        .collect();
    assert_eq!(errors, vec![2]);
    assert!(matches!(out.0[2], Err(DataError::Parse { .. })));
    for (i, time) in [(0usize, 1i64), (1, 2), (3, 4), (4, 5)] {
        let ev = out.0[i].as_ref().unwrap();
        assert_eq!(ev.time_exchange, UtcTime { ms: time });
        assert_eq!(ev.kind.id, time.to_string());
        assert_eq!(ev.time_received, UtcTime { ms: 99 });
        assert_eq!(ev.kind.side, Side::Buy);
    }
}

#[test]
fn end_to_end_aggregated_deal_item() {
    let item = PublicAggreDealsV3ApiItem {
        price: "50000.50".to_string(),
        quantity: "0.001".to_string(),
        trade_type: 1,
        time: 1609459200123,
    };
    let tr = UtcTime { ms: 1609459201000 };
    let ev =
        map_public_aggre_deals_item_to_market_event(ExchangeId::Mexc, 1u8, &item, tr).unwrap();
    assert_eq!(ev.exchange, ExchangeId::Mexc);
    assert_eq!(ev.time_exchange, UtcTime { ms: 1609459200123 });
    assert_eq!(ev.time_received, tr);
    assert_eq!(ev.kind.id, "1609459200123");
    assert_eq!(
        ev.kind.price,
        Decimal {
            mantissa: 5000050,
            scale: 2
        }
    );
    assert_eq!(
        ev.kind.amount,
        Decimal {
            mantissa: 1,
            scale: 3
        }
    );
    assert_eq!(ev.kind.side, Side::Buy);
}

#[test]
fn unsupported_trade_type_is_classified() {
    let item = PublicAggreDealsV3ApiItem {
        price: "1".to_string(),
        quantity: "1".to_string(),
        trade_type: 3,
        time: 5,
    };
    let r = map_public_aggre_deals_item_to_market_event(
        ExchangeId::Mexc,
        0u8,
        &item,
        UtcTime { ms: 0 },
    );
    match r {
        Err(DataError::UnsupportedValue { field, raw_value }) => {
            assert_eq!(field, "trade_type");
            assert_eq!(raw_value, "3");
        }
        other => panic!("Expected UnsupportedValue, got {:?}", other),
    }
}

#[test]
fn top_of_book_maps_both_levels_and_send_time() {
    let wrapper = sample_wrapper(Some(Body::PublicAggreBookTicker(sample_ticker())));
    let out = MarketIter::<u32, OrderBookL1>::from_with_time(
        (ExchangeId::Mexc, 1u32, wrapper),
        UtcTime { ms: 7 },
    );
    assert_eq!(out.0.len(), 1);
    let ev = out.0[0].as_ref().unwrap();
    assert_eq!(ev.time_exchange, UtcTime { ms: 1609459200050 });
    assert_eq!(ev.kind.last_update_time, UtcTime { ms: 1609459200050 });
    assert_eq!(
        ev.kind.best_bid,
        Some(Level {
            price: Decimal {
                mantissa: 100,
                scale: 0
            },
            amount: Decimal {
                mantissa: 1,
                scale: 0
            },
        })
    );
    assert_eq!(
        ev.kind.best_ask,
        Some(Level {
            price: Decimal {
                mantissa: 101,
                scale: 0
            },
            amount: Decimal {
                mantissa: 2,
                scale: 0
            },
        })
    );
}

#[test]
fn top_of_book_unparseable_ask_quantity_is_a_single_error() {
    let mut ticker = sample_ticker();
    ticker.ask_quantity = "x".to_string();
    let wrapper = sample_wrapper(Some(Body::PublicAggreBookTicker(ticker)));
    let out = MarketIter::<u32, OrderBookL1>::from_with_time(
        (ExchangeId::Mexc, 1u32, wrapper),
        UtcTime { ms: 7 },
    );
    assert_eq!(out.0.len(), 1);
    match &out.0[0] {
        Err(DataError::Parse { field, raw_value, .. }) => {
            assert_eq!(field, "quantity");
            assert_eq!(raw_value, "x");
        }
        other => panic!("Expected a quantity parse error, got {:?}", other),
    }
}

#[test]
fn top_of_book_time_falls_back_to_create_then_receipt() {
    // Send time invalid: the valid create time is used.
    let mut w = sample_wrapper(Some(Body::PublicAggreBookTicker(sample_ticker())));
    w.send_time = Some(-1);
    let out =
        MarketIter::<u32, OrderBookL1>::from_with_time((ExchangeId::Mexc, 1u32, w), UtcTime {
            ms: 7,
        });
    let ev = out.0[0].as_ref().unwrap();
    assert_eq!(ev.time_exchange, UtcTime { ms: 1609459200000 });

    // Send time absent, create time invalid: the receipt instant is used.
    let mut w = sample_wrapper(Some(Body::PublicAggreBookTicker(sample_ticker())));
    w.send_time = None;
    w.create_time = Some(-3);
    let out =
        MarketIter::<u32, OrderBookL1>::from_with_time((ExchangeId::Mexc, 1u32, w), UtcTime {
            ms: 7,
        });
    let ev = out.0[0].as_ref().unwrap();
    assert_eq!(ev.time_exchange, UtcTime { ms: 7 });
    assert_eq!(ev.time_received, UtcTime { ms: 7 });
}

#[test]
fn top_of_book_ignores_non_ticker_bodies() {
    let out = MarketIter::<u32, OrderBookL1>::from_with_time(
        (ExchangeId::Mexc, 1u32, sample_wrapper(None)),
        UtcTime { ms: 7 },
    );
    assert!(out.0.is_empty());

    let out = MarketIter::<u32, OrderBookL1>::from((
        ExchangeId::Mexc,
        1u32,
        sample_wrapper(Some(Body::Other)),
    ));
    assert!(out.0.is_empty());
}

#[test]
fn parse_level_checks_price_before_quantity() {
    let l = parse_level("100", "1").unwrap();
    assert_eq!(
        l,
        Level {
            price: Decimal {
                mantissa: 100,
                scale: 0
            },
            amount: Decimal {
                mantissa: 1,
                scale: 0
            },
        }
    );
    match parse_level("bad", "worse") {
        Err(DataError::Parse { field, raw_value, cause }) => {
            assert_eq!(field, "price");
            assert_eq!(raw_value, "bad");
            assert_eq!(cause, DecimalError::Invalid);
        }
        other => panic!("Expected a price parse error, got {:?}", other),
    }
}

#[test]
fn error_messages_name_field_and_raw_value() {
    let e = DataError::Parse {
        field: "price".to_string(),
        raw_value: "oops".to_string(),
        cause: DecimalError::Invalid,
    };
    assert_eq!(
        e.message(),
        "Failed to parse price: 'oops', error: not a decimal number"
    );
    let e = DataError::Parse {
        field: "quantity".to_string(),
        raw_value: "".to_string(),
        cause: DecimalError::Empty,
    };
    assert_eq!(
        e.message(),
        "Failed to parse quantity: '', error: empty string"
    );
    let e = DataError::UnsupportedValue {
        field: "trade_type".to_string(),
        raw_value: "-7".to_string(),
    };
    assert_eq!(
        e.message(),
        "Unsupported MexcTrade::Side: unknown trade_type: -7"
    );
    let e = DataError::InvalidTimestamp { raw_value: -1 };
    assert_eq!(
        e.message(),
        "Unsupported MexcTrade::Timestamp: invalid unix_epoch_ms (negative): -1"
    );
    let e = DataError::UrlParse {
        raw_value: "::".to_string(),
    };
    assert_eq!(e.message(), "Failed to parse base URL: '::'");
}
