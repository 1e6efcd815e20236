//! Wire-protocol adapter for the MEXC venue: identifier construction, the
//! outbound subscription control grammar, and the mapping of decoded inbound
//! wire envelopes into normalized market events.

use vstd::prelude::*;
use vstd::string::StringExecFns;

pub mod book;
pub mod channel;
pub mod decimal;
pub mod error;
pub mod event;
pub mod json;
pub mod market;
pub mod subscription;
pub mod text;
pub mod time;
pub mod trade;

use crate::error::DataError;
use crate::event::ExchangeId;
use crate::json::{serialize_subscription, subscription_frame};
use crate::subscription::{
    method_tag, ExchangeSub, MexcAggInterval, MexcWsMethod, MexcWsSub, PingInterval, WsMessage,
};

verus! {

/// The venue's base WebSocket endpoint for public market data streams.
pub const BASE_URL_MEXC: &'static str = "wss://wbs.mexc.com/ws";

/// The MEXC exchange connector: a static venue identity together with the
/// pure functions the external streaming engine consumes.
#[derive(Clone, Copy, Debug, PartialEq, Eq, Hash, Default)]
pub struct Mexc;

/// Declares the outside parsed-URL type so it can appear in signatures;
/// the adapter never looks inside a value of it.
#[verifier::external_type_specification]
#[verifier::external_body]
pub struct ExUrl(::url::Url);

/// Declares the outside URL-parse error type; the adapter maps it to its
/// own classified error without reading it.
#[verifier::external_type_specification]
#[verifier::external_body]
pub struct ExUrlParseError(::url::ParseError);

/// Whether the WHATWG URL grammar accepts a string.
pub uninterp spec fn url_parse_ok(s: Seq<char>) -> bool;

/// Relies on `url::Url::parse`: parsing is a pure function of the input
/// string, succeeding exactly on the strings its grammar accepts.
pub assume_specification[ ::url::Url::parse ](input: &str) -> (r: Result<::url::Url, ::url::ParseError>)
    ensures
        r is Ok <==> url_parse_ok(input@),
;

/// The interval literal of the topic grammar.
pub open spec fn interval_text(interval: MexcAggInterval) -> Seq<char> {
    match interval {
        MexcAggInterval::Ms10 => "10ms"@,
        MexcAggInterval::Ms100 => "100ms"@,
    }
}

/// One subscription topic: `<channel>@<interval>@<market>`.
pub open spec fn topic_text(sub: ExchangeSub, interval: MexcAggInterval) -> Seq<char> {
    sub.channel.0@ + "@"@ + interval_text(interval) + "@"@ + sub.market.0@
}

impl Mexc {
    /// The static identity of this venue.
    pub const ID: ExchangeId = ExchangeId::Mexc;

    /// The interval literal of the topic grammar.
    pub fn agg_interval_to_str(interval: MexcAggInterval) -> (r: &'static str)
        ensures
            r@ == interval_text(interval),
    {
        match interval {
            MexcAggInterval::Ms10 => "10ms",
            MexcAggInterval::Ms100 => "100ms",
        }
    }

    /// The base endpoint, parsed. Succeeds exactly when the URL parser
    /// accepts the constant base string; a rejection is returned as a
    /// classified error naming that string.
    pub fn base_url() -> (r: Result<::url::Url, DataError>)
        ensures
            r is Ok <==> url_parse_ok(BASE_URL_MEXC@),
            r is Err ==> (r->Err_0 matches DataError::UrlParse { raw_value } && raw_value@
                == BASE_URL_MEXC@),
    {
        match ::url::Url::parse(BASE_URL_MEXC) {
            Ok(u) => Ok(u),
            Err(_) => Err(DataError::UrlParse { raw_value: String::from_str(BASE_URL_MEXC) }),
        }
    }

    /// The heartbeat descriptor: a fixed 10-second cadence and the
    /// constant "ping" text payload, for the external transport to
    /// schedule.
    pub fn ping_interval() -> (r: Option<PingInterval>)
        ensures
            r matches Some(p) && p.interval_secs == 10 && (p.ping matches WsMessage::Text(s)
                && s@ == "ping"@),
    {
        Some(
            PingInterval {
                interval_secs: 10,
                ping: WsMessage::Text(String::from_str("ping")),
            },
        )
    }

    /// Builds the outbound control frames for a subscription batch. An
    /// empty batch yields no frame — not an error. A non-empty batch
    /// always yields exactly one text frame: the serialized SUBSCRIPTION
    /// message whose topic list is, in order,
    /// `<channel>@<interval>@<market>` for each pair, with the default
    /// aggregation interval. Serialization is total, so no request is
    /// ever discarded.
    pub fn requests(exchange_subs: Vec<ExchangeSub>) -> (r: Vec<WsMessage>)
        ensures
            exchange_subs@.len() == 0 ==> r@.len() == 0,
            exchange_subs@.len() > 0 ==> r@.len() == 1 && (r@[0] matches WsMessage::Text(s)
                && s@ == subscription_frame(
                method_tag(MexcWsMethod::Subscription),
                exchange_subs@.map_values(
                    |sub: ExchangeSub| topic_text(sub, MexcAggInterval::Ms100),
                ),
            )),
    {
        if exchange_subs.len() == 0 {
            return Vec::new();
        }
        let default_interval = MexcAggInterval::default();
        let ghost topics_spec = exchange_subs@.map_values(
            |sub: ExchangeSub| topic_text(sub, MexcAggInterval::Ms100),
        );
        let n = exchange_subs.len();
        let mut topics: Vec<String> = Vec::new();
        let mut i: usize = 0;
        while i < n
            invariant
                n == exchange_subs@.len(),
                topics_spec == exchange_subs@.map_values(
                    |sub: ExchangeSub| topic_text(sub, MexcAggInterval::Ms100),
                ),
                default_interval == MexcAggInterval::Ms100,
                i <= n,
                topics@.len() == i,
                forall|k: int| 0 <= k < i ==> (#[trigger] topics@[k])@ == topics_spec[k],
            decreases n - i,
        {
            let sub = &exchange_subs[i];
            let mut topic = String::from_str(sub.channel.0);
            topic.append("@");
            topic.append(Mexc::agg_interval_to_str(default_interval));
            topic.append("@");
            topic.append(sub.market.0.as_str());
            proof {
                assert(topic@ =~= topic_text(exchange_subs@[i as int], MexcAggInterval::Ms100));
            }
            topics.push(topic);
            i = i + 1;
        }
        let subscription_message = MexcWsSub { method: MexcWsMethod::Subscription, params: topics };
        proof {
            assert(subscription_message.params.deep_view() =~= topics_spec);
        }
        let frame = serialize_subscription(&subscription_message);
        let mut r: Vec<WsMessage> = Vec::new();
        r.push(WsMessage::Text(frame));
        r
    }

    /// The count of handshake acknowledgements the engine should await:
    /// one per subscription.
    pub fn expected_responses(subscriptions: &Vec<ExchangeSub>) -> (n: usize)
        ensures
            n == subscriptions@.len(),
    {
        subscriptions.len()
    }
}

} // verus!
