//! The typed answers of the exchange, and their decoding from JSON.
use vstd::prelude::*;

use crate::json::{
    find_member, i64_field, i64_member, member, str_field, str_member, u32_field, u32_member, Json,
};

verus! {

/// Market state of one trading pair. Prices and volumes are kept as the
/// decimal strings the exchange sends.
#[derive(Clone, Debug)]
pub struct TickPair {
    pub id: u32,
    pub last: String,
    pub lowest_ask: String,
    pub highest_bid: String,
    pub percent_change: String,
    pub base_volume: String,
    pub quote_volume: String,
    pub is_frozen: String,
    pub high24hr: String,
    pub low24hr: String,
}

/// One resting order.
#[derive(Clone, Debug)]
pub struct OpenOrder {
    pub order_number: String,
    pub kind: String,
    pub rate: String,
    pub amount: String,
    pub total: String,
}

/// One fill produced by placing an order.
#[derive(Clone, Debug)]
pub struct OrderTrade {
    pub amount: String,
    pub date: String,
    pub rate: String,
    pub total: String,
    pub trade_id: String,
    pub kind: String,
}

/// The answer to a buy or sell: the order's number and the fills that
/// matching produced at once, in the order received.
#[derive(Clone, Debug)]
pub struct Order {
    pub order_number: i64,
    pub resulting_trades: Vec<OrderTrade>,
}

/// `v` is an object with every member that a `TickPair` reads, of the right type.
pub open spec fn is_tick_pair(v: Json) -> bool {
    match v {
        Json::Object(es) => {
            &&& u32_member(es@, "id"@) is Some
            &&& str_member(es@, "last"@) is Some
            &&& str_member(es@, "lowestAsk"@) is Some
            &&& str_member(es@, "highestBid"@) is Some
            &&& str_member(es@, "percentChange"@) is Some
            &&& str_member(es@, "baseVolume"@) is Some
            &&& str_member(es@, "quoteVolume"@) is Some
            &&& str_member(es@, "isFrozen"@) is Some
            &&& str_member(es@, "high24hr"@) is Some
            &&& str_member(es@, "low24hr"@) is Some
        },
        _ => false,
    }
}

/// Every field of `t` is the member of `v` that it is read from.
pub open spec fn tick_pair_from(t: TickPair, v: Json) -> bool {
    match v {
        Json::Object(es) => {
            &&& u32_member(es@, "id"@) == Some(t.id)
            &&& str_member(es@, "last"@) == Some(t.last@)
            &&& str_member(es@, "lowestAsk"@) == Some(t.lowest_ask@)
            &&& str_member(es@, "highestBid"@) == Some(t.highest_bid@)
            &&& str_member(es@, "percentChange"@) == Some(t.percent_change@)
            &&& str_member(es@, "baseVolume"@) == Some(t.base_volume@)
            &&& str_member(es@, "quoteVolume"@) == Some(t.quote_volume@)
            &&& str_member(es@, "isFrozen"@) == Some(t.is_frozen@)
            &&& str_member(es@, "high24hr"@) == Some(t.high24hr@)
            &&& str_member(es@, "low24hr"@) == Some(t.low24hr@)
        },
        _ => false,
    }
}

fn not_an_object() -> (r: String) {
    String::from_str("expected a JSON object")
}

/// Reads a `TickPair` from its JSON object.
pub fn decode_tick_pair(v: &Json) -> (r: Result<TickPair, String>)
    ensures
        r is Ok <==> is_tick_pair(*v),
        r matches Ok(t) ==> tick_pair_from(t, *v),
{
    match v {
        Json::Object(es) => {
            let id = u32_field(es, "id")?;
            let last = str_field(es, "last")?;
            let lowest_ask = str_field(es, "lowestAsk")?;
            let highest_bid = str_field(es, "highestBid")?;
            let percent_change = str_field(es, "percentChange")?;
            let base_volume = str_field(es, "baseVolume")?;
            let quote_volume = str_field(es, "quoteVolume")?;
            let is_frozen = str_field(es, "isFrozen")?;
            let high24hr = str_field(es, "high24hr")?;
            let low24hr = str_field(es, "low24hr")?;
            Ok(
                TickPair {
                    id,
                    last,
                    lowest_ask,
                    highest_bid,
                    percent_change,
                    base_volume,
                    quote_volume,
                    is_frozen,
                    high24hr,
                    low24hr,
                },
            )
        },
        _ => Err(not_an_object()),
    }
}

/// `v` is an object with every member that an `OpenOrder` reads, as strings.
pub open spec fn is_open_order(v: Json) -> bool {
    match v {
        Json::Object(es) => {
            &&& str_member(es@, "orderNumber"@) is Some
            &&& str_member(es@, "type"@) is Some
            &&& str_member(es@, "rate"@) is Some
            &&& str_member(es@, "amount"@) is Some
            &&& str_member(es@, "total"@) is Some
        },
        _ => false,
    }
}

/// Every field of `o` is the member of `v` that it is read from.
pub open spec fn open_order_from(o: OpenOrder, v: Json) -> bool {
    match v {
        Json::Object(es) => {
            &&& str_member(es@, "orderNumber"@) == Some(o.order_number@)
            &&& str_member(es@, "type"@) == Some(o.kind@)
            &&& str_member(es@, "rate"@) == Some(o.rate@)
            &&& str_member(es@, "amount"@) == Some(o.amount@)
            &&& str_member(es@, "total"@) == Some(o.total@)
        },
        _ => false,
    }
}

/// Reads an `OpenOrder` from its JSON object.
pub fn decode_open_order(v: &Json) -> (r: Result<OpenOrder, String>)
    ensures
        r is Ok <==> is_open_order(*v),
        r matches Ok(o) ==> open_order_from(o, *v),
{
    match v {
        Json::Object(es) => {
            let order_number = str_field(es, "orderNumber")?;
            let kind = str_field(es, "type")?;
            let rate = str_field(es, "rate")?;
            let amount = str_field(es, "amount")?;
            let total = str_field(es, "total")?;
            Ok(OpenOrder { order_number, kind, rate, amount, total })
        },
        _ => Err(not_an_object()),
    }
}

/// `v` is an object with every member that an `OrderTrade` reads, as strings.
pub open spec fn is_order_trade(v: Json) -> bool {
    match v {
        Json::Object(es) => {
            &&& str_member(es@, "amount"@) is Some
            &&& str_member(es@, "date"@) is Some
            &&& str_member(es@, "rate"@) is Some
            &&& str_member(es@, "total"@) is Some
            &&& str_member(es@, "tradeID"@) is Some
            &&& str_member(es@, "type"@) is Some
        },
        _ => false,
    }
}

/// Every field of `t` is the member of `v` that it is read from.
pub open spec fn order_trade_from(t: OrderTrade, v: Json) -> bool {
    match v {
        Json::Object(es) => {
            &&& str_member(es@, "amount"@) == Some(t.amount@)
            &&& str_member(es@, "date"@) == Some(t.date@)
            &&& str_member(es@, "rate"@) == Some(t.rate@)
            &&& str_member(es@, "total"@) == Some(t.total@)
            &&& str_member(es@, "tradeID"@) == Some(t.trade_id@)
            &&& str_member(es@, "type"@) == Some(t.kind@)
        },
        _ => false,
    }
}

/// Reads an `OrderTrade` from its JSON object.
pub fn decode_order_trade(v: &Json) -> (r: Result<OrderTrade, String>)
    ensures
        r is Ok <==> is_order_trade(*v),
        r matches Ok(t) ==> order_trade_from(t, *v),
{
    match v {
        Json::Object(es) => {
            let amount = str_field(es, "amount")?;
            let date = str_field(es, "date")?;
            let rate = str_field(es, "rate")?;
            let total = str_field(es, "total")?;
            let trade_id = str_field(es, "tradeID")?;
            let kind = str_field(es, "type")?;
            Ok(OrderTrade { amount, date, rate, total, trade_id, kind })
        },
        _ => Err(not_an_object()),
    }
}

/// `v` is an object with an integer `orderNumber` in the range of `i64` and
/// a `resultingTrades` array of trades.
pub open spec fn is_order(v: Json) -> bool {
    match v {
        Json::Object(es) => {
            &&& i64_member(es@, "orderNumber"@) is Some
            &&& match member(es@, "resultingTrades"@) {
                Some(Json::Array(ts)) => forall|i: int|
                    0 <= i < ts@.len() ==> is_order_trade(#[trigger] ts@[i]),
                _ => false,
            }
        },
        _ => false,
    }
}

/// The fields of `o` are read from `v`, each trade from the trade at the
/// same position.
pub open spec fn order_from(o: Order, v: Json) -> bool {
    match v {
        Json::Object(es) => {
            &&& i64_member(es@, "orderNumber"@) == Some(o.order_number)
            &&& match member(es@, "resultingTrades"@) {
                Some(Json::Array(ts)) => {
                    &&& o.resulting_trades@.len() == ts@.len()
                    &&& forall|i: int|
                        0 <= i < ts@.len() ==> order_trade_from(
                            #[trigger] o.resulting_trades@[i],
                            ts@[i],
                        )
                },
                _ => false,
            }
        },
        _ => false,
    }
}

/// Reads the answer to a buy or sell.
pub fn decode_order(v: &Json) -> (r: Result<Order, String>)
    ensures
        r is Ok <==> is_order(*v),
        r matches Ok(o) ==> order_from(o, *v),
{
    match v {
        Json::Object(es) => {
            let order_number = i64_field(es, "orderNumber")?;
            match find_member(es, "resultingTrades") {
                Some(Json::Array(ts)) => {
                    let mut trades: Vec<OrderTrade> = Vec::new();
                    let mut i: usize = 0;
                    while i < ts.len()
                        invariant
                            *v == Json::Object(*es),
                            member(es@, "resultingTrades"@) == Some(Json::Array(*ts)),
                            i64_member(es@, "orderNumber"@) == Some(order_number),
                            i <= ts@.len(),
                            trades@.len() == i,
                            forall|j: int|
                                0 <= j < i ==> order_trade_from(#[trigger] trades@[j], ts@[j]),
                            forall|j: int| 0 <= j < i ==> is_order_trade(#[trigger] ts@[j]),
                        decreases ts@.len() - i,
                    {
                        match decode_order_trade(&ts[i]) {
                            Ok(t) => trades.push(t),
                            Err(e) => {
                                assert(!is_order_trade(ts@[i as int]));
                                assert(!is_order(*v)) by {
                                    assert(v->Object_0@ == es@);
                                    assert(member(v->Object_0@, "resultingTrades"@)->0->Array_0@
                                        == ts@);
                                }
                                return Err(e);
                            },
                        }
                        i = i + 1;
                    }
                    Ok(Order { order_number, resulting_trades: trades })
                },
                _ => Err(String::from_str("missing or mistyped field `resultingTrades`")),
            }
        },
        _ => Err(not_an_object()),
    }
}

/// `v` is an object whose every member is a ticker entry.
pub open spec fn is_ticker(v: Json) -> bool {
    match v {
        Json::Object(es) => forall|i: int| 0 <= i < es@.len() ==> is_tick_pair(#[trigger] es@[i].1),
        _ => false,
    }
}

/// `t` holds the members of `v` in order: the same names, each entry read
/// from the member's value.
pub open spec fn ticker_from(t: Seq<(String, TickPair)>, v: Json) -> bool {
    match v {
        Json::Object(es) => {
            &&& t.len() == es@.len()
            &&& forall|i: int|
                0 <= i < t.len() ==> #[trigger] t[i].0@ == es@[i].0@ && tick_pair_from(
                    t[i].1,
                    es@[i].1,
                )
        },
        _ => false,
    }
}

/// Reads the ticker: one entry per trading pair, in document order.
pub fn decode_ticker(v: &Json) -> (r: Result<Vec<(String, TickPair)>, String>)
    ensures
        r is Ok <==> is_ticker(*v),
        r matches Ok(t) ==> ticker_from(t@, *v),
{
    match v {
        Json::Object(es) => {
            let mut out: Vec<(String, TickPair)> = Vec::new();
            let mut i: usize = 0;
            while i < es.len()
                invariant
                    *v == Json::Object(*es),
                    i <= es@.len(),
                    out@.len() == i,
                    forall|j: int|
                        0 <= j < i ==> (#[trigger] out@[j]).0@ == es@[j].0@ && tick_pair_from(
                            out@[j].1,
                            es@[j].1,
                        ),
                    forall|j: int| 0 <= j < i ==> is_tick_pair(#[trigger] es@[j].1),
                decreases es@.len() - i,
            {
                match decode_tick_pair(&es[i].1) {
                    Ok(t) => out.push((es[i].0.clone(), t)),
                    Err(e) => {
                        assert(!is_tick_pair(es@[i as int].1));
                        assert(!is_ticker(*v)) by {
                            assert(v->Object_0@ == es@);
                        }
                        return Err(e);
                    },
                }
                i = i + 1;
            }
            Ok(out)
        },
        _ => Err(not_an_object()),
    }
}

/// `v` is an object whose every member is an open order.
pub open spec fn is_open_orders(v: Json) -> bool {
    match v {
        Json::Object(es) => forall|i: int|
            0 <= i < es@.len() ==> is_open_order(#[trigger] es@[i].1),
        _ => false,
    }
}

/// `t` holds the members of `v` in order: the same names, each order read
/// from the member's value.
pub open spec fn open_orders_from(t: Seq<(String, OpenOrder)>, v: Json) -> bool {
    match v {
        Json::Object(es) => {
            &&& t.len() == es@.len()
            &&& forall|i: int|
                0 <= i < t.len() ==> #[trigger] t[i].0@ == es@[i].0@ && open_order_from(
                    t[i].1,
                    es@[i].1,
                )
        },
        _ => false,
    }
}

/// Reads the open orders, keyed by trading pair, in document order.
pub fn decode_open_orders(v: &Json) -> (r: Result<Vec<(String, OpenOrder)>, String>)
    ensures
        r is Ok <==> is_open_orders(*v),
        r matches Ok(t) ==> open_orders_from(t@, *v),
{
    match v {
        Json::Object(es) => {
            let mut out: Vec<(String, OpenOrder)> = Vec::new();
            let mut i: usize = 0;
            while i < es.len()
                invariant
                    *v == Json::Object(*es),
                    i <= es@.len(),
                    out@.len() == i,
                    forall|j: int|
                        0 <= j < i ==> (#[trigger] out@[j]).0@ == es@[j].0@ && open_order_from(
                            out@[j].1,
                            es@[j].1,
                        ),
                    forall|j: int| 0 <= j < i ==> is_open_order(#[trigger] es@[j].1),
                decreases es@.len() - i,
            {
                match decode_open_order(&es[i].1) {
                    Ok(o) => out.push((es[i].0.clone(), o)),
                    Err(e) => {
                        assert(!is_open_order(es@[i as int].1));
                        assert(!is_open_orders(*v)) by {
                            assert(v->Object_0@ == es@);
                        }
                        return Err(e);
                    },
                }
                i = i + 1;
            }
            Ok(out)
        },
        _ => Err(not_an_object()),
    }
}

/// `v` is an object whose every member is a string.
pub open spec fn is_balances(v: Json) -> bool {
    match v {
        Json::Object(es) => forall|i: int| 0 <= i < es@.len() ==> (#[trigger] es@[i].1 is Str),
        _ => false,
    }
}

/// `t` holds the members of `v` in order, names and string values.
pub open spec fn balances_from(t: Seq<(String, String)>, v: Json) -> bool {
    match v {
        Json::Object(es) => {
            &&& t.len() == es@.len()
            &&& forall|i: int|
                0 <= i < t.len() ==> #[trigger] t[i].0@ == es@[i].0@ && match es@[i].1 {
                    Json::Str(s) => t[i].1@ == s@,
                    _ => false,
                }
        },
        _ => false,
    }
}

/// Reads the balances: currency code and decimal string, in document order.
pub fn decode_balances(v: &Json) -> (r: Result<Vec<(String, String)>, String>)
    ensures
        r is Ok <==> is_balances(*v),
        r matches Ok(t) ==> balances_from(t@, *v),
{
    match v {
        Json::Object(es) => {
            let mut out: Vec<(String, String)> = Vec::new();
            let mut i: usize = 0;
            while i < es.len()
                invariant
                    *v == Json::Object(*es),
                    i <= es@.len(),
                    out@.len() == i,
                    forall|j: int|
                        0 <= j < i ==> (#[trigger] out@[j]).0@ == es@[j].0@ && match es@[j].1 {
                            Json::Str(s) => out@[j].1@ == s@,
                            _ => false,
                        },
                    forall|j: int| 0 <= j < i ==> (#[trigger] es@[j].1 is Str),
                decreases es@.len() - i,
            {
                match &es[i].1 {
                    Json::Str(s) => {
                        out.push((es[i].0.clone(), s.clone()));
                    },
                    _ => {
                        assert(!(es@[i as int].1 is Str));
                        assert(!is_balances(*v));
                        return Err(String::from_str("expected a string balance"));
                    },
                }
                i = i + 1;
            }
            Ok(out)
        },
        _ => Err(not_an_object()),
    }
}

} // verus!
