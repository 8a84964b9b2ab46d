use poloniex::json::Json;
use poloniex::model::{decode_balances, decode_order, decode_ticker};

fn to_json(v: serde_json::Value) -> Json {
    match v {
        serde_json::Value::Null => Json::Null,
        serde_json::Value::Bool(b) => Json::Bool(b),
        serde_json::Value::Number(n) => match (n.as_u64(), n.as_i64()) {
            (Some(u), _) => Json::Unsigned(u),
            (None, Some(i)) => Json::Negative(i),
            (None, None) => Json::Fractional,
        },
        serde_json::Value::String(s) => Json::Str(s),
        serde_json::Value::Array(a) => Json::Array(a.into_iter().map(to_json).collect()),
        serde_json::Value::Object(m) => {
            Json::Object(m.into_iter().map(|(k, v)| (k, to_json(v))).collect())
        }
    }
}

fn parse(text: &str) -> Result<Json, String> {
    serde_json::from_str::<serde_json::Value>(text)
        .map(to_json)
        .map_err(|e| format!("{:?}", e))
}

#[test]
fn ticker_payload_decodes_exactly() {
    let text = r#"{"BTC_ETH":{"id":1,"last":"0.05","lowestAsk":"0.051","highestBid":"0.049","percentChange":"0.01","baseVolume":"100","quoteVolume":"2000","isFrozen":"0","high24hr":"0.06","low24hr":"0.04"}}"#;
    let t = decode_ticker(&parse(text).unwrap()).unwrap();
    assert_eq!(t.len(), 1);
    assert_eq!(t[0].0, "BTC_ETH");
    let p = &t[0].1;
    assert_eq!(p.id, 1);
    assert_eq!(p.last, "0.05");
    assert_eq!(p.lowest_ask, "0.051");
    assert_eq!(p.highest_bid, "0.049");
    assert_eq!(p.percent_change, "0.01");
    assert_eq!(p.base_volume, "100");
    assert_eq!(p.quote_volume, "2000");
    assert_eq!(p.is_frozen, "0");
    assert_eq!(p.high24hr, "0.06");
    assert_eq!(p.low24hr, "0.04");
}

#[test]
fn truncated_payload_is_an_error() {
    let text = r#"{"BTC_ETH":{"id":1,"last":"0.0"#;
    assert!(parse(text).is_err());
}

#[test]
fn well_formed_but_mistyped_payload_is_an_error() {
    let text = r#"{"BTC_ETH":{"id":1.5,"last":"0.05"}}"#;
    assert!(decode_ticker(&parse(text).unwrap()).is_err());
    assert!(decode_order(&parse(r#"{"error":"Not enough BTC."}"#).unwrap()).is_err());
    assert!(decode_balances(&parse("[1,2]").unwrap()).is_err());
}

#[test]
fn placed_order_payload_decodes() {
    let text = r#"{"orderNumber":31226040,"resultingTrades":[{"amount":"338.8732","date":"2014-10-18 23:03:21","rate":"0.00000173","total":"0.00058625","tradeID":"16164","type":"buy"}]}"#;
    let o = decode_order(&parse(text).unwrap()).unwrap();
    assert_eq!(o.order_number, 31226040);
    assert_eq!(o.resulting_trades.len(), 1);
    assert_eq!(o.resulting_trades[0].trade_id, "16164");
    assert_eq!(o.resulting_trades[0].rate, "0.00000173");
}

#[test]
fn exchange_error_object_reads_as_a_balance() {
    let b = decode_balances(&parse(r#"{"error":"Invalid API key/secret pair."}"#).unwrap()).unwrap();
    assert_eq!(b, vec![("error".to_string(), "Invalid API key/secret pair.".to_string())]);
}
