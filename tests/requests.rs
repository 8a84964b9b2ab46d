use poloniex::endpoints::{
    balances_params, buy_params, buy_request, open_orders_params, return_balances_request,
    return_open_orders_request, sell_params, sell_request, ticker_url, trading_url,
};
use poloniex::signer::{sign, Account};

fn account() -> Account {
    Account { key: "K".to_string(), secret: "secret".to_string() }
}

fn keys(ps: &[(String, String)]) -> Vec<&str> {
    ps.iter().map(|(k, _)| k.as_str()).collect()
}

#[test]
fn urls() {
    assert_eq!(ticker_url(), "https://poloniex.com/public?command=returnTicker");
    assert_eq!(trading_url(), "https://poloniex.com/tradingApi");
}

#[test]
fn balances_body() {
    assert_eq!(
        balances_params(),
        vec![("command".to_string(), "returnBalances".to_string())]
    );
    let r = return_balances_request(&account(), "1");
    assert_eq!(r.body, "command=returnBalances&nonce=1");
}

#[test]
fn open_orders_without_pair_omits_currency_pair() {
    let ps = open_orders_params(None);
    assert_eq!(keys(&ps), vec!["command"]);
    let r = return_open_orders_request(&account(), None, "42");
    assert_eq!(r.body, "command=returnOpenOrders&nonce=42");
    assert!(!r.body.contains("currencyPair"));
}

#[test]
fn open_orders_with_pair_includes_it_verbatim() {
    let ps = open_orders_params(Some("BTC_ETH".to_string()));
    assert_eq!(keys(&ps), vec!["command", "currencyPair"]);
    let r = return_open_orders_request(&account(), Some("BTC_ETH".to_string()), "42");
    assert_eq!(r.body, "command=returnOpenOrders&currencyPair=BTC_ETH&nonce=42");
}

#[test]
fn buy_passes_rate_and_amount_verbatim() {
    let ps = buy_params("BTC_ETH", "0.05000000", "1.5e0");
    assert_eq!(keys(&ps), vec!["command", "currencyPair", "rate", "amount"]);
    let r = buy_request(&account(), "BTC_ETH", "0.05000000", "1.5e0", "7");
    assert_eq!(
        r.body,
        "command=buy&currencyPair=BTC_ETH&rate=0.05000000&amount=1.5e0&nonce=7"
    );
}

#[test]
fn sell_passes_rate_and_amount_verbatim() {
    let ps = sell_params("USDT_BTC", "0001.10", "-3");
    assert_eq!(ps[0].1, "sell");
    let r = sell_request(&account(), "USDT_BTC", "0001.10", "-3", "9");
    assert_eq!(
        r.body,
        "command=sell&currencyPair=USDT_BTC&rate=0001.10&amount=-3&nonce=9"
    );
}

#[test]
fn buy_request_is_signed_with_secret() {
    let r = buy_request(&account(), "BTC_ETH", "0.05", "1.5", "7");
    assert_eq!(
        r.headers[2],
        "Sign: 8cda9af45f1233f5c5b9576c61c76a7e3080f4ba3fba0bf7c0f8d79fdbaf93b1451185ae611f26a91445bebd644e958346432ffd6e975ff56500151c08b79a2c"
    );
    assert_eq!(r.headers[2], format!("Sign: {}", sign("secret", &r.body)));
}
