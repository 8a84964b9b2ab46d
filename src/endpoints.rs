//! The exchange's operations: their URLs, their parameter lists, and the
//! signed requests built from them.
use vstd::prelude::*;

use crate::signer::{form_of, params_view, signed_request, Account, PrivateRequest};

verus! {

/// The address of the public ticker query.
pub fn ticker_url() -> (r: String)
    ensures
        r@ == "https://poloniex.com/public?command=returnTicker"@,
{
    String::from_str("https://poloniex.com/public?command=returnTicker")
}

/// The address that every private request is posted to.
pub fn trading_url() -> (r: String)
    ensures
        r@ == "https://poloniex.com/tradingApi"@,
{
    String::from_str("https://poloniex.com/tradingApi")
}

/// The parameters of a balances query.
pub open spec fn balances_params_of() -> Seq<(Seq<char>, Seq<char>)> {
    seq![("command"@, "returnBalances"@)]
}

/// The parameters of an open-orders query: the command, then the trading
/// pair when one is given.
pub open spec fn open_orders_params_of(pair: Option<Seq<char>>) -> Seq<(Seq<char>, Seq<char>)> {
    match pair {
        Some(p) => seq![("command"@, "returnOpenOrders"@), ("currencyPair"@, p)],
        None => seq![("command"@, "returnOpenOrders"@)],
    }
}

/// The parameters of a buy or sell: the command, the trading pair, the rate
/// and the amount.
pub open spec fn order_params_of(
    command: Seq<char>,
    pair: Seq<char>,
    rate: Seq<char>,
    amount: Seq<char>,
) -> Seq<(Seq<char>, Seq<char>)> {
    seq![
        ("command"@, command),
        ("currencyPair"@, pair),
        ("rate"@, rate),
        ("amount"@, amount),
    ]
}

/// The body of a private request with parameters `params`, the nonce last.
pub open spec fn body_of(params: Seq<(Seq<char>, Seq<char>)>, nonce: Seq<char>) -> Seq<char> {
    form_of(params.push(("nonce"@, nonce)))
}

fn param(key: &str, value: &str) -> (r: (String, String))
    ensures
        r.0@ == key@,
        r.1@ == value@,
{
    (String::from_str(key), String::from_str(value))
}

/// The parameter list of a balances query.
pub fn balances_params() -> (r: Vec<(String, String)>)
    ensures
        params_view(r@) == balances_params_of(),
{
    let mut r: Vec<(String, String)> = Vec::new();
    r.push(param("command", "returnBalances"));
    assert(params_view(r@) =~= balances_params_of());
    r
}

/// The parameter list of an open-orders query; without a pair the exchange
/// answers for all pairs.
pub fn open_orders_params(pair: Option<String>) -> (r: Vec<(String, String)>)
    ensures
        params_view(r@) == open_orders_params_of(
            match pair {
                Some(p) => Some(p@),
                None => None,
            },
        ),
{
    let mut r: Vec<(String, String)> = Vec::new();
    r.push(param("command", "returnOpenOrders"));
    match pair {
        Some(p) => {
            let ghost pv = p@;
            r.push((String::from_str("currencyPair"), p));
            assert(params_view(r@) =~= open_orders_params_of(Some(pv)));
        },
        None => {
            assert(params_view(r@) =~= open_orders_params_of(None));
        },
    }
    r
}

fn order_params(command: &str, pair: &str, rate: &str, amount: &str) -> (r: Vec<(String, String)>)
    ensures
        params_view(r@) == order_params_of(command@, pair@, rate@, amount@),
{
    let mut r: Vec<(String, String)> = Vec::new();
    r.push(param("command", command));
    r.push(param("currencyPair", pair));
    r.push(param("rate", rate));
    r.push(param("amount", amount));
    assert(params_view(r@) =~= order_params_of(command@, pair@, rate@, amount@));
    r
}

/// The parameter list of a buy; rate and amount are passed on as given.
pub fn buy_params(pair: &str, rate: &str, amount: &str) -> (r: Vec<(String, String)>)
    ensures
        params_view(r@) == order_params_of("buy"@, pair@, rate@, amount@),
{
    order_params("buy", pair, rate, amount)
}

/// The parameter list of a sell; rate and amount are passed on as given.
pub fn sell_params(pair: &str, rate: &str, amount: &str) -> (r: Vec<(String, String)>)
    ensures
        params_view(r@) == order_params_of("sell"@, pair@, rate@, amount@),
{
    order_params("sell", pair, rate, amount)
}

/// The signed request of a balances query.
pub fn return_balances_request(account: &Account, nonce: &str) -> (r: PrivateRequest)
    ensures
        r.body@ == body_of(balances_params_of(), nonce@),
        r.headers@.map_values(|h: String| h@) == crate::signer::headers_of(
            account.key@,
            crate::signer::signature_of(account.secret@, r.body@),
        ),
{
    let params = balances_params();
    signed_request(account, &params, nonce)
}

/// The signed request of an open-orders query.
pub fn return_open_orders_request(account: &Account, pair: Option<String>, nonce: &str) -> (r:
    PrivateRequest)
    ensures
        r.body@ == body_of(
            open_orders_params_of(
                match pair {
                    Some(p) => Some(p@),
                    None => None,
                },
            ),
            nonce@,
        ),
        r.headers@.map_values(|h: String| h@) == crate::signer::headers_of(
            account.key@,
            crate::signer::signature_of(account.secret@, r.body@),
        ),
{
    let params = open_orders_params(pair);
    signed_request(account, &params, nonce)
}

/// The signed request of a buy.
pub fn buy_request(account: &Account, pair: &str, rate: &str, amount: &str, nonce: &str) -> (r:
    PrivateRequest)
    ensures
        r.body@ == body_of(order_params_of("buy"@, pair@, rate@, amount@), nonce@),
        r.headers@.map_values(|h: String| h@) == crate::signer::headers_of(
            account.key@,
            crate::signer::signature_of(account.secret@, r.body@),
        ),
{
    let params = buy_params(pair, rate, amount);
    signed_request(account, &params, nonce)
}

/// The signed request of a sell.
pub fn sell_request(account: &Account, pair: &str, rate: &str, amount: &str, nonce: &str) -> (r:
    PrivateRequest)
    ensures
        r.body@ == body_of(order_params_of("sell"@, pair@, rate@, amount@), nonce@),
        r.headers@.map_values(|h: String| h@) == crate::signer::headers_of(
            account.key@,
            crate::signer::signature_of(account.secret@, r.body@),
        ),
{
    let params = sell_params(pair, rate, amount);
    signed_request(account, &params, nonce)
}

/// A buy or sell body carries pair, rate and amount byte for byte:
/// it is `command=C&currencyPair=P&rate=R&amount=A&nonce=N` with the
/// caller's strings in place.
pub proof fn lemma_order_body_verbatim(
    command: Seq<char>,
    pair: Seq<char>,
    rate: Seq<char>,
    amount: Seq<char>,
    nonce: Seq<char>,
)
    ensures
        body_of(order_params_of(command, pair, rate, amount), nonce) == "command="@ + command
            + "&currencyPair="@ + pair + "&rate="@ + rate + "&amount="@ + amount + "&nonce="@
            + nonce,
{
    reveal_strlit("command");
    reveal_strlit("currencyPair");
    reveal_strlit("rate");
    reveal_strlit("amount");
    reveal_strlit("nonce");
    reveal_strlit("command=");
    reveal_strlit("&currencyPair=");
    reveal_strlit("&rate=");
    reveal_strlit("&amount=");
    reveal_strlit("&nonce=");
    let ps = order_params_of(command, pair, rate, amount).push(("nonce"@, nonce));
    let p4 = ps.drop_last();
    let p3 = p4.drop_last();
    let p2 = p3.drop_last();
    let p1 = p2.drop_last();
    assert(p1 =~= seq![("command"@, command)]);
    assert(form_of(p1) =~= "command="@ + command);
    assert(form_of(p2) =~= "command="@ + command + "&currencyPair="@ + pair);
    assert(form_of(p3) =~= "command="@ + command + "&currencyPair="@ + pair + "&rate="@ + rate);
    assert(form_of(p4) =~= "command="@ + command + "&currencyPair="@ + pair + "&rate="@ + rate
        + "&amount="@ + amount);
    assert(form_of(ps) =~= "command="@ + command + "&currencyPair="@ + pair + "&rate="@ + rate
        + "&amount="@ + amount + "&nonce="@ + nonce);
}

/// An open-orders body names a trading pair only when one is given: without
/// one, no parameter is `currencyPair` and the body is
/// `command=returnOpenOrders&nonce=N`; with pair `P` it is
/// `command=returnOpenOrders&currencyPair=P&nonce=N`.
pub proof fn lemma_open_orders_pair(pair: Option<Seq<char>>, nonce: Seq<char>)
    ensures
        pair is None ==> forall|i: int|
            0 <= i < open_orders_params_of(pair).push(("nonce"@, nonce)).len() ==> (
            #[trigger] open_orders_params_of(pair).push(("nonce"@, nonce))[i]).0
                != "currencyPair"@,
        pair is None ==> body_of(open_orders_params_of(pair), nonce) == "command=returnOpenOrders"@
            + "&nonce="@ + nonce,
        pair matches Some(p) ==> body_of(open_orders_params_of(pair), nonce)
            == "command=returnOpenOrders"@ + "&currencyPair="@ + p + "&nonce="@ + nonce,
{
    reveal_strlit("command");
    reveal_strlit("returnOpenOrders");
    reveal_strlit("currencyPair");
    reveal_strlit("nonce");
    reveal_strlit("command=returnOpenOrders");
    reveal_strlit("&currencyPair=");
    reveal_strlit("&nonce=");
    let ps = open_orders_params_of(pair).push(("nonce"@, nonce));
    match pair {
        Some(p) => {
            let p1 = ps.drop_last().drop_last();
            assert(p1 =~= seq![("command"@, "returnOpenOrders"@)]);
            assert(form_of(p1) =~= "command=returnOpenOrders"@);
            assert(form_of(ps.drop_last()) =~= "command=returnOpenOrders"@ + "&currencyPair="@ + p);
            assert(form_of(ps) =~= "command=returnOpenOrders"@ + "&currencyPair="@ + p
                + "&nonce="@ + nonce);
        },
        None => {
            assert(ps.drop_last() =~= seq![("command"@, "returnOpenOrders"@)]);
            assert(form_of(ps.drop_last()) =~= "command=returnOpenOrders"@);
            assert(form_of(ps) =~= "command=returnOpenOrders"@ + "&nonce="@ + nonce);
            assert forall|i: int| 0 <= i < ps.len() implies (#[trigger] ps[i]).0
                != "currencyPair"@ by {
                assert(ps[i].0.len() != "currencyPair"@.len());
            }
        },
    }
}

} // verus!
