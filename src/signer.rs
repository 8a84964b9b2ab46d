//! Signing of private requests: the form-encoded body, the nonce, the
//! HMAC-SHA512 signature keyed by the account secret, and the header set.
use crypto::hmac::Hmac;
use crypto::mac::Mac;
use crypto::sha2::Sha512;
use vstd::prelude::*;

use crate::text::{decimal_of, digit_char, hex_of, to_decimal, to_lower_hex};

verus! {

/// A key/secret pair issued by the exchange.
#[derive(Clone, Debug)]
pub struct Account {
    pub key: String,
    pub secret: String,
}

/// The HMAC-SHA512 tag of the UTF-8 bytes of `message`, keyed by the UTF-8
/// bytes of `key`.
pub uninterp spec fn hmac_sha512_of(key: Seq<char>, message: Seq<char>) -> Seq<u8>;

/// Relies on rust-crypto's `Hmac::<Sha512>` (`new`, `input`, `result`): the
/// tag depends on key and message alone, and a SHA-512 tag is 64 bytes long.
#[verifier::external_body]
fn hmac_sha512(key: &str, message: &str) -> (r: Vec<u8>)
    ensures
        r@ == hmac_sha512_of(key@, message@),
        r@.len() == 64,
{
    let mut hmac = Hmac::new(Sha512::new(), key.as_bytes());
    hmac.input(message.as_bytes());
    hmac.result().code().to_vec()
}

/// The signature sent with a private request: the lowercase hex rendering
/// of the HMAC-SHA512 of the body keyed by the secret.
pub open spec fn signature_of(secret: Seq<char>, body: Seq<char>) -> Seq<char> {
    hex_of(hmac_sha512_of(secret, body))
}

proof fn lemma_hex_len(b: Seq<u8>)
    ensures
        hex_of(b).len() == 2 * b.len(),
    decreases b.len(),
{
    if b.len() > 0 {
        lemma_hex_len(b.drop_last());
    }
}

/// Signs `body` with `secret`. The result depends on the two strings alone.
pub fn sign(secret: &str, body: &str) -> (r: String)
    ensures
        r@ == signature_of(secret@, body@),
        r@.len() == 128,
{
    let tag = hmac_sha512(secret, body);
    proof {
        lemma_hex_len(tag@);
    }
    to_lower_hex(tag.as_slice())
}

/// The views of the keys and values of a parameter list.
pub open spec fn params_view(ps: Seq<(String, String)>) -> Seq<(Seq<char>, Seq<char>)> {
    ps.map_values(|p: (String, String)| (p.0@, p.1@))
}

/// `key=value`.
pub open spec fn field_of(p: (Seq<char>, Seq<char>)) -> Seq<char> {
    p.0 + seq!['='] + p.1
}

/// The fields of `ps`, in order, joined by `&`.
pub open spec fn form_of(ps: Seq<(Seq<char>, Seq<char>)>) -> Seq<char>
    decreases ps.len(),
{
    if ps.len() == 0 {
        Seq::empty()
    } else if ps.len() == 1 {
        field_of(ps[0])
    } else {
        form_of(ps.drop_last()) + seq!['&'] + field_of(ps.last())
    }
}

/// Joins the parameters, in the order given, as `key=value` fields separated
/// by `&`. Keys and values are copied byte for byte.
pub fn form_body(params: &Vec<(String, String)>) -> (r: String)
    ensures
        r@ == form_of(params_view(params@)),
{
    let ghost pv = params_view(params@);
    let mut r = String::new();
    let mut i: usize = 0;
    while i < params.len()
        invariant
            i <= params@.len(),
            pv == params_view(params@),
            r@ == form_of(pv.subrange(0, i as int)),
        decreases params@.len() - i,
    {
        let ghost before = r@;
        if i > 0 {
            r.append("&");
        }
        r.append(params[i].0.as_str());
        r.append("=");
        r.append(params[i].1.as_str());
        proof {
            assert(pv[i as int] == (params@[i as int].0@, params@[i as int].1@));
            reveal_strlit("=");
            reveal_strlit("&");
            assert("="@ =~= seq!['=']);
            assert("&"@ =~= seq!['&']);
            let next = pv.subrange(0, i + 1);
            assert(next.drop_last() =~= pv.subrange(0, i as int));
            assert(next.last() == pv[i as int]);
            if i == 0 {
                assert(r@ =~= field_of(pv[0]));
            } else {
                assert(r@ =~= before + seq!['&'] + field_of(pv[i as int]));
            }
        }
        i = i + 1;
    }
    assert(pv.subrange(0, params@.len() as int) =~= pv);
    r
}

/// The three headers of a private request, in order.
pub open spec fn headers_of(key: Seq<char>, signature: Seq<char>) -> Seq<Seq<char>> {
    seq![
        "Content-Type: application/x-www-form-urlencoded"@,
        "Key: "@ + key,
        "Sign: "@ + signature,
    ]
}

/// Builds the header lines: the form content type, the account key and the
/// signature.
pub fn auth_headers(key: &str, signature: &str) -> (r: Vec<String>)
    ensures
        r@.map_values(|h: String| h@) == headers_of(key@, signature@),
{
    let content_type = String::from_str("Content-Type: application/x-www-form-urlencoded");
    let mut key_line = String::from_str("Key: ");
    key_line.append(key);
    let mut sign_line = String::from_str("Sign: ");
    sign_line.append(signature);
    let mut r: Vec<String> = Vec::new();
    r.push(content_type);
    r.push(key_line);
    r.push(sign_line);
    assert(r@.map_values(|h: String| h@) =~= headers_of(key@, signature@));
    r
}

/// The nonce of a clock reading: the whole seconds since the Unix epoch
/// followed by the nanoseconds within that second, both in decimal.
pub open spec fn nonce_of(secs: nat, nanos: nat) -> Seq<char> {
    decimal_of(secs) + decimal_of(nanos)
}

/// Renders the nonce of the clock reading `secs`, `nanos`.
pub fn nonce_text(secs: u64, nanos: u32) -> (r: String)
    ensures
        r@ == nonce_of(secs as nat, nanos as nat),
{
    let mut r = to_decimal(secs);
    let n = to_decimal(nanos as u64);
    r.append(n.as_str());
    r
}

/// Relies on `SystemTime::elapsed` applied to `UNIX_EPOCH`: the time since
/// the epoch, `None` when the system clock reads earlier than the epoch. The
/// sub-second part of a `Duration` is below one billion nanoseconds.
#[verifier::external_body]
fn time_since_epoch() -> (r: Option<(u64, u32)>)
    ensures
        r matches Some(t) ==> t.1 < 1_000_000_000,
{
    std::time::UNIX_EPOCH.elapsed().ok().map(|d| (d.as_secs(), d.subsec_nanos()))
}

/// A fresh nonce from the system clock; `None` when the clock reads earlier
/// than the Unix epoch.
pub fn new_nonce() -> (r: Option<String>)
    ensures
        r matches Some(n) ==> exists|secs: u64, nanos: u32|
            nanos < 1_000_000_000 && n@ == nonce_of(secs as nat, nanos as nat),
{
    match time_since_epoch() {
        Some((secs, nanos)) => Some(nonce_text(secs, nanos)),
        None => None,
    }
}

/// Ten to the power `k`.
pub open spec fn pow10(k: nat) -> int
    decreases k,
{
    if k == 0 {
        1
    } else {
        10 * pow10((k - 1) as nat)
    }
}

/// The number that a string of decimal digits denotes.
pub open spec fn decimal_value(s: Seq<char>) -> int
    decreases s.len(),
{
    if s.len() == 0 {
        0
    } else {
        decimal_value(s.drop_last()) * 10 + (s.last() as int - '0' as int)
    }
}

proof fn lemma_pow10_positive(k: nat)
    ensures
        pow10(k) > 0,
    decreases k,
{
    if k > 0 {
        lemma_pow10_positive((k - 1) as nat);
    }
}

proof fn lemma_pow10_monotonic(a: nat, b: nat)
    requires
        a <= b,
    ensures
        pow10(a) <= pow10(b),
    decreases b,
{
    if a < b {
        lemma_pow10_monotonic(a, (b - 1) as nat);
        lemma_pow10_positive((b - 1) as nat);
    }
}

proof fn lemma_decimal_value_of(n: nat)
    ensures
        decimal_value(decimal_of(n)) == n,
        n < pow10(decimal_of(n).len()),
    decreases n,
{
    if n < 10 {
        assert(decimal_of(n).drop_last() =~= Seq::<char>::empty());
        assert(digit_char(n) as int == '0' as int + n);
        assert(decimal_value(Seq::<char>::empty()) == 0);
        assert(decimal_of(n).last() == digit_char(n));
        assert(pow10(1) == 10 * pow10(0));
    } else {
        lemma_decimal_value_of(n / 10);
        let d = decimal_of(n);
        assert(d.drop_last() =~= decimal_of(n / 10));
        assert(digit_char(n % 10) as int == '0' as int + n % 10);
        assert(d.last() == digit_char(n % 10));
        assert((n / 10) * 10 + n % 10 == n);
        assert(pow10(d.len()) == 10 * pow10(decimal_of(n / 10).len()));
    }
}

proof fn lemma_decimal_value_concat(a: Seq<char>, b: Seq<char>)
    ensures
        decimal_value(a + b) == decimal_value(a) * pow10(b.len()) + decimal_value(b),
    decreases b.len(),
{
    if b.len() == 0 {
        assert(a + b =~= a);
    } else {
        lemma_decimal_value_concat(a, b.drop_last());
        assert((a + b).drop_last() =~= a + b.drop_last());
        let va = decimal_value(a);
        let p = pow10((b.len() - 1) as nat);
        let vb = decimal_value(b.drop_last());
        assert((va * p + vb) * 10 == va * (10 * p) + vb * 10) by (nonlinear_arith);
    }
}

/// Nonces read from a clock that moved forward grow as numbers, provided the
/// later reading's nanoseconds take at least as many decimal digits as the
/// earlier one's (nanoseconds are not zero-padded, so `1` s `999` ns renders
/// as a larger number than `2` s `0` ns).
pub proof fn lemma_nonce_increases(secs1: nat, nanos1: nat, secs2: nat, nanos2: nat)
    requires
        secs1 < secs2 || (secs1 == secs2 && nanos1 < nanos2),
        decimal_of(nanos1).len() <= decimal_of(nanos2).len(),
    ensures
        decimal_value(nonce_of(secs1, nanos1)) < decimal_value(nonce_of(secs2, nanos2)),
{
    lemma_decimal_value_of(secs1);
    lemma_decimal_value_of(nanos1);
    lemma_decimal_value_of(secs2);
    lemma_decimal_value_of(nanos2);
    lemma_decimal_value_concat(decimal_of(secs1), decimal_of(nanos1));
    lemma_decimal_value_concat(decimal_of(secs2), decimal_of(nanos2));
    let p1 = pow10(decimal_of(nanos1).len());
    let p2 = pow10(decimal_of(nanos2).len());
    lemma_pow10_monotonic(decimal_of(nanos1).len(), decimal_of(nanos2).len());
    lemma_pow10_positive(decimal_of(nanos1).len());
    let s1 = secs1 as int;
    let s2 = secs2 as int;
    let n1 = nanos1 as int;
    let n2 = nanos2 as int;
    if secs1 < secs2 {
        assert(s1 * p1 + n1 < s2 * p2 + n2) by (nonlinear_arith)
            requires
                s1 < s2,
                0 <= s1,
                0 <= n1 < p1,
                0 < p1 <= p2,
                0 <= n2,
        {
            assert(s1 * p1 + n1 < (s1 + 1) * p1);
            assert((s1 + 1) * p1 <= s2 * p1);
            assert(s2 * p1 <= s2 * p2);
        }
    } else {
        assert(s1 * p1 + n1 < s2 * p2 + n2) by (nonlinear_arith)
            requires
                s1 == s2,
                0 <= s1,
                n1 < n2,
                0 < p1 <= p2,
        {
            assert(s1 * p1 <= s1 * p2);
        }
    }
}

/// The body and headers of a signed private request.
pub struct PrivateRequest {
    pub body: String,
    pub headers: Vec<String>,
}

/// Adds `nonce` as the last parameter, joins the parameters into the form
/// body, and signs that body with the account secret.
pub fn signed_request(account: &Account, params: &Vec<(String, String)>, nonce: &str) -> (r:
    PrivateRequest)
    ensures
        r.body@ == form_of(params_view(params@).push(("nonce"@, nonce@))),
        r.headers@.map_values(|h: String| h@) == headers_of(
            account.key@,
            signature_of(account.secret@, r.body@),
        ),
{
    let mut all: Vec<(String, String)> = Vec::new();
    let mut i: usize = 0;
    while i < params.len()
        invariant
            i <= params@.len(),
            all@.len() == i,
            forall|j: int|
                0 <= j < i ==> #[trigger] all@[j].0@ == params@[j].0@ && all@[j].1@
                    == params@[j].1@,
        decreases params@.len() - i,
    {
        let k = params[i].0.clone();
        let v = params[i].1.clone();
        all.push((k, v));
        i = i + 1;
    }
    all.push((String::from_str("nonce"), String::from_str(nonce)));
    assert(params_view(all@) =~= params_view(params@).push(("nonce"@, nonce@))) by {
        assert forall|j: int| 0 <= j < all@.len() implies #[trigger] params_view(all@)[j]
            == params_view(params@).push(("nonce"@, nonce@))[j] by {
            if j < params@.len() {
                assert(all@[j].0@ == params@[j].0@);
            }
        }
    }
    let body = form_body(&all);
    let signature = sign(account.secret.as_str(), body.as_str());
    let headers = auth_headers(account.key.as_str(), signature.as_str());
    PrivateRequest { body, headers }
}

} // verus!
