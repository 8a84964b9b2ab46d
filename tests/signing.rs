use poloniex::signer::{
    auth_headers, form_body, new_nonce, nonce_text, sign, signed_request, Account,
};
use poloniex::text::{to_decimal, to_lower_hex};

fn pairs(items: &[(&str, &str)]) -> Vec<(String, String)> {
    items.iter().map(|(k, v)| (k.to_string(), v.to_string())).collect()
}

#[test]
fn signature_matches_known_vector() {
    let s = sign("abc", "command=returnBalances&nonce=1");
    assert_eq!(
        s,
        "837b529bdd388c0a40cbe371d08c376f8ffed5631638ed60057f2aad95d1c46251cf7ae928cc7296d4c7950931197fc03dbffdd67e99c5eefcb8cd3b563567d7"
    );
}

#[test]
fn signature_matches_published_vector() {
    let s = sign("key", "The quick brown fox jumps over the lazy dog");
    assert_eq!(
        s,
        "b42af09057bac1e2d41708e48a902e09b5ff7f12ab428a4fe86653c73dd248fb82f948a549f7b791a5b41915ee4d1ec3935357e4e2317250d0372afa2ebeeb3a"
    );
}

#[test]
fn signature_is_reproducible() {
    let a = sign("abc", "command=returnBalances&nonce=1");
    let b = sign("abc", "command=returnBalances&nonce=1");
    assert_eq!(a, b);
    assert_eq!(a.len(), 128);
    assert_ne!(a, sign("abd", "command=returnBalances&nonce=1"));
    assert_ne!(a, sign("abc", "command=returnBalances&nonce=2"));
}

#[test]
fn hex_is_lowercase_two_digits_per_byte() {
    assert_eq!(to_lower_hex(&[0x00, 0x0f, 0xa5, 0xff]), "000fa5ff");
    assert_eq!(to_lower_hex(&[]), "");
}

#[test]
fn decimal_has_no_leading_zeros() {
    assert_eq!(to_decimal(0), "0");
    assert_eq!(to_decimal(7), "7");
    assert_eq!(to_decimal(1_500_000_000), "1500000000");
    assert_eq!(to_decimal(u64::MAX), "18446744073709551615");
}

#[test]
fn nonce_concatenates_seconds_and_nanoseconds() {
    assert_eq!(nonce_text(1_500_000_000, 123_456_789), "1500000000123456789");
    assert_eq!(nonce_text(1_500_000_000, 5), "15000000005");
    assert_eq!(nonce_text(0, 0), "00");
}

#[test]
fn nonces_grow_with_the_clock() {
    let a: u128 = nonce_text(1_500_000_000, 123_456_789).parse().unwrap();
    let b: u128 = nonce_text(1_500_000_000, 123_456_790).parse().unwrap();
    let c: u128 = nonce_text(1_500_000_001, 100_000_000).parse().unwrap();
    assert!(a < b);
    assert!(b < c);
}

#[test]
fn unpadded_nanoseconds_can_break_the_order() {
    let earlier: u128 = nonce_text(1, 999).parse().unwrap();
    let later: u128 = nonce_text(2, 0).parse().unwrap();
    assert!(earlier > later);
}

#[test]
fn fresh_nonce_is_decimal() {
    let n = new_nonce().unwrap();
    assert!(!n.is_empty());
    assert!(n.chars().all(|c| c.is_ascii_digit()));
    let m = new_nonce().unwrap();
    assert!(m.chars().all(|c| c.is_ascii_digit()));
}

#[test]
fn form_body_joins_in_order() {
    assert_eq!(form_body(&pairs(&[])), "");
    assert_eq!(form_body(&pairs(&[("a", "1")])), "a=1");
    assert_eq!(form_body(&pairs(&[("b", "2"), ("a", "1")])), "b=2&a=1");
    assert_eq!(form_body(&pairs(&[("k", "x y&z")])), "k=x y&z");
}

#[test]
fn headers_carry_key_and_signature() {
    let h = auth_headers("my-key", "abcd");
    assert_eq!(
        h,
        vec![
            "Content-Type: application/x-www-form-urlencoded".to_string(),
            "Key: my-key".to_string(),
            "Sign: abcd".to_string(),
        ]
    );
}

#[test]
fn signed_request_appends_nonce_and_signs_body() {
    let account = Account { key: "K".to_string(), secret: "abc".to_string() };
    let r = signed_request(&account, &pairs(&[("command", "returnBalances")]), "1");
    assert_eq!(r.body, "command=returnBalances&nonce=1");
    assert_eq!(r.headers.len(), 3);
    assert_eq!(r.headers[1], "Key: K");
    assert_eq!(
        r.headers[2],
        "Sign: 837b529bdd388c0a40cbe371d08c376f8ffed5631638ed60057f2aad95d1c46251cf7ae928cc7296d4c7950931197fc03dbffdd67e99c5eefcb8cd3b563567d7"
    );
}
