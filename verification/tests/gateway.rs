// Scenario tests for the cookie gateway: lookups, writes, absence, and
// independence of separate calls.

use cookie_gateway::Cookie;
use cookie_gateway::CookieDetails;
use cookie_gateway::CookiePartitionKey;
use cookie_gateway::SameSiteStatus;
use cookie_gateway::SetCookieDetails;
use cookie_gateway::WireValue;
use cookie_gateway::decode_cookie;
use cookie_gateway::encode_cookie;
use cookie_gateway::encode_details;
use cookie_gateway::encode_set_details;

fn text(x: &str) -> String {
    x.to_string()
}

/// The host's response for a session cookie named `sid` on example.com.
fn sid_response() -> WireValue {
    WireValue::Object(vec![
        (text("domain"), WireValue::Str(text("example.com"))),
        (text("expirationDate"), WireValue::Absent),
        (text("hostOnly"), WireValue::Bool(true)),
        (text("httpOnly"), WireValue::Bool(false)),
        (text("name"), WireValue::Str(text("sid"))),
        (text("partitionKey"), WireValue::Absent),
        (text("path"), WireValue::Str(text("/"))),
        (text("sameSite"), WireValue::Str(text("strict"))),
        (text("secure"), WireValue::Bool(true)),
        (text("session"), WireValue::Bool(true)),
        (text("storeId"), WireValue::Str(text("0"))),
        (text("value"), WireValue::Str(text("opaque-token"))),
    ])
}

/// The host's response for a persistent `theme` cookie.
fn theme_response() -> WireValue {
    WireValue::Object(vec![
        (text("domain"), WireValue::Str(text("example.org"))),
        (text("expirationDate"), WireValue::Uint(1_900_000_000)),
        (text("hostOnly"), WireValue::Bool(false)),
        (text("httpOnly"), WireValue::Bool(false)),
        (text("name"), WireValue::Str(text("theme"))),
        (text("partitionKey"), WireValue::Absent),
        (text("path"), WireValue::Str(text("/app"))),
        (text("sameSite"), WireValue::Str(text("lax"))),
        (text("secure"), WireValue::Bool(false)),
        (text("session"), WireValue::Bool(false)),
        (text("storeId"), WireValue::Str(text("1"))),
        (text("value"), WireValue::Str(text("dark"))),
    ])
}

#[test]
fn get_scenario_returns_matching_cookie() {
    let query = CookieDetails {
        name: text("sid"),
        partition_key: None,
        store_id: None,
        url: text("https://example.com/"),
    };
    let encoded = encode_details(&query);
    let fields = match encoded {
        WireValue::Object(f) => f,
        _ => panic!("a lookup request must encode as an object"),
    };
    assert_eq!(fields.len(), 4);
    assert_eq!(fields[0].0, "name");
    assert!(matches!(&fields[0].1, WireValue::Str(s) if s == "sid"));
    assert_eq!(fields[1].0, "partitionKey");
    assert!(matches!(&fields[1].1, WireValue::Absent));
    assert_eq!(fields[2].0, "storeId");
    assert!(matches!(&fields[2].1, WireValue::Absent));
    assert_eq!(fields[3].0, "url");
    assert!(matches!(&fields[3].1, WireValue::Str(s) if s == "https://example.com/"));

    let got = decode_cookie(&sid_response()).expect("a well-shaped response decodes");
    let cookie = got.expect("the host holds a sid cookie");
    assert_eq!(cookie.name, "sid");
    assert_eq!(cookie.domain, "example.com");
    assert_eq!(cookie.path, "/");
    assert_eq!(cookie.same_site, SameSiteStatus::Strict);
    assert!(cookie.session);
    assert_eq!(cookie.expiration_date, None);
    assert!(cookie.secure);
    assert!(cookie.host_only);
    assert!(!cookie.http_only);
    assert_eq!(cookie.store_id, "0");
    assert_eq!(cookie.value, "opaque-token");
    assert_eq!(cookie.partition_key, None);
}

#[test]
fn set_scenario_returns_stored_cookie_and_get_sees_it() {
    let write = SetCookieDetails {
        domain: None,
        expiration_date: None,
        http_only: None,
        name: Some(text("a")),
        partition_key: None,
        path: None,
        same_site: None,
        secure: Some(true),
        store_id: None,
        url: text("https://example.com/"),
        value: Some(text("1")),
    };
    let encoded = encode_set_details(&write);
    let fields = match encoded {
        WireValue::Object(f) => f,
        _ => panic!("a write request must encode as an object"),
    };
    assert_eq!(fields.len(), 11);
    assert_eq!(fields[3].0, "name");
    assert!(matches!(&fields[3].1, WireValue::Str(s) if s == "a"));
    assert_eq!(fields[7].0, "secure");
    assert!(matches!(&fields[7].1, WireValue::Bool(true)));
    assert_eq!(fields[9].0, "url");
    assert!(matches!(&fields[9].1, WireValue::Str(s) if s == "https://example.com/"));
    assert_eq!(fields[10].0, "value");
    assert!(matches!(&fields[10].1, WireValue::Str(s) if s == "1"));

    // The host stores the cookie and answers the write with the record as
    // stored, defaults applied.
    let stored = Cookie {
        domain: text("example.com"),
        expiration_date: None,
        host_only: true,
        http_only: false,
        name: text("a"),
        partition_key: None,
        path: text("/"),
        same_site: SameSiteStatus::Unspecified,
        secure: true,
        session: true,
        store_id: text("0"),
        value: text("1"),
    };
    let set_reply = decode_cookie(&encode_cookie(&stored)).unwrap();
    assert_eq!(set_reply, Some(stored.clone()));

    // A lookup straight after is answered with the same record.
    let get_reply = decode_cookie(&encode_cookie(&stored)).unwrap();
    assert_eq!(get_reply, Some(stored));
    assert_eq!(set_reply, get_reply);
}

#[test]
fn concurrent_gets_do_not_cross_talk() {
    // Two lookups are in flight at once and the host resolves them out of
    // order: each decode still yields its own response's record, because
    // nothing is shared between the two calls.
    let sid_query = CookieDetails {
        name: text("sid"),
        partition_key: None,
        store_id: None,
        url: text("https://example.com/"),
    };
    let theme_query = CookieDetails {
        name: text("theme"),
        partition_key: None,
        store_id: None,
        url: text("https://example.org/app"),
    };
    // Both requests are encoded before either response arrives.
    let _sid_request = encode_details(&sid_query);
    let _theme_request = encode_details(&theme_query);
    // The second call's response arrives first.
    let theme_cookie = decode_cookie(&theme_response()).unwrap().unwrap();
    let sid_cookie = decode_cookie(&sid_response()).unwrap().unwrap();
    assert_eq!(theme_cookie.name, "theme");
    assert_eq!(theme_cookie.value, "dark");
    assert_eq!(theme_cookie.expiration_date, Some(1_900_000_000));
    assert_eq!(sid_cookie.name, "sid");
    assert_eq!(sid_cookie.value, "opaque-token");
    assert_eq!(sid_cookie.expiration_date, None);
}

#[test]
fn absent_response_is_none_for_get_and_set() {
    // The host's empty sentinel is a normal "no cookie" answer for both
    // operations, never a decode error.
    assert_eq!(decode_cookie(&WireValue::Absent), Ok(None));
}

#[test]
fn full_cookie_round_trips_through_the_wire() {
    let cookie = Cookie {
        domain: text(".example.com"),
        expiration_date: Some(1_234_567_890),
        host_only: false,
        http_only: true,
        name: text("session"),
        partition_key: Some(CookiePartitionKey {
            has_cross_site_ancestor: Some(true),
            top_level_site: Some(false),
        }),
        path: text("/account"),
        same_site: SameSiteStatus::NoRestriction,
        secure: true,
        session: false,
        store_id: text("firefox-private"),
        value: text("v=42"),
    };
    let decoded = decode_cookie(&encode_cookie(&cookie)).unwrap().unwrap();
    assert_eq!(decoded, cookie);
}

#[test]
fn session_cookie_round_trips_with_absent_optionals() {
    let cookie = Cookie {
        domain: text("example.net"),
        expiration_date: None,
        host_only: true,
        http_only: false,
        name: text(""),
        partition_key: None,
        path: text("/"),
        same_site: SameSiteStatus::Unspecified,
        secure: false,
        session: true,
        store_id: text("0"),
        value: text(""),
    };
    let decoded = decode_cookie(&encode_cookie(&cookie)).unwrap().unwrap();
    assert_eq!(decoded, cookie);
}

#[test]
fn partition_key_with_one_flag_round_trips() {
    let cookie = Cookie {
        domain: text("example.com"),
        expiration_date: None,
        host_only: true,
        http_only: false,
        name: text("part"),
        partition_key: Some(CookiePartitionKey {
            has_cross_site_ancestor: None,
            top_level_site: Some(true),
        }),
        path: text("/"),
        same_site: SameSiteStatus::Lax,
        secure: true,
        session: true,
        store_id: text("0"),
        value: text("x"),
    };
    let decoded = decode_cookie(&encode_cookie(&cookie)).unwrap().unwrap();
    assert_eq!(decoded, cookie);
}
