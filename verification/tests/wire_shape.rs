// Tests of the wire format itself: the exact sameSite tags, the handling
// of malformed host responses, and the lookup rules on objects.

use cookie_gateway::DecodeError;
use cookie_gateway::SameSiteStatus;
use cookie_gateway::WireValue;
use cookie_gateway::decode_cookie;
use cookie_gateway::parse_same_site;
use cookie_gateway::same_site_tag;

fn text(x: &str) -> String {
    x.to_string()
}

/// A well-shaped response object; single fields are replaced or removed by
/// the tests below.
fn base_fields() -> Vec<(String, WireValue)> {
    vec![
        (text("domain"), WireValue::Str(text("example.com"))),
        (text("expirationDate"), WireValue::Uint(1_700_000_000)),
        (text("hostOnly"), WireValue::Bool(true)),
        (text("httpOnly"), WireValue::Bool(false)),
        (text("name"), WireValue::Str(text("sid"))),
        (text("partitionKey"), WireValue::Absent),
        (text("path"), WireValue::Str(text("/"))),
        (text("sameSite"), WireValue::Str(text("no_restriction"))),
        (text("secure"), WireValue::Bool(true)),
        (text("session"), WireValue::Bool(false)),
        (text("storeId"), WireValue::Str(text("0"))),
        (text("value"), WireValue::Str(text("abc"))),
    ]
}

fn without(key: &str) -> WireValue {
    WireValue::Object(base_fields().into_iter().filter(|f| f.0 != key).collect())
}

fn with(key: &str, value: WireValue) -> WireValue {
    let mut fields: Vec<(String, WireValue)> = base_fields()
        .into_iter()
        .filter(|f| f.0 != key)
        .collect();
    fields.push((text(key), value));
    WireValue::Object(fields)
}

#[test]
fn each_same_site_variant_has_its_exact_tag() {
    assert_eq!(same_site_tag(SameSiteStatus::NoRestriction), "no_restriction");
    assert_eq!(same_site_tag(SameSiteStatus::Lax), "lax");
    assert_eq!(same_site_tag(SameSiteStatus::Strict), "strict");
    assert_eq!(same_site_tag(SameSiteStatus::Unspecified), "unspecified");
}

#[test]
fn each_same_site_tag_parses_back_to_its_variant() {
    for variant in [
        SameSiteStatus::NoRestriction,
        SameSiteStatus::Lax,
        SameSiteStatus::Strict,
        SameSiteStatus::Unspecified,
    ] {
        assert_eq!(parse_same_site(&same_site_tag(variant)), Some(variant));
    }
}

#[test]
fn no_other_same_site_string_is_accepted() {
    for wrong in ["Strict", "LAX", "none", "no-restriction", "", "lax ", "strict\n"] {
        assert_eq!(parse_same_site(&text(wrong)), None);
    }
}

#[test]
fn missing_same_site_is_a_missing_field_error() {
    assert_eq!(decode_cookie(&without("sameSite")), Err(DecodeError::MissingField));
}

#[test]
fn missing_domain_is_a_missing_field_error() {
    assert_eq!(decode_cookie(&without("domain")), Err(DecodeError::MissingField));
}

#[test]
fn empty_required_field_is_a_missing_field_error() {
    assert_eq!(
        decode_cookie(&with("httpOnly", WireValue::Absent)),
        Err(DecodeError::MissingField)
    );
}

#[test]
fn wrong_typed_domain_is_a_wrong_type_error() {
    assert_eq!(
        decode_cookie(&with("domain", WireValue::Bool(true))),
        Err(DecodeError::WrongFieldType)
    );
}

#[test]
fn wrong_typed_expiration_is_a_wrong_type_error() {
    assert_eq!(
        decode_cookie(&with("expirationDate", WireValue::Str(text("soon")))),
        Err(DecodeError::WrongFieldType)
    );
}

#[test]
fn wrong_typed_partition_key_is_a_wrong_type_error() {
    assert_eq!(
        decode_cookie(&with("partitionKey", WireValue::Str(text("site")))),
        Err(DecodeError::WrongFieldType)
    );
}

#[test]
fn wrong_typed_partition_key_flag_is_a_wrong_type_error() {
    let bad_key = WireValue::Object(vec![
        (text("hasCrossSiteAncestor"), WireValue::Uint(1)),
    ]);
    assert_eq!(
        decode_cookie(&with("partitionKey", bad_key)),
        Err(DecodeError::WrongFieldType)
    );
}

#[test]
fn unknown_same_site_tag_is_its_own_error() {
    assert_eq!(
        decode_cookie(&with("sameSite", WireValue::Str(text("weird")))),
        Err(DecodeError::UnknownSameSiteTag)
    );
}

#[test]
fn capitalised_same_site_tag_is_rejected() {
    assert_eq!(
        decode_cookie(&with("sameSite", WireValue::Str(text("Strict")))),
        Err(DecodeError::UnknownSameSiteTag)
    );
}

#[test]
fn non_object_responses_are_not_an_object_errors() {
    assert_eq!(decode_cookie(&WireValue::Bool(true)), Err(DecodeError::NotAnObject));
    assert_eq!(decode_cookie(&WireValue::Uint(7)), Err(DecodeError::NotAnObject));
    assert_eq!(decode_cookie(&WireValue::Str(text("ok"))), Err(DecodeError::NotAnObject));
    assert_eq!(decode_cookie(&WireValue::Opaque), Err(DecodeError::NotAnObject));
}

#[test]
fn unknown_fields_are_ignored() {
    let reply = decode_cookie(&with("color", WireValue::Str(text("blue"))));
    let cookie = reply.unwrap().unwrap();
    assert_eq!(cookie.domain, "example.com");
    assert_eq!(cookie.same_site, SameSiteStatus::NoRestriction);
}

#[test]
fn first_binding_of_a_duplicated_key_wins() {
    let mut fields = base_fields();
    fields.push((text("domain"), WireValue::Str(text("shadow.example"))));
    let cookie = decode_cookie(&WireValue::Object(fields)).unwrap().unwrap();
    assert_eq!(cookie.domain, "example.com");
}

#[test]
fn partition_key_object_with_no_flags_decodes_to_default_flags() {
    let empty_key = WireValue::Object(vec![]);
    let cookie = decode_cookie(&with("partitionKey", empty_key)).unwrap().unwrap();
    let pk = cookie.partition_key.expect("an empty object is still a partition key");
    assert_eq!(pk.has_cross_site_ancestor, None);
    assert_eq!(pk.top_level_site, None);
}
