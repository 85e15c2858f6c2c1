use neutral::number::strip_leading_plus;
use neutral::{classify, ApiAuth, ApiError, Neutral};

const IP_INFO_BODY_EMPTY_TZ: &str = r#"{"ip":"128.0.0.1","valid":true,"is_v6":false,
    "is_v4_mapped":false,"is_bogon":false,"country":"ACountry","country_code":"AC",
    "country_code3":"ACO","continent_code":"EU","currency_code":"ABC","city":"Roubaix",
    "region":"Hauts-de-ACountry","longitude":1.0,"latitude":2.5,"hostname":"",
    "host_domain":"","timezone":{}}"#;

fn auth() -> ApiAuth {
    ApiAuth::new("User".to_string(), "test".to_string())
}

fn client() -> Neutral {
    Neutral::try_new("http://localhost:1234", auth()).unwrap()
}

fn ip_info_body(timezone: &str, valid_field: &str) -> Vec<u8> {
    format!(
        r#"{{"ip":"128.0.0.1","{}":true,"is_v6":false,"is_v4_mapped":false,
        "is_bogon":false,"country":"ACountry","country_code":"AC","country_code3":"ACO",
        "continent_code":"EU","currency_code":"ABC","city":"Roubaix",
        "region":"Hauts-de-ACountry","longitude":1.0,"latitude":1.0,"hostname":"",
        "host_domain":"","timezone":{},"extra_field":[1,2,3]}}"#,
        valid_field, timezone
    )
    .into_bytes()
}

#[test]
fn client_keeps_scheme_and_authority() {
    let n = Neutral::try_new("https://neutrinoapi.net", auth()).unwrap();
    assert_eq!(n.scheme(), "https");
    assert_eq!(n.authority(), "neutrinoapi.net");
    assert!(n.https_only());
    let local = client();
    assert_eq!(local.scheme(), "http");
    assert_eq!(local.authority(), "localhost:1234");
    assert!(!local.https_only());
}

#[test]
fn client_refuses_address_without_scheme_or_authority() {
    for base in ["localhost:1234", "/only/a/path", "not a uri", ""] {
        match Neutral::try_new(base, auth()) {
            Err(e) => assert_eq!(e, ApiError::InvalidBaseAddress, "{}", base),
            Ok(_) => panic!("accepted {}", base),
        }
    }
}

#[test]
fn every_request_carries_both_credentials() {
    let n = Neutral::try_new(
        "https://neutrinoapi.net",
        ApiAuth::new("my user".to_string(), "k3y-\u{e9}".to_string()),
    )
    .unwrap();
    let req = n.compose("/ip-info?output-case=snake&ip=1.2.3.4").unwrap();
    assert_eq!(req.target, "https://neutrinoapi.net/ip-info?output-case=snake&ip=1.2.3.4");
    assert_eq!(
        req.headers,
        vec![
            ("user-id".to_string(), "my user".to_string()),
            ("api-key".to_string(), "k3y-\u{e9}".to_string()),
        ]
    );
    let from_endpoint = n.phone_validate().request("+331").unwrap();
    assert_eq!(from_endpoint.headers, req.headers);
}

#[test]
fn credentials_are_not_shown_in_debug_output() {
    let shown = format!("{:?}", ApiAuth::new("secret-user".to_string(), "secret-key".to_string()));
    assert!(!shown.contains("secret-user"));
    assert!(!shown.contains("secret-key"));
}

#[test]
fn malformed_request_on_bad_header_or_query() {
    let bad_user = Neutral::try_new(
        "http://localhost:1234",
        ApiAuth::new("line\nbreak".to_string(), "test".to_string()),
    )
    .unwrap();
    assert_eq!(bad_user.ip_info().request("1.2.3.4").err(), Some(ApiError::MalformedRequest));
    let bad_key = Neutral::try_new(
        "http://localhost:1234",
        ApiAuth::new("User".to_string(), "del\u{7f}".to_string()),
    )
    .unwrap();
    assert_eq!(bad_key.compose("/x").err(), Some(ApiError::MalformedRequest));
    let n = client();
    assert_eq!(n.ip_probe().request("1.2.3.4 5").err(), Some(ApiError::MalformedRequest));
    assert_eq!(n.compose("/a b").err(), Some(ApiError::MalformedRequest));
}

#[test]
fn fragment_is_dropped_from_target() {
    let req = client().compose("/ip-info?ip=1#frag").unwrap();
    assert_eq!(req.target, "http://localhost:1234/ip-info?ip=1");
}

#[test]
fn phone_number_plus_is_stripped_in_query() {
    let n = client();
    let with_plus = n.phone_validate().request("+12345678901").unwrap();
    let without = n.phone_validate().request("12345678901").unwrap();
    assert_eq!(with_plus.target, without.target);
    assert_eq!(
        with_plus.target,
        "http://localhost:1234/phone-validate?output-case=snake&number=12345678901"
    );
    let hlr = n.hlr_lookup().request("+12345678901").unwrap();
    assert_eq!(
        hlr.target,
        "http://localhost:1234/hlr-lookup?output-case=snake&number=12345678901"
    );
}

#[test]
fn only_one_leading_plus_is_stripped() {
    assert_eq!(strip_leading_plus("+123"), "123");
    assert_eq!(strip_leading_plus("123"), "123");
    assert_eq!(strip_leading_plus("++1"), "+1");
    assert_eq!(strip_leading_plus("1+2"), "1+2");
    assert_eq!(strip_leading_plus(""), "");
    assert_eq!(strip_leading_plus("+"), "");
}

#[test]
fn status_200_yields_body() {
    assert_eq!(classify(200, b"{}".to_vec()), Ok(b"{}".to_vec()));
    assert_eq!(classify(200, vec![]), Ok(vec![]));
}

#[test]
fn non_200_is_remote_failure_with_raw_body() {
    for status in [400u16, 404, 500, 201, 204, 301, 302, 403] {
        let r = classify(status, b"rate limit exceeded".to_vec());
        assert_eq!(
            r,
            Err(ApiError::RemoteFailure {
                status,
                body: "rate limit exceeded".to_string()
            })
        );
    }
}

#[test]
fn remote_failure_body_is_decoded_lossily() {
    let r = classify(500, vec![b'o', b'k', 0xff]);
    assert_eq!(
        r,
        Err(ApiError::RemoteFailure {
            status: 500,
            body: "ok\u{fffd}".to_string()
        })
    );
}

#[test]
fn endpoint_remote_failure_is_not_decoded() {
    let n = client();
    let r = n.ip_info().response(403, b"forbidden".to_vec());
    assert_eq!(
        r.err(),
        Some(ApiError::RemoteFailure {
            status: 403,
            body: "forbidden".to_string()
        })
    );
    let r = n.ip_blocklist().response(404, b"rate limit exceeded".to_vec());
    assert_eq!(
        r.err(),
        Some(ApiError::RemoteFailure {
            status: 404,
            body: "rate limit exceeded".to_string()
        })
    );
    let body = IP_INFO_BODY_EMPTY_TZ.as_bytes().to_vec();
    let r = n.ip_info().response(500, body);
    assert!(matches!(r, Err(ApiError::RemoteFailure { status: 500, .. })));
}

#[test]
fn ip_info_empty_timezone_and_valid_alias() {
    let n = client();
    let req = n.ip_info().request("128.0.0.1").unwrap();
    assert!(req.target.ends_with("/ip-info?output-case=snake&ip=128.0.0.1"));
    let r = n.ip_info().response(200, IP_INFO_BODY_EMPTY_TZ.as_bytes().to_vec()).unwrap();
    assert!(r.is_valid);
    assert_eq!(r.timezone, None);
    assert_eq!(r.latitude, 2.5);
}

#[test]
fn nested_record_absent_null_or_present() {
    let n = client();
    let empty = n.ip_info().response(200, ip_info_body("{}", "valid")).unwrap();
    assert_eq!(empty.timezone, None);
    let null = n.ip_info().response(200, ip_info_body("null", "valid")).unwrap();
    assert_eq!(null.timezone, None);
    let tz = r#"{"id":"Europe/Paris","name":"CET name","abbr":"CET","date":"2021-11-24",
        "time":"12:47:33","offset":"+01:00"}"#;
    let full = n.ip_info().response(200, ip_info_body(tz, "valid")).unwrap();
    let zone = full.timezone.unwrap();
    assert_eq!(zone.id, "Europe/Paris");
    assert_eq!(zone.name, "CET name");
    assert_eq!(zone.offset, "+01:00");
}

#[test]
fn alias_fields_are_unified() {
    let n = client();
    let by_valid = n.ip_info().response(200, ip_info_body("null", "valid")).unwrap();
    assert!(by_valid.is_valid);
    let by_is_valid = n.ip_info().response(200, ip_info_body("null", "is_valid")).unwrap();
    assert!(by_is_valid.is_valid);
    let phone = br#"{"is_valid":false,"kind":"fixed-line","international_calling_code":"33",
        "international_number":"+331","local_number":"01","location":"L","country":"C",
        "country_code":"CC","country_code3":"CCC","currency_code":"EUR","is_mobile":false,
        "prefix_network":""}"#;
    let r = n.phone_validate().response(200, phone.to_vec()).unwrap();
    assert!(!r.is_valid);
    assert_eq!(r.kind, neutral_types::PhoneInfoKind::FixedLine);
}

#[test]
fn decode_error_keeps_raw_bytes() {
    let n = client();
    let bad = b"{\"valid\": \"yes\"}".to_vec();
    assert_eq!(n.ip_info().response(200, bad.clone()).err(), Some(ApiError::Decode(bad.clone())));
    assert_eq!(n.ip_probe().response(200, bad.clone()).err(), Some(ApiError::Decode(bad.clone())));
    assert_eq!(n.hlr_lookup().response(200, bad.clone()).err(), Some(ApiError::Decode(bad.clone())));
    assert_eq!(n.ip_blocklist().response(200, bad.clone()).err(), Some(ApiError::Decode(bad.clone())));
    assert_eq!(n.phone_validate().response(200, bad.clone()).err(), Some(ApiError::Decode(bad)));
    let not_json = b"rate limit exceeded".to_vec();
    assert_eq!(
        n.ip_info().response(200, not_json.clone()).err(),
        Some(ApiError::Decode(not_json))
    );
}
