use timez::clock::{instant_text, parse_instant};
use timez::text::{format_duration, int_to_string};
use timez::url::{
    callback_outcome, callback_path, extract_query_param, google_auth_url, loopback_redirect_uri,
    urldecd, urlencod, CallbackOutcome,
};

#[test]
fn format_duration_examples() {
    assert_eq!(format_duration(45), "45 sec");
    assert_eq!(format_duration(90), "1 min 30 sec");
    assert_eq!(format_duration(3665), "1 hr 1 min");
}

#[test]
fn format_duration_edges() {
    assert_eq!(format_duration(0), "0 sec");
    assert_eq!(format_duration(-5), "-5 sec");
    assert_eq!(format_duration(59), "59 sec");
    assert_eq!(format_duration(60), "1 min");
    assert_eq!(format_duration(3599), "59 min 59 sec");
    assert_eq!(format_duration(3600), "1 hr");
    assert_eq!(format_duration(7260), "2 hr 1 min");
    assert_eq!(format_duration(3659), "1 hr");
}

#[test]
fn int_text_matches_display() {
    for v in [0i64, 7, -7, 10, 1234567890, i64::MAX, i64::MIN] {
        assert_eq!(int_to_string(v), v.to_string());
    }
}

#[test]
fn urlencod_escapes_the_oauth_characters() {
    assert_eq!(urlencod("http://127.0.0.1:8080"), "http%3A%2F%2F127.0.0.1%3A8080");
    assert_eq!(urlencod("a b&c=d+e%f"), "a%20b%26c%3Dd%2Be%25f");
    assert_eq!(urlencod("plain-text_é"), "plain-text_é");
    assert_eq!(urlencod(""), "");
}

#[test]
fn urldecd_decodes_escapes_and_plus() {
    assert_eq!(urldecd("a%20b+c"), "a b c");
    assert_eq!(urldecd("4%2F0AX"), "4/0AX");
    assert_eq!(urldecd("%41%62"), "Ab");
    // invalid escapes are dropped with the two characters they took
    assert_eq!(urldecd("x%zzy"), "xy");
    assert_eq!(urldecd("x%4"), "x\u{4}");
    assert_eq!(urldecd("x%"), "x");
    // a sign before one digit is accepted, as `u8::from_str_radix` does
    assert_eq!(urldecd("%+9"), "\u{9}");
    assert_eq!(urldecd("%E9"), "é");
}

#[test]
fn decode_inverts_encode() {
    for s in ["", "a b", "100%", "x=y&z", "http://h:1/p?q", "+/:", "ünï cödé"] {
        assert_eq!(urldecd(&urlencod(s)), s);
    }
}

#[test]
fn extract_query_param_cases() {
    assert_eq!(extract_query_param("/?code=abc&scope=xyz", "code"), Some("abc".to_string()));
    assert_eq!(extract_query_param("/?code=abc&scope=xyz", "scope"), Some("xyz".to_string()));
    assert_eq!(extract_query_param("/?code=abc&scope=xyz", "state"), None);
    assert_eq!(extract_query_param("/no-query", "code"), None);
    assert_eq!(extract_query_param("/?code=4%2F0A+b", "code"), Some("4/0A b".to_string()));
    // the first pair with the name decides, even without a value
    assert_eq!(extract_query_param("/?code&code=x", "code"), None);
    // the query ends at a second '?'
    assert_eq!(extract_query_param("/?a=1?b=2", "b"), None);
    assert_eq!(extract_query_param("/?a=1?b=2", "a"), Some("1".to_string()));
    assert_eq!(extract_query_param("/?a==1", "a"), Some("=1".to_string()));
    assert_eq!(extract_query_param("/?=v", ""), Some("v".to_string()));
}

#[test]
fn encoded_parameter_is_read_back() {
    let value = "http://127.0.0.1:4242 & more";
    let path = format!("/?redirect_uri={}", urlencod(value));
    assert_eq!(extract_query_param(&path, "redirect_uri"), Some(value.to_string()));
}

#[test]
fn callback_path_takes_the_request_target() {
    assert_eq!(callback_path("GET /?code=abc HTTP/1.1\r\nHost: x\r\n\r\n"), "/?code=abc");
    assert_eq!(callback_path("GET   /p  HTTP/1.1"), "/p");
    assert_eq!(callback_path("GET"), "");
    assert_eq!(callback_path(""), "");
    assert_eq!(callback_path("\r\nGET /x HTTP/1.1"), "");
}

#[test]
fn callback_outcome_prefers_the_error() {
    assert_eq!(
        callback_outcome("GET /?code=4%2F0A&scope=email HTTP/1.1\r\n"),
        CallbackOutcome::Code("4/0A".to_string())
    );
    assert_eq!(
        callback_outcome("GET /?error=access_denied&code=x HTTP/1.1\r\n"),
        CallbackOutcome::Denied("access_denied".to_string())
    );
    assert_eq!(callback_outcome("GET /favicon.ico HTTP/1.1\r\n"), CallbackOutcome::NoCode);
}

#[test]
fn callback_outcome_results() {
    assert_eq!(CallbackOutcome::Code("c".to_string()).into_result(), Ok("c".to_string()));
    assert_eq!(
        CallbackOutcome::Denied("access_denied".to_string()).into_result(),
        Err("OAuth error: access_denied".to_string())
    );
    assert_eq!(
        CallbackOutcome::NoCode.into_result(),
        Err("No authorization code in callback".to_string())
    );
}

#[test]
fn sign_in_urls() {
    assert_eq!(loopback_redirect_uri(4242), "http://127.0.0.1:4242");
    assert_eq!(
        google_auth_url("my id", "http://127.0.0.1:4242"),
        "https://accounts.google.com/o/oauth2/v2/auth?client_id=my%20id&redirect_uri=http%3A%2F%2F127.0.0.1%3A4242&response_type=code&scope=email%20profile%20openid&access_type=offline"
    );
}

#[test]
fn instants_as_rfc3339_text() {
    assert_eq!(instant_text(0), "1970-01-01T00:00:00+00:00");
    assert_eq!(instant_text(1_700_000_000_000_000_000), "2023-11-14T22:13:20+00:00");
    assert_eq!(parse_instant("1970-01-01T00:00:00+00:00"), Some(0));
    assert_eq!(parse_instant("2023-11-14T23:13:20+01:00"), Some(1_700_000_000_000_000_000));
    assert_eq!(parse_instant("not a time"), None);
    assert_eq!(parse_instant(&instant_text(123_456_789)), Some(123_456_789));
}
