use roblox_group_finder::api::{
    code_text, decide_response, ApiError, ApiErrors, Error, InnerApiError, ResultDef,
    TransportError, UntaggedResult,
};
use roblox_group_finder::cookies::CookieJar;
use roblox_group_finder::endpoints::{
    authenticated_user_url, batch_info_url, claim_group_url, detailed_info_url, group_funds_url,
    join_group_url, metadata_url, natural_string, remove_user_url,
};
use roblox_group_finder::ids::Id;
use roblox_group_finder::request::{
    plan_request, CsrfExchange, CsrfToken, Method, RequestBody, ResponseStep,
};
use roblox_group_finder::status::ThroughputMeter;

fn envelope(code: i8, message: &str, user_facing: Option<&str>) -> ApiErrors {
    ApiErrors {
        errors: vec![InnerApiError {
            code,
            message: message.to_string(),
            user_facing_message: user_facing.map(|m| m.to_string()),
        }],
    }
}

#[test]
fn api_error_envelope_renders_code_and_message() {
    let error = ApiError::from_envelope(envelope(1, "x", None));
    assert_eq!(error.code, 1);
    assert_eq!(error.message, "x");
    let text = error.describe();
    assert!(text.contains('1') && text.contains('x'));
    assert_eq!(text, "1: x");
    assert_eq!(Error::Api(error).describe(), "roblox api error: 1: x");
}

#[test]
fn display_prefers_user_facing_message() {
    let error = ApiError::from_envelope(envelope(-128, "internal", Some("Try later")));
    assert_eq!(error.display_error_message(), "Try later");
    assert_eq!(error.describe(), "-128: Try later");
    let plain = ApiError::from_envelope(envelope(127, "internal", None));
    assert_eq!(plain.display_error_message(), "internal");
}

#[test]
fn error_codes_render_in_decimal() {
    assert_eq!(code_text(0), "0");
    assert_eq!(code_text(7), "7");
    assert_eq!(code_text(42), "42");
    assert_eq!(code_text(100), "100");
    assert_eq!(code_text(-5), "-5");
    assert_eq!(code_text(i8::MIN), "-128");
}

#[test]
fn transport_error_renders() {
    let e = Error::Transport(TransportError { message: "timed out".to_string() });
    assert_eq!(e.describe(), "request error: timed out");
    assert!(!e.is_rate_limited());
    assert!(!e.is_captcha());
}

#[test]
fn error_kinds_match_exactly() {
    let api = |m: &str| {
        Error::Api(ApiError { code: 0, message: m.to_string(), user_facing_message: None })
    };
    assert!(api("Too many requests").is_rate_limited());
    assert!(!api("Too many requests.").is_rate_limited());
    assert!(!api("too many requests").is_rate_limited());
    assert!(api("Captcha").is_captcha());
    assert!(!api("Captcha").is_rate_limited());
}

#[test]
fn untagged_parsing_prefers_success() {
    let both: Option<Result<u32, ApiError>> = decide_response(Some(5), Some(envelope(1, "x", None)));
    assert!(matches!(both, Some(Ok(5))));
    let only_error: Option<Result<u32, ApiError>> = decide_response(None, Some(envelope(3, "bad", None)));
    match only_error {
        Some(Err(e)) => assert_eq!((e.code, e.message.as_str()), (3, "bad")),
        _ => panic!("expected an API error"),
    }
    let neither: Option<Result<u32, ApiError>> = decide_response(None, None);
    assert!(neither.is_none());
}

#[test]
fn untagged_result_from_definition() {
    let ok: UntaggedResult<u8, ApiError> = UntaggedResult::from_def(ResultDef::Value(3));
    assert!(matches!(ok.0, Ok(3)));
    let err: UntaggedResult<u8, u8> = UntaggedResult::from_def(ResultDef::Failure(9));
    assert!(matches!(err.0, Err(9)));
}

#[test]
fn csrf_bootstrap() {
    let mut token = CsrfToken::new();
    let first = plan_request(Method::Post, false, &token);
    assert_eq!(first.body, RequestBody::Empty);
    assert_eq!(
        first.headers,
        vec![
            ("Content-Length".to_string(), "0".to_string()),
            ("Content-Type".to_string(), "application/json".to_string()),
        ]
    );
    let mut exchange = CsrfExchange::new();
    match exchange.on_response(&mut token, Some("abc".to_string())) {
        ResponseStep::Resend(t) => assert_eq!(t, "abc"),
        ResponseStep::Finish => panic!("expected a resend"),
    }
    assert_eq!(token.token.as_deref(), Some("abc"));
    assert_eq!(exchange.sends(), 2);
    let resend = plan_request(Method::Post, false, &token);
    assert_eq!(resend.headers.last().unwrap(), &("X-CSRF-TOKEN".to_string(), "abc".to_string()));
    // A second challenge is not answered: the response is read as it is.
    assert!(matches!(
        exchange.on_response(&mut token, Some("def".to_string())),
        ResponseStep::Finish
    ));
    assert_eq!(token.token.as_deref(), Some("abc"));
    assert_eq!(exchange.sends(), 2);
}

#[test]
fn response_without_token_is_read() {
    let mut token = CsrfToken::new();
    let mut exchange = CsrfExchange::new();
    assert!(matches!(exchange.on_response(&mut token, None), ResponseStep::Finish));
    assert!(token.token.is_none());
    assert_eq!(exchange.sends(), 1);
}

#[test]
fn get_requests_carry_no_token() {
    let token = CsrfToken { token: Some("abc".to_string()) };
    let plan = plan_request(Method::Get, false, &token);
    assert!(plan.headers.is_empty());
    let plan = plan_request(Method::Delete, true, &token);
    assert_eq!(plan.body, RequestBody::Json);
    assert_eq!(plan.headers, vec![("X-CSRF-TOKEN".to_string(), "abc".to_string())]);
}

#[test]
fn cookie_jar_operations() {
    let mut jar = CookieJar::new("secret");
    assert_eq!(jar.get_cookie(".ROBLOSECURITY").as_deref(), Some("secret"));
    assert_eq!(jar.header_value().as_deref(), Some(".ROBLOSECURITY=secret"));
    jar.insert_cookie("RBXEventTrackerV2", "browserid=1");
    assert_eq!(
        jar.header_value().as_deref(),
        Some(".ROBLOSECURITY=secret; RBXEventTrackerV2=browserid=1")
    );
    jar.set_auth_cookie("other");
    assert_eq!(
        jar.header_value().as_deref(),
        Some(".ROBLOSECURITY=other; RBXEventTrackerV2=browserid=1")
    );
    jar.remove_cookie(".ROBLOSECURITY");
    assert_eq!(jar.get_cookie(".ROBLOSECURITY"), None);
    assert_eq!(jar.header_value().as_deref(), Some("RBXEventTrackerV2=browserid=1"));
    jar.remove_cookie("missing");
    jar.clear_cookies();
    assert_eq!(jar.header_value(), None);
}

#[test]
fn cookie_header_segments_ignore_insertion_order() {
    let mut a = CookieJar::new("s");
    a.insert_cookie("x", "1");
    a.insert_cookie("y", "2");
    let mut b = CookieJar::new("s");
    b.insert_cookie("y", "2");
    b.insert_cookie("x", "1");
    let segments = |j: &CookieJar| {
        let mut v: Vec<String> =
            j.header_value().unwrap().split("; ").map(|s| s.to_string()).collect();
        v.sort();
        v
    };
    assert_eq!(segments(&a), segments(&b));
    assert_eq!(segments(&a), vec![".ROBLOSECURITY=s", "x=1", "y=2"]);
}

#[test]
fn endpoint_addresses() {
    let id = |v: u64| Id::new(v).unwrap();
    assert_eq!(
        batch_info_url(&vec![id(1), id(20), id(300)]),
        "https://groups.roblox.com/v2/groups?groupIds=1,20,300"
    );
    assert_eq!(batch_info_url(&Vec::new()), "https://groups.roblox.com/v2/groups?groupIds=");
    assert_eq!(detailed_info_url(id(42)), "https://groups.roblox.com/v1/groups/42");
    assert_eq!(metadata_url(), "https://groups.roblox.com/v1/groups/metadata");
    assert_eq!(authenticated_user_url(), "https://users.roblox.com/v1/users/authenticated");
    assert_eq!(group_funds_url(id(42)), "https://economy.roblox.com/v1/groups/42/currency");
    assert_eq!(join_group_url(id(42)), "https://groups.roblox.com/v1/groups/42/users");
    assert_eq!(claim_group_url(id(42)), "https://groups.roblox.com/v1/groups/42/claim-ownership");
    assert_eq!(remove_user_url(id(42), id(1001)), "https://groups.roblox.com/v1/groups/42/users/1001");
    assert_eq!(natural_string(9223372036854775807), "9223372036854775807");
    assert_eq!(natural_string(0), "0");
}

#[test]
fn throughput_average() {
    let mut meter = ThroughputMeter::new();
    assert_eq!(meter.average(), 0);
    meter.record(100);
    meter.record(201);
    assert_eq!(meter.average(), 150);
    for _ in 0..10 {
        meter.record(10);
    }
    assert_eq!(meter.average(), 10);
    // The samples' sum has room for u64::MAX - 100 more.
    meter.record(u64::MAX);
    assert_eq!(meter.average(), (9 * 10 + (u64::MAX - 100)) / 10);
}

#[test]
fn large_counts_are_recorded_whole() {
    let mut meter = ThroughputMeter::new();
    meter.record(1 << 32);
    assert_eq!(meter.average(), 1 << 32);
    meter.record(u64::MAX / 4);
    assert_eq!(meter.average(), ((1u64 << 32) + u64::MAX / 4) / 2);
}

#[test]
fn envelope_with_several_errors_uses_the_first() {
    let mut several = envelope(5, "first", None);
    several.errors.push(InnerApiError {
        code: 6,
        message: "second".to_string(),
        user_facing_message: None,
    });
    let decided: Option<Result<u8, ApiError>> = decide_response(None, Some(several));
    match decided {
        Some(Err(e)) => assert_eq!((e.code, e.message.as_str()), (5, "first")),
        _ => panic!("expected the first error"),
    }
    let empty: Option<Result<u8, ApiError>> =
        decide_response(None, Some(ApiErrors { errors: Vec::new() }));
    assert!(empty.is_none());
}

#[test]
fn conversions_from_wire_shapes() {
    let value: UntaggedResult<u8, ApiError> = UntaggedResult::from(ResultDef::Value(1));
    assert!(matches!(value.0, Ok(1)));
    let failure: UntaggedResult<u8, ApiError> =
        UntaggedResult::from(ResultDef::Failure(ApiError::from_envelope(envelope(2, "y", None))));
    assert!(matches!(failure.0, Err(e) if e.code == 2));
}
