use codexbar::binary64::Binary64;
use codexbar::bridge::{
    accepted_response, cache_filename, check_origin, encode_frame, frame_length, origins_from_file,
    parse_allowed_origins, parse_push, read_frame, refused_response, valid_extension_origin, validate_aihubmix_push,
    validate_gemini_api_push, validate_gemini_apps_push, BrowserPush, FrameRead, MAX_FRAME_BYTES,
};
use codexbar::json::Json;
use serde_json::Value;

fn b(x: f64) -> Binary64 {
    Binary64 { bits: x.to_bits() }
}

fn valid_json() -> Vec<u8> {
    br#"{
        "version": 1,
        "provider": "gemini-apps",
        "observed_at": 1787990400,
        "payload": {
            "account_id": "0",
            "plan": "Pro",
            "source": "jSf9Qc",
            "current": {"label": "Current usage", "used_percent": 25.0, "resets_at": "2026-08-29T12:00:00Z"},
            "weekly": {"label": "Weekly limit", "used_percent": 10.0, "resets_at": "2026-09-03T12:00:00Z"}
        }
    }"#
    .to_vec()
}

fn valid_spend_json() -> Vec<u8> {
    br#"{
        "version": 1,
        "provider": "gemini-api",
        "observed_at": 1788400000,
        "payload": {
            "used": 5.0,
            "cap_used": 12.5,
            "limit": 50.0,
            "currency": "USD",
            "period": "Current month",
            "resets_at": null,
            "scope": "Project Demo",
            "source": "dom"
        }
    }"#
    .to_vec()
}

fn valid_aihubmix_json() -> Vec<u8> {
    br#"{
        "version": 1,
        "provider": "aihubmix",
        "observed_at": 1788500000,
        "payload": {"funded_balance_usd": 10.0, "funding_created_at": 1788400000, "source": "network"}
    }"#
    .to_vec()
}

fn edited(bytes: Vec<u8>, edit: impl Fn(&mut Value)) -> Vec<u8> {
    let mut value: Value = serde_json::from_slice(&bytes).unwrap();
    edit(&mut value);
    serde_json::to_vec(&value).unwrap()
}

fn refusal(bytes: Vec<u8>) -> String {
    parse_push(&bytes).unwrap_err()
}

#[test]
fn accepts_only_the_secret_free_wire_contract() {
    let push = parse_push(&valid_json()).unwrap();
    let BrowserPush::GeminiApps(push) = push else {
        panic!("wrong provider")
    };
    assert_eq!(push.provider, "gemini-apps");
    assert_eq!(push.payload.current.used_percent, b(25.0));
    assert_eq!(push.payload.weekly.used_percent, b(10.0));
}

#[test]
fn accepts_sanitized_gemini_api_spend_contract() {
    let push = parse_push(&valid_spend_json()).unwrap();
    let BrowserPush::GeminiApi(push) = push else {
        panic!("wrong provider")
    };
    assert_eq!(push.payload.used, b(5.0));
    assert_eq!(push.payload.cap_used, Some(b(12.5)));
    assert_eq!(push.payload.limit, Some(b(50.0)));
    assert_eq!(push.payload.currency, "USD");
}

#[test]
fn accepts_sanitized_aihubmix_recharge_contract() {
    let push = parse_push(&valid_aihubmix_json()).unwrap();
    let BrowserPush::AiHubMix(push) = push else {
        panic!("wrong provider")
    };
    assert_eq!(push.payload.funded_balance_usd, b(10.0));
    assert_eq!(push.payload.funding_created_at, Some(1_788_400_000));
    assert_eq!(push.payload.source, "network");
}

#[test]
fn unknown_token_or_cookie_fields_are_rejected() {
    let secret = || Value::String("must-not-cross-boundary".to_string());
    assert!(parse_push(&edited(valid_json(), |v| v["payload"]["token"] = secret())).is_err());
    assert!(parse_push(&edited(valid_spend_json(), |v| v["payload"]["billing_account_id"] = secret())).is_err());
    assert!(parse_push(&edited(valid_json(), |v| v["payload"]["cookie"] = secret())).is_err());
    for field in ["access_token", "authorization", "cookie", "records"] {
        assert!(parse_push(&edited(valid_aihubmix_json(), |v| v["payload"][field] = secret())).is_err());
    }
    assert!(parse_push(&edited(valid_json(), |v| v["cookie"] = secret())).is_err());
    assert!(parse_push(&edited(valid_json(), |v| v["payload"]["weekly"]["token"] = secret())).is_err());
}

#[test]
fn invalid_percentages_and_partial_windows_fail_closed() {
    assert!(parse_push(&edited(valid_json(), |v| v["payload"]["current"]["used_percent"] = Value::from(101.0))).is_err());
    assert!(parse_push(&edited(valid_json(), |v| {
        v["payload"].as_object_mut().unwrap().remove("weekly");
    }))
    .is_err());
}

#[test]
fn native_frames_are_length_bounded_and_round_trip() {
    let body = valid_json();
    let mut framed = Vec::new();
    framed.extend_from_slice(&(body.len() as u32).to_le_bytes());
    framed.extend_from_slice(&body);
    match read_frame(&framed) {
        FrameRead::Frame(found) => assert_eq!(found, body),
        other => panic!("{other:?}"),
    }

    let prefix = ((MAX_FRAME_BYTES + 1) as u32).to_le_bytes();
    assert!(matches!(read_frame(&prefix), FrameRead::InvalidLength(_)));
}

#[test]
fn frames_give_back_what_was_framed() {
    for n in [1usize, 2, 255, 256, 65_535, 65_536] {
        let body = vec![7u8; n];
        let mut stream = encode_frame(&body).unwrap();
        assert_eq!(&stream[..4], &(n as u32).to_le_bytes());
        stream.extend_from_slice(b"next");
        match read_frame(&stream) {
            FrameRead::Frame(found) => assert_eq!(found, body),
            other => panic!("{other:?}"),
        }
    }
    assert!(matches!(read_frame(&[]), FrameRead::End));
    assert!(matches!(read_frame(&[1, 0]), FrameRead::Truncated));
    assert!(matches!(read_frame(&[2, 0, 0, 0, 9]), FrameRead::Truncated));
    assert_eq!(
        frame_length([0, 0, 0, 0]),
        Err("native message length 0 is outside 1..=65536".to_string())
    );
    assert_eq!(
        frame_length([1, 0, 1, 0]),
        Err("native message length 65537 is outside 1..=65536".to_string())
    );
    assert_eq!(frame_length([0, 0, 1, 0]), Ok(65536));
}

#[test]
fn multiple_extension_origins_are_strictly_validated_and_deduplicated() {
    let first = "chrome-extension://adakkbinjhpjcpiagphgeldfmcmmpdcc/";
    let second = "chrome-extension://bbbbbbbbbbbbbbbbbbbbbbbbbbbbbbbb/";
    let origins = parse_allowed_origins(&format!(
        "{first}\ninvalid\n{second}\n{first}\nchrome-extension://ZZZZZZZZZZZZZZZZZZZZZZZZZZZZZZZZ/\n"
    ));
    assert_eq!(origins, vec![first.to_string(), second.to_string()]);
}

#[test]
fn allowed_origins_are_sorted_and_checked() {
    let a = "chrome-extension://aaaaaaaaaaaaaaaaaaaaaaaaaaaaaaaa/";
    let p = "chrome-extension://pppppppppppppppppppppppppppppppp/";
    let origins = origins_from_file("origins.txt", &format!("  {p}\t\r\n{a}\r\n")).unwrap();
    assert_eq!(origins, vec![a.to_string(), p.to_string()]);
    assert!(check_origin(&origins, p).is_ok());
    assert_eq!(
        check_origin(&origins, "chrome-extension://x/"),
        Err("extension origin is not allowed: chrome-extension://x/".to_string())
    );
    assert_eq!(
        origins_from_file("origins.txt", "nothing\n"),
        Err("origins.txt contains no valid extension origins".to_string())
    );
    assert!(valid_extension_origin(a));
    assert!(!valid_extension_origin("chrome-extension://aaaaaaaaaaaaaaaaaaaaaaaaaaaaaaa/"));
    assert!(!valid_extension_origin("chrome-extension://aaaaaaaaaaaaaaaaaaaaaaaaaaaaaaaa"));
    assert!(!valid_extension_origin("chrome-extension://qqqqqqqqqqqqqqqqqqqqqqqqqqqqqqqq/"));
}

#[test]
fn every_refusal_says_why() {
    assert!(refusal(b"{".to_vec()).starts_with("invalid browser message JSON: EOF"));
    assert_eq!(refusal(b"{}".to_vec()), "browser message is missing provider");
    assert_eq!(refusal(b"[]".to_vec()), "browser message is missing provider");
    assert_eq!(refusal(br#"{"provider":"other"}"#.to_vec()), "unsupported provider: other");
    assert!(refusal(br#"{"provider":"gemini-apps"}"#.to_vec()).starts_with("invalid Gemini Apps browser message: "));
    assert!(refusal(br#"{"provider":"gemini-api"}"#.to_vec()).starts_with("invalid Gemini API browser message: "));
    assert!(refusal(br#"{"provider":"aihubmix"}"#.to_vec()).starts_with("invalid AIHubMix browser message: "));

    let apps = |edit: fn(&mut Value)| refusal(edited(valid_json(), edit));
    assert_eq!(apps(|v| v["version"] = Value::from(2)), "unsupported message version: 2");
    assert_eq!(apps(|v| v["observed_at"] = Value::from(0)), "observed_at must be a positive Unix timestamp");
    for slot in ["", "123456789", "1a"] {
        assert_eq!(
            refusal(edited(valid_json(), |v| v["payload"]["account_id"] = Value::from(slot))),
            "account_id must be an ASCII numeric Gemini account slot"
        );
    }
    assert_eq!(apps(|v| v["payload"]["plan"] = Value::from("")), "plan must be absent or 1..=64 bytes");
    assert_eq!(
        apps(|v| v["payload"]["plan"] = Value::from("é".repeat(33))),
        "plan must be absent or 1..=64 bytes"
    );
    assert_eq!(apps(|v| v["payload"]["source"] = Value::from("x")), "unsupported parser source: x");
    assert_eq!(
        apps(|v| v["payload"]["current"]["label"] = Value::from("Other")),
        "invalid Current usage window"
    );
    assert_eq!(
        apps(|v| v["payload"]["weekly"]["resets_at"] = Value::from("tomorrow")),
        "invalid Weekly limit window"
    );
    assert!(parse_push(&edited(valid_json(), |v| v["payload"]["plan"] = Value::Null)).is_ok());
    assert!(parse_push(&edited(valid_json(), |v| v["payload"]["current"]["used_percent"] = Value::from(100))).is_ok());

    let spend = |edit: fn(&mut Value)| refusal(edited(valid_spend_json(), edit));
    assert_eq!(spend(|v| v["version"] = Value::from(3)), "unsupported Gemini API message version/provider");
    assert_eq!(spend(|v| v["observed_at"] = Value::from(-1)), "observed_at must be a positive Unix timestamp");
    assert_eq!(spend(|v| v["payload"]["used"] = Value::from(-1)), "used must be a finite non-negative amount");
    assert_eq!(
        spend(|v| v["payload"]["cap_used"] = Value::from(-1)),
        "cap_used must be absent or a finite non-negative amount"
    );
    assert_eq!(spend(|v| v["payload"]["limit"] = Value::from(0)), "limit must be absent or a finite positive amount");
    assert_eq!(spend(|v| v["payload"]["cap_used"] = Value::Null), "a configured limit requires cap_used");
    assert_eq!(spend(|v| v["payload"]["currency"] = Value::from("usd")), "unsupported Gemini API currency");
    for period in ["", "me@example.com", "Billing Account 1", "my ACCOUNT ID"] {
        assert_eq!(
            refusal(edited(valid_spend_json(), |v| v["payload"]["period"] = Value::from(period))),
            "period must be 1..=64 bytes"
        );
    }
    assert_eq!(
        spend(|v| v["payload"]["resets_at"] = Value::from("x")),
        "invalid Gemini API reset timestamp"
    );
    for scope in ["", "a@b", "Billing", "my account"] {
        assert_eq!(
            refusal(edited(valid_spend_json(), |v| v["payload"]["scope"] = Value::from(scope))),
            "scope is not a safe display label"
        );
    }
    assert_eq!(spend(|v| v["payload"]["source"] = Value::from("network")), "unsupported Gemini API parser source");

    let funds = |edit: fn(&mut Value)| refusal(edited(valid_aihubmix_json(), edit));
    assert_eq!(funds(|v| v["version"] = Value::from(3)), "unsupported AIHubMix message version/provider");
    assert_eq!(funds(|v| v["observed_at"] = Value::from(0)), "observed_at must be a positive Unix timestamp");
    assert_eq!(
        funds(|v| v["payload"]["funded_balance_usd"] = Value::from(0)),
        "funded_balance_usd must be a finite positive amount"
    );
    for created in [0i64, 1_788_500_061] {
        assert_eq!(
            refusal(edited(valid_aihubmix_json(), |v| v["payload"]["funding_created_at"] = Value::from(created))),
            "funding_created_at must be a plausible Unix timestamp"
        );
    }
    assert_eq!(funds(|v| v["payload"]["source"] = Value::from("page")), "unsupported AIHubMix parser source");
}

#[test]
fn a_message_may_also_come_as_arrays() {
    let body = br#"{"version":1,"provider":"aihubmix","observed_at":1788500000,"payload":[10,null,"dom"]}"#;
    assert!(parse_push(body).is_ok());
    let short = br#"{"version":1,"provider":"aihubmix","observed_at":1788500000,"payload":[10,null]}"#;
    assert!(parse_push(short).is_err());
}

#[test]
fn validators_read_the_typed_messages() {
    let BrowserPush::GeminiApps(mut apps) = parse_push(&valid_json()).unwrap() else {
        panic!("wrong provider")
    };
    assert!(validate_gemini_apps_push(&apps).is_ok());
    apps.provider = "gemini-api".to_string();
    assert_eq!(validate_gemini_apps_push(&apps), Err("unsupported provider: gemini-api".to_string()));
    let BrowserPush::GeminiApi(mut spend) = parse_push(&valid_spend_json()).unwrap() else {
        panic!("wrong provider")
    };
    spend.payload.used = b(f64::NAN);
    assert_eq!(
        validate_gemini_api_push(&spend),
        Err("used must be a finite non-negative amount".to_string())
    );
    let BrowserPush::AiHubMix(mut funds) = parse_push(&valid_aihubmix_json()).unwrap() else {
        panic!("wrong provider")
    };
    funds.payload.funded_balance_usd = b(f64::INFINITY);
    assert!(validate_aihubmix_push(&funds).is_err());
}

#[test]
fn answers_name_the_cache() {
    assert_eq!(cache_filename("gemini-apps"), Ok("gemini-apps-browser.json"));
    assert_eq!(cache_filename("gemini-api"), Ok("gemini-api-spend-browser.json"));
    assert_eq!(cache_filename("aihubmix"), Ok("aihubmix-recharge-browser.json"));
    assert_eq!(cache_filename("x"), Err("unsupported provider: x".to_string()));
    let push = parse_push(&valid_json()).unwrap();
    assert_eq!(push.provider(), "gemini-apps");
    assert_eq!(push.observed_at(), 1_787_990_400);
    let answer = accepted_response(&push, Some("gemini-apps-browser.json".to_string()));
    assert_eq!(answer.get("ok").and_then(Json::as_bool), Some(true));
    assert_eq!(answer.get("provider").and_then(Json::as_str), Some("gemini-apps"));
    assert_eq!(answer.get("observed_at").and_then(Json::as_i64), Some(1_787_990_400));
    assert_eq!(answer.get("cache").and_then(Json::as_str), Some("gemini-apps-browser.json"));
    let answer = refused_response("no".to_string());
    assert_eq!(answer.get("ok").and_then(Json::as_bool), Some(false));
    assert_eq!(answer.get("error").and_then(Json::as_str), Some("no"));
}

#[test]
fn origin_lists_are_stable() {
    let origin = |c: char| format!("chrome-extension://{}/", c.to_string().repeat(32));
    let first = parse_allowed_origins(&format!(" {}\r\nnone\n{}\n{} ", origin('c'), origin('a'), origin('c')));
    assert_eq!(first, vec![origin('a'), origin('c')]);
    assert_eq!(parse_allowed_origins(&first.join("\n")), first);
}
