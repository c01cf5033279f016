use codexbar::binary64::Binary64;
use codexbar::provider::{ProviderId, SourceMode};
use codexbar::providers::bai::browser::{parse_credit_values_stdout, totals_from_helper};
use codexbar::providers::bai::script::EDGE_CDP_CREDITS_SCRIPT;
use codexbar::providers::bai::web::{
    check_status, credit_values, empty_input, orders_input, parse_orders, parse_points, parse_spending, trpc_url,
    OrderReader, PageStep,
};
use codexbar::providers::bai::{format_points, result_from_values, validate, BaiProvider, CreditValues, DASHBOARD_URL};
use codexbar::snapshot::ProviderError;
use codexbar::timestamp::Timestamp;

const NOW: Timestamp = Timestamp { secs: 1_788_500_000, nanos: 0 };

fn b(x: f64) -> Binary64 {
    Binary64 { bits: x.to_bits() }
}

fn f(x: Binary64) -> f64 {
    f64::from_bits(x.bits)
}

fn current_values() -> CreditValues {
    CreditValues {
        balance: b(15_000_000.0),
        bonus_remaining: b(5_000_000.0),
        monthly_spent: b(0.0),
        purchased_total: b(10_000_000.0),
        bonus_total: b(5_000_000.0),
        funded_total: b(15_000_000.0),
    }
}

fn parse_error(error: ProviderError) -> String {
    match error {
        ProviderError::Parse(text) => text,
        other => panic!("{other:?}"),
    }
}

fn trpc(value: &str) -> String {
    format!(r#"[{{"result":{{"data":{{"json":{value}}}}}}}]"#)
}

#[test]
fn purchased_credit_usage_drives_floatbar_percentage() {
    let initial = result_from_values(current_values(), NOW).unwrap();
    assert_eq!(initial.usage.primary.used_percent, b(0.0));
    assert_eq!(initial.cost.as_ref().unwrap().limit, Some(b(15_000_000.0)));
    assert_eq!(initial.cost.as_ref().unwrap().balance, Some(b(15_000_000.0)));

    let mut later = current_values();
    later.balance = b(8_000_000.0);
    later.bonus_remaining = b(0.0);
    later.monthly_spent = b(7_000_000.0);
    let result = result_from_values(later, NOW).unwrap();
    assert!((f(result.usage.primary.used_percent) - 20.0).abs() < 1e-9);
    assert_eq!(result.cost.as_ref().unwrap().used, b(7_000_000.0));
    assert!(
        (f(result.usage.secondary.as_ref().unwrap().used_percent) - (7_000_000.0 / 15_000_000.0 * 100.0)).abs()
            < 1e-9
    );
    assert_eq!(result.usage.primary.reset_description.as_deref(), Some("8M purchased remaining of 10M"));
    assert_eq!(result.usage.primary_label.as_deref(), Some("Purchased credits"));
    assert_eq!(result.source_label, "browser-cdp");
}

#[test]
fn funding_breakdown_and_monthly_usage_stay_informational() {
    let result = result_from_values(current_values(), NOW).unwrap();
    let funding = result.usage.extra_rate_windows.iter().find(|window| window.id == "funding").unwrap();
    assert!(funding.window.is_informational);
    assert_eq!(funding.window.reset_description.as_deref(), Some("10M purchased + 5M bonus"));
    let bonus = result.usage.extra_rate_windows.iter().find(|window| window.id == "bonus").unwrap();
    assert!(bonus.window.is_informational);
    assert!(!result.usage.secondary.as_ref().unwrap().is_informational);
}

#[test]
fn bonus_consumption_does_not_count_as_purchased_credit_usage() {
    let mut values = current_values();
    values.balance = b(12_000_000.0);
    values.bonus_remaining = b(2_000_000.0);
    values.monthly_spent = b(3_000_000.0);
    let result = result_from_values(values, NOW).unwrap();
    assert_eq!(result.usage.primary.used_percent, b(0.0));
    assert!((f(result.usage.secondary.as_ref().unwrap().used_percent) - 20.0).abs() < 1e-9);
}

#[test]
fn invalid_or_incomplete_funding_fails_closed_to_balance_only() {
    let mut values = current_values();
    values.funded_total = b(14_000_000.0);
    assert!(result_from_values(values, NOW).is_err());

    let mut no_history = current_values();
    no_history.purchased_total = b(0.0);
    no_history.bonus_total = b(0.0);
    no_history.funded_total = b(0.0);
    let result = result_from_values(no_history, NOW).unwrap();
    assert!(result.usage.primary.is_informational);
    assert_eq!(result.cost.as_ref().unwrap().limit, None);
}

#[test]
fn totals_say_what_is_wrong() {
    let error = |edit: fn(&mut CreditValues)| {
        let mut values = current_values();
        edit(&mut values);
        parse_error(validate(values).unwrap_err())
    };
    let tail = "was not a finite non-negative number";
    assert_eq!(error(|v| v.balance = b(f64::NAN)), format!("b.ai balance {tail}"));
    assert_eq!(error(|v| v.bonus_remaining = b(-1.0)), format!("b.ai bonus remaining {tail}"));
    assert_eq!(error(|v| v.monthly_spent = b(-1.0)), format!("b.ai monthly spent {tail}"));
    assert_eq!(error(|v| v.purchased_total = b(f64::INFINITY)), format!("b.ai purchased total {tail}"));
    assert_eq!(error(|v| v.bonus_total = b(-1.0)), format!("b.ai bonus total {tail}"));
    assert_eq!(error(|v| v.funded_total = b(-1.0)), format!("b.ai funded total {tail}"));
    assert_eq!(error(|v| v.bonus_remaining = b(16_000_000.0)), "b.ai bonus balance exceeded total balance");
    assert_eq!(error(|v| v.funded_total = b(15_000_000.75)), "b.ai funded total did not match purchase history");
    let mut close = current_values();
    close.funded_total = b(15_000_000.5);
    assert_eq!(validate(close).unwrap(), close);
}

#[test]
fn metadata_is_browser_session_specific() {
    let provider = BaiProvider::new();
    assert_eq!(provider.id(), ProviderId::Bai);
    assert_eq!(provider.metadata().display_name, "b.ai");
    assert_eq!(provider.metadata().dashboard_url, Some(DASHBOARD_URL));
    assert!(provider.metadata().supports_credits);
    assert_eq!(provider.available_sources(), vec![SourceMode::Auto, SourceMode::Web]);
}

#[test]
fn compact_point_labels_match_bai_scale() {
    assert_eq!(format_points(b(15_000_000.0)), "15M");
    assert_eq!(format_points(b(1_250_000.0)), "1.25M");
    assert_eq!(format_points(b(25_000.0)), "25K");
    assert_eq!(format_points(b(1_500.0)), "1.50K");
    assert_eq!(format_points(b(999.0)), "999");
    assert_eq!(format_points(b(0.0)), "0");
}

#[test]
fn parses_only_sanitized_credit_totals() {
    let values = parse_credit_values_stdout(
        br#"{"balance":15000000,"bonus_remaining":5000000,"monthly_spent":0,"purchased_total":10000000,"bonus_total":5000000,"funded_total":15000000}"#,
    )
    .unwrap();
    assert_eq!(values.balance, b(15_000_000.0));
    assert_eq!(values.purchased_total, b(10_000_000.0));
    assert_eq!(values.bonus_total, b(5_000_000.0));
}

#[test]
fn rejects_secret_bearing_browser_output() {
    assert!(
        parse_credit_values_stdout(
            br#"{"balance":15000000,"bonus_remaining":5000000,"monthly_spent":0,"purchased_total":10000000,"bonus_total":5000000,"funded_total":15000000,"apiAccessToken":"must-not-cross-boundary"}"#,
        )
        .is_err()
    );
    assert!(matches!(parse_credit_values_stdout(b" \n"), Err(ProviderError::NoCookies)));
    assert!(matches!(totals_from_helper(false, b""), Err(ProviderError::NotInstalled(_))));
    assert!(parse_error(totals_from_helper(true, b"x\n").unwrap_err())
        .starts_with("Invalid b.ai browser usage response: expected value"));
}

#[test]
fn cdp_reader_is_passive_and_does_not_extract_auth_material() {
    assert!(!EDGE_CDP_CREDITS_SCRIPT.contains("Target.createTarget"));
    assert!(!EDGE_CDP_CREDITS_SCRIPT.contains("Page.navigate"));
    assert!(EDGE_CDP_CREDITS_SCRIPT.contains("Page.setWebLifecycleState"));
    assert!(!EDGE_CDP_CREDITS_SCRIPT.contains("localStorage"));
    assert!(!EDGE_CDP_CREDITS_SCRIPT.contains("document.cookie"));
    assert!(!EDGE_CDP_CREDITS_SCRIPT.contains("apiAccessToken"));
    assert!(!EDGE_CDP_CREDITS_SCRIPT.contains("Authorization"));
    assert!(EDGE_CDP_CREDITS_SCRIPT.contains("usage.points"));
    assert!(EDGE_CDP_CREDITS_SCRIPT.contains("usage.summary"));
    assert!(EDGE_CDP_CREDITS_SCRIPT.contains("order.listOrders"));
}

#[test]
fn browser_cookie_session_fetches_usage_and_funding_history() {
    let points =
        parse_points(&trpc(r#"{"points_balance":15000000,"points_expiring":5000000}"#), "usage.points").unwrap();
    let spent = parse_spending(
        &trpc(r#"{"monthly_chart":[],"monthly_spent":0,"points_balance":15000000}"#),
        "usage.summary",
    )
    .unwrap();
    let orders = parse_orders(
        &trpc(
            r#"{"data":[
                {"status":"success","type":"bonus","rechargeType":"bonus","points":5000000},
                {"status":"success","type":"purchase","rechargeType":"fiat","recipientRelation":"self","points":10000000}
            ],"page":1,"pageSize":100,"total":2}"#,
        ),
        "order.listOrders",
    )
    .unwrap();
    let PageStep::Complete { purchased, bonus } = OrderReader::new().accept(&orders).unwrap() else {
        panic!("one page is all")
    };
    assert_eq!(credit_values(points, spent, purchased, bonus), current_values());
}

#[test]
fn gifts_and_failures_fund_nothing() {
    let orders = parse_orders(
        &trpc(
            r#"{"data":[
                {"status":"success","type":"purchase","rechargeType":"fiat","recipientRelation":"self","points":10000000},
                {"status":"success","type":"purchase","rechargeType":"fiat","recipientRelation":"gift","points":20000000},
                {"status":"failed","type":"purchase","points":1},
                {"status":"success","type":"purchase","points":-1},
                {"status":"success","type":"other","points":1},
                {"status":"success","rechargeType":"bonus","points":5}
            ],"total":2}"#,
        ),
        "order.listOrders",
    )
    .unwrap();
    assert_eq!(
        OrderReader::new().accept(&orders).unwrap(),
        PageStep::Complete { purchased: b(10_000_000.0), bonus: b(5.0) }
    );
}

#[test]
fn histories_are_read_page_by_page() {
    let page = |total: u64| {
        parse_orders(
            &trpc(&format!(r#"{{"data":[{{"status":"success","type":"purchase","points":1}}],"total":{total}}}"#)),
            "order.listOrders",
        )
        .unwrap()
    };
    let mut reader = OrderReader::new();
    let mut pages = 1;
    let totals = loop {
        match reader.accept(&page(250)).unwrap() {
            PageStep::More(next) => {
                reader = next;
                pages += 1;
            }
            PageStep::Complete { purchased, .. } => break purchased,
        }
    };
    assert_eq!((pages, totals), (3, b(3.0)));
    let last = OrderReader { page: 100, purchased: b(0.0), bonus: b(0.0) };
    assert!(last.accept(&page(10_000)).is_ok());
    assert_eq!(
        parse_error(last.accept(&page(10_001)).unwrap_err()),
        "b.ai order history exceeds the bounded reader"
    );
}

#[test]
fn answers_are_checked_before_they_are_read() {
    assert!(matches!(check_status(401, "usage.points"), Err(ProviderError::AuthRequired)));
    assert!(matches!(check_status(403, "usage.points"), Err(ProviderError::AuthRequired)));
    assert!(check_status(204, "usage.points").is_ok());
    match check_status(502, "usage.points") {
        Err(ProviderError::Other(text)) => assert_eq!(text, "b.ai usage.points returned HTTP 502 Bad Gateway"),
        other => panic!("{other:?}"),
    }
    assert!(parse_error(parse_points("not-json", "usage.points").unwrap_err())
        .starts_with("Failed to parse b.ai usage.points: expected ident"));
    assert!(parse_error(parse_points(&trpc("{}"), "usage.points").unwrap_err())
        .starts_with("Failed to parse b.ai usage.points: "));
    let one = r#"{"result":{"data":{"json":{"monthly_spent":1}}}}"#;
    assert_eq!(
        parse_error(parse_spending(&format!("[{one},{one}]"), "usage.summary").unwrap_err()),
        "b.ai usage.summary returned an unexpected batch size"
    );
    assert_eq!(
        parse_error(parse_spending("[]", "usage.summary").unwrap_err()),
        "b.ai usage.summary returned an unexpected batch size"
    );
    assert_eq!(parse_spending(&format!("[{one}]"), "usage.summary").unwrap(), b(1.0));
}

#[test]
fn calls_are_encoded_in_the_url() {
    let input: serde_json::Value = serde_json::from_str(&orders_input(7)).unwrap();
    assert_eq!(input["0"]["json"]["page"], 7);
    assert_eq!(input["0"]["json"]["pageSize"], 100);
    assert_eq!(input["0"]["json"]["sortBy"], "createdAt");
    assert_eq!(input["0"]["json"]["order"], "desc");
    assert_eq!(orders_input(7), input.to_string());
    let input: serde_json::Value = serde_json::from_str(&empty_input()).unwrap();
    assert!(input["0"]["json"].is_null());
    assert_eq!(
        trpc_url("https://chat.b.ai", "usage.points", "{\"0\":1}").unwrap(),
        "https://chat.b.ai/trpc/lambda/usage.points?batch=1&input=%7B%220%22%3A1%7D"
    );
    match trpc_url("nowhere", "usage.points", "") {
        Err(ProviderError::Other(text)) => assert!(text.starts_with("Invalid b.ai URL: ")),
        other => panic!("{other:?}"),
    }
}

#[test]
fn spending_a_bonus_leaves_the_purchased_lane() {
    let lane = |spent: f64| {
        let mut values = current_values();
        values.balance = b(14_000_000.0 - spent);
        values.bonus_remaining = b(5_000_000.0 - spent);
        let primary = result_from_values(values, NOW).unwrap().usage.primary;
        (f(primary.used_percent), primary.reset_description)
    };
    assert_eq!(lane(0.0), (10.0, Some("9M purchased remaining of 10M".to_string())));
    assert_eq!(lane(1_234_567.0), lane(0.0));
    assert_eq!(lane(5_000_000.0), lane(0.0));
}

#[test]
fn auth_failures_are_reported_without_parsing_body() {
    assert!(matches!(check_status(401, "usage.points"), Err(ProviderError::AuthRequired)));
}

fn session_values(points: &str, orders: &str) -> CreditValues {
    let points = parse_points(&trpc(points), "usage.points").unwrap();
    let spent = parse_spending(&trpc(r#"{"monthly_spent":0}"#), "usage.summary").unwrap();
    let orders = parse_orders(&trpc(orders), "order.listOrders").unwrap();
    match OrderReader::new().accept(&orders).unwrap() {
        PageStep::Complete { purchased, bonus } => credit_values(points, spent, purchased, bonus),
        other => panic!("{other:?}"),
    }
}

#[test]
fn gifted_purchases_do_not_inflate_the_local_funding_anchor() {
    let values = session_values(
        r#"{"points_balance":10000000,"points_expiring":0}"#,
        r#"{"data":[
            {"status":"success","type":"purchase","rechargeType":"fiat","recipientRelation":"self","points":10000000},
            {"status":"success","type":"purchase","rechargeType":"fiat","recipientRelation":"gift","points":20000000}
        ],"total":2}"#,
    );
    assert_eq!(values.purchased_total, b(10_000_000.0));
}

#[test]
fn funding_history_accepts_either_bai_classification_field() {
    let values = session_values(
        r#"{"points_balance":15000000,"points_expiring":5000000}"#,
        r#"{"data":[
            {"status":"success","type":"purchase","recipientRelation":"self","points":10000000},
            {"status":"success","rechargeType":"bonus","points":5000000}
        ],"total":2}"#,
    );
    assert_eq!(values.purchased_total, b(10_000_000.0));
    assert_eq!(values.bonus_total, b(5_000_000.0));
    assert_eq!(values.funded_total, b(15_000_000.0));
}
