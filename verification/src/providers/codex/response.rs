//! From the answers of the Codex backend to a snapshot.
use super::labels::{
    format_plan_type, format_response_plan, plan_name, response_plan_name, slug, slugify, title,
    titleize_limit_label,
};
use super::windows::{
    array_lanes, countdown_view, format_reset_countdown, is_placeholder, is_placeholder_window, lane_windows_view,
    minutes_in, minutes_of_seconds, named_lanes, normalize_array_windows, normalize_named_windows, parse_window,
    parse_window_if_present, present_window, role_of, window_of, windows_view, CodexWindowRole, LaneWindows, Lanes,
};
use crate::binary64::{
    clamped, difference_of, larger_of, of_integer, product_of, quotient_of, Binary64,
};
use crate::json::{json_of_text, parse_text, text_view, Json, JsonTree};
use crate::snapshot::{
    cost_view, named_views, named_window, new_cost, new_usage, plain_window, window_view,
    CostModel, CostSnapshot, ErrorModel, NamedRateWindow, NamedWindowModel, ProviderError, RateWindow,
    UsageModel, UsageSnapshot, WindowModel,
};
use crate::text::{
    ascii_lowered, concat2, contains, contains_text, eq_ignore_ascii_case, is_blank, to_ascii_lowercase, trim,
    trimmed,
};
use crate::timestamp::{from_unix, unix_instant, Timestamp};
use vstd::prelude::*;

verus! {

/// The window in a field, if it is there and says anything.
pub open spec fn window_in(tree: JsonTree, name: Seq<char>, now: Timestamp) -> Option<WindowModel> {
    match tree.field(name) {
        Some(window) => present_window(window, now),
        None => None,
    }
}

fn window_field(tree: &Json, name: &str, now: Timestamp) -> (r: Option<RateWindow>)
    ensures
        window_view(r) == window_in(tree.tree(), name@, now),
{
    match tree.get(name) {
        Some(window) => parse_window_if_present(window, now),
        None => None,
    }
}

/// The windows of a list that say anything.
pub open spec fn present_windows(items: Seq<JsonTree>, now: Timestamp) -> Seq<WindowModel>
    decreases items.len(),
{
    if items.len() == 0 {
        Seq::empty()
    } else {
        let before = present_windows(items.drop_last(), now);
        match present_window(items.last(), now) {
            Some(window) => before.push(window),
            None => before,
        }
    }
}

fn parse_windows(items: &Vec<Json>, now: Timestamp) -> (r: Vec<RateWindow>)
    ensures
        windows_view(r@) == present_windows(crate::json::item_trees(items@), now),
{
    let ghost all = crate::json::item_trees(items@);
    let mut r: Vec<RateWindow> = Vec::new();
    let mut i: usize = 0;
    proof {
        assert(all.take(0) =~= Seq::<JsonTree>::empty());
        assert(windows_view(r@) =~= Seq::<WindowModel>::empty());
    }
    while i < items.len()
        invariant
            i <= items@.len(),
            all == crate::json::item_trees(items@),
            windows_view(r@) == present_windows(all.take(i as int), now),
        decreases items@.len() - i,
    {
        let ghost before = windows_view(r@);
        proof {
            assert(all.take(i + 1).drop_last() =~= all.take(i as int));
            assert(all.take(i + 1).last() == items@[i as int].tree());
        }
        if let Some(window) = parse_window_if_present(&items[i], now) {
            r.push(window);
            proof {
                assert(windows_view(r@) =~= before.push(window@));
            }
        }
        i = i + 1;
    }
    proof {
        assert(all.take(i as int) =~= all);
    }
    r
}

/// The percentage that an answer without windows states.
pub open spec fn overall_percent(json: JsonTree) -> Binary64 {
    let field = match json.field("used_percent"@) {
        Some(field) => Some(field),
        None => json.field("usage_percent"@),
    };
    match field {
        Some(field) => match field.double() {
            Some(x) => x,
            None => of_integer(0),
        },
        None => of_integer(0),
    }
}

/// The lanes of an answer: from the named windows, else from the list of windows,
/// else from the overall percentage.
pub open spec fn limits_of(json: JsonTree, now: Timestamp) -> Lanes {
    match json.field("rate_limit"@) {
        Some(limit) => {
            let lanes = named_lanes(
                window_in(limit, "primary_window"@, now),
                window_in(limit, "secondary_window"@, now),
            );
            Lanes {
                primary: lanes.0,
                secondary: lanes.1,
                monthly: None,
                code_review: window_in(limit, "code_review_window"@, now),
            }
        },
        None => match json.field("rate_limits"@) {
            Some(JsonTree::Array(items)) => array_lanes(present_windows(items, now)),
            _ => Lanes {
                primary: plain_window(overall_percent(json)),
                secondary: None,
                monthly: None,
                code_review: None,
            },
        },
    }
}

pub fn extract_rate_limits(json: &Json, now: Timestamp) -> (r: LaneWindows)
    ensures
        lane_windows_view(r) == limits_of(json.tree(), now),
{
    if let Some(limit) = json.get("rate_limit") {
        let primary = window_field(limit, "primary_window", now);
        let secondary = window_field(limit, "secondary_window", now);
        let code_review = window_field(limit, "code_review_window", now);
        let (primary, secondary) = normalize_named_windows(primary, secondary);
        return (primary, secondary, None, code_review);
    }
    if let Some(limits) = json.get("rate_limits") {
        if let Json::Array(items) = limits {
            proof {
                assert(limits.tree()->Array_0 =~= crate::json::item_trees(items@));
            }
            let windows = parse_windows(items, now);
            return normalize_array_windows(windows);
        }
        proof {
            assert(!(limits.tree() is Array));
        }
    }
    let field = match json.get("used_percent") {
        Some(field) => Some(field),
        None => json.get("usage_percent"),
    };
    let percent = match field {
        Some(field) => match field.as_double() {
            Some(x) => x,
            None => Binary64::from_integer(0),
        },
        None => Binary64::from_integer(0),
    };
    (RateWindow::new(percent), None, None, None)
}

/// A field that is a text and not blank, without surrounding white space.
pub open spec fn label_in(entry: JsonTree, name: Seq<char>) -> Option<Seq<char>> {
    match entry.field(name) {
        Some(field) => match field.text() {
            Some(s) => if trimmed(s).len() > 0 {
                Some(trimmed(s))
            } else {
                None
            },
            None => None,
        },
        None => None,
    }
}

fn label_field(entry: &Json, name: &str) -> (r: Option<String>)
    ensures
        text_view(r) == label_in(entry.tree(), name@),
{
    match entry.get(name) {
        Some(field) => match field.as_str() {
            Some(s) => {
                let t = trim(s);
                if !is_blank(t.as_str()) {
                    Some(t)
                } else {
                    None
                }
            },
            None => None,
        },
        None => None,
    }
}

pub open spec fn or_empty(s: Option<Seq<char>>) -> Seq<char> {
    match s {
        Some(s) => s,
        None => Seq::empty(),
    }
}

/// A limit of the Spark model, by its feature or by its name.
pub open spec fn is_spark(feature: Option<Seq<char>>, limit: Option<Seq<char>>) -> bool {
    let feature = ascii_lowered(or_empty(feature));
    ||| feature == ascii_lowered("codex_spark"@)
    ||| feature == ascii_lowered("spark"@)
    ||| contains(ascii_lowered(or_empty(limit)), "spark"@)
}

/// The additional window that an entry describes.
pub open spec fn additional_limit(entry: JsonTree, now: Timestamp) -> Option<NamedWindowModel> {
    let feature = label_in(entry, "metered_feature"@);
    let limit = label_in(entry, "limit_name"@);
    let rate_limit = match entry.field("rate_limit"@) {
        Some(tree) => tree,
        None => entry,
    };
    let primary = rate_limit.field("primary_window"@);
    let secondary = rate_limit.field("secondary_window"@);
    let chosen = match primary {
        Some(window) => Some(window),
        None => secondary,
    };
    match chosen {
        None => None,
        Some(window) => if is_placeholder(window) {
            None
        } else {
            let parsed = window_of(window, now);
            if is_spark(feature, limit) {
                if primary is None || (parsed.window_minutes is Some && parsed.window_minutes->0 >= 10080) {
                    Some(named_window("codex-spark-weekly"@, "Codex Spark Weekly"@, parsed))
                } else {
                    Some(named_window("codex-spark"@, "Codex Spark 5-hour"@, parsed))
                }
            } else {
                let label = match limit {
                    Some(label) => Some(label),
                    None => feature,
                };
                match label {
                    Some(label) => if slug(label).len() > 0 {
                        Some(named_window("codex-"@ + slug(label), title(label), parsed))
                    } else {
                        None
                    },
                    None => None,
                }
            }
        },
    }
}

pub open spec fn named_view(w: Option<NamedRateWindow>) -> Option<NamedWindowModel> {
    match w {
        Some(w) => Some(w@),
        None => None,
    }
}

fn check_spark(feature: &Option<String>, limit: &Option<String>) -> (r: bool)
    ensures
        r == is_spark(text_view(*feature), text_view(*limit)),
{
    let feature = match feature {
        Some(s) => s.clone(),
        None => String::new(),
    };
    let limit = match limit {
        Some(s) => to_ascii_lowercase(s.as_str()),
        None => {
            let s = String::new();
            to_ascii_lowercase(s.as_str())
        },
    };
    eq_ignore_ascii_case(feature.as_str(), "codex_spark") || eq_ignore_ascii_case(feature.as_str(), "spark")
        || contains_text(limit.as_str(), "spark")
}

pub fn parse_additional_rate_limit(entry: &Json, now: Timestamp) -> (r: Option<NamedRateWindow>)
    ensures
        named_view(r) == additional_limit(entry.tree(), now),
{
    let feature = label_field(entry, "metered_feature");
    let limit = label_field(entry, "limit_name");
    let rate_limit = match entry.get("rate_limit") {
        Some(tree) => tree,
        None => entry,
    };
    let primary = rate_limit.get("primary_window");
    let secondary = rate_limit.get("secondary_window");
    let window = match primary {
        Some(window) => window,
        None => match secondary {
            Some(window) => window,
            None => return None,
        },
    };
    if is_placeholder_window(window) {
        return None;
    }
    let parsed = parse_window(window, now);
    if check_spark(&feature, &limit) {
        let long = match parsed.window_minutes {
            Some(minutes) => minutes >= 10080,
            None => false,
        };
        if primary.is_none() || long {
            return Some(
                NamedRateWindow::new("codex-spark-weekly".to_string(), "Codex Spark Weekly".to_string(), parsed),
            );
        }
        return Some(NamedRateWindow::new("codex-spark".to_string(), "Codex Spark 5-hour".to_string(), parsed));
    }
    let label = match limit {
        Some(label) => label,
        None => match feature {
            Some(label) => label,
            None => return None,
        },
    };
    let name = slugify(label.as_str());
    if is_blank(name.as_str()) {
        return None;
    }
    let id = concat2("codex-", name.as_str());
    Some(NamedRateWindow::new(id, titleize_limit_label(label.as_str()), parsed))
}

/// The additional windows of a list.
pub open spec fn additional_limits(items: Seq<JsonTree>, now: Timestamp) -> Seq<NamedWindowModel>
    decreases items.len(),
{
    if items.len() == 0 {
        Seq::empty()
    } else {
        let before = additional_limits(items.drop_last(), now);
        match additional_limit(items.last(), now) {
            Some(window) => before.push(window),
            None => before,
        }
    }
}

/// The additional windows of an answer.
pub open spec fn additional_of(json: JsonTree, now: Timestamp) -> Seq<NamedWindowModel> {
    match json.field("additional_rate_limits"@) {
        Some(JsonTree::Array(items)) => additional_limits(items, now),
        _ => Seq::empty(),
    }
}

pub fn extract_additional_rate_limits(json: &Json, now: Timestamp) -> (r: Vec<NamedRateWindow>)
    ensures
        named_views(r@) == additional_of(json.tree(), now),
{
    let mut r: Vec<NamedRateWindow> = Vec::new();
    proof {
        assert(named_views(r@) =~= Seq::<NamedWindowModel>::empty());
    }
    if let Some(limits) = json.get("additional_rate_limits") {
        if let Json::Array(items) = limits {
            let ghost all = crate::json::item_trees(items@);
            proof {
                assert(limits.tree()->Array_0 =~= all);
                assert(all.take(0) =~= Seq::<JsonTree>::empty());
            }
            let mut i: usize = 0;
            while i < items.len()
                invariant
                    i <= items@.len(),
                    all == crate::json::item_trees(items@),
                    named_views(r@) == additional_limits(all.take(i as int), now),
                decreases items@.len() - i,
            {
                let ghost before = named_views(r@);
                proof {
                    assert(all.take(i + 1).drop_last() =~= all.take(i as int));
                    assert(all.take(i + 1).last() == items@[i as int].tree());
                }
                if let Some(window) = parse_additional_rate_limit(&items[i], now) {
                    r.push(window);
                    proof {
                        assert(named_views(r@) =~= before.push(window@));
                    }
                }
                i = i + 1;
            }
            proof {
                assert(all.take(i as int) =~= all);
            }
        } else {
            proof {
                assert(!(limits.tree() is Array));
            }
        }
    }
    r
}

/// A flag that is set only where the field is `true`.
pub open spec fn flag_in(tree: JsonTree, name: Seq<char>) -> bool {
    match tree.field(name) {
        Some(field) => field.boolean() == Some(true),
        None => false,
    }
}

fn flag_field(tree: &Json, name: &str) -> (r: bool)
    ensures
        r == flag_in(tree.tree(), name@),
{
    match tree.get(name) {
        Some(field) => match field.as_bool() {
            Some(b) => b,
            None => false,
        },
        None => false,
    }
}

/// The credits of an answer: shown only where there are some and they are limited.
pub open spec fn credits_of(json: JsonTree, now: Timestamp) -> Option<CostModel> {
    match json.field("credits"@) {
        None => None,
        Some(credits) => if !flag_in(credits, "has_credits"@) || flag_in(credits, "unlimited"@) {
            None
        } else {
            let balance = match credits.field("balance"@) {
                Some(field) => match field.double() {
                    Some(x) => x,
                    None => of_integer(0),
                },
                None => of_integer(0),
            };
            Some(new_cost(balance, "USD"@, "Credits"@, now))
        },
    }
}

pub fn extract_credits(json: &Json, now: Timestamp) -> (r: Option<CostSnapshot>)
    ensures
        cost_view(r) == credits_of(json.tree(), now),
{
    let credits = match json.get("credits") {
        Some(credits) => credits,
        None => return None,
    };
    if !flag_field(credits, "has_credits") || flag_field(credits, "unlimited") {
        return None;
    }
    let balance = match credits.get("balance") {
        Some(field) => match field.as_double() {
            Some(x) => x,
            None => Binary64::from_integer(0),
        },
        None => Binary64::from_integer(0),
    };
    Some(CostSnapshot::new(balance, "USD", "Credits", now))
}

/// The plan that an answer names.
pub open spec fn plan_of(json: JsonTree) -> Option<Seq<char>> {
    match json.field("plan_type"@) {
        Some(field) => match field.text() {
            Some(plan) => Some(plan_name(plan)),
            None => None,
        },
        None => None,
    }
}

/// The snapshot that an answer gives.
pub open spec fn usage_of(json: JsonTree, now: Timestamp) -> UsageModel {
    let lanes = limits_of(json, now);
    UsageModel {
        secondary: lanes.secondary,
        tertiary: lanes.monthly,
        model_specific: lanes.code_review,
        extra_rate_windows: additional_of(json, now),
        login_method: plan_of(json),
        ..new_usage(lanes.primary, now)
    }
}

/// Snapshot and cost of an answer of the usage endpoint.
pub fn build_result_from_json(json: &Json, now: Timestamp) -> (r: (UsageSnapshot, Option<CostSnapshot>))
    ensures
        r.0@ == usage_of(json.tree(), now),
        cost_view(r.1) == credits_of(json.tree(), now),
{
    let plan = match json.get("plan_type") {
        Some(field) => match field.as_str() {
            Some(plan) => Some(format_plan_type(plan)),
            None => None,
        },
        None => None,
    };
    let (primary, secondary, monthly, code_review) = extract_rate_limits(json, now);
    let extra = extract_additional_rate_limits(json, now);
    let usage = UsageSnapshot {
        primary,
        secondary,
        tertiary: monthly,
        model_specific: code_review,
        extra_rate_windows: extra,
        account_email: None,
        login_method: plan,
        primary_label: None,
        secondary_label: None,
        updated_at: now,
    };
    (usage, extract_credits(json, now))
}

/// Snapshot and cost of the text of an answer of the usage endpoint.
pub fn result_from_text(text: &str, now: Timestamp) -> (r: Result<
    (UsageSnapshot, Option<CostSnapshot>),
    ProviderError,
>)
    ensures
        match json_of_text(text@) {
            Ok(tree) => r is Ok && r->Ok_0.0@ == usage_of(tree, now) && cost_view(r->Ok_0.1) == credits_of(tree, now),
            Err(error) => r is Err && r->Err_0@ == ErrorModel::Parse(error),
        },
{
    match parse_text(text) {
        Ok(json) => Ok(build_result_from_json(&json, now)),
        Err(error) => Err(ProviderError::Parse(error)),
    }
}

/// A window of a typed response.
pub struct WindowSnapshot {
    pub used_percent: i32,
    pub reset_at: Option<i64>,
    pub limit_window_seconds: Option<i64>,
}

/// Spending control of a typed response.
pub struct SpendControlLimitSnapshot {
    pub limit: Option<Binary64>,
    pub used: Option<Binary64>,
    pub remaining_percent: Option<Binary64>,
    pub resets_at: Option<i64>,
}

pub struct RateLimitDetails {
    pub primary_window: Option<WindowSnapshot>,
    pub secondary_window: Option<WindowSnapshot>,
    pub code_review_window: Option<WindowSnapshot>,
    pub individual_limit: Option<SpendControlLimitSnapshot>,
}

pub struct CreditDetails {
    pub has_credits: Option<bool>,
    pub unlimited: Option<bool>,
    pub balance: Option<Binary64>,
}

/// A typed response of the usage endpoint.
pub struct UsageResponse {
    pub plan_type: Option<String>,
    pub rate_limit: Option<RateLimitDetails>,
    pub credits: Option<CreditDetails>,
    pub individual_limit: Option<SpendControlLimitSnapshot>,
}

impl CreditDetails {
    pub fn has_credits(&self) -> (r: bool)
        ensures
            r == (self.has_credits == Some(true)),
    {
        match self.has_credits {
            Some(b) => b,
            None => false,
        }
    }

    pub fn unlimited(&self) -> (r: bool)
        ensures
            r == (self.unlimited == Some(true)),
    {
        match self.unlimited {
            Some(b) => b,
            None => false,
        }
    }
}

pub open spec fn instant_in(timestamp: Option<i64>) -> Option<Timestamp> {
    match timestamp {
        Some(secs) => unix_instant(secs),
        None => None,
    }
}

pub fn timestamp_to_datetime(timestamp: Option<i64>) -> (r: Option<Timestamp>)
    ensures
        r == instant_in(timestamp),
{
    match timestamp {
        Some(secs) => from_unix(secs),
        None => None,
    }
}

/// The window of a typed response.
pub open spec fn snapshot_window(window: WindowSnapshot, now: Timestamp) -> WindowModel {
    WindowModel {
        used_percent: of_integer(window.used_percent as int),
        window_minutes: match window.limit_window_seconds {
            Some(seconds) => minutes_in(seconds),
            None => None,
        },
        resets_at: instant_in(window.reset_at),
        reset_description: countdown_view(instant_in(window.reset_at), now),
        is_informational: false,
    }
}

pub fn rate_window_from_snapshot(window: &WindowSnapshot, now: Timestamp) -> (r: RateWindow)
    ensures
        r@ == snapshot_window(*window, now),
{
    let resets_at = timestamp_to_datetime(window.reset_at);
    let minutes = match window.limit_window_seconds {
        Some(seconds) => minutes_of_seconds(seconds),
        None => None,
    };
    RateWindow::with_details(
        Binary64::from_integer(window.used_percent as i64),
        minutes,
        resets_at,
        format_reset_countdown(resets_at, now),
    )
}

/// A finite amount from zero up.
pub open spec fn is_amount(x: Option<Binary64>) -> bool {
    x is Some && x->0.finite() && of_integer(0).at_most(x->0)
}

fn amount(x: Option<Binary64>) -> (r: Option<Binary64>)
    ensures
        r == (if is_amount(x) { x } else { None }),
{
    match x {
        Some(x) => if x.is_finite() && Binary64::from_integer(0).le(x) {
            Some(x)
        } else {
            None
        },
        None => None,
    }
}

/// What a spending limit says was used: the stated amount, else what the remaining
/// percentage leaves, else what the balance leaves.
pub open spec fn limit_used(s: SpendControlLimitSnapshot, limit: Binary64, balance: Binary64) -> Binary64 {
    if is_amount(s.used) {
        s.used->0
    } else if is_amount(s.remaining_percent) {
        product_of(
            limit,
            difference_of(of_integer(1), quotient_of(s.remaining_percent->0, of_integer(100))),
        )
    } else {
        larger_of(difference_of(limit, balance), of_integer(0))
    }
}

/// The cost that a spending limit gives, where it has a usable limit.
pub open spec fn limit_cost(s: SpendControlLimitSnapshot, balance: Binary64, now: Timestamp) -> Option<CostModel> {
    if is_amount(s.limit) {
        let limit = s.limit->0;
        Some(
            CostModel {
                limit: Some(limit),
                resets_at: instant_in(s.resets_at),
                ..new_cost(
                    clamped(limit_used(s, limit, balance), of_integer(0), limit),
                    "USD"@,
                    "Monthly credits"@,
                    now,
                )
            },
        )
    } else {
        None
    }
}

impl SpendControlLimitSnapshot {
    pub fn to_cost_snapshot(&self, balance: Binary64, now: Timestamp) -> (r: Option<CostSnapshot>)
        ensures
            cost_view(r) == limit_cost(*self, balance, now),
    {
        let limit = match amount(self.limit) {
            Some(limit) => limit,
            None => return None,
        };
        let zero = Binary64::from_integer(0);
        let used = match amount(self.used) {
            Some(used) => used,
            None => match amount(self.remaining_percent) {
                Some(remaining) => limit.times(
                    Binary64::from_integer(1).minus(remaining.over(Binary64::from_integer(100))),
                ),
                None => limit.minus(balance).max(zero),
            },
        };
        let cost = CostSnapshot::new(used.clamp(zero, limit), "USD", "Monthly credits", now).with_limit(limit);
        match timestamp_to_datetime(self.resets_at) {
            Some(t) => Some(cost.with_resets_at(t)),
            None => Some(cost),
        }
    }
}

pub open spec fn snapshot_in(window: Option<WindowSnapshot>, now: Timestamp) -> Option<WindowModel> {
    match window {
        Some(window) => Some(snapshot_window(window, now)),
        None => None,
    }
}

fn window_from(window: &Option<WindowSnapshot>, now: Timestamp) -> (r: Option<RateWindow>)
    ensures
        window_view(r) == snapshot_in(*window, now),
{
    match window {
        Some(window) => Some(rate_window_from_snapshot(window, now)),
        None => None,
    }
}

/// The snapshot that a typed response gives.
pub open spec fn response_usage(response: UsageResponse, now: Timestamp) -> UsageModel {
    let (primary, secondary) = match response.rate_limit {
        Some(limit) => named_lanes(snapshot_in(limit.primary_window, now), snapshot_in(limit.secondary_window, now)),
        None => named_lanes(None, None),
    };
    UsageModel {
        secondary,
        model_specific: match response.rate_limit {
            Some(limit) => snapshot_in(limit.code_review_window, now),
            None => None,
        },
        login_method: match text_view(response.plan_type) {
            Some(plan) => Some(response_plan_name(plan)),
            None => None,
        },
        ..new_usage(primary, now)
    }
}

/// The spending limit of a typed response: its own, else that of its rate limit.
pub open spec fn spending_limit(response: UsageResponse) -> Option<SpendControlLimitSnapshot> {
    match response.individual_limit {
        Some(limit) => Some(limit),
        None => match response.rate_limit {
            Some(details) => details.individual_limit,
            None => None,
        },
    }
}

/// The cost that a typed response gives: none without credits or with unlimited
/// ones, else the spending limit, else the bare balance.
pub open spec fn response_cost(response: UsageResponse, now: Timestamp) -> Option<CostModel> {
    match response.credits {
        None => None,
        Some(credits) => if credits.has_credits != Some(true) || credits.unlimited == Some(true) {
            None
        } else {
            let balance = match credits.balance {
                Some(x) => x,
                None => of_integer(0),
            };
            let bare = new_cost(balance, "USD"@, "Credits"@, now);
            match spending_limit(response) {
                Some(limit) => match limit_cost(limit, balance, now) {
                    Some(cost) => Some(cost),
                    None => Some(bare),
                },
                None => Some(bare),
            }
        },
    }
}

/// Snapshot and cost of a typed response.
pub fn build_result(response: &UsageResponse, now: Timestamp) -> (r: (UsageSnapshot, Option<CostSnapshot>))
    ensures
        r.0@ == response_usage(*response, now),
        cost_view(r.1) == response_cost(*response, now),
{
    let (primary, secondary) = match &response.rate_limit {
        Some(limit) => normalize_named_windows(
            window_from(&limit.primary_window, now),
            window_from(&limit.secondary_window, now),
        ),
        None => normalize_named_windows(None, None),
    };
    let code_review = match &response.rate_limit {
        Some(limit) => window_from(&limit.code_review_window, now),
        None => None,
    };
    let plan = match &response.plan_type {
        Some(plan) => Some(format_response_plan(plan.as_str())),
        None => None,
    };
    let mut usage = UsageSnapshot::new(primary, now);
    usage.secondary = secondary;
    usage.model_specific = code_review;
    usage.login_method = plan;
    let cost = match &response.credits {
        None => None,
        Some(credits) => {
            if !credits.has_credits() || credits.unlimited() {
                None
            } else {
                let balance = match credits.balance {
                    Some(x) => x,
                    None => Binary64::from_integer(0),
                };
                let limit = match &response.individual_limit {
                    Some(limit) => Some(limit),
                    None => match &response.rate_limit {
                        Some(details) => match &details.individual_limit {
                            Some(limit) => Some(limit),
                            None => None,
                        },
                        None => None,
                    },
                };
                let controlled = match limit {
                    Some(limit) => limit.to_cost_snapshot(balance, now),
                    None => None,
                };
                match controlled {
                    Some(cost) => Some(cost),
                    None => Some(CostSnapshot::new(balance, "USD", "Credits", now)),
                }
            }
        },
    };
    (usage, cost)
}

/// A snapshot with the identity that belongs to its credentials.
pub open spec fn identified(usage: UsageModel, email: Option<Seq<char>>, plan_type: Option<Seq<char>>) -> UsageModel {
    UsageModel {
        account_email: match email {
            Some(email) => Some(email),
            None => usage.account_email,
        },
        login_method: match (usage.login_method, plan_type) {
            (None, Some(plan)) => Some(plan_name(plan)),
            (current, _) => current,
        },
        ..usage
    }
}

/// A snapshot with the identity that belongs to its credentials; a plan that the
/// snapshot names itself stays.
pub fn with_identity(usage: UsageSnapshot, email: Option<String>, plan_type: Option<String>) -> (r: UsageSnapshot)
    ensures
        r@ == identified(usage@, text_view(email), text_view(plan_type)),
{
    let usage = match email {
        Some(email) => usage.with_email(email),
        None => usage,
    };
    if usage.login_method.is_none() {
        if let Some(plan) = plan_type {
            return usage.with_login_method(format_plan_type(plan.as_str()));
        }
    }
    usage
}

/// The window that stands under a name of a limit and says anything.
pub open spec fn said_window(limit: JsonTree, name: Seq<char>) -> Option<JsonTree> {
    match limit.field(name) {
        Some(window) => if window == JsonTree::Null || is_placeholder(window) {
            None
        } else {
            Some(window)
        },
        None => None,
    }
}

/// The named windows of an answer reach the lanes of their lengths. A session window is the
/// primary lane and a weekly window the secondary one, under whichever of the two names each
/// came, and neither pushes the other out. What stands under `code_review_window` is the lane
/// of code reviews.
pub proof fn law_named_windows_are_shown(json: JsonTree, limit: JsonTree, now: Timestamp)
    requires
        json.field("rate_limit"@) == Some(limit),
    ensures
        ({
            let usage = usage_of(json, now);
            let first = said_window(limit, "primary_window"@);
            let second = said_window(limit, "secondary_window"@);
            let review = said_window(limit, "code_review_window"@);
            let a = window_of(first->0, now);
            let b = window_of(second->0, now);
            &&& first is Some && second is Some && a.window_minutes == Some(300u32) && b.window_minutes == Some(
                10_080u32,
            ) ==> usage.primary == a && usage.secondary == Some(b)
            &&& first is Some && second is Some && a.window_minutes == Some(10_080u32) && b.window_minutes == Some(
                300u32,
            ) ==> usage.primary == b && usage.secondary == Some(a)
            &&& first is Some && second is None && a.window_minutes == Some(300u32) ==> usage.primary == a
                && usage.secondary is None
            &&& first is None && second is Some && b.window_minutes == Some(300u32) ==> usage.primary == b
                && usage.secondary is None
            &&& first is Some && second is None && a.window_minutes == Some(10_080u32) ==> usage.secondary == Some(a)
                && usage.primary.is_informational
            &&& first is None && second is Some && b.window_minutes == Some(10_080u32) ==> usage.secondary == Some(b)
                && usage.primary.is_informational
            &&& first is None && second is None ==> usage.primary.is_informational && usage.secondary is None
            &&& first is Some && second is Some && role_of(a) != CodexWindowRole::Unknown && role_of(b)
                != CodexWindowRole::Unknown ==> usage.secondary is Some && ((usage.primary == a && usage.secondary->0
                == b) || (usage.primary == b && usage.secondary->0 == a))
            &&& review is Some ==> usage.model_specific == Some(window_of(review->0, now))
            &&& review is None ==> usage.model_specific is None
            &&& usage.tertiary is None
        }),
{
}

/// Without named windows the list of windows counts, and without a list the overall percentage.
pub proof fn law_lists_and_totals_come_after_names(json: JsonTree, now: Timestamp)
    requires
        json.field("rate_limit"@) is None,
    ensures
        ({
            let usage = usage_of(json, now);
            let list = json.field("rate_limits"@);
            &&& list is Some && list->0 is Array ==> {
                let lanes = array_lanes(present_windows(list->0->Array_0, now));
                &&& usage.primary == lanes.primary && usage.secondary == lanes.secondary
                &&& usage.tertiary == lanes.monthly && usage.model_specific == lanes.code_review
            }
            &&& list is None || !(list->0 is Array) ==> {
                &&& usage.secondary is None && usage.tertiary is None && usage.model_specific is None
                &&& !usage.primary.is_informational && usage.primary.window_minutes is None
                &&& json.field("used_percent"@) is Some && json.field("used_percent"@)->0.double() is Some
                    ==> usage.primary.used_percent == json.field("used_percent"@)->0.double()->0
                &&& json.field("used_percent"@) is None && json.field("usage_percent"@) is Some && json.field(
                    "usage_percent"@,
                )->0.double() is Some ==> usage.primary.used_percent == json.field("usage_percent"@)->0.double()->0
            }
        }),
{
}

/// Every element of a list that says anything is one of its windows, in the order of the list.
pub proof fn law_lists_keep_their_windows(items: Seq<JsonTree>, item: JsonTree, now: Timestamp)
    ensures
        present_windows(Seq::empty(), now).len() == 0,
        item != JsonTree::Null && !is_placeholder(item) ==> present_windows(items.push(item), now) == present_windows(
            items,
            now,
        ).push(window_of(item, now)),
        item == JsonTree::Null || is_placeholder(item) ==> present_windows(items.push(item), now) == present_windows(
            items,
            now,
        ),
{
    assert(items.push(item).drop_last() =~= items);
}

/// The plan and the time of an answer, and what an answer cannot know.
pub proof fn law_answers_name_their_plan(json: JsonTree, now: Timestamp)
    ensures
        ({
            let usage = usage_of(json, now);
            let plan = json.field("plan_type"@);
            &&& plan is Some && plan->0 is Text ==> usage.login_method == Some(plan_name(plan->0->Text_0))
            &&& plan is None || !(plan->0 is Text) ==> usage.login_method is None
            &&& usage.updated_at == now
            &&& usage.account_email is None && usage.primary_label is None && usage.secondary_label is None
        }),
{
}

/// Credits are shown where there are some and they are limited: their balance in US dollars.
pub proof fn law_limited_credits_are_shown(json: JsonTree, now: Timestamp)
    ensures
        ({
            let credits = json.field("credits"@);
            let has = credits is Some && credits->0.field("has_credits"@) == Some(JsonTree::Bool(true));
            let unlimited = credits is Some && credits->0.field("unlimited"@) == Some(JsonTree::Bool(true));
            let balance = credits->0.field("balance"@);
            &&& credits_of(json, now) is Some <==> has && !unlimited
            &&& has && !unlimited ==> {
                let cost = credits_of(json, now)->0;
                &&& balance is Some && balance->0.double() is Some ==> cost.used == balance->0.double()->0
                &&& balance is None ==> cost.used == of_integer(0)
                &&& cost.currency_code == "USD"@ && cost.period == "Credits"@ && cost.updated_at == now
                &&& cost.limit is None && cost.balance is None && cost.resets_at is None
                &&& cost.currency_symbol is None
            }
        }),
{
}

/// An additional limit is its window under the name that it carries: that of the limit before
/// that of the feature. The Spark model has names of its own, by the length of its window.
pub proof fn law_additional_limits_keep_their_names(entry: JsonTree, window: JsonTree, now: Timestamp)
    requires
        entry.field("rate_limit"@) is None,
        entry.field("primary_window"@) == Some(window),
        !is_placeholder(window),
    ensures
        ({
            let limit = label_in(entry, "limit_name"@);
            let feature = label_in(entry, "metered_feature"@);
            let r = additional_limit(entry, now);
            &&& r is Some ==> r->0.window == window_of(window, now) && r->0.usage_known
            &&& !is_spark(feature, limit) && limit is Some && slug(limit->0).len() > 0 ==> r is Some && r->0.id
                == "codex-"@ + slug(limit->0) && r->0.title == title(limit->0)
            &&& !is_spark(feature, limit) && limit is None && feature is Some && slug(feature->0).len() > 0 ==> r
                is Some && r->0.id == "codex-"@ + slug(feature->0) && r->0.title == title(feature->0)
            &&& !is_spark(feature, limit) && limit is None && feature is None ==> r is None
            &&& !is_spark(feature, limit) && limit is Some && slug(limit->0).len() == 0 ==> r is None
            &&& !is_spark(feature, limit) && limit is None && feature is Some && slug(feature->0).len() == 0 ==> r
                is None
            &&& is_spark(feature, limit) ==> {
                let minutes = window_of(window, now).window_minutes;
                let weekly = minutes is Some && minutes->0 >= 7 * 24 * 60;
                &&& r is Some
                &&& weekly ==> r->0.id == "codex-spark-weekly"@ && r->0.title == "Codex Spark Weekly"@
                &&& !weekly ==> r->0.id == "codex-spark"@ && r->0.title == "Codex Spark 5-hour"@
            }
        }),
{
}

/// The window of an additional limit stands in its own rate limit where it has one, and is the
/// second named window where the first is missing, which for the Spark model is a weekly one.
pub proof fn law_additional_limits_are_found(entry: JsonTree, now: Timestamp)
    ensures
        ({
            let nested = entry.field("rate_limit"@);
            let place = if nested is Some { nested->0 } else { entry };
            let first = place.field("primary_window"@);
            let second = place.field("secondary_window"@);
            let r = additional_limit(entry, now);
            &&& first is None && second is None ==> r is None
            &&& first is Some && is_placeholder(first->0) ==> r is None
            &&& first is Some && r is Some ==> r->0.window == window_of(first->0, now)
            &&& first is None && second is Some && r is Some ==> r->0.window == window_of(second->0, now)
            &&& first is None && second is Some && r is Some && is_spark(
                label_in(entry, "metered_feature"@),
                label_in(entry, "limit_name"@),
            ) ==> r->0.id == "codex-spark-weekly"@
        }),
{
}

/// The Spark model is told by its feature or by its name, in any case.
pub proof fn law_spark_is_told_by_its_name(feature: Option<Seq<char>>, limit: Option<Seq<char>>)
    ensures
        feature == Some("codex_spark"@) || feature == Some("spark"@) ==> is_spark(feature, limit),
        limit is Some && contains(ascii_lowered(limit->0), "spark"@) ==> is_spark(feature, limit),
{
}

/// Names are read without white space around them, and a blank one is none.
pub proof fn law_blank_names_are_none(entry: JsonTree, name: Seq<char>, s: Seq<char>)
    requires
        entry.field(name) == Some(JsonTree::Text(s)),
    ensures
        trimmed(s).len() > 0 ==> label_in(entry, name) == Some(trimmed(s)),
        trimmed(s).len() == 0 ==> label_in(entry, name) is None,
{
}

/// The additional limits of an answer are those of its entries, in their order.
pub proof fn law_every_additional_limit_is_listed(items: Seq<JsonTree>, entry: JsonTree, now: Timestamp)
    ensures
        additional_limits(Seq::empty(), now).len() == 0,
        additional_limit(entry, now) is Some ==> additional_limits(items.push(entry), now) == additional_limits(
            items,
            now,
        ).push(additional_limit(entry, now)->0),
        additional_limit(entry, now) is None ==> additional_limits(items.push(entry), now) == additional_limits(
            items,
            now,
        ),
{
    assert(items.push(entry).drop_last() =~= items);
}

/// An answer shows the additional limits that it lists.
pub proof fn law_answers_show_their_additional_limits(json: JsonTree, items: Seq<JsonTree>, now: Timestamp)
    ensures
        json.field("additional_rate_limits"@) == Some(JsonTree::Array(items)) ==> usage_of(json, now).extra_rate_windows
            == additional_limits(items, now),
        json.field("additional_rate_limits"@) is None ==> usage_of(json, now).extra_rate_windows.len() == 0,
{
}

/// A window of a typed response, field by field.
pub proof fn law_typed_windows_state_their_fields(window: WindowSnapshot, now: Timestamp)
    ensures
        ({
            let w = snapshot_window(window, now);
            &&& w.used_percent == of_integer(window.used_percent as int)
            &&& window.limit_window_seconds is None ==> w.window_minutes is None
            &&& window.limit_window_seconds is Some && 0 <= window.limit_window_seconds->0
                && window.limit_window_seconds->0 / 60 <= u32::MAX ==> w.window_minutes == Some(
                (window.limit_window_seconds->0 / 60) as u32,
            )
            &&& window.reset_at is None ==> w.resets_at is None && w.reset_description is None
            &&& window.reset_at is Some ==> w.resets_at == unix_instant(window.reset_at->0)
            &&& w.resets_at is Some ==> w.reset_description == Some(super::windows::countdown(w.resets_at->0, now))
            &&& !w.is_informational
        }),
{
}

/// The windows of a typed response reach the same lanes as those of any other answer.
pub proof fn law_typed_windows_are_shown(response: UsageResponse, limit: RateLimitDetails, now: Timestamp)
    requires
        response.rate_limit == Some(limit),
    ensures
        ({
            let usage = response_usage(response, now);
            let a = snapshot_window(limit.primary_window->0, now);
            let b = snapshot_window(limit.secondary_window->0, now);
            &&& limit.primary_window is Some && limit.secondary_window is Some && a.window_minutes == Some(300u32)
                && b.window_minutes == Some(10_080u32) ==> usage.primary == a && usage.secondary == Some(b)
            &&& limit.primary_window is Some && limit.secondary_window is Some && a.window_minutes == Some(10_080u32)
                && b.window_minutes == Some(300u32) ==> usage.primary == b && usage.secondary == Some(a)
            &&& limit.primary_window is Some && limit.secondary_window is None && a.window_minutes == Some(300u32)
                ==> usage.primary == a && usage.secondary is None
            &&& limit.primary_window is None && limit.secondary_window is Some && b.window_minutes == Some(10_080u32)
                ==> usage.secondary == Some(b) && usage.primary.is_informational
            &&& limit.code_review_window is Some ==> usage.model_specific == Some(
                snapshot_window(limit.code_review_window->0, now),
            )
            &&& limit.code_review_window is None ==> usage.model_specific is None
            &&& usage.tertiary is None && usage.extra_rate_windows.len() == 0 && usage.updated_at == now
        }),
{
}

/// What a typed response says of plan and of absent limits.
pub proof fn law_typed_responses_name_their_plan(response: UsageResponse, now: Timestamp)
    ensures
        response.plan_type is Some ==> response_usage(response, now).login_method == Some(
            response_plan_name(response.plan_type->0@),
        ),
        response.plan_type is None ==> response_usage(response, now).login_method is None,
        response.rate_limit is None ==> response_usage(response, now).primary.is_informational && response_usage(
            response,
            now,
        ).secondary is None && response_usage(response, now).model_specific is None,
{
}

/// A spending limit gives a cost within it: the amount that is stated as used, else what the
/// remaining percentage leaves of the limit, else what the balance leaves of it.
pub proof fn law_spending_limits_give_costs(s: SpendControlLimitSnapshot, balance: Binary64, now: Timestamp)
    ensures
        ({
            let r = limit_cost(s, balance, now);
            let limit = s.limit->0;
            &&& r is Some <==> s.limit is Some && limit.finite() && of_integer(0).at_most(limit)
            &&& r is Some ==> {
                &&& r->0.limit == Some(limit)
                &&& r->0.currency_code == "USD"@ && r->0.period == "Monthly credits"@ && r->0.updated_at == now
                &&& r->0.balance is None && r->0.currency_symbol is None
                &&& s.resets_at is None ==> r->0.resets_at is None
                &&& s.resets_at is Some ==> r->0.resets_at == unix_instant(s.resets_at->0)
                &&& is_amount(s.used) && s.used->0.at_most(limit) ==> r->0.used == s.used->0
                &&& is_amount(s.used) && limit.less(s.used->0) ==> r->0.used == limit
                &&& !is_amount(s.used) && is_amount(s.remaining_percent) ==> {
                    let left = product_of(
                        limit,
                        difference_of(of_integer(1), quotient_of(s.remaining_percent->0, of_integer(100))),
                    );
                    of_integer(0).at_most(left) && left.at_most(limit) ==> r->0.used == left
                }
                &&& !is_amount(s.used) && !is_amount(s.remaining_percent) ==> {
                    let left = difference_of(limit, balance);
                    &&& of_integer(0).at_most(left) && left.at_most(limit) ==> r->0.used == left
                    &&& left.less(of_integer(0)) ==> r->0.used == of_integer(0)
                }
            }
        }),
{
    crate::binary64::arith::lemma_integer_order(0, 1);
}

/// The cost of a typed response: its own spending limit before that of the rate limit, and the
/// bare balance where neither gives one. Without credits, or with unlimited ones, there is none.
pub proof fn law_typed_credits_are_shown(response: UsageResponse, credits: CreditDetails, now: Timestamp)
    requires
        response.credits == Some(credits),
    ensures
        ({
            let r = response_cost(response, now);
            let balance = if credits.balance is Some { credits.balance->0 } else { of_integer(0) };
            let own = response.individual_limit;
            let nested = if response.rate_limit is Some { response.rate_limit->0.individual_limit } else { None };
            let shown = credits.has_credits == Some(true) && credits.unlimited != Some(true);
            &&& r is Some <==> shown
            &&& shown && own is Some && limit_cost(own->0, balance, now) is Some ==> r == limit_cost(
                own->0,
                balance,
                now,
            )
            &&& shown && own is None && nested is Some && limit_cost(nested->0, balance, now) is Some ==> r == limit_cost(
                nested->0,
                balance,
                now,
            )
            &&& shown && own is None && nested is None ==> r->0.used == balance && r->0.limit is None && r->0.period
                == "Credits"@ && r->0.currency_code == "USD"@ && r->0.updated_at == now
        }),
{
}

/// An identity adds its email, and its plan where the snapshot names none; nothing else changes.
pub proof fn law_identities_only_add(usage: UsageModel, email: Option<Seq<char>>, plan: Option<Seq<char>>)
    ensures
        ({
            let r = identified(usage, email, plan);
            &&& email is Some ==> r.account_email == email
            &&& email is None ==> r.account_email == usage.account_email
            &&& usage.login_method is Some || plan is None ==> r.login_method == usage.login_method
            &&& usage.login_method is None && plan is Some ==> r.login_method == Some(plan_name(plan->0))
            &&& r.primary == usage.primary && r.secondary == usage.secondary && r.tertiary == usage.tertiary
            &&& r.model_specific == usage.model_specific && r.extra_rate_windows == usage.extra_rate_windows
            &&& r.primary_label == usage.primary_label && r.secondary_label == usage.secondary_label
            &&& r.updated_at == usage.updated_at
        }),
{
}

/// An answer that states no percentage is taken to have used none.
pub proof fn law_unstated_usage_is_none(json: JsonTree)
    ensures
        json.field("used_percent"@) is None && json.field("usage_percent"@) is None ==> overall_percent(json)
            == of_integer(0),
        json.field("used_percent"@) is Some && json.field("used_percent"@)->0.double() is None ==> overall_percent(json)
            == of_integer(0),
{
}

} // verus!
