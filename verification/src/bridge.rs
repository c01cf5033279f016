//! The native messaging host: frames, allowed origins and the messages that a
//! browser extension may push.
use crate::binary64::Binary64;
use crate::json::{
    double_field, integer_field, integer_number, json_of_bytes, name_texts, only_keys,
    optional_field, parse_bytes, read_double, read_integer, read_optional_double,
    read_optional_integer, read_optional_text, read_text, read_word, record, record_fields,
    text_field, text_view, tree_view, word_field, Json, JsonTree, ObjectBuilder,
};
use crate::text::{
    all_digits, ascii_lowered, byte_len, chars_of, comes_before, concat2, contains, contains_text, decimal, decimal_of,
    is_line, joined, lemma_lines_of_joined, lemma_precedes_total, lemma_precedes_transitive, lines, lines_of,
    only_digits, precedes, same, strip_prefix, strip_suffix, texts, to_ascii_lowercase, trim, trimmed,
};
use crate::timestamp::{parse_rfc3339, rfc3339_instant};
use vstd::prelude::*;
use vstd::utf8::encode_utf8;

verus! {

/// Longest message that is accepted, in bytes.
pub const MAX_FRAME_BYTES: usize = 65536;

/// A usage window of Gemini Apps.
#[derive(Debug)]
pub struct QuotaWindow {
    pub label: String,
    pub used_percent: Binary64,
    pub resets_at: Option<String>,
}

#[derive(Debug)]
pub struct GeminiAppsPayload {
    pub account_id: String,
    pub plan: Option<String>,
    pub source: String,
    pub current: QuotaWindow,
    pub weekly: QuotaWindow,
}

#[derive(Debug)]
pub struct GeminiAppsPush {
    pub version: u32,
    pub provider: String,
    pub observed_at: i64,
    pub payload: GeminiAppsPayload,
}

#[derive(Debug)]
pub struct GeminiApiSpendPayload {
    pub used: Binary64,
    pub cap_used: Option<Binary64>,
    pub limit: Option<Binary64>,
    pub currency: String,
    pub period: String,
    pub resets_at: Option<String>,
    pub scope: Option<String>,
    pub source: String,
}

#[derive(Debug)]
pub struct GeminiApiSpendPush {
    pub version: u32,
    pub provider: String,
    pub observed_at: i64,
    pub payload: GeminiApiSpendPayload,
}

#[derive(Debug)]
pub struct AiHubMixRechargePayload {
    pub funded_balance_usd: Binary64,
    pub funding_created_at: Option<i64>,
    pub source: String,
}

#[derive(Debug)]
pub struct AiHubMixRechargePush {
    pub version: u32,
    pub provider: String,
    pub observed_at: i64,
    pub payload: AiHubMixRechargePayload,
}

/// A message from the browser extension.
#[derive(Debug)]
pub enum BrowserPush {
    GeminiApps(GeminiAppsPush),
    GeminiApi(GeminiApiSpendPush),
    AiHubMix(AiHubMixRechargePush),
}

/// What a [`QuotaWindow`] says.
pub ghost struct WindowModel {
    pub label: Seq<char>,
    pub used_percent: Binary64,
    pub resets_at: Option<Seq<char>>,
}

impl View for QuotaWindow {
    type V = WindowModel;

    open spec fn view(&self) -> WindowModel {
        WindowModel {
            label: self.label@,
            used_percent: self.used_percent,
            resets_at: text_view(self.resets_at),
        }
    }
}

/// What a [`GeminiAppsPush`] says.
pub ghost struct GeminiAppsModel {
    pub version: u32,
    pub provider: Seq<char>,
    pub observed_at: i64,
    pub account_id: Seq<char>,
    pub plan: Option<Seq<char>>,
    pub source: Seq<char>,
    pub current: WindowModel,
    pub weekly: WindowModel,
}

impl View for GeminiAppsPush {
    type V = GeminiAppsModel;

    open spec fn view(&self) -> GeminiAppsModel {
        GeminiAppsModel {
            version: self.version,
            provider: self.provider@,
            observed_at: self.observed_at,
            account_id: self.payload.account_id@,
            plan: text_view(self.payload.plan),
            source: self.payload.source@,
            current: self.payload.current@,
            weekly: self.payload.weekly@,
        }
    }
}

/// What a [`GeminiApiSpendPush`] says.
pub ghost struct GeminiApiModel {
    pub version: u32,
    pub provider: Seq<char>,
    pub observed_at: i64,
    pub used: Binary64,
    pub cap_used: Option<Binary64>,
    pub limit: Option<Binary64>,
    pub currency: Seq<char>,
    pub period: Seq<char>,
    pub resets_at: Option<Seq<char>>,
    pub scope: Option<Seq<char>>,
    pub source: Seq<char>,
}

impl View for GeminiApiSpendPush {
    type V = GeminiApiModel;

    open spec fn view(&self) -> GeminiApiModel {
        GeminiApiModel {
            version: self.version,
            provider: self.provider@,
            observed_at: self.observed_at,
            used: self.payload.used,
            cap_used: self.payload.cap_used,
            limit: self.payload.limit,
            currency: self.payload.currency@,
            period: self.payload.period@,
            resets_at: text_view(self.payload.resets_at),
            scope: text_view(self.payload.scope),
            source: self.payload.source@,
        }
    }
}

/// What an [`AiHubMixRechargePush`] says.
pub ghost struct AiHubMixModel {
    pub version: u32,
    pub provider: Seq<char>,
    pub observed_at: i64,
    pub funded_balance_usd: Binary64,
    pub funding_created_at: Option<i64>,
    pub source: Seq<char>,
}

impl View for AiHubMixRechargePush {
    type V = AiHubMixModel;

    open spec fn view(&self) -> AiHubMixModel {
        AiHubMixModel {
            version: self.version,
            provider: self.provider@,
            observed_at: self.observed_at,
            funded_balance_usd: self.payload.funded_balance_usd,
            funding_created_at: self.payload.funding_created_at,
            source: self.payload.source@,
        }
    }
}

/// What a [`BrowserPush`] says.
pub ghost enum PushModel {
    GeminiApps(GeminiAppsModel),
    GeminiApi(GeminiApiModel),
    AiHubMix(AiHubMixModel),
}

impl View for BrowserPush {
    type V = PushModel;

    open spec fn view(&self) -> PushModel {
        match self {
            BrowserPush::GeminiApps(push) => PushModel::GeminiApps(push@),
            BrowserPush::GeminiApi(push) => PushModel::GeminiApi(push@),
            BrowserPush::AiHubMix(push) => PushModel::AiHubMix(push@),
        }
    }
}

impl PushModel {
    pub open spec fn provider(self) -> Seq<char> {
        match self {
            PushModel::GeminiApps(push) => push.provider,
            PushModel::GeminiApi(push) => push.provider,
            PushModel::AiHubMix(push) => push.provider,
        }
    }

    pub open spec fn observed_at(self) -> i64 {
        match self {
            PushModel::GeminiApps(push) => push.observed_at,
            PushModel::GeminiApi(push) => push.observed_at,
            PushModel::AiHubMix(push) => push.observed_at,
        }
    }
}

impl BrowserPush {
    pub fn provider(&self) -> (r: &str)
        ensures
            r@ == self@.provider(),
    {
        match self {
            BrowserPush::GeminiApps(push) => push.provider.as_str(),
            BrowserPush::GeminiApi(push) => push.provider.as_str(),
            BrowserPush::AiHubMix(push) => push.provider.as_str(),
        }
    }

    pub fn observed_at(&self) -> (r: i64)
        ensures
            r == self@.observed_at(),
    {
        match self {
            BrowserPush::GeminiApps(push) => push.observed_at,
            BrowserPush::GeminiApi(push) => push.observed_at,
            BrowserPush::AiHubMix(push) => push.observed_at,
        }
    }
}

/// A reset time is absent, or a short RFC 3339 time.
pub open spec fn reset_ok(value: Option<Seq<char>>) -> bool {
    match value {
        Some(text) => encode_utf8(text).len() <= 64 && rfc3339_instant(text) is Ok,
        None => true,
    }
}

pub fn validate_reset(value: &Option<String>) -> (r: bool)
    ensures
        r == reset_ok(text_view(*value)),
{
    match value {
        Some(text) => byte_len(text.as_str()) <= 64 && parse_rfc3339(text.as_str()).is_ok(),
        None => true,
    }
}

/// The double is a number from 0 to 100.
pub open spec fn is_percentage(x: Binary64) -> bool {
    crate::binary64::of_integer(0).at_most(x) && x.at_most(crate::binary64::of_integer(100))
}

pub open spec fn window_ok(window: WindowModel, label: Seq<char>) -> bool {
    &&& window.label == label
    &&& window.used_percent.finite()
    &&& is_percentage(window.used_percent)
    &&& reset_ok(window.resets_at)
}

pub fn validate_window(window: &QuotaWindow, expected_label: &str) -> (r: bool)
    ensures
        r == window_ok(window@, expected_label@),
{
    same(window.label.as_str(), expected_label) && window.used_percent.is_finite() && Binary64::from_integer(0).le(
        window.used_percent,
    ) && window.used_percent.le(Binary64::from_integer(100)) && validate_reset(&window.resets_at)
}

/// A Gemini account slot: one to eight digits.
pub open spec fn account_slot_ok(s: Seq<char>) -> bool {
    s.len() > 0 && encode_utf8(s).len() <= 8 && all_digits(s)
}

pub fn validate_account_slot(s: &str) -> (r: bool)
    ensures
        r == account_slot_ok(s@),
{
    let v = chars_of(s);
    v.len() > 0 && byte_len(s) <= 8 && only_digits(&v, 0, v.len())
}

/// Absent, or from 1 to 64 bytes.
pub open spec fn plan_ok(plan: Option<Seq<char>>) -> bool {
    match plan {
        Some(plan) => 0 < encode_utf8(plan).len() <= 64,
        None => true,
    }
}

/// Why a Gemini Apps message is refused, if it is.
pub open spec fn gemini_apps_error(push: GeminiAppsModel) -> Option<Seq<char>> {
    if push.version != 1 {
        Some("unsupported message version: "@ + decimal(push.version as nat))
    } else if push.provider != "gemini-apps"@ {
        Some("unsupported provider: "@ + push.provider)
    } else if push.observed_at <= 0 {
        Some("observed_at must be a positive Unix timestamp"@)
    } else if !account_slot_ok(push.account_id) {
        Some("account_id must be an ASCII numeric Gemini account slot"@)
    } else if !plan_ok(push.plan) {
        Some("plan must be absent or 1..=64 bytes"@)
    } else if push.source != "jSf9Qc"@ && push.source != "VxUbXb"@ && push.source
        != "dom"@ {
        Some("unsupported parser source: "@ + push.source)
    } else if !window_ok(push.current, "Current usage"@) {
        Some("invalid Current usage window"@)
    } else if !window_ok(push.weekly, "Weekly limit"@) {
        Some("invalid Weekly limit window"@)
    } else {
        None
    }
}

/// The result that reports an error, or success where there is none.
pub open spec fn reports(r: Result<(), String>, error: Option<Seq<char>>) -> bool {
    match error {
        Some(text) => r is Err && r->Err_0@ == text,
        None => r is Ok,
    }
}

pub fn validate_gemini_apps_push(push: &GeminiAppsPush) -> (r: Result<(), String>)
    ensures
        reports(r, gemini_apps_error(push@)),
{
    let payload = &push.payload;
    if push.version != 1 {
        let version = decimal_of(push.version as u128);
        return Err(concat2("unsupported message version: ", version.as_str()));
    }
    if !same(push.provider.as_str(), "gemini-apps") {
        return Err(concat2("unsupported provider: ", push.provider.as_str()));
    }
    if push.observed_at <= 0 {
        return Err("observed_at must be a positive Unix timestamp".to_string());
    }
    if !validate_account_slot(payload.account_id.as_str()) {
        return Err("account_id must be an ASCII numeric Gemini account slot".to_string());
    }
    let plan_accepted = match &payload.plan {
        Some(plan) => {
            let n: usize = byte_len(plan.as_str());
            n > 0 && n <= 64
        },
        None => true,
    };
    if !plan_accepted {
        return Err("plan must be absent or 1..=64 bytes".to_string());
    }
    let source = payload.source.as_str();
    if !same(source, "jSf9Qc") && !same(source, "VxUbXb") && !same(source, "dom") {
        return Err(concat2("unsupported parser source: ", source));
    }
    if !validate_window(&payload.current, "Current usage") {
        return Err("invalid Current usage window".to_string());
    }
    if !validate_window(&payload.weekly, "Weekly limit") {
        return Err("invalid Weekly limit window".to_string());
    }
    Ok(())
}

/// The currencies that a spend message may use.
pub open spec fn currency_ok(currency: Seq<char>) -> bool {
    currency == "USD"@ || currency == "EUR"@ || currency == "GBP"@ || currency == "JPY"@
}

/// A finite amount that is not negative.
pub open spec fn amount_ok(amount: Binary64) -> bool {
    amount.finite() && !amount.less(crate::binary64::of_integer(0))
}

/// A finite amount above zero.
pub open spec fn positive_amount_ok(amount: Binary64) -> bool {
    amount.finite() && !amount.at_most(crate::binary64::of_integer(0))
}

/// A billing period: short, and without anything that looks like an account.
pub open spec fn period_ok(period: Seq<char>) -> bool {
    &&& 0 < encode_utf8(period).len() <= 64
    &&& !contains(period, "@"@)
    &&& !contains(ascii_lowered(period), "billing account"@)
    &&& !contains(ascii_lowered(period), "account id"@)
}

/// A display label: absent, or short and without anything that looks like an account.
pub open spec fn scope_ok(scope: Option<Seq<char>>) -> bool {
    match scope {
        Some(scope) => {
            &&& 0 < encode_utf8(scope).len() <= 64
            &&& !contains(scope, "@"@)
            &&& !contains(ascii_lowered(scope), "billing"@)
            &&& !contains(ascii_lowered(scope), "account"@)
        },
        None => true,
    }
}

/// Why a Gemini API spend message is refused, if it is.
pub open spec fn gemini_api_error(push: GeminiApiModel) -> Option<Seq<char>> {
    if push.version != 1 || push.provider != "gemini-api"@ {
        Some("unsupported Gemini API message version/provider"@)
    } else if push.observed_at <= 0 {
        Some("observed_at must be a positive Unix timestamp"@)
    } else if !amount_ok(push.used) {
        Some("used must be a finite non-negative amount"@)
    } else if push.cap_used is Some && !amount_ok(push.cap_used->0) {
        Some("cap_used must be absent or a finite non-negative amount"@)
    } else if push.limit is Some && !positive_amount_ok(push.limit->0) {
        Some("limit must be absent or a finite positive amount"@)
    } else if push.limit is Some && push.cap_used is None {
        Some("a configured limit requires cap_used"@)
    } else if !currency_ok(push.currency) {
        Some("unsupported Gemini API currency"@)
    } else if !period_ok(push.period) {
        Some("period must be 1..=64 bytes"@)
    } else if !reset_ok(push.resets_at) {
        Some("invalid Gemini API reset timestamp"@)
    } else if !scope_ok(push.scope) {
        Some("scope is not a safe display label"@)
    } else if push.source != "dom"@ {
        Some("unsupported Gemini API parser source"@)
    } else {
        None
    }
}

pub fn validate_amount(amount: Binary64) -> (r: bool)
    ensures
        r == amount_ok(amount),
{
    amount.is_finite() && !amount.lt(Binary64::from_integer(0))
}

pub fn validate_positive_amount(amount: Binary64) -> (r: bool)
    ensures
        r == positive_amount_ok(amount),
{
    amount.is_finite() && !amount.le(Binary64::from_integer(0))
}

pub fn validate_currency(currency: &str) -> (r: bool)
    ensures
        r == currency_ok(currency@),
{
    same(currency, "USD") || same(currency, "EUR") || same(currency, "GBP") || same(currency, "JPY")
}

fn validate_period(period: &str) -> (r: bool)
    ensures
        r == period_ok(period@),
{
    let n: usize = byte_len(period);
    let lower = to_ascii_lowercase(period);
    n > 0 && n <= 64 && !contains_text(period, "@") && !contains_text(lower.as_str(), "billing account")
        && !contains_text(lower.as_str(), "account id")
}

fn validate_scope(scope: &Option<String>) -> (r: bool)
    ensures
        r == scope_ok(text_view(*scope)),
{
    match scope {
        Some(scope) => {
            let n: usize = byte_len(scope.as_str());
            let lower = to_ascii_lowercase(scope.as_str());
            n > 0 && n <= 64 && !contains_text(scope.as_str(), "@") && !contains_text(lower.as_str(), "billing")
                && !contains_text(lower.as_str(), "account")
        },
        None => true,
    }
}

pub fn validate_gemini_api_push(push: &GeminiApiSpendPush) -> (r: Result<(), String>)
    ensures
        reports(r, gemini_api_error(push@)),
{
    let payload = &push.payload;
    if push.version != 1 || !same(push.provider.as_str(), "gemini-api") {
        return Err("unsupported Gemini API message version/provider".to_string());
    }
    if push.observed_at <= 0 {
        return Err("observed_at must be a positive Unix timestamp".to_string());
    }
    if !validate_amount(payload.used) {
        return Err("used must be a finite non-negative amount".to_string());
    }
    if let Some(used) = payload.cap_used {
        if !validate_amount(used) {
            return Err("cap_used must be absent or a finite non-negative amount".to_string());
        }
    }
    if let Some(limit) = payload.limit {
        if !validate_positive_amount(limit) {
            return Err("limit must be absent or a finite positive amount".to_string());
        }
    }
    if payload.limit.is_some() && payload.cap_used.is_none() {
        return Err("a configured limit requires cap_used".to_string());
    }
    if !validate_currency(payload.currency.as_str()) {
        return Err("unsupported Gemini API currency".to_string());
    }
    if !validate_period(payload.period.as_str()) {
        return Err("period must be 1..=64 bytes".to_string());
    }
    if !validate_reset(&payload.resets_at) {
        return Err("invalid Gemini API reset timestamp".to_string());
    }
    if !validate_scope(&payload.scope) {
        return Err("scope is not a safe display label".to_string());
    }
    if !same(payload.source.as_str(), "dom") {
        return Err("unsupported Gemini API parser source".to_string());
    }
    Ok(())
}

/// Why an AIHubMix recharge message is refused, if it is.
pub open spec fn aihubmix_error(push: AiHubMixModel) -> Option<Seq<char>> {
    if push.version != 1 || push.provider != "aihubmix"@ {
        Some("unsupported AIHubMix message version/provider"@)
    } else if push.observed_at <= 0 {
        Some("observed_at must be a positive Unix timestamp"@)
    } else if !positive_amount_ok(push.funded_balance_usd) {
        Some("funded_balance_usd must be a finite positive amount"@)
    } else if push.funding_created_at is Some && !(0 < push.funding_created_at->0 <= push.observed_at
        + 60) {
        Some("funding_created_at must be a plausible Unix timestamp"@)
    } else if push.source != "network"@ && push.source != "dom"@ {
        Some("unsupported AIHubMix parser source"@)
    } else {
        None
    }
}

pub fn validate_aihubmix_push(push: &AiHubMixRechargePush) -> (r: Result<(), String>)
    ensures
        reports(r, aihubmix_error(push@)),
{
    let payload = &push.payload;
    if push.version != 1 || !same(push.provider.as_str(), "aihubmix") {
        return Err("unsupported AIHubMix message version/provider".to_string());
    }
    if push.observed_at <= 0 {
        return Err("observed_at must be a positive Unix timestamp".to_string());
    }
    if !validate_positive_amount(payload.funded_balance_usd) {
        return Err("funded_balance_usd must be a finite positive amount".to_string());
    }
    if let Some(timestamp) = payload.funding_created_at {
        if timestamp <= 0 || timestamp - 60 > push.observed_at {
            return Err("funding_created_at must be a plausible Unix timestamp".to_string());
        }
    }
    if !same(payload.source.as_str(), "network") && !same(payload.source.as_str(), "dom") {
        return Err("unsupported AIHubMix parser source".to_string());
    }
    Ok(())
}

/// The fields of a message, in their order.
pub open spec fn push_names() -> Seq<Seq<char>> {
    seq!["version"@, "provider"@, "observed_at"@, "payload"@]
}

/// The fields of a usage window.
pub open spec fn window_names() -> Seq<Seq<char>> {
    seq!["label"@, "used_percent"@, "resets_at"@]
}

/// The fields of a Gemini Apps payload.
pub open spec fn gemini_apps_names() -> Seq<Seq<char>> {
    seq!["account_id"@, "plan"@, "source"@, "current"@, "weekly"@]
}

/// The fields of a Gemini API payload.
pub open spec fn gemini_api_names() -> Seq<Seq<char>> {
    seq!["used"@, "cap_used"@, "limit"@, "currency"@, "period"@, "resets_at"@, "scope"@, "source"@]
}

/// The fields of an AIHubMix payload.
pub open spec fn aihubmix_names() -> Seq<Seq<char>> {
    seq!["funded_balance_usd"@, "funding_created_at"@, "source"@]
}

/// The fields of an optional record.
pub open spec fn record_at(field: Option<JsonTree>, names: Seq<Seq<char>>) -> Option<Seq<Option<JsonTree>>> {
    match field {
        Some(tree) => record(tree, names),
        None => None,
    }
}

/// The usage window that a field holds.
pub open spec fn window_field(field: Option<JsonTree>) -> Option<WindowModel> {
    match record_at(field, window_names()) {
        Some(f) => match (text_field(f[0]), double_field(f[1]), optional_field(f[2], text_field(f[2]))) {
            (Some(label), Some(used_percent), Some(resets_at)) => Some(
                WindowModel { label, used_percent, resets_at },
            ),
            _ => None,
        },
        None => None,
    }
}

/// What stands around the payload of every message.
pub ghost struct Envelope {
    pub version: u32,
    pub provider: Seq<char>,
    pub observed_at: i64,
    pub payload: Option<JsonTree>,
}

pub open spec fn envelope(tree: JsonTree) -> Option<Envelope> {
    match record(tree, push_names()) {
        Some(f) => match (word_field(f[0]), text_field(f[1]), integer_field(f[2])) {
            (Some(version), Some(provider), Some(observed_at)) => Some(
                Envelope { version, provider, observed_at, payload: f[3] },
            ),
            _ => None,
        },
        None => None,
    }
}

/// The Gemini Apps message that a value spells.
pub open spec fn gemini_apps_message(tree: JsonTree) -> Option<GeminiAppsModel> {
    match envelope(tree) {
        Some(e) => match record_at(e.payload, gemini_apps_names()) {
            Some(f) => match (
                text_field(f[0]),
                optional_field(f[1], text_field(f[1])),
                text_field(f[2]),
                window_field(f[3]),
                window_field(f[4]),
            ) {
                (Some(account_id), Some(plan), Some(source), Some(current), Some(weekly)) => Some(
                    GeminiAppsModel {
                        version: e.version,
                        provider: e.provider,
                        observed_at: e.observed_at,
                        account_id,
                        plan,
                        source,
                        current,
                        weekly,
                    },
                ),
                _ => None,
            },
            None => None,
        },
        None => None,
    }
}

/// What the payload of a Gemini API message says.
pub ghost struct SpendModel {
    pub used: Binary64,
    pub cap_used: Option<Binary64>,
    pub limit: Option<Binary64>,
    pub currency: Seq<char>,
    pub period: Seq<char>,
    pub resets_at: Option<Seq<char>>,
    pub scope: Option<Seq<char>>,
    pub source: Seq<char>,
}

impl View for GeminiApiSpendPayload {
    type V = SpendModel;

    open spec fn view(&self) -> SpendModel {
        SpendModel {
            used: self.used,
            cap_used: self.cap_used,
            limit: self.limit,
            currency: self.currency@,
            period: self.period@,
            resets_at: text_view(self.resets_at),
            scope: text_view(self.scope),
            source: self.source@,
        }
    }
}

/// The spend that a value spells.
pub open spec fn spend_in(tree: JsonTree) -> Option<SpendModel> {
    match record(tree, gemini_api_names()) {
        Some(f) => match (
            double_field(f[0]),
            optional_field(f[1], double_field(f[1])),
            optional_field(f[2], double_field(f[2])),
            text_field(f[3]),
            text_field(f[4]),
            optional_field(f[5], text_field(f[5])),
            optional_field(f[6], text_field(f[6])),
            text_field(f[7]),
        ) {
            (
                Some(used),
                Some(cap_used),
                Some(limit),
                Some(currency),
                Some(period),
                Some(resets_at),
                Some(scope),
                Some(source),
            ) => Some(SpendModel { used, cap_used, limit, currency, period, resets_at, scope, source }),
            _ => None,
        },
        None => None,
    }
}

/// The Gemini API message that a value spells.
pub open spec fn gemini_api_message(tree: JsonTree) -> Option<GeminiApiModel> {
    match envelope(tree) {
        Some(e) => match e.payload {
            Some(payload) => match spend_in(payload) {
                Some(spend) => Some(
                    GeminiApiModel {
                        version: e.version,
                        provider: e.provider,
                        observed_at: e.observed_at,
                        used: spend.used,
                        cap_used: spend.cap_used,
                        limit: spend.limit,
                        currency: spend.currency,
                        period: spend.period,
                        resets_at: spend.resets_at,
                        scope: spend.scope,
                        source: spend.source,
                    },
                ),
                None => None,
            },
            None => None,
        },
        None => None,
    }
}

/// The AIHubMix message that a value spells.
pub open spec fn aihubmix_message(tree: JsonTree) -> Option<AiHubMixModel> {
    match envelope(tree) {
        Some(e) => match record_at(e.payload, aihubmix_names()) {
            Some(f) => match (
                double_field(f[0]),
                optional_field(f[1], integer_field(f[1])),
                text_field(f[2]),
            ) {
                (Some(funded_balance_usd), Some(funding_created_at), Some(source)) => Some(
                    AiHubMixModel {
                        version: e.version,
                        provider: e.provider,
                        observed_at: e.observed_at,
                        funded_balance_usd,
                        funding_created_at,
                        source,
                    },
                ),
                _ => None,
            },
            None => None,
        },
        None => None,
    }
}

fn decode_window(field: Option<&Json>) -> (r: Option<QuotaWindow>)
    ensures
        match r {
            Some(window) => window_field(tree_view(field)) == Some(window@),
            None => window_field(tree_view(field)) is None,
        },
{
    let names: Vec<&str> = vec!["label", "used_percent", "resets_at"];
    proof {
        assert(name_texts(names@) =~= window_names());
    }
    let json = match field {
        Some(json) => json,
        None => return None,
    };
    match record_fields(json, &names) {
        Some(f) => {
            match (read_text(f[0]), read_double(f[1]), read_optional_text(f[2])) {
                (Some(label), Some(used_percent), Some(resets_at)) => Some(
                    QuotaWindow { label, used_percent, resets_at },
                ),
                _ => None,
            }
        },
        None => None,
    }
}

/// The parts of a message that every provider shares, and the payload.
fn decode_envelope<'a>(json: &'a Json) -> (r: Option<(u32, String, i64, Option<&'a Json>)>)
    ensures
        match r {
            Some((version, provider, observed_at, payload)) => envelope(json.tree()) == Some(
                Envelope { version, provider: provider@, observed_at, payload: tree_view(payload) },
            ),
            None => envelope(json.tree()) is None,
        },
{
    let names: Vec<&str> = vec!["version", "provider", "observed_at", "payload"];
    proof {
        assert(name_texts(names@) =~= push_names());
    }
    match record_fields(json, &names) {
        Some(f) => {
            match (read_word(f[0]), read_text(f[1]), read_integer(f[2])) {
                (Some(version), Some(provider), Some(observed_at)) => Some((version, provider, observed_at, f[3])),
                _ => None,
            }
        },
        None => None,
    }
}

pub fn decode_gemini_apps(json: &Json) -> (r: Option<GeminiAppsPush>)
    ensures
        match r {
            Some(push) => gemini_apps_message(json.tree()) == Some(push@),
            None => gemini_apps_message(json.tree()) is None,
        },
{
    let (version, provider, observed_at, payload) = match decode_envelope(json) {
        Some(e) => e,
        None => return None,
    };
    let payload = match payload {
        Some(payload) => payload,
        None => return None,
    };
    let names: Vec<&str> = vec!["account_id", "plan", "source", "current", "weekly"];
    proof {
        assert(name_texts(names@) =~= gemini_apps_names());
    }
    match record_fields(payload, &names) {
        Some(f) => {
            match (
                read_text(f[0]),
                read_optional_text(f[1]),
                read_text(f[2]),
                decode_window(f[3]),
                decode_window(f[4]),
            ) {
                (Some(account_id), Some(plan), Some(source), Some(current), Some(weekly)) => Some(
                    GeminiAppsPush {
                        version,
                        provider,
                        observed_at,
                        payload: GeminiAppsPayload { account_id, plan, source, current, weekly },
                    },
                ),
                _ => None,
            }
        },
        None => None,
    }
}

/// Reads the spend of a JSON value.
pub fn decode_spend(json: &Json) -> (r: Option<GeminiApiSpendPayload>)
    ensures
        match r {
            Some(spend) => spend_in(json.tree()) == Some(spend@),
            None => spend_in(json.tree()) is None,
        },
{
    let names: Vec<&str> = vec![
        "used",
        "cap_used",
        "limit",
        "currency",
        "period",
        "resets_at",
        "scope",
        "source",
    ];
    proof {
        assert(name_texts(names@) =~= gemini_api_names());
    }
    match record_fields(json, &names) {
        Some(f) => {
            match (
                read_double(f[0]),
                read_optional_double(f[1]),
                read_optional_double(f[2]),
                read_text(f[3]),
                read_text(f[4]),
                read_optional_text(f[5]),
                read_optional_text(f[6]),
                read_text(f[7]),
            ) {
                (
                    Some(used),
                    Some(cap_used),
                    Some(limit),
                    Some(currency),
                    Some(period),
                    Some(resets_at),
                    Some(scope),
                    Some(source),
                ) => Some(
                    GeminiApiSpendPayload { used, cap_used, limit, currency, period, resets_at, scope, source },
                ),
                _ => None,
            }
        },
        None => None,
    }
}

pub fn decode_gemini_api(json: &Json) -> (r: Option<GeminiApiSpendPush>)
    ensures
        match r {
            Some(push) => gemini_api_message(json.tree()) == Some(push@),
            None => gemini_api_message(json.tree()) is None,
        },
{
    let (version, provider, observed_at, payload) = match decode_envelope(json) {
        Some(e) => e,
        None => return None,
    };
    let payload = match payload {
        Some(payload) => payload,
        None => return None,
    };
    match decode_spend(payload) {
        Some(payload) => Some(GeminiApiSpendPush { version, provider, observed_at, payload }),
        None => None,
    }
}

pub fn decode_aihubmix(json: &Json) -> (r: Option<AiHubMixRechargePush>)
    ensures
        match r {
            Some(push) => aihubmix_message(json.tree()) == Some(push@),
            None => aihubmix_message(json.tree()) is None,
        },
{
    let (version, provider, observed_at, payload) = match decode_envelope(json) {
        Some(e) => e,
        None => return None,
    };
    let payload = match payload {
        Some(payload) => payload,
        None => return None,
    };
    let names: Vec<&str> = vec!["funded_balance_usd", "funding_created_at", "source"];
    proof {
        assert(name_texts(names@) =~= aihubmix_names());
    }
    match record_fields(payload, &names) {
        Some(f) => {
            match (read_double(f[0]), read_optional_integer(f[1]), read_text(f[2])) {
                (Some(funded_balance_usd), Some(funding_created_at), Some(source)) => Some(
                    AiHubMixRechargePush {
                        version,
                        provider,
                        observed_at,
                        payload: AiHubMixRechargePayload { funded_balance_usd, funding_created_at, source },
                    },
                ),
                _ => None,
            }
        },
        None => None,
    }
}

/// What follows the name of the message in the report of a malformed one.
pub open spec fn malformed() -> Seq<char> {
    " browser message: unexpected fields"@
}

/// The message that a value spells, or why it is refused.
pub open spec fn push_of(tree: JsonTree) -> Result<PushModel, Seq<char>> {
    match text_field(tree.field("provider"@)) {
        None => Err("browser message is missing provider"@),
        Some(provider) => if provider == "gemini-apps"@ {
            match gemini_apps_message(tree) {
                None => Err("invalid Gemini Apps"@ + malformed()),
                Some(push) => match gemini_apps_error(push) {
                    Some(error) => Err(error),
                    None => Ok(PushModel::GeminiApps(push)),
                },
            }
        } else if provider == "gemini-api"@ {
            match gemini_api_message(tree) {
                None => Err("invalid Gemini API"@ + malformed()),
                Some(push) => match gemini_api_error(push) {
                    Some(error) => Err(error),
                    None => Ok(PushModel::GeminiApi(push)),
                },
            }
        } else if provider == "aihubmix"@ {
            match aihubmix_message(tree) {
                None => Err("invalid AIHubMix"@ + malformed()),
                Some(push) => match aihubmix_error(push) {
                    Some(error) => Err(error),
                    None => Ok(PushModel::AiHubMix(push)),
                },
            }
        } else {
            Err("unsupported provider: "@ + provider)
        },
    }
}

/// The result says what the model says.
pub open spec fn push_agrees(r: Result<BrowserPush, String>, model: Result<PushModel, Seq<char>>) -> bool {
    match model {
        Ok(push) => r is Ok && r->Ok_0@ == push,
        Err(error) => r is Err && r->Err_0@ == error,
    }
}

/// Reads the message of a JSON value.
pub fn push_from_json(value: &Json) -> (r: Result<BrowserPush, String>)
    ensures
        push_agrees(r, push_of(value.tree())),
{
    let provider = match read_text(value.get("provider")) {
        Some(provider) => provider,
        None => return Err("browser message is missing provider".to_string()),
    };
    if same(provider.as_str(), "gemini-apps") {
        match decode_gemini_apps(value) {
            None => Err(concat2("invalid Gemini Apps", " browser message: unexpected fields")),
            Some(push) => match validate_gemini_apps_push(&push) {
                Ok(_) => Ok(BrowserPush::GeminiApps(push)),
                Err(error) => Err(error),
            },
        }
    } else if same(provider.as_str(), "gemini-api") {
        match decode_gemini_api(value) {
            None => Err(concat2("invalid Gemini API", " browser message: unexpected fields")),
            Some(push) => match validate_gemini_api_push(&push) {
                Ok(_) => Ok(BrowserPush::GeminiApi(push)),
                Err(error) => Err(error),
            },
        }
    } else if same(provider.as_str(), "aihubmix") {
        match decode_aihubmix(value) {
            None => Err(concat2("invalid AIHubMix", " browser message: unexpected fields")),
            Some(push) => match validate_aihubmix_push(&push) {
                Ok(_) => Ok(BrowserPush::AiHubMix(push)),
                Err(error) => Err(error),
            },
        }
    } else {
        Err(concat2("unsupported provider: ", provider.as_str()))
    }
}

/// Reads a message.
pub fn parse_push(body: &[u8]) -> (r: Result<BrowserPush, String>)
    ensures
        match json_of_bytes(body@) {
            Ok(tree) => push_agrees(r, push_of(tree)),
            Err(error) => r is Err && r->Err_0@ == "invalid browser message JSON: "@ + error,
        },
{
    match parse_bytes(body) {
        Ok(value) => push_from_json(&value),
        Err(error) => Err(concat2("invalid browser message JSON: ", error.as_str())),
    }
}

/// The id of a Chromium extension: 32 letters from `a` to `p`.
pub open spec fn extension_id_ok(id: Seq<char>) -> bool {
    id.len() == 32 && forall|i: int| 0 <= i < id.len() ==> 'a' <= #[trigger] id[i] <= 'p'
}

/// The origin of a Chromium extension.
pub open spec fn origin_ok(origin: Seq<char>) -> bool {
    exists|id: Seq<char>| extension_id_ok(id) && origin == "chrome-extension://"@ + id + "/"@
}

fn valid_extension_id(id: &str) -> (r: bool)
    ensures
        r == extension_id_ok(id@),
{
    let v = chars_of(id);
    if v.len() != 32 {
        return false;
    }
    let mut i: usize = 0;
    while i < v.len()
        invariant
            i <= v@.len(),
            v@ == id@,
            forall|k: int| 0 <= k < i ==> 'a' <= #[trigger] id@[k] <= 'p',
        decreases v@.len() - i,
    {
        if !('a' <= v[i] && v[i] <= 'p') {
            assert(!('a' <= id@[i as int] <= 'p'));
            return false;
        }
        i = i + 1;
    }
    true
}

pub fn valid_extension_origin(origin: &str) -> (r: bool)
    ensures
        r == origin_ok(origin@),
{
    let ghost head = "chrome-extension://"@;
    let ghost tail = "/"@;
    proof {
        assert forall|id: Seq<char>| origin@ == head + id + tail implies head.is_prefix_of(origin@)
            && tail.is_suffix_of(origin@.skip(head.len() as int)) && origin@.skip(head.len() as int).take(
            origin@.len() - head.len() - tail.len(),
        ) == id by {
            assert(origin@.subrange(0, head.len() as int) =~= head);
            assert(origin@.skip(head.len() as int) =~= id + tail);
            assert((id + tail).subrange(id.len() as int, (id + tail).len() as int) =~= tail);
            assert((id + tail).take(id.len() as int) =~= id);
        }
    }
    let rest = match strip_prefix(origin, "chrome-extension://") {
        Some(rest) => rest,
        None => return false,
    };
    let id = match strip_suffix(rest.as_str(), "/") {
        Some(id) => id,
        None => return false,
    };
    proof {
        assert(origin@ =~= head + rest@);
        assert(rest@ =~= id@ + tail);
        assert(origin@ =~= head + id@ + tail);
    }
    valid_extension_id(id.as_str())
}

/// Each text comes strictly before the next.
pub open spec fn ascending(v: Seq<Seq<char>>) -> bool {
    forall|i: int, j: int| 0 <= i < j < v.len() ==> precedes(#[trigger] v[i], #[trigger] v[j])
}

/// `origin` stands, up to white space around it, on one of the first `n` lines.
pub open spec fn listed(all: Seq<Seq<char>>, n: int, origin: Seq<char>) -> bool {
    origin_ok(origin) && exists|i: int| 0 <= i < n && trimmed(#[trigger] all[i]) == origin
}

/// Puts a text in its place in an ascending list, unless it is there already.
fn insert_ascending(v: &mut Vec<String>, text: String)
    requires
        ascending(texts(old(v)@)),
    ensures
        ascending(texts(final(v)@)),
        forall|t: Seq<char>| #[trigger]
            texts(final(v)@).contains(t) <==> texts(old(v)@).contains(t) || t == text@,
{
    let ghost before = texts(v@);
    let mut i: usize = 0;
    while i < v.len() && comes_before(v[i].as_str(), text.as_str())
        invariant
            i <= v@.len(),
            texts(v@) == before,
            forall|k: int| 0 <= k < i ==> precedes(#[trigger] before[k], text@),
        decreases v@.len() - i,
    {
        i = i + 1;
    }
    if i < v.len() && same(v[i].as_str(), text.as_str()) {
        proof {
            assert(before[i as int] == text@);
        }
        return;
    }
    v.insert(i, text);
    proof {
        let after = texts(v@);
        assert(after =~= before.insert(i as int, text@));
        if i < before.len() {
            lemma_precedes_total(before[i as int], text@);
        }
        assert forall|a: int, b: int| 0 <= a < b < after.len() implies precedes(
            #[trigger] after[a],
            #[trigger] after[b],
        ) by {
            if b < i {
                assert(after[a] == before[a] && after[b] == before[b]);
            } else if b == i {
                assert(after[a] == before[a]);
            } else if a == i {
                assert(after[b] == before[b - 1]);
                if b - 1 > i {
                    lemma_precedes_transitive(text@, before[i as int], before[b - 1]);
                }
            } else if a < i {
                assert(after[a] == before[a] && after[b] == before[b - 1]);
            } else {
                assert(after[a] == before[a - 1] && after[b] == before[b - 1]);
            }
        }
        assert forall|t: Seq<char>| #[trigger] after.contains(t) <==> before.contains(t) || t == text@ by {
            if before.contains(t) {
                let k = before.index_of(t);
                assert(after[if k < i { k } else { k + 1 }] == t);
            }
            if t == text@ {
                assert(after[i as int] == t);
            }
            if after.contains(t) {
                let k = after.index_of(t);
                if k < i {
                    assert(before[k] == t);
                } else if k > i {
                    assert(before[k - 1] == t);
                }
            }
        }
    }
}

/// The extension origins that a text lists, one a line, sorted and without repetition.
pub open spec fn is_origin_list(value: Seq<char>, origins: Seq<Seq<char>>) -> bool {
    &&& ascending(origins)
    &&& forall|origin: Seq<char>| #[trigger]
        origins.contains(origin) <==> listed(lines_of(value), lines_of(value).len() as int, origin)
}

/// The extension origins that a file lists, one a line, sorted and without
/// repetition; other lines are skipped.
pub fn parse_allowed_origins(value: &str) -> (r: Vec<String>)
    ensures
        is_origin_list(value@, texts(r@)),
{
    let all = lines(value);
    let ghost model = lines_of(value@);
    let mut origins: Vec<String> = Vec::new();
    let mut i: usize = 0;
    while i < all.len()
        invariant
            i <= all@.len(),
            texts(all@) == model,
            ascending(texts(origins@)),
            forall|origin: Seq<char>| #[trigger]
                texts(origins@).contains(origin) <==> listed(model, i as int, origin),
        decreases all@.len() - i,
    {
        let line = trim(all[i].as_str());
        proof {
            assert(model[i as int] == all@[i as int]@);
            assert forall|origin: Seq<char>| #[trigger] listed(model, i + 1, origin) <==> listed(
                model,
                i as int,
                origin,
            ) || (origin == line@ && origin_ok(line@)) by {
                if origin == line@ && origin_ok(line@) {
                    assert(trimmed(model[i as int]) == origin);
                }
            }
        }
        if valid_extension_origin(line.as_str()) {
            insert_ascending(&mut origins, line);
        }
        i = i + 1;
    }
    origins
}

/// The origins that the file at `path` allows; a file that allows none is an error.
pub fn origins_from_file(path: &str, value: &str) -> (r: Result<Vec<String>, String>)
    ensures
        r is Ok <==> exists|origin: Seq<char>|
            listed(lines_of(value@), lines_of(value@).len() as int, origin),
        match r {
            Ok(origins) => is_origin_list(value@, texts(origins@)),
            Err(error) => error@ == path@ + " contains no valid extension origins"@,
        },
{
    let origins = parse_allowed_origins(value);
    if origins.len() == 0 {
        proof {
            assert forall|origin: Seq<char>| !listed(lines_of(value@), lines_of(value@).len() as int, origin) by {
                assert(!texts(origins@).contains(origin));
            }
        }
        Err(concat2(path, " contains no valid extension origins"))
    } else {
        proof {
            assert(texts(origins@).contains(texts(origins@)[0]));
        }
        Ok(origins)
    }
}

/// Lets an origin pass that is among the allowed ones.
pub fn check_origin(allowed: &Vec<String>, origin: &str) -> (r: Result<(), String>)
    ensures
        r is Ok <==> texts(allowed@).contains(origin@),
        r is Err ==> r->Err_0@ == "extension origin is not allowed: "@ + origin@,
{
    let mut i: usize = 0;
    while i < allowed.len()
        invariant
            i <= allowed@.len(),
            forall|k: int| 0 <= k < i ==> allowed@[k]@ != origin@,
        decreases allowed@.len() - i,
    {
        if same(allowed[i].as_str(), origin) {
            assert(texts(allowed@)[i as int] == origin@);
            return Ok(());
        }
        i = i + 1;
    }
    proof {
        assert forall|k: int| 0 <= k < allowed@.len() implies texts(allowed@)[k] != origin@ by {
            assert(allowed@[k]@ != origin@);
        }
    }
    Err(concat2("extension origin is not allowed: ", origin))
}

/// The file that keeps the last message of a provider.
pub open spec fn cache_file(provider: Seq<char>) -> Option<Seq<char>> {
    if provider == "gemini-apps"@ {
        Some("gemini-apps-browser.json"@)
    } else if provider == "gemini-api"@ {
        Some("gemini-api-spend-browser.json"@)
    } else if provider == "aihubmix"@ {
        Some("aihubmix-recharge-browser.json"@)
    } else {
        None
    }
}

pub fn cache_filename(provider: &str) -> (r: Result<&'static str, String>)
    ensures
        match r {
            Ok(name) => cache_file(provider@) == Some(name@),
            Err(error) => cache_file(provider@) is None && error@ == "unsupported provider: "@ + provider@,
        },
{
    if same(provider, "gemini-apps") {
        Ok("gemini-apps-browser.json")
    } else if same(provider, "gemini-api") {
        Ok("gemini-api-spend-browser.json")
    } else if same(provider, "aihubmix") {
        Ok("aihubmix-recharge-browser.json")
    } else {
        Err(concat2("unsupported provider: ", provider))
    }
}

/// The number that four bytes encode, lowest first.
pub open spec fn little_endian(b: Seq<u8>) -> nat {
    (b[0] + 0x100 * b[1] + 0x1_0000 * b[2] + 0x100_0000 * b[3]) as nat
}

/// The four bytes that encode a number, lowest first.
pub open spec fn little_endian_bytes(n: nat) -> Seq<u8> {
    seq![(n % 0x100) as u8, (n / 0x100 % 0x100) as u8, (n / 0x1_0000 % 0x100) as u8, (n / 0x100_0000 % 0x100) as u8]
}

/// The length that a prefix announces, or what is said of one that is out of bounds.
pub open spec fn announced(prefix: Seq<u8>) -> Result<nat, Seq<char>> {
    let n = little_endian(prefix);
    if 1 <= n <= MAX_FRAME_BYTES {
        Ok(n)
    } else {
        Err("native message length "@ + decimal(n) + " is outside 1..=65536"@)
    }
}

/// The length that a frame's prefix announces.
pub fn frame_length(prefix: [u8; 4]) -> (r: Result<usize, String>)
    ensures
        match announced(prefix@) {
            Ok(n) => r is Ok && r->Ok_0 == n,
            Err(error) => r is Err && r->Err_0@ == error,
        },
{
    let n: u64 = (prefix[0] as u64) + 0x100 * (prefix[1] as u64) + 0x1_0000 * (prefix[2] as u64) + 0x100_0000 * (
    prefix[3] as u64);
    if n == 0 || n > 65536 {
        let digits = decimal_of(n as u128);
        Err(crate::text::concat3("native message length ", digits.as_str(), " is outside 1..=65536"))
    } else {
        Ok(n as usize)
    }
}

/// What a reader finds at the start of a stream.
#[derive(Debug)]
pub enum FrameRead {
    /// The stream is at its end.
    End,
    /// The body of the first frame.
    Frame(Vec<u8>),
    /// The announced length is out of bounds; the text says so.
    InvalidLength(String),
    /// The stream ends inside the frame.
    Truncated,
}

/// What a [`FrameRead`] says.
pub ghost enum FrameModel {
    End,
    Frame(Seq<u8>),
    InvalidLength(Seq<char>),
    Truncated,
}

impl View for FrameRead {
    type V = FrameModel;

    open spec fn view(&self) -> FrameModel {
        match self {
            FrameRead::End => FrameModel::End,
            FrameRead::Frame(body) => FrameModel::Frame(body@),
            FrameRead::InvalidLength(error) => FrameModel::InvalidLength(error@),
            FrameRead::Truncated => FrameModel::Truncated,
        }
    }
}

/// The first frame of a stream.
pub open spec fn first_frame(stream: Seq<u8>) -> FrameModel {
    if stream.len() == 0 {
        FrameModel::End
    } else if stream.len() < 4 {
        FrameModel::Truncated
    } else {
        match announced(stream.take(4)) {
            Err(error) => FrameModel::InvalidLength(error),
            Ok(n) => if stream.len() < 4 + n {
                FrameModel::Truncated
            } else {
                FrameModel::Frame(stream.subrange(4, 4int + n))
            },
        }
    }
}

/// What the bytes of a whole stream hold as their first frame.
pub fn read_frame(stream: &[u8]) -> (r: FrameRead)
    ensures
        r@ == first_frame(stream@),
{
    if stream.len() == 0 {
        return FrameRead::End;
    }
    if stream.len() < 4 {
        return FrameRead::Truncated;
    }
    let prefix: [u8; 4] = [stream[0], stream[1], stream[2], stream[3]];
    proof {
        assert(prefix@ =~= stream@.take(4));
    }
    let length: usize = match frame_length(prefix) {
        Ok(n) => n,
        Err(error) => return FrameRead::InvalidLength(error),
    };
    if stream.len() - 4 < length {
        return FrameRead::Truncated;
    }
    let total: usize = stream.len();
    let mut body: Vec<u8> = Vec::new();
    let mut i: usize = 0;
    while i < length
        invariant
            i <= length,
            total == stream@.len() >= 4 + length,
            body@ == stream@.subrange(4, 4 + i),
        decreases length - i,
    {
        body.push(stream[4 + i]);
        i = i + 1;
        proof {
            assert(body@ == stream@.subrange(4, 4 + i));
        }
    }
    FrameRead::Frame(body)
}

/// The frame that carries a body.
pub open spec fn frame_of(body: Seq<u8>) -> Seq<u8> {
    little_endian_bytes(body.len()) + body
}

/// Frames a body, unless its length does not fit the prefix.
pub fn encode_frame(body: &[u8]) -> (r: Result<Vec<u8>, String>)
    ensures
        match r {
            Ok(frame) => body@.len() <= u32::MAX && frame@ == frame_of(body@),
            Err(error) => body@.len() > u32::MAX && error@ == "response is too large"@,
        },
{
    let n: u64 = body.len() as u64;
    if n > 0xffff_ffff {
        return Err("response is too large".to_string());
    }
    let mut frame: Vec<u8> = Vec::new();
    frame.push((n % 0x100) as u8);
    frame.push((n / 0x100 % 0x100) as u8);
    frame.push((n / 0x1_0000 % 0x100) as u8);
    frame.push((n / 0x100_0000 % 0x100) as u8);
    proof {
        assert(frame@ == little_endian_bytes(n as nat) + body@.take(0));
    }
    let mut i: usize = 0;
    while i < body.len()
        invariant
            i <= body@.len(),
            n == body@.len(),
            frame@ == little_endian_bytes(n as nat) + body@.take(i as int),
        decreases body@.len() - i,
    {
        frame.push(body[i]);
        i = i + 1;
        proof {
            assert(frame@ == little_endian_bytes(n as nat) + body@.take(i as int));
        }
    }
    proof {
        assert(body@.take(i as int) == body@);
    }
    Ok(frame)
}

/// What the host answers to a message.
pub open spec fn response_tree(push: PushModel, cache: Option<Seq<char>>) -> JsonTree {
    JsonTree::Object(
        seq![
            (
                "cache"@,
                match cache {
                    Some(name) => JsonTree::Text(name),
                    None => JsonTree::Null,
                },
            ),
            ("observed_at"@, JsonTree::Number(integer_number(push.observed_at() as int))),
            ("ok"@, JsonTree::Bool(true)),
            ("provider"@, JsonTree::Text(push.provider())),
        ],
    )
}

/// The answer to a message that was kept in the named file.
pub fn accepted_response(push: &BrowserPush, cache: Option<String>) -> (r: Json)
    ensures
        r.tree() == response_tree(push@, text_view(cache)),
{
    let file = Json::optional_text(&cache);
    let r = ObjectBuilder::new().with("cache", file).with("observed_at", Json::integer(push.observed_at())).with(
        "ok",
        Json::boolean(true),
    ).with("provider", Json::text(push.provider())).build();
    proof {
        assert(r.tree()->Object_0 =~= response_tree(push@, text_view(cache))->Object_0);
    }
    r
}

/// What the host answers to a message that it refuses.
pub open spec fn refusal_tree(error: Seq<char>) -> JsonTree {
    JsonTree::Object(seq![("error"@, JsonTree::Text(error)), ("ok"@, JsonTree::Bool(false))])
}

/// The answer to a message that was refused.
pub fn refused_response(error: String) -> (r: Json)
    ensures
        r.tree() == refusal_tree(error@),
{
    let r = ObjectBuilder::new().with("error", Json::text(error.as_str())).with("ok", Json::boolean(false)).build();
    proof {
        assert(r.tree()->Object_0 =~= seq![("error"@, JsonTree::Text(error@)), ("ok"@, JsonTree::Bool(false))]);
    }
    r
}

/// An accepted message carries no field but the agreed ones: neither beside the
/// payload, nor in the payload, nor in a usage window.
pub proof fn law_accepted_messages_have_only_agreed_fields(tree: JsonTree)
    requires
        push_of(tree) is Ok,
    ensures
        tree is Object,
        only_keys(tree->Object_0, push_names()),
        match push_of(tree)->Ok_0 {
            PushModel::GeminiApps(_) => {
                &&& record_at(envelope(tree)->0.payload, gemini_apps_names()) is Some
                &&& envelope(tree)->0.payload->0 is Object ==> only_keys(
                    envelope(tree)->0.payload->0->Object_0,
                    gemini_apps_names(),
                )
            },
            PushModel::GeminiApi(_) => {
                &&& record_at(envelope(tree)->0.payload, gemini_api_names()) is Some
                &&& envelope(tree)->0.payload->0 is Object ==> only_keys(
                    envelope(tree)->0.payload->0->Object_0,
                    gemini_api_names(),
                )
            },
            PushModel::AiHubMix(_) => {
                &&& record_at(envelope(tree)->0.payload, aihubmix_names()) is Some
                &&& envelope(tree)->0.payload->0 is Object ==> only_keys(
                    envelope(tree)->0.payload->0->Object_0,
                    aihubmix_names(),
                )
            },
        },
{
}

/// A usage window with an extra field is never read.
pub proof fn law_windows_have_only_agreed_fields(tree: JsonTree)
    requires
        tree is Object,
        !only_keys(tree->Object_0, window_names()),
    ensures
        window_field(Some(tree)) is None,
{
}

/// Whatever is accepted is valid, and there is a file to keep it in.
pub proof fn law_accepted_messages_are_valid(tree: JsonTree)
    requires
        push_of(tree) is Ok,
    ensures
        match push_of(tree)->Ok_0 {
            PushModel::GeminiApps(push) => gemini_apps_error(push) is None,
            PushModel::GeminiApi(push) => gemini_api_error(push) is None,
            PushModel::AiHubMix(push) => aihubmix_error(push) is None,
        },
        push_of(tree)->Ok_0.observed_at() > 0,
        cache_file(push_of(tree)->Ok_0.provider()) is Some,
{
}

/// A frame gives back the body that was framed, whatever follows it.
pub proof fn law_frames_round_trip(body: Seq<u8>, rest: Seq<u8>)
    requires
        1 <= body.len() <= MAX_FRAME_BYTES,
    ensures
        little_endian(frame_of(body) + rest) == body.len(),
        (frame_of(body) + rest).len() >= 4 + body.len(),
        (frame_of(body) + rest).subrange(4, 4int + body.len()) == body,
{
    let stream = frame_of(body) + rest;
    let n = body.len();
    assert(stream[0] == (n % 0x100) as u8);
    assert(stream[1] == (n / 0x100 % 0x100) as u8);
    assert(stream[2] == (n / 0x1_0000 % 0x100) as u8);
    assert(stream[3] == (n / 0x100_0000 % 0x100) as u8);
    assert(stream.subrange(4, 4int + body.len()) =~= body);
}

/// Two ascending lists of the same texts are the same.
proof fn lemma_ascending_unique(a: Seq<Seq<char>>, b: Seq<Seq<char>>)
    requires
        ascending(a),
        ascending(b),
        forall|t: Seq<char>| #[trigger] a.contains(t) <==> b.contains(t),
    ensures
        a == b,
    decreases a.len(),
{
    if a.len() == 0 {
        if b.len() > 0 {
            assert(b.contains(b[0]) && a.contains(b[0]));
        }
        assert(a =~= b);
    } else {
        let x = a.last();
        assert(a.contains(a[a.len() - 1]));
        let i = choose|i: int| 0 <= i < b.len() && b[i] == x;
        let y = b.last();
        assert(b.contains(b[b.len() - 1]) && a.contains(y));
        let j = choose|j: int| 0 <= j < a.len() && a[j] == y;
        assert(x == y) by {
            lemma_precedes_total(x, y);
            if i < b.len() - 1 {
                assert(precedes(b[i], b[b.len() - 1]));
            }
            if j < a.len() - 1 {
                assert(precedes(a[j], a[a.len() - 1]));
            }
        }
        let p = a.drop_last();
        let q = b.drop_last();
        assert(ascending(p)) by {
            assert forall|m: int, n: int| 0 <= m < n < p.len() implies precedes(#[trigger] p[m], #[trigger] p[n]) by {
                assert(precedes(a[m], a[n]));
            }
        }
        assert(ascending(q)) by {
            assert forall|m: int, n: int| 0 <= m < n < q.len() implies precedes(#[trigger] q[m], #[trigger] q[n]) by {
                assert(precedes(b[m], b[n]));
            }
        }
        assert forall|t: Seq<char>| #[trigger] p.contains(t) <==> q.contains(t) by {
            if p.contains(t) {
                let k = choose|k: int| 0 <= k < p.len() && p[k] == t;
                assert(a[k] == t);
                assert(a.contains(t));
                let l = choose|l: int| 0 <= l < b.len() && b[l] == t;
                assert(precedes(a[k], a[a.len() - 1]));
                lemma_precedes_total(t, x);
                assert(l < b.len() - 1);
                assert(q[l] == t);
            }
            if q.contains(t) {
                let k = choose|k: int| 0 <= k < q.len() && q[k] == t;
                assert(b[k] == t);
                assert(b.contains(t) && a.contains(t));
                let l = choose|l: int| 0 <= l < a.len() && a[l] == t;
                assert(precedes(b[k], b[b.len() - 1]));
                lemma_precedes_total(t, y);
                assert(l < a.len() - 1);
                assert(p[l] == t);
            }
        }
        lemma_ascending_unique(p, q);
        assert(a =~= p.push(x));
        assert(b =~= q.push(y));
    }
}

/// An origin stands on a line of its own as it is.
proof fn lemma_origin_line(origin: Seq<char>)
    requires
        origin_ok(origin),
    ensures
        is_line(origin),
        trimmed(origin) == origin,
{
    reveal_strlit("chrome-extension://");
    reveal_strlit("/");
    let id = choose|id: Seq<char>| extension_id_ok(id) && origin == "chrome-extension://"@ + id + "/"@;
    let head = "chrome-extension://"@;
    assert(head.len() == 19 && "/"@.len() == 1);
    assert(origin.first() == head[0] && head[0] == 'c');
    assert(origin.last() == "/"@[0] && "/"@[0] == '/');
    assert forall|i: int| 0 <= i < origin.len() implies #[trigger] origin[i] != '\n' by {
        if i < 19 {
            assert(origin[i] == head[i]);
        } else if i < 19 + id.len() {
            assert(origin[i] == id[i - 19]);
        } else {
            assert(origin[i] == "/"@[0]);
        }
    }
}

/// A list of origins that is written one a line and read again is the same list.
pub proof fn law_origin_lists_are_stable(value: Seq<char>, origins: Seq<Seq<char>>, again: Seq<Seq<char>>)
    requires
        is_origin_list(value, origins),
        is_origin_list(joined(origins, seq!['\n']), again),
    ensures
        again == origins,
{
    let row = joined(origins, seq!['\n']);
    assert forall|i: int| 0 <= i < origins.len() implies is_line(#[trigger] origins[i]) && trimmed(origins[i])
        == origins[i] && origin_ok(origins[i]) by {
        assert(origins.contains(origins[i]));
        lemma_origin_line(origins[i]);
    }
    lemma_lines_of_joined(origins);
    assert forall|origin: Seq<char>| #[trigger] again.contains(origin) <==> origins.contains(origin) by {
        if origins.contains(origin) {
            let i = choose|i: int| 0 <= i < origins.len() && origins[i] == origin;
            assert(trimmed(lines_of(row)[i]) == origin);
            assert(listed(lines_of(row), lines_of(row).len() as int, origin));
        }
        if again.contains(origin) {
            let i = choose|i: int| 0 <= i < lines_of(row).len() && trimmed(#[trigger] lines_of(row)[i]) == origin;
            assert(origins[i] == origin);
        }
    }
    lemma_ascending_unique(again, origins);
}

/// The text that an object holds under a key.
pub open spec fn text_at(tree: JsonTree, key: Seq<char>) -> Option<Seq<char>> {
    match tree.field(key) {
        Some(JsonTree::Text(s)) => Some(s),
        _ => None,
    }
}

/// The number that an object holds under a key.
pub open spec fn number_at(tree: JsonTree, key: Seq<char>) -> Option<Binary64> {
    match tree.field(key) {
        Some(JsonTree::Number(n)) => n.double,
        _ => None,
    }
}

/// The whole number that an object holds under a key.
pub open spec fn integer_at(tree: JsonTree, key: Seq<char>) -> Option<i64> {
    match tree.field(key) {
        Some(JsonTree::Number(n)) => n.integer,
        _ => None,
    }
}

/// The count that an object holds under a key.
pub open spec fn natural_at(tree: JsonTree, key: Seq<char>) -> Option<u64> {
    match tree.field(key) {
        Some(JsonTree::Number(n)) => n.natural,
        _ => None,
    }
}

/// A usage window is what stands under its three keys; a reset that is left out or null is none.
pub proof fn law_windows_stand_under_their_keys(tree: JsonTree)
    requires
        tree is Object,
    ensures
        window_field(Some(tree)) is Some ==> {
            let window = window_field(Some(tree))->0;
            &&& text_at(tree, "label"@) == Some(window.label)
            &&& number_at(tree, "used_percent"@) == Some(window.used_percent)
            &&& window.resets_at == text_at(tree, "resets_at"@)
        },
        only_keys(tree->Object_0, window_names()) && text_at(tree, "label"@) is Some && number_at(
            tree,
            "used_percent"@,
        ) is Some && (tree.field("resets_at"@) is None || text_at(tree, "resets_at"@) is Some) ==> window_field(
            Some(tree),
        ) is Some,
{
    let names = window_names();
    assert(names[0] == "label"@ && names[1] == "used_percent"@ && names[2] == "resets_at"@);
}

/// What stands around a payload is read from its own keys.
pub proof fn law_envelopes_stand_under_their_keys(tree: JsonTree)
    requires
        tree is Object,
    ensures
        envelope(tree) is Some ==> {
            let e = envelope(tree)->0;
            &&& natural_at(tree, "version"@) == Some(e.version as u64)
            &&& text_at(tree, "provider"@) == Some(e.provider)
            &&& integer_at(tree, "observed_at"@) == Some(e.observed_at)
            &&& e.payload == tree.field("payload"@)
        },
        only_keys(tree->Object_0, push_names()) && natural_at(tree, "version"@) is Some && natural_at(
            tree,
            "version"@,
        )->0 <= u32::MAX && text_at(tree, "provider"@) is Some && integer_at(tree, "observed_at"@) is Some
            ==> envelope(tree) is Some,
{
    let names = push_names();
    assert(names[0] == "version"@ && names[1] == "provider"@ && names[2] == "observed_at"@ && names[3] == "payload"@);
}

/// A Gemini Apps message is what stands under its keys: the current window under `current`, the
/// weekly one under `weekly`.
pub proof fn law_gemini_apps_messages_stand_under_their_keys(tree: JsonTree)
    requires
        tree is Object,
        tree.field("payload"@) is Some && tree.field("payload"@)->0 is Object,
        gemini_apps_message(tree) is Some,
    ensures
        ({
            let push = gemini_apps_message(tree)->0;
            let payload = tree.field("payload"@)->0;
            &&& natural_at(tree, "version"@) == Some(push.version as u64)
            &&& text_at(tree, "provider"@) == Some(push.provider)
            &&& integer_at(tree, "observed_at"@) == Some(push.observed_at)
            &&& text_at(payload, "account_id"@) == Some(push.account_id)
            &&& push.plan == text_at(payload, "plan"@)
            &&& text_at(payload, "source"@) == Some(push.source)
            &&& window_field(payload.field("current"@)) == Some(push.current)
            &&& window_field(payload.field("weekly"@)) == Some(push.weekly)
        }),
{
    law_envelopes_stand_under_their_keys(tree);
    let names = gemini_apps_names();
    assert(names[0] == "account_id"@ && names[1] == "plan"@ && names[2] == "source"@ && names[3] == "current"@
        && names[4] == "weekly"@);
}

/// A spend is what stands under its keys; amounts and labels that are left out or null are none.
pub proof fn law_spends_stand_under_their_keys(tree: JsonTree)
    requires
        tree is Object,
        spend_in(tree) is Some,
    ensures
        ({
            let spend = spend_in(tree)->0;
            &&& number_at(tree, "used"@) == Some(spend.used)
            &&& spend.cap_used == number_at(tree, "cap_used"@)
            &&& spend.limit == number_at(tree, "limit"@)
            &&& text_at(tree, "currency"@) == Some(spend.currency)
            &&& text_at(tree, "period"@) == Some(spend.period)
            &&& spend.resets_at == text_at(tree, "resets_at"@)
            &&& spend.scope == text_at(tree, "scope"@)
            &&& text_at(tree, "source"@) == Some(spend.source)
        }),
{
    let names = gemini_api_names();
    assert(names[0] == "used"@ && names[1] == "cap_used"@ && names[2] == "limit"@ && names[3] == "currency"@
        && names[4] == "period"@ && names[5] == "resets_at"@ && names[6] == "scope"@ && names[7] == "source"@);
}

/// A Gemini API message is its envelope and the spend under `payload`, field by field.
pub proof fn law_gemini_api_messages_stand_under_their_keys(tree: JsonTree)
    requires
        tree is Object,
        gemini_api_message(tree) is Some,
    ensures
        tree.field("payload"@) is Some && spend_in(tree.field("payload"@)->0) is Some,
        ({
            let push = gemini_api_message(tree)->0;
            let spend = spend_in(tree.field("payload"@)->0)->0;
            &&& natural_at(tree, "version"@) == Some(push.version as u64)
            &&& text_at(tree, "provider"@) == Some(push.provider)
            &&& integer_at(tree, "observed_at"@) == Some(push.observed_at)
            &&& push.used == spend.used && push.cap_used == spend.cap_used && push.limit == spend.limit
            &&& push.currency == spend.currency && push.period == spend.period
            &&& push.resets_at == spend.resets_at && push.scope == spend.scope && push.source == spend.source
        }),
{
    law_envelopes_stand_under_their_keys(tree);
}

/// An AIHubMix message is what stands under its keys.
pub proof fn law_aihubmix_messages_stand_under_their_keys(tree: JsonTree)
    requires
        tree is Object,
        tree.field("payload"@) is Some && tree.field("payload"@)->0 is Object,
        aihubmix_message(tree) is Some,
    ensures
        ({
            let push = aihubmix_message(tree)->0;
            let payload = tree.field("payload"@)->0;
            &&& natural_at(tree, "version"@) == Some(push.version as u64)
            &&& text_at(tree, "provider"@) == Some(push.provider)
            &&& integer_at(tree, "observed_at"@) == Some(push.observed_at)
            &&& number_at(payload, "funded_balance_usd"@) == Some(push.funded_balance_usd)
            &&& push.funding_created_at == integer_at(payload, "funding_created_at"@)
            &&& text_at(payload, "source"@) == Some(push.source)
        }),
{
    law_envelopes_stand_under_their_keys(tree);
    let names = aihubmix_names();
    assert(names[0] == "funded_balance_usd"@ && names[1] == "funding_created_at"@ && names[2] == "source"@);
}

/// A message is read by the provider that it names, and accepted exactly where it is well
/// formed and nothing is wrong with it.
pub proof fn law_messages_go_to_their_provider(tree: JsonTree)
    ensures
        text_at(tree, "provider"@) is None ==> push_of(tree) is Err,
        text_at(tree, "provider"@) is Some ==> {
            let provider = text_at(tree, "provider"@)->0;
            &&& provider == "gemini-apps"@ ==> match gemini_apps_message(tree) {
                Some(push) if gemini_apps_error(push) is None => push_of(tree) == Ok::<PushModel, Seq<char>>(
                    PushModel::GeminiApps(push),
                ),
                _ => push_of(tree) is Err,
            }
            &&& provider == "gemini-api"@ ==> match gemini_api_message(tree) {
                Some(push) if gemini_api_error(push) is None => push_of(tree) == Ok::<PushModel, Seq<char>>(
                    PushModel::GeminiApi(push),
                ),
                _ => push_of(tree) is Err,
            }
            &&& provider == "aihubmix"@ ==> match aihubmix_message(tree) {
                Some(push) if aihubmix_error(push) is None => push_of(tree) == Ok::<PushModel, Seq<char>>(
                    PushModel::AiHubMix(push),
                ),
                _ => push_of(tree) is Err,
            }
            &&& provider != "gemini-apps"@ && provider != "gemini-api"@ && provider != "aihubmix"@ ==> push_of(
                tree,
            ) == Err::<PushModel, Seq<char>>("unsupported provider: "@ + provider)
        },
{
    reveal_strlit("gemini-apps");
    reveal_strlit("gemini-api");
    reveal_strlit("aihubmix");
    assert("gemini-apps"@.len() == 11 && "gemini-api"@.len() == 10 && "aihubmix"@.len() == 8);
}

/// A Gemini Apps message is right where its version, provider, time, slot, plan, source and
/// both windows are, each with its own label.
pub proof fn law_right_gemini_apps_messages(push: GeminiAppsModel)
    ensures
        gemini_apps_error(push) is None <==> {
            &&& push.version == 1 && push.provider == "gemini-apps"@ && push.observed_at >= 1
            &&& account_slot_ok(push.account_id) && plan_ok(push.plan)
            &&& push.source == "jSf9Qc"@ || push.source == "VxUbXb"@ || push.source == "dom"@
            &&& push.current.label == "Current usage"@ && push.weekly.label == "Weekly limit"@
            &&& push.current.used_percent.finite() && is_percentage(push.current.used_percent)
            &&& push.weekly.used_percent.finite() && is_percentage(push.weekly.used_percent)
            &&& reset_ok(push.current.resets_at) && reset_ok(push.weekly.resets_at)
        },
{
}

/// A Gemini API message is right where its amounts are amounts, a cap has both of its sides,
/// and its labels are safe to show.
pub proof fn law_right_gemini_api_messages(push: GeminiApiModel)
    ensures
        gemini_api_error(push) is None <==> {
            &&& push.version == 1 && push.provider == "gemini-api"@ && push.observed_at >= 1
            &&& amount_ok(push.used)
            &&& push.cap_used is Some ==> amount_ok(push.cap_used->0)
            &&& push.limit is Some ==> positive_amount_ok(push.limit->0) && push.cap_used is Some
            &&& push.currency == "USD"@ || push.currency == "EUR"@ || push.currency == "GBP"@ || push.currency
                == "JPY"@
            &&& period_ok(push.period) && scope_ok(push.scope) && reset_ok(push.resets_at)
            &&& push.source == "dom"@
        },
{
}

/// An AIHubMix message is right where the funded balance is above zero and the funding does
/// not lie ahead of the observation by more than a minute.
pub proof fn law_right_aihubmix_messages(push: AiHubMixModel)
    ensures
        aihubmix_error(push) is None <==> {
            &&& push.version == 1 && push.provider == "aihubmix"@ && push.observed_at >= 1
            &&& positive_amount_ok(push.funded_balance_usd)
            &&& push.funding_created_at is Some ==> 1 <= push.funding_created_at->0 <= push.observed_at + 60
            &&& push.source == "network"@ || push.source == "dom"@
        },
{
}

/// No safe label holds an at sign; a label may be left out.
pub proof fn law_labels_hide_accounts(s: Seq<char>, i: int)
    requires
        0 <= i < s.len(),
        s[i] == '@',
    ensures
        !period_ok(s),
        !scope_ok(Some(s)),
        scope_ok(None),
{
    reveal_strlit("@");
    assert(s.subrange(i, i + 1) =~= "@"@);
    assert(crate::text::occurs_at(s, "@"@, i));
}

/// An answer to an accepted message says so, and names provider, time and file; the answer to
/// a refused one says why.
pub proof fn law_answers_say_what_happened(push: PushModel, cache: Option<Seq<char>>, error: Seq<char>)
    ensures
        response_tree(push, cache).field("ok"@) == Some(JsonTree::Bool(true)),
        response_tree(push, cache).field("provider"@) == Some(JsonTree::Text(push.provider())),
        response_tree(push, cache).field("observed_at"@) is Some,
        response_tree(push, cache).field("observed_at"@)->0.integer() == Some(push.observed_at()),
        cache is Some ==> response_tree(push, cache).field("cache"@) == Some(JsonTree::Text(cache->0)),
        cache is None ==> response_tree(push, cache).field("cache"@) == Some(JsonTree::Null),
        response_tree(push, cache).field("error"@) is None,
        refusal_tree(error).field("ok"@) == Some(JsonTree::Bool(false)),
        refusal_tree(error).field("error"@) == Some(JsonTree::Text(error)),
        refusal_tree(error).field("cache"@) is None,
{
    reveal_strlit("cache");
    reveal_strlit("observed_at");
    reveal_strlit("ok");
    reveal_strlit("provider");
    reveal_strlit("error");
    assert("cache"@.len() == 5 && "error"@.len() == 5 && "cache"@[0] == 'c' && "error"@[0] == 'e');
    assert("observed_at"@.len() == 11 && "ok"@.len() == 2 && "provider"@.len() == 8);
    let a = response_tree(push, cache)->Object_0;
    assert(a.len() == 4);
    crate::json::law_fields_are_found_by_their_keys(a, "cache"@, 0);
    crate::json::law_fields_are_found_by_their_keys(a, "observed_at"@, 1);
    crate::json::law_fields_are_found_by_their_keys(a, "ok"@, 2);
    crate::json::law_fields_are_found_by_their_keys(a, "provider"@, 3);
    crate::json::law_fields_are_found_by_their_keys(a, "error"@, 0);
    let b = refusal_tree(error)->Object_0;
    assert(b.len() == 2);
    crate::json::law_fields_are_found_by_their_keys(b, "error"@, 0);
    crate::json::law_fields_are_found_by_their_keys(b, "ok"@, 1);
    crate::json::law_fields_are_found_by_their_keys(b, "cache"@, 0);
}

/// The first byte of a length weighs one, and each further byte 256 times as much as the one
/// before it. Messages of up to 64 KiB are taken.
pub proof fn law_lengths_are_written_lowest_byte_first(a: u8, b: u8, c: u8, d: u8)
    ensures
        little_endian(seq![a, 0u8, 0u8, 0u8]) == a,
        little_endian(seq![a, b, c, d]) == a + 256 * little_endian(seq![b, c, d, 0u8]),
        MAX_FRAME_BYTES == 64 * 1024,
{
}

/// An amount is a finite double that is not below zero, a positive one lies above it, and a
/// percentage lies between 0 and 100.
pub proof fn law_amounts_are_told_by_their_value(x: Binary64)
    requires
        x.finite(),
    ensures
        amount_ok(x) <==> x.value() >= 0,
        positive_amount_ok(x) <==> x.value() > 0,
        is_percentage(x) <==> 0 <= x.value() <= 100 * vstd::arithmetic::power2::pow2(1074),
{
    crate::binary64::arith::lemma_integer_order(0, 100);
    crate::binary64::arith::lemma_integer_exact(0);
    crate::binary64::arith::lemma_integer_exact(100);
    crate::binary64::arith::law_order_is_by_value(x, crate::binary64::of_integer(0));
    crate::binary64::arith::law_order_is_by_value(crate::binary64::of_integer(0), x);
    crate::binary64::arith::law_order_is_by_value(x, crate::binary64::of_integer(100));
    crate::binary64::arith::law_order_is_by_value(crate::binary64::of_integer(100), x);
    assert(0 * vstd::arithmetic::power2::pow2(1074) == 0);
}

/// What is no number or infinite is neither an amount nor a percentage.
pub proof fn law_amounts_are_finite(x: Binary64)
    requires
        !x.finite(),
    ensures
        !amount_ok(x),
        !positive_amount_ok(x),
{
}

/// An origin is the scheme of extensions, 32 letters from `a` to `p`, and a slash.
pub proof fn law_origins_have_one_form(origin: Seq<char>)
    ensures
        origin_ok(origin) <==> {
            &&& origin.len() == 52
            &&& origin.subrange(0, 19) == "chrome-extension://"@
            &&& forall|i: int| 19 <= i < 51 ==> 'a' <= #[trigger] origin[i] <= 'p'
            &&& origin[51] == '/'
        },
{
    reveal_strlit("chrome-extension://");
    reveal_strlit("/");
    let head = "chrome-extension://"@;
    assert(head.len() == 19 && "/"@.len() == 1 && "/"@[0] == '/');
    if origin_ok(origin) {
        let id = choose|id: Seq<char>| extension_id_ok(id) && origin == "chrome-extension://"@ + id + "/"@;
        assert(origin.subrange(0, 19) =~= head);
        assert forall|i: int| 19 <= i < 51 implies 'a' <= #[trigger] origin[i] <= 'p' by {
            assert(origin[i] == id[i - 19]);
        }
    }
    if origin.len() == 52 && origin.subrange(0, 19) == head && (forall|i: int|
        19 <= i < 51 ==> 'a' <= #[trigger] origin[i] <= 'p') && origin[51] == '/' {
        let id = origin.subrange(19, 51);
        assert forall|i: int| 0 <= i < id.len() implies 'a' <= #[trigger] id[i] <= 'p' by {
            assert(id[i] == origin[i + 19]);
        }
        assert forall|i: int| 0 <= i < 52 implies origin[i] == (head + id + "/"@)[i] by {
            if i < 19 {
                assert(origin[i] == origin.subrange(0, 19)[i]);
            }
        }
        assert(origin =~= head + id + "/"@);
        assert(extension_id_ok(id));
    }
}

/// What was framed is read again as it was, whatever follows it; a frame that is cut short, or
/// that is empty or too long, is told apart from the end of the stream.
pub proof fn law_framed_bodies_are_read_again(body: Seq<u8>, rest: Seq<u8>, n: int)
    requires
        0 < n < 4 + body.len(),
        1 <= body.len() <= 65536,
    ensures
        first_frame(frame_of(body) + rest) == FrameModel::Frame(body),
        first_frame(frame_of(body).take(n)) == FrameModel::Truncated,
        first_frame(Seq::empty()) == FrameModel::End,
        first_frame(frame_of(Seq::empty()) + rest) is InvalidLength,
{
    law_frames_round_trip(body, rest);
    let stream = frame_of(body) + rest;
    assert(stream.take(4) =~= little_endian_bytes(body.len()));
    assert(little_endian(stream.take(4)) == little_endian(stream));
    let cut = frame_of(body).take(n);
    if n >= 4 {
        assert(cut.take(4) =~= little_endian_bytes(body.len()));
    }
    let empty = frame_of(Seq::empty()) + rest;
    assert(empty.take(4) =~= little_endian_bytes(0));
    assert(little_endian(little_endian_bytes(0)) == 0);
}

/// A plan and the labels of a spend have from 1 to 64 bytes, a reset time at most 64, a slot at
/// most 8 digits; a label names neither an address nor an account. A plan, a reset time and a
/// scope may be left out.
pub proof fn law_labels_are_short(s: Seq<char>)
    ensures
        plan_ok(None) && scope_ok(None) && reset_ok(None),
        plan_ok(Some(s)) <==> 1 <= encode_utf8(s).len() < 65,
        reset_ok(Some(s)) <==> encode_utf8(s).len() < 65 && rfc3339_instant(s) is Ok,
        account_slot_ok(s) <==> s.len() >= 1 && encode_utf8(s).len() < 9 && (forall|i: int|
            0 <= i < s.len() ==> '0' <= #[trigger] s[i] <= '9'),
        period_ok(s) <==> 1 <= encode_utf8(s).len() < 65 && !contains(s, "@"@) && !contains(
            ascii_lowered(s),
            "billing account"@,
        ) && !contains(ascii_lowered(s), "account id"@),
        scope_ok(Some(s)) <==> 1 <= encode_utf8(s).len() < 65 && !contains(s, "@"@) && !contains(
            ascii_lowered(s),
            "billing"@,
        ) && !contains(ascii_lowered(s), "account"@),
{
}

/// The first thing that is wrong with a Gemini Apps message is what is said of it.
pub proof fn law_faults_of_gemini_apps_messages_are_named(push: GeminiAppsModel)
    ensures
        ({
            let a0 = push.version == 1;
            let a1 = push.provider == "gemini-apps"@;
            let a2 = push.observed_at >= 1;
            let a3 = account_slot_ok(push.account_id);
            let a4 = plan_ok(push.plan);
            let a5 = push.source == "jSf9Qc"@ || push.source == "VxUbXb"@ || push.source == "dom"@;
            let a6 = window_ok(push.current, "Current usage"@);
            let a7 = window_ok(push.weekly, "Weekly limit"@);
            &&& !a0 ==> gemini_apps_error(push) == Some("unsupported message version: "@ + decimal(push.version as nat))
            &&& a0 && !a1 ==> gemini_apps_error(push) == Some("unsupported provider: "@ + push.provider)
            &&& a0 && a1 && !a2 ==> gemini_apps_error(push) == Some("observed_at must be a positive Unix timestamp"@)
            &&& a0 && a1 && a2 && !a3 ==> gemini_apps_error(push) == Some("account_id must be an ASCII numeric Gemini account slot"@)
            &&& a0 && a1 && a2 && a3 && !a4 ==> gemini_apps_error(push) == Some("plan must be absent or 1..=64 bytes"@)
            &&& a0 && a1 && a2 && a3 && a4 && !a5 ==> gemini_apps_error(push) == Some("unsupported parser source: "@ + push.source)
            &&& a0 && a1 && a2 && a3 && a4 && a5 && !a6 ==> gemini_apps_error(push) == Some("invalid Current usage window"@)
            &&& a0 && a1 && a2 && a3 && a4 && a5 && a6 && !a7 ==> gemini_apps_error(push) == Some("invalid Weekly limit window"@)
        }),
{
}

/// The first thing that is wrong with a Gemini API message is what is said of it.
pub proof fn law_faults_of_gemini_api_messages_are_named(push: GeminiApiModel)
    ensures
        ({
            let a0 = push.version == 1 && push.provider == "gemini-api"@;
            let a1 = push.observed_at >= 1;
            let a2 = amount_ok(push.used);
            let a3 = push.cap_used is None || amount_ok(push.cap_used->0);
            let a4 = push.limit is None || positive_amount_ok(push.limit->0);
            let a5 = push.limit is None || push.cap_used is Some;
            let a6 = push.currency == "USD"@ || push.currency == "EUR"@ || push.currency == "GBP"@ || push.currency == "JPY"@;
            let a7 = period_ok(push.period);
            let a8 = reset_ok(push.resets_at);
            let a9 = scope_ok(push.scope);
            let a10 = push.source == "dom"@;
            &&& !a0 ==> gemini_api_error(push) == Some("unsupported Gemini API message version/provider"@)
            &&& a0 && !a1 ==> gemini_api_error(push) == Some("observed_at must be a positive Unix timestamp"@)
            &&& a0 && a1 && !a2 ==> gemini_api_error(push) == Some("used must be a finite non-negative amount"@)
            &&& a0 && a1 && a2 && !a3 ==> gemini_api_error(push) == Some("cap_used must be absent or a finite non-negative amount"@)
            &&& a0 && a1 && a2 && a3 && !a4 ==> gemini_api_error(push) == Some("limit must be absent or a finite positive amount"@)
            &&& a0 && a1 && a2 && a3 && a4 && !a5 ==> gemini_api_error(push) == Some("a configured limit requires cap_used"@)
            &&& a0 && a1 && a2 && a3 && a4 && a5 && !a6 ==> gemini_api_error(push) == Some("unsupported Gemini API currency"@)
            &&& a0 && a1 && a2 && a3 && a4 && a5 && a6 && !a7 ==> gemini_api_error(push) == Some("period must be 1..=64 bytes"@)
            &&& a0 && a1 && a2 && a3 && a4 && a5 && a6 && a7 && !a8 ==> gemini_api_error(push) == Some("invalid Gemini API reset timestamp"@)
            &&& a0 && a1 && a2 && a3 && a4 && a5 && a6 && a7 && a8 && !a9 ==> gemini_api_error(push) == Some("scope is not a safe display label"@)
            &&& a0 && a1 && a2 && a3 && a4 && a5 && a6 && a7 && a8 && a9 && !a10 ==> gemini_api_error(push) == Some("unsupported Gemini API parser source"@)
        }),
{
}

/// The first thing that is wrong with an AIHubMix message is what is said of it.
pub proof fn law_faults_of_aihubmix_messages_are_named(push: AiHubMixModel)
    ensures
        ({
            let a0 = push.version == 1 && push.provider == "aihubmix"@;
            let a1 = push.observed_at >= 1;
            let a2 = positive_amount_ok(push.funded_balance_usd);
            let a3 = push.funding_created_at is None || 1 <= push.funding_created_at->0 <= push.observed_at + 60;
            let a4 = push.source == "network"@ || push.source == "dom"@;
            &&& !a0 ==> aihubmix_error(push) == Some("unsupported AIHubMix message version/provider"@)
            &&& a0 && !a1 ==> aihubmix_error(push) == Some("observed_at must be a positive Unix timestamp"@)
            &&& a0 && a1 && !a2 ==> aihubmix_error(push) == Some("funded_balance_usd must be a finite positive amount"@)
            &&& a0 && a1 && a2 && !a3 ==> aihubmix_error(push) == Some("funding_created_at must be a plausible Unix timestamp"@)
            &&& a0 && a1 && a2 && a3 && !a4 ==> aihubmix_error(push) == Some("unsupported AIHubMix parser source"@)
        }),
{
}

/// A payload is read wherever it holds what it needs and nothing else; what may be left out may
/// be left out or null.
pub proof fn law_complete_messages_are_read(tree: JsonTree, payload: JsonTree)
    requires
        tree is Object && payload is Object,
        envelope(tree) is Some,
        tree.field("payload"@) == Some(payload),
    ensures
        gemini_apps_message(tree) is Some <==> {
            &&& only_keys(payload->Object_0, gemini_apps_names())
            &&& text_at(payload, "account_id"@) is Some && text_at(payload, "source"@) is Some
            &&& may_be_text(payload.field("plan"@))
            &&& window_field(payload.field("current"@)) is Some && window_field(payload.field("weekly"@)) is Some
        },
        aihubmix_message(tree) is Some <==> {
            &&& only_keys(payload->Object_0, aihubmix_names())
            &&& number_at(payload, "funded_balance_usd"@) is Some && text_at(payload, "source"@) is Some
            &&& payload.field("funding_created_at"@) is None || payload.field("funding_created_at"@)->0
                == JsonTree::Null || integer_at(payload, "funding_created_at"@) is Some
        },
        gemini_api_message(tree) is Some <==> {
            &&& only_keys(payload->Object_0, gemini_api_names())
            &&& number_at(payload, "used"@) is Some && text_at(payload, "currency"@) is Some
            &&& text_at(payload, "period"@) is Some && text_at(payload, "source"@) is Some
            &&& may_be_number(payload.field("cap_used"@)) && may_be_number(payload.field("limit"@))
            &&& may_be_text(payload.field("resets_at"@)) && may_be_text(payload.field("scope"@))
        },
{
    law_envelopes_stand_under_their_keys(tree);
    let names = gemini_apps_names();
    assert(names[0] == "account_id"@ && names[1] == "plan"@ && names[2] == "source"@ && names[3] == "current"@
        && names[4] == "weekly"@);
    let names = aihubmix_names();
    assert(names[0] == "funded_balance_usd"@ && names[1] == "funding_created_at"@ && names[2] == "source"@);
    let names = gemini_api_names();
    assert(names[0] == "used"@ && names[1] == "cap_used"@ && names[2] == "limit"@ && names[3] == "currency"@
        && names[4] == "period"@ && names[5] == "resets_at"@ && names[6] == "scope"@ && names[7] == "source"@);
}

/// A field that is left out, null or a text.
pub open spec fn may_be_text(field: Option<JsonTree>) -> bool {
    field is None || field->0 == JsonTree::Null || field->0 is Text
}

/// A field that is left out, null or a number that a double can hold.
pub open spec fn may_be_number(field: Option<JsonTree>) -> bool {
    field is None || field->0 == JsonTree::Null || field->0 is Number && field->0->Number_0.double is Some
}

/// What is no message says what is missing, and which message is malformed.
pub proof fn law_malformed_messages_are_named(tree: JsonTree)
    ensures
        text_at(tree, "provider"@) is None ==> push_of(tree) == Err::<PushModel, Seq<char>>(
            "browser message is missing provider"@,
        ),
        text_at(tree, "provider"@) == Some("gemini-apps"@) && gemini_apps_message(tree) is None ==> push_of(tree)
            == Err::<PushModel, Seq<char>>("invalid Gemini Apps"@ + " browser message: unexpected fields"@),
        text_at(tree, "provider"@) == Some("gemini-api"@) && gemini_api_message(tree) is None ==> push_of(tree)
            == Err::<PushModel, Seq<char>>("invalid Gemini API"@ + " browser message: unexpected fields"@),
        text_at(tree, "provider"@) == Some("aihubmix"@) && aihubmix_message(tree) is None ==> push_of(tree) == Err::<
            PushModel,
            Seq<char>,
        >("invalid AIHubMix"@ + " browser message: unexpected fields"@),
        text_at(tree, "provider"@) == Some("gemini-apps"@) && gemini_apps_message(tree) is Some && gemini_apps_error(
            gemini_apps_message(tree)->0,
        ) is Some ==> push_of(tree) == Err::<PushModel, Seq<char>>(gemini_apps_error(gemini_apps_message(tree)->0)->0),
        text_at(tree, "provider"@) == Some("gemini-api"@) && gemini_api_message(tree) is Some && gemini_api_error(
            gemini_api_message(tree)->0,
        ) is Some ==> push_of(tree) == Err::<PushModel, Seq<char>>(gemini_api_error(gemini_api_message(tree)->0)->0),
        text_at(tree, "provider"@) == Some("aihubmix"@) && aihubmix_message(tree) is Some && aihubmix_error(
            aihubmix_message(tree)->0,
        ) is Some ==> push_of(tree) == Err::<PushModel, Seq<char>>(aihubmix_error(aihubmix_message(tree)->0)->0),
{
    reveal_strlit("gemini-apps");
    reveal_strlit("gemini-api");
    reveal_strlit("aihubmix");
    assert("gemini-apps"@.len() == 11 && "gemini-api"@.len() == 10 && "aihubmix"@.len() == 8);
}

/// A length is announced by its bytes where it is from 1 to 65536; any other is named.
pub proof fn law_lengths_are_bounded(prefix: Seq<u8>)
    ensures
        1 <= little_endian(prefix) <= 65536 ==> announced(prefix) == Ok::<nat, Seq<char>>(little_endian(prefix)),
        !(1 <= little_endian(prefix) <= 65536) ==> announced(prefix) == Err::<nat, Seq<char>>(
            "native message length "@ + decimal(little_endian(prefix)) + " is outside 1..=65536"@,
        ),
{
}

} // verus!
