//! Gemini API spend, read from the cache that the browser bridge keeps.
//!
//! The net cost of the period is kept apart from the amount that counts against a
//! configured cap: only the latter gives a percentage.
pub mod browser;
pub mod script;

use crate::binary64::arith::{lemma_clamped_share, lemma_integer_order};
use crate::binary64::{clamped, of_integer, product_of, quotient_of, Binary64};
use crate::bridge::{
    amount_ok, currency_ok, decode_gemini_api, gemini_api_error, gemini_api_message, is_percentage, validate_amount,
    validate_currency, GeminiApiModel, GeminiApiSpendPush,
};
use crate::json::{json_of_text, parse_text, JsonTree};
use crate::provider::{describes, ProviderId, ProviderMetadata, SourceMode};
use crate::providers::cache::{
    age_of, bridge_source, check_bridge_source, parse_reset, reset_of, CLOCK_SKEW_SECONDS, MAX_CACHE_AGE_SECONDS,
    OutcomeModel, ReadOutcome,
};
use crate::snapshot::{
    check_view, fetch_view, informational_window, new_cost, new_usage, CostModel, CostSnapshot, ErrorModel,
    FetchModel, ProviderError, ProviderFetchResult, RateWindow, UsageModel, UsageSnapshot, WindowModel,
};
use crate::text::{byte_len, concat2, concat3, concat4, contains, contains_text, same, signed_decimal, signed_decimal_of};
use crate::timestamp::{from_unix, rfc3339_instant, seconds_between, unix_instant, Timestamp};
use vstd::prelude::*;
use vstd::utf8::encode_utf8;

verus! {

pub const CACHE_FILENAME: &'static str = "gemini-api-spend-browser.json";

pub struct GeminiApiProvider {
    pub metadata: ProviderMetadata,
}

/// The identity under which the provider is known.
pub open spec fn own_id() -> ProviderId {
    ProviderId::GeminiApi
}

/// The sources that can be asked for.
pub open spec fn own_sources() -> Seq<SourceMode> {
    seq![SourceMode::Auto, SourceMode::Web]
}

/// How the Gemini API presents itself.
pub open spec fn is_described(m: ProviderMetadata) -> bool {
    &&& describes(
        m,
        ProviderId::GeminiApi,
        "Gemini API"@,
        "Spend"@,
        "Spend"@,
        true,
        "https://aistudio.google.com/spend"@,
    )
    &&& m.status_page_url is Some
    &&& m.status_page_url->0@ == "https://status.cloud.google.com"@
}

impl GeminiApiProvider {
    pub fn new() -> (r: GeminiApiProvider)
        ensures
            is_described(r.metadata),
    {
        GeminiApiProvider {
            metadata: ProviderMetadata {
                id: ProviderId::GeminiApi,
                display_name: "Gemini API",
                session_label: "Spend",
                weekly_label: "Spend",
                supports_opus: false,
                supports_credits: true,
                default_enabled: false,
                is_primary: false,
                dashboard_url: Some("https://aistudio.google.com/spend"),
                status_page_url: Some("https://status.cloud.google.com"),
            },
        }
    }

    pub fn id(&self) -> (r: ProviderId)
        ensures
            r == own_id(),
    {
        ProviderId::GeminiApi
    }

    pub fn metadata(&self) -> (r: &ProviderMetadata)
        ensures
            *r == self.metadata,
    {
        &self.metadata
    }

    pub fn available_sources(&self) -> (r: Vec<SourceMode>)
        ensures
            r@ == own_sources(),
    {
        vec![SourceMode::Auto, SourceMode::Web]
    }

    pub fn supports_web(&self) -> (r: bool)
        ensures
            r,
            r == own_sources().contains(SourceMode::Web),
    {
        proof {
            assert(own_sources()[1] == SourceMode::Web);
        }
        true
    }

    /// Refuses a source other than the browser bridge.
    pub fn check_source(&self, mode: SourceMode) -> (r: Result<(), ProviderError>)
        ensures
            check_view(r) == bridge_source(mode),
    {
        check_bridge_source(mode)
    }
}

impl Default for GeminiApiProvider {
    fn default() -> (r: GeminiApiProvider)
        ensures
            is_described(r.metadata),
    {
        GeminiApiProvider::new()
    }
}

/// What a look at the cache file gives.
pub open spec fn text_after_read(path: Seq<char>, outcome: OutcomeModel) -> Result<Seq<char>, ErrorModel> {
    match outcome {
        OutcomeModel::Found(raw) => Ok(raw),
        OutcomeModel::Missing => Err(
            ErrorModel::NotInstalled(
                "Gemini API Browser Bridge has not produced a spend snapshot yet. Open a signed-in AI Studio Spend tab with the bridge enabled."@,
            ),
        ),
        OutcomeModel::Failed(error) => Err(
            ErrorModel::Other("Failed to read Gemini API Browser Bridge cache "@ + path + ": "@ + error),
        ),
    }
}

/// The text of the cache file, or why there is none.
pub fn after_read(path: &str, outcome: ReadOutcome) -> (r: Result<String, ProviderError>)
    ensures
        match text_after_read(path@, outcome@) {
            Ok(raw) => r is Ok && r->Ok_0@ == raw,
            Err(error) => r is Err && r->Err_0@ == error,
        },
{
    match outcome {
        ReadOutcome::Found(raw) => Ok(raw),
        ReadOutcome::Missing => Err(
            ProviderError::NotInstalled(
                "Gemini API Browser Bridge has not produced a spend snapshot yet. Open a signed-in AI Studio Spend tab with the bridge enabled.".to_string(),
            ),
        ),
        ReadOutcome::Failed(error) => Err(
            ProviderError::Other(
                concat4("Failed to read Gemini API Browser Bridge cache ", path, ": ", error.as_str()),
            ),
        ),
    }
}

/// A display label of the cache.
pub open spec fn label_ok(scope: Option<Seq<char>>) -> bool {
    match scope {
        Some(scope) => 0 < encode_utf8(scope).len() <= 64 && !contains(scope, "@"@),
        None => true,
    }
}

/// The time of observation of a valid cache, or what is wrong with it.
pub open spec fn cache_error(cache: GeminiApiModel, now: Timestamp) -> Result<Timestamp, ErrorModel> {
    if cache.version != 1 || cache.provider != "gemini-api"@ {
        Err(ErrorModel::Parse("Unsupported Gemini API Browser Bridge cache version/provider"@))
    } else {
        match unix_instant(cache.observed_at) {
            None => Err(ErrorModel::Parse("Invalid Gemini API observation timestamp"@)),
            Some(observed) => if age_of(observed, now) < -CLOCK_SKEW_SECONDS {
                Err(
                    ErrorModel::Other(
                        "Gemini API Browser Bridge snapshot is from the future; check the system clock."@,
                    ),
                )
            } else if age_of(observed, now) > MAX_CACHE_AGE_SECONDS {
                Err(
                    ErrorModel::Other(
                        "Gemini API Browser Bridge snapshot is stale ("@ + signed_decimal(age_of(observed, now))
                            + "s old). Keep a signed-in AI Studio Spend tab open so the bridge can refresh it."@,
                    ),
                )
            } else if !amount_ok(cache.used) {
                Err(ErrorModel::Parse("Invalid Gemini API spend amount"@))
            } else if cache.limit is Some && !amount_ok(cache.limit->0) {
                Err(ErrorModel::Parse("Invalid Gemini API spend limit"@))
            } else if cache.cap_used is Some && !amount_ok(cache.cap_used->0) {
                Err(ErrorModel::Parse("Invalid Gemini API capped amount"@))
            } else if !currency_ok(cache.currency) {
                Err(ErrorModel::Parse("Invalid Gemini API currency code"@))
            } else if !(0 < encode_utf8(cache.period).len() <= 64) {
                Err(ErrorModel::Parse("Invalid Gemini API spend period"@))
            } else if !label_ok(cache.scope) {
                Err(ErrorModel::Parse("Invalid Gemini API scope label"@))
            } else if cache.source != "dom"@ {
                Err(ErrorModel::Parse("Unknown Gemini API Browser Bridge parser source"@))
            } else {
                Ok(observed)
            },
        }
    }
}

/// The percentage of a cap that an amount makes up.
pub open spec fn cap_percent(used: Binary64, cap: Binary64) -> Binary64 {
    clamped(product_of(quotient_of(used, cap), of_integer(100)), of_integer(0), of_integer(100))
}

/// The window of a cache: a percentage where both sides of a cap are known, else
/// no percentage at all.
pub open spec fn spend_window(cache: GeminiApiModel, resets_at: Option<Timestamp>) -> WindowModel {
    match (cache.cap_used, cache.limit) {
        (Some(used), Some(cap)) => if of_integer(0).less(cap) {
            WindowModel {
                used_percent: cap_percent(used, cap),
                window_minutes: None,
                resets_at,
                reset_description: None,
                is_informational: false,
            }
        } else {
            informational_window("Spend only"@)
        },
        _ => informational_window("Spend only"@),
    }
}

/// The result that a cached snapshot gives at a given time.
pub open spec fn cached_result(cache: GeminiApiModel, now: Timestamp) -> Result<FetchModel, ErrorModel> {
    match cache_error(cache, now) {
        Err(error) => Err(error),
        Ok(observed) => match reset_of(cache.resets_at, "Invalid Gemini API spend reset timestamp: "@) {
            Err(error) => Err(error),
            Ok(resets_at) => Ok(
                FetchModel {
                    usage: UsageModel {
                        login_method: cache.scope,
                        ..new_usage(spend_window(cache, resets_at), observed)
                    },
                    source_label: "browser-bridge"@,
                    cost: Some(
                        CostModel {
                            limit: cache.limit,
                            resets_at,
                            ..new_cost(cache.used, cache.currency, cache.period, observed)
                        },
                    ),
                },
            ),
        },
    }
}

fn check_cache(cache: &GeminiApiSpendPush, now: Timestamp) -> (r: Result<Timestamp, ProviderError>)
    ensures
        match r {
            Ok(observed) => cache_error(cache@, now) == Ok::<Timestamp, ErrorModel>(observed),
            Err(error) => cache_error(cache@, now) == Err::<Timestamp, ErrorModel>(error@),
        },
{
    let payload = &cache.payload;
    if cache.version != 1 || !same(cache.provider.as_str(), "gemini-api") {
        return Err(ProviderError::parse("Unsupported Gemini API Browser Bridge cache version/provider"));
    }
    let observed = match from_unix(cache.observed_at) {
        Some(observed) => observed,
        None => return Err(ProviderError::parse("Invalid Gemini API observation timestamp")),
    };
    let age: i128 = seconds_between(now, observed);
    if age < -60 {
        return Err(
            ProviderError::other("Gemini API Browser Bridge snapshot is from the future; check the system clock."),
        );
    }
    if age > 86400 {
        let digits = signed_decimal_of(age);
        return Err(
            ProviderError::Other(
                concat3(
                    "Gemini API Browser Bridge snapshot is stale (",
                    digits.as_str(),
                    "s old). Keep a signed-in AI Studio Spend tab open so the bridge can refresh it.",
                ),
            ),
        );
    }
    if !validate_amount(payload.used) {
        return Err(ProviderError::parse("Invalid Gemini API spend amount"));
    }
    if let Some(limit) = payload.limit {
        if !validate_amount(limit) {
            return Err(ProviderError::parse("Invalid Gemini API spend limit"));
        }
    }
    if let Some(used) = payload.cap_used {
        if !validate_amount(used) {
            return Err(ProviderError::parse("Invalid Gemini API capped amount"));
        }
    }
    if !validate_currency(payload.currency.as_str()) {
        return Err(ProviderError::parse("Invalid Gemini API currency code"));
    }
    let n: usize = byte_len(payload.period.as_str());
    if n == 0 || n > 64 {
        return Err(ProviderError::parse("Invalid Gemini API spend period"));
    }
    let label_accepted = match &payload.scope {
        Some(scope) => {
            let n: usize = byte_len(scope.as_str());
            n > 0 && n <= 64 && !contains_text(scope.as_str(), "@")
        },
        None => true,
    };
    if !label_accepted {
        return Err(ProviderError::parse("Invalid Gemini API scope label"));
    }
    if !same(payload.source.as_str(), "dom") {
        return Err(ProviderError::parse("Unknown Gemini API Browser Bridge parser source"));
    }
    Ok(observed)
}

fn window_for(cache: &GeminiApiSpendPush, resets_at: Option<Timestamp>) -> (r: RateWindow)
    ensures
        r@ == spend_window(cache@, resets_at),
{
    if let (Some(used), Some(cap)) = (cache.payload.cap_used, cache.payload.limit) {
        let zero = Binary64::from_integer(0);
        let hundred = Binary64::from_integer(100);
        if zero.lt(cap) {
            proof {
                lemma_integer_order(0, 100);
            }
            let percent = used.over(cap).times(hundred).clamp(zero, hundred);
            return RateWindow::with_details(percent, None, resets_at, None);
        }
    }
    RateWindow::informational("Spend only".to_string())
}

/// The result that a decoded snapshot gives at a given time.
pub fn result_from_message(cache: &GeminiApiSpendPush, now: Timestamp) -> (r: Result<
    ProviderFetchResult,
    ProviderError,
>)
    ensures
        fetch_view(r) == cached_result(cache@, now),
{
    let observed = match check_cache(cache, now) {
        Ok(observed) => observed,
        Err(error) => return Err(error),
    };
    let resets_at = match parse_reset(&cache.payload.resets_at, "Invalid Gemini API spend reset timestamp: ") {
        Ok(t) => t,
        Err(error) => return Err(error),
    };
    let mut cost = CostSnapshot::new(
        cache.payload.used,
        cache.payload.currency.as_str(),
        cache.payload.period.as_str(),
        observed,
    );
    cost.limit = cache.payload.limit;
    cost.resets_at = resets_at;
    let usage = UsageSnapshot::new(window_for(cache, resets_at), observed);
    let usage = match &cache.payload.scope {
        Some(scope) => usage.with_login_method(scope.clone()),
        None => usage,
    };
    Ok(ProviderFetchResult::new(usage, "browser-bridge").with_cost(cost))
}

/// The result that the value of a cache gives at a given time.
pub open spec fn result_of_tree(tree: JsonTree, now: Timestamp) -> Result<FetchModel, ErrorModel> {
    match gemini_api_message(tree) {
        Some(cache) => cached_result(cache, now),
        None => Err(ErrorModel::Parse("Invalid Gemini API cache: unexpected fields"@)),
    }
}

/// Reads the text of a cache. A field that occurs more than once counts with its
/// last value.
pub fn result_from_cache(raw: &str, now: Timestamp) -> (r: Result<ProviderFetchResult, ProviderError>)
    ensures
        match json_of_text(raw@) {
            Ok(tree) => fetch_view(r) == result_of_tree(tree, now),
            Err(error) => fetch_view(r) == Err::<FetchModel, ErrorModel>(
                ErrorModel::Parse("Invalid Gemini API cache: "@ + error),
            ),
        },
{
    let value = match parse_text(raw) {
        Ok(value) => value,
        Err(error) => return Err(ProviderError::Parse(concat2("Invalid Gemini API cache: ", error.as_str()))),
    };
    match decode_gemini_api(&value) {
        Some(cache) => result_from_message(&cache, now),
        None => Err(ProviderError::parse("Invalid Gemini API cache: unexpected fields")),
    }
}

/// Without a configured cap no percentage is invented, and the cost is the net
/// cost whether or not there is a cap.
pub proof fn law_percentages_need_a_cap(cache: GeminiApiModel, now: Timestamp)
    requires
        cached_result(cache, now) is Ok,
    ensures
        cache.limit is None || cache.cap_used is None ==> cached_result(cache, now)->Ok_0.usage.primary
            == informational_window("Spend only"@),
        cached_result(cache, now)->Ok_0.cost is Some,
        cached_result(cache, now)->Ok_0.cost->0.used == cache.used,
{
}

/// What the host of the bridge accepts can be shown as long as it is recent: the net cost as
/// the cost, and the pair of a configured cap as the percentage.
pub proof fn law_accepted_messages_can_be_shown(cache: GeminiApiModel, now: Timestamp)
    requires
        gemini_api_error(cache) is None,
        unix_instant(cache.observed_at) is Some,
        -CLOCK_SKEW_SECONDS <= age_of(unix_instant(cache.observed_at)->0, now) <= MAX_CACHE_AGE_SECONDS,
    ensures
        cached_result(cache, now) is Ok,
        cached_result(cache, now)->Ok_0.cost->0.used == cache.used,
        cache.limit is Some ==> !cached_result(cache, now)->Ok_0.usage.primary.is_informational
            && cached_result(cache, now)->Ok_0.usage.primary.used_percent == cap_percent(
            cache.cap_used->0,
            cache.limit->0,
        ),
{
}

/// A percentage that is shown lies between 0 and 100.
pub proof fn law_percentages_stay_in_bounds(cache: GeminiApiModel, now: Timestamp)
    requires
        cached_result(cache, now) is Ok,
        !cached_result(cache, now)->Ok_0.usage.primary.is_informational,
    ensures
        is_percentage(cached_result(cache, now)->Ok_0.usage.primary.used_percent),
{
    lemma_clamped_share(cache.cap_used->0, cache.limit->0);
}

/// A snapshot that is too old, or too far in the future, is never shown.
pub proof fn law_only_fresh_snapshots_are_shown(cache: GeminiApiModel, now: Timestamp)
    requires
        cached_result(cache, now) is Ok,
    ensures
        unix_instant(cache.observed_at) is Some,
        -CLOCK_SKEW_SECONDS <= age_of(unix_instant(cache.observed_at)->0, now) <= MAX_CACHE_AGE_SECONDS,
        cached_result(cache, now)->Ok_0.usage.updated_at == unix_instant(cache.observed_at)->0,
{
}

/// A shown snapshot carries the amounts of the cache, each in its own place: the net cost with
/// its limit, currency and period, the label as the account, and the reset that its text spells.
pub proof fn law_amounts_keep_their_places(cache: GeminiApiModel, now: Timestamp)
    requires
        cached_result(cache, now) is Ok,
    ensures
        ({
            let result = cached_result(cache, now)->Ok_0;
            let cost = result.cost->0;
            let usage = result.usage;
            let observed = unix_instant(cache.observed_at)->0;
            &&& result.source_label == "browser-bridge"@
            &&& result.cost is Some
            &&& cost.used == cache.used && cost.limit == cache.limit && cost.balance is None
            &&& cost.currency_code == cache.currency && cost.currency_symbol is None
            &&& cost.period == cache.period && cost.updated_at == observed
            &&& cache.resets_at is None ==> cost.resets_at is None
            &&& cache.resets_at is Some ==> cost.resets_at is Some && rfc3339_instant(cache.resets_at->0) == Ok::<
                Timestamp,
                Seq<char>,
            >(cost.resets_at->0)
            &&& usage.login_method == cache.scope && usage.updated_at == observed
            &&& usage.secondary is None && usage.tertiary is None && usage.model_specific is None
            &&& usage.extra_rate_windows.len() == 0 && usage.account_email is None
            &&& usage.primary_label is None && usage.secondary_label is None
            &&& usage.primary.window_minutes is None
            &&& !usage.primary.is_informational ==> usage.primary.resets_at == cost.resets_at
            &&& usage.primary.is_informational ==> usage.primary.resets_at is None
                && usage.primary.reset_description == Some("Spend only"@)
        }),
{
}

/// Where both sides of a cap are known, the percentage is what the capped amount makes up of
/// the cap, held between 0 and 100; the net cost has no part in it.
pub proof fn law_the_cap_pair_is_the_percentage(cache: GeminiApiModel, now: Timestamp, used: Binary64, cap: Binary64)
    requires
        cached_result(cache, now) is Ok,
        cache.cap_used == Some(used),
        cache.limit == Some(cap),
        of_integer(0).less(cap),
    ensures
        ({
            let share = product_of(quotient_of(used, cap), of_integer(100));
            let primary = cached_result(cache, now)->Ok_0.usage.primary;
            &&& !primary.is_informational
            &&& share.less(of_integer(0)) ==> primary.used_percent == of_integer(0)
            &&& of_integer(100).less(share) ==> primary.used_percent == of_integer(100)
            &&& !share.less(of_integer(0)) && !of_integer(100).less(share) ==> primary.used_percent == share
        }),
{
    lemma_integer_order(0, 100);
}

/// A snapshot is shown exactly where version, provider, age, amounts, labels, source and reset
/// are right.
pub proof fn law_right_snapshots_are_shown(cache: GeminiApiModel, now: Timestamp)
    ensures
        cached_result(cache, now) is Ok <==> {
            &&& cache.version == 1 && cache.provider == "gemini-api"@
            &&& unix_instant(cache.observed_at) is Some
            &&& -60 <= age_of(unix_instant(cache.observed_at)->0, now) <= 86_400
            &&& amount_ok(cache.used)
            &&& cache.limit is Some ==> amount_ok(cache.limit->0)
            &&& cache.cap_used is Some ==> amount_ok(cache.cap_used->0)
            &&& cache.currency == "USD"@ || cache.currency == "EUR"@ || cache.currency == "GBP"@ || cache.currency
                == "JPY"@
            &&& 1 <= encode_utf8(cache.period).len() <= 64
            &&& cache.scope is Some ==> 1 <= encode_utf8(cache.scope->0).len() <= 64 && !contains(cache.scope->0, "@"@)
            &&& cache.source == "dom"@
            &&& cache.resets_at is Some ==> rfc3339_instant(cache.resets_at->0) is Ok
        },
{
}

/// What the host keeps is what is read here.
pub proof fn law_the_host_writes_what_is_read()
    ensures
        crate::bridge::cache_file("gemini-api"@) == Some(CACHE_FILENAME@),
        CACHE_FILENAME@ == "gemini-api-spend-browser.json"@,
{
    reveal_strlit("gemini-apps");
    reveal_strlit("gemini-api");
    assert("gemini-apps"@.len() == 11 && "gemini-api"@.len() == 10);
}

/// A file that was read is used as it is; a missing one asks for the bridge, and one that cannot
/// be read is named with its error.
pub proof fn law_files_are_used_as_they_are(path: Seq<char>, raw: Seq<char>, error: Seq<char>)
    ensures
        text_after_read(path, OutcomeModel::Found(raw)) == Ok::<Seq<char>, ErrorModel>(raw),
        text_after_read(path, OutcomeModel::Missing) is Err && text_after_read(path, OutcomeModel::Missing)->Err_0 is
            NotInstalled,
        text_after_read(path, OutcomeModel::Failed(error)) == Err::<Seq<char>, ErrorModel>(
            ErrorModel::Other("Failed to read Gemini API Browser Bridge cache "@ + path + ": "@ + error),
        ),
{
}

/// A fetch gives what the message in the cache gives; what is no message is an error.
pub proof fn law_fetches_show_their_message(tree: JsonTree, now: Timestamp)
    ensures
        gemini_api_message(tree) is None ==> result_of_tree(tree, now) is Err,
        gemini_api_message(tree) is Some ==> result_of_tree(tree, now) == cached_result(
            gemini_api_message(tree)->0,
            now,
        ),
{
}

/// The first thing that is wrong with a snapshot is what is said of it.
pub proof fn law_faults_of_snapshots_are_named(cache: GeminiApiModel, now: Timestamp)
    ensures
        ({
            let a0 = cache.version == 1 && cache.provider == "gemini-api"@;
            let a1 = unix_instant(cache.observed_at) is Some;
            let a2 = age_of(unix_instant(cache.observed_at)->0, now) >= -60;
            let a3 = age_of(unix_instant(cache.observed_at)->0, now) <= 86_400;
            let a4 = amount_ok(cache.used);
            let a5 = cache.limit is None || amount_ok(cache.limit->0);
            let a6 = cache.cap_used is None || amount_ok(cache.cap_used->0);
            let a7 = cache.currency == "USD"@ || cache.currency == "EUR"@ || cache.currency == "GBP"@ || cache.currency == "JPY"@;
            let a8 = 1 <= encode_utf8(cache.period).len() <= 64;
            let a9 = cache.scope is None || 1 <= encode_utf8(cache.scope->0).len() <= 64 && !contains(cache.scope->0, "@"@);
            let a10 = cache.source == "dom"@;
            let a11 = cache.resets_at is None || rfc3339_instant(cache.resets_at->0) is Ok;
            &&& !a0 ==> cached_result(cache, now) == Err::<FetchModel, ErrorModel>(ErrorModel::Parse("Unsupported Gemini API Browser Bridge cache version/provider"@))
            &&& a0 && !a1 ==> cached_result(cache, now) == Err::<FetchModel, ErrorModel>(ErrorModel::Parse("Invalid Gemini API observation timestamp"@))
            &&& a0 && a1 && !a2 ==> cached_result(cache, now) == Err::<FetchModel, ErrorModel>(ErrorModel::Other("Gemini API Browser Bridge snapshot is from the future; check the system clock."@))
            &&& a0 && a1 && a2 && !a3 ==> cached_result(cache, now) == Err::<FetchModel, ErrorModel>(ErrorModel::Other("Gemini API Browser Bridge snapshot is stale ("@ + signed_decimal(age_of(unix_instant(cache.observed_at)->0, now)) + "s old). Keep a signed-in AI Studio Spend tab open so the bridge can refresh it."@))
            &&& a0 && a1 && a2 && a3 && !a4 ==> cached_result(cache, now) == Err::<FetchModel, ErrorModel>(ErrorModel::Parse("Invalid Gemini API spend amount"@))
            &&& a0 && a1 && a2 && a3 && a4 && !a5 ==> cached_result(cache, now) == Err::<FetchModel, ErrorModel>(ErrorModel::Parse("Invalid Gemini API spend limit"@))
            &&& a0 && a1 && a2 && a3 && a4 && a5 && !a6 ==> cached_result(cache, now) == Err::<FetchModel, ErrorModel>(ErrorModel::Parse("Invalid Gemini API capped amount"@))
            &&& a0 && a1 && a2 && a3 && a4 && a5 && a6 && !a7 ==> cached_result(cache, now) == Err::<FetchModel, ErrorModel>(ErrorModel::Parse("Invalid Gemini API currency code"@))
            &&& a0 && a1 && a2 && a3 && a4 && a5 && a6 && a7 && !a8 ==> cached_result(cache, now) == Err::<FetchModel, ErrorModel>(ErrorModel::Parse("Invalid Gemini API spend period"@))
            &&& a0 && a1 && a2 && a3 && a4 && a5 && a6 && a7 && a8 && !a9 ==> cached_result(cache, now) == Err::<FetchModel, ErrorModel>(ErrorModel::Parse("Invalid Gemini API scope label"@))
            &&& a0 && a1 && a2 && a3 && a4 && a5 && a6 && a7 && a8 && a9 && !a10 ==> cached_result(cache, now) == Err::<FetchModel, ErrorModel>(ErrorModel::Parse("Unknown Gemini API Browser Bridge parser source"@))
            &&& a0 && a1 && a2 && a3 && a4 && a5 && a6 && a7 && a8 && a9 && a10 && !a11 ==> cached_result(cache, now) == Err::<FetchModel, ErrorModel>(ErrorModel::Parse("Invalid Gemini API spend reset timestamp: "@ + rfc3339_instant(cache.resets_at->0)->Err_0))
        }),
{
}

/// What is no message, and the lack of a file, is explained.
pub proof fn law_unknown_spend_is_explained(tree: JsonTree, now: Timestamp, path: Seq<char>)
    ensures
        gemini_api_message(tree) is None ==> result_of_tree(tree, now) == Err::<FetchModel, ErrorModel>(
            ErrorModel::Parse("Invalid Gemini API cache: unexpected fields"@),
        ),
        text_after_read(path, OutcomeModel::Missing) == Err::<Seq<char>, ErrorModel>(
            ErrorModel::NotInstalled(
                "Gemini API Browser Bridge has not produced a spend snapshot yet. Open a signed-in AI Studio Spend tab with the bridge enabled."@,
            ),
        ),
{
}

} // verus!
