//! Gemini Apps, read from the cache that the browser bridge keeps.
//!
//! The cache holds nothing but percentages, reset times, a plan label, an account
//! slot, the parser that produced them and the time of observation.
use crate::binary64::{of_integer, Binary64};
use crate::bridge::{
    account_slot_ok, decode_gemini_apps, gemini_apps_error, gemini_apps_message, is_percentage, plan_ok, validate_account_slot,
    GeminiAppsModel, GeminiAppsPush, QuotaWindow, WindowModel as QuotaModel,
};
use crate::json::{json_of_text, parse_text, JsonTree};
use crate::provider::{describes, ProviderId, ProviderMetadata, SourceMode};
use crate::providers::cache::{
    age_of, bridge_source, check_bridge_source, parse_reset, reset_of, CLOCK_SKEW_SECONDS, MAX_CACHE_AGE_SECONDS,
    OutcomeModel, ReadOutcome, ReadStep, StepModel,
};
use crate::snapshot::{
    check_view, new_usage, usage_view, ErrorModel, FetchModel, ProviderError, ProviderFetchResult, RateWindow,
    UsageModel, UsageSnapshot, WindowModel,
};
use crate::text::{byte_len, concat2, concat3, same, signed_decimal, signed_decimal_of};
use crate::timestamp::{from_unix, rfc3339_instant, seconds_between, unix_instant, Timestamp};
use vstd::prelude::*;

verus! {

pub const STABLE_CACHE_FILENAME: &'static str = "gemini-apps-browser.json";

pub const LEGACY_POC_CACHE_FILENAME: &'static str = "gemini-web-bridge-poc.json";

pub const CURRENT_WINDOW_MINUTES: u32 = 300;

pub const WEEKLY_WINDOW_MINUTES: u32 = 10080;

pub struct GeminiAppsProvider {
    pub metadata: ProviderMetadata,
}

/// The identity under which the provider is known.
pub open spec fn own_id() -> ProviderId {
    ProviderId::GeminiApps
}

/// The sources that can be asked for.
pub open spec fn own_sources() -> Seq<SourceMode> {
    seq![SourceMode::Auto, SourceMode::Web]
}

/// How Gemini Apps presents itself.
pub open spec fn is_described(m: ProviderMetadata) -> bool {
    &&& describes(
        m,
        ProviderId::GeminiApps,
        "Gemini Apps"@,
        "Current usage"@,
        "Weekly limit"@,
        false,
        "https://gemini.google.com/usage"@,
    )
    &&& m.status_page_url is None
}

impl GeminiAppsProvider {
    pub fn new() -> (r: GeminiAppsProvider)
        ensures
            is_described(r.metadata),
    {
        GeminiAppsProvider {
            metadata: ProviderMetadata {
                id: ProviderId::GeminiApps,
                display_name: "Gemini Apps",
                session_label: "Current usage",
                weekly_label: "Weekly limit",
                supports_opus: false,
                supports_credits: false,
                default_enabled: false,
                is_primary: false,
                dashboard_url: Some("https://gemini.google.com/usage"),
                status_page_url: None,
            },
        }
    }

    pub fn id(&self) -> (r: ProviderId)
        ensures
            r == own_id(),
    {
        ProviderId::GeminiApps
    }

    pub fn metadata(&self) -> (r: &ProviderMetadata)
        ensures
            *r == self.metadata,
    {
        &self.metadata
    }

    pub fn available_sources(&self) -> (r: Vec<SourceMode>)
        ensures
            r@ == own_sources(),
    {
        vec![SourceMode::Auto, SourceMode::Web]
    }

    pub fn supports_web(&self) -> (r: bool)
        ensures
            r,
            r == own_sources().contains(SourceMode::Web),
    {
        proof {
            assert(own_sources()[1] == SourceMode::Web);
        }
        true
    }

    /// Refuses a source other than the browser bridge.
    pub fn check_source(&self, mode: SourceMode) -> (r: Result<(), ProviderError>)
        ensures
            check_view(r) == bridge_source(mode),
    {
        check_bridge_source(mode)
    }
}

impl Default for GeminiAppsProvider {
    fn default() -> (r: GeminiAppsProvider)
        ensures
            is_described(r.metadata),
    {
        GeminiAppsProvider::new()
    }
}

/// The file name of a candidate.
pub open spec fn candidate_file(candidate: usize) -> Seq<char> {
    if candidate == 0 {
        "gemini-apps-browser.json"@
    } else {
        "gemini-web-bridge-poc.json"@
    }
}

/// The file names under which the cache is looked for, best first.
pub fn cache_filename(candidate: usize) -> (r: &'static str)
    ensures
        r@ == candidate_file(candidate),
{
    if candidate == 0 {
        STABLE_CACHE_FILENAME
    } else {
        LEGACY_POC_CACHE_FILENAME
    }
}

/// What to do after a look at a candidate.
pub open spec fn step_after_read(candidate: usize, path: Seq<char>, outcome: OutcomeModel) -> StepModel {
    match outcome {
        OutcomeModel::Found(raw) => StepModel::Use(raw),
        OutcomeModel::Missing => if candidate == 0 {
            StepModel::TryNext
        } else {
            StepModel::Fail(
                ErrorModel::NotInstalled(
                    "Gemini Apps Browser Bridge has not produced a usage snapshot yet. Open a signed-in Gemini Usage tab with the bridge enabled."@,
                ),
            )
        },
        OutcomeModel::Failed(error) => StepModel::Fail(
            ErrorModel::Other("Failed to read Gemini Apps Browser Bridge cache "@ + path + ": "@ + error),
        ),
    }
}

/// Uses the first candidate that exists; a file that exists but cannot be read is
/// an error, and so is the lack of all candidates.
pub fn after_read(candidate: usize, path: &str, outcome: ReadOutcome) -> (r: ReadStep)
    ensures
        r@ == step_after_read(candidate, path@, outcome@),
{
    match outcome {
        ReadOutcome::Found(raw) => ReadStep::Use(raw),
        ReadOutcome::Missing => if candidate == 0 {
            ReadStep::TryNext
        } else {
            ReadStep::Fail(
                ProviderError::NotInstalled(
                    "Gemini Apps Browser Bridge has not produced a usage snapshot yet. Open a signed-in Gemini Usage tab with the bridge enabled.".to_string(),
                ),
            )
        },
        ReadOutcome::Failed(error) => ReadStep::Fail(
            ProviderError::Other(
                crate::text::concat4(
                    "Failed to read Gemini Apps Browser Bridge cache ",
                    path,
                    ": ",
                    error.as_str(),
                ),
            ),
        ),
    }
}

/// What is wrong with a window of the cache, if anything is.
pub open spec fn window_error(window: QuotaModel, label: Seq<char>) -> Result<(), ErrorModel> {
    if window.label != label {
        Err(ErrorModel::Parse("Unexpected Gemini Apps meter label: "@ + window.label))
    } else if !window.used_percent.finite() || !is_percentage(window.used_percent) {
        Err(ErrorModel::Parse("Invalid Gemini Apps percentage for "@ + label))
    } else {
        Ok(())
    }
}

pub fn validate_window(window: &QuotaWindow, expected_label: &str) -> (r: Result<(), ProviderError>)
    ensures
        check_view(r) == window_error(window@, expected_label@),
{
    if !same(window.label.as_str(), expected_label) {
        return Err(
            ProviderError::Parse(concat2("Unexpected Gemini Apps meter label: ", window.label.as_str())),
        );
    }
    if !window.used_percent.is_finite() || !Binary64::from_integer(0).le(window.used_percent)
        || !window.used_percent.le(Binary64::from_integer(100)) {
        return Err(ProviderError::Parse(concat2("Invalid Gemini Apps percentage for ", expected_label)));
    }
    Ok(())
}

/// What is wrong with a cached snapshot before its windows are looked at.
pub open spec fn header_error(cache: GeminiAppsModel, now: Timestamp) -> Result<Timestamp, ErrorModel> {
    if cache.version != 1 || cache.provider != "gemini-apps"@ {
        Err(ErrorModel::Parse("Unsupported Gemini Apps Browser Bridge cache version/provider"@))
    } else if !account_slot_ok(cache.account_id) {
        Err(ErrorModel::Parse("Invalid Gemini Apps account slot in Browser Bridge cache"@))
    } else if cache.source != "jSf9Qc"@ && cache.source != "VxUbXb"@ && cache.source != "dom"@ {
        Err(ErrorModel::Parse("Unknown Gemini Apps Browser Bridge parser source"@))
    } else if !plan_ok(cache.plan) {
        Err(ErrorModel::Parse("Invalid Gemini Apps plan label in Browser Bridge cache"@))
    } else {
        match unix_instant(cache.observed_at) {
            None => Err(ErrorModel::Parse("Invalid Gemini Apps observation timestamp"@)),
            Some(observed) => if age_of(observed, now) < -CLOCK_SKEW_SECONDS {
                Err(
                    ErrorModel::Other(
                        "Gemini Apps Browser Bridge snapshot is from the future; check the system clock."@,
                    ),
                )
            } else if age_of(observed, now) > MAX_CACHE_AGE_SECONDS {
                Err(
                    ErrorModel::Other(
                        "Gemini Apps Browser Bridge snapshot is stale ("@ + signed_decimal(age_of(observed, now))
                            + "s old). Keep a signed-in Gemini tab open so the background bridge can refresh it."@,
                    ),
                )
            } else {
                Ok(observed)
            },
        }
    }
}

/// A reset time that has passed.
pub open spec fn expired(resets_at: Option<Timestamp>, now: Timestamp) -> bool {
    resets_at is Some && !now.before(resets_at->0)
}

/// The lane of a window whose reset has passed: nothing is known of it.
pub open spec fn unavailable_window() -> WindowModel {
    WindowModel {
        used_percent: of_integer(0),
        window_minutes: Some(CURRENT_WINDOW_MINUTES),
        resets_at: None,
        reset_description: None,
        is_informational: true,
    }
}

pub open spec fn quota_window(window: QuotaModel, minutes: u32, resets_at: Option<Timestamp>) -> WindowModel {
    WindowModel {
        used_percent: window.used_percent,
        window_minutes: Some(minutes),
        resets_at,
        reset_description: None,
        is_informational: false,
    }
}

/// The usage that a cached snapshot shows at a given time.
///
/// A current window whose reset has passed is shown as unavailable; once the
/// weekly window has passed too the snapshot is of no use.
pub open spec fn cached_usage(cache: GeminiAppsModel, now: Timestamp) -> Result<UsageModel, ErrorModel> {
    match header_error(cache, now) {
        Err(error) => Err(error),
        Ok(observed) => match (
            window_error(cache.current, "Current usage"@),
            window_error(cache.weekly, "Weekly limit"@),
            reset_of(cache.current.resets_at, "Invalid Gemini Apps reset timestamp: "@),
            reset_of(cache.weekly.resets_at, "Invalid Gemini Apps reset timestamp: "@),
        ) {
            (Err(error), _, _, _) => Err(error),
            (_, Err(error), _, _) => Err(error),
            (_, _, Err(error), _) => Err(error),
            (_, _, _, Err(error)) => Err(error),
            (Ok(_), Ok(_), Ok(current), Ok(weekly)) => if expired(current, now) && expired(weekly, now) {
                Err(
                    ErrorModel::Other(
                        "Both Gemini Apps usage windows have reset since the last Browser Bridge snapshot. Keep a signed-in Gemini tab open so the background bridge can refresh it."@,
                    ),
                )
            } else {
                Ok(
                    UsageModel {
                        secondary: Some(quota_window(cache.weekly, WEEKLY_WINDOW_MINUTES, weekly)),
                        login_method: cache.plan,
                        ..new_usage(
                            if expired(current, now) {
                                unavailable_window()
                            } else {
                                quota_window(cache.current, CURRENT_WINDOW_MINUTES, current)
                            },
                            observed,
                        )
                    },
                )
            },
        },
    }
}

fn check_header(cache: &GeminiAppsPush, now: Timestamp) -> (r: Result<Timestamp, ProviderError>)
    ensures
        match r {
            Ok(observed) => header_error(cache@, now) == Ok::<Timestamp, ErrorModel>(observed),
            Err(error) => header_error(cache@, now) == Err::<Timestamp, ErrorModel>(error@),
        },
{
    if cache.version != 1 || !same(cache.provider.as_str(), "gemini-apps") {
        return Err(ProviderError::parse("Unsupported Gemini Apps Browser Bridge cache version/provider"));
    }
    if !validate_account_slot(cache.payload.account_id.as_str()) {
        return Err(ProviderError::parse("Invalid Gemini Apps account slot in Browser Bridge cache"));
    }
    let source = cache.payload.source.as_str();
    if !same(source, "jSf9Qc") && !same(source, "VxUbXb") && !same(source, "dom") {
        return Err(ProviderError::parse("Unknown Gemini Apps Browser Bridge parser source"));
    }
    let plan_accepted = match &cache.payload.plan {
        Some(plan) => {
            let n: usize = byte_len(plan.as_str());
            n > 0 && n <= 64
        },
        None => true,
    };
    if !plan_accepted {
        return Err(ProviderError::parse("Invalid Gemini Apps plan label in Browser Bridge cache"));
    }
    let observed = match from_unix(cache.observed_at) {
        Some(observed) => observed,
        None => return Err(ProviderError::parse("Invalid Gemini Apps observation timestamp")),
    };
    let age: i128 = seconds_between(now, observed);
    if age < -60 {
        return Err(
            ProviderError::other(
                "Gemini Apps Browser Bridge snapshot is from the future; check the system clock.",
            ),
        );
    }
    if age > 86400 {
        let digits = signed_decimal_of(age);
        return Err(
            ProviderError::Other(
                concat3(
                    "Gemini Apps Browser Bridge snapshot is stale (",
                    digits.as_str(),
                    "s old). Keep a signed-in Gemini tab open so the background bridge can refresh it.",
                ),
            ),
        );
    }
    Ok(observed)
}

fn has_expired(resets_at: Option<Timestamp>, now: Timestamp) -> (r: bool)
    ensures
        r == expired(resets_at, now),
{
    match resets_at {
        Some(t) => !now.is_before(t),
        None => false,
    }
}

/// The usage that a decoded snapshot shows at a given time.
pub fn usage_from_message(cache: &GeminiAppsPush, now: Timestamp) -> (r: Result<UsageSnapshot, ProviderError>)
    ensures
        usage_view(r) == cached_usage(cache@, now),
{
    let observed = match check_header(cache, now) {
        Ok(observed) => observed,
        Err(error) => return Err(error),
    };
    if let Err(error) = validate_window(&cache.payload.current, "Current usage") {
        return Err(error);
    }
    if let Err(error) = validate_window(&cache.payload.weekly, "Weekly limit") {
        return Err(error);
    }
    let current = match parse_reset(&cache.payload.current.resets_at, "Invalid Gemini Apps reset timestamp: ") {
        Ok(t) => t,
        Err(error) => return Err(error),
    };
    let weekly = match parse_reset(&cache.payload.weekly.resets_at, "Invalid Gemini Apps reset timestamp: ") {
        Ok(t) => t,
        Err(error) => return Err(error),
    };
    let primary = if has_expired(current, now) {
        if has_expired(weekly, now) {
            return Err(
                ProviderError::other(
                    "Both Gemini Apps usage windows have reset since the last Browser Bridge snapshot. Keep a signed-in Gemini tab open so the background bridge can refresh it.",
                ),
            );
        }
        RateWindow {
            used_percent: Binary64::from_integer(0),
            window_minutes: Some(CURRENT_WINDOW_MINUTES),
            resets_at: None,
            reset_description: None,
            is_informational: true,
        }
    } else {
        RateWindow::with_details(
            cache.payload.current.used_percent,
            Some(CURRENT_WINDOW_MINUTES),
            current,
            None,
        )
    };
    let secondary = RateWindow::with_details(
        cache.payload.weekly.used_percent,
        Some(WEEKLY_WINDOW_MINUTES),
        weekly,
        None,
    );
    let usage = UsageSnapshot::new(primary, observed).with_secondary(secondary);
    match &cache.payload.plan {
        Some(plan) => Ok(usage.with_login_method(plan.clone())),
        None => Ok(usage),
    }
}

/// The usage that the text of a cache shows at a given time.
pub open spec fn usage_of_tree(tree: JsonTree, now: Timestamp) -> Result<UsageModel, ErrorModel> {
    match gemini_apps_message(tree) {
        Some(cache) => cached_usage(cache, now),
        None => Err(ErrorModel::Parse("Invalid Gemini Apps cache: unexpected fields"@)),
    }
}

/// Reads the text of a cache. A field that occurs more than once counts with its
/// last value.
pub fn usage_from_cache(raw: &str, now: Timestamp) -> (r: Result<UsageSnapshot, ProviderError>)
    ensures
        match json_of_text(raw@) {
            Ok(tree) => usage_view(r) == usage_of_tree(tree, now),
            Err(error) => usage_view(r) == Err::<UsageModel, ErrorModel>(
                ErrorModel::Parse("Invalid Gemini Apps cache: "@ + error),
            ),
        },
{
    let value = match parse_text(raw) {
        Ok(value) => value,
        Err(error) => return Err(ProviderError::Parse(concat2("Invalid Gemini Apps cache: ", error.as_str()))),
    };
    match decode_gemini_apps(&value) {
        Some(cache) => usage_from_message(&cache, now),
        None => Err(ProviderError::parse("Invalid Gemini Apps cache: unexpected fields")),
    }
}

/// The outcome of a fetch from the value of a cache.
pub open spec fn result_of_tree(tree: JsonTree, now: Timestamp) -> Result<FetchModel, ErrorModel> {
    match usage_of_tree(tree, now) {
        Ok(usage) => Ok(FetchModel { usage, source_label: "browser-bridge"@, cost: None }),
        Err(error) => Err(error),
    }
}

/// The outcome of a fetch from the text of a cache.
pub fn fetch_from_cache(raw: &str, now: Timestamp) -> (r: Result<ProviderFetchResult, ProviderError>)
    ensures
        match json_of_text(raw@) {
            Ok(tree) => match result_of_tree(tree, now) {
                Ok(result) => r is Ok && r->Ok_0@ == result,
                Err(error) => r is Err && r->Err_0@ == error,
            },
            Err(error) => r is Err && r->Err_0@ == ErrorModel::Parse("Invalid Gemini Apps cache: "@ + error),
        },
{
    match usage_from_cache(raw, now) {
        Ok(usage) => Ok(ProviderFetchResult::new(usage, "browser-bridge")),
        Err(error) => Err(error),
    }
}

/// A snapshot that is too old, or too far in the future, is never shown.
pub proof fn law_only_fresh_snapshots_are_shown(cache: GeminiAppsModel, now: Timestamp)
    requires
        cached_usage(cache, now) is Ok,
    ensures
        unix_instant(cache.observed_at) is Some,
        -CLOCK_SKEW_SECONDS <= age_of(unix_instant(cache.observed_at)->0, now) <= MAX_CACHE_AGE_SECONDS,
        cached_usage(cache, now)->Ok_0.updated_at == unix_instant(cache.observed_at)->0,
{
}

/// A current window is shown with a percentage only before its reset; past it
/// the lane is marked as unavailable while the weekly lane stays.
pub proof fn law_expired_lanes_are_unavailable(cache: GeminiAppsModel, now: Timestamp, reset: Timestamp)
    requires
        cached_usage(cache, now) is Ok,
        cache.current.resets_at is Some,
        rfc3339_instant(cache.current.resets_at->0) == Ok::<Timestamp, Seq<char>>(reset),
    ensures
        cached_usage(cache, now)->Ok_0.primary.is_informational == !now.before(reset),
        cached_usage(cache, now)->Ok_0.secondary is Some,
        !cached_usage(cache, now)->Ok_0.secondary->0.is_informational,
{
}

/// When a window of a message resets, if it says so.
pub open spec fn window_reset(window: QuotaModel) -> Option<Timestamp> {
    match window.resets_at {
        Some(text) => match rfc3339_instant(text) {
            Ok(t) => Some(t),
            Err(_) => None,
        },
        None => None,
    }
}

/// What the host of the bridge accepts can be shown, with the amounts of the message, as long
/// as it is recent and one of its windows has not reset yet.
pub proof fn law_accepted_messages_can_be_shown(cache: GeminiAppsModel, now: Timestamp)
    requires
        gemini_apps_error(cache) is None,
        unix_instant(cache.observed_at) is Some,
        -CLOCK_SKEW_SECONDS <= age_of(unix_instant(cache.observed_at)->0, now) <= MAX_CACHE_AGE_SECONDS,
        !expired(window_reset(cache.current), now) || !expired(window_reset(cache.weekly), now),
    ensures
        cached_usage(cache, now) is Ok,
        !expired(window_reset(cache.current), now) ==> cached_usage(cache, now)->Ok_0.primary.used_percent
            == cache.current.used_percent,
        cached_usage(cache, now)->Ok_0.secondary->0.used_percent == cache.weekly.used_percent,
        cached_usage(cache, now)->Ok_0.login_method == cache.plan,
{
}

/// Each lane shows its own window: the secondary lane the weekly one with the reset that its own
/// text spells, and the primary lane, as long as it has not reset, the current one with the
/// reset that its text spells.
pub proof fn law_lanes_show_their_own_windows(cache: GeminiAppsModel, now: Timestamp)
    requires
        cached_usage(cache, now) is Ok,
    ensures
        ({
            let usage = cached_usage(cache, now)->Ok_0;
            &&& usage.secondary is Some
            &&& usage.secondary->0.used_percent == cache.weekly.used_percent
            &&& usage.secondary->0.window_minutes == Some(10080u32)
            &&& cache.weekly.resets_at is None ==> usage.secondary->0.resets_at is None
            &&& cache.weekly.resets_at is Some ==> usage.secondary->0.resets_at is Some && rfc3339_instant(
                cache.weekly.resets_at->0,
            ) == Ok::<Timestamp, Seq<char>>(usage.secondary->0.resets_at->0)
            &&& !usage.secondary->0.is_informational
            &&& usage.secondary->0.reset_description is None
            &&& usage.primary.window_minutes == Some(300u32)
            &&& usage.primary.reset_description is None
            &&& !usage.primary.is_informational ==> {
                &&& usage.primary.used_percent == cache.current.used_percent
                &&& cache.current.resets_at is None ==> usage.primary.resets_at is None
                &&& cache.current.resets_at is Some ==> usage.primary.resets_at is Some && rfc3339_instant(
                    cache.current.resets_at->0,
                ) == Ok::<Timestamp, Seq<char>>(usage.primary.resets_at->0) && now.before(usage.primary.resets_at->0)
            }
            &&& usage.primary.is_informational ==> cache.current.resets_at is Some && usage.primary.resets_at is None
            &&& usage.login_method == cache.plan
            &&& usage.tertiary is None && usage.model_specific is None && usage.extra_rate_windows.len() == 0
            &&& usage.account_email is None && usage.primary_label is None && usage.secondary_label is None
        }),
{
}

/// A snapshot is shown exactly where version, provider, slot, source, plan, age and both
/// windows are right and not both windows have reset.
pub proof fn law_right_snapshots_are_shown(cache: GeminiAppsModel, now: Timestamp)
    ensures
        cached_usage(cache, now) is Ok <==> {
            &&& cache.version == 1 && cache.provider == "gemini-apps"@
            &&& account_slot_ok(cache.account_id) && plan_ok(cache.plan)
            &&& cache.source == "jSf9Qc"@ || cache.source == "VxUbXb"@ || cache.source == "dom"@
            &&& unix_instant(cache.observed_at) is Some
            &&& -60 <= age_of(unix_instant(cache.observed_at)->0, now) <= 86_400
            &&& cache.current.label == "Current usage"@ && cache.weekly.label == "Weekly limit"@
            &&& cache.current.used_percent.finite() && is_percentage(cache.current.used_percent)
            &&& cache.weekly.used_percent.finite() && is_percentage(cache.weekly.used_percent)
            &&& cache.current.resets_at is Some ==> rfc3339_instant(cache.current.resets_at->0) is Ok
            &&& cache.weekly.resets_at is Some ==> rfc3339_instant(cache.weekly.resets_at->0) is Ok
            &&& !(cache.current.resets_at is Some && cache.weekly.resets_at is Some && !now.before(
                rfc3339_instant(cache.current.resets_at->0)->Ok_0,
            ) && !now.before(rfc3339_instant(cache.weekly.resets_at->0)->Ok_0))
        },
{
}

/// What the host keeps is what is read here.
pub proof fn law_the_host_writes_what_is_read()
    ensures
        crate::bridge::cache_file("gemini-apps"@) == Some(STABLE_CACHE_FILENAME@),
        STABLE_CACHE_FILENAME@ == "gemini-apps-browser.json"@,
        LEGACY_POC_CACHE_FILENAME@ == "gemini-web-bridge-poc.json"@,
{
}

/// The first file that exists is used, the stable one before the old one. One that cannot be
/// read is an error, and so is the lack of both.
pub proof fn law_the_first_file_is_used(path: Seq<char>, raw: Seq<char>, error: Seq<char>, candidate: usize)
    ensures
        candidate_file(0) == "gemini-apps-browser.json"@,
        candidate_file(1) == "gemini-web-bridge-poc.json"@,
        step_after_read(candidate, path, OutcomeModel::Found(raw)) == StepModel::Use(raw),
        step_after_read(0, path, OutcomeModel::Missing) == StepModel::TryNext,
        step_after_read(1, path, OutcomeModel::Missing) is Fail,
        step_after_read(candidate, path, OutcomeModel::Failed(error)) == StepModel::Fail(
            ErrorModel::Other("Failed to read Gemini Apps Browser Bridge cache "@ + path + ": "@ + error),
        ),
{
}

/// A fetch shows what the message in the cache shows, and no cost; what is no message is an
/// error.
pub proof fn law_fetches_show_their_message(tree: JsonTree, now: Timestamp)
    ensures
        gemini_apps_message(tree) is None ==> result_of_tree(tree, now) is Err,
        gemini_apps_message(tree) is Some ==> {
            let usage = cached_usage(gemini_apps_message(tree)->0, now);
            &&& usage is Ok ==> result_of_tree(tree, now) is Ok && result_of_tree(tree, now)->Ok_0.usage == usage->Ok_0
            &&& usage is Err ==> result_of_tree(tree, now) == Err::<FetchModel, ErrorModel>(usage->Err_0)
            &&& usage == usage_of_tree(tree, now)
        },
        result_of_tree(tree, now) is Ok ==> result_of_tree(tree, now)->Ok_0.cost is None && result_of_tree(
            tree,
            now,
        )->Ok_0.source_label == "browser-bridge"@,
{
}

/// The first thing that is wrong with a snapshot is what is said of it.
pub proof fn law_faults_of_snapshots_are_named(cache: GeminiAppsModel, now: Timestamp)
    ensures
        ({
            let a0 = cache.version == 1 && cache.provider == "gemini-apps"@;
            let a1 = account_slot_ok(cache.account_id);
            let a2 = cache.source == "jSf9Qc"@ || cache.source == "VxUbXb"@ || cache.source == "dom"@;
            let a3 = plan_ok(cache.plan);
            let a4 = unix_instant(cache.observed_at) is Some;
            let a5 = age_of(unix_instant(cache.observed_at)->0, now) >= -60;
            let a6 = age_of(unix_instant(cache.observed_at)->0, now) <= 86_400;
            let a7 = cache.current.label == "Current usage"@;
            let a8 = cache.current.used_percent.finite() && is_percentage(cache.current.used_percent);
            let a9 = cache.weekly.label == "Weekly limit"@;
            let a10 = cache.weekly.used_percent.finite() && is_percentage(cache.weekly.used_percent);
            let a11 = cache.current.resets_at is None || rfc3339_instant(cache.current.resets_at->0) is Ok;
            let a12 = cache.weekly.resets_at is None || rfc3339_instant(cache.weekly.resets_at->0) is Ok;
            let a13 = cached_usage(cache, now) is Ok;
            &&& !a0 ==> cached_usage(cache, now) == Err::<UsageModel, ErrorModel>(ErrorModel::Parse("Unsupported Gemini Apps Browser Bridge cache version/provider"@))
            &&& a0 && !a1 ==> cached_usage(cache, now) == Err::<UsageModel, ErrorModel>(ErrorModel::Parse("Invalid Gemini Apps account slot in Browser Bridge cache"@))
            &&& a0 && a1 && !a2 ==> cached_usage(cache, now) == Err::<UsageModel, ErrorModel>(ErrorModel::Parse("Unknown Gemini Apps Browser Bridge parser source"@))
            &&& a0 && a1 && a2 && !a3 ==> cached_usage(cache, now) == Err::<UsageModel, ErrorModel>(ErrorModel::Parse("Invalid Gemini Apps plan label in Browser Bridge cache"@))
            &&& a0 && a1 && a2 && a3 && !a4 ==> cached_usage(cache, now) == Err::<UsageModel, ErrorModel>(ErrorModel::Parse("Invalid Gemini Apps observation timestamp"@))
            &&& a0 && a1 && a2 && a3 && a4 && !a5 ==> cached_usage(cache, now) == Err::<UsageModel, ErrorModel>(ErrorModel::Other("Gemini Apps Browser Bridge snapshot is from the future; check the system clock."@))
            &&& a0 && a1 && a2 && a3 && a4 && a5 && !a6 ==> cached_usage(cache, now) == Err::<UsageModel, ErrorModel>(ErrorModel::Other("Gemini Apps Browser Bridge snapshot is stale ("@ + signed_decimal(age_of(unix_instant(cache.observed_at)->0, now)) + "s old). Keep a signed-in Gemini tab open so the background bridge can refresh it."@))
            &&& a0 && a1 && a2 && a3 && a4 && a5 && a6 && !a7 ==> cached_usage(cache, now) == Err::<UsageModel, ErrorModel>(ErrorModel::Parse("Unexpected Gemini Apps meter label: "@ + cache.current.label))
            &&& a0 && a1 && a2 && a3 && a4 && a5 && a6 && a7 && !a8 ==> cached_usage(cache, now) == Err::<UsageModel, ErrorModel>(ErrorModel::Parse("Invalid Gemini Apps percentage for "@ + "Current usage"@))
            &&& a0 && a1 && a2 && a3 && a4 && a5 && a6 && a7 && a8 && !a9 ==> cached_usage(cache, now) == Err::<UsageModel, ErrorModel>(ErrorModel::Parse("Unexpected Gemini Apps meter label: "@ + cache.weekly.label))
            &&& a0 && a1 && a2 && a3 && a4 && a5 && a6 && a7 && a8 && a9 && !a10 ==> cached_usage(cache, now) == Err::<UsageModel, ErrorModel>(ErrorModel::Parse("Invalid Gemini Apps percentage for "@ + "Weekly limit"@))
            &&& a0 && a1 && a2 && a3 && a4 && a5 && a6 && a7 && a8 && a9 && a10 && !a11 ==> cached_usage(cache, now) == Err::<UsageModel, ErrorModel>(ErrorModel::Parse("Invalid Gemini Apps reset timestamp: "@ + rfc3339_instant(cache.current.resets_at->0)->Err_0))
            &&& a0 && a1 && a2 && a3 && a4 && a5 && a6 && a7 && a8 && a9 && a10 && a11 && !a12 ==> cached_usage(cache, now) == Err::<UsageModel, ErrorModel>(ErrorModel::Parse("Invalid Gemini Apps reset timestamp: "@ + rfc3339_instant(cache.weekly.resets_at->0)->Err_0))
            &&& a0 && a1 && a2 && a3 && a4 && a5 && a6 && a7 && a8 && a9 && a10 && a11 && a12 && !a13 ==> cached_usage(cache, now) == Err::<UsageModel, ErrorModel>(ErrorModel::Other("Both Gemini Apps usage windows have reset since the last Browser Bridge snapshot. Keep a signed-in Gemini tab open so the background bridge can refresh it."@))
        }),
{
}

/// A window that has reset is shown without a percentage; what is no message, and the lack of
/// both files, is explained.
pub proof fn law_unknown_usage_is_explained(tree: JsonTree, now: Timestamp, path: Seq<char>)
    ensures
        unavailable_window().used_percent == of_integer(0) && unavailable_window().is_informational,
        unavailable_window().window_minutes == Some(300u32) && unavailable_window().resets_at is None,
        unavailable_window().reset_description is None,
        gemini_apps_message(tree) is None ==> usage_of_tree(tree, now) == Err::<UsageModel, ErrorModel>(
            ErrorModel::Parse("Invalid Gemini Apps cache: unexpected fields"@),
        ),
        step_after_read(1, path, OutcomeModel::Missing) == StepModel::Fail(
            ErrorModel::NotInstalled(
                "Gemini Apps Browser Bridge has not produced a usage snapshot yet. Open a signed-in Gemini Usage tab with the bridge enabled."@,
            ),
        ),
{
}

} // verus!
