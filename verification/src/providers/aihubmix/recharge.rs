//! The balance that the latest recharge left, from the browser bridge's cache.
use crate::binary64::{sum_of, Binary64};
use crate::bridge::{
    aihubmix_error, aihubmix_message, decode_aihubmix, positive_amount_ok, validate_positive_amount, AiHubMixModel,
    AiHubMixRechargePush,
};
use crate::json::{json_of_text, parse_text, JsonTree};
use crate::providers::cache::{age_of, slack, slack_value, CLOCK_SKEW_SECONDS, OutcomeModel, ReadOutcome};
use crate::snapshot::{ErrorModel, ProviderError};
use crate::text::{concat2, concat4, same};
use crate::timestamp::{from_unix, seconds_between, unix_instant, Timestamp};
use vstd::prelude::*;

verus! {

pub const RECHARGE_CACHE_FILENAME: &'static str = "aihubmix-recharge-browser.json";

/// A recharge observed longer ago than this is ignored: thirty days, in seconds.
pub const RECHARGE_CACHE_MAX_AGE_SECONDS: i64 = 2_592_000;

/// The balance that the latest recharge left, where the cache is valid and recent
/// and the balance does not exceed it.
pub open spec fn funded_balance(cache: AiHubMixModel, current: Binary64, now: Timestamp) -> Result<
    Option<Binary64>,
    ErrorModel,
> {
    if cache.version != 1 || cache.provider != "aihubmix"@ {
        Err(ErrorModel::Parse("Unsupported AIHubMix Browser Bridge cache version/provider"@))
    } else {
        match unix_instant(cache.observed_at) {
            None => Err(ErrorModel::Parse("Invalid AIHubMix Browser Bridge observation timestamp"@)),
            Some(observed) => if age_of(observed, now) < -CLOCK_SKEW_SECONDS {
                Err(
                    ErrorModel::Other(
                        "AIHubMix Browser Bridge snapshot is from the future; check the system clock."@,
                    ),
                )
            } else if age_of(observed, now) > RECHARGE_CACHE_MAX_AGE_SECONDS {
                Ok(None)
            } else if !positive_amount_ok(cache.funded_balance_usd) {
                Err(ErrorModel::Parse("Invalid AIHubMix funded balance in Browser Bridge cache"@))
            } else if cache.source != "network"@ && cache.source != "dom"@ {
                Err(ErrorModel::Parse("Unknown AIHubMix Browser Bridge parser source"@))
            } else if cache.funding_created_at is Some && !(0 < cache.funding_created_at->0 <= now.secs
                + CLOCK_SKEW_SECONDS) {
                Err(ErrorModel::Parse("Invalid AIHubMix funding timestamp in Browser Bridge cache"@))
            } else if sum_of(cache.funded_balance_usd, slack()).less(current) {
                Ok(None)
            } else {
                Ok(Some(cache.funded_balance_usd))
            },
        }
    }
}

pub open spec fn funded_view(r: Result<Option<Binary64>, ProviderError>) -> Result<Option<Binary64>, ErrorModel> {
    match r {
        Ok(funded) => Ok(funded),
        Err(error) => Err(error@),
    }
}

pub fn funded_balance_from_message(cache: &AiHubMixRechargePush, current: Binary64, now: Timestamp) -> (r: Result<
    Option<Binary64>,
    ProviderError,
>)
    ensures
        funded_view(r) == funded_balance(cache@, current, now),
{
    let payload = &cache.payload;
    if cache.version != 1 || !same(cache.provider.as_str(), "aihubmix") {
        return Err(ProviderError::parse("Unsupported AIHubMix Browser Bridge cache version/provider"));
    }
    let observed = match from_unix(cache.observed_at) {
        Some(observed) => observed,
        None => return Err(ProviderError::parse("Invalid AIHubMix Browser Bridge observation timestamp")),
    };
    let age: i128 = seconds_between(now, observed);
    if age < -60 {
        return Err(
            ProviderError::other("AIHubMix Browser Bridge snapshot is from the future; check the system clock."),
        );
    }
    if age > 2_592_000 {
        return Ok(None);
    }
    if !validate_positive_amount(payload.funded_balance_usd) {
        return Err(ProviderError::parse("Invalid AIHubMix funded balance in Browser Bridge cache"));
    }
    if !same(payload.source.as_str(), "network") && !same(payload.source.as_str(), "dom") {
        return Err(ProviderError::parse("Unknown AIHubMix Browser Bridge parser source"));
    }
    if let Some(created) = payload.funding_created_at {
        if created <= 0 || created - 60 > now.secs {
            return Err(ProviderError::parse("Invalid AIHubMix funding timestamp in Browser Bridge cache"));
        }
    }
    if payload.funded_balance_usd.plus(slack_value()).lt(current) {
        return Ok(None);
    }
    Ok(Some(payload.funded_balance_usd))
}

/// The balance that the value of a cache gives.
pub open spec fn funded_of_tree(tree: JsonTree, current: Binary64, now: Timestamp) -> Result<
    Option<Binary64>,
    ErrorModel,
> {
    match aihubmix_message(tree) {
        Some(cache) => funded_balance(cache, current, now),
        None => Err(ErrorModel::Parse("Invalid AIHubMix Browser Bridge cache: unexpected fields"@)),
    }
}

/// Reads the text of a cache. A field that occurs more than once counts with its
/// last value.
pub fn funded_balance_from_cache_raw(raw: &str, current: Binary64, now: Timestamp) -> (r: Result<
    Option<Binary64>,
    ProviderError,
>)
    ensures
        match json_of_text(raw@) {
            Ok(tree) => funded_view(r) == funded_of_tree(tree, current, now),
            Err(error) => funded_view(r) == Err::<Option<Binary64>, ErrorModel>(
                ErrorModel::Parse("Invalid AIHubMix Browser Bridge cache: "@ + error),
            ),
        },
{
    let value = match parse_text(raw) {
        Ok(value) => value,
        Err(error) => return Err(
            ProviderError::Parse(concat2("Invalid AIHubMix Browser Bridge cache: ", error.as_str())),
        ),
    };
    match decode_aihubmix(&value) {
        Some(cache) => funded_balance_from_message(&cache, current, now),
        None => Err(ProviderError::parse("Invalid AIHubMix Browser Bridge cache: unexpected fields")),
    }
}

/// What a look at the cache file gives.
pub open spec fn funded_after_read(path: Seq<char>, outcome: OutcomeModel, current: Binary64, now: Timestamp) -> Result<
    Option<Binary64>,
    ErrorModel,
> {
    match outcome {
        OutcomeModel::Found(raw) => match json_of_text(raw) {
            Ok(tree) => funded_of_tree(tree, current, now),
            Err(error) => Err(ErrorModel::Parse("Invalid AIHubMix Browser Bridge cache: "@ + error)),
        },
        OutcomeModel::Missing => Ok(None),
        OutcomeModel::Failed(error) => Err(
            ErrorModel::Other("Failed to read AIHubMix Browser Bridge cache "@ + path + ": "@ + error),
        ),
    }
}

/// What is known of the recharge once the cache file was read or not; a file that
/// does not exist is no error.
pub fn funded_balance_after_read(path: &str, outcome: ReadOutcome, current: Binary64, now: Timestamp) -> (r: Result<
    Option<Binary64>,
    ProviderError,
>)
    ensures
        funded_view(r) == funded_after_read(path@, outcome@, current, now),
{
    match outcome {
        ReadOutcome::Found(raw) => funded_balance_from_cache_raw(raw.as_str(), current, now),
        ReadOutcome::Missing => Ok(None),
        ReadOutcome::Failed(error) => Err(
            ProviderError::Other(
                concat4("Failed to read AIHubMix Browser Bridge cache ", path, ": ", error.as_str()),
            ),
        ),
    }
}

/// What the host of the bridge accepts is used as long as it is recent, does not lie ahead of
/// the clock and covers the balance.
pub proof fn law_accepted_messages_are_used(cache: AiHubMixModel, current: Binary64, now: Timestamp)
    requires
        aihubmix_error(cache) is None,
        unix_instant(cache.observed_at) is Some,
        -CLOCK_SKEW_SECONDS <= age_of(unix_instant(cache.observed_at)->0, now) <= RECHARGE_CACHE_MAX_AGE_SECONDS,
        cache.funding_created_at is Some ==> cache.funding_created_at->0 <= now.secs + CLOCK_SKEW_SECONDS,
        !sum_of(cache.funded_balance_usd, slack()).less(current),
    ensures
        funded_balance(cache, current, now) == Ok::<Option<Binary64>, ErrorModel>(Some(cache.funded_balance_usd)),
{
}

/// The anchor is the funded balance of the cache and nothing else, and a cache that cannot be
/// trusted gives none.
pub proof fn law_the_anchor_is_the_funded_balance(cache: AiHubMixModel, current: Binary64, now: Timestamp)
    ensures
        funded_balance(cache, current, now) is Ok && funded_balance(cache, current, now)->Ok_0 is Some ==> {
            &&& funded_balance(cache, current, now)->Ok_0->0 == cache.funded_balance_usd
            &&& cache.version == 1 && cache.provider == "aihubmix"@
            &&& unix_instant(cache.observed_at) is Some
            &&& -60 <= age_of(unix_instant(cache.observed_at)->0, now) <= 30 * 86_400
            &&& positive_amount_ok(cache.funded_balance_usd)
            &&& cache.source == "network"@ || cache.source == "dom"@
            &&& cache.funding_created_at is Some ==> 1 <= cache.funding_created_at->0 <= now.secs + 60
            &&& !sum_of(cache.funded_balance_usd, slack()).less(current)
        },
{
}

/// A cache that is too old, or whose balance is exceeded, is no error: it gives no anchor.
pub proof fn law_outdated_anchors_are_dropped(cache: AiHubMixModel, current: Binary64, now: Timestamp)
    requires
        aihubmix_error(cache) is None,
        unix_instant(cache.observed_at) is Some,
        age_of(unix_instant(cache.observed_at)->0, now) >= -60,
        cache.funding_created_at is Some ==> cache.funding_created_at->0 <= now.secs + 60,
        age_of(unix_instant(cache.observed_at)->0, now) > 30 * 86_400 || sum_of(
            cache.funded_balance_usd,
            slack(),
        ).less(current),
    ensures
        funded_balance(cache, current, now) == Ok::<Option<Binary64>, ErrorModel>(None),
{
}

/// What the host keeps is what is read here.
pub proof fn law_the_host_writes_what_is_read()
    ensures
        crate::bridge::cache_file("aihubmix"@) == Some(RECHARGE_CACHE_FILENAME@),
        RECHARGE_CACHE_FILENAME@ == "aihubmix-recharge-browser.json"@,
{
    reveal_strlit("gemini-apps");
    reveal_strlit("gemini-api");
    reveal_strlit("aihubmix");
    assert("gemini-apps"@.len() == 11 && "gemini-api"@.len() == 10 && "aihubmix"@.len() == 8);
}

/// A missing file is no anchor and no error; one that was read gives what its message gives.
pub proof fn law_missing_files_are_no_error(path: Seq<char>, raw: Seq<char>, tree: JsonTree, current: Binary64, now: Timestamp)
    ensures
        funded_after_read(path, OutcomeModel::Missing, current, now) == Ok::<Option<Binary64>, ErrorModel>(None),
        json_of_text(raw) == Ok::<JsonTree, Seq<char>>(tree) && aihubmix_message(tree) is Some ==> funded_after_read(
            path,
            OutcomeModel::Found(raw),
            current,
            now,
        ) == funded_balance(aihubmix_message(tree)->0, current, now),
        json_of_text(raw) == Ok::<JsonTree, Seq<char>>(tree) && aihubmix_message(tree) is None ==> funded_after_read(
            path,
            OutcomeModel::Found(raw),
            current,
            now,
        ) is Err,
        funded_after_read(path, OutcomeModel::Failed(raw), current, now) is Err,
{
}

/// The first thing that is wrong with an anchor is what is said of it, unless it is too old to
/// matter.
pub proof fn law_faults_of_anchors_are_named(cache: AiHubMixModel, current: Binary64, now: Timestamp)
    ensures
        ({
            let a0 = cache.version == 1 && cache.provider == "aihubmix"@;
            let a1 = unix_instant(cache.observed_at) is Some;
            let a2 = age_of(unix_instant(cache.observed_at)->0, now) >= -60;
            let a3 = positive_amount_ok(cache.funded_balance_usd) || age_of(unix_instant(cache.observed_at)->0, now) > 30 * 86_400;
            let a4 = cache.source == "network"@ || cache.source == "dom"@ || age_of(unix_instant(cache.observed_at)->0, now) > 30 * 86_400;
            let a5 = cache.funding_created_at is None || 1 <= cache.funding_created_at->0 <= now.secs + 60 || age_of(unix_instant(cache.observed_at)->0, now) > 30 * 86_400;
            &&& !a0 ==> funded_balance(cache, current, now) == Err::<Option<Binary64>, ErrorModel>(ErrorModel::Parse("Unsupported AIHubMix Browser Bridge cache version/provider"@))
            &&& a0 && !a1 ==> funded_balance(cache, current, now) == Err::<Option<Binary64>, ErrorModel>(ErrorModel::Parse("Invalid AIHubMix Browser Bridge observation timestamp"@))
            &&& a0 && a1 && !a2 ==> funded_balance(cache, current, now) == Err::<Option<Binary64>, ErrorModel>(ErrorModel::Other("AIHubMix Browser Bridge snapshot is from the future; check the system clock."@))
            &&& a0 && a1 && a2 && !a3 ==> funded_balance(cache, current, now) == Err::<Option<Binary64>, ErrorModel>(ErrorModel::Parse("Invalid AIHubMix funded balance in Browser Bridge cache"@))
            &&& a0 && a1 && a2 && a3 && !a4 ==> funded_balance(cache, current, now) == Err::<Option<Binary64>, ErrorModel>(ErrorModel::Parse("Unknown AIHubMix Browser Bridge parser source"@))
            &&& a0 && a1 && a2 && a3 && a4 && !a5 ==> funded_balance(cache, current, now) == Err::<Option<Binary64>, ErrorModel>(ErrorModel::Parse("Invalid AIHubMix funding timestamp in Browser Bridge cache"@))
        }),
{
}

/// A cache that is no message, no JSON or cannot be read says so.
pub proof fn law_unknown_anchors_are_explained(
    tree: JsonTree,
    path: Seq<char>,
    raw: Seq<char>,
    current: Binary64,
    now: Timestamp,
)
    ensures
        aihubmix_message(tree) is None ==> funded_of_tree(tree, current, now) == Err::<Option<Binary64>, ErrorModel>(
            ErrorModel::Parse("Invalid AIHubMix Browser Bridge cache: unexpected fields"@),
        ),
        json_of_text(raw) is Err ==> funded_after_read(path, OutcomeModel::Found(raw), current, now) == Err::<
            Option<Binary64>,
            ErrorModel,
        >(ErrorModel::Parse("Invalid AIHubMix Browser Bridge cache: "@ + json_of_text(raw)->Err_0)),
        funded_after_read(path, OutcomeModel::Failed(raw), current, now) == Err::<Option<Binary64>, ErrorModel>(
            ErrorModel::Other("Failed to read AIHubMix Browser Bridge cache "@ + path + ": "@ + raw),
        ),
{
}

} // verus!
