//! What the providers share that read a cache of the browser bridge.
use crate::binary64::{of_ratio, Binary64};
use crate::json::text_view;
use crate::provider::SourceMode;
use crate::snapshot::{check_view, ErrorModel, ProviderError};
use crate::text::concat2;
use crate::timestamp::{parse_rfc3339, rfc3339_instant, whole_seconds, Timestamp};
use vstd::prelude::*;

verus! {

/// A snapshot older than this is refused, in seconds.
pub const MAX_CACHE_AGE_SECONDS: i64 = 86400;

/// How far a snapshot may lie in the future, in seconds.
pub const CLOCK_SKEW_SECONDS: i64 = 60;

/// The sources that the browser bridge can serve.
pub open spec fn bridge_source(mode: SourceMode) -> Result<(), ErrorModel> {
    if mode == SourceMode::Auto || mode == SourceMode::Web {
        Ok(())
    } else {
        Err(ErrorModel::UnsupportedSource(mode))
    }
}

/// Refuses a source other than the browser bridge.
pub fn check_bridge_source(mode: SourceMode) -> (r: Result<(), ProviderError>)
    ensures
        check_view(r) == bridge_source(mode),
{
    match mode {
        SourceMode::Auto | SourceMode::Web => Ok(()),
        _ => Err(ProviderError::UnsupportedSource(mode)),
    }
}

/// What came of reading a candidate file.
pub enum ReadOutcome {
    Found(String),
    Missing,
    Failed(String),
}

/// What a [`ReadOutcome`] says.
pub ghost enum OutcomeModel {
    Found(Seq<char>),
    Missing,
    Failed(Seq<char>),
}

impl View for ReadOutcome {
    type V = OutcomeModel;

    open spec fn view(&self) -> OutcomeModel {
        match self {
            ReadOutcome::Found(raw) => OutcomeModel::Found(raw@),
            ReadOutcome::Missing => OutcomeModel::Missing,
            ReadOutcome::Failed(error) => OutcomeModel::Failed(error@),
        }
    }
}

/// What a [`ReadStep`] says.
pub ghost enum StepModel {
    Use(Seq<char>),
    TryNext,
    Fail(ErrorModel),
}

impl View for ReadStep {
    type V = StepModel;

    open spec fn view(&self) -> StepModel {
        match self {
            ReadStep::Use(raw) => StepModel::Use(raw@),
            ReadStep::TryNext => StepModel::TryNext,
            ReadStep::Fail(error) => StepModel::Fail(error@),
        }
    }
}

/// What to do after reading a candidate file.
pub enum ReadStep {
    Use(String),
    TryNext,
    Fail(ProviderError),
}

/// The reset time that a text gives.
pub open spec fn reset_of(value: Option<Seq<char>>, complaint: Seq<char>) -> Result<
    Option<Timestamp>,
    ErrorModel,
> {
    match value {
        None => Ok(None),
        Some(text) => match rfc3339_instant(text) {
            Ok(t) => Ok(Some(t)),
            Err(error) => Err(ErrorModel::Parse(complaint + error)),
        },
    }
}

pub open spec fn reset_view(r: Result<Option<Timestamp>, ProviderError>) -> Result<Option<Timestamp>, ErrorModel> {
    match r {
        Ok(t) => Ok(t),
        Err(error) => Err(error@),
    }
}

/// Reads an optional reset time; `complaint` opens the report of a malformed one.
pub fn parse_reset(value: &Option<String>, complaint: &str) -> (r: Result<Option<Timestamp>, ProviderError>)
    ensures
        reset_view(r) == reset_of(text_view(*value), complaint@),
{
    match value {
        None => Ok(None),
        Some(text) => match parse_rfc3339(text.as_str()) {
            Ok(t) => Ok(Some(t)),
            Err(error) => Err(ProviderError::Parse(concat2(complaint, error.as_str()))),
        },
    }
}

/// Seconds since a snapshot was taken.
pub open spec fn age_of(observed: Timestamp, now: Timestamp) -> int {
    whole_seconds(now.total_nanos() - observed.total_nanos())
}

/// The milliseconds that a browser helper may take.
pub open spec fn helper_millis(timeout_secs: u64, least: u64) -> int {
    if timeout_secs > 30 {
        30_000
    } else if timeout_secs < least {
        least * 1000
    } else {
        timeout_secs * 1000
    }
}

/// How long a browser helper may take, in milliseconds: at least `least` seconds
/// and at most half a minute.
pub fn helper_timeout_ms(timeout_secs: u64, least: u64) -> (r: u64)
    requires
        least <= 30,
    ensures
        r == helper_millis(timeout_secs, least),
{
    if timeout_secs > 30 {
        30_000
    } else if timeout_secs < least {
        least * 1000
    } else {
        timeout_secs * 1000
    }
}

/// The slack that is left to sums of amounts.
pub open spec fn slack() -> Binary64 {
    of_ratio(1, 1_000_000_000)
}

pub fn slack_value() -> (r: Binary64)
    ensures
        r == slack(),
{
    Binary64::from_ratio(1, 1_000_000_000)
}

/// The age of a snapshot is the time from its observation to now in whole seconds: it grows
/// with the clock, and is negative where the observation lies ahead.
pub proof fn law_ages_are_counted_from_the_observation(observed: Timestamp, now: Timestamp, seconds: int)
    requires
        now.total_nanos() == observed.total_nanos() + seconds * 1_000_000_000,
    ensures
        age_of(observed, now) == seconds,
{
}

/// Only automatic and browser fetches are served from the bridge.
pub proof fn law_only_browser_sources_are_served(mode: SourceMode)
    ensures
        bridge_source(mode) is Ok <==> mode == SourceMode::Auto || mode == SourceMode::Web,
        bridge_source(mode) is Err ==> bridge_source(mode)->Err_0 == ErrorModel::UnsupportedSource(mode),
        MAX_CACHE_AGE_SECONDS == 24 * 60 * 60,
        CLOCK_SKEW_SECONDS == 60,
{
}

/// A reset time is what its text spells; without a text there is none, and a malformed text is
/// an error.
pub proof fn law_resets_are_what_their_text_spells(value: Option<Seq<char>>, complaint: Seq<char>)
    ensures
        value is None ==> reset_of(value, complaint) == Ok::<Option<Timestamp>, ErrorModel>(None),
        value is Some && rfc3339_instant(value->0) is Ok ==> reset_of(value, complaint) == Ok::<
            Option<Timestamp>,
            ErrorModel,
        >(Some(rfc3339_instant(value->0)->Ok_0)),
        value is Some && rfc3339_instant(value->0) is Err ==> reset_of(value, complaint) == Err::<
            Option<Timestamp>,
            ErrorModel,
        >(ErrorModel::Parse(complaint + rfc3339_instant(value->0)->Err_0)),
{
}

/// A helper gets the time that is asked for, but never less than its least and never more than
/// half a minute.
pub proof fn law_helpers_get_a_bounded_time(timeout_secs: u64, least: u64)
    requires
        least <= 30,
    ensures
        least * 1000 <= helper_millis(timeout_secs, least) <= 30_000,
        least <= timeout_secs <= 30 ==> helper_millis(timeout_secs, least) == timeout_secs * 1000,
{
}

/// The slack is a billionth.
pub proof fn law_the_slack_is_a_billionth()
    ensures
        slack() == of_ratio(1, 1_000_000_000),
{
}

} // verus!
