//! AIHubMix account credit.
//!
//! The balance comes from the platform; the balance that the latest recharge left
//! comes from the cache that the browser bridge keeps. Together they tell how much
//! of the recharge is used up.
pub mod browser;
pub mod script;
pub mod recharge;

use crate::binary64::arith::{lemma_clamped_difference, lemma_part_of_whole};
use crate::binary64::format::fixed_text;
use crate::binary64::parse::{double_of_text, parse_double};
use crate::binary64::{clamped, difference_of, of_integer, product_of, quotient_of, Binary64};
use crate::bridge::is_percentage;
use crate::http::{describe_status, status_text};
use crate::json::{
    boolean_field, check_record, is_record, json_of_text, member, member_of, optional_field,
    parse_text, read_optional_boolean, read_optional_text, text_field, text_view, Json, JsonTree,
};
use crate::provider::{describes, ProviderId, ProviderMetadata, SourceMode};
use crate::snapshot::{
    informational_window, new_cost, new_usage, CostModel, CostSnapshot, ErrorModel, FetchModel, ProviderError,
    ProviderFetchResult, RateWindow, UsageModel, UsageSnapshot, WindowModel,
};
use crate::text::{
    concat2, concat3, concat4, is_blank, strip_prefix, strip_quotes_end, strip_quotes_start, trim, trim_quotes,
    trimmed,
};
use crate::timestamp::Timestamp;
use vstd::prelude::*;

verus! {

pub const SELF_URL: &'static str = "https://aihubmix.com/api/user/self";

pub const SELF_URL_FALLBACK: &'static str = "https://api.aihubmix.com/api/user/self";

pub const DASHBOARD_URL: &'static str = "https://console.aihubmix.com/topup";

pub struct AiHubMixProvider {
    pub metadata: ProviderMetadata,
}

/// The key that a stored or configured text holds, without quotation marks and
/// without the word for bearer tokens.
pub open spec fn manage_key(raw: Seq<char>) -> Seq<char> {
    let bare = strip_quotes_end(strip_quotes_start(trimmed(raw)));
    if "Bearer "@.is_prefix_of(bare) {
        trimmed(bare.skip("Bearer "@.len() as int))
    } else if "bearer "@.is_prefix_of(bare) {
        trimmed(bare.skip("bearer "@.len() as int))
    } else {
        trimmed(bare)
    }
}

/// The identity under which the provider is known.
pub open spec fn own_id() -> ProviderId {
    ProviderId::AiHubMix
}

/// The sources that can be asked for.
pub open spec fn own_sources() -> Seq<SourceMode> {
    seq![SourceMode::Auto, SourceMode::Web]
}

/// How AIHubMix presents itself.
pub open spec fn is_described(m: ProviderMetadata) -> bool {
    &&& describes(
        m,
        ProviderId::AiHubMix,
        "AIHubMix"@,
        "Credit balance"@,
        "Account"@,
        true,
        "https://console.aihubmix.com/topup"@,
    )
    &&& m.status_page_url is None
}

impl AiHubMixProvider {
    pub fn new() -> (r: AiHubMixProvider)
        ensures
            is_described(r.metadata),
    {
        AiHubMixProvider {
            metadata: ProviderMetadata {
                id: ProviderId::AiHubMix,
                display_name: "AIHubMix",
                session_label: "Credit balance",
                weekly_label: "Account",
                supports_opus: false,
                supports_credits: true,
                default_enabled: false,
                is_primary: false,
                dashboard_url: Some(DASHBOARD_URL),
                status_page_url: None,
            },
        }
    }

    pub fn id(&self) -> (r: ProviderId)
        ensures
            r == own_id(),
    {
        ProviderId::AiHubMix
    }

    pub fn metadata(&self) -> (r: &ProviderMetadata)
        ensures
            *r == self.metadata,
    {
        &self.metadata
    }

    pub fn available_sources(&self) -> (r: Vec<SourceMode>)
        ensures
            r@ == own_sources(),
    {
        vec![SourceMode::Auto, SourceMode::Web]
    }

    pub fn supports_web(&self) -> (r: bool)
        ensures
            r,
            r == own_sources().contains(SourceMode::Web),
    {
        proof {
            assert(own_sources()[1] == SourceMode::Web);
        }
        true
    }

    /// The key in a configured text.
    pub fn resolve_manage_key(raw: &str) -> (r: Result<String, ProviderError>)
        ensures
            manage_key(raw@).len() > 0 ==> r is Ok && r->Ok_0@ == manage_key(raw@),
            manage_key(raw@).len() == 0 ==> r is Err && r->Err_0@ == ErrorModel::AuthRequired,
    {
        let bare = trim(raw);
        let bare = trim_quotes(bare.as_str());
        let token = match strip_prefix(bare.as_str(), "Bearer ") {
            Some(token) => token,
            None => match strip_prefix(bare.as_str(), "bearer ") {
                Some(token) => token,
                None => bare,
            },
        };
        let token = trim(token.as_str());
        if is_blank(token.as_str()) {
            return Err(ProviderError::AuthRequired);
        }
        Ok(token)
    }
}

impl Default for AiHubMixProvider {
    fn default() -> (r: AiHubMixProvider)
        ensures
            is_described(r.metadata),
    {
        AiHubMixProvider::new()
    }
}

/// Credit in US dollars.
#[derive(Clone, Copy, PartialEq, Eq, Structural, Debug)]
pub struct CreditValues {
    pub balance_usd: Binary64,
    pub used_usd: Option<Binary64>,
}

/// What is kept of an account.
#[derive(Debug)]
pub struct AccountValues {
    pub credits: CreditValues,
    pub group: Option<String>,
}

/// A finite number, written as a number or as a text.
pub open spec fn number_in(tree: JsonTree) -> Option<Binary64> {
    let number = match tree {
        JsonTree::Number(n) => n.double,
        JsonTree::Text(s) => double_of_text(trimmed(s)),
        _ => None,
    };
    match number {
        Some(x) => if x.finite() {
            Some(x)
        } else {
            None
        },
        None => None,
    }
}

pub fn parse_number(value: &Json) -> (r: Option<Binary64>)
    ensures
        r == number_in(value.tree()),
{
    let number = match value {
        Json::Number(n) => n.double,
        Json::Text(s) => {
            let text = trim(s.as_str());
            parse_double(text.as_str())
        },
        _ => None,
    };
    match number {
        Some(x) => if x.is_finite() {
            Some(x)
        } else {
            None
        },
        None => None,
    }
}

/// A quota in US dollars: one dollar is half a million units.
pub open spec fn dollars(quota: Binary64) -> Binary64 {
    quotient_of(quota, of_integer(500_000))
}

/// A quota that can be shown.
pub open spec fn quota_ok(quota: Binary64) -> bool {
    quota.finite() && !quota.less(of_integer(0))
}

pub open spec fn quota_error(label: Seq<char>) -> ErrorModel {
    ErrorModel::Parse("AIHubMix "@ + label + " was not a finite non-negative number"@)
}

pub fn quota_to_usd(quota: Binary64, label: &str) -> (r: Result<Binary64, ProviderError>)
    ensures
        quota_ok(quota) ==> r is Ok && r->Ok_0 == dollars(quota),
        !quota_ok(quota) ==> r is Err && r->Err_0@ == quota_error(label@),
{
    if !quota.is_finite() || quota.lt(Binary64::from_integer(0)) {
        return Err(
            ProviderError::Parse(concat3("AIHubMix ", label, " was not a finite non-negative number")),
        );
    }
    Ok(quota.over(Binary64::from_integer(500_000)))
}

/// Credit from the balance and the used quota.
pub open spec fn credits_of(
    quota: Binary64,
    used: Option<Binary64>,
    label: Seq<char>,
    used_label: Seq<char>,
) -> Result<CreditValues, ErrorModel> {
    if !quota_ok(quota) {
        Err(quota_error(label))
    } else {
        match used {
            None => Ok(CreditValues { balance_usd: dollars(quota), used_usd: None }),
            Some(used) => if quota_ok(used) {
                Ok(CreditValues { balance_usd: dollars(quota), used_usd: Some(dollars(used)) })
            } else {
                Err(quota_error(used_label))
            },
        }
    }
}

pub open spec fn credits_view(r: Result<CreditValues, ProviderError>) -> Result<CreditValues, ErrorModel> {
    match r {
        Ok(credits) => Ok(credits),
        Err(error) => Err(error@),
    }
}

pub fn credit_values(quota: Binary64, used: Option<Binary64>, label: &str, used_label: &str) -> (r: Result<
    CreditValues,
    ProviderError,
>)
    ensures
        credits_view(r) == credits_of(quota, used, label@, used_label@),
{
    let balance_usd = match quota_to_usd(quota, label) {
        Ok(x) => x,
        Err(error) => return Err(error),
    };
    match used {
        None => Ok(CreditValues { balance_usd, used_usd: None }),
        Some(used) => match quota_to_usd(used, used_label) {
            Ok(x) => Ok(CreditValues { balance_usd, used_usd: Some(x) }),
            Err(error) => Err(error),
        },
    }
}

/// What is kept of an account, in terms of its text.
pub ghost struct AccountModel {
    pub credits: CreditValues,
    pub group: Option<Seq<char>>,
}

impl View for AccountValues {
    type V = AccountModel;

    open spec fn view(&self) -> AccountModel {
        AccountModel { credits: self.credits, group: text_view(self.group) }
    }
}

pub open spec fn account_view(r: Result<AccountValues, ProviderError>) -> Result<AccountModel, ErrorModel> {
    match r {
        Ok(account) => Ok(account@),
        Err(error) => Err(error@),
    }
}

/// A label that is not blank, without surrounding white space.
pub open spec fn full_label(label: Option<Seq<char>>) -> Option<Seq<char>> {
    match label {
        Some(label) => if trimmed(label).len() > 0 {
            Some(trimmed(label))
        } else {
            None
        },
        None => None,
    }
}

pub open spec fn malformed() -> ErrorModel {
    ErrorModel::Parse("Invalid AIHubMix response: unexpected fields"@)
}

/// A number in a field that may be absent.
pub open spec fn quota_in(field: Option<JsonTree>) -> Option<Binary64> {
    match field {
        Some(tree) => number_in(tree),
        None => None,
    }
}

/// The account that the data of an answer describe. Nothing but the quota, the used
/// quota and the group is kept.
pub open spec fn account_in(data: JsonTree) -> Result<AccountModel, ErrorModel> {
    let group = member(data, "group"@, 2);
    match optional_field(group, text_field(group)) {
        None => Err(malformed()),
        Some(group) => match quota_in(member(data, "quota"@, 0)) {
            None => Err(ErrorModel::Parse("AIHubMix response did not include quota"@)),
            Some(quota) => match credits_of(
                quota,
                quota_in(member(data, "used_quota"@, 1)),
                "quota"@,
                "used_quota"@,
            ) {
                Ok(credits) => Ok(AccountModel { credits, group: full_label(group) }),
                Err(error) => Err(error),
            },
        },
    }
}

/// Data of an answer that can be read.
pub open spec fn data_fits(data: JsonTree) -> bool {
    let group = member(data, "group"@, 2);
    is_record(data, 3) && optional_field(group, text_field(group)) is Some
}

/// The account that an answer describes. An answer that reports failure asks for a
/// sign-in.
pub open spec fn account_of(tree: JsonTree) -> Result<AccountModel, ErrorModel> {
    let success = member(tree, "success"@, 0);
    let data = member(tree, "data"@, 1);
    let present = data is Some && data->0 != JsonTree::Null;
    if !is_record(tree, 2) || (present && !data_fits(data->0)) {
        Err(malformed())
    } else {
        match optional_field(success, boolean_field(success)) {
            None => Err(malformed()),
            Some(success) => if success == Some(false) {
                Err(ErrorModel::AuthRequired)
            } else if !present {
                Err(ErrorModel::Parse("AIHubMix response did not include data"@))
            } else {
                account_in(data->0)
            },
        }
    }
}

fn quota_member(data: &Json, name: &str, place: usize) -> (r: Option<Binary64>)
    ensures
        r == quota_in(member(data.tree(), name@, place as int)),
{
    match member_of(data, name, place) {
        Some(value) => parse_number(value),
        None => None,
    }
}

fn account_from_data(data: &Json) -> (r: Result<AccountValues, ProviderError>)
    ensures
        account_view(r) == account_in(data.tree()),
{
    let group = match read_optional_text(member_of(data, "group", 2)) {
        Some(group) => group,
        None => return Err(ProviderError::parse("Invalid AIHubMix response: unexpected fields")),
    };
    let quota = match quota_member(data, "quota", 0) {
        Some(quota) => quota,
        None => return Err(ProviderError::parse("AIHubMix response did not include quota")),
    };
    let used = quota_member(data, "used_quota", 1);
    let credits = match credit_values(quota, used, "quota", "used_quota") {
        Ok(credits) => credits,
        Err(error) => return Err(error),
    };
    let group = match group {
        Some(group) => {
            let group = trim(group.as_str());
            if is_blank(group.as_str()) {
                None
            } else {
                Some(group)
            }
        },
        None => None,
    };
    Ok(AccountValues { credits, group })
}

fn check_data(data: &Json) -> (r: bool)
    ensures
        r == data_fits(data.tree()),
{
    check_record(data, 3) && read_optional_text(member_of(data, "group", 2)).is_some()
}

/// Reads the account of a JSON value.
pub fn account_from_json(json: &Json) -> (r: Result<AccountValues, ProviderError>)
    ensures
        account_view(r) == account_of(json.tree()),
{
    if !check_record(json, 2) {
        return Err(ProviderError::parse("Invalid AIHubMix response: unexpected fields"));
    }
    let data = match member_of(json, "data", 1) {
        Some(data) => if data.is_null() {
            None
        } else {
            Some(data)
        },
        None => None,
    };
    if let Some(data) = data {
        if !check_data(data) {
            return Err(ProviderError::parse("Invalid AIHubMix response: unexpected fields"));
        }
    }
    let success = match read_optional_boolean(member_of(json, "success", 0)) {
        Some(success) => success,
        None => return Err(ProviderError::parse("Invalid AIHubMix response: unexpected fields")),
    };
    if let Some(success) = success {
        if !success {
            return Err(ProviderError::AuthRequired);
        }
    }
    match data {
        Some(data) => account_from_data(data),
        None => Err(ProviderError::parse("AIHubMix response did not include data")),
    }
}

/// Reads the account from the body of an answer. A field that occurs more than once
/// counts with its last value.
pub fn parse_self_response(text: &str) -> (r: Result<AccountValues, ProviderError>)
    ensures
        match json_of_text(text@) {
            Err(error) => r is Err && r->Err_0@ == ErrorModel::Parse("Invalid AIHubMix response: "@ + error),
            Ok(tree) => account_view(r) == account_of(tree),
        },
{
    match parse_text(text) {
        Ok(json) => account_from_json(&json),
        Err(error) => Err(ProviderError::Parse(concat2("Invalid AIHubMix response: ", error.as_str()))),
    }
}

/// What a status that is no success means.
pub open spec fn status_meaning(status: u16) -> ErrorModel {
    if status == 401 || status == 403 {
        ErrorModel::AuthRequired
    } else {
        ErrorModel::Other("AIHubMix API returned status "@ + status_text(status))
    }
}

pub fn status_error(status: u16) -> (r: ProviderError)
    requires
        100 <= status <= 999,
    ensures
        r@ == status_meaning(status),
{
    if status == 401 || status == 403 {
        ProviderError::AuthRequired
    } else {
        let text = describe_status(status);
        ProviderError::Other(concat2("AIHubMix API returned status ", text.as_str()))
    }
}

/// The endpoint and the form of the key for one request.
#[derive(Clone, Copy, PartialEq, Eq, Structural, Debug)]
pub struct Attempt {
    /// The backup domain is asked.
    pub backup: bool,
    /// The key is sent as a bearer token.
    pub bearer: bool,
}

/// What came of a request.
#[derive(Clone, Copy, PartialEq, Eq, Structural, Debug)]
pub enum AttemptOutcome {
    Answered,
    AuthRequired,
    OtherError,
}

/// What to do after a request.
#[derive(Clone, Copy, PartialEq, Eq, Structural, Debug)]
pub enum AttemptStep {
    /// The answer is used.
    Use,
    Retry(Attempt),
    /// The error of the request is reported.
    Report,
}

/// A key that is refused is tried as a bearer token; an endpoint that fails for any
/// other reason is replaced by the backup.
pub open spec fn step_after(attempt: Attempt, outcome: AttemptOutcome) -> AttemptStep {
    match outcome {
        AttemptOutcome::Answered => AttemptStep::Use,
        AttemptOutcome::AuthRequired => if attempt.bearer {
            AttemptStep::Report
        } else {
            AttemptStep::Retry(Attempt { backup: attempt.backup, bearer: true })
        },
        AttemptOutcome::OtherError => if attempt.backup {
            AttemptStep::Report
        } else {
            AttemptStep::Retry(Attempt { backup: true, bearer: false })
        },
    }
}

/// With what a search for an answer begins.
pub open spec fn opening_attempt() -> Attempt {
    Attempt { backup: false, bearer: false }
}

pub fn first_attempt() -> (r: Attempt)
    ensures
        r == opening_attempt(),
{
    Attempt { backup: false, bearer: false }
}

pub fn after_attempt(attempt: Attempt, outcome: AttemptOutcome) -> (r: AttemptStep)
    ensures
        r == step_after(attempt, outcome),
{
    match outcome {
        AttemptOutcome::Answered => AttemptStep::Use,
        AttemptOutcome::AuthRequired => if attempt.bearer {
            AttemptStep::Report
        } else {
            AttemptStep::Retry(Attempt { backup: attempt.backup, bearer: true })
        },
        AttemptOutcome::OtherError => if attempt.backup {
            AttemptStep::Report
        } else {
            AttemptStep::Retry(Attempt { backup: true, bearer: false })
        },
    }
}

/// The URL of a request.
pub open spec fn url_of(attempt: Attempt) -> Seq<char> {
    if attempt.backup {
        "https://api.aihubmix.com/api/user/self"@
    } else {
        "https://aihubmix.com/api/user/self"@
    }
}

/// The authorization header of a request.
pub open spec fn authorization_of(attempt: Attempt, key: Seq<char>) -> Seq<char> {
    if attempt.bearer {
        "Bearer "@ + key
    } else {
        key
    }
}

/// URL and authorization header of a request.
pub fn attempt_request(attempt: Attempt, key: &str) -> (r: (String, String))
    ensures
        r.0@ == url_of(attempt),
        r.1@ == authorization_of(attempt, key@),
{
    let url = if attempt.backup {
        SELF_URL_FALLBACK.to_string()
    } else {
        SELF_URL.to_string()
    };
    let header = if attempt.bearer {
        concat2("Bearer ", key)
    } else {
        key.to_string()
    };
    (url, header)
}

/// How many requests can still follow.
pub open spec fn requests_left(attempt: Attempt) -> nat {
    (if attempt.backup { 0nat } else { 2nat }) + (if attempt.bearer { 0nat } else { 1nat })
}

/// Retrying comes to an end, the backup is only asked where the main endpoint
/// failed for a reason other than the key, and once it is asked it stays.
pub proof fn law_retries_are_bounded(attempt: Attempt, outcome: AttemptOutcome)
    ensures
        match step_after(attempt, outcome) {
            AttemptStep::Retry(next) => {
                &&& requests_left(next) < requests_left(attempt)
                &&& attempt.backup ==> next.backup
                &&& next.backup && !attempt.backup ==> outcome == AttemptOutcome::OtherError
            },
            _ => true,
        },
{
}

/// The recharge covers the balance.
pub open spec fn anchors(funded: Option<Binary64>, balance: Binary64) -> bool {
    funded is Some && funded->0.finite() && of_integer(0).less(funded->0) && balance.at_most(funded->0)
}

/// The result of credit and the balance that the latest recharge left.
pub open spec fn result_of(
    values: CreditValues,
    group: Option<Seq<char>>,
    funded: Option<Binary64>,
    source: Seq<char>,
    now: Timestamp,
) -> FetchModel {
    let balance = values.balance_usd;
    let anchored = anchors(funded, balance);
    let used = clamped(difference_of(funded->0, balance), of_integer(0), funded->0);
    let primary = if anchored {
        WindowModel {
            used_percent: product_of(quotient_of(used, funded->0), of_integer(100)),
            window_minutes: None,
            resets_at: None,
            reset_description: Some(
                fixed_text(balance, 2) + " USD remaining of "@ + fixed_text(funded->0, 2) + " USD funded"@,
            ),
            is_informational: false,
        }
    } else {
        informational_window(fixed_text(balance, 2) + " USD credit balance"@)
    };
    FetchModel {
        usage: UsageModel {
            login_method: match group {
                Some(group) => Some("Group "@ + group),
                None => None,
            },
            ..new_usage(primary, now)
        },
        source_label: source,
        cost: Some(
            CostModel {
                currency_symbol: Some("$"@),
                balance: Some(balance),
                limit: if anchored {
                    funded
                } else {
                    None
                },
                ..new_cost(
                    if anchored {
                        used
                    } else {
                        of_integer(0)
                    },
                    "USD"@,
                    "Credits"@,
                    now,
                )
            },
        ),
    }
}

pub fn result_from_values(
    values: CreditValues,
    group: Option<String>,
    funded_balance_usd: Option<Binary64>,
    source: &str,
    now: Timestamp,
) -> (r: ProviderFetchResult)
    ensures
        r@ == result_of(values, text_view(group), funded_balance_usd, source@, now),
{
    let zero = Binary64::from_integer(0);
    let balance = values.balance_usd;
    let balance_text = balance.to_fixed(2);
    let anchor = match funded_balance_usd {
        Some(funded) => if funded.is_finite() && zero.lt(funded) && balance.le(funded) {
            Some(funded)
        } else {
            None
        },
        None => None,
    };
    let mut used = zero;
    let primary = match anchor {
        Some(funded) => {
            used = funded.minus(balance).clamp(zero, funded);
            let funded_text = funded.to_fixed(2);
            let description = concat4(
                balance_text.as_str(),
                " USD remaining of ",
                funded_text.as_str(),
                " USD funded",
            );
            RateWindow::with_details(
                used.over(funded).times(Binary64::from_integer(100)),
                None,
                None,
                Some(description),
            )
        },
        None => RateWindow::informational(concat2(balance_text.as_str(), " USD credit balance")),
    };
    let usage = UsageSnapshot::new(primary, now);
    let usage = match group {
        Some(group) => usage.with_login_method(concat2("Group ", group.as_str())),
        None => usage,
    };
    let cost = CostSnapshot::new(used, "USD", "Credits", now).with_currency_symbol("$").with_balance(balance);
    let cost = match anchor {
        Some(funded) => cost.with_limit(funded),
        None => cost,
    };
    ProviderFetchResult::new(usage, source).with_cost(cost)
}

/// How the credit is fetched.
#[derive(Clone, Copy, PartialEq, Eq, Structural, Debug)]
pub enum FetchPlan {
    /// From the platform, with the recharge from the cache.
    Platform,
    /// From a signed-in browser, through its developer tools.
    Browser,
}

pub open spec fn plan_of(mode: SourceMode) -> Result<FetchPlan, ErrorModel> {
    match mode {
        SourceMode::Auto => Ok(FetchPlan::Platform),
        SourceMode::Web => Ok(FetchPlan::Browser),
        _ => Err(ErrorModel::UnsupportedSource(mode)),
    }
}

pub fn fetch_plan(mode: SourceMode) -> (r: Result<FetchPlan, ProviderError>)
    ensures
        match plan_of(mode) {
            Ok(plan) => r is Ok && r->Ok_0 == plan,
            Err(error) => r is Err && r->Err_0@ == error,
        },
{
    match mode {
        SourceMode::Auto => Ok(FetchPlan::Platform),
        SourceMode::Web => Ok(FetchPlan::Browser),
        _ => Err(ProviderError::UnsupportedSource(mode)),
    }
}

/// The recharge that a look at the cache gave; a cache that cannot be used is no
/// error.
pub open spec fn usable_recharge(recharge: Result<Option<Binary64>, ProviderError>) -> Option<Binary64> {
    match recharge {
        Ok(funded) => funded,
        Err(_) => None,
    }
}

/// What an account and an anchor give.
pub open spec fn platform_model(account: AccountModel, anchor: Option<Binary64>, now: Timestamp) -> FetchModel {
    result_of(
        account.credits,
        account.group,
        anchor,
        if anchor is Some {
            "api+browser-bridge"@
        } else {
            "api"@
        },
        now,
    )
}

/// The result of an account and a look at the recharge cache.
pub fn platform_result(
    account: AccountValues,
    recharge: Result<Option<Binary64>, ProviderError>,
    now: Timestamp,
) -> (r: ProviderFetchResult)
    ensures
        r@ == platform_model(account@, usable_recharge(recharge), now),
{
    let funded = match recharge {
        Ok(funded) => funded,
        Err(_) => None,
    };
    let source = if funded.is_some() {
        "api+browser-bridge"
    } else {
        "api"
    };
    result_from_values(account.credits, account.group, funded, source, now)
}

/// The result of credit that a browser reported.
pub fn browser_result(values: CreditValues, now: Timestamp) -> (r: ProviderFetchResult)
    ensures
        r@ == result_of(values, None, None, "browser-cdp"@, now),
{
    result_from_values(values, None, None, "browser-cdp", now)
}

/// Automatic fetches never open the developer tools of a browser.
pub proof fn law_automatic_fetches_stay_out_of_the_browser()
    ensures
        plan_of(SourceMode::Auto) == Ok::<FetchPlan, ErrorModel>(FetchPlan::Platform),
        forall|mode: SourceMode|
            #[trigger] plan_of(mode) == Ok::<FetchPlan, ErrorModel>(FetchPlan::Browser) ==> mode == SourceMode::Web,
{
}

/// Without a recharge that covers the balance neither a percentage nor a limit is
/// shown, and the balance is shown in any case.
pub proof fn law_percentages_need_a_recharge(
    values: CreditValues,
    group: Option<Seq<char>>,
    funded: Option<Binary64>,
    source: Seq<char>,
    now: Timestamp,
)
    ensures
        result_of(values, group, funded, source, now).usage.primary.is_informational == !anchors(
            funded,
            values.balance_usd,
        ),
        (result_of(values, group, funded, source, now).cost->0.limit is None) == !anchors(
            funded,
            values.balance_usd,
        ),
        result_of(values, group, funded, source, now).cost->0.balance == Some(values.balance_usd),
{
}

/// A percentage that is shown lies between 0 and 100, and the amount that counts as used
/// between nothing and what was funded.
pub proof fn law_percentages_stay_in_bounds(
    values: CreditValues,
    group: Option<Seq<char>>,
    funded: Option<Binary64>,
    source: Seq<char>,
    now: Timestamp,
)
    requires
        values.balance_usd.finite(),
        anchors(funded, values.balance_usd),
    ensures
        is_percentage(result_of(values, group, funded, source, now).usage.primary.used_percent),
        of_integer(0).at_most(result_of(values, group, funded, source, now).cost->0.used),
        result_of(values, group, funded, source, now).cost->0.used.at_most(funded->0),
{
    lemma_clamped_difference(funded->0, values.balance_usd, funded->0);
    lemma_part_of_whole(
        clamped(difference_of(funded->0, values.balance_usd), of_integer(0), funded->0),
        funded->0,
    );
}

/// A number counts as it is and a text as the number that it spells, as long as it is finite.
pub proof fn law_numbers_may_be_texts(n: crate::json::NumberModel, s: Seq<char>, b: bool)
    ensures
        n.double is Some && n.double->0.finite() ==> number_in(JsonTree::Number(n)) == n.double,
        n.double is Some && !n.double->0.finite() ==> number_in(JsonTree::Number(n)) is None,
        double_of_text(trimmed(s)) is Some && double_of_text(trimmed(s))->0.finite() ==> number_in(JsonTree::Text(s))
            == double_of_text(trimmed(s)),
        double_of_text(trimmed(s)) is None ==> number_in(JsonTree::Text(s)) is None,
        number_in(JsonTree::Null) is None && number_in(JsonTree::Bool(b)) is None,
{
}

/// The account of an answer: the balance is the quota over half a million, the used amount the
/// used quota over half a million, and the group is named where it is not blank.
pub proof fn law_accounts_stand_under_their_keys(tree: JsonTree, data: JsonTree)
    requires
        tree is Object,
        data is Object,
        tree.field("data"@) == Some(data),
    ensures
        ({
            let r = account_of(tree);
            let quota = quota_in(data.field("quota"@));
            let used = quota_in(data.field("used_quota"@));
            let group = data.field("group"@);
            let readable = group is None || group->0 == JsonTree::Null || group->0 is Text;
            let success = tree.field("success"@);
            let flagged = success is None || success->0 == JsonTree::Null || success->0 is Bool;
            &&& readable && success == Some(JsonTree::Bool(false)) ==> r == Err::<AccountModel, ErrorModel>(
                ErrorModel::AuthRequired,
            )
            &&& r is Ok <==> readable && flagged && success != Some(JsonTree::Bool(false)) && quota is Some
                && !quota->0.less(of_integer(0)) && (used is None || !used->0.less(of_integer(0)))
            &&& r is Ok ==> {
                &&& r->Ok_0.credits.balance_usd == quotient_of(quota->0, of_integer(500_000))
                &&& used is Some ==> r->Ok_0.credits.used_usd == Some(quotient_of(used->0, of_integer(500_000)))
                &&& used is None ==> r->Ok_0.credits.used_usd is None
                &&& group is Some && group->0 is Text && trimmed(group->0->Text_0).len() > 0 ==> r->Ok_0.group == Some(
                    trimmed(group->0->Text_0),
                )
                &&& group is None || group->0 == JsonTree::Null ==> r->Ok_0.group is None
                &&& group is Some && group->0 is Text && trimmed(group->0->Text_0).len() == 0 ==> r->Ok_0.group is None
            }
        }),
{
}

/// An answer without data, or that is no object, is an error.
pub proof fn law_answers_need_data(tree: JsonTree)
    ensures
        tree is Object && (tree.field("data"@) is None || tree.field("data"@) == Some(JsonTree::Null)) ==> account_of(
            tree,
        ) is Err,
        !(tree is Object) && !(tree is Array) ==> account_of(tree) is Err,
{
}

/// What is shown of credit with an anchor: what is used is the anchor less the balance, in
/// percent of the anchor; without one the bare balance is shown. Group, source and time are
/// those that were handed in.
pub proof fn law_results_keep_their_amounts(
    values: CreditValues,
    group: Option<Seq<char>>,
    funded: Option<Binary64>,
    source: Seq<char>,
    now: Timestamp,
)
    ensures
        ({
            let r = result_of(values, group, funded, source, now);
            let cost = r.cost->0;
            let balance = values.balance_usd;
            let used = difference_of(funded->0, balance);
            &&& r.source_label == source && r.usage.updated_at == now && r.cost is Some && cost.updated_at == now
            &&& group is Some ==> r.usage.login_method == Some("Group "@ + group->0)
            &&& group is None ==> r.usage.login_method is None
            &&& cost.balance == Some(balance) && cost.currency_code == "USD"@ && cost.currency_symbol == Some("$"@)
            &&& cost.period == "Credits"@ && cost.resets_at is None
            &&& r.usage.secondary is None && r.usage.extra_rate_windows.len() == 0
            &&& r.usage.primary.resets_at is None && r.usage.primary.window_minutes is None
            &&& anchors(funded, balance) ==> {
                &&& cost.limit == funded
                &&& of_integer(0).at_most(used) && used.at_most(funded->0) ==> cost.used == used
                &&& funded->0.less(used) ==> cost.used == funded->0
                &&& r.usage.primary.used_percent == product_of(quotient_of(cost.used, funded->0), of_integer(100))
                &&& r.usage.primary.reset_description == Some(
                    fixed_text(balance, 2) + " USD remaining of "@ + fixed_text(funded->0, 2) + " USD funded"@,
                )
            }
            &&& !anchors(funded, balance) ==> {
                &&& cost.limit is None && cost.used == of_integer(0)
                &&& r.usage.primary.reset_description == Some(fixed_text(balance, 2) + " USD credit balance"@)
            }
        }),
        anchors(funded, values.balance_usd) <==> funded is Some && funded->0.finite() && of_integer(0).less(funded->0)
            && !values.balance_usd.nan() && !funded->0.less(values.balance_usd),
{
    crate::binary64::arith::lemma_integer_order(0, 1);
}

/// A key is tried as it is on the main domain first. Refused, it is tried as a bearer token on
/// the same domain; and only another failure leads to the backup, with the bare key again.
pub proof fn law_keys_are_tried_in_order(attempt: Attempt, key: Seq<char>)
    ensures
        step_after(attempt, AttemptOutcome::Answered) == AttemptStep::Use,
        !attempt.bearer ==> step_after(attempt, AttemptOutcome::AuthRequired) == AttemptStep::Retry(
            Attempt { backup: attempt.backup, bearer: true },
        ),
        attempt.bearer ==> step_after(attempt, AttemptOutcome::AuthRequired) == AttemptStep::Report,
        !attempt.backup ==> step_after(attempt, AttemptOutcome::OtherError) == AttemptStep::Retry(
            Attempt { backup: true, bearer: false },
        ),
        attempt.backup ==> step_after(attempt, AttemptOutcome::OtherError) == AttemptStep::Report,
        !attempt.bearer ==> authorization_of(attempt, key) == key,
        attempt.bearer ==> authorization_of(attempt, key) == "Bearer "@ + key,
        !attempt.backup ==> url_of(attempt) == "https://aihubmix.com/api/user/self"@,
        attempt.backup ==> url_of(attempt) == "https://api.aihubmix.com/api/user/self"@,
{
}

/// A refused key asks for a sign-in; any other failure is reported with its status.
pub proof fn law_refusals_are_told_apart(status: u16)
    ensures
        status == 401 || status == 403 ==> status_meaning(status) == ErrorModel::AuthRequired,
        status != 401 && status != 403 ==> status_meaning(status) == ErrorModel::Other(
            "AIHubMix API returned status "@ + status_text(status),
        ),
{
}

/// A bare key is itself; the word for bearer tokens before it, and quotation marks or white
/// space around it, do not count.
pub proof fn law_keys_are_bared(key: Seq<char>)
    requires
        key.len() > 0,
        forall|i: int|
            0 <= i < key.len() ==> !crate::text::is_space(key[i]) && !crate::text::is_quote(key[i]),
    ensures
        manage_key(key) == key,
        manage_key("Bearer "@ + key) == key,
        manage_key("bearer "@ + key) == key,
        manage_key(seq!['"'] + key + seq!['"']) == key,
{
    reveal_strlit("Bearer ");
    reveal_strlit("bearer ");
    let upper = "Bearer "@;
    let lower = "bearer "@;
    assert(upper.len() == 7 && lower.len() == 7);
    assert(upper[0] == 'B' && upper[6] == ' ' && lower[0] == 'b' && lower[6] == ' ');
    assert(key.first() == key[0] && key.last() == key[key.len() - 1]);
    assert(trimmed(key) == key);
    assert(strip_quotes_start(key) == key && strip_quotes_end(key) == key);
    if upper.is_prefix_of(key) {
        assert(key.subrange(0, 7)[6] == ' ');
        assert(key[6] == ' ');
    }
    if lower.is_prefix_of(key) {
        assert(key.subrange(0, 7)[6] == ' ');
        assert(key[6] == ' ');
    }
    let a = upper + key;
    let b = lower + key;
    assert(a.first() == 'B' && b.first() == 'b' && a.last() == key.last() && b.last() == key.last());
    assert(trimmed(a) == a && trimmed(b) == b);
    assert(strip_quotes_end(strip_quotes_start(a)) == a && strip_quotes_end(strip_quotes_start(b)) == b);
    assert(a.subrange(0, 7) =~= upper);
    assert(b.subrange(0, 7) =~= lower);
    assert(a.skip(7) =~= key && b.skip(7) =~= key);
    assert(!upper.is_prefix_of(b)) by {
        if upper.is_prefix_of(b) {
            assert(b.subrange(0, 7)[0] == 'B');
        }
    }
    let c = seq!['"'] + key + seq!['"'];
    assert(c.first() == '"' && c.last() == '"');
    assert(trimmed(c) == c);
    assert(c.drop_first() =~= key.push('"'));
    assert(key.push('"').first() == key[0]);
    assert(strip_quotes_start(key.push('"')) == key.push('"'));
    assert(strip_quotes_start(c) == key.push('"'));
    assert(key.push('"').drop_last() =~= key);
    assert(strip_quotes_end(key.push('"')) == key);
}

/// A result of the platform is that of its own account; its source says whether the bridge had
/// a part in it.
pub proof fn law_sources_say_who_had_a_part(account: AccountModel, anchor: Binary64, now: Timestamp)
    ensures
        platform_model(account, Some(anchor), now) == result_of(
            account.credits,
            account.group,
            Some(anchor),
            "api+browser-bridge"@,
            now,
        ),
        platform_model(account, None, now) == result_of(account.credits, account.group, None, "api"@, now),
        usable_recharge(Ok(Some(anchor))) == Some(anchor),
        usable_recharge(Ok(None)) is None,
        forall|error: ProviderError| #[trigger] usable_recharge(Err(error)) is None,
{
}

/// The first attempt goes to the main domain with the bare key.
pub proof fn law_the_first_attempt_is_plain(key: Seq<char>)
    ensures
        url_of(opening_attempt()) == "https://aihubmix.com/api/user/self"@,
        authorization_of(opening_attempt(), key) == key,
{
}

/// An answer and its data may each be written as a row of values, in the order of their fields,
/// but not as a longer one.
pub proof fn law_answers_may_be_rows(
    object: JsonTree,
    data: JsonTree,
    success: JsonTree,
    quota: JsonTree,
    used: JsonTree,
    group: JsonTree,
)
    requires
        object is Object && object.field("success"@) == Some(success) && object.field("data"@) == Some(data),
        data is Object && data.field("quota"@) == Some(quota) && data.field("used_quota"@) == Some(used),
        data.field("group"@) == Some(group),
    ensures
        account_of(JsonTree::Array(seq![success, data])) == account_of(object),
        account_in(JsonTree::Array(seq![quota, used, group])) == account_in(data),
        data_fits(JsonTree::Array(seq![quota, used, group])) == data_fits(data),
        account_of(JsonTree::Array(seq![success, data, data])) == Err::<AccountModel, ErrorModel>(malformed()),
        !data_fits(JsonTree::Array(seq![quota, used, group, group])),
{
    let row = seq![success, data];
    assert(row.len() == 2 && row[0] == success && row[1] == data);
    let long = seq![success, data, data];
    assert(long.len() == 3 && long[0] == success && long[1] == data);
    let values = seq![quota, used, group];
    assert(values.len() == 3 && values[0] == quota && values[1] == used && values[2] == group);
    assert(seq![quota, used, group, group].len() == 4);
}

/// What an answer lacks is named, and so is what is no amount.
pub proof fn law_what_answers_lack_is_named(tree: JsonTree, data: JsonTree, label: Seq<char>, quota: Binary64)
    ensures
        quota_error(label) == ErrorModel::Parse("AIHubMix "@ + label + " was not a finite non-negative number"@),
        !quota_ok(quota) ==> credits_of(quota, None, label, label) == Err::<CreditValues, ErrorModel>(
            quota_error(label),
        ),
        malformed() == ErrorModel::Parse("Invalid AIHubMix response: unexpected fields"@),
        !(tree is Object) && !(tree is Array) ==> account_of(tree) == Err::<AccountModel, ErrorModel>(malformed()),
        tree is Object && tree.field("data"@) is None && tree.field("success"@) is None ==> account_of(tree) == Err::<
            AccountModel,
            ErrorModel,
        >(ErrorModel::Parse("AIHubMix response did not include data"@)),
        data is Object && data.field("group"@) is None && data.field("quota"@) is None ==> account_in(data) == Err::<
            AccountModel,
            ErrorModel,
        >(ErrorModel::Parse("AIHubMix response did not include quota"@)),
{
}

} // verus!
