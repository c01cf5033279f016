//! What a provider reports: usage windows, snapshots, costs and errors.
use crate::binary64::{of_integer, Binary64};
use crate::json::text_view;
use crate::provider::SourceMode;
use crate::timestamp::Timestamp;
use vstd::prelude::*;

verus! {

/// Length of a session window, in minutes.
pub const SESSION_WINDOW_MINUTES: u32 = 300;

/// Length of a weekly window, in minutes.
pub const WEEKLY_WINDOW_MINUTES: u32 = 10080;

/// Length of a monthly window, in minutes.
pub const MONTHLY_WINDOW_MINUTES: u32 = 43200;

/// A usage window.
#[derive(Debug)]
pub struct RateWindow {
    pub used_percent: Binary64,
    pub window_minutes: Option<u32>,
    pub resets_at: Option<Timestamp>,
    pub reset_description: Option<String>,
    pub is_informational: bool,
}

/// What a [`RateWindow`] says.
pub ghost struct WindowModel {
    pub used_percent: Binary64,
    pub window_minutes: Option<u32>,
    pub resets_at: Option<Timestamp>,
    pub reset_description: Option<Seq<char>>,
    pub is_informational: bool,
}

impl View for RateWindow {
    type V = WindowModel;

    open spec fn view(&self) -> WindowModel {
        WindowModel {
            used_percent: self.used_percent,
            window_minutes: self.window_minutes,
            resets_at: self.resets_at,
            reset_description: text_view(self.reset_description),
            is_informational: self.is_informational,
        }
    }
}

/// A window that states nothing but its percentage.
pub open spec fn plain_window(used_percent: Binary64) -> WindowModel {
    WindowModel {
        used_percent,
        window_minutes: None,
        resets_at: None,
        reset_description: None,
        is_informational: false,
    }
}

/// A window that carries a description in place of a percentage.
pub open spec fn informational_window(description: Seq<char>) -> WindowModel {
    WindowModel {
        used_percent: of_integer(0),
        window_minutes: None,
        resets_at: None,
        reset_description: Some(description),
        is_informational: true,
    }
}

/// The session window of an account without an active session.
pub open spec fn idle_session_window() -> WindowModel {
    WindowModel {
        used_percent: of_integer(0),
        window_minutes: Some(SESSION_WINDOW_MINUTES),
        resets_at: None,
        reset_description: Some("No active 5h session"@),
        is_informational: true,
    }
}

impl RateWindow {
    pub fn new(used_percent: Binary64) -> (r: RateWindow)
        ensures
            r@ == plain_window(used_percent),
    {
        RateWindow {
            used_percent,
            window_minutes: None,
            resets_at: None,
            reset_description: None,
            is_informational: false,
        }
    }

    pub fn with_details(
        used_percent: Binary64,
        window_minutes: Option<u32>,
        resets_at: Option<Timestamp>,
        reset_description: Option<String>,
    ) -> (r: RateWindow)
        ensures
            r@ == (WindowModel {
                used_percent,
                window_minutes,
                resets_at,
                reset_description: text_view(reset_description),
                is_informational: false,
            }),
    {
        RateWindow { used_percent, window_minutes, resets_at, reset_description, is_informational: false }
    }

    pub fn informational(description: String) -> (r: RateWindow)
        ensures
            r@ == informational_window(description@),
    {
        RateWindow {
            used_percent: Binary64::from_integer(0),
            window_minutes: None,
            resets_at: None,
            reset_description: Some(description),
            is_informational: true,
        }
    }

    pub fn no_active_session() -> (r: RateWindow)
        ensures
            r@ == idle_session_window(),
    {
        RateWindow {
            used_percent: Binary64::from_integer(0),
            window_minutes: Some(SESSION_WINDOW_MINUTES),
            resets_at: None,
            reset_description: Some("No active 5h session".to_string()),
            is_informational: true,
        }
    }

    pub fn duplicate(&self) -> (r: RateWindow)
        ensures
            r@ == self@,
    {
        RateWindow {
            used_percent: self.used_percent,
            window_minutes: self.window_minutes,
            resets_at: self.resets_at,
            reset_description: copy_text(&self.reset_description),
            is_informational: self.is_informational,
        }
    }
}

pub fn copy_text(s: &Option<String>) -> (r: Option<String>)
    ensures
        text_view(r) == text_view(*s),
{
    match s {
        Some(s) => Some(s.clone()),
        None => None,
    }
}

pub open spec fn window_view(w: Option<RateWindow>) -> Option<WindowModel> {
    match w {
        Some(w) => Some(w@),
        None => None,
    }
}

/// The cadence at which a window resets.
#[derive(Clone, Copy, PartialEq, Eq, Structural, Debug)]
pub enum RateWindowCadence {
    Session,
    Weekly,
    Monthly,
    Unknown,
}

pub open spec fn cadence_of(minutes: u32) -> RateWindowCadence {
    if minutes == SESSION_WINDOW_MINUTES {
        RateWindowCadence::Session
    } else if minutes == WEEKLY_WINDOW_MINUTES {
        RateWindowCadence::Weekly
    } else if minutes == MONTHLY_WINDOW_MINUTES {
        RateWindowCadence::Monthly
    } else {
        RateWindowCadence::Unknown
    }
}

impl RateWindowCadence {
    pub fn from_minutes(minutes: u32) -> (r: RateWindowCadence)
        ensures
            r == cadence_of(minutes),
    {
        if minutes == SESSION_WINDOW_MINUTES {
            RateWindowCadence::Session
        } else if minutes == WEEKLY_WINDOW_MINUTES {
            RateWindowCadence::Weekly
        } else if minutes == MONTHLY_WINDOW_MINUTES {
            RateWindowCadence::Monthly
        } else {
            RateWindowCadence::Unknown
        }
    }
}

/// An additional window under a title of its own.
#[derive(Debug)]
pub struct NamedRateWindow {
    pub id: String,
    pub title: String,
    pub window: RateWindow,
    pub usage_known: bool,
}

/// What a [`NamedRateWindow`] says.
pub ghost struct NamedWindowModel {
    pub id: Seq<char>,
    pub title: Seq<char>,
    pub window: WindowModel,
    pub usage_known: bool,
}

impl View for NamedRateWindow {
    type V = NamedWindowModel;

    open spec fn view(&self) -> NamedWindowModel {
        NamedWindowModel {
            id: self.id@,
            title: self.title@,
            window: self.window@,
            usage_known: self.usage_known,
        }
    }
}

/// A named window whose usage is known.
pub open spec fn named_window(id: Seq<char>, title: Seq<char>, window: WindowModel) -> NamedWindowModel {
    NamedWindowModel { id, title, window, usage_known: true }
}

impl NamedRateWindow {
    pub fn new(id: String, title: String, window: RateWindow) -> (r: NamedRateWindow)
        ensures
            r@ == named_window(id@, title@, window@),
    {
        NamedRateWindow { id, title, window, usage_known: true }
    }
}

pub open spec fn named_views(v: Seq<NamedRateWindow>) -> Seq<NamedWindowModel> {
    v.map_values(|w: NamedRateWindow| w@)
}

/// The state of an account at one time.
#[derive(Debug)]
pub struct UsageSnapshot {
    pub primary: RateWindow,
    pub secondary: Option<RateWindow>,
    pub tertiary: Option<RateWindow>,
    pub model_specific: Option<RateWindow>,
    pub extra_rate_windows: Vec<NamedRateWindow>,
    pub account_email: Option<String>,
    pub login_method: Option<String>,
    pub primary_label: Option<String>,
    pub secondary_label: Option<String>,
    pub updated_at: Timestamp,
}

/// What a [`UsageSnapshot`] says.
pub ghost struct UsageModel {
    pub primary: WindowModel,
    pub secondary: Option<WindowModel>,
    pub tertiary: Option<WindowModel>,
    pub model_specific: Option<WindowModel>,
    pub extra_rate_windows: Seq<NamedWindowModel>,
    pub account_email: Option<Seq<char>>,
    pub login_method: Option<Seq<char>>,
    pub primary_label: Option<Seq<char>>,
    pub secondary_label: Option<Seq<char>>,
    pub updated_at: Timestamp,
}

impl View for UsageSnapshot {
    type V = UsageModel;

    open spec fn view(&self) -> UsageModel {
        UsageModel {
            primary: self.primary@,
            secondary: window_view(self.secondary),
            tertiary: window_view(self.tertiary),
            model_specific: window_view(self.model_specific),
            extra_rate_windows: named_views(self.extra_rate_windows@),
            account_email: text_view(self.account_email),
            login_method: text_view(self.login_method),
            primary_label: text_view(self.primary_label),
            secondary_label: text_view(self.secondary_label),
            updated_at: self.updated_at,
        }
    }
}

/// A snapshot with one window and nothing else.
pub open spec fn new_usage(primary: WindowModel, updated_at: Timestamp) -> UsageModel {
    UsageModel {
        primary,
        secondary: None,
        tertiary: None,
        model_specific: None,
        extra_rate_windows: Seq::empty(),
        account_email: None,
        login_method: None,
        primary_label: None,
        secondary_label: None,
        updated_at,
    }
}

/// What a snapshot says once one of its parts was set.
impl UsageModel {
    pub open spec fn having_secondary(self, window: WindowModel) -> UsageModel {
        UsageModel { secondary: Some(window), ..self }
    }

    pub open spec fn having_tertiary(self, window: WindowModel) -> UsageModel {
        UsageModel { tertiary: Some(window), ..self }
    }

    pub open spec fn having_model_specific(self, window: WindowModel) -> UsageModel {
        UsageModel { model_specific: Some(window), ..self }
    }

    pub open spec fn having_account_email(self, email: Seq<char>) -> UsageModel {
        UsageModel { account_email: Some(email), ..self }
    }

    pub open spec fn having_login_method(self, method: Seq<char>) -> UsageModel {
        UsageModel { login_method: Some(method), ..self }
    }

    pub open spec fn having_primary_label(self, label: Seq<char>) -> UsageModel {
        UsageModel { primary_label: Some(label), ..self }
    }

    pub open spec fn having_secondary_label(self, label: Seq<char>) -> UsageModel {
        UsageModel { secondary_label: Some(label), ..self }
    }

    pub open spec fn having_extra(self, window: NamedWindowModel) -> UsageModel {
        UsageModel { extra_rate_windows: self.extra_rate_windows.push(window), ..self }
    }
}

impl UsageSnapshot {
    pub fn new(primary: RateWindow, updated_at: Timestamp) -> (r: UsageSnapshot)
        ensures
            r@ == new_usage(primary@, updated_at),
    {
        let r = UsageSnapshot {
            primary,
            secondary: None,
            tertiary: None,
            model_specific: None,
            extra_rate_windows: Vec::new(),
            account_email: None,
            login_method: None,
            primary_label: None,
            secondary_label: None,
            updated_at,
        };
        proof {
            assert(named_views(r.extra_rate_windows@) =~= Seq::<NamedWindowModel>::empty());
        }
        r
    }

    pub fn with_secondary(self, window: RateWindow) -> (r: UsageSnapshot)
        ensures
            r@ == self@.having_secondary(window@),
    {
        UsageSnapshot { secondary: Some(window), ..self }
    }

    pub fn with_tertiary(self, window: RateWindow) -> (r: UsageSnapshot)
        ensures
            r@ == self@.having_tertiary(window@),
    {
        UsageSnapshot { tertiary: Some(window), ..self }
    }

    pub fn with_model_specific(self, window: RateWindow) -> (r: UsageSnapshot)
        ensures
            r@ == self@.having_model_specific(window@),
    {
        UsageSnapshot { model_specific: Some(window), ..self }
    }

    pub fn with_email(self, email: String) -> (r: UsageSnapshot)
        ensures
            r@ == self@.having_account_email(email@),
    {
        UsageSnapshot { account_email: Some(email), ..self }
    }

    pub fn with_login_method(self, method: String) -> (r: UsageSnapshot)
        ensures
            r@ == self@.having_login_method(method@),
    {
        UsageSnapshot { login_method: Some(method), ..self }
    }

    pub fn with_primary_label(self, label: String) -> (r: UsageSnapshot)
        ensures
            r@ == self@.having_primary_label(label@),
    {
        UsageSnapshot { primary_label: Some(label), ..self }
    }

    pub fn with_secondary_label(self, label: String) -> (r: UsageSnapshot)
        ensures
            r@ == self@.having_secondary_label(label@),
    {
        UsageSnapshot { secondary_label: Some(label), ..self }
    }

    pub fn with_extra_rate_window(self, id: &str, title: &str, window: RateWindow) -> (r: UsageSnapshot)
        ensures
            r@ == self@.having_extra(named_window(id@, title@, window@)),
    {
        self.with_named_window(NamedRateWindow::new(id.to_string(), title.to_string(), window))
    }

    /// Adds an additional window at the end.
    pub fn with_named_window(self, window: NamedRateWindow) -> (r: UsageSnapshot)
        ensures
            r@ == self@.having_extra(window@),
    {
        let ghost before = self@;
        let mut extra = self.extra_rate_windows;
        let ghost old_extra = extra@;
        extra.push(window);
        let r = UsageSnapshot { extra_rate_windows: extra, ..self };
        proof {
            assert(named_views(r.extra_rate_windows@) =~= named_views(old_extra).push(window@));
        }
        r
    }
}

/// What an account has spent, and what it may spend.
#[derive(Debug)]
pub struct CostSnapshot {
    pub used: Binary64,
    pub limit: Option<Binary64>,
    pub balance: Option<Binary64>,
    pub currency_code: String,
    pub currency_symbol: Option<String>,
    pub period: String,
    pub resets_at: Option<Timestamp>,
    pub updated_at: Timestamp,
}

/// What a [`CostSnapshot`] says.
pub ghost struct CostModel {
    pub used: Binary64,
    pub limit: Option<Binary64>,
    pub balance: Option<Binary64>,
    pub currency_code: Seq<char>,
    pub currency_symbol: Option<Seq<char>>,
    pub period: Seq<char>,
    pub resets_at: Option<Timestamp>,
    pub updated_at: Timestamp,
}

impl View for CostSnapshot {
    type V = CostModel;

    open spec fn view(&self) -> CostModel {
        CostModel {
            used: self.used,
            limit: self.limit,
            balance: self.balance,
            currency_code: self.currency_code@,
            currency_symbol: text_view(self.currency_symbol),
            period: self.period@,
            resets_at: self.resets_at,
            updated_at: self.updated_at,
        }
    }
}

pub open spec fn new_cost(used: Binary64, currency: Seq<char>, period: Seq<char>, updated_at: Timestamp) -> CostModel {
    CostModel {
        used,
        limit: None,
        balance: None,
        currency_code: currency,
        currency_symbol: None,
        period,
        resets_at: None,
        updated_at,
    }
}

pub open spec fn cost_view(c: Option<CostSnapshot>) -> Option<CostModel> {
    match c {
        Some(c) => Some(c@),
        None => None,
    }
}

/// What a cost says once one of its parts was set.
impl CostModel {
    pub open spec fn having_limit(self, limit: Binary64) -> CostModel {
        CostModel { limit: Some(limit), ..self }
    }

    pub open spec fn having_balance(self, balance: Binary64) -> CostModel {
        CostModel { balance: Some(balance), ..self }
    }

    pub open spec fn having_currency_symbol(self, symbol: Seq<char>) -> CostModel {
        CostModel { currency_symbol: Some(symbol), ..self }
    }

    pub open spec fn having_resets_at(self, resets_at: Timestamp) -> CostModel {
        CostModel { resets_at: Some(resets_at), ..self }
    }
}

impl CostSnapshot {
    pub fn new(used: Binary64, currency: &str, period: &str, updated_at: Timestamp) -> (r: CostSnapshot)
        ensures
            r@ == new_cost(used, currency@, period@, updated_at),
    {
        CostSnapshot {
            used,
            limit: None,
            balance: None,
            currency_code: currency.to_string(),
            currency_symbol: None,
            period: period.to_string(),
            resets_at: None,
            updated_at,
        }
    }

    pub fn with_limit(self, limit: Binary64) -> (r: CostSnapshot)
        ensures
            r@ == self@.having_limit(limit),
    {
        CostSnapshot { limit: Some(limit), ..self }
    }

    pub fn with_balance(self, balance: Binary64) -> (r: CostSnapshot)
        ensures
            r@ == self@.having_balance(balance),
    {
        CostSnapshot { balance: Some(balance), ..self }
    }

    pub fn with_currency_symbol(self, symbol: &str) -> (r: CostSnapshot)
        ensures
            r@ == self@.having_currency_symbol(symbol@),
    {
        CostSnapshot { currency_symbol: Some(symbol.to_string()), ..self }
    }

    pub fn with_resets_at(self, resets_at: Timestamp) -> (r: CostSnapshot)
        ensures
            r@ == self@.having_resets_at(resets_at),
    {
        CostSnapshot { resets_at: Some(resets_at), ..self }
    }
}

/// The outcome of a fetch.
#[derive(Debug)]
pub struct ProviderFetchResult {
    pub usage: UsageSnapshot,
    pub source_label: String,
    pub cost: Option<CostSnapshot>,
}

/// What a [`ProviderFetchResult`] says.
pub ghost struct FetchModel {
    pub usage: UsageModel,
    pub source_label: Seq<char>,
    pub cost: Option<CostModel>,
}

impl View for ProviderFetchResult {
    type V = FetchModel;

    open spec fn view(&self) -> FetchModel {
        FetchModel { usage: self.usage@, source_label: self.source_label@, cost: cost_view(self.cost) }
    }
}

pub open spec fn new_result(usage: UsageModel, source_label: Seq<char>) -> FetchModel {
    FetchModel { usage, source_label, cost: None }
}

impl FetchModel {
    pub open spec fn having_cost(self, cost: CostModel) -> FetchModel {
        FetchModel { cost: Some(cost), ..self }
    }
}

impl ProviderFetchResult {
    pub fn new(usage: UsageSnapshot, source_label: &str) -> (r: ProviderFetchResult)
        ensures
            r@ == new_result(usage@, source_label@),
    {
        ProviderFetchResult { usage, source_label: source_label.to_string(), cost: None }
    }

    pub fn with_cost(self, cost: CostSnapshot) -> (r: ProviderFetchResult)
        ensures
            r@ == self@.having_cost(cost@),
    {
        ProviderFetchResult { cost: Some(cost), ..self }
    }
}

/// Why a fetch failed.
#[derive(Debug)]
pub enum ProviderError {
    Parse(String),
    Other(String),
    NotInstalled(String),
    AuthRequired,
    NoCookies,
    UnsupportedSource(SourceMode),
}

/// What a [`ProviderError`] says.
pub ghost enum ErrorModel {
    Parse(Seq<char>),
    Other(Seq<char>),
    NotInstalled(Seq<char>),
    AuthRequired,
    NoCookies,
    UnsupportedSource(SourceMode),
}

impl View for ProviderError {
    type V = ErrorModel;

    open spec fn view(&self) -> ErrorModel {
        match self {
            ProviderError::Parse(s) => ErrorModel::Parse(s@),
            ProviderError::Other(s) => ErrorModel::Other(s@),
            ProviderError::NotInstalled(s) => ErrorModel::NotInstalled(s@),
            ProviderError::AuthRequired => ErrorModel::AuthRequired,
            ProviderError::NoCookies => ErrorModel::NoCookies,
            ProviderError::UnsupportedSource(mode) => ErrorModel::UnsupportedSource(*mode),
        }
    }
}

impl ProviderError {
    pub fn parse(text: &str) -> (r: ProviderError)
        ensures
            r@ == ErrorModel::Parse(text@),
    {
        ProviderError::Parse(text.to_string())
    }

    pub fn other(text: &str) -> (r: ProviderError)
        ensures
            r@ == ErrorModel::Other(text@),
    {
        ProviderError::Other(text.to_string())
    }
}

/// What the outcome of a fetch says.
pub open spec fn fetch_view(r: Result<ProviderFetchResult, ProviderError>) -> Result<FetchModel, ErrorModel> {
    match r {
        Ok(result) => Ok(result@),
        Err(error) => Err(error@),
    }
}

/// What the outcome of reading a snapshot says.
pub open spec fn usage_view(r: Result<UsageSnapshot, ProviderError>) -> Result<UsageModel, ErrorModel> {
    match r {
        Ok(usage) => Ok(usage@),
        Err(error) => Err(error@),
    }
}

/// What the outcome of a check says.
pub open spec fn check_view(r: Result<(), ProviderError>) -> Result<(), ErrorModel> {
    match r {
        Ok(_) => Ok(()),
        Err(error) => Err(error@),
    }
}

/// A window that is only described shows no percentage and no reset; a plain one shows its
/// percentage alone.
pub proof fn law_described_windows_show_no_percentage(description: Seq<char>, percent: Binary64)
    ensures
        ({
            let told = informational_window(description);
            let plain = plain_window(percent);
            &&& told.is_informational && told.reset_description == Some(description)
            &&& told.used_percent == of_integer(0) && told.window_minutes is None && told.resets_at is None
            &&& !plain.is_informational && plain.used_percent == percent
            &&& plain.window_minutes is None && plain.resets_at is None && plain.reset_description is None
        }),
{
}

/// A new snapshot holds its window and its time, a new cost its amount, currency, period and
/// time, and a named window what it is named for; there is nothing else in them.
pub proof fn law_new_values_hold_what_they_are_given(
    window: WindowModel,
    at: Timestamp,
    used: Binary64,
    a: Seq<char>,
    b: Seq<char>,
)
    ensures
        ({
            let usage = new_usage(window, at);
            let cost = new_cost(used, a, b, at);
            let named = named_window(a, b, window);
            &&& usage.primary == window && usage.updated_at == at
            &&& usage.secondary is None && usage.tertiary is None && usage.model_specific is None
            &&& usage.extra_rate_windows.len() == 0 && usage.account_email is None && usage.login_method is None
            &&& usage.primary_label is None && usage.secondary_label is None
            &&& cost.used == used && cost.currency_code == a && cost.period == b && cost.updated_at == at
            &&& cost.limit is None && cost.balance is None && cost.currency_symbol is None && cost.resets_at is None
            &&& named.id == a && named.title == b && named.window == window && named.usage_known
        }),
{
}

/// Five hours are a session, seven days a week and thirty days a month.
pub proof fn law_cadences_are_told_by_their_minutes(minutes: u32)
    ensures
        cadence_of(minutes) == RateWindowCadence::Session <==> minutes == 5 * 60,
        cadence_of(minutes) == RateWindowCadence::Weekly <==> minutes == 7 * 24 * 60,
        cadence_of(minutes) == RateWindowCadence::Monthly <==> minutes == 30 * 24 * 60,
{
}

/// A part that is set is the one that was given, and all other parts stay as they were.
pub proof fn law_setting_a_part_keeps_the_others(
    usage: UsageModel,
    window: WindowModel,
    named: NamedWindowModel,
    text: Seq<char>,
)
    ensures
        ({
            let r = usage.having_secondary(window);
            &&& r.secondary == Some(window)
            &&& r.primary == usage.primary && r.tertiary == usage.tertiary && r.model_specific == usage.model_specific
            &&& r.extra_rate_windows == usage.extra_rate_windows && r.account_email == usage.account_email && r.login_method == usage.login_method
            &&& r.primary_label == usage.primary_label && r.secondary_label == usage.secondary_label && r.updated_at == usage.updated_at
        }),
        ({
            let r = usage.having_tertiary(window);
            &&& r.tertiary == Some(window)
            &&& r.primary == usage.primary && r.secondary == usage.secondary && r.model_specific == usage.model_specific
            &&& r.extra_rate_windows == usage.extra_rate_windows && r.account_email == usage.account_email && r.login_method == usage.login_method
            &&& r.primary_label == usage.primary_label && r.secondary_label == usage.secondary_label && r.updated_at == usage.updated_at
        }),
        ({
            let r = usage.having_model_specific(window);
            &&& r.model_specific == Some(window)
            &&& r.primary == usage.primary && r.secondary == usage.secondary && r.tertiary == usage.tertiary
            &&& r.extra_rate_windows == usage.extra_rate_windows && r.account_email == usage.account_email && r.login_method == usage.login_method
            &&& r.primary_label == usage.primary_label && r.secondary_label == usage.secondary_label && r.updated_at == usage.updated_at
        }),
        ({
            let r = usage.having_account_email(text);
            &&& r.account_email == Some(text)
            &&& r.primary == usage.primary && r.secondary == usage.secondary && r.tertiary == usage.tertiary
            &&& r.model_specific == usage.model_specific && r.extra_rate_windows == usage.extra_rate_windows && r.login_method == usage.login_method
            &&& r.primary_label == usage.primary_label && r.secondary_label == usage.secondary_label && r.updated_at == usage.updated_at
        }),
        ({
            let r = usage.having_login_method(text);
            &&& r.login_method == Some(text)
            &&& r.primary == usage.primary && r.secondary == usage.secondary && r.tertiary == usage.tertiary
            &&& r.model_specific == usage.model_specific && r.extra_rate_windows == usage.extra_rate_windows && r.account_email == usage.account_email
            &&& r.primary_label == usage.primary_label && r.secondary_label == usage.secondary_label && r.updated_at == usage.updated_at
        }),
        ({
            let r = usage.having_primary_label(text);
            &&& r.primary_label == Some(text)
            &&& r.primary == usage.primary && r.secondary == usage.secondary && r.tertiary == usage.tertiary
            &&& r.model_specific == usage.model_specific && r.extra_rate_windows == usage.extra_rate_windows && r.account_email == usage.account_email
            &&& r.login_method == usage.login_method && r.secondary_label == usage.secondary_label && r.updated_at == usage.updated_at
        }),
        ({
            let r = usage.having_secondary_label(text);
            &&& r.secondary_label == Some(text)
            &&& r.primary == usage.primary && r.secondary == usage.secondary && r.tertiary == usage.tertiary
            &&& r.model_specific == usage.model_specific && r.extra_rate_windows == usage.extra_rate_windows && r.account_email == usage.account_email
            &&& r.login_method == usage.login_method && r.primary_label == usage.primary_label && r.updated_at == usage.updated_at
        }),
        ({
            let r = usage.having_extra(named);
            &&& r.extra_rate_windows.len() == usage.extra_rate_windows.len() + 1
            &&& r.extra_rate_windows.last() == named && r.extra_rate_windows.drop_last() == usage.extra_rate_windows
            &&& r.primary == usage.primary && r.secondary == usage.secondary && r.tertiary == usage.tertiary
            &&& r.model_specific == usage.model_specific && r.account_email == usage.account_email && r.login_method == usage.login_method
            &&& r.primary_label == usage.primary_label && r.secondary_label == usage.secondary_label && r.updated_at == usage.updated_at
        }),
{
    assert(usage.having_extra(named).extra_rate_windows.drop_last() =~= usage.extra_rate_windows);
}

/// A part of a cost that is set is the one that was given, and all other parts stay as they
/// were; the same goes for the cost of a result.
pub proof fn law_setting_a_part_of_a_cost_keeps_the_others(
    cost: CostModel,
    amount: Binary64,
    text: Seq<char>,
    at: Timestamp,
    result: FetchModel,
)
    ensures
        ({
            let r = cost.having_limit(amount);
            &&& r.limit == Some(amount)
            &&& r.used == cost.used && r.balance == cost.balance && r.currency_code == cost.currency_code
            &&& r.currency_symbol == cost.currency_symbol && r.period == cost.period && r.resets_at == cost.resets_at
            &&& r.updated_at == cost.updated_at
        }),
        ({
            let r = cost.having_balance(amount);
            &&& r.balance == Some(amount)
            &&& r.used == cost.used && r.limit == cost.limit && r.currency_code == cost.currency_code
            &&& r.currency_symbol == cost.currency_symbol && r.period == cost.period && r.resets_at == cost.resets_at
            &&& r.updated_at == cost.updated_at
        }),
        ({
            let r = cost.having_currency_symbol(text);
            &&& r.currency_symbol == Some(text)
            &&& r.used == cost.used && r.limit == cost.limit && r.balance == cost.balance
            &&& r.currency_code == cost.currency_code && r.period == cost.period && r.resets_at == cost.resets_at
            &&& r.updated_at == cost.updated_at
        }),
        ({
            let r = cost.having_resets_at(at);
            &&& r.resets_at == Some(at)
            &&& r.used == cost.used && r.limit == cost.limit && r.balance == cost.balance
            &&& r.currency_code == cost.currency_code && r.currency_symbol == cost.currency_symbol && r.period == cost.period
            &&& r.updated_at == cost.updated_at
        }),
        result.having_cost(cost).cost == Some(cost) && result.having_cost(cost).usage == result.usage,
        result.having_cost(cost).source_label == result.source_label,
        new_result(result.usage, text).usage == result.usage && new_result(result.usage, text).source_label == text,
        new_result(result.usage, text).cost is None,
{
}

/// What a snapshot, a cost and a result say is what stands in their fields.
pub proof fn law_models_show_the_fields(usage: UsageSnapshot, cost: CostSnapshot, result: ProviderFetchResult)
    ensures
        usage@.primary == usage.primary@ && usage@.secondary == window_view(usage.secondary),
        usage@.tertiary == window_view(usage.tertiary) && usage@.model_specific == window_view(usage.model_specific),
        usage@.extra_rate_windows == named_views(usage.extra_rate_windows@),
        usage@.account_email == text_view(usage.account_email) && usage@.login_method == text_view(usage.login_method),
        usage@.primary_label == text_view(usage.primary_label),
        usage@.secondary_label == text_view(usage.secondary_label) && usage@.updated_at == usage.updated_at,
        cost@.used == cost.used && cost@.limit == cost.limit && cost@.balance == cost.balance,
        cost@.currency_code == cost.currency_code@ && cost@.currency_symbol == text_view(cost.currency_symbol),
        cost@.period == cost.period@ && cost@.resets_at == cost.resets_at && cost@.updated_at == cost.updated_at,
        result@.usage == result.usage@ && result@.source_label == result.source_label@,
        result.cost is Some ==> result@.cost == Some(result.cost->0@),
        result.cost is None ==> result@.cost is None,
{
}

} // verus!
