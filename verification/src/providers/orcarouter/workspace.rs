//! Snapshots of a workspace and of a wallet.
use super::responses::{cap_of, SubscriptionSummary, UsageResponse};
use crate::binary64::arith::{law_quotients_are_nearest, lemma_clamped_share, lemma_integer_exact, lemma_integer_order};
use crate::binary64::format::fixed_text;
use crate::binary64::{clamped, larger_of, of_integer, product_of, quotient_of, Binary64};
use crate::bridge::is_percentage;
use crate::provider::SourceMode;
use crate::snapshot::{
    fetch_view, informational_window, new_cost, new_usage, CostModel, CostSnapshot, ErrorModel,
    FetchModel, ProviderError, ProviderFetchResult, RateWindow, UsageModel, UsageSnapshot,
    WindowModel,
};
use crate::text::{concat2, concat4, join, joined, texts};
use crate::timestamp::{date_of, date_text, unix_instant, Timestamp};
use vstd::prelude::*;

verus! {

/// From this limit on a cap counts as none: a percentage of it would say nothing.
pub const NO_CAP_SENTINEL_USD: i64 = 1_000_000;

/// Spending in US dollars.
pub open spec fn spent_usd(cents: Binary64) -> Binary64 {
    larger_of(quotient_of(cents, of_integer(100)), of_integer(0))
}

/// The cap of a subscription that means anything.
pub open spec fn real_cap(subscription: Option<SubscriptionSummary>) -> Option<Binary64> {
    match subscription {
        Some(subscription) => match cap_of(subscription) {
            Some(cap) => if cap.less(of_integer(NO_CAP_SENTINEL_USD as int)) {
                Some(cap)
            } else {
                None
            },
            None => None,
        },
        None => None,
    }
}

/// What is noted of a subscription.
pub open spec fn notes_of(subscription: Option<SubscriptionSummary>) -> Seq<Seq<char>> {
    match subscription {
        None => Seq::empty(),
        Some(s) => {
            let payment = if s.has_payment_method == Some(true) {
                seq!["payment method on file"@]
            } else {
                Seq::empty()
            };
            if s.access_until is Some && s.access_until->0 > 0 && unix_instant(s.access_until->0) is Some {
                payment.push("access until "@ + date_text(s.access_until->0))
            } else {
                payment
            }
        },
    }
}

/// The snapshot of a workspace: a percentage only where there is a real cap.
pub open spec fn workspace_usage(cents: Binary64, subscription: Option<SubscriptionSummary>, now: Timestamp) -> UsageModel {
    let spent = spent_usd(cents);
    let primary = match real_cap(subscription) {
        Some(cap) => WindowModel {
            used_percent: clamped(
                product_of(quotient_of(spent, cap), of_integer(100)),
                of_integer(0),
                of_integer(100),
            ),
            window_minutes: None,
            resets_at: None,
            reset_description: Some(
                fixed_text(spent, 2) + " of "@ + fixed_text(cap, 2) + " USD workspace usage"@,
            ),
            is_informational: false,
        },
        None => informational_window(fixed_text(spent, 2) + " USD workspace usage"@),
    };
    UsageModel {
        login_method: if notes_of(subscription).len() == 0 {
            None
        } else {
            Some(joined(notes_of(subscription), " · "@))
        },
        ..new_usage(primary, now)
    }
}

fn cap_for(subscription: &Option<SubscriptionSummary>) -> (r: Option<Binary64>)
    ensures
        r == real_cap(*subscription),
{
    match subscription {
        Some(s) => match s.effective_cap_usd() {
            Some(cap) => if cap.lt(Binary64::from_integer(NO_CAP_SENTINEL_USD)) {
                Some(cap)
            } else {
                None
            },
            None => None,
        },
        None => None,
    }
}

fn spent(cents: Binary64) -> (r: Binary64)
    ensures
        r == spent_usd(cents),
{
    cents.over(Binary64::from_integer(100)).max(Binary64::from_integer(0))
}

fn notes(subscription: &Option<SubscriptionSummary>) -> (r: Vec<String>)
    ensures
        texts(r@) == notes_of(*subscription),
{
    let mut r: Vec<String> = Vec::new();
    if let Some(s) = subscription {
        if let Some(has) = s.has_payment_method {
            if has {
                r.push("payment method on file".to_string());
            }
        }
        if let Some(until) = s.access_until {
            if until > 0 {
                if let Some(date) = date_of(until) {
                    r.push(concat2("access until ", date.as_str()));
                }
            }
        }
    }
    proof {
        assert(texts(r@) =~= notes_of(*subscription));
    }
    r
}

/// The snapshot of a workspace.
pub fn workspace_snapshot(
    total_usage_cents: Binary64,
    subscription: &Option<SubscriptionSummary>,
    now: Timestamp,
) -> (r: UsageSnapshot)
    ensures
        r@ == workspace_usage(total_usage_cents, *subscription, now),
{
    let usd = spent(total_usage_cents);
    let usd_text = usd.to_fixed(2);
    let primary = match cap_for(subscription) {
        Some(cap) => {
            let zero = Binary64::from_integer(0);
            let hundred = Binary64::from_integer(100);
            proof {
                lemma_integer_order(0, 100);
            }
            let cap_text = cap.to_fixed(2);
            let description = concat4(usd_text.as_str(), " of ", cap_text.as_str(), " USD workspace usage");
            RateWindow::with_details(
                usd.over(cap).times(hundred).clamp(zero, hundred),
                None,
                None,
                Some(description),
            )
        },
        None => RateWindow::informational(concat2(usd_text.as_str(), " USD workspace usage")),
    };
    let notes = notes(subscription);
    proof {
        assert(texts(notes@).len() == notes@.len());
    }
    let usage = UsageSnapshot::new(primary, now);
    if notes.len() == 0 {
        usage
    } else {
        usage.with_login_method(join(&notes, " · "))
    }
}

/// The cost of a workspace; spending and wallet stay separate.
pub open spec fn workspace_cost_of(
    cents: Binary64,
    subscription: Option<SubscriptionSummary>,
    balance: Option<Binary64>,
    now: Timestamp,
) -> CostModel {
    CostModel {
        currency_symbol: Some("$"@),
        limit: real_cap(subscription),
        balance,
        ..new_cost(spent_usd(cents), "USD"@, "Workspace"@, now)
    }
}

pub fn workspace_cost(
    total_usage_cents: Binary64,
    subscription: &Option<SubscriptionSummary>,
    wallet_balance: Option<Binary64>,
    now: Timestamp,
) -> (r: CostSnapshot)
    ensures
        r@ == workspace_cost_of(total_usage_cents, *subscription, wallet_balance, now),
{
    let cost = CostSnapshot::new(spent(total_usage_cents), "USD", "Workspace", now).with_currency_symbol("$");
    let cost = match cap_for(subscription) {
        Some(cap) => cost.with_limit(cap),
        None => cost,
    };
    match wallet_balance {
        Some(balance) => cost.with_balance(balance),
        None => cost,
    }
}

/// The result of a wallet alone.
pub open spec fn wallet_result_of(balance: Binary64, now: Timestamp) -> FetchModel {
    FetchModel {
        usage: new_usage(informational_window(fixed_text(balance, 2) + " USD wallet balance"@), now),
        source_label: "web"@,
        cost: Some(
            CostModel {
                currency_symbol: Some("$"@),
                balance: Some(balance),
                ..new_cost(of_integer(0), "USD"@, "Wallet"@, now)
            },
        ),
    }
}

pub fn wallet_snapshot(balance_usd: Binary64, now: Timestamp) -> (r: UsageSnapshot)
    ensures
        r@ == wallet_result_of(balance_usd, now).usage,
{
    let text = balance_usd.to_fixed(2);
    UsageSnapshot::new(RateWindow::informational(concat2(text.as_str(), " USD wallet balance")), now)
}

pub fn wallet_cost(balance_usd: Binary64, now: Timestamp) -> (r: CostSnapshot)
    ensures
        Some(r@) == wallet_result_of(balance_usd, now).cost,
{
    CostSnapshot::new(Binary64::from_integer(0), "USD", "Wallet", now).with_currency_symbol("$").with_balance(
        balance_usd,
    )
}

/// The result of a wallet alone.
pub fn wallet_result(balance_usd: Binary64, now: Timestamp) -> (r: ProviderFetchResult)
    ensures
        r@ == wallet_result_of(balance_usd, now),
{
    ProviderFetchResult::new(wallet_snapshot(balance_usd, now), "web").with_cost(wallet_cost(balance_usd, now))
}

/// The two summaries of a workspace; the subscription may be missing.
pub struct Summaries {
    pub usage: UsageResponse,
    pub subscription: Option<SubscriptionSummary>,
}

/// What two answers give together.
pub open spec fn are_summaries(
    r: Result<Summaries, ProviderError>,
    usage: Result<UsageResponse, ProviderError>,
    subscription: Result<SubscriptionSummary, ProviderError>,
) -> bool {
    match usage {
        Ok(usage) => r is Ok && r->Ok_0.usage == usage && r->Ok_0.subscription == (match subscription {
            Ok(s) => Some(s),
            Err(_) => None,
        }),
        Err(error) => r is Err && r->Err_0@ == error@,
    }
}

/// The summaries that two answers give: without spending there is none, while a
/// subscription that cannot be read only leaves the limits out.
pub fn summaries_from(
    usage: Result<UsageResponse, ProviderError>,
    subscription: Result<SubscriptionSummary, ProviderError>,
) -> (r: Result<Summaries, ProviderError>)
    ensures
        are_summaries(r, usage, subscription),
{
    match usage {
        Ok(usage) => {
            let subscription = match subscription {
                Ok(s) => Some(s),
                Err(_) => None,
            };
            Ok(Summaries { usage, subscription })
        },
        Err(error) => Err(error),
    }
}

pub open spec fn total_of(usage: UsageResponse) -> Binary64 {
    match usage.total_usage {
        Some(total) => total,
        None => of_integer(0),
    }
}

/// The result of the summaries, with the balance of a wallet where it is known.
pub open spec fn summary_result_of(
    summaries: Summaries,
    balance: Option<Binary64>,
    now: Timestamp,
) -> FetchModel {
    let total = total_of(summaries.usage);
    FetchModel {
        usage: workspace_usage(total, summaries.subscription, now),
        source_label: if balance is Some {
            "api+web"@
        } else {
            "api"@
        },
        cost: Some(workspace_cost_of(total, summaries.subscription, balance, now)),
    }
}

/// The result of the summaries.
pub fn summary_result(summaries: &Summaries, balance: Option<Binary64>, now: Timestamp) -> (r: ProviderFetchResult)
    ensures
        r@ == summary_result_of(*summaries, balance, now),
{
    let total = match summaries.usage.total_usage {
        Some(total) => total,
        None => Binary64::from_integer(0),
    };
    let usage = workspace_snapshot(total, &summaries.subscription, now);
    let cost = workspace_cost(total, &summaries.subscription, balance, now);
    let source = if balance.is_some() {
        "api+web"
    } else {
        "api"
    };
    ProviderFetchResult::new(usage, source).with_cost(cost)
}

/// The balance that a look at the wallet gave.
pub open spec fn known_balance(wallet: Option<Result<Binary64, ProviderError>>) -> Option<Binary64> {
    match wallet {
        Some(Ok(balance)) => Some(balance),
        _ => None,
    }
}

/// The automatic result: the summaries with the wallet as an addition, else the
/// wallet alone, else the error of the summaries.
pub open spec fn merged(
    api: Result<Summaries, ProviderError>,
    wallet: Option<Result<Binary64, ProviderError>>,
    now: Timestamp,
) -> Result<FetchModel, ErrorModel> {
    match (api, known_balance(wallet)) {
        (Ok(summaries), balance) => Ok(summary_result_of(summaries, balance, now)),
        (Err(_), Some(balance)) => Ok(wallet_result_of(balance, now)),
        (Err(error), None) => Err(error@),
    }
}

pub fn merge_auto_results(
    api_result: Result<Summaries, ProviderError>,
    wallet_result_in: Option<Result<Binary64, ProviderError>>,
    now: Timestamp,
) -> (r: Result<ProviderFetchResult, ProviderError>)
    ensures
        fetch_view(r) == merged(api_result, wallet_result_in, now),
{
    let balance = match wallet_result_in {
        Some(Ok(balance)) => Some(balance),
        _ => None,
    };
    match api_result {
        Ok(summaries) => Ok(summary_result(&summaries, balance, now)),
        Err(error) => match balance {
            Some(balance) => Ok(wallet_result(balance, now)),
            None => Err(error),
        },
    }
}

/// What a fetch looks at.
#[derive(Clone, Copy, PartialEq, Eq, Structural, Debug)]
pub struct FetchPlan {
    pub summaries: bool,
    pub wallet: bool,
}

pub open spec fn plan_of(mode: SourceMode, include_credits: bool) -> Result<FetchPlan, ErrorModel> {
    match mode {
        SourceMode::Auto => Ok(FetchPlan { summaries: true, wallet: include_credits }),
        SourceMode::OAuth => Ok(FetchPlan { summaries: true, wallet: false }),
        SourceMode::Web => Ok(FetchPlan { summaries: false, wallet: true }),
        SourceMode::Cli => Err(ErrorModel::UnsupportedSource(mode)),
    }
}

/// What a fetch in a mode looks at.
pub fn fetch_plan(mode: SourceMode, include_credits: bool) -> (r: Result<FetchPlan, ProviderError>)
    ensures
        match plan_of(mode, include_credits) {
            Ok(plan) => r is Ok && r->Ok_0 == plan,
            Err(error) => r is Err && r->Err_0@ == error,
        },
{
    match mode {
        SourceMode::Auto => Ok(FetchPlan { summaries: true, wallet: include_credits }),
        SourceMode::OAuth => Ok(FetchPlan { summaries: true, wallet: false }),
        SourceMode::Web => Ok(FetchPlan { summaries: false, wallet: true }),
        SourceMode::Cli => Err(ProviderError::UnsupportedSource(mode)),
    }
}

/// A missing browser session never turns a successful summary into an error, nor
/// does it change what is said of the spending.
pub proof fn law_the_wallet_is_only_an_addition(
    summaries: Summaries,
    wallet: Option<Result<Binary64, ProviderError>>,
    now: Timestamp,
)
    ensures
        merged(Ok(summaries), wallet, now) is Ok,
        merged(Ok(summaries), wallet, now)->Ok_0.usage == merged(Ok(summaries), None, now)->Ok_0.usage,
        merged(Ok(summaries), wallet, now)->Ok_0.cost->0.used == merged(Ok(summaries), None, now)->Ok_0.cost->0.used,
        merged(Ok(summaries), wallet, now)->Ok_0.cost->0.balance == known_balance(wallet),
{
}

/// A percentage and a limit are shown only where a real cap is known, and always
/// both or none.
pub proof fn law_percentages_need_a_cap(
    cents: Binary64,
    subscription: Option<SubscriptionSummary>,
    balance: Option<Binary64>,
    now: Timestamp,
)
    ensures
        workspace_usage(cents, subscription, now).primary.is_informational == (real_cap(subscription) is None),
        workspace_cost_of(cents, subscription, balance, now).limit == real_cap(subscription),
{
}

/// A percentage that is shown lies between 0 and 100.
pub proof fn law_percentages_stay_in_bounds(
    cents: Binary64,
    subscription: Option<SubscriptionSummary>,
    now: Timestamp,
)
    requires
        cents.finite(),
        real_cap(subscription) is Some,
    ensures
        is_percentage(workspace_usage(cents, subscription, now).primary.used_percent),
{
    lemma_integer_order(0, 100);
    lemma_integer_exact(NO_CAP_SENTINEL_USD as nat);
    law_quotients_are_nearest(cents, of_integer(100));
    lemma_clamped_share(spent_usd(cents), real_cap(subscription)->0);
}

/// Spending is told in dollars, a hundred of its units each, and never below zero.
pub proof fn law_spending_is_told_in_dollars(cents: Binary64)
    ensures
        of_integer(0).at_most(quotient_of(cents, of_integer(100))) ==> spent_usd(cents) == quotient_of(
            cents,
            of_integer(100),
        ),
        quotient_of(cents, of_integer(100)).less(of_integer(0)) ==> spent_usd(cents) == of_integer(0),
{
}

/// A cap counts below a million dollars; from there on, and without a limit, there is none.
pub proof fn law_huge_caps_are_none(subscription: SubscriptionSummary)
    ensures
        real_cap(None) is None,
        cap_of(subscription) is None ==> real_cap(Some(subscription)) is None,
        cap_of(subscription) is Some && cap_of(subscription)->0.less(of_integer(1_000_000)) ==> real_cap(
            Some(subscription),
        ) == cap_of(subscription),
        cap_of(subscription) is Some && !cap_of(subscription)->0.less(of_integer(1_000_000)) ==> real_cap(
            Some(subscription),
        ) is None,
{
}

/// A workspace shows its spending: against its cap, in percent and in words, where there is
/// one, and alone where there is none.
pub proof fn law_workspaces_show_their_spending(
    cents: Binary64,
    subscription: Option<SubscriptionSummary>,
    balance: Option<Binary64>,
    now: Timestamp,
)
    ensures
        ({
            let usage = workspace_usage(cents, subscription, now);
            let cost = workspace_cost_of(cents, subscription, balance, now);
            let spent = spent_usd(cents);
            let cap = real_cap(subscription);
            let share = product_of(quotient_of(spent, cap->0), of_integer(100));
            &&& cost.used == spent && cost.limit == cap && cost.balance == balance
            &&& cost.currency_code == "USD"@ && cost.currency_symbol == Some("$"@) && cost.period == "Workspace"@
            &&& cost.updated_at == now && cost.resets_at is None && usage.updated_at == now
            &&& usage.secondary is None && usage.extra_rate_windows.len() == 0
            &&& usage.primary.resets_at is None && usage.primary.window_minutes is None
            &&& cap is Some ==> {
                &&& !usage.primary.is_informational
                &&& of_integer(0).at_most(share) && share.at_most(of_integer(100)) ==> usage.primary.used_percent
                    == share
                &&& of_integer(100).less(share) ==> usage.primary.used_percent == of_integer(100)
                &&& usage.primary.reset_description == Some(
                    fixed_text(spent, 2) + " of "@ + fixed_text(cap->0, 2) + " USD workspace usage"@,
                )
            }
            &&& cap is None ==> usage.primary.is_informational && usage.primary.reset_description == Some(
                fixed_text(spent, 2) + " USD workspace usage"@,
            )
        }),
{
    lemma_integer_order(0, 100);
}

/// What is noted of a subscription: a payment method where there is one, then when access ends
/// where that is known.
pub proof fn law_subscriptions_are_noted(cents: Binary64, s: SubscriptionSummary, now: Timestamp)
    ensures
        ({
            let noted = workspace_usage(cents, Some(s), now).login_method;
            let paid = s.has_payment_method == Some(true);
            let ends = s.access_until is Some && s.access_until->0 > 0 && unix_instant(s.access_until->0) is Some;
            let end = "access until "@ + date_text(s.access_until->0);
            &&& !paid && !ends ==> noted is None
            &&& paid && !ends ==> noted == Some("payment method on file"@)
            &&& !paid && ends ==> noted == Some(end)
            &&& paid && ends ==> noted == Some("payment method on file"@ + " · "@ + end)
            &&& workspace_usage(cents, None, now).login_method is None
        }),
{
    let end = "access until "@ + date_text(s.access_until->0);
    let both = seq!["payment method on file"@].push(end);
    assert(both.drop_last() =~= seq!["payment method on file"@]);
    assert(both.last() == end);
    assert(Seq::<Seq<char>>::empty().push(end) =~= seq![end]);
    assert(joined(seq!["payment method on file"@], " · "@) == "payment method on file"@);
    assert(joined(seq![end], " · "@) == end);
    assert(joined(both, " · "@) == "payment method on file"@ + " · "@ + end);
}

/// A wallet alone shows its balance and nothing spent.
pub proof fn law_wallets_show_their_balance(balance: Binary64, now: Timestamp)
    ensures
        ({
            let r = wallet_result_of(balance, now);
            &&& r.source_label == "web"@ && r.usage.updated_at == now
            &&& r.usage.primary.is_informational
            &&& r.usage.primary.reset_description == Some(fixed_text(balance, 2) + " USD wallet balance"@)
            &&& r.cost is Some && r.cost->0.balance == Some(balance) && r.cost->0.used == of_integer(0)
            &&& r.cost->0.limit is None && r.cost->0.currency_code == "USD"@ && r.cost->0.currency_symbol == Some("$"@)
            &&& r.cost->0.period == "Wallet"@
        }),
{
}

/// Summaries give the workspace with the wallet beside it. Where they fail, the wallet stands
/// alone; and where both fail, the error of the summaries is reported.
pub proof fn law_summaries_come_before_the_wallet(
    summaries: Summaries,
    error: ProviderError,
    wallet: Option<Result<Binary64, ProviderError>>,
    balance: Binary64,
    now: Timestamp,
)
    ensures
        ({
            let api = merged(Ok(summaries), wallet, now)->Ok_0;
            let total = total_of(summaries.usage);
            &&& merged(Ok(summaries), wallet, now) is Ok
            &&& api.usage == workspace_usage(total, summaries.subscription, now)
            &&& api.cost == Some(workspace_cost_of(total, summaries.subscription, known_balance(wallet), now))
            &&& known_balance(wallet) is Some ==> api.source_label == "api+web"@
            &&& known_balance(wallet) is None ==> api.source_label == "api"@
            &&& merged(Err(error), Some(Ok(balance)), now) == Ok::<FetchModel, ErrorModel>(
                wallet_result_of(balance, now),
            )
            &&& known_balance(wallet) is None ==> merged(Err(error), wallet, now) == Err::<FetchModel, ErrorModel>(
                error@,
            )
            &&& known_balance(Some(Ok(balance))) == Some(balance)
            &&& known_balance(None) is None && known_balance(Some(Err(error))) is None
            &&& summaries.usage.total_usage is Some ==> total == summaries.usage.total_usage->0
        }),
{
}

/// Automatic fetches look at the summaries, and at the wallet where credits are asked for; the
/// API mode looks at the summaries alone, and the browser mode at the wallet alone.
pub proof fn law_modes_look_at_their_sources(include_credits: bool)
    ensures
        plan_of(SourceMode::Auto, include_credits) == Ok::<FetchPlan, ErrorModel>(
            FetchPlan { summaries: true, wallet: include_credits },
        ),
        plan_of(SourceMode::OAuth, include_credits) == Ok::<FetchPlan, ErrorModel>(
            FetchPlan { summaries: true, wallet: false },
        ),
        plan_of(SourceMode::Web, include_credits) == Ok::<FetchPlan, ErrorModel>(
            FetchPlan { summaries: false, wallet: true },
        ),
        plan_of(SourceMode::Cli, include_credits) is Err,
{
}

/// Summaries hold the spending that was read, and the subscription wherever it was read; only
/// the lack of the spending is an error.
pub proof fn law_summaries_hold_what_was_read(
    r: Result<Summaries, ProviderError>,
    usage: Result<UsageResponse, ProviderError>,
    subscription: Result<SubscriptionSummary, ProviderError>,
)
    requires
        are_summaries(r, usage, subscription),
    ensures
        r is Ok <==> usage is Ok,
        usage is Ok ==> r->Ok_0.usage == usage->Ok_0,
        usage is Err ==> r->Err_0@ == usage->Err_0@,
        usage is Ok && subscription is Ok ==> r->Ok_0.subscription == Some(subscription->Ok_0),
        usage is Ok && subscription is Err ==> r->Ok_0.subscription is None,
{
}

/// The result of summaries shows the spending that was read, and none where nothing was read; its
/// source says whether a wallet had a part in it.
pub proof fn law_results_show_their_summaries(summaries: Summaries, balance: Option<Binary64>, now: Timestamp)
    ensures
        ({
            let r = summary_result_of(summaries, balance, now);
            let total = if summaries.usage.total_usage is Some {
                summaries.usage.total_usage->0
            } else {
                of_integer(0)
            };
            &&& r.usage == workspace_usage(total, summaries.subscription, now)
            &&& r.cost == Some(workspace_cost_of(total, summaries.subscription, balance, now))
            &&& balance is Some ==> r.source_label == "api+web"@
            &&& balance is None ==> r.source_label == "api"@
        }),
{
}

} // verus!
