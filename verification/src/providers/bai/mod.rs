//! b.ai: purchased, bonus and funded credits.
pub mod browser;
pub mod script;
pub mod web;

use crate::binary64::arith::{
    lemma_clamped_difference, lemma_excess_is_finite, lemma_part_of_whole, lemma_same_difference,
};
use crate::binary64::format::{fixed_text, fraction_of};
use crate::binary64::{
    clamped, difference_of, larger_of, of_integer, of_ratio, product_of, quotient_of, sum_of, Binary64,
};
use crate::bridge::is_percentage;
use crate::provider::{describes, ProviderId, ProviderMetadata, SourceMode};
use crate::providers::cache::{bridge_source, check_bridge_source, slack, slack_value};
use crate::snapshot::{
    check_view, informational_window, named_window, new_cost, new_usage, CostModel, CostSnapshot,
    ErrorModel, FetchModel, ProviderError, ProviderFetchResult, RateWindow, UsageModel,
    UsageSnapshot, WindowModel,
};
use crate::text::{concat2, concat3, concat4};
use crate::timestamp::Timestamp;
use vstd::prelude::*;

verus! {

pub const DASHBOARD_URL: &'static str = "https://chat.b.ai/usage";

/// The credit totals of an account.
#[derive(Clone, Copy, PartialEq, Eq, Structural, Debug)]
pub struct CreditValues {
    pub balance: Binary64,
    pub bonus_remaining: Binary64,
    pub monthly_spent: Binary64,
    pub purchased_total: Binary64,
    pub bonus_total: Binary64,
    pub funded_total: Binary64,
}

pub struct BaiProvider {
    pub metadata: ProviderMetadata,
}

/// The identity under which the provider is known.
pub open spec fn own_id() -> ProviderId {
    ProviderId::Bai
}

/// The sources that can be asked for.
pub open spec fn own_sources() -> Seq<SourceMode> {
    seq![SourceMode::Auto, SourceMode::Web]
}

/// How b.ai presents itself.
pub open spec fn is_described(m: ProviderMetadata) -> bool {
    &&& describes(
        m,
        ProviderId::Bai,
        "b.ai"@,
        "Purchased credits"@,
        "Funded credits"@,
        true,
        "https://chat.b.ai/usage"@,
    )
    &&& m.status_page_url is None
}

impl BaiProvider {
    pub fn new() -> (r: BaiProvider)
        ensures
            is_described(r.metadata),
    {
        BaiProvider {
            metadata: ProviderMetadata {
                id: ProviderId::Bai,
                display_name: "b.ai",
                session_label: "Purchased credits",
                weekly_label: "Funded credits",
                supports_opus: false,
                supports_credits: true,
                default_enabled: false,
                is_primary: false,
                dashboard_url: Some(DASHBOARD_URL),
                status_page_url: None,
            },
        }
    }

    pub fn id(&self) -> (r: ProviderId)
        ensures
            r == own_id(),
    {
        ProviderId::Bai
    }

    pub fn metadata(&self) -> (r: &ProviderMetadata)
        ensures
            *r == self.metadata,
    {
        &self.metadata
    }

    pub fn available_sources(&self) -> (r: Vec<SourceMode>)
        ensures
            r@ == own_sources(),
    {
        vec![SourceMode::Auto, SourceMode::Web]
    }

    pub fn supports_web(&self) -> (r: bool)
        ensures
            r,
            r == own_sources().contains(SourceMode::Web),
    {
        proof {
            assert(own_sources()[1] == SourceMode::Web);
        }
        true
    }

    /// Refuses a source other than the signed-in browser.
    pub fn check_source(&self, mode: SourceMode) -> (r: Result<(), ProviderError>)
        ensures
            check_view(r) == bridge_source(mode),
    {
        check_bridge_source(mode)
    }
}

impl Default for BaiProvider {
    fn default() -> (r: BaiProvider)
        ensures
            is_described(r.metadata),
    {
        BaiProvider::new()
    }
}

/// An amount in a unit: without decimals where it is whole.
pub open spec fn in_unit(value: Binary64, unit: int) -> Seq<char> {
    let amount = quotient_of(value, of_integer(unit));
    if fraction_of(amount).absolute().less(slack()) {
        fixed_text(amount, 0)
    } else {
        fixed_text(amount, 2)
    }
}

/// A number of points in millions, in thousands or in full.
pub open spec fn points_text(value: Binary64) -> Seq<char> {
    if of_integer(1_000_000).at_most(value) {
        in_unit(value, 1_000_000) + "M"@
    } else if of_integer(1_000).at_most(value) {
        in_unit(value, 1_000) + "K"@
    } else {
        fixed_text(value, 0)
    }
}

fn format_in_unit(value: Binary64, unit: i64) -> (r: String)
    ensures
        r@ == in_unit(value, unit as int),
{
    let amount = value.over(Binary64::from_integer(unit));
    if amount.fract().abs().lt(slack_value()) {
        amount.to_fixed(0)
    } else {
        amount.to_fixed(2)
    }
}

pub fn format_points(value: Binary64) -> (r: String)
    ensures
        r@ == points_text(value),
{
    if Binary64::from_integer(1_000_000).le(value) {
        let amount = format_in_unit(value, 1_000_000);
        concat2(amount.as_str(), "M")
    } else if Binary64::from_integer(1_000).le(value) {
        let amount = format_in_unit(value, 1_000);
        concat2(amount.as_str(), "K")
    } else {
        value.to_fixed(0)
    }
}

/// A finite number that is not negative.
pub open spec fn is_amount(x: Binary64) -> bool {
    x.finite() && !x.less(of_integer(0))
}

/// What is wrong with some totals, if anything is.
pub open spec fn totals_error(v: CreditValues) -> Option<Seq<char>> {
    let tail = " was not a finite non-negative number"@;
    if !is_amount(v.balance) {
        Some("b.ai balance"@ + tail)
    } else if !is_amount(v.bonus_remaining) {
        Some("b.ai bonus remaining"@ + tail)
    } else if !is_amount(v.monthly_spent) {
        Some("b.ai monthly spent"@ + tail)
    } else if !is_amount(v.purchased_total) {
        Some("b.ai purchased total"@ + tail)
    } else if !is_amount(v.bonus_total) {
        Some("b.ai bonus total"@ + tail)
    } else if !is_amount(v.funded_total) {
        Some("b.ai funded total"@ + tail)
    } else if sum_of(v.balance, slack()).less(v.bonus_remaining) {
        Some("b.ai bonus balance exceeded total balance"@)
    } else if of_ratio(1, 2).less(
        difference_of(v.funded_total, sum_of(v.purchased_total, v.bonus_total)).absolute(),
    ) {
        Some("b.ai funded total did not match purchase history"@)
    } else {
        None
    }
}

fn check_amount(x: Binary64) -> (r: bool)
    ensures
        r == is_amount(x),
{
    x.is_finite() && !x.lt(Binary64::from_integer(0))
}

fn amount_error(label: &str) -> (r: ProviderError)
    ensures
        r@ == ErrorModel::Parse(label@ + " was not a finite non-negative number"@),
{
    ProviderError::Parse(concat2(label, " was not a finite non-negative number"))
}

pub fn validate(v: CreditValues) -> (r: Result<CreditValues, ProviderError>)
    ensures
        match totals_error(v) {
            None => r is Ok && r->Ok_0 == v,
            Some(error) => r is Err && r->Err_0@ == ErrorModel::Parse(error),
        },
{
    if !check_amount(v.balance) {
        return Err(amount_error("b.ai balance"));
    }
    if !check_amount(v.bonus_remaining) {
        return Err(amount_error("b.ai bonus remaining"));
    }
    if !check_amount(v.monthly_spent) {
        return Err(amount_error("b.ai monthly spent"));
    }
    if !check_amount(v.purchased_total) {
        return Err(amount_error("b.ai purchased total"));
    }
    if !check_amount(v.bonus_total) {
        return Err(amount_error("b.ai bonus total"));
    }
    if !check_amount(v.funded_total) {
        return Err(amount_error("b.ai funded total"));
    }
    if v.balance.plus(slack_value()).lt(v.bonus_remaining) {
        return Err(ProviderError::parse("b.ai bonus balance exceeded total balance"));
    }
    let expected = v.purchased_total.plus(v.bonus_total);
    if Binary64::from_ratio(1, 2).lt(v.funded_total.minus(expected).abs()) {
        return Err(ProviderError::parse("b.ai funded total did not match purchase history"));
    }
    Ok(v)
}

/// The percentage of `total` that is gone when `left` is left.
pub open spec fn used_percent(total: Binary64, left: Binary64) -> Binary64 {
    product_of(
        quotient_of(clamped(difference_of(total, left), of_integer(0), total), total),
        of_integer(100),
    )
}

/// The total is known and covers what is left.
pub open spec fn covers(total: Binary64, left: Binary64) -> bool {
    of_integer(0).less(total) && left.at_most(sum_of(total, slack()))
}

/// Purchased credits that are left; bonus credits do not count.
pub open spec fn purchased_left(v: CreditValues) -> Binary64 {
    larger_of(difference_of(v.balance, v.bonus_remaining), of_integer(0))
}

pub open spec fn described_window(percent: Binary64, description: Seq<char>) -> WindowModel {
    WindowModel {
        used_percent: percent,
        window_minutes: None,
        resets_at: None,
        reset_description: Some(description),
        is_informational: false,
    }
}

/// The lane of purchased credits: a percentage where the purchases are known to
/// cover what is left, else the bare balance.
pub open spec fn purchased_window(v: CreditValues) -> WindowModel {
    let left = purchased_left(v);
    if covers(v.purchased_total, left) {
        described_window(
            used_percent(v.purchased_total, left),
            points_text(left) + " purchased remaining of "@ + points_text(v.purchased_total),
        )
    } else {
        informational_window(points_text(left) + " purchased-credit balance"@)
    }
}

/// The usage that totals give.
pub open spec fn usage_of(v: CreditValues, now: Timestamp) -> UsageModel {
    let base = UsageModel {
        primary_label: Some("Purchased credits"@),
        extra_rate_windows: seq![
            named_window(
                "bonus"@,
                "Bonus balance"@,
                informational_window(points_text(v.bonus_remaining) + " bonus remaining"@),
            ),
            named_window(
                "funding"@,
                "Funding"@,
                informational_window(
                    points_text(v.purchased_total) + " purchased + "@ + points_text(v.bonus_total) + " bonus"@,
                ),
            ),
            named_window(
                "monthly"@,
                "Used this month"@,
                informational_window(points_text(v.monthly_spent) + " points used this month"@),
            ),
        ],
        ..new_usage(purchased_window(v), now)
    };
    if covers(v.funded_total, v.balance) {
        UsageModel {
            secondary: Some(
                described_window(
                    used_percent(v.funded_total, v.balance),
                    points_text(v.balance) + " remaining of "@ + points_text(v.funded_total) + " total"@,
                ),
            ),
            secondary_label: Some("Funded credits"@),
            ..base
        }
    } else {
        base
    }
}

/// The cost that totals give.
pub open spec fn cost_of(v: CreditValues, now: Timestamp) -> CostModel {
    let used = if v.balance.at_most(sum_of(v.funded_total, slack())) {
        larger_of(difference_of(v.funded_total, v.balance), of_integer(0))
    } else {
        of_integer(0)
    };
    CostModel {
        balance: Some(v.balance),
        limit: if covers(v.funded_total, v.balance) {
            Some(v.funded_total)
        } else {
            None
        },
        ..new_cost(used, "points"@, "Funded credits"@, now)
    }
}

fn window_for(total: Binary64, left: Binary64, description: String) -> (r: RateWindow)
    requires
        of_integer(0).less(total),
    ensures
        r@ == described_window(used_percent(total, left), description@),
{
    let zero = Binary64::from_integer(0);
    let used = total.minus(left).clamp(zero, total);
    RateWindow::with_details(used.over(total).times(Binary64::from_integer(100)), None, None, Some(description))
}

fn check_covers(total: Binary64, left: Binary64) -> (r: bool)
    ensures
        r == covers(total, left),
{
    Binary64::from_integer(0).lt(total) && left.le(total.plus(slack_value()))
}

/// What valid totals give.
pub open spec fn result_model(v: CreditValues, now: Timestamp) -> FetchModel {
    FetchModel { usage: usage_of(v, now), source_label: "browser-cdp"@, cost: Some(cost_of(v, now)) }
}

/// The result that credit totals give.
pub fn result_from_values(v: CreditValues, now: Timestamp) -> (r: Result<ProviderFetchResult, ProviderError>)
    ensures
        match totals_error(v) {
            None => r is Ok && r->Ok_0@ == result_model(v, now),
            Some(error) => r is Err && r->Err_0@ == ErrorModel::Parse(error),
        },
{
    if let Err(error) = validate(v) {
        return Err(error);
    }
    let zero = Binary64::from_integer(0);
    let left = v.balance.minus(v.bonus_remaining).max(zero);
    let left_text = format_points(left);
    let primary = if check_covers(v.purchased_total, left) {
        let total_text = format_points(v.purchased_total);
        let description = concat3(left_text.as_str(), " purchased remaining of ", total_text.as_str());
        window_for(v.purchased_total, left, description)
    } else {
        RateWindow::informational(concat2(left_text.as_str(), " purchased-credit balance"))
    };
    let funded = check_covers(v.funded_total, v.balance);
    let mut usage = UsageSnapshot::new(primary, now).with_primary_label("Purchased credits".to_string());
    if funded {
        let balance_text = format_points(v.balance);
        let total_text = format_points(v.funded_total);
        let description = concat4(balance_text.as_str(), " remaining of ", total_text.as_str(), " total");
        usage = usage.with_secondary(window_for(v.funded_total, v.balance, description)).with_secondary_label(
            "Funded credits".to_string(),
        );
    }
    let bonus_left = format_points(v.bonus_remaining);
    let purchased = format_points(v.purchased_total);
    let bonus = format_points(v.bonus_total);
    let spent = format_points(v.monthly_spent);
    let usage = usage.with_extra_rate_window(
        "bonus",
        "Bonus balance",
        RateWindow::informational(concat2(bonus_left.as_str(), " bonus remaining")),
    ).with_extra_rate_window(
        "funding",
        "Funding",
        RateWindow::informational(concat4(purchased.as_str(), " purchased + ", bonus.as_str(), " bonus")),
    ).with_extra_rate_window(
        "monthly",
        "Used this month",
        RateWindow::informational(concat2(spent.as_str(), " points used this month")),
    );
    proof {
        assert(usage@.extra_rate_windows =~= usage_of(v, now).extra_rate_windows);
    }
    let used = if v.balance.le(v.funded_total.plus(slack_value())) {
        v.funded_total.minus(v.balance).max(zero)
    } else {
        zero
    };
    let mut cost = CostSnapshot::new(used, "points", "Funded credits", now).with_balance(v.balance);
    if funded {
        cost = cost.with_limit(v.funded_total);
    }
    Ok(ProviderFetchResult::new(usage, "browser-cdp").with_cost(cost))
}

/// Without purchases there is no percentage of them, and without funding neither a
/// percentage nor a limit.
pub proof fn law_percentages_need_funding(v: CreditValues, now: Timestamp)
    ensures
        !of_integer(0).less(v.purchased_total) ==> usage_of(v, now).primary.is_informational,
        !of_integer(0).less(v.funded_total) ==> usage_of(v, now).secondary is None && cost_of(v, now).limit is None,
{
}

/// As long as balance and bonus change by the same amount, the lane of purchased credits does
/// not move.
pub proof fn law_bonus_credits_do_not_count_as_purchased(v: CreditValues, w: CreditValues)
    requires
        v.balance.finite() && !v.balance.negative() && v.bonus_remaining.finite(),
        w.balance.finite() && !w.balance.negative() && w.bonus_remaining.finite(),
        v.balance.value() - w.balance.value() == v.bonus_remaining.value() - w.bonus_remaining.value(),
        v.purchased_total == w.purchased_total,
    ensures
        purchased_window(v) == purchased_window(w),
{
    lemma_same_difference(v.balance, v.bonus_remaining, w.balance, w.bonus_remaining);
}

/// Every percentage that valid totals show lies between 0 and 100.
pub proof fn law_percentages_stay_in_bounds(v: CreditValues, now: Timestamp)
    requires
        totals_error(v) is None,
    ensures
        !usage_of(v, now).primary.is_informational ==> is_percentage(usage_of(v, now).primary.used_percent),
        usage_of(v, now).secondary is Some ==> is_percentage(usage_of(v, now).secondary->0.used_percent),
{
    lemma_excess_is_finite(v.balance, v.bonus_remaining);
    let left = purchased_left(v);
    if covers(v.purchased_total, left) {
        lemma_clamped_difference(v.purchased_total, left, v.purchased_total);
        lemma_part_of_whole(
            clamped(difference_of(v.purchased_total, left), of_integer(0), v.purchased_total),
            v.purchased_total,
        );
    }
    if covers(v.funded_total, v.balance) {
        lemma_clamped_difference(v.funded_total, v.balance, v.funded_total);
        lemma_part_of_whole(
            clamped(difference_of(v.funded_total, v.balance), of_integer(0), v.funded_total),
            v.funded_total,
        );
    }
}

/// What is left of the purchased credits is the balance without the bonus, and never less than
/// nothing.
pub proof fn law_purchased_credits_are_the_balance_without_the_bonus(v: CreditValues)
    ensures
        !difference_of(v.balance, v.bonus_remaining).less(of_integer(0)) && !difference_of(
            v.balance,
            v.bonus_remaining,
        ).nan() ==> purchased_left(v) == difference_of(v.balance, v.bonus_remaining),
        difference_of(v.balance, v.bonus_remaining).less(of_integer(0)) ==> purchased_left(v) == of_integer(0),
{
}

/// The lanes of valid totals. The primary lane compares what is left of the purchases with all
/// purchases, the secondary one the balance with all funding, and each says so in words; bonus,
/// funding and the month stand beside them.
pub proof fn law_lanes_compare_like_with_like(v: CreditValues, now: Timestamp)
    ensures
        ({
            let usage = usage_of(v, now);
            let left = purchased_left(v);
            &&& usage.updated_at == now
            &&& usage.primary_label == Some("Purchased credits"@)
            &&& of_integer(0).less(v.purchased_total) && left.at_most(v.purchased_total)
                && !sum_of(v.purchased_total, slack()).less(v.purchased_total) && !sum_of(
                v.purchased_total,
                slack(),
            ).nan() ==> {
                &&& !usage.primary.is_informational
                &&& usage.primary.used_percent == product_of(
                    quotient_of(
                        clamped(difference_of(v.purchased_total, left), of_integer(0), v.purchased_total),
                        v.purchased_total,
                    ),
                    of_integer(100),
                )
                &&& usage.primary.reset_description == Some(
                    points_text(left) + " purchased remaining of "@ + points_text(v.purchased_total),
                )
            }
            &&& usage.primary.is_informational ==> usage.primary.reset_description == Some(
                points_text(left) + " purchased-credit balance"@,
            )
            &&& usage.secondary is Some ==> {
                &&& usage.secondary_label == Some("Funded credits"@)
                &&& !usage.secondary->0.is_informational
                &&& usage.secondary->0.used_percent == product_of(
                    quotient_of(
                        clamped(difference_of(v.funded_total, v.balance), of_integer(0), v.funded_total),
                        v.funded_total,
                    ),
                    of_integer(100),
                )
                &&& usage.secondary->0.reset_description == Some(
                    points_text(v.balance) + " remaining of "@ + points_text(v.funded_total) + " total"@,
                )
            }
            &&& usage.secondary is None ==> usage.secondary_label is None
            &&& usage.secondary is Some <==> of_integer(0).less(v.funded_total) && v.balance.at_most(
                sum_of(v.funded_total, slack()),
            )
        }),
{
}

/// The three lines beside the lanes: what is left of the bonus, what was funded, and what the
/// month took. None of them is a percentage.
#[verifier::spinoff_prover]
#[verifier::rlimit(40)]
pub proof fn law_further_lines_name_their_amounts(v: CreditValues, now: Timestamp)
    ensures
        ({
            let extra = usage_of(v, now).extra_rate_windows;
            &&& extra.len() == 3
            &&& extra[0].id == "bonus"@ && extra[0].title == "Bonus balance"@
            &&& extra[0].window.reset_description == Some(points_text(v.bonus_remaining) + " bonus remaining"@)
            &&& extra[1].id == "funding"@ && extra[1].title == "Funding"@
            &&& extra[1].window.reset_description == Some(
                points_text(v.purchased_total) + " purchased + "@ + points_text(v.bonus_total) + " bonus"@,
            )
            &&& extra[2].id == "monthly"@ && extra[2].title == "Used this month"@
            &&& extra[2].window.reset_description == Some(
                points_text(v.monthly_spent) + " points used this month"@,
            )
            &&& forall|i: int| 0 <= i < 3 ==> (#[trigger] extra[i]).window.is_informational && extra[i].usage_known
        }),
{
    let extra = usage_of(v, now).extra_rate_windows;
    assert(extra.len() == 3);
    assert(extra[0].window.is_informational && extra[0].usage_known);
    assert(extra[1].window.is_informational && extra[1].usage_known);
    assert(extra[2].window.is_informational && extra[2].usage_known);
}

/// The cost is what the funding exceeds the balance by, with the balance beside it, in points.
pub proof fn law_the_cost_is_what_was_spent(v: CreditValues, now: Timestamp)
    ensures
        ({
            let cost = cost_of(v, now);
            &&& cost.balance == Some(v.balance)
            &&& cost.currency_code == "points"@
            &&& cost.period == "Funded credits"@
            &&& cost.updated_at == now
            &&& cost.resets_at is None && cost.currency_symbol is None
            &&& cost.limit is Some ==> cost.limit == Some(v.funded_total)
            &&& cost.limit is Some <==> usage_of(v, now).secondary is Some
            &&& v.balance.at_most(sum_of(v.funded_total, slack())) && of_integer(0).at_most(
                difference_of(v.funded_total, v.balance),
            ) ==> cost.used == difference_of(v.funded_total, v.balance)
            &&& !v.balance.at_most(sum_of(v.funded_total, slack())) ==> cost.used == of_integer(0)
        }),
{
}

/// Points are written in full below a thousand, in thousands below a million, and in millions
/// from there on.
pub proof fn law_points_are_written_by_their_size(value: Binary64)
    ensures
        of_integer(1_000_000).at_most(value) ==> points_text(value).last() == 'M',
        of_integer(1_000).at_most(value) && !of_integer(1_000_000).at_most(value) ==> points_text(value).last() == 'K',
        !of_integer(1_000).at_most(value) && !of_integer(1_000_000).at_most(value) ==> points_text(value)
            == fixed_text(value, 0),
        ({
            let millions = quotient_of(value, of_integer(1_000_000));
            let thousands = quotient_of(value, of_integer(1_000));
            &&& of_integer(1_000_000).at_most(value) ==> points_text(value).drop_last() == fixed_text(
                millions,
                if fraction_of(millions).absolute().less(slack()) { 0 } else { 2 },
            )
            &&& of_integer(1_000).at_most(value) && !of_integer(1_000_000).at_most(value) ==> points_text(
                value,
            ).drop_last() == fixed_text(
                thousands,
                if fraction_of(thousands).absolute().less(slack()) { 0 } else { 2 },
            )
        }),
{
    reveal_strlit("M");
    reveal_strlit("K");
    assert("M"@.len() == 1 && "M"@[0] == 'M');
    assert("K"@.len() == 1 && "K"@[0] == 'K');
    assert((in_unit(value, 1_000_000) + "M"@).drop_last() =~= in_unit(value, 1_000_000));
    assert((in_unit(value, 1_000) + "K"@).drop_last() =~= in_unit(value, 1_000));
}

/// Totals are refused only where an amount is no amount, where the bonus exceeds the balance,
/// or where the funding is not the sum of its parts.
pub proof fn law_totals_that_add_up_are_accepted(v: CreditValues)
    ensures
        totals_error(v) is None <==> {
            &&& is_amount(v.balance) && is_amount(v.bonus_remaining) && is_amount(v.monthly_spent)
            &&& is_amount(v.purchased_total) && is_amount(v.bonus_total) && is_amount(v.funded_total)
            &&& !sum_of(v.balance, slack()).less(v.bonus_remaining)
            &&& !of_ratio(1, 2).less(
                difference_of(v.funded_total, sum_of(v.purchased_total, v.bonus_total)).absolute(),
            )
        },
{
}

/// A result holds the lanes and the cost of its own totals, from the browser.
pub proof fn law_results_hold_lanes_and_cost(v: CreditValues, now: Timestamp)
    ensures
        result_model(v, now).usage == usage_of(v, now),
        result_model(v, now).cost == Some(cost_of(v, now)),
        result_model(v, now).source_label == "browser-cdp"@,
{
}

} // verus!
