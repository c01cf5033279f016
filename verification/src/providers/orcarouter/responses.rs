//! The answers of the OrcaRouter endpoints.
use crate::binary64::{of_integer, quotient_of, smaller_of, Binary64};
use crate::http::{describe_status, is_success, status_text};
use crate::json::{
    boolean_field, check_record, double_field, integer_field, is_record, json_of_text, member, member_of,
    optional_field, parse_text, read_optional_boolean, read_optional_double, read_optional_integer, tree_view, Json,
    JsonTree,
};
use crate::snapshot::{ErrorModel, ProviderError};
use crate::text::{concat2, concat3, concat4};
use vstd::prelude::*;

verus! {

/// The spending of a workspace.
#[derive(Clone, Copy, PartialEq, Eq, Structural, Debug)]
pub struct UsageResponse {
    /// In hundredths of a US dollar.
    pub total_usage: Option<Binary64>,
}

/// The account of a browser session.
#[derive(Clone, Copy, PartialEq, Eq, Structural, Debug)]
pub struct WebSelfResponse {
    pub success: Option<bool>,
    /// The quota in the wallet of the active workspace.
    pub quota: Option<Binary64>,
}

/// The public status of the service.
#[derive(Clone, Copy, PartialEq, Eq, Structural, Debug)]
pub struct StatusResponse {
    pub success: Option<bool>,
    /// How much quota a US dollar is.
    pub rate: Option<Binary64>,
}

/// The subscription of a workspace; every field may be unknown.
#[derive(Clone, Copy, PartialEq, Eq, Structural, Debug)]
pub struct SubscriptionSummary {
    pub has_payment_method: Option<bool>,
    pub soft_limit_usd: Option<Binary64>,
    pub hard_limit_usd: Option<Binary64>,
    pub system_hard_limit_usd: Option<Binary64>,
    /// Unix seconds when access ends; 0 means that it does not.
    pub access_until: Option<i64>,
}

pub open spec fn malformed(label: Seq<char>) -> ErrorModel {
    ErrorModel::Parse("Invalid OrcaRouter "@ + label + " response: unexpected fields"@)
}

fn malformed_error(label: &str) -> (r: ProviderError)
    ensures
        r@ == malformed(label@),
{
    ProviderError::Parse(concat3("Invalid OrcaRouter ", label, " response: unexpected fields"))
}

pub open spec fn unreadable(label: Seq<char>, error: Seq<char>) -> ErrorModel {
    ErrorModel::Parse("Invalid OrcaRouter "@ + label + " response: "@ + error)
}

fn parse_json(text: &str, label: &str) -> (r: Result<Json, ProviderError>)
    ensures
        match json_of_text(text@) {
            Ok(tree) => r is Ok && r->Ok_0.tree() == tree,
            Err(error) => r is Err && r->Err_0@ == unreadable(label@, error),
        },
{
    match parse_text(text) {
        Ok(json) => Ok(json),
        Err(error) => Err(
            ProviderError::Parse(concat4("Invalid OrcaRouter ", label, " response: ", error.as_str())),
        ),
    }
}

/// An optional number in a record: nothing if it is malformed.
pub open spec fn optional_double(tree: JsonTree, name: Seq<char>, place: int) -> Option<Option<Binary64>> {
    optional_field(member(tree, name, place), double_field(member(tree, name, place)))
}

fn read_double_at(json: &Json, name: &str, place: usize) -> (r: Option<Option<Binary64>>)
    ensures
        r == optional_double(json.tree(), name@, place as int),
{
    read_optional_double(member_of(json, name, place))
}

pub open spec fn optional_flag(tree: JsonTree, name: Seq<char>, place: int) -> Option<Option<bool>> {
    optional_field(member(tree, name, place), boolean_field(member(tree, name, place)))
}

fn read_flag_at(json: &Json, name: &str, place: usize) -> (r: Option<Option<bool>>)
    ensures
        r == optional_flag(json.tree(), name@, place as int),
{
    read_optional_boolean(member_of(json, name, place))
}

/// A record of one field that may be absent or null: nothing if it is malformed.
pub open spec fn optional_child(field: Option<JsonTree>) -> Option<Option<JsonTree>> {
    match field {
        None => Some(None),
        Some(JsonTree::Null) => Some(None),
        Some(tree) => if is_record(tree, 1) {
            Some(Some(tree))
        } else {
            None
        },
    }
}

pub open spec fn child_view(r: Option<Option<&Json>>) -> Option<Option<JsonTree>> {
    match r {
        Some(child) => Some(tree_view(child)),
        None => None,
    }
}

fn read_child<'a>(field: Option<&'a Json>) -> (r: Option<Option<&'a Json>>)
    ensures
        child_view(r) == optional_child(tree_view(field)),
{
    match field {
        None => Some(None),
        Some(json) => {
            if json.is_null() {
                Some(None)
            } else if check_record(json, 1) {
                Some(Some(json))
            } else {
                None
            }
        },
    }
}

/// The spending that an answer states. An answer without it is an error: nothing
/// is ever taken for zero.
pub open spec fn usage_of(tree: JsonTree) -> Result<UsageResponse, ErrorModel> {
    if !is_record(tree, 1) {
        Err(malformed("usage"@))
    } else {
        match optional_double(tree, "total_usage"@, 0) {
            None => Err(malformed("usage"@)),
            Some(None) => Err(ErrorModel::Parse("OrcaRouter usage response did not include total_usage"@)),
            Some(Some(total)) => Ok(UsageResponse { total_usage: Some(total) }),
        }
    }
}

pub open spec fn usage_view(r: Result<UsageResponse, ProviderError>) -> Result<UsageResponse, ErrorModel> {
    match r {
        Ok(usage) => Ok(usage),
        Err(error) => Err(error@),
    }
}

impl UsageResponse {
    pub fn from_json(json: &Json) -> (r: Result<UsageResponse, ProviderError>)
        ensures
            usage_view(r) == usage_of(json.tree()),
    {
        if !check_record(json, 1) {
            return Err(malformed_error("usage"));
        }
        match read_double_at(json, "total_usage", 0) {
            None => Err(malformed_error("usage")),
            Some(None) => Err(ProviderError::parse("OrcaRouter usage response did not include total_usage")),
            Some(Some(total)) => Ok(UsageResponse { total_usage: Some(total) }),
        }
    }

    /// Reads the body of an answer. A field that occurs more than once counts with
    /// its last value.
    pub fn parse(text: &str) -> (r: Result<UsageResponse, ProviderError>)
        ensures
            match json_of_text(text@) {
                Ok(tree) => usage_view(r) == usage_of(tree),
                Err(error) => usage_view(r) == Err::<UsageResponse, ErrorModel>(unreadable("usage"@, error)),
            },
    {
        match parse_json(text, "usage") {
            Ok(json) => UsageResponse::from_json(&json),
            Err(error) => Err(error),
        }
    }
}

/// The wallet quota of an account, if it can be used.
pub open spec fn quota_of(account: WebSelfResponse) -> Result<Binary64, ErrorModel> {
    match account.quota {
        None => Err(
            ErrorModel::Parse(
                "OrcaRouter web account response did not include active_workspace.wallet_quota"@,
            ),
        ),
        Some(quota) => if is_amount(quota) {
            Ok(quota)
        } else {
            Err(ErrorModel::Parse("OrcaRouter wallet_quota was not a finite non-negative number"@))
        },
    }
}

/// A finite number that is not negative.
pub open spec fn is_amount(x: Binary64) -> bool {
    x.finite() && !x.less(of_integer(0))
}

pub fn check_amount(x: Binary64) -> (r: bool)
    ensures
        r == is_amount(x),
{
    x.is_finite() && !x.lt(Binary64::from_integer(0))
}

pub open spec fn amount_view(r: Result<Binary64, ProviderError>) -> Result<Binary64, ErrorModel> {
    match r {
        Ok(x) => Ok(x),
        Err(error) => Err(error@),
    }
}

/// The wallet quota that an account answer holds: nothing if it is malformed.
pub open spec fn quota_in(tree: JsonTree) -> Option<Option<Binary64>> {
    match optional_child(member(tree, "data"@, 1)) {
        None => None,
        Some(None) => Some(None),
        Some(Some(data)) => match optional_child(member(data, "active_workspace"@, 0)) {
            None => None,
            Some(None) => Some(None),
            Some(Some(workspace)) => optional_double(workspace, "wallet_quota"@, 0),
        },
    }
}

fn read_quota(json: &Json) -> (r: Option<Option<Binary64>>)
    ensures
        r == quota_in(json.tree()),
{
    let data = match read_child(member_of(json, "data", 1)) {
        None => return None,
        Some(None) => return Some(None),
        Some(Some(data)) => data,
    };
    match read_child(member_of(data, "active_workspace", 0)) {
        None => None,
        Some(None) => Some(None),
        Some(Some(workspace)) => read_double_at(workspace, "wallet_quota", 0),
    }
}

/// The account that an answer describes. One that reports failure asks for a
/// sign-in.
pub open spec fn account_of(tree: JsonTree) -> Result<WebSelfResponse, ErrorModel> {
    match (is_record(tree, 2), optional_flag(tree, "success"@, 0), quota_in(tree)) {
        (true, Some(success), Some(quota)) => {
            let account = WebSelfResponse { success, quota };
            if success == Some(false) {
                Err(ErrorModel::AuthRequired)
            } else {
                match quota_of(account) {
                    Ok(_) => Ok(account),
                    Err(error) => Err(error),
                }
            }
        },
        _ => Err(malformed("web account"@)),
    }
}

pub open spec fn account_view(r: Result<WebSelfResponse, ProviderError>) -> Result<WebSelfResponse, ErrorModel> {
    match r {
        Ok(account) => Ok(account),
        Err(error) => Err(error@),
    }
}

impl WebSelfResponse {
    pub fn wallet_quota(&self) -> (r: Result<Binary64, ProviderError>)
        ensures
            amount_view(r) == quota_of(*self),
    {
        match self.quota {
            None => Err(
                ProviderError::parse(
                    "OrcaRouter web account response did not include active_workspace.wallet_quota",
                ),
            ),
            Some(quota) => if check_amount(quota) {
                Ok(quota)
            } else {
                Err(ProviderError::parse("OrcaRouter wallet_quota was not a finite non-negative number"))
            },
        }
    }

    pub fn from_json(json: &Json) -> (r: Result<WebSelfResponse, ProviderError>)
        ensures
            account_view(r) == account_of(json.tree()),
    {
        if !check_record(json, 2) {
            return Err(malformed_error("web account"));
        }
        let success = match read_flag_at(json, "success", 0) {
            Some(success) => success,
            None => return Err(malformed_error("web account")),
        };
        let quota = match read_quota(json) {
            Some(quota) => quota,
            None => return Err(malformed_error("web account")),
        };
        let account = WebSelfResponse { success, quota };
        if let Some(success) = success {
            if !success {
                return Err(ProviderError::AuthRequired);
            }
        }
        match account.wallet_quota() {
            Ok(_) => Ok(account),
            Err(error) => Err(error),
        }
    }

    /// Reads the body of an answer. A field that occurs more than once counts with
    /// its last value.
    pub fn parse(text: &str) -> (r: Result<WebSelfResponse, ProviderError>)
        ensures
            match json_of_text(text@) {
                Ok(tree) => account_view(r) == account_of(tree),
                Err(error) => account_view(r) == Err::<WebSelfResponse, ErrorModel>(
                    unreadable("web account"@, error),
                ),
            },
    {
        match parse_json(text, "web account") {
            Ok(json) => WebSelfResponse::from_json(&json),
            Err(error) => Err(error),
        }
    }
}

/// The rate that a status states, if it can be used.
pub open spec fn rate_of(status: StatusResponse) -> Option<Binary64> {
    match status.rate {
        Some(rate) => if rate.finite() && of_integer(0).less(rate) {
            Some(rate)
        } else {
            None
        },
        None => None,
    }
}

/// The rate that a status answer holds: nothing if it is malformed.
pub open spec fn rate_in(tree: JsonTree) -> Option<Option<Binary64>> {
    match optional_child(member(tree, "data"@, 1)) {
        None => None,
        Some(None) => Some(None),
        Some(Some(data)) => optional_double(data, "quota_per_unit"@, 0),
    }
}

/// The status that an answer describes; one without a usable rate is an error.
pub open spec fn status_of(tree: JsonTree) -> Result<StatusResponse, ErrorModel> {
    match (is_record(tree, 2), optional_flag(tree, "success"@, 0), rate_in(tree)) {
        (true, Some(success), Some(rate)) => {
            let status = StatusResponse { success, rate };
            if success == Some(false) || rate_of(status) is None {
                Err(ErrorModel::Parse("OrcaRouter status response did not include a usable quota_per_unit"@))
            } else {
                Ok(status)
            }
        },
        _ => Err(malformed("status"@)),
    }
}

pub open spec fn status_view(r: Result<StatusResponse, ProviderError>) -> Result<StatusResponse, ErrorModel> {
    match r {
        Ok(status) => Ok(status),
        Err(error) => Err(error@),
    }
}

impl StatusResponse {
    pub fn quota_per_unit(&self) -> (r: Option<Binary64>)
        ensures
            r == rate_of(*self),
    {
        match self.rate {
            Some(rate) => if rate.is_finite() && Binary64::from_integer(0).lt(rate) {
                Some(rate)
            } else {
                None
            },
            None => None,
        }
    }

    pub fn from_json(json: &Json) -> (r: Result<StatusResponse, ProviderError>)
        ensures
            status_view(r) == status_of(json.tree()),
    {
        if !check_record(json, 2) {
            return Err(malformed_error("status"));
        }
        let success = match read_flag_at(json, "success", 0) {
            Some(success) => success,
            None => return Err(malformed_error("status")),
        };
        let rate = match read_child(member_of(json, "data", 1)) {
            None => return Err(malformed_error("status")),
            Some(None) => None,
            Some(Some(data)) => match read_double_at(data, "quota_per_unit", 0) {
                Some(rate) => rate,
                None => return Err(malformed_error("status")),
            },
        };
        let status = StatusResponse { success, rate };
        let failed = match success {
            Some(success) => !success,
            None => false,
        };
        if failed || status.quota_per_unit().is_none() {
            return Err(
                ProviderError::parse("OrcaRouter status response did not include a usable quota_per_unit"),
            );
        }
        Ok(status)
    }

    /// Reads the body of an answer. A field that occurs more than once counts with
    /// its last value.
    pub fn parse(text: &str) -> (r: Result<StatusResponse, ProviderError>)
        ensures
            match json_of_text(text@) {
                Ok(tree) => status_view(r) == status_of(tree),
                Err(error) => status_view(r) == Err::<StatusResponse, ErrorModel>(unreadable("status"@, error)),
            },
    {
        match parse_json(text, "status") {
            Ok(json) => StatusResponse::from_json(&json),
            Err(error) => Err(error),
        }
    }
}

/// A wallet quota in US dollars, by the current rate.
pub open spec fn balance_of(quota: Binary64, status: StatusResponse) -> Result<Binary64, ErrorModel> {
    match rate_of(status) {
        None => Err(ErrorModel::Parse("OrcaRouter quota_per_unit is unavailable"@)),
        Some(rate) => if is_amount(quota) {
            Ok(quotient_of(quota, rate))
        } else {
            Err(ErrorModel::Parse("OrcaRouter wallet_quota was not a finite non-negative number"@))
        },
    }
}

pub fn wallet_balance_usd(wallet_quota: Binary64, status: &StatusResponse) -> (r: Result<Binary64, ProviderError>)
    ensures
        amount_view(r) == balance_of(wallet_quota, *status),
{
    let rate = match status.quota_per_unit() {
        Some(rate) => rate,
        None => return Err(ProviderError::parse("OrcaRouter quota_per_unit is unavailable")),
    };
    if !check_amount(wallet_quota) {
        return Err(ProviderError::parse("OrcaRouter wallet_quota was not a finite non-negative number"));
    }
    Ok(wallet_quota.over(rate))
}

/// The balance that the two answers of a browser session give; the account counts
/// first where both are wrong.
pub open spec fn session_balance(
    account: Result<WebSelfResponse, ErrorModel>,
    status: Result<StatusResponse, ErrorModel>,
) -> Result<Binary64, ErrorModel> {
    match (account, status) {
        (Err(error), _) => Err(error),
        (Ok(_), Err(error)) => Err(error),
        (Ok(account), Ok(status)) => match quota_of(account) {
            Ok(quota) => balance_of(quota, status),
            Err(error) => Err(error),
        },
    }
}

/// The balance from the account and the status of a browser session.
pub fn wallet_balance_from(
    account: Result<WebSelfResponse, ProviderError>,
    status: Result<StatusResponse, ProviderError>,
) -> (r: Result<Binary64, ProviderError>)
    ensures
        amount_view(r) == session_balance(account_view(account), status_view(status)),
{
    let account = match account {
        Ok(account) => account,
        Err(error) => return Err(error),
    };
    let status = match status {
        Ok(status) => status,
        Err(error) => return Err(error),
    };
    match account.wallet_quota() {
        Ok(quota) => wallet_balance_usd(quota, &status),
        Err(error) => Err(error),
    }
}

/// The subscription that an answer describes.
pub open spec fn subscription_of(tree: JsonTree) -> Result<SubscriptionSummary, ErrorModel> {
    let until = member(tree, "access_until"@, 4);
    match (
        is_record(tree, 5),
        optional_flag(tree, "has_payment_method"@, 0),
        optional_double(tree, "soft_limit_usd"@, 1),
        optional_double(tree, "hard_limit_usd"@, 2),
        optional_double(tree, "system_hard_limit_usd"@, 3),
        optional_field(until, integer_field(until)),
    ) {
        (
            true,
            Some(has_payment_method),
            Some(soft_limit_usd),
            Some(hard_limit_usd),
            Some(system_hard_limit_usd),
            Some(access_until),
        ) => Ok(
            SubscriptionSummary {
                has_payment_method,
                soft_limit_usd,
                hard_limit_usd,
                system_hard_limit_usd,
                access_until,
            },
        ),
        _ => Err(malformed("subscription"@)),
    }
}

pub open spec fn subscription_view(r: Result<SubscriptionSummary, ProviderError>) -> Result<
    SubscriptionSummary,
    ErrorModel,
> {
    match r {
        Ok(subscription) => Ok(subscription),
        Err(error) => Err(error@),
    }
}

/// A limit that caps anything.
pub open spec fn is_limit(limit: Option<Binary64>) -> bool {
    limit is Some && limit->0.finite() && of_integer(0).less(limit->0)
}

/// The smallest limit above zero that is reported.
pub open spec fn cap_of(s: SubscriptionSummary) -> Option<Binary64> {
    match (is_limit(s.hard_limit_usd), is_limit(s.system_hard_limit_usd)) {
        (true, true) => Some(smaller_of(s.hard_limit_usd->0, s.system_hard_limit_usd->0)),
        (true, false) => s.hard_limit_usd,
        (false, true) => s.system_hard_limit_usd,
        (false, false) => None,
    }
}

fn limit(x: Option<Binary64>) -> (r: Option<Binary64>)
    ensures
        r == (if is_limit(x) { x } else { None }),
{
    match x {
        Some(x) => if x.is_finite() && Binary64::from_integer(0).lt(x) {
            Some(x)
        } else {
            None
        },
        None => None,
    }
}

impl SubscriptionSummary {
    pub fn from_json(json: &Json) -> (r: Result<SubscriptionSummary, ProviderError>)
        ensures
            subscription_view(r) == subscription_of(json.tree()),
    {
        if !check_record(json, 5) {
            return Err(malformed_error("subscription"));
        }
        match (
            read_flag_at(json, "has_payment_method", 0),
            read_double_at(json, "soft_limit_usd", 1),
            read_double_at(json, "hard_limit_usd", 2),
            read_double_at(json, "system_hard_limit_usd", 3),
            read_optional_integer(member_of(json, "access_until", 4)),
        ) {
            (
                Some(has_payment_method),
                Some(soft_limit_usd),
                Some(hard_limit_usd),
                Some(system_hard_limit_usd),
                Some(access_until),
            ) => Ok(
                SubscriptionSummary {
                    has_payment_method,
                    soft_limit_usd,
                    hard_limit_usd,
                    system_hard_limit_usd,
                    access_until,
                },
            ),
            _ => Err(malformed_error("subscription")),
        }
    }

    /// Reads the body of an answer. A field that occurs more than once counts with
    /// its last value.
    pub fn parse(text: &str) -> (r: Result<SubscriptionSummary, ProviderError>)
        ensures
            match json_of_text(text@) {
                Ok(tree) => subscription_view(r) == subscription_of(tree),
                Err(error) => subscription_view(r) == Err::<SubscriptionSummary, ErrorModel>(
                    unreadable("subscription"@, error),
                ),
            },
    {
        match parse_json(text, "subscription") {
            Ok(json) => SubscriptionSummary::from_json(&json),
            Err(error) => Err(error),
        }
    }

    pub fn effective_cap_usd(&self) -> (r: Option<Binary64>)
        ensures
            r == cap_of(*self),
    {
        match (limit(self.hard_limit_usd), limit(self.system_hard_limit_usd)) {
            (Some(hard), Some(system)) => Some(hard.min(system)),
            (Some(hard), None) => Some(hard),
            (None, system) => system,
        }
    }
}

/// What a status means: nothing where it reports success.
pub open spec fn status_meaning(status: u16) -> Option<ErrorModel> {
    if is_success(status) {
        None
    } else if status == 401 || status == 403 {
        Some(ErrorModel::AuthRequired)
    } else {
        Some(ErrorModel::Other("OrcaRouter API returned status "@ + status_text(status)))
    }
}

pub fn status_error(status: u16) -> (r: Option<ProviderError>)
    requires
        100 <= status <= 999,
    ensures
        match status_meaning(status) {
            Some(error) => r is Some && r->0@ == error,
            None => r is None,
        },
{
    if 200 <= status && status < 300 {
        return None;
    }
    if status == 401 || status == 403 {
        return Some(ProviderError::AuthRequired);
    }
    let text = describe_status(status);
    Some(ProviderError::Other(concat2("OrcaRouter API returned status ", text.as_str())))
}

/// A cap is above zero and no reported limit above zero lies below it.
pub proof fn law_the_cap_is_the_smallest_limit(s: SubscriptionSummary)
    ensures
        cap_of(s) is Some ==> is_limit(cap_of(s)),
        cap_of(s) is Some && is_limit(s.hard_limit_usd) ==> !s.hard_limit_usd->0.less(cap_of(s)->0),
        cap_of(s) is Some && is_limit(s.system_hard_limit_usd) ==> !s.system_hard_limit_usd->0.less(cap_of(s)->0),
        cap_of(s) is None <==> !is_limit(s.hard_limit_usd) && !is_limit(s.system_hard_limit_usd),
{
}

/// The number that an object holds under a key.
pub open spec fn number_at(tree: JsonTree, key: Seq<char>) -> Option<Binary64> {
    match tree.field(key) {
        Some(JsonTree::Number(n)) => n.double,
        _ => None,
    }
}

/// The spending is the number under `total_usage`, and without it there is an error.
pub proof fn law_the_spending_stands_under_its_key(tree: JsonTree)
    requires
        tree is Object,
    ensures
        usage_of(tree) is Ok <==> number_at(tree, "total_usage"@) is Some,
        usage_of(tree) is Ok ==> usage_of(tree)->Ok_0.total_usage == number_at(tree, "total_usage"@),
{
}

/// The quota of an account is the number under `data`, `active_workspace` and `wallet_quota`,
/// where it is an amount and the answer does not report failure.
pub proof fn law_the_quota_stands_under_its_keys(tree: JsonTree, data: JsonTree, workspace: JsonTree)
    requires
        tree is Object && data is Object && workspace is Object,
        tree.field("data"@) == Some(data),
        data.field("active_workspace"@) == Some(workspace),
        tree.field("success"@) is None || tree.field("success"@)->0 is Bool,
    ensures
        ({
            let quota = number_at(workspace, "wallet_quota"@);
            let failed = tree.field("success"@) == Some(JsonTree::Bool(false));
            let malformed_quota = workspace.field("wallet_quota"@) is Some && workspace.field("wallet_quota"@)->0
                != JsonTree::Null && quota is None;
            &&& account_of(tree) is Ok <==> !failed && quota is Some && is_amount(quota->0)
            &&& account_of(tree) is Ok ==> account_of(tree)->Ok_0.quota == quota && quota_of(account_of(tree)->Ok_0)
                == Ok::<Binary64, ErrorModel>(quota->0)
            &&& failed && !malformed_quota ==> account_of(tree) == Err::<WebSelfResponse, ErrorModel>(
                ErrorModel::AuthRequired,
            )
        }),
{
}

/// The rate of a status is the number under `data` and `quota_per_unit`, where it is above zero
/// and the answer does not report failure.
pub proof fn law_the_rate_stands_under_its_keys(tree: JsonTree, data: JsonTree)
    requires
        tree is Object && data is Object,
        tree.field("data"@) == Some(data),
        tree.field("success"@) is None || tree.field("success"@)->0 is Bool,
    ensures
        ({
            let rate = number_at(data, "quota_per_unit"@);
            &&& status_of(tree) is Ok <==> tree.field("success"@) != Some(JsonTree::Bool(false)) && rate is Some
                && rate->0.finite() && of_integer(0).less(rate->0)
            &&& status_of(tree) is Ok ==> status_of(tree)->Ok_0.rate == rate && rate_of(status_of(tree)->Ok_0) == rate
        }),
{
}

/// A balance is the quota over the rate; without a usable rate, or for what is no amount, there
/// is none.
pub proof fn law_balances_are_quotas_over_rates(quota: Binary64, status: StatusResponse)
    ensures
        ({
            let usable = status.rate is Some && status.rate->0.finite() && of_integer(0).less(status.rate->0);
            &&& balance_of(quota, status) is Ok <==> usable && quota.finite() && !quota.less(of_integer(0))
            &&& balance_of(quota, status) is Ok ==> balance_of(quota, status)->Ok_0 == quotient_of(
                quota,
                status.rate->0,
            )
        }),
{
}

/// The balance of a session comes from its own account and status, and the error of the account
/// comes first.
pub proof fn law_sessions_need_both_answers(
    account: Result<WebSelfResponse, ErrorModel>,
    status: Result<StatusResponse, ErrorModel>,
)
    ensures
        account is Err ==> session_balance(account, status) == Err::<Binary64, ErrorModel>(account->Err_0),
        account is Ok && status is Err ==> session_balance(account, status) == Err::<Binary64, ErrorModel>(
            status->Err_0,
        ),
        account is Ok && status is Ok && account->Ok_0.quota is Some && is_amount(account->Ok_0.quota->0)
            ==> session_balance(account, status) == balance_of(account->Ok_0.quota->0, status->Ok_0),
{
}

/// A subscription is what stands under its keys; what is left out or null is unknown.
pub proof fn law_subscriptions_stand_under_their_keys(tree: JsonTree)
    requires
        tree is Object,
        subscription_of(tree) is Ok,
    ensures
        ({
            let s = subscription_of(tree)->Ok_0;
            let payment = tree.field("has_payment_method"@);
            let until = tree.field("access_until"@);
            &&& s.soft_limit_usd == number_at(tree, "soft_limit_usd"@)
            &&& s.hard_limit_usd == number_at(tree, "hard_limit_usd"@)
            &&& s.system_hard_limit_usd == number_at(tree, "system_hard_limit_usd"@)
            &&& payment is Some && payment->0 is Bool ==> s.has_payment_method == Some(payment->0->Bool_0)
            &&& payment is None ==> s.has_payment_method is None
            &&& until is Some && until->0 is Number ==> s.access_until == until->0.integer()
            &&& until is None ==> s.access_until is None
        }),
{
}

/// The cap is one of the two hard limits; the soft limit caps nothing.
pub proof fn law_only_hard_limits_cap(s: SubscriptionSummary, soft: Option<Binary64>)
    ensures
        cap_of(s) is Some ==> cap_of(s) == s.hard_limit_usd || cap_of(s) == s.system_hard_limit_usd,
        cap_of(SubscriptionSummary { soft_limit_usd: soft, ..s }) == cap_of(s),
        is_limit(s.hard_limit_usd) && !is_limit(s.system_hard_limit_usd) ==> cap_of(s) == s.hard_limit_usd,
        !is_limit(s.hard_limit_usd) && is_limit(s.system_hard_limit_usd) ==> cap_of(s) == s.system_hard_limit_usd,
        s.hard_limit_usd is Some ==> (is_limit(s.hard_limit_usd) <==> s.hard_limit_usd->0.finite() && of_integer(0).less(
            s.hard_limit_usd->0,
        )),
{
}

/// A refused key or session asks for a sign-in, a success is no error, and any other failure is
/// reported with its status.
pub proof fn law_refusals_are_told_apart(status: u16)
    ensures
        200 <= status <= 299 ==> status_meaning(status) is None,
        status == 401 || status == 403 ==> status_meaning(status) == Some(ErrorModel::AuthRequired),
        !(200 <= status <= 299) && status != 401 && status != 403 ==> status_meaning(status) == Some(
            ErrorModel::Other("OrcaRouter API returned status "@ + status_text(status)),
        ),
{
}

/// What is no JSON is an error that names the answer and says why.
pub proof fn law_unreadable_answers_are_named(label: Seq<char>, error: Seq<char>)
    ensures
        unreadable(label, error) == ErrorModel::Parse("Invalid OrcaRouter "@ + label + " response: "@ + error),
        malformed(label) == unreadable(label, "unexpected fields"@),
{
    reveal_strlit(" response: unexpected fields");
    reveal_strlit(" response: ");
    reveal_strlit("unexpected fields");
    assert("Invalid OrcaRouter "@ + label + " response: unexpected fields"@ =~= "Invalid OrcaRouter "@ + label
        + " response: "@ + "unexpected fields"@);
}

/// Every answer may be written as a row of values, in the order of its fields, but not as a
/// longer one.
pub proof fn law_answers_may_be_rows(object: JsonTree, a: JsonTree, b: JsonTree)
    requires
        object is Object,
        object.field("success"@) == Some(a) && object.field("data"@) == Some(b),
        object.field("total_usage"@) == Some(a),
        object.field("active_workspace"@) == Some(a) && object.field("wallet_quota"@) == Some(a),
        object.field("quota_per_unit"@) == Some(a),
    ensures
        usage_of(JsonTree::Array(seq![a])) == usage_of(object),
        account_of(JsonTree::Array(seq![a, b])) == account_of(object),
        status_of(JsonTree::Array(seq![a, b])) == status_of(object),
        optional_double(JsonTree::Array(seq![a]), "wallet_quota"@, 0) == optional_double(object, "wallet_quota"@, 0),
        optional_double(JsonTree::Array(seq![a]), "quota_per_unit"@, 0) == optional_double(
            object,
            "quota_per_unit"@,
            0,
        ),
        optional_child(Some(JsonTree::Array(seq![a]))) == Some(Some(JsonTree::Array(seq![a]))),
        optional_child(Some(JsonTree::Array(seq![a, b]))) is None,
        usage_of(JsonTree::Array(seq![a, b])) is Err,
        account_of(JsonTree::Array(seq![a, b, b])) is Err,
        status_of(JsonTree::Array(seq![a, b, b])) is Err,
{
    let one = seq![a];
    assert(one.len() == 1 && one[0] == a);
    let two = seq![a, b];
    assert(two.len() == 2 && two[0] == a && two[1] == b);
    assert(seq![a, b, b].len() == 3);
}

/// A subscription may be written as a row of its five values, but not of more; and it is read
/// wherever each of them is left out, null or of its kind.
pub proof fn law_subscriptions_may_be_rows(
    object: JsonTree,
    payment: JsonTree,
    soft: JsonTree,
    hard: JsonTree,
    system: JsonTree,
    until: JsonTree,
)
    requires
        object is Object,
        object.field("has_payment_method"@) == Some(payment) && object.field("soft_limit_usd"@) == Some(soft),
        object.field("hard_limit_usd"@) == Some(hard) && object.field("system_hard_limit_usd"@) == Some(system),
        object.field("access_until"@) == Some(until),
    ensures
        subscription_of(JsonTree::Array(seq![payment, soft, hard, system, until])) == subscription_of(object),
        subscription_of(JsonTree::Array(seq![payment, soft, hard, system, until, until])) is Err,
        subscription_of(object) is Ok <==> {
            &&& payment == JsonTree::Null || payment is Bool
            &&& soft == JsonTree::Null || number_at(object, "soft_limit_usd"@) is Some
            &&& hard == JsonTree::Null || number_at(object, "hard_limit_usd"@) is Some
            &&& system == JsonTree::Null || number_at(object, "system_hard_limit_usd"@) is Some
            &&& until == JsonTree::Null || until is Number && until.integer() is Some
        },
        subscription_of(JsonTree::Object(Seq::empty())) is Ok,
{
    let row = seq![payment, soft, hard, system, until];
    assert(row.len() == 5 && row[0] == payment && row[1] == soft && row[2] == hard && row[3] == system && row[4]
        == until);
    assert(seq![payment, soft, hard, system, until, until].len() == 6);
}

/// What answers lack is named.
pub proof fn law_what_answers_lack_is_named(tree: JsonTree, quota: Binary64, status: StatusResponse)
    ensures
        !(tree is Object) && !(tree is Array) ==> {
            &&& usage_of(tree) == Err::<UsageResponse, ErrorModel>(malformed("usage"@))
            &&& account_of(tree) == Err::<WebSelfResponse, ErrorModel>(malformed("web account"@))
            &&& status_of(tree) == Err::<StatusResponse, ErrorModel>(malformed("status"@))
            &&& subscription_of(tree) == Err::<SubscriptionSummary, ErrorModel>(malformed("subscription"@))
        },
        tree is Object && tree.field("total_usage"@) is None ==> usage_of(tree) == Err::<UsageResponse, ErrorModel>(
            ErrorModel::Parse("OrcaRouter usage response did not include total_usage"@),
        ),
        quota_of(WebSelfResponse { success: None, quota: None }) == Err::<Binary64, ErrorModel>(
            ErrorModel::Parse("OrcaRouter web account response did not include active_workspace.wallet_quota"@),
        ),
        !is_amount(quota) ==> quota_of(WebSelfResponse { success: None, quota: Some(quota) }) == Err::<
            Binary64,
            ErrorModel,
        >(ErrorModel::Parse("OrcaRouter wallet_quota was not a finite non-negative number"@)),
        tree is Object && tree.field("success"@) is None && tree.field("data"@) is None ==> status_of(tree) == Err::<
            StatusResponse,
            ErrorModel,
        >(ErrorModel::Parse("OrcaRouter status response did not include a usable quota_per_unit"@)),
        rate_of(status) is None ==> balance_of(quota, status) == Err::<Binary64, ErrorModel>(
            ErrorModel::Parse("OrcaRouter quota_per_unit is unavailable"@),
        ),
        rate_of(status) is Some && !is_amount(quota) ==> balance_of(quota, status) == Err::<Binary64, ErrorModel>(
            ErrorModel::Parse("OrcaRouter wallet_quota was not a finite non-negative number"@),
        ),
{
}

/// An account and a status keep what the answer says of its success.
pub proof fn law_answers_keep_their_flag(tree: JsonTree)
    requires
        tree is Object,
    ensures
        ({
            let flag = match tree.field("success"@) {
                Some(JsonTree::Bool(b)) => Some(b),
                _ => None,
            };
            &&& account_of(tree) is Ok ==> account_of(tree)->Ok_0.success == flag
            &&& status_of(tree) is Ok ==> status_of(tree)->Ok_0.success == flag
        }),
{
}

/// What stands inside an answer may be written as a row of its one value as well.
pub proof fn law_inner_answers_may_be_rows(tree: JsonTree, data: JsonTree, workspace: JsonTree, value: JsonTree)
    requires
        tree is Object && tree.field("data"@) == Some(data),
    ensures
        data is Object && data.field("active_workspace"@) == Some(JsonTree::Array(seq![value])) ==> quota_in(tree)
            == optional_field(Some(value), double_field(Some(value))),
        data == JsonTree::Array(seq![workspace]) && workspace is Object && workspace.field("wallet_quota"@) == Some(
            value,
        ) ==> quota_in(tree) == optional_field(Some(value), double_field(Some(value))),
        data == JsonTree::Array(seq![value]) ==> rate_in(tree) == optional_field(
            Some(value),
            double_field(Some(value)),
        ),
{
    assert(seq![value].len() == 1 && seq![value][0] == value);
    assert(seq![workspace].len() == 1 && seq![workspace][0] == workspace);
}

} // verus!
