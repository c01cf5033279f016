//! Credit totals as a signed-in browser tab reports them.
use super::CreditValues;
use crate::json::{
    double_field, json_of_text, name_texts, parse_text, read_double, record, record_fields, Json,
    JsonTree,
};
use crate::snapshot::{ErrorModel, ProviderError};
use crate::text::{concat2, from_utf8_lossy, last_full, last_full_line, lines_of, lossy_text, trimmed};
use vstd::prelude::*;

verus! {

/// The fields of a report, and no others.
pub open spec fn report_names() -> Seq<Seq<char>> {
    seq![
        "balance"@,
        "bonus_remaining"@,
        "monthly_spent"@,
        "purchased_total"@,
        "bonus_total"@,
        "funded_total"@,
    ]
}

/// The totals that a report spells.
pub open spec fn totals_in(tree: JsonTree) -> Option<CreditValues> {
    match record(tree, report_names()) {
        Some(f) => match (
            double_field(f[0]),
            double_field(f[1]),
            double_field(f[2]),
            double_field(f[3]),
            double_field(f[4]),
            double_field(f[5]),
        ) {
            (
                Some(balance),
                Some(bonus_remaining),
                Some(monthly_spent),
                Some(purchased_total),
                Some(bonus_total),
                Some(funded_total),
            ) => Some(
                CreditValues {
                    balance,
                    bonus_remaining,
                    monthly_spent,
                    purchased_total,
                    bonus_total,
                    funded_total,
                },
            ),
            _ => None,
        },
        None => None,
    }
}

pub fn totals_from_json(json: &Json) -> (r: Option<CreditValues>)
    ensures
        r == totals_in(json.tree()),
{
    let names: Vec<&str> = vec![
        "balance",
        "bonus_remaining",
        "monthly_spent",
        "purchased_total",
        "bonus_total",
        "funded_total",
    ];
    proof {
        assert(name_texts(names@) =~= report_names());
    }
    match record_fields(json, &names) {
        Some(f) => match (
            read_double(f[0]),
            read_double(f[1]),
            read_double(f[2]),
            read_double(f[3]),
            read_double(f[4]),
            read_double(f[5]),
        ) {
            (
                Some(balance),
                Some(bonus_remaining),
                Some(monthly_spent),
                Some(purchased_total),
                Some(bonus_total),
                Some(funded_total),
            ) => Some(
                CreditValues {
                    balance,
                    bonus_remaining,
                    monthly_spent,
                    purchased_total,
                    bonus_total,
                    funded_total,
                },
            ),
            _ => None,
        },
        None => None,
    }
}

/// The totals that a line of output spells.
pub open spec fn line_totals(line: Option<Seq<char>>) -> Result<CreditValues, ErrorModel> {
    match line {
        None => Err(ErrorModel::NoCookies),
        Some(line) => match json_of_text(line) {
            Err(error) => Err(ErrorModel::Parse("Invalid b.ai browser usage response: "@ + error)),
            Ok(tree) => match totals_in(tree) {
                Some(totals) => Ok(totals),
                None => Err(ErrorModel::Parse("Invalid b.ai browser usage response: unexpected fields"@)),
            },
        },
    }
}

/// The totals that printed bytes report.
pub open spec fn printed_totals(stdout: Seq<u8>) -> Result<CreditValues, ErrorModel> {
    line_totals(last_full(lines_of(lossy_text(stdout))))
}

/// The totals that a finished helper reports.
pub open spec fn helper_totals(succeeded: bool, stdout: Seq<u8>) -> Result<CreditValues, ErrorModel> {
    if succeeded {
        printed_totals(stdout)
    } else {
        Err(
            ErrorModel::NotInstalled(
                "No signed-in b.ai Usage/Top up tab was available through a local Chromium DevTools session. Keep https://chat.b.ai/usage open in the Converlay profile (or another Edge/Chrome profile with remote debugging enabled), then refresh CodexBar."@,
            ),
        )
    }
}

/// Reads the totals from what the browser helper printed: the last line that is
/// not blank. A field that occurs more than once counts with its last value.
pub fn parse_credit_values_stdout(stdout: &[u8]) -> (r: Result<CreditValues, ProviderError>)
    ensures
        match printed_totals(stdout@) {
            Ok(totals) => r is Ok && r->Ok_0 == totals,
            Err(error) => r is Err && r->Err_0@ == error,
        },
{
    let text = from_utf8_lossy(stdout);
    let line = match last_full_line(text.as_str()) {
        Some(line) => line,
        None => return Err(ProviderError::NoCookies),
    };
    match parse_text(line.as_str()) {
        Err(error) => Err(
            ProviderError::Parse(concat2("Invalid b.ai browser usage response: ", error.as_str())),
        ),
        Ok(json) => match totals_from_json(&json) {
            Some(totals) => Ok(totals),
            None => Err(ProviderError::parse("Invalid b.ai browser usage response: unexpected fields")),
        },
    }
}

/// Reads the totals from a finished browser helper; one that failed found no tab.
pub fn totals_from_helper(succeeded: bool, stdout: &[u8]) -> (r: Result<CreditValues, ProviderError>)
    ensures
        match helper_totals(succeeded, stdout@) {
            Ok(totals) => r is Ok && r->Ok_0 == totals,
            Err(error) => r is Err && r->Err_0@ == error,
        },
{
    if !succeeded {
        return Err(
            ProviderError::NotInstalled(
                "No signed-in b.ai Usage/Top up tab was available through a local Chromium DevTools session. Keep https://chat.b.ai/usage open in the Converlay profile (or another Edge/Chrome profile with remote debugging enabled), then refresh CodexBar.".to_string(),
            ),
        );
    }
    parse_credit_values_stdout(stdout)
}

/// A report with any other field is refused.
pub proof fn law_reports_have_only_agreed_fields(tree: JsonTree)
    requires
        tree is Object,
        !crate::json::only_keys(tree->Object_0, report_names()),
    ensures
        totals_in(tree) is None,
{
}

/// A number that an object holds under a key.
pub open spec fn number_at(tree: JsonTree, key: Seq<char>) -> Option<crate::binary64::Binary64> {
    match tree {
        JsonTree::Object(_) => match tree.field(key) {
            Some(JsonTree::Number(n)) => n.double,
            _ => None,
        },
        _ => None,
    }
}

/// Each total of an accepted report is the number that stands under the key of the same name,
/// and a report with numbers under all six keys and no others is accepted.
pub proof fn law_totals_stand_under_their_keys(tree: JsonTree)
    requires
        tree is Object,
    ensures
        totals_in(tree) is Some ==> {
            let v = totals_in(tree)->0;
            &&& number_at(tree, "balance"@) == Some(v.balance)
            &&& number_at(tree, "bonus_remaining"@) == Some(v.bonus_remaining)
            &&& number_at(tree, "monthly_spent"@) == Some(v.monthly_spent)
            &&& number_at(tree, "purchased_total"@) == Some(v.purchased_total)
            &&& number_at(tree, "bonus_total"@) == Some(v.bonus_total)
            &&& number_at(tree, "funded_total"@) == Some(v.funded_total)
        },
        (forall|i: int|
            0 <= i < tree->Object_0.len() ==> {
                let key = (#[trigger] tree->Object_0[i]).0;
                key == "balance"@ || key == "bonus_remaining"@ || key == "monthly_spent"@ || key == "purchased_total"@ || key == "bonus_total"@ || key == "funded_total"@
            }) && number_at(tree, "balance"@) is Some && number_at(tree, "bonus_remaining"@) is Some && number_at(tree, "monthly_spent"@) is Some && number_at(tree, "purchased_total"@) is Some && number_at(tree, "bonus_total"@) is Some && number_at(tree, "funded_total"@) is Some ==> totals_in(tree) is Some,
{
    let names = report_names();
    assert(names[0] == "balance"@);
    assert(names[1] == "bonus_remaining"@);
    assert(names[2] == "monthly_spent"@);
    assert(names[3] == "purchased_total"@);
    assert(names[4] == "bonus_total"@);
    assert(names[5] == "funded_total"@);
    assert(names.len() == 6);
    crate::json::law_records_hold_their_names(tree, names, 0);
    crate::json::law_records_hold_their_names(tree, names, 1);
    crate::json::law_records_hold_their_names(tree, names, 2);
    crate::json::law_records_hold_their_names(tree, names, 3);
    crate::json::law_records_hold_their_names(tree, names, 4);
    crate::json::law_records_hold_their_names(tree, names, 5);
}

/// What the helper reports is the last line that is not blank; without any there is no session.
pub proof fn law_the_last_full_line_is_read(tree: JsonTree, line: Seq<char>)
    requires
        json_of_text(line) == Ok::<JsonTree, Seq<char>>(tree),
    ensures
        totals_in(tree) is Some ==> line_totals(Some(line)) == Ok::<CreditValues, ErrorModel>(totals_in(tree)->0),
        totals_in(tree) is None ==> line_totals(Some(line)) is Err,
        line_totals(None) == Err::<CreditValues, ErrorModel>(ErrorModel::NoCookies),
{
}

/// A helper that succeeded reports the totals on the last full line that it printed, whatever
/// stands before it; one that failed reports none, whatever it printed.
pub proof fn law_helpers_report_their_last_line(stdout: Seq<u8>, i: int)
    requires
        0 <= i < lines_of(lossy_text(stdout)).len(),
        trimmed(lines_of(lossy_text(stdout))[i]).len() > 0,
        forall|j: int|
            i < j < lines_of(lossy_text(stdout)).len() ==> trimmed(#[trigger] lines_of(lossy_text(stdout))[j]).len() == 0,
    ensures
        helper_totals(true, stdout) == line_totals(Some(trimmed(lines_of(lossy_text(stdout))[i]))),
        helper_totals(false, stdout) is Err && helper_totals(false, stdout)->Err_0 is NotInstalled,
{
    crate::text::law_the_last_full_line_is_found(lines_of(lossy_text(stdout)), i);
}

/// A line that is no JSON, or no report, is named.
pub proof fn law_odd_lines_are_named(line: Seq<char>)
    ensures
        json_of_text(line) is Err ==> line_totals(Some(line)) == Err::<CreditValues, ErrorModel>(
            ErrorModel::Parse("Invalid b.ai browser usage response: "@ + json_of_text(line)->Err_0),
        ),
        json_of_text(line) is Ok && totals_in(json_of_text(line)->Ok_0) is None ==> line_totals(Some(line)) == Err::<
            CreditValues,
            ErrorModel,
        >(ErrorModel::Parse("Invalid b.ai browser usage response: unexpected fields"@)),
{
}

} // verus!
