//! The wallet quota as a signed-in browser reports it.
use super::responses::{amount_view, check_amount, is_amount};
use crate::binary64::parse::{double_of_text, parse_double};
use crate::binary64::Binary64;
use crate::snapshot::{ErrorModel, ProviderError};
use crate::text::{from_utf8_lossy, lines, lines_of, lossy_text, texts, trim, trimmed};
use vstd::prelude::*;

verus! {

/// The number on the last of some lines that spells one.
pub open spec fn last_number(all: Seq<Seq<char>>) -> Option<Binary64>
    decreases all.len(),
{
    if all.len() == 0 {
        None
    } else {
        match double_of_text(trimmed(all.last())) {
            Some(x) => Some(x),
            None => last_number(all.drop_last()),
        }
    }
}

/// The quota that a number of output gives.
pub open spec fn quota_of_number(number: Option<Binary64>) -> Result<Binary64, ErrorModel> {
    match number {
        None => Err(ErrorModel::NoCookies),
        Some(quota) => if is_amount(quota) {
            Ok(quota)
        } else {
            Err(ErrorModel::Parse("OrcaRouter CDP wallet quota was not a finite non-negative number"@))
        },
    }
}

fn find_number(all: &Vec<String>) -> (r: Option<Binary64>)
    ensures
        r == last_number(texts(all@)),
{
    let ghost model = texts(all@);
    let mut i: usize = all.len();
    proof {
        assert(model.take(i as int) =~= model);
    }
    while i > 0
        invariant
            i <= all@.len(),
            texts(all@) == model,
            last_number(model) == last_number(model.take(i as int)),
        decreases i,
    {
        proof {
            assert(model.take(i as int).last() == all@[i - 1]@);
            assert(model.take(i as int).drop_last() =~= model.take(i - 1));
        }
        let line = trim(all[i - 1].as_str());
        if let Some(x) = parse_double(line.as_str()) {
            return Some(x);
        }
        i = i - 1;
    }
    None
}

/// The quota that a finished helper reports.
pub open spec fn helper_quota(succeeded: bool, stdout: Seq<u8>) -> Result<Binary64, ErrorModel> {
    if succeeded {
        quota_of_number(last_number(lines_of(lossy_text(stdout))))
    } else {
        Err(ErrorModel::NoCookies)
    }
}

/// Reads the quota from what the browser helper printed.
pub fn parse_wallet_quota_stdout(stdout: &[u8]) -> (r: Result<Binary64, ProviderError>)
    ensures
        amount_view(r) == helper_quota(true, stdout@),
{
    let text = from_utf8_lossy(stdout);
    let all = lines(text.as_str());
    match find_number(&all) {
        None => Err(ProviderError::NoCookies),
        Some(quota) => if check_amount(quota) {
            Ok(quota)
        } else {
            Err(ProviderError::parse("OrcaRouter CDP wallet quota was not a finite non-negative number"))
        },
    }
}

/// Reads the quota from a finished browser helper; one that failed found no
/// session.
pub fn quota_from_helper(succeeded: bool, stdout: &[u8]) -> (r: Result<Binary64, ProviderError>)
    ensures
        amount_view(r) == helper_quota(succeeded, stdout@),
{
    if succeeded {
        parse_wallet_quota_stdout(stdout)
    } else {
        Err(ProviderError::NoCookies)
    }
}

/// The quota is the number on the last line that spells one; lines behind it that spell none
/// are skipped.
pub proof fn law_the_last_number_is_read(all: Seq<Seq<char>>, i: int)
    requires
        0 <= i < all.len(),
        double_of_text(trimmed(all[i])) is Some,
        forall|j: int| i < j < all.len() ==> double_of_text(trimmed(#[trigger] all[j])) is None,
    ensures
        last_number(all) == double_of_text(trimmed(all[i])),
    decreases all.len(),
{
    if i < all.len() - 1 {
        assert(double_of_text(trimmed(all[all.len() - 1])) is None);
        let before = all.drop_last();
        assert(before[i] == all[i]);
        assert forall|j: int| i < j < before.len() implies double_of_text(trimmed(#[trigger] before[j])) is None by {
            assert(before[j] == all[j]);
        }
        law_the_last_number_is_read(before, i);
    }
}

/// An amount is the quota; without a number there is no session.
pub proof fn law_amounts_are_quotas(x: Binary64)
    ensures
        x.finite() && !x.less(crate::binary64::of_integer(0)) ==> quota_of_number(Some(x)) == Ok::<Binary64, ErrorModel>(
            x,
        ),
        !x.finite() || x.less(crate::binary64::of_integer(0)) ==> quota_of_number(Some(x)) is Err,
        quota_of_number(None) == Err::<Binary64, ErrorModel>(ErrorModel::NoCookies),
{
}

/// A helper that succeeded reports the last number that it printed; one that failed reports none,
/// whatever it printed.
pub proof fn law_helpers_report_their_last_number(stdout: Seq<u8>, i: int)
    requires
        0 <= i < lines_of(lossy_text(stdout)).len(),
        double_of_text(trimmed(lines_of(lossy_text(stdout))[i])) is Some,
        forall|j: int|
            i < j < lines_of(lossy_text(stdout)).len() ==> double_of_text(
                trimmed(#[trigger] lines_of(lossy_text(stdout))[j]),
            ) is None,
    ensures
        helper_quota(true, stdout) == quota_of_number(double_of_text(trimmed(lines_of(lossy_text(stdout))[i]))),
        helper_quota(false, stdout) == Err::<Binary64, ErrorModel>(ErrorModel::NoCookies),
{
    law_the_last_number_is_read(lines_of(lossy_text(stdout)), i);
}

/// A number that is no amount is named.
pub proof fn law_odd_quotas_are_named(x: Binary64)
    requires
        !is_amount(x),
    ensures
        quota_of_number(Some(x)) == Err::<Binary64, ErrorModel>(
            ErrorModel::Parse("OrcaRouter CDP wallet quota was not a finite non-negative number"@),
        ),
{
}

} // verus!
