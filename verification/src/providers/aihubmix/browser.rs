//! Credit as a signed-in browser reports it: two numbers on a line.
use super::{credit_values, credits_of, credits_view, CreditValues};
use crate::binary64::parse::{double_of_text, parse_double};
use crate::snapshot::{ErrorModel, ProviderError};
use crate::text::{
    from_utf8_lossy, is_blank, lines, lines_of, lossy_text, split_at, split_once, texts, trim,
    trimmed,
};
use crate::binary64::{of_integer, quotient_of, Binary64};
use vstd::prelude::*;

verus! {

/// The last of some lines that holds a separator, split at the first one.
pub open spec fn last_pair(all: Seq<Seq<char>>) -> Option<(Seq<char>, Seq<char>)>
    decreases all.len(),
{
    if all.len() == 0 {
        None
    } else {
        match split_at(all.last(), '|') {
            Some(pair) => Some(pair),
            None => last_pair(all.drop_last()),
        }
    }
}

/// The credit that a pair of texts spells: the quota, and the used quota or nothing.
pub open spec fn pair_credits(pair: Option<(Seq<char>, Seq<char>)>) -> Result<CreditValues, ErrorModel> {
    match pair {
        None => Err(ErrorModel::NoCookies),
        Some((quota, used)) => match double_of_text(trimmed(quota)) {
            None => Err(ErrorModel::NoCookies),
            Some(quota) => if trimmed(used).len() == 0 {
                credits_of(quota, None, "CDP quota"@, "CDP used_quota"@)
            } else {
                match double_of_text(trimmed(used)) {
                    None => Err(ErrorModel::NoCookies),
                    Some(used) => credits_of(quota, Some(used), "CDP quota"@, "CDP used_quota"@),
                }
            },
        },
    }
}

fn find_pair(all: &Vec<String>) -> (r: Option<(String, String)>)
    ensures
        crate::text::pair_view(r) == last_pair(texts(all@)),
{
    let ghost model = texts(all@);
    let mut i: usize = all.len();
    proof {
        assert(model.take(i as int) =~= model);
    }
    while i > 0
        invariant
            i <= all@.len(),
            texts(all@) == model,
            last_pair(model) == last_pair(model.take(i as int)),
        decreases i,
    {
        proof {
            assert(model.take(i as int).last() == all@[i - 1]@);
            assert(model.take(i as int).drop_last() =~= model.take(i - 1));
        }
        if let Some(pair) = split_once(all[i - 1].as_str(), '|') {
            return Some(pair);
        }
        i = i - 1;
    }
    None
}

/// The credit that a finished helper reports.
pub open spec fn helper_credits(succeeded: bool, stdout: Seq<u8>) -> Result<CreditValues, ErrorModel> {
    if succeeded {
        pair_credits(last_pair(lines_of(lossy_text(stdout))))
    } else {
        Err(ErrorModel::NoCookies)
    }
}

/// Reads the credit from what the browser helper printed.
pub fn parse_credit_values_stdout(stdout: &[u8]) -> (r: Result<CreditValues, ProviderError>)
    ensures
        credits_view(r) == helper_credits(true, stdout@),
{
    let text = from_utf8_lossy(stdout);
    let all = lines(text.as_str());
    let (quota, used) = match find_pair(&all) {
        Some(pair) => pair,
        None => return Err(ProviderError::NoCookies),
    };
    let quota = trim(quota.as_str());
    let quota = match parse_double(quota.as_str()) {
        Some(x) => x,
        None => return Err(ProviderError::NoCookies),
    };
    let used = trim(used.as_str());
    if is_blank(used.as_str()) {
        return credit_values(quota, None, "CDP quota", "CDP used_quota");
    }
    match parse_double(used.as_str()) {
        Some(used) => credit_values(quota, Some(used), "CDP quota", "CDP used_quota"),
        None => Err(ProviderError::NoCookies),
    }
}

/// Reads the credit from a finished browser helper; one that failed found no
/// session.
pub fn credits_from_helper(succeeded: bool, stdout: &[u8]) -> (r: Result<CreditValues, ProviderError>)
    ensures
        credits_view(r) == helper_credits(succeeded, stdout@),
{
    if succeeded {
        parse_credit_values_stdout(stdout)
    } else {
        Err(ProviderError::NoCookies)
    }
}

/// The quota stands before the separator and the used quota behind it; behind it there may be
/// nothing.
pub proof fn law_the_quota_stands_first(quota: Seq<char>, used: Seq<char>, x: Binary64, y: Binary64)
    requires
        forall|i: int| 0 <= i < quota.len() ==> quota[i] != '|',
        double_of_text(trimmed(quota)) == Some(x),
        x.finite() && !x.less(of_integer(0)),
    ensures
        ({
            let line = quota.push('|') + used;
            let r = pair_credits(last_pair(seq![line]));
            &&& trimmed(used).len() == 0 ==> r is Ok && r->Ok_0.balance_usd == quotient_of(x, of_integer(500_000))
                && r->Ok_0.used_usd is None
            &&& trimmed(used).len() > 0 && double_of_text(trimmed(used)) == Some(y) && y.finite() && !y.less(
                of_integer(0),
            ) ==> r is Ok && r->Ok_0.balance_usd == quotient_of(x, of_integer(500_000)) && r->Ok_0.used_usd == Some(
                quotient_of(y, of_integer(500_000)),
            )
            &&& trimmed(used).len() > 0 && double_of_text(trimmed(used)) is None ==> r is Err
        }),
        pair_credits(None) == Err::<CreditValues, ErrorModel>(ErrorModel::NoCookies),
{
    let line = quota.push('|') + used;
    crate::text::lemma_index_of(line, '|', quota.len() as int);
    assert(line.take(quota.len() as int) =~= quota);
    assert(line.skip(quota.len() as int + 1) =~= used);
    assert(seq![line].last() == line);
}

/// The last line with a separator is read; lines behind it without one are skipped.
pub proof fn law_the_last_pair_is_read(all: Seq<Seq<char>>, i: int)
    requires
        0 <= i < all.len(),
        split_at(all[i], '|') is Some,
        forall|j: int| i < j < all.len() ==> split_at(#[trigger] all[j], '|') is None,
    ensures
        last_pair(all) == split_at(all[i], '|'),
    decreases all.len(),
{
    if i < all.len() - 1 {
        assert(split_at(all[all.len() - 1], '|') is None);
        let before = all.drop_last();
        assert(before[i] == all[i]);
        assert forall|j: int| i < j < before.len() implies split_at(#[trigger] before[j], '|') is None by {
            assert(before[j] == all[j]);
        }
        law_the_last_pair_is_read(before, i);
    }
}

/// A helper that succeeded reports the last pair that it printed; one that failed reports none,
/// whatever it printed.
pub proof fn law_helpers_report_their_last_pair(stdout: Seq<u8>, i: int)
    requires
        0 <= i < lines_of(lossy_text(stdout)).len(),
        split_at(lines_of(lossy_text(stdout))[i], '|') is Some,
        forall|j: int|
            i < j < lines_of(lossy_text(stdout)).len() ==> split_at(
                #[trigger] lines_of(lossy_text(stdout))[j],
                '|',
            ) is None,
    ensures
        helper_credits(true, stdout) == pair_credits(split_at(lines_of(lossy_text(stdout))[i], '|')),
        helper_credits(false, stdout) == Err::<CreditValues, ErrorModel>(ErrorModel::NoCookies),
{
    law_the_last_pair_is_read(lines_of(lossy_text(stdout)), i);
}

/// Amounts of a pair that cannot be shown are named by their places.
pub proof fn law_odd_pairs_are_named(quota: Seq<char>, used: Seq<char>, x: Binary64, y: Binary64)
    requires
        double_of_text(trimmed(quota)) == Some(x),
        trimmed(used).len() > 0 ==> double_of_text(trimmed(used)) == Some(y),
    ensures
        trimmed(used).len() == 0 ==> pair_credits(Some((quota, used))) == credits_of(
            x,
            None,
            "CDP quota"@,
            "CDP used_quota"@,
        ),
        trimmed(used).len() > 0 ==> pair_credits(Some((quota, used))) == credits_of(
            x,
            Some(y),
            "CDP quota"@,
            "CDP used_quota"@,
        ),
{
}

} // verus!
