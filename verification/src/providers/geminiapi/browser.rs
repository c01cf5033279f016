//! The spend page as a browser helper reports it.
use crate::bridge::{decode_spend, spend_in, GeminiApiSpendPayload, SpendModel};
use crate::json::{json_of_text, parse_text};
use crate::snapshot::{ErrorModel, ProviderError};
use crate::text::{from_utf8_lossy, lines, lines_of, lossy_text, texts, trim, trimmed};
use vstd::prelude::*;

verus! {

/// The spend that a line spells.
pub open spec fn spend_on(line: Seq<char>) -> Option<SpendModel> {
    match json_of_text(trimmed(line)) {
        Ok(tree) => spend_in(tree),
        Err(_) => None,
    }
}

/// The spend on the last of some lines that spells one.
pub open spec fn last_spend(all: Seq<Seq<char>>) -> Option<SpendModel>
    decreases all.len(),
{
    if all.len() == 0 {
        None
    } else {
        match spend_on(all.last()) {
            Some(spend) => Some(spend),
            None => last_spend(all.drop_last()),
        }
    }
}

/// The spend that printed bytes report.
pub open spec fn printed_spend(stdout: Seq<u8>) -> Option<SpendModel> {
    last_spend(lines_of(lossy_text(stdout)))
}

/// Reads the spend from what the browser helper printed. A field that occurs more
/// than once counts with its last value.
pub fn parse_spend_stdout(stdout: &[u8]) -> (r: Result<GeminiApiSpendPayload, ProviderError>)
    ensures
        match printed_spend(stdout@) {
            Some(spend) => r is Ok && r->Ok_0@ == spend,
            None => r is Err && r->Err_0@ == ErrorModel::NoCookies,
        },
{
    let text = from_utf8_lossy(stdout);
    let all = lines(text.as_str());
    let ghost model = lines_of(lossy_text(stdout@));
    let mut i: usize = all.len();
    proof {
        assert(model.take(i as int) =~= model);
    }
    while i > 0
        invariant
            i <= all@.len(),
            texts(all@) == model,
            model == lines_of(lossy_text(stdout@)),
            last_spend(model) == last_spend(model.take(i as int)),
        decreases i,
    {
        proof {
            assert(model.take(i as int).last() == all@[i - 1]@);
            assert(model.take(i as int).drop_last() =~= model.take(i - 1));
        }
        let line = trim(all[i - 1].as_str());
        if let Ok(json) = parse_text(line.as_str()) {
            if let Some(spend) = decode_spend(&json) {
                return Ok(spend);
            }
        }
        i = i - 1;
    }
    Err(ProviderError::NoCookies)
}

/// The spend is read from the last line that spells one; lines behind it that spell none are
/// skipped.
pub proof fn law_the_last_spend_is_read(all: Seq<Seq<char>>, i: int)
    requires
        0 <= i < all.len(),
        spend_on(all[i]) is Some,
        forall|j: int| i < j < all.len() ==> spend_on(#[trigger] all[j]) is None,
    ensures
        last_spend(all) == spend_on(all[i]),
    decreases all.len(),
{
    if i < all.len() - 1 {
        assert(spend_on(all[all.len() - 1]) is None);
        let before = all.drop_last();
        assert(before[i] == all[i]);
        assert forall|j: int| i < j < before.len() implies spend_on(#[trigger] before[j]) is None by {
            assert(before[j] == all[j]);
        }
        law_the_last_spend_is_read(before, i);
    }
}

/// What a helper printed reports the spend on the last line that holds one, and none where no
/// line does.
pub proof fn law_helpers_report_their_last_spend(stdout: Seq<u8>, i: int)
    requires
        0 <= i < lines_of(lossy_text(stdout)).len(),
        spend_on(lines_of(lossy_text(stdout))[i]) is Some,
        forall|j: int|
            i < j < lines_of(lossy_text(stdout)).len() ==> spend_on(#[trigger] lines_of(lossy_text(stdout))[j]) is None,
    ensures
        printed_spend(stdout) == spend_on(lines_of(lossy_text(stdout))[i]),
{
    law_the_last_spend_is_read(lines_of(lossy_text(stdout)), i);
}

} // verus!
