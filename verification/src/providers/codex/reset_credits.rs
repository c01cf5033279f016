//! Reset credits: how many there are and when the next one expires.
use crate::json::{
    check_record, is_record, item_trees, json_of_bytes, member, member_of, optional_field,
    parse_bytes, read_optional_text, read_word, text_field, text_view, word_field, Json, JsonTree,
};
use crate::snapshot::{
    informational_window, named_window, ErrorModel, ProviderError, RateWindow, UsageModel, UsageSnapshot,
    WindowModel,
};
use crate::text::{
    ascii_lowered, concat2, concat4, decimal, decimal_of, eq_ignore_ascii_case, is_blank,
};
use crate::timestamp::{parse_rfc3339, rfc3339_instant, Timestamp};
use vstd::prelude::*;

verus! {

#[derive(Debug)]
pub struct ResetCredit {
    pub id: Option<String>,
    pub reset_type: Option<String>,
    pub status: Option<String>,
    pub expires_at: Option<String>,
}

/// What a [`ResetCredit`] says.
pub ghost struct CreditModel {
    pub id: Option<Seq<char>>,
    pub reset_type: Option<Seq<char>>,
    pub status: Option<Seq<char>>,
    pub expires_at: Option<Seq<char>>,
}

impl View for ResetCredit {
    type V = CreditModel;

    open spec fn view(&self) -> CreditModel {
        CreditModel {
            id: text_view(self.id),
            reset_type: text_view(self.reset_type),
            status: text_view(self.status),
            expires_at: text_view(self.expires_at),
        }
    }
}

#[derive(Debug)]
pub struct ResetCredits {
    pub credits: Vec<ResetCredit>,
    pub available_count: u32,
}

/// What [`ResetCredits`] say.
pub ghost struct CreditsModel {
    pub credits: Seq<CreditModel>,
    pub available_count: u32,
}

pub open spec fn credit_views(credits: Seq<ResetCredit>) -> Seq<CreditModel> {
    credits.map_values(|c: ResetCredit| c@)
}

impl View for ResetCredits {
    type V = CreditsModel;

    open spec fn view(&self) -> CreditsModel {
        CreditsModel { credits: credit_views(self.credits@), available_count: self.available_count }
    }
}

/// A credit without a status counts as available.
pub open spec fn is_available(credit: CreditModel) -> bool {
    match credit.status {
        Some(status) => status.len() == 0 || ascii_lowered(status) == ascii_lowered("available"@),
        None => true,
    }
}

pub fn is_available_credit(credit: &ResetCredit) -> (r: bool)
    ensures
        r == is_available(credit@),
{
    match &credit.status {
        Some(status) => is_blank(status.as_str()) || eq_ignore_ascii_case(status.as_str(), "available"),
        None => true,
    }
}

/// When an available credit expires, if that lies ahead.
pub open spec fn expiry_of(credit: CreditModel, now: Timestamp) -> Option<Timestamp> {
    if is_available(credit) && credit.expires_at is Some {
        match rfc3339_instant(credit.expires_at->0) {
            Ok(t) => if now.before(t) {
                Some(t)
            } else {
                None
            },
            Err(_) => None,
        }
    } else {
        None
    }
}

/// When the first of some available credits expires.
pub open spec fn soonest_expiry(credits: Seq<CreditModel>, now: Timestamp) -> Option<Timestamp>
    decreases credits.len(),
{
    if credits.len() == 0 {
        None
    } else {
        match (soonest_expiry(credits.drop_last(), now), expiry_of(credits.last(), now)) {
            (None, t) => t,
            (Some(best), Some(t)) => if t.before(best) {
                Some(t)
            } else {
                Some(best)
            },
            (Some(best), None) => Some(best),
        }
    }
}

pub fn next_available_reset_credit_expiry(credits: &Vec<ResetCredit>, now: Timestamp) -> (r: Option<Timestamp>)
    ensures
        r == soonest_expiry(credit_views(credits@), now),
{
    let ghost all = credit_views(credits@);
    let mut best: Option<Timestamp> = None;
    let mut i: usize = 0;
    proof {
        assert(all.take(0) =~= Seq::<CreditModel>::empty());
    }
    while i < credits.len()
        invariant
            i <= credits@.len(),
            all == credit_views(credits@),
            best == soonest_expiry(all.take(i as int), now),
        decreases credits@.len() - i,
    {
        proof {
            assert(all.take(i + 1).drop_last() =~= all.take(i as int));
            assert(all.take(i + 1).last() == credits@[i as int]@);
        }
        if is_available_credit(&credits[i]) {
            if let Some(text) = &credits[i].expires_at {
                if let Ok(t) = parse_rfc3339(text.as_str()) {
                    if now.is_before(t) {
                        let sooner = match best {
                            Some(b) => t.is_before(b),
                            None => true,
                        };
                        if sooner {
                            best = Some(t);
                        }
                    }
                }
            }
        }
        i = i + 1;
    }
    proof {
        assert(all.take(i as int) =~= all);
    }
    best
}

/// The window that shows how many credits there are.
pub open spec fn credits_window(reset: CreditsModel, now: Timestamp) -> WindowModel {
    let plural = if reset.available_count == 1 { ""@ } else { "s"@ };
    WindowModel {
        resets_at: soonest_expiry(reset.credits, now),
        ..informational_window(
            decimal(reset.available_count as nat) + " reset credit"@ + plural + " available"@,
        )
    }
}

pub fn reset_credits_rate_window(reset: &ResetCredits, now: Timestamp) -> (r: RateWindow)
    ensures
        r@ == credits_window(reset@, now),
{
    let count = decimal_of(reset.available_count as u128);
    let plural = if reset.available_count == 1 { "" } else { "s" };
    let description = concat4(count.as_str(), " reset credit", plural, " available");
    let mut window = RateWindow::informational(description);
    window.resets_at = next_available_reset_credit_expiry(&reset.credits, now);
    window
}

/// A snapshot with its reset credits, where there are any to show.
pub open spec fn usage_with_credits(usage: UsageModel, reset: Option<CreditsModel>, now: Timestamp) -> UsageModel {
    match reset {
        Some(reset) => if reset.available_count > 0 {
            UsageModel {
                extra_rate_windows: usage.extra_rate_windows.push(
                    named_window("reset-credits"@, "Reset credits"@, credits_window(reset, now)),
                ),
                ..usage
            }
        } else {
            usage
        },
        None => usage,
    }
}

pub open spec fn credits_view(reset: Option<ResetCredits>) -> Option<CreditsModel> {
    match reset {
        Some(reset) => Some(reset@),
        None => None,
    }
}

/// Attaches the reset credits to a snapshot.
pub fn attach_reset_credits(usage: UsageSnapshot, reset: &Option<ResetCredits>, now: Timestamp) -> (r: UsageSnapshot)
    ensures
        r@ == usage_with_credits(usage@, credits_view(*reset), now),
{
    if let Some(reset) = reset {
        if reset.available_count > 0 {
            let window = reset_credits_rate_window(reset, now);
            return usage.with_extra_rate_window("reset-credits", "Reset credits", window);
        }
    }
    usage
}

/// The credit that a value spells. The type of reset may go by either of two names,
/// but not by both.
pub open spec fn credit_of(tree: JsonTree) -> Option<CreditModel> {
    let id = member(tree, "id"@, 0);
    let plain = member(tree, "reset_type"@, 1);
    let camel = tree.field("resetType"@);
    let reset_type = if plain is Some { plain } else { camel };
    let status = member(tree, "status"@, 2);
    let expires_at = member(tree, "expires_at"@, 3);
    if !is_record(tree, 4) || (plain is Some && camel is Some) {
        None
    } else {
        match (
            optional_field(id, text_field(id)),
            optional_field(reset_type, text_field(reset_type)),
            optional_field(status, text_field(status)),
            optional_field(expires_at, text_field(expires_at)),
        ) {
            (Some(id), Some(reset_type), Some(status), Some(expires_at)) => Some(
                CreditModel { id, reset_type, status, expires_at },
            ),
            _ => None,
        }
    }
}

pub open spec fn credit_view(c: Option<ResetCredit>) -> Option<CreditModel> {
    match c {
        Some(c) => Some(c@),
        None => None,
    }
}

fn decode_credit(json: &Json) -> (r: Option<ResetCredit>)
    ensures
        credit_view(r) == credit_of(json.tree()),
{
    if !check_record(json, 4) {
        return None;
    }
    let plain = member_of(json, "reset_type", 1);
    let camel = json.get("resetType");
    if plain.is_some() && camel.is_some() {
        return None;
    }
    let reset_type = if plain.is_some() { plain } else { camel };
    match (
        read_optional_text(member_of(json, "id", 0)),
        read_optional_text(reset_type),
        read_optional_text(member_of(json, "status", 2)),
        read_optional_text(member_of(json, "expires_at", 3)),
    ) {
        (Some(id), Some(reset_type), Some(status), Some(expires_at)) => Some(
            ResetCredit { id, reset_type, status, expires_at },
        ),
        _ => None,
    }
}

/// The credits that a list spells, if every element spells one.
pub open spec fn credit_list(items: Seq<JsonTree>) -> Option<Seq<CreditModel>>
    decreases items.len(),
{
    if items.len() == 0 {
        Some(Seq::empty())
    } else {
        match (credit_list(items.drop_last()), credit_of(items.last())) {
            (Some(before), Some(credit)) => Some(before.push(credit)),
            _ => None,
        }
    }
}

pub proof fn lemma_credit_list_prefix(items: Seq<JsonTree>, n: int)
    requires
        0 <= n <= items.len(),
        credit_list(items.take(n)) is None,
    ensures
        credit_list(items) is None,
    decreases items.len(),
{
    if n < items.len() {
        assert(items.drop_last().take(n) =~= items.take(n));
        lemma_credit_list_prefix(items.drop_last(), n);
    } else {
        assert(items.take(n) =~= items);
    }
}

fn decode_credit_list(items: &Vec<Json>) -> (r: Option<Vec<ResetCredit>>)
    ensures
        match r {
            Some(credits) => credit_list(item_trees(items@)) == Some(credit_views(credits@)),
            None => credit_list(item_trees(items@)) is None,
        },
{
    let ghost all = item_trees(items@);
    let mut credits: Vec<ResetCredit> = Vec::new();
    let mut i: usize = 0;
    proof {
        assert(all.take(0) =~= Seq::<JsonTree>::empty());
        assert(credit_views(credits@) =~= Seq::<CreditModel>::empty());
    }
    while i < items.len()
        invariant
            i <= items@.len(),
            all == item_trees(items@),
            credit_list(all.take(i as int)) == Some(credit_views(credits@)),
        decreases items@.len() - i,
    {
        let ghost before = credit_views(credits@);
        proof {
            assert(all.take(i + 1).drop_last() =~= all.take(i as int));
            assert(all.take(i + 1).last() == items@[i as int].tree());
        }
        match decode_credit(&items[i]) {
            Some(credit) => {
                credits.push(credit);
                proof {
                    assert(credit_views(credits@) =~= before.push(credit@));
                }
            },
            None => {
                proof {
                    lemma_credit_list_prefix(all, i + 1);
                }
                return None;
            },
        }
        i = i + 1;
    }
    proof {
        assert(all.take(i as int) =~= all);
    }
    Some(credits)
}

/// The credits that an answer spells; what is absent counts as none.
pub open spec fn credits_of(tree: JsonTree) -> Option<CreditsModel> {
    let list = member(tree, "credits"@, 0);
    let count = member(tree, "available_count"@, 1);
    let credits = match list {
        None => Some(Seq::empty()),
        Some(JsonTree::Array(items)) => credit_list(items),
        _ => None,
    };
    let available = match count {
        None => Some(0u32),
        Some(_) => word_field(count),
    };
    if !is_record(tree, 2) {
        None
    } else {
        match (credits, available) {
            (Some(credits), Some(available_count)) => Some(CreditsModel { credits, available_count }),
            _ => None,
        }
    }
}

/// Reads the credits of a JSON value.
pub fn credits_from_json(json: &Json) -> (r: Option<ResetCredits>)
    ensures
        credits_view(r) == credits_of(json.tree()),
{
    if !check_record(json, 2) {
        return None;
    }
    let credits: Vec<ResetCredit> = match member_of(json, "credits", 0) {
        None => {
            let none: Vec<ResetCredit> = Vec::new();
            proof {
                assert(credit_views(none@) =~= Seq::<CreditModel>::empty());
            }
            none
        },
        Some(list) => match list {
            Json::Array(items) => {
                proof {
                    assert(list.tree()->Array_0 =~= item_trees(items@));
                }
                match decode_credit_list(items) {
                    Some(credits) => credits,
                    None => return None,
                }
            },
            _ => return None,
        },
    };
    let count = member_of(json, "available_count", 1);
    let available_count: u32 = match count {
        None => 0,
        Some(_) => match read_word(count) {
            Some(n) => n,
            None => return None,
        },
    };
    Some(ResetCredits { credits, available_count })
}

/// Reads the credits of an answer. A field that occurs more than once counts with
/// its last value.
pub fn decode_reset_credits(data: &[u8]) -> (r: Result<ResetCredits, ProviderError>)
    ensures
        match json_of_bytes(data@) {
            Err(error) => r is Err && r->Err_0@ == ErrorModel::Parse(
                "Failed to parse Codex reset credits: "@ + error,
            ),
            Ok(tree) => match credits_of(tree) {
                Some(credits) => r is Ok && r->Ok_0@ == credits,
                None => r is Err && r->Err_0@ == ErrorModel::Parse(
                    "Failed to parse Codex reset credits: unexpected fields"@,
                ),
            },
        },
{
    match parse_bytes(data) {
        Err(error) => Err(
            ProviderError::Parse(concat2("Failed to parse Codex reset credits: ", error.as_str())),
        ),
        Ok(json) => match credits_from_json(&json) {
            Some(credits) => Ok(credits),
            None => Err(ProviderError::parse("Failed to parse Codex reset credits: unexpected fields")),
        },
    }
}

/// No available credit expires before the one that is shown, and the one that is
/// shown lies ahead.
pub proof fn law_shown_expiry_is_the_soonest(credits: Seq<CreditModel>, now: Timestamp, i: int)
    requires
        0 <= i < credits.len(),
        expiry_of(credits[i], now) is Some,
    ensures
        soonest_expiry(credits, now) is Some,
        !expiry_of(credits[i], now)->0.before(soonest_expiry(credits, now)->0),
        now.before(soonest_expiry(credits, now)->0),
    decreases credits.len(),
{
    if i < credits.len() - 1 {
        assert(credits.drop_last()[i] == credits[i]);
        law_shown_expiry_is_the_soonest(credits.drop_last(), now, i);
    } else {
        lemma_expiry_lies_ahead(credits.drop_last(), now);
    }
}

proof fn lemma_expiry_lies_ahead(credits: Seq<CreditModel>, now: Timestamp)
    ensures
        soonest_expiry(credits, now) is Some ==> now.before(soonest_expiry(credits, now)->0),
    decreases credits.len(),
{
    if credits.len() > 0 {
        lemma_expiry_lies_ahead(credits.drop_last(), now);
    }
}

/// The text that an object holds under a key.
pub open spec fn text_at(tree: JsonTree, key: Seq<char>) -> Option<Seq<char>> {
    match tree.field(key) {
        Some(JsonTree::Text(s)) => Some(s),
        _ => None,
    }
}

/// A credit is what stands under its keys; what is left out or null is none.
pub proof fn law_credits_stand_under_their_keys(tree: JsonTree)
    requires
        tree is Object,
        credit_of(tree) is Some,
    ensures
        ({
            let credit = credit_of(tree)->0;
            &&& credit.id == text_at(tree, "id"@)
            &&& credit.status == text_at(tree, "status"@)
            &&& credit.expires_at == text_at(tree, "expires_at"@)
            &&& tree.field("resetType"@) is None ==> credit.reset_type == text_at(tree, "reset_type"@)
            &&& tree.field("reset_type"@) is None ==> credit.reset_type == text_at(tree, "resetType"@)
        }),
{
}

/// An answer gives its count and one credit for each element of its list, in their order; what
/// is left out counts as none.
pub proof fn law_answers_list_their_credits(tree: JsonTree, i: int)
    requires
        tree is Object,
        credits_of(tree) is Some,
    ensures
        ({
            let reset = credits_of(tree)->0;
            let list = tree.field("credits"@);
            let count = tree.field("available_count"@);
            &&& count is None ==> reset.available_count == 0
            &&& count is Some ==> count->0.natural() == Some(reset.available_count as u64)
            &&& list is None ==> reset.credits.len() == 0
            &&& list is Some ==> list->0 is Array && reset.credits.len() == list->0->Array_0.len()
            &&& list is Some && 0 <= i < reset.credits.len() ==> credit_of(list->0->Array_0[i]) == Some(
                reset.credits[i],
            )
        }),
{
    if tree.field("credits"@) is Some {
        lemma_credits_each(tree.field("credits"@)->0->Array_0, i);
    }
}

proof fn lemma_credits_each(items: Seq<JsonTree>, i: int)
    requires
        credit_list(items) is Some,
    ensures
        credit_list(items)->0.len() == items.len(),
        0 <= i < items.len() ==> credit_of(items[i]) == Some(credit_list(items)->0[i]),
    decreases items.len(),
{
    if items.len() > 0 {
        lemma_credits_each(items.drop_last(), i);
        if 0 <= i < items.len() - 1 {
            assert(items.drop_last()[i] == items[i]);
        }
    }
}

/// A credit can be used where it says so or says nothing, and its expiry counts while it lies
/// ahead.
pub proof fn law_available_credits_expire(credit: CreditModel, now: Timestamp)
    ensures
        credit.status is None ==> is_available(credit),
        credit.status == Some("available"@) ==> is_available(credit),
        credit.status is Some && credit.status->0.len() > 0 && ascii_lowered(credit.status->0) != ascii_lowered(
            "available"@,
        ) ==> !is_available(credit),
        !is_available(credit) || credit.expires_at is None ==> expiry_of(credit, now) is None,
        is_available(credit) && credit.expires_at is Some && rfc3339_instant(credit.expires_at->0) is Ok ==> {
            let t = rfc3339_instant(credit.expires_at->0)->Ok_0;
            &&& now.before(t) ==> expiry_of(credit, now) == Some(t)
            &&& !now.before(t) ==> expiry_of(credit, now) is None
        },
{
}

/// The shown expiry is one of the expiries.
pub proof fn law_the_shown_expiry_is_an_expiry(credits: Seq<CreditModel>, now: Timestamp)
    requires
        soonest_expiry(credits, now) is Some,
    ensures
        exists|i: int|
            0 <= i < credits.len() && expiry_of(#[trigger] credits[i], now) == soonest_expiry(credits, now),
    decreases credits.len(),
{
    let rest = credits.drop_last();
    if soonest_expiry(rest, now) is Some {
        law_the_shown_expiry_is_an_expiry(rest, now);
        let i = choose|i: int| 0 <= i < rest.len() && expiry_of(#[trigger] rest[i], now) == soonest_expiry(rest, now);
        assert(credits[i] == rest[i]);
    }
    assert(credits[credits.len() - 1] == credits.last());
    if expiry_of(credits.last(), now) == soonest_expiry(credits, now) {
        assert(expiry_of(credits[credits.len() - 1], now) == soonest_expiry(credits, now));
    }
}

/// The window of the credits names how many there are, in the singular for one, and shows when
/// the next of them expires. It is attached under its own name where there are any.
pub proof fn law_credits_are_shown_by_their_number(usage: UsageModel, reset: CreditsModel, now: Timestamp)
    ensures
        ({
            let window = credits_window(reset, now);
            let shown = usage_with_credits(usage, Some(reset), now);
            let n = usage.extra_rate_windows.len() as int;
            &&& window.is_informational && window.resets_at == soonest_expiry(reset.credits, now)
            &&& reset.available_count == 1 ==> window.reset_description == Some(
                decimal(1) + " reset credit"@ + ""@ + " available"@,
            )
            &&& reset.available_count != 1 ==> window.reset_description == Some(
                decimal(reset.available_count as nat) + " reset credit"@ + "s"@ + " available"@,
            )
            &&& reset.available_count > 0 ==> {
                &&& shown.extra_rate_windows.len() == n + 1
                &&& shown.extra_rate_windows[n].id == "reset-credits"@
                &&& shown.extra_rate_windows[n].title == "Reset credits"@
                &&& shown.extra_rate_windows[n].window == window
                &&& forall|i: int| 0 <= i < n ==> #[trigger] shown.extra_rate_windows[i] == usage.extra_rate_windows[i]
                &&& shown.primary == usage.primary && shown.secondary == usage.secondary
                &&& shown.tertiary == usage.tertiary && shown.model_specific == usage.model_specific
                &&& shown.login_method == usage.login_method && shown.account_email == usage.account_email
                &&& shown.updated_at == usage.updated_at
            }
            &&& reset.available_count == 0 ==> shown == usage
            &&& usage_with_credits(usage, None, now) == usage
        }),
{
}

/// A field that is left out, null or a text.
pub open spec fn may_be_text(field: Option<JsonTree>) -> bool {
    field is None || field->0 == JsonTree::Null || field->0 is Text
}

/// A credit is read wherever each of its fields is left out, null or a text, and its type goes by
/// one name alone; it may be written as a row of its four values.
pub proof fn law_complete_credits_are_read(
    tree: JsonTree,
    id: JsonTree,
    kind: JsonTree,
    status: JsonTree,
    expires: JsonTree,
)
    requires
        tree is Object,
    ensures
        credit_of(tree) is Some <==> {
            &&& may_be_text(tree.field("id"@)) && may_be_text(tree.field("status"@))
            &&& may_be_text(tree.field("expires_at"@))
            &&& may_be_text(tree.field("reset_type"@)) && may_be_text(tree.field("resetType"@))
            &&& tree.field("reset_type"@) is None || tree.field("resetType"@) is None
        },
        tree.field("id"@) == Some(id) && tree.field("reset_type"@) == Some(kind) && tree.field("status"@) == Some(status)
            && tree.field("expires_at"@) == Some(expires) && tree.field("resetType"@) is None ==> credit_of(
            JsonTree::Array(seq![id, kind, status, expires]),
        ) == credit_of(tree),
        credit_of(JsonTree::Array(seq![id, kind, status, expires, expires])) is None,
{
    let row = seq![id, kind, status, expires];
    assert(row.len() == 4 && row[0] == id && row[1] == kind && row[2] == status && row[3] == expires);
    assert(seq![id, kind, status, expires, expires].len() == 5);
}

/// An answer is read wherever its list holds nothing but credits and its count is a small natural
/// number, each of which may be left out; it may be written as a row of the two.
pub proof fn law_complete_answers_are_read(tree: JsonTree, list: JsonTree, count: JsonTree)
    requires
        tree is Object,
    ensures
        credits_of(tree) is Some <==> {
            let list = tree.field("credits"@);
            let count = tree.field("available_count"@);
            &&& list is Some ==> list->0 is Array && forall|i: int|
                0 <= i < list->0->Array_0.len() ==> credit_of(#[trigger] list->0->Array_0[i]) is Some
            &&& count is Some ==> count->0.natural() is Some && count->0.natural()->0 <= u32::MAX
        },
        tree.field("credits"@) == Some(list) && tree.field("available_count"@) == Some(count) ==> credits_of(
            JsonTree::Array(seq![list, count]),
        ) == credits_of(tree),
        credits_of(JsonTree::Array(seq![list, count, count])) is None,
{
    let row = seq![list, count];
    assert(row.len() == 2 && row[0] == list && row[1] == count);
    assert(seq![list, count, count].len() == 3);
    if tree.field("credits"@) is Some && tree.field("credits"@)->0 is Array {
        lemma_credits_all(tree.field("credits"@)->0->Array_0);
    }
}

proof fn lemma_credits_all(items: Seq<JsonTree>)
    ensures
        credit_list(items) is Some <==> forall|i: int|
            0 <= i < items.len() ==> credit_of(#[trigger] items[i]) is Some,
    decreases items.len(),
{
    if items.len() > 0 {
        let rest = items.drop_last();
        lemma_credits_all(rest);
        assert(forall|i: int| 0 <= i < rest.len() ==> rest[i] == #[trigger] items[i]);
        assert(items.last() == items[items.len() - 1]);
        if forall|i: int| 0 <= i < items.len() ==> credit_of(#[trigger] items[i]) is Some {
            assert forall|i: int| 0 <= i < rest.len() implies credit_of(#[trigger] rest[i]) is Some by {
                assert(rest[i] == items[i]);
            }
        }
        if credit_list(items) is Some {
            assert forall|i: int| 0 <= i < items.len() implies credit_of(#[trigger] items[i]) is Some by {
                if i < rest.len() {
                    assert(rest[i] == items[i]);
                }
            }
        }
    }
}

} // verus!
