//! Plan names and the labels of additional limits.
use crate::text::{
    all_kept, all_words, ascii_lowered, capitalize, capitalized, concat2, in_word, join, joined, lemma_joined_lowered,
    lemma_runs_are_words, lemma_runs_of_joined, same, texts, title_word, titleize_word, to_ascii_lowercase, words,
    words_of, WordKind,
};
use vstd::prelude::*;

verus! {

/// The name under which a plan is shown.
pub open spec fn plan_name(plan: Seq<char>) -> Seq<char> {
    if plan == "guest"@ {
        "Guest"@
    } else if plan == "free"@ {
        "ChatGPT Free"@
    } else if plan == "go"@ {
        "Codex Go"@
    } else if plan == "plus"@ {
        "ChatGPT Plus"@
    } else if plan == "pro"@ {
        "ChatGPT Pro"@
    } else if plan == "pro_lite"@ || plan == "prolite"@ || plan == "pro-lite"@ {
        "Pro Lite"@
    } else if plan == "team"@ {
        "ChatGPT Team"@
    } else if plan == "business"@ {
        "ChatGPT Business"@
    } else if plan == "enterprise"@ {
        "ChatGPT Enterprise"@
    } else if plan == "education"@ || plan == "edu"@ {
        "ChatGPT Education"@
    } else if plan == "free_workspace"@ || plan == "freeWorkspace"@ {
        "Free Workspace"@
    } else if plan == "quorum"@ {
        "Codex Quorum"@
    } else if plan == "k12"@ {
        "Codex K12"@
    } else {
        "ChatGPT "@ + capitalized(plan)
    }
}

pub fn format_plan_type(plan_type: &str) -> (r: String)
    ensures
        r@ == plan_name(plan_type@),
{
    if same(plan_type, "guest") {
        "Guest".to_string()
    } else if same(plan_type, "free") {
        "ChatGPT Free".to_string()
    } else if same(plan_type, "go") {
        "Codex Go".to_string()
    } else if same(plan_type, "plus") {
        "ChatGPT Plus".to_string()
    } else if same(plan_type, "pro") {
        "ChatGPT Pro".to_string()
    } else if same(plan_type, "pro_lite") || same(plan_type, "prolite") || same(plan_type, "pro-lite") {
        "Pro Lite".to_string()
    } else if same(plan_type, "team") {
        "ChatGPT Team".to_string()
    } else if same(plan_type, "business") {
        "ChatGPT Business".to_string()
    } else if same(plan_type, "enterprise") {
        "ChatGPT Enterprise".to_string()
    } else if same(plan_type, "education") || same(plan_type, "edu") {
        "ChatGPT Education".to_string()
    } else if same(plan_type, "free_workspace") || same(plan_type, "freeWorkspace") {
        "Free Workspace".to_string()
    } else if same(plan_type, "quorum") {
        "Codex Quorum".to_string()
    } else if same(plan_type, "k12") {
        "Codex K12".to_string()
    } else {
        let name = capitalize(plan_type);
        concat2("ChatGPT ", name.as_str())
    }
}

/// The name of a plan in a typed response.
pub open spec fn response_plan_name(plan: Seq<char>) -> Seq<char> {
    if plan == "guest"@ {
        "Guest"@
    } else if plan == "free"@ {
        "ChatGPT Free"@
    } else if plan == "go"@ {
        "ChatGPT Go"@
    } else if plan == "plus"@ {
        "ChatGPT Plus"@
    } else if plan == "pro"@ {
        "ChatGPT Pro"@
    } else if plan == "team"@ {
        "ChatGPT Team"@
    } else if plan == "business"@ {
        "ChatGPT Business"@
    } else if plan == "enterprise"@ {
        "ChatGPT Enterprise"@
    } else if plan == "education"@ || plan == "edu"@ {
        "ChatGPT Education"@
    } else {
        "ChatGPT "@ + capitalized(plan)
    }
}

pub fn format_response_plan(plan: &str) -> (r: String)
    ensures
        r@ == response_plan_name(plan@),
{
    if same(plan, "guest") {
        "Guest".to_string()
    } else if same(plan, "free") {
        "ChatGPT Free".to_string()
    } else if same(plan, "go") {
        "ChatGPT Go".to_string()
    } else if same(plan, "plus") {
        "ChatGPT Plus".to_string()
    } else if same(plan, "pro") {
        "ChatGPT Pro".to_string()
    } else if same(plan, "team") {
        "ChatGPT Team".to_string()
    } else if same(plan, "business") {
        "ChatGPT Business".to_string()
    } else if same(plan, "enterprise") {
        "ChatGPT Enterprise".to_string()
    } else if same(plan, "education") || same(plan, "edu") {
        "ChatGPT Education".to_string()
    } else {
        let name = capitalize(plan);
        concat2("ChatGPT ", name.as_str())
    }
}

/// The ASCII words of a label in lower case, with hyphens between them.
pub open spec fn slug(label: Seq<char>) -> Seq<char> {
    ascii_lowered(joined(words_of(label, WordKind::Alphanumeric), "-"@))
}

pub fn slugify(label: &str) -> (r: String)
    ensures
        r@ == slug(label@),
{
    let parts = words(label, WordKind::Alphanumeric);
    let row = join(&parts, "-");
    to_ascii_lowercase(row.as_str())
}

/// The words of a label, each with a capital, with spaces between them.
pub open spec fn title(label: Seq<char>) -> Seq<char> {
    joined(
        words_of(label, WordKind::Unseparated).map_values(|word: Seq<char>| title_word(word)),
        " "@,
    )
}

pub fn titleize_limit_label(label: &str) -> (r: String)
    ensures
        r@ == title(label@),
{
    let parts = words(label, WordKind::Unseparated);
    let mut titled: Vec<String> = Vec::new();
    let mut i: usize = 0;
    while i < parts.len()
        invariant
            i <= parts@.len(),
            titled@.len() == i,
            forall|k: int| 0 <= k < i ==> (#[trigger] titled@[k])@ == title_word(parts@[k]@),
        decreases parts@.len() - i,
    {
        titled.push(titleize_word(parts[i].as_str()));
        i = i + 1;
    }
    proof {
        assert(texts(titled@) =~= texts(parts@).map_values(|word: Seq<char>| title_word(word)));
    }
    join(&titled, " ")
}

/// The slug of a slug is the slug itself.
pub proof fn law_slugs_are_stable(label: Seq<char>)
    ensures
        slug(slug(label)) == slug(label),
{
    let keep = |c: char| in_word(WordKind::Alphanumeric, c);
    let parts = words_of(label, WordKind::Alphanumeric);
    let low = parts.map_values(|part: Seq<char>| ascii_lowered(part));
    reveal_strlit("-");
    assert("-"@ =~= seq!['-']);
    assert(ascii_lowered("-"@) =~= "-"@);
    lemma_runs_are_words(label, keep);
    lemma_joined_lowered(parts, "-"@);
    assert(all_words(low, keep)) by {
        assert forall|i: int| 0 <= i < low.len() implies (#[trigger] low[i]).len() > 0 && all_kept(low[i], keep) by {
            assert(parts[i].len() > 0 && all_kept(parts[i], keep));
            assert forall|j: int| 0 <= j < low[i].len() implies keep(#[trigger] low[i][j]) by {
                assert(keep(parts[i][j]));
            }
        }
    }
    lemma_runs_of_joined(low, '-', keep);
    assert(words_of(slug(label), WordKind::Alphanumeric) == low);
    assert(ascii_lowered(slug(label)) =~= slug(label));
}

/// Length and three characters of a plan, by which the plans can be told apart.
spec fn plan_mark(plan: Seq<char>) -> (nat, char, char, char) {
    (plan.len(), plan[0], plan[1], plan.last())
}

proof fn lemma_plan_marks()
    ensures
        plan_mark("guest"@) == (5nat, 'g', 'u', 't'),
        plan_mark("free"@) == (4nat, 'f', 'r', 'e'),
        plan_mark("go"@) == (2nat, 'g', 'o', 'o'),
        plan_mark("plus"@) == (4nat, 'p', 'l', 's'),
        plan_mark("pro"@) == (3nat, 'p', 'r', 'o'),
        plan_mark("pro_lite"@) == (8nat, 'p', 'r', 'e'),
        plan_mark("prolite"@) == (7nat, 'p', 'r', 'e'),
        plan_mark("pro-lite"@) == (8nat, 'p', 'r', 'e'),
        plan_mark("team"@) == (4nat, 't', 'e', 'm'),
        plan_mark("business"@) == (8nat, 'b', 'u', 's'),
        plan_mark("enterprise"@) == (10nat, 'e', 'n', 'e'),
        plan_mark("education"@) == (9nat, 'e', 'd', 'n'),
        plan_mark("edu"@) == (3nat, 'e', 'd', 'u'),
        plan_mark("free_workspace"@) == (14nat, 'f', 'r', 'e'),
        plan_mark("freeWorkspace"@) == (13nat, 'f', 'r', 'e'),
        plan_mark("quorum"@) == (6nat, 'q', 'u', 'm'),
        plan_mark("k12"@) == (3nat, 'k', '1', '2'),
{
    reveal_strlit("guest");
    assert(plan_mark("guest"@) == (5nat, 'g', 'u', 't'));
    reveal_strlit("free");
    assert(plan_mark("free"@) == (4nat, 'f', 'r', 'e'));
    reveal_strlit("go");
    assert(plan_mark("go"@) == (2nat, 'g', 'o', 'o'));
    reveal_strlit("plus");
    assert(plan_mark("plus"@) == (4nat, 'p', 'l', 's'));
    reveal_strlit("pro");
    assert(plan_mark("pro"@) == (3nat, 'p', 'r', 'o'));
    reveal_strlit("pro_lite");
    assert(plan_mark("pro_lite"@) == (8nat, 'p', 'r', 'e'));
    reveal_strlit("prolite");
    assert(plan_mark("prolite"@) == (7nat, 'p', 'r', 'e'));
    reveal_strlit("pro-lite");
    assert(plan_mark("pro-lite"@) == (8nat, 'p', 'r', 'e'));
    reveal_strlit("team");
    assert(plan_mark("team"@) == (4nat, 't', 'e', 'm'));
    reveal_strlit("business");
    assert(plan_mark("business"@) == (8nat, 'b', 'u', 's'));
    reveal_strlit("enterprise");
    assert(plan_mark("enterprise"@) == (10nat, 'e', 'n', 'e'));
    reveal_strlit("education");
    assert(plan_mark("education"@) == (9nat, 'e', 'd', 'n'));
    reveal_strlit("edu");
    assert(plan_mark("edu"@) == (3nat, 'e', 'd', 'u'));
    reveal_strlit("free_workspace");
    assert(plan_mark("free_workspace"@) == (14nat, 'f', 'r', 'e'));
    reveal_strlit("freeWorkspace");
    assert(plan_mark("freeWorkspace"@) == (13nat, 'f', 'r', 'e'));
    reveal_strlit("quorum");
    assert(plan_mark("quorum"@) == (6nat, 'q', 'u', 'm'));
    reveal_strlit("k12");
    assert(plan_mark("k12"@) == (3nat, 'k', '1', '2'));
}

/// The plans and the names under which they are shown.
pub proof fn law_plans_have_these_names()
    ensures
        plan_name("guest"@) == "Guest"@,
        plan_name("free"@) == "ChatGPT Free"@,
        plan_name("go"@) == "Codex Go"@,
        plan_name("plus"@) == "ChatGPT Plus"@,
        plan_name("pro"@) == "ChatGPT Pro"@,
        plan_name("pro_lite"@) == "Pro Lite"@,
        plan_name("prolite"@) == "Pro Lite"@,
        plan_name("pro-lite"@) == "Pro Lite"@,
        plan_name("team"@) == "ChatGPT Team"@,
        plan_name("business"@) == "ChatGPT Business"@,
        plan_name("enterprise"@) == "ChatGPT Enterprise"@,
        plan_name("education"@) == "ChatGPT Education"@,
        plan_name("edu"@) == "ChatGPT Education"@,
        plan_name("free_workspace"@) == "Free Workspace"@,
        plan_name("freeWorkspace"@) == "Free Workspace"@,
        plan_name("quorum"@) == "Codex Quorum"@,
        plan_name("k12"@) == "Codex K12"@,
{
    lemma_plan_marks();
}

/// The plans of typed responses and the names under which they are shown.
pub proof fn law_typed_plans_have_these_names()
    ensures
        response_plan_name("guest"@) == "Guest"@,
        response_plan_name("free"@) == "ChatGPT Free"@,
        response_plan_name("go"@) == "ChatGPT Go"@,
        response_plan_name("plus"@) == "ChatGPT Plus"@,
        response_plan_name("pro"@) == "ChatGPT Pro"@,
        response_plan_name("team"@) == "ChatGPT Team"@,
        response_plan_name("business"@) == "ChatGPT Business"@,
        response_plan_name("enterprise"@) == "ChatGPT Enterprise"@,
        response_plan_name("education"@) == "ChatGPT Education"@,
        response_plan_name("edu"@) == "ChatGPT Education"@,
{
    lemma_plan_marks();
}

/// Any other plan is shown under its own name, with a capital.
pub proof fn law_other_plans_keep_their_names(plan: Seq<char>)
    requires
        plan != "guest"@,
        plan != "free"@,
        plan != "go"@,
        plan != "plus"@,
        plan != "pro"@,
        plan != "pro_lite"@,
        plan != "prolite"@,
        plan != "pro-lite"@,
        plan != "team"@,
        plan != "business"@,
        plan != "enterprise"@,
        plan != "education"@,
        plan != "edu"@,
        plan != "free_workspace"@,
        plan != "freeWorkspace"@,
        plan != "quorum"@,
        plan != "k12"@,
    ensures
        plan_name(plan) == "ChatGPT "@ + capitalized(plan),
        response_plan_name(plan) == "ChatGPT "@ + capitalized(plan),
        plan.len() > 0 ==> capitalized(plan) == crate::text::uppercase_text(plan.first()) + plan.drop_first(),
{
}

/// A slug holds the words of its label in their order, in small letters.
pub proof fn law_slugs_keep_their_words(label: Seq<char>)
    ensures
        words_of(slug(label), WordKind::Alphanumeric) == words_of(label, WordKind::Alphanumeric).map_values(
            |word: Seq<char>| ascii_lowered(word),
        ),
{
    let keep = |c: char| in_word(WordKind::Alphanumeric, c);
    let parts = words_of(label, WordKind::Alphanumeric);
    let low = parts.map_values(|part: Seq<char>| ascii_lowered(part));
    reveal_strlit("-");
    assert("-"@ =~= seq!['-']);
    assert(ascii_lowered("-"@) =~= "-"@);
    lemma_runs_are_words(label, keep);
    lemma_joined_lowered(parts, "-"@);
    assert(all_words(low, keep)) by {
        assert forall|i: int| 0 <= i < low.len() implies (#[trigger] low[i]).len() > 0 && all_kept(low[i], keep) by {
            assert(parts[i].len() > 0 && all_kept(parts[i], keep));
            assert forall|j: int| 0 <= j < low[i].len() implies keep(#[trigger] low[i][j]) by {
                assert(keep(parts[i][j]));
            }
        }
    }
    lemma_runs_of_joined(low, '-', keep);
}

/// A label of one word is that word with a capital and small letters behind it, and a label of
/// several is the row of them with spaces between.
pub proof fn law_titles_are_rows_of_words(words: Seq<Seq<char>>, separator: char)
    requires
        separator == '_' || separator == '-' || separator == ' ',
        all_words(words, |c: char| in_word(WordKind::Unseparated, c)),
    ensures
        title(joined(words, seq![separator])) == joined(
            words.map_values(|word: Seq<char>| title_word(word)),
            " "@,
        ),
{
    lemma_runs_of_joined(words, separator, |c: char| in_word(WordKind::Unseparated, c));
}

} // verus!
