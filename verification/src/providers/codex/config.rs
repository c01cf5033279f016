//! The Codex configuration file and the backend that it names.
use crate::snapshot::{ErrorModel, ProviderError};
use crate::text::{
    ascii_lowered, before_char, chars_of, concat2, contains, contains_text, eq_ignore_ascii_case, index_of, is_blank,
    lines, lines_of, same, slice_to_string, split_at, split_once, starts_with, strip_end, strip_start, texts, trim,
    trim_char, trim_end_char, trimmed,
};
use vstd::prelude::*;

verus! {

pub const DEFAULT_BASE_URL: &'static str = "https://chatgpt.com/backend-api";

/// The Codex home that is set: an explicit one, else that of the environment
/// unless it is blank.
pub open spec fn home_setting(explicit: Option<Seq<char>>, environment: Option<Seq<char>>) -> Option<Seq<char>> {
    match (explicit, environment) {
        (Some(home), _) => Some(home),
        (None, Some(home)) => if trimmed(home).len() > 0 {
            Some(trimmed(home))
        } else {
            None
        },
        (None, None) => None,
    }
}

/// The Codex home that is set; where none is, the default directory is used.
pub fn codex_home(explicit: Option<String>, environment: Option<String>) -> (r: Option<String>)
    ensures
        crate::json::text_view(r) == home_setting(
            crate::json::text_view(explicit),
            crate::json::text_view(environment),
        ),
{
    match (explicit, environment) {
        (Some(home), _) => Some(home),
        (None, Some(home)) => {
            let t = trim(home.as_str());
            if is_blank(t.as_str()) {
                None
            } else {
                Some(t)
            }
        },
        (None, None) => None,
    }
}

/// A line selects a model provider that is not OpenAI.
pub open spec fn selects_other_provider(line: Seq<char>) -> bool {
    match split_at(trimmed(line), '=') {
        Some((key, value)) => {
            let provider = unquoted_all(trimmed(value));
            &&& ascii_lowered(trimmed(key)) == ascii_lowered("model_provider"@)
            &&& provider.len() > 0
            &&& ascii_lowered(provider) != ascii_lowered("openai"@)
        },
        None => false,
    }
}

/// A value without any quotation marks around it.
pub open spec fn unquoted_all(value: Seq<char>) -> Seq<char> {
    let inner = strip_end(strip_start(value, '"'), '"');
    strip_end(strip_start(inner, '\''), '\'')
}

fn line_selects_other_provider(line: &str) -> (r: bool)
    ensures
        r == selects_other_provider(line@),
{
    let t = trim(line);
    match split_once(t.as_str(), '=') {
        Some((key, value)) => {
            let key = trim(key.as_str());
            let value = trim(value.as_str());
            let value = trim_char(value.as_str(), '"');
            let value = trim_char(value.as_str(), '\'');
            eq_ignore_ascii_case(key.as_str(), "model_provider") && !is_blank(value.as_str())
                && !eq_ignore_ascii_case(value.as_str(), "openai")
        },
        None => false,
    }
}

/// Some line of a configuration selects a model provider that is not OpenAI.
pub open spec fn other_provider(config: Seq<char>) -> bool {
    exists|i: int| 0 <= i < lines_of(config).len() && selects_other_provider(#[trigger] lines_of(config)[i])
}

pub fn config_uses_non_chatgpt_provider(config: &str) -> (r: bool)
    ensures
        r == other_provider(config@),
{
    let all = lines(config);
    let ghost model = lines_of(config@);
    let mut i: usize = 0;
    while i < all.len()
        invariant
            i <= all@.len(),
            texts(all@) == model,
            model == lines_of(config@),
            forall|k: int| 0 <= k < i ==> !selects_other_provider(#[trigger] model[k]),
        decreases all@.len() - i,
    {
        assert(model[i as int] == all@[i as int]@);
        if line_selects_other_provider(all[i].as_str()) {
            return true;
        }
        i = i + 1;
    }
    false
}

/// The raw value that a line gives to the base URL; what follows a `#` is a comment.
pub open spec fn base_url_on(line: Seq<char>) -> Option<Seq<char>> {
    match split_at(trimmed(line.take(index_of(line, '#'))), '=') {
        Some((key, value)) => if trimmed(key) == "chatgpt_base_url"@ {
            Some(trimmed(value))
        } else {
            None
        },
        None => None,
    }
}

fn line_base_url(line: &str) -> (r: Option<String>)
    ensures
        crate::json::text_view(r) == base_url_on(line@),
{
    let code = before_char(line, '#');
    let code = trim(code.as_str());
    match split_once(code.as_str(), '=') {
        Some((key, value)) => {
            let key = trim(key.as_str());
            if same(key.as_str(), "chatgpt_base_url") {
                Some(trim(value.as_str()))
            } else {
                None
            }
        },
        None => None,
    }
}

/// The raw value that the first of some lines to set it gives to the base URL.
pub open spec fn base_url_in(lines: Seq<Seq<char>>) -> Option<Seq<char>>
    decreases lines.len(),
{
    if lines.len() == 0 {
        None
    } else {
        match base_url_on(lines.first()) {
            Some(value) => Some(value),
            None => base_url_in(lines.drop_first()),
        }
    }
}

/// A value within a pair of equal quotation marks.
pub open spec fn is_quoted(value: Seq<char>) -> bool {
    value.len() > 0 && value.first() == value.last() && (value.first() == '"' || value.first() == '\'')
}

/// The value that a configuration gives to the base URL, without quotation marks.
pub open spec fn base_url_setting(config: Seq<char>) -> Option<Seq<char>> {
    match base_url_in(lines_of(config)) {
        Some(value) => Some(
            trimmed(
                if is_quoted(value) {
                    value.subrange(1, value.len() - 1)
                } else {
                    value
                },
            ),
        ),
        None => None,
    }
}

/// The base URL is set to a single quotation mark, which quotes nothing.
pub open spec fn dangling_quote(config: Seq<char>) -> bool {
    match base_url_in(lines_of(config)) {
        Some(value) => is_quoted(value) && value.len() == 1,
        None => false,
    }
}

fn find_base_url(config: &str) -> (r: Option<String>)
    ensures
        crate::json::text_view(r) == base_url_in(lines_of(config@)),
{
    let all = lines(config);
    let ghost model = lines_of(config@);
    let mut i: usize = 0;
    proof {
        assert(model.skip(0) =~= model);
    }
    while i < all.len()
        invariant
            i <= all@.len(),
            texts(all@) == model,
            model == lines_of(config@),
            base_url_in(model) == base_url_in(model.skip(i as int)),
        decreases all@.len() - i,
    {
        proof {
            assert(model[i as int] == all@[i as int]@);
            assert(model.skip(i as int).first() == model[i as int]);
            assert(model.skip(i as int).drop_first() =~= model.skip(i + 1));
        }
        if let Some(value) = line_base_url(all[i].as_str()) {
            return Some(value);
        }
        i = i + 1;
    }
    None
}

/// Tells whether the base URL is set to a single quotation mark.
pub fn has_dangling_quote(config: &str) -> (r: bool)
    ensures
        r == dangling_quote(config@),
{
    match find_base_url(config) {
        Some(value) => {
            let v = chars_of(value.as_str());
            v.len() == 1 && (v[0] == '"' || v[0] == '\'')
        },
        None => false,
    }
}

/// The value that a configuration gives to the base URL.
pub fn parse_chatgpt_base_url(config: &str) -> (r: Option<String>)
    requires
        !dangling_quote(config@),
    ensures
        crate::json::text_view(r) == base_url_setting(config@),
{
    let value = match find_base_url(config) {
        Some(value) => value,
        None => return None,
    };
    let v = chars_of(value.as_str());
    let n: usize = v.len();
    if n > 0 && v[0] == v[n - 1] && (v[0] == '"' || v[0] == '\'') {
        let inner = slice_to_string(&v, 1, n - 1);
        Some(trim(inner.as_str()))
    } else {
        Some(trim(value.as_str()))
    }
}

/// A base URL in the form in which paths are appended to it.
pub open spec fn normalized_url(url: Seq<char>) -> Seq<char> {
    let bare = strip_end(trimmed(url), '/');
    if trimmed(url).len() == 0 {
        "https://chatgpt.com/backend-api"@
    } else if ("https://chatgpt.com"@.is_prefix_of(bare) || "https://chat.openai.com"@.is_prefix_of(bare))
        && !contains(bare, "/backend-api"@) {
        bare + "/backend-api"@
    } else {
        bare
    }
}

pub fn normalize_base_url(url: &str) -> (r: String)
    ensures
        r@ == normalized_url(url@),
{
    let t = trim(url);
    if is_blank(t.as_str()) {
        return DEFAULT_BASE_URL.to_string();
    }
    let bare = trim_end_char(t.as_str(), '/');
    if (starts_with(bare.as_str(), "https://chatgpt.com") || starts_with(bare.as_str(), "https://chat.openai.com"))
        && !contains_text(bare.as_str(), "/backend-api") {
        concat2(bare.as_str(), "/backend-api")
    } else {
        bare
    }
}

/// A URL to which credentials may be sent: encrypted, or on this machine.
pub open spec fn trusted_url(url: Seq<char>) -> bool {
    ||| "https://"@.is_prefix_of(url)
    ||| "http://127.0.0.1"@.is_prefix_of(url)
    ||| "http://localhost"@.is_prefix_of(url)
}

/// The base URL that a configuration leads to.
pub open spec fn base_url_of(config: Option<Seq<char>>) -> Seq<char> {
    match config {
        Some(config) => match base_url_setting(config) {
            Some(url) => if trusted_url(normalized_url(url)) {
                normalized_url(url)
            } else {
                "https://chatgpt.com/backend-api"@
            },
            None => "https://chatgpt.com/backend-api"@,
        },
        None => "https://chatgpt.com/backend-api"@,
    }
}

pub open spec fn str_view(s: Option<&str>) -> Option<Seq<char>> {
    match s {
        Some(s) => Some(s@),
        None => None,
    }
}

/// The base URL that the text of a configuration file leads to; an insecure URL is
/// ignored.
pub fn resolve_base_url(config: Option<&str>) -> (r: String)
    requires
        config is Some ==> !dangling_quote(config->0@),
    ensures
        r@ == base_url_of(str_view(config)),
{
    if let Some(config) = config {
        if let Some(url) = parse_chatgpt_base_url(config) {
            let url = normalize_base_url(url.as_str());
            if starts_with(url.as_str(), "https://") || starts_with(url.as_str(), "http://127.0.0.1") || starts_with(
                url.as_str(),
                "http://localhost",
            ) {
                return url;
            }
        }
    }
    DEFAULT_BASE_URL.to_string()
}

/// A configuration that does not authenticate against ChatGPT.
pub open spec fn custom_backend(config: Option<Seq<char>>) -> bool {
    match config {
        Some(config) => base_url_setting(config) is Some || other_provider(config),
        None => false,
    }
}

/// Whether the text of a configuration file leads away from ChatGPT.
pub fn uses_custom_backend(config: Option<&str>) -> (r: bool)
    requires
        config is Some ==> !dangling_quote(config->0@),
    ensures
        r == custom_backend(str_view(config)),
{
    match config {
        Some(config) => parse_chatgpt_base_url(config).is_some() || config_uses_non_chatgpt_provider(config),
        None => false,
    }
}

/// Why there are no credentials.
pub open spec fn missing_auth(config: Option<Seq<char>>) -> ErrorModel {
    ErrorModel::NotInstalled(
        if custom_backend(config) {
            "Codex uses a custom backend (chatgpt_base_url / model_provider) without ChatGPT auth. ChatGPT rate limits are unavailable for this setup."@
        } else {
            "Codex auth.json not found. Run `codex login` in a terminal to sign in."@
        },
    )
}

/// What is said where there is no credentials file.
pub fn missing_auth_error(config: Option<&str>) -> (r: ProviderError)
    requires
        config is Some ==> !dangling_quote(config->0@),
    ensures
        r@ == missing_auth(str_view(config)),
{
    if uses_custom_backend(config) {
        ProviderError::NotInstalled(
            "Codex uses a custom backend (chatgpt_base_url / model_provider) without ChatGPT auth. ChatGPT rate limits are unavailable for this setup.".to_string(),
        )
    } else {
        ProviderError::NotInstalled(
            "Codex auth.json not found. Run `codex login` in a terminal to sign in.".to_string(),
        )
    }
}

/// Whatever a configuration says, credentials only go to an encrypted connection
/// or to this machine.
pub proof fn law_base_urls_are_trusted(config: Option<Seq<char>>)
    ensures
        trusted_url(base_url_of(config)),
{
    reveal_strlit("https://chatgpt.com/backend-api");
    reveal_strlit("https://");
    assert("https://"@ =~= "https://chatgpt.com/backend-api"@.take(8));
}

/// A line sets the base URL where what stands before its first equals sign is the name of the
/// setting; its value is what stands behind, without white space around it. What follows a
/// number sign does not count.
pub proof fn law_lines_set_the_base_url(key: Seq<char>, value: Seq<char>, comment: Seq<char>)
    requires
        forall|i: int| 0 <= i < key.len() ==> key[i] != '=' && key[i] != '#' && !crate::text::is_space(key[i]),
        forall|i: int| 0 <= i < value.len() ==> value[i] != '#' && !crate::text::is_space(value[i]),
        key.len() > 0,
        value.len() > 0,
    ensures
        ({
            let line = key.push('=') + value;
            &&& key == "chatgpt_base_url"@ ==> base_url_on(line) == Some(value) && base_url_on(
                line.push('#') + comment,
            ) == Some(value)
            &&& key != "chatgpt_base_url"@ ==> base_url_on(line) is None && base_url_on(
                line.push('#') + comment,
            ) is None
        }),
{
    let line = key.push('=') + value;
    let full = line.push('#') + comment;
    crate::text::lemma_index_of(line, '#', line.len() as int);
    crate::text::lemma_index_of(full, '#', line.len() as int);
    assert(line.take(line.len() as int) =~= line);
    assert(full.take(line.len() as int) =~= line);
    assert(line.last() == value[value.len() - 1]);
    assert(line.first() == key[0]);
    assert(trimmed(line) == line);
    crate::text::lemma_index_of(line, '=', key.len() as int);
    assert(line.take(key.len() as int) =~= key);
    assert(line.skip(key.len() as int + 1) =~= value);
    assert(trimmed(key) == key);
    assert(trimmed(value) == value);
}

/// The first line that sets the base URL counts.
pub proof fn law_the_first_setting_counts(lines: Seq<Seq<char>>, i: int)
    requires
        0 <= i < lines.len(),
        base_url_on(lines[i]) is Some,
        forall|j: int| 0 <= j < i ==> base_url_on(#[trigger] lines[j]) is None,
    ensures
        base_url_in(lines) == base_url_on(lines[i]),
    decreases lines.len(),
{
    if i > 0 {
        let rest = lines.drop_first();
        assert(base_url_on(lines[0]) is None);
        assert(lines.first() == lines[0]);
        assert(rest[i - 1] == lines[i]);
        assert forall|j: int| 0 <= j < i - 1 implies base_url_on(#[trigger] rest[j]) is None by {
            assert(rest[j] == lines[j + 1]);
        }
        law_the_first_setting_counts(rest, i - 1);
    }
}

/// A pair of equal quotation marks around the setting does not count.
pub proof fn law_quotation_marks_do_not_count(config: Seq<char>, inner: Seq<char>, quote: char)
    requires
        quote == '"' || quote == '\'',
        base_url_in(lines_of(config)) == Some(seq![quote] + inner + seq![quote]),
    ensures
        base_url_setting(config) == Some(trimmed(inner)),
{
    let value = seq![quote] + inner + seq![quote];
    assert(value.first() == quote && value.last() == quote);
    assert(value.subrange(1, value.len() - 1) =~= inner);
}

/// A base URL has no slash at its end, and that of ChatGPT always leads to its backend.
pub proof fn law_base_urls_have_one_form(url: Seq<char>)
    requires
        trimmed(url).len() > 0,
    ensures
        ({
            let bare = strip_end(trimmed(url), '/');
            let chat = "https://chatgpt.com"@.is_prefix_of(bare) || "https://chat.openai.com"@.is_prefix_of(bare);
            &&& chat && !contains(bare, "/backend-api"@) ==> normalized_url(url) == bare + "/backend-api"@
            &&& !chat || contains(bare, "/backend-api"@) ==> normalized_url(url) == bare
            &&& bare.len() > 0 ==> bare.last() != '/'
            &&& bare.is_prefix_of(trimmed(url))
        }),
        normalized_url(Seq::empty()) == "https://chatgpt.com/backend-api"@,
{
    lemma_strip_end(trimmed(url), '/');
    assert(trimmed(Seq::<char>::empty()) =~= Seq::<char>::empty());
}

proof fn lemma_strip_end(s: Seq<char>, c: char)
    ensures
        strip_end(s, c).len() > 0 ==> strip_end(s, c).last() != c,
        strip_end(s, c).is_prefix_of(s),
    decreases s.len(),
{
    if s.len() > 0 && s.last() == c {
        lemma_strip_end(s.drop_last(), c);
        let r = strip_end(s, c);
        assert(s.drop_last().subrange(0, r.len() as int) =~= r);
        assert(s.subrange(0, r.len() as int) =~= r);
    } else {
        assert(s.subrange(0, s.len() as int) =~= s);
    }
}

/// A trusted setting is used in its normal form; without one, or with one that cannot be
/// trusted, the address of ChatGPT is.
pub proof fn law_trusted_settings_are_used(config: Seq<char>, url: Seq<char>)
    requires
        base_url_setting(config) == Some(url),
    ensures
        "https://"@.is_prefix_of(normalized_url(url)) || "http://127.0.0.1"@.is_prefix_of(normalized_url(url))
            || "http://localhost"@.is_prefix_of(normalized_url(url)) ==> base_url_of(Some(config)) == normalized_url(
            url,
        ),
        !"https://"@.is_prefix_of(normalized_url(url)) && !"http://127.0.0.1"@.is_prefix_of(normalized_url(url))
            && !"http://localhost"@.is_prefix_of(normalized_url(url)) ==> base_url_of(Some(config))
            == "https://chatgpt.com/backend-api"@,
        base_url_of(None) == "https://chatgpt.com/backend-api"@,
{
}

/// A configuration leads away from ChatGPT where it sets a base URL or selects another provider.
pub proof fn law_custom_backends_are_told(config: Seq<char>, i: int)
    ensures
        base_url_setting(config) is Some ==> custom_backend(Some(config)),
        0 <= i < lines_of(config).len() && selects_other_provider(lines_of(config)[i]) ==> custom_backend(Some(config)),
        base_url_setting(config) is None && (forall|j: int|
            0 <= j < lines_of(config).len() ==> !selects_other_provider(#[trigger] lines_of(config)[j]))
            ==> !custom_backend(Some(config)),
        !custom_backend(None),
{
}

/// A line selects another provider where its key is the name of the setting, in any case, and
/// its value, without quotation marks, names anything but OpenAI.
pub proof fn law_lines_select_providers(key: Seq<char>, value: Seq<char>)
    requires
        forall|i: int| 0 <= i < key.len() ==> key[i] != '=' && !crate::text::is_space(key[i]),
        forall|i: int|
            0 <= i < value.len() ==> value[i] != '"' && value[i] != '\'' && !crate::text::is_space(value[i]),
        key.len() > 0,
        value.len() > 0,
    ensures
        selects_other_provider(key.push('=') + value) <==> ascii_lowered(key) == ascii_lowered("model_provider"@)
            && ascii_lowered(value) != ascii_lowered("openai"@),
        selects_other_provider(key.push('=') + (seq!['"'] + value + seq!['"'])) <==> ascii_lowered(key)
            == ascii_lowered("model_provider"@) && ascii_lowered(value) != ascii_lowered("openai"@),
{
    let line = key.push('=') + value;
    let inner = seq!['"'] + value + seq!['"'];
    let quoted = key.push('=') + inner;
    assert(line.first() == key[0] && quoted.first() == key[0]);
    assert(line.last() == value[value.len() - 1] && quoted.last() == '"');
    assert(trimmed(line) == line && trimmed(quoted) == quoted);
    crate::text::lemma_index_of(line, '=', key.len() as int);
    crate::text::lemma_index_of(quoted, '=', key.len() as int);
    assert(line.take(key.len() as int) =~= key && quoted.take(key.len() as int) =~= key);
    assert(line.skip(key.len() as int + 1) =~= value && quoted.skip(key.len() as int + 1) =~= inner);
    assert(trimmed(key) == key && trimmed(value) == value);
    assert(inner.first() == '"' && inner.last() == '"');
    assert(trimmed(inner) == inner);
    assert(value.first() == value[0] && value.last() == value[value.len() - 1]);
    assert(unquoted_all(value) == value);
    assert(inner.drop_first() =~= value.push('"'));
    assert(value.push('"').first() == value[0]);
    assert(strip_start(value.push('"'), '"') == value.push('"'));
    assert(strip_start(inner, '"') == value.push('"'));
    assert(value.push('"').drop_last() =~= value);
    assert(strip_end(value, '"') == value);
    assert(strip_end(value.push('"'), '"') == value);
    assert(unquoted_all(inner) == value);
}

/// An explicit home comes before that of the environment, and a blank one of the environment
/// counts as none.
pub proof fn law_explicit_homes_come_first(explicit: Seq<char>, environment: Seq<char>)
    ensures
        home_setting(Some(explicit), Some(environment)) == Some(explicit),
        home_setting(Some(explicit), None) == Some(explicit),
        trimmed(environment).len() > 0 ==> home_setting(None, Some(environment)) == Some(trimmed(environment)),
        trimmed(environment).len() == 0 ==> home_setting(None, Some(environment)) is None,
        home_setting(None, None) is None,
{
}

/// Without a credentials file a login is asked for, but not where another backend is set, which
/// needs none.
pub proof fn law_missing_credentials_are_explained(config: Option<Seq<char>>)
    ensures
        !custom_backend(config) ==> missing_auth(config) == ErrorModel::NotInstalled(
            "Codex auth.json not found. Run `codex login` in a terminal to sign in."@,
        ),
        custom_backend(config) ==> missing_auth(config) == ErrorModel::NotInstalled(
            "Codex uses a custom backend (chatgpt_base_url / model_provider) without ChatGPT auth. ChatGPT rate limits are unavailable for this setup."@,
        ),
{
}

} // verus!
