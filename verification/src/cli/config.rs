//! Inspecting, validating and changing the configuration.
use crate::json::{entry_trees, text_view, Json, JsonTree};
use crate::provider::{provider_named, ProviderId};
use crate::text::{
    chars_of, concat2, concat3, concat4, decimal, decimal_of, is_blank, lowercase_char,
    lowercase_each, lowercased, same, slice_to_string, texts, to_lowercase, trim, trimmed,
};
use vstd::prelude::*;

verus! {

/// Arguments of the config command.
#[derive(Debug)]
pub struct ConfigArgs {
    pub command: ConfigCommand,
}

#[derive(Debug)]
pub enum ConfigCommand {
    /// Validate configuration files
    Validate,
    /// Dump configuration to stdout
    Dump {
        format: String,
        show_secrets: bool,
    },
    /// List providers and enabled state
    Providers,
    /// Enable a provider
    Enable {
        provider: String,
    },
    /// Disable a provider
    Disable {
        provider: String,
    },
    /// Store an API key for a provider
    SetApiKey {
        provider: String,
        api_key: Option<String>,
        stdin: bool,
        no_enable: bool,
    },
    /// Store a browser cookie header for a provider
    SetCookie {
        provider: String,
        cookie: Option<String>,
        stdin: bool,
    },
    /// Show configuration file paths
    Path,
}

/// What a validation found.
#[derive(Debug)]
pub struct ValidationReport {
    pub errors: Vec<String>,
    pub warnings: Vec<String>,
}

/// What a look at a configuration file found.
#[derive(Debug)]
pub enum FileFinding {
    /// The file does not exist.
    Missing,
    Valid,
    /// The file cannot be read.
    Unreadable(String),
    /// The content is malformed.
    Malformed(String),
}

/// The error that a finding about a file is, if it is one.
pub open spec fn finding_error(label: Seq<char>, finding: FileFinding) -> Option<Seq<char>> {
    match finding {
        FileFinding::Unreadable(error) => Some(label + ": Could not read file: "@ + error@),
        FileFinding::Malformed(error) => Some(label + ": "@ + error@),
        _ => None,
    }
}

/// The word that is printed for a finding about a file that exists.
pub open spec fn finding_word(finding: FileFinding, missing: Seq<char>) -> Seq<char> {
    match finding {
        FileFinding::Missing => missing,
        FileFinding::Valid => "OK"@,
        FileFinding::Unreadable(_) => "ERROR"@,
        FileFinding::Malformed(_) => "INVALID"@,
    }
}

impl ValidationReport {
    pub fn new() -> (r: ValidationReport)
        ensures
            r.errors@.len() == 0,
            r.warnings@.len() == 0,
    {
        ValidationReport { errors: Vec::new(), warnings: Vec::new() }
    }

    pub fn error(&mut self, message: String)
        ensures
            texts(final(self).errors@) == texts(old(self).errors@).push(message@),
            final(self).warnings@ == old(self).warnings@,
    {
        let ghost before = texts(self.errors@);
        self.errors.push(message);
        proof {
            assert(texts(self.errors@) =~= before.push(message@));
        }
    }

    pub fn warning(&mut self, message: String)
        ensures
            texts(final(self).warnings@) == texts(old(self).warnings@).push(message@),
            final(self).errors@ == old(self).errors@,
    {
        let ghost before = texts(self.warnings@);
        self.warnings.push(message);
        proof {
            assert(texts(self.warnings@) =~= before.push(message@));
        }
    }

    /// Takes in a finding about a file and returns the word to print; `missing` is
    /// the word for a file that does not exist.
    pub fn note_file(&mut self, label: &str, finding: &FileFinding, missing: &str) -> (r: String)
        ensures
            r@ == finding_word(*finding, missing@),
            texts(final(self).errors@) == (match finding_error(label@, *finding) {
                Some(error) => texts(old(self).errors@).push(error),
                None => texts(old(self).errors@),
            }),
            final(self).warnings@ == old(self).warnings@,
    {
        match finding {
            FileFinding::Missing => missing.to_string(),
            FileFinding::Valid => "OK".to_string(),
            FileFinding::Unreadable(error) => {
                self.error(concat3(label, ": Could not read file: ", error.as_str()));
                "ERROR".to_string()
            },
            FileFinding::Malformed(error) => {
                self.error(concat3(label, ": ", error.as_str()));
                "INVALID".to_string()
            },
        }
    }

    /// Takes in the finding about the settings, whose absence is worth a warning.
    pub fn note_settings(&mut self, finding: &FileFinding) -> (r: String)
        ensures
            r@ == finding_word(*finding, "NOT FOUND (using defaults)"@),
            texts(final(self).errors@) == (match finding_error("settings.json"@, *finding) {
                Some(error) => texts(old(self).errors@).push(error),
                None => texts(old(self).errors@),
            }),
            texts(final(self).warnings@) == (if finding is Missing {
                texts(old(self).warnings@).push("settings.json: File does not exist, using defaults"@)
            } else {
                texts(old(self).warnings@)
            }),
    {
        let word = self.note_file("settings.json", finding, "NOT FOUND (using defaults)");
        if matches!(finding, FileFinding::Missing) {
            self.warning("settings.json: File does not exist, using defaults".to_string());
        }
        word
    }

    /// The lines of the summary, and the error that it ends in where there are any
    /// errors.
    pub fn finish(&self) -> (r: (Vec<String>, Option<String>))
        ensures
            texts(r.0@) == summary_lines(texts(self.errors@), texts(self.warnings@)),
            text_view(r.1) == (if self.errors@.len() > 0 {
                Some(
                    "Configuration validation failed with "@ + decimal(self.errors@.len()) + " error(s)."@,
                )
            } else {
                None
            }),
    {
        let mut lines: Vec<String> = Vec::new();
        lines.push(String::new());
        proof {
            assert(texts(lines@) =~= seq![Seq::<char>::empty()]);
            assert(texts(self.errors@).len() == self.errors@.len());
            assert(texts(self.warnings@).len() == self.warnings@.len());
        }
        if self.errors.len() == 0 && self.warnings.len() == 0 {
            lines.push("Configuration is valid.".to_string());
            proof {
                assert(texts(lines@) =~= summary_lines(texts(self.errors@), texts(self.warnings@)));
            }
            return (lines, None);
        }
        append_list(&mut lines, "Warnings:", &self.warnings);
        append_list(&mut lines, "Errors:", &self.errors);
        proof {
            assert(texts(lines@) =~= summary_lines(texts(self.errors@), texts(self.warnings@)));
        }
        if self.errors.len() > 0 {
            let count = decimal_of(self.errors.len() as u128);
            (
                lines,
                Some(concat3("Configuration validation failed with ", count.as_str(), " error(s).")),
            )
        } else {
            (lines, None)
        }
    }
}

/// A titled list, or nothing where it is empty.
pub open spec fn list_lines(title: Seq<char>, items: Seq<Seq<char>>) -> Seq<Seq<char>> {
    if items.len() == 0 {
        Seq::empty()
    } else {
        seq![title] + items.map_values(|item: Seq<char>| "  - "@ + item)
    }
}

/// The lines of a summary.
pub open spec fn summary_lines(errors: Seq<Seq<char>>, warnings: Seq<Seq<char>>) -> Seq<Seq<char>> {
    let blank = seq![Seq::<char>::empty()];
    if errors.len() == 0 && warnings.len() == 0 {
        blank + seq!["Configuration is valid."@]
    } else {
        blank + list_lines("Warnings:"@, warnings) + list_lines("Errors:"@, errors)
    }
}

fn append_list(lines: &mut Vec<String>, title: &str, items: &Vec<String>)
    ensures
        texts(final(lines)@) == texts(old(lines)@) + list_lines(title@, texts(items@)),
{
    let ghost before = texts(lines@);
    let ghost all = texts(items@);
    if items.len() == 0 {
        proof {
            assert(before + Seq::<Seq<char>>::empty() =~= before);
        }
        return;
    }
    lines.push(title.to_string());
    let mut i: usize = 0;
    proof {
        assert(texts(lines@) =~= before + seq![title@] + all.take(0).map_values(
            |item: Seq<char>| "  - "@ + item,
        ));
    }
    while i < items.len()
        invariant
            i <= items@.len(),
            all == texts(items@),
            texts(lines@) == before + seq![title@] + all.take(i as int).map_values(
                |item: Seq<char>| "  - "@ + item,
            ),
        decreases items@.len() - i,
    {
        let ghost so_far = texts(lines@);
        lines.push(concat2("  - ", items[i].as_str()));
        proof {
            assert(all[i as int] == items@[i as int]@);
            assert(texts(lines@) =~= so_far.push("  - "@ + all[i as int]));
            assert(texts(lines@) =~= before + seq![title@] + all.take(i + 1).map_values(
                |item: Seq<char>| "  - "@ + item,
            ));
        }
        i = i + 1;
    }
    proof {
        assert(all.take(i as int) =~= all);
        assert(texts(lines@) =~= before + list_lines(title@, all));
    }
}

/// A key without underscores, in lower case.
pub open spec fn normalized_key(key: Seq<char>) -> Seq<char> {
    lowercase_each(key.filter(|c: char| c != '_'))
}

/// A field that holds a secret, by its name.
pub open spec fn is_secret_name(key: Seq<char>) -> bool {
    let name = normalized_key(key);
    ||| name == "apikey"@
    ||| name == "secretkey"@
    ||| name == "cookieheader"@
    ||| name == "manualcookieheader"@
    ||| name == "token"@
    ||| name == "apitoken"@
    ||| name == "managementapitoken"@
    ||| name == "httpproxypassword"@
    ||| name == "password"@
}

fn normalize_key(key: &str) -> (r: String)
    ensures
        r@ == normalized_key(key@),
{
    let v = chars_of(key);
    let ghost keep = |c: char| c != '_';
    let mut r = String::new();
    let mut i: usize = 0;
    proof {
        assert(v@.take(0) =~= Seq::<char>::empty());
        reveal(Seq::filter);
        assert(v@.take(0).filter(keep) =~= Seq::<char>::empty());
    }
    while i < v.len()
        invariant
            i <= v@.len(),
            v@ == key@,
            keep == (|c: char| c != '_'),
            r@ == lowercase_each(v@.take(i as int).filter(keep)),
        decreases v@.len() - i,
    {
        let c: char = v[i];
        proof {
            let prefix = v@.take(i as int);
            assert(v@.take(i + 1) =~= prefix.push(c));
            reveal(Seq::filter);
            assert(prefix.push(c).drop_last() =~= prefix);
            if c != '_' {
                assert(prefix.push(c).filter(keep) =~= prefix.filter(keep).push(c));
                assert(prefix.filter(keep).push(c).drop_last() =~= prefix.filter(keep));
            } else {
                assert(prefix.push(c).filter(keep) =~= prefix.filter(keep));
            }
        }
        if c != '_' {
            let low = lowercase_char(c);
            r = concat2(r.as_str(), low.as_str());
        }
        i = i + 1;
    }
    proof {
        assert(v@.take(i as int) =~= key@);
    }
    r
}

pub fn is_secret_field_name(key: &str) -> (r: bool)
    ensures
        r == is_secret_name(key@),
{
    let name = normalize_key(key);
    let name = name.as_str();
    same(name, "apikey") || same(name, "secretkey") || same(name, "cookieheader") || same(name, "manualcookieheader")
        || same(name, "token") || same(name, "apitoken") || same(name, "managementapitoken") || same(
        name,
        "httpproxypassword",
    ) || same(name, "password")
}

/// A value in which every field that holds a secret is replaced.
pub open spec fn redacted(tree: JsonTree) -> JsonTree
    decreases tree,
{
    match tree {
        JsonTree::Object(entries) => JsonTree::Object(
            Seq::new(
                entries.len(),
                |i: int|
                    if 0 <= i < entries.len() {
                        (
                            entries[i].0,
                            if is_secret_name(entries[i].0) {
                                JsonTree::Text("[REDACTED]"@)
                            } else {
                                redacted(entries[i].1)
                            },
                        )
                    } else {
                        (Seq::empty(), JsonTree::Null)
                    },
            ),
        ),
        JsonTree::Array(items) => JsonTree::Array(
            Seq::new(
                items.len(),
                |i: int|
                    if 0 <= i < items.len() {
                        redacted(items[i])
                    } else {
                        JsonTree::Null
                    },
            ),
        ),
        _ => tree,
    }
}

/// Every field that holds a secret, at any depth, has been replaced.
pub open spec fn is_clean(tree: JsonTree) -> bool
    decreases tree,
{
    match tree {
        JsonTree::Object(entries) => forall|i: int|
            #![trigger entries[i]]
            0 <= i < entries.len() ==> if is_secret_name(entries[i].0) {
                entries[i].1 == JsonTree::Text("[REDACTED]"@)
            } else {
                is_clean(entries[i].1)
            },
        JsonTree::Array(items) => forall|i: int| #![trigger items[i]] 0 <= i < items.len() ==> is_clean(items[i]),
        _ => true,
    }
}

/// Replaces every field that holds a secret.
pub fn redact_secrets_value(value: &Json) -> (r: Json)
    ensures
        r.tree() == redacted(value.tree()),
    decreases value,
{
    match value {
        Json::Object(entries) => {
            let ghost all = value.tree()->Object_0;
            let mut out: Vec<(String, Json)> = Vec::new();
            let mut i: usize = 0;
            while i < entries.len()
                invariant
                    i <= entries@.len() == all.len(),
                    *value == Json::Object(*entries),
                    value.tree() == JsonTree::Object(all),
                    out@.len() == i,
                    forall|k: int|
                        0 <= k < i ==> (#[trigger] out@[k]).0@ == all[k].0 && out@[k].1.tree() == (if is_secret_name(
                            all[k].0,
                        ) {
                            JsonTree::Text("[REDACTED]"@)
                        } else {
                            redacted(all[k].1)
                        }),
                decreases entries@.len() - i,
            {
                let entry = &entries[i];
                proof {
                    assert(all[i as int] == (entries@[i as int].0@, entries@[i as int].1.tree()));
                    assert(value->Object_0 == *entries);
                    assert(decreases_to!(value => entries@[i as int].1));
                }
                let child = if is_secret_field_name(entry.0.as_str()) {
                    Json::text("[REDACTED]")
                } else {
                    redact_secrets_value(&entry.1)
                };
                out.push((entry.0.clone(), child));
                i = i + 1;
            }
            let r = Json::Object(out);
            proof {
                assert(r.tree()->Object_0 =~= redacted(value.tree())->Object_0);
            }
            r
        },
        Json::Array(items) => {
            let ghost all = value.tree()->Array_0;
            let mut out: Vec<Json> = Vec::new();
            let mut i: usize = 0;
            while i < items.len()
                invariant
                    i <= items@.len() == all.len(),
                    *value == Json::Array(*items),
                    value.tree() == JsonTree::Array(all),
                    out@.len() == i,
                    forall|k: int| 0 <= k < i ==> (#[trigger] out@[k]).tree() == redacted(all[k]),
                decreases items@.len() - i,
            {
                proof {
                    assert(all[i as int] == items@[i as int].tree());
                    assert(value->Array_0 == *items);
                    assert(decreases_to!(value => items@[i as int]));
                }
                out.push(redact_secrets_value(&items[i]));
                i = i + 1;
            }
            let r = Json::Array(out);
            proof {
                assert(r.tree()->Array_0 =~= redacted(value.tree())->Array_0);
            }
            r
        },
        Json::Null => Json::Null,
        Json::Bool(b) => Json::Bool(*b),
        Json::Number(n) => Json::Number(n.duplicate()),
        Json::Text(s) => Json::Text(s.clone()),
    }
}

/// The entries of an object after a field was set: in its place where it was there,
/// else at the end.
pub open spec fn with_field(
    entries: Seq<(Seq<char>, JsonTree)>,
    key: Seq<char>,
    value: JsonTree,
) -> Seq<(Seq<char>, JsonTree)>
    decreases entries.len(),
{
    if entries.len() == 0 {
        seq![(key, value)]
    } else if entries.first().0 == key {
        seq![(key, value)] + entries.drop_first()
    } else {
        seq![entries.first()] + with_field(entries.drop_first(), key, value)
    }
}

fn set_field(entries: Vec<(String, Json)>, key: &str, value: Json) -> (r: Vec<(String, Json)>)
    ensures
        entry_trees(r@) == with_field(entry_trees(entries@), key@, value.tree()),
{
    let ghost all = entry_trees(entries@);
    let mut list = entries;
    let mut i: usize = 0;
    proof {
        assert(all.skip(0) =~= all);
        assert(all.take(0) + with_field(all, key@, value.tree()) =~= with_field(all, key@, value.tree()));
    }
    while i < list.len()
        invariant
            i <= list@.len(),
            all == entry_trees(list@),
            all == entry_trees(entries@),
            with_field(all, key@, value.tree()) == all.take(i as int) + with_field(
                all.skip(i as int),
                key@,
                value.tree(),
            ),
        decreases list@.len() - i,
    {
        proof {
            assert(all[i as int] == (list@[i as int].0@, list@[i as int].1.tree()));
            assert(all.skip(i as int).first() == all[i as int]);
            assert(all.skip(i as int).drop_first() =~= all.skip(i + 1));
        }
        if same(list[i].0.as_str(), key) {
            list.set(i, (key.to_string(), value));
            proof {
                assert(entry_trees(list@) =~= all.take(i as int) + (seq![(key@, value.tree())] + all.skip(i + 1)));
            }
            return list;
        }
        proof {
            assert(all.take(i + 1) =~= all.take(i as int).push(all[i as int]));
            let rest = with_field(all.skip(i + 1), key@, value.tree());
            assert(all.take(i as int) + (seq![all[i as int]] + rest) =~= all.take(i + 1) + rest);
        }
        i = i + 1;
    }
    list.push((key.to_string(), value));
    proof {
        assert(all.skip(i as int) =~= Seq::<(Seq<char>, JsonTree)>::empty());
        assert(all.take(i as int) =~= all);
        assert(entry_trees(list@) =~= all + seq![(key@, value.tree())]);
    }
    list
}

/// The configuration with the secrets files as further fields.
pub open spec fn dump_of(settings: JsonTree, api_keys: JsonTree, cookies: JsonTree, accounts: JsonTree) -> JsonTree {
    match settings {
        JsonTree::Object(entries) => JsonTree::Object(
            with_field(
                with_field(with_field(entries, "api_keys"@, api_keys), "manual_cookies"@, cookies),
                "token_accounts"@,
                accounts,
            ),
        ),
        _ => settings,
    }
}

/// What is dumped, before secrets are replaced.
pub fn build_dump_value(settings: Json, api_keys: Json, manual_cookies: Json, token_accounts: Json) -> (r: Json)
    ensures
        r.tree() == dump_of(settings.tree(), api_keys.tree(), manual_cookies.tree(), token_accounts.tree()),
{
    match settings {
        Json::Object(entries) => {
            proof {
                assert(settings.tree()->Object_0 =~= entry_trees(entries@));
            }
            let entries = set_field(entries, "api_keys", api_keys);
            let entries = set_field(entries, "manual_cookies", manual_cookies);
            let entries = set_field(entries, "token_accounts", token_accounts);
            let r = Json::Object(entries);
            proof {
                assert(r.tree()->Object_0 =~= entry_trees(entries@));
            }
            r
        },
        other => other,
    }
}

/// The configuration as it is dumped: as it is where secrets are asked for, else
/// with secrets replaced.
pub fn sanitize_settings_for_dump(value: Json, show_secrets: bool) -> (r: Json)
    ensures
        r.tree() == (if show_secrets {
            value.tree()
        } else {
            redacted(value.tree())
        }),
{
    if show_secrets {
        value
    } else {
        redact_secrets_value(&value)
    }
}

/// A dump without secrets shows none, at any depth.
pub proof fn law_redaction_leaves_no_secret(tree: JsonTree)
    ensures
        is_clean(redacted(tree)),
    decreases tree,
{
    match tree {
        JsonTree::Object(entries) => {
            assert forall|i: int| 0 <= i < entries.len() implies is_clean(redacted((#[trigger] entries[i]).1)) by {
                law_redaction_leaves_no_secret(entries[i].1);
            }
        },
        JsonTree::Array(items) => {
            assert forall|i: int| 0 <= i < items.len() implies is_clean(redacted(#[trigger] items[i])) by {
                law_redaction_leaves_no_secret(items[i]);
            }
        },
        _ => {},
    }
}

/// Redaction changes nothing where there is no secret left, so redacting twice is
/// redacting once.
pub proof fn law_redaction_keeps_clean_values(tree: JsonTree)
    requires
        is_clean(tree),
    ensures
        redacted(tree) == tree,
    decreases tree,
{
    match tree {
        JsonTree::Object(entries) => {
            assert forall|i: int| 0 <= i < entries.len() implies redacted(tree)->Object_0[i] == #[trigger] entries[i] by {
                if !is_secret_name(entries[i].0) {
                    law_redaction_keeps_clean_values(entries[i].1);
                }
            }
            assert(redacted(tree)->Object_0 =~= entries);
        },
        JsonTree::Array(items) => {
            assert forall|i: int| 0 <= i < items.len() implies redacted(tree)->Array_0[i] == #[trigger] items[i] by {
                law_redaction_keeps_clean_values(items[i]);
            }
            assert(redacted(tree)->Array_0 =~= items);
        },
        _ => {},
    }
}

/// How a dump is written.
#[derive(Clone, Copy, PartialEq, Eq, Structural, Debug)]
pub enum DumpFormat {
    Json,
    Toml,
}

/// The format with a name, in any case.
pub open spec fn dump_format_of(format: Seq<char>) -> Option<DumpFormat> {
    if lowercased(format) == "json"@ {
        Some(DumpFormat::Json)
    } else if lowercased(format) == "toml"@ {
        Some(DumpFormat::Toml)
    } else {
        None
    }
}

pub fn dump_format(format: &str) -> (r: Result<DumpFormat, String>)
    ensures
        match dump_format_of(format@) {
            Some(f) => r is Ok && r->Ok_0 == f,
            None => r is Err && r->Err_0@ == "Unknown format '"@ + format@ + "'. Supported formats: json, toml"@,
        },
{
    let name = to_lowercase(format);
    if same(name.as_str(), "json") {
        Ok(DumpFormat::Json)
    } else if same(name.as_str(), "toml") {
        Ok(DumpFormat::Toml)
    } else {
        Err(concat3("Unknown format '", format, "'. Supported formats: json, toml"))
    }
}

/// The word for whether a provider is used.
pub open spec fn state_word(enabled: bool) -> Seq<char> {
    if enabled {
        "enabled"@
    } else {
        "disabled"@
    }
}

/// How a provider is listed.
pub open spec fn listed_provider(name: Seq<char>, enabled: bool, default_enabled: bool, display_name: Seq<char>) -> Seq<
    char,
> {
    name + ": "@ + state_word(enabled) + (if default_enabled {
        " default"@
    } else {
        ""@
    }) + " ("@ + display_name + ")"@
}

/// The line that lists a provider.
pub fn provider_line(id: ProviderId, enabled: bool, default_enabled: bool, display_name: &str) -> (r: String)
    ensures
        r@ == listed_provider(crate::provider::cli_name_of(id), enabled, default_enabled, display_name@),
{
    let state = if enabled {
        "enabled"
    } else {
        "disabled"
    };
    let marker = if default_enabled {
        " default"
    } else {
        ""
    };
    let head = concat4(id.cli_name(), ": ", state, marker);
    concat4(head.as_str(), " (", display_name, ")")
}

/// The provider that a name stands for.
pub fn parse_provider(raw: &str) -> (r: Result<ProviderId, String>)
    ensures
        match provider_named(raw@) {
            Some(id) => r is Ok && r->Ok_0 == id,
            None => r is Err && r->Err_0@ == "Unknown provider '"@ + raw@
                + "'. Run `codexbar config providers` to list providers."@,
        },
{
    match ProviderId::from_cli_name(raw) {
        Some(id) => Ok(id),
        None => Err(
            concat3("Unknown provider '", raw, "'. Run `codexbar config providers` to list providers."),
        ),
    }
}

/// Refuses a provider that does not take API keys.
pub fn ensure_provider_accepts_api_key(id: ProviderId, accepting: &Vec<ProviderId>, display_name: &str) -> (r: Result<
    (),
    String,
>)
    ensures
        r is Ok <==> accepting@.contains(id),
        r is Err ==> r->Err_0@ == display_name@ + " does not support stored API keys."@,
{
    let mut i: usize = 0;
    while i < accepting.len()
        invariant
            i <= accepting@.len(),
            forall|k: int| 0 <= k < i ==> accepting@[k] != id,
        decreases accepting@.len() - i,
    {
        if accepting[i] == id {
            return Ok(());
        }
        i = i + 1;
    }
    Err(concat2(display_name, " does not support stored API keys."))
}

/// A text without a pair of equal quotation marks around it.
pub open spec fn unquoted(value: Seq<char>) -> Seq<char> {
    if value.len() > 0 && value.first() == value.last() && (value.first() == '"' || value.first() == '\'') {
        if value.len() == 1 {
            Seq::empty()
        } else {
            value.subrange(1, value.len() - 1)
        }
    } else {
        value
    }
}

/// The secret in what was given: without white space and quotation marks.
pub open spec fn secret_of(raw: Option<Seq<char>>) -> Option<Seq<char>> {
    match raw {
        Some(raw) => {
            let secret = trimmed(unquoted(trimmed(raw)));
            if secret.len() > 0 {
                Some(secret)
            } else {
                None
            }
        },
        None => None,
    }
}

fn unquote(value: &str) -> (r: String)
    ensures
        r@ == unquoted(value@),
{
    let v = chars_of(value);
    let n: usize = v.len();
    if n > 0 && v[0] == v[n - 1] && (v[0] == '"' || v[0] == '\'') {
        if n == 1 {
            String::new()
        } else {
            slice_to_string(&v, 1, n - 1)
        }
    } else {
        value.to_string()
    }
}

/// The secret that is given in one of two ways, or why there is none.
pub open spec fn given_secret(value: Option<Seq<char>>, stdin: Option<Seq<char>>, label: Seq<char>) -> Result<
    Seq<char>,
    Seq<char>,
> {
    if value is Some && stdin is Some {
        Err("Use either the inline "@ + label + " option or --stdin, not both."@)
    } else {
        match secret_of(if stdin is Some {
            stdin
        } else {
            value
        }) {
            Some(secret) => Ok(secret),
            None => Err("Missing "@ + label + ". Pass it inline or use --stdin."@),
        }
    }
}

/// The secret that is stored: from the command line or from the standard input, but
/// not from both. `stdin` is what was read there, where that was asked for.
pub fn resolve_secret_input(value: Option<String>, stdin: Option<String>, label: &str) -> (r: Result<String, String>)
    ensures
        match given_secret(text_view(value), text_view(stdin), label@) {
            Ok(secret) => r is Ok && r->Ok_0@ == secret,
            Err(error) => r is Err && r->Err_0@ == error,
        },
{
    let raw = match (value, stdin) {
        (Some(_), Some(_)) => return Err(
            concat3("Use either the inline ", label, " option or --stdin, not both."),
        ),
        (None, Some(raw)) => raw,
        (Some(raw), None) => raw,
        (None, None) => return Err(concat3("Missing ", label, ". Pass it inline or use --stdin.")),
    };
    let secret = trim(raw.as_str());
    let secret = unquote(secret.as_str());
    let secret = trim(secret.as_str());
    if is_blank(secret.as_str()) {
        return Err(concat3("Missing ", label, ". Pass it inline or use --stdin."));
    }
    Ok(secret)
}

/// The API key that is stored.
pub fn resolve_api_key_input(api_key: Option<String>, stdin: Option<String>) -> (r: Result<String, String>)
    ensures
        match given_secret(text_view(api_key), text_view(stdin), "API key"@) {
            Ok(secret) => r is Ok && r->Ok_0@ == secret,
            Err(error) => r is Err && r->Err_0@ == error,
        },
{
    resolve_secret_input(api_key, stdin, "API key")
}

pub open spec fn told_state(display_name: Seq<char>, enabled: bool) -> Seq<char> {
    "Config: "@ + state_word(enabled) + " "@ + display_name
}

/// What is said once a provider was enabled or disabled.
pub fn enabled_message(display_name: &str, enabled: bool) -> (r: String)
    ensures
        r@ == told_state(display_name@, enabled),
{
    let state = if enabled {
        "enabled"
    } else {
        "disabled"
    };
    concat4("Config: ", state, " ", display_name)
}

pub open spec fn told_key(display_name: Seq<char>, enabled: bool) -> Seq<char> {
    "Config: stored API key for "@ + display_name + (if enabled {
        " and enabled"@
    } else {
        ""@
    })
}

/// What is said once an API key was stored.
pub fn stored_key_message(display_name: &str, enabled: bool) -> (r: String)
    ensures
        r@ == told_key(display_name@, enabled),
{
    let suffix = if enabled {
        " and enabled"
    } else {
        ""
    };
    concat3("Config: stored API key for ", display_name, suffix)
}

/// What is said once a cookie was stored.
pub fn stored_cookie_message(display_name: &str) -> (r: String)
    ensures
        r@ == "Config: stored browser cookie for "@ + display_name@,
{
    concat2("Config: stored browser cookie for ", display_name)
}

/// How a path is shown.
pub open spec fn titled_path(title: Seq<char>, path: Option<Seq<char>>, exists: bool) -> Seq<char> {
    title + (match path {
        Some(path) => path + (if exists {
            ""@
        } else {
            " (not found)"@
        }),
        None => "(could not determine path)"@,
    })
}

/// The line that names the path of a file.
pub fn path_line(title: &str, path: Option<String>, exists: bool) -> (r: String)
    ensures
        r@ == titled_path(title@, text_view(path), exists),
{
    match path {
        Some(path) => {
            let mark = if exists {
                ""
            } else {
                " (not found)"
            };
            let tail = concat2(path.as_str(), mark);
            concat2(title, tail.as_str())
        },
        None => concat2(title, "(could not determine path)"),
    }
}

/// A name that is spelled in small letters or capitals, with underscores anywhere, is told by
/// its letters alone.
proof fn lemma_key_step(key: Seq<char>, c: char)
    ensures
        c != '_' ==> normalized_key(key.push(c)) == normalized_key(key) + crate::text::lowercase_text(c),
        c == '_' ==> normalized_key(key.push(c)) == normalized_key(key),
        normalized_key(Seq::empty()) == Seq::<char>::empty(),
{
    let keep = |c: char| c != '_';
    reveal(Seq::filter);
    assert(key.push(c).drop_last() =~= key);
    if c != '_' {
        assert(key.push(c).filter(keep) =~= key.filter(keep).push(c));
        assert(key.filter(keep).push(c).drop_last() =~= key.filter(keep));
    } else {
        assert(key.push(c).filter(keep) =~= key.filter(keep));
    }
    assert(Seq::<char>::empty().filter(keep) =~= Seq::<char>::empty());
}

/// Underscores in a name make no difference to whether it names a secret, and the letters are
/// compared in small.
pub proof fn law_underscores_do_not_hide_secrets(key: Seq<char>, c: char)
    ensures
        is_secret_name(key.push('_')) == is_secret_name(key),
        c != '_' ==> normalized_key(key.push(c)) == normalized_key(key) + crate::text::lowercase_text(c),
        normalized_key(Seq::empty()).len() == 0,
{
    lemma_key_step(key, '_');
    lemma_key_step(key, c);
}

/// The names of secrets, and no others.
pub proof fn law_these_names_are_secret(key: Seq<char>)
    ensures
        is_secret_name(key) <==> {
            let name = normalized_key(key);
            name == "apikey"@ || name == "secretkey"@ || name == "cookieheader"@ || name == "manualcookieheader"@
                || name == "token"@ || name == "apitoken"@ || name == "managementapitoken"@ || name
                == "httpproxypassword"@ || name == "password"@
        },
{
}

/// Redaction keeps the keys of an object in their order, replaces the values of secrets and
/// goes into all others; arrays keep their length, and plain values stay.
pub proof fn law_redaction_keeps_the_shape(tree: JsonTree, i: int)
    ensures
        tree is Object ==> redacted(tree) is Object && redacted(tree)->Object_0.len() == tree->Object_0.len(),
        tree is Object && 0 <= i < tree->Object_0.len() ==> {
            let before = tree->Object_0[i];
            let after = redacted(tree)->Object_0[i];
            &&& after.0 == before.0
            &&& is_secret_name(before.0) ==> after.1 == JsonTree::Text("[REDACTED]"@)
            &&& !is_secret_name(before.0) ==> after.1 == redacted(before.1)
        },
        tree is Array ==> redacted(tree) is Array && redacted(tree)->Array_0.len() == tree->Array_0.len(),
        tree is Array && 0 <= i < tree->Array_0.len() ==> redacted(tree)->Array_0[i] == redacted(tree->Array_0[i]),
        !(tree is Object) && !(tree is Array) ==> redacted(tree) == tree,
{
}

proof fn lemma_with_field(entries: Seq<(Seq<char>, JsonTree)>, key: Seq<char>, value: JsonTree, other: Seq<char>)
    ensures
        JsonTree::Object(with_field(entries, key, value)).field(key) == Some(value),
        other != key ==> JsonTree::Object(with_field(entries, key, value)).field(other) == JsonTree::Object(
            entries,
        ).field(other),
    decreases entries.len(),
{
    let r = with_field(entries, key, value);
    assert(r.first() == r[0]);
    if entries.len() == 0 {
        assert(r.drop_first() =~= Seq::<(Seq<char>, JsonTree)>::empty());
        assert(crate::json::lookup(Seq::empty(), other) is None);
        assert(crate::json::lookup(r, other) == (if other == key { Some(value) } else { None }));
    } else if entries.first().0 == key {
        assert(r.drop_first() =~= entries.drop_first());
    } else {
        lemma_with_field(entries.drop_first(), key, value, other);
        assert(r.drop_first() =~= with_field(entries.drop_first(), key, value));
    }
}

/// A dump holds the keys, the cookies and the accounts, each under its own name, beside the
/// settings, which stay as they are.
pub proof fn law_dumps_hold_every_file(
    settings: JsonTree,
    api_keys: JsonTree,
    cookies: JsonTree,
    accounts: JsonTree,
    other: Seq<char>,
)
    requires
        settings is Object,
    ensures
        ({
            let r = dump_of(settings, api_keys, cookies, accounts);
            &&& r.field("api_keys"@) == Some(api_keys)
            &&& r.field("manual_cookies"@) == Some(cookies)
            &&& r.field("token_accounts"@) == Some(accounts)
            &&& other != "api_keys"@ && other != "manual_cookies"@ && other != "token_accounts"@ ==> r.field(other)
                == settings.field(other)
        }),
{
    reveal_strlit("api_keys");
    reveal_strlit("manual_cookies");
    reveal_strlit("token_accounts");
    let a = "api_keys"@;
    let b = "manual_cookies"@;
    let c = "token_accounts"@;
    assert(a.len() == 8 && b.len() == 14 && c.len() == 14 && b[0] == 'm' && c[0] == 't');
    let entries = settings->Object_0;
    let one = with_field(entries, a, api_keys);
    let two = with_field(one, b, cookies);
    lemma_with_field(entries, a, api_keys, other);
    lemma_with_field(one, b, cookies, other);
    lemma_with_field(one, b, cookies, a);
    lemma_with_field(two, c, accounts, other);
    lemma_with_field(two, c, accounts, a);
    lemma_with_field(two, c, accounts, b);
}

/// A finding is an error where the file cannot be read or is malformed, and each finding has
/// its word.
pub proof fn law_findings_are_reported(label: Seq<char>, missing: Seq<char>, error: String)
    ensures
        finding_error(label, FileFinding::Missing) is None && finding_error(label, FileFinding::Valid) is None,
        finding_error(label, FileFinding::Unreadable(error)) == Some(label + ": Could not read file: "@ + error@),
        finding_error(label, FileFinding::Malformed(error)) == Some(label + ": "@ + error@),
        finding_word(FileFinding::Missing, missing) == missing,
        finding_word(FileFinding::Valid, missing) == "OK"@,
        finding_word(FileFinding::Unreadable(error), missing) == "ERROR"@,
        finding_word(FileFinding::Malformed(error), missing) == "INVALID"@,
{
}

/// A summary lists the warnings, then the errors, each under its title; where there are none it
/// says so.
pub proof fn law_summaries_list_what_was_found(errors: Seq<Seq<char>>, warnings: Seq<Seq<char>>, i: int)
    ensures
        ({
            let lines = summary_lines(errors, warnings);
            let w = warnings.len() as int;
            let e = errors.len() as int;
            let a = if w > 0 { w + 1 } else { 0int };
            let b = if e > 0 { e + 1 } else { 0int };
            &&& w == 0 && e == 0 ==> lines.len() == 2 && lines[1] == "Configuration is valid."@
            &&& w > 0 || e > 0 ==> lines.len() == 1 + a + b
            &&& lines[0].len() == 0
            &&& w > 0 ==> lines[1] == "Warnings:"@
            &&& w > 0 && 0 <= i < w ==> lines[2 + i] == "  - "@ + warnings[i]
            &&& e > 0 ==> lines[1 + a] == "Errors:"@
            &&& e > 0 && 0 <= i < e ==> lines[2 + a + i] == "  - "@ + errors[i]
        }),
{
}

/// A secret is stored without white space and without a pair of equal quotation marks around it;
/// nothing is stored where nothing is left.
pub proof fn law_secrets_are_bared(secret: Seq<char>)
    requires
        secret.len() > 0,
        !crate::text::is_space(secret.first()) && !crate::text::is_space(secret.last()),
        secret.first() != '"' && secret.first() != '\'',
    ensures
        secret_of(Some(secret)) == Some(secret),
        secret_of(Some(seq!['"'] + secret + seq!['"'])) == Some(secret),
        secret_of(Some(seq!['\''] + secret + seq!['\''])) == Some(secret),
        secret_of(None) is None,
        secret_of(Some(Seq::empty())) is None,
{
    assert(trimmed(secret) == secret);
    let a = seq!['"'] + secret + seq!['"'];
    let b = seq!['\''] + secret + seq!['\''];
    assert(a.first() == '"' && a.last() == '"' && b.first() == '\'' && b.last() == '\'');
    assert(trimmed(a) == a && trimmed(b) == b);
    assert(a.subrange(1, a.len() - 1) =~= secret);
    assert(b.subrange(1, b.len() - 1) =~= secret);
    assert(trimmed(Seq::<char>::empty()) =~= Seq::<char>::empty());
}

/// Dumps are written as JSON or TOML, by the name of the format in any case.
pub proof fn law_dumps_have_two_formats(format: Seq<char>)
    ensures
        lowercased(format) == "json"@ ==> dump_format_of(format) == Some(DumpFormat::Json),
        lowercased(format) == "toml"@ ==> dump_format_of(format) == Some(DumpFormat::Toml),
        lowercased(format) != "json"@ && lowercased(format) != "toml"@ ==> dump_format_of(format) is None,
{
    reveal_strlit("json");
    reveal_strlit("toml");
    assert("json"@[0] == 'j' && "toml"@[0] == 't');
}

/// A secret may be given in either way, but in one alone; whichever it is, it is read the same.
pub proof fn law_secrets_are_given_in_one_way(a: Seq<char>, b: Seq<char>, label: Seq<char>)
    ensures
        given_secret(Some(a), Some(b), label) is Err,
        given_secret(None, None, label) is Err,
        secret_of(Some(a)) is Some ==> given_secret(Some(a), None, label) == Ok::<Seq<char>, Seq<char>>(
            secret_of(Some(a))->0,
        ),
        secret_of(Some(a)) is Some ==> given_secret(None, Some(a), label) == Ok::<Seq<char>, Seq<char>>(
            secret_of(Some(a))->0,
        ),
        secret_of(Some(a)) is None ==> given_secret(Some(a), None, label) is Err && given_secret(
            None,
            Some(a),
            label,
        ) is Err,
{
}

/// What is said of a provider names it and tells whether it is used; a path that leads nowhere is
/// marked.
pub proof fn law_providers_and_paths_are_named(name: Seq<char>, shown: Seq<char>, title: Seq<char>)
    ensures
        listed_provider(name, true, false, shown) == name + ": enabled ("@ + shown + ")"@,
        listed_provider(name, false, false, shown) == name + ": disabled ("@ + shown + ")"@,
        listed_provider(name, true, true, shown) == name + ": enabled default ("@ + shown + ")"@,
        listed_provider(name, false, true, shown) == name + ": disabled default ("@ + shown + ")"@,
        told_state(shown, true) == "Config: enabled "@ + shown,
        told_state(shown, false) == "Config: disabled "@ + shown,
        told_key(shown, true) == "Config: stored API key for "@ + shown + " and enabled"@,
        told_key(shown, false) == "Config: stored API key for "@ + shown,
        titled_path(title, Some(name), true) == title + name,
        titled_path(title, Some(name), false) == title + name + " (not found)"@,
        titled_path(title, None, true) == title + "(could not determine path)"@,
{
    reveal_strlit("");
    reveal_strlit(": ");
    reveal_strlit(" (");
    reveal_strlit(" ");
    reveal_strlit("enabled");
    reveal_strlit("disabled");
    reveal_strlit(" default");
    reveal_strlit(": enabled (");
    reveal_strlit(": disabled (");
    reveal_strlit(": enabled default (");
    reveal_strlit(": disabled default (");
    reveal_strlit("Config: ");
    reveal_strlit("Config: enabled ");
    reveal_strlit("Config: disabled ");
    assert(listed_provider(name, true, false, shown) =~= name + ": enabled ("@ + shown + ")"@);
    assert(listed_provider(name, false, false, shown) =~= name + ": disabled ("@ + shown + ")"@);
    assert(listed_provider(name, true, true, shown) =~= name + ": enabled default ("@ + shown + ")"@);
    assert(listed_provider(name, false, true, shown) =~= name + ": disabled default ("@ + shown + ")"@);
    assert(told_state(shown, true) =~= "Config: enabled "@ + shown);
    assert(told_state(shown, false) =~= "Config: disabled "@ + shown);
    assert(told_key(shown, false) =~= "Config: stored API key for "@ + shown);
    assert(titled_path(title, Some(name), true) =~= title + name);
    assert(titled_path(title, Some(name), false) =~= title + name + " (not found)"@);
}

} // verus!
