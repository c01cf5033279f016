//! The usage command: what is asked for, and for which account.
use crate::json::text_view;
use crate::provider::{every_provider, provider_named, source_mode_of, FetchContext, ProviderId, SourceMode};
use crate::snapshot::ProviderFetchResult;
use crate::text::{
    all_digits, ascii_lowered, chars_of, concat3, digits_value, eq_ignore_ascii_case, lowercased, only_digits, same,
    to_lowercase,
};
use vstd::prelude::*;

verus! {

/// What is said of the argument that names a provider. The second example is the name of a
/// vendor in place of its product's; see [`crate::provider::cli_name_of`].
pub const PROVIDER_ARG_HELP: &'static str = "Provider to query (for example: codex, anthropic, gemini, antigravity/agy, nanogpt, deepseek, codebuff, windsurf, all, both)";

/// Arguments of the usage command.
#[derive(Debug, Default)]
pub struct UsageArgs {
    pub provider: Option<String>,
    pub format: UsageOutputFormat,
    /// Shorthand for the JSON format
    pub json: bool,
    pub no_credits: bool,
    pub no_color: bool,
    pub pretty: bool,
    pub status: bool,
    pub all_accounts: bool,
    /// Token-account label or 1-based index
    pub account: Option<String>,
    pub source: String,
    pub web_timeout: u64,
    pub brief: bool,
}

#[derive(Debug, Clone, Copy, Default, PartialEq, Eq, Structural)]
pub enum OutputFormat {
    #[default]
    Text,
    Json,
}

#[derive(Debug, Clone, Copy, Default, PartialEq, Eq, Structural)]
pub enum UsageOutputFormat {
    #[default]
    Text,
    Json,
    Toon,
}

/// The format with a name, in any case.
pub open spec fn output_format_of(name: Seq<char>) -> Option<OutputFormat> {
    if lowercased(name) == "text"@ {
        Some(OutputFormat::Text)
    } else if lowercased(name) == "json"@ {
        Some(OutputFormat::Json)
    } else {
        None
    }
}

/// The format with a name, in any case.
pub open spec fn usage_format_of(name: Seq<char>) -> Option<UsageOutputFormat> {
    if lowercased(name) == "text"@ {
        Some(UsageOutputFormat::Text)
    } else if lowercased(name) == "json"@ {
        Some(UsageOutputFormat::Json)
    } else if lowercased(name) == "toon"@ {
        Some(UsageOutputFormat::Toon)
    } else {
        None
    }
}

impl OutputFormat {
    pub fn from_name(name: &str) -> (r: Result<OutputFormat, String>)
        ensures
            match output_format_of(name@) {
                Some(format) => r is Ok && r->Ok_0 == format,
                None => r is Err && r->Err_0@ == "Invalid format: "@ + name@ + ". Use 'text' or 'json'"@,
            },
    {
        let lower = to_lowercase(name);
        if same(lower.as_str(), "text") {
            Ok(OutputFormat::Text)
        } else if same(lower.as_str(), "json") {
            Ok(OutputFormat::Json)
        } else {
            Err(concat3("Invalid format: ", name, ". Use 'text' or 'json'"))
        }
    }
}

impl UsageOutputFormat {
    pub fn from_name(name: &str) -> (r: Result<UsageOutputFormat, String>)
        ensures
            match usage_format_of(name@) {
                Some(format) => r is Ok && r->Ok_0 == format,
                None => r is Err && r->Err_0@ == "Invalid format: "@ + name@ + ". Use 'text', 'json', or 'toon'"@,
            },
    {
        let lower = to_lowercase(name);
        if same(lower.as_str(), "text") {
            Ok(UsageOutputFormat::Text)
        } else if same(lower.as_str(), "json") {
            Ok(UsageOutputFormat::Json)
        } else if same(lower.as_str(), "toon") {
            Ok(UsageOutputFormat::Toon)
        } else {
            Err(concat3("Invalid format: ", name, ". Use 'text', 'json', or 'toon'"))
        }
    }
}

impl std::str::FromStr for OutputFormat {
    type Err = String;

    fn from_str(s: &str) -> (r: Result<OutputFormat, String>)
        ensures
            match output_format_of(s@) {
                Some(format) => r is Ok && r->Ok_0 == format,
                None => r is Err && r->Err_0@ == "Invalid format: "@ + s@ + ". Use 'text' or 'json'"@,
            },
    {
        OutputFormat::from_name(s)
    }
}

impl std::str::FromStr for UsageOutputFormat {
    type Err = String;

    fn from_str(s: &str) -> (r: Result<UsageOutputFormat, String>)
        ensures
            match usage_format_of(s@) {
                Some(format) => r is Ok && r->Ok_0 == format,
                None => r is Err && r->Err_0@ == "Invalid format: "@ + s@ + ". Use 'text', 'json', or 'toon'"@,
            },
    {
        UsageOutputFormat::from_name(s)
    }
}

/// Which providers are asked.
#[derive(Debug, Clone, Copy, PartialEq, Eq, Structural)]
pub enum ProviderSelection {
    Single(ProviderId),
    Both,
    All,
}

/// The selection that an argument stands for; none stands for the default provider.
pub open spec fn selection_of(arg: Option<Seq<char>>) -> Option<ProviderSelection> {
    match arg {
        None => Some(ProviderSelection::Single(ProviderId::Claude)),
        Some(arg) => if lowercased(arg) == "all"@ {
            Some(ProviderSelection::All)
        } else if lowercased(arg) == "both"@ {
            Some(ProviderSelection::Both)
        } else {
            match provider_named(lowercased(arg)) {
                Some(id) => Some(ProviderSelection::Single(id)),
                None => None,
            }
        },
    }
}

/// The providers of a selection.
pub open spec fn selected(selection: ProviderSelection) -> Seq<ProviderId> {
    match selection {
        ProviderSelection::Single(id) => seq![id],
        ProviderSelection::Both => seq![ProviderId::Codex, ProviderId::Claude],
        ProviderSelection::All => every_provider(),
    }
}

pub open spec fn argument_view(arg: Option<&str>) -> Option<Seq<char>> {
    match arg {
        Some(arg) => Some(arg@),
        None => None,
    }
}

/// What is said of an argument that names no provider.
pub open spec fn unknown_provider(name: Seq<char>) -> Seq<char> {
    "Unknown provider: '"@ + name + "'. Use --help to see available providers."@
}

impl ProviderSelection {
    pub fn from_arg(arg: Option<&str>) -> (r: Result<ProviderSelection, String>)
        ensures
            match selection_of(argument_view(arg)) {
                Some(selection) => r is Ok && r->Ok_0 == selection,
                None => arg is Some && r is Err && r->Err_0@ == unknown_provider(lowercased(arg->0@)),
            },
    {
        let arg = match arg {
            Some(arg) => arg,
            None => return Ok(ProviderSelection::Single(ProviderId::Claude)),
        };
        let name = to_lowercase(arg);
        if same(name.as_str(), "all") {
            return Ok(ProviderSelection::All);
        }
        if same(name.as_str(), "both") {
            return Ok(ProviderSelection::Both);
        }
        match ProviderId::from_cli_name(name.as_str()) {
            Some(id) => Ok(ProviderSelection::Single(id)),
            None => Err(
                concat3("Unknown provider: '", name.as_str(), "'. Use --help to see available providers."),
            ),
        }
    }

    pub fn as_list(&self) -> (r: Vec<ProviderId>)
        ensures
            r@ == selected(*self),
    {
        match self {
            ProviderSelection::Single(id) => vec![*id],
            ProviderSelection::Both => vec![ProviderId::Codex, ProviderId::Claude],
            ProviderSelection::All => ProviderId::all(),
        }
    }
}

/// What is printed for a provider in JSON.
pub struct ProviderPayload {
    pub provider: String,
    pub version: Option<String>,
    pub source: String,
    pub result: ProviderFetchResult,
}

/// A usage command.
#[derive(Debug)]
pub struct UsageCommand {
    pub format: UsageOutputFormat,
    pub providers: Vec<ProviderId>,
    pub use_color: bool,
    pub brief: bool,
    pub fetch_status: bool,
    pub pretty: bool,
    pub account: Option<String>,
    pub all_accounts: bool,
    pub ctx: FetchContext,
}

pub open spec fn format_of(args: UsageArgs) -> UsageOutputFormat {
    if args.json {
        UsageOutputFormat::Json
    } else {
        args.format
    }
}

pub fn effective_format(args: &UsageArgs) -> (r: UsageOutputFormat)
    ensures
        r == format_of(*args),
{
    if args.json {
        UsageOutputFormat::Json
    } else {
        args.format
    }
}

/// The context of a fetch from the command line: no credentials yet, and optional
/// additions worth waiting for.
pub open spec fn is_command_context(ctx: FetchContext, args: UsageArgs, mode: SourceMode) -> bool {
    &&& ctx.source_mode == mode
    &&& ctx.include_credits == !args.no_credits
    &&& ctx.web_timeout == args.web_timeout
    &&& !ctx.verbose
    &&& ctx.manual_cookie_header is None
    &&& ctx.api_key is None
    &&& ctx.workspace_id is None
    &&& ctx.api_region is None
    &&& ctx.gateway_url is None
    &&& !ctx.auto_prefer_web
    &&& ctx.requires_optional_usage_completeness
}

pub fn build_usage_fetch_context(args: &UsageArgs, source_mode: SourceMode) -> (r: FetchContext)
    ensures
        is_command_context(r, *args, source_mode),
{
    FetchContext {
        source_mode,
        include_credits: !args.no_credits,
        web_timeout: args.web_timeout,
        verbose: false,
        manual_cookie_header: None,
        api_key: None,
        workspace_id: None,
        api_region: None,
        gateway_url: None,
        auto_prefer_web: false,
        requires_optional_usage_completeness: true,
    }
}

/// Why arguments are refused, if they are.
pub open spec fn args_error(args: UsageArgs) -> Option<Seq<char>> {
    match selection_of(text_view(args.provider)) {
        None => Some(unknown_provider(lowercased(args.provider->0@))),
        Some(selection) => if args.account is Some && selected(selection).len() != 1 {
            Some("--account requires a single --provider (not all/both)"@)
        } else if args.all_accounts && args.account is Some {
            Some("--all-accounts cannot be combined with --account"@)
        } else {
            None
        },
    }
}

/// The mode that a source names; an unknown one is automatic.
pub open spec fn mode_of(source: Seq<char>) -> SourceMode {
    match source_mode_of(source) {
        Some(mode) => mode,
        None => SourceMode::Auto,
    }
}

/// The command that accepted arguments ask for.
pub open spec fn is_command(command: UsageCommand, args: UsageArgs, stdout_is_terminal: bool) -> bool {
    &&& command.format == format_of(args)
    &&& command.providers@ == selected(selection_of(text_view(args.provider))->0)
    &&& command.use_color == (!args.no_color && stdout_is_terminal)
    &&& command.brief == args.brief
    &&& command.fetch_status == args.status
    &&& command.pretty == args.pretty
    &&& text_view(command.account) == text_view(args.account)
    &&& command.all_accounts == args.all_accounts
    &&& is_command_context(command.ctx, args, mode_of(args.source@))
}

impl UsageCommand {
    /// The command that arguments ask for.
    pub fn from_args(args: UsageArgs, stdout_is_terminal: bool) -> (r: Result<UsageCommand, String>)
        ensures
            match args_error(args) {
                Some(error) => r is Err && r->Err_0@ == error,
                None => r is Ok && is_command(r->Ok_0, args, stdout_is_terminal),
            },
    {
        let format = effective_format(&args);
        let source_mode = match SourceMode::parse(args.source.as_str()) {
            Some(mode) => mode,
            None => SourceMode::Auto,
        };
        let name = match &args.provider {
            Some(name) => Some(name.as_str()),
            None => None,
        };
        let providers = match ProviderSelection::from_arg(name) {
            Ok(selection) => selection.as_list(),
            Err(error) => return Err(error),
        };
        if args.account.is_some() && providers.len() != 1 {
            return Err("--account requires a single --provider (not all/both)".to_string());
        }
        if args.all_accounts && args.account.is_some() {
            return Err("--all-accounts cannot be combined with --account".to_string());
        }
        let ctx = build_usage_fetch_context(&args, source_mode);
        Ok(
            UsageCommand {
                format,
                providers,
                use_color: !args.no_color && stdout_is_terminal,
                brief: args.brief,
                fetch_status: args.status,
                pretty: args.pretty,
                account: args.account,
                all_accounts: args.all_accounts,
                ctx,
            },
        )
    }
}

/// A stored account.
#[derive(Debug)]
pub struct TokenAccount {
    pub label: String,
    pub token: String,
}

/// The stored accounts of a provider.
#[derive(Debug)]
pub struct ProviderAccountData {
    pub accounts: Vec<TokenAccount>,
    pub active_index: usize,
}

/// The number that a text spells: digits, with an optional plus sign before them.
pub open spec fn number_of(s: Seq<char>) -> Option<nat> {
    let digits = if s.len() > 0 && s.first() == '+' { s.drop_first() } else { s };
    if digits.len() > 0 && all_digits(digits) {
        Some(digits_value(digits))
    } else {
        None
    }
}

/// The place that a text names in a list of `n`: from 1 up.
pub open spec fn place_of(s: Seq<char>, n: nat) -> Option<int> {
    match number_of(s) {
        Some(k) => if 1 <= k <= n {
            Some(k - 1)
        } else {
            None
        },
        None => None,
    }
}

fn parse_place(s: &str, n: usize) -> (r: Option<usize>)
    ensures
        match r {
            Some(i) => place_of(s@, n as nat) == Some(i as int),
            None => place_of(s@, n as nat) is None,
        },
{
    let v = chars_of(s);
    let from: usize = if v.len() > 0 && v[0] == '+' { 1 } else { 0 };
    let ghost all = v@.skip(from as int);
    proof {
        if from == 1 {
            assert(v@.drop_first() =~= v@.skip(1));
        } else {
            assert(v@ =~= v@.skip(0));
        }
        assert(all =~= v@.subrange(from as int, v@.len() as int));
    }
    if v.len() == from || !only_digits(&v, from, v.len()) {
        return None;
    }
    let mut k: u128 = 0;
    let mut i: usize = from;
    proof {
        assert(all.take(0) =~= Seq::<char>::empty());
    }
    while i < v.len()
        invariant
            from <= i <= v@.len(),
            v@ == s@,
            from == (if v@.len() > 0 && v@[0] == '+' { 1usize } else { 0usize }),
            all == v@.skip(from as int),
            all == (if s@.len() > 0 && s@.first() == '+' { s@.drop_first() } else { s@ }),
            all.len() > 0,
            all_digits(all),
            k <= n,
            k == digits_value(all.take(i - from)),
        decreases v@.len() - i,
    {
        proof {
            assert(all.take(i - from + 1).drop_last() =~= all.take(i - from));
            assert(all[i - from] == v@[i as int]);
            assert('0' <= all[i - from] <= '9');
        }
        k = k * 10 + (v[i] as u128 - 48);
        i = i + 1;
        if k > n as u128 {
            proof {
                crate::text::lemma_digits_grow(all, i - from);
            }
            return None;
        }
    }
    proof {
        assert(all.take(i - from) =~= all);
    }
    if k >= 1 {
        Some((k - 1) as usize)
    } else {
        None
    }
}

/// The first account with a label, in any case.
pub open spec fn labelled(accounts: Seq<TokenAccount>, label: Seq<char>) -> Option<int>
    decreases accounts.len(),
{
    if accounts.len() == 0 {
        None
    } else {
        match labelled(accounts.drop_last(), label) {
            Some(i) => Some(i),
            None => if ascii_lowered(accounts.last().label@) == ascii_lowered(label) {
                Some(accounts.len() - 1)
            } else {
                None
            },
        }
    }
}

/// The account that a reference names: by its place, else by its label.
pub open spec fn account_named(accounts: Seq<TokenAccount>, reference: Seq<char>) -> Option<int> {
    match place_of(reference, accounts.len()) {
        Some(i) => Some(i),
        None => labelled(accounts, reference),
    }
}

/// The account that a reference names.
pub fn find_token_account<'a>(data: &'a ProviderAccountData, account_ref: &str) -> (r: Result<
    &'a TokenAccount,
    String,
>)
    ensures
        match account_named(data.accounts@, account_ref@) {
            Some(i) => 0 <= i < data.accounts@.len() && r is Ok && *r->Ok_0 == data.accounts@[i],
            None => r is Err && r->Err_0@ == "Account '"@ + account_ref@
                + "' not found. Use 'codexbar account list <provider>' to see accounts."@,
        },
{
    let accounts = &data.accounts;
    if let Some(i) = parse_place(account_ref, accounts.len()) {
        return Ok(&accounts[i]);
    }
    let mut i: usize = 0;
    proof {
        assert(accounts@.take(0) =~= Seq::<TokenAccount>::empty());
    }
    while i < accounts.len()
        invariant
            i <= accounts@.len(),
            accounts@ == data.accounts@,
            place_of(account_ref@, accounts@.len()) is None,
            labelled(accounts@.take(i as int), account_ref@) is None,
        decreases accounts@.len() - i,
    {
        proof {
            assert(accounts@.take(i + 1).drop_last() =~= accounts@.take(i as int));
        }
        if eq_ignore_ascii_case(accounts[i].label.as_str(), account_ref) {
            proof {
                lemma_labelled_first(accounts@, account_ref@, i as int);
            }
            return Ok(&accounts[i]);
        }
        i = i + 1;
    }
    proof {
        assert(accounts@.take(i as int) =~= accounts@);
    }
    Err(
        concat3(
            "Account '",
            account_ref,
            "' not found. Use 'codexbar account list <provider>' to see accounts.",
        ),
    )
}

proof fn lemma_labelled_first(accounts: Seq<TokenAccount>, label: Seq<char>, i: int)
    requires
        0 <= i < accounts.len(),
        labelled(accounts.take(i), label) is None,
        ascii_lowered(accounts[i].label@) == ascii_lowered(label),
    ensures
        labelled(accounts, label) == Some(i),
    decreases accounts.len(),
{
    if i == accounts.len() - 1 {
        assert(accounts.drop_last() =~= accounts.take(i));
    } else {
        assert(accounts.drop_last().take(i) =~= accounts.take(i));
        lemma_labelled_first(accounts.drop_last(), label, i);
    }
}

/// Where the account whose key is used stands, or why there is none.
pub open spec fn selected_account(
    accounts: Seq<TokenAccount>,
    active: usize,
    reference: Option<Seq<char>>,
    display_name: Seq<char>,
) -> Result<int, Seq<char>> {
    match reference {
        Some(reference) => match account_named(accounts, reference) {
            Some(i) => Ok(i),
            None => Err(
                "Account '"@ + reference + "' not found. Use 'codexbar account list <provider>' to see accounts."@,
            ),
        },
        None => if active < accounts.len() {
            Ok(active as int)
        } else {
            Err("No active token account for "@ + display_name)
        },
    }
}

/// The account whose key is used, where stored accounts are: the named one, else
/// the active one.
pub fn select_account<'a>(data: &'a ProviderAccountData, account_ref: Option<&str>, display_name: &str) -> (r: Result<
    &'a TokenAccount,
    String,
>)
    ensures
        match selected_account(data.accounts@, data.active_index, argument_view(account_ref), display_name@) {
            Ok(i) => 0 <= i < data.accounts@.len() && r is Ok && *r->Ok_0 == data.accounts@[i],
            Err(error) => r is Err && r->Err_0@ == error,
        },
{
    match account_ref {
        Some(reference) => find_token_account(data, reference),
        None => if data.active_index < data.accounts.len() {
            Ok(&data.accounts[data.active_index])
        } else {
            Err(crate::text::concat2("No active token account for ", display_name))
        },
    }
}

/// The key that counts.
pub open spec fn key_used(account_key: Option<Seq<char>>, stored: Option<Seq<char>>) -> Option<Seq<char>> {
    match account_key {
        Some(key) => Some(key),
        None => stored,
    }
}

/// The API key of a fetch: that of the account before the stored one.
pub fn preferred_key(account_key: Option<String>, stored: Option<String>) -> (r: Option<String>)
    ensures
        text_view(r) == key_used(text_view(account_key), text_view(stored)),
{
    match account_key {
        Some(key) => Some(key),
        None => stored,
    }
}

/// Every provider can be selected by its name, in whatever case it is written.
pub proof fn law_every_provider_can_be_selected(id: ProviderId, arg: Seq<char>)
    requires
        lowercased(arg) == crate::provider::cli_name_of(id),
    ensures
        selection_of(Some(arg)) == Some(ProviderSelection::Single(id)),
{
    crate::provider::law_cli_names_lead_back(id);
}

/// Without an argument the default provider is asked, `both` asks two, `all` asks every one,
/// and a name asks the provider of that name.
pub proof fn law_selections_ask_the_named_providers(arg: Seq<char>)
    ensures
        selection_of(None) == Some(ProviderSelection::Single(ProviderId::Claude)),
        lowercased(arg) == "all"@ ==> selection_of(Some(arg)) == Some(ProviderSelection::All),
        lowercased(arg) == "both"@ ==> selection_of(Some(arg)) == Some(ProviderSelection::Both),
        lowercased(arg) != "all"@ && lowercased(arg) != "both"@ && provider_named(lowercased(arg)) is Some
            ==> selection_of(Some(arg)) == Some(ProviderSelection::Single(provider_named(lowercased(arg))->0)),
        lowercased(arg) != "all"@ && lowercased(arg) != "both"@ && provider_named(lowercased(arg)) is None
            ==> selection_of(Some(arg)) is None,
{
    reveal_strlit("all");
    reveal_strlit("both");
    assert("all"@.len() == 3 && "both"@.len() == 4);
}

/// A single selection is its provider, both are Codex and the default one, and all are all.
pub proof fn law_selections_list_their_providers(id: ProviderId)
    ensures
        selected(ProviderSelection::Single(id)).len() == 1 && selected(ProviderSelection::Single(id))[0] == id,
        selected(ProviderSelection::Both).len() == 2,
        selected(ProviderSelection::Both)[0] == ProviderId::Codex,
        selected(ProviderSelection::Both)[1] == ProviderId::Claude,
        selected(ProviderSelection::All).contains(id),
        selected(ProviderSelection::All).no_duplicates(),
{
    crate::provider::law_every_provider_is_listed_once(id);
}

/// The formats go by these names, in any case.
pub proof fn law_formats_are_spelled_as_documented(name: Seq<char>)
    ensures
        lowercased(name) == "text"@ ==> output_format_of(name) == Some(OutputFormat::Text) && usage_format_of(name)
            == Some(UsageOutputFormat::Text),
        lowercased(name) == "json"@ ==> output_format_of(name) == Some(OutputFormat::Json) && usage_format_of(name)
            == Some(UsageOutputFormat::Json),
        lowercased(name) == "toon"@ ==> output_format_of(name) is None && usage_format_of(name) == Some(
            UsageOutputFormat::Toon,
        ),
        lowercased(name) != "text"@ && lowercased(name) != "json"@ && lowercased(name) != "toon"@ ==> output_format_of(
            name,
        ) is None && usage_format_of(name) is None,
{
    reveal_strlit("text");
    reveal_strlit("json");
    reveal_strlit("toon");
    assert("text"@[1] == 'e' && "toon"@[1] == 'o' && "json"@[0] == 'j' && "text"@[0] == 't' && "toon"@[0] == 't');
}

/// Arguments are refused where they name no provider, where an account is named for several
/// providers, or where an account is named while all are asked for.
pub proof fn law_arguments_that_fit_are_accepted(args: UsageArgs)
    ensures
        ({
            let selection = selection_of(text_view(args.provider));
            &&& args_error(args) is None <==> selection is Some && (args.account is None || (selected(
                selection->0,
            ).len() == 1 && !args.all_accounts))
            &&& args.json ==> format_of(args) == UsageOutputFormat::Json
            &&& !args.json ==> format_of(args) == args.format
        }),
{
}

/// An account is named by its place, counted from one, before any label.
pub proof fn law_places_count_from_one(accounts: Seq<TokenAccount>, reference: Seq<char>, k: nat)
    requires
        reference.len() > 0,
        all_digits(reference),
        digits_value(reference) == k,
    ensures
        1 <= k <= accounts.len() ==> account_named(accounts, reference) == Some(k - 1),
{
    assert('0' <= reference[0] <= '9');
    assert(reference.first() == reference[0]);
}

/// Else it is the first account whose label is the reference, in any case.
pub proof fn law_labels_name_the_first_match(accounts: Seq<TokenAccount>, reference: Seq<char>, i: int)
    requires
        number_of(reference) is None,
        0 <= i < accounts.len(),
        ascii_lowered(accounts[i].label@) == ascii_lowered(reference),
        forall|j: int| 0 <= j < i ==> ascii_lowered((#[trigger] accounts[j]).label@) != ascii_lowered(reference),
    ensures
        account_named(accounts, reference) == Some(i),
    decreases accounts.len(),
{
    let rest = accounts.drop_last();
    if i < accounts.len() - 1 {
        assert(rest[i] == accounts[i]);
        assert forall|j: int| 0 <= j < i implies ascii_lowered((#[trigger] rest[j]).label@) != ascii_lowered(
            reference,
        ) by {
            assert(rest[j] == accounts[j]);
        }
        law_labels_name_the_first_match(rest, reference, i);
    } else {
        lemma_no_label(rest, reference);
    }
}

proof fn lemma_no_label(accounts: Seq<TokenAccount>, label: Seq<char>)
    requires
        forall|j: int| 0 <= j < accounts.len() ==> ascii_lowered((#[trigger] accounts[j]).label@) != ascii_lowered(
            label,
        ),
    ensures
        labelled(accounts, label) is None,
    decreases accounts.len(),
{
    if accounts.len() > 0 {
        let rest = accounts.drop_last();
        assert forall|j: int| 0 <= j < rest.len() implies ascii_lowered((#[trigger] rest[j]).label@) != ascii_lowered(
            label,
        ) by {
            assert(rest[j] == accounts[j]);
        }
        lemma_no_label(rest, label);
        assert(accounts[accounts.len() - 1] == accounts.last());
    }
}

/// A source that has no name is automatic.
pub proof fn law_unknown_sources_are_automatic(source: Seq<char>)
    ensures
        source_mode_of(source) is Some ==> mode_of(source) == source_mode_of(source)->0,
        source_mode_of(source) is None ==> mode_of(source) == SourceMode::Auto,
{
}

/// A command does what each of its arguments asks for: colors only on a terminal and where they
/// are not refused, credits unless they are left out, and the wait that was set.
pub proof fn law_commands_follow_their_arguments(command: UsageCommand, args: UsageArgs, terminal: bool)
    requires
        is_command(command, args, terminal),
    ensures
        command.use_color <==> terminal && !args.no_color,
        command.brief <==> args.brief,
        command.fetch_status <==> args.status,
        command.pretty <==> args.pretty,
        command.all_accounts <==> args.all_accounts,
        text_view(command.account) == text_view(args.account),
        command.format == format_of(args),
        command.ctx.include_credits <==> !args.no_credits,
        command.ctx.web_timeout == args.web_timeout,
        command.ctx.source_mode == mode_of(args.source@),
        !command.ctx.verbose && !command.ctx.auto_prefer_web && command.ctx.requires_optional_usage_completeness,
        command.ctx.api_key is None && command.ctx.manual_cookie_header is None && command.ctx.workspace_id is None,
        command.ctx.api_region is None && command.ctx.gateway_url is None,
        args.provider is None ==> command.providers@.len() == 1 && command.providers@[0] == ProviderId::Claude,
        forall|id: ProviderId|
            args.provider is Some && lowercased(args.provider->0@) == #[trigger] crate::provider::cli_name_of(id)
                ==> command.providers@.len() == 1 && command.providers@[0] == id,
{
    assert forall|id: ProviderId|
        args.provider is Some && lowercased(args.provider->0@) == #[trigger] crate::provider::cli_name_of(
            id,
        ) implies command.providers@.len() == 1 && command.providers@[0] == id by {
        law_every_provider_can_be_selected(id, args.provider->0@);
    }
}

/// A named account comes before the active one, and the key of an account before the stored one.
pub proof fn law_named_accounts_come_first(
    accounts: Seq<TokenAccount>,
    active: usize,
    reference: Seq<char>,
    name: Seq<char>,
    key: Seq<char>,
    stored: Option<Seq<char>>,
)
    ensures
        selected_account(accounts, active, None, name) is Ok <==> active < accounts.len(),
        active < accounts.len() ==> selected_account(accounts, active, None, name) == Ok::<int, Seq<char>>(active as int),
        account_named(accounts, reference) is Some ==> selected_account(accounts, active, Some(reference), name) == Ok::<
            int,
            Seq<char>,
        >(account_named(accounts, reference)->0),
        account_named(accounts, reference) is None ==> selected_account(accounts, active, Some(reference), name) is Err,
        key_used(Some(key), stored) == Some(key),
        key_used(None, stored) == stored,
{
}

/// A number is spelled by at least one digit, and a plus sign may stand before it. It names a
/// place where it is from 1 to the length of the list.
pub proof fn law_numbers_are_spelled_by_digits(s: Seq<char>, n: nat)
    ensures
        s.len() > 0 && all_digits(s) ==> number_of(s) == Some(digits_value(s)),
        s.len() > 0 && all_digits(s) ==> number_of(seq!['+'] + s) == Some(digits_value(s)),
        number_of(Seq::empty()) is None,
        number_of(seq!['+']) is None,
        number_of(s) is Some && 1 <= number_of(s)->0 <= n ==> place_of(s, n) == Some(number_of(s)->0 - 1),
        number_of(s) is Some && !(1 <= number_of(s)->0 <= n) ==> place_of(s, n) is None,
        number_of(s) is None ==> place_of(s, n) is None,
{
    if s.len() > 0 && all_digits(s) {
        assert('0' <= s[0] <= '9');
        assert(s.first() == s[0]);
    }
    let plus = seq!['+'] + s;
    assert(plus.first() == '+');
    assert(plus.drop_first() =~= s);
    assert(seq!['+'].drop_first().len() == 0);
}

/// What cannot be asked for, and an account that is not there, is named.
pub proof fn law_unknown_names_are_named(accounts: Seq<TokenAccount>, active: usize, reference: Seq<char>, name: Seq<char>)
    ensures
        unknown_provider(name) == "Unknown provider: '"@ + name + "'. Use --help to see available providers."@,
        active >= accounts.len() ==> selected_account(accounts, active, None, name) == Err::<int, Seq<char>>(
            "No active token account for "@ + name,
        ),
        account_named(accounts, reference) is None ==> selected_account(accounts, active, Some(reference), name)
            == Err::<int, Seq<char>>(
            "Account '"@ + reference + "' not found. Use 'codexbar account list <provider>' to see accounts."@,
        ),
{
}

} // verus!
