//! The credentials that the Codex command line keeps, and whether to trust them.
use crate::http::{describe_status, is_success, status_text};
use crate::json::{json_of_bytes, json_of_text, parse_bytes, parse_text, text_view, Json, JsonTree};
use crate::snapshot::{check_view, ErrorModel, ProviderError};
use crate::text::{before_char, concat2, concat4, index_of, is_blank, split_at, split_once, trim, trimmed};
use crate::timestamp::{
    from_unix, naive_instant, nanos_between, parse_naive, parse_rfc3339, rfc3339_instant, unix_instant, Timestamp,
};
use vstd::prelude::*;

verus! {

/// For how long credentials without an expiry of their own are trusted: eight days,
/// in nanoseconds.
pub const STALENESS_NANOS: i128 = 691_200_000_000_000;

/// How long before its expiry a token is no longer used: five minutes, in
/// nanoseconds.
pub const REFRESH_NANOS: i128 = 300_000_000_000;

/// For how long read credentials are reused: five seconds, in nanoseconds.
pub const CACHE_NANOS: u128 = 5_000_000_000;

/// Credentials for the Codex backend.
#[derive(Debug)]
pub struct CodexCredentials {
    pub access_token: String,
    pub account_id: Option<String>,
    /// The tokens belong to the command line, which refreshes them.
    pub is_external_oauth: bool,
    /// The expiry that the token itself states.
    pub access_token_expires_at: Option<Timestamp>,
    /// When the command line last refreshed the tokens.
    pub last_refresh: Option<Timestamp>,
}

/// What [`CodexCredentials`] say.
pub ghost struct CredentialsModel {
    pub access_token: Seq<char>,
    pub account_id: Option<Seq<char>>,
    pub is_external_oauth: bool,
    pub access_token_expires_at: Option<Timestamp>,
    pub last_refresh: Option<Timestamp>,
}

impl View for CodexCredentials {
    type V = CredentialsModel;

    open spec fn view(&self) -> CredentialsModel {
        CredentialsModel {
            access_token: self.access_token@,
            account_id: text_view(self.account_id),
            is_external_oauth: self.is_external_oauth,
            access_token_expires_at: self.access_token_expires_at,
            last_refresh: self.last_refresh,
        }
    }
}

/// What decoding base64 with the URL-safe alphabet and no padding gives.
pub uninterp spec fn base64_unpadded(text: Seq<char>) -> Option<Seq<u8>>;

/// What decoding base64 with the URL-safe alphabet and padding gives.
pub uninterp spec fn base64_padded(text: Seq<char>) -> Option<Seq<u8>>;

pub open spec fn bytes_view(b: Option<Vec<u8>>) -> Option<Seq<u8>> {
    match b {
        Some(b) => Some(b@),
        None => None,
    }
}

/// `base64::Engine::decode` of the engine `URL_SAFE_NO_PAD`. The result depends on
/// the text alone.
#[verifier::external_body]
fn decode_unpadded(text: &str) -> (r: Option<Vec<u8>>)
    ensures
        bytes_view(r) == base64_unpadded(text@),
{
    base64::Engine::decode(&base64::engine::general_purpose::URL_SAFE_NO_PAD, text).ok()
}

/// `base64::Engine::decode` of the engine `URL_SAFE`. The result depends on the
/// text alone.
#[verifier::external_body]
fn decode_padded(text: &str) -> (r: Option<Vec<u8>>)
    ensures
        bytes_view(r) == base64_padded(text@),
{
    base64::Engine::decode(&base64::engine::general_purpose::URL_SAFE, text).ok()
}

/// The second of the parts of a token that dots separate.
pub open spec fn token_payload(token: Seq<char>) -> Option<Seq<char>> {
    match split_at(token, '.') {
        Some((_, rest)) => Some(rest.take(index_of(rest, '.'))),
        None => None,
    }
}

/// The bytes of a token's payload.
pub open spec fn payload_bytes(token: Seq<char>) -> Option<Seq<u8>> {
    match token_payload(token) {
        Some(payload) => match base64_unpadded(payload) {
            Some(bytes) => Some(bytes),
            None => base64_padded(payload),
        },
        None => None,
    }
}

/// The expiry that the claims of a token state.
pub open spec fn claimed_expiry(claims: JsonTree) -> Option<Timestamp> {
    match claims.field("exp"@) {
        Some(field) => match field.integer() {
            Some(secs) => unix_instant(secs),
            None => None,
        },
        None => None,
    }
}

/// The expiry that a token states.
pub open spec fn token_expiry(token: Seq<char>) -> Option<Timestamp> {
    match payload_bytes(token) {
        Some(bytes) => match json_of_bytes(bytes) {
            Ok(claims) => claimed_expiry(claims),
            Err(_) => None,
        },
        None => None,
    }
}

/// The expiry among the claims of a token.
pub fn expiry_from_claims(claims: &Json) -> (r: Option<Timestamp>)
    ensures
        r == claimed_expiry(claims.tree()),
{
    match claims.get("exp") {
        Some(field) => match field.as_i64() {
            Some(secs) => from_unix(secs),
            None => None,
        },
        None => None,
    }
}

pub fn parse_access_token_expiry(token: &str) -> (r: Option<Timestamp>)
    ensures
        r == token_expiry(token@),
{
    let payload = match split_once(token, '.') {
        Some((_, rest)) => before_char(rest.as_str(), '.'),
        None => return None,
    };
    let bytes = match decode_unpadded(payload.as_str()) {
        Some(bytes) => bytes,
        None => match decode_padded(payload.as_str()) {
            Some(bytes) => bytes,
            None => return None,
        },
    };
    match parse_bytes(bytes.as_slice()) {
        Ok(claims) => expiry_from_claims(&claims),
        Err(_) => None,
    }
}

/// The instant that a time of refresh names: with an offset, else in universal time.
pub open spec fn refresh_instant(raw: Seq<char>) -> Option<Timestamp> {
    let text = trimmed(raw);
    if text.len() == 0 {
        None
    } else {
        match rfc3339_instant(text) {
            Ok(t) => Some(t),
            Err(_) => naive_instant(text, "%Y-%m-%dT%H:%M:%S%.f"@),
        }
    }
}

pub fn parse_timestamp(raw: &str) -> (r: Option<Timestamp>)
    ensures
        r == refresh_instant(raw@),
{
    let text = trim(raw);
    if is_blank(text.as_str()) {
        return None;
    }
    match parse_rfc3339(text.as_str()) {
        Ok(t) => Some(t),
        Err(_) => parse_naive(text.as_str(), "%Y-%m-%dT%H:%M:%S%.f"),
    }
}

/// The text of a field.
pub open spec fn text_in(tree: JsonTree, name: Seq<char>) -> Option<Seq<char>> {
    match tree.field(name) {
        Some(field) => field.text(),
        None => None,
    }
}

/// The text of a field, unless it is empty.
pub open spec fn full_text_in(tree: JsonTree, name: Seq<char>) -> Option<Seq<char>> {
    match text_in(tree, name) {
        Some(text) => if text.len() > 0 {
            Some(text)
        } else {
            None
        },
        None => None,
    }
}

fn text_field(tree: &Json, name: &str) -> (r: Option<String>)
    ensures
        text_view(r) == text_in(tree.tree(), name@),
{
    crate::json::read_text(tree.get(name))
}

fn full_text_field(tree: &Json, name: &str) -> (r: Option<String>)
    ensures
        text_view(r) == full_text_in(tree.tree(), name@),
{
    match text_field(tree, name) {
        Some(text) => if is_blank(text.as_str()) {
            None
        } else {
            Some(text)
        },
        None => None,
    }
}

/// The credentials of an API key.
pub open spec fn api_key_credentials(key: Seq<char>) -> CredentialsModel {
    CredentialsModel {
        access_token: key,
        account_id: None,
        is_external_oauth: false,
        access_token_expires_at: None,
        last_refresh: None,
    }
}

/// An API key that is not blank.
pub open spec fn api_key_in(json: JsonTree) -> Option<Seq<char>> {
    match text_in(json, "OPENAI_API_KEY"@) {
        Some(key) => if trimmed(key).len() > 0 {
            Some(trimmed(key))
        } else {
            None
        },
        None => None,
    }
}

/// The credentials that a value holds: an API key before any tokens. The refresh
/// token is only looked for, never kept.
pub open spec fn credentials_of(json: JsonTree) -> Result<CredentialsModel, ErrorModel> {
    match api_key_in(json) {
        Some(key) => Ok(api_key_credentials(key)),
        None => match json.field("tokens"@) {
            None => Err(ErrorModel::Parse("Codex auth.json exists but contains no tokens."@)),
            Some(tokens) => match full_text_in(tokens, "access_token"@) {
                None => Err(ErrorModel::Parse("Missing access_token in Codex credentials"@)),
                Some(token) => Ok(
                    CredentialsModel {
                        access_token: token,
                        account_id: full_text_in(tokens, "account_id"@),
                        is_external_oauth: match text_in(tokens, "refresh_token"@) {
                            Some(refresh) => trimmed(refresh).len() > 0,
                            None => false,
                        },
                        access_token_expires_at: token_expiry(token),
                        last_refresh: match text_in(json, "last_refresh"@) {
                            Some(raw) => refresh_instant(raw),
                            None => None,
                        },
                    },
                ),
            },
        },
    }
}

/// Reads the credentials of a JSON value.
pub fn credentials_from_json(json: &Json) -> (r: Result<CodexCredentials, ProviderError>)
    ensures
        match credentials_of(json.tree()) {
            Ok(credentials) => r is Ok && r->Ok_0@ == credentials,
            Err(error) => r is Err && r->Err_0@ == error,
        },
{
    if let Some(key) = text_field(json, "OPENAI_API_KEY") {
        let key = trim(key.as_str());
        if !is_blank(key.as_str()) {
            return Ok(
                CodexCredentials {
                    access_token: key,
                    account_id: None,
                    is_external_oauth: false,
                    access_token_expires_at: None,
                    last_refresh: None,
                },
            );
        }
    }
    let tokens = match json.get("tokens") {
        Some(tokens) => tokens,
        None => return Err(ProviderError::parse("Codex auth.json exists but contains no tokens.")),
    };
    let access_token = match full_text_field(tokens, "access_token") {
        Some(token) => token,
        None => return Err(ProviderError::parse("Missing access_token in Codex credentials")),
    };
    let account_id = full_text_field(tokens, "account_id");
    let is_external_oauth = match text_field(tokens, "refresh_token") {
        Some(refresh) => {
            let refresh = trim(refresh.as_str());
            !is_blank(refresh.as_str())
        },
        None => false,
    };
    let last_refresh = match text_field(json, "last_refresh") {
        Some(raw) => parse_timestamp(raw.as_str()),
        None => None,
    };
    let access_token_expires_at = parse_access_token_expiry(access_token.as_str());
    Ok(CodexCredentials { access_token, account_id, is_external_oauth, access_token_expires_at, last_refresh })
}

/// Reads the text of a credentials file.
pub fn parse_credentials_json(content: &str) -> (r: Result<CodexCredentials, ProviderError>)
    ensures
        match json_of_text(content@) {
            Err(error) => r is Err && r->Err_0@ == ErrorModel::Parse(
                "Invalid Codex credentials JSON: "@ + error,
            ),
            Ok(json) => match credentials_of(json) {
                Ok(credentials) => r is Ok && r->Ok_0@ == credentials,
                Err(error) => r is Err && r->Err_0@ == error,
            },
        },
{
    match parse_text(content) {
        Ok(json) => credentials_from_json(&json),
        Err(error) => Err(ProviderError::Parse(concat2("Invalid Codex credentials JSON: ", error.as_str()))),
    }
}

/// Credentials that may be used: those of the command line only while they are
/// fresh. A stated expiry decides; without one the last refresh does, unless
/// external sources are allowed.
pub open spec fn usable(credentials: CredentialsModel, external_allowed: bool, now: Timestamp) -> bool {
    !credentials.is_external_oauth || match credentials.access_token_expires_at {
        Some(expiry) => expiry.total_nanos() - now.total_nanos() > REFRESH_NANOS,
        None => external_allowed || (credentials.last_refresh is Some && now.total_nanos()
            - credentials.last_refresh->0.total_nanos() <= STALENESS_NANOS),
    }
}

/// Refuses credentials that may not be used.
pub fn enforce_external_oauth_gate_at(
    credentials: &CodexCredentials,
    external_sources_allowed: bool,
    now: Timestamp,
) -> (r: Result<(), ProviderError>)
    ensures
        check_view(r) == (if usable(credentials@, external_sources_allowed, now) {
            Ok::<(), ErrorModel>(())
        } else {
            Err(ErrorModel::AuthRequired)
        }),
{
    if !credentials.is_external_oauth {
        return Ok(());
    }
    if !external_sources_allowed && credentials.access_token_expires_at.is_none() {
        let stale = match credentials.last_refresh {
            Some(last) => nanos_between(now, last) > STALENESS_NANOS,
            None => true,
        };
        if stale {
            return Err(ProviderError::AuthRequired);
        }
    }
    if let Some(expiry) = credentials.access_token_expires_at {
        if nanos_between(expiry, now) <= REFRESH_NANOS {
            return Err(ProviderError::AuthRequired);
        }
    }
    Ok(())
}

/// Whether what was read before still counts.
pub open spec fn still_fresh(
    same_path: bool,
    cached_modified: Option<i128>,
    modified: Option<i128>,
    elapsed_nanos: u128,
) -> bool {
    same_path && cached_modified == modified && elapsed_nanos <= CACHE_NANOS
}

/// Whether credentials that were read before can be used again: they are of the
/// same file, the file has not changed, and they were read a moment ago.
pub fn cached_credentials_are_fresh(
    same_path: bool,
    cached_modified: Option<i128>,
    modified: Option<i128>,
    elapsed_nanos: u128,
) -> (r: bool)
    ensures
        r == still_fresh(same_path, cached_modified, modified, elapsed_nanos),
{
    let unchanged = match (cached_modified, modified) {
        (Some(a), Some(b)) => a == b,
        (None, None) => true,
        _ => false,
    };
    same_path && unchanged && elapsed_nanos <= CACHE_NANOS
}

/// A request to the backend: its URL and its headers.
pub struct BackendRequest {
    pub url: String,
    pub headers: Vec<(String, String)>,
}

pub open spec fn header_views(headers: Seq<(String, String)>) -> Seq<(Seq<char>, Seq<char>)> {
    headers.map_values(|h: (String, String)| (h.0@, h.1@))
}

/// The headers that go with credentials.
pub open spec fn headers_of(credentials: CredentialsModel) -> Seq<(Seq<char>, Seq<char>)> {
    let common = seq![
        ("Authorization"@, "Bearer "@ + credentials.access_token),
        ("User-Agent"@, "CodexBar"@),
        ("Accept"@, "application/json"@),
    ];
    match credentials.account_id {
        Some(id) => if id.len() > 0 {
            common.push(("ChatGPT-Account-Id"@, id))
        } else {
            common
        },
        None => common,
    }
}

/// The request for a path of the backend.
pub fn backend_request(credentials: &CodexCredentials, base_url: &str, path: &str) -> (r: BackendRequest)
    ensures
        r.url@ == base_url@ + path@,
        header_views(r.headers@) == headers_of(credentials@),
{
    let mut headers: Vec<(String, String)> = Vec::new();
    let bearer = concat2("Bearer ", credentials.access_token.as_str());
    headers.push(("Authorization".to_string(), bearer));
    headers.push(("User-Agent".to_string(), "CodexBar".to_string()));
    headers.push(("Accept".to_string(), "application/json".to_string()));
    if let Some(id) = &credentials.account_id {
        if !is_blank(id.as_str()) {
            headers.push(("ChatGPT-Account-Id".to_string(), id.clone()));
        }
    }
    proof {
        assert(header_views(headers@) =~= headers_of(credentials@));
    }
    BackendRequest { url: concat2(base_url, path), headers }
}

/// What an answer of the backend means that is no success. Only a missing authorization asks
/// for a new sign-in; any other refusal is reported with what the backend said.
pub open spec fn refusal(status: u16, body: Seq<char>, context: Seq<char>) -> Option<ErrorModel> {
    if is_success(status) {
        None
    } else if status == 401 {
        Some(ErrorModel::AuthRequired)
    } else {
        Some(ErrorModel::Other(context + " returned HTTP "@ + status_text(status) + (": "@ + body)))
    }
}

/// What an answer of the backend means that is no success.
pub fn authenticated_http_error(status: u16, body: &str, context: &str) -> (r: Option<ProviderError>)
    requires
        100 <= status <= 999,
    ensures
        match refusal(status, body@, context@) {
            Some(error) => r is Some && r->0@ == error,
            None => r is None,
        },
{
    if 200 <= status && status < 300 {
        return None;
    }
    if status == 401 {
        return Some(ProviderError::AuthRequired);
    }
    let reason = describe_status(status);
    let said = concat2(": ", body);
    Some(ProviderError::Other(concat4(context, " returned HTTP ", reason.as_str(), said.as_str())))
}

/// A token about to expire is refused whoever allows external sources, and
/// credentials that are not the command line's always pass.
pub proof fn law_expiring_tokens_are_refused(credentials: CredentialsModel, external_allowed: bool, now: Timestamp)
    ensures
        !credentials.is_external_oauth ==> usable(credentials, external_allowed, now),
        credentials.is_external_oauth && credentials.access_token_expires_at is Some
            && credentials.access_token_expires_at->0.total_nanos() - now.total_nanos() <= REFRESH_NANOS
            ==> !usable(credentials, external_allowed, now),
        credentials.is_external_oauth && credentials.access_token_expires_at is None
            && credentials.last_refresh is None ==> !usable(credentials, false, now),
{
}

/// A stated expiry overrides the time of the last refresh.
pub proof fn law_expiry_overrides_last_refresh(
    credentials: CredentialsModel,
    refresh: Option<Timestamp>,
    external_allowed: bool,
    now: Timestamp,
)
    requires
        credentials.access_token_expires_at is Some,
    ensures
        usable(credentials, external_allowed, now) == usable(
            CredentialsModel { last_refresh: refresh, ..credentials },
            external_allowed,
            now,
        ),
{
}

/// The payload of a token is what stands between its first two dots, or behind the only one.
pub proof fn law_payloads_stand_between_dots(head: Seq<char>, payload: Seq<char>, signature: Seq<char>)
    requires
        forall|i: int| 0 <= i < head.len() ==> head[i] != '.',
        forall|i: int| 0 <= i < payload.len() ==> payload[i] != '.',
    ensures
        token_payload(head.push('.') + payload) == Some(payload),
        token_payload(head.push('.') + payload.push('.') + signature) == Some(payload),
        token_payload(head) is None,
{
    let short = head.push('.') + payload;
    let long = head.push('.') + payload.push('.') + signature;
    crate::text::lemma_index_of(short, '.', head.len() as int);
    crate::text::lemma_index_of(long, '.', head.len() as int);
    crate::text::lemma_index_of(head, '.', head.len() as int);
    assert(short.skip(head.len() as int + 1) =~= payload);
    assert(long.skip(head.len() as int + 1) =~= payload.push('.') + signature);
    crate::text::lemma_index_of(payload, '.', payload.len() as int);
    crate::text::lemma_index_of(payload.push('.') + signature, '.', payload.len() as int);
    assert(payload.take(payload.len() as int) =~= payload);
    assert((payload.push('.') + signature).take(payload.len() as int) =~= payload);
}

/// A token expires at the Unix time that its claims hold under `exp`.
pub proof fn law_tokens_expire_as_they_claim(token: Seq<char>, payload: Seq<char>, bytes: Seq<u8>, claims: JsonTree)
    requires
        token_payload(token) == Some(payload),
        base64_unpadded(payload) == Some(bytes) || (base64_unpadded(payload) is None && base64_padded(payload) == Some(
            bytes,
        )),
        json_of_bytes(bytes) == Ok::<JsonTree, Seq<char>>(claims),
    ensures
        claims.field("exp"@) is Some && claims.field("exp"@)->0.integer() is Some ==> token_expiry(token)
            == unix_instant(claims.field("exp"@)->0.integer()->0),
        claims.field("exp"@) is None || claims.field("exp"@)->0.integer() is None ==> token_expiry(token) is None,
{
}

/// A time of refresh is read with its offset, else as universal time.
pub proof fn law_refresh_times_are_read(raw: Seq<char>)
    ensures
        trimmed(raw).len() == 0 ==> refresh_instant(raw) is None,
        trimmed(raw).len() > 0 && rfc3339_instant(trimmed(raw)) is Ok ==> refresh_instant(raw) == Some(
            rfc3339_instant(trimmed(raw))->Ok_0,
        ),
        trimmed(raw).len() > 0 && rfc3339_instant(trimmed(raw)) is Err ==> refresh_instant(raw) == naive_instant(
            trimmed(raw),
            "%Y-%m-%dT%H:%M:%S%.f"@,
        ),
{
}

/// A key that is not blank is used alone, before any tokens.
pub proof fn law_keys_come_before_tokens(json: JsonTree, key: Seq<char>)
    requires
        json.field("OPENAI_API_KEY"@) == Some(JsonTree::Text(key)),
        trimmed(key).len() > 0,
    ensures
        credentials_of(json) is Ok,
        ({
            let credentials = credentials_of(json)->Ok_0;
            &&& credentials.access_token == trimmed(key)
            &&& credentials.account_id is None && !credentials.is_external_oauth
            &&& credentials.access_token_expires_at is None && credentials.last_refresh is None
        }),
{
}

/// The tokens are what stands under their keys. They belong to the command line where there is
/// a refresh token, which is not kept.
pub proof fn law_tokens_stand_under_their_keys(json: JsonTree, tokens: JsonTree, token: Seq<char>)
    requires
        json.field("OPENAI_API_KEY"@) is None,
        json.field("tokens"@) == Some(tokens),
        tokens.field("access_token"@) == Some(JsonTree::Text(token)),
        token.len() > 0,
    ensures
        credentials_of(json) is Ok,
        ({
            let credentials = credentials_of(json)->Ok_0;
            let account = tokens.field("account_id"@);
            let refresh = tokens.field("refresh_token"@);
            let last = json.field("last_refresh"@);
            &&& credentials.access_token == token
            &&& account is Some && account->0 is Text && account->0->Text_0.len() > 0 ==> credentials.account_id == Some(
                account->0->Text_0,
            )
            &&& account is None ==> credentials.account_id is None
            &&& credentials.is_external_oauth <==> refresh is Some && refresh->0 is Text && trimmed(
                refresh->0->Text_0,
            ).len() > 0
            &&& credentials.access_token_expires_at == token_expiry(token)
            &&& last is Some && last->0 is Text ==> credentials.last_refresh == refresh_instant(last->0->Text_0)
            &&& last is None ==> credentials.last_refresh is None
        }),
{
}

/// Without a key, tokens or an access token there are no credentials.
pub proof fn law_missing_tokens_are_errors(json: JsonTree)
    requires
        json.field("OPENAI_API_KEY"@) is None,
    ensures
        json.field("tokens"@) is None ==> credentials_of(json) is Err,
        json.field("tokens"@) is Some && json.field("tokens"@)->0.field("access_token"@) is None ==> credentials_of(
            json,
        ) is Err,
        json.field("tokens"@) is Some && json.field("tokens"@)->0.field("access_token"@) == Some(
            JsonTree::Text(Seq::empty()),
        ) ==> credentials_of(json) is Err,
{
}

/// Credentials of the command line are used while their token has more than five minutes left;
/// where the token does not say, while the last refresh is at most eight days old or external
/// sources are allowed.
pub proof fn law_fresh_credentials_are_used(credentials: CredentialsModel, allowed: bool, now: Timestamp)
    requires
        credentials.is_external_oauth,
    ensures
        ({
            let expiry = credentials.access_token_expires_at;
            let last = credentials.last_refresh;
            &&& expiry is Some ==> (usable(credentials, allowed, now) <==> expiry->0.total_nanos() > now.total_nanos()
                + 5 * 60 * 1_000_000_000)
            &&& expiry is None && allowed ==> usable(credentials, allowed, now)
            &&& expiry is None && !allowed && last is Some ==> (usable(credentials, allowed, now)
                <==> now.total_nanos() <= last->0.total_nanos() + 8 * 24 * 60 * 60 * 1_000_000_000)
        }),
        CACHE_NANOS == 5 * 1_000_000_000,
{
}

/// A request carries the token, names the program, asks for JSON, and names the account where
/// there is one.
pub proof fn law_requests_carry_their_credentials(credentials: CredentialsModel)
    ensures
        ({
            let headers = headers_of(credentials);
            let named = credentials.account_id is Some && credentials.account_id->0.len() > 0;
            &&& headers[0] == ("Authorization"@, "Bearer "@ + credentials.access_token)
            &&& headers[1] == ("User-Agent"@, "CodexBar"@)
            &&& headers[2] == ("Accept"@, "application/json"@)
            &&& named ==> headers.len() == 4 && headers[3] == ("ChatGPT-Account-Id"@, credentials.account_id->0)
            &&& !named ==> headers.len() == 3
        }),
{
}

/// Only a missing authorization asks for a new sign-in; any other refusal is reported, and a
/// success is none.
pub proof fn law_refusals_are_told_apart(status: u16, body: Seq<char>, context: Seq<char>)
    ensures
        200 <= status <= 299 ==> refusal(status, body, context) is None,
        status == 401 ==> refusal(status, body, context) == Some(ErrorModel::AuthRequired),
        status != 401 && !(200 <= status <= 299) ==> refusal(status, body, context) == Some(
            ErrorModel::Other(context + " returned HTTP "@ + status_text(status) + (": "@ + body)),
        ),
{
}

/// What was read of another file, of a file that has changed since, or more than five seconds
/// ago is read again; anything else is used.
pub proof fn law_cached_credentials_grow_stale(same_path: bool, before: Option<i128>, now: Option<i128>, elapsed: u128)
    ensures
        !still_fresh(false, before, now, elapsed),
        before != now ==> !still_fresh(same_path, before, now, elapsed),
        elapsed > 5_000_000_000 ==> !still_fresh(same_path, before, now, elapsed),
        elapsed <= 5_000_000_000 ==> still_fresh(true, now, now, elapsed),
{
}

} // verus!
