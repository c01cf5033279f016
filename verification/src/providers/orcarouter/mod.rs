//! OrcaRouter: the workspace summary of the billing API, and the wallet of a
//! browser session.
pub mod browser;
pub mod script;
pub mod local_storage;
pub mod responses;
pub mod wallet;
pub mod workspace;

use crate::provider::{describes, ProviderId, ProviderMetadata, SourceMode};
use crate::snapshot::{ErrorModel, ProviderError};
use crate::text::{is_blank, trim, trimmed};
use vstd::prelude::*;

verus! {

pub const USAGE_URL: &'static str = "https://api.orcarouter.ai/v1/dashboard/billing/usage";

pub const SUBSCRIPTION_URL: &'static str = "https://api.orcarouter.ai/v1/dashboard/billing/subscription";

pub const WEB_SELF_URL: &'static str = "https://www.orcarouter.ai/api/user/self";

pub const WEB_STATUS_URL: &'static str = "https://www.orcarouter.ai/api/status";

pub const ORCA_DASHBOARD_URL: &'static str = "https://www.orcarouter.ai/console";

pub struct OrcaRouterProvider {
    pub metadata: ProviderMetadata,
}

/// The cookie of a fetch: the one that was given, else none where only given
/// credentials may be used, else that of a browser.
pub open spec fn web_cookie(
    manual: Option<Seq<char>>,
    auto_prefer_web: bool,
    ambient: Result<Seq<char>, ErrorModel>,
) -> Result<Seq<char>, ErrorModel> {
    if manual is Some && trimmed(manual->0).len() > 0 {
        Ok(trimmed(manual->0))
    } else if auto_prefer_web {
        Err(ErrorModel::NoCookies)
    } else {
        ambient
    }
}

pub open spec fn cookie_view(r: Result<String, ProviderError>) -> Result<Seq<char>, ErrorModel> {
    match r {
        Ok(cookie) => Ok(cookie@),
        Err(error) => Err(error@),
    }
}

/// The identity under which the provider is known.
pub open spec fn own_id() -> ProviderId {
    ProviderId::OrcaRouter
}

/// The sources that can be asked for.
pub open spec fn own_sources() -> Seq<SourceMode> {
    seq![SourceMode::Auto, SourceMode::OAuth, SourceMode::Web]
}

/// How OrcaRouter presents itself.
pub open spec fn is_described(m: ProviderMetadata) -> bool {
    &&& describes(
        m,
        ProviderId::OrcaRouter,
        "OrcaRouter"@,
        "Workspace usage"@,
        "Spend limit"@,
        true,
        "https://www.orcarouter.ai/console"@,
    )
    &&& m.status_page_url is None
}

impl OrcaRouterProvider {
    pub fn new() -> (r: OrcaRouterProvider)
        ensures
            is_described(r.metadata),
    {
        OrcaRouterProvider {
            metadata: ProviderMetadata {
                id: ProviderId::OrcaRouter,
                display_name: "OrcaRouter",
                session_label: "Workspace usage",
                weekly_label: "Spend limit",
                supports_opus: false,
                supports_credits: true,
                default_enabled: false,
                is_primary: false,
                dashboard_url: Some(ORCA_DASHBOARD_URL),
                status_page_url: None,
            },
        }
    }

    pub fn id(&self) -> (r: ProviderId)
        ensures
            r == own_id(),
    {
        ProviderId::OrcaRouter
    }

    pub fn metadata(&self) -> (r: &ProviderMetadata)
        ensures
            *r == self.metadata,
    {
        &self.metadata
    }

    pub fn available_sources(&self) -> (r: Vec<SourceMode>)
        ensures
            r@ == own_sources(),
    {
        vec![SourceMode::Auto, SourceMode::OAuth, SourceMode::Web]
    }

    pub fn supports_web(&self) -> (r: bool)
        ensures
            r,
            r == own_sources().contains(SourceMode::Web),
    {
        proof {
            assert(own_sources()[2] == SourceMode::Web);
        }
        true
    }

    /// The cookie of a fetch. `ambient` is what the browsers hold; it is not looked
    /// at where a cookie was given, or where only given credentials may be used.
    pub fn resolve_web_cookie(
        manual: &Option<String>,
        auto_prefer_web: bool,
        ambient: Result<String, ProviderError>,
    ) -> (r: Result<String, ProviderError>)
        ensures
            cookie_view(r) == web_cookie(
                crate::json::text_view(*manual),
                auto_prefer_web,
                cookie_view(ambient),
            ),
    {
        if let Some(cookie) = manual {
            let cookie = trim(cookie.as_str());
            if !is_blank(cookie.as_str()) {
                return Ok(cookie);
            }
        }
        if auto_prefer_web {
            return Err(ProviderError::NoCookies);
        }
        ambient
    }
}

impl Default for OrcaRouterProvider {
    fn default() -> (r: OrcaRouterProvider)
        ensures
            is_described(r.metadata),
    {
        OrcaRouterProvider::new()
    }
}

/// Where only given credentials may be used, what the browsers hold makes no
/// difference.
pub proof fn law_scoped_cookies_ignore_the_browser(
    manual: Option<Seq<char>>,
    ambient: Result<Seq<char>, ErrorModel>,
    other: Result<Seq<char>, ErrorModel>,
)
    ensures
        web_cookie(manual, true, ambient) == web_cookie(manual, true, other),
{
}

/// A given cookie comes first, without white space around it; a blank one counts as none. Only
/// where nothing was given and nothing else is asked for do the browsers count.
pub proof fn law_given_cookies_come_first(manual: Seq<char>, scoped: bool, ambient: Result<Seq<char>, ErrorModel>)
    ensures
        trimmed(manual).len() > 0 ==> web_cookie(Some(manual), scoped, ambient) == Ok::<Seq<char>, ErrorModel>(
            trimmed(manual),
        ),
        trimmed(manual).len() == 0 ==> web_cookie(Some(manual), scoped, ambient) == web_cookie(None, scoped, ambient),
        web_cookie(None, true, ambient) == Err::<Seq<char>, ErrorModel>(ErrorModel::NoCookies),
        web_cookie(None, false, ambient) == ambient,
{
}

/// The spending and the subscription are asked of the service's interface, the account and its
/// rate of its web pages.
pub proof fn law_each_answer_has_its_address()
    ensures
        USAGE_URL@ == "https://api.orcarouter.ai"@ + "/v1/dashboard/billing/usage"@,
        SUBSCRIPTION_URL@ == "https://api.orcarouter.ai"@ + "/v1/dashboard/billing/subscription"@,
        WEB_SELF_URL@ == "https://www.orcarouter.ai"@ + "/api/user/self"@,
        WEB_STATUS_URL@ == "https://www.orcarouter.ai"@ + "/api/status"@,
        crate::providers::orcarouter::local_storage::is_orca("https://www.orcarouter.ai"@),
{
    reveal_strlit("https://api.orcarouter.ai");
    reveal_strlit("https://www.orcarouter.ai");
    reveal_strlit("/v1/dashboard/billing/usage");
    reveal_strlit("/v1/dashboard/billing/subscription");
    reveal_strlit("/api/user/self");
    reveal_strlit("/api/status");
    reveal_strlit("https://api.orcarouter.ai/v1/dashboard/billing/usage");
    reveal_strlit("https://api.orcarouter.ai/v1/dashboard/billing/subscription");
    reveal_strlit("https://www.orcarouter.ai/api/user/self");
    reveal_strlit("https://www.orcarouter.ai/api/status");
    assert(USAGE_URL@ =~= "https://api.orcarouter.ai"@ + "/v1/dashboard/billing/usage"@);
    assert(SUBSCRIPTION_URL@ =~= "https://api.orcarouter.ai"@ + "/v1/dashboard/billing/subscription"@);
    assert(WEB_SELF_URL@ =~= "https://www.orcarouter.ai"@ + "/api/user/self"@);
    assert(WEB_STATUS_URL@ =~= "https://www.orcarouter.ai"@ + "/api/status"@);
}

} // verus!
