//! The order in which a wallet balance is looked for.
//!
//! Without credentials of its own a fetch tries the identities of the browsers,
//! then - only where the browser was asked for - their developer tools, and then
//! the cookies of a browser. A fetch with given credentials uses those alone.
use crate::provider::SourceMode;
use crate::snapshot::{ErrorModel, ProviderError};
use vstd::prelude::*;

verus! {

/// What decides the order.
#[derive(Clone, Copy, PartialEq, Eq, Structural, Debug)]
pub struct WalletContext {
    /// The browser was asked for, not just allowed.
    pub explicit_web: bool,
    /// Only given credentials may be used.
    pub scoped: bool,
    /// How many identities the browsers hold.
    pub identities: usize,
}

/// The next thing to try.
#[derive(Clone, Copy, PartialEq, Eq, Structural, Debug)]
pub enum WalletStep {
    /// The identity with the number, without a cookie.
    Identity(usize),
    /// The quota from the developer tools of a browser.
    DevTools,
    /// The rate for the quota that the developer tools gave.
    Rate,
    /// The cookie of the fetch.
    Cookie,
    /// The cookie together with the identity with the number.
    Session(usize),
    /// The cookie alone.
    CookieAlone,
    /// The balance is known.
    Found,
    /// The error of the last thing tried is reported.
    Report,
    /// No session was found.
    NoSession,
}

pub open spec fn is_last(step: WalletStep) -> bool {
    step is Found || step is Report || step is NoSession
}

/// What follows the identities.
pub open spec fn after_identities(ctx: WalletContext) -> WalletStep {
    if ctx.explicit_web {
        WalletStep::DevTools
    } else {
        WalletStep::Cookie
    }
}

/// The first thing to try.
pub open spec fn first_step(ctx: WalletContext) -> WalletStep {
    if ctx.scoped {
        WalletStep::Cookie
    } else if ctx.identities > 0 {
        WalletStep::Identity(0)
    } else {
        after_identities(ctx)
    }
}

/// The step with an identity that is not out of range.
pub open spec fn step_ok(ctx: WalletContext, step: WalletStep) -> bool {
    match step {
        WalletStep::Identity(i) => i < ctx.identities,
        WalletStep::Session(i) => i < ctx.identities,
        _ => true,
    }
}

/// What to try after a step.
pub open spec fn next_step(ctx: WalletContext, step: WalletStep, succeeded: bool) -> WalletStep {
    match step {
        WalletStep::Identity(i) => if succeeded {
            WalletStep::Found
        } else if i + 1 < ctx.identities {
            WalletStep::Identity((i + 1) as usize)
        } else {
            after_identities(ctx)
        },
        WalletStep::DevTools => if succeeded {
            WalletStep::Rate
        } else {
            WalletStep::Cookie
        },
        WalletStep::Rate => if succeeded {
            WalletStep::Found
        } else {
            WalletStep::Report
        },
        WalletStep::Cookie => if succeeded {
            if ctx.identities > 0 {
                WalletStep::Session(0)
            } else {
                WalletStep::CookieAlone
            }
        } else if ctx.scoped {
            WalletStep::Report
        } else {
            WalletStep::NoSession
        },
        WalletStep::Session(i) => if succeeded {
            WalletStep::Found
        } else if i + 1 < ctx.identities {
            WalletStep::Session((i + 1) as usize)
        } else {
            WalletStep::CookieAlone
        },
        WalletStep::CookieAlone => if succeeded {
            WalletStep::Found
        } else {
            WalletStep::Report
        },
        _ => step,
    }
}

/// What a search knows when it starts.
pub open spec fn context_of(mode: SourceMode, auto_prefer_web: bool, identities: usize) -> WalletContext {
    WalletContext { explicit_web: mode == SourceMode::Web, scoped: auto_prefer_web, identities }
}

/// The context of a fetch.
pub fn wallet_context(mode: SourceMode, auto_prefer_web: bool, identities: usize) -> (r: WalletContext)
    ensures
        r == context_of(mode, auto_prefer_web, identities),
{
    let explicit_web = match mode {
        SourceMode::Web => true,
        _ => false,
    };
    WalletContext { explicit_web, scoped: auto_prefer_web, identities }
}

pub fn start(ctx: WalletContext) -> (r: WalletStep)
    ensures
        r == first_step(ctx),
        step_ok(ctx, r),
{
    if ctx.scoped {
        WalletStep::Cookie
    } else if ctx.identities > 0 {
        WalletStep::Identity(0)
    } else if ctx.explicit_web {
        WalletStep::DevTools
    } else {
        WalletStep::Cookie
    }
}

pub fn advance(ctx: WalletContext, step: WalletStep, succeeded: bool) -> (r: WalletStep)
    requires
        step_ok(ctx, step),
    ensures
        r == next_step(ctx, step, succeeded),
        step_ok(ctx, r),
{
    match step {
        WalletStep::Identity(i) => {
            if succeeded {
                WalletStep::Found
            } else if i + 1 < ctx.identities {
                WalletStep::Identity(i + 1)
            } else if ctx.explicit_web {
                WalletStep::DevTools
            } else {
                WalletStep::Cookie
            }
        },
        WalletStep::DevTools => if succeeded {
            WalletStep::Rate
        } else {
            WalletStep::Cookie
        },
        WalletStep::Cookie => {
            if !succeeded {
                if ctx.scoped {
                    WalletStep::Report
                } else {
                    WalletStep::NoSession
                }
            } else if ctx.identities > 0 {
                WalletStep::Session(0)
            } else {
                WalletStep::CookieAlone
            }
        },
        WalletStep::Session(i) => {
            if succeeded {
                WalletStep::Found
            } else if i + 1 < ctx.identities {
                WalletStep::Session(i + 1)
            } else {
                WalletStep::CookieAlone
            }
        },
        WalletStep::Rate | WalletStep::CookieAlone => if succeeded {
            WalletStep::Found
        } else {
            WalletStep::Report
        },
        _ => step,
    }
}

/// What is said where no browser session was found.
pub fn no_session_error() -> (r: ProviderError)
    ensures
        r@ == ErrorModel::Other(
            "No authenticated OrcaRouter browser session found. Sign in to www.orcarouter.ai in Edge/Chrome, then refresh CodexBar."@,
        ),
{
    ProviderError::other(
        "No authenticated OrcaRouter browser session found. Sign in to www.orcarouter.ai in Edge/Chrome, then refresh CodexBar.",
    )
}

/// The step after a row of outcomes.
pub open spec fn step_after(ctx: WalletContext, outcomes: Seq<bool>) -> WalletStep
    decreases outcomes.len(),
{
    if outcomes.len() == 0 {
        first_step(ctx)
    } else {
        next_step(ctx, step_after(ctx, outcomes.drop_last()), outcomes.last())
    }
}

/// Given credentials are never replaced by those of a browser: with them neither an
/// identity alone nor the developer tools are ever tried.
pub proof fn law_scoped_fetches_use_given_credentials(ctx: WalletContext, outcomes: Seq<bool>)
    requires
        ctx.scoped,
    ensures
        !(step_after(ctx, outcomes) is Identity),
        !(step_after(ctx, outcomes) is DevTools),
        !(step_after(ctx, outcomes) is Rate),
        !(step_after(ctx, outcomes) is NoSession),
    decreases outcomes.len(),
{
    if outcomes.len() > 0 {
        law_scoped_fetches_use_given_credentials(ctx, outcomes.drop_last());
    }
}

/// The developer tools are only opened where the browser was asked for.
pub proof fn law_devtools_need_an_explicit_request(ctx: WalletContext, outcomes: Seq<bool>)
    requires
        !ctx.explicit_web,
    ensures
        !(step_after(ctx, outcomes) is DevTools),
        !(step_after(ctx, outcomes) is Rate),
    decreases outcomes.len(),
{
    if outcomes.len() > 0 {
        law_devtools_need_an_explicit_request(ctx, outcomes.drop_last());
    }
}

/// How far the search can still go.
pub open spec fn steps_left(ctx: WalletContext, step: WalletStep) -> nat {
    let n = ctx.identities as nat;
    match step {
        WalletStep::Identity(i) => if i < n {
            (2 * n + 5 - i) as nat
        } else {
            0
        },
        WalletStep::DevTools => n + 4,
        WalletStep::Rate => 1,
        WalletStep::Cookie => n + 3,
        WalletStep::Session(i) => if i < n {
            (n + 2 - i) as nat
        } else {
            0
        },
        WalletStep::CookieAlone => 1,
        _ => 0,
    }
}

/// Every step leads closer to the end.
pub proof fn law_the_search_ends(ctx: WalletContext, step: WalletStep, succeeded: bool)
    requires
        step_ok(ctx, step),
        !is_last(step),
    ensures
        step_ok(ctx, next_step(ctx, step, succeeded)),
        steps_left(ctx, next_step(ctx, step, succeeded)) < steps_left(ctx, step),
{
}

/// The order of the search: identities one after the other, then the developer tools where they
/// may be opened, then the cookie, with each identity and at last alone. What succeeds ends it.
pub proof fn law_the_search_goes_in_order(ctx: WalletContext, i: usize)
    requires
        i < ctx.identities,
    ensures
        !ctx.scoped ==> first_step(ctx) == WalletStep::Identity(0),
        ctx.scoped ==> first_step(ctx) == WalletStep::Cookie,
        next_step(ctx, WalletStep::Identity(i), true) == WalletStep::Found,
        i + 1 < ctx.identities ==> next_step(ctx, WalletStep::Identity(i), false) == WalletStep::Identity(
            (i + 1) as usize,
        ),
        i + 1 == ctx.identities ==> next_step(ctx, WalletStep::Identity(i), false) == (if ctx.explicit_web {
            WalletStep::DevTools
        } else {
            WalletStep::Cookie
        }),
        next_step(ctx, WalletStep::DevTools, true) == WalletStep::Rate,
        next_step(ctx, WalletStep::DevTools, false) == WalletStep::Cookie,
        next_step(ctx, WalletStep::Rate, true) == WalletStep::Found,
        next_step(ctx, WalletStep::Rate, false) == WalletStep::Report,
        next_step(ctx, WalletStep::Cookie, true) == WalletStep::Session(0),
        next_step(ctx, WalletStep::Cookie, false) == (if ctx.scoped { WalletStep::Report } else { WalletStep::NoSession }),
        next_step(ctx, WalletStep::Session(i), true) == WalletStep::Found,
        i + 1 < ctx.identities ==> next_step(ctx, WalletStep::Session(i), false) == WalletStep::Session(
            (i + 1) as usize,
        ),
        i + 1 == ctx.identities ==> next_step(ctx, WalletStep::Session(i), false) == WalletStep::CookieAlone,
        next_step(ctx, WalletStep::CookieAlone, true) == WalletStep::Found,
        next_step(ctx, WalletStep::CookieAlone, false) == WalletStep::Report,
{
}

/// Without identities the search starts behind them, and a cookie is tried alone.
pub proof fn law_searches_without_identities(ctx: WalletContext)
    requires
        ctx.identities == 0,
    ensures
        !ctx.scoped && ctx.explicit_web ==> first_step(ctx) == WalletStep::DevTools,
        ctx.scoped || !ctx.explicit_web ==> first_step(ctx) == WalletStep::Cookie,
        next_step(ctx, WalletStep::Cookie, true) == WalletStep::CookieAlone,
{
}

/// A search is explicit where the web is asked for by name, and scoped where credentials were
/// given for it; given credentials are tried first, then each identity that was found.
pub proof fn law_searches_start_from_what_is_known(mode: SourceMode, given: bool, identities: usize)
    ensures
        ({
            let ctx = context_of(mode, given, identities);
            &&& ctx.explicit_web <==> mode == SourceMode::Web
            &&& ctx.scoped <==> given
            &&& ctx.identities == identities
            &&& given ==> first_step(ctx) == WalletStep::Cookie
            &&& !given && identities > 0 ==> first_step(ctx) == WalletStep::Identity(0)
            &&& !given && identities == 0 && mode == SourceMode::Web ==> first_step(ctx) == WalletStep::DevTools
            &&& !given && identities == 0 && mode != SourceMode::Web ==> first_step(ctx) == WalletStep::Cookie
        }),
{
}

} // verus!
