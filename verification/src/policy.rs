//! Rate-limit policies and the static route registry.

use vstd::prelude::*;
use crate::keys::newline_free;

verus! {

/// A rate-limit policy: how many requests may run in one window, and how
/// long the window lasts, in seconds.
#[derive(Debug, Clone, Copy, PartialEq, Eq, Structural)]
pub struct RateLimit {
    /// Number of requests allowed per window; always at least one.
    pub limit: u64,
    /// Window duration in seconds; always at least one.
    pub duration: u64,
}

impl RateLimit {
    /// A usable policy: a positive limit and a positive window.
    pub open spec fn wf(self) -> bool {
        self.limit >= 1 && self.duration >= 1
    }

    /// Builds a policy with the given limit and the default window of one
    /// minute.
    pub fn new(limit: u64) -> (r: RateLimit)
        requires
            limit >= 1,
        ensures
            r.limit == limit,
            r.duration == 60,
            r.wf(),
    {
        RateLimit { limit, duration: 60 }
    }
}

/// The endpoints this service gates. The registry is total over this
/// enum, so a route without a policy cannot be expressed: a missing
/// policy is a compile-time impossibility rather than a per-request
/// error.
#[derive(Debug, Clone, Copy, PartialEq, Eq, Structural)]
pub enum Route {
    PostVault,
    GetVaultItems,
    PutVaultItem,
}

impl Route {
    /// The stable string naming the endpoint: HTTP method plus path
    /// template, never a caller-supplied path parameter.
    pub open spec fn spec_identifier(self) -> Seq<char> {
        match self {
            Route::PostVault => "POST /vault"@,
            Route::GetVaultItems => "GET /vault/items"@,
            Route::PutVaultItem => "PUT /vault/items/<:id>"@,
        }
    }

    /// The route identifier used for key derivation.
    pub fn identifier(self) -> (r: &'static str)
        ensures
            r@ == self.spec_identifier(),
    {
        match self {
            Route::PostVault => "POST /vault",
            Route::GetVaultItems => "GET /vault/items",
            Route::PutVaultItem => "PUT /vault/items/<:id>",
        }
    }

    /// The policy for this route, fixed at startup: each route gets its
    /// configured limit with the default one-minute window.
    pub fn rate_limit(self) -> (r: RateLimit)
        ensures
            r == self.spec_rate_limit(),
            r.wf(),
    {
        match self {
            Route::PostVault => RateLimit::new(3),
            Route::GetVaultItems => RateLimit::new(1200),
            Route::PutVaultItem => RateLimit::new(60),
        }
    }

    /// The registry as a mapping: limit per route, window always one
    /// minute.
    pub open spec fn spec_rate_limit(self) -> RateLimit {
        match self {
            Route::PostVault => RateLimit { limit: 3, duration: 60 },
            Route::GetVaultItems => RateLimit { limit: 1200, duration: 60 },
            Route::PutVaultItem => RateLimit { limit: 60, duration: 60 },
        }
    }
}

/// Law: every registered route identifier is free of the newline that
/// key derivation uses as its separator, so a route never collides with
/// a (route, credential) boundary shift.
pub proof fn lemma_identifiers_newline_free(route: Route)
    ensures
        newline_free(route.spec_identifier()),
{
    reveal_strlit("POST /vault");
    reveal_strlit("GET /vault/items");
    reveal_strlit("PUT /vault/items/<:id>");
}

} // verus!
