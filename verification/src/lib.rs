//! Access control for an HTTP JSON-RPC server, decided from request headers.
//!
//! Per request the caller asks three independent questions: is the `Host`
//! header acceptable (protection against DNS rebinding), is the CORS `Origin`
//! acceptable, and are the CORS preflight requested headers acceptable.  Each
//! answer is a boolean verdict computed from an immutable policy value that is
//! built once at startup, via [`AccessControlBuilder`], and then shared
//! read-only across request handling.
//!
//! The caller owns the HTTP layer: it extracts the relevant header strings
//! from a request and hands them in as plain values, and it writes the
//! resolved representative values back into the response where a check
//! allows.

use vstd::prelude::*;

pub mod cors;
pub mod header_value;
pub mod hosts;
pub mod matcher;

use cors::{
    opt_origins_view, spec_cors_allow_headers, spec_cors_allow_origin, spec_requested_all,
    views_of, AccessControlAllowHeaders, AccessControlAllowOrigin, AllowCors,
};
use hosts::{opt_str_view, spec_is_host_valid, AllowHosts, Host};

verus! {

/// Access control on the HTTP layer: a frozen policy for hosts, CORS origins
/// and CORS headers, with an escape valve that tolerates invalid CORS.
#[derive(Clone, Debug)]
pub struct AccessControl {
    /// Which `Host` headers are acceptable.
    pub allow_hosts: AllowHosts,
    /// Which `Origin` headers are acceptable; `None` disables CORS entirely,
    /// so that no cross-origin request is ever accepted.
    pub cors_allow_origin: Option<Vec<AccessControlAllowOrigin>>,
    /// Which preflight-requested header names are acceptable.
    pub cors_allow_headers: AccessControlAllowHeaders,
    /// Turn every `Invalid` CORS outcome into "continue anyway": the two CORS
    /// predicates then never deny.
    pub continue_on_invalid_cors: bool,
}

/// What `deny_host` decides: deny exactly the requests whose `Host` header
/// the policy does not accept.
pub open spec fn spec_deny_host(ac: AccessControl, host: Option<Seq<char>>) -> bool {
    !spec_is_host_valid(host, ac.allow_hosts)
}

/// What `deny_cors_origin` decides: deny exactly the requests whose `Origin`
/// resolves to `Invalid`, unless invalid CORS is tolerated.
pub open spec fn spec_deny_cors_origin(
    ac: AccessControl,
    origin: Option<Seq<char>>,
    host: Option<Seq<char>>,
) -> bool {
    &&& spec_cors_allow_origin(origin, host, opt_origins_view(ac.cors_allow_origin)) is Invalid
    &&& !ac.continue_on_invalid_cors
}

/// What `deny_cors_header` decides: deny exactly the requests whose requested
/// header names resolve to `Invalid`, unless invalid CORS is tolerated.
pub open spec fn spec_deny_cors_header(
    ac: AccessControl,
    request_headers: Seq<Seq<char>>,
    raw_requested: Seq<Seq<char>>,
) -> bool {
    &&& spec_cors_allow_headers(
        request_headers,
        spec_requested_all(raw_requested),
        ac.cors_allow_headers,
    ) is Invalid
    &&& !ac.continue_on_invalid_cors
}

impl AccessControl {
    /// Validate an incoming request by its `Host` header value.
    pub fn deny_host(&self, host: Option<&str>) -> (deny: bool)
        ensures
            deny == spec_deny_host(*self, opt_str_view(host)),
    {
        !hosts::is_host_valid(host, &self.allow_hosts)
    }

    /// Validate an incoming request by its CORS `Origin` header value;
    /// `host` is the request's `Host` header, used to recognise same-origin
    /// requests.
    pub fn deny_cors_origin(&self, origin: Option<&str>, host: Option<&str>) -> (deny: bool)
        ensures
            deny == spec_deny_cors_origin(*self, opt_str_view(origin), opt_str_view(host)),
    {
        let resolved = header_value::cors_origin_response(origin, host, &self.cors_allow_origin);
        let invalid = matches!(resolved, AllowCors::Invalid);
        invalid && !self.continue_on_invalid_cors
    }

    /// Validate an incoming request by its CORS preflight headers.
    /// `request_headers` are the request's own header names and
    /// `raw_requested` the raw values of its `Access-Control-Request-Headers`
    /// headers, which are split here at commas (a comma optionally followed
    /// by one space).
    pub fn deny_cors_header(
        &self,
        request_headers: &Vec<String>,
        raw_requested: &Vec<String>,
    ) -> (deny: bool)
        ensures
            deny == spec_deny_cors_header(
                *self,
                views_of(request_headers@),
                views_of(raw_requested@),
            ),
    {
        let requested = cors::split_requested_headers(raw_requested);
        let resolved = cors::get_cors_allow_headers(
            request_headers,
            &requested,
            &self.cors_allow_headers,
        );
        let invalid = matches!(resolved, AllowCors::Invalid);
        invalid && !self.continue_on_invalid_cors
    }
}

impl Default for AccessControl {
    /// The maximally permissive policy: any host, CORS disabled, any header,
    /// invalid CORS denied.
    fn default() -> (ac: Self)
        ensures
            ac.allow_hosts is Any,
            ac.cors_allow_origin is None,
            ac.cors_allow_headers is Any,
            !ac.continue_on_invalid_cors,
    {
        Self {
            allow_hosts: AllowHosts::Any,
            cors_allow_origin: Option::None,
            cors_allow_headers: AccessControlAllowHeaders::Any,
            continue_on_invalid_cors: false,
        }
    }
}

/// Accumulates a policy by value and freezes it into an [`AccessControl`].
#[derive(Debug)]
pub struct AccessControlBuilder {
    /// Which `Host` headers are acceptable so far.
    pub allow_hosts: AllowHosts,
    /// Which `Origin` headers are acceptable so far.
    pub cors_allow_origin: Option<Vec<AccessControlAllowOrigin>>,
    /// Which preflight-requested header names are acceptable so far.
    pub cors_allow_headers: AccessControlAllowHeaders,
    /// Whether invalid CORS outcomes are tolerated.
    pub continue_on_invalid_cors: bool,
}

impl Default for AccessControlBuilder {
    /// Start from the maximally permissive policy.
    fn default() -> (b: Self)
        ensures
            b.allow_hosts is Any,
            b.cors_allow_origin is None,
            b.cors_allow_headers is Any,
            !b.continue_on_invalid_cors,
    {
        Self {
            allow_hosts: AllowHosts::Any,
            cors_allow_origin: Option::None,
            cors_allow_headers: AccessControlAllowHeaders::Any,
            continue_on_invalid_cors: false,
        }
    }
}

impl AccessControlBuilder {
    /// Create a new builder for `AccessControl`.
    pub fn new() -> (b: Self)
        ensures
            b.allow_hosts is Any,
            b.cors_allow_origin is None,
            b.cors_allow_headers is Any,
            !b.continue_on_invalid_cors,
    {
        Self::default()
    }

    /// Restrict the acceptable hosts to the ones allowed so far plus `host`:
    /// a first call turns the unrestricted policy into a one-entry list.
    pub fn allow_host(self, host: Host) -> (b: Self)
        ensures
            b.allow_hosts matches AllowHosts::Only(l) && l@ == (match self.allow_hosts {
                AllowHosts::Any => seq![host],
                AllowHosts::Only(prev) => prev@.push(host),
            }),
            b.cors_allow_origin == self.cors_allow_origin,
            b.cors_allow_headers == self.cors_allow_headers,
            b.continue_on_invalid_cors == self.continue_on_invalid_cors,
    {
        let allow_hosts = match self.allow_hosts {
            AllowHosts::Any => {
                let mut l: Vec<Host> = Vec::new();
                l.push(host);
                proof {
                    assert(l@ =~= seq![host]);
                }
                l
            },
            AllowHosts::Only(mut l) => {
                l.push(host);
                l
            },
        };
        Self { allow_hosts: AllowHosts::Only(allow_hosts), ..self }
    }

    /// Restrict the acceptable origins to the ones allowed so far plus
    /// `allow_origin`: a first call turns disabled CORS into a one-entry
    /// list.
    pub fn cors_allow_origin(self, allow_origin: AccessControlAllowOrigin) -> (b: Self)
        ensures
            b.cors_allow_origin matches Some(l) && l@ == (match self.cors_allow_origin {
                Option::None => seq![allow_origin],
                Option::Some(prev) => prev@.push(allow_origin),
            }),
            b.allow_hosts == self.allow_hosts,
            b.cors_allow_headers == self.cors_allow_headers,
            b.continue_on_invalid_cors == self.continue_on_invalid_cors,
    {
        let origins = match self.cors_allow_origin {
            Option::Some(mut l) => {
                l.push(allow_origin);
                l
            },
            Option::None => {
                let mut l: Vec<AccessControlAllowOrigin> = Vec::new();
                l.push(allow_origin);
                proof {
                    assert(l@ =~= seq![allow_origin]);
                }
                l
            },
        };
        Self { cors_allow_origin: Option::Some(origins), ..self }
    }

    /// Restrict the acceptable requested header names to the ones allowed so
    /// far plus `header`: a first call turns the unrestricted policy into a
    /// one-entry list.
    pub fn cors_allow_header(self, header: String) -> (b: Self)
        ensures
            b.cors_allow_headers matches AccessControlAllowHeaders::Only(l) && l@ == (
            match self.cors_allow_headers {
                AccessControlAllowHeaders::Any => seq![header],
                AccessControlAllowHeaders::Only(prev) => prev@.push(header),
            }),
            b.allow_hosts == self.allow_hosts,
            b.cors_allow_origin == self.cors_allow_origin,
            b.continue_on_invalid_cors == self.continue_on_invalid_cors,
    {
        let headers = match self.cors_allow_headers {
            AccessControlAllowHeaders::Any => {
                let mut l: Vec<String> = Vec::new();
                l.push(header);
                proof {
                    assert(l@ =~= seq![header]);
                }
                l
            },
            AccessControlAllowHeaders::Only(mut l) => {
                l.push(header);
                l
            },
        };
        Self { cors_allow_headers: AccessControlAllowHeaders::Only(headers), ..self }
    }

    /// Enable or disable continuing on invalid CORS.
    pub fn continue_on_invalid_cors(self, continue_on_invalid_cors: bool) -> (b: Self)
        ensures
            b.continue_on_invalid_cors == continue_on_invalid_cors,
            b.allow_hosts == self.allow_hosts,
            b.cors_allow_origin == self.cors_allow_origin,
            b.cors_allow_headers == self.cors_allow_headers,
    {
        Self { continue_on_invalid_cors, ..self }
    }

    /// Freeze the accumulated policy.
    pub fn build(self) -> (ac: AccessControl)
        ensures
            ac.allow_hosts == self.allow_hosts,
            ac.cors_allow_origin == self.cors_allow_origin,
            ac.cors_allow_headers == self.cors_allow_headers,
            ac.continue_on_invalid_cors == self.continue_on_invalid_cors,
    {
        AccessControl {
            allow_hosts: self.allow_hosts,
            cors_allow_origin: self.cors_allow_origin,
            cors_allow_headers: self.cors_allow_headers,
            continue_on_invalid_cors: self.continue_on_invalid_cors,
        }
    }
}

/// With `continue_on_invalid_cors` set, every `Invalid` CORS outcome is
/// tolerated: neither CORS predicate ever denies a request.
pub proof fn lemma_continue_on_invalid_tolerates(
    ac: AccessControl,
    origin: Option<Seq<char>>,
    host: Option<Seq<char>>,
    request_headers: Seq<Seq<char>>,
    raw_requested: Seq<Seq<char>>,
)
    requires
        ac.continue_on_invalid_cors,
    ensures
        !spec_deny_cors_origin(ac, origin, host),
        !spec_deny_cors_header(ac, request_headers, raw_requested),
{
}

} // verus!
