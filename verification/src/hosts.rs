//! Host allow-list policy: protection against DNS-rebinding attacks.
//!
//! A request's `Host` header is validated against an [`AllowHosts`] policy:
//! either every host is acceptable, or only those matching one of a list of
//! configured patterns (exact names or `*.domain` wildcards).

use vstd::prelude::*;

use crate::matcher;

verus! {

/// A configured allow-list entry: `hostname[:port]` or `scheme://hostname[:port]`,
/// optionally starting with a `*.` wildcard segment that stands for any
/// sub-domain.  Matching against a request's `Host` header is
/// ASCII-case-insensitive.
#[derive(Clone, Debug, PartialEq, Eq)]
pub struct Host {
    /// The pattern as configured.
    pub pattern: String,
}

impl View for Host {
    type V = Seq<char>;

    open spec fn view(&self) -> Seq<char> {
        self.pattern@
    }
}

impl Host {
    /// Build a host entry from its string form.
    pub fn from(pattern: &str) -> (h: Host)
        ensures
            h@ == pattern@,
    {
        Host { pattern: String::from_str(pattern) }
    }
}

/// Which `Host` headers a server accepts.
#[derive(Clone, Debug, PartialEq, Eq)]
pub enum AllowHosts {
    /// No restriction: every host is acceptable.
    Any,
    /// Only hosts matching one of these entries are acceptable; an empty list
    /// denies every request.
    Only(Vec<Host>),
}

/// Some entry of the list accepts `host`.
pub open spec fn host_list_allows(list: Seq<Host>, host: Seq<char>) -> bool {
    exists|i: int| 0 <= i < list.len() && matcher::spec_matches(list[i]@, host)
}

/// What `is_host_valid` decides: the `Any` policy accepts everything, an
/// `Only` policy accepts exactly the present `Host` headers that match one of
/// its entries, and a missing `Host` header fails every `Only` policy.
pub open spec fn spec_is_host_valid(host: Option<Seq<char>>, policy: AllowHosts) -> bool {
    match policy {
        AllowHosts::Any => true,
        AllowHosts::Only(list) => match host {
            Option::Some(h) => host_list_allows(list@, h),
            Option::None => false,
        },
    }
}

/// The view of an optional header value.
pub open spec fn opt_str_view(s: Option<&str>) -> Option<Seq<char>> {
    match s {
        Option::Some(x) => Option::Some(x@),
        Option::None => Option::None,
    }
}

/// Validate a request's `Host` header value against a policy.
pub fn is_host_valid(host: Option<&str>, policy: &AllowHosts) -> (valid: bool)
    ensures
        valid == spec_is_host_valid(opt_str_view(host), *policy),
{
    match policy {
        AllowHosts::Any => true,
        AllowHosts::Only(list) => match host {
            Option::None => false,
            Option::Some(h) => {
                let n = list.len();
                let mut i: usize = 0;
                while i < n
                    invariant
                        n == list@.len(),
                        0 <= i <= n,
                        opt_str_view(host) == Option::Some(h@),
                        *policy == AllowHosts::Only(*list),
                        forall|j: int| 0 <= j < i ==> !matcher::spec_matches(#[trigger] list@[j]@, h@),
                    decreases n - i,
                {
                    if matcher::matches(list[i].pattern.as_str(), h) {
                        proof {
                            assert(host_list_allows(list@, h@));
                        }
                        return true;
                    }
                    i += 1;
                }
                false
            },
        },
    }
}

/// The `Any` policy accepts every request, whether or not a `Host` header is
/// present.
pub proof fn lemma_any_policy_accepts(host: Option<Seq<char>>)
    ensures
        spec_is_host_valid(host, AllowHosts::Any),
{
}

/// An `Only` policy accepts exactly the requests whose `Host` header is
/// present and matches some entry of the list; a request without a `Host`
/// header is always rejected.
pub proof fn lemma_only_policy(host: Option<Seq<char>>, policy: AllowHosts)
    requires
        policy matches AllowHosts::Only(_),
    ensures
        host is None ==> !spec_is_host_valid(host, policy),
        host matches Some(h) ==> spec_is_host_valid(host, policy) == host_list_allows(
            policy->Only_0@,
            h,
        ),
{
}

} // verus!
