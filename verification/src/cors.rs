//! CORS policy: which `Origin` values and which preflight-requested header
//! names a server accepts, and the shared resolution outcome.
//!
//! Both checks resolve to an [`AllowCors`] value: `NotRequired` when the
//! request carries nothing to check, `Allowed` with a representative value to
//! echo in the response, or `Invalid` when the policy rejects the request.

use vstd::prelude::*;

use crate::matcher;

verus! {

/// A single configured acceptable origin.
#[derive(Clone, Debug, PartialEq, Eq)]
pub enum AccessControlAllowOrigin {
    /// Every origin is acceptable; the response advertises `*`.
    Any,
    /// Only the literal origin string `null` is acceptable.
    Null,
    /// Exactly this origin string is acceptable (compared case-sensitively).
    Value(String),
}

/// Which preflight-requested header names a server accepts.
#[derive(Clone, Debug, PartialEq, Eq)]
pub enum AccessControlAllowHeaders {
    /// Every requested header is acceptable.
    Any,
    /// Only header names ASCII-case-insensitively equal to one of these
    /// entries are acceptable.
    Only(Vec<String>),
}

/// Outcome of a CORS resolution.
#[derive(Clone, Debug, PartialEq, Eq)]
pub enum AllowCors<T> {
    /// The request carries nothing that this check concerns itself with.
    NotRequired,
    /// The policy rejects the request.
    Invalid,
    /// The policy accepts the request; the value is representative material
    /// for the matching response header.
    Allowed(T),
}

/// The views of a sequence of strings.
pub open spec fn views_of(v: Seq<String>) -> Seq<Seq<char>> {
    Seq::new(v.len(), |i: int| v[i]@)
}

/// Spec-level outcome of resolving a request's `Origin` header.
pub enum OriginOutcome {
    /// No `Origin` header: not a CORS request.
    NotRequired,
    /// The policy rejects this origin.
    Invalid,
    /// Accepted by an `Any` entry; the response advertises `*`.
    AllowAny,
    /// Accepted by a `Null` entry; the response advertises `null`.
    AllowNull,
    /// Accepted as this specific origin string.
    AllowValue(Seq<char>),
}

/// Scan an allow-list in order; the first entry that accepts `origin` decides.
pub open spec fn scan_allow_origins(
    list: Seq<AccessControlAllowOrigin>,
    origin: Seq<char>,
) -> OriginOutcome
    decreases list.len(),
{
    if list.len() == 0 {
        OriginOutcome::Invalid
    } else {
        match list[0] {
            AccessControlAllowOrigin::Any => OriginOutcome::AllowAny,
            AccessControlAllowOrigin::Null => if origin == "null"@ {
                OriginOutcome::AllowNull
            } else {
                scan_allow_origins(list.skip(1), origin)
            },
            AccessControlAllowOrigin::Value(v) => if v@ == origin {
                OriginOutcome::AllowValue(origin)
            } else {
                scan_allow_origins(list.skip(1), origin)
            },
        }
    }
}

/// What `get_cors_allow_origin` decides.
///
/// No `Origin` header means the check is not required; an `Origin`
/// ASCII-case-insensitively equal to the `Host` header is a same-origin
/// request and is accepted without consulting the allow-list; otherwise a
/// `None` policy (CORS disabled) rejects, and a `Some` policy is scanned in
/// order.
pub open spec fn spec_cors_allow_origin(
    origin: Option<Seq<char>>,
    host: Option<Seq<char>>,
    policy: Option<Seq<AccessControlAllowOrigin>>,
) -> OriginOutcome {
    match origin {
        Option::None => OriginOutcome::NotRequired,
        Option::Some(o) => if host matches Option::Some(h) && matcher::chars_eq_ci(o, h) {
            OriginOutcome::AllowValue(o)
        } else {
            match policy {
                Option::None => OriginOutcome::Invalid,
                Option::Some(list) => scan_allow_origins(list, o),
            }
        },
    }
}

/// The view of an optional origin allow-list.
pub open spec fn opt_origins_view(
    p: Option<Vec<AccessControlAllowOrigin>>,
) -> Option<Seq<AccessControlAllowOrigin>> {
    match p {
        Option::None => Option::None,
        Option::Some(v) => Option::Some(v@),
    }
}

/// The spec-level outcome that an executable origin resolution stands for.
pub open spec fn origin_outcome_view(r: AllowCors<AccessControlAllowOrigin>) -> OriginOutcome {
    match r {
        AllowCors::NotRequired => OriginOutcome::NotRequired,
        AllowCors::Invalid => OriginOutcome::Invalid,
        AllowCors::Allowed(AccessControlAllowOrigin::Any) => OriginOutcome::AllowAny,
        AllowCors::Allowed(AccessControlAllowOrigin::Null) => OriginOutcome::AllowNull,
        AllowCors::Allowed(AccessControlAllowOrigin::Value(v)) => OriginOutcome::AllowValue(v@),
    }
}

/// Resolve a request's `Origin` header against the configured policy.
pub fn get_cors_allow_origin(
    origin: Option<&str>,
    host: Option<&str>,
    allow_origin: &Option<Vec<AccessControlAllowOrigin>>,
) -> (r: AllowCors<AccessControlAllowOrigin>)
    ensures
        origin_outcome_view(r) == spec_cors_allow_origin(
            crate::hosts::opt_str_view(origin),
            crate::hosts::opt_str_view(host),
            opt_origins_view(*allow_origin),
        ),
{
    match origin {
        Option::None => AllowCors::NotRequired,
        Option::Some(o) => {
            let same_origin = match host {
                Option::Some(h) => matcher::str_eq_ignore_case(o, h),
                Option::None => false,
            };
            if same_origin {
                AllowCors::Allowed(AccessControlAllowOrigin::Value(String::from_str(o)))
            } else {
                match allow_origin {
                    Option::None => AllowCors::Invalid,
                    Option::Some(list) => {
                        let n = list.len();
                        let mut i: usize = 0;
                        proof {
                            assert(list@.skip(0) =~= list@);
                        }
                        while i < n
                            invariant
                                n == list@.len(),
                                0 <= i <= n,
                                crate::hosts::opt_str_view(origin) == Option::Some(o@),
                                opt_origins_view(*allow_origin) == Option::Some(list@),
                                spec_cors_allow_origin(
                                    crate::hosts::opt_str_view(origin),
                                    crate::hosts::opt_str_view(host),
                                    opt_origins_view(*allow_origin),
                                ) == scan_allow_origins(list@.skip(i as int), o@),
                            decreases n - i,
                        {
                            proof {
                                assert(list@.skip(i as int)[0] == list@[i as int]);
                                assert(list@.skip(i as int).skip(1) =~= list@.skip(i as int + 1));
                            }
                            match &list[i] {
                                AccessControlAllowOrigin::Any => {
                                    return AllowCors::Allowed(AccessControlAllowOrigin::Any);
                                },
                                AccessControlAllowOrigin::Null => {
                                    if matcher::str_eq(o, "null") {
                                        return AllowCors::Allowed(AccessControlAllowOrigin::Null);
                                    }
                                },
                                AccessControlAllowOrigin::Value(v) => {
                                    if matcher::str_eq(v.as_str(), o) {
                                        return AllowCors::Allowed(
                                            AccessControlAllowOrigin::Value(v.clone()),
                                        );
                                    }
                                },
                            }
                            i += 1;
                        }
                        proof {
                            assert(list@.skip(n as int) =~= Seq::<AccessControlAllowOrigin>::empty());
                        }
                        AllowCors::Invalid
                    },
                }
            }
        },
    }
}

/// Without an `Origin` header a request is never a CORS request, whatever the
/// policy and the `Host` header.
pub proof fn lemma_absent_origin_not_required(
    host: Option<Seq<char>>,
    policy: Option<Seq<AccessControlAllowOrigin>>,
)
    ensures
        spec_cors_allow_origin(Option::None, host, policy) is NotRequired,
{
}

/// An `Origin` equal to the `Host` header is a same-origin request and is
/// accepted under every policy, CORS-disabled ones included.
pub proof fn lemma_same_origin_allowed(
    origin: Seq<char>,
    host: Seq<char>,
    policy: Option<Seq<AccessControlAllowOrigin>>,
)
    requires
        matcher::chars_eq_ci(origin, host),
    ensures
        spec_cors_allow_origin(Option::Some(origin), Option::Some(host), policy)
            == OriginOutcome::AllowValue(origin),
{
}

/// With CORS disabled (policy `None`), every cross-origin request is rejected.
pub proof fn lemma_cors_disabled_invalid(origin: Seq<char>, host: Option<Seq<char>>)
    requires
        !(host matches Option::Some(h) && matcher::chars_eq_ci(origin, h)),
    ensures
        spec_cors_allow_origin(Option::Some(origin), host, Option::None) is Invalid,
{
}

/// Some entry of the list equals the header name, up to ASCII case.
pub open spec fn header_allowed(list: Seq<String>, name: Seq<char>) -> bool {
    exists|i: int| 0 <= i < list.len() && matcher::chars_eq_ci(list[i]@, name)
}

/// Every requested header name is accepted by the list.
pub open spec fn all_headers_allowed(list: Seq<String>, requested: Seq<Seq<char>>) -> bool {
    forall|i: int| 0 <= i < requested.len() ==> header_allowed(list, #[trigger] requested[i])
}

/// What `get_cors_allow_headers` decides.
///
/// No requested header names means the check is not required.  The `Any`
/// policy accepts everything and echoes the request's own header names; an
/// `Only` policy accepts exactly the requests all of whose requested names
/// are listed, echoing the requested names, and rejects the rest.
pub open spec fn spec_cors_allow_headers(
    request_headers: Seq<Seq<char>>,
    requested: Seq<Seq<char>>,
    policy: AccessControlAllowHeaders,
) -> AllowCors<Seq<Seq<char>>> {
    if requested.len() == 0 {
        AllowCors::NotRequired
    } else {
        match policy {
            AccessControlAllowHeaders::Any => AllowCors::Allowed(request_headers),
            AccessControlAllowHeaders::Only(list) => if all_headers_allowed(list@, requested) {
                AllowCors::Allowed(requested)
            } else {
                AllowCors::Invalid
            },
        }
    }
}

/// The spec-level outcome that an executable header resolution stands for.
pub open spec fn headers_outcome_view(r: AllowCors<Vec<String>>) -> AllowCors<Seq<Seq<char>>> {
    match r {
        AllowCors::NotRequired => AllowCors::NotRequired,
        AllowCors::Invalid => AllowCors::Invalid,
        AllowCors::Allowed(v) => AllowCors::Allowed(views_of(v@)),
    }
}

/// Whether `name` equals some entry of `list`, up to ASCII case.
fn header_in_list(list: &Vec<String>, name: &str) -> (r: bool)
    ensures
        r == header_allowed(list@, name@),
{
    let n = list.len();
    let mut i: usize = 0;
    while i < n
        invariant
            n == list@.len(),
            0 <= i <= n,
            forall|j: int| 0 <= j < i ==> !matcher::chars_eq_ci(#[trigger] list@[j]@, name@),
        decreases n - i,
    {
        if matcher::str_eq_ignore_case(list[i].as_str(), name) {
            proof {
                assert(header_allowed(list@, name@));
            }
            return true;
        }
        i += 1;
    }
    false
}

/// An element-wise copy of a string vector.
fn clone_strings(v: &Vec<String>) -> (r: Vec<String>)
    ensures
        r@ == v@,
{
    let n = v.len();
    let mut r: Vec<String> = Vec::new();
    let mut i: usize = 0;
    while i < n
        invariant
            n == v@.len(),
            0 <= i <= n,
            r@.len() == i,
            forall|j: int| 0 <= j < i ==> r@[j] == v@[j],
        decreases n - i,
    {
        r.push(v[i].clone());
        i += 1;
    }
    proof {
        assert(r@ =~= v@);
    }
    r
}

/// Resolve the preflight-requested header names against the configured
/// policy.  `request_headers` are the request's own header names, echoed when
/// the policy is `Any`; `requested_headers` are the already-split names from
/// `Access-Control-Request-Headers`.
pub fn get_cors_allow_headers(
    request_headers: &Vec<String>,
    requested_headers: &Vec<String>,
    policy: &AccessControlAllowHeaders,
) -> (r: AllowCors<Vec<String>>)
    ensures
        headers_outcome_view(r) == spec_cors_allow_headers(
            views_of(request_headers@),
            views_of(requested_headers@),
            *policy,
        ),
{
    if requested_headers.len() == 0 {
        return AllowCors::NotRequired;
    }
    match policy {
        AccessControlAllowHeaders::Any => AllowCors::Allowed(clone_strings(request_headers)),
        AccessControlAllowHeaders::Only(list) => {
            let n = requested_headers.len();
            let mut i: usize = 0;
            while i < n
                invariant
                    n == requested_headers@.len(),
                    n >= 1,
                    0 <= i <= n,
                    *policy == AccessControlAllowHeaders::Only(*list),
                    forall|j: int| 0 <= j < i ==> header_allowed(
                        list@,
                        #[trigger] views_of(requested_headers@)[j],
                    ),
                decreases n - i,
            {
                if !header_in_list(list, requested_headers[i].as_str()) {
                    proof {
                        assert(views_of(requested_headers@)[i as int]
                            == requested_headers@[i as int]@);
                    }
                    return AllowCors::Invalid;
                }
                i += 1;
            }
            AllowCors::Allowed(clone_strings(requested_headers))
        },
    }
}

/// Without requested header names the check is never required, whatever the
/// policy.
pub proof fn lemma_no_requested_headers_not_required(
    request_headers: Seq<Seq<char>>,
    policy: AccessControlAllowHeaders,
)
    ensures
        spec_cors_allow_headers(request_headers, Seq::empty(), policy) is NotRequired,
{
}

/// The `Any` header policy accepts every non-empty requested set.
pub proof fn lemma_any_headers_policy(request_headers: Seq<Seq<char>>, requested: Seq<Seq<char>>)
    requires
        requested.len() > 0,
    ensures
        spec_cors_allow_headers(request_headers, requested, AccessControlAllowHeaders::Any)
            == AllowCors::<Seq<Seq<char>>>::Allowed(request_headers),
{
}

/// The pieces of `s` between its commas, in order: one piece more than `s`
/// has commas, each possibly empty, none containing a comma.
pub open spec fn spec_split_commas(s: Seq<char>) -> Seq<Seq<char>>
    decreases s.len(),
{
    if s.len() == 0 {
        seq![Seq::<char>::empty()]
    } else if s[0] == ',' {
        seq![Seq::<char>::empty()] + spec_split_commas(s.skip(1))
    } else {
        let rest = spec_split_commas(s.skip(1));
        seq![seq![s[0]] + rest[0]] + rest.skip(1)
    }
}

/// One space directly after a comma belongs to the separator, not to the name.
pub open spec fn strip_one_leading_space(s: Seq<char>) -> Seq<char> {
    if s.len() > 0 && s[0] == ' ' {
        s.skip(1)
    } else {
        s
    }
}

/// The header names carried by one raw `Access-Control-Request-Headers`
/// value: the value split at every comma, with one space directly after each
/// comma consumed.  This is the same reading as splitting the value on the
/// separator `", "` and then on `","`.
pub open spec fn spec_requested_names(raw: Seq<char>) -> Seq<Seq<char>> {
    let parts = spec_split_commas(raw);
    Seq::new(
        parts.len(),
        |i: int| if i == 0 {
            parts[0]
        } else {
            strip_one_leading_space(parts[i])
        },
    )
}

/// The requested header names over all raw values, in order.
pub open spec fn spec_requested_all(raws: Seq<Seq<char>>) -> Seq<Seq<char>>
    decreases raws.len(),
{
    if raws.len() == 0 {
        Seq::empty()
    } else {
        spec_requested_names(raws[0]) + spec_requested_all(raws.skip(1))
    }
}

/// Appending one more raw value appends its names.
pub proof fn lemma_requested_all_push(raws: Seq<Seq<char>>, x: Seq<char>)
    ensures
        spec_requested_all(raws.push(x)) == spec_requested_all(raws) + spec_requested_names(x),
    decreases raws.len(),
{
    if raws.len() == 0 {
        assert(raws.push(x).skip(1) =~= Seq::<Seq<char>>::empty());
        assert(raws.push(x)[0] == x);
        assert(spec_requested_all(raws.push(x)) == spec_requested_names(x) + spec_requested_all(
            Seq::<Seq<char>>::empty(),
        ));
        assert(spec_requested_all(raws.push(x)) =~= spec_requested_names(x));
        assert(spec_requested_all(raws) + spec_requested_names(x) =~= spec_requested_names(x));
    } else {
        assert(raws.push(x).skip(1) =~= raws.skip(1).push(x));
        assert(raws.push(x)[0] == raws[0]);
        lemma_requested_all_push(raws.skip(1), x);
        assert(spec_requested_all(raws.push(x)) == spec_requested_names(raws[0])
            + spec_requested_all(raws.skip(1).push(x)));
        assert(spec_requested_all(raws) == spec_requested_names(raws[0]) + spec_requested_all(
            raws.skip(1),
        ));
        assert(spec_requested_names(raws[0]) + (spec_requested_all(raws.skip(1))
            + spec_requested_names(x)) =~= (spec_requested_names(raws[0]) + spec_requested_all(
            raws.skip(1),
        )) + spec_requested_names(x));
    }
}

/// Split one raw header value at its commas.
pub fn split_commas(s: &str) -> (r: Vec<String>)
    ensures
        views_of(r@) == spec_split_commas(s@),
{
    let len = s.unicode_len();
    let mut r: Vec<String> = Vec::new();
    r.push(String::new());
    let mut i: usize = len;
    proof {
        assert(s@.skip(len as int) =~= Seq::<char>::empty());
        assert(views_of(r@) =~= spec_split_commas(s@.skip(len as int)));
    }
    while i > 0
        invariant
            i <= len,
            len == s@.len(),
            r@.len() >= 1,
            views_of(r@) == spec_split_commas(s@.skip(i as int)),
        decreases i,
    {
        i -= 1;
        let ghost tail = s@.skip(i as int);
        let ghost old_views = views_of(r@);
        proof {
            assert(tail[0] == s@[i as int]);
            assert(tail.skip(1) =~= s@.skip(i as int + 1));
        }
        let c = s.get_char(i);
        if c == ',' {
            r.insert(0, String::new());
            proof {
                assert(views_of(r@) =~= seq![Seq::<char>::empty()] + old_views);
            }
        } else {
            let piece = s.substring_char(i, i + 1);
            proof {
                assert(piece@ =~= seq![s@[i as int]]);
            }
            let first = r.remove(0);
            let combined = String::from_str(piece).concat(first.as_str());
            proof {
                assert(combined@ == seq![tail[0]] + old_views[0]);
            }
            r.insert(0, combined);
            proof {
                assert(views_of(r@) =~= seq![seq![tail[0]] + old_views[0]] + old_views.skip(1));
            }
        }
    }
    proof {
        assert(s@.skip(0) =~= s@);
    }
    r
}

/// Collect the requested header names from all raw
/// `Access-Control-Request-Headers` values of a request, in order.
pub fn split_requested_headers(values: &Vec<String>) -> (names: Vec<String>)
    ensures
        views_of(names@) == spec_requested_all(views_of(values@)),
{
    let mut names: Vec<String> = Vec::new();
    let m = values.len();
    let mut k: usize = 0;
    proof {
        assert(views_of(values@).take(0) =~= Seq::<Seq<char>>::empty());
        assert(views_of(names@) =~= spec_requested_all(views_of(values@).take(0)));
    }
    while k < m
        invariant
            m == values@.len(),
            0 <= k <= m,
            views_of(names@) == spec_requested_all(views_of(values@).take(k as int)),
        decreases m - k,
    {
        let ghost raw = values@[k as int]@;
        let ghost prev = views_of(names@);
        let ghost req = spec_requested_names(raw);
        let value = &values[k];
        let parts = split_commas(value.as_str());
        let n = parts.len();
        proof {
            assert(req.len() == n);
            assert(req.take(0) =~= Seq::<Seq<char>>::empty());
            assert(prev + req.take(0) =~= prev);
        }
        let mut j: usize = 0;
        while j < n
            invariant
                n == parts@.len(),
                0 <= j <= n,
                views_of(parts@) == spec_split_commas(raw),
                req == spec_requested_names(raw),
                views_of(names@) == prev + req.take(j as int),
            decreases n - j,
        {
            let ghost before = views_of(names@);
            let part = &parts[j];
            if j >= 1 && part.as_str().unicode_len() > 0 && part.as_str().get_char(0) == ' ' {
                let plen = part.as_str().unicode_len();
                let stripped = part.as_str().substring_char(1, plen);
                proof {
                    assert(stripped@ =~= parts@[j as int]@.skip(1));
                    assert(req[j as int] == stripped@);
                }
                names.push(String::from_str(stripped));
            } else {
                proof {
                    assert(req[j as int] == parts@[j as int]@);
                }
                names.push(part.clone());
            }
            proof {
                assert(views_of(names@) =~= before.push(req[j as int]));
                assert(req.take(j + 1) =~= req.take(j as int).push(req[j as int]));
                assert(prev + req.take(j + 1) =~= (prev + req.take(j as int)).push(
                    req[j as int],
                ));
            }
            j += 1;
        }
        proof {
            assert(req.take(n as int) =~= req);
            lemma_requested_all_push(views_of(values@).take(k as int), raw);
            assert(views_of(values@).take(k + 1) =~= views_of(values@).take(k as int).push(raw));
        }
        k += 1;
    }
    proof {
        assert(views_of(values@).take(m as int) =~= views_of(values@));
    }
    names
}

/// An allow-list headed by an `Any` entry accepts every origin as `*`.
pub proof fn lemma_any_first_entry_allows_all(
    list: Seq<AccessControlAllowOrigin>,
    origin: Seq<char>,
)
    requires
        list.len() > 0,
        list[0] is Any,
    ensures
        scan_allow_origins(list, origin) == OriginOutcome::AllowAny,
{
}

/// An allow-list containing an `Any` entry anywhere never rejects an origin.
pub proof fn lemma_any_entry_never_invalid(list: Seq<AccessControlAllowOrigin>, origin: Seq<char>)
    requires
        exists|i: int| 0 <= i < list.len() && list[i] is Any,
    ensures
        !(scan_allow_origins(list, origin) is Invalid),
    decreases list.len(),
{
    let k = choose|i: int| 0 <= i < list.len() && list[i] is Any;
    if !(list[0] is Any) {
        assert(list.skip(1)[k - 1] == list[k]);
        lemma_any_entry_never_invalid(list.skip(1), origin);
    }
}

} // verus!
