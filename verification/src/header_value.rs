//! Construction of HTTP header values for CORS responses.
//!
//! The other modules decide; this one turns a decision's representative
//! strings into `hyper` header values for the caller to write into the
//! response.  Building a header value never fails a request: a configured
//! string that cannot be carried in a header value is replaced by the literal
//! `null` (for origins) or `unknown` (for header names).

use vstd::prelude::*;

use crate::cors::{
    get_cors_allow_origin, opt_origins_view, spec_cors_allow_origin, AccessControlAllowOrigin,
    AllowCors, OriginOutcome,
};
use crate::hosts::opt_str_view;

verus! {

/// hyper's header value type, opaque to this library.
#[verifier::external_type_specification]
#[verifier::external_body]
pub struct ExHeaderValue(hyper::header::HeaderValue);

/// The characters a header value holds.
pub uninterp spec fn header_value_chars(v: hyper::header::HeaderValue) -> Seq<char>;

/// A character that may stand in a header value: a horizontal tab, or any
/// character other than the remaining ASCII control characters and delete.
/// hyper states this over bytes (at least 32 and not 127, or a tab); the two
/// readings agree, since every byte of a multi-byte character is at least 128.
pub open spec fn valid_header_char(c: char) -> bool {
    c == '\t' || (32 <= c as u32 && c as u32 != 127)
}

/// Every character of `s` may stand in a header value.
pub open spec fn valid_header_string(s: Seq<char>) -> bool {
    forall|i: int| 0 <= i < s.len() ==> valid_header_char(s[i])
}

/// Relies on `hyper::header::HeaderValue::from_str` (the `http` crate): it
/// returns `Ok` exactly when every byte of the string may stand in a header
/// value, and the value it returns then holds exactly the string.
#[verifier::external_body]
fn try_header_value(s: &str) -> (r: Option<hyper::header::HeaderValue>)
    ensures
        r is Some <==> valid_header_string(s@),
        r matches Some(v) ==> header_value_chars(v) == s@,
{
    hyper::header::HeaderValue::from_str(s).ok()
}

/// A header value from a string already known to be acceptable.
fn literal_header_value(s: &str) -> (v: hyper::header::HeaderValue)
    requires
        valid_header_string(s@),
    ensures
        header_value_chars(v) == s@,
{
    match try_header_value(s) {
        Option::Some(v) => v,
        Option::None => vstd::pervasive::unreached(),
    }
}

/// The string a resolved origin is echoed as: the configured origin itself,
/// with `null` substituted when it cannot be carried in a header value.
pub open spec fn spec_origin_response(o: AccessControlAllowOrigin) -> Seq<char> {
    match o {
        AccessControlAllowOrigin::Any => "*"@,
        AccessControlAllowOrigin::Null => "null"@,
        AccessControlAllowOrigin::Value(s) => if valid_header_string(s@) {
            s@
        } else {
            "null"@
        },
    }
}

/// The `Access-Control-Allow-Origin` value for an accepted origin.
pub fn origin_response_value(origin: &AccessControlAllowOrigin) -> (v: hyper::header::HeaderValue)
    ensures
        header_value_chars(v) == spec_origin_response(*origin),
{
    proof {
        reveal_strlit("*");
        reveal_strlit("null");
        assert(valid_header_string("*"@)) by {
            assert forall|i: int| 0 <= i < "*"@.len() implies valid_header_char("*"@[i]) by {
                assert("*"@[0] == '*');
            }
        }
        assert(valid_header_string("null"@)) by {
            assert forall|i: int| 0 <= i < "null"@.len() implies valid_header_char("null"@[i]) by {
                if i == 0 {
                    assert("null"@[0] == 'n');
                } else if i == 1 {
                    assert("null"@[1] == 'u');
                } else if i == 2 {
                    assert("null"@[2] == 'l');
                } else {
                    assert("null"@[3] == 'l');
                }
            }
        }
    }
    match origin {
        AccessControlAllowOrigin::Any => literal_header_value("*"),
        AccessControlAllowOrigin::Null => literal_header_value("null"),
        AccessControlAllowOrigin::Value(s) => match try_header_value(s.as_str()) {
            Option::Some(v) => v,
            Option::None => literal_header_value("null"),
        },
    }
}

/// The string a requested header name is echoed as: the name itself, with
/// `unknown` substituted when it cannot be carried in a header value.
pub open spec fn spec_header_name_response(name: Seq<char>) -> Seq<char> {
    if valid_header_string(name) {
        name
    } else {
        "unknown"@
    }
}

/// The echo of one requested header name, as a header value.
pub fn header_name_value(name: &str) -> (v: hyper::header::HeaderValue)
    ensures
        header_value_chars(v) == spec_header_name_response(name@),
{
    match try_header_value(name) {
        Option::Some(v) => v,
        Option::None => {
            proof {
                reveal_strlit("unknown");
                assert(valid_header_string("unknown"@)) by {
                    assert forall|i: int| 0 <= i < "unknown"@.len() implies valid_header_char(
                        "unknown"@[i],
                    ) by {
                        if i == 0 {
                            assert("unknown"@[0] == 'u');
                        } else if i == 1 {
                            assert("unknown"@[1] == 'n');
                        } else if i == 2 {
                            assert("unknown"@[2] == 'k');
                        } else if i == 3 {
                            assert("unknown"@[3] == 'n');
                        } else if i == 4 {
                            assert("unknown"@[4] == 'o');
                        } else if i == 5 {
                            assert("unknown"@[5] == 'w');
                        } else {
                            assert("unknown"@[6] == 'n');
                        }
                    }
                }
            }
            literal_header_value("unknown")
        },
    }
}

/// The spec-level outcome that a resolved response value stands for.
pub open spec fn response_view(r: AllowCors<hyper::header::HeaderValue>) -> AllowCors<Seq<char>> {
    match r {
        AllowCors::NotRequired => AllowCors::NotRequired,
        AllowCors::Invalid => AllowCors::Invalid,
        AllowCors::Allowed(v) => AllowCors::Allowed(header_value_chars(v)),
    }
}

/// The resolved origin outcome with its response string filled in.
pub open spec fn spec_origin_response_outcome(o: OriginOutcome) -> AllowCors<Seq<char>> {
    match o {
        OriginOutcome::NotRequired => AllowCors::NotRequired,
        OriginOutcome::Invalid => AllowCors::Invalid,
        OriginOutcome::AllowAny => AllowCors::Allowed("*"@),
        OriginOutcome::AllowNull => AllowCors::Allowed("null"@),
        OriginOutcome::AllowValue(v) => AllowCors::Allowed(
            if valid_header_string(v) {
                v
            } else {
                "null"@
            },
        ),
    }
}

/// Resolve a request's `Origin` header and carry the accepted origin as the
/// `Access-Control-Allow-Origin` value to echo.
pub fn cors_origin_response(
    origin: Option<&str>,
    host: Option<&str>,
    allow_origin: &Option<Vec<AccessControlAllowOrigin>>,
) -> (r: AllowCors<hyper::header::HeaderValue>)
    ensures
        response_view(r) == spec_origin_response_outcome(
            spec_cors_allow_origin(
                opt_str_view(origin),
                opt_str_view(host),
                opt_origins_view(*allow_origin),
            ),
        ),
{
    match get_cors_allow_origin(origin, host, allow_origin) {
        AllowCors::NotRequired => AllowCors::NotRequired,
        AllowCors::Invalid => AllowCors::Invalid,
        AllowCors::Allowed(o) => AllowCors::Allowed(origin_response_value(&o)),
    }
}

} // verus!
