//! What the HTTP API front end decides: which credential a request carries,
//! how a malformed request is answered, which status a successful response
//! goes out with, and which endpoints are served to whom. Serving stays with
//! the HTTP stack.

use vstd::prelude::*;
use crate::cli_error::{status_of, ErrorCode};
use crate::text::{chars_of, matches_at, nat_text, push_nat_text};

verus! {

/// An error as the service layer reports it: a code and a message.
pub struct ServiceError {
    pub code: ErrorCode,
    pub message: String,
}

/// The `Authorization` header of a request, as far as the credential check
/// reads it.
pub enum AuthHeader {
    /// No such header.
    Missing,
    /// A value that is not visible ASCII text.
    NotText,
    /// The header's text.
    Text(String),
}

/// The bearer token a request carries, or why it carries none.
pub open spec fn bearer_of(header: AuthHeader) -> Result<Seq<char>, Seq<char>> {
    match header {
        AuthHeader::Missing => Err("No authorization header"@),
        AuthHeader::NotText => Err("Invalid authorization header"@),
        AuthHeader::Text(t) => if t@.len() >= 7 && t@.take(7) == "Bearer "@ {
            Ok(t@.skip(7))
        } else {
            Err("Invalid authentication scheme"@)
        },
    }
}

/// Extract the bearer token; a request without one is answered 401 with the
/// reason.
pub fn bearer_token(header: AuthHeader) -> (r: Result<String, String>)
    ensures
        match bearer_of(header) {
            Ok(t) => r matches Ok(s) && s@ == t,
            Err(e) => r matches Err(s) && s@ == e,
        },
{
    match header {
        AuthHeader::Missing => Err(String::from_str("No authorization header")),
        AuthHeader::NotText => Err(String::from_str("Invalid authorization header")),
        AuthHeader::Text(t) => {
            let v = chars_of(t.as_str());
            let scheme = chars_of("Bearer ");
            proof {
                reveal_strlit("Bearer ");
            }
            if v.len() >= 7 && matches_at(&v, &scheme, 0) {
                let mut token = String::new();
                let mut i: usize = 7;
                while i < v.len()
                    invariant
                        7 <= i <= v@.len(),
                        token@ == v@.subrange(7, i as int),
                    decreases v.len() - i,
                {
                    crate::text::push_char(&mut token, v[i]);
                    i = i + 1;
                }
                assert(v@.take(7) == v@.subrange(0, 7));
                Ok(token)
            } else {
                proof {
                    if v@.len() >= 7 {
                        assert(v@.subrange(0, 7) == v@.take(7));
                    }
                }
                Err(String::from_str("Invalid authentication scheme"))
            }
        },
    }
}

/// The message a request gets when its token does not validate.
pub fn rejected_token_message() -> (r: String)
    ensures
        r@ == "Invalid or expired token"@,
{
    String::from_str("Invalid or expired token")
}

/// A request that reached a handler without a caller identity: neither the
/// credential check nor the open-access layer stood in front of it, so the
/// handler refuses it rather than guess.
pub fn missing_caller() -> (r: ServiceError)
    ensures
        r.code == ErrorCode::Unauthorized,
        r.message@ == "Request has no caller identity"@,
{
    ServiceError { code: ErrorCode::Unauthorized, message: String::from_str("Request has no caller identity") }
}

/// A request for the calling token's own record that presented no token
/// (authentication is off).
pub fn missing_token() -> (r: ServiceError)
    ensures
        r.code == ErrorCode::Unauthorized,
        r.message@ == "Request carries no API token"@,
{
    ServiceError { code: ErrorCode::Unauthorized, message: String::from_str("Request carries no API token") }
}

/// Body cap for whole-zone-file and bulk uploads: above the HTTP stack's
/// 2 MiB default, but bounded to limit per-request memory.
pub const MAX_UPLOAD_BODY_BYTES: u64 = 33554432;

/// Why a JSON body was not accepted.
pub enum JsonRejectionKind {
    /// The body is JSON but not of the expected shape.
    Data,
    /// The body is not JSON.
    Syntax,
    /// The request did not say it carries JSON.
    MissingContentType,
    /// The body is over the size limit.
    TooLarge,
    /// The body could not be read.
    Other,
}

/// The error a rejected JSON body is answered with; `detail` is the
/// rejection's own text.
pub open spec fn json_rejection_of(kind: JsonRejectionKind, detail: Seq<char>) -> (ErrorCode, Seq<char>) {
    match kind {
        JsonRejectionKind::Data => (ErrorCode::InvalidJsonBody, "Invalid JSON body: "@ + detail),
        JsonRejectionKind::Syntax => (ErrorCode::InvalidJsonBody, "Invalid JSON body: "@ + detail),
        JsonRejectionKind::MissingContentType => (
            ErrorCode::UnsupportedMediaType,
            "Unsupported media type: expected 'Content-Type: application/json'"@,
        ),
        JsonRejectionKind::TooLarge => (
            ErrorCode::PayloadTooLarge,
            "Request body exceeds the "@ + nat_text((MAX_UPLOAD_BODY_BYTES / 1048576u64) as nat)
                + " MiB limit"@,
        ),
        JsonRejectionKind::Other => (ErrorCode::Internal, "Failed to read request body"@),
    }
}

/// Translate a JSON extraction failure into an API error.
pub fn json_rejection_error(kind: JsonRejectionKind, detail: &str) -> (r: ServiceError)
    ensures
        (r.code, r.message@) == json_rejection_of(kind, detail@),
{
    match kind {
        JsonRejectionKind::Data | JsonRejectionKind::Syntax => {
            let mut m = String::from_str("Invalid JSON body: ");
            m.append(detail);
            ServiceError { code: ErrorCode::InvalidJsonBody, message: m }
        },
        JsonRejectionKind::MissingContentType => ServiceError {
            code: ErrorCode::UnsupportedMediaType,
            message: String::from_str(
                "Unsupported media type: expected 'Content-Type: application/json'",
            ),
        },
        JsonRejectionKind::TooLarge => {
            let mut m = String::from_str("Request body exceeds the ");
            push_nat_text(&mut m, MAX_UPLOAD_BODY_BYTES / 1048576);
            m.append(" MiB limit");
            ServiceError { code: ErrorCode::PayloadTooLarge, message: m }
        },
        JsonRejectionKind::Other => ServiceError {
            code: ErrorCode::Internal,
            message: String::from_str("Failed to read request body"),
        },
    }
}

/// A query string or path that does not parse is invalid input, with the
/// parser's own text.
pub fn extraction_error(detail: String) -> (r: ServiceError)
    ensures
        r.code == ErrorCode::InvalidInput,
        r.message == detail,
{
    ServiceError { code: ErrorCode::InvalidInput, message: detail }
}

/// The status an error response goes out with: its code's.
pub fn error_status(error: &ServiceError) -> (s: u16)
    ensures
        s == status_of(error.code),
{
    error.code.http_status()
}

/// 201 says a resource now exists; a preview (dry run) created nothing.
pub fn creation_status(applied: bool) -> (s: u16)
    ensures
        s == (if applied {
            201u16
        } else {
            200u16
        }),
{
    if applied {
        201
    } else {
        200
    }
}

/// A rejected import file is a failed request, so a generic client does not
/// read it as an import; the body stays the same so the errors survive.
pub fn import_status(rejected: bool) -> (s: u16)
    ensures
        s == (if rejected {
            422u16
        } else {
            200u16
        }),
{
    if rejected {
        422
    } else {
        200
    }
}

/// The health probe's answer: orchestrators get a prompt 503 when the
/// database does not answer.
pub fn health_answer(database_ok: bool) -> (r: (u16, &'static str))
    ensures
        database_ok ==> r.0 == 200 && r.1@ == "healthy"@,
        !database_ok ==> r.0 == 503 && r.1@ == "unhealthy"@,
{
    if database_ok {
        (200, "healthy")
    } else {
        (503, "unhealthy")
    }
}

/// A client that sends `Bearer <token>` has exactly that token read back.
pub proof fn lemma_bearer_round_trip(header: String, token: Seq<char>)
    requires
        header@ == "Bearer "@ + token,
    ensures
        bearer_of(AuthHeader::Text(header)) == Ok::<Seq<char>, Seq<char>>(token),
{
    reveal_strlit("Bearer ");
    assert(header@.take(7) =~= "Bearer "@);
    assert(header@.skip(7) =~= token);
}

/// The route label a request is counted under: its matched route pattern,
/// or `unmatched`, so unknown paths share one series.
pub fn route_label(matched: Option<String>) -> (r: String)
    ensures
        match matched {
            Some(p) => r == p,
            None => r@ == "unmatched"@,
        },
{
    match matched {
        Some(p) => p,
        None => String::from_str("unmatched"),
    }
}

// ---------------------------------------------------------------------------
// Routing
// ---------------------------------------------------------------------------

/// The switches of the `api` section that shape what the server answers.
#[derive(Clone, Copy, Debug, PartialEq, Eq, Structural)]
pub struct ApiSwitches {
    pub require_authentication: bool,
    pub external_dns_enabled: bool,
    pub metrics_enabled: bool,
    pub openapi_enabled: bool,
}

/// The endpoints, grouped by how they are served.
#[derive(Clone, Copy, Debug, PartialEq, Eq, Structural)]
pub enum Endpoint {
    /// `/` and the zone, record, NOTIFY, TSIG key, token policy and DNSSEC
    /// groups.
    Data,
    /// The external-dns webhook group.
    ExternalDns,
    /// `/health`.
    Health,
    /// `/metrics`.
    Metrics,
    /// `/openapi.json` and `/openapi.yaml`.
    OpenApi,
    /// Anything else.
    Unknown,
}

/// How a request to an endpoint is served.
#[derive(Clone, Copy, Debug, PartialEq, Eq, Structural)]
pub enum Access {
    /// The endpoint is not registered: 404.
    NotFound,
    /// Served to anyone, outside the credential check.
    Open,
    /// Served after the bearer token validates, as the token's caller.
    Token,
    /// Served with full access, authentication being off.
    Global,
}

/// How the server serves an endpoint: the data groups (and external-dns when
/// enabled) behind the credential check when authentication is required,
/// with full access otherwise; the health probe always open; metrics and the
/// OpenAPI document open when enabled; everything else 404.
pub open spec fn access_of(sw: ApiSwitches, e: Endpoint) -> Access {
    let guarded = if sw.require_authentication {
        Access::Token
    } else {
        Access::Global
    };
    match e {
        Endpoint::Data => guarded,
        Endpoint::ExternalDns => if sw.external_dns_enabled {
            guarded
        } else {
            Access::NotFound
        },
        Endpoint::Health => Access::Open,
        Endpoint::Metrics => if sw.metrics_enabled {
            Access::Open
        } else {
            Access::NotFound
        },
        Endpoint::OpenApi => if sw.openapi_enabled {
            Access::Open
        } else {
            Access::NotFound
        },
        Endpoint::Unknown => Access::NotFound,
    }
}

/// How the server serves an endpoint.
pub fn endpoint_access(sw: ApiSwitches, e: Endpoint) -> (r: Access)
    ensures
        r == access_of(sw, e),
{
    let guarded = if sw.require_authentication {
        Access::Token
    } else {
        Access::Global
    };
    match e {
        Endpoint::Data => guarded,
        Endpoint::ExternalDns => {
            if sw.external_dns_enabled {
                guarded
            } else {
                Access::NotFound
            }
        },
        Endpoint::Health => Access::Open,
        Endpoint::Metrics => {
            if sw.metrics_enabled {
                Access::Open
            } else {
                Access::NotFound
            }
        },
        Endpoint::OpenApi => {
            if sw.openapi_enabled {
                Access::Open
            } else {
                Access::NotFound
            }
        },
        Endpoint::Unknown => Access::NotFound,
    }
}

/// With authentication required, nothing that reads or changes zone data is
/// served without a valid token: only the health probe, the metrics counts
/// and the API's own description are open.
pub proof fn lemma_required_authentication_guards_data(sw: ApiSwitches, e: Endpoint)
    requires
        sw.require_authentication,
    ensures
        access_of(sw, e) is Global ==> false,
        access_of(sw, e) is Open ==> (e is Health || e is Metrics || e is OpenApi),
{
}

/// Probes always get an answer without credentials, whatever the switches.
pub proof fn lemma_health_is_always_open(sw: ApiSwitches)
    ensures
        access_of(sw, Endpoint::Health) == Access::Open,
{
}

} // verus!
