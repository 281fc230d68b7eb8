use bindizr::api::route_label;
use bindizr::api::{endpoint_access, Access, ApiSwitches, Endpoint};
use bindizr::api::{missing_caller, missing_token};
use bindizr::api::{
    bearer_token, creation_status, error_status, extraction_error, health_answer, import_status,
    json_rejection_error, rejected_token_message, AuthHeader, JsonRejectionKind, MAX_UPLOAD_BODY_BYTES,
};
use bindizr::cli_error::ErrorCode;

#[test]
fn bearer_tokens_are_read_from_the_header() {
    assert_eq!(bearer_token(AuthHeader::Text("Bearer abc123".to_string())), Ok("abc123".to_string()));
    assert_eq!(bearer_token(AuthHeader::Text("Bearer ".to_string())), Ok(String::new()));
    assert_eq!(bearer_token(AuthHeader::Missing), Err("No authorization header".to_string()));
    assert_eq!(bearer_token(AuthHeader::NotText), Err("Invalid authorization header".to_string()));
    assert_eq!(
        bearer_token(AuthHeader::Text("Basic dXNlcg==".to_string())),
        Err("Invalid authentication scheme".to_string())
    );
    assert_eq!(
        bearer_token(AuthHeader::Text("bearer abc".to_string())),
        Err("Invalid authentication scheme".to_string())
    );
    assert_eq!(rejected_token_message(), "Invalid or expired token");
}

#[test]
fn json_rejections_map_to_codes() {
    let e = json_rejection_error(JsonRejectionKind::Data, "missing field `name`");
    assert_eq!((e.code, e.message.as_str()), (ErrorCode::InvalidJsonBody, "Invalid JSON body: missing field `name`"));
    let e = json_rejection_error(JsonRejectionKind::Syntax, "EOF");
    assert_eq!((e.code, e.message.as_str()), (ErrorCode::InvalidJsonBody, "Invalid JSON body: EOF"));
    let e = json_rejection_error(JsonRejectionKind::MissingContentType, "");
    assert_eq!(
        (e.code, e.message.as_str()),
        (ErrorCode::UnsupportedMediaType, "Unsupported media type: expected 'Content-Type: application/json'")
    );
    let e = json_rejection_error(JsonRejectionKind::TooLarge, "");
    assert_eq!((e.code, e.message.as_str()), (ErrorCode::PayloadTooLarge, "Request body exceeds the 32 MiB limit"));
    let e = json_rejection_error(JsonRejectionKind::Other, "x");
    assert_eq!((e.code, e.message.as_str()), (ErrorCode::Internal, "Failed to read request body"));
    assert_eq!(MAX_UPLOAD_BODY_BYTES, 32 * 1024 * 1024);
}

#[test]
fn statuses_of_answers() {
    let e = extraction_error("unknown field `record_type`".to_string());
    assert_eq!(e.code, ErrorCode::InvalidInput);
    assert_eq!(error_status(&e), 400);
    let e = json_rejection_error(JsonRejectionKind::TooLarge, "");
    assert_eq!(error_status(&e), 413);
    assert_eq!(creation_status(true), 201);
    assert_eq!(creation_status(false), 200);
    assert_eq!(import_status(true), 422);
    assert_eq!(import_status(false), 200);
    assert_eq!(health_answer(true), (200, "healthy"));
    assert_eq!(health_answer(false), (503, "unhealthy"));
}

#[test]
fn a_bearer_header_gives_back_its_token() {
    for token in ["abc", "", "with spaces and Bearer inside"] {
        assert_eq!(bearer_token(AuthHeader::Text(format!("Bearer {}", token))), Ok(token.to_string()));
    }
}

#[test]
fn requests_without_identity_are_unauthorized() {
    let e = missing_caller();
    assert_eq!((e.code, e.message.as_str()), (ErrorCode::Unauthorized, "Request has no caller identity"));
    assert_eq!(error_status(&e), 401);
    let e = missing_token();
    assert_eq!((e.code, e.message.as_str()), (ErrorCode::Unauthorized, "Request carries no API token"));
}

fn switches(auth: bool, external: bool, metrics: bool, openapi: bool) -> ApiSwitches {
    ApiSwitches {
        require_authentication: auth,
        external_dns_enabled: external,
        metrics_enabled: metrics,
        openapi_enabled: openapi,
    }
}

#[test]
fn data_endpoints_sit_behind_the_credential_check_when_required() {
    let on = switches(true, true, true, true);
    assert_eq!(endpoint_access(on, Endpoint::Data), Access::Token);
    assert_eq!(endpoint_access(on, Endpoint::ExternalDns), Access::Token);
    assert_eq!(endpoint_access(on, Endpoint::Health), Access::Open);
    assert_eq!(endpoint_access(on, Endpoint::Metrics), Access::Open);
    assert_eq!(endpoint_access(on, Endpoint::OpenApi), Access::Open);
    assert_eq!(endpoint_access(on, Endpoint::Unknown), Access::NotFound);
}

#[test]
fn disabled_groups_are_not_registered() {
    let off = switches(false, false, false, false);
    assert_eq!(endpoint_access(off, Endpoint::Data), Access::Global);
    assert_eq!(endpoint_access(off, Endpoint::ExternalDns), Access::NotFound);
    assert_eq!(endpoint_access(off, Endpoint::Health), Access::Open);
    assert_eq!(endpoint_access(off, Endpoint::Metrics), Access::NotFound);
    assert_eq!(endpoint_access(off, Endpoint::OpenApi), Access::NotFound);
    assert_eq!(endpoint_access(switches(false, true, false, false), Endpoint::ExternalDns), Access::Global);
}

#[test]
fn unknown_paths_share_one_route_label() {
    assert_eq!(route_label(Some("/zones/{name}".to_string())), "/zones/{name}");
    assert_eq!(route_label(None), "unmatched");
}
