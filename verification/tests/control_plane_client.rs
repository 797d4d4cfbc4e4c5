use std::cell::{Cell, RefCell};

use radishflow_studio::control_plane_client::{
    check_json_response, content_type_is_json, json_body_from_transport, normalize_base_url,
    percent_encode_path_segment, HttpRadishFlowControlPlaneClient,
    RadishFlowControlPlaneClientErrorKind, RadishFlowControlPlaneEndpoints,
    RadishFlowControlPlaneHttpMethod, RadishFlowControlPlaneHttpRequest,
    RadishFlowControlPlaneHttpResponse, RadishFlowControlPlaneHttpTransport,
    RadishFlowControlPlaneHttpTransportError,
};
use radishflow_studio::time::time_from_secs;

fn timestamp(seconds: i64) -> i128 {
    time_from_secs(seconds)
}

fn sample_endpoints() -> RadishFlowControlPlaneEndpoints {
    RadishFlowControlPlaneEndpoints::new("https://control.radish.local")
        .expect("expected control plane endpoints")
}

fn sample_entitlement_json() -> String {
    r#"{
  "schemaVersion": 1,
  "subjectId": "user-123",
  "tenantId": "tenant-1",
  "issuedAt": "1970-01-01T00:01:40Z",
  "expiresAt": "1970-01-01T00:08:20Z",
  "offlineLeaseExpiresAt": "1970-01-01T00:15:00Z",
  "features": ["desktop-login", "local-thermo-packages"],
  "allowedPackageIds": ["binary-hydrocarbon-lite-v1"]
}"#
    .to_string()
}

fn sample_manifest_list_json() -> String {
    r#"{
  "schemaVersion": 1,
  "generatedAt": "1970-01-01T00:03:20Z",
  "packages": [
    {
      "schemaVersion": 1,
      "packageId": "binary-hydrocarbon-lite-v1",
      "version": "2026.03.1",
      "classification": "derived",
      "source": "download",
      "hash": "sha256:pkg-1",
      "sizeBytes": 1024,
      "componentIds": ["methane", "ethane"],
      "leaseRequired": true,
      "expiresAt": "1970-01-01T00:15:00Z"
    }
  ]
}"#
    .to_string()
}

struct ScriptedTransport {
    responses: RefCell<
        Vec<Result<RadishFlowControlPlaneHttpResponse, RadishFlowControlPlaneHttpTransportError>>,
    >,
    call_count: Cell<u32>,
    requests: RefCell<Vec<RadishFlowControlPlaneHttpRequest>>,
}

impl ScriptedTransport {
    fn new(
        responses: Vec<
            Result<RadishFlowControlPlaneHttpResponse, RadishFlowControlPlaneHttpTransportError>,
        >,
    ) -> Self {
        Self {
            responses: RefCell::new(responses),
            call_count: Cell::new(0),
            requests: RefCell::new(Vec::new()),
        }
    }

    fn call_count(&self) -> u32 {
        self.call_count.get()
    }

    fn requests(&self) -> Vec<RadishFlowControlPlaneHttpRequest> {
        self.requests.borrow().clone()
    }
}

impl<'a> RadishFlowControlPlaneHttpTransport for &'a ScriptedTransport {
    fn send(
        &self,
        request: &RadishFlowControlPlaneHttpRequest,
    ) -> Result<RadishFlowControlPlaneHttpResponse, RadishFlowControlPlaneHttpTransportError> {
        self.call_count.set(self.call_count.get() + 1);
        self.requests.borrow_mut().push(request.clone());
        self.responses.borrow_mut().remove(0)
    }
}

fn json_field(body: &str, field: &str) -> serde_json::Value {
    let value: serde_json::Value = serde_json::from_str(body).expect("expected JSON body");
    value.get(field).cloned().expect("expected field")
}

#[test]
fn entitlement_and_manifest_requests_use_bearer_token_and_json_accept() {
    let transport = ScriptedTransport::new(vec![
        Ok(RadishFlowControlPlaneHttpResponse::new(
            200,
            sample_entitlement_json(),
            timestamp(200),
        )),
        Ok(RadishFlowControlPlaneHttpResponse::new(
            200,
            sample_manifest_list_json(),
            timestamp(210),
        )),
    ]);
    let client = HttpRadishFlowControlPlaneClient::new(sample_endpoints(), &transport);

    let entitlement = client
        .fetch_entitlement_snapshot_json("access-token")
        .expect("expected entitlement fetch");
    let manifests = client
        .fetch_property_package_manifest_list_json("access-token")
        .expect("expected manifest fetch");

    assert_eq!(json_field(&entitlement.value, "subjectId"), "user-123");
    assert_eq!(
        json_field(&manifests.value, "packages").as_array().map(|p| p.len()),
        Some(1)
    );
    assert_eq!(entitlement.received_at, timestamp(200));
    assert_eq!(transport.call_count(), 2);
    assert_eq!(
        transport.requests()[0].url,
        "https://control.radish.local/api/radishflow/entitlements/current"
    );
    assert_eq!(transport.requests()[0].bearer_token, "access-token");
    assert_eq!(transport.requests()[0].method, RadishFlowControlPlaneHttpMethod::Get);
    assert_eq!(
        transport.requests()[1].url,
        "https://control.radish.local/api/radishflow/property-packages/manifest"
    );
    assert_eq!(
        transport.requests()[1].accept_content_types,
        vec!["application/json".to_string()]
    );
}

#[test]
fn client_maps_http_statuses_into_existing_error_kinds() {
    let cases = [
        (401, RadishFlowControlPlaneClientErrorKind::Unauthorized),
        (403, RadishFlowControlPlaneClientErrorKind::Forbidden),
        (404, RadishFlowControlPlaneClientErrorKind::NotFound),
        (408, RadishFlowControlPlaneClientErrorKind::Timeout),
        (429, RadishFlowControlPlaneClientErrorKind::RateLimited),
        (503, RadishFlowControlPlaneClientErrorKind::ServiceUnavailable),
        (302, RadishFlowControlPlaneClientErrorKind::InvalidResponse),
    ];

    for (status_code, expected_kind) in cases {
        let transport = ScriptedTransport::new(vec![Ok(RadishFlowControlPlaneHttpResponse::new(
            status_code,
            "{}".to_string(),
            timestamp(200),
        ))]);
        let client = HttpRadishFlowControlPlaneClient::new(sample_endpoints(), &transport);

        let error = client
            .fetch_entitlement_snapshot_json("access-token")
            .expect_err("expected mapped status error");

        assert_eq!(error.kind, expected_kind);
    }
}

#[test]
fn lease_request_posts_body_to_encoded_package_url() {
    let transport = ScriptedTransport::new(vec![Ok(RadishFlowControlPlaneHttpResponse::new(
        200,
        "{\"leaseId\":\"lease-1\"}".to_string(),
        timestamp(220),
    ))]);
    let client = HttpRadishFlowControlPlaneClient::new(sample_endpoints(), &transport);
    let body = "{\"version\":\"2026.03.1\"}".to_string();

    let response = client
        .request_property_package_lease_json("access-token", "pkg 1/α", body.clone())
        .expect("expected lease grant");

    assert_eq!(json_field(&response.value, "leaseId"), "lease-1");
    let request = &transport.requests()[0];
    assert_eq!(request.method, RadishFlowControlPlaneHttpMethod::Post);
    assert_eq!(
        request.url,
        "https://control.radish.local/api/radishflow/property-packages/pkg%201%2F%CE%B1/lease"
    );
    assert_eq!(request.content_type.as_deref(), Some("application/json"));
    assert_eq!(request.body.as_deref(), Some(body.as_str()));
}

#[test]
fn blank_token_and_package_id_fail_before_sending() {
    let transport = ScriptedTransport::new(vec![]);
    let client = HttpRadishFlowControlPlaneClient::new(sample_endpoints(), &transport);

    let error = client
        .fetch_entitlement_snapshot_json("  \t")
        .expect_err("expected token error");
    assert_eq!(error.kind, RadishFlowControlPlaneClientErrorKind::InvalidResponse);
    assert_eq!(error.message, "control plane access token must not be empty");

    let error = client
        .request_property_package_lease_json("token", " ", "{}".to_string())
        .expect_err("expected package id error");
    assert_eq!(error.message, "property package id must not be empty");

    let error = client
        .refresh_offline_leases_json("", "{}".to_string())
        .expect_err("expected token error");
    assert_eq!(error.kind, RadishFlowControlPlaneClientErrorKind::InvalidResponse);
    assert_eq!(transport.call_count(), 0);
}

#[test]
fn offline_refresh_posts_to_refresh_endpoint() {
    let transport = ScriptedTransport::new(vec![Ok(RadishFlowControlPlaneHttpResponse::new(
        200,
        "{\"refreshedAt\":\"1970-01-01T00:03:30Z\"}".to_string(),
        timestamp(230),
    ))]);
    let client = HttpRadishFlowControlPlaneClient::new(sample_endpoints(), &transport);

    let response = client
        .refresh_offline_leases_json("access-token", "{\"packageIds\":[]}".to_string())
        .expect("expected refresh response");

    assert_eq!(response.received_at, timestamp(230));
    assert_eq!(
        transport.requests()[0].url,
        "https://control.radish.local/api/radishflow/offline-leases/refresh"
    );
}

#[test]
fn transport_failures_keep_their_class_and_message() {
    let cases = [
        (
            RadishFlowControlPlaneHttpTransportError::timeout("slow".to_string()),
            RadishFlowControlPlaneClientErrorKind::Timeout,
        ),
        (
            RadishFlowControlPlaneHttpTransportError::connection_unavailable("down".to_string()),
            RadishFlowControlPlaneClientErrorKind::ConnectionUnavailable,
        ),
        (
            RadishFlowControlPlaneHttpTransportError::other_transient("blip".to_string()),
            RadishFlowControlPlaneClientErrorKind::OtherTransient,
        ),
        (
            RadishFlowControlPlaneHttpTransportError::other_permanent("bad".to_string()),
            RadishFlowControlPlaneClientErrorKind::OtherPermanent,
        ),
    ];
    for (error, expected) in cases {
        let message = error.message.clone();
        let result = json_body_from_transport(Err(error), "fetch");
        let mapped = result.expect_err("expected transport failure");
        assert_eq!(mapped.kind, expected);
        assert_eq!(mapped.message, message);
    }
}

#[test]
fn check_json_response_rejects_bad_content_type_and_empty_body() {
    let mut response =
        RadishFlowControlPlaneHttpResponse::new(200, "{}".to_string(), timestamp(1));
    assert!(check_json_response(&response, "op").is_ok());

    response.content_type = Some("Application/JSON; charset=utf-8".to_string());
    assert!(check_json_response(&response, "op").is_ok());

    response.content_type = Some("text/html".to_string());
    let error = check_json_response(&response, "op").expect_err("expected content-type error");
    assert_eq!(error.kind, RadishFlowControlPlaneClientErrorKind::InvalidResponse);
    assert_eq!(error.message, "op returned unsupported content-type `text/html`");

    response.content_type = None;
    response.body = " \n ".to_string();
    let error = check_json_response(&response, "op").expect_err("expected empty body error");
    assert_eq!(error.message, "op returned an empty successful body");

    let server_error =
        RadishFlowControlPlaneHttpResponse::new(504, "{}".to_string(), timestamp(1));
    let error = check_json_response(&server_error, "op").expect_err("expected timeout");
    assert_eq!(error.kind, RadishFlowControlPlaneClientErrorKind::Timeout);
    assert_eq!(error.message, "op timed out with HTTP 504");

    let unavailable =
        RadishFlowControlPlaneHttpResponse::new(500, "{}".to_string(), timestamp(1));
    let error = check_json_response(&unavailable, "op").expect_err("expected server error");
    assert_eq!(error.message, "op failed with server status 500");
}

#[test]
fn content_type_detection_is_case_insensitive() {
    assert!(content_type_is_json("application/json"));
    assert!(content_type_is_json("APPLICATION/JSON"));
    assert!(!content_type_is_json("application/problem+json"));
    assert!(!content_type_is_json("text/plain"));
    assert!(!content_type_is_json(""));
}

#[test]
fn base_url_is_trimmed_and_rejects_blank_input() {
    assert_eq!(
        normalize_base_url("  https://control.radish.local///  ").expect("expected url"),
        "https://control.radish.local"
    );
    assert!(normalize_base_url("   ").is_err());
    assert!(RadishFlowControlPlaneEndpoints::new("\t").is_err());
    assert!(RadishFlowControlPlaneEndpoints::new("  / ").is_err());
    assert_eq!(
        RadishFlowControlPlaneEndpoints::new("  https://control.radish.local//  ")
            .expect("url")
            .base_url(),
        "https://control.radish.local"
    );
    let endpoints = RadishFlowControlPlaneEndpoints::new("https://a.example/").expect("url");
    assert_eq!(endpoints.base_url(), "https://a.example");
}

#[test]
fn path_segments_are_percent_encoded() {
    assert_eq!(percent_encode_path_segment("abc-XYZ_0.9~"), "abc-XYZ_0.9~");
    assert_eq!(percent_encode_path_segment("a b/c"), "a%20b%2Fc");
    assert_eq!(percent_encode_path_segment("é"), "%C3%A9");
    assert_eq!(percent_encode_path_segment(""), "");
}

#[test]
fn request_builders_name_url_token_and_body() {
    let transport = ScriptedTransport::new(vec![]);
    let client = HttpRadishFlowControlPlaneClient::new(sample_endpoints(), &transport);

    let get = client.entitlement_snapshot_request("token-1");
    assert_eq!(get.method, RadishFlowControlPlaneHttpMethod::Get);
    assert_eq!(get.url, "https://control.radish.local/api/radishflow/entitlements/current");
    assert_eq!(get.bearer_token, "token-1");
    assert_eq!(get.content_type, None);
    assert_eq!(get.body, None);

    let manifest = client.property_package_manifest_request("token-1");
    assert_eq!(
        manifest.url,
        "https://control.radish.local/api/radishflow/property-packages/manifest"
    );

    let post = client.offline_lease_refresh_request("token-2", "{}".to_string());
    assert_eq!(post.method, RadishFlowControlPlaneHttpMethod::Post);
    assert_eq!(
        post.url,
        "https://control.radish.local/api/radishflow/offline-leases/refresh"
    );
    assert_eq!(post.body.as_deref(), Some("{}"));
    assert_eq!(post.accept_content_types, vec!["application/json".to_string()]);

    let lease = client.property_package_lease_request("token-3", "pkg-1", "{}".to_string());
    assert_eq!(
        lease.url,
        "https://control.radish.local/api/radishflow/property-packages/pkg-1/lease"
    );
    assert_eq!(transport.call_count(), 0);
}
