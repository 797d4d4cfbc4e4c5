use radishflow_studio::control_plane_client::{
    accept_header, transport_error_from_flags, validate_transport_options,
    RadishFlowControlPlaneHttpTransportErrorKind, ReqwestRadishFlowControlPlaneHttpTransportOptions,
};
use radishflow_studio::time::time_from_secs;
use radishflow_studio::timestamp::{civil_from_instant, format_timestamp, parse_timestamp};

fn timestamp(seconds: i64) -> i128 {
    time_from_secs(seconds)
}

#[test]
fn timestamps_are_written_in_utc_seconds() {
    assert_eq!(format_timestamp(timestamp(900)).as_deref(), Some("1970-01-01T00:15:00Z"));
    assert_eq!(format_timestamp(timestamp(0)).as_deref(), Some("1970-01-01T00:00:00Z"));
    assert_eq!(
        format_timestamp(timestamp(1_709_164_800)).as_deref(),
        Some("2024-02-29T00:00:00Z")
    );
    assert_eq!(format_timestamp(timestamp(-1)).as_deref(), Some("1969-12-31T23:59:59Z"));
    assert_eq!(
        format_timestamp(timestamp(0) + 5).as_deref(),
        Some("1970-01-01T00:00:00.000000005Z")
    );
    assert_eq!(
        format_timestamp(timestamp(253_402_300_799)).as_deref(),
        Some("9999-12-31T23:59:59Z")
    );
    assert_eq!(format_timestamp(timestamp(253_402_300_800)), None);
    assert_eq!(
        format_timestamp(timestamp(-62_167_219_200)).as_deref(),
        Some("0000-01-01T00:00:00Z")
    );
    assert_eq!(format_timestamp(timestamp(-62_167_219_201)), None);
}

#[test]
fn timestamps_parse_back() {
    assert_eq!(parse_timestamp("1970-01-01T00:01:40Z"), Some(timestamp(100)));
    assert_eq!(parse_timestamp("1970-01-01T00:08:20Z"), Some(timestamp(500)));
    assert_eq!(parse_timestamp("2024-02-29T00:00:00Z"), Some(timestamp(1_709_164_800)));
    assert_eq!(parse_timestamp("1970-01-01T00:00:00.5Z"), Some(500_000_000));
    assert_eq!(parse_timestamp("1970-01-01T00:00:00.000000005Z"), Some(5));
    for t in [-62_167_219_200i64, -1, 0, 86_399, 951_782_400, 4_102_444_800, 253_402_300_799] {
        let text = format_timestamp(timestamp(t)).expect("in range");
        assert_eq!(parse_timestamp(&text), Some(timestamp(t)));
    }
}

#[test]
fn malformed_timestamps_are_refused() {
    assert_eq!(parse_timestamp("2023-02-29T00:00:00Z"), None);
    assert_eq!(parse_timestamp("2024-13-01T00:00:00Z"), None);
    assert_eq!(parse_timestamp("2024-01-01T24:00:00Z"), None);
    assert_eq!(parse_timestamp("2024-01-01 00:00:00Z"), None);
    assert_eq!(parse_timestamp("2024-01-01T00:00:00"), None);
    assert_eq!(parse_timestamp("2024-01-01T00:00:00.Z"), None);
    assert_eq!(parse_timestamp("2024-01-01T00:00:00.0000000001Z"), None);
    assert_eq!(parse_timestamp("2024-01-01T00:00:00+00:00"), None);
    assert_eq!(parse_timestamp(""), None);
}

#[test]
fn civil_fields_of_an_instant() {
    let c = civil_from_instant(timestamp(1_709_251_199) + 7);
    assert_eq!((c.year, c.month, c.day), (2024, 2, 29));
    assert_eq!((c.hour, c.minute, c.second, c.nanosecond), (23, 59, 59, 7));
}

#[test]
fn transport_settings_and_failures() {
    let mut options = ReqwestRadishFlowControlPlaneHttpTransportOptions::for_version("1.2.3");
    assert!(validate_transport_options(&options).is_ok());
    options.user_agent = "  ".to_string();
    assert_eq!(
        validate_transport_options(&options).expect_err("agent").message,
        "reqwest control plane transport user_agent must not be empty"
    );
    options.request_timeout = 0;
    assert_eq!(
        validate_transport_options(&options).expect_err("timeout").message,
        "reqwest control plane transport timeout must be greater than zero"
    );

    assert_eq!(
        transport_error_from_flags(true, true, false, "x".to_string()).kind,
        RadishFlowControlPlaneHttpTransportErrorKind::ConnectionUnavailable
    );
    assert_eq!(
        transport_error_from_flags(false, true, true, "x".to_string()).kind,
        RadishFlowControlPlaneHttpTransportErrorKind::Timeout
    );
    assert_eq!(
        transport_error_from_flags(false, false, true, "x".to_string()).kind,
        RadishFlowControlPlaneHttpTransportErrorKind::OtherTransient
    );
    assert_eq!(
        transport_error_from_flags(false, false, false, "x".to_string()).kind,
        RadishFlowControlPlaneHttpTransportErrorKind::OtherPermanent
    );

    assert_eq!(accept_header(&vec![]), "");
    assert_eq!(accept_header(&vec!["application/json".to_string()]), "application/json");
    assert_eq!(
        accept_header(&vec!["application/json".to_string(), "text/plain".to_string()]),
        "application/json, text/plain"
    );
}
