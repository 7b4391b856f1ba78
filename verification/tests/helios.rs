use orbitport_helios_challenge::mock::{list_windows, MockBody, MockWindow};
use orbitport_helios_challenge::plugins::helios::{
    check_booking_status, check_download_status, check_windows_status, contact_from_body,
    contact_status_from_state, pass_from_window, passes_from_body, payload_from_body, BookingResponse,
    DownloadResponse, HeliosPlugin, HeliosWindow, HttpMethod, WindowsResponse,
};
use orbitport_helios_challenge::provider::ProviderError;
use orbitport_helios_challenge::types::{ContactStatus, PassQuery, Timestamp};

const MOCK_URL: &str = "http://127.0.0.1:8081";
const TOKEN: &str = "helios-dev-token";

fn plugin() -> HeliosPlugin {
    HeliosPlugin::new(MOCK_URL, TOKEN)
}

fn ts(text: &str) -> Timestamp {
    let t = chrono::DateTime::parse_from_rfc3339(text).unwrap().with_timezone(&chrono::Utc);
    Timestamp::from_unix(t.timestamp(), t.timestamp_subsec_nanos()).unwrap()
}

fn query() -> PassQuery {
    PassQuery {
        satellite_id: "SAT-42".to_string(),
        ground_station: None,
        from: ts("2026-08-01T00:00:00Z"),
        to: ts("2026-09-01T00:00:00Z"),
    }
}

/// What the plugin decodes from one window of the mock's listing.
fn decoded(w: &MockWindow) -> HeliosWindow {
    HeliosWindow {
        reference: w.reference.clone(),
        spacecraft: w.spacecraft.clone(),
        site: w.site.clone(),
        window_start: ts(&w.window_start),
        window_end: ts(&w.window_end),
        peak_elevation_deg: w.peak_elevation_deg.clone(),
    }
}

fn mock_listing() -> WindowsResponse {
    match list_windows(Some("Bearer helios-dev-token")).body {
        MockBody::Windows(ws) => WindowsResponse { windows: ws.iter().map(decoded).collect() },
        other => panic!("unexpected body {other:?}"),
    }
}

#[test]
fn list_passes_maps_the_window() {
    let passes = passes_from_body(Ok(mock_listing())).unwrap();
    assert!(!passes.is_empty(), "mock advertises several windows");
    // Helios `ref` becomes the canonical `Pass::id`.
    assert!(passes.iter().any(|p| p.id == "w_1a2b"), "the known window w_1a2b should be present");
}

#[test]
fn passes_follow_the_windows_field_by_field() {
    let passes = passes_from_body(Ok(mock_listing())).unwrap();
    assert_eq!(passes.len(), 4);
    let ids: Vec<&str> = passes.iter().map(|p| p.id.as_str()).collect();
    assert_eq!(ids, vec!["w_1a2b", "w_2c3d", "w_3e4f", "w_5a6b"]);
    let p = &passes[2];
    assert_eq!(p.satellite_id, "SAT-42");
    assert_eq!(p.ground_station, "troll-02");
    assert_eq!(p.aos, ts("2026-08-13T03:21:00Z"));
    assert_eq!(p.los, ts("2026-08-13T03:29:05Z"));
    assert_eq!(p.max_elevation_deg, "78.9");
    assert_eq!(passes[3].satellite_id, "SAT-7");
}

#[test]
fn pass_from_window_renames_the_fields() {
    let w = HeliosWindow {
        reference: "w_x".to_string(),
        spacecraft: "SAT-1".to_string(),
        site: "site-9".to_string(),
        window_start: ts("2026-01-01T00:00:00Z"),
        window_end: ts("2026-01-01T00:05:00Z"),
        peak_elevation_deg: "45".to_string(),
    };
    let p = pass_from_window(w);
    assert_eq!(p.id, "w_x");
    assert_eq!(p.satellite_id, "SAT-1");
    assert_eq!(p.ground_station, "site-9");
    assert_eq!(p.aos.secs(), 1767225600);
    assert_eq!(p.los.secs(), 1767225900);
    assert_eq!(p.max_elevation_deg, "45");
}

#[test]
fn empty_listing_gives_no_passes() {
    assert!(passes_from_body(Ok(WindowsResponse { windows: vec![] })).unwrap().is_empty());
}

#[test]
fn undecodable_windows_body_is_a_decode_error() {
    match passes_from_body(Err("missing field `windows`".to_string())) {
        Err(ProviderError::Decode(m)) => assert_eq!(m, "missing field `windows`"),
        other => panic!("unexpected {other:?}"),
    }
}

#[test]
fn new_and_name() {
    let p = plugin();
    assert_eq!(p.name(), "helios");
    assert_eq!(p.authorization(), "Bearer helios-dev-token");
}

#[test]
fn from_env_defaults_to_the_local_mock() {
    let p = HeliosPlugin::from_env(None, None);
    let r = p.fetch_payload_request("bk_done");
    assert_eq!(r.url, "http://127.0.0.1:8081/v1/bookings/bk_done/download");
    assert_eq!(r.authorization, "Bearer helios-dev-token");
}

#[test]
fn from_env_takes_the_settings() {
    let p = HeliosPlugin::from_env(Some("https://helios.example".to_string()), Some("s3cret".to_string()));
    let r = p.schedule_contact_request("w_1a2b");
    assert_eq!(r.url, "https://helios.example/v1/bookings");
    assert_eq!(r.authorization, "Bearer s3cret");
}

#[test]
fn list_passes_request_asks_for_the_windows() {
    let r = plugin().list_passes_request(&query());
    assert_eq!(r.method, HttpMethod::Get);
    assert_eq!(r.url, "http://127.0.0.1:8081/v1/windows");
    let q: Vec<(&str, &str)> = r.query.iter().map(|p| (p.name.as_str(), p.value.as_str())).collect();
    assert_eq!(
        q,
        vec![
            ("sat", "SAT-42"),
            ("start", "2026-08-01T00:00:00+00:00"),
            ("end", "2026-09-01T00:00:00+00:00"),
        ]
    );
    assert_eq!(r.authorization, "Bearer helios-dev-token");
    assert!(r.json_body.is_none());
}

#[test]
fn schedule_contact_request_books_the_window() {
    let r = plugin().schedule_contact_request("w_2c3d");
    assert_eq!(r.method, HttpMethod::Post);
    assert_eq!(r.url, "http://127.0.0.1:8081/v1/bookings");
    assert!(r.query.is_empty());
    assert_eq!(r.json_body.unwrap().window_ref, "w_2c3d");
}

#[test]
fn fetch_payload_request_downloads_the_booking() {
    let r = plugin().fetch_payload_request("bk_77");
    assert_eq!(r.method, HttpMethod::Get);
    assert_eq!(r.url, "http://127.0.0.1:8081/v1/bookings/bk_77/download");
    assert!(r.query.is_empty());
    assert!(r.json_body.is_none());
}

#[test]
fn ok_status_passes() {
    assert!(check_windows_status(200).is_ok());
    assert!(check_booking_status(200, "w_1a2b").is_ok());
    assert!(check_download_status(200, "bk_done").is_ok());
}

#[test]
fn status_401_is_auth() {
    assert!(matches!(check_windows_status(401), Err(ProviderError::Auth)));
    assert!(matches!(check_booking_status(401, "w_1a2b"), Err(ProviderError::Auth)));
    assert!(matches!(check_download_status(401, "bk_done"), Err(ProviderError::Auth)));
}

#[test]
fn status_404_is_not_found() {
    assert!(matches!(check_windows_status(404), Err(ProviderError::NotFound(m)) if m == "windows not found"));
    assert!(matches!(check_booking_status(404, "w_nope"), Err(ProviderError::NotFound(m)) if m == "w_nope"));
    assert!(matches!(check_download_status(404, "bk_1"), Err(ProviderError::NotFound(m)) if m == "bk_1"));
}

#[test]
fn status_503_is_unavailable() {
    assert!(matches!(check_windows_status(503), Err(ProviderError::Unavailable(m)) if m == "helios unavailable"));
    assert!(matches!(check_booking_status(503, "w_1a2b"), Err(ProviderError::Unavailable(m)) if m == "helios unavailable"));
    assert!(matches!(check_download_status(503, "bk_77"), Err(ProviderError::Unavailable(m)) if m == "payload not ready"));
}

#[test]
fn other_status_is_unavailable_and_named() {
    assert!(matches!(check_windows_status(500),
        Err(ProviderError::Unavailable(m)) if m == "unexpected status 500 Internal Server Error"));
    assert!(matches!(check_windows_status(418),
        Err(ProviderError::Unavailable(m)) if m == "unexpected status 418 I'm a teapot"));
    assert!(matches!(check_download_status(201, "bk_1"),
        Err(ProviderError::Unavailable(m)) if m == "unexpected status 201 Created"));
    assert!(matches!(check_booking_status(599, "w"),
        Err(ProviderError::Unavailable(m)) if m == "unexpected status 599 <unknown status code>"));
}

#[test]
fn helios_states_map_onto_contact_statuses() {
    assert_eq!(contact_status_from_state("RESERVED"), Some(ContactStatus::Scheduled));
    assert_eq!(contact_status_from_state("ACTIVE"), Some(ContactStatus::InProgress));
    assert_eq!(contact_status_from_state("DONE"), Some(ContactStatus::Completed));
    assert_eq!(contact_status_from_state("ERROR"), Some(ContactStatus::Failed));
    assert_eq!(contact_status_from_state("reserved"), None);
    assert_eq!(contact_status_from_state(""), None);
}

#[test]
fn booking_body_becomes_a_contact() {
    let c = contact_from_body(Ok(BookingResponse {
        booking_id: "bk_77".to_string(),
        window_ref: "w_1a2b".to_string(),
        state: "RESERVED".to_string(),
    }))
    .unwrap();
    assert_eq!(c.id, "bk_77");
    assert_eq!(c.pass_id, "w_1a2b");
    assert_eq!(c.status, ContactStatus::Scheduled);
}

#[test]
fn unknown_booking_state_is_a_decode_error() {
    let r = contact_from_body(Ok(BookingResponse {
        booking_id: "bk_1".to_string(),
        window_ref: "w_1a2b".to_string(),
        state: "PENDING".to_string(),
    }));
    assert!(matches!(r, Err(ProviderError::Decode(m)) if m == "unknown booking state: PENDING"));
}

#[test]
fn undecodable_booking_body_is_a_decode_error() {
    assert!(matches!(contact_from_body(Err("eof".to_string())), Err(ProviderError::Decode(m)) if m == "eof"));
}

#[test]
fn download_body_becomes_a_payload() {
    let p = payload_from_body(
        "bk_done",
        Ok(DownloadResponse { mime: "application/octet-stream".to_string(), b64: "aGVsbG8=".to_string() }),
    )
    .unwrap();
    assert_eq!(p.contact_id, "bk_done");
    assert_eq!(p.content_type, "application/octet-stream");
    assert_eq!(p.data, b"hello".to_vec());
}

#[test]
fn empty_b64_is_an_empty_payload() {
    let p = payload_from_body("bk_1", Ok(DownloadResponse { mime: "text/plain".to_string(), b64: String::new() }))
        .unwrap();
    assert!(p.data.is_empty());
    assert_eq!(p.content_type, "text/plain");
}

#[test]
fn bad_base64_is_a_decode_error() {
    for bad in ["aGVsbG8", "!!!!", "aGVsbA="] {
        let r = payload_from_body("bk_1", Ok(DownloadResponse { mime: "x".to_string(), b64: bad.to_string() }));
        assert!(matches!(r, Err(ProviderError::Decode(m)) if m == "payload is not valid base64"), "{bad}");
    }
}

#[test]
fn undecodable_download_body_is_a_decode_error() {
    assert!(matches!(payload_from_body("bk_1", Err("bad json".to_string())),
        Err(ProviderError::Decode(m)) if m == "bad json"));
}

#[test]
fn timestamps_follow_chrono() {
    let t = Timestamp::from_unix(1786543380, 0).unwrap();
    assert_eq!(t.to_rfc3339(), "2026-08-12T14:03:00+00:00");
    assert_eq!(t, ts("2026-08-12T14:03:00Z"));
    let frac = Timestamp::from_unix(0, 500_000_000).unwrap();
    assert_eq!(frac.to_rfc3339(), "1970-01-01T00:00:00.500+00:00");
    assert_eq!(frac.nanos(), 500_000_000);
    assert!(Timestamp::from_unix(0, 2_000_000_000).is_none());
    assert!(Timestamp::from_unix(i64::MAX, 0).is_none());
    assert!(Timestamp::from_unix(59, 1_500_000_000).is_some());
    assert!(Timestamp::from_unix(58, 1_500_000_000).is_none());
}

#[test]
fn timestamps_cover_chronos_range_exactly() {
    let min = -8_334_601_228_800i64;
    let max = 8_210_266_876_799i64;
    assert!(Timestamp::from_unix(min, 0).is_some());
    assert!(Timestamp::from_unix(min - 1, 999_999_999).is_none());
    assert!(Timestamp::from_unix(max, 0).is_some());
    assert!(Timestamp::from_unix(max, 1_999_999_999).is_some());
    assert!(Timestamp::from_unix(max + 1, 0).is_none());
    assert!(Timestamp::from_unix(min, 999_999_999).is_some());
    assert!(Timestamp::from_unix(-1, 1_999_999_999).is_some());
    assert!(Timestamp::from_unix(-2, 1_000_000_000).is_none());
    assert_eq!(Timestamp::from_unix(max, 0).unwrap().to_rfc3339(), "+262142-12-31T23:59:59+00:00");
    assert_eq!(Timestamp::from_unix(min, 0).unwrap().to_rfc3339(), "-262143-01-01T00:00:00+00:00");
}
