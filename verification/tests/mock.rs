use base64::Engine;
use orbitport_helios_challenge::mock::{
    booking_id, is_authorized, list_windows, window_exists, window_fixtures, BookingState, MockBody, MockReply,
    MockServer,
};
use orbitport_helios_challenge::plugins::helios::{
    check_booking_status, check_download_status, contact_from_body, contact_status_from_state, passes_from_body,
    payload_from_body, HeliosPlugin, HeliosWindow, WindowsResponse,
};
use orbitport_helios_challenge::types::Timestamp;
use orbitport_helios_challenge::types::ContactStatus;

const AUTH: Option<&str> = Some("Bearer helios-dev-token");

fn error_of(r: &MockReply) -> &str {
    match &r.body {
        MockBody::Error(m) => m,
        other => panic!("not an error body: {other:?}"),
    }
}

#[test]
fn only_the_dev_token_is_let_in() {
    assert!(is_authorized(Some("Bearer helios-dev-token")));
    assert!(!is_authorized(Some("Bearer wrong")));
    assert!(!is_authorized(Some("helios-dev-token")));
    assert!(!is_authorized(Some("bearer helios-dev-token")));
    assert!(!is_authorized(None));
}

#[test]
fn the_fixed_windows() {
    let ws = window_fixtures();
    assert_eq!(ws.len(), 4);
    assert_eq!(ws[0].reference, "w_1a2b");
    assert_eq!(ws[0].spacecraft, "SAT-42");
    assert_eq!(ws[0].site, "svalbard-01");
    assert_eq!(ws[0].window_start, "2026-08-12T14:03:00Z");
    assert_eq!(ws[0].window_end, "2026-08-12T14:11:30Z");
    assert_eq!(ws[0].peak_elevation_deg, "61.5");
    assert_eq!(ws[3].reference, "w_5a6b");
    assert_eq!(ws[3].spacecraft, "SAT-7");
    assert_eq!(ws[3].site, "awarua-01");
    assert_eq!(ws[3].peak_elevation_deg, "12.6");
}

#[test]
fn window_exists_for_the_fixtures_only() {
    for r in ["w_1a2b", "w_2c3d", "w_3e4f", "w_5a6b"] {
        assert!(window_exists(r), "{r}");
    }
    assert!(!window_exists("w_nope"));
    assert!(!window_exists(""));
    assert!(!window_exists("W_1A2B"));
}

#[test]
fn listing_needs_the_token() {
    let r = list_windows(None);
    assert_eq!(r.status, 401);
    assert_eq!(error_of(&r), "invalid or missing token");
    let r = list_windows(AUTH);
    assert_eq!(r.status, 200);
    match r.body {
        MockBody::Windows(ws) => assert_eq!(ws, window_fixtures()),
        other => panic!("{other:?}"),
    }
}

#[test]
fn booking_ids_are_numbered() {
    assert_eq!(booking_id(77), "bk_77");
    assert_eq!(booking_id(0), "bk_0");
    assert_eq!(booking_id(9), "bk_9");
    assert_eq!(booking_id(10), "bk_10");
    assert_eq!(booking_id(u64::MAX), "bk_18446744073709551615");
}

#[test]
fn new_bookings_are_reserved_and_numbered_from_77() {
    let mut server = MockServer::new();
    assert_eq!(server.next_booking_number(), 77);
    let r = server.create_booking(AUTH, "w_1a2b");
    assert_eq!(r.status, 200);
    match &r.body {
        MockBody::Booking(b) => {
            assert_eq!(b.booking_id, "bk_77");
            assert_eq!(b.window_ref, "w_1a2b");
            assert_eq!(b.state, "RESERVED");
        }
        other => panic!("{other:?}"),
    }
    let r = server.create_booking(AUTH, "w_1a2b");
    assert!(matches!(&r.body, MockBody::Booking(b) if b.booking_id == "bk_78"));
    assert_eq!(server.next_booking_number(), 79);
}

#[test]
fn booking_an_unknown_window_is_404() {
    let mut server = MockServer::new();
    let r = server.create_booking(AUTH, "w_nope");
    assert_eq!(r.status, 404);
    assert_eq!(error_of(&r), "unknown window_ref");
    let r = server.create_booking(AUTH, "");
    assert_eq!(r.status, 404);
    assert_eq!(server.next_booking_number(), 77);
}

#[test]
fn booking_without_the_token_is_401() {
    let mut server = MockServer::new();
    let r = server.create_booking(Some("Bearer nope"), "w_1a2b");
    assert_eq!(r.status, 401);
    assert_eq!(error_of(&r), "invalid or missing token");
    assert_eq!(server.next_booking_number(), 77);
}

#[test]
fn the_seeded_booking_serves_the_beacon() {
    let server = MockServer::new();
    let r = server.download(AUTH, "bk_done");
    assert_eq!(r.status, 200);
    match &r.body {
        MockBody::Download(d) => {
            assert_eq!(d.mime, "application/octet-stream");
            let expected = base64::engine::general_purpose::STANDARD.encode(b"ORBITPORT-HELIOS-ENTROPY-BEACON!");
            assert_eq!(d.b64, expected);
        }
        other => panic!("{other:?}"),
    }
}

#[test]
fn a_fresh_booking_is_not_ready() {
    let mut server = MockServer::new();
    server.create_booking(AUTH, "w_3e4f");
    let r = server.download(AUTH, "bk_77");
    assert_eq!(r.status, 503);
    assert_eq!(error_of(&r), "payload not ready");
}

#[test]
fn downloads_of_unknown_bookings_are_404() {
    let server = MockServer::new();
    let r = server.download(AUTH, "bk_77");
    assert_eq!(r.status, 404);
    assert_eq!(error_of(&r), "unknown booking");
}

#[test]
fn downloads_need_the_token() {
    let server = MockServer::new();
    let r = server.download(None, "bk_done");
    assert_eq!(r.status, 401);
}

#[test]
fn state_names() {
    assert_eq!(BookingState::Reserved.wire_name(), "RESERVED");
    assert_eq!(BookingState::Active.wire_name(), "ACTIVE");
    assert_eq!(BookingState::Done.wire_name(), "DONE");
    assert_eq!(BookingState::Error.wire_name(), "ERROR");
}

// ------------------------------------------------ the plugin against the mock

#[test]
fn plugin_understands_every_mock_state() {
    let expected = [
        (BookingState::Reserved, ContactStatus::Scheduled),
        (BookingState::Active, ContactStatus::InProgress),
        (BookingState::Done, ContactStatus::Completed),
        (BookingState::Error, ContactStatus::Failed),
    ];
    for (s, c) in expected {
        assert_eq!(contact_status_from_state(s.wire_name()), Some(c));
    }
}

#[test]
fn default_plugin_is_let_in_and_others_are_not() {
    let p = HeliosPlugin::from_env(None, None);
    assert!(is_authorized(Some(p.authorization().as_str())));
    let other = HeliosPlugin::new("http://127.0.0.1:8081", "helios-dev-token2");
    assert!(!is_authorized(Some(other.authorization().as_str())));
}

#[test]
fn every_listed_window_can_be_booked() {
    let mut server = MockServer::new();
    for w in window_fixtures() {
        let r = server.create_booking(AUTH, &w.reference);
        assert_eq!(r.status, 200, "{}", w.reference);
    }
}

#[test]
fn booking_through_the_plugin_gives_a_scheduled_contact() {
    let mut server = MockServer::new();
    let p = HeliosPlugin::from_env(None, None);
    let req = p.schedule_contact_request("w_2c3d");
    let window_ref = req.json_body.unwrap().window_ref;
    let r = server.create_booking(Some(req.authorization.as_str()), &window_ref);
    assert!(check_booking_status(r.status, "w_2c3d").is_ok());
    let body = match r.body {
        MockBody::Booking(b) => b,
        other => panic!("{other:?}"),
    };
    let c = contact_from_body(Ok(body)).unwrap();
    assert_eq!(c.id, "bk_77");
    assert_eq!(c.pass_id, "w_2c3d");
    assert_eq!(c.status, ContactStatus::Scheduled);
}

#[test]
fn fetching_the_seeded_booking_through_the_plugin_gives_the_beacon() {
    let server = MockServer::new();
    let p = HeliosPlugin::from_env(None, None);
    let req = p.fetch_payload_request("bk_done");
    let r = server.download(Some(req.authorization.as_str()), "bk_done");
    assert!(check_download_status(r.status, "bk_done").is_ok());
    let body = match r.body {
        MockBody::Download(d) => d,
        other => panic!("{other:?}"),
    };
    let payload = payload_from_body("bk_done", Ok(body)).unwrap();
    assert_eq!(payload.data, b"ORBITPORT-HELIOS-ENTROPY-BEACON!".to_vec());
    assert_eq!(payload.content_type, "application/octet-stream");
}

#[test]
fn fetching_a_fresh_booking_through_the_plugin_is_unavailable() {
    let mut server = MockServer::new();
    server.create_booking(AUTH, "w_1a2b");
    let r = server.download(AUTH, "bk_77");
    let e = check_download_status(r.status, "bk_77").unwrap_err();
    assert_eq!(e.message(), "provider unavailable: payload not ready");
}

#[test]
fn a_booking_stays_unready_over_later_calls() {
    let mut server = MockServer::new();
    server.create_booking(AUTH, "w_1a2b");
    for w in ["w_2c3d", "w_3e4f", "w_nope", "w_5a6b"] {
        server.create_booking(AUTH, w);
        server.create_booking(None, w);
        let _ = list_windows(AUTH);
        let _ = server.download(AUTH, "bk_done");
        let r = server.download(AUTH, "bk_77");
        assert_eq!(r.status, 503);
        assert_eq!(error_of(&r), "payload not ready");
        let e = check_download_status(r.status, "bk_77").unwrap_err();
        assert_eq!(e.message(), "provider unavailable: payload not ready");
    }
    assert_eq!(server.next_booking_number(), 81);
    assert_eq!(server.download(AUTH, "bk_done").status, 200);
}

#[test]
fn every_listed_pass_books_into_a_scheduled_contact() {
    let ts = |text: &str| {
        let t = chrono::DateTime::parse_from_rfc3339(text).unwrap();
        Timestamp::from_unix(t.timestamp(), t.timestamp_subsec_nanos()).unwrap()
    };
    let p = HeliosPlugin::from_env(None, None);
    let auth = p.authorization();
    let listing = match list_windows(Some(auth.as_str())).body {
        MockBody::Windows(ws) => ws,
        other => panic!("{other:?}"),
    };
    let windows = WindowsResponse {
        windows: listing
            .iter()
            .map(|w| HeliosWindow {
                reference: w.reference.clone(),
                spacecraft: w.spacecraft.clone(),
                site: w.site.clone(),
                window_start: ts(&w.window_start),
                window_end: ts(&w.window_end),
                peak_elevation_deg: w.peak_elevation_deg.clone(),
            })
            .collect(),
    };
    let passes = passes_from_body(Ok(windows)).unwrap();
    let mut server = MockServer::new();
    for (n, pass) in passes.iter().enumerate() {
        let r = server.create_booking(Some(auth.as_str()), &pass.id);
        assert!(check_booking_status(r.status, &pass.id).is_ok());
        let body = match r.body {
            MockBody::Booking(b) => b,
            other => panic!("{other:?}"),
        };
        let c = contact_from_body(Ok(body)).unwrap();
        assert_eq!(c.pass_id, pass.id);
        assert_eq!(c.status, ContactStatus::Scheduled);
        assert_eq!(c.id, format!("bk_{}", 77 + n));
    }
}
