//! Properties that relate the plugin, the gateway and the Helios mock service to
//! one another.

use vstd::prelude::*;
use vstd::utf8::encode_utf8;

use crate::gateway::status_for_kind;
use crate::mock::{
    accepted_authorization, authorized, beacon_text, booking_outcome, download_outcome, error_reply, fixture_fields,
    fixture_refs, listing_outcome, numbered_id, reachable, state_text, window_fields, BookingState, MockBody,
    MockReply,
};
use crate::plugins::helios::{
    bearer, contact_outcome, BookingResponse, DownloadResponse, contact_status_of, default_token, pass_of_window, passes_outcome, payload_outcome,
    status_outcome,
    WindowsResponse,
};
use crate::provider::{error_kind, ProviderError};
use crate::types::{Contact, ContactStatus, Pass, Payload};
use crate::formats::b64_standard_decode;

verus! {

/// Helios's 401, 404 and 503 reach the gateway's client as the same status, and
/// any other failing status as 503: the plugin's error mapping and the gateway's
/// status mapping agree.
pub proof fn gateway_keeps_helios_status(
    r: Result<(), ProviderError>,
    status: u16,
    not_found: Seq<char>,
    unavailable: Seq<char>,
)
    requires
        status_outcome(r, status, not_found, unavailable),
        status != 200,
    ensures
        r matches Err(e) && status_for_kind(error_kind(e)) == (if status == 401 || status == 404 || status == 503 {
            status
        } else {
            503
        }),
{
}

/// The mock service lets in a plugin's requests exactly when the plugin's token
/// is `helios-dev-token`, the token a plugin built without settings has.
pub proof fn mock_accepts_exactly_the_dev_token(token: Seq<char>)
    ensures
        authorized(Some(bearer(token))) <==> token == default_token(),
{
    reveal_strlit("Bearer ");
    reveal_strlit("helios-dev-token");
    reveal_strlit("Bearer helios-dev-token");
    let header = bearer(token);
    if token == default_token() {
        assert(header =~= accepted_authorization());
    }
    if header == accepted_authorization() {
        assert(token =~= header.subrange(7, header.len() as int));
        assert(default_token() =~= accepted_authorization().subrange(7, accepted_authorization().len() as int));
    }
}

/// Every booking state the mock service can report is one the plugin
/// understands, and each maps onto its own canonical status.
pub proof fn plugin_understands_every_mock_state(s: BookingState)
    ensures
        contact_status_of(state_text(s)) == Some(
            match s {
                BookingState::Reserved => ContactStatus::Scheduled,
                BookingState::Active => ContactStatus::InProgress,
                BookingState::Done => ContactStatus::Completed,
                BookingState::Error => ContactStatus::Failed,
            },
        ),
{
    reveal_strlit("RESERVED");
    reveal_strlit("ACTIVE");
    reveal_strlit("DONE");
    reveal_strlit("ERROR");
    // The four texts differ in length.
    assert("RESERVED"@.len() == 8 && "ACTIVE"@.len() == 6 && "DONE"@.len() == 4 && "ERROR"@.len() == 5);
}

/// Once the mock service has handed out the booking numbered `k`, in every state
/// it reaches afterwards (whatever requests it answers) that booking is still
/// there and reserved, so its download answers 503 "payload not ready".
pub proof fn booked_ids_stay_reserved(
    bookings: Map<Seq<char>, (Seq<char>, BookingState)>,
    next: u64,
    k: nat,
    r: MockReply,
)
    requires
        reachable(bookings, next),
        77 <= k < next,
        download_outcome(bookings, Some(accepted_authorization()), numbered_id(k), r),
    ensures
        bookings.dom().contains(numbered_id(k)),
        bookings[numbered_id(k)].1 == BookingState::Reserved,
        error_reply(r, 503, "payload not ready"@),
{
    reveal_strlit("Bearer helios-dev-token");
}

/// Through the plugin: fetching the payload of a booking the mock service handed
/// out, with the default token, is `Unavailable("payload not ready")` in every
/// state the service reaches afterwards.
pub proof fn fetching_a_booked_id_is_unavailable(
    bookings: Map<Seq<char>, (Seq<char>, BookingState)>,
    next: u64,
    k: nat,
    r: MockReply,
    checked: Result<(), ProviderError>,
)
    requires
        reachable(bookings, next),
        77 <= k < next,
        download_outcome(bookings, Some(bearer(default_token())), numbered_id(k), r),
        status_outcome(checked, r.status, numbered_id(k), "payload not ready"@),
    ensures
        checked matches Err(ProviderError::Unavailable(m)) && m@ == "payload not ready"@,
{
    mock_accepts_exactly_the_dev_token(default_token());
    assert(bearer(default_token()) == accepted_authorization());
    booked_ids_stay_reserved(bookings, next, k, r);
}

/// Every pass the plugin reports for the mock service's listing can be booked
/// through the plugin, with the default token, in any state the service has
/// reached: the booking answers 200, and the plugin turns it into a scheduled
/// contact for that pass, under the service's next booking id.
///
/// `listing` is the mock's answer to `GET /v1/windows` and `windows` what the
/// plugin decodes from it, one window per listed window with the same reference.
pub proof fn listed_passes_book_into_scheduled_contacts(
    listing: MockReply,
    windows: WindowsResponse,
    passes: Vec<Pass>,
    i: int,
    before: Map<Seq<char>, (Seq<char>, BookingState)>,
    next: u64,
    after: Map<Seq<char>, (Seq<char>, BookingState)>,
    next_after: u64,
    reply: MockReply,
    checked: Result<(), ProviderError>,
    contact: Result<Contact, ProviderError>,
)
    requires
        listing_outcome(Some(bearer(default_token())), listing),
        listing.body matches MockBody::Windows(ws) && ws@.len() == windows.windows@.len() && forall|j: int|
            0 <= j < ws@.len() ==> #[trigger] windows.windows@[j].reference@ == ws@[j].reference@,
        passes_outcome(Ok(windows), Ok(passes)),
        0 <= i < passes@.len(),
        reachable(before, next),
        booking_outcome(before, next, after, next_after, Some(bearer(default_token())), passes@[i].id@, reply),
        status_outcome(checked, reply.status, passes@[i].id@, "helios unavailable"@),
        reply.body matches MockBody::Booking(b) ==> contact_outcome(Ok(b), contact),
    ensures
        checked is Ok,
        contact matches Ok(c) && c.pass_id@ == passes@[i].id@ && c.status == ContactStatus::Scheduled && c.id@
            == numbered_id(next as nat),
        after == before.insert(numbered_id(next as nat), (passes@[i].id@, BookingState::Reserved)),
{
    mock_accepts_exactly_the_dev_token(default_token());
    assert(bearer(default_token()) == accepted_authorization());
    let ws = listing.body->Windows_0;
    assert(pass_of_window(passes@[i], windows.windows@[i]));
    assert(windows.windows@[i].reference@ == ws@[i].reference@);
    assert(window_fields(ws@[i])[0] == fixture_fields()[i][0]);
    assert(fixture_refs()[i] == fixture_fields()[i][0]);
    assert(fixture_refs().contains(passes@[i].id@));
    plugin_understands_every_mock_state(BookingState::Reserved);
}

/// Through the plugin, with the default token and in any state the mock service
/// reaches: fetching the seeded booking `bk_done` gives the entropy beacon's bytes,
/// with the MIME type the service sent, since the plugin's base64 decoding undoes
/// the service's encoding.
pub proof fn fetching_bk_done_gives_the_beacon(
    bookings: Map<Seq<char>, (Seq<char>, BookingState)>,
    next: u64,
    r: MockReply,
    checked: Result<(), ProviderError>,
    payload: Result<Payload, ProviderError>,
)
    requires
        reachable(bookings, next),
        download_outcome(bookings, Some(bearer(default_token())), "bk_done"@, r),
        status_outcome(checked, r.status, "bk_done"@, "payload not ready"@),
        r.body matches MockBody::Download(d) ==> payload_outcome("bk_done"@, Ok(d), payload),
    ensures
        checked is Ok,
        payload matches Ok(p) && p.contact_id@ == "bk_done"@ && p.content_type@ == "application/octet-stream"@
            && p.data@ == encode_utf8(beacon_text()),
{
    mock_accepts_exactly_the_dev_token(default_token());
    assert(bearer(default_token()) == accepted_authorization());
}

/// The gateway answers only an authentication failure with 401, only a missing
/// thing with 404 and only an unavailable provider with 503; an undecodable
/// response and a transport failure are both a bad gateway, 502.
pub proof fn gateway_status_tells_errors_apart(e: ProviderError)
    ensures
        (status_for_kind(error_kind(e)) == 401) <==> e is Auth,
        (status_for_kind(error_kind(e)) == 404) <==> e is NotFound,
        (status_for_kind(error_kind(e)) == 503) <==> e is Unavailable,
        (status_for_kind(error_kind(e)) == 502) <==> (e is Decode || e is Transport),
{
}

/// What a status check comes to, for each status code: 200 passes; 401 is an
/// authentication failure; 404 is `NotFound` naming what was asked for; 503 is
/// `Unavailable` with the endpoint's detail; any other code is `Unavailable`
/// with a detail that starts `unexpected status `.
pub proof fn status_checks_follow_the_code(
    r: Result<(), ProviderError>,
    status: u16,
    not_found: Seq<char>,
    unavailable: Seq<char>,
)
    requires
        status_outcome(r, status, not_found, unavailable),
    ensures
        status == 200 <==> r is Ok,
        status == 401 ==> r matches Err(ProviderError::Auth),
        status == 404 ==> (r matches Err(ProviderError::NotFound(m)) && m@ == not_found),
        status == 503 ==> (r matches Err(ProviderError::Unavailable(m)) && m@ == unavailable),
        status != 200 && status != 401 && status != 404 && status != 503 ==> (r matches Err(
            ProviderError::Unavailable(m),
        ) && m@.len() >= 18 && m@.subrange(0, 18) == "unexpected status "@),
{
    reveal_strlit("unexpected status ");
    if status != 200 && status != 401 && status != 404 && status != 503 {
        if let Err(ProviderError::Unavailable(m)) = r {
            assert(m@.subrange(0, 18) =~= "unexpected status "@);
        }
    }
}

/// Each documented Helios booking state becomes its own canonical status (and
/// the booking id and window carry over); any other state is a `Decode` error.
pub proof fn booking_states_become_their_statuses(
    b: BookingResponse,
    r: Result<Contact, ProviderError>,
)
    requires
        contact_outcome(Ok(b), r),
    ensures
        b.state@ == "RESERVED"@ ==> (r matches Ok(c) && c.status == ContactStatus::Scheduled),
        b.state@ == "ACTIVE"@ ==> (r matches Ok(c) && c.status == ContactStatus::InProgress),
        b.state@ == "DONE"@ ==> (r matches Ok(c) && c.status == ContactStatus::Completed),
        b.state@ == "ERROR"@ ==> (r matches Ok(c) && c.status == ContactStatus::Failed),
        b.state@ != "RESERVED"@ && b.state@ != "ACTIVE"@ && b.state@ != "DONE"@ && b.state@ != "ERROR"@
            ==> r matches Err(ProviderError::Decode(_)),
        r matches Ok(c) ==> c.id == b.booking_id && c.pass_id == b.window_ref,
{
    reveal_strlit("RESERVED");
    reveal_strlit("ACTIVE");
    reveal_strlit("DONE");
    reveal_strlit("ERROR");
    assert("RESERVED"@.len() == 8 && "ACTIVE"@.len() == 6 && "DONE"@.len() == 4 && "ERROR"@.len() == 5);
}

/// A payload fetched for any contact carries that contact's id, the MIME type the
/// provider sent, and the bytes the provider's base64 stands for.
pub proof fn payload_belongs_to_its_contact(
    contact_id: Seq<char>,
    d: DownloadResponse,
    r: Result<Payload, ProviderError>,
)
    requires
        payload_outcome(contact_id, Ok(d), r),
    ensures
        r matches Ok(p) ==> p.contact_id@ == contact_id && p.content_type == d.mime && b64_standard_decode(d.b64@)
            == Some(p.data@),
        r is Err <==> b64_standard_decode(d.b64@) is None,
{
}

/// Each pass is its window under Orbitport's names: the id is the window's
/// reference, the satellite its spacecraft, the ground station its site, AOS
/// its start, LOS its end and the elevation its peak elevation.
pub proof fn passes_keep_each_window(
    w: WindowsResponse,
    ps: Vec<Pass>,
    i: int,
)
    requires
        passes_outcome(Ok(w), Ok(ps)),
        0 <= i < w.windows@.len(),
    ensures
        ps@.len() == w.windows@.len(),
        ps@[i].id == w.windows@[i].reference,
        ps@[i].satellite_id == w.windows@[i].spacecraft,
        ps@[i].ground_station == w.windows@[i].site,
        ps@[i].aos == w.windows@[i].window_start,
        ps@[i].los == w.windows@[i].window_end,
        ps@[i].max_elevation_deg == w.windows@[i].peak_elevation_deg,
{
    assert(pass_of_window(ps@[i], w.windows@[i]));
}

/// Text `a` comes before text `b` in character order: they agree up to some
/// position where `a`'s character is the smaller.
pub open spec fn text_before(a: Seq<char>, b: Seq<char>) -> bool {
    exists|n: int|
        0 <= n < a.len() && n < b.len() && #[trigger] a.subrange(0, n) == b.subrange(0, n) && (a[n] as int) < (
        b[n] as int)
}

/// Every window the mock service lists starts before it ends. The times are UTC
/// RFC 3339 texts of one fixed width (`YYYY-MM-DDTHH:MM:SSZ`), which order as
/// the instants they name.
pub proof fn listed_windows_start_before_they_end(auth: Option<Seq<char>>, r: MockReply)
    requires
        listing_outcome(auth, r),
        r.body matches MockBody::Windows(_),
    ensures
        r.body matches MockBody::Windows(ws) && forall|i: int|
            0 <= i < ws@.len() ==> (#[trigger] ws@[i]).window_start@.len() == 20 && ws@[i].window_end@.len() == 20
                && text_before(ws@[i].window_start@, ws@[i].window_end@),
{
    let ws = r.body->Windows_0;
    reveal_strlit("2026-08-12T14:03:00Z");
    reveal_strlit("2026-08-12T14:11:30Z");
    reveal_strlit("2026-08-12T15:47:10Z");
    reveal_strlit("2026-08-12T15:55:40Z");
    reveal_strlit("2026-08-13T03:21:00Z");
    reveal_strlit("2026-08-13T03:29:05Z");
    reveal_strlit("2026-08-13T09:12:30Z");
    reveal_strlit("2026-08-13T09:19:50Z");
    assert(authorized(auth));
    assert forall|i: int| 0 <= i < ws@.len() implies (#[trigger] ws@[i]).window_start@.len() == 20
        && ws@[i].window_end@.len() == 20 && text_before(ws@[i].window_start@, ws@[i].window_end@) by {
        let f = window_fields(ws@[i]);
        assert(f == fixture_fields()[i]);
        let a = ws@[i].window_start@;
        let b = ws@[i].window_end@;
        assert(a == f[3] && b == f[4]);
        let n: int = if i < 2 { 14 } else { 15 };
        assert(a.subrange(0, n) =~= b.subrange(0, n));
        assert((a[n] as int) < (b[n] as int));
    }
}

} // verus!
