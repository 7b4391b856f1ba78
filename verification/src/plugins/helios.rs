//! The Helios GS plugin: what it asks the Helios API for, and how it maps the
//! Helios responses (their field names, `state` strings, base64 payloads and
//! status codes) onto Orbitport's canonical types and errors.
//!
//! The network exchange itself is done by the caller: it sends the `HttpRequest`
//! that a `*_request` method describes, hands the status code to the matching
//! `check_*_status`, and, where that succeeds, hands the decoded body to the
//! matching `*_from_body`.

use vstd::prelude::*;

use crate::formats::{b64_standard_decode, decode_b64_standard, format_status_line, status_line, utc_rfc3339};
use crate::provider::{error_kind, ErrorKind, ProviderError};
use crate::types::{Contact, ContactStatus, Pass, PassQuery, Payload, Timestamp};

verus! {

/// The base URL used where none is configured.
pub open spec fn default_base_url() -> Seq<char> {
    "http://127.0.0.1:8081"@
}

/// The token used where none is configured (the Helios mock's token).
pub open spec fn default_token() -> Seq<char> {
    "helios-dev-token"@
}

/// The value of the `Authorization` header that carries `token`.
pub open spec fn bearer(token: Seq<char>) -> Seq<char> {
    "Bearer "@ + token
}

/// The Helios plugin: where the Helios API is, and the token it is called with.
pub struct HeliosPlugin {
    base_url: String,
    token: String,
}

/// An HTTP method.
#[derive(Clone, Copy, Debug, PartialEq, Eq, Structural)]
pub enum HttpMethod {
    Get,
    Post,
}

/// One `name=value` pair of a URL's query.
#[derive(Clone, Debug, PartialEq, Eq)]
pub struct QueryParam {
    pub name: String,
    pub value: String,
}

/// The JSON body of a booking request: `{ "window_ref": ... }`.
#[derive(Clone, Debug, PartialEq, Eq)]
pub struct BookingRequest {
    pub window_ref: String,
}

/// A request to the Helios API, to be sent as it stands.
#[derive(Clone, Debug, PartialEq, Eq)]
pub struct HttpRequest {
    pub method: HttpMethod,
    pub url: String,
    pub query: Vec<QueryParam>,
    /// The value of the `Authorization` header.
    pub authorization: String,
    pub json_body: Option<BookingRequest>,
}

/// One contact window as Helios describes it. `peak_elevation_deg` is the
/// decimal text of the JSON number.
#[derive(Clone, Debug, PartialEq, Eq)]
pub struct HeliosWindow {
    pub reference: String,
    pub spacecraft: String,
    pub site: String,
    pub window_start: Timestamp,
    pub window_end: Timestamp,
    pub peak_elevation_deg: String,
}

/// The body of `GET /v1/windows`.
#[derive(Clone, Debug, PartialEq, Eq)]
pub struct WindowsResponse {
    pub windows: Vec<HeliosWindow>,
}

/// The body of `POST /v1/bookings`.
#[derive(Clone, Debug, PartialEq, Eq)]
pub struct BookingResponse {
    pub booking_id: String,
    pub window_ref: String,
    pub state: String,
}

/// The body of `GET /v1/bookings/{id}/download`.
#[derive(Clone, Debug, PartialEq, Eq)]
pub struct DownloadResponse {
    pub mime: String,
    pub b64: String,
}

impl HeliosPlugin {
    pub closed spec fn spec_base_url(&self) -> Seq<char> {
        self.base_url@
    }

    pub closed spec fn spec_token(&self) -> Seq<char> {
        self.token@
    }

    /// A plugin that calls the Helios API at `base_url` with `token`.
    pub fn new(base_url: &str, token: &str) -> (p: Self)
        ensures
            p.spec_base_url() == base_url@,
            p.spec_token() == token@,
    {
        HeliosPlugin { base_url: String::from_str(base_url), token: String::from_str(token) }
    }

    /// A plugin built from the settings `HELIOS_BASE_URL` and `HELIOS_TOKEN`, as
    /// read from the environment (`None` where a setting is absent); an absent
    /// setting takes the local mock's value.
    pub fn from_env(base_url: Option<String>, token: Option<String>) -> (p: Self)
        ensures
            p.spec_base_url() == (match base_url {
                Some(u) => u@,
                None => default_base_url(),
            }),
            p.spec_token() == (match token {
                Some(t) => t@,
                None => default_token(),
            }),
    {
        let base_url = match base_url {
            Some(u) => u,
            None => String::from_str("http://127.0.0.1:8081"),
        };
        let token = match token {
            Some(t) => t,
            None => String::from_str("helios-dev-token"),
        };
        HeliosPlugin { base_url, token }
    }

    /// The identifier used in routing and logs.
    pub fn name(&self) -> (n: &'static str)
        ensures
            n@ == "helios"@,
    {
        "helios"
    }

    /// The `Authorization` header value of every request: the bearer token.
    pub fn authorization(&self) -> (h: String)
        ensures
            h@ == bearer(self.spec_token()),
    {
        String::from_str("Bearer ").concat(self.token.as_str())
    }

    /// The request that lists the contact windows matching `query`:
    /// `GET {base}/v1/windows?sat=..&start=..&end=..`, the times in RFC 3339.
    pub fn list_passes_request(&self, query: &PassQuery) -> (r: HttpRequest)
        ensures
            r.method == HttpMethod::Get,
            r.url@ == self.spec_base_url() + "/v1/windows"@,
            r.query@.len() == 3,
            r.query@[0].name@ == "sat"@,
            r.query@[0].value@ == query.satellite_id@,
            r.query@[1].name@ == "start"@,
            r.query@[1].value@ == utc_rfc3339(query.from.spec_secs(), query.from.spec_nanos()),
            r.query@[2].name@ == "end"@,
            r.query@[2].value@ == utc_rfc3339(query.to.spec_secs(), query.to.spec_nanos()),
            r.authorization@ == bearer(self.spec_token()),
            r.json_body is None,
    {
        let mut params: Vec<QueryParam> = Vec::new();
        params.push(QueryParam { name: String::from_str("sat"), value: query.satellite_id.clone() });
        params.push(QueryParam { name: String::from_str("start"), value: query.from.to_rfc3339() });
        params.push(QueryParam { name: String::from_str("end"), value: query.to.to_rfc3339() });
        HttpRequest {
            method: HttpMethod::Get,
            url: self.base_url.clone().concat("/v1/windows"),
            query: params,
            authorization: self.authorization(),
            json_body: None,
        }
    }

    /// The request that books the pass `pass_id`:
    /// `POST {base}/v1/bookings` with `{ "window_ref": pass_id }`.
    pub fn schedule_contact_request(&self, pass_id: &str) -> (r: HttpRequest)
        ensures
            r.method == HttpMethod::Post,
            r.url@ == self.spec_base_url() + "/v1/bookings"@,
            r.query@.len() == 0,
            r.authorization@ == bearer(self.spec_token()),
            r.json_body matches Some(b) && b.window_ref@ == pass_id@,
    {
        HttpRequest {
            method: HttpMethod::Post,
            url: self.base_url.clone().concat("/v1/bookings"),
            query: Vec::new(),
            authorization: self.authorization(),
            json_body: Some(BookingRequest { window_ref: String::from_str(pass_id) }),
        }
    }

    /// The request that downloads the payload of the contact `contact_id`:
    /// `GET {base}/v1/bookings/{contact_id}/download`.
    pub fn fetch_payload_request(&self, contact_id: &str) -> (r: HttpRequest)
        ensures
            r.method == HttpMethod::Get,
            r.url@ == self.spec_base_url() + "/v1/bookings/"@ + contact_id@ + "/download"@,
            r.query@.len() == 0,
            r.authorization@ == bearer(self.spec_token()),
            r.json_body is None,
    {
        HttpRequest {
            method: HttpMethod::Get,
            url: self.base_url.clone().concat("/v1/bookings/").concat(contact_id).concat("/download"),
            query: Vec::new(),
            authorization: self.authorization(),
            json_body: None,
        }
    }
}

/// The kind of error that a status code other than 200 stands for.
pub open spec fn status_error_kind(status: u16) -> ErrorKind {
    if status == 401 {
        ErrorKind::Auth
    } else if status == 404 {
        ErrorKind::NotFound
    } else {
        ErrorKind::Unavailable
    }
}

/// The detail of the error for a status code that Helios does not document.
pub open spec fn unexpected_status_text(status: u16) -> Seq<char> {
    "unexpected status "@ + status_line(status)
}

/// `r` is what a call answered with `status` comes to: `Ok` on 200; otherwise
/// `Auth` on 401, `NotFound(not_found)` on 404, `Unavailable(unavailable)` on
/// 503, and `Unavailable` naming the status on any other code.
pub open spec fn status_outcome(
    r: Result<(), ProviderError>,
    status: u16,
    not_found: Seq<char>,
    unavailable: Seq<char>,
) -> bool {
    match r {
        Ok(()) => status == 200,
        Err(e) => {
            &&& status != 200
            &&& error_kind(e) == status_error_kind(status)
            &&& e matches ProviderError::NotFound(m) ==> m@ == not_found
            &&& e matches ProviderError::Unavailable(m) ==> m@ == (if status == 503 {
                unavailable
            } else {
                unexpected_status_text(status)
            })
        },
    }
}

fn status_check(status: u16, not_found: &str, unavailable: &str) -> (r: Result<(), ProviderError>)
    requires
        100 <= status <= 999,
    ensures
        status_outcome(r, status, not_found@, unavailable@),
{
    if status == 200 {
        Ok(())
    } else if status == 401 {
        Err(ProviderError::Auth)
    } else if status == 404 {
        Err(ProviderError::NotFound(String::from_str(not_found)))
    } else if status == 503 {
        Err(ProviderError::Unavailable(String::from_str(unavailable)))
    } else {
        let line = format_status_line(status);
        Err(ProviderError::Unavailable(String::from_str("unexpected status ").concat(line.as_str())))
    }
}

/// What the status code of `GET /v1/windows` comes to.
pub fn check_windows_status(status: u16) -> (r: Result<(), ProviderError>)
    requires
        100 <= status <= 999,
    ensures
        status_outcome(r, status, "windows not found"@, "helios unavailable"@),
{
    status_check(status, "windows not found", "helios unavailable")
}

/// What the status code of booking `pass_id` comes to; a 404 names the pass.
pub fn check_booking_status(status: u16, pass_id: &str) -> (r: Result<(), ProviderError>)
    requires
        100 <= status <= 999,
    ensures
        status_outcome(r, status, pass_id@, "helios unavailable"@),
{
    status_check(status, pass_id, "helios unavailable")
}

/// What the status code of downloading `contact_id` comes to; a 404 names the
/// contact, and a 503 means that its payload is not ready.
pub fn check_download_status(status: u16, contact_id: &str) -> (r: Result<(), ProviderError>)
    requires
        100 <= status <= 999,
    ensures
        status_outcome(r, status, contact_id@, "payload not ready"@),
{
    status_check(status, contact_id, "payload not ready")
}

/// `p` is the canonical pass for the Helios window `w`: `ref` is the id,
/// `spacecraft` the satellite, `site` the ground station, `window_start` and
/// `window_end` the AOS and LOS, and the peak elevation the maximum elevation.
pub open spec fn pass_of_window(p: Pass, w: HeliosWindow) -> bool {
    &&& p.id == w.reference
    &&& p.satellite_id == w.spacecraft
    &&& p.ground_station == w.site
    &&& p.aos == w.window_start
    &&& p.los == w.window_end
    &&& p.max_elevation_deg == w.peak_elevation_deg
}

fn copy_window(w: &HeliosWindow) -> (c: HeliosWindow)
    ensures
        c == *w,
{
    HeliosWindow {
        reference: w.reference.clone(),
        spacecraft: w.spacecraft.clone(),
        site: w.site.clone(),
        window_start: w.window_start,
        window_end: w.window_end,
        peak_elevation_deg: w.peak_elevation_deg.clone(),
    }
}

/// The canonical pass for one Helios window.
pub fn pass_from_window(w: HeliosWindow) -> (p: Pass)
    ensures
        pass_of_window(p, w),
{
    Pass {
        id: w.reference,
        satellite_id: w.spacecraft,
        ground_station: w.site,
        aos: w.window_start,
        los: w.window_end,
        max_elevation_deg: w.peak_elevation_deg,
    }
}

/// `r` is what a `GET /v1/windows` body comes to: one pass per window and in its
/// order; a body that could not be decoded (its decoder's message in `Err`) is a
/// `Decode` error with that message.
pub open spec fn passes_outcome(body: Result<WindowsResponse, String>, r: Result<Vec<Pass>, ProviderError>) -> bool {
    match body {
        Err(m) => r matches Err(ProviderError::Decode(d)) && d@ == m@,
        Ok(w) => r matches Ok(ps) && ps@.len() == w.windows@.len() && forall|i: int|
            0 <= i < ps@.len() ==> pass_of_window(#[trigger] ps@[i], w.windows@[i]),
    }
}

/// The passes for a `GET /v1/windows` body.
pub fn passes_from_body(body: Result<WindowsResponse, String>) -> (r: Result<Vec<Pass>, ProviderError>)
    ensures
        passes_outcome(body, r),
{
    match body {
        Err(m) => Err(ProviderError::Decode(m)),
        Ok(response) => {
            let windows = response.windows;
            let mut passes: Vec<Pass> = Vec::new();
            let n = windows.len();
            for i in 0..n
                invariant
                    n == windows@.len(),
                    passes@.len() == i,
                    forall|j: int| 0 <= j < i ==> pass_of_window(#[trigger] passes@[j], windows@[j]),
            {
                passes.push(pass_from_window(copy_window(&windows[i])));
            }
            Ok(passes)
        },
    }
}

/// The canonical status for a Helios booking `state`: `RESERVED` is scheduled,
/// `ACTIVE` in progress, `DONE` completed and `ERROR` failed; any other text has
/// none.
pub open spec fn contact_status_of(state: Seq<char>) -> Option<ContactStatus> {
    if state == "RESERVED"@ {
        Some(ContactStatus::Scheduled)
    } else if state == "ACTIVE"@ {
        Some(ContactStatus::InProgress)
    } else if state == "DONE"@ {
        Some(ContactStatus::Completed)
    } else if state == "ERROR"@ {
        Some(ContactStatus::Failed)
    } else {
        None
    }
}

/// The canonical status for a Helios booking `state`.
pub fn contact_status_from_state(state: &str) -> (s: Option<ContactStatus>)
    ensures
        s == contact_status_of(state@),
{
    let state = String::from_str(state);
    if state == String::from_str("RESERVED") {
        Some(ContactStatus::Scheduled)
    } else if state == String::from_str("ACTIVE") {
        Some(ContactStatus::InProgress)
    } else if state == String::from_str("DONE") {
        Some(ContactStatus::Completed)
    } else if state == String::from_str("ERROR") {
        Some(ContactStatus::Failed)
    } else {
        None
    }
}

/// The detail of the `Decode` error for a booking `state` that Helios does not
/// document.
pub open spec fn unknown_state_text(state: Seq<char>) -> Seq<char> {
    "unknown booking state: "@ + state
}

/// `r` is what a `POST /v1/bookings` body comes to: the booking id is the
/// contact id, the window is the pass, and the state gives the status. An
/// undocumented state, or a body that could not be decoded, is a `Decode` error.
pub open spec fn contact_outcome(body: Result<BookingResponse, String>, r: Result<Contact, ProviderError>) -> bool {
    match body {
        Err(m) => r matches Err(ProviderError::Decode(d)) && d@ == m@,
        Ok(b) => match contact_status_of(b.state@) {
            Some(status) => r matches Ok(c) && c.id == b.booking_id && c.pass_id == b.window_ref
                && c.status == status,
            None => r matches Err(ProviderError::Decode(d)) && d@ == unknown_state_text(b.state@),
        },
    }
}

/// The contact for a `POST /v1/bookings` body.
pub fn contact_from_body(body: Result<BookingResponse, String>) -> (r: Result<Contact, ProviderError>)
    ensures
        contact_outcome(body, r),
{
    match body {
        Err(m) => Err(ProviderError::Decode(m)),
        Ok(b) => match contact_status_from_state(b.state.as_str()) {
            Some(status) => Ok(Contact { id: b.booking_id, pass_id: b.window_ref, status }),
            None => Err(ProviderError::Decode(String::from_str("unknown booking state: ").concat(b.state.as_str()))),
        },
    }
}

/// The detail of the `Decode` error for a payload that is not valid base64.
pub open spec fn bad_payload_text() -> Seq<char> {
    "payload is not valid base64"@
}

/// `r` is what a download body comes to for the contact `contact_id`: the MIME
/// type is the content type and the data is the standard-base64 decoding of
/// `b64`. Data that does not decode, or a body that could not be decoded, is a
/// `Decode` error.
pub open spec fn payload_outcome(
    contact_id: Seq<char>,
    body: Result<DownloadResponse, String>,
    r: Result<Payload, ProviderError>,
) -> bool {
    match body {
        Err(m) => r matches Err(ProviderError::Decode(d)) && d@ == m@,
        Ok(d) => match b64_standard_decode(d.b64@) {
            Some(bytes) => r matches Ok(p) && p.contact_id@ == contact_id && p.content_type == d.mime
                && p.data@ == bytes,
            None => r matches Err(ProviderError::Decode(e)) && e@ == bad_payload_text(),
        },
    }
}

/// The payload of the contact `contact_id` for a download body.
pub fn payload_from_body(contact_id: &str, body: Result<DownloadResponse, String>) -> (r: Result<Payload, ProviderError>)
    ensures
        payload_outcome(contact_id@, body, r),
{
    match body {
        Err(m) => Err(ProviderError::Decode(m)),
        Ok(d) => match decode_b64_standard(d.b64.as_str()) {
            Ok(data) => Ok(Payload { contact_id: String::from_str(contact_id), content_type: d.mime, data }),
            Err(_) => Err(ProviderError::Decode(String::from_str("payload is not valid base64"))),
        },
    }
}

} // verus!
