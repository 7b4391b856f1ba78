//! A model of the Helios GS mock service: the fixed contact windows it
//! advertises, its bookings, and its answer to each request.
//!
//! Every route asks for the bearer token `helios-dev-token`. The windows are
//! fixed and any of them can be booked; booking `bk_done` is seeded as done and
//! serves an entropy beacon; fresh bookings are numbered from 77, stay reserved,
//! and their download answers 503. The HTTP server that carries these answers
//! lives outside the library.

use vstd::prelude::*;
use vstd::utf8::encode_utf8;

use crate::formats::{b64_standard_decode, b64_standard_encode, encode_b64_standard};
use crate::plugins::helios::{BookingResponse, DownloadResponse};

verus! {

// ---------------------------------------------------------------- decimal ids

/// The decimal digit `d` (below ten).
pub open spec fn digit_char(d: nat) -> char {
    (d + 48) as char
}

/// The decimal numeral of `n`, without leading zeros.
pub open spec fn decimal(n: nat) -> Seq<char>
    decreases n,
{
    if n < 10 {
        seq![digit_char(n)]
    } else {
        decimal(n / 10).push(digit_char(n % 10))
    }
}

pub open spec fn is_digit(c: char) -> bool {
    48 <= c as int <= 57
}

/// The id of the booking numbered `n`: `bk_` and the numeral.
pub open spec fn numbered_id(n: nat) -> Seq<char> {
    "bk_"@ + decimal(n)
}

proof fn lemma_decimal_digits(n: nat)
    ensures
        decimal(n).len() >= 1,
        n >= 10 ==> decimal(n).len() >= 2,
        forall|i: int| 0 <= i < decimal(n).len() ==> is_digit(#[trigger] decimal(n)[i]),
    decreases n,
{
    if n >= 10 {
        lemma_decimal_digits(n / 10);
        let d = decimal(n / 10);
        assert forall|i: int| 0 <= i < decimal(n).len() implies is_digit(#[trigger] decimal(n)[i]) by {
            if i < d.len() {
                assert(decimal(n)[i] == d[i]);
            } else {
                assert(decimal(n)[i] == digit_char(n % 10));
            }
        }
    }
}

proof fn lemma_digit_char_injective(a: nat, b: nat)
    requires
        a < 10,
        b < 10,
        digit_char(a) == digit_char(b),
    ensures
        a == b,
{
    assert(digit_char(a) as int == a + 48);
    assert(digit_char(b) as int == b + 48);
}

/// Distinct numbers have distinct numerals.
proof fn lemma_decimal_injective(a: nat, b: nat)
    requires
        decimal(a) == decimal(b),
    ensures
        a == b,
    decreases a,
{
    lemma_decimal_digits(a);
    lemma_decimal_digits(b);
    if a < 10 && b < 10 {
        assert(decimal(a)[0] == digit_char(a));
        assert(decimal(b)[0] == digit_char(b));
        lemma_digit_char_injective(a, b);
    } else if a >= 10 && b >= 10 {
        let da = decimal(a);
        let db = decimal(b);
        assert(da.last() == digit_char(a % 10));
        assert(db.last() == digit_char(b % 10));
        lemma_digit_char_injective(a % 10, b % 10);
        assert(da.drop_last() =~= decimal(a / 10));
        assert(db.drop_last() =~= decimal(b / 10));
        lemma_decimal_injective(a / 10, b / 10);
    } else {
        lemma_decimal_digits(a / 10);
        lemma_decimal_digits(b / 10);
    }
}

fn digit_text(d: u64) -> (s: &'static str)
    requires
        d < 10,
    ensures
        s@ == seq![digit_char(d as nat)],
{
    if d == 0 {
        proof { reveal_strlit("0"); }
        "0"
    } else if d == 1 {
        proof { reveal_strlit("1"); }
        "1"
    } else if d == 2 {
        proof { reveal_strlit("2"); }
        "2"
    } else if d == 3 {
        proof { reveal_strlit("3"); }
        "3"
    } else if d == 4 {
        proof { reveal_strlit("4"); }
        "4"
    } else if d == 5 {
        proof { reveal_strlit("5"); }
        "5"
    } else if d == 6 {
        proof { reveal_strlit("6"); }
        "6"
    } else if d == 7 {
        proof { reveal_strlit("7"); }
        "7"
    } else if d == 8 {
        proof { reveal_strlit("8"); }
        "8"
    } else {
        proof { reveal_strlit("9"); }
        "9"
    }
}

fn decimal_string(n: u64) -> (s: String)
    ensures
        s@ == decimal(n as nat),
    decreases n,
{
    if n < 10 {
        String::from_str(digit_text(n))
    } else {
        let s = decimal_string(n / 10).concat(digit_text(n % 10));
        assert(s@ =~= decimal(n as nat));
        s
    }
}

/// The id of the booking numbered `n` (`bk_77` for 77).
pub fn booking_id(n: u64) -> (id: String)
    ensures
        id@ == numbered_id(n as nat),
{
    String::from_str("bk_").concat(decimal_string(n).as_str())
}

// ---------------------------------------------------------------- authorization

/// The only `Authorization` header the service accepts.
pub open spec fn accepted_authorization() -> Seq<char> {
    "Bearer helios-dev-token"@
}

/// The text of an optional header.
pub open spec fn header_view(h: Option<&str>) -> Option<Seq<char>> {
    match h {
        Some(s) => Some(s@),
        None => None,
    }
}

/// A request with header `h` is let in.
pub open spec fn authorized(h: Option<Seq<char>>) -> bool {
    h == Some(accepted_authorization())
}

/// Whether a request whose `Authorization` header reads `authorization` (`None`
/// where it is missing or not visible ASCII) is let in.
pub fn is_authorized(authorization: Option<&str>) -> (ok: bool)
    ensures
        ok == authorized(header_view(authorization)),
{
    match authorization {
        Some(h) => String::from_str(h) == String::from_str("Bearer helios-dev-token"),
        None => false,
    }
}

// ---------------------------------------------------------------- windows

/// One advertised contact window, every field as the text the service sends
/// (the peak elevation is the decimal text of a JSON number).
#[derive(Clone, Debug, PartialEq, Eq)]
pub struct MockWindow {
    pub reference: String,
    pub spacecraft: String,
    pub site: String,
    pub window_start: String,
    pub window_end: String,
    pub peak_elevation_deg: String,
}

/// The fields of `w`, in declaration order.
pub open spec fn window_fields(w: MockWindow) -> Seq<Seq<char>> {
    seq![w.reference@, w.spacecraft@, w.site@, w.window_start@, w.window_end@, w.peak_elevation_deg@]
}

/// The fixed windows the service advertises, field by field.
pub open spec fn fixture_fields() -> Seq<Seq<Seq<char>>> {
    seq![
        seq!["w_1a2b"@, "SAT-42"@, "svalbard-01"@, "2026-08-12T14:03:00Z"@, "2026-08-12T14:11:30Z"@, "61.5"@],
        seq!["w_2c3d"@, "SAT-42"@, "svalbard-01"@, "2026-08-12T15:47:10Z"@, "2026-08-12T15:55:40Z"@, "34.2"@],
        seq!["w_3e4f"@, "SAT-42"@, "troll-02"@, "2026-08-13T03:21:00Z"@, "2026-08-13T03:29:05Z"@, "78.9"@],
        seq!["w_5a6b"@, "SAT-7"@, "awarua-01"@, "2026-08-13T09:12:30Z"@, "2026-08-13T09:19:50Z"@, "12.6"@],
    ]
}

/// The references of the fixed windows, in order.
pub open spec fn fixture_refs() -> Seq<Seq<char>> {
    seq!["w_1a2b"@, "w_2c3d"@, "w_3e4f"@, "w_5a6b"@]
}

fn window(
    reference: &str,
    spacecraft: &str,
    site: &str,
    window_start: &str,
    window_end: &str,
    peak_elevation_deg: &str,
) -> (w: MockWindow)
    ensures
        window_fields(w) == seq![reference@, spacecraft@, site@, window_start@, window_end@, peak_elevation_deg@],
{
    let w = MockWindow {
        reference: String::from_str(reference),
        spacecraft: String::from_str(spacecraft),
        site: String::from_str(site),
        window_start: String::from_str(window_start),
        window_end: String::from_str(window_end),
        peak_elevation_deg: String::from_str(peak_elevation_deg),
    };
    assert(window_fields(w) =~= seq![reference@, spacecraft@, site@, window_start@, window_end@, peak_elevation_deg@]);
    w
}

/// The fixed windows, in order.
pub fn window_fixtures() -> (ws: Vec<MockWindow>)
    ensures
        ws@.len() == 4,
        forall|i: int| 0 <= i < 4 ==> window_fields(#[trigger] ws@[i]) == fixture_fields()[i],
{
    let mut ws: Vec<MockWindow> = Vec::new();
    ws.push(window("w_1a2b", "SAT-42", "svalbard-01", "2026-08-12T14:03:00Z", "2026-08-12T14:11:30Z", "61.5"));
    ws.push(window("w_2c3d", "SAT-42", "svalbard-01", "2026-08-12T15:47:10Z", "2026-08-12T15:55:40Z", "34.2"));
    ws.push(window("w_3e4f", "SAT-42", "troll-02", "2026-08-13T03:21:00Z", "2026-08-13T03:29:05Z", "78.9"));
    ws.push(window("w_5a6b", "SAT-7", "awarua-01", "2026-08-13T09:12:30Z", "2026-08-13T09:19:50Z", "12.6"));
    ws
}

/// Whether `reference` names one of the fixed windows.
pub fn window_exists(reference: &str) -> (b: bool)
    ensures
        b == fixture_refs().contains(reference@),
{
    let ws = window_fixtures();
    let target = String::from_str(reference);
    let n = ws.len();
    for i in 0..n
        invariant
            n == ws@.len(),
            n == 4,
            target@ == reference@,
            forall|j: int| 0 <= j < 4 ==> window_fields(#[trigger] ws@[j]) == fixture_fields()[j],
            forall|j: int| 0 <= j < i ==> fixture_refs()[j] != reference@,
    {
        assert(window_fields(ws@[i as int])[0] == fixture_fields()[i as int][0]);
        if ws[i].reference == target {
            assert(fixture_refs()[i as int] == reference@);
            return true;
        }
    }
    assert(!fixture_refs().contains(reference@));
    false
}

// ---------------------------------------------------------------- bookings

/// Where a Helios booking stands.
#[derive(Clone, Copy, Debug, PartialEq, Eq, Structural)]
pub enum BookingState {
    Reserved,
    Active,
    Done,
    Error,
}

/// The `state` text that Helios sends for `s`.
pub open spec fn state_text(s: BookingState) -> Seq<char> {
    match s {
        BookingState::Reserved => "RESERVED"@,
        BookingState::Active => "ACTIVE"@,
        BookingState::Done => "DONE"@,
        BookingState::Error => "ERROR"@,
    }
}

impl BookingState {
    /// The `state` text that Helios sends for this state.
    pub fn wire_name(&self) -> (t: &'static str)
        ensures
            t@ == state_text(*self),
    {
        match self {
            BookingState::Reserved => "RESERVED",
            BookingState::Active => "ACTIVE",
            BookingState::Done => "DONE",
            BookingState::Error => "ERROR",
        }
    }
}

/// One booking: the window it books and where it stands.
#[derive(Clone, Debug, PartialEq, Eq)]
pub struct MockBooking {
    pub window_ref: String,
    pub state: BookingState,
}

pub open spec fn booking_view(b: MockBooking) -> (Seq<char>, BookingState) {
    (b.window_ref@, b.state)
}

/// The bookings held in `s`, keyed by id; a later entry wins over an earlier one.
pub open spec fn entries_map(s: Seq<(String, MockBooking)>) -> Map<Seq<char>, (Seq<char>, BookingState)>
    decreases s.len(),
{
    if s.len() == 0 {
        Map::empty()
    } else {
        entries_map(s.drop_last()).insert(s.last().0@, booking_view(s.last().1))
    }
}

/// No id occurs twice in `s`.
pub open spec fn keys_distinct(s: Seq<(String, MockBooking)>) -> bool {
    forall|i: int, j: int| #![trigger s[i], s[j]] 0 <= i < j < s.len() ==> s[i].0@ != s[j].0@
}

/// `id` is the seeded `bk_done` or a numbered id below `next`.
spec fn issued(id: Seq<char>, next: u64) -> bool {
    id == "bk_done"@ || exists|k: nat| k < next && id == #[trigger] numbered_id(k)
}

proof fn lemma_entries(s: Seq<(String, MockBooking)>)
    requires
        keys_distinct(s),
    ensures
        forall|i: int| #![trigger s[i]] 0 <= i < s.len() ==> entries_map(s).dom().contains(s[i].0@)
            && entries_map(s)[s[i].0@] == booking_view(s[i].1),
        forall|k: Seq<char>| #[trigger] entries_map(s).dom().contains(k) ==> exists|i: int|
            0 <= i < s.len() && #[trigger] s[i].0@ == k,
    decreases s.len(),
{
    if s.len() > 0 {
        let t = s.drop_last();
        assert(keys_distinct(t)) by {
            assert forall|i: int, j: int| 0 <= i < j < t.len() implies t[i].0@ != t[j].0@ by {
                assert(t[i] == s[i] && t[j] == s[j]);
            }
        }
        lemma_entries(t);
        assert forall|i: int| #![trigger s[i]] 0 <= i < s.len() implies entries_map(s).dom().contains(s[i].0@)
            && entries_map(s)[s[i].0@] == booking_view(s[i].1) by {
            if i < s.len() - 1 {
                assert(t[i] == s[i]);
                assert(s[i].0@ != s[s.len() - 1].0@);
            }
        }
        assert forall|k: Seq<char>| #[trigger] entries_map(s).dom().contains(k) implies exists|i: int|
            0 <= i < s.len() && #[trigger] s[i].0@ == k by {
            if k == s.last().0@ {
                assert(s[s.len() - 1].0@ == k);
            } else {
                assert(entries_map(t).dom().contains(k));
                let i = choose|i: int| 0 <= i < t.len() && #[trigger] t[i].0@ == k;
                assert(s[i] == t[i]);
            }
        }
    }
}

/// A numbered id is not an id handed out before its number.
proof fn lemma_fresh(next: u64, id: Seq<char>)
    requires
        issued(id, next),
    ensures
        id != numbered_id(next as nat),
{
    reveal_strlit("bk_");
    reveal_strlit("bk_done");
    lemma_decimal_digits(next as nat);
    let fresh = numbered_id(next as nat);
    if id == "bk_done"@ {
        assert(fresh[3] == decimal(next as nat)[0]);
        assert(is_digit(fresh[3]));
        assert(id[3] == 'd');
    } else {
        let k = choose|k: nat| k < next && id == #[trigger] numbered_id(k);
        if id == fresh {
            assert(decimal(k) =~= id.subrange(3, id.len() as int));
            assert(decimal(next as nat) =~= fresh.subrange(3, fresh.len() as int));
            lemma_decimal_injective(k, next as nat);
        }
    }
}

/// The bookings `m` are ones the service can hold when its next number is `next`,
/// whatever requests it has answered since it started: `bk_done` books window
/// `w_1a2b` and is done; every number from 77 up to `next` has a booking, which
/// books one of the fixed windows and is reserved; and there is no other booking.
pub open spec fn reachable(m: Map<Seq<char>, (Seq<char>, BookingState)>, next: u64) -> bool {
    &&& 77 <= next
    &&& m.dom().contains("bk_done"@)
    &&& m["bk_done"@] == ("w_1a2b"@, BookingState::Done)
    &&& forall|k: nat|
        #![trigger numbered_id(k)]
        77 <= k < next ==> m.dom().contains(numbered_id(k)) && m[numbered_id(k)].1 == BookingState::Reserved
            && fixture_refs().contains(m[numbered_id(k)].0)
    &&& forall|id: Seq<char>| #[trigger] m.dom().contains(id) ==> id == "bk_done"@ || exists|k: nat|
        77 <= k < next && id == #[trigger] numbered_id(k)
}

/// The number `next` has no booking yet, and its id differs from every id
/// handed out before.
proof fn lemma_reachable_fresh(m: Map<Seq<char>, (Seq<char>, BookingState)>, next: u64)
    requires
        reachable(m, next),
    ensures
        !m.dom().contains(numbered_id(next as nat)),
        "bk_done"@ != numbered_id(next as nat),
        forall|k: nat| #![trigger numbered_id(k)] k < next ==> numbered_id(k) != numbered_id(next as nat),
{
    lemma_fresh(next, "bk_done"@);
    assert forall|k: nat| #![trigger numbered_id(k)] k < next implies numbered_id(k) != numbered_id(next as nat) by {
        assert(issued(numbered_id(k), next));
        lemma_fresh(next, numbered_id(k));
    }
}

/// The body of an answer of the service.
#[derive(Clone, Debug, PartialEq, Eq)]
pub enum MockBody {
    /// `{ "error": ... }`
    Error(String),
    /// `{ "windows": [...] }`
    Windows(Vec<MockWindow>),
    /// `{ "booking_id", "window_ref", "state" }`
    Booking(BookingResponse),
    /// `{ "mime", "b64" }`
    Download(DownloadResponse),
}

/// An answer of the service: a status code and a JSON body.
#[derive(Clone, Debug, PartialEq, Eq)]
pub struct MockReply {
    pub status: u16,
    pub body: MockBody,
}

/// `r` is the error answer `status` with `{ "error": message }`.
pub open spec fn error_reply(r: MockReply, status: u16, message: Seq<char>) -> bool {
    &&& r.status == status
    &&& (r.body matches MockBody::Error(m) && m@ == message)
}

fn error_answer(status: u16, message: &str) -> (r: MockReply)
    ensures
        error_reply(r, status, message@),
{
    MockReply { status, body: MockBody::Error(String::from_str(message)) }
}

/// The text of the entropy beacon that booking `bk_done` serves.
pub open spec fn beacon_text() -> Seq<char> {
    "ORBITPORT-HELIOS-ENTROPY-BEACON!"@
}

/// `r` is the answer to `GET /v1/windows` for the header `auth`: every fixed
/// window, or 401 without the token.
pub open spec fn listing_outcome(auth: Option<Seq<char>>, r: MockReply) -> bool {
    if authorized(auth) {
        &&& r.status == 200
        &&& (r.body matches MockBody::Windows(ws) && ws@.len() == 4 && forall|i: int|
            0 <= i < 4 ==> window_fields(#[trigger] ws@[i]) == fixture_fields()[i])
    } else {
        error_reply(r, 401, "invalid or missing token"@)
    }
}

/// The answer to `GET /v1/windows` (its query is ignored).
pub fn list_windows(authorization: Option<&str>) -> (r: MockReply)
    ensures
        listing_outcome(header_view(authorization), r),
{
    if !is_authorized(authorization) {
        return error_answer(401, "invalid or missing token");
    }
    MockReply { status: 200, body: MockBody::Windows(window_fixtures()) }
}

/// `r` and the bookings `after` under next number `next_after` are the answer to
/// `POST /v1/bookings` for the header `auth` and `{ "window_ref": window_ref }`,
/// given the bookings `before` under next number `next_before`: 401 without the
/// token and 404 for a window that is not advertised, both leaving the bookings
/// and the number as they were; otherwise a new reserved booking of the window
/// under the next number, whose id was not in use, and the number moves on by
/// one.
pub open spec fn booking_outcome(
    before: Map<Seq<char>, (Seq<char>, BookingState)>,
    next_before: u64,
    after: Map<Seq<char>, (Seq<char>, BookingState)>,
    next_after: u64,
    auth: Option<Seq<char>>,
    window_ref: Seq<char>,
    r: MockReply,
) -> bool {
    if !authorized(auth) {
        &&& error_reply(r, 401, "invalid or missing token"@)
        &&& after == before
        &&& next_after == next_before
    } else if !fixture_refs().contains(window_ref) {
        &&& error_reply(r, 404, "unknown window_ref"@)
        &&& after == before
        &&& next_after == next_before
    } else {
        let id = numbered_id(next_before as nat);
        &&& !before.dom().contains(id)
        &&& after == before.insert(id, (window_ref, BookingState::Reserved))
        &&& next_after == next_before + 1
        &&& r.status == 200
        &&& (r.body matches MockBody::Booking(b) && b.booking_id@ == id && b.window_ref@ == window_ref
            && b.state@ == state_text(BookingState::Reserved))
    }
}

/// `r` is the answer to `GET /v1/bookings/{id}/download` for the header `auth`,
/// given the bookings `bookings`: 401 without the token, 404 for an unknown
/// booking, the base64 of the entropy beacon for a done booking, and 503 for any
/// other.
pub open spec fn download_outcome(
    bookings: Map<Seq<char>, (Seq<char>, BookingState)>,
    auth: Option<Seq<char>>,
    id: Seq<char>,
    r: MockReply,
) -> bool {
    if !authorized(auth) {
        error_reply(r, 401, "invalid or missing token"@)
    } else if !bookings.dom().contains(id) {
        error_reply(r, 404, "unknown booking"@)
    } else if bookings[id].1 == BookingState::Done {
        &&& r.status == 200
        &&& (r.body matches MockBody::Download(d) && d.mime@ == "application/octet-stream"@ && d.b64@
            == b64_standard_encode(encode_utf8(beacon_text())) && b64_standard_decode(d.b64@) == Some(
            encode_utf8(beacon_text()),
        ))
    } else {
        error_reply(r, 503, "payload not ready"@)
    }
}

/// The state of the Helios mock service: its bookings and the number of the next
/// one.
///
/// The bookings are a vector of (id, booking) entries with distinct ids, seen as
/// a map by `spec_bookings`. A `HashMap<String, _>` would carry no map view
/// here: vstd's `HashMap` specification needs `obeys_key_model` of the key type,
/// which it gives for integer and `bool` keys but not for `String`.
pub struct MockServer {
    bookings: Vec<(String, MockBooking)>,
    next_id: u64,
}

impl MockServer {
    #[verifier::type_invariant]
    closed spec fn well_formed(self) -> bool {
        &&& keys_distinct(self.bookings@)
        &&& reachable(entries_map(self.bookings@), self.next_id)
    }

    /// The bookings, keyed by id: the window each books and where it stands.
    pub closed spec fn spec_bookings(self) -> Map<Seq<char>, (Seq<char>, BookingState)> {
        entries_map(self.bookings@)
    }

    /// The number that the next booking gets.
    pub closed spec fn spec_next_id(self) -> u64 {
        self.next_id
    }

    /// The service at start: booking `bk_done` of window `w_1a2b` is done, and
    /// the next booking is numbered 77.
    pub fn new() -> (s: Self)
        ensures
            s.spec_bookings() == Map::<Seq<char>, (Seq<char>, BookingState)>::empty().insert(
                "bk_done"@,
                ("w_1a2b"@, BookingState::Done),
            ),
            s.spec_next_id() == 77,
            reachable(s.spec_bookings(), s.spec_next_id()),
    {
        let mut bookings: Vec<(String, MockBooking)> = Vec::new();
        bookings.push(
            (String::from_str("bk_done"), MockBooking { window_ref: String::from_str("w_1a2b"), state: BookingState::Done }),
        );
        let ghost m = Map::<Seq<char>, (Seq<char>, BookingState)>::empty().insert(
            "bk_done"@,
            ("w_1a2b"@, BookingState::Done),
        );
        assert(entries_map(bookings@.drop_last()) == Map::<Seq<char>, (Seq<char>, BookingState)>::empty());
        assert(entries_map(bookings@) =~= m);
        proof {
            reveal_strlit("w_1a2b");
            assert(fixture_refs()[0] == "w_1a2b"@);
        }
        MockServer { bookings, next_id: 77 }
    }

    /// The number that the next booking gets.
    pub fn next_booking_number(&self) -> (n: u64)
        ensures
            n == self.spec_next_id(),
            reachable(self.spec_bookings(), self.spec_next_id()),
    {
        proof {
            use_type_invariant(self);
        }
        self.next_id
    }

    fn find(&self, id: &str) -> (i: Option<usize>)
        ensures
            match i {
                Some(i) => i < self.bookings@.len() && self.bookings@[i as int].0@ == id@,
                None => forall|j: int| 0 <= j < self.bookings@.len() ==> #[trigger] self.bookings@[j].0@ != id@,
            },
    {
        let target = String::from_str(id);
        let n = self.bookings.len();
        for i in 0..n
            invariant
                n == self.bookings@.len(),
                target@ == id@,
                forall|j: int| 0 <= j < i ==> #[trigger] self.bookings@[j].0@ != id@,
        {
            if self.bookings[i].0 == target {
                return Some(i);
            }
        }
        None
    }

    /// The answer to `POST /v1/bookings` with `{ "window_ref": window_ref }`
    /// (`""` where the body has no such string), and the bookings after it.
    pub fn create_booking(&mut self, authorization: Option<&str>, window_ref: &str) -> (r: MockReply)
        requires
            authorized(header_view(authorization)) && fixture_refs().contains(window_ref@)
                ==> old(self).spec_next_id() < u64::MAX,
        ensures
            booking_outcome(
                old(self).spec_bookings(),
                old(self).spec_next_id(),
                final(self).spec_bookings(),
                final(self).spec_next_id(),
                header_view(authorization),
                window_ref@,
                r,
            ),
            reachable(final(self).spec_bookings(), final(self).spec_next_id()),
    {
        proof {
            use_type_invariant(&*self);
        }
        if !is_authorized(authorization) {
            return error_answer(401, "invalid or missing token");
        }
        if !window_exists(window_ref) {
            return error_answer(404, "unknown window_ref");
        }
        let ghost before = self.bookings@;
        let ghost m = entries_map(before);
        let number = self.next_id;
        let id = booking_id(number);
        let ghost nid = numbered_id(number as nat);
        let ghost after = m.insert(nid, (window_ref@, BookingState::Reserved));
        proof {
            lemma_entries(before);
            lemma_reachable_fresh(m, number);
            assert forall|i: int| 0 <= i < before.len() implies #[trigger] before[i].0@ != id@ by {
                assert(m.dom().contains(before[i].0@));
            }
            // The bookings after the new one are reachable under the next number.
            assert(after["bk_done"@] == m["bk_done"@]);
            assert forall|k: nat| #![trigger numbered_id(k)] 77 <= k < number + 1 implies after.dom().contains(
                numbered_id(k),
            ) && after[numbered_id(k)].1 == BookingState::Reserved && fixture_refs().contains(
                after[numbered_id(k)].0,
            ) by {
                if k < number {
                    assert(numbered_id(k) != nid);
                }
            }
            assert forall|x: Seq<char>| #[trigger] after.dom().contains(x) implies x == "bk_done"@ || exists|k: nat|
                77 <= k < number + 1 && x == #[trigger] numbered_id(k) by {
                if x != nid && x != "bk_done"@ {
                    assert(m.dom().contains(x));
                    let k = choose|k: nat| 77 <= k < number && x == #[trigger] numbered_id(k);
                    assert(77 <= k < number + 1);
                } else if x == nid {
                    assert(77 <= number < number + 1);
                }
            }
            assert(reachable(after, (number + 1) as u64));
        }
        let entry = (id.clone(), MockBooking { window_ref: String::from_str(window_ref), state: BookingState::Reserved });
        // Take the state out, leaving a fresh service in its place, so that no
        // field is changed in place.
        let mut taken = MockServer::new();
        std::mem::swap(&mut taken, self);
        let MockServer { bookings: mut bookings, next_id: _ } = taken;
        assert(bookings@ == before);
        bookings.push(entry);
        proof {
            assert(bookings@.drop_last() =~= before);
            assert(entries_map(bookings@) == after);
            assert(keys_distinct(bookings@)) by {
                assert forall|i: int, j: int| 0 <= i < j < bookings@.len() implies bookings@[i].0@
                    != bookings@[j].0@ by {
                    if j < before.len() {
                        assert(bookings@[i] == before[i] && bookings@[j] == before[j]);
                    } else {
                        assert(bookings@[i] == before[i]);
                    }
                }
            }
        }
        *self = MockServer { bookings, next_id: number + 1 };
        let state = BookingState::Reserved.wire_name();
        MockReply {
            status: 200,
            body: MockBody::Booking(BookingResponse {
                booking_id: id,
                window_ref: String::from_str(window_ref),
                state: String::from_str(state),
            }),
        }
    }

    /// The answer to `GET /v1/bookings/{id}/download`.
    pub fn download(&self, authorization: Option<&str>, id: &str) -> (r: MockReply)
        ensures
            download_outcome(self.spec_bookings(), header_view(authorization), id@, r),
            reachable(self.spec_bookings(), self.spec_next_id()),
    {
        proof {
            use_type_invariant(self);
        }
        if !is_authorized(authorization) {
            return error_answer(401, "invalid or missing token");
        }
        proof {
            lemma_entries(self.bookings@);
        }
        match self.find(id) {
            None => error_answer(404, "unknown booking"),
            Some(i) => {
                if self.bookings[i].1.state == BookingState::Done {
                    let beacon = "ORBITPORT-HELIOS-ENTROPY-BEACON!";
                    let b64 = encode_b64_standard(beacon.as_bytes());
                    MockReply {
                        status: 200,
                        body: MockBody::Download(DownloadResponse {
                            mime: String::from_str("application/octet-stream"),
                            b64,
                        }),
                    }
                } else {
                    error_answer(503, "payload not ready")
                }
            },
        }
    }
}

} // verus!
