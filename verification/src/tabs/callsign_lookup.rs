//! The callsign lookup tab: turning HamDB and HamQTH answers into callsign
//! information, the requests sent to both services, the cached HamQTH
//! session, and the order in which the services are asked.

use vstd::prelude::*;
use crate::text::{push_str, chars_of};
use crate::callsign_text::{
    collapse_whitespace, spec_collapse, ascii_uppercase, spec_ascii_uppercase, hamqth_city_state, spec_hamqth_city_state,
    spec_word, lemma_three_words_collapsed, law_collapse_keeps_collapsed,
};
use crate::dates::{parse_us_date, format_iso_date, spec_us_date, spec_iso_date, spec_valid_date};
use crate::pskreporter::str_equal;
use crate::types::Event;

verus! {

/// The HamDB API response
#[derive(Debug, Clone, Default)]
pub struct HamDBResponse {
    pub callsign: String,
    pub class: String,
    pub expires: String,
    pub status: String,
    pub grid: String,
    pub lat: String,
    pub lon: String,
    pub first_name: String,
    pub middle_name: String,
    pub last_name: String,
    pub suffix: String,
    pub address1: String,
    pub address2: String,
    pub state: String,
    pub zip: String,
    pub country: String,
}

/// The HamQTH API response
#[derive(Debug, Clone, Default)]
pub struct HamQTHResponse {
    pub callsign: String,
    pub nickname: String,
    pub qth: String,
    pub country: String,
    pub adif: String,
    pub itu: String,
    pub cq: String,
    pub grid: String,
    pub address_name: String,
    pub address1: String,
    pub address2: String,
    pub address3: String,
    pub address_city_state: String,
    pub address_zip: String,
    pub address_country: String,
    pub address_adif: String,
    pub district: String,
    pub us_state: String,
    pub us_county: String,
    pub oblast: String,
    pub dok: String,
    pub iota: String,
    pub qsl_via: String,
    pub lotw: String,
    pub eqsl: String,
    pub qsl: String,
    pub qsldirect: String,
    pub email: String,
    pub jabber: String,
    pub icq: String,
    pub msn: String,
    pub skype: String,
    pub birth_year: String,
    pub licensed_since_year: String,
    pub picture: String,
    pub lat: String,
    pub lon: String,
    pub continent: String,
    pub utc_offset: String,
    pub facebook: String,
    pub twitter: String,
    pub gplus: String,
    pub youtube: String,
    pub linkedin: String,
    pub flicker: String,
    pub vimeo: String,
}

/// Information about a callsign. The station's latitude and longitude are
/// kept as the text the service sent.
#[derive(Debug, Clone, Default)]
pub struct CallsignInformation {
    /// The callsign of the operator
    pub callsign: String,
    /// The name of the operator
    pub name: String,
    /// The grid square locator of the station
    pub grid: String,
    /// The latitude of the station, as sent
    pub lat: String,
    /// The longitude of the station, as sent
    pub lon: String,
    /// The country of the operator
    pub country: String,
    /// The street address of the operator
    pub address: String,
    /// The city and state of the operator
    pub city_state: String,
    /// The license class of the operator
    pub class: String,
    /// The expiration date of the operator's license
    pub expires: String,
}

/// The callsign information as text, field by field.
pub open spec fn spec_info_fields(i: CallsignInformation) -> Seq<Seq<char>> {
    seq![i.callsign@, i.name@, i.grid@, i.lat@, i.lon@, i.country@, i.address@, i.city_state@, i.class@, i.expires@]
}

/// Errors regarding the callsign lookup module
#[derive(Debug, Clone)]
pub enum Error {
    /// The request failed; the text describes why.
    FailedRequest(String),
    /// The response body was invalid
    InvalidResponseBody,
    /// Couldn't find the callsign
    CallsignNotFound,
    /// Failed to renew HamQTH session ID, is your username and password correct?
    HamQTHAuthFailure,
}

/// The licence class spelled out; `unknown_if_empty` selects whether an
/// empty class reads `Unknown`.
pub open spec fn spec_class_name(class: Seq<char>, unknown_if_empty: bool) -> Seq<char> {
    if unknown_if_empty && class.len() == 0 {
        "Unknown"@
    } else if class == "N"@ {
        "Novice"@
    } else if class == "T"@ {
        "Technician"@
    } else if class == "G"@ {
        "General"@
    } else if class == "E"@ {
        "Extra"@
    } else {
        class
    }
}

fn owned(s: &str) -> (r: String)
    ensures
        r@ == s@,
{
    let mut r = String::new();
    push_str(&mut r, s);
    assert(r@ =~= s@);
    r
}

/// Spells out a licence class letter.
pub fn class_name(class: &str, unknown_if_empty: bool) -> (r: String)
    ensures
        r@ == spec_class_name(class@, unknown_if_empty),
{
    let v = chars_of(class);
    if unknown_if_empty && v.len() == 0 {
        return owned("Unknown");
    }
    if str_equal(class, "N") {
        owned("Novice")
    } else if str_equal(class, "T") {
        owned("Technician")
    } else if str_equal(class, "G") {
        owned("General")
    } else if str_equal(class, "E") {
        owned("Extra")
    } else {
        owned(class)
    }
}

/// The licence expiry as `YYYY-MM-DD` when the service sent a date in
/// `MM/DD/YYYY` form (`parsed`), otherwise the text as sent, or `Unknown`
/// for an empty text when `unknown_if_empty`.
pub open spec fn spec_license_expiry(expires: Seq<char>, parsed: Option<(i32, u32, u32)>, unknown_if_empty: bool) -> Seq<char> {
    match parsed {
        Some(d) => spec_iso_date(d.0, d.1, d.2),
        None => if unknown_if_empty && expires.len() == 0 {
            "Unknown"@
        } else {
            expires
        },
    }
}

/// Writes the licence expiry, given the date parsed from it, if any.
pub fn license_expiry(expires: &str, parsed: Option<(i32, u32, u32)>, unknown_if_empty: bool) -> (r: String)
    requires
        parsed matches Some(d) ==> spec_valid_date(d.0, d.1, d.2),
    ensures
        r@ == spec_license_expiry(expires@, parsed, unknown_if_empty),
{
    match parsed {
        Some((y, m, d)) => format_iso_date(y, m, d),
        None => {
            let v = chars_of(expires);
            if unknown_if_empty && v.len() == 0 {
                owned("Unknown")
            } else {
                owned(expires)
            }
        },
    }
}

/// The callsign information that a HamDB record gives.
pub open spec fn spec_hamdb_information(r: HamDBResponse, unknown_if_empty: bool) -> Seq<Seq<char>> {
    seq![
        r.callsign@,
        spec_collapse(r.first_name@ + " "@ + r.middle_name@ + " "@ + r.last_name@),
        spec_ascii_uppercase(r.grid@),
        r.lat@,
        r.lon@,
        r.country@,
        spec_collapse(r.address1@),
        spec_collapse(r.address2@ + ", "@ + r.state@),
        spec_class_name(r.class@, unknown_if_empty),
        spec_license_expiry(r.expires@, spec_us_date(r.expires@), unknown_if_empty),
    ]
}

/// The callsign information that a HamQTH record gives.
pub open spec fn spec_hamqth_information(r: HamQTHResponse) -> Seq<Seq<char>> {
    seq![
        spec_ascii_uppercase(r.callsign@),
        if r.address_name@.len() > 0 { r.address_name@ } else { r.nickname@ },
        spec_ascii_uppercase(r.grid@),
        r.lat@,
        r.lon@,
        if r.country@.len() > 0 {
            r.country@
        } else if r.address_country@.len() > 0 {
            r.address_country@
        } else {
            r.continent@
        },
        if r.address1@.len() > 0 { r.address1@ } else { "Unavailable"@ },
        spec_hamqth_city_state(r.address_city_state@),
        "Unknown"@,
        "Unknown"@,
    ]
}

/// The name of a HamDB record whose first, middle and last names are one
/// word each is those words in that order, `FIRST MIDDLE LAST`, one space
/// apart.
pub proof fn law_hamdb_name_order(r: HamDBResponse, unknown_if_empty: bool, info: CallsignInformation)
    requires
        spec_info_fields(info) == spec_hamdb_information(r, unknown_if_empty),
        spec_word(r.first_name@),
        spec_word(r.middle_name@),
        spec_word(r.last_name@),
    ensures
        info.name@ == r.first_name@ + seq![' '] + r.middle_name@ + seq![' '] + r.last_name@,
{
    reveal_strlit(" ");
    assert(spec_info_fields(info)[1] == info.name@);
    let t = r.first_name@ + seq![' '] + r.middle_name@ + seq![' '] + r.last_name@;
    assert(r.first_name@ + " "@ + r.middle_name@ + " "@ + r.last_name@ =~= t);
    lemma_three_words_collapsed(r.first_name@, r.middle_name@, r.last_name@);
    law_collapse_keeps_collapsed(t);
}

/// The station's position is carried over as sent, field for field: the
/// latitude from the record's latitude and the longitude from its
/// longitude, from HamDB and from HamQTH alike.
pub proof fn law_position_carried_over(
    d: HamDBResponse,
    unknown_if_empty: bool,
    from_hamdb: CallsignInformation,
    q: HamQTHResponse,
    from_hamqth: CallsignInformation,
)
    requires
        spec_info_fields(from_hamdb) == spec_hamdb_information(d, unknown_if_empty),
        spec_info_fields(from_hamqth) == spec_hamqth_information(q),
    ensures
        from_hamdb.lat@ == d.lat@,
        from_hamdb.lon@ == d.lon@,
        from_hamqth.lat@ == q.lat@,
        from_hamqth.lon@ == q.lon@,
{
    assert(spec_info_fields(from_hamdb)[3] == from_hamdb.lat@);
    assert(spec_info_fields(from_hamdb)[4] == from_hamdb.lon@);
    assert(spec_info_fields(from_hamqth)[3] == from_hamqth.lat@);
    assert(spec_info_fields(from_hamqth)[4] == from_hamqth.lon@);
}

fn is_empty(s: &String) -> (r: bool)
    ensures
        r == (s@.len() == 0),
{
    let v = chars_of(s.as_str());
    v.len() == 0
}

impl HamDBResponse {
    /// Converts the record; `unknown_if_empty` makes an empty class or
    /// expiry read `Unknown`.
    pub fn to_information(&self, unknown_if_empty: bool) -> (info: CallsignInformation)
        ensures
            spec_info_fields(info) == spec_hamdb_information(*self, unknown_if_empty),
    {
        // Format the name into a pretty string `FIRST MIDDLE LAST`
        let mut full = String::new();
        push_str(&mut full, self.first_name.as_str());
        push_str(&mut full, " ");
        push_str(&mut full, self.middle_name.as_str());
        push_str(&mut full, " ");
        push_str(&mut full, self.last_name.as_str());
        let name = collapse_whitespace(full.as_str());
        let grid = ascii_uppercase(self.grid.as_str());
        let address = collapse_whitespace(self.address1.as_str());
        let mut cs = String::new();
        push_str(&mut cs, self.address2.as_str());
        push_str(&mut cs, ", ");
        push_str(&mut cs, self.state.as_str());
        let city_state = collapse_whitespace(cs.as_str());
        let class = class_name(self.class.as_str(), unknown_if_empty);
        let parsed = parse_us_date(self.expires.as_str());
        let expires = license_expiry(self.expires.as_str(), parsed, unknown_if_empty);
        let info = CallsignInformation {
            callsign: self.callsign.clone(),
            name,
            grid,
            lat: self.lat.clone(),
            lon: self.lon.clone(),
            country: self.country.clone(),
            address,
            city_state,
            class,
            expires,
        };
        assert(full@ =~= self.first_name@ + " "@ + self.middle_name@ + " "@ + self.last_name@);
        assert(cs@ =~= self.address2@ + ", "@ + self.state@);
        assert(spec_info_fields(info) =~= spec_hamdb_information(*self, unknown_if_empty));
        info
    }

    /// Converts the record into callsign information: the name as
    /// `FIRST MIDDLE LAST`, the grid in upper case, the address and
    /// city/state with their whitespace collapsed, the class spelled out
    /// and the expiry as `YYYY-MM-DD` where it can be read.
    pub fn to_callsign_information(&self) -> (info: CallsignInformation)
        ensures
            spec_info_fields(info) == spec_hamdb_information(*self, true),
    {
        self.to_information(true)
    }
}

impl HamQTHResponse {
    /// Converts the record into callsign information: the callsign and
    /// grid in upper case, the name or else the nickname, the first
    /// country given, the street address or `Unavailable`, the city/state
    /// rebuilt, and class and expiry `Unknown`.
    pub fn to_callsign_information(&self) -> (info: CallsignInformation)
        ensures
            spec_info_fields(info) == spec_hamqth_information(*self),
    {
        let callsign = ascii_uppercase(self.callsign.as_str());
        let name = if !is_empty(&self.address_name) { self.address_name.clone() } else { self.nickname.clone() };
        let grid = ascii_uppercase(self.grid.as_str());
        let country = if !is_empty(&self.country) {
            self.country.clone()
        } else if !is_empty(&self.address_country) {
            self.address_country.clone()
        } else {
            self.continent.clone()
        };
        let address = if !is_empty(&self.address1) { self.address1.clone() } else { owned("Unavailable") };
        let city_state = hamqth_city_state(self.address_city_state.as_str());
        let info = CallsignInformation {
            callsign,
            name,
            grid,
            lat: self.lat.clone(),
            lon: self.lon.clone(),
            country,
            address,
            city_state,
            class: owned("Unknown"),
            expires: owned("Unknown"),
        };
        assert(spec_info_fields(info) =~= spec_hamqth_information(*self));
        info
    }
}

/// The HamDB URL that looks up `callsign` on behalf of `program`.
pub open spec fn spec_hamdb_url(callsign: Seq<char>, program: Seq<char>) -> Seq<char> {
    "https://api.hamdb.org/"@ + callsign + "/json/"@ + program
}

/// The HamQTH URL that looks up `callsign` in session `session_id` on
/// behalf of `program`.
pub open spec fn spec_hamqth_url(session_id: Seq<char>, callsign: Seq<char>, program: Seq<char>) -> Seq<char> {
    "https://hamqth.com/xml.php?id="@ + session_id + "&callsign="@ + callsign + "&prg="@ + program
}

/// The HamQTH URL that opens a session for `username` and `password`.
pub open spec fn spec_hamqth_auth_url(username: Seq<char>, password: Seq<char>) -> Seq<char> {
    "https://hamqth.com/xml.php?u="@ + username + "&p="@ + password
}

/// The URL of a HamDB lookup.
pub fn hamdb_url(callsign: &str, program: &str) -> (r: String)
    ensures
        r@ == spec_hamdb_url(callsign@, program@),
{
    let mut r = String::new();
    push_str(&mut r, "https://api.hamdb.org/");
    push_str(&mut r, callsign);
    push_str(&mut r, "/json/");
    push_str(&mut r, program);
    assert(r@ =~= spec_hamdb_url(callsign@, program@));
    r
}

/// The URL of a HamQTH lookup.
pub fn hamqth_url(session_id: &str, callsign: &str, program: &str) -> (r: String)
    ensures
        r@ == spec_hamqth_url(session_id@, callsign@, program@),
{
    let mut r = String::new();
    push_str(&mut r, "https://hamqth.com/xml.php?id=");
    push_str(&mut r, session_id);
    push_str(&mut r, "&callsign=");
    push_str(&mut r, callsign);
    push_str(&mut r, "&prg=");
    push_str(&mut r, program);
    assert(r@ =~= spec_hamqth_url(session_id@, callsign@, program@));
    r
}

/// The answer to a HamDB lookup, given the `callsign` record of the
/// response (`None` where the response has none): the record's
/// information, unless its callsign reads `NOT_FOUND`.
pub open spec fn spec_hamdb_result(record: Option<HamDBResponse>) -> Result<Seq<Seq<char>>, Error> {
    match record {
        None => Err(Error::InvalidResponseBody),
        Some(r) => if r.callsign@ == "NOT_FOUND"@ {
            Err(Error::CallsignNotFound)
        } else {
            Ok(spec_hamdb_information(r, true))
        },
    }
}

/// Decides a HamDB lookup from the `callsign` record of the response.
pub fn hamdb_result(record: Option<HamDBResponse>) -> (r: Result<CallsignInformation, Error>)
    ensures
        match (r, spec_hamdb_result(record)) {
            (Ok(info), Ok(fields)) => spec_info_fields(info) == fields,
            (Err(Error::InvalidResponseBody), Err(Error::InvalidResponseBody)) => true,
            (Err(Error::CallsignNotFound), Err(Error::CallsignNotFound)) => true,
            _ => false,
        },
{
    match record {
        None => Err(Error::InvalidResponseBody),
        Some(data) => {
            if str_equal(data.callsign.as_str(), "NOT_FOUND") {
                Err(Error::CallsignNotFound)
            } else {
                Ok(data.to_callsign_information())
            }
        },
    }
}

/// What to do once HamDB has answered.
#[derive(Debug)]
pub enum LookupStep {
    /// The lookup is over, with this answer.
    Done(Result<CallsignInformation, Error>),
    /// Ask HamQTH, in this session.
    QueryHamQTH { session_id: String },
}

/// Decides the next step of a lookup: HamDB's information if it found the
/// callsign, otherwise HamQTH when a session is open, otherwise
/// `CallsignNotFound`.
pub fn after_hamdb(hamdb: Result<CallsignInformation, Error>, hamqth_session: Option<String>) -> (r: LookupStep)
    ensures
        hamdb is Ok ==> r == LookupStep::Done(hamdb),
        hamdb is Err ==> match hamqth_session {
            Some(id) => r == LookupStep::QueryHamQTH { session_id: id },
            None => r matches LookupStep::Done(Err(Error::CallsignNotFound)),
        },
{
    match hamdb {
        Ok(info) => LookupStep::Done(Ok(info)),
        Err(_) => match hamqth_session {
            Some(id) => LookupStep::QueryHamQTH { session_id: id },
            None => LookupStep::Done(Err(Error::CallsignNotFound)),
        },
    }
}

/// The callsign that a tab starts looking up on `event`: the one that a
/// callsign lookup request carries, when no lookup of the tab's own is
/// running; no lookup otherwise.
pub fn lookup_to_start(event: &Event, task_running: bool) -> (r: Option<String>)
    ensures
        match *event {
            Event::LookupCallsign(c) => if task_running {
                r is None
            } else {
                r matches Some(s) && s@ == c@
            },
            _ => r is None,
        },
{
    match event {
        Event::LookupCallsign(c) => if task_running {
            None
        } else {
            Some(c.clone())
        },
        _ => None,
    }
}

/// How long a HamQTH session is reused, in seconds (45 minutes).
pub const SESSION_LIFETIME: u64 = 2_700;

/// The callsign lookup module config
#[derive(Debug)]
pub struct Config {
    /// The username to use with the HamQTH API
    pub username: String,
    /// The password to use with the HamQTH API
    pub password: String,
    /// The HamQTH session: when it was opened (seconds since the epoch) and
    /// its ID.
    pub hamqth_session_id: (u64, String),
}

/// What getting a HamQTH session ID needs to do.
#[derive(Debug, Clone)]
pub enum SessionStep {
    /// No session can be had: the credentials are missing.
    Fail(Error),
    /// The cached session ID is still fresh.
    Cached,
    /// A new session must be opened at this URL.
    Renew { url: String },
}

/// The kinds of [`SessionStep`].
#[derive(Debug, Clone, Copy, PartialEq, Eq, Structural)]
pub enum SessionDecision {
    Fail,
    Cached,
    Renew,
}

/// The kind of step that getting a session ID takes at `now`.
pub open spec fn spec_session_step(c: Config, now: u64) -> SessionDecision {
    if c.username@.len() == 0 || c.password@.len() == 0 {
        SessionDecision::Fail
    } else if now - c.hamqth_session_id.0 > SESSION_LIFETIME {
        SessionDecision::Renew
    } else {
        SessionDecision::Cached
    }
}

impl Config {
    /// Well-formedness: a session that has been opened (at a time after
    /// the epoch) has a non-empty ID.
    pub open spec fn wf(&self) -> bool {
        self.hamqth_session_id.0 == 0 || self.hamqth_session_id.1@.len() > 0
    }
}

impl Default for Config {
    /// No credentials, and a session ID that was never opened.
    fn default() -> (c: Config)
        ensures
            c.wf(),
            c.username@.len() == 0,
            c.password@.len() == 0,
            c.hamqth_session_id.0 == 0,
            c.hamqth_session_id.1@.len() == 0,
    {
        Config { username: String::new(), password: String::new(), hamqth_session_id: (0, String::new()) }
    }
}

impl Config {
    /// Decides how to get a HamQTH session ID at `epoch_now` (seconds since
    /// the epoch): fail without credentials, reuse the cached ID for 45
    /// minutes after it was opened, otherwise open a new session.
    pub fn session_step(&self, epoch_now: u64) -> (r: SessionStep)
        requires
            epoch_now >= self.hamqth_session_id.0,
        ensures
            match (r, spec_session_step(*self, epoch_now)) {
                (SessionStep::Fail(Error::HamQTHAuthFailure), SessionDecision::Fail) => true,
                (SessionStep::Cached, SessionDecision::Cached) => true,
                (SessionStep::Renew { url }, SessionDecision::Renew) => url@ == spec_hamqth_auth_url(
                    self.username@,
                    self.password@,
                ),
                _ => false,
            },
    {
        if is_empty(&self.username) || is_empty(&self.password) {
            return SessionStep::Fail(Error::HamQTHAuthFailure);
        }
        if epoch_now - self.hamqth_session_id.0 > SESSION_LIFETIME {
            let mut url = String::new();
            push_str(&mut url, "https://hamqth.com/xml.php?u=");
            push_str(&mut url, self.username.as_str());
            push_str(&mut url, "&p=");
            push_str(&mut url, self.password.as_str());
            assert(url@ =~= spec_hamqth_auth_url(self.username@, self.password@));
            SessionStep::Renew { url }
        } else {
            SessionStep::Cached
        }
    }

    /// Takes the answer to a session request made at `epoch_now`: the
    /// session ID read from it, or `None` where it could not be read. An
    /// unreadable or empty ID is an authentication failure; otherwise the
    /// ID is cached with the time and returned.
    pub fn accept_session(&mut self, epoch_now: u64, session_id: Option<String>) -> (r: Result<String, Error>)
        ensures
            match session_id {
                Some(id) if id@.len() > 0 => {
                    &&& r matches Ok(s) && s@ == id@
                    &&& final(self).hamqth_session_id.0 == epoch_now
                    &&& final(self).hamqth_session_id.1@ == id@
                    &&& final(self).username == old(self).username
                    &&& final(self).password == old(self).password
                },
                _ => {
                    &&& r matches Err(Error::HamQTHAuthFailure)
                    &&& *final(self) == *old(self)
                },
            },
            old(self).wf() ==> final(self).wf(),
    {
        match session_id {
            Some(id) => {
                if is_empty(&id) {
                    return Err(Error::HamQTHAuthFailure);
                }
                let out = id.clone();
                self.hamqth_session_id = (epoch_now, id);
                Ok(out)
            },
            None => Err(Error::HamQTHAuthFailure),
        }
    }

    /// The cached HamQTH session ID.
    pub fn session_id(&self) -> (r: &str)
        ensures
            r@ == self.hamqth_session_id.1@,
    {
        self.hamqth_session_id.1.as_str()
    }
}

/// A session opened at `t` is reused, not renewed, at any time up to 45
/// minutes later, and the ID handed out is the one it was opened with.
pub proof fn law_session_reused(before: Config, after: Config, opened_at: u64, id: Seq<char>, later: u64)
    requires
        before.username@.len() > 0,
        before.password@.len() > 0,
        after.username == before.username,
        after.password == before.password,
        after.hamqth_session_id.0 == opened_at,
        after.hamqth_session_id.1@ == id,
        opened_at <= later <= opened_at + SESSION_LIFETIME,
    ensures
        spec_session_step(after, later) is Cached,
        after.hamqth_session_id.1@ == id,
{
}

/// With a well-formed config, a cached session that is reused once 45
/// minutes past the epoch have gone by hands out a non-empty ID.
pub proof fn law_cached_session_nonempty(c: Config, now: u64)
    requires
        c.wf(),
        now > SESSION_LIFETIME,
        now >= c.hamqth_session_id.0,
        spec_session_step(c, now) is Cached,
    ensures
        c.hamqth_session_id.1@.len() > 0,
{
}

} // verus!

