use qlog::callsign_lookup::{query_hamdb, CallsignLookupError};
use qlog::callsign_text::{ascii_uppercase, collapse_whitespace, hamqth_city_state};
use qlog::tabs::callsign_lookup::{
    after_hamdb, class_name, hamdb_result, hamdb_url, hamqth_url, license_expiry, lookup_to_start,
    CallsignInformation, Config, Error, HamDBResponse, HamQTHResponse, LookupStep, SessionStep, SESSION_LIFETIME,
};
use qlog::types::Event;

fn hamdb_record() -> HamDBResponse {
    HamDBResponse {
        callsign: "W1AW".to_string(),
        class: "E".to_string(),
        expires: "01/15/2030".to_string(),
        status: "A".to_string(),
        grid: "fn31pr".to_string(),
        lat: "41.714775".to_string(),
        lon: "-72.727260".to_string(),
        first_name: "Hiram ".to_string(),
        middle_name: "".to_string(),
        last_name: " Maxim".to_string(),
        suffix: "".to_string(),
        address1: "225  Main   Street".to_string(),
        address2: "Newington".to_string(),
        state: "CT".to_string(),
        zip: "06111".to_string(),
        country: "United States".to_string(),
    }
}

#[test]
fn whitespace_is_collapsed() {
    assert_eq!(collapse_whitespace("  a   b\t c \n"), "a b c");
    assert_eq!(collapse_whitespace("   "), "");
    assert_eq!(collapse_whitespace("word"), "word");
}

#[test]
fn collapse_is_idempotent_on_example() {
    let once = collapse_whitespace(" x  y ");
    assert_eq!(collapse_whitespace(&once), once);
}

#[test]
fn ascii_letters_are_uppercased() {
    assert_eq!(ascii_uppercase("fn31pr"), "FN31PR");
    assert_eq!(ascii_uppercase("ßé-a"), "ßé-A");
}

#[test]
fn hamqth_city_state_puts_comma_before_state() {
    assert_eq!(hamqth_city_state("Springfield  IL"), "Springfield, IL");
    assert_eq!(hamqth_city_state("New York,NY"), "New, YorkNY");
    assert_eq!(hamqth_city_state("New York, NY"), "New York, NY");
    assert_eq!(hamqth_city_state("Paris"), "Paris");
    assert_eq!(hamqth_city_state(""), "");
}

#[test]
fn hamqth_city_state_removes_every_comma() {
    assert_eq!(hamqth_city_state("Denver, CO, USA"), "Denver CO, USA");
    assert_eq!(hamqth_city_state("a,b,c"), "abc");
    assert_eq!(hamqth_city_state("A,,"), "A");
    assert_eq!(hamqth_city_state(",,,"), "");
}

#[test]
fn class_names() {
    assert_eq!(class_name("N", true), "Novice");
    assert_eq!(class_name("T", true), "Technician");
    assert_eq!(class_name("G", false), "General");
    assert_eq!(class_name("E", false), "Extra");
    assert_eq!(class_name("X", true), "X");
    assert_eq!(class_name("", true), "Unknown");
    assert_eq!(class_name("", false), "");
}

#[test]
fn licence_expiry_text() {
    assert_eq!(license_expiry("01/15/2030", Some((2030, 1, 15)), true), "2030-01-15");
    assert_eq!(license_expiry("soon", None, true), "soon");
    assert_eq!(license_expiry("", None, true), "Unknown");
    assert_eq!(license_expiry("", None, false), "");
}

#[test]
fn hamdb_record_converts() {
    let info: CallsignInformation = hamdb_record().to_callsign_information();
    assert_eq!(info.callsign, "W1AW");
    assert_eq!(info.name, "Hiram Maxim");
    assert_eq!(info.grid, "FN31PR");
    assert_eq!(info.lat, "41.714775");
    assert_eq!(info.lon, "-72.727260");
    assert_eq!(info.country, "United States");
    assert_eq!(info.address, "225 Main Street");
    assert_eq!(info.city_state, "Newington, CT");
    assert_eq!(info.class, "Extra");
    assert_eq!(info.expires, "2030-01-15");
}

#[test]
fn hamdb_record_with_unreadable_expiry_keeps_text() {
    let mut r = hamdb_record();
    r.expires = "2030-01-15".to_string();
    r.class = "".to_string();
    let info = r.to_callsign_information();
    assert_eq!(info.expires, "2030-01-15");
    assert_eq!(info.class, "Unknown");
    let legacy = r.to_information(false);
    assert_eq!(legacy.class, "");
}

#[test]
fn hamqth_record_converts() {
    let r = HamQTHResponse {
        callsign: "ok2cqr".to_string(),
        nickname: "Petr".to_string(),
        grid: "jo70gg".to_string(),
        address_city_state: "Prague  10".to_string(),
        continent: "EU".to_string(),
        lat: "50.1".to_string(),
        lon: "14.4".to_string(),
        ..Default::default()
    };
    let info = r.to_callsign_information();
    assert_eq!(info.callsign, "OK2CQR");
    assert_eq!(info.name, "Petr");
    assert_eq!(info.grid, "JO70GG");
    assert_eq!(info.country, "EU");
    assert_eq!(info.address, "Unavailable");
    assert_eq!(info.city_state, "Prague, 10");
    assert_eq!(info.class, "Unknown");
    assert_eq!(info.expires, "Unknown");
}

#[test]
fn hamqth_prefers_name_and_country() {
    let r = HamQTHResponse {
        callsign: "OK2CQR".to_string(),
        nickname: "Petr".to_string(),
        address_name: "Petr Hlozek".to_string(),
        country: "Czech Republic".to_string(),
        address_country: "CZ".to_string(),
        address1: "Street 1".to_string(),
        ..Default::default()
    };
    let info = r.to_callsign_information();
    assert_eq!(info.name, "Petr Hlozek");
    assert_eq!(info.country, "Czech Republic");
    assert_eq!(info.address, "Street 1");
    let r2 = HamQTHResponse { address_country: "CZ".to_string(), continent: "EU".to_string(), ..Default::default() };
    assert_eq!(r2.to_callsign_information().country, "CZ");
}

#[test]
fn lookup_urls() {
    assert_eq!(hamdb_url("W1AW", "qlog"), "https://api.hamdb.org/W1AW/json/qlog");
    assert_eq!(hamqth_url("abc", "OK2CQR", "qlog"), "https://hamqth.com/xml.php?id=abc&callsign=OK2CQR&prg=qlog");
}

#[test]
fn hamdb_results() {
    assert!(matches!(hamdb_result(None), Err(Error::InvalidResponseBody)));
    let mut nf = hamdb_record();
    nf.callsign = "NOT_FOUND".to_string();
    assert!(matches!(hamdb_result(Some(nf)), Err(Error::CallsignNotFound)));
    let ok = hamdb_result(Some(hamdb_record())).unwrap();
    assert_eq!(ok.class, "Extra");
}

#[test]
fn legacy_hamdb_query_results() {
    assert_eq!(query_hamdb(None).unwrap_err(), CallsignLookupError::InvalidResponse);
    let mut nf = hamdb_record();
    nf.callsign = "NOT_FOUND".to_string();
    assert_eq!(query_hamdb(Some(nf)).unwrap_err(), CallsignLookupError::CallsignNotFound);
    let mut r = hamdb_record();
    r.class = "".to_string();
    r.expires = "".to_string();
    let info = query_hamdb(Some(r)).unwrap();
    assert_eq!(info.class, "");
    assert_eq!(info.expires, "");
    assert_eq!(info.name, "Hiram Maxim");
}

#[test]
fn legacy_error_messages() {
    assert_eq!(CallsignLookupError::FailedRequest.message(), "The request failed");
    assert_eq!(CallsignLookupError::InvalidResponse.message(), "The response body was invalid");
    assert_eq!(CallsignLookupError::CallsignNotFound.message(), "Couldn't find the callsign");
}

#[test]
fn lookup_falls_back_to_hamqth() {
    match after_hamdb(Err(Error::CallsignNotFound), Some("sid".to_string())) {
        LookupStep::QueryHamQTH { session_id } => assert_eq!(session_id, "sid"),
        other => panic!("unexpected step {:?}", other),
    }
    assert!(matches!(after_hamdb(Err(Error::InvalidResponseBody), None), LookupStep::Done(Err(Error::CallsignNotFound))));
    let info = hamdb_record().to_callsign_information();
    match after_hamdb(Ok(info), Some("sid".to_string())) {
        LookupStep::Done(Ok(i)) => assert_eq!(i.callsign, "W1AW"),
        other => panic!("unexpected step {:?}", other),
    }
}

#[test]
fn lookup_starts_only_on_request_when_idle() {
    assert_eq!(lookup_to_start(&Event::LookupCallsign("W1AW".to_string()), false), Some("W1AW".to_string()));
    assert_eq!(lookup_to_start(&Event::LookupCallsign("W1AW".to_string()), true), None);
    assert_eq!(lookup_to_start(&Event::RefreshContacts, false), None);
}

#[test]
fn session_needs_credentials() {
    let c = Config::default();
    assert!(matches!(c.session_step(100), SessionStep::Fail(Error::HamQTHAuthFailure)));
}

#[test]
fn session_is_reused_for_its_lifetime() {
    let mut c = Config { username: "user".to_string(), password: "pass".to_string(), hamqth_session_id: (0, String::new()) };
    match c.session_step(SESSION_LIFETIME + 1) {
        SessionStep::Renew { url } => assert_eq!(url, "https://hamqth.com/xml.php?u=user&p=pass"),
        other => panic!("unexpected step {:?}", other),
    }
    assert_eq!(c.accept_session(5_000, Some("sid-1".to_string())).unwrap(), "sid-1");
    assert_eq!(c.session_id(), "sid-1");
    assert!(matches!(c.session_step(5_000 + SESSION_LIFETIME), SessionStep::Cached));
    assert!(matches!(c.session_step(5_000 + SESSION_LIFETIME + 1), SessionStep::Renew { .. }));
}

#[test]
fn empty_or_missing_session_is_an_auth_failure() {
    let mut c = Config { username: "u".to_string(), password: "p".to_string(), hamqth_session_id: (7, "old".to_string()) };
    assert!(matches!(c.accept_session(10, Some(String::new())), Err(Error::HamQTHAuthFailure)));
    assert!(matches!(c.accept_session(10, None), Err(Error::HamQTHAuthFailure)));
    assert_eq!(c.hamqth_session_id.0, 7);
    assert_eq!(c.session_id(), "old");
}
