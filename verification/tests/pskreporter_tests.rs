use qlog::maidenhead::grid_to_lat_lon;
use qlog::pskreporter::{
    classify_failure, direction_label, is_decodable_grid, is_jsonp_cuttable, jsonp_body, str_equal, strip_jsonp, unwrap_response, ApiQueryBuilder, Band, Last,
    MapMarker, Mode, ReceptionReport, ResponseFailure, SearchForm, RATE_LIMIT_MESSAGE,
};
use rand::rngs::SmallRng;
use rand::SeedableRng;

fn pairs(q: &[(String, String)]) -> Vec<(&str, &str)> {
    q.iter().map(|(k, v)| (k.as_str(), v.as_str())).collect()
}

fn report(rx_call: &str, rx_grid: &str, tx_call: &str, tx_grid: &str) -> ReceptionReport {
    ReceptionReport {
        rx_callsign: rx_call.to_string(),
        rx_grid: rx_grid.to_string(),
        tx_callsign: tx_call.to_string(),
        tx_grid: tx_grid.to_string(),
        frequency: 14_074_000,
        time: 1_700_000_000,
        mode: "FT8".to_string(),
        snr: -12,
    }
}

#[test]
fn band_ranges_and_names() {
    assert_eq!(Band::All.freq_range(), None);
    assert_eq!(Band::B40m.freq_range(), Some((7_000_000, 7_300_000)));
    assert_eq!(Band::F76GHZ.freq_range(), Some((76_000_000_000, 81_000_000_000)));
    assert_eq!(Band::B1_25M.as_str(), "1.25M");
    assert_eq!(Band::All.as_str(), "All");
    assert_eq!(Band::all().len(), 26);
    assert_eq!(Band::all()[0], Band::All);
}

#[test]
fn mode_strings() {
    assert_eq!(Mode::All.mode_string(), None);
    assert_eq!(Mode::FT8.mode_string(), Some("FT8"));
    assert_eq!(Mode::WSPR.as_str(), "WSPR");
    assert_eq!(Mode::all().len(), 7);
}

#[test]
fn last_durations() {
    assert_eq!(Last::Minutes15.as_duration(), 900);
    assert_eq!(Last::Hours24.as_duration(), 86_400);
    assert_eq!(Last::Hours1.as_str(), "1 Hour");
    assert_eq!(Last::Minutes30.as_str(), "30 Minutes");
    assert_eq!(Last::all().len(), 8);
}

#[test]
fn received_by_query_parameters() {
    let q = ApiQueryBuilder::received_by_query("K1ABC", Band::B40m, Mode::FT8, Last::Minutes15);
    assert_eq!(
        pairs(&q.query),
        vec![
            ("mode", "FT8"),
            ("flowStartSeconds", "-900"),
            ("rronly", "1"),
            ("receiverCallsign", "K1ABC"),
            ("frange", "7000000-7300000"),
        ]
    );
}

#[test]
fn sent_by_query_without_filters() {
    let q = ApiQueryBuilder::sent_by_query("W1AW", Band::All, Mode::All, Last::Hours24);
    assert_eq!(
        pairs(&q.query),
        vec![("flowStartSeconds", "-86400"), ("rronly", "1"), ("senderCallsign", "W1AW")]
    );
}

#[test]
fn params_end_with_json_callback() {
    let q = ApiQueryBuilder::sent_by_query("W1AW", Band::All, Mode::All, Last::Hours1);
    let p = q.into_params();
    assert_eq!(p.last().map(|(k, v)| (k.as_str(), v.as_str())), Some(("callback", "doNothing")));
    assert_eq!(p.len(), 4);
}

#[test]
fn query_url_constant() {
    assert_eq!(ApiQueryBuilder::URL, "https://retrieve.pskreporter.info/query");
}

#[test]
fn search_form_defaults() {
    let f = SearchForm::default();
    assert_eq!(f.callsign, "");
    assert!(!f.sent_by);
    assert_eq!(f.band, Band::All);
    assert_eq!(f.mode, Mode::All);
    assert_eq!(f.last, Last::Minutes15);
}

#[test]
fn search_form_picks_direction() {
    let mut f = SearchForm::default();
    f.callsign = "N0CALL".to_string();
    assert_eq!(pairs(&f.query().query)[2], ("receiverCallsign", "N0CALL"));
    f.sent_by = true;
    assert_eq!(pairs(&f.query().query)[2], ("senderCallsign", "N0CALL"));
    assert_eq!(direction_label(true), "Sent by");
    assert_eq!(direction_label(false), "Received by");
}

#[test]
fn jsonp_body_is_cut_out() {
    assert!(is_jsonp_cuttable("  doNothing({\"a\":1});\n"));
    assert_eq!(strip_jsonp("  doNothing({\"a\":1});\n"), "{\"a\":1}");
    assert!(is_jsonp_cuttable("doNothing();"));
    assert_eq!(strip_jsonp("doNothing();"), "");
}

#[test]
fn jsonp_too_short_is_rejected() {
    assert!(!is_jsonp_cuttable("doNothing("));
    assert!(!is_jsonp_cuttable("   "));
}

#[test]
fn short_responses_are_errors_not_panics() {
    assert_eq!(jsonp_body(""), None);
    assert_eq!(jsonp_body("  doNothing(\n"), None);
    assert_eq!(jsonp_body(" doNothing({});"), Some("{}".to_string()));
    assert_eq!(unwrap_response("", None), Err(ResponseFailure::Deserialize));
    assert_eq!(unwrap_response("short", Some("other")), Err(ResponseFailure::Deserialize));
    assert_eq!(unwrap_response("x", Some(RATE_LIMIT_MESSAGE)), Err(ResponseFailure::RateLimited));
    assert_eq!(unwrap_response("doNothing([1]);", None), Ok("[1]".to_string()));
}

#[test]
fn jsonp_cut_inside_a_character_is_rejected() {
    // Byte 10 falls inside the two-byte 'é'.
    assert!(!is_jsonp_cuttable("doNothingé({});"));
    // Two bytes before the end falls inside the two-byte 'é'.
    assert!(!is_jsonp_cuttable("doNothing({}é)"));
}

#[test]
fn failures_are_classified() {
    assert_eq!(classify_failure(Some(RATE_LIMIT_MESSAGE)), ResponseFailure::RateLimited);
    assert_eq!(classify_failure(Some("something else")), ResponseFailure::Deserialize);
    assert_eq!(classify_failure(None), ResponseFailure::Deserialize);
}

#[test]
fn string_equality() {
    assert!(str_equal("abc", "abc"));
    assert!(!str_equal("abc", "abd"));
    assert!(!str_equal("abc", "ab"));
    assert!(str_equal("", ""));
}

#[test]
fn decodable_grids() {
    assert!(is_decodable_grid("FN31pr"));
    assert!(is_decodable_grid(""));
    assert!(!is_decodable_grid("FN-1"));
    assert!(!is_decodable_grid(&"A".repeat(256)));
}

#[test]
fn received_by_markers_point_at_the_receiver() {
    let reports = vec![report("K1RX", "FN31", "W6TX", "DM79"), report("K1RX", "FN31", "G0TX", "IO91")];
    let mut rng = SmallRng::seed_from_u64(1);
    let markers = ApiQueryBuilder::received_by_markers(&reports, &mut rng);
    assert_eq!(markers.len(), 3);
    let rx = grid_to_lat_lon("FN31");
    match &markers[0] {
        MapMarker::ReceptionReportTransmitter { location, rx_location, inner, .. } => {
            assert_eq!(*location, grid_to_lat_lon("DM79"));
            assert_eq!(*rx_location, rx);
            assert_eq!(inner.tx_callsign, "W6TX");
        },
        other => panic!("unexpected marker {:?}", other),
    }
    assert_eq!(markers[1].location(), grid_to_lat_lon("IO91"));
    assert_eq!(markers[1].draw_line_hovered(), Some(rx));
    assert_eq!(markers[1].color(), [255, 0, 0, 255]);
    match &markers[2] {
        MapMarker::Receiver { location, grid, callsign, mode, .. } => {
            assert_eq!(*location, rx);
            assert_eq!(grid, "FN31");
            assert_eq!(callsign, "K1RX");
            assert_eq!(mode, "FT8");
        },
        other => panic!("unexpected marker {:?}", other),
    }
    assert_eq!(markers[2].draw_line_hovered(), None);
    assert_eq!(markers[2].color(), [0, 0, 255, 255]);
}

#[test]
fn sent_by_markers_point_at_the_transmitter() {
    let reports = vec![report("K1RX", "FN31", "W6TX", "DM79")];
    let mut rng = SmallRng::seed_from_u64(2);
    let markers = ApiQueryBuilder::sent_by_markers(&reports, &mut rng);
    assert_eq!(markers.len(), 2);
    let tx = grid_to_lat_lon("DM79");
    assert_eq!(markers[0].location(), grid_to_lat_lon("FN31"));
    assert_eq!(markers[0].draw_line_hovered(), Some(tx));
    match &markers[1] {
        MapMarker::Transmitter { location, callsign, .. } => {
            assert_eq!(*location, tx);
            assert_eq!(callsign, "W6TX");
        },
        other => panic!("unexpected marker {:?}", other),
    }
}

#[test]
fn no_reports_no_markers() {
    let mut rng = SmallRng::seed_from_u64(3);
    assert!(ApiQueryBuilder::received_by_markers(&vec![], &mut rng).is_empty());
    assert!(ApiQueryBuilder::sent_by_markers(&vec![], &mut rng).is_empty());
}

#[test]
fn marker_ids_come_from_the_generator() {
    let reports = vec![report("K1RX", "FN31", "W6TX", "DM79"), report("K1RX", "FN31", "G0TX", "IO91")];
    let mut a = SmallRng::seed_from_u64(5);
    let mut b = SmallRng::seed_from_u64(5);
    let ma = ApiQueryBuilder::received_by_markers(&reports, &mut a);
    let mb = ApiQueryBuilder::received_by_markers(&reports, &mut b);
    let ids_a: Vec<u64> = ma.iter().map(|m| m.id()).collect();
    let ids_b: Vec<u64> = mb.iter().map(|m| m.id()).collect();
    assert_eq!(ids_a, ids_b);
    assert_ne!(ids_a[0], ids_a[1]);
}

#[test]
fn report_duplicate_is_equal() {
    let r = report("A", "FN31", "B", "DM79");
    let d = r.duplicate();
    assert_eq!(d.rx_callsign, r.rx_callsign);
    assert_eq!(d.tx_grid, r.tx_grid);
    assert_eq!(d.snr, r.snr);
    assert_eq!(d.frequency, r.frequency);
}

#[test]
fn wrapped_body_comes_back_out() {
    for body in ["", "{\"receptionReport\":[]}", "  padded  ", "é ü 漢字", ")("] {
        let wrapped = format!("doNothing({body});");
        assert!(is_jsonp_cuttable(&wrapped));
        assert_eq!(strip_jsonp(&wrapped), body);
    }
}
