use qlog::dates::{is_valid_date, is_valid_time, DateTimeParts};
use qlog::frame::{
    add_tab_label, plan_event_delivery, shown_notification, FpsCounter, GuiState, NANOS_PER_SECOND, NOTIFICATION_LIMIT,
};
use qlog::gui::{add_task_to_queue, frequency_parser_plan, power_parser_plan, WelcomeTab};
use qlog::settings::{clamp_refresh_rate, SettingsPage, REFRESH_RATE_MAX, REFRESH_RATE_MIN};
use qlog::tabs::band_allocations::{chunk_label_edges, twenty_meter_band, BandAllocations, BandAllocationsTab, BandChunk};
use qlog::tabs::contact_logger::{
    commit_date_text, commit_time_text, insert_finished, stamp_start, stamp_texts, submit, submit_outcome, SubmitOutcome,
    END_BEFORE_START,
};
use qlog::tabs::contacts::{date_cell_text, time_cell_text};
use qlog::types::{convert_range_u64, Contact, DistanceUnit, Event, Mode, Notification};

fn at(year: i32, month: u32, day: u32, hour: u32, minute: u32, second: u32) -> DateTimeParts {
    DateTimeParts { year, month, day, hour, minute, second, nanosecond: 0 }
}

#[test]
fn dates_parse_and_format() {
    assert_eq!(commit_date_text("2024-02-29", (2020, 1, 1)).date, (2024, 2, 29));
    assert_eq!(commit_date_text("2023-02-29", (2020, 1, 1)).date, (2020, 1, 1));
    assert_eq!(commit_date_text("12/31/1999", (2020, 1, 1)).date, (2020, 1, 1));
    assert_eq!(commit_time_text("23:59:58", (0, 0, 0, 0)).time, (23, 59, 58, 0));
    assert_eq!(commit_time_text("24:00:00", (0, 0, 0, 0)).time, (0, 0, 0, 0));
    assert_eq!(stamp_texts((2024, 3, 7), (7, 5, 3, 0)), ("2024-03-07".to_string(), "07:05:03".to_string()));
}

#[test]
fn refresh_stamps_the_contact_start() {
    let mut c = Contact::default();
    c.callsign = "K1ABC".to_string();
    let (d, t) = stamp_start(&mut c, (2024, 12, 31), (23, 0, 5, 0));
    assert_eq!((d.as_str(), t.as_str()), ("2024-12-31", "23:00:05"));
    assert_eq!(c.date, (2024, 12, 31));
    assert_eq!(c.time, (23, 0, 5, 0));
    assert_eq!(c.callsign, "K1ABC");
    assert_eq!(date_cell_text(&c), "2024-12-31");
    assert_eq!(time_cell_text(&c), "23:00:05");
}

fn elapsed(start: DateTimeParts, end: DateTimeParts) -> Option<u64> {
    let mut c = contact_at((start.year, start.month, start.day), (start.hour, start.minute, start.second, 0));
    match submit(&mut c, &end) {
        SubmitOutcome::Accepted(d) => Some(d),
        SubmitOutcome::Rejected(_) => None,
    }
}

#[test]
fn elapsed_seconds_between_date_times() {
    assert_eq!(elapsed(at(2024, 1, 1, 0, 0, 0), at(2024, 1, 1, 0, 1, 30)), Some(90));
    assert_eq!(elapsed(at(2024, 1, 2, 0, 0, 0), at(2024, 1, 1, 23, 0, 0)), None);
    assert_eq!(elapsed(at(2023, 12, 31, 23, 59, 59), at(2024, 1, 1, 0, 0, 0)), Some(1));
    assert_eq!(elapsed(at(2024, 2, 28, 12, 0, 0), at(2024, 3, 1, 12, 0, 0)), Some(2 * 86_400));
}

#[test]
fn typed_date_is_committed_or_reset() {
    let ok = commit_date_text("2024-05-06", (2020, 1, 1));
    assert_eq!(ok.date, (2024, 5, 6));
    assert_eq!(ok.replacement_text, None);
    let bad = commit_date_text("May 6", (2020, 1, 1));
    assert_eq!(bad.date, (2020, 1, 1));
    assert_eq!(bad.replacement_text, Some("2020-01-01".to_string()));
}

#[test]
fn typed_time_is_committed_or_reset() {
    let ok = commit_time_text("12:34:56", (1, 2, 3, 0));
    assert_eq!(ok.time, (12, 34, 56, 0));
    assert_eq!(ok.replacement_text, None);
    let bad = commit_time_text("noon", (1, 2, 3, 0));
    assert_eq!(bad.time, (1, 2, 3, 0));
    assert_eq!(bad.replacement_text, Some("01:02:03".to_string()));
}

fn contact_at(date: (i32, u32, u32), time: (u32, u32, u32, u32)) -> Contact {
    let mut c = Contact::default();
    c.callsign = "W1AW".to_string();
    c.date = date;
    c.time = time;
    c
}

#[test]
fn contact_ending_before_start_is_rejected() {
    let mut c = contact_at((2024, 1, 1), (12, 0, 0, 0));
    match submit(&mut c, &at(2024, 1, 1, 11, 59, 59)) {
        SubmitOutcome::Rejected(Notification::Error(m)) => assert_eq!(m, END_BEFORE_START),
        other => panic!("unexpected outcome {:?}", other),
    }
    assert_eq!(c.duration, 0);
}

#[test]
fn contact_duration_is_recorded() {
    let mut c = contact_at((2024, 1, 1), (12, 0, 0, 0));
    assert!(matches!(submit(&mut c, &at(2024, 1, 1, 12, 5, 0)), SubmitOutcome::Accepted(300)));
    assert_eq!(c.duration, 300);
    assert_eq!(c.callsign, "W1AW");
    assert!(matches!(submit_outcome(0), SubmitOutcome::Accepted(0)));
    assert!(matches!(submit_outcome(-1), SubmitOutcome::Rejected(Notification::Error(_))));
}

#[test]
fn finished_insert_refreshes_contacts() {
    let mut events: Vec<(Option<u64>, Event)> = Vec::new();
    insert_finished(false, &mut events);
    assert!(events.is_empty());
    insert_finished(true, &mut events);
    assert_eq!(events.len(), 1);
    assert!(matches!(events[0], (None, Event::RefreshContacts)));
}

#[test]
fn contact_duration_counts_calendar_days_and_leap_seconds() {
    // 2024 is a leap year: 28 February to 1 March spans two days.
    let mut c = contact_at((2024, 2, 28), (23, 59, 59, 0));
    assert!(matches!(submit(&mut c, &at(2024, 3, 1, 0, 0, 1)), SubmitOutcome::Accepted(86_402)));
    let mut c = contact_at((1970, 1, 1), (0, 0, 0, 0));
    assert!(matches!(submit(&mut c, &at(2000, 1, 1, 0, 0, 0)), SubmitOutcome::Accepted(946_684_800)));
    // Starting inside a leap second: the half second left is not a whole second.
    let mut c = contact_at((2016, 12, 31), (23, 59, 59, 1_500_000_000));
    assert!(matches!(submit(&mut c, &at(2017, 1, 1, 0, 0, 0)), SubmitOutcome::Accepted(0)));
    // Across year 0, a leap year, with half a second more.
    let mut c = contact_at((-1, 3, 1), (0, 0, 0, 0));
    let end = DateTimeParts { year: 0, month: 3, day: 1, hour: 0, minute: 0, second: 0, nanosecond: 500_000_000 };
    assert!(matches!(submit(&mut c, &end), SubmitOutcome::Accepted(31_622_400)));
    // Half a second backwards truncates toward zero: no whole second.
    let mut c = contact_at((2024, 1, 1), (12, 0, 0, 500_000_000));
    assert!(matches!(submit(&mut c, &at(2024, 1, 1, 12, 0, 0)), SubmitOutcome::Accepted(0)));
    // A second and a half backwards is a whole second before the start.
    let mut c = contact_at((2024, 1, 1), (12, 0, 1, 500_000_000));
    assert!(matches!(submit(&mut c, &at(2024, 1, 1, 12, 0, 0)), SubmitOutcome::Rejected(_)));
}

#[test]
fn convert_range_maps_linearly() {
    assert_eq!(convert_range_u64(100, [0, 100], [0, 1000]), 1000);
    assert_eq!(convert_range_u64(10, [0, 100], [0, 1000]), 100);
    assert_eq!(convert_range_u64(0, [0, 100], [0, 1000]), 0);
    assert_eq!(convert_range_u64(50, [0, 100], [0, 1000]), 500);
    assert_eq!(convert_range_u64(15, [10, 20], [100, 200]), 150);
    assert_eq!(convert_range_u64(1, [0, 3], [0, 10]), 3);
}

#[test]
fn convert_range_maps_endpoints_to_endpoints() {
    for (r1, r2) in [([3u64, 9u64], [100u64, 250u64]), ([0, 1], [7, 7]), ([5, 6], [0, 1_000_000])] {
        assert_eq!(convert_range_u64(r1[0], r1, r2), r2[0]);
        assert_eq!(convert_range_u64(r1[1], r1, r2), r2[1]);
    }
}

#[test]
fn contact_modes() {
    assert!(matches!(Mode::default(), Mode::SSB));
    assert_eq!(Mode::FT8.name(), "FT8");
    assert_eq!(Mode::OTHER("MSK144".to_string()).name(), "Other");
    assert!(Mode::OTHER(String::new()).is_other());
    assert!(!Mode::CW.is_other());
    assert_eq!(Mode::all().len(), 11);
}

#[test]
fn fps_counter_counts_the_last_second() {
    let mut f = FpsCounter::default();
    assert_eq!(f.tick(0), 1);
    assert_eq!(f.tick(NANOS_PER_SECOND / 2), 2);
    assert_eq!(f.tick(NANOS_PER_SECOND), 2);
    assert_eq!(f.tick(3 * NANOS_PER_SECOND), 1);
    assert_eq!(f.frames, vec![3 * NANOS_PER_SECOND]);
}

#[test]
fn events_are_delivered_from_the_back_of_the_queue() {
    let mut events = vec![
        (None, Event::RefreshContacts),
        (Some(20), Event::LookupCallsign("W1AW".to_string())),
        (Some(99), Event::RefreshContacts),
    ];
    let tabs = vec![10, 20, 30];
    let d = plan_event_delivery(&mut events, &tabs);
    assert!(events.is_empty());
    assert_eq!(d.len(), 4);
    assert!(matches!(&d[0], (1, Event::LookupCallsign(c)) if c == "W1AW"));
    assert!(matches!(d[1], (0, Event::RefreshContacts)));
    assert!(matches!(d[2], (1, Event::RefreshContacts)));
    assert!(matches!(d[3], (2, Event::RefreshContacts)));
}

#[test]
fn add_tab_menu_labels() {
    let labels: Vec<&str> = (0..7).map(add_tab_label).collect();
    assert_eq!(labels, vec!["Home", "Contacts", "Contact Logger", "Callsign Lookup", "PSKReporter", "Settings", "Settings"]);
}

#[test]
fn notifications_show_until_read() {
    assert_eq!(shown_notification(0, false), None);
    assert_eq!(shown_notification(3, false), Some(2));
    assert_eq!(shown_notification(3, true), None);
    let mut g = GuiState::default();
    assert_eq!(g.distance_unit, DistanceUnit::Miles);
    assert!(g.shown().is_none());
    g.notify(Notification::Info("one".to_string()));
    g.notify(Notification::Warning("two".to_string()));
    assert!(matches!(g.shown(), Some(Notification::Warning(t)) if t == "two"));
    g.mark_read();
    assert!(g.shown().is_none());
    g.notify(Notification::Error("three".to_string()));
    assert!(matches!(g.shown(), Some(Notification::Error(t)) if t == "three"));
    assert_eq!(g.notifications.len(), 3);
}

#[test]
fn tasks_are_queued_with_their_tab() {
    let mut q: Vec<(Option<u64>, &str)> = Vec::new();
    add_task_to_queue(&mut q, "a", None);
    add_task_to_queue(&mut q, "b", Some(4));
    assert_eq!(q, vec![(None, "a"), (Some(4), "b")]);
}

#[test]
fn welcome_tab_text() {
    assert_eq!(WelcomeTab.title(), "Welcome to QLog");
    assert_eq!(WelcomeTab.id_source(), "welcome_tab");
}

#[test]
fn typed_power_reads_in_milliwatts() {
    let p = power_parser_plan("1.5KW");
    assert_eq!(p.digits, "1.5");
    assert_eq!(p.multiplier, 1_000_000);
    let p = power_parser_plan("100 mW");
    assert_eq!(p.digits, "100");
    assert_eq!(p.multiplier, 1);
    let p = power_parser_plan("5");
    assert_eq!(p.digits, "5");
    assert_eq!(p.multiplier, 1_000);
}

#[test]
fn typed_frequency_reads_in_hertz() {
    let f = frequency_parser_plan("14.074");
    assert_eq!(f.digits, "14.074");
    assert_eq!(f.multiplier, 1_000_000);
    let f = frequency_parser_plan("500KHz");
    assert_eq!(f.digits, "500");
    assert_eq!(f.multiplier, 1_000);
    let f = frequency_parser_plan("2.4 GHz");
    assert_eq!(f.multiplier, 1_000_000_000);
    let f = frequency_parser_plan("7 MHZ");
    assert_eq!(f.multiplier, 1_000_000);
    let f = frequency_parser_plan("10hz");
    assert_eq!(f.multiplier, 1);
}

#[test]
fn refresh_rate_is_clamped() {
    assert_eq!(clamp_refresh_rate(10), REFRESH_RATE_MIN);
    assert_eq!(clamp_refresh_rate(60), 60);
    assert_eq!(clamp_refresh_rate(300), 300);
    assert_eq!(clamp_refresh_rate(1800), 1800);
    assert_eq!(clamp_refresh_rate(5000), REFRESH_RATE_MAX);
}

#[test]
fn settings_pages() {
    let titles: Vec<&str> = SettingsPage::all().iter().map(|p| p.title()).collect();
    assert_eq!(titles, vec!["PSKReporter", "Map"]);
}

#[test]
fn united_states_band_allocations() {
    let v = BandAllocations::UnitedStates.band_allocations_iter();
    let names: Vec<(&str, u64, u64)> = v.iter().map(|b| (b.name, b.start, b.end)).collect();
    assert_eq!(
        names,
        vec![("20M", 14_000_000, 14_350_000), ("40M", 7_000_000, 7_300_000), ("80M", 3_500_000, 4_000_000)]
    );
    let t = BandAllocationsTab::default();
    assert_eq!(t.selected_band_allocations, BandAllocations::UnitedStates);
    assert_eq!(t.title(), "Band Allocations");
}

#[test]
fn band_chart_labels_inner_chunk_edges() {
    let b = twenty_meter_band();
    assert_eq!(b.name, "20M");
    assert_eq!(b.chunks.len(), 2);
    assert_eq!(chunk_label_edges(b.start, b.end, &b.chunks[0]), (true, true));
    assert_eq!(chunk_label_edges(b.start, b.end, &b.chunks[1]), (true, false));
    let first = BandChunk { start: 14_000_000, end: 14_100_000, color: [0, 0, 0, 255] };
    assert_eq!(chunk_label_edges(b.start, b.end, &first), (false, true));
    assert_eq!(b.markers[0].freq, 14_074_000);
    assert_eq!(b.markers[0].text, "FT8");
}

#[test]
fn convert_range_keeps_order() {
    let mut last = 0;
    for v in 10..=20u64 {
        let c = convert_range_u64(v, [10, 20], [0, 7]);
        assert!(c >= last);
        last = c;
    }
    assert_eq!(last, 7);
}

#[test]
fn notifications_are_limited_to_the_latest() {
    let mut g = GuiState::default();
    for i in 0..40 {
        g.notify(Notification::Info(format!("n{i}")));
    }
    g.limit_notifications();
    assert_eq!(g.notifications.len(), NOTIFICATION_LIMIT);
    assert_eq!(NOTIFICATION_LIMIT, 32);
    assert!(matches!(&g.notifications[0], Notification::Info(t) if t == "n8"));
    assert!(matches!(g.shown(), Some(Notification::Info(t)) if t == "n39"));
    let mut h = GuiState::default();
    h.notify(Notification::Warning("only".to_string()));
    h.limit_notifications();
    assert_eq!(h.notifications.len(), 1);
}

#[test]
fn dates_and_times_are_checked() {
    assert!(is_valid_date(2024, 2, 29));
    assert!(!is_valid_date(2023, 2, 29));
    assert!(!is_valid_date(1900, 2, 29));
    assert!(is_valid_date(2000, 2, 29));
    assert!(!is_valid_date(2024, 4, 31));
    assert!(!is_valid_date(2024, 13, 1));
    assert!(!is_valid_date(2024, 1, 0));
    assert!(!is_valid_date(262143, 1, 1));
    assert!(is_valid_date(-262143, 1, 1));
    assert!(is_valid_time(23, 59, 59, 1_500_000_000));
    assert!(!is_valid_time(23, 59, 58, 1_500_000_000));
    assert!(!is_valid_time(24, 0, 0, 0));
    assert!(!is_valid_time(0, 60, 0, 0));
}

#[test]
fn date_and_time_texts_pad_and_sign() {
    assert_eq!(stamp_texts((42, 1, 2), (0, 0, 0, 0)).0, "0042-01-02");
    assert_eq!(stamp_texts((-5, 1, 2), (0, 0, 0, 0)).0, "-0005-01-02");
    assert_eq!(stamp_texts((12345, 6, 7), (0, 0, 0, 0)).0, "+12345-06-07");
    assert_eq!(stamp_texts((2024, 6, 30), (23, 59, 59, 1_000_000_000)).1, "23:59:60");
}
