//! The contact logger tab: reading the typed dates and times, and checking
//! a contact before it is logged.

use vstd::prelude::*;
use crate::dates::{
    DateTimeParts, spec_valid_date, spec_valid_time, spec_valid_date_time, spec_ymd_date, spec_hms_time,
    spec_iso_date, spec_hms_text, spec_elapsed_seconds, parse_ymd_date, parse_hms_time, format_iso_date,
    format_hms_time, elapsed_seconds,
};
use crate::text::push_str;
use crate::types::{Contact, Event, Notification};

verus! {

/// The message shown when a contact ends before it starts.
pub const END_BEFORE_START: &'static str = "The end time must be after the start time";

/// A date field after it lost focus: the date it now holds, and the text to
/// show in place of the typed one when that text did not read as a date.
#[derive(Debug)]
pub struct DateField {
    pub date: (i32, u32, u32),
    pub replacement_text: Option<String>,
}

/// A time field after it lost focus, as [`DateField`].
#[derive(Debug)]
pub struct TimeField {
    pub time: (u32, u32, u32, u32),
    pub replacement_text: Option<String>,
}

/// The texts that the date and time fields show for a date and time:
/// `YYYY-MM-DD` and `HH:MM:SS`.
pub fn stamp_texts(date: (i32, u32, u32), time: (u32, u32, u32, u32)) -> (r: (String, String))
    requires
        spec_valid_date(date.0, date.1, date.2),
        spec_valid_time(time.0, time.1, time.2, time.3),
    ensures
        r.0@ == spec_iso_date(date.0, date.1, date.2),
        r.1@ == spec_hms_text(time.0, time.1, time.2, time.3),
{
    (format_iso_date(date.0, date.1, date.2), format_hms_time(time.0, time.1, time.2, time.3))
}

/// Moves the start of `contact` to the given date and time (the current
/// UTC time, when the refresh button is pressed) and returns the texts of
/// its start date and time fields.
pub fn stamp_start(contact: &mut Contact, date: (i32, u32, u32), time: (u32, u32, u32, u32)) -> (r: (String, String))
    requires
        spec_valid_date(date.0, date.1, date.2),
        spec_valid_time(time.0, time.1, time.2, time.3),
    ensures
        *final(contact) == (Contact { date, time, ..*old(contact) }),
        r.0@ == spec_iso_date(date.0, date.1, date.2),
        r.1@ == spec_hms_text(time.0, time.1, time.2, time.3),
{
    contact.date = date;
    contact.time = time;
    stamp_texts(date, time)
}

/// Settles a date field given the date read from the typed text (`parsed`):
/// the date read, or else the current date kept and written back as
/// `YYYY-MM-DD`.
pub fn date_field_outcome(parsed: Option<(i32, u32, u32)>, current: (i32, u32, u32)) -> (r: DateField)
    requires
        spec_valid_date(current.0, current.1, current.2),
    ensures
        match parsed {
            Some(d) => (r.date == d && r.replacement_text is None),
            None => (r.date == current && (r.replacement_text matches Some(t)
                && t@ == spec_iso_date(current.0, current.1, current.2))),
        },
{
    match parsed {
        Some(d) => DateField { date: d, replacement_text: None },
        None => DateField {
            date: current,
            replacement_text: Some(format_iso_date(current.0, current.1, current.2)),
        },
    }
}

/// Settles a date field whose text is `text` (format `%Y-%m-%d`).
pub fn commit_date_text(text: &str, current: (i32, u32, u32)) -> (r: DateField)
    requires
        spec_valid_date(current.0, current.1, current.2),
    ensures
        match spec_ymd_date(text@) {
            Some(d) => (r.date == d && r.replacement_text is None),
            None => (r.date == current && (r.replacement_text matches Some(t)
                && t@ == spec_iso_date(current.0, current.1, current.2))),
        },
{
    let parsed = parse_ymd_date(text);
    date_field_outcome(parsed, current)
}

/// Settles a time field given the time read from the typed text: the time
/// read, or else the current time kept and written back as `HH:MM:SS`.
pub fn time_field_outcome(parsed: Option<(u32, u32, u32, u32)>, current: (u32, u32, u32, u32)) -> (r: TimeField)
    requires
        spec_valid_time(current.0, current.1, current.2, current.3),
    ensures
        match parsed {
            Some(t) => (r.time == t && r.replacement_text is None),
            None => (r.time == current && (r.replacement_text matches Some(t)
                && t@ == spec_hms_text(current.0, current.1, current.2, current.3))),
        },
{
    match parsed {
        Some(t) => TimeField { time: t, replacement_text: None },
        None => TimeField {
            time: current,
            replacement_text: Some(format_hms_time(current.0, current.1, current.2, current.3)),
        },
    }
}

/// Settles a time field whose text is `text` (format `%H:%M:%S`).
pub fn commit_time_text(text: &str, current: (u32, u32, u32, u32)) -> (r: TimeField)
    requires
        spec_valid_time(current.0, current.1, current.2, current.3),
    ensures
        match spec_hms_time(text@) {
            Some(t) => (r.time == t && r.replacement_text is None),
            None => (r.time == current && (r.replacement_text matches Some(t)
                && t@ == spec_hms_text(current.0, current.1, current.2, current.3))),
        },
{
    let parsed = parse_hms_time(text);
    time_field_outcome(parsed, current)
}

/// What submitting a contact leads to.
#[derive(Debug, Clone)]
pub enum SubmitOutcome {
    /// The contact ends before it starts; this error is shown and nothing
    /// is logged.
    Rejected(Notification),
    /// The contact is logged with this duration, in seconds.
    Accepted(u64),
}

/// Decides a submission from the seconds between the contact's start and
/// end: a negative duration is rejected with an error notification,
/// otherwise it becomes the contact's duration.
pub fn submit_outcome(elapsed: i64) -> (r: SubmitOutcome)
    ensures
        elapsed < 0 ==> (r matches SubmitOutcome::Rejected(Notification::Error(m)) && m@ == END_BEFORE_START@),
        elapsed >= 0 ==> (r matches SubmitOutcome::Accepted(d) && d == elapsed),
{
    if elapsed < 0 {
        let mut m = String::new();
        push_str(&mut m, END_BEFORE_START);
        assert(m@ =~= END_BEFORE_START@);
        SubmitOutcome::Rejected(Notification::Error(m))
    } else {
        SubmitOutcome::Accepted(elapsed as u64)
    }
}

/// The date and time a contact began.
pub open spec fn spec_contact_start(c: Contact) -> DateTimeParts {
    DateTimeParts {
        year: c.date.0,
        month: c.date.1,
        day: c.date.2,
        hour: c.time.0,
        minute: c.time.1,
        second: c.time.2,
        nanosecond: c.time.3,
    }
}

/// Submits `contact`, which ended at `end`: a contact that ends before it
/// starts is rejected and left as it was; otherwise its duration becomes
/// the whole seconds between start and end, ready to be inserted.
pub fn submit(contact: &mut Contact, end: &DateTimeParts) -> (r: SubmitOutcome)
    requires
        spec_valid_date_time(spec_contact_start(*old(contact))),
        spec_valid_date_time(*end),
    ensures
        ({
            let e = spec_elapsed_seconds(spec_contact_start(*old(contact)), *end);
            &&& e < 0 ==> (r matches SubmitOutcome::Rejected(Notification::Error(m)) && m@ == END_BEFORE_START@)
            &&& e < 0 ==> *final(contact) == *old(contact)
            &&& e >= 0 ==> (r matches SubmitOutcome::Accepted(d) && d == e)
            &&& e >= 0 ==> *final(contact) == (Contact { duration: e as u64, ..*old(contact) })
        }),
{
    let start = DateTimeParts {
        year: contact.date.0,
        month: contact.date.1,
        day: contact.date.2,
        hour: contact.time.0,
        minute: contact.time.1,
        second: contact.time.2,
        nanosecond: contact.time.3,
    };
    let elapsed = elapsed_seconds(&start, end);
    let r = submit_outcome(elapsed);
    if let SubmitOutcome::Accepted(d) = r {
        contact.duration = d;
    }
    r
}

/// Once the insert of a logged contact has finished: a success asks every
/// tab to refresh its contacts.
pub fn insert_finished(succeeded: bool, events: &mut Vec<(Option<u64>, Event)>)
    ensures
        succeeded ==> final(events)@ == old(events)@.push((None, Event::RefreshContacts)),
        !succeeded ==> final(events)@ == old(events)@,
{
    if succeeded {
        events.push((None, Event::RefreshContacts));
    }
}

} // verus!
