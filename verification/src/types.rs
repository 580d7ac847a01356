//! Data types shared by the application and the contact database.

use vstd::prelude::*;
use crate::text::push_str;

verus! {

/// The value of `val`, taken from the range `r1`, mapped linearly into `r2`
/// with integer (truncating) division.
pub open spec fn spec_convert_range(val: int, r1: (int, int), r2: (int, int)) -> int {
    (val - r1.0) * (r2.1 - r2.0) / (r1.1 - r1.0) + r2.0
}

/// Converting maps the ends of the first range onto the ends of the
/// second: the start onto the start and the end onto the end.
pub proof fn law_convert_range_endpoints(r1: (int, int), r2: (int, int))
    requires
        r1.0 < r1.1,
    ensures
        spec_convert_range(r1.0, r1, r2) == r2.0,
        spec_convert_range(r1.1, r1, r2) == r2.1,
{
    let d = r1.1 - r1.0;
    let w = r2.1 - r2.0;
    assert(0 * w / d == 0) by (nonlinear_arith)
        requires d > 0;
    assert(d * w / d == w) by (nonlinear_arith)
        requires d > 0;
}

/// Converting keeps order: a larger value of the first range never maps
/// below a smaller one, when the second range runs upwards.
pub proof fn law_convert_range_monotone(v1: int, v2: int, r1: (int, int), r2: (int, int))
    requires
        r1.0 < r1.1,
        r2.0 <= r2.1,
        r1.0 <= v1 <= v2,
    ensures
        spec_convert_range(v1, r1, r2) <= spec_convert_range(v2, r1, r2),
{
    let d = r1.1 - r1.0;
    let w = r2.1 - r2.0;
    let a = v1 - r1.0;
    let b = v2 - r1.0;
    assert(a * w <= b * w) by (nonlinear_arith)
        requires 0 <= a <= b, w >= 0;
    vstd::arithmetic::div_mod::lemma_div_is_ordered(a * w, b * w, d);
}

/// Converts a value from one range into a value in another range: the
/// offset of `val` from the start of `r1`, scaled by the ratio of the
/// widths of `r2` and `r1` (truncating), added to the start of `r2`. The
/// ends of `r1` go to the ends of `r2` (`law_convert_range_endpoints`), so
/// `convert_range_u64(100, [0, 100], [0, 1000])` is `1000`, and
/// `convert_range_u64(10, [0, 100], [0, 1000])` is `100`.
pub fn convert_range_u64(val: u64, r1: [u64; 2], r2: [u64; 2]) -> (res: u64)
    requires
        r1[0] <= val,
        r2[0] <= r2[1],
        r1[0] < r1[1],
        (val - r1[0]) * (r2[1] - r2[0]) <= u64::MAX,
        (val - r1[0]) * (r2[1] - r2[0]) / (r1[1] - r1[0]) + r2[0] <= u64::MAX,
    ensures
        res == spec_convert_range(val as int, (r1[0] as int, r1[1] as int), (r2[0] as int, r2[1] as int)),
{
    let a = val - r1[0];
    let b = r2[1] - r2[0];
    let c = r1[1] - r1[0];
    let p = a * b;
    p / c + r2[0]
}

/// An event or request that is sent to every tab in the GUI.
///
/// This is typically used to synchronize multiple tabs. For example, if you
/// insert a contact into the database, the contact table tab should also be
/// made aware of the change so it can update itself.
#[derive(Debug, Clone)]
pub enum Event {
    /// Refresh the contacts table
    RefreshContacts,
    /// Search for a callsign
    LookupCallsign(String),
}

/// A mode or modulation type used in amateur radio
#[derive(Debug, Clone)]
pub enum Mode {
    /// Single sideband voice
    SSB,
    /// Carrier Wave (Morse Code)
    CW,
    /// Amplitude Modulation
    AM,
    /// Frequency Modulation
    FM,
    /// Phase Shift Keying at 31.25baud
    PSK31,
    /// Radio teletype
    RTTY,
    /// A form of 8FSK, optimized for the HF bands and only allows for exchanging signal reports
    FT8,
    /// Inspired by FT8, with the ability to exchange messages
    JS8CALL,
    /// A form of MFSK, optimized for the HF bands, and typically occupies a wide bandwidth
    OLIVIA,
    /// A form of MFSK, optimized for the HF bands, and typically occupies a narrow bandwidth when compared to other MFSK modes
    DOMINOEX,
    /// A different type of modulation, described as a string
    OTHER(String),
}

/// The name of a mode as the GUI shows it; every other mode reads `Other`.
pub open spec fn spec_mode_name(m: Mode) -> Seq<char> {
    match m {
        Mode::SSB => "SSB"@,
        Mode::CW => "CW"@,
        Mode::AM => "AM"@,
        Mode::FM => "FM"@,
        Mode::PSK31 => "PSK31"@,
        Mode::RTTY => "RTTY"@,
        Mode::FT8 => "FT8"@,
        Mode::JS8CALL => "JS8CALL"@,
        Mode::OLIVIA => "OLIVIA"@,
        Mode::DOMINOEX => "DOMINOEX"@,
        Mode::OTHER(_) => "Other"@,
    }
}

impl Default for Mode {
    /// Single sideband.
    fn default() -> (m: Mode)
        ensures
            m is SSB,
    {
        Mode::SSB
    }
}

fn owned(s: &str) -> (r: String)
    ensures
        r@ == s@,
{
    let mut r = String::new();
    push_str(&mut r, s);
    assert(r@ =~= s@);
    r
}

impl Mode {
    /// Every mode, in the order the GUI lists them; the last is `OTHER`
    /// with an empty description.
    pub fn all() -> (v: Vec<Mode>)
        ensures
            v.len() == 11,
            v@.take(10) == seq![
                Mode::SSB,
                Mode::CW,
                Mode::AM,
                Mode::FM,
                Mode::PSK31,
                Mode::RTTY,
                Mode::FT8,
                Mode::JS8CALL,
                Mode::OLIVIA,
                Mode::DOMINOEX,
            ],
            v@[10] matches Mode::OTHER(t) && t@.len() == 0,
    {
        let v = vec![Mode::SSB, Mode::CW, Mode::AM, Mode::FM, Mode::PSK31, Mode::RTTY, Mode::FT8, Mode::JS8CALL, Mode::OLIVIA, Mode::DOMINOEX, Mode::OTHER(String::new())];
        v
    }

    /// The name of the mode, as the GUI shows it.
    pub fn name(&self) -> (r: String)
        ensures
            r@ == spec_mode_name(*self),
    {
        match self {
            Mode::SSB => owned("SSB"),
            Mode::CW => owned("CW"),
            Mode::AM => owned("AM"),
            Mode::FM => owned("FM"),
            Mode::PSK31 => owned("PSK31"),
            Mode::RTTY => owned("RTTY"),
            Mode::FT8 => owned("FT8"),
            Mode::JS8CALL => owned("JS8CALL"),
            Mode::OLIVIA => owned("OLIVIA"),
            Mode::DOMINOEX => owned("DOMINOEX"),
            Mode::OTHER(_) => owned("Other"),
        }
    }

    /// Whether the mode is one described by a string.
    pub fn is_other(&self) -> (r: bool)
        ensures
            r == (*self is OTHER),
    {
        match self {
            Mode::OTHER(_) => true,
            _ => false,
        }
    }
}

impl Event {
    /// A copy of the event.
    pub fn duplicate(&self) -> (r: Event)
        ensures
            r == *self,
    {
        match self {
            Event::RefreshContacts => Event::RefreshContacts,
            Event::LookupCallsign(c) => Event::LookupCallsign(c.clone()),
        }
    }
}

/// A radio contact. The date and time are those the contact began at, in
/// UTC: (year, month, day) and (hour, minute, second, nanosecond).
#[derive(Debug)]
pub struct Contact {
    /// The key of the contact's record in the database, once it has one
    pub id: Option<String>,
    /// The callsign of the receiving station during the contact
    pub callsign: String,
    /// The date that the contact began, in UTC
    pub date: (i32, u32, u32),
    /// The time that the contact began, in UTC
    pub time: (u32, u32, u32, u32),
    /// The duration of the contact, in seconds
    pub duration: u64,
    /// The frequency at which the contact took place, in Hz
    pub frequency: u64,
    /// The mode used during the contact
    pub mode: Mode,
    /// The power used by the transmitting station, in milliwatts
    pub tx_power: u64,
    /// The power used by the receiving station, in milliwatts
    pub rx_power: u64,
    /// The signal report of the receiving station, as observed by the transmitting station
    pub tx_rst: String,
    /// The signal report of the transmitting station, as observed by the receiving station
    pub rx_rst: String,
    /// A note
    pub note: String,
}

impl Default for Contact {
    /// An empty contact on 1970-01-01 at midnight, in SSB.
    fn default() -> (c: Contact)
        ensures
            c.id is None,
            c.callsign@.len() == 0,
            c.date == (1970i32, 1u32, 1u32),
            c.time == (0u32, 0u32, 0u32, 0u32),
            c.duration == 0,
            c.frequency == 0,
            c.mode is SSB,
            c.tx_power == 0,
            c.rx_power == 0,
            c.tx_rst@.len() == 0,
            c.rx_rst@.len() == 0,
            c.note@.len() == 0,
    {
        Contact {
            id: None,
            callsign: String::new(),
            date: (1970, 1, 1),
            time: (0, 0, 0, 0),
            duration: 0,
            frequency: 0,
            mode: Mode::SSB,
            tx_power: 0,
            rx_power: 0,
            tx_rst: String::new(),
            rx_rst: String::new(),
            note: String::new(),
        }
    }
}

impl Contact {
    /// A copy of the contact.
    pub fn duplicate(&self) -> (r: Contact)
        ensures
            r == *self,
    {
        Contact {
            id: self.id.clone(),
            callsign: self.callsign.clone(),
            date: self.date,
            time: self.time,
            duration: self.duration,
            frequency: self.frequency,
            mode: self.mode.duplicate(),
            tx_power: self.tx_power,
            rx_power: self.rx_power,
            tx_rst: self.tx_rst.clone(),
            rx_rst: self.rx_rst.clone(),
            note: self.note.clone(),
        }
    }
}

impl Mode {
    /// A copy of the mode.
    pub fn duplicate(&self) -> (r: Mode)
        ensures
            r == *self,
    {
        match self {
            Mode::SSB => Mode::SSB,
            Mode::CW => Mode::CW,
            Mode::AM => Mode::AM,
            Mode::FM => Mode::FM,
            Mode::PSK31 => Mode::PSK31,
            Mode::RTTY => Mode::RTTY,
            Mode::FT8 => Mode::FT8,
            Mode::JS8CALL => Mode::JS8CALL,
            Mode::OLIVIA => Mode::OLIVIA,
            Mode::DOMINOEX => Mode::DOMINOEX,
            Mode::OTHER(t) => Mode::OTHER(t.clone()),
        }
    }
}

/// Notifications that should be shown to the user through the GUI.
///
/// This is useful for displaying general status, warnings, and errors to
/// the user via the GUI.
#[derive(Debug, Clone)]
pub enum Notification {
    Info(String),
    Warning(String),
    Error(String),
}

/// The distance unit used by the GUI
#[derive(Debug, Clone, Copy, PartialEq, Eq, Structural)]
pub enum DistanceUnit {
    Kilometers,
    Miles,
}

} // verus!


