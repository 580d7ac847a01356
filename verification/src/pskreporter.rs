//! The PSKReporter reception-report API: query filters, the query
//! parameters sent to the API, unwrapping its responses, and the map markers
//! built from the reports it returns.

use vstd::prelude::*;
use vstd::string::*;
use rand::RngCore;
use rand::rngs::SmallRng;
use crate::maidenhead::{GridPoint, grid_to_lat_lon, spec_grid_to_lat_lon, spec_decodable_char};
use crate::text::{push_str, push_decimal, push_signed_decimal, push_char, spec_decimal, spec_signed_decimal, spec_utf8_len, spec_byte_len, utf8_len, chars_of, trim_bounds, string_of_range, spec_trim, spec_trim_start, spec_trim_end, spec_is_whitespace};

verus! {

/// A band filter for the PSKReporter API
#[derive(Debug, Clone, Copy, PartialEq, Eq, Structural)]
pub enum Band {
    /// All bands
    All,
    /// 2200M Band 135KHz
    B2200m,
    /// 630M Band 472KHz
    B630m,
    /// 160M Band 1.8MHz
    B160m,
    /// 80M Band 3.5MHz
    B80m,
    /// 60M Band 5.3MHz
    B60m,
    /// 40M Band 7MHz
    B40m,
    /// 30M Band 10.1MHz
    B30m,
    /// 20M Band 14MHz
    B20m,
    /// 17M Band 18MHz
    B17m,
    /// 15M Band 21MHz
    B15m,
    /// 12M Band 24MHz
    B12m,
    /// 10M Band 28MHz
    B10m,
    /// 6M Band 50MHz
    B6m,
    /// 2M Band 144MHz
    B2m,
    /// 1.25M Band 222MHz
    B1_25M,
    /// 70CM Band 420MHz
    B70CM,
    /// 33CM Band 902MHz
    B33CM,
    /// 23CM Band 1.24GHz
    B23CM,
    /// 2.4GHZ Band 2.4GHz
    F2_4GHZ,
    /// 3.4GHZ Band 3.4GHz
    F3_4GHZ,
    /// 5.8GHZ Band 5.8GHz
    F5_8GHZ,
    /// 10GHZ Band 10GHz
    F10GHZ,
    /// 24GHZ Band 24GHz
    F24GHZ,
    /// 47GHZ Band 47GHz
    F47GHZ,
    /// 76GHZ Band 76GHz
    F76GHZ,
}

/// The frequency range of a band in Hz, or `None` for all bands.
pub open spec fn spec_band_range(b: Band) -> Option<(u64, u64)> {
    match b {
        Band::All => None,
        Band::B2200m => Some((135_700, 137_800)),
        Band::B630m => Some((472_000, 479_000)),
        Band::B160m => Some((1_800_000, 2_000_000)),
        Band::B80m => Some((3_500_000, 4_000_000)),
        Band::B60m => Some((5_330_500, 5_407_800)),
        Band::B40m => Some((7_000_000, 7_300_000)),
        Band::B30m => Some((10_100_000, 10_150_000)),
        Band::B20m => Some((14_000_000, 14_350_000)),
        Band::B17m => Some((18_068_000, 18_168_000)),
        Band::B15m => Some((21_000_000, 21_450_000)),
        Band::B12m => Some((24_890_000, 24_990_000)),
        Band::B10m => Some((28_000_000, 29_700_000)),
        Band::B6m => Some((50_000_000, 54_000_000)),
        Band::B2m => Some((144_000_000, 148_000_000)),
        Band::B1_25M => Some((219_000_000, 225_000_000)),
        Band::B70CM => Some((420_000_000, 450_000_000)),
        Band::B33CM => Some((902_000_000, 928_000_000)),
        Band::B23CM => Some((1_240_000_000, 1_300_000_000)),
        Band::F2_4GHZ => Some((2_300_000_000, 2_450_000_000)),
        Band::F3_4GHZ => Some((3_300_000_000, 3_500_000_000)),
        Band::F5_8GHZ => Some((5_650_000_000, 5_925_000_000)),
        Band::F10GHZ => Some((10_000_000_000, 10_500_000_000)),
        Band::F24GHZ => Some((24_000_000_000, 24_250_000_000)),
        Band::F47GHZ => Some((47_000_000_000, 47_200_000_000)),
        Band::F76GHZ => Some((76_000_000_000, 81_000_000_000)),
    }
}

/// The name of a band.
pub open spec fn spec_band_name(b: Band) -> Seq<char> {
    match b {
        Band::All => "All"@,
        Band::B2200m => "2200M"@,
        Band::B630m => "630M"@,
        Band::B160m => "160M"@,
        Band::B80m => "80M"@,
        Band::B60m => "60M"@,
        Band::B40m => "40M"@,
        Band::B30m => "30M"@,
        Band::B20m => "20M"@,
        Band::B17m => "17M"@,
        Band::B15m => "15M"@,
        Band::B12m => "12M"@,
        Band::B10m => "10M"@,
        Band::B6m => "6M"@,
        Band::B2m => "2M"@,
        Band::B1_25M => "1.25M"@,
        Band::B70CM => "70CM"@,
        Band::B33CM => "33CM"@,
        Band::B23CM => "23CM"@,
        Band::F2_4GHZ => "2.4GHZ"@,
        Band::F3_4GHZ => "3.4GHZ"@,
        Band::F5_8GHZ => "5.8GHZ"@,
        Band::F10GHZ => "10GHZ"@,
        Band::F24GHZ => "24GHZ"@,
        Band::F47GHZ => "47GHZ"@,
        Band::F76GHZ => "76GHZ"@,
    }
}

/// The band at position `i` of the filter's list (`Band::all`).
pub open spec fn spec_band_at(i: int) -> Band {
    if i == 0 {
        Band::All
    } else if i == 1 {
        Band::B2200m
    } else if i == 2 {
        Band::B630m
    } else if i == 3 {
        Band::B160m
    } else if i == 4 {
        Band::B80m
    } else if i == 5 {
        Band::B60m
    } else if i == 6 {
        Band::B40m
    } else if i == 7 {
        Band::B30m
    } else if i == 8 {
        Band::B20m
    } else if i == 9 {
        Band::B17m
    } else if i == 10 {
        Band::B15m
    } else if i == 11 {
        Band::B12m
    } else if i == 12 {
        Band::B10m
    } else if i == 13 {
        Band::B6m
    } else if i == 14 {
        Band::B2m
    } else if i == 15 {
        Band::B1_25M
    } else if i == 16 {
        Band::B70CM
    } else if i == 17 {
        Band::B33CM
    } else if i == 18 {
        Band::B23CM
    } else if i == 19 {
        Band::F2_4GHZ
    } else if i == 20 {
        Band::F3_4GHZ
    } else if i == 21 {
        Band::F5_8GHZ
    } else if i == 22 {
        Band::F10GHZ
    } else if i == 23 {
        Band::F24GHZ
    } else if i == 24 {
        Band::F47GHZ
    } else {
        Band::F76GHZ
    }
}

/// The bands in the order the filter lists them.
pub open spec fn spec_all_bands() -> Seq<Band> {
    Seq::new(26, |i: int| spec_band_at(i))
}

/// The wavelength, in centimetres, that names a band named by wavelength
/// (`20M` is 2000 cm).
pub open spec fn spec_band_wavelength_cm(b: Band) -> Option<int> {
    match b {
        Band::B2200m => Some(220000int),
        Band::B630m => Some(63000int),
        Band::B160m => Some(16000int),
        Band::B80m => Some(8000int),
        Band::B60m => Some(6000int),
        Band::B40m => Some(4000int),
        Band::B30m => Some(3000int),
        Band::B20m => Some(2000int),
        Band::B17m => Some(1700int),
        Band::B15m => Some(1500int),
        Band::B12m => Some(1200int),
        Band::B10m => Some(1000int),
        Band::B6m => Some(600int),
        Band::B2m => Some(200int),
        Band::B1_25M => Some(125int),
        Band::B70CM => Some(70int),
        Band::B33CM => Some(33int),
        Band::B23CM => Some(23int),
        _ => None,
    }
}

/// The frequency, in Hz, that names a band named by frequency (`2.4GHZ`).
pub open spec fn spec_band_named_frequency(b: Band) -> Option<int> {
    match b {
        Band::F2_4GHZ => Some(2_400_000_000int),
        Band::F3_4GHZ => Some(3_400_000_000int),
        Band::F5_8GHZ => Some(5_800_000_000int),
        Band::F10GHZ => Some(10_000_000_000int),
        Band::F24GHZ => Some(24_000_000_000int),
        Band::F47GHZ => Some(47_000_000_000int),
        Band::F76GHZ => Some(76_000_000_000int),
        _ => None,
    }
}

/// The speed of light, in metres per second.
pub const SPEED_OF_LIGHT: u64 = 299_792_458;

proof fn lemma_band_range_adjacent(i: int)
    requires
        1 <= i < 25,
    ensures
        spec_band_range(spec_band_at(i)) matches Some(a) && spec_band_range(spec_band_at(i + 1)) matches Some(b)
            && a.0 < a.1 < b.0 < b.1,
{
}

/// The bands' frequency ranges follow the order in which the filter lists
/// them: every band but `All` has a range, and a band listed later lies
/// wholly above one listed earlier, so no two ranges overlap.
pub proof fn law_band_ranges_ordered(i: int, j: int)
    requires
        1 <= i < j < spec_all_bands().len(),
    ensures
        spec_band_range(spec_all_bands()[0]) is None,
        spec_band_range(spec_all_bands()[i]) matches Some(a) && spec_band_range(spec_all_bands()[j]) matches Some(b)
            && a.0 < a.1 < b.0 < b.1,
    decreases j - i,
{
    lemma_band_range_adjacent(j - 1);
    if j - 1 > i {
        law_band_ranges_ordered(i, j - 1);
    }
}

/// Each band's range fits its name: a band named by a wavelength `w`
/// holds only frequencies whose wavelength lies within a tenth of `w`
/// (`f * w` within 10% of the speed of light), and a band named by a
/// frequency holds that frequency.
pub proof fn law_band_range_fits_name(b: Band)
    ensures
        b != Band::All ==> spec_band_range(b) is Some,
        spec_band_range(b) matches Some(r) ==> (spec_band_wavelength_cm(b) matches Some(w) ==> 90 * SPEED_OF_LIGHT
            <= r.0 * w && r.1 * w <= 110 * SPEED_OF_LIGHT),
        spec_band_range(b) matches Some(r) ==> (spec_band_named_frequency(b) matches Some(f) ==> r.0 <= f <= r.1),
        b != Band::All ==> (spec_band_wavelength_cm(b) is Some || spec_band_named_frequency(b) is Some),
{
}

impl Band {
    /// Every band, in the order the filter lists them.
    pub fn all() -> (v: Vec<Band>)
        ensures
            v@ == seq![
                Band::All,
                Band::B2200m,
                Band::B630m,
                Band::B160m,
                Band::B80m,
                Band::B60m,
                Band::B40m,
                Band::B30m,
                Band::B20m,
                Band::B17m,
                Band::B15m,
                Band::B12m,
                Band::B10m,
                Band::B6m,
                Band::B2m,
                Band::B1_25M,
                Band::B70CM,
                Band::B33CM,
                Band::B23CM,
                Band::F2_4GHZ,
                Band::F3_4GHZ,
                Band::F5_8GHZ,
                Band::F10GHZ,
                Band::F24GHZ,
                Band::F47GHZ,
                Band::F76GHZ,
            ],
            v@ == spec_all_bands(),
    {
        let v = vec![Band::All, Band::B2200m, Band::B630m, Band::B160m, Band::B80m, Band::B60m, Band::B40m, Band::B30m, Band::B20m, Band::B17m, Band::B15m, Band::B12m, Band::B10m, Band::B6m, Band::B2m, Band::B1_25M, Band::B70CM, Band::B33CM, Band::B23CM, Band::F2_4GHZ, Band::F3_4GHZ, Band::F5_8GHZ, Band::F10GHZ, Band::F24GHZ, Band::F47GHZ, Band::F76GHZ];
        v
    }

    /// Return the frequency range of the band, or None if the band is All
    pub fn freq_range(&self) -> (r: Option<(u64, u64)>)
        ensures
            r == spec_band_range(*self),
    {
        match self {
            Band::All => None,
            Band::B2200m => Some((135_700, 137_800)),
            Band::B630m => Some((472_000, 479_000)),
            Band::B160m => Some((1_800_000, 2_000_000)),
            Band::B80m => Some((3_500_000, 4_000_000)),
            Band::B60m => Some((5_330_500, 5_407_800)),
            Band::B40m => Some((7_000_000, 7_300_000)),
            Band::B30m => Some((10_100_000, 10_150_000)),
            Band::B20m => Some((14_000_000, 14_350_000)),
            Band::B17m => Some((18_068_000, 18_168_000)),
            Band::B15m => Some((21_000_000, 21_450_000)),
            Band::B12m => Some((24_890_000, 24_990_000)),
            Band::B10m => Some((28_000_000, 29_700_000)),
            Band::B6m => Some((50_000_000, 54_000_000)),
            Band::B2m => Some((144_000_000, 148_000_000)),
            Band::B1_25M => Some((219_000_000, 225_000_000)),
            Band::B70CM => Some((420_000_000, 450_000_000)),
            Band::B33CM => Some((902_000_000, 928_000_000)),
            Band::B23CM => Some((1_240_000_000, 1_300_000_000)),
            Band::F2_4GHZ => Some((2_300_000_000, 2_450_000_000)),
            Band::F3_4GHZ => Some((3_300_000_000, 3_500_000_000)),
            Band::F5_8GHZ => Some((5_650_000_000, 5_925_000_000)),
            Band::F10GHZ => Some((10_000_000_000, 10_500_000_000)),
            Band::F24GHZ => Some((24_000_000_000, 24_250_000_000)),
            Band::F47GHZ => Some((47_000_000_000, 47_200_000_000)),
            Band::F76GHZ => Some((76_000_000_000, 81_000_000_000)),
        }
    }

    /// Return the name of the band as a string
    pub fn as_str(&self) -> (r: &'static str)
        ensures
            r@ == spec_band_name(*self),
    {
        match self {
            Band::All => "All",
            Band::B2200m => "2200M",
            Band::B630m => "630M",
            Band::B160m => "160M",
            Band::B80m => "80M",
            Band::B60m => "60M",
            Band::B40m => "40M",
            Band::B30m => "30M",
            Band::B20m => "20M",
            Band::B17m => "17M",
            Band::B15m => "15M",
            Band::B12m => "12M",
            Band::B10m => "10M",
            Band::B6m => "6M",
            Band::B2m => "2M",
            Band::B1_25M => "1.25M",
            Band::B70CM => "70CM",
            Band::B33CM => "33CM",
            Band::B23CM => "23CM",
            Band::F2_4GHZ => "2.4GHZ",
            Band::F3_4GHZ => "3.4GHZ",
            Band::F5_8GHZ => "5.8GHZ",
            Band::F10GHZ => "10GHZ",
            Band::F24GHZ => "24GHZ",
            Band::F47GHZ => "47GHZ",
            Band::F76GHZ => "76GHZ",
        }
    }
}

/// A mode filter for the PSKReporter API
#[derive(Debug, Clone, Copy, PartialEq, Eq, Structural)]
pub enum Mode {
    /// All modes
    All,
    /// FT8 mode
    FT8,
    /// FT4 mode
    FT4,
    /// JS8 mode
    JS8,
    /// PSK31 mode
    PSK31,
    /// WSPR mode
    WSPR,
    /// CW mode
    CW,
}

/// The mode as the API spells it, or `None` for all modes.
pub open spec fn spec_mode_string(m: Mode) -> Option<Seq<char>> {
    match m {
        Mode::All => None,
        Mode::FT8 => Some("FT8"@),
        Mode::FT4 => Some("FT4"@),
        Mode::JS8 => Some("JS8"@),
        Mode::PSK31 => Some("PSK31"@),
        Mode::WSPR => Some("WSPR"@),
        Mode::CW => Some("CW"@),
    }
}

/// The name of a mode filter.
pub open spec fn spec_mode_name(m: Mode) -> Seq<char> {
    match m {
        Mode::All => "All"@,
        Mode::FT8 => "FT8"@,
        Mode::FT4 => "FT4"@,
        Mode::JS8 => "JS8"@,
        Mode::PSK31 => "PSK31"@,
        Mode::WSPR => "WSPR"@,
        Mode::CW => "CW"@,
    }
}

impl Mode {
    /// Every mode filter, in the order the filter lists them.
    pub fn all() -> (v: Vec<Mode>)
        ensures
            v@ == seq![
                Mode::All,
                Mode::FT8,
                Mode::FT4,
                Mode::JS8,
                Mode::PSK31,
                Mode::WSPR,
                Mode::CW,
            ],
    {
        let v = vec![Mode::All, Mode::FT8, Mode::FT4, Mode::JS8, Mode::PSK31, Mode::WSPR, Mode::CW];
        v
    }

    /// Return the mode string for the mode
    pub fn mode_string(&self) -> (r: Option<&'static str>)
        ensures
            r matches Some(s) ==> spec_mode_string(*self) == Some(s@),
            r is None <==> spec_mode_string(*self) is None,
    {
        match self {
            Mode::All => None,
            Mode::FT8 => Some("FT8"),
            Mode::FT4 => Some("FT4"),
            Mode::JS8 => Some("JS8"),
            Mode::PSK31 => Some("PSK31"),
            Mode::WSPR => Some("WSPR"),
            Mode::CW => Some("CW"),
        }
    }

    /// Return the name of the mode as a string
    pub fn as_str(&self) -> (r: &'static str)
        ensures
            r@ == spec_mode_name(*self),
    {
        match self {
            Mode::All => "All",
            Mode::FT8 => "FT8",
            Mode::FT4 => "FT4",
            Mode::JS8 => "JS8",
            Mode::PSK31 => "PSK31",
            Mode::WSPR => "WSPR",
            Mode::CW => "CW",
        }
    }
}

/// A last-duration filter for the PSKReporter API
#[derive(Debug, Clone, Copy, PartialEq, Eq, Structural)]
pub enum Last {
    Hours24,
    Hours12,
    Hours6,
    Hours3,
    Hours2,
    Hours1,
    Minutes30,
    Minutes15,
}

/// The length of a last-duration filter, in seconds.
pub open spec fn spec_last_seconds(l: Last) -> u64 {
    match l {
        Last::Hours24 => 86_400,
        Last::Hours12 => 43_200,
        Last::Hours6 => 21_600,
        Last::Hours3 => 10_800,
        Last::Hours2 => 7_200,
        Last::Hours1 => 3_600,
        Last::Minutes30 => 1_800,
        Last::Minutes15 => 900,
    }
}

/// The name of a last-duration filter.
pub open spec fn spec_last_name(l: Last) -> Seq<char> {
    match l {
        Last::Hours24 => "24 Hours"@,
        Last::Hours12 => "12 Hours"@,
        Last::Hours6 => "6 Hours"@,
        Last::Hours3 => "3 Hours"@,
        Last::Hours2 => "2 Hours"@,
        Last::Hours1 => "1 Hour"@,
        Last::Minutes30 => "30 Minutes"@,
        Last::Minutes15 => "15 Minutes"@,
    }
}

impl Last {
    /// Every last-duration filter, in the order the filter lists them.
    pub fn all() -> (v: Vec<Last>)
        ensures
            v@ == seq![
                Last::Hours24,
                Last::Hours12,
                Last::Hours6,
                Last::Hours3,
                Last::Hours2,
                Last::Hours1,
                Last::Minutes30,
                Last::Minutes15,
            ],
    {
        let v = vec![Last::Hours24, Last::Hours12, Last::Hours6, Last::Hours3, Last::Hours2, Last::Hours1, Last::Minutes30, Last::Minutes15];
        v
    }

    /// Return the duration of self, in seconds
    pub fn as_duration(&self) -> (r: u64)
        ensures
            r == spec_last_seconds(*self),
    {
        match self {
            Last::Hours24 => 86_400,
            Last::Hours12 => 43_200,
            Last::Hours6 => 21_600,
            Last::Hours3 => 10_800,
            Last::Hours2 => 7_200,
            Last::Hours1 => 3_600,
            Last::Minutes30 => 1_800,
            Last::Minutes15 => 900,
        }
    }

    /// Return the name of the last duration as a string
    pub fn as_str(&self) -> (r: &'static str)
        ensures
            r@ == spec_last_name(*self),
    {
        match self {
            Last::Hours24 => "24 Hours",
            Last::Hours12 => "12 Hours",
            Last::Hours6 => "6 Hours",
            Last::Hours3 => "3 Hours",
            Last::Hours2 => "2 Hours",
            Last::Hours1 => "1 Hour",
            Last::Minutes30 => "30 Minutes",
            Last::Minutes15 => "15 Minutes",
        }
    }
}

/// The number of bytes that the first `k` characters of `t` occupy.
pub open spec fn spec_offset(t: Seq<char>, k: int) -> int {
    spec_byte_len(t.take(k))
}

proof fn lemma_offset_step(t: Seq<char>, k: int)
    requires
        0 <= k < t.len(),
    ensures
        spec_offset(t, k + 1) == spec_offset(t, k) + spec_utf8_len(t[k]),
{
    assert(t.take(k + 1).drop_last() =~= t.take(k));
}

/// Offsets grow strictly with the number of characters.
proof fn lemma_offset_strict(t: Seq<char>, j: int, k: int)
    requires
        0 <= j < k <= t.len(),
    ensures
        spec_offset(t, j) < spec_offset(t, k),
    decreases k - j,
{
    lemma_offset_step(t, k - 1);
    if j < k - 1 {
        lemma_offset_strict(t, j, k - 1);
    }
}

/// Whether the JSONP-wrapped body `t` can be cut: it is at least 12 bytes
/// long, and a character starts at byte 10 and at two bytes before its end.
pub open spec fn spec_jsonp_cuttable(t: Seq<char>) -> bool {
    &&& spec_byte_len(t) >= 12
    &&& exists|k: int| 0 <= k <= t.len() && #[trigger] spec_offset(t, k) == 10
    &&& exists|m: int| 0 <= m <= t.len() && #[trigger] spec_offset(t, m) == spec_byte_len(t) - 2
}

/// The index of the character that begins at byte `target` of `t[a..b]`.
fn find_char_at_byte(v: &Vec<char>, a: usize, b: usize, target: u128) -> (r: Option<usize>)
    requires
        a <= b <= v.len(),
    ensures
        r matches Some(k) ==> k <= b - a && spec_offset(v@.subrange(a as int, b as int), k as int)
            == target,
        r is None ==> forall|k: int|
            0 <= k <= b - a ==> #[trigger] spec_offset(v@.subrange(a as int, b as int), k) != target,
{
    let ghost t = v@.subrange(a as int, b as int);
    let mut pos: u128 = 0;
    let mut i: usize = 0;
    assert(t.take(0).len() == 0);
    while i < b - a
        invariant
            a <= b <= v.len(),
            t == v@.subrange(a as int, b as int),
            i <= b - a,
            pos == spec_offset(t, i as int),
            pos <= 4 * i,
            forall|k: int| 0 <= k < i ==> #[trigger] spec_offset(t, k) != target,
        decreases b - a - i,
    {
        if pos == target {
            return Some(i);
        }
        proof {
            lemma_offset_step(t, i as int);
        }
        assert(t[i as int] == v@[a + i]);
        pos = pos + utf8_len(v[a + i]) as u128;
        i = i + 1;
    }
    if pos == target {
        Some(i)
    } else {
        None
    }
}

/// The body of a JSONP response, trimmed, without its first 10 and last 2
/// bytes; `None` on text that cannot be cut there (shorter than 12 bytes
/// once trimmed, or with a character across a cut).
pub fn jsonp_body(text: &str) -> (r: Option<String>)
    ensures
        r is Some <==> spec_jsonp_cuttable(spec_trim(text@)),
        r matches Some(body) ==> forall|k: int, m: int|
            0 <= k <= spec_trim(text@).len() && 0 <= m <= spec_trim(text@).len() && spec_offset(
                spec_trim(text@),
                k,
            ) == 10 && spec_offset(spec_trim(text@), m) == spec_byte_len(spec_trim(text@)) - 2
                ==> body@ == spec_trim(text@).subrange(k, m),
{
    let v = chars_of(text);
    let (a, b) = trim_bounds(&v);
    let ghost t = v@.subrange(a as int, b as int);
    assert(t == spec_trim(text@));
    let mut total: u128 = 0;
    let mut i: usize = a;
    assert(t.take(0).len() == 0);
    while i < b
        invariant
            a <= i <= b <= v.len(),
            t == v@.subrange(a as int, b as int),
            total == spec_offset(t, i - a),
            total <= 4 * (i - a),
        decreases b - i,
    {
        proof {
            lemma_offset_step(t, i - a);
        }
        assert(t[i - a] == v@[i as int]);
        total = total + utf8_len(v[i]) as u128;
        i = i + 1;
    }
    assert(t.take(t.len() as int) =~= t);
    assert(total == spec_byte_len(t));
    if total < 12 {
        return None;
    }
    let k = find_char_at_byte(&v, a, b, 10);
    let m = find_char_at_byte(&v, a, b, total - 2);
    match (k, m) {
        (Some(k), Some(m)) => {
            proof {
                if m < k {
                    lemma_offset_strict(t, m as int, k as int);
                }
                assert forall|k2: int, m2: int|
                    0 <= k2 <= t.len() && 0 <= m2 <= t.len() && spec_offset(t, k2) == 10 && spec_offset(
                        t,
                        m2,
                    ) == spec_byte_len(t) - 2 implies k2 == k && m2 == m by {
                    if k2 < k {
                        lemma_offset_strict(t, k2, k as int);
                    } else if k2 > k {
                        lemma_offset_strict(t, k as int, k2);
                    }
                    if m2 < m {
                        lemma_offset_strict(t, m2, m as int);
                    } else if m2 > m {
                        lemma_offset_strict(t, m as int, m2);
                    }
                }
            }
            let body = string_of_range(&v, a + k, a + m);
            assert(body@ =~= t.subrange(k as int, m as int));
            Some(body)
        },
        _ => None,
    }
}

proof fn lemma_byte_len_concat(a: Seq<char>, b: Seq<char>)
    ensures
        spec_byte_len(a + b) == spec_byte_len(a) + spec_byte_len(b),
    decreases b.len(),
{
    if b.len() == 0 {
        assert(a + b =~= a);
    } else {
        lemma_byte_len_concat(a, b.drop_last());
        assert((a + b).drop_last() =~= a + b.drop_last());
        assert((a + b).last() == b.last());
    }
}

proof fn lemma_byte_len_nonneg(s: Seq<char>)
    ensures
        spec_byte_len(s) >= 0,
    decreases s.len(),
{
    if s.len() > 0 {
        lemma_byte_len_nonneg(s.drop_last());
    }
}

proof fn lemma_ascii_byte_len(s: Seq<char>)
    requires
        forall|i: int| 0 <= i < s.len() ==> (#[trigger] s[i] as u32) < 0x80,
    ensures
        spec_byte_len(s) == s.len(),
    decreases s.len(),
{
    if s.len() > 0 {
        let p = s.drop_last();
        assert forall|i: int| 0 <= i < p.len() implies (#[trigger] p[i] as u32) < 0x80 by {
            assert(p[i] == s[i]);
        }
        lemma_ascii_byte_len(p);
        assert((s[s.len() - 1] as u32) < 0x80);
    }
}

/// Unwrapping a JSONP response gives back the body that the API wrapped in
/// `doNothing(...);`, whatever the body is: the wrapped text can be cut,
/// and the cut falls exactly around the body.
pub proof fn law_jsonp_unwraps(body: Seq<char>)
    ensures
        ({
            let w = "doNothing("@ + body + ");"@;
            &&& spec_trim(w) == w
            &&& spec_jsonp_cuttable(spec_trim(w))
            &&& spec_offset(spec_trim(w), 10) == 10
            &&& spec_offset(spec_trim(w), 10 + body.len() as int) == spec_byte_len(spec_trim(w)) - 2
            &&& spec_trim(w).subrange(10, 10 + body.len() as int) == body
        }),
{
    reveal_strlit("doNothing(");
    reveal_strlit(");");
    let pre = "doNothing("@;
    let post = ");"@;
    let w = pre + body + post;
    assert(pre.len() == 10 && post.len() == 2);
    lemma_ascii_byte_len(pre);
    lemma_ascii_byte_len(post);
    assert(w[0] == 'd');
    assert(!spec_is_whitespace(w[0]));
    assert(spec_trim_start(w) == w);
    assert(w.last() == ';');
    assert(!spec_is_whitespace(w.last()));
    assert(spec_trim_end(w) == w);
    lemma_byte_len_concat(pre, body);
    lemma_byte_len_concat(pre + body, post);
    assert(w.take(10) =~= pre);
    assert(w.take(10 + body.len() as int) =~= pre + body);
    assert(spec_offset(w, 10) == 10);
    assert(spec_offset(w, 10 + body.len() as int) == spec_byte_len(w) - 2);
    assert(w.subrange(10, 10 + body.len() as int) =~= body);
    lemma_byte_len_nonneg(body);
    assert(spec_byte_len(w) >= 12);
}

/// Whether a JSONP response can be unwrapped: once trimmed it is at least
/// 12 bytes long, and no character straddles byte 10 or the byte 2 before
/// its end.
pub fn is_jsonp_cuttable(text: &str) -> (r: bool)
    ensures
        r == spec_jsonp_cuttable(spec_trim(text@)),
{
    jsonp_body(text).is_some()
}

/// Unwraps a JSONP response `doNothing(...);`: trims surrounding
/// whitespace and drops the first 10 and the last 2 bytes.
pub fn strip_jsonp(text: &str) -> (r: String)
    requires
        spec_jsonp_cuttable(spec_trim(text@)),
    ensures
        forall|k: int, m: int|
            0 <= k <= spec_trim(text@).len() && 0 <= m <= spec_trim(text@).len() && spec_offset(spec_trim(text@), k)
                == 10 && spec_offset(spec_trim(text@), m) == spec_byte_len(spec_trim(text@)) - 2 ==> r@
                == spec_trim(text@).subrange(k, m),
{
    jsonp_body(text).unwrap()
}

/// The message the API answers with when it rate-limits a client.
pub const RATE_LIMIT_MESSAGE: &'static str = "Your IP has made too many queries too often. Please moderate your requests.";

/// Why a PSKReporter response could not be read.
#[derive(Debug, Clone, Copy, PartialEq, Eq, Structural)]
pub enum ResponseFailure {
    /// The API rate limit was exceeded.
    RateLimited,
    /// The response body was not a valid report list.
    Deserialize,
}

/// Classifies a response that did not parse as a report list, given the
/// `message` of the failure object that the whole text parsed as, if any.
pub fn classify_failure(message: Option<&str>) -> (r: ResponseFailure)
    ensures
        r == (if message matches Some(m) && m@ == RATE_LIMIT_MESSAGE@ {
            ResponseFailure::RateLimited
        } else {
            ResponseFailure::Deserialize
        }),
{
    match message {
        Some(m) => {
            if str_equal(m, RATE_LIMIT_MESSAGE) {
                ResponseFailure::RateLimited
            } else {
                ResponseFailure::Deserialize
            }
        },
        None => ResponseFailure::Deserialize,
    }
}

/// The JSON text inside a PSKReporter response `text`, or the failure that
/// the response stands for when it cannot be cut out of its JSONP call:
/// the rate limit when the whole text is the failure object with the rate
/// limit message (`failure_message`), a failure to read it otherwise.
pub fn unwrap_response(text: &str, failure_message: Option<&str>) -> (r: Result<String, ResponseFailure>)
    ensures
        spec_jsonp_cuttable(spec_trim(text@)) ==> r is Ok,
        r matches Ok(body) ==> forall|k: int, m: int|
            0 <= k <= spec_trim(text@).len() && 0 <= m <= spec_trim(text@).len() && spec_offset(
                spec_trim(text@),
                k,
            ) == 10 && spec_offset(spec_trim(text@), m) == spec_byte_len(spec_trim(text@)) - 2
                ==> body@ == spec_trim(text@).subrange(k, m),
        !spec_jsonp_cuttable(spec_trim(text@)) ==> r == Err::<String, ResponseFailure>(
            if failure_message matches Some(m) && m@ == RATE_LIMIT_MESSAGE@ {
                ResponseFailure::RateLimited
            } else {
                ResponseFailure::Deserialize
            },
        ),
{
    match jsonp_body(text) {
        Some(body) => Ok(body),
        None => Err(classify_failure(failure_message)),
    }
}

/// Character-by-character comparison of two strings.
pub fn str_equal(a: &str, b: &str) -> (r: bool)
    ensures
        r == (a@ == b@),
{
    let x = chars_of(a);
    let y = chars_of(b);
    if x.len() != y.len() {
        return false;
    }
    let mut i: usize = 0;
    while i < x.len()
        invariant
            x@ == a@,
            y@ == b@,
            x.len() == y.len(),
            i <= x.len(),
            forall|j: int| 0 <= j < i ==> x@[j] == y@[j],
        decreases x.len() - i,
    {
        if x[i] != y[i] {
            return false;
        }
        i = i + 1;
    }
    assert(x@ =~= y@);
    true
}

/// The characters of each key and value of a list of query parameters.
pub open spec fn spec_pairs(v: Seq<(String, String)>) -> Seq<(Seq<char>, Seq<char>)> {
    v.map_values(|p: (String, String)| (p.0@, p.1@))
}

/// The query parameters that select the reception reports of `callsign`:
/// heard by it when `received`, sent by it otherwise.
pub open spec fn spec_query_params(callsign: Seq<char>, received: bool, band: Band, mode: Mode, last: Last) -> Seq<
    (Seq<char>, Seq<char>),
> {
    (match spec_mode_string(mode) {
        Some(m) => seq![("mode"@, m)],
        None => Seq::empty(),
    }) + seq![
        ("flowStartSeconds"@, spec_signed_decimal(-(spec_last_seconds(last) as int))),
        ("rronly"@, "1"@),
        (if received { "receiverCallsign"@ } else { "senderCallsign"@ }, callsign),
    ] + (match spec_band_range(band) {
        Some(r) => seq![("frange"@, spec_decimal(r.0 as nat) + seq!['-'] + spec_decimal(r.1 as nat))],
        None => Seq::empty(),
    })
}

/// The query for signals a callsign received and the one for signals it
/// sent carry the same filters in the same places and differ only in the
/// key that names the callsign.
pub proof fn law_query_direction(callsign: Seq<char>, band: Band, mode: Mode, last: Last)
    ensures
        ({
            let rx = spec_query_params(callsign, true, band, mode, last);
            let tx = spec_query_params(callsign, false, band, mode, last);
            let k: int = if spec_mode_string(mode) is Some { 3 } else { 2 };
            &&& rx.len() == tx.len()
            &&& rx[k] == ("receiverCallsign"@, callsign)
            &&& tx[k] == ("senderCallsign"@, callsign)
            &&& forall|i: int| 0 <= i < rx.len() && i != k ==> rx[i] == tx[i]
        }),
{
}

fn owned(s: &str) -> (r: String)
    ensures
        r@ == s@,
{
    let mut r = String::new();
    push_str(&mut r, s);
    assert(r@ =~= s@);
    r
}

fn push_pair(v: &mut Vec<(String, String)>, key: &str, value: String)
    ensures
        spec_pairs(final(v)@) == spec_pairs(old(v)@).push((key@, value@)),
{
    let ghost before = v@;
    v.push((owned(key), value));
    assert(spec_pairs(v@) =~= spec_pairs(before).push((key@, value@)));
}

/// A query to the PSKReporter API: its parameters, one value per key.
#[derive(Debug, Clone)]
pub struct ApiQueryBuilder {
    pub query: Vec<(String, String)>,
}

impl ApiQueryBuilder {
    /// The PSKReporter API URL
    pub const URL: &'static str = "https://retrieve.pskreporter.info/query";

    fn build(callsign: &str, received: bool, band: Band, mode: Mode, last: Last) -> (r: ApiQueryBuilder)
        ensures
            spec_pairs(r.query@) == spec_query_params(callsign@, received, band, mode, last),
    {
        let ghost mode_part: Seq<(Seq<char>, Seq<char>)> = match spec_mode_string(mode) {
            Some(m) => seq![("mode"@, m)],
            None => Seq::empty(),
        };
        let ghost key: Seq<char> = if received { "receiverCallsign"@ } else { "senderCallsign"@ };
        let ghost middle: Seq<(Seq<char>, Seq<char>)> = seq![
            ("flowStartSeconds"@, spec_signed_decimal(-(spec_last_seconds(last) as int))),
            ("rronly"@, "1"@),
            (key, callsign@),
        ];
        let ghost band_part: Seq<(Seq<char>, Seq<char>)> = match spec_band_range(band) {
            Some(r) => seq![("frange"@, spec_decimal(r.0 as nat) + seq!['-'] + spec_decimal(r.1 as nat))],
            None => Seq::empty(),
        };
        let mut query: Vec<(String, String)> = Vec::new();
        assert(spec_pairs(query@) =~= Seq::empty());
        if let Some(mode_string) = mode.mode_string() {
            push_pair(&mut query, "mode", owned(mode_string));
        }
        assert(spec_pairs(query@) =~= mode_part);
        let mut secs = String::new();
        push_signed_decimal(&mut secs, -(last.as_duration() as i64));
        assert(secs@ =~= spec_signed_decimal(-(spec_last_seconds(last) as int)));
        push_pair(&mut query, "flowStartSeconds", secs);
        push_pair(&mut query, "rronly", owned("1"));
        if received {
            push_pair(&mut query, "receiverCallsign", owned(callsign));
        } else {
            push_pair(&mut query, "senderCallsign", owned(callsign));
        }
        assert(spec_pairs(query@) =~= mode_part + middle);
        if let Some((min_freq, max_freq)) = band.freq_range() {
            let mut range = String::new();
            push_decimal(&mut range, min_freq);
            push_char(&mut range, '-');
            push_decimal(&mut range, max_freq);
            assert(range@ =~= spec_decimal(min_freq as nat) + seq!['-'] + spec_decimal(max_freq as nat));
            push_pair(&mut query, "frange", range);
        }
        assert(spec_pairs(query@) =~= mode_part + middle + band_part);
        ApiQueryBuilder { query }
    }

    /// The query for the reception reports heard by `callsign` on `band`
    /// in `mode` over the last `last`.
    pub fn received_by_query(callsign: &str, band: Band, mode: Mode, last: Last) -> (r: ApiQueryBuilder)
        ensures
            spec_pairs(r.query@) == spec_query_params(callsign@, true, band, mode, last),
    {
        Self::build(callsign, true, band, mode, last)
    }

    /// The query for the reception reports of signals sent by `callsign`
    /// on `band` in `mode` over the last `last`.
    pub fn sent_by_query(callsign: &str, band: Band, mode: Mode, last: Last) -> (r: ApiQueryBuilder)
        ensures
            spec_pairs(r.query@) == spec_query_params(callsign@, false, band, mode, last),
    {
        Self::build(callsign, false, band, mode, last)
    }

    /// The parameters to send: those of the query, and the callback
    /// `doNothing` that makes the API answer in JSON.
    pub fn into_params(self) -> (r: Vec<(String, String)>)
        ensures
            spec_pairs(r@) == spec_pairs(self.query@).push(("callback"@, "doNothing"@)),
    {
        let mut query = self.query;
        push_pair(&mut query, "callback", owned("doNothing"));
        query
    }
}

/// The search form of the PSKReporter tab: the callsign typed, whether to
/// look for signals it sent or signals it received, and the filters.
#[derive(Debug, Clone)]
pub struct SearchForm {
    pub callsign: String,
    pub sent_by: bool,
    pub band: Band,
    pub mode: Mode,
    pub last: Last,
}

impl Default for SearchForm {
    /// An empty callsign, signals received, all bands and modes, the last
    /// fifteen minutes.
    fn default() -> (f: SearchForm)
        ensures
            f.callsign@ == Seq::<char>::empty(),
            !f.sent_by,
            f.band == Band::All,
            f.mode == Mode::All,
            f.last == Last::Minutes15,
    {
        SearchForm { callsign: String::new(), sent_by: false, band: Band::All, mode: Mode::All, last: Last::Minutes15 }
    }
}

/// The label of the sent-by / received-by choice.
pub fn direction_label(sent_by: bool) -> (r: &'static str)
    ensures
        r@ == (if sent_by { "Sent by"@ } else { "Received by"@ }),
{
    if sent_by {
        "Sent by"
    } else {
        "Received by"
    }
}

impl SearchForm {
    /// The query that the search button sends: for signals sent by the
    /// callsign, or else for signals it received.
    pub fn query(&self) -> (r: ApiQueryBuilder)
        ensures
            spec_pairs(r.query@) == spec_query_params(self.callsign@, !self.sent_by, self.band, self.mode, self.last),
    {
        if self.sent_by {
            ApiQueryBuilder::sent_by_query(self.callsign.as_str(), self.band, self.mode, self.last)
        } else {
            ApiQueryBuilder::received_by_query(self.callsign.as_str(), self.band, self.mode, self.last)
        }
    }
}

/// A reception report from the PSKReporter API.
#[derive(Debug, Clone, Default)]
pub struct ReceptionReport {
    /// The callsign of the receiving station
    pub rx_callsign: String,
    /// The grid square of the receiving station
    pub rx_grid: String,
    /// The callsign of the transmitting station
    pub tx_callsign: String,
    /// The grid square of the transmitting station
    pub tx_grid: String,
    /// The frequency that the station was heard on
    pub frequency: u64,
    /// The time the report was generated
    pub time: u64,
    /// The mode that the transmitting station used
    pub mode: String,
    /// The signal to noise ratio of the transmitting station
    pub snr: i8,
}

impl ReceptionReport {
    /// A copy of the report.
    pub fn duplicate(&self) -> (r: ReceptionReport)
        ensures
            r == *self,
    {
        ReceptionReport {
            rx_callsign: self.rx_callsign.clone(),
            rx_grid: self.rx_grid.clone(),
            tx_callsign: self.tx_callsign.clone(),
            tx_grid: self.tx_grid.clone(),
            frequency: self.frequency,
            time: self.time,
            mode: self.mode.clone(),
            snr: self.snr,
        }
    }
}

/// A marker shown on the PSKReporter map. Locations are centres of grid
/// squares, in 1/48 of a degree.
#[derive(Debug, Clone)]
pub enum MapMarker {
    /// A transmitter on the pskreporter map
    Transmitter { id: u64, location: GridPoint, grid: String, callsign: String, mode: String },
    /// A receiver on the pskreporter map
    Receiver { id: u64, location: GridPoint, grid: String, callsign: String, mode: String },
    /// A reception report regarding a transmitter on the pskreporter map
    ReceptionReportTransmitter {
        id: u64,
        location: GridPoint,
        rx_location: GridPoint,
        inner: ReceptionReport,
    },
    /// A reception report regarding a receiver on the pskreporter map
    ReceptionReportReceiver {
        id: u64,
        location: GridPoint,
        tx_location: GridPoint,
        inner: ReceptionReport,
    },
}

/// The location of a marker.
pub open spec fn spec_marker_location(m: MapMarker) -> GridPoint {
    match m {
        MapMarker::Transmitter { location, .. } => location,
        MapMarker::Receiver { location, .. } => location,
        MapMarker::ReceptionReportTransmitter { location, .. } => location,
        MapMarker::ReceptionReportReceiver { location, .. } => location,
    }
}

impl MapMarker {
    /// The ID of the marker.
    pub fn id(&self) -> (r: u64)
        ensures
            r == match *self {
                MapMarker::Transmitter { id, .. } => id,
                MapMarker::Receiver { id, .. } => id,
                MapMarker::ReceptionReportTransmitter { id, .. } => id,
                MapMarker::ReceptionReportReceiver { id, .. } => id,
            },
    {
        match self {
            MapMarker::Transmitter { id, .. } => *id,
            MapMarker::Receiver { id, .. } => *id,
            MapMarker::ReceptionReportTransmitter { id, .. } => *id,
            MapMarker::ReceptionReportReceiver { id, .. } => *id,
        }
    }

    /// The location of the marker.
    pub fn location(&self) -> (r: GridPoint)
        ensures
            r == spec_marker_location(*self),
    {
        match self {
            MapMarker::Transmitter { location, .. } => *location,
            MapMarker::Receiver { location, .. } => *location,
            MapMarker::ReceptionReportTransmitter { location, .. } => *location,
            MapMarker::ReceptionReportReceiver { location, .. } => *location,
        }
    }

    /// The colour of the marker (RGBA): blue for stations, red for reports.
    pub fn color(&self) -> (r: [u8; 4])
        ensures
            r@ == (match *self {
                MapMarker::Transmitter { .. } | MapMarker::Receiver { .. } => seq![0u8, 0u8, 255u8, 255u8],
                _ => seq![255u8, 0u8, 0u8, 255u8],
            }),
    {
        let r = match self {
            MapMarker::Transmitter { .. } => [0, 0, 255, 255],
            MapMarker::Receiver { .. } => [0, 0, 255, 255],
            MapMarker::ReceptionReportTransmitter { .. } => [255, 0, 0, 255],
            MapMarker::ReceptionReportReceiver { .. } => [255, 0, 0, 255],
        };
        assert(r@ =~= (match *self {
            MapMarker::Transmitter { .. } | MapMarker::Receiver { .. } => seq![0u8, 0u8, 255u8, 255u8],
            _ => seq![255u8, 0u8, 0u8, 255u8],
        }));
        r
    }

    /// Where a line from the marker goes while it is hovered: to the other
    /// station of a reception report, and nowhere for a station.
    pub fn draw_line_hovered(&self) -> (r: Option<GridPoint>)
        ensures
            r == match *self {
                MapMarker::ReceptionReportTransmitter { rx_location, .. } => Some(rx_location),
                MapMarker::ReceptionReportReceiver { tx_location, .. } => Some(tx_location),
                _ => None,
            },
    {
        match self {
            MapMarker::Transmitter { .. } => None,
            MapMarker::Receiver { .. } => None,
            MapMarker::ReceptionReportTransmitter { rx_location, .. } => Some(*rx_location),
            MapMarker::ReceptionReportReceiver { tx_location, .. } => Some(*tx_location),
        }
    }
}

/// A grid square that the decoder takes without an arithmetic fault.
pub open spec fn spec_decodable_grid(g: Seq<char>) -> bool {
    &&& g.len() <= 255
    &&& forall|i: int| 0 <= i < g.len() ==> spec_decodable_char(#[trigger] g[i])
}

/// Whether `grid` can be decoded into a position.
pub fn is_decodable_grid(grid: &str) -> (r: bool)
    ensures
        r == spec_decodable_grid(grid@),
{
    let v = chars_of(grid);
    if v.len() > 255 {
        return false;
    }
    let mut i: usize = 0;
    while i < v.len()
        invariant
            v@ == grid@,
            i <= v.len(),
            forall|j: int| 0 <= j < i ==> spec_decodable_char(#[trigger] v@[j]),
        decreases v.len() - i,
    {
        let c = crate::text::ascii_upper(v[i]);
        if !(crate::text::is_digit(c) || (c as u32) >= 65) {
            return false;
        }
        i = i + 1;
    }
    true
}

/// The small, fast random number generator of `rand` that marker IDs come
/// from.
#[verifier::external_type_specification]
#[verifier::external_body]
pub struct ExSmallRng(SmallRng);

/// A random marker ID (`RngCore::next_u64`). Nothing is known of its value.
#[verifier::external_body]
fn next_marker_id(rng: &mut SmallRng) -> u64 {
    rng.next_u64()
}

/// `m` is the marker of `report` placed at its transmitter and pointing at
/// the receiver at `rx`.
pub open spec fn spec_tx_report_marker(m: MapMarker, report: ReceptionReport, rx: GridPoint) -> bool {
    match m {
        MapMarker::ReceptionReportTransmitter { location, rx_location, inner, .. } => {
            &&& location == spec_grid_to_lat_lon(report.tx_grid@)
            &&& rx_location == rx
            &&& inner == report
        },
        _ => false,
    }
}

/// `m` is the marker of `report` placed at its receiver and pointing at
/// the transmitter at `tx`.
pub open spec fn spec_rx_report_marker(m: MapMarker, report: ReceptionReport, tx: GridPoint) -> bool {
    match m {
        MapMarker::ReceptionReportReceiver { location, tx_location, inner, .. } => {
            &&& location == spec_grid_to_lat_lon(report.rx_grid@)
            &&& tx_location == tx
            &&& inner == report
        },
        _ => false,
    }
}

/// The markers for the reception reports heard by one receiver: one
/// report marker per report, located at the transmitter and pointing at
/// the receiver, then the receiver itself, taken from the first report.
pub open spec fn spec_received_by_markers(reports: Seq<ReceptionReport>, markers: Seq<MapMarker>) -> bool {
    if reports.len() == 0 {
        markers.len() == 0
    } else {
        let first = reports[0];
        let rx_location = spec_grid_to_lat_lon(first.rx_grid@);
        &&& markers.len() == reports.len() + 1
        &&& (markers.last() matches MapMarker::Receiver { location, grid, callsign, mode, .. }
            && location == rx_location && grid == first.rx_grid && callsign == first.rx_callsign && mode
            == first.mode)
        &&& forall|i: int|
            0 <= i < reports.len() ==> spec_tx_report_marker(#[trigger] markers[i], reports[i], rx_location)
    }
}

/// The markers for the reception reports of one transmitter: one report
/// marker per report, located at the receiver and pointing at the
/// transmitter, then the transmitter itself, taken from the first report.
pub open spec fn spec_sent_by_markers(reports: Seq<ReceptionReport>, markers: Seq<MapMarker>) -> bool {
    if reports.len() == 0 {
        markers.len() == 0
    } else {
        let first = reports[0];
        let tx_location = spec_grid_to_lat_lon(first.tx_grid@);
        &&& markers.len() == reports.len() + 1
        &&& (markers.last() matches MapMarker::Transmitter { location, grid, callsign, mode, .. }
            && location == tx_location && grid == first.tx_grid && callsign == first.tx_callsign && mode
            == first.mode)
        &&& forall|i: int|
            0 <= i < reports.len() ==> spec_rx_report_marker(#[trigger] markers[i], reports[i], tx_location)
    }
}

impl ApiQueryBuilder {
    /// Turns the reports heard by a receiver into map markers; marker IDs
    /// are drawn from `rng`.
    pub fn received_by_markers(reports: &Vec<ReceptionReport>, rng: &mut SmallRng) -> (markers: Vec<MapMarker>)
        requires
            reports.len() > 0 ==> spec_decodable_grid(reports@[0].rx_grid@),
            forall|i: int| 0 <= i < reports.len() ==> spec_decodable_grid(#[trigger] reports@[i].tx_grid@),
        ensures
            spec_received_by_markers(reports@, markers@),
    {
        let mut markers: Vec<MapMarker> = Vec::new();
        if reports.len() == 0 {
            return markers;
        }
        let report = &reports[0];
        let rx_location = grid_to_lat_lon(report.rx_grid.as_str());
        let rx_marker = MapMarker::Receiver {
            id: next_marker_id(rng),
            location: rx_location,
            grid: report.rx_grid.clone(),
            callsign: report.rx_callsign.clone(),
            mode: report.mode.clone(),
        };
        let mut i: usize = 0;
        while i < reports.len()
            invariant
                i <= reports.len(),
                markers.len() == i,
                rx_location == spec_grid_to_lat_lon(reports@[0].rx_grid@),
                forall|i: int| 0 <= i < reports.len() ==> spec_decodable_grid(#[trigger] reports@[i].tx_grid@),
                forall|j: int|
                    0 <= j < i ==> spec_tx_report_marker(#[trigger] markers@[j], reports@[j], rx_location),
            decreases reports.len() - i,
        {
            let report = &reports[i];
            assert(spec_decodable_grid(reports@[i as int].tx_grid@));
            let location = grid_to_lat_lon(report.tx_grid.as_str());
            markers.push(MapMarker::ReceptionReportTransmitter {
                id: next_marker_id(rng),
                location,
                rx_location,
                inner: report.duplicate(),
            });
            i = i + 1;
        }
        markers.push(rx_marker);
        markers
    }

    /// Turns the reports of signals sent by a transmitter into map markers;
    /// marker IDs are drawn from `rng`.
    pub fn sent_by_markers(reports: &Vec<ReceptionReport>, rng: &mut SmallRng) -> (markers: Vec<MapMarker>)
        requires
            reports.len() > 0 ==> spec_decodable_grid(reports@[0].tx_grid@),
            forall|i: int| 0 <= i < reports.len() ==> spec_decodable_grid(#[trigger] reports@[i].rx_grid@),
        ensures
            spec_sent_by_markers(reports@, markers@),
    {
        let mut markers: Vec<MapMarker> = Vec::new();
        if reports.len() == 0 {
            return markers;
        }
        let report = &reports[0];
        let tx_location = grid_to_lat_lon(report.tx_grid.as_str());
        let tx_marker = MapMarker::Transmitter {
            id: next_marker_id(rng),
            location: tx_location,
            grid: report.tx_grid.clone(),
            callsign: report.tx_callsign.clone(),
            mode: report.mode.clone(),
        };
        let mut i: usize = 0;
        while i < reports.len()
            invariant
                i <= reports.len(),
                markers.len() == i,
                tx_location == spec_grid_to_lat_lon(reports@[0].tx_grid@),
                forall|i: int| 0 <= i < reports.len() ==> spec_decodable_grid(#[trigger] reports@[i].rx_grid@),
                forall|j: int|
                    0 <= j < i ==> spec_rx_report_marker(#[trigger] markers@[j], reports@[j], tx_location),
            decreases reports.len() - i,
        {
            let report = &reports[i];
            assert(spec_decodable_grid(reports@[i as int].rx_grid@));
            let location = grid_to_lat_lon(report.rx_grid.as_str());
            markers.push(MapMarker::ReceptionReportReceiver {
                id: next_marker_id(rng),
                location,
                tx_location,
                inner: report.duplicate(),
            });
            i = i + 1;
        }
        markers.push(tx_marker);
        markers
    }
}

} // verus!



