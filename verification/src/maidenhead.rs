//! Conversions between Maidenhead locators (grid squares) and positions.
//!
//! Positions are exact integers: a decoded grid square is given in units of
//! 1/48 of a degree (the finest step a six-character locator needs), and a
//! position to encode is given in milliarcseconds (1/3,600,000 of a degree).

use vstd::prelude::*;
use vstd::string::*;
use vstd::arithmetic::div_mod::{
    lemma_fundamental_div_mod, lemma_fundamental_div_mod_converse_div, lemma_fundamental_div_mod_converse_mod,
};
use crate::text::{push_char, spec_ascii_upper, spec_is_digit, spec_byte_len, ascii_upper, is_digit, utf8_len};

verus! {

/// Units of the decoded positions: 1/48 of a degree.
pub const GRID_UNITS_PER_DEGREE: i64 = 48;
/// Units of the positions to encode: milliarcseconds.
pub const TICKS_PER_DEGREE: i64 = 3_600_000;

/// A position in 1/48 of a degree: the centre of a decoded grid square.
#[derive(Debug, Clone, Copy, PartialEq, Eq)]
pub struct GridPoint {
    /// Latitude, north positive.
    pub lat: i64,
    /// Longitude, east positive.
    pub lon: i64,
}

/// The number a locator character stands for: digits count from `0`,
/// letters (either case) from `A`.
pub open spec fn spec_char_value(c: char) -> int {
    let u = spec_ascii_upper(c);
    if spec_is_digit(u) {
        u as int - 48
    } else {
        u as int - 65
    }
}

/// Characters the decoder accepts without an arithmetic fault: digits, and
/// everything at or above `A` once upper-cased.
pub open spec fn spec_decodable_char(c: char) -> bool {
    spec_is_digit(spec_ascii_upper(c)) || spec_ascii_upper(c) as int >= 65
}

/// Latitude weight (in 1/48 degree) of the character at byte offset `pos`.
pub open spec fn lat_weight(pos: int) -> int {
    if pos == 1 { 480 } else if pos == 3 { 48 } else if pos == 5 { 2 } else { 0 }
}

/// Longitude weight (in 1/48 degree) of the character at byte offset `pos`.
pub open spec fn lon_weight(pos: int) -> int {
    if pos == 0 { 960 } else if pos == 2 { 96 } else if pos == 4 { 4 } else { 0 }
}

/// Sum of the latitude contributions of the characters of `s`.
pub open spec fn lat_sum(s: Seq<char>) -> int
    decreases s.len(),
{
    if s.len() == 0 {
        0
    } else {
        lat_sum(s.drop_last()) + lat_weight(spec_byte_len(s.drop_last())) * spec_char_value(s.last())
    }
}

/// Sum of the longitude contributions of the characters of `s`.
pub open spec fn lon_sum(s: Seq<char>) -> int
    decreases s.len(),
{
    if s.len() == 0 {
        0
    } else {
        lon_sum(s.drop_last()) + lon_weight(spec_byte_len(s.drop_last())) * spec_char_value(s.last())
    }
}

/// Half a square of the precision that a locator of `n` characters has,
/// latitude part.
pub open spec fn lat_center(n: int) -> int {
    if n == 2 { 240 } else if n == 4 { 24 } else if n == 6 { 1 } else { 0 }
}

/// Longitude part of [`lat_center`].
pub open spec fn lon_center(n: int) -> int {
    if n == 2 { 480 } else if n == 4 { 48 } else if n == 6 { 2 } else { 0 }
}

/// The position that `grid_to_lat_lon` gives for the characters `s`.
pub open spec fn spec_grid_to_lat_lon(s: Seq<char>) -> GridPoint {
    GridPoint {
        lat: (lat_sum(s) + lat_center(s.len() as int) - 90 * 48) as i64,
        lon: (lon_sum(s) + lon_center(s.len() as int) - 180 * 48) as i64,
    }
}

proof fn lemma_value_bounds(c: char)
    requires
        spec_decodable_char(c),
    ensures
        0 <= spec_char_value(c) <= 0x10FFFF,
{
}

/// Every character adds at most 960 * 0x10FFFF to either sum.
proof fn lemma_sums_bounded(s: Seq<char>)
    requires
        forall|i: int| 0 <= i < s.len() ==> spec_decodable_char(#[trigger] s[i]),
    ensures
        0 <= lat_sum(s) <= s.len() * (960 * 0x10FFFF),
        0 <= lon_sum(s) <= s.len() * (960 * 0x10FFFF),
    decreases s.len(),
{
    if s.len() > 0 {
        let p = s.drop_last();
        assert forall|i: int| 0 <= i < p.len() implies spec_decodable_char(#[trigger] p[i]) by {
            assert(p[i] == s[i]);
        }
        lemma_sums_bounded(p);
        lemma_value_bounds(s.last());
        let v = spec_char_value(s.last());
        let lw = lat_weight(spec_byte_len(p));
        let ow = lon_weight(spec_byte_len(p));
        assert(0 <= lw * v <= 960 * 0x10FFFF) by (nonlinear_arith)
            requires 0 <= lw <= 960, 0 <= v <= 0x10FFFF;
        assert(0 <= ow * v <= 960 * 0x10FFFF) by (nonlinear_arith)
            requires 0 <= ow <= 960, 0 <= v <= 0x10FFFF;
        assert(lat_sum(s) == lat_sum(p) + lw * v);
        assert(lon_sum(s) == lon_sum(p) + ow * v);
        assert(p.len() == s.len() - 1);
        assert(p.len() * (960 * 0x10FFFF) + 960 * 0x10FFFF == s.len() * (960 * 0x10FFFF)) by (nonlinear_arith)
            requires p.len() == s.len() - 1;
    }
}

/// Converts a grid square of up to six characters into the position of its
/// centre, in 1/48 of a degree.
///
/// Characters are weighted by their byte offset in the text: offsets 0, 2
/// and 4 add 20, 2 and 1/12 degrees of longitude, offsets 1, 3 and 5 add
/// 10, 1 and 1/24 degrees of latitude. Locators of 2, 4 or 6 characters are
/// moved to the centre of their square; the result is then shifted so that
/// latitudes run from -90 and longitudes from -180.
pub fn grid_to_lat_lon(grid: &str) -> (res: GridPoint)
    requires
        grid@.len() <= 255,
        forall|i: int| 0 <= i < grid@.len() ==> spec_decodable_char(#[trigger] grid@[i]),
    ensures
        res == spec_grid_to_lat_lon(grid@),
{
    let n = grid.unicode_len();
    let ghost s = grid@;
    let mut lat: i64 = 0;
    let mut lon: i64 = 0;
    let mut pos: usize = 0;
    let mut i: usize = 0;
    while i < n
        invariant
            n == s.len(),
            s == grid@,
            s.len() <= 255,
            forall|j: int| 0 <= j < s.len() ==> spec_decodable_char(#[trigger] s[j]),
            0 <= i <= n,
            pos == spec_byte_len(s.take(i as int)),
            pos <= 4 * i,
            lat == lat_sum(s.take(i as int)),
            lon == lon_sum(s.take(i as int)),
        decreases n - i,
    {
        let c = grid.get_char(i);
        let ghost p = s.take(i as int);
        let ghost q = s.take(i + 1);
        assert(q.drop_last() =~= p);
        assert(q.last() == c);
        proof {
            lemma_sums_bounded(p);
            lemma_value_bounds(c);
        }
        let u = ascii_upper(c);
        let num: i64 = if is_digit(u) {
            (u as u32) as i64 - 48
        } else {
            (u as u32) as i64 - 65
        };
        assert(num == spec_char_value(c));
        assert(0 <= num <= 0x10FFFF);
        assert(i * (960 * 0x10FFFF) <= 255 * (960 * 0x10FFFF)) by (nonlinear_arith)
            requires i <= 255;
        if pos == 0 {
            lon = lon + num * 960;
        } else if pos == 1 {
            lat = lat + num * 480;
        } else if pos == 2 {
            lon = lon + num * 96;
        } else if pos == 3 {
            lat = lat + num * 48;
        } else if pos == 4 {
            lon = lon + num * 4;
        } else if pos == 5 {
            lat = lat + num * 2;
        }
        pos = pos + utf8_len(c);
        i = i + 1;
    }
    assert(s.take(n as int) =~= s);
    proof {
        lemma_sums_bounded(s);
        assert(s.len() * (960 * 0x10FFFF) <= 255 * (960 * 0x10FFFF)) by (nonlinear_arith)
            requires s.len() <= 255;
    }
    if n == 2 {
        lat = lat + 240;
        lon = lon + 480;
    } else if n == 4 {
        lat = lat + 24;
        lon = lon + 48;
    } else if n == 6 {
        lat = lat + 1;
        lon = lon + 2;
    }
    GridPoint { lat: lat - 90 * 48, lon: lon - 180 * 48 }
}

/// A position in milliarcseconds (1/3,600,000 of a degree).
#[derive(Debug, Clone, Copy, PartialEq, Eq)]
pub struct Position {
    /// Latitude, north positive.
    pub lat: i64,
    /// Longitude, east positive.
    pub lon: i64,
}

/// The index a coordinate falls on when cut into steps of `step`, counting
/// from 0; coordinates below the origin give 0.
pub open spec fn spec_step_index(x: int, step: int) -> int {
    if x < 0 { 0 } else { x / step }
}

/// The index of the sub-square that the remainder `r` falls on within its
/// square of width `width`, the square being cut into pieces of
/// `1 / parts` of a degree; negative remainders give 0.
pub open spec fn spec_sub_index(r: int, width: int, parts: int) -> int {
    if r < 0 { 0 } else { (r % width) * parts / TICKS_PER_DEGREE as int }
}

/// The six indices of the locator of `p`: longitude field, latitude field,
/// longitude square, latitude square, longitude and latitude sub-squares.
pub open spec fn spec_grid_indices(p: Position) -> Seq<int> {
    let t = TICKS_PER_DEGREE as int;
    let x = p.lon + 180 * t;
    let y = p.lat + 90 * t;
    let c1 = spec_step_index(x, 20 * t);
    let c2 = spec_step_index(y, 10 * t);
    let rx = x - c1 * (20 * t);
    let ry = y - c2 * (10 * t);
    seq![c1, c2, spec_step_index(rx, 2 * t), spec_step_index(ry, t), spec_sub_index(rx, 2 * t, 12), spec_sub_index(ry, t, 24)]
}

/// The locator that `lat_lon_to_grid` gives for `p`: fields as upper-case
/// letters, squares as digits, sub-squares as lower-case letters.
pub open spec fn spec_lat_lon_to_grid(p: Position) -> Seq<char> {
    let c = spec_grid_indices(p);
    seq![
        (65 + c[0]) as char,
        (65 + c[1]) as char,
        (48 + c[2]) as char,
        (48 + c[3]) as char,
        (97 + c[4]) as char,
        (97 + c[5]) as char,
    ]
}

/// Whether the fields of `p` fit a character: the longitude field index
/// and the latitude field index are at most 190.
pub open spec fn spec_encodable(p: Position) -> bool {
    &&& p.lon + 180 * TICKS_PER_DEGREE < 191 * 20 * TICKS_PER_DEGREE
    &&& p.lat + 90 * TICKS_PER_DEGREE < 191 * 10 * TICKS_PER_DEGREE
}

fn step_index(x: i64, step: i64) -> (r: i64)
    requires
        step > 0,
    ensures
        r == spec_step_index(x as int, step as int),
{
    if x < 0 { 0 } else { x / step }
}

fn sub_index(r: i64, width: i64, parts: i64) -> (res: i64)
    requires
        0 < width <= 2 * TICKS_PER_DEGREE,
        0 < parts <= 24,
    ensures
        res == spec_sub_index(r as int, width as int, parts as int),
{
    if r < 0 {
        0
    } else {
        let m = r % width;
        assert(0 <= m < 2 * TICKS_PER_DEGREE);
        assert(m * parts <= 2 * TICKS_PER_DEGREE * 24) by (nonlinear_arith)
            requires 0 <= m < 2 * TICKS_PER_DEGREE, 0 < parts <= 24;
        m * parts / TICKS_PER_DEGREE
    }
}

/// Converts a position into a six-character grid square (e.g. `DM79mr`).
///
/// The fifth character takes the longitude within its two-degree square, in
/// twelfths of a degree (`a`..=`x`); the sixth the latitude within its
/// one-degree square, in twenty-fourths of a degree (`a`..=`x`).
pub fn lat_lon_to_grid(location: &Position) -> (grid: String)
    requires
        spec_encodable(*location),
    ensures
        grid@ == spec_lat_lon_to_grid(*location),
{
    let t = TICKS_PER_DEGREE;
    let x = location.lon + 180 * t;
    let y = location.lat + 90 * t;
    let c1 = step_index(x, 20 * t);
    let c2 = step_index(y, 10 * t);
    assert(0 <= c1 <= 190);
    assert(0 <= c2 <= 190);
    assert(c1 * (20 * t) <= x || c1 == 0) by (nonlinear_arith)
        requires c1 == spec_step_index(x as int, 20 * t as int), t > 0;
    assert(c2 * (10 * t) <= y || c2 == 0) by (nonlinear_arith)
        requires c2 == spec_step_index(y as int, 10 * t as int), t > 0;
    let rx = x - c1 * (20 * t);
    let ry = y - c2 * (10 * t);
    let c3 = step_index(rx, 2 * t);
    let c4 = step_index(ry, t);
    let c5 = sub_index(rx, 2 * t, 12);
    let c6 = sub_index(ry, t, 24);
    assert(rx < 20 * t) by (nonlinear_arith)
        requires rx == x - c1 * (20 * t), c1 == spec_step_index(x as int, 20 * t as int), t > 0;
    assert(ry < 10 * t) by (nonlinear_arith)
        requires ry == y - c2 * (10 * t), c2 == spec_step_index(y as int, 10 * t as int), t > 0;
    assert(0 <= c3 <= 9);
    assert(0 <= c4 <= 9);
    assert(0 <= c5 < 24);
    assert(0 <= c6 < 24);
    let mut grid = String::new();
    push_char(&mut grid, ((c1 + 65) as u8) as char);
    push_char(&mut grid, ((c2 + 65) as u8) as char);
    push_char(&mut grid, ((c3 + 48) as u8) as char);
    push_char(&mut grid, ((c4 + 48) as u8) as char);
    push_char(&mut grid, ((c5 + 97) as u8) as char);
    push_char(&mut grid, ((c6 + 97) as u8) as char);
    assert(grid@ =~= spec_lat_lon_to_grid(*location));
    grid
}

/// A six-character locator whose characters are each in the range that
/// locators use: fields `A`..=`R`, squares `0`..=`9` and sub-squares
/// `A`..=`X` (letters in either case).
pub open spec fn spec_round_trip_locator(s: Seq<char>) -> bool {
    &&& s.len() == 6
    &&& 'A' <= spec_ascii_upper(s[0]) <= 'R'
    &&& 'A' <= spec_ascii_upper(s[1]) <= 'R'
    &&& spec_is_digit(s[2])
    &&& spec_is_digit(s[3])
    &&& 'A' <= spec_ascii_upper(s[4]) <= 'X'
    &&& 'A' <= spec_ascii_upper(s[5]) <= 'X'
}

/// The spelling that the encoder uses for the locator `s`: fields in upper
/// case, sub-squares in lower case.
pub open spec fn spec_canonical_locator(s: Seq<char>) -> Seq<char> {
    seq![
        (65 + spec_char_value(s[0])) as char,
        (65 + spec_char_value(s[1])) as char,
        (48 + spec_char_value(s[2])) as char,
        (48 + spec_char_value(s[3])) as char,
        (97 + spec_char_value(s[4])) as char,
        (97 + spec_char_value(s[5])) as char,
    ]
}

/// A decoded position, in 1/48 of a degree, as a position in milliarcseconds.
pub open spec fn spec_grid_point_to_position(g: GridPoint) -> Position {
    Position { lat: (g.lat * 75_000) as i64, lon: (g.lon * 75_000) as i64 }
}

proof fn lemma_six_sums(s: Seq<char>)
    requires
        spec_round_trip_locator(s),
    ensures
        lat_sum(s) == 480 * spec_char_value(s[1]) + 48 * spec_char_value(s[3]) + 2 * spec_char_value(s[5]),
        lon_sum(s) == 960 * spec_char_value(s[0]) + 96 * spec_char_value(s[2]) + 4 * spec_char_value(s[4]),
{
    let t0 = s.take(0);
    let t1 = s.take(1);
    let t2 = s.take(2);
    let t3 = s.take(3);
    let t4 = s.take(4);
    let t5 = s.take(5);
    assert(t1.drop_last() =~= t0);
    assert(t2.drop_last() =~= t1);
    assert(t3.drop_last() =~= t2);
    assert(t4.drop_last() =~= t3);
    assert(t5.drop_last() =~= t4);
    assert(s.drop_last() =~= t5);
    assert(spec_byte_len(t0) == 0);
    assert(spec_byte_len(t1) == 1);
    assert(spec_byte_len(t2) == 2);
    assert(spec_byte_len(t3) == 3);
    assert(spec_byte_len(t4) == 4);
    assert(spec_byte_len(t5) == 5);
    assert(t1.last() == s[0] && t2.last() == s[1] && t3.last() == s[2]);
    assert(t4.last() == s[3] && t5.last() == s[4] && s.last() == s[5]);
    assert(lat_sum(t0) == 0 && lon_sum(t0) == 0);
    let v0 = spec_char_value(s[0]);
    let v1 = spec_char_value(s[1]);
    let v2 = spec_char_value(s[2]);
    let v3 = spec_char_value(s[3]);
    let v4 = spec_char_value(s[4]);
    let v5 = spec_char_value(s[5]);
    assert(lat_sum(t1) == 0);
    assert(lon_sum(t1) == 960 * v0);
    assert(lat_sum(t2) == 480 * v1);
    assert(lon_sum(t2) == 960 * v0);
    assert(lat_sum(t3) == 480 * v1);
    assert(lon_sum(t3) == 960 * v0 + 96 * v2);
    assert(lat_sum(t4) == 480 * v1 + 48 * v3);
    assert(lon_sum(t4) == 960 * v0 + 96 * v2);
    assert(lat_sum(t5) == 480 * v1 + 48 * v3);
    assert(lon_sum(t5) == 960 * v0 + 96 * v2 + 4 * v4);
}

/// Decoding a six-character locator and encoding the centre of its square
/// gives the locator back, spelled with upper-case fields and lower-case
/// sub-squares.
pub proof fn law_grid_round_trip(grid: Seq<char>)
    requires
        spec_round_trip_locator(grid),
    ensures
        spec_encodable(spec_grid_point_to_position(spec_grid_to_lat_lon(grid))),
        spec_lat_lon_to_grid(spec_grid_point_to_position(spec_grid_to_lat_lon(grid)))
            == spec_canonical_locator(grid),
{
    lemma_six_sums(grid);
    let v0 = spec_char_value(grid[0]);
    let v1 = spec_char_value(grid[1]);
    let v2 = spec_char_value(grid[2]);
    let v3 = spec_char_value(grid[3]);
    let v4 = spec_char_value(grid[4]);
    let v5 = spec_char_value(grid[5]);
    assert(0 <= v0 <= 17 && 0 <= v1 <= 17 && 0 <= v2 <= 9 && 0 <= v3 <= 9 && 0 <= v4 <= 23 && 0 <= v5 <= 23);
    let u: int = 75_000;
    let t: int = 3_600_000;
    assert(t == TICKS_PER_DEGREE);
    let g = spec_grid_to_lat_lon(grid);
    let p = spec_grid_point_to_position(g);
    assert(g.lon == 960 * v0 + 96 * v2 + 4 * v4 + 2 - 8640);
    assert(g.lat == 480 * v1 + 48 * v3 + 2 * v5 + 1 - 4320);
    assert(p.lon == (960 * v0 + 96 * v2 + 4 * v4 + 2 - 8640) * u);
    assert(p.lat == (480 * v1 + 48 * v3 + 2 * v5 + 1 - 4320) * u);
    let x = p.lon + 180 * t;
    let y = p.lat + 90 * t;
    assert(x == v0 * (20 * t) + (96 * v2 + 4 * v4 + 2) * u) by (nonlinear_arith)
        requires x == p.lon + 180 * t, p.lon == (960 * v0 + 96 * v2 + 4 * v4 + 2 - 8640) * u, u == 75_000, t == 3_600_000;
    assert(y == v1 * (10 * t) + (48 * v3 + 2 * v5 + 1) * u) by (nonlinear_arith)
        requires y == p.lat + 90 * t, p.lat == (480 * v1 + 48 * v3 + 2 * v5 + 1 - 4320) * u, u == 75_000, t == 3_600_000;
    lemma_fundamental_div_mod_converse_div(x, 20 * t, v0, (96 * v2 + 4 * v4 + 2) * u);
    lemma_fundamental_div_mod_converse_div(y, 10 * t, v1, (48 * v3 + 2 * v5 + 1) * u);
    let rx = (96 * v2 + 4 * v4 + 2) * u;
    let ry = (48 * v3 + 2 * v5 + 1) * u;
    assert(rx == v2 * (2 * t) + (4 * v4 + 2) * u) by (nonlinear_arith)
        requires rx == (96 * v2 + 4 * v4 + 2) * u, u == 75_000, t == 3_600_000;
    lemma_fundamental_div_mod_converse_div(rx, 2 * t, v2, (4 * v4 + 2) * u);
    assert(ry == v3 * t + (2 * v5 + 1) * u) by (nonlinear_arith)
        requires ry == (48 * v3 + 2 * v5 + 1) * u, u == 75_000, t == 3_600_000;
    lemma_fundamental_div_mod_converse_div(ry, t, v3, (2 * v5 + 1) * u);
    lemma_fundamental_div_mod_converse_mod(rx, 2 * t, v2, (4 * v4 + 2) * u);
    lemma_fundamental_div_mod_converse_mod(ry, t, v3, (2 * v5 + 1) * u);
    assert((4 * v4 + 2) * u * 12 == v4 * t + 24 * u) by (nonlinear_arith)
        requires u == 75_000, t == 3_600_000;
    lemma_fundamental_div_mod_converse_div((4 * v4 + 2) * u * 12, t, v4, 24 * u);
    assert((2 * v5 + 1) * u * 24 == v5 * t + 24 * u) by (nonlinear_arith)
        requires u == 75_000, t == 3_600_000;
    lemma_fundamental_div_mod_converse_div((2 * v5 + 1) * u * 24, t, v5, 24 * u);
    let c = spec_grid_indices(p);
    assert(c[0] == v0);
    assert(c[1] == v1);
    assert(c[2] == v2);
    assert(c[3] == v3);
    assert(c[4] == v4);
    assert(c[5] == v5);
    assert(spec_lat_lon_to_grid(p) =~= spec_canonical_locator(grid));
}

/// A coordinate `x` of at least 0 splits into whole `w`s, whole `v`s of
/// what is left, and a remainder below `v`.
proof fn lemma_split(x: int, w: int, v: int)
    requires
        x >= 0,
        v > 0,
        w > 0,
    ensures
        x == w * (x / w) + (x % w),
        0 <= x % w < w,
        x % w == v * ((x % w) / v) + (x % w) % v,
        0 <= (x % w) % v < v,
        x / w >= 0,
        (x % w) / v >= 0,
{
    lemma_fundamental_div_mod(x, w);
    lemma_fundamental_div_mod(x % w, v);
    assert(x / w >= 0) by (nonlinear_arith)
        requires x >= 0, w > 0;
    assert((x % w) / v >= 0) by (nonlinear_arith)
        requires x % w >= 0, v > 0;
}

/// Encoding a position on the globe gives the six-character square that
/// holds it: decoding the locator gives the square's centre, which lies
/// within half a square of the position in each direction (1/24 of a
/// degree of longitude, 1/48 of a degree of latitude), the position being
/// on or past the square's west and south edges and short of its east and
/// north edges.
pub proof fn law_grid_contains_position(p: Position)
    requires
        -180 * TICKS_PER_DEGREE <= p.lon < 180 * TICKS_PER_DEGREE,
        -90 * TICKS_PER_DEGREE <= p.lat < 90 * TICKS_PER_DEGREE,
    ensures
        ({
            let c = spec_grid_point_to_position(spec_grid_to_lat_lon(spec_lat_lon_to_grid(p)));
            &&& c.lon - 150_000 <= p.lon < c.lon + 150_000
            &&& c.lat - 75_000 <= p.lat < c.lat + 75_000
        }),
{
    let t: int = 3_600_000;
    assert(t == TICKS_PER_DEGREE);
    let x = p.lon + 180 * t;
    let y = p.lat + 90 * t;
    lemma_split(x, 20 * t, 2 * t);
    lemma_split(y, 10 * t, t);
    let c1 = x / (20 * t);
    let c2 = y / (10 * t);
    let c3 = (x % (20 * t)) / (2 * t);
    let c4 = (y % (10 * t)) / t;
    let m = (x % (20 * t)) % (2 * t);
    let n = (y % (10 * t)) % t;
    assert(c1 <= 17) by (nonlinear_arith)
        requires x == (20 * t) * c1 + x % (20 * t), x % (20 * t) >= 0, x < 360 * t, t > 0;
    assert(c2 <= 17) by (nonlinear_arith)
        requires y == (10 * t) * c2 + y % (10 * t), y % (10 * t) >= 0, y < 180 * t, t > 0;
    assert(c3 <= 9) by (nonlinear_arith)
        requires x % (20 * t) == (2 * t) * c3 + m, m >= 0, x % (20 * t) < 20 * t, t > 0;
    assert(c4 <= 9) by (nonlinear_arith)
        requires y % (10 * t) == t * c4 + n, n >= 0, y % (10 * t) < 10 * t, t > 0;
    let c5 = m * 12 / t;
    let c6 = n * 24 / t;
    lemma_fundamental_div_mod(m * 12, t);
    lemma_fundamental_div_mod(n * 24, t);
    assert(c5 * 300_000 <= m < (c5 + 1) * 300_000 && 0 <= c5 <= 23) by (nonlinear_arith)
        requires m * 12 == t * c5 + (m * 12) % t, 0 <= (m * 12) % t < t, 0 <= m < 2 * t, t == 3_600_000;
    assert(c6 * 150_000 <= n < (c6 + 1) * 150_000 && 0 <= c6 <= 23) by (nonlinear_arith)
        requires n * 24 == t * c6 + (n * 24) % t, 0 <= (n * 24) % t < t, 0 <= n < t, t == 3_600_000;
    let c = spec_grid_indices(p);
    assert(c[0] == c1 && c[1] == c2 && c[2] == c3 && c[3] == c4 && c[4] == c5 && c[5] == c6);
    let g = spec_lat_lon_to_grid(p);
    assert(spec_char_value(g[0]) == c1);
    assert(spec_char_value(g[1]) == c2);
    assert(spec_char_value(g[2]) == c3);
    assert(spec_char_value(g[3]) == c4);
    assert(spec_char_value(g[4]) == c5);
    assert(spec_char_value(g[5]) == c6);
    assert(spec_round_trip_locator(g));
    lemma_six_sums(g);
    let d = spec_grid_to_lat_lon(g);
    assert(d.lon == 960 * c1 + 96 * c3 + 4 * c5 + 2 - 8640);
    assert(d.lat == 480 * c2 + 48 * c4 + 2 * c6 + 1 - 4320);
    let q = spec_grid_point_to_position(d);
    assert(q.lon == (960 * c1 + 96 * c3 + 4 * c5 + 2 - 8640) * 75_000);
    assert(q.lat == (480 * c2 + 48 * c4 + 2 * c6 + 1 - 4320) * 75_000);
}

} // verus!


