//! GUI helpers: the welcome tab, the task queue, and how typed power and
//! frequency values are read.

use vstd::prelude::*;
use crate::text::{chars_of, push_char, is_digit, spec_is_digit};

verus! {

/// The welcome tab.
#[derive(Debug, Default, Clone, Copy)]
pub struct WelcomeTab;

impl WelcomeTab {
    /// The source of the tab's ID.
    pub fn id_source(&self) -> (r: &'static str)
        ensures
            r@ == "welcome_tab"@,
    {
        "welcome_tab"
    }

    /// The title of the tab.
    pub fn title(&self) -> (r: &'static str)
        ensures
            r@ == "Welcome to QLog"@,
    {
        "Welcome to QLog"
    }
}

/// A convenience function to add an async task to a task queue.
///
/// If `id` is provided, the task result will be bound to the GUI tab with
/// that ID, and only that tab will receive the resulting value.
pub fn add_task_to_queue<I, T>(queue: &mut Vec<(Option<I>, T)>, task: T, id: Option<I>)
    ensures
        final(queue)@ == old(queue)@.push((id, task)),
{
    queue.push((id, task));
}

/// What `str::to_lowercase` makes of `s` (full Unicode lower-casing).
pub uninterp spec fn spec_lowercase(s: Seq<char>) -> Seq<char>;

/// `str::to_lowercase`. Claims that the result is the named lower-casing
/// of the input.
#[verifier::external_body]
fn to_lowercase(s: &str) -> (r: String)
    ensures
        r@ == spec_lowercase(s@),
{
    s.to_lowercase()
}

/// The leading run of ASCII digits and `.` of `s`.
pub open spec fn spec_numeric_prefix(s: Seq<char>) -> Seq<char>
    decreases s.len(),
{
    if s.len() > 0 && (spec_is_digit(s[0]) || s[0] == '.') {
        seq![s[0]] + spec_numeric_prefix(s.drop_first())
    } else {
        Seq::empty()
    }
}

/// How a typed value is read: the number written at its start, and what it
/// is multiplied by.
#[derive(Debug, Clone)]
pub struct NumberPlan {
    /// The leading digits and points, to be read as a decimal number.
    pub digits: String,
    /// The factor that turns the number into the base unit.
    pub multiplier: u64,
}

/// The factor of a typed power, in milliwatts per unit: kilowatts when the
/// text holds a `k`, milliwatts when it holds an `m`, watts otherwise.
pub open spec fn spec_power_multiplier(lower: Seq<char>) -> u64 {
    if lower.contains('k') {
        1_000_000
    } else if lower.contains('m') {
        1
    } else {
        1_000
    }
}

/// The factor of a typed frequency, in Hz per unit: GHz, MHz, KHz or Hz by
/// the first of `g`, `m`, `k`, `h` the text holds, MHz when none.
pub open spec fn spec_frequency_multiplier(lower: Seq<char>) -> u64 {
    if lower.contains('g') {
        1_000_000_000
    } else if lower.contains('m') {
        1_000_000
    } else if lower.contains('k') {
        1_000
    } else if lower.contains('h') {
        1
    } else {
        1_000_000
    }
}

fn numeric_prefix(v: &Vec<char>) -> (r: String)
    ensures
        r@ == spec_numeric_prefix(v@),
{
    let mut r = String::new();
    let mut i: usize = 0;
    while i < v.len() && (is_digit(v[i]) || v[i] == '.')
        invariant
            i <= v.len(),
            forall|j: int| 0 <= j < i ==> spec_is_digit(#[trigger] v@[j]) || v@[j] == '.',
            r@ == v@.take(i as int),
        decreases v.len() - i,
    {
        push_char(&mut r, v[i]);
        i = i + 1;
        assert(r@ =~= v@.take(i as int));
    }
    proof {
        lemma_prefix_run(v@, i as int);
    }
    r
}

proof fn lemma_prefix_run(s: Seq<char>, i: int)
    requires
        0 <= i <= s.len(),
        forall|j: int| 0 <= j < i ==> spec_is_digit(#[trigger] s[j]) || s[j] == '.',
        i == s.len() || !(spec_is_digit(s[i]) || s[i] == '.'),
    ensures
        spec_numeric_prefix(s) == s.take(i),
    decreases i,
{
    if i == 0 {
        assert(s.take(0) =~= Seq::<char>::empty());
    } else {
        let t = s.drop_first();
        assert forall|j: int| 0 <= j < i - 1 implies spec_is_digit(#[trigger] t[j]) || t[j] == '.' by {
            assert(t[j] == s[j + 1]);
        }
        if i - 1 < t.len() {
            assert(t[i - 1] == s[i]);
        }
        lemma_prefix_run(t, i - 1);
        assert(seq![s[0]] + t.take(i - 1) =~= s.take(i));
    }
}

/// Whether `d` is a number as typed: digits and decimal points only.
pub open spec fn spec_number_text(d: Seq<char>) -> bool {
    forall|i: int| 0 <= i < d.len() ==> spec_is_digit(#[trigger] d[i]) || d[i] == '.'
}

/// A number followed by a unit that does not begin with a digit or a point
/// reads as that number, and the text holds a character other than digits
/// and points exactly where the unit does.
proof fn lemma_number_then_unit(d: Seq<char>, u: Seq<char>)
    requires
        spec_number_text(d),
        u.len() == 0 || !(spec_is_digit(u[0]) || u[0] == '.'),
    ensures
        spec_numeric_prefix(d + u) == d,
        forall|c: char| !(spec_is_digit(c) || c == '.') ==> (#[trigger] (d + u).contains(c) <==> u.contains(c)),
{
    let t = d + u;
    assert forall|j: int| 0 <= j < d.len() implies spec_is_digit(#[trigger] t[j]) || t[j] == '.' by {
        assert(t[j] == d[j]);
    }
    if d.len() < t.len() {
        assert(t[d.len() as int] == u[0]);
    }
    lemma_prefix_run(t, d.len() as int);
    assert(t.take(d.len() as int) =~= d);
    assert forall|c: char| !(spec_is_digit(c) || c == '.') implies (t.contains(c) <==> u.contains(c)) by {
        if t.contains(c) {
            let j = choose|j: int| 0 <= j < t.len() && t[j] == c;
            if j < d.len() {
                assert(t[j] == d[j]);
            } else {
                assert(u[j - d.len()] == c);
            }
        }
        if u.contains(c) {
            let j = choose|j: int| 0 <= j < u.len() && u[j] == c;
            assert(t[j + d.len()] == c);
        }
    }
}

/// A power typed as a number and a unit reads as that number in the unit,
/// counted in milliwatts: watts with no unit or with `w`, kilowatts with
/// `kw` and milliwatts with `mw` (with or without a space before the
/// unit). For example `5w` is 5 times 1000 mW.
pub proof fn law_power_units(d: Seq<char>)
    requires
        spec_number_text(d),
    ensures
        spec_numeric_prefix(d) == d && spec_power_multiplier(d) == 1_000,
        spec_numeric_prefix(d + "w"@) == d && spec_power_multiplier(d + "w"@) == 1_000,
        spec_numeric_prefix(d + " w"@) == d && spec_power_multiplier(d + " w"@) == 1_000,
        spec_numeric_prefix(d + "kw"@) == d && spec_power_multiplier(d + "kw"@) == 1_000_000,
        spec_numeric_prefix(d + " kw"@) == d && spec_power_multiplier(d + " kw"@) == 1_000_000,
        spec_numeric_prefix(d + "mw"@) == d && spec_power_multiplier(d + "mw"@) == 1,
        spec_numeric_prefix(d + " mw"@) == d && spec_power_multiplier(d + " mw"@) == 1,
{
    reveal_strlit("w");
    reveal_strlit(" w");
    reveal_strlit("kw");
    reveal_strlit(" kw");
    reveal_strlit("mw");
    reveal_strlit(" mw");
    assert(d + Seq::<char>::empty() =~= d);
    lemma_number_then_unit(d, Seq::<char>::empty());
    lemma_number_then_unit(d, "w"@);
    lemma_number_then_unit(d, " w"@);
    lemma_number_then_unit(d, "kw"@);
    lemma_number_then_unit(d, " kw"@);
    lemma_number_then_unit(d, "mw"@);
    lemma_number_then_unit(d, " mw"@);
    assert((d + "kw"@)[d.len() as int] == 'k');
    assert((d + " kw"@)[d.len() as int + 1] == 'k');
    assert((d + "mw"@)[d.len() as int] == 'm');
    assert((d + " mw"@)[d.len() as int + 1] == 'm');
    assert(!(d + "mw"@).contains('k'));
    assert(!(d + " mw"@).contains('k'));
    assert(!(d + "w"@).contains('k') && !(d + "w"@).contains('m'));
    assert(!(d + " w"@).contains('k') && !(d + " w"@).contains('m'));
    assert(!d.contains('k') && !d.contains('m'));
}

/// A frequency typed as a number and a unit reads as that number in the
/// unit, counted in Hz: MHz with no unit, and Hz, kHz, MHz or GHz with
/// `hz`, `khz`, `mhz` or `ghz`. For example `14.074` is MHz and `500khz`
/// is 500 times 1000 Hz.
pub proof fn law_frequency_units(d: Seq<char>)
    requires
        spec_number_text(d),
    ensures
        spec_numeric_prefix(d) == d && spec_frequency_multiplier(d) == 1_000_000,
        spec_numeric_prefix(d + "hz"@) == d && spec_frequency_multiplier(d + "hz"@) == 1,
        spec_numeric_prefix(d + "khz"@) == d && spec_frequency_multiplier(d + "khz"@) == 1_000,
        spec_numeric_prefix(d + "mhz"@) == d && spec_frequency_multiplier(d + "mhz"@) == 1_000_000,
        spec_numeric_prefix(d + "ghz"@) == d && spec_frequency_multiplier(d + "ghz"@) == 1_000_000_000,
{
    reveal_strlit("hz");
    reveal_strlit("khz");
    reveal_strlit("mhz");
    reveal_strlit("ghz");
    assert(d + Seq::<char>::empty() =~= d);
    lemma_number_then_unit(d, Seq::<char>::empty());
    lemma_number_then_unit(d, "hz"@);
    lemma_number_then_unit(d, "khz"@);
    lemma_number_then_unit(d, "mhz"@);
    lemma_number_then_unit(d, "ghz"@);
    assert((d + "hz"@)[d.len() as int] == 'h');
    assert((d + "khz"@)[d.len() as int] == 'k');
    assert((d + "mhz"@)[d.len() as int] == 'm');
    assert((d + "ghz"@)[d.len() as int] == 'g');
    assert(!d.contains('g') && !d.contains('m') && !d.contains('k') && !d.contains('h'));
    assert(!(d + "hz"@).contains('g') && !(d + "hz"@).contains('m') && !(d + "hz"@).contains('k'));
    assert(!(d + "khz"@).contains('g') && !(d + "khz"@).contains('m'));
    assert(!(d + "mhz"@).contains('g'));
}

fn contains_char(v: &Vec<char>, c: char) -> (r: bool)
    ensures
        r == v@.contains(c),
{
    let mut i: usize = 0;
    while i < v.len()
        invariant
            i <= v.len(),
            forall|j: int| 0 <= j < i ==> v@[j] != c,
        decreases v.len() - i,
    {
        if v[i] == c {
            assert(v@[i as int] == c);
            return true;
        }
        i = i + 1;
    }
    false
}

/// How a typed power reads, given the text already in lower case.
pub fn power_plan(lower: &str) -> (r: NumberPlan)
    ensures
        r.digits@ == spec_numeric_prefix(lower@),
        r.multiplier == spec_power_multiplier(lower@),
{
    let v = chars_of(lower);
    let digits = numeric_prefix(&v);
    let multiplier = if contains_char(&v, 'k') {
        1_000_000
    } else if contains_char(&v, 'm') {
        1
    } else {
        1_000
    };
    NumberPlan { digits, multiplier }
}

/// How a typed frequency reads, given the text already in lower case.
pub fn frequency_plan(lower: &str) -> (r: NumberPlan)
    ensures
        r.digits@ == spec_numeric_prefix(lower@),
        r.multiplier == spec_frequency_multiplier(lower@),
{
    let v = chars_of(lower);
    let digits = numeric_prefix(&v);
    let multiplier = if contains_char(&v, 'g') {
        1_000_000_000
    } else if contains_char(&v, 'm') {
        1_000_000
    } else if contains_char(&v, 'k') {
        1_000
    } else if contains_char(&v, 'h') {
        1
    } else {
        1_000_000
    };
    NumberPlan { digits, multiplier }
}

/// How a typed power (e.g. `5W`, `100 mW`, `1.5kw`) reads, in milliwatts:
/// the text is lower-cased, then read as in [`power_plan`].
pub fn power_parser_plan(input: &str) -> (r: NumberPlan)
    ensures
        r.digits@ == spec_numeric_prefix(spec_lowercase(input@)),
        r.multiplier == spec_power_multiplier(spec_lowercase(input@)),
{
    let lower = to_lowercase(input);
    power_plan(lower.as_str())
}

/// How a typed frequency (e.g. `14.074`, `7 MHz`, `500khz`) reads, in Hz:
/// the text is lower-cased, then read as in [`frequency_plan`].
pub fn frequency_parser_plan(input: &str) -> (r: NumberPlan)
    ensures
        r.digits@ == spec_numeric_prefix(spec_lowercase(input@)),
        r.multiplier == spec_frequency_multiplier(spec_lowercase(input@)),
{
    let lower = to_lowercase(input);
    frequency_plan(lower.as_str())
}

} // verus!
