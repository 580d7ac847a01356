//! Text clean-up shared by the callsign lookup services: whitespace
//! collapsing, upper-casing and HamQTH's city/state field.

use vstd::prelude::*;
use crate::text::{chars_of, push_char, is_whitespace, spec_is_whitespace, spec_ascii_upper, ascii_upper, string_of_range};

verus! {

/// The words of `s` (maximal runs of non-whitespace characters), joined by
/// single spaces: `s.split_whitespace().collect::<Vec<_>>().join(" ")`.
pub open spec fn spec_collapse(s: Seq<char>) -> Seq<char>
    decreases s.len(),
{
    if s.len() == 0 {
        Seq::empty()
    } else {
        let p = s.drop_last();
        let c = s.last();
        let r = spec_collapse(p);
        if spec_is_whitespace(c) {
            r
        } else if r.len() > 0 && spec_is_whitespace(p.last()) {
            r.push(' ').push(c)
        } else {
            r.push(c)
        }
    }
}

/// Text without leading whitespace, without two whitespace characters in
/// a row, and whose whitespace characters are all spaces.
pub open spec fn spec_spaced(t: Seq<char>) -> bool {
    &&& (t.len() > 0 ==> !spec_is_whitespace(t[0]))
    &&& forall|i: int| 0 <= i < t.len() && spec_is_whitespace(#[trigger] t[i]) ==> t[i] == ' ' && 0 < i
        && !spec_is_whitespace(t[i - 1])
}

/// Text of words joined by single spaces: spaced, and not ending in a space.
pub open spec fn spec_collapsed(t: Seq<char>) -> bool {
    &&& spec_spaced(t)
    &&& (t.len() > 0 ==> !spec_is_whitespace(t.last()))
}

proof fn lemma_collapse_collapsed(s: Seq<char>)
    ensures
        spec_collapsed(spec_collapse(s)),
    decreases s.len(),
{
    if s.len() > 0 {
        let p = s.drop_last();
        lemma_collapse_collapsed(p);
        let r = spec_collapse(p);
        let t = spec_collapse(s);
        assert(spec_is_whitespace(' '));
        if !spec_is_whitespace(s.last()) {
            if r.len() > 0 && spec_is_whitespace(p.last()) {
                assert forall|i: int| 0 <= i < t.len() && spec_is_whitespace(#[trigger] t[i]) implies t[i]
                    == ' ' && 0 < i && !spec_is_whitespace(t[i - 1]) by {
                    if i < r.len() {
                        assert(t[i] == r[i]);
                        assert(t[i - 1] == r[i - 1]);
                    } else if i == r.len() {
                        assert(t[i - 1] == r.last());
                    }
                }
            } else {
                assert forall|i: int| 0 <= i < t.len() && spec_is_whitespace(#[trigger] t[i]) implies t[i]
                    == ' ' && 0 < i && !spec_is_whitespace(t[i - 1]) by {
                    if i < r.len() {
                        assert(t[i] == r[i]);
                        assert(t[i - 1] == r[i - 1]);
                    }
                }
            }
        }
    }
}

/// Collapsing spaced text only drops a trailing space.
proof fn lemma_collapse_spaced(t: Seq<char>)
    requires
        spec_spaced(t),
    ensures
        spec_collapse(t) == (if t.len() > 0 && spec_is_whitespace(t.last()) { t.drop_last() } else { t }),
    decreases t.len(),
{
    if t.len() > 0 {
        let p = t.drop_last();
        assert(spec_spaced(p)) by {
            assert forall|i: int| 0 <= i < p.len() && spec_is_whitespace(#[trigger] p[i]) implies p[i] == ' '
                && 0 < i && !spec_is_whitespace(p[i - 1]) by {
                assert(p[i] == t[i]);
                assert(t[i - 1] == p[i - 1]);
            }
        }
        lemma_collapse_spaced(p);
        let c = t.last();
        if spec_is_whitespace(c) {
            assert(t.len() - 1 > 0);
            assert(!spec_is_whitespace(t[t.len() - 2]));
            assert(p.last() == t[t.len() - 2]);
        } else if p.len() > 0 && spec_is_whitespace(p.last()) {
            let q = p.drop_last();
            assert(p.len() - 1 > 0);
            assert(!spec_is_whitespace(p[p.len() - 2]));
            assert(p.last() == ' ');
            assert(spec_collapse(p) =~= q);
            assert(q.push(' ').push(c) =~= t);
        } else {
            assert(p.push(c) =~= t);
        }
    } else {
        assert(t =~= Seq::<char>::empty());
    }
}

/// Collapsing whitespace twice gives the same text as collapsing it once.
pub proof fn law_collapse_idempotent(s: Seq<char>)
    ensures
        spec_collapse(spec_collapse(s)) == spec_collapse(s),
        spec_collapsed(spec_collapse(s)),
{
    lemma_collapse_collapsed(s);
    lemma_collapse_spaced(spec_collapse(s));
}

/// Text that already is words joined by single spaces comes out of
/// collapsing unchanged.
pub proof fn law_collapse_keeps_collapsed(t: Seq<char>)
    requires
        spec_collapsed(t),
    ensures
        spec_collapse(t) == t,
{
    lemma_collapse_spaced(t);
}

/// Whether `w` is one word: not empty, and without whitespace.
pub open spec fn spec_word(w: Seq<char>) -> bool {
    w.len() > 0 && forall|i: int| 0 <= i < w.len() ==> !spec_is_whitespace(#[trigger] w[i])
}

/// Three words joined by single spaces are words joined by single spaces.
pub proof fn lemma_three_words_collapsed(a: Seq<char>, b: Seq<char>, c: Seq<char>)
    requires
        spec_word(a),
        spec_word(b),
        spec_word(c),
    ensures
        spec_collapsed(a + seq![' '] + b + seq![' '] + c),
{
    let t = a + seq![' '] + b + seq![' '] + c;
    let i1 = a.len() as int;
    let i2 = a.len() + 1 + b.len();
    assert forall|i: int| 0 <= i < t.len() && spec_is_whitespace(#[trigger] t[i]) implies t[i] == ' ' && 0 < i
        && !spec_is_whitespace(t[i - 1]) by {
        if i < i1 {
            assert(t[i] == a[i]);
        } else if i == i1 {
            assert(t[i - 1] == a[i1 - 1]);
        } else if i < i2 {
            assert(t[i] == b[i - i1 - 1]);
        } else if i == i2 {
            assert(t[i - 1] == b[b.len() - 1]);
        } else {
            assert(t[i] == c[i - i2 - 1]);
        }
    }
    assert(t[0] == a[0]);
    assert(t.last() == c[c.len() - 1]);
}

/// Collapses the whitespace of `s`: its words, joined by single spaces.
pub fn collapse_whitespace(s: &str) -> (r: String)
    ensures
        r@ == spec_collapse(s@),
{
    let v = chars_of(s);
    let mut out = String::new();
    let mut started = false;
    let mut i: usize = 0;
    while i < v.len()
        invariant
            v@ == s@,
            i <= v.len(),
            out@ == spec_collapse(v@.take(i as int)),
            started == (out@.len() > 0),
        decreases v.len() - i,
    {
        let c = v[i];
        let ghost p = v@.take(i as int);
        assert(v@.take(i + 1).drop_last() =~= p);
        assert(v@.take(i + 1).last() == c);
        if !is_whitespace(c) {
            if started && is_whitespace(v[i - 1]) {
                assert(p.last() == v@[i - 1]);
                push_char(&mut out, ' ');
            } else if i > 0 {
                assert(p.last() == v@[i - 1]);
            }
            push_char(&mut out, c);
            started = true;
        }
        i = i + 1;
    }
    assert(v@.take(v.len() as int) =~= v@);
    out
}

/// `s` with its ASCII letters in upper case (`str::to_ascii_uppercase`).
pub open spec fn spec_ascii_uppercase(s: Seq<char>) -> Seq<char> {
    s.map_values(|c: char| spec_ascii_upper(c))
}

/// Upper-cases the ASCII letters of `s`.
pub fn ascii_uppercase(s: &str) -> (r: String)
    ensures
        r@ == spec_ascii_uppercase(s@),
{
    let v = chars_of(s);
    let mut out = String::new();
    let mut i: usize = 0;
    while i < v.len()
        invariant
            v@ == s@,
            i <= v.len(),
            out@ == spec_ascii_uppercase(v@.take(i as int)),
        decreases v.len() - i,
    {
        push_char(&mut out, ascii_upper(v[i]));
        i = i + 1;
        assert(out@ =~= spec_ascii_uppercase(v@.take(i as int)));
    }
    assert(v@.take(v.len() as int) =~= v@);
    out
}

/// `s` without its commas.
pub open spec fn spec_remove_commas(s: Seq<char>) -> Seq<char>
    decreases s.len(),
{
    if s.len() == 0 {
        Seq::empty()
    } else if s.last() == ',' {
        spec_remove_commas(s.drop_last())
    } else {
        spec_remove_commas(s.drop_last()).push(s.last())
    }
}

/// The index of the last space of `s`.
pub open spec fn spec_last_space(s: Seq<char>) -> Option<int>
    decreases s.len(),
{
    if s.len() == 0 {
        None
    } else if s.last() == ' ' {
        Some(s.len() - 1)
    } else {
        spec_last_space(s.drop_last())
    }
}

/// The city/state text made from HamQTH's `adr_city`: whitespace
/// collapsed, every comma removed, then one comma put before the last
/// space (the one that separates the state from the city).
pub open spec fn spec_hamqth_city_state(raw: Seq<char>) -> Seq<char> {
    let t = spec_remove_commas(spec_collapse(raw));
    match spec_last_space(t) {
        Some(j) => t.insert(j, ','),
        None => t,
    }
}

proof fn lemma_no_commas(s: Seq<char>)
    ensures
        forall|i: int| 0 <= i < spec_remove_commas(s).len() ==> #[trigger] spec_remove_commas(s)[i] != ',',
    decreases s.len(),
{
    if s.len() > 0 {
        let d = s.drop_last();
        lemma_no_commas(d);
        let r = spec_remove_commas(s);
        let rd = spec_remove_commas(d);
        if s.last() != ',' {
            assert forall|i: int| 0 <= i < r.len() implies #[trigger] r[i] != ',' by {
                if i < rd.len() {
                    assert(r[i] == rd[i]);
                }
            }
        }
    }
}

proof fn lemma_last_space_is_space(s: Seq<char>)
    ensures
        spec_last_space(s) matches Some(j) ==> 0 <= j < s.len() && s[j] == ' ',
    decreases s.len(),
{
    if s.len() > 0 && s.last() != ' ' {
        lemma_last_space_is_space(s.drop_last());
    }
}

/// The city/state text holds at most one comma, and that comma stands
/// right before a space: whatever commas HamQTH sent are gone.
pub proof fn law_city_state_one_comma(raw: Seq<char>)
    ensures
        ({
            let r = spec_hamqth_city_state(raw);
            &&& forall|i: int, j: int| 0 <= i < r.len() && 0 <= j < r.len() && r[i] == ',' && r[j] == ',' ==> i == j
            &&& forall|i: int| 0 <= i < r.len() && #[trigger] r[i] == ',' ==> i + 1 < r.len() && r[i + 1] == ' '
        }),
{
    let t = spec_remove_commas(spec_collapse(raw));
    lemma_no_commas(spec_collapse(raw));
    lemma_last_space_is_space(t);
    let r = spec_hamqth_city_state(raw);
    if let Some(j) = spec_last_space(t) {
        assert forall|i: int| 0 <= i < r.len() && r[i] == ',' implies i == j by {
            if i < j {
                assert(r[i] == t[i]);
            } else if i > j {
                assert(r[i] == t[i - 1]);
            }
        }
        assert(r[j + 1] == t[j]);
    }
}

/// Builds the city/state text from HamQTH's `adr_city` field.
pub fn hamqth_city_state(raw: &str) -> (r: String)
    ensures
        r@ == spec_hamqth_city_state(raw@),
{
    let w = collapse_whitespace(raw);
    let v = chars_of(w.as_str());
    let mut cur: Vec<char> = Vec::new();
    let mut i: usize = 0;
    while i < v.len()
        invariant
            i <= v.len(),
            v@ == spec_collapse(raw@),
            cur@ == spec_remove_commas(v@.take(i as int)),
        decreases v.len() - i,
    {
        assert(v@.take(i + 1).drop_last() =~= v@.take(i as int));
        assert(v@.take(i + 1).last() == v@[i as int]);
        if v[i] != ',' {
            cur.push(v[i]);
        }
        i = i + 1;
    }
    assert(v@.take(v.len() as int) =~= v@);
    let ghost t = cur@;
    let mut j: usize = cur.len();
    assert(t.take(t.len() as int) =~= t);
    while j > 0 && cur[j - 1] != ' '
        invariant
            j <= cur.len(),
            cur@ == t,
            spec_last_space(t) == spec_last_space(t.take(j as int)),
        decreases j,
    {
        assert(t.take(j as int).drop_last() =~= t.take(j - 1));
        j = j - 1;
    }
    if j > 0 {
        assert(t.take(j as int).last() == ' ');
        cur.insert(j - 1, ',');
    } else {
        assert(t.take(0).len() == 0);
    }
    string_of_range(&cur, 0, cur.len())
}

} // verus!

