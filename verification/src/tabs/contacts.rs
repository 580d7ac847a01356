//! The contact table tab: how clicking a column heading changes the sort
//! order, which loaded contact a table row shows, and when the visible rows
//! are fetched again.

use vstd::prelude::*;
use vstd::arithmetic::div_mod::{lemma_fundamental_div_mod_converse_div, lemma_fundamental_div_mod_converse_mod};
use crate::database::{ContactTableColumn, ColumnSortDirection, spec_is_sortable};
use crate::types::{Contact, Event};
use crate::text::{
    chars_of, trim_bounds, parse_u64_range, push_char, push_decimal, spec_trim, spec_parse_u64, spec_decimal,
    spec_two_digits,
};
use crate::dates::{
    parse_ymd_date, parse_hms_time, format_iso_date, format_hms_time, spec_ymd_date, spec_hms_time, spec_iso_date,
    spec_hms_text, spec_valid_date, spec_valid_time,
};

verus! {

/// The sort state of the table: the column it is sorted by, if any, and the
/// direction.
#[derive(Debug, Clone, Copy, PartialEq, Eq, Structural)]
pub struct SortState {
    pub column: Option<ContactTableColumn>,
    pub dir: ColumnSortDirection,
}

/// The sort state after the heading of `column` is clicked: a different
/// column than the one sorted by first resets the state; then an unsorted
/// ascending table becomes sorted by `column` ascending, a table sorted
/// ascending turns descending, and anything else returns to unsorted
/// ascending.
pub open spec fn spec_click_sort(s: SortState, column: ContactTableColumn) -> SortState {
    let s1 = match s.column {
        Some(c) => if c != column {
            SortState { column: None, dir: ColumnSortDirection::Ascending }
        } else {
            s
        },
        None => s,
    };
    if s1.column is None && s1.dir == ColumnSortDirection::Ascending {
        SortState { column: Some(column), dir: s1.dir }
    } else if s1.column is Some && s1.dir == ColumnSortDirection::Ascending {
        SortState { column: s1.column, dir: ColumnSortDirection::Descending }
    } else {
        SortState { column: None, dir: ColumnSortDirection::Ascending }
    }
}

/// Applies a click on the heading of a sortable `column`.
pub fn click_sort(state: SortState, column: ContactTableColumn) -> (r: SortState)
    requires
        spec_is_sortable(column),
    ensures
        r == spec_click_sort(state, column),
{
    let mut s = state;
    if let Some(c) = s.column {
        if c != column {
            s = SortState { column: None, dir: ColumnSortDirection::Ascending };
        }
    }
    if s.column.is_none() && s.dir == ColumnSortDirection::Ascending {
        SortState { column: Some(column), dir: s.dir }
    } else if s.column.is_some() && s.dir == ColumnSortDirection::Ascending {
        SortState { column: s.column, dir: ColumnSortDirection::Descending }
    } else {
        SortState { column: None, dir: ColumnSortDirection::Ascending }
    }
}

/// From the unsorted state, clicking one heading sorts ascending by it, a
/// second click sorts descending, and a third returns to unsorted; clicking
/// another heading while sorted starts over, ascending by that column.
pub proof fn law_sort_cycle(column: ContactTableColumn, other: ContactTableColumn, dir: ColumnSortDirection)
    requires
        column != other,
    ensures
        ({
            let s0 = SortState { column: None, dir: ColumnSortDirection::Ascending };
            let s1 = spec_click_sort(s0, column);
            let s2 = spec_click_sort(s1, column);
            let s3 = spec_click_sort(s2, column);
            &&& s1 == SortState { column: Some(column), dir: ColumnSortDirection::Ascending }
            &&& s2 == SortState { column: Some(column), dir: ColumnSortDirection::Descending }
            &&& s3 == s0
        }),
        (spec_click_sort(SortState { column: Some(other), dir }, column) == SortState {
            column: Some(column),
            dir: ColumnSortDirection::Ascending,
        }),
{
}

/// Takes in a click on the heading of `column`: a sortable column changes
/// the sort as `spec_click_sort` says and asks for the rows to be fetched
/// again; a click on any other heading changes nothing.
pub fn heading_clicked(sort: &mut SortState, fetch: &mut FetchState, column: ContactTableColumn)
    ensures
        spec_is_sortable(column) ==> {
            &&& *final(sort) == spec_click_sort(*old(sort), column)
            &&& *final(fetch) == (FetchState { should_query: true, last_row_idx: old(fetch).last_row_idx })
        },
        !spec_is_sortable(column) ==> *final(sort) == *old(sort) && *final(fetch) == *old(fetch),
{
    if column.is_sortable() {
        *sort = click_sort(*sort, column);
        fetch.should_query = true;
    }
}

/// The index into the loaded contacts that table row `row` shows, when the
/// loaded contacts begin at row `offset`: `row - offset` with wrap-around,
/// if that is below `len`.
pub open spec fn spec_row_slot(row: usize, offset: usize, len: usize) -> Option<usize> {
    let idx = if row >= offset {
        row - offset
    } else {
        row - offset + usize::MAX + 1
    };
    if idx < len {
        Some(idx as usize)
    } else {
        None
    }
}

/// The loaded contact that table row `row` shows, if it is loaded.
pub fn row_slot(row: usize, offset: usize, len: usize) -> (r: Option<usize>)
    ensures
        r == spec_row_slot(row, offset, len),
{
    let idx = row.wrapping_sub(offset);
    if idx < len {
        Some(idx)
    } else {
        None
    }
}

/// Whether the cell of `column` in table row `row` is the one being edited.
pub fn is_editing(editing: Option<(usize, ContactTableColumn)>, row: usize, column: ContactTableColumn) -> (r: bool)
    ensures
        r == (editing == Some((row, column))),
{
    match editing {
        Some((r, c)) => r == row && c == column,
        None => false,
    }
}

/// The text of a contact's date cell, `YYYY-MM-DD`.
pub fn date_cell_text(contact: &Contact) -> (r: String)
    requires
        spec_valid_date(contact.date.0, contact.date.1, contact.date.2),
    ensures
        r@ == spec_iso_date(contact.date.0, contact.date.1, contact.date.2),
{
    format_iso_date(contact.date.0, contact.date.1, contact.date.2)
}

/// The text of a contact's time cell, `HH:MM:SS`.
pub fn time_cell_text(contact: &Contact) -> (r: String)
    requires
        spec_valid_time(contact.time.0, contact.time.1, contact.time.2, contact.time.3),
    ensures
        r@ == spec_hms_text(contact.time.0, contact.time.1, contact.time.2, contact.time.3),
{
    format_hms_time(contact.time.0, contact.time.1, contact.time.2, contact.time.3)
}

/// Commits a date typed into a contact's date cell: a date that reads as
/// `%Y-%m-%d` replaces the contact's, and the contact is to be saved;
/// otherwise the contact stays as it was.
pub fn commit_date_edit(contact: &mut Contact, text: &str) -> (save: bool)
    ensures
        match spec_ymd_date(text@) {
            Some(d) => (save && *final(contact) == (Contact { date: d, ..*old(contact) })),
            None => (!save && *final(contact) == *old(contact)),
        },
{
    match parse_ymd_date(text) {
        Some(d) => {
            contact.date = d;
            true
        },
        None => false,
    }
}

/// Commits a time typed into a contact's time cell: a time that reads as
/// `%H:%M:%S` replaces the contact's, and the contact is to be saved;
/// otherwise the contact stays as it was.
pub fn commit_time_edit(contact: &mut Contact, text: &str) -> (save: bool)
    ensures
        match spec_hms_time(text@) {
            Some(t) => (save && *final(contact) == (Contact { time: t, ..*old(contact) })),
            None => (!save && *final(contact) == *old(contact)),
        },
{
    match parse_hms_time(text) {
        Some(t) => {
            contact.time = t;
            true
        },
        None => false,
    }
}

/// The text of a duration of `seconds` seconds: hours, then minutes and
/// seconds of two digits each, `H:MM:SS`.
pub open spec fn spec_duration_text(seconds: nat) -> Seq<char> {
    spec_decimal(seconds / 3600) + seq![':'] + spec_two_digits((seconds / 60 % 60) as int) + seq![':']
        + spec_two_digits((seconds % 60) as int)
}

/// The duration text reads back as the duration: `h` hours, `m` minutes
/// and `s` seconds (minutes and seconds below 60) show as `h`, then `m` and
/// `s` in two digits each, so the text of `h * 3600 + m * 60 + s` seconds
/// is `H:MM:SS` of exactly those parts.
pub proof fn law_duration_text_reads_back(h: nat, m: nat, s: nat)
    requires
        m < 60,
        s < 60,
    ensures
        spec_duration_text(h * 3600 + m * 60 + s) == spec_decimal(h) + seq![':'] + spec_two_digits(m as int)
            + seq![':'] + spec_two_digits(s as int),
{
    let total = h * 3600 + m * 60 + s;
    assert(total == (h * 60 + m) * 60 + s) by (nonlinear_arith)
        requires total == h * 3600 + m * 60 + s;
    lemma_fundamental_div_mod_converse_div(total as int, 60, (h * 60 + m) as int, s as int);
    lemma_fundamental_div_mod_converse_mod(total as int, 60, (h * 60 + m) as int, s as int);
    lemma_fundamental_div_mod_converse_div((h * 60 + m) as int, 60, h as int, m as int);
    lemma_fundamental_div_mod_converse_mod((h * 60 + m) as int, 60, h as int, m as int);
    assert(total == h * 3600 + (m * 60 + s));
    assert(m * 60 + s < 3600);
    lemma_fundamental_div_mod_converse_div(total as int, 3600, h as int, (m * 60 + s) as int);
}

fn push_two_digits(s: &mut String, n: u64)
    requires
        n < 100,
    ensures
        final(s)@ == old(s)@ + spec_two_digits(n as int),
{
    push_char(s, ((n / 10) as u8 + 48) as char);
    push_char(s, ((n % 10) as u8 + 48) as char);
    assert(final(s)@ =~= old(s)@ + spec_two_digits(n as int));
}

/// The text of a contact's duration cell, `H:MM:SS`.
pub fn duration_cell_text(seconds: u64) -> (r: String)
    ensures
        r@ == spec_duration_text(seconds as nat),
{
    let mut r = String::new();
    push_decimal(&mut r, seconds / 3600);
    push_char(&mut r, ':');
    push_two_digits(&mut r, seconds / 60 % 60);
    push_char(&mut r, ':');
    push_two_digits(&mut r, seconds % 60);
    assert(r@ =~= spec_duration_text(seconds as nat));
    r
}

/// Commits a duration typed into a contact's duration cell: text that,
/// without surrounding whitespace, reads as a whole number of seconds
/// (`u64::from_str`) replaces the contact's duration, and the contact is to
/// be saved; otherwise, empty text among it, the contact stays as it was.
pub fn commit_duration_edit(contact: &mut Contact, text: &str) -> (save: bool)
    ensures
        match spec_parse_u64(spec_trim(text@)) {
            Some(d) => (save && *final(contact) == (Contact { duration: d, ..*old(contact) })),
            None => (!save && *final(contact) == *old(contact)),
        },
{
    let chars = chars_of(text);
    let (a, b) = trim_bounds(&chars);
    match parse_u64_range(&chars, a, b) {
        Some(d) => {
            contact.duration = d;
            true
        },
        None => false,
    }
}

/// What the table remembers between frames about fetching rows.
#[derive(Debug, Clone, Copy, PartialEq, Eq, Structural)]
pub struct FetchState {
    /// Whether the rows should be fetched again.
    pub should_query: bool,
    /// The last visible row when rows were last fetched.
    pub last_row_idx: usize,
}

impl Default for FetchState {
    /// A new table fetches its rows at once.
    fn default() -> (s: FetchState)
        ensures
            s == (FetchState { should_query: true, last_row_idx: 0 }),
    {
        FetchState { should_query: true, last_row_idx: 0 }
    }
}

impl FetchState {
    /// Takes in an event: a refresh of the contacts asks for the rows to
    /// be fetched again; other events change nothing.
    pub fn process_event(&mut self, event: &Event)
        ensures
            *final(self) == spec_fetch_after_event(*old(self), *event),
    {
        if let Event::RefreshContacts = event {
            self.should_query = true;
        }
    }

    /// An update or a delete of a contact has finished: the rows are
    /// fetched again.
    pub fn write_finished(&mut self)
        ensures
            final(self).should_query,
            final(self).last_row_idx == old(self).last_row_idx,
    {
        self.should_query = true;
    }
}

/// The state after an event: a refresh of the contacts asks for the rows
/// to be fetched again.
pub open spec fn spec_fetch_after_event(s: FetchState, e: Event) -> FetchState {
    FetchState { should_query: s.should_query || e is RefreshContacts, last_row_idx: s.last_row_idx }
}

/// Whether the frame that showed rows `first..=last` can ask for them.
pub open spec fn spec_fetchable(first: Option<usize>, last: usize) -> bool {
    let f = match first {
        Some(f) => f,
        None => 0usize,
    };
    last < f || last - f < usize::MAX
}

/// The fetch decided at the end of a frame that showed rows `first..=last`,
/// and the state after it: a fetch is due when one was asked for or the
/// last visible row moved, and starts when no fetch is running, from the
/// first visible row for as many rows as were visible.
pub open spec fn spec_plan_fetch(s: FetchState, first: Option<usize>, last: usize, running: bool) -> (
    Option<(usize, usize)>,
    FetchState,
) {
    let due = s.should_query || s.last_row_idx != last;
    let f: usize = match first {
        Some(f) => f,
        None => 0usize,
    };
    let n: int = (if last >= f { last - f } else { 0 }) + 1;
    if due && !running {
        (Some((f, n as usize)), FetchState { should_query: false, last_row_idx: last })
    } else {
        (None, FetchState { should_query: due, last_row_idx: s.last_row_idx })
    }
}

/// Decides, at the end of a frame that showed rows `first..=last` (`first`
/// is `None` when no row was shown), whether to fetch rows, and which.
/// Returns the first row and the number of rows to fetch.
pub fn plan_fetch(state: &mut FetchState, first: Option<usize>, last: usize, task_running: bool) -> (r: Option<(usize, usize)>)
    requires
        spec_fetchable(first, last),
    ensures
        (r, *final(state)) == spec_plan_fetch(*old(state), first, last, task_running),
{
    state.should_query = state.should_query || state.last_row_idx != last;
    if state.should_query && !task_running {
        let f = match first {
            Some(f) => f,
            None => 0,
        };
        let n = last.saturating_sub(f) + 1;
        state.last_row_idx = last;
        state.should_query = false;
        Some((f, n))
    } else {
        None
    }
}

/// After a refresh event, the next frame with no fetch running fetches the
/// visible rows.
pub proof fn law_refresh_fetches(s: FetchState, first: Option<usize>, last: usize)
    requires
        spec_fetchable(first, last),
    ensures
        spec_plan_fetch(spec_fetch_after_event(s, Event::RefreshContacts), first, last, false).0 is Some,
{
}

/// A fetch that is asked for while another is running is not lost: it is
/// still asked for after that frame, and the first frame with no fetch
/// running makes it.
pub proof fn law_fetch_request_kept(s: FetchState, first: Option<usize>, last: usize, first2: Option<usize>, last2: usize)
    requires
        s.should_query,
        spec_fetchable(first, last),
        spec_fetchable(first2, last2),
    ensures
        spec_plan_fetch(s, first, last, true).0 is None,
        spec_plan_fetch(s, first, last, true).1.should_query,
        spec_plan_fetch(spec_plan_fetch(s, first, last, true).1, first2, last2, false).0 is Some,
{
}

} // verus!
