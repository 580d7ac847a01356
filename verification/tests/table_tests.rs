use qlog::database::{
    contacts_query, resolve_endpoint, written_record, ColumnSortDirection,
    ContactTableColumn, ContactsTableMetadata, DatabaseError, MetadataCache, SortOrder, DEFAULT_RECORD_LIMIT,
};
use qlog::tabs::contacts::{
    click_sort, commit_date_edit, commit_duration_edit, commit_time_edit, duration_cell_text, heading_clicked, is_editing,
    plan_fetch, row_slot, FetchState, SortState,
};
use qlog::types::{Contact, Event};

#[test]
fn sortable_columns() {
    let sortable: Vec<ContactTableColumn> = ContactTableColumn::all().into_iter().filter(|c| c.is_sortable()).collect();
    assert_eq!(sortable, vec![ContactTableColumn::Callsign, ContactTableColumn::Date, ContactTableColumn::Time]);
    assert_eq!(ContactTableColumn::all().len(), 11);
}

#[test]
fn column_names_and_labels() {
    assert_eq!(ContactTableColumn::RxPwr.field_name(), "rx_power");
    assert_eq!(ContactTableColumn::TxRst.field_name(), "tx_rst");
    assert_eq!(ContactTableColumn::TxRst.label(), "TX RST");
    assert_eq!(ContactTableColumn::RxPwr.label(), "RX Power");
    assert_eq!(ContactTableColumn::Note.label(), "Note");
}

#[test]
fn default_sort_direction_is_ascending() {
    assert_eq!(ColumnSortDirection::default(), ColumnSortDirection::Ascending);
}

#[test]
fn metadata_defaults_to_no_contacts() {
    assert_eq!(ContactsTableMetadata::default().n_contacts, 0);
    assert_eq!(ContactsTableMetadata::from_record(None).n_contacts, 0);
    assert_eq!(ContactsTableMetadata::from_record(Some(ContactsTableMetadata { n_contacts: 12 })).n_contacts, 12);
}

#[test]
fn metadata_is_reloaded_after_writes() {
    let mut c = MetadataCache::new(ContactsTableMetadata { n_contacts: 3 });
    assert!(!c.needs_reload());
    c.mark_changed();
    assert!(c.needs_reload());
    assert_eq!(c.metadata.n_contacts, 3);
    c.reloaded(ContactsTableMetadata { n_contacts: 4 });
    assert!(!c.needs_reload());
    assert_eq!(c.metadata.n_contacts, 4);
}

#[test]
fn deleting_contacts_drops_count_by_the_contacts_removed() {
    let mut c = MetadataCache::new(ContactsTableMetadata { n_contacts: 5 });
    // Three ids were asked for; the database removed two of them.
    let (deleted, decrement) = c.contacts_deleted(vec!["a", "c"]);
    assert_eq!(deleted, vec!["a", "c"]);
    assert_eq!(decrement, 2);
    assert!(c.needs_reload());
    let mut c = MetadataCache::new(ContactsTableMetadata { n_contacts: 5 });
    let (deleted, decrement) = c.contacts_deleted(Vec::<u8>::new());
    assert!(deleted.is_empty());
    assert_eq!(decrement, 0);
}

#[test]
fn deleting_one_contact_counts_only_what_was_removed() {
    let mut c = MetadataCache::new(ContactsTableMetadata { n_contacts: 5 });
    let (r, decrement) = c.contact_deleted(Some("x"));
    assert_eq!(r.unwrap(), "x");
    assert_eq!(decrement, 1);
    assert!(c.needs_reload());
    let mut c = MetadataCache::new(ContactsTableMetadata { n_contacts: 5 });
    let (r, decrement) = c.contact_deleted::<u8>(None);
    assert!(matches!(r, Err(DatabaseError::DoesNotExist)));
    assert_eq!(decrement, 0);
    assert!(!c.needs_reload());
}

#[test]
fn default_contacts_query_orders_by_callsign_date_time() {
    let q = contacts_query(0, None, None, None);
    assert_eq!(q.limit, DEFAULT_RECORD_LIMIT);
    assert_eq!(q.start, 0);
    assert_eq!(
        q.orders,
        vec![
            SortOrder { column: ContactTableColumn::Callsign, ascending: true },
            SortOrder { column: ContactTableColumn::Date, ascending: true },
            SortOrder { column: ContactTableColumn::Time, ascending: true },
        ]
    );
}

#[test]
fn sorted_contacts_query() {
    let q = contacts_query(40, Some(25), Some(ContactTableColumn::Date), Some(ColumnSortDirection::Descending));
    assert_eq!(q.orders, vec![SortOrder { column: ContactTableColumn::Date, ascending: false }]);
    assert_eq!((q.start, q.limit), (40, 25));
    let q = contacts_query(0, Some(5), Some(ContactTableColumn::Time), Some(ColumnSortDirection::Ascending));
    assert_eq!(q.orders, vec![SortOrder { column: ContactTableColumn::Time, ascending: true }]);
    let q = contacts_query(0, Some(5), Some(ContactTableColumn::Callsign), None);
    assert_eq!(q.orders, vec![SortOrder { column: ContactTableColumn::Callsign, ascending: false }]);
}

#[test]
fn database_endpoint() {
    assert_eq!(resolve_endpoint(Some("mem://".to_string()), "/opt/qlog"), "mem://");
    assert_eq!(resolve_endpoint(None, "/opt/qlog"), "rocksdb:///opt/qlog/db");
}

#[test]
fn empty_answers_are_errors() {
    assert_eq!(written_record(Some(5)).unwrap(), 5);
    assert!(matches!(written_record::<u8>(None), Err(DatabaseError::EmptyResponse)));
}

#[test]
fn heading_clicks_cycle_the_sort() {
    let s0 = SortState { column: None, dir: ColumnSortDirection::Ascending };
    let s1 = click_sort(s0, ContactTableColumn::Callsign);
    assert_eq!(s1, SortState { column: Some(ContactTableColumn::Callsign), dir: ColumnSortDirection::Ascending });
    let s2 = click_sort(s1, ContactTableColumn::Callsign);
    assert_eq!(s2, SortState { column: Some(ContactTableColumn::Callsign), dir: ColumnSortDirection::Descending });
    let s3 = click_sort(s2, ContactTableColumn::Callsign);
    assert_eq!(s3, s0);
    let other = click_sort(s2, ContactTableColumn::Date);
    assert_eq!(other, SortState { column: Some(ContactTableColumn::Date), dir: ColumnSortDirection::Ascending });
}

#[test]
fn rows_map_onto_loaded_contacts() {
    assert_eq!(row_slot(12, 10, 5), Some(2));
    assert_eq!(row_slot(15, 10, 5), None);
    assert_eq!(row_slot(3, 10, 5), None);
    assert_eq!(row_slot(10, 10, 0), None);
}

#[test]
fn new_table_fetches_at_once() {
    let mut s = FetchState::default();
    assert_eq!(plan_fetch(&mut s, Some(0), 9, false), Some((0, 10)));
    assert_eq!(s, FetchState { should_query: false, last_row_idx: 9 });
    assert_eq!(plan_fetch(&mut s, Some(0), 9, false), None);
}

#[test]
fn scrolling_fetches_again_once_idle() {
    let mut s = FetchState { should_query: false, last_row_idx: 9 };
    assert_eq!(plan_fetch(&mut s, Some(5), 14, true), None);
    assert!(s.should_query);
    assert_eq!(s.last_row_idx, 9);
    assert_eq!(plan_fetch(&mut s, Some(5), 14, false), Some((5, 10)));
    assert_eq!(plan_fetch(&mut s, None, 0, false), Some((0, 1)));
}

#[test]
fn refresh_event_and_writes_ask_for_a_fetch() {
    let mut s = FetchState { should_query: false, last_row_idx: 3 };
    s.process_event(&Event::LookupCallsign("W1AW".to_string()));
    assert!(!s.should_query);
    s.process_event(&Event::RefreshContacts);
    assert!(s.should_query);
    let mut t = FetchState { should_query: false, last_row_idx: 3 };
    t.write_finished();
    assert_eq!(t, FetchState { should_query: true, last_row_idx: 3 });
}

#[test]
fn editing_cell() {
    let e = Some((4, ContactTableColumn::Note));
    assert!(is_editing(e, 4, ContactTableColumn::Note));
    assert!(!is_editing(e, 4, ContactTableColumn::Date));
    assert!(!is_editing(e, 5, ContactTableColumn::Note));
    assert!(!is_editing(None, 4, ContactTableColumn::Note));
}

#[test]
fn typed_dates_and_times_update_the_contact() {
    let mut c = Contact::default();
    assert!(commit_date_edit(&mut c, "2024-06-01"));
    assert_eq!(c.date, (2024, 6, 1));
    assert!(!commit_date_edit(&mut c, "06/01/2024"));
    assert_eq!(c.date, (2024, 6, 1));
    assert!(commit_time_edit(&mut c, "18:30:00"));
    assert_eq!(c.time, (18, 30, 0, 0));
    assert!(!commit_time_edit(&mut c, "6pm"));
    assert_eq!(c.time, (18, 30, 0, 0));
}

#[test]
fn clicking_a_sortable_heading_sorts_and_refetches() {
    let mut sort = SortState { column: None, dir: ColumnSortDirection::Ascending };
    let mut fetch = FetchState { should_query: false, last_row_idx: 7 };
    heading_clicked(&mut sort, &mut fetch, ContactTableColumn::Date);
    assert_eq!(sort, SortState { column: Some(ContactTableColumn::Date), dir: ColumnSortDirection::Ascending });
    assert_eq!(fetch, FetchState { should_query: true, last_row_idx: 7 });
    fetch.should_query = false;
    heading_clicked(&mut sort, &mut fetch, ContactTableColumn::Date);
    assert_eq!(sort, SortState { column: Some(ContactTableColumn::Date), dir: ColumnSortDirection::Descending });
    assert!(fetch.should_query);
}

#[test]
fn clicking_an_unsortable_heading_changes_nothing() {
    let mut sort = SortState { column: Some(ContactTableColumn::Time), dir: ColumnSortDirection::Descending };
    let mut fetch = FetchState { should_query: false, last_row_idx: 3 };
    heading_clicked(&mut sort, &mut fetch, ContactTableColumn::Note);
    assert_eq!(sort, SortState { column: Some(ContactTableColumn::Time), dir: ColumnSortDirection::Descending });
    assert_eq!(fetch, FetchState { should_query: false, last_row_idx: 3 });
}

#[test]
fn duration_cell_shows_hours_minutes_seconds() {
    assert_eq!(duration_cell_text(0), "0:00:00");
    assert_eq!(duration_cell_text(3725), "1:02:05");
    assert_eq!(duration_cell_text(90061), "25:01:01");
    assert_eq!(duration_cell_text(59), "0:00:59");
}

#[test]
fn duration_edits_read_whole_seconds() {
    let mut c = Contact::default();
    assert!(commit_duration_edit(&mut c, " 42 "));
    assert_eq!(c.duration, 42);
    assert!(commit_duration_edit(&mut c, "+7"));
    assert_eq!(c.duration, 7);
    assert!(commit_duration_edit(&mut c, "18446744073709551615"));
    assert_eq!(c.duration, u64::MAX);
    for bad in ["", "   ", "+", "-5", "1.5", "abc", "12a", "18446744073709551616"] {
        c.duration = 9;
        assert!(!commit_duration_edit(&mut c, bad), "{bad:?}");
        assert_eq!(c.duration, 9);
    }
}
