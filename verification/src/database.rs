//! The contact database: table columns and their ordering, the queries that
//! read contacts, and how query answers become results.

use vstd::prelude::*;
use crate::text::push_str;

verus! {

/// The default record limit to be returned from the database.
pub const DEFAULT_RECORD_LIMIT: usize = 1_000;
/// The folder of the embedded database, beside the executable.
pub const DB_FOLDER: &'static str = "db";

/// The direction in which a table column should be sorted
#[derive(Debug, Clone, Copy, PartialEq, Eq, Structural)]
pub enum ColumnSortDirection {
    Ascending,
    Descending,
}

impl Default for ColumnSortDirection {
    /// Ascending.
    fn default() -> (d: ColumnSortDirection)
        ensures
            d == ColumnSortDirection::Ascending,
    {
        ColumnSortDirection::Ascending
    }
}

/// A column in the contact table
#[derive(Debug, Clone, Copy, PartialEq, Eq, Structural)]
pub enum ContactTableColumn {
    Callsign,
    Frequency,
    Mode,
    TxRst,
    RxRst,
    TxPwr,
    RxPwr,
    Date,
    Time,
    Duration,
    Note,
}

/// The name of the database field that holds a column.
pub open spec fn spec_field_name(c: ContactTableColumn) -> Seq<char> {
    match c {
        ContactTableColumn::Callsign => "callsign"@,
        ContactTableColumn::Frequency => "frequency"@,
        ContactTableColumn::Mode => "mode"@,
        ContactTableColumn::TxRst => "tx_rst"@,
        ContactTableColumn::RxRst => "rx_rst"@,
        ContactTableColumn::TxPwr => "tx_power"@,
        ContactTableColumn::RxPwr => "rx_power"@,
        ContactTableColumn::Date => "date"@,
        ContactTableColumn::Time => "time"@,
        ContactTableColumn::Duration => "duration"@,
        ContactTableColumn::Note => "note"@,
    }
}

/// The heading of a column in the GUI.
pub open spec fn spec_column_label(c: ContactTableColumn) -> Seq<char> {
    match c {
        ContactTableColumn::Callsign => "Callsign"@,
        ContactTableColumn::Frequency => "Frequency"@,
        ContactTableColumn::Mode => "Mode"@,
        ContactTableColumn::TxRst => "TX RST"@,
        ContactTableColumn::RxRst => "RX RST"@,
        ContactTableColumn::TxPwr => "TX Power"@,
        ContactTableColumn::RxPwr => "RX Power"@,
        ContactTableColumn::Date => "Date"@,
        ContactTableColumn::Time => "Time"@,
        ContactTableColumn::Duration => "Duration"@,
        ContactTableColumn::Note => "Note"@,
    }
}

/// The columns the table can be sorted by: callsign, date and time.
pub open spec fn spec_is_sortable(c: ContactTableColumn) -> bool {
    c == ContactTableColumn::Callsign || c == ContactTableColumn::Date || c == ContactTableColumn::Time
}

impl ContactTableColumn {
    /// Every column, in the order the table shows them.
    pub fn all() -> (v: Vec<ContactTableColumn>)
        ensures
            v@ == seq![
                ContactTableColumn::Callsign,
                ContactTableColumn::Frequency,
                ContactTableColumn::Mode,
                ContactTableColumn::TxRst,
                ContactTableColumn::RxRst,
                ContactTableColumn::TxPwr,
                ContactTableColumn::RxPwr,
                ContactTableColumn::Date,
                ContactTableColumn::Time,
                ContactTableColumn::Duration,
                ContactTableColumn::Note,
            ],
    {
        let v = vec![
            ContactTableColumn::Callsign,
            ContactTableColumn::Frequency,
            ContactTableColumn::Mode,
            ContactTableColumn::TxRst,
            ContactTableColumn::RxRst,
            ContactTableColumn::TxPwr,
            ContactTableColumn::RxPwr,
            ContactTableColumn::Date,
            ContactTableColumn::Time,
            ContactTableColumn::Duration,
            ContactTableColumn::Note,
        ];
        v
    }

    /// The database field of the column (e.g. `RxPwr` is `rx_power`).
    pub fn field_name(&self) -> (r: &'static str)
        ensures
            r@ == spec_field_name(*self),
    {
        match self {
            ContactTableColumn::Callsign => "callsign",
            ContactTableColumn::Frequency => "frequency",
            ContactTableColumn::Mode => "mode",
            ContactTableColumn::TxRst => "tx_rst",
            ContactTableColumn::RxRst => "rx_rst",
            ContactTableColumn::TxPwr => "tx_power",
            ContactTableColumn::RxPwr => "rx_power",
            ContactTableColumn::Date => "date",
            ContactTableColumn::Time => "time",
            ContactTableColumn::Duration => "duration",
            ContactTableColumn::Note => "note",
        }
    }

    /// The heading of the column in the GUI.
    pub fn label(&self) -> (r: &'static str)
        ensures
            r@ == spec_column_label(*self),
    {
        match self {
            ContactTableColumn::Callsign => "Callsign",
            ContactTableColumn::Frequency => "Frequency",
            ContactTableColumn::Mode => "Mode",
            ContactTableColumn::TxRst => "TX RST",
            ContactTableColumn::RxRst => "RX RST",
            ContactTableColumn::TxPwr => "TX Power",
            ContactTableColumn::RxPwr => "RX Power",
            ContactTableColumn::Date => "Date",
            ContactTableColumn::Time => "Time",
            ContactTableColumn::Duration => "Duration",
            ContactTableColumn::Note => "Note",
        }
    }

    /// Whether the table can be sorted by this column.
    pub fn is_sortable(&self) -> (r: bool)
        ensures
            r == spec_is_sortable(*self),
    {
        match self {
            ContactTableColumn::Callsign => true,
            ContactTableColumn::Frequency => false,
            ContactTableColumn::Mode => false,
            ContactTableColumn::TxRst => false,
            ContactTableColumn::RxRst => false,
            ContactTableColumn::TxPwr => false,
            ContactTableColumn::RxPwr => false,
            ContactTableColumn::Date => true,
            ContactTableColumn::Time => true,
            ContactTableColumn::Duration => false,
            ContactTableColumn::Note => false,
        }
    }
}

/// Contains metadata about the contacts table
#[derive(Debug, Clone, Copy, PartialEq, Eq, Structural)]
pub struct ContactsTableMetadata {
    /// The number of records in the contacts table
    pub n_contacts: usize,
}

impl Default for ContactsTableMetadata {
    /// No contacts.
    fn default() -> (m: ContactsTableMetadata)
        ensures
            m.n_contacts == 0,
    {
        ContactsTableMetadata { n_contacts: 0 }
    }
}

impl ContactsTableMetadata {
    /// The metadata record if the database holds one, otherwise an empty one.
    pub fn from_record(record: Option<ContactsTableMetadata>) -> (m: ContactsTableMetadata)
        ensures
            m == match record {
                Some(r) => r,
                None => ContactsTableMetadata { n_contacts: 0 },
            },
    {
        match record {
            Some(r) => r,
            None => ContactsTableMetadata::default(),
        }
    }
}

/// The contacts metadata that the database interface keeps, and whether a
/// write has changed it since it was read.
#[derive(Debug, Clone, Copy, PartialEq, Eq, Structural)]
pub struct MetadataCache {
    pub metadata: ContactsTableMetadata,
    pub changed: bool,
}

impl MetadataCache {
    /// The cache after connecting: the metadata read, unchanged since.
    pub fn new(metadata: ContactsTableMetadata) -> (c: MetadataCache)
        ensures
            c == (MetadataCache { metadata, changed: false }),
    {
        MetadataCache { metadata, changed: false }
    }

    /// Whether the metadata must be read again before it is handed out.
    pub fn needs_reload(&self) -> (r: bool)
        ensures
            r == self.changed,
    {
        self.changed
    }

    /// A write to the contacts table has finished.
    pub fn mark_changed(&mut self)
        ensures
            *final(self) == (MetadataCache { metadata: old(self).metadata, changed: true }),
    {
        self.changed = true;
    }

    /// A deletion of several contacts was answered with `deleted`, the
    /// contacts that it removed: the metadata has changed, and the contact
    /// count drops by one per contact removed, ids that named no contact
    /// counting for nothing.
    pub fn contacts_deleted<T>(&mut self, deleted: Vec<T>) -> (r: (Vec<T>, i64))
        requires
            deleted@.len() <= i64::MAX,
        ensures
            *final(self) == (MetadataCache { metadata: old(self).metadata, changed: true }),
            r.0@ == deleted@,
            r.1 == deleted@.len(),
    {
        self.changed = true;
        let n = deleted.len() as i64;
        (deleted, n)
    }

    /// A deletion of one contact was answered with `response`: the contact
    /// removed, which changes the metadata and drops the contact count by
    /// one; or nothing, when no such contact existed (`DoesNotExist`), which
    /// changes neither.
    pub fn contact_deleted<T>(&mut self, response: Option<T>) -> (r: (Result<T, DatabaseError>, i64))
        ensures
            match response {
                Some(c) => {
                    &&& r.0 == Ok::<T, DatabaseError>(c)
                    &&& r.1 == 1
                    &&& *final(self) == (MetadataCache { metadata: old(self).metadata, changed: true })
                },
                None => {
                    &&& r.0 matches Err(DatabaseError::DoesNotExist)
                    &&& r.1 == 0
                    &&& *final(self) == *old(self)
                },
            },
    {
        match response {
            Some(c) => {
                self.changed = true;
                (Ok(c), 1)
            },
            None => (Err(DatabaseError::DoesNotExist), 0),
        }
    }

    /// The metadata was read again; it is current until the next write.
    pub fn reloaded(&mut self, metadata: ContactsTableMetadata)
        ensures
            *final(self) == (MetadataCache { metadata, changed: false }),
    {
        self.metadata = metadata;
        self.changed = false;
    }
}

/// One `ORDER BY` term: a column, ascending or not.
#[derive(Debug, Clone, Copy, PartialEq, Eq, Structural)]
pub struct SortOrder {
    pub column: ContactTableColumn,
    pub ascending: bool,
}

/// A query that reads contacts: `SELECT * FROM contact ORDER BY .. LIMIT
/// limit START start`.
#[derive(Debug, Clone)]
pub struct ContactsQuery {
    pub orders: Vec<SortOrder>,
    pub limit: usize,
    pub start: usize,
}

/// The ordering of a contacts query: the chosen column, ascending only when
/// that direction is given as ascending; without a column, by callsign,
/// date and time, all ascending.
pub open spec fn spec_contact_orders(sort_col: Option<ContactTableColumn>, sort_dir: Option<ColumnSortDirection>) -> Seq<SortOrder> {
    match sort_col {
        Some(c) => seq![SortOrder { column: c, ascending: sort_dir == Some(ColumnSortDirection::Ascending) }],
        None => seq![
            SortOrder { column: ContactTableColumn::Callsign, ascending: true },
            SortOrder { column: ContactTableColumn::Date, ascending: true },
            SortOrder { column: ContactTableColumn::Time, ascending: true },
        ],
    }
}

/// Builds the query that reads contacts: from row `start_at`, at most
/// `limit` rows (the default limit when `None`), ordered as requested.
pub fn contacts_query(
    start_at: usize,
    limit: Option<usize>,
    sort_col: Option<ContactTableColumn>,
    sort_dir: Option<ColumnSortDirection>,
) -> (q: ContactsQuery)
    ensures
        q.orders@ == spec_contact_orders(sort_col, sort_dir),
        q.limit == match limit {
            Some(l) => l,
            None => DEFAULT_RECORD_LIMIT,
        },
        q.start == start_at,
{
    let mut orders: Vec<SortOrder> = Vec::new();
    match sort_col {
        Some(c) => {
            let ascending = match sort_dir {
                Some(d) => d == ColumnSortDirection::Ascending,
                None => false,
            };
            orders.push(SortOrder { column: c, ascending });
        },
        None => {
            orders.push(SortOrder { column: ContactTableColumn::Callsign, ascending: true });
            orders.push(SortOrder { column: ContactTableColumn::Date, ascending: true });
            orders.push(SortOrder { column: ContactTableColumn::Time, ascending: true });
        },
    }
    assert(orders@ =~= spec_contact_orders(sort_col, sort_dir));
    let limit = match limit {
        Some(l) => l,
        None => DEFAULT_RECORD_LIMIT,
    };
    ContactsQuery { orders, limit, start: start_at }
}

/// The endpoint to connect to: the one given, or else the embedded
/// database in the `db` folder beside the executable.
pub fn resolve_endpoint(endpoint: Option<String>, exe_dir: &str) -> (r: String)
    ensures
        r@ == match endpoint {
            Some(e) => e@,
            None => "rocksdb://"@ + exe_dir@ + "/"@ + DB_FOLDER@,
        },
{
    match endpoint {
        Some(e) => e,
        None => {
            let mut r = String::new();
            push_str(&mut r, "rocksdb://");
            push_str(&mut r, exe_dir);
            push_str(&mut r, "/");
            push_str(&mut r, DB_FOLDER);
            assert(r@ =~= "rocksdb://"@ + exe_dir@ + "/"@ + DB_FOLDER@);
            r
        },
    }
}

/// Errors regarding the database module. Errors that the database reports
/// carry its message.
#[derive(Debug, Clone)]
pub enum DatabaseError {
    ConnectionFailure(String),
    NamespaceChangeFailure { ns: String, db: String, error: String },
    AuthenticationFailure(String),
    NoResponse,
    QueryFailed(String),
    Timeout,
    EmptyResponse,
    DoesNotExist,
}

/// The contact that an insert or update answered with; an empty answer is
/// `EmptyResponse`.
pub fn written_record<T>(response: Option<T>) -> (r: Result<T, DatabaseError>)
    ensures
        match response {
            Some(c) => r == Ok::<T, DatabaseError>(c),
            None => r matches Err(DatabaseError::EmptyResponse),
        },
{
    match response {
        Some(c) => Ok(c),
        None => Err(DatabaseError::EmptyResponse),
    }
}

} // verus!
