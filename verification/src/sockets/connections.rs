//! The connection registry: which rows of the store stand for the live
//! connections, the writes that register and deregister one, and how a scan
//! of the store is read back.
//!
//! The store itself is elsewhere. This module says what is written to it and
//! states, over a model of a keyed table, what those writes amount to.

use crate::text::same_text;
use vstd::prelude::*;
use vstd::string::StringExecFns;

verus! {

/// A row of the store as contracts see it: attribute names with their
/// string values, in order.
pub type RowView = Seq<(Seq<char>, Seq<char>)>;

/// A live connection: who is on it and since when.
#[derive(Debug, Clone, PartialEq, Eq)]
pub struct Connection {
    /// The transport's identifier of the connection.
    pub connection_id: String,
    /// The subscriber on the connection.
    pub user_id: String,
    /// When the connection was made, as the registrant wrote it.
    pub connected_at: String,
}

/// A connection as contracts see it.
pub struct ConnectionView {
    pub connection_id: Seq<char>,
    pub user_id: Seq<char>,
    pub connected_at: Seq<char>,
}

impl View for Connection {
    type V = ConnectionView;

    open spec fn view(&self) -> ConnectionView {
        ConnectionView {
            connection_id: self.connection_id@,
            user_id: self.user_id@,
            connected_at: self.connected_at@,
        }
    }
}

/// The store could not be read or written.
#[derive(Debug, Clone, Copy, PartialEq, Eq, Structural)]
pub struct StoreUnavailable;

/// A write to the store.
#[derive(Debug, Clone, PartialEq, Eq)]
pub enum StoreWrite {
    /// Put the row, replacing the one under the same key.
    Put { item: Vec<(String, String)> },
    /// Delete the row under the key, if there is one.
    Delete { partition_key: String, sort_key: String },
}

/// A write to the store as contracts see it.
pub enum WriteView {
    Put { item: RowView },
    Delete { partition_key: Seq<char>, sort_key: Seq<char> },
}

impl View for StoreWrite {
    type V = WriteView;

    open spec fn view(&self) -> WriteView {
        match self {
            StoreWrite::Put { item } => WriteView::Put { item: item.deep_view() },
            StoreWrite::Delete { partition_key, sort_key } => WriteView::Delete {
                partition_key: partition_key@,
                sort_key: sort_key@,
            },
        }
    }
}

/// The value of the first attribute of `row` named `name`, looking from
/// position `from` on.
pub open spec fn attribute_from(row: RowView, name: Seq<char>, from: int) -> Option<Seq<char>>
    decreases row.len() - from,
{
    if from < 0 || from >= row.len() {
        None
    } else if row[from].0 == name {
        Some(row[from].1)
    } else {
        attribute_from(row, name, from + 1)
    }
}

/// The value of attribute `name` in `row`, where the row has it.
pub open spec fn attribute(row: RowView, name: Seq<char>) -> Option<Seq<char>> {
    attribute_from(row, name, 0)
}

/// The key under which the registry keeps a connection.
pub open spec fn connection_key_text(connection_id: Seq<char>) -> Seq<char> {
    "CONNECTION#"@ + connection_id
}

/// The row that stands for a connection.
pub open spec fn connection_row(c: ConnectionView) -> RowView {
    seq![
        ("PK"@, connection_key_text(c.connection_id)),
        ("SK"@, connection_key_text(c.connection_id)),
        ("connection_id"@, c.connection_id),
        ("user_id"@, c.user_id),
        ("connected_at"@, c.connected_at),
        ("entity_type"@, "connection"@),
    ]
}

/// The write that registers a connection.
pub open spec fn registration(c: ConnectionView) -> WriteView {
    WriteView::Put { item: connection_row(c) }
}

/// The write that deregisters a connection.
pub open spec fn removal(connection_id: Seq<char>) -> WriteView {
    WriteView::Delete {
        partition_key: connection_key_text(connection_id),
        sort_key: connection_key_text(connection_id),
    }
}

/// The connection that a row stands for: it needs the identifier, the
/// subscriber and the time; a row without one of them stands for none.
pub open spec fn connection_in(row: RowView) -> Option<ConnectionView> {
    match (
        attribute(row, "connection_id"@),
        attribute(row, "user_id"@),
        attribute(row, "connected_at"@),
    ) {
        (Some(connection_id), Some(user_id), Some(connected_at)) => Some(
            ConnectionView { connection_id, user_id, connected_at },
        ),
        _ => None,
    }
}

/// The connections that the first `upto` rows stand for, in the order of the
/// rows; rows that stand for none are passed over.
pub open spec fn connections_upto(rows: Seq<RowView>, upto: int) -> Seq<ConnectionView>
    decreases upto,
{
    if upto <= 0 {
        Seq::empty()
    } else {
        match connection_in(rows[upto - 1]) {
            Some(c) => connections_upto(rows, upto - 1).push(c),
            None => connections_upto(rows, upto - 1),
        }
    }
}

/// The connections that the rows of a scan stand for.
pub open spec fn connections_in(rows: Seq<RowView>) -> Seq<ConnectionView> {
    connections_upto(rows, rows.len() as int)
}

/// The connections of a list as contracts see them.
pub open spec fn connection_views(list: Seq<Connection>) -> Seq<ConnectionView> {
    Seq::new(list.len(), |i: int| list[i]@)
}

/// Builds the key under which the registry keeps a connection.
pub fn connection_key(connection_id: &str) -> (key: String)
    ensures
        key@ == connection_key_text(connection_id@),
{
    let mut key = String::from_str("CONNECTION#");
    key.append(connection_id);
    key
}

/// Registers a connection: the write that puts its row. Registering the
/// same connection again puts a row under the same key.
pub fn save_connection(connection_id: &str, user_id: &str, connected_at: &str) -> (write:
    StoreWrite)
    ensures
        write@ == registration(
            ConnectionView {
                connection_id: connection_id@,
                user_id: user_id@,
                connected_at: connected_at@,
            },
        ),
{
    let mut item: Vec<(String, String)> = Vec::new();
    item.push((String::from_str("PK"), connection_key(connection_id)));
    item.push((String::from_str("SK"), connection_key(connection_id)));
    item.push((String::from_str("connection_id"), String::from_str(connection_id)));
    item.push((String::from_str("user_id"), String::from_str(user_id)));
    item.push((String::from_str("connected_at"), String::from_str(connected_at)));
    item.push((String::from_str("entity_type"), String::from_str("connection")));
    let write = StoreWrite::Put { item };
    proof {
        let c = ConnectionView {
            connection_id: connection_id@,
            user_id: user_id@,
            connected_at: connected_at@,
        };
        assert(item.deep_view() =~= connection_row(c));
    }
    write
}

/// Deregisters a connection: the write that deletes its row, whether or not
/// there is one.
pub fn remove_connection(connection_id: &str) -> (write: StoreWrite)
    ensures
        write@ == removal(connection_id@),
{
    StoreWrite::Delete {
        partition_key: connection_key(connection_id),
        sort_key: connection_key(connection_id),
    }
}

/// Looks an attribute up in a row.
pub fn find_attribute(row: &Vec<(String, String)>, name: &str) -> (value: Option<String>)
    ensures
        match value {
            Some(v) => attribute(row.deep_view(), name@) == Some(v@),
            None => attribute(row.deep_view(), name@).is_none(),
        },
{
    let mut i: usize = 0;
    while i < row.len()
        invariant
            i <= row.len(),
            attribute(row.deep_view(), name@) == attribute_from(row.deep_view(), name@, i as int),
        decreases row.len() - i,
    {
        assert(row.deep_view()[i as int] == (row@[i as int].0@, row@[i as int].1@));
        if same_text(row[i].0.as_str(), name) {
            return Some(row[i].1.clone());
        }
        i = i + 1;
    }
    None
}

/// Reads a connection out of a row, where the row stands for one.
pub fn connection_from_item(row: &Vec<(String, String)>) -> (connection: Option<Connection>)
    ensures
        match connection {
            Some(c) => connection_in(row.deep_view()) == Some(c@),
            None => connection_in(row.deep_view()).is_none(),
        },
{
    let connection_id = find_attribute(row, "connection_id");
    let user_id = find_attribute(row, "user_id");
    let connected_at = find_attribute(row, "connected_at");
    match (connection_id, user_id, connected_at) {
        (Some(connection_id), Some(user_id), Some(connected_at)) => Some(
            Connection { connection_id, user_id, connected_at },
        ),
        _ => None,
    }
}

/// Reads the connections out of the rows of a scan, in the order of the
/// rows. A row that lacks an attribute of a connection is passed over.
pub fn _get_all_connections(rows: &Vec<Vec<(String, String)>>) -> (connections: Vec<Connection>)
    ensures
        connection_views(connections@) == connections_in(rows.deep_view()),
{
    let mut connections: Vec<Connection> = Vec::new();
    let mut i: usize = 0;
    while i < rows.len()
        invariant
            i <= rows.len(),
            connection_views(connections@) == connections_upto(rows.deep_view(), i as int),
        decreases rows.len() - i,
    {
        let ghost before = connection_views(connections@);
        assert(rows.deep_view()[i as int] == rows@[i as int].deep_view());
        match connection_from_item(&rows[i]) {
            Some(c) => {
                connections.push(c);
                assert(connection_views(connections@) =~= before.push(c@));
            },
            None => {},
        }
        i = i + 1;
    }
    connections
}

/// A keyed table of the store as contracts see it: rows under their two-part
/// keys.
pub type TableView = Map<(Seq<char>, Seq<char>), RowView>;

/// The key that a row is put under: its `PK` and `SK` attributes.
pub open spec fn row_key(row: RowView) -> Option<(Seq<char>, Seq<char>)> {
    match (attribute(row, "PK"@), attribute(row, "SK"@)) {
        (Some(partition_key), Some(sort_key)) => Some((partition_key, sort_key)),
        _ => None,
    }
}

/// The table after a write: a put replaces the row under the row's key (a
/// row without a key is not stored), a delete takes the row under the key
/// away.
pub open spec fn applied(table: TableView, write: WriteView) -> TableView {
    match write {
        WriteView::Put { item } => match row_key(item) {
            Some(key) => table.insert(key, item),
            None => table,
        },
        WriteView::Delete { partition_key, sort_key } => table.remove((partition_key, sort_key)),
    }
}

/// The two-part key of a connection's row.
pub open spec fn registry_key(connection_id: Seq<char>) -> (Seq<char>, Seq<char>) {
    (connection_key_text(connection_id), connection_key_text(connection_id))
}

/// Whether every row of the table that stands for a connection sits under
/// that connection's key, as rows written by `save_connection` do.
pub open spec fn is_registry(table: TableView) -> bool {
    forall|key: (Seq<char>, Seq<char>)| #[trigger]
        table.contains_key(key) ==> match connection_in(table[key]) {
            Some(c) => key == registry_key(c.connection_id),
            None => true,
        }
}

/// The keys of the rows that stand for the connection `connection_id`.
pub open spec fn entries_of(table: TableView, connection_id: Seq<char>) -> Set<
    (Seq<char>, Seq<char>),
> {
    Set::new(
        |key: (Seq<char>, Seq<char>)|
            table.contains_key(key) && match connection_in(table[key]) {
                Some(c) => c.connection_id == connection_id,
                None => false,
            },
    )
}

/// Two connections with different identifiers have different keys.
pub proof fn lemma_connection_key_injective(a: Seq<char>, b: Seq<char>)
    requires
        connection_key_text(a) == connection_key_text(b),
    ensures
        a == b,
{
    let prefix = "CONNECTION#"@;
    let n = prefix.len() as int;
    assert(a =~= connection_key_text(a).subrange(n, n + a.len()));
    assert(b =~= connection_key_text(b).subrange(n, n + b.len()));
    assert(connection_key_text(a).len() == n + a.len());
    assert(connection_key_text(b).len() == n + b.len());
}

/// The row written for a connection is read back as that connection, and
/// its key is the connection's key.
pub proof fn lemma_row_round_trip(c: ConnectionView)
    ensures
        connection_in(connection_row(c)) == Some(c),
        row_key(connection_row(c)) == Some(registry_key(c.connection_id)),
{
    reveal_strlit("PK");
    reveal_strlit("SK");
    reveal_strlit("connection_id");
    reveal_strlit("user_id");
    reveal_strlit("connected_at");
    reveal_strlit("entity_type");
    let row = connection_row(c);
    reveal_with_fuel(attribute_from, 7);
    assert(attribute(row, "PK"@) == Some(connection_key_text(c.connection_id)));
    assert("SK"@[0] != "PK"@[0]);
    assert(attribute(row, "SK"@) == Some(connection_key_text(c.connection_id)));
    assert("connection_id"@.len() != "PK"@.len());
    assert("connection_id"@.len() != "SK"@.len());
    assert(attribute(row, "connection_id"@) == Some(c.connection_id));
    assert("user_id"@.len() != "PK"@.len());
    assert("user_id"@.len() != "connection_id"@.len());
    assert(attribute(row, "user_id"@) == Some(c.user_id));
    assert("connected_at"@.len() != "PK"@.len());
    assert("connected_at"@.len() != "connection_id"@.len());
    assert("connected_at"@.len() != "user_id"@.len());
    assert(attribute(row, "connected_at"@) == Some(c.connected_at));
}

/// Registering keeps a registry a registry.
pub proof fn lemma_register_keeps_registry(table: TableView, c: ConnectionView)
    requires
        is_registry(table),
    ensures
        is_registry(applied(table, registration(c))),
        applied(table, registration(c)) == table.insert(
            registry_key(c.connection_id),
            connection_row(c),
        ),
{
    lemma_row_round_trip(c);
}

/// Registering a connection twice leaves what registering it once leaves:
/// one row for the connection, under its key, holding what was written last.
pub proof fn lemma_register_is_idempotent(
    table: TableView,
    first: ConnectionView,
    second: ConnectionView,
)
    requires
        is_registry(table),
        first.connection_id == second.connection_id,
    ensures
        applied(applied(table, registration(first)), registration(second)) == applied(
            table,
            registration(second),
        ),
        entries_of(
            applied(applied(table, registration(first)), registration(second)),
            second.connection_id,
        ) == set![registry_key(second.connection_id)],
        applied(applied(table, registration(first)), registration(second))[registry_key(
            second.connection_id,
        )] == connection_row(second),
{
    lemma_row_round_trip(first);
    lemma_row_round_trip(second);
    let key = registry_key(second.connection_id);
    let once = applied(table, registration(second));
    let twice = applied(applied(table, registration(first)), registration(second));
    assert(twice =~= once);
    lemma_register_keeps_registry(table, second);
    assert forall|k: (Seq<char>, Seq<char>)|
        entries_of(once, second.connection_id).contains(k) <==> k == key by {
        if once.contains_key(k) && k != key {
            assert(table.contains_key(k));
            if let Some(c) = connection_in(once[k]) {
                assert(k == registry_key(c.connection_id));
            }
        }
    }
    assert(entries_of(once, second.connection_id) =~= set![key]);
}

/// Deregistering a connection that is not registered changes nothing.
pub proof fn lemma_deregister_unknown(table: TableView, connection_id: Seq<char>)
    requires
        !table.contains_key(registry_key(connection_id)),
    ensures
        applied(table, removal(connection_id)) == table,
{
    assert(applied(table, removal(connection_id)) =~= table);
}

/// After deregistering, no row stands for the connection, and deregistering
/// again changes nothing.
pub proof fn lemma_deregister_removes(table: TableView, connection_id: Seq<char>)
    requires
        is_registry(table),
    ensures
        is_registry(applied(table, removal(connection_id))),
        entries_of(applied(table, removal(connection_id)), connection_id) == Set::<
            (Seq<char>, Seq<char>),
        >::empty(),
        applied(applied(table, removal(connection_id)), removal(connection_id)) == applied(
            table,
            removal(connection_id),
        ),
{
    let after = applied(table, removal(connection_id));
    assert forall|k: (Seq<char>, Seq<char>)| !entries_of(after, connection_id).contains(k) by {
        if after.contains_key(k) {
            assert(table.contains_key(k));
        }
    }
    assert(entries_of(after, connection_id) =~= Set::<(Seq<char>, Seq<char>)>::empty());
    assert(applied(after, removal(connection_id)) =~= after);
}

/// How often the connection `connection_id` occurs in a listing.
pub open spec fn occurrences(list: Seq<ConnectionView>, connection_id: Seq<char>) -> nat
    decreases list.len(),
{
    if list.len() == 0 {
        0
    } else if list.last().connection_id == connection_id {
        occurrences(list.drop_last(), connection_id) + 1
    } else {
        occurrences(list.drop_last(), connection_id)
    }
}

/// Whether `rows` is a scan of the table: the row under each key, once, in
/// the order `keys`.
pub open spec fn is_scan_of(
    rows: Seq<RowView>,
    keys: Seq<(Seq<char>, Seq<char>)>,
    table: TableView,
) -> bool {
    &&& keys.no_duplicates()
    &&& rows.len() == keys.len()
    &&& forall|i: int| 0 <= i < keys.len() ==> table.contains_key(#[trigger] keys[i])
    &&& forall|key: (Seq<char>, Seq<char>)| #[trigger]
        table.contains_key(key) ==> keys.contains(key)
    &&& forall|i: int| 0 <= i < keys.len() ==> #[trigger] rows[i] == table[keys[i]]
}

/// In the listing of the first `upto` rows of a scan of a registry, a
/// connection occurs once if its row is among them and not at all if not.
proof fn lemma_occurrences_upto(
    rows: Seq<RowView>,
    keys: Seq<(Seq<char>, Seq<char>)>,
    table: TableView,
    connection_id: Seq<char>,
    upto: int,
)
    requires
        is_registry(table),
        is_scan_of(rows, keys, table),
        0 <= upto <= rows.len(),
    ensures
        occurrences(connections_upto(rows, upto), connection_id) == if exists|i: int|
            0 <= i < upto && keys[i] == registry_key(connection_id) && connection_in(rows[i])
                is Some {
            1nat
        } else {
            0nat
        },
    decreases upto,
{
    if upto > 0 {
        lemma_occurrences_upto(rows, keys, table, connection_id, upto - 1);
        let key = registry_key(connection_id);
        let earlier = connections_upto(rows, upto - 1);
        let last = upto - 1;
        assert(table.contains_key(keys[last]));
        match connection_in(rows[last]) {
            Some(c) => {
                let list = connections_upto(rows, upto);
                assert(list == earlier.push(c));
                assert(list.drop_last() =~= earlier);
                assert(list.last() == c);
                assert(keys[last] == registry_key(c.connection_id));
                if c.connection_id == connection_id {
                    assert(keys[last] == key);
                    assert forall|i: int| 0 <= i < last implies !(keys[i] == key) by {
                        assert(keys[i] != keys[last]);
                    }
                } else {
                    if keys[last] == key {
                        lemma_connection_key_injective(c.connection_id, connection_id);
                    }
                }
            },
            None => {},
        }
    }
}

/// No duplicate in a listing: in a scan of a registry a registered
/// connection is listed exactly once, and one that is not registered is
/// not listed.
pub proof fn lemma_listed_once(
    rows: Seq<RowView>,
    keys: Seq<(Seq<char>, Seq<char>)>,
    table: TableView,
    connection_id: Seq<char>,
)
    requires
        is_registry(table),
        is_scan_of(rows, keys, table),
    ensures
        occurrences(connections_in(rows), connection_id) == if table.contains_key(
            registry_key(connection_id),
        ) && connection_in(table[registry_key(connection_id)]) is Some {
            1nat
        } else {
            0nat
        },
{
    lemma_occurrences_upto(rows, keys, table, connection_id, rows.len() as int);
    let key = registry_key(connection_id);
    if table.contains_key(key) && connection_in(table[key]) is Some {
        assert(keys.contains(key));
        let at = choose|i: int| 0 <= i < keys.len() && keys[i] == key;
        assert(rows[at] == table[keys[at]]);
    } else {
        assert forall|i: int|
            0 <= i < rows.len() && keys[i] == key implies !(connection_in(rows[i]) is Some) by {
            assert(table.contains_key(keys[i]));
            assert(rows[i] == table[keys[i]]);
        }
    }
}

/// However often a connection was registered, a scan of the registry lists
/// it exactly once; after it is deregistered, a scan does not list it.
pub proof fn lemma_registered_twice_listed_once(
    table: TableView,
    first: ConnectionView,
    second: ConnectionView,
    rows: Seq<RowView>,
    keys: Seq<(Seq<char>, Seq<char>)>,
)
    requires
        is_registry(table),
        first.connection_id == second.connection_id,
        is_scan_of(
            rows,
            keys,
            applied(applied(table, registration(first)), registration(second)),
        ),
    ensures
        occurrences(connections_in(rows), second.connection_id) == 1,
{
    lemma_register_keeps_registry(table, first);
    lemma_register_keeps_registry(applied(table, registration(first)), second);
    lemma_row_round_trip(second);
    let after = applied(applied(table, registration(first)), registration(second));
    lemma_listed_once(rows, keys, after, second.connection_id);
}

} // verus!
