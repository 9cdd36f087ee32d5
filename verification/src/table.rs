//! A table kept in memory that answers the store's statements as the storage
//! backend is to answer them: one row at most for each pair of user and
//! event, every statement carried out whole or not at all.

use crate::backend::{
    Command, CommandView, Executed, ExecutedView, Fetched, FetchedView, Query, QueryView,
};
use crate::model::Key;
use vstd::prelude::*;
use vstd::string::*;

verus! {

/// What the table reports when a statement reaches it before it was created.
pub const NO_SUCH_TABLE: &'static str = "no such table: subscriptions";

/// The table as a mathematical value: whether it was created, and the stored
/// preferences of each pair that has a row.
pub struct TableView {
    pub created: bool,
    pub rows: Map<Key, Seq<char>>,
}

/// What a command leaves of the table, and what it answers.
///
/// Before the table was created every command but the one that creates it
/// fails and changes nothing. After that: creating it again changes nothing;
/// an upsert leaves the pair with the new preferences, whether it had a row or
/// not; a delete removes the pair's row; an update replaces the preferences of
/// the pair's row and adds none. Rows of other pairs stay as they are, and the
/// answer counts the rows that were touched.
pub open spec fn run(table: TableView, cmd: CommandView) -> (TableView, ExecutedView) {
    match cmd {
        CommandView::CreateTable => (
            TableView { created: true, rows: table.rows },
            ExecutedView::Done { rows_affected: 0 },
        ),
        CommandView::Upsert { user_id, event, preferences } => if !table.created {
            refused(table)
        } else {
            (
                TableView {
                    created: true,
                    rows: table.rows.insert((user_id, event), preferences),
                },
                ExecutedView::Done { rows_affected: 1 },
            )
        },
        CommandView::Delete { user_id, event } => if !table.created {
            refused(table)
        } else if table.rows.contains_key((user_id, event)) {
            (
                TableView { created: true, rows: table.rows.remove((user_id, event)) },
                ExecutedView::Done { rows_affected: 1 },
            )
        } else {
            (table, ExecutedView::Done { rows_affected: 0 })
        },
        CommandView::Update { user_id, event, preferences } => if !table.created {
            refused(table)
        } else if table.rows.contains_key((user_id, event)) {
            (
                TableView {
                    created: true,
                    rows: table.rows.insert((user_id, event), preferences),
                },
                ExecutedView::Done { rows_affected: 1 },
            )
        } else {
            (table, ExecutedView::Done { rows_affected: 0 })
        },
    }
}

/// The table unchanged, and the answer that it does not exist.
pub open spec fn refused(table: TableView) -> (TableView, ExecutedView) {
    (table, ExecutedView::Failed { message: NO_SUCH_TABLE@ })
}

/// What a query answers: the stored preferences of the pair's row, or that
/// it has none. Before the table was created the query fails.
pub open spec fn fetch(table: TableView, query: QueryView) -> FetchedView {
    if !table.created {
        FetchedView::Failed { message: NO_SUCH_TABLE@ }
    } else if table.rows.contains_key((query.user_id, query.event)) {
        FetchedView::Row { preferences: table.rows[(query.user_id, query.event)] }
    } else {
        FetchedView::NoRow
    }
}

struct Row {
    user_id: String,
    event: String,
    preferences: String,
}

/// The table itself. No two of its rows belong to the same pair.
pub struct Table {
    created: bool,
    rows: Vec<Row>,
}

spec fn row_key(row: Row) -> Key {
    (row.user_id@, row.event@)
}

spec fn distinct_keys(rows: Seq<Row>) -> bool {
    forall|i: int, j: int| 0 <= i < j < rows.len() ==> row_key(rows[i]) != row_key(rows[j])
}

spec fn holds(rows: Seq<Row>, key: Key) -> bool {
    exists|i: int| 0 <= i < rows.len() && row_key(rows[i]) == key
}

spec fn position(rows: Seq<Row>, key: Key) -> int {
    choose|i: int| 0 <= i < rows.len() && row_key(rows[i]) == key
}

spec fn rows_map(rows: Seq<Row>) -> Map<Key, Seq<char>> {
    Map::new(|key: Key| holds(rows, key), |key: Key| rows[position(rows, key)].preferences@)
}

/// Where a pair's row stands, it is the row that the table has for the pair.
proof fn lemma_row_found(rows: Seq<Row>, i: int)
    requires
        distinct_keys(rows),
        0 <= i < rows.len(),
    ensures
        holds(rows, row_key(rows[i])),
        position(rows, row_key(rows[i])) == i,
        rows_map(rows).contains_key(row_key(rows[i])),
        rows_map(rows)[row_key(rows[i])] == rows[i].preferences@,
{
    let key = row_key(rows[i]);
    let j = position(rows, key);
    assert(0 <= j < rows.len() && row_key(rows[j]) == key);
    if i < j {
        assert(row_key(rows[i]) != row_key(rows[j]));
    }
    if j < i {
        assert(row_key(rows[j]) != row_key(rows[i]));
    }
}

/// Replacing a row by one of the same pair replaces that pair's preferences.
proof fn lemma_replace_row(rows: Seq<Row>, i: int, row: Row)
    requires
        distinct_keys(rows),
        0 <= i < rows.len(),
        row_key(row) == row_key(rows[i]),
    ensures
        distinct_keys(rows.update(i, row)),
        rows_map(rows.update(i, row)) == rows_map(rows).insert(row_key(row), row.preferences@),
{
    let after = rows.update(i, row);
    assert forall|a: int, b: int| 0 <= a < b < after.len() implies row_key(after[a]) != row_key(
        after[b],
    ) by {
        assert(row_key(after[a]) == row_key(rows[a]));
        assert(row_key(after[b]) == row_key(rows[b]));
    }
    assert forall|key: Key| holds(after, key) == holds(rows, key) by {
        if holds(rows, key) {
            let j = position(rows, key);
            assert(row_key(after[j]) == key);
        }
        if holds(after, key) {
            let j = position(after, key);
            assert(row_key(rows[j]) == key);
        }
    }
    assert forall|key: Key| holds(after, key) implies #[trigger] rows_map(after)[key] == rows_map(
        rows,
    ).insert(row_key(row), row.preferences@)[key] by {
        let j = position(after, key);
        lemma_row_found(after, j);
        lemma_row_found(rows, j);
    }
    assert(rows_map(after) =~= rows_map(rows).insert(row_key(row), row.preferences@));
}

/// Adding a row for a pair that has none gives that pair its preferences.
proof fn lemma_add_row(rows: Seq<Row>, row: Row)
    requires
        distinct_keys(rows),
        !holds(rows, row_key(row)),
    ensures
        distinct_keys(rows.push(row)),
        rows_map(rows.push(row)) == rows_map(rows).insert(row_key(row), row.preferences@),
{
    let after = rows.push(row);
    assert forall|a: int, b: int| 0 <= a < b < after.len() implies row_key(after[a]) != row_key(
        after[b],
    ) by {
        if b == rows.len() {
            assert(row_key(rows[a]) != row_key(row));
        }
    }
    assert forall|key: Key| holds(after, key) == (holds(rows, key) || key == row_key(row)) by {
        if holds(rows, key) {
            let j = position(rows, key);
            assert(row_key(after[j]) == key);
        }
        if key == row_key(row) {
            assert(row_key(after[rows.len() as int]) == key);
        }
        if holds(after, key) {
            let j = position(after, key);
            if j < rows.len() {
                assert(row_key(rows[j]) == key);
            }
        }
    }
    assert forall|key: Key| holds(after, key) implies #[trigger] rows_map(after)[key] == rows_map(
        rows,
    ).insert(row_key(row), row.preferences@)[key] by {
        let j = position(after, key);
        lemma_row_found(after, j);
        if j < rows.len() {
            lemma_row_found(rows, j);
        }
    }
    assert(rows_map(after) =~= rows_map(rows).insert(row_key(row), row.preferences@));
}

/// Taking a row out leaves its pair without preferences and the others as
/// they were.
proof fn lemma_drop_row(rows: Seq<Row>, i: int)
    requires
        distinct_keys(rows),
        0 <= i < rows.len(),
    ensures
        distinct_keys(rows.remove(i)),
        rows_map(rows.remove(i)) == rows_map(rows).remove(row_key(rows[i])),
{
    let after = rows.remove(i);
    let gone = row_key(rows[i]);
    assert forall|a: int| 0 <= a < after.len() implies #[trigger] after[a] == rows[if a < i {
        a
    } else {
        a + 1
    }] by {}
    assert forall|a: int, b: int| 0 <= a < b < after.len() implies row_key(after[a]) != row_key(
        after[b],
    ) by {
        let a0 = if a < i { a } else { a + 1 };
        let b0 = if b < i { b } else { b + 1 };
        assert(after[a] == rows[a0]);
        assert(after[b] == rows[b0]);
        assert(row_key(rows[a0]) != row_key(rows[b0]));
    }
    assert forall|key: Key| holds(after, key) == (holds(rows, key) && key != gone) by {
        if holds(rows, key) && key != gone {
            let j = position(rows, key);
            let j1 = if j < i { j } else { j - 1 };
            assert(after[j1] == rows[j]);
            assert(row_key(after[j1]) == key);
        }
        if holds(after, key) {
            let j = position(after, key);
            let j0 = if j < i { j } else { j + 1 };
            assert(after[j] == rows[j0]);
            assert(row_key(rows[j0]) == key);
            if j0 < i {
                assert(row_key(rows[j0]) != row_key(rows[i]));
            } else {
                assert(row_key(rows[i]) != row_key(rows[j0]));
            }
        }
    }
    assert forall|key: Key| holds(after, key) implies #[trigger] rows_map(after)[key] == rows_map(
        rows,
    ).remove(gone)[key] by {
        let j = position(after, key);
        let j0 = if j < i { j } else { j + 1 };
        assert(after[j] == rows[j0]);
        lemma_row_found(after, j);
        lemma_row_found(rows, j0);
    }
    assert(rows_map(after) =~= rows_map(rows).remove(gone));
}

/// A table has as many rows as pairs with preferences.
proof fn lemma_row_count(rows: Seq<Row>)
    requires
        distinct_keys(rows),
    ensures
        rows_map(rows).dom().finite(),
        rows_map(rows).dom().len() == rows.len(),
{
    let keys = rows.map_values(|row: Row| row_key(row));
    assert forall|i: int, j: int|
        0 <= i < keys.len() && 0 <= j < keys.len() && i != j implies keys[i] != keys[j] by {
        if i < j {
            assert(row_key(rows[i]) != row_key(rows[j]));
        } else {
            assert(row_key(rows[j]) != row_key(rows[i]));
        }
    }
    assert forall|key: Key| keys.to_set().contains(key) == rows_map(rows).dom().contains(
        key,
    ) by {
        if keys.contains(key) {
            let i = choose|i: int| 0 <= i < keys.len() && keys[i] == key;
            assert(row_key(rows[i]) == key);
        }
        if holds(rows, key) {
            let i = position(rows, key);
            assert(keys[i] == key);
        }
    }
    assert(keys.to_set() =~= rows_map(rows).dom());
    keys.unique_seq_to_set();
    vstd::seq_lib::seq_to_set_is_finite(keys);
}

impl View for Table {
    type V = TableView;

    closed spec fn view(&self) -> TableView {
        TableView { created: self.created, rows: rows_map(self.rows@) }
    }
}

impl Table {
    #[verifier::type_invariant]
    spec fn well_formed(self) -> bool {
        distinct_keys(self.rows@)
    }

    /// A table that was not created yet and holds nothing.
    pub fn new() -> (table: Table)
        ensures
            table@ == (TableView { created: false, rows: Map::empty() }),
    {
        let table = Table { created: false, rows: Vec::new() };
        assert(table@.rows =~= Map::empty());
        table
    }

    /// The number of rows, which is the number of pairs that have one.
    pub fn len(&self) -> (n: usize)
        ensures
            self@.rows.dom().finite(),
            n == self@.rows.len(),
    {
        proof {
            use_type_invariant(self);
            lemma_row_count(self.rows@);
        }
        self.rows.len()
    }

    /// Whether the table was created.
    pub fn is_created(&self) -> (b: bool)
        ensures
            b == self@.created,
    {
        self.created
    }

    /// The place of the pair's row, if it has one.
    fn find(&self, user_id: &String, event: &String) -> (found: Option<usize>)
        ensures
            found matches Some(i) ==> i < self.rows.len() && row_key(self.rows[i as int]) == (
                user_id@,
                event@,
            ),
            found is None ==> !holds(self.rows@, (user_id@, event@)),
    {
        let mut i: usize = 0;
        while i < self.rows.len()
            invariant
                i <= self.rows.len(),
                forall|j: int| 0 <= j < i ==> row_key(self.rows[j]) != (user_id@, event@),
            decreases self.rows.len() - i,
        {
            if self.rows[i].user_id == *user_id && self.rows[i].event == *event {
                return Some(i);
            }
            i += 1;
        }
        None
    }

    /// Hands the rows out and leaves the table empty, so that the table is
    /// whole while they change.
    fn take_rows(&mut self) -> (rows: Vec<Row>)
        ensures
            rows@ == old(self).rows@,
            final(self).rows@.len() == 0,
            final(self).created == old(self).created,
    {
        let mut rows: Vec<Row> = Vec::new();
        core::mem::swap(&mut self.rows, &mut rows);
        rows
    }

    /// Carries out a command and answers it.
    pub fn execute(&mut self, cmd: &Command) -> (done: Executed)
        ensures
            final(self)@ == run(old(self)@, cmd@).0,
            done@ == run(old(self)@, cmd@).1,
    {
        proof {
            use_type_invariant(&*self);
        }
        match cmd {
            Command::CreateTable => {
                self.created = true;
                Executed::Done { rows_affected: 0 }
            },
            Command::Upsert { user_id, event, preferences } => {
                if !self.created {
                    return Executed::Failed { message: String::from_str(NO_SUCH_TABLE) };
                }
                let row = Row {
                    user_id: user_id.clone(),
                    event: event.clone(),
                    preferences: preferences.clone(),
                };
                match self.find(user_id, event) {
                    Some(i) => {
                        proof {
                            lemma_replace_row(self.rows@, i as int, row);
                        }
                        let mut rows = self.take_rows();
                        rows[i] = row;
                        self.rows = rows;
                    },
                    None => {
                        proof {
                            lemma_add_row(self.rows@, row);
                        }
                        let mut rows = self.take_rows();
                        rows.push(row);
                        self.rows = rows;
                    },
                }
                Executed::Done { rows_affected: 1 }
            },
            Command::Delete { user_id, event } => {
                if !self.created {
                    return Executed::Failed { message: String::from_str(NO_SUCH_TABLE) };
                }
                match self.find(user_id, event) {
                    Some(i) => {
                        proof {
                            lemma_row_found(self.rows@, i as int);
                            lemma_drop_row(self.rows@, i as int);
                        }
                        let mut rows = self.take_rows();
                        rows.remove(i);
                        self.rows = rows;
                        Executed::Done { rows_affected: 1 }
                    },
                    None => Executed::Done { rows_affected: 0 },
                }
            },
            Command::Update { user_id, event, preferences } => {
                if !self.created {
                    return Executed::Failed { message: String::from_str(NO_SUCH_TABLE) };
                }
                match self.find(user_id, event) {
                    Some(i) => {
                        let row = Row {
                            user_id: user_id.clone(),
                            event: event.clone(),
                            preferences: preferences.clone(),
                        };
                        proof {
                            lemma_row_found(self.rows@, i as int);
                            lemma_replace_row(self.rows@, i as int, row);
                        }
                        let mut rows = self.take_rows();
                        rows[i] = row;
                        self.rows = rows;
                        Executed::Done { rows_affected: 1 }
                    },
                    None => Executed::Done { rows_affected: 0 },
                }
            },
        }
    }

    /// Answers a query. The table stays as it is.
    pub fn fetch_one(&self, query: &Query) -> (fetched: Fetched)
        ensures
            fetched@ == fetch(self@, query@),
    {
        proof {
            use_type_invariant(self);
        }
        if !self.created {
            return Fetched::Failed { message: String::from_str(NO_SUCH_TABLE) };
        }
        match self.find(&query.user_id, &query.event) {
            Some(i) => {
                proof {
                    lemma_row_found(self.rows@, i as int);
                }
                Fetched::Row { preferences: self.rows[i].preferences.clone() }
            },
            None => Fetched::NoRow,
        }
    }
}

} // verus!
