//! What the store asks of its storage backend, and what the backend answers.
//!
//! The backend keeps one table, `subscriptions`, with the text columns
//! `user_id`, `event` and `preferences`, and at most one row for each pair of
//! `user_id` and `event`. The store sends it one statement for each operation
//! and decides on the answer alone.

use vstd::prelude::*;
use vstd::string::*;

verus! {

/// The statement that creates the table where it is missing.
pub const CREATE_TABLE_SQL: &'static str =
    "CREATE TABLE IF NOT EXISTS subscriptions (user_id TEXT NOT NULL, event TEXT NOT NULL, preferences TEXT NOT NULL, PRIMARY KEY (user_id, event))";

/// The statement that inserts a row or, where the pair has one, replaces its
/// preferences.
pub const UPSERT_SQL: &'static str =
    "INSERT INTO subscriptions (user_id, event, preferences) VALUES (?, ?, ?) ON CONFLICT(user_id, event) DO UPDATE SET preferences=excluded.preferences";

/// The statement that deletes the row of a pair.
pub const DELETE_SQL: &'static str = "DELETE FROM subscriptions WHERE user_id = ? AND event = ?";

/// The statement that replaces the preferences of the row of a pair.
pub const UPDATE_SQL: &'static str =
    "UPDATE subscriptions SET preferences = ? WHERE user_id = ? AND event = ?";

/// The statement that reads the preferences of the row of a pair.
pub const SELECT_SQL: &'static str =
    "SELECT preferences FROM subscriptions WHERE user_id = ? AND event = ?";

/// A statement that changes the table and answers with a count of rows.
#[derive(Debug, Clone, PartialEq, Eq)]
pub enum Command {
    CreateTable,
    Upsert { user_id: String, event: String, preferences: String },
    Delete { user_id: String, event: String },
    Update { user_id: String, event: String, preferences: String },
}

/// The statement that reads the row of one pair.
#[derive(Debug, Clone, PartialEq, Eq)]
pub struct Query {
    pub user_id: String,
    pub event: String,
}

/// The backend's answer to a [`Command`].
#[derive(Debug, Clone, PartialEq, Eq)]
pub enum Executed {
    /// The statement ran and touched this many rows.
    Done { rows_affected: u64 },
    /// The backend failed; the text is its own report.
    Failed { message: String },
}

/// The backend's answer to a [`Query`].
#[derive(Debug, Clone, PartialEq, Eq)]
pub enum Fetched {
    /// The pair has a row, with these stored preferences.
    Row { preferences: String },
    /// The pair has no row.
    NoRow,
    /// The backend failed; the text is its own report.
    Failed { message: String },
}

/// A [`Command`] as mathematical values.
pub enum CommandView {
    CreateTable,
    Upsert { user_id: Seq<char>, event: Seq<char>, preferences: Seq<char> },
    Delete { user_id: Seq<char>, event: Seq<char> },
    Update { user_id: Seq<char>, event: Seq<char>, preferences: Seq<char> },
}

/// A [`Query`] as mathematical values.
pub struct QueryView {
    pub user_id: Seq<char>,
    pub event: Seq<char>,
}

/// An [`Executed`] as mathematical values.
pub enum ExecutedView {
    Done { rows_affected: u64 },
    Failed { message: Seq<char> },
}

/// A [`Fetched`] as mathematical values.
pub enum FetchedView {
    Row { preferences: Seq<char> },
    NoRow,
    Failed { message: Seq<char> },
}

impl View for Command {
    type V = CommandView;

    open spec fn view(&self) -> CommandView {
        match self {
            Command::CreateTable => CommandView::CreateTable,
            Command::Upsert { user_id, event, preferences } => CommandView::Upsert {
                user_id: user_id@,
                event: event@,
                preferences: preferences@,
            },
            Command::Delete { user_id, event } => CommandView::Delete {
                user_id: user_id@,
                event: event@,
            },
            Command::Update { user_id, event, preferences } => CommandView::Update {
                user_id: user_id@,
                event: event@,
                preferences: preferences@,
            },
        }
    }
}

impl View for Query {
    type V = QueryView;

    open spec fn view(&self) -> QueryView {
        QueryView { user_id: self.user_id@, event: self.event@ }
    }
}

impl View for Executed {
    type V = ExecutedView;

    open spec fn view(&self) -> ExecutedView {
        match self {
            Executed::Done { rows_affected } => ExecutedView::Done {
                rows_affected: *rows_affected,
            },
            Executed::Failed { message } => ExecutedView::Failed { message: message@ },
        }
    }
}

impl View for Fetched {
    type V = FetchedView;

    open spec fn view(&self) -> FetchedView {
        match self {
            Fetched::Row { preferences } => FetchedView::Row { preferences: preferences@ },
            Fetched::NoRow => FetchedView::NoRow,
            Fetched::Failed { message } => FetchedView::Failed { message: message@ },
        }
    }
}

impl CommandView {
    /// The text of the statement, with `?` where a value is bound.
    pub open spec fn sql(self) -> Seq<char> {
        match self {
            CommandView::CreateTable => CREATE_TABLE_SQL@,
            CommandView::Upsert { .. } => UPSERT_SQL@,
            CommandView::Delete { .. } => DELETE_SQL@,
            CommandView::Update { .. } => UPDATE_SQL@,
        }
    }

    /// The values bound to the statement, in the order of its `?`.
    pub open spec fn binds(self) -> Seq<Seq<char>> {
        match self {
            CommandView::CreateTable => seq![],
            CommandView::Upsert { user_id, event, preferences } => seq![
                user_id,
                event,
                preferences,
            ],
            CommandView::Delete { user_id, event } => seq![user_id, event],
            CommandView::Update { user_id, event, preferences } => seq![
                preferences,
                user_id,
                event,
            ],
        }
    }
}

impl QueryView {
    /// The values bound to the statement, in the order of its `?`.
    pub open spec fn binds(self) -> Seq<Seq<char>> {
        seq![self.user_id, self.event]
    }
}

/// The texts that a list of strings holds.
pub open spec fn texts(values: Seq<String>) -> Seq<Seq<char>> {
    values.map_values(|s: String| s@)
}

impl Command {
    /// The text of the statement, with `?` where a value is bound.
    pub fn sql(&self) -> (text: &'static str)
        ensures
            text@ == self@.sql(),
    {
        match self {
            Command::CreateTable => CREATE_TABLE_SQL,
            Command::Upsert { .. } => UPSERT_SQL,
            Command::Delete { .. } => DELETE_SQL,
            Command::Update { .. } => UPDATE_SQL,
        }
    }

    /// The values bound to the statement, in the order of its `?`.
    pub fn binds(&self) -> (values: Vec<String>)
        ensures
            texts(values@) == self@.binds(),
    {
        let mut values: Vec<String> = Vec::new();
        match self {
            Command::CreateTable => {},
            Command::Upsert { user_id, event, preferences } => {
                values.push(user_id.clone());
                values.push(event.clone());
                values.push(preferences.clone());
            },
            Command::Delete { user_id, event } => {
                values.push(user_id.clone());
                values.push(event.clone());
            },
            Command::Update { user_id, event, preferences } => {
                values.push(preferences.clone());
                values.push(user_id.clone());
                values.push(event.clone());
            },
        }
        assert(texts(values@) =~= self@.binds());
        values
    }
}

impl Query {
    /// The text of the statement, with `?` where a value is bound.
    pub fn sql(&self) -> (text: &'static str)
        ensures
            text@ == SELECT_SQL@,
    {
        SELECT_SQL
    }

    /// The values bound to the statement, in the order of its `?`.
    pub fn binds(&self) -> (values: Vec<String>)
        ensures
            texts(values@) == self@.binds(),
    {
        let mut values: Vec<String> = Vec::new();
        values.push(self.user_id.clone());
        values.push(self.event.clone());
        assert(texts(values@) =~= self@.binds());
        values
    }
}

} // verus!
