//! The operations of the preference store.
//!
//! Each operation is one statement sent to the storage backend and one
//! decision on its answer. `plan_*` gives the statement; `finish_*` takes the
//! answer and gives the operation's result. Neither touches the backend, so a
//! caller may run the statement wherever the table lives. The operations
//! themselves (`subscribe`, `unsubscribe`, `get_preferences`,
//! `update_preferences`, `init_db`) do both on a [`Table`] in memory.

use crate::backend::{
    Command, CommandView, Executed, ExecutedView, Fetched, FetchedView, Query, QueryView,
};
use crate::codec::{decode_preferences, decoded, encode_preferences, encoded};
use crate::error::{
    ApiError, ApiErrorView, INVALID_PREFERENCES_FORMAT, NO_SUBSCRIPTION_FOUND,
    SUBSCRIPTION_NOT_FOUND,
};
use crate::model::{
    NotificationPreference, PreferenceUpdateRequest, Subscription, SubscriptionRequest,
    SubscriptionRequestView, SubscriptionView,
};
use crate::table::{Table, TableView, NO_SUCH_TABLE};
use vstd::prelude::*;
use vstd::string::*;

verus! {

/// The result of an operation that answers with a subscription, as
/// mathematical values.
pub open spec fn subscription_result(res: Result<Subscription, ApiError>) -> Result<
    SubscriptionView,
    ApiErrorView,
> {
    match res {
        Ok(subscription) => Ok(subscription@),
        Err(e) => Err(e@),
    }
}

/// The result of an operation that answers with nothing, as mathematical
/// values.
pub open spec fn empty_result(res: Result<(), ApiError>) -> Result<(), ApiErrorView> {
    match res {
        Ok(_) => Ok(()),
        Err(e) => Err(e@),
    }
}

/// The statement of a subscribe: insert the pair's row or replace its
/// preferences, in one step.
pub open spec fn spec_plan_subscribe(
    user_id: Seq<char>,
    req: SubscriptionRequestView,
) -> CommandView {
    CommandView::Upsert { user_id, event: req.event, preferences: encoded(req.preferences) }
}

/// The result of a subscribe: the subscription as requested, whatever was
/// there before, unless the backend failed.
pub open spec fn spec_finish_subscribe(
    user_id: Seq<char>,
    req: SubscriptionRequestView,
    done: ExecutedView,
) -> Result<SubscriptionView, ApiErrorView> {
    match done {
        ExecutedView::Done { .. } => Ok(
            SubscriptionView { user_id, event: req.event, preferences: req.preferences },
        ),
        ExecutedView::Failed { message } => Err(ApiErrorView::Database(message)),
    }
}

/// The statement of an unsubscribe: delete the pair's row.
pub open spec fn spec_plan_unsubscribe(user_id: Seq<char>, event: Seq<char>) -> CommandView {
    CommandView::Delete { user_id, event }
}

/// The result of an unsubscribe: success where a row was deleted, not found
/// where none was.
pub open spec fn spec_finish_unsubscribe(done: ExecutedView) -> Result<(), ApiErrorView> {
    match done {
        ExecutedView::Done { rows_affected } => if rows_affected == 0 {
            Err(ApiErrorView::InvalidRequest(NO_SUBSCRIPTION_FOUND@))
        } else {
            Ok(())
        },
        ExecutedView::Failed { message } => Err(ApiErrorView::Database(message)),
    }
}

/// The statement of a read: fetch the pair's row.
pub open spec fn spec_plan_get_preferences(user_id: Seq<char>, event: Seq<char>) -> QueryView {
    QueryView { user_id, event }
}

/// The result of a read: the subscription that the row's preferences stand
/// for; not found where the pair has no row; corrupt data where the row's
/// preferences are not the stored form of any list.
pub open spec fn spec_finish_get_preferences(
    user_id: Seq<char>,
    event: Seq<char>,
    fetched: FetchedView,
) -> Result<SubscriptionView, ApiErrorView> {
    match fetched {
        FetchedView::Row { preferences } => match decoded(preferences) {
            Some(list) => Ok(SubscriptionView { user_id, event, preferences: list }),
            None => Err(ApiErrorView::CorruptData(INVALID_PREFERENCES_FORMAT@)),
        },
        FetchedView::NoRow => Err(ApiErrorView::InvalidRequest(SUBSCRIPTION_NOT_FOUND@)),
        FetchedView::Failed { message } => Err(ApiErrorView::Database(message)),
    }
}

/// The statement of an update: replace the preferences of the pair's row,
/// and create nothing.
pub open spec fn spec_plan_update_preferences(
    user_id: Seq<char>,
    event: Seq<char>,
    preferences: Seq<NotificationPreference>,
) -> CommandView {
    CommandView::Update { user_id, event, preferences: encoded(preferences) }
}

/// The result of an update: the subscription with the new preferences where
/// a row was changed, not found where none was.
pub open spec fn spec_finish_update_preferences(
    user_id: Seq<char>,
    event: Seq<char>,
    preferences: Seq<NotificationPreference>,
    done: ExecutedView,
) -> Result<SubscriptionView, ApiErrorView> {
    match done {
        ExecutedView::Done { rows_affected } => if rows_affected == 0 {
            Err(ApiErrorView::InvalidRequest(SUBSCRIPTION_NOT_FOUND@))
        } else {
            Ok(SubscriptionView { user_id, event, preferences })
        },
        ExecutedView::Failed { message } => Err(ApiErrorView::Database(message)),
    }
}

/// The result of creating the table: success unless the backend failed.
pub open spec fn spec_finish_init_db(done: ExecutedView) -> Result<(), ApiErrorView> {
    match done {
        ExecutedView::Done { .. } => Ok(()),
        ExecutedView::Failed { message } => Err(ApiErrorView::Database(message)),
    }
}

/// The statement that updates the preferences of an existing subscription.
pub fn plan_update_preferences(user_id: &str, event: &str, req: &PreferenceUpdateRequest) -> (cmd:
    Command)
    ensures
        cmd@ == spec_plan_update_preferences(user_id@, event@, req@),
{
    Command::Update {
        user_id: String::from_str(user_id),
        event: String::from_str(event),
        preferences: encode_preferences(&req.preferences),
    }
}

/// Decides an update on the backend's answer.
pub fn finish_update_preferences(
    user_id: String,
    event: String,
    req: PreferenceUpdateRequest,
    done: Executed,
) -> (res: Result<Subscription, ApiError>)
    ensures
        subscription_result(res) == spec_finish_update_preferences(
            user_id@,
            event@,
            req@,
            done@,
        ),
{
    match done {
        Executed::Done { rows_affected } => {
            if rows_affected == 0 {
                Err(ApiError::InvalidRequest(String::from_str(SUBSCRIPTION_NOT_FOUND)))
            } else {
                Ok(Subscription { user_id, event, preferences: req.preferences })
            }
        },
        Executed::Failed { message } => Err(ApiError::Database(message)),
    }
}

/// The statement that reads the preferences of a subscription.
pub fn plan_get_preferences(user_id: &str, event: &str) -> (query: Query)
    ensures
        query@ == spec_plan_get_preferences(user_id@, event@),
{
    Query { user_id: String::from_str(user_id), event: String::from_str(event) }
}

/// Decides a read on the backend's answer.
pub fn finish_get_preferences(user_id: String, event: String, fetched: Fetched) -> (res: Result<
    Subscription,
    ApiError,
>)
    ensures
        subscription_result(res) == spec_finish_get_preferences(user_id@, event@, fetched@),
{
    match fetched {
        Fetched::Row { preferences } => {
            match decode_preferences(preferences.as_str()) {
                Some(list) => Ok(Subscription { user_id, event, preferences: list }),
                None => Err(
                    ApiError::CorruptData(String::from_str(INVALID_PREFERENCES_FORMAT)),
                ),
            }
        },
        Fetched::NoRow => Err(ApiError::InvalidRequest(String::from_str(SUBSCRIPTION_NOT_FOUND))),
        Fetched::Failed { message } => Err(ApiError::Database(message)),
    }
}

/// The statement that subscribes a user to an event.
pub fn plan_subscribe(user_id: &str, req: &SubscriptionRequest) -> (cmd: Command)
    ensures
        cmd@ == spec_plan_subscribe(user_id@, req@),
{
    Command::Upsert {
        user_id: String::from_str(user_id),
        event: req.event.clone(),
        preferences: encode_preferences(&req.preferences),
    }
}

/// Decides a subscribe on the backend's answer.
pub fn finish_subscribe(user_id: String, req: SubscriptionRequest, done: Executed) -> (res: Result<
    Subscription,
    ApiError,
>)
    ensures
        subscription_result(res) == spec_finish_subscribe(user_id@, req@, done@),
{
    match done {
        Executed::Done { .. } => Ok(
            Subscription { user_id, event: req.event, preferences: req.preferences },
        ),
        Executed::Failed { message } => Err(ApiError::Database(message)),
    }
}

/// The statement that deletes a subscription.
pub fn plan_unsubscribe(user_id: &str, event: &str) -> (cmd: Command)
    ensures
        cmd@ == spec_plan_unsubscribe(user_id@, event@),
{
    Command::Delete { user_id: String::from_str(user_id), event: String::from_str(event) }
}

/// Decides an unsubscribe on the backend's answer.
pub fn finish_unsubscribe(done: Executed) -> (res: Result<(), ApiError>)
    ensures
        empty_result(res) == spec_finish_unsubscribe(done@),
{
    match done {
        Executed::Done { rows_affected } => {
            if rows_affected == 0 {
                Err(ApiError::InvalidRequest(String::from_str(NO_SUBSCRIPTION_FOUND)))
            } else {
                Ok(())
            }
        },
        Executed::Failed { message } => Err(ApiError::Database(message)),
    }
}

/// The statement that creates the table where it is missing.
pub fn plan_init_db() -> (cmd: Command)
    ensures
        cmd@ == CommandView::CreateTable,
{
    Command::CreateTable
}

/// Decides the creation of the table on the backend's answer.
pub fn finish_init_db(done: Executed) -> (res: Result<(), ApiError>)
    ensures
        empty_result(res) == spec_finish_init_db(done@),
{
    match done {
        Executed::Done { .. } => Ok(()),
        Executed::Failed { message } => Err(ApiError::Database(message)),
    }
}

/// What a subscribe leaves of the table, and its result: the pair has the
/// requested preferences and nothing of what it had before, every other pair
/// is as it was, and the subscription is answered as requested.
pub open spec fn spec_subscribe(
    table: TableView,
    user_id: Seq<char>,
    req: SubscriptionRequestView,
) -> (TableView, Result<SubscriptionView, ApiErrorView>) {
    if table.created {
        (
            TableView {
                created: true,
                rows: table.rows.insert((user_id, req.event), encoded(req.preferences)),
            },
            Ok(SubscriptionView { user_id, event: req.event, preferences: req.preferences }),
        )
    } else {
        (table, Err(ApiErrorView::Database(NO_SUCH_TABLE@)))
    }
}

/// What an unsubscribe leaves of the table, and its result: the pair's row
/// is gone where it had one; where it had none, nothing changes and the
/// subscription is reported as not found.
pub open spec fn spec_unsubscribe(table: TableView, user_id: Seq<char>, event: Seq<char>) -> (
    TableView,
    Result<(), ApiErrorView>,
) {
    if !table.created {
        (table, Err(ApiErrorView::Database(NO_SUCH_TABLE@)))
    } else if table.rows.contains_key((user_id, event)) {
        (TableView { created: true, rows: table.rows.remove((user_id, event)) }, Ok(()))
    } else {
        (table, Err(ApiErrorView::InvalidRequest(NO_SUBSCRIPTION_FOUND@)))
    }
}

/// The result of a read: the pair's subscription, with the list that its
/// stored preferences stand for.
pub open spec fn spec_get_preferences(
    table: TableView,
    user_id: Seq<char>,
    event: Seq<char>,
) -> Result<SubscriptionView, ApiErrorView> {
    if !table.created {
        Err(ApiErrorView::Database(NO_SUCH_TABLE@))
    } else if !table.rows.contains_key((user_id, event)) {
        Err(ApiErrorView::InvalidRequest(SUBSCRIPTION_NOT_FOUND@))
    } else {
        match decoded(table.rows[(user_id, event)]) {
            Some(list) => Ok(SubscriptionView { user_id, event, preferences: list }),
            None => Err(ApiErrorView::CorruptData(INVALID_PREFERENCES_FORMAT@)),
        }
    }
}

/// What an update leaves of the table, and its result: where the pair has a
/// row, its preferences are replaced by the requested ones; where it has
/// none, nothing changes and the subscription is reported as not found.
pub open spec fn spec_update_preferences(
    table: TableView,
    user_id: Seq<char>,
    event: Seq<char>,
    preferences: Seq<NotificationPreference>,
) -> (TableView, Result<SubscriptionView, ApiErrorView>) {
    if !table.created {
        (table, Err(ApiErrorView::Database(NO_SUCH_TABLE@)))
    } else if table.rows.contains_key((user_id, event)) {
        (
            TableView {
                created: true,
                rows: table.rows.insert((user_id, event), encoded(preferences)),
            },
            Ok(SubscriptionView { user_id, event, preferences }),
        )
    } else {
        (table, Err(ApiErrorView::InvalidRequest(SUBSCRIPTION_NOT_FOUND@)))
    }
}

/// What creating the table leaves: the table exists, with the rows it had.
pub open spec fn spec_init_db(table: TableView) -> TableView {
    TableView { created: true, rows: table.rows }
}

/// Replaces the preferences of an existing subscription. Creates none: where
/// the pair has no subscription the table stays as it is and the result is
/// not found.
pub fn update_preferences(
    table: &mut Table,
    user_id: String,
    event: String,
    req: PreferenceUpdateRequest,
) -> (res: Result<Subscription, ApiError>)
    ensures
        final(table)@ == spec_update_preferences(old(table)@, user_id@, event@, req@).0,
        subscription_result(res) == spec_update_preferences(old(table)@, user_id@, event@, req@).1,
{
    let cmd = plan_update_preferences(user_id.as_str(), event.as_str(), &req);
    let done = table.execute(&cmd);
    finish_update_preferences(user_id, event, req, done)
}

/// Reads the subscription of a pair. The table stays as it is.
pub fn get_preferences(table: &Table, user_id: String, event: String) -> (res: Result<
    Subscription,
    ApiError,
>)
    ensures
        subscription_result(res) == spec_get_preferences(table@, user_id@, event@),
{
    let query = plan_get_preferences(user_id.as_str(), event.as_str());
    let fetched = table.fetch_one(&query);
    finish_get_preferences(user_id, event, fetched)
}

/// Subscribes a user to an event: creates the pair's subscription, or
/// replaces the whole preference list of the one it has.
pub fn subscribe(table: &mut Table, user_id: String, req: SubscriptionRequest) -> (res: Result<
    Subscription,
    ApiError,
>)
    ensures
        final(table)@ == spec_subscribe(old(table)@, user_id@, req@).0,
        subscription_result(res) == spec_subscribe(old(table)@, user_id@, req@).1,
{
    let cmd = plan_subscribe(user_id.as_str(), &req);
    let done = table.execute(&cmd);
    finish_subscribe(user_id, req, done)
}

/// Deletes the subscription of a pair. Where the pair has none the table
/// stays as it is and the result is not found.
pub fn unsubscribe(table: &mut Table, user_id: String, event: String) -> (res: Result<
    (),
    ApiError,
>)
    ensures
        final(table)@ == spec_unsubscribe(old(table)@, user_id@, event@).0,
        empty_result(res) == spec_unsubscribe(old(table)@, user_id@, event@).1,
{
    let cmd = plan_unsubscribe(user_id.as_str(), event.as_str());
    let done = table.execute(&cmd);
    finish_unsubscribe(done)
}

/// Creates the table where it is missing and keeps what it holds where it
/// is there. Safe to call any number of times.
pub fn init_db(table: &mut Table) -> (res: Result<(), ApiError>)
    ensures
        final(table)@ == spec_init_db(old(table)@),
        res is Ok,
{
    let cmd = plan_init_db();
    let done = table.execute(&cmd);
    finish_init_db(done)
}

} // verus!
