//! What holds of the store's operations however they are combined.
//!
//! Every operation is one statement, which the table carries out whole. A
//! [`Table`](crate::table::Table) is changed through `&mut` only, so no two
//! operations on it overlap: a history of calls, from one caller or from many
//! at once, is some sequence of such steps, and each law below speaks of every
//! table that such a sequence can start from. A table that was never created
//! answers every operation with a failure of the backend; the laws that
//! promise a success speak of created tables.

use crate::codec::{encoded, lemma_decoded_encoded};
use crate::error::ApiErrorView;
use crate::model::{Key, NotificationPreference, SubscriptionRequestView, SubscriptionView};
use crate::backend::CommandView;
use crate::store::{
    spec_finish_get_preferences, spec_finish_init_db, spec_finish_subscribe,
    spec_finish_unsubscribe, spec_finish_update_preferences, spec_get_preferences, spec_init_db,
    spec_plan_get_preferences, spec_plan_subscribe, spec_plan_unsubscribe,
    spec_plan_update_preferences, spec_subscribe, spec_unsubscribe, spec_update_preferences,
};
use crate::table::{fetch, run, TableView};
use vstd::prelude::*;

verus! {

/// Whether two tables hold the same for `key`: both no row, or both a row
/// with the same stored preferences.
pub open spec fn same_at(a: TableView, b: TableView, key: Key) -> bool {
    &&& a.rows.contains_key(key) == b.rows.contains_key(key)
    &&& a.rows.contains_key(key) ==> a.rows[key] == b.rows[key]
}

/// The table after one subscribe of `user_id` to `event` for each list of
/// `lists`, in their order.
pub open spec fn after_subscribes(
    table: TableView,
    user_id: Seq<char>,
    event: Seq<char>,
    lists: Seq<Seq<NotificationPreference>>,
) -> TableView
    decreases lists.len(),
{
    if lists.len() == 0 {
        table
    } else {
        spec_subscribe(
            after_subscribes(table, user_id, event, lists.drop_last()),
            user_id,
            SubscriptionRequestView { event, preferences: lists.last() },
        ).0
    }
}

/// Each operation is one statement and one decision: what it leaves of the
/// table is what its statement leaves, and its result is what is decided on
/// the statement's answer. So a backend that answers the statements as the
/// table does gives the operations the same results.
pub proof fn law_one_statement_each(
    table: TableView,
    user_id: Seq<char>,
    event: Seq<char>,
    preferences: Seq<NotificationPreference>,
)
    ensures
        ({
            let req = SubscriptionRequestView { event, preferences };
            let ran = run(table, spec_plan_subscribe(user_id, req));
            spec_subscribe(table, user_id, req) == (
                ran.0,
                spec_finish_subscribe(user_id, req, ran.1),
            )
        }),
        ({
            let ran = run(table, spec_plan_unsubscribe(user_id, event));
            spec_unsubscribe(table, user_id, event) == (ran.0, spec_finish_unsubscribe(ran.1))
        }),
        spec_get_preferences(table, user_id, event) == spec_finish_get_preferences(
            user_id,
            event,
            fetch(table, spec_plan_get_preferences(user_id, event)),
        ),
        ({
            let ran = run(table, spec_plan_update_preferences(user_id, event, preferences));
            spec_update_preferences(table, user_id, event, preferences) == (
                ran.0,
                spec_finish_update_preferences(user_id, event, preferences, ran.1),
            )
        }),
        ({
            let ran = run(table, CommandView::CreateTable);
            &&& spec_init_db(table) == ran.0
            &&& spec_finish_init_db(ran.1) == Ok::<(), ApiErrorView>(())
        }),
{
}

/// Subscribing twice answers each time with the subscription as requested,
/// and the second call leaves the table as if the first had not been made:
/// the pair holds the second list alone, and a read returns it. With the same
/// list twice, the second call changes nothing.
pub proof fn law_subscribe_overwrites(
    table: TableView,
    user_id: Seq<char>,
    event: Seq<char>,
    first: Seq<NotificationPreference>,
    second: Seq<NotificationPreference>,
)
    requires
        table.created,
    ensures
        ({
            let one = spec_subscribe(
                table,
                user_id,
                SubscriptionRequestView { event, preferences: first },
            );
            let two = spec_subscribe(
                one.0,
                user_id,
                SubscriptionRequestView { event, preferences: second },
            );
            &&& one.1 == Ok::<SubscriptionView, ApiErrorView>(
                SubscriptionView { user_id, event, preferences: first },
            )
            &&& two.1 == Ok::<SubscriptionView, ApiErrorView>(
                SubscriptionView { user_id, event, preferences: second },
            )
            &&& two.0 == spec_subscribe(
                table,
                user_id,
                SubscriptionRequestView { event, preferences: second },
            ).0
            &&& two.0.rows[(user_id, event)] == encoded(second)
            &&& spec_get_preferences(two.0, user_id, event) == Ok::<
                SubscriptionView,
                ApiErrorView,
            >(SubscriptionView { user_id, event, preferences: second })
            &&& first == second ==> two.0 == one.0
        }),
{
    let one = spec_subscribe(table, user_id, SubscriptionRequestView { event, preferences: first });
    let two = spec_subscribe(
        one.0,
        user_id,
        SubscriptionRequestView { event, preferences: second },
    );
    let direct = spec_subscribe(
        table,
        user_id,
        SubscriptionRequestView { event, preferences: second },
    );
    assert(two.0.rows =~= direct.0.rows);
    if first == second {
        assert(two.0.rows =~= one.0.rows);
    }
    lemma_decoded_encoded(second);
}

/// On a pair that has no subscription, an unsubscribe, a read and an update
/// each fail as not found, and none of them changes the table.
pub proof fn law_not_found_when_absent(
    table: TableView,
    user_id: Seq<char>,
    event: Seq<char>,
    preferences: Seq<NotificationPreference>,
)
    requires
        table.created,
        !table.rows.contains_key((user_id, event)),
    ensures
        spec_unsubscribe(table, user_id, event).1 is Err,
        spec_unsubscribe(table, user_id, event).1->Err_0.is_not_found(),
        spec_unsubscribe(table, user_id, event).0 == table,
        spec_get_preferences(table, user_id, event) is Err,
        spec_get_preferences(table, user_id, event)->Err_0.is_not_found(),
        spec_update_preferences(table, user_id, event, preferences).1 is Err,
        spec_update_preferences(table, user_id, event, preferences).1->Err_0.is_not_found(),
        spec_update_preferences(table, user_id, event, preferences).0 == table,
{
}

/// A pair that was subscribed and then unsubscribed has no subscription: the
/// unsubscribe succeeds once, and after it an unsubscribe, a read and an
/// update each fail as not found.
pub proof fn law_not_found_after_unsubscribe(
    table: TableView,
    user_id: Seq<char>,
    event: Seq<char>,
    subscribed: Seq<NotificationPreference>,
    preferences: Seq<NotificationPreference>,
)
    requires
        table.created,
    ensures
        ({
            let one = spec_subscribe(
                table,
                user_id,
                SubscriptionRequestView { event, preferences: subscribed },
            );
            let two = spec_unsubscribe(one.0, user_id, event);
            &&& two.1 == Ok::<(), ApiErrorView>(())
            &&& two.0.created
            &&& !two.0.rows.contains_key((user_id, event))
            &&& spec_unsubscribe(two.0, user_id, event).1 is Err
            &&& spec_unsubscribe(two.0, user_id, event).1->Err_0.is_not_found()
            &&& spec_get_preferences(two.0, user_id, event) is Err
            &&& spec_get_preferences(two.0, user_id, event)->Err_0.is_not_found()
            &&& spec_update_preferences(two.0, user_id, event, preferences).1 is Err
            &&& spec_update_preferences(two.0, user_id, event, preferences).1->Err_0.is_not_found()
        }),
{
}

/// No operation on one pair affects another pair: whatever the other pair
/// held before, it holds after.
pub proof fn law_other_pairs_untouched(
    table: TableView,
    user_id: Seq<char>,
    event: Seq<char>,
    preferences: Seq<NotificationPreference>,
    other: Key,
)
    requires
        other != (user_id, event),
    ensures
        same_at(
            spec_subscribe(table, user_id, SubscriptionRequestView { event, preferences }).0,
            table,
            other,
        ),
        same_at(spec_unsubscribe(table, user_id, event).0, table, other),
        same_at(spec_update_preferences(table, user_id, event, preferences).0, table, other),
        same_at(spec_init_db(table), table, other),
{
}

/// No operation on one pair observes another pair: on two tables that hold
/// the same for the pair, whatever else they hold, each operation gives the
/// same result and leaves the same for the pair.
pub proof fn law_other_pairs_unseen(
    a: TableView,
    b: TableView,
    user_id: Seq<char>,
    event: Seq<char>,
    preferences: Seq<NotificationPreference>,
)
    requires
        a.created == b.created,
        same_at(a, b, (user_id, event)),
    ensures
        ({
            let req = SubscriptionRequestView { event, preferences };
            let key = (user_id, event);
            &&& spec_subscribe(a, user_id, req).1 == spec_subscribe(b, user_id, req).1
            &&& same_at(spec_subscribe(a, user_id, req).0, spec_subscribe(b, user_id, req).0, key)
            &&& spec_unsubscribe(a, user_id, event).1 == spec_unsubscribe(b, user_id, event).1
            &&& same_at(
                spec_unsubscribe(a, user_id, event).0,
                spec_unsubscribe(b, user_id, event).0,
                key,
            )
            &&& spec_get_preferences(a, user_id, event) == spec_get_preferences(
                b,
                user_id,
                event,
            )
            &&& spec_update_preferences(a, user_id, event, preferences).1
                == spec_update_preferences(b, user_id, event, preferences).1
            &&& same_at(
                spec_update_preferences(a, user_id, event, preferences).0,
                spec_update_preferences(b, user_id, event, preferences).0,
                key,
            )
        }),
{
}

/// Round trip: a read after a subscribe returns the subscribed list, entry
/// for entry in the order given.
pub proof fn law_round_trip(
    table: TableView,
    user_id: Seq<char>,
    event: Seq<char>,
    preferences: Seq<NotificationPreference>,
)
    requires
        table.created,
    ensures
        spec_get_preferences(
            spec_subscribe(table, user_id, SubscriptionRequestView { event, preferences }).0,
            user_id,
            event,
        ) == Ok::<SubscriptionView, ApiErrorView>(
            SubscriptionView { user_id, event, preferences },
        ),
{
    lemma_decoded_encoded(preferences);
}

/// A read after an update of an existing subscription returns the updated
/// list.
pub proof fn law_update_round_trip(
    table: TableView,
    user_id: Seq<char>,
    event: Seq<char>,
    preferences: Seq<NotificationPreference>,
)
    requires
        table.created,
        table.rows.contains_key((user_id, event)),
    ensures
        spec_update_preferences(table, user_id, event, preferences).1 == Ok::<
            SubscriptionView,
            ApiErrorView,
        >(SubscriptionView { user_id, event, preferences }),
        spec_get_preferences(
            spec_update_preferences(table, user_id, event, preferences).0,
            user_id,
            event,
        ) == Ok::<SubscriptionView, ApiErrorView>(
            SubscriptionView { user_id, event, preferences },
        ),
{
    lemma_decoded_encoded(preferences);
}

/// Last writer wins: after any number of subscribes of one pair, in whatever
/// order they took effect, the table holds one row for the pair, with the
/// list of the call that came last, and every other pair as it was. A read
/// returns that list.
pub proof fn law_last_subscribe_wins(
    table: TableView,
    user_id: Seq<char>,
    event: Seq<char>,
    lists: Seq<Seq<NotificationPreference>>,
)
    requires
        table.created,
        lists.len() > 0,
    ensures
        after_subscribes(table, user_id, event, lists) == (TableView {
            created: true,
            rows: table.rows.insert((user_id, event), encoded(lists.last())),
        }),
        spec_get_preferences(after_subscribes(table, user_id, event, lists), user_id, event)
            == Ok::<SubscriptionView, ApiErrorView>(
            SubscriptionView { user_id, event, preferences: lists.last() },
        ),
    decreases lists.len(),
{
    let before = after_subscribes(table, user_id, event, lists.drop_last());
    if lists.len() > 1 {
        law_last_subscribe_wins(table, user_id, event, lists.drop_last());
    }
    let after = after_subscribes(table, user_id, event, lists);
    assert(after.rows =~= table.rows.insert((user_id, event), encoded(lists.last())));
    lemma_decoded_encoded(lists.last());
}

/// Creating the table a second time changes nothing.
pub proof fn law_init_db_idempotent(table: TableView)
    ensures
        spec_init_db(table).created,
        spec_init_db(table).rows == table.rows,
        spec_init_db(spec_init_db(table)) == spec_init_db(table),
{
}

} // verus!
