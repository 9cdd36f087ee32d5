use pingme_backend::error::{ApiError, ErrorKind};
use pingme_backend::model::{
    Channel, NotificationPreference, PreferenceUpdateRequest, Subscription, SubscriptionRequest,
};
use pingme_backend::store::{get_preferences, init_db, subscribe, unsubscribe, update_preferences};
use pingme_backend::table::Table;

fn pref(channel: Channel, enabled: bool) -> NotificationPreference {
    NotificationPreference { channel, enabled }
}

fn request(event: &str, preferences: Vec<NotificationPreference>) -> SubscriptionRequest {
    SubscriptionRequest { event: event.to_string(), preferences }
}

fn created() -> Table {
    let mut table = Table::new();
    assert_eq!(init_db(&mut table), Ok(()));
    table
}

fn read(table: &Table, user_id: &str, event: &str) -> Result<Subscription, ApiError> {
    get_preferences(table, user_id.to_string(), event.to_string())
}

#[test]
fn test_subscribe_and_preferences() {
    let mut table = created();

    // Subscribe
    let req = request("event1", vec![pref(Channel::Email, true)]);
    let subscribed = subscribe(&mut table, "user1".to_string(), req);
    assert_eq!(
        subscribed,
        Ok(Subscription {
            user_id: "user1".to_string(),
            event: "event1".to_string(),
            preferences: vec![pref(Channel::Email, true)],
        })
    );

    // Get preferences
    let got = read(&table, "user1", "event1").unwrap();
    assert_eq!(got.preferences, vec![pref(Channel::Email, true)]);

    // Update preferences
    let update = PreferenceUpdateRequest { preferences: vec![pref(Channel::Email, false)] };
    let updated =
        update_preferences(&mut table, "user1".to_string(), "event1".to_string(), update);
    assert_eq!(
        updated,
        Ok(Subscription {
            user_id: "user1".to_string(),
            event: "event1".to_string(),
            preferences: vec![pref(Channel::Email, false)],
        })
    );
    assert_eq!(read(&table, "user1", "event1").unwrap().preferences, vec![pref(Channel::Email, false)]);

    // Unsubscribe
    assert_eq!(unsubscribe(&mut table, "user1".to_string(), "event1".to_string()), Ok(()));

    // Nothing is left to read
    let gone = read(&table, "user1", "event1").unwrap_err();
    assert!(gone.is_not_found());
    assert_eq!(gone, ApiError::InvalidRequest("Subscription not found".to_string()));
}

#[test]
fn subscribe_twice_with_the_same_arguments_echoes_the_input_both_times() {
    let mut table = created();
    let list = vec![pref(Channel::Webhook, true), pref(Channel::Email, false)];
    let expected = Subscription {
        user_id: "u".to_string(),
        event: "e".to_string(),
        preferences: list.clone(),
    };
    let first = subscribe(&mut table, "u".to_string(), request("e", list.clone()));
    let second = subscribe(&mut table, "u".to_string(), request("e", list.clone()));
    assert_eq!(first, Ok(expected.clone()));
    assert_eq!(second, Ok(expected.clone()));
    assert_eq!(table.len(), 1);
    assert_eq!(read(&table, "u", "e"), Ok(expected));
}

#[test]
fn second_subscribe_overwrites_the_first_entirely() {
    let mut table = created();
    let first = vec![pref(Channel::Email, true), pref(Channel::Webhook, true)];
    let second = vec![pref(Channel::Telegram, true)];
    subscribe(&mut table, "u".to_string(), request("e", first)).unwrap();
    let echoed = subscribe(&mut table, "u".to_string(), request("e", second.clone())).unwrap();
    assert_eq!(echoed.preferences, second);
    assert_eq!(read(&table, "u", "e").unwrap().preferences, second);
    assert_eq!(table.len(), 1);
}

#[test]
fn replace_not_merge() {
    let mut table = created();
    subscribe(&mut table, "u".to_string(), request("e", vec![pref(Channel::Email, true)])).unwrap();
    subscribe(&mut table, "u".to_string(), request("e", vec![pref(Channel::Telegram, false)]))
        .unwrap();
    let got = read(&table, "u", "e").unwrap();
    assert_eq!(got.preferences, vec![pref(Channel::Telegram, false)]);
}

#[test]
fn never_subscribed_pair_is_not_found_for_all_three_operations() {
    let mut table = created();
    let gone = unsubscribe(&mut table, "u".to_string(), "e".to_string()).unwrap_err();
    assert_eq!(gone, ApiError::InvalidRequest("No subscription found".to_string()));
    assert!(gone.is_not_found());

    let unread = read(&table, "u", "e").unwrap_err();
    assert_eq!(unread, ApiError::InvalidRequest("Subscription not found".to_string()));
    assert!(unread.is_not_found());

    let update = PreferenceUpdateRequest { preferences: vec![pref(Channel::Email, true)] };
    let unchanged =
        update_preferences(&mut table, "u".to_string(), "e".to_string(), update).unwrap_err();
    assert_eq!(unchanged, ApiError::InvalidRequest("Subscription not found".to_string()));
    assert!(unchanged.is_not_found());
    assert_eq!(unchanged.kind(), ErrorKind::RequestValidation);

    // the failed update created nothing
    assert_eq!(table.len(), 0);
    assert!(read(&table, "u", "e").unwrap_err().is_not_found());
}

#[test]
fn subscribed_then_unsubscribed_pair_is_not_found_for_all_three_operations() {
    let mut table = created();
    subscribe(&mut table, "u".to_string(), request("e", vec![pref(Channel::Email, true)])).unwrap();
    assert_eq!(unsubscribe(&mut table, "u".to_string(), "e".to_string()), Ok(()));
    assert_eq!(table.len(), 0);

    // deleting is not idempotent: the second call finds nothing
    let again = unsubscribe(&mut table, "u".to_string(), "e".to_string()).unwrap_err();
    assert!(again.is_not_found());
    assert!(read(&table, "u", "e").unwrap_err().is_not_found());
    let update = PreferenceUpdateRequest { preferences: vec![] };
    assert!(update_preferences(&mut table, "u".to_string(), "e".to_string(), update)
        .unwrap_err()
        .is_not_found());
}

#[test]
fn operations_on_one_pair_leave_other_pairs_alone() {
    let mut table = created();
    let same_user = vec![pref(Channel::Email, true)];
    let same_event = vec![pref(Channel::Webhook, false)];
    subscribe(&mut table, "u1".to_string(), request("e2", same_user.clone())).unwrap();
    subscribe(&mut table, "u2".to_string(), request("e1", same_event.clone())).unwrap();

    // the pair itself is still unknown
    assert!(read(&table, "u1", "e1").unwrap_err().is_not_found());
    assert!(unsubscribe(&mut table, "u1".to_string(), "e1".to_string()).unwrap_err().is_not_found());

    subscribe(&mut table, "u1".to_string(), request("e1", vec![pref(Channel::Telegram, true)]))
        .unwrap();
    assert_eq!(table.len(), 3);
    let update = PreferenceUpdateRequest { preferences: vec![pref(Channel::Telegram, false)] };
    update_preferences(&mut table, "u1".to_string(), "e1".to_string(), update).unwrap();
    assert_eq!(read(&table, "u1", "e2").unwrap().preferences, same_user);
    assert_eq!(read(&table, "u2", "e1").unwrap().preferences, same_event);

    unsubscribe(&mut table, "u1".to_string(), "e1".to_string()).unwrap();
    assert_eq!(table.len(), 2);
    assert_eq!(read(&table, "u1", "e2").unwrap().preferences, same_user);
    assert_eq!(read(&table, "u2", "e1").unwrap().preferences, same_event);
}

#[test]
fn identifiers_are_case_sensitive() {
    let mut table = created();
    subscribe(&mut table, "User".to_string(), request("Event", vec![pref(Channel::Email, true)]))
        .unwrap();
    assert!(read(&table, "user", "Event").unwrap_err().is_not_found());
    assert!(read(&table, "User", "event").unwrap_err().is_not_found());
    assert!(read(&table, "User", "Event").is_ok());
}

#[test]
fn pairs_are_not_confused_when_their_texts_run_together() {
    let mut table = created();
    subscribe(&mut table, "ab".to_string(), request("c", vec![pref(Channel::Email, true)])).unwrap();
    assert!(read(&table, "a", "bc").unwrap_err().is_not_found());
    subscribe(&mut table, "a".to_string(), request("bc", vec![pref(Channel::Email, false)]))
        .unwrap();
    assert_eq!(table.len(), 2);
    assert_eq!(read(&table, "ab", "c").unwrap().preferences, vec![pref(Channel::Email, true)]);
}

#[test]
fn round_trip_keeps_order_and_duplicates() {
    let mut table = created();
    let list = vec![
        pref(Channel::Webhook, true),
        pref(Channel::Email, false),
        pref(Channel::Email, true),
        pref(Channel::Telegram, false),
        pref(Channel::Webhook, true),
    ];
    subscribe(&mut table, "u".to_string(), request("e", list.clone())).unwrap();
    let got = read(&table, "u", "e").unwrap();
    assert_eq!(got.user_id, "u");
    assert_eq!(got.event, "e");
    assert_eq!(got.preferences, list);
}

#[test]
fn an_empty_list_is_stored_and_read_back() {
    let mut table = created();
    let echoed = subscribe(&mut table, "u".to_string(), request("e", vec![])).unwrap();
    assert!(echoed.preferences.is_empty());
    assert_eq!(table.len(), 1);
    assert_eq!(read(&table, "u", "e").unwrap().preferences, vec![]);
}

#[test]
fn many_subscribes_of_one_pair_leave_one_row_with_the_last_list() {
    let mut table = created();
    subscribe(&mut table, "other".to_string(), request("e", vec![pref(Channel::Email, true)]))
        .unwrap();
    let lists = vec![
        vec![pref(Channel::Email, true)],
        vec![pref(Channel::Telegram, true), pref(Channel::Email, false)],
        vec![],
        vec![pref(Channel::Webhook, false)],
    ];
    for list in &lists {
        let echoed = subscribe(&mut table, "u".to_string(), request("e", list.clone())).unwrap();
        assert_eq!(&echoed.preferences, list);
        assert_eq!(table.len(), 2);
    }
    let got = read(&table, "u", "e").unwrap().preferences;
    assert_eq!(got, vec![pref(Channel::Webhook, false)]);
    assert!(lists.contains(&got));
    assert_eq!(read(&table, "other", "e").unwrap().preferences, vec![pref(Channel::Email, true)]);
}

#[test]
fn update_replaces_the_whole_list() {
    let mut table = created();
    subscribe(
        &mut table,
        "u".to_string(),
        request("e", vec![pref(Channel::Email, true), pref(Channel::Webhook, true)]),
    )
    .unwrap();
    let update = PreferenceUpdateRequest { preferences: vec![pref(Channel::Telegram, true)] };
    let updated = update_preferences(&mut table, "u".to_string(), "e".to_string(), update).unwrap();
    assert_eq!(updated.user_id, "u");
    assert_eq!(updated.event, "e");
    assert_eq!(updated.preferences, vec![pref(Channel::Telegram, true)]);
    assert_eq!(read(&table, "u", "e").unwrap().preferences, vec![pref(Channel::Telegram, true)]);
    assert_eq!(table.len(), 1);
}

#[test]
fn before_the_table_is_created_every_operation_fails_as_storage() {
    let mut table = Table::new();
    assert!(!table.is_created());
    let expected = ApiError::Database("no such table: subscriptions".to_string());

    let req = request("e", vec![pref(Channel::Email, true)]);
    assert_eq!(subscribe(&mut table, "u".to_string(), req), Err(expected.clone()));
    assert_eq!(unsubscribe(&mut table, "u".to_string(), "e".to_string()), Err(expected.clone()));
    assert_eq!(read(&table, "u", "e"), Err(expected.clone()));
    let update = PreferenceUpdateRequest { preferences: vec![] };
    assert_eq!(
        update_preferences(&mut table, "u".to_string(), "e".to_string(), update),
        Err(expected.clone())
    );
    assert_eq!(expected.kind(), ErrorKind::Storage);
    assert!(!expected.is_not_found());
    assert_eq!(table.len(), 0);
}

#[test]
fn creating_the_table_again_keeps_its_rows() {
    let mut table = created();
    assert!(table.is_created());
    subscribe(&mut table, "u".to_string(), request("e", vec![pref(Channel::Email, true)])).unwrap();
    assert_eq!(init_db(&mut table), Ok(()));
    assert_eq!(init_db(&mut table), Ok(()));
    assert!(table.is_created());
    assert_eq!(table.len(), 1);
    assert_eq!(read(&table, "u", "e").unwrap().preferences, vec![pref(Channel::Email, true)]);
}
