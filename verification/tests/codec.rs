use pingme_backend::codec::{decode_preferences, encode_preferences};
use pingme_backend::model::{Channel, NotificationPreference};

fn entry(channel: Channel, enabled: bool) -> NotificationPreference {
    NotificationPreference::new(channel, enabled)
}

#[test]
fn new_keeps_channel_and_flag() {
    let p = NotificationPreference::new(Channel::Telegram, false);
    assert_eq!(p.channel, Channel::Telegram);
    assert!(!p.enabled);
    assert_eq!(p, NotificationPreference { channel: Channel::Telegram, enabled: false });
}

#[test]
fn channel_names() {
    assert_eq!(Channel::Email.name(), "Email");
    assert_eq!(Channel::Telegram.name(), "Telegram");
    assert_eq!(Channel::Webhook.name(), "Webhook");
}

#[test]
fn empty_list_is_a_pair_of_brackets() {
    assert_eq!(encode_preferences(&vec![]), "[]");
    assert_eq!(decode_preferences("[]"), Some(vec![]));
}

#[test]
fn one_entry_exact_text() {
    let text = encode_preferences(&vec![entry(Channel::Email, true)]);
    assert_eq!(text, "[{\"channel\":\"Email\",\"enabled\":true}]");
}

#[test]
fn several_entries_exact_text() {
    let list = vec![
        entry(Channel::Telegram, false),
        entry(Channel::Webhook, true),
        entry(Channel::Email, false),
    ];
    assert_eq!(
        encode_preferences(&list),
        "[{\"channel\":\"Telegram\",\"enabled\":false},{\"channel\":\"Webhook\",\"enabled\":true},{\"channel\":\"Email\",\"enabled\":false}]"
    );
}

#[test]
fn decode_reads_each_channel_and_flag() {
    assert_eq!(
        decode_preferences("[{\"channel\":\"Email\",\"enabled\":true}]"),
        Some(vec![entry(Channel::Email, true)])
    );
    assert_eq!(
        decode_preferences(
            "[{\"channel\":\"Webhook\",\"enabled\":false},{\"channel\":\"Telegram\",\"enabled\":true}]"
        ),
        Some(vec![entry(Channel::Webhook, false), entry(Channel::Telegram, true)])
    );
}

#[test]
fn every_list_of_up_to_three_entries_round_trips() {
    let all = [
        entry(Channel::Email, true),
        entry(Channel::Email, false),
        entry(Channel::Telegram, true),
        entry(Channel::Telegram, false),
        entry(Channel::Webhook, true),
        entry(Channel::Webhook, false),
    ];
    let mut lists: Vec<Vec<NotificationPreference>> = vec![vec![]];
    for a in all {
        lists.push(vec![a]);
        for b in all {
            lists.push(vec![a, b]);
            for c in all {
                lists.push(vec![a, b, c]);
            }
        }
    }
    assert_eq!(lists.len(), 1 + 6 + 36 + 216);
    for list in lists {
        let text = encode_preferences(&list);
        assert_eq!(decode_preferences(&text), Some(list));
    }
}

#[test]
fn different_lists_have_different_texts() {
    let a = vec![entry(Channel::Email, true), entry(Channel::Email, true)];
    let b = vec![entry(Channel::Email, true)];
    let c = vec![entry(Channel::Email, false), entry(Channel::Email, true)];
    assert_ne!(encode_preferences(&a), encode_preferences(&b));
    assert_ne!(encode_preferences(&a), encode_preferences(&c));
    assert_ne!(encode_preferences(&b), encode_preferences(&c));
}

#[test]
fn decode_refuses_what_is_not_a_stored_form() {
    let bad = [
        "",
        "[",
        "]",
        "[]]",
        "[[]",
        "[] ",
        " []",
        "[ ]",
        "{}",
        "null",
        "[{}]",
        "[,]",
        "[{\"channel\":\"Email\",\"enabled\":true},]",
        "[{\"channel\":\"Email\",\"enabled\":true}",
        "{\"channel\":\"Email\",\"enabled\":true}",
        "[{\"channel\":\"Email\",\"enabled\":true}]x",
        "[{\"channel\":\"Email\",\"enabled\":true}{\"channel\":\"Email\",\"enabled\":true}]",
        "[{\"channel\":\"Email\",\"enabled\":true},,{\"channel\":\"Email\",\"enabled\":true}]",
        "[{\"channel\":\"Sms\",\"enabled\":true}]",
        "[{\"channel\":\"email\",\"enabled\":true}]",
        "[{\"channel\":\"Emai\",\"enabled\":true}]",
        "[{\"channel\":\"Emails\",\"enabled\":true}]",
        "[{\"channel\":\"Email\",\"enabled\":1}]",
        "[{\"channel\":\"Email\",\"enabled\":True}]",
        "[{\"channel\":\"Email\",\"enabled\":tru}]",
        "[{\"channel\":\"Email\",\"enabled\":\"true\"}]",
        "[{\"channel\":\"Email\"}]",
        "[{\"enabled\":true}]",
        "[{\"enabled\":true,\"channel\":\"Email\"}]",
        "[{\"channel\": \"Email\", \"enabled\": true}]",
        "[{\"channel\":\"Email\",\"enabled\":true,\"extra\":0}]",
        "[{\"channel\":\"Emäil\",\"enabled\":true}]",
        "[{\"channel\":\"Email\",\"enabled\":true}]\u{e9}",
        "\u{e9}",
    ];
    for text in bad {
        assert_eq!(decode_preferences(text), None, "{}", text);
    }
}

#[test]
fn stored_form_is_the_json_that_a_json_reader_expects() {
    let list = vec![entry(Channel::Email, true), entry(Channel::Webhook, false)];
    let text = encode_preferences(&list);
    let value: serde_json::Value = serde_json::from_str(&text).unwrap();
    let items = value.as_array().unwrap();
    assert_eq!(items.len(), 2);
    assert_eq!(items[0].as_object().unwrap().len(), 2);
    assert_eq!(items[0].get("channel").unwrap().as_str(), Some("Email"));
    assert_eq!(items[0].get("enabled").unwrap().as_bool(), Some(true));
    assert_eq!(items[1].get("channel").unwrap().as_str(), Some("Webhook"));
    assert_eq!(items[1].get("enabled").unwrap().as_bool(), Some(false));
    // written back without spaces it is the same text
    assert_eq!(serde_json::to_string(&value).unwrap(), text);
}

#[test]
fn json_written_without_spaces_is_read_as_a_stored_form() {
    let mut first = serde_json::Map::new();
    first.insert("channel".to_string(), serde_json::Value::String("Telegram".to_string()));
    first.insert("enabled".to_string(), serde_json::Value::Bool(true));
    let value = serde_json::Value::Array(vec![serde_json::Value::Object(first)]);
    let text = serde_json::to_string(&value).unwrap();
    assert_eq!(decode_preferences(&text), Some(vec![entry(Channel::Telegram, true)]));
}
