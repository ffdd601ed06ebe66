use mac_notifications::{DeliveredRecord, DeliveryMode, Notification};
use mac_notifications::provider::{delete_targets, notifications_from_delivered};

fn record(id: Option<&str>, title: Option<&str>) -> DeliveredRecord {
    DeliveredRecord {
        identifier: id.map(|s| s.to_string()),
        title: title.map(|s| s.to_string()),
        subtitle: None,
        sound: None,
        reply: false,
    }
}

#[test]
fn new_identifier_is_hyphenated_random_uuid() {
    let n = Notification::new();
    let id = n.identifier();
    assert_eq!(id.len(), 36);
    for (i, c) in id.chars().enumerate() {
        if i == 8 || i == 13 || i == 18 || i == 23 {
            assert_eq!(c, '-');
        } else {
            assert!(c.is_ascii_digit() || ('a'..='f').contains(&c));
        }
    }
    assert_eq!(id.chars().nth(14), Some('4'));
    assert!(matches!(id.chars().nth(19), Some('8' | '9' | 'a' | 'b')));
}

#[test]
fn new_notification_has_no_fields_set() {
    let n = Notification::new();
    assert_eq!(n.title_text(), None);
    assert_eq!(n.subtitle_text(), None);
    assert_eq!(n.image_locator(), None);
    assert_eq!(n.sound_name(), None);
    assert_eq!(n.delivery_time(), None);
    assert!(!n.has_reply());
}

#[test]
fn identifiers_of_distinct_builders_differ() {
    let ids: Vec<String> = (0..100).map(|_| Notification::new().identifier().to_string()).collect();
    for i in 0..ids.len() {
        for j in (i + 1)..ids.len() {
            assert_ne!(ids[i], ids[j]);
        }
    }
}

#[test]
fn built_notification_carries_every_field() {
    let earlier = Notification::new().identifier().to_string();
    let n = Notification::new()
        .title("title")
        .subtitle("This notification will be deleted soon")
        .image("https://example.com/avatar.png")
        .reply(true);
    assert!(!n.identifier().is_empty());
    assert_ne!(n.identifier(), earlier);
    assert_eq!(n.title_text(), Some("title"));
    assert_eq!(n.subtitle_text(), Some("This notification will be deleted soon"));
    assert_eq!(n.image_locator(), Some("https://example.com/avatar.png"));
    assert!(n.has_reply());
    assert_eq!(n.delivery_mode(), DeliveryMode::Immediate);
}

#[test]
fn setters_keep_identifier_and_other_fields() {
    let n = Notification::new().title("a");
    let id = n.identifier().to_string();
    let n = n.sound("Ping").title("b").reply(false);
    assert_eq!(n.identifier(), id);
    assert_eq!(n.title_text(), Some("b"));
    assert_eq!(n.sound_name(), Some("Ping"));
    assert!(!n.has_reply());
}

#[test]
fn delivery_date_schedules_the_notification() {
    let n = Notification::new().title("later").delivery_date(1_700_000_000);
    assert_eq!(n.delivery_time(), Some(1_700_000_000));
    assert_eq!(n.delivery_mode(), DeliveryMode::Scheduled(1_700_000_000));
}

#[test]
fn read_back_drops_image_and_delivery_time() {
    let n = Notification::from_delivered(
        "abc".to_string(),
        Some("t".to_string()),
        Some("s".to_string()),
        Some("Glass".to_string()),
        true,
    );
    assert_eq!(n.identifier(), "abc");
    assert_eq!(n.title_text(), Some("t"));
    assert_eq!(n.subtitle_text(), Some("s"));
    assert_eq!(n.sound_name(), Some("Glass"));
    assert!(n.has_reply());
    assert_eq!(n.image_locator(), None);
    assert_eq!(n.delivery_time(), None);
    assert_eq!(n.delivery_mode(), DeliveryMode::Immediate);
}

#[test]
fn listing_reads_back_each_record_in_order() {
    let recs = vec![record(Some("one"), Some("first")), record(Some("two"), None)];
    let list = notifications_from_delivered(&recs);
    assert_eq!(list.len(), 2);
    assert_eq!(list[0].identifier(), "one");
    assert_eq!(list[0].title_text(), Some("first"));
    assert_eq!(list[1].identifier(), "two");
    assert_eq!(list[1].title_text(), None);
}

#[test]
fn listing_of_empty_center_is_empty() {
    assert!(notifications_from_delivered(&Vec::new()).is_empty());
}

#[test]
fn deleting_absent_identifier_selects_nothing() {
    let recs = vec![record(Some("one"), None), record(None, None), record(Some("two"), None)];
    assert!(delete_targets(&recs, "three").is_empty());
    assert!(delete_targets(&Vec::new(), "three").is_empty());
}

#[test]
fn deleting_sent_identifier_selects_it() {
    let sent = Notification::new().title("Hello");
    let id = sent.identifier().to_string();
    let recs = vec![record(Some("other"), None), record(Some(&id), Some("Hello")), record(None, None)];
    assert_eq!(delete_targets(&recs, &id), vec![1]);
    let kept: Vec<&DeliveredRecord> = recs
        .iter()
        .enumerate()
        .filter(|(i, _)| !delete_targets(&recs, &id).contains(i))
        .map(|(_, r)| r)
        .collect();
    assert_eq!(kept.len(), 2);
    assert!(kept.iter().all(|r| r.identifier.as_deref() != Some(id.as_str())));
}

#[test]
fn deleting_selects_every_record_with_the_identifier() {
    let recs = vec![record(Some("x"), None), record(Some("y"), None), record(Some("x"), None)];
    assert_eq!(delete_targets(&recs, "x"), vec![0, 2]);
}
