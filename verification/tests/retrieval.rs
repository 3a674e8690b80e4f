use recent_msgs::retrieve::{collect_recent, is_target_chat, take_recent, ChatFeed, Collector, MessageRecord};
use recent_msgs::{MESSAGE_CAP, OFFICIAL_ACCOUNT_ID};

fn msg(n: i64) -> MessageRecord {
    MessageRecord { timestamp: 1_700_000_000 - n, text: format!("m{}", n) }
}

/// A feed as the remote service yields it: newest first, so `m1` is the most
/// recent message and `m{count}` the oldest yielded.
fn feed(count: i64) -> Vec<MessageRecord> {
    (1..=count).map(msg).collect()
}

fn texts(records: &[MessageRecord]) -> Vec<String> {
    records.iter().map(|m| m.text.clone()).collect()
}

#[test]
fn official_chat_scenario_caps_and_reverses() {
    let chats = vec![
        ChatFeed { chat_id: 123, newest_first: feed(3) },
        ChatFeed { chat_id: OFFICIAL_ACCOUNT_ID, newest_first: feed(15) },
        ChatFeed { chat_id: 456, newest_first: feed(2) },
    ];
    let got = collect_recent(chats, 777000, MESSAGE_CAP);
    assert_eq!(got.len(), 10);
    let expected: Vec<String> = (1..=10).rev().map(|n| format!("m{}", n)).collect();
    assert_eq!(texts(&got), expected);
    assert_eq!(got[0].text, "m10");
    assert_eq!(got[9].text, "m1");
}

#[test]
fn no_matching_chat_yields_empty() {
    let chats = vec![
        ChatFeed { chat_id: 123, newest_first: feed(4) },
        ChatFeed { chat_id: 456, newest_first: feed(4) },
    ];
    let got = collect_recent(chats, OFFICIAL_ACCOUNT_ID, MESSAGE_CAP);
    assert!(got.is_empty());
}

#[test]
fn short_feed_is_returned_whole_oldest_first() {
    let got = take_recent(feed(3), MESSAGE_CAP);
    assert_eq!(texts(&got), vec!["m3", "m2", "m1"]);
}

#[test]
fn long_feed_is_capped_at_ten() {
    let got = take_recent(feed(40), MESSAGE_CAP);
    assert_eq!(got.len(), 10);
    assert_eq!(got[0].text, "m10");
    assert_eq!(got[9].text, "m1");
}

#[test]
fn emitted_order_is_reverse_of_retrieval_order() {
    let newest_first = feed(7);
    let originals = texts(&newest_first);
    let got = take_recent(newest_first, MESSAGE_CAP);
    assert_eq!(got.len(), 7);
    for (i, record) in got.iter().enumerate() {
        assert_eq!(record.text, originals[got.len() - 1 - i]);
    }
}

#[test]
fn feed_of_exactly_cap_messages_is_kept_whole() {
    let got = take_recent(feed(10), MESSAGE_CAP);
    assert_eq!(got.len(), 10);
    assert_eq!(got[0].text, "m10");
    assert_eq!(got[9].text, "m1");
}

#[test]
fn empty_feed_yields_empty() {
    let got = take_recent(Vec::new(), MESSAGE_CAP);
    assert!(got.is_empty());
}

#[test]
fn cap_of_zero_retrieves_nothing() {
    let got = take_recent(feed(5), 0);
    assert!(got.is_empty());
}

#[test]
fn collector_stops_exactly_at_its_bound() {
    let mut c = Collector::new(3);
    assert!(c.wants_more());
    assert!(c.push(msg(1)));
    assert!(c.push(msg(2)));
    // The push that reaches the bound reports that retrieval must stop.
    assert!(!c.push(msg(3)));
    assert!(!c.wants_more());
    let out = texts(&c.finish());
    assert_eq!(out, vec!["m3", "m2", "m1"]);
}

#[test]
fn duplicate_target_chats_are_each_processed_in_scan_order() {
    let chats = vec![
        ChatFeed { chat_id: OFFICIAL_ACCOUNT_ID, newest_first: feed(2) },
        ChatFeed { chat_id: 9, newest_first: feed(5) },
        ChatFeed { chat_id: OFFICIAL_ACCOUNT_ID, newest_first: feed(1) },
    ];
    let got = collect_recent(chats, OFFICIAL_ACCOUNT_ID, MESSAGE_CAP);
    assert_eq!(texts(&got), vec!["m2", "m1", "m1"]);
}

#[test]
fn target_comparison_is_exact() {
    assert!(is_target_chat(777000, OFFICIAL_ACCOUNT_ID));
    assert!(!is_target_chat(777001, OFFICIAL_ACCOUNT_ID));
    assert!(!is_target_chat(-777000, OFFICIAL_ACCOUNT_ID));
}
