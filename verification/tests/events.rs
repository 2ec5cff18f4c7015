use gptbot::filter::{collect_matching, EventFilter, FilterDecision, InboundMessage};

fn msg(author_id: u64, channel_id: u64, content: &str, from_bot: bool) -> InboundMessage {
    InboundMessage { author_id, channel_id, content: content.to_string(), from_bot }
}

#[test]
fn filter_keeps_matching_messages_in_arrival_order() {
    // 5 messages from the bound author and 3 from others, interleaved
    let f = EventFilter::new(7, 42, 50, 600);
    let events = vec![
        msg(42, 7, "one", false),
        msg(9, 7, "other author", false),
        msg(42, 7, "two", false),
        msg(42, 3, "other channel", false),
        msg(42, 7, "three", false),
        msg(42, 7, "bot echo", true),
        msg(42, 7, "four", false),
        msg(42, 7, "five", false),
    ];
    let out = collect_matching(&f, &events);
    let texts: Vec<&str> = out.iter().map(|m| m.content.as_str()).collect();
    assert_eq!(texts, vec!["one", "two", "three", "four", "five"]);
}

#[test]
fn filter_truncates_at_the_count_limit() {
    let f = EventFilter::new(1, 1, 2, 600);
    let events = vec![
        msg(1, 1, "a", false),
        msg(1, 1, "b", false),
        msg(1, 1, "c", false),
    ];
    let out = collect_matching(&f, &events);
    assert_eq!(out.len(), 2);
    assert_eq!(out[0].content, "a");
    assert_eq!(out[1].content, "b");
}

#[test]
fn offer_decisions() {
    let mut f = EventFilter::new(7, 42, 2, 600);
    assert_eq!(f.offer(&msg(42, 7, "hi", false)), FilterDecision::Accept);
    assert_eq!(f.accepted, 1);
    assert_eq!(f.offer(&msg(9, 7, "ignored", false)), FilterDecision::Ignore);
    assert_eq!(f.accepted, 1);
    assert_eq!(f.offer(&msg(42, 7, "again", false)), FilterDecision::Accept);
    // the limit is reached: the stream ends, nothing more is consumed
    assert_eq!(f.offer(&msg(42, 7, "late", false)), FilterDecision::End);
    assert_eq!(f.accepted, 2);
}

#[test]
fn bots_never_match() {
    let f = EventFilter::new(7, 42, 50, 600);
    assert!(!f.matches(&msg(42, 7, "from a bot", true)));
    assert!(f.matches(&msg(42, 7, "from the author", false)));
}
