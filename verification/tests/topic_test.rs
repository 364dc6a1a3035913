use fs_bots::topic::topic_matches;

#[test]
fn exact_match() {
    assert!(topic_matches("a.b.c", "a.b.c"));
}

#[test]
fn star_segment() {
    assert!(topic_matches("a.*.c", "a.b.c"));
}

#[test]
fn double_star_suffix() {
    assert!(topic_matches("a.**", "a.b.c.d"));
}

#[test]
fn no_match() {
    assert!(!topic_matches("a.b", "a.b.c"));
}

#[test]
fn double_star_alone_matches_everything() {
    assert!(topic_matches("**", "chat.message"));
    assert!(topic_matches("**", ""));
}

#[test]
fn double_star_matches_one_remaining_segment() {
    assert!(topic_matches("a.**", "a.b"));
    assert!(topic_matches("bot.**", "bot.started"));
}

#[test]
fn double_star_matches_empty_suffix() {
    assert!(topic_matches("a.**", "a"));
}

#[test]
fn star_matches_exactly_one_segment() {
    assert!(topic_matches("calendar.event.*", "calendar.event.created"));
    assert!(!topic_matches("calendar.event.*", "calendar.event"));
    assert!(!topic_matches("calendar.event.*", "calendar.event.a.b"));
}

#[test]
fn prefix_must_match() {
    assert!(!topic_matches("a.**", "b.c"));
    assert!(!topic_matches("a.*.c", "a.b.d"));
}
