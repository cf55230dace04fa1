use hamid_mahdavi_client::runner::{tag_line, LogRing, LOG_RING_CAP};

#[test]
fn ring_starts_empty_and_keeps_order() {
    let mut r = LogRing::new();
    assert!(r.snapshot().is_empty());
    r.push("a".to_string());
    r.push("b".to_string());
    assert_eq!(r.snapshot(), vec!["a", "b"]);
}

#[test]
fn ring_keeps_last_thousand_lines() {
    assert_eq!(LOG_RING_CAP, 1000);
    let mut r = LogRing::new();
    for i in 0..1005 {
        r.push(format!("line {i}"));
    }
    let snap = r.snapshot();
    assert_eq!(snap.len(), 1000);
    assert_eq!(snap[0], "line 5");
    assert_eq!(snap[999], "line 1004");
}

#[test]
fn ring_exactly_at_cap() {
    let mut r = LogRing::new();
    for i in 0..1000 {
        r.push(i.to_string());
    }
    assert_eq!(r.snapshot().len(), 1000);
    assert_eq!(r.snapshot()[0], "0");
    r.push("new".to_string());
    let snap = r.snapshot();
    assert_eq!(snap.len(), 1000);
    assert_eq!(snap[0], "1");
    assert_eq!(snap[999], "new");
}

#[test]
fn lines_are_tagged_with_stream() {
    assert_eq!(tag_line("out", "hello"), "[out] hello");
    assert_eq!(tag_line("err", ""), "[err] ");
}
