use s3_bulk_move::paginate::{process_page, Continuation, Page, RawEntry};
use s3_bulk_move::transform::TransformRule;

fn entry(key: &str, size: i64) -> RawEntry {
    RawEntry { key: Some(key.to_string()), size: Some(size) }
}

#[test]
fn three_pages_yield_all_entries_in_order() {
    let rule = TransformRule::new(None, None).unwrap();
    let pages = vec![
        Page { entries: vec![entry("a", 1), entry("b", 2)], truncated: true },
        Page { entries: vec![entry("c", 3), entry("d", 4), entry("e", 5)], truncated: true },
        Page { entries: vec![], truncated: false },
    ];

    let mut collected = Vec::new();
    let mut marker: Option<String> = None;
    let mut fetches = 0;
    loop {
        let page = &pages[fetches];
        fetches += 1;
        let (records, cont) = process_page(page, 0, &rule);
        for r in records {
            collected.push((r.key, r.size));
        }
        match cont {
            Continuation::Done => break,
            Continuation::Resume { marker: m } => marker = m,
        }
    }

    assert_eq!(fetches, 3);
    assert_eq!(marker.as_deref(), Some("e"));
    let expected: Vec<(String, i64)> = vec![
        ("a".to_string(), 1),
        ("b".to_string(), 2),
        ("c".to_string(), 3),
        ("d".to_string(), 4),
        ("e".to_string(), 5),
    ];
    assert_eq!(collected, expected);
}

#[test]
fn entry_without_key_is_skipped() {
    let rule = TransformRule::new(None, None).unwrap();
    let page = Page {
        entries: vec![
            entry("a", 1),
            RawEntry { key: None, size: Some(9) },
            entry("b", 2),
        ],
        truncated: false,
    };
    let (records, cont) = process_page(&page, 0, &rule);
    assert_eq!(records.len(), 2);
    assert_eq!(records[0].key, "a");
    assert_eq!(records[1].key, "b");
    assert!(matches!(cont, Continuation::Done));
}

#[test]
fn entry_without_size_is_skipped() {
    let rule = TransformRule::new(None, None).unwrap();
    let page = Page {
        entries: vec![RawEntry { key: Some("a".to_string()), size: None }],
        truncated: false,
    };
    let (records, _) = process_page(&page, 0, &rule);
    assert!(records.is_empty());
}

#[test]
fn truncated_page_resumes_from_last_raw_key() {
    let rule = TransformRule::new(None, None).unwrap();
    let page = Page { entries: vec![entry("a", 1), entry("z", 2)], truncated: true };
    let (_, cont) = process_page(&page, 0, &rule);
    match cont {
        Continuation::Resume { marker } => assert_eq!(marker.as_deref(), Some("z")),
        Continuation::Done => panic!("expected the enumeration to resume"),
    }
}

#[test]
fn marker_comes_from_raw_entry_even_without_key() {
    let rule = TransformRule::new(None, None).unwrap();
    let page = Page {
        entries: vec![entry("a", 1), RawEntry { key: None, size: Some(2) }],
        truncated: true,
    };
    let (_, cont) = process_page(&page, 0, &rule);
    match cont {
        Continuation::Resume { marker } => assert_eq!(marker, None),
        Continuation::Done => panic!("expected the enumeration to resume"),
    }
}

#[test]
fn empty_page_finishes_even_when_truncated() {
    let rule = TransformRule::new(None, None).unwrap();
    let page = Page { entries: vec![], truncated: true };
    let (records, cont) = process_page(&page, 0, &rule);
    assert!(records.is_empty());
    assert!(matches!(cont, Continuation::Done));
}

#[test]
fn prefix_is_stripped_across_a_page() {
    let rule = TransformRule::new(None, None).unwrap();
    let page = Page {
        entries: vec![entry("logs/2020/x.log", 7), entry("logs/2021/y.log", 8)],
        truncated: false,
    };
    let (records, _) = process_page(&page, "logs/".len(), &rule);
    assert_eq!(records[0].key, "2020/x.log");
    assert_eq!(records[1].key, "2021/y.log");
}

#[test]
fn fetch_failure_aborts_after_emitted_pages() {
    let rule = TransformRule::new(None, None).unwrap();
    let pages: Vec<Result<Page, String>> = vec![
        Ok(Page { entries: vec![entry("a", 1), entry("b", 2)], truncated: true }),
        Err("storage api error: connection reset".to_string()),
    ];

    let mut emitted = Vec::new();
    let mut failure = None;
    let mut fetches = 0;
    loop {
        let fetched = &pages[fetches];
        fetches += 1;
        let page = match fetched {
            Ok(p) => p,
            Err(e) => {
                failure = Some(e.clone());
                break;
            }
        };
        let (records, cont) = process_page(page, 0, &rule);
        for r in records {
            emitted.push((r.key, r.size));
        }
        if matches!(cont, Continuation::Done) {
            break;
        }
    }

    assert_eq!(emitted, vec![("a".to_string(), 1), ("b".to_string(), 2)]);
    assert_eq!(failure.as_deref(), Some("storage api error: connection reset"));
}
