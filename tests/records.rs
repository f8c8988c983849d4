use bulog::config::{config_from_store, password_matches, ConfigRecord, ConfigRecordOption};
use bulog::error::AccessError;
use bulog::post::{
    page_query, update_result, PageWindow, PostRecord, PostRecordOption, Timestamp,
    PAGE_QUERY_ASC, PAGE_QUERY_DESC,
};

#[test]
fn default_config_values() {
    let c = ConfigRecord::default();
    assert_eq!(c.title, "bulog");
    assert_eq!(c.description, "A sample blog program");
    assert_eq!(c.password, "");
}

#[test]
fn split_password_keeps_other_fields() {
    let patch = ConfigRecordOption {
        title: Some("new title".to_string()),
        description: None,
        password: Some("pwd1".to_string()),
    };
    let (pwd, rest) = patch.split_password();
    assert_eq!(pwd.as_deref(), Some("pwd1"));
    assert_eq!(rest.title.as_deref(), Some("new title"));
    assert_eq!(rest.description, None);
    assert_eq!(rest.password, None);
}

#[test]
fn patch_with_only_description() {
    let mut patch = ConfigRecordOption::empty();
    patch.description = Some("updated".to_string());
    let (pwd, rest) = patch.split_password();
    assert_eq!(pwd, None);
    assert_eq!(rest.title, None);
    assert_eq!(rest.description.as_deref(), Some("updated"));
}

#[test]
fn read_path_hides_password() {
    let stored = ConfigRecord {
        title: "t".to_string(),
        description: "d".to_string(),
        password: "$argon2id$hash".to_string(),
    };
    let read = config_from_store(Some(stored)).unwrap();
    assert_eq!(read.title, "t");
    assert_eq!(read.description, "d");
    assert!(read.password.is_empty());
}

#[test]
fn missing_config_is_uninitialized() {
    let r = config_from_store(None);
    assert!(matches!(r, Err(AccessError::Uninitialized)));
    assert_eq!(AccessError::Uninitialized.message(), "Uninitialized blog info");
}

#[test]
fn password_answer() {
    assert!(password_matches(Some(true)));
    assert!(!password_matches(Some(false)));
    assert!(!password_matches(None));
}

fn post(title: &str) -> PostRecord {
    PostRecord {
        title: title.to_string(),
        content: String::new(),
        created_time: Timestamp { secs: 0, nanos: 0 },
        id: "abc123".to_string(),
        draft: false,
        pinned: false,
    }
}

#[test]
fn update_of_missing_post_is_not_found() {
    assert_eq!(update_result(None), Err(AccessError::NotFound));
    assert_eq!(update_result(Some(post("x"))), Ok(()));
}

#[test]
fn post_patch_drops_id() {
    let mut patch = PostRecordOption::empty();
    patch.id = Some("other".to_string());
    patch.title = Some("new title".to_string());
    let sent = patch.without_id();
    assert_eq!(sent.id, None);
    assert_eq!(sent.title.as_deref(), Some("new title"));
    assert_eq!(sent.content, None);
}

#[test]
fn timestamps_order() {
    let a = Timestamp { secs: 1, nanos: 5 };
    let b = Timestamp { secs: 1, nanos: 6 };
    let c = Timestamp { secs: 2, nanos: 0 };
    assert!(a.before(&b));
    assert!(b.before(&c));
    assert!(!c.before(&a));
    assert!(!a.before(&a));
}

#[test]
fn pages_of_101_posts_newest_first() {
    // Titles in creation order, then newest first as the descending query returns them.
    let created: Vec<String> = (0..101).map(|i| format!("post {i}")).collect();
    let newest_first: Vec<String> = created.iter().rev().cloned().collect();

    let w = PageWindow::new(0, 10).unwrap();
    assert_eq!((w.start, w.limit), (0, 10));
    let (from, to) = w.rows(newest_first.len());
    let page = &newest_first[from..to];
    assert_eq!(page.len(), 10);
    assert_eq!(page[0], "post 100");
    assert_eq!(page[9], "post 91");

    let w = PageWindow::new(10, 10).unwrap();
    assert_eq!(w.start, 100);
    let (from, to) = w.rows(newest_first.len());
    let page = &newest_first[from..to];
    assert_eq!(page.len(), 1);
    assert_eq!(page[0], "post 0");
}

#[test]
fn page_past_the_end_is_empty() {
    let w = PageWindow::new(20, 10).unwrap();
    assert_eq!(w.rows(101), (101, 101));
}

#[test]
fn page_offset_overflow_is_refused() {
    assert!(PageWindow::new(usize::MAX, 2).is_none());
    assert!(PageWindow::new(usize::MAX, 1).is_some());
}

#[test]
fn page_query_direction() {
    assert_eq!(page_query(true), PAGE_QUERY_ASC);
    assert_eq!(page_query(false), PAGE_QUERY_DESC);
    assert!(PAGE_QUERY_DESC.contains("DESC"));
}
