use mdow::models::MarkdownDocument;
use mdow::models::DOCUMENT_EXPIRY_SECONDS;
use mdow::share::share_document;
use mdow::store::DocumentStore;
use mdow::store::StoreError;

const DAY: i64 = 86400;

#[test]
fn expiry_is_exactly_thirty_days_after_creation() {
    let d = MarkdownDocument::new(String::from("abcdef0"), String::from("text"), 1000);
    assert_eq!(DOCUMENT_EXPIRY_SECONDS, 30 * DAY);
    assert_eq!(d.expires_at, d.created_at + 30 * DAY);
}

#[test]
fn save_then_fetch_while_active_returns_content_unchanged() {
    let mut store = DocumentStore::new();
    let content = "# Hello\n\nWorld";
    let r = store.save_markdown_document("abcdef0", content, 1000, 1000 + 30 * DAY);
    assert!(r.is_ok());
    let found = store.find_active("abcdef0", 1001).expect("document should be active");
    assert_eq!(found.content, content);
    assert_eq!(found.id, "abcdef0");
    assert_eq!(found.created_at, 1000);
    assert_eq!(found.expires_at, 1000 + 30 * DAY);
}

#[test]
fn fetch_at_twenty_nine_days_finds_and_at_thirty_one_days_does_not() {
    let mut store = DocumentStore::new();
    let t: i64 = 50_000;
    let r = store.save_markdown_document("1234abc", "# Hello\n\nWorld", t, t + 30 * DAY);
    assert!(r.is_ok());
    let before = store.find_active("1234abc", t + 29 * DAY);
    assert_eq!(before.map(|d| d.content), Some(String::from("# Hello\n\nWorld")));
    let after = store.find_active("1234abc", t + 31 * DAY);
    assert!(after.is_none());
}

#[test]
fn fetch_exactly_at_expiry_does_not_find() {
    let mut store = DocumentStore::new();
    let t: i64 = 7;
    store.save_markdown_document("eeeeeee", "x", t, t + 30 * DAY).unwrap();
    assert!(store.find_active("eeeeeee", t + 30 * DAY).is_none());
    assert!(store.find_active("eeeeeee", t + 30 * DAY - 1).is_some());
}

#[test]
fn unknown_id_is_never_found() {
    let mut store = DocumentStore::new();
    assert!(store.find_active("missing", 0).is_none());
    assert!(store.find_active("missing", -5_000_000).is_none());
    store.save_markdown_document("abcabc1", "x", 0, 30 * DAY).unwrap();
    assert!(store.find_active("missing", 10).is_none());
}

#[test]
fn duplicate_id_is_rejected_and_store_unchanged() {
    let mut store = DocumentStore::new();
    store.save_markdown_document("abcdef0", "first", 0, 30 * DAY).unwrap();
    let r = store.save_markdown_document("abcdef0", "second", 5, 5 + 30 * DAY);
    assert_eq!(r, Err(StoreError::DuplicateId));
    let found = store.find_active("abcdef0", 10).unwrap();
    assert_eq!(found.content, "first");
}

#[test]
fn expired_and_absent_are_indistinguishable() {
    let mut store = DocumentStore::new();
    store.save_markdown_document("olddoc1", "x", 0, 30 * DAY).unwrap();
    let expired = store.find_active("olddoc1", 31 * DAY);
    let absent = store.find_active("nothere", 31 * DAY);
    assert!(expired.is_none());
    assert!(absent.is_none());
}

#[test]
fn share_document_sanitizes_and_stamps_expiry() {
    let mut store = DocumentStore::new();
    let raw = "# Hi<script>alert(1)</script>";
    let now: i64 = 12345;
    let doc = share_document(&mut store, raw, now).expect("fresh id should insert");
    assert_eq!(doc.content, ammonia::clean(raw));
    assert_eq!(doc.created_at, now);
    assert_eq!(doc.expires_at, now + 30 * DAY);
    assert_eq!(doc.id.len(), 7);
    assert!(doc.id.chars().all(|c| c.is_ascii_hexdigit() && !c.is_ascii_uppercase()));
    let fetched = store.find_active(&doc.id, now + 1).unwrap();
    assert_eq!(fetched.content, doc.content);
}

#[test]
fn shared_documents_get_distinct_identifiers() {
    let mut store = DocumentStore::new();
    let a = share_document(&mut store, "one", 0).unwrap();
    let b = share_document(&mut store, "two", 0).unwrap();
    assert_ne!(a.id, b.id);
    assert_eq!(store.find_active(&a.id, 1).unwrap().content, "one");
    assert_eq!(store.find_active(&b.id, 1).unwrap().content, "two");
}
