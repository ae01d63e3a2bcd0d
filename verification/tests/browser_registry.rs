use sw_lifecycle::browser::{BrowserRegistry, RegEntry};

#[test]
fn registering_same_url_twice_is_idempotent() {
    let url = "https://example.test/sw.js".to_string();
    let mut registry = BrowserRegistry::new();

    let first = registry.register(&url);
    let after_first = registry.clone();
    let second = registry.register(&url);

    assert_eq!(second, first);
    assert_eq!(registry, after_first);
}

#[test]
fn first_registration_creates_a_fresh_record() {
    let url = "https://example.test/sw.js".to_string();
    let mut registry = BrowserRegistry::new();

    let id = registry.register(&url);

    assert_eq!(id, 0);
    assert_eq!(
        registry.entry,
        Some(RegEntry { reg_id: 0, script_url: url })
    );
    assert_eq!(registry.next_id, 1);
}

#[test]
fn registering_a_new_url_reuses_the_registration_record() {
    let old_url = "https://example.test/old-sw.js".to_string();
    let new_url = "https://example.test/sw.js".to_string();
    let mut registry = BrowserRegistry::new();

    let first = registry.register(&old_url);
    let second = registry.register(&new_url);

    assert_eq!(second, first);
    assert_eq!(
        registry.entry,
        Some(RegEntry { reg_id: first, script_url: new_url })
    );
    assert_eq!(registry.next_id, 1);
}
