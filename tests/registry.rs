use chat_relay::registry::StreamRegistry;

#[test]
fn register_starts_unset() {
    let mut r = StreamRegistry::new();
    let id = "a".to_string();
    assert!(!r.contains(&id));
    r.register(id.clone());
    assert!(r.contains(&id));
    assert!(!r.is_cancelled(&id));
}

#[test]
fn cancel_all_sets_every_flag_and_counts() {
    let mut r = StreamRegistry::new();
    r.register("a".to_string());
    r.register("b".to_string());
    r.register("a".to_string());
    assert_eq!(r.cancel_all(), 2);
    assert!(r.is_cancelled(&"a".to_string()));
    assert!(r.is_cancelled(&"b".to_string()));
    assert!(!r.is_cancelled(&"c".to_string()));
}

#[test]
fn cancel_all_on_empty_registry() {
    let mut r = StreamRegistry::new();
    assert_eq!(r.cancel_all(), 0);
}

#[test]
fn unregister_is_idempotent() {
    let mut r = StreamRegistry::new();
    r.register("a".to_string());
    r.register("b".to_string());
    r.unregister(&"a".to_string());
    r.unregister(&"a".to_string());
    assert!(!r.contains(&"a".to_string()));
    assert!(r.contains(&"b".to_string()));
    assert_eq!(r.cancel_all(), 1);
}

#[test]
fn register_again_resets_flag() {
    let mut r = StreamRegistry::new();
    r.register("a".to_string());
    r.cancel_all();
    r.register("a".to_string());
    assert!(!r.is_cancelled(&"a".to_string()));
}
