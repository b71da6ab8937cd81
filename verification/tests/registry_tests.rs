use render_loop::registry::WindowRegistry;

#[test]
fn new_registry_is_empty() {
    let registry = WindowRegistry::new();
    assert_eq!(registry.len(), 0);
    assert!(!registry.contains(1));
    assert_eq!(registry.lookup(1), None);
}

#[test]
fn register_then_lookup() {
    let mut registry = WindowRegistry::new();
    registry.register(10, 100);
    registry.register(20, 200);
    assert_eq!(registry.len(), 2);
    assert!(registry.contains(10));
    assert!(registry.contains(20));
    assert_eq!(registry.lookup(10), Some(100));
    assert_eq!(registry.lookup(20), Some(200));
    assert_eq!(registry.lookup(30), None);
}

#[test]
fn keys_stay_unique_on_reregistration() {
    let mut registry = WindowRegistry::new();
    registry.register(10, 100);
    registry.register(10, 101);
    assert_eq!(registry.len(), 1);
    assert_eq!(registry.lookup(10), Some(101));
}

#[test]
fn unregister_removes_only_that_window() {
    let mut registry = WindowRegistry::new();
    registry.register(10, 100);
    registry.register(20, 200);
    registry.unregister(10);
    assert_eq!(registry.len(), 1);
    assert!(!registry.contains(10));
    assert_eq!(registry.lookup(20), Some(200));
    registry.unregister(99);
    assert_eq!(registry.len(), 1);
}
