use observatory_core::config::Config;
use observatory_core::page::{Page, ProcessPage, ResourcePage};
use observatory_core::registry::PageRegistry;

fn two_page_registry() -> (PageRegistry, u64, u64) {
    let config = Config::default();
    let mut registry = PageRegistry::new();
    let first = registry.insert(
        "Processes".to_string(),
        "utilities-terminal-symbolic".to_string(),
        Page::Processes(ProcessPage::new(config)),
    );
    let second = registry.insert(
        "Resources".to_string(),
        "utilities-system-monitor-symbolic".to_string(),
        Page::Resources(ResourcePage::new(config)),
    );
    (registry, first, second)
}

#[test]
fn first_insertion_becomes_active() {
    let (registry, first, second) = two_page_registry();
    assert_eq!(registry.len(), 2);
    assert_ne!(first, second);
    let active = registry.active_entry().expect("a page is registered");
    assert_eq!(active.id, first);
    assert_eq!(active.label, "Processes");
}

#[test]
fn activate_switches_to_the_requested_page() {
    let (mut registry, _first, second) = two_page_registry();
    assert!(registry.activate(second));
    let active = registry.active_entry().expect("a page is registered");
    assert_eq!(active.id, second);
    assert_eq!(active.label, "Resources");
}

#[test]
fn activate_unknown_identity_changes_nothing() {
    let (mut registry, first, _second) = two_page_registry();
    assert!(!registry.activate(999));
    let active = registry.active_entry().expect("a page is registered");
    assert_eq!(active.id, first);
}

#[test]
fn last_valid_activation_wins() {
    // A mix of valid and invalid requests: exactly one entry ends up active,
    // the one of the last valid identity.
    let (mut registry, first, second) = two_page_registry();
    assert!(registry.activate(second));
    assert!(!registry.activate(1_000));
    assert!(registry.activate(first));
    assert!(!registry.activate(77));
    let active = registry.active_entry().expect("a page is registered");
    assert_eq!(active.id, first);
}

#[test]
fn only_invalid_activations_keep_the_default() {
    let (mut registry, first, _second) = two_page_registry();
    assert!(!registry.activate(41));
    assert!(!registry.activate(42));
    let active = registry.active_entry().expect("a page is registered");
    assert_eq!(active.id, first);
}

#[test]
fn empty_registry_has_no_active_entry() {
    let registry = PageRegistry::new();
    assert!(registry.active_entry().is_none());
}
