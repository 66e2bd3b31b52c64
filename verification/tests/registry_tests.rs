use productized_shell::registry::{
    classify, entries, inventory_ids, new_grant_entries, unknown_inventory_ids, RunnerEntryClass,
};

#[test]
fn inventory_has_no_unknown_bypass() {
    assert!(
        unknown_inventory_ids().is_empty(),
        "unregistered runner entries: {:?}",
        unknown_inventory_ids()
    );
}

#[test]
fn new_grant_entry_is_registered() {
    assert_eq!(classify("M5-SE-001"), Some(RunnerEntryClass::NewGrant));
    assert_eq!(classify("M5-SE-002"), Some(RunnerEntryClass::NewGrant));
    assert_eq!(classify("RUN-006"), Some(RunnerEntryClass::Blocked));
    assert!(new_grant_entries().contains(&"M5-SE-001"));
    assert!(new_grant_entries().contains(&"M5-SE-002"));
}

#[test]
fn every_entry_has_exactly_one_class() {
    let mut seen = std::collections::BTreeSet::new();
    for entry in entries() {
        assert!(seen.insert(entry.id), "duplicate entry {}", entry.id);
    }
}

#[test]
fn unknown_entry_has_no_class() {
    assert_eq!(classify("RUN-999"), None);
    assert_eq!(classify(""), None);
}

#[test]
fn every_inventory_id_is_classified() {
    for id in inventory_ids() {
        assert!(classify(id).is_some(), "{id}");
    }
}

#[test]
fn new_grant_entries_are_exactly_the_new_grant_class() {
    let listed = new_grant_entries();
    for entry in entries() {
        assert_eq!(
            listed.contains(&entry.id),
            entry.class == RunnerEntryClass::NewGrant
        );
    }
}
