use zonewatch::event::BusEvent;
use zonewatch::properties::PropertyMap;
use zonewatch::text::same_text;

fn owned(name: &str, value: &str) -> (String, String) {
    (name.to_string(), value.to_string())
}

#[test]
fn same_text_is_exact() {
    assert!(same_text("", ""));
    assert!(same_text("State", "State"));
    assert!(!same_text("State", "state"));
    assert!(!same_text("State", "State "));
    assert!(!same_text("State", "Stat"));
    assert!(!same_text("", " "));
    assert!(same_text("Zürich/é", "Zürich/é"));
    assert!(!same_text("Zürich", "Zurich"));
    assert!(!same_text("é", "e\u{301}"));
}

#[test]
fn new_map_is_empty() {
    let map = PropertyMap::new();
    assert!(map.is_empty());
    assert_eq!(map.len(), 0);
    assert_eq!(map.get("State"), None);
    assert!(!map.contains_key("State"));
}

#[test]
fn insert_adds_and_replaces() {
    let mut map = PropertyMap::new();
    assert_eq!(map.insert("State".to_string(), "connecting".to_string()), None);
    assert_eq!(map.insert("Scanning".to_string(), "true".to_string()), None);
    assert_eq!(map.len(), 2);
    assert!(!map.is_empty());
    assert_eq!(map.get("State"), Some(&"connecting".to_string()));
    assert_eq!(
        map.insert("State".to_string(), "connected".to_string()),
        Some("connecting".to_string())
    );
    assert_eq!(map.len(), 2);
    assert_eq!(map.get("State"), Some(&"connected".to_string()));
    assert_eq!(map.get("Scanning"), Some(&"true".to_string()));
    assert!(map.contains_key("Scanning"));
    assert!(!map.contains_key("scanning"));
    assert_eq!(map.get("Missing"), None);
}

#[test]
fn from_entries_keeps_the_last_value_of_a_name() {
    let map = PropertyMap::from_entries(vec![
        owned("State", "disconnected"),
        owned("Scanning", "false"),
        owned("State", "connected"),
    ]);
    assert_eq!(map.len(), 2);
    assert_eq!(map.get("State"), Some(&"connected".to_string()));
    assert_eq!(map.get("Scanning"), Some(&"false".to_string()));
}

#[test]
fn from_entries_of_nothing_is_empty() {
    let map = PropertyMap::from_entries(Vec::new());
    assert!(map.is_empty());
    assert_eq!(map.len(), 0);
}

#[test]
fn clone_holds_the_same_properties() {
    let map = PropertyMap::from_entries(vec![owned("State", "connected"), owned("Scanning", "false")]);
    let copy = map.clone();
    assert_eq!(copy.len(), 2);
    assert_eq!(copy.get("State"), Some(&"connected".to_string()));
    assert_eq!(copy.get("Scanning"), Some(&"false".to_string()));
}

#[test]
fn from_parts_builds_the_event() {
    let event = BusEvent::from_parts(
        "net.connman.iwd.Station".to_string(),
        vec![owned("State", "connected"), owned("Scanning", "false")],
    );
    assert_eq!(event.interface, "net.connman.iwd.Station");
    assert_eq!(event.changed.len(), 2);
    assert_eq!(event.changed.get("State"), Some(&"connected".to_string()));
    let copy = event.clone();
    assert_eq!(copy.interface, "net.connman.iwd.Station");
    assert_eq!(copy.changed.get("Scanning"), Some(&"false".to_string()));
}
