use zonewatch::event::BusEvent;
use zonewatch::properties::PropertyMap;
use zonewatch::names::{CONNECTED, STATE_PROPERTY, STATION_INTERFACE};
use zonewatch::watcher;

fn event(interface: &str, entries: &[(&str, &str)]) -> BusEvent {
    let mut changed = PropertyMap::new();
    for (name, value) in entries {
        changed.insert(name.to_string(), value.to_string());
    }
    BusEvent::new(interface.to_string(), changed)
}

#[test]
fn the_fixed_names_are_those_of_the_station() {
    assert_eq!(STATION_INTERFACE, "net.connman.iwd.Station");
    assert_eq!(STATE_PROPERTY, "State");
    assert_eq!(CONNECTED, "connected");
}

#[test]
fn station_connected_qualifies() {
    let connected = event("net.connman.iwd.Station", &[("State", "connected")]);
    assert!(watcher::matches(&connected));
}

#[test]
fn other_interface_never_qualifies() {
    for interface in ["net.connman.iwd.Device", "net.connman.iwd.Network", "", "org.freedesktop.DBus.Properties"] {
        assert!(!watcher::matches(&event(interface, &[("State", "connected")])));
        assert!(!watcher::matches(&event(interface, &[])));
        assert!(!watcher::matches(&event(interface, &[("State", "connected"), ("Scanning", "false")])));
    }
}

#[test]
fn interface_comparison_is_exact() {
    assert!(!watcher::matches(&event("net.connman.iwd.station", &[("State", "connected")])));
    assert!(!watcher::matches(&event("NET.CONNMAN.IWD.STATION", &[("State", "connected")])));
    assert!(!watcher::matches(&event(" net.connman.iwd.Station", &[("State", "connected")])));
    assert!(!watcher::matches(&event("net.connman.iwd.Station ", &[("State", "connected")])));
    assert!(!watcher::matches(&event("net.connman.iwd.Station.Extra", &[("State", "connected")])));
    assert!(!watcher::matches(&event("net.connman.iwd.Statio", &[("State", "connected")])));
}

#[test]
fn missing_state_property_never_qualifies() {
    assert!(!watcher::matches(&event("net.connman.iwd.Station", &[])));
    assert!(!watcher::matches(&event("net.connman.iwd.Station", &[("Scanning", "true")])));
    assert!(!watcher::matches(&event(
        "net.connman.iwd.Station",
        &[("ConnectedNetwork", "connected"), ("Scanning", "connected")]
    )));
}

#[test]
fn property_name_comparison_is_exact() {
    for name in ["state", "STATE", " State", "State ", "Stat", "States"] {
        assert!(!watcher::matches(&event("net.connman.iwd.Station", &[(name, "connected")])));
    }
}

#[test]
fn any_other_state_value_does_not_qualify() {
    for value in [
        "disconnected",
        "connecting",
        "disconnecting",
        "roaming",
        "",
        "Connected",
        "CONNECTED",
        " connected",
        "connected ",
        "connected\n",
        "connecte",
    ] {
        assert!(!watcher::matches(&event("net.connman.iwd.Station", &[("State", value)])));
    }
}

#[test]
fn only_the_state_entry_is_inspected() {
    let with_others = event(
        "net.connman.iwd.Station",
        &[("Scanning", "false"), ("State", "connected"), ("ConnectedNetwork", "/net/connman/iwd/0/3/abc")],
    );
    assert!(watcher::matches(&with_others));
    let misleading = event(
        "net.connman.iwd.Station",
        &[("Scanning", "connected"), ("State", "disconnected"), ("state", "connected")],
    );
    assert!(!watcher::matches(&misleading));
}

#[test]
fn matches_is_repeatable() {
    let yes = event("net.connman.iwd.Station", &[("State", "connected")]);
    let no = event("net.connman.iwd.Station", &[("State", "disconnected")]);
    assert_eq!(watcher::matches(&yes), watcher::matches(&yes));
    assert_eq!(watcher::matches(&no), watcher::matches(&no));
    assert!(watcher::matches(&yes));
    assert!(watcher::matches(&yes));
    assert!(!watcher::matches(&no));
    assert!(!watcher::matches(&no));
    assert!(watcher::matches(&yes.clone()));
}

#[test]
fn reports_compares_all_three_texts() {
    let sample = event("a.b.C", &[("Powered", "on")]);
    assert!(sample.reports("a.b.C", "Powered", "on"));
    assert!(!sample.reports("a.b.D", "Powered", "on"));
    assert!(!sample.reports("a.b.C", "powered", "on"));
    assert!(!sample.reports("a.b.C", "Powered", "off"));
}
