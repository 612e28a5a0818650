use cosmic_connect::app::{CosmicConnect, Effects, KdeConnectEvent, Message, Outbound, PairButton};
use cosmic_connect::config::{ConnectConfig, Linked};
use cosmic_connect::device::{
    Battery, DeviceAction, DeviceId, DeviceResponse, DeviceState, LinkKind, PairingState,
};
use cosmic_connect::popup::WindowCommand;

fn id(key: &str, name: &str) -> DeviceId {
    DeviceId { id: key.to_string(), name: name.to_string() }
}

fn snapshot(key: &str, name: &str, pairing_state: PairingState) -> DeviceState {
    DeviceState {
        device_id: id(key, name),
        link: LinkKind::Lan,
        connectivity: None,
        battery: None,
        pairing_state,
    }
}

fn refresh(st: DeviceState) -> Message {
    Message::DeviceUpdate(DeviceResponse::Refresh(st))
}

fn connected_app() -> CosmicConnect {
    let mut app = CosmicConnect::init(ConnectConfig::config(None));
    let e = app.update(Message::KdeConnect(KdeConnectEvent::Connected));
    assert!(is_quiet(&e));
    app
}

fn is_quiet(e: &Effects) -> bool {
    e.window.is_none() && e.outbound.is_none() && !e.save && e.clipboard.is_none()
}

fn sent_to(e: &Effects, key: &str, action: &DeviceAction) -> bool {
    match &e.outbound {
        Some(Outbound::Device(k, a)) => k == key && a == action,
        _ => false,
    }
}

fn paired_ids(app: &CosmicConnect) -> Vec<String> {
    app.config().paired.iter().map(|d| d.id.clone()).collect()
}

#[test]
fn pairing_a_seen_device() {
    let mut app = connected_app();
    assert!(app.config().paired.is_empty());
    let e = app.update(refresh(snapshot("dev-1", "Phone", PairingState::Unpaired)));
    assert!(e.save);
    let e = app.update(Message::PairDevice(id("dev-1", "Phone")));
    assert_eq!(app.connections()[0].pairing_state, PairingState::Requested);
    assert_eq!(paired_ids(&app), vec!["dev-1".to_string()]);
    assert!(sent_to(&e, "dev-1", &DeviceAction::Pair));
    assert!(e.save);
    assert!(!app.is_paired(&id("dev-1", "Phone")));
}

#[test]
fn backend_confirms_pairing() {
    let mut app = connected_app();
    app.update(refresh(snapshot("dev-1", "Phone", PairingState::Unpaired)));
    app.update(Message::PairDevice(id("dev-1", "Phone")));
    let e = app.update(refresh(snapshot("dev-1", "Phone", PairingState::Paired)));
    assert!(!e.save);
    assert_eq!(app.connections()[0].pairing_state, PairingState::Paired);
    assert!(app.is_paired(&id("dev-1", "Phone")));
    let rows = app.rows();
    assert_eq!(rows.len(), 1);
    assert_eq!(rows[0].button, PairButton::UnPair);
}

#[test]
fn pairing_twice_matches_pairing_once() {
    let mut app = connected_app();
    app.update(refresh(snapshot("dev-1", "Phone", PairingState::Unpaired)));
    let first = app.update(Message::PairDevice(id("dev-1", "Phone")));
    let second = app.update(Message::PairDevice(id("dev-1", "Phone")));
    assert!(first.save);
    assert!(!second.save);
    assert!(sent_to(&second, "dev-1", &DeviceAction::Pair));
    assert_eq!(app.connections()[0].pairing_state, PairingState::Requested);
    assert_eq!(paired_ids(&app), vec!["dev-1".to_string()]);
}

#[test]
fn pairing_an_unseen_device_approves_nothing() {
    let mut app = connected_app();
    let e = app.update(Message::PairDevice(id("ghost", "Nobody")));
    assert!(app.config().paired.is_empty());
    assert!(app.connections().is_empty());
    assert!(!e.save);
    assert!(sent_to(&e, "ghost", &DeviceAction::Pair));
}

#[test]
fn pairing_without_backend_does_nothing() {
    let mut app = CosmicConnect::init(ConnectConfig::config(None));
    app.update(refresh(snapshot("dev-1", "Phone", PairingState::Unpaired)));
    let e = app.update(Message::PairDevice(id("dev-1", "Phone")));
    assert!(is_quiet(&e));
    assert!(app.config().paired.is_empty());
    assert_eq!(app.connections()[0].pairing_state, PairingState::Unpaired);
}

#[test]
fn unpairing_withdraws_approval() {
    let mut app = connected_app();
    app.update(refresh(snapshot("dev-1", "Phone", PairingState::Paired)));
    app.update(Message::PairDevice(id("dev-1", "Phone")));
    let e = app.update(Message::UnPairDevice(id("dev-1", "Phone")));
    assert!(e.save);
    assert!(sent_to(&e, "dev-1", &DeviceAction::UnPair));
    assert!(app.config().paired.is_empty());
    assert_eq!(app.connections().len(), 1);
    assert_eq!(app.connections()[0].pairing_state, PairingState::Unpaired);
    let again = app.update(Message::UnPairDevice(id("dev-1", "Phone")));
    assert!(!again.save);
    assert!(sent_to(&again, "dev-1", &DeviceAction::UnPair));
}

#[test]
fn disconnect_removes_only_that_session() {
    let mut app = connected_app();
    let mut other = snapshot("dev-2", "Tablet", PairingState::Paired);
    other.battery = Some(Battery { charge: 42, is_charging: true });
    app.update(refresh(snapshot("dev-1", "Phone", PairingState::Unpaired)));
    app.update(refresh(other));
    app.update(refresh(snapshot("dev-3", "Laptop", PairingState::Requested)));
    let e = app.update(Message::DisconnectDevice(id("dev-2", "Tablet")));
    assert!(sent_to(&e, "dev-2", &DeviceAction::Disconnect));
    assert!(!e.save);
    assert!(!app.is_connected());
    let keys: Vec<&str> = app.connections().iter().map(|s| s.device_id.id.as_str()).collect();
    assert_eq!(keys, vec!["dev-1", "dev-3"]);
    assert_eq!(app.connections()[1].pairing_state, PairingState::Requested);
    assert_eq!(app.connections()[1].device_id.name, "Laptop");
    assert_eq!(app.config().last_connections.len(), 3);
}

#[test]
fn disconnect_keeps_approvals() {
    let mut app = connected_app();
    app.update(refresh(snapshot("dev-1", "Phone", PairingState::Unpaired)));
    app.update(Message::PairDevice(id("dev-1", "Phone")));
    app.update(Message::DisconnectDevice(id("dev-1", "Phone")));
    assert!(app.connections().is_empty());
    assert_eq!(paired_ids(&app), vec!["dev-1".to_string()]);
}

#[test]
fn toggle_twice_closes_and_ids_are_fresh() {
    let mut app = CosmicConnect::init(ConnectConfig::config(None));
    let e = app.update(Message::TogglePopup);
    assert_eq!(e.window, Some(WindowCommand::Open(0)));
    assert_eq!(app.popup(), Some(0));
    let e = app.update(Message::TogglePopup);
    assert_eq!(e.window, Some(WindowCommand::Close(0)));
    assert_eq!(app.popup(), None);
    let e = app.update(Message::TogglePopup);
    assert_eq!(e.window, Some(WindowCommand::Open(1)));
    assert_eq!(app.popup(), Some(1));
}

#[test]
fn stale_close_is_ignored() {
    let mut app = CosmicConnect::init(ConnectConfig::config(None));
    app.update(Message::TogglePopup);
    app.update(Message::TogglePopup);
    app.update(Message::TogglePopup);
    let e = app.update(Message::PopupClosed(0));
    assert!(is_quiet(&e));
    assert_eq!(app.popup(), Some(1));
    app.update(Message::PopupClosed(1));
    assert_eq!(app.popup(), None);
}

#[test]
fn later_snapshot_wins_and_one_record_kept() {
    let mut app = CosmicConnect::init(ConnectConfig::config(None));
    let e1 = app.update(refresh(snapshot("A", "Old name", PairingState::Unpaired)));
    let mut v2 = snapshot("A", "New name", PairingState::Unpaired);
    v2.battery = Some(Battery { charge: 80, is_charging: false });
    let e2 = app.update(refresh(v2));
    assert!(e1.save);
    assert!(e2.save);
    assert_eq!(app.connections().len(), 1);
    assert_eq!(app.connections()[0].device_id.name, "New name");
    assert_eq!(app.connections()[0].battery, Some(Battery { charge: 80, is_charging: false }));
    let records = &app.config().last_connections;
    assert_eq!(records.len(), 1);
    assert_eq!(records[0].device_id.name, "New name");
    let e3 = app.update(refresh(snapshot("A", "New name", PairingState::Unpaired)));
    assert!(!e3.save);
    assert_eq!(app.connections()[0].battery, None);
}

#[test]
fn link_change_is_saved() {
    let mut app = CosmicConnect::init(ConnectConfig::config(None));
    app.update(refresh(snapshot("A", "Phone", PairingState::Unpaired)));
    let mut bt = snapshot("A", "Phone", PairingState::Unpaired);
    bt.link = LinkKind::Bluetooth;
    let e = app.update(refresh(bt));
    assert!(e.save);
    assert_eq!(app.config().last_connections[0].link, LinkKind::Bluetooth);
}

#[test]
fn sessions_keep_first_seen_order() {
    let mut app = CosmicConnect::init(ConnectConfig::config(None));
    app.update(refresh(snapshot("b", "Second", PairingState::Unpaired)));
    app.update(refresh(snapshot("a", "First", PairingState::Paired)));
    app.update(refresh(snapshot("b", "Second", PairingState::Unpaired)));
    let rows = app.rows();
    assert_eq!(rows.len(), 2);
    assert_eq!(rows[0].device_id.id, "b");
    assert_eq!(rows[0].button, PairButton::Pair);
    assert_eq!(rows[1].device_id.id, "a");
    assert_eq!(rows[1].button, PairButton::UnPair);
}

#[test]
fn broadcast_needs_backend() {
    let mut app = CosmicConnect::init(ConnectConfig::config(None));
    let e = app.update(Message::Broadcast);
    assert!(is_quiet(&e));
    app.update(Message::KdeConnect(KdeConnectEvent::Connected));
    let e = app.update(Message::Broadcast);
    assert!(matches!(e.outbound, Some(Outbound::Broadcast)));
}

#[test]
fn ping_goes_to_the_device() {
    let mut app = CosmicConnect::init(ConnectConfig::config(None));
    let e = app.update(Message::SendPing(id("dev-1", "Phone"), "hi".to_string()));
    assert!(is_quiet(&e));
    app.update(Message::KdeConnect(KdeConnectEvent::Connected));
    let e = app.update(Message::SendPing(id("dev-1", "Phone"), "hi".to_string()));
    assert!(sent_to(&e, "dev-1", &DeviceAction::Ping("hi".to_string())));
}

#[test]
fn clipboard_content_is_handed_out() {
    let mut app = CosmicConnect::init(ConnectConfig::config(None));
    let e = app.update(Message::DeviceUpdate(DeviceResponse::SyncClipboard("text".to_string())));
    assert_eq!(e.clipboard, Some("text".to_string()));
    assert!(e.outbound.is_none());
    assert!(!e.save);
}

#[test]
fn config_reload_replaces_config() {
    let mut app = CosmicConnect::init(ConnectConfig::config(None));
    let loaded = ConnectConfig {
        last_connections: vec![Linked { device_id: id("x", "Watch"), link: LinkKind::Bluetooth }],
        paired: vec![id("x", "Watch")],
    };
    app.update(Message::UpdateConfig(loaded));
    assert_eq!(paired_ids(&app), vec!["x".to_string()]);
    assert_eq!(app.config().last_connections.len(), 1);
    assert!(app.connections().is_empty());
}

#[test]
fn startup_config_comes_from_store() {
    let empty = ConnectConfig::config(None);
    assert!(empty.paired.is_empty());
    assert!(empty.last_connections.is_empty());
    let stored = ConnectConfig { last_connections: Vec::new(), paired: vec![id("x", "Watch")] };
    let app = CosmicConnect::init(ConnectConfig::config(Some(stored)));
    assert_eq!(paired_ids(&app), vec!["x".to_string()]);
    assert!(!app.is_connected());
    assert_eq!(app.popup(), None);
}
