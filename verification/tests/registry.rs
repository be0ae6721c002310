use session_bridge::registry::Registry;
use session_bridge::session::{AntigravityState, ExtensionInfo};
use tokio::sync::mpsc::unbounded_channel;

fn info(id: &str, workspace: &str, version: &str) -> ExtensionInfo {
    ExtensionInfo {
        window_id: id.to_string(),
        workspace_name: workspace.to_string(),
        extension_version: version.to_string(),
    }
}

fn state(working: bool, workspace: &str) -> AntigravityState {
    AntigravityState {
        has_accept_button: false,
        has_retry_button: false,
        has_enter_button: false,
        agent_working: working,
        terminal_pending: false,
        workspace_name: workspace.to_string(),
    }
}

#[test]
fn new_registry_is_empty() {
    let registry = Registry::new();
    assert_eq!(registry.len(), 0);
    assert!(registry.snapshot().is_empty());
    assert!(!registry.contains("w1"));
}

#[test]
fn register_adds_one_record_without_state() {
    let (tx, _rx) = unbounded_channel::<String>();
    let mut registry = Registry::new();
    registry.register(info("w1", "proj", "1.0"), tx);
    assert_eq!(registry.len(), 1);
    assert!(registry.contains("w1"));
    let listing = registry.snapshot();
    assert_eq!(listing.len(), 1);
    assert_eq!(listing[0].0, "w1");
    assert_eq!(listing[0].1, "proj");
    assert!(listing[0].2.is_none());
}

#[test]
fn registering_twice_keeps_one_record_of_the_second() {
    let (tx1, mut rx1) = unbounded_channel::<String>();
    let (tx2, mut rx2) = unbounded_channel::<String>();
    let mut registry = Registry::new();
    registry.register(info("w1", "first", "1.0"), tx1);
    assert!(registry.update_state("w1", state(true, "first")));
    registry.register(info("w1", "second", "2.0"), tx2);
    assert_eq!(registry.len(), 1);
    let listing = registry.snapshot();
    assert_eq!(listing.len(), 1);
    assert_eq!(listing[0].0, "w1");
    assert_eq!(listing[0].1, "second");
    assert!(listing[0].2.is_none());
    assert_eq!(registry.deliver("w1", "ping".to_string()), Some(true));
    assert_eq!(rx2.try_recv().unwrap(), "ping");
    assert!(rx1.try_recv().is_err());
}

#[test]
fn registering_other_ids_keeps_earlier_records() {
    let (tx, _rx) = unbounded_channel::<String>();
    let mut registry = Registry::new();
    registry.register(info("w1", "a", "1"), tx.clone());
    registry.register(info("w2", "b", "1"), tx.clone());
    registry.register(info("w3", "c", "1"), tx);
    assert_eq!(registry.len(), 3);
    let mut ids: Vec<String> = registry.snapshot().into_iter().map(|line| line.0).collect();
    ids.sort();
    assert_eq!(ids, vec!["w1", "w2", "w3"]);
}

#[test]
fn update_state_needs_a_record() {
    let mut registry = Registry::new();
    assert!(!registry.update_state("ghost", state(true, "x")));
    assert_eq!(registry.len(), 0);
    assert!(!registry.contains("ghost"));
}

#[test]
fn update_state_replaces_the_whole_report() {
    let (tx, _rx) = unbounded_channel::<String>();
    let mut registry = Registry::new();
    registry.register(info("w1", "proj", "1.0"), tx);
    let mut first = state(true, "proj");
    first.has_accept_button = true;
    first.terminal_pending = true;
    assert!(registry.update_state("w1", first));
    assert!(registry.update_state("w1", state(false, "renamed")));
    let listing = registry.snapshot();
    let stored = listing[0].2.as_ref().unwrap();
    assert!(!stored.has_accept_button);
    assert!(!stored.has_retry_button);
    assert!(!stored.has_enter_button);
    assert!(!stored.agent_working);
    assert!(!stored.terminal_pending);
    assert_eq!(stored.workspace_name, "renamed");
    assert_eq!(listing[0].1, "proj");
}

#[test]
fn update_state_touches_one_record_only() {
    let (tx, _rx) = unbounded_channel::<String>();
    let mut registry = Registry::new();
    registry.register(info("w1", "a", "1"), tx.clone());
    registry.register(info("w2", "b", "1"), tx);
    assert!(registry.update_state("w2", state(true, "b")));
    for line in registry.snapshot() {
        if line.0 == "w1" {
            assert!(line.2.is_none());
        } else {
            assert_eq!(line.0, "w2");
            assert!(line.2.unwrap().agent_working);
        }
    }
}

#[test]
fn remove_is_idempotent() {
    let (tx, _rx) = unbounded_channel::<String>();
    let mut registry = Registry::new();
    registry.register(info("w1", "a", "1"), tx.clone());
    registry.register(info("w2", "b", "1"), tx);
    registry.remove("w1");
    assert_eq!(registry.len(), 1);
    assert!(!registry.contains("w1"));
    assert!(registry.contains("w2"));
    registry.remove("w1");
    registry.remove("never");
    assert_eq!(registry.len(), 1);
    assert_eq!(registry.snapshot()[0].0, "w2");
}

#[test]
fn remove_from_the_middle_keeps_the_rest() {
    let (tx, _rx) = unbounded_channel::<String>();
    let mut registry = Registry::new();
    registry.register(info("w1", "a", "1"), tx.clone());
    registry.register(info("w2", "b", "1"), tx.clone());
    registry.register(info("w3", "c", "1"), tx);
    registry.remove("w2");
    let mut ids: Vec<String> = registry.snapshot().into_iter().map(|line| line.0).collect();
    ids.sort();
    assert_eq!(ids, vec!["w1", "w3"]);
}

#[test]
fn deliver_reaches_the_named_session_only() {
    let (tx1, mut rx1) = unbounded_channel::<String>();
    let (tx2, mut rx2) = unbounded_channel::<String>();
    let mut registry = Registry::new();
    registry.register(info("w1", "a", "1"), tx1);
    registry.register(info("w2", "b", "1"), tx2);
    assert_eq!(registry.deliver("w2", "for two".to_string()), Some(true));
    assert_eq!(rx2.try_recv().unwrap(), "for two");
    assert!(rx2.try_recv().is_err());
    assert!(rx1.try_recv().is_err());
    assert_eq!(registry.deliver("w9", "nobody".to_string()), None);
}

#[test]
fn deliver_keeps_the_order_of_sending() {
    let (tx, mut rx) = unbounded_channel::<String>();
    let mut registry = Registry::new();
    registry.register(info("w1", "a", "1"), tx);
    for text in ["one", "two", "three"] {
        assert_eq!(registry.deliver("w1", text.to_string()), Some(true));
    }
    assert_eq!(rx.try_recv().unwrap(), "one");
    assert_eq!(rx.try_recv().unwrap(), "two");
    assert_eq!(rx.try_recv().unwrap(), "three");
}

#[test]
fn deliver_to_a_closed_queue_is_refused_and_harmless() {
    let (tx, rx) = unbounded_channel::<String>();
    let mut registry = Registry::new();
    registry.register(info("w1", "a", "1"), tx);
    drop(rx);
    assert_eq!(registry.deliver("w1", "lost".to_string()), Some(false));
    assert_eq!(registry.len(), 1);
    assert!(registry.contains("w1"));
}

#[test]
fn deliver_all_gives_each_session_one_copy() {
    let (tx1, mut rx1) = unbounded_channel::<String>();
    let (tx2, rx2) = unbounded_channel::<String>();
    let (tx3, mut rx3) = unbounded_channel::<String>();
    let mut registry = Registry::new();
    registry.register(info("w1", "a", "1"), tx1);
    registry.register(info("w2", "b", "1"), tx2);
    registry.register(info("w3", "c", "1"), tx3);
    drop(rx2);
    registry.deliver_all("news");
    assert_eq!(rx1.try_recv().unwrap(), "news");
    assert!(rx1.try_recv().is_err());
    assert_eq!(rx3.try_recv().unwrap(), "news");
    assert!(rx3.try_recv().is_err());
    assert_eq!(registry.len(), 3);
}

#[test]
fn get_finds_the_record_with_its_info_and_state() {
    let (tx, _rx) = unbounded_channel::<String>();
    let mut registry = Registry::new();
    registry.register(info("w1", "proj", "1.2"), tx);
    assert!(registry.get("w2").is_none());
    {
        let record = registry.get("w1").unwrap();
        assert_eq!(record.info().window_id, "w1");
        assert_eq!(record.info().workspace_name, "proj");
        assert_eq!(record.info().extension_version, "1.2");
        assert!(record.last_state().is_none());
    }
    registry.update_state("w1", state(true, "proj"));
    assert!(registry.get("w1").unwrap().last_state().unwrap().agent_working);
}
