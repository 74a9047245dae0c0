use dummy_agones::{
    GameServer, GameServerState, GameServerStore, KeyMap, ObjectMeta, Port, Status,
    DEFAULT_AGONES_PORT,
};

fn named_game_server(name: &str) -> GameServer {
    let mut meta = ObjectMeta::default();
    meta.name = name.to_string();
    GameServer { object_meta: Some(meta), spec: None, status: None }
}

fn state_of(gs: &GameServer) -> String {
    gs.status.as_ref().unwrap().state.clone()
}

fn is_empty(gs: &GameServer) -> bool {
    gs.object_meta.is_none() && gs.spec.is_none() && gs.status.is_none()
}

#[test]
fn default_port_is_the_agones_one() {
    assert_eq!(DEFAULT_AGONES_PORT, 9357);
}

#[test]
fn call_to_get_game_server_returns_default() {
    let store = GameServerStore::default();
    assert!(is_empty(&store.game_server()));
}

#[test]
fn call_to_ready_updates_game_server() {
    let mut store = GameServerStore::default();
    let sent = store.ready();
    assert_eq!(state_of(&store.game_server()), GameServerState::Ready.to_string());
    assert_eq!(state_of(&sent), "Ready");
}

#[test]
fn call_to_allocate_updates_game_server() {
    let mut store = GameServerStore::default();
    store.allocate();
    assert_eq!(state_of(&store.game_server()), GameServerState::Allocated.to_string());
}

#[test]
fn call_to_shutdown_updates_game_server() {
    let mut store = GameServerStore::default();
    store.shutdown();
    assert_eq!(state_of(&store.game_server()), GameServerState::Shutdown.to_string());
}

#[test]
fn call_to_reserve_updates_game_server() {
    let mut store = GameServerStore::default();
    store.reserve(537, 0);
    assert_eq!(state_of(&store.game_server()), GameServerState::Reserved.to_string());
}

#[test]
fn call_to_get_game_server_returns_current_game_server() {
    let mut store = GameServerStore::default();
    let sent = store.set_game_server(named_game_server("wxyz"));
    assert_eq!(store.game_server().object_meta.unwrap().name, "wxyz");
    assert_eq!(sent.object_meta.unwrap().name, "wxyz");
}

#[test]
fn call_to_set_label_updates_game_server() {
    let mut store = GameServerStore::default();
    let sent = store.set_label("abcd".to_string(), "efgh".to_string());
    let gs = store.game_server();
    let labels = &gs.object_meta.as_ref().unwrap().labels;
    assert_eq!(labels.get(&"abcd".to_string()), Some(&"efgh".to_string()));
    assert_eq!(labels.len(), 1);
    assert!(gs.object_meta.as_ref().unwrap().annotations.get(&"abcd".to_string()).is_none());
    assert_eq!(
        sent.object_meta.unwrap().labels.get(&"abcd".to_string()),
        Some(&"efgh".to_string())
    );
}

#[test]
fn call_to_set_annotation_updates_game_server() {
    let mut store = GameServerStore::default();
    store.set_annotation("abcd".to_string(), "efgh".to_string());
    let gs = store.game_server();
    let meta = gs.object_meta.unwrap();
    assert_eq!(meta.annotations.get(&"abcd".to_string()), Some(&"efgh".to_string()));
    assert!(meta.labels.get(&"abcd".to_string()).is_none());
}

#[test]
fn replaced_game_server_is_read_back() {
    let mut store = GameServerStore::default();
    let mut status = Status::default();
    status.state = GameServerState::Ready.to_string();
    status.ports.push(Port { name: "game".to_string(), port: 7654 });
    store.set_game_server(GameServer { object_meta: None, spec: None, status: Some(status) });
    let back = store.game_server();
    assert!(back.object_meta.is_none());
    let status = back.status.unwrap();
    assert_eq!(status.state, "Ready");
    assert_eq!(status.ports.len(), 1);
    assert_eq!(status.ports[0].name, "game");
    assert_eq!(status.ports[0].port, 7654);
}

#[test]
fn sdk_ready_should_be_visible_to_readers() {
    let mut store = GameServerStore::default();
    store.ready();
    let state = state_of(&store.game_server());
    assert_eq!(state.parse::<GameServerState>(), Ok(GameServerState::Ready));
}

#[test]
fn state_call_keeps_metadata_and_other_status_fields() {
    let mut store = GameServerStore::default();
    let mut gs = named_game_server("keep");
    let mut status = Status::default();
    status.address = "10.0.0.1".to_string();
    status.state = "Scheduled".to_string();
    gs.status = Some(status);
    store.set_game_server(gs);
    store.allocate();
    let after = store.game_server();
    assert_eq!(after.object_meta.unwrap().name, "keep");
    let status = after.status.unwrap();
    assert_eq!(status.address, "10.0.0.1");
    assert_eq!(status.state, "Allocated");
}

#[test]
fn last_state_call_wins() {
    let mut store = GameServerStore::default();
    store.ready();
    store.allocate();
    store.shutdown();
    assert_eq!(state_of(&store.game_server()), "Shutdown");
}

#[test]
fn same_call_twice_is_like_once() {
    let mut store = GameServerStore::default();
    store.set_label("k".to_string(), "v".to_string());
    store.set_label("k".to_string(), "v".to_string());
    store.ready();
    store.ready();
    let gs = store.game_server();
    assert_eq!(gs.object_meta.unwrap().labels.len(), 1);
    assert_eq!(state_of(&store.game_server()), "Ready");
}

#[test]
fn later_label_value_replaces_earlier() {
    let mut store = GameServerStore::default();
    store.set_label("k".to_string(), "one".to_string());
    store.set_label("other".to_string(), "x".to_string());
    store.set_label("k".to_string(), "two".to_string());
    let meta = store.game_server().object_meta.unwrap();
    assert_eq!(meta.labels.get(&"k".to_string()), Some(&"two".to_string()));
    assert_eq!(meta.labels.get(&"other".to_string()), Some(&"x".to_string()));
    assert_eq!(meta.labels.len(), 2);
}

#[test]
fn labels_in_either_order_agree() {
    let mut a = GameServerStore::default();
    a.set_label("k1".to_string(), "v1".to_string());
    a.set_label("k2".to_string(), "v2".to_string());
    let mut b = GameServerStore::default();
    b.set_label("k2".to_string(), "v2".to_string());
    b.set_label("k1".to_string(), "v1".to_string());
    let (ma, mb) = (a.game_server().object_meta.unwrap(), b.game_server().object_meta.unwrap());
    for key in ["k1", "k2", "k3"] {
        assert_eq!(ma.labels.get(&key.to_string()), mb.labels.get(&key.to_string()));
    }
}

#[test]
fn what_is_sent_is_what_is_stored() {
    let mut store = GameServerStore::default();
    let sent = store.set_annotation("a".to_string(), "b".to_string());
    let stored = store.game_server();
    assert_eq!(format!("{:?}", sent), format!("{:?}", stored));
}

#[test]
fn key_map_insert_and_get() {
    let mut m: KeyMap<String> = KeyMap::new();
    assert_eq!(m.len(), 0);
    assert!(m.get(&"a".to_string()).is_none());
    m.insert("a".to_string(), "1".to_string());
    m.insert("b".to_string(), "2".to_string());
    m.insert("a".to_string(), "3".to_string());
    assert_eq!(m.len(), 2);
    assert_eq!(m.get(&"a".to_string()), Some(&"3".to_string()));
    assert_eq!(m.get(&"b".to_string()), Some(&"2".to_string()));
    let keys: Vec<&String> = m.entries().iter().map(|(k, _)| k).collect();
    assert_eq!(keys, vec!["a", "b"]);
}

#[test]
fn key_map_clone_is_equal() {
    let mut m: KeyMap<String> = KeyMap::new();
    m.insert("a".to_string(), "1".to_string());
    let c = m.clone();
    assert_eq!(c.get(&"a".to_string()), Some(&"1".to_string()));
    assert_eq!(c.len(), 1);
}

#[test]
fn reservation_ends_after_its_duration() {
    let mut store = GameServerStore::default();
    store.reserve(2, 1_000);
    assert!(store.end_reservation(1_000).is_none());
    assert!(store.end_reservation(2_999).is_none());
    assert_eq!(state_of(&store.game_server()), "Reserved");
    let sent = store.end_reservation(3_000).unwrap();
    assert_eq!(state_of(&sent), "Ready");
    assert_eq!(state_of(&store.game_server()), "Ready");
    assert!(store.end_reservation(10_000).is_none());
}

#[test]
fn reservation_for_no_time_does_not_end() {
    let mut store = GameServerStore::default();
    store.reserve(0, 5);
    assert!(store.end_reservation(u64::MAX).is_none());
    assert_eq!(state_of(&store.game_server()), "Reserved");
}

#[test]
fn later_state_call_cancels_reservation() {
    let mut store = GameServerStore::default();
    store.reserve(1, 0);
    store.allocate();
    assert!(store.end_reservation(5_000).is_none());
    assert_eq!(state_of(&store.game_server()), "Allocated");
}

#[test]
fn labels_keep_reservation() {
    let mut store = GameServerStore::default();
    store.reserve(1, 0);
    store.set_label("k".to_string(), "v".to_string());
    assert!(store.end_reservation(1_000).is_some());
    assert_eq!(state_of(&store.game_server()), "Ready");
}

#[test]
fn new_reservation_moves_deadline() {
    let mut store = GameServerStore::default();
    store.reserve(1, 0);
    store.reserve(10, 500);
    assert!(store.end_reservation(1_000).is_none());
    assert!(store.end_reservation(10_500).is_some());
}

#[test]
fn replacement_drops_reservation() {
    let mut store = GameServerStore::default();
    store.reserve(1, 0);
    let mut status = Status::default();
    status.state = "Reserved".to_string();
    store.set_game_server(GameServer { object_meta: None, spec: None, status: Some(status) });
    assert!(store.end_reservation(5_000).is_none());
}

#[test]
fn reservation_deadline_saturates() {
    let mut store = GameServerStore::default();
    store.reserve(i64::MAX, u64::MAX - 1);
    assert!(store.end_reservation(u64::MAX - 1).is_none());
    assert!(store.end_reservation(u64::MAX).is_some());
}

#[test]
fn key_map_keeps_first_insertion_order() {
    let mut m: KeyMap<String> = KeyMap::new();
    m.insert("z".to_string(), "1".to_string());
    m.insert("a".to_string(), "2".to_string());
    m.insert("z".to_string(), "3".to_string());
    let entries: Vec<(String, String)> = m.into_entries();
    assert_eq!(
        entries,
        vec![("z".to_string(), "3".to_string()), ("a".to_string(), "2".to_string())]
    );
}
