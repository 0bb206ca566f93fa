use chat_core::chat_room::ChatRoomMetadata;
use chat_core::room_manager::RoomManager;
use chat_core::room_manager::RoomManagerBuilder;
use chat_core::user_registry::UserRegistry;
use chat_core::user_session_handle::SessionAndUserId;

fn metadata(name: &str) -> ChatRoomMetadata {
    ChatRoomMetadata { name: name.into(), description: format!("the {} room", name) }
}

fn two_room_manager() -> RoomManager {
    let mut builder = RoomManagerBuilder::new();
    for name in ["alpha", "beta"] {
        let meta = metadata(name);
        assert!(!builder.has_room(&meta.name));
        builder = builder.create_room(meta);
    }
    builder.build()
}

#[test]
fn lookup_finds_each_configured_room() {
    let manager = two_room_manager();

    let alpha = manager.lookup(&"alpha".to_string()).expect("alpha is configured");
    let beta = manager.lookup(&"beta".to_string()).expect("beta is configured");

    // Each name leads to its own room: locking one leaves the other free.
    let alpha_guard = alpha.try_lock().unwrap();
    let beta_guard = beta.try_lock().unwrap();
    drop(alpha_guard);
    drop(beta_guard);

    assert!(manager.lookup(&"gamma".to_string()).is_none());
}

#[test]
fn builder_reports_duplicate_names() {
    let mut builder = RoomManagerBuilder::new();
    builder = builder.create_room(metadata("alpha"));
    assert!(builder.has_room(&"alpha".to_string()));
    assert!(!builder.has_room(&"beta".to_string()));
}

#[test]
fn rooms_are_isolated() {
    let manager = two_room_manager();
    let alpha = manager.lookup(&"alpha".to_string()).unwrap();
    let beta = manager.lookup(&"beta".to_string()).unwrap();

    let s1 = SessionAndUserId { session_id: "S1".into(), user_id: "U1".into() };
    {
        let mut room = alpha.try_lock().unwrap();
        let (_rx, handle) = room.join(&s1, alpha.clone());
        room.send_message("U1".into(), "only in alpha".into());
        room.leave(handle);
    }

    // Nothing in beta moved, and beta was never blocked.
    let beta_room = beta.try_lock().unwrap();
    assert!(beta_room.get_history().is_empty());
    assert!(beta_room.get_unique_user_ids().is_empty());

    let alpha_room = alpha.try_lock().unwrap();
    assert_eq!(alpha_room.get_history().len(), 1);
}

#[test]
fn registry_counts_edges_per_user() {
    let mut registry = UserRegistry::new();
    let u1 = "U1".to_string();
    let u2 = "U2".to_string();

    assert!(registry.insert(&u1));  // first session of U1
    assert!(!registry.insert(&u1));  // second session of U1
    assert!(registry.insert(&u2));  // first session of U2

    let mut ids = registry.get_unique_user_ids();
    ids.sort();
    assert_eq!(ids, vec!["U1".to_string(), "U2".to_string()]);

    assert!(!registry.remove(&u1));  // one of two sessions leaves
    assert!(registry.remove(&u1));  // the last session leaves
    assert!(!registry.remove(&u1));  // no session left: clamped, no edge
    assert_eq!(registry.get_unique_user_ids(), vec!["U2".to_string()]);
}
