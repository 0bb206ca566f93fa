use chat_core::chat_room::ChatRoom;
use chat_core::chat_room::ChatRoomMetadata;
use chat_core::events::Event;
use chat_core::events::UserMessageBroadcastEvent;
use chat_core::user_session_handle::SessionAndUserId;

fn metadata(name: &str) -> ChatRoomMetadata {
    ChatRoomMetadata { name: name.into(), description: "desc".into() }
}

#[test]
fn test_limit() {
    let metadata = ChatRoomMetadata { name: "test".into(), description: "desc".into() };

    let mut room = ChatRoom::new(metadata);

    for i in 0..12 {
        let msg = UserMessageBroadcastEvent {
            room: "test".into(),
            user_id: "user".into(),
            content: format!("msg{}", i),
        };
        room.record_message(&msg);
    }

    assert_eq!(room.get_history().len(), 10);
}

#[test]
fn history_keeps_last_ten_in_order() {
    let mut room = ChatRoom::new(metadata("general"));

    for i in 0..11 {
        room.send_message("user".into(), format!("m{}", i));
    }

    let history = room.get_history();
    assert_eq!(history.len(), 10);
    for (k, msg) in history.iter().enumerate() {
        assert_eq!(msg.content, format!("m{}", k + 1));
        assert_eq!(msg.room, "general");
        assert_eq!(msg.user_id, "user");
    }
}

#[test]
fn record_message_is_in_history_immediately() {
    let mut room = ChatRoom::new(metadata("general"));
    let msg = UserMessageBroadcastEvent {
        room: "general".into(),
        user_id: "u1".into(),
        content: "hello".into(),
    };
    // No subscriber exists, so a broadcast would go nowhere; the history
    // keeps the message regardless.
    room.record_message(&msg);
    let history = room.get_history();
    assert_eq!(history.len(), 1);
    assert_eq!(history[0], msg);
}

#[test]
fn join_broadcasts_joined_only_for_first_session() {
    let room = ChatRoom::new(metadata("general"));
    let room_ref = std::sync::Arc::new(tokio::sync::Mutex::new(room));

    let s1 = SessionAndUserId { session_id: "S1".into(), user_id: "U1".into() };
    let (mut rx1, _handle1) = room_ref.try_lock().unwrap().join(&s1, room_ref.clone());

    // The joining session subscribed before it was registered, so its own
    // receiver observes the one Joined broadcast.
    match rx1.try_recv().unwrap() {
        Event::RoomParticipation(p) => {
            assert_eq!(p.user_id, "U1");
            assert_eq!(p.room, "general");
            assert_eq!(p.status, chat_core::events::RoomParticipationStatus::Joined);
        }
        other => panic!("expected a participation event, got {:?}", other),
    }
    assert_eq!(room_ref.try_lock().unwrap().get_unique_user_ids(), vec!["U1".to_string()]);

    // A second session of the same user joins: no new Joined event, the
    // user ids unchanged.
    let s2 = SessionAndUserId { session_id: "S2".into(), user_id: "U1".into() };
    let (_rx2, _handle2) = room_ref.try_lock().unwrap().join(&s2, room_ref.clone());
    assert!(rx1.try_recv().is_err());
    assert_eq!(room_ref.try_lock().unwrap().get_unique_user_ids(), vec!["U1".to_string()]);
}

#[test]
fn leave_broadcasts_left_only_for_last_session() {
    let room = ChatRoom::new(metadata("general"));
    let room_ref = std::sync::Arc::new(tokio::sync::Mutex::new(room));

    let s1 = SessionAndUserId { session_id: "S1".into(), user_id: "U1".into() };
    let s2 = SessionAndUserId { session_id: "S2".into(), user_id: "U1".into() };
    let (mut rx1, handle1) = room_ref.try_lock().unwrap().join(&s1, room_ref.clone());
    let (_rx2, handle2) = room_ref.try_lock().unwrap().join(&s2, room_ref.clone());

    // Drain the Joined event rx1 saw for its own join.
    rx1.try_recv().unwrap();

    // One of two sessions leaves: nothing is broadcast, the user stays.
    room_ref.try_lock().unwrap().leave(handle1);
    assert!(rx1.try_recv().is_err());
    assert_eq!(room_ref.try_lock().unwrap().get_unique_user_ids(), vec!["U1".to_string()]);

    // The last session leaves: exactly one Left is broadcast, no user stays.
    room_ref.try_lock().unwrap().leave(handle2);
    match rx1.try_recv().unwrap() {
        Event::RoomParticipation(p) => {
            assert_eq!(p.user_id, "U1");
            assert_eq!(p.room, "general");
            assert_eq!(p.status, chat_core::events::RoomParticipationStatus::Left);
        }
        other => panic!("expected a participation event, got {:?}", other),
    }
    assert!(rx1.try_recv().is_err());
    assert!(room_ref.try_lock().unwrap().get_unique_user_ids().is_empty());
}

#[test]
fn session_handle_send_path_records_then_broadcasts() {
    let room = ChatRoom::new(metadata("general"));
    let room_ref = std::sync::Arc::new(tokio::sync::Mutex::new(room));

    let s1 = SessionAndUserId { session_id: "S1".into(), user_id: "U1".into() };
    let (mut rx1, handle) = room_ref.try_lock().unwrap().join(&s1, room_ref.clone());
    rx1.try_recv().unwrap();  // drain the Joined event

    assert_eq!(handle.room(), "general");
    assert_eq!(handle.session_id(), "S1");
    assert_eq!(handle.user_id(), "U1");

    // The session-handle send path: build the event, record it under the
    // room's lock, then broadcast without the lock.
    let event = handle.message_event("hi there".into());
    handle.room_ref().try_lock().unwrap().record_message(&event);
    handle.broadcast_message(Event::UserMessage(event.clone())).unwrap();

    // The message reached the history (even a failed broadcast would not
    // undo that) and every subscriber.
    let history = room_ref.try_lock().unwrap().get_history();
    assert_eq!(history, vec![event.clone()]);
    match rx1.try_recv().unwrap() {
        Event::UserMessage(m) => assert_eq!(m, event),
        other => panic!("expected the user message, got {:?}", other),
    }
}

#[test]
fn broadcast_without_any_subscriber_is_channel_error() {
    let room = ChatRoom::new(metadata("general"));
    let room_ref = std::sync::Arc::new(tokio::sync::Mutex::new(room));

    let s1 = SessionAndUserId { session_id: "S1".into(), user_id: "U1".into() };
    let (rx1, handle) = room_ref.try_lock().unwrap().join(&s1, room_ref.clone());
    drop(rx1);

    let event = handle.message_event("nobody listens".into());
    let sent = handle.broadcast_message(Event::UserMessage(event));
    assert_eq!(sent, Err(chat_core::events::ChannelError));
}

#[test]
fn idle_subscriber_blocks_nobody() {
    let room = ChatRoom::new(metadata("general"));
    let room_ref = std::sync::Arc::new(tokio::sync::Mutex::new(room));

    let s1 = SessionAndUserId { session_id: "S1".into(), user_id: "U1".into() };
    let s2 = SessionAndUserId { session_id: "S2".into(), user_id: "U2".into() };
    let (_idle_rx, _h1) = room_ref.try_lock().unwrap().join(&s1, room_ref.clone());
    let (mut active_rx, _h2) = room_ref.try_lock().unwrap().join(&s2, room_ref.clone());

    // _idle_rx never reads. Far more sends than the bus buffers still
    // return, and the active subscriber that keeps up sees each message.
    active_rx.try_recv().unwrap();  // drain U2's Joined event
    for i in 0..300 {
        room_ref.try_lock().unwrap().send_message("U1".into(), format!("m{}", i));
        match active_rx.try_recv().unwrap() {
            Event::UserMessage(m) => assert_eq!(m.content, format!("m{}", i)),
            other => panic!("expected a user message, got {:?}", other),
        }
    }
}
