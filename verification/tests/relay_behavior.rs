use game_relay::game_state::GameState;
use game_relay::hub::{BroadcastHub, RecvOutcome, Subscriber};
use game_relay::session::{
    handle_client_message, session_finish, session_step, SessionDirective, SessionEvent,
    SessionState,
};
use game_relay::types::{ClientMessage, Player, PlayerTable, Position, ServerMessage};

fn player_with_id(id: &str, name: &str) -> Player {
    Player {
        id: id.to_string(),
        name: name.to_string(),
        position: Position { x: 0, y: 0, z: 0 },
        level: 1,
        health: 100,
        max_health: 100,
    }
}

fn joined_id(state: &SessionState) -> String {
    match state {
        SessionState::Joined(id) => id.clone(),
        SessionState::Unauthenticated => panic!("session did not join"),
    }
}

#[test]
fn registry_size_tracks_distinct_ids() {
    let mut gs = GameState::new();
    assert_eq!(gs.get_player_count(), 0);
    gs.add_player(player_with_id("a", "Ann"));
    assert_eq!(gs.get_player_count(), 1);
    gs.add_player(player_with_id("b", "Ben"));
    assert_eq!(gs.get_player_count(), 2);
    gs.remove_player(&"a".to_string());
    assert_eq!(gs.get_player_count(), 1);
    // Removing the same identifier again is a no-op: no size change and no
    // broadcast.
    let before = gs.published_count();
    gs.remove_player(&"a".to_string());
    assert_eq!(gs.get_player_count(), 1);
    assert_eq!(gs.published_count(), before);
}

#[test]
fn add_with_same_id_overwrites() {
    let mut gs = GameState::new();
    gs.add_player(player_with_id("a", "Ann"));
    gs.add_player(player_with_id("a", "Ann again"));
    assert_eq!(gs.get_player_count(), 1);
    let snapshot = gs.get_all_players();
    let stored = snapshot.get(&"a".to_string()).expect("entry present");
    assert_eq!(stored.name, "Ann again");
}

#[test]
fn join_twice_is_idempotent() {
    let mut gs = GameState::new();
    let mut st = SessionState::Unauthenticated;
    handle_client_message(
        ClientMessage::Join { player_name: "Ann".to_string() },
        &mut gs,
        &mut st,
    );
    let id = joined_id(&st);
    assert_eq!(gs.get_player_count(), 1);
    let published = gs.published_count();
    handle_client_message(
        ClientMessage::Join { player_name: "Somebody else".to_string() },
        &mut gs,
        &mut st,
    );
    assert_eq!(gs.get_player_count(), 1);
    assert_eq!(gs.published_count(), published);
    assert_eq!(joined_id(&st), id);
}

#[test]
fn move_and_chat_before_join_do_nothing() {
    let mut gs = GameState::new();
    let mut st = SessionState::Unauthenticated;
    handle_client_message(
        ClientMessage::PlayerMove { position: Position { x: 7, y: 8, z: 9 } },
        &mut gs,
        &mut st,
    );
    handle_client_message(
        ClientMessage::ChatMessage { message: "anyone there?".to_string() },
        &mut gs,
        &mut st,
    );
    assert_eq!(gs.get_player_count(), 0);
    assert_eq!(gs.published_count(), 0);
    assert!(matches!(st, SessionState::Unauthenticated));
}

#[test]
fn update_position_present_broadcasts_once_and_stores() {
    let mut gs = GameState::new();
    gs.add_player(player_with_id("a", "Ann"));
    let mut sub = gs.subscribe();
    let target = Position {
        x: 1.5f32.to_bits(),
        y: 0f32.to_bits(),
        z: (-2.25f32).to_bits(),
    };
    gs.update_player_position(&"a".to_string(), target);
    match gs.recv(&mut sub) {
        RecvOutcome::Received(ServerMessage::PlayerMoved { player_id, position }) => {
            assert_eq!(player_id, "a");
            assert_eq!(f32::from_bits(position.x), 1.5f32);
            assert_eq!(f32::from_bits(position.y), 0f32);
            assert_eq!(f32::from_bits(position.z), -2.25f32);
        }
        _ => panic!("expected exactly one PlayerMoved broadcast"),
    }
    assert!(matches!(gs.recv(&mut sub), RecvOutcome::Empty));
    let snapshot = gs.get_all_players();
    let stored = snapshot.get(&"a".to_string()).expect("entry present");
    assert_eq!(stored.position, target);
}

#[test]
fn update_position_absent_does_nothing() {
    let mut gs = GameState::new();
    gs.add_player(player_with_id("a", "Ann"));
    let before = gs.published_count();
    gs.update_player_position(&"ghost".to_string(), Position { x: 1, y: 2, z: 3 });
    assert_eq!(gs.published_count(), before);
    let snapshot = gs.get_all_players();
    let stored = snapshot.get(&"a".to_string()).expect("entry present");
    assert_eq!(stored.position, Position { x: 0, y: 0, z: 0 });
}

#[test]
fn remove_present_broadcasts_player_left() {
    let mut gs = GameState::new();
    gs.add_player(player_with_id("a", "Ann"));
    let mut sub = gs.subscribe();
    gs.remove_player(&"a".to_string());
    match gs.recv(&mut sub) {
        RecvOutcome::Received(ServerMessage::PlayerLeft { player_id }) => {
            assert_eq!(player_id, "a");
        }
        _ => panic!("expected exactly one PlayerLeft broadcast"),
    }
    assert!(matches!(gs.recv(&mut sub), RecvOutcome::Empty));
    assert_eq!(gs.get_player_count(), 0);
    let snapshot = gs.get_all_players();
    assert!(snapshot.get(&"a".to_string()).is_none());
}

#[test]
fn chat_uses_current_stored_name() {
    let mut gs = GameState::new();
    gs.add_player(player_with_id("a", "Alice"));
    let mut sub = gs.subscribe();
    gs.send_chat_message(&"a".to_string(), "hi all".to_string());
    match gs.recv(&mut sub) {
        RecvOutcome::Received(ServerMessage::ChatMessage { player_name, message }) => {
            assert_eq!(player_name, "Alice");
            assert_eq!(message, "hi all");
        }
        _ => panic!("expected exactly one ChatMessage broadcast"),
    }
    assert!(matches!(gs.recv(&mut sub), RecvOutcome::Empty));
    assert_eq!(gs.get_player_count(), 1);
}

#[test]
fn chat_from_absent_id_broadcasts_nothing() {
    let mut gs = GameState::new();
    let before = gs.published_count();
    gs.send_chat_message(&"ghost".to_string(), "hello?".to_string());
    assert_eq!(gs.published_count(), before);
}

#[test]
fn first_join_scenario() {
    let mut gs = GameState::new();
    let mut sub = gs.subscribe();
    let mut st = SessionState::Unauthenticated;
    handle_client_message(
        ClientMessage::Join { player_name: "Anon".to_string() },
        &mut gs,
        &mut st,
    );
    assert_eq!(gs.get_player_count(), 1);
    let id = joined_id(&st);
    assert_eq!(id.len(), 36);
    match gs.recv(&mut sub) {
        RecvOutcome::Received(ServerMessage::PlayerJoined { player }) => {
            assert_eq!(player.id, id);
            assert_eq!(player.name, "Anon");
            assert_eq!(player.level, 1);
            assert_eq!(player.health, 100);
            assert_eq!(player.max_health, 100);
            assert_eq!(f32::from_bits(player.position.x), 0.0);
            assert_eq!(f32::from_bits(player.position.y), 0.0);
            assert_eq!(f32::from_bits(player.position.z), 0.0);
        }
        _ => panic!("expected a PlayerJoined broadcast"),
    }
    // Registry size is 1, so no game_state snapshot follows.
    assert!(matches!(gs.recv(&mut sub), RecvOutcome::Empty));
}

#[test]
fn second_join_scenario() {
    let mut gs = GameState::new();
    let mut st1 = SessionState::Unauthenticated;
    handle_client_message(
        ClientMessage::Join { player_name: "First".to_string() },
        &mut gs,
        &mut st1,
    );
    let first_id = joined_id(&st1);
    let mut sub = gs.subscribe();
    let mut st2 = SessionState::Unauthenticated;
    handle_client_message(
        ClientMessage::Join { player_name: "Second".to_string() },
        &mut gs,
        &mut st2,
    );
    let second_id = joined_id(&st2);
    assert_eq!(gs.get_player_count(), 2);
    match gs.recv(&mut sub) {
        RecvOutcome::Received(ServerMessage::PlayerJoined { player }) => {
            assert_eq!(player.id, second_id);
            assert_eq!(player.name, "Second");
        }
        _ => panic!("expected a PlayerJoined broadcast first"),
    }
    // The snapshot that follows holds exactly the other players: the first
    // player, not the newly joined one.
    match gs.recv(&mut sub) {
        RecvOutcome::Received(ServerMessage::GameState { players }) => {
            assert_eq!(players.len(), 1);
            let p = players.get(&first_id).expect("first player in snapshot");
            assert_eq!(p.name, "First");
            assert!(players.get(&second_id).is_none());
        }
        _ => panic!("expected a GameState snapshot second"),
    }
    assert!(matches!(gs.recv(&mut sub), RecvOutcome::Empty));
}

#[test]
fn lagged_subscriber_gets_skip_count_then_resumes() {
    let mut hub = BroadcastHub::new(3);
    let mut sub = hub.subscribe();
    for i in 0u32..7u32 {
        hub.publish(ServerMessage::PlayerLeft { player_id: format!("{}", i) });
    }
    // Capacity 3, 7 published: the 4 oldest were dropped for this subscriber.
    match hub.recv(&mut sub) {
        RecvOutcome::Lagged(skipped) => assert_eq!(skipped, 4),
        _ => panic!("expected a lag notice"),
    }
    // Delivery resumes from the oldest surviving message, in order.
    for i in 4u32..7u32 {
        match hub.recv(&mut sub) {
            RecvOutcome::Received(ServerMessage::PlayerLeft { player_id }) => {
                assert_eq!(player_id, &format!("{}", i));
            }
            _ => panic!("expected delivery to resume"),
        }
    }
    assert!(matches!(hub.recv(&mut sub), RecvOutcome::Empty));
    // The subscription is not torn down: later messages still arrive.
    hub.publish(ServerMessage::PlayerLeft { player_id: "later".to_string() });
    match hub.recv(&mut sub) {
        RecvOutcome::Received(ServerMessage::PlayerLeft { player_id }) => {
            assert_eq!(player_id, "later");
        }
        _ => panic!("expected the subscription to keep working"),
    }
}

#[test]
fn subscriber_sees_only_messages_after_subscribing() {
    let mut hub = BroadcastHub::new(10);
    hub.publish(ServerMessage::PlayerLeft { player_id: "before".to_string() });
    let mut sub: Subscriber = hub.subscribe();
    assert!(matches!(hub.recv(&mut sub), RecvOutcome::Empty));
    hub.publish(ServerMessage::PlayerLeft { player_id: "after".to_string() });
    match hub.recv(&mut sub) {
        RecvOutcome::Received(ServerMessage::PlayerLeft { player_id }) => {
            assert_eq!(player_id, "after");
        }
        _ => panic!("expected only the later message"),
    }
}

#[test]
fn new_player_has_defaults_and_fresh_id() {
    let p = Player::new("Zed".to_string());
    assert_eq!(p.name, "Zed");
    assert_eq!(p.level, 1);
    assert_eq!(p.health, 100);
    assert_eq!(p.max_health, 100);
    assert_eq!(f32::from_bits(p.position.x), 0.0);
    assert_eq!(p.id.len(), 36);
    let q = Player::new("Zed".to_string());
    assert_ne!(p.id, q.id);
}

#[test]
fn session_step_directives() {
    let mut gs = GameState::new();
    let mut st = SessionState::Unauthenticated;
    assert!(matches!(
        session_step(SessionEvent::Malformed, &mut gs, &mut st),
        SessionDirective::Continue
    ));
    assert!(matches!(
        session_step(SessionEvent::HubLagged(5), &mut gs, &mut st),
        SessionDirective::Continue
    ));
    assert_eq!(gs.published_count(), 0);
    assert_eq!(gs.get_player_count(), 0);
    let msg = ServerMessage::PlayerLeft { player_id: "x".to_string() };
    match session_step(SessionEvent::Broadcast(msg), &mut gs, &mut st) {
        SessionDirective::Forward(ServerMessage::PlayerLeft { player_id }) => {
            assert_eq!(player_id, "x");
        }
        _ => panic!("a broadcast is forwarded unchanged"),
    }
    assert!(matches!(
        session_step(SessionEvent::ClientClosed, &mut gs, &mut st),
        SessionDirective::Terminate
    ));
    assert!(matches!(
        session_step(SessionEvent::HubClosed, &mut gs, &mut st),
        SessionDirective::Terminate
    ));
}

#[test]
fn session_step_dispatches_commands() {
    let mut gs = GameState::new();
    let mut st = SessionState::Unauthenticated;
    let d = session_step(
        SessionEvent::Command(ClientMessage::Join { player_name: "Ann".to_string() }),
        &mut gs,
        &mut st,
    );
    assert!(matches!(d, SessionDirective::Continue));
    assert_eq!(gs.get_player_count(), 1);
    assert!(matches!(st, SessionState::Joined(_)));
}

#[test]
fn session_finish_deregisters_joined_player() {
    let mut gs = GameState::new();
    let mut st = SessionState::Unauthenticated;
    handle_client_message(
        ClientMessage::Join { player_name: "Ann".to_string() },
        &mut gs,
        &mut st,
    );
    let id = joined_id(&st);
    let mut sub = gs.subscribe();
    session_finish(&mut gs, st);
    assert_eq!(gs.get_player_count(), 0);
    match gs.recv(&mut sub) {
        RecvOutcome::Received(ServerMessage::PlayerLeft { player_id }) => {
            assert_eq!(player_id, &id);
        }
        _ => panic!("expected a PlayerLeft broadcast on cleanup"),
    }
}

#[test]
fn session_finish_unauthenticated_is_noop() {
    let mut gs = GameState::new();
    gs.add_player(player_with_id("a", "Ann"));
    let before = gs.published_count();
    session_finish(&mut gs, SessionState::Unauthenticated);
    assert_eq!(gs.get_player_count(), 1);
    assert_eq!(gs.published_count(), before);
}

#[test]
fn table_tracks_entries() {
    let mut t = PlayerTable::new();
    assert_eq!(t.len(), 0);
    t.insert(player_with_id("a", "Ann"));
    t.insert(player_with_id("b", "Ben"));
    assert_eq!(t.len(), 2);
    t.insert(player_with_id("a", "Ann renamed"));
    assert_eq!(t.len(), 2);
    assert_eq!(t.get(&"a".to_string()).expect("present").name, "Ann renamed");
    let without_a = t.without(&"a".to_string());
    assert_eq!(without_a.len(), 1);
    assert!(without_a.get(&"a".to_string()).is_none());
    assert!(without_a.get(&"b".to_string()).is_some());
    let removed = t.remove(&"b".to_string()).expect("present");
    assert_eq!(removed.name, "Ben");
    assert_eq!(t.len(), 1);
    assert!(t.remove(&"b".to_string()).is_none());
    assert_eq!(t.len(), 1);
}
