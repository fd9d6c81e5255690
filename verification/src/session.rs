//! The per-connection session: an explicit state machine that dispatches one
//! client's decoded commands to the registry and decides, for every event the
//! transport or the hub can produce, whether the session continues, forwards
//! a broadcast, or terminates. The event loop itself — waiting on whichever
//! of the two sources is ready — runs outside the library and feeds events in.

use vstd::prelude::*;

use crate::game_state::{
    GameState, add_player_effect, chat_message_effect, remove_player_effect,
    update_position_effect,
};
use crate::types::{ClientMessage, Player, PlayerId, Position, ServerMessage};

verus! {

/// A session's authentication state. Transitions only forward: a session
/// starts `Unauthenticated`, becomes `Joined` on its first successful join
/// command, and never goes back.
pub enum SessionState {
    Unauthenticated,
    Joined(PlayerId),
}

/// One occurrence the session loop can wake up on: a decoded inbound
/// command, an undecodable inbound payload, the client or transport going
/// away, or the hub handing this session's subscription a message, a lag
/// notice, or permanent closure.
pub enum SessionEvent {
    Command(ClientMessage),
    Malformed,
    ClientClosed,
    Broadcast(ServerMessage),
    HubLagged(u64),
    HubClosed,
}

/// What the loop must do after one event is serviced.
pub enum SessionDirective {
    /// Wait for the next event.
    Continue,
    /// Serialize this message out to the client, then wait for the next
    /// event; a send failure is a terminating condition of the transport.
    Forward(ServerMessage),
    /// Leave the loop and run the session's cleanup.
    Terminate,
}

/// What dispatching one decoded command does to the registry, the hub's log,
/// and the session state.
pub open spec fn client_message_effect(
    msg: ClientMessage,
    pre: GameState,
    post: GameState,
    pre_state: SessionState,
    post_state: SessionState,
) -> bool {
    match msg {
        ClientMessage::Join { player_name } => match pre_state {
            // A second join while already joined is a no-op.
            SessionState::Joined(_) => post == pre && post_state == pre_state,
            // A first join registers a freshly created player with default
            // attributes and moves the session forward to `Joined`.
            SessionState::Unauthenticated => exists|p: Player|
                {
                    &&& #[trigger] add_player_effect(pre, post, p)
                    &&& p.name == player_name
                    &&& p.level == 1
                    &&& p.health == 100
                    &&& p.max_health == 100
                    &&& p.position == (Position { x: 0, y: 0, z: 0 })
                    &&& p.id@.len() == 36
                    &&& post_state == SessionState::Joined(p.id)
                },
        },
        ClientMessage::PlayerMove { position } => match pre_state {
            SessionState::Joined(id) => update_position_effect(pre, post, id, position)
                && post_state == pre_state,
            // A move before any successful join never mutates the registry
            // and never produces a broadcast.
            SessionState::Unauthenticated => post == pre && post_state == pre_state,
        },
        ClientMessage::ChatMessage { message } => match pre_state {
            SessionState::Joined(id) => chat_message_effect(pre, post, id, message)
                && post_state == pre_state,
            // Chat before any successful join never mutates the registry and
            // never produces a broadcast.
            SessionState::Unauthenticated => post == pre && post_state == pre_state,
        },
    }
}

/// Issuing `Join` twice on the same session is idempotent: the first join
/// moves the session to `Joined`, so the second finds it there and leaves the
/// registry, the broadcast log and the session state exactly as the first
/// join left them — no new registry entry and no additional broadcast.
pub proof fn lemma_join_twice_idempotent(
    first_name: String,
    second_name: String,
    gs0: GameState,
    gs1: GameState,
    gs2: GameState,
    st0: SessionState,
    st1: SessionState,
    st2: SessionState,
)
    requires
        st0 is Unauthenticated,
        client_message_effect(
            ClientMessage::Join { player_name: first_name },
            gs0,
            gs1,
            st0,
            st1,
        ),
        client_message_effect(
            ClientMessage::Join { player_name: second_name },
            gs1,
            gs2,
            st1,
            st2,
        ),
    ensures
        gs2 == gs1,
        st2 == st1,
{
    let p = choose|p: Player|
        {
            &&& #[trigger] add_player_effect(gs0, gs1, p)
            &&& p.name == first_name
            &&& p.level == 1
            &&& p.health == 100
            &&& p.max_health == 100
            &&& p.position == (Position { x: 0, y: 0, z: 0 })
            &&& p.id@.len() == 36
            &&& st1 == SessionState::Joined(p.id)
        };
    assert(st1 is Joined);
}

/// A `Move` or `Chat` command issued before any successful join never
/// mutates the registry, never produces a broadcast, and leaves the session
/// unauthenticated.
pub proof fn lemma_command_before_join_is_noop(
    msg: ClientMessage,
    gs0: GameState,
    gs1: GameState,
    st0: SessionState,
    st1: SessionState,
)
    requires
        st0 is Unauthenticated,
        !(msg is Join),
        client_message_effect(msg, gs0, gs1, st0, st1),
    ensures
        gs1 == gs0,
        st1 == st0,
{
}

/// Dispatch one decoded client command, as the session loop does for every
/// inbound payload that decodes.
pub fn handle_client_message(
    msg: ClientMessage,
    game_state: &mut GameState,
    state: &mut SessionState,
)
    requires
        old(game_state).wf(),
        old(game_state).log().len() + 2 <= usize::MAX,
    ensures
        client_message_effect(
            msg,
            *old(game_state),
            *final(game_state),
            *old(state),
            *final(state),
        ),
{
    match msg {
        ClientMessage::Join { player_name } => {
            let already_joined = match state {
                SessionState::Joined(_) => true,
                SessionState::Unauthenticated => false,
            };
            if !already_joined {
                let player = Player::new(player_name);
                let ghost p0 = player;
                let id = player.id.clone();
                game_state.add_player(player);
                *state = SessionState::Joined(id);
                proof {
                    assert(add_player_effect(*old(game_state), *game_state, p0));
                }
            }
        }
        ClientMessage::PlayerMove { position } => match state {
            SessionState::Joined(id) => {
                game_state.update_player_position(id, position);
            }
            SessionState::Unauthenticated => {}
        },
        ClientMessage::ChatMessage { message } => match state {
            SessionState::Joined(id) => {
                game_state.send_chat_message(id, message);
            }
            SessionState::Unauthenticated => {}
        },
    }
}

/// Service one event of the session loop: dispatch a command, ignore a
/// malformed payload or a lag notice, forward a broadcast, or decide to
/// terminate. Lag is never terminating; closure of the client or of the hub
/// is.
pub fn session_step(
    event: SessionEvent,
    game_state: &mut GameState,
    state: &mut SessionState,
) -> (d: SessionDirective)
    requires
        old(game_state).wf(),
        old(game_state).log().len() + 2 <= usize::MAX,
    ensures
        match event {
            SessionEvent::Command(msg) => d == SessionDirective::Continue
                && client_message_effect(
                msg,
                *old(game_state),
                *final(game_state),
                *old(state),
                *final(state),
            ),
            SessionEvent::Malformed => d == SessionDirective::Continue
                && *final(game_state) == *old(game_state) && *final(state) == *old(state),
            SessionEvent::ClientClosed => d == SessionDirective::Terminate
                && *final(game_state) == *old(game_state) && *final(state) == *old(state),
            SessionEvent::Broadcast(m) => d == SessionDirective::Forward(m)
                && *final(game_state) == *old(game_state) && *final(state) == *old(state),
            SessionEvent::HubLagged(_) => d == SessionDirective::Continue
                && *final(game_state) == *old(game_state) && *final(state) == *old(state),
            SessionEvent::HubClosed => d == SessionDirective::Terminate
                && *final(game_state) == *old(game_state) && *final(state) == *old(state),
        },
{
    match event {
        SessionEvent::Command(msg) => {
            handle_client_message(msg, game_state, state);
            SessionDirective::Continue
        }
        SessionEvent::Malformed => SessionDirective::Continue,
        SessionEvent::ClientClosed => SessionDirective::Terminate,
        SessionEvent::Broadcast(m) => SessionDirective::Forward(m),
        SessionEvent::HubLagged(_) => SessionDirective::Continue,
        SessionEvent::HubClosed => SessionDirective::Terminate,
    }
}

/// The session's cleanup, run exactly once when its loop exits, whatever the
/// terminating condition was: a joined session deregisters its player, an
/// unauthenticated one leaves the registry untouched.
pub fn session_finish(game_state: &mut GameState, state: SessionState)
    requires
        old(game_state).wf(),
        old(game_state).log().len() + 1 <= usize::MAX,
    ensures
        match state {
            SessionState::Unauthenticated => *final(game_state) == *old(game_state),
            SessionState::Joined(id) => remove_player_effect(
                *old(game_state),
                *final(game_state),
                id,
            ),
        },
{
    match state {
        SessionState::Joined(id) => {
            game_state.remove_player(&id);
        }
        SessionState::Unauthenticated => {}
    }
}

} // verus!
