//! The player registry: the exclusive owner of the canonical mapping from
//! player identifier to player state. Every mutation publishes the matching
//! broadcast through the hub; readers get counts and snapshots.

use vstd::prelude::*;

use crate::hub::{BroadcastHub, RecvOutcome, Subscriber};
use crate::types::{Player, PlayerId, PlayerTable, Position, ServerMessage};

verus! {

/// There is some registered player other than `id`.
pub open spec fn has_other_player(m: Map<Seq<char>, Player>, id: Seq<char>) -> bool {
    exists|k: Seq<char>| #[trigger] m.contains_key(k) && k != id
}

/// Some player other than `id` is registered in `m` exactly when removing
/// `id` leaves a non-empty mapping.
proof fn lemma_has_other_player(m: Map<Seq<char>, Player>, id: Seq<char>)
    requires
        m.dom().finite(),
    ensures
        has_other_player(m, id) <==> m.remove(id).dom().len() > 0,
{
    assert(m.remove(id).dom() =~= m.dom().remove(id));
    if has_other_player(m, id) {
        let k = choose|k: Seq<char>| #[trigger] m.contains_key(k) && k != id;
        assert(m.remove(id).dom().contains(k));
        if m.remove(id).dom().len() == 0 {
            m.remove(id).dom().lemma_len0_is_empty();
        }
    }
    if m.remove(id).dom().len() > 0 && !has_other_player(m, id) {
        assert(m.remove(id).dom() =~= Set::empty()) by {
            assert forall|k: Seq<char>| !(#[trigger] m.remove(id).dom().contains(k)) by {
                if m.remove(id).dom().contains(k) {
                    assert(m.contains_key(k) && k != id);
                }
            }
        }
    }
}

/// The registry's size is the number of distinct identifiers present:
/// adding a fresh identifier grows it by one, overwriting an existing one
/// leaves it unchanged.
pub proof fn lemma_add_player_size_law(pre: GameState, post: GameState, player: Player)
    requires
        add_player_effect(pre, post, player),
        pre.players().dom().finite(),
    ensures
        post.players().dom().finite(),
        !pre.players().contains_key(player.id@) ==> post.players().dom().len()
            == pre.players().dom().len() + 1,
        pre.players().contains_key(player.id@) ==> post.players().dom().len()
            == pre.players().dom().len(),
{
    assert(post.players().dom() =~= pre.players().dom().insert(player.id@));
}

/// Removing a present identifier shrinks the registry's size by one;
/// removing an absent one changes neither the size nor the broadcast log.
pub proof fn lemma_remove_player_size_law(pre: GameState, post: GameState, player_id: String)
    requires
        remove_player_effect(pre, post, player_id),
        pre.players().dom().finite(),
    ensures
        post.players().dom().finite(),
        pre.players().contains_key(player_id@) ==> post.players().dom().len()
            == pre.players().dom().len() - 1,
        !pre.players().contains_key(player_id@) ==> post.players().dom().len()
            == pre.players().dom().len() && post.log() == pre.log(),
{
    if pre.players().contains_key(player_id@) {
        assert(post.players().dom() =~= pre.players().dom().remove(player_id@));
    }
}

/// A position update on a present identifier stores exactly the new position
/// and appends exactly one `PlayerMoved` broadcast carrying it; on an absent
/// identifier it mutates nothing and broadcasts nothing.
pub proof fn lemma_update_position_law(
    pre: GameState,
    post: GameState,
    player_id: String,
    p: Position,
)
    requires
        update_position_effect(pre, post, player_id, p),
    ensures
        pre.players().contains_key(player_id@) ==> {
            &&& post.players().contains_key(player_id@)
            &&& post.players()[player_id@].position == p
            &&& post.log() == pre.log().push(
                ServerMessage::PlayerMoved { player_id, position: p },
            )
            &&& post.log().len() == pre.log().len() + 1
        },
        !pre.players().contains_key(player_id@) ==> {
            &&& post.players() == pre.players()
            &&& post.log() == pre.log()
        },
{
}

/// Removing a present player appends exactly one `PlayerLeft` broadcast and
/// leaves its identifier absent from the registry; removing an absent one
/// mutates nothing and broadcasts nothing.
pub proof fn lemma_remove_player_law(pre: GameState, post: GameState, player_id: String)
    requires
        remove_player_effect(pre, post, player_id),
    ensures
        pre.players().contains_key(player_id@) ==> {
            &&& !post.players().contains_key(player_id@)
            &&& post.log() == pre.log().push(ServerMessage::PlayerLeft { player_id })
            &&& post.log().len() == pre.log().len() + 1
        },
        !pre.players().contains_key(player_id@) ==> {
            &&& post.players() == pre.players()
            &&& post.log() == pre.log()
        },
{
}

/// The registry together with the hub its mutations publish into. One value
/// of this type is created at system start and shared by every session.
pub struct GameState {
    table: PlayerTable,
    hub: BroadcastHub,
}

/// What registering `player` does: its record is inserted under its
/// identifier, one `PlayerJoined` is published, and — exactly when some other
/// player was already registered — one `GameState` snapshot follows, holding
/// every registered player except the new one.
pub open spec fn add_player_effect(pre: GameState, post: GameState, player: Player) -> bool {
    &&& post.wf()
    &&& post.cap() == pre.cap()
    &&& post.players() == pre.players().insert(player.id@, player)
    &&& if has_other_player(pre.players(), player.id@) {
        exists|t: PlayerTable|
            {
                &&& #[trigger] t.wf()
                &&& t@ == pre.players().remove(player.id@)
                &&& post.log() == pre.log().push(ServerMessage::PlayerJoined { player }).push(
                    ServerMessage::GameState { players: t },
                )
            }
    } else {
        post.log() == pre.log().push(ServerMessage::PlayerJoined { player })
    }
}

/// What removing `player_id` does: if present, exactly its entry leaves the
/// mapping and exactly one `PlayerLeft` is published; if absent, nothing
/// changes and nothing is published.
pub open spec fn remove_player_effect(pre: GameState, post: GameState, player_id: String) -> bool {
    &&& post.wf()
    &&& post.cap() == pre.cap()
    &&& if pre.players().contains_key(player_id@) {
        &&& post.players() == pre.players().remove(player_id@)
        &&& post.log() == pre.log().push(ServerMessage::PlayerLeft { player_id })
    } else {
        &&& post.players() == pre.players()
        &&& post.log() == pre.log()
    }
}

/// What a position update does: if `player_id` is present, only its position
/// field changes and exactly one `PlayerMoved` carrying the new position is
/// published; if absent, nothing changes and nothing is published.
pub open spec fn update_position_effect(
    pre: GameState,
    post: GameState,
    player_id: String,
    new_position: Position,
) -> bool {
    &&& post.wf()
    &&& post.cap() == pre.cap()
    &&& if pre.players().contains_key(player_id@) {
        &&& post.players() == pre.players().insert(
            player_id@,
            Player { position: new_position, ..pre.players()[player_id@] },
        )
        &&& post.log() == pre.log().push(
            ServerMessage::PlayerMoved { player_id, position: new_position },
        )
    } else {
        &&& post.players() == pre.players()
        &&& post.log() == pre.log()
    }
}

/// What a chat command does: the registry is never mutated; if `player_id` is
/// present, exactly one `ChatMessage` carrying that player's current stored
/// name is published; if absent, nothing is published.
pub open spec fn chat_message_effect(
    pre: GameState,
    post: GameState,
    player_id: String,
    message: String,
) -> bool {
    &&& post.wf()
    &&& post.cap() == pre.cap()
    &&& post.players() == pre.players()
    &&& if pre.players().contains_key(player_id@) {
        post.log() == pre.log().push(
            ServerMessage::ChatMessage { player_name: pre.players()[player_id@].name, message },
        )
    } else {
        post.log() == pre.log()
    }
}

impl GameState {
    /// The canonical mapping from player identifier to player state.
    pub closed spec fn players(&self) -> Map<Seq<char>, Player> {
        self.table@
    }

    /// Every message published so far, in publish order.
    pub closed spec fn log(&self) -> Seq<ServerMessage> {
        self.hub.log()
    }

    /// The hub's per-subscriber buffer capacity.
    pub closed spec fn cap(&self) -> nat {
        self.hub.cap()
    }

    /// The log position of the oldest message the hub still retains.
    pub open spec fn first_retained(&self) -> int {
        if self.log().len() <= self.cap() {
            0
        } else {
            self.log().len() - self.cap()
        }
    }

    /// The registry's identifiers are distinct and the hub's window is sound.
    pub closed spec fn wf(&self) -> bool {
        self.table.wf() && self.hub.wf()
    }

    /// An empty registry whose hub buffers up to 1000 outstanding messages
    /// per subscriber.
    pub fn new() -> (r: GameState)
        ensures
            r.wf(),
            r.players() == Map::<Seq<char>, Player>::empty(),
            r.log() == Seq::<ServerMessage>::empty(),
            r.cap() == 1000,
    {
        GameState { table: PlayerTable::new(), hub: BroadcastHub::new(1000) }
    }

    /// A new independent subscription, positioned after everything published
    /// so far: it observes only later broadcasts.
    pub fn subscribe(&self) -> (r: Subscriber)
        requires
            self.wf(),
        ensures
            r.pos() == self.log().len(),
    {
        self.hub.subscribe()
    }

    /// One receive attempt for `sub` against this registry's hub; see
    /// `BroadcastHub::recv`.
    pub fn recv<'a>(&'a self, sub: &mut Subscriber) -> (r: RecvOutcome<'a>)
        requires
            self.wf(),
            old(sub).pos() <= self.log().len(),
        ensures
            final(sub).pos() <= self.log().len(),
            old(sub).pos() < self.first_retained() ==> {
                &&& r matches RecvOutcome::Lagged(k)
                    && k == self.first_retained() - old(sub).pos()
                &&& final(sub).pos() == self.first_retained()
            },
            self.first_retained() <= old(sub).pos() && old(sub).pos() < self.log().len() ==> {
                &&& r matches RecvOutcome::Received(m)
                    && *m == self.log()[old(sub).pos() as int]
                &&& final(sub).pos() == old(sub).pos() + 1
            },
            old(sub).pos() == self.log().len() ==> {
                &&& r is Empty
                &&& final(sub).pos() == old(sub).pos()
            },
    {
        self.hub.recv(sub)
    }

    /// The number of messages published so far.
    pub fn published_count(&self) -> (r: usize)
        requires
            self.wf(),
        ensures
            r == self.log().len(),
    {
        self.hub.published_count()
    }

    /// Register `player` under its identifier (overwriting any record already
    /// stored under it) and publish `PlayerJoined` with the new record. If any
    /// *other* player is registered, additionally publish a `GameState`
    /// snapshot holding every registered player except the new one — sent to
    /// all subscribers, preserving the observed wire behaviour.
    pub fn add_player(&mut self, player: Player)
        requires
            old(self).wf(),
            old(self).log().len() + 2 <= usize::MAX,
        ensures
            add_player_effect(*old(self), *final(self), player),
    {
        let ghost m = self.table@;
        let copy = player.clone();
        let id = player.id.clone();
        self.table.insert(player);
        self.hub.publish(ServerMessage::PlayerJoined { player: copy });
        let ghost m2 = self.table@;
        proof {
            assert(m2.remove(id@) =~= m.remove(id@));
        }
        let count = self.table.len();
        proof {
            assert(m2.dom().remove(id@) =~= m2.remove(id@).dom());
            lemma_has_other_player(m2, id@);
            assert(has_other_player(m, id@) <==> has_other_player(m2, id@)) by {
                if has_other_player(m, id@) {
                    let k = choose|k: Seq<char>| #[trigger] m.contains_key(k) && k != id@;
                    assert(m2.contains_key(k));
                }
                if has_other_player(m2, id@) {
                    let k = choose|k: Seq<char>| #[trigger] m2.contains_key(k) && k != id@;
                    assert(m.contains_key(k));
                }
            }
        }
        if count > 1 {
            let others = self.table.without(&id);
            let ghost o = others;
            if others.len() > 0 {
                self.hub.publish(ServerMessage::GameState { players: others });
                proof {
                    assert(o.wf() && o@ == m.remove(id@));
                }
            }
        }
    }

    /// Remove the player registered under `player_id`, if any, and publish
    /// `PlayerLeft` for it. Removing an absent identifier mutates nothing and
    /// publishes nothing.
    pub fn remove_player(&mut self, player_id: &PlayerId)
        requires
            old(self).wf(),
            old(self).log().len() + 1 <= usize::MAX,
        ensures
            remove_player_effect(*old(self), *final(self), *player_id),
    {
        match self.table.remove(player_id) {
            Some(_removed) => {
                self.hub.publish(ServerMessage::PlayerLeft { player_id: player_id.clone() });
            }
            None => {}
        }
    }

    /// If `player_id` is registered, overwrite its position with
    /// `new_position` and publish exactly one `PlayerMoved` carrying both;
    /// otherwise mutate nothing and publish nothing.
    pub fn update_player_position(&mut self, player_id: &PlayerId, new_position: Position)
        requires
            old(self).wf(),
            old(self).log().len() + 1 <= usize::MAX,
        ensures
            update_position_effect(*old(self), *final(self), *player_id, new_position),
    {
        let moved: Option<Player> = match self.table.get(player_id) {
            Some(p) => {
                let mut np = p.clone();
                np.position = new_position;
                Some(np)
            }
            None => None,
        };
        match moved {
            Some(np) => {
                self.table.insert(np);
                self.hub.publish(
                    ServerMessage::PlayerMoved {
                        player_id: player_id.clone(),
                        position: new_position,
                    },
                );
            }
            None => {}
        }
    }

    /// If `player_id` is registered, publish exactly one `ChatMessage`
    /// carrying that player's *current* stored name and the text; otherwise
    /// publish nothing. The registry itself is never mutated.
    pub fn send_chat_message(&mut self, player_id: &PlayerId, message: String)
        requires
            old(self).wf(),
            old(self).log().len() + 1 <= usize::MAX,
        ensures
            chat_message_effect(*old(self), *final(self), *player_id, message),
    {
        let name: Option<String> = match self.table.get(player_id) {
            Some(p) => Some(p.name.clone()),
            None => None,
        };
        match name {
            Some(player_name) => {
                self.hub.publish(ServerMessage::ChatMessage { player_name, message });
            }
            None => {}
        }
    }

    /// The number of players currently registered: the number of distinct
    /// identifiers present.
    pub fn get_player_count(&self) -> (r: usize)
        requires
            self.wf(),
        ensures
            r == self.players().dom().len(),
            self.players().dom().finite(),
    {
        self.table.len()
    }

    /// A copy of the full mapping.
    pub fn get_all_players(&self) -> (r: PlayerTable)
        requires
            self.wf(),
        ensures
            r.wf(),
            r@ == self.players(),
    {
        self.table.clone()
    }
}

} // verus!
