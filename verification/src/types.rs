//! Data model: players, positions, and the tagged command / message unions
//! exchanged between sessions and the registry.

use vstd::prelude::*;

verus! {

/// A point in the game world. Each coordinate is the IEEE-754 bit pattern of a
/// 32-bit float; the registry only stores and forwards positions, it never
/// computes with them, so the bits are carried as plain integers and the
/// transport layer converts to and from floats at the edge.
#[derive(Clone, Copy, PartialEq, Eq, Structural, Debug)]
pub struct Position {
    pub x: u32,
    pub y: u32,
    pub z: u32,
}

impl Position {
    /// The origin, where every freshly created player starts.
    pub fn origin() -> (r: Position)
        ensures
            r == (Position { x: 0, y: 0, z: 0 }),
    {
        Position { x: 0, y: 0, z: 0 }
    }
}

/// The canonical record for one connected player. Owned by the registry;
/// sessions only ever see copies carried inside broadcast messages.
pub struct Player {
    pub id: String,
    pub name: String,
    pub position: Position,
    pub level: u32,
    pub health: u32,
    pub max_health: u32,
}

/// Relies on `uuid::Uuid::new_v4` and its `Display` impl: the hyphenated text
/// form of a UUID is exactly 36 characters. The identifier itself is random,
/// so nothing more is stated about it; two calls may return anything.
#[verifier::external_body]
fn fresh_player_id() -> (r: String)
    ensures
        r@.len() == 36,
{
    uuid::Uuid::new_v4().to_string()
}

impl Player {
    /// A new player with a freshly generated identifier and default
    /// attributes: level 1, health 100/100, standing at the origin.
    pub fn new(name: String) -> (r: Player)
        ensures
            r.name == name,
            r.position == (Position { x: 0, y: 0, z: 0 }),
            r.level == 1,
            r.health == 100,
            r.max_health == 100,
            r.id@.len() == 36,
    {
        Player {
            id: fresh_player_id(),
            name,
            position: Position { x: 0, y: 0, z: 0 },
            level: 1,
            health: 100,
            max_health: 100,
        }
    }
}

impl Clone for Player {
    fn clone(&self) -> (r: Player)
        ensures
            r == *self,
    {
        Player {
            id: self.id.clone(),
            name: self.name.clone(),
            position: self.position,
            level: self.level,
            health: self.health,
            max_health: self.max_health,
        }
    }
}

/// The identifier of a player: the textual form of the UUID it was created
/// with. Identifiers are generated fresh at creation and never chosen by a
/// client.
pub type PlayerId = String;

/// The mathematical content of a sequence of player records: the finite
/// mapping from each record's identifier to the record, later entries
/// overriding earlier ones.
pub open spec fn player_map(s: Seq<Player>) -> Map<Seq<char>, Player>
    decreases s.len(),
{
    if s.len() == 0 {
        Map::empty()
    } else {
        player_map(s.drop_last()).insert(s.last().id@, s.last())
    }
}

/// No two records in the sequence share an identifier.
pub open spec fn distinct_ids(s: Seq<Player>) -> bool {
    forall|i: int, j: int| 0 <= i < j < s.len() ==> s[i].id@ != s[j].id@
}

/// The registry's size always equals the number of distinct identifiers
/// present: for records with pairwise distinct identifiers, the domain of the
/// derived mapping has exactly one key per record, each key names the record
/// it came from, and no other key is present.
pub proof fn lemma_player_map_props(s: Seq<Player>)
    requires
        distinct_ids(s),
    ensures
        player_map(s).dom().finite(),
        player_map(s).dom().len() == s.len(),
        forall|k: Seq<char>|
            #[trigger] player_map(s).contains_key(k) <==> exists|i: int|
                0 <= i < s.len() && #[trigger] s[i].id@ == k,
        forall|i: int|
            0 <= i < s.len() ==> player_map(s)[#[trigger] s[i].id@] == s[i],
    decreases s.len(),
{
    if s.len() == 0 {
    } else {
        let d = s.drop_last();
        let last = s.last();
        assert(distinct_ids(d)) by {
            assert(forall|i: int, j: int|
                0 <= i < j < d.len() ==> d[i] == s[i] && d[j] == s[j]);
        }
        lemma_player_map_props(d);
        assert(!player_map(d).contains_key(last.id@)) by {
            if player_map(d).contains_key(last.id@) {
                let i = choose|i: int| 0 <= i < d.len() && #[trigger] d[i].id@ == last.id@;
                assert(s[i].id@ == s[s.len() - 1].id@);
            }
        }
        assert forall|k: Seq<char>| #[trigger] player_map(s).contains_key(k) implies exists|i: int|
            0 <= i < s.len() && #[trigger] s[i].id@ == k by {
            if k == last.id@ {
                assert(s[s.len() - 1].id@ == k);
            } else {
                let i = choose|i: int| 0 <= i < d.len() && #[trigger] d[i].id@ == k;
                assert(s[i].id@ == k);
            }
        }
        assert forall|k: Seq<char>| (exists|i: int| 0 <= i < s.len() && #[trigger] s[i].id@ == k)
            implies #[trigger] player_map(s).contains_key(k) by {
            let i = choose|i: int| 0 <= i < s.len() && #[trigger] s[i].id@ == k;
            if i < s.len() - 1 {
                assert(d[i].id@ == k);
            }
        }
        assert forall|i: int| 0 <= i < s.len() implies player_map(s)[#[trigger] s[i].id@]
            == s[i] by {
            if i < s.len() - 1 {
                assert(d[i].id@ == s[i].id@ && d[i] == s[i]);
                assert(s[i].id@ != last.id@);
            }
        }
    }
}

/// Replacing the record at one index by a record with the same identifier is,
/// at the level of the mapping, an overwrite of that identifier's entry.
pub proof fn lemma_player_map_update(s: Seq<Player>, i: int, p: Player)
    requires
        distinct_ids(s),
        0 <= i < s.len(),
        s[i].id@ == p.id@,
    ensures
        distinct_ids(s.update(i, p)),
        player_map(s.update(i, p)) == player_map(s).insert(p.id@, p),
{
    let t = s.update(i, p);
    assert(distinct_ids(t)) by {
        assert(forall|j: int| 0 <= j < t.len() ==> t[j].id@ == s[j].id@);
    }
    lemma_player_map_props(s);
    lemma_player_map_props(t);
    assert(player_map(t) =~= player_map(s).insert(p.id@, p)) by {
        assert forall|k: Seq<char>| #[trigger] player_map(t).contains_key(k)
            <==> player_map(s).insert(p.id@, p).contains_key(k) by {
            if player_map(t).contains_key(k) {
                let j = choose|j: int| 0 <= j < t.len() && #[trigger] t[j].id@ == k;
                assert(s[j].id@ == k);
            }
            if player_map(s).contains_key(k) {
                let j = choose|j: int| 0 <= j < s.len() && #[trigger] s[j].id@ == k;
                assert(t[j].id@ == k);
            }
            if k == p.id@ {
                assert(t[i].id@ == k);
            }
        }
        assert forall|k: Seq<char>| #[trigger] player_map(t).contains_key(k)
            implies player_map(t)[k] == player_map(s).insert(p.id@, p)[k] by {
            let j = choose|j: int| 0 <= j < t.len() && #[trigger] t[j].id@ == k;
            if j == i {
                assert(player_map(t)[k] == p);
            } else {
                assert(t[j] == s[j] && s[j].id@ == k);
                assert(k != p.id@);
            }
        }
    }
}

/// Removing the record at one index removes exactly that record's identifier
/// from the mapping.
pub proof fn lemma_player_map_remove(s: Seq<Player>, i: int)
    requires
        distinct_ids(s),
        0 <= i < s.len(),
    ensures
        distinct_ids(s.remove(i)),
        player_map(s.remove(i)) == player_map(s).remove(s[i].id@),
{
    let t = s.remove(i);
    s.remove_ensures(i);
    assert(distinct_ids(t)) by {
        assert forall|a: int, b: int| 0 <= a < b < t.len() implies t[a].id@ != t[b].id@ by {
            let a0: int = if a < i { a } else { a + 1 };
            let b0: int = if b < i { b } else { b + 1 };
            assert(t[a] == s[a0] && t[b] == s[b0]);
        }
    }
    lemma_player_map_props(s);
    lemma_player_map_props(t);
    assert(player_map(t) =~= player_map(s).remove(s[i].id@)) by {
        assert forall|k: Seq<char>| #[trigger] player_map(t).contains_key(k)
            <==> player_map(s).remove(s[i].id@).contains_key(k) by {
            if player_map(t).contains_key(k) {
                let j = choose|j: int| 0 <= j < t.len() && #[trigger] t[j].id@ == k;
                let j0: int = if j < i { j } else { j + 1 };
                assert(s[j0].id@ == k);
                assert(k != s[i].id@);
            }
            if player_map(s).contains_key(k) && k != s[i].id@ {
                let j = choose|j: int| 0 <= j < s.len() && #[trigger] s[j].id@ == k;
                let j1: int = if j < i { j } else { j - 1 };
                assert(t[j1] == s[j]);
                assert(t[j1].id@ == k);
            }
        }
        assert forall|k: Seq<char>| #[trigger] player_map(t).contains_key(k)
            implies player_map(t)[k] == player_map(s).remove(s[i].id@)[k] by {
            let j = choose|j: int| 0 <= j < t.len() && #[trigger] t[j].id@ == k;
            let j0: int = if j < i { j } else { j + 1 };
            assert(t[j] == s[j0] && s[j0].id@ == k);
        }
    }
}

/// Appending a record with a fresh identifier extends the mapping by exactly
/// that record's entry.
pub proof fn lemma_player_map_push(s: Seq<Player>, p: Player)
    requires
        distinct_ids(s),
        forall|i: int| 0 <= i < s.len() ==> #[trigger] s[i].id@ != p.id@,
    ensures
        distinct_ids(s.push(p)),
        player_map(s.push(p)) == player_map(s).insert(p.id@, p),
{
    let t = s.push(p);
    assert(distinct_ids(t)) by {
        assert(forall|i: int| 0 <= i < s.len() ==> t[i] == s[i]);
        assert(t[t.len() - 1] == p);
    }
    assert(t.drop_last() =~= s);
    assert(t.last() == p);
}

/// The registry's storage: player records keyed by identifier, identifiers
/// pairwise distinct, no ordering relied upon. Its mathematical view is the
/// mapping from identifier to record.
pub struct PlayerTable {
    entries: Vec<Player>,
}

impl View for PlayerTable {
    type V = Map<Seq<char>, Player>;

    closed spec fn view(&self) -> Map<Seq<char>, Player> {
        player_map(self.entries@)
    }
}

impl PlayerTable {
    /// Identifiers of stored records are pairwise distinct.
    pub closed spec fn wf(&self) -> bool {
        distinct_ids(self.entries@)
    }

    /// An empty table.
    pub fn new() -> (r: PlayerTable)
        ensures
            r.wf(),
            r@ == Map::<Seq<char>, Player>::empty(),
    {
        PlayerTable { entries: Vec::new() }
    }

    /// The number of players present: exactly the number of distinct
    /// identifiers in the mapping.
    pub fn len(&self) -> (r: usize)
        requires
            self.wf(),
        ensures
            r == self@.dom().len(),
            self@.dom().finite(),
    {
        proof {
            lemma_player_map_props(self.entries@);
        }
        self.entries.len()
    }

    /// The index of the record with the given identifier, if any.
    fn index_of(&self, id: &String) -> (r: Option<usize>)
        ensures
            match r {
                Some(i) => i < self.entries@.len() && self.entries@[i as int].id@ == id@,
                None => forall|j: int|
                    0 <= j < self.entries@.len() ==> #[trigger] self.entries@[j].id@ != id@,
            },
    {
        let n = self.entries.len();
        let mut i: usize = 0;
        while i < n
            invariant
                n == self.entries@.len(),
                i <= n,
                forall|j: int| 0 <= j < i ==> #[trigger] self.entries@[j].id@ != id@,
            decreases n - i,
        {
            if self.entries[i].id == *id {
                return Some(i);
            }
            i += 1;
        }
        None
    }

    /// The record stored under `id`, if present.
    pub fn get(&self, id: &String) -> (r: Option<&Player>)
        requires
            self.wf(),
        ensures
            match r {
                Some(p) => self@.contains_key(id@) && *p == self@[id@] && p.id@ == id@,
                None => !self@.contains_key(id@),
            },
    {
        proof {
            lemma_player_map_props(self.entries@);
        }
        match self.index_of(id) {
            Some(i) => Some(&self.entries[i]),
            None => None,
        }
    }

    /// Insert `p` under its identifier, overwriting any record already stored
    /// under it.
    pub fn insert(&mut self, p: Player)
        requires
            old(self).wf(),
        ensures
            final(self).wf(),
            final(self)@ == old(self)@.insert(p.id@, p),
    {
        let ghost s = self.entries@;
        match self.index_of(&p.id) {
            Some(i) => {
                proof {
                    lemma_player_map_update(s, i as int, p);
                }
                self.entries.set(i, p);
            }
            None => {
                proof {
                    lemma_player_map_push(s, p);
                }
                self.entries.push(p);
            }
        }
    }

    /// Remove and return the record stored under `id`; removing an absent
    /// identifier is a no-op and returns nothing.
    pub fn remove(&mut self, id: &String) -> (r: Option<Player>)
        requires
            old(self).wf(),
        ensures
            final(self).wf(),
            match r {
                Some(p) => old(self)@.contains_key(id@) && p == old(self)@[id@]
                    && final(self)@ == old(self)@.remove(id@),
                None => !old(self)@.contains_key(id@) && *final(self) == *old(self),
            },
    {
        let ghost s = self.entries@;
        proof {
            lemma_player_map_props(s);
        }
        match self.index_of(id) {
            Some(i) => {
                proof {
                    lemma_player_map_remove(s, i as int);
                }
                Some(self.entries.remove(i))
            }
            None => None,
        }
    }

    /// The stored records themselves, for callers that need to walk them;
    /// their order carries no meaning.
    pub fn records(&self) -> (r: &Vec<Player>)
        ensures
            player_map(r@) == self@,
            distinct_ids(r@) == self.wf(),
    {
        &self.entries
    }

    /// A copy of the table with the record stored under `id` (if any) left
    /// out.
    pub fn without(&self, id: &String) -> (r: PlayerTable)
        requires
            self.wf(),
        ensures
            r.wf(),
            r@ == self@.remove(id@),
    {
        let mut r = self.clone();
        r.remove(id);
        proof {
            if !self@.contains_key(id@) {
                assert(self@.remove(id@) =~= self@);
            }
        }
        r
    }
}

impl Clone for PlayerTable {
    /// A copy with the same mapping.
    fn clone(&self) -> (r: PlayerTable)
        ensures
            r@ == self@,
            r.wf() == self.wf(),
    {
        let n = self.entries.len();
        let mut entries: Vec<Player> = Vec::new();
        let mut i: usize = 0;
        while i < n
            invariant
                n == self.entries@.len(),
                i <= n,
                entries@ == self.entries@.take(i as int),
            decreases n - i,
        {
            entries.push(self.entries[i].clone());
            proof {
                assert(entries@ =~= self.entries@.take(i + 1));
            }
            i += 1;
        }
        proof {
            assert(self.entries@.take(n as int) =~= self.entries@);
        }
        PlayerTable { entries }
    }
}

/// A command sent by a client to its session, dispatched by tag.
pub enum ClientMessage {
    Join { player_name: String },
    PlayerMove { position: Position },
    ChatMessage { message: String },
}

/// A message published through the hub to every subscribed session.
pub enum ServerMessage {
    PlayerJoined { player: Player },
    PlayerLeft { player_id: String },
    PlayerMoved { player_id: String, position: Position },
    ChatMessage { player_name: String, message: String },
    GameState { players: PlayerTable },
}

/// `a` and `b` carry the same variant and the same content; for a snapshot,
/// the same mapping of players.
pub open spec fn message_equiv(a: ServerMessage, b: ServerMessage) -> bool {
    match (a, b) {
        (
            ServerMessage::PlayerJoined { player: p1 },
            ServerMessage::PlayerJoined { player: p2 },
        ) => p1 == p2,
        (
            ServerMessage::PlayerLeft { player_id: i1 },
            ServerMessage::PlayerLeft { player_id: i2 },
        ) => i1 == i2,
        (
            ServerMessage::PlayerMoved { player_id: i1, position: q1 },
            ServerMessage::PlayerMoved { player_id: i2, position: q2 },
        ) => i1 == i2 && q1 == q2,
        (
            ServerMessage::ChatMessage { player_name: n1, message: m1 },
            ServerMessage::ChatMessage { player_name: n2, message: m2 },
        ) => n1 == n2 && m1 == m2,
        (
            ServerMessage::GameState { players: t1 },
            ServerMessage::GameState { players: t2 },
        ) => t1@ == t2@ && (t1.wf() <==> t2.wf()),
        _ => false,
    }
}

impl Clone for ServerMessage {
    /// A copy carrying the same content.
    fn clone(&self) -> (r: ServerMessage)
        ensures
            message_equiv(*self, r),
    {
        match self {
            ServerMessage::PlayerJoined { player } => ServerMessage::PlayerJoined {
                player: player.clone(),
            },
            ServerMessage::PlayerLeft { player_id } => ServerMessage::PlayerLeft {
                player_id: player_id.clone(),
            },
            ServerMessage::PlayerMoved { player_id, position } => ServerMessage::PlayerMoved {
                player_id: player_id.clone(),
                position: *position,
            },
            ServerMessage::ChatMessage { player_name, message } => ServerMessage::ChatMessage {
                player_name: player_name.clone(),
                message: message.clone(),
            },
            ServerMessage::GameState { players } => ServerMessage::GameState {
                players: players.clone(),
            },
        }
    }
}

} // verus!
