//! The description of a game server that the SDK reads and writes: its
//! metadata, its spec and its status, as the Agones SDK protocol lays them out.

use vstd::prelude::*;

use crate::game_server_state::{state_name, GameServerState};
use crate::key_map::KeyMap;

verus! {

// ---------------------------------------------------------------------------
// The types and their views
// ---------------------------------------------------------------------------

/// The whole description of a game server.
#[derive(Debug)]
pub struct GameServer {
    pub object_meta: Option<ObjectMeta>,
    pub spec: Option<Spec>,
    pub status: Option<Status>,
}

/// The Kubernetes metadata of a game server.
#[derive(Debug)]
pub struct ObjectMeta {
    pub name: String,
    pub namespace: String,
    pub uid: String,
    pub resource_version: String,
    pub generation: i64,
    pub creation_timestamp: i64,
    pub deletion_timestamp: i64,
    pub annotations: KeyMap<String>,
    pub labels: KeyMap<String>,
}

/// The configuration of a game server.
#[derive(Clone, Copy, Debug, PartialEq, Eq, Structural)]
pub struct Spec {
    pub health: Option<Health>,
}

/// The health checking configuration of a game server.
#[derive(Clone, Copy, Debug, PartialEq, Eq, Structural)]
pub struct Health {
    pub disabled: bool,
    pub period_seconds: i32,
    pub failure_threshold: i32,
    pub initial_delay_seconds: i32,
}

/// What is known of a running game server.
#[derive(Debug)]
pub struct Status {
    pub state: String,
    pub address: String,
    pub addresses: Vec<Address>,
    pub ports: Vec<Port>,
    pub players: Option<PlayerStatus>,
    pub counters: KeyMap<CounterStatus>,
    pub lists: KeyMap<ListStatus>,
}

/// One address of the node that a game server runs on.
#[derive(Debug)]
pub struct Address {
    pub address: String,
    pub address_type: String,
}

/// A port that a game server listens on.
#[derive(Debug)]
pub struct Port {
    pub name: String,
    pub port: i32,
}

/// The players tracked on a game server.
#[derive(Debug)]
pub struct PlayerStatus {
    pub count: i64,
    pub capacity: i64,
    pub ids: Vec<String>,
}

/// A counter kept on a game server.
#[derive(Clone, Copy, Debug, PartialEq, Eq, Structural)]
pub struct CounterStatus {
    pub count: i64,
    pub capacity: i64,
}

/// A list of values kept on a game server.
#[derive(Debug)]
pub struct ListStatus {
    pub capacity: i64,
    pub values: Vec<String>,
}

#[verifier::ext_equal]
pub struct GameServerView {
    pub object_meta: Option<ObjectMetaView>,
    pub spec: Option<Spec>,
    pub status: Option<StatusView>,
}

#[verifier::ext_equal]
pub struct ObjectMetaView {
    pub name: Seq<char>,
    pub namespace: Seq<char>,
    pub uid: Seq<char>,
    pub resource_version: Seq<char>,
    pub generation: i64,
    pub creation_timestamp: i64,
    pub deletion_timestamp: i64,
    pub annotations: Map<Seq<char>, Seq<char>>,
    pub labels: Map<Seq<char>, Seq<char>>,
}

#[verifier::ext_equal]
pub struct StatusView {
    pub state: Seq<char>,
    pub address: Seq<char>,
    pub addresses: Seq<AddressView>,
    pub ports: Seq<PortView>,
    pub players: Option<PlayerStatusView>,
    pub counters: Map<Seq<char>, CounterStatus>,
    pub lists: Map<Seq<char>, ListStatusView>,
}

pub struct AddressView {
    pub address: Seq<char>,
    pub address_type: Seq<char>,
}

pub struct PortView {
    pub name: Seq<char>,
    pub port: i32,
}

#[verifier::ext_equal]
pub struct PlayerStatusView {
    pub count: i64,
    pub capacity: i64,
    pub ids: Seq<Seq<char>>,
}

#[verifier::ext_equal]
pub struct ListStatusView {
    pub capacity: i64,
    pub values: Seq<Seq<char>>,
}

/// The views of a list of strings.
pub open spec fn strings_view(v: Seq<String>) -> Seq<Seq<char>> {
    v.map_values(|s: String| s@)
}

impl View for Address {
    type V = AddressView;

    open spec fn view(&self) -> AddressView {
        AddressView { address: self.address@, address_type: self.address_type@ }
    }
}

impl View for Port {
    type V = PortView;

    open spec fn view(&self) -> PortView {
        PortView { name: self.name@, port: self.port }
    }
}

impl View for PlayerStatus {
    type V = PlayerStatusView;

    open spec fn view(&self) -> PlayerStatusView {
        PlayerStatusView { count: self.count, capacity: self.capacity, ids: strings_view(self.ids@) }
    }
}

impl View for CounterStatus {
    type V = CounterStatus;

    open spec fn view(&self) -> CounterStatus {
        *self
    }
}

impl View for ListStatus {
    type V = ListStatusView;

    open spec fn view(&self) -> ListStatusView {
        ListStatusView { capacity: self.capacity, values: strings_view(self.values@) }
    }
}

impl View for Status {
    type V = StatusView;

    open spec fn view(&self) -> StatusView {
        StatusView {
            state: self.state@,
            address: self.address@,
            addresses: self.addresses@.map_values(|a: Address| a@),
            ports: self.ports@.map_values(|p: Port| p@),
            players: match self.players {
                Some(p) => Some(p@),
                None => None,
            },
            counters: self.counters@,
            lists: self.lists@,
        }
    }
}

impl View for ObjectMeta {
    type V = ObjectMetaView;

    open spec fn view(&self) -> ObjectMetaView {
        ObjectMetaView {
            name: self.name@,
            namespace: self.namespace@,
            uid: self.uid@,
            resource_version: self.resource_version@,
            generation: self.generation,
            creation_timestamp: self.creation_timestamp,
            deletion_timestamp: self.deletion_timestamp,
            annotations: self.annotations@,
            labels: self.labels@,
        }
    }
}

impl View for GameServer {
    type V = GameServerView;

    open spec fn view(&self) -> GameServerView {
        GameServerView {
            object_meta: match self.object_meta {
                Some(m) => Some(m@),
                None => None,
            },
            spec: self.spec,
            status: match self.status {
                Some(s) => Some(s@),
                None => None,
            },
        }
    }
}

// ---------------------------------------------------------------------------
// Empty values
// ---------------------------------------------------------------------------

impl ObjectMetaView {
    /// Metadata with every string empty, every number zero and no entries.
    pub open spec fn empty() -> ObjectMetaView {
        ObjectMetaView {
            name: Seq::empty(),
            namespace: Seq::empty(),
            uid: Seq::empty(),
            resource_version: Seq::empty(),
            generation: 0,
            creation_timestamp: 0,
            deletion_timestamp: 0,
            annotations: Map::empty(),
            labels: Map::empty(),
        }
    }
}

impl StatusView {
    /// A status with every string empty and nothing in it.
    pub open spec fn empty() -> StatusView {
        StatusView {
            state: Seq::empty(),
            address: Seq::empty(),
            addresses: Seq::empty(),
            ports: Seq::empty(),
            players: None,
            counters: Map::empty(),
            lists: Map::empty(),
        }
    }
}

impl GameServerView {
    /// A game server with no metadata, spec or status.
    pub open spec fn empty() -> GameServerView {
        GameServerView { object_meta: None, spec: None, status: None }
    }
}

impl Default for ObjectMeta {
    fn default() -> (r: ObjectMeta)
        ensures
            r@ == ObjectMetaView::empty(),
            r@ == (ObjectMetaView {
                name: Seq::empty(),
                namespace: Seq::empty(),
                uid: Seq::empty(),
                resource_version: Seq::empty(),
                generation: 0,
                creation_timestamp: 0,
                deletion_timestamp: 0,
                annotations: Map::empty(),
                labels: Map::empty(),
            }),
    {
        ObjectMeta {
            name: String::new(),
            namespace: String::new(),
            uid: String::new(),
            resource_version: String::new(),
            generation: 0,
            creation_timestamp: 0,
            deletion_timestamp: 0,
            annotations: KeyMap::new(),
            labels: KeyMap::new(),
        }
    }
}

impl Default for Status {
    fn default() -> (r: Status)
        ensures
            r@ == StatusView::empty(),
            r@ == (StatusView {
                state: Seq::empty(),
                address: Seq::empty(),
                addresses: Seq::empty(),
                ports: Seq::empty(),
                players: None,
                counters: Map::empty(),
                lists: Map::empty(),
            }),
    {
        let r = Status {
            state: String::new(),
            address: String::new(),
            addresses: Vec::new(),
            ports: Vec::new(),
            players: None,
            counters: KeyMap::new(),
            lists: KeyMap::new(),
        };
        assert(r@ =~= StatusView::empty());
        r
    }
}

impl Default for GameServer {
    fn default() -> (r: GameServer)
        ensures
            r@ == GameServerView::empty(),
            r@.object_meta is None && r@.spec is None && r@.status is None,
    {
        GameServer { object_meta: None, spec: None, status: None }
    }
}

// ---------------------------------------------------------------------------
// Changes
// ---------------------------------------------------------------------------

impl GameServerView {
    /// The status, or the empty status where there is none.
    pub open spec fn status_or_empty(self) -> StatusView {
        match self.status {
            Some(s) => s,
            None => StatusView::empty(),
        }
    }

    /// The metadata, or the empty metadata where there is none.
    pub open spec fn meta_or_empty(self) -> ObjectMetaView {
        match self.object_meta {
            Some(m) => m,
            None => ObjectMetaView::empty(),
        }
    }

    /// This game server with `status.state` set to `name`, a status being
    /// made first where there is none.
    pub open spec fn with_state_name(self, name: Seq<char>) -> GameServerView {
        GameServerView {
            status: Some(StatusView { state: name, ..self.status_or_empty() }),
            ..self
        }
    }

    /// This game server with the label `key` set to `value`, metadata being
    /// made first where there is none.
    pub open spec fn with_label(self, key: Seq<char>, value: Seq<char>) -> GameServerView {
        GameServerView {
            object_meta: Some(
                ObjectMetaView {
                    labels: self.meta_or_empty().labels.insert(key, value),
                    ..self.meta_or_empty()
                },
            ),
            ..self
        }
    }

    /// This game server with the annotation `key` set to `value`, metadata
    /// being made first where there is none.
    pub open spec fn with_annotation(self, key: Seq<char>, value: Seq<char>) -> GameServerView {
        GameServerView {
            object_meta: Some(
                ObjectMetaView {
                    annotations: self.meta_or_empty().annotations.insert(key, value),
                    ..self.meta_or_empty()
                },
            ),
            ..self
        }
    }
}

impl GameServer {
    /// Sets `status.state` to the name of `state`, making a status first
    /// where there is none.
    pub fn set_state(&mut self, state: GameServerState)
        ensures
            final(self)@ == old(self)@.with_state_name(state_name(state)),
    {
        let mut status = self.status.take().unwrap_or_default();
        status.state = state.to_string();
        self.status = Some(status);
        assert(self@ =~= old(self)@.with_state_name(state_name(state)));
    }

    /// Sets the label `key` to `value`, making metadata first where there is
    /// none.
    pub fn set_label(&mut self, key: String, value: String)
        ensures
            final(self)@ == old(self)@.with_label(key@, value@),
    {
        let mut meta = self.object_meta.take().unwrap_or_default();
        meta.labels.insert(key, value);
        self.object_meta = Some(meta);
        assert(self@ =~= old(self)@.with_label(key@, value@));
    }

    /// Sets the annotation `key` to `value`, making metadata first where
    /// there is none.
    pub fn set_annotation(&mut self, key: String, value: String)
        ensures
            final(self)@ == old(self)@.with_annotation(key@, value@),
    {
        let mut meta = self.object_meta.take().unwrap_or_default();
        meta.annotations.insert(key, value);
        self.object_meta = Some(meta);
        assert(self@ =~= old(self)@.with_annotation(key@, value@));
    }
}

// ---------------------------------------------------------------------------
// Copies
// ---------------------------------------------------------------------------

/// Cloning keeps the view of every value of type `T`.
pub open spec fn clone_keeps_view<T: View + Clone>() -> bool {
    forall|v: T, w: T| #[trigger] cloned::<T>(v, w) ==> w@ == v@
}

proof fn lemma_string_clone_keeps_view()
    ensures
        clone_keeps_view::<String>(),
{
}

/// A copy of a list, each element cloned.
fn clone_list<T: View + Clone>(v: &Vec<T>) -> (r: Vec<T>)
    requires
        clone_keeps_view::<T>(),
    ensures
        r@.map_values(|t: T| t@) == v@.map_values(|t: T| t@),
{
    let mut r: Vec<T> = Vec::new();
    let n: usize = v.len();
    let mut i: usize = 0;
    while i < n
        invariant
            n == v@.len(),
            i <= n,
            r@.len() == i,
            clone_keeps_view::<T>(),
            forall|j: int| 0 <= j < i ==> (#[trigger] r@[j])@ == v@[j]@,
        decreases n - i,
    {
        let t = v[i].clone();
        assert(cloned::<T>(v@[i as int], t));
        r.push(t);
        i = i + 1;
    }
    assert(r@.map_values(|t: T| t@) =~= v@.map_values(|t: T| t@));
    r
}

impl Clone for Address {
    fn clone(&self) -> (r: Address)
        ensures
            r@ == self@,
    {
        Address { address: self.address.clone(), address_type: self.address_type.clone() }
    }
}

impl Clone for Port {
    fn clone(&self) -> (r: Port)
        ensures
            r@ == self@,
    {
        Port { name: self.name.clone(), port: self.port }
    }
}

impl Clone for PlayerStatus {
    fn clone(&self) -> (r: PlayerStatus)
        ensures
            r@ == self@,
    {
        proof {
            lemma_string_clone_keeps_view();
        }
        let ids = clone_list(&self.ids);
        assert(strings_view(ids@) =~= strings_view(self.ids@)) by {
            assert forall|j: int| 0 <= j < ids@.len() implies #[trigger] strings_view(ids@)[j]
                == strings_view(self.ids@)[j] by {
                assert(ids@.map_values(|t: String| t@)[j] == self.ids@.map_values(
                    |t: String| t@,
                )[j]);
            }
        }
        PlayerStatus { count: self.count, capacity: self.capacity, ids }
    }
}

impl Clone for ListStatus {
    fn clone(&self) -> (r: ListStatus)
        ensures
            r@ == self@,
    {
        proof {
            lemma_string_clone_keeps_view();
        }
        let values = clone_list(&self.values);
        assert(strings_view(values@) =~= strings_view(self.values@)) by {
            assert forall|j: int| 0 <= j < values@.len() implies #[trigger] strings_view(
                values@,
            )[j] == strings_view(self.values@)[j] by {
                assert(values@.map_values(|t: String| t@)[j] == self.values@.map_values(
                    |t: String| t@,
                )[j]);
            }
        }
        ListStatus { capacity: self.capacity, values }
    }
}

impl Clone for Status {
    fn clone(&self) -> (r: Status)
        ensures
            r@ == self@,
    {
        proof {
            assert(clone_keeps_view::<Address>());
            assert(clone_keeps_view::<Port>());
            assert(clone_keeps_view::<CounterStatus>());
            assert(clone_keeps_view::<ListStatus>());
        }
        let players = match &self.players {
            Some(p) => Some(p.clone()),
            None => None,
        };
        let r = Status {
            state: self.state.clone(),
            address: self.address.clone(),
            addresses: clone_list(&self.addresses),
            ports: clone_list(&self.ports),
            players,
            counters: self.counters.clone(),
            lists: self.lists.clone(),
        };
        assert(r@ =~= self@);
        r
    }
}

impl Clone for ObjectMeta {
    fn clone(&self) -> (r: ObjectMeta)
        ensures
            r@ == self@,
    {
        proof {
            lemma_string_clone_keeps_view();
        }
        let r = ObjectMeta {
            name: self.name.clone(),
            namespace: self.namespace.clone(),
            uid: self.uid.clone(),
            resource_version: self.resource_version.clone(),
            generation: self.generation,
            creation_timestamp: self.creation_timestamp,
            deletion_timestamp: self.deletion_timestamp,
            annotations: self.annotations.clone(),
            labels: self.labels.clone(),
        };
        assert(r@ =~= self@);
        r
    }
}

impl Clone for GameServer {
    fn clone(&self) -> (r: GameServer)
        ensures
            r@ == self@,
    {
        let object_meta = match &self.object_meta {
            Some(m) => Some(m.clone()),
            None => None,
        };
        let status = match &self.status {
            Some(s) => Some(s.clone()),
            None => None,
        };
        GameServer { object_meta, spec: self.spec, status }
    }
}

} // verus!
