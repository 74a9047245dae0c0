//! The state that the SDK server keeps: one game server, changed by the SDK
//! calls and by whole replacements, each change handing back the value that
//! watchers are to be sent.

use vstd::prelude::*;

use crate::game_server::{GameServer, GameServerView, ObjectMetaView, StatusView};
use crate::game_server_state::{
    law_parse_state_name, law_state_names_are_identifiers, parse_state, state_name, GameServerState,
};

verus! {

/// The port that the Agones SDK listens on by default.
pub const DEFAULT_AGONES_PORT: u16 = 9357;

/// A store of one value of type `T` that can be read and replaced through a
/// shared reference.
pub trait Store<T> {
    /// The value held now.
    fn get(&self) -> T;

    /// Replaces the value held.
    fn set(&self, value: T);
}

/// An SDK call that changes the game server.
pub enum SdkCall {
    /// The game server is ready.
    Ready,
    /// The game server allocates itself.
    Allocate,
    /// The game server is shutting down.
    Shutdown,
    /// The game server is reserved for `seconds`; when they have passed,
    /// `GameServerStore::end_reservation` puts it back to `Ready`.
    Reserve { seconds: i64 },
    /// A label is set.
    SetLabel { key: Seq<char>, value: Seq<char> },
    /// An annotation is set.
    SetAnnotation { key: Seq<char>, value: Seq<char> },
}

/// The state that an SDK call puts the game server in, if it is one of the
/// calls that set a state.
pub open spec fn requested_state(call: SdkCall) -> Option<GameServerState> {
    match call {
        SdkCall::Ready => Some(GameServerState::Ready),
        SdkCall::Allocate => Some(GameServerState::Allocated),
        SdkCall::Shutdown => Some(GameServerState::Shutdown),
        SdkCall::Reserve { .. } => Some(GameServerState::Reserved),
        _ => None,
    }
}

/// The game server after an SDK call.
pub open spec fn apply_call(gs: GameServerView, call: SdkCall) -> GameServerView {
    match call {
        SdkCall::SetLabel { key, value } => gs.with_label(key, value),
        SdkCall::SetAnnotation { key, value } => gs.with_annotation(key, value),
        _ => match requested_state(call) {
            Some(state) => gs.with_state_name(state_name(state)),
            None => gs,
        },
    }
}

/// The time, on the server's clock in milliseconds, at which a reservation
/// made at `now` for `seconds` runs out: `seconds` later, or the end of the
/// clock where that lies beyond it. A reservation for no positive number of
/// seconds does not run out.
pub open spec fn reservation_deadline(now: u64, seconds: i64) -> Option<u64> {
    if seconds > 0 {
        if now + seconds * 1000 > u64::MAX {
            Some(u64::MAX)
        } else {
            Some((now + seconds * 1000) as u64)
        }
    } else {
        None
    }
}

/// Whether a reservation is due to end at `now`: the game server is still
/// in the `Reserved` state and its deadline has come.
pub open spec fn reservation_due(gs: GameServerView, deadline: Option<u64>, now: u64) -> bool {
    &&& deadline matches Some(d) && now >= d
    &&& gs.status matches Some(status) && status.state == state_name(GameServerState::Reserved)
}

/// The game server kept by the SDK server, and the time at which its
/// reservation runs out, if it has one.
pub struct GameServerStore {
    game_server: GameServer,
    reserved_until: Option<u64>,
}

impl View for GameServerStore {
    type V = GameServerView;

    closed spec fn view(&self) -> GameServerView {
        self.game_server@
    }
}

impl GameServerStore {
    /// The time, on the server's clock in milliseconds, at which the
    /// reservation runs out, if there is one.
    pub closed spec fn reserved_until(&self) -> Option<u64> {
        self.reserved_until
    }
}

impl Default for GameServerStore {
    /// A store that holds the empty game server and no reservation.
    fn default() -> (r: GameServerStore)
        ensures
            r@ == GameServerView::empty(),
            r@.object_meta is None && r@.spec is None && r@.status is None,
            r.reserved_until() is None,
    {
        GameServerStore { game_server: GameServer::default(), reserved_until: None }
    }
}

/// The deadline of a reservation made at `now` for `seconds`.
fn deadline_of(now: u64, seconds: i64) -> (r: Option<u64>)
    ensures
        r == reservation_deadline(now, seconds),
{
    if seconds <= 0 {
        return None;
    }
    let s = seconds as u64;
    let room: u64 = u64::MAX - now;
    if s > room / 1000 {
        assert(s * 1000 > room) by (nonlinear_arith)
            requires
                s > room / 1000,
        ;
        Some(u64::MAX)
    } else {
        assert(s * 1000 <= room) by (nonlinear_arith)
            requires
                s <= room / 1000,
        ;
        Some(now + s * 1000)
    }
}

impl GameServerStore {
    /// A copy of the game server held.
    pub fn game_server(&self) -> (r: GameServer)
        ensures
            r@ == self@,
    {
        self.game_server.clone()
    }

    /// Replaces the game server held by `gs`, which comes with no
    /// reservation; returns `gs`, the value that watchers are to be sent.
    pub fn set_game_server(&mut self, gs: GameServer) -> (sent: GameServer)
        ensures
            final(self)@ == gs@,
            final(self).reserved_until() is None,
            sent@ == gs@,
    {
        self.game_server = gs.clone();
        self.reserved_until = None;
        gs
    }

    /// Puts the game server in `state`, ending any reservation; returns the
    /// game server as it is now, the value that watchers are to be sent.
    pub fn set_game_server_state(&mut self, state: GameServerState) -> (sent: GameServer)
        ensures
            final(self)@ == old(self)@.with_state_name(state_name(state)),
            final(self).reserved_until() is None,
            sent@ == final(self)@,
    {
        self.game_server.set_state(state);
        self.reserved_until = None;
        self.game_server.clone()
    }

    /// The `Ready` call; returns the value that watchers are to be sent.
    pub fn ready(&mut self) -> (sent: GameServer)
        ensures
            final(self)@ == apply_call(old(self)@, SdkCall::Ready),
            final(self).reserved_until() is None,
            sent@ == final(self)@,
    {
        self.set_game_server_state(GameServerState::Ready)
    }

    /// The `Allocate` call; returns the value that watchers are to be sent.
    pub fn allocate(&mut self) -> (sent: GameServer)
        ensures
            final(self)@ == apply_call(old(self)@, SdkCall::Allocate),
            final(self).reserved_until() is None,
            sent@ == final(self)@,
    {
        self.set_game_server_state(GameServerState::Allocated)
    }

    /// The `Shutdown` call; returns the value that watchers are to be sent.
    pub fn shutdown(&mut self) -> (sent: GameServer)
        ensures
            final(self)@ == apply_call(old(self)@, SdkCall::Shutdown),
            final(self).reserved_until() is None,
            sent@ == final(self)@,
    {
        self.set_game_server_state(GameServerState::Shutdown)
    }

    /// The `Reserve` call, made at `now` (the server's clock, in
    /// milliseconds), for `seconds`: the game server is `Reserved` until
    /// `seconds` have passed, after which `end_reservation` puts it back to
    /// `Ready`; for no positive number of seconds it stays reserved. Returns
    /// the value that watchers are to be sent.
    pub fn reserve(&mut self, seconds: i64, now: u64) -> (sent: GameServer)
        ensures
            final(self)@ == apply_call(old(self)@, SdkCall::Reserve { seconds }),
            final(self).reserved_until() == reservation_deadline(now, seconds),
            sent@ == final(self)@,
    {
        let sent = self.set_game_server_state(GameServerState::Reserved);
        self.reserved_until = deadline_of(now, seconds);
        sent
    }

    /// Ends the reservation if it is due at `now`: where the game server is
    /// still `Reserved` and its deadline has come, puts it back to `Ready`
    /// and returns it, the value that watchers are to be sent; otherwise
    /// changes nothing and returns `None`.
    pub fn end_reservation(&mut self, now: u64) -> (sent: Option<GameServer>)
        ensures
            reservation_due(old(self)@, old(self).reserved_until(), now) ==> {
                &&& final(self)@ == old(self)@.with_state_name(state_name(GameServerState::Ready))
                &&& final(self).reserved_until() is None
                &&& sent matches Some(gs) && gs@ == final(self)@
            },
            !reservation_due(old(self)@, old(self).reserved_until(), now) ==> {
                &&& final(self)@ == old(self)@
                &&& final(self).reserved_until() == old(self).reserved_until()
                &&& sent is None
            },
    {
        let deadline_reached = match self.reserved_until {
            Some(d) => now >= d,
            None => false,
        };
        let reserved = match &self.game_server.status {
            Some(status) => status.state == GameServerState::Reserved.to_string(),
            None => false,
        };
        if deadline_reached && reserved {
            Some(self.set_game_server_state(GameServerState::Ready))
        } else {
            None
        }
    }

    /// The `SetLabel` call; returns the value that watchers are to be sent.
    pub fn set_label(&mut self, key: String, value: String) -> (sent: GameServer)
        ensures
            final(self)@ == apply_call(old(self)@, SdkCall::SetLabel { key: key@, value: value@ }),
            final(self).reserved_until() == old(self).reserved_until(),
            sent@ == final(self)@,
    {
        self.game_server.set_label(key, value);
        self.game_server.clone()
    }

    /// The `SetAnnotation` call; returns the value that watchers are to be
    /// sent.
    pub fn set_annotation(&mut self, key: String, value: String) -> (sent: GameServer)
        ensures
            final(self)@ == apply_call(
                old(self)@,
                SdkCall::SetAnnotation { key: key@, value: value@ },
            ),
            final(self).reserved_until() == old(self).reserved_until(),
            sent@ == final(self)@,
    {
        self.game_server.set_annotation(key, value);
        self.game_server.clone()
    }
}

/// The state calls leave these names in `status.state`: `Ready` leaves
/// "Ready", `Allocate` leaves "Allocated", `Shutdown` leaves "Shutdown" and
/// `Reserve` leaves "Reserved"; the label and annotation calls leave the
/// status as it was.
pub proof fn law_state_call_names(gs: GameServerView, seconds: i64, key: Seq<char>, value: Seq<char>)
    ensures
        apply_call(gs, SdkCall::Ready).status->Some_0.state == "Ready"@,
        apply_call(gs, SdkCall::Allocate).status->Some_0.state == "Allocated"@,
        apply_call(gs, SdkCall::Shutdown).status->Some_0.state == "Shutdown"@,
        apply_call(gs, SdkCall::Reserve { seconds }).status->Some_0.state == "Reserved"@,
        apply_call(gs, SdkCall::SetLabel { key, value }).status == gs.status,
        apply_call(gs, SdkCall::SetAnnotation { key, value }).status == gs.status,
{
    law_state_names_are_identifiers();
}

/// A state call on a game server with a status changes only its state; on
/// one without a status it makes a status that holds the state and nothing
/// else: no address, no addresses, no ports, no players, no counters and no
/// lists.
pub proof fn law_state_call_status(gs: GameServerView, call: SdkCall)
    requires
        requested_state(call) is Some,
    ensures
        ({
            let name = state_name(requested_state(call)->Some_0);
            let after = apply_call(gs, call).status;
            &&& gs.status matches Some(before) ==> after == Some(StatusView { state: name, ..before })
            &&& gs.status is None ==> after == Some(
                StatusView {
                    state: name,
                    address: Seq::empty(),
                    addresses: Seq::empty(),
                    ports: Seq::empty(),
                    players: None,
                    counters: Map::empty(),
                    lists: Map::empty(),
                },
            )
        }),
{
}

/// A label or annotation call on a game server with metadata changes only
/// that one entry; on one without metadata it makes metadata that holds that
/// one entry and nothing else: empty strings, zero numbers, and no other
/// label or annotation.
pub proof fn law_metadata_call_object_meta(gs: GameServerView, key: Seq<char>, value: Seq<char>)
    ensures
        ({
            let labelled = apply_call(gs, SdkCall::SetLabel { key, value }).object_meta;
            let annotated = apply_call(gs, SdkCall::SetAnnotation { key, value }).object_meta;
            &&& gs.object_meta matches Some(m) ==> labelled == Some(
                ObjectMetaView { labels: m.labels.insert(key, value), ..m },
            ) && annotated == Some(
                ObjectMetaView { annotations: m.annotations.insert(key, value), ..m },
            )
            &&& gs.object_meta is None ==> labelled == Some(
                ObjectMetaView {
                    name: Seq::empty(),
                    namespace: Seq::empty(),
                    uid: Seq::empty(),
                    resource_version: Seq::empty(),
                    generation: 0,
                    creation_timestamp: 0,
                    deletion_timestamp: 0,
                    annotations: Map::empty(),
                    labels: map![key => value],
                },
            ) && annotated == Some(
                ObjectMetaView {
                    name: Seq::empty(),
                    namespace: Seq::empty(),
                    uid: Seq::empty(),
                    resource_version: Seq::empty(),
                    generation: 0,
                    creation_timestamp: 0,
                    deletion_timestamp: 0,
                    annotations: map![key => value],
                    labels: Map::empty(),
                },
            )
        }),
{
    if gs.object_meta is None {
        assert(Map::<Seq<char>, Seq<char>>::empty().insert(key, value) =~= map![key => value]);
    }
}

/// A reservation made at `now` for `seconds > 0` runs out `seconds` later,
/// or at the end of the clock where that lies beyond it; one for no positive
/// number of seconds has no deadline.
pub proof fn law_reservation_deadline(now: u64, seconds: i64)
    ensures
        seconds > 0 && now + seconds * 1000 <= u64::MAX ==> reservation_deadline(now, seconds)
            == Some((now + seconds * 1000) as u64),
        seconds > 0 && now + seconds * 1000 > u64::MAX ==> reservation_deadline(now, seconds)
            == Some(u64::MAX),
        seconds <= 0 ==> reservation_deadline(now, seconds) is None,
{
}

/// A reservation is due to end only while the game server is in the
/// "Reserved" state, only once it has a deadline, and only once that
/// deadline has come; all three together make it due.
pub proof fn law_reservation_due_when(gs: GameServerView, deadline: Option<u64>, now: u64)
    ensures
        reservation_due(gs, deadline, now) <==> (deadline is Some && now >= deadline->Some_0
            && gs.status is Some && gs.status->Some_0.state == "Reserved"@),
{
    law_state_names_are_identifiers();
}

/// An SDK call that sets a state leaves the name of that state in
/// `status.state`, which parses back to that state; the metadata, the spec
/// and the rest of the status (empty where there was no status) stay as they
/// were.
pub proof fn law_state_call_sets_state(gs: GameServerView, call: SdkCall)
    requires
        requested_state(call) is Some,
    ensures
        ({
            let after = apply_call(gs, call);
            let state = requested_state(call)->Some_0;
            &&& after.status is Some
            &&& after.status->Some_0.state == state_name(state)
            &&& parse_state(after.status->Some_0.state) == Ok::<GameServerState, Seq<char>>(state)
            &&& after.status->Some_0 == crate::game_server::StatusView {
                state: state_name(state),
                ..gs.status_or_empty()
            }
            &&& after.object_meta == gs.object_meta
            &&& after.spec == gs.spec
        }),
{
    law_parse_state_name(requested_state(call)->Some_0);
}

/// After `SetLabel`, the label has the value given; every other label, the
/// annotations, the rest of the metadata (empty where there was none), the
/// spec and the status stay as they were.
pub proof fn law_set_label(gs: GameServerView, key: Seq<char>, value: Seq<char>)
    ensures
        ({
            let after = apply_call(gs, SdkCall::SetLabel { key, value });
            let before = gs.meta_or_empty();
            &&& after.object_meta is Some
            &&& after.object_meta->Some_0.labels.contains_key(key)
            &&& after.object_meta->Some_0.labels[key] == value
            &&& forall|other: Seq<char>|
                other != key ==> (#[trigger] after.object_meta->Some_0.labels.contains_key(other)
                    <==> before.labels.contains_key(other)) && after.object_meta->Some_0.labels[other]
                    == before.labels[other]
            &&& after.object_meta->Some_0 == crate::game_server::ObjectMetaView {
                labels: after.object_meta->Some_0.labels,
                ..before
            }
            &&& after.spec == gs.spec
            &&& after.status == gs.status
        }),
{
}

/// After `SetAnnotation`, the annotation has the value given; every other
/// annotation, the labels, the rest of the metadata (empty where there was
/// none), the spec and the status stay as they were.
pub proof fn law_set_annotation(gs: GameServerView, key: Seq<char>, value: Seq<char>)
    ensures
        ({
            let after = apply_call(gs, SdkCall::SetAnnotation { key, value });
            let before = gs.meta_or_empty();
            &&& after.object_meta is Some
            &&& after.object_meta->Some_0.annotations.contains_key(key)
            &&& after.object_meta->Some_0.annotations[key] == value
            &&& forall|other: Seq<char>|
                other != key ==> (#[trigger] after.object_meta->Some_0.annotations.contains_key(
                    other,
                ) <==> before.annotations.contains_key(other))
                    && after.object_meta->Some_0.annotations[other] == before.annotations[other]
            &&& after.object_meta->Some_0 == crate::game_server::ObjectMetaView {
                annotations: after.object_meta->Some_0.annotations,
                ..before
            }
            &&& after.spec == gs.spec
            &&& after.status == gs.status
        }),
{
}

/// Making the same SDK call twice leaves the game server as making it once.
pub proof fn law_call_idempotent(gs: GameServerView, call: SdkCall)
    ensures
        apply_call(apply_call(gs, call), call) == apply_call(gs, call),
{
    let once = apply_call(gs, call);
    match call {
        SdkCall::SetLabel { key, value } => {
            assert(once.meta_or_empty().labels.insert(key, value) =~= once.meta_or_empty().labels);
        },
        SdkCall::SetAnnotation { key, value } => {
            assert(once.meta_or_empty().annotations.insert(key, value)
                =~= once.meta_or_empty().annotations);
        },
        _ => {},
    }
}

/// Of two SDK calls that set a state, the later one decides the state, as if
/// the earlier one had not been made.
pub proof fn law_last_state_call_wins(gs: GameServerView, first: SdkCall, second: SdkCall)
    requires
        requested_state(first) is Some,
        requested_state(second) is Some,
    ensures
        apply_call(apply_call(gs, first), second) == apply_call(gs, second),
{
}

/// Setting two different labels gives the same game server in either order.
pub proof fn law_labels_commute(
    gs: GameServerView,
    key1: Seq<char>,
    value1: Seq<char>,
    key2: Seq<char>,
    value2: Seq<char>,
)
    requires
        key1 != key2,
    ensures
        apply_call(
            apply_call(gs, SdkCall::SetLabel { key: key1, value: value1 }),
            SdkCall::SetLabel { key: key2, value: value2 },
        ) == apply_call(
            apply_call(gs, SdkCall::SetLabel { key: key2, value: value2 }),
            SdkCall::SetLabel { key: key1, value: value1 },
        ),
{
    let m = gs.meta_or_empty().labels;
    assert(m.insert(key1, value1).insert(key2, value2) =~= m.insert(key2, value2).insert(
        key1,
        value1,
    ));
}

/// Setting two different annotations gives the same game server in either
/// order.
pub proof fn law_annotations_commute(
    gs: GameServerView,
    key1: Seq<char>,
    value1: Seq<char>,
    key2: Seq<char>,
    value2: Seq<char>,
)
    requires
        key1 != key2,
    ensures
        apply_call(
            apply_call(gs, SdkCall::SetAnnotation { key: key1, value: value1 }),
            SdkCall::SetAnnotation { key: key2, value: value2 },
        ) == apply_call(
            apply_call(gs, SdkCall::SetAnnotation { key: key2, value: value2 }),
            SdkCall::SetAnnotation { key: key1, value: value1 },
        ),
{
    let m = gs.meta_or_empty().annotations;
    assert(m.insert(key1, value1).insert(key2, value2) =~= m.insert(key2, value2).insert(
        key1,
        value1,
    ));
}

/// A call that sets a state and one that sets a label or an annotation give
/// the same game server in either order, and so do a label and an
/// annotation.
pub proof fn law_independent_calls_commute(gs: GameServerView, first: SdkCall, second: SdkCall)
    requires
        requested_state(first) is Some || requested_state(second) is Some || (
        first is SetLabel && second is SetAnnotation),
        !(requested_state(first) is Some && requested_state(second) is Some),
        !(first is SetLabel && second is SetLabel),
        !(first is SetAnnotation && second is SetAnnotation),
    ensures
        apply_call(apply_call(gs, first), second) == apply_call(apply_call(gs, second), first),
{
}

/// A reservation for a positive number of seconds, with no state call after
/// it, is due to end once that time has passed, and not before; ending it
/// puts the game server back to `Ready`, which parses as that state.
pub proof fn law_reservation_runs_out(
    gs: GameServerView,
    seconds: i64,
    reserved_at: u64,
    now: u64,
)
    requires
        seconds > 0,
    ensures
        ({
            let reserved = apply_call(gs, SdkCall::Reserve { seconds });
            let deadline = reservation_deadline(reserved_at, seconds);
            &&& deadline is Some
            &&& reserved_at + seconds * 1000 <= u64::MAX ==> deadline->Some_0 == reserved_at
                + seconds * 1000
            &&& reservation_due(reserved, deadline, now) <==> now >= deadline->Some_0
            &&& parse_state(reserved.with_state_name(state_name(GameServerState::Ready)).status->Some_0.state)
                == Ok::<GameServerState, Seq<char>>(GameServerState::Ready)
        }),
{
    law_parse_state_name(GameServerState::Ready);
}

/// A reservation for no positive number of seconds is never due to end.
pub proof fn law_unbounded_reservation_stays(gs: GameServerView, seconds: i64, reserved_at: u64, now: u64)
    requires
        seconds <= 0,
    ensures
        !reservation_due(apply_call(gs, SdkCall::Reserve { seconds }), reservation_deadline(reserved_at, seconds), now),
{
}

/// Labels and annotations set during a reservation leave it due exactly when
/// it was.
pub proof fn law_metadata_calls_keep_reservation(gs: GameServerView, call: SdkCall, deadline: Option<u64>, now: u64)
    requires
        call is SetLabel || call is SetAnnotation,
    ensures
        reservation_due(apply_call(gs, call), deadline, now) == reservation_due(gs, deadline, now),
{
}

} // verus!
