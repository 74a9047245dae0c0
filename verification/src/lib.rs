//! A stand-in for the Agones SDK server: it keeps one `GameServer`
//! description, lets the SDK calls and the HTTP interface change it, and
//! hands back, for each change, what every watcher is to be sent.

pub mod game_server;
pub mod game_server_state;
pub mod key_map;
pub mod store;

pub use game_server::{
    Address, CounterStatus, GameServer, Health, ListStatus, ObjectMeta, PlayerStatus, Port, Spec,
    Status,
};
pub use game_server_state::GameServerState;
pub use key_map::KeyMap;
pub use store::{GameServerStore, Store, DEFAULT_AGONES_PORT};
