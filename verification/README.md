# dummy_agones

A stand-in for the Agones SDK server, for testing game servers that talk to
Agones. It keeps one `GameServer` description; the SDK calls (`Ready`,
`Allocate`, `Shutdown`, `Reserve`, `SetLabel`, `SetAnnotation`) and an HTTP
interface (`GET /` reads it as YAML, `POST /` replaces it) change it, and every
watcher is sent each new value. A reservation for a positive number of
seconds runs out after that time, and the game server goes back to `Ready`.

Layout:

- `src/` is the verified library:
  - `game_server_state.rs`: the lifecycle states, their names, parsing;
  - `key_map.rs`: the string-keyed maps used for labels, annotations,
    counters and lists;
  - `game_server.rs`: the game server description and its changes;
  - `store.rs`: the state the server keeps, one method per SDK call, each
    returning what watchers are sent, the reservation deadline and the step
    that ends a reservation, and the laws these calls obey.
- `app/` is the network side: the lock and broadcast channel around the
  store, the timer that ends reservations, the YAML HTTP interface, and the copies of the types that serde
  reads and writes.
- `tests/` exercises the library.
