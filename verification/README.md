# fishtank_core

The deterministic core of a small simulated village in which agents act
through characters: world definitions, characters and their homes, movement,
speech, service orders with coin reservations, command queues, promises and
notifications, observations, an ordered event log and replay of the command
log. Every function of the library is verified with Verus against a
mathematical model of the engine.

## Layout

- `src/text.rs`: string order, decimal rendering and the small text checks
  (blank text, `#RRGGBB` colors).
- `src/strmap.rs`: `StrMap`, a map keyed by strings and kept in key order,
  with its model as a sorted sequence of pairs.
- `src/protocol.rs`: the data the engine reads and produces, each type with
  its view.
- `src/model.rs`: the specification of the engine: what every command, every
  tick and every observation does, as spec functions over the views.
- `src/engine.rs`: `Engine` and its operations, each proved equal to the model.
- `src/laws.rs`: properties of every run, proved over the model: the engine
  invariant (including events in tick order), append-only history, the
  log of accepted commands and exact replay of fully accepted runs, refused
  commands having no effect beyond their rejection event,
  home locks, coin reservations, queues that never stall, freshness,
  acknowledgement and what an observation shows.
- `src/ticks.rs`: what the clock does to one character: others' activities
  leave it alone, and a move ends at its target once it falls due.
- `tests/`: scenarios run against the compiled library.
- `app/`: the HTTP server and the command-line client, with the JSON form of
  the protocol.
