# measurement_service

A JSON-RPC service that measures the energy a process consumes while a client runs a function of it.
A client starts a measurement for a process id and a function name, and later stops it and gets the
entries that were recorded in between.

- `src/` is the verified core. It decides; it does no I/O and never waits.
  - `server.rs`: which requests to start and stop are taken, and which handler serves them.
  - `measurement_handler.rs`: the state of one process's measurement, its results and its output.
  - `session.rs`: the course of a session, from event to event.
  - `entry.rs`, `field_map.rs`, `timestamp.rs`: recorded entries.
  - `error.rs`, `text.rs`: what a refused client is told.
  - `connection.rs`: how connections and HTTP requests are treated.
  - `stop_channel.rs`: the channel on which a session is told to stop.
  - `laws.rs`, `interleaving.rs`: properties of the parts taken together, also where clients and
    sessions take turns in any order.
- `app/` is the service around it: sockets, clocks, files, tasks and the wire format. Sampling the
  machine is left to the embedding program, which implements `Probe`.
- `tests/` runs the core.
