# oak_launcher

A verified library of the decisions that a launcher for trusted runtimes makes,
and the ordinary Rust around it.

- `src/launcher.rs`, `src/launch.rs`: the command line, and bringing a virtual
  machine with the runtime in it up and down.
- `src/channel.rs`, `src/client.rs`, `src/status.rs`: invoking the runtime, one
  request after the other.
- `src/refresh.rs`: keeping the runtime's lookup data up to date.
- `src/transport.rs`, `src/tcp.rs`: naming a transport, and connecting over TCP.
- `src/attestation.rs`: attesting an application that was loaded.

Work that reaches outside (files, sockets, processes, time, the runtime's message
formats) is done in `app/`. The library is told what came of it, and says what is
to be done next: `channel`, `launch` and `refresh` are state machines whose phases,
events and actions are in the contracts, with laws over whole runs.

What is believed without proof is in two functions: `to_lowercase` in
`src/transport.rs`, which calls the standard library, and `describe` in
`src/client.rs`, which asks `bmrng` for the text of an error.
