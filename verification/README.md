# servidor_rust_simple

The logic of a small desktop tool that installs and runs a dedicated server
for the game Rust on Windows (SteamCMD, the server, Oxide plugins, a launcher
script with a random RCON password, start and WebRCON shutdown), written in
Verus and proved against its contracts.

Layout:

- `src/` — the verified library.
  - `texto.rs`: character-sequence search, `str::lines` as a spec, decimal
    formatting.
  - `aleatorio.rs`: the linear congruential generator behind the RCON password
    and the map seed.
  - `iniciador.rs`: the launcher script; proof that reading its password back
    gives the password it was written with.
  - `rcon.rs`: reading the RCON password out of a launcher script.
  - `proceso.rs`: the steps a command asks its caller to perform and the
    events the caller reports back.
  - `instalacion.rs`, `servidor.rs`, `webrcon.rs`, `enlace.rs`: each command
    as a state machine, with its transition function as a spec.
  - `leyes.rs`: properties of all commands (prerequisites, termination,
    error handling, shutdown of a server that is already off).
- `tests/` — tests on concrete values.
- `app/` — the Tauri shell: it probes the disk, runs processes, talks
  WebSocket, and drives the state machines.
