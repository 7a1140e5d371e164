# attack-shark-x3-manager

Manages mice of the Attack Shark X3 family: logical `mouse-N` identities over
cable, receiver and BLE, durable evidence of what each profile is set to,
discovery, guarded configuration writes, and the ceremonies by which physical
mice are told apart.

- `src/` is the library, written and verified with Verus. Everything in it is
  computation on plain values. An operation that needs hardware hands out one
  request at a time and is resumed with the reply.
- `app/` is the asynchronous shell: sessions, the state file, locks, event
  streams and serialization.
- `tests/` runs the library against a simulated mouse.
