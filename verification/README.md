# haushalt_frontend

The decisions of a household task manager's web frontend, written in Verus: every function
in `src/` carries a contract that Verus proves.

- `src/` — the verified library. Task cards and their counters, the task form and its
  archetype presets, the grouped task list, bulk edits, reward and punishment editors,
  review queues, the settings sections, the REST client's request flow and session, the chat
  socket's connection state machine, and the markup/stylesheet contract.
- `tests/` — the tests of the library, run against the compiled crate.
- `app/` — glue that needs the operating system: reading sources and the stylesheet for the
  markup/stylesheet comparison, chrono/uuid conversions, and a runner for a REST call's request flow.

Dates are carried as day numbers (chrono's `num_days_from_ce`), moments as seconds since the
Unix epoch, and ids as the 128-bit numbers UUIDs pack into. chrono, uuid and pulldown-cmark
are called from the library through small trusted wrappers whose contracts name what they
return.
