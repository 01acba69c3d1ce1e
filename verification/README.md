# sdl2 events, verified

SDL2's event handling, with its conversions and decisions proved by Verus.

- `src/` is the verified library. `event.rs` converts each `Event` to SDL's raw
  56-byte event union and back. It proves the byte layout of every C event
  structure and that converting an event there and back gives the same event
  (`lemma_to_ll_from_ll`). `subsystem.rs` holds what the event subsystem and the
  event pump compute from SDL's answers. `custom.rs` holds the registry of custom
  event types. The other modules hold the codes that events carry: event types,
  window events, keys, modifiers, mouse buttons and states, joystick hats, and
  controller axes and buttons.
- `app/` makes the calls into SDL's C library, reads and frees what SDL hands
  back, and keeps the process-wide registry of custom event types.
- `tests/` runs the library on concrete events.
