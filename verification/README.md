# chairlift

Verified bookkeeping for a detachable chairlift.

- `src/config.rs` — loop layout in encoder pulses and the zone classification
  (valley station, mountain station, open rope) of a rope position.
- `src/position.rs` — the rope position counter, kept below the loop length by
  a type invariant.
- `src/chair.rs` — chairs, their attachment to the rope, their position
  relative to where they were attached, and their displayed zone.
- `src/machine.rs` — the chair line, departures, encoder edge counting and the
  state the control loop works on, with the laws that tie these together.
- `src/api.rs` — the mutations the control interface can request.
- `app/` — JSON parsing, the state broadcast (with meter values in floating
  point) and the message channel around the verified machine.
