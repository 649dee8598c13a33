# firewheel-core (verified core)

The core data of an audio graph engine, written in Verus:

- `src/event.rs`: the parameter data that events carry (`ParamData`), the
  events that reach a node's processor (`NodeEventType`, `NodeEvent`), the
  per-period event list (`ProcEvents`) with its draining, and the
  conversions between parameter data and plain values.
- `src/diff/`: the diff/patch protocol (`Diff`, `Patch`, `EventQueue`,
  `PathBuilder`), `Notify` values, and the implementations for the unit type,
  booleans, integers, their `Option`s and `Notify` values of them.
- `src/bytes.rs`: integers as bytes in the machine's byte order, with the
  round-trip lemmas that the `Notify` encodings rest on.

Floating-point values are carried in `ParamData` as their bit patterns. The
`f32`-based vector types, the `f32`/`f64` parameter helpers and the `glam`
and `serde` integrations live in `app/`, which Verus does not check.
