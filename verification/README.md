# reelsynth_ui

The decision logic behind the ReelSynth synthesizer's user interface, written in
Verus; its functions state their results in contracts that the verifier checks.

## Layout

- `src/` — the verified library:
  - `quant_interp`, `oscillator`, `osc_column`, `state_sync`: the parameter tokens a
    patch stores and the UI's index/label tables for them, with round-trip laws;
    per-segment Quant interpolation lists kept sized to the knob count.
  - `mod_matrix`: the modulation matrix rows, their mapping to engine routes and back.
  - `performance`: arpeggiator, scale, layout and chord tables and the summary labels.
  - `piano`: key geometry of the on-screen keyboard and its pointer handling.
  - `compose`, `note_edit`, `command_history`: piano-roll editing — tool decisions,
    deleting/duplicating notes with their undo, and a bounded undo/redo history.
  - `chain`: removing, reordering and adding slots of the voice filter chain.
  - `audit_registry`, `layout`: the registry of auditable shell elements and which
    mod/FX strips a shell layout shows.
  - `agent`: argument checks and error messages of the headless Design session.
  - `state`, `widgets`, `actions`: shell configuration, oscillator tabs, widget
    styles and the per-frame action records the panels return.
  - `text`: string helpers (ASCII lowercasing, trimming, decimal rendering) with
    their specifications.
- `tests/` — tests of the library on concrete values.
- `app/` — unverified glue: geometry in floating point, `egui` identifiers and the
  `serde` form of the agent snapshot.
