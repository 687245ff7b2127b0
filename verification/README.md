# egui_kittest (verified core)

The settings logic of an egui test harness and the state logic of egui's widget gallery
demo, written in Verus with contracts and proved laws.

- `src/` — the verified library: the harness builder and its headful mode
  (`builder`), the gallery's state machine (`gallery`), docs.rs links (`doc_link`), the
  headful window's surface sizing (`surface`), `f32` bit patterns and their
  truncation to `u32` (`float_bits`), and spans of time (`time_span`).
- `app/` — what draws, opens windows or reads the environment: the gallery's egui
  widgets, the shared winit/wgpu window, the `KITTEST_HEADFUL` override.
- `tests/` — scenarios of the gallery's widgets and the builder, run against the
  library.

Floats never enter the verified code: they are carried as their bit patterns
(`FloatBits`), and the only float operation the logic needs, `x as u32`, is done on
the bits and proved against its IEEE-754 meaning.
