# browser

A small Markdown browser with tabs, a back history and WebAssembly guests.

* `src/` is the library: the state of the browser and every decision it makes, verified with
  Verus. `src/state.rs` defines the browser as a mathematical state machine, `src/app.rs`
  implements its steps, and `src/laws.rs` states what holds of the whole. Markdown is parsed by
  `pulldown_cmark`, link clicks are kept by `egui_commonmark`, and guests run on `wasmtime`; the
  functions that call these crates state what is relied on.
* `app/` opens the windows, draws, fetches and runs guests. It asks the library what to do and
  tells it what came of it.
* `tests/` runs the library with the real crates.
