# vectorc

VectorCompiler: Program IR v2 (a single exported Wasm function over scalar types with
structured control), its validator and diagnostics, lowering to Wasm, a capability policy for
untrusted Wasm, execution under fuel, verifier-driven refinement, and the command-line tool
around them.

The library under `src/` is verified with Verus:

- `ast`, `limits`, `metrics`, `text`: the IR, its limits, tree metrics, text helpers.
- `validate`: the stack-typing validator, specified by `spec_validate_module`.
- `lower`: lowering to Wasm instructions (verified) and their binary encoding (`wasm_encoder`).
- `render`, `diagnostics`: messages, diagnostic codes, the explanation catalog, repair plans.
- `policy`: the capability verdict on the payloads `wasmparser` reads from untrusted bytes.
- `runtime`: the `wasmtime` engine, compiled module and store as the library holds them, with
  the trusted calls on them; a store's ghost state records every call made on it.
- `exec`: admission, store configuration, call-shape checks and failure mapping around
  `wasmtime`.
- `refine`: random mutation search (`rand`), each candidate validated and run against cases.
- `oracle`, `agent`, `repair`, `inspect`, `cli`, `bridge`: the tool's checks, reports, repair
  loop, inspection summaries, input rules and latent decoders.
- `laws`: properties that span several functions.

`app/` holds the command-line program: argument parsing, file and process I/O, JSON forms of
the library's values, wall-clock watchdog threads, and floating-point rates. `tests/` runs the
library on concrete inputs.

Wall-clock limits need threads, so only the program enforces them. The library sets each
call's epoch deadline from `max_wall_ms`, but a call is interrupted only when a watchdog raises
the engine's epoch, and the 30-second compile budget is `app/host.rs`'s `compile_with_limits`.
The program's `run`, `bench`, `check`, `eval` and `agent-repair` commands compile under that
budget and run every call under the watchdog (the checks drive the library's
`evaluate_stages`, their own compile and calls, and `tally_cases`). Called directly from Rust,
the library's `evaluate_vcir_bytes`, `ModuleSpecCache::satisfies`, the refiner and the `invoke`
functions run without either limit; their fuel limit always applies.
