# mocktopus

Function mocking for Rust, verified with Verus.

- `src/mocking/`: the registry of mocks (`MockStore`), keyed by the mocked
  function's identity (`get_mock_id`); what starting and finishing a call of a
  mocked function does to it (`begin_call`, `end_call`); the `Mockable` trait
  through which mocks are registered; and the laws these operations obey
  (`laws.rs`).
- `src/injector/`: the rewriting behind the `#[mockable]` attribute. An item is
  read into a model (`model.rs`, through `syntax.rs`, the only code that
  touches `syn` and `quote`), every non-`const` function, method and trait
  default method in it gets a header (`header.rs`) that consults the
  registry: a receiver becomes a mutable binding so that the header can
  rebind it, a parameter without a plain name (`_`, a type alone, a
  destructuring pattern) gets a generated one, and a pattern is bound again
  by a `let` after the header. The item is then printed back (`source.rs`). `inject.rs` states exactly what the
  rewriting does, `source.rs` what `inject_mocks` returns.
- `app/`: the per-thread registry, `call_mock` (what headers call), mocks
  made of closures, and the token-stream entry of the attribute.
