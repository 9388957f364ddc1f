# godot_core (signal futures and task runtime)

Verified state machines behind awaiting engine signals from async Rust code:

- `src/signal.rs` holds the signal identity (`Signal`), `to_future` and `to_guaranteed_future`,
  and the `FromSignalArgs` and `ToSignalFuture` traits.
- `src/signal_future.rs` holds the one-shot `SignalFuture`: it resolves when the signal
  fires, and a pending poll's waker is the one woken.
- `src/guaranteed.rs` holds `GuaranteedSignalFuture`. It always resolves: to `Some` value
  when the signal fires, or to `None` when the connection goes away first. The file also
  holds the shared-state handle `GuaranteedSignalFutureResolver`.
- `src/runtime.rs` holds the slot-based task runtime (`AsyncRuntime`, `FutureSlot`). Tasks
  are spawned only on the main thread. A waker takes its task out for polling, then parks
  it back or clears it.

Every transition is given as a spec function, and the public proof functions (`lemma_*`)
state the laws over those spec functions.

`app/` is the plumbing around these state machines:

- the shared state behind `Arc<Mutex<..>>`;
- the `std::future::Future` impls;
- the wakers;
- the thread-local runtime;
- the engine calls, which reach the engine through the `Engine` trait.

Not carried over: the script-instance layer of the engine binding (the `ScriptInstance`
trait, its `Box` impl and `create_script_instance`). Every signature of it is an engine
type, and its body is a table of `unsafe extern "C"` callbacks over raw pointers into the
engine's FFI interface, none of which is available to this crate.

Pairs are converted by `pair_from_args`, which converts the first argument into both
halves and requires at least one argument. It is a function rather than an impl of
`FromSignalArgs` for tuples: such an impl would overlap the single-value impl under
Rust's coherence rules, and a trait method cannot require a non-empty argument list.
