# soroban_budget

Resource metering for a smart-contract host, written in Rust and verified with Verus.

A `Budget` counts cpu instructions and memory bytes against a limit each. Every kind of
work that the host does has a linear cost model per resource. Work is charged by kind and
size; a charge that takes a resource past its limit is refused.

- `src/` is the verified library. `budget.rs` and `dimension.rs` state each operation as a
  function on a mathematical view (`BudgetView`, `DimensionView`); `laws.rs` states and proves
  what holds across operations. `fuel.rs` holds the few declarations about the wasm
  interpreter's fuel schedule that are trusted rather than proved.
- `app/` is the border to the rest of a host: handles that share one budget, and conversions
  to and from the network's own types.
- `tests/` runs the library on concrete values.
