# rust_workbench

The logic of a Rust ownership workbench, verified with Verus: the checks a
rust-analyzer ownership response passes before it is shown, choosing the
problem under the cursor, the beginner stories and lesson catalog, how a
type expands into storage layers, and the topology scenes (which nodes and
edges are drawn, in which order, and where), the beginner memory path, and
the coach's decisions. A small commerce sample that exercises ownership
shapes sits beside it.

- `src/` — the verified library; every public function states what it returns.
- `tests/` — tests on concrete values.
- `app/` — the commerce sample's `main`.
