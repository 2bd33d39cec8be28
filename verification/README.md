# ferris_commerce

Stock and order management for a chain of shops: e-commerce servers that
elect a leader and hand web orders to local shops, local shops that prepare
local and web orders from their own stock while their connection comes and
goes, and a database that keeps every shop's stock.

- `src/` is the verified library (Verus). Each node's logic is a set of
  state machines: a handler takes a message and the current state and gives
  the next state and what to do (messages to send, follow-up steps). The
  contracts state these transitions over mathematical views; the laws
  (`law_*` proof functions) state what holds across operations.
  - `model`: products, stocks, orders, the messages between nodes.
  - `ferris_local_shop`, `ferris_e_commerce`, `ferris_db`: the nodes.
  - `local_shop`, `e_commerce`, `database`: their first versions.
  - `viewscalc`: total views per channel over CSV datasets.
  - `customsync`: a counting semaphore on std's locks.
- `tests/` runs the library on concrete values.
- `app/` runs the nodes: TCP connections, the console, JSON on the wire.
  `cargo run -- <local-shop|e-commerce|db|database|e-commerce-v1|viewscalc> [arguments]`.
  Orders and stock files are JSON: a list of orders, each a list of
  `{"name": ..., "quantity": ...}`, and a list of such products.
