# warm_instance

Warm WebAssembly instances. An instance is brought into the state that every use of
it is to start from and captured once; after each use it is reset to the capture
instead of being built anew.

The library, under `src/`, is written in Verus. All of it is proved, but for a few
calls into other crates and one into the standard library, each behind a small
function that says what is taken for granted of it:

- `units`, `memory_type`, `error`, `text`: sizes, limits, errors and their texts.
- `mmap`, `mmap_pool`, `grow`, `cow`, `zero`, `wasm_mmap`: the bytes of a linear memory. What
  growing takes and how a memory is captured copy-on-write are decisions on plain
  numbers, which other code can drive with the operating system's own pages.
- `memory`, `owned_memory`, `shared_memory`, `vm_memory`: linear memories that one
  owner or several threads hold.
- `memory_laws`: what holds of linear memories across operations.
- `table`, `store`, `module`, `instance`, `snapshot`: instances and resetting them.
- `instance_laws`: what a reset gives back, and what it does not touch.
- `api_store`, `sys_instance`, `api_instance`: stores and instances as an embedder
  holds them.
- `subscription`, `transport`: asking a GraphQL endpoint for a subscription, and what
  goes over its websocket.

`app/` is ordinary Rust around it: the operating system's memory, files, waiting
threads, the environment and the network. `tests/` holds tests of the library.
