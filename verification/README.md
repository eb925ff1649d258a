# pumpkin_wasm_host

The verified core of the Pumpkin server's WebAssembly plugin host, written in
Verus.

- `src/` is the library; every function in it carries a contract that Verus
  proves. It covers the signature sections of plugin binaries (stripping,
  locating, signing and checking them, with the LEB128 and hex encodings they
  use), the marketplace key, the sandbox and socket policy a plugin gets from
  its permissions, the routing of event subscriptions, the command trees that
  plugins build, and the conversions of values at the plugin boundary.
  Calls into `wasmparser`, `wasm-encoder`, `ed25519-dalek` and `hex` stand
  behind small trusted wrappers whose contracts say what those functions do.
- `app/` is the plumbing around it: fetching the marketplace key over HTTP,
  JSON and postcard decoding, and handing log lines to `tracing`.
- `tests/` exercises the library on concrete values.
