# wasmedge_quickjs

The host-side library of a JavaScript runtime for WasmEdge, verified with Verus: the
parts of its Node-style modules that decide and compute, each with a contract.

- `http` — HTTP/1.x requests, response heads and chunked bodies: parsing from bytes,
  printing, the fields a script reads and sets, and a receive buffer. `http::roundtrip`
  proves that printed requests and response heads parse back to what was printed, under
  the conditions its lemmas state: printable, distinct header names; for a request, a
  resource of one word and either an empty body without `Content-Length` header or
  `Content-Length` headers that each give the body's length; for a response head, a
  reason phrase of at most one word, a body length of zero and no `Content-Length` or
  chunked `Transfer-Encoding` header. `http::server` decides the status and body that the server module sends
  for what a script's request handler returned.
- `crypto` — HMAC and hashes over the WASI cryptography calls (through `crypto-wasi`),
  PBKDF2, HKDF, scrypt and AES-GCM ciphers; `salsa` holds the Salsa20/8, BlockMix and
  ROMix core of scrypt; `bytes` holds hexadecimal text and constant-time comparison.
- `text_codec` — `TextEncoder`/`TextDecoder`: UTF-8 encoding, encoding into a buffer as
  far as it fits, and decoding under an encoding label (through `encoding`).
- `node_fs`, `wasi_fs`, `crypto_raw` — the flags, modes, stat and error objects of the
  `fs` module, and the WASI types and error codes.
- `event_loop`, `sock_error` — the order in which queued callbacks run, how timers are
  armed, and the kinds of socket errors.
- `text` — character-level helpers shared by the parsers.

`app/` is the command-line program around the library: the tokio runtime, the closures
behind callback ids, and the argument checks made before calling the library.
