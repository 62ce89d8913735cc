# blockchain

The verified core of a small blockchain node.

- `src/` is the verified library: hexadecimal and decimal
  encodings (`encoding`), SHA-256 hash texts (`digest`), ECDSA over
  secp256k1 (`cryptography::ecdsa`), wall-clock time (`clock`), transactions
  and blocks (`strucks`), the chain state and how blocks are made
  (`blockchain`), the processor's batching decision
  (`processor_transactions`) and the service reply (`service_server`).
- `app/` is the node program around it: the RocksDB block and account
  stores, the floating-point balances and the JSON texts that hold
  floating-point amounts, the processor thread and the HTTP server.
- `tests/` exercises the library.

Amounts are floating-point numbers; the library carries them as their bit
patterns and leaves their arithmetic and their JSON rendering to `app/`.
