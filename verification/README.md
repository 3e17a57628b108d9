# tethereum

A small Ethereum development node: it keeps a chain of blocks with the account state after
each one, runs transactions against that state with the `evm` executor, and answers the
`web3_*`, `net_*` and `eth_*` JSON-RPC methods over HTTP.

The library under `src/` is verified with Verus:

- `primitives.rs`: fixed-size hashes, addresses, blooms and 256-bit words.
- `assoc.rs`: a map kept as a vector of distinct keys, viewed as a `Map`.
- `hashing.rs`: the calls into `keccak-hash` and `rlp`, with what their contracts claim.
- `hex_text.rs`: hex encoding and decoding of byte strings.
- `ethcore.rs`: accounts, actions, headers (encoding and hashing), blocks, the
  transactions root.
- `transaction.rs`: raw transactions decoded, their signing payload, signed transactions
  with the sender recovered, and the record each one leaves.
- `signature.rs`: the recovery id and chain id in `v`, and the calls into `parity-crypto`
  that recover a public key and its address.
- `state.rs`: the accounts of one state, and how an execution's changes are applied.
- `db.rs`: the chain database: genesis, new blocks, committing a transaction, receipts.
- `rpc.rs`: block numbers as clients write them, and what each RPC method answers.
- `rpc_types.rs`: the values the RPC interface hands out and takes in.
- `runtime.rs`: the shared, lock-guarded database.

`app/` is the program around it: the HTTP server, the JSON forms of the library's values,
and the executor's backend. It hands the library plain values and takes plain values back.
