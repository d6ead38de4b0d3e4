# poi

Proof of inclusion for preconfirmed Ethereum transactions. An underwriter signs a
promise that transactions will be in the block of a slot. This library verifies, from
the headers of that block and of its parent, from account proofs and from inclusion
proofs, whether the promise was kept, and encodes what a zero-knowledge proof of the
verification commits to. It is written in Rust and verified with Verus.

- `src/verification.rs`, `src/public_values.rs`: the verification as a whole, and what
  it commits to.
- `src/headers.rs`, `src/signing.rs`, `src/transactions.rs`, `src/slot.rs`,
  `src/accounts.rs`, `src/fees.rs`, `src/inclusion.rs`, `src/sponsorship.rs`: its steps.
- `src/laws.rs`: what the outcomes mean, proved from the contracts of the steps.
- `src/ethereum.rs`: the calls into the Ethereum crates, with the contracts that the
  proofs rest on. `src/trie.rs` tells apart the trie nodes that those crates take.
- `app/`: the zkVM program, which reads the inputs and commits the result.
