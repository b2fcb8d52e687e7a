# KCC20

A verified library for the KCC20 fungible-token convention on Kaspa: token states, the
transfer rules of a token family, and the transactions of two offline examples.

- `src/state.rs`: token states, guards and output policies.
- `src/transaction.rs`: transactions with the outputs that they spend, as plain values.
- `src/program.rs`: the compiled program's locks, the state layout and the dispatch tags.
- `src/crypto.rs`, `src/consensus.rs`: the calls into the hash, signature and consensus
  crates. What is trusted stands here and nowhere else.
- `src/authorization.rs`, `src/borrow.rs`, `src/conservation.rs`: the single rules.
- `src/transfer.rs`: which inputs of which transactions are accepted, and why others are not.
- `src/laws.rs`: what holds of every accepted transfer.
- `src/support.rs`, `src/receive.rs`: deterministic keys, signing, and borrowed receives.
- `src/threshold_borrow.rs`, `src/chain_borrow.rs`: the two examples.
- `app/`: the command-line program around the library. It compiles the contract, encodes
  states and calls, and runs the virtual machine.

## Examples

The threshold example transfers 11 tokens from Alice into Bob's token output: his amount goes
from 200 to 211, beyond his borrow threshold of 10, and Alice keeps 89. The hash-chain example
borrows Bob's output twice, each time by the next link of a hash chain: his amount goes from
200 to 201 to 202, Alice's from 100 to 99 to 98. The library proves of both that the rules
accept their transactions.

## Scope

A token state comes with the script bytes that the compiled program holds it in. How a state is
encoded is the compiler's business: the rules take an encoded state as the pair that the codec
gives. Issuance is outside the rules: it has to establish the supply and valid states of a family.
