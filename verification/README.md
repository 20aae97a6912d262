# deposits_protocol

A verified library for the Bitcoin Deposits protocol: the data types of
deposits and ledgers, the ledger operations and their two wire encodings
(TLV and the legacy binary form), the state machine that applies operations
to a ledger, signed and co-signed ledger updates and their hash chain,
quorum coordination messages, and the checks behind fraud proofs.

Every function in `src/` is checked by Verus against its `requires` and
`ensures`. Besides the per-function contracts, proof functions state the
properties that span functions, among them:

- reading back what an encoder wrote gives the value again
  (`operation_laws`, `binary_laws`, `coordination_laws`, `deposit_records`,
  `wire_messages`, `deposits_message`);
- applying an operation keeps the ledger state's invariants
  (`ledger_state`), and an accepted update keeps the hash chain
  (`updates`);
- the order of an update's cosignature entries does not reach its hash
  (`cosign_order`).

Calls into `bitcoin`, `secp256k1`, `sha2` and `hex` stand behind small
trusted wrappers whose doc comments say what they claim of the outside code.
The fraud checks take the ledger histories and block heights through the
`LedgerProvider` and `BlockOracle` traits, which users implement; their
results are stated over those traits' specification hooks.

The tests under `tests/` run the library with the real outside crates.
