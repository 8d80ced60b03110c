# mrv_drwa

Verified models of the MRV (measurement, reporting and verification) and
DRWA (regulated real-world asset) smart contracts.

Each contract is a struct whose fields stand for its storage; each endpoint
is a method that takes the blockchain context (`env::BlockchainEnv`) and the
call's arguments, checks its rules in the order the contract does, and either
returns the contract's error message (leaving the state unchanged) or applies
its effect and returns what the contract emits: its events, in order, and
where the endpoint has them, its outgoing token transfers and the sync
envelope for the native mirror. Hashing and signature checks go through the MultiversX
framework (`crypto.rs`).

## Layout

- `src/` — the verified library (Verus).
  - `bytes.rs`, `table.rs`, `approvals.rs`, `env.rs`, `ledger.rs`: byte
    strings, the byte-keyed storage map, approval sets, the call context and
    sums over stored records.
  - `crypto.rs`: the trusted calls into the MultiversX framework
    (Keccak-256, SHA-256, Ed25519, ESDT identifier rule).
  - `amount.rs`: token amounts of any size (`BigAmount`), whose arithmetic
    and comparisons are the framework's `BigUint` operations.
  - `mrv_common.rs`, `drwa_common.rs`: shared governance modules, storage
    keys, token-identifier rules and the sync-envelope encoding.
  - One file per contract: `registry.rs`, `aggregator.rs`, `governance.rs`,
    `governance_multisig.rs`, `gsoc_registry.rs`, `buffer_pool.rs`,
    `reserve_proof_registry.rs`, `income_distribution.rs`, `atomic_swap.rs`,
    `asset_manager.rs`, `attestation.rs`, `policy_registry.rs`.
  - `config.rs`: the interactor configuration.
- `tests/` — scenario tests run against the compiled library.
- `app/` — I/O around the library: loading `config.toml`, keeping
  `state.toml`, deploying the DRWA contracts and preparing holders through a
  gateway (`interactor.rs`, with the MultiversX snippets framework), and
  asking the native mirror hook for its status on a sync envelope.

Values that only the chain can provide (the caller, block round, epoch and
timestamp, token balances held by a contract, whether the pause authority
is a contract, whether governance reports a pause, and the status the
native mirror hook returns for a DRWA sync envelope) are passed in as
arguments, so every endpoint is a function of its inputs. A DRWA endpoint
handed a non-zero mirror status fails with "native mirror sync failed" and
leaves its storage unchanged.
