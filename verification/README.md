# nevo_contract

A verified ledger for a scholarship crowdfunding contract: sponsors create
pools, donors give to them (and may take their gift back after a refund
deadline), students apply, linked schools approve, approved students draw
their funding in parts, the protocol keeps one percent of every claim, and an
admin can schedule emergency withdrawals.

Layout:

- `src/model.rs` — the ledger as a mathematical value (`LedgerModel`), each
  operation as a transition from one ledger to the next, and the
  well-formedness invariant `wf`.
- `src/contract.rs` — `Contract`, the executable ledger; every method is
  proved to carry out the transition of the same name (`carries_out`), or to
  return exactly the value its getter contract names.
- `src/laws.rs` — properties across operations: every operation keeps `wf`,
  reads give back writes, refunds wait for the grace period, fees are paid
  once, withdrawals leave the locked funds, and so on.
- `src/keys.rs` — packing of `(pool, account)` and `(pool, number)` keys.
- `src/types.rs` — records, effects (`Transfer`, `Event`) and errors.
- `src/deadline.rs` — deadline helpers against a fixed clock.
- `app/lib.rs` — the Soroban contract around the ledger: address book,
  authorization, token transfers, events and persistence (the ledger is
  rebuilt by replaying the logged operations).

Accounts are numbered (`u64`); the operations that need a signature take an
`Authorization` naming who signed. Operations never panic: a refusal is a
`ContractError`, whose `message` is the text the contract aborts with.
