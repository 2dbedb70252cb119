# niffyinsure

A community insurance contract for Soroban: premium quotes, policies,
claims settled by policyholder vote, treasury payout, two-step admin
rotation, and a disabled-by-default oracle trigger pipeline.

- `src/` is the verified library (Verus). The contract's whole state is the
  plain struct `storage::Storage`; every entry point is a function from that
  state (and the ledger sequence or timestamp it needs) to a new state and a
  result, with a contract stating exactly what it returns and writes.
  `NiffyInsure` bundles the claim entry points with the invariant they keep
  (`wf`: consistent admin records, claim tallies equal to recorded ballots,
  ballots only from the claim's electorate, one ballot per voter and claim).
  Cross-call properties are stated and proved as `law_*` proof functions.
- `tests/` runs the library on concrete values.
- `app/` is the Soroban contract around the library: it loads and saves the
  state on the ledger, checks signatures, reads ledger time and token
  balances, performs token transfers and publishes events.
