# vatix

Verified core of the Vatix prediction-market contracts.

- `src/` — the library, verified with Verus.
  - `address.rs`, `amounts.rs`: ledger addresses and an address-keyed amount map.
  - `market/`: market data types and the fee-math error names.
  - `outcome_token.rs`: outcome-token errors.
  - `resolution/`: the resolution lifecycle (propose, challenge, appeal,
    finalize), its storage, events and the laws relating its entrypoints.
  - `treasury/`: fee custody (collect, withdraw, registry, pause), its
    storage, events and laws.
- `app/` — the Soroban deployments: authentication, storage I/O, event
  publication, token transfers and cross-contract calls around the
  verified entrypoints.
- `tests/` — tests of the library.

Each contract is modelled as an `Env` holding its storage and the ledger
clock. The resolution contract's `Env` also holds one ordered log of the
effects an invocation produces (storage writes and removals, published
events, requested token transfers), so its contracts state in which order
a candidate is stored and a bond moves; the host glue loads the storage
keys an entrypoint touches, runs it, then carries the effects out in that
order. The treasury's `Env` keeps its events and transfers in two logs and
its glue persists storage, then publishes, then transfers.

Calls to the market contract (a market's status, signature verification)
are made by the glue: the verified code returns the exact request to put
(`check_propose`, `check_appeal`) and takes the answer, tagged with that
request, as an argument.

Storage collections are plain values here (`Vec`, `HashMap` keyed by
integers, and `AmountMap` for address-keyed amounts). Verus accepts a
declaration of Soroban's `Vec`, but a Soroban `Vec` or `Map` is a
handle into a live host `Env`, which cannot exist outside a host, and its
items must carry the host's value conversions, which only `#[contracttype]`
derives give. The items here are the library's own types (its `Address`
among them), so they live in std collections, and the glue converts to and
from the host's at the storage boundary.
