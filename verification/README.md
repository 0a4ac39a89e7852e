# runtime

A verified model of a token-curated-registry runtime. Each module of the
runtime keeps its storage as plain maps and is proved against contracts
that state, for every input, the result, the error and the new storage.

- `ge`: governance entities, created against a reserved deposit, with stakes
  and investments whose totals are proved to be the sums of the accounts'
  shares.
- `node`: content nodes, created and transferred by their owners.
- `interaction`: likes, admirations, grants and reports of nodes, each at
  most once per account and node.
- `tcx`: registries owned by entities; listings are proposed, challenged,
  voted on, resolved by their poll and claimed.
- `activity`: energy gained by charging reserved funds, and transaction
  fees paid with energy first and funds second.
- `impls`: the conversions between fees, energy and lock lengths.
- `currency`: the currencies the modules move funds with, and a ledger
  that implements them.
- `storage`, `sums`, `types`: storage maps, sums over maps, and the
  runtime's basic types.

`app/` holds the SCALE-encodable twins of the stored value types.
