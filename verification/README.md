# dropit

The logic of the dropit parachain, written in Verus and proved against its contracts.

- `src/distribution.rs` — airdrop distributions and crowdfunds: storage as mathematical state,
  one spec function per call (`*_step`) that the executable call is proved to follow, and the
  laws that hold across calls (coherent storage, distinct stash accounts, entries paid at most
  once, a claim pays what was written, `add_distributions` is a run of `add_distribution`,
  crowdfunds configured once, phases only leave `Raising`, claims only while distributing and never
  beyond the stash, the raise withdrawn once after every claim).
- `src/crowdfund_accounting.rs` — the unclaimed total of a crowdfund is exactly the sum of its
  recorded contributions, kept by every call.
- `src/treasury.rs` — bonded spending proposals and the treasury pot.
- `src/author_reward_dest.rs`, `src/inherent.rs` — the author reward destination inherent.
- `src/fees.rs` — the runtime's split of fees and tips between the runtime's treasury account and
  the block author.
- `src/ledger.rs` — the `(id, account) -> balance` maps used by the distribution pallet.
- `src/accounts.rs`, `src/perbill.rs` — the calls into `frame-support` / `sp-arithmetic`
  (pallet account derivation, `Perbill`), with the contracts the library relies on.

Effects that belong to other pallets of the runtime (asset and native transfers, holds) are
passed in as closures; reads of the relay-chain block number and of the stash balance are passed
in as values. `app/` holds the runtime-side glue: codec and error-trait impls, the node's inherent
data provider, the panicking checks around `create_inherent` and `on_finalize`, and the calls
wired to frame-support's `fungible`/`fungibles` traits and, for fees, `Currency` and
`OnUnbalanced`.
