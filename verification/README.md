# soroban_marketplace

The rules of an NFT marketplace on Soroban, written in Verus and proved
against their contracts.

- `src/` is the verified library. Each entry point of the marketplace is a
  function from the state it reads (a listing, an auction, the offers of a
  listing, the token registry, the circuit breakers, ...) to the state it
  writes, the error it refuses with, and the payments it owes. Sale proceeds
  (`settlement`), listing, offer and auction life cycles, governance
  (`proposals`, `roles`, `config`), the registry of payment tokens, the
  settlement locks, paged indexes and their migration are all there, each
  with its contract; the laws that relate several calls are public proof
  functions next to the code they speak of. `market` composes these into
  one marketplace state (listings, offers, auctions with their bid
  histories, the index of active listings and the tokens in custody): its
  type invariant keeps the index equal to the set of active listings and
  the custody equal to the tokens of the active listings and auctions, each
  held once, and each of its operations states how the escrowed funds
  (pending offers plus the highest bids of active auctions) change. A
  purchase or an accepted offer keeps the listing's settlement lock until
  the caller has made the payouts, so a payment token that calls back into
  the marketplace is refused. `migration` moves a store of the earlier
  schema to paged indexes (per artist, per listing, per offerer, per
  auction creator, pending-offer counts and the active index), one entity
  at a time.
- `tests/` exercises the library on concrete scenarios.
- `app/` holds the Soroban contract front-ends of the collection and token
  models (`MockNft`, `MockNftTyped`, `MockReentrantToken`,
  `MockFreeToken`): they read contract storage, let the library decide, and
  write the result back. Accounts cross into the library as numeric handles
  (`AccountId`).
