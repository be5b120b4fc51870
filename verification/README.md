# rgb_utils

RGB functionality of a lightning node, with its behaviour stated in contracts and proved by Verus:
what is kept for colored channels, payments and transfers, how the transactions of a channel are
colored, and how inbound colored fundings are accepted, rolled back and recovered after a crash.

## Layout

- `src/store.rs`: the key-value store, and the model of it that all contracts speak of: its entries,
  which removals need not have reached the disk, and what it adds to each call (a failure, and whether
  the failed call took effect). `src/memory.rs` is a store in memory.
- `src/info.rs`, `src/contract_id_serde.rs`, `src/records.rs`: channel, payment and transfer info,
  their encodings, and typed access to the store.
- `src/channel.rs`: balances of a channel, and new payments.
- `src/htlc.rs`, `src/coloring.rs`, `src/coloring_laws.rs`: which payment info an HTLC is colored
  with, how much each output of a commitment, HTLC or closing transaction carries, and what holds of
  every coloring.
- `src/journal.rs`, `src/funding.rs`, `src/media.rs`, `src/recovery.rs`: the journal of inbound
  fundings, the steps of accepting and rolling back one, the installation of media files, and what
  recovery can rely on.
- `src/rename.rs`: the transition from the temporary to the final channel ID.
- `src/wallet.rs`, `src/witness.rs`: the wallet's settings, and witness scripts for an external
  signer.
- `src/text.rs`, `src/errors.rs`: texts, and errors.
- `src/outside.rs`: every call into an outside crate, with the contract that is relied on.
- `app/`: the wallet, the runtime, the file system and the node's store around the library.

## Contracts

A function that uses the store states which state it leads to and what it returns, as a function of
the state before, whatever fails on the way. The laws of a module are public proof functions; most of
them say what holds on a store that does not fail, or what holds however it fails.
