# dash-shielded

A shielded wallet for Dash Platform, with its logic verified by Verus.

- `src/` is the library: addresses, key derivation, the book of open wallets, syncing, polling,
  quoting and making transfers, and opening a wallet. Every function states what it returns or
  changes, and the laws that hold across functions stand as public proof functions beside them.
- `app/` is what a host links: the locks, the tasks, HTTP, the files, and the calls into the
  platform wallet. It hands the library plain values and carries out the actions that the
  library's steps ask for.
- `tests/` runs the library on concrete values, with the real `bech32`, `bip0039`, `hex`, `json`,
  `orchard` and `zip32` crates.

What the library takes on trust are the calls into those crates, and one function of the
standard library. Each stands in a small function marked `external_body`, whose comment names
what it calls and what its contract claims.
