# q3_26_vault

A per-user SOL vault program for Solana, written as a verified library with
Verus. Each user has two program addresses: a state account
(`["state", user]`), which records the bumps of both addresses, and a vault
(`["vault", user]`), a system account that holds the deposited lamports. The
program has four instructions: `initialize`, `deposit`, `withdraw` and `close`.

- `src/` is the verified library: the account checks and the outcome of each
  instruction over a plain model of the three accounts (`ledger`,
  `instructions`), the instruction and state encodings (`instruction`,
  `state`), the program-address derivations it calls (`pda`, the trusted
  wrappers around `anchor_lang`'s `Pubkey`), and the laws of the vault
  (`laws`): lamports are conserved, the vault stays rent-exempt while it is
  open, failed instructions change nothing, a close returns everything, a
  withdrawal undoes a deposit, and the encodings round-trip.
- `app/` is the on-chain entry point: it reads the accounts and the
  instruction data, asks the library for the outcome, and performs the
  system-program transfers, the state account's creation and its closing.
- `tests/` runs the library on concrete accounts, with program addresses and
  rent computed by `anchor_lang`.
