# cricketfi_contracts

A betting program for cricket matches: an admin creates matches with odds
for both teams, users bet lamports on a team before the match starts (a
platform fee is taken from each bet), the admin resolves or cancels the
match, and winners claim `principal * odds / 100` while bets on cancelled
matches are refunded.

- `src/` is the verified library (Verus): the account data (`state`), the
  errors (`errors`), every instruction as a function from accounts and
  arguments to updated accounts and lamport transfers
  (`cricketfi_contracts`), the properties proved of them (`laws`), and
  those proved over whole histories of instructions (`histories`).
- `app/` is the on-chain shell built with Anchor: it loads and stores the
  accounts, reads the clock and vault balances, calls the library and
  performs the transfers it returns.
- `tests/` runs the instructions on concrete values.
