# squidward

A payment system that processes a stream of client transactions (deposits,
withdrawals, disputes, resolves and chargebacks) and reports every client
account, written in Verus with its behaviour proved.

Layout:

- `src/payment_system/types.rs`: identifiers and `Amount`, a decimal number
  held as mantissa and scale; arithmetic, rounding and text come from
  `rust_decimal` behind a few trusted wrappers.
- `src/payment_system/account.rs`, `transaction.rs`, `deposit.rs`: the records.
- `src/payment_system/database/`: the `Database` interface and its `BTreeMap`
  implementations.
- `src/payment_system/mod.rs`: validation, the five transaction kinds, the
  per-transaction step of the engine, the batch run and the account summary,
  each with a contract over spec functions (`apply_spec`, `process_spec`,
  `run_spec`, `account_text`).
- `src/payment_system/laws.rs`, `balances.rs`, `sums.rs`: proved properties
  of the engine (the dispute lifecycle of every transaction id over a whole
  run, locked accounts and the rows that reach them, refused transactions,
  first transactions that must be deposits, held funds equal open disputes,
  total funds equal standing deposits less withdrawals).
- `app/`: the command-line program: argument parsing, logging, CSV reading and
  printing.
- `tests/`: tests of the library on concrete values.
