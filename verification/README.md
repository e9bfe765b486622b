# icpv_token

An IS20-style token for the Internet Computer, with vesting designations for
founder, advisor, investor, private and marketing wallets. The library in
`src/` is verified with Verus; `app/` holds the canister entry points around it.

- `src/principal.rs` – principals as their bytes; equality is byte equality.
- `src/types.rs`, `src/tx_record.rs` – token settings, metadata, errors, and the
  transaction records with their constructors.
- `src/ledger.rs` – the transaction history: records numbered from 0, read back
  by number or by range, with the oldest records dropped in batches of 10 000
  once more than 1 010 000 are kept.
- `src/amounts.rs` – balances and allowances.
- `src/designation.rs` – the designation list and the vesting schedule (all
  tokens locked for 90 days, three quarters to day 180, half to day 270).
- `src/api.rs` – the queries and the owner-only settings.
- `src/inspect.rs` – the checks that decide which ingress calls are accepted.
- `src/laws.rs` – properties of the library as a whole, proved.
- `app/` – the canister: state between calls, Candid types, entry points.

Token amounts and record numbers are `u128` in the library; the canister
converts them from and to Candid `Nat`, and traps on a number that does not fit.
