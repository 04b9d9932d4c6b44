# stable_coin_vault

The decision logic of a Scrypto stablecoin vault component, verified with Verus.

- `src/decimal.rs` — token amounts as the 192-bit count of attos behind Scrypto's
  `Decimal`; additions, subtractions and comparisons are Scrypto's own.
- `src/setup.rs` — what instantiation creates: the badges and who holds
  them, the token with its locked metadata, and the rules tying roles to badges.
- `src/vault.rs` — the component's state and methods: a check per method says
  whether a call goes through (and which error aborts it otherwise); the
  method updates the state and says which amount to hand out, mint, take in
  or burn, or which resource-manager calls to make.
- `src/metadata.rs` — what `get_token_metadata` reports from the resource
  manager's answers.
- `src/access.rs` — the method access table and who may reassign each role.
- `src/laws.rs` — properties across calls: supply accounting, conservation of
  the tokens outside the vault, calls that undo each other, the frozen version.
- `app/lib.rs` — the Scrypto blueprint that reads the ledger, asks the library,
  and performs the resource operations on the Radix engine.
