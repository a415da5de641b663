# plan_vault

Time-locked savings plans held by a vault on behalf of a single owner.

- `src/` is the verified library: the vault's storage model (`storage`), its
  operations with exact contracts (`contract`: set-up, plan creation, release
  after the unlock date, two-step early withdrawal, listing and the protected
  total), its types and errors, and the laws that hold across operations
  (`laws`: the storage invariant, set-up runs once, failed calls change
  nothing, funds move only between owner and vault and the protected amount
  follows them, settled plans are final, release timing, early withdrawal).
- `app/` binds the library to the Soroban host: it loads and saves storage,
  reads the ledger time, asks for the owner's signature, performs the token
  transfer and publishes the event that each operation returns.
- `tests/` runs the operations on concrete vaults.
