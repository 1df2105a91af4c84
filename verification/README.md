# solana_poker

The rules of a Solana poker table, verified with Verus.

- `src/` is the verified library: account addresses (`pubkey`), seated
  players (`player`), hands and game states (`hand`), rooms with their seat,
  status, dealing and blind rules (`room`), account contents
  (`program_state`), instruction processing (`processor`) and the program's
  errors with their numeric codes (`error`).
- `app/` is the on-chain program around it: the entrypoint, account
  iteration, bincode (de)serialization of account data, logging, and the
  token transfer through the SPL token program.
- `tests/` exercises the library on concrete tables.
