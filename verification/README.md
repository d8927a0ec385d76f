# solana_programs

Six small Solana programs written against the Anchor framework's conventions,
with their logic verified in Verus:

- `counter`: a counter that is created at zero and only goes up by one,
  refusing to pass `u64::MAX`.
- `cpi_engine`: an engine account holding revolutions per minute.
- `cpi_lever`: forwards an order to the engine's `set_rpm` (a cross-program
  invocation without extra signatures).
- `cpi_secure_vault`: a vault whose value changes only with the signature of
  its one authority, the proxy's address for the seed `controller_auth`.
- `cpi_secure_proxy`: signs a call of the vault with an address derived from
  the seed `controller_auth` (a program derived address).
- `spl_token_example`: creates a mint by hand and mints and transfers tokens
  through the SPL token program.

`src/` holds each program's instruction format, account format, account
checks and handler as verified functions over plain values; a program's
effects are new account data, or the invocations it asks the runtime to make.
`src/system.rs`, the token builders in `src/spl_token_example.rs` and the
address search in `src/pubkey.rs` call the Solana crates behind trusted
wrappers whose contracts are stated in their doc comments.

`app/` holds the runtime glue: one `process_instruction` per program that
copies the accounts in, calls the library, writes account data back and makes
the planned invocations.
