# mint_spl_token

A Verus-verified library holding the rules of a Solana token program that
exchanges NFTs for fungible tokens and pays them out on a linear vesting
schedule.

- `src/amounts.rs`: scaling whole tokens by the mint's decimals, and splitting
  an allocation into the part released at the token generation event and the
  part that vests.
- `src/schedule.rs`: how much of a schedule has vested at a given time, with
  its bounds and monotonicity.
- `src/state.rs`: the vesting record.
- `src/operations.rs`: the token-program calls an instruction asks for, and the
  signer seeds of the program-derived authorities.
- `src/pubkey.rs`: account addresses, and the program-derived address search
  of the Solana SDK behind a trusted wrapper.
- `src/instructions/`: one module per instruction, each taking the plain values
  it reads and returning the operations to perform and the new state.
- `app/`: the Anchor program that validates accounts, reads the clock, calls
  the library and performs the token-program calls it returns.
