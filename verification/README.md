# sae_games

The rules of an on-chain plinko game, verified with Verus: houses that bank the games,
fee accounts, DAOs, player profiles with their referral accounts, and the games
themselves.

- `src/` is the verified library. Each instruction is a function from the accounts that
  it reads (their records and balances) to their new records and balances, and to the
  invocations of the system and token programs that it asks for. Its contract states
  when it is refused and with which error, and what it writes otherwise.
  `src/laws.rs` holds the properties that span instructions (conservation of lamports,
  a game revealed and paid out once, consecutive game numbers, soundness of houses and
  referral accounts that every instruction keeps).
- `tests/` runs the library on concrete accounts.
- `app/` is the Anchor program around the library: account validation, the clock and
  rent sysvars, the writes back to the accounts and the cross-program invocations.
