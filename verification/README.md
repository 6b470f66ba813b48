# outcom

Escrowed work trials on Solana: an employer locks a candidate reward and a
referral reward in a vault, a candidate starts the trial, referrers attach
candidates, and a verdict message delivered over LayerZero either pays the
rewards out or rejects the trial.

- `src/` is the verified library (Verus): the account model and its invariant
  (`state`), the verdict message layout (`payload`), the decoding of the
  NUL-padded trial id (`text`), every instruction as a function with an exact
  contract (`instructions`), and the laws that hold across instructions
  (`laws`).
- `app/` is the Anchor program around it: account validation and PDAs, the
  token transfers, and the on-chain copies of the account types.
- `tests/` runs the library on concrete values.
