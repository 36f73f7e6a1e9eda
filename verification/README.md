# nft_marketplace

A marketplace for Metaplex Core assets on Solana, with its rules verified.

- `src/` is the library, verified: the marketplace, listing and offer
  records (`state`), the fee arithmetic (`fees`), the seeds of every
  program-derived address (`pda`), the account constraints of each
  instruction (`constraints`, `instructions/*`), the instructions themselves
  (`nft_marketplace`), the effects they hand to other programs (`effects`),
  and the properties that span instructions (`laws`).
- `app/` is the on-chain program: Anchor's account handling, which turns the
  accounts into the library's model, calls the library, writes the changed
  records back and performs the effects through the system, token and core
  programs.
- `tests/` runs the library on concrete accounts, with addresses derived as
  the chain derives them.
