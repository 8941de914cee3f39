# solana_rust

Verified logic of three small Solana programs and of a set of Rust exercises,
written in Verus.

- `src/address.rs`: 32-byte addresses and program-derived addresses. The
  runtime's `create_program_address` and `try_find_program_address` are reached
  through two trusted wrappers; seed layouts and bump checks are verified.
- `src/crowdfunding.rs`: SPL-token crowdfunding pools (create a campaign,
  contribute, withdraw once the goal is met, refund after a failed campaign),
  their account checks, and the laws they keep (one withdrawal, one refund per
  contribution, withdrawal and refunds exclusive across any later instructions,
  the raised total equal to the sum of the contribution records and the
  contributor count equal to the number of non-empty records).
- `src/token_deploy.rs`: a token whose mint authority is a program-derived
  account and which only its admin can mint.
- `src/nft_mint.rs`: 1-of-1 NFTs.
- `src/metadata.rs`: token metadata requests and the metadata program's seeds.
- `src/constraint.rs`: account-constraint failures.
- `src/basics.rs`: the exercises (arithmetic, strings, slices, structs, parsing,
  generics, traits, closures).

`app/` holds the Anchor programs, which run the library's account checks,
read the clock, perform the token and metadata program calls and store the
accounts, and the printing demos of the exercises. `tests/` runs the library on concrete values.
