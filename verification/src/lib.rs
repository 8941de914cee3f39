//! Verified logic of three Anchor programs (an SPL token issuer, an SPL-token
//! crowdfunding pool, and a 1-of-1 NFT minter) and of a set of small Rust
//! exercises.
pub mod address;
pub mod constraint;
pub mod crowdfunding;
pub mod campaign_laws;
pub mod metadata;
pub mod token_deploy;
pub mod nft_mint;
pub mod token_laws;
pub mod basics;
