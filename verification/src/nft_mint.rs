//! A 1-of-1 NFT: a mint with no decimals, exactly one unit minted to the payer,
//! metadata pointing at the NFT's URI, and a master edition that allows no
//! further prints.
use crate::address::{canonical_key, find_address, Address};
use crate::constraint::ConstraintError;
use crate::metadata::{
    check_metadata_limits, master_edition_seeds, metadata_limit_exceeded, metadata_seeds,
    plain_metadata, spec_master_edition_seeds, spec_metadata_seeds, CreateMetadata, MetadataData, MetadataField,
    MintSetup, MintTokens,
};
use vstd::prelude::*;
use vstd::pervasive::unreached;

verus! {

/// The program's own errors.
#[derive(Clone, Copy, Debug, PartialEq, Eq, Structural)]
pub enum NftError {
    NameTooLong,
    SymbolTooLong,
    UriTooLong,
}

impl NftError {
    /// The error's code: program errors are numbered from 6000 in order.
    pub fn code(&self) -> (c: u32)
        ensures
            c == match *self {
                NftError::NameTooLong => 6000u32,
                NftError::SymbolTooLong => 6001u32,
                NftError::UriTooLong => 6002u32,
            },
    {
        match self {
            NftError::NameTooLong => 6000,
            NftError::SymbolTooLong => 6001,
            NftError::UriTooLong => 6002,
        }
    }

    /// The error's message.
    pub fn message(&self) -> (m: &'static str)
        ensures
            m@ == match *self {
                NftError::NameTooLong => "Name must be at most 32 characters (Metaplex's on-chain limit)"@,
                NftError::SymbolTooLong => "Symbol must be at most 10 characters (Metaplex's on-chain limit)"@,
                NftError::UriTooLong => "URI must be at most 200 characters (Metaplex's on-chain limit)"@,
            },
    {
        match self {
            NftError::NameTooLong => "Name must be at most 32 characters (Metaplex's on-chain limit)",
            NftError::SymbolTooLong => "Symbol must be at most 10 characters (Metaplex's on-chain limit)",
            NftError::UriTooLong => "URI must be at most 200 characters (Metaplex's on-chain limit)",
        }
    }
}

/// Decimals of an NFT's mint.
pub const NFT_DECIMALS: u8 = 0;

/// Units of an NFT minted.
pub const NFT_SUPPLY: u64 = 1;

/// Prints an NFT's master edition allows.
pub const NFT_MAX_PRINTS: u64 = 0;

/// The accounts `mint_nft` reads: the payer, the new mint, the payer's token
/// account for it, and the mint's metadata and master edition accounts.
#[derive(Clone, Copy, Debug)]
pub struct MintNft {
    pub payer: Address,
    pub mint: Address,
    pub owner_token_account: Address,
    pub metadata: Address,
    pub master_edition: Address,
}

/// A request to the metadata program to create a master edition allowing at
/// most `max_supply` prints (`None`: unlimited).
#[derive(Clone, Copy, Debug)]
pub struct CreateMasterEdition {
    pub edition: Address,
    pub mint: Address,
    pub update_authority: Address,
    pub mint_authority: Address,
    pub payer: Address,
    pub metadata: Address,
    pub max_supply: Option<u64>,
}

/// What `mint_nft` sets up, in order: the mint, the single unit minted, the
/// metadata, and the master edition.
#[derive(Clone, Debug)]
pub struct NftLaunch {
    pub mint: MintSetup,
    pub mint_to: MintTokens,
    pub metadata: CreateMetadata,
    pub master_edition: CreateMasterEdition,
}

/// The first check that refuses an NFT's name, symbol or URI.
pub open spec fn mint_nft_error(name_len: nat, symbol_len: nat, uri_len: nat) -> Option<NftError> {
    match metadata_limit_exceeded(name_len, symbol_len, uri_len) {
        Some(MetadataField::Name) => Some(NftError::NameTooLong),
        Some(MetadataField::Symbol) => Some(NftError::SymbolTooLong),
        Some(MetadataField::Uri) => Some(NftError::UriTooLong),
        None => None,
    }
}

/// Whether `t` is what `mint_nft` sets up: a mint with no decimals whose mint
/// and freeze authority is the payer; one unit minted to the payer's token
/// account; mutable metadata with the payer as mint and update authority and
/// payer; and a master edition allowing no prints.
pub open spec fn nft_launch(t: NftLaunch, a: MintNft, name: String, symbol: String, uri: String) -> bool {
    &&& t.mint == (MintSetup {
        mint: a.mint,
        decimals: NFT_DECIMALS,
        mint_authority: a.payer,
        freeze_authority: a.payer,
    })
    &&& t.mint_to.mint == a.mint
    &&& t.mint_to.to == a.owner_token_account
    &&& t.mint_to.authority == a.payer
    &&& t.mint_to.amount == NFT_SUPPLY
    &&& t.mint_to.signer_seeds@.len() == 0
    &&& t.metadata.metadata == a.metadata
    &&& t.metadata.mint == a.mint
    &&& t.metadata.mint_authority == a.payer
    &&& t.metadata.payer == a.payer
    &&& t.metadata.update_authority == a.payer
    &&& plain_metadata(t.metadata.data, name, symbol, uri)
    &&& t.metadata.is_mutable
    &&& t.metadata.update_authority_is_signer
    &&& t.metadata.signer_seeds@.len() == 0
    &&& t.master_edition == (CreateMasterEdition {
        edition: a.master_edition,
        mint: a.mint,
        update_authority: a.payer,
        mint_authority: a.payer,
        payer: a.payer,
        metadata: a.metadata,
        max_supply: Some(NFT_MAX_PRINTS),
    })
}

/// Mints a 1-of-1 NFT: checks the name, symbol and URI against the metadata
/// limits and returns the mint, the single unit, the metadata and the master
/// edition to set up.
pub fn mint_nft(accounts: &MintNft, name: String, symbol: String, uri: String) -> (r: Result<NftLaunch, NftError>)
    ensures
        match mint_nft_error(name@.len(), symbol@.len(), uri@.len()) {
            Some(e) => r is Err && r->Err_0 == e,
            None => r is Ok && nft_launch(r->Ok_0, *accounts, name, symbol, uri),
        },
{
    match check_metadata_limits(name.as_str(), symbol.as_str(), uri.as_str()) {
        Some(MetadataField::Name) => return Err(NftError::NameTooLong),
        Some(MetadataField::Symbol) => return Err(NftError::SymbolTooLong),
        Some(MetadataField::Uri) => return Err(NftError::UriTooLong),
        None => {},
    }
    let mint = MintSetup {
        mint: accounts.mint,
        decimals: NFT_DECIMALS,
        mint_authority: accounts.payer,
        freeze_authority: accounts.payer,
    };
    let mint_to = MintTokens {
        mint: accounts.mint,
        to: accounts.owner_token_account,
        authority: accounts.payer,
        amount: NFT_SUPPLY,
        signer_seeds: Vec::new(),
    };
    let metadata = CreateMetadata {
        metadata: accounts.metadata,
        mint: accounts.mint,
        mint_authority: accounts.payer,
        payer: accounts.payer,
        update_authority: accounts.payer,
        data: MetadataData { name, symbol, uri, seller_fee_basis_points: 0 },
        is_mutable: true,
        update_authority_is_signer: true,
        signer_seeds: Vec::new(),
    };
    let master_edition = CreateMasterEdition {
        edition: accounts.master_edition,
        mint: accounts.mint,
        update_authority: accounts.payer,
        mint_authority: accounts.payer,
        payer: accounts.payer,
        metadata: accounts.metadata,
        max_supply: Some(NFT_MAX_PRINTS),
    };
    Ok(NftLaunch { mint, mint_to, metadata, master_edition })
}

/// Whether the metadata and master edition accounts sit at the canonical
/// addresses of their seeds under the metadata program.
pub open spec fn nft_accounts_valid(a: MintNft, metadata_program: Seq<u8>) -> bool {
    &&& canonical_key(spec_metadata_seeds(metadata_program, a.mint@), metadata_program) == Some(a.metadata@)
    &&& canonical_key(spec_master_edition_seeds(metadata_program, a.mint@), metadata_program) == Some(
        a.master_edition@,
    )
}

/// What checking the metadata and master edition accounts of `mint_nft` gives:
/// the metadata account's seeds first, then the master edition's. `None` where
/// the runtime's bump search finds no address for a seed list it has to search:
/// the on-chain program aborts there.
pub open spec fn checked_nft_accounts(a: MintNft, metadata_program: Seq<u8>) -> Option<Result<(), ConstraintError>> {
    match canonical_key(spec_metadata_seeds(metadata_program, a.mint@), metadata_program) {
        None => None,
        Some(metadata_found) => if metadata_found != a.metadata@ {
            Some(Err(ConstraintError::Seeds))
        } else {
            match canonical_key(spec_master_edition_seeds(metadata_program, a.mint@), metadata_program) {
                None => None,
                Some(edition_found) => if edition_found != a.master_edition@ {
                    Some(Err(ConstraintError::Seeds))
                } else {
                    Some(Ok(()))
                },
            }
        },
    }
}

/// Checks the metadata and master edition accounts of `mint_nft`, on accounts
/// whose bump searches find an address.
pub fn check_nft_accounts(accounts: &MintNft, metadata_program: &Address) -> (r: Result<(), ConstraintError>)
    requires
        checked_nft_accounts(*accounts, metadata_program@) is Some,
    ensures
        Some(r) == checked_nft_accounts(*accounts, metadata_program@),
        r is Ok <==> nft_accounts_valid(*accounts, metadata_program@),
{
    match find_address(&metadata_seeds(metadata_program, &accounts.mint), metadata_program) {
        Some((m, _)) => {
            if !(m == accounts.metadata) {
                return Err(ConstraintError::Seeds);
            }
        },
        None => unreached(),
    }
    match find_address(&master_edition_seeds(metadata_program, &accounts.mint), metadata_program) {
        Some((e, _)) => {
            if !(e == accounts.master_edition) {
                return Err(ConstraintError::Seeds);
            }
        },
        None => unreached(),
    }
    Ok(())
}

/// Checks the metadata and master edition accounts of `mint_nft` on any input:
/// `None` where a bump search finds no address (where the on-chain program
/// aborts), otherwise what `check_nft_accounts` gives.
pub fn try_check_nft_accounts(accounts: &MintNft, metadata_program: &Address) -> (r: Option<Result<(), ConstraintError>>)
    ensures
        r == checked_nft_accounts(*accounts, metadata_program@),
{
    match find_address(&metadata_seeds(metadata_program, &accounts.mint), metadata_program) {
        None => return None,
        Some((m, _)) => {
            if m == accounts.metadata {
                if let None = find_address(&master_edition_seeds(metadata_program, &accounts.mint), metadata_program) {
                    return None;
                }
            }
        },
    }
    Some(check_nft_accounts(accounts, metadata_program))
}

/// Law: an NFT is one of one; exactly one unit of a mint with no decimals is
/// minted, and its master edition allows no further prints.
pub proof fn law_one_of_one(t: NftLaunch, a: MintNft, name: String, symbol: String, uri: String)
    requires
        nft_launch(t, a, name, symbol, uri),
    ensures
        t.mint.decimals == 0,
        t.mint_to.amount == 1,
        t.mint_to.mint == t.mint.mint,
        t.master_edition.max_supply == Some(0u64),
        t.master_edition.mint == t.mint.mint,
{
}

} // verus!
