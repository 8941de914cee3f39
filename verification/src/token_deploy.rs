//! An SPL token whose mint authority is a program-derived account.
//!
//! `create_token` makes a new mint whose mint and freeze authority is the
//! `mint_authority` account derived from the mint, records the admin who created
//! it there, and gives the token a name, symbol and URI. `mint_to_wallet` mints
//! more of it, and only that admin may call it.
use crate::address::{address_matches, canonical_address, canonical_key, find_address, program_address, seeds_view, Address};
use crate::constraint::{ConstraintError, Rejection};
use crate::metadata::{
    check_metadata_limits, metadata_limit_exceeded, metadata_seeds, plain_metadata,
    spec_metadata_seeds, CreateMetadata, MetadataData, MetadataField, MintSetup, MintTokens,
};
use vstd::prelude::*;
use vstd::pervasive::unreached;

verus! {

/// The program's own errors.
#[derive(Clone, Copy, Debug, PartialEq, Eq, Structural)]
pub enum TokenDeployError {
    ZeroAmount,
    NotAdmin,
    NameTooLong,
    SymbolTooLong,
    UriTooLong,
}

impl TokenDeployError {
    /// The error's code: program errors are numbered from 6000 in order.
    pub fn code(&self) -> (c: u32)
        ensures
            c == match *self {
                TokenDeployError::ZeroAmount => 6000u32,
                TokenDeployError::NotAdmin => 6001u32,
                TokenDeployError::NameTooLong => 6002u32,
                TokenDeployError::SymbolTooLong => 6003u32,
                TokenDeployError::UriTooLong => 6004u32,
            },
    {
        match self {
            TokenDeployError::ZeroAmount => 6000,
            TokenDeployError::NotAdmin => 6001,
            TokenDeployError::NameTooLong => 6002,
            TokenDeployError::SymbolTooLong => 6003,
            TokenDeployError::UriTooLong => 6004,
        }
    }

    /// The error's message.
    pub fn message(&self) -> (m: &'static str)
        ensures
            m@ == match *self {
                TokenDeployError::ZeroAmount => "Amount must be greater than zero"@,
                TokenDeployError::NotAdmin => "Only the admin who created this token can mint more of it"@,
                TokenDeployError::NameTooLong => "Name must be at most 32 characters (Metaplex's on-chain limit)"@,
                TokenDeployError::SymbolTooLong => "Symbol must be at most 10 characters (Metaplex's on-chain limit)"@,
                TokenDeployError::UriTooLong => "URI must be at most 200 characters (Metaplex's on-chain limit)"@,
            },
    {
        match self {
            TokenDeployError::ZeroAmount => "Amount must be greater than zero",
            TokenDeployError::NotAdmin => "Only the admin who created this token can mint more of it",
            TokenDeployError::NameTooLong => "Name must be at most 32 characters (Metaplex's on-chain limit)",
            TokenDeployError::SymbolTooLong => "Symbol must be at most 10 characters (Metaplex's on-chain limit)",
            TokenDeployError::UriTooLong => "URI must be at most 200 characters (Metaplex's on-chain limit)",
        }
    }
}

/// The program-derived account that holds a mint's authority and remembers the
/// admin allowed to mint.
#[derive(Clone, Copy, Debug)]
pub struct MintAuthority {
    pub admin: Address,
    pub mint: Address,
    pub bump: u8,
}

/// The ASCII bytes of "mint_authority".
pub open spec fn mint_authority_tag() -> Seq<u8> {
    seq![109u8, 105u8, 110u8, 116u8, 95u8, 97u8, 117u8, 116u8, 104u8, 111u8, 114u8, 105u8, 116u8, 121u8]
}

/// The seeds of a mint's authority account: "mint_authority" and the mint.
pub open spec fn spec_mint_authority_seeds(mint: Seq<u8>) -> Seq<Seq<u8>> {
    seq![mint_authority_tag(), mint]
}

/// The seeds a mint's authority account signs with: its seeds and its bump.
pub open spec fn spec_mint_authority_signer_seeds(mint: Seq<u8>, bump: u8) -> Seq<Seq<u8>> {
    spec_mint_authority_seeds(mint).push(seq![bump])
}

/// The seeds of a mint's authority account.
pub fn mint_authority_seeds(mint: &Address) -> (s: Vec<Vec<u8>>)
    ensures
        seeds_view(s@) == spec_mint_authority_seeds(mint@),
{
    let mut s: Vec<Vec<u8>> = Vec::new();
    s.push(vec![109u8, 105u8, 110u8, 116u8, 95u8, 97u8, 117u8, 116u8, 104u8, 111u8, 114u8, 105u8, 116u8, 121u8]);
    s.push(mint.to_seed());
    assert(seeds_view(s@) =~= spec_mint_authority_seeds(mint@));
    s
}

/// The seeds a mint's authority account signs with.
pub fn mint_authority_signer_seeds(mint: &Address, bump: u8) -> (s: Vec<Vec<u8>>)
    ensures
        seeds_view(s@) == spec_mint_authority_signer_seeds(mint@, bump),
{
    let mut s = mint_authority_seeds(mint);
    let ghost before = s@;
    let mut b: Vec<u8> = Vec::new();
    b.push(bump);
    assert(b@ =~= seq![bump]);
    s.push(b);
    assert(seeds_view(s@) =~= seeds_view(before).push(seq![bump]));
    s
}

// ----------------------------------------------------------------------------
// create_token
// ----------------------------------------------------------------------------

/// The accounts `create_token` reads: the admin, the new mint, the mint's
/// authority account with the bump its address was found with, and the mint's
/// metadata account.
#[derive(Clone, Copy, Debug)]
pub struct CreateToken {
    pub admin: Address,
    pub mint: Address,
    pub mint_authority: Address,
    pub mint_authority_bump: u8,
    pub metadata: Address,
}

/// What `create_token` sets up: the mint, the authority account's data, and the
/// metadata the mint is given.
#[derive(Clone, Debug)]
pub struct TokenLaunch {
    pub mint: MintSetup,
    pub authority: MintAuthority,
    pub metadata: CreateMetadata,
}

/// The first check that refuses a token's name, symbol or URI.
pub open spec fn create_token_error(name_len: nat, symbol_len: nat, uri_len: nat) -> Option<TokenDeployError> {
    match metadata_limit_exceeded(name_len, symbol_len, uri_len) {
        Some(MetadataField::Name) => Some(TokenDeployError::NameTooLong),
        Some(MetadataField::Symbol) => Some(TokenDeployError::SymbolTooLong),
        Some(MetadataField::Uri) => Some(TokenDeployError::UriTooLong),
        None => None,
    }
}

/// Whether `t` is what `create_token` sets up for these accounts and parameters:
/// a mint with `decimals` whose mint and freeze authority is the authority
/// account; that account recording the admin, the mint and its bump; and
/// mutable metadata created by the admin (payer and update authority), signed
/// for by the authority account.
pub open spec fn token_launch(
    t: TokenLaunch,
    a: CreateToken,
    decimals: u8,
    name: String,
    symbol: String,
    uri: String,
) -> bool {
    &&& t.mint == (MintSetup {
        mint: a.mint,
        decimals,
        mint_authority: a.mint_authority,
        freeze_authority: a.mint_authority,
    })
    &&& t.authority == (MintAuthority { admin: a.admin, mint: a.mint, bump: a.mint_authority_bump })
    &&& t.metadata.metadata == a.metadata
    &&& t.metadata.mint == a.mint
    &&& t.metadata.mint_authority == a.mint_authority
    &&& t.metadata.payer == a.admin
    &&& t.metadata.update_authority == a.admin
    &&& plain_metadata(t.metadata.data, name, symbol, uri)
    &&& t.metadata.is_mutable
    &&& t.metadata.update_authority_is_signer
    &&& seeds_view(t.metadata.signer_seeds@) == spec_mint_authority_signer_seeds(a.mint@, a.mint_authority_bump)
}

/// Creates a token: checks the name, symbol and URI against the metadata
/// limits and returns the mint, authority account and metadata to set up.
pub fn create_token(
    accounts: &CreateToken,
    decimals: u8,
    name: String,
    symbol: String,
    uri: String,
) -> (r: Result<TokenLaunch, TokenDeployError>)
    ensures
        match create_token_error(name@.len(), symbol@.len(), uri@.len()) {
            Some(e) => r is Err && r->Err_0 == e,
            None => r is Ok && token_launch(r->Ok_0, *accounts, decimals, name, symbol, uri),
        },
{
    match check_metadata_limits(name.as_str(), symbol.as_str(), uri.as_str()) {
        Some(MetadataField::Name) => return Err(TokenDeployError::NameTooLong),
        Some(MetadataField::Symbol) => return Err(TokenDeployError::SymbolTooLong),
        Some(MetadataField::Uri) => return Err(TokenDeployError::UriTooLong),
        None => {},
    }
    let authority = MintAuthority {
        admin: accounts.admin,
        mint: accounts.mint,
        bump: accounts.mint_authority_bump,
    };
    let metadata = CreateMetadata {
        metadata: accounts.metadata,
        mint: accounts.mint,
        mint_authority: accounts.mint_authority,
        payer: accounts.admin,
        update_authority: accounts.admin,
        data: MetadataData { name, symbol, uri, seller_fee_basis_points: 0 },
        is_mutable: true,
        update_authority_is_signer: true,
        signer_seeds: mint_authority_signer_seeds(&accounts.mint, accounts.mint_authority_bump),
    };
    let mint = MintSetup {
        mint: accounts.mint,
        decimals,
        mint_authority: accounts.mint_authority,
        freeze_authority: accounts.mint_authority,
    };
    Ok(TokenLaunch { mint, authority, metadata })
}

/// What resolving the accounts of `create_token` gives. The authority account is
/// resolved first: its address must be the canonical address of its seeds, and
/// its bump is returned. Then the metadata account must sit at the canonical
/// address of the metadata seeds under the metadata program. `None` where the
/// runtime's bump search finds no address for a seed list it has to search: the
/// on-chain program aborts there.
pub open spec fn resolved_create_token(
    program_id: Seq<u8>,
    metadata_program: Seq<u8>,
    admin: Address,
    mint: Address,
    mint_authority: Address,
    metadata: Address,
) -> Option<Result<CreateToken, ConstraintError>> {
    match canonical_address(spec_mint_authority_seeds(mint@), program_id) {
        None => None,
        Some((authority_found, bump)) => if authority_found != mint_authority@ {
            Some(Err(ConstraintError::Seeds))
        } else {
            match canonical_key(spec_metadata_seeds(metadata_program, mint@), metadata_program) {
                None => None,
                Some(metadata_found) => if metadata_found != metadata@ {
                    Some(Err(ConstraintError::Seeds))
                } else {
                    Some(Ok(CreateToken { admin, mint, mint_authority, mint_authority_bump: bump, metadata }))
                },
            }
        },
    }
}

/// Resolves the accounts of `create_token`, on accounts whose bump searches find
/// an address.
pub fn resolve_create_token(
    program_id: &Address,
    metadata_program: &Address,
    admin: Address,
    mint: Address,
    mint_authority: Address,
    metadata: Address,
) -> (r: Result<CreateToken, ConstraintError>)
    requires
        resolved_create_token(program_id@, metadata_program@, admin, mint, mint_authority, metadata) is Some,
    ensures
        Some(r) == resolved_create_token(program_id@, metadata_program@, admin, mint, mint_authority, metadata),
{
    let bump: u8 = match find_address(&mint_authority_seeds(&mint), program_id) {
        Some((k, b)) => {
            if !(k == mint_authority) {
                return Err(ConstraintError::Seeds);
            }
            b
        },
        None => unreached(),
    };
    match find_address(&metadata_seeds(metadata_program, &mint), metadata_program) {
        Some((m, _)) => {
            if !(m == metadata) {
                return Err(ConstraintError::Seeds);
            }
        },
        None => unreached(),
    }
    Ok(CreateToken { admin, mint, mint_authority, mint_authority_bump: bump, metadata })
}

/// Resolves the accounts of `create_token` on any input: `None` where a bump
/// search finds no address (where the on-chain program aborts), otherwise what
/// `resolve_create_token` gives.
pub fn try_resolve_create_token(
    program_id: &Address,
    metadata_program: &Address,
    admin: Address,
    mint: Address,
    mint_authority: Address,
    metadata: Address,
) -> (r: Option<Result<CreateToken, ConstraintError>>)
    ensures
        r == resolved_create_token(program_id@, metadata_program@, admin, mint, mint_authority, metadata),
{
    match find_address(&mint_authority_seeds(&mint), program_id) {
        None => return None,
        Some((k, _)) => {
            if k == mint_authority {
                if let None = find_address(&metadata_seeds(metadata_program, &mint), metadata_program) {
                    return None;
                }
            }
        },
    }
    Some(resolve_create_token(program_id, metadata_program, admin, mint, mint_authority, metadata))
}

// ----------------------------------------------------------------------------
// mint_to_wallet
// ----------------------------------------------------------------------------

/// The accounts `mint_to_wallet` reads: the signer, the mint, the authority
/// account (its address and data), the recipient and the recipient's token
/// account.
#[derive(Clone, Copy, Debug)]
pub struct MintToWallet {
    pub admin: Address,
    pub mint: Address,
    pub mint_authority_key: Address,
    pub mint_authority: MintAuthority,
    pub recipient: Address,
    pub recipient_token_account: Address,
}

/// The first check that refuses a mint of `amount`: the signer must be the
/// recorded admin, and the amount positive.
pub open spec fn mint_error(a: MintToWallet, amount: u64) -> Option<TokenDeployError> {
    if a.admin@ != a.mint_authority.admin@ {
        Some(TokenDeployError::NotAdmin)
    } else if amount == 0 {
        Some(TokenDeployError::ZeroAmount)
    } else {
        None
    }
}

/// Whether `m` mints `amount` of the mint into the recipient's token account,
/// signed for by the authority account.
pub open spec fn wallet_mint(m: MintTokens, a: MintToWallet, amount: u64) -> bool {
    &&& m.mint == a.mint
    &&& m.to == a.recipient_token_account
    &&& m.authority == a.mint_authority_key
    &&& m.amount == amount
    &&& seeds_view(m.signer_seeds@) == spec_mint_authority_signer_seeds(a.mint@, a.mint_authority.bump)
}

/// Mints `amount` base units to the recipient's token account, when the signer
/// is the admin recorded at creation.
pub fn mint_to_wallet(accounts: &MintToWallet, amount: u64) -> (r: Result<MintTokens, TokenDeployError>)
    ensures
        match mint_error(*accounts, amount) {
            Some(e) => r is Err && r->Err_0 == e,
            None => r is Ok && wallet_mint(r->Ok_0, *accounts, amount),
        },
{
    if !(accounts.admin == accounts.mint_authority.admin) {
        return Err(TokenDeployError::NotAdmin);
    }
    if amount == 0 {
        return Err(TokenDeployError::ZeroAmount);
    }
    Ok(MintTokens {
        mint: accounts.mint,
        to: accounts.recipient_token_account,
        authority: accounts.mint_authority_key,
        amount,
        signer_seeds: mint_authority_signer_seeds(&accounts.mint, accounts.mint_authority.bump),
    })
}

/// The first account check of `mint_to_wallet` that fails, if any: the
/// authority account's seeds, then that it belongs to this mint, then that the
/// signer is its admin.
pub open spec fn mint_accounts_error(a: MintToWallet, program_id: Seq<u8>) -> Option<Rejection<TokenDeployError>> {
    if program_address(spec_mint_authority_signer_seeds(a.mint@, a.mint_authority.bump), program_id)
        != Some(a.mint_authority_key@) {
        Some(Rejection::Constraint(ConstraintError::Seeds))
    } else if a.mint_authority.mint@ != a.mint@ {
        Some(Rejection::Constraint(ConstraintError::HasOne))
    } else if a.mint_authority.admin@ != a.admin@ {
        Some(Rejection::Program(TokenDeployError::NotAdmin))
    } else {
        None
    }
}

/// Checks the accounts of `mint_to_wallet`.
pub fn check_mint_accounts(accounts: &MintToWallet, program_id: &Address) -> (r: Result<(), Rejection<TokenDeployError>>)
    ensures
        match mint_accounts_error(*accounts, program_id@) {
            Some(e) => r == Err::<(), Rejection<TokenDeployError>>(e),
            None => r is Ok,
        },
{
    if !address_matches(
        mint_authority_seeds(&accounts.mint),
        accounts.mint_authority.bump,
        program_id,
        &accounts.mint_authority_key,
    ) {
        return Err(Rejection::Constraint(ConstraintError::Seeds));
    }
    if !(accounts.mint_authority.mint == accounts.mint) {
        return Err(Rejection::Constraint(ConstraintError::HasOne));
    }
    if !(accounts.mint_authority.admin == accounts.admin) {
        return Err(Rejection::Program(TokenDeployError::NotAdmin));
    }
    Ok(())
}

// ----------------------------------------------------------------------------
// laws
// ----------------------------------------------------------------------------

/// Law: only the admin who created a token can mint more of it. After
/// `create_token` run by `admin`, a `mint_to_wallet` through that authority
/// account is refused with `NotAdmin` for any other signer, and for the admin
/// succeeds for every positive amount.
pub proof fn law_only_admin_mints(launch: TokenLaunch, a: MintToWallet, amount: u64)
    requires
        a.mint_authority == launch.authority,
    ensures
        a.admin@ != launch.authority.admin@ ==> mint_error(a, amount) == Some(TokenDeployError::NotAdmin),
        a.admin@ == launch.authority.admin@ && amount > 0 ==> mint_error(a, amount) is None,
{
}

/// Law: new tokens are minted only on the authority account's signature. When
/// the accounts of `mint_to_wallet` pass their checks, the seeds its mint is
/// signed with derive exactly the mint's authority, the authority account.
pub proof fn law_mint_signed_by_authority(a: MintToWallet, m: MintTokens, amount: u64, program_id: Seq<u8>)
    requires
        mint_accounts_error(a, program_id) is None,
        wallet_mint(m, a, amount),
    ensures
        program_address(seeds_view(m.signer_seeds@), program_id) == Some(m.authority@),
{
}

} // verus!
