//! What the token issuer and the NFT minter do, stated over their inputs and
//! results: which names, symbols and URIs they accept, what they set up, and
//! what a mint moves.
use crate::address::{canonical_address, canonical_key, program_address, seeds_view, Address};
use crate::constraint::{ConstraintError, Rejection};
use crate::metadata::{
    metadata_limit_exceeded, spec_master_edition_seeds, spec_metadata_seeds, MetadataField, MintTokens,
};
use crate::nft_mint::{checked_nft_accounts, mint_nft_error, nft_launch, MintNft, NftError, NftLaunch};
use crate::token_deploy::{
    create_token_error, mint_accounts_error, mint_authority_tag, mint_error, resolved_create_token,
    token_launch, wallet_mint, CreateToken, MintToWallet, TokenDeployError, TokenLaunch,
};
use vstd::prelude::*;

verus! {

/// Law: a name, symbol and URI are within the metadata program's limits exactly
/// when the name has at most 32 characters, the symbol at most 10 and the URI at
/// most 200; otherwise the first that is over its limit is named.
pub proof fn law_metadata_limits(name_len: nat, symbol_len: nat, uri_len: nat)
    ensures
        metadata_limit_exceeded(name_len, symbol_len, uri_len) is None <==> (name_len <= 32 && symbol_len <= 10
            && uri_len <= 200),
        name_len > 32 ==> metadata_limit_exceeded(name_len, symbol_len, uri_len) == Some(MetadataField::Name),
        name_len <= 32 && symbol_len > 10 ==> metadata_limit_exceeded(name_len, symbol_len, uri_len) == Some(
            MetadataField::Symbol,
        ),
        name_len <= 32 && symbol_len <= 10 && uri_len > 200 ==> metadata_limit_exceeded(
            name_len,
            symbol_len,
            uri_len,
        ) == Some(MetadataField::Uri),
{
}

/// Law: a token is created exactly when its name, symbol and URI are within the
/// limits (32, 10 and 200 characters); otherwise the first over its limit is
/// refused with its own error. The NFT minter refuses the same inputs with the
/// same kinds of error.
pub proof fn law_token_and_nft_limits(name_len: nat, symbol_len: nat, uri_len: nat)
    ensures
        create_token_error(name_len, symbol_len, uri_len) is None <==> (name_len <= 32 && symbol_len <= 10
            && uri_len <= 200),
        name_len > 32 ==> create_token_error(name_len, symbol_len, uri_len) == Some(TokenDeployError::NameTooLong),
        name_len <= 32 && symbol_len > 10 ==> create_token_error(name_len, symbol_len, uri_len) == Some(
            TokenDeployError::SymbolTooLong,
        ),
        name_len <= 32 && symbol_len <= 10 && uri_len > 200 ==> create_token_error(name_len, symbol_len, uri_len)
            == Some(TokenDeployError::UriTooLong),
        mint_nft_error(name_len, symbol_len, uri_len) is None <==> (name_len <= 32 && symbol_len <= 10 && uri_len
            <= 200),
        name_len > 32 ==> mint_nft_error(name_len, symbol_len, uri_len) == Some(NftError::NameTooLong),
        name_len <= 32 && symbol_len > 10 ==> mint_nft_error(name_len, symbol_len, uri_len) == Some(
            NftError::SymbolTooLong,
        ),
        name_len <= 32 && symbol_len <= 10 && uri_len > 200 ==> mint_nft_error(name_len, symbol_len, uri_len)
            == Some(NftError::UriTooLong),
{
}

/// Law: a created token is a mint with the decimals asked for, whose mint and
/// freeze authority is the authority account; that account records the admin,
/// the mint and its bump; and the mint gets mutable metadata with the name,
/// symbol and URI given and no seller fee, paid for and updatable by the admin,
/// signed for by the authority account with its seeds "mint_authority", mint
/// and bump.
pub proof fn law_token_launch_sets_up(
    t: TokenLaunch,
    a: CreateToken,
    decimals: u8,
    name: String,
    symbol: String,
    uri: String,
)
    requires
        token_launch(t, a, decimals, name, symbol, uri),
    ensures
        t.mint.mint == a.mint,
        t.mint.decimals == decimals,
        t.mint.mint_authority == a.mint_authority,
        t.mint.freeze_authority == a.mint_authority,
        t.authority.admin == a.admin,
        t.authority.mint == a.mint,
        t.authority.bump == a.mint_authority_bump,
        t.metadata.metadata == a.metadata,
        t.metadata.mint == a.mint,
        t.metadata.mint_authority == a.mint_authority,
        t.metadata.payer == a.admin,
        t.metadata.update_authority == a.admin,
        t.metadata.data.name == name,
        t.metadata.data.symbol == symbol,
        t.metadata.data.uri == uri,
        t.metadata.data.seller_fee_basis_points == 0,
        t.metadata.is_mutable,
        t.metadata.update_authority_is_signer,
        seeds_view(t.metadata.signer_seeds@) == seq![mint_authority_tag(), a.mint@, seq![a.mint_authority_bump]],
{
    assert(seeds_view(t.metadata.signer_seeds@) =~= seq![
        mint_authority_tag(),
        a.mint@,
        seq![a.mint_authority_bump],
    ]);
}

/// Law: a mint to a wallet is accepted exactly when the signer is the admin the
/// authority account records and the amount is positive; another signer is
/// refused with `NotAdmin`, a zero amount with `ZeroAmount`.
pub proof fn law_mint_to_wallet_conditions(a: MintToWallet, amount: u64)
    ensures
        mint_error(a, amount) is None <==> (a.admin@ == a.mint_authority.admin@ && amount > 0),
        a.admin@ != a.mint_authority.admin@ ==> mint_error(a, amount) == Some(TokenDeployError::NotAdmin),
        a.admin@ == a.mint_authority.admin@ && amount == 0 ==> mint_error(a, amount) == Some(
            TokenDeployError::ZeroAmount,
        ),
{
}

/// Law: a mint to a wallet mints exactly the amount asked for, of this mint,
/// into the recipient's token account, signed for by the authority account with
/// its seeds "mint_authority", mint and stored bump.
pub proof fn law_wallet_mint_moves_the_amount(m: MintTokens, a: MintToWallet, amount: u64)
    requires
        wallet_mint(m, a, amount),
    ensures
        m.amount == amount,
        m.mint == a.mint,
        m.to == a.recipient_token_account,
        m.authority == a.mint_authority_key,
        seeds_view(m.signer_seeds@) == seq![mint_authority_tag(), a.mint@, seq![a.mint_authority.bump]],
{
    assert(seeds_view(m.signer_seeds@) =~= seq![mint_authority_tag(), a.mint@, seq![a.mint_authority.bump]]);
}

/// Law: the accounts of a mint to a wallet pass exactly when the authority
/// account sits at the address its seeds and stored bump derive, belongs to this
/// mint, and records the signer as admin.
pub proof fn law_mint_accounts_checked(a: MintToWallet, program_id: Seq<u8>)
    ensures
        mint_accounts_error(a, program_id) is None <==> (program_address(
            seq![mint_authority_tag(), a.mint@, seq![a.mint_authority.bump]],
            program_id,
        ) == Some(a.mint_authority_key@) && a.mint_authority.mint@ == a.mint@ && a.mint_authority.admin@
            == a.admin@),
        mint_accounts_error(a, program_id) is Some ==> (mint_accounts_error(a, program_id) == Some(
            Rejection::<TokenDeployError>::Constraint(ConstraintError::Seeds),
        ) || mint_accounts_error(a, program_id) == Some(Rejection::<TokenDeployError>::Constraint(ConstraintError::HasOne))
            || mint_accounts_error(a, program_id) == Some(Rejection::Program(TokenDeployError::NotAdmin))),
{
    assert(seq![mint_authority_tag(), a.mint@].push(seq![a.mint_authority.bump]) =~= seq![
        mint_authority_tag(),
        a.mint@,
        seq![a.mint_authority.bump],
    ]);
}

/// Law: resolving the accounts of `create_token` passes the accounts on as they
/// were given, with the bump that the authority account's address was found
/// with, and only where that address and the metadata account's are the
/// canonical addresses of their seeds.
pub proof fn law_create_token_resolution(
    program_id: Seq<u8>,
    metadata_program: Seq<u8>,
    admin: Address,
    mint: Address,
    mint_authority: Address,
    metadata: Address,
)
    ensures
        resolved_create_token(program_id, metadata_program, admin, mint, mint_authority, metadata) matches Some(
            Ok(x),
        ) ==> {
            &&& x.admin == admin
            &&& x.mint == mint
            &&& x.mint_authority == mint_authority
            &&& x.metadata == metadata
            &&& canonical_address(seq![mint_authority_tag(), mint@], program_id) == Some(
                (mint_authority@, x.mint_authority_bump),
            )
            &&& canonical_key(spec_metadata_seeds(metadata_program, mint@), metadata_program) == Some(metadata@)
        },
{
}

/// Law: an NFT launch sets up a mint with no decimals whose mint and freeze
/// authority is the payer; mints exactly one unit of that mint into the payer's
/// token account on the payer's signature; gives it mutable metadata with the
/// name, symbol and URI given and no seller fee; and creates its master edition
/// at the master edition account, allowing no prints.
pub proof fn law_nft_launch_sets_up(t: NftLaunch, a: MintNft, name: String, symbol: String, uri: String)
    requires
        nft_launch(t, a, name, symbol, uri),
    ensures
        t.mint.mint == a.mint,
        t.mint.decimals == 0,
        t.mint.mint_authority == a.payer,
        t.mint.freeze_authority == a.payer,
        t.mint_to.mint == a.mint,
        t.mint_to.to == a.owner_token_account,
        t.mint_to.authority == a.payer,
        t.mint_to.amount == 1,
        t.metadata.metadata == a.metadata,
        t.metadata.mint == a.mint,
        t.metadata.mint_authority == a.payer,
        t.metadata.payer == a.payer,
        t.metadata.update_authority == a.payer,
        t.metadata.data.name == name,
        t.metadata.data.symbol == symbol,
        t.metadata.data.uri == uri,
        t.metadata.data.seller_fee_basis_points == 0,
        t.metadata.is_mutable,
        t.master_edition.edition == a.master_edition,
        t.master_edition.mint == a.mint,
        t.master_edition.metadata == a.metadata,
        t.master_edition.update_authority == a.payer,
        t.master_edition.mint_authority == a.payer,
        t.master_edition.payer == a.payer,
        t.master_edition.max_supply == Some(0u64),
{
}

/// Law: the metadata and master edition accounts of an NFT pass their checks
/// exactly when they sit at the canonical addresses of the metadata seeds and
/// the master edition seeds of the mint under the metadata program.
pub proof fn law_nft_accounts_checked(a: MintNft, metadata_program: Seq<u8>)
    ensures
        checked_nft_accounts(a, metadata_program) == Some(Ok::<(), ConstraintError>(())) <==> (canonical_key(
            spec_metadata_seeds(metadata_program, a.mint@),
            metadata_program,
        ) == Some(a.metadata@) && canonical_key(
            spec_master_edition_seeds(metadata_program, a.mint@),
            metadata_program,
        ) == Some(a.master_edition@)),
{
}

} // verus!
