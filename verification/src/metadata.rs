//! Token metadata requests and the metadata program's account seeds, shared by
//! the token issuer and the NFT minter.
use crate::address::{seeds_view, Address};
use vstd::prelude::*;

verus! {

/// Most characters in a token name (the metadata program's limit).
pub const NAME_MAX_CHARS: usize = 32;

/// Most characters in a token symbol (the metadata program's limit).
pub const SYMBOL_MAX_CHARS: usize = 10;

/// Most characters in a metadata URI (the metadata program's limit).
pub const URI_MAX_CHARS: usize = 200;

/// The metadata a token is given: no creators, collection or uses are attached.
#[derive(Clone, Debug)]
pub struct MetadataData {
    pub name: String,
    pub symbol: String,
    pub uri: String,
    pub seller_fee_basis_points: u16,
}

/// A request to the metadata program to create a token's metadata account.
/// When the mint authority is a program-derived account, `signer_seeds` are the
/// seeds (bump included) it signs with; otherwise they are empty.
#[derive(Clone, Debug)]
pub struct CreateMetadata {
    pub metadata: Address,
    pub mint: Address,
    pub mint_authority: Address,
    pub payer: Address,
    pub update_authority: Address,
    pub data: MetadataData,
    pub is_mutable: bool,
    pub update_authority_is_signer: bool,
    pub signer_seeds: Vec<Vec<u8>>,
}

/// A new mint account: its decimals and its mint and freeze authorities.
#[derive(Clone, Copy, Debug)]
pub struct MintSetup {
    pub mint: Address,
    pub decimals: u8,
    pub mint_authority: Address,
    pub freeze_authority: Address,
}

/// A request to the token program to mint `amount` base units of `mint` into
/// `to`. When the authority is a program-derived account, `signer_seeds` are
/// the seeds (bump included) it signs with; otherwise they are empty.
#[derive(Clone, Debug)]
pub struct MintTokens {
    pub mint: Address,
    pub to: Address,
    pub authority: Address,
    pub amount: u64,
    pub signer_seeds: Vec<Vec<u8>>,
}

/// The ASCII bytes of "metadata".
pub open spec fn metadata_tag() -> Seq<u8> {
    seq![109u8, 101u8, 116u8, 97u8, 100u8, 97u8, 116u8, 97u8]
}

/// The ASCII bytes of "edition".
pub open spec fn edition_tag() -> Seq<u8> {
    seq![101u8, 100u8, 105u8, 116u8, 105u8, 111u8, 110u8]
}

/// The seeds of a mint's metadata account, under the metadata program:
/// "metadata", the metadata program's address, and the mint.
pub open spec fn spec_metadata_seeds(metadata_program: Seq<u8>, mint: Seq<u8>) -> Seq<Seq<u8>> {
    seq![metadata_tag(), metadata_program, mint]
}

/// The seeds of a mint's master edition account, under the metadata program:
/// the metadata seeds followed by "edition".
pub open spec fn spec_master_edition_seeds(metadata_program: Seq<u8>, mint: Seq<u8>) -> Seq<Seq<u8>> {
    seq![metadata_tag(), metadata_program, mint, edition_tag()]
}

/// The seeds of a mint's metadata account.
pub fn metadata_seeds(metadata_program: &Address, mint: &Address) -> (s: Vec<Vec<u8>>)
    ensures
        seeds_view(s@) == spec_metadata_seeds(metadata_program@, mint@),
{
    let mut s: Vec<Vec<u8>> = Vec::new();
    s.push(vec![109u8, 101u8, 116u8, 97u8, 100u8, 97u8, 116u8, 97u8]);
    s.push(metadata_program.to_seed());
    s.push(mint.to_seed());
    assert(seeds_view(s@) =~= spec_metadata_seeds(metadata_program@, mint@));
    s
}

/// The seeds of a mint's master edition account.
pub fn master_edition_seeds(metadata_program: &Address, mint: &Address) -> (s: Vec<Vec<u8>>)
    ensures
        seeds_view(s@) == spec_master_edition_seeds(metadata_program@, mint@),
{
    let mut s: Vec<Vec<u8>> = Vec::new();
    s.push(vec![109u8, 101u8, 116u8, 97u8, 100u8, 97u8, 116u8, 97u8]);
    s.push(metadata_program.to_seed());
    s.push(mint.to_seed());
    s.push(vec![101u8, 100u8, 105u8, 116u8, 105u8, 111u8, 110u8]);
    assert(seeds_view(s@) =~= spec_master_edition_seeds(metadata_program@, mint@));
    s
}

/// A text field of token metadata.
#[derive(Clone, Copy, Debug, PartialEq, Eq, Structural)]
pub enum MetadataField {
    Name,
    Symbol,
    Uri,
}

/// The first of the name, symbol and URI that is over its limit, if any.
pub open spec fn metadata_limit_exceeded(name_len: nat, symbol_len: nat, uri_len: nat) -> Option<MetadataField> {
    if name_len > NAME_MAX_CHARS {
        Some(MetadataField::Name)
    } else if symbol_len > SYMBOL_MAX_CHARS {
        Some(MetadataField::Symbol)
    } else if uri_len > URI_MAX_CHARS {
        Some(MetadataField::Uri)
    } else {
        None
    }
}

/// Checks a name, symbol and URI (counted in characters) against the metadata
/// program's limits and returns the first that is over its limit.
pub fn check_metadata_limits(name: &str, symbol: &str, uri: &str) -> (r: Option<MetadataField>)
    ensures
        r == metadata_limit_exceeded(name@.len(), symbol@.len(), uri@.len()),
{
    if name.unicode_len() > NAME_MAX_CHARS {
        Some(MetadataField::Name)
    } else if symbol.unicode_len() > SYMBOL_MAX_CHARS {
        Some(MetadataField::Symbol)
    } else if uri.unicode_len() > URI_MAX_CHARS {
        Some(MetadataField::Uri)
    } else {
        None
    }
}

/// The metadata a token is created with: its name, symbol and URI, no seller
/// fee, and nothing else attached.
pub open spec fn plain_metadata(d: MetadataData, name: String, symbol: String, uri: String) -> bool {
    &&& d.name == name
    &&& d.symbol == symbol
    &&& d.uri == uri
    &&& d.seller_fee_basis_points == 0
}

} // verus!
