use anchor_lang::prelude::Pubkey;
use solana_rust::address::Address;
use solana_rust::constraint::ConstraintError;
use solana_rust::metadata::{master_edition_seeds, metadata_seeds};
use solana_rust::nft_mint::{check_nft_accounts, try_check_nft_accounts, mint_nft, MintNft, NftError};

fn addr(b: u8) -> Address {
    Address([b; 32])
}

fn accounts() -> MintNft {
    MintNft { payer: addr(1), mint: addr(2), owner_token_account: addr(3), metadata: addr(4), master_edition: addr(5) }
}

#[test]
fn mint_nft_is_one_of_one() {
    let t = mint_nft(&accounts(), "Cat".to_string(), "CAT".to_string(), "ipfs://Qm".to_string()).unwrap();
    assert_eq!(t.mint.decimals, 0);
    assert_eq!(t.mint.mint_authority, addr(1));
    assert_eq!(t.mint.freeze_authority, addr(1));
    assert_eq!(t.mint_to.amount, 1);
    assert_eq!(t.mint_to.to, addr(3));
    assert_eq!(t.mint_to.authority, addr(1));
    assert!(t.mint_to.signer_seeds.is_empty());
    assert_eq!(t.metadata.data.name, "Cat");
    assert_eq!(t.metadata.data.symbol, "CAT");
    assert_eq!(t.metadata.data.uri, "ipfs://Qm");
    assert_eq!(t.metadata.update_authority, addr(1));
    assert!(t.metadata.is_mutable);
    assert_eq!(t.master_edition.max_supply, Some(0));
    assert_eq!(t.master_edition.edition, addr(5));
    assert_eq!(t.master_edition.metadata, addr(4));
}

#[test]
fn mint_nft_limits() {
    let a = accounts();
    let r = |n: &str, s: &str, u: &str| mint_nft(&a, n.to_string(), s.to_string(), u.to_string()).err();
    assert_eq!(r(&"n".repeat(33), "", ""), Some(NftError::NameTooLong));
    assert_eq!(r("", &"s".repeat(11), &"u".repeat(201)), Some(NftError::SymbolTooLong));
    assert_eq!(r("", "", &"u".repeat(201)), Some(NftError::UriTooLong));
    assert_eq!(r(&"n".repeat(32), &"s".repeat(10), &"u".repeat(200)), None);
    assert_eq!(NftError::UriTooLong.code(), 6002);
    assert_eq!(NftError::NameTooLong.message(), "Name must be at most 32 characters (Metaplex's on-chain limit)");
}

#[test]
fn nft_metadata_accounts_are_checked() {
    let program = addr(12);
    let mint = addr(2);
    let p = Pubkey::new_from_array(program.0);
    let (meta, _) = Pubkey::find_program_address(&[b"metadata", &program.0, &mint.0], &p);
    let (ed, _) = Pubkey::find_program_address(&[b"metadata", &program.0, &mint.0, b"edition"], &p);
    let mut a = accounts();
    a.metadata = Address(meta.to_bytes());
    a.master_edition = Address(ed.to_bytes());
    assert_eq!(check_nft_accounts(&a, &program), Ok(()));
    let mut b = a;
    b.master_edition = a.metadata;
    assert_eq!(check_nft_accounts(&b, &program), Err(ConstraintError::Seeds));
    assert_eq!(try_check_nft_accounts(&a, &program), Some(Ok(())));
    assert_eq!(try_check_nft_accounts(&b, &program), Some(Err(ConstraintError::Seeds)));
    let mut c = a;
    c.metadata = addr(40);
    assert_eq!(try_check_nft_accounts(&c, &program), Some(Err(ConstraintError::Seeds)));
    assert_eq!(metadata_seeds(&program, &mint), vec![b"metadata".to_vec(), vec![12u8; 32], vec![2u8; 32]]);
    assert_eq!(
        master_edition_seeds(&program, &mint),
        vec![b"metadata".to_vec(), vec![12u8; 32], vec![2u8; 32], b"edition".to_vec()]
    );
}
