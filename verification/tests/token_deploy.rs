use anchor_lang::prelude::Pubkey;
use solana_rust::address::Address;
use solana_rust::constraint::{ConstraintError, Rejection};
use solana_rust::token_deploy::{
    check_mint_accounts, create_token, mint_authority_seeds, mint_authority_signer_seeds,
    mint_to_wallet, resolve_create_token, try_resolve_create_token, CreateToken, MintAuthority, MintToWallet,
    TokenDeployError,
};

fn addr(b: u8) -> Address {
    Address([b; 32])
}

fn accounts() -> CreateToken {
    CreateToken { admin: addr(1), mint: addr(2), mint_authority: addr(3), mint_authority_bump: 252, metadata: addr(4) }
}

#[test]
fn create_token_sets_up_mint_authority_and_metadata() {
    let t = create_token(&accounts(), 9, "My Token".to_string(), "MTK".to_string(), "https://x/meta.json".to_string()).unwrap();
    assert_eq!(t.mint.mint, addr(2));
    assert_eq!(t.mint.decimals, 9);
    assert_eq!(t.mint.mint_authority, addr(3));
    assert_eq!(t.mint.freeze_authority, addr(3));
    assert_eq!(t.authority.admin, addr(1));
    assert_eq!(t.authority.mint, addr(2));
    assert_eq!(t.authority.bump, 252);
    assert_eq!(t.metadata.metadata, addr(4));
    assert_eq!(t.metadata.mint_authority, addr(3));
    assert_eq!(t.metadata.payer, addr(1));
    assert_eq!(t.metadata.update_authority, addr(1));
    assert_eq!(t.metadata.data.name, "My Token");
    assert_eq!(t.metadata.data.symbol, "MTK");
    assert_eq!(t.metadata.data.uri, "https://x/meta.json");
    assert_eq!(t.metadata.data.seller_fee_basis_points, 0);
    assert!(t.metadata.is_mutable);
    assert!(t.metadata.update_authority_is_signer);
    assert_eq!(t.metadata.signer_seeds, vec![b"mint_authority".to_vec(), vec![2u8; 32], vec![252u8]]);
}

#[test]
fn create_token_limits() {
    let a = accounts();
    let r = |n: &str, s: &str, u: &str| create_token(&a, 0, n.to_string(), s.to_string(), u.to_string()).err();
    assert_eq!(r(&"n".repeat(33), &"s".repeat(11), &"u".repeat(201)), Some(TokenDeployError::NameTooLong));
    assert_eq!(r(&"n".repeat(32), &"s".repeat(11), &"u".repeat(201)), Some(TokenDeployError::SymbolTooLong));
    assert_eq!(r(&"n".repeat(32), &"s".repeat(10), &"u".repeat(201)), Some(TokenDeployError::UriTooLong));
    assert_eq!(r(&"n".repeat(32), &"s".repeat(10), &"u".repeat(200)), None);
    assert_eq!(r("ñññ", "", ""), None);
}

fn mint_accounts(signer: Address) -> MintToWallet {
    MintToWallet {
        admin: signer,
        mint: addr(2),
        mint_authority_key: addr(3),
        mint_authority: MintAuthority { admin: addr(1), mint: addr(2), bump: 252 },
        recipient: addr(5),
        recipient_token_account: addr(6),
    }
}

#[test]
fn admin_mints_and_non_admin_is_rejected() {
    let m = mint_to_wallet(&mint_accounts(addr(1)), 1000).unwrap();
    assert_eq!(m.mint, addr(2));
    assert_eq!(m.to, addr(6));
    assert_eq!(m.authority, addr(3));
    assert_eq!(m.amount, 1000);
    assert_eq!(m.signer_seeds, vec![b"mint_authority".to_vec(), vec![2u8; 32], vec![252u8]]);
    assert_eq!(mint_to_wallet(&mint_accounts(addr(9)), 1000).err(), Some(TokenDeployError::NotAdmin));
    assert_eq!(mint_to_wallet(&mint_accounts(addr(1)), 0).err(), Some(TokenDeployError::ZeroAmount));
    assert_eq!(mint_to_wallet(&mint_accounts(addr(9)), 0).err(), Some(TokenDeployError::NotAdmin));
}

#[test]
fn created_token_is_mintable_only_by_its_admin() {
    let launch = create_token(&accounts(), 6, "T".to_string(), "T".to_string(), "u".to_string()).unwrap();
    let mut m = mint_accounts(addr(1));
    m.mint_authority = launch.authority;
    assert!(mint_to_wallet(&m, 5).is_ok());
    m.admin = addr(7);
    assert_eq!(mint_to_wallet(&m, 5).err(), Some(TokenDeployError::NotAdmin));
}

#[test]
fn token_account_resolution_and_checks() {
    let pid = Address([11u8; 32]);
    let metadata_program = Address([12u8; 32]);
    let mint = addr(2);
    let (auth, bump) = Pubkey::find_program_address(&[b"mint_authority", &mint.0], &Pubkey::new_from_array(pid.0));
    let (meta, _) = Pubkey::find_program_address(
        &[b"metadata", &metadata_program.0, &mint.0],
        &Pubkey::new_from_array(metadata_program.0),
    );
    let auth = Address(auth.to_bytes());
    let meta = Address(meta.to_bytes());
    let a = resolve_create_token(&pid, &metadata_program, addr(1), mint, auth, meta).unwrap();
    assert_eq!(a.mint_authority_bump, bump);
    assert_eq!(resolve_create_token(&pid, &metadata_program, addr(1), mint, addr(3), meta).err(), Some(ConstraintError::Seeds));
    assert_eq!(resolve_create_token(&pid, &metadata_program, addr(1), mint, auth, addr(4)).err(), Some(ConstraintError::Seeds));
    let found = try_resolve_create_token(&pid, &metadata_program, addr(1), mint, auth, meta).unwrap().unwrap();
    assert_eq!((found.mint_authority, found.mint_authority_bump, found.metadata), (auth, bump, meta));
    assert_eq!(
        try_resolve_create_token(&pid, &metadata_program, addr(1), mint, addr(3), meta).map(|r| r.err()),
        Some(Some(ConstraintError::Seeds))
    );

    let mut m = MintToWallet {
        admin: addr(1),
        mint,
        mint_authority_key: auth,
        mint_authority: MintAuthority { admin: addr(1), mint, bump },
        recipient: addr(5),
        recipient_token_account: addr(6),
    };
    assert_eq!(check_mint_accounts(&m, &pid), Ok(()));
    m.admin = addr(9);
    assert_eq!(check_mint_accounts(&m, &pid), Err(Rejection::Program(TokenDeployError::NotAdmin)));
    m.mint_authority.mint = addr(8);
    assert_eq!(check_mint_accounts(&m, &pid), Err(Rejection::Constraint(ConstraintError::HasOne)));
    m.mint_authority.bump = bump.wrapping_sub(1);
    assert_eq!(check_mint_accounts(&m, &pid), Err(Rejection::Constraint(ConstraintError::Seeds)));
}

#[test]
fn mint_authority_seed_bytes() {
    assert_eq!(mint_authority_seeds(&addr(2)), vec![b"mint_authority".to_vec(), vec![2u8; 32]]);
    assert_eq!(mint_authority_signer_seeds(&addr(2), 7), vec![b"mint_authority".to_vec(), vec![2u8; 32], vec![7u8]]);
}

#[test]
fn token_error_codes() {
    assert_eq!(TokenDeployError::ZeroAmount.code(), 6000);
    assert_eq!(TokenDeployError::UriTooLong.code(), 6004);
    assert_eq!(TokenDeployError::NotAdmin.message(), "Only the admin who created this token can mint more of it");
}

#[test]
fn mints_are_signed_by_the_authority_account() {
    let pid = Address([11u8; 32]);
    let mint = addr(2);
    let (auth, bump) = Pubkey::find_program_address(&[b"mint_authority", &mint.0], &Pubkey::new_from_array(pid.0));
    let a = MintToWallet {
        admin: addr(1),
        mint,
        mint_authority_key: Address(auth.to_bytes()),
        mint_authority: MintAuthority { admin: addr(1), mint, bump },
        recipient: addr(5),
        recipient_token_account: addr(6),
    };
    assert_eq!(check_mint_accounts(&a, &pid), Ok(()));
    let m = mint_to_wallet(&a, 3).unwrap();
    let seeds: Vec<&[u8]> = m.signer_seeds.iter().map(|s| s.as_slice()).collect();
    let signer = Pubkey::create_program_address(&seeds, &Pubkey::new_from_array(pid.0)).unwrap();
    assert_eq!(signer, auth);
}
