use anchor_lang::prelude::Pubkey;
use solana_rust::address::{address_matches, find_address, Address};

#[test]
fn find_address_matches_the_runtime_derivation() {
    let program = Address([3u8; 32]);
    let seeds = vec![b"vault".to_vec(), vec![9u8; 32]];
    let (k, b) = find_address(&seeds, &program).unwrap();
    let (pk, pb) = Pubkey::find_program_address(&[b"vault", &[9u8; 32]], &Pubkey::new_from_array(program.0));
    assert_eq!(k.0, pk.to_bytes());
    assert_eq!(b, pb);
    assert_ne!(k, program);
    assert!(b >= 1);
}

#[test]
fn stored_bump_rederives_the_found_address() {
    let program = Address([4u8; 32]);
    let seeds = vec![b"campaign".to_vec(), vec![1u8; 32], 5u64.to_le_bytes().to_vec()];
    let (k, b) = find_address(&seeds, &program).unwrap();
    assert!(address_matches(seeds.clone(), b, &program, &k));
    assert!(!address_matches(seeds.clone(), b, &program, &Address([0u8; 32])));
    let other = Pubkey::create_program_address(
        &[b"campaign", &[1u8; 32], &5u64.to_le_bytes(), &[b.wrapping_sub(1)]],
        &Pubkey::new_from_array(program.0),
    );
    if let Ok(o) = other {
        assert_ne!(o.to_bytes(), k.0);
        assert!(!address_matches(seeds, b.wrapping_sub(1), &program, &k));
    }
}

#[test]
fn too_many_or_too_long_seeds_derive_nothing() {
    let program = Address([5u8; 32]);
    let long = vec![vec![0u8; 33]];
    assert!(find_address(&long, &program).is_none());
    assert!(!address_matches(long, 0, &program, &program));
    let many: Vec<Vec<u8>> = (0..16).map(|i| vec![i as u8]).collect();
    assert!(find_address(&many, &program).is_none());
}

#[test]
fn address_equality_is_bytewise() {
    let mut a = Address([1u8; 32]);
    let b = Address([1u8; 32]);
    assert_eq!(a, b);
    a.0[31] = 2;
    assert_ne!(a, b);
    assert_eq!(Address([7u8; 32]).to_seed(), vec![7u8; 32]);
}

#[test]
fn found_bump_is_the_highest_that_works() {
    let program = Address([6u8; 32]);
    for tag in 0u8..20 {
        let seeds = vec![vec![tag], vec![1u8, 2, 3]];
        let (k, b) = find_address(&seeds, &program).unwrap();
        for higher in (b as u16 + 1)..=255 {
            let r = Pubkey::create_program_address(&[&[tag], &[1u8, 2, 3], &[higher as u8]], &Pubkey::new_from_array(program.0));
            assert!(r.is_err());
        }
        assert!(address_matches(seeds, b, &program, &k));
    }
}
