use solana_rust::address::Address;
use solana_rust::crowdfunding::{
    campaign_deadline, campaign_seeds, campaign_signer_seeds, check_campaign_params,
    check_contribute_accounts, check_refund_accounts, check_withdraw_accounts, claim_refund,
    contribute, contribution_seeds, create_campaign, plan_contribution, record_contribution,
    resolve_create_campaign, vault_seeds, withdraw, Campaign, ClaimRefund, Contribute,
    Contribution, CreateCampaign, CrowdfundingError, Withdraw, SECONDS_PER_DAY,
};
use solana_rust::constraint::{ConstraintError, Rejection};
use solana_rust::crowdfunding::{create_campaign_now, plan_contribution_now, plan_refund_now, InstructionError};
use solana_rust::crowdfunding::{try_check_contribute_accounts, try_resolve_create_campaign};
use anchor_lang::prelude::Pubkey;

fn addr(b: u8) -> Address {
    Address([b; 32])
}

fn program_id() -> Address {
    addr(77)
}

fn pda(seeds: &[&[u8]], program: &Address) -> (Address, u8) {
    let (k, b) = Pubkey::find_program_address(seeds, &Pubkey::new_from_array(program.0));
    (Address(k.to_bytes()), b)
}

fn campaign(goal: u64, raised: u64, deadline: i64) -> Campaign {
    Campaign {
        creator: addr(1),
        campaign_id: 7,
        title: String::from("Solar Panels"),
        description: String::from("Installing solar energy"),
        image_url: String::new(),
        token_mint: addr(2),
        goal,
        raised,
        deadline,
        withdrawn: false,
        contributors_count: 0,
        bump: 250,
        vault_bump: 251,
    }
}

fn empty_contribution() -> Contribution {
    Contribution {
        campaign: addr(0),
        contributor: addr(0),
        amount: 0,
        last_contributed_at: 0,
        refunded: false,
        bump: 0,
    }
}

fn contribute_accounts(c: Campaign) -> Contribute {
    Contribute {
        contributor: addr(5),
        campaign_key: addr(3),
        campaign: c,
        vault: addr(4),
        contribution_key: addr(6),
        contribution: empty_contribution(),
        contribution_bump: 249,
        contributor_token_account: addr(8),
    }
}

fn withdraw_accounts(c: Campaign, signer: Address) -> Withdraw {
    Withdraw {
        creator: signer,
        campaign_key: addr(3),
        campaign: c,
        vault: addr(4),
        token_mint: addr(2),
        creator_token_account: addr(9),
    }
}

fn refund_accounts(c: Campaign, amount: u64, refunded: bool) -> ClaimRefund {
    ClaimRefund {
        contributor: addr(5),
        campaign_key: addr(3),
        campaign: c,
        vault: addr(4),
        contribution_key: addr(6),
        contribution: Contribution {
            campaign: addr(3),
            contributor: addr(5),
            amount,
            last_contributed_at: 10,
            refunded,
            bump: 249,
        },
        contributor_token_account: addr(8),
    }
}

fn create_accounts() -> CreateCampaign {
    CreateCampaign {
        creator: addr(1),
        token_mint: addr(2),
        campaign: addr(3),
        vault: addr(4),
        campaign_bump: 254,
        vault_bump: 253,
    }
}

#[test]
fn create_campaign_fills_the_account_and_event() {
    let now = 1_700_000_000;
    let (c, ev) = create_campaign(
        &create_accounts(),
        42,
        String::from("Solar Panels for Rural Schools"),
        String::from("Installing solar energy"),
        String::from("ipfs://x"),
        500,
        30,
        now,
    )
    .unwrap();
    assert_eq!(c.creator, addr(1));
    assert_eq!(c.campaign_id, 42);
    assert_eq!(c.title, "Solar Panels for Rural Schools");
    assert_eq!(c.token_mint, addr(2));
    assert_eq!(c.goal, 500);
    assert_eq!(c.raised, 0);
    assert_eq!(c.deadline, now + 30 * 86_400);
    assert!(!c.withdrawn);
    assert_eq!(c.contributors_count, 0);
    assert_eq!(c.bump, 254);
    assert_eq!(c.vault_bump, 253);
    assert_eq!(ev.campaign, addr(3));
    assert_eq!(ev.creator, addr(1));
    assert_eq!(ev.title, "Solar Panels for Rural Schools");
    assert_eq!(ev.goal, 500);
    assert_eq!(ev.deadline, c.deadline);
}

#[test]
fn campaign_parameter_errors_come_in_order() {
    let long201 = "d".repeat(201);
    assert_eq!(check_campaign_params("Tiny", "", "", 1, 1), Err(CrowdfundingError::InvalidTitle));
    assert_eq!(check_campaign_params(&"t".repeat(65), "", "", 1, 1), Err(CrowdfundingError::InvalidTitle));
    assert_eq!(check_campaign_params("Title", &long201, &long201, 0, 0), Err(CrowdfundingError::DescriptionTooLong));
    assert_eq!(check_campaign_params("Title", "", &long201, 0, 0), Err(CrowdfundingError::ImageUrlTooLong));
    assert_eq!(check_campaign_params("Title", "", "", 0, 0), Err(CrowdfundingError::InvalidGoal));
    assert_eq!(check_campaign_params("Title", "", "", 1, 0), Err(CrowdfundingError::InvalidDuration));
    assert_eq!(check_campaign_params("Title", "", "", 1, 366), Err(CrowdfundingError::InvalidDuration));
    assert_eq!(check_campaign_params("Title", &"d".repeat(200), &"u".repeat(200), 1, 365), Ok(()));
    assert_eq!(check_campaign_params(&"t".repeat(64), "", "", 1, 1), Ok(()));
}

#[test]
fn title_length_counts_characters_not_bytes() {
    // five characters, more than five bytes
    assert_eq!(check_campaign_params("héllö", "", "", 1, 1), Ok(()));
    assert_eq!(check_campaign_params("éééé", "", "", 1, 1), Err(CrowdfundingError::InvalidTitle));
}

#[test]
fn deadline_overflow_is_math_overflow() {
    assert_eq!(campaign_deadline(0, 2), Ok(2 * SECONDS_PER_DAY));
    assert_eq!(campaign_deadline(i64::MAX - 86_399, 1), Err(CrowdfundingError::MathOverflow));
    assert_eq!(campaign_deadline(i64::MAX - 86_400, 1), Ok(i64::MAX));
    assert_eq!(campaign_deadline(i64::MIN, 1), Ok(i64::MIN + 86_400));
    let r = create_campaign(
        &create_accounts(),
        1,
        String::from("Title"),
        String::new(),
        String::new(),
        5,
        10,
        i64::MAX - 100,
    );
    assert_eq!(r.err(), Some(CrowdfundingError::MathOverflow));
}

#[test]
fn contribution_checks() {
    let c = campaign(500, 0, 1000);
    let mut a = contribute_accounts(c);
    assert_eq!(contribute(&mut a, 0, 10).err(), Some(CrowdfundingError::ZeroAmount));
    assert_eq!(contribute(&mut a, 5, 1000).err(), Some(CrowdfundingError::CampaignExpired));
    assert_eq!(contribute(&mut a, 5, 2000).err(), Some(CrowdfundingError::CampaignExpired));
    assert_eq!(a.campaign.raised, 0);
    assert_eq!(a.contribution.amount, 0);
}

#[test]
fn contributions_accumulate_and_count_contributors_once() {
    let mut a = contribute_accounts(campaign(500, 0, 1000));
    let (t, ev) = contribute(&mut a, 100, 10).unwrap();
    assert_eq!(t.from, addr(8));
    assert_eq!(t.to, addr(4));
    assert_eq!(t.authority, addr(5));
    assert_eq!(t.amount, 100);
    assert!(t.signer_seeds.is_empty());
    assert_eq!(ev.amount, 100);
    assert_eq!(ev.total_raised, 100);
    assert_eq!(ev.campaign, addr(3));
    assert_eq!(ev.contributor, addr(5));
    assert_eq!(a.campaign.raised, 100);
    assert_eq!(a.campaign.contributors_count, 1);
    assert_eq!(a.contribution.amount, 100);
    assert_eq!(a.contribution.campaign, addr(3));
    assert_eq!(a.contribution.contributor, addr(5));
    assert_eq!(a.contribution.last_contributed_at, 10);
    assert_eq!(a.contribution.bump, 249);

    let (_, ev2) = contribute(&mut a, 400, 20).unwrap();
    assert_eq!(ev2.total_raised, 500);
    assert_eq!(a.campaign.raised, 500);
    assert_eq!(a.campaign.contributors_count, 1);
    assert_eq!(a.contribution.amount, 500);
    assert_eq!(a.contribution.last_contributed_at, 20);
}

#[test]
fn contribution_overflow_changes_nothing() {
    let mut a = contribute_accounts(campaign(500, u64::MAX - 5, 1000));
    assert_eq!(plan_contribution(&a, 10, 0).unwrap().amount, 10);
    assert_eq!(record_contribution(&mut a, 10, 0).err(), Some(CrowdfundingError::MathOverflow));
    assert_eq!(a.campaign.raised, u64::MAX - 5);
    assert_eq!(a.campaign.contributors_count, 0);
    assert_eq!(a.contribution.amount, 0);
    let mut b = contribute_accounts(campaign(500, 0, 1000));
    b.campaign.contributors_count = u64::MAX;
    assert_eq!(contribute(&mut b, 1, 0).err(), Some(CrowdfundingError::MathOverflow));
    assert_eq!(b.campaign.raised, 0);
}

#[test]
fn creator_withdraws_once_and_second_withdraw_is_rejected() {
    let mut a = withdraw_accounts(campaign(500, 500, 1000), addr(1));
    let (t, ev) = withdraw(&mut a).unwrap();
    assert_eq!(t.from, addr(4));
    assert_eq!(t.to, addr(9));
    assert_eq!(t.authority, addr(3));
    assert_eq!(t.amount, 500);
    assert_eq!(
        t.signer_seeds,
        vec![b"campaign".to_vec(), vec![1u8; 32], 7u64.to_le_bytes().to_vec(), vec![250u8]]
    );
    assert_eq!(ev.amount, 500);
    assert_eq!(ev.creator, addr(1));
    assert_eq!(ev.campaign, addr(3));
    assert!(a.campaign.withdrawn);
    assert_eq!(a.campaign.raised, 500);
    assert_eq!(withdraw(&mut a).err(), Some(CrowdfundingError::AlreadyWithdrawn));
}

#[test]
fn withdraw_errors() {
    let mut stranger = withdraw_accounts(campaign(500, 500, 1000), addr(66));
    assert_eq!(withdraw(&mut stranger).err(), Some(CrowdfundingError::NotCreator));
    let mut short = withdraw_accounts(campaign(500, 499, 1000), addr(1));
    assert_eq!(withdraw(&mut short).err(), Some(CrowdfundingError::GoalNotReached));
    assert!(!short.campaign.withdrawn);
}

#[test]
fn refund_after_failed_campaign_returns_the_contribution_once() {
    let mut a = refund_accounts(campaign(500, 300, 1000), 300, false);
    let (t, ev) = claim_refund(&mut a, 1000).unwrap();
    assert_eq!(t.from, addr(4));
    assert_eq!(t.to, addr(8));
    assert_eq!(t.authority, addr(3));
    assert_eq!(t.amount, 300);
    assert_eq!(t.signer_seeds.len(), 4);
    assert_eq!(ev.amount, 300);
    assert_eq!(ev.contributor, addr(5));
    assert_eq!(ev.campaign, addr(3));
    assert!(a.contribution.refunded);
    assert_eq!(claim_refund(&mut a, 5000).err(), Some(CrowdfundingError::AlreadyRefunded));
}

#[test]
fn refund_errors() {
    let mut active = refund_accounts(campaign(500, 300, 1000), 300, false);
    assert_eq!(claim_refund(&mut active, 999).err(), Some(CrowdfundingError::CampaignStillActive));
    let mut reached = refund_accounts(campaign(500, 500, 1000), 300, false);
    assert_eq!(claim_refund(&mut reached, 1000).err(), Some(CrowdfundingError::GoalWasReached));
    let mut nothing = refund_accounts(campaign(500, 300, 1000), 0, false);
    assert_eq!(claim_refund(&mut nothing, 1000).err(), Some(CrowdfundingError::NothingToRefund));
    assert!(!nothing.contribution.refunded);
}

#[test]
fn withdraw_and_refund_never_both_succeed() {
    for raised in [0u64, 499, 500, 501] {
        let mut w = withdraw_accounts(campaign(500, raised, 1000), addr(1));
        let mut r = refund_accounts(campaign(500, raised, 1000), 10, false);
        let ok_w = withdraw(&mut w).is_ok();
        let ok_r = claim_refund(&mut r, 2000).is_ok();
        assert!(!(ok_w && ok_r));
        assert!(ok_w || ok_r);
    }
}

#[test]
fn contribute_and_refund_windows_are_disjoint() {
    for now in [0i64, 999, 1000, 1001] {
        let mut c = contribute_accounts(campaign(500, 0, 1000));
        let mut r = refund_accounts(campaign(500, 0, 1000), 10, false);
        let ok_c = contribute(&mut c, 1, now).is_ok();
        let ok_r = claim_refund(&mut r, now).is_ok();
        assert!(ok_c != ok_r);
    }
}

#[test]
fn refund_returns_the_sum_of_contributions() {
    let mut a = contribute_accounts(campaign(1000, 0, 100));
    contribute(&mut a, 30, 1).unwrap();
    contribute(&mut a, 12, 2).unwrap();
    let mut r = ClaimRefund {
        contributor: a.contributor,
        campaign_key: a.campaign_key,
        campaign: a.campaign.clone(),
        vault: a.vault,
        contribution_key: a.contribution_key,
        contribution: a.contribution,
        contributor_token_account: a.contributor_token_account,
    };
    let (t, _) = claim_refund(&mut r, 100).unwrap();
    assert_eq!(t.amount, 42);
}

#[test]
fn seeds_are_the_documented_bytes() {
    assert_eq!(
        campaign_seeds(&addr(1), 0x0102030405060708),
        vec![b"campaign".to_vec(), vec![1u8; 32], vec![8, 7, 6, 5, 4, 3, 2, 1]]
    );
    assert_eq!(vault_seeds(&addr(3)), vec![b"vault".to_vec(), vec![3u8; 32]]);
    assert_eq!(
        contribution_seeds(&addr(3), &addr(5)),
        vec![b"contribution".to_vec(), vec![3u8; 32], vec![5u8; 32]]
    );
    let c = campaign(1, 0, 0);
    assert_eq!(
        campaign_signer_seeds(&c),
        vec![b"campaign".to_vec(), vec![1u8; 32], 7u64.to_le_bytes().to_vec(), vec![250u8]]
    );
}

#[test]
fn resolve_create_campaign_finds_canonical_bumps() {
    let pid = program_id();
    let creator = addr(1);
    let id: u64 = 99;
    let (campaign_key, cb) = pda(&[b"campaign", &creator.0, &id.to_le_bytes()], &pid);
    let (vault_key, vb) = pda(&[b"vault", &campaign_key.0], &pid);
    let a = resolve_create_campaign(&pid, id, creator, addr(2), campaign_key, vault_key).unwrap();
    assert_eq!(a.campaign_bump, cb);
    assert_eq!(a.vault_bump, vb);
    assert_eq!(a.campaign, campaign_key);
    assert_ne!(campaign_key, creator);
    assert_eq!(
        resolve_create_campaign(&pid, id + 1, creator, addr(2), campaign_key, vault_key).err(),
        Some(ConstraintError::Seeds)
    );
    assert_eq!(
        resolve_create_campaign(&pid, id, creator, addr(2), campaign_key, addr(4)).err(),
        Some(ConstraintError::Seeds)
    );
}

#[test]
fn try_resolve_create_campaign_agrees_where_addresses_exist() {
    let pid = program_id();
    let creator = addr(1);
    let id: u64 = 99;
    let (campaign_key, cb) = pda(&[b"campaign", &creator.0, &id.to_le_bytes()], &pid);
    let (vault_key, vb) = pda(&[b"vault", &campaign_key.0], &pid);
    let a = try_resolve_create_campaign(&pid, id, creator, addr(2), campaign_key, vault_key)
        .unwrap()
        .unwrap();
    assert_eq!((a.campaign_bump, a.vault_bump), (cb, vb));
    assert_eq!(a.token_mint, addr(2));
    assert_eq!(
        try_resolve_create_campaign(&pid, id, creator, addr(2), addr(9), vault_key).map(|r| r.err()),
        Some(Some(ConstraintError::Seeds))
    );
    assert_eq!(
        try_resolve_create_campaign(&pid, id, creator, addr(2), campaign_key, campaign_key).map(|r| r.err()),
        Some(Some(ConstraintError::Seeds))
    );
}

fn real_campaign() -> (Address, Campaign, Address) {
    let pid = program_id();
    let creator = addr(1);
    let (campaign_key, cb) = pda(&[b"campaign", &creator.0, &7u64.to_le_bytes()], &pid);
    let (vault_key, vb) = pda(&[b"vault", &campaign_key.0], &pid);
    let mut c = campaign(500, 500, 1000);
    c.bump = cb;
    c.vault_bump = vb;
    (campaign_key, c, vault_key)
}

#[test]
fn created_campaign_passes_later_account_checks() {
    let pid = program_id();
    let (campaign_key, c, vault_key) = real_campaign();
    let mut w = withdraw_accounts(c.clone(), addr(1));
    w.campaign_key = campaign_key;
    w.vault = vault_key;
    assert_eq!(check_withdraw_accounts(&w, &pid), Ok(()));
    let mut stranger = w.clone();
    stranger.creator = addr(66);
    assert_eq!(
        check_withdraw_accounts(&stranger, &pid),
        Err(Rejection::Program(CrowdfundingError::NotCreator))
    );
    let mut wrong_mint = w.clone();
    wrong_mint.token_mint = addr(66);
    assert_eq!(
        check_withdraw_accounts(&wrong_mint, &pid),
        Err(Rejection::Constraint(ConstraintError::Address))
    );
    let mut wrong_bump = w.clone();
    wrong_bump.campaign.bump = c.bump.wrapping_sub(1);
    assert_eq!(
        check_withdraw_accounts(&wrong_bump, &pid),
        Err(Rejection::Constraint(ConstraintError::Seeds))
    );
    let mut wrong_vault = w.clone();
    wrong_vault.vault = addr(4);
    assert_eq!(
        check_withdraw_accounts(&wrong_vault, &pid),
        Err(Rejection::Constraint(ConstraintError::Seeds))
    );
}

#[test]
fn contribute_and_refund_account_checks() {
    let pid = program_id();
    let (campaign_key, c, vault_key) = real_campaign();
    let contributor = addr(5);
    let (contribution_key, bump) = pda(&[b"contribution", &campaign_key.0, &contributor.0], &pid);
    let mut a = contribute_accounts(c.clone());
    a.campaign_key = campaign_key;
    a.vault = vault_key;
    a.contribution_key = contribution_key;
    a.contribution_bump = bump;
    assert_eq!(check_contribute_accounts(&a, &pid), Ok(()));
    let mut other = a.clone();
    other.contributor = addr(6);
    assert_eq!(check_contribute_accounts(&other, &pid), Err(ConstraintError::Seeds));
    assert_eq!(try_check_contribute_accounts(&a, &pid), Some(Ok(())));
    assert_eq!(try_check_contribute_accounts(&other, &pid), Some(Err(ConstraintError::Seeds)));
    let mut stale_bump = a.clone();
    stale_bump.contribution_bump = bump.wrapping_sub(1);
    assert_eq!(try_check_contribute_accounts(&stale_bump, &pid), Some(Err(ConstraintError::Seeds)));
    let mut bad_vault = a.clone();
    bad_vault.vault = addr(4);
    assert_eq!(try_check_contribute_accounts(&bad_vault, &pid), Some(Err(ConstraintError::Seeds)));

    let mut r = refund_accounts(c, 10, false);
    r.campaign_key = campaign_key;
    r.vault = vault_key;
    r.contribution_key = contribution_key;
    r.contribution.bump = bump;
    assert_eq!(check_refund_accounts(&r, &pid), Ok(()));
    let mut not_theirs = r.clone();
    not_theirs.contribution.contributor = addr(6);
    assert_eq!(check_refund_accounts(&not_theirs, &pid), Err(ConstraintError::HasOne));
    let mut moved = r.clone();
    moved.contribution_key = addr(6);
    assert_eq!(check_refund_accounts(&moved, &pid), Err(ConstraintError::Seeds));
}

#[test]
fn error_codes_and_messages() {
    assert_eq!(CrowdfundingError::InvalidTitle.code(), 6000);
    assert_eq!(CrowdfundingError::NotCreator.code(), 6007);
    assert_eq!(CrowdfundingError::MathOverflow.code(), 6014);
    assert_eq!(
        CrowdfundingError::InvalidTitle.message(),
        "Title must be between 5 and 64 characters"
    );
    assert_eq!(CrowdfundingError::AlreadyWithdrawn.message(), "Funds have already been withdrawn");
    assert_eq!(ConstraintError::Seeds.code(), 2006);
    assert_eq!(ConstraintError::HasOne.code(), 2001);
    assert_eq!(ConstraintError::Address.code(), 2012);
}

#[test]
fn raised_equals_sum_of_contribution_records() {
    let mut alice = contribute_accounts(campaign(1000, 0, 100));
    contribute(&mut alice, 30, 1).unwrap();
    let mut bob = contribute_accounts(alice.campaign.clone());
    bob.contributor = addr(20);
    contribute(&mut bob, 45, 2).unwrap();
    alice.campaign = bob.campaign.clone();
    contribute(&mut alice, 5, 3).unwrap();
    assert_eq!(alice.campaign.raised, alice.contribution.amount + bob.contribution.amount);
    assert_eq!(alice.campaign.raised, 80);
    assert_eq!(alice.campaign.contributors_count, 2);
    let mut r = ClaimRefund {
        contributor: alice.contributor,
        campaign_key: alice.campaign_key,
        campaign: alice.campaign.clone(),
        vault: alice.vault,
        contribution_key: alice.contribution_key,
        contribution: alice.contribution,
        contributor_token_account: alice.contributor_token_account,
    };
    claim_refund(&mut r, 100).unwrap();
    assert_eq!(r.campaign.raised, r.contribution.amount + bob.contribution.amount);
}

#[test]
fn clock_reading_instructions_off_chain() {
    // Off chain the cluster clock cannot be read, so only the checks made before it show.
    let r = create_campaign_now(&create_accounts(), 1, String::from("Tiny"), String::new(), String::new(), 1, 1);
    assert_eq!(r.err(), Some(InstructionError::Program(CrowdfundingError::InvalidTitle)));
    let r = create_campaign_now(&create_accounts(), 1, String::from("Title"), String::new(), String::new(), 1, 1);
    assert_eq!(r.err(), Some(InstructionError::ClockUnavailable));
    let a = contribute_accounts(campaign(500, 0, 1000));
    assert_eq!(plan_contribution_now(&a, 0).err(), Some(InstructionError::Program(CrowdfundingError::ZeroAmount)));
    assert_eq!(plan_contribution_now(&a, 1).err(), Some(InstructionError::ClockUnavailable));
    let r = refund_accounts(campaign(500, 0, 1000), 1, false);
    assert_eq!(plan_refund_now(&r).err(), Some(InstructionError::ClockUnavailable));
}

#[test]
fn vault_transfers_are_signed_by_the_campaign_account() {
    let pid = program_id();
    let (campaign_key, c, vault_key) = real_campaign();
    let mut w = withdraw_accounts(c, addr(1));
    w.campaign_key = campaign_key;
    w.vault = vault_key;
    assert_eq!(check_withdraw_accounts(&w, &pid), Ok(()));
    let (t, _) = withdraw(&mut w).unwrap();
    let seeds: Vec<&[u8]> = t.signer_seeds.iter().map(|s| s.as_slice()).collect();
    let signer = Pubkey::create_program_address(&seeds, &Pubkey::new_from_array(pid.0)).unwrap();
    assert_eq!(Address(signer.to_bytes()), t.authority);
    assert_eq!(t.authority, campaign_key);
}

#[test]
fn instruction_errors_name_the_program_error() {
    assert_eq!(InstructionError::Program(CrowdfundingError::ZeroAmount).program_error(), Some(CrowdfundingError::ZeroAmount));
    assert_eq!(
        InstructionError::RefusedAt(CrowdfundingError::CampaignExpired, 5).program_error(),
        Some(CrowdfundingError::CampaignExpired)
    );
    assert_eq!(InstructionError::ClockUnavailable.program_error(), None);
}

#[test]
fn contributors_count_is_number_of_nonempty_records() {
    let mut alice = contribute_accounts(campaign(1000, 0, 100));
    contribute(&mut alice, 30, 1).unwrap();
    let mut bob = contribute_accounts(alice.campaign.clone());
    bob.contributor = addr(20);
    assert_eq!(contribute(&mut bob, 0, 2).err(), Some(CrowdfundingError::ZeroAmount));
    assert_eq!(bob.campaign.contributors_count, 1);
    contribute(&mut bob, 45, 2).unwrap();
    alice.campaign = bob.campaign.clone();
    contribute(&mut alice, 5, 3).unwrap();
    let records = [alice.contribution, bob.contribution];
    let nonempty = records.iter().filter(|r| r.amount > 0).count() as u64;
    assert_eq!(alice.campaign.contributors_count, nonempty);
    assert_eq!(nonempty, 2);
    let mut r = ClaimRefund {
        contributor: alice.contributor,
        campaign_key: alice.campaign_key,
        campaign: alice.campaign.clone(),
        vault: alice.vault,
        contribution_key: alice.contribution_key,
        contribution: alice.contribution,
        contributor_token_account: alice.contributor_token_account,
    };
    claim_refund(&mut r, 100).unwrap();
    assert_eq!(r.campaign.contributors_count, 2);
    assert_eq!(r.contribution.amount, 35);
}

#[test]
fn withdrawal_happens_once_whatever_follows() {
    let mut w = withdraw_accounts(campaign(100, 100, 1000), addr(1));
    assert!(withdraw(&mut w).is_ok());
    // More contributions arrive before the deadline.
    let mut a = contribute_accounts(w.campaign.clone());
    contribute(&mut a, 50, 10).unwrap();
    assert_eq!(a.campaign.raised, 150);
    let mut again = withdraw_accounts(a.campaign.clone(), addr(1));
    let before = again.clone();
    assert_eq!(withdraw(&mut again).err(), Some(CrowdfundingError::AlreadyWithdrawn));
    assert_eq!(again.campaign.raised, before.campaign.raised);
    assert!(again.campaign.withdrawn);
    let mut stranger = withdraw_accounts(a.campaign.clone(), addr(66));
    assert_eq!(withdraw(&mut stranger).err(), Some(CrowdfundingError::NotCreator));
    // No refund before or after the deadline.
    let mut early = refund_accounts(a.campaign.clone(), 50, false);
    assert_eq!(claim_refund(&mut early, 999).err(), Some(CrowdfundingError::CampaignStillActive));
    let mut late = refund_accounts(a.campaign.clone(), 50, false);
    assert_eq!(claim_refund(&mut late, 1000).err(), Some(CrowdfundingError::GoalWasReached));
}

#[test]
fn no_withdrawal_after_a_refund() {
    let mut r = refund_accounts(campaign(500, 100, 1000), 100, false);
    claim_refund(&mut r, 1000).unwrap();
    // Contributions are refused from then on, so the goal stays out of reach.
    let mut a = contribute_accounts(r.campaign.clone());
    assert_eq!(contribute(&mut a, 400, 1001).err(), Some(CrowdfundingError::CampaignExpired));
    assert_eq!(a.campaign.raised, 100);
    let mut w = withdraw_accounts(a.campaign.clone(), addr(1));
    assert_eq!(withdraw(&mut w).err(), Some(CrowdfundingError::GoalNotReached));
    let mut stranger = withdraw_accounts(a.campaign.clone(), addr(66));
    assert_eq!(withdraw(&mut stranger).err(), Some(CrowdfundingError::NotCreator));
}
