//! SPL-token crowdfunding pools.
//!
//! A creator opens a campaign with a goal and a deadline; contributors move
//! tokens into the campaign's vault; once the goal is met the creator withdraws
//! the raised amount exactly once, and if the deadline passes without the goal
//! being met each contributor takes their own contribution back exactly once.
//!
//! Each instruction is split the way it runs on chain: the checks made before the
//! token transfer (which yield the transfer to perform), and the accounting made
//! after it. A failed instruction changes no account.
use crate::address::{address_matches, law_found_bump_rederives, canonical_address, find_address, program_address, seeds_view, Address};
use crate::constraint::{ConstraintError, Rejection};
use anchor_lang::prelude::{Clock, SolanaSysvar};
use vstd::prelude::*;
use vstd::pervasive::unreached;

verus! {

/// Seconds in a day, the unit of a campaign's duration.
pub const SECONDS_PER_DAY: i64 = 86_400;

/// Fewest characters in a campaign title.
pub const TITLE_MIN_CHARS: usize = 5;

/// Most characters in a campaign title.
pub const TITLE_MAX_CHARS: usize = 64;

/// Most characters in a campaign description.
pub const DESCRIPTION_MAX_CHARS: usize = 200;

/// Most characters in a campaign image URL.
pub const IMAGE_URL_MAX_CHARS: usize = 200;

/// Shortest campaign, in days.
pub const MIN_DURATION_DAYS: i64 = 1;

/// Longest campaign, in days.
pub const MAX_DURATION_DAYS: i64 = 365;

/// The program's own errors.
#[derive(Clone, Copy, Debug, PartialEq, Eq, Structural)]
pub enum CrowdfundingError {
    InvalidTitle,
    DescriptionTooLong,
    ImageUrlTooLong,
    InvalidGoal,
    InvalidDuration,
    ZeroAmount,
    CampaignExpired,
    NotCreator,
    GoalNotReached,
    AlreadyWithdrawn,
    CampaignStillActive,
    GoalWasReached,
    AlreadyRefunded,
    NothingToRefund,
    MathOverflow,
}

/// The position of an error in the program's error list.
pub open spec fn error_index(e: CrowdfundingError) -> u32 {
    match e {
        CrowdfundingError::InvalidTitle => 0,
        CrowdfundingError::DescriptionTooLong => 1,
        CrowdfundingError::ImageUrlTooLong => 2,
        CrowdfundingError::InvalidGoal => 3,
        CrowdfundingError::InvalidDuration => 4,
        CrowdfundingError::ZeroAmount => 5,
        CrowdfundingError::CampaignExpired => 6,
        CrowdfundingError::NotCreator => 7,
        CrowdfundingError::GoalNotReached => 8,
        CrowdfundingError::AlreadyWithdrawn => 9,
        CrowdfundingError::CampaignStillActive => 10,
        CrowdfundingError::GoalWasReached => 11,
        CrowdfundingError::AlreadyRefunded => 12,
        CrowdfundingError::NothingToRefund => 13,
        CrowdfundingError::MathOverflow => 14,
    }
}

impl CrowdfundingError {
    /// The error's code: program errors are numbered from 6000 in order.
    pub fn code(&self) -> (c: u32)
        ensures
            c == 6000 + error_index(*self),
    {
        match self {
            CrowdfundingError::InvalidTitle => 6000,
            CrowdfundingError::DescriptionTooLong => 6001,
            CrowdfundingError::ImageUrlTooLong => 6002,
            CrowdfundingError::InvalidGoal => 6003,
            CrowdfundingError::InvalidDuration => 6004,
            CrowdfundingError::ZeroAmount => 6005,
            CrowdfundingError::CampaignExpired => 6006,
            CrowdfundingError::NotCreator => 6007,
            CrowdfundingError::GoalNotReached => 6008,
            CrowdfundingError::AlreadyWithdrawn => 6009,
            CrowdfundingError::CampaignStillActive => 6010,
            CrowdfundingError::GoalWasReached => 6011,
            CrowdfundingError::AlreadyRefunded => 6012,
            CrowdfundingError::NothingToRefund => 6013,
            CrowdfundingError::MathOverflow => 6014,
        }
    }

    /// The error's message.
    pub fn message(&self) -> (m: &'static str)
        ensures
            m@ == match *self {
                CrowdfundingError::InvalidTitle => "Title must be between 5 and 64 characters"@,
                CrowdfundingError::DescriptionTooLong => "Description must be at most 200 characters"@,
                CrowdfundingError::ImageUrlTooLong => "Image URL must be at most 200 characters"@,
                CrowdfundingError::InvalidGoal => "Goal must be greater than zero"@,
                CrowdfundingError::InvalidDuration => "Duration must be between 1 and 365 days"@,
                CrowdfundingError::ZeroAmount => "Amount must be greater than zero"@,
                CrowdfundingError::CampaignExpired => "This campaign's deadline has passed"@,
                CrowdfundingError::NotCreator => "Only the campaign creator can withdraw"@,
                CrowdfundingError::GoalNotReached => "The funding goal has not been reached yet"@,
                CrowdfundingError::AlreadyWithdrawn => "Funds have already been withdrawn"@,
                CrowdfundingError::CampaignStillActive => "Campaign is still active - wait for the deadline to claim a refund"@,
                CrowdfundingError::GoalWasReached => "The funding goal was reached - ask the creator to withdraw instead"@,
                CrowdfundingError::AlreadyRefunded => "This contribution has already been refunded"@,
                CrowdfundingError::NothingToRefund => "Nothing to refund for this contributor"@,
                CrowdfundingError::MathOverflow => "Math overflow"@,
            },
    {
        match self {
            CrowdfundingError::InvalidTitle => "Title must be between 5 and 64 characters",
            CrowdfundingError::DescriptionTooLong => "Description must be at most 200 characters",
            CrowdfundingError::ImageUrlTooLong => "Image URL must be at most 200 characters",
            CrowdfundingError::InvalidGoal => "Goal must be greater than zero",
            CrowdfundingError::InvalidDuration => "Duration must be between 1 and 365 days",
            CrowdfundingError::ZeroAmount => "Amount must be greater than zero",
            CrowdfundingError::CampaignExpired => "This campaign's deadline has passed",
            CrowdfundingError::NotCreator => "Only the campaign creator can withdraw",
            CrowdfundingError::GoalNotReached => "The funding goal has not been reached yet",
            CrowdfundingError::AlreadyWithdrawn => "Funds have already been withdrawn",
            CrowdfundingError::CampaignStillActive => "Campaign is still active - wait for the deadline to claim a refund",
            CrowdfundingError::GoalWasReached => "The funding goal was reached - ask the creator to withdraw instead",
            CrowdfundingError::AlreadyRefunded => "This contribution has already been refunded",
            CrowdfundingError::NothingToRefund => "Nothing to refund for this contributor",
            CrowdfundingError::MathOverflow => "Math overflow",
        }
    }
}

/// A funding pool: one account per (creator, campaign id).
#[derive(Clone, Debug)]
pub struct Campaign {
    pub creator: Address,
    pub campaign_id: u64,
    pub title: String,
    pub description: String,
    pub image_url: String,
    pub token_mint: Address,
    pub goal: u64,
    pub raised: u64,
    pub deadline: i64,
    pub withdrawn: bool,
    pub contributors_count: u64,
    pub bump: u8,
    pub vault_bump: u8,
}

/// What one contributor has put into one campaign.
#[derive(Clone, Copy, Debug)]
pub struct Contribution {
    pub campaign: Address,
    pub contributor: Address,
    pub amount: u64,
    pub last_contributed_at: i64,
    pub refunded: bool,
    pub bump: u8,
}

/// Emitted when a campaign is opened.
#[derive(Clone, Debug)]
pub struct CampaignCreated {
    pub campaign: Address,
    pub creator: Address,
    pub title: String,
    pub goal: u64,
    pub deadline: i64,
}

/// Emitted when tokens are contributed.
#[derive(Clone, Copy, Debug)]
pub struct ContributionMade {
    pub campaign: Address,
    pub contributor: Address,
    pub amount: u64,
    pub total_raised: u64,
}

/// Emitted when the creator withdraws.
#[derive(Clone, Copy, Debug)]
pub struct FundsWithdrawn {
    pub campaign: Address,
    pub creator: Address,
    pub amount: u64,
}

/// Emitted when a contributor is refunded.
#[derive(Clone, Copy, Debug)]
pub struct RefundClaimed {
    pub campaign: Address,
    pub contributor: Address,
    pub amount: u64,
}

/// A token transfer the program asks the token program to make. When the
/// `authority` is a program-derived account, `signer_seeds` are the seeds (bump
/// included) it signs with; otherwise they are empty.
#[derive(Clone, Debug)]
pub struct TokenTransfer {
    pub from: Address,
    pub to: Address,
    pub authority: Address,
    pub amount: u64,
    pub signer_seeds: Vec<Vec<u8>>,
}

// ----------------------------------------------------------------------------
// create_campaign
// ----------------------------------------------------------------------------

/// The accounts `create_campaign` reads: the creator, the token mint, the new
/// campaign account and its vault, with the bumps their addresses were found with.
#[derive(Clone, Copy, Debug)]
pub struct CreateCampaign {
    pub creator: Address,
    pub token_mint: Address,
    pub campaign: Address,
    pub vault: Address,
    pub campaign_bump: u8,
    pub vault_bump: u8,
}

/// The first parameter check that fails for a new campaign, if any.
pub open spec fn campaign_params_error(
    title_len: nat,
    description_len: nat,
    image_url_len: nat,
    goal: u64,
    duration_days: i64,
) -> Option<CrowdfundingError> {
    if !(TITLE_MIN_CHARS <= title_len && title_len <= TITLE_MAX_CHARS) {
        Some(CrowdfundingError::InvalidTitle)
    } else if description_len > DESCRIPTION_MAX_CHARS {
        Some(CrowdfundingError::DescriptionTooLong)
    } else if image_url_len > IMAGE_URL_MAX_CHARS {
        Some(CrowdfundingError::ImageUrlTooLong)
    } else if goal == 0 {
        Some(CrowdfundingError::InvalidGoal)
    } else if !(MIN_DURATION_DAYS <= duration_days && duration_days <= MAX_DURATION_DAYS) {
        Some(CrowdfundingError::InvalidDuration)
    } else {
        None
    }
}

/// Whether an integer fits in an `i64`.
pub open spec fn fits_i64(x: int) -> bool {
    i64::MIN <= x && x <= i64::MAX
}

/// The deadline `duration_days` days after `now`, if it fits in an `i64`.
pub open spec fn spec_deadline(now: i64, duration_days: i64) -> Option<i64> {
    let span: int = duration_days * SECONDS_PER_DAY;
    if fits_i64(span) && fits_i64(now + span) {
        Some((now + span) as i64)
    } else {
        None
    }
}

/// The campaign account as `create_campaign` fills it.
pub open spec fn opened_campaign(
    accounts: CreateCampaign,
    campaign_id: u64,
    title: String,
    description: String,
    image_url: String,
    goal: u64,
    deadline: i64,
) -> Campaign {
    Campaign {
        creator: accounts.creator,
        campaign_id,
        title,
        description,
        image_url,
        token_mint: accounts.token_mint,
        goal,
        raised: 0,
        deadline,
        withdrawn: false,
        contributors_count: 0,
        bump: accounts.campaign_bump,
        vault_bump: accounts.vault_bump,
    }
}

/// Checks the parameters of a new campaign.
pub fn check_campaign_params(
    title: &str,
    description: &str,
    image_url: &str,
    goal: u64,
    duration_days: i64,
) -> (r: Result<(), CrowdfundingError>)
    ensures
        match campaign_params_error(title@.len(), description@.len(), image_url@.len(), goal, duration_days) {
            Some(e) => r == Err::<(), CrowdfundingError>(e),
            None => r is Ok,
        },
{
    let title_chars: usize = title.unicode_len();
    if !(TITLE_MIN_CHARS <= title_chars && title_chars <= TITLE_MAX_CHARS) {
        return Err(CrowdfundingError::InvalidTitle);
    }
    if description.unicode_len() > DESCRIPTION_MAX_CHARS {
        return Err(CrowdfundingError::DescriptionTooLong);
    }
    if image_url.unicode_len() > IMAGE_URL_MAX_CHARS {
        return Err(CrowdfundingError::ImageUrlTooLong);
    }
    if goal == 0 {
        return Err(CrowdfundingError::InvalidGoal);
    }
    if !(MIN_DURATION_DAYS <= duration_days && duration_days <= MAX_DURATION_DAYS) {
        return Err(CrowdfundingError::InvalidDuration);
    }
    Ok(())
}

/// The deadline `duration_days` days after `now`, or `MathOverflow` where it
/// does not fit in an `i64`.
pub fn campaign_deadline(now: i64, duration_days: i64) -> (r: Result<i64, CrowdfundingError>)
    ensures
        match spec_deadline(now, duration_days) {
            Some(d) => r == Ok::<i64, CrowdfundingError>(d),
            None => r == Err::<i64, CrowdfundingError>(CrowdfundingError::MathOverflow),
        },
{
    match duration_days.checked_mul(SECONDS_PER_DAY) {
        None => Err(CrowdfundingError::MathOverflow),
        Some(span) => match now.checked_add(span) {
            None => Err(CrowdfundingError::MathOverflow),
            Some(d) => Ok(d),
        },
    }
}

/// Opens a campaign at time `now`: checks the parameters, computes the deadline,
/// and returns the new campaign account and the event it emits.
pub fn create_campaign(
    accounts: &CreateCampaign,
    campaign_id: u64,
    title: String,
    description: String,
    image_url: String,
    goal: u64,
    duration_days: i64,
    now: i64,
) -> (r: Result<(Campaign, CampaignCreated), CrowdfundingError>)
    ensures
        match campaign_params_error(title@.len(), description@.len(), image_url@.len(), goal, duration_days) {
            Some(e) => r == Err::<(Campaign, CampaignCreated), CrowdfundingError>(e),
            None => match spec_deadline(now, duration_days) {
                None => r == Err::<(Campaign, CampaignCreated), CrowdfundingError>(
                    CrowdfundingError::MathOverflow,
                ),
                Some(deadline) => r is Ok && r->Ok_0.0 == opened_campaign(
                    *accounts,
                    campaign_id,
                    title,
                    description,
                    image_url,
                    goal,
                    deadline,
                ) && r->Ok_0.1 == (CampaignCreated {
                    campaign: accounts.campaign,
                    creator: accounts.creator,
                    title,
                    goal,
                    deadline,
                }),
            },
        },
{
    check_campaign_params(title.as_str(), description.as_str(), image_url.as_str(), goal, duration_days)?;
    let deadline: i64 = campaign_deadline(now, duration_days)?;
    let event_title = title.clone();
    let campaign = Campaign {
        creator: accounts.creator,
        campaign_id,
        title,
        description,
        image_url,
        token_mint: accounts.token_mint,
        goal,
        raised: 0,
        deadline,
        withdrawn: false,
        contributors_count: 0,
        bump: accounts.campaign_bump,
        vault_bump: accounts.vault_bump,
    };
    let event = CampaignCreated {
        campaign: accounts.campaign,
        creator: accounts.creator,
        title: event_title,
        goal,
        deadline,
    };
    Ok((campaign, event))
}

// ----------------------------------------------------------------------------
// contribute
// ----------------------------------------------------------------------------

/// The accounts `contribute` reads and writes: the contributor, the campaign
/// (its address and data), the vault, the contributor's record for this campaign
/// (new records start empty) with the bump its address was found with, and the
/// contributor's token account.
#[derive(Clone, Debug)]
pub struct Contribute {
    pub contributor: Address,
    pub campaign_key: Address,
    pub campaign: Campaign,
    pub vault: Address,
    pub contribution_key: Address,
    pub contribution: Contribution,
    pub contribution_bump: u8,
    pub contributor_token_account: Address,
}

/// The first check that refuses a contribution of `amount` at time `now`.
pub open spec fn contribute_error(campaign: Campaign, amount: u64, now: i64) -> Option<CrowdfundingError> {
    if amount == 0 {
        Some(CrowdfundingError::ZeroAmount)
    } else if now >= campaign.deadline {
        Some(CrowdfundingError::CampaignExpired)
    } else {
        None
    }
}

/// Whether an integer fits in a `u64`.
pub open spec fn fits_u64(x: int) -> bool {
    0 <= x && x <= u64::MAX
}

/// The accounts after `amount` is recorded at time `now`, or `None` where a sum
/// overflows.
pub open spec fn recorded_contribution(a: Contribute, amount: u64, now: i64) -> Option<Contribute> {
    let new_amount: int = a.contribution.amount + amount;
    let new_raised: int = a.campaign.raised + amount;
    let is_new = a.contribution.amount == 0;
    let new_count: int = if is_new { a.campaign.contributors_count + 1 } else { a.campaign.contributors_count as int };
    if fits_u64(new_amount) && fits_u64(new_raised) && fits_u64(new_count) {
        Some(Contribute {
            contribution: Contribution {
                campaign: a.campaign_key,
                contributor: a.contributor,
                amount: new_amount as u64,
                last_contributed_at: now,
                refunded: a.contribution.refunded,
                bump: a.contribution_bump,
            },
            campaign: Campaign {
                raised: new_raised as u64,
                contributors_count: new_count as u64,
                ..a.campaign
            },
            ..a
        })
    } else {
        None
    }
}

/// The transfer a contribution makes: from the contributor's token account into
/// the vault, signed by the contributor.
pub open spec fn contribution_transfer(t: TokenTransfer, a: Contribute, amount: u64) -> bool {
    &&& t.from == a.contributor_token_account
    &&& t.to == a.vault
    &&& t.authority == a.contributor
    &&& t.amount == amount
    &&& t.signer_seeds@.len() == 0
}

/// The checks made before the transfer of a contribution.
pub fn check_contribution(campaign: &Campaign, amount: u64, now: i64) -> (r: Result<(), CrowdfundingError>)
    ensures
        match contribute_error(*campaign, amount, now) {
            Some(e) => r == Err::<(), CrowdfundingError>(e),
            None => r is Ok,
        },
{
    if amount == 0 {
        return Err(CrowdfundingError::ZeroAmount);
    }
    if now >= campaign.deadline {
        return Err(CrowdfundingError::CampaignExpired);
    }
    Ok(())
}

/// Checks a contribution and returns the token transfer it makes.
pub fn plan_contribution(accounts: &Contribute, amount: u64, now: i64) -> (r: Result<TokenTransfer, CrowdfundingError>)
    ensures
        match contribute_error(accounts.campaign, amount, now) {
            Some(e) => r is Err && r->Err_0 == e,
            None => r is Ok && contribution_transfer(r->Ok_0, *accounts, amount),
        },
{
    check_contribution(&accounts.campaign, amount, now)?;
    Ok(TokenTransfer {
        from: accounts.contributor_token_account,
        to: accounts.vault,
        authority: accounts.contributor,
        amount,
        signer_seeds: Vec::new(),
    })
}

/// Records a contribution of `amount` at time `now`, once its tokens have moved:
/// the contribution record and the campaign's raised total grow by `amount`, and
/// a contributor's first contribution counts them. Any overflow fails with
/// `MathOverflow` and changes nothing.
pub fn record_contribution(accounts: &mut Contribute, amount: u64, now: i64) -> (r: Result<ContributionMade, CrowdfundingError>)
    ensures
        match recorded_contribution(*old(accounts), amount, now) {
            Some(next) => *final(accounts) == next && r == Ok::<ContributionMade, CrowdfundingError>(
                ContributionMade {
                    campaign: old(accounts).campaign_key,
                    contributor: old(accounts).contributor,
                    amount,
                    total_raised: next.campaign.raised,
                },
            ),
            None => *final(accounts) == *old(accounts) && r == Err::<ContributionMade, CrowdfundingError>(
                CrowdfundingError::MathOverflow,
            ),
        },
{
    let is_new = accounts.contribution.amount == 0;
    let new_amount: u64 = match accounts.contribution.amount.checked_add(amount) {
        Some(v) => v,
        None => return Err(CrowdfundingError::MathOverflow),
    };
    let new_raised: u64 = match accounts.campaign.raised.checked_add(amount) {
        Some(v) => v,
        None => return Err(CrowdfundingError::MathOverflow),
    };
    let new_count: u64 = if is_new {
        match accounts.campaign.contributors_count.checked_add(1) {
            Some(v) => v,
            None => return Err(CrowdfundingError::MathOverflow),
        }
    } else {
        accounts.campaign.contributors_count
    };
    accounts.contribution.campaign = accounts.campaign_key;
    accounts.contribution.contributor = accounts.contributor;
    accounts.contribution.amount = new_amount;
    accounts.contribution.last_contributed_at = now;
    accounts.contribution.bump = accounts.contribution_bump;
    accounts.campaign.raised = new_raised;
    accounts.campaign.contributors_count = new_count;
    Ok(
        ContributionMade {
            campaign: accounts.campaign_key,
            contributor: accounts.contributor,
            amount,
            total_raised: new_raised,
        },
    )
}

/// The whole `contribute` instruction: the checks, the transfer to make, and the
/// accounting. On any error no account changes.
pub fn contribute(accounts: &mut Contribute, amount: u64, now: i64) -> (r: Result<(TokenTransfer, ContributionMade), CrowdfundingError>)
    ensures
        match contribute_error(old(accounts).campaign, amount, now) {
            Some(e) => r is Err && r->Err_0 == e && *final(accounts) == *old(accounts),
            None => match recorded_contribution(*old(accounts), amount, now) {
                Some(next) => r is Ok && *final(accounts) == next
                    && contribution_transfer(r->Ok_0.0, *old(accounts), amount)
                    && r->Ok_0.1 == (ContributionMade {
                        campaign: old(accounts).campaign_key,
                        contributor: old(accounts).contributor,
                        amount,
                        total_raised: next.campaign.raised,
                    }),
                None => r is Err && r->Err_0 == CrowdfundingError::MathOverflow
                    && *final(accounts) == *old(accounts),
            },
        },
{
    let transfer = plan_contribution(accounts, amount, now)?;
    let event = record_contribution(accounts, amount, now)?;
    Ok((transfer, event))
}

// ----------------------------------------------------------------------------
// seeds
// ----------------------------------------------------------------------------

/// The ASCII bytes of "campaign".
pub open spec fn campaign_tag() -> Seq<u8> {
    seq![99u8, 97u8, 109u8, 112u8, 97u8, 105u8, 103u8, 110u8]
}

/// The ASCII bytes of "vault".
pub open spec fn vault_tag() -> Seq<u8> {
    seq![118u8, 97u8, 117u8, 108u8, 116u8]
}

/// The ASCII bytes of "contribution".
pub open spec fn contribution_tag() -> Seq<u8> {
    seq![99u8, 111u8, 110u8, 116u8, 114u8, 105u8, 98u8, 117u8, 116u8, 105u8, 111u8, 110u8]
}

/// The seeds of a campaign account: "campaign", the creator, and the campaign id
/// in little-endian bytes.
pub open spec fn spec_campaign_seeds(creator: Seq<u8>, campaign_id: u64) -> Seq<Seq<u8>> {
    seq![campaign_tag(), creator, vstd::bytes::spec_u64_to_le_bytes(campaign_id)]
}

/// The seeds of a campaign's vault: "vault" and the campaign's address.
pub open spec fn spec_vault_seeds(campaign: Seq<u8>) -> Seq<Seq<u8>> {
    seq![vault_tag(), campaign]
}

/// The seeds of a contribution record: "contribution", the campaign's address,
/// and the contributor.
pub open spec fn spec_contribution_seeds(campaign: Seq<u8>, contributor: Seq<u8>) -> Seq<Seq<u8>> {
    seq![contribution_tag(), campaign, contributor]
}

/// The seeds the campaign account signs its vault's transfers with: its own
/// seeds followed by its bump.
pub open spec fn spec_campaign_signer_seeds(creator: Seq<u8>, campaign_id: u64, bump: u8) -> Seq<Seq<u8>> {
    spec_campaign_seeds(creator, campaign_id).push(seq![bump])
}

/// The seeds of a campaign account.
pub fn campaign_seeds(creator: &Address, campaign_id: u64) -> (s: Vec<Vec<u8>>)
    ensures
        seeds_view(s@) == spec_campaign_seeds(creator@, campaign_id),
{
    let mut s: Vec<Vec<u8>> = Vec::new();
    s.push(vec![99u8, 97u8, 109u8, 112u8, 97u8, 105u8, 103u8, 110u8]);
    s.push(creator.to_seed());
    s.push(vstd::bytes::u64_to_le_bytes(campaign_id));
    assert(seeds_view(s@) =~= spec_campaign_seeds(creator@, campaign_id));
    s
}

/// The seeds of a campaign's vault.
pub fn vault_seeds(campaign: &Address) -> (s: Vec<Vec<u8>>)
    ensures
        seeds_view(s@) == spec_vault_seeds(campaign@),
{
    let mut s: Vec<Vec<u8>> = Vec::new();
    s.push(vec![118u8, 97u8, 117u8, 108u8, 116u8]);
    s.push(campaign.to_seed());
    assert(seeds_view(s@) =~= spec_vault_seeds(campaign@));
    s
}

/// The seeds of a contribution record.
pub fn contribution_seeds(campaign: &Address, contributor: &Address) -> (s: Vec<Vec<u8>>)
    ensures
        seeds_view(s@) == spec_contribution_seeds(campaign@, contributor@),
{
    let mut s: Vec<Vec<u8>> = Vec::new();
    s.push(vec![99u8, 111u8, 110u8, 116u8, 114u8, 105u8, 98u8, 117u8, 116u8, 105u8, 111u8, 110u8]);
    s.push(campaign.to_seed());
    s.push(contributor.to_seed());
    assert(seeds_view(s@) =~= spec_contribution_seeds(campaign@, contributor@));
    s
}

/// The seeds a campaign account signs with.
pub fn campaign_signer_seeds(campaign: &Campaign) -> (s: Vec<Vec<u8>>)
    ensures
        seeds_view(s@) == spec_campaign_signer_seeds(campaign.creator@, campaign.campaign_id, campaign.bump),
{
    let mut s = campaign_seeds(&campaign.creator, campaign.campaign_id);
    let ghost before = s@;
    let mut b: Vec<u8> = Vec::new();
    b.push(campaign.bump);
    assert(b@ =~= seq![campaign.bump]);
    s.push(b);
    assert(seeds_view(s@) =~= seeds_view(before).push(seq![campaign.bump]));
    s
}

// ----------------------------------------------------------------------------
// withdraw
// ----------------------------------------------------------------------------

/// The accounts `withdraw` reads and writes: the signer, the campaign (its
/// address and data), the vault, the token mint and the signer's token account.
#[derive(Clone, Debug)]
pub struct Withdraw {
    pub creator: Address,
    pub campaign_key: Address,
    pub campaign: Campaign,
    pub vault: Address,
    pub token_mint: Address,
    pub creator_token_account: Address,
}

/// The first check that refuses a withdrawal.
pub open spec fn withdraw_error(a: Withdraw) -> Option<CrowdfundingError> {
    if a.creator@ != a.campaign.creator@ {
        Some(CrowdfundingError::NotCreator)
    } else if a.campaign.raised < a.campaign.goal {
        Some(CrowdfundingError::GoalNotReached)
    } else if a.campaign.withdrawn {
        Some(CrowdfundingError::AlreadyWithdrawn)
    } else {
        None
    }
}

/// The transfer a withdrawal makes: everything raised, from the vault to the
/// creator's token account, signed by the campaign account.
pub open spec fn withdrawal_transfer(t: TokenTransfer, a: Withdraw) -> bool {
    &&& t.from == a.vault
    &&& t.to == a.creator_token_account
    &&& t.authority == a.campaign_key
    &&& t.amount == a.campaign.raised
    &&& seeds_view(t.signer_seeds@) == spec_campaign_signer_seeds(
        a.campaign.creator@,
        a.campaign.campaign_id,
        a.campaign.bump,
    )
}

/// The accounts after a withdrawal: the campaign is marked withdrawn.
pub open spec fn withdrawn_accounts(a: Withdraw) -> Withdraw {
    Withdraw { campaign: Campaign { withdrawn: true, ..a.campaign }, ..a }
}

/// The event of a withdrawal.
pub open spec fn withdrawal_event(a: Withdraw) -> FundsWithdrawn {
    FundsWithdrawn { campaign: a.campaign_key, creator: a.campaign.creator, amount: a.campaign.raised }
}

/// Checks a withdrawal and returns the token transfer it makes.
pub fn plan_withdraw(accounts: &Withdraw) -> (r: Result<TokenTransfer, CrowdfundingError>)
    ensures
        match withdraw_error(*accounts) {
            Some(e) => r is Err && r->Err_0 == e,
            None => r is Ok && withdrawal_transfer(r->Ok_0, *accounts),
        },
{
    if !(accounts.creator == accounts.campaign.creator) {
        return Err(CrowdfundingError::NotCreator);
    }
    if accounts.campaign.raised < accounts.campaign.goal {
        return Err(CrowdfundingError::GoalNotReached);
    }
    if accounts.campaign.withdrawn {
        return Err(CrowdfundingError::AlreadyWithdrawn);
    }
    Ok(TokenTransfer {
        from: accounts.vault,
        to: accounts.creator_token_account,
        authority: accounts.campaign_key,
        amount: accounts.campaign.raised,
        signer_seeds: campaign_signer_seeds(&accounts.campaign),
    })
}

/// Records a withdrawal once its tokens have moved.
pub fn record_withdraw(accounts: &mut Withdraw) -> (e: FundsWithdrawn)
    ensures
        *final(accounts) == withdrawn_accounts(*old(accounts)),
        e == withdrawal_event(*old(accounts)),
{
    accounts.campaign.withdrawn = true;
    FundsWithdrawn {
        campaign: accounts.campaign_key,
        creator: accounts.campaign.creator,
        amount: accounts.campaign.raised,
    }
}

/// The whole `withdraw` instruction. On any error no account changes.
pub fn withdraw(accounts: &mut Withdraw) -> (r: Result<(TokenTransfer, FundsWithdrawn), CrowdfundingError>)
    ensures
        match withdraw_error(*old(accounts)) {
            Some(e) => r is Err && r->Err_0 == e && *final(accounts) == *old(accounts),
            None => r is Ok && withdrawal_transfer(r->Ok_0.0, *old(accounts))
                && r->Ok_0.1 == withdrawal_event(*old(accounts))
                && *final(accounts) == withdrawn_accounts(*old(accounts)),
        },
{
    let transfer = plan_withdraw(accounts)?;
    let event = record_withdraw(accounts);
    Ok((transfer, event))
}

// ----------------------------------------------------------------------------
// claim_refund
// ----------------------------------------------------------------------------

/// The accounts `claim_refund` reads and writes: the contributor, the campaign
/// (its address and data), the vault, the contribution record (its address and
/// data) and the contributor's token account.
#[derive(Clone, Debug)]
pub struct ClaimRefund {
    pub contributor: Address,
    pub campaign_key: Address,
    pub campaign: Campaign,
    pub vault: Address,
    pub contribution_key: Address,
    pub contribution: Contribution,
    pub contributor_token_account: Address,
}

/// The first check that refuses a refund at time `now`.
pub open spec fn refund_error(campaign: Campaign, contribution: Contribution, now: i64) -> Option<CrowdfundingError> {
    if now < campaign.deadline {
        Some(CrowdfundingError::CampaignStillActive)
    } else if campaign.raised >= campaign.goal {
        Some(CrowdfundingError::GoalWasReached)
    } else if contribution.refunded {
        Some(CrowdfundingError::AlreadyRefunded)
    } else if contribution.amount == 0 {
        Some(CrowdfundingError::NothingToRefund)
    } else {
        None
    }
}

/// The transfer a refund makes: the whole contribution, from the vault back to
/// the contributor's token account, signed by the campaign account.
pub open spec fn refund_transfer(t: TokenTransfer, a: ClaimRefund) -> bool {
    &&& t.from == a.vault
    &&& t.to == a.contributor_token_account
    &&& t.authority == a.campaign_key
    &&& t.amount == a.contribution.amount
    &&& seeds_view(t.signer_seeds@) == spec_campaign_signer_seeds(
        a.campaign.creator@,
        a.campaign.campaign_id,
        a.campaign.bump,
    )
}

/// The accounts after a refund: the contribution is marked refunded.
pub open spec fn refunded_accounts(a: ClaimRefund) -> ClaimRefund {
    ClaimRefund { contribution: Contribution { refunded: true, ..a.contribution }, ..a }
}

/// The event of a refund.
pub open spec fn refund_event(a: ClaimRefund) -> RefundClaimed {
    RefundClaimed {
        campaign: a.campaign_key,
        contributor: a.contribution.contributor,
        amount: a.contribution.amount,
    }
}

/// Checks a refund claimed at time `now` and returns the token transfer it makes.
pub fn plan_refund(accounts: &ClaimRefund, now: i64) -> (r: Result<TokenTransfer, CrowdfundingError>)
    ensures
        match refund_error(accounts.campaign, accounts.contribution, now) {
            Some(e) => r is Err && r->Err_0 == e,
            None => r is Ok && refund_transfer(r->Ok_0, *accounts),
        },
{
    if now < accounts.campaign.deadline {
        return Err(CrowdfundingError::CampaignStillActive);
    }
    if accounts.campaign.raised >= accounts.campaign.goal {
        return Err(CrowdfundingError::GoalWasReached);
    }
    if accounts.contribution.refunded {
        return Err(CrowdfundingError::AlreadyRefunded);
    }
    if accounts.contribution.amount == 0 {
        return Err(CrowdfundingError::NothingToRefund);
    }
    Ok(TokenTransfer {
        from: accounts.vault,
        to: accounts.contributor_token_account,
        authority: accounts.campaign_key,
        amount: accounts.contribution.amount,
        signer_seeds: campaign_signer_seeds(&accounts.campaign),
    })
}

/// Records a refund once its tokens have moved.
pub fn record_refund(accounts: &mut ClaimRefund) -> (e: RefundClaimed)
    ensures
        *final(accounts) == refunded_accounts(*old(accounts)),
        e == refund_event(*old(accounts)),
{
    accounts.contribution.refunded = true;
    RefundClaimed {
        campaign: accounts.campaign_key,
        contributor: accounts.contribution.contributor,
        amount: accounts.contribution.amount,
    }
}

/// The whole `claim_refund` instruction at time `now`. On any error no account
/// changes.
pub fn claim_refund(accounts: &mut ClaimRefund, now: i64) -> (r: Result<(TokenTransfer, RefundClaimed), CrowdfundingError>)
    ensures
        match refund_error(old(accounts).campaign, old(accounts).contribution, now) {
            Some(e) => r is Err && r->Err_0 == e && *final(accounts) == *old(accounts),
            None => r is Ok && refund_transfer(r->Ok_0.0, *old(accounts))
                && r->Ok_0.1 == refund_event(*old(accounts))
                && *final(accounts) == refunded_accounts(*old(accounts)),
        },
{
    let transfer = plan_refund(accounts, now)?;
    let event = record_refund(accounts);
    Ok((transfer, event))
}

// ----------------------------------------------------------------------------
// account validation
// ----------------------------------------------------------------------------

/// Whether `key` is the address that `seeds` and a stored `bump` derive.
pub open spec fn derives(seeds: Seq<Seq<u8>>, bump: u8, program_id: Seq<u8>, key: Address) -> bool {
    program_address(seeds.push(seq![bump]), program_id) == Some(key@)
}

/// Whether `key` is the canonical address of `seeds`, found with `bump`.
pub open spec fn is_canonical(seeds: Seq<Seq<u8>>, program_id: Seq<u8>, key: Address, bump: u8) -> bool {
    canonical_address(seeds, program_id) == Some((key@, bump))
}

/// What resolving the accounts of `create_campaign` gives. The campaign account
/// is resolved first: its address must be the canonical address of its seeds.
/// Then the vault's. The bumps found are returned with the keys. `None` where the
/// runtime's bump search finds no address for a seed list it has to search: the
/// on-chain program aborts there.
pub open spec fn resolved_create_campaign(
    program_id: Seq<u8>,
    campaign_id: u64,
    creator: Address,
    token_mint: Address,
    campaign: Address,
    vault: Address,
) -> Option<Result<CreateCampaign, ConstraintError>> {
    match canonical_address(spec_campaign_seeds(creator@, campaign_id), program_id) {
        None => None,
        Some((campaign_found, campaign_bump)) => if campaign_found != campaign@ {
            Some(Err(ConstraintError::Seeds))
        } else {
            match canonical_address(spec_vault_seeds(campaign@), program_id) {
                None => None,
                Some((vault_found, vault_bump)) => if vault_found != vault@ {
                    Some(Err(ConstraintError::Seeds))
                } else {
                    Some(Ok(CreateCampaign { creator, token_mint, campaign, vault, campaign_bump, vault_bump }))
                },
            }
        },
    }
}

/// Resolves the accounts of `create_campaign`, on accounts whose bump searches
/// find an address: the campaign and the vault must sit at the canonical
/// addresses of their seeds, whose bumps are returned with the keys.
pub fn resolve_create_campaign(
    program_id: &Address,
    campaign_id: u64,
    creator: Address,
    token_mint: Address,
    campaign: Address,
    vault: Address,
) -> (r: Result<CreateCampaign, ConstraintError>)
    requires
        resolved_create_campaign(program_id@, campaign_id, creator, token_mint, campaign, vault) is Some,
    ensures
        Some(r) == resolved_create_campaign(program_id@, campaign_id, creator, token_mint, campaign, vault),
{
    let campaign_bump: u8 = match find_address(&campaign_seeds(&creator, campaign_id), program_id) {
        Some((a, b)) => {
            if !(a == campaign) {
                return Err(ConstraintError::Seeds);
            }
            b
        },
        None => unreached(),
    };
    let vault_bump: u8 = match find_address(&vault_seeds(&campaign), program_id) {
        Some((a, b)) => {
            if !(a == vault) {
                return Err(ConstraintError::Seeds);
            }
            b
        },
        None => unreached(),
    };
    Ok(CreateCampaign { creator, token_mint, campaign, vault, campaign_bump, vault_bump })
}

/// Resolves the accounts of `create_campaign` on any input: `None` where a bump
/// search finds no address (where the on-chain program aborts), otherwise what
/// `resolve_create_campaign` gives.
pub fn try_resolve_create_campaign(
    program_id: &Address,
    campaign_id: u64,
    creator: Address,
    token_mint: Address,
    campaign: Address,
    vault: Address,
) -> (r: Option<Result<CreateCampaign, ConstraintError>>)
    ensures
        r == resolved_create_campaign(program_id@, campaign_id, creator, token_mint, campaign, vault),
{
    match find_address(&campaign_seeds(&creator, campaign_id), program_id) {
        None => return None,
        Some((a, _)) => {
            if a == campaign {
                if let None = find_address(&vault_seeds(&campaign), program_id) {
                    return None;
                }
            }
        },
    }
    Some(resolve_create_campaign(program_id, campaign_id, creator, token_mint, campaign, vault))
}

/// Whether the campaign and vault accounts sit at the addresses their stored
/// seeds and bumps derive.
pub open spec fn campaign_and_vault_derive(campaign: Campaign, campaign_key: Address, vault: Address, program_id: Seq<u8>) -> bool {
    &&& derives(spec_campaign_seeds(campaign.creator@, campaign.campaign_id), campaign.bump, program_id, campaign_key)
    &&& derives(spec_vault_seeds(campaign_key@), campaign.vault_bump, program_id, vault)
}

/// Checks the seeds of the campaign account and its vault.
fn check_campaign_and_vault(campaign: &Campaign, campaign_key: &Address, vault: &Address, program_id: &Address) -> (r: Result<(), ConstraintError>)
    ensures
        r is Ok <==> campaign_and_vault_derive(*campaign, *campaign_key, *vault, program_id@),
        r is Err ==> r->Err_0 == ConstraintError::Seeds,
{
    if !address_matches(campaign_seeds(&campaign.creator, campaign.campaign_id), campaign.bump, program_id, campaign_key) {
        return Err(ConstraintError::Seeds);
    }
    if !address_matches(vault_seeds(campaign_key), campaign.vault_bump, program_id, vault) {
        return Err(ConstraintError::Seeds);
    }
    Ok(())
}

/// Whether the accounts of `contribute` are valid: the campaign and vault derive
/// from their stored seeds, and the contribution record sits at the canonical
/// address of its seeds, found with the record's bump.
pub open spec fn contribute_accounts_valid(a: Contribute, program_id: Seq<u8>) -> bool {
    &&& campaign_and_vault_derive(a.campaign, a.campaign_key, a.vault, program_id)
    &&& is_canonical(spec_contribution_seeds(a.campaign_key@, a.contributor@), program_id, a.contribution_key, a.contribution_bump)
}

/// What checking the accounts of `contribute` gives: the campaign's and the
/// vault's seeds first, then the contribution record's canonical address, which
/// the runtime searches for. `None` where that search finds no address: the
/// on-chain program aborts there.
pub open spec fn checked_contribute_accounts(a: Contribute, program_id: Seq<u8>) -> Option<Result<(), ConstraintError>> {
    if !campaign_and_vault_derive(a.campaign, a.campaign_key, a.vault, program_id) {
        Some(Err(ConstraintError::Seeds))
    } else {
        match canonical_address(spec_contribution_seeds(a.campaign_key@, a.contributor@), program_id) {
            None => None,
            Some(_) => if contribute_accounts_valid(a, program_id) {
                Some(Ok(()))
            } else {
                Some(Err(ConstraintError::Seeds))
            },
        }
    }
}

/// Checks the accounts of `contribute`, on accounts whose record's bump search
/// finds an address.
pub fn check_contribute_accounts(accounts: &Contribute, program_id: &Address) -> (r: Result<(), ConstraintError>)
    requires
        checked_contribute_accounts(*accounts, program_id@) is Some,
    ensures
        Some(r) == checked_contribute_accounts(*accounts, program_id@),
        r is Ok <==> contribute_accounts_valid(*accounts, program_id@),
{
    check_campaign_and_vault(&accounts.campaign, &accounts.campaign_key, &accounts.vault, program_id)?;
    match find_address(&contribution_seeds(&accounts.campaign_key, &accounts.contributor), program_id) {
        Some((a, b)) => {
            if a == accounts.contribution_key && b == accounts.contribution_bump {
                Ok(())
            } else {
                Err(ConstraintError::Seeds)
            }
        },
        None => unreached(),
    }
}

/// Checks the accounts of `contribute` on any input: `None` where the record's
/// bump search finds no address (where the on-chain program aborts), otherwise
/// what `check_contribute_accounts` gives.
pub fn try_check_contribute_accounts(accounts: &Contribute, program_id: &Address) -> (r: Option<Result<(), ConstraintError>>)
    ensures
        r == checked_contribute_accounts(*accounts, program_id@),
{
    if check_campaign_and_vault(&accounts.campaign, &accounts.campaign_key, &accounts.vault, program_id).is_ok() {
        if let None = find_address(&contribution_seeds(&accounts.campaign_key, &accounts.contributor), program_id) {
            return None;
        }
    }
    Some(check_contribute_accounts(accounts, program_id))
}

/// The first account check of `withdraw` that fails, if any: the campaign's
/// seeds, the creator (`NotCreator`), the vault's seeds, then the token mint.
pub open spec fn withdraw_accounts_error(a: Withdraw, program_id: Seq<u8>) -> Option<Rejection<CrowdfundingError>> {
    if !derives(spec_campaign_seeds(a.campaign.creator@, a.campaign.campaign_id), a.campaign.bump, program_id, a.campaign_key) {
        Some(Rejection::Constraint(ConstraintError::Seeds))
    } else if a.creator@ != a.campaign.creator@ {
        Some(Rejection::Program(CrowdfundingError::NotCreator))
    } else if !derives(spec_vault_seeds(a.campaign_key@), a.campaign.vault_bump, program_id, a.vault) {
        Some(Rejection::Constraint(ConstraintError::Seeds))
    } else if a.token_mint@ != a.campaign.token_mint@ {
        Some(Rejection::Constraint(ConstraintError::Address))
    } else {
        None
    }
}

/// Checks the accounts of `withdraw`.
pub fn check_withdraw_accounts(accounts: &Withdraw, program_id: &Address) -> (r: Result<(), Rejection<CrowdfundingError>>)
    ensures
        match withdraw_accounts_error(*accounts, program_id@) {
            Some(e) => r == Err::<(), Rejection<CrowdfundingError>>(e),
            None => r is Ok,
        },
{
    let c = &accounts.campaign;
    if !address_matches(campaign_seeds(&c.creator, c.campaign_id), c.bump, program_id, &accounts.campaign_key) {
        return Err(Rejection::Constraint(ConstraintError::Seeds));
    }
    if !(accounts.creator == c.creator) {
        return Err(Rejection::Program(CrowdfundingError::NotCreator));
    }
    if !address_matches(vault_seeds(&accounts.campaign_key), c.vault_bump, program_id, &accounts.vault) {
        return Err(Rejection::Constraint(ConstraintError::Seeds));
    }
    if !(accounts.token_mint == c.token_mint) {
        return Err(Rejection::Constraint(ConstraintError::Address));
    }
    Ok(())
}

/// The first account check of `claim_refund` that fails, if any: the campaign's
/// and the vault's seeds, then the contribution record's seeds and contributor.
pub open spec fn refund_accounts_error(a: ClaimRefund, program_id: Seq<u8>) -> Option<ConstraintError> {
    if !campaign_and_vault_derive(a.campaign, a.campaign_key, a.vault, program_id) {
        Some(ConstraintError::Seeds)
    } else if !derives(spec_contribution_seeds(a.campaign_key@, a.contributor@), a.contribution.bump, program_id, a.contribution_key) {
        Some(ConstraintError::Seeds)
    } else if a.contribution.contributor@ != a.contributor@ {
        Some(ConstraintError::HasOne)
    } else {
        None
    }
}

/// Checks the accounts of `claim_refund`.
pub fn check_refund_accounts(accounts: &ClaimRefund, program_id: &Address) -> (r: Result<(), ConstraintError>)
    ensures
        match refund_accounts_error(*accounts, program_id@) {
            Some(e) => r == Err::<(), ConstraintError>(e),
            None => r is Ok,
        },
{
    check_campaign_and_vault(&accounts.campaign, &accounts.campaign_key, &accounts.vault, program_id)?;
    if !address_matches(
        contribution_seeds(&accounts.campaign_key, &accounts.contributor),
        accounts.contribution.bump,
        program_id,
        &accounts.contribution_key,
    ) {
        return Err(ConstraintError::Seeds);
    }
    if !(accounts.contribution.contributor == accounts.contributor) {
        return Err(ConstraintError::HasOne);
    }
    Ok(())
}

// ----------------------------------------------------------------------------
// reading the clock
// ----------------------------------------------------------------------------

/// Why an instruction that reads the cluster clock failed: the program refused
/// it before reading the clock, the clock could not be read, or the program
/// refused it at the time the clock gave.
#[derive(Clone, Copy, Debug, PartialEq, Eq, Structural)]
pub enum InstructionError {
    Program(CrowdfundingError),
    ClockUnavailable,
    RefusedAt(CrowdfundingError, i64),
}

impl InstructionError {
    /// The program error behind a refusal, if the program refused.
    pub fn program_error(&self) -> (r: Option<CrowdfundingError>)
        ensures
            r == match *self {
                InstructionError::Program(e) => Some(e),
                InstructionError::ClockUnavailable => None,
                InstructionError::RefusedAt(e, _) => Some(e),
            },
    {
        match self {
            InstructionError::Program(e) => Some(*e),
            InstructionError::ClockUnavailable => None,
            InstructionError::RefusedAt(e, _) => Some(*e),
        }
    }
}

/// Calls `Clock::get()` and returns the cluster's unix timestamp, or `None` when
/// the clock cannot be read. Nothing is claimed of the value: it is the time.
#[verifier::external_body]
fn clock_unix_timestamp() -> (r: Option<i64>) {
    match Clock::get() {
        Ok(clock) => Some(clock.unix_timestamp),
        Err(_) => None,
    }
}

/// `create_campaign` at the cluster's current time: the parameters are checked
/// first, then the clock is read. Whatever time it gives, a new campaign is
/// opened as `create_campaign` opens it at that time, or refused at that time
/// because the deadline does not fit.
pub fn create_campaign_now(
    accounts: &CreateCampaign,
    campaign_id: u64,
    title: String,
    description: String,
    image_url: String,
    goal: u64,
    duration_days: i64,
) -> (r: Result<(Campaign, CampaignCreated), InstructionError>)
    ensures
        match campaign_params_error(title@.len(), description@.len(), image_url@.len(), goal, duration_days) {
            Some(e) => r == Err::<(Campaign, CampaignCreated), InstructionError>(InstructionError::Program(e)),
            None => match r {
                Ok((c, ev)) => (exists|now: i64| #[trigger] spec_deadline(now, duration_days) == Some(c.deadline))
                    && c == opened_campaign(
                    *accounts,
                    campaign_id,
                    title,
                    description,
                    image_url,
                    goal,
                    c.deadline,
                ) && ev == (CampaignCreated {
                    campaign: accounts.campaign,
                    creator: accounts.creator,
                    title,
                    goal,
                    deadline: c.deadline,
                }),
                Err(InstructionError::RefusedAt(e, now)) => e == CrowdfundingError::MathOverflow
                    && spec_deadline(now, duration_days) is None,
                Err(InstructionError::ClockUnavailable) => true,
                Err(InstructionError::Program(_)) => false,
            },
        },
{
    if let Err(e) = check_campaign_params(title.as_str(), description.as_str(), image_url.as_str(), goal, duration_days) {
        return Err(InstructionError::Program(e));
    }
    let now: i64 = match clock_unix_timestamp() {
        Some(t) => t,
        None => return Err(InstructionError::ClockUnavailable),
    };
    match create_campaign(accounts, campaign_id, title, description, image_url, goal, duration_days, now) {
        Ok((c, ev)) => {
            assert(spec_deadline(now, duration_days) == Some(c.deadline));
            Ok((c, ev))
        },
        Err(e) => Err(InstructionError::RefusedAt(e, now)),
    }
}

/// The checks of a contribution at the cluster's current time: a zero amount is
/// refused before the clock is read. Returns the transfer to make and the time
/// read, which the accounting (`record_contribution`) then uses; a refusal after
/// the clock is read carries the time it was refused at.
pub fn plan_contribution_now(accounts: &Contribute, amount: u64) -> (r: Result<(TokenTransfer, i64), InstructionError>)
    ensures
        amount == 0 ==> r == Err::<(TokenTransfer, i64), InstructionError>(
            InstructionError::Program(CrowdfundingError::ZeroAmount),
        ),
        amount > 0 ==> match r {
            Ok((t, now)) => contribute_error(accounts.campaign, amount, now) is None
                && contribution_transfer(t, *accounts, amount),
            Err(InstructionError::RefusedAt(e, now)) => contribute_error(accounts.campaign, amount, now) == Some(e),
            Err(InstructionError::ClockUnavailable) => true,
            Err(InstructionError::Program(_)) => false,
        },
{
    if amount == 0 {
        return Err(InstructionError::Program(CrowdfundingError::ZeroAmount));
    }
    let now: i64 = match clock_unix_timestamp() {
        Some(t) => t,
        None => return Err(InstructionError::ClockUnavailable),
    };
    match plan_contribution(accounts, amount, now) {
        Ok(t) => Ok((t, now)),
        Err(e) => Err(InstructionError::RefusedAt(e, now)),
    }
}

/// The checks of a refund at the cluster's current time, which is read first.
/// Returns the transfer to make and the time read; a refusal carries the time it
/// was refused at.
pub fn plan_refund_now(accounts: &ClaimRefund) -> (r: Result<(TokenTransfer, i64), InstructionError>)
    ensures
        match r {
            Ok((t, now)) => refund_error(accounts.campaign, accounts.contribution, now) is None
                && refund_transfer(t, *accounts),
            Err(InstructionError::RefusedAt(e, now)) => refund_error(accounts.campaign, accounts.contribution, now) == Some(e),
            Err(InstructionError::ClockUnavailable) => true,
            Err(InstructionError::Program(_)) => false,
        },
{
    let now: i64 = match clock_unix_timestamp() {
        Some(t) => t,
        None => return Err(InstructionError::ClockUnavailable),
    };
    match plan_refund(accounts, now) {
        Ok(t) => Ok((t, now)),
        Err(e) => Err(InstructionError::RefusedAt(e, now)),
    }
}

// ----------------------------------------------------------------------------
// laws
// ----------------------------------------------------------------------------

/// Law: a creator withdraws at most once; after a withdrawal succeeds, the next
/// one is refused with `AlreadyWithdrawn`.
pub proof fn law_withdraw_at_most_once(a: Withdraw)
    requires
        withdraw_error(a) is None,
    ensures
        withdraw_error(withdrawn_accounts(a)) == Some(CrowdfundingError::AlreadyWithdrawn),
{
}

/// Law: a contribution is refunded at most once; after a refund succeeds, every
/// later claim is refused, with `AlreadyRefunded` once the deadline has passed.
pub proof fn law_refund_at_most_once(a: ClaimRefund, now: i64, later: i64)
    requires
        refund_error(a.campaign, a.contribution, now) is None,
    ensures
        refund_error(refunded_accounts(a).campaign, refunded_accounts(a).contribution, later) is Some,
        later >= a.campaign.deadline ==> refund_error(
            refunded_accounts(a).campaign,
            refunded_accounts(a).contribution,
            later,
        ) == Some(CrowdfundingError::AlreadyRefunded),
{
}

/// Law: the raised funds go one way only; in no state of a campaign may the
/// creator withdraw and a contributor also be refunded.
pub proof fn law_withdraw_and_refund_exclusive(a: Withdraw, contribution: Contribution, now: i64)
    ensures
        !(withdraw_error(a) is None && refund_error(a.campaign, contribution, now) is None),
{
}

/// Law: contributions and refunds have disjoint time windows; whenever a
/// contribution is accepted, a refund at the same time is refused with
/// `CampaignStillActive`.
pub proof fn law_contribute_and_refund_windows_disjoint(
    campaign: Campaign,
    contribution: Contribution,
    amount: u64,
    now: i64,
)
    ensures
        contribute_error(campaign, amount, now) is None ==> refund_error(campaign, contribution, now)
            == Some(CrowdfundingError::CampaignStillActive),
{
}

/// Law: a recorded contribution adds its amount both to the contributor's record
/// and to the campaign's total, counts the contributor once (on the first
/// contribution), and leaves the goal, the deadline and the withdrawal flag alone.
pub proof fn law_contribution_accounting(a: Contribute, amount: u64, now: i64)
    ensures
        recorded_contribution(a, amount, now) matches Some(n) ==> {
            &&& n.campaign.raised == a.campaign.raised + amount
            &&& n.contribution.amount == a.contribution.amount + amount
            &&& n.campaign.contributors_count == a.campaign.contributors_count + if a.contribution.amount
                == 0 {
                1int
            } else {
                0int
            }
            &&& n.campaign.goal == a.campaign.goal
            &&& n.campaign.deadline == a.campaign.deadline
            &&& n.campaign.withdrawn == a.campaign.withdrawn
            &&& n.contribution.refunded == a.contribution.refunded
        },
{
}

/// Law: what a refund returns is everything the contributor put in; starting
/// from an empty record, two recorded contributions `x` and `y` are refunded as
/// `x + y`.
pub proof fn law_refund_returns_contributions(a: Contribute, x: u64, y: u64, t1: i64, t2: i64)
    requires
        a.contribution.amount == 0,
    ensures
        recorded_contribution(a, x, t1) matches Some(a1) ==> (recorded_contribution(a1, y, t2) matches Some(
            a2,
        ) ==> a2.contribution.amount == x + y),
{
}

/// Law: the raised total never decreases, so once a campaign reaches its goal no
/// operation takes it below; withdrawing and refunding leave the total as it is.
pub proof fn law_raised_never_decreases(c: Contribute, amount: u64, now: i64, w: Withdraw, r: ClaimRefund)
    ensures
        recorded_contribution(c, amount, now) matches Some(n) ==> n.campaign.raised >= c.campaign.raised,
        withdrawn_accounts(w).campaign.raised == w.campaign.raised,
        refunded_accounts(r).campaign == r.campaign,
{
}

/// Law: a campaign account found at the canonical address of its seeds at
/// creation, with its bump stored, passes the seeds check of every later
/// instruction.
pub proof fn law_created_campaign_rederives(creator: Address, campaign_id: u64, program_id: Seq<u8>, key: Address, bump: u8)
    requires
        is_canonical(spec_campaign_seeds(creator@, campaign_id), program_id, key, bump),
    ensures
        derives(spec_campaign_seeds(creator@, campaign_id), bump, program_id, key),
{
    law_found_bump_rederives(spec_campaign_seeds(creator@, campaign_id), program_id);
}

/// Law: the vault's tokens move only on the campaign account's signature. When
/// the accounts of a withdrawal or a refund pass their checks, the seeds its
/// transfer is signed with derive exactly the transfer's authority, the
/// campaign account.
pub proof fn law_vault_transfers_signed_by_campaign(
    w: Withdraw,
    tw: TokenTransfer,
    r: ClaimRefund,
    tr: TokenTransfer,
    program_id: Seq<u8>,
)
    requires
        withdraw_accounts_error(w, program_id) is None,
        withdrawal_transfer(tw, w),
        refund_accounts_error(r, program_id) is None,
        refund_transfer(tr, r),
    ensures
        program_address(seeds_view(tw.signer_seeds@), program_id) == Some(tw.authority@),
        program_address(seeds_view(tr.signer_seeds@), program_id) == Some(tr.authority@),
{
}

/// The sum of the amounts of a list of contribution records.
pub open spec fn total_contributed(records: Seq<Contribution>) -> int
    decreases records.len(),
{
    if records.len() == 0 {
        0
    } else {
        total_contributed(records.drop_last()) + records.last().amount
    }
}

proof fn lemma_total_after_update(records: Seq<Contribution>, i: int, c: Contribution)
    requires
        0 <= i < records.len(),
    ensures
        total_contributed(records.update(i, c)) == total_contributed(records) - records[i].amount + c.amount,
    decreases records.len(),
{
    if i == records.len() - 1 {
        assert(records.update(i, c).drop_last() =~= records.drop_last());
    } else {
        lemma_total_after_update(records.drop_last(), i, c);
        assert(records.update(i, c).drop_last() =~= records.drop_last().update(i, c));
    }
}

/// Law: a campaign's raised total is the sum of its contribution records, and
/// every operation keeps it so. Where the total matches a list of records that
/// holds the contributor's record at position `i` (a new contributor's empty
/// record can be appended), recording a contribution changes that record and
/// the total alike; a refund changes no amount; a withdrawal changes neither.
pub proof fn law_raised_is_sum_of_contributions(
    a: Contribute,
    records: Seq<Contribution>,
    i: int,
    amount: u64,
    now: i64,
    r: ClaimRefund,
    j: int,
    w: Withdraw,
)
    requires
        0 <= i < records.len(),
        records[i] == a.contribution,
        a.campaign.raised == total_contributed(records),
        0 <= j < records.len(),
        records[j] == r.contribution,
        r.campaign.raised == total_contributed(records),
        w.campaign.raised == total_contributed(records),
    ensures
        recorded_contribution(a, amount, now) matches Some(n) ==> n.campaign.raised == total_contributed(
            records.update(i, n.contribution),
        ),
        refunded_accounts(r).campaign.raised == total_contributed(
            records.update(j, refunded_accounts(r).contribution),
        ),
        withdrawn_accounts(w).campaign.raised == total_contributed(records),
{
    if let Some(n) = recorded_contribution(a, amount, now) {
        lemma_total_after_update(records, i, n.contribution);
    }
    lemma_total_after_update(records, j, refunded_accounts(r).contribution);
}

/// The number of contribution records that hold a positive amount.
pub open spec fn nonempty_records(records: Seq<Contribution>) -> int
    decreases records.len(),
{
    if records.len() == 0 {
        0
    } else {
        nonempty_records(records.drop_last()) + if records.last().amount > 0 {
            1int
        } else {
            0int
        }
    }
}

proof fn lemma_nonempty_after_update(records: Seq<Contribution>, i: int, c: Contribution)
    requires
        0 <= i < records.len(),
    ensures
        nonempty_records(records.update(i, c)) == nonempty_records(records) - (if records[i].amount > 0 {
            1int
        } else {
            0int
        }) + (if c.amount > 0 {
            1int
        } else {
            0int
        }),
    decreases records.len(),
{
    if i == records.len() - 1 {
        assert(records.update(i, c).drop_last() =~= records.drop_last());
    } else {
        lemma_nonempty_after_update(records.drop_last(), i, c);
        assert(records.update(i, c).drop_last() =~= records.drop_last().update(i, c));
    }
}

/// Law: a campaign's contributor count is the number of its contribution records
/// that hold a positive amount, and every operation keeps it so. Where the count
/// matches a list of records that holds the contributor's record at position `i`
/// (a new contributor's empty record can be appended), an accepted contribution
/// changes the record and the count alike; a refund and a withdrawal change
/// neither an amount nor the count.
pub proof fn law_contributors_count_is_nonempty_records(
    a: Contribute,
    records: Seq<Contribution>,
    i: int,
    amount: u64,
    now: i64,
    r: ClaimRefund,
    j: int,
    w: Withdraw,
)
    requires
        0 <= i < records.len(),
        records[i] == a.contribution,
        a.campaign.contributors_count == nonempty_records(records),
        0 <= j < records.len(),
        records[j] == r.contribution,
        r.campaign.contributors_count == nonempty_records(records),
        w.campaign.contributors_count == nonempty_records(records),
    ensures
        contribute_error(a.campaign, amount, now) is None ==> (recorded_contribution(a, amount, now) matches Some(n)
            ==> n.campaign.contributors_count == nonempty_records(records.update(i, n.contribution))),
        refunded_accounts(r).campaign.contributors_count == nonempty_records(
            records.update(j, refunded_accounts(r).contribution),
        ),
        withdrawn_accounts(w).campaign.contributors_count == nonempty_records(records),
{
    if let Some(n) = recorded_contribution(a, amount, now) {
        lemma_nonempty_after_update(records, i, n.contribution);
    }
    lemma_nonempty_after_update(records, j, refunded_accounts(r).contribution);
}

/// Law: the ledger of a campaign starts empty and may take in new contributors.
/// A newly opened campaign has raised nothing and counts no contributor, as the
/// empty list of records says; and appending a new contributor's empty record
/// to a list changes neither its sum nor its count of non-empty records.
pub proof fn law_ledger_starts_empty(
    accounts: CreateCampaign,
    campaign_id: u64,
    title: String,
    description: String,
    image_url: String,
    goal: u64,
    deadline: i64,
    records: Seq<Contribution>,
    fresh: Contribution,
)
    requires
        fresh.amount == 0,
    ensures
        opened_campaign(accounts, campaign_id, title, description, image_url, goal, deadline).raised
            == total_contributed(Seq::empty()),
        opened_campaign(accounts, campaign_id, title, description, image_url, goal, deadline).contributors_count
            == nonempty_records(Seq::empty()),
        total_contributed(records.push(fresh)) == total_contributed(records),
        nonempty_records(records.push(fresh)) == nonempty_records(records),
{
    assert(records.push(fresh).drop_last() =~= records);
}

// ----------------------------------------------------------------------------
// laws over a campaign's history
// ----------------------------------------------------------------------------

/// What one instruction may do to a campaign account at time `now`: the
/// creator, id, mint, goal, deadline and bumps stay; the raised total only grows,
/// and grows only before the deadline; a withdrawn campaign stays withdrawn.
pub open spec fn campaign_step(before: Campaign, after: Campaign, now: i64) -> bool {
    &&& after == Campaign {
        raised: after.raised,
        withdrawn: after.withdrawn,
        contributors_count: after.contributors_count,
        ..before
    }
    &&& after.raised >= before.raised
    &&& after.raised > before.raised ==> now < before.deadline
    &&& before.withdrawn ==> after.withdrawn
}

/// Law: every instruction on a campaign is a `campaign_step` at the time it runs.
/// An accepted contribution, a withdrawal and a refund each change the campaign
/// account within a step, and a refused instruction leaves it as it was.
pub proof fn law_instructions_are_campaign_steps(
    a: Contribute,
    amount: u64,
    now: i64,
    w: Withdraw,
    r: ClaimRefund,
    c: Campaign,
)
    ensures
        contribute_error(a.campaign, amount, now) is None ==> (recorded_contribution(a, amount, now) matches Some(n)
            ==> campaign_step(a.campaign, n.campaign, now)),
        campaign_step(w.campaign, withdrawn_accounts(w).campaign, now),
        campaign_step(r.campaign, refunded_accounts(r).campaign, now),
        campaign_step(c, c, now),
{
}

/// A history of a campaign account: `states[k + 1]` follows `states[k]` by an
/// instruction run at `times[k]`.
pub open spec fn campaign_history(states: Seq<Campaign>, times: Seq<i64>) -> bool {
    &&& states.len() == times.len() + 1
    &&& forall|k: int| 0 <= k < times.len() ==> #[trigger] campaign_step(states[k], states[k + 1], times[k])
}

proof fn lemma_history_keeps(states: Seq<Campaign>, times: Seq<i64>, n: int)
    requires
        campaign_history(states, times),
        0 <= n < states.len(),
    ensures
        states[n].creator == states[0].creator,
        states[n].goal == states[0].goal,
        states[n].deadline == states[0].deadline,
        states[n].raised >= states[0].raised,
        states[0].withdrawn ==> states[n].withdrawn,
    decreases n,
{
    if n > 0 {
        lemma_history_keeps(states, times, n - 1);
        let k = n - 1;
        assert(campaign_step(states[k], states[k + 1], times[k]));
    }
}

proof fn lemma_history_after_deadline(states: Seq<Campaign>, times: Seq<i64>, n: int, t0: i64)
    requires
        campaign_history(states, times),
        0 <= n < states.len(),
        states[0].deadline <= t0,
        forall|k: int| 0 <= k < times.len() ==> t0 <= #[trigger] times[k],
    ensures
        states[n].raised == states[0].raised,
    decreases n,
{
    if n > 0 {
        lemma_history_after_deadline(states, times, n - 1, t0);
        lemma_history_keeps(states, times, n - 1);
        let k = n - 1;
        assert(campaign_step(states[k], states[k + 1], times[k]));
        assert(t0 <= times[k]);
    }
}

/// Law: funds leave the vault to the creator at most once. After a withdrawal
/// succeeds, whatever instructions follow, every later withdrawal is refused:
/// with `NotCreator` for another signer, else with `AlreadyWithdrawn`.
pub proof fn law_withdraw_once_in_history(w: Withdraw, states: Seq<Campaign>, times: Seq<i64>, later: Withdraw)
    requires
        withdraw_error(w) is None,
        campaign_history(states, times),
        states[0] == withdrawn_accounts(w).campaign,
        later.campaign == states.last(),
    ensures
        withdraw_error(later) == Some(
            if later.creator@ != later.campaign.creator@ {
                CrowdfundingError::NotCreator
            } else {
                CrowdfundingError::AlreadyWithdrawn
            },
        ),
{
    lemma_history_keeps(states, times, states.len() - 1);
}

/// Law: the creator's payout and the refunds never both happen. After a
/// withdrawal succeeds, whatever instructions follow, every later refund claim is
/// refused: with `CampaignStillActive` before the deadline, else with
/// `GoalWasReached`.
pub proof fn law_no_refund_after_withdraw(
    w: Withdraw,
    states: Seq<Campaign>,
    times: Seq<i64>,
    contribution: Contribution,
    now: i64,
)
    requires
        withdraw_error(w) is None,
        campaign_history(states, times),
        states[0] == withdrawn_accounts(w).campaign,
    ensures
        refund_error(states.last(), contribution, now) == Some(
            if now < states.last().deadline {
                CrowdfundingError::CampaignStillActive
            } else {
                CrowdfundingError::GoalWasReached
            },
        ),
{
    lemma_history_keeps(states, times, states.len() - 1);
}

/// Law: once a refund has been paid at time `t0`, the creator can never
/// withdraw. Contributions stop at the deadline, so while the clock does not go
/// back before `t0` the raised total stays under the goal, and every later
/// withdrawal is refused: with `NotCreator` for another signer, else with
/// `GoalNotReached`.
pub proof fn law_no_withdraw_after_refund(
    r: ClaimRefund,
    t0: i64,
    states: Seq<Campaign>,
    times: Seq<i64>,
    later: Withdraw,
)
    requires
        refund_error(r.campaign, r.contribution, t0) is None,
        campaign_history(states, times),
        states[0] == refunded_accounts(r).campaign,
        forall|k: int| 0 <= k < times.len() ==> t0 <= #[trigger] times[k],
        later.campaign == states.last(),
    ensures
        withdraw_error(later) == Some(
            if later.creator@ != later.campaign.creator@ {
                CrowdfundingError::NotCreator
            } else {
                CrowdfundingError::GoalNotReached
            },
        ),
{
    lemma_history_keeps(states, times, states.len() - 1);
    lemma_history_after_deadline(states, times, states.len() - 1, t0);
}

} // verus!
