//! What each crowdfunding operation does, stated over its inputs and results:
//! which inputs each check accepts, what each transfer moves, and what each
//! operation writes into the accounts.
use crate::address::{canonical_address, seeds_view, Address};
use crate::constraint::{ConstraintError, Rejection};
use crate::crowdfunding::{
    campaign_params_error, campaign_tag, checked_contribute_accounts, contribute_error, resolved_create_campaign, vault_tag,
    contribution_tag, contribution_transfer, derives, opened_campaign,
    recorded_contribution, refund_accounts_error, refund_error, refund_event, refund_transfer,
    refunded_accounts, spec_campaign_seeds, spec_contribution_seeds, spec_deadline, spec_vault_seeds,
    total_contributed, withdraw_accounts_error, withdraw_error, withdrawal_event, withdrawal_transfer,
    withdrawn_accounts, Campaign, ClaimRefund, Contribute, Contribution, CreateCampaign, CrowdfundingError,
    TokenTransfer, Withdraw,
};
use vstd::prelude::*;

verus! {

// ----------------------------------------------------------------------------
// create_campaign
// ----------------------------------------------------------------------------

/// Law: a new campaign's parameters are accepted exactly when the title has 5
/// to 64 characters, the description and the image URL at most 200 each, the
/// goal is positive and the duration is 1 to 365 days; otherwise the first of
/// these that fails names the error.
pub proof fn law_campaign_params_limits(title_len: nat, description_len: nat, image_url_len: nat, goal: u64, days: i64)
    ensures
        campaign_params_error(title_len, description_len, image_url_len, goal, days) is None <==> (5 <= title_len
            <= 64 && description_len <= 200 && image_url_len <= 200 && goal > 0 && 1 <= days <= 365),
        !(5 <= title_len <= 64) ==> campaign_params_error(title_len, description_len, image_url_len, goal, days)
            == Some(CrowdfundingError::InvalidTitle),
        5 <= title_len <= 64 && description_len > 200 ==> campaign_params_error(
            title_len,
            description_len,
            image_url_len,
            goal,
            days,
        ) == Some(CrowdfundingError::DescriptionTooLong),
        5 <= title_len <= 64 && description_len <= 200 && image_url_len > 200 ==> campaign_params_error(
            title_len,
            description_len,
            image_url_len,
            goal,
            days,
        ) == Some(CrowdfundingError::ImageUrlTooLong),
        5 <= title_len <= 64 && description_len <= 200 && image_url_len <= 200 && goal == 0
            ==> campaign_params_error(title_len, description_len, image_url_len, goal, days) == Some(
            CrowdfundingError::InvalidGoal,
        ),
        5 <= title_len <= 64 && description_len <= 200 && image_url_len <= 200 && goal > 0 && !(1 <= days <= 365)
            ==> campaign_params_error(title_len, description_len, image_url_len, goal, days) == Some(
            CrowdfundingError::InvalidDuration,
        ),
{
}

/// Law: a campaign of `days` days opened at `now` ends `days` times 86 400
/// seconds later; only a deadline past the largest `i64` is refused.
pub proof fn law_deadline_is_days_later(now: i64, days: i64)
    requires
        1 <= days <= 365,
    ensures
        now + days * 86_400 <= i64::MAX ==> (spec_deadline(now, days) matches Some(d) && d == now + days * 86_400),
        now + days * 86_400 > i64::MAX ==> spec_deadline(now, days) is None,
{
}

/// Law: an opened campaign stores what it was opened with: the creator and the
/// mint of its accounts, the id, title, description, image URL, goal and
/// deadline given, and the bumps found for its accounts; it starts with nothing
/// raised, no contributor, and not withdrawn.
pub proof fn law_opened_campaign_stores_parameters(
    accounts: CreateCampaign,
    campaign_id: u64,
    title: String,
    description: String,
    image_url: String,
    goal: u64,
    deadline: i64,
)
    ensures
        ({
            let c = opened_campaign(accounts, campaign_id, title, description, image_url, goal, deadline);
            &&& c.creator == accounts.creator
            &&& c.campaign_id == campaign_id
            &&& c.title == title
            &&& c.description == description
            &&& c.image_url == image_url
            &&& c.token_mint == accounts.token_mint
            &&& c.goal == goal
            &&& c.raised == 0
            &&& c.deadline == deadline
            &&& !c.withdrawn
            &&& c.contributors_count == 0
            &&& c.bump == accounts.campaign_bump
            &&& c.vault_bump == accounts.vault_bump
        }),
{
}

// ----------------------------------------------------------------------------
// contribute
// ----------------------------------------------------------------------------

/// Law: a contribution is accepted exactly when its amount is positive and the
/// deadline has not come; a zero amount is refused with `ZeroAmount`, and a
/// positive one at or after the deadline with `CampaignExpired`.
pub proof fn law_contribution_window(campaign: Campaign, amount: u64, now: i64)
    ensures
        contribute_error(campaign, amount, now) is None <==> (amount > 0 && now < campaign.deadline),
        amount == 0 ==> contribute_error(campaign, amount, now) == Some(CrowdfundingError::ZeroAmount),
        amount > 0 && now >= campaign.deadline ==> contribute_error(campaign, amount, now) == Some(
            CrowdfundingError::CampaignExpired,
        ),
{
}

/// Law: a contribution is recorded whenever its sums fit in a `u64`: the
/// record's new amount, the new raised total, and (for a first contribution)
/// the new contributor count. Then the record and the raised total grow by the
/// amount, a first contribution counts the contributor, the record notes the
/// campaign, the contributor, the time and its bump, and nothing else changes.
pub proof fn law_contribution_recorded_when_sums_fit(a: Contribute, amount: u64, now: i64)
    ensures
        recorded_contribution(a, amount, now) is Some <==> (a.contribution.amount + amount <= u64::MAX
            && a.campaign.raised + amount <= u64::MAX && (a.contribution.amount == 0
            ==> a.campaign.contributors_count + 1 <= u64::MAX)),
        recorded_contribution(a, amount, now) matches Some(n) ==> {
            &&& n.campaign.raised == a.campaign.raised + amount
            &&& n.contribution.amount == a.contribution.amount + amount
            &&& n.campaign.contributors_count == a.campaign.contributors_count + if a.contribution.amount
                == 0 {
                1int
            } else {
                0int
            }
            &&& n.contribution.campaign == a.campaign_key
            &&& n.contribution.contributor == a.contributor
            &&& n.contribution.last_contributed_at == now
            &&& n.contribution.bump == a.contribution_bump
            &&& n.contribution.refunded == a.contribution.refunded
            &&& n.campaign == (Campaign {
                raised: n.campaign.raised,
                contributors_count: n.campaign.contributors_count,
                ..a.campaign
            })
            &&& n == (Contribute { campaign: n.campaign, contribution: n.contribution, ..a })
        },
{
}

/// Law: a contribution's transfer moves exactly the amount contributed, from the
/// contributor's token account into the vault, on the contributor's own
/// signature; and it is what the raised total grows by.
pub proof fn law_contribution_transfer_moves_the_amount(t: TokenTransfer, a: Contribute, amount: u64, now: i64)
    requires
        contribution_transfer(t, a, amount),
    ensures
        t.amount == amount,
        t.from == a.contributor_token_account,
        t.to == a.vault,
        t.authority == a.contributor,
        t.signer_seeds@.len() == 0,
        recorded_contribution(a, amount, now) matches Some(n) ==> n.campaign.raised == a.campaign.raised
            + t.amount,
{
}

// ----------------------------------------------------------------------------
// withdraw
// ----------------------------------------------------------------------------

/// Law: a withdrawal is accepted exactly when the signer is the creator, the
/// raised total has reached the goal, and nothing was withdrawn yet; otherwise
/// the first of these that fails names the error.
pub proof fn law_withdraw_conditions(a: Withdraw)
    ensures
        withdraw_error(a) is None <==> (a.creator@ == a.campaign.creator@ && a.campaign.raised >= a.campaign.goal
            && !a.campaign.withdrawn),
        a.creator@ != a.campaign.creator@ ==> withdraw_error(a) == Some(CrowdfundingError::NotCreator),
        a.creator@ == a.campaign.creator@ && a.campaign.raised < a.campaign.goal ==> withdraw_error(a) == Some(
            CrowdfundingError::GoalNotReached,
        ),
        a.creator@ == a.campaign.creator@ && a.campaign.raised >= a.campaign.goal && a.campaign.withdrawn
            ==> withdraw_error(a) == Some(CrowdfundingError::AlreadyWithdrawn),
{
}

/// Law: a withdrawal pays out everything raised (the sum of the contribution
/// records), not the goal: its transfer moves the raised total from the vault
/// to the creator's token account, signed by the campaign account with its
/// seeds "campaign", creator, id and bump, and its event reports that same
/// amount. Afterwards the campaign is marked withdrawn and nothing else changes.
pub proof fn law_withdrawal_pays_out_everything_raised(t: TokenTransfer, a: Withdraw, records: Seq<Contribution>)
    requires
        withdrawal_transfer(t, a),
    ensures
        t.amount == a.campaign.raised,
        a.campaign.raised == total_contributed(records) ==> t.amount == total_contributed(records),
        withdrawal_event(a).amount == t.amount,
        withdrawal_event(a).campaign == a.campaign_key,
        withdrawal_event(a).creator == a.campaign.creator,
        t.from == a.vault,
        t.to == a.creator_token_account,
        t.authority == a.campaign_key,
        seeds_view(t.signer_seeds@) == seq![
            campaign_tag(),
            a.campaign.creator@,
            vstd::bytes::spec_u64_to_le_bytes(a.campaign.campaign_id),
            seq![a.campaign.bump],
        ],
        withdrawn_accounts(a) == (Withdraw { campaign: Campaign { withdrawn: true, ..a.campaign }, ..a }),
{
    assert(seeds_view(t.signer_seeds@) =~= seq![
        campaign_tag(),
        a.campaign.creator@,
        vstd::bytes::spec_u64_to_le_bytes(a.campaign.campaign_id),
        seq![a.campaign.bump],
    ]);
}

// ----------------------------------------------------------------------------
// claim_refund
// ----------------------------------------------------------------------------

/// Law: a refund is accepted exactly when the deadline has come, the goal was
/// not reached, and the contribution is positive and not yet refunded; there is
/// no closing time, so a refund accepted at one time is accepted at every later
/// time. Otherwise the first condition that fails names the error.
pub proof fn law_refund_conditions(campaign: Campaign, contribution: Contribution, now: i64, later: i64)
    ensures
        refund_error(campaign, contribution, now) is None <==> (now >= campaign.deadline && campaign.raised
            < campaign.goal && !contribution.refunded && contribution.amount > 0),
        refund_error(campaign, contribution, now) is None && later >= now ==> refund_error(
            campaign,
            contribution,
            later,
        ) is None,
        now < campaign.deadline ==> refund_error(campaign, contribution, now) == Some(
            CrowdfundingError::CampaignStillActive,
        ),
        now >= campaign.deadline && campaign.raised >= campaign.goal ==> refund_error(campaign, contribution, now)
            == Some(CrowdfundingError::GoalWasReached),
        now >= campaign.deadline && campaign.raised < campaign.goal && contribution.refunded ==> refund_error(
            campaign,
            contribution,
            now,
        ) == Some(CrowdfundingError::AlreadyRefunded),
        now >= campaign.deadline && campaign.raised < campaign.goal && !contribution.refunded
            && contribution.amount == 0 ==> refund_error(campaign, contribution, now) == Some(
            CrowdfundingError::NothingToRefund,
        ),
{
}

/// Law: a refund gives the contributor their whole contribution back: its
/// transfer moves the contribution's amount from the vault to the contributor's
/// token account, signed by the campaign account with its seeds, and its event
/// reports that amount for that contributor. Afterwards the contribution is
/// marked refunded and nothing else changes.
pub proof fn law_refund_returns_the_whole_contribution(t: TokenTransfer, a: ClaimRefund)
    requires
        refund_transfer(t, a),
    ensures
        t.amount == a.contribution.amount,
        refund_event(a).amount == t.amount,
        refund_event(a).campaign == a.campaign_key,
        refund_event(a).contributor == a.contribution.contributor,
        t.from == a.vault,
        t.to == a.contributor_token_account,
        t.authority == a.campaign_key,
        seeds_view(t.signer_seeds@) == seq![
            campaign_tag(),
            a.campaign.creator@,
            vstd::bytes::spec_u64_to_le_bytes(a.campaign.campaign_id),
            seq![a.campaign.bump],
        ],
        refunded_accounts(a) == (ClaimRefund { contribution: Contribution { refunded: true, ..a.contribution }, ..a }),
{
    assert(seeds_view(t.signer_seeds@) =~= seq![
        campaign_tag(),
        a.campaign.creator@,
        vstd::bytes::spec_u64_to_le_bytes(a.campaign.campaign_id),
        seq![a.campaign.bump],
    ]);
}

// ----------------------------------------------------------------------------
// account checks
// ----------------------------------------------------------------------------

/// Law: the accounts of a withdrawal pass exactly when the campaign and the
/// vault sit at the addresses their stored seeds and bumps derive, the signer is
/// the creator, and the mint is the campaign's.
pub proof fn law_withdraw_accounts_checked(a: Withdraw, program_id: Seq<u8>)
    ensures
        withdraw_accounts_error(a, program_id) is None <==> (derives(
            spec_campaign_seeds(a.campaign.creator@, a.campaign.campaign_id),
            a.campaign.bump,
            program_id,
            a.campaign_key,
        ) && a.creator@ == a.campaign.creator@ && derives(
            spec_vault_seeds(a.campaign_key@),
            a.campaign.vault_bump,
            program_id,
            a.vault,
        ) && a.token_mint@ == a.campaign.token_mint@),
        derives(
            spec_campaign_seeds(a.campaign.creator@, a.campaign.campaign_id),
            a.campaign.bump,
            program_id,
            a.campaign_key,
        ) && a.creator@ != a.campaign.creator@ ==> withdraw_accounts_error(a, program_id) == Some(
            Rejection::Program(CrowdfundingError::NotCreator),
        ),
{
}

/// Law: the accounts of a refund pass exactly when the campaign, the vault and
/// the contribution record sit at the addresses their stored seeds and bumps
/// derive, and the record belongs to the signer; a record of someone else is
/// refused with `HasOne`.
pub proof fn law_refund_accounts_checked(a: ClaimRefund, program_id: Seq<u8>)
    ensures
        refund_accounts_error(a, program_id) is None <==> (derives(
            spec_campaign_seeds(a.campaign.creator@, a.campaign.campaign_id),
            a.campaign.bump,
            program_id,
            a.campaign_key,
        ) && derives(spec_vault_seeds(a.campaign_key@), a.campaign.vault_bump, program_id, a.vault) && derives(
            spec_contribution_seeds(a.campaign_key@, a.contributor@),
            a.contribution.bump,
            program_id,
            a.contribution_key,
        ) && a.contribution.contributor@ == a.contributor@),
        refund_accounts_error(a, program_id) is Some ==> refund_accounts_error(a, program_id) == Some(
            ConstraintError::Seeds,
        ) || refund_accounts_error(a, program_id) == Some(ConstraintError::HasOne),
{
}

/// Law: resolving the accounts of `create_campaign` passes the accounts on as
/// they were given, with the bumps their addresses were found with, and only
/// where the campaign sits at the canonical address of "campaign", creator and
/// id, and the vault at that of "vault" and the campaign; any other refusal is
/// a seeds violation.
pub proof fn law_create_campaign_resolution(
    program_id: Seq<u8>,
    campaign_id: u64,
    creator: Address,
    token_mint: Address,
    campaign: Address,
    vault: Address,
)
    ensures
        resolved_create_campaign(program_id, campaign_id, creator, token_mint, campaign, vault) matches Some(
            Ok(x),
        ) ==> {
            &&& x.creator == creator
            &&& x.token_mint == token_mint
            &&& x.campaign == campaign
            &&& x.vault == vault
            &&& canonical_address(
                seq![campaign_tag(), creator@, vstd::bytes::spec_u64_to_le_bytes(campaign_id)],
                program_id,
            ) == Some((campaign@, x.campaign_bump))
            &&& canonical_address(seq![vault_tag(), campaign@], program_id) == Some((vault@, x.vault_bump))
        },
        resolved_create_campaign(program_id, campaign_id, creator, token_mint, campaign, vault) matches Some(
            Err(e),
        ) ==> e == ConstraintError::Seeds,
{
}

/// Law: the accounts of a contribution pass exactly when the campaign and the
/// vault sit at the addresses their stored seeds and bumps derive, and the
/// contribution record at the canonical address of "contribution", campaign and
/// contributor, found with the record's bump; any other refusal is a seeds
/// violation.
pub proof fn law_contribute_accounts_checked(a: Contribute, program_id: Seq<u8>)
    ensures
        checked_contribute_accounts(a, program_id) == Some(Ok::<(), ConstraintError>(())) <==> (derives(
            spec_campaign_seeds(a.campaign.creator@, a.campaign.campaign_id),
            a.campaign.bump,
            program_id,
            a.campaign_key,
        ) && derives(spec_vault_seeds(a.campaign_key@), a.campaign.vault_bump, program_id, a.vault)
            && canonical_address(seq![contribution_tag(), a.campaign_key@, a.contributor@], program_id) == Some(
            (a.contribution_key@, a.contribution_bump),
        )),
        checked_contribute_accounts(a, program_id) matches Some(Err(e)) ==> e == ConstraintError::Seeds,
{
}

} // verus!
