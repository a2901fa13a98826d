use vstd::prelude::*;
use vstd::string::StrSliceExecFns;
use crate::errors::ErrorCode;
use crate::util::bytes32_eq;

verus! {

/// Where a campaign stands in its life.
#[derive(Clone, Copy, Debug, PartialEq, Eq, Structural)]
pub enum CampaignStatus {
    /// Accepting donations.
    Active,
    /// Closed by its owner.
    Closed,
    /// Finished.
    Completed,
}

/// A donation campaign. Funds donated to it sit in a vault controlled by the
/// protocol, not by the owner; the owner may draw from that vault.
#[derive(Clone, Debug, PartialEq, Eq)]
pub struct Campaign {
    /// The owner, the only identity allowed to withdraw or close.
    pub owner: [u8; 32],
    /// The campaign's chosen identifier, at most 32 characters.
    pub campaign_id: String,
    /// Title, at most 64 characters.
    pub title: String,
    /// Description, at most 256 characters.
    pub description: String,
    /// The funding goal; informational only.
    pub goal: u64,
    /// Sum of open donations received.
    pub total_raised: u64,
    /// Number of open donations received.
    pub donor_count: u64,
    /// After this moment no further donations are accepted.
    pub deadline: i64,
    /// Where the campaign stands.
    pub status: CampaignStatus,
    /// When the campaign was created.
    pub created_at: i64,
    /// The owner's stealth meta-address, so donors can derive one-off
    /// destinations; empty until set, at most 200 characters.
    pub stealth_meta_address: String,
    /// Number of stealth donations registered (metadata only).
    pub stealth_donations: u64,
    /// Total amount registered through stealth donations (display only).
    pub stealth_total: u64,
}

/// Creates a campaign with the given bounds-checked texts and a deadline in
/// the future. The campaign starts active with nothing raised.
pub fn create_campaign(
    owner: &[u8; 32],
    campaign_id: String,
    title: String,
    description: String,
    goal: u64,
    deadline: i64,
    now: i64,
) -> (r: Result<Campaign, ErrorCode>)
    ensures
        campaign_id@.len() > 32 ==> r == Err::<Campaign, ErrorCode>(ErrorCode::CampaignIdTooLong),
        campaign_id@.len() <= 32 && title@.len() > 64 ==> r == Err::<Campaign, ErrorCode>(
            ErrorCode::TitleTooLong,
        ),
        campaign_id@.len() <= 32 && title@.len() <= 64 && description@.len() > 256 ==> r == Err::<
            Campaign,
            ErrorCode,
        >(ErrorCode::DescriptionTooLong),
        campaign_id@.len() <= 32 && title@.len() <= 64 && description@.len() <= 256 && goal == 0
            ==> r == Err::<Campaign, ErrorCode>(ErrorCode::InvalidGoal),
        campaign_id@.len() <= 32 && title@.len() <= 64 && description@.len() <= 256 && goal > 0
            && deadline <= now ==> r == Err::<Campaign, ErrorCode>(ErrorCode::InvalidDeadline),
        r is Ok <==> campaign_id@.len() <= 32 && title@.len() <= 64 && description@.len() <= 256
            && goal > 0 && deadline > now,
        r matches Ok(c) ==> {
            &&& c.owner@ == owner@
            &&& c.campaign_id@ == campaign_id@
            &&& c.title@ == title@
            &&& c.description@ == description@
            &&& c.goal == goal
            &&& c.total_raised == 0
            &&& c.donor_count == 0
            &&& c.deadline == deadline
            &&& c.status == CampaignStatus::Active
            &&& c.created_at == now
            &&& c.stealth_meta_address@.len() == 0
            &&& c.stealth_donations == 0
            &&& c.stealth_total == 0
        },
{
    if campaign_id.as_str().unicode_len() > 32 {
        return Err(ErrorCode::CampaignIdTooLong);
    }
    if title.as_str().unicode_len() > 64 {
        return Err(ErrorCode::TitleTooLong);
    }
    if description.as_str().unicode_len() > 256 {
        return Err(ErrorCode::DescriptionTooLong);
    }
    if goal == 0 {
        return Err(ErrorCode::InvalidGoal);
    }
    if deadline <= now {
        return Err(ErrorCode::InvalidDeadline);
    }
    Ok(
        Campaign {
            owner: *owner,
            campaign_id,
            title,
            description,
            goal,
            total_raised: 0,
            donor_count: 0,
            deadline,
            status: CampaignStatus::Active,
            created_at: now,
            stealth_meta_address: String::new(),
            stealth_donations: 0,
            stealth_total: 0,
        },
    )
}

/// Donates to an active campaign before its deadline: the amount goes into
/// the campaign's vault and the aggregates move. Who donated is not recorded.
pub fn donate(campaign: &mut Campaign, vault_balance: &mut u64, amount: u64, now: i64) -> (r:
    Result<(), ErrorCode>)
    ensures
        r is Err ==> *final(campaign) == *old(campaign) && *final(vault_balance) == *old(vault_balance),
        amount == 0 ==> r == Err::<(), ErrorCode>(ErrorCode::InvalidAmount),
        amount > 0 && old(campaign).status != CampaignStatus::Active ==> r == Err::<(), ErrorCode>(
            ErrorCode::CampaignNotActive,
        ),
        amount > 0 && old(campaign).status == CampaignStatus::Active && now >= old(campaign).deadline ==> r == Err::<(), ErrorCode>(ErrorCode::CampaignEnded),
        amount > 0 && old(campaign).status == CampaignStatus::Active && now < old(campaign).deadline
            && (old(campaign).total_raised + amount > u64::MAX || old(campaign).donor_count + 1
            > u64::MAX || *old(vault_balance) + amount > u64::MAX) ==> r == Err::<(), ErrorCode>(
            ErrorCode::Overflow,
        ),
        r is Ok <==> amount > 0 && old(campaign).status == CampaignStatus::Active && now < old(campaign).deadline && old(campaign).total_raised + amount <= u64::MAX && old(campaign).donor_count
            + 1 <= u64::MAX && *old(vault_balance) + amount <= u64::MAX,
        r is Ok ==> {
            &&& final(campaign).total_raised == old(campaign).total_raised + amount
            &&& final(campaign).donor_count == old(campaign).donor_count + 1
            &&& *final(vault_balance) == *old(vault_balance) + amount
            &&& final(campaign).owner@ == old(campaign).owner@
            &&& final(campaign).campaign_id@ == old(campaign).campaign_id@
            &&& final(campaign).title@ == old(campaign).title@
            &&& final(campaign).description@ == old(campaign).description@
            &&& final(campaign).goal == old(campaign).goal
            &&& final(campaign).deadline == old(campaign).deadline
            &&& final(campaign).status == old(campaign).status
            &&& final(campaign).created_at == old(campaign).created_at
            &&& final(campaign).stealth_meta_address@ == old(campaign).stealth_meta_address@
            &&& final(campaign).stealth_donations == old(campaign).stealth_donations
            &&& final(campaign).stealth_total == old(campaign).stealth_total
        },
{
    if amount == 0 {
        return Err(ErrorCode::InvalidAmount);
    }
    if !matches!(campaign.status, CampaignStatus::Active) {
        return Err(ErrorCode::CampaignNotActive);
    }
    if now >= campaign.deadline {
        return Err(ErrorCode::CampaignEnded);
    }
    let total = match campaign.total_raised.checked_add(amount) {
        Some(t) => t,
        None => {
            return Err(ErrorCode::Overflow);
        },
    };
    let count = match campaign.donor_count.checked_add(1) {
        Some(c) => c,
        None => {
            return Err(ErrorCode::Overflow);
        },
    };
    let vault = match vault_balance.checked_add(amount) {
        Some(v) => v,
        None => {
            return Err(ErrorCode::Overflow);
        },
    };
    campaign.total_raised = total;
    campaign.donor_count = count;
    *vault_balance = vault;
    Ok(())
}

/// Draws funds from the campaign's vault; only the owner may do so.
pub fn withdraw(campaign: &Campaign, owner: &[u8; 32], vault_balance: &mut u64, amount: u64) -> (r:
    Result<(), ErrorCode>)
    ensures
        r is Err ==> *final(vault_balance) == *old(vault_balance),
        campaign.owner@ != owner@ ==> r == Err::<(), ErrorCode>(ErrorCode::Unauthorized),
        campaign.owner@ == owner@ && amount == 0 ==> r == Err::<(), ErrorCode>(
            ErrorCode::InvalidAmount,
        ),
        campaign.owner@ == owner@ && amount > 0 && amount > *old(vault_balance) ==> r == Err::<
            (),
            ErrorCode,
        >(ErrorCode::InsufficientFunds),
        r is Ok <==> campaign.owner@ == owner@ && amount > 0 && amount <= *old(vault_balance),
        r is Ok ==> *final(vault_balance) == *old(vault_balance) - amount,
{
    if !bytes32_eq(&campaign.owner, owner) {
        return Err(ErrorCode::Unauthorized);
    }
    if amount == 0 {
        return Err(ErrorCode::InvalidAmount);
    }
    if amount > *vault_balance {
        return Err(ErrorCode::InsufficientFunds);
    }
    *vault_balance = *vault_balance - amount;
    Ok(())
}

/// Closes an active campaign; only the owner may do so.
pub fn close_campaign(campaign: &mut Campaign, owner: &[u8; 32]) -> (r: Result<(), ErrorCode>)
    ensures
        r is Err ==> *final(campaign) == *old(campaign),
        old(campaign).owner@ != owner@ ==> r == Err::<(), ErrorCode>(ErrorCode::Unauthorized),
        old(campaign).owner@ == owner@ && old(campaign).status != CampaignStatus::Active ==> r
            == Err::<(), ErrorCode>(ErrorCode::CampaignNotActive),
        r is Ok <==> old(campaign).owner@ == owner@ && old(campaign).status
            == CampaignStatus::Active,
        r is Ok ==> *final(campaign) == (Campaign {
            status: CampaignStatus::Closed,
            ..*old(campaign)
        }),
{
    if !bytes32_eq(&campaign.owner, owner) {
        return Err(ErrorCode::Unauthorized);
    }
    if !matches!(campaign.status, CampaignStatus::Active) {
        return Err(ErrorCode::CampaignNotActive);
    }
    campaign.status = CampaignStatus::Closed;
    Ok(())
}

/// Sets the campaign's stealth meta-address, from which donors derive
/// one-off stealth destinations; only the owner may do so.
pub fn set_stealth_meta_address(
    campaign: &mut Campaign,
    owner: &[u8; 32],
    stealth_meta_address: String,
) -> (r: Result<(), ErrorCode>)
    ensures
        r is Err ==> *final(campaign) == *old(campaign),
        old(campaign).owner@ != owner@ ==> r == Err::<(), ErrorCode>(ErrorCode::Unauthorized),
        old(campaign).owner@ == owner@ && stealth_meta_address@.len() > 200 ==> r == Err::<
            (),
            ErrorCode,
        >(ErrorCode::MetaAddressTooLong),
        r is Ok <==> old(campaign).owner@ == owner@ && stealth_meta_address@.len() <= 200,
        r is Ok ==> final(campaign).stealth_meta_address@ == stealth_meta_address@ && *final(campaign) == (Campaign {
            stealth_meta_address: final(campaign).stealth_meta_address,
            ..*old(campaign)
        }),
{
    if !bytes32_eq(&campaign.owner, owner) {
        return Err(ErrorCode::Unauthorized);
    }
    if stealth_meta_address.as_str().unicode_len() > 200 {
        return Err(ErrorCode::MetaAddressTooLong);
    }
    campaign.stealth_meta_address = stealth_meta_address;
    Ok(())
}

} // verus!
