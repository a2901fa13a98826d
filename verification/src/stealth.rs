use vstd::prelude::*;
use vstd::string::StrSliceExecFns;
use crate::campaign::Campaign;
use crate::errors::ErrorCode;

verus! {

/// A registered stealth payment: metadata only, so the recipient can scan
/// for payments addressed to them. The value itself moves outside this
/// record, straight to the stealth address.
#[derive(Clone, Debug, PartialEq, Eq)]
pub struct StealthRegistry {
    /// The campaign the payment belongs to.
    pub campaign: [u8; 32],
    /// The one-off stealth destination.
    pub stealth_address: [u8; 32],
    /// The ephemeral public key the recipient needs to derive the
    /// destination's key, at most 64 characters.
    pub ephemeral_pub_key: String,
    /// The amount sent.
    pub amount: u64,
    /// When the payment was registered.
    pub timestamp: i64,
}

/// Registers a stealth payment against a campaign: records the scanning
/// metadata and bumps the campaign's stealth statistics. Moves no value.
pub fn register_stealth_payment(
    campaign: &mut Campaign,
    campaign_key: &[u8; 32],
    stealth_address: &[u8; 32],
    ephemeral_pub_key: String,
    amount: u64,
    now: i64,
) -> (r: Result<StealthRegistry, ErrorCode>)
    ensures
        r is Err ==> *final(campaign) == *old(campaign),
        ephemeral_pub_key@.len() > 64 ==> r == Err::<StealthRegistry, ErrorCode>(
            ErrorCode::EphemeralKeyTooLong,
        ),
        ephemeral_pub_key@.len() <= 64 && (old(campaign).stealth_donations + 1 > u64::MAX || old(campaign).stealth_total + amount > u64::MAX) ==> r == Err::<StealthRegistry, ErrorCode>(
            ErrorCode::Overflow,
        ),
        r is Ok <==> ephemeral_pub_key@.len() <= 64 && old(campaign).stealth_donations + 1
            <= u64::MAX && old(campaign).stealth_total + amount <= u64::MAX,
        r matches Ok(reg) ==> {
            &&& reg.campaign@ == campaign_key@
            &&& reg.stealth_address@ == stealth_address@
            &&& reg.ephemeral_pub_key@ == ephemeral_pub_key@
            &&& reg.amount == amount
            &&& reg.timestamp == now
            &&& final(campaign).stealth_donations == old(campaign).stealth_donations + 1
            &&& final(campaign).stealth_total == old(campaign).stealth_total + amount
            &&& *final(campaign) == (Campaign {
                stealth_donations: final(campaign).stealth_donations,
                stealth_total: final(campaign).stealth_total,
                ..*old(campaign)
            })
        },
{
    if ephemeral_pub_key.as_str().unicode_len() > 64 {
        return Err(ErrorCode::EphemeralKeyTooLong);
    }
    let donations = match campaign.stealth_donations.checked_add(1) {
        Some(d) => d,
        None => {
            return Err(ErrorCode::Overflow);
        },
    };
    let total = match campaign.stealth_total.checked_add(amount) {
        Some(t) => t,
        None => {
            return Err(ErrorCode::Overflow);
        },
    };
    campaign.stealth_donations = donations;
    campaign.stealth_total = total;
    Ok(
        StealthRegistry {
            campaign: *campaign_key,
            stealth_address: *stealth_address,
            ephemeral_pub_key,
            amount,
            timestamp: now,
        },
    )
}

} // verus!
