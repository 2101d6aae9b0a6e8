//! Registering merchants and pausing them.

use vstd::prelude::*;
use vstd::string::StrSliceExecFns;
use crate::error::ErrorCode;
use crate::events::{MerchantInitialized, MerchantPauseToggled};
use crate::identity::Identity;
use crate::limits::{MAX_DESCRIPTION_LEN, MAX_NAME_LEN};
use crate::records::Merchant;
use crate::validation::{is_clean_text, is_valid_utf8};

verus! {

/// What registering a merchant works on.
#[derive(Debug, PartialEq, Eq)]
pub struct InitializeMerchant {
    /// The place of the merchant of `authority`: vacant until it registers.
    pub merchant: Option<Merchant>,
    /// The caller, who becomes the merchant's authority.
    pub authority: Identity,
}

/// Why a merchant cannot be registered under this name and description, if it
/// cannot: the first of the conditions below that is violated.
pub open spec fn initialize_merchant_rejection(
    ctx: InitializeMerchant,
    name: Seq<char>,
    description: Seq<char>,
) -> Option<ErrorCode> {
    if ctx.merchant is Some {
        Some(ErrorCode::MerchantAlreadyExists)
    } else if name.len() == 0 {
        Some(ErrorCode::NameEmpty)
    } else if name.len() > MAX_NAME_LEN {
        Some(ErrorCode::NameTooLong)
    } else if description.len() > MAX_DESCRIPTION_LEN {
        Some(ErrorCode::DescriptionTooLong)
    } else if !is_clean_text(name) || !is_clean_text(description) {
        Some(ErrorCode::InvalidUtf8)
    } else {
        None
    }
}

/// The record of a merchant that has just registered.
pub open spec fn registered(authority: Identity, name: String, description: String, now: i64)
    -> Merchant {
    Merchant {
        authority,
        name,
        description,
        total_coupons_created: 0,
        total_redemptions: 0,
        total_revenue: 0,
        rating_sum: 0,
        rating_count: 0,
        is_verified: false,
        is_paused: false,
        created_at: now,
    }
}

/// The merchant after its pause flag was flipped.
pub open spec fn pause_flipped(merchant: Merchant) -> Merchant {
    Merchant { is_paused: !merchant.is_paused, ..merchant }
}

/// Registers a merchant for `ctx.authority` at time `now`.
///
/// On success the merchant stands in `ctx.merchant` with every counter at
/// zero, neither verified nor paused, and the notification to publish is
/// returned. On failure nothing has changed.
pub fn initialize_merchant(
    ctx: &mut InitializeMerchant,
    name: String,
    description: String,
    now: i64,
) -> (r: Result<MerchantInitialized, ErrorCode>)
    ensures
        match r {
            Ok(event) => {
                &&& initialize_merchant_rejection(*old(ctx), name@, description@) is None
                &&& final(ctx).merchant == Some(
                    registered(old(ctx).authority, name, description, now),
                )
                &&& final(ctx).authority == old(ctx).authority
                &&& event == (MerchantInitialized {
                    merchant: old(ctx).authority,
                    authority: old(ctx).authority,
                    timestamp: now,
                })
            },
            Err(e) => {
                &&& initialize_merchant_rejection(*old(ctx), name@, description@) == Some(e)
                &&& *final(ctx) == *old(ctx)
            },
        },
{
    if ctx.merchant.is_some() {
        return Err(ErrorCode::MerchantAlreadyExists);
    }
    let name_len: usize = name.as_str().unicode_len();
    if name_len == 0 {
        return Err(ErrorCode::NameEmpty);
    }
    if name_len > MAX_NAME_LEN {
        return Err(ErrorCode::NameTooLong);
    }
    if description.as_str().unicode_len() > MAX_DESCRIPTION_LEN {
        return Err(ErrorCode::DescriptionTooLong);
    }
    if !is_valid_utf8(name.as_str()) {
        return Err(ErrorCode::InvalidUtf8);
    }
    if !is_valid_utf8(description.as_str()) {
        return Err(ErrorCode::InvalidUtf8);
    }
    ctx.merchant = Some(
        Merchant {
            authority: ctx.authority,
            name,
            description,
            total_coupons_created: 0,
            total_redemptions: 0,
            total_revenue: 0,
            rating_sum: 0,
            rating_count: 0,
            is_verified: false,
            is_paused: false,
            created_at: now,
        },
    );
    Ok(MerchantInitialized { merchant: ctx.authority, authority: ctx.authority, timestamp: now })
}

/// What pausing or resuming a merchant works on.
#[derive(Debug, PartialEq, Eq)]
pub struct ToggleMerchantPause {
    pub merchant: Merchant,
    /// The caller.
    pub authority: Identity,
}

/// Flips the merchant's pause flag, for the merchant's authority and for
/// nobody else. Nothing else changes.
pub fn toggle_merchant_pause(ctx: &mut ToggleMerchantPause, now: i64) -> (r: Result<
    MerchantPauseToggled,
    ErrorCode,
>)
    ensures
        match r {
            Ok(event) => {
                &&& old(ctx).merchant.authority == old(ctx).authority
                &&& *final(ctx) == (ToggleMerchantPause {
                    merchant: pause_flipped(old(ctx).merchant),
                    ..*old(ctx)
                })
                &&& event == (MerchantPauseToggled {
                    merchant: old(ctx).merchant.authority,
                    is_paused: !old(ctx).merchant.is_paused,
                    timestamp: now,
                })
            },
            Err(e) => {
                &&& old(ctx).merchant.authority != old(ctx).authority
                &&& e == ErrorCode::Unauthorized
                &&& *final(ctx) == *old(ctx)
            },
        },
{
    if !ctx.merchant.authority.same(&ctx.authority) {
        return Err(ErrorCode::Unauthorized);
    }
    let paused = !ctx.merchant.is_paused;
    ctx.merchant.is_paused = paused;
    Ok(MerchantPauseToggled { merchant: ctx.merchant.authority, is_paused: paused, timestamp: now })
}

} // verus!
