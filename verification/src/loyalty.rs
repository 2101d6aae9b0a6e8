//! Loyalty badges: points earned by purchases, and the tier they amount to.

use vstd::prelude::*;
use crate::error::ErrorCode;
use crate::events::{LoyaltyBadgeCreated, LoyaltyBadgeUpdated};
use crate::identity::Identity;
use crate::limits::{MAX_PRICE, UNITS_PER_POINT};
use crate::records::{LoyaltyBadge, LoyaltyTier};

verus! {

/// The tier that `points` amount to: Bronze below 100, Silver below 500, Gold
/// below 1000, Platinum from there on.
pub open spec fn tier_of(points: u32) -> LoyaltyTier {
    if points < 100 {
        LoyaltyTier::Bronze
    } else if points < 500 {
        LoyaltyTier::Silver
    } else if points < 1000 {
        LoyaltyTier::Gold
    } else {
        LoyaltyTier::Platinum
    }
}

impl LoyaltyTier {
    /// The tier that `points` amount to.
    pub fn for_points(points: u32) -> (tier: LoyaltyTier)
        ensures
            tier == tier_of(points),
    {
        if points < 100 {
            LoyaltyTier::Bronze
        } else if points < 500 {
            LoyaltyTier::Silver
        } else if points < 1000 {
            LoyaltyTier::Gold
        } else {
            LoyaltyTier::Platinum
        }
    }
}

/// What creating a loyalty badge works on.
#[derive(Debug, PartialEq, Eq)]
pub struct InitializeLoyaltyBadge {
    /// The place of the user's badge: vacant until it is created.
    pub loyalty_badge: Option<LoyaltyBadge>,
    pub user: Identity,
}

/// The badge of a user who has not bought anything yet.
pub open spec fn fresh_badge(user: Identity) -> LoyaltyBadge {
    LoyaltyBadge { user, tier: LoyaltyTier::Bronze, deals_purchased: 0, total_saved: 0, points: 0 }
}

/// Creates the badge of `ctx.user` at time `now`: Bronze, with every counter
/// at zero. A user who has a badge is refused and nothing changes.
pub fn initialize_loyalty_badge(ctx: &mut InitializeLoyaltyBadge, now: i64) -> (r: Result<
    LoyaltyBadgeCreated,
    ErrorCode,
>)
    ensures
        match r {
            Ok(event) => {
                &&& old(ctx).loyalty_badge is None
                &&& *final(ctx) == (InitializeLoyaltyBadge {
                    loyalty_badge: Some(fresh_badge(old(ctx).user)),
                    user: old(ctx).user,
                })
                &&& event == (LoyaltyBadgeCreated { user: old(ctx).user, timestamp: now })
            },
            Err(e) => {
                &&& old(ctx).loyalty_badge is Some
                &&& e == ErrorCode::LoyaltyBadgeAlreadyExists
                &&& *final(ctx) == *old(ctx)
            },
        },
{
    if ctx.loyalty_badge.is_some() {
        return Err(ErrorCode::LoyaltyBadgeAlreadyExists);
    }
    ctx.loyalty_badge = Some(
        LoyaltyBadge {
            user: ctx.user,
            tier: LoyaltyTier::Bronze,
            deals_purchased: 0,
            total_saved: 0,
            points: 0,
        },
    );
    Ok(LoyaltyBadgeCreated { user: ctx.user, timestamp: now })
}

/// What a loyalty update works on.
#[derive(Debug, PartialEq, Eq)]
pub struct UpdateLoyaltyBadge {
    pub loyalty_badge: LoyaltyBadge,
    /// The user on whose behalf the update is made.
    pub user: Identity,
}

/// The points that a purchase of `purchase_amount` earns: one for each full
/// million units.
pub open spec fn points_earned(purchase_amount: u64) -> int {
    purchase_amount as int / UNITS_PER_POINT as int
}

/// Why the badge cannot take in a purchase of `purchase_amount` that saved
/// `savings_amount`, if it cannot: the first of the conditions below that is
/// violated.
pub open spec fn update_loyalty_badge_rejection(
    ctx: UpdateLoyaltyBadge,
    purchase_amount: u64,
    savings_amount: u64,
) -> Option<ErrorCode> {
    if ctx.loyalty_badge.user != ctx.user {
        Some(ErrorCode::Unauthorized)
    } else if purchase_amount > MAX_PRICE || savings_amount > MAX_PRICE {
        Some(ErrorCode::InvalidAmount)
    } else if ctx.loyalty_badge.deals_purchased == u32::MAX {
        Some(ErrorCode::ArithmeticOverflow)
    } else if ctx.loyalty_badge.total_saved + savings_amount > u64::MAX {
        Some(ErrorCode::ArithmeticOverflow)
    } else if ctx.loyalty_badge.points + points_earned(purchase_amount) > u32::MAX {
        Some(ErrorCode::ArithmeticOverflow)
    } else {
        None
    }
}

/// The badge after it took in a purchase of `purchase_amount` that saved
/// `savings_amount`.
pub open spec fn rewarded(badge: LoyaltyBadge, purchase_amount: u64, savings_amount: u64)
    -> LoyaltyBadge {
    let points = (badge.points + points_earned(purchase_amount)) as u32;
    LoyaltyBadge {
        user: badge.user,
        tier: tier_of(points),
        deals_purchased: (badge.deals_purchased + 1) as u32,
        total_saved: (badge.total_saved + savings_amount) as u64,
        points,
    }
}

/// Takes a verified purchase into the badge: one more deal, the savings added
/// to the total saved, one point for each full million units spent, and the
/// tier that the new points amount to. On failure nothing has changed.
pub fn update_loyalty_badge(
    ctx: &mut UpdateLoyaltyBadge,
    purchase_amount: u64,
    savings_amount: u64,
) -> (r: Result<LoyaltyBadgeUpdated, ErrorCode>)
    ensures
        match r {
            Ok(event) => {
                &&& update_loyalty_badge_rejection(*old(ctx), purchase_amount, savings_amount)
                    is None
                &&& *final(ctx) == (UpdateLoyaltyBadge {
                    loyalty_badge: rewarded(
                        old(ctx).loyalty_badge,
                        purchase_amount,
                        savings_amount,
                    ),
                    user: old(ctx).user,
                })
                &&& event == (LoyaltyBadgeUpdated {
                    user: old(ctx).loyalty_badge.user,
                    tier: final(ctx).loyalty_badge.tier,
                    points: final(ctx).loyalty_badge.points,
                })
            },
            Err(e) => {
                &&& update_loyalty_badge_rejection(*old(ctx), purchase_amount, savings_amount)
                    == Some(e)
                &&& *final(ctx) == *old(ctx)
            },
        },
{
    if !ctx.loyalty_badge.user.same(&ctx.user) {
        return Err(ErrorCode::Unauthorized);
    }
    if purchase_amount > MAX_PRICE {
        return Err(ErrorCode::InvalidAmount);
    }
    if savings_amount > MAX_PRICE {
        return Err(ErrorCode::InvalidAmount);
    }
    let deals: u32 = match ctx.loyalty_badge.deals_purchased.checked_add(1) {
        Some(n) => n,
        None => {
            return Err(ErrorCode::ArithmeticOverflow);
        },
    };
    let saved: u64 = match ctx.loyalty_badge.total_saved.checked_add(savings_amount) {
        Some(n) => n,
        None => {
            return Err(ErrorCode::ArithmeticOverflow);
        },
    };
    let earned: u32 = (purchase_amount / UNITS_PER_POINT) as u32;
    let points: u32 = match ctx.loyalty_badge.points.checked_add(earned) {
        Some(n) => n,
        None => {
            return Err(ErrorCode::ArithmeticOverflow);
        },
    };
    let tier = LoyaltyTier::for_points(points);
    ctx.loyalty_badge.deals_purchased = deals;
    ctx.loyalty_badge.total_saved = saved;
    ctx.loyalty_badge.points = points;
    ctx.loyalty_badge.tier = tier;
    Ok(LoyaltyBadgeUpdated { user: ctx.loyalty_badge.user, tier, points })
}

/// No counter wraps in a loyalty update. One that is accepted adds exactly
/// one deal, exactly the savings and exactly the points earned; one that
/// nothing stands against but the range of a counter is refused with
/// `ArithmeticOverflow`.
pub proof fn lemma_loyalty_never_wraps(
    ctx: UpdateLoyaltyBadge,
    purchase_amount: u64,
    savings_amount: u64,
)
    ensures
        update_loyalty_badge_rejection(ctx, purchase_amount, savings_amount) is None ==> {
            let badge = rewarded(ctx.loyalty_badge, purchase_amount, savings_amount);
            &&& badge.deals_purchased == ctx.loyalty_badge.deals_purchased + 1
            &&& badge.total_saved == ctx.loyalty_badge.total_saved + savings_amount
            &&& badge.points == ctx.loyalty_badge.points + points_earned(purchase_amount)
        },
        (ctx.loyalty_badge.deals_purchased == u32::MAX || ctx.loyalty_badge.total_saved
            + savings_amount > u64::MAX || ctx.loyalty_badge.points + points_earned(
            purchase_amount,
        ) > u32::MAX) && update_loyalty_badge_rejection(
            UpdateLoyaltyBadge {
                loyalty_badge: LoyaltyBadge {
                    deals_purchased: 0,
                    total_saved: 0,
                    points: 0,
                    ..ctx.loyalty_badge
                },
                ..ctx
            },
            purchase_amount,
            savings_amount,
        ) is None ==> update_loyalty_badge_rejection(ctx, purchase_amount, savings_amount)
            == Some(ErrorCode::ArithmeticOverflow),
{
}

} // verus!
