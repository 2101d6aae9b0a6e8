//! Redeeming a coupon, once for each user.

use vstd::prelude::*;
use crate::error::ErrorCode;
use crate::events::{BurnRequest, CouponRedeemed, RedemptionReceipt};
use crate::identity::Identity;
use crate::records::{Coupon, Merchant, RedemptionRecord, TokenAccount};

verus! {

/// Whether a redeemed unit is destroyed.
#[derive(Clone, Copy, Debug, PartialEq, Eq, Structural)]
pub enum BurnPolicy {
    /// The redeemed unit is destroyed, so that it can be neither redeemed
    /// again nor passed on.
    Burn,
    /// The redeemed unit stays with its holder; only the redemption record
    /// stands against a second redemption.
    Keep,
}

/// What a redemption works on.
#[derive(Debug, PartialEq, Eq)]
pub struct RedeemCoupon {
    pub coupon: Coupon,
    /// The merchant that honours the coupon.
    pub merchant: Merchant,
    pub user: Identity,
    /// The holding that the user shows as proof of ownership.
    pub user_nft_account: TokenAccount,
    /// The place of the record for this coupon and this user: vacant until
    /// the user redeems the coupon.
    pub redemption_record: Option<RedemptionRecord>,
}

/// The holding shows that `user` owns exactly one unit of `coupon`'s asset.
pub open spec fn proves_ownership(holding: TokenAccount, coupon: Coupon, user: Identity) -> bool {
    holding.amount == 1 && holding.mint == coupon.mint && holding.owner == user
}

/// Why the coupon cannot be redeemed at time `now`, if it cannot: the first of
/// the conditions below that is violated.
pub open spec fn redeem_rejection(ctx: RedeemCoupon, now: i64) -> Option<ErrorCode> {
    if ctx.redemption_record is Some {
        Some(ErrorCode::DuplicateRedemption)
    } else if !ctx.coupon.is_active {
        Some(ErrorCode::CouponInactive)
    } else if ctx.merchant.is_paused {
        Some(ErrorCode::MerchantPaused)
    } else if now >= ctx.coupon.expiry_timestamp {
        Some(ErrorCode::CouponExpired)
    } else if ctx.coupon.current_redemptions >= ctx.coupon.max_redemptions {
        Some(ErrorCode::AllRedemptionsUsed)
    } else if ctx.user_nft_account.amount != 1 {
        Some(ErrorCode::InvalidNFTAmount)
    } else if ctx.user_nft_account.mint != ctx.coupon.mint {
        Some(ErrorCode::WrongNFT)
    } else if ctx.user_nft_account.owner != ctx.user {
        Some(ErrorCode::UserDoesNotOwnNFT)
    } else if ctx.merchant.total_redemptions == u32::MAX {
        Some(ErrorCode::ArithmeticOverflow)
    } else {
        None
    }
}

/// The coupon after one more unit of it was redeemed.
pub open spec fn redeemed_one(coupon: Coupon) -> Coupon {
    Coupon { current_redemptions: (coupon.current_redemptions + 1) as u32, ..coupon }
}

/// The merchant after it honoured one more redemption.
pub open spec fn honoured_one(merchant: Merchant) -> Merchant {
    Merchant { total_redemptions: (merchant.total_redemptions + 1) as u32, ..merchant }
}

/// What a redemption of `coupon` by `user` at time `now` leaves for the host
/// to do under `policy`.
pub open spec fn redemption_receipt(
    coupon: Coupon,
    merchant: Merchant,
    user: Identity,
    policy: BurnPolicy,
    now: i64,
) -> RedemptionReceipt {
    RedemptionReceipt {
        burn: match policy {
            BurnPolicy::Burn => Some(BurnRequest { holder: user, mint: coupon.mint, amount: 1 }),
            BurnPolicy::Keep => None,
        },
        event: CouponRedeemed {
            coupon: coupon.mint,
            user,
            merchant: merchant.authority,
            timestamp: now,
        },
    }
}

/// Redeems `ctx.coupon` for `ctx.user` at time `now`.
///
/// A user who has a redemption record for the coupon is always refused with
/// `DuplicateRedemption`, whatever else holds. Otherwise every condition is
/// checked before anything changes. On success the coupon and the merchant
/// each count one more redemption, the record stands in
/// `ctx.redemption_record`, and the receipt names the burn that the host must
/// now carry out, if `policy` asks for one, and the notification to publish.
/// On failure nothing has changed.
pub fn redeem_coupon(ctx: &mut RedeemCoupon, policy: BurnPolicy, now: i64) -> (r: Result<
    RedemptionReceipt,
    ErrorCode,
>)
    ensures
        match r {
            Ok(receipt) => {
                &&& redeem_rejection(*old(ctx), now) is None
                &&& *final(ctx) == (RedeemCoupon {
                    coupon: redeemed_one(old(ctx).coupon),
                    merchant: honoured_one(old(ctx).merchant),
                    redemption_record: Some(
                        RedemptionRecord {
                            coupon: old(ctx).coupon.mint,
                            user: old(ctx).user,
                            timestamp: now,
                        },
                    ),
                    ..*old(ctx)
                })
                &&& receipt == redemption_receipt(
                    old(ctx).coupon,
                    old(ctx).merchant,
                    old(ctx).user,
                    policy,
                    now,
                )
            },
            Err(e) => {
                &&& redeem_rejection(*old(ctx), now) == Some(e)
                &&& *final(ctx) == *old(ctx)
            },
        },
        old(ctx).coupon.within_limits() ==> final(ctx).coupon.within_limits(),
{
    if ctx.redemption_record.is_some() {
        return Err(ErrorCode::DuplicateRedemption);
    }
    if !ctx.coupon.is_active {
        return Err(ErrorCode::CouponInactive);
    }
    if ctx.merchant.is_paused {
        return Err(ErrorCode::MerchantPaused);
    }
    if now >= ctx.coupon.expiry_timestamp {
        return Err(ErrorCode::CouponExpired);
    }
    if ctx.coupon.current_redemptions >= ctx.coupon.max_redemptions {
        return Err(ErrorCode::AllRedemptionsUsed);
    }
    if ctx.user_nft_account.amount != 1 {
        return Err(ErrorCode::InvalidNFTAmount);
    }
    if !ctx.user_nft_account.mint.same(&ctx.coupon.mint) {
        return Err(ErrorCode::WrongNFT);
    }
    if !ctx.user_nft_account.owner.same(&ctx.user) {
        return Err(ErrorCode::UserDoesNotOwnNFT);
    }
    let coupon_count: u32 = match ctx.coupon.current_redemptions.checked_add(1) {
        Some(n) => n,
        None => {
            return Err(ErrorCode::ArithmeticOverflow);
        },
    };
    let merchant_count: u32 = match ctx.merchant.total_redemptions.checked_add(1) {
        Some(n) => n,
        None => {
            return Err(ErrorCode::ArithmeticOverflow);
        },
    };
    ctx.coupon.current_redemptions = coupon_count;
    ctx.merchant.total_redemptions = merchant_count;
    ctx.redemption_record = Some(
        RedemptionRecord { coupon: ctx.coupon.mint, user: ctx.user, timestamp: now },
    );
    let burn = match policy {
        BurnPolicy::Burn => Some(
            BurnRequest { holder: ctx.user, mint: ctx.coupon.mint, amount: 1 },
        ),
        BurnPolicy::Keep => None,
    };
    Ok(
        RedemptionReceipt {
            burn,
            event: CouponRedeemed {
                coupon: ctx.coupon.mint,
                user: ctx.user,
                merchant: ctx.merchant.authority,
                timestamp: now,
            },
        },
    )
}

/// No counter wraps in a redemption. One that is granted adds exactly one to
/// the coupon's redemptions and to the merchant's; one that nothing stands
/// against but the range of the merchant's counter is refused with
/// `ArithmeticOverflow`.
pub proof fn lemma_redemption_never_wraps(ctx: RedeemCoupon, now: i64)
    ensures
        redeem_rejection(ctx, now) is None ==> {
            &&& redeemed_one(ctx.coupon).current_redemptions == ctx.coupon.current_redemptions
                + 1
            &&& honoured_one(ctx.merchant).total_redemptions == ctx.merchant.total_redemptions
                + 1
        },
        ctx.merchant.total_redemptions == u32::MAX && redeem_rejection(
            RedeemCoupon { merchant: Merchant { total_redemptions: 0, ..ctx.merchant }, ..ctx },
            now,
        ) is None ==> redeem_rejection(ctx, now) == Some(ErrorCode::ArithmeticOverflow),
        ctx.coupon.current_redemptions == u32::MAX ==> redeem_rejection(ctx, now) is Some,
{
}

} // verus!
