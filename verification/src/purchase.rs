//! Selling one unit of a coupon.

use vstd::prelude::*;
use crate::error::ErrorCode;
use crate::events::{CouponPurchased, PurchaseReceipt, TransferRequest};
use crate::identity::Identity;
use crate::records::{Coupon, Merchant, TokenAccount};

verus! {

/// What a purchase works on.
#[derive(Debug, PartialEq, Eq)]
pub struct PurchaseCoupon {
    pub coupon: Coupon,
    /// The merchant that is paid.
    pub merchant: Merchant,
    pub buyer: Identity,
    /// The buyer's holding of the payment asset.
    pub buyer_token_account: TokenAccount,
}

/// Why one unit of `coupon` cannot be sold at time `now` to a buyer who holds
/// `balance`, if it cannot: the first of the conditions below that is
/// violated.
pub open spec fn purchase_rejection(coupon: Coupon, merchant: Merchant, balance: u64, now: i64)
    -> Option<ErrorCode> {
    if !coupon.is_active {
        Some(ErrorCode::CouponInactive)
    } else if merchant.is_paused {
        Some(ErrorCode::MerchantPaused)
    } else if now >= coupon.expiry_timestamp {
        Some(ErrorCode::CouponExpired)
    } else if coupon.total_purchases >= coupon.max_redemptions {
        Some(ErrorCode::SoldOut)
    } else if balance < coupon.price {
        Some(ErrorCode::InsufficientFunds)
    } else if merchant.total_revenue + coupon.price > u64::MAX {
        Some(ErrorCode::ArithmeticOverflow)
    } else {
        None
    }
}

/// The coupon after one more unit of it was sold.
pub open spec fn sold_one(coupon: Coupon) -> Coupon {
    Coupon { total_purchases: (coupon.total_purchases + 1) as u32, ..coupon }
}

/// The merchant after it earned `price`.
pub open spec fn credited(merchant: Merchant, price: u64) -> Merchant {
    Merchant { total_revenue: (merchant.total_revenue + price) as u64, ..merchant }
}

/// What a purchase of `coupon` from `merchant` by `buyer` at time `now`
/// leaves for the host to do.
pub open spec fn purchase_receipt(coupon: Coupon, merchant: Merchant, buyer: Identity, now: i64)
    -> PurchaseReceipt {
    PurchaseReceipt {
        transfer: TransferRequest { from: buyer, to: merchant.authority, amount: coupon.price },
        event: CouponPurchased { coupon: coupon.mint, buyer, price: coupon.price, timestamp: now },
    }
}

/// Sells one unit of `ctx.coupon` to `ctx.buyer` at time `now`.
///
/// Every condition is checked before anything changes. On success the coupon
/// counts one more purchase, the merchant's revenue has grown by the price,
/// and the receipt names the transfer that the host must now carry out and
/// the notification to publish after it. On failure nothing has changed.
pub fn purchase_coupon(ctx: &mut PurchaseCoupon, now: i64) -> (r: Result<PurchaseReceipt, ErrorCode>)
    ensures
        match r {
            Ok(receipt) => {
                &&& purchase_rejection(
                    old(ctx).coupon,
                    old(ctx).merchant,
                    old(ctx).buyer_token_account.amount,
                    now,
                ) is None
                &&& *final(ctx) == (PurchaseCoupon {
                    coupon: sold_one(old(ctx).coupon),
                    merchant: credited(old(ctx).merchant, old(ctx).coupon.price),
                    ..*old(ctx)
                })
                &&& receipt == purchase_receipt(
                    old(ctx).coupon,
                    old(ctx).merchant,
                    old(ctx).buyer,
                    now,
                )
            },
            Err(e) => {
                &&& purchase_rejection(
                    old(ctx).coupon,
                    old(ctx).merchant,
                    old(ctx).buyer_token_account.amount,
                    now,
                ) == Some(e)
                &&& *final(ctx) == *old(ctx)
            },
        },
        old(ctx).coupon.within_limits() ==> final(ctx).coupon.within_limits(),
{
    if !ctx.coupon.is_active {
        return Err(ErrorCode::CouponInactive);
    }
    if ctx.merchant.is_paused {
        return Err(ErrorCode::MerchantPaused);
    }
    if now >= ctx.coupon.expiry_timestamp {
        return Err(ErrorCode::CouponExpired);
    }
    if ctx.coupon.total_purchases >= ctx.coupon.max_redemptions {
        return Err(ErrorCode::SoldOut);
    }
    if ctx.buyer_token_account.amount < ctx.coupon.price {
        return Err(ErrorCode::InsufficientFunds);
    }
    let price: u64 = ctx.coupon.price;
    let purchases: u32 = match ctx.coupon.total_purchases.checked_add(1) {
        Some(n) => n,
        None => {
            return Err(ErrorCode::ArithmeticOverflow);
        },
    };
    let revenue: u64 = match ctx.merchant.total_revenue.checked_add(price) {
        Some(n) => n,
        None => {
            return Err(ErrorCode::ArithmeticOverflow);
        },
    };
    ctx.coupon.total_purchases = purchases;
    ctx.merchant.total_revenue = revenue;
    Ok(
        PurchaseReceipt {
            transfer: TransferRequest {
                from: ctx.buyer,
                to: ctx.merchant.authority,
                amount: price,
            },
            event: CouponPurchased {
                coupon: ctx.coupon.mint,
                buyer: ctx.buyer,
                price,
                timestamp: now,
            },
        },
    )
}

/// A purchase is refused for the first of its conditions that is violated:
/// a paused merchant is reported whenever the coupon is active; an expired
/// coupon whenever, besides, the merchant is running; a sold-out coupon
/// whenever, besides, the coupon has not expired.
pub proof fn lemma_purchase_reports_first_violation(
    coupon: Coupon,
    merchant: Merchant,
    balance: u64,
    now: i64,
)
    ensures
        purchase_rejection(coupon, merchant, balance, now) == Some(ErrorCode::CouponInactive)
            <==> !coupon.is_active,
        coupon.is_active ==> (purchase_rejection(coupon, merchant, balance, now) == Some(
            ErrorCode::MerchantPaused,
        ) <==> merchant.is_paused),
        coupon.is_active && !merchant.is_paused ==> (purchase_rejection(
            coupon,
            merchant,
            balance,
            now,
        ) == Some(ErrorCode::CouponExpired) <==> now >= coupon.expiry_timestamp),
        coupon.is_active && !merchant.is_paused && now < coupon.expiry_timestamp
            && coupon.within_limits() ==> (purchase_rejection(coupon, merchant, balance, now)
            == Some(ErrorCode::SoldOut) <==> coupon.total_purchases == coupon.max_redemptions),
        coupon.is_active && !merchant.is_paused && now < coupon.expiry_timestamp
            && coupon.total_purchases < coupon.max_redemptions ==> (purchase_rejection(
            coupon,
            merchant,
            balance,
            now,
        ) == Some(ErrorCode::InsufficientFunds) <==> balance < coupon.price),
{
}

/// No counter wraps in a purchase. One that is granted adds exactly one to the
/// coupon's purchases and exactly the price to the merchant's revenue; one
/// that nothing stands against but the revenue's range is refused with
/// `ArithmeticOverflow`.
pub proof fn lemma_purchase_never_wraps(coupon: Coupon, merchant: Merchant, balance: u64, now: i64)
    ensures
        purchase_rejection(coupon, merchant, balance, now) is None ==> {
            &&& sold_one(coupon).total_purchases == coupon.total_purchases + 1
            &&& credited(merchant, coupon.price).total_revenue == merchant.total_revenue
                + coupon.price
        },
        merchant.total_revenue + coupon.price > u64::MAX && purchase_rejection(
            coupon,
            Merchant { total_revenue: 0, ..merchant },
            balance,
            now,
        ) is None ==> purchase_rejection(coupon, merchant, balance, now) == Some(
            ErrorCode::ArithmeticOverflow,
        ),
        coupon.total_purchases == u32::MAX ==> purchase_rejection(coupon, merchant, balance, now)
            is Some,
{
}

} // verus!
