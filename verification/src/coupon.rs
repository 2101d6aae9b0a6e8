//! Creating coupons, switching them on and off, and closing them after expiry.

use vstd::prelude::*;
use vstd::string::StrSliceExecFns;
use crate::error::ErrorCode;
use crate::events::{CouponClosed, CouponCreated, CouponStatusUpdated};
use crate::identity::Identity;
use crate::limits::{
    GRACE_PERIOD, MAX_EXPIRY_DURATION, MAX_PRICE, MAX_REDEMPTIONS_PER_COUPON, MAX_URI_LEN,
    MIN_EXPIRY_DURATION, MIN_PRICE,
};
use crate::records::{Coupon, CouponCategory, Merchant, Mint};
use crate::validation::{has_approved_scheme, is_valid_uri};

verus! {

/// What creating a coupon works on.
#[derive(Debug, PartialEq, Eq)]
pub struct CreateCoupon {
    /// The place of the coupon for `mint`: vacant until the coupon is created.
    pub coupon: Option<Coupon>,
    /// The merchant that is to issue the coupon.
    pub merchant: Merchant,
    /// The asset type that the coupon is tied to.
    pub mint: Mint,
    /// The caller.
    pub authority: Identity,
}

/// Why a coupon with these terms cannot be created at time `now`, if it
/// cannot: the first of the conditions below that is violated.
pub open spec fn create_coupon_rejection(
    ctx: CreateCoupon,
    discount_percent: u8,
    price: u64,
    expiry_timestamp: i64,
    max_redemptions: u32,
    metadata_uri: Seq<char>,
    now: i64,
) -> Option<ErrorCode> {
    if ctx.coupon is Some {
        Some(ErrorCode::CouponAlreadyExists)
    } else if ctx.merchant.authority != ctx.authority {
        Some(ErrorCode::Unauthorized)
    } else if ctx.mint.freeze_authority is Some {
        Some(ErrorCode::MintMustNotHaveFreezeAuthority)
    } else if ctx.merchant.is_paused {
        Some(ErrorCode::MerchantPaused)
    } else if discount_percent > 100 {
        Some(ErrorCode::InvalidDiscount)
    } else if price < MIN_PRICE || price > MAX_PRICE {
        Some(ErrorCode::InvalidPrice)
    } else if expiry_timestamp <= now + MIN_EXPIRY_DURATION {
        Some(ErrorCode::ExpiryTooSoon)
    } else if expiry_timestamp >= now + MAX_EXPIRY_DURATION {
        Some(ErrorCode::ExpiryTooFar)
    } else if max_redemptions == 0 || max_redemptions > MAX_REDEMPTIONS_PER_COUPON {
        Some(ErrorCode::InvalidQuantity)
    } else if metadata_uri.len() == 0 {
        Some(ErrorCode::UriEmpty)
    } else if metadata_uri.len() > MAX_URI_LEN {
        Some(ErrorCode::UriTooLong)
    } else if !has_approved_scheme(metadata_uri) {
        Some(ErrorCode::InvalidUri)
    } else if ctx.merchant.total_coupons_created == u32::MAX {
        Some(ErrorCode::ArithmeticOverflow)
    } else {
        None
    }
}

/// The record of a coupon that has just been created.
pub open spec fn issued(
    mint: Identity,
    merchant: Identity,
    discount_percent: u8,
    discount_fixed: u64,
    price: u64,
    expiry_timestamp: i64,
    max_redemptions: u32,
    category: CouponCategory,
    is_transferable: bool,
    metadata_uri: String,
    now: i64,
) -> Coupon {
    Coupon {
        mint,
        merchant,
        discount_percent,
        discount_fixed,
        price,
        expiry_timestamp,
        max_redemptions,
        current_redemptions: 0,
        category,
        is_transferable,
        is_active: true,
        metadata_uri,
        created_at: now,
        total_purchases: 0,
    }
}

/// The merchant after it issued one more coupon.
pub open spec fn issued_one(merchant: Merchant) -> Merchant {
    Merchant { total_coupons_created: (merchant.total_coupons_created + 1) as u32, ..merchant }
}

/// The coupon with its activity flag set to `is_active`.
pub open spec fn switched(coupon: Coupon, is_active: bool) -> Coupon {
    Coupon { is_active, ..coupon }
}

/// Creates a coupon with the given terms for `ctx.mint`, issued by
/// `ctx.merchant` at time `now`.
///
/// On success the coupon stands in `ctx.coupon`, active and with both
/// counters at zero, the merchant has one more coupon to its name, and the
/// notification to publish is returned. On failure nothing has changed.
pub fn create_coupon(
    ctx: &mut CreateCoupon,
    discount_percent: u8,
    discount_fixed: u64,
    price: u64,
    expiry_timestamp: i64,
    max_redemptions: u32,
    category: CouponCategory,
    is_transferable: bool,
    metadata_uri: String,
    now: i64,
) -> (r: Result<CouponCreated, ErrorCode>)
    ensures
        match r {
            Ok(event) => {
                &&& create_coupon_rejection(
                    *old(ctx),
                    discount_percent,
                    price,
                    expiry_timestamp,
                    max_redemptions,
                    metadata_uri@,
                    now,
                ) is None
                &&& final(ctx).coupon == Some(
                    issued(
                        old(ctx).mint.key,
                        old(ctx).merchant.authority,
                        discount_percent,
                        discount_fixed,
                        price,
                        expiry_timestamp,
                        max_redemptions,
                        category,
                        is_transferable,
                        metadata_uri,
                        now,
                    ),
                )
                &&& final(ctx).merchant == issued_one(old(ctx).merchant)
                &&& final(ctx).mint == old(ctx).mint
                &&& final(ctx).authority == old(ctx).authority
                &&& event == (CouponCreated {
                    coupon: old(ctx).mint.key,
                    mint: old(ctx).mint.key,
                    merchant: old(ctx).merchant.authority,
                    discount_percent,
                    price,
                    max_redemptions,
                    category,
                    timestamp: now,
                })
            },
            Err(e) => {
                &&& create_coupon_rejection(
                    *old(ctx),
                    discount_percent,
                    price,
                    expiry_timestamp,
                    max_redemptions,
                    metadata_uri@,
                    now,
                ) == Some(e)
                &&& *final(ctx) == *old(ctx)
            },
        },
{
    if ctx.coupon.is_some() {
        return Err(ErrorCode::CouponAlreadyExists);
    }
    if !ctx.merchant.authority.same(&ctx.authority) {
        return Err(ErrorCode::Unauthorized);
    }
    if ctx.mint.freeze_authority.is_some() {
        return Err(ErrorCode::MintMustNotHaveFreezeAuthority);
    }
    if ctx.merchant.is_paused {
        return Err(ErrorCode::MerchantPaused);
    }
    if discount_percent > 100 {
        return Err(ErrorCode::InvalidDiscount);
    }
    if price < MIN_PRICE || price > MAX_PRICE {
        return Err(ErrorCode::InvalidPrice);
    }
    if expiry_timestamp as i128 <= now as i128 + MIN_EXPIRY_DURATION as i128 {
        return Err(ErrorCode::ExpiryTooSoon);
    }
    if expiry_timestamp as i128 >= now as i128 + MAX_EXPIRY_DURATION as i128 {
        return Err(ErrorCode::ExpiryTooFar);
    }
    if max_redemptions == 0 || max_redemptions > MAX_REDEMPTIONS_PER_COUPON {
        return Err(ErrorCode::InvalidQuantity);
    }
    let uri_len: usize = metadata_uri.as_str().unicode_len();
    if uri_len == 0 {
        return Err(ErrorCode::UriEmpty);
    }
    if uri_len > MAX_URI_LEN {
        return Err(ErrorCode::UriTooLong);
    }
    if !is_valid_uri(metadata_uri.as_str()) {
        return Err(ErrorCode::InvalidUri);
    }
    let created: u32 = match ctx.merchant.total_coupons_created.checked_add(1) {
        Some(n) => n,
        None => {
            return Err(ErrorCode::ArithmeticOverflow);
        },
    };
    ctx.coupon = Some(
        Coupon {
            mint: ctx.mint.key,
            merchant: ctx.merchant.authority,
            discount_percent,
            discount_fixed,
            price,
            expiry_timestamp,
            max_redemptions,
            current_redemptions: 0,
            category,
            is_transferable,
            is_active: true,
            metadata_uri,
            created_at: now,
            total_purchases: 0,
        },
    );
    ctx.merchant.total_coupons_created = created;
    Ok(
        CouponCreated {
            coupon: ctx.mint.key,
            mint: ctx.mint.key,
            merchant: ctx.merchant.authority,
            discount_percent,
            price,
            max_redemptions,
            category,
            timestamp: now,
        },
    )
}

/// What switching a coupon on or off works on.
#[derive(Debug, PartialEq, Eq)]
pub struct UpdateCouponStatus {
    pub coupon: Coupon,
    /// The merchant that the caller claims the coupon belongs to.
    pub merchant: Merchant,
    /// The caller.
    pub authority: Identity,
}

/// `caller` may manage `coupon` through `merchant`: the coupon belongs to the
/// merchant and the caller is the merchant's authority.
pub open spec fn manages(caller: Identity, merchant: Merchant, coupon: Coupon) -> bool {
    coupon.merchant == merchant.authority && merchant.authority == caller
}

/// Sets the coupon's activity flag to `is_active`, for the authority of the
/// merchant that owns it and for nobody else. Nothing else changes.
pub fn update_coupon_status(ctx: &mut UpdateCouponStatus, is_active: bool, now: i64) -> (r: Result<
    CouponStatusUpdated,
    ErrorCode,
>)
    ensures
        match r {
            Ok(event) => {
                &&& manages(old(ctx).authority, old(ctx).merchant, old(ctx).coupon)
                &&& *final(ctx) == (UpdateCouponStatus {
                    coupon: switched(old(ctx).coupon, is_active),
                    ..*old(ctx)
                })
                &&& event == (CouponStatusUpdated {
                    coupon: old(ctx).coupon.mint,
                    is_active,
                    timestamp: now,
                })
            },
            Err(e) => {
                &&& !manages(old(ctx).authority, old(ctx).merchant, old(ctx).coupon)
                &&& e == ErrorCode::Unauthorized
                &&& *final(ctx) == *old(ctx)
            },
        },
{
    if !ctx.coupon.merchant.same(&ctx.merchant.authority) {
        return Err(ErrorCode::Unauthorized);
    }
    if !ctx.merchant.authority.same(&ctx.authority) {
        return Err(ErrorCode::Unauthorized);
    }
    ctx.coupon.is_active = is_active;
    Ok(CouponStatusUpdated { coupon: ctx.coupon.mint, is_active, timestamp: now })
}

/// What closing an expired coupon works on.
#[derive(Debug, PartialEq, Eq)]
pub struct CloseExpiredCoupon {
    /// The place of the coupon: vacant once the coupon is closed.
    pub coupon: Option<Coupon>,
    /// The merchant that the caller claims the coupon belongs to.
    pub merchant: Merchant,
    /// The caller.
    pub merchant_authority: Identity,
}

/// A coupon may be closed only after its expiry and the grace period.
pub open spec fn may_close(coupon: Coupon, now: i64) -> bool {
    now > coupon.expiry_timestamp + GRACE_PERIOD
}

/// Why the coupon cannot be closed at time `now`, if it cannot.
pub open spec fn close_expired_coupon_rejection(ctx: CloseExpiredCoupon, now: i64) -> Option<
    ErrorCode,
> {
    if ctx.coupon is None {
        Some(ErrorCode::CouponNotFound)
    } else if !manages(ctx.merchant_authority, ctx.merchant, ctx.coupon->0) {
        Some(ErrorCode::Unauthorized)
    } else if !may_close(ctx.coupon->0, now) {
        Some(ErrorCode::CouponNotExpiredYet)
    } else {
        None
    }
}

/// Destroys the record of a coupon whose expiry lies more than the grace
/// period in the past, for the authority of the merchant that owns it. What
/// the record held in reserve is to go back to that authority.
pub fn close_expired_coupon(ctx: &mut CloseExpiredCoupon, now: i64) -> (r: Result<
    CouponClosed,
    ErrorCode,
>)
    ensures
        match r {
            Ok(event) => {
                &&& close_expired_coupon_rejection(*old(ctx), now) is None
                &&& *final(ctx) == (CloseExpiredCoupon { coupon: None, ..*old(ctx) })
                &&& event == (CouponClosed {
                    coupon: old(ctx).coupon->0.mint,
                    refund_to: old(ctx).merchant.authority,
                    timestamp: now,
                })
            },
            Err(e) => {
                &&& close_expired_coupon_rejection(*old(ctx), now) == Some(e)
                &&& *final(ctx) == *old(ctx)
            },
        },
{
    let (mint, expiry_timestamp) = match &ctx.coupon {
        None => {
            return Err(ErrorCode::CouponNotFound);
        },
        Some(coupon) => {
            if !coupon.merchant.same(&ctx.merchant.authority) {
                return Err(ErrorCode::Unauthorized);
            }
            (coupon.mint, coupon.expiry_timestamp)
        },
    };
    if !ctx.merchant.authority.same(&ctx.merchant_authority) {
        return Err(ErrorCode::Unauthorized);
    }
    if now as i128 <= expiry_timestamp as i128 + GRACE_PERIOD as i128 {
        return Err(ErrorCode::CouponNotExpiredYet);
    }
    ctx.coupon = None;
    Ok(CouponClosed { coupon: mint, refund_to: ctx.merchant.authority, timestamp: now })
}

/// The counter of coupons created never wraps. A creation that is granted
/// adds exactly one to it; one that nothing stands against but the counter's
/// range is refused with `ArithmeticOverflow`.
pub proof fn lemma_creation_never_wraps(
    ctx: CreateCoupon,
    discount_percent: u8,
    price: u64,
    expiry_timestamp: i64,
    max_redemptions: u32,
    metadata_uri: Seq<char>,
    now: i64,
)
    ensures
        create_coupon_rejection(
            ctx,
            discount_percent,
            price,
            expiry_timestamp,
            max_redemptions,
            metadata_uri,
            now,
        ) is None ==> issued_one(ctx.merchant).total_coupons_created
            == ctx.merchant.total_coupons_created + 1,
        ctx.merchant.total_coupons_created == u32::MAX && create_coupon_rejection(
            CreateCoupon { merchant: Merchant { total_coupons_created: 0, ..ctx.merchant }, ..ctx },
            discount_percent,
            price,
            expiry_timestamp,
            max_redemptions,
            metadata_uri,
            now,
        ) is None ==> create_coupon_rejection(
            ctx,
            discount_percent,
            price,
            expiry_timestamp,
            max_redemptions,
            metadata_uri,
            now,
        ) == Some(ErrorCode::ArithmeticOverflow),
{
}

/// A coupon that was just created satisfies every bound on its terms.
pub proof fn lemma_created_coupon_is_within_bounds(
    ctx: CreateCoupon,
    discount_percent: u8,
    discount_fixed: u64,
    price: u64,
    expiry_timestamp: i64,
    max_redemptions: u32,
    category: CouponCategory,
    is_transferable: bool,
    metadata_uri: String,
    now: i64,
)
    requires
        create_coupon_rejection(
            ctx,
            discount_percent,
            price,
            expiry_timestamp,
            max_redemptions,
            metadata_uri@,
            now,
        ) is None,
    ensures
        ({
            let coupon = issued(
                ctx.mint.key,
                ctx.merchant.authority,
                discount_percent,
                discount_fixed,
                price,
                expiry_timestamp,
                max_redemptions,
                category,
                is_transferable,
                metadata_uri,
                now,
            );
            &&& coupon.within_limits()
            &&& coupon.discount_percent <= 100
            &&& MIN_PRICE <= coupon.price <= MAX_PRICE
            &&& now + MIN_EXPIRY_DURATION < coupon.expiry_timestamp < now + MAX_EXPIRY_DURATION
            &&& 1 <= coupon.max_redemptions <= MAX_REDEMPTIONS_PER_COUPON
            &&& 1 <= coupon.metadata_uri@.len() <= MAX_URI_LEN
            &&& has_approved_scheme(coupon.metadata_uri@)
        }),
{
}

/// For the authority of the merchant that owns the coupon, closing is refused
/// as too early up to and including the last second of the grace period, and
/// granted from the next second on.
pub proof fn lemma_close_waits_for_grace_period(ctx: CloseExpiredCoupon, now: i64)
    requires
        ctx.coupon is Some,
        manages(ctx.merchant_authority, ctx.merchant, ctx.coupon->0),
    ensures
        now <= ctx.coupon->0.expiry_timestamp + GRACE_PERIOD ==> close_expired_coupon_rejection(
            ctx,
            now,
        ) == Some(ErrorCode::CouponNotExpiredYet),
        now > ctx.coupon->0.expiry_timestamp + GRACE_PERIOD ==> close_expired_coupon_rejection(
            ctx,
            now,
        ) is None,
{
}

} // verus!
