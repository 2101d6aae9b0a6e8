//! The notifications that successful operations hand back for the host to
//! publish, and the requests they make of the asset services.

use vstd::prelude::*;
use crate::identity::Identity;
use crate::records::{CouponCategory, LoyaltyTier};

verus! {

/// A merchant was registered.
#[derive(Clone, Copy, Debug, PartialEq, Eq)]
pub struct MerchantInitialized {
    pub merchant: Identity,
    pub authority: Identity,
    pub timestamp: i64,
}

/// A coupon was created.
#[derive(Clone, Copy, Debug, PartialEq, Eq)]
pub struct CouponCreated {
    pub coupon: Identity,
    pub mint: Identity,
    pub merchant: Identity,
    pub discount_percent: u8,
    pub price: u64,
    pub max_redemptions: u32,
    pub category: CouponCategory,
    pub timestamp: i64,
}

/// One unit of a coupon was sold.
#[derive(Clone, Copy, Debug, PartialEq, Eq)]
pub struct CouponPurchased {
    pub coupon: Identity,
    pub buyer: Identity,
    pub price: u64,
    pub timestamp: i64,
}

/// One unit of a coupon was redeemed.
#[derive(Clone, Copy, Debug, PartialEq, Eq)]
pub struct CouponRedeemed {
    pub coupon: Identity,
    pub user: Identity,
    pub merchant: Identity,
    pub timestamp: i64,
}

/// A review was accepted.
#[derive(Clone, Copy, Debug, PartialEq, Eq)]
pub struct ReviewSubmitted {
    pub coupon: Identity,
    pub user: Identity,
    pub rating: u8,
    pub timestamp: i64,
}

/// A coupon was switched on or off.
#[derive(Clone, Copy, Debug, PartialEq, Eq)]
pub struct CouponStatusUpdated {
    pub coupon: Identity,
    pub is_active: bool,
    pub timestamp: i64,
}

/// A merchant's pause flag was flipped.
#[derive(Clone, Copy, Debug, PartialEq, Eq)]
pub struct MerchantPauseToggled {
    pub merchant: Identity,
    pub is_paused: bool,
    pub timestamp: i64,
}

/// A loyalty badge was created.
#[derive(Clone, Copy, Debug, PartialEq, Eq)]
pub struct LoyaltyBadgeCreated {
    pub user: Identity,
    pub timestamp: i64,
}

/// A loyalty badge took in a purchase.
#[derive(Clone, Copy, Debug, PartialEq, Eq)]
pub struct LoyaltyBadgeUpdated {
    pub user: Identity,
    pub tier: LoyaltyTier,
    pub points: u32,
}

/// An expired coupon's record was closed.
#[derive(Clone, Copy, Debug, PartialEq, Eq)]
pub struct CouponClosed {
    pub coupon: Identity,
    /// The authority that whatever the record held in reserve goes back to.
    pub refund_to: Identity,
    pub timestamp: i64,
}

/// A request to the asset-transfer service: move `amount` units of the
/// payment asset from `from` to `to`.
#[derive(Clone, Copy, Debug, PartialEq, Eq)]
pub struct TransferRequest {
    pub from: Identity,
    pub to: Identity,
    pub amount: u64,
}

/// A request to the asset-burn service: destroy `amount` units of `mint`
/// held by `holder`.
#[derive(Clone, Copy, Debug, PartialEq, Eq)]
pub struct BurnRequest {
    pub holder: Identity,
    pub mint: Identity,
    pub amount: u64,
}

/// What a successful purchase leaves for the host to do, in this order: carry
/// out `transfer`, then publish `event`.
#[derive(Clone, Copy, Debug, PartialEq, Eq)]
pub struct PurchaseReceipt {
    pub transfer: TransferRequest,
    pub event: CouponPurchased,
}

/// What a successful redemption leaves for the host to do, in this order:
/// carry out `burn`, if there is one, then publish `event`.
#[derive(Clone, Copy, Debug, PartialEq, Eq)]
pub struct RedemptionReceipt {
    pub burn: Option<BurnRequest>,
    pub event: CouponRedeemed,
}

} // verus!
