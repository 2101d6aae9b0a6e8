//! The records that the ledger persists.

use vstd::prelude::*;
use crate::identity::Identity;
use crate::table::Keyed;

verus! {

/// What a coupon is for.
#[derive(Clone, Copy, Debug, PartialEq, Eq, Structural)]
pub enum CouponCategory {
    Travel,
    Food,
    Shopping,
    Entertainment,
    Services,
    Health,
    Education,
    Other,
}

/// The band of accumulated points that a loyalty badge stands in.
#[derive(Clone, Copy, Debug, PartialEq, Eq, Structural)]
pub enum LoyaltyTier {
    Bronze,
    Silver,
    Gold,
    Platinum,
}

/// An account that issues coupons. It is referred to by its authority.
#[derive(Debug, PartialEq, Eq)]
pub struct Merchant {
    /// The only identity allowed to manage this merchant.
    pub authority: Identity,
    pub name: String,
    pub description: String,
    pub total_coupons_created: u32,
    pub total_redemptions: u32,
    pub total_revenue: u64,
    pub rating_sum: u64,
    pub rating_count: u32,
    pub is_verified: bool,
    /// While set, none of this merchant's coupons can be created, purchased
    /// or redeemed.
    pub is_paused: bool,
    pub created_at: i64,
}

impl Clone for Merchant {
    fn clone(&self) -> (r: Self)
        ensures
            r == *self,
    {
        Merchant {
            authority: self.authority,
            name: self.name.clone(),
            description: self.description.clone(),
            total_coupons_created: self.total_coupons_created,
            total_redemptions: self.total_redemptions,
            total_revenue: self.total_revenue,
            rating_sum: self.rating_sum,
            rating_count: self.rating_count,
            is_verified: self.is_verified,
            is_paused: self.is_paused,
            created_at: self.created_at,
        }
    }
}

/// A priced, quantity-limited, time-bounded offer tied to one asset type. It
/// is referred to by that asset type, `mint`.
#[derive(Debug, PartialEq, Eq)]
pub struct Coupon {
    /// The asset type whose units stand for this coupon.
    pub mint: Identity,
    /// The authority of the merchant that issued it.
    pub merchant: Identity,
    pub discount_percent: u8,
    pub discount_fixed: u64,
    pub price: u64,
    pub expiry_timestamp: i64,
    pub max_redemptions: u32,
    pub current_redemptions: u32,
    pub category: CouponCategory,
    pub is_transferable: bool,
    pub is_active: bool,
    pub metadata_uri: String,
    pub created_at: i64,
    pub total_purchases: u32,
}

impl Coupon {
    /// Neither counter has passed the number of units offered.
    pub open spec fn within_limits(self) -> bool {
        &&& self.total_purchases <= self.max_redemptions
        &&& self.current_redemptions <= self.max_redemptions
    }
}

impl Clone for Coupon {
    fn clone(&self) -> (r: Self)
        ensures
            r == *self,
    {
        Coupon {
            mint: self.mint,
            merchant: self.merchant,
            discount_percent: self.discount_percent,
            discount_fixed: self.discount_fixed,
            price: self.price,
            expiry_timestamp: self.expiry_timestamp,
            max_redemptions: self.max_redemptions,
            current_redemptions: self.current_redemptions,
            category: self.category,
            is_transferable: self.is_transferable,
            is_active: self.is_active,
            metadata_uri: self.metadata_uri.clone(),
            created_at: self.created_at,
            total_purchases: self.total_purchases,
        }
    }
}

/// The mark that `user` has redeemed `coupon`. At most one exists for each
/// pair, and none is ever changed or removed.
#[derive(Clone, Copy, Debug, PartialEq, Eq)]
pub struct RedemptionRecord {
    pub coupon: Identity,
    pub user: Identity,
    pub timestamp: i64,
}

/// What `user` said of `coupon`. At most one exists for each pair.
#[derive(Debug, PartialEq, Eq)]
pub struct Review {
    pub coupon: Identity,
    pub user: Identity,
    pub rating: u8,
    pub comment: String,
    pub timestamp: i64,
}

impl Clone for Review {
    fn clone(&self) -> (r: Self)
        ensures
            r == *self,
    {
        Review {
            coupon: self.coupon,
            user: self.user,
            rating: self.rating,
            comment: self.comment.clone(),
            timestamp: self.timestamp,
        }
    }
}

/// A user's loyalty standing.
#[derive(Clone, Copy, Debug, PartialEq, Eq)]
pub struct LoyaltyBadge {
    pub user: Identity,
    pub tier: LoyaltyTier,
    pub deals_purchased: u32,
    pub total_saved: u64,
    pub points: u32,
}

/// What the ledger reads of a holding of some asset: which asset, whose, and
/// how many units.
#[derive(Clone, Copy, Debug, PartialEq, Eq)]
pub struct TokenAccount {
    pub mint: Identity,
    pub owner: Identity,
    pub amount: u64,
}

/// What the ledger reads of an asset type: its identity and who, if anyone,
/// may freeze holdings of it.
#[derive(Clone, Copy, Debug, PartialEq, Eq)]
pub struct Mint {
    pub key: Identity,
    pub freeze_authority: Option<Identity>,
}

/// A merchant is stored under its authority.
impl Keyed for Merchant {
    type Key = Identity;

    open spec fn key(&self) -> Identity {
        self.authority
    }

    fn to_key(&self) -> Identity {
        self.authority
    }

    fn has_key(&self, key: &Identity) -> bool {
        self.authority.same(key)
    }
}

/// A coupon is stored under the asset type it is tied to.
impl Keyed for Coupon {
    type Key = Identity;

    open spec fn key(&self) -> Identity {
        self.mint
    }

    fn to_key(&self) -> Identity {
        self.mint
    }

    fn has_key(&self, key: &Identity) -> bool {
        self.mint.same(key)
    }
}

/// A redemption record is stored under the pair of its coupon and its user.
impl Keyed for RedemptionRecord {
    type Key = (Identity, Identity);

    open spec fn key(&self) -> (Identity, Identity) {
        (self.coupon, self.user)
    }

    fn to_key(&self) -> (Identity, Identity) {
        (self.coupon, self.user)
    }

    fn has_key(&self, key: &(Identity, Identity)) -> bool {
        self.coupon.same(&key.0) && self.user.same(&key.1)
    }
}

/// A review is stored under the pair of its coupon and its user.
impl Keyed for Review {
    type Key = (Identity, Identity);

    open spec fn key(&self) -> (Identity, Identity) {
        (self.coupon, self.user)
    }

    fn to_key(&self) -> (Identity, Identity) {
        (self.coupon, self.user)
    }

    fn has_key(&self, key: &(Identity, Identity)) -> bool {
        self.coupon.same(&key.0) && self.user.same(&key.1)
    }
}

/// A loyalty badge is stored under its user.
impl Keyed for LoyaltyBadge {
    type Key = Identity;

    open spec fn key(&self) -> Identity {
        self.user
    }

    fn to_key(&self) -> Identity {
        self.user
    }

    fn has_key(&self, key: &Identity) -> bool {
        self.user.same(key)
    }
}

} // verus!
