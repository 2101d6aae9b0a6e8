//! The ledger as a mathematical object: five maps, and for each operation the
//! reason for which it is refused, if it is, and the ledger that it leaves
//! behind if it is not.

use vstd::prelude::*;
use crate::coupon::{
    close_expired_coupon_rejection, create_coupon_rejection, issued, issued_one, manages,
    switched, CloseExpiredCoupon, CreateCoupon,
};
use crate::error::ErrorCode;
use crate::identity::Identity;
use crate::loyalty::{fresh_badge, rewarded, update_loyalty_badge_rejection, UpdateLoyaltyBadge};
use crate::merchant::{
    initialize_merchant_rejection, pause_flipped, registered, InitializeMerchant,
};
use crate::purchase::{credited, purchase_rejection, sold_one};
use crate::records::{
    Coupon, CouponCategory, LoyaltyBadge, Merchant, Mint, RedemptionRecord, Review, TokenAccount,
};
use crate::redemption::{honoured_one, redeem_rejection, redeemed_one, RedeemCoupon};
use crate::review::{rated, submit_review_rejection, SubmitReview};

verus! {

/// What a ledger holds: merchants by authority, coupons by asset type,
/// redemption records and reviews by coupon and user, loyalty badges by user.
pub struct LedgerView {
    pub merchants: Map<Identity, Merchant>,
    pub coupons: Map<Identity, Coupon>,
    pub redemptions: Map<(Identity, Identity), RedemptionRecord>,
    pub reviews: Map<(Identity, Identity), Review>,
    pub badges: Map<Identity, LoyaltyBadge>,
}

/// The value that `m` holds under `k`, if it holds one.
pub open spec fn lookup<K, V>(m: Map<K, V>, k: K) -> Option<V> {
    if m.contains_key(k) {
        Some(m[k])
    } else {
        None
    }
}

impl LedgerView {
    /// The ledger that holds nothing.
    pub open spec fn empty() -> LedgerView {
        LedgerView {
            merchants: Map::empty(),
            coupons: Map::empty(),
            redemptions: Map::empty(),
            reviews: Map::empty(),
            badges: Map::empty(),
        }
    }

    /// Every record is stored under its own key, no coupon has sold or
    /// redeemed more units than it offers, and the merchant of every coupon is
    /// registered.
    pub open spec fn consistent(self) -> bool {
        &&& forall|k: Identity| #[trigger]
            self.merchants.contains_key(k) ==> self.merchants[k].authority == k
        &&& forall|k: Identity| #[trigger]
            self.coupons.contains_key(k) ==> {
                &&& self.coupons[k].mint == k
                &&& self.coupons[k].within_limits()
                &&& self.merchants.contains_key(self.coupons[k].merchant)
            }
        &&& forall|k: (Identity, Identity)| #[trigger]
            self.redemptions.contains_key(k) ==> {
                &&& self.redemptions[k].coupon == k.0
                &&& self.redemptions[k].user == k.1
            }
        &&& forall|k: (Identity, Identity)| #[trigger]
            self.reviews.contains_key(k) ==> {
                &&& self.reviews[k].coupon == k.0
                &&& self.reviews[k].user == k.1
            }
        &&& forall|k: Identity| #[trigger]
            self.badges.contains_key(k) ==> self.badges[k].user == k
    }

    /// This ledger with `merchant` stored under its authority.
    pub open spec fn with_merchant(self, merchant: Merchant) -> LedgerView {
        LedgerView { merchants: self.merchants.insert(merchant.authority, merchant), ..self }
    }

    /// This ledger with `coupon` stored under its asset type.
    pub open spec fn with_coupon(self, coupon: Coupon) -> LedgerView {
        LedgerView { coupons: self.coupons.insert(coupon.mint, coupon), ..self }
    }

    /// This ledger without the coupon of `mint`.
    pub open spec fn without_coupon(self, mint: Identity) -> LedgerView {
        LedgerView { coupons: self.coupons.remove(mint), ..self }
    }

    /// This ledger with `record` stored under its coupon and user.
    pub open spec fn with_redemption(self, record: RedemptionRecord) -> LedgerView {
        LedgerView {
            redemptions: self.redemptions.insert((record.coupon, record.user), record),
            ..self
        }
    }

    /// This ledger with `review` stored under its coupon and user.
    pub open spec fn with_review(self, review: Review) -> LedgerView {
        LedgerView { reviews: self.reviews.insert((review.coupon, review.user), review), ..self }
    }

    /// This ledger with `badge` stored under its user.
    pub open spec fn with_badge(self, badge: LoyaltyBadge) -> LedgerView {
        LedgerView { badges: self.badges.insert(badge.user, badge), ..self }
    }

    /// Storing a merchant keeps a consistent ledger consistent.
    pub proof fn lemma_with_merchant(self, merchant: Merchant)
        requires
            self.consistent(),
        ensures
            self.with_merchant(merchant).consistent(),
    {
        let next = self.with_merchant(merchant);
        assert forall|k: Identity| #[trigger] next.coupons.contains_key(k) implies {
            &&& next.coupons[k].mint == k
            &&& next.coupons[k].within_limits()
            &&& next.merchants.contains_key(next.coupons[k].merchant)
        } by {
            assert(self.coupons.contains_key(k));
        }
    }

    /// Storing a coupon that is within its limits and whose merchant is
    /// registered keeps a consistent ledger consistent.
    pub proof fn lemma_with_coupon(self, coupon: Coupon)
        requires
            self.consistent(),
            coupon.within_limits(),
            self.merchants.contains_key(coupon.merchant),
        ensures
            self.with_coupon(coupon).consistent(),
    {
    }

    /// Removing a coupon keeps a consistent ledger consistent.
    pub proof fn lemma_without_coupon(self, mint: Identity)
        requires
            self.consistent(),
        ensures
            self.without_coupon(mint).consistent(),
    {
    }

    /// Storing a redemption record keeps a consistent ledger consistent.
    pub proof fn lemma_with_redemption(self, record: RedemptionRecord)
        requires
            self.consistent(),
        ensures
            self.with_redemption(record).consistent(),
    {
    }

    /// Storing a review keeps a consistent ledger consistent.
    pub proof fn lemma_with_review(self, review: Review)
        requires
            self.consistent(),
        ensures
            self.with_review(review).consistent(),
    {
    }

    /// Storing a loyalty badge keeps a consistent ledger consistent.
    pub proof fn lemma_with_badge(self, badge: LoyaltyBadge)
        requires
            self.consistent(),
        ensures
            self.with_badge(badge).consistent(),
    {
    }

    /// The merchant that issued the coupon of `mint`.
    pub open spec fn issuer(self, mint: Identity) -> Merchant {
        self.merchants[self.coupons[mint].merchant]
    }

    /// Why the coupon of `mint` and its merchant cannot be worked on, if they
    /// cannot: one of them is missing.
    pub open spec fn missing(self, mint: Identity) -> Option<ErrorCode> {
        if !self.coupons.contains_key(mint) {
            Some(ErrorCode::CouponNotFound)
        } else if !self.merchants.contains_key(self.coupons[mint].merchant) {
            Some(ErrorCode::MerchantNotFound)
        } else {
            None
        }
    }

    /// Why `authority` cannot register as a merchant, if it cannot.
    pub open spec fn register_merchant_rejection(
        self,
        authority: Identity,
        name: Seq<char>,
        description: Seq<char>,
    ) -> Option<ErrorCode> {
        initialize_merchant_rejection(
            InitializeMerchant { merchant: lookup(self.merchants, authority), authority },
            name,
            description,
        )
    }

    /// The ledger after `authority` registered as a merchant.
    pub open spec fn after_register_merchant(
        self,
        authority: Identity,
        name: String,
        description: String,
        now: i64,
    ) -> LedgerView {
        self.with_merchant(registered(authority, name, description, now))
    }

    /// Why `caller` cannot pause or resume `merchant`, if it cannot.
    pub open spec fn toggle_pause_rejection(self, merchant: Identity, caller: Identity) -> Option<
        ErrorCode,
    > {
        if !self.merchants.contains_key(merchant) {
            Some(ErrorCode::MerchantNotFound)
        } else if self.merchants[merchant].authority != caller {
            Some(ErrorCode::Unauthorized)
        } else {
            None
        }
    }

    /// The ledger after the pause flag of `merchant` was flipped.
    pub open spec fn after_toggle_pause(self, merchant: Identity) -> LedgerView {
        self.with_merchant(pause_flipped(self.merchants[merchant]))
    }

    /// Why `caller` cannot create a coupon with these terms for `merchant`,
    /// if it cannot.
    pub open spec fn create_coupon_rejection(
        self,
        merchant: Identity,
        caller: Identity,
        mint: Mint,
        discount_percent: u8,
        price: u64,
        expiry_timestamp: i64,
        max_redemptions: u32,
        metadata_uri: Seq<char>,
        now: i64,
    ) -> Option<ErrorCode> {
        if !self.merchants.contains_key(merchant) {
            Some(ErrorCode::MerchantNotFound)
        } else {
            create_coupon_rejection(
                CreateCoupon {
                    coupon: lookup(self.coupons, mint.key),
                    merchant: self.merchants[merchant],
                    mint,
                    authority: caller,
                },
                discount_percent,
                price,
                expiry_timestamp,
                max_redemptions,
                metadata_uri,
                now,
            )
        }
    }

    /// The ledger after `merchant` issued a coupon with these terms.
    pub open spec fn after_create_coupon(
        self,
        merchant: Identity,
        mint: Mint,
        discount_percent: u8,
        discount_fixed: u64,
        price: u64,
        expiry_timestamp: i64,
        max_redemptions: u32,
        category: CouponCategory,
        is_transferable: bool,
        metadata_uri: String,
        now: i64,
    ) -> LedgerView {
        self.with_coupon(
            issued(
                mint.key,
                self.merchants[merchant].authority,
                discount_percent,
                discount_fixed,
                price,
                expiry_timestamp,
                max_redemptions,
                category,
                is_transferable,
                metadata_uri,
                now,
            ),
        ).with_merchant(issued_one(self.merchants[merchant]))
    }

    /// Why `caller` cannot switch the coupon of `mint` on or off, if it
    /// cannot.
    pub open spec fn set_coupon_active_rejection(self, mint: Identity, caller: Identity)
        -> Option<ErrorCode> {
        if self.missing(mint) is Some {
            self.missing(mint)
        } else if !manages(caller, self.issuer(mint), self.coupons[mint]) {
            Some(ErrorCode::Unauthorized)
        } else {
            None
        }
    }

    /// The ledger after the coupon of `mint` was switched on or off.
    pub open spec fn after_set_coupon_active(self, mint: Identity, is_active: bool) -> LedgerView {
        self.with_coupon(switched(self.coupons[mint], is_active))
    }

    /// Why `caller` cannot close the coupon of `mint` at time `now`, if it
    /// cannot.
    pub open spec fn close_expired_coupon_rejection(self, mint: Identity, caller: Identity, now: i64)
        -> Option<ErrorCode> {
        if self.missing(mint) is Some {
            self.missing(mint)
        } else {
            close_expired_coupon_rejection(
                CloseExpiredCoupon {
                    coupon: Some(self.coupons[mint]),
                    merchant: self.issuer(mint),
                    merchant_authority: caller,
                },
                now,
            )
        }
    }

    /// The ledger after the coupon of `mint` was closed.
    pub open spec fn after_close_expired_coupon(self, mint: Identity) -> LedgerView {
        self.without_coupon(mint)
    }

    /// Why a buyer with the holding `account` cannot buy one unit of the
    /// coupon of `mint` at time `now`, if it cannot.
    pub open spec fn purchase_rejection(self, mint: Identity, account: TokenAccount, now: i64)
        -> Option<ErrorCode> {
        if self.missing(mint) is Some {
            self.missing(mint)
        } else {
            purchase_rejection(self.coupons[mint], self.issuer(mint), account.amount, now)
        }
    }

    /// The ledger after one unit of the coupon of `mint` was sold.
    pub open spec fn after_purchase(self, mint: Identity) -> LedgerView {
        self.with_coupon(sold_one(self.coupons[mint])).with_merchant(
            credited(self.issuer(mint), self.coupons[mint].price),
        )
    }

    /// Why `user`, showing the holding `account`, cannot redeem the coupon of
    /// `mint` at time `now`, if it cannot. A user who has redeemed it before
    /// is refused for that reason before any other.
    pub open spec fn redeem_rejection(
        self,
        mint: Identity,
        user: Identity,
        account: TokenAccount,
        now: i64,
    ) -> Option<ErrorCode> {
        if self.redemptions.contains_key((mint, user)) {
            Some(ErrorCode::DuplicateRedemption)
        } else if self.missing(mint) is Some {
            self.missing(mint)
        } else {
            redeem_rejection(
                RedeemCoupon {
                    coupon: self.coupons[mint],
                    merchant: self.issuer(mint),
                    user,
                    user_nft_account: account,
                    redemption_record: None,
                },
                now,
            )
        }
    }

    /// The ledger after `user` redeemed the coupon of `mint` at time `now`.
    pub open spec fn after_redeem(self, mint: Identity, user: Identity, now: i64) -> LedgerView {
        self.with_coupon(redeemed_one(self.coupons[mint])).with_merchant(
            honoured_one(self.issuer(mint)),
        ).with_redemption(
            RedemptionRecord { coupon: self.coupons[mint].mint, user, timestamp: now },
        )
    }

    /// Why `user`, showing the holding `account`, cannot review the coupon of
    /// `mint` with this rating and comment, if it cannot. A user who has
    /// reviewed it before is refused for that reason before any other.
    pub open spec fn submit_review_rejection(
        self,
        mint: Identity,
        user: Identity,
        account: TokenAccount,
        rating: u8,
        comment: Seq<char>,
    ) -> Option<ErrorCode> {
        if self.reviews.contains_key((mint, user)) {
            Some(ErrorCode::DuplicateReview)
        } else if self.missing(mint) is Some {
            self.missing(mint)
        } else {
            submit_review_rejection(
                SubmitReview {
                    review: None,
                    coupon: self.coupons[mint],
                    merchant: self.issuer(mint),
                    user_nft_account: account,
                    redemption_record: lookup(self.redemptions, (mint, user)),
                    user,
                },
                rating,
                comment,
            )
        }
    }

    /// The ledger after `user` reviewed the coupon of `mint` at time `now`.
    pub open spec fn after_submit_review(
        self,
        mint: Identity,
        user: Identity,
        rating: u8,
        comment: String,
        now: i64,
    ) -> LedgerView {
        self.with_review(
            Review { coupon: self.coupons[mint].mint, user, rating, comment, timestamp: now },
        ).with_merchant(rated(self.issuer(mint), rating))
    }

    /// Why a loyalty badge cannot be created for `user`, if it cannot.
    pub open spec fn initialize_loyalty_badge_rejection(self, user: Identity) -> Option<ErrorCode> {
        if self.badges.contains_key(user) {
            Some(ErrorCode::LoyaltyBadgeAlreadyExists)
        } else {
            None
        }
    }

    /// The ledger after a loyalty badge was created for `user`.
    pub open spec fn after_initialize_loyalty_badge(self, user: Identity) -> LedgerView {
        self.with_badge(fresh_badge(user))
    }

    /// Why the badge of `user` cannot take in a purchase of `purchase_amount`
    /// that saved `savings_amount`, if it cannot.
    pub open spec fn on_verified_purchase_rejection(
        self,
        user: Identity,
        purchase_amount: u64,
        savings_amount: u64,
    ) -> Option<ErrorCode> {
        if !self.badges.contains_key(user) {
            Some(ErrorCode::LoyaltyBadgeNotFound)
        } else {
            update_loyalty_badge_rejection(
                UpdateLoyaltyBadge { loyalty_badge: self.badges[user], user },
                purchase_amount,
                savings_amount,
            )
        }
    }

    /// The ledger after the badge of `user` took in a purchase.
    pub open spec fn after_on_verified_purchase(
        self,
        user: Identity,
        purchase_amount: u64,
        savings_amount: u64,
    ) -> LedgerView {
        self.with_badge(rewarded(self.badges[user], purchase_amount, savings_amount))
    }
}

} // verus!
