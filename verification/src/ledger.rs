//! The ledger itself: the records of one marketplace, and the operations
//! that callers may ask of it.

use vstd::prelude::*;
use crate::coupon::{
    close_expired_coupon, create_coupon, update_coupon_status, CloseExpiredCoupon, CreateCoupon,
    UpdateCouponStatus,
};
use crate::error::ErrorCode;
use crate::events::{
    CouponClosed, CouponCreated, CouponStatusUpdated, LoyaltyBadgeCreated, LoyaltyBadgeUpdated,
    MerchantInitialized, MerchantPauseToggled, PurchaseReceipt, RedemptionReceipt,
    ReviewSubmitted,
};
use crate::identity::Identity;
use crate::loyalty::{
    initialize_loyalty_badge, update_loyalty_badge, InitializeLoyaltyBadge, UpdateLoyaltyBadge,
};
use crate::merchant::{
    initialize_merchant, toggle_merchant_pause, InitializeMerchant, ToggleMerchantPause,
};
use crate::model::LedgerView;
use crate::operation::{outcome, rejection, step, Operation, Outcome};
use crate::purchase::{purchase_coupon, purchase_receipt, PurchaseCoupon};
use crate::records::{
    Coupon, CouponCategory, LoyaltyBadge, Merchant, Mint, RedemptionRecord, Review, TokenAccount,
};
use crate::redemption::{redeem_coupon, redemption_receipt, BurnPolicy, RedeemCoupon};
use crate::review::{submit_review, SubmitReview};
use crate::table::Table;

verus! {

/// The records of one marketplace. Its view is a [`LedgerView`].
///
/// Each kind of record is stored under the key that its identity derives
/// from, so that a record exists exactly when the event it stands for has
/// happened: a second registration, creation, redemption or review under the
/// same key is refused because the key is taken.
pub struct Ledger {
    merchants: Table<Merchant>,
    coupons: Table<Coupon>,
    redemptions: Table<RedemptionRecord>,
    reviews: Table<Review>,
    badges: Table<LoyaltyBadge>,
}

impl View for Ledger {
    type V = LedgerView;

    closed spec fn view(&self) -> LedgerView {
        LedgerView {
            merchants: self.merchants@,
            coupons: self.coupons@,
            redemptions: self.redemptions@,
            reviews: self.reviews@,
            badges: self.badges@,
        }
    }
}

impl Ledger {
    /// Each of the five tables is well formed.
    pub closed spec fn well_stored(&self) -> bool {
        &&& self.merchants.wf()
        &&& self.coupons.wf()
        &&& self.redemptions.wf()
        &&& self.reviews.wf()
        &&& self.badges.wf()
    }

    /// The ledger is well stored and what it holds is consistent. A new
    /// ledger is well formed, and every operation keeps it so.
    pub open spec fn wf(&self) -> bool {
        self.well_stored() && self@.consistent()
    }

    /// The ledger that holds nothing.
    pub fn new() -> (ledger: Ledger)
        ensures
            ledger.wf(),
            ledger@ == LedgerView::empty(),
    {
        Ledger {
            merchants: Table::new(),
            coupons: Table::new(),
            redemptions: Table::new(),
            reviews: Table::new(),
            badges: Table::new(),
        }
    }

    /// The merchant of `authority`, if one is registered.
    pub fn merchant(&self, authority: &Identity) -> (found: Option<&Merchant>)
        requires
            self.wf(),
        ensures
            match found {
                Some(merchant) => self@.merchants.contains_key(*authority) && *merchant
                    == self@.merchants[*authority],
                None => !self@.merchants.contains_key(*authority),
            },
    {
        self.merchants.get(authority)
    }

    /// The coupon of `mint`, if there is one. It has neither sold nor seen
    /// redeemed more units than it offers.
    pub fn coupon(&self, mint: &Identity) -> (found: Option<&Coupon>)
        requires
            self.wf(),
        ensures
            match found {
                Some(coupon) => self@.coupons.contains_key(*mint) && *coupon
                    == self@.coupons[*mint] && coupon.within_limits(),
                None => !self@.coupons.contains_key(*mint),
            },
    {
        self.coupons.get(mint)
    }

    /// The record of the redemption of `coupon` by `user`, if there is one.
    pub fn redemption(&self, coupon: &Identity, user: &Identity) -> (found: Option<
        &RedemptionRecord,
    >)
        requires
            self.wf(),
        ensures
            match found {
                Some(record) => self@.redemptions.contains_key((*coupon, *user)) && *record
                    == self@.redemptions[(*coupon, *user)],
                None => !self@.redemptions.contains_key((*coupon, *user)),
            },
    {
        self.redemptions.get(&(*coupon, *user))
    }

    /// The review of `coupon` by `user`, if there is one.
    pub fn review(&self, coupon: &Identity, user: &Identity) -> (found: Option<&Review>)
        requires
            self.wf(),
        ensures
            match found {
                Some(review) => self@.reviews.contains_key((*coupon, *user)) && *review
                    == self@.reviews[(*coupon, *user)],
                None => !self@.reviews.contains_key((*coupon, *user)),
            },
    {
        self.reviews.get(&(*coupon, *user))
    }

    /// The loyalty badge of `user`, if there is one.
    pub fn loyalty_badge(&self, user: &Identity) -> (found: Option<&LoyaltyBadge>)
        requires
            self.wf(),
        ensures
            match found {
                Some(badge) => self@.badges.contains_key(*user) && *badge == self@.badges[*user],
                None => !self@.badges.contains_key(*user),
            },
    {
        self.badges.get(user)
    }

    /// Copies of the coupon of `mint` and of the merchant that issued it.
    fn load(&self, mint: &Identity) -> (r: Result<(Coupon, Merchant), ErrorCode>)
        requires
            self.wf(),
        ensures
            match r {
                Ok(pair) => {
                    &&& self@.missing(*mint) is None
                    &&& pair.0 == self@.coupons[*mint]
                    &&& pair.1 == self@.issuer(*mint)
                },
                Err(e) => self@.missing(*mint) == Some(e),
            },
    {
        let coupon = match self.coupons.get(mint) {
            Some(coupon) => coupon.clone(),
            None => {
                return Err(ErrorCode::CouponNotFound);
            },
        };
        let merchant = match self.merchants.get(&coupon.merchant) {
            Some(merchant) => merchant.clone(),
            None => {
                return Err(ErrorCode::MerchantNotFound);
            },
        };
        Ok((coupon, merchant))
    }

    /// Registers `authority` as a merchant at time `now`.
    ///
    /// Refused as [`initialize_merchant`] refuses; in particular, an authority
    /// registers once.
    pub fn register_merchant(
        &mut self,
        authority: Identity,
        name: String,
        description: String,
        now: i64,
    ) -> (r: Result<MerchantInitialized, ErrorCode>)
        requires
            old(self).wf(),
        ensures
            final(self).wf(),
            match r {
                Ok(event) => {
                    &&& old(self)@.register_merchant_rejection(authority, name@, description@)
                        is None
                    &&& final(self)@ == old(self)@.after_register_merchant(
                        authority,
                        name,
                        description,
                        now,
                    )
                    &&& event == (MerchantInitialized {
                        merchant: authority,
                        authority,
                        timestamp: now,
                    })
                },
                Err(e) => {
                    &&& old(self)@.register_merchant_rejection(authority, name@, description@)
                        == Some(e)
                    &&& final(self)@ == old(self)@
                },
            },
    {
        let merchant = match self.merchants.get(&authority) {
            Some(merchant) => Some(merchant.clone()),
            None => None,
        };
        let mut ctx = InitializeMerchant { merchant, authority };
        match initialize_merchant(&mut ctx, name, description, now) {
            Err(e) => Err(e),
            Ok(event) => {
                match ctx.merchant {
                    Some(merchant) => {
                        proof {
                            self@.lemma_with_merchant(merchant);
                        }
                        if !self.merchants.insert_new(merchant) {
                            return Err(ErrorCode::MerchantAlreadyExists);
                        }
                    },
                    None => {},
                }
                Ok(event)
            },
        }
    }

    /// Pauses `merchant` if it is running and resumes it if it is paused, on
    /// behalf of `caller` at time `now`.
    ///
    /// Refused with `MerchantNotFound` if no such merchant is registered, and
    /// with `Unauthorized` if `caller` is not its authority.
    pub fn toggle_pause(&mut self, merchant: &Identity, caller: Identity, now: i64) -> (r: Result<
        MerchantPauseToggled,
        ErrorCode,
    >)
        requires
            old(self).wf(),
        ensures
            final(self).wf(),
            match r {
                Ok(event) => {
                    &&& old(self)@.toggle_pause_rejection(*merchant, caller) is None
                    &&& final(self)@ == old(self)@.after_toggle_pause(*merchant)
                    &&& event == (MerchantPauseToggled {
                        merchant: *merchant,
                        is_paused: !old(self)@.merchants[*merchant].is_paused,
                        timestamp: now,
                    })
                },
                Err(e) => {
                    &&& old(self)@.toggle_pause_rejection(*merchant, caller) == Some(e)
                    &&& final(self)@ == old(self)@
                },
            },
    {
        let record = match self.merchants.get(merchant) {
            Some(record) => record.clone(),
            None => {
                return Err(ErrorCode::MerchantNotFound);
            },
        };
        let mut ctx = ToggleMerchantPause { merchant: record, authority: caller };
        match toggle_merchant_pause(&mut ctx, now) {
            Err(e) => Err(e),
            Ok(event) => {
                proof {
                    self@.lemma_with_merchant(ctx.merchant);
                }
                self.merchants.put(ctx.merchant);
                Ok(event)
            },
        }
    }

    /// Sells one unit of the coupon of `mint` to `buyer`, whose holding of
    /// the payment asset is `buyer_token_account`, at time `now`.
    ///
    /// Refused with `CouponNotFound` if there is no such coupon, and otherwise
    /// as [`purchase_coupon`] refuses. The merchant that is paid is the one
    /// that issued the coupon.
    pub fn purchase(
        &mut self,
        mint: &Identity,
        buyer: Identity,
        buyer_token_account: TokenAccount,
        now: i64,
    ) -> (r: Result<PurchaseReceipt, ErrorCode>)
        requires
            old(self).wf(),
        ensures
            final(self).wf(),
            match r {
                Ok(receipt) => {
                    &&& old(self)@.purchase_rejection(*mint, buyer_token_account, now) is None
                    &&& final(self)@ == old(self)@.after_purchase(*mint)
                    &&& receipt == purchase_receipt(
                        old(self)@.coupons[*mint],
                        old(self)@.issuer(*mint),
                        buyer,
                        now,
                    )
                },
                Err(e) => {
                    &&& old(self)@.purchase_rejection(*mint, buyer_token_account, now) == Some(
                        e,
                    )
                    &&& final(self)@ == old(self)@
                },
            },
    {
        let (coupon, merchant) = match self.load(mint) {
            Ok(pair) => pair,
            Err(e) => {
                return Err(e);
            },
        };
        let mut ctx = PurchaseCoupon { coupon, merchant, buyer, buyer_token_account };
        match purchase_coupon(&mut ctx, now) {
            Err(e) => Err(e),
            Ok(receipt) => {
                proof {
                    self@.lemma_with_coupon(ctx.coupon);
                    self@.with_coupon(ctx.coupon).lemma_with_merchant(ctx.merchant);
                }
                self.coupons.put(ctx.coupon);
                self.merchants.put(ctx.merchant);
                Ok(receipt)
            },
        }
    }

    /// Creates a coupon with the given terms for `mint`, issued by
    /// `merchant`, on behalf of `caller` at time `now`.
    ///
    /// Refused with `MerchantNotFound` if no such merchant is registered, and
    /// otherwise as [`create_coupon`] refuses; in particular, an asset type
    /// has one coupon at a time.
    pub fn create_coupon(
        &mut self,
        merchant: &Identity,
        caller: Identity,
        mint: Mint,
        discount_percent: u8,
        discount_fixed: u64,
        price: u64,
        expiry_timestamp: i64,
        max_redemptions: u32,
        category: CouponCategory,
        is_transferable: bool,
        metadata_uri: String,
        now: i64,
    ) -> (r: Result<CouponCreated, ErrorCode>)
        requires
            old(self).wf(),
        ensures
            final(self).wf(),
            match r {
                Ok(event) => {
                    &&& old(self)@.create_coupon_rejection(
                        *merchant,
                        caller,
                        mint,
                        discount_percent,
                        price,
                        expiry_timestamp,
                        max_redemptions,
                        metadata_uri@,
                        now,
                    ) is None
                    &&& final(self)@ == old(self)@.after_create_coupon(
                        *merchant,
                        mint,
                        discount_percent,
                        discount_fixed,
                        price,
                        expiry_timestamp,
                        max_redemptions,
                        category,
                        is_transferable,
                        metadata_uri,
                        now,
                    )
                    &&& event == (CouponCreated {
                        coupon: mint.key,
                        mint: mint.key,
                        merchant: *merchant,
                        discount_percent,
                        price,
                        max_redemptions,
                        category,
                        timestamp: now,
                    })
                },
                Err(e) => {
                    &&& old(self)@.create_coupon_rejection(
                        *merchant,
                        caller,
                        mint,
                        discount_percent,
                        price,
                        expiry_timestamp,
                        max_redemptions,
                        metadata_uri@,
                        now,
                    ) == Some(e)
                    &&& final(self)@ == old(self)@
                },
            },
    {
        let record = match self.merchants.get(merchant) {
            Some(record) => record.clone(),
            None => {
                return Err(ErrorCode::MerchantNotFound);
            },
        };
        let coupon = match self.coupons.get(&mint.key) {
            Some(coupon) => Some(coupon.clone()),
            None => None,
        };
        let mut ctx = CreateCoupon { coupon, merchant: record, mint, authority: caller };
        match create_coupon(
            &mut ctx,
            discount_percent,
            discount_fixed,
            price,
            expiry_timestamp,
            max_redemptions,
            category,
            is_transferable,
            metadata_uri,
            now,
        ) {
            Err(e) => Err(e),
            Ok(event) => {
                match ctx.coupon {
                    Some(coupon) => {
                        proof {
                            self@.lemma_with_coupon(coupon);
                            self@.with_coupon(coupon).lemma_with_merchant(ctx.merchant);
                        }
                        if !self.coupons.insert_new(coupon) {
                            return Err(ErrorCode::CouponAlreadyExists);
                        }
                        self.merchants.put(ctx.merchant);
                    },
                    None => {},
                }
                Ok(event)
            },
        }
    }

    /// Switches the coupon of `mint` on or off, on behalf of `caller` at time
    /// `now`.
    ///
    /// Refused with `CouponNotFound` if there is no such coupon, and with
    /// `Unauthorized` if `caller` is not the authority of its merchant.
    pub fn set_coupon_active(&mut self, mint: &Identity, caller: Identity, is_active: bool, now: i64)
        -> (r: Result<CouponStatusUpdated, ErrorCode>)
        requires
            old(self).wf(),
        ensures
            final(self).wf(),
            match r {
                Ok(event) => {
                    &&& old(self)@.set_coupon_active_rejection(*mint, caller) is None
                    &&& final(self)@ == old(self)@.after_set_coupon_active(*mint, is_active)
                    &&& event == (CouponStatusUpdated {
                        coupon: *mint,
                        is_active,
                        timestamp: now,
                    })
                },
                Err(e) => {
                    &&& old(self)@.set_coupon_active_rejection(*mint, caller) == Some(e)
                    &&& final(self)@ == old(self)@
                },
            },
    {
        let (coupon, merchant) = match self.load(mint) {
            Ok(pair) => pair,
            Err(e) => {
                return Err(e);
            },
        };
        let mut ctx = UpdateCouponStatus { coupon, merchant, authority: caller };
        match update_coupon_status(&mut ctx, is_active, now) {
            Err(e) => Err(e),
            Ok(event) => {
                proof {
                    self@.lemma_with_coupon(ctx.coupon);
                }
                self.coupons.put(ctx.coupon);
                Ok(event)
            },
        }
    }

    /// Closes the coupon of `mint`, on behalf of `caller` at time `now`, and
    /// removes its record.
    ///
    /// Refused with `CouponNotFound` if there is no such coupon, and otherwise
    /// as [`close_expired_coupon`] refuses.
    pub fn close_expired_coupon(&mut self, mint: &Identity, caller: Identity, now: i64) -> (r:
        Result<CouponClosed, ErrorCode>)
        requires
            old(self).wf(),
        ensures
            final(self).wf(),
            match r {
                Ok(event) => {
                    &&& old(self)@.close_expired_coupon_rejection(*mint, caller, now) is None
                    &&& final(self)@ == old(self)@.after_close_expired_coupon(*mint)
                    &&& event == (CouponClosed {
                        coupon: *mint,
                        refund_to: caller,
                        timestamp: now,
                    })
                },
                Err(e) => {
                    &&& old(self)@.close_expired_coupon_rejection(*mint, caller, now) == Some(e)
                    &&& final(self)@ == old(self)@
                },
            },
    {
        let (coupon, merchant) = match self.load(mint) {
            Ok(pair) => pair,
            Err(e) => {
                return Err(e);
            },
        };
        let mut ctx = CloseExpiredCoupon {
            coupon: Some(coupon),
            merchant,
            merchant_authority: caller,
        };
        match close_expired_coupon(&mut ctx, now) {
            Err(e) => Err(e),
            Ok(event) => {
                proof {
                    self@.lemma_without_coupon(*mint);
                }
                let _ = self.coupons.remove(mint);
                Ok(event)
            },
        }
    }

    /// Redeems the coupon of `mint` for `user`, who shows the holding
    /// `user_nft_account`, at time `now`.
    ///
    /// Refused with `DuplicateRedemption` if the user has redeemed this
    /// coupon before, whatever else holds; else with `CouponNotFound` if there
    /// is no such coupon; and otherwise as [`redeem_coupon`] refuses.
    pub fn redeem(
        &mut self,
        mint: &Identity,
        user: Identity,
        user_nft_account: TokenAccount,
        policy: BurnPolicy,
        now: i64,
    ) -> (r: Result<RedemptionReceipt, ErrorCode>)
        requires
            old(self).wf(),
        ensures
            final(self).wf(),
            match r {
                Ok(receipt) => {
                    &&& old(self)@.redeem_rejection(*mint, user, user_nft_account, now) is None
                    &&& final(self)@ == old(self)@.after_redeem(*mint, user, now)
                    &&& receipt == redemption_receipt(
                        old(self)@.coupons[*mint],
                        old(self)@.issuer(*mint),
                        user,
                        policy,
                        now,
                    )
                },
                Err(e) => {
                    &&& old(self)@.redeem_rejection(*mint, user, user_nft_account, now) == Some(
                        e,
                    )
                    &&& final(self)@ == old(self)@
                },
            },
    {
        if self.redemptions.contains(&(*mint, user)) {
            return Err(ErrorCode::DuplicateRedemption);
        }
        let (coupon, merchant) = match self.load(mint) {
            Ok(pair) => pair,
            Err(e) => {
                return Err(e);
            },
        };
        let mut ctx = RedeemCoupon {
            coupon,
            merchant,
            user,
            user_nft_account,
            redemption_record: None,
        };
        match redeem_coupon(&mut ctx, policy, now) {
            Err(e) => Err(e),
            Ok(receipt) => {
                match ctx.redemption_record {
                    Some(record) => {
                        proof {
                            let s1 = self@.with_coupon(ctx.coupon);
                            let s2 = s1.with_merchant(ctx.merchant);
                            self@.lemma_with_coupon(ctx.coupon);
                            s1.lemma_with_merchant(ctx.merchant);
                            s2.lemma_with_redemption(record);
                        }
                        if !self.redemptions.insert_new(record) {
                            return Err(ErrorCode::DuplicateRedemption);
                        }
                        self.coupons.put(ctx.coupon);
                        self.merchants.put(ctx.merchant);
                    },
                    None => {},
                }
                Ok(receipt)
            },
        }
    }

    /// Accepts a review of the coupon of `mint` by `user`, who shows the
    /// holding `user_nft_account`, at time `now`.
    ///
    /// Refused with `DuplicateReview` if the user has reviewed this coupon
    /// before, whatever else holds; else with `CouponNotFound` if there is no
    /// such coupon; and otherwise as [`submit_review`] refuses. The user's
    /// redemption record, if the ledger holds one, counts as proof.
    pub fn submit_review(
        &mut self,
        mint: &Identity,
        user: Identity,
        user_nft_account: TokenAccount,
        rating: u8,
        comment: String,
        now: i64,
    ) -> (r: Result<ReviewSubmitted, ErrorCode>)
        requires
            old(self).wf(),
        ensures
            final(self).wf(),
            match r {
                Ok(event) => {
                    &&& old(self)@.submit_review_rejection(
                        *mint,
                        user,
                        user_nft_account,
                        rating,
                        comment@,
                    ) is None
                    &&& final(self)@ == old(self)@.after_submit_review(
                        *mint,
                        user,
                        rating,
                        comment,
                        now,
                    )
                    &&& event == (ReviewSubmitted { coupon: *mint, user, rating, timestamp: now })
                },
                Err(e) => {
                    &&& old(self)@.submit_review_rejection(
                        *mint,
                        user,
                        user_nft_account,
                        rating,
                        comment@,
                    ) == Some(e)
                    &&& final(self)@ == old(self)@
                },
            },
    {
        if self.reviews.contains(&(*mint, user)) {
            return Err(ErrorCode::DuplicateReview);
        }
        let (coupon, merchant) = match self.load(mint) {
            Ok(pair) => pair,
            Err(e) => {
                return Err(e);
            },
        };
        let redemption_record = match self.redemptions.get(&(*mint, user)) {
            Some(record) => Some(*record),
            None => None,
        };
        let mut ctx = SubmitReview {
            review: None,
            coupon,
            merchant,
            user_nft_account,
            redemption_record,
            user,
        };
        match submit_review(&mut ctx, rating, comment, now) {
            Err(e) => Err(e),
            Ok(event) => {
                match ctx.review {
                    Some(review) => {
                        proof {
                            self@.lemma_with_review(review);
                            self@.with_review(review).lemma_with_merchant(ctx.merchant);
                        }
                        if !self.reviews.insert_new(review) {
                            return Err(ErrorCode::DuplicateReview);
                        }
                        self.merchants.put(ctx.merchant);
                    },
                    None => {},
                }
                Ok(event)
            },
        }
    }

    /// Creates the loyalty badge of `user` at time `now`. A user has one
    /// badge: a second one is refused with `LoyaltyBadgeAlreadyExists`.
    pub fn initialize_loyalty_badge(&mut self, user: Identity, now: i64) -> (r: Result<
        LoyaltyBadgeCreated,
        ErrorCode,
    >)
        requires
            old(self).wf(),
        ensures
            final(self).wf(),
            match r {
                Ok(event) => {
                    &&& old(self)@.initialize_loyalty_badge_rejection(user) is None
                    &&& final(self)@ == old(self)@.after_initialize_loyalty_badge(user)
                    &&& event == (LoyaltyBadgeCreated { user, timestamp: now })
                },
                Err(e) => {
                    &&& old(self)@.initialize_loyalty_badge_rejection(user) == Some(e)
                    &&& final(self)@ == old(self)@
                },
            },
    {
        let loyalty_badge = match self.badges.get(&user) {
            Some(badge) => Some(*badge),
            None => None,
        };
        let mut ctx = InitializeLoyaltyBadge { loyalty_badge, user };
        match initialize_loyalty_badge(&mut ctx, now) {
            Err(e) => Err(e),
            Ok(event) => {
                match ctx.loyalty_badge {
                    Some(badge) => {
                        proof {
                            self@.lemma_with_badge(badge);
                        }
                        if !self.badges.insert_new(badge) {
                            return Err(ErrorCode::LoyaltyBadgeAlreadyExists);
                        }
                    },
                    None => {},
                }
                Ok(event)
            },
        }
    }

    /// Takes a verified purchase of `purchase_amount` that saved
    /// `savings_amount` into the loyalty badge of `user`.
    ///
    /// Refused with `LoyaltyBadgeNotFound` if the user has no badge, and
    /// otherwise as [`update_loyalty_badge`] refuses.
    pub fn on_verified_purchase(&mut self, user: Identity, purchase_amount: u64, savings_amount: u64)
        -> (r: Result<LoyaltyBadgeUpdated, ErrorCode>)
        requires
            old(self).wf(),
        ensures
            final(self).wf(),
            match r {
                Ok(event) => {
                    &&& old(self)@.on_verified_purchase_rejection(
                        user,
                        purchase_amount,
                        savings_amount,
                    ) is None
                    &&& final(self)@ == old(self)@.after_on_verified_purchase(
                        user,
                        purchase_amount,
                        savings_amount,
                    )
                    &&& event == (LoyaltyBadgeUpdated {
                        user,
                        tier: final(self)@.badges[user].tier,
                        points: final(self)@.badges[user].points,
                    })
                },
                Err(e) => {
                    &&& old(self)@.on_verified_purchase_rejection(
                        user,
                        purchase_amount,
                        savings_amount,
                    ) == Some(e)
                    &&& final(self)@ == old(self)@
                },
            },
    {
        let loyalty_badge = match self.badges.get(&user) {
            Some(badge) => *badge,
            None => {
                return Err(ErrorCode::LoyaltyBadgeNotFound);
            },
        };
        let mut ctx = UpdateLoyaltyBadge { loyalty_badge, user };
        match update_loyalty_badge(&mut ctx, purchase_amount, savings_amount) {
            Err(e) => Err(e),
            Ok(event) => {
                proof {
                    self@.lemma_with_badge(ctx.loyalty_badge);
                }
                self.badges.put(ctx.loyalty_badge);
                Ok(event)
            },
        }
    }

    /// Asks `op` of the ledger at time `now`.
    ///
    /// A request that is refused changes nothing; one that is granted changes
    /// the ledger as `op` says and returns what the host must now do.
    pub fn apply(&mut self, op: Operation, now: i64) -> (r: Result<Outcome, ErrorCode>)
        requires
            old(self).wf(),
        ensures
            final(self).wf(),
            final(self)@ == step(old(self)@, op, now),
            match r {
                Ok(done) => rejection(old(self)@, op, now) is None && done == outcome(
                    old(self)@,
                    op,
                    now,
                ),
                Err(e) => rejection(old(self)@, op, now) == Some(e),
            },
    {
        match op {
            Operation::RegisterMerchant { authority, name, description } => {
                match self.register_merchant(authority, name, description, now) {
                    Ok(event) => Ok(Outcome::MerchantInitialized(event)),
                    Err(e) => Err(e),
                }
            },
            Operation::TogglePause { merchant, caller } => {
                match self.toggle_pause(&merchant, caller, now) {
                    Ok(event) => Ok(Outcome::MerchantPauseToggled(event)),
                    Err(e) => Err(e),
                }
            },
            Operation::CreateCoupon {
                merchant,
                caller,
                mint,
                discount_percent,
                discount_fixed,
                price,
                expiry_timestamp,
                max_redemptions,
                category,
                is_transferable,
                metadata_uri,
            } => {
                match self.create_coupon(
                    &merchant,
                    caller,
                    mint,
                    discount_percent,
                    discount_fixed,
                    price,
                    expiry_timestamp,
                    max_redemptions,
                    category,
                    is_transferable,
                    metadata_uri,
                    now,
                ) {
                    Ok(event) => Ok(Outcome::CouponCreated(event)),
                    Err(e) => Err(e),
                }
            },
            Operation::SetCouponActive { coupon: mint, caller, is_active } => {
                match self.set_coupon_active(&mint, caller, is_active, now) {
                    Ok(event) => Ok(Outcome::CouponStatusUpdated(event)),
                    Err(e) => Err(e),
                }
            },
            Operation::CloseExpiredCoupon { coupon: mint, caller } => {
                match self.close_expired_coupon(&mint, caller, now) {
                    Ok(event) => Ok(Outcome::CouponClosed(event)),
                    Err(e) => Err(e),
                }
            },
            Operation::Purchase { coupon: mint, buyer, buyer_token_account } => {
                match self.purchase(&mint, buyer, buyer_token_account, now) {
                    Ok(receipt) => Ok(Outcome::Purchased(receipt)),
                    Err(e) => Err(e),
                }
            },
            Operation::Redeem { coupon: mint, user, user_nft_account, policy } => {
                match self.redeem(&mint, user, user_nft_account, policy, now) {
                    Ok(receipt) => Ok(Outcome::Redeemed(receipt)),
                    Err(e) => Err(e),
                }
            },
            Operation::SubmitReview { coupon: mint, user, user_nft_account, rating, comment } => {
                match self.submit_review(&mint, user, user_nft_account, rating, comment, now) {
                    Ok(event) => Ok(Outcome::ReviewSubmitted(event)),
                    Err(e) => Err(e),
                }
            },
            Operation::InitializeLoyaltyBadge { user } => {
                match self.initialize_loyalty_badge(user, now) {
                    Ok(event) => Ok(Outcome::LoyaltyBadgeCreated(event)),
                    Err(e) => Err(e),
                }
            },
            Operation::OnVerifiedPurchase { user, purchase_amount, savings_amount } => {
                match self.on_verified_purchase(user, purchase_amount, savings_amount) {
                    Ok(event) => Ok(Outcome::LoyaltyBadgeUpdated(event)),
                    Err(e) => Err(e),
                }
            },
        }
    }
}

} // verus!
