//! The operations that a ledger offers, as values, and what each of them does
//! to a ledger.

use vstd::prelude::*;
use crate::error::ErrorCode;
use crate::events::{
    CouponClosed, CouponCreated, CouponStatusUpdated, LoyaltyBadgeCreated, LoyaltyBadgeUpdated,
    MerchantInitialized, MerchantPauseToggled, PurchaseReceipt, RedemptionReceipt,
    ReviewSubmitted,
};
use crate::identity::Identity;
use crate::model::LedgerView;
use crate::purchase::purchase_receipt;
use crate::records::{CouponCategory, Mint, TokenAccount};
use crate::redemption::{redemption_receipt, BurnPolicy};

verus! {

/// A request to a ledger.
#[derive(Debug, PartialEq, Eq)]
pub enum Operation {
    RegisterMerchant { authority: Identity, name: String, description: String },
    TogglePause { merchant: Identity, caller: Identity },
    CreateCoupon {
        merchant: Identity,
        caller: Identity,
        mint: Mint,
        discount_percent: u8,
        discount_fixed: u64,
        price: u64,
        expiry_timestamp: i64,
        max_redemptions: u32,
        category: CouponCategory,
        is_transferable: bool,
        metadata_uri: String,
    },
    SetCouponActive { coupon: Identity, caller: Identity, is_active: bool },
    CloseExpiredCoupon { coupon: Identity, caller: Identity },
    Purchase { coupon: Identity, buyer: Identity, buyer_token_account: TokenAccount },
    Redeem { coupon: Identity, user: Identity, user_nft_account: TokenAccount, policy: BurnPolicy },
    SubmitReview {
        coupon: Identity,
        user: Identity,
        user_nft_account: TokenAccount,
        rating: u8,
        comment: String,
    },
    InitializeLoyaltyBadge { user: Identity },
    OnVerifiedPurchase { user: Identity, purchase_amount: u64, savings_amount: u64 },
}

/// What a request that was granted leaves for the host to do.
#[derive(Clone, Copy, Debug, PartialEq, Eq)]
pub enum Outcome {
    MerchantInitialized(MerchantInitialized),
    MerchantPauseToggled(MerchantPauseToggled),
    CouponCreated(CouponCreated),
    CouponStatusUpdated(CouponStatusUpdated),
    CouponClosed(CouponClosed),
    Purchased(PurchaseReceipt),
    Redeemed(RedemptionReceipt),
    ReviewSubmitted(ReviewSubmitted),
    LoyaltyBadgeCreated(LoyaltyBadgeCreated),
    LoyaltyBadgeUpdated(LoyaltyBadgeUpdated),
}

/// Why the ledger `s` refuses `op` at time `now`, if it does.
pub open spec fn rejection(s: LedgerView, op: Operation, now: i64) -> Option<ErrorCode> {
    match op {
        Operation::RegisterMerchant { authority, name, description } => {
            s.register_merchant_rejection(authority, name@, description@)
        },
        Operation::TogglePause { merchant, caller } => s.toggle_pause_rejection(merchant, caller),
        Operation::CreateCoupon {
            merchant,
            caller,
            mint,
            discount_percent,
            discount_fixed,
            price,
            expiry_timestamp,
            max_redemptions,
            category,
            is_transferable,
            metadata_uri,
        } => s.create_coupon_rejection(
            merchant,
            caller,
            mint,
            discount_percent,
            price,
            expiry_timestamp,
            max_redemptions,
            metadata_uri@,
            now,
        ),
        Operation::SetCouponActive { coupon: mint, caller, is_active } => {
            s.set_coupon_active_rejection(mint, caller)
        },
        Operation::CloseExpiredCoupon { coupon: mint, caller } => {
            s.close_expired_coupon_rejection(mint, caller, now)
        },
        Operation::Purchase { coupon: mint, buyer, buyer_token_account } => {
            s.purchase_rejection(mint, buyer_token_account, now)
        },
        Operation::Redeem { coupon: mint, user, user_nft_account, policy } => {
            s.redeem_rejection(mint, user, user_nft_account, now)
        },
        Operation::SubmitReview { coupon: mint, user, user_nft_account, rating, comment } => {
            s.submit_review_rejection(mint, user, user_nft_account, rating, comment@)
        },
        Operation::InitializeLoyaltyBadge { user } => s.initialize_loyalty_badge_rejection(user),
        Operation::OnVerifiedPurchase { user, purchase_amount, savings_amount } => {
            s.on_verified_purchase_rejection(user, purchase_amount, savings_amount)
        },
    }
}

/// The ledger that `op`, granted at time `now`, makes of the ledger `s`.
pub open spec fn granted(s: LedgerView, op: Operation, now: i64) -> LedgerView {
    match op {
        Operation::RegisterMerchant { authority, name, description } => {
            s.after_register_merchant(authority, name, description, now)
        },
        Operation::TogglePause { merchant, caller } => s.after_toggle_pause(merchant),
        Operation::CreateCoupon {
            merchant,
            caller,
            mint,
            discount_percent,
            discount_fixed,
            price,
            expiry_timestamp,
            max_redemptions,
            category,
            is_transferable,
            metadata_uri,
        } => s.after_create_coupon(
            merchant,
            mint,
            discount_percent,
            discount_fixed,
            price,
            expiry_timestamp,
            max_redemptions,
            category,
            is_transferable,
            metadata_uri,
            now,
        ),
        Operation::SetCouponActive { coupon: mint, caller, is_active } => {
            s.after_set_coupon_active(mint, is_active)
        },
        Operation::CloseExpiredCoupon { coupon: mint, caller } => s.after_close_expired_coupon(mint),
        Operation::Purchase { coupon: mint, buyer, buyer_token_account } => s.after_purchase(mint),
        Operation::Redeem { coupon: mint, user, user_nft_account, policy } => {
            s.after_redeem(mint, user, now)
        },
        Operation::SubmitReview { coupon: mint, user, user_nft_account, rating, comment } => {
            s.after_submit_review(mint, user, rating, comment, now)
        },
        Operation::InitializeLoyaltyBadge { user } => s.after_initialize_loyalty_badge(user),
        Operation::OnVerifiedPurchase { user, purchase_amount, savings_amount } => {
            s.after_on_verified_purchase(user, purchase_amount, savings_amount)
        },
    }
}

/// The ledger after `op` was asked of the ledger `s` at time `now`: changed
/// as `op` says if it is granted, and `s` itself if it is refused.
pub open spec fn step(s: LedgerView, op: Operation, now: i64) -> LedgerView {
    if rejection(s, op, now) is None {
        granted(s, op, now)
    } else {
        s
    }
}

/// What `op`, granted at time `now` on the ledger `s`, leaves for the host to
/// do.
pub open spec fn outcome(s: LedgerView, op: Operation, now: i64) -> Outcome {
    match op {
        Operation::RegisterMerchant { authority, name, description } => {
            Outcome::MerchantInitialized(
                MerchantInitialized { merchant: authority, authority, timestamp: now },
            )
        },
        Operation::TogglePause { merchant, caller } => Outcome::MerchantPauseToggled(
            MerchantPauseToggled {
                merchant,
                is_paused: !s.merchants[merchant].is_paused,
                timestamp: now,
            },
        ),
        Operation::CreateCoupon {
            merchant,
            caller,
            mint,
            discount_percent,
            discount_fixed,
            price,
            expiry_timestamp,
            max_redemptions,
            category,
            is_transferable,
            metadata_uri,
        } => Outcome::CouponCreated(
            CouponCreated {
                coupon: mint.key,
                mint: mint.key,
                merchant,
                discount_percent,
                price,
                max_redemptions,
                category,
                timestamp: now,
            },
        ),
        Operation::SetCouponActive { coupon: mint, caller, is_active } => Outcome::CouponStatusUpdated(
            CouponStatusUpdated { coupon: mint, is_active, timestamp: now },
        ),
        Operation::CloseExpiredCoupon { coupon: mint, caller } => Outcome::CouponClosed(
            CouponClosed { coupon: mint, refund_to: caller, timestamp: now },
        ),
        Operation::Purchase { coupon: mint, buyer, buyer_token_account } => Outcome::Purchased(
            purchase_receipt(s.coupons[mint], s.issuer(mint), buyer, now),
        ),
        Operation::Redeem { coupon: mint, user, user_nft_account, policy } => Outcome::Redeemed(
            redemption_receipt(s.coupons[mint], s.issuer(mint), user, policy, now),
        ),
        Operation::SubmitReview { coupon: mint, user, user_nft_account, rating, comment } => {
            Outcome::ReviewSubmitted(ReviewSubmitted { coupon: mint, user, rating, timestamp: now })
        },
        Operation::InitializeLoyaltyBadge { user } => Outcome::LoyaltyBadgeCreated(
            LoyaltyBadgeCreated { user, timestamp: now },
        ),
        Operation::OnVerifiedPurchase { user, purchase_amount, savings_amount } => {
            Outcome::LoyaltyBadgeUpdated(
                LoyaltyBadgeUpdated {
                    user,
                    tier: granted(s, op, now).badges[user].tier,
                    points: granted(s, op, now).badges[user].points,
                },
            )
        },
    }
}

/// A request together with the time at which it is made.
pub struct Timed {
    pub op: Operation,
    pub now: i64,
}

/// The ledger after each of `requests` was asked of the ledger `s`, in order.
pub open spec fn run(s: LedgerView, requests: Seq<Timed>) -> LedgerView
    decreases requests.len(),
{
    if requests.len() == 0 {
        s
    } else {
        step(run(s, requests.drop_last()), requests.last().op, requests.last().now)
    }
}

} // verus!
