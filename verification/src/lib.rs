//! A transactional ledger for a marketplace of merchant-issued deal coupons.
//!
//! Merchants register and issue coupons; buyers purchase them, redeem them
//! exactly once and may review them; loyalty status accrues from purchases.
//!
//! The crate has two layers. The functions of [`merchant`], [`coupon`],
//! [`purchase`], [`redemption`], [`review`] and [`loyalty`] each work on the
//! few records that one operation touches: they check every condition, then
//! change the records, then say what the host must do (move an asset, publish
//! a notification), or they name the first violated condition and change
//! nothing. A [`Ledger`] holds all the records of a marketplace, each kind in
//! a [`Table`] under the key that its identity derives from, and offers the
//! same operations by key.
//!
//! [`model`] says what a ledger is as a mathematical object and what each
//! operation makes of it, [`operation`] turns the operations into values that
//! can be asked one after another, and [`history`] proves what holds of a
//! ledger after any sequence of them.
//!
//! The host supplies the time, authenticates callers, and carries out asset
//! transfers and burns; nothing in the crate reads a clock or moves an asset.

pub mod coupon;
pub mod error;
pub mod events;
pub mod history;
pub mod identity;
pub mod ledger;
pub mod limits;
pub mod loyalty;
pub mod merchant;
pub mod model;
pub mod operation;
pub mod purchase;
pub mod records;
pub mod redemption;
pub mod review;
pub mod table;
pub mod validation;

pub use coupon::{
    close_expired_coupon, create_coupon, update_coupon_status, CloseExpiredCoupon, CreateCoupon,
    UpdateCouponStatus,
};
pub use error::{ErrorCode, ErrorKind};
pub use events::{
    BurnRequest, CouponClosed, CouponCreated, CouponPurchased, CouponRedeemed,
    CouponStatusUpdated, LoyaltyBadgeCreated, LoyaltyBadgeUpdated, MerchantInitialized,
    MerchantPauseToggled, PurchaseReceipt, RedemptionReceipt, ReviewSubmitted, TransferRequest,
};
pub use identity::Identity;
pub use ledger::Ledger;
pub use loyalty::{
    initialize_loyalty_badge, update_loyalty_badge, InitializeLoyaltyBadge, UpdateLoyaltyBadge,
};
pub use merchant::{
    initialize_merchant, toggle_merchant_pause, InitializeMerchant, ToggleMerchantPause,
};
pub use operation::{Operation, Outcome};
pub use purchase::{purchase_coupon, PurchaseCoupon};
pub use records::{
    Coupon, CouponCategory, LoyaltyBadge, LoyaltyTier, Merchant, Mint, RedemptionRecord, Review,
    TokenAccount,
};
pub use redemption::{redeem_coupon, BurnPolicy, RedeemCoupon};
pub use review::{submit_review, SubmitReview};
pub use table::{Keyed, Table};
pub use validation::{is_valid_uri, is_valid_utf8};
