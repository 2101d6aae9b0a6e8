use dealchain::{
    BurnPolicy, BurnRequest, CouponCategory, CouponClosed, ErrorCode, ErrorKind, Identity, Ledger,
    LoyaltyTier, Mint, Operation, Outcome, RedemptionRecord, TokenAccount, TransferRequest,
};

const NOW: i64 = 1_700_000_000;
const DAY: i64 = 86_400;

fn id(n: u8) -> Identity {
    Identity::new([n; 32])
}

fn acme() -> Identity {
    id(1)
}

fn deal() -> Identity {
    id(9)
}

fn wallet(owner: Identity, amount: u64) -> TokenAccount {
    TokenAccount { mint: id(200), owner, amount }
}

fn unit_of(mint: Identity, owner: Identity, amount: u64) -> TokenAccount {
    TokenAccount { mint, owner, amount }
}

fn with_acme() -> Ledger {
    let mut ledger = Ledger::new();
    ledger
        .register_merchant(acme(), "Acme".to_string(), "Anvils".to_string(), NOW)
        .unwrap();
    ledger
}

fn with_deal() -> Ledger {
    let mut ledger = with_acme();
    ledger
        .create_coupon(
            &acme(),
            acme(),
            Mint { key: deal(), freeze_authority: None },
            20,
            0,
            5000,
            NOW + 2 * DAY,
            2,
            CouponCategory::Food,
            true,
            "ipfs://deal".to_string(),
            NOW,
        )
        .unwrap();
    ledger
}

#[test]
fn a_new_ledger_holds_nothing() {
    let ledger = Ledger::new();
    assert!(ledger.merchant(&acme()).is_none());
    assert!(ledger.coupon(&deal()).is_none());
    assert!(ledger.redemption(&deal(), &id(5)).is_none());
    assert!(ledger.review(&deal(), &id(5)).is_none());
    assert!(ledger.loyalty_badge(&id(5)).is_none());
}

#[test]
fn scenario_two_units_sell_and_the_third_is_sold_out() {
    let mut ledger = with_deal();
    let merchant = ledger.merchant(&acme()).unwrap();
    assert_eq!(merchant.name, "Acme");
    assert_eq!(merchant.total_coupons_created, 1);
    let coupon = ledger.coupon(&deal()).unwrap();
    assert_eq!(coupon.price, 5000);
    assert_eq!(coupon.max_redemptions, 2);
    assert_eq!(coupon.total_purchases, 0);

    let first = ledger.purchase(&deal(), id(5), wallet(id(5), 10_000), NOW + 1).unwrap();
    assert_eq!(first.transfer, TransferRequest { from: id(5), to: acme(), amount: 5000 });
    assert_eq!(first.event.price, 5000);
    assert!(ledger.purchase(&deal(), id(6), wallet(id(6), 5000), NOW + 2).is_ok());
    assert_eq!(ledger.coupon(&deal()).unwrap().total_purchases, 2);
    assert_eq!(ledger.merchant(&acme()).unwrap().total_revenue, 10_000);

    let third = ledger.purchase(&deal(), id(7), wallet(id(7), 5000), NOW + 3);
    assert_eq!(third, Err(ErrorCode::SoldOut));
    assert_eq!(ledger.coupon(&deal()).unwrap().total_purchases, 2);
    assert_eq!(ledger.merchant(&acme()).unwrap().total_revenue, 10_000);
}

#[test]
fn scenario_a_user_redeems_a_coupon_once() {
    let mut ledger = with_deal();
    ledger.purchase(&deal(), id(5), wallet(id(5), 5000), NOW + 1).unwrap();
    let receipt = ledger
        .redeem(&deal(), id(5), unit_of(deal(), id(5), 1), BurnPolicy::Burn, NOW + 2)
        .unwrap();
    assert_eq!(receipt.burn, Some(BurnRequest { holder: id(5), mint: deal(), amount: 1 }));
    assert_eq!(receipt.event.merchant, acme());
    assert_eq!(ledger.coupon(&deal()).unwrap().current_redemptions, 1);
    assert_eq!(
        ledger.redemption(&deal(), &id(5)),
        Some(&RedemptionRecord { coupon: deal(), user: id(5), timestamp: NOW + 2 })
    );

    let again = ledger.redeem(&deal(), id(5), unit_of(deal(), id(5), 1), BurnPolicy::Burn, NOW + 3);
    assert_eq!(again, Err(ErrorCode::DuplicateRedemption));
    assert_eq!(again.unwrap_err().kind(), ErrorKind::State);
    let burnt = ledger.redeem(&deal(), id(5), unit_of(deal(), id(5), 0), BurnPolicy::Burn, NOW + 4);
    assert_eq!(burnt, Err(ErrorCode::DuplicateRedemption));
    assert_eq!(ledger.coupon(&deal()).unwrap().current_redemptions, 1);
    assert_eq!(ledger.merchant(&acme()).unwrap().total_redemptions, 1);
    assert_eq!(ledger.redemption(&deal(), &id(5)).unwrap().timestamp, NOW + 2);

    assert!(ledger
        .redeem(&deal(), id(6), unit_of(deal(), id(6), 1), BurnPolicy::Keep, NOW + 5)
        .is_ok());
    assert_eq!(ledger.coupon(&deal()).unwrap().current_redemptions, 2);
    assert_eq!(
        ledger.redeem(&deal(), id(7), unit_of(deal(), id(7), 1), BurnPolicy::Keep, NOW + 6),
        Err(ErrorCode::AllRedemptionsUsed)
    );
}

#[test]
fn scenario_a_review_needs_a_valid_rating_and_proof() {
    let mut ledger = with_deal();
    ledger.purchase(&deal(), id(5), wallet(id(5), 5000), NOW + 1).unwrap();

    let r = ledger.submit_review(&deal(), id(5), unit_of(deal(), id(5), 1), 6, "ok".to_string(), NOW + 2);
    assert_eq!(r, Err(ErrorCode::InvalidRating));
    assert_eq!(r.unwrap_err().kind(), ErrorKind::Validation);

    let r = ledger.submit_review(&deal(), id(8), unit_of(deal(), id(8), 0), 3, "ok".to_string(), NOW + 2);
    assert_eq!(r, Err(ErrorCode::MustOwnCouponToReview));
    assert_eq!(ledger.merchant(&acme()).unwrap().rating_sum, 0);
    assert_eq!(ledger.merchant(&acme()).unwrap().rating_count, 0);
    assert!(ledger.review(&deal(), &id(8)).is_none());

    let event = ledger
        .submit_review(&deal(), id(5), unit_of(deal(), id(5), 1), 3, "ok".to_string(), NOW + 3)
        .unwrap();
    assert_eq!(event.rating, 3);
    assert_eq!(ledger.merchant(&acme()).unwrap().rating_sum, 3);
    assert_eq!(ledger.merchant(&acme()).unwrap().rating_count, 1);
    let review = ledger.review(&deal(), &id(5)).unwrap();
    assert_eq!(review.rating, 3);
    assert_eq!(review.comment, "ok");
    assert_eq!(review.timestamp, NOW + 3);

    let again =
        ledger.submit_review(&deal(), id(5), unit_of(deal(), id(5), 1), 5, "!".to_string(), NOW + 4);
    assert_eq!(again, Err(ErrorCode::DuplicateReview));
    assert_eq!(ledger.merchant(&acme()).unwrap().rating_sum, 3);
    assert_eq!(ledger.merchant(&acme()).unwrap().rating_count, 1);
    assert_eq!(ledger.review(&deal(), &id(5)).unwrap().rating, 3);
}

#[test]
fn a_user_who_redeemed_and_holds_nothing_may_still_review() {
    let mut ledger = with_deal();
    ledger.purchase(&deal(), id(5), wallet(id(5), 5000), NOW + 1).unwrap();
    ledger.redeem(&deal(), id(5), unit_of(deal(), id(5), 1), BurnPolicy::Burn, NOW + 2).unwrap();
    assert!(ledger
        .submit_review(&deal(), id(5), unit_of(deal(), id(5), 0), 4, "used it".to_string(), NOW + 3)
        .is_ok());
    assert_eq!(ledger.merchant(&acme()).unwrap().rating_sum, 4);
}

#[test]
fn scenario_points_accrue_and_lift_the_tier() {
    let mut ledger = Ledger::new();
    assert_eq!(
        ledger.on_verified_purchase(id(5), 1_000_000, 0),
        Err(ErrorCode::LoyaltyBadgeNotFound)
    );
    ledger.initialize_loyalty_badge(id(5), NOW).unwrap();
    assert_eq!(ledger.loyalty_badge(&id(5)).unwrap().tier, LoyaltyTier::Bronze);
    ledger.on_verified_purchase(id(5), 50_000_000, 10).unwrap();
    assert_eq!(ledger.loyalty_badge(&id(5)).unwrap().points, 50);
    assert_eq!(ledger.loyalty_badge(&id(5)).unwrap().tier, LoyaltyTier::Bronze);
    let event = ledger.on_verified_purchase(id(5), 600_000_000, 0).unwrap();
    assert_eq!(event.points, 650);
    assert_eq!(event.tier, LoyaltyTier::Gold);
    let badge = ledger.loyalty_badge(&id(5)).unwrap();
    assert_eq!(badge.points, 650);
    assert_eq!(badge.tier, LoyaltyTier::Gold);
    assert_eq!(badge.deals_purchased, 2);
    assert_eq!(badge.total_saved, 10);
    assert_eq!(
        ledger.initialize_loyalty_badge(id(5), NOW + 1),
        Err(ErrorCode::LoyaltyBadgeAlreadyExists)
    );
    assert_eq!(ledger.loyalty_badge(&id(5)).unwrap().points, 650);
}

#[test]
fn a_merchant_registers_once() {
    let mut ledger = with_acme();
    assert_eq!(
        ledger.register_merchant(acme(), "Again".to_string(), String::new(), NOW + 1),
        Err(ErrorCode::MerchantAlreadyExists)
    );
    assert_eq!(ledger.merchant(&acme()).unwrap().name, "Acme");
    assert!(ledger.register_merchant(id(2), "Other".to_string(), String::new(), NOW + 1).is_ok());
    assert_eq!(ledger.merchant(&id(2)).unwrap().name, "Other");
    assert_eq!(ledger.merchant(&acme()).unwrap().name, "Acme");
    assert_eq!(
        ledger.register_merchant(id(3), String::new(), String::new(), NOW),
        Err(ErrorCode::NameEmpty)
    );
    assert!(ledger.merchant(&id(3)).is_none());
}

#[test]
fn a_pause_stops_sales_and_redemptions_until_it_is_lifted() {
    let mut ledger = with_deal();
    ledger.purchase(&deal(), id(5), wallet(id(5), 5000), NOW + 1).unwrap();
    assert_eq!(ledger.toggle_pause(&acme(), id(5), NOW + 2), Err(ErrorCode::Unauthorized));
    assert_eq!(ledger.toggle_pause(&id(3), id(3), NOW + 2), Err(ErrorCode::MerchantNotFound));
    let event = ledger.toggle_pause(&acme(), acme(), NOW + 2).unwrap();
    assert!(event.is_paused);
    assert!(ledger.merchant(&acme()).unwrap().is_paused);
    assert_eq!(
        ledger.purchase(&deal(), id(6), wallet(id(6), 5000), NOW + 3),
        Err(ErrorCode::MerchantPaused)
    );
    assert_eq!(
        ledger.redeem(&deal(), id(5), unit_of(deal(), id(5), 1), BurnPolicy::Burn, NOW + 3),
        Err(ErrorCode::MerchantPaused)
    );
    assert_eq!(
        ledger.create_coupon(
            &acme(),
            acme(),
            Mint { key: id(10), freeze_authority: None },
            20,
            0,
            5000,
            NOW + 2 * DAY,
            2,
            CouponCategory::Food,
            true,
            "ipfs://other".to_string(),
            NOW + 3,
        ),
        Err(ErrorCode::MerchantPaused)
    );
    let event = ledger.toggle_pause(&acme(), acme(), NOW + 4).unwrap();
    assert!(!event.is_paused);
    assert!(ledger.purchase(&deal(), id(6), wallet(id(6), 5000), NOW + 5).is_ok());
}

#[test]
fn switching_a_coupon_off_stops_sales_only() {
    let mut ledger = with_deal();
    assert_eq!(
        ledger.set_coupon_active(&deal(), id(5), false, NOW + 1),
        Err(ErrorCode::Unauthorized)
    );
    assert_eq!(
        ledger.set_coupon_active(&id(10), acme(), false, NOW + 1),
        Err(ErrorCode::CouponNotFound)
    );
    let event = ledger.set_coupon_active(&deal(), acme(), false, NOW + 1).unwrap();
    assert!(!event.is_active);
    let coupon = ledger.coupon(&deal()).unwrap();
    assert!(!coupon.is_active);
    assert_eq!(coupon.price, 5000);
    assert_eq!(coupon.total_purchases, 0);
    assert_eq!(
        ledger.purchase(&deal(), id(5), wallet(id(5), 5000), NOW + 2),
        Err(ErrorCode::CouponInactive)
    );
    ledger.set_coupon_active(&deal(), acme(), true, NOW + 3).unwrap();
    assert!(ledger.purchase(&deal(), id(5), wallet(id(5), 5000), NOW + 4).is_ok());
}

#[test]
fn a_coupon_is_created_by_a_registered_merchant_for_a_fresh_asset_type() {
    let mut ledger = with_deal();
    let again = ledger.create_coupon(
        &acme(),
        acme(),
        Mint { key: deal(), freeze_authority: None },
        20,
        0,
        7000,
        NOW + 2 * DAY,
        2,
        CouponCategory::Food,
        true,
        "ipfs://deal".to_string(),
        NOW,
    );
    assert_eq!(again, Err(ErrorCode::CouponAlreadyExists));
    assert_eq!(ledger.coupon(&deal()).unwrap().price, 5000);
    assert_eq!(ledger.merchant(&acme()).unwrap().total_coupons_created, 1);

    let unknown = ledger.create_coupon(
        &id(3),
        id(3),
        Mint { key: id(10), freeze_authority: None },
        20,
        0,
        7000,
        NOW + 2 * DAY,
        2,
        CouponCategory::Food,
        true,
        "ipfs://deal".to_string(),
        NOW,
    );
    assert_eq!(unknown, Err(ErrorCode::MerchantNotFound));

    let intruder = ledger.create_coupon(
        &acme(),
        id(3),
        Mint { key: id(10), freeze_authority: None },
        20,
        0,
        7000,
        NOW + 2 * DAY,
        2,
        CouponCategory::Food,
        true,
        "ipfs://deal".to_string(),
        NOW,
    );
    assert_eq!(intruder, Err(ErrorCode::Unauthorized));
    assert!(ledger.coupon(&id(10)).is_none());
}

#[test]
fn a_coupon_is_closed_after_the_grace_period_and_then_it_is_gone() {
    let mut ledger = with_deal();
    ledger.purchase(&deal(), id(5), wallet(id(5), 5000), NOW + 1).unwrap();
    ledger.redeem(&deal(), id(5), unit_of(deal(), id(5), 1), BurnPolicy::Keep, NOW + 2).unwrap();
    let expiry = NOW + 2 * DAY;
    assert_eq!(
        ledger.close_expired_coupon(&deal(), acme(), expiry + DAY),
        Err(ErrorCode::CouponNotExpiredYet)
    );
    assert!(ledger.coupon(&deal()).is_some());
    assert_eq!(
        ledger.close_expired_coupon(&deal(), id(5), expiry + DAY + 1),
        Err(ErrorCode::Unauthorized)
    );
    assert_eq!(
        ledger.close_expired_coupon(&deal(), acme(), expiry + DAY + 1),
        Ok(CouponClosed { coupon: deal(), refund_to: acme(), timestamp: expiry + DAY + 1 })
    );
    assert!(ledger.coupon(&deal()).is_none());
    assert_eq!(
        ledger.close_expired_coupon(&deal(), acme(), expiry + DAY + 2),
        Err(ErrorCode::CouponNotFound)
    );
    assert_eq!(ledger.merchant(&acme()).unwrap().total_revenue, 5000);
    assert!(ledger.redemption(&deal(), &id(5)).is_some());
    assert_eq!(
        ledger.redeem(&deal(), id(5), unit_of(deal(), id(5), 1), BurnPolicy::Keep, expiry + 3 * DAY),
        Err(ErrorCode::DuplicateRedemption)
    );
    assert_eq!(
        ledger.redeem(&deal(), id(6), unit_of(deal(), id(6), 1), BurnPolicy::Keep, expiry + 3 * DAY),
        Err(ErrorCode::CouponNotFound)
    );
    assert_eq!(
        ledger.purchase(&deal(), id(6), wallet(id(6), 5000), NOW),
        Err(ErrorCode::CouponNotFound)
    );
}

#[test]
fn a_refused_request_changes_nothing() {
    let mut ledger = with_deal();
    ledger.purchase(&deal(), id(5), wallet(id(5), 5000), NOW + 1).unwrap();
    let merchant = ledger.merchant(&acme()).unwrap().clone();
    let coupon = ledger.coupon(&deal()).unwrap().clone();
    assert!(ledger.purchase(&deal(), id(6), wallet(id(6), 4999), NOW + 2).is_err());
    assert!(ledger.purchase(&deal(), id(6), wallet(id(6), 5000), NOW + 3 * DAY).is_err());
    assert!(ledger
        .redeem(&deal(), id(6), unit_of(deal(), id(6), 2), BurnPolicy::Burn, NOW + 2)
        .is_err());
    assert!(ledger
        .redeem(&deal(), id(6), unit_of(id(10), id(6), 1), BurnPolicy::Burn, NOW + 2)
        .is_err());
    assert!(ledger
        .submit_review(&deal(), id(6), unit_of(deal(), id(6), 0), 3, String::new(), NOW + 2)
        .is_err());
    assert!(ledger.close_expired_coupon(&deal(), acme(), NOW + 2).is_err());
    assert_eq!(ledger.merchant(&acme()).unwrap(), &merchant);
    assert_eq!(ledger.coupon(&deal()).unwrap(), &coupon);
    assert!(ledger.redemption(&deal(), &id(6)).is_none());
    assert!(ledger.review(&deal(), &id(6)).is_none());
}

#[test]
fn counters_stay_within_the_limit_whatever_is_asked() {
    let mut ledger = with_deal();
    for round in 0..6u8 {
        let user = id(50 + round);
        let now = NOW + 10 + round as i64;
        let _ = ledger.purchase(&deal(), user, wallet(user, 5000), now);
        let _ = ledger.redeem(&deal(), user, unit_of(deal(), user, 1), BurnPolicy::Burn, now);
        let _ = ledger.redeem(&deal(), user, unit_of(deal(), user, 1), BurnPolicy::Burn, now);
        let _ = ledger.set_coupon_active(&deal(), acme(), round % 2 == 0, now);
        let coupon = ledger.coupon(&deal()).unwrap();
        assert!(coupon.total_purchases <= coupon.max_redemptions);
        assert!(coupon.current_redemptions <= coupon.max_redemptions);
    }
    let coupon = ledger.coupon(&deal()).unwrap();
    assert_eq!(coupon.total_purchases, 2);
    assert_eq!(coupon.current_redemptions, 2);
    assert_eq!(ledger.merchant(&acme()).unwrap().total_revenue, 10_000);
    assert_eq!(ledger.merchant(&acme()).unwrap().total_redemptions, 2);
}

#[test]
fn requests_can_be_asked_as_values() {
    let mut ledger = Ledger::new();
    let registered = ledger
        .apply(
            Operation::RegisterMerchant {
                authority: acme(),
                name: "Acme".to_string(),
                description: String::new(),
            },
            NOW,
        )
        .unwrap();
    assert!(matches!(registered, Outcome::MerchantInitialized(e) if e.authority == acme()));
    let created = ledger.apply(
        Operation::CreateCoupon {
            merchant: acme(),
            caller: acme(),
            mint: Mint { key: deal(), freeze_authority: None },
            discount_percent: 20,
            discount_fixed: 0,
            price: 5000,
            expiry_timestamp: NOW + 2 * DAY,
            max_redemptions: 1,
            category: CouponCategory::Services,
            is_transferable: false,
            metadata_uri: "https://example.com/deal".to_string(),
        },
        NOW,
    );
    assert!(matches!(created, Ok(Outcome::CouponCreated(e)) if e.price == 5000));
    let bought = ledger.apply(
        Operation::Purchase {
            coupon: deal(),
            buyer: id(5),
            buyer_token_account: wallet(id(5), 5000),
        },
        NOW + 1,
    );
    assert!(matches!(bought, Ok(Outcome::Purchased(r)) if r.transfer.amount == 5000));
    let sold_out = ledger.apply(
        Operation::Purchase {
            coupon: deal(),
            buyer: id(6),
            buyer_token_account: wallet(id(6), 5000),
        },
        NOW + 2,
    );
    assert_eq!(sold_out, Err(ErrorCode::SoldOut));
    let redeemed = ledger.apply(
        Operation::Redeem {
            coupon: deal(),
            user: id(5),
            user_nft_account: unit_of(deal(), id(5), 1),
            policy: BurnPolicy::Keep,
        },
        NOW + 3,
    );
    assert!(matches!(redeemed, Ok(Outcome::Redeemed(r)) if r.burn.is_none()));
    let reviewed = ledger.apply(
        Operation::SubmitReview {
            coupon: deal(),
            user: id(5),
            user_nft_account: unit_of(deal(), id(5), 1),
            rating: 5,
            comment: "great".to_string(),
        },
        NOW + 4,
    );
    assert!(matches!(reviewed, Ok(Outcome::ReviewSubmitted(e)) if e.rating == 5));
    assert!(matches!(
        ledger.apply(Operation::TogglePause { merchant: acme(), caller: acme() }, NOW + 5),
        Ok(Outcome::MerchantPauseToggled(e)) if e.is_paused
    ));
    assert!(matches!(
        ledger.apply(
            Operation::SetCouponActive { coupon: deal(), caller: acme(), is_active: false },
            NOW + 5
        ),
        Ok(Outcome::CouponStatusUpdated(e)) if !e.is_active
    ));
    assert!(matches!(
        ledger.apply(Operation::InitializeLoyaltyBadge { user: id(5) }, NOW + 6),
        Ok(Outcome::LoyaltyBadgeCreated(e)) if e.user == id(5)
    ));
    assert!(matches!(
        ledger.apply(
            Operation::OnVerifiedPurchase {
                user: id(5),
                purchase_amount: 100_000_000,
                savings_amount: 1000
            },
            NOW + 6
        ),
        Ok(Outcome::LoyaltyBadgeUpdated(e)) if e.points == 100 && e.tier == LoyaltyTier::Silver
    ));
    assert!(matches!(
        ledger.apply(
            Operation::CloseExpiredCoupon { coupon: deal(), caller: acme() },
            NOW + 3 * DAY + 1
        ),
        Ok(Outcome::CouponClosed(e)) if e.refund_to == acme()
    ));
    assert!(ledger.coupon(&deal()).is_none());
    assert_eq!(ledger.merchant(&acme()).unwrap().rating_sum, 5);
}
