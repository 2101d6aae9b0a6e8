use dealchain::{
    redeem_coupon, BurnPolicy, BurnRequest, Coupon, CouponCategory, CouponRedeemed, ErrorCode,
    ErrorKind, Identity, Merchant, RedeemCoupon, RedemptionReceipt, RedemptionRecord,
    TokenAccount,
};

const NOW: i64 = 1_700_000_000;

fn who(n: u8) -> Identity {
    Identity::new([n; 32])
}

fn honouring() -> Merchant {
    Merchant {
        authority: who(1),
        name: "Acme".to_string(),
        description: String::new(),
        total_coupons_created: 1,
        total_redemptions: 0,
        total_revenue: 5000,
        rating_sum: 0,
        rating_count: 0,
        is_verified: false,
        is_paused: false,
        created_at: 0,
    }
}

fn bought() -> Coupon {
    Coupon {
        mint: who(9),
        merchant: who(1),
        discount_percent: 20,
        discount_fixed: 0,
        price: 5000,
        expiry_timestamp: NOW + 172_800,
        max_redemptions: 2,
        current_redemptions: 0,
        category: CouponCategory::Health,
        is_transferable: true,
        is_active: true,
        metadata_uri: "ipfs://meta".to_string(),
        created_at: NOW,
        total_purchases: 1,
    }
}

fn claim() -> RedeemCoupon {
    RedeemCoupon {
        coupon: bought(),
        merchant: honouring(),
        user: who(5),
        user_nft_account: TokenAccount { mint: who(9), owner: who(5), amount: 1 },
        redemption_record: None,
    }
}

#[test]
fn a_redemption_counts_on_both_sides_and_leaves_a_record() {
    let mut ctx = claim();
    let receipt = redeem_coupon(&mut ctx, BurnPolicy::Burn, NOW + 20).unwrap();
    assert_eq!(
        receipt,
        RedemptionReceipt {
            burn: Some(BurnRequest { holder: who(5), mint: who(9), amount: 1 }),
            event: CouponRedeemed {
                coupon: who(9),
                user: who(5),
                merchant: who(1),
                timestamp: NOW + 20
            },
        }
    );
    let mut used = bought();
    used.current_redemptions = 1;
    let mut counted = honouring();
    counted.total_redemptions = 1;
    assert_eq!(ctx.coupon, used);
    assert_eq!(ctx.merchant, counted);
    assert_eq!(
        ctx.redemption_record,
        Some(RedemptionRecord { coupon: who(9), user: who(5), timestamp: NOW + 20 })
    );
}

#[test]
fn a_redemption_burns_nothing_where_the_policy_keeps_the_asset() {
    let mut ctx = claim();
    let receipt = redeem_coupon(&mut ctx, BurnPolicy::Keep, NOW).unwrap();
    assert_eq!(receipt.burn, None);
    assert_eq!(receipt.event.user, who(5));
    assert_eq!(ctx.coupon.current_redemptions, 1);
    assert!(ctx.redemption_record.is_some());
}

#[test]
fn a_second_redemption_by_the_same_user_is_a_duplicate() {
    let mut ctx = claim();
    redeem_coupon(&mut ctx, BurnPolicy::Keep, NOW).unwrap();
    let r = redeem_coupon(&mut ctx, BurnPolicy::Keep, NOW + 1);
    assert_eq!(r, Err(ErrorCode::DuplicateRedemption));
    assert_eq!(r.unwrap_err().kind(), ErrorKind::State);
    assert_eq!(ctx.coupon.current_redemptions, 1);
    assert_eq!(ctx.merchant.total_redemptions, 1);
    assert_eq!(
        ctx.redemption_record,
        Some(RedemptionRecord { coupon: who(9), user: who(5), timestamp: NOW })
    );
}

#[test]
fn a_duplicate_is_reported_before_anything_else() {
    let mut ctx = claim();
    ctx.redemption_record = Some(RedemptionRecord { coupon: who(9), user: who(5), timestamp: 1 });
    ctx.coupon.is_active = false;
    ctx.merchant.is_paused = true;
    ctx.user_nft_account.amount = 0;
    ctx.merchant.total_redemptions = u32::MAX;
    assert_eq!(
        redeem_coupon(&mut ctx, BurnPolicy::Burn, i64::MAX),
        Err(ErrorCode::DuplicateRedemption)
    );
}

#[test]
fn the_first_violated_condition_of_a_redemption_is_reported() {
    let late = bought().expiry_timestamp;
    let mut ctx = claim();
    ctx.coupon.is_active = false;
    ctx.merchant.is_paused = true;
    ctx.coupon.current_redemptions = 2;
    ctx.user_nft_account = TokenAccount { mint: who(8), owner: who(6), amount: 2 };
    ctx.merchant.total_redemptions = u32::MAX;
    assert_eq!(redeem_coupon(&mut ctx, BurnPolicy::Burn, late), Err(ErrorCode::CouponInactive));
    ctx.coupon.is_active = true;
    assert_eq!(redeem_coupon(&mut ctx, BurnPolicy::Burn, late), Err(ErrorCode::MerchantPaused));
    ctx.merchant.is_paused = false;
    assert_eq!(redeem_coupon(&mut ctx, BurnPolicy::Burn, late), Err(ErrorCode::CouponExpired));
    assert_eq!(
        redeem_coupon(&mut ctx, BurnPolicy::Burn, late - 1),
        Err(ErrorCode::AllRedemptionsUsed)
    );
    ctx.coupon.current_redemptions = 1;
    assert_eq!(
        redeem_coupon(&mut ctx, BurnPolicy::Burn, late - 1),
        Err(ErrorCode::InvalidNFTAmount)
    );
    ctx.user_nft_account.amount = 1;
    assert_eq!(redeem_coupon(&mut ctx, BurnPolicy::Burn, late - 1), Err(ErrorCode::WrongNFT));
    ctx.user_nft_account.mint = who(9);
    assert_eq!(
        redeem_coupon(&mut ctx, BurnPolicy::Burn, late - 1),
        Err(ErrorCode::UserDoesNotOwnNFT)
    );
    ctx.user_nft_account.owner = who(5);
    assert_eq!(
        redeem_coupon(&mut ctx, BurnPolicy::Burn, late - 1),
        Err(ErrorCode::ArithmeticOverflow)
    );
    assert_eq!(ctx.coupon.current_redemptions, 1);
    assert_eq!(ctx.redemption_record, None);
    ctx.merchant.total_redemptions = u32::MAX - 1;
    assert!(redeem_coupon(&mut ctx, BurnPolicy::Burn, late - 1).is_ok());
    assert_eq!(ctx.merchant.total_redemptions, u32::MAX);
    assert_eq!(ctx.coupon.current_redemptions, 2);
}

#[test]
fn the_proof_of_ownership_is_exactly_one_unit() {
    for amount in [0u64, 2, 3, u64::MAX] {
        let mut ctx = claim();
        ctx.user_nft_account.amount = amount;
        let r = redeem_coupon(&mut ctx, BurnPolicy::Burn, NOW);
        assert_eq!(r, Err(ErrorCode::InvalidNFTAmount));
        assert_eq!(r.unwrap_err().kind(), ErrorKind::Authorization);
        assert_eq!(ctx, {
            let mut same = claim();
            same.user_nft_account.amount = amount;
            same
        });
    }
}

#[test]
fn an_overflow_of_the_merchant_leaves_the_coupon_untouched() {
    let mut ctx = claim();
    ctx.merchant.total_redemptions = u32::MAX;
    let r = redeem_coupon(&mut ctx, BurnPolicy::Keep, NOW);
    assert_eq!(r, Err(ErrorCode::ArithmeticOverflow));
    assert_eq!(ctx.coupon, bought());
    assert_eq!(ctx.merchant.total_redemptions, u32::MAX);
    assert_eq!(ctx.redemption_record, None);
}

#[test]
fn redemptions_never_pass_the_number_of_units_offered() {
    let mut coupon = bought();
    let mut merchant = honouring();
    let mut granted = 0;
    for n in 0..10u8 {
        let mut ctx = RedeemCoupon {
            coupon,
            merchant,
            user: who(100 + n),
            user_nft_account: TokenAccount { mint: who(9), owner: who(100 + n), amount: 1 },
            redemption_record: None,
        };
        let r = redeem_coupon(&mut ctx, BurnPolicy::Burn, NOW);
        if r.is_ok() {
            granted += 1;
        } else {
            assert_eq!(r, Err(ErrorCode::AllRedemptionsUsed));
        }
        assert!(ctx.coupon.current_redemptions <= ctx.coupon.max_redemptions);
        coupon = ctx.coupon;
        merchant = ctx.merchant;
    }
    assert_eq!(granted, 2);
    assert_eq!(coupon.current_redemptions, 2);
    assert_eq!(merchant.total_redemptions, 2);
}
