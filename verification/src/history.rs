//! What holds of a ledger whatever was asked of it, in whatever order.

use vstd::prelude::*;
use crate::error::ErrorCode;
use crate::identity::Identity;
use crate::limits::GRACE_PERIOD;
use crate::model::LedgerView;
use crate::operation::{rejection, run, step, Operation, Timed};
use crate::purchase::sold_one;
use crate::records::Merchant;
use crate::redemption::redeemed_one;

verus! {

/// A request, granted or refused, leaves a consistent ledger consistent.
pub proof fn lemma_step_consistent(s: LedgerView, op: Operation, now: i64)
    requires
        s.consistent(),
    ensures
        step(s, op, now).consistent(),
{
    if rejection(s, op, now) is None {
        match op {
            Operation::RegisterMerchant { authority, name, description } => {
                s.lemma_with_merchant(crate::merchant::registered(authority, name, description, now));
            },
            Operation::TogglePause { merchant, caller } => {
                s.lemma_with_merchant(crate::merchant::pause_flipped(s.merchants[merchant]));
            },
            Operation::CreateCoupon {
                merchant,
                caller,
                mint,
                discount_percent,
                discount_fixed,
                price,
                expiry_timestamp,
                max_redemptions,
                category,
                is_transferable,
                metadata_uri,
            } => {
                let coupon = crate::coupon::issued(
                    mint.key,
                    s.merchants[merchant].authority,
                    discount_percent,
                    discount_fixed,
                    price,
                    expiry_timestamp,
                    max_redemptions,
                    category,
                    is_transferable,
                    metadata_uri,
                    now,
                );
                s.lemma_with_coupon(coupon);
                s.with_coupon(coupon).lemma_with_merchant(
                    crate::coupon::issued_one(s.merchants[merchant]),
                );
            },
            Operation::SetCouponActive { coupon: mint, caller, is_active } => {
                s.lemma_with_coupon(crate::coupon::switched(s.coupons[mint], is_active));
            },
            Operation::CloseExpiredCoupon { coupon: mint, caller } => {
                s.lemma_without_coupon(mint);
            },
            Operation::Purchase { coupon: mint, buyer, buyer_token_account } => {
                let coupon = sold_one(s.coupons[mint]);
                s.lemma_with_coupon(coupon);
                s.with_coupon(coupon).lemma_with_merchant(
                    crate::purchase::credited(s.issuer(mint), s.coupons[mint].price),
                );
            },
            Operation::Redeem { coupon: mint, user, user_nft_account, policy } => {
                let coupon = redeemed_one(s.coupons[mint]);
                let merchant = crate::redemption::honoured_one(s.issuer(mint));
                s.lemma_with_coupon(coupon);
                s.with_coupon(coupon).lemma_with_merchant(merchant);
                s.with_coupon(coupon).with_merchant(merchant).lemma_with_redemption(
                    crate::records::RedemptionRecord {
                        coupon: s.coupons[mint].mint,
                        user,
                        timestamp: now,
                    },
                );
            },
            Operation::SubmitReview { coupon: mint, user, user_nft_account, rating, comment } => {
                let review = crate::records::Review {
                    coupon: s.coupons[mint].mint,
                    user,
                    rating,
                    comment,
                    timestamp: now,
                };
                s.lemma_with_review(review);
                s.with_review(review).lemma_with_merchant(
                    crate::review::rated(s.issuer(mint), rating),
                );
            },
            Operation::InitializeLoyaltyBadge { user } => {
                s.lemma_with_badge(crate::loyalty::fresh_badge(user));
            },
            Operation::OnVerifiedPurchase { user, purchase_amount, savings_amount } => {
                s.lemma_with_badge(
                    crate::loyalty::rewarded(s.badges[user], purchase_amount, savings_amount),
                );
            },
        }
    }
}

/// Any sequence of requests leaves a consistent ledger consistent.
pub proof fn lemma_run_consistent(s: LedgerView, requests: Seq<Timed>)
    requires
        s.consistent(),
    ensures
        run(s, requests).consistent(),
    decreases requests.len(),
{
    if requests.len() > 0 {
        lemma_run_consistent(s, requests.drop_last());
        lemma_step_consistent(run(s, requests.drop_last()), requests.last().op, requests.last().now);
    }
}

/// Whatever was asked of a ledger that started empty, no coupon in it has sold
/// more units than it offers, and none has had more units redeemed than it
/// offers.
pub proof fn lemma_counters_never_pass_the_limit(requests: Seq<Timed>, mint: Identity)
    requires
        run(LedgerView::empty(), requests).coupons.contains_key(mint),
    ensures
        run(LedgerView::empty(), requests).coupons[mint].total_purchases <= run(
            LedgerView::empty(),
            requests,
        ).coupons[mint].max_redemptions,
        run(LedgerView::empty(), requests).coupons[mint].current_redemptions <= run(
            LedgerView::empty(),
            requests,
        ).coupons[mint].max_redemptions,
{
    lemma_run_consistent(LedgerView::empty(), requests);
}

/// In a consistent ledger no two redemption records are of the same coupon
/// and the same user, and no two reviews are.
pub proof fn lemma_one_record_for_each_pair(
    s: LedgerView,
    a: (Identity, Identity),
    b: (Identity, Identity),
)
    requires
        s.consistent(),
    ensures
        s.redemptions.contains_key(a) && s.redemptions.contains_key(b) && s.redemptions[a].coupon
            == s.redemptions[b].coupon && s.redemptions[a].user == s.redemptions[b].user ==> a
            == b,
        s.reviews.contains_key(a) && s.reviews.contains_key(b) && s.reviews[a].coupon
            == s.reviews[b].coupon && s.reviews[a].user == s.reviews[b].user ==> a == b,
{
}

/// No request removes or changes a redemption record.
pub proof fn lemma_step_keeps_redemptions(
    s: LedgerView,
    op: Operation,
    now: i64,
    pair: (Identity, Identity),
)
    requires
        s.consistent(),
        s.redemptions.contains_key(pair),
    ensures
        step(s, op, now).redemptions.contains_key(pair),
        step(s, op, now).redemptions[pair] == s.redemptions[pair],
{
}

/// No sequence of requests removes or changes a redemption record.
pub proof fn lemma_run_keeps_redemptions(
    s: LedgerView,
    requests: Seq<Timed>,
    pair: (Identity, Identity),
)
    requires
        s.consistent(),
        s.redemptions.contains_key(pair),
    ensures
        run(s, requests).redemptions.contains_key(pair),
        run(s, requests).redemptions[pair] == s.redemptions[pair],
    decreases requests.len(),
{
    if requests.len() > 0 {
        lemma_run_keeps_redemptions(s, requests.drop_last(), pair);
        lemma_run_consistent(s, requests.drop_last());
        lemma_step_keeps_redemptions(
            run(s, requests.drop_last()),
            requests.last().op,
            requests.last().now,
            pair,
        );
    }
}

/// No request removes or changes a review.
pub proof fn lemma_step_keeps_reviews(
    s: LedgerView,
    op: Operation,
    now: i64,
    pair: (Identity, Identity),
)
    requires
        s.consistent(),
        s.reviews.contains_key(pair),
    ensures
        step(s, op, now).reviews.contains_key(pair),
        step(s, op, now).reviews[pair] == s.reviews[pair],
{
}

/// No sequence of requests removes or changes a review.
pub proof fn lemma_run_keeps_reviews(
    s: LedgerView,
    requests: Seq<Timed>,
    pair: (Identity, Identity),
)
    requires
        s.consistent(),
        s.reviews.contains_key(pair),
    ensures
        run(s, requests).reviews.contains_key(pair),
        run(s, requests).reviews[pair] == s.reviews[pair],
    decreases requests.len(),
{
    if requests.len() > 0 {
        lemma_run_keeps_reviews(s, requests.drop_last(), pair);
        lemma_run_consistent(s, requests.drop_last());
        lemma_step_keeps_reviews(
            run(s, requests.drop_last()),
            requests.last().op,
            requests.last().now,
            pair,
        );
    }
}

/// Once a user has redeemed a coupon, every later request of that user to
/// redeem that coupon is refused as a duplicate and changes nothing,
/// whatever was asked of the ledger in between and whatever the user shows.
pub proof fn lemma_second_redemption_is_refused(
    s: LedgerView,
    mint: Identity,
    user: Identity,
    first: Timed,
    between: Seq<Timed>,
    second: Timed,
)
    requires
        s.consistent(),
        first.op matches Operation::Redeem { coupon: m, user: u, .. } && m == mint && u == user,
        second.op matches Operation::Redeem { coupon: m, user: u, .. } && m == mint && u == user,
        rejection(s, first.op, first.now) is None,
    ensures
        rejection(run(step(s, first.op, first.now), between), second.op, second.now) == Some(
            ErrorCode::DuplicateRedemption,
        ),
        step(run(step(s, first.op, first.now), between), second.op, second.now) == run(
            step(s, first.op, first.now),
            between,
        ),
{
    let redeemed = step(s, first.op, first.now);
    lemma_step_consistent(s, first.op, first.now);
    assert(redeemed.redemptions.contains_key((mint, user)));
    lemma_run_keeps_redemptions(redeemed, between, (mint, user));
}

/// Once a user has reviewed a coupon, every later review of that coupon by
/// that user is refused as a duplicate and changes nothing, whatever was
/// asked of the ledger in between and whatever the review says.
pub proof fn lemma_second_review_is_refused(
    s: LedgerView,
    mint: Identity,
    user: Identity,
    first: Timed,
    between: Seq<Timed>,
    second: Timed,
)
    requires
        s.consistent(),
        first.op matches Operation::SubmitReview { coupon: m, user: u, .. } && m == mint && u == user,
        second.op matches Operation::SubmitReview { coupon: m, user: u, .. } && m == mint && u
            == user,
        rejection(s, first.op, first.now) is None,
    ensures
        rejection(run(step(s, first.op, first.now), between), second.op, second.now) == Some(
            ErrorCode::DuplicateReview,
        ),
        step(run(step(s, first.op, first.now), between), second.op, second.now) == run(
            step(s, first.op, first.now),
            between,
        ),
{
    let reviewed = step(s, first.op, first.now);
    lemma_step_consistent(s, first.op, first.now);
    assert(reviewed.reviews.contains_key((mint, user)));
    lemma_run_keeps_reviews(reviewed, between, (mint, user));
}

/// For the authority of the merchant that owns a coupon, a request to close
/// it is refused as too early, and changes nothing, up to and including the
/// last second of the grace period; from the next second on it is granted and
/// the coupon's record is gone.
pub proof fn lemma_close_after_grace_period(s: LedgerView, mint: Identity, now: i64)
    requires
        s.consistent(),
        s.coupons.contains_key(mint),
    ensures
        ({
            let op = Operation::CloseExpiredCoupon {
                coupon: mint,
                caller: s.coupons[mint].merchant,
            };
            &&& now <= s.coupons[mint].expiry_timestamp + GRACE_PERIOD ==> rejection(s, op, now)
                == Some(ErrorCode::CouponNotExpiredYet) && step(s, op, now) == s
            &&& now > s.coupons[mint].expiry_timestamp + GRACE_PERIOD ==> rejection(s, op, now)
                is None && !step(s, op, now).coupons.contains_key(mint)
        }),
{
}

/// No request removes a merchant, changes its authority or lowers any of its
/// counters.
pub proof fn lemma_step_keeps_merchants(s: LedgerView, op: Operation, now: i64, authority: Identity)
    requires
        s.consistent(),
        s.merchants.contains_key(authority),
    ensures
        step(s, op, now).merchants.contains_key(authority),
        never_below(s.merchants[authority], step(s, op, now).merchants[authority]),
{
}

/// `later` is the merchant `earlier` with no counter lowered.
pub open spec fn never_below(earlier: Merchant, later: Merchant) -> bool {
    &&& later.authority == earlier.authority
    &&& later.total_coupons_created >= earlier.total_coupons_created
    &&& later.total_redemptions >= earlier.total_redemptions
    &&& later.total_revenue >= earlier.total_revenue
    &&& later.rating_sum >= earlier.rating_sum
    &&& later.rating_count >= earlier.rating_count
}

/// No sequence of requests removes a merchant, changes its authority or
/// lowers any of its counters.
pub proof fn lemma_run_keeps_merchants(s: LedgerView, requests: Seq<Timed>, authority: Identity)
    requires
        s.consistent(),
        s.merchants.contains_key(authority),
    ensures
        run(s, requests).merchants.contains_key(authority),
        never_below(s.merchants[authority], run(s, requests).merchants[authority]),
    decreases requests.len(),
{
    if requests.len() > 0 {
        lemma_run_keeps_merchants(s, requests.drop_last(), authority);
        lemma_run_consistent(s, requests.drop_last());
        lemma_step_keeps_merchants(
            run(s, requests.drop_last()),
            requests.last().op,
            requests.last().now,
            authority,
        );
    }
}

/// No request removes a loyalty badge.
pub proof fn lemma_step_keeps_badges(s: LedgerView, op: Operation, now: i64, user: Identity)
    requires
        s.badges.contains_key(user),
    ensures
        step(s, op, now).badges.contains_key(user),
{
}

/// A coupon leaves the ledger only by being closed, after its expiry and the
/// grace period.
pub proof fn lemma_coupon_leaves_only_after_grace_period(
    s: LedgerView,
    op: Operation,
    now: i64,
    mint: Identity,
)
    requires
        s.consistent(),
        s.coupons.contains_key(mint),
        !step(s, op, now).coupons.contains_key(mint),
    ensures
        op matches Operation::CloseExpiredCoupon { coupon, .. } && coupon == mint,
        now > s.coupons[mint].expiry_timestamp + GRACE_PERIOD,
{
}

} // verus!
