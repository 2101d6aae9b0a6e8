//! Accepting one review of a coupon from each user who bought or redeemed it.

use vstd::prelude::*;
use vstd::string::StrSliceExecFns;
use crate::error::ErrorCode;
use crate::events::ReviewSubmitted;
use crate::identity::Identity;
use crate::limits::{MAX_COMMENT_LEN, MAX_RATING, MIN_RATING};
use crate::records::{Coupon, Merchant, RedemptionRecord, Review, TokenAccount};
use crate::validation::{is_clean_text, is_valid_utf8};

verus! {

/// What a review works on.
#[derive(Debug, PartialEq, Eq)]
pub struct SubmitReview {
    /// The place of the review of this coupon by this user: vacant until the
    /// user reviews the coupon.
    pub review: Option<Review>,
    pub coupon: Coupon,
    /// The merchant whose rating the review counts towards.
    pub merchant: Merchant,
    /// The holding that the user shows as proof of purchase.
    pub user_nft_account: TokenAccount,
    /// The record of the user's redemption of this coupon, if there is one.
    pub redemption_record: Option<RedemptionRecord>,
    pub user: Identity,
}

/// The holding shows that `user` still owns at least one unit of `coupon`'s
/// asset.
pub open spec fn holds_coupon(holding: TokenAccount, coupon: Coupon, user: Identity) -> bool {
    holding.amount >= 1 && holding.mint == coupon.mint && holding.owner == user
}

/// The record shows that `user` has redeemed `coupon`.
pub open spec fn has_redeemed(record: Option<RedemptionRecord>, coupon: Coupon, user: Identity)
    -> bool {
    record is Some && record->0.coupon == coupon.mint && record->0.user == user
}

/// Why a review with this rating and comment cannot be accepted, if it
/// cannot: the first of the conditions below that is violated.
pub open spec fn submit_review_rejection(ctx: SubmitReview, rating: u8, comment: Seq<char>)
    -> Option<ErrorCode> {
    if ctx.review is Some {
        Some(ErrorCode::DuplicateReview)
    } else if rating < MIN_RATING || rating > MAX_RATING {
        Some(ErrorCode::InvalidRating)
    } else if comment.len() > MAX_COMMENT_LEN {
        Some(ErrorCode::CommentTooLong)
    } else if !is_clean_text(comment) {
        Some(ErrorCode::InvalidUtf8)
    } else if !holds_coupon(ctx.user_nft_account, ctx.coupon, ctx.user) && !has_redeemed(
        ctx.redemption_record,
        ctx.coupon,
        ctx.user,
    ) {
        Some(ErrorCode::MustOwnCouponToReview)
    } else if ctx.merchant.rating_sum + rating > u64::MAX {
        Some(ErrorCode::ArithmeticOverflow)
    } else if ctx.merchant.rating_count == u32::MAX {
        Some(ErrorCode::ArithmeticOverflow)
    } else {
        None
    }
}

/// The merchant after one more rating was counted towards it.
pub open spec fn rated(merchant: Merchant, rating: u8) -> Merchant {
    Merchant {
        rating_sum: (merchant.rating_sum + rating) as u64,
        rating_count: (merchant.rating_count + 1) as u32,
        ..merchant
    }
}

/// Accepts a review of `ctx.coupon` by `ctx.user` at time `now`.
///
/// A user who has already reviewed the coupon is always refused with
/// `DuplicateReview`. On success the review stands in `ctx.review`, the
/// merchant's rating sum has grown by `rating` and its rating count by one,
/// and the notification to publish is returned. On failure nothing has
/// changed.
pub fn submit_review(ctx: &mut SubmitReview, rating: u8, comment: String, now: i64) -> (r: Result<
    ReviewSubmitted,
    ErrorCode,
>)
    ensures
        match r {
            Ok(event) => {
                &&& submit_review_rejection(*old(ctx), rating, comment@) is None
                &&& *final(ctx) == (SubmitReview {
                    review: Some(
                        Review {
                            coupon: old(ctx).coupon.mint,
                            user: old(ctx).user,
                            rating,
                            comment,
                            timestamp: now,
                        },
                    ),
                    merchant: rated(old(ctx).merchant, rating),
                    ..*old(ctx)
                })
                &&& event == (ReviewSubmitted {
                    coupon: old(ctx).coupon.mint,
                    user: old(ctx).user,
                    rating,
                    timestamp: now,
                })
            },
            Err(e) => {
                &&& submit_review_rejection(*old(ctx), rating, comment@) == Some(e)
                &&& *final(ctx) == *old(ctx)
            },
        },
{
    if ctx.review.is_some() {
        return Err(ErrorCode::DuplicateReview);
    }
    if rating < MIN_RATING || rating > MAX_RATING {
        return Err(ErrorCode::InvalidRating);
    }
    if comment.as_str().unicode_len() > MAX_COMMENT_LEN {
        return Err(ErrorCode::CommentTooLong);
    }
    if !is_valid_utf8(comment.as_str()) {
        return Err(ErrorCode::InvalidUtf8);
    }
    let holds = ctx.user_nft_account.amount >= 1 && ctx.user_nft_account.mint.same(
        &ctx.coupon.mint,
    ) && ctx.user_nft_account.owner.same(&ctx.user);
    let redeemed = match &ctx.redemption_record {
        Some(record) => record.coupon.same(&ctx.coupon.mint) && record.user.same(&ctx.user),
        None => false,
    };
    if !holds && !redeemed {
        return Err(ErrorCode::MustOwnCouponToReview);
    }
    let sum: u64 = match ctx.merchant.rating_sum.checked_add(rating as u64) {
        Some(n) => n,
        None => {
            return Err(ErrorCode::ArithmeticOverflow);
        },
    };
    let count: u32 = match ctx.merchant.rating_count.checked_add(1) {
        Some(n) => n,
        None => {
            return Err(ErrorCode::ArithmeticOverflow);
        },
    };
    ctx.review = Some(
        Review { coupon: ctx.coupon.mint, user: ctx.user, rating, comment, timestamp: now },
    );
    ctx.merchant.rating_sum = sum;
    ctx.merchant.rating_count = count;
    Ok(ReviewSubmitted { coupon: ctx.coupon.mint, user: ctx.user, rating, timestamp: now })
}

/// No counter wraps in a review. One that is accepted adds exactly the rating
/// to the merchant's rating sum and exactly one to its rating count; one that
/// nothing stands against but the range of either is refused with
/// `ArithmeticOverflow`.
pub proof fn lemma_review_never_wraps(ctx: SubmitReview, rating: u8, comment: Seq<char>)
    ensures
        submit_review_rejection(ctx, rating, comment) is None ==> {
            &&& rated(ctx.merchant, rating).rating_sum == ctx.merchant.rating_sum + rating
            &&& rated(ctx.merchant, rating).rating_count == ctx.merchant.rating_count + 1
        },
        (ctx.merchant.rating_sum + rating > u64::MAX || ctx.merchant.rating_count == u32::MAX)
            && submit_review_rejection(
            SubmitReview {
                merchant: Merchant { rating_sum: 0, rating_count: 0, ..ctx.merchant },
                ..ctx
            },
            rating,
            comment,
        ) is None ==> submit_review_rejection(ctx, rating, comment) == Some(
            ErrorCode::ArithmeticOverflow,
        ),
{
}

} // verus!
