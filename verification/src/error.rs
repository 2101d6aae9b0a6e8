//! The reasons for which an operation is refused.

use vstd::prelude::*;

verus! {

/// The four classes of refusal. A caller can correct and retry after
/// `Validation`, must not expect the same call to succeed after
/// `Authorization`, may find the object in another state later after `State`,
/// and has hit the end of a counter's range after `ArithmeticOverflow`.
#[derive(Clone, Copy, Debug, PartialEq, Eq, Structural)]
pub enum ErrorKind {
    Validation,
    Authorization,
    State,
    ArithmeticOverflow,
}

/// The specific reason for which an operation was refused. An operation that
/// returns one of these has changed nothing.
#[derive(Clone, Copy, Debug, PartialEq, Eq, Structural)]
pub enum ErrorCode {
    NameTooLong,
    NameEmpty,
    DescriptionTooLong,
    InvalidDiscount,
    InvalidPrice,
    ExpiryTooSoon,
    ExpiryTooFar,
    InvalidQuantity,
    UriTooLong,
    UriEmpty,
    InvalidUri,
    CouponInactive,
    CouponExpired,
    SoldOut,
    AllRedemptionsUsed,
    UserDoesNotOwnNFT,
    InvalidNFTAmount,
    WrongNFT,
    InvalidRating,
    CommentTooLong,
    ArithmeticOverflow,
    MintMustNotHaveFreezeAuthority,
    MustOwnCouponToReview,
    CouponNotExpiredYet,
    MerchantPaused,
    InsufficientFunds,
    InvalidAmount,
    Unauthorized,
    InvalidUtf8,
    /// A merchant is already registered for this authority.
    MerchantAlreadyExists,
    /// A coupon already exists for this asset type.
    CouponAlreadyExists,
    /// This user has already redeemed this coupon.
    DuplicateRedemption,
    /// This user has already reviewed this coupon.
    DuplicateReview,
    /// This user already has a loyalty badge.
    LoyaltyBadgeAlreadyExists,
    /// No merchant is registered under the identity given.
    MerchantNotFound,
    /// No coupon exists for the asset type given.
    CouponNotFound,
    /// The user has no loyalty badge.
    LoyaltyBadgeNotFound,
}

impl ErrorCode {
    /// The class that each reason belongs to.
    pub open spec fn spec_kind(self) -> ErrorKind {
        match self {
            ErrorCode::NameTooLong
            | ErrorCode::NameEmpty
            | ErrorCode::DescriptionTooLong
            | ErrorCode::InvalidDiscount
            | ErrorCode::InvalidPrice
            | ErrorCode::ExpiryTooSoon
            | ErrorCode::ExpiryTooFar
            | ErrorCode::InvalidQuantity
            | ErrorCode::UriTooLong
            | ErrorCode::UriEmpty
            | ErrorCode::InvalidUri
            | ErrorCode::InvalidRating
            | ErrorCode::CommentTooLong
            | ErrorCode::MintMustNotHaveFreezeAuthority
            | ErrorCode::InsufficientFunds
            | ErrorCode::InvalidAmount
            | ErrorCode::InvalidUtf8 => ErrorKind::Validation,
            ErrorCode::UserDoesNotOwnNFT
            | ErrorCode::InvalidNFTAmount
            | ErrorCode::WrongNFT
            | ErrorCode::MustOwnCouponToReview
            | ErrorCode::Unauthorized => ErrorKind::Authorization,
            ErrorCode::CouponInactive
            | ErrorCode::CouponExpired
            | ErrorCode::SoldOut
            | ErrorCode::AllRedemptionsUsed
            | ErrorCode::CouponNotExpiredYet
            | ErrorCode::MerchantPaused
            | ErrorCode::MerchantAlreadyExists
            | ErrorCode::CouponAlreadyExists
            | ErrorCode::DuplicateRedemption
            | ErrorCode::DuplicateReview
            | ErrorCode::LoyaltyBadgeAlreadyExists
            | ErrorCode::MerchantNotFound
            | ErrorCode::CouponNotFound
            | ErrorCode::LoyaltyBadgeNotFound => ErrorKind::State,
            ErrorCode::ArithmeticOverflow => ErrorKind::ArithmeticOverflow,
        }
    }

    /// The class of this reason.
    #[verifier::when_used_as_spec(spec_kind)]
    pub fn kind(self) -> (k: ErrorKind)
        ensures
            k == self.spec_kind(),
    {
        match self {
            ErrorCode::NameTooLong
            | ErrorCode::NameEmpty
            | ErrorCode::DescriptionTooLong
            | ErrorCode::InvalidDiscount
            | ErrorCode::InvalidPrice
            | ErrorCode::ExpiryTooSoon
            | ErrorCode::ExpiryTooFar
            | ErrorCode::InvalidQuantity
            | ErrorCode::UriTooLong
            | ErrorCode::UriEmpty
            | ErrorCode::InvalidUri
            | ErrorCode::InvalidRating
            | ErrorCode::CommentTooLong
            | ErrorCode::MintMustNotHaveFreezeAuthority
            | ErrorCode::InsufficientFunds
            | ErrorCode::InvalidAmount
            | ErrorCode::InvalidUtf8 => ErrorKind::Validation,
            ErrorCode::UserDoesNotOwnNFT
            | ErrorCode::InvalidNFTAmount
            | ErrorCode::WrongNFT
            | ErrorCode::MustOwnCouponToReview
            | ErrorCode::Unauthorized => ErrorKind::Authorization,
            ErrorCode::CouponInactive
            | ErrorCode::CouponExpired
            | ErrorCode::SoldOut
            | ErrorCode::AllRedemptionsUsed
            | ErrorCode::CouponNotExpiredYet
            | ErrorCode::MerchantPaused
            | ErrorCode::MerchantAlreadyExists
            | ErrorCode::CouponAlreadyExists
            | ErrorCode::DuplicateRedemption
            | ErrorCode::DuplicateReview
            | ErrorCode::LoyaltyBadgeAlreadyExists
            | ErrorCode::MerchantNotFound
            | ErrorCode::CouponNotFound
            | ErrorCode::LoyaltyBadgeNotFound => ErrorKind::State,
            ErrorCode::ArithmeticOverflow => ErrorKind::ArithmeticOverflow,
        }
    }

    /// The text that describes each reason to a user.
    pub open spec fn spec_message(self) -> Seq<char> {
        match self {
            ErrorCode::NameTooLong => "Name is too long (max 100 characters)"@,
            ErrorCode::NameEmpty => "Name cannot be empty"@,
            ErrorCode::DescriptionTooLong => "Description is too long (max 500 characters)"@,
            ErrorCode::InvalidDiscount => "Invalid discount percentage (must be 0-100)"@,
            ErrorCode::InvalidPrice => "Invalid price (must be between 0.001 and 1M USDC)"@,
            ErrorCode::ExpiryTooSoon => "Expiry is too soon (minimum 1 hour from now)"@,
            ErrorCode::ExpiryTooFar => "Expiry is too far in the future (maximum 1 year)"@,
            ErrorCode::InvalidQuantity => "Invalid quantity (must be between 1 and 10,000)"@,
            ErrorCode::UriTooLong => "URI is too long (max 200 characters)"@,
            ErrorCode::UriEmpty => "URI cannot be empty"@,
            ErrorCode::InvalidUri => "Invalid URI format (must start with ipfs://, https://, or ar://)"@,
            ErrorCode::CouponInactive => "Coupon is inactive"@,
            ErrorCode::CouponExpired => "Coupon has expired"@,
            ErrorCode::SoldOut => "All coupons have been sold"@,
            ErrorCode::AllRedemptionsUsed => "All redemptions have been used"@,
            ErrorCode::UserDoesNotOwnNFT => "User does not own the required NFT"@,
            ErrorCode::InvalidNFTAmount => "Invalid NFT amount (must own exactly 1)"@,
            ErrorCode::WrongNFT => "Wrong NFT (mint mismatch)"@,
            ErrorCode::InvalidRating => "Invalid rating (must be between 1 and 5)"@,
            ErrorCode::CommentTooLong => "Comment is too long (max 500 characters)"@,
            ErrorCode::ArithmeticOverflow => "Arithmetic overflow detected"@,
            ErrorCode::MintMustNotHaveFreezeAuthority => "Mint must not have freeze authority (security requirement)"@,
            ErrorCode::MustOwnCouponToReview => "Must own or have redeemed the coupon to review"@,
            ErrorCode::CouponNotExpiredYet => "Coupon not expired yet (24h grace period required)"@,
            ErrorCode::MerchantPaused => "Merchant operations are currently paused"@,
            ErrorCode::InsufficientFunds => "Insufficient funds in token account"@,
            ErrorCode::InvalidAmount => "Invalid amount provided"@,
            ErrorCode::Unauthorized => "Unauthorized: caller is not the authority"@,
            ErrorCode::InvalidUtf8 => "Invalid UTF-8 characters in string"@,
            ErrorCode::MerchantAlreadyExists => "A merchant is already registered for this authority"@,
            ErrorCode::CouponAlreadyExists => "A coupon already exists for this mint"@,
            ErrorCode::DuplicateRedemption => "This user has already redeemed this coupon"@,
            ErrorCode::DuplicateReview => "This user has already reviewed this coupon"@,
            ErrorCode::LoyaltyBadgeAlreadyExists => "This user already has a loyalty badge"@,
            ErrorCode::MerchantNotFound => "No merchant is registered for this authority"@,
            ErrorCode::CouponNotFound => "No coupon exists for this mint"@,
            ErrorCode::LoyaltyBadgeNotFound => "This user has no loyalty badge"@,
        }
    }

    /// The text that describes this reason to a user.
    pub fn message(self) -> (text: &'static str)
        ensures
            text@ == self.spec_message(),
    {
        match self {
            ErrorCode::NameTooLong => "Name is too long (max 100 characters)",
            ErrorCode::NameEmpty => "Name cannot be empty",
            ErrorCode::DescriptionTooLong => "Description is too long (max 500 characters)",
            ErrorCode::InvalidDiscount => "Invalid discount percentage (must be 0-100)",
            ErrorCode::InvalidPrice => "Invalid price (must be between 0.001 and 1M USDC)",
            ErrorCode::ExpiryTooSoon => "Expiry is too soon (minimum 1 hour from now)",
            ErrorCode::ExpiryTooFar => "Expiry is too far in the future (maximum 1 year)",
            ErrorCode::InvalidQuantity => "Invalid quantity (must be between 1 and 10,000)",
            ErrorCode::UriTooLong => "URI is too long (max 200 characters)",
            ErrorCode::UriEmpty => "URI cannot be empty",
            ErrorCode::InvalidUri => "Invalid URI format (must start with ipfs://, https://, or ar://)",
            ErrorCode::CouponInactive => "Coupon is inactive",
            ErrorCode::CouponExpired => "Coupon has expired",
            ErrorCode::SoldOut => "All coupons have been sold",
            ErrorCode::AllRedemptionsUsed => "All redemptions have been used",
            ErrorCode::UserDoesNotOwnNFT => "User does not own the required NFT",
            ErrorCode::InvalidNFTAmount => "Invalid NFT amount (must own exactly 1)",
            ErrorCode::WrongNFT => "Wrong NFT (mint mismatch)",
            ErrorCode::InvalidRating => "Invalid rating (must be between 1 and 5)",
            ErrorCode::CommentTooLong => "Comment is too long (max 500 characters)",
            ErrorCode::ArithmeticOverflow => "Arithmetic overflow detected",
            ErrorCode::MintMustNotHaveFreezeAuthority => "Mint must not have freeze authority (security requirement)",
            ErrorCode::MustOwnCouponToReview => "Must own or have redeemed the coupon to review",
            ErrorCode::CouponNotExpiredYet => "Coupon not expired yet (24h grace period required)",
            ErrorCode::MerchantPaused => "Merchant operations are currently paused",
            ErrorCode::InsufficientFunds => "Insufficient funds in token account",
            ErrorCode::InvalidAmount => "Invalid amount provided",
            ErrorCode::Unauthorized => "Unauthorized: caller is not the authority",
            ErrorCode::InvalidUtf8 => "Invalid UTF-8 characters in string",
            ErrorCode::MerchantAlreadyExists => "A merchant is already registered for this authority",
            ErrorCode::CouponAlreadyExists => "A coupon already exists for this mint",
            ErrorCode::DuplicateRedemption => "This user has already redeemed this coupon",
            ErrorCode::DuplicateReview => "This user has already reviewed this coupon",
            ErrorCode::LoyaltyBadgeAlreadyExists => "This user already has a loyalty badge",
            ErrorCode::MerchantNotFound => "No merchant is registered for this authority",
            ErrorCode::CouponNotFound => "No coupon exists for this mint",
            ErrorCode::LoyaltyBadgeNotFound => "This user has no loyalty badge",
        }
    }
}

} // verus!
