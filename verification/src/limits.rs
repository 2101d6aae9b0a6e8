//! The bounds that every record is held to.

use vstd::prelude::*;

verus! {

/// The lowest price a coupon may be offered at, in the smallest unit of the
/// payment asset.
pub const MIN_PRICE: u64 = 1_000;

/// The highest price a coupon may be offered at, and the highest amount a
/// loyalty update accepts.
pub const MAX_PRICE: u64 = 1_000_000_000_000;

/// A coupon must stay valid for more than this many seconds after its creation.
pub const MIN_EXPIRY_DURATION: i64 = 3600;

/// A coupon must expire less than this many seconds after its creation.
pub const MAX_EXPIRY_DURATION: i64 = 31536000;

/// The most units a single coupon may offer.
pub const MAX_REDEMPTIONS_PER_COUPON: u32 = 10_000;

/// The delay, in seconds, between a coupon's expiry and the moment its record
/// may be closed.
pub const GRACE_PERIOD: i64 = 86400;

/// The lowest rating a review may give.
pub const MIN_RATING: u8 = 1;

/// The highest rating a review may give.
pub const MAX_RATING: u8 = 5;

/// The longest merchant name, in characters.
pub const MAX_NAME_LEN: usize = 100;

/// The longest merchant description, in characters.
pub const MAX_DESCRIPTION_LEN: usize = 500;

/// The longest metadata reference, in characters.
pub const MAX_URI_LEN: usize = 200;

/// The longest review comment, in characters.
pub const MAX_COMMENT_LEN: usize = 500;

/// The amount of the payment asset that earns one loyalty point.
pub const UNITS_PER_POINT: u64 = 1_000_000;

} // verus!
