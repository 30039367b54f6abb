//! Ratings that clients give freelancers once a contract completes: the
//! rules a rating must follow, and each freelancer's running record.

use vstd::prelude::*;
use crate::errors::EscrowError;

verus! {

/// Rating scale and comment length used until the administrator sets others.
pub const DEFAULT_MIN_RATING: u32 = 1;
pub const DEFAULT_MAX_RATING: u32 = 5;
pub const DEFAULT_MAX_COMMENT_BYTES: u32 = 200;

/// Highest top of the rating scale the administrator may set.
pub const MAX_RATING_CEILING: u32 = 10;

/// Longest comment limit the administrator may set, in bytes.
pub const MAX_COMMENT_BYTES_CEILING: u32 = 1_000;

/// Scaling of the average rating: an average of 4.5 reads 45,000.
pub const RATING_SCALE: u64 = 10_000;

/// The rules a rating must follow: a rating between `min_rating` and
/// `max_rating` inclusive, and a non-empty comment of at most
/// `max_comment_bytes` bytes.
#[derive(Debug, Clone, Copy, PartialEq, Eq, Structural)]
pub struct ReputationConfig {
    pub min_rating: u32,
    pub max_rating: u32,
    pub max_comment_bytes: u32,
}

impl Default for ReputationConfig {
    fn default() -> (c: Self)
        ensures
            c == default_reputation_config(),
    {
        ReputationConfig {
            min_rating: DEFAULT_MIN_RATING,
            max_rating: DEFAULT_MAX_RATING,
            max_comment_bytes: DEFAULT_MAX_COMMENT_BYTES,
        }
    }
}

/// The rules in force until the administrator sets others: 1 to 5, and
/// comments of up to 200 bytes.
pub open spec fn default_reputation_config() -> ReputationConfig {
    ReputationConfig {
        min_rating: DEFAULT_MIN_RATING,
        max_rating: DEFAULT_MAX_RATING,
        max_comment_bytes: DEFAULT_MAX_COMMENT_BYTES,
    }
}

/// Rules the administrator may set: a scale that starts at 1 or above, does
/// not run backwards and tops out at `MAX_RATING_CEILING`, and a comment
/// limit between 1 and `MAX_COMMENT_BYTES_CEILING` bytes.
pub open spec fn config_valid(c: ReputationConfig) -> bool {
    &&& 1 <= c.min_rating <= c.max_rating <= MAX_RATING_CEILING
    &&& 1 <= c.max_comment_bytes <= MAX_COMMENT_BYTES_CEILING
}

/// Builds rules from their three parts, refusing with
/// `InvalidProtocolParameters` any that `config_valid` rejects.
pub fn validate_reputation_config(min_rating: u32, max_rating: u32, max_comment_bytes: u32) -> (r: Result<ReputationConfig, EscrowError>)
    ensures
        ({
            let c = ReputationConfig { min_rating, max_rating, max_comment_bytes };
            &&& config_valid(c) ==> r == Ok::<ReputationConfig, EscrowError>(c)
            &&& !config_valid(c) ==> r == Err::<ReputationConfig, EscrowError>(EscrowError::InvalidProtocolParameters)
        }),
{
    if min_rating < 1 || max_rating < min_rating || max_rating > MAX_RATING_CEILING {
        return Err(EscrowError::InvalidProtocolParameters);
    }
    if max_comment_bytes < 1 || max_comment_bytes > MAX_COMMENT_BYTES_CEILING {
        return Err(EscrowError::InvalidProtocolParameters);
    }
    Ok(ReputationConfig { min_rating, max_rating, max_comment_bytes })
}

/// A freelancer's record: how many completed contracts were rated, the sum
/// of those ratings, and the latest one.
#[derive(Debug, Clone, Copy, PartialEq, Eq, Structural)]
pub struct Reputation {
    pub completed_contracts: u32,
    pub total_rating: u64,
    pub last_rating: u32,
}

/// A record's ratings stay within what `count` ratings on the widest scale
/// can add up to.
pub open spec fn reputation_bounded(r: Reputation) -> bool {
    r.total_rating <= MAX_RATING_CEILING * r.completed_contracts
}

/// The record after one more rating: a freelancer never rated before
/// starts from nothing.
pub open spec fn after_rating(prev: Option<Reputation>, rating: u32) -> Reputation {
    match prev {
        None => Reputation { completed_contracts: 1, total_rating: rating as u64, last_rating: rating },
        Some(p) => Reputation {
            completed_contracts: (p.completed_contracts + 1) as u32,
            total_rating: (p.total_rating + rating) as u64,
            last_rating: rating,
        },
    }
}

/// Adds one rating to a freelancer's record.
pub fn record_rating(prev: Option<Reputation>, rating: u32) -> (r: Reputation)
    requires
        rating <= MAX_RATING_CEILING,
        prev matches Some(p) ==> reputation_bounded(p) && p.completed_contracts < u32::MAX,
    ensures
        r == after_rating(prev, rating),
        reputation_bounded(r),
{
    match prev {
        None => Reputation { completed_contracts: 1, total_rating: rating as u64, last_rating: rating },
        Some(p) => Reputation {
            completed_contracts: p.completed_contracts + 1,
            total_rating: p.total_rating + rating as u64,
            last_rating: rating,
        },
    }
}

/// The average rating scaled by `RATING_SCALE` and rounded down; `None`
/// for a record without ratings.
pub open spec fn scaled_average(r: Reputation) -> Option<u64> {
    if r.completed_contracts == 0 {
        None
    } else {
        Some(((r.total_rating as int * RATING_SCALE as int) / (r.completed_contracts as int)) as u64)
    }
}

/// Computes `scaled_average`.
pub fn average_rating(r: Reputation) -> (a: Option<u64>)
    requires
        reputation_bounded(r),
    ensures
        a == scaled_average(r),
{
    if r.completed_contracts == 0 {
        return None;
    }
    assert(r.total_rating * RATING_SCALE <= 10 * 4_294_967_295 * 10_000) by (nonlinear_arith)
        requires r.total_rating <= 10 * r.completed_contracts, r.completed_contracts <= 4_294_967_295;
    Some(r.total_rating * RATING_SCALE / r.completed_contracts as u64)
}

} // verus!
