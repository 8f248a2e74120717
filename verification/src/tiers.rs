//! The five difficulty tiers: each has a name, a display color and an
//! inclusive upper bound on the secret number. The lower bound is the
//! shared constant `CAP_BOTTOM`. Bounds strictly increase with the tier
//! index.

use vstd::prelude::*;

verus! {

/// Inclusive lower bound of every tier's guessing range.
pub const CAP_BOTTOM: u32 = 1;

/// How many difficulty tiers there are.
pub const NUMBER_OF_DIFFICULTIES: usize = 5;

/// Inclusive upper bound of the guessing range at tier `i`.
pub open spec fn spec_upper_bound(i: int) -> u32 {
    if i == 0 {
        10
    } else if i == 1 {
        100
    } else if i == 2 {
        1000
    } else if i == 3 {
        10000
    } else {
        100000
    }
}

/// Inclusive upper bound of the guessing range at tier `i`.
pub fn tier_upper_bound(i: usize) -> (r: u32)
    requires
        i < NUMBER_OF_DIFFICULTIES,
    ensures
        r == spec_upper_bound(i as int),
        CAP_BOTTOM <= r,
{
    if i == 0 {
        10
    } else if i == 1 {
        100
    } else if i == 2 {
        1000
    } else if i == 3 {
        10000
    } else {
        100000
    }
}

/// Display name of tier `i`.
pub open spec fn spec_tier_name(i: int) -> Seq<char> {
    if i == 0 {
        "easy"@
    } else if i == 1 {
        "medium"@
    } else if i == 2 {
        "hard"@
    } else if i == 3 {
        "expert"@
    } else {
        "extreme"@
    }
}

/// Display name of tier `i`.
pub fn tier_name(i: usize) -> (r: &'static str)
    requires
        i < NUMBER_OF_DIFFICULTIES,
    ensures
        r@ == spec_tier_name(i as int),
{
    if i == 0 {
        "easy"
    } else if i == 1 {
        "medium"
    } else if i == 2 {
        "hard"
    } else if i == 3 {
        "expert"
    } else {
        "extreme"
    }
}

/// Display color of tier `i`, as an RGB triple.
pub open spec fn spec_tier_color(i: int) -> (u8, u8, u8) {
    if i == 0 {
        (0u8, 170u8, 0u8)
    } else if i == 1 {
        (128u8, 255u8, 0u8)
    } else if i == 2 {
        (255u8, 255u8, 0u8)
    } else if i == 3 {
        (255u8, 128u8, 0u8)
    } else {
        (255u8, 0u8, 0u8)
    }
}

/// Display color of tier `i`, as an RGB triple.
pub fn tier_color(i: usize) -> (r: (u8, u8, u8))
    requires
        i < NUMBER_OF_DIFFICULTIES,
    ensures
        r == spec_tier_color(i as int),
{
    if i == 0 {
        (0, 170, 0)
    } else if i == 1 {
        (128, 255, 0)
    } else if i == 2 {
        (255, 255, 0)
    } else if i == 3 {
        (255, 128, 0)
    } else {
        (255, 0, 0)
    }
}

/// The tiers' bounds strictly increase with the index, and every tier's
/// range is non-empty: `CAP_BOTTOM == 1 <= upper_bound`.
pub proof fn lemma_tier_bounds_increase()
    ensures
        forall|i: int, j: int|
            0 <= i < j < NUMBER_OF_DIFFICULTIES ==> spec_upper_bound(i) < spec_upper_bound(j),
        forall|i: int| 0 <= i < NUMBER_OF_DIFFICULTIES ==> CAP_BOTTOM <= spec_upper_bound(i),
        CAP_BOTTOM == 1,
{
}

} // verus!
