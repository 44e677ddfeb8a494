//! Sector-granularity timing math.
//!
//! The graphics-stream format advances in sectors of exactly 1/75 s
//! (13.333... ms). Elapsed audio time maps to a sector index by
//! `floor(elapsed_ms / (40/3)) = floor(elapsed_ms * 3 / 40)`, minus a fixed,
//! tunable calibration offset that compensates for audio pipeline latency.

use vstd::arithmetic::div_mod::lemma_div_is_ordered;
use vstd::prelude::*;

verus! {

/// Sectors per second of the graphics-stream format.
pub const SECTORS_PER_SECOND: u64 = 75;

/// Default calibration offset, in sectors: decoded graphics lead the audio
/// by this much to compensate for audio pipeline latency.
pub const DEFAULT_SECTOR_OFFSET: u32 = 20;

/// Elapsed times are bounded so the sector math cannot overflow; this allows
/// sessions of about 100 million years.
pub const MAX_ELAPSED_MS: u64 = 0x000f_ffff_ffff_ffff;

/// The raw sector count reached after `ms` milliseconds: one sector per
/// 40/3 ms.
pub open spec fn raw_sector(ms: nat) -> nat {
    (ms * 3) / 40
}

/// The calibrated sector index: the raw count, shifted back by the
/// calibration offset. Negative until playback has run for `offset` sectors.
pub open spec fn sector_index(ms: nat, offset: nat) -> int {
    raw_sector(ms) - offset
}

/// Compute the calibrated sector index for an elapsed time.
pub fn calc_sector(elapsed_ms: u64, offset: u32) -> (r: i64)
    requires
        elapsed_ms <= MAX_ELAPSED_MS,
    ensures
        r == sector_index(elapsed_ms as nat, offset as nat),
{
    let raw = (elapsed_ms * 3) / 40;
    (raw as i64) - (offset as i64)
}

/// The sector index is monotonic, non-decreasing in elapsed time, for any
/// fixed calibration offset.
pub proof fn lemma_sector_index_monotonic(ms1: nat, ms2: nat, offset: nat)
    requires
        ms1 <= ms2,
    ensures
        sector_index(ms1, offset) <= sector_index(ms2, offset),
{
    lemma_div_is_ordered(ms1 as int * 3, ms2 as int * 3, 40);
}

} // verus!
