//! The initial bitrate estimate and the size-error adjustment policy.
//!
//! Sizes are in bytes, durations in milliseconds, bitrates in bits per
//! second. The estimate assumes the whole target size is video bitstream;
//! audio and container overhead are ignored by design.

use vstd::prelude::*;

verus! {

/// Largest target size the library accepts, in bytes (512 GiB). Together
/// with a duration of at least one millisecond it keeps the bitrate
/// arithmetic inside `u64`.
pub const MAX_TARGET_SIZE_BYTES: u64 = 549755813888;

/// Largest value the initial estimate can take, in bits per second: the
/// formula peaks at `MAX_TARGET_SIZE_BYTES * 8 * 1000`, which lies just
/// under this power of two.
pub const INITIAL_BITRATE_CAP: u64 = 4503599627370496;

/// Largest bitrate one adjustment step accepts: the initial cap doubled once
/// per attempt the controller can make.
pub const MAX_BITRATE: u64 = INITIAL_BITRATE_CAP * 1024;

/// A size error of at least this many bytes (30 MiB) selects the largest
/// adjustment step.
pub const LARGE_ERROR_BYTES: u64 = 31457280;

/// A size error of at least this many bytes (8.5 MiB), but under
/// `LARGE_ERROR_BYTES`, selects the medium adjustment step.
pub const MEDIUM_ERROR_BYTES: u64 = 8912896;

/// The initial estimate: the whole target size as video bitstream spread
/// evenly over the duration, in bits per second.
pub open spec fn bitrate_for(target_size_bytes: int, duration_ms: int) -> int {
    target_size_bytes * 8 * 1000 / duration_ms
}

/// The estimate a run starts from: the formula's value, floored at one bit
/// per second so the estimate stays positive even when integer division
/// rounds it down to zero.
pub open spec fn initial_bitrate(target_size_bytes: int, duration_ms: int) -> int {
    if bitrate_for(target_size_bytes, duration_ms) >= 1 {
        bitrate_for(target_size_bytes, duration_ms)
    } else {
        1
    }
}

/// Computes the initial bitrate estimate from the target size and the
/// source duration.
pub fn calculate_bitrate(target_size_bytes: u64, duration_ms: u64) -> (r: u64)
    requires
        1 <= target_size_bytes <= MAX_TARGET_SIZE_BYTES,
        1 <= duration_ms,
    ensures
        r == bitrate_for(target_size_bytes as int, duration_ms as int),
        r <= INITIAL_BITRATE_CAP,
{
    let bits: u64 = target_size_bytes * 8000;
    proof {
        assert(bits as int / duration_ms as int <= bits as int) by (nonlinear_arith)
            requires
                1 <= duration_ms,
                0 <= bits,
        ;
    }
    bits / duration_ms
}

/// How far a measured size is from the target, in bytes.
pub open spec fn size_error(current_size_bytes: int, target_size_bytes: int) -> int {
    if current_size_bytes >= target_size_bytes {
        current_size_bytes - target_size_bytes
    } else {
        target_size_bytes - current_size_bytes
    }
}

/// Whether a measured size is close enough to the target for the run to
/// count as converged.
pub open spec fn within_tolerance(
    current_size_bytes: int,
    target_size_bytes: int,
    tolerance_bytes: int,
) -> bool {
    size_error(current_size_bytes, target_size_bytes) <= tolerance_bytes
}

/// Decides whether a measured size lies within the tolerance of the target.
pub fn check_within_tolerance(
    current_size_bytes: u64,
    target_size_bytes: u64,
    tolerance_bytes: u64,
) -> (r: bool)
    ensures
        r == within_tolerance(
            current_size_bytes as int,
            target_size_bytes as int,
            tolerance_bytes as int,
        ),
{
    if current_size_bytes >= target_size_bytes {
        current_size_bytes - target_size_bytes <= tolerance_bytes
    } else {
        target_size_bytes - current_size_bytes <= tolerance_bytes
    }
}

/// The percentage by which one adjustment scales the bitrate: under 100 when
/// the output came out too large, over 100 when it came out too small, with
/// the step growing with the size error. Each bracket edge belongs to the
/// larger step.
pub open spec fn adjustment_percent(current_size_bytes: int, target_size_bytes: int) -> int {
    if current_size_bytes > target_size_bytes {
        if current_size_bytes - target_size_bytes >= LARGE_ERROR_BYTES {
            80
        } else if current_size_bytes - target_size_bytes >= MEDIUM_ERROR_BYTES {
            85
        } else {
            90
        }
    } else {
        if target_size_bytes - current_size_bytes >= LARGE_ERROR_BYTES {
            120
        } else if target_size_bytes - current_size_bytes >= MEDIUM_ERROR_BYTES {
            115
        } else {
            110
        }
    }
}

/// A bitrate scaled by a percentage, rounded to the nearest bit per second.
pub open spec fn scaled_bitrate(bitrate: int, percent: int) -> int {
    (bitrate * percent + 50) / 100
}

/// The bitrate the next attempt will use after a measurement outside
/// tolerance.
pub open spec fn adjusted_bitrate(
    bitrate: int,
    current_size_bytes: int,
    target_size_bytes: int,
) -> int {
    scaled_bitrate(bitrate, adjustment_percent(current_size_bytes, target_size_bytes))
}

/// Scales the bitrate for the next attempt by the percentage the size error
/// selects.
pub fn adjust_bitrate(bitrate: u64, current_size_bytes: u64, target_size_bytes: u64) -> (r: u64)
    requires
        1 <= bitrate <= MAX_BITRATE,
    ensures
        r == adjusted_bitrate(bitrate as int, current_size_bytes as int, target_size_bytes as int),
        1 <= r,
        r <= 2 * bitrate,
{
    let percent: u64 = if current_size_bytes > target_size_bytes {
        let over: u64 = current_size_bytes - target_size_bytes;
        if over >= LARGE_ERROR_BYTES {
            80
        } else if over >= MEDIUM_ERROR_BYTES {
            85
        } else {
            90
        }
    } else {
        let under: u64 = target_size_bytes - current_size_bytes;
        if under >= LARGE_ERROR_BYTES {
            120
        } else if under >= MEDIUM_ERROR_BYTES {
            115
        } else {
            110
        }
    };
    proof {
        assert(bitrate as int * percent as int <= MAX_BITRATE as int * 120) by (nonlinear_arith)
            requires
                0 <= bitrate <= MAX_BITRATE,
                0 <= percent <= 120,
        ;
        assert(80 <= bitrate as int * percent as int) by (nonlinear_arith)
            requires
                1 <= bitrate,
                80 <= percent,
        ;
        assert(bitrate as int * percent as int + 50 <= 200 * bitrate) by (nonlinear_arith)
            requires
                1 <= bitrate,
                percent <= 120,
        ;
    }
    let wide: u128 = (bitrate as u128) * (percent as u128) + 50;
    let scaled: u128 = wide / 100;
    scaled as u64
}

/// Law: the initial-bitrate formula is a pure function of its inputs; two
/// results computed from the same target size and duration are equal.
pub proof fn lemma_bitrate_formula_deterministic(
    target_size_bytes: int,
    duration_ms: int,
    r1: int,
    r2: int,
)
    requires
        r1 == bitrate_for(target_size_bytes, duration_ms),
        r2 == bitrate_for(target_size_bytes, duration_ms),
    ensures
        r1 == r2,
{
}

/// Law: one adjustment keeps the bitrate positive, equals the old bitrate
/// scaled by exactly one of the six step percentages, and moves against the
/// sign of the size error: down when the output was too large, up otherwise.
pub proof fn lemma_adjustment_bounds(bitrate: int, current_size_bytes: int, target_size_bytes: int)
    requires
        1 <= bitrate,
    ensures
        0 < adjusted_bitrate(bitrate, current_size_bytes, target_size_bytes),
        adjusted_bitrate(bitrate, current_size_bytes, target_size_bytes)
            == scaled_bitrate(bitrate, 80)
            || adjusted_bitrate(bitrate, current_size_bytes, target_size_bytes)
                == scaled_bitrate(bitrate, 85)
            || adjusted_bitrate(bitrate, current_size_bytes, target_size_bytes)
                == scaled_bitrate(bitrate, 90)
            || adjusted_bitrate(bitrate, current_size_bytes, target_size_bytes)
                == scaled_bitrate(bitrate, 110)
            || adjusted_bitrate(bitrate, current_size_bytes, target_size_bytes)
                == scaled_bitrate(bitrate, 115)
            || adjusted_bitrate(bitrate, current_size_bytes, target_size_bytes)
                == scaled_bitrate(bitrate, 120),
        current_size_bytes > target_size_bytes ==> adjusted_bitrate(
            bitrate,
            current_size_bytes,
            target_size_bytes,
        ) <= bitrate,
        current_size_bytes <= target_size_bytes ==> adjusted_bitrate(
            bitrate,
            current_size_bytes,
            target_size_bytes,
        ) >= bitrate,
{
    let percent = adjustment_percent(current_size_bytes, target_size_bytes);
    assert(80 <= bitrate * percent) by (nonlinear_arith)
        requires
            1 <= bitrate,
            80 <= percent,
    ;
    if current_size_bytes > target_size_bytes {
        assert(bitrate * percent <= 90 * bitrate) by (nonlinear_arith)
            requires
                0 <= bitrate,
                percent <= 90,
        ;
    } else {
        assert(110 * bitrate <= bitrate * percent) by (nonlinear_arith)
            requires
                0 <= bitrate,
                110 <= percent,
        ;
    }
}

/// Law: a size error exactly at a bracket edge selects the larger step, and
/// one byte under the edge selects the smaller one.
pub proof fn lemma_bracket_boundaries(target_size_bytes: int)
    ensures
        adjustment_percent(target_size_bytes + LARGE_ERROR_BYTES, target_size_bytes) == 80,
        adjustment_percent(target_size_bytes + LARGE_ERROR_BYTES - 1, target_size_bytes) == 85,
        adjustment_percent(target_size_bytes + MEDIUM_ERROR_BYTES, target_size_bytes) == 85,
        adjustment_percent(target_size_bytes + MEDIUM_ERROR_BYTES - 1, target_size_bytes) == 90,
        adjustment_percent(target_size_bytes - LARGE_ERROR_BYTES, target_size_bytes) == 120,
        adjustment_percent(target_size_bytes - LARGE_ERROR_BYTES + 1, target_size_bytes) == 115,
        adjustment_percent(target_size_bytes - MEDIUM_ERROR_BYTES, target_size_bytes) == 115,
        adjustment_percent(target_size_bytes - MEDIUM_ERROR_BYTES + 1, target_size_bytes) == 110,
{
}

} // verus!
